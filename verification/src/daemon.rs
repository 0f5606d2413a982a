//! The polling loop, as the sequence of steps that its caller takes: pass,
//! report a failed pass, sleep, and over again, without end.

use vstd::prelude::*;
use vstd::string::*;
use crate::text::str_text;

verus! {

/// What the caller of the loop does next.
#[derive(Clone, Debug, PartialEq, Eq)]
pub enum Step {
    /// Run one pass over the directory.
    Sort,
    /// Print this line: the last pass failed.
    Report(String),
    /// Sleep for this many seconds.
    Sleep(u64),
}

/// The mathematical content of a [`Step`].
pub enum StepView {
    Sort,
    Report(Seq<char>),
    Sleep(u64),
}

impl View for Step {
    type V = StepView;

    open spec fn view(&self) -> StepView {
        match *self {
            Step::Sort => StepView::Sort,
            Step::Report(line) => StepView::Report(line@),
            Step::Sleep(seconds) => StepView::Sleep(seconds),
        }
    }
}

/// The line that reports a failed pass.
pub open spec fn report_line(failure: Seq<char>) -> Seq<char> {
    "Daemon error: "@ + failure
}

/// The step that follows `done`. A pass that failed, with `failure` as its
/// complaint, is reported; a pass that went well, a report and nothing else
/// are followed by a sleep of `interval` seconds; a sleep is followed by
/// the next pass. `failure` counts only after a pass.
pub open spec fn step_after(done: StepView, failure: Option<Seq<char>>, interval: u64) -> StepView {
    match done {
        StepView::Sort => match failure {
            Some(complaint) => StepView::Report(report_line(complaint)),
            None => StepView::Sleep(interval),
        },
        StepView::Report(_) => StepView::Sleep(interval),
        StepView::Sleep(_) => StepView::Sort,
    }
}

/// No failure ends the loop: after every pass, failed or not, the loop
/// comes to sleep for the interval, by way of a report at most, and after
/// the sleep it passes again.
pub proof fn lemma_loop_goes_on(
    failure: Option<Seq<char>>,
    later: Option<Seq<char>>,
    interval: u64,
)
    ensures
        ({
            let next = step_after(StepView::Sort, failure, interval);
            let sleep = StepView::Sleep(interval);
            &&& failure is None ==> next == sleep
            &&& failure is Some ==> next is Report && step_after(next, later, interval) == sleep
            &&& step_after(sleep, later, interval) == StepView::Sort
        }),
{
}

/// The step that the loop starts with: a pass.
pub fn first_step() -> (step: Step)
    ensures
        step@ == StepView::Sort,
{
    Step::Sort
}

/// Chooses the step that follows `done`, where `failure` is the complaint
/// of the pass that `done` made, if it made one and it failed.
pub fn next_step(done: &Step, failure: Option<&str>, interval: u64) -> (step: Step)
    ensures
        step@ == step_after(done@, str_text(failure), interval),
{
    match done {
        Step::Sort => match failure {
            Some(complaint) => {
                let mut line = String::from_str("Daemon error: ");
                line.append(complaint);
                Step::Report(line)
            },
            None => Step::Sleep(interval),
        },
        Step::Report(_) => Step::Sleep(interval),
        Step::Sleep(_) => Step::Sort,
    }
}

} // verus!
