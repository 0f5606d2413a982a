//! One pass over a directory: which of its entries move, and where to.

use vstd::prelude::*;
use vstd::string::*;
use crate::classify::{apply_rules, destination_of};
use crate::json::{load_rules, loaded_rules};
use crate::paths::{
    file_name, file_name_of, join, joined, lemma_file_name_is_one_segment, lemma_joined_file_name,
};
use crate::text::{str_text, text_of};
use crate::rules::RuleMap;
use crate::script::new_interpreter;

verus! {

/// One entry of the directory's listing: its name, and whether it is a
/// regular file. Anything else, a subdirectory above all, is never moved.
#[derive(Clone, Debug, PartialEq, Eq)]
pub struct Entry {
    pub name: String,
    pub is_file: bool,
}

/// The mathematical content of an [`Entry`].
pub struct EntryView {
    pub name: Seq<char>,
    pub is_file: bool,
}

impl View for Entry {
    type V = EntryView;

    open spec fn view(&self) -> EntryView {
        EntryView { name: self.name@, is_file: self.is_file }
    }
}

/// One file to move: from `source` into `folder`, which is created first
/// with the folders above it if it is not there, to end up at `target`.
#[derive(Clone, Debug, PartialEq, Eq)]
pub struct Move {
    pub source: String,
    pub folder: String,
    pub target: String,
}

/// The mathematical content of a [`Move`].
pub struct MoveView {
    pub source: Seq<char>,
    pub folder: Seq<char>,
    pub target: Seq<char>,
}

impl View for Move {
    type V = MoveView;

    open spec fn view(&self) -> MoveView {
        MoveView { source: self.source@, folder: self.folder@, target: self.target@ }
    }
}

/// Why a pass did not take place.
#[derive(Clone, Copy, Debug, PartialEq, Eq)]
pub enum SortError {
    /// What was to be sorted is not a directory.
    NotADirectory,
}

impl SortError {
    /// The complaint, for a log line.
    pub fn message(&self) -> (text: String)
        ensures
            text@ == "Not a directory"@,
    {
        String::from_str("Not a directory")
    }
}

/// The move that takes the file at `file_path` to `destination`, a folder
/// named relative to `directory`: the file keeps its name. The destination
/// is taken as it stands, so one that names several folders in a row leads
/// that deep, and a rooted one leads out of `directory`.
pub open spec fn move_of(
    file_path: Seq<char>,
    directory: Seq<char>,
    destination: Seq<char>,
) -> MoveView {
    let folder = joined(directory, destination);
    MoveView { source: file_path, folder, target: joined(folder, file_name_of(file_path)) }
}

/// What a pass does with one entry of `directory`, given what the script
/// said of it: a regular file with a destination moves there, and nothing
/// else moves.
pub open spec fn entry_move(
    directory: Seq<char>,
    entry: EntryView,
    rules: Map<Seq<char>, Seq<char>>,
    dynamic: Option<Seq<char>>,
) -> Option<MoveView> {
    if entry.is_file {
        let file_path = joined(directory, entry.name);
        match destination_of(file_path, rules, dynamic) {
            Some(destination) => Some(move_of(file_path, directory, destination)),
            None => None,
        }
    } else {
        None
    }
}

/// What a pass does with each entry of `directory` in turn, given what the
/// script said of each.
pub open spec fn pass_moves(
    directory: Seq<char>,
    entries: Seq<Entry>,
    rules: Map<Seq<char>, Seq<char>>,
    dynamic: Seq<Option<Seq<char>>>,
) -> Seq<Option<MoveView>> {
    Seq::new(entries.len(), |i: int| entry_move(directory, entries[i]@, rules, dynamic[i]))
}

/// The view of an optional move.
pub open spec fn move_view(decision: Option<Move>) -> Option<MoveView> {
    match decision {
        Some(m) => Some(m@),
        None => None,
    }
}

/// The views of a pass's decisions.
pub open spec fn move_views(decisions: Seq<Option<Move>>) -> Seq<Option<MoveView>> {
    Seq::new(decisions.len(), |i: int| move_view(decisions[i]))
}

/// What the script says of `n` entries where there is none: nothing.
pub open spec fn silence(n: nat) -> Seq<Option<Seq<char>>> {
    Seq::new(n, |i: int| None)
}

/// An entry that is not a regular file stays where it is, whatever the
/// table and the script say.
pub proof fn lemma_only_files_move(
    directory: Seq<char>,
    entry: EntryView,
    rules: Map<Seq<char>, Seq<char>>,
    dynamic: Option<Seq<char>>,
)
    requires
        !entry.is_file,
    ensures
        entry_move(directory, entry, rules, dynamic) is None,
{
}

/// A file that the table has no rule for, and that no script speaks for,
/// stays where it is.
pub proof fn lemma_unmatched_file_stays(
    directory: Seq<char>,
    entry: EntryView,
    rules: Map<Seq<char>, Seq<char>>,
)
    requires
        destination_of(joined(directory, entry.name), rules, None) is None,
    ensures
        entry_move(directory, entry, rules, None) is None,
{
}

/// A pass over a directory that holds no regular file at its top moves
/// nothing: once everything is sorted away, passing again changes nothing.
pub proof fn lemma_sorted_directory_is_stable(
    directory: Seq<char>,
    entries: Seq<Entry>,
    rules: Map<Seq<char>, Seq<char>>,
    dynamic: Seq<Option<Seq<char>>>,
)
    requires
        forall|i: int| 0 <= i < entries.len() ==> !(#[trigger] entries[i]).is_file,
    ensures
        forall|i: int|
            0 <= i < entries.len() ==> (#[trigger] pass_moves(
                directory,
                entries,
                rules,
                dynamic,
            )[i]) is None,
{
}

/// Without a script, a pass settles the directory for good: in a later
/// listing whose regular files all were there before and stayed, nothing
/// moves. What the first pass added, folders, never moves anyway.
pub proof fn lemma_second_pass_moves_nothing(
    directory: Seq<char>,
    entries: Seq<Entry>,
    later: Seq<Entry>,
    rules: Map<Seq<char>, Seq<char>>,
)
    requires
        forall|j: int|
            0 <= j < later.len() && (#[trigger] later[j]).is_file ==> exists|i: int|
                {
                    &&& 0 <= i < entries.len()
                    &&& entries[i]@ == later[j]@
                    &&& (#[trigger] pass_moves(
                        directory,
                        entries,
                        rules,
                        silence(entries.len()),
                    )[i]) is None
                },
    ensures
        forall|j: int|
            0 <= j < later.len() ==> (#[trigger] pass_moves(
                directory,
                later,
                rules,
                silence(later.len()),
            )[j]) is None,
{
    assert forall|j: int| 0 <= j < later.len() implies (#[trigger] pass_moves(
        directory,
        later,
        rules,
        silence(later.len()),
    )[j]) is None by {
        if later[j].is_file {
            let i = choose|i: int|
                {
                    &&& 0 <= i < entries.len()
                    &&& entries[i]@ == later[j]@
                    &&& (#[trigger] pass_moves(
                        directory,
                        entries,
                        rules,
                        silence(entries.len()),
                    )[i]) is None
                };
            assert(entry_move(directory, entries[i]@, rules, None) is None);
        }
    }
}

/// A move leaves the file its name: the target is the file's name inside
/// the destination folder.
pub proof fn lemma_move_keeps_name(
    file_path: Seq<char>,
    directory: Seq<char>,
    destination: Seq<char>,
)
    ensures
        ({
            let planned = move_of(file_path, directory, destination);
            &&& planned.source == file_path
            &&& planned.folder == joined(directory, destination)
            &&& planned.target == joined(planned.folder, file_name_of(file_path))
            &&& file_name_of(planned.target) == file_name_of(file_path)
        }),
{
    lemma_file_name_is_one_segment(file_path);
    lemma_joined_file_name(joined(directory, destination), file_name_of(file_path));
}

/// Plans the move of the file at `file_path` to `destination`, a folder
/// named relative to `directory`.
pub fn plan_move(file_path: &str, directory: &str, destination: &str) -> (planned: Move)
    ensures
        planned@ == move_of(file_path@, directory@, destination@),
{
    let folder = join(directory, destination);
    let name = file_name(file_path);
    let target = join(folder.as_str(), name.as_str());
    Move { source: file_path.to_owned(), folder, target }
}

/// Decides what a pass does with one entry of `directory`.
pub fn sort_entry(
    directory: &str,
    entry: &Entry,
    rules: &RuleMap,
    lua: &mlua::Lua,
    script: Option<&str>,
) -> (decision: Option<Move>)
    ensures
        script is None ==> move_view(decision) == entry_move(directory@, entry@, rules@, None),
        exists|dynamic: Option<Seq<char>>|
            move_view(decision) == #[trigger] entry_move(directory@, entry@, rules@, dynamic),
{
    if !entry.is_file {
        assert(move_view(None) == entry_move(directory@, entry@, rules@, None));
        return None;
    }
    let file_path = join(directory, entry.name.as_str());
    let destination = apply_rules(file_path.as_str(), rules, lua, script);
    let ghost dynamic = choose|dynamic: Option<Seq<char>>|
        text_of(destination) == #[trigger] destination_of(file_path@, rules@, dynamic);
    let decision = match destination {
        Some(folder) => Some(plan_move(file_path.as_str(), directory, folder.as_str())),
        None => None,
    };
    assert(move_view(decision) == entry_move(directory@, entry@, rules@, dynamic));
    decision
}

/// Runs one pass over `directory`, of which the caller has seen whether it
/// is a directory, what it holds at its top, and what the rule file and
/// the rule script say, where they could be read. The result holds one
/// decision for each entry, in the order of the listing: the move to make,
/// or `None` for an entry that stays. The caller makes the moves; that one
/// of them fails is no reason to leave out the rest.
///
/// The pass fails only where `directory` is no directory. The table is
/// settled once, before the first entry. Without a script the decisions
/// follow from the arguments; with one, they are what they would be for
/// some answers of the script, one for each entry.
pub fn sort_files(
    directory: &str,
    is_directory: bool,
    entries: &Vec<Entry>,
    rules_text: Option<&str>,
    script: Option<&str>,
) -> (outcome: Result<Vec<Option<Move>>, SortError>)
    ensures
        !is_directory ==> outcome == Err::<Vec<Option<Move>>, SortError>(SortError::NotADirectory),
        is_directory ==> outcome is Ok && outcome->Ok_0@.len() == entries@.len(),
        is_directory ==> forall|i: int|
            0 <= i < entries@.len() && !(#[trigger] entries@[i]).is_file
                ==> outcome->Ok_0@[i] is None,
        is_directory && script is None ==> move_views(outcome->Ok_0@) == pass_moves(
            directory@,
            entries@,
            loaded_rules(str_text(rules_text)),
            silence(entries@.len()),
        ),
        is_directory ==> exists|dynamic: Seq<Option<Seq<char>>>|
            {
                &&& dynamic.len() == entries@.len()
                &&& move_views(outcome->Ok_0@) == #[trigger] pass_moves(
                    directory@,
                    entries@,
                    loaded_rules(str_text(rules_text)),
                    dynamic,
                )
            },
{
    if !is_directory {
        return Err(SortError::NotADirectory);
    }
    let rules = load_rules(rules_text);
    let lua = new_interpreter();
    let mut decisions: Vec<Option<Move>> = Vec::new();
    let ghost mut dynamic: Seq<Option<Seq<char>>> = Seq::empty();
    let n: usize = entries.len();
    let mut i: usize = 0;
    while i < n
        invariant
            i <= n,
            n == entries@.len(),
            decisions@.len() == i,
            dynamic.len() == i,
            script is None ==> dynamic == silence(i as nat),
            forall|j: int|
                0 <= j < i ==> move_view(#[trigger] decisions@[j]) == entry_move(
                    directory@,
                    entries@[j]@,
                    rules@,
                    dynamic[j],
                ),
        decreases n - i,
    {
        let decision = sort_entry(directory, &entries[i], &rules, &lua, script);
        proof {
            let said = if script is None {
                None
            } else {
                choose|said: Option<Seq<char>>|
                    move_view(decision) == #[trigger] entry_move(
                        directory@,
                        entries@[i as int]@,
                        rules@,
                        said,
                    )
            };
            dynamic = dynamic.push(said);
            assert(script is None ==> dynamic =~= silence((i + 1) as nat));
        }
        decisions.push(decision);
        i = i + 1;
    }
    assert(move_views(decisions@) =~= pass_moves(directory@, entries@, rules@, dynamic));
    Ok(decisions)
}

} // verus!
