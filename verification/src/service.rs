//! What installing the sorter as a startup service takes on each platform:
//! the descriptor to write and the commands to run. Writing and running are
//! the caller's part.

use vstd::prelude::*;
use vstd::string::*;
use crate::text::{decimal, decimal_text};

verus! {

/// The platform whose service manager is addressed.
#[derive(Clone, Copy, Debug, PartialEq, Eq)]
pub enum Platform {
    /// systemd.
    Linux,
    /// The task scheduler.
    Windows,
    /// Any platform without a known service manager.
    Other,
}

/// One program to start, with its arguments and with the complaint to raise
/// if it cannot be started.
#[derive(Clone, Debug)]
pub struct ServiceCommand {
    pub program: String,
    pub arguments: Vec<String>,
    pub failure: String,
}

/// The mathematical content of a [`ServiceCommand`].
pub struct ServiceCommandView {
    pub program: Seq<char>,
    pub arguments: Seq<Seq<char>>,
    pub failure: Seq<char>,
}

impl View for ServiceCommand {
    type V = ServiceCommandView;

    open spec fn view(&self) -> ServiceCommandView {
        ServiceCommandView {
            program: self.program@,
            arguments: self.arguments.deep_view(),
            failure: self.failure@,
        }
    }
}

/// A descriptor file to write: where, and what.
#[derive(Clone, Debug)]
pub struct ServiceUnit {
    pub path: String,
    pub text: String,
}

/// The mathematical content of a [`ServiceUnit`].
pub struct ServiceUnitView {
    pub path: Seq<char>,
    pub text: Seq<char>,
}

impl View for ServiceUnit {
    type V = ServiceUnitView;

    open spec fn view(&self) -> ServiceUnitView {
        ServiceUnitView { path: self.path@, text: self.text@ }
    }
}

/// Everything an installation does, in order: first the descriptor, if the
/// platform has one, and after it the commands.
#[derive(Clone, Debug)]
pub struct ServiceInstall {
    pub unit: Option<ServiceUnit>,
    pub commands: Vec<ServiceCommand>,
}

/// The mathematical content of a [`ServiceInstall`].
pub struct ServiceInstallView {
    pub unit: Option<ServiceUnitView>,
    pub commands: Seq<ServiceCommandView>,
}

impl View for ServiceInstall {
    type V = ServiceInstallView;

    open spec fn view(&self) -> ServiceInstallView {
        ServiceInstallView {
            unit: match self.unit {
                Some(unit) => Some(unit@),
                None => None,
            },
            commands: Seq::new(self.commands@.len(), |i: int| self.commands@[i]@),
        }
    }
}

/// The command line that starts the polling loop: the executable, the
/// subcommand `daemon`, the directory and the interval in seconds.
pub open spec fn daemon_command_text(
    executable: Seq<char>,
    directory: Seq<char>,
    interval: nat,
) -> Seq<char> {
    executable + " daemon --path "@ + directory + " --interval "@ + decimal_text(interval)
}

/// The systemd unit that keeps the polling loop running for `user`.
pub open spec fn systemd_unit_text(
    executable: Seq<char>,
    directory: Seq<char>,
    interval: nat,
    user: Seq<char>,
    working_directory: Seq<char>,
) -> Seq<char> {
    "[Unit]\nDescription=File Sorter Daemon\nAfter=network.target\n\n[Service]\nExecStart="@
        + daemon_command_text(executable, directory, interval)
        + "\nRestart=always\nUser="@ + user + "\nWorkingDirectory="@ + working_directory
        + "\n\n[Install]\nWantedBy=default.target\n"@
}

/// Formats the command line that starts the polling loop.
pub fn daemon_command(executable: &str, directory: &str, interval: u64) -> (line: String)
    ensures
        line@ == daemon_command_text(executable@, directory@, interval as nat),
{
    let mut line = String::from_str(executable);
    line.append(" daemon --path ");
    line.append(directory);
    line.append(" --interval ");
    let seconds = decimal(interval);
    line.append(seconds.as_str());
    line
}

/// Formats the systemd unit.
pub fn systemd_unit(
    executable: &str,
    directory: &str,
    interval: u64,
    user: &str,
    working_directory: &str,
) -> (text: String)
    ensures
        text@ == systemd_unit_text(
            executable@,
            directory@,
            interval as nat,
            user@,
            working_directory@,
        ),
{
    let mut text = String::from_str(
        "[Unit]\nDescription=File Sorter Daemon\nAfter=network.target\n\n[Service]\nExecStart=",
    );
    let command = daemon_command(executable, directory, interval);
    text.append(command.as_str());
    text.append("\nRestart=always\nUser=");
    text.append(user);
    text.append("\nWorkingDirectory=");
    text.append(working_directory);
    text.append("\n\n[Install]\nWantedBy=default.target\n");
    text
}

/// A start of `systemctl` with the given arguments.
pub open spec fn systemctl_view(
    arguments: Seq<Seq<char>>,
    failure: Seq<char>,
) -> ServiceCommandView {
    ServiceCommandView { program: "systemctl"@, arguments, failure }
}

/// Installing under systemd: the unit goes to the system's unit directory;
/// systemd reloads its units, enables the service and starts it.
pub open spec fn linux_install_view(
    executable: Seq<char>,
    directory: Seq<char>,
    interval: nat,
    user: Seq<char>,
    working_directory: Seq<char>,
) -> ServiceInstallView {
    ServiceInstallView {
        unit: Some(
            ServiceUnitView {
                path: "/etc/systemd/system/file_sorter.service"@,
                text: systemd_unit_text(executable, directory, interval, user, working_directory),
            },
        ),
        commands: seq![
            systemctl_view(seq!["daemon-reload"@], "Failed to reload systemd"@),
            systemctl_view(seq!["enable"@, "file_sorter"@], "Failed to enable service"@),
            systemctl_view(seq!["start"@, "file_sorter"@], "Failed to start service"@),
        ],
    }
}

/// Installing under the task scheduler: one task, created to run the
/// polling loop at system start with the highest privileges. No descriptor.
pub open spec fn windows_install_view(
    executable: Seq<char>,
    directory: Seq<char>,
    interval: nat,
) -> ServiceInstallView {
    ServiceInstallView {
        unit: None,
        commands: seq![
            ServiceCommandView {
                program: "schtasks"@,
                arguments: seq![
                    "/Create"@,
                    "/TN"@,
                    "FileSorterDaemon"@,
                    "/SC"@,
                    "ONSTART"@,
                    "/RL"@,
                    "HIGHEST"@,
                    "/TR"@,
                    daemon_command_text(executable, directory, interval),
                ],
                failure: "Failed to create scheduled task"@,
            },
        ],
    }
}

/// Nothing to write and nothing to run.
pub open spec fn empty_install_view() -> ServiceInstallView {
    ServiceInstallView { unit: None, commands: Seq::empty() }
}

fn systemctl(arguments: Vec<String>, failure: &str) -> (command: ServiceCommand)
    ensures
        command@ == systemctl_view(arguments.deep_view(), failure@),
{
    ServiceCommand {
        program: String::from_str("systemctl"),
        arguments,
        failure: String::from_str(failure),
    }
}

/// The installation under systemd of a service that runs as `user`.
pub fn linux_install(
    executable: &str,
    directory: &str,
    interval: u64,
    user: &str,
    working_directory: &str,
) -> (install: ServiceInstall)
    ensures
        install@ == linux_install_view(
            executable@,
            directory@,
            interval as nat,
            user@,
            working_directory@,
        ),
{
    let unit = ServiceUnit {
        path: String::from_str("/etc/systemd/system/file_sorter.service"),
        text: systemd_unit(executable, directory, interval, user, working_directory),
    };
    let mut reload: Vec<String> = Vec::new();
    reload.push(String::from_str("daemon-reload"));
    assert(reload.deep_view() =~= seq!["daemon-reload"@]);
    let mut enable: Vec<String> = Vec::new();
    enable.push(String::from_str("enable"));
    enable.push(String::from_str("file_sorter"));
    assert(enable.deep_view() =~= seq!["enable"@, "file_sorter"@]);
    let mut start: Vec<String> = Vec::new();
    start.push(String::from_str("start"));
    start.push(String::from_str("file_sorter"));
    assert(start.deep_view() =~= seq!["start"@, "file_sorter"@]);
    let mut commands: Vec<ServiceCommand> = Vec::new();
    commands.push(systemctl(reload, "Failed to reload systemd"));
    commands.push(systemctl(enable, "Failed to enable service"));
    commands.push(systemctl(start, "Failed to start service"));
    let install = ServiceInstall { unit: Some(unit), commands };
    assert(install@.commands =~= linux_install_view(
        executable@,
        directory@,
        interval as nat,
        user@,
        working_directory@,
    ).commands);
    install
}

/// The installation under the task scheduler.
pub fn windows_install(executable: &str, directory: &str, interval: u64) -> (install:
    ServiceInstall)
    ensures
        install@ == windows_install_view(executable@, directory@, interval as nat),
{
    let mut arguments: Vec<String> = Vec::new();
    arguments.push(String::from_str("/Create"));
    arguments.push(String::from_str("/TN"));
    arguments.push(String::from_str("FileSorterDaemon"));
    arguments.push(String::from_str("/SC"));
    arguments.push(String::from_str("ONSTART"));
    arguments.push(String::from_str("/RL"));
    arguments.push(String::from_str("HIGHEST"));
    arguments.push(String::from_str("/TR"));
    arguments.push(daemon_command(executable, directory, interval));
    let ghost expected = windows_install_view(executable@, directory@, interval as nat);
    assert(arguments.deep_view() =~= expected.commands[0].arguments);
    let command = ServiceCommand {
        program: String::from_str("schtasks"),
        arguments,
        failure: String::from_str("Failed to create scheduled task"),
    };
    let mut commands: Vec<ServiceCommand> = Vec::new();
    commands.push(command);
    let install = ServiceInstall { unit: None, commands };
    assert(install@.commands =~= expected.commands);
    install
}

/// The name of the user who runs this process.
///
/// Trusted: calls `whoami::username`, which asks the operating system and
/// falls back on a fixed name. Nothing is promised of the name.
#[verifier::external_body]
fn current_username() -> String {
    whoami::username()
}

/// What `install_service` yields once the user's name is known.
pub open spec fn install_view(
    platform: Platform,
    executable: Seq<char>,
    directory: Seq<char>,
    interval: nat,
    user: Seq<char>,
    working_directory: Seq<char>,
) -> ServiceInstallView {
    match platform {
        Platform::Linux => linux_install_view(
            executable,
            directory,
            interval,
            user,
            working_directory,
        ),
        Platform::Windows => windows_install_view(executable, directory, interval),
        Platform::Other => empty_install_view(),
    }
}

/// The installation of the polling loop over `directory`, every `interval`
/// seconds, as a startup service of `platform`. Under systemd the service
/// runs as the user who runs this process, whoever that is; elsewhere the
/// result does not depend on the user.
pub fn install_service(
    platform: Platform,
    directory: &str,
    interval: u64,
    executable: &str,
    working_directory: &str,
) -> (install: ServiceInstall)
    ensures
        exists|user: Seq<char>|
            install@ == install_view(
                platform,
                executable@,
                directory@,
                interval as nat,
                user,
                working_directory@,
            ),
        platform != Platform::Linux ==> install@ == install_view(
            platform,
            executable@,
            directory@,
            interval as nat,
            Seq::empty(),
            working_directory@,
        ),
{
    match platform {
        Platform::Linux => {
            let user = current_username();
            let install = linux_install(
                executable,
                directory,
                interval,
                user.as_str(),
                working_directory,
            );
            assert(install@ == install_view(
                platform,
                executable@,
                directory@,
                interval as nat,
                user@,
                working_directory@,
            ));
            install
        },
        Platform::Windows => {
            let install = windows_install(executable, directory, interval);
            assert(install@ == install_view(
                platform,
                executable@,
                directory@,
                interval as nat,
                Seq::empty(),
                working_directory@,
            ));
            install
        },
        Platform::Other => {
            let install = ServiceInstall { unit: None, commands: Vec::new() };
            assert(install@.commands =~= empty_install_view().commands);
            assert(install@ == install_view(
                platform,
                executable@,
                directory@,
                interval as nat,
                Seq::empty(),
                working_directory@,
            ));
            install
        },
    }
}

} // verus!
