use file_sorter::service::{
    daemon_command, install_service, linux_install, systemd_unit, windows_install, Platform,
    ServiceInstall,
};

const UNIT: &str = "[Unit]\nDescription=File Sorter Daemon\nAfter=network.target\n\n[Service]\nExecStart=/usr/bin/sorter daemon --path /home/me/inbox --interval 10\nRestart=always\nUser=me\nWorkingDirectory=/home/me\n\n[Install]\nWantedBy=default.target\n";

fn strings(items: &[&str]) -> Vec<String> {
    items.iter().map(|s| s.to_string()).collect()
}

fn assert_linux(install: &ServiceInstall, unit_text: &str) {
    let unit = install.unit.as_ref().expect("a unit");
    assert_eq!(unit.path, "/etc/systemd/system/file_sorter.service");
    assert_eq!(unit.text, unit_text);
    assert_eq!(install.commands.len(), 3);
    for command in &install.commands {
        assert_eq!(command.program, "systemctl");
    }
    assert_eq!(install.commands[0].arguments, strings(&["daemon-reload"]));
    assert_eq!(install.commands[0].failure, "Failed to reload systemd");
    assert_eq!(install.commands[1].arguments, strings(&["enable", "file_sorter"]));
    assert_eq!(install.commands[1].failure, "Failed to enable service");
    assert_eq!(install.commands[2].arguments, strings(&["start", "file_sorter"]));
    assert_eq!(install.commands[2].failure, "Failed to start service");
}

#[test]
fn daemon_command_line() {
    assert_eq!(
        daemon_command("/usr/bin/sorter", "/home/me/inbox", 10),
        "/usr/bin/sorter daemon --path /home/me/inbox --interval 10"
    );
    assert_eq!(daemon_command("s", "d", 0), "s daemon --path d --interval 0");
    assert_eq!(
        daemon_command("", "", u64::MAX),
        " daemon --path  --interval 18446744073709551615"
    );
}

#[test]
fn systemd_unit_text() {
    assert_eq!(systemd_unit("/usr/bin/sorter", "/home/me/inbox", 10, "me", "/home/me"), UNIT);
}

#[test]
fn linux_install_writes_the_unit_and_starts_it() {
    let install = linux_install("/usr/bin/sorter", "/home/me/inbox", 10, "me", "/home/me");
    assert_linux(&install, UNIT);
}

#[test]
fn windows_install_creates_one_task() {
    let install = windows_install("C:\\sorter.exe", "C:\\inbox", 30);
    assert!(install.unit.is_none());
    assert_eq!(install.commands.len(), 1);
    let command = &install.commands[0];
    assert_eq!(command.program, "schtasks");
    assert_eq!(
        command.arguments,
        strings(&[
            "/Create",
            "/TN",
            "FileSorterDaemon",
            "/SC",
            "ONSTART",
            "/RL",
            "HIGHEST",
            "/TR",
            "C:\\sorter.exe daemon --path C:\\inbox --interval 30",
        ])
    );
    assert_eq!(command.failure, "Failed to create scheduled task");
}

#[test]
fn install_service_on_linux_runs_as_the_current_user() {
    let install = install_service(Platform::Linux, "/home/me/inbox", 10, "/usr/bin/sorter", "/home/me");
    let user = whoami::username();
    let expected = systemd_unit("/usr/bin/sorter", "/home/me/inbox", 10, &user, "/home/me");
    assert_linux(&install, &expected);
    let unit = install.unit.as_ref().unwrap();
    assert!(unit.text.contains(&format!("\nUser={}\n", user)));
}

#[test]
fn install_service_on_windows() {
    let install = install_service(Platform::Windows, "C:\\inbox", 30, "C:\\sorter.exe", "C:\\");
    let expected = windows_install("C:\\sorter.exe", "C:\\inbox", 30);
    assert!(install.unit.is_none());
    assert_eq!(install.commands.len(), 1);
    assert_eq!(install.commands[0].program, expected.commands[0].program);
    assert_eq!(install.commands[0].arguments, expected.commands[0].arguments);
    assert_eq!(install.commands[0].failure, expected.commands[0].failure);
}

#[test]
fn install_service_elsewhere_does_nothing() {
    let install = install_service(Platform::Other, "/inbox", 10, "/bin/sorter", "/");
    assert!(install.unit.is_none());
    assert!(install.commands.is_empty());
}
