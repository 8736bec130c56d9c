use proto_awscli::install::{
    native_install, native_install_step, native_uninstall, CommandOutcome, HostCommand,
    InstallAction, InstallResult,
};
use proto_awscli::platform::{HostArch, HostEnvironment, HostOs};

fn ok(stdout: &str) -> CommandOutcome {
    CommandOutcome { exit_code: 0, stdout: stdout.to_string(), stderr: String::new() }
}

fn failed(stderr: &str) -> CommandOutcome {
    CommandOutcome { exit_code: 1, stdout: String::new(), stderr: stderr.to_string() }
}

fn line(command: &HostCommand) -> String {
    let mut text = command.program.clone();
    for arg in &command.args {
        text.push(' ');
        text.push_str(arg);
    }
    text
}

/// Runs an installation, answering each command with the next outcome.
fn drive(os: HostOs, arch: HostArch, outcomes: Vec<CommandOutcome>) -> (Vec<(String, bool, bool)>, Option<InstallResult>) {
    let mut commands = Vec::new();
    let mut action = native_install(&HostEnvironment { os, arch }, "2.22.0", "/home/u/.proto/tools/awscli/2.22.0");
    let mut outcomes = outcomes.into_iter();
    loop {
        match action {
            InstallAction::Run(command, state) => {
                commands.push((line(&command), command.stream, command.set_executable));
                match outcomes.next() {
                    Some(outcome) => action = native_install_step(state, &outcome),
                    None => return (commands, None),
                }
            }
            InstallAction::Finish(result) => return (commands, Some(result)),
        }
    }
}

#[test]
fn linux_install_runs_download_unzip_and_installer() {
    let (commands, result) = drive(HostOs::Linux, HostArch::X64, vec![ok("  /tmp/tmp.abc\n"), ok(""), ok(""), ok("")]);
    assert!(matches!(result, Some(InstallResult::Installed)));
    assert_eq!(
        commands,
        vec![
            ("mktemp -d".to_string(), false, false),
            (
                "curl -fSL --create-dirs -o /tmp/tmp.abc/awscli-exe-linux-x86_64-2.22.0.zip https://awscli.amazonaws.com/awscli-exe-linux-x86_64-2.22.0.zip".to_string(),
                true,
                false
            ),
            ("unzip -o /tmp/tmp.abc/awscli-exe-linux-x86_64-2.22.0.zip -d /tmp/tmp.abc".to_string(), false, false),
            (
                "/tmp/tmp.abc/aws/install --install-dir /home/u/.proto/tools/awscli/2.22.0 --bin-dir /home/u/.proto/tools/awscli/2.22.0/bin --update".to_string(),
                true,
                true
            ),
        ]
    );
}

#[test]
fn macos_install_expands_and_copies_the_package() {
    let (commands, result) = drive(HostOs::MacOS, HostArch::Arm64, vec![ok("/tmp/t\n"), ok(""), ok(""), ok("")]);
    assert!(matches!(result, Some(InstallResult::Installed)));
    let lines: Vec<String> = commands.into_iter().map(|c| c.0).collect();
    assert_eq!(
        lines,
        vec![
            "mktemp -d",
            "curl -fSL --create-dirs -o /tmp/t/AWSCLIV2-2.22.0.pkg https://awscli.amazonaws.com/AWSCLIV2-2.22.0.pkg",
            "pkgutil --expand-full /tmp/t/AWSCLIV2-2.22.0.pkg /tmp/t/aws-cli-expanded",
            "cp -R /tmp/t/aws-cli-expanded/aws-cli.pkg/Payload/aws-cli/. /home/u/.proto/tools/awscli/2.22.0",
        ]
    );
}

#[test]
fn windows_install_runs_the_msi() {
    let (commands, result) = drive(HostOs::Windows, HostArch::X64, vec![ok("C:/tmp\r\n"), ok(""), ok("")]);
    assert!(matches!(result, Some(InstallResult::Installed)));
    assert_eq!(commands.len(), 3);
    assert_eq!(
        commands[2],
        ("msiexec /i C:/tmp/AWSCLIV2-2.22.0.msi /qn INSTALLDIR=/home/u/.proto/tools/awscli/2.22.0".to_string(), true, false)
    );
}

#[test]
fn failed_download_is_an_error() {
    let (commands, result) = drive(HostOs::Linux, HostArch::Arm64, vec![ok("/tmp/t"), failed("404"), ok("")]);
    assert_eq!(commands.len(), 2);
    match result {
        Some(InstallResult::Failed(message)) => assert_eq!(
            message,
            "Failed to download https://awscli.amazonaws.com/awscli-exe-linux-aarch64-2.22.0.zip: 404"
        ),
        _ => panic!("a failed download is an error"),
    }
}

#[test]
fn failed_unzip_reports_not_installed() {
    let (commands, result) = drive(HostOs::Linux, HostArch::X64, vec![ok("/tmp/t"), ok(""), failed("bad zip"), ok("")]);
    assert_eq!(commands.len(), 3);
    match result {
        Some(InstallResult::NotInstalled(message)) => assert_eq!(message, "Failed to unzip AWS CLI archive: bad zip"),
        _ => panic!("a failed unzip is reported"),
    }
}

#[test]
fn failed_installer_reports_not_installed() {
    let (_, result) = drive(HostOs::Linux, HostArch::X64, vec![ok("/tmp/t"), ok(""), ok(""), failed("denied")]);
    match result {
        Some(InstallResult::NotInstalled(message)) => assert_eq!(message, "AWS CLI installer failed: denied"),
        _ => panic!("a failed installer is reported"),
    }
}

#[test]
fn failed_macos_steps_report_not_installed() {
    let (_, result) = drive(HostOs::MacOS, HostArch::X64, vec![ok("/tmp/t"), ok(""), failed("x")]);
    assert!(matches!(result, Some(InstallResult::NotInstalled(m)) if m == "Failed to expand AWS CLI package: x"));
    let (_, result) = drive(HostOs::MacOS, HostArch::X64, vec![ok("/tmp/t"), ok(""), ok(""), failed("y")]);
    assert!(matches!(result, Some(InstallResult::NotInstalled(m)) if m == "Failed to copy AWS CLI files: y"));
    let (_, result) = drive(HostOs::Windows, HostArch::X64, vec![ok("/tmp/t"), ok(""), failed("z")]);
    assert!(matches!(result, Some(InstallResult::NotInstalled(m)) if m == "AWS CLI MSI installation failed: z"));
}

#[test]
fn unsupported_os_installs_nothing() {
    let (commands, result) = drive(HostOs::Solaris, HostArch::Sparc64, vec![ok("/tmp/t"), ok("")]);
    assert_eq!(commands.len(), 1);
    match result {
        Some(InstallResult::NotInstalled(message)) => assert_eq!(message, "Unsupported operating system: solaris"),
        _ => panic!("an unsupported OS installs nothing"),
    }
}

#[test]
fn uninstall_runs_msiexec_only_on_windows() {
    let plan = native_uninstall(HostOs::Windows);
    assert!(plan.uninstalled);
    let command = plan.command.unwrap();
    assert_eq!(line(&command), "msiexec /x AWSCLIV2 /qn");
    assert!(!command.stream);

    let plan = native_uninstall(HostOs::Linux);
    assert!(plan.uninstalled);
    assert!(plan.command.is_none());
}

#[test]
fn temp_dir_is_trimmed_of_unicode_white_space() {
    let (commands, _) = drive(HostOs::Windows, HostArch::X64, vec![ok("\u{3000}\t/tmp/t\u{a0}\u{2009}\r\n")]);
    assert_eq!(
        commands[1].0,
        "curl -fSL --create-dirs -o /tmp/t/AWSCLIV2-2.22.0.msi https://awscli.amazonaws.com/AWSCLIV2-2.22.0.msi"
    );
}
