//! Installing and uninstalling AWS CLI v2 on the host, as a machine that
//! decides which command the host runs next from what the last one reported.

use vstd::prelude::*;
use crate::download::{installer_file_name, installer_name, installer_url, installer_url_for};
use crate::platform::{os_label, HostArch, HostEnvironment, HostOs};
use crate::text::texts;

verus! {

/// A command for the host to run.
pub struct HostCommand {
    pub program: String,
    pub args: Vec<String>,
    /// Stream the output to the console instead of capturing it.
    pub stream: bool,
    /// Mark the program executable before running it.
    pub set_executable: bool,
}

/// The content of a [`HostCommand`].
pub struct CommandView {
    pub program: Seq<char>,
    pub args: Seq<Seq<char>>,
    pub stream: bool,
    pub set_executable: bool,
}

impl View for HostCommand {
    type V = CommandView;

    open spec fn view(&self) -> CommandView {
        CommandView {
            program: self.program@,
            args: texts(self.args@),
            stream: self.stream,
            set_executable: self.set_executable,
        }
    }
}

/// What a finished command reported.
pub struct CommandOutcome {
    pub exit_code: i32,
    pub stdout: String,
    pub stderr: String,
}

/// The content of a [`CommandOutcome`].
pub struct OutcomeView {
    pub exit_code: i32,
    pub stdout: Seq<char>,
    pub stderr: Seq<char>,
}

impl View for CommandOutcome {
    type V = OutcomeView;

    open spec fn view(&self) -> OutcomeView {
        OutcomeView { exit_code: self.exit_code, stdout: self.stdout@, stderr: self.stderr@ }
    }
}

/// One step of an installation: a command, and how its failure (a nonzero
/// exit code) is reported: as an error of the plugin (`abort`), or as an
/// installation that did not happen. Either way the message is `message`
/// followed by what the command wrote to stderr.
pub struct InstallStep {
    pub command: HostCommand,
    pub abort: bool,
    pub message: String,
}

/// The content of an [`InstallStep`].
pub struct StepView {
    pub command: CommandView,
    pub abort: bool,
    pub message: Seq<char>,
}

impl View for InstallStep {
    type V = StepView;

    open spec fn view(&self) -> StepView {
        StepView { command: self.command@, abort: self.abort, message: self.message@ }
    }
}

/// The contents of a list of steps.
pub open spec fn step_views(steps: Seq<InstallStep>) -> Seq<StepView> {
    steps.map_values(|s: InstallStep| s@)
}

/// Runs `mktemp -d`, capturing its output.
pub open spec fn temp_dir_command() -> CommandView {
    CommandView { program: "mktemp"@, args: seq!["-d"@], stream: false, set_executable: false }
}

/// Downloads `url` to `dest` with curl, creating directories as needed and
/// failing on HTTP errors.
pub open spec fn download_command(url: Seq<char>, dest: Seq<char>) -> CommandView {
    CommandView {
        program: "curl"@,
        args: seq!["-fSL"@, "--create-dirs"@, "-o"@, dest, url],
        stream: true,
        set_executable: false,
    }
}

/// A command that is not marked executable.
pub open spec fn plain_command(program: Seq<char>, args: Seq<Seq<char>>, stream: bool) -> CommandView {
    CommandView { program, args, stream, set_executable: false }
}

/// `dir` joined with a path below it.
pub open spec fn under(dir: Seq<char>, rest: Seq<char>) -> Seq<char> {
    dir + "/"@ + rest
}

/// The steps that install `version` into `install_dir` on a host, given the
/// temporary directory `temp`: download the installer into `temp` (a failed
/// download is an error of the plugin), then on Linux unzip it and run its
/// install script; on macOS expand the package and copy its payload; on
/// Windows run the MSI installer. Other operating systems have none.
pub open spec fn install_steps(
    os: HostOs,
    arch: HostArch,
    version: Seq<char>,
    install_dir: Seq<char>,
    temp: Seq<char>,
) -> Option<Seq<StepView>> {
    let name = installer_file_name(os, arch, version).unwrap();
    let url = installer_url(os, arch, version);
    let path = under(temp, name);
    let download = StepView {
        command: download_command(url, path),
        abort: true,
        message: "Failed to download "@ + url + ": "@,
    };
    match os {
        HostOs::Linux => Some(
            seq![
                download,
                StepView {
                    command: plain_command("unzip"@, seq!["-o"@, path, "-d"@, temp], false),
                    abort: false,
                    message: "Failed to unzip AWS CLI archive: "@,
                },
                StepView {
                    command: CommandView {
                        program: under(temp, "aws/install"@),
                        args: seq![
                            "--install-dir"@,
                            install_dir,
                            "--bin-dir"@,
                            under(install_dir, "bin"@),
                            "--update"@,
                        ],
                        stream: true,
                        set_executable: true,
                    },
                    abort: false,
                    message: "AWS CLI installer failed: "@,
                },
            ],
        ),
        HostOs::MacOS => {
            let expanded = under(temp, "aws-cli-expanded"@);
            let payload = under(expanded, "aws-cli.pkg/Payload/aws-cli"@);
            Some(
                seq![
                    download,
                    StepView {
                        command: plain_command("pkgutil"@, seq!["--expand-full"@, path, expanded], false),
                        abort: false,
                        message: "Failed to expand AWS CLI package: "@,
                    },
                    StepView {
                        command: plain_command("cp"@, seq!["-R"@, under(payload, "."@), install_dir], false),
                        abort: false,
                        message: "Failed to copy AWS CLI files: "@,
                    },
                ],
            )
        },
        HostOs::Windows => Some(
            seq![
                download,
                StepView {
                    command: plain_command(
                        "msiexec"@,
                        seq!["/i"@, path, "/qn"@, "INSTALLDIR="@ + install_dir],
                        true,
                    ),
                    abort: false,
                    message: "AWS CLI MSI installation failed: "@,
                },
            ],
        ),
        _ => None,
    }
}

/// `a` followed by `b`.
fn concat(a: &str, b: &str) -> (s: String)
    ensures
        s@ == a@ + b@,
{
    let mut s = String::from_str(a);
    s.append(b);
    s
}

/// `dir` joined with a path below it.
fn join_under(dir: &str, rest: &str) -> (s: String)
    ensures
        s@ == under(dir@, rest@),
{
    let mut s = String::from_str(dir);
    s.append("/");
    s.append(rest);
    s
}

/// A string holding `text`.
fn owned(text: &str) -> (s: String)
    ensures
        s@ == text@,
{
    String::from_str(text)
}

/// The steps that install `version` into `install_dir` on the host.
pub fn build_install_steps(
    os: HostOs,
    arch: HostArch,
    version: &str,
    install_dir: &str,
    temp: &str,
) -> (steps: Option<Vec<InstallStep>>)
    ensures
        match steps {
            Some(s) => install_steps(os, arch, version@, install_dir@, temp@) == Some(step_views(s@)),
            None => install_steps(os, arch, version@, install_dir@, temp@) is None,
        },
{
    let name = match installer_name(os, arch, version) {
        Some(n) => n,
        None => {
            return None;
        },
    };
    let url = installer_url_for(name.as_str());
    let path = join_under(temp, name.as_str());
    let download = InstallStep {
        command: HostCommand {
            program: owned("curl"),
            args: vec![owned("-fSL"), owned("--create-dirs"), owned("-o"), owned(path.as_str()), owned(url.as_str())],
            stream: true,
            set_executable: false,
        },
        abort: true,
        message: {
            let mut m = String::from_str("Failed to download ");
            m.append(url.as_str());
            m.append(": ");
            m
        },
    };
    let ghost spec_steps = install_steps(os, arch, version@, install_dir@, temp@).unwrap();
    assert(texts(download.command.args@) =~= download_command(url@, path@).args);
    assert(download@ == spec_steps[0]);
    let steps = match os {
        HostOs::Linux => {
            let unzip = InstallStep {
                command: HostCommand {
                    program: owned("unzip"),
                    args: vec![owned("-o"), owned(path.as_str()), owned("-d"), owned(temp)],
                    stream: false,
                    set_executable: false,
                },
                abort: false,
                message: owned("Failed to unzip AWS CLI archive: "),
            };
            let installer = InstallStep {
                command: HostCommand {
                    program: join_under(temp, "aws/install"),
                    args: vec![
                        owned("--install-dir"),
                        owned(install_dir),
                        owned("--bin-dir"),
                        join_under(install_dir, "bin"),
                        owned("--update"),
                    ],
                    stream: true,
                    set_executable: true,
                },
                abort: false,
                message: owned("AWS CLI installer failed: "),
            };
            assert(texts(unzip.command.args@) =~= spec_steps[1].command.args);
            assert(texts(installer.command.args@) =~= spec_steps[2].command.args);
            assert(unzip@ == spec_steps[1]);
            assert(installer@ == spec_steps[2]);
            vec![download, unzip, installer]
        },
        HostOs::MacOS => {
            let expanded = join_under(temp, "aws-cli-expanded");
            let payload = join_under(expanded.as_str(), "aws-cli.pkg/Payload/aws-cli");
            let expand = InstallStep {
                command: HostCommand {
                    program: owned("pkgutil"),
                    args: vec![owned("--expand-full"), owned(path.as_str()), owned(expanded.as_str())],
                    stream: false,
                    set_executable: false,
                },
                abort: false,
                message: owned("Failed to expand AWS CLI package: "),
            };
            let copy = InstallStep {
                command: HostCommand {
                    program: owned("cp"),
                    args: vec![owned("-R"), join_under(payload.as_str(), "."), owned(install_dir)],
                    stream: false,
                    set_executable: false,
                },
                abort: false,
                message: owned("Failed to copy AWS CLI files: "),
            };
            assert(texts(expand.command.args@) =~= spec_steps[1].command.args);
            assert(texts(copy.command.args@) =~= spec_steps[2].command.args);
            assert(expand@ == spec_steps[1]);
            assert(copy@ == spec_steps[2]);
            vec![download, expand, copy]
        },
        _ => {
            let msi = InstallStep {
                command: HostCommand {
                    program: owned("msiexec"),
                    args: vec![owned("/i"), owned(path.as_str()), owned("/qn"), concat("INSTALLDIR=", install_dir)],
                    stream: true,
                    set_executable: false,
                },
                abort: false,
                message: owned("AWS CLI MSI installation failed: "),
            };
            assert(texts(msi.command.args@) =~= spec_steps[1].command.args);
            assert(msi@ == spec_steps[1]);
            vec![download, msi]
        },
    };
    assert(step_views(steps@) =~= spec_steps);
    Some(steps)
}

/// Characters with the Unicode `White_Space` property: U+0009 to U+000D,
/// U+0020, U+0085, U+00A0, U+1680, U+2000 to U+200A, U+2028, U+2029, U+202F,
/// U+205F and U+3000.
pub open spec fn is_white_space(c: char) -> bool {
    ||| '\u{9}' <= c <= '\u{d}'
    ||| c == ' '
    ||| c == '\u{85}'
    ||| c == '\u{a0}'
    ||| c == '\u{1680}'
    ||| '\u{2000}' <= c <= '\u{200a}'
    ||| c == '\u{2028}'
    ||| c == '\u{2029}'
    ||| c == '\u{202f}'
    ||| c == '\u{205f}'
    ||| c == '\u{3000}'
}

/// `text` without its leading and trailing white space.
pub open spec fn trimmed(text: Seq<char>) -> Seq<char>
    decreases text.len(),
{
    if text.len() > 0 && is_white_space(text[0]) {
        trimmed(text.drop_first())
    } else if text.len() > 0 && is_white_space(text.last()) {
        trimmed(text.drop_last())
    } else {
        text
    }
}

/// Calls `str::trim`, which std documents as removing the leading and
/// trailing characters that have the Unicode `White_Space` property.
#[verifier::external_body]
fn trim_whitespace(text: &str) -> (t: &str)
    ensures
        t@ == trimmed(text@),
{
    text.trim()
}

/// Where an installation stands between two commands.
pub enum InstallState {
    /// Waiting for `mktemp -d` to name the temporary directory.
    AwaitingTempDir { os: HostOs, arch: HostArch, version: String, install_dir: String },
    /// Waiting for the command of `current`; `remaining` follow it.
    Running { current: InstallStep, remaining: Vec<InstallStep> },
}

/// The content of an [`InstallState`].
pub enum StateView {
    AwaitingTempDir { os: HostOs, arch: HostArch, version: Seq<char>, install_dir: Seq<char> },
    Running { current: StepView, remaining: Seq<StepView> },
}

impl View for InstallState {
    type V = StateView;

    open spec fn view(&self) -> StateView {
        match self {
            InstallState::AwaitingTempDir { os, arch, version, install_dir } => StateView::AwaitingTempDir {
                os: *os,
                arch: *arch,
                version: version@,
                install_dir: install_dir@,
            },
            InstallState::Running { current, remaining } => StateView::Running {
                current: current@,
                remaining: step_views(remaining@),
            },
        }
    }
}

/// How an installation ended.
pub enum InstallResult {
    /// AWS CLI is installed.
    Installed,
    /// A step failed; proto is told that nothing was installed, and why.
    NotInstalled(String),
    /// A step failed in a way the plugin reports as its own error.
    Failed(String),
}

/// The content of an [`InstallResult`].
pub enum ResultView {
    Installed,
    NotInstalled(Seq<char>),
    Failed(Seq<char>),
}

impl View for InstallResult {
    type V = ResultView;

    open spec fn view(&self) -> ResultView {
        match self {
            InstallResult::Installed => ResultView::Installed,
            InstallResult::NotInstalled(m) => ResultView::NotInstalled(m@),
            InstallResult::Failed(m) => ResultView::Failed(m@),
        }
    }
}

/// What the host is to do next.
pub enum InstallAction {
    /// Run the command, then hand its outcome back with the state.
    Run(HostCommand, InstallState),
    /// Report the end of the installation.
    Finish(InstallResult),
}

/// The content of an [`InstallAction`].
pub enum ActionView {
    Run(CommandView, StateView),
    Finish(ResultView),
}

impl View for InstallAction {
    type V = ActionView;

    open spec fn view(&self) -> ActionView {
        match self {
            InstallAction::Run(c, s) => ActionView::Run(c@, s@),
            InstallAction::Finish(r) => ActionView::Finish(r@),
        }
    }
}

/// The message for an operating system that has no installer.
pub open spec fn unsupported_os_message(os: HostOs) -> Seq<char> {
    "Unsupported operating system: "@ + os_label(os)
}

/// How the failure of `step` is reported, given what it wrote to stderr.
pub open spec fn step_failure(step: StepView, stderr: Seq<char>) -> ResultView {
    if step.abort {
        ResultView::Failed(step.message + stderr)
    } else {
        ResultView::NotInstalled(step.message + stderr)
    }
}

/// Runs the first of `steps`, keeping the others.
pub open spec fn start_steps(steps: Seq<StepView>) -> ActionView {
    ActionView::Run(steps[0].command, StateView::Running { current: steps[0], remaining: steps.drop_first() })
}

/// The installation's next move after a command reported `outcome`. Once
/// the temporary directory is known (the trimmed output of `mktemp`, whose
/// exit code is not consulted), the installation either stops as
/// unsupported or runs its steps in order; a step that exits nonzero ends it
/// with that step's failure, and after the last step succeeds AWS CLI is
/// installed.
pub open spec fn install_transition(state: StateView, outcome: OutcomeView) -> ActionView {
    match state {
        StateView::AwaitingTempDir { os, arch, version, install_dir } => {
            match install_steps(os, arch, version, install_dir, trimmed(outcome.stdout)) {
                None => ActionView::Finish(ResultView::NotInstalled(unsupported_os_message(os))),
                Some(steps) => start_steps(steps),
            }
        },
        StateView::Running { current, remaining } => {
            if outcome.exit_code != 0 {
                ActionView::Finish(step_failure(current, outcome.stderr))
            } else if remaining.len() > 0 {
                start_steps(remaining)
            } else {
                ActionView::Finish(ResultView::Installed)
            }
        },
    }
}

/// Starts installing `version` of AWS CLI into `install_dir`: the host first
/// makes a temporary directory for the download.
pub fn native_install(env: &HostEnvironment, version: &str, install_dir: &str) -> (a: InstallAction)
    ensures
        a@ == ActionView::Run(
            temp_dir_command(),
            StateView::AwaitingTempDir { os: env.os, arch: env.arch, version: version@, install_dir: install_dir@ },
        ),
{
    let command = HostCommand { program: owned("mktemp"), args: vec![owned("-d")], stream: false, set_executable: false };
    assert(texts(command.args@) =~= temp_dir_command().args);
    InstallAction::Run(
        command,
        InstallState::AwaitingTempDir { os: env.os, arch: env.arch, version: owned(version), install_dir: owned(install_dir) },
    )
}

/// Runs the first of a nonempty list of steps.
fn start(steps: Vec<InstallStep>) -> (a: InstallAction)
    requires
        steps@.len() > 0,
    ensures
        a@ == start_steps(step_views(steps@)),
{
    let mut remaining = steps;
    let current = remaining.remove(0);
    let command = HostCommand {
        program: owned(current.command.program.as_str()),
        args: copy_strings(&current.command.args),
        stream: current.command.stream,
        set_executable: current.command.set_executable,
    };
    assert(step_views(remaining@) =~= step_views(steps@).drop_first());
    InstallAction::Run(command, InstallState::Running { current, remaining })
}

/// A copy of a list of strings.
fn copy_strings(strings: &Vec<String>) -> (copy: Vec<String>)
    ensures
        texts(copy@) == texts(strings@),
{
    let mut copy: Vec<String> = Vec::new();
    let mut i: usize = 0;
    while i < strings.len()
        invariant
            i <= strings.len(),
            texts(copy@) =~= texts(strings@.take(i as int)),
        decreases strings.len() - i,
    {
        let ghost before = copy@;
        copy.push(owned(strings[i].as_str()));
        assert(texts(copy@) =~= texts(before).push(strings@[i as int]@));
        assert(texts(strings@.take(i + 1)) =~= texts(strings@.take(i as int)).push(strings@[i as int]@));
        i = i + 1;
    }
    assert(strings@.take(strings.len() as int) =~= strings@);
    copy
}

/// Moves the installation on after the host ran the command that `state`
/// waits for and reported `outcome`.
pub fn native_install_step(state: InstallState, outcome: &CommandOutcome) -> (a: InstallAction)
    ensures
        a@ == install_transition(state@, outcome@),
{
    match state {
        InstallState::AwaitingTempDir { os, arch, version, install_dir } => {
            let temp = trim_whitespace(outcome.stdout.as_str());
            match build_install_steps(os, arch, version.as_str(), install_dir.as_str(), temp) {
                None => InstallAction::Finish(
                    InstallResult::NotInstalled(concat("Unsupported operating system: ", os.label().as_str())),
                ),
                Some(steps) => {
                    assert(step_views(steps@).len() > 0);
                    start(steps)
                },
            }
        },
        InstallState::Running { current, remaining } => {
            if outcome.exit_code != 0 {
                let message = concat(current.message.as_str(), outcome.stderr.as_str());
                if current.abort {
                    InstallAction::Finish(InstallResult::Failed(message))
                } else {
                    InstallAction::Finish(InstallResult::NotInstalled(message))
                }
            } else if remaining.len() > 0 {
                start(remaining)
            } else {
                InstallAction::Finish(InstallResult::Installed)
            }
        },
    }
}

/// The command that uninstalls AWS CLI: on Windows the MSI is removed with
/// `msiexec /x AWSCLIV2 /qn`; elsewhere nothing runs, as proto removes the
/// install directory itself.
pub open spec fn uninstall_command(os: HostOs) -> Option<CommandView> {
    if os == HostOs::Windows {
        Some(plain_command("msiexec"@, seq!["/x"@, "AWSCLIV2"@, "/qn"@], false))
    } else {
        None
    }
}

/// How AWS CLI is uninstalled.
pub struct UninstallPlan {
    /// A command to run first, whose outcome is not consulted.
    pub command: Option<HostCommand>,
    /// Whether proto is told that the tool was uninstalled.
    pub uninstalled: bool,
}

/// Uninstalls AWS CLI from the host; the tool is reported uninstalled
/// whatever the uninstall command does.
pub fn native_uninstall(os: HostOs) -> (plan: UninstallPlan)
    ensures
        plan.uninstalled,
        match plan.command {
            Some(c) => uninstall_command(os) == Some(c@),
            None => uninstall_command(os) is None,
        },
{
    if os == HostOs::Windows {
        let command = HostCommand {
            program: owned("msiexec"),
            args: vec![owned("/x"), owned("AWSCLIV2"), owned("/qn")],
            stream: false,
            set_executable: false,
        };
        assert(texts(command.args@) =~= uninstall_command(os).unwrap().args);
        UninstallPlan { command: Some(command), uninstalled: true }
    } else {
        UninstallPlan { command: None, uninstalled: true }
    }
}

} // verus!
