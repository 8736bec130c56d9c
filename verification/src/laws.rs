//! Properties that span the plugin's functions.

use vstd::prelude::*;
use crate::download::{download_host, installer_file_name, prebuilt_answer};
use crate::install::{
    download_command, install_steps, install_transition, trimmed, under, unsupported_os_message,
    step_failure, ActionView, CommandView, OutcomeView, ResultView, StateView, StepView,
};
use crate::platform::{aws_cli_os, aws_cli_target, HostArch, HostEnvironment, HostOs};
use crate::text::{only_digits_and_dots, starts_with};
use crate::versions::{is_stable_v2_tag, is_v2_alias, stable_v2_tags};
use crate::executables::executable_paths;
use crate::text::{contains, is_ascii_digit, occurs_at};

verus! {

/// The commands an installation in `state` has the host run, and how it
/// ends, when the host reports `outcomes` one after another; `None` when
/// the outcomes run out first.
pub open spec fn run_install(state: StateView, outcomes: Seq<OutcomeView>) -> (Seq<CommandView>, Option<ResultView>)
    decreases outcomes.len(),
{
    if outcomes.len() == 0 {
        (Seq::empty(), None)
    } else {
        match install_transition(state, outcomes[0]) {
            ActionView::Run(command, next) => {
                let (commands, result) = run_install(next, outcomes.drop_first());
                (seq![command] + commands, result)
            },
            ActionView::Finish(result) => (Seq::empty(), Some(result)),
        }
    }
}

/// The commands of a list of steps.
pub open spec fn step_commands(steps: Seq<StepView>) -> Seq<CommandView> {
    steps.map_values(|s: StepView| s.command)
}

/// Every outcome reports success.
pub open spec fn all_succeed(outcomes: Seq<OutcomeView>) -> bool {
    forall|i: int| 0 <= i < outcomes.len() ==> (#[trigger] outcomes[i]).exit_code == 0
}

/// The tags that `load_versions` hands on as versions are v2 releases: a
/// tag is kept exactly when it is among the given tags and names a stable v2
/// release, so every kept tag starts with `2.` and holds only digits and dots.
pub proof fn lemma_listed_versions_are_v2(tags: Seq<Seq<char>>, t: Seq<char>)
    ensures
        stable_v2_tags(tags).contains(t) <==> tags.contains(t) && is_stable_v2_tag(t),
        stable_v2_tags(tags).contains(t) ==> starts_with(t, "2."@) && only_digits_and_dots(t),
    decreases tags.len(),
{
    reveal_with_fuel(Seq::<_>::filter, 1);
    if tags.len() > 0 {
        let rest = tags.drop_last();
        lemma_listed_versions_are_v2(rest, t);
        assert(tags =~= rest.push(tags.last()));
        if tags.contains(t) && t != tags.last() {
            let i = choose|i: int| 0 <= i < tags.len() && tags[i] == t;
            assert(rest[i] == t);
        }
        let kept = stable_v2_tags(rest);
        if is_stable_v2_tag(tags.last()) {
            assert(stable_v2_tags(tags) == kept.push(tags.last()));
            if stable_v2_tags(tags).contains(t) && t != tags.last() {
                let i = choose|i: int| 0 <= i < kept.len() + 1 && kept.push(tags.last())[i] == t;
                assert(kept[i] == t);
            }
            if kept.contains(t) {
                let i = choose|i: int| 0 <= i < kept.len() && kept[i] == t;
                assert(kept.push(tags.last())[i] == t);
            }
            assert(kept.push(tags.last())[kept.len() as int] == tags.last());
        } else {
            assert(stable_v2_tags(tags) == kept);
        }
    }
}

/// Once the steps are under way and every one succeeds, the host runs the
/// remaining steps' commands in order and the tool ends up installed.
pub proof fn lemma_steps_run_to_installed(current: StepView, remaining: Seq<StepView>, outcomes: Seq<OutcomeView>)
    requires
        outcomes.len() == remaining.len() + 1,
        all_succeed(outcomes),
    ensures
        run_install(StateView::Running { current, remaining }, outcomes) == (step_commands(remaining), Some(ResultView::Installed)),
    decreases remaining.len(),
{
    let state = StateView::Running { current, remaining };
    assert(outcomes[0].exit_code == 0);
    if remaining.len() == 0 {
        assert(step_commands(remaining) =~= Seq::<CommandView>::empty());
    } else {
        let rest = outcomes.drop_first();
        assert forall|i: int| 0 <= i < rest.len() implies (#[trigger] rest[i]).exit_code == 0 by {
            assert(rest[i] == outcomes[i + 1]);
        }
        lemma_steps_run_to_installed(remaining[0], remaining.drop_first(), rest);
        assert(step_commands(remaining) =~= seq![remaining[0].command] + step_commands(remaining.drop_first()));
    }
}

/// The state an installation waits in for the temporary directory.
pub open spec fn awaiting(os: HostOs, arch: HostArch, version: Seq<char>, install_dir: Seq<char>) -> StateView {
    StateView::AwaitingTempDir { os, arch, version, install_dir }
}

/// On a supported operating system, when every step succeeds, the host runs
/// exactly the planned steps' commands, in order, after `mktemp`, and the
/// tool ends up installed.
pub proof fn lemma_supported_install_completes(
    os: HostOs,
    arch: HostArch,
    version: Seq<char>,
    install_dir: Seq<char>,
    temp_outcome: OutcomeView,
    outcomes: Seq<OutcomeView>,
)
    requires
        aws_cli_os(os),
        outcomes.len() == install_steps(os, arch, version, install_dir, trimmed(temp_outcome.stdout)).unwrap().len(),
        all_succeed(outcomes),
    ensures
        run_install(awaiting(os, arch, version, install_dir), seq![temp_outcome] + outcomes) == (
            step_commands(install_steps(os, arch, version, install_dir, trimmed(temp_outcome.stdout)).unwrap()),
            Some(ResultView::Installed),
        ),
{
    let steps = install_steps(os, arch, version, install_dir, trimmed(temp_outcome.stdout)).unwrap();
    let all = seq![temp_outcome] + outcomes;
    assert(all[0] == temp_outcome);
    assert(all.drop_first() =~= outcomes);
    lemma_steps_run_to_installed(steps[0], steps.drop_first(), outcomes);
    assert(step_commands(steps) =~= seq![steps[0].command] + step_commands(steps.drop_first()));
}

/// Once the steps are under way, the first step that fails ends the
/// installation with that step's failure; the host has run the commands of
/// the steps before it and of no step after it.
pub proof fn lemma_failed_step_ends_install(
    current: StepView,
    remaining: Seq<StepView>,
    outcomes: Seq<OutcomeView>,
    k: int,
)
    requires
        0 <= k <= remaining.len(),
        k < outcomes.len(),
        all_succeed(outcomes.take(k)),
        outcomes[k].exit_code != 0,
    ensures
        run_install(StateView::Running { current, remaining }, outcomes) == (
            step_commands(remaining.take(k)),
            Some(step_failure((seq![current] + remaining)[k], outcomes[k].stderr)),
        ),
    decreases k,
{
    if k == 0 {
        assert(step_commands(remaining.take(0)) =~= Seq::<CommandView>::empty());
    } else {
        assert(outcomes.take(k)[0] == outcomes[0]);
        let rest = outcomes.drop_first();
        assert forall|i: int| 0 <= i < rest.take(k - 1).len() implies (#[trigger] rest.take(k - 1)[i]).exit_code == 0 by {
            assert(rest.take(k - 1)[i] == outcomes.take(k)[i + 1]);
        }
        assert(rest[k - 1] == outcomes[k]);
        lemma_failed_step_ends_install(remaining[0], remaining.drop_first(), rest, k - 1);
        assert((seq![remaining[0]] + remaining.drop_first())[k - 1] == (seq![current] + remaining)[k]);
        assert(step_commands(remaining.take(k)) =~= seq![remaining[0].command] + step_commands(
            remaining.drop_first().take(k - 1),
        ));
    }
}

/// On an operating system without an installer, nothing runs after
/// `mktemp`: proto is told that nothing was installed, and why.
pub proof fn lemma_unsupported_os_installs_nothing(
    os: HostOs,
    arch: HostArch,
    version: Seq<char>,
    install_dir: Seq<char>,
    temp_outcome: OutcomeView,
    outcomes: Seq<OutcomeView>,
)
    requires
        !aws_cli_os(os),
    ensures
        run_install(awaiting(os, arch, version, install_dir), seq![temp_outcome] + outcomes) == (
            Seq::<CommandView>::empty(),
            Some(ResultView::NotInstalled(unsupported_os_message(os))),
        ),
{
    let all = seq![temp_outcome] + outcomes;
    assert(all[0] == temp_outcome);
}

/// On a supported target, the installation downloads the very installer
/// that `download_prebuilt` names: from its URL, into the temporary
/// directory under its file name.
pub proof fn lemma_install_downloads_prebuilt_installer(
    env: HostEnvironment,
    version: Seq<char>,
    install_dir: Seq<char>,
    temp: Seq<char>,
)
    requires
        aws_cli_target(env.os, env.arch),
    ensures
        match prebuilt_answer(env, false, version) {
            Ok((url, Some(name))) => install_steps(env.os, env.arch, version, install_dir, temp) matches Some(steps)
                && steps[0].command == download_command(url, under(temp, name)),
            _ => false,
        },
{
}

/// Whenever `download_prebuilt` answers with a download, the URL is the
/// download server followed by the file name it reports.
pub proof fn lemma_download_url_ends_with_file_name(env: HostEnvironment, canary: bool, version: Seq<char>)
    ensures
        prebuilt_answer(env, canary, version) matches Ok((url, name)) ==> name matches Some(n) && url
            == download_host() + n,
{
}

/// A tag that does not name a stable v2 release makes no difference to what
/// `load_versions` builds its output from, wherever it stands in the list;
/// so the output, and whether loading succeeds, stay the same.
pub proof fn lemma_other_tags_change_nothing(tags: Seq<Seq<char>>, i: int, t: Seq<char>)
    requires
        0 <= i <= tags.len(),
        !is_stable_v2_tag(t),
    ensures
        stable_v2_tags(tags.insert(i, t)) == stable_v2_tags(tags),
{
    let pred = |x: Seq<char>| is_stable_v2_tag(x);
    let front = tags.take(i);
    let back = tags.skip(i);
    assert(tags.insert(i, t) =~= front + seq![t] + back);
    assert(tags =~= front + back);
    Seq::filter_distributes_over_add(front + seq![t], back, pred);
    Seq::filter_distributes_over_add(front, seq![t], pred);
    Seq::filter_distributes_over_add(front, back, pred);
    reveal_with_fuel(Seq::<_>::filter, 2);
    assert(seq![t].drop_last() =~= Seq::<Seq<char>>::empty());
    assert(seq![t].filter(pred) =~= Seq::<Seq<char>>::empty());
    assert(front.filter(pred) + seq![t].filter(pred) =~= front.filter(pred));
}

/// The archive that the second step unpacks or installs (the zip for
/// `unzip`, the package for `pkgutil`, the MSI for `msiexec`) is exactly the
/// file the first step downloaded: the installer's own file name in the
/// temporary directory.
pub proof fn lemma_installer_step_uses_the_download(
    os: HostOs,
    arch: HostArch,
    version: Seq<char>,
    install_dir: Seq<char>,
    temp: Seq<char>,
)
    requires
        install_steps(os, arch, version, install_dir, temp) is Some,
    ensures
        ({
            let steps = install_steps(os, arch, version, install_dir, temp).unwrap();
            &&& steps.len() >= 2
            &&& steps[0].command.program == "curl"@
            &&& steps[0].command.args.len() == 5
            &&& steps[0].command.args[3] == under(temp, installer_file_name(os, arch, version).unwrap())
            &&& steps[1].command.args.len() >= 2
            &&& steps[1].command.args[1] == steps[0].command.args[3]
        }),
{
}

/// A Git tag is kept exactly when it is `2.` followed by digits and dots,
/// whatever its length: the `dev`, `alpha`, `beta` and `rc` checks never
/// reject a tag made of digits and dots.
pub proof fn lemma_stable_tag_is_dotted_v2_number(tag: Seq<char>)
    ensures
        is_stable_v2_tag(tag) <==> tag.len() >= 2 && tag[0] == '2' && tag[1] == '.' && forall|i: int|
            0 <= i < tag.len() ==> ('0' <= #[trigger] tag[i] && tag[i] <= '9') || tag[i] == '.',
{
    reveal_strlit("2.");
    reveal_strlit("dev");
    reveal_strlit("alpha");
    reveal_strlit("beta");
    reveal_strlit("rc");
    if tag.len() >= 2 && tag[0] == '2' && tag[1] == '.' && only_digits_and_dots(tag) {
        assert(tag.subrange(0, 2) =~= "2."@);
        assert forall|needle: Seq<char>, i: int|
            needle.len() > 0 && !is_ascii_digit(needle[0]) && needle[0] != '.' implies !occurs_at(tag, needle, i) by {
            if occurs_at(tag, needle, i) {
                assert(tag.subrange(i, i + needle.len())[0] == tag[i]);
            }
        }
        assert(!contains(tag, "dev"@));
        assert(!contains(tag, "alpha"@));
        assert(!contains(tag, "beta"@));
        assert(!contains(tag, "rc"@));
    }
    if is_stable_v2_tag(tag) {
        assert(tag.subrange(0, 2)[0] == tag[0]);
        assert(tag.subrange(0, 2)[1] == tag[1]);
    }
}

/// `download_prebuilt` succeeds for a version that is not canary exactly on
/// the hosts AWS CLI v2 ships for: Linux on x64 and arm64, macOS on x64 and
/// arm64, Windows on x64. On macOS, on either architecture, it is the
/// version's `.pkg`.
pub proof fn lemma_supported_hosts_download(env: HostEnvironment, version: Seq<char>)
    ensures
        prebuilt_answer(env, false, version) is Ok <==> (env.os == HostOs::Linux && (env.arch == HostArch::X64
            || env.arch == HostArch::Arm64)) || (env.os == HostOs::MacOS && (env.arch == HostArch::X64
            || env.arch == HostArch::Arm64)) || (env.os == HostOs::Windows && env.arch == HostArch::X64),
        env.os == HostOs::MacOS && (env.arch == HostArch::X64 || env.arch == HostArch::Arm64) ==> prebuilt_answer(
            env,
            false,
            version,
        ) == Ok::<(Seq<char>, Option<Seq<char>>), crate::failure::FailureView>((
            "https://awscli.amazonaws.com/"@ + ("AWSCLIV2-"@ + version + ".pkg"@),
            Some("AWSCLIV2-"@ + version + ".pkg"@),
        )),
{
}

/// Only the texts `v2` and `2` are resolved by the plugin; every other
/// request (a range such as `~2.22`, a full version, another alias) is left
/// to proto.
pub proof fn lemma_only_v2_and_2_are_aliases(initial: Seq<char>)
    ensures
        is_v2_alias(initial) <==> initial == seq!['v', '2'] || initial == seq!['2'],
{
    reveal_strlit("v2");
    reveal_strlit("2");
    if initial == seq!['v', '2'] {
        assert(initial =~= "v2"@);
    }
    if initial == seq!['2'] {
        assert(initial =~= "2"@);
    }
    if initial == "v2"@ {
        assert(initial =~= seq!['v', '2']);
    }
    if initial == "2"@ {
        assert(initial =~= seq!['2']);
    }
}

/// On every operating system the completer sits next to the main
/// executable: its path is the `aws` path with the file name `aws` replaced
/// by `aws_completer`, in the same directory and with the same extension.
pub proof fn lemma_completer_beside_main_executable(os: HostOs)
    ensures
        exists|dir: Seq<char>, ext: Seq<char>| #![trigger dir + ext]
            executable_paths(os).0 == dir + "aws"@ + ext && executable_paths(os).1 == dir + "aws_completer"@ + ext,
{
    reveal_strlit("aws");
    reveal_strlit("aws_completer");
    reveal_strlit("bin/aws");
    reveal_strlit("bin/aws_completer");
    reveal_strlit("aws-cli/aws");
    reveal_strlit("aws-cli/aws_completer");
    reveal_strlit("bin/aws.exe");
    reveal_strlit("bin/aws_completer.exe");
    let (dir, ext) = match os {
        HostOs::Linux => (seq!['b', 'i', 'n', '/'], Seq::<char>::empty()),
        HostOs::MacOS => (seq!['a', 'w', 's', '-', 'c', 'l', 'i', '/'], Seq::<char>::empty()),
        HostOs::Windows => (seq!['b', 'i', 'n', '/'], seq!['.', 'e', 'x', 'e']),
        _ => (Seq::<char>::empty(), Seq::<char>::empty()),
    };
    assert(executable_paths(os).0 =~= dir + "aws"@ + ext);
    assert(executable_paths(os).1 =~= dir + "aws_completer"@ + ext);
    assert(dir + ext == dir + ext);
}

} // verus!
