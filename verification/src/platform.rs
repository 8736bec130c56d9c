//! The host platform as the plugin sees it, and the check of it against a
//! table of supported operating systems and architectures.

use vstd::prelude::*;
use crate::failure::{FailureView, PluginFailure};

verus! {

/// Operating system of the host that runs the plugin.
#[derive(Clone, Copy, Debug, PartialEq, Eq, Structural)]
pub enum HostOs {
    Android,
    Dragonfly,
    FreeBSD,
    IOS,
    Linux,
    MacOS,
    NetBSD,
    OpenBSD,
    Solaris,
    Windows,
}

/// Processor architecture of the host that runs the plugin.
#[derive(Clone, Copy, Debug, PartialEq, Eq, Structural)]
pub enum HostArch {
    X86,
    X64,
    Arm,
    Arm64,
    LongArm64,
    M68k,
    Mips,
    Mips64,
    Powerpc,
    Powerpc64,
    Riscv64,
    S390x,
    Sparc64,
}

/// What the plugin reads of the host environment.
#[derive(Clone, Copy, Debug, PartialEq, Eq, Structural)]
pub struct HostEnvironment {
    pub os: HostOs,
    pub arch: HostArch,
}

/// The name under which an operating system is shown to users.
pub open spec fn os_label(os: HostOs) -> Seq<char> {
    match os {
        HostOs::Android => "android"@,
        HostOs::Dragonfly => "dragonfly"@,
        HostOs::FreeBSD => "freebsd"@,
        HostOs::IOS => "ios"@,
        HostOs::Linux => "linux"@,
        HostOs::MacOS => "macos"@,
        HostOs::NetBSD => "netbsd"@,
        HostOs::OpenBSD => "openbsd"@,
        HostOs::Solaris => "solaris"@,
        HostOs::Windows => "windows"@,
    }
}

/// The name under which an architecture is shown to users.
pub open spec fn arch_label(arch: HostArch) -> Seq<char> {
    match arch {
        HostArch::X86 => "x86"@,
        HostArch::X64 => "x64"@,
        HostArch::Arm => "arm"@,
        HostArch::Arm64 => "arm64"@,
        HostArch::LongArm64 => "longarm64"@,
        HostArch::M68k => "m68k"@,
        HostArch::Mips => "mips"@,
        HostArch::Mips64 => "mips64"@,
        HostArch::Powerpc => "powerpc"@,
        HostArch::Powerpc64 => "powerpc64"@,
        HostArch::Riscv64 => "riscv64"@,
        HostArch::S390x => "s390x"@,
        HostArch::Sparc64 => "sparc64"@,
    }
}

impl HostOs {
    /// The user-facing name of this operating system.
    pub fn label(&self) -> (s: String)
        ensures
            s@ == os_label(*self),
    {
        let text = match self {
            HostOs::Android => "android",
            HostOs::Dragonfly => "dragonfly",
            HostOs::FreeBSD => "freebsd",
            HostOs::IOS => "ios",
            HostOs::Linux => "linux",
            HostOs::MacOS => "macos",
            HostOs::NetBSD => "netbsd",
            HostOs::OpenBSD => "openbsd",
            HostOs::Solaris => "solaris",
            HostOs::Windows => "windows",
        };
        String::from_str(text)
    }
}

impl HostArch {
    /// The user-facing name of this architecture.
    pub fn label(&self) -> (s: String)
        ensures
            s@ == arch_label(*self),
    {
        let text = match self {
            HostArch::X86 => "x86",
            HostArch::X64 => "x64",
            HostArch::Arm => "arm",
            HostArch::Arm64 => "arm64",
            HostArch::LongArm64 => "longarm64",
            HostArch::M68k => "m68k",
            HostArch::Mips => "mips",
            HostArch::Mips64 => "mips64",
            HostArch::Powerpc => "powerpc",
            HostArch::Powerpc64 => "powerpc64",
            HostArch::Riscv64 => "riscv64",
            HostArch::S390x => "s390x",
            HostArch::Sparc64 => "sparc64",
        };
        String::from_str(text)
    }
}

/// The architectures on which the tool is offered for one operating system.
pub struct Permutation {
    pub os: HostOs,
    pub archs: Vec<HostArch>,
}

/// No operating system has two rows in the table.
pub open spec fn distinct_oses(table: Seq<Permutation>) -> bool {
    forall|i: int, j: int|
        0 <= i < table.len() && 0 <= j < table.len() && i != j ==> #[trigger] table[i].os
            != #[trigger] table[j].os
}

/// The table has a row for `os`.
pub open spec fn os_listed(table: Seq<Permutation>, os: HostOs) -> bool {
    exists|i: int| 0 <= i < table.len() && #[trigger] table[i].os == os
}

/// The table's row for `os` lists `arch`.
pub open spec fn target_listed(table: Seq<Permutation>, os: HostOs, arch: HostArch) -> bool {
    exists|i: int| 0 <= i < table.len() && #[trigger] table[i].os == os && table[i].archs@.contains(arch)
}

/// The operating systems and architectures on which AWS CLI v2 is offered:
/// Linux on x64 and arm64, macOS on x64 and arm64, Windows on x64.
pub open spec fn aws_cli_target(os: HostOs, arch: HostArch) -> bool {
    match os {
        HostOs::Linux | HostOs::MacOS => arch == HostArch::X64 || arch == HostArch::Arm64,
        HostOs::Windows => arch == HostArch::X64,
        _ => false,
    }
}

/// AWS CLI v2 is offered for this operating system on some architecture.
pub open spec fn aws_cli_os(os: HostOs) -> bool {
    os == HostOs::Linux || os == HostOs::MacOS || os == HostOs::Windows
}

/// The table of targets on which AWS CLI v2 is offered.
pub fn aws_cli_permutations() -> (table: Vec<Permutation>)
    ensures
        distinct_oses(table@),
        forall|os: HostOs| os_listed(table@, os) <==> aws_cli_os(os),
        forall|os: HostOs, arch: HostArch| target_listed(table@, os, arch) <==> aws_cli_target(os, arch),
{
    let mut table: Vec<Permutation> = Vec::new();
    table.push(Permutation { os: HostOs::Linux, archs: vec![HostArch::X64, HostArch::Arm64] });
    table.push(Permutation { os: HostOs::MacOS, archs: vec![HostArch::X64, HostArch::Arm64] });
    table.push(Permutation { os: HostOs::Windows, archs: vec![HostArch::X64] });
    assert forall|os: HostOs| aws_cli_os(os) implies os_listed(table@, os) by {
        if os == HostOs::Linux {
            assert(table@[0].os == os);
        } else if os == HostOs::MacOS {
            assert(table@[1].os == os);
        } else {
            assert(table@[2].os == os);
        }
    }
    assert forall|os: HostOs, arch: HostArch| aws_cli_target(os, arch) implies target_listed(table@, os, arch) by {
        if os == HostOs::Linux {
            assert(table@[0].os == os);
            assert(table@[0].archs@[0] == HostArch::X64);
            assert(table@[0].archs@[1] == HostArch::Arm64);
        } else if os == HostOs::MacOS {
            assert(table@[1].os == os);
            assert(table@[1].archs@[0] == HostArch::X64);
            assert(table@[1].archs@[1] == HostArch::Arm64);
        } else {
            assert(table@[2].os == os);
            assert(table@[2].archs@[0] == HostArch::X64);
        }
    }
    assert forall|os: HostOs, arch: HostArch| target_listed(table@, os, arch) implies aws_cli_target(os, arch) by {
        let i = choose|i: int| 0 <= i < table@.len() && #[trigger] table@[i].os == os && table@[i].archs@.contains(arch);
        let k = choose|k: int| 0 <= k < table@[i].archs@.len() && table@[i].archs@[k] == arch;
    }
    table
}

/// Whether `arch` is one of `archs`.
fn lists_arch(archs: &Vec<HostArch>, arch: HostArch) -> (b: bool)
    ensures
        b == archs@.contains(arch),
{
    let mut i: usize = 0;
    while i < archs.len()
        invariant
            i <= archs.len(),
            forall|j: int| 0 <= j < i ==> archs@[j] != arch,
        decreases archs.len() - i,
    {
        if archs[i] == arch {
            return true;
        }
        i = i + 1;
    }
    false
}

/// What checking `env` against `table` refuses, if anything: an operating
/// system without a row is refused as such, and one whose row lacks the
/// host's architecture as an unsupported target.
pub open spec fn target_check(tool: Seq<char>, table: Seq<Permutation>, env: HostEnvironment) -> Option<FailureView> {
    if target_listed(table, env.os, env.arch) {
        None
    } else if os_listed(table, env.os) {
        Some(FailureView::UnsupportedTarget { tool, arch: arch_label(env.arch), os: os_label(env.os) })
    } else {
        Some(FailureView::UnsupportedOs { tool, os: os_label(env.os) })
    }
}

/// Checks the host against a table of supported targets: an operating
/// system without a row is refused as such, and one whose row lacks the
/// host's architecture is refused as an unsupported target.
pub fn check_supported_os_and_arch(
    tool: &str,
    env: &HostEnvironment,
    permutations: &Vec<Permutation>,
) -> (r: Result<(), PluginFailure>)
    requires
        distinct_oses(permutations@),
    ensures
        match r {
            Ok(()) => target_check(tool@, permutations@, *env) is None,
            Err(e) => target_check(tool@, permutations@, *env) == Some(e@),
        },
{
    let mut i: usize = 0;
    while i < permutations.len()
        invariant
            i <= permutations.len(),
            distinct_oses(permutations@),
            forall|j: int| 0 <= j < i ==> permutations@[j].os != env.os,
        decreases permutations.len() - i,
    {
        if permutations[i].os == env.os {
            if lists_arch(&permutations[i].archs, env.arch) {
                return Ok(());
            }
            assert(!target_listed(permutations@, env.os, env.arch)) by {
                if target_listed(permutations@, env.os, env.arch) {
                    let k = choose|k: int| 0 <= k < permutations@.len() && #[trigger] permutations@[k].os == env.os
                        && permutations@[k].archs@.contains(env.arch);
                    assert(k == i);
                }
            }
            return Err(PluginFailure::UnsupportedTarget {
                tool: String::from_str(tool),
                arch: env.arch.label(),
                os: env.os.label(),
            });
        }
        i = i + 1;
    }
    Err(PluginFailure::UnsupportedOs { tool: String::from_str(tool), os: env.os.label() })
}

} // verus!
