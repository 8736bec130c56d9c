//! Where the installed AWS CLI executables live, relative to the install
//! directory.

use vstd::prelude::*;
use crate::platform::HostOs;

verus! {

/// An executable that proto exposes.
pub struct ExecutableEntry {
    pub name: String,
    pub exe_path: String,
    /// The tool's main executable.
    pub primary: bool,
}

/// The paths of `aws` and of `aws_completer` below the install directory.
pub open spec fn executable_paths(os: HostOs) -> (Seq<char>, Seq<char>) {
    match os {
        HostOs::Linux => ("bin/aws"@, "bin/aws_completer"@),
        HostOs::MacOS => ("aws-cli/aws"@, "aws-cli/aws_completer"@),
        HostOs::Windows => ("bin/aws.exe"@, "bin/aws_completer.exe"@),
        _ => ("aws"@, "aws_completer"@),
    }
}

/// Lists the executables of the installed tool: `aws`, the primary one, and
/// `aws_completer`.
pub fn locate_executables(os: HostOs) -> (exes: Vec<ExecutableEntry>)
    ensures
        exes@.len() == 2,
        exes@[0].name@ == "aws"@,
        exes@[0].exe_path@ == executable_paths(os).0,
        exes@[0].primary,
        exes@[1].name@ == "aws_completer"@,
        exes@[1].exe_path@ == executable_paths(os).1,
        !exes@[1].primary,
{
    let (exe, completer) = match os {
        HostOs::Linux => ("bin/aws", "bin/aws_completer"),
        HostOs::MacOS => ("aws-cli/aws", "aws-cli/aws_completer"),
        HostOs::Windows => ("bin/aws.exe", "bin/aws_completer.exe"),
        _ => ("aws", "aws_completer"),
    };
    let mut exes: Vec<ExecutableEntry> = Vec::new();
    exes.push(ExecutableEntry { name: String::from_str("aws"), exe_path: String::from_str(exe), primary: true });
    exes.push(
        ExecutableEntry {
            name: String::from_str("aws_completer"),
            exe_path: String::from_str(completer),
            primary: false,
        },
    );
    exes
}

} // verus!
