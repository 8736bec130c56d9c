//! Where the AWS CLI v2 installer for a host is downloaded from.

use vstd::prelude::*;
use crate::failure::{tool_name, tool_name_string, FailureView, PluginFailure};
use crate::platform::{
    aws_cli_os, aws_cli_permutations, aws_cli_target, check_supported_os_and_arch, HostArch,
    HostEnvironment, HostOs,
};

verus! {

/// The requested version, as the plugin reads it: whether it names a canary
/// build, and its text.
pub struct ToolVersion {
    pub canary: bool,
    pub label: String,
}

/// The server that hosts every AWS CLI v2 installer.
pub open spec fn download_host() -> Seq<char> {
    "https://awscli.amazonaws.com/"@
}

/// How the Linux installers name an architecture.
pub open spec fn linux_arch_name(arch: HostArch) -> Seq<char> {
    if arch == HostArch::Arm64 {
        "aarch64"@
    } else {
        "x86_64"@
    }
}

/// The file name of the installer of `version` for a host: a zip with an
/// install script on Linux, a package on macOS, an MSI on Windows, and none
/// on any other operating system.
pub open spec fn installer_file_name(os: HostOs, arch: HostArch, version: Seq<char>) -> Option<Seq<char>> {
    match os {
        HostOs::Linux => Some("awscli-exe-linux-"@ + linux_arch_name(arch) + "-"@ + version + ".zip"@),
        HostOs::MacOS => Some("AWSCLIV2-"@ + version + ".pkg"@),
        HostOs::Windows => Some("AWSCLIV2-"@ + version + ".msi"@),
        _ => None,
    }
}

/// The URL of the installer of `version` for a supported host.
pub open spec fn installer_url(os: HostOs, arch: HostArch, version: Seq<char>) -> Seq<char> {
    download_host() + installer_file_name(os, arch, version).unwrap()
}

/// The architecture name used by the Linux installers.
pub fn linux_arch(arch: HostArch) -> (s: &'static str)
    ensures
        s@ == linux_arch_name(arch),
{
    match arch {
        HostArch::Arm64 => "aarch64",
        _ => "x86_64",
    }
}

/// The file name of the installer of `version` for the host.
pub fn installer_name(os: HostOs, arch: HostArch, version: &str) -> (name: Option<String>)
    ensures
        match name {
            Some(n) => installer_file_name(os, arch, version@) == Some(n@),
            None => installer_file_name(os, arch, version@) is None,
        },
{
    match os {
        HostOs::Linux => {
            let mut name = String::from_str("awscli-exe-linux-");
            name.append(linux_arch(arch));
            name.append("-");
            name.append(version);
            name.append(".zip");
            Some(name)
        },
        HostOs::MacOS => {
            let mut name = String::from_str("AWSCLIV2-");
            name.append(version);
            name.append(".pkg");
            Some(name)
        },
        HostOs::Windows => {
            let mut name = String::from_str("AWSCLIV2-");
            name.append(version);
            name.append(".msi");
            Some(name)
        },
        _ => None,
    }
}

/// The URL under which an installer file is published.
pub fn installer_url_for(file_name: &str) -> (url: String)
    ensures
        url@ == download_host() + file_name@,
{
    let mut url = String::from_str("https://awscli.amazonaws.com/");
    url.append(file_name);
    url
}

/// Where proto downloads the prebuilt installer from.
pub struct PrebuiltDownload {
    pub download_url: String,
    pub download_name: Option<String>,
}

/// What `download_prebuilt` answers for a host and a requested version:
/// canary builds are refused first, then hosts outside the supported targets
/// (an operating system without installers as such, a supported one on
/// another architecture as an unsupported target); otherwise the installer's
/// URL and file name.
pub open spec fn prebuilt_answer(env: HostEnvironment, canary: bool, version: Seq<char>) -> Result<(Seq<char>, Option<Seq<char>>), FailureView> {
    if canary {
        Err(FailureView::UnsupportedCanary { tool: tool_name() })
    } else if !aws_cli_os(env.os) {
        Err(FailureView::UnsupportedOs { tool: tool_name(), os: crate::platform::os_label(env.os) })
    } else if !aws_cli_target(env.os, env.arch) {
        Err(FailureView::UnsupportedTarget {
            tool: tool_name(),
            arch: crate::platform::arch_label(env.arch),
            os: crate::platform::os_label(env.os),
        })
    } else {
        Ok((installer_url(env.os, env.arch, version), installer_file_name(env.os, env.arch, version)))
    }
}

/// Tells proto where to download AWS CLI v2 for the host.
pub fn download_prebuilt(env: &HostEnvironment, version: &ToolVersion) -> (r: Result<PrebuiltDownload, PluginFailure>)
    ensures
        match r {
            Ok(d) => prebuilt_answer(*env, version.canary, version.label@) == Ok::<(Seq<char>, Option<Seq<char>>), FailureView>((
                d.download_url@,
                match d.download_name {
                    Some(n) => Some(n@),
                    None => None,
                },
            )),
            Err(e) => prebuilt_answer(*env, version.canary, version.label@) == Err::<(Seq<char>, Option<Seq<char>>), FailureView>(e@),
        },
{
    if version.canary {
        return Err(PluginFailure::UnsupportedCanary { tool: tool_name_string() });
    }
    let table = aws_cli_permutations();
    let tool = tool_name_string();
    match check_supported_os_and_arch(tool.as_str(), env, &table) {
        Err(e) => {
            return Err(e);
        },
        Ok(()) => {},
    }
    let version_text = version.label.as_str();
    let name = installer_name(env.os, env.arch, version_text);
    match name {
        Some(n) => {
            let url = installer_url_for(n.as_str());
            Ok(PrebuiltDownload { download_url: url, download_name: Some(n) })
        },
        None => {
            // not reached: the check above admits only hosts that have an installer
            Ok(PrebuiltDownload { download_url: String::new(), download_name: None })
        },
    }
}

} // verus!
