use proto_awscli::download::{download_prebuilt, ToolVersion};
use proto_awscli::executables::locate_executables;
use proto_awscli::failure::PluginFailure;
use proto_awscli::platform::{HostArch, HostEnvironment, HostOs};
use proto_awscli::versions::{load_versions, register_tool, resolve_version, ToolKind};
use proto_pdk::{UnresolvedVersionSpec, VersionSpec};

fn release(text: &str) -> ToolVersion {
    let spec = VersionSpec::parse(text).unwrap();
    ToolVersion { canary: spec.is_canary(), label: spec.to_string() }
}

fn host(os: HostOs, arch: HostArch) -> HostEnvironment {
    HostEnvironment { os, arch }
}

fn aws_cli_tags() -> Vec<String> {
    [
        "1.18.69", "2.0.0", "2.0.0dev0", "2.0.0dev1", "2.1.0", "2.13.0", "2.22.0", "2.22.1",
        "2.22.1rc1", "2.3.0beta", "v2-alpha", "2.x",
    ]
    .iter()
    .map(|t| t.to_string())
    .collect()
}

#[test]
fn registers_tool_metadata() {
    let output = register_tool("0.1.0");

    assert_eq!(output.name, "AWS CLI");
    assert_eq!(output.type_of, ToolKind::CommandLine);
    assert_eq!(output.minimum_proto_version, (0, 46, 0));
    assert!(output.plugin_version.is_some());
    assert_eq!(output.self_upgrade_commands, vec!["upgrade"]);
}

#[test]
fn loads_versions_from_git_tags() {
    let output = load_versions(aws_cli_tags()).unwrap();

    assert!(!output.versions.is_empty());

    // All versions should be v2
    for version in &output.versions {
        let v = version.to_string();
        assert!(v.starts_with("2."), "Expected version to start with '2.', got: {}", v);
    }
}

#[test]
fn sets_latest_alias() {
    let output = load_versions(aws_cli_tags()).unwrap();

    assert!(output.latest.is_some());
    assert!(output.aliases.contains_key("latest"));
    assert_eq!(output.aliases.get("latest"), output.latest.as_ref());
}

#[test]
fn resolves_v2_alias() {
    let initial = UnresolvedVersionSpec::Alias("v2".into());
    let candidate = resolve_version(&initial.to_string()).unwrap();

    assert!(candidate.is_some());
}

#[test]
fn downloads_linux_x64() {
    let output = download_prebuilt(&host(HostOs::Linux, HostArch::X64), &release("2.22.0")).unwrap();

    assert_eq!(output.download_url, "https://awscli.amazonaws.com/awscli-exe-linux-x86_64-2.22.0.zip");
}

#[test]
fn downloads_linux_arm64() {
    let output = download_prebuilt(&host(HostOs::Linux, HostArch::Arm64), &release("2.22.0")).unwrap();

    assert_eq!(output.download_url, "https://awscli.amazonaws.com/awscli-exe-linux-aarch64-2.22.0.zip");
}

#[test]
fn downloads_macos() {
    let output = download_prebuilt(&host(HostOs::MacOS, HostArch::Arm64), &release("2.22.0")).unwrap();

    assert_eq!(output.download_url, "https://awscli.amazonaws.com/AWSCLIV2-2.22.0.pkg");
}

#[test]
fn downloads_windows() {
    let output = download_prebuilt(&host(HostOs::Windows, HostArch::X64), &release("2.22.0")).unwrap();

    assert_eq!(output.download_url, "https://awscli.amazonaws.com/AWSCLIV2-2.22.0.msi");
}

#[test]
fn locates_linux_executables() {
    let output = locate_executables(HostOs::Linux);

    let aws_exe = output.iter().find(|e| e.name == "aws").unwrap();
    assert_eq!(aws_exe.exe_path, "bin/aws");
    assert!(aws_exe.primary);

    let completer_exe = output.iter().find(|e| e.name == "aws_completer").unwrap();
    assert_eq!(completer_exe.exe_path, "bin/aws_completer");
    assert!(!completer_exe.primary);
}

#[test]
fn locates_macos_executables() {
    let output = locate_executables(HostOs::MacOS);

    let aws_exe = output.iter().find(|e| e.name == "aws").unwrap();
    assert_eq!(aws_exe.exe_path, "aws-cli/aws");
    assert!(aws_exe.primary);
}

#[test]
fn locates_windows_executables() {
    let output = locate_executables(HostOs::Windows);

    let aws_exe = output.iter().find(|e| e.name == "aws").unwrap();
    assert_eq!(aws_exe.exe_path, "bin/aws.exe");
    assert!(aws_exe.primary);
}

#[test]
fn download_names_the_installer_file() {
    let output = download_prebuilt(&host(HostOs::Linux, HostArch::Arm64), &release("2.22.0")).unwrap();
    assert_eq!(output.download_name.as_deref(), Some("awscli-exe-linux-aarch64-2.22.0.zip"));

    let output = download_prebuilt(&host(HostOs::Windows, HostArch::X64), &release("2.13.0")).unwrap();
    assert_eq!(output.download_name.as_deref(), Some("AWSCLIV2-2.13.0.msi"));
}

#[test]
fn download_refuses_canary() {
    let result = download_prebuilt(&host(HostOs::Linux, HostArch::X64), &release("canary"));
    match result {
        Err(PluginFailure::UnsupportedCanary { tool }) => assert_eq!(tool, "AWS CLI"),
        _ => panic!("canary must be refused"),
    }
}

#[test]
fn download_refuses_unsupported_os() {
    let result = download_prebuilt(&host(HostOs::FreeBSD, HostArch::X64), &release("2.22.0"));
    match result {
        Err(PluginFailure::UnsupportedOs { tool, os }) => {
            assert_eq!(tool, "AWS CLI");
            assert_eq!(os, "freebsd");
        }
        _ => panic!("FreeBSD must be refused"),
    }
}

#[test]
fn download_refuses_unsupported_arch() {
    let result = download_prebuilt(&host(HostOs::Windows, HostArch::Arm64), &release("2.22.0"));
    match result {
        Err(PluginFailure::UnsupportedTarget { tool, arch, os }) => {
            assert_eq!(tool, "AWS CLI");
            assert_eq!(arch, "arm64");
            assert_eq!(os, "windows");
        }
        _ => panic!("Windows on arm64 must be refused"),
    }
}

#[test]
fn other_hosts_locate_bare_executables() {
    let output = locate_executables(HostOs::FreeBSD);
    assert_eq!(output[0].exe_path, "aws");
    assert_eq!(output[1].exe_path, "aws_completer");
}

#[test]
fn resolve_leaves_other_versions_alone() {
    assert!(resolve_version("2").unwrap().is_some());
    assert!(resolve_version("latest").unwrap().is_none());
    assert!(resolve_version("2.22.0").unwrap().is_none());
    assert!(resolve_version("v22").unwrap().is_none());
    let candidate = resolve_version("v2").unwrap().unwrap();
    assert_eq!(candidate.to_string(), UnresolvedVersionSpec::parse(">=2.0.0").unwrap().to_string());
}

#[test]
fn register_tool_without_a_version() {
    assert!(register_tool("not a version").plugin_version.is_none());
}

#[test]
fn versions_keep_order_and_latest_is_highest() {
    let output = load_versions(aws_cli_tags()).unwrap();
    let listed: Vec<String> = output.versions.iter().map(|v| v.to_string()).collect();
    assert_eq!(listed, vec!["2.0.0", "2.1.0", "2.13.0", "2.22.0", "2.22.1"]);
    assert_eq!(output.latest.unwrap().to_string(), "2.22.1");
}

#[test]
fn versions_fail_on_unparsable_tag() {
    let tags = vec!["2.1.0".to_string(), "2..1".to_string()];
    assert!(load_versions(tags).is_err());
}

#[test]
fn other_tags_leave_versions_unchanged() {
    let mut tags = aws_cli_tags();
    let before: Vec<String> = load_versions(tags.clone()).unwrap().versions.iter().map(|v| v.to_string()).collect();
    tags.insert(3, "2.5.0rc2".to_string());
    tags.insert(0, "1.29.0".to_string());
    let after: Vec<String> = load_versions(tags).unwrap().versions.iter().map(|v| v.to_string()).collect();
    assert_eq!(before, after);
}
