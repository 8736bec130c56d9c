//! Refusals that the plugin reports to proto.

use vstd::prelude::*;

verus! {

/// The display name of the tool this plugin installs.
pub open spec fn tool_name() -> Seq<char> {
    "AWS CLI"@
}

/// The display name of the tool, as a string.
pub fn tool_name_string() -> (s: String)
    ensures
        s@ == tool_name(),
{
    String::from_str("AWS CLI")
}

/// A request the plugin refuses, with what proto shows of it.
#[derive(Debug)]
pub enum PluginFailure {
    /// Canary (nightly) builds are not offered for the tool.
    UnsupportedCanary { tool: String },
    /// The host operating system is not supported at all.
    UnsupportedOs { tool: String, os: String },
    /// The host operating system is supported, but not on this architecture.
    UnsupportedTarget { tool: String, arch: String, os: String },
}

/// The content of a [`PluginFailure`].
pub enum FailureView {
    UnsupportedCanary { tool: Seq<char> },
    UnsupportedOs { tool: Seq<char>, os: Seq<char> },
    UnsupportedTarget { tool: Seq<char>, arch: Seq<char>, os: Seq<char> },
}

impl View for PluginFailure {
    type V = FailureView;

    open spec fn view(&self) -> FailureView {
        match self {
            PluginFailure::UnsupportedCanary { tool } => FailureView::UnsupportedCanary { tool: tool@ },
            PluginFailure::UnsupportedOs { tool, os } => FailureView::UnsupportedOs {
                tool: tool@,
                os: os@,
            },
            PluginFailure::UnsupportedTarget { tool, arch, os } => FailureView::UnsupportedTarget {
                tool: tool@,
                arch: arch@,
                os: os@,
            },
        }
    }
}

} // verus!
