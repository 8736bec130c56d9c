//! Which releases of AWS CLI v2 the plugin offers, how it resolves the
//! `v2` alias, and how it registers itself with proto.

use vstd::prelude::*;
use proto_pdk::{LoadVersionsOutput, SpecError, UnresolvedVersionSpec, Version};
use crate::failure::tool_name;
use crate::failure::tool_name_string;
use crate::text::{texts, contains, has_prefix, has_substring, is_digits_and_dots, only_digits_and_dots, same_text, starts_with};

verus! {

#[verifier::external_type_specification]
#[verifier::external_body]
pub struct ExLoadVersionsOutput(LoadVersionsOutput);

#[verifier::external_type_specification]
#[verifier::external_body]
pub struct ExSpecError(SpecError);

#[verifier::external_type_specification]
#[verifier::external_body]
pub struct ExUnresolvedVersionSpec(UnresolvedVersionSpec);

#[verifier::external_type_specification]
#[verifier::external_body]
pub struct ExVersion(Version);

/// Whether `LoadVersionsOutput::from` accepts `text` as a version
/// specification (it parses each text with `VersionSpec::parse`).
pub uninterp spec fn accepted_as_version(text: Seq<char>) -> bool;

/// What `LoadVersionsOutput::from` builds from `texts` when it succeeds.
pub uninterp spec fn loaded_versions(texts: Seq<Seq<char>>) -> LoadVersionsOutput;

/// What `UnresolvedVersionSpec::parse` returns for `text` when it succeeds.
pub uninterp spec fn parsed_unresolved_spec(text: Seq<char>) -> UnresolvedVersionSpec;

/// What `Version::parse` returns for `text` when it succeeds.
pub uninterp spec fn parsed_plain_version(text: Seq<char>) -> Version;

/// Whether `UnresolvedVersionSpec::parse` accepts `text`.
pub uninterp spec fn accepted_as_unresolved_spec(text: Seq<char>) -> bool;

/// Whether `Version::parse` accepts `text`.
pub uninterp spec fn accepted_as_plain_version(text: Seq<char>) -> bool;

/// Calls `LoadVersionsOutput::from`, which parses each text with
/// `VersionSpec::parse` and fails on the first that does not parse.
/// Stated: the call succeeds exactly when every text parses, and its output
/// is the named result for the texts. Not stated: what the output lists,
/// which version it marks as latest, and its aliases.
#[verifier::external_body]
fn versions_output_from(tags: Vec<String>) -> (r: Result<LoadVersionsOutput, SpecError>)
    ensures
        r is Ok <==> forall|i: int| 0 <= i < tags@.len() ==> accepted_as_version(#[trigger] tags@[i]@),
        r matches Ok(o) ==> o == loaded_versions(texts(tags@)),
{
    LoadVersionsOutput::from(tags)
}

/// Calls `UnresolvedVersionSpec::parse`. Stated: it succeeds exactly when
/// the text is accepted, and returns the named parse of the text. Not
/// stated: what that specification holds.
#[verifier::external_body]
fn parse_unresolved_spec(text: &str) -> (r: Result<UnresolvedVersionSpec, SpecError>)
    ensures
        r is Ok <==> accepted_as_unresolved_spec(text@),
        r matches Ok(s) ==> s == parsed_unresolved_spec(text@),
{
    UnresolvedVersionSpec::parse(text)
}

/// Calls `Version::parse` and keeps the version if there is one. Stated:
/// there is one exactly when the text is accepted, and it is the named parse
/// of the text. Not stated: its parts.
#[verifier::external_body]
fn parse_plain_version(text: &str) -> (r: Option<Version>)
    ensures
        r is Some <==> accepted_as_plain_version(text@),
        r matches Some(v) ==> v == parsed_plain_version(text@),
{
    Version::parse(text).ok()
}

/// A Git tag of the aws-cli repository that names a stable v2 release: it
/// starts with `2.`, mentions none of `dev`, `alpha`, `beta` and `rc`, and
/// consists of digits and dots only.
pub open spec fn is_stable_v2_tag(tag: Seq<char>) -> bool {
    &&& starts_with(tag, "2."@)
    &&& !contains(tag, "dev"@)
    &&& !contains(tag, "alpha"@)
    &&& !contains(tag, "beta"@)
    &&& !contains(tag, "rc"@)
    &&& only_digits_and_dots(tag)
}

/// The tags that name stable v2 releases, in their order.
pub open spec fn stable_v2_tags(tags: Seq<Seq<char>>) -> Seq<Seq<char>> {
    tags.filter(|t: Seq<char>| is_stable_v2_tag(t))
}

/// Whether a Git tag names a stable v2 release.
pub fn is_stable_v2(tag: &str) -> (b: bool)
    ensures
        b == is_stable_v2_tag(tag@),
{
    has_prefix(tag, "2.") && !has_substring(tag, "dev") && !has_substring(tag, "alpha")
        && !has_substring(tag, "beta") && !has_substring(tag, "rc") && is_digits_and_dots(tag)
}

/// Keeps the tags that name stable v2 releases, in their order.
pub fn select_v2_tags(tags: Vec<String>) -> (kept: Vec<String>)
    ensures
        texts(kept@) == stable_v2_tags(texts(tags@)),
{
    let mut kept: Vec<String> = Vec::new();
    let ghost all = texts(tags@);
    let mut i: usize = 0;
    while i < tags.len()
        invariant
            i <= tags.len(),
            all == texts(tags@),
            texts(kept@) == stable_v2_tags(all.take(i as int)),
        decreases tags.len() - i,
    {
        let tag = &tags[i];
        let keep = is_stable_v2(tag.as_str());
        proof {
            reveal_with_fuel(Seq::<_>::filter, 1);
            assert(all.take(i + 1).drop_last() =~= all.take(i as int));
            assert(all.take(i + 1).last() == tag@);
        }
        if keep {
            kept.push(tag.clone());
            assert(texts(kept@) =~= texts(kept@).drop_last().push(tag@));
        }
        i = i + 1;
    }
    assert(all.take(tags.len() as int) =~= all);
    kept
}

/// Why the listed versions could not be loaded.
#[derive(Debug)]
pub enum VersionsError {
    /// A text could not be parsed as a version specification.
    Unparsable(SpecError),
}

/// Lists the stable v2 releases of AWS CLI among the Git tags of its
/// repository, for proto: the output is built from the stable v2 tags alone,
/// in their order.
pub fn load_versions(tags: Vec<String>) -> (r: Result<LoadVersionsOutput, VersionsError>)
    ensures
        r is Ok <==> forall|t: Seq<char>| #[trigger] stable_v2_tags(texts(tags@)).contains(t) ==> accepted_as_version(t),
        r matches Ok(o) ==> o == loaded_versions(stable_v2_tags(texts(tags@))),
{
    let kept = select_v2_tags(tags);
    let ghost kept_texts = texts(kept@);
    match versions_output_from(kept) {
        Ok(output) => {
            assert forall|t: Seq<char>| #[trigger] kept_texts.contains(t) implies accepted_as_version(t) by {
                let j = choose|j: int| 0 <= j < kept_texts.len() && kept_texts[j] == t;
                assert(kept@[j]@ == t);
            }
            Ok(output)
        },
        Err(e) => {
            proof {
                let j = choose|j: int| 0 <= j < kept@.len() && !accepted_as_version(#[trigger] kept@[j]@);
                assert(kept_texts[j] == kept@[j]@);
                assert(kept_texts.contains(kept@[j]@));
            }
            Err(VersionsError::Unparsable(e))
        },
    }
}

/// The aliases that stand for the newest v2 release.
pub open spec fn is_v2_alias(initial: Seq<char>) -> bool {
    initial == "v2"@ || initial == "2"@
}

/// The range that the `v2` alias resolves to.
pub open spec fn v2_range() -> Seq<char> {
    ">=2.0.0"@
}

/// Resolves the `v2` and `2` aliases to the range of all v2 releases;
/// every other requested version is left for proto to resolve.
pub fn resolve_version(initial: &str) -> (r: Result<Option<UnresolvedVersionSpec>, VersionsError>)
    ensures
        !is_v2_alias(initial@) ==> r matches Ok(None),
        is_v2_alias(initial@) ==> (r is Ok <==> accepted_as_unresolved_spec(v2_range())),
        is_v2_alias(initial@) ==> (r matches Ok(c) ==> c == Some(parsed_unresolved_spec(v2_range()))),
{
    if same_text(initial, "v2") || same_text(initial, "2") {
        match parse_unresolved_spec(">=2.0.0") {
            Ok(spec) => Ok(Some(spec)),
            Err(e) => Err(VersionsError::Unparsable(e)),
        }
    } else {
        Ok(None)
    }
}

/// The kinds of tool that proto manages.
#[derive(Clone, Copy, Debug, PartialEq, Eq, Structural)]
pub enum ToolKind {
    CommandLine,
    Language,
    DependencyManager,
    VersionManager,
}

/// How the plugin introduces itself to proto.
pub struct ToolMetadata {
    pub name: String,
    pub type_of: ToolKind,
    /// The oldest proto release the plugin works with, as major, minor, patch.
    pub minimum_proto_version: (u32, u32, u32),
    pub plugin_version: Option<Version>,
    pub self_upgrade_commands: Vec<String>,
}

/// Registers the plugin: the tool is "AWS CLI", a command-line tool that
/// needs proto 0.46.0 or newer and upgrades itself with `aws upgrade`;
/// the plugin's own version is `plugin_version` where that parses.
pub fn register_tool(plugin_version: &str) -> (m: ToolMetadata)
    ensures
        m.name@ == tool_name(),
        m.type_of == ToolKind::CommandLine,
        m.minimum_proto_version == (0u32, 46u32, 0u32),
        m.plugin_version is Some <==> accepted_as_plain_version(plugin_version@),
        m.plugin_version matches Some(v) ==> v == parsed_plain_version(plugin_version@),
        m.self_upgrade_commands@.len() == 1,
        m.self_upgrade_commands@[0]@ == "upgrade"@,
{
    let mut commands: Vec<String> = Vec::new();
    commands.push(String::from_str("upgrade"));
    ToolMetadata {
        name: tool_name_string(),
        type_of: ToolKind::CommandLine,
        minimum_proto_version: (0, 46, 0),
        plugin_version: parse_plain_version(plugin_version),
        self_upgrade_commands: commands,
    }
}

} // verus!
