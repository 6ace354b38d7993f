//! Adapter-supplied identity threaded into the CLI surface and every
//! reporter: tool name and version, language, help texts, file
//! extensions, SARIF links, the config-file name, init-template
//! excludes and the parse-failure hint.

use vstd::prelude::*;

use crate::text::owned;

verus! {

/// Adapter-binary identity bundle. Every field is a compile-time
/// literal of the adapter binary.
#[derive(Debug, Clone, Copy)]
pub struct AdapterMeta {
    /// Adapter binary name.
    pub tool_name: &'static str,
    /// Source-language identifier.
    pub language: &'static str,
    /// Adapter binary's package version.
    pub tool_version: &'static str,
    /// Long-version string with build metadata.
    pub long_version: &'static str,
    /// One-line help text.
    pub about: &'static str,
    /// Multi-paragraph help text.
    pub long_about: &'static str,
    /// Examples block shown after the help; may be empty.
    pub after_help: &'static str,
    /// File extensions the walker keeps; may be empty.
    pub extensions: &'static [&'static str],
    /// Adapter repository URL for SARIF's `informationUri`.
    pub tool_info_uri: &'static str,
    /// Rule-help URL for SARIF's `helpUri`.
    pub rule_help_uri: &'static str,
    /// Config-file basename.
    pub config_file_name: &'static str,
    /// Commented-out exclude patterns of the init template; may be
    /// empty.
    pub default_excludes: &'static [&'static str],
    /// Remediation hint shown when every input file fails to parse.
    pub parse_hint: &'static str,
}

/// The message naming the first empty required field of `m`, checked in
/// declaration order, or `None` when every required field is filled.
/// `after_help`, `extensions` and `default_excludes` may be empty.
pub open spec fn missing_field_message(m: AdapterMeta) -> Option<Seq<char>> {
    if m.tool_name@.len() == 0 {
        Some("AdapterMeta.tool_name must not be empty"@)
    } else if m.language@.len() == 0 {
        Some("AdapterMeta.language must not be empty"@)
    } else if m.tool_version@.len() == 0 {
        Some("AdapterMeta.tool_version must not be empty"@)
    } else if m.long_version@.len() == 0 {
        Some("AdapterMeta.long_version must not be empty"@)
    } else if m.about@.len() == 0 {
        Some("AdapterMeta.about must not be empty"@)
    } else if m.long_about@.len() == 0 {
        Some("AdapterMeta.long_about must not be empty"@)
    } else if m.tool_info_uri@.len() == 0 {
        Some("AdapterMeta.tool_info_uri must not be empty"@)
    } else if m.rule_help_uri@.len() == 0 {
        Some("AdapterMeta.rule_help_uri must not be empty"@)
    } else if m.config_file_name@.len() == 0 {
        Some("AdapterMeta.config_file_name must not be empty"@)
    } else if m.parse_hint@.len() == 0 {
        Some("AdapterMeta.parse_hint must not be empty"@)
    } else {
        None
    }
}

/// Law: only the required fields decide the check; `after_help`,
/// `extensions` and `default_excludes`, empty or not, never do.
pub proof fn lemma_only_required_fields_checked(a: AdapterMeta, b: AdapterMeta)
    requires
        a.tool_name@ == b.tool_name@,
        a.language@ == b.language@,
        a.tool_version@ == b.tool_version@,
        a.long_version@ == b.long_version@,
        a.about@ == b.about@,
        a.long_about@ == b.long_about@,
        a.tool_info_uri@ == b.tool_info_uri@,
        a.rule_help_uri@ == b.rule_help_uri@,
        a.config_file_name@ == b.config_file_name@,
        a.parse_hint@ == b.parse_hint@,
    ensures
        missing_field_message(a) == missing_field_message(b),
{
}

impl AdapterMeta {
    /// Owned copies of `extensions`, in order.
    pub fn extensions_owned(&self) -> (r: Vec<String>)
        ensures
            r@.len() == self.extensions@.len(),
            forall|i: int| 0 <= i < r@.len() ==> (#[trigger] r@[i])@ == self.extensions@[i]@,
    {
        let mut out: Vec<String> = Vec::new();
        let mut i: usize = 0;
        while i < self.extensions.len()
            invariant
                i <= self.extensions@.len(),
                out@.len() == i,
                forall|j: int| 0 <= j < i ==> (#[trigger] out@[j])@ == self.extensions@[j]@,
            decreases self.extensions@.len() - i,
        {
            out.push(owned(self.extensions[i]));
            i = i + 1;
        }
        out
    }

    /// Check the required fields: `None` when every one is filled,
    /// otherwise the message naming the first empty one. Callers abort
    /// on `Some` in debug builds.
    pub fn debug_assert_required_fields(&self) -> (r: Option<&'static str>)
        ensures
            r is None <==> missing_field_message(*self) is None,
            r matches Some(m) ==> missing_field_message(*self) == Some(m@),
    {
        if self.tool_name.is_empty() {
            Some("AdapterMeta.tool_name must not be empty")
        } else if self.language.is_empty() {
            Some("AdapterMeta.language must not be empty")
        } else if self.tool_version.is_empty() {
            Some("AdapterMeta.tool_version must not be empty")
        } else if self.long_version.is_empty() {
            Some("AdapterMeta.long_version must not be empty")
        } else if self.about.is_empty() {
            Some("AdapterMeta.about must not be empty")
        } else if self.long_about.is_empty() {
            Some("AdapterMeta.long_about must not be empty")
        } else if self.tool_info_uri.is_empty() {
            Some("AdapterMeta.tool_info_uri must not be empty")
        } else if self.rule_help_uri.is_empty() {
            Some("AdapterMeta.rule_help_uri must not be empty")
        } else if self.config_file_name.is_empty() {
            Some("AdapterMeta.config_file_name must not be empty")
        } else if self.parse_hint.is_empty() {
            Some("AdapterMeta.parse_hint must not be empty")
        } else {
            None
        }
    }
}

} // verus!
