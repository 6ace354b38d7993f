//! `init` subcommand logic: the starter-config template, the source
//! layout choice and the texts reported after a write. Reading the
//! filesystem and writing the file stay with the caller.

use vstd::prelude::*;

use crate::adapter_meta::AdapterMeta;
use crate::cli::error::InitError;
use crate::domain::config::DetectorConfig;
use crate::domain::smell::SmellCategory;
use crate::detectors::{large_example, no_op_io, surface_only_io, tautological_assertion, zero_assertion};
use crate::text::{decimal, owned, push_decimal, push_str};

verus! {

/// The `src` value written into the template, and whether it came from
/// the fallback (neither `src/` nor `crates/` exists).
#[derive(Debug, Clone, PartialEq, Eq)]
pub struct SrcDetection {
    /// Path string written as `src = "..."`.
    pub src_path: String,
    /// `true` when no candidate directory exists; the template then
    /// carries a hint comment.
    pub is_fallback: bool,
}

/// Choose the source layout: `src/` wins, `crates/` second, otherwise
/// fall back to `"src"` flagged as a fallback.
pub fn src_layout_from(src_is_dir: bool, crates_is_dir: bool) -> (r: SrcDetection)
    ensures
        src_is_dir ==> r.src_path@ == "src"@ && !r.is_fallback,
        !src_is_dir && crates_is_dir ==> r.src_path@ == "crates"@ && !r.is_fallback,
        !src_is_dir && !crates_is_dir ==> r.src_path@ == "src"@ && r.is_fallback,
{
    if src_is_dir {
        SrcDetection { src_path: owned("src"), is_fallback: false }
    } else if crates_is_dir {
        SrcDetection { src_path: owned("crates"), is_fallback: false }
    } else {
        SrcDetection { src_path: owned("src"), is_fallback: true }
    }
}

/// One commented exclude line per pattern.
pub open spec fn exclude_lines(patterns: Seq<&str>) -> Seq<char>
    decreases patterns.len(),
{
    if patterns.len() == 0 {
        Seq::empty()
    } else {
        exclude_lines(patterns.drop_last()) + "#     \""@ + patterns.last()@ + "\",\n"@
    }
}

/// The extensions as a comma-separated list of quoted strings.
pub open spec fn quoted_list(items: Seq<&str>) -> Seq<char>
    decreases items.len(),
{
    if items.len() == 0 {
        Seq::empty()
    } else {
        quoted_list(items.drop_last()) + (if items.len() > 1 {
            ", "@
        } else {
            Seq::empty()
        }) + "\""@ + items.last()@ + "\""@
    }
}

/// The commented block of one detector table.
pub open spec fn detector_block(name: Seq<char>, penalty: u32, line_threshold: Option<u32>) -> Seq<
    char,
> {
    "# [detectors."@ + name + "]\n"@ + "# enabled = true\n"@ + "# penalty = "@ + decimal(
        penalty as nat,
    ) + "\n"@ + match line_threshold {
        Some(t) => "# line_threshold = "@ + decimal(t as nat) + "  # only valid on "@ + name
            + "\n"@,
        None => Seq::empty(),
    }
}

/// The commented tables of every detector with its default values.
pub open spec fn detector_blocks() -> Seq<char> {
    detector_block("zero_assertion"@, zero_assertion::DEFAULT_PENALTY, None) + "#\n"@
        + detector_block("tautological_assertion"@, tautological_assertion::PENALTY, None)
        + "#\n"@ + detector_block("no_op_io"@, no_op_io::DEFAULT_PENALTY, None) + "#\n"@
        + detector_block("surface_only_io"@, surface_only_io::DEFAULT_PENALTY, None) + "#\n"@
        + detector_block(
        "large_example"@,
        large_example::DEFAULT_PENALTY,
        Some(large_example::DEFAULT_LINE_THRESHOLD),
    )
}

/// The header, source root and threshold-mode part of the template.
pub open spec fn config_head(meta: AdapterMeta, detection: SrcDetection) -> Seq<char> {
    "# "@ + meta.config_file_name@ + " — generated by `"@ + meta.tool_name@ + " init`\n"@
        + "# Edit freely; the analyzer re-reads this file on every run.\n\n"@
        + "# Source root the analyzer walks.\n"@ + (if detection.is_fallback {
        "# (auto-detect found no `src/` or `crates/` directory — adjust if your sources live elsewhere)\n"@
    } else {
        Seq::empty()
    }) + "src = \""@ + detection.src_path@ + "\"\n\n"@
        + "# Threshold mode for the pass/fail outcome. Currently a CLI-only flag\n"@
        + "# (`--threshold-mode strict|default|lenient`); the config-file mirror\n"@
        + "# lands in a follow-up PR. Uncomment to set when the field arrives.\n"@
        + "# threshold_mode = \"default\"\n\n"@
}

/// The exclude, extensions and opt-out part of the template.
pub open spec fn config_middle(meta: AdapterMeta) -> Seq<char> {
    "# Glob patterns matched against project-relative file paths.\n"@
        + "# Uncomment to ignore these directories:\n"@ + "# exclude = [\n"@ + exclude_lines(
        meta.default_excludes@,
    ) + "# ]\n\n"@ + "# File extensions the walker keeps (no leading dot). Defaults to the\n"@
        + "# adapter's own list; an empty array means \"every file the walker visits\".\n"@
        + "# extensions = ["@ + quoted_list(meta.extensions@) + "]\n\n"@
        + "# Which per-test `#[allow(scrap::*)]` suppressions the project honors.\n"@
        + "# Omit the table to honor all; `honor = []` is the strictest policy\n"@
        + "# (every opt-out ignored, smells always fire).\n"@ + "# [opt_outs]\n"@
        + "# honor = [\"no_asserts\", \"tautology\", \"no_op\"]\n\n"@
}

/// The detector and override part of the template.
pub open spec fn config_tail() -> Seq<char> {
    "# Per-detector tunables. Every detector is enabled by default; the\n"@
        + "# values shown ARE the defaults, so uncommenting without editing\n"@
        + "# changes nothing. `penalty = 0` is rejected (silently-neutering);\n"@
        + "# disable a detector with `enabled = false` instead.\n"@ + detector_blocks() + "\n"@
        + "# Glob-matched overrides — tune or disable detectors for matching\n"@
        + "# paths. Among multiple matching blocks the LAST one in document\n"@
        + "# order wins per detector key.\n"@ + "# [[overrides]]\n"@
        + "# match = [\"tests/fixtures/**\"]\n"@ + "# [overrides.detectors.large_example]\n"@
        + "# line_threshold = 60\n"@
}

/// The whole starter configuration. Every setting but `src` is
/// commented out, so the file behaves exactly as the defaults.
pub open spec fn config_text(meta: AdapterMeta, detection: SrcDetection) -> Seq<char> {
    config_head(meta, detection) + config_middle(meta) + config_tail()
}

/// Append the commented table of one detector.
fn push_detector_block(out: &mut String, name: &str, penalty: u32, line_threshold: Option<u32>)
    ensures
        final(out)@ == old(out)@ + detector_block(name@, penalty, line_threshold),
{
    push_str(out, "# [detectors.");
    push_str(out, name);
    push_str(out, "]\n");
    push_str(out, "# enabled = true\n");
    push_str(out, "# penalty = ");
    push_decimal(out, penalty as u128);
    push_str(out, "\n");
    if let Some(t) = line_threshold {
        push_str(out, "# line_threshold = ");
        push_decimal(out, t as u128);
        push_str(out, "  # only valid on ");
        push_str(out, name);
        push_str(out, "\n");
    }
    assert(final(out)@ =~= old(out)@ + detector_block(name@, penalty, line_threshold));
}

/// Append the header, source root and threshold-mode part.
fn push_config_head(out: &mut String, meta: &AdapterMeta, detection: &SrcDetection)
    ensures
        final(out)@ == old(out)@ + config_head(*meta, *detection),
{
    let ghost start = out@;
    push_str(out, "# ");
    push_str(out, meta.config_file_name);
    push_str(out, " — generated by `");
    push_str(out, meta.tool_name);
    push_str(out, " init`\n");
    push_str(out, "# Edit freely; the analyzer re-reads this file on every run.\n\n");
    push_str(out, "# Source root the analyzer walks.\n");
    if detection.is_fallback {
        push_str(
            out,
            "# (auto-detect found no `src/` or `crates/` directory — adjust if your sources live elsewhere)\n",
        );
    }
    push_str(out, "src = \"");
    push_str(out, detection.src_path.as_str());
    push_str(out, "\"\n\n");
    push_str(out, "# Threshold mode for the pass/fail outcome. Currently a CLI-only flag\n");
    push_str(out, "# (`--threshold-mode strict|default|lenient`); the config-file mirror\n");
    push_str(out, "# lands in a follow-up PR. Uncomment to set when the field arrives.\n");
    push_str(out, "# threshold_mode = \"default\"\n\n");
    assert(out@ =~= start + config_head(*meta, *detection));
}

/// Append one commented line per exclude pattern.
fn push_exclude_lines(out: &mut String, patterns: &[&str])
    ensures
        final(out)@ == old(out)@ + exclude_lines(patterns@),
{
    let ghost start = out@;
    let mut i: usize = 0;
    assert(patterns@.take(0) =~= Seq::<&str>::empty());
    while i < patterns.len()
        invariant
            i <= patterns@.len(),
            out@ == start + exclude_lines(patterns@.take(i as int)),
        decreases patterns@.len() - i,
    {
        push_str(out, "#     \"");
        push_str(out, patterns[i]);
        push_str(out, "\",\n");
        assert(patterns@.take(i + 1).drop_last() =~= patterns@.take(i as int));
        i = i + 1;
        assert(out@ =~= start + exclude_lines(patterns@.take(i as int)));
    }
    assert(patterns@.take(patterns@.len() as int) =~= patterns@);
}

/// Append the quoted, comma-separated items.
fn push_quoted_list(out: &mut String, items: &[&str])
    ensures
        final(out)@ == old(out)@ + quoted_list(items@),
{
    let ghost start = out@;
    let mut k: usize = 0;
    assert(items@.take(0) =~= Seq::<&str>::empty());
    while k < items.len()
        invariant
            k <= items@.len(),
            out@ == start + quoted_list(items@.take(k as int)),
        decreases items@.len() - k,
    {
        if k > 0 {
            push_str(out, ", ");
        }
        push_str(out, "\"");
        push_str(out, items[k]);
        push_str(out, "\"");
        assert(items@.take(k + 1).drop_last() =~= items@.take(k as int));
        k = k + 1;
        assert(out@ =~= start + quoted_list(items@.take(k as int)));
    }
    assert(items@.take(items@.len() as int) =~= items@);
}

/// Append the exclude, extensions and opt-out part.
fn push_config_middle(out: &mut String, meta: &AdapterMeta)
    ensures
        final(out)@ == old(out)@ + config_middle(*meta),
{
    let ghost start = out@;
    push_str(out, "# Glob patterns matched against project-relative file paths.\n");
    push_str(out, "# Uncomment to ignore these directories:\n");
    push_str(out, "# exclude = [\n");
    push_exclude_lines(out, meta.default_excludes);
    push_str(out, "# ]\n\n");
    push_str(out, "# File extensions the walker keeps (no leading dot). Defaults to the\n");
    push_str(
        out,
        "# adapter's own list; an empty array means \"every file the walker visits\".\n",
    );
    push_str(out, "# extensions = [");
    push_quoted_list(out, meta.extensions);
    push_str(out, "]\n\n");
    push_str(out, "# Which per-test `#[allow(scrap::*)]` suppressions the project honors.\n");
    push_str(out, "# Omit the table to honor all; `honor = []` is the strictest policy\n");
    push_str(out, "# (every opt-out ignored, smells always fire).\n");
    push_str(out, "# [opt_outs]\n");
    push_str(out, "# honor = [\"no_asserts\", \"tautology\", \"no_op\"]\n\n");
    assert(out@ =~= start + config_middle(*meta));
}

/// Append the commented tables of every detector.
fn push_detector_blocks(out: &mut String)
    ensures
        final(out)@ == old(out)@ + detector_blocks(),
{
    let ghost start = out@;
    push_detector_block(out, "zero_assertion", zero_assertion::DEFAULT_PENALTY, None);
    push_str(out, "#\n");
    push_detector_block(out, "tautological_assertion", tautological_assertion::PENALTY, None);
    push_str(out, "#\n");
    push_detector_block(out, "no_op_io", no_op_io::DEFAULT_PENALTY, None);
    push_str(out, "#\n");
    push_detector_block(out, "surface_only_io", surface_only_io::DEFAULT_PENALTY, None);
    push_str(out, "#\n");
    push_detector_block(
        out,
        "large_example",
        large_example::DEFAULT_PENALTY,
        Some(large_example::DEFAULT_LINE_THRESHOLD),
    );
    assert(out@ =~= start + detector_blocks());
}

/// Append the detector and override part.
fn push_config_tail(out: &mut String)
    ensures
        final(out)@ == old(out)@ + config_tail(),
{
    let ghost start = out@;
    push_str(out, "# Per-detector tunables. Every detector is enabled by default; the\n");
    push_str(out, "# values shown ARE the defaults, so uncommenting without editing\n");
    push_str(out, "# changes nothing. `penalty = 0` is rejected (silently-neutering);\n");
    push_str(out, "# disable a detector with `enabled = false` instead.\n");
    push_detector_blocks(out);
    push_str(out, "\n");
    push_str(out, "# Glob-matched overrides — tune or disable detectors for matching\n");
    push_str(out, "# paths. Among multiple matching blocks the LAST one in document\n");
    push_str(out, "# order wins per detector key.\n");
    push_str(out, "# [[overrides]]\n");
    push_str(out, "# match = [\"tests/fixtures/**\"]\n");
    push_str(out, "# [overrides.detectors.large_example]\n");
    push_str(out, "# line_threshold = 60\n");
    assert(out@ =~= start + config_tail());
}

/// Render the starter config file for `meta` with the detected source
/// root.
pub fn render_config(meta: &AdapterMeta, detection: &SrcDetection) -> (r: String)
    ensures
        r@ == config_text(*meta, *detection),
{
    let mut out = String::new();
    push_config_head(&mut out, meta, detection);
    push_config_middle(&mut out, meta);
    push_config_tail(&mut out);
    assert(out@ =~= config_text(*meta, *detection));
    out
}

/// Refuse to overwrite an existing config without `--force`.
pub fn check_init_target(present: bool, force: bool, path: &str) -> (r: Result<(), InitError>)
    ensures
        r is Ok <==> (!present || force),
        r matches Err(e) ==> (e matches InitError::Exists { path: p } && p@ == path@),
{
    if present && !force {
        return Err(InitError::Exists { path: owned(path) });
    }
    Ok(())
}

/// The two lines reported after a successful write: what was written,
/// and the next command to run.
pub open spec fn init_report_text(meta: AdapterMeta, detection: SrcDetection) -> Seq<char> {
    "wrote "@ + meta.config_file_name@ + " (src = \""@ + detection.src_path@ + "\")\n"@
        + "  next: run `"@ + meta.tool_name@ + " --src "@ + detection.src_path@
        + " --format json` to analyze, or edit the generated TOML to tune detectors.\n"@
}

/// Renders [`init_report_text`].
pub fn init_report(meta: &AdapterMeta, detection: &SrcDetection) -> (r: String)
    ensures
        r@ == init_report_text(*meta, *detection),
{
    let mut s = owned("wrote ");
    push_str(&mut s, meta.config_file_name);
    push_str(&mut s, " (src = \"");
    push_str(&mut s, detection.src_path.as_str());
    push_str(&mut s, "\")\n");
    push_str(&mut s, "  next: run `");
    push_str(&mut s, meta.tool_name);
    push_str(&mut s, " --src ");
    push_str(&mut s, detection.src_path.as_str());
    push_str(
        &mut s,
        " --format json` to analyze, or edit the generated TOML to tune detectors.\n",
    );
    assert(s@ =~= init_report_text(*meta, *detection));
    s
}

/// `t` occurs in `s` at some position.
pub open spec fn occurs_in(t: Seq<char>, s: Seq<char>) -> bool {
    exists|i: int| 0 <= i && i + t.len() <= s.len() && #[trigger] s.subrange(i, i + t.len()) == t
}

/// What occurs in `m` occurs in `a + m + b`.
pub proof fn lemma_occurs_in_extend(t: Seq<char>, a: Seq<char>, m: Seq<char>, b: Seq<char>)
    requires
        occurs_in(t, m),
    ensures
        occurs_in(t, a + m + b),
{
    let i = choose|i: int| 0 <= i && i + t.len() <= m.len() && #[trigger] m.subrange(i, i + t.len()) == t;
    let s = a + m + b;
    assert(s.subrange(a.len() + i, a.len() + i + t.len()) =~= m.subrange(i, i + t.len()));
}

/// Every default exclude has its commented line among the exclude lines.
pub proof fn lemma_exclude_lines_hold(patterns: Seq<&str>, k: int)
    requires
        0 <= k < patterns.len(),
    ensures
        occurs_in("#     \""@ + patterns[k]@ + "\",\n"@, exclude_lines(patterns)),
    decreases patterns.len(),
{
    let line = "#     \""@ + patterns[k]@ + "\",\n"@;
    let init = exclude_lines(patterns.drop_last());
    if k < patterns.len() - 1 {
        lemma_exclude_lines_hold(patterns.drop_last(), k);
        assert(patterns.drop_last()[k] == patterns[k]);
        lemma_occurs_in_extend(line, Seq::empty(), init, "#     \""@ + patterns.last()@ + "\",\n"@);
        assert(Seq::<char>::empty() + init + ("#     \""@ + patterns.last()@ + "\",\n"@) =~= exclude_lines(patterns));
    } else {
        let s = exclude_lines(patterns);
        assert(s =~= init + line);
        assert(s.subrange(init.len() as int, (init.len() + line.len()) as int) =~= line);
    }
}

/// A `src = "…"` line that follows a newline stands on a line of its own.
proof fn lemma_line_after_newline(before: Seq<char>, src: Seq<char>, after: Seq<char>)
    requires
        before.len() > 0,
        before[before.len() - 1] == '\n',
    ensures
        occurs_in("\nsrc = \""@ + src + "\"\n"@, before + ("src = \""@ + src + "\"\n\n"@) + after),
{
    reveal_strlit("\"\n\n");
    reveal_strlit("\"\n");
    reveal_strlit("\n");
    let p = "src = \""@ + src;
    let line = "\nsrc = \""@ + src + "\"\n"@;
    reveal_strlit("\nsrc = \"");
    reveal_strlit("src = \"");
    assert("\nsrc = \""@ =~= seq!['\n'] + "src = \""@);
    assert(line =~= seq!['\n'] + p + seq!['"', '\n']);
    assert("src = \""@ + src + "\"\n\n"@ =~= p + seq!['"', '\n', '\n']);
    let x = before.drop_last();
    let y = seq!['\n'] + after;
    assert(before + (p + seq!['"', '\n', '\n']) + after =~= x + line + y);
    assert((x + line + y).subrange(x.len() as int, (x.len() + line.len()) as int) =~= line);
}

/// The `src` setting of the starter configuration stands on a line of
/// its own.
proof fn lemma_config_src_line(meta: AdapterMeta, detection: SrcDetection)
    ensures
        occurs_in("\nsrc = \""@ + detection.src_path@ + "\"\n"@, config_text(meta, detection)),
{
    let text = config_text(meta, detection);
    reveal_strlit("\n");
    reveal_strlit("# Source root the analyzer walks.\n");
    reveal_strlit("# (auto-detect found no `src/` or `crates/` directory — adjust if your sources live elsewhere)\n");
    let before = "# "@ + meta.config_file_name@ + " — generated by `"@ + meta.tool_name@ + " init`\n"@
        + "# Edit freely; the analyzer re-reads this file on every run.\n\n"@
        + "# Source root the analyzer walks.\n"@ + (if detection.is_fallback {
        "# (auto-detect found no `src/` or `crates/` directory — adjust if your sources live elsewhere)\n"@
    } else {
        Seq::empty()
    });
    let set_src = "src = \""@ + detection.src_path@ + "\"\n\n"@;
    let after = "# Threshold mode for the pass/fail outcome. Currently a CLI-only flag\n"@
        + "# (`--threshold-mode strict|default|lenient`); the config-file mirror\n"@
        + "# lands in a follow-up PR. Uncomment to set when the field arrives.\n"@
        + "# threshold_mode = \"default\"\n\n"@ + config_middle(meta) + config_tail();
    assert(text =~= before + set_src + after);
    assert(before[before.len() - 1] == '\n');
    lemma_line_after_newline(before, detection.src_path@, after);
}

/// Law: the starter configuration opens with its header naming the file
/// and the tool, sets `src` to the detected root on a line of its own, and
/// lists every default exclude as a commented entry.
pub proof fn lemma_config_text_shape(meta: AdapterMeta, detection: SrcDetection)
    ensures
        ("# "@ + meta.config_file_name@ + " — generated by `"@ + meta.tool_name@ + " init`\n"@).is_prefix_of(
            config_text(meta, detection),
        ),
        occurs_in("\nsrc = \""@ + detection.src_path@ + "\"\n"@, config_text(meta, detection)),
        forall|k: int|
            0 <= k < meta.default_excludes@.len() ==> occurs_in(
                "#     \""@ + (#[trigger] meta.default_excludes@[k])@ + "\",\n"@,
                config_text(meta, detection),
            ),
{
    let text = config_text(meta, detection);
    let header = "# "@ + meta.config_file_name@ + " — generated by `"@ + meta.tool_name@ + " init`\n"@;
    assert(text.subrange(0, header.len() as int) =~= header);
    lemma_config_src_line(meta, detection);
    let mid = config_middle(meta);
    let pre = "# Glob patterns matched against project-relative file paths.\n"@
        + "# Uncomment to ignore these directories:\n"@ + "# exclude = [\n"@;
    let post = "# ]\n\n"@ + "# File extensions the walker keeps (no leading dot). Defaults to the\n"@
        + "# adapter's own list; an empty array means \"every file the walker visits\".\n"@
        + "# extensions = ["@ + quoted_list(meta.extensions@) + "]\n\n"@
        + "# Which per-test `#[allow(scrap::*)]` suppressions the project honors.\n"@
        + "# Omit the table to honor all; `honor = []` is the strictest policy\n"@
        + "# (every opt-out ignored, smells always fire).\n"@ + "# [opt_outs]\n"@
        + "# honor = [\"no_asserts\", \"tautology\", \"no_op\"]\n\n"@;
    assert forall|k: int| 0 <= k < meta.default_excludes@.len() implies occurs_in(
        "#     \""@ + (#[trigger] meta.default_excludes@[k])@ + "\",\n"@,
        text,
    ) by {
        let line = "#     \""@ + meta.default_excludes@[k]@ + "\",\n"@;
        lemma_exclude_lines_hold(meta.default_excludes@, k);
        let el = exclude_lines(meta.default_excludes@);
        lemma_occurs_in_extend(line, config_head(meta, detection) + pre, el, post + config_tail());
        assert(config_head(meta, detection) + pre + el + (post + config_tail()) =~= text);
    }
}

/// The penalty that the detector of `category` uses when the
/// configuration leaves the penalty unset.
pub open spec fn detector_default_penalty(category: SmellCategory) -> u32 {
    match category {
        SmellCategory::ZeroAssertion => zero_assertion::penalty(DetectorConfig::unset()),
        SmellCategory::TautologicalAssertion => tautological_assertion::penalty(DetectorConfig::unset()),
        SmellCategory::NoOpIo => no_op_io::penalty(DetectorConfig::unset()),
        SmellCategory::SurfaceOnlyIo => surface_only_io::penalty(DetectorConfig::unset()),
        SmellCategory::LargeExample => large_example::penalty(DetectorConfig::unset()),
    }
}

/// The commented lines that name the table of detector `name`, enable it
/// and show `penalty`.
pub open spec fn shown_settings(name: Seq<char>, penalty: u32) -> Seq<char> {
    "# [detectors."@ + name + "]\n"@ + "# enabled = true\n"@ + "# penalty = "@ + decimal(penalty as nat) + "\n"@
}

/// What begins a text occurs in it.
proof fn lemma_occurs_at_start(t: Seq<char>, rest: Seq<char>)
    ensures
        occurs_in(t, t + rest),
{
    let s = t + rest;
    let i: int = 0;
    assert(s.subrange(i, i + t.len()) =~= t);
}

/// The shown settings of every detector occur among the detector blocks.
proof fn lemma_blocks_show_settings(category: SmellCategory)
    ensures
        occurs_in(shown_settings(category.wire(), detector_default_penalty(category)), detector_blocks()),
{
    let b1 = detector_block("zero_assertion"@, zero_assertion::DEFAULT_PENALTY, None);
    let b2 = detector_block("tautological_assertion"@, tautological_assertion::PENALTY, None);
    let b3 = detector_block("no_op_io"@, no_op_io::DEFAULT_PENALTY, None);
    let b4 = detector_block("surface_only_io"@, surface_only_io::DEFAULT_PENALTY, None);
    let b5 = detector_block(
        "large_example"@,
        large_example::DEFAULT_PENALTY,
        Some(large_example::DEFAULT_LINE_THRESHOLD),
    );
    let sep = "#\n"@;
    let all = detector_blocks();
    assert(all == b1 + sep + b2 + sep + b3 + sep + b4 + sep + b5);
    let t = shown_settings(category.wire(), detector_default_penalty(category));
    match category {
        SmellCategory::ZeroAssertion => {
            assert(b1 =~= t);
            lemma_occurs_at_start(t, Seq::empty());
            lemma_occurs_in_extend(t, Seq::empty(), t + Seq::empty(), sep + b2 + sep + b3 + sep + b4 + sep + b5);
            assert(Seq::<char>::empty() + (t + Seq::empty()) + (sep + b2 + sep + b3 + sep + b4 + sep + b5) =~= all);
        },
        SmellCategory::TautologicalAssertion => {
            assert(b2 =~= t);
            lemma_occurs_at_start(t, Seq::empty());
            lemma_occurs_in_extend(t, b1 + sep, t + Seq::empty(), sep + b3 + sep + b4 + sep + b5);
            assert(b1 + sep + (t + Seq::empty()) + (sep + b3 + sep + b4 + sep + b5) =~= all);
        },
        SmellCategory::NoOpIo => {
            assert(b3 =~= t);
            lemma_occurs_at_start(t, Seq::empty());
            lemma_occurs_in_extend(t, b1 + sep + b2 + sep, t + Seq::empty(), sep + b4 + sep + b5);
            assert(b1 + sep + b2 + sep + (t + Seq::empty()) + (sep + b4 + sep + b5) =~= all);
        },
        SmellCategory::SurfaceOnlyIo => {
            assert(b4 =~= t);
            lemma_occurs_at_start(t, Seq::empty());
            lemma_occurs_in_extend(t, b1 + sep + b2 + sep + b3 + sep, t + Seq::empty(), sep + b5);
            assert(b1 + sep + b2 + sep + b3 + sep + (t + Seq::empty()) + (sep + b5) =~= all);
        },
        SmellCategory::LargeExample => {
            let th = "# line_threshold = "@ + decimal(large_example::DEFAULT_LINE_THRESHOLD as nat)
                + "  # only valid on "@ + "large_example"@ + "\n"@;
            assert(b5 =~= t + th);
            lemma_occurs_at_start(t, th);
            lemma_occurs_in_extend(t, b1 + sep + b2 + sep + b3 + sep + b4 + sep, t + th, Seq::empty());
            assert(b1 + sep + b2 + sep + b3 + sep + b4 + sep + (t + th) + Seq::<char>::empty() =~= all);
        },
    }
}

/// The text before the detector blocks.
pub open spec fn before_blocks(meta: AdapterMeta, detection: SrcDetection) -> Seq<char> {
    config_head(meta, detection) + config_middle(meta) + "# Per-detector tunables. Every detector is enabled by default; the\n"@
        + "# values shown ARE the defaults, so uncommenting without editing\n"@
        + "# changes nothing. `penalty = 0` is rejected (silently-neutering);\n"@
        + "# disable a detector with `enabled = false` instead.\n"@
}

/// The text after the detector blocks.
pub open spec fn after_blocks() -> Seq<char> {
    "\n"@ + "# Glob-matched overrides — tune or disable detectors for matching\n"@
        + "# paths. Among multiple matching blocks the LAST one in document\n"@
        + "# order wins per detector key.\n"@ + "# [[overrides]]\n"@
        + "# match = [\"tests/fixtures/**\"]\n"@ + "# [overrides.detectors.large_example]\n"@
        + "# line_threshold = 60\n"@
}

/// The starter configuration around its detector blocks.
proof fn lemma_config_around_blocks(meta: AdapterMeta, detection: SrcDetection)
    ensures
        config_text(meta, detection) == before_blocks(meta, detection) + detector_blocks() + after_blocks(),
{
    assert(config_text(meta, detection) =~= before_blocks(meta, detection) + detector_blocks() + after_blocks());
}

/// The large-example block shows the default line threshold.
proof fn lemma_blocks_show_threshold()
    ensures
        occurs_in(
            "# line_threshold = "@ + decimal(large_example::threshold(DetectorConfig::unset()) as nat),
            detector_blocks(),
        ),
{
    let th = "# line_threshold = "@ + decimal(large_example::DEFAULT_LINE_THRESHOLD as nat);
    let b1 = detector_block("zero_assertion"@, zero_assertion::DEFAULT_PENALTY, None);
    let b2 = detector_block("tautological_assertion"@, tautological_assertion::PENALTY, None);
    let b3 = detector_block("no_op_io"@, no_op_io::DEFAULT_PENALTY, None);
    let b4 = detector_block("surface_only_io"@, surface_only_io::DEFAULT_PENALTY, None);
    let sep = "#\n"@;
    let head5 = shown_settings("large_example"@, large_example::DEFAULT_PENALTY);
    let tail5 = "  # only valid on "@ + "large_example"@ + "\n"@;
    lemma_occurs_at_start(th, tail5);
    let a = b1 + sep + b2 + sep + b3 + sep + b4 + sep + head5;
    lemma_occurs_in_extend(th, a, th + tail5, Seq::empty());
    assert(a + (th + tail5) + Seq::<char>::empty() =~= detector_blocks());
}

/// Law: the starter configuration shows, for every detector, the
/// penalty that detector uses when nothing is configured, under the
/// table named by the detector's own category, so uncommenting a block
/// changes nothing; the large-example block shows its default line
/// threshold the same way.
pub proof fn law_config_shows_detector_defaults(meta: AdapterMeta, detection: SrcDetection)
    ensures
        forall|category: SmellCategory|
            occurs_in(
                #[trigger] shown_settings(category.wire(), detector_default_penalty(category)),
                config_text(meta, detection),
            ),
        occurs_in(
            "# line_threshold = "@ + decimal(large_example::threshold(DetectorConfig::unset()) as nat),
            config_text(meta, detection),
        ),
{
    lemma_config_around_blocks(meta, detection);
    let before = before_blocks(meta, detection);
    let trail = after_blocks();
    assert forall|category: SmellCategory|
        occurs_in(
            #[trigger] shown_settings(category.wire(), detector_default_penalty(category)),
            config_text(meta, detection),
        ) by {
        lemma_blocks_show_settings(category);
        lemma_occurs_in_extend(
            shown_settings(category.wire(), detector_default_penalty(category)),
            before,
            detector_blocks(),
            trail,
        );
    }
    lemma_blocks_show_threshold();
    lemma_occurs_in_extend(
        "# line_threshold = "@ + decimal(large_example::threshold(DetectorConfig::unset()) as nat),
        before,
        detector_blocks(),
        trail,
    );
}

} // verus!
