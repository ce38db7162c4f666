//! The deterministic parser of declarative `SKILL.md` packages: a closed
//! JSON frontmatter between `---` lines, then Markdown instructions, with
//! artifacts supplied as data. It never reads files, resolves links or runs
//! anything; every limit is checked before content is handed back.
use crate::text::{contains_char, contains_control, has_char, has_control, trim_start_spaces, chars_of, is_control_char, is_space, is_space_char, trim_text, trimmed, text_len, utf8_len, same_text};
use crate::words::{append_lower, ascii_lower_char, lower_text};
use vstd::prelude::*;
use vstd::string::StrSliceExecFns;
use vstd::string::StringExecFns;

verus! {

pub const SKILL_PARSER_SCHEMA_VERSION: u32 = 1;

pub const DEFAULT_MAX_DOCUMENT_BYTES: usize = 262_144;

pub const DEFAULT_MAX_FRONTMATTER_BYTES: usize = 65_536;

pub const DEFAULT_MAX_SECTION_BYTES: usize = 65_536;

pub const DEFAULT_MAX_ARTIFACT_BYTES: usize = 524_288;

pub const DEFAULT_MAX_SCRIPT_BYTES: usize = 131_072;

pub const DEFAULT_MAX_TEMPLATE_BYTES: usize = 131_072;

pub const DEFAULT_MAX_REFERENCE_BYTES: usize = 262_144;

pub const DEFAULT_MAX_TEST_BYTES: usize = 262_144;

pub const DEFAULT_MAX_SECTIONS: usize = 64;

pub const DEFAULT_MAX_LINKS: usize = 128;

pub const DEFAULT_MAX_JSON_DEPTH: usize = 16;

pub const DEFAULT_MAX_HEADING_DEPTH: u8 = 6;

pub const DEFAULT_MAX_DIAGNOSTICS: usize = 64;

/// Limits applied before any untrusted content is returned to a caller.
#[derive(Debug, Clone, Copy, PartialEq, Eq, Structural)]
pub struct SkillParserLimits {
    pub max_document_bytes: usize,
    pub max_frontmatter_bytes: usize,
    pub max_section_bytes: usize,
    pub max_artifact_bytes: usize,
    pub max_script_bytes: usize,
    pub max_template_bytes: usize,
    pub max_reference_bytes: usize,
    pub max_test_bytes: usize,
    pub max_sections: usize,
    pub max_links: usize,
    pub max_json_depth: usize,
    pub max_heading_depth: u8,
    pub max_diagnostics: usize,
}

impl SkillParserLimits {
    /// The default limits.
    pub fn defaults() -> (r: Self)
        ensures
            r.max_document_bytes == DEFAULT_MAX_DOCUMENT_BYTES,
            r.max_frontmatter_bytes == DEFAULT_MAX_FRONTMATTER_BYTES,
            r.max_section_bytes == DEFAULT_MAX_SECTION_BYTES,
            r.max_artifact_bytes == DEFAULT_MAX_ARTIFACT_BYTES,
            r.max_script_bytes == DEFAULT_MAX_SCRIPT_BYTES,
            r.max_template_bytes == DEFAULT_MAX_TEMPLATE_BYTES,
            r.max_reference_bytes == DEFAULT_MAX_REFERENCE_BYTES,
            r.max_test_bytes == DEFAULT_MAX_TEST_BYTES,
            r.max_sections == DEFAULT_MAX_SECTIONS,
            r.max_links == DEFAULT_MAX_LINKS,
            r.max_json_depth == DEFAULT_MAX_JSON_DEPTH,
            r.max_heading_depth == DEFAULT_MAX_HEADING_DEPTH,
            r.max_diagnostics == DEFAULT_MAX_DIAGNOSTICS,
    {
        SkillParserLimits {
            max_document_bytes: DEFAULT_MAX_DOCUMENT_BYTES,
            max_frontmatter_bytes: DEFAULT_MAX_FRONTMATTER_BYTES,
            max_section_bytes: DEFAULT_MAX_SECTION_BYTES,
            max_artifact_bytes: DEFAULT_MAX_ARTIFACT_BYTES,
            max_script_bytes: DEFAULT_MAX_SCRIPT_BYTES,
            max_template_bytes: DEFAULT_MAX_TEMPLATE_BYTES,
            max_reference_bytes: DEFAULT_MAX_REFERENCE_BYTES,
            max_test_bytes: DEFAULT_MAX_TEST_BYTES,
            max_sections: DEFAULT_MAX_SECTIONS,
            max_links: DEFAULT_MAX_LINKS,
            max_json_depth: DEFAULT_MAX_JSON_DEPTH,
            max_heading_depth: DEFAULT_MAX_HEADING_DEPTH,
            max_diagnostics: DEFAULT_MAX_DIAGNOSTICS,
        }
    }
}

impl Default for SkillParserLimits {
    fn default() -> (r: Self)
        ensures
            r == SkillParserLimits::defaults_spec(),
    {
        SkillParserLimits::defaults()
    }
}

impl SkillParserLimits {
    pub open spec fn defaults_spec() -> Self {
        SkillParserLimits {
            max_document_bytes: DEFAULT_MAX_DOCUMENT_BYTES,
            max_frontmatter_bytes: DEFAULT_MAX_FRONTMATTER_BYTES,
            max_section_bytes: DEFAULT_MAX_SECTION_BYTES,
            max_artifact_bytes: DEFAULT_MAX_ARTIFACT_BYTES,
            max_script_bytes: DEFAULT_MAX_SCRIPT_BYTES,
            max_template_bytes: DEFAULT_MAX_TEMPLATE_BYTES,
            max_reference_bytes: DEFAULT_MAX_REFERENCE_BYTES,
            max_test_bytes: DEFAULT_MAX_TEST_BYTES,
            max_sections: DEFAULT_MAX_SECTIONS,
            max_links: DEFAULT_MAX_LINKS,
            max_json_depth: DEFAULT_MAX_JSON_DEPTH,
            max_heading_depth: DEFAULT_MAX_HEADING_DEPTH,
            max_diagnostics: DEFAULT_MAX_DIAGNOSTICS,
        }
    }
}

/// Why a skill package was refused.
#[derive(Debug, Clone, PartialEq, Eq)]
pub enum SkillParseError {
    DocumentTooLarge { actual: usize, max: usize },
    MissingFrontmatter,
    MissingFrontmatterTerminator,
    FrontmatterTooLarge { actual: usize, max: usize },
    MalformedFrontmatter { line: usize },
    FrontmatterTooDeep { max: usize },
    EmptyDocument,
    InvalidControlCharacter { field: &'static str },
    TooManySections { max: usize },
    HeadingTooDeep { line: usize, max: u8 },
    InvalidHeading { line: usize },
    DuplicateSection { line: usize },
    SectionTooLarge { line: usize, max: usize },
    TooManyLinks { max: usize },
    InvalidLink { line: usize, reason: &'static str },
    UndeclaredLink { line: usize },
    MissingArtifact { path: String },
    UndeclaredArtifact { path: String },
    DuplicateArtifact { path: String },
    DocumentArtifactConflict,
    ArtifactTooLarge { path: String, max: usize },
    TooManyDiagnostics { max: usize },
}

/// A control character other than a line feed, carriage return or tab.
pub open spec fn forbidden_control(c: char) -> bool {
    is_control_char(c) && c != '\n' && c != '\r' && c != '\t'
}

pub open spec fn has_forbidden_control(s: Seq<char>) -> bool {
    exists|i: int| 0 <= i < s.len() && #[trigger] forbidden_control(s[i])
}

/// Refuses a text holding a control character other than a line feed,
/// carriage return or tab, naming the field.
pub fn reject_control_characters(value: &str, field: &'static str) -> (r: Result<(), SkillParseError>)
    ensures
        has_forbidden_control(value@) ==> r == Err::<(), SkillParseError>(
            SkillParseError::InvalidControlCharacter { field },
        ),
        !has_forbidden_control(value@) ==> r is Ok,
{
    let cs = chars_of(value);
    let mut i: usize = 0;
    while i < cs.len()
        invariant
            cs@ == value@,
            i <= cs@.len(),
            forall|k: int| 0 <= k < i ==> !forbidden_control(#[trigger] cs@[k]),
        decreases cs@.len() - i,
    {
        let c = cs[i];
        let v = c as u32;
        if (v < 0x20 || (0x7f <= v && v <= 0x9f)) && c != '\n' && c != '\r' && c != '\t' {
            assert(forbidden_control(value@[i as int]));
            return Err(SkillParseError::InvalidControlCharacter { field });
        }
        i = i + 1;
    }
    Ok(())
}

/// The index just past the line that starts at `i`: past its line feed, or
/// the end of the text.
pub open spec fn line_end(s: Seq<char>, i: int) -> int
    decreases s.len() - i,
{
    if i >= s.len() {
        s.len() as int
    } else if s[i] == '\n' {
        i + 1
    } else {
        line_end(s, i + 1)
    }
}

pub proof fn lemma_line_end(s: Seq<char>, i: int)
    requires
        0 <= i,
    ensures
        i < s.len() ==> i < line_end(s, i) <= s.len(),
        i >= s.len() ==> line_end(s, i) == s.len(),
        forall|k: int| i <= k < line_end(s, i) - 1 ==> s[k] != '\n',
        i < s.len() && line_end(s, i) < s.len() ==> s[line_end(s, i) - 1] == '\n',
    decreases s.len() - i,
{
    if i < s.len() && s[i] != '\n' {
        lemma_line_end(s, i + 1);
    }
}

/// A line without its trailing carriage returns and line feeds.
pub open spec fn trim_line_end(l: Seq<char>) -> Seq<char>
    decreases l.len(),
{
    if l.len() > 0 && (l.last() == '\r' || l.last() == '\n') {
        trim_line_end(l.drop_last())
    } else {
        l
    }
}

/// A frontmatter delimiter line: `---` and its line end.
pub open spec fn is_delimiter(l: Seq<char>) -> bool {
    trim_line_end(l) == seq!['-', '-', '-']
}

/// The frontmatter found from `off` on, after the opening line that ended
/// at `first_end` and `count` frontmatter lines: the text between the
/// delimiters, where the body starts, and the body's first line number.
pub open spec fn scan_frontmatter(s: Seq<char>, first_end: int, off: int, count: int) -> Result<
    (Seq<char>, int, int),
    SkillParseError,
>
    decreases s.len() - off,
{
    if off < 0 || off >= s.len() {
        Err(SkillParseError::MissingFrontmatterTerminator)
    } else {
        let e = line_end(s, off);
        if is_delimiter(s.subrange(off, e)) {
            Ok((s.subrange(first_end, off), e, count + 3))
        } else {
            proof {
                lemma_line_end(s, off);
            }
            scan_frontmatter(s, first_end, e, count + 1)
        }
    }
}

/// The frontmatter of a document: it must open with a `---` line and hold
/// a later `---` line; between them is the frontmatter, after it the body,
/// whose first line number is three past the frontmatter's line count.
pub open spec fn frontmatter_spec(s: Seq<char>) -> Result<(Seq<char>, int, int), SkillParseError> {
    if s.len() == 0 {
        Err(SkillParseError::MissingFrontmatter)
    } else {
        let e0 = line_end(s, 0);
        if !is_delimiter(s.subrange(0, e0)) {
            Err(SkillParseError::MissingFrontmatter)
        } else {
            scan_frontmatter(s, e0, e0, 0)
        }
    }
}

fn line_end_at(cs: &Vec<char>, i: usize) -> (r: usize)
    requires
        i <= cs@.len(),
    ensures
        r == line_end(cs@, i as int),
{
    let mut j = i;
    while j < cs.len() && cs[j] != '\n'
        invariant
            i <= j <= cs@.len(),
            line_end(cs@, j as int) == line_end(cs@, i as int),
        decreases cs@.len() - j,
    {
        j = j + 1;
    }
    if j < cs.len() {
        j + 1
    } else {
        j
    }
}

fn delimiter_at(cs: &Vec<char>, a: usize, b: usize) -> (r: bool)
    requires
        a <= b <= cs@.len(),
    ensures
        r == is_delimiter(cs@.subrange(a as int, b as int)),
{
    let mut e = b;
    while e > a && (cs[e - 1] == '\r' || cs[e - 1] == '\n')
        invariant
            a <= e <= b,
            b <= cs@.len(),
            trim_line_end(cs@.subrange(a as int, e as int)) == trim_line_end(
                cs@.subrange(a as int, b as int),
            ),
        decreases e - a,
    {
        proof {
            assert(cs@.subrange(a as int, e as int).drop_last() =~= cs@.subrange(a as int, e - 1));
        }
        e = e - 1;
    }
    let ghost t = cs@.subrange(a as int, e as int);
    assert(trim_line_end(t) == t);
    if e - a == 3 && cs[a] == '-' && cs[a + 1] == '-' && cs[a + 2] == '-' {
        assert(t =~= seq!['-', '-', '-']);
        true
    } else {
        assert(t.len() != 3 || t[0] != '-' || t[1] != '-' || t[2] != '-');
        false
    }
}

/// Splits a document into its frontmatter text, the character index where
/// the body starts, and the body's first line number.
pub fn split_frontmatter(document: &str) -> (r: Result<(String, usize, usize), SkillParseError>)
    requires
        document@.len() + 3 <= usize::MAX,
    ensures
        match frontmatter_spec(document@) {
            Ok((f, b, l)) => r matches Ok((fs, bs, ls)) && fs@ == f && bs == b && ls == l,
            Err(e) => r == Err::<(String, usize, usize), SkillParseError>(e),
        },
{
    let cs = chars_of(document);
    if cs.len() == 0 {
        return Err(SkillParseError::MissingFrontmatter);
    }
    let e0 = line_end_at(&cs, 0);
    proof {
        lemma_line_end(cs@, 0);
    }
    if !delimiter_at(&cs, 0, e0) {
        return Err(SkillParseError::MissingFrontmatter);
    }
    let mut off = e0;
    let mut count: usize = 0;
    while off < cs.len()
        invariant
            cs@ == document@,
            document@.len() + 3 <= usize::MAX,
            e0 <= off <= cs@.len(),
            count <= off,
            e0 == line_end(cs@, 0),
            frontmatter_spec(cs@) == scan_frontmatter(cs@, e0 as int, off as int, count as int),
        decreases cs@.len() - off,
    {
        let e = line_end_at(&cs, off);
        proof {
            lemma_line_end(cs@, off as int);
        }
        if delimiter_at(&cs, off, e) {
            let f = document.substring_char(e0, off).to_string();
            return Ok((f, e, count + 3));
        }
        off = e;
        count = count + 1;
    }
    Err(SkillParseError::MissingFrontmatterTerminator)
}

/// Where `n` first occurs in `h` at or after `from`.
pub open spec fn first_occ(h: Seq<char>, n: Seq<char>, from: int) -> Option<int>
    decreases h.len() - from,
{
    if from < 0 || from + n.len() > h.len() {
        None
    } else if n.len() == 0 || h.subrange(from, from + n.len()) == n {
        Some(from)
    } else {
        first_occ(h, n, from + 1)
    }
}

pub open spec fn contains_seq(h: Seq<char>, n: Seq<char>) -> bool {
    first_occ(h, n, 0) is Some
}

pub proof fn lemma_first_occ(h: Seq<char>, n: Seq<char>, from: int)
    requires
        0 <= from,
    ensures
        first_occ(h, n, from) matches Some(k) ==> from <= k && k + n.len() <= h.len()
            && h.subrange(k, k + n.len()) == n,
    decreases h.len() - from,
{
    if from + n.len() <= h.len() && n.len() > 0 && h.subrange(from, from + n.len()) != n {
        lemma_first_occ(h, n, from + 1);
    }
    if n.len() == 0 && from <= h.len() {
        assert(h.subrange(from, from) =~= n);
    }
}

fn occurs_here(h: &Vec<char>, n: &Vec<char>, at: usize) -> (r: bool)
    requires
        at + n@.len() <= h@.len(),
    ensures
        r == (n@.len() == 0 || h@.subrange(at as int, at + n@.len()) == n@),
{
    let mut j: usize = 0;
    while j < n.len()
        invariant
            at + n@.len() <= h@.len(),
            h@.len() == h.len(),
            j <= n@.len(),
            forall|k: int| 0 <= k < j ==> h@[at + k] == n@[k],
        decreases n@.len() - j,
    {
        assert(at + j < h@.len());
        if h[at + j] != n[j] {
            assert(h@.subrange(at as int, at + n@.len())[j as int] != n@[j as int]);
            return false;
        }
        j = j + 1;
    }
    assert(h@.subrange(at as int, at + n@.len()) =~= n@);
    true
}

/// Where `n` first occurs in `h` at or after `from`.
pub fn find_from(h: &Vec<char>, n: &Vec<char>, from: usize) -> (r: Option<usize>)
    ensures
        match first_occ(h@, n@, from as int) {
            Some(k) => r matches Some(j) && j == k,
            None => r is None,
        },
{
    if n.len() > h.len() || from > h.len() - n.len() {
        return None;
    }
    let last = h.len() - n.len();
    let mut at = from;
    loop
        invariant
            from <= at <= last,
            last + n@.len() == h@.len(),
            first_occ(h@, n@, from as int) == first_occ(h@, n@, at as int),
        decreases last - at,
    {
        if occurs_here(h, n, at) {
            return Some(at);
        }
        if at == last {
            assert(first_occ(h@, n@, at + 1) is None);
            return None;
        }
        at = at + 1;
    }
}

/// The characters of a text lower-cased in ASCII.
pub fn lower_chars(s: &str) -> (r: Vec<char>)
    ensures
        r@ == lower_text(s@),
{
    let cs = chars_of(s);
    let mut out: Vec<char> = Vec::new();
    let mut i: usize = 0;
    while i < cs.len()
        invariant
            cs@ == s@,
            i <= cs@.len(),
            out@ == lower_text(cs@.take(i as int)),
        decreases cs@.len() - i,
    {
        let c = cs[i];
        let l = if 'A' <= c && c <= 'Z' {
            let b = (c as u8) + 32;
            b as char
        } else {
            c
        };
        proof {
            assert(lower_text(cs@.take(i + 1)) =~= lower_text(cs@.take(i as int)).push(ascii_lower_char(c)));
        }
        out.push(l);
        i = i + 1;
    }
    assert(cs@.take(cs@.len() as int) =~= cs@);
    out
}

#[verifier::external_type_specification]
#[verifier::external_body]
pub struct ExJsonValue(serde_json::Value);

/// A JSON value, as the frontmatter holds it. A number is held as the
/// text serde_json renders it with, which need not be the text it was
/// written with.
#[derive(Debug, PartialEq, Eq)]
pub enum JsonValue {
    Null,
    Bool(bool),
    Number(String),
    Str(String),
    Array(Vec<JsonValue>),
    Object(Vec<(String, JsonValue)>),
}

/// What serde_json reads from a text: the JSON value, or the line of its
/// first syntax error.
pub uninterp spec fn json_parse(text: Seq<char>) -> Result<JsonValue, usize>;

/// Rebuilds a serde_json value as a library value, one for one.
#[verifier::external_body]
fn json_from_serde(v: serde_json::Value) -> JsonValue {
    match v {
        serde_json::Value::Null => JsonValue::Null,
        serde_json::Value::Bool(b) => JsonValue::Bool(b),
        serde_json::Value::Number(n) => JsonValue::Number(n.to_string()),
        serde_json::Value::String(s) => JsonValue::Str(s),
        serde_json::Value::Array(vs) => JsonValue::Array(vs.into_iter().map(json_from_serde).collect()),
        serde_json::Value::Object(m) => JsonValue::Object(m.into_iter().map(|(k, v)| (k, json_from_serde(v))).collect()),
    }
}

/// Calls `serde_json::from_str` into a `serde_json::Value` and rebuilds it
/// as a library value; a refused text gives the line serde_json reports.
/// The result is named, not stated: JSON syntax is serde_json's.
#[verifier::external_body]
fn json_value(text: &str) -> (r: Result<JsonValue, usize>)
    ensures
        r == json_parse(text@),
{
    serde_json::from_str::<serde_json::Value>(text).map(json_from_serde).map_err(|e| e.line())
}

/// Whether a value nests no deeper than `max`, counting the value itself
/// as level `depth`.
pub open spec fn depth_within(v: JsonValue, depth: int, max: int) -> bool
    decreases max - depth + 1,
{
    if depth > max {
        false
    } else {
        match v {
            JsonValue::Array(vs) => forall|i: int| 0 <= i < vs@.len() ==> depth_within(#[trigger] vs@[i], depth + 1, max),
            JsonValue::Object(es) => forall|i: int| 0 <= i < es@.len() ==> depth_within(#[trigger] es@[i].1, depth + 1, max),
            _ => true,
        }
    }
}

fn depth_within_from(v: &JsonValue, depth: u128, max: u128) -> (r: bool)
    requires
        depth <= max + 1,
        max <= u64::MAX,
    ensures
        r == depth_within(*v, depth as int, max as int),
    decreases max + 1 - depth,
{
    if depth > max {
        return false;
    }
    match v {
        JsonValue::Array(vs) => {
            let mut i: usize = 0;
            while i < vs.len()
                invariant
                    depth <= max,
                    max <= u64::MAX,
                    depth_within(*v, depth as int, max as int) <==> (forall|k: int|
                        0 <= k < vs@.len() ==> depth_within(#[trigger] vs@[k], depth + 1, max as int)),
                    i <= vs@.len(),
                    forall|k: int| 0 <= k < i ==> depth_within(#[trigger] vs@[k], depth + 1, max as int),
                decreases vs@.len() - i,
            {
                if !depth_within_from(&vs[i], depth + 1, max) {
                    return false;
                }
                i = i + 1;
            }
            true
        },
        JsonValue::Object(es) => {
            let mut i: usize = 0;
            while i < es.len()
                invariant
                    depth <= max,
                    max <= u64::MAX,
                    depth_within(*v, depth as int, max as int) <==> (forall|k: int|
                        0 <= k < es@.len() ==> depth_within(#[trigger] es@[k].1, depth + 1, max as int)),
                    i <= es@.len(),
                    forall|k: int| 0 <= k < i ==> depth_within(#[trigger] es@[k].1, depth + 1, max as int),
                decreases es@.len() - i,
            {
                if !depth_within_from(&es[i].1, depth + 1, max) {
                    return false;
                }
                i = i + 1;
            }
            true
        },
        _ => true,
    }
}

/// Whether a frontmatter value nests no deeper than `max` levels.
pub fn json_depth_within(v: &JsonValue, max: usize) -> (r: bool)
    ensures
        r == depth_within(*v, 1, max as int),
{
    depth_within_from(v, 1, max as u128)
}

/// Whether a text, lower-cased in ASCII, holds a known instruction
/// override phrase.
pub open spec fn override_in(s: Seq<char>) -> bool {
    let l = lower_text(s);
    ||| contains_seq(l, "ignore previous instructions"@)
    ||| contains_seq(l, "ignore all previous instructions"@)
    ||| contains_seq(l, "disregard previous instructions"@)
    ||| contains_seq(l, "override system instructions"@)
    ||| contains_seq(l, "system message"@)
    ||| contains_seq(l, "developer message"@)
    ||| contains_seq(l, "<|system|>"@)
    ||| contains_seq(l, "<|developer|>"@)
    ||| contains_seq(l, "jailbreak"@)
}

fn holds(l: &Vec<char>, marker: &str) -> (r: bool)
    ensures
        r == contains_seq(l@, marker@),
{
    let m = chars_of(marker);
    find_from(l, &m, 0).is_some()
}

/// Whether a text tries to override the instructions it is embedded in.
pub fn contains_instruction_override(value: &str) -> (r: bool)
    ensures
        r == override_in(value@),
{
    let l = lower_chars(value);
    holds(&l, "ignore previous instructions") || holds(&l, "ignore all previous instructions")
        || holds(&l, "disregard previous instructions") || holds(&l, "override system instructions")
        || holds(&l, "system message") || holds(&l, "developer message") || holds(&l, "<|system|>")
        || holds(&l, "<|developer|>") || holds(&l, "jailbreak")
}

/// The number of `#` that open a line from `i` on.
pub open spec fn hash_run(line: Seq<char>, i: int) -> int
    decreases line.len() - i,
{
    if 0 <= i < line.len() && line[i] == '#' {
        1 + hash_run(line, i + 1)
    } else {
        0
    }
}

/// A Markdown heading: `#`s, a space, and the trimmed title; the level
/// is the count of `#`s read as a byte.
pub open spec fn heading_spec(line: Seq<char>) -> Option<(u8, Seq<char>)> {
    let n = hash_run(line, 0);
    if n == 0 || n >= line.len() || line[n] != ' ' {
        None
    } else {
        Some(((n % 256) as u8, trimmed(line.subrange(n + 1, line.len() as int))))
    }
}

/// Reads a line as a Markdown heading, if it is one.
pub fn markdown_heading(line: &str) -> (r: Option<(u8, String)>)
    ensures
        match heading_spec(line@) {
            Some((level, title)) => r matches Some((l, t)) && l == level && t@ == title,
            None => r is None,
        },
{
    let cs = chars_of(line);
    let mut n: usize = 0;
    while n < cs.len() && cs[n] == '#'
        invariant
            cs@ == line@,
            n <= cs@.len(),
            hash_run(cs@, 0) == n + hash_run(cs@, n as int),
        decreases cs@.len() - n,
    {
        n = n + 1;
    }
    assert(hash_run(cs@, n as int) == 0);
    if n == 0 || n >= cs.len() || cs[n] != ' ' {
        return None;
    }
    let title = trim_text(line.substring_char(n + 1, cs.len()));
    Some(((n % 256) as u8, title.to_string()))
}

/// The roles a skill file plays.
#[derive(Debug, Clone, Copy, PartialEq, Eq, Structural)]
pub enum SkillFileRole {
    Instruction,
    Script,
    Template,
    Reference,
    Test,
    Manifest,
}

/// Kinds of Markdown link.
#[derive(Debug, Clone, Copy, PartialEq, Eq, Structural)]
pub enum SkillLinkKind {
    Internal,
    External,
    Anchor,
}

/// The declared files, by path text and role.
pub open spec fn declared_view(d: Seq<(String, SkillFileRole)>) -> Seq<(Seq<char>, SkillFileRole)> {
    d.map_values(|p: (String, SkillFileRole)| (p.0@, p.1))
}

pub open spec fn declared_has(declared: Seq<(Seq<char>, SkillFileRole)>, p: Seq<char>) -> bool {
    exists|i: int| 0 <= i < declared.len() && (#[trigger] declared[i]).0 == p
}

fn declared_index(declared: &Vec<(String, SkillFileRole)>, p: &str) -> (r: Option<usize>)
    ensures
        match r {
            Some(i) => i < declared@.len() && declared@[i as int].0@ == p@,
            None => !declared_has(declared_view(declared@), p@),
        },
{
    let mut i: usize = 0;
    while i < declared.len()
        invariant
            i <= declared@.len(),
            forall|k: int| 0 <= k < i ==> (#[trigger] declared_view(declared@)[k]).0 != p@,
        decreases declared@.len() - i,
    {
        assert(declared_view(declared@)[i as int].0 == declared@[i as int].0@);
        if same_text(declared[i].0.as_str(), p) {
            return Some(i);
        }
        i = i + 1;
    }
    None
}

/// `path[a..b]` is one of its `/`-separated segments.
pub open spec fn is_segment(path: Seq<char>, a: int, b: int) -> bool {
    &&& 0 <= a <= b <= path.len()
    &&& (a == 0 || path[a - 1] == '/')
    &&& (b == path.len() || path[b] == '/')
    &&& forall|k: int| a <= k < b ==> path[k] != '/'
}

pub open spec fn dot_segment(seg: Seq<char>) -> bool {
    seg == seq!['.'] || seg == seq!['.', '.']
}

/// Some segment is `.` or `..`.
pub open spec fn has_dot_segment(path: Seq<char>) -> bool {
    exists|a: int, b: int| #[trigger] is_segment(path, a, b) && dot_segment(path.subrange(a, b))
}

/// Some segment is empty, `.` or `..`.
pub open spec fn has_bad_segment(path: Seq<char>) -> bool {
    exists|a: int, b: int| #[trigger] is_segment(path, a, b) && (a == b || dot_segment(path.subrange(a, b)))
}

proof fn lemma_segment_end(path: Seq<char>, start: int, i: int)
    requires
        0 <= start <= i <= path.len(),
        start == 0 || path[start - 1] == '/',
        forall|k: int| start <= k < i ==> path[k] != '/',
    ensures
        forall|a: int, b: int| #[trigger] is_segment(path, a, b) && b == i ==> a == start,
{
    assert forall|a: int, b: int| #[trigger] is_segment(path, a, b) && b == i implies a == start by {
        if a < start {
            assert(path[start - 1] == '/');
        }
        if a > start {
            assert(path[a - 1] == '/');
        }
    }
}

fn dot_at(path: &Vec<char>, start: usize, i: usize) -> (r: bool)
    requires
        start <= i <= path@.len(),
    ensures
        r == dot_segment(path@.subrange(start as int, i as int)),
{
    let len = i - start;
    let r = (len == 1 && path[start] == '.') || (len == 2 && path[start] == '.' && path[start + 1] == '.');
    let ghost seg = path@.subrange(start as int, i as int);
    proof {
        if len == 1 && path@[start as int] == '.' {
            assert(seg =~= seq!['.']);
        }
        if len == 2 && path@[start as int] == '.' && path@[start + 1] == '.' {
            assert(seg =~= seq!['.', '.']);
        }
        let one = seq!['.'];
        let two = seq!['.', '.'];
        assert(one.len() == 1 && one[0] == '.');
        assert(two.len() == 2 && two[0] == '.' && two[1] == '.');
        assert(seg.len() == len);
        if len >= 1 {
            assert(seg[0] == path@[start as int]);
        }
        if len >= 2 {
            assert(seg[1] == path@[start + 1]);
        }
    }
    r
}

fn segment_flags(path: &Vec<char>) -> (r: (bool, bool))
    ensures
        r.0 == has_bad_segment(path@),
        r.1 == has_dot_segment(path@),
{
    let n = path.len();
    let mut start: usize = 0;
    let mut i: usize = 0;
    let mut bad = false;
    let mut dot = false;
    while i < n
        invariant
            n == path@.len(),
            start <= i <= n,
            start == 0 || path@[start - 1] == '/',
            forall|k: int| start <= k < i ==> path@[k] != '/',
            bad <==> exists|a: int, b: int|
                #[trigger] is_segment(path@, a, b) && b < i && (a == b || dot_segment(path@.subrange(a, b))),
            dot <==> exists|a: int, b: int|
                #[trigger] is_segment(path@, a, b) && b < i && dot_segment(path@.subrange(a, b)),
        decreases n - i,
    {
        let ghost old_start = start;
        let ghost old_bad = bad;
        let ghost old_dot = dot;
        if path[i] == '/' {
            let is_dot = dot_at(path, start, i);
            proof {
                assert(is_segment(path@, start as int, i as int));
                lemma_segment_end(path@, start as int, i as int);
            }
            if start == i || is_dot {
                bad = true;
            }
            if is_dot {
                dot = true;
            }
            start = i + 1;
            i = i + 1;
            proof {
                assert(bad <==> exists|a: int, b: int|
                    #[trigger] is_segment(path@, a, b) && b < i && (a == b || dot_segment(path@.subrange(a, b)))) by {
                    if bad && !old_bad {
                        assert(is_segment(path@, old_start as int, (i - 1) as int));
                    }
                    if !bad {
                        assert forall|a: int, b: int| #[trigger] is_segment(path@, a, b) && b < i implies !(a == b || dot_segment(path@.subrange(a, b))) by {
                            if b < i - 1 {
                                assert(!old_bad);
                            } else {
                                assert(a == old_start);
                            }
                        }
                    }
                }
                assert(dot <==> exists|a: int, b: int|
                    #[trigger] is_segment(path@, a, b) && b < i && dot_segment(path@.subrange(a, b))) by {
                    if dot && !old_dot {
                        assert(is_segment(path@, old_start as int, (i - 1) as int));
                    }
                    if !dot {
                        assert forall|a: int, b: int| #[trigger] is_segment(path@, a, b) && b < i implies !dot_segment(path@.subrange(a, b)) by {
                            if b < i - 1 {
                                assert(!old_dot);
                            } else {
                                assert(a == old_start);
                            }
                        }
                    }
                }
            }
        } else {
            i = i + 1;
            proof {
                assert forall|a: int, b: int| #[trigger] is_segment(path@, a, b) implies b != i - 1 by {}
            }
        }
    }
    let is_dot = dot_at(path, start, n);
    proof {
        assert(is_segment(path@, start as int, n as int));
        lemma_segment_end(path@, start as int, n as int);
    }
    let ghost old_bad = bad;
    let ghost old_dot = dot;
    if start == n || is_dot {
        bad = true;
    }
    if is_dot {
        dot = true;
    }
    proof {
        if !bad {
            assert forall|a: int, b: int| #[trigger] is_segment(path@, a, b) implies !(a == b || dot_segment(path@.subrange(a, b))) by {
                if b < n {
                    assert(!old_bad);
                } else {
                    assert(a == start);
                }
            }
        }
        if !dot {
            assert forall|a: int, b: int| #[trigger] is_segment(path@, a, b) implies !dot_segment(path@.subrange(a, b)) by {
                if b < n {
                    assert(!old_dot);
                } else {
                    assert(a == start);
                }
            }
        }
    }
    (bad, dot)
}

/// The part of a target before its first `#`.
pub open spec fn before_hash(t: Seq<char>) -> Seq<char> {
    match first_occ(t, seq!['#'], 0) {
        Some(k) => t.subrange(0, k),
        None => t,
    }
}

pub open spec fn starts_seq(s: Seq<char>, p: Seq<char>) -> bool {
    first_occ(s, p, 0) == Some(0int)
}

pub open spec fn has_space(s: Seq<char>) -> bool {
    exists|i: int| 0 <= i < s.len() && #[trigger] is_space_char(s[i])
}

/// What a link target is: refused when it holds a control character or a
/// backslash, is absolute, or encodes a dot; external when it is HTTP(S)
/// without white space; an anchor when it starts with `#`; refused when it
/// names any other scheme; else internal, when its path (before any `#`)
/// is a declared file with no empty, `.` or `..` segment — a traversal
/// is refused, any other path is undeclared.
pub open spec fn classify_spec(t: Seq<char>, declared: Seq<(Seq<char>, SkillFileRole)>, line: usize) -> Result<
    SkillLinkKind,
    SkillParseError,
> {
    let lower = lower_text(t);
    if has_control(t) || has_char(t, '\\') || (t.len() > 0 && t[0] == '/') || contains_seq(
        lower,
        "%2e"@,
    ) {
        Err(SkillParseError::InvalidLink { line, reason: "absolute, encoded, or control path" })
    } else if starts_seq(lower, "https://"@) || starts_seq(lower, "http://"@) {
        if has_space(t) {
            Err(SkillParseError::InvalidLink { line, reason: "external target contains whitespace" })
        } else {
            Ok(SkillLinkKind::External)
        }
    } else if t.len() > 0 && t[0] == '#' {
        Ok(SkillLinkKind::Anchor)
    } else if has_char(t, ':') {
        Err(SkillParseError::InvalidLink { line, reason: "unsupported or executable scheme" })
    } else {
        let path = before_hash(t);
        if path.len() == 0 || has_bad_segment(path) || !declared_has(declared, path) {
            if has_dot_segment(path) {
                Err(SkillParseError::InvalidLink { line, reason: "path traversal" })
            } else {
                Err(SkillParseError::UndeclaredLink { line })
            }
        } else {
            Ok(SkillLinkKind::Internal)
        }
    }
}

fn any_space(cs: &Vec<char>) -> (r: bool)
    ensures
        r == has_space(cs@),
{
    let mut i: usize = 0;
    while i < cs.len()
        invariant
            i <= cs@.len(),
            forall|k: int| 0 <= k < i ==> !is_space_char(#[trigger] cs@[k]),
        decreases cs@.len() - i,
    {
        if is_space(cs[i]) {
            return true;
        }
        i = i + 1;
    }
    false
}

/// Classifies a link target of a line.
pub fn classify_link(target: &str, declared: &Vec<(String, SkillFileRole)>, line: usize) -> (r: Result<
    SkillLinkKind,
    SkillParseError,
>)
    ensures
        r == classify_spec(target@, declared_view(declared@), line),
{
    let lower = lower_chars(target);
    if contains_control(target) || contains_char(target, '\\') || crate::text::starts_with_char(target, '/')
        || holds(&lower, "%2e") {
        return Err(SkillParseError::InvalidLink { line, reason: "absolute, encoded, or control path" });
    }
    let https = chars_of("https://");
    let http = chars_of("http://");
    proof {
        lemma_first_occ(lower@, https@, 0);
        lemma_first_occ(lower@, http@, 0);
    }
    let is_https = match find_from(&lower, &https, 0) {
        Some(k) => k == 0,
        None => false,
    };
    let is_plain = match find_from(&lower, &http, 0) {
        Some(k) => k == 0,
        None => false,
    };
    let is_http = is_https || is_plain;
    proof {
        assert(is_https == starts_seq(lower@, https@));
        assert(is_plain == starts_seq(lower@, http@));
        assert(is_http == (starts_seq(lower_text(target@), "https://"@) || starts_seq(lower_text(target@), "http://"@)));
    }
    if is_http {
        let cs = chars_of(target);
        if any_space(&cs) {
            return Err(SkillParseError::InvalidLink { line, reason: "external target contains whitespace" });
        }
        return Ok(SkillLinkKind::External);
    }
    if crate::text::starts_with_char(target, '#') {
        return Ok(SkillLinkKind::Anchor);
    }
    if contains_char(target, ':') {
        return Err(SkillParseError::InvalidLink { line, reason: "unsupported or executable scheme" });
    }
    let cs = chars_of(target);
    let hash = chars_of("#");
    proof {
        reveal_strlit("#");
        assert(hash@ =~= seq!['#']);
        lemma_first_occ(cs@, seq!['#'], 0);
    }
    let end = match find_from(&cs, &hash, 0) {
        Some(k) => k,
        None => cs.len(),
    };
    let path_str = target.substring_char(0, end);
    let path = chars_of(path_str);
    proof {
        match first_occ(target@, seq!['#'], 0) {
            Some(k) => {
                assert(end == k);
            },
            None => {
                assert(end == target@.len());
                assert(target@.subrange(0, end as int) =~= target@);
            },
        }
        assert(path@ =~= before_hash(target@));
    }
    let (bad, dot) = segment_flags(&path);
    let idx = declared_index(declared, path_str);
    proof {
        if let Some(k) = idx {
            assert(declared_view(declared@)[k as int].0 == path_str@);
        }
    }
    if path.len() == 0 || bad || idx.is_none() {
        if dot {
            return Err(SkillParseError::InvalidLink { line, reason: "path traversal" });
        }
        return Err(SkillParseError::UndeclaredLink { line });
    }
    Ok(SkillLinkKind::Internal)
}

#[derive(Debug, Clone, Copy, PartialEq, Eq, Structural)]
pub enum SkillDiagnosticSeverity {
    Warning,
    Quarantine,
}

#[derive(Debug, Clone, Copy, PartialEq, Eq, Structural)]
pub enum SkillDiagnosticCode {
    ExternalLink,
    InstructionOverride,
}

/// A finding about a skill; it carries no skill content or URL.
#[derive(Debug, Clone, Copy, PartialEq, Eq, Structural)]
pub struct SkillDiagnostic {
    pub code: SkillDiagnosticCode,
    pub severity: SkillDiagnosticSeverity,
    pub line: usize,
}

/// An instruction section, always untrusted.
#[derive(Debug, Clone, PartialEq, Eq)]
pub struct SkillInstructionSection {
    pub heading: String,
    pub level: u8,
    pub line: usize,
    pub content: String,
    pub quarantined: bool,
}

/// A link found in the instructions.
#[derive(Debug, Clone, PartialEq, Eq)]
pub struct SkillLink {
    pub source_path: String,
    pub target: String,
    pub kind: SkillLinkKind,
    pub line: usize,
}

/// A section as the specifications see it.
pub struct SectionModel {
    pub heading: Seq<char>,
    pub level: u8,
    pub line: usize,
    pub content: Seq<char>,
    pub quarantined: bool,
}

/// A link as the specifications see it; its source is always the document.
pub struct LinkModel {
    pub target: Seq<char>,
    pub kind: SkillLinkKind,
    pub line: usize,
}

pub open spec fn section_view(s: SkillInstructionSection) -> SectionModel {
    SectionModel { heading: s.heading@, level: s.level, line: s.line, content: s.content@, quarantined: s.quarantined }
}

pub open spec fn sections_view(v: Seq<SkillInstructionSection>) -> Seq<SectionModel> {
    v.map_values(|s: SkillInstructionSection| section_view(s))
}

pub open spec fn link_view(l: SkillLink) -> LinkModel {
    LinkModel { target: l.target@, kind: l.kind, line: l.line }
}

pub open spec fn links_view(v: Seq<SkillLink>) -> Seq<LinkModel> {
    v.map_values(|l: SkillLink| link_view(l))
}

/// Every link names the document as its source.
pub open spec fn links_from_document(v: Seq<SkillLink>) -> bool {
    forall|i: int| 0 <= i < v.len() ==> (#[trigger] v[i]).source_path@ == "SKILL.md"@
}

/// Adds a diagnostic, unless the limit is reached.
pub open spec fn push_diag(diags: Seq<SkillDiagnostic>, d: SkillDiagnostic, limits: SkillParserLimits) -> Result<
    Seq<SkillDiagnostic>,
    SkillParseError,
> {
    if diags.len() >= limits.max_diagnostics {
        Err(SkillParseError::TooManyDiagnostics { max: limits.max_diagnostics })
    } else {
        Ok(diags.push(d))
    }
}

fn push_diagnostic(diags: &mut Vec<SkillDiagnostic>, d: SkillDiagnostic, limits: &SkillParserLimits) -> (r: Result<
    (),
    SkillParseError,
>)
    ensures
        match push_diag(old(diags)@, d, *limits) {
            Ok(v) => r is Ok && final(diags)@ == v,
            Err(e) => r == Err::<(), SkillParseError>(e) && final(diags)@ == old(diags)@,
        },
{
    if diags.len() >= limits.max_diagnostics {
        return Err(SkillParseError::TooManyDiagnostics { max: limits.max_diagnostics });
    }
    diags.push(d);
    Ok(())
}

/// The index of the first white space of `u` from `j` on, or its length.
pub open spec fn space_index(u: Seq<char>, j: int) -> int
    decreases u.len() - j,
{
    if j < 0 || j >= u.len() {
        u.len() as int
    } else if is_space_char(u[j]) {
        j
    } else {
        space_index(u, j + 1)
    }
}

/// A raw target without one pair of enclosing angle brackets.
pub open spec fn strip_angles(raw: Seq<char>) -> Seq<char> {
    if raw.len() >= 2 && raw[0] == '<' && raw.last() == '>' {
        raw.subrange(1, raw.len() - 1)
    } else {
        raw
    }
}

/// The target a link's parenthesised text names: trimmed, without angle
/// brackets, up to its first white space.
pub open spec fn link_target(seg: Seq<char>) -> Seq<char> {
    let u = trim_start_spaces(strip_angles(trimmed(seg)));
    u.take(space_index(u, 0))
}

fn target_of(seg: &str) -> (r: String)
    ensures
        r@ == link_target(seg@),
{
    let raw = trim_text(seg);
    let n = raw.unicode_len();
    let (a, b) = if n >= 2 && raw.get_char(0) == '<' && raw.get_char(n - 1) == '>' {
        (1, n - 1)
    } else {
        (0, n)
    };
    let inner = raw.substring_char(a, b);
    assert(inner@ =~= strip_angles(raw@));
    let m = inner.unicode_len();
    let mut i: usize = 0;
    assert(inner@.skip(0) =~= inner@);
    while i < m && is_space(inner.get_char(i))
        invariant
            m == inner@.len(),
            i <= m,
            trim_start_spaces(inner@) == trim_start_spaces(inner@.skip(i as int)),
        decreases m - i,
    {
        assert(inner@.skip(i as int).drop_first() =~= inner@.skip(i + 1));
        i = i + 1;
    }
    let ghost u = inner@.skip(i as int);
    assert(trim_start_spaces(u) == u);
    let mut j: usize = i;
    while j < m && !is_space(inner.get_char(j))
        invariant
            m == inner@.len(),
            i <= j <= m,
            u == inner@.skip(i as int),
            space_index(u, 0) == space_index(u, (j - i) as int),
        decreases m - j,
    {
        j = j + 1;
    }
    assert(space_index(u, (j - i) as int) == (j - i));
    let t = inner.substring_char(i, j);
    assert(t@ =~= u.take((j - i) as int));
    t.to_string()
}

/// The links of a line from `cursor` on, added to `links` and `diags`:
/// each `](` opens a target that a `)` must close; the target must be
/// non-empty and at most 512 bytes, classify, and fit the link limit; an
/// external link adds a warning.
pub open spec fn links_spec(
    line: Seq<char>,
    cursor: int,
    line_no: usize,
    declared: Seq<(Seq<char>, SkillFileRole)>,
    links: Seq<LinkModel>,
    diags: Seq<SkillDiagnostic>,
    limits: SkillParserLimits,
) -> Result<(Seq<LinkModel>, Seq<SkillDiagnostic>), SkillParseError>
    decreases line.len() - cursor,
{
    if cursor < 0 {
        Ok((links, diags))
    } else {
        match first_occ(line, "]("@, cursor) {
            None => Ok((links, diags)),
            Some(open) => {
                let ts = open + 2;
                match first_occ(line, ")"@, ts) {
                    None => Err(SkillParseError::InvalidLink { line: line_no, reason: "unterminated target" }),
                    Some(close) => {
                        let target = link_target(line.subrange(ts, close));
                        if target.len() == 0 || utf8_len(target) > 512 {
                            Err(SkillParseError::InvalidLink { line: line_no, reason: "empty or oversized target" })
                        } else {
                            match classify_spec(target, declared, line_no) {
                                Err(e) => Err(e),
                                Ok(kind) => if links.len() >= limits.max_links {
                                    Err(SkillParseError::TooManyLinks { max: limits.max_links })
                                } else {
                                    let d = if kind == SkillLinkKind::External {
                                        push_diag(
                                            diags,
                                            SkillDiagnostic {
                                                code: SkillDiagnosticCode::ExternalLink,
                                                severity: SkillDiagnosticSeverity::Warning,
                                                line: line_no,
                                            },
                                            limits,
                                        )
                                    } else {
                                        Ok(diags)
                                    };
                                    match d {
                                        Err(e) => Err(e),
                                        Ok(d2) => {
                                            proof {
                                                lemma_first_occ(line, "]("@, cursor);
                                                lemma_first_occ(line, ")"@, ts);
                                            }
                                            links_spec(
                                                line,
                                                close + 1,
                                                line_no,
                                                declared,
                                                links.push(LinkModel { target, kind, line: line_no }),
                                                d2,
                                                limits,
                                            )
                                        },
                                    }
                                },
                            }
                        }
                    },
                }
            },
        }
    }
}

/// Reads the links of a line into `links` and `diags`.
pub fn parse_links(
    line: &str,
    line_no: usize,
    declared: &Vec<(String, SkillFileRole)>,
    links_in: Vec<SkillLink>,
    diags_in: Vec<SkillDiagnostic>,
    limits: &SkillParserLimits,
) -> (r: Result<(Vec<SkillLink>, Vec<SkillDiagnostic>), SkillParseError>)
    requires
        links_from_document(links_in@),
    ensures
        match links_spec(line@, 0, line_no, declared_view(declared@), links_view(links_in@), diags_in@, *limits) {
            Ok((l, d)) => r matches Ok((ls, ds)) && links_view(ls@) == l && ds@ == d && links_from_document(ls@),
            Err(e) => r matches Err(f) && f == e,
        },
{
    let mut links = links_in;
    let mut diags = diags_in;
    let cs = chars_of(line);
    let open_pat = chars_of("](");
    let close_pat = chars_of(")");
    let mut cursor: usize = 0;
    let ghost whole = links_spec(line@, 0, line_no, declared_view(declared@), links_view(links@), diags@, *limits);
    loop
        invariant
            cs@ == line@,
            open_pat@ == "]("@,
            close_pat@ == ")"@,
            cursor <= cs@.len() + 1,
            links_from_document(links@),
            whole == links_spec(line@, 0, line_no, declared_view(declared@), links_view(links_in@), diags_in@, *limits),
            whole == links_spec(line@, cursor as int, line_no, declared_view(declared@), links_view(links@), diags@, *limits),
        decreases cs@.len() + 1 - cursor,
    {
        proof {
            lemma_first_occ(cs@, "]("@, cursor as int);
        }
        let open = match find_from(&cs, &open_pat, cursor) {
            None => {
                assert(first_occ(line@, "]("@, cursor as int) is None);
                assert(whole == Ok::<(Seq<LinkModel>, Seq<SkillDiagnostic>), SkillParseError>((links_view(links@), diags@)));
                return Ok((links, diags));
            },
            Some(o) => o,
        };
        assert(open + 2 <= cs@.len()) by {
            reveal_strlit("](");
        }
        assert(cs@.len() == cs.len());
        let ts = open + 2;
        proof {
            lemma_first_occ(cs@, ")"@, ts as int);
        }
        let close = match find_from(&cs, &close_pat, ts) {
            None => {
                assert(whole == Err::<(Seq<LinkModel>, Seq<SkillDiagnostic>), SkillParseError>(
                    SkillParseError::InvalidLink { line: line_no, reason: "unterminated target" }));
                return Err(SkillParseError::InvalidLink { line: line_no, reason: "unterminated target" });
            },
            Some(c) => c,
        };
        assert(close < cs@.len()) by {
            reveal_strlit(")");
        }
        let seg = line.substring_char(ts, close);
        let target = target_of(seg);
        if target.unicode_len() == 0 || text_len(target.as_str()) > 512 {
            return Err(SkillParseError::InvalidLink { line: line_no, reason: "empty or oversized target" });
        }
        let kind = classify_link(target.as_str(), declared, line_no)?;
        if links.len() >= limits.max_links {
            return Err(SkillParseError::TooManyLinks { max: limits.max_links });
        }
        if kind == SkillLinkKind::External {
            push_diagnostic(
                &mut diags,
                SkillDiagnostic {
                    code: SkillDiagnosticCode::ExternalLink,
                    severity: SkillDiagnosticSeverity::Warning,
                    line: line_no,
                },
                limits,
            )?;
        }
        let ghost before = links@;
        links.push(SkillLink { source_path: "SKILL.md".to_string(), target, kind, line: line_no });
        proof {
            assert(links_view(links@) =~= links_view(before).push(link_view(links@.last())));
            assert forall|i: int| 0 <= i < links@.len() implies (#[trigger] links@[i]).source_path@ == "SKILL.md"@ by {
                if i < before.len() {
                    assert(links@[i] == before[i]);
                }
            }
        }
        cursor = close + 1;
    }
}

/// Sections, diagnostics and quarantine once a section is closed: refused
/// past the section limit or when its content exceeds the byte limit; a
/// heading or content that tries to override instructions quarantines the
/// section and adds a diagnostic.
pub open spec fn finish_spec(
    secs: Seq<SectionModel>,
    diags: Seq<SkillDiagnostic>,
    q: bool,
    heading: Seq<char>,
    level: u8,
    line: usize,
    content: Seq<char>,
    limits: SkillParserLimits,
) -> Result<(Seq<SectionModel>, Seq<SkillDiagnostic>, bool), SkillParseError> {
    if secs.len() >= limits.max_sections {
        Err(SkillParseError::TooManySections { max: limits.max_sections })
    } else if utf8_len(content) > limits.max_section_bytes {
        Err(SkillParseError::SectionTooLarge { line, max: limits.max_section_bytes })
    } else {
        let inj = override_in(heading) || override_in(content);
        let d = if inj {
            push_diag(
                diags,
                SkillDiagnostic {
                    code: SkillDiagnosticCode::InstructionOverride,
                    severity: SkillDiagnosticSeverity::Quarantine,
                    line,
                },
                limits,
            )
        } else {
            Ok(diags)
        };
        match d {
            Err(e) => Err(e),
            Ok(d2) => Ok(
                (
                    secs.push(SectionModel { heading, level, line, content, quarantined: inj }),
                    d2,
                    q || inj,
                ),
            ),
        }
    }
}

/// The parser's state between lines.
pub struct MdState {
    pub sections: Seq<SectionModel>,
    pub links: Seq<LinkModel>,
    pub diags: Seq<SkillDiagnostic>,
    pub quarantined: bool,
    pub seen: Seq<Seq<char>>,
    pub heading: Seq<char>,
    pub level: u8,
    pub line: usize,
    pub content: Seq<char>,
    pub saw: bool,
}

/// What one line does. A heading must be within the depth limit, have a
/// title, and not repeat an earlier title (ignoring ASCII case); it closes
/// the open section (if a heading opened it) and opens a new one, within the
/// section limit. Any other line adds its links and is added, with a line
/// feed, to the open section's content, within the byte limit.
pub open spec fn step_spec(
    st: MdState,
    line: Seq<char>,
    line_no: usize,
    declared: Seq<(Seq<char>, SkillFileRole)>,
    limits: SkillParserLimits,
) -> Result<MdState, SkillParseError> {
    match heading_spec(line) {
        Some((level, title)) => if level > limits.max_heading_depth {
            Err(SkillParseError::HeadingTooDeep { line: line_no, max: limits.max_heading_depth })
        } else if title.len() == 0 {
            Err(SkillParseError::InvalidHeading { line: line_no })
        } else if st.seen.contains(lower_text(title)) {
            Err(SkillParseError::DuplicateSection { line: line_no })
        } else {
            let fin = if st.saw {
                finish_spec(st.sections, st.diags, st.quarantined, st.heading, st.level, st.line, st.content, limits)
            } else {
                Ok((st.sections, st.diags, st.quarantined))
            };
            match fin {
                Err(e) => Err(e),
                Ok((secs, diags, q)) => if secs.len() >= limits.max_sections {
                    Err(SkillParseError::TooManySections { max: limits.max_sections })
                } else {
                    Ok(
                        MdState {
                            sections: secs,
                            links: st.links,
                            diags,
                            quarantined: q,
                            seen: st.seen.push(lower_text(title)),
                            heading: title,
                            level,
                            line: line_no,
                            content: Seq::empty(),
                            saw: true,
                        },
                    )
                },
            }
        },
        None => match links_spec(line, 0, line_no, declared, st.links, st.diags, limits) {
            Err(e) => Err(e),
            Ok((links, diags)) => {
                let c = st.content + line + "\n"@;
                if utf8_len(c) > limits.max_section_bytes {
                    Err(SkillParseError::SectionTooLarge { line: st.line, max: limits.max_section_bytes })
                } else {
                    Ok(MdState { links, diags, content: c, ..st })
                }
            },
        },
    }
}

/// The text of the line from `i` to `e`: without its line feed, a carriage
/// return before it, and one more trailing carriage return.
pub open spec fn line_text(s: Seq<char>, i: int, e: int) -> Seq<char> {
    let has_lf = e > i && s[e - 1] == '\n';
    let a = if has_lf { s.subrange(i, e - 1) } else { s.subrange(i, e) };
    let b = if has_lf && a.len() > 0 && a.last() == '\r' { a.drop_last() } else { a };
    if b.len() > 0 && b.last() == '\r' { b.drop_last() } else { b }
}

/// The state after the lines from `i` on, numbered from `line_no`.
pub open spec fn md_from(
    s: Seq<char>,
    i: int,
    line_no: int,
    st: MdState,
    declared: Seq<(Seq<char>, SkillFileRole)>,
    limits: SkillParserLimits,
) -> Result<MdState, SkillParseError>
    decreases s.len() - i,
{
    if i < 0 || i >= s.len() {
        Ok(st)
    } else {
        let e = line_end(s, i);
        match step_spec(st, line_text(s, i, e), line_no as usize, declared, limits) {
            Err(x) => Err(x),
            Ok(st2) => {
                proof {
                    lemma_line_end(s, i);
                }
                md_from(s, e, line_no + 1, st2, declared, limits)
            },
        }
    }
}

pub open spec fn md_init(start: usize) -> MdState {
    MdState {
        sections: Seq::empty(),
        links: Seq::empty(),
        diags: Seq::empty(),
        quarantined: false,
        seen: Seq::empty(),
        heading: Seq::empty(),
        level: 0,
        line: start,
        content: Seq::empty(),
        saw: false,
    }
}

/// The instructions of a body starting at line `start`: a blank body is
/// refused; every line steps the parser; the last section is closed at the
/// end (an untitled one when no heading came).
pub open spec fn markdown_spec(
    body: Seq<char>,
    start: usize,
    declared: Seq<(Seq<char>, SkillFileRole)>,
    limits: SkillParserLimits,
) -> Result<(Seq<SectionModel>, Seq<LinkModel>, Seq<SkillDiagnostic>, bool), SkillParseError> {
    if trimmed(body).len() == 0 {
        Err(SkillParseError::EmptyDocument)
    } else {
        match md_from(body, 0, start as int, md_init(start), declared, limits) {
            Err(e) => Err(e),
            Ok(st) => match finish_spec(
                st.sections,
                st.diags,
                st.quarantined,
                st.heading,
                st.level,
                st.line,
                st.content,
                limits,
            ) {
                Err(e) => Err(e),
                Ok((secs, diags, q)) => Ok((secs, st.links, diags, q)),
            },
        }
    }
}

struct MdExec {
    sections: Vec<SkillInstructionSection>,
    links: Vec<SkillLink>,
    diags: Vec<SkillDiagnostic>,
    quarantined: bool,
    seen: Vec<String>,
    heading: String,
    level: u8,
    line: usize,
    content: String,
    saw: bool,
}

impl MdExec {
    spec fn view_state(&self) -> MdState {
        MdState {
            sections: sections_view(self.sections@),
            links: links_view(self.links@),
            diags: self.diags@,
            quarantined: self.quarantined,
            seen: self.seen@.map_values(|k: String| k@),
            heading: self.heading@,
            level: self.level,
            line: self.line,
            content: self.content@,
            saw: self.saw,
        }
    }
}

/// The parsed instructions of a body.
#[derive(Debug)]
pub struct MarkdownSections {
    pub instructions: Vec<SkillInstructionSection>,
    pub links: Vec<SkillLink>,
    pub diagnostics: Vec<SkillDiagnostic>,
    pub quarantined: bool,
}

fn finish_section(
    sections: Vec<SkillInstructionSection>,
    diags: Vec<SkillDiagnostic>,
    q: bool,
    heading: String,
    level: u8,
    line: usize,
    content: String,
    limits: &SkillParserLimits,
) -> (r: Result<(Vec<SkillInstructionSection>, Vec<SkillDiagnostic>, bool), SkillParseError>)
    ensures
        match finish_spec(sections_view(sections@), diags@, q, heading@, level, line, content@, *limits) {
            Ok((s2, d2, q2)) => r matches Ok((vs, vd, vq)) && sections_view(vs@) == s2 && vd@ == d2 && vq == q2,
            Err(e) => r matches Err(f) && f == e,
        },
{
    let mut sections = sections;
    let mut diags = diags;
    if sections.len() >= limits.max_sections {
        return Err(SkillParseError::TooManySections { max: limits.max_sections });
    }
    if text_len(content.as_str()) > limits.max_section_bytes {
        return Err(SkillParseError::SectionTooLarge { line, max: limits.max_section_bytes });
    }
    let inj = contains_instruction_override(heading.as_str()) || contains_instruction_override(content.as_str());
    if inj {
        let pushed = push_diagnostic(
            &mut diags,
            SkillDiagnostic {
                code: SkillDiagnosticCode::InstructionOverride,
                severity: SkillDiagnosticSeverity::Quarantine,
                line,
            },
            limits,
        );
        if let Err(e) = pushed {
            return Err(e);
        }
    }
    let ghost before = sections@;
    sections.push(SkillInstructionSection { heading, level, line, content, quarantined: inj });
    proof {
        assert(sections_view(sections@) =~= sections_view(before).push(section_view(sections@.last())));
    }
    Ok((sections, diags, q || inj))
}

fn seen_contains(seen: &Vec<String>, key: &str) -> (r: bool)
    ensures
        r == seen@.map_values(|k: String| k@).contains(key@),
{
    let ghost sv = seen@.map_values(|k: String| k@);
    let mut i: usize = 0;
    while i < seen.len()
        invariant
            sv == seen@.map_values(|k: String| k@),
            i <= seen@.len(),
            forall|k: int| 0 <= k < i ==> seen@[k]@ != key@,
        decreases seen@.len() - i,
    {
        if same_text(seen[i].as_str(), key) {
            assert(sv[i as int] == key@);
            return true;
        }
        i = i + 1;
    }
    assert forall|k: int| 0 <= k < sv.len() implies sv[k] != key@ by {
        assert(sv[k] == seen@[k]@);
    }
    false
}

fn md_step(
    st: MdExec,
    line: &str,
    line_no: usize,
    declared: &Vec<(String, SkillFileRole)>,
    limits: &SkillParserLimits,
) -> (r: Result<MdExec, SkillParseError>)
    requires
        links_from_document(st.links@),
    ensures
        match step_spec(st.view_state(), line@, line_no, declared_view(declared@), *limits) {
            Ok(s2) => r matches Ok(e2) && e2.view_state() == s2 && links_from_document(e2.links@),
            Err(e) => r matches Err(f) && f == e,
        },
{
    match markdown_heading(line) {
        Some((level, title)) => {
            if level > limits.max_heading_depth {
                return Err(SkillParseError::HeadingTooDeep { line: line_no, max: limits.max_heading_depth });
            }
            if title.unicode_len() == 0 {
                return Err(SkillParseError::InvalidHeading { line: line_no });
            }
            let mut key = String::new();
            append_lower(&mut key, title.as_str());
            assert(key@ =~= lower_text(title@));
            if seen_contains(&st.seen, key.as_str()) {
                return Err(SkillParseError::DuplicateSection { line: line_no });
            }
            let MdExec { sections, links, diags, quarantined, seen, heading, level: cur_level, line: cur_line, content, saw } = st;
            let (secs, diags, q) = if saw {
                match finish_section(sections, diags, quarantined, heading, cur_level, cur_line, content, limits) {
                    Ok(t) => t,
                    Err(e) => {
                        return Err(e);
                    },
                }
            } else {
                (sections, diags, quarantined)
            };
            if secs.len() >= limits.max_sections {
                return Err(SkillParseError::TooManySections { max: limits.max_sections });
            }
            let mut seen = seen;
            let ghost before = seen@;
            seen.push(key);
            proof {
                assert(seen@.map_values(|k: String| k@) =~= before.map_values(|k: String| k@).push(lower_text(title@)));
            }
            Ok(MdExec {
                sections: secs,
                links,
                diags,
                quarantined: q,
                seen,
                heading: title,
                level,
                line: line_no,
                content: String::new(),
                saw: true,
            })
        },
        None => {
            let MdExec { sections, links, diags, quarantined, seen, heading, level, line: cur_line, content, saw } = st;
            let (links, diags) = match parse_links(line, line_no, declared, links, diags, limits) {
                Ok(t) => t,
                Err(e) => {
                    return Err(e);
                },
            };
            let mut content = content;
            content.append(line);
            content.append("\n");
            if text_len(content.as_str()) > limits.max_section_bytes {
                return Err(SkillParseError::SectionTooLarge { line: cur_line, max: limits.max_section_bytes });
            }
            Ok(MdExec { sections, links, diags, quarantined, seen, heading, level, line: cur_line, content, saw })
        },
    }
}

fn line_at<'a>(body: &'a str, cs: &Vec<char>, i: usize, e: usize) -> (r: &'a str)
    requires
        cs@ == body@,
        i < e <= cs@.len(),
    ensures
        r@ == line_text(cs@, i as int, e as int),
{
    let has_lf = cs[e - 1] == '\n';
    let mut le = if has_lf { e - 1 } else { e };
    let ghost a = cs@.subrange(i as int, le as int);
    if has_lf && le > i && cs[le - 1] == '\r' {
        le = le - 1;
    }
    let ghost b = cs@.subrange(i as int, le as int);
    proof {
        if has_lf && a.len() > 0 && a.last() == '\r' {
            assert(b =~= a.drop_last());
        } else {
            assert(b =~= a);
        }
    }
    if le > i && cs[le - 1] == '\r' {
        le = le - 1;
    }
    let r = body.substring_char(i, le);
    proof {
        if b.len() > 0 && b.last() == '\r' {
            assert(r@ =~= b.drop_last());
        } else {
            assert(r@ =~= b);
        }
    }
    r
}

/// Parses the Markdown body of a skill, whose first line is `start_line`,
/// against the files the manifest declares.
pub fn parse_markdown(
    body: &str,
    start_line: usize,
    declared: &Vec<(String, SkillFileRole)>,
    limits: &SkillParserLimits,
) -> (r: Result<MarkdownSections, SkillParseError>)
    requires
        start_line + body@.len() <= usize::MAX,
    ensures
        match markdown_spec(body@, start_line, declared_view(declared@), *limits) {
            Ok((secs, links, diags, q)) => r matches Ok(m) && sections_view(m.instructions@) == secs
                && links_view(m.links@) == links && m.diagnostics@ == diags && m.quarantined == q
                && links_from_document(m.links@),
            Err(e) => r matches Err(f) && f == e,
        },
{
    if trim_text(body).unicode_len() == 0 {
        return Err(SkillParseError::EmptyDocument);
    }
    let cs = chars_of(body);
    let mut st = MdExec {
        sections: Vec::new(),
        links: Vec::new(),
        diags: Vec::new(),
        quarantined: false,
        seen: Vec::new(),
        heading: String::new(),
        level: 0,
        line: start_line,
        content: String::new(),
        saw: false,
    };
    proof {
        assert(st.view_state().sections =~= Seq::<SectionModel>::empty());
        assert(st.view_state().links =~= Seq::<LinkModel>::empty());
        assert(st.view_state().seen =~= Seq::<Seq<char>>::empty());
        assert(st.view_state() == md_init(start_line));
    }
    let ghost whole = md_from(cs@, 0, start_line as int, md_init(start_line), declared_view(declared@), *limits);
    let mut i: usize = 0;
    let mut line_no: usize = start_line;
    while i < cs.len()
        invariant
            cs@ == body@,
            i <= cs@.len(),
            line_no <= start_line + i,
            start_line + body@.len() <= usize::MAX,
            links_from_document(st.links@),
            whole == md_from(cs@, i as int, line_no as int, st.view_state(), declared_view(declared@), *limits),
            whole == md_from(cs@, 0, start_line as int, md_init(start_line), declared_view(declared@), *limits),
            trimmed(body@).len() != 0,
        decreases cs@.len() - i,
    {
        let e = line_end_at(&cs, i);
        proof {
            lemma_line_end(cs@, i as int);
        }
        let line = line_at(body, &cs, i, e);
        st = match md_step(st, line, line_no, declared, limits) {
            Ok(s2) => s2,
            Err(x) => {
                return Err(x);
            },
        };
        i = e;
        line_no = line_no + 1;
    }
    let MdExec { sections, links, diags, quarantined, seen: _, heading, level, line, content, saw: _ } = st;
    let (secs, diags, q) = finish_section(sections, diags, quarantined, heading, level, line, content, limits)?;
    Ok(MarkdownSections { instructions: secs, links, diagnostics: diags, quarantined: q })
}

/// A file supplied with a skill document.
#[derive(Debug, Clone, PartialEq, Eq)]
pub struct SkillFileInput {
    pub path: String,
    pub content: String,
}

/// A supplied file, returned as data with its declared role.
#[derive(Debug, Clone, PartialEq, Eq)]
pub struct SkillArtifact {
    pub path: String,
    pub role: SkillFileRole,
    pub content: String,
}

/// An artifact as the specifications see it.
pub struct ArtifactModel {
    pub path: Seq<char>,
    pub role: SkillFileRole,
    pub content: Seq<char>,
}

pub open spec fn artifacts_view(v: Seq<SkillArtifact>) -> Seq<ArtifactModel> {
    v.map_values(|a: SkillArtifact| ArtifactModel { path: a.path@, role: a.role, content: a.content@ })
}

/// Why the supplied files were refused.
pub enum ArtifactFault {
    DocumentConflict,
    Duplicate(Seq<char>),
    Undeclared(Seq<char>),
    Control,
    TooLarge(Seq<char>, usize),
    Missing(Seq<char>),
}

pub open spec fn fault_is(e: SkillParseError, f: ArtifactFault) -> bool {
    match f {
        ArtifactFault::DocumentConflict => e == SkillParseError::DocumentArtifactConflict,
        ArtifactFault::Duplicate(p) => e matches SkillParseError::DuplicateArtifact { path } && path@ == p,
        ArtifactFault::Undeclared(p) => e matches SkillParseError::UndeclaredArtifact { path } && path@ == p,
        ArtifactFault::Control => e == SkillParseError::InvalidControlCharacter { field: "artifact" },
        ArtifactFault::TooLarge(p, m) => e matches SkillParseError::ArtifactTooLarge { path, max } && path@ == p
            && max == m,
        ArtifactFault::Missing(p) => e matches SkillParseError::MissingArtifact { path } && path@ == p,
    }
}

/// The role a path is declared with: that of its last declaration.
pub open spec fn declared_role(declared: Seq<(Seq<char>, SkillFileRole)>, p: Seq<char>) -> Option<SkillFileRole>
    decreases declared.len(),
{
    if declared.len() == 0 {
        None
    } else if declared.last().0 == p {
        Some(declared.last().1)
    } else {
        declared_role(declared.drop_last(), p)
    }
}

/// The byte limit of an artifact of a role.
pub open spec fn role_limit(role: SkillFileRole, limits: SkillParserLimits) -> usize {
    match role {
        SkillFileRole::Script => limits.max_script_bytes,
        SkillFileRole::Template => limits.max_template_bytes,
        SkillFileRole::Reference => limits.max_reference_bytes,
        SkillFileRole::Test => limits.max_test_bytes,
        SkillFileRole::Instruction | SkillFileRole::Manifest => limits.max_artifact_bytes,
    }
}

/// Each role is held to its own limit: changing the script, template,
/// reference or test limit changes the limit of that role alone, and the
/// general artifact limit governs only instructions and manifests.
pub proof fn law_each_role_has_its_own_limit(role: SkillFileRole, limits: SkillParserLimits, x: usize)
    ensures
        role_limit(role, SkillParserLimits { max_script_bytes: x, ..limits }) == (if role
            == SkillFileRole::Script {
            x
        } else {
            role_limit(role, limits)
        }),
        role_limit(role, SkillParserLimits { max_template_bytes: x, ..limits }) == (if role
            == SkillFileRole::Template {
            x
        } else {
            role_limit(role, limits)
        }),
        role_limit(role, SkillParserLimits { max_reference_bytes: x, ..limits }) == (if role
            == SkillFileRole::Reference {
            x
        } else {
            role_limit(role, limits)
        }),
        role_limit(role, SkillParserLimits { max_test_bytes: x, ..limits }) == (if role
            == SkillFileRole::Test {
            x
        } else {
            role_limit(role, limits)
        }),
        role_limit(role, SkillParserLimits { max_artifact_bytes: x, ..limits }) == (if role
            == SkillFileRole::Instruction || role == SkillFileRole::Manifest {
            x
        } else {
            role_limit(role, limits)
        }),
{
}

pub fn artifact_limit(role: SkillFileRole, limits: &SkillParserLimits) -> (r: usize)
    ensures
        r == role_limit(role, *limits),
{
    match role {
        SkillFileRole::Script => limits.max_script_bytes,
        SkillFileRole::Template => limits.max_template_bytes,
        SkillFileRole::Reference => limits.max_reference_bytes,
        SkillFileRole::Test => limits.max_test_bytes,
        SkillFileRole::Instruction | SkillFileRole::Manifest => limits.max_artifact_bytes,
    }
}

/// `a` comes before `b` in code-point (and so UTF-8 byte) order.
pub open spec fn text_less(a: Seq<char>, b: Seq<char>) -> bool
    decreases a.len(),
{
    if a.len() == 0 {
        b.len() > 0
    } else if b.len() == 0 {
        false
    } else if a[0] != b[0] {
        (a[0] as u32) < (b[0] as u32)
    } else {
        text_less(a.drop_first(), b.drop_first())
    }
}

/// The first declared path, in path order, other than the document
/// itself, that was not supplied; declarations up to `n` are considered.
pub open spec fn first_missing(declared: Seq<(Seq<char>, SkillFileRole)>, supplied: Seq<Seq<char>>, n: int) -> Option<Seq<char>>
    decreases n,
{
    if n <= 0 || n > declared.len() {
        None
    } else {
        let p = declared[n - 1].0;
        let rest = first_missing(declared, supplied, n - 1);
        if p == "SKILL.md"@ || supplied.contains(p) {
            rest
        } else {
            match rest {
                Some(q) => if text_less(p, q) { Some(p) } else { Some(q) },
                None => Some(p),
            }
        }
    }
}

/// The artifacts of the supplied files from `i` on, after `seen` paths
/// and `acc` artifacts: no file may be the document, repeat a path, be
/// undeclared, hold a control character or exceed its role's limit; at
/// the end every declared file must have been supplied.
pub open spec fn artifacts_from(
    files: Seq<SkillFileInput>,
    i: int,
    declared: Seq<(Seq<char>, SkillFileRole)>,
    limits: SkillParserLimits,
    seen: Seq<Seq<char>>,
    acc: Seq<ArtifactModel>,
) -> Result<Seq<ArtifactModel>, ArtifactFault>
    decreases files.len() - i,
{
    if i < 0 || i >= files.len() {
        match first_missing(declared, seen, declared.len() as int) {
            Some(p) => Err(ArtifactFault::Missing(p)),
            None => Ok(acc),
        }
    } else {
        let f = files[i];
        if f.path@ == "SKILL.md"@ {
            Err(ArtifactFault::DocumentConflict)
        } else if seen.contains(f.path@) {
            Err(ArtifactFault::Duplicate(f.path@))
        } else {
            match declared_role(declared, f.path@) {
                None => Err(ArtifactFault::Undeclared(f.path@)),
                Some(role) => if has_forbidden_control(f.content@) {
                    Err(ArtifactFault::Control)
                } else if utf8_len(f.content@) > role_limit(role, limits) {
                    Err(ArtifactFault::TooLarge(f.path@, role_limit(role, limits)))
                } else {
                    artifacts_from(
                        files,
                        i + 1,
                        declared,
                        limits,
                        seen.push(f.path@),
                        acc.push(ArtifactModel { path: f.path@, role, content: f.content@ }),
                    )
                },
            }
        }
    }
}

fn role_of(declared: &Vec<(String, SkillFileRole)>, p: &str) -> (r: Option<SkillFileRole>)
    ensures
        r == declared_role(declared_view(declared@), p@),
{
    let ghost dv = declared_view(declared@);
    let mut n = declared.len();
    assert(declared_view(declared@).take(n as int) =~= declared_view(declared@));
    while n > 0
        invariant
            n <= declared_view(declared@).len(),
            declared_role(declared_view(declared@), p@) == declared_role(declared_view(declared@).take(n as int), p@),
        decreases n,
    {
        proof {
            assert(declared_view(declared@).take(n as int).drop_last() =~= declared_view(declared@).take(n - 1));
            assert(declared_view(declared@).take(n as int).last() == declared_view(declared@)[n - 1]);
        }
        assert(declared_view(declared@)[n - 1].0 == declared@[n - 1].0@);
        if same_text(declared[n - 1].0.as_str(), p) {
            return Some(declared[n - 1].1);
        }
        n = n - 1;
    }
    None
}

fn less_text(a: &str, b: &str) -> (r: bool)
    ensures
        r == text_less(a@, b@),
{
    let x = chars_of(a);
    let y = chars_of(b);
    let mut i: usize = 0;
    assert(x@.skip(0) =~= x@);
    assert(y@.skip(0) =~= y@);
    while i < x.len() && i < y.len() && x[i] == y[i]
        invariant
            x@ == a@,
            y@ == b@,
            i <= x@.len(),
            i <= y@.len(),
            text_less(a@, b@) == text_less(x@.skip(i as int), y@.skip(i as int)),
        decreases x@.len() - i,
    {
        proof {
            assert(x@.skip(i as int).drop_first() =~= x@.skip(i + 1));
            assert(y@.skip(i as int).drop_first() =~= y@.skip(i + 1));
        }
        i = i + 1;
    }
    let ghost xs = x@.skip(i as int);
    let ghost ys = y@.skip(i as int);
    if i == x.len() {
        assert(xs.len() == 0);
        i < y.len()
    } else if i == y.len() {
        false
    } else {
        assert(xs[0] == x@[i as int] && ys[0] == y@[i as int]);
        (x[i] as u32) < (y[i] as u32)
    }
}

/// Reads the supplied files as artifacts of their declared roles.
pub fn parse_artifacts(
    files: &Vec<SkillFileInput>,
    declared: &Vec<(String, SkillFileRole)>,
    limits: &SkillParserLimits,
) -> (r: Result<Vec<SkillArtifact>, SkillParseError>)
    ensures
        match artifacts_from(files@, 0, declared_view(declared@), *limits, Seq::empty(), Seq::empty()) {
            Ok(v) => r matches Ok(a) && artifacts_view(a@) == v,
            Err(f) => r matches Err(e) && fault_is(e, f),
        },
{
    let mut seen: Vec<String> = Vec::new();
    let mut out: Vec<SkillArtifact> = Vec::new();
    let ghost whole = artifacts_from(files@, 0, declared_view(declared@), *limits, Seq::empty(), Seq::empty());
    proof {
        assert(seen@.map_values(|k: String| k@) =~= Seq::<Seq<char>>::empty());
        assert(artifacts_view(out@) =~= Seq::<ArtifactModel>::empty());
    }
    let mut i: usize = 0;
    while i < files.len()
        invariant
            i <= files@.len(),
            whole == artifacts_from(files@, 0, declared_view(declared@), *limits, Seq::empty(), Seq::empty()),
            whole == artifacts_from(files@, i as int, declared_view(declared@), *limits, seen@.map_values(|k: String| k@), artifacts_view(out@)),
        decreases files@.len() - i,
    {
        let f = &files[i];
        if same_text(f.path.as_str(), "SKILL.md") {
            return Err(SkillParseError::DocumentArtifactConflict);
        }
        if seen_contains(&seen, f.path.as_str()) {
            return Err(SkillParseError::DuplicateArtifact { path: f.path.clone() });
        }
        let role = match role_of(declared, f.path.as_str()) {
            Some(role) => role,
            None => {
                return Err(SkillParseError::UndeclaredArtifact { path: f.path.clone() });
            },
        };
        if let Err(e) = reject_control_characters(f.content.as_str(), "artifact") {
            return Err(e);
        }
        let max = artifact_limit(role, limits);
        if text_len(f.content.as_str()) > max {
            return Err(SkillParseError::ArtifactTooLarge { path: f.path.clone(), max });
        }
        let ghost s0 = seen@;
        let ghost o0 = out@;
        seen.push(f.path.clone());
        out.push(SkillArtifact { path: f.path.clone(), role, content: f.content.clone() });
        proof {
            assert(seen@.map_values(|k: String| k@) =~= s0.map_values(|k: String| k@).push(f.path@));
            assert(artifacts_view(out@) =~= artifacts_view(o0).push(ArtifactModel { path: f.path@, role, content: f.content@ }));
        }
        i = i + 1;
    }
    let ghost sv = seen@.map_values(|k: String| k@);
    let mut best: Option<usize> = None;
    let mut n: usize = 0;
    while n < declared.len()
        invariant
            n <= declared_view(declared@).len(),
            sv == seen@.map_values(|k: String| k@),
            match first_missing(declared_view(declared@), sv, n as int) {
                Some(p) => best matches Some(b) && b < n && declared@[b as int].0@ == p,
                None => best is None,
            },
        decreases declared_view(declared@).len() - n,
    {
        let p = declared[n].0.as_str();
        assert(declared_view(declared@)[n as int].0 == p@);
        if !same_text(p, "SKILL.md") && !seen_contains(&seen, p) {
            best = match best {
                Some(b) => if less_text(p, declared[b].0.as_str()) {
                    Some(n)
                } else {
                    Some(b)
                },
                None => Some(n),
            };
        }
        n = n + 1;
    }
    match best {
        Some(b) => Err(SkillParseError::MissingArtifact { path: declared[b].0.clone() }),
        None => Ok(out),
    }
}

/// The role a manifest names.
pub open spec fn role_named(r: Seq<char>) -> Option<SkillFileRole> {
    if r == "instruction"@ {
        Some(SkillFileRole::Instruction)
    } else if r == "script"@ {
        Some(SkillFileRole::Script)
    } else if r == "template"@ {
        Some(SkillFileRole::Template)
    } else if r == "reference"@ {
        Some(SkillFileRole::Reference)
    } else if r == "test"@ {
        Some(SkillFileRole::Test)
    } else if r == "manifest"@ {
        Some(SkillFileRole::Manifest)
    } else {
        None
    }
}

/// The name a manifest writes for each role: its snake_case name.
pub open spec fn role_manifest_name(role: SkillFileRole) -> Seq<char> {
    match role {
        SkillFileRole::Instruction => "instruction"@,
        SkillFileRole::Script => "script"@,
        SkillFileRole::Template => "template"@,
        SkillFileRole::Reference => "reference"@,
        SkillFileRole::Test => "test"@,
        SkillFileRole::Manifest => "manifest"@,
    }
}

/// Reading a role is pinned to its name: the role read from each role's
/// own name is that role, so a declared file keeps the role its manifest
/// names (and with it the size limit of that role).
pub proof fn law_role_read_from_its_name(role: SkillFileRole)
    ensures
        role_named(role_manifest_name(role)) == Some(role),
{
    reveal_strlit("instruction");
    reveal_strlit("script");
    reveal_strlit("template");
    reveal_strlit("reference");
    reveal_strlit("test");
    reveal_strlit("manifest");
    let (i, sc, te, re, ts) = ("instruction"@, "script"@, "template"@, "reference"@, "test"@);
    assert(i[0] != sc[0] && i[0] != te[0] && i[0] != re[0] && i[0] != ts[0]);
    assert(sc[0] != te[0] && sc[0] != re[0] && sc[0] != ts[0]);
    assert(te[0] != re[0] && re[0] != ts[0] && te.len() != ts.len());
}

fn role_from_name(r: &str) -> (res: Option<SkillFileRole>)
    ensures
        res == role_named(r@),
{
    if same_text(r, "instruction") {
        Some(SkillFileRole::Instruction)
    } else if same_text(r, "script") {
        Some(SkillFileRole::Script)
    } else if same_text(r, "template") {
        Some(SkillFileRole::Template)
    } else if same_text(r, "reference") {
        Some(SkillFileRole::Reference)
    } else if same_text(r, "test") {
        Some(SkillFileRole::Test)
    } else if same_text(r, "manifest") {
        Some(SkillFileRole::Manifest)
    } else {
        None
    }
}

/// The index of the first member of an object named `key`, from `i` on.
pub open spec fn key_index(es: Seq<(String, JsonValue)>, key: Seq<char>, i: int) -> Option<int>
    decreases es.len() - i,
{
    if i < 0 || i >= es.len() {
        None
    } else if es[i].0@ == key {
        Some(i)
    } else {
        key_index(es, key, i + 1)
    }
}

fn find_key(es: &Vec<(String, JsonValue)>, key: &str) -> (r: Option<usize>)
    ensures
        match key_index(es@, key@, 0) {
            Some(k) => r matches Some(j) && j == k,
            None => r is None,
        },
        r matches Some(j) ==> j < es@.len(),
{
    let mut i: usize = 0;
    while i < es.len()
        invariant
            i <= es@.len(),
            key_index(es@, key@, 0) == key_index(es@, key@, i as int),
        decreases es@.len() - i,
    {
        if same_text(es[i].0.as_str(), key) {
            return Some(i);
        }
        i = i + 1;
    }
    None
}

/// A declared file of the manifest: an object whose `path` is a string
/// and whose `role` names a role.
pub open spec fn file_entry(v: JsonValue) -> Option<(Seq<char>, SkillFileRole)> {
    match v {
        JsonValue::Object(fs) => match (key_index(fs@, "path"@, 0), key_index(fs@, "role"@, 0)) {
            (Some(a), Some(b)) => match (fs@[a].1, fs@[b].1) {
                (JsonValue::Str(p), JsonValue::Str(r)) => match role_named(r@) {
                    Some(role) => Some((p@, role)),
                    None => None,
                },
                _ => None,
            },
            _ => None,
        },
        _ => None,
    }
}

pub open spec fn file_entries(items: Seq<JsonValue>, n: int) -> Option<Seq<(Seq<char>, SkillFileRole)>>
    decreases n,
{
    if n <= 0 || n > items.len() {
        Some(Seq::empty())
    } else {
        match (file_entries(items, n - 1), file_entry(items[n - 1])) {
            (Some(v), Some(e)) => Some(v.push(e)),
            _ => None,
        }
    }
}

proof fn lemma_entries_none(items: Seq<JsonValue>, j: int, n: int)
    requires
        1 <= j <= n <= items.len(),
        file_entries(items, j) is None,
    ensures
        file_entries(items, n) is None,
    decreases n - j,
{
    if j < n {
        lemma_entries_none(items, j + 1, n);
    }
}

/// The files a frontmatter object declares under `files` (none when it
/// has no such member); `None` when the frontmatter is not an object or
/// the list is malformed.
pub open spec fn files_of(v: JsonValue) -> Option<Seq<(Seq<char>, SkillFileRole)>> {
    match v {
        JsonValue::Object(es) => match key_index(es@, "files"@, 0) {
            None => Some(Seq::empty()),
            Some(k) => match es@[k].1 {
                JsonValue::Array(items) => file_entries(items@, items@.len() as int),
                _ => None,
            },
        },
        _ => None,
    }
}

fn entry_of(v: &JsonValue) -> (r: Option<(String, SkillFileRole)>)
    ensures
        match file_entry(*v) {
            Some((p, role)) => r matches Some((ps, rr)) && ps@ == p && rr == role,
            None => r is None,
        },
{
    match v {
        JsonValue::Object(fs) => {
            let a = find_key(fs, "path");
            let b = find_key(fs, "role");
            match (a, b) {
                (Some(a), Some(b)) => match (&fs[a].1, &fs[b].1) {
                    (JsonValue::Str(p), JsonValue::Str(r)) => match role_from_name(r.as_str()) {
                        Some(role) => Some((p.clone(), role)),
                        None => None,
                    },
                    _ => None,
                },
                _ => None,
            }
        },
        _ => None,
    }
}

/// The files a frontmatter declares; a malformed list is a malformed
/// frontmatter (reported at line zero, as a value-level error is).
pub fn declared_files(v: &JsonValue) -> (r: Result<Vec<(String, SkillFileRole)>, SkillParseError>)
    ensures
        match files_of(*v) {
            Some(d) => r matches Ok(ds) && declared_view(ds@) == d,
            None => r matches Err(e) && e == SkillParseError::MalformedFrontmatter { line: 0 },
        },
{
    let malformed = SkillParseError::MalformedFrontmatter { line: 0 };
    match v {
        JsonValue::Object(es) => {
            let k = match find_key(es, "files") {
                None => {
                    let d: Vec<(String, SkillFileRole)> = Vec::new();
                    assert(declared_view(d@) =~= Seq::<(Seq<char>, SkillFileRole)>::empty());
                    return Ok(d);
                },
                Some(k) => k,
            };
            match &es[k].1 {
                JsonValue::Array(items) => {
                    assert(files_of(*v) == file_entries(items@, items@.len() as int));
                    let mut out: Vec<(String, SkillFileRole)> = Vec::new();
                    let mut i: usize = 0;
                    assert(declared_view(out@) =~= Seq::<(Seq<char>, SkillFileRole)>::empty());
                    while i < items.len()
                        invariant
                            i <= items@.len(),
                            files_of(*v) == file_entries(items@, items@.len() as int),
                            file_entries(items@, i as int) == Some(declared_view(out@)),
                        decreases items@.len() - i,
                    {
                        match entry_of(&items[i]) {
                            Some(e) => {
                                let ghost o0 = out@;
                                out.push(e);
                                assert(declared_view(out@) =~= declared_view(o0).push((out@.last().0@, out@.last().1)));
                            },
                            None => {
                                proof {
                                    assert(file_entries(items@, i as int + 1) is None);
                                    lemma_entries_none(items@, i as int + 1, items@.len() as int);
                                }
                                return Err(SkillParseError::MalformedFrontmatter { line: 0 });
                            },
                        }
                        i = i + 1;
                    }
                    Ok(out)
                },
                _ => Err(malformed),
            }
        },
        _ => Err(malformed),
    }
}

/// A skill package to parse: the document and its files, as data.
#[derive(Debug, Clone, PartialEq, Eq)]
pub struct SkillParseRequest {
    pub document: String,
    pub files: Vec<SkillFileInput>,
    pub project_id: Option<crate::ids::ProjectId>,
}

/// What the parser returns: the frontmatter value and the files it
/// declares, the untrusted instructions, artifacts as data, links,
/// diagnostics, quarantine, and bounded provenance counts.
#[derive(Debug)]
pub struct ParsedSkill {
    pub frontmatter: JsonValue,
    pub declared: Vec<(String, SkillFileRole)>,
    pub instructions: Vec<SkillInstructionSection>,
    pub artifacts: Vec<SkillArtifact>,
    pub links: Vec<SkillLink>,
    pub diagnostics: Vec<SkillDiagnostic>,
    pub quarantined: bool,
    pub schema_version: u32,
    pub document_bytes: usize,
    pub artifact_count: usize,
    pub diagnostics_count: usize,
}

/// A parse as the specifications see it.
pub struct ParsedModel {
    pub frontmatter: JsonValue,
    pub declared: Seq<(Seq<char>, SkillFileRole)>,
    pub sections: Seq<SectionModel>,
    pub artifacts: Seq<ArtifactModel>,
    pub links: Seq<LinkModel>,
    pub diags: Seq<SkillDiagnostic>,
    pub quarantined: bool,
    pub document_bytes: usize,
}

/// Why a parse failed: an error with no path, or a refused file.
pub enum ParseFault {
    Plain(SkillParseError),
    Artifact(ArtifactFault),
}

pub open spec fn fault_matches(e: SkillParseError, f: ParseFault) -> bool {
    match f {
        ParseFault::Plain(p) => e == p,
        ParseFault::Artifact(a) => fault_is(e, a),
    }
}

pub open spec fn parsed_matches(p: ParsedSkill, m: ParsedModel) -> bool {
    &&& p.frontmatter == m.frontmatter
    &&& declared_view(p.declared@) == m.declared
    &&& sections_view(p.instructions@) == m.sections
    &&& artifacts_view(p.artifacts@) == m.artifacts
    &&& links_view(p.links@) == m.links
    &&& links_from_document(p.links@)
    &&& p.diagnostics@ == m.diags
    &&& p.quarantined == m.quarantined
    &&& p.schema_version == SKILL_PARSER_SCHEMA_VERSION
    &&& p.document_bytes == m.document_bytes
    &&& p.artifact_count == m.artifacts.len()
    &&& p.diagnostics_count == m.diags.len()
}

/// What follows the frontmatter's JSON: it must nest within the depth
/// limit and declare its files well; then the body's instructions and the
/// supplied artifacts are read against those files.
pub open spec fn value_spec(
    limits: SkillParserLimits,
    body: Seq<char>,
    body_line: usize,
    files: Seq<SkillFileInput>,
    document_bytes: usize,
    v: JsonValue,
) -> Result<ParsedModel, ParseFault> {
    if !depth_within(v, 1, limits.max_json_depth as int) {
        Err(ParseFault::Plain(SkillParseError::FrontmatterTooDeep { max: limits.max_json_depth }))
    } else {
        match files_of(v) {
            None => Err(ParseFault::Plain(SkillParseError::MalformedFrontmatter { line: 0 })),
            Some(d) => match markdown_spec(body, body_line, d, limits) {
                Err(e) => Err(ParseFault::Plain(e)),
                Ok((secs, links, diags, q)) => match artifacts_from(files, 0, d, limits, Seq::empty(), Seq::empty()) {
                    Err(f) => Err(ParseFault::Artifact(f)),
                    Ok(arts) => Ok(
                        ParsedModel {
                            frontmatter: v,
                            declared: d,
                            sections: secs,
                            artifacts: arts,
                            links,
                            diags,
                            quarantined: q,
                            document_bytes,
                        },
                    ),
                },
            },
        }
    }
}

/// The frontmatter text of a document, when it has one.
pub open spec fn frontmatter_of(doc: Seq<char>) -> Seq<char> {
    match frontmatter_spec(doc) {
        Ok((f, _, _)) => f,
        Err(_) => Seq::empty(),
    }
}

/// A whole parse, given what the JSON reader makes of the frontmatter: the
/// document must fit its byte limit, hold no control character but line
/// ends and tabs, and have a frontmatter within its own limit that reads as
/// JSON; the rest is `value_spec`.
pub open spec fn parse_spec(
    limits: SkillParserLimits,
    doc: Seq<char>,
    files: Seq<SkillFileInput>,
    json: Result<JsonValue, usize>,
) -> Result<ParsedModel, ParseFault> {
    let bytes = utf8_len(doc);
    if bytes > limits.max_document_bytes {
        Err(ParseFault::Plain(SkillParseError::DocumentTooLarge { actual: bytes as usize, max: limits.max_document_bytes }))
    } else if has_forbidden_control(doc) {
        Err(ParseFault::Plain(SkillParseError::InvalidControlCharacter { field: "document" }))
    } else {
        match frontmatter_spec(doc) {
            Err(e) => Err(ParseFault::Plain(e)),
            Ok((f, b, l)) => if utf8_len(f) > limits.max_frontmatter_bytes {
                Err(ParseFault::Plain(SkillParseError::FrontmatterTooLarge { actual: utf8_len(f) as usize, max: limits.max_frontmatter_bytes }))
            } else {
                match json {
                    Err(line) => Err(ParseFault::Plain(SkillParseError::MalformedFrontmatter { line })),
                    Ok(v) => value_spec(limits, doc.subrange(b, doc.len() as int), l as usize, files, bytes as usize, v),
                }
            },
        }
    }
}

proof fn lemma_scan_bounds(s: Seq<char>, first_end: int, off: int, count: int)
    requires
        0 <= first_end <= off,
        0 <= count <= off,
    ensures
        scan_frontmatter(s, first_end, off, count) matches Ok((f, b, l)) ==> off < b <= s.len()
            && l <= b + 2 && f == s.subrange(first_end, b - (b - first_end - f.len())) && first_end <= b,
    decreases s.len() - off,
{
    if 0 <= off < s.len() {
        lemma_line_end(s, off);
        let e = line_end(s, off);
        if !is_delimiter(s.subrange(off, e)) {
            lemma_scan_bounds(s, first_end, e, count + 1);
        }
    }
}

/// The skill parser, with its limits.
#[derive(Debug, Clone, Copy)]
pub struct SkillParser {
    limits: SkillParserLimits,
}

impl SkillParser {
    pub fn new(limits: SkillParserLimits) -> (r: Self)
        ensures
            r.limits_view() == limits,
    {
        SkillParser { limits }
    }

    pub closed spec fn limits_view(&self) -> SkillParserLimits {
        self.limits
    }

    /// The parser's limits.
    pub fn limits(&self) -> (r: &SkillParserLimits)
        ensures
            *r == self.limits_view(),
    {
        &self.limits
    }

    /// What follows the frontmatter's JSON value, for a body that starts
    /// at `body_line`.
    pub fn parse_frontmatter_value(
        &self,
        body: &str,
        body_line: usize,
        files: &Vec<SkillFileInput>,
        document_bytes: usize,
        value: JsonValue,
    ) -> (r: Result<ParsedSkill, SkillParseError>)
        requires
            body_line + body@.len() <= usize::MAX,
        ensures
            match value_spec(self.limits_view(), body@, body_line, files@, document_bytes, value) {
                Ok(m) => r matches Ok(p) && parsed_matches(p, m),
                Err(f) => r matches Err(e) && fault_matches(e, f),
            },
    {
        if !json_depth_within(&value, self.limits.max_json_depth) {
            return Err(SkillParseError::FrontmatterTooDeep { max: self.limits.max_json_depth });
        }
        let declared = declared_files(&value)?;
        let markdown = parse_markdown(body, body_line, &declared, &self.limits)?;
        let artifacts = parse_artifacts(files, &declared, &self.limits)?;
        let artifact_count = artifacts.len();
        let diagnostics_count = markdown.diagnostics.len();
        Ok(ParsedSkill {
            frontmatter: value,
            declared,
            instructions: markdown.instructions,
            artifacts,
            links: markdown.links,
            diagnostics: markdown.diagnostics,
            quarantined: markdown.quarantined,
            schema_version: SKILL_PARSER_SCHEMA_VERSION,
            document_bytes,
            artifact_count,
            diagnostics_count,
        })
    }

    /// Parses a skill package.
    pub fn parse(&self, request: &SkillParseRequest) -> (r: Result<ParsedSkill, SkillParseError>)
        requires
            request.document@.len() + 3 <= usize::MAX,
        ensures
            match parse_spec(self.limits_view(), request.document@, request.files@, json_parse(frontmatter_of(request.document@))) {
                Ok(m) => r matches Ok(p) && parsed_matches(p, m),
                Err(f) => r matches Err(e) && fault_matches(e, f),
            },
    {
        let doc = request.document.as_str();
        let document_bytes = text_len(doc);
        if document_bytes > self.limits.max_document_bytes {
            return Err(SkillParseError::DocumentTooLarge { actual: document_bytes, max: self.limits.max_document_bytes });
        }
        reject_control_characters(doc, "document")?;
        let (frontmatter, body_start, body_line) = split_frontmatter(doc)?;
        proof {
            lemma_line_end(doc@, 0);
            lemma_scan_bounds(doc@, line_end(doc@, 0), line_end(doc@, 0), 0);
        }
        let frontmatter_bytes = text_len(frontmatter.as_str());
        if frontmatter_bytes > self.limits.max_frontmatter_bytes {
            return Err(SkillParseError::FrontmatterTooLarge { actual: frontmatter_bytes, max: self.limits.max_frontmatter_bytes });
        }
        let value = match json_value(frontmatter.as_str()) {
            Ok(v) => v,
            Err(line) => {
                return Err(SkillParseError::MalformedFrontmatter { line });
            },
        };
        let n = doc.unicode_len();
        let body = doc.substring_char(body_start, n);
        self.parse_frontmatter_value(body, body_line, &request.files, document_bytes, value)
    }
}

} // verus!
