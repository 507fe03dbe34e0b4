//! Outside types that values of the library carry without looking inside,
//! and the clock.

use vstd::prelude::*;
use vstd::utf8::encode_utf8;

verus! {

/// A JSON document (`serde_json::Value`), carried as is.
#[verifier::external_type_specification]
#[verifier::external_body]
pub struct ExJsonValue(serde_json::Value);

/// A file-system path (`std::path::PathBuf`), carried as is.
#[verifier::external_type_specification]
#[verifier::external_body]
pub struct ExPathBuf(std::path::PathBuf);

/// `PathBuf::new`: an empty path. Nothing about it is read by the library.
#[verifier::external_body]
pub fn empty_path() -> std::path::PathBuf {
    std::path::PathBuf::new()
}

/// `chrono::Utc::now().timestamp_millis()`: milliseconds since the Unix
/// epoch. The value depends on the clock, so nothing is promised of it.
#[verifier::external_body]
pub fn now_millis() -> i64 {
    chrono::Utc::now().timestamp_millis()
}


/// `uuid::Uuid::new_v4().to_string()`: a fresh random identifier in the
/// hyphenated form, 36 characters long. Which identifier comes out is
/// chance, so nothing more is promised of it.
#[verifier::external_body]
pub fn new_task_id() -> (r: String)
    ensures
        r@.len() == 36,
{
    uuid::Uuid::new_v4().to_string()
}


/// The text that `serde_json` pretty-prints for the JSON document `s`, or
/// `None` when `s` is not JSON.
pub uninterp spec fn json_pretty_text(s: Seq<char>) -> Option<Seq<char>>;

/// Parses `s` with `serde_json::from_str` and prints it again with
/// `serde_json::to_string_pretty`; `None` when either step fails.
#[verifier::external_body]
pub fn json_pretty(s: &str) -> (r: Option<String>)
    ensures
        match r {
            Some(t) => json_pretty_text(s@) == Some(t@),
            None => json_pretty_text(s@) is None,
        },
{
    match serde_json::from_str::<serde_json::Value>(s) {
        Ok(v) => serde_json::to_string_pretty(&v).ok(),
        Err(_) => None,
    }
}

/// An HTTP client (`reqwest::Client`), carried as is.
#[verifier::external_type_specification]
#[verifier::external_body]
pub struct ExHttpClient(reqwest::Client);

/// `reqwest::Client::builder().timeout(..).build()` with a timeout of
/// `timeout_secs` seconds, or the default client when building fails.
/// Nothing about the client is read by the library.
#[verifier::external_body]
pub fn build_http_client(timeout_secs: u64) -> reqwest::Client {
    reqwest::Client::builder()
        .timeout(std::time::Duration::from_secs(timeout_secs))
        .build()
        .unwrap_or_default()
}

/// What a line of a line diff does.
#[derive(Clone, Copy, PartialEq, Eq, Structural)]
pub enum LineChangeKind {
    Delete,
    Insert,
    Equal,
}

/// The changes that `similar::TextDiff::from_lines` finds for turning
/// `old` into `new`, in order, each with its kind and its `Debug` text.
pub uninterp spec fn line_changes_of(old: Seq<char>, new: Seq<char>) -> Seq<(LineChangeKind, Seq<char>)>;

/// `similar::TextDiff::from_lines(old, new).iter_all_changes()`, each
/// change given by its tag and its `Debug` text.
#[verifier::external_body]
pub fn line_changes(old: &str, new: &str) -> (r: Vec<(LineChangeKind, String)>)
    ensures
        r@.map_values(|c: (LineChangeKind, String)| (c.0, c.1@)) == line_changes_of(old@, new@),
{
    similar::TextDiff::from_lines(old, new)
        .iter_all_changes()
        .map(|c| (match c.tag() {
            similar::ChangeTag::Delete => LineChangeKind::Delete,
            similar::ChangeTag::Insert => LineChangeKind::Insert,
            similar::ChangeTag::Equal => LineChangeKind::Equal,
        }, format!("{:?}", c)))
        .collect()
}

/// A compiled glob pattern (`glob::Pattern`), carried as is.
#[verifier::external_type_specification]
#[verifier::external_body]
pub struct ExGlobPattern(glob::Pattern);

/// Whether `glob::Pattern::new` accepts the pattern text `p`.
pub uninterp spec fn glob_compiles(p: Seq<char>) -> bool;

/// Whether the glob pattern with text `p` matches the path text `s`.
pub uninterp spec fn glob_match(p: Seq<char>, s: Seq<char>) -> bool;

/// The text of the error that `glob::Pattern::new` reports for the pattern
/// text `p`.
pub uninterp spec fn glob_error_text(p: Seq<char>) -> Seq<char>;

/// A glob pattern together with the text it was compiled from. Only
/// `glob_compile` makes one, so the two always belong together.
pub struct GlobPattern {
    source: String,
    compiled: glob::Pattern,
}

impl GlobPattern {
    /// The text the pattern was compiled from.
    pub closed spec fn source(&self) -> Seq<char> {
        self.source@
    }
}

/// `glob::Pattern::new`: the compiled pattern, or the error's text.
#[verifier::external_body]
pub fn glob_compile(p: &str) -> (r: Result<GlobPattern, String>)
    ensures
        r is Ok == glob_compiles(p@),
        r matches Ok(g) ==> g.source() == p@,
        r matches Err(e) ==> e@ == glob_error_text(p@),
{
    match glob::Pattern::new(p) {
        Ok(compiled) => Ok(GlobPattern { source: p.to_string(), compiled }),
        Err(e) => Err(e.to_string()),
    }
}

/// `glob::Pattern::matches`.
#[verifier::external_body]
pub fn glob_matches(g: &GlobPattern, s: &str) -> (r: bool)
    ensures
        r == glob_match(g.source(), s@),
{
    g.compiled.matches(s)
}

/// A compiled regular expression (`regex::Regex`), carried as is.
#[verifier::external_type_specification]
#[verifier::external_body]
pub struct ExRegex(regex::Regex);

/// Whether `regex::Regex::new` accepts the pattern text `p`.
pub uninterp spec fn regex_compiles(p: Seq<char>) -> bool;

/// Whether the regular expression with text `p` matches somewhere in `s`.
pub uninterp spec fn regex_match(p: Seq<char>, s: Seq<char>) -> bool;

/// The text of the first capture group of the first match of the regular
/// expression `p` in `s`, if there is a match and the group took part.
pub uninterp spec fn regex_group1(p: Seq<char>, s: Seq<char>) -> Option<Seq<char>>;

/// The text of the error that `regex::Regex::new` reports for the pattern
/// text `p`.
pub uninterp spec fn regex_error_text(p: Seq<char>) -> Seq<char>;

/// A regular expression together with the text it was compiled from.
/// Only `regex_compile` makes one, so the two always belong together.
pub struct RegexPattern {
    source: String,
    compiled: regex::Regex,
}

impl RegexPattern {
    /// The text the expression was compiled from.
    pub closed spec fn source(&self) -> Seq<char> {
        self.source@
    }
}

/// `regex::Regex::new`: the compiled expression, or the error's text.
#[verifier::external_body]
pub fn regex_compile(p: &str) -> (r: Result<RegexPattern, String>)
    ensures
        r is Ok == regex_compiles(p@),
        r matches Ok(g) ==> g.source() == p@,
        r matches Err(e) ==> e@ == regex_error_text(p@),
{
    match regex::Regex::new(p) {
        Ok(compiled) => Ok(RegexPattern { source: p.to_string(), compiled }),
        Err(e) => Err(e.to_string()),
    }
}

/// `regex::Regex::is_match`.
#[verifier::external_body]
pub fn regex_is_match(g: &RegexPattern, s: &str) -> (r: bool)
    ensures
        r == regex_match(g.source(), s@),
{
    g.compiled.is_match(s)
}

/// `regex::Regex::captures`, then the text of group 1.
#[verifier::external_body]
pub fn regex_capture1(g: &RegexPattern, s: &str) -> (r: Option<String>)
    ensures
        match r {
            Some(t) => regex_group1(g.source(), s@) == Some(t@),
            None => regex_group1(g.source(), s@) is None,
        },
{
    g.compiled.captures(s).and_then(|c| c.get(1).map(|m| m.as_str().to_string()))
}

/// A byte that URL encoding leaves as it is: an ASCII letter or digit,
/// '-', '.', '_' or '~'.
pub open spec fn url_safe(b: u8) -> bool {
    ||| 0x30 <= b <= 0x39
    ||| 0x41 <= b <= 0x5a
    ||| 0x61 <= b <= 0x7a
    ||| b == 0x2d
    ||| b == 0x2e
    ||| b == 0x5f
    ||| b == 0x7e
}

/// The upper-case hexadecimal digit of a value below 16.
pub open spec fn hex_digit(d: u8) -> char {
    if d < 10 {
        (d + 0x30) as char
    } else {
        (d + 0x37) as char
    }
}

/// Percent-encoding of a byte sequence: each byte that is not `url_safe`
/// becomes '%' followed by its two upper-case hexadecimal digits.
pub open spec fn percent_encoded(bytes: Seq<u8>) -> Seq<char>
    decreases bytes.len(),
{
    if bytes.len() == 0 {
        seq![]
    } else {
        let b = bytes[0];
        (if url_safe(b) {
            seq![b as char]
        } else {
            seq!['%', hex_digit(b / 16), hex_digit(b % 16)]
        }) + percent_encoded(bytes.drop_first())
    }
}

/// `urlencoding::encode`: the UTF-8 bytes of `s`, percent-encoded.
#[verifier::external_body]
pub fn url_encode(s: &str) -> (r: String)
    ensures
        r@ == percent_encoded(encode_utf8(s@)),
{
    urlencoding::encode(s).into_owned()
}

} // verus!
