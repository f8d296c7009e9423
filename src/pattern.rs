//! Regular expressions, compiled and run by the `regex` crate.
use vstd::prelude::*;

verus! {

#[verifier::external_type_specification]
#[verifier::external_body]
pub struct ExRegex(regex::Regex);

#[verifier::external_type_specification]
#[verifier::external_body]
pub struct ExRegexError(regex::Error);

/// Whether `regex::Regex::new` accepts a pattern.
pub uninterp spec fn pattern_valid(p: Seq<char>) -> bool;

/// Text of capture group `g` in the leftmost match of pattern `p` in `t`, as
/// `regex::Regex::captures` finds it; `None` when nothing matches or the
/// group took no part in the match.
pub uninterp spec fn first_capture(p: Seq<char>, t: Seq<char>, g: nat) -> Option<Seq<char>>;

/// Texts of capture group `g` over the successive non-overlapping matches
/// of pattern `p` in `t`, as `regex::Regex::captures_iter` yields them;
/// `None` for a match where the group took no part.
pub uninterp spec fn all_captures(p: Seq<char>, t: Seq<char>, g: nat) -> Seq<Option<Seq<char>>>;

pub open spec fn opt_view(o: Option<String>) -> Option<Seq<char>> {
    match o {
        Some(s) => Some(s@),
        None => None,
    }
}

/// Whether pattern `p` matches somewhere in `t`, as `regex::Regex::is_match`
/// decides it.
pub uninterp spec fn pattern_matches(p: Seq<char>, t: Seq<char>) -> bool;

/// `t` with every non-overlapping match of pattern `p` replaced by `r`,
/// `$` references expanded, as `regex::Regex::replace_all` computes it.
pub uninterp spec fn replaced_all(p: Seq<char>, t: Seq<char>, r: Seq<char>) -> Seq<char>;

/// The number of successive non-overlapping matches of pattern `p` in `t`,
/// as `regex::Regex::find_iter` yields them.
pub uninterp spec fn match_count(p: Seq<char>, t: Seq<char>) -> nat;

/// A pattern that was rejected.
#[derive(Debug, Clone, Copy, PartialEq, Eq, Structural)]
pub enum PatternError {
    Invalid,
}

/// A compiled regular expression together with its source text.  The only
/// way to build one is `Pattern::new`, so `re` is always compiled from
/// `source`.
pub struct Pattern {
    source: String,
    re: regex::Regex,
}

/// Relies on `regex::Regex::new`: compiles a pattern, and fails exactly on
/// the patterns it rejects.
#[verifier::external_body]
fn compile(p: &str) -> (r: Result<regex::Regex, regex::Error>)
    ensures
        r is Ok <==> pattern_valid(p@),
{
    regex::Regex::new(p)
}

/// Relies on `regex::Regex::captures` and `Captures::get`: group `g` of the
/// leftmost match.
#[verifier::external_body]
fn captures_group(pat: &Pattern, t: &str, g: usize) -> (r: Option<String>)
    ensures
        r matches Some(s) ==> first_capture(pat.view(), t@, g as nat) == Some(s@),
        r is None ==> first_capture(pat.view(), t@, g as nat) is None,
{
    pat.re.captures(t).and_then(|c| c.get(g)).map(|m| m.as_str().to_string())
}

/// Relies on `regex::Regex::captures_iter` and `Captures::get`: group `g`
/// of each successive match.
#[verifier::external_body]
fn captures_all(pat: &Pattern, t: &str, g: usize) -> (r: Vec<Option<String>>)
    ensures
        r@.map_values(|s: Option<String>| opt_view(s)) == all_captures(pat.view(), t@, g as nat),
{
    pat.re.captures_iter(t).map(|c| c.get(g).map(|m| m.as_str().to_string())).collect()
}

/// Relies on `regex::Regex::is_match`.
#[verifier::external_body]
fn is_match(pat: &Pattern, t: &str) -> (r: bool)
    ensures
        r == pattern_matches(pat.view(), t@),
{
    pat.re.is_match(t)
}

/// Relies on `regex::Regex::replace_all`.
#[verifier::external_body]
fn replace_all_matches(pat: &Pattern, t: &str, r: &str) -> (out: String)
    ensures
        out@ == replaced_all(pat.view(), t@, r@),
{
    pat.re.replace_all(t, r).into_owned()
}

/// Relies on `regex::Regex::find_iter`: how many matches it yields.
#[verifier::external_body]
fn count_matches_of(pat: &Pattern, t: &str) -> (n: usize)
    ensures
        n as nat == match_count(pat.view(), t@),
{
    pat.re.find_iter(t).count()
}

impl View for Pattern {
    type V = Seq<char>;

    closed spec fn view(&self) -> Seq<char> {
        self.source@
    }
}

impl Pattern {
    /// Compiles `p`; fails exactly when the pattern is not valid.
    pub fn new(p: &str) -> (r: Result<Pattern, PatternError>)
        ensures
            r is Ok <==> pattern_valid(p@),
            r matches Ok(x) ==> x@ == p@,
    {
        match compile(p) {
            Ok(re) => Ok(Pattern { source: p.to_string(), re }),
            Err(_) => Err(PatternError::Invalid),
        }
    }

    /// Group `g` of the leftmost match in `t`.
    pub fn capture(&self, t: &str, g: usize) -> (r: Option<String>)
        ensures
            r matches Some(s) ==> first_capture(self@, t@, g as nat) == Some(s@),
            r is None ==> first_capture(self@, t@, g as nat) is None,
    {
        captures_group(self, t, g)
    }

    /// Group `g` of every successive match in `t`.
    pub fn capture_all(&self, t: &str, g: usize) -> (r: Vec<Option<String>>)
        ensures
            r@.map_values(|s: Option<String>| opt_view(s)) == all_captures(self@, t@, g as nat),
    {
        captures_all(self, t, g)
    }

    /// `t` with every match replaced by `r`.
    pub fn replace_all(&self, t: &str, r: &str) -> (out: String)
        ensures
            out@ == replaced_all(self@, t@, r@),
    {
        replace_all_matches(self, t, r)
    }

    /// How many non-overlapping matches `t` holds.
    pub fn count_in(&self, t: &str) -> (n: usize)
        ensures
            n as nat == match_count(self@, t@),
    {
        count_matches_of(self, t)
    }

    /// Whether the pattern matches somewhere in `t`.
    pub fn matches(&self, t: &str) -> (r: bool)
        ensures
            r == pattern_matches(self@, t@),
    {
        is_match(self, t)
    }
}

} // verus!
