//! Relevance scoring of files against a keyword list, and line search.
use vstd::prelude::*;
use vstd::seq_lib::{to_multiset_build, to_multiset_insert};
use crate::pattern::{pattern_matches, Pattern};
use crate::structure::{
    extension_of, extension_of_name, file_name, file_name_of, ignored_extension, under_ignored_dir,
    ProjectAnalyzer,
};
use crate::text::{
    lines_of, split_lines, string_of,
    chars_of, contains_str, same_text, count_from, count_matches, occurs_at, count_occurrences, infix, lower_of, lowercase,
    views,
};

verus! {

/// Files larger than this many bytes are never scored or searched.
pub const LARGE_FILE_LIMIT: u64 = 1048576;

/// Textual indicators that a (lower-cased) file looks like a given language
/// or framework.
#[derive(Clone, Copy, Debug, PartialEq, Eq, Structural)]
pub struct LanguageSignatures {
    pub is_rust: bool,
    pub is_python: bool,
    pub is_php: bool,
    pub is_javascript: bool,
    pub is_go: bool,
    pub is_angular: bool,
    pub is_react: bool,
    pub is_drupal: bool,
    pub is_drupal_info: bool,
    pub is_drupal_services: bool,
    pub is_drupal_template: bool,
}

/// The language a keyword list is aimed at.
#[derive(Clone, Copy, Debug, PartialEq, Eq, Structural)]
pub enum SearchLanguage {
    Rust,
    Python,
    JavaScript,
    PHP,
    Drupal,
    Go,
    Generic,
}

/// One line that matched a line search.
pub struct SearchResult {
    pub file_path: String,
    pub line_number: usize,
    pub line_content: String,
}

/// A file with its relevance score.
pub struct ScoredFile {
    pub path: String,
    pub score: usize,
}

pub struct CodeSearch;

pub open spec fn signatures_of(c: Seq<char>) -> LanguageSignatures {
    LanguageSignatures {
        is_rust: infix(c, "fn "@) && (infix(c, "struct "@) || infix(c, "impl "@) || infix(c, "pub "@)
            || infix(c, "use std::"@) || infix(c, "mod "@)),
        is_python: infix(c, "def "@) && (infix(c, "import "@) || infix(c, "class "@) || infix(
            c,
            "if __name__ == "@,
        ) || infix(c, "self."@)),
        is_php: infix(c, "<?php"@) || (infix(c, "namespace"@) && infix(c, ";"@)) || (infix(c, "use "@)
            && infix(c, "\\"@) && infix(c, ";"@)),
        is_javascript: infix(c, "function"@) && (infix(c, "var "@) || infix(c, "let "@) || infix(
            c,
            "const "@,
        ) || infix(c, "import "@) || infix(c, "export "@)),
        is_go: infix(c, "package "@) && (infix(c, "func "@) || infix(c, "import ("@) || (infix(
            c,
            "type "@,
        ) && infix(c, "struct {"@))),
        is_angular: infix(c, "@component"@) || infix(c, "@injectable"@) || infix(c, "@ngmodule"@),
        is_react: infix(c, "react"@) && (infix(c, "component"@) || infix(c, "render"@) || infix(
            c,
            "jsx"@,
        ) || infix(c, "</>"@)),
        is_drupal: infix(c, "drupal"@) || infix(c, "hook_"@) || infix(c, "module_implements"@) || infix(
            c,
            "@plugin"@,
        ) || infix(c, "pluginbase"@) || infix(c, "\\plugin\\"@) || infix(c, "\\form\\"@) || infix(
            c,
            "\\entity\\"@,
        ) || infix(c, "drupalconsole"@) || infix(c, "@implements"@),
        is_drupal_info: infix(c, "type: module"@) || infix(c, "core_version_requirement"@) || infix(
            c,
            "core: "@,
        ),
        is_drupal_services: infix(c, "services:"@) && infix(c, "class:"@),
        is_drupal_template: infix(c, "{{ content }}"@) || infix(c, "{{ attach_library"@) || infix(
            c,
            "{{ 'drupal"@,
        ),
    }
}

/// Multiplier applied to a keyword's occurrences in a file with the given
/// signatures: the first matching rule wins, and 1 when none matches.
pub open spec fn boost_of(k: Seq<char>, s: LanguageSignatures) -> nat {
    if s.is_rust && (k == "rust"@ || k == "struct"@ || k == "impl"@ || k == "fn"@ || infix(k, "fn "@)
        || infix(k, "struct "@) || infix(k, "impl "@)) {
        3
    } else if s.is_python && (k == "python"@ || infix(k, "def "@) || infix(k, "import "@) || infix(
        k,
        "class "@,
    )) {
        3
    } else if s.is_php && (k == "php"@ || infix(k, "php"@)) {
        3
    } else if s.is_drupal && (k == "drupal"@ || infix(k, "drupal"@) || infix(k, "module"@)) {
        4
    } else if s.is_drupal_info && (infix(k, "info"@) || infix(k, "configuration"@)) {
        5
    } else if s.is_drupal_services && (infix(k, "service"@) || infix(k, "dependency"@)) {
        5
    } else if s.is_drupal_template && (infix(k, "template"@) || infix(k, "twig"@)) {
        5
    } else if s.is_javascript && (infix(k, "js"@) || infix(k, "javascript"@)) {
        3
    } else if s.is_angular && (infix(k, "angular"@) || infix(k, "component"@) || infix(k, "service"@)) {
        4
    } else if s.is_react && (infix(k, "react"@) || infix(k, "component"@) || infix(k, "jsx"@)) {
        4
    } else if s.is_go && (k == "go"@ || infix(k, "golang"@) || infix(k, "func "@)) {
        3
    } else {
        1
    }
}

/// Whether a keyword counts towards a language when guessing what a search
/// is aimed at.
pub open spec fn hints(k: Seq<char>, l: SearchLanguage) -> bool {
    match l {
        SearchLanguage::Rust => infix(k, "rust"@) || infix(k, "cargo"@) || infix(k, "crate"@) || infix(
            k,
            "fn "@,
        ),
        SearchLanguage::Python => infix(k, "python"@) || infix(k, "django"@) || infix(k, "flask"@)
            || infix(k, "def "@),
        SearchLanguage::PHP => infix(k, "php"@),
        SearchLanguage::Drupal => infix(k, "drupal"@) || infix(k, "hook_"@) || infix(k, "module"@)
            || infix(k, "block"@) || infix(k, "entity"@) || infix(k, "field"@) || infix(k, "form"@)
            || infix(k, "plugin"@) || infix(k, "token"@),
        SearchLanguage::JavaScript => infix(k, "js"@) || infix(k, "javascript"@) || infix(
            k,
            "angular"@,
        ) || infix(k, "react"@) || infix(k, "node"@) || infix(k, "component"@) || infix(
            k,
            "directive"@,
        ),
        SearchLanguage::Go => infix(k, "go"@) || infix(k, "golang"@) || infix(k, "func "@),
        SearchLanguage::Generic => false,
    }
}

/// How many keywords hint at a language.
pub open spec fn tally(ks: Seq<Seq<char>>, l: SearchLanguage) -> nat
    decreases ks.len(),
{
    if ks.len() == 0 {
        0
    } else {
        tally(ks.drop_last(), l) + if hints(ks.last(), l) {
            1nat
        } else {
            0nat
        }
    }
}

/// The language with the most hinting keywords; ties go to Drupal, then
/// Rust, Python, JavaScript, PHP and Go.  Generic when no keyword hints.
pub open spec fn search_language_of(ks: Seq<Seq<char>>) -> SearchLanguage {
    let r = tally(ks, SearchLanguage::Rust);
    let p = tally(ks, SearchLanguage::Python);
    let h = tally(ks, SearchLanguage::PHP);
    let d = tally(ks, SearchLanguage::Drupal);
    let j = tally(ks, SearchLanguage::JavaScript);
    let g = tally(ks, SearchLanguage::Go);
    if d >= r && d >= p && d >= h && d >= j && d >= g && d > 0 {
        SearchLanguage::Drupal
    } else if r >= p && r >= h && r >= d && r >= j && r >= g && r > 0 {
        SearchLanguage::Rust
    } else if p >= r && p >= h && p >= d && p >= j && p >= g && p > 0 {
        SearchLanguage::Python
    } else if j >= r && j >= p && j >= h && j >= d && j >= g && j > 0 {
        SearchLanguage::JavaScript
    } else if h >= r && h >= p && h >= d && h >= j && h >= g && h > 0 {
        SearchLanguage::PHP
    } else if g >= r && g >= p && g >= h && g >= d && g >= j && g > 0 {
        SearchLanguage::Go
    } else {
        SearchLanguage::Generic
    }
}

/// Whether a keyword names a Drupal component kind.
pub open spec fn is_component_keyword(k: Seq<char>) -> bool {
    infix(k, "plugin"@) || infix(k, "block"@) || infix(k, "field"@) || infix(k, "form"@) || infix(
        k,
        "controller"@,
    ) || infix(k, "entity"@)
}

pub open spec fn any_component_keyword(ks: Seq<Seq<char>>) -> bool {
    exists|i: int| 0 <= i < ks.len() && is_component_keyword(ks[i])
}

pub open spec fn flag(b: bool, n: nat) -> nat {
    if b {
        n
    } else {
        0
    }
}

/// Flat bonus for a file whose signatures fit the language of the search.
pub open spec fn language_bonus(
    l: SearchLanguage,
    s: LanguageSignatures,
    c: Seq<char>,
    ks: Seq<Seq<char>>,
) -> nat {
    match l {
        SearchLanguage::Rust => flag(s.is_rust, 25),
        SearchLanguage::Python => flag(s.is_python, 25),
        SearchLanguage::JavaScript => flag(s.is_javascript, 20) + flag(s.is_angular, 25) + flag(
            s.is_react,
            25,
        ),
        SearchLanguage::PHP => flag(s.is_php, 25),
        SearchLanguage::Drupal => flag(s.is_drupal, 30) + flag(s.is_drupal_info, 35) + flag(
            s.is_drupal_services,
            35,
        ) + flag(s.is_drupal_template, 25) + if any_component_keyword(ks) {
            flag(infix(c, "\\plugin\\"@), 40) + flag(infix(c, "\\form\\"@), 40) + flag(
                infix(c, "\\entity\\"@),
                40,
            )
        } else {
            0
        },
        SearchLanguage::Go => flag(s.is_go, 25),
        SearchLanguage::Generic => 0,
    }
}

/// Sum over the keywords of their occurrence counts, each times its boost.
pub open spec fn keyword_sum(c: Seq<char>, ks: Seq<Seq<char>>) -> nat
    decreases ks.len(),
{
    if ks.len() == 0 {
        0
    } else {
        keyword_sum(c, ks.drop_last()) + count_matches(c, ks.last()) * boost_of(
            ks.last(),
            signatures_of(c),
        )
    }
}

/// The score before the penalty for JavaScript noise in Drupal searches.
pub open spec fn raw_score(c: Seq<char>, ks: Seq<Seq<char>>) -> nat {
    keyword_sum(c, ks) + language_bonus(search_language_of(ks), signatures_of(c), c, ks)
}

/// Whether a file is plain JavaScript with no Drupal marker while the
/// search is aimed at Drupal.
pub open spec fn penalized(c: Seq<char>, ks: Seq<Seq<char>>) -> bool {
    search_language_of(ks) == SearchLanguage::Drupal && signatures_of(c).is_javascript && !infix(
        c,
        "drupal"@,
    )
}

/// Relevance of lower-cased content `c` to lower-cased keywords `ks`.
pub open spec fn relevance(c: Seq<char>, ks: Seq<Seq<char>>) -> nat {
    if penalized(c, ks) {
        raw_score(c, ks) / 2
    } else {
        raw_score(c, ks)
    }
}

/// The keywords as the scorer reads them: each lower-cased.
pub open spec fn lowered(ks: Seq<String>) -> Seq<Seq<char>> {
    ks.map_values(|k: String| lower_of(k@))
}

/// What scoring a text against keywords yields: `None` only where the
/// score does not fit in a `usize`.
pub open spec fn scored(c: Seq<char>, ks: Seq<Seq<char>>) -> Option<usize> {
    if raw_score(c, ks) <= usize::MAX {
        Some(relevance(c, ks) as usize)
    } else {
        None
    }
}

pub open spec fn binary_extension(e: Seq<char>) -> bool {
    e == "exe"@ || e == "dll"@ || e == "obj"@ || e == "bin"@ || e == "so"@ || e == "dylib"@ || e
        == "a"@ || e == "o"@ || e == "class"@ || e == "pyc"@ || e == "pyd"@ || e == "jpg"@ || e
        == "jpeg"@ || e == "png"@ || e == "gif"@ || e == "bmp"@ || e == "ico"@ || e == "svg"@
        || e == "pdf"@ || e == "zip"@ || e == "tar"@ || e == "gz"@ || e == "tgz"@ || e
        == "rar"@ || e == "7z"@ || e == "jar"@ || e == "war"@
}

pub open spec fn excluded(e: Seq<char>, size: u64) -> bool {
    binary_extension(e) || size > LARGE_FILE_LIMIT
}

/// Files left out of searches: beneath a skipped directory, with a binary or
/// noise extension, or too large.
pub open spec fn skipped(p: Seq<char>, size: u64) -> bool {
    under_ignored_dir(p) || size > LARGE_FILE_LIMIT || match extension_of(file_name(p)) {
        Some(e) => binary_extension(e) || ignored_extension(e),
        None => false,
    }
}

/// The files with a positive score.
pub open spec fn positive(v: Seq<ScoredFile>) -> Seq<ScoredFile>
    decreases v.len(),
{
    if v.len() == 0 {
        v
    } else if v.last().score > 0 {
        positive(v.drop_last()).push(v.last())
    } else {
        positive(v.drop_last())
    }
}

pub open spec fn descending(v: Seq<ScoredFile>) -> bool {
    forall|i: int, j: int| 0 <= i < j < v.len() ==> v[i].score >= v[j].score
}

/// Line numbers and texts of the lines of `c` that pattern `p` matches,
/// among the first `n` lines.
pub open spec fn matching_lines(p: Seq<char>, c: Seq<char>, n: int) -> Seq<(int, Seq<char>)>
    decreases n,
{
    if n <= 0 || n > lines_of(c).len() {
        Seq::empty()
    } else if pattern_matches(p, lines_of(c)[n - 1]) {
        matching_lines(p, c, n - 1).push((n, lines_of(c)[n - 1]))
    } else {
        matching_lines(p, c, n - 1)
    }
}

pub open spec fn results_view(v: Seq<SearchResult>) -> Seq<(int, Seq<char>)> {
    v.map_values(|r: SearchResult| (r.line_number as int, r.line_content@))
}

proof fn lemma_keyword_sum_push(c: Seq<char>, ks: Seq<Seq<char>>, k: Seq<char>)
    ensures
        keyword_sum(c, ks.push(k)) >= keyword_sum(c, ks),
{
    assert(ks.push(k).drop_last() =~= ks);
}

/// Adding a keyword to a search never lowers a file's relevance, as long as
/// the language the search aims at stays the same.
pub proof fn lemma_added_keyword_keeps_relevance(c: Seq<char>, ks: Seq<Seq<char>>, k: Seq<char>)
    requires
        search_language_of(ks.push(k)) == search_language_of(ks),
    ensures
        relevance(c, ks) <= relevance(c, ks.push(k)),
{
    lemma_keyword_sum_push(c, ks, k);
    let ks2 = ks.push(k);
    if any_component_keyword(ks) {
        let w = choose|w: int| 0 <= w < ks.len() && is_component_keyword(ks[w]);
        assert(ks2[w] == ks[w]);
    }
    let a = raw_score(c, ks);
    let b = raw_score(c, ks2);
    assert(a <= b);
    if penalized(c, ks) {
        assert(a / 2 <= b / 2);
    }
}

proof fn lemma_count_absent(h: Seq<char>, n: Seq<char>, i: int)
    requires
        n.len() > 0,
        !infix(h, n),
    ensures
        count_from(h, n, i) == 0,
    decreases h.len() - i,
{
    if !(i < 0 || i + n.len() > h.len()) {
        assert(!occurs_at(h, n, i));
        lemma_count_absent(h, n, i + 1);
    }
}

proof fn lemma_keyword_sum_absent(c: Seq<char>, ks: Seq<Seq<char>>)
    requires
        forall|j: int| 0 <= j < ks.len() ==> ks[j].len() > 0 && !infix(c, ks[j]),
    ensures
        keyword_sum(c, ks) == 0,
    decreases ks.len(),
{
    if ks.len() > 0 {
        lemma_keyword_sum_absent(c, ks.drop_last());
        lemma_count_absent(c, ks.last(), 0);
    }
}

/// A file that holds none of the (non-empty) keywords scores no more than
/// the flat bonus for the search language: only a file that holds a
/// keyword can score above a keyword-free file with the same signatures.
pub proof fn lemma_keyword_free_scores_only_bonus(c: Seq<char>, ks: Seq<Seq<char>>)
    requires
        forall|j: int| 0 <= j < ks.len() ==> ks[j].len() > 0 && !infix(c, ks[j]),
    ensures
        relevance(c, ks) <= language_bonus(search_language_of(ks), signatures_of(c), c, ks),
{
    lemma_keyword_sum_absent(c, ks);
}

proof fn lemma_keyword_sum_prefix(c: Seq<char>, ks: Seq<Seq<char>>, i: int)
    requires
        0 <= i <= ks.len(),
    ensures
        keyword_sum(c, ks.subrange(0, i)) <= keyword_sum(c, ks),
    decreases ks.len() - i,
{
    if i < ks.len() {
        lemma_keyword_sum_prefix(c, ks, i + 1);
        assert(ks.subrange(0, i + 1).drop_last() =~= ks.subrange(0, i));
    } else {
        assert(ks.subrange(0, i) =~= ks);
    }
}

fn bonus(b: bool, n: usize) -> (r: usize)
    ensures
        r == flag(b, n as nat),
{
    if b {
        n
    } else {
        0
    }
}

impl CodeSearch {
    pub fn new() -> (r: Self) {
        CodeSearch
    }

    /// Whether a file is skipped by extension or by size.
    pub fn is_binary_or_large_file(&self, extension: &str, size: u64) -> (r: bool)
        ensures
            r == excluded(extension@, size),
    {
        let e = chars_of(extension);
        let r = same_text(&e, "exe") || same_text(&e, "dll") || same_text(&e, "obj") || same_text(
            &e,
            "bin",
        ) || same_text(&e, "so") || same_text(&e, "dylib") || same_text(&e, "a") || same_text(
            &e,
            "o",
        ) || same_text(&e, "class") || same_text(&e, "pyc") || same_text(&e, "pyd") || same_text(
            &e,
            "jpg",
        ) || same_text(&e, "jpeg") || same_text(&e, "png") || same_text(&e, "gif") || same_text(
            &e,
            "bmp",
        ) || same_text(&e, "ico") || same_text(&e, "svg") || same_text(&e, "pdf") || same_text(
            &e,
            "zip",
        ) || same_text(&e, "tar") || same_text(&e, "gz") || same_text(&e, "tgz") || same_text(
            &e,
            "rar",
        ) || same_text(&e, "7z") || same_text(&e, "jar") || same_text(&e, "war");
        r || size > LARGE_FILE_LIMIT
    }

    /// Signatures of lower-cased content.
    pub fn detect_language_signatures(&self, c: &Vec<char>) -> (r: LanguageSignatures)
        ensures
            r == signatures_of(c@),
    {
        LanguageSignatures {
            is_rust: contains_str(c, "fn ") && (contains_str(c, "struct ") || contains_str(
                c,
                "impl ",
            ) || contains_str(c, "pub ") || contains_str(c, "use std::") || contains_str(
                c,
                "mod ",
            )),
            is_python: contains_str(c, "def ") && (contains_str(c, "import ") || contains_str(
                c,
                "class ",
            ) || contains_str(c, "if __name__ == ") || contains_str(c, "self.")),
            is_php: contains_str(c, "<?php") || (contains_str(c, "namespace") && contains_str(
                c,
                ";",
            )) || (contains_str(c, "use ") && contains_str(c, "\\") && contains_str(c, ";")),
            is_javascript: contains_str(c, "function") && (contains_str(c, "var ")
                || contains_str(c, "let ") || contains_str(c, "const ") || contains_str(
                c,
                "import ",
            ) || contains_str(c, "export ")),
            is_go: contains_str(c, "package ") && (contains_str(c, "func ") || contains_str(
                c,
                "import (",
            ) || (contains_str(c, "type ") && contains_str(c, "struct {"))),
            is_angular: contains_str(c, "@component") || contains_str(c, "@injectable")
                || contains_str(c, "@ngmodule"),
            is_react: contains_str(c, "react") && (contains_str(c, "component") || contains_str(
                c,
                "render",
            ) || contains_str(c, "jsx") || contains_str(c, "</>")),
            is_drupal: contains_str(c, "drupal") || contains_str(c, "hook_") || contains_str(
                c,
                "module_implements",
            ) || contains_str(c, "@plugin") || contains_str(c, "pluginbase") || contains_str(
                c,
                "\\plugin\\",
            ) || contains_str(c, "\\form\\") || contains_str(c, "\\entity\\") || contains_str(
                c,
                "drupalconsole",
            ) || contains_str(c, "@implements"),
            is_drupal_info: contains_str(c, "type: module") || contains_str(
                c,
                "core_version_requirement",
            ) || contains_str(c, "core: "),
            is_drupal_services: contains_str(c, "services:") && contains_str(c, "class:"),
            is_drupal_template: contains_str(c, "{{ content }}") || contains_str(
                c,
                "{{ attach_library",
            ) || contains_str(c, "{{ 'drupal"),
        }
    }

    /// Multiplier for a lower-cased keyword against a file's signatures.
    pub fn get_language_boost(&self, k: &Vec<char>, s: &LanguageSignatures) -> (r: usize)
        ensures
            r == boost_of(k@, *s),
            1 <= r <= 5,
    {
        if s.is_rust && (same_text(k, "rust") || same_text(k, "struct") || same_text(k, "impl")
            || same_text(k, "fn") || contains_str(k, "fn ") || contains_str(k, "struct ")
            || contains_str(k, "impl ")) {
            3
        } else if s.is_python && (same_text(k, "python") || contains_str(k, "def ")
            || contains_str(k, "import ") || contains_str(k, "class ")) {
            3
        } else if s.is_php && (same_text(k, "php") || contains_str(k, "php")) {
            3
        } else if s.is_drupal && (same_text(k, "drupal") || contains_str(k, "drupal")
            || contains_str(k, "module")) {
            4
        } else if s.is_drupal_info && (contains_str(k, "info") || contains_str(
            k,
            "configuration",
        )) {
            5
        } else if s.is_drupal_services && (contains_str(k, "service") || contains_str(
            k,
            "dependency",
        )) {
            5
        } else if s.is_drupal_template && (contains_str(k, "template") || contains_str(
            k,
            "twig",
        )) {
            5
        } else if s.is_javascript && (contains_str(k, "js") || contains_str(k, "javascript")) {
            3
        } else if s.is_angular && (contains_str(k, "angular") || contains_str(k, "component")
            || contains_str(k, "service")) {
            4
        } else if s.is_react && (contains_str(k, "react") || contains_str(k, "component")
            || contains_str(k, "jsx")) {
            4
        } else if s.is_go && (same_text(k, "go") || contains_str(k, "golang") || contains_str(
            k,
            "func ",
        )) {
            3
        } else {
            1
        }
    }

    /// The language that lower-cased keywords aim at.
    pub fn detect_search_language(&self, ks: &Vec<Vec<char>>) -> (r: SearchLanguage)
        ensures
            r == search_language_of(views(ks@)),
    {
        let ghost kv = views(ks@);
        let mut r: usize = 0;
        let mut p: usize = 0;
        let mut h: usize = 0;
        let mut d: usize = 0;
        let mut j: usize = 0;
        let mut g: usize = 0;
        let mut i: usize = 0;
        while i < ks.len()
            invariant
                i <= ks.len(),
                kv == views(ks@),
                r == tally(kv.subrange(0, i as int), SearchLanguage::Rust),
                p == tally(kv.subrange(0, i as int), SearchLanguage::Python),
                h == tally(kv.subrange(0, i as int), SearchLanguage::PHP),
                d == tally(kv.subrange(0, i as int), SearchLanguage::Drupal),
                j == tally(kv.subrange(0, i as int), SearchLanguage::JavaScript),
                g == tally(kv.subrange(0, i as int), SearchLanguage::Go),
                r <= i && p <= i && h <= i && d <= i && j <= i && g <= i,
            decreases ks.len() - i,
        {
            let k = &ks[i];
            assert(kv.subrange(0, i + 1).drop_last() =~= kv.subrange(0, i as int));
            assert(kv.subrange(0, i + 1).last() == k@);
            if contains_str(k, "rust") || contains_str(k, "cargo") || contains_str(k, "crate")
                || contains_str(k, "fn ") {
                r = r + 1;
            }
            if contains_str(k, "python") || contains_str(k, "django") || contains_str(k, "flask")
                || contains_str(k, "def ") {
                p = p + 1;
            }
            if contains_str(k, "php") {
                h = h + 1;
            }
            if contains_str(k, "drupal") || contains_str(k, "hook_") || contains_str(k, "module")
                || contains_str(k, "block") || contains_str(k, "entity") || contains_str(
                k,
                "field",
            ) || contains_str(k, "form") || contains_str(k, "plugin") || contains_str(
                k,
                "token",
            ) {
                d = d + 1;
            }
            if contains_str(k, "js") || contains_str(k, "javascript") || contains_str(
                k,
                "angular",
            ) || contains_str(k, "react") || contains_str(k, "node") || contains_str(
                k,
                "component",
            ) || contains_str(k, "directive") {
                j = j + 1;
            }
            if contains_str(k, "go") || contains_str(k, "golang") || contains_str(k, "func ") {
                g = g + 1;
            }
            i = i + 1;
        }
        assert(kv.subrange(0, i as int) =~= kv);
        let mut m = r;
        if p > m {
            m = p;
        }
        if h > m {
            m = h;
        }
        if d > m {
            m = d;
        }
        if j > m {
            m = j;
        }
        if g > m {
            m = g;
        }
        if m > 0 {
            if d == m {
                SearchLanguage::Drupal
            } else if r == m {
                SearchLanguage::Rust
            } else if p == m {
                SearchLanguage::Python
            } else if j == m {
                SearchLanguage::JavaScript
            } else if h == m {
                SearchLanguage::PHP
            } else {
                SearchLanguage::Go
            }
        } else {
            SearchLanguage::Generic
        }
    }

    /// The keyword sum for lower-cased content and keywords, and whether a
    /// keyword names a Drupal component kind; `None` only where the sum does
    /// not fit in a `usize`.
    fn keyword_score(&self, c: &Vec<char>, ks: &Vec<Vec<char>>, sig: &LanguageSignatures) -> (r:
        Option<(usize, bool)>)
        requires
            *sig == signatures_of(c@),
        ensures
            r is Some <==> keyword_sum(c@, views(ks@)) <= usize::MAX,
            r matches Some((t, comp)) ==> t == keyword_sum(c@, views(ks@)) && comp
                == any_component_keyword(views(ks@)),
    {
        let ghost kv = views(ks@);
        let mut score: usize = 0;
        let mut comp = false;
        let mut i: usize = 0;
        while i < ks.len()
            invariant
                i <= ks.len(),
                kv == views(ks@),
                *sig == signatures_of(c@),
                score == keyword_sum(c@, kv.subrange(0, i as int)),
                comp == any_component_keyword(kv.subrange(0, i as int)),
            decreases ks.len() - i,
        {
            let k = &ks[i];
            assert(kv.subrange(0, i + 1).drop_last() =~= kv.subrange(0, i as int));
            assert(kv.subrange(0, i + 1).last() == k@);
            proof {
                lemma_keyword_sum_prefix(c@, kv, i + 1);
            }
            if k.len() == 0 && c.len() == usize::MAX {
                assert(count_matches(c@, k@) > usize::MAX);
                assert(keyword_sum(c@, kv) > usize::MAX) by (nonlinear_arith)
                    requires
                        keyword_sum(c@, kv) >= keyword_sum(c@, kv.subrange(0, i + 1)),
                        keyword_sum(c@, kv.subrange(0, i + 1)) == score + count_matches(c@, k@)
                            * boost_of(k@, *sig),
                        count_matches(c@, k@) > usize::MAX,
                        boost_of(k@, *sig) >= 1,
                ;
                return None;
            }
            let n = count_occurrences(c, k);
            let b = self.get_language_boost(k, sig);
            let t = match n.checked_mul(b) {
                Some(t) => t,
                None => {
                    assert(keyword_sum(c@, kv) > usize::MAX) by (nonlinear_arith)
                        requires
                            keyword_sum(c@, kv) >= keyword_sum(c@, kv.subrange(0, i + 1)),
                            keyword_sum(c@, kv.subrange(0, i + 1)) == score + n * b,
                            n * b > usize::MAX,
                    ;
                    return None;
                },
            };
            score = match score.checked_add(t) {
                Some(s) => s,
                None => {
                    return None;
                },
            };
            let kc = contains_str(k, "plugin") || contains_str(k, "block") || contains_str(
                k,
                "field",
            ) || contains_str(k, "form") || contains_str(k, "controller") || contains_str(
                k,
                "entity",
            );
            assert((comp || kc) == any_component_keyword(kv.subrange(0, i + 1))) by {
                let s0 = kv.subrange(0, i as int);
                let s1 = kv.subrange(0, i + 1);
                if kc {
                    assert(is_component_keyword(s1[i as int]));
                }
                if any_component_keyword(s1) {
                    let w = choose|w: int| 0 <= w < s1.len() && is_component_keyword(s1[w]);
                    if w < i {
                        assert(s0[w] == s1[w]);
                    }
                }
                if comp {
                    let w = choose|w: int| 0 <= w < s0.len() && is_component_keyword(s0[w]);
                    assert(s1[w] == s0[w]);
                }
            }
            comp = comp || kc;
            i = i + 1;
        }
        assert(kv.subrange(0, i as int) =~= kv);
        Some((score, comp))
    }

    /// Flat bonus of a file for a search language.
    fn file_bonus(&self, c: &Vec<char>, lang: SearchLanguage, sig: &LanguageSignatures, comp: bool) -> (r:
        usize)
        ensures
            forall|ks: Seq<Seq<char>>|
                any_component_keyword(ks) == comp ==> r == language_bonus(lang, *sig, c@, ks),
    {
        match lang {
            SearchLanguage::Rust => bonus(sig.is_rust, 25),
            SearchLanguage::Python => bonus(sig.is_python, 25),
            SearchLanguage::JavaScript => bonus(sig.is_javascript, 20) + bonus(sig.is_angular, 25)
                + bonus(sig.is_react, 25),
            SearchLanguage::PHP => bonus(sig.is_php, 25),
            SearchLanguage::Drupal => {
                let mut b = bonus(sig.is_drupal, 30) + bonus(sig.is_drupal_info, 35) + bonus(
                    sig.is_drupal_services,
                    35,
                ) + bonus(sig.is_drupal_template, 25);
                if comp {
                    b = b + bonus(contains_str(c, "\\plugin\\"), 40) + bonus(
                        contains_str(c, "\\form\\"),
                        40,
                    ) + bonus(contains_str(c, "\\entity\\"), 40);
                }
                b
            },
            SearchLanguage::Go => bonus(sig.is_go, 25),
            SearchLanguage::Generic => 0,
        }
    }

    /// Relevance of lower-cased content to lower-cased keywords; `None` only
    /// where the score does not fit in a `usize`.
    pub fn relevance_of_lowered(&self, c: &Vec<char>, ks: &Vec<Vec<char>>) -> (r: Option<usize>)
        ensures
            r == scored(c@, views(ks@)),
    {
        let sig = self.detect_language_signatures(c);
        let (score, comp) = match self.keyword_score(c, ks, &sig) {
            Some(x) => x,
            None => {
                return None;
            },
        };
        let lang = self.detect_search_language(ks);
        let bon = self.file_bonus(c, lang, &sig, comp);
        let total = match score.checked_add(bon) {
            Some(t) => t,
            None => {
                return None;
            },
        };
        if lang == SearchLanguage::Drupal && sig.is_javascript && !contains_str(c, "drupal") {
            Some(total / 2)
        } else {
            Some(total)
        }
    }

    /// The files with a positive score, most relevant first; files with equal
    /// scores keep their order.
    pub fn rank_by_relevance(&self, files: Vec<ScoredFile>) -> (r: Vec<ScoredFile>)
        ensures
            descending(r@),
            r@.to_multiset() == positive(files@).to_multiset(),
    {
        let ghost orig = files@;
        let mut rest = files;
        let mut out: Vec<ScoredFile> = Vec::new();
        let ghost mut k: int = 0;
        assert(out@ =~= positive(orig.subrange(0, 0)));
        while rest.len() > 0
            invariant
                0 <= k <= orig.len(),
                rest@ == orig.subrange(k, orig.len() as int),
                descending(out@),
                out@.to_multiset() == positive(orig.subrange(0, k)).to_multiset(),
            decreases rest.len(),
        {
            let f = rest.remove(0);
            proof {
                assert(orig.subrange(0, k + 1).drop_last() =~= orig.subrange(0, k));
                k = k + 1;
                assert(rest@ =~= orig.subrange(k, orig.len() as int));
            }
            proof {
                assert(orig.subrange(0, k).last() == f);
            }
            if f.score > 0 {
                let mut p: usize = 0;
                while p < out.len() && out[p].score >= f.score
                    invariant
                        p <= out.len(),
                        descending(out@),
                        forall|q: int| 0 <= q < p ==> out@[q].score >= f.score,
                    decreases out.len() - p,
                {
                    p = p + 1;
                }
                let ghost before = out@;
                out.insert(p, f);
                assert(out@ == before.insert(p as int, f));
                proof {
                    to_multiset_insert(before, p as int, f);
                    to_multiset_build(positive(orig.subrange(0, k - 1)), f);
                    assert(orig.subrange(0, k).last() == f);
                    assert(positive(orig.subrange(0, k)) == positive(orig.subrange(0, k - 1)).push(
                        f,
                    ));
                }
                assert forall|i: int, j: int| 0 <= i < j < out@.len() implies out@[i].score
                    >= out@[j].score by {
                    if j < p {
                        assert(out@[i] == before[i] && out@[j] == before[j]);
                    } else if j == p {
                        assert(out@[i] == before[i]);
                    } else if i == p {
                        assert(out@[j] == before[j - 1]);
                        assert(p < before.len());
                        assert(before[p as int].score < f.score);
                    } else if i < p {
                        assert(out@[i] == before[i] && out@[j] == before[j - 1]);
                    } else {
                        assert(out@[i] == before[i - 1] && out@[j] == before[j - 1]);
                    }
                }
            }
        }
        assert(orig.subrange(0, k) =~= orig);
        out
    }

    /// The lines of one file that a pattern matches, in order, each with its
    /// 1-based line number.
    pub fn search_in_content(&self, path: &str, content: &str, pattern: &Pattern) -> (r: Vec<
        SearchResult,
    >)
        ensures
            results_view(r@) == matching_lines(pattern@, content@, lines_of(content@).len() as int),
            forall|i: int| 0 <= i < r@.len() ==> r@[i].file_path@ == path@,
    {
        let ls = split_lines(&chars_of(content));
        let ghost lv = views(ls@);
        let mut out: Vec<SearchResult> = Vec::new();
        let mut i: usize = 0;
        while i < ls.len()
            invariant
                i <= ls.len(),
                lv == views(ls@),
                lv == lines_of(content@),
                results_view(out@) == matching_lines(pattern@, content@, i as int),
                forall|k: int| 0 <= k < out@.len() ==> out@[k].file_path@ == path@,
            decreases ls.len() - i,
        {
            let line = string_of(&ls[i]);
            assert(lv[i as int] == line@);
            if pattern.matches(line.as_str()) {
                let ghost o0 = out@;
                let r = SearchResult { file_path: path.to_string(), line_number: i + 1, line_content: line };
                out.push(r);
                assert(results_view(out@) =~= results_view(o0).push(((i + 1) as int, lv[i as int])));
            }
            i = i + 1;
        }
        out
    }

    /// Lower-cases each keyword.
    pub fn lower_keywords(&self, keywords: &Vec<String>) -> (r: Vec<Vec<char>>)
        ensures
            views(r@) == lowered(keywords@),
    {
        let mut out: Vec<Vec<char>> = Vec::new();
        let mut i: usize = 0;
        while i < keywords.len()
            invariant
                i <= keywords.len(),
                views(out@) == lowered(keywords@).subrange(0, i as int),
            decreases keywords.len() - i,
        {
            let l = lowercase(keywords[i].as_str());
            let lv = chars_of(l.as_str());
            assert(lv@ == lowered(keywords@)[i as int]);
            let ghost prev = out@;
            out.push(lv);
            i = i + 1;
            assert(out@ == prev.push(lv));
            assert(views(out@) =~= views(prev).push(lv@));
            assert(views(out@) =~= lowered(keywords@).subrange(0, i as int));
        }
        assert(lowered(keywords@).subrange(0, i as int) =~= lowered(keywords@));
        out
    }

    /// Relevance of a file's content to the keywords, both compared
    /// without regard to case.
    pub fn calculate_relevance(&self, content: &str, keywords: &Vec<String>) -> (r: Option<usize>)
        ensures
            r == scored(lower_of(content@), lowered(keywords@)),
    {
        let low = lowercase(content);
        let c = chars_of(low.as_str());
        let ks = self.lower_keywords(keywords);
        self.relevance_of_lowered(&c, &ks)
    }

    /// Relevance of one file found while walking a tree: `None` for a file
    /// skipped by extension or size, which is never scored.
    /// Whether a file found while walking a tree is left out of searches: it
    /// lies beneath a skipped directory, its extension is binary or noise,
    /// or it is too large.
    pub fn should_skip(&self, path: &str, size: u64) -> (r: bool)
        ensures
            r == skipped(path@, size),
    {
        let analyzer = ProjectAnalyzer;
        let p = chars_of(path);
        if analyzer.beneath_ignored_dir(&p) || size > LARGE_FILE_LIMIT {
            return true;
        }
        match extension_of_name(&file_name_of(&p)) {
            Some(e) => {
                let es = string_of(&e);
                self.is_binary_or_large_file(es.as_str(), size) || analyzer.should_ignore_file(&e)
            },
            None => false,
        }
    }

    /// Relevance of one file found while walking a tree, by its path relative
    /// to the root: `None` for a file left out of searches, which is never
    /// scored.
    pub fn file_relevance(
        &self,
        path: &str,
        size: u64,
        content: &str,
        keywords: &Vec<String>,
    ) -> (r: Option<usize>)
        ensures
            skipped(path@, size) ==> r is None,
            size > LARGE_FILE_LIMIT ==> r is None,
            !skipped(path@, size) ==> r == scored(lower_of(content@), lowered(keywords@)),
    {
        if self.should_skip(path, size) {
            None
        } else {
            self.calculate_relevance(content, keywords)
        }
    }
}

} // verus!
