//! Type-specific project summaries, read from manifests and sources.
use vstd::prelude::*;
use crate::pattern::{all_captures, opt_view, pattern_valid, Pattern, PatternError};
use crate::structure::{
    file_name, file_name_of, find_last, last_index, AngularProjectInfo, DrupalModuleInfo, ProjectAnalyzer, PythonProjectInfo, ReactProjectInfo, RustProjectInfo,
    views_of_strings,
};
use crate::text::{
    after_first, after_str, before_str, begins, chars_of, concat_chars, slice_of, contains_str, count_matches,
    count_occurrences, ends_with_str, finishes, infix, lines_of, split_lines, starts_with_str,
    string_of, strip_prefixes, strip_prefixes_str, strip_suffixes, strip_suffixes_str,
    take_before, trim, trimmed, views,
};

verus! {

/// A source file: its path relative to the root, and its text where it
/// could be read.
pub struct SourceFile {
    pub path: String,
    pub content: Option<String>,
}

pub open spec fn sat_add(a: nat, b: nat) -> nat {
    if a + b > usize::MAX {
        usize::MAX as nat
    } else {
        a + b
    }
}

/// Occurrences of `p` over all texts, summed up to `usize::MAX`.
pub open spec fn total_matches(cs: Seq<Seq<char>>, p: Seq<char>) -> nat
    decreases cs.len(),
{
    if cs.len() == 0 {
        0
    } else {
        sat_add(total_matches(cs.drop_last(), p), count_matches(cs.last(), p))
    }
}

/// Whether some text holds `p`.
pub open spec fn some_has(cs: Seq<Seq<char>>, p: Seq<char>) -> bool {
    exists|k: int| 0 <= k < cs.len() && infix(cs[k], p)
}

/// `s` without any leading or trailing `p`.
pub open spec fn trim_both(s: Seq<char>, p: Seq<char>) -> Seq<char> {
    strip_suffixes(strip_prefixes(s, p), p)
}

/// A manifest value with surrounding white space and quotes removed.
pub open spec fn unquote(s: Seq<char>) -> Seq<char> {
    trim_both(trim_both(trim(s), "\""@), "'"@)
}

/// The value of a `key = value` line: the text between the first and any
/// second `=`, unquoted; empty where the line has no `=`.
pub open spec fn toml_value(l: Seq<char>) -> Seq<char> {
    if infix(l, "="@) {
        unquote(take_before(after_first(l, "="@), "="@))
    } else {
        Seq::empty()
    }
}

/// Package name and version from the first `n` lines of a Cargo manifest;
/// a later line wins.
pub open spec fn cargo_scan(ls: Seq<Seq<char>>, n: int) -> (Seq<char>, Seq<char>)
    decreases n,
{
    if n <= 0 || n > ls.len() {
        (Seq::empty(), Seq::empty())
    } else {
        let (name, version) = cargo_scan(ls, n - 1);
        let l = ls[n - 1];
        if begins(trim(l), "name"@) {
            (toml_value(l), version)
        } else if begins(trim(l), "version"@) {
            (name, toml_value(l))
        } else {
            (name, version)
        }
    }
}

pub open spec fn cargo_fields(c: Seq<char>) -> (Seq<char>, Seq<char>) {
    cargo_scan(lines_of(c), lines_of(c).len() as int)
}

/// The text inside the first pair of double quotes after the first `key`.
pub open spec fn quoted_after(c: Seq<char>, key: Seq<char>) -> Option<Seq<char>> {
    if infix(c, key) {
        let r1 = after_first(c, key);
        if infix(r1, "\""@) {
            let r2 = after_first(r1, "\""@);
            if infix(r2, "\""@) {
                Some(take_before(r2, "\""@))
            } else {
                None
            }
        } else {
            None
        }
    } else {
        None
    }
}

/// Name of a Python project: from `pyproject.toml` where it exists, else
/// from `setup.py`, else the directory name.
pub open spec fn python_name(
    pyproject: Option<Seq<char>>,
    setup: Option<Seq<char>>,
    dir: Seq<char>,
) -> Seq<char> {
    let found = match pyproject {
        Some(c) => quoted_after(c, "name = "@),
        None => match setup {
            Some(c) => quoted_after(c, "name="@),
            None => None,
        },
    };
    match found {
        Some(n) => if n.len() > 0 {
            n
        } else {
            dir
        },
        None => dir,
    }
}

/// Name of an Angular project: the first key inside `"projects"`.
pub open spec fn angular_name(c: Seq<char>) -> Seq<char> {
    if infix(c, "\"projects\""@) {
        let r1 = after_first(c, "\"projects\""@);
        if infix(r1, "{"@) {
            let r2 = after_first(r1, "{"@);
            if infix(r2, "\""@) {
                let r3 = after_first(r2, "\""@);
                if infix(r3, "\""@) {
                    take_before(r3, "\""@)
                } else {
                    Seq::empty()
                }
            } else {
                Seq::empty()
            }
        } else {
            Seq::empty()
        }
    } else {
        Seq::empty()
    }
}

/// Name of a React project: the string value of the first `"name"` key.
pub open spec fn react_name(c: Seq<char>) -> Seq<char> {
    if infix(c, "\"name\""@) {
        match quoted_after(after_first(c, "\"name\""@), ":"@) {
            Some(n) => n,
            None => Seq::empty(),
        }
    } else {
        Seq::empty()
    }
}

pub open spec fn opt_has(c: Option<Seq<char>>, p: Seq<char>) -> bool {
    match c {
        Some(t) => infix(t, p),
        None => false,
    }
}

/// Component and service counts over TypeScript files: a file counts once,
/// as a component or a service, by its name (`.component.ts`,
/// `.service.ts`) or else by the decorator its text holds.
pub open spec fn angular_counts(fs: Seq<(Seq<char>, Option<Seq<char>>)>) -> (nat, nat)
    decreases fs.len(),
{
    if fs.len() == 0 {
        (0, 0)
    } else {
        let (c, s) = angular_counts(fs.drop_last());
        let (p, t) = fs.last();
        if finishes(p, ".component.ts"@) {
            (sat_add(c, 1), s)
        } else if finishes(p, ".service.ts"@) {
            (c, sat_add(s, 1))
        } else if opt_has(t, "@Component"@) {
            (sat_add(c, 1), s)
        } else if opt_has(t, "@Injectable"@) {
            (c, sat_add(s, 1))
        } else {
            (c, s)
        }
    }
}

pub open spec fn source_view(f: SourceFile) -> (Seq<char>, Option<Seq<char>>) {
    (
        f.path@,
        match f.content {
            Some(c) => Some(c@),
            None => None,
        },
    )
}

pub open spec fn sources_view(v: Seq<SourceFile>) -> Seq<(Seq<char>, Option<Seq<char>>)> {
    v.map_values(|f: SourceFile| source_view(f))
}

/// Whether a script's text looks like a React component.
pub open spec fn react_component_text(t: Option<Seq<char>>) -> bool {
    opt_has(t, "React"@) && ((opt_has(t, "class "@) && opt_has(t, "extends"@)) || (opt_has(
        t,
        "function "@,
    ) && opt_has(t, "return"@)))
}

/// Number of scripts whose text looks like a React component.
pub open spec fn react_count(fs: Seq<(Seq<char>, Option<Seq<char>>)>) -> nat
    decreases fs.len(),
{
    if fs.len() == 0 {
        0
    } else if react_component_text(fs.last().1) {
        sat_add(react_count(fs.drop_last()), 1)
    } else {
        react_count(fs.drop_last())
    }
}

pub open spec fn any_path_has(fs: Seq<(Seq<char>, Option<Seq<char>>)>, p: Seq<char>) -> bool {
    exists|k: int| 0 <= k < fs.len() && infix(fs[k].0, p)
}

/// What gathering a Drupal module summary reads from disk.
pub struct DrupalModuleInputs {
    /// Paths of all `.yml` files, relative to the root.
    pub yml_files: Vec<String>,
    /// Text of the chosen info file, where it could be read.
    pub info_content: Option<String>,
    /// Whether `<module>.module` exists at the root.
    pub module_file_exists: bool,
    /// Its text, where it could be read.
    pub module_file_content: Option<String>,
    /// Whether `<module>.services.yml` exists at the root.
    pub services_file_exists: bool,
    /// Whether `src/Plugin` exists.
    pub has_plugin_dir: bool,
    /// Texts of the PHP sources.
    pub php_sources: Vec<String>,
}

/// Index of the first info file at the root, else of the first info file.
pub open spec fn first_info(ys: Seq<Seq<char>>, root_only: bool, k: int) -> Option<int>
    decreases ys.len() - k,
{
    if k < 0 || k >= ys.len() {
        None
    } else if finishes(ys[k], ".info.yml"@) && (!root_only || !infix(ys[k], "/"@)) {
        Some(k)
    } else {
        first_info(ys, root_only, k + 1)
    }
}

/// The info file a module summary is read from.
pub open spec fn chosen_info(ys: Seq<Seq<char>>) -> Option<Seq<char>> {
    match first_info(ys, true, 0) {
        Some(k) => Some(ys[k]),
        None => match first_info(ys, false, 0) {
            Some(k) => Some(ys[k]),
            None => None,
        },
    }
}

/// Module name from an info file path: its file name up to the last dot,
/// without a trailing `.info`.
pub open spec fn module_stem(info: Seq<char>) -> Seq<char> {
    let name = file_name(info);
    let k = last_index(name, '.', name.len() as int);
    let stem = if k <= 0 {
        name
    } else {
        name.subrange(0, k)
    };
    strip_suffixes(stem, ".info"@)
}

/// The value of a `key:` line of an info file, unquoted.
pub open spec fn yml_value(l: Seq<char>, key: Seq<char>) -> Seq<char> {
    unquote(strip_prefixes(l, key))
}

/// Display name and description from the first `n` lines of an info file.
pub open spec fn info_scan(ls: Seq<Seq<char>>, n: int) -> (Seq<char>, Seq<char>)
    decreases n,
{
    if n <= 0 || n > ls.len() {
        (Seq::empty(), Seq::empty())
    } else {
        let (name, desc) = info_scan(ls, n - 1);
        let l = ls[n - 1];
        if begins(l, "name:"@) {
            (yml_value(l, "name:"@), desc)
        } else if begins(l, "description:"@) {
            (name, yml_value(l, "description:"@))
        } else {
            (name, desc)
        }
    }
}

pub open spec fn info_fields(c: Option<Seq<char>>) -> (Seq<char>, Seq<char>) {
    match c {
        Some(t) => info_scan(lines_of(t), lines_of(t).len() as int),
        None => (Seq::empty(), Seq::empty()),
    }
}

/// Adds `hook_x` for a found `x`, unless it is already listed.
pub open spec fn add_hook(hs: Seq<Seq<char>>, x: Option<Seq<char>>) -> Seq<Seq<char>> {
    match x {
        Some(v) => if hs.contains("hook_"@ + v) {
            hs
        } else {
            hs.push("hook_"@ + v)
        },
        None => hs,
    }
}

pub open spec fn add_hooks(hs: Seq<Seq<char>>, xs: Seq<Option<Seq<char>>>) -> Seq<
    Seq<char>,
>
    decreases xs.len(),
{
    if xs.len() == 0 {
        hs
    } else {
        add_hook(add_hooks(hs, xs.drop_last()), xs.last())
    }
}

pub open spec fn function_hook_pattern() -> Seq<char> {
    "function\\s+([a-zA-Z0-9_]+)_hook_([a-zA-Z0-9_]+)"@
}

pub open spec fn annotation_hook_pattern() -> Seq<char> {
    "@(Implements|implements)\\s+hook_([a-zA-Z0-9_]+)"@
}

/// Second capture group of every match, or nothing where the pattern does
/// not compile.
pub open spec fn captures_if_valid(p: Seq<char>, t: Seq<char>) -> Seq<Option<Seq<char>>> {
    if pattern_valid(p) {
        all_captures(p, t, 2)
    } else {
        Seq::empty()
    }
}

/// Hooks found in PHP sources, each listed once, after those in `hs`.
pub open spec fn php_hooks(hs: Seq<Seq<char>>, cs: Seq<Seq<char>>) -> Seq<Seq<char>>
    decreases cs.len(),
{
    if cs.len() == 0 {
        hs
    } else {
        let h1 = php_hooks(hs, cs.drop_last());
        let h2 = add_hooks(h1, captures_if_valid(function_hook_pattern(), cs.last()));
        add_hooks(h2, captures_if_valid(annotation_hook_pattern(), cs.last()))
    }
}

/// Hooks of a module, each listed once: those named in the module file, then new ones from
/// the PHP sources.
pub open spec fn module_hooks(module_file: Option<Seq<char>>, php: Seq<Seq<char>>) -> Seq<
    Seq<char>,
> {
    let h0 = match module_file {
        Some(t) => add_hooks(Seq::empty(), captures_if_valid(function_hook_pattern(), t)),
        None => Seq::empty(),
    };
    php_hooks(h0, php)
}

/// Paths under a `config/schema` directory, the module's own or a nested
/// one.
pub open spec fn schema_paths(ys: Seq<Seq<char>>) -> Seq<Seq<char>>
    decreases ys.len(),
{
    if ys.len() == 0 {
        ys
    } else if begins(ys.last(), "config/schema/"@) || infix(ys.last(), "/config/schema/"@) {
        schema_paths(ys.drop_last()).push(ys.last())
    } else {
        schema_paths(ys.drop_last())
    }
}

pub open spec fn opt_text(c: Option<String>) -> Option<Seq<char>> {
    match c {
        Some(t) => Some(t@),
        None => None,
    }
}

fn opt_contains(c: &Option<Vec<char>>, p: &str) -> (r: bool)
    ensures
        r == opt_has(
            match c {
                Some(v) => Some(v@),
                None => None,
            },
            p@,
        ),
{
    match c {
        Some(v) => contains_str(v, p),
        None => false,
    }
}

proof fn lemma_any_path_push(
    fs: Seq<(Seq<char>, Option<Seq<char>>)>,
    f: (Seq<char>, Option<Seq<char>>),
    p: Seq<char>,
)
    ensures
        any_path_has(fs.push(f), p) == (any_path_has(fs, p) || infix(f.0, p)),
{
    let g = fs.push(f);
    if any_path_has(fs, p) {
        let k = choose|k: int| 0 <= k < fs.len() && infix(fs[k].0, p);
        assert(g[k] == fs[k]);
    }
    if infix(f.0, p) {
        assert(g[fs.len() as int] == f);
    }
    if any_path_has(g, p) {
        let k = choose|k: int| 0 <= k < g.len() && infix(g[k].0, p);
        if k < fs.len() {
            assert(g[k] == fs[k]);
        }
    }
}

/// Index of the first info file (at the root only, if asked) from `k` on.
fn find_info(ys: &Vec<String>, root_only: bool) -> (r: Option<usize>)
    ensures
        match r {
            Some(k) => k < ys.len() && first_info(views_of_strings(ys@), root_only, 0) == Some(
                k as int,
            ),
            None => first_info(views_of_strings(ys@), root_only, 0) is None,
        },
{
    let ghost yv = views_of_strings(ys@);
    let mut k: usize = 0;
    while k < ys.len()
        invariant
            k <= ys.len(),
            yv == views_of_strings(ys@),
            first_info(yv, root_only, 0) == first_info(yv, root_only, k as int),
        decreases ys.len() - k,
    {
        let y = chars_of(ys[k].as_str());
        assert(yv[k as int] == y@);
        if ends_with_str(&y, ".info.yml") && (!root_only || !contains_str(&y, "/")) {
            return Some(k);
        }
        k = k + 1;
    }
    None
}

/// Whether `hs` already lists `h`.
fn listed(hs: &Vec<Vec<char>>, h: &Vec<char>) -> (r: bool)
    ensures
        r == views(hs@).contains(h@),
{
    let mut k: usize = 0;
    while k < hs.len()
        invariant
            k <= hs.len(),
            forall|q: int| 0 <= q < k ==> views(hs@)[q] != h@,
        decreases hs.len() - k,
    {
        assert(views(hs@)[k as int] == hs@[k as int]@);
        if same_chars(&hs[k], h) {
            assert(views(hs@)[k as int] == h@);
            return true;
        }
        k = k + 1;
    }
    false
}

fn same_chars(a: &Vec<char>, b: &Vec<char>) -> (r: bool)
    ensures
        r == (a@ == b@),
{
    if a.len() != b.len() {
        return false;
    }
    let mut i: usize = 0;
    while i < a.len()
        invariant
            a.len() == b.len(),
            i <= a.len(),
            forall|k: int| 0 <= k < i ==> a@[k] == b@[k],
        decreases a.len() - i,
    {
        if a[i] != b[i] {
            assert(a@[i as int] != b@[i as int]);
            return false;
        }
        i = i + 1;
    }
    assert(a@ =~= b@);
    true
}

pub open spec fn opt_views(v: Seq<Option<String>>) -> Seq<Option<Seq<char>>> {
    v.map_values(|s: Option<String>| opt_text(s))
}

/// Adds `hook_x` for each found `x` that is not listed yet.
fn add_hooks_of(hs: &mut Vec<Vec<char>>, xs: &Vec<Option<String>>)
    ensures
        views(final(hs)@) == add_hooks(views(old(hs)@), opt_views(xs@)),
{
    let ghost h0 = views(hs@);
    let ghost xv = opt_views(xs@);
    let mut i: usize = 0;
    while i < xs.len()
        invariant
            i <= xs.len(),
            xv == opt_views(xs@),
            views(hs@) == add_hooks(h0, xv.subrange(0, i as int)),
        decreases xs.len() - i,
    {
        assert(xv.subrange(0, i + 1).drop_last() =~= xv.subrange(0, i as int));
        assert(xv.subrange(0, i + 1).last() == opt_text(xs@[i as int]));
        match &xs[i] {
            Some(x) => {
                let h = concat_chars(&chars_of("hook_"), &chars_of(x.as_str()));
                if !listed(hs, &h) {
                    let ghost p = hs@;
                    hs.push(h);
                    assert(views(hs@) =~= views(p).push(h@));
                }
            },
            None => {},
        }
        i = i + 1;
    }
    assert(xv.subrange(0, i as int) =~= xv);
}

/// Second capture group of every match of a compiled pattern.
fn captures_with(pat: &Result<Pattern, PatternError>, source: &str, t: &str) -> (r: Vec<
    Option<String>,
>)
    requires
        pat is Ok <==> pattern_valid(source@),
        pat matches Ok(x) ==> x@ == source@,
    ensures
        opt_views(r@) == captures_if_valid(source@, t@),
{
    match pat {
        Ok(x) => {
            let r = x.capture_all(t, 2);
            assert(opt_views(r@) =~= r@.map_values(|s: Option<String>| opt_view(s)));
            r
        },
        Err(_) => {
            let r: Vec<Option<String>> = Vec::new();
            assert(opt_views(r@) =~= Seq::empty());
            r
        },
    }
}

fn strings_of(v: &Vec<Vec<char>>) -> (r: Vec<String>)
    ensures
        views_of_strings(r@) == views(v@),
{
    let mut out: Vec<String> = Vec::new();
    let mut k: usize = 0;
    while k < v.len()
        invariant
            k <= v.len(),
            views_of_strings(out@) == views(v@).subrange(0, k as int),
        decreases v.len() - k,
    {
        let ghost p = out@;
        out.push(string_of(&v[k]));
        assert(views_of_strings(out@) =~= views_of_strings(p).push(v@[k as int]@));
        k = k + 1;
        assert(views_of_strings(out@) =~= views(v@).subrange(0, k as int));
    }
    assert(views(v@).subrange(0, k as int) =~= views(v@));
    out
}

pub open spec fn some_has_suffix(ys: Seq<Seq<char>>, p: Seq<char>) -> bool {
    exists|k: int| 0 <= k < ys.len() && finishes(ys[k], p)
}

fn any_suffix(ys: &Vec<String>, p: &str) -> (r: bool)
    ensures
        r == some_has_suffix(views_of_strings(ys@), p@),
{
    let ghost yv = views_of_strings(ys@);
    let mut k: usize = 0;
    while k < ys.len()
        invariant
            k <= ys.len(),
            yv == views_of_strings(ys@),
            forall|q: int| 0 <= q < k ==> !finishes(yv[q], p@),
        decreases ys.len() - k,
    {
        assert(yv[k as int] == ys@[k as int]@);
        if ends_with_str(&chars_of(ys[k].as_str()), p) {
            return true;
        }
        k = k + 1;
    }
    false
}

fn schema_paths_of(ys: &Vec<String>) -> (r: Vec<String>)
    ensures
        views_of_strings(r@) == schema_paths(views_of_strings(ys@)),
{
    let ghost yv = views_of_strings(ys@);
    let mut out: Vec<String> = Vec::new();
    let mut k: usize = 0;
    while k < ys.len()
        invariant
            k <= ys.len(),
            yv == views_of_strings(ys@),
            views_of_strings(out@) == schema_paths(yv.subrange(0, k as int)),
        decreases ys.len() - k,
    {
        assert(yv.subrange(0, k + 1).drop_last() =~= yv.subrange(0, k as int));
        assert(yv.subrange(0, k + 1).last() == ys@[k as int]@);
        let y = chars_of(ys[k].as_str());
        if starts_with_str(&y, "config/schema/") || contains_str(&y, "/config/schema/") {
            let ghost p = out@;
            out.push(ys[k].clone());
            assert(views_of_strings(out@) =~= views_of_strings(p).push(ys@[k as int]@));
        }
        k = k + 1;
    }
    assert(yv.subrange(0, k as int) =~= yv);
    out
}

/// Display name and description from an info file.
fn info_fields_of(c: &Option<String>) -> (r: (Vec<char>, Vec<char>))
    ensures
        (r.0@, r.1@) == info_fields(opt_text(*c)),
{
    let t = match c {
        Some(t) => t,
        None => {
            return (Vec::new(), Vec::new());
        },
    };
    let ls = split_lines(&chars_of(t.as_str()));
    let ghost lv = views(ls@);
    let mut name: Vec<char> = Vec::new();
    let mut desc: Vec<char> = Vec::new();
    let mut k: usize = 0;
    while k < ls.len()
        invariant
            k <= ls.len(),
            lv == views(ls@),
            lv == lines_of(t@),
            info_scan(lv, k as int) == (name@, desc@),
        decreases ls.len() - k,
    {
        let l = &ls[k];
        assert(lv[k as int] == l@);
        if starts_with_str(l, "name:") {
            name = unquote_of(&strip_prefixes_str(l, "name:"));
        } else if starts_with_str(l, "description:") {
            desc = unquote_of(&strip_prefixes_str(l, "description:"));
        }
        k = k + 1;
    }
    (name, desc)
}

/// Summed occurrences of a non-empty literal over texts.
fn sum_matches(cs: &Vec<String>, p: &str) -> (r: usize)
    requires
        p@.len() > 0,
    ensures
        r == total_matches(views_of_strings(cs@), p@),
{
    let ghost cv = views_of_strings(cs@);
    let pv = chars_of(p);
    let mut t: usize = 0;
    let mut i: usize = 0;
    while i < cs.len()
        invariant
            i <= cs.len(),
            cv == views_of_strings(cs@),
            pv@ == p@,
            pv@.len() > 0,
            t == total_matches(cv.subrange(0, i as int), p@),
        decreases cs.len() - i,
    {
        let c = chars_of(cs[i].as_str());
        assert(cv.subrange(0, i + 1).drop_last() =~= cv.subrange(0, i as int));
        assert(cv.subrange(0, i + 1).last() == c@);
        let n = count_occurrences(&c, &pv);
        t = t.saturating_add(n);
        i = i + 1;
    }
    assert(cv.subrange(0, i as int) =~= cv);
    t
}

/// Whether some text holds a literal.
fn any_contains(cs: &Vec<String>, p: &str) -> (r: bool)
    ensures
        r == some_has(views_of_strings(cs@), p@),
{
    let ghost cv = views_of_strings(cs@);
    let mut i: usize = 0;
    while i < cs.len()
        invariant
            i <= cs.len(),
            cv == views_of_strings(cs@),
            forall|k: int| 0 <= k < i ==> !infix(cv[k], p@),
        decreases cs.len() - i,
    {
        assert(cv[i as int] == cs@[i as int]@);
        if contains_str(&chars_of(cs[i].as_str()), p) {
            return true;
        }
        i = i + 1;
    }
    false
}

/// A manifest value with surrounding white space and quotes removed.
fn unquote_of(s: &Vec<char>) -> (r: Vec<char>)
    ensures
        r@ == unquote(s@),
{
    let a = trimmed(s);
    let b = strip_suffixes_str(&strip_prefixes_str(&a, "\""), "\"");
    strip_suffixes_str(&strip_prefixes_str(&b, "'"), "'")
}

/// The value of a `key = value` line.
fn toml_value_of(l: &Vec<char>) -> (r: Vec<char>)
    ensures
        r@ == toml_value(l@),
{
    proof {
        reveal_strlit("=");
    }
    match after_str(l, "=") {
        Some(rest) => unquote_of(&before_str(&rest, "=")),
        None => Vec::new(),
    }
}

/// The text inside the first pair of double quotes after the first `key`.
fn quoted_after_of(c: &Vec<char>, key: &str) -> (r: Option<Vec<char>>)
    requires
        key@.len() > 0,
    ensures
        match r {
            Some(v) => quoted_after(c@, key@) == Some(v@),
            None => quoted_after(c@, key@) is None,
        },
{
    proof {
        reveal_strlit("\"");
    }
    match after_str(c, key) {
        Some(r1) => match after_str(&r1, "\"") {
            Some(r2) => if contains_str(&r2, "\"") {
                Some(before_str(&r2, "\""))
            } else {
                None
            },
            None => None,
        },
        None => None,
    }
}

impl ProjectAnalyzer {
    /// Summary of a Rust project: `None` where there is no Cargo manifest.
    pub fn gather_rust_project_info(
        &self,
        cargo_toml: Option<String>,
        rs_sources: &Vec<String>,
        has_lib: bool,
        has_bin: bool,
    ) -> (r: Option<RustProjectInfo>)
        ensures
            cargo_toml is None <==> r is None,
            r matches Some(i) ==> {
                &&& (i.name@, i.version@) == cargo_fields(cargo_toml->Some_0@)
                &&& i.module_count == total_matches(views_of_strings(rs_sources@), "mod "@)
                &&& i.struct_count == total_matches(views_of_strings(rs_sources@), "struct "@)
                &&& i.has_lib == has_lib
                &&& i.has_bin == has_bin
            },
    {
        let manifest = match cargo_toml {
            Some(m) => m,
            None => {
                return None;
            },
        };
        let ls = split_lines(&chars_of(manifest.as_str()));
        let ghost lv = views(ls@);
        let mut name: Vec<char> = Vec::new();
        let mut version: Vec<char> = Vec::new();
        let mut k: usize = 0;
        while k < ls.len()
            invariant
                k <= ls.len(),
                lv == views(ls@),
                lv == lines_of(manifest@),
                cargo_scan(lv, k as int) == (name@, version@),
            decreases ls.len() - k,
        {
            let l = &ls[k];
            assert(lv[k as int] == l@);
            let t = trimmed(l);
            if starts_with_str(&t, "name") {
                name = toml_value_of(l);
            } else if starts_with_str(&t, "version") {
                version = toml_value_of(l);
            }
            k = k + 1;
        }
        proof {
            reveal_strlit("mod ");
            reveal_strlit("struct ");
        }
        Some(
            RustProjectInfo {
                name: string_of(&name),
                version: string_of(&version),
                module_count: sum_matches(rs_sources, "mod "),
                struct_count: sum_matches(rs_sources, "struct "),
                has_lib,
                has_bin,
            },
        )
    }

    /// Summary of an Angular project: `None` where there is no
    /// `angular.json`.
    pub fn gather_angular_project_info(&self, angular_json: Option<String>, ts_files: &Vec<
        SourceFile,
    >) -> (r: Option<AngularProjectInfo>)
        ensures
            angular_json is None <==> r is None,
            r matches Some(i) ==> {
                &&& i.name@ == angular_name(angular_json->Some_0@)
                &&& (i.component_count as nat, i.service_count as nat) == angular_counts(
                    sources_view(ts_files@),
                )
                &&& i.has_routing == (any_path_has(sources_view(ts_files@), "routing"@)
                    || any_path_has(sources_view(ts_files@), "routes"@))
                &&& i.has_ngrx == (any_path_has(sources_view(ts_files@), "reducer"@)
                    || any_path_has(sources_view(ts_files@), "action"@) || any_path_has(
                    sources_view(ts_files@),
                    "effect"@,
                ))
            },
    {
        let manifest = match angular_json {
            Some(m) => m,
            None => {
                return None;
            },
        };
        let c = chars_of(manifest.as_str());
        proof {
            reveal_strlit("\"projects\"");
            reveal_strlit("{");
            reveal_strlit("\"");
        }
        let name = match after_str(&c, "\"projects\"") {
            Some(r1) => match after_str(&r1, "{") {
                Some(r2) => match after_str(&r2, "\"") {
                    Some(r3) => if contains_str(&r3, "\"") {
                        before_str(&r3, "\"")
                    } else {
                        Vec::new()
                    },
                    None => Vec::new(),
                },
                None => Vec::new(),
            },
            None => Vec::new(),
        };
        let ghost fv = sources_view(ts_files@);
        let mut comp: usize = 0;
        let mut serv: usize = 0;
        let mut routing = false;
        let mut ngrx = false;
        let mut i: usize = 0;
        while i < ts_files.len()
            invariant
                i <= ts_files.len(),
                fv == sources_view(ts_files@),
                (comp as nat, serv as nat) == angular_counts(fv.subrange(0, i as int)),
                routing == (any_path_has(fv.subrange(0, i as int), "routing"@) || any_path_has(
                    fv.subrange(0, i as int),
                    "routes"@,
                )),
                ngrx == (any_path_has(fv.subrange(0, i as int), "reducer"@) || any_path_has(
                    fv.subrange(0, i as int),
                    "action"@,
                ) || any_path_has(fv.subrange(0, i as int), "effect"@)),
            decreases ts_files.len() - i,
        {
            let f = &ts_files[i];
            let ghost pre = fv.subrange(0, i as int);
            let ghost post = fv.subrange(0, i + 1);
            assert(post.drop_last() =~= pre);
            assert(post.last() == fv[i as int]);
            assert(fv[i as int] == source_view(*f));
            let p = chars_of(f.path.as_str());
            let t: Option<Vec<char>> = match &f.content {
                Some(x) => Some(chars_of(x.as_str())),
                None => None,
            };
            if ends_with_str(&p, ".component.ts") {
                comp = comp.saturating_add(1);
            } else if ends_with_str(&p, ".service.ts") {
                serv = serv.saturating_add(1);
            } else if opt_contains(&t, "@Component") {
                comp = comp.saturating_add(1);
            } else if opt_contains(&t, "@Injectable") {
                serv = serv.saturating_add(1);
            }
            let a = contains_str(&p, "routing") || contains_str(&p, "routes");
            let b = contains_str(&p, "reducer") || contains_str(&p, "action") || contains_str(
                &p,
                "effect",
            );
            proof {
                lemma_any_path_push(pre, fv[i as int], "routing"@);
                lemma_any_path_push(pre, fv[i as int], "routes"@);
                lemma_any_path_push(pre, fv[i as int], "reducer"@);
                lemma_any_path_push(pre, fv[i as int], "action"@);
                lemma_any_path_push(pre, fv[i as int], "effect"@);
                assert(pre.push(fv[i as int]) =~= post);
            }
            routing = routing || a;
            ngrx = ngrx || b;
            i = i + 1;
        }
        assert(fv.subrange(0, i as int) =~= fv);
        Some(
            AngularProjectInfo {
                name: string_of(&name),
                component_count: comp,
                service_count: serv,
                has_routing: routing,
                has_ngrx: ngrx,
            },
        )
    }

    /// Summary of a React project: `None` where there is no
    /// `package.json`.
    pub fn gather_react_project_info(
        &self,
        package_json: Option<String>,
        jsx_count: usize,
        tsx_count: usize,
        scripts: &Vec<SourceFile>,
        is_nextjs: bool,
        has_typescript: bool,
    ) -> (r: Option<ReactProjectInfo>)
        ensures
            package_json is None <==> r is None,
            r matches Some(i) ==> {
                &&& i.name@ == react_name(package_json->Some_0@)
                &&& i.has_redux == (infix(package_json->Some_0@, "\"redux\""@) || infix(
                    package_json->Some_0@,
                    "\"@reduxjs/toolkit\""@,
                ) || infix(package_json->Some_0@, "\"react-redux\""@))
                &&& i.component_count as nat == sat_add(
                    sat_add(jsx_count as nat, tsx_count as nat),
                    react_count(sources_view(scripts@)),
                )
                &&& i.is_nextjs == is_nextjs
                &&& i.has_typescript == has_typescript
            },
    {
        let manifest = match package_json {
            Some(m) => m,
            None => {
                return None;
            },
        };
        let c = chars_of(manifest.as_str());
        proof {
            reveal_strlit("\"name\"");
            reveal_strlit(":");
        }
        let name = match after_str(&c, "\"name\"") {
            Some(r1) => match quoted_after_of(&r1, ":") {
                Some(n) => n,
                None => Vec::new(),
            },
            None => Vec::new(),
        };
        let redux = contains_str(&c, "\"redux\"") || contains_str(&c, "\"@reduxjs/toolkit\"")
            || contains_str(&c, "\"react-redux\"");
        let ghost fv = sources_view(scripts@);
        let mut n: usize = 0;
        let mut i: usize = 0;
        while i < scripts.len()
            invariant
                i <= scripts.len(),
                fv == sources_view(scripts@),
                n as nat == react_count(fv.subrange(0, i as int)),
            decreases scripts.len() - i,
        {
            let f = &scripts[i];
            assert(fv.subrange(0, i + 1).drop_last() =~= fv.subrange(0, i as int));
            assert(fv.subrange(0, i + 1).last() == source_view(*f));
            let t: Option<Vec<char>> = match &f.content {
                Some(x) => Some(chars_of(x.as_str())),
                None => None,
            };
            if opt_contains(&t, "React") && ((opt_contains(&t, "class ") && opt_contains(
                &t,
                "extends",
            )) || (opt_contains(&t, "function ") && opt_contains(&t, "return"))) {
                n = n.saturating_add(1);
            }
            i = i + 1;
        }
        assert(fv.subrange(0, i as int) =~= fv);
        Some(
            ReactProjectInfo {
                name: string_of(&name),
                component_count: jsx_count.saturating_add(tsx_count).saturating_add(n),
                has_redux: redux,
                is_nextjs,
                has_typescript,
            },
        )
    }

    /// The info file a module summary is read from: the first `.info.yml`
    /// at the root, else the first anywhere.
    pub fn drupal_info_file(&self, yml_files: &Vec<String>) -> (r: Option<String>)
        ensures
            opt_text(r) == chosen_info(views_of_strings(yml_files@)),
    {
        match find_info(yml_files, true) {
            Some(k) => Some(yml_files[k].clone()),
            None => match find_info(yml_files, false) {
                Some(k) => Some(yml_files[k].clone()),
                None => None,
            },
        }
    }

    /// Module name from an info file path.
    pub fn drupal_module_stem(&self, info_file: &str) -> (r: String)
        ensures
            r@ == module_stem(info_file@),
    {
        let name = file_name_of(&chars_of(info_file));
        let stem = match find_last(&name, '.') {
            Some(k) => if k == 0 {
                name
            } else {
                slice_of(&name, 0, k)
            },
            None => name,
        };
        string_of(&strip_suffixes_str(&stem, ".info"))
    }

    /// Summary of a Drupal module: `None` where there is no info file.
    pub fn gather_drupal_module_info(&self, inputs: &DrupalModuleInputs) -> (r: Option<
        DrupalModuleInfo,
    >)
        ensures
            chosen_info(views_of_strings(inputs.yml_files@)) is None <==> r is None,
            r matches Some(i) ==> {
                let info = chosen_info(views_of_strings(inputs.yml_files@))->Some_0;
                let stem = module_stem(info);
                let (name, desc) = info_fields(opt_text(inputs.info_content));
                &&& i.name@ == if name.len() == 0 {
                    stem
                } else {
                    name
                }
                &&& i.description@ == desc
                &&& opt_text(i.info_file) == Some(info)
                &&& opt_text(i.module_file) == if inputs.module_file_exists {
                    Some(stem + ".module"@)
                } else {
                    None
                }
                &&& views_of_strings(i.config_schemas@) == schema_paths(
                    views_of_strings(inputs.yml_files@),
                )
                &&& i.has_plugins == (inputs.has_plugin_dir || (inputs.module_file_exists && (
                opt_has(opt_text(inputs.module_file_content), "Plugin"@) || opt_has(
                    opt_text(inputs.module_file_content),
                    "plugin"@,
                ))))
                &&& i.has_services == (inputs.services_file_exists || some_has_suffix(
                    views_of_strings(inputs.yml_files@),
                    ".services.yml"@,
                ))
                &&& views_of_strings(i.hooks@) == module_hooks(
                    if inputs.module_file_exists {
                        opt_text(inputs.module_file_content)
                    } else {
                        None
                    },
                    views_of_strings(inputs.php_sources@),
                )
            },
    {
        let info = match self.drupal_info_file(&inputs.yml_files) {
            Some(x) => x,
            None => {
                return None;
            },
        };
        let stem = self.drupal_module_stem(info.as_str());
        let (name, desc) = info_fields_of(&inputs.info_content);
        let name = if name.len() == 0 {
            stem.clone()
        } else {
            string_of(&name)
        };
        let module_file = if inputs.module_file_exists {
            let f = concat_chars(&chars_of(stem.as_str()), &chars_of(".module"));
            Some(string_of(&f))
        } else {
            None
        };
        let module_text: Option<Vec<char>> = if inputs.module_file_exists {
            match &inputs.module_file_content {
                Some(t) => Some(chars_of(t.as_str())),
                None => None,
            }
        } else {
            None
        };
        let has_plugins = inputs.has_plugin_dir || (inputs.module_file_exists && (opt_contains(
            &module_text,
            "Plugin",
        ) || opt_contains(&module_text, "plugin")));
        let has_services = inputs.services_file_exists || any_suffix(
            &inputs.yml_files,
            ".services.yml",
        );
        let fn_pat = Pattern::new("function\\s+([a-zA-Z0-9_]+)_hook_([a-zA-Z0-9_]+)");
        let ann_pat = Pattern::new("@(Implements|implements)\\s+hook_([a-zA-Z0-9_]+)");
        let mut hooks: Vec<Vec<char>> = Vec::new();
        assert(views(hooks@) =~= Seq::empty());
        if inputs.module_file_exists {
            match &inputs.module_file_content {
                Some(t) => {
                    let xs = captures_with(
                        &fn_pat,
                        "function\\s+([a-zA-Z0-9_]+)_hook_([a-zA-Z0-9_]+)",
                        t.as_str(),
                    );
                    add_hooks_of(&mut hooks, &xs);
                },
                None => {},
            }
        }
        let ghost h0 = views(hooks@);
        let ghost pv = views_of_strings(inputs.php_sources@);
        let mut i: usize = 0;
        while i < inputs.php_sources.len()
            invariant
                i <= inputs.php_sources.len(),
                pv == views_of_strings(inputs.php_sources@),
                views(hooks@) == php_hooks(h0, pv.subrange(0, i as int)),
                fn_pat is Ok <==> pattern_valid(function_hook_pattern()),
                fn_pat matches Ok(x) ==> x@ == function_hook_pattern(),
                ann_pat is Ok <==> pattern_valid(annotation_hook_pattern()),
                ann_pat matches Ok(x) ==> x@ == annotation_hook_pattern(),
            decreases inputs.php_sources.len() - i,
        {
            let t = &inputs.php_sources[i];
            assert(pv.subrange(0, i + 1).drop_last() =~= pv.subrange(0, i as int));
            assert(pv.subrange(0, i + 1).last() == t@);
            let xs = captures_with(
                &fn_pat,
                "function\\s+([a-zA-Z0-9_]+)_hook_([a-zA-Z0-9_]+)",
                t.as_str(),
            );
            add_hooks_of(&mut hooks, &xs);
            let ys = captures_with(
                &ann_pat,
                "@(Implements|implements)\\s+hook_([a-zA-Z0-9_]+)",
                t.as_str(),
            );
            add_hooks_of(&mut hooks, &ys);
            i = i + 1;
        }
        assert(pv.subrange(0, i as int) =~= pv);
        Some(
            DrupalModuleInfo {
                name,
                description: string_of(&desc),
                module_file,
                info_file: Some(info),
                config_schemas: schema_paths_of(&inputs.yml_files),
                has_plugins,
                has_services,
                hooks: strings_of(&hooks),
            },
        )
    }

    /// Summary of a Python project.
    pub fn gather_python_project_info(
        &self,
        pyproject_toml: Option<String>,
        setup_py: Option<String>,
        dir_name: &str,
        py_sources: &Vec<String>,
        has_manage_py: bool,
    ) -> (r: PythonProjectInfo)
        ensures
            r.name@ == python_name(
                match pyproject_toml {
                    Some(c) => Some(c@),
                    None => None,
                },
                match setup_py {
                    Some(c) => Some(c@),
                    None => None,
                },
                dir_name@,
            ),
            r.class_count == total_matches(views_of_strings(py_sources@), "class "@),
            r.function_count == total_matches(views_of_strings(py_sources@), "def "@),
            r.has_django == (some_has(views_of_strings(py_sources@), "django"@) || has_manage_py),
            r.has_flask == some_has(views_of_strings(py_sources@), "flask"@),
            r.has_fastapi == some_has(views_of_strings(py_sources@), "fastapi"@),
    {
        proof {
            reveal_strlit("name = ");
            reveal_strlit("name=");
            reveal_strlit("class ");
            reveal_strlit("def ");
        }
        let found = match &pyproject_toml {
            Some(c) => quoted_after_of(&chars_of(c.as_str()), "name = "),
            None => match &setup_py {
                Some(c) => quoted_after_of(&chars_of(c.as_str()), "name="),
                None => None,
            },
        };
        let name = match found {
            Some(n) => if n.len() > 0 {
                string_of(&n)
            } else {
                dir_name.to_string()
            },
            None => dir_name.to_string(),
        };
        PythonProjectInfo {
            name,
            class_count: sum_matches(py_sources, "class "),
            function_count: sum_matches(py_sources, "def "),
            has_django: any_contains(py_sources, "django") || has_manage_py,
            has_flask: any_contains(py_sources, "flask"),
            has_fastapi: any_contains(py_sources, "fastapi"),
        }
    }
}

} // verus!
