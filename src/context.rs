//! Keywords of a request, the prompts built around it, remembered project
//! notes, and the text sections that describe a classified project.
use vstd::prelude::*;
use crate::search::CodeSearch;
use crate::summary::opt_text;
use crate::structure::{find_last, last_index};
use crate::structure::{
    pairs_view, DrupalModuleInfo, AngularProjectInfo, FileGroup, ProjectAnalyzer, ProjectStructure, ProjectType,
    PythonProjectInfo, ReactProjectInfo, RustProjectInfo, SpecificProjectInfo, groups_view,
    views_of_strings,
};
use crate::text::{
    begins, ends_with_str, finishes, matches_at, occurs_at, slice_of, chars_of, lower_of, lowercase, same_text, split_words, string_of, views, words_of,
};

verus! {

pub struct PromptBuilder;

pub struct ContextManager {
    pub code_search: CodeSearch,
    pub project_memory: ProjectMemory,
    pub project_analyzer: ProjectAnalyzer,
}

/// Notes gathered from the project's memory files.
pub struct ProjectMemory {
    combined_memory: String,
    loaded_files: Vec<String>,
}

/// Bytes that `c` takes in UTF-8.
pub open spec fn utf8_width(c: char) -> nat {
    if (c as u32) < 0x80 {
        1
    } else if (c as u32) < 0x800 {
        2
    } else if (c as u32) < 0x10000 {
        3
    } else {
        4
    }
}

/// Bytes that a text takes in UTF-8.
pub open spec fn byte_len(s: Seq<char>) -> nat
    decreases s.len(),
{
    if s.len() == 0 {
        0
    } else {
        byte_len(s.drop_last()) + utf8_width(s.last())
    }
}

/// The lower-cased words of a request longer than three bytes.
pub open spec fn keywords_from(ws: Seq<Seq<char>>) -> Seq<Seq<char>>
    decreases ws.len(),
{
    if ws.len() == 0 {
        Seq::empty()
    } else if byte_len(ws.last()) > 3 {
        keywords_from(ws.drop_last()).push(lower_of(ws.last()))
    } else {
        keywords_from(ws.drop_last())
    }
}

pub open spec fn system_prompt_text() -> Seq<char> {
    "You are CodeAssist, an AI coding assistant integrated into the terminal.\nYour goal is to help the user with coding tasks through natural language commands.\nAnalyze their request and provide detailed, actionable responses.\n\nYou can help with:\n1. Editing files and fixing bugs across the codebase\n2. Answering questions about code architecture and logic\n3. Executing and fixing tests, linting, and other commands\n4. Searching through git history, resolving merge conflicts, and creating commits/PRs\n\nFormat your responses in JSON to be parsed by the CodeAssist tool.\n"@
}

/// Decimal digits of `n`.
pub open spec fn decimal(n: nat) -> Seq<char>
    decreases n,
{
    if n < 10 {
        seq![digit(n)]
    } else {
        decimal(n / 10).push(digit(n % 10))
    }
}

pub open spec fn digit(d: nat) -> char {
    if d == 0 {
        '0'
    } else if d == 1 {
        '1'
    } else if d == 2 {
        '2'
    } else if d == 3 {
        '3'
    } else if d == 4 {
        '4'
    } else if d == 5 {
        '5'
    } else if d == 6 {
        '6'
    } else if d == 7 {
        '7'
    } else if d == 8 {
        '8'
    } else {
        '9'
    }
}

fn digit_char(d: usize) -> (r: char)
    ensures
        r == digit(d as nat),
{
    if d == 0 {
        '0'
    } else if d == 1 {
        '1'
    } else if d == 2 {
        '2'
    } else if d == 3 {
        '3'
    } else if d == 4 {
        '4'
    } else if d == 5 {
        '5'
    } else if d == 6 {
        '6'
    } else if d == 7 {
        '7'
    } else if d == 8 {
        '8'
    } else {
        '9'
    }
}

fn decimal_chars(n: usize) -> (r: Vec<char>)
    ensures
        r@ == decimal(n as nat),
    decreases n,
{
    if n < 10 {
        let r = vec![digit_char(n)];
        assert(r@ =~= seq![digit(n as nat)]);
        r
    } else {
        let mut v = decimal_chars(n / 10);
        v.push(digit_char(n % 10));
        v
    }
}

/// The decimal form of a number.
pub fn decimal_string(n: usize) -> (r: String)
    ensures
        r@ == decimal(n as nat),
{
    string_of(&decimal_chars(n))
}

fn byte_len_of(s: &Vec<char>) -> (r: usize)
    ensures
        r == byte_len(s@) || (r == usize::MAX && byte_len(s@) >= usize::MAX),
{
    let mut n: usize = 0;
    let mut i: usize = 0;
    while i < s.len()
        invariant
            i <= s.len(),
            n == byte_len(s@.subrange(0, i as int)) || (n == usize::MAX && byte_len(
                s@.subrange(0, i as int),
            ) >= usize::MAX),
        decreases s.len() - i,
    {
        let c = s[i];
        let w: usize = if (c as u32) < 0x80 {
            1
        } else if (c as u32) < 0x800 {
            2
        } else if (c as u32) < 0x10000 {
            3
        } else {
            4
        };
        assert(s@.subrange(0, i + 1).drop_last() =~= s@.subrange(0, i as int));
        n = n.saturating_add(w);
        i = i + 1;
    }
    assert(s@.subrange(0, i as int) =~= s@);
    n
}

pub open spec fn line_if(b: bool, t: Seq<char>) -> Seq<char> {
    if b {
        t
    } else {
        Seq::empty()
    }
}

/// Number of recorded files with extension `e`.
pub open spec fn group_size(gs: Seq<(Seq<char>, Seq<Seq<char>>)>, e: Seq<char>) -> nat
    decreases gs.len(),
{
    if gs.len() == 0 {
        0
    } else if gs.last().0 == e {
        gs.last().1.len()
    } else {
        group_size(gs.drop_last(), e)
    }
}

pub open spec fn count_line(gs: Seq<(Seq<char>, Seq<Seq<char>>)>, e: Seq<char>, lang: Seq<char>) -> Seq<
    char,
> {
    line_if(
        group_size(gs, e) > 0,
        lang + " files count: "@ + decimal(group_size(gs, e)) + "\n"@,
    )
}

/// One line per language with files: how many there are.
pub open spec fn file_count_text(gs: Seq<(Seq<char>, Seq<Seq<char>>)>) -> Seq<char> {
    count_line(gs, "rs"@, "Rust"@) + count_line(gs, "py"@, "Python"@) + count_line(
        gs,
        "js"@,
        "JavaScript"@,
    ) + count_line(gs, "ts"@, "TypeScript"@) + count_line(gs, "jsx"@, "React JSX"@) + count_line(
        gs,
        "tsx"@,
        "React TSX"@,
    ) + count_line(gs, "go"@, "Go"@) + count_line(gs, "php"@, "PHP"@) + count_line(
        gs,
        "java"@,
        "Java"@,
    ) + count_line(gs, "cpp"@, "C++"@) + count_line(gs, "h"@, "C/C++ header"@)
}

pub open spec fn rust_text(i: RustProjectInfo) -> Seq<char> {
    "Rust package: "@ + i.name@ + "\n"@ + line_if(
        i.version@.len() > 0,
        "Version: "@ + i.version@ + "\n"@,
    ) + "Contains "@ + decimal(i.module_count as nat) + " modules, "@ + decimal(
        i.struct_count as nat,
    ) + " structs\n"@ + line_if(i.has_lib, "Has library target (lib.rs)\n"@) + line_if(
        i.has_bin,
        "Has binary target (main.rs or bin/)\n"@,
    )
}

pub open spec fn python_text(i: PythonProjectInfo) -> Seq<char> {
    "Python project: "@ + i.name@ + "\n"@ + "Contains "@ + decimal(i.class_count as nat)
        + " classes, "@ + decimal(i.function_count as nat) + " functions\n"@ + line_if(
        i.has_django,
        "Django framework detected\n"@,
    ) + line_if(i.has_flask, "Flask framework detected\n"@) + line_if(
        i.has_fastapi,
        "FastAPI framework detected\n"@,
    )
}

pub open spec fn angular_text(i: AngularProjectInfo) -> Seq<char> {
    "Angular project: "@ + i.name@ + "\n"@ + "Contains "@ + decimal(i.component_count as nat)
        + " components, "@ + decimal(i.service_count as nat) + " services\n"@ + line_if(
        i.has_routing,
        "Uses Angular routing\n"@,
    ) + line_if(i.has_ngrx, "Uses NgRx state management\n"@)
}

pub open spec fn react_text(i: ReactProjectInfo) -> Seq<char> {
    "React project: "@ + i.name@ + "\n"@ + "Contains approximately "@ + decimal(
        i.component_count as nat,
    ) + " components\n"@ + line_if(i.has_redux, "Uses Redux state management\n"@) + line_if(
        i.is_nextjs,
        "Next.js framework detected\n"@,
    ) + line_if(i.has_typescript, "Uses TypeScript\n"@)
}

/// The text describing a project summary, for the kinds that have one
/// written out here.
pub open spec fn info_text(i: SpecificProjectInfo) -> Seq<char> {
    match i {
        SpecificProjectInfo::Rust(Some(x)) => rust_text(x),
        SpecificProjectInfo::Python(Some(x)) => python_text(x),
        SpecificProjectInfo::Angular(Some(x)) => angular_text(x),
        SpecificProjectInfo::React(Some(x)) => react_text(x),
        _ => Seq::empty(),
    }
}

/// Human-readable name of a project type.
pub open spec fn type_label(t: ProjectType) -> Seq<char> {
    match t {
        ProjectType::Drupal => "Drupal site"@,
        ProjectType::DrupalModule => "Drupal module"@,
        ProjectType::Rust => "Rust project"@,
        ProjectType::Python => "Python project"@,
        ProjectType::JavaScript => "JavaScript project"@,
        ProjectType::TypeScript => "TypeScript project"@,
        ProjectType::Go => "Go project"@,
        ProjectType::PHP => "PHP project"@,
        ProjectType::Angular => "Angular application"@,
        ProjectType::React => "React application"@,
        ProjectType::Generic => "Generic project"@,
    }
}

/// The structural subdirectories of a module's `src`, in the order they are
/// reported, each with what it holds.
pub open spec fn module_sections() -> Seq<(Seq<char>, Seq<char>)> {
    seq![
        ("Plugin"@, "Contains plugins"@),
        ("Form"@, "Contains form definitions"@),
        ("Entity"@, "Contains entity definitions"@),
        ("Controller"@, "Contains route controllers"@),
        ("EventSubscriber"@, "Contains event subscribers"@),
        ("Access"@, "Contains access control"@),
        ("Element"@, "Contains render elements"@),
    ]
}

/// What a subdirectory of a module's `src/Plugin` holds, by its name.
pub open spec fn plugin_kind_text(name: Seq<char>) -> Seq<char> {
    if name == "Block"@ {
        "Block plugins (content blocks)"@
    } else if name == "Field"@ {
        "Field types/widgets/formatters"@
    } else if name == "Action"@ {
        "Action plugins"@
    } else if name == "Condition"@ {
        "Condition plugins"@
    } else if name == "Filter"@ {
        "Text format filters"@
    } else if name == "Queue"@ {
        "Queue workers"@
    } else if name == "Views"@ {
        "Views plugins"@
    } else {
        "Custom plugin type"@
    }
}

fn version_line(v: &str) -> (r: String)
    ensures
        r@ == line_if(v@.len() > 0, "Version: "@ + v@ + "\n"@),
{
    let mut r = String::new();
    if chars_of(v).len() > 0 {
        r.append("Version: ");
        r.append(v);
        r.append("\n");
        assert(r@ =~= "Version: "@ + v@ + "\n"@);
    }
    r
}

fn append_if(context: &mut String, b: bool, t: &str)
    ensures
        final(context)@ == old(context)@ + line_if(b, t@),
{
    if b {
        context.append(t);
    } else {
        assert(context@ =~= old(context)@ + Seq::<char>::empty());
    }
}

fn append_number(context: &mut String, n: usize)
    ensures
        final(context)@ == old(context)@ + decimal(n as nat),
{
    let d = decimal_string(n);
    context.append(d.as_str());
}

/// Number of recorded files with extension `e`.
fn group_size_of(gs: &Vec<FileGroup>, e: &str) -> (r: usize)
    ensures
        r == group_size(groups_view(gs@), e@),
{
    let ghost gv = groups_view(gs@);
    let mut i: usize = gs.len();
    assert(gv.subrange(0, i as int) =~= gv);
    while i > 0
        invariant
            i <= gs.len(),
            gv == groups_view(gs@),
            group_size(gv, e@) == group_size(gv.subrange(0, i as int), e@),
        decreases i,
    {
        let ghost g = gv.subrange(0, i as int);
        assert(g.drop_last() =~= gv.subrange(0, i - 1));
        assert(g.last() == (gs@[i - 1].extension@, views_of_strings(gs@[i - 1].files@)));
        if same_text(&chars_of(gs[i - 1].extension.as_str()), e) {
            return gs[i - 1].files.len();
        }
        i = i - 1;
    }
    0
}

fn append_count_line(context: &mut String, gs: &Vec<FileGroup>, e: &str, lang: &str)
    ensures
        final(context)@ == old(context)@ + count_line(groups_view(gs@), e@, lang@),
{
    let n = group_size_of(gs, e);
    if n > 0 {
        context.append(lang);
        context.append(" files count: ");
        append_number(context, n);
        context.append("\n");
    } else {
        assert(context@ =~= old(context)@ + Seq::<char>::empty());
    }
}

/// `p` relative to `root` where `root` is a leading part of it, as
/// `Path::strip_prefix` gives it for plain paths; else `p` itself.
pub open spec fn relative_to(p: Seq<char>, root: Seq<char>) -> Seq<char> {
    if p == root {
        Seq::empty()
    } else if begins(p, root + "/"@) {
        p.subrange((root.len() + 1) as int, p.len() as int)
    } else {
        p
    }
}

/// One `- name: path` line per module.
pub open spec fn module_lines(ms: Seq<(Seq<char>, Seq<char>)>, root: Seq<char>) -> Seq<char>
    decreases ms.len(),
{
    if ms.len() == 0 {
        Seq::empty()
    } else {
        module_lines(ms.drop_last(), root) + "- "@ + ms.last().0 + ": "@ + relative_to(
            ms.last().1,
            root,
        ) + "\n"@
    }
}

/// One `- item` line per item.
pub open spec fn list_lines(v: Seq<Seq<char>>) -> Seq<char>
    decreases v.len(),
{
    if v.len() == 0 {
        Seq::empty()
    } else {
        list_lines(v.drop_last()) + "- "@ + v.last() + "\n"@
    }
}

/// The files recorded with extension `e`.
pub open spec fn group_files(gs: Seq<(Seq<char>, Seq<Seq<char>>)>, e: Seq<char>) -> Seq<Seq<char>>
    decreases gs.len(),
{
    if gs.len() == 0 {
        Seq::empty()
    } else if gs.last().0 == e {
        gs.last().1
    } else {
        group_files(gs.drop_last(), e)
    }
}

/// How many of the paths end with `p`.
pub open spec fn suffix_count(v: Seq<Seq<char>>, p: Seq<char>) -> nat
    decreases v.len(),
{
    if v.len() == 0 {
        0
    } else {
        suffix_count(v.drop_last(), p) + if finishes(v.last(), p) {
            1nat
        } else {
            0nat
        }
    }
}

/// The description of a Drupal site.
pub open spec fn drupal_site_text(
    gs: Seq<(Seq<char>, Seq<Seq<char>>)>,
    ms: Seq<(Seq<char>, Seq<char>)>,
    root: Seq<char>,
) -> Seq<char> {
    let php = group_size(gs, "php"@);
    let infos = suffix_count(group_files(gs, "yml"@), ".info.yml"@);
    line_if(php > 0, "PHP files count: "@ + decimal(php) + "\n"@) + line_if(
        infos > 0,
        "Drupal module info files: "@ + decimal(infos) + "\n"@,
    ) + line_if(ms.len() > 0, "\nDetected Drupal modules ("@ + decimal(ms.len()) + "):\n"@)
        + module_lines(ms, root)
}

pub open spec fn opt_line(label: Seq<char>, v: Option<Seq<char>>) -> Seq<char> {
    match v {
        Some(x) => label + x + "\n"@,
        None => Seq::empty(),
    }
}

/// The description of a Drupal module summary.
pub open spec fn module_info_text(i: DrupalModuleInfo) -> Seq<char> {
    "Drupal Module: "@ + i.name@ + "\n"@ + line_if(
        i.description@.len() > 0,
        "Description: "@ + i.description@ + "\n"@,
    ) + opt_line("Module file: "@, opt_text(i.module_file)) + opt_line(
        "Info file: "@,
        opt_text(i.info_file),
    ) + line_if(i.hooks@.len() > 0, "Implements hooks:\n"@) + list_lines(
        views_of_strings(i.hooks@),
    ) + line_if(i.has_plugins, "Contains plugins: Yes\n"@) + line_if(
        i.has_services,
        "Contains services: Yes\n"@,
    ) + line_if(i.config_schemas@.len() > 0, "Config schemas:\n"@) + list_lines(
        views_of_strings(i.config_schemas@),
    )
}

/// The modules not named `current`.
pub open spec fn other_modules(ms: Seq<(Seq<char>, Seq<char>)>, current: Option<Seq<char>>) -> Seq<
    (Seq<char>, Seq<char>),
>
    decreases ms.len(),
{
    if ms.len() == 0 {
        ms
    } else if Some(ms.last().0) == current {
        other_modules(ms.drop_last(), current)
    } else {
        other_modules(ms.drop_last(), current).push(ms.last())
    }
}

/// The lines on the other modules of a site, where there are several.
pub open spec fn others_text(
    ms: Seq<(Seq<char>, Seq<char>)>,
    current: Option<Seq<char>>,
    root: Seq<char>,
) -> Seq<char> {
    let others = other_modules(ms, current);
    if ms.len() > 1 && others.len() > 0 {
        "\nOther Drupal modules in this project ("@ + decimal(others.len()) + "):\n"@
            + module_lines(others, root)
    } else {
        Seq::empty()
    }
}

pub open spec fn current_module(i: SpecificProjectInfo) -> Option<Seq<char>> {
    match i {
        SpecificProjectInfo::Drupal(Some(x)) => Some(x.name@),
        _ => None,
    }
}

fn relative_of(p: &str, root: &str) -> (r: String)
    ensures
        r@ == relative_to(p@, root@),
{
    let pv = chars_of(p);
    let rv = chars_of(root);
    let mut with_slash = chars_of(root);
    with_slash.push('/');
    assert(with_slash@ =~= root@ + "/"@) by {
        reveal_strlit("/");
    }
    if same_chars(&pv, &rv) {
        String::new()
    } else if pv.len() >= with_slash.len() && matches_at(&pv, &with_slash, 0) {
        assert(pv@.subrange(0, with_slash@.len() as int) == with_slash@);
        string_of(&slice_of(&pv, rv.len() + 1, pv.len()))
    } else {
        proof {
            if begins(p@, root@ + "/"@) {
                assert(occurs_at(pv@, with_slash@, 0));
            }
        }
        p.to_string()
    }
}

fn same_chars(a: &Vec<char>, b: &Vec<char>) -> (r: bool)
    ensures
        r == (a@ == b@),
{
    if a.len() != b.len() {
        return false;
    }
    let mut i: usize = 0;
    while i < a.len()
        invariant
            a.len() == b.len(),
            i <= a.len(),
            forall|k: int| 0 <= k < i ==> a@[k] == b@[k],
        decreases a.len() - i,
    {
        if a[i] != b[i] {
            assert(a@[i as int] != b@[i as int]);
            return false;
        }
        i = i + 1;
    }
    assert(a@ =~= b@);
    true
}

fn append_module_lines(t: &mut String, ms: &Vec<(String, String)>, root: &str)
    ensures
        final(t)@ == old(t)@ + module_lines(pairs_view(ms@), root@),
{
    let ghost mv = pairs_view(ms@);
    let mut i: usize = 0;
    assert(old(t)@ + module_lines(mv.subrange(0, 0), root@) =~= old(t)@);
    while i < ms.len()
        invariant
            i <= ms.len(),
            mv == pairs_view(ms@),
            t@ == old(t)@ + module_lines(mv.subrange(0, i as int), root@),
        decreases ms.len() - i,
    {
        let ghost sub = mv.subrange(0, i + 1);
        assert(sub.drop_last() =~= mv.subrange(0, i as int));
        assert(sub.last() == (ms@[i as int].0@, ms@[i as int].1@));
        let mut line = "- ".to_string();
        line.append(ms[i].0.as_str());
        line.append(": ");
        let rel = relative_of(ms[i].1.as_str(), root);
        line.append(rel.as_str());
        line.append("\n");
        t.append(line.as_str());
        i = i + 1;
        assert(t@ =~= old(t)@ + module_lines(mv.subrange(0, i as int), root@));
    }
    assert(mv.subrange(0, i as int) =~= mv);
}

fn append_list_lines(t: &mut String, v: &Vec<String>)
    ensures
        final(t)@ == old(t)@ + list_lines(views_of_strings(v@)),
{
    let ghost vv = views_of_strings(v@);
    let mut i: usize = 0;
    assert(old(t)@ + list_lines(vv.subrange(0, 0)) =~= old(t)@);
    while i < v.len()
        invariant
            i <= v.len(),
            vv == views_of_strings(v@),
            t@ == old(t)@ + list_lines(vv.subrange(0, i as int)),
        decreases v.len() - i,
    {
        let ghost sub = vv.subrange(0, i + 1);
        assert(sub.drop_last() =~= vv.subrange(0, i as int));
        assert(sub.last() == v@[i as int]@);
        let mut line = "- ".to_string();
        line.append(v[i].as_str());
        line.append("\n");
        t.append(line.as_str());
        i = i + 1;
        assert(t@ =~= old(t)@ + list_lines(vv.subrange(0, i as int)));
    }
    assert(vv.subrange(0, i as int) =~= vv);
}

fn group_files_of(gs: &Vec<FileGroup>, e: &str) -> (r: Option<usize>)
    ensures
        match r {
            Some(k) => k < gs.len() && group_files(groups_view(gs@), e@) == views_of_strings(
                gs@[k as int].files@,
            ),
            None => group_files(groups_view(gs@), e@) == Seq::<Seq<char>>::empty(),
        },
{
    let ghost gv = groups_view(gs@);
    let mut i: usize = gs.len();
    assert(gv.subrange(0, i as int) =~= gv);
    while i > 0
        invariant
            i <= gs.len(),
            gv == groups_view(gs@),
            group_files(gv, e@) == group_files(gv.subrange(0, i as int), e@),
        decreases i,
    {
        let ghost g = gv.subrange(0, i as int);
        assert(g.drop_last() =~= gv.subrange(0, i - 1));
        assert(g.last() == (gs@[i - 1].extension@, views_of_strings(gs@[i - 1].files@)));
        if same_text(&chars_of(gs[i - 1].extension.as_str()), e) {
            return Some(i - 1);
        }
        i = i - 1;
    }
    None
}

fn count_suffix(v: &Vec<String>, p: &str) -> (r: usize)
    ensures
        r == suffix_count(views_of_strings(v@), p@),
{
    let ghost vv = views_of_strings(v@);
    let mut n: usize = 0;
    let mut i: usize = 0;
    while i < v.len()
        invariant
            i <= v.len(),
            vv == views_of_strings(v@),
            n == suffix_count(vv.subrange(0, i as int), p@),
            n <= i,
        decreases v.len() - i,
    {
        assert(vv.subrange(0, i + 1).drop_last() =~= vv.subrange(0, i as int));
        assert(vv.subrange(0, i + 1).last() == v@[i as int]@);
        if ends_with_str(&chars_of(v[i].as_str()), p) {
            n = n + 1;
        }
        i = i + 1;
    }
    assert(vv.subrange(0, i as int) =~= vv);
    n
}

fn opt_line_of(label: &str, v: &Option<String>) -> (r: String)
    ensures
        r@ == opt_line(label@, opt_text(*v)),
{
    match v {
        Some(x) => {
            let mut t = label.to_string();
            t.append(x.as_str());
            t.append("\n");
            t
        },
        None => String::new(),
    }
}

fn labelled_line(cond: bool, label: &str, v: &str) -> (r: String)
    ensures
        r@ == line_if(cond, label@ + v@ + "\n"@),
{
    if cond {
        let mut t = label.to_string();
        t.append(v);
        t.append("\n");
        t
    } else {
        String::new()
    }
}

fn counted_line(cond: bool, label: &str, n: usize, tail: &str) -> (r: String)
    ensures
        r@ == line_if(cond, label@ + decimal(n as nat) + tail@),
{
    if cond {
        let mut t = label.to_string();
        append_number(&mut t, n);
        t.append(tail);
        t
    } else {
        String::new()
    }
}

fn other_modules_of(ms: &Vec<(String, String)>, current: &Option<String>) -> (r: Vec<(String, String)>)
    ensures
        pairs_view(r@) == other_modules(pairs_view(ms@), opt_text(*current)),
{
    let ghost mv = pairs_view(ms@);
    let mut out: Vec<(String, String)> = Vec::new();
    let mut i: usize = 0;
    while i < ms.len()
        invariant
            i <= ms.len(),
            mv == pairs_view(ms@),
            pairs_view(out@) == other_modules(mv.subrange(0, i as int), opt_text(*current)),
        decreases ms.len() - i,
    {
        let ghost sub = mv.subrange(0, i + 1);
        assert(sub.drop_last() =~= mv.subrange(0, i as int));
        assert(sub.last() == (ms@[i as int].0@, ms@[i as int].1@));
        let same = match current {
            Some(c) => same_chars(&chars_of(ms[i].0.as_str()), &chars_of(c.as_str())),
            None => false,
        };
        if !same {
            let ghost o0 = out@;
            out.push((ms[i].0.clone(), ms[i].1.clone()));
            assert(pairs_view(out@) =~= pairs_view(o0).push((ms@[i as int].0@, ms@[i as int].1@)));
        }
        i = i + 1;
    }
    assert(mv.subrange(0, i as int) =~= mv);
    out
}

/// The directory holding `p`, as `Path::parent` gives it for a plain path
/// (no `.` or `..` components, no repeated or trailing `/`): `None` for the
/// root and for the empty path.
pub open spec fn parent_dir(p: Seq<char>) -> Option<Seq<char>> {
    let k = last_index(p, '/', p.len() as int);
    if p.len() == 0 || p == "/"@ {
        None
    } else if k < 0 {
        Some(Seq::empty())
    } else if k == 0 {
        Some("/"@)
    } else {
        Some(p.subrange(0, k))
    }
}

/// `p` followed by each of its ancestors, nearest first.
pub open spec fn with_ancestors(p: Seq<char>) -> Seq<Seq<char>>
    decreases p.len(),
{
    match parent_dir(p) {
        Some(q) => if q.len() < p.len() {
            seq![p] + with_ancestors(q)
        } else {
            seq![p]
        },
        None => seq![p],
    }
}

/// The instructions a chat request opens with.
pub open spec fn chat_system_text() -> Seq<char> {
    "You are CodeAssist, an AI coding assistant that helps users with their codebase. You analyze the context and the user's command, and respond with specific actions to take. Respond in JSON format with the following structure: {\"action\": \"<action_type>\", \"details\": {...action specific details...}}. Possible actions: edit_file, answer_question, execute_command, git_operation."@
}

/// The instructions a chat request opens with.
pub fn chat_system_message() -> (r: String)
    ensures
        r@ == chat_system_text(),
{
    "You are CodeAssist, an AI coding assistant that helps users with their codebase. You analyze the context and the user's command, and respond with specific actions to take. Respond in JSON format with the following structure: {\"action\": \"<action_type>\", \"details\": {...action specific details...}}. Possible actions: edit_file, answer_question, execute_command, git_operation.".to_string()
}

/// The user turn of a chat request: the command, then its context.
pub fn chat_user_message(command: &str, context: &str) -> (r: String)
    ensures
        r@ == "Command: "@ + command@ + "\n\nContext from codebase:\n"@ + context@,
{
    let mut s = "Command: ".to_string();
    s.append(command);
    s.append("\n\nContext from codebase:\n");
    s.append(context);
    s
}

/// What exists in a module's directory, as listed from disk.
pub struct ModuleListing {
    /// Whether `src` exists.
    pub src_exists: bool,
    /// Names of the subdirectories of `src`.
    pub src_dirs: Vec<String>,
    /// Names of the subdirectories of `src/Plugin`, in listing order.
    pub plugin_dirs: Vec<String>,
    /// Entry names of `templates`, where it exists.
    pub templates: Option<Vec<String>>,
    /// Entry names of `js`, where it exists.
    pub js_files: Option<Vec<String>>,
    /// Whether `app/angular.json` exists.
    pub angular_app: bool,
    /// Whether `css` exists.
    pub css_exists: bool,
    /// Number of `.php` files anywhere beneath the module.
    pub php_count: usize,
}

/// Index of the first `true`.
pub open spec fn first_true(v: Seq<bool>) -> Option<int>
    decreases v.len(),
{
    if v.len() == 0 {
        None
    } else {
        match first_true(v.drop_last()) {
            Some(i) => Some(i),
            None => if v.last() {
                Some(v.len() - 1)
            } else {
                None
            },
        }
    }
}

/// Where a module named `name` may lie, relative to the root, in the order
/// they are tried; the root itself last.
pub open spec fn module_places(name: Seq<char>) -> Seq<Seq<char>> {
    seq![
        "web/modules/custom/"@ + name,
        "web/modules/contrib/"@ + name,
        "modules/custom/"@ + name,
        "modules/contrib/"@ + name,
        Seq::empty(),
    ]
}

/// One line per plugin directory, with what such plugins are.
pub open spec fn plugin_lines(ps: Seq<Seq<char>>) -> Seq<char>
    decreases ps.len(),
{
    if ps.len() == 0 {
        Seq::empty()
    } else {
        plugin_lines(ps.drop_last()) + "  - "@ + ps.last() + ": "@ + plugin_kind_text(ps.last())
            + "\n"@
    }
}

/// The lines for the first `n` structural sections that exist in `src`.
pub open spec fn section_lines(
    secs: Seq<(Seq<char>, Seq<char>)>,
    n: int,
    dirs: Seq<Seq<char>>,
    plugins: Seq<Seq<char>>,
) -> Seq<char>
    decreases n,
{
    if n <= 0 || n > secs.len() {
        Seq::empty()
    } else {
        let (d, what) = secs[n - 1];
        section_lines(secs, n - 1, dirs, plugins) + if dirs.contains(d) {
            "- "@ + d + ": "@ + what + "\n"@ + if d == "Plugin"@ {
                plugin_lines(plugins)
            } else {
                Seq::empty()
            }
        } else {
            Seq::empty()
        }
    }
}

/// One line per name ending in `.html.twig`.
pub open spec fn template_lines(ts: Seq<Seq<char>>) -> Seq<char>
    decreases ts.len(),
{
    if ts.len() == 0 {
        Seq::empty()
    } else {
        template_lines(ts.drop_last()) + line_if(
            finishes(ts.last(), ".html.twig"@),
            "- "@ + ts.last() + "\n"@,
        )
    }
}

pub open spec fn structure_section(l: ModuleListing) -> Seq<char> {
    line_if(
        l.src_exists,
        "\nModule Structure:\n"@ + section_lines(
            module_sections(),
            7,
            views_of_strings(l.src_dirs@),
            views_of_strings(l.plugin_dirs@),
        ),
    )
}

pub open spec fn templates_section(l: ModuleListing) -> Seq<char> {
    match l.templates {
        Some(t) => "\nModule Templates:\n"@ + template_lines(views_of_strings(t@)),
        None => Seq::empty(),
    }
}

pub open spec fn scripts_section(l: ModuleListing) -> Seq<char> {
    match l.js_files {
        Some(j) => {
            let n = suffix_count(views_of_strings(j@), ".js"@);
            "\nJavaScript files present\n"@ + line_if(
                n > 0,
                "JavaScript file count: "@ + decimal(n) + "\n"@,
            )
        },
        None => Seq::empty(),
    }
}

/// The description of a module's directory: its structural sections, its
/// templates, its scripts, an embedded Angular application, styles and
/// PHP files.
pub open spec fn module_analysis(l: ModuleListing) -> Seq<char> {
    structure_section(l) + templates_section(l) + scripts_section(l) + line_if(
        l.angular_app,
        "\nContains Angular application\n"@,
    ) + line_if(l.css_exists, "CSS files present\n"@) + line_if(
        l.php_count > 0,
        "PHP file count: "@ + decimal(l.php_count as nat) + "\n"@,
    )
}

fn holds_string(v: &Vec<String>, s: &str) -> (r: bool)
    ensures
        r == views_of_strings(v@).contains(s@),
{
    let ghost vv = views_of_strings(v@);
    let sv = chars_of(s);
    let mut k: usize = 0;
    while k < v.len()
        invariant
            k <= v.len(),
            vv == views_of_strings(v@),
            sv@ == s@,
            forall|q: int| 0 <= q < k ==> vv[q] != s@,
        decreases v.len() - k,
    {
        assert(vv[k as int] == v@[k as int]@);
        if same_chars(&chars_of(v[k].as_str()), &sv) {
            assert(vv[k as int] == s@);
            return true;
        }
        k = k + 1;
    }
    false
}

proof fn lemma_first_true_prefix(v: Seq<bool>, i: int)
    requires
        0 <= i < v.len(),
        v[i],
        first_true(v.subrange(0, i)) is None,
    ensures
        first_true(v) == Some(i),
    decreases v.len(),
{
    if i == v.len() - 1 {
        assert(v.drop_last() =~= v.subrange(0, i));
    } else {
        assert(v.drop_last().subrange(0, i) =~= v.subrange(0, i));
        lemma_first_true_prefix(v.drop_last(), i);
    }
}

fn templates_text(l: &ModuleListing) -> (r: String)
    ensures
        r@ == templates_section(*l),
{
    match &l.templates {
        Some(ts) => {
            let ghost tv = views_of_strings(ts@);
            let mut t = "\nModule Templates:\n".to_string();
            let ghost head = t@;
            let mut k: usize = 0;
            assert(t@ =~= head + template_lines(tv.subrange(0, 0)));
            while k < ts.len()
                invariant
                    k <= ts.len(),
                    tv == views_of_strings(ts@),
                    t@ == head + template_lines(tv.subrange(0, k as int)),
                decreases ts.len() - k,
            {
                assert(tv.subrange(0, k + 1).drop_last() =~= tv.subrange(0, k as int));
                assert(tv.subrange(0, k + 1).last() == ts@[k as int]@);
                let twig = ends_with_str(&chars_of(ts[k].as_str()), ".html.twig");
                let line = labelled_line(twig, "- ", ts[k].as_str());
                t.append(line.as_str());
                k = k + 1;
                assert(t@ =~= head + template_lines(tv.subrange(0, k as int)));
            }
            assert(tv.subrange(0, k as int) =~= tv);
            t
        },
        None => String::new(),
    }
}

fn scripts_text(l: &ModuleListing) -> (r: String)
    ensures
        r@ == scripts_section(*l),
{
    match &l.js_files {
        Some(js) => {
            let n = count_suffix(js, ".js");
            let mut t = "\nJavaScript files present\n".to_string();
            let line = counted_line(n > 0, "JavaScript file count: ", n, "\n");
            t.append(line.as_str());
            t
        },
        None => String::new(),
    }
}

impl PromptBuilder {
    /// Instructions that open every request.
    pub fn build_system_prompt() -> (r: String)
        ensures
            r@ == system_prompt_text(),
    {
        "You are CodeAssist, an AI coding assistant integrated into the terminal.\nYour goal is to help the user with coding tasks through natural language commands.\nAnalyze their request and provide detailed, actionable responses.\n\nYou can help with:\n1. Editing files and fixing bugs across the codebase\n2. Answering questions about code architecture and logic\n3. Executing and fixing tests, linting, and other commands\n4. Searching through git history, resolving merge conflicts, and creating commits/PRs\n\nFormat your responses in JSON to be parsed by the CodeAssist tool.\n".to_string()
    }

    /// A request followed by its context.
    pub fn build_user_prompt(command: &str, context: &str) -> (r: String)
        ensures
            r@ == "Command: "@ + command@ + "\n\nCurrent context:\n"@ + context@,
    {
        let mut s = "Command: ".to_string();
        s.append(command);
        s.append("\n\nCurrent context:\n");
        s.append(context);
        s
    }
}

impl ProjectMemory {
    pub fn new() -> (r: Self)
        ensures
            r.memory_text() == Seq::<char>::empty(),
            r.files().len() == 0,
    {
        let r = ProjectMemory { combined_memory: String::new(), loaded_files: Vec::new() };
        assert(views_of_strings(r.loaded_files@) =~= Seq::empty());
        r
    }

    pub closed spec fn memory_text(&self) -> Seq<char> {
        self.combined_memory@
    }

    pub closed spec fn files(&self) -> Seq<Seq<char>> {
        views_of_strings(self.loaded_files@)
    }

    /// The combined notes.
    pub fn get_memory(&self) -> (r: &str)
        ensures
            r@ == self.memory_text(),
    {
        self.combined_memory.as_str()
    }

    /// The memory files seen so far.
    pub fn get_loaded_files(&self) -> (r: &Vec<String>)
        ensures
            views_of_strings(r@) == self.files(),
    {
        &self.loaded_files
    }

    /// The directories whose memory files apply to `dir`: `dir` itself, then
    /// each of its ancestors, nearest first.
    pub fn directory_and_parents(dir: &str) -> (r: Vec<String>)
        ensures
            views_of_strings(r@) == with_ancestors(dir@),
    {
        let mut out: Vec<String> = Vec::new();
        let mut cur = chars_of(dir);
        let ghost start = dir@;
        assert(views_of_strings(out@) + with_ancestors(cur@) =~= with_ancestors(start));
        loop
            invariant
                start == dir@,
                views_of_strings(out@) + with_ancestors(cur@) == with_ancestors(start),
            decreases cur@.len(),
        {
            let ghost o0 = views_of_strings(out@);
            out.push(string_of(&cur));
            assert(views_of_strings(out@) =~= o0.push(cur@));
            let slash = same_text(&cur, "/");
            if cur.len() == 0 || slash {
                assert(with_ancestors(cur@) == seq![cur@]);
                assert(views_of_strings(out@) =~= with_ancestors(start));
                return out;
            }
            let next: Vec<char> = match find_last(&cur, '/') {
                Some(k) => if k == 0 {
                    chars_of("/")
                } else {
                    slice_of(&cur, 0, k)
                },
                None => Vec::new(),
            };
            assert(parent_dir(cur@) == Some(next@));
            if next.len() >= cur.len() {
                assert(with_ancestors(cur@) == seq![cur@]);
                assert(views_of_strings(out@) =~= with_ancestors(start));
                return out;
            }
            assert(with_ancestors(cur@) == seq![cur@] + with_ancestors(next@));
            assert(views_of_strings(out@) + with_ancestors(next@) =~= o0 + with_ancestors(cur@));
            cur = next;
        }
    }

    /// Adds the text of a memory file under a heading naming it.
    pub fn add_file(&mut self, path: &str, content: &str)
        ensures
            final(self).memory_text() == old(self).memory_text() + "\n## From: "@ + path@
                + "\n\n"@ + content@ + "\n\n"@,
            final(self).files() == old(self).files().push(path@),
    {
        self.combined_memory.append("\n## From: ");
        self.combined_memory.append(path);
        self.combined_memory.append("\n\n");
        self.combined_memory.append(content);
        self.combined_memory.append("\n\n");
        self.track_file(path);
    }

    /// Notes a memory file without adding its text.
    pub fn track_file(&mut self, path: &str)
        ensures
            final(self).memory_text() == old(self).memory_text(),
            final(self).files() == old(self).files().push(path@),
    {
        let ghost f0 = self.loaded_files@;
        self.loaded_files.push(path.to_string());
        assert(views_of_strings(self.loaded_files@) =~= views_of_strings(f0).push(path@));
    }
}

impl ContextManager {
    pub fn new() -> (r: Self)
        ensures
            r.project_memory.memory_text() == Seq::<char>::empty(),
            r.project_memory.files().len() == 0,
    {
        ContextManager {
            code_search: CodeSearch::new(),
            project_memory: ProjectMemory::new(),
            project_analyzer: ProjectAnalyzer,
        }
    }

    /// Appends one line per language with files: how many there are.
    pub fn add_file_count_info(&self, context: &mut String, s: &ProjectStructure)
        ensures
            final(context)@ == old(context)@ + file_count_text(groups_view(s.files_by_type@)),
    {
        let gs = &s.files_by_type;
        let ghost gv = groups_view(gs@);
        let mut t = String::new();
        append_count_line(&mut t, gs, "rs", "Rust");
        assert(t@ =~= count_line(gv, "rs"@, "Rust"@));
        append_count_line(&mut t, gs, "py", "Python");
        append_count_line(&mut t, gs, "js", "JavaScript");
        append_count_line(&mut t, gs, "ts", "TypeScript");
        append_count_line(&mut t, gs, "jsx", "React JSX");
        append_count_line(&mut t, gs, "tsx", "React TSX");
        append_count_line(&mut t, gs, "go", "Go");
        append_count_line(&mut t, gs, "php", "PHP");
        append_count_line(&mut t, gs, "java", "Java");
        append_count_line(&mut t, gs, "cpp", "C++");
        append_count_line(&mut t, gs, "h", "C/C++ header");
        context.append(t.as_str());
    }

    /// Appends the description of a Rust summary, where there is one.
    pub fn add_rust_project_info(&self, context: &mut String, s: &ProjectStructure)
        ensures
            final(context)@ == old(context)@ + match s.specific_info {
                SpecificProjectInfo::Rust(Some(x)) => rust_text(x),
                _ => Seq::empty(),
            },
    {
        match &s.specific_info {
            SpecificProjectInfo::Rust(Some(i)) => {
                let mut t = String::new();
                t.append("Rust package: ");
                assert(t@ =~= "Rust package: "@);
                t.append(i.name.as_str());
                t.append("\n");
                let vline = version_line(i.version.as_str());
                t.append(vline.as_str());
                t.append("Contains ");
                append_number(&mut t, i.module_count);
                t.append(" modules, ");
                append_number(&mut t, i.struct_count);
                t.append(" structs\n");
                append_if(&mut t, i.has_lib, "Has library target (lib.rs)\n");
                append_if(&mut t, i.has_bin, "Has binary target (main.rs or bin/)\n");
                assert(t@ == rust_text(*i));
                context.append(t.as_str());
            },
            _ => {
                assert(context@ =~= old(context)@ + Seq::<char>::empty());
            },
        }
    }

    /// Appends the description of a Python summary, where there is one.
    pub fn add_python_project_info(&self, context: &mut String, s: &ProjectStructure)
        ensures
            final(context)@ == old(context)@ + match s.specific_info {
                SpecificProjectInfo::Python(Some(x)) => python_text(x),
                _ => Seq::empty(),
            },
    {
        match &s.specific_info {
            SpecificProjectInfo::Python(Some(i)) => {
                let mut t = String::new();
                t.append("Python project: ");
                assert(t@ =~= "Python project: "@);
                t.append(i.name.as_str());
                t.append("\n");
                t.append("Contains ");
                append_number(&mut t, i.class_count);
                t.append(" classes, ");
                append_number(&mut t, i.function_count);
                t.append(" functions\n");
                append_if(&mut t, i.has_django, "Django framework detected\n");
                append_if(&mut t, i.has_flask, "Flask framework detected\n");
                append_if(&mut t, i.has_fastapi, "FastAPI framework detected\n");
                assert(t@ == python_text(*i));
                context.append(t.as_str());
            },
            _ => {
                assert(context@ =~= old(context)@ + Seq::<char>::empty());
            },
        }
    }

    /// Appends the description of an Angular summary, where there is one.
    pub fn add_angular_project_info(&self, context: &mut String, s: &ProjectStructure)
        ensures
            final(context)@ == old(context)@ + match s.specific_info {
                SpecificProjectInfo::Angular(Some(x)) => angular_text(x),
                _ => Seq::empty(),
            },
    {
        match &s.specific_info {
            SpecificProjectInfo::Angular(Some(i)) => {
                let mut t = String::new();
                t.append("Angular project: ");
                assert(t@ =~= "Angular project: "@);
                t.append(i.name.as_str());
                t.append("\n");
                t.append("Contains ");
                append_number(&mut t, i.component_count);
                t.append(" components, ");
                append_number(&mut t, i.service_count);
                t.append(" services\n");
                append_if(&mut t, i.has_routing, "Uses Angular routing\n");
                append_if(&mut t, i.has_ngrx, "Uses NgRx state management\n");
                assert(t@ == angular_text(*i));
                context.append(t.as_str());
            },
            _ => {
                assert(context@ =~= old(context)@ + Seq::<char>::empty());
            },
        }
    }

    /// Appends the description of a React summary, where there is one.
    pub fn add_react_project_info(&self, context: &mut String, s: &ProjectStructure)
        ensures
            final(context)@ == old(context)@ + match s.specific_info {
                SpecificProjectInfo::React(Some(x)) => react_text(x),
                _ => Seq::empty(),
            },
    {
        match &s.specific_info {
            SpecificProjectInfo::React(Some(i)) => {
                let mut t = String::new();
                t.append("React project: ");
                assert(t@ =~= "React project: "@);
                t.append(i.name.as_str());
                t.append("\n");
                t.append("Contains approximately ");
                append_number(&mut t, i.component_count);
                t.append(" components\n");
                append_if(&mut t, i.has_redux, "Uses Redux state management\n");
                append_if(&mut t, i.is_nextjs, "Next.js framework detected\n");
                append_if(&mut t, i.has_typescript, "Uses TypeScript\n");
                assert(t@ == react_text(*i));
                context.append(t.as_str());
            },
            _ => {
                assert(context@ =~= old(context)@ + Seq::<char>::empty());
            },
        }
    }

    /// Appends the description of a Drupal site: its PHP and info files, and
    /// its modules with paths relative to `cwd`.
    pub fn add_drupal_project_info(&self, context: &mut String, s: &ProjectStructure, cwd: &str)
        ensures
            final(context)@ == old(context)@ + drupal_site_text(
                groups_view(s.files_by_type@),
                pairs_view(s.modules@),
                cwd@,
            ),
    {
        let gs = &s.files_by_type;
        let php = group_size_of(gs, "php");
        let infos = match group_files_of(gs, "yml") {
            Some(k) => count_suffix(&gs[k].files, ".info.yml"),
            None => 0,
        };
        let mut t = counted_line(php > 0, "PHP files count: ", php, "\n");
        let a = counted_line(infos > 0, "Drupal module info files: ", infos, "\n");
        t.append(a.as_str());
        let b = counted_line(s.modules.len() > 0, "\nDetected Drupal modules (", s.modules.len(), "):\n");
        t.append(b.as_str());
        append_module_lines(&mut t, &s.modules, cwd);
        context.append(t.as_str());
    }

    /// Appends the description of a Drupal module: its summary, the given
    /// analysis of its directories, and the other modules of the site.
    pub fn add_drupal_module_project_info(
        &self,
        context: &mut String,
        s: &ProjectStructure,
        cwd: &str,
        analysis: &str,
    )
        ensures
            final(context)@ == old(context)@ + match s.specific_info {
                SpecificProjectInfo::Drupal(Some(x)) => module_info_text(x) + analysis@,
                _ => Seq::empty(),
            } + others_text(pairs_view(s.modules@), current_module(s.specific_info), cwd@),
    {
        let mut t = String::new();
        let current: Option<String> = match &s.specific_info {
            SpecificProjectInfo::Drupal(Some(i)) => {
                t.append("Drupal Module: ");
                assert(t@ =~= "Drupal Module: "@);
                t.append(i.name.as_str());
                t.append("\n");
                let d = labelled_line(chars_of(i.description.as_str()).len() > 0, "Description: ", i.description.as_str());
                t.append(d.as_str());
                let mf = opt_line_of("Module file: ", &i.module_file);
                t.append(mf.as_str());
                let inf = opt_line_of("Info file: ", &i.info_file);
                t.append(inf.as_str());
                append_if(&mut t, i.hooks.len() > 0, "Implements hooks:\n");
                append_list_lines(&mut t, &i.hooks);
                append_if(&mut t, i.has_plugins, "Contains plugins: Yes\n");
                append_if(&mut t, i.has_services, "Contains services: Yes\n");
                append_if(&mut t, i.config_schemas.len() > 0, "Config schemas:\n");
                append_list_lines(&mut t, &i.config_schemas);
                assert(t@ == module_info_text(*i));
                t.append(analysis);
                Some(i.name.clone())
            },
            _ => None,
        };
        assert(opt_text(current) == current_module(s.specific_info));
        let others = other_modules_of(&s.modules, &current);
        let mut u = String::new();
        if s.modules.len() > 1 && others.len() > 0 {
            u.append("\nOther Drupal modules in this project (");
            assert(u@ =~= "\nOther Drupal modules in this project ("@);
            append_number(&mut u, others.len());
            u.append("):\n");
            append_module_lines(&mut u, &others, cwd);
        }
        context.append(t.as_str());
        context.append(u.as_str());
    }

    /// Where a module named `name` may lie, relative to the root.
    pub fn module_dir_candidates(&self, name: &str) -> (r: Vec<String>)
        ensures
            views_of_strings(r@) == module_places(name@),
    {
        let mut a = "web/modules/custom/".to_string();
        a.append(name);
        let mut b = "web/modules/contrib/".to_string();
        b.append(name);
        let mut c = "modules/custom/".to_string();
        c.append(name);
        let mut d = "modules/contrib/".to_string();
        d.append(name);
        let r = vec![a, b, c, d, String::new()];
        assert(views_of_strings(r@) =~= module_places(name@));
        r
    }

    /// The first candidate place that holds the module.
    pub fn module_dir_choice(&self, found: &Vec<bool>) -> (r: Option<usize>)
        ensures
            match r {
                Some(i) => first_true(found@) == Some(i as int),
                None => first_true(found@) is None,
            },
    {
        let mut i: usize = 0;
        while i < found.len()
            invariant
                i <= found.len(),
                first_true(found@.subrange(0, i as int)) is None,
            decreases found.len() - i,
        {
            assert(found@.subrange(0, i + 1).drop_last() =~= found@.subrange(0, i as int));
            if found[i] {
                proof {
                    lemma_first_true_prefix(found@, i as int);
                }
                return Some(i);
            }
            i = i + 1;
        }
        assert(found@.subrange(0, i as int) =~= found@);
        None
    }

    /// The description of a module's directory from what it holds.
    pub fn module_analysis_text(&self, l: &ModuleListing) -> (r: String)
        ensures
            r@ == module_analysis(*l),
    {
        let a = self.structure_text(l);
        let b = templates_text(l);
        let c = scripts_text(l);
        let mut t = a;
        t.append(b.as_str());
        t.append(c.as_str());
        append_if(&mut t, l.angular_app, "\nContains Angular application\n");
        append_if(&mut t, l.css_exists, "CSS files present\n");
        let p = counted_line(l.php_count > 0, "PHP file count: ", l.php_count, "\n");
        t.append(p.as_str());
        t
    }

    fn structure_text(&self, l: &ModuleListing) -> (r: String)
        ensures
            r@ == structure_section(*l),
    {
        if !l.src_exists {
            return String::new();
        }
        let secs = self.module_subdirectories();
        let ghost sv = pairs_view(secs@);
        let ghost dv = views_of_strings(l.src_dirs@);
        let ghost pv = views_of_strings(l.plugin_dirs@);
        let mut t = "\nModule Structure:\n".to_string();
        let ghost head = t@;
        let mut k: usize = 0;
        assert(t@ =~= head + section_lines(sv, 0, dv, pv));
        assert(sv.len() == 7);
        assert(secs@.len() == sv.len());
        while k < secs.len()
            invariant
                k <= secs.len(),
                secs.len() == 7,
                sv == pairs_view(secs@),
                sv == module_sections(),
                dv == views_of_strings(l.src_dirs@),
                pv == views_of_strings(l.plugin_dirs@),
                t@ == head + section_lines(sv, k as int, dv, pv),
            decreases secs.len() - k,
        {
            let d = &secs[k].0;
            let what = &secs[k].1;
            assert(sv[k as int] == (d@, what@));
            let ghost before = t@;
            if holds_string(&l.src_dirs, d.as_str()) {
                let mut line = "- ".to_string();
                line.append(d.as_str());
                line.append(": ");
                line.append(what.as_str());
                line.append("\n");
                if same_text(&chars_of(d.as_str()), "Plugin") {
                    let pl = self.plugin_text(&l.plugin_dirs);
                    line.append(pl.as_str());
                } else {
                    assert(line@ + Seq::<char>::empty() =~= line@);
                }
                t.append(line.as_str());
            } else {
                assert(t@ =~= before + Seq::<char>::empty());
            }
            k = k + 1;
            assert(t@ =~= head + section_lines(sv, k as int, dv, pv));
        }
        t
    }

    fn plugin_text(&self, ps: &Vec<String>) -> (r: String)
        ensures
            r@ == plugin_lines(views_of_strings(ps@)),
    {
        let ghost pv = views_of_strings(ps@);
        let mut t = String::new();
        let mut k: usize = 0;
        assert(t@ =~= plugin_lines(pv.subrange(0, 0)));
        while k < ps.len()
            invariant
                k <= ps.len(),
                pv == views_of_strings(ps@),
                t@ == plugin_lines(pv.subrange(0, k as int)),
            decreases ps.len() - k,
        {
            assert(pv.subrange(0, k + 1).drop_last() =~= pv.subrange(0, k as int));
            assert(pv.subrange(0, k + 1).last() == ps@[k as int]@);
            let mut line = "  - ".to_string();
            line.append(ps[k].as_str());
            line.append(": ");
            let d = self.plugin_kind_description(ps[k].as_str());
            line.append(d.as_str());
            line.append("\n");
            t.append(line.as_str());
            k = k + 1;
            assert(t@ =~= plugin_lines(pv.subrange(0, k as int)));
        }
        assert(pv.subrange(0, k as int) =~= pv);
        t
    }

    /// Human-readable name of a project type.
    pub fn project_type_label(&self, t: ProjectType) -> (r: String)
        ensures
            r@ == type_label(t),
    {
        let l = match t {
            ProjectType::Drupal => "Drupal site",
            ProjectType::DrupalModule => "Drupal module",
            ProjectType::Rust => "Rust project",
            ProjectType::Python => "Python project",
            ProjectType::JavaScript => "JavaScript project",
            ProjectType::TypeScript => "TypeScript project",
            ProjectType::Go => "Go project",
            ProjectType::PHP => "PHP project",
            ProjectType::Angular => "Angular application",
            ProjectType::React => "React application",
            ProjectType::Generic => "Generic project",
        };
        l.to_string()
    }

    /// The structural subdirectories of a module's `src`, each with what it
    /// holds.
    pub fn module_subdirectories(&self) -> (r: Vec<(String, String)>)
        ensures
            pairs_view(r@) == module_sections(),
    {
        let r = vec![
            ("Plugin".to_string(), "Contains plugins".to_string()),
            ("Form".to_string(), "Contains form definitions".to_string()),
            ("Entity".to_string(), "Contains entity definitions".to_string()),
            ("Controller".to_string(), "Contains route controllers".to_string()),
            ("EventSubscriber".to_string(), "Contains event subscribers".to_string()),
            ("Access".to_string(), "Contains access control".to_string()),
            ("Element".to_string(), "Contains render elements".to_string()),
        ];
        assert(pairs_view(r@) =~= module_sections());
        r
    }

    /// What a subdirectory of a module's `src/Plugin` holds, by its name.
    pub fn plugin_kind_description(&self, name: &str) -> (r: String)
        ensures
            r@ == plugin_kind_text(name@),
    {
        let n = chars_of(name);
        let d = if same_text(&n, "Block") {
            "Block plugins (content blocks)"
        } else if same_text(&n, "Field") {
            "Field types/widgets/formatters"
        } else if same_text(&n, "Action") {
            "Action plugins"
        } else if same_text(&n, "Condition") {
            "Condition plugins"
        } else if same_text(&n, "Filter") {
            "Text format filters"
        } else if same_text(&n, "Queue") {
            "Queue workers"
        } else if same_text(&n, "Views") {
            "Views plugins"
        } else {
            "Custom plugin type"
        };
        d.to_string()
    }

    /// The lower-cased words of a request longer than three bytes.
    pub fn extract_keywords(&self, command: &str) -> (r: Vec<String>)
        ensures
            views_of_strings(r@) == keywords_from(words_of(command@)),
    {
        let ws = split_words(&chars_of(command));
        let ghost wv = views(ws@);
        let mut out: Vec<String> = Vec::new();
        let mut i: usize = 0;
        while i < ws.len()
            invariant
                i <= ws.len(),
                wv == views(ws@),
                wv == words_of(command@),
                views_of_strings(out@) == keywords_from(wv.subrange(0, i as int)),
            decreases ws.len() - i,
        {
            let w = &ws[i];
            assert(wv.subrange(0, i + 1).drop_last() =~= wv.subrange(0, i as int));
            assert(wv.subrange(0, i + 1).last() == w@);
            if byte_len_of(w) > 3 {
                let s = string_of(w);
                let l = lowercase(s.as_str());
                let ghost o0 = out@;
                out.push(l);
                assert(views_of_strings(out@) =~= views_of_strings(o0).push(lower_of(w@)));
            }
            i = i + 1;
        }
        assert(wv.subrange(0, i as int) =~= wv);
        out
    }
}

} // verus!
