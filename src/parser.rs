//! Structural extractor: a flat inventory of the named declarations in one
//! file, found by per-language line heuristics.
use vstd::prelude::*;
use crate::pattern::{first_capture, opt_view, pattern_valid, Pattern};
use crate::text::{
    before_str, begins, chars_of, contains_from, contains_str, ends_with_str, finishes, infix, lines_of,
    after_first, after_str, append_chars, concat_chars, same_text, slice_of, split_lines,
    strip_suffixes, strip_suffixes_str, split_words, starts_with_str, string_of, strip_prefixes,
    strip_prefixes_str, take_before, trim, trimmed, views, words_of,
};

verus! {

/// Framework annotations of one element.
pub struct ElementMetadata {
    pub is_plugin: bool,
    pub plugin_type: Option<String>,
    pub is_service: bool,
    pub service_tags: Vec<String>,
    pub is_hook: bool,
    pub hook_name: Option<String>,
    pub annotations: Vec<String>,
    pub namespace: Option<String>,
}

/// One named declaration found in a file.
pub struct CodeElement {
    pub name: String,
    pub kind: String,
    pub line: usize,
    pub description: Option<String>,
    pub metadata: Option<ElementMetadata>,
}

/// The declarations of one file, and whether it looks like Drupal code.
pub struct FileStructure {
    pub elements: Vec<CodeElement>,
    pub is_drupal: bool,
}

pub struct CodeParser;

pub ghost struct MetaView {
    pub is_plugin: bool,
    pub plugin_type: Option<Seq<char>>,
    pub is_service: bool,
    pub service_tags: Seq<Seq<char>>,
    pub is_hook: bool,
    pub hook_name: Option<Seq<char>>,
    pub annotations: Seq<Seq<char>>,
    pub namespace: Option<Seq<char>>,
}

pub ghost struct ElementView {
    pub name: Seq<char>,
    pub kind: Seq<char>,
    pub line: int,
    pub description: Option<Seq<char>>,
    pub metadata: Option<MetaView>,
}

pub open spec fn strings_view(v: Seq<String>) -> Seq<Seq<char>> {
    v.map_values(|s: String| s@)
}

impl View for ElementMetadata {
    type V = MetaView;

    open spec fn view(&self) -> MetaView {
        MetaView {
            is_plugin: self.is_plugin,
            plugin_type: opt_view(self.plugin_type),
            is_service: self.is_service,
            service_tags: strings_view(self.service_tags@),
            is_hook: self.is_hook,
            hook_name: opt_view(self.hook_name),
            annotations: strings_view(self.annotations@),
            namespace: opt_view(self.namespace),
        }
    }
}

pub open spec fn meta_view(m: Option<ElementMetadata>) -> Option<MetaView> {
    match m {
        Some(x) => Some(x@),
        None => None,
    }
}

impl View for CodeElement {
    type V = ElementView;

    open spec fn view(&self) -> ElementView {
        ElementView {
            name: self.name@,
            kind: self.kind@,
            line: self.line as int,
            description: opt_view(self.description),
            metadata: meta_view(self.metadata),
        }
    }
}

pub open spec fn elements_view(v: Seq<CodeElement>) -> Seq<ElementView> {
    v.map_values(|e: CodeElement| e@)
}

/// An element without description or metadata.
pub open spec fn bare(name: Seq<char>, kind: Seq<char>, line: int) -> ElementView {
    ElementView { name, kind, line, description: None, metadata: None }
}

/// Metadata with every flag off and every list empty.
pub open spec fn plain_meta(namespace: Option<Seq<char>>) -> MetaView {
    MetaView {
        is_plugin: false,
        plugin_type: None,
        is_service: false,
        service_tags: Seq::empty(),
        is_hook: false,
        hook_name: None,
        annotations: Seq::empty(),
        namespace,
    }
}

/// The trimmed lines of a text.
pub open spec fn trimmed_lines(c: Seq<char>) -> Seq<Seq<char>> {
    lines_of(c).map_values(|l: Seq<char>| trim(l))
}

/// Keeps the elements of `bucket` that a per-line rule finds in the first
/// `n` lines, in line order.
pub open spec fn gather(rules: spec_fn(int) -> Option<(int, ElementView)>, bucket: int, n: int) -> Seq<
    ElementView,
>
    decreases n,
{
    if n <= 0 {
        Seq::empty()
    } else {
        gather(rules, bucket, n - 1) + match rules(n - 1) {
            Some((b, e)) => if b == bucket {
                seq![e]
            } else {
                Seq::empty()
            },
            None => Seq::empty(),
        }
    }
}

// ---------------------------------------------------------------- Rust

/// Bucket 0: `mod x;` lines; 1: `struct X {` lines; 2: `fn f(` lines.
pub open spec fn rust_rule(t: Seq<char>, line: int) -> Option<(int, ElementView)> {
    if begins(t, "mod "@) && finishes(t, ";"@) {
        Some((0, bare(t.subrange("mod "@.len() as int, t.len() - 1), "module"@, line)))
    } else if begins(t, "struct "@) && infix(t, "{"@) {
        let w = words_of(t.subrange("struct "@.len() as int, t.len() as int));
        if w.len() > 0 {
            Some((1, bare(w[0], "struct"@, line)))
        } else {
            None
        }
    } else if begins(t, "fn "@) {
        Some(
            (
                2,
                bare(
                    trim(take_before(t.subrange("fn "@.len() as int, t.len() as int), "("@)),
                    "function"@,
                    line,
                ),
            ),
        )
    } else {
        None
    }
}

pub open spec fn rust_rules(c: Seq<char>) -> spec_fn(int) -> Option<(int, ElementView)> {
    |i: int| rust_rule(trimmed_lines(c)[i], i + 1)
}

/// Modules, then structs, then functions, each in line order.
pub open spec fn rust_elements(c: Seq<char>) -> Seq<ElementView> {
    let n = lines_of(c).len() as int;
    gather(rust_rules(c), 0, n) + gather(rust_rules(c), 1, n) + gather(rust_rules(c), 2, n)
}

// ---------------------------------------------------------------- Python

/// Bucket 0: `class X(` or `class X:` lines; 1: `def f(` lines.
pub open spec fn python_rule(t: Seq<char>, line: int) -> Option<(int, ElementView)> {
    if begins(t, "class "@) {
        let rest = t.subrange("class "@.len() as int, t.len() as int);
        Some((0, bare(trim(take_before(take_before(rest, "("@), ":"@)), "class"@, line)))
    } else if begins(t, "def "@) {
        let rest = t.subrange("def "@.len() as int, t.len() as int);
        Some((1, bare(trim(take_before(rest, "("@)), "function"@, line)))
    } else {
        None
    }
}

pub open spec fn python_rules(c: Seq<char>) -> spec_fn(int) -> Option<(int, ElementView)> {
    |i: int| python_rule(trimmed_lines(c)[i], i + 1)
}

/// Classes, then functions, each in line order.
pub open spec fn python_elements(c: Seq<char>) -> Seq<ElementView> {
    let n = lines_of(c).len() as int;
    gather(python_rules(c), 0, n) + gather(python_rules(c), 1, n)
}

// ---------------------------------------------------------------- Go

/// The package name known before line `n`: set by the first `package` line
/// that names one.
pub open spec fn go_package(ts: Seq<Seq<char>>, n: int) -> Seq<char>
    decreases n,
{
    if n <= 0 || n > ts.len() {
        Seq::empty()
    } else {
        let p = go_package(ts, n - 1);
        let t = ts[n - 1];
        if begins(t, "package "@) && p.len() == 0 {
            trim(t.subrange("package "@.len() as int, t.len() as int))
        } else {
            p
        }
    }
}

/// Bucket 0: `type X struct` lines; 1: `type X interface` lines; 2: `func`
/// lines, a method when the function has a receiver.
pub open spec fn go_rule(ts: Seq<Seq<char>>, i: int) -> Option<(int, ElementView)> {
    let t = ts[i];
    let w = words_of(t);
    if begins(t, "package "@) && go_package(ts, i).len() == 0 {
        None
    } else if begins(t, "type "@) && infix(t, "struct"@) {
        if w.len() >= 3 && w[0] == "type"@ {
            Some((0, bare(w[1], "struct"@, i + 1)))
        } else {
            None
        }
    } else if begins(t, "type "@) && infix(t, "interface"@) {
        if w.len() >= 3 && w[0] == "type"@ {
            Some((1, bare(w[1], "interface"@, i + 1)))
        } else {
            None
        }
    } else if begins(t, "func "@) {
        let (name, receiver) = go_func(t);
        if name.len() > 0 {
            Some(
                (
                    2,
                    ElementView {
                        name,
                        kind: if receiver {
                            "method"@
                        } else {
                            "function"@
                        },
                        line: i + 1,
                        description: None,
                        metadata: Some(plain_meta(Some(go_package(ts, i)))),
                    },
                ),
            )
        } else {
            None
        }
    } else {
        None
    }
}

/// Name declared by a trimmed `func` line, and whether it has a receiver:
/// `func (r *T) Name(...)` declares the method `Name`, `func Name(...)` the
/// function `Name`.
pub open spec fn go_func(t: Seq<char>) -> (Seq<char>, bool) {
    let rest = trim(t.subrange("func "@.len() as int, t.len() as int));
    if begins(rest, "("@) {
        if infix(rest, ")"@) {
            (trim(take_before(after_first(rest, ")"@), "("@)), true)
        } else {
            (Seq::empty(), true)
        }
    } else {
        (trim(take_before(rest, "("@)), false)
    }
}

pub open spec fn go_rules(c: Seq<char>) -> spec_fn(int) -> Option<(int, ElementView)> {
    |i: int| go_rule(trimmed_lines(c), i)
}

/// Structs, then interfaces, then functions and methods, each in line order.
pub open spec fn go_elements(c: Seq<char>) -> Seq<ElementView> {
    let n = lines_of(c).len() as int;
    gather(go_rules(c), 0, n) + gather(go_rules(c), 1, n) + gather(go_rules(c), 2, n)
}

// ---------------------------------------------------------------- JavaScript

/// Whether a script imports or extends React.
pub open spec fn react_file(c: Seq<char>) -> bool {
    infix(c, "import React"@) || infix(c, "from 'react'"@) || infix(c, "extends React.Component"@)
        || infix(c, "<React."@) || infix(c, "<>"@)
}

/// Whether a script uses Angular decorators.
pub open spec fn angular_file(c: Seq<char>) -> bool {
    infix(c, "@Component"@) || infix(c, "@NgModule"@) || infix(c, "@Injectable"@) || infix(
        c,
        "@Input("@,
    ) || infix(c, "@Output("@)
}

/// Name declared by a trimmed `class X ...` line.
pub open spec fn class_name(t: Seq<char>) -> Seq<char> {
    trim(take_before(take_before(t.subrange("class "@.len() as int, t.len() as int), " "@), "{"@))
}

/// Name declared by a trimmed `function f(...` line.
pub open spec fn function_name(t: Seq<char>) -> Seq<char> {
    trim(take_before(t.subrange("function "@.len() as int, t.len() as int), "("@))
}

/// Name declared by a trimmed `const x = ...` line.
pub open spec fn const_name(t: Seq<char>) -> Seq<char> {
    trim(take_before(t.subrange("const "@.len() as int, t.len() as int), " = "@))
}

/// The class declared on the first of lines `j..end` that begins with
/// `class `.
pub open spec fn class_ahead(ts: Seq<Seq<char>>, j: int, end: int) -> Option<Seq<char>>
    decreases end - j,
{
    if j >= end || j < 0 || j >= ts.len() {
        None
    } else if begins(ts[j], "class "@) {
        Some(class_name(ts[j]))
    } else {
        class_ahead(ts, j + 1, end)
    }
}

/// Whether one of lines `j..end` returns markup: it holds `return (` and
/// either it or the next raw line holds `<`.
pub open spec fn jsx_ahead(ts: Seq<Seq<char>>, ls: Seq<Seq<char>>, j: int, end: int) -> bool
    decreases end - j,
{
    if j >= end || j < 0 || j >= ts.len() {
        false
    } else if infix(ts[j], "return ("@) && (infix(ts[j], "<"@) || (j + 1 < ls.len() && infix(
        ls[j + 1],
        "<"@,
    ))) {
        true
    } else {
        jsx_ahead(ts, ls, j + 1, end)
    }
}

pub open spec fn min_int(a: int, b: int) -> int {
    if a < b {
        a
    } else {
        b
    }
}

pub open spec fn named_in(v: Seq<ElementView>, name: Seq<char>) -> bool {
    exists|k: int| 0 <= k < v.len() && v[k].name == name
}

pub ghost struct JsScan {
    pub components: Seq<ElementView>,
    pub hooks: Seq<ElementView>,
    pub classes: Seq<ElementView>,
    pub functions: Seq<ElementView>,
}

pub open spec fn angular_meta(service: bool, annotation: Seq<char>) -> MetaView {
    MetaView {
        is_plugin: false,
        plugin_type: None,
        is_service: service,
        service_tags: Seq::empty(),
        is_hook: false,
        hook_name: None,
        annotations: seq![annotation],
        namespace: None,
    }
}

/// What line `i` of a script adds to the scan so far.
pub open spec fn js_step(c: Seq<char>, st: JsScan, i: int) -> JsScan {
    let ls = lines_of(c);
    let ts = trimmed_lines(c);
    let n = ls.len() as int;
    let t = ts[i];
    let react = react_file(c);
    let angular = angular_file(c);
    if angular && infix(t, "@Component"@) {
        match class_ahead(ts, i, min_int(i + 5, n)) {
            Some(name) => JsScan {
                components: st.components.push(
                    ElementView {
                        name,
                        kind: "angular_component"@,
                        line: i + 1,
                        description: None,
                        metadata: Some(angular_meta(false, "@Component"@)),
                    },
                ),
                ..st
            },
            None => st,
        }
    } else if angular && infix(t, "@Injectable"@) {
        match class_ahead(ts, i, min_int(i + 5, n)) {
            Some(name) => JsScan {
                components: st.components.push(
                    ElementView {
                        name,
                        kind: "angular_service"@,
                        line: i + 1,
                        description: None,
                        metadata: Some(angular_meta(true, "@Injectable"@)),
                    },
                ),
                ..st
            },
            None => st,
        }
    } else if react && infix(t, "class "@) && infix(t, "extends React.Component"@) {
        if begins(t, "class "@) {
            JsScan {
                components: st.components.push(bare(class_name(t), "react_component"@, i + 1)),
                ..st
            }
        } else {
            st
        }
    } else if react && (infix(t, "function "@) || infix(t, "const "@)) && returns_from(ls, i) {
        let name = if begins(t, "function "@) {
            Some(function_name(t))
        } else if begins(t, "const "@) && infix(t, " = "@) {
            Some(const_name(t))
        } else {
            None
        };
        match name {
            Some(name) => if jsx_ahead(ts, ls, i, min_int(i + 20, n)) {
                JsScan {
                    components: st.components.push(bare(name, "react_component"@, i + 1)),
                    ..st
                }
            } else {
                st
            },
            None => st,
        }
    } else if react && infix(t, "use"@) && begins(t, "function "@) {
        if begins(function_name(t), "use"@) {
            JsScan { hooks: st.hooks.push(bare(function_name(t), "react_hook"@, i + 1)), ..st }
        } else {
            st
        }
    } else if begins(t, "class "@) {
        if !named_in(st.components, class_name(t)) {
            JsScan { classes: st.classes.push(bare(class_name(t), "class"@, i + 1)), ..st }
        } else {
            st
        }
    } else if begins(t, "function "@) {
        if !named_in(st.components, function_name(t)) && !named_in(st.hooks, function_name(t)) {
            JsScan {
                functions: st.functions.push(bare(function_name(t), "function"@, i + 1)),
                ..st
            }
        } else {
            st
        }
    } else if begins(t, "const "@) && infix(t, " = ("@) && infix(t, "=>"@) {
        if !named_in(st.components, const_name(t)) {
            JsScan { functions: st.functions.push(bare(const_name(t), "function"@, i + 1)), ..st }
        } else {
            st
        }
    } else {
        st
    }
}

/// The scan of a script after its first `n` lines.
pub open spec fn js_scan(c: Seq<char>, n: int) -> JsScan
    decreases n,
{
    if n <= 0 {
        JsScan {
            components: Seq::empty(),
            hooks: Seq::empty(),
            classes: Seq::empty(),
            functions: Seq::empty(),
        }
    } else {
        js_step(c, js_scan(c, n - 1), n - 1)
    }
}

/// Components, then hooks, then classes, then functions.
pub open spec fn javascript_elements(c: Seq<char>) -> Seq<ElementView> {
    let st = js_scan(c, lines_of(c).len() as int);
    st.components + st.hooks + unclaimed(st.classes, st.components, st.hooks) + unclaimed(
        st.functions,
        st.components,
        st.hooks,
    )
}

/// The elements of `v` whose name no component or hook carries.
pub open spec fn unclaimed(v: Seq<ElementView>, comps: Seq<ElementView>, hooks: Seq<ElementView>) -> Seq<
    ElementView,
>
    decreases v.len(),
{
    if v.len() == 0 {
        v
    } else if named_in(comps, v.last().name) || named_in(hooks, v.last().name) {
        unclaimed(v.drop_last(), comps, hooks)
    } else {
        unclaimed(v.drop_last(), comps, hooks).push(v.last())
    }
}

/// Whether a raw line from line `j` on holds `return (`.
pub open spec fn returns_from(ls: Seq<Seq<char>>, j: int) -> bool
    decreases ls.len() - j,
{
    if j < 0 || j >= ls.len() {
        false
    } else {
        infix(ls[j], "return ("@) || returns_from(ls, j + 1)
    }
}

// ---------------------------------------------------------------- PHP

/// Whether a PHP file looks like Drupal code.
pub open spec fn drupal_php(c: Seq<char>) -> bool {
    infix(c, "Drupal\\"@) || (infix(c, "function"@) && infix(c, "_hook_"@)) || infix(
        c,
        "@Implements"@,
    ) || infix(c, "@implements"@) || infix(c, "\\Plugin\\"@) || infix(c, "services.yml"@)
}

/// Group `g` of the first match of pattern `p` in `t`, or `None` where the
/// pattern does not compile.
pub open spec fn capture_if_valid(p: Seq<char>, t: Seq<char>, g: nat) -> Option<Seq<char>> {
    if pattern_valid(p) {
        first_capture(p, t, g)
    } else {
        None
    }
}

/// The namespace a PHP file declares.
pub open spec fn php_namespace(c: Seq<char>) -> Option<Seq<char>> {
    capture_if_valid("namespace\\s+([^;]+);"@, c, 1)
}

/// A doc-comment line with its comment markers removed.
pub open spec fn doc_text(l: Seq<char>) -> Seq<char> {
    trim(strip_prefixes(strip_prefixes(strip_suffixes(trim(l), "*/"@), "/**"@), "*"@))
}

/// The description text gathered from the first `k` lines of a doc
/// comment, and whether an annotation line ended it.
pub open spec fn desc_scan(ls: Seq<Seq<char>>, k: int) -> (Seq<char>, bool)
    decreases k,
{
    if k <= 0 || k > ls.len() {
        (Seq::empty(), false)
    } else {
        let (acc, stop) = desc_scan(ls, k - 1);
        let x = doc_text(ls[k - 1]);
        if stop || begins(x, "@"@) {
            (acc, true)
        } else if x.len() > 0 {
            (acc + x + seq![' '], false)
        } else {
            (acc, false)
        }
    }
}

/// The prose of a doc comment, up to its first annotation.
pub open spec fn doc_description(doc: Seq<char>) -> Option<Seq<char>> {
    let d = trim(desc_scan(lines_of(doc), lines_of(doc).len() as int).0);
    if doc.len() == 0 || d.len() == 0 {
        None
    } else {
        Some(d)
    }
}

pub open spec fn any_has(v: Seq<Seq<char>>, p: Seq<char>) -> bool {
    exists|k: int| 0 <= k < v.len() && infix(v[k], p)
}

/// The first annotation holding `p`.
pub open spec fn first_holding(v: Seq<Seq<char>>, p: Seq<char>, k: int) -> Option<Seq<char>>
    decreases v.len() - k,
{
    if k < 0 || k >= v.len() {
        None
    } else if infix(v[k], p) {
        Some(v[k])
    } else {
        first_holding(v, p, k + 1)
    }
}

/// Plugin id of the first `@Plugin` annotation.
pub open spec fn plugin_type_of(ann: Seq<Seq<char>>) -> Option<Seq<char>> {
    match first_holding(ann, "@Plugin"@, 0) {
        Some(a) => capture_if_valid("@Plugin\\s*\\(\\s*id\\s*=\\s*[\"']([^\"']+)[\"']"@, a, 1),
        None => None,
    }
}

/// Plugin kind given by a line that extends a Drupal plugin base class.
pub open spec fn base_kind(l: Seq<char>) -> Option<Seq<char>> {
    if infix(l, "extends"@) && (infix(l, "PluginBase"@) || infix(l, "BlockBase"@) || infix(
        l,
        "FieldItemBase"@,
    ) || infix(l, "ConfigEntityBase"@)) {
        Some(
            if infix(l, "BlockBase"@) {
                "Block"@
            } else if infix(l, "FieldItemBase"@) {
                "Field"@
            } else if infix(l, "ConfigEntityBase"@) {
                "ConfigEntity"@
            } else {
                "Generic"@
            },
        )
    } else {
        None
    }
}

/// Plugin kind from the first of lines `j..end` that extends a plugin base.
pub open spec fn base_ahead(ts: Seq<Seq<char>>, j: int, end: int) -> Option<Seq<char>>
    decreases end - j,
{
    if j >= end || j < 0 || j >= ts.len() {
        None
    } else if base_kind(ts[j]) is Some {
        base_kind(ts[j])
    } else {
        base_ahead(ts, j + 1, end)
    }
}

pub open spec fn ns_holds(ns: Option<Seq<char>>, p: Seq<char>) -> bool {
    match ns {
        Some(n) => infix(n, p),
        None => false,
    }
}

/// The element for the class declared on line `i`, which begins with
/// `class `.
pub open spec fn php_class(
    ts: Seq<Seq<char>>,
    i: int,
    doc: Seq<char>,
    ann: Seq<Seq<char>>,
    ns: Option<Seq<char>>,
) -> ElementView {
    let name = class_name(ts[i]);
    let by_annotation = any_has(ann, "@Plugin"@);
    let plugin_type = if by_annotation {
        plugin_type_of(ann)
    } else {
        None
    };
    let service = infix(doc, "@Service"@) || infix(doc, "service"@);
    let meta = MetaView {
        is_plugin: true,
        plugin_type,
        is_service: service,
        service_tags: Seq::empty(),
        is_hook: false,
        hook_name: None,
        annotations: ann,
        namespace: ns,
    };
    match base_ahead(ts, i, min_int(i + 5, ts.len() as int)) {
        Some(k) => ElementView {
            name,
            kind: "drupal_plugin"@,
            line: i + 1,
            description: doc_description(doc),
            metadata: Some(MetaView { plugin_type: Some(k), ..meta }),
        },
        None => {
            let plugin = by_annotation || ns_holds(ns, "Plugin"@);
            ElementView {
                name,
                kind: if plugin {
                    "drupal_plugin"@
                } else if service {
                    "drupal_service"@
                } else if ns_holds(ns, "Drupal"@) {
                    "drupal_class"@
                } else {
                    "class"@
                },
                line: i + 1,
                description: doc_description(doc),
                metadata: Some(MetaView { is_plugin: plugin, ..meta }),
            }
        },
    }
}

/// The element for the interface declared on line `i`.
pub open spec fn php_interface(
    t: Seq<char>,
    i: int,
    doc: Seq<char>,
    ann: Seq<Seq<char>>,
    ns: Option<Seq<char>>,
) -> ElementView {
    ElementView {
        name: trim(
            take_before(
                take_before(t.subrange("interface "@.len() as int, t.len() as int), " "@),
                "{"@,
            ),
        ),
        kind: "interface"@,
        line: i + 1,
        description: doc_description(doc),
        metadata: Some(MetaView { annotations: ann, ..plain_meta(ns) }),
    }
}

/// Hook implemented by a function named `prefix_hook_name`: `hook_`
/// followed by what comes after the first `_hook_`.
pub open spec fn hook_from_name(name: Seq<char>) -> Option<Seq<char>> {
    if infix(name, "_hook_"@) {
        Some("hook_"@ + after_first(name, "_hook_"@))
    } else {
        None
    }
}

pub open spec fn implements_note(a: Seq<char>) -> bool {
    infix(a, "@Implements"@) || infix(a, "@implements"@)
}

pub open spec fn first_implements(v: Seq<Seq<char>>, k: int) -> Option<Seq<char>>
    decreases v.len() - k,
{
    if k < 0 || k >= v.len() {
        None
    } else if implements_note(v[k]) {
        Some(v[k])
    } else {
        first_implements(v, k + 1)
    }
}

/// Hook named by the first `@Implements hook_x` annotation.
pub open spec fn hook_from_annotation(ann: Seq<Seq<char>>) -> Option<Seq<char>> {
    match first_implements(ann, 0) {
        Some(a) => match capture_if_valid(
            "@(?:Implements|implements)\\s+hook_([a-zA-Z0-9_]+)"@,
            a,
            1,
        ) {
            Some(x) => Some("hook_"@ + x),
            None => None,
        },
        None => None,
    }
}

/// The element for the function declared on line `i`.
pub open spec fn php_function(
    t: Seq<char>,
    i: int,
    doc: Seq<char>,
    ann: Seq<Seq<char>>,
    ns: Option<Seq<char>>,
    drupal: bool,
) -> ElementView {
    let name = function_name(t);
    let by_name = infix(name, "_hook_"@);
    let is_hook = by_name || exists|k: int| 0 <= k < ann.len() && implements_note(ann[k]);
    let hook_name = if !is_hook {
        None
    } else if by_name {
        hook_from_name(name)
    } else {
        hook_from_annotation(ann)
    };
    ElementView {
        name,
        kind: if is_hook {
            "drupal_hook"@
        } else if drupal {
            "drupal_function"@
        } else {
            "function"@
        },
        line: i + 1,
        description: doc_description(doc),
        metadata: Some(MetaView { is_hook, hook_name, annotations: ann, ..plain_meta(ns) }),
    }
}

pub ghost struct PhpScan {
    pub in_doc: bool,
    pub doc: Seq<char>,
    pub ann: Seq<Seq<char>>,
    pub elements: Seq<ElementView>,
}

/// What line `i` of a PHP file does to the scan so far.  A doc comment is
/// gathered line by line and handed to the declaration that follows it;
/// any other line drops it.
pub open spec fn php_step(c: Seq<char>, st: PhpScan, i: int) -> PhpScan {
    let ts = trimmed_lines(c);
    let t = ts[i];
    let ns = php_namespace(c);
    if begins(t, "/**"@) {
        PhpScan {
            in_doc: !infix(t.subrange(3, t.len() as int), "*/"@),
            doc: t,
            ann: Seq::empty(),
            ..st
        }
    } else if st.in_doc {
        let a = trim(strip_prefixes(t, "*"@));
        PhpScan {
            in_doc: !infix(t, "*/"@),
            doc: st.doc + seq!['\n'] + t,
            ann: if !infix(t, "*/"@) && begins(a, "@"@) {
                st.ann.push(a)
            } else {
                st.ann
            },
            ..st
        }
    } else {
        let cleared = PhpScan { doc: Seq::empty(), ann: Seq::empty(), ..st };
        if begins(t, "class "@) {
            PhpScan {
                elements: st.elements.push(php_class(ts, i, st.doc, st.ann, ns)),
                ..cleared
            }
        } else if begins(t, "interface "@) {
            PhpScan {
                elements: st.elements.push(php_interface(t, i, st.doc, st.ann, ns)),
                ..cleared
            }
        } else if begins(t, "function "@) {
            PhpScan {
                elements: st.elements.push(
                    php_function(t, i, st.doc, st.ann, ns, drupal_php(c)),
                ),
                ..cleared
            }
        } else {
            cleared
        }
    }
}

pub open spec fn php_scan(c: Seq<char>, n: int) -> PhpScan
    decreases n,
{
    if n <= 0 {
        PhpScan { in_doc: false, doc: Seq::empty(), ann: Seq::empty(), elements: Seq::empty() }
    } else {
        php_step(c, php_scan(c, n - 1), n - 1)
    }
}

/// Classes, interfaces and functions of a PHP file, in line order.
pub open spec fn php_elements(c: Seq<char>) -> Seq<ElementView> {
    php_scan(c, lines_of(c).len() as int).elements
}

/// Elements found in a file with the given extension, and whether it looks
/// like Drupal code; files of other kinds have no elements.
pub open spec fn file_structure(c: Seq<char>, ext: Seq<char>) -> (Seq<ElementView>, bool) {
    if ext == "rs"@ {
        (rust_elements(c), false)
    } else if ext == "py"@ {
        (python_elements(c), false)
    } else if ext == "js"@ || ext == "ts"@ || ext == "jsx"@ || ext == "tsx"@ {
        (javascript_elements(c), false)
    } else if ext == "php"@ {
        (php_elements(c), drupal_php(c))
    } else if ext == "go"@ {
        (go_elements(c), false)
    } else {
        (Seq::empty(), false)
    }
}

// ---------------------------------------------------------------- exec

/// An element without description or metadata.
fn bare_element(name: &Vec<char>, kind: &str, line: usize) -> (r: CodeElement)
    ensures
        r@ == bare(name@, kind@, line as int),
{
    CodeElement {
        name: string_of(name),
        kind: kind.to_string(),
        line,
        description: None,
        metadata: None,
    }
}

/// Metadata with every flag off and every list empty.
fn plain_metadata(namespace: Option<String>) -> (r: ElementMetadata)
    ensures
        r@ == plain_meta(opt_view(namespace)),
{
    let r = ElementMetadata {
        is_plugin: false,
        plugin_type: None,
        is_service: false,
        service_tags: Vec::new(),
        is_hook: false,
        hook_name: None,
        annotations: Vec::new(),
        namespace,
    };
    assert(strings_view(r.service_tags@) =~= Seq::empty());
    assert(strings_view(r.annotations@) =~= Seq::empty());
    r
}

/// The trimmed lines of `c`.
fn trimmed_lines_of(c: &Vec<char>) -> (r: Vec<Vec<char>>)
    ensures
        views(r@) == trimmed_lines(c@),
        r@.len() == lines_of(c@).len(),
{
    let ls = split_lines(c);
    let mut out: Vec<Vec<char>> = Vec::new();
    let mut i: usize = 0;
    while i < ls.len()
        invariant
            i <= ls.len(),
            views(ls@) == lines_of(c@),
            views(out@) == trimmed_lines(c@).subrange(0, i as int),
        decreases ls.len() - i,
    {
        let t = trimmed(&ls[i]);
        let ghost prev = out@;
        out.push(t);
        assert(views(ls@)[i as int] == ls@[i as int]@);
        assert(views(out@) =~= views(prev).push(t@));
        i = i + 1;
        assert(views(out@) =~= trimmed_lines(c@).subrange(0, i as int));
    }
    assert(trimmed_lines(c@).subrange(0, i as int) =~= trimmed_lines(c@));
    out
}

/// Appends an element to the bucket a rule chose, keeping each bucket equal
/// to what `gather` finds in the lines read so far.
proof fn lemma_gather_step(
    rules: spec_fn(int) -> Option<(int, ElementView)>,
    bucket: int,
    n: int,
)
    requires
        n >= 0,
    ensures
        gather(rules, bucket, n + 1) == gather(rules, bucket, n) + match rules(n) {
            Some((b, e)) => if b == bucket {
                seq![e]
            } else {
                Seq::empty()
            },
            None => Seq::empty(),
        },
{
}

/// Pushes `e` onto `v`, whose view grows by `e@`.
fn push_element(v: &mut Vec<CodeElement>, e: CodeElement)
    ensures
        elements_view(final(v)@) == elements_view(old(v)@).push(e@),
{
    let ghost prev = v@;
    v.push(e);
    assert(elements_view(v@) =~= elements_view(prev).push(e@));
}

/// Concatenation of element vectors.
fn join_elements(a: Vec<CodeElement>, b: Vec<CodeElement>) -> (r: Vec<CodeElement>)
    ensures
        elements_view(r@) == elements_view(a@) + elements_view(b@),
{
    let mut a = a;
    let mut b = b;
    let ghost a0 = a@;
    let ghost b0 = b@;
    a.append(&mut b);
    assert(a@ == a0 + b0);
    assert(elements_view(a@) =~= elements_view(a0) + elements_view(b0));
    a
}

/// Whether a raw line from line `j` on holds `return (`.
fn find_return_from(ls: &Vec<Vec<char>>, j: usize) -> (r: bool)
    ensures
        r == returns_from(views(ls@), j as int),
{
    let ghost lv = views(ls@);
    let mut k: usize = j;
    while k < ls.len()
        invariant
            j <= k,
            lv == views(ls@),
            returns_from(lv, j as int) == returns_from(lv, k as int),
        decreases ls.len() - k,
    {
        assert(lv[k as int] == ls@[k as int]@);
        if contains_str(&ls[k], "return (") {
            return true;
        }
        k = k + 1;
    }
    false
}

/// The elements of `v` whose name no component or hook carries, in order.
fn keep_unclaimed(v: Vec<CodeElement>, comps: &Vec<CodeElement>, hooks: &Vec<CodeElement>) -> (r:
    Vec<CodeElement>)
    ensures
        elements_view(r@) == unclaimed(elements_view(v@), elements_view(comps@), elements_view(hooks@)),
{
    let ghost orig = elements_view(v@);
    let ghost cv = elements_view(comps@);
    let ghost hv = elements_view(hooks@);
    let n = v.len();
    let mut rest = v;
    let mut out: Vec<CodeElement> = Vec::new();
    let mut k: usize = 0;
    assert(elements_view(out@) =~= unclaimed(orig.subrange(0, 0), cv, hv));
    while k < n
        invariant
            k <= n,
            n == orig.len(),
            elements_view(rest@) == orig.subrange(k as int, n as int),
            elements_view(out@) == unclaimed(orig.subrange(0, k as int), cv, hv),
            cv == elements_view(comps@),
            hv == elements_view(hooks@),
        decreases n - k,
    {
        let ghost r0 = rest@;
        assert(r0.len() > 0) by {
            assert(elements_view(r0).len() == n - k);
        }
        let e = rest.remove(0);
        assert(e@ == orig[k as int]) by {
            assert(elements_view(r0)[0] == r0[0]@);
        }
        proof {
            let sub = orig.subrange(k as int, n as int);
            assert(elements_view(r0) == sub);
            assert(rest@ == r0.remove(0));
            assert(rest@.len() == r0.len() - 1);
            assert(elements_view(r0).len() == r0.len());
            assert(r0.len() == n - k);
            assert forall|q: int| 0 <= q < rest@.len() implies elements_view(rest@)[q]
                == orig.subrange(k + 1, n as int)[q] by {
                assert(rest@[q] == r0[q + 1]);
                assert(elements_view(rest@)[q] == rest@[q]@);
                assert(elements_view(r0)[q + 1] == r0[q + 1]@);
                let kk = k as int;
                assert(sub[q + 1] == orig[kk + 1 + q]);
                assert(orig.subrange(kk + 1, n as int)[q] == orig[kk + 1 + q]);
            }
            assert(elements_view(rest@) =~= orig.subrange(k + 1, n as int));
        }
        assert(orig.subrange(0, k + 1).drop_last() =~= orig.subrange(0, k as int));
        let name = chars_of(e.name.as_str());
        if !has_name(comps, &name) && !has_name(hooks, &name) {
            push_element(&mut out, e);
        }
        k = k + 1;
    }
    assert(orig.subrange(0, n as int) =~= orig);
    out
}

/// Whether some element of `v` has the given name.
fn has_name(v: &Vec<CodeElement>, name: &Vec<char>) -> (r: bool)
    ensures
        r == named_in(elements_view(v@), name@),
{
    let mut k: usize = 0;
    while k < v.len()
        invariant
            k <= v.len(),
            forall|q: int| 0 <= q < k ==> v@[q]@.name != name@,
        decreases v.len() - k,
    {
        let nk = chars_of(v[k].name.as_str());
        if same_chars(&nk, name) {
            assert(elements_view(v@)[k as int].name == name@);
            return true;
        }
        k = k + 1;
    }
    assert forall|q: int| 0 <= q < elements_view(v@).len() implies elements_view(
        v@,
    )[q].name != name@ by {
        assert(elements_view(v@)[q] == v@[q]@);
    }
    false
}

/// Whether two character vectors are equal.
fn same_chars(a: &Vec<char>, b: &Vec<char>) -> (r: bool)
    ensures
        r == (a@ == b@),
{
    if a.len() != b.len() {
        return false;
    }
    let mut i: usize = 0;
    while i < a.len()
        invariant
            a.len() == b.len(),
            i <= a.len(),
            forall|k: int| 0 <= k < i ==> a@[k] == b@[k],
        decreases a.len() - i,
    {
        if a[i] != b[i] {
            assert(a@[i as int] != b@[i as int]);
            return false;
        }
        i = i + 1;
    }
    assert(a@ =~= b@);
    true
}

/// Name declared by a trimmed `class X ...` line.
fn class_name_of(t: &Vec<char>) -> (r: Vec<char>)
    requires
        begins(t@, "class "@),
    ensures
        r@ == class_name(t@),
{
    let rest = strip_prefixes_once(t, "class ");
    trimmed(&before_str(&before_str(&rest, " "), "{"))
}

/// Name declared by a trimmed `function f(...` line.
fn function_name_of(t: &Vec<char>) -> (r: Vec<char>)
    requires
        begins(t@, "function "@),
    ensures
        r@ == function_name(t@),
{
    let rest = strip_prefixes_once(t, "function ");
    trimmed(&before_str(&rest, "("))
}

/// Name declared by a trimmed `const x = ...` line.
fn const_name_of(t: &Vec<char>) -> (r: Vec<char>)
    requires
        begins(t@, "const "@),
    ensures
        r@ == const_name(t@),
{
    let rest = strip_prefixes_once(t, "const ");
    trimmed(&before_str(&rest, " = "))
}

/// The class declared on the first of lines `j..end` that begins with
/// `class `.
fn find_class_ahead(ts: &Vec<Vec<char>>, j: usize, end: usize) -> (r: Option<Vec<char>>)
    requires
        end <= ts.len(),
    ensures
        match r {
            Some(v) => class_ahead(views(ts@), j as int, end as int) == Some(v@),
            None => class_ahead(views(ts@), j as int, end as int) is None,
        },
{
    let ghost tv = views(ts@);
    let mut k: usize = j;
    while k < end
        invariant
            end <= ts.len(),
            j <= k,
            tv == views(ts@),
            class_ahead(tv, j as int, end as int) == class_ahead(tv, k as int, end as int),
        decreases end - k,
    {
        assert(tv[k as int] == ts@[k as int]@);
        if starts_with_str(&ts[k], "class ") {
            return Some(class_name_of(&ts[k]));
        }
        k = k + 1;
    }
    None
}

/// Whether one of lines `j..end` returns markup.
fn find_jsx_ahead(ts: &Vec<Vec<char>>, ls: &Vec<Vec<char>>, j: usize, end: usize) -> (r: bool)
    requires
        end <= ts.len(),
    ensures
        r == jsx_ahead(views(ts@), views(ls@), j as int, end as int),
{
    let ghost tv = views(ts@);
    let ghost lv = views(ls@);
    let mut k: usize = j;
    while k < end
        invariant
            end <= ts.len(),
            j <= k,
            tv == views(ts@),
            lv == views(ls@),
            jsx_ahead(tv, lv, j as int, end as int) == jsx_ahead(tv, lv, k as int, end as int),
        decreases end - k,
    {
        assert(tv[k as int] == ts@[k as int]@);
        if k + 1 < ls.len() {
            assert(lv[k + 1] == ls@[k + 1]@);
        }
        if contains_str(&ts[k], "return (") && (contains_str(&ts[k], "<") || (k + 1 < ls.len()
            && contains_str(&ls[k + 1], "<"))) {
            return true;
        }
        k = k + 1;
    }
    false
}

fn angular_metadata(service: bool, annotation: &str) -> (r: ElementMetadata)
    ensures
        r@ == angular_meta(service, annotation@),
{
    let r = ElementMetadata {
        is_plugin: false,
        plugin_type: None,
        is_service: service,
        service_tags: Vec::new(),
        is_hook: false,
        hook_name: None,
        annotations: vec![annotation.to_string()],
        namespace: None,
    };
    assert(strings_view(r.service_tags@) =~= Seq::empty());
    assert(strings_view(r.annotations@) =~= seq![annotation@]);
    r
}

/// End of a window of `w` lines from line `i`, cut at `n`.
fn window_end(i: usize, w: usize, n: usize) -> (r: usize)
    requires
        i <= n,
    ensures
        r == min_int(i + w, n as int),
{
    if n - i > w {
        i + w
    } else {
        n
    }
}

/// Group 1 of the first match of a compiled pattern, or `None` where the
/// pattern did not compile.
fn capture_with(pat: &Result<Pattern, crate::pattern::PatternError>, source: &str, t: &str) -> (r:
    Option<String>)
    requires
        pat is Ok <==> pattern_valid(source@),
        pat matches Ok(x) ==> x@ == source@,
    ensures
        opt_view(r) == capture_if_valid(source@, t@, 1),
{
    match pat {
        Ok(x) => x.capture(t, 1),
        Err(_) => None,
    }
}

/// A doc-comment line with its comment markers removed.
fn doc_text_of(l: &Vec<char>) -> (r: Vec<char>)
    ensures
        r@ == doc_text(l@),
{
    let a = strip_suffixes_str(&trimmed(l), "*/");
    let b = strip_prefixes_str(&strip_prefixes_str(&a, "/**"), "*");
    trimmed(&b)
}

/// Builds the `String` for a character sequence when it is not empty.
fn non_empty_string(v: &Vec<char>) -> (r: Option<String>)
    ensures
        opt_view(r) == if v@.len() == 0 {
            None
        } else {
            Some(v@)
        },
{
    if v.len() == 0 {
        None
    } else {
        Some(string_of(v))
    }
}

/// Index of the first `ts[k]` holding `p`, from `k` on.
fn find_holding(v: &Vec<Vec<char>>, p: &str) -> (r: Option<usize>)
    ensures
        match r {
            Some(k) => k < v.len() && first_holding(views(v@), p@, 0) == Some(v@[k as int]@),
            None => first_holding(views(v@), p@, 0) is None,
        },
{
    let ghost vv = views(v@);
    let mut k: usize = 0;
    while k < v.len()
        invariant
            k <= v.len(),
            vv == views(v@),
            first_holding(vv, p@, 0) == first_holding(vv, p@, k as int),
        decreases v.len() - k,
    {
        assert(vv[k as int] == v@[k as int]@);
        if contains_str(&v[k], p) {
            return Some(k);
        }
        k = k + 1;
    }
    None
}

/// Whether some annotation holds `p`.
fn any_holding(v: &Vec<Vec<char>>, p: &str) -> (r: bool)
    ensures
        r == any_has(views(v@), p@),
{
    let mut k: usize = 0;
    while k < v.len()
        invariant
            k <= v.len(),
            forall|q: int| 0 <= q < k ==> !infix(views(v@)[q], p@),
        decreases v.len() - k,
    {
        assert(views(v@)[k as int] == v@[k as int]@);
        if contains_str(&v[k], p) {
            return true;
        }
        k = k + 1;
    }
    false
}

/// Whether some annotation notes an implemented hook, and the first one.
fn find_implements(v: &Vec<Vec<char>>) -> (r: Option<usize>)
    ensures
        match r {
            Some(k) => k < v.len() && first_implements(views(v@), 0) == Some(v@[k as int]@)
                && implements_note(views(v@)[k as int]),
            None => first_implements(views(v@), 0) is None && forall|q: int|
                0 <= q < v.len() ==> !implements_note(views(v@)[q]),
        },
{
    let ghost vv = views(v@);
    let mut k: usize = 0;
    while k < v.len()
        invariant
            k <= v.len(),
            vv == views(v@),
            first_implements(vv, 0) == first_implements(vv, k as int),
            forall|q: int| 0 <= q < k ==> !implements_note(vv[q]),
        decreases v.len() - k,
    {
        assert(vv[k as int] == v@[k as int]@);
        if contains_str(&v[k], "@Implements") || contains_str(&v[k], "@implements") {
            return Some(k);
        }
        k = k + 1;
    }
    None
}

/// Plugin kind from the first of lines `j..end` that extends a plugin base.
fn find_base_ahead(ts: &Vec<Vec<char>>, j: usize, end: usize) -> (r: Option<String>)
    requires
        end <= ts.len(),
    ensures
        opt_view(r) == base_ahead(views(ts@), j as int, end as int),
{
    let ghost tv = views(ts@);
    let mut k: usize = j;
    while k < end
        invariant
            end <= ts.len(),
            j <= k,
            tv == views(ts@),
            base_ahead(tv, j as int, end as int) == base_ahead(tv, k as int, end as int),
        decreases end - k,
    {
        let l = &ts[k];
        assert(tv[k as int] == l@);
        if contains_str(l, "extends") && (contains_str(l, "PluginBase") || contains_str(
            l,
            "BlockBase",
        ) || contains_str(l, "FieldItemBase") || contains_str(l, "ConfigEntityBase")) {
            let kind = if contains_str(l, "BlockBase") {
                "Block"
            } else if contains_str(l, "FieldItemBase") {
                "Field"
            } else if contains_str(l, "ConfigEntityBase") {
                "ConfigEntity"
            } else {
                "Generic"
            };
            return Some(kind.to_string());
        }
        k = k + 1;
    }
    None
}

/// Copies of the annotation texts.
fn annotation_strings(v: &Vec<Vec<char>>) -> (r: Vec<String>)
    ensures
        strings_view(r@) == views(v@),
{
    let mut out: Vec<String> = Vec::new();
    let mut k: usize = 0;
    while k < v.len()
        invariant
            k <= v.len(),
            strings_view(out@) == views(v@).subrange(0, k as int),
        decreases v.len() - k,
    {
        let ghost prev = out@;
        out.push(string_of(&v[k]));
        assert(strings_view(out@) =~= strings_view(prev).push(v@[k as int]@));
        k = k + 1;
        assert(strings_view(out@) =~= views(v@).subrange(0, k as int));
    }
    assert(views(v@).subrange(0, k as int) =~= views(v@));
    out
}

fn clone_opt(o: &Option<String>) -> (r: Option<String>)
    ensures
        opt_view(r) == opt_view(*o),
{
    match o {
        Some(x) => Some(x.clone()),
        None => None,
    }
}

fn holds_opt(o: &Option<String>, p: &str) -> (r: bool)
    ensures
        r == ns_holds(opt_view(*o), p@),
{
    match o {
        Some(x) => contains_str(&chars_of(x.as_str()), p),
        None => false,
    }
}

/// Hook implemented by a function named `prefix_hook_name`.
fn hook_of_name(name: &Vec<char>) -> (r: Option<String>)
    ensures
        opt_view(r) == hook_from_name(name@),
{
    proof {
        reveal_strlit("_hook_");
    }
    match after_str(name, "_hook_") {
        Some(rest) => {
            let h = concat_chars(&chars_of("hook_"), &rest);
            Some(string_of(&h))
        },
        None => None,
    }
}

impl CodeParser {
    pub fn new() -> (r: Self) {
        CodeParser
    }

    /// Modules, structs and functions of a Rust file.
    pub fn analyze_rust_file(&self, content: &str) -> (r: FileStructure)
        ensures
            elements_view(r.elements@) == rust_elements(content@),
            !r.is_drupal,
    {
        let c = chars_of(content);
        let ts = trimmed_lines_of(&c);
        let ghost rules = rust_rules(c@);
        let mut modules: Vec<CodeElement> = Vec::new();
        let mut structs: Vec<CodeElement> = Vec::new();
        let mut functions: Vec<CodeElement> = Vec::new();
        let mut i: usize = 0;
        while i < ts.len()
            invariant
                i <= ts.len(),
                views(ts@) == trimmed_lines(c@),
                c@ == content@,
                rules == rust_rules(c@),
                elements_view(modules@) == gather(rules, 0, i as int),
                elements_view(structs@) == gather(rules, 1, i as int),
                elements_view(functions@) == gather(rules, 2, i as int),
            decreases ts.len() - i,
        {
            let t = &ts[i];
            assert(t@ == trimmed_lines(c@)[i as int]);
            assert(rules(i as int) == rust_rule(t@, i + 1));
            proof {
                lemma_gather_step(rules, 0, i as int);
                lemma_gather_step(rules, 1, i as int);
                lemma_gather_step(rules, 2, i as int);
                reveal_strlit("mod ");
                reveal_strlit(";");
            }
            if starts_with_str(t, "mod ") && ends_with_str(t, ";") {
                assert(t@.len() >= 5) by {
                    if t@.len() <= 4 {
                        assert(t@.subrange(0, 4)[3] == ' ');
                        assert(t@.subrange(t@.len() - 1, t@.len() as int)[0] == ';');
                    }
                }
                let name = slice_of(t, 4, t.len() - 1);
                push_element(&mut modules, bare_element(&name, "module", i + 1));
            } else if starts_with_str(t, "struct ") && contains_str(t, "{") {
                let rest = strip_prefixes_once(t, "struct ");
                let w = split_words(&rest);
                if w.len() > 0 {
                    assert(views(w@)[0] == w@[0]@);
                    push_element(&mut structs, bare_element(&w[0], "struct", i + 1));
                }
            } else if starts_with_str(t, "fn ") {
                let rest = strip_prefixes_once(t, "fn ");
                let name = trimmed(&before_str(&rest, "("));
                push_element(&mut functions, bare_element(&name, "function", i + 1));
            }
            i = i + 1;
        }
        let elements = join_elements(join_elements(modules, structs), functions);
        FileStructure { elements, is_drupal: false }
    }

    /// Classes and functions of a Python file.
    pub fn analyze_python_file(&self, content: &str) -> (r: FileStructure)
        ensures
            elements_view(r.elements@) == python_elements(content@),
            !r.is_drupal,
    {
        let c = chars_of(content);
        let ts = trimmed_lines_of(&c);
        let ghost rules = python_rules(c@);
        let mut classes: Vec<CodeElement> = Vec::new();
        let mut functions: Vec<CodeElement> = Vec::new();
        let mut i: usize = 0;
        while i < ts.len()
            invariant
                i <= ts.len(),
                views(ts@) == trimmed_lines(c@),
                c@ == content@,
                rules == python_rules(c@),
                elements_view(classes@) == gather(rules, 0, i as int),
                elements_view(functions@) == gather(rules, 1, i as int),
            decreases ts.len() - i,
        {
            let t = &ts[i];
            assert(t@ == trimmed_lines(c@)[i as int]);
            assert(rules(i as int) == python_rule(t@, i + 1));
            proof {
                lemma_gather_step(rules, 0, i as int);
                lemma_gather_step(rules, 1, i as int);
            }
            if starts_with_str(t, "class ") {
                let rest = strip_prefixes_once(t, "class ");
                let name = trimmed(&before_str(&before_str(&rest, "("), ":"));
                push_element(&mut classes, bare_element(&name, "class", i + 1));
            } else if starts_with_str(t, "def ") {
                let rest = strip_prefixes_once(t, "def ");
                let name = trimmed(&before_str(&rest, "("));
                push_element(&mut functions, bare_element(&name, "function", i + 1));
            }
            i = i + 1;
        }
        let elements = join_elements(classes, functions);
        FileStructure { elements, is_drupal: false }
    }

    /// Components, hooks, classes and functions of a JavaScript or
    /// TypeScript file.
    pub fn analyze_javascript_file(&self, content: &str) -> (r: FileStructure)
        ensures
            elements_view(r.elements@) == javascript_elements(content@),
            !r.is_drupal,
    {
        let c = chars_of(content);
        let react = contains_str(&c, "import React") || contains_str(&c, "from 'react'")
            || contains_str(&c, "extends React.Component") || contains_str(&c, "<React.")
            || contains_str(&c, "<>");
        let angular = contains_str(&c, "@Component") || contains_str(&c, "@NgModule")
            || contains_str(&c, "@Injectable") || contains_str(&c, "@Input(") || contains_str(
            &c,
            "@Output(",
        );
        let ls = split_lines(&c);
        let ts = trimmed_lines_of(&c);
        let ghost tv = trimmed_lines(c@);
        let ghost lv = lines_of(c@);
        let mut components: Vec<CodeElement> = Vec::new();
        let mut hooks: Vec<CodeElement> = Vec::new();
        let mut classes: Vec<CodeElement> = Vec::new();
        let mut functions: Vec<CodeElement> = Vec::new();
        let n = ts.len();
        let mut i: usize = 0;
        assert(elements_view(components@) =~= Seq::empty());
        assert(elements_view(hooks@) =~= Seq::empty());
        assert(elements_view(classes@) =~= Seq::empty());
        assert(elements_view(functions@) =~= Seq::empty());
        while i < n
            invariant
                i <= n,
                n == ts.len(),
                n == ls.len(),
                views(ts@) == tv,
                views(ls@) == lv,
                tv == trimmed_lines(c@),
                lv == lines_of(c@),
                c@ == content@,
                react == react_file(c@),
                angular == angular_file(c@),
                js_scan(c@, i as int) == (JsScan {
                    components: elements_view(components@),
                    hooks: elements_view(hooks@),
                    classes: elements_view(classes@),
                    functions: elements_view(functions@),
                }),
            decreases n - i,
        {
            let t = &ts[i];
            assert(t@ == tv[i as int]);
            if angular && contains_str(t, "@Component") {
                match find_class_ahead(&ts, i, window_end(i, 5, n)) {
                    Some(name) => {
                        let e = CodeElement {
                            name: string_of(&name),
                            kind: "angular_component".to_string(),
                            line: i + 1,
                            description: None,
                            metadata: Some(angular_metadata(false, "@Component")),
                        };
                        push_element(&mut components, e);
                    },
                    None => {},
                }
            } else if angular && contains_str(t, "@Injectable") {
                match find_class_ahead(&ts, i, window_end(i, 5, n)) {
                    Some(name) => {
                        let e = CodeElement {
                            name: string_of(&name),
                            kind: "angular_service".to_string(),
                            line: i + 1,
                            description: None,
                            metadata: Some(angular_metadata(true, "@Injectable")),
                        };
                        push_element(&mut components, e);
                    },
                    None => {},
                }
            } else if react && contains_str(t, "class ") && contains_str(
                t,
                "extends React.Component",
            ) {
                if starts_with_str(t, "class ") {
                    let name = class_name_of(t);
                    push_element(&mut components, bare_element(&name, "react_component", i + 1));
                }
            } else if react && (contains_str(t, "function ") || contains_str(t, "const "))
                && find_return_from(&ls, i) {
                let name = if starts_with_str(t, "function ") {
                    Some(function_name_of(t))
                } else if starts_with_str(t, "const ") && contains_str(t, " = ") {
                    Some(const_name_of(t))
                } else {
                    None
                };
                match name {
                    Some(name) => {
                        if find_jsx_ahead(&ts, &ls, i, window_end(i, 20, n)) {
                            push_element(
                                &mut components,
                                bare_element(&name, "react_component", i + 1),
                            );
                        }
                    },
                    None => {},
                }
            } else if react && contains_str(t, "use") && starts_with_str(t, "function ") {
                let name = function_name_of(t);
                if starts_with_str(&name, "use") {
                    push_element(&mut hooks, bare_element(&name, "react_hook", i + 1));
                }
            } else if starts_with_str(t, "class ") {
                let name = class_name_of(t);
                if !has_name(&components, &name) {
                    push_element(&mut classes, bare_element(&name, "class", i + 1));
                }
            } else if starts_with_str(t, "function ") {
                let name = function_name_of(t);
                if !has_name(&components, &name) && !has_name(&hooks, &name) {
                    push_element(&mut functions, bare_element(&name, "function", i + 1));
                }
            } else if starts_with_str(t, "const ") && contains_str(t, " = (") && contains_str(
                t,
                "=>",
            ) {
                let name = const_name_of(t);
                if !has_name(&components, &name) {
                    push_element(&mut functions, bare_element(&name, "function", i + 1));
                }
            }
            i = i + 1;
        }
        let classes = keep_unclaimed(classes, &components, &hooks);
        let functions = keep_unclaimed(functions, &components, &hooks);
        let elements = join_elements(
            join_elements(join_elements(components, hooks), classes),
            functions,
        );
        FileStructure { elements, is_drupal: false }
    }

    /// The prose of a doc comment, up to its first annotation.
    pub fn extract_doc_comment_description(&self, doc: &Vec<char>) -> (r: Option<String>)
        ensures
            opt_view(r) == doc_description(doc@),
    {
        if doc.len() == 0 {
            return None;
        }
        let ls = split_lines(doc);
        let ghost lv = views(ls@);
        let mut acc: Vec<char> = Vec::new();
        let mut stop = false;
        let mut k: usize = 0;
        while k < ls.len()
            invariant
                k <= ls.len(),
                lv == views(ls@),
                lv == lines_of(doc@),
                desc_scan(lv, k as int) == (acc@, stop),
            decreases ls.len() - k,
        {
            assert(lv[k as int] == ls@[k as int]@);
            if !stop {
                let x = doc_text_of(&ls[k]);
                if starts_with_str(&x, "@") {
                    stop = true;
                } else if x.len() > 0 {
                    append_chars(&mut acc, &x);
                    acc.push(' ');
                }
            }
            k = k + 1;
        }
        let d = trimmed(&acc);
        non_empty_string(&d)
    }

    /// The element for the class declared on line `i` of a PHP file.
    fn extract_class_definition(
        &self,
        ts: &Vec<Vec<char>>,
        i: usize,
        doc: &Vec<char>,
        ann: &Vec<Vec<char>>,
        ns: &Option<String>,
        plugin_pat: &Result<Pattern, crate::pattern::PatternError>,
    ) -> (r: CodeElement)
        requires
            i < ts.len(),
            begins(ts@[i as int]@, "class "@),
            plugin_pat is Ok <==> pattern_valid(
                "@Plugin\\s*\\(\\s*id\\s*=\\s*[\"']([^\"']+)[\"']"@,
            ),
            plugin_pat matches Ok(x) ==> x@ == "@Plugin\\s*\\(\\s*id\\s*=\\s*[\"']([^\"']+)[\"']"@,
        ensures
            r@ == php_class(views(ts@), i as int, doc@, views(ann@), opt_view(*ns)),
    {
        let ghost tv = views(ts@);
        assert(tv[i as int] == ts@[i as int]@);
        let name = class_name_of(&ts[i]);
        let by_annotation = any_holding(ann, "@Plugin");
        let plugin_type = if by_annotation {
            match find_holding(ann, "@Plugin") {
                Some(k) => {
                    assert(views(ann@)[k as int] == ann@[k as int]@);
                    let a = string_of(&ann[k]);
                    capture_with(
                        plugin_pat,
                        "@Plugin\\s*\\(\\s*id\\s*=\\s*[\"']([^\"']+)[\"']",
                        a.as_str(),
                    )
                },
                None => None,
            }
        } else {
            None
        };
        let service = contains_str(doc, "@Service") || contains_str(doc, "service");
        let description = self.extract_doc_comment_description(doc);
        let end = window_end(i, 5, ts.len());
        match find_base_ahead(ts, i, end) {
            Some(k) => {
                let meta = ElementMetadata {
                    is_plugin: true,
                    plugin_type: Some(k),
                    is_service: service,
                    service_tags: Vec::new(),
                    is_hook: false,
                    hook_name: None,
                    annotations: annotation_strings(ann),
                    namespace: clone_opt(ns),
                };
                assert(strings_view(meta.service_tags@) =~= Seq::empty());
                CodeElement {
                    name: string_of(&name),
                    kind: "drupal_plugin".to_string(),
                    line: i + 1,
                    description,
                    metadata: Some(meta),
                }
            },
            None => {
                let plugin = by_annotation || holds_opt(ns, "Plugin");
                let kind = if plugin {
                    "drupal_plugin"
                } else if service {
                    "drupal_service"
                } else if holds_opt(ns, "Drupal") {
                    "drupal_class"
                } else {
                    "class"
                };
                let meta = ElementMetadata {
                    is_plugin: plugin,
                    plugin_type,
                    is_service: service,
                    service_tags: Vec::new(),
                    is_hook: false,
                    hook_name: None,
                    annotations: annotation_strings(ann),
                    namespace: clone_opt(ns),
                };
                assert(strings_view(meta.service_tags@) =~= Seq::empty());
                CodeElement {
                    name: string_of(&name),
                    kind: kind.to_string(),
                    line: i + 1,
                    description,
                    metadata: Some(meta),
                }
            },
        }
    }

    /// The element for the function declared on a line of a PHP file.
    fn extract_function_definition(
        &self,
        t: &Vec<char>,
        i: usize,
        doc: &Vec<char>,
        ann: &Vec<Vec<char>>,
        ns: &Option<String>,
        drupal: bool,
        hook_pat: &Result<Pattern, crate::pattern::PatternError>,
    ) -> (r: CodeElement)
        requires
            begins(t@, "function "@),
            i < usize::MAX,
            hook_pat is Ok <==> pattern_valid("@(?:Implements|implements)\\s+hook_([a-zA-Z0-9_]+)"@),
            hook_pat matches Ok(x) ==> x@ == "@(?:Implements|implements)\\s+hook_([a-zA-Z0-9_]+)"@,
        ensures
            r@ == php_function(t@, i as int, doc@, views(ann@), opt_view(*ns), drupal),
    {
        let name = function_name_of(t);
        let by_name = contains_str(&name, "_hook_");
        let noted = find_implements(ann);
        let is_hook = by_name || noted.is_some();
        let hook_name = if !is_hook {
            None
        } else if by_name {
            hook_of_name(&name)
        } else {
            match noted {
                Some(k) => {
                    let a = string_of(&ann[k]);
                    match capture_with(
                        hook_pat,
                        "@(?:Implements|implements)\\s+hook_([a-zA-Z0-9_]+)",
                        a.as_str(),
                    ) {
                        Some(x) => {
                            let h = concat_chars(&chars_of("hook_"), &chars_of(x.as_str()));
                            Some(string_of(&h))
                        },
                        None => None,
                    }
                },
                None => None,
            }
        };
        let kind = if is_hook {
            "drupal_hook"
        } else if drupal {
            "drupal_function"
        } else {
            "function"
        };
        let meta = ElementMetadata {
            is_plugin: false,
            plugin_type: None,
            is_service: false,
            service_tags: Vec::new(),
            is_hook,
            hook_name,
            annotations: annotation_strings(ann),
            namespace: clone_opt(ns),
        };
        assert(strings_view(meta.service_tags@) =~= Seq::empty());
        CodeElement {
            name: string_of(&name),
            kind: kind.to_string(),
            line: i + 1,
            description: self.extract_doc_comment_description(doc),
            metadata: Some(meta),
        }
    }

    /// Classes, interfaces and functions of a PHP file, with Drupal
    /// metadata, and whether the file looks like Drupal code.
    pub fn analyze_php_file(&self, content: &str) -> (r: FileStructure)
        ensures
            elements_view(r.elements@) == php_elements(content@),
            r.is_drupal == drupal_php(content@),
    {
        let c = chars_of(content);
        let drupal = contains_str(&c, "Drupal\\") || (contains_str(&c, "function") && contains_str(
            &c,
            "_hook_",
        )) || contains_str(&c, "@Implements") || contains_str(&c, "@implements") || contains_str(
            &c,
            "\\Plugin\\",
        ) || contains_str(&c, "services.yml");
        let ns_pat = Pattern::new("namespace\\s+([^;]+);");
        let plugin_pat = Pattern::new("@Plugin\\s*\\(\\s*id\\s*=\\s*[\"']([^\"']+)[\"']");
        let hook_pat = Pattern::new("@(?:Implements|implements)\\s+hook_([a-zA-Z0-9_]+)");
        let ns = capture_with(&ns_pat, "namespace\\s+([^;]+);", content);
        let ts = trimmed_lines_of(&c);
        let ghost tv = trimmed_lines(c@);
        let mut in_doc = false;
        let mut doc: Vec<char> = Vec::new();
        let mut ann: Vec<Vec<char>> = Vec::new();
        let mut elements: Vec<CodeElement> = Vec::new();
        let mut i: usize = 0;
        assert(views(ann@) =~= Seq::empty());
        assert(elements_view(elements@) =~= Seq::empty());
        while i < ts.len()
            invariant
                i <= ts.len(),
                views(ts@) == tv,
                tv == trimmed_lines(c@),
                c@ == content@,
                drupal == drupal_php(c@),
                opt_view(ns) == php_namespace(c@),
                plugin_pat is Ok <==> pattern_valid(
                    "@Plugin\\s*\\(\\s*id\\s*=\\s*[\"']([^\"']+)[\"']"@,
                ),
                plugin_pat matches Ok(x) ==> x@ == "@Plugin\\s*\\(\\s*id\\s*=\\s*[\"']([^\"']+)[\"']"@,
                hook_pat is Ok <==> pattern_valid(
                    "@(?:Implements|implements)\\s+hook_([a-zA-Z0-9_]+)"@,
                ),
                hook_pat matches Ok(x) ==> x@ == "@(?:Implements|implements)\\s+hook_([a-zA-Z0-9_]+)"@,
                php_scan(c@, i as int) == (PhpScan {
                    in_doc,
                    doc: doc@,
                    ann: views(ann@),
                    elements: elements_view(elements@),
                }),
            decreases ts.len() - i,
        {
            let t = &ts[i];
            assert(t@ == tv[i as int]);
            if starts_with_str(t, "/**") {
                proof {
                    reveal_strlit("/**");
                }
                in_doc = !contains_from(t, &chars_of("*/"), 3);
                doc = slice_of(t, 0, t.len());
                ann = Vec::new();
                assert(doc@ =~= t@);
                assert(views(ann@) =~= Seq::empty());
            } else if in_doc {
                let closes = contains_str(t, "*/");
                let ghost d0 = doc@;
                doc.push('\n');
                append_chars(&mut doc, t);
                assert(doc@ =~= d0 + seq!['\n'] + t@);
                if !closes {
                    let a = trimmed(&strip_prefixes_str(t, "*"));
                    if starts_with_str(&a, "@") {
                        let ghost prev = ann@;
                        ann.push(a);
                        assert(views(ann@) =~= views(prev).push(a@));
                    }
                }
                in_doc = !closes;
            } else {
                if starts_with_str(t, "class ") {
                    let e = self.extract_class_definition(&ts, i, &doc, &ann, &ns, &plugin_pat);
                    push_element(&mut elements, e);
                } else if starts_with_str(t, "interface ") {
                    let rest = strip_prefixes_once(t, "interface ");
                    let name = trimmed(&before_str(&before_str(&rest, " "), "{"));
                    let mut meta = plain_metadata(clone_opt(&ns));
                    meta.annotations = annotation_strings(&ann);
                    let e = CodeElement {
                        name: string_of(&name),
                        kind: "interface".to_string(),
                        line: i + 1,
                        description: self.extract_doc_comment_description(&doc),
                        metadata: Some(meta),
                    };
                    push_element(&mut elements, e);
                } else if starts_with_str(t, "function ") {
                    let e = self.extract_function_definition(
                        t,
                        i,
                        &doc,
                        &ann,
                        &ns,
                        drupal,
                        &hook_pat,
                    );
                    push_element(&mut elements, e);
                }
                doc = Vec::new();
                ann = Vec::new();
                assert(views(ann@) =~= Seq::empty());
            }
            assert(php_scan(c@, i + 1) == php_step(c@, php_scan(c@, i as int), i as int));
            assert(php_scan(c@, i + 1).in_doc == in_doc);
            assert(php_scan(c@, i + 1).doc == doc@);
            assert(php_scan(c@, i + 1).ann == views(ann@));
            assert(php_scan(c@, i + 1).elements == elements_view(elements@));
            i = i + 1;
        }
        FileStructure { elements, is_drupal: drupal }
    }

    /// Structs, interfaces, functions and methods of a Go file.
    pub fn analyze_go_file(&self, content: &str) -> (r: FileStructure)
        ensures
            elements_view(r.elements@) == go_elements(content@),
            !r.is_drupal,
    {
        let c = chars_of(content);
        let ts = trimmed_lines_of(&c);
        let ghost tv = trimmed_lines(c@);
        let ghost rules = go_rules(c@);
        let mut structs: Vec<CodeElement> = Vec::new();
        let mut interfaces: Vec<CodeElement> = Vec::new();
        let mut functions: Vec<CodeElement> = Vec::new();
        let mut package: Vec<char> = Vec::new();
        let mut i: usize = 0;
        while i < ts.len()
            invariant
                i <= ts.len(),
                views(ts@) == tv,
                tv == trimmed_lines(c@),
                c@ == content@,
                rules == go_rules(c@),
                package@ == go_package(tv, i as int),
                elements_view(structs@) == gather(rules, 0, i as int),
                elements_view(interfaces@) == gather(rules, 1, i as int),
                elements_view(functions@) == gather(rules, 2, i as int),
            decreases ts.len() - i,
        {
            let t = &ts[i];
            assert(t@ == tv[i as int]);
            assert(rules(i as int) == go_rule(tv, i as int));
            proof {
                lemma_gather_step(rules, 0, i as int);
                lemma_gather_step(rules, 1, i as int);
                lemma_gather_step(rules, 2, i as int);
            }
            let is_type = starts_with_str(t, "type ");
            if starts_with_str(t, "package ") && package.len() == 0 {
                let rest = strip_prefixes_once(t, "package ");
                package = trimmed(&rest);
            } else if is_type && (contains_str(t, "struct") || contains_str(t, "interface")) {
                let is_struct = contains_str(t, "struct");
                let w = split_words(t);
                if w.len() >= 3 && same_text(&w[0], "type") {
                    assert(views(w@)[0] == w@[0]@);
                    assert(views(w@)[1] == w@[1]@);
                    if is_struct {
                        push_element(&mut structs, bare_element(&w[1], "struct", i + 1));
                    } else {
                        push_element(&mut interfaces, bare_element(&w[1], "interface", i + 1));
                    }
                }
            } else if starts_with_str(t, "func ") {
                let (name, receiver) = go_func_of(t);
                if name.len() > 0 {
                    let kind = if receiver {
                        "method"
                    } else {
                        "function"
                    };
                    let meta = plain_metadata(Some(string_of(&package)));
                    let e = CodeElement {
                        name: string_of(&name),
                        kind: kind.to_string(),
                        line: i + 1,
                        description: None,
                        metadata: Some(meta),
                    };
                    push_element(&mut functions, e);
                }
            }
            i = i + 1;
        }
        let elements = join_elements(join_elements(structs, interfaces), functions);
        FileStructure { elements, is_drupal: false }
    }

    /// The structure of a file's content, chosen by its extension.
    pub fn analyze_content(&self, content: &str, extension: &str) -> (r: FileStructure)
        ensures
            (elements_view(r.elements@), r.is_drupal) == file_structure(content@, extension@),
    {
        let e = chars_of(extension);
        if same_text(&e, "rs") {
            self.analyze_rust_file(content)
        } else if same_text(&e, "py") {
            self.analyze_python_file(content)
        } else if same_text(&e, "js") || same_text(&e, "ts") || same_text(&e, "jsx") || same_text(
            &e,
            "tsx",
        ) {
            self.analyze_javascript_file(content)
        } else if same_text(&e, "php") {
            self.analyze_php_file(content)
        } else if same_text(&e, "go") {
            self.analyze_go_file(content)
        } else {
            let r = self.analyze_generic_file(content);
            assert(elements_view(r.elements@) =~= Seq::empty());
            r
        }
    }

    /// Files of other kinds have no elements.
    pub fn analyze_generic_file(&self, content: &str) -> (r: FileStructure)
        ensures
            r.elements@.len() == 0,
            !r.is_drupal,
    {
        FileStructure { elements: Vec::new(), is_drupal: false }
    }
}

/// Name declared by a trimmed `func` line, and whether it has a receiver.
fn go_func_of(t: &Vec<char>) -> (r: (Vec<char>, bool))
    requires
        begins(t@, "func "@),
    ensures
        (r.0@, r.1) == go_func(t@),
{
    let rest = trimmed(&strip_prefixes_once(t, "func "));
    proof {
        reveal_strlit(")");
    }
    if starts_with_str(&rest, "(") {
        match after_str(&rest, ")") {
            Some(a) => (trimmed(&before_str(&a, "(")), true),
            None => (Vec::new(), true),
        }
    } else {
        (trimmed(&before_str(&rest, "(")), false)
    }
}

/// `t` without a leading `p`, which it is known to begin with.
fn strip_prefixes_once(t: &Vec<char>, p: &str) -> (r: Vec<char>)
    requires
        begins(t@, p@),
    ensures
        r@ == t@.subrange(p@.len() as int, t@.len() as int),
{
    let pv = chars_of(p);
    slice_of(t, pv.len(), t.len())
}

} // verus!
