//! Project feature scanning, project-type classification and the
//! type-specific summaries.
use vstd::prelude::*;
use crate::text::{
    begins, chars_of, contains_str, ends_with_str, starts_with_str, finishes, infix, same_text, slice_of, string_of,
};

verus! {

/// The kind of project found under a root directory.
#[derive(Clone, Copy, Debug, PartialEq, Eq, Structural)]
pub enum ProjectType {
    Drupal,
    DrupalModule,
    Rust,
    Python,
    JavaScript,
    TypeScript,
    Go,
    PHP,
    Angular,
    React,
    Generic,
}

/// Marker files, marker directories and languages seen in one walk of a
/// project tree.
#[derive(Clone, Copy, Debug, PartialEq, Eq, Structural)]
pub struct ProjectFeatures {
    pub has_drupal_core: bool,
    pub has_drupal_modules_dir: bool,
    pub has_info_yml: bool,
    pub has_drupal_module_file: bool,
    pub has_drupal_module_extension: bool,
    pub has_drupal_php_code: bool,
    pub has_drupal_plugin_dir: bool,
    pub has_src_dir: bool,
    pub has_node_modules: bool,
    pub has_git: bool,
    pub has_rust_target: bool,
    pub has_php_files: bool,
    pub has_rust_files: bool,
    pub has_python_files: bool,
    pub has_js_files: bool,
    pub has_ts_files: bool,
    pub has_jsx_files: bool,
    pub has_tsx_files: bool,
    pub has_go_files: bool,
    pub has_cargo_toml: bool,
    pub has_package_json: bool,
    pub has_angular_json: bool,
    pub has_composer_json: bool,
    pub has_pyproject_toml: bool,
    pub has_requirements_txt: bool,
    pub has_setup_py: bool,
    pub has_go_mod: bool,
}

/// The files of one extension, as paths relative to the project root.
pub struct FileGroup {
    pub extension: String,
    pub files: Vec<String>,
}

pub struct ProjectAnalyzer;

/// Accumulates what one walk of a project tree shows.
pub struct ProjectScan {
    directories: Vec<String>,
    files_by_type: Vec<FileGroup>,
    features: ProjectFeatures,
}

// ---------------------------------------------------------------- paths

/// The last component of a path: everything after its last `/`.
pub open spec fn file_name(p: Seq<char>) -> Seq<char> {
    p.subrange(last_index(p, '/', p.len() as int) + 1, p.len() as int)
}

/// Index of the last `c` among the first `k` characters of `s`, or -1.
pub open spec fn last_index(s: Seq<char>, c: char, k: int) -> int
    decreases k,
{
    if k <= 0 || k > s.len() {
        -1
    } else if s[k - 1] == c {
        k - 1
    } else {
        last_index(s, c, k - 1)
    }
}

/// The extension of a file name as `Path::extension` gives it: after the
/// last `.`, unless there is no `.` or the only one begins the name.
pub open spec fn extension_of(name: Seq<char>) -> Option<Seq<char>> {
    let k = last_index(name, '.', name.len() as int);
    if k <= 0 {
        None
    } else {
        Some(name.subrange(k + 1, name.len() as int))
    }
}

/// Directory names that are never entered.
pub open spec fn ignored_dir_name(n: Seq<char>) -> bool {
    n == ".git"@ || n == "node_modules"@ || n == "target"@ || n == "build"@ || n == "dist"@ || n
        == "venv"@ || n == "__pycache__"@ || n == ".idea"@ || n == ".vscode"@ || n == "vendor"@
        || n == ".next"@ || n == "out"@ || (n.len() > 0 && n[0] == '.')
}

/// Extensions of files that are never recorded.
pub open spec fn ignored_extension(e: Seq<char>) -> bool {
    e == "pyc"@ || e == "exe"@ || e == "dll"@ || e == "so"@ || e == "o"@ || e == "obj"@ || e
        == "class"@ || e == "jpg"@ || e == "png"@ || e == "gif"@ || e == "pdf"@ || e == "bin"@
        || e == "lock"@ || e == "woff"@ || e == "woff2"@ || e == "ttf"@
}

/// Whether a directory that contains the entry at `p` (named by a
/// `/`-terminated prefix of `p`) is skipped.
pub open spec fn under_ignored_dir(p: Seq<char>) -> bool {
    exists|k: int| 0 <= k < p.len() && p[k] == '/' && ignored_dir_name(file_name(p.subrange(0, k)))
}

/// Index of the last `c` in `s`, or `None`.
pub fn find_last(s: &Vec<char>, c: char) -> (r: Option<usize>)
    ensures
        match r {
            Some(k) => k < s.len() && last_index(s@, c, s.len() as int) == k,
            None => last_index(s@, c, s.len() as int) == -1,
        },
{
    let mut k: usize = s.len();
    while k > 0
        invariant
            k <= s.len(),
            last_index(s@, c, s.len() as int) == last_index(s@, c, k as int),
        decreases k,
    {
        if s[k - 1] == c {
            return Some(k - 1);
        }
        k = k - 1;
    }
    None
}

/// The last component of a path.
pub fn file_name_of(p: &Vec<char>) -> (r: Vec<char>)
    ensures
        r@ == file_name(p@),
{
    match find_last(p, '/') {
        Some(k) => slice_of(p, k + 1, p.len()),
        None => slice_of(p, 0, p.len()),
    }
}

/// The extension of a file name.
pub fn extension_of_name(name: &Vec<char>) -> (r: Option<Vec<char>>)
    ensures
        match r {
            Some(e) => extension_of(name@) == Some(e@),
            None => extension_of(name@) is None,
        },
{
    match find_last(name, '.') {
        Some(k) => if k == 0 {
            None
        } else {
            Some(slice_of(name, k + 1, name.len()))
        },
        None => None,
    }
}

impl ProjectAnalyzer {
    /// Whether a directory with this name is skipped.
    pub fn should_ignore_dir(&self, name: &Vec<char>) -> (r: bool)
        ensures
            r == ignored_dir_name(name@),
    {
        same_text(name, ".git") || same_text(name, "node_modules") || same_text(name, "target")
            || same_text(name, "build") || same_text(name, "dist") || same_text(name, "venv")
            || same_text(name, "__pycache__") || same_text(name, ".idea") || same_text(
            name,
            ".vscode",
        ) || same_text(name, "vendor") || same_text(name, ".next") || same_text(name, "out") || (
        name.len() > 0 && name[0] == '.')
    }

    /// Whether a file with this extension is skipped.
    pub fn should_ignore_file(&self, ext: &Vec<char>) -> (r: bool)
        ensures
            r == ignored_extension(ext@),
    {
        same_text(ext, "pyc") || same_text(ext, "exe") || same_text(ext, "dll") || same_text(
            ext,
            "so",
        ) || same_text(ext, "o") || same_text(ext, "obj") || same_text(ext, "class") || same_text(
            ext,
            "jpg",
        ) || same_text(ext, "png") || same_text(ext, "gif") || same_text(ext, "pdf") || same_text(
            ext,
            "bin",
        ) || same_text(ext, "lock") || same_text(ext, "woff") || same_text(ext, "woff2")
            || same_text(ext, "ttf")
    }

    /// Whether some directory above the entry at path `p` is skipped.
    pub fn beneath_ignored_dir(&self, p: &Vec<char>) -> (r: bool)
        ensures
            r == under_ignored_dir(p@),
    {
        let mut k: usize = 0;
        while k < p.len()
            invariant
                k <= p.len(),
                forall|q: int|
                    0 <= q < k && p@[q] == '/' ==> !ignored_dir_name(file_name(p@.subrange(0, q))),
            decreases p.len() - k,
        {
            if p[k] == '/' {
                let head = slice_of(p, 0, k);
                let name = file_name_of(&head);
                if self.should_ignore_dir(&name) {
                    return true;
                }
            }
            k = k + 1;
        }
        false
    }
}

// ---------------------------------------------------------------- scanning

pub open spec fn groups_view(v: Seq<FileGroup>) -> Seq<(Seq<char>, Seq<Seq<char>>)> {
    v.map_values(|g: FileGroup| (g.extension@, views_of_strings(g.files@)))
}

pub open spec fn views_of_strings(v: Seq<String>) -> Seq<Seq<char>> {
    v.map_values(|s: String| s@)
}

/// Each extension has one group, every recorded path sits in the group of
/// its own extension, and no recorded path lies beneath a skipped
/// directory or has a skipped extension.
pub open spec fn groups_wf(gs: Seq<(Seq<char>, Seq<Seq<char>>)>) -> bool {
    &&& forall|i: int, j: int| 0 <= i < j < gs.len() ==> gs[i].0 != gs[j].0
    &&& forall|i: int, k: int|
        0 <= i < gs.len() && 0 <= k < gs[i].1.len() ==> extension_of(file_name(gs[i].1[k]))
            == Some(gs[i].0) && !under_ignored_dir(gs[i].1[k]) && !ignored_extension(gs[i].0)
}

/// The groups after recording `path` under extension `ext`.
pub open spec fn add_to_groups(
    gs: Seq<(Seq<char>, Seq<Seq<char>>)>,
    ext: Seq<char>,
    path: Seq<char>,
) -> Seq<(Seq<char>, Seq<Seq<char>>)> {
    if exists|i: int| 0 <= i < gs.len() && gs[i].0 == ext {
        let i = choose|i: int| 0 <= i < gs.len() && gs[i].0 == ext;
        gs.update(i, (ext, gs[i].1.push(path)))
    } else {
        gs.push((ext, seq![path]))
    }
}

pub open spec fn text_has(c: Option<Seq<char>>, p: Seq<char>) -> bool {
    match c {
        Some(t) => infix(t, p),
        None => false,
    }
}

/// Features after seeing the directory at relative path `p`.
pub open spec fn dir_features(f: ProjectFeatures, p: Seq<char>) -> ProjectFeatures {
    let name = file_name(p);
    if name == "core"@ {
        ProjectFeatures { has_drupal_core: true, ..f }
    } else if name == "src"@ {
        ProjectFeatures { has_src_dir: true, ..f }
    } else if name == "Plugin"@ && begins(p, "src/"@) {
        ProjectFeatures { has_drupal_plugin_dir: true, ..f }
    } else {
        f
    }
}

/// Whether a directory entry is recorded.
pub open spec fn dir_kept(p: Seq<char>) -> bool {
    !under_ignored_dir(p) && !ignored_dir_name(file_name(p))
}

/// Whether a file entry is recorded.
pub open spec fn file_kept(p: Seq<char>) -> bool {
    !under_ignored_dir(p) && match extension_of(file_name(p)) {
        Some(e) => !ignored_extension(e),
        None => true,
    }
}

/// Features from a file's name.
pub open spec fn name_features(f: ProjectFeatures, name: Seq<char>, c: Option<Seq<char>>) -> ProjectFeatures {
    if name == "Cargo.toml"@ {
        ProjectFeatures { has_cargo_toml: true, ..f }
    } else if name == "package.json"@ {
        ProjectFeatures { has_package_json: true, ..f }
    } else if name == "angular.json"@ {
        ProjectFeatures { has_angular_json: true, ..f }
    } else if name == "composer.json"@ {
        ProjectFeatures { has_composer_json: true, ..f }
    } else if name == "pyproject.toml"@ {
        ProjectFeatures { has_pyproject_toml: true, ..f }
    } else if name == "requirements.txt"@ {
        ProjectFeatures { has_requirements_txt: true, ..f }
    } else if name == "setup.py"@ {
        ProjectFeatures { has_setup_py: true, ..f }
    } else if name == "go.mod"@ {
        ProjectFeatures { has_go_mod: true, ..f }
    } else if finishes(name, ".info.yml"@) {
        ProjectFeatures {
            has_info_yml: true,
            has_drupal_module_file: f.has_drupal_module_file || text_has(c, "type: module"@),
            ..f
        }
    } else if finishes(name, ".module"@) {
        ProjectFeatures { has_drupal_module_extension: true, ..f }
    } else {
        f
    }
}

/// Whether PHP source looks like Drupal code.
pub open spec fn drupal_code(c: Option<Seq<char>>) -> bool {
    text_has(c, "Drupal\\"@) || (text_has(c, "function"@) && text_has(c, "_hook_"@)) || (
    text_has(c, "implements"@) && text_has(c, "Hook"@))
}

/// Features from a file's extension.
pub open spec fn extension_features(f: ProjectFeatures, e: Seq<char>, c: Option<Seq<char>>) -> ProjectFeatures {
    if e == "php"@ {
        ProjectFeatures {
            has_php_files: true,
            has_drupal_php_code: f.has_drupal_php_code || drupal_code(c),
            ..f
        }
    } else if e == "rs"@ {
        ProjectFeatures { has_rust_files: true, ..f }
    } else if e == "py"@ {
        ProjectFeatures { has_python_files: true, ..f }
    } else if e == "js"@ {
        ProjectFeatures { has_js_files: true, ..f }
    } else if e == "ts"@ {
        ProjectFeatures { has_ts_files: true, ..f }
    } else if e == "jsx"@ {
        ProjectFeatures { has_jsx_files: true, ..f }
    } else if e == "tsx"@ {
        ProjectFeatures { has_tsx_files: true, ..f }
    } else if e == "go"@ {
        ProjectFeatures { has_go_files: true, ..f }
    } else {
        f
    }
}

/// Features after seeing a kept file at path `p` with content `c`.
pub open spec fn file_features(f: ProjectFeatures, p: Seq<char>, c: Option<Seq<char>>) -> ProjectFeatures {
    let f1 = name_features(f, file_name(p), c);
    match extension_of(file_name(p)) {
        Some(e) => extension_features(f1, e, c),
        None => f1,
    }
}

pub open spec fn no_features() -> ProjectFeatures {
    ProjectFeatures {
        has_drupal_core: false,
        has_drupal_modules_dir: false,
        has_info_yml: false,
        has_drupal_module_file: false,
        has_drupal_module_extension: false,
        has_drupal_php_code: false,
        has_drupal_plugin_dir: false,
        has_src_dir: false,
        has_node_modules: false,
        has_git: false,
        has_rust_target: false,
        has_php_files: false,
        has_rust_files: false,
        has_python_files: false,
        has_js_files: false,
        has_ts_files: false,
        has_jsx_files: false,
        has_tsx_files: false,
        has_go_files: false,
        has_cargo_toml: false,
        has_package_json: false,
        has_angular_json: false,
        has_composer_json: false,
        has_pyproject_toml: false,
        has_requirements_txt: false,
        has_setup_py: false,
        has_go_mod: false,
    }
}

impl Default for ProjectFeatures {
    /// No feature seen.
    fn default() -> (r: Self)
        ensures
            r == no_features(),
    {
        ProjectFeatures {
            has_drupal_core: false,
            has_drupal_modules_dir: false,
            has_info_yml: false,
            has_drupal_module_file: false,
            has_drupal_module_extension: false,
            has_drupal_php_code: false,
            has_drupal_plugin_dir: false,
            has_src_dir: false,
            has_node_modules: false,
            has_git: false,
            has_rust_target: false,
            has_php_files: false,
            has_rust_files: false,
            has_python_files: false,
            has_js_files: false,
            has_ts_files: false,
            has_jsx_files: false,
            has_tsx_files: false,
            has_go_files: false,
            has_cargo_toml: false,
            has_package_json: false,
            has_angular_json: false,
            has_composer_json: false,
            has_pyproject_toml: false,
            has_requirements_txt: false,
            has_setup_py: false,
            has_go_mod: false,
        }
    }
}

/// No file beneath a skipped directory is ever recorded.
pub proof fn lemma_no_file_beneath_ignored_dir(
    gs: Seq<(Seq<char>, Seq<Seq<char>>)>,
    i: int,
    k: int,
    cut: int,
)
    requires
        groups_wf(gs),
        0 <= i < gs.len(),
        0 <= k < gs[i].1.len(),
        0 <= cut < gs[i].1[k].len(),
        gs[i].1[k][cut] == '/',
    ensures
        !ignored_dir_name(file_name(gs[i].1[k].subrange(0, cut))),
{
}

/// Features after seeing the directory at relative path `p`.
fn dir_features_of(f: ProjectFeatures, p: &Vec<char>, name: &Vec<char>) -> (r: ProjectFeatures)
    requires
        name@ == file_name(p@),
    ensures
        r == dir_features(f, p@),
{
    if same_text(name, "core") {
        ProjectFeatures { has_drupal_core: true, ..f }
    } else if same_text(name, "src") {
        ProjectFeatures { has_src_dir: true, ..f }
    } else if same_text(name, "Plugin") && starts_with_str(p, "src/") {
        ProjectFeatures { has_drupal_plugin_dir: true, ..f }
    } else {
        f
    }
}


/// Index of the group for extension `e`.
fn find_group(gs: &Vec<FileGroup>, e: &Vec<char>) -> (r: Option<usize>)
    ensures
        match r {
            Some(i) => i < gs.len() && groups_view(gs@)[i as int].0 == e@,
            None => forall|q: int| 0 <= q < gs.len() ==> groups_view(gs@)[q].0 != e@,
        },
{
    let mut i: usize = 0;
    while i < gs.len()
        invariant
            i <= gs.len(),
            forall|q: int| 0 <= q < i ==> groups_view(gs@)[q].0 != e@,
        decreases gs.len() - i,
    {
        let k = chars_of(gs[i].extension.as_str());
        if same_chars(&k, e) {
            return Some(i);
        }
        i = i + 1;
    }
    None
}

fn same_chars(a: &Vec<char>, b: &Vec<char>) -> (r: bool)
    ensures
        r == (a@ == b@),
{
    if a.len() != b.len() {
        return false;
    }
    let mut i: usize = 0;
    while i < a.len()
        invariant
            a.len() == b.len(),
            i <= a.len(),
            forall|k: int| 0 <= k < i ==> a@[k] == b@[k],
        decreases a.len() - i,
    {
        if a[i] != b[i] {
            assert(a@[i as int] != b@[i as int]);
            return false;
        }
        i = i + 1;
    }
    assert(a@ =~= b@);
    true
}

/// Records `path` in the group of its extension `e`.
fn add_file(gs: &mut Vec<FileGroup>, e: &Vec<char>, path: &str)
    requires
        groups_wf(groups_view(old(gs)@)),
        extension_of(file_name(path@)) == Some(e@),
        !under_ignored_dir(path@),
        !ignored_extension(e@),
    ensures
        groups_wf(groups_view(final(gs)@)),
        groups_view(final(gs)@) == add_to_groups(groups_view(old(gs)@), e@, path@),
{
    let ghost g0 = groups_view(gs@);
    match find_group(gs, e) {
        Some(i) => {
            let mut g = gs.remove(i);
            let ghost files0 = g.files@;
            g.files.push(path.to_string());
            assert(views_of_strings(g.files@) =~= views_of_strings(files0).push(path@));
            gs.insert(i, g);
            proof {
                let j = choose|j: int| 0 <= j < g0.len() && g0[j].0 == e@;
                assert(j == i);
                assert(groups_view(gs@) =~= g0.update(i as int, (e@, g0[i as int].1.push(path@))));
            }
        },
        None => {
            let ghost before = gs@;
            let files = vec![path.to_string()];
            assert(views_of_strings(files@) =~= seq![path@]);
            gs.push(FileGroup { extension: string_of(e), files });
            assert(groups_view(gs@) =~= g0.push((e@, seq![path@])));
        },
    }
}

/// Features from a file's name.
fn name_features_of(f: ProjectFeatures, name: &Vec<char>, c: &Option<Vec<char>>) -> (r:
    ProjectFeatures)
    ensures
        r == name_features(f, name@, chars_view(*c)),
{
    if same_text(name, "Cargo.toml") {
        ProjectFeatures { has_cargo_toml: true, ..f }
    } else if same_text(name, "package.json") {
        ProjectFeatures { has_package_json: true, ..f }
    } else if same_text(name, "angular.json") {
        ProjectFeatures { has_angular_json: true, ..f }
    } else if same_text(name, "composer.json") {
        ProjectFeatures { has_composer_json: true, ..f }
    } else if same_text(name, "pyproject.toml") {
        ProjectFeatures { has_pyproject_toml: true, ..f }
    } else if same_text(name, "requirements.txt") {
        ProjectFeatures { has_requirements_txt: true, ..f }
    } else if same_text(name, "setup.py") {
        ProjectFeatures { has_setup_py: true, ..f }
    } else if same_text(name, "go.mod") {
        ProjectFeatures { has_go_mod: true, ..f }
    } else if ends_with_str(name, ".info.yml") {
        let m = f.has_drupal_module_file || opt_contains(c, "type: module");
        ProjectFeatures { has_info_yml: true, has_drupal_module_file: m, ..f }
    } else if ends_with_str(name, ".module") {
        ProjectFeatures { has_drupal_module_extension: true, ..f }
    } else {
        f
    }
}

pub open spec fn opt_string_view(c: Option<String>) -> Option<Seq<char>> {
    match c {
        Some(v) => Some(v@),
        None => None,
    }
}

pub open spec fn chars_view(c: Option<Vec<char>>) -> Option<Seq<char>> {
    match c {
        Some(v) => Some(v@),
        None => None,
    }
}

fn opt_contains(c: &Option<Vec<char>>, p: &str) -> (r: bool)
    ensures
        r == text_has(chars_view(*c), p@),
{
    match c {
        Some(v) => contains_str(v, p),
        None => false,
    }
}

/// Features from a file's extension.
fn extension_features_of(f: ProjectFeatures, e: &Vec<char>, c: &Option<Vec<char>>) -> (r:
    ProjectFeatures)
    ensures
        r == extension_features(f, e@, chars_view(*c)),
{
    if same_text(e, "php") {
        let d = f.has_drupal_php_code || opt_contains(c, "Drupal\\") || (opt_contains(
            c,
            "function",
        ) && opt_contains(c, "_hook_")) || (opt_contains(c, "implements") && opt_contains(
            c,
            "Hook",
        ));
        ProjectFeatures { has_php_files: true, has_drupal_php_code: d, ..f }
    } else if same_text(e, "rs") {
        ProjectFeatures { has_rust_files: true, ..f }
    } else if same_text(e, "py") {
        ProjectFeatures { has_python_files: true, ..f }
    } else if same_text(e, "js") {
        ProjectFeatures { has_js_files: true, ..f }
    } else if same_text(e, "ts") {
        ProjectFeatures { has_ts_files: true, ..f }
    } else if same_text(e, "jsx") {
        ProjectFeatures { has_jsx_files: true, ..f }
    } else if same_text(e, "tsx") {
        ProjectFeatures { has_tsx_files: true, ..f }
    } else if same_text(e, "go") {
        ProjectFeatures { has_go_files: true, ..f }
    } else {
        f
    }
}

impl ProjectScan {
    /// Every recorded path sits in the group of its own extension, once per
    /// extension, and none lies beneath a skipped directory.
    pub open spec fn wf(&self) -> bool {
        groups_wf(self.groups())
    }

    /// The recorded files, by extension.
    pub closed spec fn groups(&self) -> Seq<(Seq<char>, Seq<Seq<char>>)> {
        groups_view(self.files_by_type@)
    }

    /// The features seen so far.
    pub closed spec fn seen(&self) -> ProjectFeatures {
        self.features
    }

    /// The recorded directories.
    pub closed spec fn dirs(&self) -> Seq<Seq<char>> {
        views_of_strings(self.directories@)
    }

    /// The features seen so far.
    pub fn features(&self) -> (r: &ProjectFeatures)
        ensures
            *r == self.seen(),
    {
        &self.features
    }

    /// The recorded files, by extension.
    pub fn files_by_type(&self) -> (r: &Vec<FileGroup>)
        ensures
            groups_view(r@) == self.groups(),
    {
        &self.files_by_type
    }

    /// The recorded directories.
    pub fn directories(&self) -> (r: &Vec<String>)
        ensures
            views_of_strings(r@) == self.dirs(),
    {
        &self.directories
    }

    pub fn new() -> (r: Self)
        ensures
            r.wf(),
            r.seen() == no_features(),
            r.dirs().len() == 0,
            r.groups().len() == 0,
    {
        let r = ProjectScan {
            directories: Vec::new(),
            files_by_type: Vec::new(),
            features: ProjectFeatures::default(),
        };
        assert(r.groups() =~= Seq::empty());
        assert(r.dirs() =~= Seq::empty());
        r
    }

    /// Whether the content of the file at this path is consulted: Drupal
    /// info files and PHP sources.
    pub fn wants_content(&self, path: &str) -> (r: bool)
        ensures
            r == (finishes(file_name(path@), ".info.yml"@) || extension_of(file_name(path@))
                == Some("php"@)),
    {
        let p = chars_of(path);
        let name = file_name_of(&p);
        if ends_with_str(&name, ".info.yml") {
            return true;
        }
        match extension_of_name(&name) {
            Some(e) => same_text(&e, "php"),
            None => false,
        }
    }

    /// Records the file at a path relative to the root; `content` is its
    /// text where `wants_content` asked for it and it could be read.
    pub fn record_file(&mut self, path: &str, content: Option<String>)
        requires
            old(self).wf(),
        ensures
            final(self).wf(),
            final(self).dirs() == old(self).dirs(),
            file_kept(path@) ==> final(self).seen() == file_features(
                old(self).seen(),
                path@,
                opt_string_view(content),
            ) && final(self).groups() == match extension_of(file_name(path@)) {
                Some(e) => add_to_groups(old(self).groups(), e, path@),
                None => old(self).groups(),
            },
            !file_kept(path@) ==> final(self).seen() == old(self).seen(),
            !file_kept(path@) ==> final(self).groups() == old(self).groups(),
    {
        let analyzer = ProjectAnalyzer;
        let p = chars_of(path);
        let name = file_name_of(&p);
        let ext = extension_of_name(&name);
        if analyzer.beneath_ignored_dir(&p) {
            return;
        }
        match &ext {
            Some(e) => {
                if analyzer.should_ignore_file(e) {
                    return;
                }
            },
            None => {},
        }
        let c: Option<Vec<char>> = match &content {
            Some(t) => Some(chars_of(t.as_str())),
            None => None,
        };
        assert(chars_view(c) == opt_string_view(content));
        let f1 = name_features_of(self.features, &name, &c);
        let f2 = match &ext {
            Some(e) => extension_features_of(f1, e, &c),
            None => f1,
        };
        self.features = f2;
        match &ext {
            Some(e) => add_file(&mut self.files_by_type, e, path),
            None => {},
        }
    }

    /// Notes whether a `web/modules` or `modules` directory exists under
    /// the root, once the walk is over.
    pub fn finish(&mut self, modules_dir_exists: bool)
        requires
            old(self).wf(),
        ensures
            final(self).wf(),
            final(self).groups() == old(self).groups(),
            final(self).dirs() == old(self).dirs(),
            final(self).seen() == (ProjectFeatures {
                has_drupal_modules_dir: modules_dir_exists,
                ..old(self).seen()
            }),
    {
        let f = ProjectFeatures { has_drupal_modules_dir: modules_dir_exists, ..self.features };
        self.features = f;
    }

    /// Records the directory at a path relative to the root.
    pub fn record_dir(&mut self, path: &str)
        requires
            old(self).wf(),
        ensures
            final(self).wf(),
            final(self).groups() == old(self).groups(),
            dir_kept(path@) ==> final(self).seen() == dir_features(old(self).seen(), path@)
                && final(self).dirs() == old(self).dirs().push(path@),
            !dir_kept(path@) ==> final(self).seen() == old(self).seen() && final(self).dirs()
                == old(self).dirs(),
    {
        let analyzer = ProjectAnalyzer;
        let p = chars_of(path);
        let name = file_name_of(&p);
        if analyzer.beneath_ignored_dir(&p) || analyzer.should_ignore_dir(&name) {
            return;
        }
        let f = dir_features_of(self.features, &p, &name);
        let ghost d0 = self.directories@;
        self.directories.push(path.to_string());
        assert(views_of_strings(self.directories@) =~= views_of_strings(d0).push(path@));
        self.features = f;
    }
}

// ---------------------------------------------------------------- classification

/// Whether the features point at a Drupal site or module.
pub open spec fn drupal_triggered(f: ProjectFeatures) -> bool {
    f.has_drupal_core || f.has_drupal_modules_dir || (f.has_info_yml && (f.has_drupal_module_file
        || f.has_drupal_php_code))
}

/// Whether a recorded JavaScript path mentions React.
pub open spec fn react_paths(gs: Seq<(Seq<char>, Seq<Seq<char>>)>) -> bool {
    exists|i: int, k: int|
        0 <= i < gs.len() && gs[i].0 == "js"@ && 0 <= k < gs[i].1.len() && infix(
            gs[i].1[k],
            "react"@,
        )
}

/// The project type, first match winning: Drupal (where modules were
/// found), Rust, Angular, React, Python, Go, JavaScript, PHP, Generic.
pub open spec fn project_type_of(
    f: ProjectFeatures,
    react_js: bool,
    modules_found: bool,
    root_is_module: bool,
) -> ProjectType {
    if drupal_triggered(f) && modules_found {
        if root_is_module {
            ProjectType::DrupalModule
        } else {
            ProjectType::Drupal
        }
    } else if f.has_cargo_toml {
        ProjectType::Rust
    } else if f.has_angular_json && f.has_package_json {
        ProjectType::Angular
    } else if f.has_package_json && (f.has_jsx_files || f.has_tsx_files || react_js) {
        ProjectType::React
    } else if f.has_pyproject_toml || f.has_requirements_txt || f.has_setup_py {
        ProjectType::Python
    } else if f.has_go_mod || f.has_go_files {
        ProjectType::Go
    } else if f.has_js_files || f.has_ts_files {
        ProjectType::JavaScript
    } else if f.has_php_files {
        ProjectType::PHP
    } else {
        ProjectType::Generic
    }
}

/// A Cargo manifest makes the project a Rust project whatever else the tree
/// holds, unless Drupal markers are present and Drupal modules were found.
pub proof fn lemma_cargo_manifest_means_rust(
    f: ProjectFeatures,
    react_js: bool,
    modules_found: bool,
    root_is_module: bool,
)
    requires
        f.has_cargo_toml,
        !(drupal_triggered(f) && modules_found),
    ensures
        project_type_of(f, react_js, modules_found, root_is_module) == ProjectType::Rust,
{
}

/// Classification depends on nothing but what the walk saw: the same
/// features, paths and module findings give the same project type.
pub proof fn lemma_classification_repeatable(
    f1: ProjectFeatures,
    f2: ProjectFeatures,
    g1: Seq<(Seq<char>, Seq<Seq<char>>)>,
    g2: Seq<(Seq<char>, Seq<Seq<char>>)>,
    m1: bool,
    m2: bool,
    r1: bool,
    r2: bool,
)
    requires
        f1 == f2,
        g1 == g2,
        m1 == m2,
        r1 == r2,
    ensures
        project_type_of(f1, react_paths(g1), m1, r1) == project_type_of(
            f2,
            react_paths(g2),
            m2,
            r2,
        ),
{
}

/// What is known of a directory when deciding whether it is a Drupal
/// module.
pub struct ModuleProbe {
    pub path: String,
    pub has_info_yml_at_root: bool,
    pub has_module_file_at_root: bool,
    pub has_plugin_dir: bool,
    pub composer_json: Option<String>,
    pub has_core_dir: bool,
    pub has_composer_json: bool,
}

/// A directory that may be a Drupal module, under the name it would get.
pub struct ModuleCandidate {
    pub name: String,
    pub probe: ModuleProbe,
}

/// Whether a probed directory is a Drupal module: it sits under a custom
/// or contributed modules directory, or it has an info file together with a
/// module file, a plugin directory or a dependency on Drupal core; a Drupal
/// site root is never a module.
pub open spec fn is_module(p: ModuleProbe) -> bool {
    !(p.has_core_dir && p.has_composer_json) && (infix(p.path@, "modules/custom"@) || infix(
        p.path@,
        "modules/contrib"@,
    ) || (p.has_info_yml_at_root && (p.has_module_file_at_root || p.has_plugin_dir || text_has(
        opt_string_view(p.composer_json),
        "drupal/core"@,
    ))))
}

/// The (name, path) pairs of the candidates that are modules, in order.
pub open spec fn kept_modules(cs: Seq<ModuleCandidate>) -> Seq<(Seq<char>, Seq<char>)>
    decreases cs.len(),
{
    if cs.len() == 0 {
        Seq::empty()
    } else if is_module(cs.last().probe) {
        kept_modules(cs.drop_last()).push((cs.last().name@, cs.last().probe.path@))
    } else {
        kept_modules(cs.drop_last())
    }
}

pub open spec fn pairs_view(v: Seq<(String, String)>) -> Seq<(Seq<char>, Seq<char>)> {
    v.map_values(|p: (String, String)| (p.0@, p.1@))
}

/// The per-type summary; at most one is present.
pub enum SpecificProjectInfo {
    Drupal(Option<DrupalModuleInfo>),
    Rust(Option<RustProjectInfo>),
    Angular(Option<AngularProjectInfo>),
    React(Option<ReactProjectInfo>),
    Python(Option<PythonProjectInfo>),
    NoInfo,
}

/// Whether a summary is of the kind the project type calls for.
pub open spec fn info_fits(t: ProjectType, i: SpecificProjectInfo) -> bool {
    match t {
        ProjectType::DrupalModule => i is Drupal,
        ProjectType::Rust => i is Rust,
        ProjectType::Angular => i is Angular,
        ProjectType::React => i is React,
        ProjectType::Python => i is Python,
        _ => i is NoInfo,
    }
}

/// The empty summary of the kind a project type calls for.
pub open spec fn empty_info(t: ProjectType) -> SpecificProjectInfo {
    match t {
        ProjectType::DrupalModule => SpecificProjectInfo::Drupal(None),
        ProjectType::Rust => SpecificProjectInfo::Rust(None),
        ProjectType::Angular => SpecificProjectInfo::Angular(None),
        ProjectType::React => SpecificProjectInfo::React(None),
        ProjectType::Python => SpecificProjectInfo::Python(None),
        _ => SpecificProjectInfo::NoInfo,
    }
}

/// The classified project.
pub struct ProjectStructure {
    pub directories: Vec<String>,
    pub files_by_type: Vec<FileGroup>,
    pub project_type: Option<ProjectType>,
    pub specific_info: SpecificProjectInfo,
    pub modules: Vec<(String, String)>,
}

pub struct DrupalModuleInfo {
    pub name: String,
    pub description: String,
    pub module_file: Option<String>,
    pub info_file: Option<String>,
    pub config_schemas: Vec<String>,
    pub has_plugins: bool,
    pub has_services: bool,
    pub hooks: Vec<String>,
}

pub struct RustProjectInfo {
    pub name: String,
    pub version: String,
    pub module_count: usize,
    pub struct_count: usize,
    pub has_lib: bool,
    pub has_bin: bool,
}

pub struct AngularProjectInfo {
    pub name: String,
    pub component_count: usize,
    pub service_count: usize,
    pub has_routing: bool,
    pub has_ngrx: bool,
}

pub struct ReactProjectInfo {
    pub name: String,
    pub component_count: usize,
    pub has_redux: bool,
    pub is_nextjs: bool,
    pub has_typescript: bool,
}

pub struct PythonProjectInfo {
    pub name: String,
    pub class_count: usize,
    pub function_count: usize,
    pub has_django: bool,
    pub has_flask: bool,
    pub has_fastapi: bool,
}

impl ProjectAnalyzer {
    /// Whether the features call for a search for Drupal modules.
    pub fn wants_drupal_modules(&self, f: &ProjectFeatures) -> (r: bool)
        ensures
            r == drupal_triggered(*f),
    {
        f.has_drupal_core || f.has_drupal_modules_dir || (f.has_info_yml && (
        f.has_drupal_module_file || f.has_drupal_php_code))
    }

    /// Whether a probed directory is a Drupal module.
    pub fn is_drupal_module(&self, p: &ModuleProbe) -> (r: bool)
        ensures
            r == is_module(*p),
    {
        if p.has_core_dir && p.has_composer_json {
            return false;
        }
        let path = chars_of(p.path.as_str());
        if contains_str(&path, "modules/custom") || contains_str(&path, "modules/contrib") {
            return true;
        }
        let dep = match &p.composer_json {
            Some(c) => contains_str(&chars_of(c.as_str()), "drupal/core"),
            None => false,
        };
        p.has_info_yml_at_root && (p.has_module_file_at_root || p.has_plugin_dir || dep)
    }

    /// The candidates that are Drupal modules, as (name, path) pairs.
    pub fn find_all_drupal_modules(&self, candidates: &Vec<ModuleCandidate>) -> (r: Vec<
        (String, String),
    >)
        ensures
            pairs_view(r@) == kept_modules(candidates@),
    {
        let mut out: Vec<(String, String)> = Vec::new();
        let mut i: usize = 0;
        while i < candidates.len()
            invariant
                i <= candidates.len(),
                pairs_view(out@) == kept_modules(candidates@.subrange(0, i as int)),
            decreases candidates.len() - i,
        {
            let c = &candidates[i];
            assert(candidates@.subrange(0, i + 1).drop_last() =~= candidates@.subrange(
                0,
                i as int,
            ));
            assert(candidates@.subrange(0, i + 1).last() == *c);
            if self.is_drupal_module(&c.probe) {
                let ghost o0 = out@;
                let pair = (c.name.clone(), c.probe.path.clone());
                out.push(pair);
                assert(pairs_view(out@) =~= pairs_view(o0).push((c.name@, c.probe.path@)));
            }
            i = i + 1;
        }
        assert(candidates@.subrange(0, i as int) =~= candidates@);
        out
    }

    /// Whether a recorded JavaScript path mentions React.
    fn react_in_paths(&self, gs: &Vec<FileGroup>) -> (r: bool)
        ensures
            r == react_paths(groups_view(gs@)),
    {
        let ghost gv = groups_view(gs@);
        let mut i: usize = 0;
        while i < gs.len()
            invariant
                i <= gs.len(),
                gv == groups_view(gs@),
                forall|q: int, k: int|
                    0 <= q < i && gv[q].0 == "js"@ && 0 <= k < gv[q].1.len() ==> !infix(
                        gv[q].1[k],
                        "react"@,
                    ),
            decreases gs.len() - i,
        {
            let g = &gs[i];
            assert(gv[i as int] == (g.extension@, views_of_strings(g.files@)));
            if same_text(&chars_of(g.extension.as_str()), "js") {
                let mut k: usize = 0;
                while k < g.files.len()
                    invariant
                        k <= g.files.len(),
                        gv == groups_view(gs@),
                        i < gs.len(),
                        gv.len() == gs.len(),
                        g == gs@[i as int],
                        gv[i as int] == (g.extension@, views_of_strings(g.files@)),
                        gv[i as int].0 == "js"@,
                        forall|q: int, k2: int|
                            0 <= q < i && gv[q].0 == "js"@ && 0 <= k2 < gv[q].1.len() ==> !infix(
                                gv[q].1[k2],
                                "react"@,
                            ),
                        forall|k2: int| 0 <= k2 < k ==> !infix(gv[i as int].1[k2], "react"@),
                    decreases g.files.len() - k,
                {
                    assert(gv[i as int].1[k as int] == g.files@[k as int]@);
                    if contains_str(&chars_of(g.files[k].as_str()), "react") {
                        assert(infix(gv[i as int].1[k as int], "react"@));
                        assert(k < gv[i as int].1.len());
                        assert(i < gv.len());
                        let ghost ii = i as int;
                        let ghost kk = k as int;
                        assert(0 <= ii < gv.len() && gv[ii].0 == "js"@ && 0 <= kk < gv[ii].1.len()
                            && infix(gv[ii].1[kk], "react"@));
                        assert(react_paths(gv));
                        return true;
                    }
                    k = k + 1;
                }
            }
            i = i + 1;
        }
        false
    }

    /// The project type for what one walk saw and which Drupal modules were
    /// found.
    pub fn determine_project_type(
        &self,
        scan: &ProjectScan,
        modules: &Vec<(String, String)>,
        root_is_module: bool,
    ) -> (r: ProjectType)
        ensures
            r == project_type_of(
                scan.seen(),
                react_paths(scan.groups()),
                modules@.len() > 0,
                root_is_module,
            ),
    {
        let f = &scan.features;
        if self.wants_drupal_modules(f) && modules.len() > 0 {
            if root_is_module {
                ProjectType::DrupalModule
            } else {
                ProjectType::Drupal
            }
        } else if f.has_cargo_toml {
            ProjectType::Rust
        } else if f.has_angular_json && f.has_package_json {
            ProjectType::Angular
        } else if f.has_package_json && (f.has_jsx_files || f.has_tsx_files || self.react_in_paths(
            &scan.files_by_type,
        )) {
            ProjectType::React
        } else if f.has_pyproject_toml || f.has_requirements_txt || f.has_setup_py {
            ProjectType::Python
        } else if f.has_go_mod || f.has_go_files {
            ProjectType::Go
        } else if f.has_js_files || f.has_ts_files {
            ProjectType::JavaScript
        } else if f.has_php_files {
            ProjectType::PHP
        } else {
            ProjectType::Generic
        }
    }

    /// Assembles the classified project: the walk's directories and files,
    /// its type, the Drupal modules where the type is a Drupal one, and the
    /// summary where it is of the kind the type calls for.
    pub fn analyze_project_structure(
        &self,
        scan: ProjectScan,
        modules: Vec<(String, String)>,
        root_is_module: bool,
        specific_info: SpecificProjectInfo,
    ) -> (r: ProjectStructure)
        requires
            scan.wf(),
        ensures
            r.project_type == Some(
                project_type_of(
                    scan.seen(),
                    react_paths(scan.groups()),
                    modules@.len() > 0,
                    root_is_module,
                ),
            ),
            groups_view(r.files_by_type@) == scan.groups(),
            groups_wf(groups_view(r.files_by_type@)),
            views_of_strings(r.directories@) == scan.dirs(),
            r.project_type matches Some(t) && (t == ProjectType::Drupal || t
                == ProjectType::DrupalModule) ==> r.modules@ == modules@,
            r.project_type matches Some(t) && t != ProjectType::Drupal && t
                != ProjectType::DrupalModule ==> r.modules@.len() == 0,
            r.project_type matches Some(t) && info_fits(t, r.specific_info),
            r.project_type matches Some(t) && info_fits(t, specific_info) ==> r.specific_info
                == specific_info,
            r.project_type matches Some(t) && (!info_fits(t, specific_info) ==> r.specific_info
                == empty_info(t)),
    {
        let t = self.determine_project_type(&scan, &modules, root_is_module);
        let fits = match (&t, &specific_info) {
            (ProjectType::DrupalModule, SpecificProjectInfo::Drupal(_)) => true,
            (ProjectType::Rust, SpecificProjectInfo::Rust(_)) => true,
            (ProjectType::Angular, SpecificProjectInfo::Angular(_)) => true,
            (ProjectType::React, SpecificProjectInfo::React(_)) => true,
            (ProjectType::Python, SpecificProjectInfo::Python(_)) => true,
            (ProjectType::DrupalModule, _) => false,
            (ProjectType::Rust, _) => false,
            (ProjectType::Angular, _) => false,
            (ProjectType::React, _) => false,
            (ProjectType::Python, _) => false,
            (_, SpecificProjectInfo::NoInfo) => true,
            (_, _) => false,
        };
        let info = if fits {
            specific_info
        } else {
            match t {
                ProjectType::DrupalModule => SpecificProjectInfo::Drupal(None),
                ProjectType::Rust => SpecificProjectInfo::Rust(None),
                ProjectType::Angular => SpecificProjectInfo::Angular(None),
                ProjectType::React => SpecificProjectInfo::React(None),
                ProjectType::Python => SpecificProjectInfo::Python(None),
                _ => SpecificProjectInfo::NoInfo,
            }
        };
        let drupal = match t {
            ProjectType::Drupal => true,
            ProjectType::DrupalModule => true,
            _ => false,
        };
        let kept = if drupal {
            modules
        } else {
            Vec::new()
        };
        ProjectStructure {
            directories: scan.directories,
            files_by_type: scan.files_by_type,
            project_type: Some(t),
            specific_info: info,
            modules: kept,
        }
    }
}

} // verus!
