//! Settings that the library's callers persist.
use vstd::prelude::*;

verus! {

/// Which editor opens files.
pub struct EditorConfig {
    pub default_editor: String,
}

/// Whether git features are offered.
pub struct GitConfig {
    pub enable_git_features: bool,
}

impl EditorConfig {
    /// The default: vim.
    pub fn new() -> (r: Self)
        ensures
            r.default_editor@ == "vim"@,
    {
        EditorConfig { default_editor: "vim".to_string() }
    }
}

impl GitConfig {
    /// The default: git features on.
    pub fn new() -> (r: Self)
        ensures
            r.enable_git_features,
    {
        GitConfig { enable_git_features: true }
    }
}

} // verus!
