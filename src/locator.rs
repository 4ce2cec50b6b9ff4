//! Repository location: repository names resolved under a fixed root, with
//! names that could leave the root refused.

use vstd::prelude::*;

verus! {

/// The immutable configuration shared by every request: the directory that
/// holds the repositories.
#[derive(Debug)]
pub struct AppState {
    pub git_root: String,
}

/// A repository name is safe when it is non-empty, is not `.` or `..`, and
/// holds no path separator and no NUL.
pub open spec fn is_safe_repo_name(name: Seq<char>) -> bool {
    &&& name.len() > 0
    &&& name != seq!['.']
    &&& name != seq!['.', '.']
    &&& forall|i: int| 0 <= i < name.len() ==> name[i] != '/' && name[i] != '\\' && name[i] != '\0'
}

/// The path of repository `name` under `root`.
pub open spec fn repo_path_spec(root: Seq<char>, name: Seq<char>) -> Seq<char> {
    root + "/"@ + name
}

/// The path of the root marker file of the repository at `path`.
pub open spec fn marker_path_spec(path: Seq<char>) -> Seq<char> {
    path + "/HEAD"@
}

/// Whether `name` may be used as a repository name.
pub fn is_safe_name(name: &str) -> (r: bool)
    ensures
        r == is_safe_repo_name(name@),
{
    let n = name.unicode_len();
    if n == 0 {
        return false;
    }
    let first = name.get_char(0);
    if n == 1 && first == '.' {
        assert(name@ =~= seq!['.']);
        return false;
    }
    if n == 2 && first == '.' && name.get_char(1) == '.' {
        assert(name@ =~= seq!['.', '.']);
        return false;
    }
    let mut i: usize = 0;
    while i < n
        invariant
            n == name@.len(),
            i <= n,
            forall|j: int| 0 <= j < i ==> name@[j] != '/' && name@[j] != '\\' && name@[j] != '\0',
        decreases n - i,
    {
        let c = name.get_char(i);
        if c == '/' || c == '\\' || c == '\0' {
            return false;
        }
        i = i + 1;
    }
    true
}

impl AppState {
    /// Resolves `name` to its path under the root. Returns `None` exactly when
    /// the name is unsafe.
    pub fn repo_path(&self, name: &str) -> (r: Option<String>)
        ensures
            is_safe_repo_name(name@) ==> (r matches Some(p) && p@ == repo_path_spec(
                self.git_root@,
                name@,
            )),
            !is_safe_repo_name(name@) ==> r is None,
    {
        if !is_safe_name(name) {
            return None;
        }
        let mut p = self.git_root.clone();
        p.append("/");
        p.append(name);
        Some(p)
    }
}

/// The path of the root marker file of the repository at `path`; a
/// repository exists only where this file does.
pub fn marker_path(path: &str) -> (r: String)
    ensures
        r@ == marker_path_spec(path@),
{
    let mut p = String::from_str(path);
    p.append("/HEAD");
    p
}

} // verus!
