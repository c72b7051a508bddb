use vstd::prelude::*;

verus! {

/// How deep a listing walks when some include glob crosses directories.
pub const DEEP_WALK: usize = 100;

/// How deep a listing walks otherwise: the directory's own entries.
pub const SHALLOW_WALK: usize = 1;

/// Whether a glob holds `**`, which matches across directories.
pub open spec fn crosses_dirs(glob: Seq<char>) -> bool {
    exists|i: int|
        #![trigger glob[i]]
        0 <= i && i + 1 < glob.len() && glob[i] == '*' && glob[i + 1] == '*'
}

/// Whether one of the globs crosses directories.
pub open spec fn any_crosses_dirs(globs: Seq<String>) -> bool {
    exists|k: int| 0 <= k < globs.len() && crosses_dirs(#[trigger] globs[k]@)
}

fn glob_crosses_dirs(glob: &str) -> (r: bool)
    ensures
        r == crosses_dirs(glob@),
{
    let n: usize = glob.unicode_len();
    let mut i: usize = 0;
    while i < n
        invariant
            n == glob@.len(),
            i <= n,
            forall|j: int|
                #![trigger glob@[j]]
                0 <= j < i && j + 1 < n ==> !(glob@[j] == '*' && glob@[j + 1] == '*'),
        decreases n - i,
    {
        if i + 1 < n && glob.get_char(i) == '*' && glob.get_char(i + 1) == '*' {
            return true;
        }
        i = i + 1;
    }
    false
}

fn any_glob_crosses_dirs(globs: &Vec<String>) -> (r: bool)
    ensures
        r == any_crosses_dirs(globs@),
{
    let n: usize = globs.len();
    let mut k: usize = 0;
    while k < n
        invariant
            n == globs@.len(),
            forall|j: int| 0 <= j < k ==> !crosses_dirs(#[trigger] globs@[j]@),
        decreases n - k,
    {
        if glob_crosses_dirs(globs[k].as_str()) {
            assert(crosses_dirs(globs@[k as int]@));
            return true;
        }
        k = k + 1;
    }
    false
}

/// How deep to walk a directory for files: deep when an include glob holds
/// `**`, else only the directory's own entries.
pub fn walk_depth(include_globs: Option<&Vec<String>>) -> (r: usize)
    ensures
        include_globs matches Some(g) && any_crosses_dirs(g@) ==> r == DEEP_WALK,
        !(include_globs matches Some(g) && any_crosses_dirs(g@)) ==> r == SHALLOW_WALK,
{
    match include_globs {
        Some(globs) => if any_glob_crosses_dirs(globs) {
            DEEP_WALK
        } else {
            SHALLOW_WALK
        },
        None => SHALLOW_WALK,
    }
}

/// Whether a walk keeps an entry. A directory is entered unless it is one
/// of the always-skipped ones; a file is kept unless an exclude glob matches
/// it, and then only if it matches the include globs, when there are some.
pub fn keep_entry(is_dir: bool, always_skipped: bool, excluded: bool, included: Option<bool>) -> (r:
    bool)
    ensures
        is_dir ==> r == !always_skipped,
        !is_dir ==> r == (!excluded && match included {
            Some(m) => m,
            None => true,
        }),
{
    if is_dir {
        !always_skipped
    } else if excluded {
        false
    } else {
        match included {
            Some(m) => m,
            None => true,
        }
    }
}

/// The line that heads a file's text inside a bundle.
pub fn bundle_header(path: &str) -> (r: String)
    ensures
        r@ == "\n// === file path: "@ + path@ + "\n"@,
{
    let mut r: String = "\n// === file path: ".to_owned();
    r.append(path);
    r.append("\n");
    r
}

} // verus!
