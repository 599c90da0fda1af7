use vstd::prelude::*;
use vstd::string::*;

verus! {

/// The character that separates the folders of a task path.
pub open spec fn separator() -> char {
    '\\'
}

/// Whether `i` is the position of the last separator in `path`.
pub open spec fn is_last_separator(path: Seq<char>, i: int) -> bool {
    &&& 0 <= i < path.len()
    &&& path[i] == separator()
    &&& forall|j: int| i < j < path.len() ==> path[j] != separator()
}

/// Whether `path` holds no separator.
pub open spec fn has_no_separator(path: Seq<char>) -> bool {
    forall|j: int| 0 <= j < path.len() ==> path[j] != separator()
}

/// The folder and the name that a task path stands for.
///
/// The name is what follows the last separator, the folder what comes before
/// it. A path without a separator, or with its only separator in front, names
/// a task of the root folder, whose path is a single separator.
pub open spec fn is_split(path: Seq<char>, folder: Seq<char>, name: Seq<char>) -> bool {
    if has_no_separator(path) {
        folder == seq![separator()] && name == path
    } else {
        exists|i: int|
            is_last_separator(path, i) && name == path.subrange(i + 1, path.len() as int)
                && folder == (if i == 0 {
                seq![separator()]
            } else {
                path.subrange(0, i)
            })
    }
}

/// The path of the root folder: a single separator.
pub fn root_folder() -> (r: &'static str)
    ensures
        r@ == seq![separator()],
{
    proof {
        reveal_strlit("\\");
    }
    let r = "\\";
    assert(r@ =~= seq![separator()]);
    r
}

/// Splits the path of a task into its folder and its name.
pub fn split_task_path<'a>(path: &'a str) -> (r: (&'a str, &'a str))
    ensures
        is_split(path@, r.0@, r.1@),
{
    let len = path.unicode_len();
    let mut i: usize = len;
    while i > 0
        invariant
            i <= len,
            len == path@.len(),
            forall|j: int| i <= j < len ==> path@[j] != separator(),
        decreases i,
    {
        if path.get_char(i - 1) == '\\' {
            let name = path.substring_char(i, len);
            let at: usize = i - 1;
            assert(is_last_separator(path@, at as int));
            if at == 0 {
                return (root_folder(), name);
            } else {
                return (path.substring_char(0, at), name);
            }
        }
        i = i - 1;
    }
    (root_folder(), path)
}

/// A path has at most one last separator, so it splits in one way only.
pub proof fn law_split_unique(
    path: Seq<char>,
    folder: Seq<char>,
    name: Seq<char>,
    folder2: Seq<char>,
    name2: Seq<char>,
)
    requires
        is_split(path, folder, name),
        is_split(path, folder2, name2),
    ensures
        folder == folder2,
        name == name2,
{
    if !has_no_separator(path) {
        let i = choose|i: int|
            is_last_separator(path, i) && name == path.subrange(i + 1, path.len() as int)
                && folder == (if i == 0 {
                seq![separator()]
            } else {
                path.subrange(0, i)
            });
        let k = choose|k: int|
            is_last_separator(path, k) && name2 == path.subrange(k + 1, path.len() as int)
                && folder2 == (if k == 0 {
                seq![separator()]
            } else {
                path.subrange(0, k)
            });
        assert(i == k) by {
            if i < k {
                assert(path[k] != separator());
            }
            if k < i {
                assert(path[i] != separator());
            }
        }
    }
}

} // verus!
