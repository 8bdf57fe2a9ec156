//! The crate's model of filesystem paths. Paths are plain strings; a
//! bookmark's symlink path is always `<home>/<name>`, and a requested
//! target is resolved against the current working directory when it is
//! relative.

use vstd::prelude::*;
use vstd::string::StrSliceExecFns;
use vstd::string::StringExecFns;

verus! {

/// `<dir>/<name>`: the path of the entry called `name` inside `dir`.
pub open spec fn join_spec(dir: Seq<char>, name: Seq<char>) -> Seq<char> {
    dir + "/"@ + name
}

/// A path is absolute when it starts at the filesystem root.
pub open spec fn is_absolute_spec(path: Seq<char>) -> bool {
    path.len() > 0 && path[0] == '/'
}

/// How a requested target is resolved at mark time: an absolute path is
/// used as it is; `"."` stands for exactly the current working directory;
/// any other relative path is joined under the current working directory.
pub open spec fn resolve_spec(target: Seq<char>, current_dir: Seq<char>) -> Seq<char> {
    if is_absolute_spec(target) {
        target
    } else if target == "."@ {
        current_dir
    } else {
        join_spec(current_dir, target)
    }
}

/// Build the path of the entry called `name` inside `dir`.
pub fn join_path(dir: &String, name: &String) -> (r: String)
    ensures
        r@ == join_spec(dir@, name@),
{
    let mut s = dir.clone();
    s.append("/");
    s.append(name.as_str());
    proof {
        assert(s@ =~= join_spec(dir@, name@));
    }
    s
}

/// Report whether a path is absolute.
pub fn is_absolute_path(path: &String) -> (r: bool)
    ensures
        r == is_absolute_spec(path@),
{
    if path.as_str().unicode_len() == 0 {
        false
    } else {
        path.as_str().get_char(0) == '/'
    }
}

/// Resolve a requested bookmark target against the current working
/// directory.
pub fn resolve_target(target: &String, current_dir: &String) -> (r: String)
    ensures
        r@ == resolve_spec(target@, current_dir@),
{
    if is_absolute_path(target) {
        target.clone()
    } else {
        let dot = String::from_str(".");
        if *target == dot {
            current_dir.clone()
        } else {
            join_path(current_dir, target)
        }
    }
}

} // verus!
