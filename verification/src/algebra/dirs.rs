//! An alternative directory-reading capability surface: enumerate a
//! directory's bookmark entries and locate paths under the user's home
//! directory. No provider is required by the program operations, which go
//! through `UserDirs` and `SymLinks` instead.

use crate::models::{HopEffect, LinkPair};
use vstd::prelude::*;

verus! {

pub trait Dirs {
    /// Enumerate the bookmark entries of a directory.
    fn read_dir(path: &String) -> (r: HopEffect<Vec<LinkPair>>);

    /// The user's home directory.
    fn get_home_dir() -> (r: HopEffect<String>);

    /// Locate a path under the user's home directory.
    fn in_home_dir(path: &String) -> (r: HopEffect<String>);
}

} // verus!
