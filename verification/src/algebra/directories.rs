//! The capability that checks whether a path is an existing directory.

use super::cap_view::CapView;
use crate::models::HopEffect;
use vstd::prelude::*;

verus! {

pub trait Directories: CapView {
    /// Report whether `dir_path` exists and is a directory. An
    /// inspection failure (permissions and the like) surfaces as an
    /// error, never as a silent `false`.
    fn dir_exists(&self, dir_path: &String) -> (r: HopEffect<bool>)
        ensures
            r matches Ok(b) ==> b == self.dir_at(dir_path@),
    ;
}

} // verus!
