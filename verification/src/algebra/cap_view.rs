//! The spec-level view of a capability provider's state. All four
//! capability traits share one provider value, so they share one view of
//! its state: what the filesystem holds and what has passed over the
//! console. Contracts of the capability methods are stated over this view,
//! and methods that change one part of the state say that the other parts
//! stay as they were.

use crate::models::{HomeType, LinkPairV};
use vstd::prelude::*;

verus! {

/// What a capability provider's state looks like to the contracts. A
/// provider that models its state overrides these views; one that wraps
/// the outside world leaves them unspecified.
pub trait CapView {
    /// The path the bookmark home resolves to for a given configuration.
    open spec fn hop_home(&self, home_type: HomeType) -> Seq<char> {
        arbitrary()
    }

    /// The symlink entries of a directory, in enumeration order.
    open spec fn links(&self, dir: Seq<char>) -> Seq<LinkPairV> {
        arbitrary()
    }

    /// Whether a filesystem entry of any kind exists at a path.
    open spec fn entry_exists(&self, path: Seq<char>) -> bool {
        arbitrary()
    }

    /// Whether a path exists and is a directory.
    open spec fn dir_at(&self, path: Seq<char>) -> bool {
        arbitrary()
    }

    /// The lines written to the console so far, oldest first.
    open spec fn lines_out(&self) -> Seq<Seq<char>> {
        arbitrary()
    }

    /// The lines of input not yet consumed, next one first.
    open spec fn lines_in(&self) -> Seq<Seq<char>> {
        arbitrary()
    }
}

} // verus!
