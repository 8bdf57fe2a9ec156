//! The capability that manages the symlink entries of the bookmark home:
//! enumerate them, check for an entry, create one, delete one.

use super::cap_view::CapView;
use crate::models::{HomeType, HopEffect, HopError, Link, LinkPair, LinkPairV, LinkTarget};
use crate::models::{pairs_view, unique_names, without_name};
use crate::paths::join_spec;
use crate::program::io_error_ex;
use vstd::prelude::*;
use vstd::string::StringExecFns;

verus! {

/// The place a symlink is to be created at: the entry called `link`
/// inside the directory `dir`.
#[derive(Debug, Clone, PartialEq)]
pub struct SymLink {
    pub dir: String,
    pub link: Link,
}

impl SymLink {
    /// The full path of the symlink.
    pub open spec fn path_spec(&self) -> Seq<char> {
        join_spec(self.dir@, self.link@)
    }

    /// Build the full path of the symlink.
    pub fn full_path(&self) -> (r: String)
        ensures
            r@ == self.path_spec(),
    {
        crate::paths::join_path(&self.dir, &self.link.0)
    }
}

/// The error an enumeration ends in when a symlink entry cannot be read:
/// it names the link and keeps the underlying failure as its cause.
pub fn read_link_error(link: &Link, cause: HopError) -> (r: HopError)
    ensures
        r.message@ == "Could not read link `"@ + link@ + "`"@,
        r.causes@.len() == 1,
        r.causes@[0] == cause,
{
    let mut m = String::from_str("Could not read link `");
    m.append(link.0.as_str());
    m.append("`");
    io_error_ex(m.as_str(), cause)
}

pub trait SymLinks: CapView {
    /// Enumerate the symlink entries of a directory, each resolved to its
    /// target. Entries that are not symlinks are left out; a symlink that
    /// cannot be read fails the whole enumeration with an error naming it.
    fn read_dir_links(&self, dir_path: &String) -> (r: HopEffect<Vec<LinkPair>>)
        ensures
            r matches Ok(v) ==> pairs_view(v@) == self.links(dir_path@),
            r matches Ok(v) ==> unique_names(self.links(dir_path@)),
    ;

    /// Create a symlink at `symlink` pointing at `target`. Fails if an
    /// entry already exists there or the filesystem refuses; on failure
    /// nothing has changed.
    fn write_link(&mut self, symlink: &SymLink, target: &LinkTarget) -> (r: HopEffect<()>)
        ensures
            final(self).lines_out() == old(self).lines_out(),
            final(self).lines_in() == old(self).lines_in(),
            forall|ht: HomeType| final(self).hop_home(ht) == old(self).hop_home(ht),
            r matches Ok(_) ==> !old(self).entry_exists(symlink.path_spec()),
            r matches Ok(_) ==> final(self).entry_exists(symlink.path_spec()),
            r matches Ok(_) ==> final(self).links(symlink.dir@).to_multiset() == old(self).links(
                symlink.dir@,
            ).to_multiset().insert(LinkPairV { link: symlink.link@, target: target@ }),
            r matches Err(_) ==> forall|d: Seq<char>| final(self).links(d) == old(self).links(d),
            r matches Err(_) ==> forall|p: Seq<char>|
                final(self).entry_exists(p) == old(self).entry_exists(p),
            r matches Err(_) ==> forall|p: Seq<char>| final(self).dir_at(p) == old(self).dir_at(p),
    ;

    /// Report whether any filesystem entry exists at `file_name`.
    fn link_exists(&self, file_name: &String) -> (r: HopEffect<bool>)
        ensures
            r matches Ok(b) ==> b == self.entry_exists(file_name@),
    ;

    /// Remove the symlink entry of `link_pair` from the directory
    /// `dir_path`. On success the enumeration no longer carries the
    /// pair's name; on failure nothing has changed.
    fn delete_link(&mut self, dir_path: &String, link_pair: &LinkPair) -> (r: HopEffect<()>)
        ensures
            final(self).lines_out() == old(self).lines_out(),
            final(self).lines_in() == old(self).lines_in(),
            forall|ht: HomeType| final(self).hop_home(ht) == old(self).hop_home(ht),
            r matches Ok(_) ==> final(self).links(dir_path@).to_multiset() == without_name(
                old(self).links(dir_path@).to_multiset(),
                link_pair@.link,
            ),
            r matches Err(_) ==> forall|d: Seq<char>| final(self).links(d) == old(self).links(d),
            r matches Err(_) ==> forall|p: Seq<char>|
                final(self).entry_exists(p) == old(self).entry_exists(p),
            r matches Err(_) ==> forall|p: Seq<char>| final(self).dir_at(p) == old(self).dir_at(p),
    ;
}

/// A directory's views cohere when every enumerable symlink of it exists
/// as an entry of it: a name that is free as an entry is then also absent
/// from the enumeration. Filesystems have this of every directory.
pub open spec fn links_are_entries<T: SymLinks>(provider: T, dir: Seq<char>) -> bool {
    forall|i: int|
        0 <= i < provider.links(dir).len() ==> provider.entry_exists(
            join_spec(dir, (#[trigger] provider.links(dir)[i]).link),
        )
}

} // verus!
