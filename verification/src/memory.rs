//! An in-memory capability provider. It holds a small model of the world
//! — the resolved home, the home's symlink entries, the directories and
//! other entries that exist, and scripted console lines — and implements
//! all four capabilities over it, verified against their contracts.
//! Failures can be scripted per capability to exercise the error paths.

use crate::algebra::cap_view::CapView;
use crate::algebra::directories::Directories;
use crate::algebra::std_io::StdIO;
use crate::algebra::symlinks::{SymLink, SymLinks};
use crate::algebra::user_dirs::UserDirs;
use crate::models::{HomeType, HopEffect, Link, LinkPair, LinkPairV, LinkTarget};
use crate::models::{lemma_without_name_insert, lines_view, pairs_view, without_name};
use crate::paths::{join_path, join_spec};
use crate::program::io_error;
use vstd::prelude::*;

verus! {

/// A world held in memory: one bookmark home with its entries, the
/// directories and other filesystem entries that exist, and the console.
/// A `Some` in one of the error fields makes the matching capability fail
/// with that message.
pub struct InMemory {
    /// The path the bookmark home resolves to.
    pub home: String,
    /// The symlink entries of the home, in enumeration order.
    pub pairs: Vec<LinkPair>,
    /// Paths that exist as directories.
    pub dirs: Vec<String>,
    /// Paths that exist as entries of some other kind.
    pub entries: Vec<String>,
    /// Pending input lines, next one first.
    pub input: Vec<String>,
    /// Lines emitted so far.
    pub output: Vec<String>,
    /// When set, resolving the home fails with this message.
    pub home_error: Option<String>,
    /// When set, enumerating the home fails with this message.
    pub read_error: Option<String>,
    /// When set, creating a symlink fails with this message.
    pub write_error: Option<String>,
    /// When set, deleting a symlink fails with this message.
    pub delete_error: Option<String>,
}

impl InMemory {
    /// A world with the given home path and nothing else: no entries, no
    /// console lines, no scripted failures.
    pub fn new(home: &str) -> (r: InMemory)
        ensures
            r.home@ == home@,
            r.pairs@.len() == 0,
            r.dirs@.len() == 0,
            r.entries@.len() == 0,
            r.input@.len() == 0,
            r.output@.len() == 0,
            r.home_error is None,
            r.read_error is None,
            r.write_error is None,
            r.delete_error is None,
    {
        InMemory {
            home: home.to_owned(),
            pairs: Vec::new(),
            dirs: Vec::new(),
            entries: Vec::new(),
            input: Vec::new(),
            output: Vec::new(),
            home_error: None,
            read_error: None,
            write_error: None,
            delete_error: None,
        }
    }
}

impl CapView for InMemory {
    open spec fn hop_home(&self, home_type: HomeType) -> Seq<char> {
        self.home@
    }

    open spec fn links(&self, dir: Seq<char>) -> Seq<LinkPairV> {
        if dir == self.home@ {
            pairs_view(self.pairs@)
        } else {
            Seq::empty()
        }
    }

    open spec fn entry_exists(&self, path: Seq<char>) -> bool {
        ||| exists|i: int|
            0 <= i < self.pairs@.len() && join_spec(
                self.home@,
                self.pairs@[i]@.link,
            ) == path
        ||| exists|i: int| 0 <= i < self.entries@.len() && self.entries@[i]@ == path
    }

    open spec fn dir_at(&self, path: Seq<char>) -> bool {
        exists|i: int| 0 <= i < self.dirs@.len() && self.dirs@[i]@ == path
    }

    open spec fn lines_out(&self) -> Seq<Seq<char>> {
        lines_view(self.output@)
    }

    open spec fn lines_in(&self) -> Seq<Seq<char>> {
        lines_view(self.input@)
    }
}

/// Two worlds with the same filesystem fields look the same to every
/// filesystem view, whatever their consoles hold.
proof fn lemma_same_fs_views(a: InMemory, b: InMemory)
    requires
        a.home == b.home,
        a.pairs == b.pairs,
        a.dirs == b.dirs,
        a.entries == b.entries,
    ensures
        forall|d: Seq<char>| a.links(d) == b.links(d),
        forall|p: Seq<char>| a.entry_exists(p) == b.entry_exists(p),
        forall|p: Seq<char>| a.dir_at(p) == b.dir_at(p),
        forall|ht: HomeType| a.hop_home(ht) == b.hop_home(ht),
{
    assert forall|p: Seq<char>| a.entry_exists(p) == b.entry_exists(p) by {
        if a.entry_exists(p) {
            if exists|i: int|
                0 <= i < a.pairs@.len() && join_spec(a.home@, a.pairs@[i]@.link)
                    == p {
                let i = choose|i: int|
                    0 <= i < a.pairs@.len() && join_spec(a.home@, a.pairs@[i]@.link)
                        == p;
                assert(join_spec(b.home@, b.pairs@[i]@.link) == p);
            } else {
                let i = choose|i: int| 0 <= i < a.entries@.len() && a.entries@[i]@ == p;
                assert(b.entries@[i]@ == p);
            }
        }
        if b.entry_exists(p) {
            if exists|i: int|
                0 <= i < b.pairs@.len() && join_spec(b.home@, b.pairs@[i]@.link)
                    == p {
                let i = choose|i: int|
                    0 <= i < b.pairs@.len() && join_spec(b.home@, b.pairs@[i]@.link)
                        == p;
                assert(join_spec(a.home@, a.pairs@[i]@.link) == p);
            } else {
                let i = choose|i: int| 0 <= i < b.entries@.len() && b.entries@[i]@ == p;
                assert(a.entries@[i]@ == p);
            }
        }
    }
    assert forall|p: Seq<char>| a.dir_at(p) == b.dir_at(p) by {
        if a.dir_at(p) {
            let i = choose|i: int| 0 <= i < a.dirs@.len() && a.dirs@[i]@ == p;
            assert(b.dirs@[i]@ == p);
        }
        if b.dir_at(p) {
            let i = choose|i: int| 0 <= i < b.dirs@.len() && b.dirs@[i]@ == p;
            assert(a.dirs@[i]@ == p);
        }
    }
}

/// Report whether some element of `haystack` is the string `needle`.
fn contains_string(haystack: &Vec<String>, needle: &String) -> (r: bool)
    ensures
        r == exists|i: int| 0 <= i < haystack@.len() && haystack@[i]@ == needle@,
{
    let mut i: usize = 0;
    while i < haystack.len()
        invariant
            0 <= i <= haystack@.len(),
            forall|j: int| 0 <= j < i ==> haystack@[j]@ != needle@,
        decreases haystack@.len() - i,
    {
        if haystack[i] == *needle {
            return true;
        }
        i += 1;
    }
    false
}

impl InMemory {
    /// Report whether any filesystem entry of this world sits at `path`:
    /// a symlink of the home, or one of the other entries.
    fn exists_entry(&self, path: &String) -> (r: bool)
        ensures
            r == self.entry_exists(path@),
    {
        let mut i: usize = 0;
        while i < self.pairs.len()
            invariant
                0 <= i <= self.pairs@.len(),
                forall|j: int|
                    0 <= j < i ==> join_spec(self.home@, self.pairs@[j]@.link) != path@,
            decreases self.pairs@.len() - i,
        {
            let full = join_path(&self.home, &self.pairs[i].link.0);
            if full == *path {
                proof {
                    assert(join_spec(self.home@, self.pairs@[i as int]@.link) == path@);
                }
                return true;
            }
            i += 1;
        }
        contains_string(&self.entries, path)
    }
}

impl UserDirs for InMemory {
    fn get_hop_home(&self, path: &HomeType) -> (r: HopEffect<String>) {
        match &self.home_error {
            Some(message) => Err(io_error(message.as_str())),
            None => Ok(self.home.clone()),
        }
    }
}

impl Directories for InMemory {
    fn dir_exists(&self, dir_path: &String) -> (r: HopEffect<bool>) {
        Ok(contains_string(&self.dirs, dir_path))
    }
}

impl StdIO for InMemory {
    fn println(&mut self, message: &String) {
        self.output.push(message.clone());
        proof {
            assert(lines_view(self.output@) =~= lines_view(old(self).output@).push(message@));
            lemma_same_fs_views(*old(self), *self);
        }
    }

    fn readln(&mut self) -> (r: HopEffect<String>) {
        if self.input.len() == 0 {
            proof {
                lemma_same_fs_views(*old(self), *self);
            }
            Err(io_error("Could not retrieve lines from stdio"))
        } else {
            let line = self.input.remove(0);
            proof {
                assert(lines_view(self.input@) =~= lines_view(old(self).input@).drop_first());
                lemma_same_fs_views(*old(self), *self);
            }
            Ok(line)
        }
    }
}

impl SymLinks for InMemory {
    fn read_dir_links(&self, dir_path: &String) -> (r: HopEffect<Vec<LinkPair>>) {
        match &self.read_error {
            Some(message) => {
                return Err(io_error(message.as_str()));
            },
            None => {},
        }
        if !(*dir_path == self.home) {
            let out: Vec<LinkPair> = Vec::new();
            proof {
                assert(pairs_view(out@) =~= self.links(dir_path@));
            }
            return Ok(out);
        }
        let ghost full = pairs_view(self.pairs@);
        // Entries of one directory never share a name; refuse a world
        // that pretends otherwise.
        let mut i: usize = 0;
        while i < self.pairs.len()
            invariant
                0 <= i <= self.pairs@.len(),
                full == pairs_view(self.pairs@),
                forall|a: int, b: int|
                    0 <= a < b < full.len() && a < i ==> full[a].link != full[b].link,
            decreases self.pairs@.len() - i,
        {
            let mut j: usize = i + 1;
            while j < self.pairs.len()
                invariant
                    0 <= i < self.pairs@.len(),
                    i + 1 <= j <= self.pairs@.len(),
                    full == pairs_view(self.pairs@),
                    forall|b: int| i < b < j ==> full[i as int].link != full[b].link,
                decreases self.pairs@.len() - j,
            {
                if self.pairs[i].link.0 == self.pairs[j].link.0 {
                    return Err(io_error("Duplicate link names in hop home"));
                }
                j += 1;
            }
            i += 1;
        }
        // Hand out a copy of the entries.
        let mut out: Vec<LinkPair> = Vec::new();
        let mut k: usize = 0;
        while k < self.pairs.len()
            invariant
                0 <= k <= self.pairs@.len(),
                full == pairs_view(self.pairs@),
                out@.len() == k,
                forall|j: int| 0 <= j < k ==> out@[j]@ == full[j],
            decreases self.pairs@.len() - k,
        {
            let p = &self.pairs[k];
            out.push(
                LinkPair { link: Link(p.link.0.clone()), target: LinkTarget(p.target.0.clone()) },
            );
            k += 1;
        }
        proof {
            assert(pairs_view(out@) =~= full);
        }
        Ok(out)
    }

    fn write_link(&mut self, symlink: &SymLink, target: &LinkTarget) -> (r: HopEffect<()>) {
        match &self.write_error {
            Some(message) => {
                proof {
                    lemma_same_fs_views(*old(self), *self);
                }
                return Err(io_error(message.as_str()));
            },
            None => {},
        }
        if !(symlink.dir == self.home) {
            proof {
                lemma_same_fs_views(*old(self), *self);
            }
            return Err(io_error("Not a directory"));
        }
        let full = symlink.full_path();
        if self.exists_entry(&full) {
            proof {
                lemma_same_fs_views(*old(self), *self);
            }
            return Err(io_error("File exists"));
        }
        self.pairs.push(
            LinkPair { link: Link(symlink.link.0.clone()), target: LinkTarget(target.0.clone()) },
        );
        proof {
            broadcast use vstd::seq_lib::group_to_multiset_ensures;

            let new_pair = LinkPairV { link: symlink.link@, target: target@ };
            assert(pairs_view(self.pairs@) =~= pairs_view(old(self).pairs@).push(new_pair));
            assert(pairs_view(self.pairs@).to_multiset() == pairs_view(
                old(self).pairs@,
            ).to_multiset().insert(new_pair));
            let ghost n = old(self).pairs@.len() as int;
            assert(join_spec(self.home@, self.pairs@[n]@.link) == symlink.path_spec());
        }
        Ok(())
    }

    fn link_exists(&self, file_name: &String) -> (r: HopEffect<bool>) {
        Ok(self.exists_entry(file_name))
    }

    fn delete_link(&mut self, dir_path: &String, link_pair: &LinkPair) -> (r: HopEffect<()>) {
        match &self.delete_error {
            Some(message) => {
                proof {
                    lemma_same_fs_views(*old(self), *self);
                }
                return Err(io_error(message.as_str()));
            },
            None => {},
        }
        if !(*dir_path == self.home) {
            proof {
                lemma_same_fs_views(*old(self), *self);
            }
            return Err(io_error("No such file or directory"));
        }
        let ghost full = pairs_view(self.pairs@);
        let ghost name = link_pair@.link;
        let mut kept: Vec<LinkPair> = Vec::new();
        let mut k: usize = 0;
        proof {
            broadcast use vstd::seq_lib::group_to_multiset_ensures;
            broadcast use vstd::multiset::group_multiset_axioms;

            assert(pairs_view(kept@).to_multiset() =~= without_name(
                full.subrange(0, 0).to_multiset(),
                name,
            )) by {
                assert forall|x: LinkPairV|
                    pairs_view(kept@).to_multiset().count(x) == without_name(
                        full.subrange(0, 0).to_multiset(),
                        name,
                    ).count(x) by {
                    assert(!pairs_view(kept@).contains(x));
                    assert(!full.subrange(0, 0).contains(x));
                }
            }
        }
        while k < self.pairs.len()
            invariant
                0 <= k <= self.pairs@.len(),
                full == pairs_view(self.pairs@),
                name == link_pair@.link,
                kept@.len() <= k,
                pairs_view(kept@).to_multiset() == without_name(
                    full.subrange(0, k as int).to_multiset(),
                    name,
                ),
            decreases self.pairs@.len() - k,
        {
            broadcast use vstd::seq_lib::group_to_multiset_ensures;

            let ghost kept_before = pairs_view(kept@);
            let p = &self.pairs[k];
            if !(p.link.0 == link_pair.link.0) {
                kept.push(
                    LinkPair {
                        link: Link(p.link.0.clone()),
                        target: LinkTarget(p.target.0.clone()),
                    },
                );
                proof {
                    assert(pairs_view(kept@) =~= kept_before.push(full[k as int]));
                }
            }
            proof {
                assert(full.subrange(0, k + 1) =~= full.subrange(0, k as int).push(
                    full[k as int],
                ));
                lemma_without_name_insert(
                    full.subrange(0, k as int).to_multiset(),
                    full[k as int],
                    name,
                );
            }
            k += 1;
        }
        if kept.len() == self.pairs.len() {
            proof {
                lemma_same_fs_views(*old(self), *self);
            }
            return Err(io_error("No such file or directory"));
        }
        proof {
            assert(full.subrange(0, self.pairs@.len() as int) =~= full);
        }
        self.pairs = kept;
        Ok(())
    }
}

impl InMemory {
    /// Every directory of this world coheres: each enumerable symlink of
    /// the home exists as an entry, as it would on a filesystem.
    pub proof fn lemma_links_are_entries(&self, dir: Seq<char>)
        ensures
            crate::algebra::symlinks::links_are_entries(*self, dir),
    {
        if dir == self.home@ {
            assert forall|i: int| 0 <= i < self.links(dir).len() implies self.entry_exists(
                join_spec(dir, (#[trigger] self.links(dir)[i]).link),
            ) by {
                assert(self.links(dir)[i] == self.pairs@[i]@);
                assert(join_spec(self.home@, self.pairs@[i]@.link) == join_spec(
                    dir,
                    self.links(dir)[i].link,
                ));
            }
        }
    }
}

} // verus!
