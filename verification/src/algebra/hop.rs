//! The program layer: the five user-facing operations, written against
//! the four capabilities and carrying every business rule — path
//! resolution, existence and conflict checks, and the confirm-before-
//! delete protocol.

use super::cap_view::CapView;
use super::directories::Directories;
use super::std_io::StdIO;
use super::symlinks::{SymLink, SymLinks};
use super::user_dirs::UserDirs;
use crate::models::{HomeType, HopEffect, HopError, Link, LinkPair, LinkPairV, LinkTarget};
use crate::models::{
    contains_name, find_link_spec, lemma_find_at, lemma_find_none, lemma_find_props, pairs_view,
    unique_names, without_name,
};
use crate::paths::{join_path, join_spec, resolve_spec, resolve_target};
use crate::program::io_error;
use vstd::prelude::*;
use vstd::string::StringExecFns;

verus! {

/// The data required to run hop: a capability provider and the way the
/// bookmark home is located.
pub struct HopProgram<T> {
    pub value: T,
    pub hop_home_dir: HomeType,
}

/// The outcome of a delete: the user declined, or the entry named by the
/// carried pair was removed.
#[derive(Debug, PartialEq)]
pub enum DeleteStatus {
    DeleteAborted,
    DeleteSucceeded(LinkPair),
}

/// The message of the error a jump ends in when no bookmark has the
/// requested name.
pub open spec fn not_found_msg(name: Seq<char>) -> Seq<char> {
    "Could not find link: "@ + name
}

/// The message of the error a delete ends in when no bookmark has the
/// requested name. No prompt has been shown in that case.
pub open spec fn not_found_for_delete_msg(name: Seq<char>) -> Seq<char> {
    "Could not find link named:`"@ + name + "` for deletion"@
}

/// The message of the conflict error a mark ends in when an entry with
/// the requested name already exists. Marking never overwrites.
pub open spec fn conflict_msg(name: Seq<char>) -> Seq<char> {
    "A link named `"@ + name + "` already exists. Aborting mark creation."@
}

/// The message of the validation error a mark ends in when the resolved
/// target is not an existing directory. It names the target as the user
/// gave it.
pub open spec fn validation_msg(target: Seq<char>) -> Seq<char> {
    "A directory named `"@ + target + "` does not exist or you do not have permission to it."@
}

/// The confirmation prompt a delete emits before reading the user's
/// answer.
pub open spec fn prompt_msg(pair: LinkPairV) -> Seq<char> {
    "Are you sure you want to delete "@ + pair.link + " which links to "@ + pair.target + " ?"@
}

/// An answer confirms a deletion exactly when it is the single letter Y,
/// in either case.
pub open spec fn affirmative_spec(line: Seq<char>) -> bool {
    line == "Y"@ || line == "y"@
}

/// Report whether an input line confirms a deletion: exactly `"Y"` or
/// `"y"`, nothing else.
pub fn is_affirmative(line: &String) -> (r: bool)
    ensures
        r == affirmative_spec(line@),
{
    let yes_upper = String::from_str("Y");
    let yes_lower = String::from_str("y");
    *line == yes_upper || *line == yes_lower
}

/// The error a jump ends in when no bookmark has the requested name.
fn not_found_error(link: &Link) -> (r: HopError)
    ensures
        r.message@ == not_found_msg(link@),
        r.causes@.len() == 0,
{
    let mut m = String::from_str("Could not find link: ");
    m.append(link.0.as_str());
    io_error(m.as_str())
}

/// The error a delete ends in when no bookmark has the requested name.
fn not_found_for_delete_error(link: &Link) -> (r: HopError)
    ensures
        r.message@ == not_found_for_delete_msg(link@),
        r.causes@.len() == 0,
{
    let mut m = String::from_str("Could not find link named:`");
    m.append(link.0.as_str());
    m.append("` for deletion");
    io_error(m.as_str())
}

/// The error a mark ends in when the requested name is already taken.
fn conflict_error(link: &Link) -> (r: HopError)
    ensures
        r.message@ == conflict_msg(link@),
        r.causes@.len() == 0,
{
    let mut m = String::from_str("A link named `");
    m.append(link.0.as_str());
    m.append("` already exists. Aborting mark creation.");
    io_error(m.as_str())
}

/// The error a mark ends in when the requested target is not an existing
/// directory.
fn validation_error(target: &LinkTarget) -> (r: HopError)
    ensures
        r.message@ == validation_msg(target@),
        r.causes@.len() == 0,
{
    let mut m = String::from_str("A directory named `");
    m.append(target.0.as_str());
    m.append("` does not exist or you do not have permission to it.");
    io_error(m.as_str())
}

/// The confirmation prompt for deleting `pair`.
fn prompt_message(pair: &LinkPair) -> (r: String)
    ensures
        r@ == prompt_msg(pair@),
{
    let mut m = String::from_str("Are you sure you want to delete ");
    m.append(pair.link.0.as_str());
    m.append(" which links to ");
    m.append(pair.target.0.as_str());
    m.append(" ?");
    m
}

/// The position of the first entry of `pairs` named `link`, if any.
fn find_pair_index(pairs: &Vec<LinkPair>, link: &Link) -> (r: Option<usize>)
    ensures
        match r {
            Some(i) => i < pairs@.len() && find_link_spec(pairs_view(pairs@), link@) == Some(
                pairs@[i as int]@,
            ),
            None => find_link_spec(pairs_view(pairs@), link@) is None,
        },
{
    let ghost s = pairs_view(pairs@);
    let mut i: usize = 0;
    while i < pairs.len()
        invariant
            0 <= i <= pairs@.len(),
            s == pairs_view(pairs@),
            forall|j: int| 0 <= j < i ==> s[j].link != link@,
        decreases pairs@.len() - i,
    {
        if pairs[i].link.0 == link.0 {
            proof {
                assert(s[i as int] == pairs@[i as int]@);
                lemma_find_at(s, link@, i as int);
            }
            return Some(i);
        }
        proof {
            assert(s[i as int] == pairs@[i as int]@);
        }
        i += 1;
    }
    proof {
        lemma_find_none(s, link@);
    }
    None
}

/// Decide a jump from the entries at hand: the target of the first entry
/// with the requested name, or a not-found error naming the miss.
pub fn find_link_target(pairs: &Vec<LinkPair>, link: &Link) -> (r: HopEffect<String>)
    ensures
        match find_link_spec(pairs_view(pairs@), link@) {
            Some(q) => r matches Ok(t) && t@ == q.target,
            None => r matches Err(e) && e.message@ == not_found_msg(link@) && e.causes@.len()
                == 0,
        },
{
    match find_pair_index(pairs, link) {
        Some(i) => Ok(pairs[i].target.0.clone()),
        None => Err(not_found_error(link)),
    }
}

impl<T: UserDirs + StdIO + SymLinks + Directories> HopProgram<T> {
    /// The path the bookmark home resolves to for this program.
    pub open spec fn home_spec(&self) -> Seq<char> {
        self.value.hop_home(self.hop_home_dir)
    }

    /// The bookmark entries of the home directory, in enumeration order.
    pub open spec fn pairs_spec(&self) -> Seq<LinkPairV> {
        self.value.links(self.home_spec())
    }

    /// Resolve the home and enumerate its bookmark entries.
    fn get_link_pairs(&self) -> (r: HopEffect<Vec<LinkPair>>)
        ensures
            r matches Ok(v) ==> pairs_view(v@) == self.pairs_spec() && unique_names(
                self.pairs_spec(),
            ),
    {
        let hop_home_dir = match self.value.get_hop_home(&self.hop_home_dir) {
            Ok(h) => h,
            Err(e) => return Err(e),
        };
        self.value.read_dir_links(&hop_home_dir)
    }

    /// All bookmark entries, for machine-readable output. An empty home
    /// gives an empty list, not an error.
    pub fn list_links(&self) -> (r: HopEffect<Vec<LinkPair>>)
        ensures
            r matches Ok(v) ==> pairs_view(v@) == self.pairs_spec() && unique_names(
                self.pairs_spec(),
            ),
    {
        self.get_link_pairs()
    }

    /// All bookmark entries, for human-readable output. An empty home
    /// gives an empty list, not an error.
    pub fn tabulate_links(&self) -> (r: HopEffect<Vec<LinkPair>>)
        ensures
            r matches Ok(v) ==> pairs_view(v@) == self.pairs_spec() && unique_names(
                self.pairs_spec(),
            ),
    {
        self.get_link_pairs()
    }

    /// The target of the bookmark called `link`. A name no bookmark has
    /// ends in an error naming the miss.
    pub fn jump_target(&self, link: Link) -> (r: HopEffect<String>)
        ensures
            r matches Ok(t) ==> contains_name(self.pairs_spec(), link@) && (find_link_spec(
                self.pairs_spec(),
                link@,
            ) matches Some(q) && t@ == q.target),
            !contains_name(self.pairs_spec(), link@) ==> r matches Err(_),
    {
        let entries = match self.get_link_pairs() {
            Ok(v) => v,
            Err(e) => return Err(e),
        };
        proof {
            lemma_find_props(self.pairs_spec(), link@);
        }
        find_link_target(&entries, &link)
    }

    /// Create the bookmark `pair`: resolve its requested target against
    /// `current_dir`, check that the resolved target is an existing
    /// directory, check that the name is free, then create the symlink.
    /// On success the resolved target path comes back as confirmation.
    /// The console is never touched, and on any failure the bookmarks are
    /// exactly as they were.
    pub fn mark_dir(&mut self, pair: &LinkPair, current_dir: &String) -> (r: HopEffect<String>)
        ensures
            final(self).hop_home_dir == old(self).hop_home_dir,
            final(self).value.lines_out() == old(self).value.lines_out(),
            final(self).value.lines_in() == old(self).value.lines_in(),
            forall|ht: HomeType|
                final(self).value.hop_home(ht) == old(self).value.hop_home(ht),
            r matches Ok(s) ==> {
                &&& s@ == resolve_spec(pair.target@, current_dir@)
                &&& old(self).value.dir_at(resolve_spec(pair.target@, current_dir@))
                &&& !old(self).value.entry_exists(
                    join_spec(old(self).home_spec(), pair.link@),
                )
                &&& final(self).value.entry_exists(
                    join_spec(old(self).home_spec(), pair.link@),
                )
                &&& final(self).pairs_spec().to_multiset()
                    == old(self).pairs_spec().to_multiset().insert(
                    LinkPairV {
                        link: pair.link@,
                        target: resolve_spec(pair.target@, current_dir@),
                    },
                )
            },
            old(self).value.entry_exists(join_spec(old(self).home_spec(), pair.link@))
                ==> r matches Err(_),
            !old(self).value.dir_at(resolve_spec(pair.target@, current_dir@)) ==> r matches Err(
                _,
            ),
            r matches Err(_) ==> forall|d: Seq<char>|
                final(self).value.links(d) == old(self).value.links(d),
            r matches Err(_) ==> forall|p: Seq<char>|
                final(self).value.entry_exists(p) == old(self).value.entry_exists(p),
    {
        let hop_home = match self.value.get_hop_home(&self.hop_home_dir) {
            Ok(h) => h,
            Err(e) => return Err(e),
        };
        let resolved_target_path = resolve_target(&pair.target.0, current_dir);
        let symlink_path = join_path(&hop_home, &pair.link.0);
        match self.value.dir_exists(&resolved_target_path) {
            Err(e) => Err(e),
            Ok(false) => Err(validation_error(&pair.target)),
            Ok(true) => {
                match self.value.link_exists(&symlink_path) {
                    Err(e) => Err(e),
                    Ok(true) => Err(conflict_error(&pair.link)),
                    Ok(false) => {
                        let symlink = SymLink { dir: hop_home, link: Link(pair.link.0.clone()) };
                        let target = LinkTarget(resolved_target_path.clone());
                        match self.value.write_link(&symlink, &target) {
                            Ok(_) => Ok(resolved_target_path),
                            Err(e) => Err(e),
                        }
                    },
                }
            },
        }
    }

    /// Emit `message`, then block reading one line of input; report
    /// whether that line confirms. The prompt is on the console whatever
    /// the read comes to, and the filesystem is never touched.
    fn prompt_user(&mut self, message: &String) -> (r: HopEffect<bool>)
        ensures
            final(self).hop_home_dir == old(self).hop_home_dir,
            final(self).value.lines_out() == old(self).value.lines_out().push(message@),
            forall|d: Seq<char>| final(self).value.links(d) == old(self).value.links(d),
            forall|p: Seq<char>|
                final(self).value.entry_exists(p) == old(self).value.entry_exists(p),
            forall|p: Seq<char>| final(self).value.dir_at(p) == old(self).value.dir_at(p),
            forall|ht: HomeType|
                final(self).value.hop_home(ht) == old(self).value.hop_home(ht),
            r matches Ok(b) ==> old(self).value.lines_in().len() > 0 && b == affirmative_spec(
                old(self).value.lines_in()[0],
            ) && final(self).value.lines_in() == old(self).value.lines_in().drop_first(),
    {
        self.value.println(message);
        match self.value.readln() {
            Ok(line) => Ok(is_affirmative(&line)),
            Err(e) => Err(e),
        }
    }

    /// Delete the bookmark called `link`. A name no bookmark has ends in
    /// an error at once, with no prompt shown and nothing changed. When
    /// the bookmark is there, its confirmation prompt is emitted and one
    /// line of input is read: exactly `"Y"` or `"y"` lets the entry be
    /// removed and hands back the deleted pair; any other line aborts
    /// with the bookmarks untouched. A failure never removes anything.
    pub fn delete_link(&mut self, link: &Link) -> (r: HopEffect<DeleteStatus>)
        ensures
            final(self).hop_home_dir == old(self).hop_home_dir,
            forall|ht: HomeType|
                final(self).value.hop_home(ht) == old(self).value.hop_home(ht),
            !contains_name(old(self).pairs_spec(), link@) ==> {
                &&& r matches Err(_)
                &&& final(self).value.lines_out() == old(self).value.lines_out()
                &&& final(self).value.lines_in() == old(self).value.lines_in()
                &&& forall|d: Seq<char>|
                    final(self).value.links(d) == old(self).value.links(d)
            },
            r matches Ok(st) ==> {
                &&& find_link_spec(old(self).pairs_spec(), link@) matches Some(q)
                &&& old(self).value.lines_in().len() > 0
                &&& final(self).value.lines_out() == old(self).value.lines_out().push(
                    prompt_msg(q),
                )
                &&& final(self).value.lines_in() == old(self).value.lines_in().drop_first()
                &&& match st {
                    DeleteStatus::DeleteAborted => !affirmative_spec(
                        old(self).value.lines_in()[0],
                    ) && (forall|d: Seq<char>|
                        final(self).value.links(d) == old(self).value.links(d)),
                    DeleteStatus::DeleteSucceeded(p) => p@ == q && affirmative_spec(
                        old(self).value.lines_in()[0],
                    ) && final(self).pairs_spec().to_multiset() == without_name(
                        old(self).pairs_spec().to_multiset(),
                        link@,
                    ),
                }
            },
            r matches Err(_) ==> forall|d: Seq<char>|
                final(self).value.links(d) == old(self).value.links(d),
    {
        let hop_home = match self.value.get_hop_home(&self.hop_home_dir) {
            Ok(h) => h,
            Err(e) => return Err(e),
        };
        let link_pairs = match self.value.read_dir_links(&hop_home) {
            Ok(v) => v,
            Err(e) => return Err(e),
        };
        proof {
            lemma_find_props(old(self).pairs_spec(), link@);
        }
        match find_pair_index(&link_pairs, link) {
            None => Err(not_found_for_delete_error(link)),
            Some(i) => {
                let found = &link_pairs[i];
                let message = prompt_message(found);
                match self.prompt_user(&message) {
                    Err(e) => Err(e),
                    Ok(false) => Ok(DeleteStatus::DeleteAborted),
                    Ok(true) => {
                        match self.value.delete_link(&hop_home, found) {
                            Ok(_) => Ok(
                                DeleteStatus::DeleteSucceeded(
                                    LinkPair {
                                        link: Link(found.link.0.clone()),
                                        target: LinkTarget(found.target.0.clone()),
                                    },
                                ),
                            ),
                            Err(e) => Err(e),
                        }
                    },
                }
            },
        }
    }
}

} // verus!
