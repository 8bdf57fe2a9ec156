//! Laws that relate the operations to one another. Each law is stated
//! over the same state views and search functions that the operations'
//! own contracts use, so it composes directly with them.

use crate::algebra::cap_view::CapView;
use crate::algebra::directories::Directories;
use crate::algebra::hop::HopProgram;
use crate::algebra::std_io::StdIO;
use crate::algebra::symlinks::{links_are_entries, SymLinks};
use crate::algebra::user_dirs::UserDirs;
use crate::models::{LinkPair, LinkPairV};
use crate::models::{contains_name, find_link_spec, lemma_find_props, pairs_view};
use crate::paths::join_spec;
use vstd::prelude::*;

verus! {

/// Round trip: marking a link and then jumping to it gives back exactly
/// the resolved target path recorded at mark time.
///
/// The requirements are what a successful `mark_dir` ensures of the
/// program states before (`pre`) and after (`post`) the call — the home
/// resolves as before, the name was free as an entry of the home, and
/// the entries gained exactly the new pair — together with the
/// filesystem fact that the home's views cohered beforehand (see
/// `links_are_entries`; the in-memory world proves it of itself). The
/// conclusion is what `jump_target`'s success is pinned to at `post`:
/// the search finds the new pair, so the jump hands back `resolved`.
pub proof fn lemma_mark_then_jump<T: UserDirs + StdIO + SymLinks + Directories>(
    pre: HopProgram<T>,
    post: HopProgram<T>,
    name: Seq<char>,
    resolved: Seq<char>,
)
    requires
        links_are_entries(pre.value, pre.home_spec()),
        post.home_spec() == pre.home_spec(),
        !pre.value.entry_exists(join_spec(pre.home_spec(), name)),
        post.pairs_spec().to_multiset() == pre.pairs_spec().to_multiset().insert(
            LinkPairV { link: name, target: resolved },
        ),
    ensures
        find_link_spec(post.pairs_spec(), name) == Some(
            LinkPairV { link: name, target: resolved },
        ),
        contains_name(post.pairs_spec(), name),
{
    broadcast use vstd::seq_lib::group_to_multiset_ensures;

    let home = pre.home_spec();
    let new_pair = LinkPairV { link: name, target: resolved };
    let pre_pairs = pre.pairs_spec();
    let post_pairs = post.pairs_spec();

    // The name was free as an entry, so no enumerated entry of the home
    // carries it.
    assert forall|j: int| 0 <= j < pre_pairs.len() implies pre_pairs[j].link != name by {
        if pre_pairs[j].link == name {
            assert(pre.value.entry_exists(join_spec(home, pre_pairs[j].link)));
        }
    }

    // The new pair is among the entries afterwards.
    assert(post_pairs.to_multiset().count(new_pair) > 0);
    assert(post_pairs.contains(new_pair));
    let w = choose|i: int| 0 <= i < post_pairs.len() && post_pairs[i] == new_pair;
    assert(post_pairs[w].link == name);
    assert(contains_name(post_pairs, name));

    // Any entry that carries the name afterwards is the new pair: an
    // older one would have been an entry of the home before the mark.
    lemma_find_props(post_pairs, name);
    match find_link_spec(post_pairs, name) {
        Some(q) => {
            if q != new_pair {
                assert(post_pairs.to_multiset().count(q) == pre_pairs.to_multiset().count(q));
                assert(post_pairs.to_multiset().count(q) > 0);
                assert(pre_pairs.contains(q));
                let j = choose|j: int| 0 <= j < pre_pairs.len() && pre_pairs[j] == q;
                assert(pre_pairs[j].link != name);
                assert(false);
            }
        },
        None => {
            assert(false);
        },
    }
}

/// Idempotent listing: two listings with no mutation in between return
/// the same entries.
///
/// The requirements are what a successful `list_links` (or
/// `tabulate_links`) ensures of each of two results obtained from one
/// program state: each reflects the entries of the home. The two results
/// are then the same, element for element, and so also as a set.
pub proof fn lemma_list_idempotent<T: UserDirs + StdIO + SymLinks + Directories>(
    prog: HopProgram<T>,
    first: Seq<LinkPair>,
    second: Seq<LinkPair>,
)
    requires
        pairs_view(first) == prog.pairs_spec(),
        pairs_view(second) == prog.pairs_spec(),
    ensures
        pairs_view(first) == pairs_view(second),
        pairs_view(first).to_multiset() == pairs_view(second).to_multiset(),
{
}

} // verus!
