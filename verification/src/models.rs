//! The data model: link names, link targets, bookmark entries, the way the
//! bookmark home is located, and the error value that every operation
//! returns on failure.

use vstd::multiset::Multiset;
use vstd::prelude::*;

verus! {

/// A bookmark's name. It is used as a single path segment (the symlink's
/// file name) inside the bookmark home.
#[derive(Debug, Clone, PartialEq)]
pub struct Link(pub String);

impl View for Link {
    type V = Seq<char>;

    open spec fn view(&self) -> Seq<char> {
        self.0@
    }
}

impl Link {
    pub fn new(link: &str) -> (r: Self)
        ensures
            r@ == link@,
    {
        Link(link.to_owned())
    }
}

/// The filesystem path a bookmark resolves to.
#[derive(Debug, Clone, PartialEq)]
pub struct LinkTarget(pub String);

impl View for LinkTarget {
    type V = Seq<char>;

    open spec fn view(&self) -> Seq<char> {
        self.0@
    }
}

#[verifier::external_type_specification]
#[verifier::external_body]
pub struct ExPathBuf(std::path::PathBuf);

impl LinkTarget {
    /// The target as an owned path value.
    ///
    /// Relies on `std::path::PathBuf::from`: it wraps the given string as
    /// a path, for callers that want to hand the target to path-based
    /// interfaces.
    #[verifier::external_body]
    pub fn to_path_buf(&self) -> std::path::PathBuf {
        std::path::PathBuf::from(&self.0)
    }
}

/// One bookmark entry: a name paired with the path it points at.
#[derive(Debug, Clone, PartialEq)]
pub struct LinkPair {
    pub link: Link,
    pub target: LinkTarget,
}

/// The mathematical value of a bookmark entry: its name and target as
/// character sequences.
pub ghost struct LinkPairV {
    pub link: Seq<char>,
    pub target: Seq<char>,
}

impl View for LinkPair {
    type V = LinkPairV;

    open spec fn view(&self) -> LinkPairV {
        LinkPairV { link: self.link@, target: self.target@ }
    }
}

impl LinkPair {
    pub fn new(link: &str, target: &str) -> (r: Self)
        ensures
            r@.link == link@,
            r@.target == target@,
    {
        LinkPair { link: Link(link.to_owned()), target: LinkTarget(target.to_owned()) }
    }
}

/// The view of a sequence of bookmark entries.
pub open spec fn pairs_view(s: Seq<LinkPair>) -> Seq<LinkPairV> {
    s.map_values(|p: LinkPair| p@)
}

/// Whether some entry of `s` is named `name`.
pub open spec fn contains_name(s: Seq<LinkPairV>, name: Seq<char>) -> bool {
    exists|i: int| 0 <= i < s.len() && s[i].link == name
}

/// No two entries of `s` share a name. Entries of one directory always
/// satisfy this, since each name is a single file name there.
pub open spec fn unique_names(s: Seq<LinkPairV>) -> bool {
    forall|i: int, j: int| 0 <= i < j < s.len() ==> s[i].link != s[j].link
}

/// The first entry of `s` named `name`, if any.
pub open spec fn find_link_spec(s: Seq<LinkPairV>, name: Seq<char>) -> Option<LinkPairV>
    decreases s.len(),
{
    if s.len() == 0 {
        None
    } else if s[0].link == name {
        Some(s[0])
    } else {
        find_link_spec(s.drop_first(), name)
    }
}

/// The entries of `m` whose name is not `name`: what is left of a
/// directory once the entry called `name` is removed.
pub open spec fn without_name(m: Multiset<LinkPairV>, name: Seq<char>) -> Multiset<LinkPairV> {
    m.filter(|q: LinkPairV| q.link != name)
}

/// The view of a sequence of console lines.
pub open spec fn lines_view(s: Seq<String>) -> Seq<Seq<char>> {
    s.map_values(|line: String| line@)
}

/// How removing a name commutes with adding an entry: adding an entry of
/// another name first changes nothing of the removal, and an entry of the
/// removed name never survives it.
pub proof fn lemma_without_name_insert(m: Multiset<LinkPairV>, q: LinkPairV, name: Seq<char>)
    ensures
        q.link != name ==> without_name(m.insert(q), name) == without_name(m, name).insert(q),
        q.link == name ==> without_name(m.insert(q), name) == without_name(m, name),
{
    broadcast use vstd::multiset::group_multiset_axioms;

    if q.link != name {
        assert(without_name(m.insert(q), name) =~= without_name(m, name).insert(q)) by {
            assert forall|x: LinkPairV|
                without_name(m.insert(q), name).count(x) == without_name(m, name).insert(q).count(
                    x,
                ) by {
                assert(m.insert(q).count(x) == m.count(x) + (if x == q {
                    1int
                } else {
                    0int
                }));
            }
        }
    } else {
        assert(without_name(m.insert(q), name) =~= without_name(m, name)) by {
            assert forall|x: LinkPairV|
                without_name(m.insert(q), name).count(x) == without_name(m, name).count(x) by {
                assert(m.insert(q).count(x) == m.count(x) + (if x == q {
                    1int
                } else {
                    0int
                }));
            }
        }
    }
}

/// Searching `s` gives the same result as searching what is left of `s`
/// after a prefix free of matches.
pub proof fn lemma_find_skip(s: Seq<LinkPairV>, name: Seq<char>, i: int)
    requires
        0 <= i <= s.len(),
        forall|j: int| 0 <= j < i ==> s[j].link != name,
    ensures
        find_link_spec(s, name) == find_link_spec(s.skip(i), name),
    decreases i,
{
    if i > 0 {
        lemma_find_skip(s, name, i - 1);
        assert(s.skip(i - 1).len() == s.len() - (i - 1));
        assert(s.skip(i - 1)[0] == s[i - 1]);
        assert(s.skip(i - 1).drop_first() =~= s.skip(i));
        assert(find_link_spec(s.skip(i - 1), name) == find_link_spec(
            s.skip(i - 1).drop_first(),
            name,
        ));
    } else {
        assert(s.skip(0) =~= s);
    }
}

/// When everything before position `i` misses and `s[i]` matches, the
/// search finds exactly `s[i]`.
pub proof fn lemma_find_at(s: Seq<LinkPairV>, name: Seq<char>, i: int)
    requires
        0 <= i < s.len(),
        forall|j: int| 0 <= j < i ==> s[j].link != name,
        s[i].link == name,
    ensures
        find_link_spec(s, name) == Some(s[i]),
{
    lemma_find_skip(s, name, i);
    assert(s.skip(i)[0] == s[i]);
}

/// When nothing in `s` matches, the search comes back empty.
pub proof fn lemma_find_none(s: Seq<LinkPairV>, name: Seq<char>)
    requires
        forall|j: int| 0 <= j < s.len() ==> s[j].link != name,
    ensures
        find_link_spec(s, name) is None,
{
    lemma_find_skip(s, name, s.len() as int);
    assert(s.skip(s.len() as int) =~= Seq::<LinkPairV>::empty());
}

/// What a search result means: a hit carries the requested name and is an
/// element of `s`; a miss means no entry of `s` has the name.
pub proof fn lemma_find_props(s: Seq<LinkPairV>, name: Seq<char>)
    ensures
        match find_link_spec(s, name) {
            Some(q) => q.link == name && s.contains(q) && contains_name(s, name),
            None => !contains_name(s, name),
        },
    decreases s.len(),
{
    if s.len() == 0 {
    } else if s[0].link == name {
        assert(s.contains(s[0]));
    } else {
        lemma_find_props(s.drop_first(), name);
        match find_link_spec(s.drop_first(), name) {
            Some(q) => {
                let i = choose|i: int|
                    0 <= i < s.drop_first().len() && s.drop_first()[i] == q;
                assert(s[i + 1] == q);
                assert(s.contains(q));
                assert(s[i + 1].link == name);
            },
            None => {
                assert forall|i: int| 0 <= i < s.len() implies s[i].link != name by {
                    if i > 0 {
                        assert(s.drop_first()[i - 1] == s[i]);
                    }
                }
            },
        }
    }
}

/// How the bookmark home directory is located: a name joined under the
/// user's home directory, or an explicit absolute path.
#[derive(Debug, Clone, PartialEq)]
pub enum HomeType {
    Relative(String),
    Absolute(String),
}

/// The error value of every operation: a message, plus the errors that
/// caused it, if any, so that cause chains stay inspectable.
#[derive(Debug, PartialEq)]
pub struct HopError {
    pub message: String,
    pub causes: Vec<HopError>,
}

/// What every operation of this crate returns: a value or a `HopError`.
pub type HopEffect<T> = Result<T, HopError>;

} // verus!
