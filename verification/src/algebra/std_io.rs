//! The capability that talks to the console: emit a line, read a line.

use super::cap_view::CapView;
use crate::models::{HomeType, HopEffect};
use vstd::prelude::*;

verus! {

pub trait StdIO: CapView {
    /// Emit one line of text. Only the console state changes: the line
    /// is appended to the output, and the filesystem views stay as they
    /// were.
    fn println(&mut self, message: &String)
        ensures
            final(self).lines_out() == old(self).lines_out().push(message@),
            final(self).lines_in() == old(self).lines_in(),
            forall|d: Seq<char>| final(self).links(d) == old(self).links(d),
            forall|p: Seq<char>| final(self).entry_exists(p) == old(self).entry_exists(p),
            forall|p: Seq<char>| final(self).dir_at(p) == old(self).dir_at(p),
            forall|ht: HomeType| final(self).hop_home(ht) == old(self).hop_home(ht),
    ;

    /// Read one line of input, blocking until it is there. On success the
    /// line handed back is exactly the next pending one, now consumed.
    /// Fails when no line can be read.
    fn readln(&mut self) -> (r: HopEffect<String>)
        ensures
            final(self).lines_out() == old(self).lines_out(),
            forall|d: Seq<char>| final(self).links(d) == old(self).links(d),
            forall|p: Seq<char>| final(self).entry_exists(p) == old(self).entry_exists(p),
            forall|p: Seq<char>| final(self).dir_at(p) == old(self).dir_at(p),
            forall|ht: HomeType| final(self).hop_home(ht) == old(self).hop_home(ht),
            r matches Ok(line) ==> old(self).lines_in().len() > 0 && line@ == old(
                self,
            ).lines_in()[0] && final(self).lines_in() == old(self).lines_in().drop_first(),
    ;
}

} // verus!
