//! Distinguishing kinds of iterable data sources. A source is revisitable:
//! the builders may ask it for its items any number of times. The two
//! marker types keep "a reusable collection" and "a one-shot cursor that
//! can be restarted by cloning" apart, so that one generic wrapper can
//! serve both without ambiguity.

use vstd::prelude::*;

verus! {

/// Generalizes the marker types that tell kinds of iterable data sources
/// apart. Not sealed: users may define further kinds.
pub trait Kind {

}

/// Marks types that hand their items out as a reusable collection.
pub struct Source;

impl Kind for Source {

}

/// Marks types that are themselves a restartable pass over their items.
pub struct Passage;

impl Kind for Passage {

}

/// A revisitable source of items of one type. The kind parameter selects
/// among otherwise-overlapping implementations.
pub trait Iterable<K: Kind> {
    /// The item type.
    type Item;

    /// The items this source yields, in order.
    spec fn seq_spec(&self) -> Seq<Self::Item>;

    /// Collects one pass over the items.
    fn iter(&self) -> (v: Vec<Self::Item>)
        ensures
            v@ == self.seq_spec(),
    ;
}

impl<T: Copy> Iterable<Source> for Vec<T> {
    type Item = T;

    open spec fn seq_spec(&self) -> Seq<T> {
        self@
    }

    fn iter(&self) -> (v: Vec<T>) {
        let mut v: Vec<T> = Vec::new();
        let mut i: usize = 0;
        while i < self.len()
            invariant
                i <= self@.len(),
                v@ == self@.take(i as int),
            decreases self@.len() - i,
        {
            v.push(self[i]);
            proof {
                assert(v@ =~= self@.take(i + 1));
            }
            i = i + 1;
        }
        proof {
            assert(self@.take(self@.len() as int) =~= self@);
        }
        v
    }
}

impl<'a, T: Copy> Iterable<Source> for &'a Vec<T> {
    type Item = T;

    open spec fn seq_spec(&self) -> Seq<T> {
        (*self)@
    }

    fn iter(&self) -> (v: Vec<T>) {
        let mut v: Vec<T> = Vec::new();
        let mut i: usize = 0;
        while i < self.len()
            invariant
                i <= (*self)@.len(),
                v@ == (*self)@.take(i as int),
            decreases (*self)@.len() - i,
        {
            v.push(self[i]);
            proof {
                assert(v@ =~= (*self)@.take(i + 1));
            }
            i = i + 1;
        }
        proof {
            assert((*self)@.take((*self)@.len() as int) =~= (*self)@);
        }
        v
    }
}

} // verus!
