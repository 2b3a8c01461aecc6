//! Append-only storage for the interned strings. Slot `i` holds the `i`-th
//! distinct string pushed; a slot's contents never change after the push.

use vstd::prelude::*;

verus! {

/// Append-only storage for interned strings, viewed as the sequence of the
/// stored strings in insertion order.
pub struct Arena {
    entries: Vec<String>,
}

impl View for Arena {
    type V = Seq<Seq<char>>;

    closed spec fn view(&self) -> Seq<Seq<char>> {
        self.entries@.map_values(|s: String| s@)
    }
}

impl Arena {
    /// An arena with no entries.
    pub fn new() -> (r: Arena)
        ensures
            r@ == Seq::<Seq<char>>::empty(),
    {
        let r = Arena { entries: Vec::new() };
        proof {
            assert(r@ =~= Seq::<Seq<char>>::empty());
        }
        r
    }

    /// How many strings are stored.
    pub fn len(&self) -> (r: usize)
        ensures
            r == self@.len(),
    {
        self.entries.len()
    }

    /// Copy `s` into a fresh slot; the new slot's index is the old length.
    pub fn push_str(&mut self, s: &str) -> (idx: usize)
        ensures
            final(self)@ == old(self)@.push(s@),
            idx == old(self)@.len(),
    {
        let idx = self.entries.len();
        self.entries.push(s.to_owned());
        proof {
            assert(self@ =~= old(self)@.push(s@));
        }
        idx
    }

    /// The string stored at `index`, or `None` when `index` is out of range.
    pub fn get(&self, index: usize) -> (r: Option<&str>)
        ensures
            match r {
                Some(s) => index < self@.len() && s@ == self@[index as int],
                None => index >= self@.len(),
            },
    {
        if index < self.entries.len() {
            Some(self.entries[index].as_str())
        } else {
            None
        }
    }
}

} // verus!
