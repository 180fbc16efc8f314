//! A set of small indices packed into one machine word.

use vstd::prelude::*;

verus! {

/// How many indices a [`BitSet`] can hold.
pub const BITS: usize = 16;

/// A set of indices below [`BITS`].
pub struct BitSet(u16);

/// Whether bit `idx` of `word` is set.
pub closed spec fn bit(word: u16, idx: int) -> bool {
    (word & (1u16 << (idx as u16))) != 0
}

impl View for BitSet {
    type V = Set<int>;

    closed spec fn view(&self) -> Set<int> {
        Set::new(|i: int| 0 <= i < BITS && bit(self.0, i))
    }
}

impl BitSet {
    /// The empty set.
    pub fn new() -> (res: Self)
        ensures
            res@ == Set::<int>::empty(),
    {
        let res = BitSet(0);
        proof {
            assert forall|i: int| !res@.contains(i) by {
                if 0 <= i < BITS {
                    let k = i as u16;
                    assert((0u16 & (1u16 << k)) == 0) by (bit_vector);
                }
            }
        }
        res
    }

    /// Puts `idx` into the set.
    pub fn set(&mut self, idx: usize)
        requires
            idx < BITS,
        ensures
            final(self)@ == old(self)@.insert(idx as int),
    {
        let k: u16 = idx as u16;
        let word = self.0;
        self.0 = word | (1u16 << k);
        proof {
            assert forall|i: int| 0 <= i < BITS implies #[trigger] bit(self.0, i) == (i == idx || bit(word, i)) by {
                let j = i as u16;
                assert(((word | (1u16 << k)) & (1u16 << j)) != 0 <==> (j == k || (word & (1u16 << j)) != 0))
                    by (bit_vector)
                    requires
                        k < 16,
                        j < 16,
                ;
            }
            assert(self@ =~= old(self)@.insert(idx as int));
        }
    }

    /// Takes `idx` out of the set.
    pub fn unset(&mut self, idx: usize)
        requires
            idx < BITS,
        ensures
            final(self)@ == old(self)@.remove(idx as int),
    {
        let k: u16 = idx as u16;
        let word = self.0;
        self.0 = word & !(1u16 << k);
        proof {
            assert forall|i: int| 0 <= i < BITS implies #[trigger] bit(self.0, i) == (i != idx && bit(word, i)) by {
                let j = i as u16;
                assert(((word & !(1u16 << k)) & (1u16 << j)) != 0 <==> (j != k && (word & (1u16 << j)) != 0))
                    by (bit_vector)
                    requires
                        k < 16,
                        j < 16,
                ;
            }
            assert(self@ =~= old(self)@.remove(idx as int));
        }
    }

    /// Whether `idx` is in the set.
    pub fn get(&self, idx: usize) -> (res: bool)
        requires
            idx < BITS,
        ensures
            res == self@.contains(idx as int),
    {
        (self.0 & (1u16 << (idx as u16))) != 0
    }
}

} // verus!
