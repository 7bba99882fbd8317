//! Model of a task's stack memory.
//!
//! A `StackRegion` is a contiguous, word-aligned span of RAM owned by one
//! task, addressed in bytes exactly as the hardware addresses it. The arch
//! layer reads and writes whole machine words at word-aligned addresses; the
//! contracts of `read_word` and `write_word` pin down which word of the
//! region each byte address names.

use vstd::prelude::*;
use vstd::arithmetic::div_mod::lemma_fundamental_div_mod;
use vstd::arithmetic::div_mod::lemma_sub_mod_noop;
use vstd::pervasive::VecAdditionalExecFns;

verus! {

/// A contiguous region of RAM holding one task's stack, addressed in bytes.
/// `words[i]` is the machine word at byte address `base + 4 * i`.
pub struct StackRegion {
    /// Byte address of the lowest word of the region.
    pub base: u32,
    /// The words of the region, from low to high address.
    pub words: Vec<u32>,
}

impl StackRegion {
    /// The region is word-aligned and lies within the address space.
    pub open spec fn wf(self) -> bool {
        &&& self.base % 4 == 0
        &&& self.base + 4 * self.words@.len() <= 0xFFFF_FFFF
    }

    /// One-past-the-end byte address of the region.
    pub open spec fn end(self) -> int {
        self.base + 4 * self.words@.len()
    }

    /// `addr` names a whole word of the region.
    pub open spec fn contains_word(self, addr: int) -> bool {
        &&& addr % 4 == 0
        &&& self.base <= addr
        &&& addr + 4 <= self.end()
    }

    /// Index within `words` of the word at byte address `addr`.
    pub open spec fn word_index(self, addr: int) -> int {
        (addr - self.base) / 4
    }

    /// The word stored at byte address `addr`.
    pub open spec fn word_at(self, addr: int) -> u32 {
        self.words@[self.word_index(addr)]
    }

    /// A contained word address names exactly one in-range word slot.
    pub proof fn lemma_word_index(self, addr: int)
        requires
            self.wf(),
            self.contains_word(addr),
        ensures
            0 <= self.word_index(addr) < self.words@.len(),
            self.base + 4 * self.word_index(addr) == addr,
    {
        let d = addr - self.base;
        lemma_sub_mod_noop(addr, self.base as int, 4);
        assert(d % 4 == 0);
        lemma_fundamental_div_mod(d, 4);
    }

    /// A fresh, zeroed stack region.
    pub fn new(base: u32, len: usize) -> (r: StackRegion)
        requires
            base % 4 == 0,
            base + 4 * len <= 0xFFFF_FFFF,
        ensures
            r.wf(),
            r.base == base,
            r.words@.len() == len,
            forall|a: int| r.contains_word(a) ==> r.word_at(a) == 0,
    {
        let mut words: Vec<u32> = Vec::new();
        let mut i: usize = 0;
        while i < len
            invariant
                i <= len,
                words@.len() == i,
                forall|j: int| 0 <= j < i ==> words@[j] == 0,
            decreases len - i,
        {
            words.push(0);
            i = i + 1;
        }
        let r = StackRegion { base, words };
        proof {
            assert forall|a: int| r.contains_word(a) implies r.word_at(a) == 0 by {
                r.lemma_word_index(a);
            }
        }
        r
    }

    /// Read the machine word at byte address `addr`.
    pub fn read_word(&self, addr: u32) -> (r: u32)
        requires
            self.wf(),
            self.contains_word(addr as int),
        ensures
            r == self.word_at(addr as int),
    {
        proof {
            self.lemma_word_index(addr as int);
        }
        let off: u32 = addr - self.base;
        let idx: usize = (off / 4) as usize;
        self.words[idx]
    }

    /// Write the machine word at byte address `addr`; every other word of
    /// the region keeps its value.
    pub fn write_word(&mut self, addr: u32, v: u32)
        requires
            old(self).wf(),
            old(self).contains_word(addr as int),
        ensures
            final(self).wf(),
            final(self).base == old(self).base,
            final(self).words@.len() == old(self).words@.len(),
            final(self).word_at(addr as int) == v,
            forall|a: int|
                old(self).contains_word(a) && a != addr ==> final(self).word_at(a) == old(
                    self,
                ).word_at(a),
    {
        proof {
            old(self).lemma_word_index(addr as int);
        }
        let off: u32 = addr - self.base;
        let idx: usize = (off / 4) as usize;
        self.words.set(idx, v);
        proof {
            assert forall|a: int| old(self).contains_word(a) && a != addr implies self.word_at(a)
                == old(self).word_at(a) by {
                old(self).lemma_word_index(a);
            }
        }
    }
}

} // verus!
