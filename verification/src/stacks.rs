//! The RAM region that holds every task's private stack, modelled word by
//! word. Saved stack pointers are plain addresses into this region; reads and
//! writes go through the word index of the address.

use vstd::prelude::*;

verus! {

use vstd::arithmetic::div_mod::{lemma_div_is_ordered, lemma_hoist_over_denominator};

use crate::consts::{STACKS_REGION_HIGH, STACKS_REGION_LOW, STACKS_REGION_WORDS};

/// `addr` falls inside the task-stack memory.
pub open spec fn addr_in_region(addr: int) -> bool {
    STACKS_REGION_LOW as int <= addr < STACKS_REGION_HIGH as int
}

/// Index of the word that holds the value stored at `addr`.
pub open spec fn word_index(addr: int) -> int {
    (addr - STACKS_REGION_LOW as int) / 4
}

/// The word stored at `addr`.
pub open spec fn word_at(mem: Seq<u32>, addr: int) -> u32 {
    mem[word_index(addr)]
}

/// The word index of an address inside the region indexes the memory.
pub proof fn lemma_word_index_in_range(addr: int)
    requires
        addr_in_region(addr),
    ensures
        0 <= word_index(addr) < STACKS_REGION_WORDS as int,
{
    lemma_div_is_ordered(0, addr - STACKS_REGION_LOW as int, 4);
    lemma_div_is_ordered(addr - STACKS_REGION_LOW as int, 5119, 4);
}

/// Moving a whole number of words along the region moves the word index by
/// exactly that much.
pub proof fn lemma_word_index_offset(addr: int, k: int)
    ensures
        word_index(addr + 4 * k) == word_index(addr) + k,
{
    lemma_hoist_over_denominator(addr - STACKS_REGION_LOW as int, k, 4nat);
}

/// Word indices respect address order.
pub proof fn lemma_word_index_ordered(a: int, b: int)
    requires
        a <= b,
    ensures
        word_index(a) <= word_index(b),
{
    lemma_div_is_ordered(a - STACKS_REGION_LOW as int, b - STACKS_REGION_LOW as int, 4);
}

/// Word indices of all sixteen slots of a context frame based at `sp`.
pub proof fn lemma_frame_word_indices(sp: int)
    ensures
        word_index(sp + 4) == word_index(sp) + 1,
        word_index(sp + 8) == word_index(sp) + 2,
        word_index(sp + 12) == word_index(sp) + 3,
        word_index(sp + 16) == word_index(sp) + 4,
        word_index(sp + 20) == word_index(sp) + 5,
        word_index(sp + 24) == word_index(sp) + 6,
        word_index(sp + 28) == word_index(sp) + 7,
        word_index(sp + 32) == word_index(sp) + 8,
        word_index(sp + 36) == word_index(sp) + 9,
        word_index(sp + 40) == word_index(sp) + 10,
        word_index(sp + 44) == word_index(sp) + 11,
        word_index(sp + 48) == word_index(sp) + 12,
        word_index(sp + 52) == word_index(sp) + 13,
        word_index(sp + 56) == word_index(sp) + 14,
        word_index(sp + 60) == word_index(sp) + 15,
        word_index(sp + 64) == word_index(sp) + 16,
{
    lemma_word_index_offset(sp, 1);
    lemma_word_index_offset(sp, 2);
    lemma_word_index_offset(sp, 3);
    lemma_word_index_offset(sp, 4);
    lemma_word_index_offset(sp, 5);
    lemma_word_index_offset(sp, 6);
    lemma_word_index_offset(sp, 7);
    lemma_word_index_offset(sp, 8);
    lemma_word_index_offset(sp, 9);
    lemma_word_index_offset(sp, 10);
    lemma_word_index_offset(sp, 11);
    lemma_word_index_offset(sp, 12);
    lemma_word_index_offset(sp, 13);
    lemma_word_index_offset(sp, 14);
    lemma_word_index_offset(sp, 15);
    lemma_word_index_offset(sp, 16);
}

/// The memory holding the task stacks.
pub struct TaskStacks {
    words: Vec<u32>,
}

impl View for TaskStacks {
    type V = Seq<u32>;

    closed spec fn view(&self) -> Seq<u32> {
        self.words@
    }
}

impl TaskStacks {
    /// The region has its fixed size.
    pub open spec fn wf(&self) -> bool {
        self@.len() == STACKS_REGION_WORDS as int
    }

    /// Fresh, zeroed stack memory.
    pub fn new() -> (r: TaskStacks)
        ensures
            r.wf(),
            forall|m: int| 0 <= m < r@.len() ==> r@[m] == 0u32,
    {
        let mut words: Vec<u32> = Vec::new();
        let mut n: usize = 0;
        while n < STACKS_REGION_WORDS
            invariant
                words@.len() == n as int,
                n <= STACKS_REGION_WORDS,
                forall|m: int| 0 <= m < n as int ==> words@[m] == 0u32,
            decreases STACKS_REGION_WORDS - n,
        {
            words.push(0);
            n += 1;
        }
        TaskStacks { words }
    }

    /// The word stored at `addr`.
    pub fn read_word(&self, addr: u32) -> (w: u32)
        requires
            self.wf(),
            addr_in_region(addr as int),
            addr as int % 4 == 0,
        ensures
            w == word_at(self@, addr as int),
    {
        proof {
            lemma_word_index_in_range(addr as int);
        }
        let idx = ((addr - STACKS_REGION_LOW) / 4) as usize;
        self.words[idx]
    }

    /// Store `value` at `addr`; every other word is untouched.
    pub fn write_word(&mut self, addr: u32, value: u32)
        requires
            old(self).wf(),
            addr_in_region(addr as int),
            addr as int % 4 == 0,
        ensures
            final(self).wf(),
            final(self)@ == old(self)@.update(word_index(addr as int), value),
    {
        proof {
            lemma_word_index_in_range(addr as int);
        }
        let idx = ((addr - STACKS_REGION_LOW) / 4) as usize;
        self.words.set(idx, value);
    }
}

} // verus!
