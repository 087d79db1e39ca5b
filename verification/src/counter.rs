//! The shared byte counter: a single non-negative count of bytes read since
//! the process started. Only the stream reader adds to it; every other
//! component only reads it, so the value it exposes is monotonically
//! non-decreasing over the life of the process.

use vstd::prelude::*;

verus! {

/// Count of bytes read so far. The stream reader owns the only mutable
/// access; the reporter and the interrupt handler read it through `current`,
/// which never changes it.
pub struct SharedCounter {
    count: usize,
}

/// Sum of a sequence of read sizes.
pub open spec fn sum_of_reads(reads: Seq<usize>) -> int
    decreases reads.len(),
{
    if reads.len() == 0 {
        0
    } else {
        reads[0] + sum_of_reads(reads.drop_first())
    }
}

/// The counter value after a sequence of reads of the given sizes has been
/// recorded, starting from `init`: each read adds its size.
pub open spec fn count_after_reads(init: int, reads: Seq<usize>) -> int
    decreases reads.len(),
{
    if reads.len() == 0 {
        init
    } else {
        count_after_reads(init + reads[0], reads.drop_first())
    }
}

impl SharedCounter {
    /// The current count, as a mathematical integer.
    pub closed spec fn count(&self) -> int {
        self.count as int
    }

    /// A fresh counter starts at zero.
    pub fn new() -> (c: SharedCounter)
        ensures
            c.count() == 0,
    {
        SharedCounter { count: 0 }
    }

    /// Record one successful read of `n` bytes: the count grows by exactly
    /// `n`, so it never decreases.
    pub fn record_read(&mut self, n: usize)
        requires
            old(self).count() + n <= usize::MAX,
        ensures
            final(self).count() == old(self).count() + n,
    {
        self.count = self.count + n;
    }

    /// Read the current count without changing it.
    pub fn current(&self) -> (n: usize)
        ensures
            n == self.count(),
    {
        self.count
    }
}

/// Recording reads adds their sum: starting from `init`, the counter ends at
/// `init` plus the sum of the read sizes.
proof fn lemma_count_after_reads_adds_sum(init: int, reads: Seq<usize>)
    ensures
        count_after_reads(init, reads) == init + sum_of_reads(reads),
    decreases reads.len(),
{
    if reads.len() == 0 {
    } else {
        lemma_count_after_reads_adds_sum(init + reads[0], reads.drop_first());
    }
}

/// For every sequence of reads of sizes `reads` summing to a total, the final
/// counter value equals that total: a counter that starts at zero and records
/// each read in turn ends exactly at the sum, no matter how many times it was
/// read in between, since reading never changes it.
pub proof fn lemma_counter_totals_reads(reads: Seq<usize>)
    ensures
        count_after_reads(0, reads) == sum_of_reads(reads),
{
    lemma_count_after_reads_adds_sum(0, reads);
}

} // verus!
