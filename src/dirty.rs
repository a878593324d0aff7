//! The set of streamed segments whose files changed since they were last read:
//! one bit per segment, bit `k` for the `k`-th streamed segment.
use vstd::prelude::*;

verus! {

/// The number of streamed segments that a dirty set can track; bit 31 of
/// the word stays unused.
pub const MAX_STREAMS: usize = 31;

/// Whether bit `k` of `bits` is set.
pub open spec fn has_bit(bits: u32, k: u32) -> bool {
    (bits >> k) & 1u32 == 1u32
}

/// The bits of `dirty` that remain after a build that read the streamed
/// segments below `n` marked in `snapshot`.
pub open spec fn consumed(dirty: u32, snapshot: u32, n: u32) -> u32 {
    dirty & !(snapshot & (((1u32 << n) as u32 - 1u32) as u32))
}

pub proof fn lemma_mark_bit(bits: u32, k: u32, j: u32)
    requires
        k < 32,
        j < 32,
    ensures
        has_bit(bits | (1u32 << k), j) == (has_bit(bits, j) || j == k),
{
    assert(has_bit(bits | (1u32 << k), j) == (has_bit(bits, j) || j == k)) by (bit_vector)
        requires
            k < 32,
            j < 32,
    ;
}

pub proof fn lemma_consumed_bit(dirty: u32, snapshot: u32, n: u32, j: u32)
    requires
        n <= 31,
        j < 32,
    ensures
        has_bit(consumed(dirty, snapshot, n), j) == (has_bit(dirty, j) && !(has_bit(snapshot, j)
            && j < n)),
{
    assert(has_bit(dirty & !(snapshot & (((1u32 << n) as u32 - 1u32) as u32)), j) == (has_bit(
        dirty,
        j,
    ) && !(has_bit(snapshot, j) && j < n))) by (bit_vector)
        requires
            n <= 31,
            j < 32,
    ;
}

proof fn lemma_below_top_bit(bits: u32, k: u32)
    requires
        k < 31,
        bits < 0x8000_0000u32,
    ensures
        bits | (1u32 << k) < 0x8000_0000u32,
{
    assert(bits | (1u32 << k) < 0x8000_0000u32) by (bit_vector)
        requires
            k < 31,
            bits < 0x8000_0000u32,
    ;
}

proof fn lemma_consumed_below_top_bit(dirty: u32, snapshot: u32, n: u32)
    requires
        dirty < 0x8000_0000u32,
    ensures
        consumed(dirty, snapshot, n) < 0x8000_0000u32,
{
    assert(dirty & !(snapshot & (((1u32 << n) as u32 - 1u32) as u32)) < 0x8000_0000u32)
        by (bit_vector)
        requires
            dirty < 0x8000_0000u32,
    ;
}

/// The change tracker: which streamed segments must be read again.
pub struct DirtySet {
    bits: u32,
}

impl View for DirtySet {
    type V = u32;

    closed spec fn view(&self) -> u32 {
        self.bits
    }
}

impl DirtySet {
    /// Bit 31 is never set.
    pub open spec fn wf(&self) -> bool {
        self@ < 0x8000_0000u32
    }

    /// A set with no segment marked.
    pub fn new() -> (r: Self)
        ensures
            r@ == 0,
            r.wf(),
    {
        DirtySet { bits: 0 }
    }

    /// Marks streamed segment `k` as changed. An index beyond what the set can
    /// track is ignored.
    pub fn mark(&mut self, k: usize)
        requires
            old(self).wf(),
        ensures
            final(self).wf(),
            k < MAX_STREAMS ==> final(self)@ == old(self)@ | (1u32 << k as u32),
            k >= MAX_STREAMS ==> final(self)@ == old(self)@,
            forall|j: u32|
                j < 32 ==> has_bit(final(self)@, j) == (has_bit(old(self)@, j) || (j == k
                    && k < MAX_STREAMS)),
    {
        if k < MAX_STREAMS {
            let kk = k as u32;
            proof {
                lemma_below_top_bit(self.bits, kk);
                assert forall|j: u32| j < 32 implies has_bit(self.bits | (1u32 << kk), j) == (
                has_bit(self.bits, j) || j == kk) by {
                    lemma_mark_bit(self.bits, kk, j);
                }
            }
            self.bits = self.bits | (1u32 << kk);
        }
    }

    /// Whether any segment is marked.
    pub fn is_dirty(&self) -> (r: bool)
        ensures
            r == (self@ != 0),
    {
        self.bits > 0
    }

    /// The marked segments, as a word with bit `k` for segment `k`.
    pub fn snapshot(&self) -> (r: u32)
        ensures
            r == self@,
    {
        self.bits
    }

    /// Clears the bits below `n` that were set in `snapshot`; every other bit
    /// stays as it is.
    pub fn consume(&mut self, snapshot: u32, n: usize)
        requires
            old(self).wf(),
            n <= MAX_STREAMS,
        ensures
            final(self).wf(),
            final(self)@ == consumed(old(self)@, snapshot, n as u32),
    {
        let nn = n as u32;
        proof {
            lemma_consumed_below_top_bit(self.bits, snapshot, nn);
        }
        assert(1u32 << nn >= 1u32) by (bit_vector)
            requires
                nn <= 31,
        ;
        let low: u32 = (1u32 << nn) - 1;
        self.bits = self.bits & !(snapshot & low);
    }
}

} // verus!
