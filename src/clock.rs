//! The sample clock of a signal source.
//!
//! Time is counted in samples since the source was created: sample `i` is
//! taken at `i / sample_rate` seconds. Each chunk of samples starts where the
//! previous one ended, so the synthesized waveform has no phase jump at
//! chunk boundaries.
use vstd::prelude::*;

verus! {

/// Indices `start, start + 1, ..., start + n - 1` of the samples of one chunk.
pub open spec fn chunk_indices(start: int, n: nat) -> Seq<int> {
    Seq::new(n, |j: int| start + j)
}

/// Elapsed time of a signal source, counted in samples.
#[derive(Clone, Copy, Debug, PartialEq, Eq, Structural)]
pub struct SampleClock {
    pub elapsed: u64,
}

impl SampleClock {
    /// A clock at time zero.
    pub fn new() -> (r: SampleClock)
        ensures
            r.elapsed == 0,
    {
        SampleClock { elapsed: 0 }
    }

    /// Whether `n` more samples can be counted without overflow.
    pub fn can_advance(&self, n: u64) -> (r: bool)
        ensures
            r <==> self.elapsed + n <= u64::MAX,
    {
        n <= u64::MAX - self.elapsed
    }

    /// Takes the next `n` samples: returns their indices in order and moves
    /// the clock past them.
    pub fn next_chunk(&mut self, n: u64) -> (r: Vec<u64>)
        requires
            old(self).elapsed + n <= u64::MAX,
        ensures
            final(self).elapsed == old(self).elapsed + n,
            r@.map_values(|i: u64| i as int) == chunk_indices(old(self).elapsed as int, n as nat),
    {
        let start = self.elapsed;
        let mut out: Vec<u64> = Vec::new();
        let mut j: u64 = 0;
        while j < n
            invariant
                j <= n,
                start + n <= u64::MAX,
                out@.len() == j,
                forall|i: int| 0 <= i < j ==> out@[i] as int == start + i,
            decreases n - j,
        {
            out.push(start + j);
            j = j + 1;
        }
        self.elapsed = start + n;
        assert(out@.map_values(|i: u64| i as int) =~= chunk_indices(start as int, n as nat));
        out
    }
}

/// Two consecutive chunks of `n` and `m` samples cover exactly the indices of
/// one chunk of `n + m` samples taken from the same starting time.
pub proof fn lemma_chunks_concatenate(start: int, n: nat, m: nat)
    ensures
        chunk_indices(start, n) + chunk_indices(start + n, m) =~= chunk_indices(start, n + m),
{
}

} // verus!
