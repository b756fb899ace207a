//! The filter capability: one sample in, one filtered sample out, under the
//! current sample rate, cutoff and resonance. The concrete nonlinear ladder
//! lives in [`crate::huovilainen`]; the trait keeps the seam open for other
//! topologies.

use vstd::prelude::*;

verus! {

pub trait Filter {
    /// The implementation's internal invariant, established by its
    /// constructor and preserved by every call.
    spec fn inv(&self) -> bool;

    /// Process one sample. The caller keeps the cutoff within the working
    /// range and the resonance below the self-oscillation threshold; the
    /// implementation promises only to keep its own state sound.
    fn process(&mut self, in_sample: i64, sample_rate: i64, cutoff: i64, resonance: i64) -> (out:
        i64)
        requires
            old(self).inv(),
            -0x200000000000 <= in_sample <= 0x200000000000,
            -0x40000000000000 <= cutoff <= 0x40000000000000,
            0 <= resonance <= 4294967296,
            4294967296 <= sample_rate <= 0x40000000000000,
        ensures
            final(self).inv(),
    ;
}

} // verus!
