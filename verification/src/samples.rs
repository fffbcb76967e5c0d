//! Sample acquisition: building the fixed-width sample array either from the
//! bytes of an input file or from uniform random draws.

use vstd::math::min;
use vstd::prelude::*;

verus! {

use crate::FILL_VALUE;
use crate::WIDTH;

/// Builds the sample array of the file-backed variant: the first bytes of the
/// input become the samples, in order, and every column past the input's end
/// keeps the mid-range fill value. Input past `WIDTH` bytes is ignored.
pub fn samples_from_bytes(bytes: &Vec<u8>) -> (samples: Vec<u8>)
    ensures
        samples@.len() == WIDTH,
        forall|i: int|
            0 <= i < min(bytes@.len() as int, WIDTH as int) ==> samples@[i] == bytes@[i],
        forall|i: int|
            min(bytes@.len() as int, WIDTH as int) <= i < WIDTH ==> samples@[i] == FILL_VALUE,
{
    let n: usize = if bytes.len() < WIDTH {
        bytes.len()
    } else {
        WIDTH
    };
    let mut samples: Vec<u8> = Vec::new();
    let mut i: usize = 0;
    while i < n
        invariant
            i <= n,
            n == min(bytes@.len() as int, WIDTH as int),
            samples@.len() == i,
            forall|j: int| 0 <= j < i ==> samples@[j] == bytes@[j],
        decreases n - i,
    {
        samples.push(bytes[i]);
        i = i + 1;
    }
    while i < WIDTH
        invariant
            n <= i <= WIDTH,
            n == min(bytes@.len() as int, WIDTH as int),
            samples@.len() == i,
            forall|j: int| 0 <= j < n ==> samples@[j] == bytes@[j],
            forall|j: int| n <= j < i ==> samples@[j] == FILL_VALUE,
        decreases WIDTH - i,
    {
        samples.push(FILL_VALUE);
        i = i + 1;
    }
    samples
}

/// Relies on `rand::thread_rng` and `rand::Rng::gen_range`: a draw from the
/// uniform distribution over the inclusive range `lo..=hi` lies in that range.
/// `gen_range` panics only on an empty range, which the precondition rules out.
#[verifier::external_body]
fn draw_uniform(lo: i16, hi: i16) -> (v: i16)
    requires
        lo <= hi,
    ensures
        lo <= v <= hi,
{
    rand::Rng::gen_range(&mut rand::thread_rng(), lo..=hi)
}

/// Builds the sample array of the random variant: `WIDTH` independent draws
/// from the uniform distribution over the inclusive range `[lo, hi]`. The
/// draws use process-wide randomness, so nothing relates one call's result to
/// another's; every sample is, however, within the requested bound.
pub fn random_samples(lo: i16, hi: i16) -> (samples: Vec<i16>)
    requires
        lo <= hi,
    ensures
        samples@.len() == WIDTH,
        forall|i: int| 0 <= i < WIDTH ==> lo <= #[trigger] samples@[i] <= hi,
{
    let mut samples: Vec<i16> = Vec::new();
    let mut i: usize = 0;
    while i < WIDTH
        invariant
            lo <= hi,
            i <= WIDTH,
            samples@.len() == i,
            forall|j: int| 0 <= j < i ==> lo <= #[trigger] samples@[j] <= hi,
        decreases WIDTH - i,
    {
        samples.push(draw_uniform(lo, hi));
        i = i + 1;
    }
    samples
}

} // verus!
