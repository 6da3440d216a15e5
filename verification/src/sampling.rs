//! The uniform random source that drives measurement.
//!
//! Measurement needs one uniform sample per collapse. The sample is a plain
//! 32-bit integer, read as the dyadic fraction `sample / 2^32` in `[0, 1)`.
//! Every operation that consumes a sample also exists in a form that takes
//! the sample as an argument, so a scripted source can drive deterministic
//! replay; this module only supplies the default source.

use vstd::prelude::*;

verus! {

/// Relies on `rand::random::<u32>`: a sample drawn uniformly over all
/// 32-bit values from the thread-local generator. Nothing is assumed about
/// the value; every caller is verified for every possible sample.
#[verifier::external_body]
pub(crate) fn sample_u32() -> u32 {
    rand::random::<u32>()
}

} // verus!
