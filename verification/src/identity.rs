//! Stream identities: the number that tags every page of one logical stream.

use rand::Rng;
use vstd::prelude::*;

verus! {

/// Draws a stream identity from `rand::thread_rng()` with `Rng::next_u32`.
///
/// Nothing is claimed of the number: two draws may or may not differ. The
/// generator is seeded by the operating system and gives up with a panic
/// where no entropy can be had.
#[verifier::external_body]
pub(crate) fn random_serial() -> (serial: u32) {
    rand::thread_rng().next_u32()
}

} // verus!
