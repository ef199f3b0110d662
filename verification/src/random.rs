//! The one source of nondeterminism of the machine: the byte behind `CXNN`.

use vstd::prelude::*;

verus! {

/// Draws one byte from the thread-local generator of `rand`
/// (`rand::Rng::gen::<u8>` on `rand::thread_rng()`).
///
/// The byte depends on the generator's state, so the contract states nothing
/// of it beyond its type; every caller is verified for every possible byte.
#[verifier::external_body]
pub(crate) fn random_byte() -> (byte: u8) {
    rand::Rng::gen::<u8>(&mut rand::thread_rng())
}

} // verus!
