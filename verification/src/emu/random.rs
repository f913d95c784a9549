//! The source of random bytes for the `Cxnn` instruction.

use vstd::prelude::*;
use rand::Rng;

verus! {

/// One byte from `rand`'s thread-local generator: `rand::thread_rng()`
/// followed by `Rng::gen::<u8>()`. Trusted, not proved. Nothing is claimed
/// of the byte: callers must be correct for each of the 256 values, and two
/// calls may differ.
#[verifier::external_body]
pub(crate) fn random_byte() -> (byte: u8) {
    rand::thread_rng().gen::<u8>()
}

} // verus!
