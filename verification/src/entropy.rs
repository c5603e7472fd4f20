//! The source of the random bytes that programs ask for.

use vstd::prelude::*;

verus! {

/// A byte from `rand::random`, which draws it from the calling thread's
/// generator. Nothing is claimed of the byte: any value may come, and
/// another one at the next call.
#[verifier::external_body]
pub(crate) fn random_byte() -> (byte: u8) {
    rand::random::<u8>()
}

} // verus!
