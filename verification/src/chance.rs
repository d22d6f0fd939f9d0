//! The one source of chance in the game.

use vstd::prelude::*;

verus! {

/// Draws a number with `rand::random::<u16>()`, from the generator of the
/// calling thread. Nothing is claimed of the number: every `u16` may come
/// back, and two draws need not agree.
#[verifier::external_body]
pub(crate) fn random_u16() -> (r: u16) {
    rand::random::<u16>()
}

} // verus!
