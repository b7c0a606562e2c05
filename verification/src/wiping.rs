//! Overwriting secrets in memory, done by the `zeroize` crate.

use vstd::prelude::*;
use zeroize::Zeroize;

verus! {

/// Calls `Zeroize::zeroize` of `zeroize` on a byte vector.
///
/// Believed: the vector is empty afterwards, and the call does not panic.
/// The crate overwrites the bytes and the spare capacity with zeros before
/// it clears the vector; the overwriting itself is not something a contract
/// can speak of.
#[verifier::external_body]
pub(crate) fn wipe_bytes(buffer: &mut Vec<u8>)
    ensures
        final(buffer)@ == Seq::<u8>::empty(),
    opens_invariants none
    no_unwind
{
    buffer.zeroize();
}

/// Calls `Zeroize::zeroize` of `zeroize` on a string.
///
/// Believed: the string is empty afterwards, its bytes overwritten as those
/// of a vector are, and the call does not panic.
#[verifier::external_body]
pub(crate) fn wipe_text(text: &mut String)
    ensures
        final(text)@ == Seq::<char>::empty(),
    opens_invariants none
    no_unwind
{
    text.zeroize();
}

} // verus!
