//! Random bytes from the operating system, by way of the `rand` crate.

use rand::rngs::OsRng;
use rand::RngCore;
use vstd::prelude::*;

verus! {

/// Calls `RngCore::try_fill_bytes` of `rand` on `OsRng` and tells whether
/// the generator delivered.
///
/// Believed: the buffer keeps its length. Nothing is said of the bytes: they
/// differ from call to call.
#[verifier::external_body]
pub(crate) fn fill_random(buffer: &mut Vec<u8>) -> (filled: bool)
    ensures
        final(buffer)@.len() == old(buffer)@.len(),
{
    OsRng.try_fill_bytes(buffer.as_mut_slice()).is_ok()
}

/// A buffer of `len` bytes from the operating system's generator, or `None`
/// where the generator does not deliver.
pub fn random_bytes(len: usize) -> (r: Option<Vec<u8>>)
    ensures
        r matches Some(bytes) ==> bytes@.len() == len,
{
    let mut bytes: Vec<u8> = Vec::new();
    let mut i: usize = 0;
    while i < len
        invariant
            i <= len,
            bytes@.len() == i,
        decreases len - i,
    {
        bytes.push(0u8);
        i = i + 1;
    }
    if fill_random(&mut bytes) {
        Some(bytes)
    } else {
        None
    }
}

} // verus!
