//! Content that must not stay in memory.

use vstd::prelude::*;

verus! {

/// Empties a buffer whose content must not stay in memory, by
/// `zeroize::Zeroize::zeroize` for `Vec<u8>`: the bytes and the spare capacity
/// are overwritten, and the vector is cleared.
#[verifier::external_body]
fn wipe(bytes: &mut Vec<u8>)
    ensures
        final(bytes)@.len() == 0,
{
    zeroize::Zeroize::zeroize(bytes);
}

/// Gives up content that must not stay in memory. The emptied buffer is handed
/// back.
pub fn discard(bytes: Vec<u8>) -> (emptied: Vec<u8>)
    ensures
        emptied@.len() == 0,
{
    let mut emptied = bytes;
    wipe(&mut emptied);
    emptied
}

} // verus!
