//! Random values, and what is made of them.

use vstd::prelude::*;
use crate::identifiers::{big_endian, hex_text, value_text, SessionId};

verus! {

/// Calls `rand::random::<[u8; 32]>`. Nothing is promised of the bytes.
#[verifier::external_body]
pub(crate) fn random_bytes() -> [u8; 32] {
    rand::random::<[u8; 32]>()
}

pub open spec fn all_zero(bytes: Seq<u8>) -> bool {
    forall|i: int| 0 <= i < bytes.len() ==> #[trigger] bytes[i] == 0
}

/// Zero is not used as a value: one takes its place.
pub fn nonzero_u64(value: u64) -> (kept: u64)
    ensures
        kept == if value == 0 {
            1
        } else {
            value
        },
{
    if value == 0 {
        1
    } else {
        value
    }
}

/// Sixteen zero bytes are not used as a value: the first byte becomes one.
pub fn nonzero_16(value: [u8; 16]) -> (kept: [u8; 16])
    ensures
        kept@ == if all_zero(value@) {
            value@.update(0, 1)
        } else {
            value@
        },
{
    let mut kept: [u8; 16] = value;
    let mut at: usize = 0;
    while at < 16
        invariant
            at <= 16,
            kept == value,
            forall|i: int| 0 <= i < at ==> #[trigger] value@[i] == 0,
        decreases 16 - at,
    {
        if kept[at] != 0 {
            assert(value@[at as int] != 0);
            return kept;
        }
        at = at + 1;
    }
    assert(all_zero(value@));
    kept[0] = 1;
    kept
}

/// Sixteen of thirty-two bytes.
fn half(bytes: [u8; 32]) -> (taken: [u8; 16])
    ensures
        taken@ == bytes@.take(16),
{
    let mut taken: [u8; 16] = [0u8; 16];
    let mut at: usize = 0;
    while at < 16
        invariant
            at <= 16,
            forall|i: int| 0 <= i < at ==> #[trigger] taken@[i] == bytes@[i],
        decreases 16 - at,
    {
        taken[at] = bytes[at];
        at = at + 1;
    }
    assert(taken@ =~= bytes@.take(16));
    taken
}

/// A random number that is not zero.
pub fn nonzero_random_u64() -> (value: u64)
    ensures
        value != 0,
{
    let word: u128 = SessionId::new(half(random_bytes())).value;
    nonzero_u64((word % 0x1_0000_0000_0000_0000) as u64)
}

/// Sixteen random bytes, not all of them zero.
pub fn nonzero_random_16() -> (value: [u8; 16])
    ensures
        !all_zero(value@),
{
    let kept: [u8; 16] = nonzero_16(half(random_bytes()));
    assert(!all_zero(kept@)) by {
        if all_zero(kept@) {
            assert(kept@[0] == 0);
        }
    }
    kept
}

/// The text of an identifier of sixteen bytes.
pub fn id_text(bytes: [u8; 16]) -> (text: String)
    ensures
        text@ == hex_text(big_endian(bytes@) as u128),
        big_endian(bytes@) <= u128::MAX,
{
    value_text(SessionId::new(bytes).value)
}

/// A random identifier: thirty-two lower-case hexadecimal digits.
pub fn random_id() -> (text: String)
    ensures
        exists|value: u128| text@ == #[trigger] hex_text(value),
{
    id_text(half(random_bytes()))
}

} // verus!
