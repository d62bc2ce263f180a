//! Identifiers of devices, sessions and transfers, and their text forms.

use vstd::prelude::*;

verus! {

/// Big-endian value of a byte string.
pub open spec fn big_endian(bytes: Seq<u8>) -> nat
    decreases bytes.len(),
{
    if bytes.len() == 0 {
        0
    } else {
        big_endian(bytes.drop_last()) * 256 + bytes.last() as nat
    }
}

/// Two to the power of eight times `n`.
pub open spec fn byte_weight(n: nat) -> nat
    decreases n,
{
    if n == 0 {
        1
    } else {
        byte_weight((n - 1) as nat) * 256
    }
}

/// Public-key based identity of a device: thirty-two bytes kept as two
/// big-endian words.
#[derive(Clone, Copy, Debug, PartialEq, Eq, Hash, Structural)]
pub struct DeviceId {
    pub high: u128,
    pub low: u128,
}

/// Identity of one authenticated session.
#[derive(Clone, Copy, Debug, PartialEq, Eq, Hash, Structural)]
pub struct SessionId {
    pub value: u128,
}

/// Identity of a file transfer on the wire.
#[derive(Clone, Copy, Debug, PartialEq, Eq, Hash, Structural)]
pub struct TransferId {
    pub value: u128,
}

/// A byte string is worth less than the weight of its length.
pub proof fn lemma_big_endian_bound(bytes: Seq<u8>)
    ensures
        big_endian(bytes) < byte_weight(bytes.len()),
    decreases bytes.len(),
{
    if bytes.len() > 0 {
        lemma_big_endian_bound(bytes.drop_last());
    }
}

proof fn lemma_sixteen_bytes_fit(n: nat)
    requires
        n <= 16,
    ensures
        byte_weight(n) <= 0x1_0000_0000_0000_0000_0000_0000_0000_0000,
{
    reveal_with_fuel(byte_weight, 17);
}

/// Reads sixteen bytes, starting at `from`, as one big-endian word.
fn read_word(bytes: &[u8], from: usize) -> (word: u128)
    requires
        from + 16 <= bytes@.len(),
    ensures
        word == big_endian(bytes@.subrange(from as int, from + 16)),
{
    let total: usize = bytes.len();
    let mut word: u128 = 0;
    let mut index: usize = 0;
    while index < 16
        invariant
            index <= 16,
            total == bytes@.len(),
            from + 16 <= total,
            word == big_endian(bytes@.subrange(from as int, from + index)),
        decreases 16 - index,
    {
        proof {
            let longer = bytes@.subrange(from as int, from + index + 1);
            assert(longer.drop_last() =~= bytes@.subrange(from as int, from + index));
            lemma_big_endian_bound(longer);
            lemma_sixteen_bytes_fit(longer.len());
        }
        word = word * 256 + bytes[from + index] as u128;
        index = index + 1;
    }
    word
}

impl DeviceId {
    /// The device whose identity is `bytes`.
    pub fn new(bytes: [u8; 32]) -> (device: DeviceId)
        ensures
            device.high == big_endian(bytes@.subrange(0, 16)),
            device.low == big_endian(bytes@.subrange(16, 32)),
    {
        let slice: &[u8] = bytes.as_slice();
        DeviceId { high: read_word(slice, 0), low: read_word(slice, 16) }
    }
}

impl SessionId {
    /// The session whose identity is `bytes`.
    pub fn new(bytes: [u8; 16]) -> (session: SessionId)
        ensures
            session.value == big_endian(bytes@),
    {
        let slice: &[u8] = bytes.as_slice();
        assert(slice@.subrange(0, 16) =~= bytes@);
        SessionId { value: read_word(slice, 0) }
    }
}

impl TransferId {
    /// The transfer whose wire identity is `bytes`.
    pub fn from_bytes(bytes: [u8; 16]) -> (transfer: TransferId)
        ensures
            transfer.value == big_endian(bytes@),
    {
        let slice: &[u8] = bytes.as_slice();
        assert(slice@.subrange(0, 16) =~= bytes@);
        TransferId { value: read_word(slice, 0) }
    }

    /// The wire identity of the transfer.
    pub fn as_bytes(&self) -> (bytes: [u8; 16])
        ensures
            big_endian(bytes@) == self.value,
    {
        let mut bytes: [u8; 16] = [0;16];
        let mut rest: u128 = self.value;
        let mut written: usize = 0;
        proof {
            reveal_with_fuel(byte_weight, 17);
            assert(byte_weight(16) == 0x1_0000_0000_0000_0000_0000_0000_0000_0000);
            assert(big_endian(bytes@.subrange(16, 16)) == 0);
            assert(byte_weight(0) == 1);
        }
        while written < 16
            invariant
                written <= 16,
                rest < byte_weight((16 - written) as nat),
                self.value == rest * byte_weight(written as nat) + big_endian(
                    bytes@.subrange(16 - written, 16),
                ),
            decreases 16 - written,
        {
            let byte: u8 = (rest % 256) as u8;
            let ghost before = bytes@;
            let ghost whole = rest;
            bytes[15 - written] = byte;
            rest = rest / 256;
            proof {
                let weight = byte_weight(written as nat);
                let tail = before.subrange(16 - written, 16);
                assert(bytes@.subrange(15 - written, 16) =~= seq![byte] + tail);
                lemma_big_endian_first(byte, tail);
                assert(byte_weight((written + 1) as nat) == weight * 256);
                assert(byte_weight((16 - written) as nat) == byte_weight((15 - written) as nat)
                    * 256);
                assert(whole == rest * 256 + byte);
                assert(whole * weight == rest * (weight * 256) + byte * weight) by (nonlinear_arith)
                    requires
                        whole == rest * 256 + byte,
                ;
            }
            written = written + 1;
        }
        assert(bytes@.subrange(0, 16) =~= bytes@);
        bytes
    }
}

/// The first byte counts for the weight of those that follow it.
proof fn lemma_big_endian_first(first: u8, rest: Seq<u8>)
    ensures
        big_endian(seq![first] + rest) == first * byte_weight(rest.len()) + big_endian(rest),
    decreases rest.len(),
{
    let all = seq![first] + rest;
    if rest.len() == 0 {
        assert(all.drop_last() =~= Seq::<u8>::empty());
        assert(byte_weight(0) == 1 && big_endian(rest) == 0 && big_endian(all.drop_last()) == 0);
        assert(big_endian(all) == first);
    } else {
        assert(all.drop_last() =~= seq![first] + rest.drop_last());
        lemma_big_endian_first(first, rest.drop_last());
        let weight = byte_weight((rest.len() - 1) as nat);
        assert((first * weight) * 256 == first * (weight * 256)) by (nonlinear_arith);
        assert(byte_weight(rest.len()) == weight * 256);
        assert(all.last() == rest.last());
    }
}

proof fn lemma_big_endian_is_injective(a: Seq<u8>, b: Seq<u8>)
    requires
        a.len() == b.len(),
        big_endian(a) == big_endian(b),
    ensures
        a == b,
    decreases a.len(),
{
    if a.len() > 0 {
        lemma_big_endian_is_injective(a.drop_last(), b.drop_last());
        assert(a =~= a.drop_last().push(a.last()));
        assert(b =~= b.drop_last().push(b.last()));
    }
    assert(a =~= b);
}

/// A transfer that was read from the wire goes back to the wire as it came.
pub proof fn law_wire_identities_are_kept(read: Seq<u8>, transfer: TransferId, written: Seq<u8>)
    requires
        read.len() == 16,
        written.len() == 16,
        transfer.value == big_endian(read),
        big_endian(written) == transfer.value,
    ensures
        written == read,
{
    lemma_big_endian_is_injective(written, read);
}

/// Sixteen to the power of `n`.
pub open spec fn hex_weight(n: nat) -> nat
    decreases n,
{
    if n == 0 {
        1
    } else {
        hex_weight((n - 1) as nat) * 16
    }
}

/// Lower-case character of one hexadecimal digit.
pub open spec fn hex_char(digit: int) -> char {
    if digit < 10 {
        (48 + digit) as char
    } else {
        (87 + digit) as char
    }
}

/// Digit number `index` of the thirty-two digit form of `value`, the most
/// significant digit being number zero.
pub open spec fn hex_digit_of(value: u128, index: int) -> int {
    (value as nat / hex_weight((31 - index) as nat)) as int % 16
}

/// How many hyphens of the canonical form stand before position `index`.
pub open spec fn hyphens_before(index: int) -> int {
    if index <= 8 {
        0
    } else if index <= 13 {
        1
    } else if index <= 18 {
        2
    } else if index <= 23 {
        3
    } else {
        4
    }
}

/// Canonical text of an identifier: lower-case digits in groups of eight, four,
/// four, four and twelve, with hyphens between them.
pub open spec fn hyphenated_text(value: u128) -> Seq<char> {
    Seq::new(
        36,
        |i: int|
            if i == 8 || i == 13 || i == 18 || i == 23 {
                '-'
            } else {
                hex_char(hex_digit_of(value, i - hyphens_before(i)))
            },
    )
}

/// Where digit number `index` stands in the canonical text.
pub open spec fn hyphenated_position(index: int) -> int {
    if index < 8 {
        index
    } else if index < 12 {
        index + 1
    } else if index < 16 {
        index + 2
    } else if index < 20 {
        index + 3
    } else {
        index + 4
    }
}

proof fn lemma_hex_char_injective(a: int, b: int)
    requires
        0 <= a < 16,
        0 <= b < 16,
        hex_char(a) == hex_char(b),
    ensures
        a == b,
{
}

proof fn lemma_hex_weight_positive(n: nat)
    ensures
        hex_weight(n) >= 1,
    decreases n,
{
    if n > 0 {
        lemma_hex_weight_positive((n - 1) as nat);
    }
}

proof fn lemma_quotient_by_weight(value: nat, n: nat)
    requires
        n > 0,
    ensures
        value / hex_weight((n - 1) as nat) == (value / hex_weight(n)) * 16 + (value / hex_weight(
            (n - 1) as nat,
        )) % 16,
{
    let w = hex_weight((n - 1) as nat);
    lemma_hex_weight_positive((n - 1) as nat);
    vstd::arithmetic::div_mod::lemma_div_denominator(value as int, w as int, 16);
    vstd::arithmetic::div_mod::lemma_fundamental_div_mod((value / w) as int, 16);
}

proof fn lemma_same_digits_same_quotient(a: u128, b: u128, index: int)
    requires
        0 <= index <= 32,
        forall|k: int| 0 <= k < index ==> #[trigger] hex_digit_of(a, k) == hex_digit_of(b, k),
    ensures
        a as nat / hex_weight((32 - index) as nat) == b as nat / hex_weight((32 - index) as nat),
    decreases index,
{
    if index == 0 {
        assert(hex_weight(32) > u128::MAX) by {
            reveal_with_fuel(hex_weight, 33);
        }
        vstd::arithmetic::div_mod::lemma_basic_div(a as int, hex_weight(32) as int);
        vstd::arithmetic::div_mod::lemma_basic_div(b as int, hex_weight(32) as int);
    } else {
        lemma_same_digits_same_quotient(a, b, index - 1);
        lemma_quotient_by_weight(a as nat, (33 - index) as nat);
        lemma_quotient_by_weight(b as nat, (33 - index) as nat);
        assert(hex_digit_of(a, index - 1) == hex_digit_of(b, index - 1));
    }
}

/// Two identifiers with the same canonical text are the same identifier.
pub proof fn law_hyphenated_text_is_injective(a: u128, b: u128)
    requires
        hyphenated_text(a) == hyphenated_text(b),
    ensures
        a == b,
{
    assert forall|k: int| 0 <= k < 32 implies #[trigger] hex_digit_of(a, k) == hex_digit_of(
        b,
        k,
    ) by {
        let at = hyphenated_position(k);
        assert(at - hyphens_before(at) == k);
        assert(hyphenated_text(a)[at] == hex_char(hex_digit_of(a, k)));
        assert(hyphenated_text(b)[at] == hex_char(hex_digit_of(b, k)));
        lemma_hex_char_injective(hex_digit_of(a, k), hex_digit_of(b, k));
    }
    lemma_same_digits_same_quotient(a, b, 32);
    assert(hex_weight(0) == 1);
    vstd::arithmetic::div_mod::lemma_div_basics(a as int);
    vstd::arithmetic::div_mod::lemma_div_basics(b as int);
}

/// The thirty-two lower-case digits of `value`.
pub open spec fn hex_text(value: u128) -> Seq<char> {
    Seq::new(32, |i: int| hex_char(hex_digit_of(value, i)))
}

/// The text of a device identity: sixty-four lower-case digits.
pub open spec fn device_text(device: DeviceId) -> Seq<char> {
    hex_text(device.high) + hex_text(device.low)
}

/// Two values with the same digits are the same value.
proof fn lemma_hex_text_is_injective(a: u128, b: u128)
    requires
        hex_text(a) == hex_text(b),
    ensures
        a == b,
{
    assert forall|k: int| 0 <= k < 32 implies #[trigger] hex_digit_of(a, k) == hex_digit_of(
        b,
        k,
    ) by {
        assert(hex_text(a)[k] == hex_char(hex_digit_of(a, k)));
        assert(hex_text(b)[k] == hex_char(hex_digit_of(b, k)));
        lemma_hex_char_injective(hex_digit_of(a, k), hex_digit_of(b, k));
    }
    lemma_same_digits_same_quotient(a, b, 32);
    assert(hex_weight(0) == 1);
    vstd::arithmetic::div_mod::lemma_div_basics(a as int);
    vstd::arithmetic::div_mod::lemma_div_basics(b as int);
}

/// Two devices with the same text are the same device.
pub proof fn law_device_text_is_injective(a: DeviceId, b: DeviceId)
    requires
        device_text(a) == device_text(b),
    ensures
        a == b,
{
    assert(device_text(a).take(32) =~= hex_text(a.high));
    assert(device_text(b).take(32) =~= hex_text(b.high));
    assert(device_text(a).skip(32) =~= hex_text(a.low));
    assert(device_text(b).skip(32) =~= hex_text(b.low));
    lemma_hex_text_is_injective(a.high, b.high);
    lemma_hex_text_is_injective(a.low, b.low);
}

/// `String::push` appends one character.
pub assume_specification[ String::push ](text: &mut String, c: char)
    ensures
        final(text)@ == old(text)@.push(c),
;

fn digit_char(digit: u8) -> (c: char)
    requires
        digit < 16,
    ensures
        c == hex_char(digit as int),
{
    if digit < 10 {
        (48 + digit) as char
    } else {
        (87 + digit) as char
    }
}

/// Appends the digits of `value`.
fn push_hex(text: &mut String, value: u128)
    ensures
        final(text)@ == old(text)@ + hex_text(value),
{
    let mut weight: u128 = 0x1000_0000_0000_0000_0000_0000_0000_0000;
    proof {
        reveal_with_fuel(hex_weight, 32);
        assert(hex_text(value).take(0) =~= Seq::empty());
        assert(text@ =~= old(text)@ + hex_text(value).take(0));
    }
    let mut at: usize = 0;
    while at < 32
        invariant
            at <= 32,
            at < 32 ==> weight == hex_weight((31 - at) as nat),
            text@ == old(text)@ + hex_text(value).take(at as int),
        decreases 32 - at,
    {
        proof {
            lemma_hex_weight_positive((31 - at) as nat);
        }
        let digit: u8 = ((value / weight) % 16) as u8;
        let ghost before = text@;
        text.push(digit_char(digit));
        proof {
            assert(hex_text(value)[at as int] == hex_char(digit as int));
            assert(hex_text(value).take(at + 1) =~= hex_text(value).take(at as int).push(
                hex_char(digit as int),
            ));
            assert(text@ =~= old(text)@ + hex_text(value).take(at + 1));
        }
        weight = weight / 16;
        at = at + 1;
    }
    assert(hex_text(value).take(32) =~= hex_text(value));
}

/// The digits of a value.
pub fn value_text(value: u128) -> (text: String)
    ensures
        text@ == hex_text(value),
{
    let mut text = String::new();
    push_hex(&mut text, value);
    assert(Seq::<char>::empty() + hex_text(value) =~= hex_text(value));
    text
}

/// The text of a device identity.
pub fn device_id_text(device_id: DeviceId) -> (text: String)
    ensures
        text@ == device_text(device_id),
{
    let mut text = value_text(device_id.high);
    push_hex(&mut text, device_id.low);
    text
}

/// What `uuid::Uuid::parse_str` reads out of a text, if anything.
pub uninterp spec fn parsed_uuid(text: Seq<char>) -> Option<u128>;

/// Calls `uuid::Uuid::new_v4`. Which value comes out is random; the version
/// bits that the call sets keep every value different from zero.
#[verifier::external_body]
pub(crate) fn random_uuid() -> (value: u128)
    ensures
        value != 0,
{
    uuid::Uuid::new_v4().as_u128()
}

/// Calls `uuid::Uuid::hyphenated` and turns the result into text: the
/// canonical lower-case form with hyphens.
#[verifier::external_body]
pub(crate) fn uuid_text(value: u128) -> (text: String)
    ensures
        text@ == hyphenated_text(value),
{
    uuid::Uuid::from_u128(value).hyphenated().to_string()
}

/// Calls `uuid::Uuid::parse_str`, which takes more forms than the canonical
/// one. The canonical text of a value is read back as that value.
#[verifier::external_body]
pub(crate) fn parse_uuid(text: &str) -> (value: Option<u128>)
    ensures
        value == parsed_uuid(text@),
        forall|id: u128| text@ == #[trigger] hyphenated_text(id) ==> value == Some(id),
{
    uuid::Uuid::parse_str(text).ok().map(|parsed| parsed.as_u128())
}

/// Bytes are read in their order, the first one weighing most: each further byte
/// makes the value two hundred and fifty-six times as large and adds itself.
pub proof fn law_bytes_weigh_in_order(bytes: Seq<u8>, next: u8)
    ensures
        big_endian(Seq::<u8>::empty()) == 0,
        big_endian(bytes.push(next)) == 256 * big_endian(bytes) + next,
        byte_weight(0) == 1,
        byte_weight(bytes.len() + 1) == 256 * byte_weight(bytes.len()),
{
    assert(bytes.push(next).drop_last() =~= bytes);
}

/// The digits of a value are its own: the last one is what is left of it by
/// sixteen, and those before it are the digits of the sixteenth part.
pub proof fn law_digits_make_up_the_value(value: u128, index: int)
    requires
        0 <= index < 31,
    ensures
        hex_digit_of(value, 31) == value % 16,
        hex_digit_of(value, index) == hex_digit_of((value / 16) as u128, index + 1),
        hex_digit_of(0, index) == 0,
        0 <= hex_digit_of(value, index) < 16,
{
    assert(hex_weight(0) == 1);
    vstd::arithmetic::div_mod::lemma_div_basics(value as int);
    let w = hex_weight((30 - index) as nat);
    lemma_hex_weight_positive((30 - index) as nat);
    lemma_hex_weight_positive((31 - index) as nat);
    assert(hex_weight((31 - index) as nat) == w * 16);
    vstd::arithmetic::div_mod::lemma_div_denominator(value as int, 16, w as int);
    assert(16 * w == w * 16) by (nonlinear_arith);
    vstd::arithmetic::div_mod::lemma_div_basics(hex_weight((31 - index) as nat) as int);
}

/// A digit is written from zero to nine and from a to f.
pub proof fn law_digits_are_written_in_lower_case(digit: int)
    requires
        0 <= digit < 16,
    ensures
        digit < 10 ==> hex_char(digit) as int == '0' as int + digit,
        digit >= 10 ==> hex_char(digit) as int == 'a' as int + (digit - 10),
{
}

/// The canonical text holds the thirty-two digits in order, eight, four, four,
/// four and twelve of them, with a hyphen between.
pub proof fn law_hyphens_divide_the_digits(value: u128)
    ensures
        ({
            let text = hyphenated_text(value);
            let digits = hex_text(value);
            &&& text.len() == 36
            &&& digits.len() == 32
            &&& text =~= digits.subrange(0, 8) + seq!['-'] + digits.subrange(8, 12) + seq!['-']
                + digits.subrange(12, 16) + seq!['-'] + digits.subrange(16, 20) + seq!['-']
                + digits.subrange(20, 32)
        }),
{
}

/// The text of a device is the digits of its first half and those of its second.
pub proof fn law_device_texts_hold_both_halves(device: DeviceId, i: int)
    requires
        0 <= i < 32,
    ensures
        device_text(device).len() == 64,
        device_text(device)[i] == hex_char(hex_digit_of(device.high, i)),
        device_text(device)[32 + i] == hex_char(hex_digit_of(device.low, i)),
{
}

} // verus!
