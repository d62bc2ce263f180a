//! Small functions on text, by characters.

use vstd::prelude::*;

verus! {

/// Whether a character has the Unicode property `White_Space`.
pub open spec fn is_white_space(c: char) -> bool {
    let code = c as u32;
    ||| 0x09 <= code <= 0x0d
    ||| code == 0x20
    ||| code == 0x85
    ||| code == 0xa0
    ||| code == 0x1680
    ||| 0x2000 <= code <= 0x200a
    ||| code == 0x2028
    ||| code == 0x2029
    ||| code == 0x202f
    ||| code == 0x205f
    ||| code == 0x3000
}

/// Whether a character is white space.
pub fn white_space(c: char) -> (answer: bool)
    ensures
        answer == is_white_space(c),
{
    let code: u32 = c as u32;
    (0x09 <= code && code <= 0x0d) || code == 0x20 || code == 0x85 || code == 0xa0 || code == 0x1680
        || (0x2000 <= code && code <= 0x200a) || code == 0x2028 || code == 0x2029 || code == 0x202f
        || code == 0x205f || code == 0x3000
}

/// Whether a character is a control character (Unicode category `Cc`).
pub open spec fn is_control(c: char) -> bool {
    c as u32 <= 0x1f || 0x7f <= c as u32 <= 0x9f
}

/// The characters of a text.
pub fn text_chars(text: &str) -> (chars: Vec<char>)
    ensures
        chars@ == text@,
{
    let mut chars: Vec<char> = Vec::new();
    for c in it: text.chars()
        invariant
            it.seq() == text@,
            chars@ == text@.take(it.index() as int),
    {
        chars.push(c);
        assert(text@.take(it.index() as int).push(c) =~= text@.take(it.index() + 1));
    }
    assert(text@.take(text@.len() as int) =~= text@);
    chars
}

fn continues(byte: u8) -> (answer: bool)
    ensures
        answer == vstd::utf8::is_continuation_byte(byte),
{
    0x80 <= byte && byte <= 0xbf
}

/// How many bytes the character that starts at `at` takes; none, when no
/// character does.
fn character_width(bytes: &Vec<u8>, at: usize) -> (width: usize)
    requires
        at < bytes@.len(),
    ensures
        ({
            let rest = bytes@.subrange(at as int, bytes@.len() as int);
            if vstd::utf8::valid_first_scalar(rest) {
                width == vstd::utf8::length_of_first_scalar(rest) && 1 <= width <= rest.len()
            } else {
                width == 0
            }
        }),
{
    let left: usize = bytes.len() - at;
    let first: u8 = bytes[at];
    let ghost rest = bytes@.subrange(at as int, bytes@.len() as int);
    assert(rest[0] == first);
    if first <= 0x7f {
        assert(first & 0x7f == first) by (bit_vector)
            requires
                first <= 0x7f,
        ;
        return 1;
    }
    if 0xc0 <= first && first <= 0xdf {
        if left < 2 || !continues(bytes[at + 1]) {
            return 0;
        }
        let second: u8 = bytes[at + 1];
        let code: u32 = (((first & 0x1f) as u32) << 6) | ((second & 0x3f) as u32);
        assert(code <= 0x7ff) by (bit_vector)
            requires
                code == (((first & 0x1f) as u32) << 6) | ((second & 0x3f) as u32),
        ;
        assert(vstd::utf8::decode_first_codepoint(rest) == code);
        return if code >= 0x80 {
            2
        } else {
            0
        };
    }
    if 0xe0 <= first && first <= 0xef {
        if left < 3 || !continues(bytes[at + 1]) || !continues(bytes[at + 2]) {
            return 0;
        }
        let second: u8 = bytes[at + 1];
        let third: u8 = bytes[at + 2];
        let code: u32 = (((first & 0x0f) as u32) << 12) | (((second & 0x3f) as u32) << 6) | ((third
            & 0x3f) as u32);
        assert(vstd::utf8::decode_first_codepoint(rest) == code);
        return if code >= 0x800 && !(0xd800 <= code && code <= 0xdfff) {
            3
        } else {
            0
        };
    }
    if 0xf0 <= first && first <= 0xf7 {
        if left < 4 || !continues(bytes[at + 1]) || !continues(bytes[at + 2]) || !continues(
            bytes[at + 3],
        ) {
            return 0;
        }
        let second: u8 = bytes[at + 1];
        let third: u8 = bytes[at + 2];
        let fourth: u8 = bytes[at + 3];
        let code: u32 = (((first & 0x07) as u32) << 18) | (((second & 0x3f) as u32) << 12) | (((
        third & 0x3f) as u32) << 6) | ((fourth & 0x3f) as u32);
        assert(vstd::utf8::decode_first_codepoint(rest) == code);
        return if 0x10000 <= code && code <= 0x10ffff {
            4
        } else {
            0
        };
    }
    0
}

/// Whether bytes are a text in UTF-8.
pub fn is_utf8(bytes: &Vec<u8>) -> (valid: bool)
    ensures
        valid == vstd::utf8::valid_utf8(bytes@),
{
    let mut at: usize = 0;
    assert(bytes@.subrange(0, bytes@.len() as int) =~= bytes@);
    while at < bytes.len()
        invariant
            at <= bytes@.len(),
            vstd::utf8::valid_utf8(bytes@) == vstd::utf8::valid_utf8(
                bytes@.subrange(at as int, bytes@.len() as int),
            ),
        decreases bytes@.len() - at,
    {
        let width: usize = character_width(bytes, at);
        if width == 0 {
            return false;
        }
        proof {
            let rest = bytes@.subrange(at as int, bytes@.len() as int);
            assert(vstd::utf8::pop_first_scalar(rest) =~= bytes@.subrange(
                at + width,
                bytes@.len() as int,
            ));
        }
        at = at + width;
    }
    true
}

/// Of the characters of ASCII, white space is the space and the five from tab to
/// carriage return; control characters are those below the space, and delete.
/// Beyond ASCII the next thirty-two are control characters, of which one is white
/// space, and a letter or a digit is neither.
pub proof fn law_characters_are_told_apart(c: char)
    ensures
        c as int <= 0x7f ==> (is_white_space(c) <==> c as int == 0x20 || 9 <= c as int <= 13),
        c as int <= 0x7f ==> (is_control(c) <==> (c as int) < 0x20 || c as int == 0x7f),
        0x80 <= c as int <= 0x9f ==> is_control(c) && (is_white_space(c) <==> c as int == 0x85),
        c as int >= 0xa0 ==> !is_control(c),
        is_white_space(c) && c as int > 0x9f ==> c as int == 0xa0 || c as int == 0x1680 || 0x2000
            <= c as int <= 0x200a || c as int == 0x2028 || c as int == 0x2029 || c as int == 0x202f
            || c as int == 0x205f || c as int == 0x3000,
        c as int == 0xa0 || c as int == 0x1680 || 0x2000 <= c as int <= 0x200a || c as int == 0x2028
            || c as int == 0x2029 || c as int == 0x202f || c as int == 0x205f || c as int == 0x3000
            ==> is_white_space(c),
{
}

} // verus!
