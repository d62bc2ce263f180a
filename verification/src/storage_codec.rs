//! How stored bytes are written as text, and read back.

use vstd::prelude::*;
use vstd::string::*;
use crate::secret::discard;
use crate::storage::{StorageError, MAX_STORAGE_FILE_BYTES};

verus! {

#[verifier::external_type_specification]
#[verifier::external_body]
pub struct ExDecodeError(base64::DecodeError);

/// What `base64::Engine::encode` writes with the standard alphabet and padding.
pub uninterp spec fn base64_text(bytes: Seq<u8>) -> Seq<char>;

/// What `base64::Engine::decode` reads with the standard alphabet and padding,
/// if anything.
pub uninterp spec fn base64_bytes(text: Seq<char>) -> Option<Seq<u8>>;

/// How long the padded text of `length` bytes is.
pub open spec fn base64_len(length: nat) -> nat {
    4 * ((length + 2) / 3)
}

/// Calls `base64::Engine::encode` of the standard engine. The text depends on
/// the bytes alone, has four characters of ASCII for every three bytes begun,
/// and is decoded to the same bytes. The call panics when the length of the
/// text does not fit in `usize`.
#[verifier::external_body]
fn encode_base64(bytes: &[u8]) -> (text: String)
    requires
        base64_len(bytes@.len()) <= usize::MAX,
    ensures
        text@ == base64_text(bytes@),
        vstd::utf8::encode_utf8(text@).len() == base64_len(bytes@.len()),
        base64_bytes(text@) == Some(bytes@),
{
    base64::Engine::encode(&base64::engine::general_purpose::STANDARD, bytes)
}

/// Calls `base64::Engine::decode` of the standard engine; what it reads depends
/// on the text alone.
#[verifier::external_body]
fn decode_base64(text: &str) -> (bytes: Result<Vec<u8>, base64::DecodeError>)
    ensures
        match bytes {
            Ok(read) => base64_bytes(text@) == Some(read@),
            Err(_) => base64_bytes(text@) is None,
        },
{
    base64::Engine::decode(&base64::engine::general_purpose::STANDARD, text)
}

/// `text` is what bytes are stored as: their text, which is read back as these
/// bytes.
pub open spec fn stored_as(bytes: Seq<u8>, text: Seq<char>) -> bool {
    &&& text == base64_text(bytes)
    &&& base64_bytes(text) == Some(bytes)
    &&& vstd::utf8::encode_utf8(text).len() == base64_len(bytes.len())
}

/// Writes bytes as text.
pub fn encode_bytes(bytes: &Vec<u8>) -> (text: String)
    requires
        bytes@.len() <= MAX_STORAGE_FILE_BYTES,
    ensures
        stored_as(bytes@, text@),
{
    encode_base64(bytes.as_slice())
}

/// The bytes that a text stands for, when there are `length` of them.
pub open spec fn array_of(text: Seq<char>, length: nat) -> Option<Seq<u8>> {
    match base64_bytes(text) {
        Some(bytes) => if bytes.len() == length {
            Some(bytes)
        } else {
            None
        },
        None => None,
    }
}

/// The bytes that a text stands for, when there are some and not more than
/// `maximum`, and the text is not needlessly long.
pub open spec fn bounded_of(text: Seq<char>, maximum: nat) -> Option<Seq<u8>> {
    if vstd::utf8::encode_utf8(text).len() > 2 * maximum {
        None
    } else {
        match base64_bytes(text) {
            Some(bytes) => if 1 <= bytes.len() <= maximum {
                Some(bytes)
            } else {
                None
            },
            None => None,
        }
    }
}

pub open spec fn read_as(read: Result<Vec<u8>, StorageError>, meant: Option<Seq<u8>>) -> bool {
    match read {
        Ok(bytes) => meant == Some(bytes@),
        Err(error) => meant is None && error == StorageError::InvalidData,
    }
}

/// Reads a text of exactly `length` bytes.
pub fn decode_array(encoded: &str, length: usize) -> (read: Result<Vec<u8>, StorageError>)
    ensures
        read_as(read, array_of(encoded@, length as nat)),
{
    match decode_base64(encoded) {
        Ok(bytes) => if bytes.len() == length {
            Ok(bytes)
        } else {
            discard(bytes);
            Err(StorageError::InvalidData)
        },
        Err(_) => Err(StorageError::InvalidData),
    }
}

/// Reads a text of one to `maximum` bytes.
pub fn decode_bounded(encoded: &str, maximum: usize) -> (read: Result<Vec<u8>, StorageError>)
    ensures
        read_as(read, bounded_of(encoded@, maximum as nat)),
{
    let length: usize = encoded.as_bytes().len();
    if maximum <= usize::MAX / 2 && length > maximum * 2 {
        return Err(StorageError::InvalidData);
    }
    match decode_base64(encoded) {
        Ok(bytes) => if bytes.len() == 0 || bytes.len() > maximum {
            Err(StorageError::InvalidData)
        } else {
            Ok(bytes)
        },
        Err(_) => Err(StorageError::InvalidData),
    }
}

/// What was stored is read back, whatever the bytes are, within the bound.
pub proof fn law_stored_bytes_are_read_back(bytes: Seq<u8>, text: Seq<char>, maximum: nat)
    requires
        stored_as(bytes, text),
        1 <= bytes.len() <= maximum,
        maximum >= 2,
    ensures
        bounded_of(text, maximum) == Some(bytes),
        array_of(text, bytes.len()) == Some(bytes),
{
}

/// A text is read as an array exactly if it stands for so many bytes, and as a
/// bounded text exactly if it stands for some and not for too many, and is not
/// more than twice as long as these could be. What is read is what it stands for.
pub proof fn law_texts_are_read_within_their_bounds(text: Seq<char>, length: nat)
    ensures
        array_of(text, length) matches Some(bytes) ==> base64_bytes(text) == Some(bytes)
            && bytes.len() == length,
        base64_bytes(text) matches Some(bytes) ==> (bytes.len() == length ==> array_of(text, length)
            == Some(bytes)),
        bounded_of(text, length) matches Some(bytes) ==> base64_bytes(text) == Some(bytes) && 1
            <= bytes.len() <= length && vstd::utf8::encode_utf8(text).len() <= 2 * length,
        base64_bytes(text) matches Some(bytes) ==> (1 <= bytes.len() <= length
            && vstd::utf8::encode_utf8(text).len() <= 2 * length ==> bounded_of(text, length)
            == Some(bytes)),
        base64_bytes(text) is None ==> array_of(text, length) is None && bounded_of(text, length)
            is None,
{
}

/// Text takes four characters for every three bytes that are begun.
pub proof fn law_text_lengths_follow_the_bytes(length: nat)
    ensures
        base64_len(0) == 0,
        base64_len(length + 3) == base64_len(length) + 4,
        length % 3 == 1 ==> base64_len(length) == base64_len(length + 1),
        length % 3 == 1 ==> base64_len(length) == base64_len(length + 2),
        length % 3 == 0 ==> base64_len(length) * 3 == length * 4,
{
}

/// A failure to read is one of invalid data, and comes only where nothing could be
/// read.
pub proof fn law_unreadable_text_is_invalid_data(
    read: Result<Vec<u8>, StorageError>,
    meant: Option<Seq<u8>>,
)
    requires
        read_as(read, meant),
    ensures
        read is Ok <==> meant is Some,
        read matches Ok(bytes) ==> meant == Some(bytes@),
        read matches Err(error) ==> error is InvalidData,
{
}

} // verus!
