//! String transfer: texts of the host come in as the bytes before their
//! terminator, texts of the bridge go out as bytes with the terminator set
//! behind them.

use crate::error::BridgeError;
use vstd::prelude::*;
use vstd::string::*;
use vstd::utf8::*;

verus! {

/// `core::str::from_utf8`: the bytes as a string slice exactly where they
/// are valid UTF-8, and then a slice of those very bytes.
#[verifier::external_body]
fn str_from_utf8(bytes: &[u8]) -> (text: Option<&str>)
    ensures
        text is Some <==> valid_utf8(bytes@),
        text matches Some(s) ==> s.spec_bytes() == bytes@,
{
    match core::str::from_utf8(bytes) {
        Ok(text) => Some(text),
        Err(_) => None,
    }
}

/// The text that a string of the host stands for, or why it stands for none.
/// `None` is the null pointer; the bytes are those before the terminator.
pub open spec fn inbound(s: Option<&[u8]>) -> Result<Seq<char>, BridgeError> {
    match s {
        None => Err(BridgeError::NullString),
        Some(bytes) => if valid_utf8(bytes@) {
            Ok(decode_utf8(bytes@))
        } else {
            Err(BridgeError::InvalidEncoding)
        },
    }
}

/// The text that a string of the host stands for where the host may leave
/// the string out: the null pointer then stands for no text, and is no
/// fault.
pub open spec fn inbound_optional(s: Option<&[u8]>) -> Result<Option<Seq<char>>, BridgeError> {
    match s {
        None => Ok(None),
        Some(bytes) => if valid_utf8(bytes@) {
            Ok(Some(decode_utf8(bytes@)))
        } else {
            Err(BridgeError::InvalidEncoding)
        },
    }
}

/// The buffer that carries a text to the host: its UTF-8 bytes and the
/// terminator. A text with the terminator in its middle has no such buffer.
pub open spec fn outbound(text: Seq<char>) -> Result<Seq<u8>, BridgeError> {
    if encode_utf8(text).contains(0u8) {
        Err(BridgeError::InteriorNul)
    } else {
        Ok(encode_utf8(text).push(0u8))
    }
}

/// A converted text, seen as the characters it holds.
pub open spec fn text_view(r: Result<String, BridgeError>) -> Result<Seq<char>, BridgeError> {
    match r {
        Ok(text) => Ok(text@),
        Err(e) => Err(e),
    }
}

/// A converted text that may have been left out, seen as its characters.
pub open spec fn optional_text_view(r: Result<Option<String>, BridgeError>) -> Result<
    Option<Seq<char>>,
    BridgeError,
> {
    match r {
        Ok(Some(text)) => Ok(Some(text@)),
        Ok(None) => Ok(None),
        Err(e) => Err(e),
    }
}

/// A converted buffer, seen as the bytes it holds.
pub open spec fn buffer_view(r: Result<Vec<u8>, BridgeError>) -> Result<Seq<u8>, BridgeError> {
    match r {
        Ok(buffer) => Ok(buffer@),
        Err(e) => Err(e),
    }
}

/// Takes a string of the host in.
pub fn get_string(s: Option<&[u8]>) -> (r: Result<String, BridgeError>)
    ensures
        text_view(r) == inbound(s),
{
    match s {
        None => Err(BridgeError::NullString),
        Some(bytes) => match str_from_utf8(bytes) {
            None => Err(BridgeError::InvalidEncoding),
            Some(text) => {
                proof {
                    encode_utf8_decode_utf8(text@);
                }
                Ok(text.to_owned())
            },
        },
    }
}

/// Takes in a string that the host may leave out.
pub fn get_optional_string(s: Option<&[u8]>) -> (r: Result<Option<String>, BridgeError>)
    ensures
        optional_text_view(r) == inbound_optional(s),
{
    match s {
        None => Ok(None),
        Some(_) => match get_string(s) {
            Ok(text) => Ok(Some(text)),
            Err(e) => Err(e),
        },
    }
}

/// Lays a text of the bridge out for the host.
pub fn put_string(text: &str) -> (r: Result<Vec<u8>, BridgeError>)
    ensures
        buffer_view(r) == outbound(text@),
{
    let bytes = text.as_bytes();
    let mut buffer: Vec<u8> = Vec::new();
    let mut i: usize = 0;
    while i < bytes.len()
        invariant
            bytes@ == encode_utf8(text@),
            0 <= i <= bytes@.len(),
            buffer@ == bytes@.subrange(0, i as int),
            forall|k: int| 0 <= k < i ==> bytes@[k] != 0u8,
        decreases bytes@.len() - i,
    {
        let byte: u8 = bytes[i];
        if byte == 0 {
            return Err(BridgeError::InteriorNul);
        }
        buffer.push(byte);
        i = i + 1;
    }
    assert(buffer@ =~= bytes@);
    buffer.push(0);
    Ok(buffer)
}

/// What came in through [`get_string`] goes out through [`put_string`]
/// byte for byte, with the terminator behind it.
pub proof fn lemma_string_round_trip(bytes: &[u8])
    requires
        valid_utf8(bytes@),
        !bytes@.contains(0u8),
    ensures
        inbound(Some(bytes)) matches Ok(text) && outbound(text) == Ok::<Seq<u8>, BridgeError>(
            bytes@.push(0u8),
        ),
{
    decode_utf8_encode_utf8(bytes@);
}

/// What went out through [`put_string`] comes back through [`get_string`],
/// once the terminator is taken off, as the same text.
pub proof fn lemma_text_round_trip(text: Seq<char>, bytes: &[u8])
    requires
        outbound(text) matches Ok(buffer) && bytes@ == buffer.drop_last(),
    ensures
        inbound(Some(bytes)) == Ok::<Seq<char>, BridgeError>(text),
{
    assert(bytes@ =~= encode_utf8(text));
    encode_utf8_valid_utf8(text);
    encode_utf8_decode_utf8(text);
}

} // verus!
