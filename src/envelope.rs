use vstd::prelude::*;

use vstd::utf8::{decode_utf8, encode_utf8, encode_utf8_decode_utf8, encode_utf8_valid_utf8, valid_utf8};

verus! {

/// The standard base64 text (with padding) of some bytes, as ASCII bytes.
pub uninterp spec fn base64_encoding(b: Seq<u8>) -> Seq<u8>;

/// The bytes that some standard base64 text stands for, or `None` when it is
/// not valid base64.
pub uninterp spec fn base64_decoding(b: Seq<u8>) -> Option<Seq<u8>>;

/// Relies on base64's `encode` (standard alphabet, padded): the text
/// depends on the input bytes alone, it is four characters for each started
/// group of three bytes, and `decode` gives the bytes back. It panics only
/// when that length does not fit in `usize`.
#[verifier::external_body]
fn base64_encode(b: &[u8]) -> (r: Vec<u8>)
    requires
        b@.len() <= usize::MAX / 4,
    ensures
        r@ == base64_encoding(b@),
        r@.len() == 4 * ((b@.len() + 2) / 3),
        base64_decoding(r@) == Some(b@),
{
    base64::encode(b).into_bytes()
}

/// Relies on base64's `decode` (standard alphabet, padded): the result
/// depends on the input bytes alone, and fails on invalid base64.
#[verifier::external_body]
fn base64_decode(b: &[u8]) -> (r: Option<Vec<u8>>)
    ensures
        match r {
            Some(v) => base64_decoding(b@) == Some(v@),
            None => base64_decoding(b@) is None,
        },
{
    base64::decode(b).ok()
}

/// Relies on `String::from_utf8`: it succeeds exactly on valid UTF-8, and
/// the string then holds those bytes.
#[verifier::external_body]
fn utf8_text(b: Vec<u8>) -> (r: Option<String>)
    ensures
        match r {
            Some(s) => valid_utf8(b@) && encode_utf8(s@) == b@,
            None => !valid_utf8(b@),
        },
{
    String::from_utf8(b).ok()
}

/// The text that a frame carries, if it is base64 of valid UTF-8.
pub open spec fn frame_text(frame: Seq<u8>) -> Option<Seq<char>> {
    match base64_decoding(frame) {
        None => None,
        Some(d) => if valid_utf8(d) {
            Some(decode_utf8(d))
        } else {
            None
        },
    }
}

/// The frame that carries a text.
pub open spec fn frame_of(text: Seq<char>) -> Seq<u8> {
    base64_encoding(encode_utf8(text))
}

/// Why an inbound binary frame could not be read as text.
#[derive(PartialEq, Eq, Structural, Clone, Copy, Debug)]
pub enum DecodeError {
    NotBase64,
    NotUtf8,
}

/// The frame that carries `text`: the base64 encoding of its UTF-8 bytes.
pub fn encode_frame(text: &str) -> (r: Vec<u8>)
    requires
        encode_utf8(text@).len() <= usize::MAX / 4,
    ensures
        frame_text(r@) == Some(text@),
        r@ == frame_of(text@),
{
    let r = base64_encode(text.as_bytes());
    proof {
        encode_utf8_valid_utf8(text@);
        encode_utf8_decode_utf8(text@);
    }
    r
}

/// The text that a frame carries: its body base64-decoded, then read as
/// UTF-8. Fails with `NotBase64` or `NotUtf8`, exactly when that step fails.
pub fn decode_frame(frame: &[u8]) -> (r: Result<String, DecodeError>)
    ensures
        match base64_decoding(frame@) {
            None => r == Err::<String, DecodeError>(DecodeError::NotBase64),
            Some(d) => if valid_utf8(d) {
                r matches Ok(s) && encode_utf8(s@) == d
            } else {
                r == Err::<String, DecodeError>(DecodeError::NotUtf8)
            },
        },
        match r {
            Ok(s) => frame_text(frame@) == Some(s@),
            Err(_) => frame_text(frame@) is None,
        },
{
    match base64_decode(frame) {
        None => Err(DecodeError::NotBase64),
        Some(d) => match utf8_text(d) {
            Some(s) => {
                proof {
                    encode_utf8_decode_utf8(s@);
                }
                Ok(s)
            },
            None => Err(DecodeError::NotUtf8),
        },
    }
}

/// On envelopes, encoding what decoding gives is the identity: an envelope
/// made from a text reads back as that text (which `encode_frame` ensures of
/// every frame it makes), and making it again gives the same bytes.
pub proof fn lemma_envelope_round_trip(text: Seq<char>)
    requires
        frame_text(frame_of(text)) == Some(text),
    ensures
        frame_of(frame_text(frame_of(text)).unwrap()) == frame_of(text),
{
}

} // verus!
