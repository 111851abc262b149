//! Text and its bytes: plaintext is UTF-8, and decrypted bytes become text
//! again only if they are valid UTF-8.

use crate::cipher::{lemma_round_trip, xor_bytes};
use vstd::prelude::*;
use vstd::utf8::{
    decode_utf8, encode_utf8, encode_utf8_decode_utf8, encode_utf8_valid_utf8, valid_utf8,
};

verus! {

/// The error of `String::from_utf8`, carried through as an opaque value.
#[verifier::external_type_specification]
#[verifier::external_body]
pub struct ExFromUtf8Error(std::string::FromUtf8Error);

/// `String::from_utf8` is trusted to succeed exactly on valid UTF-8, and to
/// return on success the string whose UTF-8 encoding is the bytes it was
/// given.
pub assume_specification[ String::from_utf8 ](vec: Vec<u8>) -> (r: Result<
    String,
    std::string::FromUtf8Error,
>)
    ensures
        r is Ok <==> valid_utf8(vec@),
        r matches Ok(text) ==> encode_utf8(text@) == vec@,
;

/// Decrypted bytes that are not valid UTF-8: the key does not match the
/// ciphertext, or the ciphertext was damaged.
#[derive(Clone, Copy, Debug, PartialEq, Eq)]
pub struct DecodeError;

/// Turns bytes into the text that they encode, or fails if they encode none.
pub fn decode(bytes: Vec<u8>) -> (r: Result<String, DecodeError>)
    ensures
        r is Ok <==> valid_utf8(bytes@),
        r matches Ok(text) ==> text@ == decode_utf8(bytes@),
{
    match String::from_utf8(bytes) {
        Ok(text) => {
            proof {
                encode_utf8_decode_utf8(text@);
            }
            Ok(text)
        },
        Err(_) => Err(DecodeError),
    }
}

/// Text that was encrypted under a key decrypts under the same key to valid
/// UTF-8, and that UTF-8 decodes to the text itself.
pub proof fn lemma_text_round_trip(key: u8, text: Seq<char>)
    ensures
        valid_utf8(xor_bytes(key, xor_bytes(key, encode_utf8(text)))),
        decode_utf8(xor_bytes(key, xor_bytes(key, encode_utf8(text)))) == text,
{
    lemma_round_trip(key, encode_utf8(text));
    encode_utf8_valid_utf8(text);
    encode_utf8_decode_utf8(text);
}

/// The empty text encrypts to no bytes under every key, and no bytes decrypt
/// to the empty text.
pub proof fn lemma_empty_text(key: u8)
    ensures
        xor_bytes(key, encode_utf8(Seq::<char>::empty())) == Seq::<u8>::empty(),
        valid_utf8(xor_bytes(key, Seq::<u8>::empty())),
        decode_utf8(xor_bytes(key, Seq::<u8>::empty())) == Seq::<char>::empty(),
{
    assert(encode_utf8(Seq::<char>::empty()) =~= Seq::<u8>::empty());
    assert(xor_bytes(key, Seq::<u8>::empty()) =~= Seq::<u8>::empty());
    assert(decode_utf8(Seq::<u8>::empty()) =~= Seq::<char>::empty());
}

} // verus!
