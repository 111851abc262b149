//! XOR-obfuscated string literals: a literal is encrypted when the program is
//! built and decrypted when it is first used, so that the plain text never
//! appears in the compiled artifact.
//!
//! This hinders a casual scan of the binary and nothing more: key and cipher
//! are trivial and travel with the ciphertext.
//!
//! - [`key`] derives the key of a build from the clock, once.
//! - [`expand`] is the build-time transformation: it turns a string literal
//!   into the ciphertext that is embedded in its place.
//! - [`XorString`] wraps embedded ciphertext and decrypts it at run time.
//! - [`cipher`] and [`text`] hold the cipher itself, the step between bytes
//!   and text, and the proofs that decryption undoes encryption.

pub mod cipher;
pub mod expand;
pub mod key;
pub mod text;

use crate::cipher::{decrypt_with, encrypt_with, xor_bytes};
use crate::text::{decode, lemma_text_round_trip, DecodeError};
use vstd::prelude::*;
use vstd::utf8::{decode_utf8, valid_utf8};

verus! {

/// A string that was encrypted when the program was built and is to be
/// decrypted when it runs.
#[derive(PartialEq, Eq, Debug, Hash, Clone)]
pub struct XorString<'a> {
    /// The encrypted string as raw bytes.
    encrypted: &'a [u8],
}

impl<'a> View for XorString<'a> {
    type V = Seq<u8>;

    /// The ciphertext that the value refers to.
    closed spec fn view(&self) -> Seq<u8> {
        self.encrypted@
    }
}

impl<'a> XorString<'a> {
    /// Wraps ciphertext. The bytes are borrowed, not copied.
    ///
    /// They should come from the build, not from a computation at run time:
    /// plain text that the program computes is in the program.
    pub fn new(encrypted: &'a [u8]) -> (s: Self)
        ensures
            s@ == encrypted@,
    {
        XorString { encrypted }
    }

    /// Decrypts into a fresh string, or fails if the decrypted bytes are not
    /// valid UTF-8. `key` is the key that the ciphertext was made with.
    pub fn try_decrypt(&self, key: u8) -> (r: Result<String, DecodeError>)
        ensures
            r is Ok <==> valid_utf8(xor_bytes(key, self@)),
            r matches Ok(text) ==> text@ == decode_utf8(xor_bytes(key, self@)),
    {
        decode(decrypt_with(key, self.encrypted))
    }

    /// Decrypts into a fresh string. `key` is the key that the ciphertext was
    /// made with: under it the decrypted bytes are the UTF-8 of the plain
    /// text.
    pub fn decrypt(&self, key: u8) -> (text: String)
        requires
            valid_utf8(xor_bytes(key, self@)),
        ensures
            text@ == decode_utf8(xor_bytes(key, self@)),
    {
        match self.try_decrypt(key) {
            Ok(text) => text,
            Err(_) => unreached(),
        }
    }
}

/// Encrypts `literal` under `key` and decrypts the result again: the text
/// comes back as it went in.
pub fn reveal_literal(literal: &str, key: u8) -> (text: String)
    ensures
        text@ == literal@,
{
    let ciphertext = encrypt_with(key, literal.as_bytes());
    proof {
        lemma_text_round_trip(key, literal@);
    }
    XorString::new(ciphertext.as_slice()).decrypt(key)
}

} // verus!
