//! The build-time transformation: what is embedded in the program in place
//! of a string literal.
//!
//! The transformation is invoked with no argument, and yields the key of the
//! build, or with one string literal, and yields the literal's ciphertext and
//! byte length. The key it is given here is the one that the program later
//! decrypts with.

use crate::cipher::{encrypt_with, xor_bytes};
use vstd::prelude::*;
use vstd::string::StringExecFns;
use vstd::utf8::encode_utf8;

verus! {

/// What the transformation was invoked with, as far as it reads it.
#[derive(Debug, PartialEq, Eq)]
pub enum Argument {
    /// Nothing.
    Empty,
    /// A string literal, given by the text that it denotes.
    Str(String),
    /// A literal that is no string: a number, a character, a byte string.
    OtherLiteral,
    /// Anything else: not a literal, or more than one.
    NotLiteral,
}

/// What the transformation embeds in the program.
#[derive(Debug, PartialEq, Eq)]
pub enum Expansion {
    /// The key of this build.
    Key(u8),
    /// The ciphertext of a string literal and the literal's length in bytes.
    Encrypted { ciphertext: Vec<u8>, length: usize },
}

/// An argument that the transformation refuses.
#[derive(Clone, Copy, Debug, PartialEq, Eq)]
pub enum ArgumentError {
    /// The argument is not a literal.
    NotLiteral,
    /// The argument is a literal, but not a string.
    NotString,
}

impl ArgumentError {
    /// What to tell the author of the call.
    pub fn message(&self) -> (text: String)
        ensures
            text@ == (match *self {
                ArgumentError::NotLiteral => "expected literal"@,
                ArgumentError::NotString => "not string input"@,
            }),
    {
        match self {
            ArgumentError::NotLiteral => String::from_str("expected literal"),
            ArgumentError::NotString => String::from_str("not string input"),
        }
    }
}

/// Transforms one invocation under the key of the build.
///
/// Without an argument the result is the key itself. With a string literal
/// it is the literal's UTF-8 bytes, encrypted under the key, and their
/// number. Every other argument is refused.
pub fn xorstring(argument: &Argument, key: u8) -> (r: Result<Expansion, ArgumentError>)
    ensures
        match *argument {
            Argument::Empty => r matches Ok(Expansion::Key(embedded)) && embedded == key,
            Argument::Str(text) => ({
                &&& r matches Ok(Expansion::Encrypted { ciphertext, length })
                &&& ciphertext@ == xor_bytes(key, encode_utf8(text@))
                &&& length == encode_utf8(text@).len()
                &&& length == ciphertext@.len()
            }),
            Argument::OtherLiteral => r matches Err(ArgumentError::NotString),
            Argument::NotLiteral => r matches Err(ArgumentError::NotLiteral),
        },
{
    match argument {
        Argument::Empty => Ok(Expansion::Key(key)),
        Argument::Str(text) => {
            let plaintext = text.as_str();
            let bytes = plaintext.as_bytes();
            let ciphertext = encrypt_with(key, bytes);
            let length: usize = bytes.len();
            Ok(Expansion::Encrypted { ciphertext, length })
        },
        Argument::OtherLiteral => Err(ArgumentError::NotString),
        Argument::NotLiteral => Err(ArgumentError::NotLiteral),
    }
}

} // verus!
