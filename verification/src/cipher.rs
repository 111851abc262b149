//! The cipher: every byte is XOR-ed with a key byte that rotates with the
//! byte's position.
//!
//! Encryption and decryption are the same transformation, [`xor_bytes`];
//! applying it twice under one key gives the input back.

use vstd::prelude::*;

verus! {

/// The byte that position `index` is XOR-ed with under `key`:
/// `(key + index) mod 256`.
pub open spec fn keystream(key: u8, index: int) -> u8 {
    ((key + index) % 256) as u8
}

/// `data` with every byte XOR-ed with the keystream byte of its position.
pub open spec fn xor_bytes(key: u8, data: Seq<u8>) -> Seq<u8> {
    Seq::new(data.len(), |i: int| data[i] ^ keystream(key, i))
}

/// Computes the keystream byte of one position. The addition wraps, so every
/// position has a keystream byte, however long the data.
pub fn keystream_byte(key: u8, index: usize) -> (k: u8)
    ensures
        k == keystream(key, index as int),
{
    let offset: u8 = (index % 256) as u8;
    key.wrapping_add(offset)
}

/// Runs the cipher over `data` and returns the transformed bytes in a fresh
/// vector; `data` is left as it is.
fn apply_keystream(key: u8, data: &[u8]) -> (out: Vec<u8>)
    ensures
        out@ == xor_bytes(key, data@),
        out@.len() == data@.len(),
{
    let n: usize = data.len();
    let mut out: Vec<u8> = Vec::with_capacity(n);
    let mut i: usize = 0;
    while i < n
        invariant
            n == data@.len(),
            i <= n,
            out@.len() == i,
            forall|j: int| 0 <= j < i ==> out@[j] == data@[j] ^ keystream(key, j),
        decreases n - i,
    {
        let k: u8 = keystream_byte(key, i);
        out.push(data[i] ^ k);
        i = i + 1;
    }
    out
}

/// Encrypts `plaintext` under `key`.
pub fn encrypt_with(key: u8, plaintext: &[u8]) -> (ciphertext: Vec<u8>)
    ensures
        ciphertext@ == xor_bytes(key, plaintext@),
        ciphertext@.len() == plaintext@.len(),
{
    apply_keystream(key, plaintext)
}

/// Decrypts `ciphertext` under `key`.
pub fn decrypt_with(key: u8, ciphertext: &[u8]) -> (plaintext: Vec<u8>)
    ensures
        plaintext@ == xor_bytes(key, ciphertext@),
        plaintext@.len() == ciphertext@.len(),
{
    apply_keystream(key, ciphertext)
}

/// XOR-ing a byte twice with the same mask gives the byte back.
proof fn lemma_xor_twice(byte: u8, mask: u8)
    ensures
        (byte ^ mask) ^ mask == byte,
{
    assert((byte ^ mask) ^ mask == byte) by (bit_vector);
}

/// XOR with a mask leaves a byte unchanged exactly when the mask is zero.
proof fn lemma_xor_fixes_iff_zero(byte: u8, mask: u8)
    ensures
        (byte ^ mask == byte) <==> mask == 0,
{
    assert((byte ^ mask == byte) <==> mask == 0) by (bit_vector);
}

/// The ciphertext is as long as the plaintext.
pub proof fn lemma_length_preserved(key: u8, data: Seq<u8>)
    ensures
        xor_bytes(key, data).len() == data.len(),
{
}

/// Decrypting what was encrypted under the same key gives the plaintext
/// back, for every byte sequence and every key.
pub proof fn lemma_round_trip(key: u8, plaintext: Seq<u8>)
    ensures
        xor_bytes(key, xor_bytes(key, plaintext)) == plaintext,
{
    let twice = xor_bytes(key, xor_bytes(key, plaintext));
    assert forall|i: int| 0 <= i < plaintext.len() implies twice[i] == plaintext[i] by {
        lemma_xor_twice(plaintext[i], keystream(key, i));
    }
    assert(twice =~= plaintext);
}

/// The ciphertext equals the plaintext in two cases only: the plaintext is
/// empty, or it is a single byte and the key is zero (the keystream byte of
/// position 0 is then zero, and no other position is there to differ).
pub proof fn lemma_unchanged_iff(key: u8, plaintext: Seq<u8>)
    ensures
        xor_bytes(key, plaintext) == plaintext <==> (plaintext.len() == 0 || (plaintext.len() == 1
            && key == 0)),
{
    let ciphertext = xor_bytes(key, plaintext);
    if plaintext.len() == 0 || (plaintext.len() == 1 && key == 0) {
        assert forall|i: int| 0 <= i < plaintext.len() implies ciphertext[i] == plaintext[i] by {
            lemma_xor_fixes_iff_zero(plaintext[i], keystream(key, i));
        }
        assert(ciphertext =~= plaintext);
    } else {
        let at: int = if key != 0 { 0 } else { 1 };
        assert(keystream(key, at) != 0);
        lemma_xor_fixes_iff_zero(plaintext[at], keystream(key, at));
        assert(ciphertext[at] != plaintext[at]);
    }
}

/// The ciphertext differs from a plaintext of two or more bytes under every
/// key, and from a plaintext of one byte under every key but zero.
pub proof fn lemma_ciphertext_differs(key: u8, plaintext: Seq<u8>)
    requires
        plaintext.len() >= 2 || (plaintext.len() == 1 && key != 0),
    ensures
        xor_bytes(key, plaintext) != plaintext,
{
    lemma_unchanged_iff(key, plaintext);
}

} // verus!
