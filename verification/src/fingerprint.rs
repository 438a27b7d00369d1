//! Fingerprints of rendered messages.
//!
//! A fingerprint is the 64-bit digest that the standard library's default
//! hasher gives for a string, written as eight bytes, most significant first,
//! in URL-safe base64 without padding.
//!
//! The default hasher is made without a seed, so a message has one
//! fingerprint in every run and every process of a program. The standard
//! library keeps the hasher's algorithm open, so programs built with
//! different releases of it may disagree on a fingerprint.

use base64::Engine;
use std::collections::hash_map::DefaultHasher;
use std::hash::{Hash, Hasher};
use vstd::prelude::*;
use vstd::std_specs::hash::DefaultHasherAdditionalSpecFns;

verus! {

/// The writes by which `str`'s implementation of `Hash` feeds a string to a
/// hasher.
pub uninterp spec fn str_hash_writes(text: Seq<char>) -> Seq<Seq<u8>>;

/// The URL-safe base64 encoding, without padding, of a byte string.
pub uninterp spec fn url_safe_no_pad_encoding(bytes: Seq<u8>) -> Seq<char>;

/// The digest that a fresh default hasher gives for `text`.
pub open spec fn digest_spec(text: Seq<char>) -> u64 {
    DefaultHasher::spec_finish(str_hash_writes(text))
}

/// The eight bytes of `x`, most significant first.
pub open spec fn be_bytes_spec(x: u64) -> Seq<u8> {
    seq![
        (x / 0x100_0000_0000_0000) as u8,
        (x / 0x1_0000_0000_0000 % 0x100) as u8,
        (x / 0x100_0000_0000 % 0x100) as u8,
        (x / 0x1_0000_0000 % 0x100) as u8,
        (x / 0x100_0000 % 0x100) as u8,
        (x / 0x1_0000 % 0x100) as u8,
        (x / 0x100 % 0x100) as u8,
        (x % 0x100) as u8,
    ]
}

/// The printable form of a digest.
pub open spec fn digest_text_spec(digest: u64) -> Seq<char> {
    url_safe_no_pad_encoding(be_bytes_spec(digest))
}

/// The fingerprint of a message.
pub open spec fn fingerprint_spec(text: Seq<char>) -> Seq<char> {
    digest_text_spec(digest_spec(text))
}

/// Calls `<str as Hash>::hash` with a default hasher as the state. Trusted:
/// the call adds to the hasher's writes, and what it adds depends on the
/// string alone, so that equal strings feed a hasher alike.
#[verifier::external_body]
fn hash_str(text: &str, state: &mut DefaultHasher)
    ensures
        final(state)@ == old(state)@ + str_hash_writes(text@),
{
    text.hash(state);
}

/// Calls `Engine::encode` on `base64::engine::general_purpose::URL_SAFE_NO_PAD`.
/// Trusted: the string returned depends on the bytes alone. The length bound
/// keeps the encoded length within `usize`, which the call asks for.
#[verifier::external_body]
fn encode_url_safe_no_pad(bytes: &[u8]) -> (text: String)
    requires
        bytes@.len() / 3 * 4 + 3 <= usize::MAX,
    ensures
        text@ == url_safe_no_pad_encoding(bytes@),
{
    base64::engine::general_purpose::URL_SAFE_NO_PAD.encode(bytes)
}

/// Splits `x` into its eight bytes, most significant first.
pub fn be_bytes(x: u64) -> (bytes: [u8; 8])
    ensures
        bytes@ == be_bytes_spec(x),
{
    let b0: u8 = (x >> 56) as u8;
    let b1: u8 = ((x >> 48) & 0xff) as u8;
    let b2: u8 = ((x >> 40) & 0xff) as u8;
    let b3: u8 = ((x >> 32) & 0xff) as u8;
    let b4: u8 = ((x >> 24) & 0xff) as u8;
    let b5: u8 = ((x >> 16) & 0xff) as u8;
    let b6: u8 = ((x >> 8) & 0xff) as u8;
    let b7: u8 = (x & 0xff) as u8;
    assert(x >> 56 == x / 0x100_0000_0000_0000 && (x >> 56) < 0x100) by (bit_vector);
    assert((x >> 48) & 0xff == x / 0x1_0000_0000_0000 % 0x100) by (bit_vector);
    assert((x >> 40) & 0xff == x / 0x100_0000_0000 % 0x100) by (bit_vector);
    assert((x >> 32) & 0xff == x / 0x1_0000_0000 % 0x100) by (bit_vector);
    assert((x >> 24) & 0xff == x / 0x100_0000 % 0x100) by (bit_vector);
    assert((x >> 16) & 0xff == x / 0x1_0000 % 0x100) by (bit_vector);
    assert((x >> 8) & 0xff == x / 0x100 % 0x100) by (bit_vector);
    assert(x & 0xff == x % 0x100) by (bit_vector);
    let bytes = [b0, b1, b2, b3, b4, b5, b6, b7];
    assert(bytes@ =~= be_bytes_spec(x));
    bytes
}

/// Writes a digest as text: its eight bytes, most significant first, in
/// URL-safe base64 without padding.
pub fn digest_text(digest: u64) -> (text: String)
    ensures
        text@ == digest_text_spec(digest),
{
    let bytes = be_bytes(digest);
    encode_url_safe_no_pad(bytes.as_slice())
}

/// The digest of `text` under a fresh default hasher.
pub fn digest(text: &str) -> (d: u64)
    ensures
        d == digest_spec(text@),
{
    let mut hasher = DefaultHasher::new();
    hash_str(text, &mut hasher);
    hasher.finish()
}

/// The fingerprint of `text`: a short printable value that depends on the
/// text alone, so that equal messages carry equal fingerprints wherever and
/// whenever they are rendered.
pub fn fingerprint(text: &str) -> (print: String)
    ensures
        print@ == fingerprint_spec(text@),
{
    digest_text(digest(text))
}

} // verus!
