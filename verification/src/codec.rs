//! Byte-to-text encodings supplied by the `hex` and `base64` crates.
//!
//! The functions here are the boundary to those crates: their contracts are
//! taken on trust from the crates' sources, not proved.

use vstd::prelude::*;

verus! {

/// The upper-case character of a hexadecimal digit.
pub open spec fn upper_hex_char(d: int) -> char {
    if d == 0 {
        '0'
    } else if d == 1 {
        '1'
    } else if d == 2 {
        '2'
    } else if d == 3 {
        '3'
    } else if d == 4 {
        '4'
    } else if d == 5 {
        '5'
    } else if d == 6 {
        '6'
    } else if d == 7 {
        '7'
    } else if d == 8 {
        '8'
    } else if d == 9 {
        '9'
    } else if d == 10 {
        'A'
    } else if d == 11 {
        'B'
    } else if d == 12 {
        'C'
    } else if d == 13 {
        'D'
    } else if d == 14 {
        'E'
    } else {
        'F'
    }
}

/// Two upper-case hexadecimal digits per byte, high nibble first.
pub open spec fn upper_hex(bytes: Seq<u8>) -> Seq<char> {
    Seq::new(
        2 * bytes.len(),
        |i: int|
            if i % 2 == 0 {
                upper_hex_char(bytes[i / 2] as int / 16)
            } else {
                upper_hex_char(bytes[i / 2] as int % 16)
            },
    )
}

/// The padded base64 text of `bytes` in the standard alphabet, as
/// `base64::encode` produces it.
pub uninterp spec fn base64_standard_text(bytes: Seq<u8>) -> Seq<char>;

/// The unpadded base64 text of `bytes` in the URL-safe alphabet, as
/// `base64::encode_config` produces it for that configuration.
pub uninterp spec fn base64_url_text(bytes: Seq<u8>) -> Seq<char>;

/// The bytes that `base64::decode` reads from `text` (standard alphabet,
/// padding required), or `None` where it rejects the text.
pub uninterp spec fn base64_decoded(text: Seq<u8>) -> Option<Seq<u8>>;

/// Whether the base64 text of `len` bytes has a length that fits in `usize`.
pub open spec fn base64_encodable(len: nat) -> bool {
    len / 3 * 4 + 4 <= usize::MAX
}

/// Computes whether the base64 text of `len` bytes fits in `usize`.
pub fn fits_base64(len: usize) -> (r: bool)
    ensures
        r == base64_encodable(len as nat),
{
    len / 3 <= (usize::MAX - 4) / 4
}

/// `base64::DecodeError`, of which only its presence is read.
#[verifier::external_type_specification]
#[verifier::external_body]
pub struct ExDecodeError(base64::DecodeError);

/// Calls `hex::encode_upper`. Trusted: the result holds, for each byte in
/// order, its high and its low nibble as characters of `0123456789ABCDEF`.
/// The length bound keeps the crate's size computation from overflowing.
#[verifier::external_body]
pub(crate) fn hex_upper(bytes: &[u8]) -> (r: String)
    requires
        bytes@.len() * 2 < usize::MAX,
    ensures
        r@ == upper_hex(bytes@),
{
    hex::encode_upper(bytes)
}

/// Calls `base64::encode`. Trusted: the result depends on the bytes alone.
/// The length bound is the one under which the crate computes the output size
/// without overflow; beyond it the call panics.
#[verifier::external_body]
pub(crate) fn base64_standard(bytes: &[u8]) -> (r: String)
    requires
        base64_encodable(bytes@.len()),
    ensures
        r@ == base64_standard_text(bytes@),
{
    base64::encode(bytes)
}

/// Calls `base64::encode_config` with the URL-safe alphabet and no padding.
/// Trusted: the result depends on the bytes alone. The length bound is the one
/// under which the crate computes the output size without overflow.
#[verifier::external_body]
pub(crate) fn base64_url(bytes: &[u8]) -> (r: String)
    requires
        base64_encodable(bytes@.len()),
    ensures
        r@ == base64_url_text(bytes@),
{
    base64::encode_config(bytes, base64::Config::new(base64::CharacterSet::UrlSafe, false))
}

/// Calls `base64::decode`. Trusted: whether the text is accepted, and the
/// bytes read from it, depend on the text alone. The length bound keeps the
/// crate's chunk count from overflowing.
#[verifier::external_body]
pub(crate) fn base64_decode(text: &[u8]) -> (r: Result<Vec<u8>, base64::DecodeError>)
    requires
        text@.len() + 7 <= usize::MAX,
    ensures
        match r {
            Ok(bytes) => base64_decoded(text@) == Some(bytes@),
            Err(_) => base64_decoded(text@) is None,
        },
{
    base64::decode(text)
}

} // verus!
