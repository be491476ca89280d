//! Digests of bytes, and their hexadecimal form.

use crate::text::{all_ascii, ascii_str, ascii_text};
use vstd::prelude::*;

verus! {

/// The SHA-256 digest of the bytes, as the `sha2` crate computes it.
pub uninterp spec fn sha256(data: Seq<u8>) -> Seq<u8>;

/// The SHA-256 digest of the bytes.
///
/// Wraps `Sha256::digest` of the `sha2` crate, the digest of all the data at once.
/// The result is named; it has 32 bytes.
#[verifier::external_body]
pub(crate) fn sha256_digest(data: &[u8]) -> (digest: [u8; 32])
    ensures
        digest@ == sha256(data@),
{
    <sha2::Sha256 as sha2::Digest>::digest(data).into()
}

/// The upper-case hexadecimal digit of a number below sixteen, as an ASCII byte.
pub open spec fn hex_digit(n: int) -> u8 {
    if n < 10 {
        (48 + n) as u8
    } else {
        (55 + n) as u8
    }
}

/// The bytes in upper-case hexadecimal, two digits a byte, as ASCII bytes.
pub open spec fn hex_upper(bytes: Seq<u8>) -> Seq<u8> {
    Seq::new(
        2 * bytes.len(),
        |i: int|
            if i % 2 == 0 {
                hex_digit(bytes[i / 2] as int / 16)
            } else {
                hex_digit(bytes[i / 2] as int % 16)
            },
    )
}

fn hex_digit_of(n: u8) -> (d: u8)
    requires
        n < 16,
    ensures
        d == hex_digit(n as int),
        d < 128,
        d >= 32,
{
    if n < 10 {
        48 + n
    } else {
        55 + n
    }
}

/// The bytes in upper-case hexadecimal, as ASCII bytes.
pub fn hex_upper_bytes(bytes: &[u8]) -> (r: Vec<u8>)
    requires
        2 * bytes@.len() <= usize::MAX,
    ensures
        r@ == hex_upper(bytes@),
        all_ascii(r@),
        forall|i: int| 0 <= i < r@.len() ==> 48 <= #[trigger] r@[i] <= 70,
{
    let mut out: Vec<u8> = Vec::new();
    let mut i: usize = 0;
    while i < bytes.len()
        invariant
            0 <= i <= bytes@.len(),
            2 * bytes@.len() <= usize::MAX,
            out@.len() == 2 * i,
            forall|j: int| 0 <= j < out@.len() ==> #[trigger] out@[j] == hex_upper(bytes@)[j],
            forall|j: int| 0 <= j < out@.len() ==> 48 <= #[trigger] out@[j] <= 70,
        decreases bytes@.len() - i,
    {
        let b = bytes[i];
        out.push(hex_digit_of(b / 16));
        out.push(hex_digit_of(b % 16));
        i = i + 1;
    }
    assert(out@ =~= hex_upper(bytes@));
    out
}

/// The bytes in upper-case hexadecimal, as text.
pub fn hex_upper_string(bytes: &[u8]) -> (r: String)
    requires
        2 * bytes@.len() <= usize::MAX,
    ensures
        r@ == ascii_text(hex_upper(bytes@)),
{
    let hex = hex_upper_bytes(bytes);
    ascii_str(hex.as_slice()).to_owned()
}

} // verus!
