//! Refresh tokens: random opaque strings, stored only as SHA-256 digests.
use vstd::prelude::*;
use vstd::string::StringSliceAdditionalSpecFns;

use argon2::password_hash::rand_core::RngCore;
use base64::Engine;
use sha2::Digest;

use crate::error::CoreError;

verus! {

/// Number of random bytes in a refresh token.
pub const REFRESH_TOKEN_BYTES: usize = 64;

/// The SHA-256 digest of `data`.
pub uninterp spec fn sha256(data: Seq<u8>) -> Seq<u8>;

/// `data` in unpadded base64 with the URL-safe alphabet (`-` and `_`).
pub uninterp spec fn base64_url_no_pad(data: Seq<u8>) -> Seq<char>;

/// The lowercase hexadecimal digit of `n` (0 to 15).
pub open spec fn hex_digit(n: int) -> char {
    if n < 10 {
        (0x30 + n) as char
    } else {
        (0x61 + n - 10) as char
    }
}

/// Lowercase hexadecimal of `data`: two digits per byte, high nibble first.
pub open spec fn hex_lower(data: Seq<u8>) -> Seq<char>
    decreases data.len(),
{
    if data.len() == 0 {
        Seq::empty()
    } else {
        hex_lower(data.drop_last()) + seq![
            hex_digit(data.last() as int / 16),
            hex_digit(data.last() as int % 16),
        ]
    }
}

/// Computes `Sha256::digest` of `data`. The contract claims the digest's
/// documented length (32 bytes) and that it depends on `data` alone (named
/// `sha256`).
#[verifier::external_body]
fn sha256_digest(data: &[u8]) -> (r: Vec<u8>)
    ensures
        r@ == sha256(data@),
        r@.len() == 32,
{
    sha2::Sha256::digest(data).to_vec()
}

/// Calls `hex::encode`, which writes each byte as two lowercase hexadecimal
/// digits, high nibble first; the contract states exactly that.
#[verifier::external_body]
fn hex_encode(data: &[u8]) -> (r: String)
    ensures
        r@ == hex_lower(data@),
{
    hex::encode(data)
}

/// Fills `buf` from the operating system's random number generator with
/// `OsRng::try_fill_bytes`, which reports (rather than panics on) a failure of
/// the operating system's source; the error becomes its text. Only that the
/// length of `buf` stays is claimed: the bytes and whether the call succeeds
/// rest on the operating system.
#[verifier::external_body]
pub(crate) fn fill_random(buf: &mut Vec<u8>) -> (r: Result<(), String>)
    ensures
        final(buf)@.len() == old(buf)@.len(),
{
    argon2::password_hash::rand_core::OsRng.try_fill_bytes(buf.as_mut_slice()).map_err(|e| e.to_string())
}

/// Encodes `data` with `base64::engine::general_purpose::URL_SAFE_NO_PAD`. The
/// contract claims the length that `base64::encoded_len` gives without
/// padding (four characters per three bytes, rounded up) and that the text
/// depends on `data` alone (named `base64_url_no_pad`).
#[verifier::external_body]
fn base64_url_encode(data: &[u8]) -> (r: String)
    requires
        data@.len() <= usize::MAX / 4,
    ensures
        r@ == base64_url_no_pad(data@),
        r@.len() == (4 * data@.len() + 2) / 3,
{
    base64::engine::general_purpose::URL_SAFE_NO_PAD.encode(data)
}

/// A fresh refresh token: 64 random bytes in unpadded URL-safe base64
/// (86 characters). When the operating system cannot supply random bytes the
/// failure is reported as an internal server error with its text.
pub fn generate_refresh_token() -> (r: Result<String, CoreError>)
    ensures
        r matches Ok(t) ==> t@.len() == 86 && exists|bytes: Seq<u8>|
            bytes.len() == REFRESH_TOKEN_BYTES && t@ == base64_url_no_pad(bytes),
        r matches Err(e) ==> e is InternalServerError,
{
    let mut bytes: Vec<u8> = vec![0u8; REFRESH_TOKEN_BYTES];
    match fill_random(&mut bytes) {
        Ok(()) => Ok(base64_url_encode(bytes.as_slice())),
        Err(e) => Err(CoreError::InternalServerError(e)),
    }
}

proof fn lemma_hex_lower(data: Seq<u8>)
    ensures
        hex_lower(data).len() == 2 * data.len(),
        forall|i: int|
            0 <= i < hex_lower(data).len() ==> {
                let c = #[trigger] hex_lower(data)[i];
                ('0' <= c <= '9') || ('a' <= c <= 'f')
            },
    decreases data.len(),
{
    if data.len() > 0 {
        let p = data.drop_last();
        lemma_hex_lower(p);
        let hi = data.last() as int / 16;
        let lo = data.last() as int % 16;
        let h = hex_lower(data);
        assert(h == hex_lower(p) + seq![hex_digit(hi), hex_digit(lo)]);
        assert forall|i: int| 0 <= i < h.len() implies {
            let c = #[trigger] h[i];
            ('0' <= c <= '9') || ('a' <= c <= 'f')
        } by {
            if i < hex_lower(p).len() {
                assert(h[i] == hex_lower(p)[i]);
            } else if i == hex_lower(p).len() {
                assert(h[i] == hex_digit(hi));
            } else {
                assert(h[i] == hex_digit(lo));
            }
        }
    }
}

/// The stored form of a refresh token: the lowercase hexadecimal SHA-256
/// digest of its UTF-8 bytes (64 hexadecimal digits).
pub fn hash_refresh_token(token: &str) -> (r: String)
    ensures
        r@ == hex_lower(sha256(token.spec_bytes())),
        r@.len() == 64,
        forall|i: int| 0 <= i < r@.len() ==> ('0' <= #[trigger] r@[i] <= '9') || ('a' <= r@[i] <= 'f'),
{
    let digest = sha256_digest(token.as_bytes());
    let r = hex_encode(digest.as_slice());
    proof {
        lemma_hex_lower(digest@);
    }
    r
}

/// The two hexadecimal digits at `2i` and `2i + 1` of `h` are lowercase
/// (`0`-`9` for 0 to 9, `a`-`f` for 10 to 15) and give byte `i` of `data` as
/// `16 * high + low`.
pub open spec fn hex_pair_ok(h: Seq<char>, data: Seq<u8>, i: int) -> bool {
    let a = h[2 * i] as int;
    let b = h[2 * i + 1] as int;
    let av = if 0x30 <= a <= 0x39 { a - 0x30 } else { a - 0x61 + 10 };
    let bv = if 0x30 <= b <= 0x39 { b - 0x30 } else { b - 0x61 + 10 };
    &&& (0x30 <= a <= 0x39 || 0x61 <= a <= 0x66)
    &&& (0x30 <= b <= 0x39 || 0x61 <= b <= 0x66)
    &&& 16 * av + bv == data[i] as int
}

/// Lowercase hexadecimal writes each byte as two digits, high nibble first:
/// the text is twice as long as the bytes, and the digits at `2i` and `2i + 1`
/// (`0`-`9` standing for 0 to 9, `a`-`f` for 10 to 15) give back byte `i` as
/// `16 * high + low`. So the stored hash of a refresh token gives back the
/// 32 bytes of its SHA-256 digest.
pub proof fn lemma_hex_lower_digits(data: Seq<u8>)
    ensures
        hex_lower(data).len() == 2 * data.len(),
        forall|i: int| 0 <= i < data.len() ==> #[trigger] hex_pair_ok(hex_lower(data), data, i),
    decreases data.len(),
{
    if data.len() > 0 {
        let p = data.drop_last();
        lemma_hex_lower_digits(p);
        let hi = data.last() as int / 16;
        let lo = data.last() as int % 16;
        let h = hex_lower(data);
        assert(h == hex_lower(p) + seq![hex_digit(hi), hex_digit(lo)]);
        assert forall|i: int| 0 <= i < data.len() implies #[trigger] hex_pair_ok(h, data, i) by {
            if i < p.len() {
                assert(h[2 * i] == hex_lower(p)[2 * i]);
                assert(h[2 * i + 1] == hex_lower(p)[2 * i + 1]);
                assert(data[i] == p[i]);
                assert(hex_pair_ok(hex_lower(p), p, i));
            } else {
                assert(h[2 * i] == hex_digit(hi));
                assert(h[2 * i + 1] == hex_digit(lo));
                assert(data[i] == data.last());
                assert(0 <= hi < 16 && 0 <= lo < 16 && 16 * hi + lo == data.last() as int);
            }
        }
    }
}

} // verus!
