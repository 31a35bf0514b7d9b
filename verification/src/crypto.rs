//! Digests and encodings that the service takes from outside crates:
//! SHA-256 (`sha2`), hexadecimal (`hex`), constant-time comparison
//! (`subtle`), base64 (`base64`), UTF-8 decoding (std) and Argon2 password
//! hashes (`argon2`).
use vstd::prelude::*;
use vstd::utf8::{decode_utf8, encode_utf8, valid_utf8};
use argon2::PasswordVerifier;
use base64::Engine;
use sha2::Digest;
use subtle::ConstantTimeEq;

verus! {

/// What `Sha256::digest` gives for `data`.
pub uninterp spec fn sha256_of(data: Seq<u8>) -> Seq<u8>;

/// SHA-256 of a byte string, through `sha2::Sha256::digest`. The contract
/// names the digest and states its length, 32 bytes, which is the output
/// size that `sha2` gives `Sha256` in its type.
#[verifier::external_body]
pub(crate) fn sha256(data: &[u8]) -> (r: Vec<u8>)
    ensures
        r@ == sha256_of(data@),
        r@.len() == 32,
{
    sha2::Sha256::digest(data).to_vec()
}

/// The lowercase hexadecimal digit of a value below 16.
pub open spec fn hex_digit(n: int) -> char {
    if n < 10 {
        (n + 48) as char
    } else {
        (n + 87) as char
    }
}

/// Each byte as two lowercase hexadecimal digits, high nibble first.
pub open spec fn hex_spec(b: Seq<u8>) -> Seq<char>
    decreases b.len(),
{
    if b.len() == 0 {
        Seq::empty()
    } else {
        hex_spec(b.drop_last()) + seq![hex_digit(b.last() as int / 16), hex_digit(b.last() as int % 16)]
    }
}

/// `hex::encode`: the contract states its whole output, two lowercase digits
/// per byte from the table `0123456789abcdef` of the crate's source.
#[verifier::external_body]
pub(crate) fn hex_encode(data: &[u8]) -> (r: String)
    ensures
        r@ == hex_spec(data@),
{
    hex::encode(data)
}

/// The value of one hexadecimal digit, either case, as `hex` reads it.
pub open spec fn hex_value(c: u8) -> Option<u8> {
    if 48 <= c <= 57 {
        Some((c - 48) as u8)
    } else if 97 <= c <= 102 {
        Some((c - 87) as u8)
    } else if 65 <= c <= 70 {
        Some((c - 55) as u8)
    } else {
        None
    }
}

/// The bytes that a hexadecimal text stands for: `None` for an odd length or
/// a character that is no hexadecimal digit.
pub open spec fn unhex_spec(s: Seq<u8>) -> Option<Seq<u8>>
    decreases s.len(),
{
    if s.len() % 2 != 0 {
        None
    } else if s.len() == 0 {
        Some(Seq::empty())
    } else {
        match (unhex_spec(s.take(s.len() - 2)), hex_value(s[s.len() - 2]), hex_value(
            s[s.len() - 1],
        )) {
            (Some(p), Some(h), Some(l)) => Some(p.push((h * 16 + l) as u8)),
            _ => None,
        }
    }
}

proof fn lemma_hex_digit(n: int)
    requires
        0 <= n < 16,
    ensures
        '\0' <= hex_digit(n) <= '\u{7f}',
        hex_value(hex_digit(n) as u8) == Some(n as u8),
{
}

proof fn lemma_hex_spec(b: Seq<u8>)
    ensures
        hex_spec(b).len() == 2 * b.len(),
        forall|k: int|
            0 <= k < b.len() ==> #[trigger] hex_spec(b)[2 * k] == hex_digit(b[k] as int / 16)
                && hex_spec(b)[2 * k + 1] == hex_digit(b[k] as int % 16),
    decreases b.len(),
{
    if b.len() > 0 {
        lemma_hex_spec(b.drop_last());
        assert forall|k: int| 0 <= k < b.len() implies #[trigger] hex_spec(b)[2 * k] == hex_digit(
            b[k] as int / 16,
        ) && hex_spec(b)[2 * k + 1] == hex_digit(b[k] as int % 16) by {
            if k < b.len() - 1 {
                assert(b.drop_last()[k] == b[k]);
            }
        }
    }
}

proof fn lemma_unhex_pairs(s: Seq<u8>, b: Seq<u8>)
    requires
        s.len() == 2 * b.len(),
        forall|k: int|
            0 <= k < b.len() ==> #[trigger] s[2 * k] == hex_digit(b[k] as int / 16) as u8 && s[2
                * k + 1] == hex_digit(b[k] as int % 16) as u8,
    ensures
        unhex_spec(s) == Some(b),
    decreases b.len(),
{
    if b.len() > 0 {
        let n = b.len() - 1;
        assert forall|k: int| 0 <= k < n implies #[trigger] s.take(s.len() - 2)[2 * k] == hex_digit(
            b.drop_last()[k] as int / 16,
        ) as u8 && s.take(s.len() - 2)[2 * k + 1] == hex_digit(b.drop_last()[k] as int % 16) as u8 by {
            assert(s[2 * k] == hex_digit(b[k] as int / 16) as u8);
        }
        lemma_unhex_pairs(s.take(s.len() - 2), b.drop_last());
        assert(s[2 * n] == hex_digit(b[n] as int / 16) as u8);
        lemma_hex_digit(b[n] as int / 16);
        lemma_hex_digit(b[n] as int % 16);
        assert(b.drop_last().push(b[n]) == b);
    } else {
        assert(b == Seq::<u8>::empty());
    }
}

/// Every character that `hex::encode` writes is a digit or a letter from `a`
/// to `f`.
pub proof fn hex_spec_digits(b: Seq<u8>)
    ensures
        forall|i: int|
            0 <= i < hex_spec(b).len() ==> ('0' <= #[trigger] hex_spec(b)[i] <= '9') || ('a'
                <= hex_spec(b)[i] <= 'f'),
{
    lemma_hex_spec(b);
    assert forall|i: int| 0 <= i < hex_spec(b).len() implies ('0' <= #[trigger] hex_spec(b)[i] <= '9')
        || ('a' <= hex_spec(b)[i] <= 'f') by {
        let k = i / 2;
        assert(hex_spec(b)[2 * k] == hex_digit(b[k] as int / 16));
    }
}

/// Decoding what `hex::encode` wrote gives the bytes back.
pub proof fn hex_round_trip(b: Seq<u8>)
    ensures
        unhex_spec(encode_utf8(hex_spec(b))) == Some(b),
{
    let h = hex_spec(b);
    lemma_hex_spec(b);
    assert forall|i: int| 0 <= i < h.len() implies '\0' <= #[trigger] h[i] <= '\u{7f}' by {
        let k = i / 2;
        assert(h[2 * k] == hex_digit(b[k] as int / 16));
        lemma_hex_digit(b[k] as int / 16);
        lemma_hex_digit(b[k] as int % 16);
    }
    vstd::utf8::is_ascii_chars_encode_utf8(h);
    let e = encode_utf8(h);
    assert forall|k: int| 0 <= k < b.len() implies #[trigger] e[2 * k] == hex_digit(b[k] as int / 16)
        as u8 && e[2 * k + 1] == hex_digit(b[k] as int % 16) as u8 by {
        assert(h[2 * k] == hex_digit(b[k] as int / 16));
        assert(e[2 * k] == h[2 * k] as u8);
        assert(e[2 * k + 1] == h[2 * k + 1] as u8);
    }
    lemma_unhex_pairs(e, b);
}

/// `hex::decode` of the UTF-8 bytes of `text`, an error turned into `None`.
/// The contract states the crate's whole rule: pairs of digits, either case,
/// and an error for an odd length or any other character.
#[verifier::external_body]
pub(crate) fn hex_decode(text: &str) -> (r: Option<Vec<u8>>)
    ensures
        r matches Some(v) ==> unhex_spec(encode_utf8(text@)) == Some(v@),
        r is None ==> unhex_spec(encode_utf8(text@)) is None,
{
    match hex::decode(text) {
        Ok(v) => Some(v),
        Err(_) => None,
    }
}

/// `ConstantTimeEq::ct_eq` of two byte slices, turned into a `bool`: true
/// exactly where the lengths and all bytes agree, as the crate's source
/// compares them.
#[verifier::external_body]
pub(crate) fn ct_eq(a: &[u8], b: &[u8]) -> (r: bool)
    ensures
        r == (a@ == b@),
{
    a.ct_eq(b).into()
}

/// What the standard base64 engine's `decode` gives for `text`, `None`
/// where it reports an error.
pub uninterp spec fn base64_decoded(text: Seq<u8>) -> Option<Seq<u8>>;

/// Standard base64 (with padding) decoded through `base64`'s
/// `general_purpose::STANDARD` engine, an error turned into `None`.
#[verifier::external_body]
pub(crate) fn base64_decode(text: &str) -> (r: Option<Vec<u8>>)
    ensures
        r matches Some(v) ==> base64_decoded(encode_utf8(text@)) == Some(v@),
        r is None ==> base64_decoded(encode_utf8(text@)) is None,
{
    match base64::engine::general_purpose::STANDARD.decode(text) {
        Ok(v) => Some(v),
        Err(_) => None,
    }
}

/// `String::from_utf8`: the text that valid UTF-8 bytes encode, `None` for
/// bytes that are not valid UTF-8, as std documents it.
#[verifier::external_body]
pub(crate) fn utf8_text(bytes: Vec<u8>) -> (r: Option<String>)
    ensures
        r matches Some(s) ==> valid_utf8(bytes@) && s@ == decode_utf8(bytes@),
        r is None ==> !valid_utf8(bytes@),
{
    match String::from_utf8(bytes) {
        Ok(s) => Some(s),
        Err(_) => None,
    }
}

/// Whether `PasswordHash::new(hash)` parses and
/// `Argon2::default().verify_password` then accepts the UTF-8 bytes of
/// `password` against it.
pub uninterp spec fn argon2_accepts(hash: Seq<char>, password: Seq<char>) -> bool;

/// Checks a password against a PHC-format Argon2 hash: a hash that does not
/// parse accepts nothing.
#[verifier::external_body]
pub(crate) fn argon2_verify(hash: &str, password: &str) -> (r: bool)
    ensures
        r == argon2_accepts(hash@, password@),
{
    match argon2::PasswordHash::new(hash) {
        Ok(parsed) => argon2::Argon2::default().verify_password(password.as_bytes(), &parsed).is_ok(),
        Err(_) => false,
    }
}

} // verus!
