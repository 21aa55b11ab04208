//! Integrity of a downloaded artifact: its SHA-256 digest, written in lower
//! case hex, must equal the one its publisher lists.
use vstd::prelude::*;
use crate::text::str_eq;

verus! {

/// The SHA-256 digest of `data`.
pub uninterp spec fn sha256_of(data: Seq<u8>) -> Seq<u8>;

/// Relies on sha2's `Sha256::digest`: the SHA-256 digest of the bytes, which
/// is 32 bytes long.
#[verifier::external_body]
fn sha256(data: &[u8]) -> (r: Vec<u8>)
    ensures
        r@ == sha256_of(data@),
        r@.len() == 32,
{
    <sha2::Sha256 as sha2::Digest>::digest(data).to_vec()
}

/// The lower case hex digit for `n`, below 16.
pub open spec fn hex_digit(n: u8) -> char {
    if n < 10 {
        (48 + n) as char
    } else {
        (87 + n) as char
    }
}

/// `bytes` in lower case hex, two digits a byte, high digit first.
pub open spec fn hex_of(bytes: Seq<u8>) -> Seq<char>
    decreases bytes.len(),
{
    if bytes.len() == 0 {
        Seq::empty()
    } else {
        hex_of(bytes.drop_last()).push(hex_digit(bytes.last() / 16)).push(hex_digit(bytes.last() % 16))
    }
}

/// The hex digit for `n`, below 16, as a string.
fn hex_digit_str(n: u8) -> (r: &'static str)
    requires
        n < 16,
    ensures
        r@ == seq![hex_digit(n)],
{
    let digits = "0123456789abcdef";
    proof {
        reveal_strlit("0123456789abcdef");
    }
    let r = digits.substring_char(n as usize, n as usize + 1);
    assert(r@ =~= seq![hex_digit(n)]);
    r
}

/// `bytes` in lower case hex.
pub fn to_hex(bytes: &[u8]) -> (r: String)
    ensures
        r@ == hex_of(bytes@),
{
    let mut r = String::new();
    let mut i: usize = 0;
    while i < bytes.len()
        invariant
            i <= bytes@.len(),
            r@ == hex_of(bytes@.take(i as int)),
        decreases bytes.len() - i,
    {
        let b = bytes[i];
        r.append(hex_digit_str(b / 16));
        r.append(hex_digit_str(b % 16));
        assert(bytes@.take(i as int + 1).drop_last() =~= bytes@.take(i as int));
        i = i + 1;
        assert(r@ =~= hex_of(bytes@.take(i as int)));
    }
    assert(bytes@.take(bytes@.len() as int) =~= bytes@);
    r
}

/// An artifact whose digest is not the published one.
#[derive(Debug, Clone)]
pub struct IntegrityError {
    /// The digest the publisher lists.
    pub expected: String,
    /// The digest of the bytes received.
    pub actual: String,
}

/// Holds the digest `actual` against `expected`: an error that carries both
/// where they differ.
pub fn check_digest(expected: &str, actual: &str) -> (r: Result<(), IntegrityError>)
    ensures
        r is Ok <==> actual@ == expected@,
        r is Err ==> r->Err_0.expected@ == expected@ && r->Err_0.actual@ == actual@,
{
    if str_eq(actual, expected) {
        Ok(())
    } else {
        Err(IntegrityError { expected: String::from_str(expected), actual: String::from_str(actual) })
    }
}

/// Holds `data` against the published hex digest `expected`.
pub fn verify_sha256(data: &[u8], expected: &str) -> (r: Result<(), IntegrityError>)
    ensures
        r is Ok <==> hex_of(sha256_of(data@)) == expected@,
        r is Err ==> r->Err_0.expected@ == expected@ && r->Err_0.actual@ == hex_of(sha256_of(data@)),
{
    let digest = sha256(data);
    let actual = to_hex(digest.as_slice());
    check_digest(expected, actual.as_str())
}

} // verus!
