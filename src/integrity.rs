//! Integrity check of the fetched tool: the SHA-256 digest of its bytes is
//! compared with a trusted hex-encoded reference.

use vstd::prelude::*;

verus! {

#[verifier::external_type_specification]
#[verifier::external_body]
pub struct ExFromHexError(hex::FromHexError);

/// The SHA-256 digest of `bytes`.
pub uninterp spec fn sha256_of(bytes: Seq<u8>) -> Seq<u8>;

/// Relies on `sha2::Sha256::digest` (through `sha2::Digest`): the 32-byte
/// SHA-256 digest of the input, which depends on the input alone.
#[verifier::external_body]
fn sha256(bytes: &[u8]) -> (r: Vec<u8>)
    ensures
        r@ == sha256_of(bytes@),
        r@.len() == 32,
{
    <sha2::Sha256 as sha2::Digest>::digest(bytes).to_vec()
}

/// Whether `c` is one of `0-9`, `a-f`, `A-F`.
pub open spec fn is_hex_digit(c: char) -> bool {
    ('0' <= c && c <= '9') || ('a' <= c && c <= 'f') || ('A' <= c && c <= 'F')
}

/// The value of a hex digit.
pub open spec fn hex_digit_value(c: char) -> int {
    if '0' <= c && c <= '9' {
        c as int - '0' as int
    } else if 'a' <= c && c <= 'f' {
        c as int - 'a' as int + 10
    } else {
        c as int - 'A' as int + 10
    }
}

/// Whether `s` is a well-formed hex string: an even number of hex digits.
pub open spec fn is_hex_string(s: Seq<char>) -> bool {
    s.len() % 2 == 0 && forall|i: int| 0 <= i < s.len() ==> is_hex_digit(#[trigger] s[i])
}

/// The bytes that a well-formed hex string spells, two digits each, the
/// high nibble first.
pub open spec fn hex_bytes(s: Seq<char>) -> Seq<u8> {
    Seq::new(
        s.len() / 2,
        |i: int| (hex_digit_value(s[2 * i]) * 16 + hex_digit_value(s[2 * i + 1])) as u8,
    )
}

/// Relies on `hex::decode`: it fails exactly when the input has an odd
/// length or holds a byte that is not a hex digit, and otherwise returns
/// one byte per pair of digits (upper and lower case alike).
#[verifier::external_body]
fn hex_decode(s: &str) -> (r: Result<Vec<u8>, hex::FromHexError>)
    ensures
        r is Ok <==> is_hex_string(s@),
        r matches Ok(v) ==> v@ == hex_bytes(s@),
{
    hex::decode(s)
}

/// Why a fetched file is not trusted.
#[derive(Debug, Clone, Copy, PartialEq, Eq, Structural)]
pub enum IntegrityError {
    /// The computed digest differs from the reference (or the reference is
    /// not a hex string at all).
    IntegrityMismatch,
}

/// Whether `computed` is exactly the digest that `reference` spells in hex.
pub open spec fn digest_matches(computed: Seq<u8>, reference: Seq<char>) -> bool {
    is_hex_string(reference) && hex_bytes(reference) == computed
}

/// Compares a computed digest with the hex-encoded reference, byte for byte.
pub fn check_digest(computed: &[u8], reference_hex: &str) -> (r: Result<(), IntegrityError>)
    ensures
        r is Ok <==> digest_matches(computed@, reference_hex@),
        r is Err ==> r == Err::<(), IntegrityError>(IntegrityError::IntegrityMismatch),
{
    match hex_decode(reference_hex) {
        Err(_) => Err(IntegrityError::IntegrityMismatch),
        Ok(expected) => {
            if expected.len() != computed.len() {
                return Err(IntegrityError::IntegrityMismatch);
            }
            let mut i: usize = 0;
            while i < computed.len()
                invariant
                    expected@ == hex_bytes(reference_hex@),
                    expected@.len() == computed@.len(),
                    0 <= i <= computed@.len(),
                    forall|k: int| 0 <= k < i ==> expected@[k] == computed@[k],
                decreases computed@.len() - i,
            {
                if expected[i] != computed[i] {
                    assert(expected@[i as int] != computed@[i as int]);
                    return Err(IntegrityError::IntegrityMismatch);
                }
                i = i + 1;
            }
            assert(expected@ =~= computed@);
            Ok(())
        },
    }
}

/// Hashes the file's bytes with SHA-256 and compares the digest with the
/// hex-encoded reference.
pub fn check_integrity(file_bytes: &[u8], reference_hex: &str) -> (r: Result<
    (),
    IntegrityError,
>)
    ensures
        r is Ok <==> digest_matches(sha256_of(file_bytes@), reference_hex@),
        r is Err ==> r == Err::<(), IntegrityError>(IntegrityError::IntegrityMismatch),
{
    let digest = sha256(file_bytes);
    check_digest(digest.as_slice(), reference_hex)
}

} // verus!
