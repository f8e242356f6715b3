use vstd::prelude::*;

use sha3::Digest;

verus! {

/// The lowercase hex character for a nibble value.
pub open spec fn hex_digit(d: u8) -> char
    recommends
        d < 16,
{
    if d == 0 {
        '0'
    } else if d == 1 {
        '1'
    } else if d == 2 {
        '2'
    } else if d == 3 {
        '3'
    } else if d == 4 {
        '4'
    } else if d == 5 {
        '5'
    } else if d == 6 {
        '6'
    } else if d == 7 {
        '7'
    } else if d == 8 {
        '8'
    } else if d == 9 {
        '9'
    } else if d == 10 {
        'a'
    } else if d == 11 {
        'b'
    } else if d == 12 {
        'c'
    } else if d == 13 {
        'd'
    } else if d == 14 {
        'e'
    } else {
        'f'
    }
}

/// The lowercase hex rendering of a byte sequence: two characters per byte,
/// high nibble first.
pub open spec fn hex_of(bytes: Seq<u8>) -> Seq<char> {
    Seq::new(
        bytes.len() * 2,
        |i: int|
            if i % 2 == 0 {
                hex_digit(bytes[i / 2] >> 4)
            } else {
                hex_digit(bytes[i / 2] & 0x0f)
            },
    )
}

/// The SHA3-512 digest of the UTF-8 bytes of a character sequence. The digest
/// is a pure function of the input alone; its value is not axiomatized here.
pub uninterp spec fn sha3_512_of(input: Seq<char>) -> Seq<u8>;

/// Relies on sha3::Sha3_512 (through the digest crate's Digest trait): a
/// pure, deterministic hash of the input bytes with a fixed 64-byte output.
#[verifier::external_body]
fn sha3_512(input: &str) -> (r: Vec<u8>)
    ensures
        r@ == sha3_512_of(input@),
        r@.len() == 64,
{
    let digest = sha3::Sha3_512::digest(input.as_bytes());
    digest.to_vec()
}

/// Relies on hex::encode: each byte becomes two lowercase hex digits, high
/// nibble first, from the table "0123456789abcdef".
#[verifier::external_body]
fn to_hex(bytes: &Vec<u8>) -> (r: String)
    ensures
        r@ == hex_of(bytes@),
{
    hex::encode(bytes.as_slice())
}

/// The lowercase hex rendering of the SHA3-512 digest of `input`: the textual
/// form a candidate's digest is compared against.
pub fn digest_hex(input: &str) -> (r: String)
    ensures
        r@ == hex_of(sha3_512_of(input@)),
        r@.len() == 128,
{
    let digest = sha3_512(input);
    to_hex(&digest)
}

} // verus!
