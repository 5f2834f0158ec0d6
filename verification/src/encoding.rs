//! Binary-to-text encodings, digests and constant-time comparison.

use base64::Engine;
use sha2::Digest;
use subtle::ConstantTimeEq;
use vstd::prelude::*;

use crate::ids::hex_digit;

verus! {

/// The SHA-256 digest of a byte string.
pub uninterp spec fn sha256_of(bytes: Seq<u8>) -> Seq<u8>;

/// The padded standard base64 text of a byte string.
pub uninterp spec fn standard_base64(bytes: Seq<u8>) -> Seq<char>;

/// The unpadded URL-safe base64 text of a byte string.
pub uninterp spec fn url_base64(bytes: Seq<u8>) -> Seq<char>;

/// The byte string that an unpadded URL-safe base64 text stands for.
pub uninterp spec fn url_base64_decoded(text: Seq<char>) -> Option<Seq<u8>>;

/// The lowercase hexadecimal text of a byte string, two digits per byte.
pub open spec fn hex_of(bytes: Seq<u8>) -> Seq<char> {
    Seq::new(
        2 * bytes.len(),
        |k: int|
            if k % 2 == 0 {
                hex_digit(bytes[k / 2] as int / 16)
            } else {
                hex_digit(bytes[k / 2] as int % 16)
            },
    )
}

/// `Sha256::digest` of the `sha2` crate; the digest is 32 bytes long, and
/// which bytes they are is only named.
#[verifier::external_body]
pub(crate) fn sha256(bytes: &[u8]) -> (digest: [u8; 32])
    ensures
        digest@ == sha256_of(bytes@),
{
    sha2::Sha256::digest(bytes).into()
}

/// `Engine::encode` of the `base64` crate with the padded standard alphabet;
/// the text is only named.
#[verifier::external_body]
pub(crate) fn encode_standard(digest: &[u8; 32]) -> (text: String)
    ensures
        text@ == standard_base64(digest@),
{
    base64::engine::general_purpose::STANDARD.encode(digest)
}

/// Longest byte string whose base64 text still fits into an allocation.
pub const MAX_ENCODED_BYTES: usize = usize::MAX / 8 * 3;

/// `Engine::encode` of the `base64` crate with the unpadded URL-safe
/// alphabet. The text is only named; decoding it gives the bytes back.
#[verifier::external_body]
pub(crate) fn encode_url(bytes: &Vec<u8>) -> (text: String)
    requires
        bytes@.len() <= MAX_ENCODED_BYTES,
    ensures
        text@ == url_base64(bytes@),
        url_base64_decoded(text@) == Some(bytes@),
{
    base64::engine::general_purpose::URL_SAFE_NO_PAD.encode(bytes)
}

/// The view of optional bytes.
pub open spec fn optional_bytes(bytes: Option<Vec<u8>>) -> Option<Seq<u8>> {
    match bytes {
        Some(value) => Some(value@),
        None => None,
    }
}

/// `Engine::decode` of the `base64` crate with the unpadded URL-safe
/// alphabet; which texts decode, and to what, is only named.
#[verifier::external_body]
pub(crate) fn decode_url(text: &str) -> (bytes: Option<Vec<u8>>)
    ensures
        optional_bytes(bytes) == url_base64_decoded(text@),
{
    base64::engine::general_purpose::URL_SAFE_NO_PAD.decode(text).ok()
}

/// `hex::encode` of the `hex` crate writes two lowercase digits per byte,
/// the high half first.
#[verifier::external_body]
pub(crate) fn encode_hex(bytes: &[u8; 32]) -> (text: String)
    ensures
        text@ == hex_of(bytes@),
{
    hex::encode(bytes)
}

/// `ConstantTimeEq::ct_eq` of the `subtle` crate on byte slices: equal
/// lengths and equal bytes.
#[verifier::external_body]
pub(crate) fn constant_time_eq(left: &[u8], right: &[u8]) -> (same: bool)
    ensures
        same == (left@ == right@),
{
    left.ct_eq(right).into()
}

/// The lowest bytes of a number, highest first.
pub open spec fn big_endian_of(value: nat, count: nat) -> Seq<u8>
    decreases count,
{
    if count == 0 {
        Seq::empty()
    } else {
        big_endian_of(value / 256, (count - 1) as nat).push((value % 256) as u8)
    }
}

/// The number that bytes stand for, highest first.
pub open spec fn number_of(bytes: Seq<u8>) -> nat
    decreases bytes.len(),
{
    if bytes.len() == 0 {
        0
    } else {
        number_of(bytes.drop_last()) * 256 + bytes.last() as nat
    }
}

/// Appends the lowest bytes of a number to a byte string, highest first.
pub fn push_big_endian(bytes: &mut Vec<u8>, value: u128, count: usize)
    ensures
        final(bytes)@ == old(bytes)@ + big_endian_of(value as nat, count as nat),
    decreases count,
{
    if count > 0 {
        push_big_endian(bytes, value / 256, count - 1);
        bytes.push((value % 256) as u8);
        assert(bytes@ =~= old(bytes)@ + big_endian_of(value as nat, count as nat));
    } else {
        assert(bytes@ =~= old(bytes)@ + big_endian_of(value as nat, 0));
    }
}

/// The signed number whose two's complement the first eight bytes are, highest
/// first.
pub open spec fn signed_number_of(bytes: Seq<u8>) -> int {
    let number = number_of(bytes.take(8)) as int;
    if number <= i64::MAX {
        number
    } else {
        number - 0x1_0000_0000_0000_0000
    }
}

/// The signed number whose two's complement the first eight bytes of a digest
/// are, highest first.
pub fn leading_signed_number(digest: &[u8; 32]) -> (number: i64)
    ensures
        number == signed_number_of(digest@),
{
    let mut value: u64 = 0;
    let mut index: usize = 0;
    let ghost mut limit: int = 1;
    proof {
        vstd::arithmetic::power::lemma_pow0(256);
        assert(digest@.take(0) =~= Seq::<u8>::empty());
    }
    while index < 8
        invariant
            index <= 8,
            value == number_of(digest@.take(index as int)),
            limit == vstd::arithmetic::power::pow(256, index as nat),
            value < limit,
        decreases 8 - index,
    {
        proof {
            vstd::arithmetic::power::lemma_pow1(256);
            reveal_with_fuel(vstd::arithmetic::power::pow, 9);
            assert(limit <= 0x1_00_0000_0000_0000) by {
                assert(index <= 7);
                vstd::arithmetic::power::lemma_pow_increases(256, index as nat, 7);
                assert(vstd::arithmetic::power::pow(256, 7) == 0x1_00_0000_0000_0000);
            }
            assert(digest@.take(index + 1).drop_last() =~= digest@.take(index as int));
            assert(digest@.take(index + 1).last() == digest@[index as int]);
        }
        value = value * 256 + digest[index] as u64;
        proof {
            limit = limit * 256;
            assert(limit == vstd::arithmetic::power::pow(256, (index + 1) as nat));
        }
        index += 1;
    }
    if value <= i64::MAX as u64 {
        value as i64
    } else {
        let complement: u64 = u64::MAX - value;
        -(complement as i64) - 1
    }
}

} // verus!
