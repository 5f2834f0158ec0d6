//! Identifiers: UUIDs as 128-bit numbers and their textual forms.

use vstd::arithmetic::power::pow;
use vstd::prelude::*;

verus! {

/// The lowercase hexadecimal digit of a number below sixteen.
pub open spec fn hex_digit(value: int) -> char {
    if value < 10 {
        (value + 0x30) as char
    } else {
        (value - 10 + 0x61) as char
    }
}

/// The 32 lowercase hexadecimal digits of an identifier, highest first.
pub open spec fn simple_chars(id: u128) -> Seq<char> {
    Seq::new(32, |k: int| hex_digit((id as int / pow(16, (31 - k) as nat)) % 16))
}

/// The digits of an identifier grouped 8-4-4-4-12 by hyphens.
pub open spec fn hyphenated_chars(id: u128) -> Seq<char> {
    let digits = simple_chars(id);
    digits.subrange(0, 8).push('-') + digits.subrange(8, 12).push('-') + digits.subrange(
        12,
        16,
    ).push('-') + digits.subrange(16, 20).push('-') + digits.subrange(20, 32)
}

/// Two identifiers with the same hexadecimal digits from some position upwards
/// agree in everything above that position.
proof fn lemma_leading_digits(first: u128, second: u128, position: nat)
    requires
        simple_chars(first) == simple_chars(second),
        position <= 32,
    ensures
        first as int / pow(16, position) == second as int / pow(16, position),
    decreases 32 - position,
{
    vstd::arithmetic::power::lemma_pow_positive(16, position);
    if position == 32 {
        reveal_with_fuel(pow, 33);
        assert(pow(16, 32) == 0x1_0000_0000_0000_0000_0000_0000_0000_0000);
        vstd::arithmetic::div_mod::lemma_basic_div(first as int, pow(16, 32));
        vstd::arithmetic::div_mod::lemma_basic_div(second as int, pow(16, 32));
    } else {
        lemma_leading_digits(first, second, position + 1);
        let unit = pow(16, position);
        let above = pow(16, position + 1);
        assert(above == unit * 16) by {
            vstd::arithmetic::power::lemma_pow_adds(16, position, 1);
            vstd::arithmetic::power::lemma_pow1(16);
        }
        vstd::arithmetic::div_mod::lemma_div_denominator(first as int, unit, 16);
        vstd::arithmetic::div_mod::lemma_div_denominator(second as int, unit, 16);
        assert(simple_chars(first)[31 - position] == simple_chars(second)[31 - position]);
        let a = first as int / unit;
        let b = second as int / unit;
        assert((31 - (31 - position)) as nat == position);
        assert(simple_chars(first)[31 - position] == hex_digit(a % 16));
        assert(simple_chars(second)[31 - position] == hex_digit(b % 16));
        assert(a % 16 == b % 16);
        assert(a / 16 == b / 16);
    }
}

/// Different identifiers have different textual forms.
pub proof fn lemma_hyphenated_injective(first: u128, second: u128)
    ensures
        hyphenated_chars(first) == hyphenated_chars(second) ==> first == second,
{
    if hyphenated_chars(first) == hyphenated_chars(second) {
        let a = simple_chars(first);
        let b = simple_chars(second);
        let left = hyphenated_chars(first);
        let right = hyphenated_chars(second);
        assert(left.len() == 36 && right.len() == 36);
        assert forall|k: int| 0 <= k < 32 implies a[k] == b[k] by {
            let shown = if k < 8 {
                k
            } else if k < 12 {
                k + 1
            } else if k < 16 {
                k + 2
            } else if k < 20 {
                k + 3
            } else {
                k + 4
            };
            assert(left[shown] == a[k]);
            assert(right[shown] == b[k]);
        }
        assert(a =~= b);
        lemma_leading_digits(first, second, 0);
        vstd::arithmetic::power::lemma_pow0(16);
        assert(first as int / 1 == first as int);
        assert(second as int / 1 == second as int);
    }
}

/// The identifier that a text names, if it is in one of the accepted forms.
pub uninterp spec fn parsed_id(text: Seq<char>) -> Option<u128>;

/// `Uuid`'s `Display` of the `uuid` crate writes the hyphenated lowercase
/// form of the big-endian number.
#[verifier::external_body]
pub(crate) fn hyphenated(id: u128) -> (text: String)
    ensures
        text@ == hyphenated_chars(id),
{
    uuid::Uuid::from_u128(id).to_string()
}

/// `Uuid::simple` of the `uuid` crate writes the 32 lowercase digits of the
/// big-endian number without separators.
#[verifier::external_body]
pub(crate) fn simple(id: u128) -> (text: String)
    ensures
        text@ == simple_chars(id),
{
    uuid::Uuid::from_u128(id).simple().to_string()
}

/// `Uuid::parse_str` of the `uuid` crate reads an identifier in any of its
/// textual forms; which texts those are is only named.
#[verifier::external_body]
pub(crate) fn parse_id(text: &str) -> (id: Option<u128>)
    ensures
        id == parsed_id(text@),
{
    uuid::Uuid::parse_str(text).ok().map(|id| id.as_u128())
}

/// An identifier read from storage, with the verdict of the identifier type
/// that it is about to enter.
#[derive(Clone, Copy, Debug, PartialEq, Eq, Structural)]
pub struct StoredId {
    /// The identifier as stored.
    pub value: u128,
    /// Whether the identifier type accepts it.
    pub accepted: bool,
}

/// A text read from storage or from the wire, with the verdict of the
/// identifier or name type that it is about to enter.
#[derive(Clone, Debug)]
pub struct Candidate {
    /// The text as received.
    pub text: String,
    /// Whether the type accepts it.
    pub accepted: bool,
}

} // verus!
