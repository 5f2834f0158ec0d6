//! Verification of what the identity service answers.
//!
//! Every security-relevant claim of a successful answer is checked against the
//! request it answers before any authority is built from it. A missing claim
//! fails closed; unknown claims are ignored.

pub mod canonical;
pub mod claims;
pub mod directory;
pub mod official;
pub mod resilience;

use vstd::prelude::*;
use vstd::utf8::encode_utf8;

use crate::error::AppError;
use crate::order::{bytes_precede, precede};
use crate::text::{byte_len, has_control_code, is_control_code, is_trimmed, same_text, trim};

verus! {

/// Longest identifier accepted from the wire, in bytes.
pub const MAX_IDENTIFIER_BYTES: usize = 255;

/// Longest resource accepted for a request binding, in bytes.
pub const MAX_RESOURCE_BYTES: usize = 2_048;

/// Failure of building the identity client.
#[derive(Clone, Copy, Debug)]
pub enum IamClientBuildError {
    /// A configured identifier or credential is not in its canonical form.
    InvalidIdentifier,
    /// No compatible contract could be negotiated.
    Handshake {
        /// What failed.
        cause: IamClientError,
    },
}

/// Failure of an online verification, safe to log.
#[derive(Clone, Copy, Debug)]
pub enum IamClientError {
    /// The credential was rejected or reported inactive.
    Rejected,
    /// A successful answer does not match the requested security boundary.
    BindingMismatch {
        /// The binding that failed.
        binding: &'static str,
    },
    /// The service could not be reached or did not accept this one.
    Unavailable {
        /// Failure class.
        reason: &'static str,
    },
    /// A successful answer is incomplete, oversized or malformed.
    InvalidResponse {
        /// Failure class.
        reason: &'static str,
    },
}

/// The exact downstream request that a delegation proof is bound to.
#[derive(Clone, Copy, Debug)]
pub struct OboRequestBinding<'a> {
    /// Canonical uppercase HTTP method.
    pub method: &'a str,
    /// Registered absolute endpoint path.
    pub path: &'a str,
    /// Lowercase hexadecimal SHA-256 digest of the exact body bytes.
    pub body_sha256: &'a str,
}

/// A failed binding.
pub fn binding_mismatch(binding: &'static str) -> (error: IamClientError)
    ensures
        error == (IamClientError::BindingMismatch { binding }),
{
    IamClientError::BindingMismatch { binding }
}

/// A malformed answer.
pub fn invalid_response(reason: &'static str) -> (error: IamClientError)
    ensures
        error == (IamClientError::InvalidResponse { reason }),
{
    IamClientError::InvalidResponse { reason }
}

/// A claim that a successful answer must carry.
pub fn required_wire<T>(value: Option<T>, field: &'static str) -> (claim: Result<T, IamClientError>)
    ensures
        value matches Some(inner) ==> claim == Ok::<T, IamClientError>(inner),
        value is None ==> claim == Err::<T, IamClientError>(
            IamClientError::InvalidResponse { reason: field },
        ),
{
    match value {
        Some(inner) => Ok(inner),
        None => Err(invalid_response(field)),
    }
}

/// The application failure that an identity failure becomes.
pub open spec fn app_error_of(error: IamClientError) -> AppError {
    match error {
        IamClientError::Rejected => AppError::Unauthenticated,
        IamClientError::BindingMismatch { .. } => AppError::Forbidden,
        IamClientError::Unavailable { .. }
        | IamClientError::InvalidResponse { .. } => AppError::DependencyUnavailable {
            dependency: "iam",
        },
    }
}

impl vstd::std_specs::convert::FromSpecImpl<IamClientError> for AppError {
    open spec fn obeys_from_spec() -> bool {
        true
    }

    open spec fn from_spec(error: IamClientError) -> AppError {
        app_error_of(error)
    }
}

impl From<IamClientError> for AppError {
    fn from(error: IamClientError) -> (mapped: AppError) {
        match error {
            IamClientError::Rejected => AppError::Unauthenticated,
            IamClientError::BindingMismatch { .. } => AppError::Forbidden,
            IamClientError::Unavailable { .. }
            | IamClientError::InvalidResponse { .. } => AppError::DependencyUnavailable {
                dependency: "iam",
            },
        }
    }
}

/// Whether a byte is an ASCII digit.
pub open spec fn is_digit(byte: u8) -> bool {
    0x30 <= byte <= 0x39
}

/// Whether a byte is a lowercase ASCII letter.
pub open spec fn is_lower(byte: u8) -> bool {
    0x61 <= byte <= 0x7a
}

/// Whether a byte is an uppercase ASCII letter.
pub open spec fn is_upper(byte: u8) -> bool {
    0x41 <= byte <= 0x5a
}

/// The number that decimal digits stand for.
pub open spec fn decimal(digits: Seq<u8>) -> nat
    decreases digits.len(),
{
    if digits.len() == 0 {
        0
    } else {
        decimal(digits.drop_last()) * 10 + (digits.last() - 0x30) as nat
    }
}

/// The major version that a version text names: `v` and one to nine digits
/// of which the first is not zero.
pub open spec fn api_version_of(text: Seq<char>) -> Option<nat> {
    let bytes = encode_utf8(text);
    if 2 <= bytes.len() <= 10 && bytes[0] == 0x76 && bytes[1] != 0x30 && (forall|k: int|
        1 <= k < bytes.len() ==> is_digit(#[trigger] bytes[k])) {
        Some(decimal(bytes.skip(1)))
    } else {
        None
    }
}

/// A number of at most nine decimal digits is below one billion.
proof fn lemma_decimal_bound(digits: Seq<u8>)
    requires
        digits.len() <= 9,
        forall|k: int| 0 <= k < digits.len() ==> is_digit(#[trigger] digits[k]),
    ensures
        decimal(digits) < vstd::arithmetic::power::pow(10, digits.len()),
        decimal(digits) < 1_000_000_000,
    decreases digits.len(),
{
    reveal_with_fuel(vstd::arithmetic::power::pow, 10);
    if digits.len() > 0 {
        lemma_decimal_bound(digits.drop_last());
    }
}

/// The major version that a version text names.
pub fn parse_api_version(value: &str) -> (version: Option<u32>)
    ensures
        match version {
            Some(number) => api_version_of(value@) == Some(number as nat),
            None => api_version_of(value@) is None,
        },
{
    let bytes: &[u8] = value.as_bytes();
    if bytes.len() < 2 || bytes.len() > 10 || bytes[0] != 0x76 || bytes[1] == 0x30 {
        return None;
    }
    let mut number: u32 = 0;
    let mut index: usize = 1;
    assert(bytes@.subrange(1, 1) =~= Seq::<u8>::empty());
    while index < bytes.len()
        invariant
            bytes@ == encode_utf8(value@),
            2 <= bytes@.len() <= 10,
            1 <= index <= bytes@.len(),
            forall|k: int| 1 <= k < index ==> is_digit(#[trigger] bytes@[k]),
            number == decimal(bytes@.subrange(1, index as int)),
        decreases bytes@.len() - index,
    {
        let byte: u8 = bytes[index];
        if byte < 0x30 || byte > 0x39 {
            assert(!is_digit(bytes@[index as int]));
            return None;
        }
        proof {
            let next = bytes@.subrange(1, index + 1);
            assert(next.drop_last() =~= bytes@.subrange(1, index as int));
            lemma_decimal_bound(next);
            lemma_decimal_bound(next.drop_last());
        }
        number = number * 10 + (byte - 0x30) as u32;
        index += 1;
    }
    assert(bytes@.subrange(1, bytes@.len() as int) =~= bytes@.skip(1));
    Some(number)
}

/// Whether a catalogue of versions is one to sixteen distinct versions, newest
/// first, with the supported one among them.
pub open spec fn version_catalog_ok(versions: Seq<String>) -> bool {
    &&& 1 <= versions.len() <= 16
    &&& forall|k: int| 0 <= k < versions.len() ==> api_version_of((#[trigger] versions[k])@) is Some
    &&& forall|i: int, j: int|
        0 <= i < j < versions.len() ==> api_version_of((#[trigger] versions[i])@)->0
            > api_version_of((#[trigger] versions[j])@)->0
    &&& exists|k: int| 0 <= k < versions.len() && (#[trigger] versions[k])@ == "v1"@
}

/// Whether a catalogue of versions is one to sixteen distinct versions, newest
/// first, with the supported one among them.
pub fn valid_server_version_catalog(versions: &Vec<String>) -> (valid: bool)
    ensures
        valid == version_catalog_ok(versions@),
{
    if versions.len() == 0 || versions.len() > 16 {
        return false;
    }
    let mut supported = false;
    let mut previous: u32 = 0;
    let mut index: usize = 0;
    while index < versions.len()
        invariant
            1 <= versions@.len() <= 16,
            index <= versions@.len(),
            forall|k: int|
                0 <= k < index ==> api_version_of((#[trigger] versions@[k])@) is Some,
            forall|i: int, j: int|
                0 <= i < j < index ==> api_version_of((#[trigger] versions@[i])@)->0
                    > api_version_of((#[trigger] versions@[j])@)->0,
            index > 0 ==> api_version_of(versions@[index - 1]@) == Some(previous as nat),
            supported == exists|k: int|
                0 <= k < index && (#[trigger] versions@[k])@ == "v1"@,
        decreases versions@.len() - index,
    {
        match parse_api_version(versions[index].as_str()) {
            None => {
                assert(api_version_of(versions@[index as int]@) is None);
                return false;
            },
            Some(number) => {
                if index > 0 && number >= previous {
                    assert(api_version_of(versions@[index - 1]@)->0 <= api_version_of(
                        versions@[index as int]@,
                    )->0);
                    return false;
                }
                previous = number;
            },
        }
        if same_text(versions[index].as_str(), "v1") {
            supported = true;
            assert(versions@[index as int]@ == "v1"@);
        }
        index += 1;
    }
    supported
}

/// Whether a byte may stand in a scope, at its start or later.
pub open spec fn scope_byte(byte: u8, first: bool) -> bool {
    is_lower(byte) || (!first && (is_digit(byte) || byte == 0x5f || byte == 0x2e || byte == 0x3a
        || byte == 0x2d))
}

/// Whether bytes form one scope: 2 to 128 of them, a letter first.
pub open spec fn scope_ok(bytes: Seq<u8>) -> bool {
    2 <= bytes.len() <= 128 && forall|k: int|
        0 <= k < bytes.len() ==> scope_byte(#[trigger] bytes[k], k == 0)
}

/// Whether a text is one scope.
pub fn valid_scope(scope: &str) -> (valid: bool)
    ensures
        valid == scope_ok(encode_utf8(scope@)),
{
    valid_scope_bytes(scope.as_bytes())
}

/// Whether bytes form one scope.
pub fn valid_scope_bytes(bytes: &[u8]) -> (valid: bool)
    ensures
        valid == scope_ok(bytes@),
{
    if bytes.len() < 2 || bytes.len() > 128 {
        return false;
    }
    let mut index: usize = 0;
    while index < bytes.len()
        invariant
            index <= bytes@.len(),
            forall|k: int| 0 <= k < index ==> scope_byte(#[trigger] bytes@[k], k == 0),
        decreases bytes@.len() - index,
    {
        let byte: u8 = bytes[index];
        let lower = 0x61 <= byte && byte <= 0x7a;
        let later = (0x30 <= byte && byte <= 0x39) || byte == 0x5f || byte == 0x2e || byte == 0x3a
            || byte == 0x2d;
        if !lower && (index == 0 || !later) {
            assert(!scope_byte(bytes@[index as int], index == 0));
            return false;
        }
        index += 1;
    }
    true
}

/// The pieces of a byte string between separators; there is always one more
/// piece than separators.
pub open spec fn pieces(bytes: Seq<u8>, separator: u8) -> Seq<Seq<u8>>
    decreases bytes.len(),
{
    if bytes.len() == 0 {
        seq![Seq::<u8>::empty()]
    } else {
        let before = pieces(bytes.drop_last(), separator);
        if bytes.last() == separator {
            before.push(Seq::<u8>::empty())
        } else {
            before.update(before.len() - 1, before.last().push(bytes.last()))
        }
    }
}

/// Whether scopes are in strictly ascending order.
pub open spec fn scopes_ascend(scopes: Seq<Seq<u8>>) -> bool {
    forall|k: int|
        0 < k < scopes.len() ==> bytes_precede(#[trigger] scopes[k - 1], #[trigger] scopes[k])
}

/// Whether a text is a canonical scope set: one to a hundred scopes in
/// strictly ascending order, separated by single spaces, in at most 2000
/// bytes.
pub open spec fn scope_set_ok(text: Seq<char>) -> bool {
    let bytes = encode_utf8(text);
    let scopes = pieces(bytes, 0x20);
    &&& 1 <= bytes.len() <= 2_000
    &&& scopes.len() <= 100
    &&& forall|k: int| 0 <= k < scopes.len() ==> scope_ok(#[trigger] scopes[k])
    &&& scopes_ascend(scopes)
}

/// Whether two positions mark off the given piece of a byte string.
pub open spec fn marked(bytes: Seq<u8>, piece: Seq<u8>, start: usize, end: usize) -> bool {
    &&& start <= end
    &&& end <= bytes.len()
    &&& piece == bytes.subrange(start as int, end as int)
}

/// Whether `starts` and `ends` mark off the given pieces of a byte string.
pub open spec fn marks(
    bytes: Seq<u8>,
    found: Seq<Seq<u8>>,
    starts: Seq<usize>,
    ends: Seq<usize>,
) -> bool {
    &&& starts.len() == found.len()
    &&& ends.len() == found.len()
    &&& forall|k: int|
        0 <= k < found.len() ==> marked(bytes, #[trigger] found[k], starts[k], ends[k])
}

/// Marks off the pieces of a byte string between separators.
fn split_pieces(bytes: &[u8], separator: u8) -> (bounds: (Vec<usize>, Vec<usize>))
    ensures
        marks(bytes@, pieces(bytes@, separator), bounds.0@, bounds.1@),
{
    let mut starts: Vec<usize> = Vec::new();
    let mut ends: Vec<usize> = Vec::new();
    let mut start: usize = 0;
    let mut index: usize = 0;
    assert(bytes@.take(0) =~= Seq::<u8>::empty());
    while index < bytes.len()
        invariant
            start <= index <= bytes@.len(),
            pieces(bytes@.take(index as int), separator).len() == starts@.len() + 1,
            marks(
                bytes@,
                pieces(bytes@.take(index as int), separator).drop_last(),
                starts@,
                ends@,
            ),
            pieces(bytes@.take(index as int), separator).last() == bytes@.subrange(
                start as int,
                index as int,
            ),
        decreases bytes@.len() - index,
    {
        let ghost known = pieces(bytes@.take(index as int), separator);
        let ghost next = pieces(bytes@.take(index + 1), separator);
        assert(bytes@.take(index + 1).drop_last() =~= bytes@.take(index as int));
        assert(bytes@.take(index + 1).last() == bytes@[index as int]);
        if bytes[index] == separator {
            starts.push(start);
            ends.push(index);
            assert(next.drop_last() =~= known);
            assert forall|k: int| 0 <= k < known.len() implies marked(
                bytes@,
                #[trigger] known[k],
                starts@[k],
                ends@[k],
            ) by {
                if k < known.len() - 1 {
                    assert(known.drop_last()[k] == known[k]);
                }
            }
            start = index + 1;
            assert(bytes@.subrange(start as int, start as int) =~= Seq::<u8>::empty());
        } else {
            assert(next.drop_last() =~= known.drop_last());
            assert(bytes@.subrange(start as int, index + 1) =~= bytes@.subrange(
                start as int,
                index as int,
            ).push(bytes@[index as int]));
        }
        index += 1;
    }
    let ghost known = pieces(bytes@, separator);
    assert(bytes@.take(bytes@.len() as int) =~= bytes@);
    starts.push(start);
    ends.push(index);
    assert forall|k: int| 0 <= k < known.len() implies marked(
        bytes@,
        #[trigger] known[k],
        starts@[k],
        ends@[k],
    ) by {
        if k < known.len() - 1 {
            assert(known.drop_last()[k] == known[k]);
        }
    }
    (starts, ends)
}

/// Whether a text is a canonical scope set.
pub fn valid_scope_set(value: &str) -> (valid: bool)
    ensures
        valid == scope_set_ok(value@),
{
    let bytes: &[u8] = value.as_bytes();
    if bytes.len() == 0 || bytes.len() > 2_000 {
        return false;
    }
    let (starts, ends) = split_pieces(bytes, 0x20);
    let ghost scopes = pieces(bytes@, 0x20);
    if starts.len() > 100 {
        return false;
    }
    let mut index: usize = 0;
    while index < starts.len()
        invariant
            bytes@ == encode_utf8(value@),
            scopes == pieces(bytes@, 0x20),
            index <= scopes.len(),
            marks(bytes@, scopes, starts@, ends@),
            forall|k: int| 0 <= k < index ==> scope_ok(#[trigger] scopes[k]),
            forall|k: int|
                0 < k < index ==> bytes_precede(#[trigger] scopes[k - 1], #[trigger] scopes[k]),
        decreases scopes.len() - index,
    {
        assert(marked(
            bytes@,
            scopes[index as int],
            starts@[index as int],
            ends@[index as int],
        ));
        let current: &[u8] = vstd::slice::slice_subrange(bytes, starts[index], ends[index]);
        if !valid_scope_bytes(current) {
            assert(!scope_ok(scopes[index as int]));
            return false;
        }
        if index > 0 {
            assert(marked(bytes@, scopes[index - 1], starts@[index - 1], ends@[index - 1]));
            let earlier: &[u8] = vstd::slice::slice_subrange(
                bytes,
                starts[index - 1],
                ends[index - 1],
            );
            if !precede(earlier, current) {
                assert(!bytes_precede(scopes[index - 1], scopes[index as int]));
                return false;
            }
        }
        index += 1;
    }
    true
}

/// Whether a byte may stand in the random part of a credential.
pub open spec fn secret_byte(byte: u8) -> bool {
    is_digit(byte) || is_lower(byte) || is_upper(byte) || byte == 0x5f || byte == 0x2d
}

/// Whether a text is the given prefix followed by 43 URL-safe characters.
pub open spec fn fixed_secret_ok(text: Seq<char>, prefix: Seq<char>) -> bool {
    let bytes = encode_utf8(text);
    let start = encode_utf8(prefix);
    &&& bytes.len() == start.len() + 43
    &&& bytes.take(start.len() as int) == start
    &&& forall|k: int| start.len() <= k < bytes.len() ==> secret_byte(#[trigger] bytes[k])
}

/// Whether a text is the given prefix followed by 43 URL-safe characters.
pub fn valid_fixed_iam_secret(value: &str, prefix: &str) -> (valid: bool)
    ensures
        valid == fixed_secret_ok(value@, prefix@),
{
    let bytes: &[u8] = value.as_bytes();
    let start: &[u8] = prefix.as_bytes();
    if bytes.len() < 43 || bytes.len() - 43 != start.len() {
        return false;
    }
    let mut index: usize = 0;
    while index < start.len()
        invariant
            bytes@ == encode_utf8(value@),
            start@ == encode_utf8(prefix@),
            bytes@.len() == start@.len() + 43,
            index <= start@.len(),
            forall|k: int| 0 <= k < index ==> bytes@[k] == start@[k],
        decreases start@.len() - index,
    {
        if bytes[index] != start[index] {
            assert(bytes@.take(start@.len() as int)[index as int] != start@[index as int]);
            return false;
        }
        index += 1;
    }
    assert(bytes@.take(start@.len() as int) =~= start@);
    while index < bytes.len()
        invariant
            bytes@ == encode_utf8(value@),
            start@ == encode_utf8(prefix@),
            bytes@.len() == start@.len() + 43,
            bytes@.take(start@.len() as int) == start@,
            start@.len() <= index <= bytes@.len(),
            forall|k: int| start@.len() <= k < index ==> secret_byte(#[trigger] bytes@[k]),
        decreases bytes@.len() - index,
    {
        let byte: u8 = bytes[index];
        let accepted = (0x30 <= byte && byte <= 0x39) || (0x61 <= byte && byte <= 0x7a) || (0x41
            <= byte && byte <= 0x5a) || byte == 0x5f || byte == 0x2d;
        if !accepted {
            assert(!secret_byte(bytes@[index as int]));
            return false;
        }
        index += 1;
    }
    true
}

/// Whether a text is exactly 32 ASCII letters and digits.
pub open spec fn environment_key_ok(text: Seq<char>) -> bool {
    let bytes = encode_utf8(text);
    bytes.len() == 32 && forall|k: int|
        0 <= k < 32 ==> is_digit(#[trigger] bytes[k]) || is_lower(bytes[k]) || is_upper(bytes[k])
}

/// Whether a text is exactly 32 ASCII letters and digits.
pub fn valid_environment_key(value: &str) -> (valid: bool)
    ensures
        valid == environment_key_ok(value@),
{
    let bytes: &[u8] = value.as_bytes();
    if bytes.len() != 32 {
        return false;
    }
    let mut index: usize = 0;
    while index < 32
        invariant
            bytes@ == encode_utf8(value@),
            bytes@.len() == 32,
            index <= 32,
            forall|k: int|
                0 <= k < index ==> is_digit(#[trigger] bytes@[k]) || is_lower(bytes@[k])
                    || is_upper(bytes@[k]),
        decreases 32 - index,
    {
        let byte: u8 = bytes[index];
        let accepted = (0x30 <= byte && byte <= 0x39) || (0x61 <= byte && byte <= 0x7a) || (0x41
            <= byte && byte <= 0x5a);
        if !accepted {
            assert(!(is_digit(bytes@[index as int]) || is_lower(bytes@[index as int]) || is_upper(
                bytes@[index as int],
            )));
            return false;
        }
        index += 1;
    }
    true
}

/// Whether a text is present, short enough, free of white space at its ends
/// and free of control codes.
pub open spec fn plain_text(text: Seq<char>, maximum_bytes: nat) -> bool {
    &&& text.len() > 0
    &&& byte_len(text) <= maximum_bytes
    &&& trim(text) == text
    &&& forall|k: int| 0 <= k < text.len() ==> !is_control_code(#[trigger] text[k])
}

/// Whether a text is present, short enough, trimmed and free of control codes.
fn is_plain_text(value: &str, maximum_bytes: usize) -> (answer: bool)
    ensures
        answer == plain_text(value@, maximum_bytes as nat),
{
    !value.is_empty() && value.as_bytes().len() <= maximum_bytes && is_trimmed(value)
        && !has_control_code(value)
}

/// Checks a text that is about to be sent as part of a binding.
pub fn validate_outbound_binding(
    binding: &'static str,
    value: &str,
    maximum_bytes: usize,
) -> (result: Result<(), IamClientError>)
    ensures
        plain_text(value@, maximum_bytes as nat) ==> result == Ok::<(), IamClientError>(()),
        !plain_text(value@, maximum_bytes as nat) ==> result == Err::<(), IamClientError>(
            IamClientError::BindingMismatch { binding },
        ),
{
    if is_plain_text(value, maximum_bytes) {
        Ok(())
    } else {
        Err(binding_mismatch(binding))
    }
}

/// Checks a text that arrived in an answer.
pub fn validate_wire_text(
    field: &'static str,
    value: &str,
    maximum_bytes: usize,
) -> (result: Result<(), IamClientError>)
    ensures
        plain_text(value@, maximum_bytes as nat) ==> result == Ok::<(), IamClientError>(()),
        !plain_text(value@, maximum_bytes as nat) ==> result == Err::<(), IamClientError>(
            IamClientError::InvalidResponse { reason: field },
        ),
{
    if is_plain_text(value, maximum_bytes) {
        Ok(())
    } else {
        Err(invalid_response(field))
    }
}

} // verus!
