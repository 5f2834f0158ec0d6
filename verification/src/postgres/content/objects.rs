//! Stored objects: their keys, their checksums, and what is asked of them
//! before they are published.

use vstd::prelude::*;

use crate::error::{conflict, internal_error, internal_integrity, AppError};
use crate::ids::{hyphenated, hyphenated_chars, lemma_hyphenated_injective, Candidate};
use crate::postgres::content::bad_value;
use crate::text::same_text;

verus! {

/// Digest that a checksum is made with.
#[derive(Clone, Copy, Debug, PartialEq, Eq, Structural)]
pub enum ObjectChecksumAlgorithm {
    /// SHA-256.
    Sha256,
}

/// What a checksum is made over.
#[derive(Clone, Copy, Debug, PartialEq, Eq, Structural)]
pub enum ObjectChecksumType {
    /// The whole object.
    FullObject,
    /// The checksums of its parts.
    Composite,
}

/// Checksum of a stored object.
#[derive(Clone, Debug)]
pub struct ObjectChecksum {
    /// Digest.
    pub algorithm: ObjectChecksumAlgorithm,
    /// What it is made over.
    pub kind: ObjectChecksumType,
    /// Encoded value.
    pub value: String,
}

impl ObjectChecksum {
    /// A copy of the checksum.
    pub fn duplicate(&self) -> (copy: ObjectChecksum)
        ensures
            copy == *self,
    {
        ObjectChecksum { algorithm: self.algorithm, kind: self.kind, value: self.value.clone() }
    }
}

/// An object as the store reports it.
#[derive(Clone, Debug)]
pub struct StoredObject {
    /// Key.
    pub key: String,
    /// Entity tag.
    pub etag: Option<String>,
    /// Version that the store gave it.
    pub provider_version_id: Option<String>,
    /// Size in bytes.
    pub size: u64,
    /// Checksum, where the store reports one.
    pub checksum: Option<ObjectChecksum>,
}

/// The stored name of a checksum's digest.
pub fn checksum_algorithm(checksum: &ObjectChecksum) -> (name: &'static str)
    ensures
        name@ == "sha256"@,
{
    match checksum.algorithm {
        ObjectChecksumAlgorithm::Sha256 => "sha256",
    }
}

/// The stored name of what a checksum is made over.
pub open spec fn checksum_type_word(kind: ObjectChecksumType) -> Seq<char> {
    match kind {
        ObjectChecksumType::FullObject => "full_object"@,
        ObjectChecksumType::Composite => "composite"@,
    }
}

/// The stored name of what a checksum is made over.
pub fn checksum_type(checksum: &ObjectChecksum) -> (name: &'static str)
    ensures
        name@ == checksum_type_word(checksum.kind),
{
    match checksum.kind {
        ObjectChecksumType::FullObject => "full_object",
        ObjectChecksumType::Composite => "composite",
    }
}

/// The checksum that stored names and a value stand for. The value carries the
/// verdict of the checksum type.
pub open spec fn checksum_of(algorithm: Seq<char>, kind: Seq<char>, value: Candidate) -> Result<
    ObjectChecksum,
    AppError,
> {
    if algorithm != "sha256"@ || !value.accepted {
        Err(bad_value())
    } else if kind == "full_object"@ {
        Ok(
            ObjectChecksum {
                algorithm: ObjectChecksumAlgorithm::Sha256,
                kind: ObjectChecksumType::FullObject,
                value: value.text,
            },
        )
    } else if kind == "composite"@ {
        Ok(
            ObjectChecksum {
                algorithm: ObjectChecksumAlgorithm::Sha256,
                kind: ObjectChecksumType::Composite,
                value: value.text,
            },
        )
    } else {
        Err(bad_value())
    }
}

/// The checksum that stored names and a value stand for.
pub fn object_checksum(algorithm: &str, checksum_kind: &str, value: &Candidate) -> (checksum: Result<
    ObjectChecksum,
    AppError,
>)
    ensures
        checksum == checksum_of(algorithm@, checksum_kind@, *value),
{
    if !same_text(algorithm, "sha256") {
        return Err(internal_integrity());
    }
    let kind = if same_text(checksum_kind, "full_object") {
        ObjectChecksumType::FullObject
    } else if same_text(checksum_kind, "composite") {
        ObjectChecksumType::Composite
    } else {
        return Err(internal_integrity());
    };
    if !value.accepted {
        return Err(internal_error());
    }
    Ok(
        ObjectChecksum {
            algorithm: ObjectChecksumAlgorithm::Sha256,
            kind,
            value: value.text.clone(),
        },
    )
}

/// A checksum survives being stored and read back.
pub proof fn law_checksums_round_trip(checksum: ObjectChecksum)
    ensures
        checksum_of(
            "sha256"@,
            checksum_type_word(checksum.kind),
            (Candidate { text: checksum.value, accepted: true }),
        ) == Ok::<ObjectChecksum, AppError>(checksum),
{
    reveal_strlit("full_object");
    reveal_strlit("composite");
    assert("full_object"@.len() == 11);
    assert("composite"@.len() == 9);
}

/// The bytes of a digest as an array; one of another length fails.
pub fn checksum_array(value: &Vec<u8>) -> (digest: Result<[u8; 32], AppError>)
    ensures
        if value@.len() == 32 {
            digest matches Ok(bytes) && bytes@ == value@
        } else {
            digest == Err::<[u8; 32], AppError>(bad_value())
        },
{
    if value.len() != 32 {
        return Err(internal_integrity());
    }
    let mut digest: [u8; 32] = [0;32];
    let mut index: usize = 0;
    while index < 32
        invariant
            index <= 32,
            value@.len() == 32,
            forall|k: int| 0 <= k < index ==> digest@[k] == value@[k],
        decreases 32 - index,
    {
        digest[index] = value[index];
        index += 1;
    }
    assert(digest@ =~= value@);
    Ok(digest)
}

/// Whether a stored object is the one that was to be stored.
pub open spec fn is_expected_object(stored: StoredObject, key: Seq<char>, size: u64) -> bool {
    stored.key@ == key && stored.size == size
}

/// Refuses an object that is not the one that was to be stored.
pub fn validate_stored(stored: &StoredObject, key: &str, expected_size: u64) -> (result: Result<
    (),
    AppError,
>)
    ensures
        result == if is_expected_object(*stored, key@, expected_size) {
            Ok::<(), AppError>(())
        } else {
            Err::<(), AppError>(AppError::Conflict { code: "stored_object_mismatch" })
        },
{
    if !same_text(stored.key.as_str(), key) || stored.size != expected_size {
        Err(conflict("stored_object_mismatch"))
    } else {
        Ok(())
    }
}

/// The checksum that an object was stored with. An object without one fails.
pub fn verified_stored_checksum(stored: &StoredObject) -> (checksum: Result<
    ObjectChecksum,
    AppError,
>)
    ensures
        checksum == match stored.checksum {
            Some(found) => Ok::<ObjectChecksum, AppError>(found),
            None => Err::<ObjectChecksum, AppError>(
                AppError::Internal { category: "object_checksum_unavailable" },
            ),
        },
{
    let checksum = match &stored.checksum {
        Some(checksum) => checksum.duplicate(),
        None => {
            return Err(AppError::Internal { category: "object_checksum_unavailable" });
        },
    };
    if checksum.algorithm != ObjectChecksumAlgorithm::Sha256 {
        return Err(conflict("stored_object_checksum_mismatch"));
    }
    Ok(checksum)
}

/// The checksum that an object was stored with, which has to be of a kind.
pub open spec fn stored_checksum_of(
    stored: StoredObject,
    expected_type: ObjectChecksumType,
) -> Result<ObjectChecksum, AppError> {
    match stored.checksum {
        None => Err(AppError::Internal { category: "object_checksum_unavailable" }),
        Some(found) => if found.kind != expected_type {
            Err(AppError::Conflict { code: "stored_object_checksum_mismatch" })
        } else {
            Ok(found)
        },
    }
}

/// The checksum that an object was stored with, which has to be of a kind.
pub fn stored_checksum(stored: &StoredObject, expected_type: ObjectChecksumType) -> (checksum:
    Result<ObjectChecksum, AppError>)
    ensures
        checksum == stored_checksum_of(*stored, expected_type),
{
    let checksum = match verified_stored_checksum(stored) {
        Ok(checksum) => checksum,
        Err(error) => {
            return Err(error);
        },
    };
    if checksum.kind != expected_type {
        return Err(conflict("stored_object_checksum_mismatch"));
    }
    Ok(checksum)
}

/// The first reason why a stored object is not the staged content. `encoded` is
/// the text of the staged content's digest.
pub open spec fn small_object_refusal(
    stored: StoredObject,
    key: Seq<char>,
    size: u64,
    encoded: Seq<char>,
) -> Option<AppError> {
    if !is_expected_object(stored, key, size) {
        Some(AppError::Conflict { code: "stored_object_mismatch" })
    } else {
        match stored_checksum_of(stored, ObjectChecksumType::FullObject) {
            Err(error) => Some(error),
            Ok(checksum) => if checksum.value@ != encoded {
                Some(AppError::Conflict { code: "stored_object_checksum_mismatch" })
            } else {
                None
            },
        }
    }
}

/// Holds a stored object to the staged content: its key, its size, and the text
/// of the digest of its bytes.
pub fn check_encoded_object(stored: &StoredObject, key: &str, size: u64, encoded: &str) -> (checksum:
    Result<ObjectChecksum, AppError>)
    ensures
        match small_object_refusal(*stored, key@, size, encoded@) {
            Some(error) => checksum == Err::<ObjectChecksum, AppError>(error),
            None => checksum is Ok && stored.checksum == Some(checksum->Ok_0),
        },
{
    match validate_stored(stored, key, size) {
        Ok(()) => {},
        Err(error) => {
            return Err(error);
        },
    }
    let checksum = match stored_checksum(stored, ObjectChecksumType::FullObject) {
        Ok(checksum) => checksum,
        Err(error) => {
            return Err(error);
        },
    };
    if !same_text(checksum.value.as_str(), encoded) {
        return Err(conflict("stored_object_checksum_mismatch"));
    }
    Ok(checksum)
}

/// Content is published only where the store's own digest of all its bytes is
/// the digest of the staged content.
pub proof fn law_published_bytes_are_the_staged_bytes(
    stored: StoredObject,
    key: Seq<char>,
    size: u64,
    encoded: Seq<char>,
)
    requires
        small_object_refusal(stored, key, size, encoded) is None,
    ensures
        stored.key@ == key,
        stored.size == size,
        stored.checksum is Some,
        stored.checksum->0.kind == ObjectChecksumType::FullObject,
        stored.checksum->0.value@ == encoded,
{
}

/// The key of a small upload's object.
pub open spec fn initial_key_of(entry_id: u128) -> Seq<char> {
    "entries/"@ + hyphenated_chars(entry_id) + "/versions/initial"@
}

/// The key of a small upload's object.
pub fn initial_key(entry_id: u128) -> (key: String)
    ensures
        key@ == initial_key_of(entry_id),
{
    let mut key = "entries/".to_owned();
    key.append(hyphenated(entry_id).as_str());
    key.append("/versions/initial");
    key
}

/// The key of a multipart upload's object.
pub open spec fn multipart_key_of(upload_id: u128) -> Seq<char> {
    "multipart/"@ + hyphenated_chars(upload_id) + "/object"@
}

/// The key of a multipart upload's object.
pub fn multipart_key(upload_id: u128) -> (key: String)
    ensures
        key@ == multipart_key_of(upload_id),
{
    let mut key = "multipart/".to_owned();
    key.append(hyphenated(upload_id).as_str());
    key.append("/object");
    key
}

/// The key of a restored version's object.
pub open spec fn version_key_of(entry_id: u128, version_id: u128) -> Seq<char> {
    "entries/"@ + hyphenated_chars(entry_id) + "/versions/"@ + hyphenated_chars(version_id)
}

/// The key of a restored version's object.
pub fn version_key(entry_id: u128, version_id: u128) -> (key: String)
    ensures
        key@ == version_key_of(entry_id, version_id),
{
    let mut key = "entries/".to_owned();
    key.append(hyphenated(entry_id).as_str());
    key.append("/versions/");
    key.append(hyphenated(version_id).as_str());
    key
}

/// Objects of different uploads and versions never share a key: a key tells
/// what it was made for.
pub proof fn law_object_keys_are_distinct(
    first: u128,
    second: u128,
    first_version: u128,
    second_version: u128,
)
    ensures
        initial_key_of(first) == initial_key_of(second) ==> first == second,
        multipart_key_of(first) == multipart_key_of(second) ==> first == second,
        version_key_of(first, first_version) == version_key_of(second, second_version) ==> first
            == second && first_version == second_version,
        initial_key_of(first) != multipart_key_of(second),
        initial_key_of(first) != version_key_of(second, second_version),
        multipart_key_of(first) != version_key_of(second, second_version),
{
    reveal_strlit("entries/");
    reveal_strlit("multipart/");
    reveal_strlit("/versions/");
    reveal_strlit("/versions/initial");
    reveal_strlit("/object");
    assert(hyphenated_chars(first).len() == 36);
    assert(hyphenated_chars(second).len() == 36);
    assert(hyphenated_chars(first_version).len() == 36);
    assert(hyphenated_chars(second_version).len() == 36);
    assert(initial_key_of(first).subrange(8, 44) =~= hyphenated_chars(first));
    assert(initial_key_of(second).subrange(8, 44) =~= hyphenated_chars(second));
    assert(multipart_key_of(first).subrange(10, 46) =~= hyphenated_chars(first));
    assert(multipart_key_of(second).subrange(10, 46) =~= hyphenated_chars(second));
    assert(version_key_of(first, first_version).subrange(8, 44) =~= hyphenated_chars(first));
    assert(version_key_of(second, second_version).subrange(8, 44) =~= hyphenated_chars(second));
    assert(version_key_of(first, first_version).subrange(54, 90) =~= hyphenated_chars(
        first_version,
    ));
    assert(version_key_of(second, second_version).subrange(54, 90) =~= hyphenated_chars(
        second_version,
    ));
    assert(initial_key_of(first)[0] == 'e');
    assert(multipart_key_of(second)[0] == 'm');
    assert(multipart_key_of(first)[0] == 'm');
    assert(version_key_of(second, second_version)[0] == 'e');
    assert(initial_key_of(first).len() != version_key_of(second, second_version).len());
    lemma_hyphenated_injective(first, second);
    lemma_hyphenated_injective(first_version, second_version);
}

} // verus!
