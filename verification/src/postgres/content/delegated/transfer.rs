//! The arrival of a delegated upload's bytes: one writer at a time, under a
//! lease that it has to hold through every step.

use vstd::prelude::*;

use crate::clock::{later, representable, NANOS_PER_SECOND};
use crate::encoding::{constant_time_eq, encode_standard, standard_base64};
use crate::error::{conflict, internal_integrity, validation, AppError};
use crate::model::TestingEnvironmentContext;
use crate::postgres::content::delegated::{
    cleanup_deadline, cleanup_time, expire, expiry_of, in_scope, row_target, status_after,
    published_id, lemma_status_words, validate_scope, DelegatedUploadState, DelegatedUploadStatus,
    UploadRow,
};
use crate::postgres::content::objects::{
    checksum_type, checksum_type_word, is_expected_object, validate_stored, ObjectChecksumType,
    StoredObject,
};
use crate::postgres::content::storage::{encryption_of, StorageTarget};
use crate::postgres::content::{bad_value, to_u64};
use crate::postgres::TenantContext;
use crate::text::{
    borrowed_chars, byte_len, clone_optional_text, optional_chars, same_bytes, same_text,
};

verus! {

/// Where a delegated upload's bytes arrive: an organization in one plane.
#[derive(Clone, Debug)]
pub struct DelegatedUploadScope {
    /// Organization.
    pub organization_id: String,
    /// Testing environment.
    pub testing_environment: Option<TestingEnvironmentContext>,
    /// Correlation identifier.
    pub request_id: String,
}

/// The context that a transfer runs in. It carries no member's authority.
pub fn scope_begin(scope: &DelegatedUploadScope) -> (context: TenantContext)
    ensures
        context.scoped_to(scope.organization_id@, scope.testing_environment),
        context.actor_type@ == "service"@,
        context.actor_id@ == "testing-environment"@,
        context.origin_app_id is None,
        context.request_id == scope.request_id,
{
    match scope.testing_environment {
        None => TenantContext::for_control_service(
            scope.organization_id.as_str(),
            scope.request_id.clone(),
        ),
        Some(plane) => TenantContext::for_testing_environment_service(
            scope.organization_id.as_str(),
            plane,
            scope.request_id.clone(),
        ),
    }
}

/// A running transfer.
#[derive(Clone, Debug)]
pub struct DelegatedUploadTransfer {
    /// Identifier that the application gave the operation.
    pub operation_id: u128,
    /// Upload identifier.
    pub upload_id: u128,
    /// Lease.
    pub lease_token: u128,
    /// End of the lease.
    pub lease_expires_at: i128,
    /// Place.
    pub target: StorageTarget,
    /// Key.
    pub key: String,
    /// Media type.
    pub content_type: String,
    /// Size in bytes.
    pub size: u64,
    /// Digest of the bytes.
    pub sha256: [u8; 32],
}

/// Longest lease of a transfer, in seconds.
pub const MAX_LEASE_SECONDS: i64 = 86_400;

/// Whether a capability is the one that an upload was reserved with.
pub open spec fn holds_capability(row: UploadRow, capability_hash: Seq<u8>) -> bool {
    row.capability_hash is Some && row.capability_hash->0@ == capability_hash
}

/// Whether a capability is the one that an upload was reserved with. The
/// comparison takes the same time where the upload has none.
fn presents_capability(row: &UploadRow, capability_hash: &[u8; 32]) -> (answer: bool)
    ensures
        answer == holds_capability(*row, capability_hash@),
{
    let nothing: [u8; 32] = [0;32];
    let (expected, present) = match &row.capability_hash {
        Some(expected) => (expected.as_slice(), true),
        None => (nothing.as_slice(), false),
    };
    let same = constant_time_eq(expected, capability_hash.as_slice());
    same && present
}

/// The end of a lease that begins now.
pub open spec fn lease_end(now: i128, lease_seconds: i64) -> int {
    now + lease_seconds * NANOS_PER_SECOND
}

/// The first reason why a transfer does not begin.
pub open spec fn claim_refusal(
    row: Option<UploadRow>,
    environment: Option<TestingEnvironmentContext>,
    capability_hash: Seq<u8>,
    lease_seconds: i64,
    checked_at: i128,
    now: i128,
) -> Option<AppError> {
    if !(1 <= lease_seconds <= MAX_LEASE_SECONDS) {
        Some(AppError::Validation { code: "invalid_delegated_upload_lease" })
    } else if row is None || !in_scope(row->0, environment) || !holds_capability(
        row->0,
        capability_hash,
    ) {
        Some(AppError::NotFound)
    } else if expiry_of(row->0, checked_at) is Err {
        Some(expiry_of(row->0, checked_at)->Err_0)
    } else if status_after(row->0, checked_at) != "reserved"@ {
        Some(AppError::Conflict { code: "delegated_upload_not_reserved" })
    } else if lease_end(now, lease_seconds) > row->0.expires_at {
        Some(AppError::Conflict { code: "delegated_upload_insufficient_lifetime" })
    } else if encryption_of(row->0.storage_encryption_mode@) is None
        || !row->0.object_key.accepted || row->0.size_bytes < 0
        || row->0.expected_sha256@.len() != 32 {
        Some(bad_value())
    } else {
        None
    }
}

/// Whether a transfer is of an upload, under a lease.
pub open spec fn transfers(
    transfer: DelegatedUploadTransfer,
    row: UploadRow,
    lease_token: u128,
    lease_expires_at: int,
) -> bool {
    &&& transfer.operation_id == row.operation_id
    &&& transfer.upload_id == row.upload_id
    &&& transfer.lease_token == lease_token
    &&& transfer.lease_expires_at == lease_expires_at
    &&& row_target(transfer.target, row)
    &&& transfer.key == row.object_key.text
    &&& transfer.content_type == row.content_type
    &&& transfer.size == row.size_bytes
    &&& transfer.sha256@ == row.expected_sha256@
}

/// Begins a transfer for the holder of the capability. The lease has to end
/// before the reservation does: the time that a store needs to come to rest is
/// never cut short.
pub fn claim_transfer(
    row: Option<UploadRow>,
    environment: Option<TestingEnvironmentContext>,
    capability_hash: &[u8; 32],
    lease_seconds: i64,
    checked_at: i128,
    now: i128,
    lease_token: u128,
) -> (transfer: Result<DelegatedUploadTransfer, AppError>)
    requires
        1 <= lease_seconds <= MAX_LEASE_SECONDS ==> representable(lease_end(now, lease_seconds)),
    ensures
        match claim_refusal(
            row,
            environment,
            capability_hash@,
            lease_seconds,
            checked_at,
            now,
        ) {
            Some(error) => transfer == Err::<DelegatedUploadTransfer, AppError>(error),
            None => transfer is Ok && transfers(
                transfer->Ok_0,
                row->0,
                lease_token,
                lease_end(now, lease_seconds),
            ),
        },
{
    if lease_seconds < 1 || lease_seconds > MAX_LEASE_SECONDS {
        return Err(validation("invalid_delegated_upload_lease"));
    }
    let mut found = match row {
        Some(found) => found,
        None => {
            return Err(AppError::NotFound);
        },
    };
    match validate_scope(&found, environment) {
        Ok(()) => {},
        Err(error) => {
            return Err(error);
        },
    }
    if !presents_capability(&found, capability_hash) {
        return Err(AppError::NotFound);
    }
    match expire(&mut found, checked_at) {
        Ok(_) => {},
        Err(error) => {
            return Err(error);
        },
    }
    proof {
        lemma_status_words();
    }
    if !same_text(found.status.as_str(), "reserved") {
        return Err(conflict("delegated_upload_not_reserved"));
    }
    let deadline: i128 = now + lease_seconds as i128 * NANOS_PER_SECOND;
    if deadline > found.expires_at {
        return Err(conflict("delegated_upload_insufficient_lifetime"));
    }
    let target = match found.target() {
        Ok(target) => target,
        Err(error) => {
            return Err(error);
        },
    };
    let key = match found.key() {
        Ok(key) => key,
        Err(error) => {
            return Err(error);
        },
    };
    let size: u64 = match to_u64(found.size_bytes) {
        Ok(size) => size,
        Err(error) => {
            return Err(error);
        },
    };
    let sha256 = match found.sha256() {
        Ok(sha256) => sha256,
        Err(error) => {
            return Err(error);
        },
    };
    Ok(
        DelegatedUploadTransfer {
            operation_id: found.operation_id,
            upload_id: found.upload_id,
            lease_token,
            lease_expires_at: deadline,
            target,
            key,
            content_type: found.content_type.clone(),
            size,
            sha256,
        },
    )
}

/// The first reason why a writer may not go on: the lease is not its own any
/// more, or it or the reservation is over.
pub open spec fn writer_refusal(
    row: Option<UploadRow>,
    environment: Option<TestingEnvironmentContext>,
    transfer: DelegatedUploadTransfer,
    now: i128,
) -> Option<AppError> {
    if row is None || !in_scope(row->0, environment) {
        Some(AppError::NotFound)
    } else if row->0.status@ != "receiving"@ || row->0.lease_token != Some(transfer.lease_token)
        || row->0.lease_expires_at != Some(transfer.lease_expires_at)
        || transfer.lease_expires_at <= now || row->0.expires_at <= now {
        Some(AppError::Conflict { code: "delegated_upload_lease_lost" })
    } else {
        None
    }
}

/// Refuses a writer that does not hold the lease.
pub fn require_writer<'a>(
    row: &'a Option<UploadRow>,
    environment: Option<TestingEnvironmentContext>,
    transfer: &DelegatedUploadTransfer,
    now: i128,
) -> (found: Result<&'a UploadRow, AppError>)
    ensures
        match writer_refusal(*row, environment, *transfer, now) {
            Some(error) => found == Err::<&UploadRow, AppError>(error),
            None => row is Some && found == Ok::<&UploadRow, AppError>(&row->0),
        },
{
    let found = match row {
        Some(found) => found,
        None => {
            return Err(AppError::NotFound);
        },
    };
    match validate_scope(found, environment) {
        Ok(()) => {},
        Err(error) => {
            return Err(error);
        },
    }
    if !same_text(found.status.as_str(), "receiving") || found.lease_token != Some(
        transfer.lease_token,
    ) || found.lease_expires_at != Some(transfer.lease_expires_at) || transfer.lease_expires_at
        <= now || found.expires_at <= now {
        return Err(conflict("delegated_upload_lease_lost"));
    }
    Ok(found)
}

/// A transfer that is no longer the upload's.
pub open spec fn transfer_changed() -> AppError {
    AppError::Conflict { code: "delegated_upload_transfer_changed" }
}

/// Whether a target is at the place that a row remembers.
pub open spec fn at_row_place(target: StorageTarget, row: UploadRow) -> bool {
    &&& target.bucket@ == row.bucket_name@
    &&& target.region@ == row.storage_region@
    &&& target.prefix@ == row.storage_prefix@
    &&& optional_chars(target.role_arn) == optional_chars(row.storage_role_arn)
    &&& optional_chars(target.external_id) == optional_chars(row.storage_external_id)
    &&& Some(target.encryption) == encryption_of(row.storage_encryption_mode@)
    &&& optional_chars(target.kms_key_arn) == optional_chars(row.storage_kms_key_arn)
}

/// The first reason why a transfer is not of an upload.
pub open spec fn transfer_refusal(row: UploadRow, transfer: DelegatedUploadTransfer) -> Option<
    AppError,
> {
    if row.operation_id != transfer.operation_id {
        Some(transfer_changed())
    } else if encryption_of(row.storage_encryption_mode@) is None {
        Some(bad_value())
    } else if !at_row_place(transfer.target, row) {
        Some(transfer_changed())
    } else if !row.object_key.accepted {
        Some(bad_value())
    } else if row.object_key.text@ != transfer.key@ || row.content_type@
        != transfer.content_type@ {
        Some(transfer_changed())
    } else if row.size_bytes < 0 {
        Some(bad_value())
    } else if row.size_bytes != transfer.size {
        Some(transfer_changed())
    } else if row.expected_sha256@.len() != 32 {
        Some(bad_value())
    } else if row.expected_sha256@ != transfer.sha256@ {
        Some(transfer_changed())
    } else {
        None
    }
}

/// Refuses a transfer that is not of an upload as it is stored.
pub fn validate_transfer(row: &UploadRow, transfer: &DelegatedUploadTransfer) -> (result: Result<
    (),
    AppError,
>)
    ensures
        match transfer_refusal(*row, *transfer) {
            Some(error) => result == Err::<(), AppError>(error),
            None => result == Ok::<(), AppError>(()),
        },
{
    if row.operation_id != transfer.operation_id {
        return Err(conflict("delegated_upload_transfer_changed"));
    }
    let target = match row.target() {
        Ok(target) => target,
        Err(error) => {
            return Err(error);
        },
    };
    if !target.matches(&transfer.target) {
        return Err(conflict("delegated_upload_transfer_changed"));
    }
    let key = match row.key() {
        Ok(key) => key,
        Err(error) => {
            return Err(error);
        },
    };
    if !same_text(key.as_str(), transfer.key.as_str()) || !same_text(
        row.content_type.as_str(),
        transfer.content_type.as_str(),
    ) {
        return Err(conflict("delegated_upload_transfer_changed"));
    }
    let size: u64 = match to_u64(row.size_bytes) {
        Ok(size) => size,
        Err(error) => {
            return Err(error);
        },
    };
    if size != transfer.size {
        return Err(conflict("delegated_upload_transfer_changed"));
    }
    let sha256 = match row.sha256() {
        Ok(sha256) => sha256,
        Err(error) => {
            return Err(error);
        },
    };
    if !same_bytes(sha256.as_slice(), transfer.sha256.as_slice()) {
        return Err(conflict("delegated_upload_transfer_changed"));
    }
    Ok(())
}

/// The first reason why a writer may not take its next step.
pub open spec fn step_refusal(
    row: Option<UploadRow>,
    environment: Option<TestingEnvironmentContext>,
    transfer: DelegatedUploadTransfer,
    now: i128,
) -> Option<AppError> {
    if writer_refusal(row, environment, transfer, now) is Some {
        writer_refusal(row, environment, transfer, now)
    } else {
        transfer_refusal(row->0, transfer)
    }
}

/// Refuses a writer that may not take its next step.
fn require_step<'a>(
    row: &'a Option<UploadRow>,
    environment: Option<TestingEnvironmentContext>,
    transfer: &DelegatedUploadTransfer,
    now: i128,
) -> (found: Result<&'a UploadRow, AppError>)
    ensures
        match step_refusal(*row, environment, *transfer, now) {
            Some(error) => found == Err::<&UploadRow, AppError>(error),
            None => row is Some && found == Ok::<&UploadRow, AppError>(&row->0),
        },
{
    let found = match require_writer(row, environment, transfer, now) {
        Ok(found) => found,
        Err(error) => {
            return Err(error);
        },
    };
    match validate_transfer(found, transfer) {
        Ok(()) => Ok(found),
        Err(error) => Err(error),
    }
}

/// The time that a store is given for one operation, as the database takes it.
pub fn provider_timeout_millis(timeout_millis: u128) -> (millis: Result<i64, AppError>)
    ensures
        millis == if timeout_millis <= i64::MAX {
            Ok::<i64, AppError>(timeout_millis as i64)
        } else {
            Err::<i64, AppError>(bad_value())
        },
{
    if timeout_millis <= i64::MAX as u128 {
        Ok(timeout_millis as i64)
    } else {
        Err(internal_integrity())
    }
}

/// What is written before the store is asked to work: bytes may exist from then
/// on, the capability is spent, and the store's deadline starts anew.
#[derive(Clone, Copy, Debug, PartialEq, Eq, Structural)]
pub struct ProviderStart {
    /// Whether the store is asked to finish.
    pub completion: bool,
    /// Milliseconds from now to the store's deadline.
    pub timeout_millis: i64,
}

/// What is written before the store is asked to work.
pub open spec fn provider_start(
    row: Option<UploadRow>,
    environment: Option<TestingEnvironmentContext>,
    transfer: DelegatedUploadTransfer,
    now: i128,
    timeout_millis: u128,
    completion: bool,
) -> Result<ProviderStart, AppError> {
    if step_refusal(row, environment, transfer, now) is Some {
        Err(step_refusal(row, environment, transfer, now)->0)
    } else if timeout_millis > i64::MAX {
        Err(bad_value())
    } else {
        Ok(ProviderStart { completion, timeout_millis: timeout_millis as i64 })
    }
}

/// Records that bytes are about to be written to the store, before any is.
pub fn before_provider_write(
    row: &Option<UploadRow>,
    environment: Option<TestingEnvironmentContext>,
    transfer: &DelegatedUploadTransfer,
    now: i128,
    timeout_millis: u128,
) -> (start: Result<ProviderStart, AppError>)
    ensures
        start == provider_start(*row, environment, *transfer, now, timeout_millis, false),
{
    match require_step(row, environment, transfer, now) {
        Ok(_) => {},
        Err(error) => {
            return Err(error);
        },
    }
    match provider_timeout_millis(timeout_millis) {
        Ok(timeout_millis) => Ok(ProviderStart { completion: false, timeout_millis }),
        Err(error) => Err(error),
    }
}

/// Records that the store is about to be asked to finish, before it is.
pub fn before_provider_completion(
    row: &Option<UploadRow>,
    environment: Option<TestingEnvironmentContext>,
    transfer: &DelegatedUploadTransfer,
    now: i128,
    timeout_millis: u128,
) -> (start: Result<ProviderStart, AppError>)
    ensures
        start == provider_start(*row, environment, *transfer, now, timeout_millis, true),
{
    match require_step(row, environment, transfer, now) {
        Ok(_) => {},
        Err(error) => {
            return Err(error);
        },
    }
    match provider_timeout_millis(timeout_millis) {
        Ok(timeout_millis) => Ok(ProviderStart { completion: true, timeout_millis }),
        Err(error) => Err(error),
    }
}

/// Longest identifier that a store may give a multipart upload, in bytes.
pub const MAX_PROVIDER_ID_BYTES: usize = 2048;

/// Whether a text can be an identifier that a store gave.
pub open spec fn is_provider_id(id: Seq<char>) -> bool {
    1 <= byte_len(id) <= MAX_PROVIDER_ID_BYTES
}

/// Whether a text can be an identifier that a store gave.
pub fn valid_provider_id(id: &str) -> (valid: bool)
    ensures
        valid == is_provider_id(id@),
{
    let bytes: &[u8] = id.as_bytes();
    bytes.len() > 0 && bytes.len() <= MAX_PROVIDER_ID_BYTES
}

/// Whether another identifier was recorded before.
pub open spec fn contradicts(row: UploadRow, id: Seq<char>) -> bool {
    row.provider_upload_id is Some && row.provider_upload_id->0@ != id
}

/// Whether another identifier was recorded before.
fn contradicts_recorded(row: &UploadRow, id: &str) -> (answer: bool)
    ensures
        answer == contradicts(*row, id@),
{
    match &row.provider_upload_id {
        Some(recorded) => !same_text(recorded.as_str(), id),
        None => false,
    }
}

/// The first reason why the store's identifier of a multipart upload is not
/// recorded.
pub open spec fn record_refusal(
    row: Option<UploadRow>,
    environment: Option<TestingEnvironmentContext>,
    transfer: DelegatedUploadTransfer,
    now: i128,
    provider_upload_id: Seq<char>,
) -> Option<AppError> {
    if !is_provider_id(provider_upload_id) {
        Some(bad_value())
    } else if step_refusal(row, environment, transfer, now) is Some {
        step_refusal(row, environment, transfer, now)
    } else if !row->0.provider_write_started || contradicts(row->0, provider_upload_id) {
        Some(AppError::Conflict { code: "delegated_upload_provider_changed" })
    } else {
        None
    }
}

/// Checks the store's identifier of a multipart upload before it is recorded.
/// Once recorded it never changes.
pub fn record_multipart(
    row: &Option<UploadRow>,
    environment: Option<TestingEnvironmentContext>,
    transfer: &DelegatedUploadTransfer,
    now: i128,
    provider_upload_id: &str,
) -> (result: Result<(), AppError>)
    ensures
        match record_refusal(*row, environment, *transfer, now, provider_upload_id@) {
            Some(error) => result == Err::<(), AppError>(error),
            None => result == Ok::<(), AppError>(()),
        },
{
    if !valid_provider_id(provider_upload_id) {
        return Err(internal_integrity());
    }
    let found = match require_step(row, environment, transfer, now) {
        Ok(found) => found,
        Err(error) => {
            return Err(error);
        },
    };
    if !found.provider_write_started || contradicts_recorded(found, provider_upload_id) {
        return Err(conflict("delegated_upload_provider_changed"));
    }
    Ok(())
}

/// The first reason why an object is not an upload's. `encoded` is the text of
/// the expected digest, where the row holds one.
pub open spec fn object_refusal(
    row: UploadRow,
    stored: StoredObject,
    encoded: Option<Seq<char>>,
) -> Option<AppError> {
    if !row.object_key.accepted || row.size_bytes < 0 {
        Some(bad_value())
    } else if !is_expected_object(stored, row.object_key.text@, row.size_bytes as u64) {
        Some(AppError::Conflict { code: "stored_object_mismatch" })
    } else if stored.checksum is None {
        Some(bad_value())
    } else if stored.checksum->0.kind == ObjectChecksumType::FullObject && encoded is None {
        Some(bad_value())
    } else if (stored.checksum->0.kind == ObjectChecksumType::FullObject
        && stored.checksum->0.value@ != encoded->0) || (stored.checksum->0.kind
        == ObjectChecksumType::Composite && row.provider_upload_id is None) {
        Some(AppError::Conflict { code: "stored_object_checksum_mismatch" })
    } else {
        None
    }
}

/// Refuses an object that is not an upload's, given the text of the expected
/// digest.
pub fn validate_object(row: &UploadRow, stored: &StoredObject, encoded: &Option<String>) -> (result:
    Result<(), AppError>)
    ensures
        match object_refusal(*row, *stored, optional_chars(*encoded)) {
            Some(error) => result == Err::<(), AppError>(error),
            None => result == Ok::<(), AppError>(()),
        },
{
    let key = match row.key() {
        Ok(key) => key,
        Err(error) => {
            return Err(error);
        },
    };
    let size: u64 = match to_u64(row.size_bytes) {
        Ok(size) => size,
        Err(error) => {
            return Err(error);
        },
    };
    match validate_stored(stored, key.as_str(), size) {
        Ok(()) => {},
        Err(error) => {
            return Err(error);
        },
    }
    let checksum = match &stored.checksum {
        Some(checksum) => checksum,
        None => {
            return Err(internal_integrity());
        },
    };
    match checksum.kind {
        ObjectChecksumType::FullObject => match encoded {
            Some(encoded) => {
                if !same_text(checksum.value.as_str(), encoded.as_str()) {
                    return Err(conflict("stored_object_checksum_mismatch"));
                }
            },
            None => {
                return Err(internal_integrity());
            },
        },
        ObjectChecksumType::Composite => {
            if row.provider_upload_id.is_none() {
                return Err(conflict("stored_object_checksum_mismatch"));
            }
        },
    }
    Ok(())
}

/// The text of the digest that an upload's row expects, where it holds one.
pub open spec fn expected_digest(row: UploadRow) -> Option<Seq<char>> {
    if row.expected_sha256@.len() == 32 {
        Some(standard_base64(row.expected_sha256@))
    } else {
        None
    }
}

/// The text of the digest that an upload's row expects, where it holds one.
pub fn encoded_digest(row: &UploadRow) -> (encoded: Option<String>)
    ensures
        optional_chars(encoded) == expected_digest(*row),
{
    match row.sha256() {
        Ok(sha256) => Some(encode_standard(&sha256)),
        Err(_) => None,
    }
}

/// A completed transfer: the upload is staged, its lease is given back.
#[derive(Clone, Debug)]
pub struct TransferCompletion {
    /// Version that the store gave the object.
    pub object_version_id: Option<String>,
    /// Entity tag.
    pub object_etag: Option<String>,
    /// What the checksum is made over.
    pub object_checksum_type: &'static str,
    /// Encoded checksum.
    pub object_checksum_value: String,
    /// What the caller learns.
    pub status: DelegatedUploadStatus,
}

/// The first reason why a transfer is not completed.
pub open spec fn completion_refusal(
    row: Option<UploadRow>,
    environment: Option<TestingEnvironmentContext>,
    transfer: DelegatedUploadTransfer,
    stored: StoredObject,
    encoded: Option<Seq<char>>,
    now: i128,
) -> Option<AppError> {
    if step_refusal(row, environment, transfer, now) is Some {
        step_refusal(row, environment, transfer, now)
    } else if object_refusal(row->0, stored, encoded) is Some {
        object_refusal(row->0, stored, encoded)
    } else if !row->0.provider_write_started || !row->0.provider_completion_started {
        Some(AppError::Conflict { code: "delegated_upload_provider_not_started" })
    } else {
        None
    }
}

/// Whether a completed transfer records an object of an upload.
pub open spec fn completes(
    completion: TransferCompletion,
    row: UploadRow,
    stored: StoredObject,
) -> bool {
    &&& completion.object_version_id == stored.provider_version_id
    &&& completion.object_etag == stored.etag
    &&& completion.object_checksum_type@ == checksum_type_word(stored.checksum->0.kind)
    &&& completion.object_checksum_value == stored.checksum->0.value
    &&& completion.status == (DelegatedUploadStatus {
        operation_id: row.operation_id,
        upload_id: row.upload_id,
        state: DelegatedUploadState::Staged,
        expires_at: row.expires_at,
        published_entry_id: published_id(row.published_entry_id),
    })
}

/// Completes a transfer whose object is the upload's, given the text of the
/// expected digest.
pub fn complete_encoded_transfer(
    row: &Option<UploadRow>,
    environment: Option<TestingEnvironmentContext>,
    transfer: &DelegatedUploadTransfer,
    stored: &StoredObject,
    encoded: &Option<String>,
    now: i128,
) -> (completion: Result<TransferCompletion, AppError>)
    ensures
        match completion_refusal(
            *row,
            environment,
            *transfer,
            *stored,
            optional_chars(*encoded),
            now,
        ) {
            Some(error) => completion == Err::<TransferCompletion, AppError>(error),
            None => completion is Ok && completes(completion->Ok_0, row->0, *stored),
        },
{
    let found = match require_step(row, environment, transfer, now) {
        Ok(found) => found,
        Err(error) => {
            return Err(error);
        },
    };
    match validate_object(found, stored, encoded) {
        Ok(()) => {},
        Err(error) => {
            return Err(error);
        },
    }
    if !found.provider_write_started || !found.provider_completion_started {
        return Err(conflict("delegated_upload_provider_not_started"));
    }
    let checksum = match &stored.checksum {
        Some(checksum) => checksum,
        None => {
            return Err(internal_integrity());
        },
    };
    let published_entry_id: Option<u128> = match found.published_entry_id {
        Some(id) => Some(id.value),
        None => None,
    };
    Ok(
        TransferCompletion {
            object_version_id: clone_optional_text(&stored.provider_version_id),
            object_etag: clone_optional_text(&stored.etag),
            object_checksum_type: checksum_type(checksum),
            object_checksum_value: checksum.value.clone(),
            status: DelegatedUploadStatus {
                operation_id: found.operation_id,
                upload_id: found.upload_id,
                state: DelegatedUploadState::Staged,
                expires_at: found.expires_at,
                published_entry_id,
            },
        },
    )
}

/// Completes a transfer whose object is the upload's: its key, its size, and
/// the digest of its bytes, or the checksums of the parts of a multipart upload
/// that was recorded.
pub fn complete_transfer(
    row: &Option<UploadRow>,
    environment: Option<TestingEnvironmentContext>,
    transfer: &DelegatedUploadTransfer,
    stored: &StoredObject,
    now: i128,
) -> (completion: Result<TransferCompletion, AppError>)
    ensures
        match completion_refusal(
            *row,
            environment,
            *transfer,
            *stored,
            expected_digest(row->0),
            now,
        ) {
            Some(error) => completion == Err::<TransferCompletion, AppError>(error),
            None => completion is Ok && completes(completion->Ok_0, row->0, *stored),
        },
{
    match row {
        Some(found) => {
            let encoded = encoded_digest(found);
            complete_encoded_transfer(row, environment, transfer, stored, &encoded, now)
        },
        None => Err(AppError::NotFound),
    }
}

/// What is written for a transfer that failed.
#[derive(Clone, Debug)]
pub enum TransferFailure {
    /// Nothing: the transfer is not the running one any more, so its outcome may
    /// be a success that must not be destroyed.
    Nothing,
    /// Bytes may have reached the store and are removed later.
    Cleanup {
        /// When they may be removed.
        cleanup_after: i128,
        /// The store's identifier of a multipart upload, where it is now known.
        provider_upload_id: Option<String>,
        /// Version of the object, where it is now known.
        object_version_id: Option<String>,
        /// Entity tag of the object, where it is now known.
        object_etag: Option<String>,
        /// Whether the store is now known to have finished.
        completion_started: bool,
        /// The store's deadline.
        provider_deadline: i128,
    },
    /// No byte reached the store: the upload waits for another transfer, or
    /// ends where its time is over.
    Release {
        /// The status it goes on with.
        status: &'static str,
        /// Whether its capability stays.
        keeps_capability: bool,
    },
}

/// Whether a transfer is the one that an upload is receiving from.
pub open spec fn is_running(row: UploadRow, transfer: DelegatedUploadTransfer) -> bool {
    row.status@ == "receiving"@ && row.lease_token == Some(transfer.lease_token)
}

/// Whether bytes of an upload may have reached the store.
pub open spec fn may_hold_bytes(
    row: UploadRow,
    provider_upload_id: Option<Seq<char>>,
    stored: Option<StoredObject>,
) -> bool {
    row.provider_write_started || provider_upload_id is Some || stored is Some
}

/// The optional value behind a reference.
pub open spec fn deref_object(stored: Option<&StoredObject>) -> Option<StoredObject> {
    match stored {
        Some(object) => Some(*object),
        None => None,
    }
}

/// The store's deadline for an upload.
pub open spec fn provider_deadline_of(row: UploadRow, now: i128, timeout_millis: u128) -> int {
    match row.provider_deadline_at {
        Some(deadline) => deadline as int,
        None => now + timeout_millis * 1_000_000,
    }
}

/// The later of two instants.
pub open spec fn later_of(left: int, right: int) -> i128 {
    if left >= right {
        left as i128
    } else {
        right as i128
    }
}

/// The first reason why the failure of the running transfer is not written.
pub open spec fn failure_refusal(
    row: UploadRow,
    transfer: DelegatedUploadTransfer,
    provider_upload_id: Option<Seq<char>>,
    stored: Option<StoredObject>,
    now: i128,
    timeout_millis: u128,
) -> Option<AppError> {
    if transfer_refusal(row, transfer) is Some {
        transfer_refusal(row, transfer)
    } else if stored is Some && !is_expected_object(
        stored->0,
        row.object_key.text@,
        row.size_bytes as u64,
    ) {
        Some(AppError::Conflict { code: "stored_object_mismatch" })
    } else if provider_upload_id is Some && (!is_provider_id(provider_upload_id->0)
        || contradicts(row, provider_upload_id->0)) {
        Some(bad_value())
    } else if may_hold_bytes(row, provider_upload_id, stored) && (timeout_millis > i64::MAX
        || cleanup_time(
        row,
        later_of(now as int, provider_deadline_of(row, now, timeout_millis)),
    ) is None) {
        Some(bad_value())
    } else {
        None
    }
}

/// Whether the failure of the running transfer is written as it has to be.
pub open spec fn failure_planned(
    failure: TransferFailure,
    row: UploadRow,
    provider_upload_id: Option<Seq<char>>,
    stored: Option<StoredObject>,
    now: i128,
    timeout_millis: u128,
) -> bool {
    if may_hold_bytes(row, provider_upload_id, stored) {
        &&& failure is Cleanup
        &&& Some(failure->cleanup_after) == cleanup_time(
            row,
            later_of(now as int, provider_deadline_of(row, now, timeout_millis)),
        )
        &&& optional_chars(failure->provider_upload_id) == provider_upload_id
        &&& failure->object_version_id == match stored {
            Some(object) => object.provider_version_id,
            None => None,
        }
        &&& failure->object_etag == match stored {
            Some(object) => object.etag,
            None => None,
        }
        &&& failure->completion_started == stored is Some
        &&& failure->provider_deadline == provider_deadline_of(row, now, timeout_millis)
    } else {
        &&& failure is Release
        &&& failure->keeps_capability == (row.expires_at > now)
        &&& failure->status@ == if row.expires_at > now {
            "reserved"@
        } else {
            "expired"@
        }
    }
}

/// Decides what is written for a transfer that failed. A result that arrived
/// meanwhile is never turned into a cleanup.
pub fn fail_transfer(
    row: &Option<UploadRow>,
    environment: Option<TestingEnvironmentContext>,
    transfer: &DelegatedUploadTransfer,
    provider_upload_id: Option<&str>,
    stored: Option<&StoredObject>,
    now: i128,
    timeout_millis: u128,
) -> (failure: Result<TransferFailure, AppError>)
    requires
        row is Some && may_hold_bytes(
            row->0,
            borrowed_chars(provider_upload_id),
            deref_object(stored),
        ) && timeout_millis <= i64::MAX ==> representable(now + timeout_millis * 1_000_000),
    ensures
        match *row {
            None => failure == Ok::<TransferFailure, AppError>(TransferFailure::Nothing),
            Some(found) => if !in_scope(found, environment) {
                failure == Err::<TransferFailure, AppError>(AppError::NotFound)
            } else if !is_running(found, *transfer) {
                failure == Ok::<TransferFailure, AppError>(TransferFailure::Nothing)
            } else {
                match failure_refusal(
                    found,
                    *transfer,
                    borrowed_chars(provider_upload_id),
                    deref_object(stored),
                    now,
                    timeout_millis,
                ) {
                    Some(error) => failure == Err::<TransferFailure, AppError>(error),
                    None => failure is Ok && failure_planned(
                        failure->Ok_0,
                        found,
                        borrowed_chars(provider_upload_id),
                        deref_object(stored),
                        now,
                        timeout_millis,
                    ),
                }
            },
        },
{
    let found = match row {
        Some(found) => found,
        None => {
            return Ok(TransferFailure::Nothing);
        },
    };
    match validate_scope(found, environment) {
        Ok(()) => {},
        Err(error) => {
            return Err(error);
        },
    }
    if !same_text(found.status.as_str(), "receiving") || found.lease_token != Some(
        transfer.lease_token,
    ) {
        return Ok(TransferFailure::Nothing);
    }
    match validate_transfer(found, transfer) {
        Ok(()) => {},
        Err(error) => {
            return Err(error);
        },
    }
    if let Some(object) = stored {
        match validate_stored(object, found.object_key.text.as_str(), found.size_bytes as u64) {
            Ok(()) => {},
            Err(error) => {
                return Err(error);
            },
        }
    }
    if let Some(id) = provider_upload_id {
        if !valid_provider_id(id) || contradicts_recorded(found, id) {
            return Err(internal_integrity());
        }
    }
    if !found.provider_write_started && provider_upload_id.is_none() && stored.is_none() {
        let waits = found.expires_at > now;
        return Ok(
            TransferFailure::Release {
                status: if waits {
                    "reserved"
                } else {
                    "expired"
                },
                keeps_capability: waits,
            },
        );
    }
    let millis: i64 = match provider_timeout_millis(timeout_millis) {
        Ok(millis) => millis,
        Err(error) => {
            return Err(error);
        },
    };
    let provider_deadline: i128 = match found.provider_deadline_at {
        Some(deadline) => deadline,
        None => now + millis as i128 * 1_000_000,
    };
    let cleanup_after: i128 = match cleanup_deadline(found, later(now, provider_deadline)) {
        Ok(cleanup_after) => cleanup_after,
        Err(error) => {
            return Err(error);
        },
    };
    let (object_version_id, object_etag) = match stored {
        Some(object) => (
            clone_optional_text(&object.provider_version_id),
            clone_optional_text(&object.etag),
        ),
        None => (None, None),
    };
    let recorded = match provider_upload_id {
        Some(id) => Some(id.to_owned()),
        None => None,
    };
    Ok(
        TransferFailure::Cleanup {
            cleanup_after,
            provider_upload_id: recorded,
            object_version_id,
            object_etag,
            completion_started: stored.is_some(),
            provider_deadline,
        },
    )
}

/// At most one writer holds an upload: two transfers under different leases
/// cannot both take a step.
pub proof fn law_one_writer_at_a_time(
    row: Option<UploadRow>,
    environment: Option<TestingEnvironmentContext>,
    first: DelegatedUploadTransfer,
    second: DelegatedUploadTransfer,
    now: i128,
)
    requires
        step_refusal(row, environment, first, now) is None,
        step_refusal(row, environment, second, now) is None,
    ensures
        first.lease_token == second.lease_token,
        first.lease_expires_at == second.lease_expires_at,
{
}

/// A lease never outlives its reservation, and a transfer that begins can take
/// its first step.
pub proof fn law_leases_end_within_their_reservation(
    row: UploadRow,
    environment: Option<TestingEnvironmentContext>,
    capability_hash: Seq<u8>,
    lease_seconds: i64,
    checked_at: i128,
    now: i128,
)
    requires
        claim_refusal(
            Some(row),
            environment,
            capability_hash,
            lease_seconds,
            checked_at,
            now,
        ) is None,
    ensures
        now < lease_end(now, lease_seconds) <= row.expires_at,
{
}

/// A claimed transfer can go on: written under its lease, the upload lets the
/// writer take its next step until the lease is over.
pub proof fn law_claimed_transfers_can_proceed(
    row: UploadRow,
    receiving: UploadRow,
    transfer: DelegatedUploadTransfer,
    environment: Option<TestingEnvironmentContext>,
    capability_hash: Seq<u8>,
    lease_seconds: i64,
    lease_token: u128,
    checked_at: i128,
    now: i128,
    moment: i128,
)
    requires
        claim_refusal(
            Some(row),
            environment,
            capability_hash,
            lease_seconds,
            checked_at,
            now,
        ) is None,
        transfers(transfer, row, lease_token, lease_end(now, lease_seconds)),
        receiving == (UploadRow {
            status: receiving.status,
            lease_token: Some(lease_token),
            lease_expires_at: Some(transfer.lease_expires_at),
            ..row
        }),
        receiving.status@ == "receiving"@,
        moment < transfer.lease_expires_at,
    ensures
        step_refusal(Some(receiving), environment, transfer, moment) is None,
{
}

/// The outcome of a transfer that was staged or published is never destroyed:
/// its failure, reported late, writes nothing.
pub proof fn law_late_failures_write_nothing(row: UploadRow, transfer: DelegatedUploadTransfer)
    requires
        row.status@ == "staged"@ || row.status@ == "committed"@,
    ensures
        !is_running(row, transfer),
{
    lemma_status_words();
}

/// A spent or withdrawn capability admits nothing.
pub proof fn law_spent_capabilities_admit_nothing(
    row: UploadRow,
    environment: Option<TestingEnvironmentContext>,
    capability_hash: Seq<u8>,
    lease_seconds: i64,
    checked_at: i128,
    now: i128,
)
    requires
        row.capability_hash is None,
    ensures
        claim_refusal(
            Some(row),
            environment,
            capability_hash,
            lease_seconds,
            checked_at,
            now,
        ) is Some,
{
}

} // verus!
