//! Delegated uploads: an application reserves room for a file, bytes arrive
//! under a short-lived capability, and the file is published when its member's
//! authority is shown again. No authority is kept in between.

pub mod commit;
pub mod reservation;
pub mod transfer;

use vstd::prelude::*;

use crate::clock::{checked_add_seconds, instant_plus_seconds, later};
use crate::error::{conflict, internal_integrity, AppError};
use crate::ids::{Candidate, StoredId};
use crate::model::{
    AuthorizableEntry, Capability, ExecutionContext, TestingEnvironmentContext,
};
use crate::postgres::content::objects::{
    checksum_array, ObjectChecksum, ObjectChecksumAlgorithm, ObjectChecksumType, StoredObject,
};
use crate::postgres::content::storage::{encryption_of, parse_encryption, StorageTarget};
use crate::postgres::content::{
    bad_value, object_key, require_entry_capability, to_u64, NamedChild,
};
use crate::postgres::kind_chars;
use crate::postgres::metadata::common::actor_kind;
use crate::postgres::metadata::entries::deref_entry;
use crate::text::{clone_optional_text, same_text};

verus! {

/// A delegated upload as stored.
#[derive(Clone, Debug)]
pub struct UploadRow {
    /// Upload identifier.
    pub upload_id: u128,
    /// Identifier that the application gave the operation.
    pub operation_id: u128,
    /// Testing environment that the upload belongs to.
    pub testing_environment_id: Option<u128>,
    /// Generation of the testing environment.
    pub control_version: i64,
    /// Digest of the reserving request.
    pub request_hash: Vec<u8>,
    /// Digest of the capability that admits bytes.
    pub capability_hash: Option<Vec<u8>>,
    /// Folder that the file is put into.
    pub parent_id: StoredId,
    /// Path of the folder when room was reserved.
    pub parent_path: String,
    /// Name of the file.
    pub name: String,
    /// Media type.
    pub content_type: String,
    /// Size in bytes.
    pub size_bytes: i64,
    /// Digest of the bytes.
    pub expected_sha256: Vec<u8>,
    /// File that carried the name when room was reserved.
    pub destination_entry_id: Option<u128>,
    /// Identifier that is reserved for a new file.
    pub proposed_entry_id: StoredId,
    /// Where the upload stands.
    pub status: String,
    /// End of the reservation.
    pub expires_at: i128,
    /// Lease of the running transfer.
    pub lease_token: Option<u128>,
    /// End of the lease.
    pub lease_expires_at: Option<i128>,
    /// Whether bytes may have reached the store.
    pub provider_write_started: bool,
    /// Whether the store may have been told to finish.
    pub provider_completion_started: bool,
    /// Latest time at which the store may still be working.
    pub provider_deadline_at: Option<i128>,
    /// Identifier that the store gave a multipart upload.
    pub provider_upload_id: Option<String>,
    /// Provider of the place.
    pub storage_backend: String,
    /// Configuration of the organization.
    pub storage_config_id: Option<u128>,
    /// Bucket.
    pub bucket_name: String,
    /// Region.
    pub storage_region: String,
    /// Prefix.
    pub storage_prefix: String,
    /// Role that gives access to an organization's bucket.
    pub storage_role_arn: Option<String>,
    /// External identifier that the role asks for.
    pub storage_external_id: Option<String>,
    /// How the object is encrypted.
    pub storage_encryption_mode: String,
    /// Key of the key service.
    pub storage_kms_key_arn: Option<String>,
    /// Object key.
    pub object_key: Candidate,
    /// Version that the store gave the object.
    pub object_version_id: Option<String>,
    /// Entity tag.
    pub object_etag: Option<String>,
    /// What the object's checksum is made over.
    pub object_checksum_type: Option<String>,
    /// Encoded checksum of the object.
    pub object_checksum_value: Option<Candidate>,
    /// File that the upload was published as.
    pub published_entry_id: Option<StoredId>,
}

/// Where a delegated upload stands.
#[derive(Clone, Copy, Debug, PartialEq, Eq, Structural)]
pub enum DelegatedUploadState {
    /// Room is reserved.
    Reserved,
    /// Bytes are arriving.
    Receiving,
    /// The bytes are stored.
    Staged,
    /// The file is published.
    Committed,
    /// It was cancelled.
    Cancelled,
    /// Its time ran out.
    Expired,
    /// What it left at the store is to be removed.
    CleanupPending,
}

/// What a caller learns of a delegated upload.
#[derive(Clone, Copy, Debug, PartialEq, Eq, Structural)]
pub struct DelegatedUploadStatus {
    /// Identifier that the application gave the operation.
    pub operation_id: u128,
    /// Upload identifier.
    pub upload_id: u128,
    /// Where it stands.
    pub state: DelegatedUploadState,
    /// End of the reservation.
    pub expires_at: i128,
    /// File that it was published as.
    pub published_entry_id: Option<u128>,
}

/// The state that a stored status names.
pub open spec fn state_of(status: Seq<char>) -> Option<DelegatedUploadState> {
    if status == "reserved"@ {
        Some(DelegatedUploadState::Reserved)
    } else if status == "receiving"@ {
        Some(DelegatedUploadState::Receiving)
    } else if status == "staged"@ {
        Some(DelegatedUploadState::Staged)
    } else if status == "committed"@ {
        Some(DelegatedUploadState::Committed)
    } else if status == "cancelled"@ {
        Some(DelegatedUploadState::Cancelled)
    } else if status == "expired"@ {
        Some(DelegatedUploadState::Expired)
    } else if status == "cleanup_pending"@ {
        Some(DelegatedUploadState::CleanupPending)
    } else {
        None
    }
}

/// The state that a stored status names.
pub fn upload_state(status: &str) -> (state: Option<DelegatedUploadState>)
    ensures
        state == state_of(status@),
{
    if same_text(status, "reserved") {
        Some(DelegatedUploadState::Reserved)
    } else if same_text(status, "receiving") {
        Some(DelegatedUploadState::Receiving)
    } else if same_text(status, "staged") {
        Some(DelegatedUploadState::Staged)
    } else if same_text(status, "committed") {
        Some(DelegatedUploadState::Committed)
    } else if same_text(status, "cancelled") {
        Some(DelegatedUploadState::Cancelled)
    } else if same_text(status, "expired") {
        Some(DelegatedUploadState::Expired)
    } else if same_text(status, "cleanup_pending") {
        Some(DelegatedUploadState::CleanupPending)
    } else {
        None
    }
}

/// The statuses are pairwise different words.
pub proof fn lemma_status_words()
    ensures
        state_of("reserved"@) == Some(DelegatedUploadState::Reserved),
        state_of("receiving"@) == Some(DelegatedUploadState::Receiving),
        state_of("staged"@) == Some(DelegatedUploadState::Staged),
        state_of("committed"@) == Some(DelegatedUploadState::Committed),
        state_of("cancelled"@) == Some(DelegatedUploadState::Cancelled),
        state_of("expired"@) == Some(DelegatedUploadState::Expired),
        state_of("cleanup_pending"@) == Some(DelegatedUploadState::CleanupPending),
{
    reveal_strlit("reserved");
    reveal_strlit("receiving");
    reveal_strlit("staged");
    reveal_strlit("committed");
    reveal_strlit("cancelled");
    reveal_strlit("expired");
    reveal_strlit("cleanup_pending");
    assert("reserved"@.len() == 8);
    assert("receiving"@.len() == 9 && "receiving"@[0] == 'r');
    assert("staged"@.len() == 6);
    assert("committed"@.len() == 9 && "committed"@[0] == 'c' && "committed"@[1] == 'o');
    assert("cancelled"@.len() == 9 && "cancelled"@[1] == 'a');
    assert("expired"@.len() == 7);
    assert("cleanup_pending"@.len() == 15);
}

/// The identifier of a published file.
pub open spec fn published_id(published: Option<StoredId>) -> Option<u128> {
    match published {
        Some(id) => Some(id.value),
        None => None,
    }
}

/// What a caller learns of a row with a status and a published file.
pub open spec fn status_of(
    row: UploadRow,
    status: Seq<char>,
    published: Option<u128>,
) -> Result<DelegatedUploadStatus, AppError> {
    match state_of(status) {
        None => Err(bad_value()),
        Some(state) => Ok(
            DelegatedUploadStatus {
                operation_id: row.operation_id,
                upload_id: row.upload_id,
                state,
                expires_at: row.expires_at,
                published_entry_id: published,
            },
        ),
    }
}

/// Whether a target is the place that a row remembers.
pub open spec fn row_target(target: StorageTarget, row: UploadRow) -> bool {
    &&& target.bucket == row.bucket_name
    &&& target.region == row.storage_region
    &&& target.prefix == row.storage_prefix
    &&& target.role_arn == row.storage_role_arn
    &&& target.external_id == row.storage_external_id
    &&& Some(target.encryption) == encryption_of(row.storage_encryption_mode@)
    &&& target.kms_key_arn == row.storage_kms_key_arn
}

/// The object that a row remembers.
pub open spec fn row_object(row: UploadRow) -> Result<StoredObject, AppError> {
    if row.object_checksum_type is None || row.object_checksum_value is None
        || !row.object_checksum_value->0.accepted || !row.object_key.accepted || row.size_bytes
        < 0 {
        Err(bad_value())
    } else if row.object_checksum_type->0@ == "full_object"@ {
        Ok(
            StoredObject {
                key: row.object_key.text,
                etag: row.object_etag,
                provider_version_id: row.object_version_id,
                size: row.size_bytes as u64,
                checksum: Some(
                    ObjectChecksum {
                        algorithm: ObjectChecksumAlgorithm::Sha256,
                        kind: ObjectChecksumType::FullObject,
                        value: row.object_checksum_value->0.text,
                    },
                ),
            },
        )
    } else if row.object_checksum_type->0@ == "composite"@ {
        Ok(
            StoredObject {
                key: row.object_key.text,
                etag: row.object_etag,
                provider_version_id: row.object_version_id,
                size: row.size_bytes as u64,
                checksum: Some(
                    ObjectChecksum {
                        algorithm: ObjectChecksumAlgorithm::Sha256,
                        kind: ObjectChecksumType::Composite,
                        value: row.object_checksum_value->0.text,
                    },
                ),
            },
        )
    } else {
        Err(bad_value())
    }
}

impl UploadRow {
    /// What a caller learns of the upload.
    pub fn status(&self) -> (status: Result<DelegatedUploadStatus, AppError>)
        ensures
            status == status_of(*self, self.status@, published_id(self.published_entry_id)),
    {
        let state = match upload_state(self.status.as_str()) {
            Some(state) => state,
            None => {
                return Err(internal_integrity());
            },
        };
        let published_entry_id: Option<u128> = match self.published_entry_id {
            Some(id) => Some(id.value),
            None => None,
        };
        Ok(
            DelegatedUploadStatus {
                operation_id: self.operation_id,
                upload_id: self.upload_id,
                state,
                expires_at: self.expires_at,
                published_entry_id,
            },
        )
    }

    /// The place that the upload goes to.
    pub fn target(&self) -> (target: Result<StorageTarget, AppError>)
        ensures
            if encryption_of(self.storage_encryption_mode@) is None {
                target == Err::<StorageTarget, AppError>(bad_value())
            } else {
                target is Ok && row_target(target->Ok_0, *self)
            },
    {
        let encryption = match parse_encryption(self.storage_encryption_mode.as_str()) {
            Ok(encryption) => encryption,
            Err(error) => {
                return Err(error);
            },
        };
        Ok(
            StorageTarget {
                bucket: self.bucket_name.clone(),
                region: self.storage_region.clone(),
                prefix: self.storage_prefix.clone(),
                role_arn: clone_optional_text(&self.storage_role_arn),
                external_id: clone_optional_text(&self.storage_external_id),
                encryption,
                kms_key_arn: clone_optional_text(&self.storage_kms_key_arn),
            },
        )
    }

    /// The key of the upload's object.
    pub fn key(&self) -> (key: Result<String, AppError>)
        ensures
            key == if self.object_key.accepted {
                Ok::<String, AppError>(self.object_key.text)
            } else {
                Err::<String, AppError>(bad_value())
            },
    {
        object_key(&self.object_key)
    }

    /// The digest of the upload's bytes.
    pub fn sha256(&self) -> (digest: Result<[u8; 32], AppError>)
        ensures
            if self.expected_sha256@.len() == 32 {
                digest is Ok && digest->Ok_0@ == self.expected_sha256@
            } else {
                digest == Err::<[u8; 32], AppError>(bad_value())
            },
    {
        checksum_array(&self.expected_sha256)
    }

    /// The object that the upload was stored as.
    pub fn stored(&self) -> (object: Result<StoredObject, AppError>)
        ensures
            object == row_object(*self),
    {
        let kind = match &self.object_checksum_type {
            Some(name) => {
                if same_text(name.as_str(), "full_object") {
                    ObjectChecksumType::FullObject
                } else if same_text(name.as_str(), "composite") {
                    ObjectChecksumType::Composite
                } else {
                    return Err(internal_integrity());
                }
            },
            None => {
                return Err(internal_integrity());
            },
        };
        let value = match &self.object_checksum_value {
            Some(value) => value,
            None => {
                return Err(internal_integrity());
            },
        };
        if !value.accepted {
            return Err(internal_integrity());
        }
        let key = match self.key() {
            Ok(key) => key,
            Err(error) => {
                return Err(error);
            },
        };
        let size: u64 = match to_u64(self.size_bytes) {
            Ok(size) => size,
            Err(error) => {
                return Err(error);
            },
        };
        Ok(
            StoredObject {
                key,
                etag: clone_optional_text(&self.object_etag),
                provider_version_id: clone_optional_text(&self.object_version_id),
                size,
                checksum: Some(
                    ObjectChecksum {
                        algorithm: ObjectChecksumAlgorithm::Sha256,
                        kind,
                        value: value.text.clone(),
                    },
                ),
            },
        )
    }
}

/// Seconds that a store is given to come to rest before what an upload left is
/// removed.
pub const CLEANUP_MARGIN_SECONDS: i64 = 120;

/// The latest of three instants.
pub open spec fn latest(first: i128, second: i128, third: i128) -> i128 {
    let pair = if first >= second {
        first
    } else {
        second
    };
    if pair >= third {
        pair
    } else {
        third
    }
}

/// The time before which a store may still be working on an upload: its lease,
/// its deadline, and now.
pub open spec fn busy_until(row: UploadRow, now: i128) -> i128 {
    latest(
        match row.lease_expires_at {
            Some(end) => end,
            None => now,
        },
        now,
        match row.provider_deadline_at {
            Some(deadline) => deadline,
            None => now,
        },
    )
}

/// When what an upload left at the store may be removed.
pub open spec fn cleanup_time(row: UploadRow, now: i128) -> Option<i128> {
    instant_plus_seconds(busy_until(row, now) as int, CLEANUP_MARGIN_SECONDS as int)
}

/// When what an upload left at the store may be removed: not before its lease
/// and the store's own deadline are over.
pub fn cleanup_deadline(row: &UploadRow, now: i128) -> (deadline: Result<i128, AppError>)
    ensures
        deadline == match cleanup_time(*row, now) {
            Some(time) => Ok::<i128, AppError>(time),
            None => Err::<i128, AppError>(bad_value()),
        },
{
    let lease: i128 = match row.lease_expires_at {
        Some(end) => end,
        None => now,
    };
    let provider: i128 = match row.provider_deadline_at {
        Some(deadline) => deadline,
        None => now,
    };
    match checked_add_seconds(later(later(lease, now), provider), CLEANUP_MARGIN_SECONDS) {
        Some(time) => Ok(time),
        None => Err(internal_integrity()),
    }
}

/// What is written where an upload ends before it is published. Its capability
/// and its lease go with it.
#[derive(Clone, Copy, Debug)]
pub struct RowSettlement {
    /// The status it ends with.
    pub status: &'static str,
    /// When what it left at the store may be removed.
    pub cleanup_after: Option<i128>,
}

/// Whether an upload is still on its way.
pub open spec fn is_open(status: Seq<char>) -> bool {
    status == "reserved"@ || status == "receiving"@ || status == "staged"@
}

/// Whether an upload is still on its way.
pub fn still_open(status: &str) -> (answer: bool)
    ensures
        answer == is_open(status@),
{
    same_text(status, "reserved") || same_text(status, "receiving") || same_text(status, "staged")
}

/// How an upload ends before it is published: with a cleanup where bytes may
/// have reached the store, else with the given status.
pub open spec fn ending(row: UploadRow, now: i128, without_bytes: &'static str) -> Result<
    RowSettlement,
    AppError,
> {
    if !row.provider_write_started {
        Ok(RowSettlement { status: without_bytes, cleanup_after: None })
    } else {
        match cleanup_time(row, now) {
            Some(time) => Ok(
                RowSettlement { status: "cleanup_pending", cleanup_after: Some(time) },
            ),
            None => Err(bad_value()),
        }
    }
}

/// How an upload ends before it is published.
fn end_upload(row: &UploadRow, now: i128, without_bytes: &'static str) -> (settlement: Result<
    RowSettlement,
    AppError,
>)
    ensures
        settlement == ending(*row, now, without_bytes),
{
    if !row.provider_write_started {
        return Ok(RowSettlement { status: without_bytes, cleanup_after: None });
    }
    match cleanup_deadline(row, now) {
        Ok(time) => Ok(RowSettlement { status: "cleanup_pending", cleanup_after: Some(time) }),
        Err(error) => Err(error),
    }
}

/// How the end of its reservation settles an upload, where it does.
pub open spec fn expiry_of(row: UploadRow, now: i128) -> Result<Option<RowSettlement>, AppError> {
    if row.expires_at > now || !is_open(row.status@) {
        Ok(None)
    } else {
        match ending(row, now, "expired") {
            Ok(settlement) => Ok(Some(settlement)),
            Err(error) => Err(error),
        }
    }
}

/// The status of an upload once the end of its reservation was looked at.
pub open spec fn status_after(row: UploadRow, now: i128) -> Seq<char> {
    match expiry_of(row, now) {
        Ok(Some(settlement)) => settlement.status@,
        _ => row.status@,
    }
}

/// Whether a row is another one that was settled.
pub open spec fn is_settled(after: UploadRow, before: UploadRow, status: Seq<char>) -> bool {
    &&& after == (UploadRow {
        status: after.status,
        capability_hash: None,
        lease_token: None,
        lease_expires_at: None,
        ..before
    })
    &&& after.status@ == status
}

/// Settles an upload whose reservation is over. What is returned is to be
/// written; nothing is, where the upload goes on or has ended already.
pub fn expire(row: &mut UploadRow, now: i128) -> (settlement: Result<Option<RowSettlement>, AppError>)
    ensures
        settlement == expiry_of(*old(row), now),
        settlement matches Ok(Some(written)) ==> is_settled(
            *final(row),
            *old(row),
            written.status@,
        ),
        !(settlement matches Ok(Some(_))) ==> *final(row) == *old(row),
        final(row).status@ == status_after(*old(row), now),
{
    if row.expires_at > now || !still_open(row.status.as_str()) {
        return Ok(None);
    }
    let settlement = match end_upload(row, now, "expired") {
        Ok(settlement) => settlement,
        Err(error) => {
            return Err(error);
        },
    };
    row.status = settlement.status.to_owned();
    row.capability_hash = None;
    row.lease_token = None;
    row.lease_expires_at = None;
    Ok(Some(settlement))
}

/// Looking at an expired upload again changes nothing: it stays settled.
pub proof fn law_expiry_settles_once(before: UploadRow, after: UploadRow, now: i128, again: i128)
    requires
        expiry_of(before, now) matches Ok(Some(written)) && is_settled(
            after,
            before,
            written.status@,
        ),
    ensures
        expiry_of(after, again) == Ok::<Option<RowSettlement>, AppError>(None),
{
    lemma_status_words();
}

/// A published upload never expires, and neither does one that ended in another
/// way.
pub proof fn law_ended_uploads_never_expire(row: UploadRow, now: i128)
    requires
        !is_open(row.status@),
    ensures
        expiry_of(row, now) == Ok::<Option<RowSettlement>, AppError>(None),
        status_after(row, now) == row.status@,
{
}

/// Bytes that may have reached the store are always cleaned up, and never while
/// the store may still be working on them.
pub proof fn law_cleanup_waits_for_the_store(
    row: UploadRow,
    now: i128,
    without_bytes: &'static str,
)
    requires
        row.provider_write_started,
        ending(row, now, without_bytes) is Ok,
    ensures
        ending(row, now, without_bytes)->Ok_0.status == "cleanup_pending",
        ending(row, now, without_bytes)->Ok_0.cleanup_after is Some,
        ending(row, now, without_bytes)->Ok_0.cleanup_after->0 > now,
        row.lease_expires_at matches Some(end) ==> ending(
            row,
            now,
            without_bytes,
        )->Ok_0.cleanup_after->0 > end,
        row.provider_deadline_at matches Some(deadline) ==> ending(
            row,
            now,
            without_bytes,
        )->Ok_0.cleanup_after->0 > deadline,
{
}

/// Who a delegated upload belongs to: one membership, through one application,
/// in one generation of one environment.
#[derive(Clone, Debug)]
pub struct DelegatedIdentity {
    /// Generation of the testing environment.
    pub control_version: i64,
    /// Organization identifier.
    pub organization: u128,
    /// Principal identifier.
    pub principal: u128,
    /// Membership identifier.
    pub membership: u128,
    /// Kind of the member.
    pub actor_type: &'static str,
    /// Identifier of the member.
    pub actor_id: String,
    /// Application that acts for the member.
    pub application: String,
}

/// The generation of an optional testing environment.
pub open spec fn generation_of(environment: Option<TestingEnvironmentContext>) -> i64 {
    match environment {
        Some(context) => context.control_version,
        None => 0,
    }
}

/// The generation of an optional testing environment.
pub fn generation(environment: Option<TestingEnvironmentContext>) -> (version: i64)
    ensures
        version == generation_of(environment),
{
    match environment {
        Some(context) => context.control_version,
        None => 0,
    }
}

/// Who a delegated upload of a request belongs to. Only an application that
/// acts for a bound membership has any.
pub fn delegated_identity(context: &ExecutionContext) -> (identity: Result<
    DelegatedIdentity,
    AppError,
>)
    ensures
        if context.authorization.binding is None || context.authorization.application() is None {
            identity == Err::<DelegatedIdentity, AppError>(AppError::Forbidden)
        } else {
            &&& identity is Ok
            &&& identity->Ok_0.control_version == generation_of(context.testing_environment)
            &&& identity->Ok_0.organization == context.authorization.binding->0.organization_id
            &&& identity->Ok_0.principal == context.authorization.binding->0.principal_id
            &&& identity->Ok_0.membership == context.authorization.binding->0.membership_id
            &&& identity->Ok_0.actor_type@ == kind_chars(context.authorization.actor.kind)
            &&& identity->Ok_0.actor_id == context.authorization.actor.id
            &&& Some(identity->Ok_0.application@) == context.authorization.application()
        },
{
    let binding = match &context.authorization.binding {
        Some(binding) => binding,
        None => {
            return Err(AppError::Forbidden);
        },
    };
    let application = match context.authorization.originating_application() {
        Some(application) => application,
        None => {
            return Err(AppError::Forbidden);
        },
    };
    Ok(
        DelegatedIdentity {
            control_version: generation(context.testing_environment),
            organization: binding.organization_id,
            principal: binding.principal_id,
            membership: binding.membership_id,
            actor_type: actor_kind(context.authorization.actor.kind),
            actor_id: context.authorization.actor.id.clone(),
            application: application.to_owned(),
        },
    )
}

/// Whether an upload belongs to an environment.
pub open spec fn in_scope(row: UploadRow, environment: Option<TestingEnvironmentContext>) -> bool {
    &&& row.testing_environment_id == match environment {
        Some(context) => Some(context.id),
        None => None,
    }
    &&& row.control_version == generation_of(environment)
}

/// Refuses an upload of another environment or of another generation of it.
pub fn validate_scope(row: &UploadRow, environment: Option<TestingEnvironmentContext>) -> (result:
    Result<(), AppError>)
    ensures
        result == if in_scope(*row, environment) {
            Ok::<(), AppError>(())
        } else {
            Err::<(), AppError>(AppError::NotFound)
        },
{
    let id: Option<u128> = match environment {
        Some(context) => Some(context.id),
        None => None,
    };
    if row.testing_environment_id != id || row.control_version != generation(environment) {
        return Err(AppError::NotFound);
    }
    Ok(())
}

/// The first reason why an upload may not go to its destination. `parent` is
/// the folder as the upload policy admits it, or its refusal.
pub open spec fn destination_refusal(
    row: UploadRow,
    parent: Result<AuthorizableEntry, AppError>,
    child: Option<NamedChild>,
) -> Option<AppError> {
    if !row.parent_id.accepted {
        Some(bad_value())
    } else if parent is Err {
        Some(parent->Err_0)
    } else if child is Some && !child->0.entry_id.accepted {
        Some(bad_value())
    } else if child_id(child) != row.destination_entry_id {
        Some(AppError::Conflict { code: "delegated_upload_destination_changed" })
    } else {
        None
    }
}

/// The identifier of what carries a name.
pub open spec fn child_id(child: Option<NamedChild>) -> Option<u128> {
    match child {
        Some(found) => Some(found.entry_id.value),
        None => None,
    }
}

/// The identifier of what carries a name; one that its type does not accept
/// fails.
pub fn named_child_id(child: &Option<NamedChild>) -> (id: Result<Option<u128>, AppError>)
    ensures
        id == if child is Some && !child->0.entry_id.accepted {
            Err::<Option<u128>, AppError>(bad_value())
        } else {
            Ok::<Option<u128>, AppError>(child_id(*child))
        },
{
    match child {
        Some(found) => if found.entry_id.accepted {
            Ok(Some(found.entry_id.value))
        } else {
            Err(internal_integrity())
        },
        None => Ok(None),
    }
}

/// Refuses an upload whose folder the caller may no longer write to, or whose
/// name another entry carries now than when room was reserved.
pub fn authorize_destination(
    row: &UploadRow,
    parent: &Result<AuthorizableEntry, AppError>,
    child: &Option<NamedChild>,
) -> (result: Result<(), AppError>)
    ensures
        match destination_refusal(*row, *parent, *child) {
            Some(error) => result == Err::<(), AppError>(error),
            None => result == Ok::<(), AppError>(()),
        },
{
    if !row.parent_id.accepted {
        return Err(internal_integrity());
    }
    if let Err(error) = parent {
        return Err(*error);
    }
    let current: Option<u128> = match named_child_id(child) {
        Ok(current) => current,
        Err(error) => {
            return Err(error);
        },
    };
    if current != row.destination_entry_id {
        return Err(conflict("delegated_upload_destination_changed"));
    }
    Ok(())
}

/// The first reason why the outcome of a published upload is not disclosed.
pub open spec fn committed_refusal(
    row: UploadRow,
    entry: Option<AuthorizableEntry>,
) -> Option<AppError> {
    if row.published_entry_id is None || !row.published_entry_id->0.accepted {
        Some(bad_value())
    } else if entry is None {
        Some(AppError::NotFound)
    } else if !entry->0.access.permits(Capability::WriteContent) {
        Some(AppError::Forbidden)
    } else {
        None
    }
}

/// Refuses the outcome of a published upload to a caller that may no longer
/// write to the file.
pub fn authorize_committed(row: &UploadRow, entry: Option<&AuthorizableEntry>) -> (result: Result<
    (),
    AppError,
>)
    ensures
        match committed_refusal(*row, deref_entry(entry)) {
            Some(error) => result == Err::<(), AppError>(error),
            None => result == Ok::<(), AppError>(()),
        },
{
    match row.published_entry_id {
        Some(id) => {
            if !id.accepted {
                return Err(internal_integrity());
            }
        },
        None => {
            return Err(internal_integrity());
        },
    }
    match entry {
        Some(entry) => require_entry_capability(entry, Capability::WriteContent),
        None => Err(AppError::NotFound),
    }
}

/// What a caller learns, with what the end of the reservation writes first.
#[derive(Clone, Copy, Debug)]
pub struct Described {
    /// What the caller learns.
    pub status: DelegatedUploadStatus,
    /// What is written first.
    pub settlement: Option<RowSettlement>,
}

/// What a caller learns of an upload at a time.
pub open spec fn description_of(row: UploadRow, now: i128) -> Result<Described, AppError> {
    match expiry_of(row, now) {
        Err(error) => Err(error),
        Ok(settlement) => match status_of(
            row,
            status_after(row, now),
            published_id(row.published_entry_id),
        ) {
            Err(error) => Err(error),
            Ok(status) => Ok(Described { status, settlement }),
        },
    }
}

/// Describes an upload to the one it belongs to.
pub fn describe(row: Option<UploadRow>, now: i128) -> (described: Result<Described, AppError>)
    ensures
        described == match row {
            None => Err::<Described, AppError>(AppError::NotFound),
            Some(found) => description_of(found, now),
        },
{
    let mut found = match row {
        Some(found) => found,
        None => {
            return Err(AppError::NotFound);
        },
    };
    let settlement = match expire(&mut found, now) {
        Ok(settlement) => settlement,
        Err(error) => {
            return Err(error);
        },
    };
    match found.status() {
        Ok(status) => Ok(Described { status, settlement }),
        Err(error) => Err(error),
    }
}

/// What cancelling an upload leads to. One that is no longer on its way is
/// described as it is.
pub open spec fn cancellation_of(row: UploadRow, checked_at: i128, now: i128) -> Result<
    Described,
    AppError,
> {
    if expiry_of(row, checked_at) is Err || !is_open(status_after(row, checked_at)) {
        description_of(row, checked_at)
    } else {
        match ending(row, now, "cancelled") {
            Err(error) => Err(error),
            Ok(settlement) => match status_of(
                row,
                settlement.status@,
                published_id(row.published_entry_id),
            ) {
                Err(error) => Err(error),
                Ok(status) => Ok(Described { status, settlement: Some(settlement) }),
            },
        }
    }
}

/// Cancels an upload that is still on its way. `checked_at` is when the end of
/// its reservation was looked at.
pub fn cancel(row: Option<UploadRow>, checked_at: i128, now: i128) -> (described: Result<
    Described,
    AppError,
>)
    ensures
        described == match row {
            None => Err::<Described, AppError>(AppError::NotFound),
            Some(found) => cancellation_of(found, checked_at, now),
        },
{
    let mut found = match row {
        Some(found) => found,
        None => {
            return Err(AppError::NotFound);
        },
    };
    let expired = match expire(&mut found, checked_at) {
        Ok(settlement) => settlement,
        Err(error) => {
            return Err(error);
        },
    };
    proof {
        lemma_status_words();
    }
    if !still_open(found.status.as_str()) {
        return match found.status() {
            Ok(status) => Ok(Described { status, settlement: expired }),
            Err(error) => Err(error),
        };
    }
    let settlement = match end_upload(&found, now, "cancelled") {
        Ok(settlement) => settlement,
        Err(error) => {
            return Err(error);
        },
    };
    found.status = settlement.status.to_owned();
    match found.status() {
        Ok(status) => Ok(Described { status, settlement: Some(settlement) }),
        Err(error) => Err(error),
    }
}

/// Cancelling a published upload leaves it published.
pub proof fn law_published_uploads_cannot_be_cancelled(
    row: UploadRow,
    checked_at: i128,
    now: i128,
)
    requires
        row.status@ == "committed"@,
    ensures
        cancellation_of(row, checked_at, now) matches Ok(described)
            && described.status.state == DelegatedUploadState::Committed
            && described.settlement is None,
{
    lemma_status_words();
}

/// A cancelled upload is over: it is never open again, and cancelling it again
/// changes nothing.
pub proof fn law_cancelling_ends_an_upload(row: UploadRow, checked_at: i128, now: i128)
    requires
        cancellation_of(row, checked_at, now) matches Ok(described)
            && described.settlement is Some,
    ensures
        !is_open(cancellation_of(row, checked_at, now)->Ok_0.settlement->0.status@),
{
    lemma_status_words();
}

} // verus!
