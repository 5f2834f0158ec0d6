//! Multipart uploads: a session that collects parts and is then completed into
//! one object, or stopped.

use vstd::prelude::*;

use crate::error::{conflict, internal_error, internal_integrity, validation, AppError};
use crate::ids::{hyphenated, hyphenated_chars, Candidate, StoredId};
use crate::model::{
    ActorRef, AuthorizableEntry, Capability, ExecutionContext, IdempotencyClaim,
    RequestAuthContext,
};
use crate::postgres::content::objects::{
    checksum_array, is_expected_object, multipart_key, multipart_key_of, stored_checksum,
    stored_checksum_of, validate_stored, ObjectChecksumType, StoredObject,
};
use crate::postgres::content::publishing::{
    publication_refusal, publish_file_content, published, Publication, PublicationRequest,
    StoredContent,
};
use crate::postgres::content::storage::{
    encryption_name, encryption_of, encryption_word, identify_storage_target,
    is_organization_place, is_platform_place, target_for_place, target_of_place, StorageConfigRow,
    StorageReference, StorageTarget, StoredPlace,
};
use crate::postgres::content::upload::{
    is_write_target, place_content, provider_of, write_refusal,
};
use crate::postgres::content::{
    bad_value, content_claim, content_claim_of, ensure_idempotency_in_progress, in_progress,
    object_key, parent_refusal, require_parent, to_i32, to_i64, to_u64, ContentClaim, NamedChild,
    OperationState,
};
use crate::postgres::kind_chars;
use crate::postgres::metadata::common::{actor_kind, ChangeRecord, Detail, DetailValue};
use crate::postgres::metadata::entries::deref_entry;
use crate::postgres::repository::part_columns;
use crate::text::{
    borrowed_chars, clone_optional_text, is_blank, optional_chars, same_text, trim,
};

verus! {

/// How a file is cut into parts.
#[derive(Clone, Debug)]
pub struct MultipartPlan {
    /// Size of the file.
    pub file_size: u64,
    /// Size of a full part.
    pub part_size: u64,
    /// Number of parts.
    pub part_count: u32,
    /// Size of each part, in the order of their numbers.
    pub sizes: Vec<u64>,
}

impl MultipartPlan {
    /// The size of a part, counted from one.
    pub open spec fn size_of(self, part_number: u32) -> Option<u64> {
        if 1 <= part_number <= self.sizes@.len() {
            Some(self.sizes@[part_number - 1])
        } else {
            None
        }
    }

    /// The size of a part, counted from one.
    pub fn expected_part_size(&self, part_number: u32) -> (size: Option<u64>)
        ensures
            size == self.size_of(part_number),
    {
        if 1 <= part_number && part_number as usize <= self.sizes.len() {
            Some(self.sizes[part_number as usize - 1])
        } else {
            None
        }
    }
}

/// A multipart upload as stored.
#[derive(Clone, Debug)]
pub struct MultipartUploadRow {
    /// Upload identifier.
    pub upload_id: StoredId,
    /// Folder that the file is put into.
    pub parent_entry_id: StoredId,
    /// Kind of the owner.
    pub owner_type: String,
    /// Identifier of the owner.
    pub owner_id: String,
    /// Application that acts for the owner.
    pub origin_app_id: Option<String>,
    /// Name of the file.
    pub name: String,
    /// Media type.
    pub content_type: String,
    /// Declared size.
    pub declared_size_bytes: i64,
    /// Size of a full part.
    pub part_size_bytes: i64,
    /// Number of parts.
    pub expected_part_count: i32,
    /// Place.
    pub place: StoredPlace,
    /// Object key.
    pub object_key: Candidate,
    /// Identifier that the store gave the upload.
    pub provider_upload_id: String,
    /// Where the upload stands.
    pub status: String,
    /// End of the session.
    pub expires_at: i128,
}

/// A part as stored.
#[derive(Clone, Debug)]
pub struct MultipartPartRow {
    /// Number of the part.
    pub part_number: i32,
    /// Entity tag.
    pub etag: String,
    /// Size in bytes.
    pub size_bytes: i64,
    /// Digest.
    pub checksum_sha256: Vec<u8>,
    /// Whether the type of completed parts accepts the part.
    pub accepted: bool,
}

/// A part as the client reports it.
#[derive(Clone, Debug)]
pub struct ClientCompletedPart {
    /// Number of the part.
    pub part_number: u32,
    /// Entity tag.
    pub etag: String,
}

/// A part that is ready to be completed.
#[derive(Clone, Debug)]
pub struct CompletedPart {
    /// Number of the part.
    pub part_number: u32,
    /// Entity tag.
    pub etag: String,
    /// Size in bytes.
    pub size: u64,
    /// Digest.
    pub sha256: [u8; 32],
}

/// Whether a plan is the one that an upload was started with.
pub open spec fn is_started_plan(row: MultipartUploadRow, planned: Option<MultipartPlan>) -> bool {
    &&& row.declared_size_bytes >= 0
    &&& row.part_size_bytes >= 0
    &&& row.expected_part_count >= 0
    &&& planned is Some
    &&& planned->0.part_size == row.part_size_bytes
    &&& planned->0.part_count == row.expected_part_count
}

/// The plan of a stored upload. `planned` is the plan for the declared size,
/// where there is one; it has to be the one that the upload was started with.
pub fn multipart_plan(row: &MultipartUploadRow, planned: Option<MultipartPlan>) -> (plan: Result<
    MultipartPlan,
    AppError,
>)
    ensures
        plan == if is_started_plan(*row, planned) {
            Ok::<MultipartPlan, AppError>(planned->0)
        } else {
            Err::<MultipartPlan, AppError>(bad_value())
        },
{
    match to_u64(row.declared_size_bytes) {
        Ok(_) => {},
        Err(error) => {
            return Err(error);
        },
    }
    let plan = match planned {
        Some(plan) => plan,
        None => {
            return Err(internal_integrity());
        },
    };
    let part_size: u64 = match to_u64(row.part_size_bytes) {
        Ok(part_size) => part_size,
        Err(error) => {
            return Err(error);
        },
    };
    if row.expected_part_count < 0 {
        return Err(internal_error());
    }
    if plan.part_size != part_size || plan.part_count != row.expected_part_count as u32 {
        return Err(internal_integrity());
    }
    Ok(plan)
}

/// What stopping an upload does.
#[derive(Clone, Copy, Debug, PartialEq, Eq, Structural)]
pub enum MultipartAbortDisposition {
    /// It is stopped.
    Abort,
    /// It has stopped already.
    AlreadyStopped,
    /// It can no longer be stopped.
    Reject,
}

/// What stopping an upload in a state does; an unknown state has no answer.
pub open spec fn disposition_of(status: Seq<char>) -> Option<MultipartAbortDisposition> {
    if status == "initiated"@ || status == "uploading"@ {
        Some(MultipartAbortDisposition::Abort)
    } else if status == "aborted"@ || status == "expired"@ {
        Some(MultipartAbortDisposition::AlreadyStopped)
    } else if status == "completing"@ || status == "completed"@ {
        Some(MultipartAbortDisposition::Reject)
    } else {
        None
    }
}

/// What stopping an upload in a state does.
pub fn multipart_abort_disposition(status: &str) -> (disposition: Result<
    MultipartAbortDisposition,
    AppError,
>)
    ensures
        disposition == match disposition_of(status@) {
            Some(known) => Ok::<MultipartAbortDisposition, AppError>(known),
            None => Err::<MultipartAbortDisposition, AppError>(bad_value()),
        },
{
    if same_text(status, "initiated") || same_text(status, "uploading") {
        Ok(MultipartAbortDisposition::Abort)
    } else if same_text(status, "aborted") || same_text(status, "expired") {
        Ok(MultipartAbortDisposition::AlreadyStopped)
    } else if same_text(status, "completing") || same_text(status, "completed") {
        Ok(MultipartAbortDisposition::Reject)
    } else {
        Err(internal_integrity())
    }
}

/// Whether an upload still collects parts.
pub open spec fn collects_parts(status: Seq<char>) -> bool {
    status == "initiated"@ || status == "uploading"@
}

/// Whether an upload still collects parts.
fn is_collecting(status: &str) -> (answer: bool)
    ensures
        answer == collects_parts(status@),
{
    same_text(status, "initiated") || same_text(status, "uploading")
}

/// Whether the session of an upload ended before its completion began. A
/// completion that has begun outlives the session.
pub fn multipart_completion_expired(status: &str, expires_at: i128, now: i128) -> (expired: bool)
    ensures
        expired == (collects_parts(status@) && expires_at <= now),
{
    is_collecting(status) && expires_at <= now
}

/// A completion that was begun cannot be stopped, and a completed upload
/// neither.
pub proof fn law_completions_cannot_be_aborted(status: Seq<char>)
    requires
        status == "completing"@ || status == "completed"@,
    ensures
        disposition_of(status) == Some(MultipartAbortDisposition::Reject),
{
    reveal_strlit("initiated");
    reveal_strlit("uploading");
    reveal_strlit("aborted");
    reveal_strlit("expired");
    reveal_strlit("completing");
    reveal_strlit("completed");
    assert("initiated"@.len() == 9 && "initiated"@[0] == 'i');
    assert("uploading"@.len() == 9 && "uploading"@[0] == 'u');
    assert("aborted"@.len() == 7);
    assert("expired"@.len() == 7);
    assert("completing"@.len() == 10);
    assert("completed"@.len() == 9 && "completed"@[0] == 'c');
}

/// A completion that was begun survives the end of its session: its expiry is
/// never looked at again.
pub proof fn law_completions_survive_expiry(status: Seq<char>)
    requires
        disposition_of(status) == Some(MultipartAbortDisposition::Reject),
    ensures
        !collects_parts(status),
{
}

/// An upload can be stopped exactly while it collects parts, so no part is
/// recorded for an upload that was stopped or is being completed.
pub proof fn law_abortable_uploads_are_those_that_collect(status: Seq<char>)
    ensures
        collects_parts(status) == (disposition_of(status) == Some(
            MultipartAbortDisposition::Abort,
        )),
{
}

/// What the client needs to upload parts.
#[derive(Clone, Copy, Debug, PartialEq, Eq, Structural)]
pub struct MultipartReceipt {
    /// Upload identifier.
    pub upload_id: u128,
    /// Size of a full part.
    pub part_size: u64,
    /// Number of parts.
    pub part_count: u32,
    /// End of the session.
    pub expires_at: i128,
}

/// The receipt of a stored upload.
pub open spec fn receipt_of(row: MultipartUploadRow, planned: Option<MultipartPlan>) -> Result<
    MultipartReceipt,
    AppError,
> {
    if !is_started_plan(row, planned) || !row.upload_id.accepted {
        Err(bad_value())
    } else {
        Ok(
            MultipartReceipt {
                upload_id: row.upload_id.value,
                part_size: planned->0.part_size,
                part_count: planned->0.part_count,
                expires_at: row.expires_at,
            },
        )
    }
}

/// The receipt of a stored upload.
pub fn multipart_receipt(row: &MultipartUploadRow, planned: Option<MultipartPlan>) -> (receipt:
    Result<MultipartReceipt, AppError>)
    ensures
        receipt == receipt_of(*row, planned),
{
    let plan = match multipart_plan(row, planned) {
        Ok(plan) => plan,
        Err(error) => {
            return Err(error);
        },
    };
    if !row.upload_id.accepted {
        return Err(internal_error());
    }
    Ok(
        MultipartReceipt {
            upload_id: row.upload_id.value,
            part_size: plan.part_size,
            part_count: plan.part_count,
            expires_at: row.expires_at,
        },
    )
}

/// Whether an upload is the caller's: the same member through the same
/// application.
pub open spec fn owns_upload(row: MultipartUploadRow, authorization: RequestAuthContext) -> bool {
    &&& row.owner_type@ == kind_chars(authorization.actor.kind)
    &&& row.owner_id@ == authorization.actor.id@
    &&& optional_chars(row.origin_app_id) == authorization.application()
}

/// Refuses everyone but the member that started an upload, through the
/// application that it was started through. The upload is not disclosed.
pub fn authorize_multipart_owner(
    authorization: &RequestAuthContext,
    row: &MultipartUploadRow,
) -> (result: Result<(), AppError>)
    ensures
        result == if owns_upload(*row, *authorization) {
            Ok::<(), AppError>(())
        } else {
            Err::<(), AppError>(AppError::NotFound)
        },
{
    let same_origin = match (&row.origin_app_id, authorization.originating_application()) {
        (Some(recorded), Some(current)) => same_text(recorded.as_str(), current),
        (None, None) => true,
        _ => false,
    };
    if same_text(row.owner_type.as_str(), actor_kind(authorization.actor.kind)) && same_text(
        row.owner_id.as_str(),
        authorization.actor.id.as_str(),
    ) && same_origin {
        Ok(())
    } else {
        Err(AppError::NotFound)
    }
}

/// A completion that does not fit what was uploaded.
pub open spec fn bad_completion() -> AppError {
    AppError::Validation { code: "invalid_multipart_completion" }
}

/// The first reason why a part cannot be completed.
pub open spec fn part_error(
    plan: MultipartPlan,
    stored: MultipartPartRow,
    supplied: ClientCompletedPart,
) -> Option<AppError> {
    if stored.part_number < 0 {
        Some(bad_value())
    } else if supplied.part_number != stored.part_number || supplied.etag@ != stored.etag@ {
        Some(bad_completion())
    } else if plan.size_of(stored.part_number as u32) is None {
        Some(bad_completion())
    } else if stored.size_bytes < 0 {
        Some(bad_value())
    } else if plan.size_of(stored.part_number as u32)->0 != stored.size_bytes {
        Some(bad_completion())
    } else if stored.checksum_sha256@.len() != 32 {
        Some(bad_value())
    } else if !stored.accepted {
        Some(bad_completion())
    } else {
        None
    }
}

/// The first reason why parts cannot be completed.
pub open spec fn parts_error(
    plan: MultipartPlan,
    stored: Seq<MultipartPartRow>,
    client: Seq<ClientCompletedPart>,
) -> Option<AppError>
    decreases stored.len(),
{
    if stored.len() == 0 || client.len() == 0 {
        None
    } else {
        match parts_error(plan, stored.drop_last(), client.drop_last()) {
            Some(error) => Some(error),
            None => part_error(plan, stored.last(), client.last()),
        }
    }
}

/// The first failure among the first parts is the first failure of all.
proof fn lemma_parts_error_persists(
    plan: MultipartPlan,
    stored: Seq<MultipartPartRow>,
    client: Seq<ClientCompletedPart>,
    length: int,
)
    requires
        stored.len() == client.len(),
        0 <= length <= stored.len(),
        parts_error(plan, stored.take(length), client.take(length)) is Some,
    ensures
        parts_error(plan, stored, client) == parts_error(
            plan,
            stored.take(length),
            client.take(length),
        ),
    decreases stored.len() - length,
{
    if length == stored.len() {
        assert(stored.take(length) =~= stored);
        assert(client.take(length) =~= client);
    } else {
        assert(stored.take(length + 1).drop_last() =~= stored.take(length));
        assert(client.take(length + 1).drop_last() =~= client.take(length));
        lemma_parts_error_persists(plan, stored, client, length + 1);
    }
}

/// The first reason why an upload cannot be completed from its parts.
pub open spec fn completion_error(
    plan: MultipartPlan,
    stored: Seq<MultipartPartRow>,
    client: Seq<ClientCompletedPart>,
) -> Option<AppError> {
    if stored.len() != plan.part_count || client.len() != stored.len() {
        Some(bad_completion())
    } else {
        parts_error(plan, stored, client)
    }
}

/// Whether a completed part is a stored one.
pub open spec fn is_completed_part(part: CompletedPart, stored: MultipartPartRow) -> bool {
    &&& part.part_number == stored.part_number
    &&& part.etag == stored.etag
    &&& part.size == stored.size_bytes
    &&& part.sha256@ == stored.checksum_sha256@
}

/// Whether completed parts are the stored ones, one for one.
pub open spec fn are_completed_parts(
    parts: Seq<CompletedPart>,
    stored: Seq<MultipartPartRow>,
) -> bool {
    parts.len() == stored.len() && forall|k: int|
        0 <= k < stored.len() ==> is_completed_part(#[trigger] parts[k], stored[k])
}

/// The parts to complete an upload from: as many as planned, each as it was
/// recorded, as the client reports it, and of its planned size.
pub fn completion_parts(
    plan: &MultipartPlan,
    stored: &Vec<MultipartPartRow>,
    client: &Vec<ClientCompletedPart>,
) -> (parts: Result<Vec<CompletedPart>, AppError>)
    ensures
        match completion_error(*plan, stored@, client@) {
            Some(error) => parts == Err::<Vec<CompletedPart>, AppError>(error),
            None => parts is Ok && are_completed_parts(parts->Ok_0@, stored@),
        },
{
    if stored.len() != plan.part_count as usize || client.len() != stored.len() {
        return Err(validation("invalid_multipart_completion"));
    }
    let mut completed: Vec<CompletedPart> = Vec::new();
    let mut index: usize = 0;
    assert(stored@.take(0) =~= Seq::<MultipartPartRow>::empty());
    assert(client@.take(0) =~= Seq::<ClientCompletedPart>::empty());
    while index < stored.len()
        invariant
            index <= stored@.len(),
            stored@.len() == client@.len(),
            stored@.len() == plan.part_count,
            parts_error(*plan, stored@.take(index as int), client@.take(index as int)) is None,
            are_completed_parts(completed@, stored@.take(index as int)),
        decreases stored@.len() - index,
    {
        let row = &stored[index];
        let supplied = &client[index];
        proof {
            assert(stored@.take(index + 1).drop_last() =~= stored@.take(index as int));
            assert(client@.take(index + 1).drop_last() =~= client@.take(index as int));
            assert(stored@.take(index + 1).last() == *row);
            assert(client@.take(index + 1).last() == *supplied);
            if part_error(*plan, *row, *supplied) is Some {
                lemma_parts_error_persists(*plan, stored@, client@, index + 1);
            }
        }
        if row.part_number < 0 {
            return Err(internal_error());
        }
        let part_number: u32 = row.part_number as u32;
        if supplied.part_number != part_number || !same_text(
            supplied.etag.as_str(),
            row.etag.as_str(),
        ) {
            return Err(validation("invalid_multipart_completion"));
        }
        let expected: u64 = match plan.expected_part_size(part_number) {
            Some(expected) => expected,
            None => {
                return Err(validation("invalid_multipart_completion"));
            },
        };
        let size: u64 = match to_u64(row.size_bytes) {
            Ok(size) => size,
            Err(error) => {
                return Err(error);
            },
        };
        if expected != size {
            return Err(validation("invalid_multipart_completion"));
        }
        let sha256 = match checksum_array(&row.checksum_sha256) {
            Ok(sha256) => sha256,
            Err(error) => {
                return Err(error);
            },
        };
        if !row.accepted {
            return Err(validation("invalid_multipart_completion"));
        }
        completed.push(CompletedPart { part_number, etag: row.etag.clone(), size, sha256 });
        index += 1;
        assert(are_completed_parts(completed@, stored@.take(index as int)));
    }
    assert(stored@.take(stored@.len() as int) =~= stored@);
    assert(client@.take(client@.len() as int) =~= client@);
    Ok(completed)
}

/// Every part of an upload that is completed was recorded, is what the client
/// reports, and has its planned size.
pub proof fn law_completed_parts_fit_the_plan(
    plan: MultipartPlan,
    stored: Seq<MultipartPartRow>,
    client: Seq<ClientCompletedPart>,
    index: int,
)
    requires
        completion_error(plan, stored, client) is None,
        0 <= index < stored.len(),
    ensures
        stored.len() == plan.part_count,
        client.len() == plan.part_count,
        client[index].part_number == stored[index].part_number,
        client[index].etag@ == stored[index].etag@,
        plan.size_of(client[index].part_number) == Some(stored[index].size_bytes as u64),
    decreases stored.len(),
{
    lemma_completed_part(plan, stored, client, index);
}

/// What holds of each part where no part fails.
proof fn lemma_completed_part(
    plan: MultipartPlan,
    stored: Seq<MultipartPartRow>,
    client: Seq<ClientCompletedPart>,
    index: int,
)
    requires
        stored.len() == client.len(),
        parts_error(plan, stored, client) is None,
        0 <= index < stored.len(),
    ensures
        part_error(plan, stored[index], client[index]) is None,
    decreases stored.len(),
{
    if index < stored.len() - 1 {
        lemma_completed_part(plan, stored.drop_last(), client.drop_last(), index);
    }
}

/// An upload that is ready to be started at the store.
#[derive(Clone, Debug)]
pub struct MultipartPreparation {
    /// Upload identifier.
    pub upload_id: u128,
    /// How the file is cut.
    pub plan: MultipartPlan,
    /// Place.
    pub target: StorageTarget,
    /// Key.
    pub key: String,
    /// End of the session.
    pub expires_at: i128,
}

/// What preparing an upload leads to.
#[derive(Clone, Debug)]
pub enum PreparedMultipart {
    /// It was started before.
    Replay {
        /// The receipt.
        receipt: MultipartReceipt,
    },
    /// It is to be started.
    Acquired {
        /// How.
        preparation: MultipartPreparation,
    },
}

/// Prepares a multipart upload into a folder. A repeated request is answered
/// from the upload that it started: `recorded` and `recorded_plan`.
pub fn prepare_multipart(
    parent: Option<&AuthorizableEntry>,
    claim: IdempotencyClaim,
    accepted: bool,
    recorded: &Option<MultipartUploadRow>,
    recorded_plan: Option<MultipartPlan>,
    child: &Option<NamedChild>,
    platform: StorageTarget,
    active: &Option<StorageConfigRow>,
    external_id: &str,
    plan: MultipartPlan,
    expires_at: i128,
) -> (prepared: Result<PreparedMultipart, AppError>)
    ensures
        match parent_refusal(deref_entry(parent), Capability::CreateChild) {
            Some(error) => prepared == Err::<PreparedMultipart, AppError>(error),
            None => match content_claim_of(claim, accepted, false) {
                Err(error) => prepared == Err::<PreparedMultipart, AppError>(error),
                Ok(ContentClaim::Replay { .. }) => match *recorded {
                    None => prepared == Err::<PreparedMultipart, AppError>(
                        AppError::Conflict { code: "idempotency_state" },
                    ),
                    Some(row) => match receipt_of(row, recorded_plan) {
                        Err(error) => prepared == Err::<PreparedMultipart, AppError>(error),
                        Ok(receipt) => prepared == Ok::<PreparedMultipart, AppError>(
                            PreparedMultipart::Replay { receipt },
                        ),
                    },
                },
                Ok(ContentClaim::Run { id }) => match write_refusal(*child, *active) {
                    Some(error) => prepared == Err::<PreparedMultipart, AppError>(error),
                    None => prepared matches Ok(PreparedMultipart::Acquired { preparation })
                        && preparation.upload_id == id && preparation.plan == plan
                        && preparation.key@ == multipart_key_of(id) && preparation.expires_at
                        == expires_at && is_write_target(
                        preparation.target,
                        platform,
                        *active,
                        external_id@,
                    ),
                },
            },
        },
{
    match require_parent(parent, Capability::CreateChild) {
        Ok(_) => {},
        Err(error) => {
            return Err(error);
        },
    }
    let upload_id: u128 = match content_claim(claim, accepted, false) {
        Err(error) => {
            return Err(error);
        },
        Ok(ContentClaim::Replay { .. }) => {
            let row = match recorded {
                Some(row) => row,
                None => {
                    return Err(conflict("idempotency_state"));
                },
            };
            return match multipart_receipt(row, recorded_plan) {
                Ok(receipt) => Ok(PreparedMultipart::Replay { receipt }),
                Err(error) => Err(error),
            };
        },
        Ok(ContentClaim::Run { id }) => id,
    };
    match place_content(child, platform, active, external_id) {
        Ok(target) => Ok(
            PreparedMultipart::Acquired {
                preparation: MultipartPreparation {
                    upload_id,
                    plan,
                    target,
                    key: multipart_key(upload_id),
                    expires_at,
                },
            },
        ),
        Err(error) => Err(error),
    }
}

/// A multipart upload to start.
#[derive(Clone, Debug)]
pub struct InitiateMultipart {
    /// Folder that the file is put into.
    pub parent_id: u128,
    /// Name of the file.
    pub name: String,
    /// Media type.
    pub content_type: String,
    /// Digest of the request.
    pub request_hash: [u8; 32],
}

/// An upload row to insert.
#[derive(Clone, Debug)]
pub struct MultipartInsert {
    /// Upload identifier.
    pub upload_id: u128,
    /// Folder that the file is put into.
    pub parent_entry_id: u128,
    /// Owner.
    pub owner: ActorRef,
    /// Application that acts for the owner.
    pub origin_app_id: Option<String>,
    /// Name of the file.
    pub name: String,
    /// Media type.
    pub content_type: String,
    /// Declared size.
    pub declared_size_bytes: i64,
    /// Size of a full part.
    pub part_size_bytes: i64,
    /// Number of parts.
    pub expected_part_count: i32,
    /// Provider of the place.
    pub storage_backend: &'static str,
    /// Configuration of the organization.
    pub storage_config_id: Option<u128>,
    /// Bucket.
    pub bucket_name: String,
    /// Region.
    pub storage_region: String,
    /// Prefix.
    pub storage_prefix: String,
    /// How the object is encrypted.
    pub storage_encryption_mode: &'static str,
    /// Key of the key service.
    pub storage_kms_key_arn: Option<String>,
    /// Object key.
    pub object_key: String,
    /// Identifier that the store gave the upload.
    pub provider_upload_id: String,
    /// End of the session.
    pub expires_at: i128,
}

/// A started upload.
#[derive(Clone, Debug)]
pub struct MultipartStart {
    /// The upload.
    pub upload: MultipartInsert,
    /// The change.
    pub change: ChangeRecord,
    /// The receipt.
    pub receipt: MultipartReceipt,
}

/// Whether a record is of a change to an upload into a folder.
pub open spec fn is_upload_change(
    change: ChangeRecord,
    parent_id: u128,
    upload_id: u128,
    action: &'static str,
    payload: Seq<Detail>,
) -> bool {
    &&& change.entry_id == Some(parent_id)
    &&& change.action == action
    &&& change.aggregate_type == "multipart_upload"
    &&& change.aggregate_id@ == hyphenated_chars(upload_id)
    &&& change.payload@ == payload
}

/// A change to an upload into a folder.
fn upload_change(parent_id: u128, upload_id: u128, action: &'static str, payload: Vec<Detail>) -> (change:
    ChangeRecord)
    ensures
        is_upload_change(change, parent_id, upload_id, action, payload@),
{
    ChangeRecord {
        entry_id: Some(parent_id),
        action,
        aggregate_type: "multipart_upload",
        aggregate_id: hyphenated(upload_id),
        payload,
    }
}

/// The first reason why an upload is not started.
pub open spec fn start_refusal(
    command: InitiateMultipart,
    preparation: MultipartPreparation,
    provider_upload_id: Seq<char>,
    parent: Option<AuthorizableEntry>,
    state: Option<OperationState>,
    platform: StorageTarget,
    configuration_id: Option<u128>,
) -> Option<AppError> {
    if trim(provider_upload_id).len() == 0 {
        Some(AppError::Validation { code: "invalid_provider_upload_id" })
    } else if parent_refusal(parent, Capability::CreateChild) is Some {
        parent_refusal(parent, Capability::CreateChild)
    } else if !in_progress(state, command.request_hash@) {
        Some(AppError::Conflict { code: "idempotency_state" })
    } else if !preparation.target.same_place(platform) && configuration_id is None {
        Some(AppError::Conflict { code: "storage_target_changed" })
    } else if preparation.plan.file_size > i64::MAX || preparation.plan.part_size > i64::MAX
        || preparation.plan.part_count > i32::MAX {
        Some(bad_value())
    } else {
        None
    }
}

/// Whether a row is of the upload that was prepared.
pub open spec fn is_prepared_upload(
    row: MultipartInsert,
    context: ExecutionContext,
    command: InitiateMultipart,
    preparation: MultipartPreparation,
    provider_upload_id: Seq<char>,
    storage: StorageReference,
) -> bool {
    &&& row.upload_id == preparation.upload_id
    &&& row.parent_entry_id == command.parent_id
    &&& row.owner == context.authorization.actor
    &&& optional_chars(row.origin_app_id) == context.authorization.application()
    &&& row.name == command.name
    &&& row.content_type == command.content_type
    &&& row.declared_size_bytes == preparation.plan.file_size
    &&& row.part_size_bytes == preparation.plan.part_size
    &&& row.expected_part_count == preparation.plan.part_count
    &&& row.storage_backend@ == storage.backend_chars()
    &&& row.storage_config_id == storage.configuration_id
    &&& row.bucket_name == preparation.target.bucket
    &&& row.storage_region == preparation.target.region
    &&& row.storage_prefix == preparation.target.prefix
    &&& row.storage_encryption_mode@ == encryption_word(preparation.target.encryption)
    &&& row.storage_kms_key_arn == preparation.target.kms_key_arn
    &&& row.object_key == preparation.key
    &&& row.provider_upload_id@ == provider_upload_id
    &&& row.expires_at == preparation.expires_at
}

/// Whether an upload is started as it was prepared.
pub open spec fn start_planned(
    plan: MultipartStart,
    context: ExecutionContext,
    command: InitiateMultipart,
    preparation: MultipartPreparation,
    provider_upload_id: Seq<char>,
    storage: StorageReference,
) -> bool {
    &&& is_prepared_upload(
        plan.upload,
        context,
        command,
        preparation,
        provider_upload_id,
        storage,
    )
    &&& is_upload_change(
        plan.change,
        command.parent_id,
        preparation.upload_id,
        "multipart.initiated.v1",
        seq![
            Detail { key: "parent_id", value: DetailValue::Id(command.parent_id) },
            Detail { key: "expires_at", value: DetailValue::Timestamp(preparation.expires_at) },
        ],
    )
    &&& plan.receipt == (MultipartReceipt {
        upload_id: preparation.upload_id,
        part_size: preparation.plan.part_size,
        part_count: preparation.plan.part_count,
        expires_at: preparation.expires_at,
    })
}

/// An optional copy of a borrowed text.
fn owned(text: Option<&str>) -> (copy: Option<String>)
    ensures
        optional_chars(copy) == borrowed_chars(text),
{
    match text {
        Some(text) => Some(text.to_owned()),
        None => None,
    }
}

/// Starts a prepared upload, once the store has given it an identifier.
pub fn commit_multipart_initialization(
    context: &ExecutionContext,
    command: &InitiateMultipart,
    preparation: &MultipartPreparation,
    provider_upload_id: &str,
    parent: Option<&AuthorizableEntry>,
    state: &Option<OperationState>,
    platform: &StorageTarget,
    configuration_id: Option<u128>,
) -> (plan: Result<MultipartStart, AppError>)
    ensures
        match start_refusal(
            *command,
            *preparation,
            provider_upload_id@,
            deref_entry(parent),
            *state,
            *platform,
            configuration_id,
        ) {
            Some(error) => plan == Err::<MultipartStart, AppError>(error),
            None => plan is Ok && start_planned(
                plan->Ok_0,
                *context,
                *command,
                *preparation,
                provider_upload_id@,
                provider_of(preparation.target, *platform, configuration_id),
            ),
        },
{
    if is_blank(provider_upload_id) {
        return Err(validation("invalid_provider_upload_id"));
    }
    match require_parent(parent, Capability::CreateChild) {
        Ok(_) => {},
        Err(error) => {
            return Err(error);
        },
    }
    match ensure_idempotency_in_progress(state, &command.request_hash) {
        Ok(()) => {},
        Err(error) => {
            return Err(error);
        },
    }
    let storage = match identify_storage_target(&preparation.target, platform, configuration_id) {
        Ok(storage) => storage,
        Err(error) => {
            return Err(error);
        },
    };
    let declared_size_bytes: i64 = match to_i64(preparation.plan.file_size) {
        Ok(size) => size,
        Err(error) => {
            return Err(error);
        },
    };
    let part_size_bytes: i64 = match to_i64(preparation.plan.part_size) {
        Ok(size) => size,
        Err(error) => {
            return Err(error);
        },
    };
    let expected_part_count: i32 = match to_i32(preparation.plan.part_count) {
        Ok(count) => count,
        Err(error) => {
            return Err(error);
        },
    };
    let application = context.authorization.originating_application();
    assert(borrowed_chars(application) == context.authorization.application());
    let upload = MultipartInsert {
        upload_id: preparation.upload_id,
        parent_entry_id: command.parent_id,
        owner: context.authorization.actor.duplicate(),
        origin_app_id: owned(application),
        name: command.name.clone(),
        content_type: command.content_type.clone(),
        declared_size_bytes,
        part_size_bytes,
        expected_part_count,
        storage_backend: storage.backend(),
        storage_config_id: storage.configuration_id,
        bucket_name: preparation.target.bucket.clone(),
        storage_region: preparation.target.region.clone(),
        storage_prefix: preparation.target.prefix.clone(),
        storage_encryption_mode: encryption_name(preparation.target.encryption),
        storage_kms_key_arn: clone_optional_text(&preparation.target.kms_key_arn),
        object_key: preparation.key.clone(),
        provider_upload_id: provider_upload_id.to_owned(),
        expires_at: preparation.expires_at,
    };
    let payload: Vec<Detail> = vec![
        Detail { key: "parent_id", value: DetailValue::Id(command.parent_id) },
        Detail { key: "expires_at", value: DetailValue::Timestamp(preparation.expires_at) },
    ];
    assert(payload@ =~= seq![
        Detail { key: "parent_id", value: DetailValue::Id(command.parent_id) },
        Detail { key: "expires_at", value: DetailValue::Timestamp(preparation.expires_at) },
    ]);
    let change = upload_change(
        command.parent_id,
        preparation.upload_id,
        "multipart.initiated.v1",
        payload,
    );
    Ok(
        MultipartStart {
            upload,
            change,
            receipt: MultipartReceipt {
                upload_id: preparation.upload_id,
                part_size: preparation.plan.part_size,
                part_count: preparation.plan.part_count,
                expires_at: preparation.expires_at,
            },
        },
    )
}

/// The first reason why an upload takes no part: it is not the caller's, it no
/// longer collects, or its session is over.
pub open spec fn collecting_refusal(
    row: Option<MultipartUploadRow>,
    authorization: RequestAuthContext,
    now: i128,
) -> Option<AppError> {
    match row {
        None => Some(AppError::NotFound),
        Some(upload) => if !owns_upload(upload, authorization) {
            Some(AppError::NotFound)
        } else if !collects_parts(upload.status@) || upload.expires_at <= now {
            Some(AppError::Conflict { code: "multipart_not_uploadable" })
        } else {
            None
        },
    }
}

/// Refuses an upload that takes no part.
fn require_collecting<'a>(
    row: &'a Option<MultipartUploadRow>,
    authorization: &RequestAuthContext,
    now: i128,
) -> (upload: Result<&'a MultipartUploadRow, AppError>)
    ensures
        match collecting_refusal(*row, *authorization, now) {
            Some(error) => upload == Err::<&MultipartUploadRow, AppError>(error),
            None => row is Some && upload == Ok::<&MultipartUploadRow, AppError>(&row->0),
        },
{
    let upload = match row {
        Some(upload) => upload,
        None => {
            return Err(AppError::NotFound);
        },
    };
    match authorize_multipart_owner(authorization, upload) {
        Ok(()) => {},
        Err(error) => {
            return Err(error);
        },
    }
    if !is_collecting(upload.status.as_str()) || upload.expires_at <= now {
        return Err(conflict("multipart_not_uploadable"));
    }
    Ok(upload)
}

/// The first reason why the folder of an upload may not be written to.
pub open spec fn folder_refusal(
    upload: MultipartUploadRow,
    parent: Option<AuthorizableEntry>,
) -> Option<AppError> {
    if !upload.parent_entry_id.accepted {
        Some(bad_value())
    } else {
        parent_refusal(parent, Capability::CreateChild)
    }
}

/// Refuses an upload whose folder may not be written to.
fn require_folder<'a>(upload: &MultipartUploadRow, parent: Option<&'a AuthorizableEntry>) -> (folder:
    Result<&'a AuthorizableEntry, AppError>)
    ensures
        match folder_refusal(*upload, deref_entry(parent)) {
            Some(error) => folder == Err::<&AuthorizableEntry, AppError>(error),
            None => parent is Some && folder == Ok::<&AuthorizableEntry, AppError>(parent->0),
        },
{
    if !upload.parent_entry_id.accepted {
        return Err(internal_error());
    }
    require_parent(parent, Capability::CreateChild)
}

/// Whether the place and key of an upload are ones to go on with.
pub open spec fn place_is_known(upload: MultipartUploadRow, role_arn: Option<Seq<char>>) -> bool {
    &&& is_platform_place(upload.place) || is_organization_place(upload.place, role_arn)
    &&& encryption_of(upload.place.encryption_mode@) is Some
}

/// Where an upload goes on at the store.
#[derive(Clone, Debug)]
pub struct UploadAddress {
    /// Place.
    pub target: StorageTarget,
    /// Key.
    pub key: String,
    /// Identifier that the store gave the upload.
    pub provider_upload_id: String,
}

/// Whether an address is an upload's.
pub open spec fn is_address_of(
    address: UploadAddress,
    upload: MultipartUploadRow,
    role_arn: Option<Seq<char>>,
    external_id: Seq<char>,
) -> bool {
    &&& target_of_place(address.target, upload.place, role_arn, external_id)
    &&& address.key == upload.object_key.text
    &&& address.provider_upload_id == upload.provider_upload_id
}

/// Where an upload goes on at the store.
pub fn target_for_multipart(upload: &MultipartUploadRow, role_arn: Option<&str>, external_id: &str) -> (address:
    Result<UploadAddress, AppError>)
    ensures
        if !place_is_known(*upload, borrowed_chars(role_arn)) || !upload.object_key.accepted {
            address == Err::<UploadAddress, AppError>(bad_value())
        } else {
            address is Ok && is_address_of(
                address->Ok_0,
                *upload,
                borrowed_chars(role_arn),
                external_id@,
            )
        },
{
    let target = match target_for_place(&upload.place, role_arn, external_id) {
        Ok(target) => target,
        Err(error) => {
            return Err(error);
        },
    };
    let key = match object_key(&upload.object_key) {
        Ok(key) => key,
        Err(error) => {
            return Err(error);
        },
    };
    Ok(UploadAddress { target, key, provider_upload_id: upload.provider_upload_id.clone() })
}

/// Where a part goes.
#[derive(Clone, Debug)]
pub struct MultipartPartTarget {
    /// How the file is cut.
    pub plan: MultipartPlan,
    /// Where the upload goes on.
    pub address: UploadAddress,
}

/// The first reason why a part may not be uploaded.
pub open spec fn part_refusal(
    row: Option<MultipartUploadRow>,
    authorization: RequestAuthContext,
    planned: Option<MultipartPlan>,
    part_number: u32,
    now: i128,
    parent: Option<AuthorizableEntry>,
    role_arn: Option<Seq<char>>,
) -> Option<AppError> {
    if collecting_refusal(row, authorization, now) is Some {
        collecting_refusal(row, authorization, now)
    } else if !is_started_plan(row->0, planned) {
        Some(bad_value())
    } else if planned->0.size_of(part_number) is None {
        Some(AppError::Validation { code: "invalid_part_number" })
    } else if folder_refusal(row->0, parent) is Some {
        folder_refusal(row->0, parent)
    } else if !place_is_known(row->0, role_arn) || !row->0.object_key.accepted {
        Some(bad_value())
    } else {
        None
    }
}

/// Authorizes the upload of one part.
pub fn authorize_multipart_part(
    context: &ExecutionContext,
    row: &Option<MultipartUploadRow>,
    planned: Option<MultipartPlan>,
    part_number: u32,
    now: i128,
    parent: Option<&AuthorizableEntry>,
    role_arn: Option<&str>,
    external_id: &str,
) -> (target: Result<MultipartPartTarget, AppError>)
    ensures
        match part_refusal(
            *row,
            context.authorization,
            planned,
            part_number,
            now,
            deref_entry(parent),
            borrowed_chars(role_arn),
        ) {
            Some(error) => target == Err::<MultipartPartTarget, AppError>(error),
            None => target is Ok && target->Ok_0.plan == planned->0 && is_address_of(
                target->Ok_0.address,
                row->0,
                borrowed_chars(role_arn),
                external_id@,
            ),
        },
{
    let upload = match require_collecting(row, &context.authorization, now) {
        Ok(upload) => upload,
        Err(error) => {
            return Err(error);
        },
    };
    let plan = match multipart_plan(upload, planned) {
        Ok(plan) => plan,
        Err(error) => {
            return Err(error);
        },
    };
    if plan.expected_part_size(part_number).is_none() {
        return Err(validation("invalid_part_number"));
    }
    match require_folder(upload, parent) {
        Ok(_) => {},
        Err(error) => {
            return Err(error);
        },
    }
    match target_for_multipart(upload, role_arn, external_id) {
        Ok(address) => Ok(MultipartPartTarget { plan, address }),
        Err(error) => Err(error),
    }
}

/// A part row to insert, or to put in place of one of the same number. The
/// upload counts as uploading from then on.
#[derive(Clone, Debug)]
pub struct PartUpsert {
    /// Number of the part.
    pub part_number: i32,
    /// Entity tag.
    pub etag: String,
    /// Size in bytes.
    pub size_bytes: i64,
    /// Digest.
    pub checksum_sha256: [u8; 32],
}

/// The first reason why an uploaded part is not recorded.
pub open spec fn record_refusal(
    etag: Seq<char>,
    row: Option<MultipartUploadRow>,
    authorization: RequestAuthContext,
    planned: Option<MultipartPlan>,
    part_number: u32,
    size: u64,
    now: i128,
    parent: Option<AuthorizableEntry>,
) -> Option<AppError> {
    if trim(etag).len() == 0 {
        Some(AppError::Validation { code: "invalid_part_etag" })
    } else if collecting_refusal(row, authorization, now) is Some {
        collecting_refusal(row, authorization, now)
    } else if !is_started_plan(row->0, planned) {
        Some(bad_value())
    } else if planned->0.size_of(part_number) is None {
        Some(AppError::Validation { code: "invalid_part_number" })
    } else if planned->0.size_of(part_number)->0 != size {
        Some(AppError::Validation { code: "invalid_part_size" })
    } else if folder_refusal(row->0, parent) is Some {
        folder_refusal(row->0, parent)
    } else if part_number > i32::MAX || size > i64::MAX {
        Some(AppError::Internal { category: "database_operation" })
    } else {
        None
    }
}

/// Records an uploaded part.
pub fn record_multipart_part(
    context: &ExecutionContext,
    row: &Option<MultipartUploadRow>,
    planned: Option<MultipartPlan>,
    part_number: u32,
    etag: &str,
    size: u64,
    sha256: [u8; 32],
    now: i128,
    parent: Option<&AuthorizableEntry>,
) -> (part: Result<PartUpsert, AppError>)
    ensures
        match record_refusal(
            etag@,
            *row,
            context.authorization,
            planned,
            part_number,
            size,
            now,
            deref_entry(parent),
        ) {
            Some(error) => part == Err::<PartUpsert, AppError>(error),
            None => part is Ok && part->Ok_0.part_number == part_number && part->Ok_0.etag@
                == etag@ && part->Ok_0.size_bytes == size && part->Ok_0.checksum_sha256 == sha256,
        },
{
    if is_blank(etag) {
        return Err(validation("invalid_part_etag"));
    }
    let upload = match require_collecting(row, &context.authorization, now) {
        Ok(upload) => upload,
        Err(error) => {
            return Err(error);
        },
    };
    let plan = match multipart_plan(upload, planned) {
        Ok(plan) => plan,
        Err(error) => {
            return Err(error);
        },
    };
    let expected: u64 = match plan.expected_part_size(part_number) {
        Some(expected) => expected,
        None => {
            return Err(validation("invalid_part_number"));
        },
    };
    if expected != size {
        return Err(validation("invalid_part_size"));
    }
    match require_folder(upload, parent) {
        Ok(_) => {},
        Err(error) => {
            return Err(error);
        },
    }
    match part_columns(part_number, size) {
        Some((part_number, size_bytes)) => Ok(
            PartUpsert {
                part_number,
                etag: etag.to_owned(),
                size_bytes,
                checksum_sha256: sha256,
            },
        ),
        None => Err(AppError::Internal { category: "database_operation" }),
    }
}

/// The first reason why the completion of an upload is not begun, before its
/// key is claimed.
pub open spec fn completable_refusal(
    row: Option<MultipartUploadRow>,
    authorization: RequestAuthContext,
    now: i128,
    parent: Option<AuthorizableEntry>,
) -> Option<AppError> {
    match row {
        None => Some(AppError::NotFound),
        Some(upload) => if !owns_upload(upload, authorization) {
            Some(AppError::NotFound)
        } else if collects_parts(upload.status@) && upload.expires_at <= now {
            Some(AppError::Conflict { code: "multipart_expired" })
        } else {
            folder_refusal(upload, parent)
        },
    }
}

/// Refuses a completion before its key is claimed.
pub fn require_completable<'a>(
    context: &ExecutionContext,
    row: &'a Option<MultipartUploadRow>,
    now: i128,
    parent: Option<&AuthorizableEntry>,
) -> (upload: Result<&'a MultipartUploadRow, AppError>)
    ensures
        match completable_refusal(*row, context.authorization, now, deref_entry(parent)) {
            Some(error) => upload == Err::<&MultipartUploadRow, AppError>(error),
            None => row is Some && upload == Ok::<&MultipartUploadRow, AppError>(&row->0),
        },
{
    let upload = match row {
        Some(upload) => upload,
        None => {
            return Err(AppError::NotFound);
        },
    };
    match authorize_multipart_owner(&context.authorization, upload) {
        Ok(()) => {},
        Err(error) => {
            return Err(error);
        },
    }
    if multipart_completion_expired(upload.status.as_str(), upload.expires_at, now) {
        return Err(conflict("multipart_expired"));
    }
    match require_folder(upload, parent) {
        Ok(_) => Ok(upload),
        Err(error) => Err(error),
    }
}

/// A completion that is ready to be made at the store.
#[derive(Clone, Debug)]
pub struct MultipartCompletionPreparation {
    /// Identifier that is reserved for a new file.
    pub entry_id: u128,
    /// How the file is cut.
    pub plan: MultipartPlan,
    /// Where the upload goes on.
    pub address: UploadAddress,
    /// The parts.
    pub parts: Vec<CompletedPart>,
}

/// What preparing a completion leads to.
#[derive(Clone, Debug)]
pub enum PreparedCompletion {
    /// It was published before, as this file.
    Replay {
        /// The file.
        entry_id: u128,
    },
    /// It is to be made.
    Acquired {
        /// How.
        preparation: MultipartCompletionPreparation,
        /// Whether the upload has to enter its completion first.
        enters_completion: bool,
    },
}

/// The first reason why a claimed completion is not made.
pub open spec fn completion_refusal(
    upload: MultipartUploadRow,
    planned: Option<MultipartPlan>,
    stored: Seq<MultipartPartRow>,
    client: Seq<ClientCompletedPart>,
    role_arn: Option<Seq<char>>,
) -> Option<AppError> {
    if !collects_parts(upload.status@) && upload.status@ != "completing"@ {
        Some(AppError::Conflict { code: "multipart_not_completable" })
    } else if !is_started_plan(upload, planned) {
        Some(bad_value())
    } else if completion_error(planned->0, stored, client) is Some {
        completion_error(planned->0, stored, client)
    } else if !place_is_known(upload, role_arn) || !upload.object_key.accepted {
        Some(bad_value())
    } else {
        None
    }
}

/// Prepares the completion of an upload: a repeated request is answered with
/// the file that it was published as, another one gets the parts that the store
/// is to join. An upload that still collects enters its completion with it.
pub fn prepare_multipart_completion(
    context: &ExecutionContext,
    row: &Option<MultipartUploadRow>,
    now: i128,
    parent: Option<&AuthorizableEntry>,
    claim: IdempotencyClaim,
    accepted: bool,
    planned: Option<MultipartPlan>,
    stored: &Vec<MultipartPartRow>,
    client: &Vec<ClientCompletedPart>,
    role_arn: Option<&str>,
    external_id: &str,
) -> (prepared: Result<PreparedCompletion, AppError>)
    ensures
        match completable_refusal(*row, context.authorization, now, deref_entry(parent)) {
            Some(error) => prepared == Err::<PreparedCompletion, AppError>(error),
            None => match content_claim_of(claim, accepted, true) {
                Err(error) => prepared == Err::<PreparedCompletion, AppError>(error),
                Ok(ContentClaim::Replay { id }) => prepared == Ok::<PreparedCompletion, AppError>(
                    PreparedCompletion::Replay { entry_id: id },
                ),
                Ok(ContentClaim::Run { id }) => match completion_refusal(
                    row->0,
                    planned,
                    stored@,
                    client@,
                    borrowed_chars(role_arn),
                ) {
                    Some(error) => prepared == Err::<PreparedCompletion, AppError>(error),
                    None => prepared matches Ok(
                        PreparedCompletion::Acquired { preparation, enters_completion },
                    ) && preparation.entry_id == id && preparation.plan == planned->0
                        && are_completed_parts(preparation.parts@, stored@) && is_address_of(
                        preparation.address,
                        row->0,
                        borrowed_chars(role_arn),
                        external_id@,
                    ) && enters_completion == (row->0.status@ != "completing"@),
                },
            },
        },
{
    let upload = match require_completable(context, row, now, parent) {
        Ok(upload) => upload,
        Err(error) => {
            return Err(error);
        },
    };
    let entry_id: u128 = match content_claim(claim, accepted, true) {
        Err(error) => {
            return Err(error);
        },
        Ok(ContentClaim::Replay { id }) => {
            return Ok(PreparedCompletion::Replay { entry_id: id });
        },
        Ok(ContentClaim::Run { id }) => id,
    };
    let completing = same_text(upload.status.as_str(), "completing");
    if !is_collecting(upload.status.as_str()) && !completing {
        return Err(conflict("multipart_not_completable"));
    }
    let plan = match multipart_plan(upload, planned) {
        Ok(plan) => plan,
        Err(error) => {
            return Err(error);
        },
    };
    let parts = match completion_parts(&plan, stored, client) {
        Ok(parts) => parts,
        Err(error) => {
            return Err(error);
        },
    };
    let address = match target_for_multipart(upload, role_arn, external_id) {
        Ok(address) => address,
        Err(error) => {
            return Err(error);
        },
    };
    Ok(
        PreparedCompletion::Acquired {
            preparation: MultipartCompletionPreparation { entry_id, plan, address, parts },
            enters_completion: !completing,
        },
    )
}

/// Whether an upload entered its completion; one that was stopped meanwhile
/// did not.
pub fn entered_completion(updated_rows: u64) -> (result: Result<(), AppError>)
    ensures
        result == if updated_rows == 1 {
            Ok::<(), AppError>(())
        } else {
            Err::<(), AppError>(AppError::Conflict { code: "multipart_state" })
        },
{
    if updated_rows == 1 {
        Ok(())
    } else {
        Err(conflict("multipart_state"))
    }
}

/// What is read before a completion is published.
#[derive(Clone, Debug)]
pub struct CompletionFacts {
    /// Digest of the request.
    pub request_hash: [u8; 32],
    /// Record of the running operation.
    pub state: Option<OperationState>,
    /// What carries the name.
    pub child: Option<NamedChild>,
    /// Identifier for the version.
    pub version_id: u128,
    /// Number of the next version of a file that carries the name.
    pub next_number: i64,
}

/// The first reason why a joined object may not be published, before what
/// carries its name is looked at.
pub open spec fn publish_completion_refusal(
    preparation: MultipartCompletionPreparation,
    stored: StoredObject,
    row: Option<MultipartUploadRow>,
    authorization: RequestAuthContext,
    parent: Option<AuthorizableEntry>,
    facts: CompletionFacts,
    role_arn: Option<Seq<char>>,
) -> Option<AppError> {
    if !is_expected_object(stored, preparation.address.key@, preparation.plan.file_size) {
        Some(AppError::Conflict { code: "stored_object_mismatch" })
    } else if stored_checksum_of(stored, ObjectChecksumType::Composite) is Err {
        Some(stored_checksum_of(stored, ObjectChecksumType::Composite)->Err_0)
    } else if row is None || !owns_upload(row->0, authorization) {
        Some(AppError::NotFound)
    } else if row->0.status@ != "completing"@ {
        Some(AppError::Conflict { code: "multipart_state" })
    } else if folder_refusal(row->0, parent) is Some {
        folder_refusal(row->0, parent)
    } else if !in_progress(facts.state, facts.request_hash@) {
        Some(AppError::Conflict { code: "idempotency_state" })
    } else if !place_is_known(row->0, role_arn) {
        Some(bad_value())
    } else {
        None
    }
}

/// Whether the place of an upload is the one that its completion was prepared
/// for.
pub open spec fn same_upload_place(
    target: StorageTarget,
    place: StoredPlace,
    role_arn: Option<Seq<char>>,
    external_id: Seq<char>,
) -> bool {
    &&& target.bucket@ == place.bucket@
    &&& target.region@ == place.region@
    &&& target.prefix@ == place.prefix@
    &&& Some(target.encryption) == encryption_of(place.encryption_mode@)
    &&& optional_chars(target.kms_key_arn) == optional_chars(place.kms_key_arn)
    &&& optional_chars(target.role_arn) == if is_platform_place(place) {
        None
    } else {
        role_arn
    }
    &&& optional_chars(target.external_id) == if is_platform_place(place) {
        None
    } else {
        Some(external_id)
    }
}

/// The content that a completion publishes.
pub open spec fn completed_content(
    preparation: MultipartCompletionPreparation,
    stored: StoredObject,
    upload: MultipartUploadRow,
) -> StoredContent {
    StoredContent {
        content_type: upload.content_type,
        size: preparation.plan.file_size,
        checksum: stored.checksum->0,
        target: preparation.address.target,
        key: preparation.address.key,
        stored,
        storage: StorageReference { configuration_id: upload.place.config_id },
    }
}

/// What a completion asks to be published.
pub open spec fn completion_request(
    preparation: MultipartCompletionPreparation,
    upload: MultipartUploadRow,
    facts: CompletionFacts,
) -> PublicationRequest {
    PublicationRequest {
        entry_id: preparation.entry_id,
        name: upload.name,
        version_id: facts.version_id,
        next_number: facts.next_number,
        self_destruct_minutes: None,
    }
}

/// Publishes a joined object under the name that its upload was started with,
/// in the place that the completion was prepared for.
pub fn commit_multipart_completion(
    context: &ExecutionContext,
    preparation: &MultipartCompletionPreparation,
    stored: StoredObject,
    row: &Option<MultipartUploadRow>,
    parent: Option<&AuthorizableEntry>,
    existing: Option<&AuthorizableEntry>,
    facts: &CompletionFacts,
    role_arn: Option<&str>,
    external_id: &str,
) -> (publication: Result<Publication, AppError>)
    ensures
        match publish_completion_refusal(
            *preparation,
            stored,
            *row,
            context.authorization,
            deref_entry(parent),
            *facts,
            borrowed_chars(role_arn),
        ) {
            Some(error) => publication == Err::<Publication, AppError>(error),
            None => if !same_upload_place(
                preparation.address.target,
                row->0.place,
                borrowed_chars(role_arn),
                external_id@,
            ) {
                publication == Err::<Publication, AppError>(
                    AppError::Conflict { code: "storage_target_changed" },
                )
            } else {
                match publication_refusal(
                    facts.child,
                    deref_entry(existing),
                    None,
                    preparation.plan.file_size,
                ) {
                    Some(error) => publication == Err::<Publication, AppError>(error),
                    None => publication is Ok && published(
                        publication->Ok_0,
                        completion_request(*preparation, row->0, *facts),
                        *parent->0,
                        facts.child,
                        completed_content(*preparation, stored, row->0),
                        context.authorization.actor,
                        context.authorization.application(),
                    ),
                }
            },
        },
{
    match validate_stored(&stored, preparation.address.key.as_str(), preparation.plan.file_size) {
        Ok(()) => {},
        Err(error) => {
            return Err(error);
        },
    }
    let checksum = match stored_checksum(&stored, ObjectChecksumType::Composite) {
        Ok(checksum) => checksum,
        Err(error) => {
            return Err(error);
        },
    };
    let upload = match row {
        Some(upload) => upload,
        None => {
            return Err(AppError::NotFound);
        },
    };
    match authorize_multipart_owner(&context.authorization, upload) {
        Ok(()) => {},
        Err(error) => {
            return Err(error);
        },
    }
    if !same_text(upload.status.as_str(), "completing") {
        return Err(conflict("multipart_state"));
    }
    let folder = match require_folder(upload, parent) {
        Ok(folder) => folder,
        Err(error) => {
            return Err(error);
        },
    };
    match ensure_idempotency_in_progress(&facts.state, &facts.request_hash) {
        Ok(()) => {},
        Err(error) => {
            return Err(error);
        },
    }
    let target = match target_for_place(&upload.place, role_arn, external_id) {
        Ok(target) => target,
        Err(error) => {
            return Err(error);
        },
    };
    if !target.matches(&preparation.address.target) {
        return Err(conflict("storage_target_changed"));
    }
    let content = StoredContent {
        content_type: upload.content_type.clone(),
        size: preparation.plan.file_size,
        checksum,
        target: preparation.address.target.duplicate(),
        key: preparation.address.key.clone(),
        stored,
        storage: StorageReference { configuration_id: upload.place.config_id },
    };
    let request = PublicationRequest {
        entry_id: preparation.entry_id,
        name: upload.name.clone(),
        version_id: facts.version_id,
        next_number: facts.next_number,
        self_destruct_minutes: None,
    };
    assert(content == completed_content(*preparation, stored, row->0));
    assert(request == completion_request(*preparation, row->0, *facts));
    let application = context.authorization.originating_application();
    assert(borrowed_chars(application) == context.authorization.application());
    publish_file_content(
        &request,
        folder,
        &facts.child,
        existing,
        &content,
        &context.authorization.actor,
        application,
    )
}

/// A job that removes what a stopped upload left at the store.
#[derive(Clone, Debug)]
pub struct CleanupInsert {
    /// Kind of the job.
    pub cleanup_kind: &'static str,
    /// Upload that stopped.
    pub source_upload_id: u128,
    /// Provider of the place.
    pub storage_backend: String,
    /// Configuration of the organization.
    pub storage_config_id: Option<u128>,
    /// Place.
    pub target: StorageTarget,
    /// Object key.
    pub object_key: String,
    /// Identifier that the store gave the upload.
    pub provider_upload_id: String,
}

/// A stopped upload.
#[derive(Clone, Debug)]
pub struct MultipartAbort {
    /// Where it is stopped at the store.
    pub address: UploadAddress,
    /// The job that cleans up.
    pub cleanup: CleanupInsert,
    /// The change.
    pub change: ChangeRecord,
}

/// The first reason why an upload is not stopped.
pub open spec fn abort_refusal(
    upload: MultipartUploadRow,
    authorization: RequestAuthContext,
    role_arn: Option<Seq<char>>,
) -> Option<AppError> {
    if !owns_upload(upload, authorization) {
        Some(AppError::NotFound)
    } else {
        match disposition_of(upload.status@) {
            None => Some(bad_value()),
            Some(MultipartAbortDisposition::AlreadyStopped) => None,
            Some(MultipartAbortDisposition::Reject) => Some(
                AppError::Conflict { code: "multipart_not_abortable" },
            ),
            Some(MultipartAbortDisposition::Abort) => if !place_is_known(upload, role_arn)
                || !upload.object_key.accepted {
                Some(bad_value())
            } else {
                None
            },
        }
    }
}

/// Whether an upload is stopped and cleaned up after.
pub open spec fn abort_planned(
    plan: MultipartAbort,
    upload: MultipartUploadRow,
    role_arn: Option<Seq<char>>,
    external_id: Seq<char>,
) -> bool {
    &&& is_address_of(plan.address, upload, role_arn, external_id)
    &&& plan.cleanup.cleanup_kind == "multipart_abort"
    &&& plan.cleanup.source_upload_id == upload.upload_id.value
    &&& plan.cleanup.storage_backend == upload.place.backend
    &&& plan.cleanup.storage_config_id == upload.place.config_id
    &&& plan.cleanup.target == plan.address.target
    &&& plan.cleanup.object_key == upload.object_key.text
    &&& plan.cleanup.provider_upload_id == upload.provider_upload_id
    &&& is_upload_change(
        plan.change,
        upload.parent_entry_id.value,
        upload.upload_id.value,
        "multipart.aborted.v1",
        Seq::empty(),
    )
}

/// Stops an upload. One that is not there or has stopped already leaves nothing
/// to do; one that is being completed cannot be stopped.
pub fn abort_multipart(
    context: &ExecutionContext,
    row: &Option<MultipartUploadRow>,
    role_arn: Option<&str>,
    external_id: &str,
) -> (plan: Result<Option<MultipartAbort>, AppError>)
    ensures
        match *row {
            None => plan == Ok::<Option<MultipartAbort>, AppError>(None),
            Some(upload) => match abort_refusal(
                upload,
                context.authorization,
                borrowed_chars(role_arn),
            ) {
                Some(error) => plan == Err::<Option<MultipartAbort>, AppError>(error),
                None => if disposition_of(upload.status@) == Some(
                    MultipartAbortDisposition::AlreadyStopped,
                ) {
                    plan == Ok::<Option<MultipartAbort>, AppError>(None)
                } else {
                    plan is Ok && plan->Ok_0 is Some && abort_planned(
                        plan->Ok_0->0,
                        upload,
                        borrowed_chars(role_arn),
                        external_id@,
                    )
                },
            },
        },
{
    let upload = match row {
        Some(upload) => upload,
        None => {
            return Ok(None);
        },
    };
    match authorize_multipart_owner(&context.authorization, upload) {
        Ok(()) => {},
        Err(error) => {
            return Err(error);
        },
    }
    match multipart_abort_disposition(upload.status.as_str()) {
        Err(error) => {
            return Err(error);
        },
        Ok(MultipartAbortDisposition::AlreadyStopped) => {
            return Ok(None);
        },
        Ok(MultipartAbortDisposition::Reject) => {
            return Err(conflict("multipart_not_abortable"));
        },
        Ok(MultipartAbortDisposition::Abort) => {},
    }
    let address = match target_for_multipart(upload, role_arn, external_id) {
        Ok(address) => address,
        Err(error) => {
            return Err(error);
        },
    };
    let cleanup = CleanupInsert {
        cleanup_kind: "multipart_abort",
        source_upload_id: upload.upload_id.value,
        storage_backend: upload.place.backend.clone(),
        storage_config_id: upload.place.config_id,
        target: address.target.duplicate(),
        object_key: upload.object_key.text.clone(),
        provider_upload_id: upload.provider_upload_id.clone(),
    };
    let payload: Vec<Detail> = Vec::new();
    assert(payload@ =~= Seq::<Detail>::empty());
    let change = upload_change(
        upload.parent_entry_id.value,
        upload.upload_id.value,
        "multipart.aborted.v1",
        payload,
    );
    Ok(Some(MultipartAbort { address, cleanup, change }))
}

} // verus!
