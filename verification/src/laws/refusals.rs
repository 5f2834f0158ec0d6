//! What a caller is told where an operation is refused. Nobody learns of an entry
//! that is not there for them, a request that came too late or twice conflicts,
//! and what cannot be read is never blamed on the caller.

use vstd::prelude::*;

use crate::clock::instant_of_timestamp;
use crate::error::{AppError, MetadataRepositoryError};
use crate::iam::canonical::{LocalAuthorization, LocalIntrospection};
use crate::iam::claims::{
    application_tokens_error, introspection_error, obo_error, IamEnvironmentCredential,
    VerifiedIdentity, VerifiedOboAccess, WireApplicationTokenResponse, WireIntrospectionResponse,
    WireOboResponse,
};
use crate::iam::official::{
    authorization_error, bearer_binding_error, joined, kind_of, obo_binding_error,
    obo_request_error, session_error, snapshot_bound,
};
use crate::iam::{fixed_secret_ok, IamClientError, OboRequestBinding};
use crate::ids::{Candidate, StoredId};
use crate::model::{
    ActorRef, AuthorizableEntry, Capability, EntryKind, GrantedAccess, IdempotencyClaim,
    MutationMetadata, OrganizationRole, RequestAuthContext,
};
use crate::postgres::content::delegated::commit::{
    prepare_refusal, provider_is_unchanged, same_object, staged_refusal, CommitFacts,
};
use crate::postgres::content::delegated::reservation::{
    repeat_refusal, repeats, reservation_refusal, room_refusal, ReservationFacts,
    ReserveDelegatedUpload, StagingRoom,
};
use crate::postgres::content::delegated::transfer::{
    claim_refusal, completion_refusal, object_refusal, record_refusal as provider_refusal,
    step_refusal, transfer_refusal, writer_refusal, DelegatedUploadTransfer,
};
use crate::postgres::content::delegated::{
    committed_refusal, destination_refusal, expiry_of, in_scope, row_object, status_after,
    UploadRow,
};
use crate::postgres::content::multipart::{
    abort_refusal, completable_refusal, completion_error, completion_refusal as parts_refusal,
    is_started_plan, owns_upload, part_error, part_refusal, publish_completion_refusal,
    record_refusal, start_refusal, ClientCompletedPart, CompletionFacts, InitiateMultipart,
    MultipartCompletionPreparation, MultipartPartRow, MultipartPlan, MultipartPreparation,
    MultipartUploadRow,
};
use crate::postgres::content::objects::{
    small_object_refusal, stored_checksum_of, ObjectChecksumType, StoredObject,
};
use crate::postgres::content::publishing::publication_refusal;
use crate::postgres::content::storage::{encryption_of, settlement_refusal, StorageTarget};
use crate::postgres::content::upload::{
    upload_refusal, SmallUpload, SmallUploadPreparation, UploadFacts,
};
use crate::postgres::content::versions::{
    download_refusal, file_refusal, publish_restore_refusal, restore_refusal, RestoreFacts,
    RestorePreparation, VersionContentRow,
};
use crate::postgres::content::{
    bad_value, content_claim_of, in_progress, name_refusal, NamedChild, OperationState,
};
use crate::postgres::invitations::{share_refusal, tag_invitation_refusal, ExpiringShareRow};
use crate::postgres::metadata::common::{
    access_of, actor_ref_of, authorizable_error, bad_data, boundary_of, claim_of, entry_error,
    grant_error,
};
use crate::postgres::metadata::entries::{
    create_folder_error, delete_error, resource_claim_of, restore_error, restore_parent_of,
    subtree_error, update_error, CreateFolderMutation, SubtreeCheck, SubtreeRow, UpdateEntryCommand,
};
use crate::postgres::metadata::grants::{grant_refusal, revoke_refusal, GrantPermissionCommand};
use crate::postgres::metadata::listing::{activity_error, version_error, ActivityRow, VersionRow};
use crate::postgres::metadata::notifications::{notification_error, NotificationRow};
use crate::postgres::metadata::requests::{decision_refusal, request_error, AccessDecision};
use crate::postgres::models::{AccessRequestRow, EntryRow, IdempotencyState, PermissionGrantRow};
use crate::postgres::self_destruct::keep_refusal;
use crate::postgres::sharing::link_refusal;

verus! {

/// Whether an entry is there, the caller may do what is asked, and it is not
/// reserved.
pub open spec fn changeable(entry: Option<AuthorizableEntry>, capability: Capability) -> bool {
    entry is Some && entry->0.access.permits(capability) && entry->0.system_kind is None
}

/// What is not there is not found, for changes, deletions and grants alike;
/// everything else that is refused conflicts.
pub proof fn law_missing_entries_are_not_found(
    command: UpdateEntryCommand,
    current: Option<AuthorizableEntry>,
    required: Capability,
    parent: Option<AuthorizableEntry>,
    subtree: SubtreeCheck,
    grant: GrantPermissionCommand,
    is_member: bool,
)
    ensures
        update_error(command, current, required, parent, subtree) is Some ==> update_error(
            command,
            current,
            required,
            parent,
            subtree,
        )->0 == if current is None {
            MetadataRepositoryError::NotFound
        } else if !changeable(current, required) {
            MetadataRepositoryError::Conflict
        } else if parent is None {
            MetadataRepositoryError::NotFound
        } else if parent->0.entry.kind == EntryKind::Folder
            && parent->0.entry.boundary.same_boundary(current->0.entry.boundary)
            && parent->0.access.create_child && subtree.locked == 0 {
            MetadataRepositoryError::NotFound
        } else {
            MetadataRepositoryError::Conflict
        },
        delete_error(current, required, subtree) is Some ==> delete_error(
            current,
            required,
            subtree,
        )->0 == if current is None || (changeable(current, required) && subtree.locked == 0) {
            MetadataRepositoryError::NotFound
        } else {
            MetadataRepositoryError::Conflict
        },
        grant_refusal(grant, current, required, is_member) is Some ==> grant_refusal(
            grant,
            current,
            required,
            is_member,
        )->0 == if current is None {
            MetadataRepositoryError::NotFound
        } else {
            MetadataRepositoryError::Conflict
        },
        subtree_error(subtree, required) is Some ==> subtree_error(subtree, required)->0
            == if subtree.locked == 0 {
            MetadataRepositoryError::NotFound
        } else if required != Capability::Delete && required != Capability::UpdateMetadata {
            MetadataRepositoryError::Internal { reason: "unsupported recursive capability" }
        } else {
            MetadataRepositoryError::Conflict
        },
{
}

/// A folder whose place is not there is not found; every other refusal of a
/// folder conflicts.
pub proof fn law_missing_places_are_not_found(
    mutation: CreateFolderMutation,
    actor: ActorRef,
    parent: Option<AuthorizableEntry>,
    required: Option<Capability>,
    active_tag: Option<String>,
    members: Seq<bool>,
)
    ensures
        create_folder_error(mutation, actor, parent, required, active_tag, members) is Some
            ==> create_folder_error(mutation, actor, parent, required, active_tag, members)->0
            == if mutation.owner.identity() == actor.identity() && mutation.parent_id is Some
            && parent is None {
            MetadataRepositoryError::NotFound
        } else {
            MetadataRepositoryError::Conflict
        },
{
}

/// A restore that has nothing to restore is not found, and one without a place
/// conflicts.
pub proof fn law_refused_restores_say_why(
    batch_id: Option<u128>,
    subtree: SubtreeCheck,
    claim: IdempotencyClaim,
    rows: Seq<SubtreeRow>,
    entry: AuthorizableEntry,
    parent: Option<AuthorizableEntry>,
    fallback: Option<StoredId>,
    fallback_entry: Option<AuthorizableEntry>,
)
    ensures
        restore_error(batch_id, subtree, claim, rows) is Some ==> restore_error(
            batch_id,
            subtree,
            claim,
            rows,
        )->0 == if batch_id is None || subtree.locked == 0 {
            MetadataRepositoryError::NotFound
        } else {
            MetadataRepositoryError::Conflict
        },
        restore_parent_of(entry, parent, fallback, fallback_entry) is Err ==> restore_parent_of(
            entry,
            parent,
            fallback,
            fallback_entry,
        )->Err_0 == if fallback is None {
            MetadataRepositoryError::Conflict
        } else if !fallback->0.accepted {
            MetadataRepositoryError::Internal { reason: "invalid persisted data" }
        } else if fallback_entry is None {
            MetadataRepositoryError::Internal { reason: "restore fallback disappeared" }
        } else {
            MetadataRepositoryError::Conflict
        },
{
}

/// A refused key says whether it belongs to another request or to one that still
/// runs.
pub proof fn law_refused_keys_conflict(
    metadata: MutationMetadata,
    resource_id: Option<u128>,
    inserted: bool,
    existing: Option<IdempotencyState>,
    now: i128,
    claim: IdempotencyClaim,
    accepted: bool,
    check_replay: bool,
)
    ensures
        claim_of(metadata, resource_id, inserted, existing, now) is Err ==> claim_of(
            metadata,
            resource_id,
            inserted,
            existing,
            now,
        )->Err_0 == if existing is None {
            MetadataRepositoryError::NotFound
        } else if existing->0.request_hash@ != metadata.request_fingerprint@
            || existing->0.status@ == "in_progress"@ {
            MetadataRepositoryError::Conflict
        } else {
            MetadataRepositoryError::Internal { reason: "invalid idempotency state" }
        },
        resource_claim_of(claim, accepted, check_replay) is Err ==> resource_claim_of(
            claim,
            accepted,
            check_replay,
        )->Err_0 == if claim == IdempotencyClaim::Acquired(None) || claim
            == IdempotencyClaim::Replay(None) {
            MetadataRepositoryError::Conflict
        } else {
            MetadataRepositoryError::Internal { reason: "invalid persisted data" }
        },
        content_claim_of(claim, accepted, check_replay) is Err ==> content_claim_of(
            claim,
            accepted,
            check_replay,
        )->Err_0 == if claim == IdempotencyClaim::Acquired(None) || claim
            == IdempotencyClaim::Replay(None) {
            AppError::Conflict { code: "idempotency_state" }
        } else {
            AppError::Internal { category: "persisted_data" }
        },
{
}

/// A revocation of what is not there is not found, and a second one conflicts.
pub proof fn law_refused_revocations_say_why(
    entry: Option<AuthorizableEntry>,
    required: Capability,
    grant: Option<PermissionGrantRow>,
    claim: IdempotencyClaim,
)
    ensures
        entry is None ==> revoke_refusal(entry, required, grant, claim) == Some(
            MetadataRepositoryError::NotFound,
        ),
        entry is Some && !changeable(entry, required) ==> revoke_refusal(
            entry,
            required,
            grant,
            claim,
        ) == Some(MetadataRepositoryError::Conflict),
        changeable(entry, required) && grant is None ==> revoke_refusal(
            entry,
            required,
            grant,
            claim,
        ) == Some(MetadataRepositoryError::NotFound),
        changeable(entry, required) && grant is Some && claim is Acquired && grant->0.revoked_at
            is Some ==> revoke_refusal(entry, required, grant, claim) == Some(
            MetadataRepositoryError::Conflict,
        ),
{
}

/// A decision about nothing is not found, and one that is not the caller's, not
/// pending any more, or for somebody who left conflicts.
pub proof fn law_refused_decisions_say_why(
    row: Option<AccessRequestRow>,
    entry: Option<AuthorizableEntry>,
    required: Capability,
    claim: IdempotencyClaim,
    decision: AccessDecision,
    requester_is_member: bool,
)
    ensures
        row is None ==> decision_refusal(row, entry, required, claim, decision, requester_is_member)
            == Some(MetadataRepositoryError::NotFound),
        row is Some && row->0.entry_id.accepted && entry is None ==> decision_refusal(
            row,
            entry,
            required,
            claim,
            decision,
            requester_is_member,
        ) == Some(MetadataRepositoryError::NotFound),
        row is Some && row->0.entry_id.accepted && entry is Some && !entry->0.access.permits(
            required,
        ) ==> decision_refusal(row, entry, required, claim, decision, requester_is_member) == Some(
            MetadataRepositoryError::Conflict,
        ),
        row is Some && row->0.entry_id.accepted && entry is Some && entry->0.access.permits(
            required,
        ) && claim is Acquired && row->0.status@ != "pending"@ ==> decision_refusal(
            row,
            entry,
            required,
            claim,
            decision,
            requester_is_member,
        ) == Some(MetadataRepositoryError::Conflict),
        row is Some && row->0.entry_id.accepted && entry is Some && entry->0.access.permits(
            required,
        ) && claim is Acquired && row->0.status@ == "pending"@ && actor_ref_of(
            row->0.requested_by_type@,
            row->0.requested_by_id,
        ) is Ok && decision is Approve && !requester_is_member ==> decision_refusal(
            row,
            entry,
            required,
            claim,
            decision,
            requester_is_member,
        ) == Some(MetadataRepositoryError::Conflict),
{
}

/// What is stored and cannot be read is an internal failure, whatever it is.
pub proof fn law_unreadable_rows_are_internal(
    entry: EntryRow,
    tag: Option<Candidate>,
    grant: PermissionGrantRow,
    request: AccessRequestRow,
    notification: NotificationRow,
    version: VersionRow,
    activity: ActivityRow,
    kind: Seq<char>,
    id: Candidate,
    mask: i16,
)
    ensures
        entry_error(entry, tag) matches Some(error) ==> error is Internal,
        authorizable_error(entry, tag) matches Some(error) ==> error is Internal,
        grant_error(grant) matches Some(error) ==> error is Internal,
        request_error(request) matches Some(error) ==> error is Internal,
        notification_error(notification) matches Some(error) ==> error is Internal,
        version_error(version) matches Some(error) ==> error is Internal,
        activity_error(activity) matches Some(error) ==> error is Internal,
        actor_ref_of(kind, id) matches Err(error) ==> error is Internal,
        access_of(mask) matches Err(error) ==> error is Internal,
        boundary_of(kind, tag) matches Err(error) ==> error is Internal,
        bad_data() == (MetadataRepositoryError::Internal { reason: "invalid persisted data" }),
        bad_value() == (AppError::Internal { category: "persisted_data" }),
{
}

/// A refused invitation, link, share or keeping says whether the entry is there
/// for the caller, whether the caller may do this, or what is wrong with it.
pub proof fn law_refused_shares_say_why(
    entry: Option<AuthorizableEntry>,
    access: GrantedAccess,
    lifetime_minutes: Option<u32>,
    role: OrganizationRole,
    share: Option<ExpiringShareRow>,
    claim: IdempotencyClaim,
    creator: (Seq<char>, Seq<char>),
    actor: ActorRef,
)
    ensures
        tag_invitation_refusal(entry, access, lifetime_minutes) is Some && entry is Some
            && entry->0.access.read && entry->0.access.manage_permissions
            ==> tag_invitation_refusal(entry, access, lifetime_minutes)->0 == if access.delete || (
        entry->0.entry.kind == EntryKind::File && access.write) {
            AppError::Validation { code: "invalid_invitation_rights" }
        } else {
            AppError::Validation { code: "expiring_share_is_read_only" }
        },
        link_refusal(entry, role) is Some && entry is Some && entry->0.access.fully_visible
            ==> link_refusal(entry, role)->0 == if entry->0.reserved
            && !crate::postgres::sharing::is_shareable_root(entry->0) {
            AppError::Validation { code: "protected_folder" }
        } else {
            AppError::Forbidden
        },
        share_refusal(entry, share, claim) is Some ==> share_refusal(entry, share, claim)->0
            == if entry is Some && entry->0.access.manage_permissions && share is Some {
            AppError::Conflict { code: "not_an_expiring_share" }
        } else {
            AppError::NotFound
        },
        keep_refusal(entry, creator, actor, role) is Some ==> keep_refusal(
            entry,
            creator,
            actor,
            role,
        )->0 == if entry is Some && entry->0.access.read {
            AppError::Forbidden
        } else {
            AppError::NotFound
        },
{
}

/// A refused object says whether it is another object, has no checksum, or has
/// one of other bytes.
pub proof fn law_refused_objects_say_why(
    stored: StoredObject,
    key: Seq<char>,
    size: u64,
    encoded: Seq<char>,
    expected_type: ObjectChecksumType,
)
    ensures
        small_object_refusal(stored, key, size, encoded) is Some ==> small_object_refusal(
            stored,
            key,
            size,
            encoded,
        )->0 == if stored.key@ != key || stored.size != size {
            AppError::Conflict { code: "stored_object_mismatch" }
        } else if stored.checksum is None {
            AppError::Internal { category: "object_checksum_unavailable" }
        } else {
            AppError::Conflict { code: "stored_object_checksum_mismatch" }
        },
        stored_checksum_of(stored, expected_type) is Err ==> stored_checksum_of(
            stored,
            expected_type,
        )->Err_0 == if stored.checksum is None {
            AppError::Internal { category: "object_checksum_unavailable" }
        } else {
            AppError::Conflict { code: "stored_object_checksum_mismatch" }
        },
{
}

/// A refused publication says whether the name, the file, the caller or the
/// request is in the way.
pub proof fn law_refused_publications_say_why(
    child: Option<NamedChild>,
    existing: Option<AuthorizableEntry>,
    self_destruct_minutes: Option<u32>,
    size: u64,
    upload: SmallUpload,
    preparation: SmallUploadPreparation,
    stored: StoredObject,
    encoded: Seq<char>,
    parent: Option<AuthorizableEntry>,
    facts: UploadFacts,
)
    ensures
        child is Some && child->0.entry_id.accepted && child->0.entry_type@ != "file"@
            ==> publication_refusal(child, existing, self_destruct_minutes, size) == Some(
            AppError::Conflict { code: "entry_name_exists" },
        ),
        child is Some && child->0.entry_id.accepted && child->0.entry_type@ == "file"@
            && self_destruct_minutes is Some ==> publication_refusal(
            child,
            existing,
            self_destruct_minutes,
            size,
        ) == Some(AppError::Conflict { code: "self_destruct_needs_new_file" }),
        child is Some && child->0.entry_id.accepted && child->0.entry_type@ == "file"@
            && self_destruct_minutes is None && existing is None ==> publication_refusal(
            child,
            existing,
            self_destruct_minutes,
            size,
        ) == Some(AppError::NotFound),
        child is Some && child->0.entry_id.accepted && child->0.entry_type@ == "file"@
            && self_destruct_minutes is None && existing is Some
            && !existing->0.access.write_content ==> publication_refusal(
            child,
            existing,
            self_destruct_minutes,
            size,
        ) == Some(AppError::Forbidden),
        child is Some && !child->0.entry_id.accepted ==> name_refusal(child) == Some(bad_value()),
        upload_refusal(upload, preparation, stored, encoded, parent, facts) is Some
            && small_object_refusal(stored, preparation.key@, upload.size, encoded) is None
            ==> upload_refusal(upload, preparation, stored, encoded, parent, facts)->0
            == if parent is None || parent->0.entry.kind != EntryKind::Folder {
            AppError::NotFound
        } else if !parent->0.access.create_child {
            AppError::Forbidden
        } else if !in_progress(facts.state, upload.request_hash@) {
            AppError::Conflict { code: "idempotency_state" }
        } else {
            AppError::Conflict { code: "storage_target_changed" }
        },
{
}

/// A refused download or restore says whether the file is there, whether the
/// caller may, or what is missing.
pub proof fn law_refused_versions_say_why(
    entry: Option<AuthorizableEntry>,
    version: Option<VersionContentRow>,
    role_arn: Option<Seq<char>>,
    capability: Capability,
    preparation: RestorePreparation,
    stored: StoredObject,
    facts: RestoreFacts,
)
    ensures
        file_refusal(entry, capability) is Some ==> file_refusal(entry, capability)->0 == if entry
            is Some && !entry->0.access.permits(capability) {
            AppError::Forbidden
        } else {
            AppError::NotFound
        },
        file_refusal(entry, Capability::Read) is Some ==> download_refusal(entry, version, role_arn)
            == file_refusal(entry, Capability::Read),
        file_refusal(entry, Capability::Read) is None && entry->0.entry.current_version_id is Some
            && version is None ==> download_refusal(entry, version, role_arn) == Some(
            AppError::NotFound,
        ),
        file_refusal(entry, Capability::WriteContent) is Some ==> restore_refusal(entry, version)
            == file_refusal(entry, Capability::WriteContent),
        file_refusal(entry, Capability::WriteContent) is None && version is None ==> restore_refusal(
            entry,
            version,
        ) == Some(AppError::NotFound),
        publish_restore_refusal(preparation, stored, entry, facts) is Some
            ==> publish_restore_refusal(preparation, stored, entry, facts)->0 == if stored.key@
            != preparation.destination_key@ || stored.size != preparation.size {
            AppError::Conflict { code: "stored_object_mismatch" }
        } else if entry is None {
            AppError::NotFound
        } else if !entry->0.access.write_content {
            AppError::Forbidden
        } else if !facts.source_exists {
            AppError::NotFound
        } else if !in_progress(facts.state, facts.request_hash@) {
            AppError::Conflict { code: "idempotency_state" }
        } else if !preparation.destination_target.same_place(facts.platform)
            && facts.configuration_id is None {
            AppError::Conflict { code: "storage_target_changed" }
        } else if stored.checksum is None {
            AppError::Internal { category: "object_checksum_unavailable" }
        } else {
            bad_value()
        },
{
}

/// A refused settlement says whether the caller administers, whether the request
/// is its own, and whether there is something to settle.
pub proof fn law_refused_settlements_say_why(
    role: OrganizationRole,
    keyed: Option<Seq<u8>>,
    state: Option<OperationState>,
    exists_row: bool,
    updated_rows: u64,
)
    ensures
        settlement_refusal(role, keyed, state, exists_row, updated_rows) is Some
            ==> settlement_refusal(role, keyed, state, exists_row, updated_rows)->0 == if role
            == OrganizationRole::Member {
            AppError::Forbidden
        } else if keyed is Some && !in_progress(state, keyed->0) {
            AppError::Conflict { code: "idempotency_state" }
        } else if !exists_row {
            AppError::NotFound
        } else {
            AppError::Conflict { code: "storage_configuration_state" }
        },
{
}

/// A refused step of an upload in parts says whether the upload is there for the
/// caller, at which stage it is, or what is wrong with the part.
pub proof fn law_refused_parts_say_why(
    etag: Seq<char>,
    row: Option<MultipartUploadRow>,
    authorization: RequestAuthContext,
    planned: Option<MultipartPlan>,
    part_number: u32,
    size: u64,
    now: i128,
    parent: Option<AuthorizableEntry>,
    role_arn: Option<Seq<char>>,
)
    ensures
        row is None || !owns_upload(row->0, authorization) ==> part_refusal(
            row,
            authorization,
            planned,
            part_number,
            now,
            parent,
            role_arn,
        ) == Some(AppError::NotFound) && completable_refusal(row, authorization, now, parent)
            == Some(AppError::NotFound),
        row is Some && owns_upload(row->0, authorization) && ((row->0.status@ != "initiated"@
            && row->0.status@ != "uploading"@) || row->0.expires_at <= now) ==> part_refusal(
            row,
            authorization,
            planned,
            part_number,
            now,
            parent,
            role_arn,
        ) == Some(AppError::Conflict { code: "multipart_not_uploadable" }),
        row is Some && owns_upload(row->0, authorization) && (row->0.status@ == "initiated"@
            || row->0.status@ == "uploading"@) && now < row->0.expires_at && is_started_plan(
            row->0,
            planned,
        ) && (part_number == 0 || part_number > planned->0.sizes@.len()) ==> part_refusal(
            row,
            authorization,
            planned,
            part_number,
            now,
            parent,
            role_arn,
        ) == Some(AppError::Validation { code: "invalid_part_number" }),
        crate::text::trim(etag).len() == 0 ==> record_refusal(
            etag,
            row,
            authorization,
            planned,
            part_number,
            size,
            now,
            parent,
        ) == Some(AppError::Validation { code: "invalid_part_etag" }),
        crate::text::trim(etag).len() > 0 && row is Some && owns_upload(row->0, authorization) && (
        row->0.status@ == "initiated"@ || row->0.status@ == "uploading"@) && now
            < row->0.expires_at && is_started_plan(row->0, planned) && 1 <= part_number
            <= planned->0.sizes@.len() && planned->0.sizes@[part_number - 1] != size
            ==> record_refusal(
            etag,
            row,
            authorization,
            planned,
            part_number,
            size,
            now,
            parent,
        ) == Some(AppError::Validation { code: "invalid_part_size" }),
        row is Some && owns_upload(row->0, authorization) && (row->0.status@ == "initiated"@
            || row->0.status@ == "uploading"@) && row->0.expires_at <= now ==> completable_refusal(
            row,
            authorization,
            now,
            parent,
        ) == Some(AppError::Conflict { code: "multipart_expired" }),
{
}

/// A refused completion says whether the upload can be completed, or which of its
/// parts are not the recorded ones.
pub proof fn law_refused_completions_say_why(
    upload: MultipartUploadRow,
    planned: Option<MultipartPlan>,
    plan: MultipartPlan,
    stored: Seq<MultipartPartRow>,
    client: Seq<ClientCompletedPart>,
    role_arn: Option<Seq<char>>,
    authorization: RequestAuthContext,
    part: MultipartPartRow,
    supplied: ClientCompletedPart,
)
    ensures
        upload.status@ != "initiated"@ && upload.status@ != "uploading"@ && upload.status@
            != "completing"@ ==> parts_refusal(upload, planned, stored, client, role_arn) == Some(
            AppError::Conflict { code: "multipart_not_completable" },
        ),
        stored.len() != plan.part_count || client.len() != stored.len() ==> completion_error(
            plan,
            stored,
            client,
        ) == Some(AppError::Validation { code: "invalid_multipart_completion" }),
        part.part_number >= 0 && (supplied.part_number != part.part_number || supplied.etag@
            != part.etag@) ==> part_error(plan, part, supplied) == Some(
            AppError::Validation { code: "invalid_multipart_completion" },
        ),
        !owns_upload(upload, authorization) ==> abort_refusal(upload, authorization, role_arn)
            == Some(AppError::NotFound),
{
}

/// A refused start or publication of an upload in parts says what is in the way.
pub proof fn law_refused_uploads_say_why(
    command: InitiateMultipart,
    preparation: MultipartPreparation,
    provider_upload_id: Seq<char>,
    parent: Option<AuthorizableEntry>,
    state: Option<OperationState>,
    platform: StorageTarget,
    configuration_id: Option<u128>,
    completion: MultipartCompletionPreparation,
    stored: StoredObject,
    row: Option<MultipartUploadRow>,
    authorization: RequestAuthContext,
    facts: CompletionFacts,
    role_arn: Option<Seq<char>>,
)
    ensures
        start_refusal(
            command,
            preparation,
            provider_upload_id,
            parent,
            state,
            platform,
            configuration_id,
        ) is Some ==> start_refusal(
            command,
            preparation,
            provider_upload_id,
            parent,
            state,
            platform,
            configuration_id,
        )->0 == if crate::text::trim(provider_upload_id).len() == 0 {
            AppError::Validation { code: "invalid_provider_upload_id" }
        } else if parent is None || parent->0.entry.kind != EntryKind::Folder {
            AppError::NotFound
        } else if !parent->0.access.create_child {
            AppError::Forbidden
        } else if !in_progress(state, command.request_hash@) {
            AppError::Conflict { code: "idempotency_state" }
        } else if !preparation.target.same_place(platform) && configuration_id is None {
            AppError::Conflict { code: "storage_target_changed" }
        } else {
            bad_value()
        },
        stored.key@ != completion.address.key@ || stored.size != completion.plan.file_size
            ==> publish_completion_refusal(
            completion,
            stored,
            row,
            authorization,
            parent,
            facts,
            role_arn,
        ) == Some(AppError::Conflict { code: "stored_object_mismatch" }),
        stored.key@ == completion.address.key@ && stored.size == completion.plan.file_size
            && stored.checksum is Some && stored.checksum->0.kind == ObjectChecksumType::Composite
            && (row is None || !owns_upload(row->0, authorization)) ==> publish_completion_refusal(
            completion,
            stored,
            row,
            authorization,
            parent,
            facts,
            role_arn,
        ) == Some(AppError::NotFound),
        stored.key@ == completion.address.key@ && stored.size == completion.plan.file_size
            && stored.checksum is Some && stored.checksum->0.kind == ObjectChecksumType::Composite
            && row is Some && owns_upload(row->0, authorization) && row->0.status@ != "completing"@
            ==> publish_completion_refusal(
            completion,
            stored,
            row,
            authorization,
            parent,
            facts,
            role_arn,
        ) == Some(AppError::Conflict { code: "multipart_state" }),
{
}

/// A refused reservation says what was reused, is full, is over, or has changed.
pub proof fn law_refused_reservations_say_why(
    row: UploadRow,
    command: ReserveDelegatedUpload,
    now: i128,
    parent: Result<AuthorizableEntry, AppError>,
    child: Option<NamedChild>,
    entry: Option<AuthorizableEntry>,
    room: StagingRoom,
    facts: ReservationFacts,
    expires_at: i128,
)
    ensures
        !repeats(row, command) ==> repeat_refusal(row, command, now, parent, child, entry) == Some(
            AppError::Conflict { code: "idempotency_key_reused" },
        ),
        parent is Err ==> reservation_refusal(command, parent, room, facts, expires_at, now)
            == Some(parent->Err_0),
        parent is Ok && facts.child is None && room_refusal(room, command.size) is Some
            ==> reservation_refusal(command, parent, room, facts, expires_at, now) == room_refusal(
            room,
            command.size,
        ),
        parent is Ok && facts.child is None && room_refusal(room, command.size) is None
            && expires_at <= now ==> reservation_refusal(
            command,
            parent,
            room,
            facts,
            expires_at,
            now,
        ) == Some(AppError::Validation { code: "invalid_delegated_upload_expiration" }),
        row.parent_id.accepted && parent is Ok && child is None && row.destination_entry_id is Some
            ==> destination_refusal(row, parent, child) == Some(
            AppError::Conflict { code: "delegated_upload_destination_changed" },
        ),
        committed_refusal(row, entry) is Some && row.published_entry_id is Some
            && row.published_entry_id->0.accepted ==> committed_refusal(row, entry)->0 == if entry
            is None {
            AppError::NotFound
        } else {
            AppError::Forbidden
        },
        0 <= room.bytes && room.count < 32 && room.max_upload_bytes < u64::MAX && room.bytes + size_of(
            command,
        ) > room.max_upload_bytes ==> room_refusal(room, command.size) == Some(
            AppError::Conflict { code: "delegated_upload_staging_limit_exhausted" },
        ),
        0 <= room.bytes && room.count < 32 && room.bytes + size_of(command)
            <= room.max_upload_bytes ==> room_refusal(room, command.size) == room.quota_refusal,
{
}

/// Bytes that a reservation asks for.
pub open spec fn size_of(command: ReserveDelegatedUpload) -> int {
    command.size as int
}

/// A refused step of a transfer says whether the upload is there, whether the
/// lease was lost, or what has changed.
pub proof fn law_refused_transfers_say_why(
    row: Option<UploadRow>,
    environment: Option<crate::model::TestingEnvironmentContext>,
    capability_hash: Seq<u8>,
    lease_seconds: i64,
    checked_at: i128,
    now: i128,
    transfer: DelegatedUploadTransfer,
    provider_upload_id: Seq<char>,
    stored: StoredObject,
    encoded: Option<Seq<char>>,
)
    ensures
        lease_seconds < 1 || lease_seconds > 86_400 ==> claim_refusal(
            row,
            environment,
            capability_hash,
            lease_seconds,
            checked_at,
            now,
        ) == Some(AppError::Validation { code: "invalid_delegated_upload_lease" }),
        1 <= lease_seconds <= 86_400 && (row is None || !in_scope(row->0, environment))
            ==> claim_refusal(row, environment, capability_hash, lease_seconds, checked_at, now)
            == Some(AppError::NotFound),
        1 <= lease_seconds <= 86_400 && row is Some && in_scope(row->0, environment)
            && row->0.capability_hash is Some && row->0.capability_hash->0@ == capability_hash
            && expiry_of(row->0, checked_at) is Ok && status_after(row->0, checked_at)
            != "reserved"@ ==> claim_refusal(
            row,
            environment,
            capability_hash,
            lease_seconds,
            checked_at,
            now,
        ) == Some(AppError::Conflict { code: "delegated_upload_not_reserved" }),
        1 <= lease_seconds <= 86_400 && row is Some && in_scope(row->0, environment)
            && row->0.capability_hash is Some && row->0.capability_hash->0@ == capability_hash
            && expiry_of(row->0, checked_at) is Ok && status_after(row->0, checked_at)
            == "reserved"@ && now + lease_seconds * 1_000_000_000 > row->0.expires_at
            ==> claim_refusal(row, environment, capability_hash, lease_seconds, checked_at, now)
            == Some(AppError::Conflict { code: "delegated_upload_insufficient_lifetime" }),
        writer_refusal(row, environment, transfer, now) is Some ==> writer_refusal(
            row,
            environment,
            transfer,
            now,
        )->0 == if row is None || !in_scope(row->0, environment) {
            AppError::NotFound
        } else {
            AppError::Conflict { code: "delegated_upload_lease_lost" }
        },
        row is Some && row->0.operation_id != transfer.operation_id ==> transfer_refusal(
            row->0,
            transfer,
        ) == Some(AppError::Conflict { code: "delegated_upload_transfer_changed" }),
        step_refusal(row, environment, transfer, now) is None && 1 <= crate::text::byte_len(
            provider_upload_id,
        ) <= 2_048 && provider_refusal(row, environment, transfer, now, provider_upload_id) is Some
            ==> provider_refusal(row, environment, transfer, now, provider_upload_id)->0 == (
        AppError::Conflict { code: "delegated_upload_provider_changed" }),
        row is Some && row->0.object_key.accepted && row->0.size_bytes >= 0 && (stored.key@
            != row->0.object_key.text@ || stored.size != row->0.size_bytes) ==> object_refusal(
            row->0,
            stored,
            encoded,
        ) == Some(AppError::Conflict { code: "stored_object_mismatch" }),
        row is Some && row->0.object_key.accepted && row->0.size_bytes >= 0 && stored.key@
            == row->0.object_key.text@ && stored.size == row->0.size_bytes && stored.checksum
            is Some && encoded is Some && object_refusal(row->0, stored, encoded) is Some
            ==> object_refusal(row->0, stored, encoded)->0 == (AppError::Conflict {
            code: "stored_object_checksum_mismatch",
        }),
        step_refusal(row, environment, transfer, now) is None && object_refusal(
            row->0,
            stored,
            encoded,
        ) is None && completion_refusal(row, environment, transfer, stored, encoded, now) is Some
            ==> completion_refusal(row, environment, transfer, stored, encoded, now)->0 == (
        AppError::Conflict { code: "delegated_upload_provider_not_started" }),
{
}

/// A refused commit says whether the upload is staged, whether its object or its
/// place has changed, or what else is in the way.
pub proof fn law_refused_commits_say_why(
    row: Option<UploadRow>,
    upload_id: u128,
    now: i128,
    parent: Result<AuthorizableEntry, AppError>,
    child: Option<NamedChild>,
    entry: Option<AuthorizableEntry>,
    stored: StoredObject,
    facts: CommitFacts,
)
    ensures
        row is None || row->0.upload_id != upload_id ==> prepare_refusal(
            row,
            upload_id,
            now,
            parent,
            child,
            entry,
        ) == Some(AppError::NotFound),
        row is Some && row->0.upload_id == upload_id && expiry_of(row->0, now) is Ok
            && status_after(row->0, now) != "committed"@ && status_after(row->0, now) != "staged"@
            ==> prepare_refusal(row, upload_id, now, parent, child, entry) == Some(
            AppError::Conflict { code: "delegated_upload_not_staged" },
        ),
        row is Some && row_object(row->0) is Ok && !same_object(row_object(row->0)->Ok_0, stored)
            ==> staged_refusal(row->0, stored, parent, facts) == Some(
            AppError::Conflict { code: "delegated_upload_object_changed" },
        ),
        row is Some && row_object(row->0) is Ok && same_object(row_object(row->0)->Ok_0, stored)
            && destination_refusal(row->0, parent, facts.child) is None && encryption_of(
            row->0.storage_encryption_mode@,
        ) is Some && !provider_is_unchanged(row->0, facts) ==> staged_refusal(
            row->0,
            stored,
            parent,
            facts,
        ) == Some(AppError::Conflict { code: "storage_target_changed" }),
{
}

/// A refused token, proof or session says whether it is over or spent, bound to
/// something else, or not what the service promised.
pub proof fn law_refused_identities_say_why(
    wire: WireIntrospectionResponse,
    organization: Seq<char>,
    application: Seq<char>,
    now: i128,
    delegation: WireOboResponse,
    audience: Seq<char>,
    asked: Option<Seq<char>>,
    path: Seq<char>,
    tokens: WireApplicationTokenResponse,
    session: LocalIntrospection,
    environment: Option<&IamEnvironmentCredential>,
    clock: i64,
)
    ensures
        wire.active && wire.org_id is Some && wire.org_id->0.accepted && wire.org_id->0.text@
            != organization ==> introspection_error(wire, organization, application, now) == Some(
            IamClientError::BindingMismatch { binding: "org_id" },
        ),
        introspection_error(wire, organization, application, now) == Some(IamClientError::Rejected)
            ==> !wire.active || instant_of_timestamp(wire.expires_at->0 as int)->0 <= now,
        introspection_error(wire, organization, application, now) is Some && introspection_error(
            wire,
            organization,
            application,
            now,
        )->0 is BindingMismatch ==> wire.org_id->0.text@ != organization || wire.client_id->0@
            != application || wire.audience->0@ != application,
        obo_error(delegation, audience, application, asked, path) == Some(IamClientError::Rejected)
            <==> !delegation.valid,
        obo_error(delegation, audience, application, asked, path) is Some && obo_error(
            delegation,
            audience,
            application,
            asked,
            path,
        )->0 is BindingMismatch ==> delegation.issuer_app_id->0.text@ != application
            || delegation.audience->0.text@ != audience || delegation.endpoint->0.path@ != path || (
        asked is Some && asked->0 != delegation.org_id->0.text@),
        application_tokens_error(tokens) matches Some(error) ==> error is InvalidResponse,
        session.active && session_error(session, audience, environment, clock) is Some && (
        crate::text::optional_chars(session.client_id) != Some(audience)
            || crate::text::optional_chars(session.audience) != Some(audience)) ==> session_error(
            session,
            audience,
            environment,
            clock,
        ) == Some(IamClientError::BindingMismatch { binding: "session.audience" }),
{
}

/// A refused authority says whether it is bound to something else, withheld, or
/// not what the service promised.
pub proof fn law_refused_authorities_say_why(
    verified: VerifiedIdentity,
    access: VerifiedOboAccess,
    snapshot: LocalAuthorization,
    scopes: Seq<char>,
    audience: Seq<char>,
    organization: Seq<char>,
    environment: Option<&IamEnvironmentCredential>,
    proof_text: Seq<char>,
    binding: OboRequestBinding<'_>,
)
    ensures
        !snapshot_bound(snapshot, audience, organization, environment) ==> authorization_error(
            snapshot,
            audience,
            organization,
            environment,
        ) == Some(IamClientError::BindingMismatch { binding: "authorization.scope" }),
        snapshot_bound(snapshot, audience, organization, environment)
            && crate::iam::official::role_of(snapshot.org_role) is None ==> authorization_error(
            snapshot,
            audience,
            organization,
            environment,
        ) == Some(IamClientError::Rejected),
        bearer_binding_error(verified, None, scopes, audience, organization, environment) == Some(
            IamClientError::InvalidResponse { reason: "authorization_missing" },
        ),
        snapshot.principal_id != verified.principal_id || snapshot.membership_id
            != verified.membership_id || snapshot.authorization_epoch
            != verified.authorization_epoch || joined(snapshot.scopes@) != scopes
            ==> bearer_binding_error(
            verified,
            Some(snapshot),
            scopes,
            audience,
            organization,
            environment,
        ) == Some(IamClientError::BindingMismatch { binding: "authorization.token" }),
        authorization_error(snapshot, audience, access.organization_id@, environment) is None && (
        kind_of(snapshot.actor_type) != Some(access.actor.kind) || snapshot.public_id->0.text@
            != access.actor.id@) ==> obo_binding_error(access, snapshot, audience, environment)
            == Some(IamClientError::BindingMismatch { binding: "authorization.actor" }),
        fixed_secret_ok(proof_text, "obo_"@) && obo_request_error(proof_text, binding) is Some
            ==> obo_request_error(proof_text, binding)->0 is BindingMismatch,
{
}

} // verus!
