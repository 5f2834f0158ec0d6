//! Uploads that a member reserves, an application's bearer fills, and the member
//! publishes.

use vstd::prelude::*;

use crate::encoding::{hex_of, standard_base64};
use crate::error::AppError;
use crate::ids::hyphenated_chars;
use crate::model::{AuthorizableEntry, ExecutionContext, TestingEnvironmentContext};
use crate::postgres::content::delegated::commit::{
    commit_planned, commit_request, expected_entry, is_staged_content, lookup_refusal,
    prepare_refusal, provider_is_unchanged, same_object, staged_refusal, CommitFacts,
    DelegatedPublication,
};
use crate::postgres::content::delegated::reservation::{
    repeat_refusal, repeats, reservation_end, reservation_refusal, reserves, room_refusal,
    ReservationFacts, ReservationInsert, ReserveDelegatedUpload, StagingRoom,
};
use crate::postgres::content::delegated::transfer::{
    at_row_place, claim_refusal, completes, completion_refusal, expected_digest, failure_planned,
    failure_refusal, holds_capability, is_running, may_hold_bytes, object_refusal, provider_start,
    record_refusal, step_refusal, transfer_refusal, transfers, writer_refusal,
    DelegatedUploadTransfer, TransferCompletion, TransferFailure,
};
use crate::postgres::content::delegated::{
    busy_until, cancellation_of, cleanup_time, committed_refusal, description_of,
    destination_refusal, ending, expiry_of, in_scope, is_open, row_object, row_target, state_of,
    status_after, status_of, DelegatedUploadState, UploadRow,
};
use crate::postgres::content::objects::{
    checksum_type_word, ObjectChecksumAlgorithm, ObjectChecksumType, StoredObject,
};
use crate::postgres::content::publishing::{Publication, StoredContent};
use crate::postgres::content::storage::{encryption_of, encryption_word, StorageTarget};
use crate::postgres::content::NamedChild;
use crate::text::{byte_len, optional_chars};

verus! {

/// The words for an upload's state name it, and no other word does.
pub proof fn law_delegated_uploads_have_states(word: Seq<char>)
    ensures
        state_of(word) == Some(DelegatedUploadState::Reserved) <==> word == "reserved"@,
        state_of(word) == Some(DelegatedUploadState::Receiving) <==> word == "receiving"@,
        state_of(word) == Some(DelegatedUploadState::Staged) <==> word == "staged"@,
        state_of(word) == Some(DelegatedUploadState::Committed) <==> word == "committed"@,
        state_of(word) == Some(DelegatedUploadState::Cancelled) <==> word == "cancelled"@,
        state_of(word) == Some(DelegatedUploadState::Expired) <==> word == "expired"@,
        state_of(word) == Some(DelegatedUploadState::CleanupPending) <==> word
            == "cleanup_pending"@,
        is_open(word) <==> word == "reserved"@ || word == "receiving"@ || word == "staged"@,
{
    reveal_strlit("reserved");
    reveal_strlit("receiving");
    reveal_strlit("staged");
    reveal_strlit("committed");
    reveal_strlit("cancelled");
    reveal_strlit("expired");
    reveal_strlit("cleanup_pending");
    assert("reserved"@.len() == 8);
    assert("receiving"@.len() == 9);
    assert("staged"@.len() == 6);
    assert("committed"@.len() == 9);
    assert("cancelled"@.len() == 9);
    assert("expired"@.len() == 7);
    assert("cleanup_pending"@.len() == 15);
    assert("receiving"@[0] != "committed"@[0]);
    assert("receiving"@[0] != "cancelled"@[0]);
    assert("committed"@[1] != "cancelled"@[1]);
}

/// An upload is described as it is stored.
pub proof fn law_uploads_are_described_as_stored(
    row: UploadRow,
    word: Seq<char>,
    published: Option<u128>,
)
    ensures
        status_of(row, word, published) is Ok <==> state_of(word) is Some,
        status_of(row, word, published) matches Ok(status) ==> {
            &&& Some(status.state) == state_of(word)
            &&& status.operation_id == row.operation_id
            &&& status.upload_id == row.upload_id
            &&& status.expires_at == row.expires_at
            &&& status.published_entry_id == published
        },
{
}

/// An upload's object is at the place and under the key that were reserved for
/// it, and as the store reported it.
pub proof fn law_staged_objects_are_read_as_stored(row: UploadRow, target: StorageTarget)
    ensures
        row_object(row) is Ok <==> {
            &&& row.object_checksum_type is Some && (row.object_checksum_type->0@ == "full_object"@
                || row.object_checksum_type->0@ == "composite"@)
            &&& row.object_checksum_value is Some && row.object_checksum_value->0.accepted
            &&& row.object_key.accepted && row.size_bytes >= 0
        },
        row_object(row) matches Ok(object) ==> {
            &&& object.key == row.object_key.text
            &&& object.etag == row.object_etag
            &&& object.provider_version_id == row.object_version_id
            &&& object.size == row.size_bytes
            &&& object.checksum is Some
            &&& object.checksum->0.value == row.object_checksum_value->0.text
            &&& object.checksum->0.algorithm == ObjectChecksumAlgorithm::Sha256
            &&& object.checksum->0.kind == ObjectChecksumType::FullObject
                <==> row.object_checksum_type->0@ == "full_object"@
        },
        row_target(target, row) <==> {
            &&& target.bucket == row.bucket_name && target.region == row.storage_region
                && target.prefix == row.storage_prefix
            &&& target.role_arn == row.storage_role_arn && target.external_id
                == row.storage_external_id && target.kms_key_arn == row.storage_kms_key_arn
            &&& encryption_of(row.storage_encryption_mode@) == Some(target.encryption)
        },
{
    reveal_strlit("full_object");
    reveal_strlit("composite");
    assert("full_object"@.len() == 11);
    assert("composite"@.len() == 9);
}

/// Cleaning up waits for two minutes after everyone who may still write is done:
/// whoever holds the lease, the store, and the request itself.
pub proof fn law_cleanup_waits_for_everyone(row: UploadRow, now: i128)
    ensures
        busy_until(row, now) >= now,
        row.lease_expires_at matches Some(end) ==> busy_until(row, now) >= end,
        row.provider_deadline_at matches Some(deadline) ==> busy_until(row, now) >= deadline,
        busy_until(row, now) == now || Some(busy_until(row, now)) == row.lease_expires_at || Some(
            busy_until(row, now),
        ) == row.provider_deadline_at,
        cleanup_time(row, now) matches Some(time) ==> time == busy_until(row, now) + 120
            * 1_000_000_000,
{
}

/// An upload ends exactly where its time is up and it is still open; whether
/// bytes may have been written decides whether there is something to clean up.
pub proof fn law_uploads_end_when_their_time_is_up(row: UploadRow, now: i128)
    ensures
        now < row.expires_at ==> expiry_of(row, now) matches Ok(None),
        now < row.expires_at ==> status_after(row, now) == row.status@,
        !is_open(row.status@) ==> status_after(row, now) == row.status@,
        row.expires_at <= now && is_open(row.status@) && !row.provider_write_started
            ==> status_after(row, now) == "expired"@,
        row.expires_at <= now && is_open(row.status@) && row.provider_write_started
            && cleanup_time(row, now) is Some ==> status_after(row, now) == "cleanup_pending"@,
        expiry_of(row, now) matches Ok(Some(written)) ==> (row.provider_write_started
            <==> written.cleanup_after is Some) && (row.provider_write_started
            ==> written.cleanup_after == cleanup_time(row, now)),
{
}

/// Without bytes an upload ends as it is told to; with bytes it waits to be
/// cleaned up.
pub proof fn law_uploads_with_bytes_are_cleaned_up(
    row: UploadRow,
    now: i128,
    without_bytes: &'static str,
)
    ensures
        !row.provider_write_started ==> {
            &&& ending(row, now, without_bytes) is Ok
            &&& ending(row, now, without_bytes)->Ok_0.status == without_bytes
            &&& ending(row, now, without_bytes)->Ok_0.cleanup_after is None
        },
        row.provider_write_started ==> (ending(row, now, without_bytes) is Ok <==> cleanup_time(
            row,
            now,
        ) is Some),
        row.provider_write_started && ending(row, now, without_bytes) is Ok ==> ending(
            row,
            now,
            without_bytes,
        )->Ok_0.status == "cleanup_pending" && ending(row, now, without_bytes)->Ok_0.cleanup_after
            == cleanup_time(row, now),
{
}

/// An open upload is cancelled, and one that is over stays as it ended.
pub proof fn law_open_uploads_are_cancelled(row: UploadRow, checked_at: i128, now: i128)
    ensures
        !is_open(row.status@) ==> cancellation_of(row, checked_at, now) == description_of(
            row,
            checked_at,
        ),
        is_open(row.status@) && checked_at < row.expires_at && !row.provider_write_started ==> {
            let described = cancellation_of(row, checked_at, now);
            &&& described is Ok
            &&& described->Ok_0.status.state == DelegatedUploadState::Cancelled
            &&& described->Ok_0.status.upload_id == row.upload_id
            &&& described->Ok_0.settlement is Some
            &&& described->Ok_0.settlement->0.status == "cancelled"
        },
        is_open(row.status@) && checked_at < row.expires_at && row.provider_write_started
            && cleanup_time(row, now) is Some ==> {
            let described = cancellation_of(row, checked_at, now);
            &&& described is Ok
            &&& described->Ok_0.status.state == DelegatedUploadState::CleanupPending
        },
{
    law_delegated_uploads_have_states("cancelled"@);
    law_delegated_uploads_have_states("cleanup_pending"@);
}

/// An upload is described exactly where its state is known.
pub proof fn law_uploads_are_described(row: UploadRow, now: i128)
    ensures
        expiry_of(row, now) is Err ==> description_of(row, now) is Err,
        expiry_of(row, now) is Ok ==> (description_of(row, now) is Ok <==> state_of(
            status_after(row, now),
        ) is Some),
        description_of(row, now) matches Ok(described) ==> Some(described.status.state) == state_of(
            status_after(row, now),
        ) && described.status.upload_id == row.upload_id && expiry_of(row, now) == Ok::<
            _,
            AppError,
        >(described.settlement),
{
}

/// An upload belongs to one generation of one plane.
pub proof fn law_uploads_belong_to_one_plane(
    row: UploadRow,
    environment: Option<TestingEnvironmentContext>,
)
    ensures
        environment is None ==> (in_scope(row, environment) <==> row.testing_environment_id is None
            && row.control_version == 0),
        environment matches Some(plane) ==> (in_scope(row, environment)
            <==> row.testing_environment_id == Some(plane.id) && row.control_version
            == plane.control_version),
{
}

/// An upload's destination is unchanged exactly where its folder still takes it
/// and the same file, or still none, carries the name.
pub proof fn law_destinations_must_not_change(
    row: UploadRow,
    parent: Result<AuthorizableEntry, AppError>,
    child: Option<NamedChild>,
)
    ensures
        destination_refusal(row, parent, child) is None <==> {
            &&& row.parent_id.accepted
            &&& parent is Ok
            &&& child is None ==> row.destination_entry_id is None
            &&& child is Some ==> child->0.entry_id.accepted && row.destination_entry_id == Some(
                child->0.entry_id.value,
            )
        },
        row.parent_id.accepted && parent is Err ==> destination_refusal(row, parent, child) == Some(
            parent->Err_0,
        ),
{
}

/// A published upload is shown exactly to who may still write the file's content.
pub proof fn law_published_uploads_are_shown_to_writers(
    row: UploadRow,
    entry: Option<AuthorizableEntry>,
)
    ensures
        committed_refusal(row, entry) is None <==> row.published_entry_id is Some
            && row.published_entry_id->0.accepted && entry is Some
            && entry->0.access.write_content,
{
}

/// A reservation is repeated by the same request for the same folder.
pub proof fn law_reservations_are_repeated_by_the_same_request(
    row: UploadRow,
    command: ReserveDelegatedUpload,
)
    ensures
        repeats(row, command) <==> row.request_hash@ == command.request_hash@ && row.parent_path@
            == command.parent_path@ && row.parent_id.value == command.parent_id,
{
}

/// A repeated reservation is answered where it may still be used, or where what
/// it published may be seen.
pub proof fn law_repeated_reservations_are_answered(
    row: UploadRow,
    command: ReserveDelegatedUpload,
    now: i128,
    parent: Result<AuthorizableEntry, AppError>,
    child: Option<NamedChild>,
    entry: Option<AuthorizableEntry>,
)
    ensures
        repeat_refusal(row, command, now, parent, child, entry) is None <==> {
            &&& repeats(row, command)
            &&& expiry_of(row, now) is Ok
            &&& status_after(row, now) == "reserved"@ ==> destination_refusal(
                row,
                parent,
                child,
            ) is None
            &&& status_after(row, now) == "committed"@ ==> committed_refusal(row, entry) is None
            &&& state_of(status_after(row, now)) is Some
        },
{
    law_delegated_uploads_have_states(status_after(row, now));
}

/// There is room for an upload exactly below thirty-two reservations, within the
/// bytes that may be staged, and where the quota allows it.
pub proof fn law_staging_has_limits(room: StagingRoom, size: u64)
    ensures
        room_refusal(room, size) is None <==> {
            &&& room.count < 32
            &&& room.bytes >= 0
            &&& room.bytes + size <= room.max_upload_bytes || (room.max_upload_bytes == u64::MAX
                && room.bytes + size > u64::MAX)
            &&& room.quota_refusal is None
        },
        room.count >= 32 ==> room_refusal(room, size) == Some(
            AppError::Conflict { code: "delegated_upload_staging_limit_exhausted" },
        ),
{
}

/// A reservation lasts as long as it asks for, and a day at most.
pub proof fn law_reservations_end_as_asked(expires_at: i128, now: i128)
    ensures
        reservation_end(expires_at, now) <= expires_at,
        reservation_end(expires_at, now) <= now + 86_400_000_000_000,
        reservation_end(expires_at, now) == expires_at || reservation_end(expires_at, now) == now
            + 86_400_000_000_000,
{
}

/// Room is reserved exactly where the folder takes the upload, there is room, the
/// reservation has time left, and the place can be described.
pub proof fn law_room_is_reserved_where_it_may_be(
    command: ReserveDelegatedUpload,
    parent: Result<AuthorizableEntry, AppError>,
    room: StagingRoom,
    facts: ReservationFacts,
    expires_at: i128,
    now: i128,
)
    ensures
        reservation_refusal(command, parent, room, facts, expires_at, now) is None <==> {
            &&& parent is Ok
            &&& facts.child is Some ==> facts.child->0.entry_id.accepted
            &&& room_refusal(room, command.size) is None
            &&& now < expires_at
            &&& facts.active is Some ==> encryption_of(facts.active->0.encryption_mode@) is Some
            &&& command.size <= i64::MAX
        },
{
}

/// A reservation is for what was asked for, by who asked for it, and for a place
/// and a key of its own.
pub proof fn law_reservations_are_as_asked(
    row: ReservationInsert,
    command: ReserveDelegatedUpload,
    facts: ReservationFacts,
    external_id: Seq<char>,
    end: int,
)
    requires
        reserves(row, command, facts, external_id, end),
    ensures
        row.upload_id == facts.upload_id,
        row.operation_id == command.operation_id,
        facts.environment is None ==> row.testing_environment_id is None,
        facts.environment matches Some(plane) ==> row.testing_environment_id == Some(plane.id),
        row.identity == facts.identity,
        row.request_hash == command.request_hash,
        row.capability_hash == facts.capability_hash,
        row.parent_id == command.parent_id && row.parent_path == command.parent_path,
        row.name == command.name && row.content_type == command.content_type,
        row.size_bytes == command.size,
        row.expected_sha256 == command.sha256,
        facts.child is None ==> row.destination_entry_id is None,
        facts.child matches Some(file) ==> row.destination_entry_id == Some(file.entry_id.value),
        row.proposed_entry_id == facts.proposed_entry_id,
        row.expires_at == end,
        facts.active is None ==> row.target == facts.platform && row.storage_config_id is None
            && row.storage_backend@ == "platform"@,
        facts.active matches Some(own) ==> row.target.bucket == own.bucket_name
            && row.storage_config_id == Some(own.storage_config_id.value) && row.storage_backend@
            == "organization"@,
        row.storage_encryption_mode@ == encryption_word(row.target.encryption),
        row.object_key@ == "delegated/"@ + hyphenated_chars(facts.upload_id) + "/object"@,
{
}

/// Bytes are admitted exactly by the capability of a reservation in scope that is
/// still reserved and outlasts the lease.
pub proof fn law_capabilities_admit_bytes(
    row: Option<UploadRow>,
    environment: Option<TestingEnvironmentContext>,
    capability_hash: Seq<u8>,
    lease_seconds: i64,
    checked_at: i128,
    now: i128,
)
    ensures
        claim_refusal(row, environment, capability_hash, lease_seconds, checked_at, now) is None
            <==> {
            &&& 1 <= lease_seconds <= 86_400
            &&& row is Some && in_scope(row->0, environment)
            &&& row->0.capability_hash is Some && row->0.capability_hash->0@ == capability_hash
            &&& expiry_of(row->0, checked_at) is Ok
            &&& status_after(row->0, checked_at) == "reserved"@
            &&& now + lease_seconds * 1_000_000_000 <= row->0.expires_at
            &&& encryption_of(row->0.storage_encryption_mode@) is Some
            &&& row->0.object_key.accepted && row->0.size_bytes >= 0
                && row->0.expected_sha256@.len() == 32
        },
        1 <= lease_seconds <= 86_400 && row is Some && !holds_capability(row->0, capability_hash)
            ==> claim_refusal(row, environment, capability_hash, lease_seconds, checked_at, now)
            == Some(AppError::NotFound),
{
}

/// A transfer is of the upload it was claimed for.
pub proof fn law_transfers_are_of_their_upload(
    transfer: DelegatedUploadTransfer,
    row: UploadRow,
    lease_token: u128,
    lease_expires_at: int,
)
    requires
        transfers(transfer, row, lease_token, lease_expires_at),
    ensures
        transfer.operation_id == row.operation_id,
        transfer.upload_id == row.upload_id,
        transfer.lease_token == lease_token,
        transfer.lease_expires_at == lease_expires_at,
        transfer.key == row.object_key.text,
        transfer.content_type == row.content_type,
        transfer.size == row.size_bytes,
        transfer.sha256@ == row.expected_sha256@,
        transfer.target.bucket == row.bucket_name && transfer.target.prefix == row.storage_prefix
            && transfer.target.region == row.storage_region,
{
}

/// A writer goes on exactly while it holds the lease of an upload in scope that
/// still receives, before the lease and the reservation end.
pub proof fn law_writers_hold_the_lease(
    row: Option<UploadRow>,
    environment: Option<TestingEnvironmentContext>,
    transfer: DelegatedUploadTransfer,
    now: i128,
)
    ensures
        writer_refusal(row, environment, transfer, now) is None <==> {
            &&& row is Some && in_scope(row->0, environment)
            &&& row->0.status@ == "receiving"@
            &&& row->0.lease_token == Some(transfer.lease_token)
            &&& row->0.lease_expires_at == Some(transfer.lease_expires_at)
            &&& now < transfer.lease_expires_at
            &&& now < row->0.expires_at
        },
        row is None ==> writer_refusal(row, environment, transfer, now) == Some(AppError::NotFound),
{
}

/// A transfer goes on exactly where it still is of the upload as it is stored.
pub proof fn law_transfers_must_not_change(row: UploadRow, transfer: DelegatedUploadTransfer)
    ensures
        transfer_refusal(row, transfer) is None <==> {
            &&& row.operation_id == transfer.operation_id
            &&& transfer.target.bucket@ == row.bucket_name@
            &&& transfer.target.region@ == row.storage_region@
            &&& transfer.target.prefix@ == row.storage_prefix@
            &&& optional_chars(transfer.target.role_arn) == optional_chars(row.storage_role_arn)
            &&& optional_chars(transfer.target.external_id) == optional_chars(
                row.storage_external_id,
            )
            &&& optional_chars(transfer.target.kms_key_arn) == optional_chars(
                row.storage_kms_key_arn,
            )
            &&& encryption_of(row.storage_encryption_mode@) == Some(transfer.target.encryption)
            &&& row.object_key.accepted && row.object_key.text@ == transfer.key@
            &&& row.content_type@ == transfer.content_type@
            &&& row.size_bytes >= 0 && row.size_bytes == transfer.size
            &&& row.expected_sha256@.len() == 32 && row.expected_sha256@ == transfer.sha256@
        },
{
}

/// Each step takes a writer with an unchanged transfer, and a start of the store
/// a timeout that can be stored.
pub proof fn law_steps_take_the_writer(
    row: Option<UploadRow>,
    environment: Option<TestingEnvironmentContext>,
    transfer: DelegatedUploadTransfer,
    now: i128,
    timeout_millis: u128,
    completion: bool,
)
    ensures
        step_refusal(row, environment, transfer, now) is None <==> writer_refusal(
            row,
            environment,
            transfer,
            now,
        ) is None && transfer_refusal(row->0, transfer) is None,
        provider_start(row, environment, transfer, now, timeout_millis, completion) is Ok
            <==> step_refusal(row, environment, transfer, now) is None && timeout_millis
            <= i64::MAX,
        provider_start(row, environment, transfer, now, timeout_millis, completion) matches Ok(
            start,
        ) ==> start.completion == completion && start.timeout_millis == timeout_millis,
{
}

/// The store's identifier is recorded exactly by the writer, once bytes may be
/// written, and never replaced by another.
pub proof fn law_provider_identifiers_stay(
    row: Option<UploadRow>,
    environment: Option<TestingEnvironmentContext>,
    transfer: DelegatedUploadTransfer,
    now: i128,
    provider_upload_id: Seq<char>,
)
    ensures
        record_refusal(row, environment, transfer, now, provider_upload_id) is None <==> {
            &&& 1 <= byte_len(provider_upload_id) <= 2_048
            &&& step_refusal(row, environment, transfer, now) is None
            &&& row->0.provider_write_started
            &&& row->0.provider_upload_id is Some ==> row->0.provider_upload_id->0@
                == provider_upload_id
        },
{
}

/// A received object is the expected one exactly where key and size agree and its
/// checksum is of the promised bytes, or of parts that the store has named.
pub proof fn law_received_objects_are_the_promised_ones(
    row: UploadRow,
    stored: StoredObject,
    encoded: Option<Seq<char>>,
)
    ensures
        object_refusal(row, stored, encoded) is None <==> {
            &&& row.object_key.accepted && row.size_bytes >= 0
            &&& stored.key@ == row.object_key.text@ && stored.size == row.size_bytes
            &&& stored.checksum is Some
            &&& stored.checksum->0.kind == ObjectChecksumType::FullObject ==> encoded is Some
                && stored.checksum->0.value@ == encoded->0
            &&& stored.checksum->0.kind == ObjectChecksumType::Composite
                ==> row.provider_upload_id is Some
        },
        expected_digest(row) is Some <==> row.expected_sha256@.len() == 32,
        expected_digest(row) matches Some(text) ==> text == standard_base64(row.expected_sha256@),
{
}

/// A transfer completes exactly by its writer, with the promised object, once
/// writing and completing were announced; and it stages that object.
pub proof fn law_transfers_complete_with_the_promised_object(
    row: Option<UploadRow>,
    environment: Option<TestingEnvironmentContext>,
    transfer: DelegatedUploadTransfer,
    stored: StoredObject,
    encoded: Option<Seq<char>>,
    now: i128,
    completion: TransferCompletion,
)
    ensures
        completion_refusal(row, environment, transfer, stored, encoded, now) is None <==> {
            &&& step_refusal(row, environment, transfer, now) is None
            &&& object_refusal(row->0, stored, encoded) is None
            &&& row->0.provider_write_started && row->0.provider_completion_started
        },
        row matches Some(upload) ==> (completes(completion, upload, stored) ==> {
            &&& completion.object_version_id == stored.provider_version_id
            &&& completion.object_etag == stored.etag
            &&& completion.object_checksum_value == stored.checksum->0.value
            &&& completion.object_checksum_type@ == checksum_type_word(stored.checksum->0.kind)
            &&& completion.status.state == DelegatedUploadState::Staged
            &&& completion.status.upload_id == upload.upload_id
            &&& completion.status.operation_id == upload.operation_id
            &&& completion.status.expires_at == upload.expires_at
        }),
{
}

/// A transfer runs exactly while the upload receives under its lease, and bytes
/// may exist once anything was started or named.
pub proof fn law_bytes_may_exist_once_started(
    row: UploadRow,
    transfer: DelegatedUploadTransfer,
    provider_upload_id: Option<Seq<char>>,
    stored: Option<StoredObject>,
)
    ensures
        is_running(row, transfer) <==> row.status@ == "receiving"@ && row.lease_token == Some(
            transfer.lease_token,
        ),
        may_hold_bytes(row, provider_upload_id, stored) <==> row.provider_write_started
            || provider_upload_id is Some || stored is Some,
{
}

/// A failed transfer that may have left bytes is cleaned up after the store is
/// done; one that left none gives its reservation back while that lasts.
pub proof fn law_failed_transfers_are_settled(
    failure: TransferFailure,
    row: UploadRow,
    provider_upload_id: Option<Seq<char>>,
    stored: Option<StoredObject>,
    now: i128,
    timeout_millis: u128,
)
    requires
        failure_planned(failure, row, provider_upload_id, stored, now, timeout_millis),
        timeout_millis <= i64::MAX,
        -0x4000_0000_0000_0000_0000_0000 <= now <= 0x4000_0000_0000_0000_0000_0000,
    ensures
        failure is Cleanup <==> row.provider_write_started || provider_upload_id is Some || stored
            is Some,
        failure is Release <==> failure !is Cleanup,
        failure matches TransferFailure::Release { status, keeps_capability } ==> {
            &&& keeps_capability <==> now < row.expires_at
            &&& now < row.expires_at ==> status@ == "reserved"@
            &&& row.expires_at <= now ==> status@ == "expired"@
        },
        failure is Cleanup ==> {
            &&& failure->completion_started <==> stored is Some
            &&& optional_chars(failure->provider_upload_id) == provider_upload_id
            &&& stored is Some ==> failure->object_version_id == stored->0.provider_version_id
                && failure->object_etag == stored->0.etag
            &&& stored is None ==> failure->object_version_id is None && failure->object_etag
                is None
            &&& row.provider_deadline_at is Some ==> failure->provider_deadline
                == row.provider_deadline_at->0
            &&& row.provider_deadline_at is None ==> failure->provider_deadline == now
                + timeout_millis * 1_000_000
            &&& failure->cleanup_after >= now + 120 * 1_000_000_000
            &&& failure->cleanup_after >= failure->provider_deadline + 120 * 1_000_000_000
        },
{
    if failure is Cleanup {
        assert(timeout_millis * 1_000_000 <= 0x7fff_ffff_ffff_ffff * 1_000_000) by (nonlinear_arith)
            requires
                timeout_millis <= 0x7fff_ffff_ffff_ffff,
        ;
    }
}

/// A failure is taken exactly where it is of this transfer and names nothing that
/// contradicts it.
pub proof fn law_failures_are_of_their_transfer(
    row: UploadRow,
    transfer: DelegatedUploadTransfer,
    provider_upload_id: Option<Seq<char>>,
    stored: Option<StoredObject>,
    now: i128,
    timeout_millis: u128,
)
    ensures
        failure_refusal(row, transfer, provider_upload_id, stored, now, timeout_millis) is None
            ==> {
            &&& transfer_refusal(row, transfer) is None
            &&& stored is Some ==> stored->0.key@ == row.object_key.text@ && stored->0.size
                == row.size_bytes
            &&& provider_upload_id is Some ==> 1 <= byte_len(provider_upload_id->0) <= 2_048 && (
            row.provider_upload_id is None || row.provider_upload_id->0@ == provider_upload_id->0)
        },
        transfer_refusal(row, transfer) is None && !row.provider_write_started
            && provider_upload_id is None && stored is None ==> failure_refusal(
            row,
            transfer,
            provider_upload_id,
            stored,
            now,
            timeout_millis,
        ) is None,
{
}

/// An upload is found by its operation and its own identifier.
pub proof fn law_uploads_are_found_by_both_identifiers(
    row: Option<UploadRow>,
    upload_id: u128,
    now: i128,
)
    ensures
        lookup_refusal(row, upload_id, now) is None <==> row is Some && row->0.upload_id
            == upload_id && expiry_of(row->0, now) is Ok,
        row is None || row->0.upload_id != upload_id ==> lookup_refusal(row, upload_id, now)
            == Some(AppError::NotFound),
{
}

/// A commit is prepared exactly for a staged upload whose destination is
/// unchanged and whose object can be read; a committed one is shown to writers.
pub proof fn law_commits_are_prepared_where_they_may_be(
    row: Option<UploadRow>,
    upload_id: u128,
    now: i128,
    parent: Result<AuthorizableEntry, AppError>,
    child: Option<NamedChild>,
    entry: Option<AuthorizableEntry>,
)
    ensures
        prepare_refusal(row, upload_id, now, parent, child, entry) is None <==> {
            &&& row is Some && row->0.upload_id == upload_id && expiry_of(row->0, now) is Ok
            &&& status_after(row->0, now) == "committed"@ || status_after(row->0, now)
                == "staged"@
            &&& status_after(row->0, now) == "committed"@ ==> committed_refusal(
                row->0,
                entry,
            ) is None
            &&& status_after(row->0, now) == "staged"@ ==> {
                &&& destination_refusal(row->0, parent, child) is None
                &&& encryption_of(row->0.storage_encryption_mode@) is Some
                &&& row_object(row->0) is Ok
            }
        },
{
    reveal_strlit("committed");
    reveal_strlit("staged");
    assert("committed"@.len() == 9);
    assert("staged"@.len() == 6);
}

/// Two objects are the same exactly where key, mark, provider version, size and
/// checksum agree.
pub proof fn law_objects_are_told_apart(left: StoredObject, right: StoredObject)
    ensures
        same_object(left, left),
        same_object(left, right) <==> same_object(right, left),
        same_object(left, right) ==> left.key@ == right.key@ && left.size == right.size
            && optional_chars(left.etag) == optional_chars(right.etag) && optional_chars(
            left.provider_version_id,
        ) == optional_chars(right.provider_version_id) && (left.checksum is Some
            <==> right.checksum is Some),
        same_object(left, right) && left.checksum is Some ==> left.checksum->0.value@
            == right.checksum->0.value@ && left.checksum->0.kind == right.checksum->0.kind,
{
}

/// A staged upload is published exactly where the object is the staged one, its
/// destination and its place are unchanged, and what is stored of it can be read.
pub proof fn law_staged_uploads_are_published_where_they_may_be(
    row: UploadRow,
    stored: StoredObject,
    parent: Result<AuthorizableEntry, AppError>,
    facts: CommitFacts,
)
    ensures
        staged_refusal(row, stored, parent, facts) is None <==> {
            &&& row_object(row) is Ok && same_object(row_object(row)->Ok_0, stored)
            &&& destination_refusal(row, parent, facts.child) is None
            &&& encryption_of(row.storage_encryption_mode@) is Some
            &&& provider_is_unchanged(row, facts)
            &&& row.proposed_entry_id.accepted && row.expected_sha256@.len() == 32
        },
        provider_is_unchanged(row, facts) <==> {
            &&& at_row_place(facts.platform, row) || facts.configuration_id is Some
            &&& at_row_place(facts.platform, row) ==> row.storage_config_id is None
            &&& !at_row_place(facts.platform, row) ==> row.storage_config_id
                == facts.configuration_id
            &&& row.storage_config_id is Some ==> row.storage_backend@ == "organization"@
            &&& row.storage_config_id is None ==> row.storage_backend@ == "platform"@
        },
{
}

/// A published upload is the object that was staged, under the name that was
/// reserved, as the file that the reservation was for.
pub proof fn law_staged_objects_are_published(
    plan: DelegatedPublication,
    row: UploadRow,
    stored: StoredObject,
    parent: AuthorizableEntry,
    facts: CommitFacts,
    context: ExecutionContext,
    content: StoredContent,
)
    ensures
        is_staged_content(content, row, stored) ==> {
            &&& content.key == row.object_key.text
            &&& content.stored == stored
            &&& stored.checksum == Some(content.checksum)
            &&& content.size == row.size_bytes
            &&& content.content_type == row.content_type
            &&& content.target.bucket == row.bucket_name
            &&& content.target.region == row.storage_region
            &&& content.target.prefix == row.storage_prefix
            &&& content.storage.configuration_id == row.storage_config_id
        },
        commit_request(row, facts).entry_id == row.proposed_entry_id.value,
        commit_request(row, facts).name == row.name,
        commit_request(row, facts).version_id == facts.version_id,
        commit_request(row, facts).next_number == facts.next_number,
        commit_request(row, facts).self_destruct_minutes is None,
        row.destination_entry_id matches Some(id) ==> expected_entry(row) == id,
        row.destination_entry_id is None ==> expected_entry(row) == row.proposed_entry_id.value,
        commit_planned(plan, row, stored, parent, facts, context) ==> {
            &&& plan.sha256_hex@ == hex_of(row.expected_sha256@)
            &&& plan.status.state == DelegatedUploadState::Committed
            &&& plan.status.published_entry_id == Some(expected_entry(row))
            &&& plan.status.upload_id == row.upload_id
            &&& plan.status.operation_id == row.operation_id
            &&& plan.publication is Create <==> facts.child is None
            &&& plan.publication matches Publication::Create { plan: created } ==> {
                &&& created.file.entry_id == row.proposed_entry_id.value
                &&& created.file.parent_id == parent.entry.id
                &&& created.file.name == row.name
                &&& created.file.owner == context.authorization.actor
                &&& optional_chars(created.file.origin_app_id)
                    == context.authorization.application()
                &&& created.file.content_type == row.content_type
                &&& created.version.object_key == row.object_key.text
                &&& created.version.object_version_id == stored.provider_version_id
                &&& created.version.size_bytes == row.size_bytes
            }
            &&& plan.publication matches Publication::Version { plan: next } ==> {
                &&& next.version.entry_id == facts.child->0.entry_id.value
                &&& next.version.version_id == facts.version_id
                &&& next.version.version_number == facts.next_number
                &&& next.version.object_key == row.object_key.text
                &&& next.version.object_version_id == stored.provider_version_id
                &&& next.version.size_bytes == row.size_bytes
                &&& next.version.created_by == context.authorization.actor
            }
        },
{
}

} // verus!
