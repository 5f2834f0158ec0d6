//! Reserving room for a delegated upload.

use vstd::prelude::*;

use crate::clock::{earlier, representable, NANOS_PER_DAY};
use crate::encoding::constant_time_eq;
use crate::error::{conflict, validation, AppError};
use crate::ids::{hyphenated, hyphenated_chars};
use crate::model::{AuthorizableEntry, TestingEnvironmentContext};
use crate::postgres::content::delegated::{
    authorize_committed, authorize_destination, child_id, committed_refusal, destination_refusal,
    expire, expiry_of, lemma_status_words, named_child_id, published_id, status_after, status_of,
    DelegatedIdentity, DelegatedUploadState, DelegatedUploadStatus, RowSettlement, UploadRow,
};
use crate::postgres::content::storage::{
    encryption_name, encryption_of, encryption_word, resolve_write_target, target_of_configuration,
    StorageConfigRow, StorageTarget,
};
use crate::postgres::content::{bad_value, to_i64, to_u64, NamedChild};
use crate::postgres::metadata::entries::deref_entry;
use crate::text::same_text;

verus! {

/// Most uploads that one organization may have on their way.
pub const MAX_PENDING_RESERVATIONS: i64 = 32;

/// Advisory lock under which an organization's room is counted.
pub const STAGING_LOCK_NAMESPACE: i32 = 1_618_031;

/// A delegated upload to reserve room for.
#[derive(Clone, Debug)]
pub struct ReserveDelegatedUpload {
    /// Identifier that the application gave the operation.
    pub operation_id: u128,
    /// Digest of the request.
    pub request_hash: [u8; 32],
    /// Folder that the file is put into.
    pub parent_id: u128,
    /// Path of the folder.
    pub parent_path: String,
    /// Name of the file.
    pub name: String,
    /// Media type.
    pub content_type: String,
    /// Size in bytes.
    pub size: u64,
    /// Digest of the bytes.
    pub sha256: [u8; 32],
}

/// Refuses a reservation without an operation or beyond what may be uploaded at
/// all.
pub fn check_reservation(command: &ReserveDelegatedUpload, max_upload_bytes: u64) -> (result: Result<
    (),
    AppError,
>)
    ensures
        result == if command.operation_id == 0 || command.size > max_upload_bytes {
            Err::<(), AppError>(AppError::Validation { code: "invalid_delegated_upload" })
        } else {
            Ok::<(), AppError>(())
        },
{
    if command.operation_id == 0 || command.size > max_upload_bytes {
        return Err(validation("invalid_delegated_upload"));
    }
    Ok(())
}

/// Whether a reservation repeats the one that a row was made for.
pub open spec fn repeats(row: UploadRow, command: ReserveDelegatedUpload) -> bool {
    &&& row.request_hash@ == command.request_hash@
    &&& row.parent_path@ == command.parent_path@
    &&& row.parent_id.value == command.parent_id
}

/// The first reason why a repeated reservation is not answered. One that is
/// still reserved asks for authority over its destination, and a published one
/// for authority over the file.
pub open spec fn repeat_refusal(
    row: UploadRow,
    command: ReserveDelegatedUpload,
    now: i128,
    parent: Result<AuthorizableEntry, AppError>,
    child: Option<NamedChild>,
    entry: Option<AuthorizableEntry>,
) -> Option<AppError> {
    let status = status_after(row, now);
    if !repeats(row, command) {
        Some(AppError::Conflict { code: "idempotency_key_reused" })
    } else if expiry_of(row, now) is Err {
        Some(expiry_of(row, now)->Err_0)
    } else if status == "reserved"@ && destination_refusal(row, parent, child) is Some {
        destination_refusal(row, parent, child)
    } else if status == "committed"@ && committed_refusal(row, entry) is Some {
        committed_refusal(row, entry)
    } else if status_of(row, status, published_id(row.published_entry_id)) is Err {
        Some(bad_value())
    } else {
        None
    }
}

/// An answered repetition of a reservation.
#[derive(Clone, Copy, Debug)]
pub struct RepeatedReservation {
    /// What the caller learns.
    pub status: DelegatedUploadStatus,
    /// What the end of the reservation writes first.
    pub settlement: Option<RowSettlement>,
    /// Whether the new capability takes the place of the earlier one.
    pub renews_capability: bool,
}

/// Answers a repeated reservation from the one that was made. Only one that is
/// still reserved gets a new capability.
pub fn repeat_reservation(
    row: UploadRow,
    command: &ReserveDelegatedUpload,
    now: i128,
    parent: &Result<AuthorizableEntry, AppError>,
    child: &Option<NamedChild>,
    entry: Option<&AuthorizableEntry>,
) -> (repeated: Result<RepeatedReservation, AppError>)
    ensures
        match repeat_refusal(row, *command, now, *parent, *child, deref_entry(entry)) {
            Some(error) => repeated == Err::<RepeatedReservation, AppError>(error),
            None => {
                &&& repeated is Ok
                &&& status_of(row, status_after(row, now), published_id(row.published_entry_id))
                    == Ok::<DelegatedUploadStatus, AppError>(repeated->Ok_0.status)
                &&& expiry_of(row, now) == Ok::<Option<RowSettlement>, AppError>(
                    repeated->Ok_0.settlement,
                )
                &&& repeated->Ok_0.renews_capability == (status_after(row, now) == "reserved"@)
            },
        },
{
    let mut current = row;
    if !constant_time_eq(current.request_hash.as_slice(), command.request_hash.as_slice())
        || !same_text(current.parent_path.as_str(), command.parent_path.as_str())
        || current.parent_id.value != command.parent_id {
        return Err(conflict("idempotency_key_reused"));
    }
    let settlement = match expire(&mut current, now) {
        Ok(settlement) => settlement,
        Err(error) => {
            return Err(error);
        },
    };
    proof {
        lemma_status_words();
    }
    let reserved = same_text(current.status.as_str(), "reserved");
    if reserved {
        match authorize_destination(&current, parent, child) {
            Ok(()) => {},
            Err(error) => {
                return Err(error);
            },
        }
    } else if same_text(current.status.as_str(), "committed") {
        match authorize_committed(&current, entry) {
            Ok(()) => {},
            Err(error) => {
                return Err(error);
            },
        }
    }
    match current.status() {
        Ok(status) => Ok(RepeatedReservation { status, settlement, renews_capability: reserved }),
        Err(error) => Err(error),
    }
}

/// What an organization has on its way, and what the quota says.
#[derive(Clone, Debug)]
pub struct StagingRoom {
    /// Uploads on their way.
    pub count: i64,
    /// Their bytes.
    pub bytes: i64,
    /// The most bytes that may be on their way.
    pub max_upload_bytes: u64,
    /// Why the quota refuses the new upload, where it does.
    pub quota_refusal: Option<AppError>,
}

/// The sum of two sizes, as far as a size goes.
pub open spec fn bounded_sum(left: u64, right: u64) -> u64 {
    if left + right > u64::MAX {
        u64::MAX
    } else {
        (left + right) as u64
    }
}

/// The first reason why there is no room.
pub open spec fn room_refusal(room: StagingRoom, size: u64) -> Option<AppError> {
    if room.count >= MAX_PENDING_RESERVATIONS {
        Some(AppError::Conflict { code: "delegated_upload_staging_limit_exhausted" })
    } else if room.bytes < 0 {
        Some(bad_value())
    } else if bounded_sum(room.bytes as u64, size) > room.max_upload_bytes {
        Some(AppError::Conflict { code: "delegated_upload_staging_limit_exhausted" })
    } else {
        room.quota_refusal
    }
}

/// Refuses a reservation that there is no room for.
pub fn check_room(room: &StagingRoom, size: u64) -> (result: Result<(), AppError>)
    ensures
        match room_refusal(*room, size) {
            Some(error) => result == Err::<(), AppError>(error),
            None => result == Ok::<(), AppError>(()),
        },
{
    if room.count >= MAX_PENDING_RESERVATIONS {
        return Err(conflict("delegated_upload_staging_limit_exhausted"));
    }
    let bytes: u64 = match to_u64(room.bytes) {
        Ok(bytes) => bytes,
        Err(error) => {
            return Err(error);
        },
    };
    let total: u64 = if size > u64::MAX - bytes {
        u64::MAX
    } else {
        bytes + size
    };
    if total > room.max_upload_bytes {
        return Err(conflict("delegated_upload_staging_limit_exhausted"));
    }
    match room.quota_refusal {
        None => Ok(()),
        Some(error) => Err(error),
    }
}

/// What an organization has on its way stays bounded, in number and in bytes,
/// however often room is reserved: an admitted upload keeps both within their
/// limits.
pub proof fn law_staging_stays_bounded(room: StagingRoom, size: u64)
    requires
        room_refusal(room, size) is None,
        room.bytes + size <= u64::MAX,
    ensures
        room.count + 1 <= MAX_PENDING_RESERVATIONS,
        room.bytes + size <= room.max_upload_bytes,
{
}

/// A reservation row to insert.
#[derive(Clone, Debug)]
pub struct ReservationInsert {
    /// Upload identifier.
    pub upload_id: u128,
    /// Identifier that the application gave the operation.
    pub operation_id: u128,
    /// Testing environment.
    pub testing_environment_id: Option<u128>,
    /// Who it belongs to.
    pub identity: DelegatedIdentity,
    /// Digest of the request.
    pub request_hash: [u8; 32],
    /// Digest of the capability that admits bytes.
    pub capability_hash: [u8; 32],
    /// Folder that the file is put into.
    pub parent_id: u128,
    /// Path of the folder.
    pub parent_path: String,
    /// Name of the file.
    pub name: String,
    /// Media type.
    pub content_type: String,
    /// Size in bytes.
    pub size_bytes: i64,
    /// Digest of the bytes.
    pub expected_sha256: [u8; 32],
    /// File that carries the name.
    pub destination_entry_id: Option<u128>,
    /// Identifier that is reserved for a new file.
    pub proposed_entry_id: u128,
    /// End of the reservation.
    pub expires_at: i128,
    /// Provider of the place.
    pub storage_backend: &'static str,
    /// Configuration of the organization.
    pub storage_config_id: Option<u128>,
    /// Place.
    pub target: StorageTarget,
    /// How the object is encrypted.
    pub storage_encryption_mode: &'static str,
    /// Object key.
    pub object_key: String,
}

/// A reservation.
#[derive(Clone, Debug)]
pub struct Reservation {
    /// The row.
    pub upload: ReservationInsert,
    /// What the caller learns.
    pub status: DelegatedUploadStatus,
}

/// What a reservation is made with.
#[derive(Clone, Debug)]
pub struct ReservationFacts {
    /// Who it belongs to.
    pub identity: DelegatedIdentity,
    /// Testing environment.
    pub environment: Option<TestingEnvironmentContext>,
    /// Digest of the capability that admits bytes.
    pub capability_hash: [u8; 32],
    /// Identifier for the upload.
    pub upload_id: u128,
    /// Identifier for a new file.
    pub proposed_entry_id: u128,
    /// The platform's place for the organization.
    pub platform: StorageTarget,
    /// The organization's active configuration.
    pub active: Option<StorageConfigRow>,
    /// What carries the name.
    pub child: Option<NamedChild>,
}

/// The key of a delegated upload's object.
pub open spec fn delegated_key_of(upload_id: u128) -> Seq<char> {
    "delegated/"@ + hyphenated_chars(upload_id) + "/object"@
}

/// The key of a delegated upload's object.
pub fn delegated_key(upload_id: u128) -> (key: String)
    ensures
        key@ == delegated_key_of(upload_id),
{
    let mut key = "delegated/".to_owned();
    key.append(hyphenated(upload_id).as_str());
    key.append("/object");
    key
}

/// The end of a reservation: as asked for, and within a day.
pub open spec fn reservation_end(expires_at: i128, now: i128) -> int {
    if expires_at <= now + NANOS_PER_DAY {
        expires_at as int
    } else {
        now + NANOS_PER_DAY
    }
}

/// The first reason why no room is reserved.
pub open spec fn reservation_refusal(
    command: ReserveDelegatedUpload,
    parent: Result<AuthorizableEntry, AppError>,
    room: StagingRoom,
    facts: ReservationFacts,
    expires_at: i128,
    now: i128,
) -> Option<AppError> {
    if parent is Err {
        Some(parent->Err_0)
    } else if facts.child is Some && !facts.child->0.entry_id.accepted {
        Some(bad_value())
    } else if room_refusal(room, command.size) is Some {
        room_refusal(room, command.size)
    } else if reservation_end(expires_at, now) <= now {
        Some(AppError::Validation { code: "invalid_delegated_upload_expiration" })
    } else if facts.active is Some && encryption_of(facts.active->0.encryption_mode@) is None {
        Some(bad_value())
    } else if command.size > i64::MAX {
        Some(bad_value())
    } else {
        None
    }
}

/// Whether a place and its provider are the ones for new content.
pub open spec fn is_new_place(
    target: StorageTarget,
    backend: Seq<char>,
    configuration_id: Option<u128>,
    facts: ReservationFacts,
    external_id: Seq<char>,
) -> bool {
    match facts.active {
        None => target == facts.platform && configuration_id is None && backend == "platform"@,
        Some(configuration) => target_of_configuration(target, configuration, external_id)
            && configuration_id == Some(configuration.storage_config_id.value) && backend
            == "organization"@,
    }
}

/// Whether a row reserves room for an upload.
pub open spec fn reserves(
    row: ReservationInsert,
    command: ReserveDelegatedUpload,
    facts: ReservationFacts,
    external_id: Seq<char>,
    end: int,
) -> bool {
    &&& row.upload_id == facts.upload_id
    &&& row.operation_id == command.operation_id
    &&& row.testing_environment_id == match facts.environment {
        Some(context) => Some(context.id),
        None => None,
    }
    &&& row.identity == facts.identity
    &&& row.request_hash == command.request_hash
    &&& row.capability_hash == facts.capability_hash
    &&& row.parent_id == command.parent_id
    &&& row.parent_path == command.parent_path
    &&& row.name == command.name
    &&& row.content_type == command.content_type
    &&& row.size_bytes == command.size
    &&& row.expected_sha256 == command.sha256
    &&& row.destination_entry_id == child_id(facts.child)
    &&& row.proposed_entry_id == facts.proposed_entry_id
    &&& row.expires_at == end
    &&& is_new_place(
        row.target,
        row.storage_backend@,
        row.storage_config_id,
        facts,
        external_id,
    )
    &&& row.storage_encryption_mode@ == encryption_word(row.target.encryption)
    &&& row.object_key@ == delegated_key_of(facts.upload_id)
}

/// Reserves room for an upload. `parent` is the folder as the upload policy
/// admits it, or its refusal.
pub fn reserve(
    command: &ReserveDelegatedUpload,
    parent: &Result<AuthorizableEntry, AppError>,
    room: &StagingRoom,
    facts: ReservationFacts,
    external_id: &str,
    expires_at: i128,
    now: i128,
) -> (reservation: Result<Reservation, AppError>)
    requires
        representable(now + NANOS_PER_DAY),
    ensures
        match reservation_refusal(*command, *parent, *room, facts, expires_at, now) {
            Some(error) => reservation == Err::<Reservation, AppError>(error),
            None => {
                &&& reservation is Ok
                &&& reserves(
                    reservation->Ok_0.upload,
                    *command,
                    facts,
                    external_id@,
                    reservation_end(expires_at, now),
                )
                &&& reservation->Ok_0.status == (DelegatedUploadStatus {
                    operation_id: command.operation_id,
                    upload_id: facts.upload_id,
                    state: DelegatedUploadState::Reserved,
                    expires_at: reservation_end(expires_at, now) as i128,
                    published_entry_id: None,
                })
            },
        },
{
    if let Err(error) = parent {
        return Err(*error);
    }
    let destination_entry_id: Option<u128> = match named_child_id(&facts.child) {
        Ok(destination) => destination,
        Err(error) => {
            return Err(error);
        },
    };
    match check_room(room, command.size) {
        Ok(()) => {},
        Err(error) => {
            return Err(error);
        },
    }
    let end: i128 = earlier(expires_at, now + NANOS_PER_DAY);
    if end <= now {
        return Err(validation("invalid_delegated_upload_expiration"));
    }
    let ReservationFacts {
        identity,
        environment,
        capability_hash,
        upload_id,
        proposed_entry_id,
        platform,
        active,
        child: _,
    } = facts;
    let (target, storage) = match resolve_write_target(platform, &active, external_id) {
        Ok(place) => place,
        Err(error) => {
            return Err(error);
        },
    };
    let size_bytes: i64 = match to_i64(command.size) {
        Ok(size_bytes) => size_bytes,
        Err(error) => {
            return Err(error);
        },
    };
    let testing_environment_id: Option<u128> = match environment {
        Some(context) => Some(context.id),
        None => None,
    };
    let storage_encryption_mode = encryption_name(target.encryption);
    Ok(
        Reservation {
            upload: ReservationInsert {
                upload_id,
                operation_id: command.operation_id,
                testing_environment_id,
                identity,
                request_hash: command.request_hash,
                capability_hash,
                parent_id: command.parent_id,
                parent_path: command.parent_path.clone(),
                name: command.name.clone(),
                content_type: command.content_type.clone(),
                size_bytes,
                expected_sha256: command.sha256,
                destination_entry_id,
                proposed_entry_id,
                expires_at: end,
                storage_backend: storage.backend(),
                storage_config_id: storage.configuration_id,
                target,
                storage_encryption_mode,
                object_key: delegated_key(upload_id),
            },
            status: DelegatedUploadStatus {
                operation_id: command.operation_id,
                upload_id,
                state: DelegatedUploadState::Reserved,
                expires_at: end,
                published_entry_id: None,
            },
        },
    )
}

/// A reservation lasts a day at most, and never ends before it begins.
pub proof fn law_reservations_last_a_day_at_most(
    command: ReserveDelegatedUpload,
    parent: Result<AuthorizableEntry, AppError>,
    room: StagingRoom,
    facts: ReservationFacts,
    expires_at: i128,
    now: i128,
)
    requires
        reservation_refusal(command, parent, room, facts, expires_at, now) is None,
    ensures
        now < reservation_end(expires_at, now) <= now + NANOS_PER_DAY,
        reservation_end(expires_at, now) <= expires_at,
{
}

/// An operation is bound to one request: repeating it with another request,
/// folder or path is refused, wherever the upload stands.
pub proof fn law_operations_are_bound_to_one_request(
    row: UploadRow,
    command: ReserveDelegatedUpload,
    now: i128,
    parent: Result<AuthorizableEntry, AppError>,
    child: Option<NamedChild>,
    entry: Option<AuthorizableEntry>,
)
    requires
        !repeats(row, command),
    ensures
        repeat_refusal(row, command, now, parent, child, entry) == Some(
            AppError::Conflict { code: "idempotency_key_reused" },
        ),
{
}

} // verus!
