//! Reading a file's content, and making a historical version current again.

use vstd::prelude::*;

use crate::error::{internal_integrity, conflict, AppError};
use crate::ids::Candidate;
use crate::model::{ActorRef, AuthorizableEntry, Capability, EntryKind, IdempotencyClaim};
use crate::postgres::content::objects::{
    checksum_of, is_expected_object, object_checksum, validate_stored, verified_stored_checksum,
    version_key, version_key_of, ObjectChecksum, StoredObject,
};
use crate::postgres::content::publishing::{version_insert, StoredContent, VersionInsert};
use crate::postgres::content::storage::{
    encryption_of, identify_storage_target, is_organization_place, is_platform_place,
    resolve_write_target, target_for_place, target_of_place, StorageConfigRow, StorageTarget,
    StoredPlace,
};
use crate::postgres::content::upload::{is_write_target, provider_of};
use crate::postgres::content::{
    bad_value, ensure_idempotency_in_progress, extend_version_restore_lease, in_progress,
    object_key, require_entry_capability, to_u64, OperationState,
};
use crate::postgres::metadata::common::{entry_change, ChangeRecord, Detail, DetailValue};
use crate::postgres::metadata::entries::deref_entry;
use crate::text::{borrowed_chars, clone_optional_text};

verus! {

/// Content of a version as stored.
#[derive(Clone, Debug)]
pub struct VersionContentRow {
    /// Place.
    pub place: StoredPlace,
    /// Object key.
    pub object_key: Candidate,
    /// Version that the store gave the object.
    pub object_version_id: Option<String>,
    /// Digest of the checksum.
    pub checksum_algorithm: String,
    /// What the checksum is made over.
    pub checksum_type: String,
    /// Encoded checksum.
    pub checksum_value: Candidate,
    /// Size in bytes.
    pub size_bytes: i64,
    /// Media type.
    pub content_type: String,
}

/// Whether the place of a version is one that can be read.
pub open spec fn version_place_is_known(place: StoredPlace, role_arn: Option<Seq<char>>) -> bool {
    &&& is_platform_place(place) || is_organization_place(place, role_arn)
    &&& encryption_of(place.encryption_mode@) is Some
}

/// The place of a version. It is remembered with the version, so content stays
/// readable when the organization's storage changes.
pub fn target_for_version(row: &VersionContentRow, role_arn: Option<&str>, external_id: &str) -> (target:
    Result<StorageTarget, AppError>)
    ensures
        if !version_place_is_known(row.place, borrowed_chars(role_arn)) {
            target == Err::<StorageTarget, AppError>(bad_value())
        } else {
            target is Ok && target_of_place(
                target->Ok_0,
                row.place,
                borrowed_chars(role_arn),
                external_id@,
            )
        },
{
    target_for_place(&row.place, role_arn, external_id)
}

/// The first reason why a file may not be used for content: it is not there,
/// the caller may not, or it is a folder.
pub open spec fn file_refusal(
    entry: Option<AuthorizableEntry>,
    capability: Capability,
) -> Option<AppError> {
    match entry {
        None => Some(AppError::NotFound),
        Some(file) => if !file.access.permits(capability) {
            Some(AppError::Forbidden)
        } else if file.entry.kind != EntryKind::File {
            Some(AppError::NotFound)
        } else {
            None
        },
    }
}

/// Refuses what is no file that the caller may use.
pub fn require_file<'a>(entry: Option<&'a AuthorizableEntry>, capability: Capability) -> (file:
    Result<&'a AuthorizableEntry, AppError>)
    ensures
        match file_refusal(deref_entry(entry), capability) {
            Some(error) => file == Err::<&AuthorizableEntry, AppError>(error),
            None => entry is Some && file == Ok::<&AuthorizableEntry, AppError>(entry->0),
        },
{
    let file = match entry {
        Some(file) => file,
        None => {
            return Err(AppError::NotFound);
        },
    };
    match require_entry_capability(file, capability) {
        Ok(()) => {},
        Err(error) => {
            return Err(error);
        },
    }
    if file.entry.kind != EntryKind::File {
        return Err(AppError::NotFound);
    }
    Ok(file)
}

/// The version that a download reads: the file's current one.
pub fn version_to_read(entry: Option<&AuthorizableEntry>) -> (version: Result<u128, AppError>)
    ensures
        version == match file_refusal(deref_entry(entry), Capability::Read) {
            Some(error) => Err::<u128, AppError>(error),
            None => match entry->0.entry.current_version_id {
                Some(id) => Ok::<u128, AppError>(id),
                None => Err::<u128, AppError>(bad_value()),
            },
        },
{
    match require_file(entry, Capability::Read) {
        Ok(file) => match file.entry.current_version_id {
            Some(id) => Ok(id),
            None => Err(internal_integrity()),
        },
        Err(error) => Err(error),
    }
}

/// Where a download reads from.
#[derive(Clone, Debug)]
pub struct DownloadTarget {
    /// Entry identifier.
    pub entry_id: u128,
    /// Name of the file.
    pub filename: String,
    /// Media type.
    pub content_type: String,
    /// Size in bytes.
    pub size: u64,
    /// Place.
    pub target: StorageTarget,
    /// Key.
    pub key: String,
    /// Version that the store gave the object.
    pub provider_version_id: Option<String>,
}

/// The first reason why a file cannot be downloaded.
pub open spec fn download_refusal(
    entry: Option<AuthorizableEntry>,
    version: Option<VersionContentRow>,
    role_arn: Option<Seq<char>>,
) -> Option<AppError> {
    if file_refusal(entry, Capability::Read) is Some {
        file_refusal(entry, Capability::Read)
    } else if entry->0.entry.current_version_id is None {
        Some(bad_value())
    } else {
        match version {
            None => Some(AppError::NotFound),
            Some(row) => if !version_place_is_known(row.place, role_arn) || row.size_bytes < 0
                || !row.object_key.accepted {
                Some(bad_value())
            } else {
                None
            },
        }
    }
}

/// Whether a download reads a version of a file.
pub open spec fn reads_version(
    target: DownloadTarget,
    entry: AuthorizableEntry,
    row: VersionContentRow,
    role_arn: Option<Seq<char>>,
    external_id: Seq<char>,
) -> bool {
    &&& target.entry_id == entry.entry.id
    &&& target.filename == entry.entry.name
    &&& target.content_type == row.content_type
    &&& target.size == row.size_bytes
    &&& target_of_place(target.target, row.place, role_arn, external_id)
    &&& target.key == row.object_key.text
    &&& target.provider_version_id == row.object_version_id
}

/// Authorizes a download. `version` is the file's current version as stored.
pub fn authorize_download(
    entry: Option<&AuthorizableEntry>,
    version: &Option<VersionContentRow>,
    role_arn: Option<&str>,
    external_id: &str,
) -> (target: Result<DownloadTarget, AppError>)
    ensures
        match download_refusal(deref_entry(entry), *version, borrowed_chars(role_arn)) {
            Some(error) => target == Err::<DownloadTarget, AppError>(error),
            None => target is Ok && reads_version(
                target->Ok_0,
                *entry->0,
                version->0,
                borrowed_chars(role_arn),
                external_id@,
            ),
        },
{
    let file = match require_file(entry, Capability::Read) {
        Ok(file) => file,
        Err(error) => {
            return Err(error);
        },
    };
    if file.entry.current_version_id.is_none() {
        return Err(internal_integrity());
    }
    let row = match version {
        Some(row) => row,
        None => {
            return Err(AppError::NotFound);
        },
    };
    let target = match target_for_version(row, role_arn, external_id) {
        Ok(target) => target,
        Err(error) => {
            return Err(error);
        },
    };
    let size: u64 = match to_u64(row.size_bytes) {
        Ok(size) => size,
        Err(error) => {
            return Err(error);
        },
    };
    let key = match object_key(&row.object_key) {
        Ok(key) => key,
        Err(error) => {
            return Err(error);
        },
    };
    Ok(
        DownloadTarget {
            entry_id: file.entry.id,
            filename: file.entry.name.clone(),
            content_type: row.content_type.clone(),
            size,
            target,
            key,
            provider_version_id: clone_optional_text(&row.object_version_id),
        },
    )
}

/// Content is only ever handed to those who may read the file.
pub proof fn law_downloads_need_read_access(
    entry: AuthorizableEntry,
    version: Option<VersionContentRow>,
    role_arn: Option<Seq<char>>,
)
    requires
        !entry.access.permits(Capability::Read),
    ensures
        download_refusal(Some(entry), version, role_arn) == Some(AppError::Forbidden),
{
}

/// The record that content was read.
#[derive(Clone, Debug)]
pub struct ContentAccess {
    /// Entry identifier.
    pub entry_id: u128,
    /// Stable name of the access.
    pub action: &'static str,
}

/// Records that an entry's content was read, under the name of the access.
pub fn record_content_access(entry: Option<&AuthorizableEntry>, action: &'static str) -> (record:
    Result<ContentAccess, AppError>)
    ensures
        record == match deref_entry(entry) {
            None => Err::<ContentAccess, AppError>(AppError::NotFound),
            Some(found) => if found.access.permits(Capability::Read) {
                Ok::<ContentAccess, AppError>(ContentAccess { entry_id: found.entry.id, action })
            } else {
                Err::<ContentAccess, AppError>(AppError::Forbidden)
            },
        },
{
    let found = match entry {
        Some(found) => found,
        None => {
            return Err(AppError::NotFound);
        },
    };
    match require_entry_capability(found, Capability::Read) {
        Ok(()) => Ok(ContentAccess { entry_id: found.entry.id, action }),
        Err(error) => Err(error),
    }
}

/// A restore that is ready to be copied at the store.
#[derive(Clone, Debug)]
pub struct RestorePreparation {
    /// Entry identifier.
    pub entry_id: u128,
    /// Identifier of the new version.
    pub new_version_id: u128,
    /// Place of the historical version.
    pub source_target: StorageTarget,
    /// Key of the historical version.
    pub source_key: String,
    /// Version that the store gave the historical object.
    pub source_provider_version_id: Option<String>,
    /// Place of the new version.
    pub destination_target: StorageTarget,
    /// Key of the new version.
    pub destination_key: String,
    /// Media type.
    pub content_type: String,
    /// Size in bytes.
    pub size: u64,
    /// Checksum of the historical version.
    pub checksum: ObjectChecksum,
}

/// What preparing a restore leads to.
#[derive(Clone, Debug)]
pub enum PreparedRestore {
    /// It was made before.
    Replay {
        /// The file.
        entry_id: u128,
    },
    /// It is to be made.
    Acquired {
        /// How.
        preparation: RestorePreparation,
    },
}

/// The first reason why a version cannot be restored, before its key is
/// claimed.
pub open spec fn restore_refusal(
    entry: Option<AuthorizableEntry>,
    source: Option<VersionContentRow>,
) -> Option<AppError> {
    if file_refusal(entry, Capability::WriteContent) is Some {
        file_refusal(entry, Capability::WriteContent)
    } else if source is None {
        Some(AppError::NotFound)
    } else {
        None
    }
}

/// Refuses a restore before its key is claimed.
pub fn require_restorable<'a>(
    entry: Option<&AuthorizableEntry>,
    source: &'a Option<VersionContentRow>,
) -> (row: Result<&'a VersionContentRow, AppError>)
    ensures
        match restore_refusal(deref_entry(entry), *source) {
            Some(error) => row == Err::<&VersionContentRow, AppError>(error),
            None => source is Some && row == Ok::<&VersionContentRow, AppError>(&source->0),
        },
{
    match require_file(entry, Capability::WriteContent) {
        Ok(_) => {},
        Err(error) => {
            return Err(error);
        },
    }
    match source {
        Some(row) => Ok(row),
        None => Err(AppError::NotFound),
    }
}

/// The first reason why a claimed restore cannot be made.
pub open spec fn copy_refusal(
    accepted: bool,
    leased_rows: u64,
    row: VersionContentRow,
    role_arn: Option<Seq<char>>,
    active: Option<StorageConfigRow>,
) -> Option<AppError> {
    if leased_rows != 1 {
        Some(AppError::Conflict { code: "idempotency_state" })
    } else if !accepted || !version_place_is_known(row.place, role_arn) || (active is Some
        && encryption_of(active->0.encryption_mode@) is None) || checksum_of(
        row.checksum_algorithm@,
        row.checksum_type@,
        row.checksum_value,
    ) is Err || !row.object_key.accepted || row.size_bytes < 0 {
        Some(bad_value())
    } else {
        None
    }
}

/// Whether a restore copies a historical version into the place for new
/// content.
pub open spec fn copies_version(
    preparation: RestorePreparation,
    entry: AuthorizableEntry,
    new_version_id: u128,
    row: VersionContentRow,
    role_arn: Option<Seq<char>>,
    external_id: Seq<char>,
    platform: StorageTarget,
    active: Option<StorageConfigRow>,
) -> bool {
    &&& preparation.entry_id == entry.entry.id
    &&& preparation.new_version_id == new_version_id
    &&& target_of_place(preparation.source_target, row.place, role_arn, external_id)
    &&& preparation.source_key == row.object_key.text
    &&& preparation.source_provider_version_id == row.object_version_id
    &&& is_write_target(preparation.destination_target, platform, active, external_id)
    &&& preparation.destination_key@ == version_key_of(entry.entry.id, new_version_id)
    &&& preparation.content_type == row.content_type
    &&& preparation.size == row.size_bytes
    &&& checksum_of(row.checksum_algorithm@, row.checksum_type@, row.checksum_value) == Ok::<
        ObjectChecksum,
        AppError,
    >(preparation.checksum)
}

/// Prepares a restore: a repeated request is answered with its file, another
/// one copies the historical version under a key of its own. `leased_rows`
/// tells whether the claim's lease was extended.
pub fn prepare_version_restore(
    entry: Option<&AuthorizableEntry>,
    source: &Option<VersionContentRow>,
    claim: IdempotencyClaim,
    leased_rows: u64,
    accepted: bool,
    role_arn: Option<&str>,
    external_id: &str,
    platform: StorageTarget,
    active: &Option<StorageConfigRow>,
) -> (prepared: Result<PreparedRestore, AppError>)
    ensures
        match restore_refusal(deref_entry(entry), *source) {
            Some(error) => prepared == Err::<PreparedRestore, AppError>(error),
            None => match claim {
                IdempotencyClaim::Replay(_) => prepared == Ok::<PreparedRestore, AppError>(
                    PreparedRestore::Replay { entry_id: entry->0.entry.id },
                ),
                IdempotencyClaim::Acquired(None) => prepared == Err::<PreparedRestore, AppError>(
                    AppError::Conflict { code: "idempotency_state" },
                ),
                IdempotencyClaim::Acquired(Some(id)) => match copy_refusal(
                    accepted,
                    leased_rows,
                    source->0,
                    borrowed_chars(role_arn),
                    *active,
                ) {
                    Some(error) => prepared == Err::<PreparedRestore, AppError>(error),
                    None => prepared matches Ok(PreparedRestore::Acquired { preparation })
                        && copies_version(
                        preparation,
                        *entry->0,
                        id,
                        source->0,
                        borrowed_chars(role_arn),
                        external_id@,
                        platform,
                        *active,
                    ),
                },
            },
        },
{
    let file = match require_file(entry, Capability::WriteContent) {
        Ok(file) => file,
        Err(error) => {
            return Err(error);
        },
    };
    let row = match require_restorable(entry, source) {
        Ok(row) => row,
        Err(error) => {
            return Err(error);
        },
    };
    let new_version_id: u128 = match claim {
        IdempotencyClaim::Replay(_) => {
            return Ok(PreparedRestore::Replay { entry_id: file.entry.id });
        },
        IdempotencyClaim::Acquired(None) => {
            return Err(conflict("idempotency_state"));
        },
        IdempotencyClaim::Acquired(Some(id)) => id,
    };
    match extend_version_restore_lease(leased_rows) {
        Ok(()) => {},
        Err(error) => {
            return Err(error);
        },
    }
    if !accepted {
        return Err(internal_integrity());
    }
    let source_target = match target_for_version(row, role_arn, external_id) {
        Ok(target) => target,
        Err(error) => {
            return Err(error);
        },
    };
    let destination_target = match resolve_write_target(platform, active, external_id) {
        Ok((target, _)) => target,
        Err(error) => {
            return Err(error);
        },
    };
    let checksum = match object_checksum(
        row.checksum_algorithm.as_str(),
        row.checksum_type.as_str(),
        &row.checksum_value,
    ) {
        Ok(checksum) => checksum,
        Err(error) => {
            return Err(error);
        },
    };
    let source_key = match object_key(&row.object_key) {
        Ok(key) => key,
        Err(error) => {
            return Err(error);
        },
    };
    let size: u64 = match to_u64(row.size_bytes) {
        Ok(size) => size,
        Err(error) => {
            return Err(error);
        },
    };
    Ok(
        PreparedRestore::Acquired {
            preparation: RestorePreparation {
                entry_id: file.entry.id,
                new_version_id,
                source_target,
                source_key,
                source_provider_version_id: clone_optional_text(&row.object_version_id),
                destination_target,
                destination_key: version_key(file.entry.id, new_version_id),
                content_type: row.content_type.clone(),
                size,
                checksum,
            },
        },
    )
}

/// A restored version. It becomes the file's current one.
#[derive(Clone, Debug)]
pub struct VersionRestore {
    /// The version.
    pub version: VersionInsert,
    /// The change.
    pub change: ChangeRecord,
}

/// What is read before a restore is published.
#[derive(Clone, Debug)]
pub struct RestoreFacts {
    /// Historical version.
    pub version_id: u128,
    /// Whether the historical version is still there.
    pub source_exists: bool,
    /// Digest of the request.
    pub request_hash: [u8; 32],
    /// Record of the running operation.
    pub state: Option<OperationState>,
    /// The platform's place for the organization.
    pub platform: StorageTarget,
    /// Configuration that describes the place that was written to.
    pub configuration_id: Option<u128>,
    /// Number of the new version.
    pub next_number: i64,
}

/// The first reason why a copied version is not published.
pub open spec fn publish_restore_refusal(
    preparation: RestorePreparation,
    stored: StoredObject,
    entry: Option<AuthorizableEntry>,
    facts: RestoreFacts,
) -> Option<AppError> {
    if !is_expected_object(stored, preparation.destination_key@, preparation.size) {
        Some(AppError::Conflict { code: "stored_object_mismatch" })
    } else if entry is None {
        Some(AppError::NotFound)
    } else if !entry->0.access.permits(Capability::WriteContent) {
        Some(AppError::Forbidden)
    } else if !facts.source_exists {
        Some(AppError::NotFound)
    } else if !in_progress(facts.state, facts.request_hash@) {
        Some(AppError::Conflict { code: "idempotency_state" })
    } else if !preparation.destination_target.same_place(facts.platform)
        && facts.configuration_id is None {
        Some(AppError::Conflict { code: "storage_target_changed" })
    } else if stored.checksum is None {
        Some(AppError::Internal { category: "object_checksum_unavailable" })
    } else if preparation.size > i64::MAX {
        Some(bad_value())
    } else {
        None
    }
}

/// The content that a restore publishes.
pub open spec fn restored_content(
    preparation: RestorePreparation,
    stored: StoredObject,
    facts: RestoreFacts,
) -> StoredContent {
    StoredContent {
        content_type: preparation.content_type,
        size: preparation.size,
        checksum: stored.checksum->0,
        target: preparation.destination_target,
        key: preparation.destination_key,
        stored,
        storage: provider_of(
            preparation.destination_target,
            facts.platform,
            facts.configuration_id,
        ),
    }
}

/// Whether a restore is published as prepared.
pub open spec fn restore_planned(
    plan: VersionRestore,
    preparation: RestorePreparation,
    stored: StoredObject,
    entry: AuthorizableEntry,
    facts: RestoreFacts,
    actor: ActorRef,
) -> bool {
    &&& plan.version.holds(
        entry.entry.id,
        preparation.new_version_id,
        facts.next_number,
        restored_content(preparation, stored, facts),
        actor,
    )
    &&& plan.version.source@ == "restore"@
    &&& plan.version.restored_from_version_id == Some(facts.version_id)
    &&& plan.change.is_entry_change(
        entry.entry.id,
        "entry.version_restored.v1",
        seq![
            Detail { key: "version_id", value: DetailValue::Id(preparation.new_version_id) },
            Detail { key: "source_version_id", value: DetailValue::Id(facts.version_id) },
            Detail { key: "version_number", value: DetailValue::Integer(facts.next_number) },
        ],
    )
}

/// Publishes a copied version as the file's next one. The historical version
/// stays where it is.
pub fn commit_version_restore(
    preparation: &RestorePreparation,
    stored: StoredObject,
    entry: Option<&AuthorizableEntry>,
    facts: &RestoreFacts,
    actor: &ActorRef,
) -> (plan: Result<VersionRestore, AppError>)
    ensures
        match publish_restore_refusal(*preparation, stored, deref_entry(entry), *facts) {
            Some(error) => plan == Err::<VersionRestore, AppError>(error),
            None => plan is Ok && restore_planned(
                plan->Ok_0,
                *preparation,
                stored,
                *entry->0,
                *facts,
                *actor,
            ),
        },
{
    match validate_stored(&stored, preparation.destination_key.as_str(), preparation.size) {
        Ok(()) => {},
        Err(error) => {
            return Err(error);
        },
    }
    let file = match entry {
        Some(file) => file,
        None => {
            return Err(AppError::NotFound);
        },
    };
    match require_entry_capability(file, Capability::WriteContent) {
        Ok(()) => {},
        Err(error) => {
            return Err(error);
        },
    }
    if !facts.source_exists {
        return Err(AppError::NotFound);
    }
    match ensure_idempotency_in_progress(&facts.state, &facts.request_hash) {
        Ok(()) => {},
        Err(error) => {
            return Err(error);
        },
    }
    let storage = match identify_storage_target(
        &preparation.destination_target,
        &facts.platform,
        facts.configuration_id,
    ) {
        Ok(storage) => storage,
        Err(error) => {
            return Err(error);
        },
    };
    let checksum = match verified_stored_checksum(&stored) {
        Ok(checksum) => checksum,
        Err(error) => {
            return Err(error);
        },
    };
    let content = StoredContent {
        content_type: preparation.content_type.clone(),
        size: preparation.size,
        checksum,
        target: preparation.destination_target.duplicate(),
        key: preparation.destination_key.clone(),
        stored,
        storage,
    };
    assert(content == restored_content(*preparation, stored, *facts));
    let version = match version_insert(
        file.entry.id,
        preparation.new_version_id,
        facts.next_number,
        Some(facts.version_id),
        &content,
        actor,
    ) {
        Ok(version) => version,
        Err(error) => {
            return Err(error);
        },
    };
    let payload: Vec<Detail> = vec![
        Detail { key: "version_id", value: DetailValue::Id(preparation.new_version_id) },
        Detail { key: "source_version_id", value: DetailValue::Id(facts.version_id) },
        Detail { key: "version_number", value: DetailValue::Integer(facts.next_number) },
    ];
    assert(payload@ =~= seq![
        Detail { key: "version_id", value: DetailValue::Id(preparation.new_version_id) },
        Detail { key: "source_version_id", value: DetailValue::Id(facts.version_id) },
        Detail { key: "version_number", value: DetailValue::Integer(facts.next_number) },
    ]);
    Ok(
        VersionRestore {
            version,
            change: entry_change(file.entry.id, "entry.version_restored.v1", payload),
        },
    )
}

} // verus!
