//! What is stored, where, and under which version of which file.

use vstd::prelude::*;

use crate::error::AppError;
use crate::ids::{hyphenated_chars, Candidate};
use crate::model::{
    ActorRef, AuthorizableEntry, Capability, EntryKind, ExecutionContext, IdempotencyClaim,
    OrganizationRole, RequestAuthContext,
};
use crate::postgres::content::multipart::{
    abort_planned, abort_refusal, are_completed_parts, collecting_refusal, collects_parts,
    completable_refusal, completed_content, completion_error, completion_refusal,
    completion_request, disposition_of, is_address_of, is_prepared_upload, is_started_plan,
    owns_upload, part_error, part_refusal, publish_completion_refusal, receipt_of, record_refusal,
    same_upload_place, start_planned, start_refusal, ClientCompletedPart, CompletedPart,
    CompletionFacts, InitiateMultipart, MultipartAbort, MultipartAbortDisposition,
    MultipartCompletionPreparation, MultipartInsert, MultipartPartRow, MultipartPlan,
    MultipartPreparation, MultipartStart, MultipartUploadRow, UploadAddress,
};
use crate::postgres::content::objects::{
    checksum_of, checksum_type_word, initial_key_of, is_expected_object, multipart_key_of,
    small_object_refusal, stored_checksum_of, version_key_of, ObjectChecksumAlgorithm,
    ObjectChecksumType, StoredObject,
};
use crate::postgres::content::publishing::{
    publication_refusal, published, Publication, PublicationRequest, StoredContent, VersionInsert,
};
use crate::postgres::content::storage::{
    configuration_outcome, encryption_of, encryption_word, is_configuration_change,
    is_organization_place, is_platform_place, is_requested_configuration, settlement_refusal,
    target_of_place, ConfigureStorageCommand, EncryptionMode, StorageConfigRow, StorageReference,
    StorageTarget, StoredPlace,
};
use crate::postgres::content::upload::{
    is_write_target, provider_of, upload_refusal, upload_request, uploaded_content, write_refusal,
    SmallUpload, SmallUploadPreparation, UploadFacts,
};
use crate::postgres::content::versions::{
    copies_version, copy_refusal, download_refusal, file_refusal, publish_restore_refusal,
    reads_version, restore_planned, restore_refusal, DownloadTarget, RestoreFacts,
    RestorePreparation, VersionContentRow, VersionRestore,
};
use crate::postgres::content::{
    content_claim_of, in_progress, name_refusal, parent_refusal, ContentClaim, NamedChild,
    OperationState,
};
use crate::postgres::kind_chars;
use crate::postgres::metadata::common::{ChangeRecord, Detail, DetailValue};
use crate::text::{optional_chars, trim};

verus! {

/// Content goes into a folder exactly where the folder is there and the caller
/// may do so.
pub proof fn law_content_goes_into_folders(
    parent: Option<AuthorizableEntry>,
    capability: Capability,
)
    ensures
        parent_refusal(parent, capability) is None <==> parent is Some && parent->0.entry.kind
            == EntryKind::Folder && parent->0.access.permits(capability),
        parent_refusal(parent, capability) == Some(AppError::NotFound) <==> !(parent matches Some(
            folder,
        ) && folder.entry.kind == EntryKind::Folder),
        parent_refusal(parent, capability) matches Some(error) ==> error == AppError::NotFound
            || error == AppError::Forbidden,
{
}

/// A name is free for content exactly where nothing carries it, or a file does.
pub proof fn law_content_takes_free_names_and_files(child: Option<NamedChild>)
    ensures
        name_refusal(child) is None <==> child is None || (child->0.entry_id.accepted
            && child->0.entry_type@ == "file"@),
        child matches Some(found) ==> (found.entry_id.accepted && found.entry_type@ != "file"@
            ==> name_refusal(child) == Some(AppError::Conflict { code: "entry_name_exists" })),
{
}

/// A claimed content operation runs on the identifier it acquired, or is answered
/// with the one it replays.
pub proof fn law_content_claims_name_their_resource(
    claim: IdempotencyClaim,
    accepted: bool,
    check_replay: bool,
    id: u128,
)
    ensures
        content_claim_of(claim, accepted, check_replay) == Ok::<ContentClaim, AppError>(
            ContentClaim::Run { id },
        ) <==> accepted && claim == IdempotencyClaim::Acquired(Some(id)),
        content_claim_of(claim, accepted, check_replay) == Ok::<ContentClaim, AppError>(
            ContentClaim::Replay { id },
        ) <==> (accepted || !check_replay) && claim == IdempotencyClaim::Replay(Some(id)),
{
}

/// An operation is in progress exactly while its record says so, for the request
/// that started it.
pub proof fn law_operations_finish_as_they_were_started(
    state: Option<OperationState>,
    request_hash: Seq<u8>,
)
    ensures
        in_progress(state, request_hash) <==> state is Some && state->0.status@ == "in_progress"@
            && state->0.request_hash@ == request_hash,
{
}

/// The words for encryption name it, and no other word does.
pub proof fn law_encryption_has_words(word: Seq<char>)
    ensures
        encryption_word(EncryptionMode::SseS3) == "sse_s3"@,
        encryption_word(EncryptionMode::SseKms) == "sse_kms"@,
        encryption_of(word) == Some(EncryptionMode::SseS3) <==> word == "sse_s3"@,
        encryption_of(word) == Some(EncryptionMode::SseKms) <==> word == "sse_kms"@,
{
    reveal_strlit("sse_s3");
    reveal_strlit("sse_kms");
    assert("sse_s3"@.len() == 6);
    assert("sse_kms"@.len() == 7);
}

/// Two targets are one place exactly where all they say agrees.
pub proof fn law_places_are_told_apart(left: StorageTarget, right: StorageTarget)
    ensures
        left.same_place(right) <==> right.same_place(left),
        left.same_place(left),
        left.same_place(right) ==> left.bucket@ == right.bucket@ && left.region@ == right.region@
            && left.prefix@ == right.prefix@ && left.encryption == right.encryption
            && optional_chars(left.role_arn) == optional_chars(right.role_arn) && optional_chars(
            left.external_id,
        ) == optional_chars(right.external_id) && optional_chars(left.kms_key_arn)
            == optional_chars(right.kms_key_arn),
{
}

/// Content is written to the organization's own storage where it has one, and to
/// the platform's otherwise.
pub proof fn law_content_is_written_where_the_organization_keeps_it(
    target: StorageTarget,
    platform: StorageTarget,
    active: Option<StorageConfigRow>,
    external_id: Seq<char>,
)
    requires
        is_write_target(target, platform, active, external_id),
    ensures
        active is None ==> target == platform,
        active matches Some(own) ==> {
            &&& target.bucket == own.bucket_name
            &&& target.region == own.region
            &&& target.prefix == own.bucket_prefix
            &&& target.role_arn == Some(own.role_arn)
            &&& optional_chars(target.external_id) == Some(external_id)
            &&& encryption_of(own.encryption_mode@) == Some(target.encryption)
            &&& target.kms_key_arn == own.kms_key_arn
        },
{
}

/// Content is read from where it was written, with the organization's role
/// exactly where the organization keeps it.
pub proof fn law_content_is_read_from_where_it_was_written(
    target: StorageTarget,
    place: StoredPlace,
    role_arn: Option<Seq<char>>,
    external_id: Seq<char>,
)
    requires
        target_of_place(target, place, role_arn, external_id),
    ensures
        target.bucket == place.bucket,
        target.region == place.region,
        target.prefix == place.prefix,
        encryption_of(place.encryption_mode@) == Some(target.encryption),
        target.kms_key_arn == place.kms_key_arn,
        place.backend@ == "platform"@ && place.config_id is None ==> target.role_arn is None
            && target.external_id is None,
        !(place.backend@ == "platform"@ && place.config_id is None) ==> optional_chars(
            target.role_arn,
        ) == role_arn && optional_chars(target.external_id) == Some(external_id),
{
}

/// A place belongs to the platform or to the organization, never to both.
pub proof fn law_places_have_one_keeper(place: StoredPlace, role_arn: Option<Seq<char>>)
    ensures
        is_platform_place(place) <==> place.backend@ == "platform"@ && place.config_id is None,
        is_organization_place(place, role_arn) <==> place.backend@ == "organization"@
            && place.config_id is Some && role_arn is Some,
        !(is_platform_place(place) && is_organization_place(place, role_arn)),
{
}

/// What is written to the platform's place is recorded as the platform's, and
/// everything else under the configuration that describes it.
pub proof fn law_writes_are_recorded_under_their_keeper(
    target: StorageTarget,
    platform: StorageTarget,
    configuration_id: Option<u128>,
)
    ensures
        target.same_place(platform) ==> provider_of(
            target,
            platform,
            configuration_id,
        ).configuration_id is None,
        !target.same_place(platform) ==> provider_of(
            target,
            platform,
            configuration_id,
        ).configuration_id == configuration_id,
        (StorageReference { configuration_id }).backend_chars() == if configuration_id is Some {
            "organization"@
        } else {
            "platform"@
        },
{
}

/// A configuration that was tried out is answered with how that went.
pub proof fn law_tried_configurations_tell_how_it_went(row: StorageConfigRow)
    ensures
        configuration_outcome(row) is Ok <==> row.storage_config_id.accepted && row.validated_at
            is Some && (row.status@ == "active"@ || row.status@ == "superseded"@ || row.status@
            == "disabled"@ || row.status@ == "failed"@),
        configuration_outcome(row) matches Ok(result) ==> {
            &&& result.configuration_id == row.storage_config_id.value
            &&& Some(result.tested_at) == row.validated_at
            &&& result.configured <==> row.status@ != "failed"@
            &&& row.status@ == "failed"@ ==> result.failure_reason == row.validation_failure_code
            &&& row.status@ != "failed"@ ==> result.failure_reason is None
        },
{
    reveal_strlit("active");
    reveal_strlit("superseded");
    reveal_strlit("disabled");
    reveal_strlit("failed");
    assert("active"@.len() == 6);
    assert("failed"@.len() == 6);
    assert("superseded"@.len() == 10);
    assert("disabled"@.len() == 8);
    assert("active"@[0] != "failed"@[0]);
}

/// A configuration is tried out for the request that describes it, and for no
/// other.
pub proof fn law_configurations_are_tried_as_requested(
    row: StorageConfigRow,
    command: ConfigureStorageCommand,
    actor: ActorRef,
)
    ensures
        is_requested_configuration(row, command, actor) <==> {
            &&& row.status@ == "validating"@
            &&& row.bucket_name@ == command.bucket_name@ && row.region@ == command.region@
            &&& row.role_arn@ == command.role_arn@ && row.bucket_prefix@ == command.prefix@
            &&& row.aws_account_id@ == command.aws_account_id@
            &&& row.encryption_mode@ == encryption_word(command.encryption)
            &&& optional_chars(row.kms_key_arn) == optional_chars(command.kms_key_arn)
            &&& row.created_by_type@ == kind_chars(actor.kind) && row.created_by_id@ == actor.id@
        },
{
}

/// A configuration is settled exactly by an administrator, for the request that
/// started it, once.
pub proof fn law_configurations_are_settled_once(
    role: OrganizationRole,
    keyed: Option<Seq<u8>>,
    state: Option<OperationState>,
    exists_row: bool,
    updated_rows: u64,
)
    ensures
        settlement_refusal(role, keyed, state, exists_row, updated_rows) is None <==> {
            &&& role != OrganizationRole::Member
            &&& keyed is Some ==> in_progress(state, keyed->0)
            &&& exists_row
            &&& updated_rows == 1
        },
        role == OrganizationRole::Member ==> settlement_refusal(
            role,
            keyed,
            state,
            exists_row,
            updated_rows,
        ) == Some(AppError::Forbidden),
{
}

/// A configuration's change is filed under the configuration.
pub proof fn law_configuration_changes_are_filed(
    change: ChangeRecord,
    configuration_id: u128,
    action: &'static str,
    payload: Seq<Detail>,
)
    requires
        is_configuration_change(change, configuration_id, action, payload),
    ensures
        change.entry_id is None,
        change.action == action,
        change.aggregate_type == "storage_configuration",
        change.aggregate_id@ == hyphenated_chars(configuration_id),
        change.payload@ == payload,
{
}

/// Checksums are read from the words that they are stored as.
pub proof fn law_checksums_have_words(algorithm: Seq<char>, kind: Seq<char>, value: Candidate)
    ensures
        checksum_type_word(ObjectChecksumType::FullObject) == "full_object"@,
        checksum_type_word(ObjectChecksumType::Composite) == "composite"@,
        checksum_of(algorithm, kind, value) is Ok <==> algorithm == "sha256"@ && value.accepted && (
        kind == "full_object"@ || kind == "composite"@),
        checksum_of(algorithm, kind, value) matches Ok(checksum) ==> checksum.value == value.text
            && checksum.algorithm == ObjectChecksumAlgorithm::Sha256 && checksum_type_word(
            checksum.kind,
        ) == kind,
{
    reveal_strlit("full_object");
    reveal_strlit("composite");
    assert("full_object"@.len() == 11);
    assert("composite"@.len() == 9);
}

/// A stored object is the expected one exactly where key and size agree, and a
/// small one where its checksum is of the whole object and of these bytes.
pub proof fn law_stored_objects_are_the_expected_ones(
    stored: StoredObject,
    key: Seq<char>,
    size: u64,
    encoded: Seq<char>,
    expected_type: ObjectChecksumType,
)
    ensures
        is_expected_object(stored, key, size) <==> stored.key@ == key && stored.size == size,
        stored_checksum_of(stored, expected_type) is Ok <==> stored.checksum is Some
            && stored.checksum->0.kind == expected_type,
        stored_checksum_of(stored, expected_type) matches Ok(checksum) ==> checksum
            == stored.checksum->0,
        small_object_refusal(stored, key, size, encoded) is None <==> {
            &&& stored.key@ == key && stored.size == size
            &&& stored.checksum is Some
            &&& stored.checksum->0.kind == ObjectChecksumType::FullObject
            &&& stored.checksum->0.value@ == encoded
        },
{
}

/// Objects are kept under what they are: a file's first content, an upload in
/// parts, or a version of a file.
pub proof fn law_objects_are_kept_under_what_they_are(entry_id: u128, other_id: u128)
    ensures
        initial_key_of(entry_id) == "entries/"@ + hyphenated_chars(entry_id)
            + "/versions/initial"@,
        multipart_key_of(entry_id) == "multipart/"@ + hyphenated_chars(entry_id) + "/object"@,
        version_key_of(entry_id, other_id) == "entries/"@ + hyphenated_chars(entry_id)
            + "/versions/"@ + hyphenated_chars(other_id),
{
}

/// A version records the object that holds its content: under its key, in its
/// place, with its size, type and checksum.
pub proof fn law_versions_record_their_object(
    version: VersionInsert,
    entry_id: u128,
    version_id: u128,
    version_number: i64,
    content: StoredContent,
    actor: ActorRef,
)
    requires
        version.holds(entry_id, version_id, version_number, content, actor),
    ensures
        version.entry_id == entry_id,
        version.version_id == version_id,
        version.version_number == version_number,
        version.object_key == content.key,
        version.object_version_id == content.stored.provider_version_id,
        version.etag == content.stored.etag,
        version.bucket_name == content.target.bucket,
        version.storage_region == content.target.region,
        version.storage_prefix == content.target.prefix,
        version.storage_kms_key_arn == content.target.kms_key_arn,
        version.storage_encryption_mode@ == encryption_word(content.target.encryption),
        version.storage_config_id == content.storage.configuration_id,
        content.storage.configuration_id is Some ==> version.storage_backend@ == "organization"@,
        content.storage.configuration_id is None ==> version.storage_backend@ == "platform"@,
        version.checksum_algorithm@ == "sha256"@,
        version.checksum_type@ == checksum_type_word(content.checksum.kind),
        version.checksum_value == content.checksum.value,
        version.size_bytes == content.size,
        version.content_type == content.content_type,
        version.created_by == actor,
{
}

/// Content over an existing file becomes its next version; content under a free
/// name becomes a new file. Only a new file may destroy itself.
pub proof fn law_content_is_published_where_it_may_be(
    child: Option<NamedChild>,
    existing: Option<AuthorizableEntry>,
    self_destruct_minutes: Option<u32>,
    size: u64,
)
    ensures
        publication_refusal(child, existing, self_destruct_minutes, size) is None <==> {
            &&& size <= i64::MAX
            &&& child is Some ==> {
                &&& child->0.entry_id.accepted && child->0.entry_type@ == "file"@
                &&& self_destruct_minutes is None
                &&& existing is Some && existing->0.access.write_content
            }
        },
{
}

/// What is published is the version that was asked for: of the file that carries
/// the name, or of a new one in the folder.
pub proof fn law_published_content_is_as_asked(
    publication: Publication,
    request: PublicationRequest,
    parent: AuthorizableEntry,
    child: Option<NamedChild>,
    content: StoredContent,
    actor: ActorRef,
    application: Option<Seq<char>>,
)
    requires
        published(publication, request, parent, child, content, actor, application),
    ensures
        publication is Create <==> child is None,
        child matches Some(file) ==> publication.entry() == file.entry_id.value,
        child is None ==> publication.entry() == request.entry_id,
        publication matches Publication::Create { plan } ==> {
            &&& plan.file.entry_id == request.entry_id
            &&& plan.file.parent_id == parent.entry.id
            &&& plan.file.name == request.name
            &&& plan.file.boundary == parent.entry.boundary
            &&& plan.file.owner == actor
            &&& optional_chars(plan.file.origin_app_id) == application
            &&& plan.file.content_type == content.content_type
            &&& plan.file.size_bytes == content.size
            &&& plan.file.current_version_id == request.version_id
            &&& plan.file.self_destruct_minutes == request.self_destruct_minutes
            &&& plan.version.version_number == 1
            &&& plan.version.version_id == request.version_id
            &&& plan.version.entry_id == request.entry_id
            &&& plan.version.object_key == content.key
            &&& plan.version.object_version_id == content.stored.provider_version_id
            &&& plan.version.bucket_name == content.target.bucket
            &&& plan.version.storage_config_id == content.storage.configuration_id
            &&& plan.version.checksum_value == content.checksum.value
            &&& plan.version.size_bytes == content.size
            &&& plan.version.content_type == content.content_type
            &&& plan.version.created_by == actor
            &&& plan.version.source@ == "upload"@
            &&& plan.version.restored_from_version_id is None
            &&& request.self_destruct_minutes is None <==> plan.changes@.len() == 1
            &&& request.self_destruct_minutes is Some <==> plan.changes@.len() == 2
            &&& plan.changes@[0].entry_id == Some(request.entry_id)
            &&& plan.changes@[0].action == "entry.file_created.v1"
            &&& plan.changes@[0].payload@ == seq![
                Detail { key: "parent_id", value: DetailValue::Id(parent.entry.id) },
                Detail { key: "version_id", value: DetailValue::Id(request.version_id) },
                Detail { key: "size", value: DetailValue::Unsigned(content.size) },
            ]
            &&& request.self_destruct_minutes is Some ==> {
                &&& plan.changes@[1].entry_id == Some(request.entry_id)
                &&& plan.changes@[1].action == "entry.self_destruct_set.v1"
                &&& plan.changes@[1].payload@.len() == 0
            }
        },
        publication matches Publication::Version { plan } ==> {
            &&& plan.version.version_id == request.version_id
            &&& plan.version.version_number == request.next_number
            &&& plan.version.entry_id == child->0.entry_id.value
            &&& plan.version.object_key == content.key
            &&& plan.version.object_version_id == content.stored.provider_version_id
            &&& plan.version.bucket_name == content.target.bucket
            &&& plan.version.storage_config_id == content.storage.configuration_id
            &&& plan.version.checksum_value == content.checksum.value
            &&& plan.version.content_type == content.content_type
            &&& plan.version.created_by == actor
            &&& plan.version.size_bytes == content.size
            &&& plan.version.source@ == "upload"@
            &&& plan.version.restored_from_version_id is None
            &&& plan.change.entry_id == Some(child->0.entry_id.value)
            &&& plan.change.action == "entry.version_created.v1"
            &&& plan.change.payload@ == seq![
                Detail { key: "version_id", value: DetailValue::Id(request.version_id) },
                Detail { key: "version_number", value: DetailValue::Integer(request.next_number) },
                Detail { key: "size", value: DetailValue::Unsigned(content.size) },
            ]
        },
{
}

/// A small upload is published exactly where the store holds these very bytes
/// under the prepared key, the folder takes them, the request is the one that was
/// prepared, and their place is still known.
pub proof fn law_small_uploads_are_published_where_they_may_be(
    upload: SmallUpload,
    preparation: SmallUploadPreparation,
    stored: StoredObject,
    encoded: Seq<char>,
    parent: Option<AuthorizableEntry>,
    facts: UploadFacts,
)
    ensures
        upload_refusal(upload, preparation, stored, encoded, parent, facts) is None <==> {
            &&& stored.key@ == preparation.key@ && stored.size == upload.size
            &&& stored.checksum is Some && stored.checksum->0.kind
                == ObjectChecksumType::FullObject && stored.checksum->0.value@ == encoded
            &&& parent is Some && parent->0.entry.kind == EntryKind::Folder
                && parent->0.access.create_child
            &&& facts.state is Some && facts.state->0.status@ == "in_progress"@
                && facts.state->0.request_hash@ == upload.request_hash@
            &&& preparation.target.same_place(facts.platform) || facts.configuration_id is Some
        },
{
}

/// A small upload publishes the stored object under its own key, size and type,
/// as the file and name that were asked for.
pub proof fn law_small_uploads_publish_the_stored_object(
    upload: SmallUpload,
    preparation: SmallUploadPreparation,
    stored: StoredObject,
    facts: UploadFacts,
)
    requires
        stored.key@ == preparation.key@,
        stored.checksum is Some,
    ensures
        ({
            let content = uploaded_content(upload, preparation, stored, facts);
            &&& content.key@ == stored.key@
            &&& content.stored == stored
            &&& content.checksum == stored.checksum->0
            &&& content.size == upload.size
            &&& content.content_type == upload.content_type
            &&& content.target == preparation.target
            &&& preparation.target.same_place(facts.platform)
                ==> content.storage.configuration_id is None
            &&& !preparation.target.same_place(facts.platform)
                ==> content.storage.configuration_id == facts.configuration_id
        }),
        ({
            let request = upload_request(upload, preparation, facts);
            &&& request.entry_id == preparation.entry_id
            &&& request.name == upload.name
            &&& request.version_id == facts.version_id
            &&& request.next_number == facts.next_number
            &&& request.self_destruct_minutes == upload.self_destruct_minutes
        }),
{
}

/// A write is prepared exactly where the name is free for content and the
/// organization's storage can be described.
pub proof fn law_writes_are_prepared_where_they_may_be(
    child: Option<NamedChild>,
    active: Option<StorageConfigRow>,
)
    ensures
        write_refusal(child, active) is None <==> {
            &&& child is None || (child->0.entry_id.accepted && child->0.entry_type@ == "file"@)
            &&& active is None || encryption_of(active->0.encryption_mode@) is Some
        },
{
}

/// A file is downloaded exactly by who may read it, where its current version is
/// there and can be found.
pub proof fn law_files_are_downloaded_where_they_may_be(
    entry: Option<AuthorizableEntry>,
    version: Option<VersionContentRow>,
    role_arn: Option<Seq<char>>,
)
    ensures
        download_refusal(entry, version, role_arn) is None <==> {
            &&& entry is Some && entry->0.access.read && entry->0.entry.kind == EntryKind::File
            &&& entry->0.entry.current_version_id is Some
            &&& version is Some
            &&& is_platform_place(version->0.place) || is_organization_place(
                version->0.place,
                role_arn,
            )
            &&& encryption_of(version->0.place.encryption_mode@) is Some
            &&& version->0.size_bytes >= 0 && version->0.object_key.accepted
        },
        entry is Some && !entry->0.access.read ==> download_refusal(entry, version, role_arn)
            == Some(AppError::Forbidden),
        entry is None ==> download_refusal(entry, version, role_arn) == Some(AppError::NotFound),
{
}

/// A download reads the object of the file's version, under the file's name.
pub proof fn law_downloads_read_the_versions_object(
    target: DownloadTarget,
    entry: AuthorizableEntry,
    row: VersionContentRow,
    role_arn: Option<Seq<char>>,
    external_id: Seq<char>,
)
    requires
        reads_version(target, entry, row, role_arn, external_id),
    ensures
        target.entry_id == entry.entry.id,
        target.filename == entry.entry.name,
        target.content_type == row.content_type,
        target.size == row.size_bytes,
        target.key == row.object_key.text,
        target.provider_version_id == row.object_version_id,
        target.target.bucket == row.place.bucket && target.target.prefix == row.place.prefix
            && target.target.region == row.place.region,
{
}

/// A version is restored exactly by who may write the file's content, where the
/// version is there.
pub proof fn law_versions_are_restored_where_they_may_be(
    entry: Option<AuthorizableEntry>,
    source: Option<VersionContentRow>,
    capability: Capability,
)
    ensures
        file_refusal(entry, capability) is None <==> entry is Some && entry->0.access.permits(
            capability,
        ) && entry->0.entry.kind == EntryKind::File,
        restore_refusal(entry, source) is None <==> {
            &&& entry is Some && entry->0.access.write_content && entry->0.entry.kind
                == EntryKind::File
            &&& source is Some
        },
{
}

/// A version is copied exactly under a held lease, from a known place, where its
/// checksum and size can be read and the new place can be described.
pub proof fn law_versions_are_copied_under_a_lease(
    accepted: bool,
    leased_rows: u64,
    row: VersionContentRow,
    role_arn: Option<Seq<char>>,
    active: Option<StorageConfigRow>,
)
    ensures
        copy_refusal(accepted, leased_rows, row, role_arn, active) is None <==> {
            &&& leased_rows == 1 && accepted
            &&& is_platform_place(row.place) || is_organization_place(row.place, role_arn)
            &&& encryption_of(row.place.encryption_mode@) is Some
            &&& active is Some ==> encryption_of(active->0.encryption_mode@) is Some
            &&& checksum_of(row.checksum_algorithm@, row.checksum_type@, row.checksum_value) is Ok
            &&& row.object_key.accepted && row.size_bytes >= 0
        },
{
}

/// A restore copies the old version's object to a key of the new version's own.
pub proof fn law_restores_copy_the_old_object(
    preparation: RestorePreparation,
    entry: AuthorizableEntry,
    new_version_id: u128,
    row: VersionContentRow,
    role_arn: Option<Seq<char>>,
    external_id: Seq<char>,
    platform: StorageTarget,
    active: Option<StorageConfigRow>,
)
    requires
        copies_version(
            preparation,
            entry,
            new_version_id,
            row,
            role_arn,
            external_id,
            platform,
            active,
        ),
    ensures
        preparation.entry_id == entry.entry.id,
        preparation.new_version_id == new_version_id,
        preparation.source_key == row.object_key.text,
        preparation.source_provider_version_id == row.object_version_id,
        preparation.source_target.bucket == row.place.bucket,
        preparation.destination_key@ == version_key_of(entry.entry.id, new_version_id),
        preparation.content_type == row.content_type,
        preparation.size == row.size_bytes,
        preparation.checksum.value == row.checksum_value.text,
        active is None ==> preparation.destination_target == platform,
{
}

/// A copied version is published exactly where the store holds the copy under its
/// own key and size, the caller may write the content, the old version is still
/// there, and the request is the one that was prepared.
pub proof fn law_copies_are_published_where_they_may_be(
    preparation: RestorePreparation,
    stored: StoredObject,
    entry: Option<AuthorizableEntry>,
    facts: RestoreFacts,
)
    ensures
        publish_restore_refusal(preparation, stored, entry, facts) is None <==> {
            &&& stored.key@ == preparation.destination_key@ && stored.size == preparation.size
            &&& entry is Some && entry->0.access.write_content
            &&& facts.source_exists
            &&& facts.state is Some && facts.state->0.status@ == "in_progress"@
                && facts.state->0.request_hash@ == facts.request_hash@
            &&& preparation.destination_target.same_place(facts.platform)
                || facts.configuration_id is Some
            &&& stored.checksum is Some
            &&& preparation.size <= i64::MAX
        },
{
}

/// A restored version names the object that was copied and checked: under the
/// key, size, checksum and provider version that the store reported, in the place
/// it was copied to. It is the file's next version and says what it restores.
pub proof fn law_restored_versions_name_the_copied_object(
    plan: VersionRestore,
    preparation: RestorePreparation,
    stored: StoredObject,
    entry: AuthorizableEntry,
    facts: RestoreFacts,
    actor: ActorRef,
)
    requires
        publish_restore_refusal(preparation, stored, Some(entry), facts) is None,
        restore_planned(plan, preparation, stored, entry, facts, actor),
    ensures
        plan.version.object_key@ == stored.key@,
        plan.version.object_key@ == preparation.destination_key@,
        plan.version.object_version_id == stored.provider_version_id,
        plan.version.etag == stored.etag,
        plan.version.checksum_value == stored.checksum->0.value,
        plan.version.size_bytes == stored.size && plan.version.size_bytes == preparation.size,
        plan.version.content_type == preparation.content_type,
        plan.version.bucket_name == preparation.destination_target.bucket,
        plan.version.storage_region == preparation.destination_target.region,
        plan.version.storage_prefix == preparation.destination_target.prefix,
        plan.version.storage_encryption_mode@ == encryption_word(
            preparation.destination_target.encryption,
        ),
        plan.version.storage_kms_key_arn == preparation.destination_target.kms_key_arn,
        preparation.destination_target.same_place(facts.platform)
            ==> plan.version.storage_config_id is None && plan.version.storage_backend@
            == "platform"@,
        !preparation.destination_target.same_place(facts.platform)
            ==> plan.version.storage_config_id == facts.configuration_id
            && plan.version.storage_backend@ == "organization"@,
        plan.version.checksum_type@ == checksum_type_word(stored.checksum->0.kind),
        plan.version.entry_id == entry.entry.id,
        plan.version.version_id == preparation.new_version_id,
        plan.version.version_number == facts.next_number,
        plan.version.source@ == "restore"@,
        plan.version.restored_from_version_id == Some(facts.version_id),
        plan.version.created_by == actor,
        plan.change.entry_id == Some(entry.entry.id),
        plan.change.action == "entry.version_restored.v1",
        plan.change.payload@ == seq![
            Detail { key: "version_id", value: DetailValue::Id(preparation.new_version_id) },
            Detail { key: "source_version_id", value: DetailValue::Id(facts.version_id) },
            Detail { key: "version_number", value: DetailValue::Integer(facts.next_number) },
        ],
{
}

/// Whether a stored upload is the one that a start wrote.
pub open spec fn stored_as(row: MultipartUploadRow, insert: MultipartInsert) -> bool {
    &&& row.owner_type@ == kind_chars(insert.owner.kind)
    &&& row.owner_id@ == insert.owner.id@
    &&& optional_chars(row.origin_app_id) == optional_chars(insert.origin_app_id)
}

/// An upload in parts belongs to whoever started it, through the application they
/// started it with or through none, and to nobody else.
pub proof fn law_uploads_belong_to_who_started_them(
    insert: MultipartInsert,
    row: MultipartUploadRow,
    context: ExecutionContext,
    command: InitiateMultipart,
    preparation: MultipartPreparation,
    provider_upload_id: Seq<char>,
    storage: StorageReference,
    other: RequestAuthContext,
)
    requires
        is_prepared_upload(insert, context, command, preparation, provider_upload_id, storage),
        stored_as(row, insert),
    ensures
        owns_upload(row, context.authorization),
        owns_upload(row, other) <==> other.actor.kind == context.authorization.actor.kind
            && other.actor.id@ == context.authorization.actor.id@ && other.application()
            == context.authorization.application(),
{
    reveal_strlit("carbon");
    reveal_strlit("silicon");
    assert("carbon"@.len() == 6);
    assert("silicon"@.len() == 7);
}

/// An upload in parts starts exactly where the store has named it, the folder
/// takes it, the request is the one that was prepared, its place is known, and
/// its numbers can be stored.
pub proof fn law_uploads_start_where_they_may(
    command: InitiateMultipart,
    preparation: MultipartPreparation,
    provider_upload_id: Seq<char>,
    parent: Option<AuthorizableEntry>,
    state: Option<OperationState>,
    platform: StorageTarget,
    configuration_id: Option<u128>,
)
    ensures
        start_refusal(
            command,
            preparation,
            provider_upload_id,
            parent,
            state,
            platform,
            configuration_id,
        ) is None <==> {
            &&& trim(provider_upload_id).len() > 0
            &&& parent is Some && parent->0.entry.kind == EntryKind::Folder
                && parent->0.access.create_child
            &&& state is Some && state->0.status@ == "in_progress"@ && state->0.request_hash@
                == command.request_hash@
            &&& preparation.target.same_place(platform) || configuration_id is Some
            &&& preparation.plan.file_size <= i64::MAX && preparation.plan.part_size <= i64::MAX
                && preparation.plan.part_count <= i32::MAX
        },
{
}

/// A started upload is what was prepared, and its receipt tells how to go on.
pub proof fn law_started_uploads_are_as_prepared(
    plan: MultipartStart,
    context: ExecutionContext,
    command: InitiateMultipart,
    preparation: MultipartPreparation,
    provider_upload_id: Seq<char>,
    storage: StorageReference,
)
    requires
        start_planned(plan, context, command, preparation, provider_upload_id, storage),
    ensures
        plan.upload.upload_id == preparation.upload_id,
        plan.upload.parent_entry_id == command.parent_id,
        plan.upload.owner == context.authorization.actor,
        plan.upload.name == command.name,
        plan.upload.content_type == command.content_type,
        plan.upload.declared_size_bytes == preparation.plan.file_size,
        plan.upload.part_size_bytes == preparation.plan.part_size,
        plan.upload.expected_part_count == preparation.plan.part_count,
        plan.upload.bucket_name == preparation.target.bucket,
        plan.upload.storage_region == preparation.target.region,
        plan.upload.storage_prefix == preparation.target.prefix,
        plan.upload.storage_encryption_mode@ == encryption_word(preparation.target.encryption),
        plan.upload.storage_kms_key_arn == preparation.target.kms_key_arn,
        plan.upload.storage_config_id == storage.configuration_id,
        storage.configuration_id is Some ==> plan.upload.storage_backend@ == "organization"@,
        storage.configuration_id is None ==> plan.upload.storage_backend@ == "platform"@,
        optional_chars(plan.upload.origin_app_id) == context.authorization.application(),
        plan.upload.object_key == preparation.key,
        plan.upload.provider_upload_id@ == provider_upload_id,
        plan.upload.expires_at == preparation.expires_at,
        plan.receipt.upload_id == preparation.upload_id,
        plan.receipt.part_size == preparation.plan.part_size,
        plan.receipt.part_count == preparation.plan.part_count,
        plan.receipt.expires_at == preparation.expires_at,
        plan.change.entry_id == Some(command.parent_id),
        plan.change.action == "multipart.initiated.v1",
        plan.change.aggregate_type == "multipart_upload",
        plan.change.aggregate_id@ == hyphenated_chars(preparation.upload_id),
        plan.change.payload@ == seq![
            Detail { key: "parent_id", value: DetailValue::Id(command.parent_id) },
            Detail { key: "expires_at", value: DetailValue::Timestamp(preparation.expires_at) },
        ],
{
}

/// A part has the size that the plan gives it, and a plan knows its own parts
/// only.
pub proof fn law_plans_know_their_parts(plan: MultipartPlan, part_number: u32)
    ensures
        plan.size_of(part_number) is Some <==> 1 <= part_number <= plan.sizes@.len(),
        plan.size_of(part_number) matches Some(size) ==> size == plan.sizes@[part_number - 1],
        plan.size_of(0) is None,
{
}

/// An upload goes on with the plan that it was started with.
pub proof fn law_uploads_keep_their_plan(row: MultipartUploadRow, planned: Option<MultipartPlan>)
    ensures
        is_started_plan(row, planned) <==> planned is Some && row.declared_size_bytes >= 0
            && planned->0.part_size == row.part_size_bytes && planned->0.part_count
            == row.expected_part_count,
        receipt_of(row, planned) is Ok <==> is_started_plan(row, planned)
            && row.upload_id.accepted,
        receipt_of(row, planned) matches Ok(receipt) ==> receipt.upload_id == row.upload_id.value
            && receipt.part_size == row.part_size_bytes && receipt.part_count
            == row.expected_part_count && receipt.expires_at == row.expires_at,
{
}

/// An upload collects parts while it is initiated or uploading, is over when it
/// is aborted or expired, and is beyond stopping when it completes.
pub proof fn law_uploads_have_stages(status: Seq<char>)
    ensures
        collects_parts(status) <==> status == "initiated"@ || status == "uploading"@,
        disposition_of(status) == Some(MultipartAbortDisposition::Abort) <==> status
            == "initiated"@ || status == "uploading"@,
        disposition_of(status) == Some(MultipartAbortDisposition::AlreadyStopped) <==> status
            == "aborted"@ || status == "expired"@,
        disposition_of(status) == Some(MultipartAbortDisposition::Reject) <==> status
            == "completing"@ || status == "completed"@,
{
    reveal_strlit("initiated");
    reveal_strlit("uploading");
    reveal_strlit("aborted");
    reveal_strlit("expired");
    reveal_strlit("completing");
    reveal_strlit("completed");
    assert("initiated"@.len() == 9);
    assert("uploading"@.len() == 9);
    assert("aborted"@.len() == 7);
    assert("expired"@.len() == 7);
    assert("completing"@.len() == 10);
    assert("completed"@.len() == 9);
    assert("initiated"@[0] != "completed"@[0]);
    assert("uploading"@[0] != "completed"@[0]);
}

/// A part is taken exactly from the upload's owner, while the upload collects and
/// is not over, as a part of its plan, into a folder that takes it, at a known
/// place.
pub proof fn law_parts_are_taken_from_the_owner(
    row: Option<MultipartUploadRow>,
    authorization: RequestAuthContext,
    planned: Option<MultipartPlan>,
    part_number: u32,
    now: i128,
    parent: Option<AuthorizableEntry>,
    role_arn: Option<Seq<char>>,
)
    ensures
        part_refusal(row, authorization, planned, part_number, now, parent, role_arn) is None <==> {
            &&& row is Some && owns_upload(row->0, authorization)
            &&& row->0.status@ == "initiated"@ || row->0.status@ == "uploading"@
            &&& now < row->0.expires_at
            &&& is_started_plan(row->0, planned)
            &&& 1 <= part_number <= planned->0.sizes@.len()
            &&& row->0.parent_entry_id.accepted
            &&& parent is Some && parent->0.entry.kind == EntryKind::Folder
                && parent->0.access.create_child
            &&& is_platform_place(row->0.place) || is_organization_place(row->0.place, role_arn)
            &&& encryption_of(row->0.place.encryption_mode@) is Some
            &&& row->0.object_key.accepted
        },
        row matches Some(upload) ==> (!owns_upload(upload, authorization) ==> part_refusal(
            row,
            authorization,
            planned,
            part_number,
            now,
            parent,
            role_arn,
        ) == Some(AppError::NotFound)),
        collecting_refusal(row, authorization, now) is None <==> {
            &&& row is Some && owns_upload(row->0, authorization)
            &&& row->0.status@ == "initiated"@ || row->0.status@ == "uploading"@
            &&& now < row->0.expires_at
        },
{
}

/// A received part is recorded exactly where it has the planned size and the
/// store has marked it.
pub proof fn law_parts_are_recorded_as_planned(
    etag: Seq<char>,
    row: Option<MultipartUploadRow>,
    authorization: RequestAuthContext,
    planned: Option<MultipartPlan>,
    part_number: u32,
    size: u64,
    now: i128,
    parent: Option<AuthorizableEntry>,
)
    ensures
        record_refusal(etag, row, authorization, planned, part_number, size, now, parent) is None
            <==> {
            &&& trim(etag).len() > 0
            &&& row is Some && owns_upload(row->0, authorization)
            &&& row->0.status@ == "initiated"@ || row->0.status@ == "uploading"@
            &&& now < row->0.expires_at
            &&& is_started_plan(row->0, planned)
            &&& 1 <= part_number <= planned->0.sizes@.len()
            &&& planned->0.sizes@[part_number - 1] == size
            &&& row->0.parent_entry_id.accepted
            &&& parent is Some && parent->0.entry.kind == EntryKind::Folder
                && parent->0.access.create_child
            &&& part_number <= i32::MAX && size <= i64::MAX
        },
{
}

/// An upload is completed by its owner, into a folder that takes it: at any time
/// once it completes, and before its end while it collects.
pub proof fn law_uploads_are_completed_by_their_owner(
    row: Option<MultipartUploadRow>,
    authorization: RequestAuthContext,
    now: i128,
    parent: Option<AuthorizableEntry>,
)
    ensures
        completable_refusal(row, authorization, now, parent) is None <==> {
            &&& row is Some && owns_upload(row->0, authorization)
            &&& row->0.status@ == "initiated"@ || row->0.status@ == "uploading"@ ==> now
                < row->0.expires_at
            &&& row->0.parent_entry_id.accepted
            &&& parent is Some && parent->0.entry.kind == EntryKind::Folder
                && parent->0.access.create_child
        },
{
}

/// A completed part is the one that was recorded: its number, its mark, its
/// planned size and a digest.
pub proof fn law_completed_parts_are_the_recorded_ones(
    plan: MultipartPlan,
    stored: MultipartPartRow,
    supplied: ClientCompletedPart,
)
    ensures
        part_error(plan, stored, supplied) is None <==> {
            &&& stored.part_number >= 1 && stored.part_number <= plan.sizes@.len()
            &&& supplied.part_number == stored.part_number
            &&& supplied.etag@ == stored.etag@
            &&& stored.size_bytes == plan.sizes@[stored.part_number - 1]
            &&& stored.checksum_sha256@.len() == 32
            &&& stored.accepted
        },
{
}

/// A completion needs every part of the plan, in order.
pub proof fn law_completions_need_every_part(
    plan: MultipartPlan,
    stored: Seq<MultipartPartRow>,
    client: Seq<ClientCompletedPart>,
    position: int,
)
    requires
        completion_error(plan, stored, client) is None,
    ensures
        stored.len() == plan.part_count && client.len() == plan.part_count,
        0 <= position < stored.len() ==> part_error(plan, stored[position], client[position])
            is None,
{
    lemma_each_part_fits(plan, stored, client, position);
}

/// Where parts fit a plan, each of them does.
proof fn lemma_each_part_fits(
    plan: MultipartPlan,
    stored: Seq<MultipartPartRow>,
    client: Seq<ClientCompletedPart>,
    position: int,
)
    requires
        stored.len() == client.len(),
        crate::postgres::content::multipart::parts_error(plan, stored, client) is None,
    ensures
        0 <= position < stored.len() ==> part_error(plan, stored[position], client[position])
            is None,
    decreases stored.len(),
{
    if 0 <= position < stored.len() - 1 {
        lemma_each_part_fits(plan, stored.drop_last(), client.drop_last(), position);
    }
}

/// The store is told of the parts as they were recorded.
pub proof fn law_completed_parts_are_handed_on(
    parts: Seq<CompletedPart>,
    stored: Seq<MultipartPartRow>,
    position: int,
)
    requires
        are_completed_parts(parts, stored),
        0 <= position < stored.len(),
    ensures
        parts.len() == stored.len(),
        parts[position].part_number == stored[position].part_number,
        parts[position].etag == stored[position].etag,
        parts[position].size == stored[position].size_bytes,
        parts[position].sha256@ == stored[position].checksum_sha256@,
{
}

/// A completion is prepared exactly while the upload collects or completes, with
/// its plan, every part of it, and a known place.
pub proof fn law_completions_are_prepared_where_they_may_be(
    upload: MultipartUploadRow,
    planned: Option<MultipartPlan>,
    stored: Seq<MultipartPartRow>,
    client: Seq<ClientCompletedPart>,
    role_arn: Option<Seq<char>>,
)
    ensures
        completion_refusal(upload, planned, stored, client, role_arn) is None <==> {
            &&& upload.status@ == "initiated"@ || upload.status@ == "uploading"@ || upload.status@
                == "completing"@
            &&& is_started_plan(upload, planned)
            &&& completion_error(planned->0, stored, client) is None
            &&& is_platform_place(upload.place) || is_organization_place(upload.place, role_arn)
            &&& encryption_of(upload.place.encryption_mode@) is Some
            &&& upload.object_key.accepted
        },
{
}

/// A completed upload is published exactly where the store holds the whole object
/// under its key, by its owner, while it completes, into a folder that takes it,
/// for the request that completes it.
pub proof fn law_completed_uploads_are_published_where_they_may_be(
    preparation: MultipartCompletionPreparation,
    stored: StoredObject,
    row: Option<MultipartUploadRow>,
    authorization: RequestAuthContext,
    parent: Option<AuthorizableEntry>,
    facts: CompletionFacts,
    role_arn: Option<Seq<char>>,
)
    ensures
        publish_completion_refusal(
            preparation,
            stored,
            row,
            authorization,
            parent,
            facts,
            role_arn,
        ) is None <==> {
            &&& stored.key@ == preparation.address.key@ && stored.size
                == preparation.plan.file_size
            &&& stored.checksum is Some && stored.checksum->0.kind == ObjectChecksumType::Composite
            &&& row is Some && owns_upload(row->0, authorization)
            &&& row->0.status@ == "completing"@
            &&& row->0.parent_entry_id.accepted
            &&& parent is Some && parent->0.entry.kind == EntryKind::Folder
                && parent->0.access.create_child
            &&& facts.state is Some && facts.state->0.status@ == "in_progress"@
                && facts.state->0.request_hash@ == facts.request_hash@
            &&& is_platform_place(row->0.place) || is_organization_place(row->0.place, role_arn)
            &&& encryption_of(row->0.place.encryption_mode@) is Some
        },
{
}

/// A completed upload publishes the stored object under its own key, size and
/// checksum, as the file that the upload was started for.
pub proof fn law_completed_uploads_publish_the_stored_object(
    preparation: MultipartCompletionPreparation,
    stored: StoredObject,
    upload: MultipartUploadRow,
    facts: CompletionFacts,
)
    requires
        stored.key@ == preparation.address.key@,
    ensures
        ({
            let content = completed_content(preparation, stored, upload);
            &&& content.key@ == stored.key@
            &&& content.stored == stored
            &&& content.checksum == stored.checksum->0
            &&& content.size == preparation.plan.file_size
            &&& content.content_type == upload.content_type
            &&& content.target == preparation.address.target
            &&& content.storage.configuration_id == upload.place.config_id
        }),
        ({
            let request = completion_request(preparation, upload, facts);
            &&& request.entry_id == preparation.entry_id
            &&& request.name == upload.name
            &&& request.version_id == facts.version_id
            &&& request.next_number == facts.next_number
            &&& request.self_destruct_minutes is None
        }),
{
}

/// A store is asked about an upload at the upload's own place, key and
/// identifier.
pub proof fn law_uploads_are_addressed_where_they_are(
    address: UploadAddress,
    upload: MultipartUploadRow,
    role_arn: Option<Seq<char>>,
    external_id: Seq<char>,
)
    requires
        is_address_of(address, upload, role_arn, external_id),
    ensures
        address.key == upload.object_key.text,
        address.provider_upload_id == upload.provider_upload_id,
        address.target.bucket == upload.place.bucket,
        address.target.region == upload.place.region,
        address.target.prefix == upload.place.prefix,
{
}

/// The place of an upload is the one it was started at.
pub proof fn law_uploads_stay_at_their_place(
    target: StorageTarget,
    place: StoredPlace,
    role_arn: Option<Seq<char>>,
    external_id: Seq<char>,
)
    ensures
        same_upload_place(target, place, role_arn, external_id) ==> target.bucket@ == place.bucket@
            && target.region@ == place.region@ && target.prefix@ == place.prefix@ && encryption_of(
            place.encryption_mode@,
        ) == Some(target.encryption) && optional_chars(target.kms_key_arn) == optional_chars(
            place.kms_key_arn,
        ),
        same_upload_place(target, place, role_arn, external_id) && place.backend@ == "platform"@
            && place.config_id is None ==> target.role_arn is None && target.external_id is None,
        same_upload_place(target, place, role_arn, external_id) && place.config_id is Some
            ==> optional_chars(target.role_arn) == role_arn && optional_chars(target.external_id)
            == Some(external_id),
        target_of_place(target, place, role_arn, external_id) ==> same_upload_place(
            target,
            place,
            role_arn,
            external_id,
        ),
{
}

/// An upload is stopped exactly by its owner: while it collects, at a known place;
/// again without harm when it is over; and never once it completes.
pub proof fn law_uploads_are_stopped_by_their_owner(
    upload: MultipartUploadRow,
    authorization: RequestAuthContext,
    role_arn: Option<Seq<char>>,
)
    ensures
        !owns_upload(upload, authorization) ==> abort_refusal(upload, authorization, role_arn)
            == Some(AppError::NotFound),
        owns_upload(upload, authorization) && (upload.status@ == "aborted"@ || upload.status@
            == "expired"@) ==> abort_refusal(upload, authorization, role_arn) is None,
        owns_upload(upload, authorization) && (upload.status@ == "completing"@ || upload.status@
            == "completed"@) ==> abort_refusal(upload, authorization, role_arn) == Some(
            AppError::Conflict { code: "multipart_not_abortable" },
        ),
        owns_upload(upload, authorization) && (upload.status@ == "initiated"@ || upload.status@
            == "uploading"@) ==> (abort_refusal(upload, authorization, role_arn) is None <==> (
        is_platform_place(upload.place) || is_organization_place(upload.place, role_arn))
            && encryption_of(upload.place.encryption_mode@) is Some
            && upload.object_key.accepted),
{
    law_uploads_have_stages(upload.status@);
}

/// Stopping an upload leaves its parts to be cleaned up where they are.
pub proof fn law_stopped_uploads_are_cleaned_up_where_they_are(
    plan: MultipartAbort,
    upload: MultipartUploadRow,
    role_arn: Option<Seq<char>>,
    external_id: Seq<char>,
)
    requires
        abort_planned(plan, upload, role_arn, external_id),
    ensures
        plan.address.key == upload.object_key.text,
        plan.address.provider_upload_id == upload.provider_upload_id,
        plan.cleanup.cleanup_kind == "multipart_abort",
        plan.cleanup.source_upload_id == upload.upload_id.value,
        plan.cleanup.storage_backend == upload.place.backend,
        plan.cleanup.storage_config_id == upload.place.config_id,
        plan.cleanup.target.bucket == upload.place.bucket,
        plan.cleanup.target.region == upload.place.region,
        plan.cleanup.target.prefix == upload.place.prefix,
        plan.address.target == plan.cleanup.target,
        plan.cleanup.object_key == upload.object_key.text,
        plan.cleanup.provider_upload_id == upload.provider_upload_id,
        plan.change.entry_id == Some(upload.parent_entry_id.value),
        plan.change.action == "multipart.aborted.v1",
        plan.change.aggregate_type == "multipart_upload",
        plan.change.payload@.len() == 0,
        plan.change.aggregate_id@ == hyphenated_chars(upload.upload_id.value),
{
}

} // verus!
