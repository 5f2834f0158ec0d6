use silicon_briefcase::error::AppError;
use silicon_briefcase::ids::{Candidate, StoredId};
use silicon_briefcase::model::{
    ActorKind, ActorRef, AuthenticationMode, AuthorizableEntry, Capability, EntryAccess,
    EntryBoundary, EntryKind, EntryView, ExecutionContext, GrantedAccess, IdempotencyClaim,
    OrganizationRole, RequestAuthContext,
};
use silicon_briefcase::postgres::content::multipart::{
    abort_multipart, authorize_multipart_owner, authorize_multipart_part, completion_parts,
    commit_multipart_completion, commit_multipart_initialization, entered_completion,
    multipart_abort_disposition, multipart_completion_expired, multipart_plan, multipart_receipt,
    prepare_multipart, prepare_multipart_completion, record_multipart_part, ClientCompletedPart,
    CompletionFacts, InitiateMultipart, MultipartAbortDisposition, MultipartPartRow,
    MultipartPlan, MultipartUploadRow, PreparedCompletion, PreparedMultipart,
};
use silicon_briefcase::postgres::content::objects::{
    checksum_algorithm, checksum_array, checksum_type, initial_key, multipart_key,
    object_checksum, stored_checksum, validate_stored, verified_stored_checksum, version_key,
    ObjectChecksum, ObjectChecksumAlgorithm, ObjectChecksumType, StoredObject,
};
use silicon_briefcase::postgres::content::publishing::Publication;
use silicon_briefcase::postgres::content::storage::{
    activate_storage_configuration, encryption_name, fail_storage_configuration,
    identify_storage_target, parse_encryption, prepare_storage_configuration,
    resolve_write_target, start_storage_configuration, storage_configuration_result,
    target_for_place, ConfigurationStart, ConfigureStorageCommand, EncryptionMode,
    StorageConfigRow, StorageTarget, StoredPlace,
};
use silicon_briefcase::postgres::content::upload::{
    commit_encoded_upload, commit_small_upload, prepare_small_upload, PreparedUpload, SmallUpload,
    SmallUploadPreparation, UploadFacts,
};
use silicon_briefcase::postgres::content::versions::{
    authorize_download, commit_version_restore, prepare_version_restore, record_content_access,
    version_to_read, PreparedRestore, RestoreFacts, VersionContentRow,
};
use silicon_briefcase::postgres::content::{
    check_published, content_claim, ensure_idempotency_in_progress, ensure_name_is_versionable,
    extend_version_restore_lease, keyed_metadata, object_key, require_administrator,
    require_entry_capability, require_parent, to_i32, to_i64, to_u64, ContentClaim, NamedChild,
    OperationState,
};

const DIGEST: [u8; 32] = [
    100, 135, 159, 125, 107, 150, 10, 1, 144, 151, 98, 217, 17, 163, 45, 69, 130, 194, 0, 16, 197,
    100, 30, 233, 2, 120, 182, 68, 169, 227, 181, 37,
];
const ENCODED: &str = "ZIeffWuWCgGQl2LZEaMtRYLCABDFZB7pAni2RKnjtSU=";
const ENTRY: u128 = 0x01990a9d_86f1_7000_8000_000000000005;
const ENTRY_TEXT: &str = "01990a9d-86f1-7000-8000-000000000005";

fn accepted(text: &str) -> Candidate {
    Candidate { text: text.to_owned(), accepted: true }
}

fn stored_id(value: u128) -> StoredId {
    StoredId { value, accepted: true }
}

fn carbon(id: &str) -> ActorRef {
    ActorRef { kind: ActorKind::Carbon, id: id.to_owned() }
}

fn context() -> ExecutionContext {
    ExecutionContext {
        authorization: RequestAuthContext {
            organization_id: "tos".to_owned(),
            actor: carbon("owner"),
            role: OrganizationRole::Member,
            tags: None,
            authentication: AuthenticationMode::OnBehalfOf {
                application_id: "tos>notes".to_owned(),
            },
            binding: None,
        },
        testing_environment: None,
        request_id: "request-1".to_owned(),
    }
}

fn entry(id: u128, kind: EntryKind, allowed: bool) -> AuthorizableEntry {
    AuthorizableEntry {
        entry: EntryView {
            id,
            organization_id: "tos".to_owned(),
            kind,
            name: "plan.txt".to_owned(),
            path: "private/owner/plan.txt".to_owned(),
            parent_id: Some(1),
            boundary: EntryBoundary::Private,
            owner: carbon("owner"),
            origin_application_id: None,
            content_type: None,
            size: None,
            current_version_id: Some(9),
            created_at: 10,
            updated_at: 20,
            deleted_at: None,
        },
        system_kind: None,
        reserved: false,
        self_destruct_at: None,
        access: EntryAccess {
            read: allowed,
            create_child: allowed,
            write_content: allowed,
            update_metadata: allowed,
            delete: allowed,
            manage_permissions: allowed,
            fully_visible: allowed,
            satisfied: GrantedAccess { read: false, write: false, update: false, delete: false },
        },
    }
}

fn folder() -> AuthorizableEntry {
    entry(1, EntryKind::Folder, true)
}

fn platform() -> StorageTarget {
    StorageTarget {
        bucket: "platform".to_owned(),
        region: "eu".to_owned(),
        prefix: "tos/".to_owned(),
        role_arn: None,
        external_id: None,
        encryption: EncryptionMode::SseS3,
        kms_key_arn: None,
    }
}

fn configuration(status: &str) -> StorageConfigRow {
    StorageConfigRow {
        storage_config_id: stored_id(33),
        status: status.to_owned(),
        bucket_name: "own".to_owned(),
        region: "us".to_owned(),
        role_arn: "role".to_owned(),
        bucket_prefix: "p/".to_owned(),
        aws_account_id: "123".to_owned(),
        encryption_mode: "sse_kms".to_owned(),
        kms_key_arn: Some("key".to_owned()),
        validated_at: Some(5),
        validation_failure_code: Some("denied".to_owned()),
        created_by_type: "carbon".to_owned(),
        created_by_id: "owner".to_owned(),
    }
}

fn checksum(kind: ObjectChecksumType, value: &str) -> ObjectChecksum {
    ObjectChecksum {
        algorithm: ObjectChecksumAlgorithm::Sha256,
        kind,
        value: value.to_owned(),
    }
}

fn object(key: &str, checksum: Option<ObjectChecksum>) -> StoredObject {
    StoredObject {
        key: key.to_owned(),
        etag: Some("\"published\"".to_owned()),
        provider_version_id: None,
        size: 4,
        checksum,
    }
}

fn running() -> Option<OperationState> {
    Some(OperationState { request_hash: vec![7; 32], status: "in_progress".to_owned() })
}

fn is_conflict<T>(result: Result<T, AppError>, expected: &str) -> bool {
    matches!(result, Err(AppError::Conflict { code }) if code == expected)
}

fn is_validation<T>(result: Result<T, AppError>, expected: &str) -> bool {
    matches!(result, Err(AppError::Validation { code }) if code == expected)
}

fn is_bad_data<T>(result: Result<T, AppError>) -> bool {
    matches!(result, Err(AppError::Internal { category: "persisted_data" }))
}

#[test]
fn sizes_are_stored_only_where_columns_hold_them() {
    assert!(matches!(to_i64(5), Ok(5)));
    assert!(is_bad_data(to_i64(u64::MAX)));
    assert!(matches!(to_i32(5), Ok(5)));
    assert!(is_bad_data(to_i32(u32::MAX)));
    assert!(matches!(to_u64(5), Ok(5)));
    assert!(is_bad_data(to_u64(-1)));
    assert!(matches!(object_key(&accepted("k")), Ok(key) if key == "k"));
    assert!(is_bad_data(object_key(&Candidate { text: "k".to_owned(), accepted: false })));
}

#[test]
fn parents_have_to_be_folders_that_may_be_written_to() {
    assert!(require_parent(Some(&folder()), Capability::CreateChild).is_ok());
    assert!(matches!(
        require_parent(None, Capability::CreateChild),
        Err(AppError::NotFound)
    ));
    assert!(matches!(
        require_parent(Some(&entry(1, EntryKind::File, true)), Capability::CreateChild),
        Err(AppError::NotFound)
    ));
    assert!(matches!(
        require_parent(Some(&entry(1, EntryKind::Folder, false)), Capability::CreateChild),
        Err(AppError::Forbidden)
    ));
    assert!(require_entry_capability(&folder(), Capability::Read).is_ok());
    assert!(require_administrator(OrganizationRole::Admin).is_ok());
    assert!(matches!(
        require_administrator(OrganizationRole::Member),
        Err(AppError::Forbidden)
    ));
}

#[test]
fn a_folder_is_in_the_way_of_an_upload_and_a_file_is_not() {
    let file = NamedChild { entry_id: stored_id(5), entry_type: "file".to_owned() };
    let taken = NamedChild { entry_id: stored_id(5), entry_type: "folder".to_owned() };
    assert!(ensure_name_is_versionable(&None).is_ok());
    assert!(ensure_name_is_versionable(&Some(file)).is_ok());
    assert!(is_conflict(ensure_name_is_versionable(&Some(taken)), "entry_name_exists"));
}

#[test]
fn operations_finish_only_as_the_request_they_were_started_by() {
    assert!(ensure_idempotency_in_progress(&running(), &[7; 32]).is_ok());
    assert!(is_conflict(ensure_idempotency_in_progress(&running(), &[8; 32]), "idempotency_state"));
    assert!(is_conflict(ensure_idempotency_in_progress(&None, &[7; 32]), "idempotency_state"));
    assert!(extend_version_restore_lease(1).is_ok());
    assert!(is_conflict(extend_version_restore_lease(0), "idempotency_state"));
    assert!(check_published(1).is_ok());
    assert!(matches!(check_published(0), Err(AppError::NotFound)));
    assert!(matches!(
        content_claim(IdempotencyClaim::Acquired(Some(3)), true, true),
        Ok(ContentClaim::Run { id: 3 })
    ));
    assert!(is_bad_data(content_claim(IdempotencyClaim::Acquired(Some(3)), false, true)));
    assert!(is_bad_data(content_claim(IdempotencyClaim::Replay(Some(3)), false, true)));
    assert!(matches!(
        content_claim(IdempotencyClaim::Replay(Some(3)), false, false),
        Ok(ContentClaim::Replay { id: 3 })
    ));
    let metadata = keyed_metadata(&"key".to_owned(), [7; 32]);
    assert_eq!(metadata.idempotency_key, Some("key".to_owned()));
    assert_eq!(metadata.request_fingerprint, [7; 32]);
}

#[test]
fn encryption_and_checksums_survive_being_stored() {
    for mode in [EncryptionMode::SseS3, EncryptionMode::SseKms] {
        assert!(matches!(parse_encryption(encryption_name(mode)), Ok(read) if read == mode));
    }
    assert!(is_bad_data(parse_encryption("none")));
    for kind in [ObjectChecksumType::FullObject, ObjectChecksumType::Composite] {
        let original = checksum(kind, "v");
        match object_checksum(
            checksum_algorithm(&original),
            checksum_type(&original),
            &accepted("v"),
        ) {
            Ok(read) => {
                assert_eq!(read.kind, kind);
                assert_eq!(read.value, "v");
            }
            Err(error) => panic!("{error:?}"),
        }
    }
    assert!(is_bad_data(object_checksum("md5", "full_object", &accepted("v"))));
    assert!(is_bad_data(object_checksum("sha256", "partial", &accepted("v"))));
    assert!(matches!(checksum_array(&DIGEST.to_vec()), Ok(read) if read == DIGEST));
    assert!(is_bad_data(checksum_array(&vec![1; 31])));
}

#[test]
fn stored_objects_are_held_to_what_was_asked_for() {
    let whole = object("k", Some(checksum(ObjectChecksumType::FullObject, "v")));
    assert!(validate_stored(&whole, "k", 4).is_ok());
    assert!(is_conflict(validate_stored(&whole, "other", 4), "stored_object_mismatch"));
    assert!(is_conflict(validate_stored(&whole, "k", 5), "stored_object_mismatch"));
    assert!(stored_checksum(&whole, ObjectChecksumType::FullObject).is_ok());
    assert!(is_conflict(
        stored_checksum(&whole, ObjectChecksumType::Composite),
        "stored_object_checksum_mismatch"
    ));
    assert!(matches!(
        verified_stored_checksum(&object("k", None)),
        Err(AppError::Internal { category: "object_checksum_unavailable" })
    ));
}

#[test]
fn object_keys_tell_what_they_were_made_for() {
    assert_eq!(initial_key(ENTRY), format!("entries/{ENTRY_TEXT}/versions/initial"));
    assert_eq!(multipart_key(ENTRY), format!("multipart/{ENTRY_TEXT}/object"));
    assert_eq!(
        version_key(ENTRY, 1),
        format!("entries/{ENTRY_TEXT}/versions/00000000-0000-0000-0000-000000000001")
    );
}

#[test]
fn content_goes_to_the_organizations_own_storage_where_it_has_one() {
    match resolve_write_target(platform(), &None, "external") {
        Ok((target, reference)) => {
            assert_eq!(target.bucket, "platform");
            assert_eq!(reference.backend(), "platform");
        }
        Err(error) => panic!("{error:?}"),
    }
    match resolve_write_target(platform(), &Some(configuration("active")), "external") {
        Ok((target, reference)) => {
            assert_eq!(target.bucket, "own");
            assert_eq!(target.external_id, Some("external".to_owned()));
            assert_eq!(target.encryption, EncryptionMode::SseKms);
            assert_eq!(reference.backend(), "organization");
            assert_eq!(reference.configuration_id, Some(33));
        }
        Err(error) => panic!("{error:?}"),
    }
    assert!(matches!(
        identify_storage_target(&platform(), &platform(), None),
        Ok(reference) if reference.configuration_id.is_none()
    ));
    let elsewhere = StorageTarget { bucket: "own".to_owned(), ..platform() };
    assert!(matches!(
        identify_storage_target(&elsewhere, &platform(), Some(33)),
        Ok(reference) if reference.configuration_id == Some(33)
    ));
    assert!(is_conflict(
        identify_storage_target(&elsewhere, &platform(), None),
        "storage_target_changed"
    ));
}

fn place(backend: &str, config_id: Option<u128>) -> StoredPlace {
    StoredPlace {
        backend: backend.to_owned(),
        config_id,
        bucket: "b".to_owned(),
        region: "eu".to_owned(),
        prefix: "p/".to_owned(),
        encryption_mode: "sse_s3".to_owned(),
        kms_key_arn: None,
    }
}

#[test]
fn content_stays_where_it_was_stored() {
    match target_for_place(&place("platform", None), None, "external") {
        Ok(target) => assert_eq!(target.role_arn, None),
        Err(error) => panic!("{error:?}"),
    }
    match target_for_place(&place("organization", Some(33)), Some("role"), "external") {
        Ok(target) => {
            assert_eq!(target.bucket, "b");
            assert_eq!(target.role_arn, Some("role".to_owned()));
            assert_eq!(target.external_id, Some("external".to_owned()));
        }
        Err(error) => panic!("{error:?}"),
    }
    assert!(is_bad_data(target_for_place(&place("platform", Some(33)), Some("role"), "x")));
    assert!(is_bad_data(target_for_place(&place("organization", None), Some("role"), "x")));
    assert!(is_bad_data(target_for_place(&place("organization", Some(33)), None, "x")));
    assert!(is_bad_data(target_for_place(&place("other", None), None, "x")));
}

fn configure() -> ConfigureStorageCommand {
    ConfigureStorageCommand {
        bucket_name: "own".to_owned(),
        region: "us".to_owned(),
        role_arn: "role".to_owned(),
        prefix: "p/".to_owned(),
        aws_account_id: "123".to_owned(),
        encryption: EncryptionMode::SseKms,
        kms_key_arn: Some("key".to_owned()),
    }
}

#[test]
fn storage_is_configured_by_administrators_and_once() {
    let run = IdempotencyClaim::Acquired(Some(33));
    assert!(matches!(
        start_storage_configuration(OrganizationRole::Member, true, run, true, 40, &None),
        Err(AppError::Forbidden)
    ));
    assert!(matches!(
        start_storage_configuration(OrganizationRole::Owner, false, run, true, 40, &None),
        Ok(ConfigurationStart::Validate { configuration_id: 40 })
    ));
    assert!(matches!(
        start_storage_configuration(OrganizationRole::Owner, true, run, true, 40, &None),
        Ok(ConfigurationStart::Validate { configuration_id: 33 })
    ));
    match start_storage_configuration(
        OrganizationRole::Owner,
        true,
        IdempotencyClaim::Replay(Some(33)),
        true,
        40,
        &Some(configuration("failed")),
    ) {
        Ok(ConfigurationStart::Replay { result }) => {
            assert!(!result.configured);
            assert_eq!(result.failure_reason, Some("denied".to_owned()));
        }
        other => panic!("{other:?}"),
    }
    assert!(is_conflict(
        storage_configuration_result(&configuration("validating")),
        "idempotency_state"
    ));
    match prepare_storage_configuration(
        &configure(),
        &carbon("owner"),
        33,
        1,
        &Some(configuration("validating")),
        "external",
    ) {
        Ok(preparation) => {
            assert_eq!(preparation.expected_account_id, "123");
            assert!(preparation.change.is_some());
        }
        Err(error) => panic!("{error:?}"),
    }
    assert!(is_conflict(
        prepare_storage_configuration(
            &ConfigureStorageCommand { bucket_name: "x".to_owned(), ..configure() },
            &carbon("owner"),
            33,
            0,
            &Some(configuration("validating")),
            "external",
        ),
        "idempotency_state"
    ));
}

#[test]
fn a_validated_configuration_is_settled_once() {
    let settle = |rows: u64, exists: bool| {
        activate_storage_configuration(
            OrganizationRole::Owner,
            Some(&[7; 32]),
            &running(),
            exists,
            rows,
            33,
            5,
        )
    };
    match settle(1, true) {
        Ok(settlement) => {
            assert!(settlement.result.configured);
            assert_eq!(settlement.change.action, "storage.configuration_activated.v1");
        }
        Err(error) => panic!("{error:?}"),
    }
    assert!(is_conflict(settle(0, true), "storage_configuration_state"));
    assert!(matches!(settle(1, false), Err(AppError::NotFound)));
    match fail_storage_configuration(
        OrganizationRole::Owner,
        None,
        &None,
        true,
        1,
        33,
        5,
        "access_denied",
    ) {
        Ok(settlement) => {
            assert_eq!(settlement.result.failure_reason, Some("access_denied".to_owned()));
        }
        Err(error) => panic!("{error:?}"),
    }
}

#[test]
fn small_uploads_are_prepared_once() {
    let prepare = |claim: IdempotencyClaim| {
        prepare_small_upload(Some(&folder()), claim, true, &None, platform(), &None, "external")
    };
    match prepare(IdempotencyClaim::Acquired(Some(ENTRY))) {
        Ok(PreparedUpload::Acquired { preparation }) => {
            assert_eq!(preparation.entry_id, ENTRY);
            assert_eq!(preparation.key, format!("entries/{ENTRY_TEXT}/versions/initial"));
            assert_eq!(preparation.target.bucket, "platform");
        }
        other => panic!("{other:?}"),
    }
    assert!(matches!(
        prepare(IdempotencyClaim::Replay(Some(ENTRY))),
        Ok(PreparedUpload::Replay { entry_id: ENTRY })
    ));
    assert!(is_conflict(prepare(IdempotencyClaim::Acquired(None)), "idempotency_state"));
}

fn small_upload(minutes: Option<u32>) -> SmallUpload {
    SmallUpload {
        name: "plan.txt".to_owned(),
        content_type: "text/plain".to_owned(),
        request_hash: [7; 32],
        self_destruct_minutes: minutes,
        size: 4,
        sha256: DIGEST,
    }
}

fn preparation() -> SmallUploadPreparation {
    SmallUploadPreparation { entry_id: ENTRY, target: platform(), key: "k".to_owned() }
}

fn upload_facts(child: Option<NamedChild>) -> UploadFacts {
    UploadFacts {
        state: running(),
        platform: platform(),
        configuration_id: None,
        child,
        version_id: 60,
        next_number: 3,
    }
}

fn commit(
    upload: &SmallUpload,
    stored: StoredObject,
    child: Option<NamedChild>,
) -> Result<Publication, AppError> {
    let existing = entry(5, EntryKind::File, true);
    commit_small_upload(
        &context(),
        upload,
        &preparation(),
        stored,
        Some(&folder()),
        Some(&existing),
        &upload_facts(child),
    )
}

fn whole() -> StoredObject {
    object("k", Some(checksum(ObjectChecksumType::FullObject, ENCODED)))
}

fn existing_file() -> Option<NamedChild> {
    Some(NamedChild { entry_id: stored_id(5), entry_type: "file".to_owned() })
}

#[test]
fn new_files_start_at_their_first_version() {
    match commit(&small_upload(None), whole(), None) {
        Ok(Publication::Create { plan }) => {
            assert_eq!(plan.file.entry_id, ENTRY);
            assert_eq!(plan.file.parent_id, 1);
            assert_eq!(plan.file.origin_app_id, Some("tos>notes".to_owned()));
            assert_eq!(plan.version.version_number, 1);
            assert_eq!(plan.version.version_id, plan.file.current_version_id);
            assert_eq!(plan.version.checksum_value, ENCODED);
            assert_eq!(plan.version.source, "upload");
            assert_eq!(plan.changes.len(), 1);
            assert_eq!(plan.changes[0].action, "entry.file_created.v1");
        }
        other => panic!("{other:?}"),
    }
}

#[test]
fn uploading_over_a_file_publishes_its_next_version() {
    match commit(&small_upload(None), whole(), existing_file()) {
        Ok(publication) => {
            assert_eq!(publication.entry_id(), 5);
            match publication {
                Publication::Version { plan } => {
                    assert_eq!(plan.version.version_number, 3);
                    assert_eq!(plan.change.action, "entry.version_created.v1");
                }
                other => panic!("{other:?}"),
            }
        }
        Err(error) => panic!("{error:?}"),
    }
}

#[test]
fn self_destruct_is_chosen_only_for_a_new_file() {
    match commit(&small_upload(Some(1)), whole(), None) {
        Ok(Publication::Create { plan }) => {
            assert_eq!(plan.file.self_destruct_minutes, Some(1));
            assert!(plan.changes.iter().any(|c| c.action == "entry.self_destruct_set.v1"));
        }
        other => panic!("{other:?}"),
    }
    assert!(matches!(
        commit(&small_upload(Some(5)), whole(), existing_file()),
        Err(AppError::Conflict { .. })
    ));
}

#[test]
fn only_the_staged_bytes_are_published() {
    let other = object("k", Some(checksum(ObjectChecksumType::FullObject, "other")));
    assert!(is_conflict(
        commit(&small_upload(None), other, None),
        "stored_object_checksum_mismatch"
    ));
    assert!(is_conflict(
        commit(&SmallUpload { sha256: [0; 32], ..small_upload(None) }, whole(), None),
        "stored_object_checksum_mismatch"
    ));
    assert!(is_conflict(
        commit(&small_upload(None), object("x", None), None),
        "stored_object_mismatch"
    ));
    let taken = Some(NamedChild { entry_id: stored_id(5), entry_type: "folder".to_owned() });
    assert!(is_conflict(commit(&small_upload(None), whole(), taken), "entry_name_exists"));
    let facts = UploadFacts { state: None, ..upload_facts(None) };
    assert!(is_conflict(
        commit_encoded_upload(
            &context(),
            &small_upload(None),
            &preparation(),
            whole(),
            ENCODED,
            Some(&folder()),
            None,
            &facts,
        ),
        "idempotency_state"
    ));
}

fn plan() -> MultipartPlan {
    MultipartPlan { file_size: 12, part_size: 5, part_count: 3, sizes: vec![5, 5, 2] }
}

fn upload_row(status: &str) -> MultipartUploadRow {
    MultipartUploadRow {
        upload_id: stored_id(70),
        parent_entry_id: stored_id(1),
        owner_type: "carbon".to_owned(),
        owner_id: "owner".to_owned(),
        origin_app_id: Some("tos>notes".to_owned()),
        name: "plan.txt".to_owned(),
        content_type: "text/plain".to_owned(),
        declared_size_bytes: 12,
        part_size_bytes: 5,
        expected_part_count: 3,
        place: place("platform", None),
        object_key: accepted("k"),
        provider_upload_id: "provider".to_owned(),
        status: status.to_owned(),
        expires_at: 100,
    }
}

#[test]
fn durable_multipart_completion_cannot_be_aborted() {
    assert!(matches!(
        multipart_abort_disposition("completing"),
        Ok(MultipartAbortDisposition::Reject)
    ));
    assert!(matches!(
        multipart_abort_disposition("completed"),
        Ok(MultipartAbortDisposition::Reject)
    ));
}

#[test]
fn durable_multipart_completion_survives_session_expiry() {
    let now: i128 = 1_788_177_600_000_000_000;
    let expired_at = now - 60_000_000_000;

    assert!(multipart_completion_expired("uploading", expired_at, now));
    assert!(!multipart_completion_expired("completing", expired_at, now));
    assert!(!multipart_completion_expired("completed", expired_at, now));
}

#[test]
fn plans_are_the_ones_that_uploads_were_started_with() {
    assert!(multipart_plan(&upload_row("initiated"), Some(plan())).is_ok());
    assert!(is_bad_data(multipart_plan(&upload_row("initiated"), None)));
    let other = MultipartPlan { part_count: 4, ..plan() };
    assert!(is_bad_data(multipart_plan(&upload_row("initiated"), Some(other))));
    let negative = MultipartUploadRow { declared_size_bytes: -1, ..upload_row("initiated") };
    assert!(is_bad_data(multipart_plan(&negative, Some(plan()))));
    match multipart_receipt(&upload_row("initiated"), Some(plan())) {
        Ok(receipt) => {
            assert_eq!(receipt.upload_id, 70);
            assert_eq!(receipt.part_count, 3);
        }
        Err(error) => panic!("{error:?}"),
    }
    assert_eq!(plan().expected_part_size(3), Some(2));
    assert_eq!(plan().expected_part_size(0), None);
    assert_eq!(plan().expected_part_size(4), None);
}

#[test]
fn uploads_belong_to_a_member_through_an_application() {
    let authorization = context().authorization;
    assert!(authorize_multipart_owner(&authorization, &upload_row("initiated")).is_ok());
    let direct = MultipartUploadRow { origin_app_id: None, ..upload_row("initiated") };
    assert!(matches!(
        authorize_multipart_owner(&authorization, &direct),
        Err(AppError::NotFound)
    ));
    let other = MultipartUploadRow { owner_id: "x".to_owned(), ..upload_row("initiated") };
    assert!(authorize_multipart_owner(&authorization, &other).is_err());
}

#[test]
fn multipart_uploads_are_started_once() {
    let prepare = |claim: IdempotencyClaim, recorded: Option<MultipartUploadRow>| {
        prepare_multipart(
            Some(&folder()),
            claim,
            true,
            &recorded,
            Some(plan()),
            &None,
            platform(),
            &None,
            "external",
            plan(),
            100,
        )
    };
    let prepared = match prepare(IdempotencyClaim::Acquired(Some(70)), None) {
        Ok(PreparedMultipart::Acquired { preparation }) => preparation,
        other => panic!("{other:?}"),
    };
    assert_eq!(prepared.key, "multipart/00000000-0000-0000-0000-000000000046/object");
    assert!(matches!(
        prepare(IdempotencyClaim::Replay(Some(70)), Some(upload_row("uploading"))),
        Ok(PreparedMultipart::Replay { receipt }) if receipt.upload_id == 70
    ));
    assert!(is_conflict(prepare(IdempotencyClaim::Replay(Some(70)), None), "idempotency_state"));
    let command = InitiateMultipart {
        parent_id: 1,
        name: "plan.txt".to_owned(),
        content_type: "text/plain".to_owned(),
        request_hash: [7; 32],
    };
    let start = |provider: &str| {
        commit_multipart_initialization(
            &context(),
            &command,
            &prepared,
            provider,
            Some(&folder()),
            &running(),
            &platform(),
            None,
        )
    };
    match start("provider") {
        Ok(started) => {
            assert_eq!(started.upload.declared_size_bytes, 12);
            assert_eq!(started.upload.storage_backend, "platform");
            assert_eq!(started.change.action, "multipart.initiated.v1");
            assert_eq!(started.receipt.part_size, 5);
        }
        Err(error) => panic!("{error:?}"),
    }
    assert!(is_validation(start("  "), "invalid_provider_upload_id"));
}

#[test]
fn parts_are_taken_only_while_an_upload_collects() {
    let authorize = |row: MultipartUploadRow, part: u32, now: i128| {
        authorize_multipart_part(
            &context(),
            &Some(row),
            Some(plan()),
            part,
            now,
            Some(&folder()),
            None,
            "external",
        )
    };
    match authorize(upload_row("uploading"), 3, 99) {
        Ok(target) => {
            assert_eq!(target.address.key, "k");
            assert_eq!(target.address.provider_upload_id, "provider");
        }
        Err(error) => panic!("{error:?}"),
    }
    assert!(is_conflict(authorize(upload_row("uploading"), 3, 100), "multipart_not_uploadable"));
    assert!(is_conflict(authorize(upload_row("completing"), 3, 0), "multipart_not_uploadable"));
    assert!(is_validation(authorize(upload_row("uploading"), 4, 0), "invalid_part_number"));
    let record = |etag: &str, size: u64| {
        record_multipart_part(
            &context(),
            &Some(upload_row("initiated")),
            Some(plan()),
            3,
            etag,
            size,
            DIGEST,
            0,
            Some(&folder()),
        )
    };
    match record("e", 2) {
        Ok(part) => {
            assert_eq!(part.part_number, 3);
            assert_eq!(part.size_bytes, 2);
            assert_eq!(part.checksum_sha256, DIGEST);
        }
        Err(error) => panic!("{error:?}"),
    }
    assert!(is_validation(record(" ", 2), "invalid_part_etag"));
    assert!(is_validation(record("e", 5), "invalid_part_size"));
}

fn part_row(number: i32, size: i64) -> MultipartPartRow {
    MultipartPartRow {
        part_number: number,
        etag: format!("e{number}"),
        size_bytes: size,
        checksum_sha256: DIGEST.to_vec(),
        accepted: true,
    }
}

fn part_rows() -> Vec<MultipartPartRow> {
    vec![part_row(1, 5), part_row(2, 5), part_row(3, 2)]
}

fn client_parts() -> Vec<ClientCompletedPart> {
    (1..=3)
        .map(|number| ClientCompletedPart { part_number: number, etag: format!("e{number}") })
        .collect()
}

#[test]
fn completed_parts_are_the_recorded_ones() {
    match completion_parts(&plan(), &part_rows(), &client_parts()) {
        Ok(parts) => {
            assert_eq!(parts.len(), 3);
            assert_eq!(parts[2].size, 2);
            assert_eq!(parts[2].etag, "e3");
            assert_eq!(parts[0].sha256, DIGEST);
        }
        Err(error) => panic!("{error:?}"),
    }
    let refused = "invalid_multipart_completion";
    let short: Vec<MultipartPartRow> = part_rows().into_iter().take(2).collect();
    assert!(is_validation(completion_parts(&plan(), &short, &client_parts()), refused));
    let mut changed = client_parts();
    changed[1].etag = "x".to_owned();
    assert!(is_validation(completion_parts(&plan(), &part_rows(), &changed), refused));
    let mut wrong_size = part_rows();
    wrong_size[0].size_bytes = 4;
    assert!(is_validation(completion_parts(&plan(), &wrong_size, &client_parts()), refused));
    let mut bad_digest = part_rows();
    bad_digest[0].checksum_sha256 = vec![1];
    assert!(is_bad_data(completion_parts(&plan(), &bad_digest, &client_parts())));
    let mut negative = part_rows();
    negative[0].part_number = -1;
    assert!(is_bad_data(completion_parts(&plan(), &negative, &client_parts())));
}

#[test]
fn completions_are_prepared_and_published_once() {
    let prepare = |row: MultipartUploadRow, claim: IdempotencyClaim, now: i128| {
        prepare_multipart_completion(
            &context(),
            &Some(row),
            now,
            Some(&folder()),
            claim,
            true,
            Some(plan()),
            &part_rows(),
            &client_parts(),
            None,
            "external",
        )
    };
    let run = IdempotencyClaim::Acquired(Some(ENTRY));
    let prepared = match prepare(upload_row("uploading"), run, 99) {
        Ok(PreparedCompletion::Acquired { preparation, enters_completion }) => {
            assert!(enters_completion);
            preparation
        }
        other => panic!("{other:?}"),
    };
    assert_eq!(prepared.parts.len(), 3);
    assert!(matches!(
        prepare(upload_row("completing"), run, 1_000),
        Ok(PreparedCompletion::Acquired { enters_completion: false, .. })
    ));
    assert!(is_conflict(prepare(upload_row("uploading"), run, 100), "multipart_expired"));
    assert!(is_conflict(prepare(upload_row("aborted"), run, 0), "multipart_not_completable"));
    assert!(matches!(
        prepare(upload_row("completed"), IdempotencyClaim::Replay(Some(ENTRY)), 1_000),
        Ok(PreparedCompletion::Replay { entry_id: ENTRY })
    ));
    assert!(entered_completion(1).is_ok());
    assert!(is_conflict(entered_completion(0), "multipart_state"));

    let joined = StoredObject {
        size: 12,
        ..object("k", Some(checksum(ObjectChecksumType::Composite, "v-3")))
    };
    let publish = |stored: StoredObject, row: MultipartUploadRow| {
        commit_multipart_completion(
            &context(),
            &prepared,
            stored,
            &Some(row),
            Some(&folder()),
            None,
            &CompletionFacts {
                request_hash: [7; 32],
                state: running(),
                child: None,
                version_id: 60,
                next_number: 1,
            },
            None,
            "external",
        )
    };
    match publish(joined.clone(), upload_row("completing")) {
        Ok(Publication::Create { plan }) => {
            assert_eq!(plan.file.name, "plan.txt");
            assert_eq!(plan.version.checksum_type, "composite");
        }
        other => panic!("{other:?}"),
    }
    assert!(is_conflict(publish(joined.clone(), upload_row("uploading")), "multipart_state"));
    let moved = MultipartUploadRow {
        place: StoredPlace { bucket: "x".to_owned(), ..place("platform", None) },
        ..upload_row("completing")
    };
    assert!(is_conflict(publish(joined, moved), "storage_target_changed"));
}

#[test]
fn stopped_uploads_are_cleaned_up() {
    match abort_multipart(&context(), &Some(upload_row("uploading")), None, "external") {
        Ok(Some(abort)) => {
            assert_eq!(abort.cleanup.source_upload_id, 70);
            assert_eq!(abort.cleanup.cleanup_kind, "multipart_abort");
            assert_eq!(abort.change.action, "multipart.aborted.v1");
            assert_eq!(abort.address.key, "k");
        }
        other => panic!("{other:?}"),
    }
    assert!(matches!(abort_multipart(&context(), &None, None, "x"), Ok(None)));
    assert!(matches!(
        abort_multipart(&context(), &Some(upload_row("expired")), None, "x"),
        Ok(None)
    ));
    assert!(is_conflict(
        abort_multipart(&context(), &Some(upload_row("completing")), None, "x"),
        "multipart_not_abortable"
    ));
    assert!(is_bad_data(abort_multipart(&context(), &Some(upload_row("x")), None, "x")));
}

fn version() -> VersionContentRow {
    VersionContentRow {
        place: place("platform", None),
        object_key: accepted("k"),
        object_version_id: Some("v1".to_owned()),
        checksum_algorithm: "sha256".to_owned(),
        checksum_type: "full_object".to_owned(),
        checksum_value: accepted(ENCODED),
        size_bytes: 4,
        content_type: "text/plain".to_owned(),
    }
}

#[test]
fn downloads_read_the_current_version() {
    let file = entry(5, EntryKind::File, true);
    assert!(matches!(version_to_read(Some(&file)), Ok(9)));
    match authorize_download(Some(&file), &Some(version()), None, "external") {
        Ok(target) => {
            assert_eq!(target.filename, "plan.txt");
            assert_eq!(target.size, 4);
            assert_eq!(target.provider_version_id, Some("v1".to_owned()));
        }
        Err(error) => panic!("{error:?}"),
    }
    assert!(matches!(
        authorize_download(Some(&entry(5, EntryKind::File, false)), &Some(version()), None, "x"),
        Err(AppError::Forbidden)
    ));
    assert!(matches!(
        authorize_download(Some(&folder()), &Some(version()), None, "x"),
        Err(AppError::NotFound)
    ));
    assert!(matches!(
        authorize_download(Some(&file), &None, None, "x"),
        Err(AppError::NotFound)
    ));
    match record_content_access(Some(&file), "entry.downloaded.v1") {
        Ok(record) => {
            assert_eq!(record.entry_id, 5);
            assert_eq!(record.action, "entry.downloaded.v1");
        }
        Err(error) => panic!("{error:?}"),
    }
    assert!(record_content_access(None, "entry.downloaded.v1").is_err());
}

#[test]
fn restores_copy_a_version_and_make_it_current() {
    let file = entry(ENTRY, EntryKind::File, true);
    let prepare = |claim: IdempotencyClaim, rows: u64| {
        prepare_version_restore(
            Some(&file),
            &Some(version()),
            claim,
            rows,
            true,
            None,
            "external",
            platform(),
            &None,
        )
    };
    let run = IdempotencyClaim::Acquired(Some(1));
    let prepared = match prepare(run, 1) {
        Ok(PreparedRestore::Acquired { preparation }) => preparation,
        other => panic!("{other:?}"),
    };
    assert_eq!(
        prepared.destination_key,
        format!("entries/{ENTRY_TEXT}/versions/00000000-0000-0000-0000-000000000001")
    );
    assert_eq!(prepared.checksum.value, ENCODED);
    assert!(is_conflict(prepare(run, 0), "idempotency_state"));
    assert!(matches!(
        prepare(IdempotencyClaim::Replay(None), 0),
        Ok(PreparedRestore::Replay { entry_id: ENTRY })
    ));
    let facts = RestoreFacts {
        version_id: 9,
        source_exists: true,
        request_hash: [7; 32],
        state: running(),
        platform: platform(),
        configuration_id: None,
        next_number: 4,
    };
    let copied = StoredObject { key: prepared.destination_key.clone(), ..whole() };
    match commit_version_restore(&prepared, copied.clone(), Some(&file), &facts, &carbon("owner")) {
        Ok(plan) => {
            assert_eq!(plan.version.source, "restore");
            assert_eq!(plan.version.restored_from_version_id, Some(9));
            assert_eq!(plan.version.version_number, 4);
            assert_eq!(plan.change.action, "entry.version_restored.v1");
        }
        Err(error) => panic!("{error:?}"),
    }
    let gone = RestoreFacts { source_exists: false, ..facts.clone() };
    assert!(matches!(
        commit_version_restore(&prepared, copied, Some(&file), &gone, &carbon("owner")),
        Err(AppError::NotFound)
    ));
    assert!(is_conflict(
        commit_version_restore(&prepared, whole(), Some(&file), &facts, &carbon("owner")),
        "stored_object_mismatch"
    ));
}
