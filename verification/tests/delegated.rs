use silicon_briefcase::error::AppError;
use silicon_briefcase::ids::{Candidate, StoredId};
use silicon_briefcase::model::{
    ActorKind, ActorRef, AuthenticationMode, AuthorizableEntry, EntryAccess, EntryBoundary,
    EntryKind, EntryView, ExecutionContext, GrantedAccess, IamMembershipBinding,
    OrganizationRole, RequestAuthContext, TestingEnvironmentContext,
};
use silicon_briefcase::postgres::content::delegated::commit::{
    commit, objects_match, prepare_commit, CommitFacts, CommitOutcome,
    PrepareDelegatedUploadCommit,
};
use silicon_briefcase::postgres::content::delegated::reservation::{
    check_reservation, check_room, delegated_key, repeat_reservation, reserve, ReservationFacts,
    ReserveDelegatedUpload, StagingRoom, MAX_PENDING_RESERVATIONS,
};
use silicon_briefcase::postgres::content::delegated::transfer::{
    before_provider_completion, before_provider_write, claim_transfer, complete_encoded_transfer,
    complete_transfer, fail_transfer, provider_timeout_millis, record_multipart, scope_begin,
    DelegatedUploadScope, DelegatedUploadTransfer, TransferFailure,
};
use silicon_briefcase::postgres::content::delegated::{
    cancel, cleanup_deadline, delegated_identity, describe, expire, validate_scope,
    DelegatedUploadState, UploadRow,
};
use silicon_briefcase::postgres::content::objects::{
    ObjectChecksum, ObjectChecksumAlgorithm, ObjectChecksumType, StoredObject,
};
use silicon_briefcase::postgres::content::publishing::Publication;
use silicon_briefcase::postgres::content::storage::{EncryptionMode, StorageTarget};
use silicon_briefcase::postgres::content::NamedChild;

const SECOND: i128 = 1_000_000_000;
const NOW: i128 = 1_788_177_600 * SECOND;
const DIGEST: [u8; 32] = [
    100, 135, 159, 125, 107, 150, 10, 1, 144, 151, 98, 217, 17, 163, 45, 69, 130, 194, 0, 16, 197,
    100, 30, 233, 2, 120, 182, 68, 169, 227, 181, 37,
];
const ENCODED: &str = "ZIeffWuWCgGQl2LZEaMtRYLCABDFZB7pAni2RKnjtSU=";

fn row(status: &str) -> UploadRow {
    UploadRow {
        upload_id: 70,
        operation_id: 71,
        testing_environment_id: None,
        control_version: 0,
        request_hash: vec![7; 32],
        capability_hash: Some(vec![9; 32]),
        parent_id: StoredId { value: 1, accepted: true },
        parent_path: "private/owner".to_owned(),
        name: "plan.txt".to_owned(),
        content_type: "text/plain".to_owned(),
        size_bytes: 4,
        expected_sha256: DIGEST.to_vec(),
        destination_entry_id: None,
        proposed_entry_id: StoredId { value: 72, accepted: true },
        status: status.to_owned(),
        expires_at: NOW + 3_600 * SECOND,
        lease_token: None,
        lease_expires_at: None,
        provider_write_started: false,
        provider_completion_started: false,
        provider_deadline_at: None,
        provider_upload_id: None,
        storage_backend: "platform".to_owned(),
        storage_config_id: None,
        bucket_name: "platform".to_owned(),
        storage_region: "eu".to_owned(),
        storage_prefix: "tos/".to_owned(),
        storage_role_arn: None,
        storage_external_id: None,
        storage_encryption_mode: "sse_s3".to_owned(),
        storage_kms_key_arn: None,
        object_key: Candidate { text: "k".to_owned(), accepted: true },
        object_version_id: None,
        object_etag: Some("etag".to_owned()),
        object_checksum_type: Some("full_object".to_owned()),
        object_checksum_value: Some(Candidate { text: ENCODED.to_owned(), accepted: true }),
        published_entry_id: None,
    }
}

fn receiving() -> UploadRow {
    UploadRow {
        lease_token: Some(80),
        lease_expires_at: Some(NOW + 600 * SECOND),
        provider_write_started: true,
        provider_completion_started: true,
        ..row("receiving")
    }
}

fn platform() -> StorageTarget {
    StorageTarget {
        bucket: "platform".to_owned(),
        region: "eu".to_owned(),
        prefix: "tos/".to_owned(),
        role_arn: None,
        external_id: None,
        encryption: EncryptionMode::SseS3,
        kms_key_arn: None,
    }
}

fn transfer() -> DelegatedUploadTransfer {
    DelegatedUploadTransfer {
        operation_id: 71,
        upload_id: 70,
        lease_token: 80,
        lease_expires_at: NOW + 600 * SECOND,
        target: platform(),
        key: "k".to_owned(),
        content_type: "text/plain".to_owned(),
        size: 4,
        sha256: DIGEST,
    }
}

fn object() -> StoredObject {
    StoredObject {
        key: "k".to_owned(),
        etag: Some("etag".to_owned()),
        provider_version_id: None,
        size: 4,
        checksum: Some(ObjectChecksum {
            algorithm: ObjectChecksumAlgorithm::Sha256,
            kind: ObjectChecksumType::FullObject,
            value: ENCODED.to_owned(),
        }),
    }
}

fn carbon(id: &str) -> ActorRef {
    ActorRef { kind: ActorKind::Carbon, id: id.to_owned() }
}

fn context(application: bool) -> ExecutionContext {
    ExecutionContext {
        authorization: RequestAuthContext {
            organization_id: "tos".to_owned(),
            actor: carbon("owner"),
            role: OrganizationRole::Member,
            tags: None,
            authentication: if application {
                AuthenticationMode::OnBehalfOf { application_id: "tos>notes".to_owned() }
            } else {
                AuthenticationMode::Bearer
            },
            binding: Some(IamMembershipBinding {
                organization_id: 11,
                principal_id: 12,
                membership_id: 13,
                membership_version: 1,
                authorization_epoch: 1,
                tags: None,
            }),
        },
        testing_environment: None,
        request_id: "request-1".to_owned(),
    }
}

fn entry(id: u128, kind: EntryKind) -> AuthorizableEntry {
    AuthorizableEntry {
        entry: EntryView {
            id,
            organization_id: "tos".to_owned(),
            kind,
            name: "plan.txt".to_owned(),
            path: "private/owner/plan.txt".to_owned(),
            parent_id: Some(1),
            boundary: EntryBoundary::Private,
            owner: carbon("owner"),
            origin_application_id: None,
            content_type: None,
            size: None,
            current_version_id: Some(9),
            created_at: 10,
            updated_at: 20,
            deleted_at: None,
        },
        system_kind: None,
        reserved: false,
        self_destruct_at: None,
        access: EntryAccess {
            read: true,
            create_child: true,
            write_content: true,
            update_metadata: true,
            delete: true,
            manage_permissions: true,
            fully_visible: true,
            satisfied: GrantedAccess { read: false, write: false, update: false, delete: false },
        },
    }
}

fn command() -> ReserveDelegatedUpload {
    ReserveDelegatedUpload {
        operation_id: 71,
        request_hash: [7; 32],
        parent_id: 1,
        parent_path: "private/owner".to_owned(),
        name: "plan.txt".to_owned(),
        content_type: "text/plain".to_owned(),
        size: 4,
        sha256: DIGEST,
    }
}

fn is_conflict<T>(result: Result<T, AppError>, expected: &str) -> bool {
    matches!(result, Err(AppError::Conflict { code }) if code == expected)
}

fn is_bad_data<T>(result: Result<T, AppError>) -> bool {
    matches!(result, Err(AppError::Internal { category: "persisted_data" }))
}

fn state_of(status: &str) -> DelegatedUploadState {
    match row(status).status() {
        Ok(described) => described.state,
        Err(error) => panic!("{error:?}"),
    }
}

#[test]
fn stored_statuses_are_read_strictly() {
    assert_eq!(state_of("reserved"), DelegatedUploadState::Reserved);
    assert_eq!(state_of("receiving"), DelegatedUploadState::Receiving);
    assert_eq!(state_of("staged"), DelegatedUploadState::Staged);
    assert_eq!(state_of("committed"), DelegatedUploadState::Committed);
    assert_eq!(state_of("cancelled"), DelegatedUploadState::Cancelled);
    assert_eq!(state_of("expired"), DelegatedUploadState::Expired);
    assert_eq!(state_of("cleanup_pending"), DelegatedUploadState::CleanupPending);
    assert!(is_bad_data(row("other").status()));
    assert!(matches!(row("staged").sha256(), Ok(digest) if digest == DIGEST));
    assert!(is_bad_data(UploadRow { expected_sha256: vec![1], ..row("staged") }.sha256()));
    assert!(is_bad_data(UploadRow { object_checksum_type: None, ..row("staged") }.stored()));
    assert!(matches!(row("staged").key(), Ok(key) if key == "k"));
}

#[test]
fn only_an_application_that_acts_for_a_bound_member_delegates() {
    match delegated_identity(&context(true)) {
        Ok(identity) => {
            assert_eq!(identity.organization, 11);
            assert_eq!(identity.principal, 12);
            assert_eq!(identity.membership, 13);
            assert_eq!(identity.application, "tos>notes");
            assert_eq!(identity.actor_type, "carbon");
            assert_eq!(identity.control_version, 0);
        }
        Err(error) => panic!("{error:?}"),
    }
    assert!(matches!(delegated_identity(&context(false)), Err(AppError::Forbidden)));
    let mut unbound = context(true);
    unbound.authorization.binding = None;
    assert!(matches!(delegated_identity(&unbound), Err(AppError::Forbidden)));
}

#[test]
fn expired_uploads_are_settled_once() {
    let late = NOW + 3_600 * SECOND;
    let mut reserved = row("reserved");
    match expire(&mut reserved, late) {
        Ok(Some(settlement)) => {
            assert_eq!(settlement.status, "expired");
            assert_eq!(settlement.cleanup_after, None);
        }
        other => panic!("{other:?}"),
    }
    assert_eq!(reserved.status, "expired");
    assert_eq!(reserved.capability_hash, None);
    assert!(matches!(expire(&mut reserved, late + SECOND), Ok(None)));

    let mut written = receiving();
    match expire(&mut written, late) {
        Ok(Some(settlement)) => {
            assert_eq!(settlement.status, "cleanup_pending");
            assert_eq!(settlement.cleanup_after, Some(late + 120 * SECOND));
        }
        other => panic!("{other:?}"),
    }
    let mut committed = row("committed");
    assert!(matches!(expire(&mut committed, late), Ok(None)));
    assert_eq!(committed.status, "committed");
    let mut going = row("reserved");
    assert!(matches!(expire(&mut going, late - 1), Ok(None)));
}

#[test]
fn cleanup_waits_for_the_lease_and_the_store() {
    assert!(matches!(
        cleanup_deadline(&receiving(), NOW),
        Ok(time) if time == NOW + 720 * SECOND
    ));
    let busy = UploadRow { provider_deadline_at: Some(NOW + 900 * SECOND), ..receiving() };
    assert!(matches!(
        cleanup_deadline(&busy, NOW),
        Ok(time) if time == NOW + 1_020 * SECOND
    ));
    assert!(is_bad_data(cleanup_deadline(&row("staged"), i128::MAX)));
}

#[test]
fn uploads_belong_to_one_generation_of_one_environment() {
    let plane = TestingEnvironmentContext { id: 4, control_version: 2 };
    assert!(validate_scope(&row("reserved"), None).is_ok());
    assert!(matches!(
        validate_scope(&row("reserved"), Some(plane)),
        Err(AppError::NotFound)
    ));
    let testing = UploadRow {
        testing_environment_id: Some(4),
        control_version: 1,
        ..row("reserved")
    };
    assert!(validate_scope(&testing, Some(plane)).is_err());
    let scope = DelegatedUploadScope {
        organization_id: "tos".to_owned(),
        testing_environment: Some(plane),
        request_id: "request-1".to_owned(),
    };
    assert_eq!(
        scope_begin(&scope).org_id(),
        "00000000-0000-0000-0000-000000000004:tos"
    );
    assert_eq!(scope_begin(&scope).actor_type(), "service");
    assert_eq!(scope_begin(&scope).actor_id(), "testing-environment");
}

#[test]
fn uploads_are_described_and_cancelled() {
    assert!(matches!(describe(None, NOW), Err(AppError::NotFound)));
    match describe(Some(row("reserved")), NOW + 4_000 * SECOND) {
        Ok(described) => {
            assert_eq!(described.status.state, DelegatedUploadState::Expired);
            assert!(described.settlement.is_some());
        }
        Err(error) => panic!("{error:?}"),
    }
    match cancel(Some(row("reserved")), NOW, NOW) {
        Ok(described) => {
            assert_eq!(described.status.state, DelegatedUploadState::Cancelled);
        }
        Err(error) => panic!("{error:?}"),
    }
    match cancel(Some(receiving()), NOW, NOW) {
        Ok(described) => {
            assert_eq!(described.status.state, DelegatedUploadState::CleanupPending);
        }
        Err(error) => panic!("{error:?}"),
    }
    match cancel(Some(row("committed")), NOW, NOW) {
        Ok(described) => {
            assert_eq!(described.status.state, DelegatedUploadState::Committed);
            assert!(described.settlement.is_none());
        }
        Err(error) => panic!("{error:?}"),
    }
}

fn room() -> StagingRoom {
    StagingRoom { count: 0, bytes: 0, max_upload_bytes: 100, quota_refusal: None }
}

fn facts(child: Option<NamedChild>) -> ReservationFacts {
    let identity = match delegated_identity(&context(true)) {
        Ok(identity) => identity,
        Err(error) => panic!("{error:?}"),
    };
    ReservationFacts {
        identity,
        environment: None,
        capability_hash: [9; 32],
        upload_id: 70,
        proposed_entry_id: 72,
        platform: platform(),
        active: None,
        child,
    }
}

fn reserve_until(
    expires_at: i128,
    room: &StagingRoom,
) -> Result<silicon_briefcase::postgres::content::delegated::reservation::Reservation, AppError> {
    reserve(
        &command(),
        &Ok(entry(1, EntryKind::Folder)),
        room,
        facts(None),
        "external",
        expires_at,
        NOW,
    )
}

#[test]
fn room_is_reserved_for_a_day_at_most() {
    match reserve_until(NOW + 200_000 * SECOND, &room()) {
        Ok(reservation) => {
            assert_eq!(reservation.upload.expires_at, NOW + 86_400 * SECOND);
            assert_eq!(reservation.status.state, DelegatedUploadState::Reserved);
            assert_eq!(
                reservation.upload.object_key,
                "delegated/00000000-0000-0000-0000-000000000046/object"
            );
            assert_eq!(reservation.upload.storage_backend, "platform");
        }
        Err(error) => panic!("{error:?}"),
    }
    assert!(matches!(
        reserve_until(NOW, &room()),
        Err(AppError::Validation { code: "invalid_delegated_upload_expiration" })
    ));
    assert_eq!(delegated_key(0x46), "delegated/00000000-0000-0000-0000-000000000046/object");
    assert!(matches!(
        reserve(
            &command(),
            &Err(AppError::Forbidden),
            &room(),
            facts(None),
            "external",
            NOW + SECOND,
            NOW,
        ),
        Err(AppError::Forbidden)
    ));
}

#[test]
fn staging_is_bounded_in_number_and_bytes() {
    let limit = "delegated_upload_staging_limit_exhausted";
    assert!(check_room(&room(), 100).is_ok());
    assert!(is_conflict(check_room(&room(), 101), limit));
    let full = StagingRoom { count: MAX_PENDING_RESERVATIONS, ..room() };
    assert!(is_conflict(check_room(&full, 0), limit));
    assert!(is_bad_data(check_room(&StagingRoom { bytes: -1, ..room() }, 0)));
    let refused = StagingRoom { quota_refusal: Some(AppError::Forbidden), ..room() };
    assert!(matches!(check_room(&refused, 0), Err(AppError::Forbidden)));
    assert!(is_conflict(reserve_until(NOW + SECOND, &full), limit));
    assert!(check_reservation(&command(), 4).is_ok());
    assert!(check_reservation(&command(), 3).is_err());
    let nil = ReserveDelegatedUpload { operation_id: 0, ..command() };
    assert!(check_reservation(&nil, 4).is_err());
}

#[test]
fn repeated_reservations_are_answered_from_the_first() {
    let parent = Ok(entry(1, EntryKind::Folder));
    match repeat_reservation(row("reserved"), &command(), NOW, &parent, &None, None) {
        Ok(repeated) => {
            assert!(repeated.renews_capability);
            assert_eq!(repeated.status.upload_id, 70);
        }
        Err(error) => panic!("{error:?}"),
    }
    let other = ReserveDelegatedUpload { request_hash: [8; 32], ..command() };
    assert!(is_conflict(
        repeat_reservation(row("reserved"), &other, NOW, &parent, &None, None),
        "idempotency_key_reused"
    ));
    let taken = Some(NamedChild {
        entry_id: StoredId { value: 5, accepted: true },
        entry_type: "file".to_owned(),
    });
    assert!(is_conflict(
        repeat_reservation(row("reserved"), &command(), NOW, &parent, &taken, None),
        "delegated_upload_destination_changed"
    ));
    match repeat_reservation(row("receiving"), &command(), NOW, &parent, &taken, None) {
        Ok(repeated) => assert!(!repeated.renews_capability),
        Err(error) => panic!("{error:?}"),
    }
    let committed = UploadRow {
        published_entry_id: Some(StoredId { value: 72, accepted: true }),
        ..row("committed")
    };
    let file = entry(72, EntryKind::File);
    assert!(
        repeat_reservation(committed.clone(), &command(), NOW, &parent, &None, Some(&file)).is_ok()
    );
    assert!(matches!(
        repeat_reservation(committed, &command(), NOW, &parent, &None, None),
        Err(AppError::NotFound)
    ));
}

fn claim(row: UploadRow, hash: u8, seconds: i64) -> Result<DelegatedUploadTransfer, AppError> {
    claim_transfer(Some(row), None, &[hash; 32], seconds, NOW, NOW, 80)
}

#[test]
fn bytes_are_admitted_by_the_capability_alone() {
    match claim(row("reserved"), 9, 600) {
        Ok(claimed) => {
            assert_eq!(claimed.lease_expires_at, NOW + 600 * SECOND);
            assert_eq!(claimed.lease_token, 80);
            assert_eq!(claimed.target.bucket, "platform");
            assert_eq!(claimed.sha256, DIGEST);
        }
        Err(error) => panic!("{error:?}"),
    }
    assert!(matches!(claim(row("reserved"), 8, 600), Err(AppError::NotFound)));
    let spent = UploadRow { capability_hash: None, ..row("reserved") };
    assert!(matches!(claim(spent, 0, 600), Err(AppError::NotFound)));
    assert!(is_conflict(claim(row("staged"), 9, 600), "delegated_upload_not_reserved"));
    assert!(is_conflict(claim(row("reserved"), 9, 3_601), "delegated_upload_insufficient_lifetime"));
    assert!(matches!(
        claim(row("reserved"), 9, 0),
        Err(AppError::Validation { code: "invalid_delegated_upload_lease" })
    ));
    assert!(claim(row("reserved"), 9, 86_401).is_err());
}

#[test]
fn every_step_of_a_transfer_needs_its_lease() {
    let upload = Some(receiving());
    match before_provider_write(&upload, None, &transfer(), NOW, 5_000) {
        Ok(start) => {
            assert!(!start.completion);
            assert_eq!(start.timeout_millis, 5_000);
        }
        Err(error) => panic!("{error:?}"),
    }
    match before_provider_completion(&upload, None, &transfer(), NOW, 5_000) {
        Ok(start) => assert!(start.completion),
        Err(error) => panic!("{error:?}"),
    }
    let lost = "delegated_upload_lease_lost";
    let stolen = DelegatedUploadTransfer { lease_token: 81, ..transfer() };
    assert!(is_conflict(before_provider_write(&upload, None, &stolen, NOW, 5), lost));
    assert!(is_conflict(
        before_provider_write(&upload, None, &transfer(), NOW + 600 * SECOND, 5),
        lost
    ));
    let changed = DelegatedUploadTransfer { size: 5, ..transfer() };
    assert!(is_conflict(
        before_provider_write(&upload, None, &changed, NOW, 5),
        "delegated_upload_transfer_changed"
    ));
    assert!(is_bad_data(provider_timeout_millis(u128::MAX)));
    assert!(record_multipart(&upload, None, &transfer(), NOW, "provider").is_ok());
    assert!(is_bad_data(record_multipart(&upload, None, &transfer(), NOW, "")));
    let recorded =
        Some(UploadRow { provider_upload_id: Some("first".to_owned()), ..receiving() });
    assert!(is_conflict(
        record_multipart(&recorded, None, &transfer(), NOW, "second"),
        "delegated_upload_provider_changed"
    ));
}

#[test]
fn transfers_complete_with_the_expected_bytes() {
    let upload = Some(receiving());
    match complete_transfer(&upload, None, &transfer(), &object(), NOW) {
        Ok(completion) => {
            assert_eq!(completion.status.state, DelegatedUploadState::Staged);
            assert_eq!(completion.object_checksum_type, "full_object");
            assert_eq!(completion.object_checksum_value, ENCODED);
        }
        Err(error) => panic!("{error:?}"),
    }
    let mismatch = "stored_object_checksum_mismatch";
    assert!(is_conflict(
        complete_encoded_transfer(
            &upload,
            None,
            &transfer(),
            &object(),
            &Some("other".to_owned()),
            NOW
        ),
        mismatch
    ));
    let mut joined = object();
    if let Some(checksum) = &mut joined.checksum {
        checksum.kind = ObjectChecksumType::Composite;
    }
    assert!(is_conflict(complete_transfer(&upload, None, &transfer(), &joined, NOW), mismatch));
    let multipart =
        Some(UploadRow { provider_upload_id: Some("provider".to_owned()), ..receiving() });
    assert!(complete_transfer(&multipart, None, &transfer(), &joined, NOW).is_ok());
    let unstarted = Some(UploadRow { provider_completion_started: false, ..receiving() });
    assert!(is_conflict(
        complete_transfer(&unstarted, None, &transfer(), &object(), NOW),
        "delegated_upload_provider_not_started"
    ));
    assert!(matches!(
        complete_transfer(&None, None, &transfer(), &object(), NOW),
        Err(AppError::NotFound)
    ));
}

#[test]
fn failed_transfers_clean_up_only_what_may_exist() {
    let untouched = UploadRow { provider_write_started: false, ..receiving() };
    match fail_transfer(&Some(untouched.clone()), None, &transfer(), None, None, NOW, 5_000) {
        Ok(TransferFailure::Release { status, keeps_capability }) => {
            assert_eq!(status, "reserved");
            assert!(keeps_capability);
        }
        other => panic!("{other:?}"),
    }
    match fail_transfer(&Some(untouched), None, &transfer(), Some("provider"), None, NOW, 5_000) {
        Ok(TransferFailure::Cleanup { cleanup_after, provider_upload_id, provider_deadline, .. }) => {
            assert_eq!(provider_deadline, NOW + 5 * SECOND);
            assert_eq!(cleanup_after, NOW + 720 * SECOND);
            assert_eq!(provider_upload_id, Some("provider".to_owned()));
        }
        other => panic!("{other:?}"),
    }
    for status in ["staged", "committed"] {
        let done = UploadRow { status: status.to_owned(), ..receiving() };
        assert!(matches!(
            fail_transfer(&Some(done), None, &transfer(), None, None, NOW, 5_000),
            Ok(TransferFailure::Nothing)
        ));
    }
    assert!(matches!(
        fail_transfer(&None, None, &transfer(), None, None, NOW, 5_000),
        Ok(TransferFailure::Nothing)
    ));
}

fn commit_facts(child: Option<NamedChild>) -> CommitFacts {
    CommitFacts {
        child,
        platform: platform(),
        configuration_id: None,
        version_id: 90,
        next_number: 2,
    }
}

fn publish(
    row: UploadRow,
    stored: StoredObject,
    parent: Result<AuthorizableEntry, AppError>,
    child: Option<NamedChild>,
) -> Result<CommitOutcome, AppError> {
    let published = entry(72, EntryKind::File);
    let existing = entry(5, EntryKind::File);
    commit(
        &context(true),
        Some(row),
        70,
        stored,
        NOW,
        &parent,
        Some(&published),
        Some(&existing),
        &commit_facts(child),
    )
}

#[test]
fn staged_uploads_are_published_as_promised() {
    let folder = || Ok(entry(1, EntryKind::Folder));
    match publish(row("staged"), object(), folder(), None) {
        Ok(CommitOutcome::Publish { plan }) => {
            assert_eq!(plan.status.published_entry_id, Some(72));
            assert_eq!(plan.status.state, DelegatedUploadState::Committed);
            assert_eq!(
                plan.sha256_hex,
                "64879f7d6b960a01909762d911a32d4582c20010c5641ee90278b644a9e3b525"
            );
            assert!(matches!(plan.publication, Publication::Create { .. }));
        }
        other => panic!("{other:?}"),
    }
    let file = Some(NamedChild {
        entry_id: StoredId { value: 5, accepted: true },
        entry_type: "file".to_owned(),
    });
    let over = UploadRow { destination_entry_id: Some(5), ..row("staged") };
    match publish(over.clone(), object(), folder(), file.clone()) {
        Ok(CommitOutcome::Publish { plan }) => {
            assert_eq!(plan.publication.entry_id(), 5);
            assert_eq!(plan.status.published_entry_id, Some(5));
        }
        other => panic!("{other:?}"),
    }
    assert!(is_conflict(
        publish(row("staged"), object(), folder(), file),
        "delegated_upload_destination_changed"
    ));
    assert!(is_conflict(
        publish(over, object(), folder(), None),
        "delegated_upload_destination_changed"
    ));
}

#[test]
fn publishing_asks_for_authority_and_the_same_object_again() {
    let folder = || Ok(entry(1, EntryKind::Folder));
    assert!(matches!(
        publish(row("staged"), object(), Err(AppError::Forbidden), None),
        Err(AppError::Forbidden)
    ));
    let other = StoredObject { etag: None, ..object() };
    assert!(!objects_match(&other, &object()));
    assert!(is_conflict(
        publish(row("staged"), other, folder(), None),
        "delegated_upload_object_changed"
    ));
    assert!(is_conflict(
        publish(row("reserved"), object(), folder(), None),
        "delegated_upload_not_staged"
    ));
    let moved = UploadRow { storage_backend: "organization".to_owned(), ..row("staged") };
    assert!(is_conflict(
        publish(moved, object(), folder(), None),
        "storage_target_changed"
    ));
    let committed = UploadRow {
        published_entry_id: Some(StoredId { value: 72, accepted: true }),
        ..row("committed")
    };
    assert!(matches!(
        publish(committed, object(), Err(AppError::Forbidden), None),
        Ok(CommitOutcome::Committed { status }) if status.published_entry_id == Some(72)
    ));
}

#[test]
fn a_commit_is_prepared_from_what_is_staged() {
    let folder = Ok(entry(1, EntryKind::Folder));
    match prepare_commit(Some(row("staged")), 70, NOW, &folder, &None, None) {
        Ok(PrepareDelegatedUploadCommit::Staged { commit }) => {
            assert!(objects_match(&commit.stored, &object()));
            assert_eq!(commit.target.bucket, "platform");
        }
        other => panic!("{other:?}"),
    }
    assert!(matches!(
        prepare_commit(Some(row("staged")), 69, NOW, &folder, &None, None),
        Err(AppError::NotFound)
    ));
    assert!(is_conflict(
        prepare_commit(Some(row("staged")), 70, NOW + 4_000 * SECOND, &folder, &None, None),
        "delegated_upload_not_staged"
    ));
}
