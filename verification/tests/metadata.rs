use silicon_briefcase::ids::{Candidate, StoredId};
use silicon_briefcase::model::{
    ActorKind, ActorRef, AuthorizableEntry, Capability, EntryAccess, EntryBoundary, EntryKind,
    EntryView, GrantedAccess, IdempotencyClaim, MutationMetadata, OrganizationRole,
    SystemEntryKind,
};
use silicon_briefcase::error::MetadataRepositoryError;
use silicon_briefcase::postgres::metadata::common::{
    access_rights, actor_ref, announce, asks_for_descendants, boundary_columns,
    build_authorizable, claim_idempotency, complete_idempotency, decode_access, encode_access,
    entry_change, entry_kind, entry_view, load_relevant_grants, organization_role,
    permission_grant, require_capability, require_changeable, resolve_tag_id, retention_deadline,
    row_counts, row_or_conflict, row_or_internal, row_or_not_found, system_kind, ClaimStep,
    DetailValue, ResolvedGrantRow, ResolvedGrantScope,
};
use silicon_briefcase::postgres::metadata::entries::{
    available_restore_name, create_folder, folder_notifications, keeps_parent,
    locks_reconciliation, require_subtree_capability, resolve_restore_parent, resource_claim,
    restore_active, restore_bin_entry, soft_delete_entry, start_restore, update_entry,
    CreateFolderMutation, Invitee, ResourceClaim, RestoreStart, SubtreeCheck, SubtreeRow,
    UpdateEntryCommand, UpdateOutcome,
};
use silicon_briefcase::postgres::metadata::filter::{
    is_database_only, known_extensions, known_media_prefixes, listing_statement, media_patterns,
    push_database_predicate_matches, push_expression, ActorSelector, FilterCaller,
    FilterExpression, FilterPredicate, ListingScan, RenderKind, RenderTerms, SortOrder, SqlPart,
};
use silicon_briefcase::postgres::metadata::grants::{
    grant_permission, revoke_permission, GrantOutcome, GrantPermissionCommand, RevokeOutcome,
    RevokePermissionCommand,
};
use silicon_briefcase::postgres::metadata::listing::{
    decode_optional, encode_cursor, find_active_entries, list_active_children, list_bin_entries,
    list_entry_activity, list_file_versions, list_permission_grants, mark_notifications_read,
    page_length, page_size, project_member_authorization, rows_to_read, search_candidate,
    versions_before, ActivityRow, EntryFacts, VersionRow, VersionSource,
};
use silicon_briefcase::postgres::metadata::notifications::{
    decision_recipients, decode_kind, encode_kind, is_decision_recipient, load_inbox,
    notification_insert, snapshot, NewNotification, NotificationDecision, NotificationKind,
    NotificationRow, RecipientRow,
};
use silicon_briefcase::postgres::metadata::requests::{
    access_request_view, create_access_request, decide_access_request, decision_notification,
    find_access_request, request_notifications, AccessDecision, AccessRequestStatus,
    DecisionOutcome, RequestAccessCommand, RequestOutcome,
};
use silicon_briefcase::postgres::models::{
    AccessRequestRow, EntryRow, IdempotencyState, PermissionGrantRow,
};

const READ_ONLY: GrantedAccess =
    GrantedAccess { read: true, write: false, update: false, delete: false };
const READ_UPDATE: GrantedAccess =
    GrantedAccess { read: true, write: false, update: true, delete: false };
const NOTHING: GrantedAccess =
    GrantedAccess { read: false, write: false, update: false, delete: false };

fn accepted(text: &str) -> Candidate {
    Candidate { text: text.to_owned(), accepted: true }
}

fn stored(value: u128) -> StoredId {
    StoredId { value, accepted: true }
}

fn carbon(id: &str) -> ActorRef {
    ActorRef { kind: ActorKind::Carbon, id: id.to_owned() }
}

fn access(allowed: bool) -> EntryAccess {
    EntryAccess {
        read: allowed,
        create_child: allowed,
        write_content: allowed,
        update_metadata: allowed,
        delete: allowed,
        manage_permissions: allowed,
        fully_visible: allowed,
        satisfied: NOTHING,
    }
}

fn view(id: u128, kind: EntryKind) -> EntryView {
    EntryView {
        id,
        organization_id: "tos".to_owned(),
        kind,
        name: "plan.txt".to_owned(),
        path: "private/owner/plan.txt".to_owned(),
        parent_id: Some(1),
        boundary: EntryBoundary::Private,
        owner: carbon("owner"),
        origin_application_id: None,
        content_type: None,
        size: None,
        current_version_id: None,
        created_at: 10,
        updated_at: 20,
        deleted_at: None,
    }
}

fn entry(id: u128, kind: EntryKind, allowed: bool) -> AuthorizableEntry {
    AuthorizableEntry {
        entry: view(id, kind),
        system_kind: None,
        reserved: false,
        self_destruct_at: None,
        access: access(allowed),
    }
}

fn entry_row(id: u128) -> EntryRow {
    EntryRow {
        org_id: accepted("tos"),
        entry_id: stored(id),
        parent_id: Some(stored(1)),
        entry_type: "file".to_owned(),
        name: accepted("plan.txt"),
        path: accepted("private/owner/plan.txt"),
        root_type: "private".to_owned(),
        tag_id: None,
        system_kind: None,
        owner_type: "carbon".to_owned(),
        owner_id: accepted("owner"),
        origin_app_id: None,
        content_type: Some("text/plain".to_owned()),
        size_bytes: Some(4),
        current_version_id: Some(stored(9)),
        deletion_batch_id: None,
        deleted_at: None,
        purge_after: None,
        self_destruct_at: None,
        created_at: 10,
        updated_at: 20,
    }
}

fn grant_row(grant_id: u128, mask: i16) -> PermissionGrantRow {
    PermissionGrantRow {
        org_id: accepted("tos"),
        entry_id: stored(5),
        grant_id: stored(grant_id),
        principal_type: "silicon".to_owned(),
        principal_id: accepted("guest"),
        access_mask: mask,
        inherits_to_descendants: true,
        granted_by_type: "carbon".to_owned(),
        granted_by_id: accepted("owner"),
        expires_at: None,
        revoked_at: None,
        created_at: 30,
    }
}

fn subtree(allowed: bool) -> SubtreeCheck {
    SubtreeCheck { locked: 1, allowed }
}

fn word(record: &silicon_briefcase::postgres::metadata::common::ChangeRecord, key: &str) -> String {
    match record.payload.iter().find(|detail| detail.key == key) {
        Some(detail) => format!("{:?}", detail.value),
        None => panic!("missing {key}"),
    }
}

#[test]
fn access_masks_round_trip() {
    for mask in 0..16_i16 {
        match decode_access(mask) {
            Ok(access) => assert_eq!(encode_access(access), mask),
            Err(error) => panic!("{mask}: {error:?}"),
        }
    }
    assert!(decode_access(16).is_err());
    assert!(decode_access(-1).is_err());
    assert_eq!(encode_access(READ_UPDATE), 5);
    assert_eq!(access_rights(READ_UPDATE), vec!["read", "update"]);
    assert!(access_rights(NOTHING).is_empty());
}

#[test]
fn stored_words_are_read_strictly() {
    assert!(matches!(entry_kind("file"), Ok(EntryKind::File)));
    assert!(matches!(entry_kind("folder"), Ok(EntryKind::Folder)));
    assert!(entry_kind("Folder").is_err());
    assert!(matches!(system_kind(&None), Ok(None)));
    assert!(matches!(
        system_kind(&Some("app_container".to_owned())),
        Ok(Some(SystemEntryKind::PrivateActorFolder))
    ));
    assert!(system_kind(&Some("other".to_owned())).is_err());
    assert_eq!(organization_role(OrganizationRole::Owner), "owner");
    assert!(actor_ref("carbon", &accepted("a")).is_ok());
    assert!(actor_ref("service", &accepted("a")).is_err());
    assert!(actor_ref("carbon", &Candidate { text: "a".to_owned(), accepted: false }).is_err());
    let tag = EntryBoundary::Tag { tag: "finance".to_owned() };
    assert_eq!(boundary_columns(&tag), ("tag", Some("finance")));
    assert_eq!(boundary_columns(&EntryBoundary::Public), ("public", None));
}

#[test]
fn missing_rows_are_reported_as_asked() {
    assert!(matches!(row_or_conflict(Some(1)), Ok(1)));
    assert!(matches!(row_or_conflict::<u8>(None), Err(MetadataRepositoryError::Conflict)));
    assert!(matches!(row_or_not_found::<u8>(None), Err(MetadataRepositoryError::NotFound)));
    assert!(matches!(
        row_or_internal::<u8>(None, "x"),
        Err(MetadataRepositoryError::Internal { reason: "x" })
    ));
}

#[test]
fn a_tag_boundary_needs_an_active_tag() {
    let tag = EntryBoundary::Tag { tag: "finance".to_owned() };
    assert!(matches!(resolve_tag_id(&tag, Some("t".to_owned())), Ok(Some(id)) if id == "t"));
    assert!(resolve_tag_id(&tag, None).is_err());
    assert!(matches!(resolve_tag_id(&EntryBoundary::Private, None), Ok(None)));
}

#[test]
fn stored_entries_become_views() {
    match entry_view(&entry_row(5), &None) {
        Ok(view) => {
            assert_eq!(view.id, 5);
            assert_eq!(view.name, "plan.txt");
            assert_eq!(view.size, Some(4));
            assert_eq!(view.owner.id, "owner");
            assert_eq!(view.current_version_id, Some(9));
        }
        Err(error) => panic!("{error:?}"),
    }
    let negative = EntryRow { size_bytes: Some(-1), ..entry_row(5) };
    assert!(entry_view(&negative, &None).is_err());
    let unnamed_tag =
        EntryRow { root_type: "tag".to_owned(), tag_id: Some("t".to_owned()), ..entry_row(5) };
    assert!(entry_view(&unnamed_tag, &None).is_err());
    assert!(entry_view(&unnamed_tag, &Some(accepted("finance"))).is_ok());
    let reserved = EntryRow { system_kind: Some("actor_root".to_owned()), ..entry_row(5) };
    match build_authorizable(&reserved, &None, access(true)) {
        Ok(built) => assert!(built.reserved),
        Err(error) => panic!("{error:?}"),
    }
    let deleted = EntryRow { deleted_at: Some(1), ..entry_row(5) };
    assert!(row_counts(&entry_row(5), false));
    assert!(!row_counts(&deleted, false));
    assert!(row_counts(&deleted, true));
    assert!(asks_for_descendants(OrganizationRole::Member, &entry_row(5)));
    assert!(!asks_for_descendants(OrganizationRole::Admin, &entry_row(5)));
}

#[test]
fn grants_keep_where_they_were_made() {
    let rows = vec![
        ResolvedGrantRow { grant: grant_row(1, 1), depth: 0 },
        ResolvedGrantRow { grant: grant_row(2, 5), depth: 2 },
    ];
    match load_relevant_grants(&rows) {
        Ok(grants) => {
            assert_eq!(grants.len(), 2);
            assert_eq!(grants[0].scope, ResolvedGrantScope::Direct);
            assert_eq!(grants[1].scope, ResolvedGrantScope::Inherited);
            assert_eq!(grants[1].grant.access, READ_UPDATE);
        }
        Err(error) => panic!("{error:?}"),
    }
    assert!(permission_grant(&grant_row(1, 16)).is_err());
}

#[test]
fn capabilities_are_required_before_changes() {
    assert!(require_capability(&entry(5, EntryKind::File, true), Capability::Delete).is_ok());
    assert!(require_capability(&entry(5, EntryKind::File, false), Capability::Delete).is_err());
    assert!(matches!(
        require_changeable(None, Capability::Delete),
        Err(MetadataRepositoryError::NotFound)
    ));
    let reserved = AuthorizableEntry {
        system_kind: Some(SystemEntryKind::TagRoot),
        ..entry(5, EntryKind::File, true)
    };
    assert!(require_changeable(Some(&reserved), Capability::Delete).is_err());
}

fn metadata(key: Option<&str>) -> MutationMetadata {
    MutationMetadata {
        idempotency_key: key.map(str::to_owned),
        request_fingerprint: [7; 32],
    }
}

fn state(hash: u8, status: &str, locked_until: i128) -> IdempotencyState {
    IdempotencyState {
        request_hash: vec![hash; 32],
        status: status.to_owned(),
        resource_id: Some(8),
        locked_until,
    }
}

#[test]
fn repeated_requests_replay_and_never_run_twice() {
    let keyed = metadata(Some("key"));
    assert!(matches!(
        claim_idempotency(&metadata(None), Some(3), false, &None, 0),
        Ok(ClaimStep::Claimed { claim: IdempotencyClaim::Acquired(Some(3)) })
    ));
    assert!(matches!(
        claim_idempotency(&keyed, Some(3), true, &None, 0),
        Ok(ClaimStep::Claimed { claim: IdempotencyClaim::Acquired(Some(3)) })
    ));
    assert!(matches!(
        claim_idempotency(&keyed, Some(3), false, &Some(state(7, "completed", 0)), 0),
        Ok(ClaimStep::Claimed { claim: IdempotencyClaim::Replay(Some(8)) })
    ));
    assert!(matches!(
        claim_idempotency(&keyed, Some(3), false, &Some(state(6, "completed", 0)), 0),
        Err(MetadataRepositoryError::Conflict)
    ));
    assert!(matches!(
        claim_idempotency(&keyed, Some(3), false, &Some(state(7, "in_progress", 5)), 4),
        Err(MetadataRepositoryError::Conflict)
    ));
    assert!(matches!(
        claim_idempotency(&keyed, Some(3), false, &Some(state(7, "in_progress", 5)), 5),
        Ok(ClaimStep::TakeOver)
    ));
    assert!(matches!(
        claim_idempotency(&keyed, Some(3), false, &Some(state(7, "other", 5)), 5),
        Err(MetadataRepositoryError::Internal { .. })
    ));
    assert!(complete_idempotency(&keyed, 1).is_ok());
    assert!(complete_idempotency(&keyed, 0).is_err());
    assert!(complete_idempotency(&metadata(None), 0).is_ok());
    assert!(matches!(
        resource_claim(IdempotencyClaim::Acquired(Some(3)), true, false),
        Ok(ResourceClaim::Run { id: 3 })
    ));
    assert!(resource_claim(IdempotencyClaim::Acquired(None), true, false).is_err());
}

#[test]
fn changes_are_announced_as_they_are_recorded() {
    let record = entry_change(5, "entry.x.v1", Vec::new());
    assert_eq!(record.aggregate_id, "00000000-0000-0000-0000-000000000005");
    let announcement = announce(record);
    assert_eq!(announcement.topic, "briefcase.domain-events.v1");
    assert_eq!(announcement.schema_version, 1);
    assert_eq!(announcement.change.action, "entry.x.v1");
    assert_eq!(retention_deadline(0), 45 * 86_400_000_000_000);
}

fn folder_mutation(parent_id: Option<u128>) -> CreateFolderMutation {
    CreateFolderMutation {
        entry_id: 40,
        name: "drafts".to_owned(),
        parent_id,
        invitees: vec![Invitee {
            principal: carbon("guest"),
            access: READ_UPDATE,
            inherits_to_descendants: true,
        }],
        boundary: EntryBoundary::Private,
        owner: carbon("owner"),
        origin_application_id: None,
    }
}

#[test]
fn folders_are_created_with_their_invitees() {
    let parent = entry(1, EntryKind::Folder, true);
    let mutation = folder_mutation(Some(1));
    match create_folder(
        &mutation,
        41,
        &carbon("owner"),
        Some(&parent),
        Some(Capability::CreateChild),
        None,
        &vec![true],
        &vec![50],
    ) {
        Ok(plan) => {
            assert_eq!(plan.folder.entry_id, 41);
            assert_eq!(plan.folder.parent_id, Some(1));
            assert_eq!(plan.grants.len(), 1);
            assert_eq!(plan.grants[0].grant_id, 50);
            assert_eq!(plan.grants[0].access_mask, 5);
            assert_eq!(plan.change.action, "entry.folder_created.v1");
        }
        Err(error) => panic!("{error:?}"),
    }
    let told = folder_notifications(&mutation, &carbon("owner"), &view(41, EntryKind::Folder));
    assert_eq!(told.len(), 1);
    assert_eq!(told[0].recipient.id, "guest");
    assert!(matches!(told[0].kind, NotificationKind::AccessGranted));
    assert!(locks_reconciliation(None));
    assert!(!locks_reconciliation(Some(1)));
}

#[test]
fn folders_need_a_writable_parent_and_known_invitees() {
    let mutation = folder_mutation(Some(1));
    let owner = carbon("owner");
    let required = Some(Capability::CreateChild);
    let closed = entry(1, EntryKind::Folder, false);
    let open = entry(1, EntryKind::Folder, true);
    let members = vec![true];
    let ids = vec![50];
    assert!(create_folder(&mutation, 41, &owner, None, required, None, &members, &ids).is_err());
    assert!(
        create_folder(&mutation, 41, &owner, Some(&closed), required, None, &members, &ids)
            .is_err()
    );
    assert!(
        create_folder(&mutation, 41, &owner, Some(&open), required, None, &vec![false], &ids)
            .is_err()
    );
    assert!(
        create_folder(&mutation, 41, &carbon("x"), Some(&open), required, None, &members, &ids)
            .is_err()
    );
}

#[test]
fn entries_are_renamed_and_moved() {
    let current = entry(5, EntryKind::File, true);
    let command = UpdateEntryCommand {
        entry_id: 5,
        name: Some("new.txt".to_owned()),
        parent_id: None,
    };
    match update_entry(
        &command,
        Some(&current),
        Capability::UpdateMetadata,
        None,
        subtree(true),
        IdempotencyClaim::Acquired(None),
        &carbon("owner"),
    ) {
        Ok(UpdateOutcome::Apply { plan }) => {
            assert_eq!(plan.name, Some("new.txt".to_owned()));
            assert_eq!(plan.change.action, "entry.metadata_updated.v1");
        }
        other => panic!("{other:?}"),
    }
    assert!(matches!(
        update_entry(
            &command,
            Some(&current),
            Capability::UpdateMetadata,
            None,
            subtree(true),
            IdempotencyClaim::Replay(None),
            &carbon("owner"),
        ),
        Ok(UpdateOutcome::Replay)
    ));
    assert!(matches!(
        update_entry(
            &command,
            None,
            Capability::UpdateMetadata,
            None,
            subtree(true),
            IdempotencyClaim::Acquired(None),
            &carbon("owner"),
        ),
        Err(MetadataRepositoryError::NotFound)
    ));
    let moving = UpdateEntryCommand { entry_id: 5, name: None, parent_id: Some(2) };
    let elsewhere = AuthorizableEntry {
        entry: EntryView { boundary: EntryBoundary::Public, ..view(2, EntryKind::Folder) },
        ..entry(2, EntryKind::Folder, true)
    };
    assert!(update_entry(
        &moving,
        Some(&current),
        Capability::UpdateMetadata,
        Some(&elsewhere),
        subtree(true),
        IdempotencyClaim::Acquired(None),
        &carbon("owner"),
    )
    .is_err());
    assert!(require_subtree_capability(subtree(true), Capability::Delete).is_ok());
    assert!(require_subtree_capability(subtree(false), Capability::Delete).is_err());
}

#[test]
fn deleted_entries_stay_in_the_bin_and_self_destructing_ones_do_not() {
    let current = entry(5, EntryKind::File, true);
    match soft_delete_entry(
        5,
        Some(&current),
        Capability::Delete,
        subtree(true),
        IdempotencyClaim::Acquired(None),
        &carbon("owner"),
        77,
        1_000,
    ) {
        Ok(Some(plan)) => {
            assert_eq!(plan.deleted_at, 1_000);
            assert_eq!(plan.purge_after, 1_000 + 45 * 86_400_000_000_000);
            assert_eq!(plan.purge_self_destructing_after, 1_000);
            assert_eq!(plan.batch_id, 77);
        }
        other => panic!("{other:?}"),
    }
    assert!(matches!(
        soft_delete_entry(
            5,
            Some(&current),
            Capability::Delete,
            subtree(true),
            IdempotencyClaim::Replay(None),
            &carbon("owner"),
            77,
            1_000,
        ),
        Ok(None)
    ));
}

#[test]
fn bins_are_restored_without_what_was_due() {
    let deleted = AuthorizableEntry {
        entry: EntryView { deleted_at: Some(3), ..view(5, EntryKind::Folder) },
        ..entry(5, EntryKind::Folder, true)
    };
    assert!(matches!(start_restore(Some(&deleted), Capability::Delete), Ok(RestoreStart::InBin)));
    assert!(matches!(
        start_restore(Some(&entry(5, EntryKind::Folder, true)), Capability::Delete),
        Ok(RestoreStart::AlreadyActive)
    ));
    assert!(restore_active(IdempotencyClaim::Replay(Some(5))).is_ok());
    let rows = vec![
        SubtreeRow { entry_id: 5, depth: 0, due: false },
        SubtreeRow { entry_id: 6, depth: 1, due: true },
        SubtreeRow { entry_id: 7, depth: 1, due: false },
    ];
    match restore_bin_entry(
        5,
        "drafts",
        Some(77),
        subtree(true),
        IdempotencyClaim::Acquired(Some(5)),
        &rows,
        Some(1),
        true,
        &carbon("owner"),
    ) {
        Ok(plan) => {
            assert_eq!(plan.rows.len(), 2);
            assert_eq!(plan.rows[0].entry_id, 5);
            assert_eq!(plan.rows[1].entry_id, 7);
            match &plan.rows[0].placed {
                Some(place) => {
                    assert_eq!(place.parent_id, Some(1));
                    assert_eq!(place.name, "drafts (restored 00000000)");
                }
                None => panic!("the restored entry is placed"),
            }
            assert!(plan.rows[1].placed.is_none());
        }
        Err(error) => panic!("{error:?}"),
    }
}

#[test]
fn restored_names_are_free_and_bounded() {
    let id = 0x01990a9d_86f1_7000_8000_000000000010;
    assert_eq!(available_restore_name("a", false, id), "a");
    assert_eq!(available_restore_name("a", true, id), "a (restored 01990a9d)");
    assert_eq!(available_restore_name(&"é".repeat(127), true, id).len(), 254);
}

#[test]
fn a_restored_entry_goes_back_to_its_folder_or_to_a_fallback() {
    let current = entry(5, EntryKind::File, true);
    let parent = entry(1, EntryKind::Folder, true);
    assert!(keeps_parent(&current, Some(&parent)));
    assert!(!keeps_parent(&current, None));
    assert!(matches!(
        resolve_restore_parent(&current, Some(&parent), None, None),
        Ok(Some(1))
    ));
    let fallback = entry(3, EntryKind::Folder, true);
    assert!(matches!(
        resolve_restore_parent(&current, None, Some(stored(3)), Some(&fallback)),
        Ok(Some(3))
    ));
}

fn grant_command(access: GrantedAccess, lifetime_minutes: Option<u32>) -> GrantPermissionCommand {
    GrantPermissionCommand {
        entry_id: 5,
        principal: carbon("guest"),
        access,
        inherits_to_descendants: true,
        lifetime_minutes,
    }
}

fn grant(
    command: &GrantPermissionCommand,
    is_member: bool,
) -> Result<GrantOutcome, MetadataRepositoryError> {
    grant_permission(
        command,
        Some(&entry(5, EntryKind::File, true)),
        Capability::ManagePermissions,
        is_member,
        IdempotencyClaim::Acquired(Some(60)),
        true,
        &carbon("owner"),
    )
}

#[test]
fn an_expiring_share_never_amends_a_permanent_grant() {
    match grant(&grant_command(READ_ONLY, Some(10)), true) {
        Ok(GrantOutcome::Apply { plan }) => {
            assert!(!plan.amends);
            assert_eq!(plan.grant.lifetime_minutes, Some(10));
            assert_eq!(plan.change.action, "permission.expiring_share_granted.v1");
        }
        other => panic!("{other:?}"),
    }
    match grant(&grant_command(READ_UPDATE, None), true) {
        Ok(GrantOutcome::Apply { plan }) => {
            assert!(plan.amends);
            assert_eq!(plan.change.action, "permission.granted.v1");
            assert_eq!(plan.notification.recipient.id, "guest");
        }
        other => panic!("{other:?}"),
    }
    assert!(grant(&grant_command(READ_UPDATE, Some(10)), true).is_err());
    assert!(grant(&grant_command(READ_ONLY, None), false).is_err());
}

#[test]
fn revoking_tells_the_member_of_a_permanent_grant_only() {
    let command = RevokePermissionCommand { entry_id: 5, grant_id: 1 };
    let file = entry(5, EntryKind::File, true);
    let revoke = |row: Option<PermissionGrantRow>| {
        revoke_permission(
            command,
            Some(&file),
            Capability::ManagePermissions,
            &row,
            IdempotencyClaim::Acquired(None),
            &carbon("owner"),
        )
    };
    match revoke(Some(grant_row(1, 5))) {
        Ok(RevokeOutcome::Apply { plan }) => {
            assert_eq!(plan.change.action, "permission.revoked.v1");
            assert!(plan.notification.is_some());
        }
        other => panic!("{other:?}"),
    }
    match revoke(Some(PermissionGrantRow { expires_at: Some(90), ..grant_row(1, 1) })) {
        Ok(RevokeOutcome::Apply { plan }) => {
            assert_eq!(plan.change.action, "permission.expiring_share_revoked.v1");
            assert!(plan.notification.is_none());
        }
        other => panic!("{other:?}"),
    }
    assert!(matches!(revoke(None), Err(MetadataRepositoryError::NotFound)));
}

fn request_row(status: &str) -> AccessRequestRow {
    AccessRequestRow {
        org_id: accepted("tos"),
        access_request_id: stored(70),
        entry_id: stored(5),
        requested_by_type: "carbon".to_owned(),
        requested_by_id: accepted("guest"),
        requested_access_mask: 5,
        reason: Some("please".to_owned()),
        status: status.to_owned(),
        granted_access_mask: None,
        decided_by_type: None,
        decided_by_id: None,
        decided_at: None,
        permission_grant_id: None,
        created_at: 10,
        updated_at: 10,
    }
}

#[test]
fn access_is_requested_once_and_not_for_what_is_held() {
    let command = RequestAccessCommand { entry_id: 5, access: READ_UPDATE, reason: None };
    let file = entry(5, EntryKind::File, true);
    match create_access_request(
        &command,
        Some(&file),
        IdempotencyClaim::Acquired(Some(70)),
        true,
        &carbon("guest"),
    ) {
        Ok(RequestOutcome::Apply { plan }) => {
            assert_eq!(plan.request.request_id, 70);
            assert_eq!(plan.request.access_mask, 5);
        }
        other => panic!("{other:?}"),
    }
    let told = request_notifications(
        &vec![carbon("owner"), carbon("admin")],
        &carbon("guest"),
        &view(5, EntryKind::File),
        READ_UPDATE,
        70,
    );
    assert_eq!(told.len(), 2);
    assert_eq!(told[1].access_request_id, Some(70));
    let satisfied = AuthorizableEntry {
        access: EntryAccess { satisfied: READ_UPDATE, ..access(true) },
        ..entry(5, EntryKind::File, true)
    };
    assert!(create_access_request(
        &command,
        Some(&satisfied),
        IdempotencyClaim::Acquired(Some(70)),
        true,
        &carbon("guest"),
    )
    .is_err());
}

#[test]
fn stored_requests_are_read_strictly() {
    match access_request_view(&request_row("pending")) {
        Ok(view) => {
            assert!(matches!(view.status, AccessRequestStatus::Pending));
            assert_eq!(view.requested_access, READ_UPDATE);
        }
        Err(error) => panic!("{error:?}"),
    }
    assert!(access_request_view(&request_row("unknown")).is_err());
    assert!(matches!(find_access_request(&None, None), Ok(None)));
    assert!(matches!(
        find_access_request(&Some(request_row("pending")), Some(entry(5, EntryKind::File, true))),
        Ok(Some(_))
    ));
}

#[test]
fn requests_are_decided_once() {
    let file = entry(5, EntryKind::File, true);
    let decide = |row: AccessRequestRow, decision: AccessDecision, claim: IdempotencyClaim| {
        decide_access_request(
            70,
            &Some(row),
            Some(&file),
            Capability::ManagePermissions,
            claim,
            decision,
            true,
            80,
            &carbon("owner"),
        )
    };
    match decide(
        request_row("pending"),
        AccessDecision::Approve { access: READ_ONLY },
        IdempotencyClaim::Acquired(Some(70)),
    ) {
        Ok(DecisionOutcome::Apply { plan }) => {
            assert_eq!(plan.status, "approved");
            assert_eq!(plan.granted_mask, Some(1));
            match plan.grant {
                Some(grant) => assert_eq!(grant.grant_id, 80),
                None => panic!("an approval grants"),
            }
        }
        other => panic!("{other:?}"),
    }
    match decide(
        request_row("pending"),
        AccessDecision::Deny,
        IdempotencyClaim::Acquired(Some(70)),
    ) {
        Ok(DecisionOutcome::Apply { plan }) => {
            assert_eq!(plan.status, "denied");
            assert!(plan.grant.is_none());
        }
        other => panic!("{other:?}"),
    }
    assert!(matches!(
        decide(
            request_row("denied"),
            AccessDecision::Deny,
            IdempotencyClaim::Acquired(Some(70))
        ),
        Err(MetadataRepositoryError::Conflict)
    ));
    let told = decision_notification(
        &carbon("guest"),
        &carbon("owner"),
        Some(&file),
        AccessDecision::Deny,
        70,
    );
    assert!(matches!(told.decision, Some(NotificationDecision::Denied)));
    assert_eq!(told.recipient.id, "guest");
}

fn notification_row(kind: &str, readable: bool) -> NotificationRow {
    NotificationRow {
        notification_id: stored(90),
        kind: kind.to_owned(),
        actor_type: Some("carbon".to_owned()),
        actor_id: Some(accepted("owner")),
        entry_id: Some(stored(5)),
        readable,
        name: Some("plan.txt".to_owned()),
        path: Some(accepted("private/owner/plan.txt")),
        entry_type: Some("file".to_owned()),
        access_mask: Some(1),
        access_request_id: None,
        decision: None,
        read_at: None,
        created_at: 10,
    }
}

#[test]
fn notifications_survive_being_stored() {
    for kind in [
        NotificationKind::AccessGranted,
        NotificationKind::AccessRevoked,
        NotificationKind::AccessRequested,
        NotificationKind::AccessRequestDecided,
    ] {
        match decode_kind(encode_kind(kind)) {
            Ok(decoded) => assert_eq!(encode_kind(decoded), encode_kind(kind)),
            Err(error) => panic!("{error:?}"),
        }
    }
    assert!(decode_kind("unknown").is_err());
    let row = notification_insert(&NewNotification {
        recipient: carbon("guest"),
        kind: NotificationKind::AccessGranted,
        actor: Some(carbon("owner")),
        subject: Some(snapshot(&view(5, EntryKind::File))),
        access: Some(READ_UPDATE),
        access_request_id: None,
        decision: None,
    });
    assert_eq!(row.recipient_id, "guest");
    assert_eq!(row.access_mask, Some(5));
    assert_eq!(row.entry_type, Some("file"));
    match load_inbox(&vec![notification_row("access_granted", true)], 3) {
        Ok(inbox) => {
            assert_eq!(inbox.items.len(), 1);
            assert_eq!(inbox.unread_count, 3);
        }
        Err(error) => panic!("{error:?}"),
    }
    assert!(load_inbox(&vec![notification_row("unknown", true)], 0).is_err());
}

#[test]
fn decisions_are_asked_of_owners_and_administrators() {
    let row = |id: &str, role: &str, status: &str| RecipientRow {
        actor_type: "carbon".to_owned(),
        actor_id: accepted(id),
        org_role: role.to_owned(),
        membership_status: status.to_owned(),
    };
    let rows = vec![
        row("admin", "admin", "active"),
        row("former", "admin", "removed"),
        row("guest", "owner", "active"),
        row("other", "member", "active"),
        row("owner", "member", "active"),
    ];
    match decision_recipients(&rows, &carbon("owner"), &carbon("guest")) {
        Ok(recipients) => {
            let ids: Vec<&str> = recipients.iter().map(|member| member.id.as_str()).collect();
            assert_eq!(ids, ["admin", "owner"]);
        }
        Err(error) => panic!("{error:?}"),
    }
    let unknown = vec![RecipientRow { actor_type: "robot".to_owned(), ..rows[0].clone() }];
    assert!(decision_recipients(&unknown, &carbon("owner"), &carbon("guest")).is_err());
    assert!(is_decision_recipient(&carbon("admin"), true, &carbon("owner"), &carbon("guest")));
    assert!(is_decision_recipient(&carbon("owner"), false, &carbon("owner"), &carbon("guest")));
    assert!(!is_decision_recipient(&carbon("other"), false, &carbon("owner"), &carbon("guest")));
    assert!(!is_decision_recipient(&carbon("guest"), true, &carbon("owner"), &carbon("guest")));
}

#[test]
fn cursors_are_opaque_texts_that_decode_to_what_was_encoded() {
    let bytes = b"{\"id\":\"?>\"}".to_vec();
    let text = encode_cursor(&bytes);
    assert_eq!(text, "eyJpZCI6Ij8-In0");
    assert!(matches!(decode_optional(Some(&text)), Ok(Some(decoded)) if decoded == bytes));
    assert!(matches!(decode_optional(None), Ok(None)));
    assert!(matches!(
        decode_optional(Some("not a cursor!")),
        Err(MetadataRepositoryError::InvalidCursor)
    ));
}

fn facts(id: u128, updated_at: i128) -> EntryFacts {
    EntryFacts {
        row: EntryRow { updated_at, ..entry_row(id) },
        tag: None,
        access: access(true),
    }
}

#[test]
fn pages_hold_what_was_asked_for_and_name_the_next_one() {
    assert_eq!(page_length(3, 2), 2);
    assert_eq!(page_length(2, 2), 2);
    assert_eq!(rows_to_read(2), 3);
    assert_eq!(page_size(10, Some(3)), 3);
    assert_eq!(page_size(2, Some(3)), 2);
    assert_eq!(page_size(10, None), 10);
    let read = vec![facts(5, 30), facts(6, 20), facts(7, 10)];
    match list_active_children(&read, 2, None, true) {
        Ok(page) => {
            assert_eq!(page.items.len(), 2);
            match page.next {
                Some(next) => {
                    assert_eq!(next.id, 6);
                    assert_eq!(next.changed_at, 20);
                }
                None => panic!("a third entry was read"),
            }
        }
        Err(error) => panic!("{error:?}"),
    }
    match list_active_children(&read, 3, None, true) {
        Ok(page) => assert!(page.next.is_none()),
        Err(error) => panic!("{error:?}"),
    }
    let deleted: Vec<EntryFacts> = read
        .iter()
        .map(|facts| EntryFacts {
            row: EntryRow { deleted_at: Some(facts.row.updated_at), ..facts.row.clone() },
            tag: None,
            access: access(true),
        })
        .collect();
    match list_bin_entries(&deleted, 1) {
        Ok(page) => {
            assert_eq!(page.items.len(), 1);
            assert!(page.next.is_some());
        }
        Err(error) => panic!("{error:?}"),
    }
    match find_active_entries(&read) {
        Ok(entries) => assert_eq!(entries.len(), 3),
        Err(error) => panic!("{error:?}"),
    }
    match list_permission_grants(&vec![grant_row(1, 1), grant_row(2, 1)], 1) {
        Ok(page) => {
            assert_eq!(page.items.len(), 1);
            assert_eq!(page.next, Some(1));
        }
        Err(error) => panic!("{error:?}"),
    }
}

fn version_row(number: i64, source: &str) -> VersionRow {
    VersionRow {
        version_id: stored(9),
        version_number: number,
        number_accepted: true,
        source: source.to_owned(),
        restored_from_version_id: None,
        size_bytes: 4,
        created_by_type: "carbon".to_owned(),
        created_by_id: accepted("owner"),
        created_at: 10,
    }
}

#[test]
fn versions_are_listed_with_where_they_come_from() {
    assert_eq!(versions_before(None), i64::MAX);
    assert_eq!(versions_before(Some(4)), 4);
    let restored =
        VersionRow { restored_from_version_id: Some(stored(3)), ..version_row(2, "restore") };
    match list_file_versions(&vec![restored, version_row(1, "upload")], 5) {
        Ok(page) => {
            assert!(matches!(
                page.items[0].source,
                VersionSource::Restore { source_version_id: 3 }
            ));
            assert!(matches!(page.items[1].source, VersionSource::InitialUpload));
            assert!(page.next.is_none());
        }
        Err(error) => panic!("{error:?}"),
    }
    assert!(list_file_versions(&vec![version_row(1, "restore")], 5).is_err());
    assert!(list_file_versions(&vec![version_row(1, "other")], 5).is_err());
}

#[test]
fn activity_and_search_results_are_read_strictly() {
    let row = ActivityRow {
        actor_type: "carbon".to_owned(),
        actor_id: accepted("owner"),
        origin_app_id: Some(accepted("tos>notes")),
        action: "entry.x.v1".to_owned(),
        occurred_at: 5,
    };
    match list_entry_activity(&vec![row.clone()]) {
        Ok(events) => assert_eq!(events[0].application_id, Some("tos>notes".to_owned())),
        Err(error) => panic!("{error:?}"),
    }
    assert!(
        list_entry_activity(&vec![ActivityRow { actor_type: "service".to_owned(), ..row }]).is_err()
    );
    match search_candidate(
        stored(5),
        Some(entry(5, EntryKind::File, true)),
        true,
        2,
        Some("a plan".to_owned()),
    ) {
        Ok(candidate) => {
            assert_eq!(candidate.content_hits, 2);
            assert_eq!(candidate.snippets, vec!["a plan".to_owned()]);
        }
        Err(error) => panic!("{error:?}"),
    }
    assert!(search_candidate(stored(5), None, true, 2, None).is_err());
}

#[test]
fn members_are_projected_from_their_rows() {
    match project_member_authorization(Some("admin"), &vec![accepted("finance")]) {
        Ok(Some(member)) => {
            assert_eq!(member.role, OrganizationRole::Admin);
            assert_eq!(member.tags, vec!["finance".to_owned()]);
        }
        other => panic!("{other:?}"),
    }
    assert!(matches!(project_member_authorization(None, &Vec::new()), Ok(None)));
    assert!(project_member_authorization(Some("root"), &Vec::new()).is_err());
    assert!(mark_notifications_read(IdempotencyClaim::Replay(None), &carbon("a")).is_none());
    match mark_notifications_read(IdempotencyClaim::Acquired(None), &carbon("a")) {
        Some(change) => assert_eq!(change.action, "notifications.inbox_read.v1"),
        None => panic!("reading the inbox is recorded"),
    }
}

fn caller(administrator: bool) -> FilterCaller {
    FilterCaller { kind: "carbon", id: "owner".to_owned(), administrator }
}

fn rendered(parts: &[SqlPart]) -> (String, Vec<String>) {
    let mut statement = String::new();
    let mut bound = Vec::new();
    for part in parts {
        match part {
            SqlPart::Fragment(text) => statement.push_str(text),
            other => {
                statement.push('?');
                bound.push(format!("{other:?}"));
            }
        }
    }
    (statement, bound)
}

#[test]
fn filter_values_never_become_part_of_a_statement() {
    let hostile = "x'; DROP TABLE briefcase.entries; --";
    let expression = FilterExpression::All(vec![
        FilterExpression::Predicate(FilterPredicate::Contains(hostile.to_owned())),
        FilterExpression::Not(Box::new(FilterExpression::Predicate(
            FilterPredicate::CreatedBy(ActorSelector { kind: None, id: hostile.to_owned() }),
        ))),
    ]);
    assert!(is_database_only(&expression));
    assert!(!is_database_only(&FilterExpression::Any(vec![
        FilterExpression::Predicate(FilterPredicate::Contains("plan".to_owned())),
        FilterExpression::Not(Box::new(FilterExpression::Predicate(
            FilterPredicate::HasPermission,
        ))),
    ])));
    let mut parts = Vec::new();
    push_expression(&mut parts, &expression, &caller(false));
    let (statement, bound) = rendered(&parts);
    assert!(!statement.contains("DROP"));
    assert!(bound.iter().any(|value| value.contains("DROP")));
    assert!(statement.contains("NOT ("));
    assert!(statement.contains(" AND "));

    let mut matches = Vec::new();
    push_database_predicate_matches(&mut matches, &expression, &caller(false));
    let (statement, bound) = rendered(&matches);
    assert!(statement.starts_with("ARRAY[COALESCE(("));
    assert!(statement.ends_with("), FALSE)]::boolean[]"));
    assert!(!statement.contains("NOT ("));
    assert!(!statement.contains("DROP"));
    assert!(bound.iter().any(|value| value.contains("DROP")));
}

fn render_kind(extensions: &[&str], prefixes: &[&str]) -> RenderKind {
    let texts = |list: &[&str]| list.iter().map(|text| (*text).to_owned()).collect();
    RenderKind {
        unsupported: false,
        extensions: texts(extensions),
        media_type_prefixes: texts(prefixes),
    }
}

#[test]
fn a_known_extension_decides_before_the_media_type() {
    let image = render_kind(&["png", "jpg"], &["image/"]);
    let table = render_kind(&["csv"], &[]);
    let text = render_kind(&["txt"], &["text/", "application/json"]);
    let all = vec![image.clone(), table.clone(), text];
    assert_eq!(known_extensions(&all), ["png", "jpg", "csv", "txt"]);
    assert_eq!(known_media_prefixes(&all), ["image/", "text/", "application/json"]);
    assert_eq!(media_patterns(&image.media_type_prefixes), ["image/%"]);
    let texts = |kind: RenderKind| {
        let terms = RenderTerms { kind, all_kinds: all.clone() };
        let mut parts = Vec::new();
        let expression = FilterExpression::Predicate(FilterPredicate::IsRender(terms));
        push_expression(&mut parts, &expression, &caller(false));
        let bound: Vec<Vec<String>> = parts
            .iter()
            .filter_map(|part| match part {
                SqlPart::Texts(texts) => Some(texts.clone()),
                _ => None,
            })
            .collect();
        (rendered(&parts).0, bound)
    };
    let known = vec!["png", "jpg", "csv", "txt"];
    let (statement, bound) = texts(image);
    assert!(statement.contains("ILIKE ANY("));
    assert_eq!(bound, [vec!["png", "jpg"], known.clone(), vec!["image/%"]]);
    let (statement, bound) = texts(table);
    assert!(statement.ends_with(") AND false)))"));
    assert_eq!(bound, [vec!["csv"], known.clone()]);
    let (statement, bound) = texts(RenderKind { unsupported: true, ..render_kind(&[], &[]) });
    assert!(statement.starts_with("(entry.entry_type = 'file' AND NOT ("));
    assert_eq!(bound, [known, vec!["image/%", "text/%", "application/json%"]]);
}

#[test]
fn listings_scan_in_order_after_their_cursor() {
    let scan = ListingScan {
        parent_id: Some(1),
        order: SortOrder::Newest,
        after: Some((20, 6)),
        filtered: false,
        rows: 3,
    };
    let (statement, bound) = rendered(&listing_statement(&scan, None, &caller(false)));
    assert!(statement.contains("entry.deleted_at IS NULL"));
    assert!(statement.contains("DESC"));
    assert!(bound.iter().any(|value| value.contains("Id(6)")));
    assert!(bound.iter().any(|value| value.contains("Integer(3)")));
    let oldest = ListingScan { order: SortOrder::Oldest, after: None, ..scan };
    let (statement, _) = rendered(&listing_statement(&oldest, None, &caller(false)));
    assert!(statement.contains("ASC"));
}

#[test]
fn recorded_changes_name_what_changed() {
    let change = entry_change(
        5,
        "entry.x.v1",
        vec![silicon_briefcase::postgres::metadata::common::Detail {
            key: "version_id",
            value: DetailValue::optional_id(Some(9)),
        }],
    );
    assert_eq!(word(&change, "version_id"), "Id(9)");
}
