use silicon_briefcase::error::{AppError, MetadataRepositoryError};
use silicon_briefcase::ids::{Candidate, StoredId};
use silicon_briefcase::json::{Json, JsonMember};
use silicon_briefcase::model::{
    ActorKind, ActorRef, AuthorizableEntry, EntryAccess, EntryBoundary, EntryKind, EntryView,
    GrantedAccess, IdempotencyClaim, OrganizationRole, SystemEntryKind,
};
use silicon_briefcase::postgres::invitations::{
    change_expiring_share, check_email, invitations, invite_tag, member_by_email, notify_tag,
    require_tag, revoke_tag_or_member, share_restarted, tag_granted, tag_revoked, valid_email, ContactRow,
    ExpiringShareRow, RevocationStep, ShareChange, ShareOutcome, TagGrantRow, TagInvitation,
};
use silicon_briefcase::postgres::metadata::notifications::NotificationKind;
use silicon_briefcase::postgres::self_destruct::{check_keeper, make_permanent};
use silicon_briefcase::postgres::sharing::{
    check_link_change, check_log, child_is_visible, db, link_access, logged_child, logs,
    public_children, public_entry, read_link, set_link_access, LinkState, LogEvent, PublicEntry,
    PUBLIC_PAGE,
};

const READ_ONLY: GrantedAccess =
    GrantedAccess { read: true, write: false, update: false, delete: false };
const READ_UPDATE: GrantedAccess =
    GrantedAccess { read: true, write: false, update: true, delete: false };

fn carbon(id: &str) -> ActorRef {
    ActorRef { kind: ActorKind::Carbon, id: id.to_owned() }
}

fn entry(allowed: bool) -> AuthorizableEntry {
    AuthorizableEntry {
        entry: EntryView {
            id: 5,
            organization_id: "tos".to_owned(),
            kind: EntryKind::File,
            name: "plan.txt".to_owned(),
            path: "private/owner/plan.txt".to_owned(),
            parent_id: Some(1),
            boundary: EntryBoundary::Private,
            owner: carbon("owner"),
            origin_application_id: None,
            content_type: None,
            size: None,
            current_version_id: None,
            created_at: 10,
            updated_at: 20,
            deleted_at: None,
        },
        system_kind: None,
        reserved: false,
        self_destruct_at: Some(900),
        access: EntryAccess {
            read: allowed,
            create_child: allowed,
            write_content: allowed,
            update_metadata: allowed,
            delete: allowed,
            manage_permissions: allowed,
            fully_visible: allowed,
            satisfied: READ_ONLY,
        },
    }
}

#[test]
fn links_are_managed_by_those_who_manage_permissions() {
    assert!(matches!(link_access(Some(&entry(true)), OrganizationRole::Member), Ok(true)));
    assert!(matches!(
        link_access(None, OrganizationRole::Member),
        Err(AppError::NotFound)
    ));
    assert!(check_link_change(Some(&entry(true)), OrganizationRole::Member).is_ok());
    assert!(check_link_change(Some(&entry(false)), OrganizationRole::Member).is_err());
    let protected = AuthorizableEntry {
        system_kind: Some(SystemEntryKind::PrivateContainer),
        reserved: true,
        ..entry(true)
    };
    assert!(matches!(
        check_link_change(Some(&protected), OrganizationRole::Owner),
        Err(AppError::Validation { code: "protected_folder" })
    ));
    let mut root = AuthorizableEntry {
        system_kind: Some(SystemEntryKind::PublicContainer),
        reserved: true,
        ..entry(true)
    };
    root.access.manage_permissions = false;
    assert!(check_link_change(Some(&root), OrganizationRole::Admin).is_ok());
    assert!(matches!(
        check_link_change(Some(&root), OrganizationRole::Member),
        Err(AppError::Forbidden)
    ));
}

#[test]
fn a_link_is_effective_by_itself_or_by_a_folder_above_it() {
    let shut = LinkState { public: false, expires_at: None };
    let open = LinkState { public: true, expires_at: None };
    let expiring = LinkState { public: true, expires_at: Some(50) };
    let read = read_link(true, shut, Some(1), 0);
    assert!(!read.enabled);
    assert!(read.effective);
    assert_eq!(read.inherited_from, Some(1));
    assert!(read_link(true, open, None, 0).effective);
    assert!(read_link(true, expiring, None, 49).effective);
    assert!(!read_link(true, expiring, None, 50).effective);
    assert!(!read_link(true, shut, None, 0).effective);
}

#[test]
fn link_changes_are_recorded_by_what_they_do() {
    let shut = LinkState { public: false, expires_at: None };
    let change = |enabled: bool, minutes: Option<u32>, claim: IdempotencyClaim| {
        set_link_access(
            5,
            Some(&entry(true)),
            OrganizationRole::Member,
            enabled,
            minutes,
            shut,
            claim,
        )
    };
    match change(true, None, IdempotencyClaim::Acquired(None)) {
        Ok(Some(plan)) => {
            assert!(plan.enabled);
            assert_eq!(plan.change.action, "entry.link_access_changed.v1");
        }
        other => panic!("{other:?}"),
    }
    match change(true, Some(10), IdempotencyClaim::Acquired(None)) {
        Ok(Some(plan)) => {
            assert_eq!(plan.lifetime_minutes, Some(10));
            assert_eq!(plan.change.action, "entry.expiring_link_enabled.v1");
        }
        other => panic!("{other:?}"),
    }
    assert!(matches!(change(true, None, IdempotencyClaim::Replay(None)), Ok(None)));
    let permanent = LinkState { public: true, expires_at: None };
    assert!(matches!(
        set_link_access(
            5,
            Some(&entry(true)),
            OrganizationRole::Member,
            true,
            Some(10),
            permanent,
            IdempotencyClaim::Acquired(None),
        ),
        Err(AppError::Conflict { .. })
    ));
}

fn child_event(id: u128) -> LogEvent {
    LogEvent { action: "child.entry.x.v1".to_owned(), ..event(id) }
}

fn event(id: u128) -> LogEvent {
    LogEvent {
        id,
        actor_type: "carbon".to_owned(),
        actor_id: "owner".to_owned(),
        app_id: None,
        action: "entry.x.v1".to_owned(),
        metadata: "{}".to_owned(),
        occurred_at: 5,
    }
}

#[test]
fn logs_are_paged_and_hide_children_from_readers() {
    let rows = vec![event(1), event(2), event(3)];
    let page = logs(&rows, &vec![true, true, true], false, 2);
    assert_eq!(page.items.len(), 2);
    assert_eq!(page.next_cursor, Some(2));
    let rows = vec![event(1), child_event(2), event(3)];
    let hidden = logs(&rows, &vec![false, false, false], false, 3);
    assert_eq!(hidden.items.iter().map(|event| event.id).collect::<Vec<_>>(), vec![1, 3]);
    assert_eq!(hidden.next_cursor, None);
    let managed = logs(&rows, &vec![false, false, false], true, 3);
    assert_eq!(managed.items.len(), 3);
    assert!(check_log(Some(&entry(true)), None, None).is_ok());
    assert!(check_log(None, None, None).is_err());
    assert!(check_log(Some(&entry(true)), Some(3), None).is_err());
    assert!(check_log(Some(&entry(true)), Some(3), Some(5)).is_ok());
    let child = Json::Object(vec![JsonMember {
        key: "entry_id".to_owned(),
        value: Json::Text("00000000-0000-0000-0000-000000000005".to_owned()),
    }]);
    assert_eq!(logged_child(&child), Some(5));
    assert_eq!(logged_child(&Json::Null), None);
    assert!(child_is_visible(Some(&entry(true))));
    assert!(!child_is_visible(None));
}

fn public(id: u128) -> PublicEntry {
    PublicEntry {
        id,
        name: "shared".to_owned(),
        path: "shared".to_owned(),
        entry_type: "folder".to_owned(),
        content_type: None,
        size: None,
    }
}

#[test]
fn public_folders_are_paged() {
    assert!(public_entry(Some(public(1))).is_ok());
    assert!(matches!(public_entry(None), Err(AppError::NotFound)));
    let rows: Vec<PublicEntry> = (0..=PUBLIC_PAGE as u128).map(public).collect();
    match public_children(Some(public(9)), rows) {
        Ok(page) => {
            assert_eq!(page.items.len(), PUBLIC_PAGE);
            assert_eq!(page.next_cursor, Some(PUBLIC_PAGE as u128 - 1));
        }
        Err(error) => panic!("{error:?}"),
    }
    match public_children(Some(public(9)), vec![public(1)]) {
        Ok(page) => assert_eq!(page.next_cursor, None),
        Err(error) => panic!("{error:?}"),
    }
    assert!(public_children(None, Vec::new()).is_err());
    assert!(matches!(
        db(sqlx::Error::RowNotFound),
        AppError::Repository { error: MetadataRepositoryError::NotFound }
    ));
}

#[test]
fn emails_have_one_local_part_and_a_dotted_domain() {
    assert!(valid_email("a@b.example"));
    assert!(!valid_email("a@b"));
    assert!(!valid_email("@b.example"));
    assert!(!valid_email("a@b@c.example"));
    assert!(!valid_email("a b@c.example"));
    assert!(!valid_email(&format!("{}@b.example", "a".repeat(250))));
    assert!(check_email("a@b.example").is_ok());
    assert!(matches!(check_email("a"), Err(AppError::Validation { code: "invalid_email" })));
    let contact = ContactRow {
        actor_type: "carbon".to_owned(),
        actor_id: Candidate { text: "guest".to_owned(), accepted: true },
    };
    match member_by_email("a@b.example", &vec![contact.clone()]) {
        Ok(member) => assert_eq!(member.id, "guest"),
        Err(error) => panic!("{error:?}"),
    }
    assert!(matches!(
        member_by_email("a@b.example", &vec![contact.clone(), contact]),
        Err(AppError::Validation { code: "email_not_in_organization_directory" })
    ));
    assert!(member_by_email("a@b.example", &Vec::new()).is_err());
}

fn invite(
    access: GrantedAccess,
    minutes: Option<u32>,
    tag: Option<&str>,
    claim: IdempotencyClaim,
) -> Result<TagInvitation, AppError> {
    invite_tag(
        5,
        Some(&entry(true)),
        tag.map(str::to_owned),
        access,
        true,
        minutes,
        claim,
        &carbon("owner"),
    )
}

#[test]
fn tags_are_invited_like_members() {
    match invite(READ_UPDATE, None, Some("design-id"), IdempotencyClaim::Acquired(Some(8))) {
        Ok(TagInvitation::Apply { grant }) => {
            assert_eq!(grant.grant_id, 8);
            assert_eq!(grant.tag_id, "design-id");
            assert_eq!(grant.access_mask, 5);
        }
        other => panic!("{other:?}"),
    }
    assert!(matches!(
        invite(READ_UPDATE, None, Some("design-id"), IdempotencyClaim::Replay(Some(8))),
        Ok(TagInvitation::Replay { grant_id: 8 })
    ));
    assert!(invite(READ_UPDATE, Some(5), Some("x"), IdempotencyClaim::Acquired(Some(8))).is_err());
    assert!(invite(READ_ONLY, None, None, IdempotencyClaim::Acquired(Some(8))).is_err());
    let tag = "design-id".to_owned();
    let granted = tag_granted(5, 8, &tag, READ_ONLY, true, None);
    assert_eq!(granted.action, "permission.tag_granted.v1");
    let expiring = tag_granted(5, 8, &tag, READ_ONLY, true, Some(50));
    assert_eq!(expiring.action, "permission.tag_expiring_share_granted.v1");
    let told = notify_tag(
        &tag,
        NotificationKind::AccessGranted,
        &carbon("owner"),
        &entry(true).entry,
        Some(READ_UPDATE),
    );
    assert_eq!(told.access_mask, Some(5));
    assert_eq!(told.entry_type, "file");
}

#[test]
fn invitations_are_paged_for_managers() {
    assert!(matches!(invitations(Some(&entry(true)), &vec![1, 2]), Ok((2, None))));
    assert!(invitations(Some(&entry(false)), &vec![1]).is_err());
    let many: Vec<u128> = (0..=100).collect();
    assert!(matches!(invitations(Some(&entry(true)), &many), Ok((100, Some(99)))));
}

#[test]
fn revoking_a_tag_notifies_its_members_once() {
    let row = TagGrantRow { tag_id: "design-id".to_owned(), expires_at: None, expired: false };
    assert!(matches!(
        revoke_tag_or_member(
            Some(&entry(true)),
            &Some(row.clone()),
            StoredId { value: 8, accepted: true },
            IdempotencyClaim::Acquired(None),
        ),
        Ok(RevocationStep::Tag)
    ));
    assert!(matches!(
        revoke_tag_or_member(
            Some(&entry(true)),
            &None,
            StoredId { value: 8, accepted: true },
            IdempotencyClaim::Acquired(None),
        ),
        Ok(RevocationStep::Member { grant_id: 8 })
    ));
    let first = tag_revoked(5, &entry(true).entry, &row, 8, 1, &carbon("owner"));
    assert!(first.change.is_some());
    match first.notification {
        Some(told) => {
            assert_eq!(told.tag_id, "design-id");
            assert_eq!(told.kind, "access_revoked");
            assert_eq!(told.entry_type, "file");
            assert_eq!(told.access_mask, None);
        }
        None => panic!("members are told"),
    }
    assert!(matches!(require_tag(&None), Err(AppError::Validation { code: "invalid_tag" })));
    assert!(matches!(require_tag(&Some("design-id".to_owned())), Ok(tag) if tag == "design-id"));
    let again = tag_revoked(5, &entry(true).entry, &row, 8, 0, &carbon("owner"));
    assert!(again.change.is_none());
    assert!(again.notification.is_none());
}

fn share(expires_at: Option<i128>) -> ExpiringShareRow {
    ExpiringShareRow {
        principal_type: "carbon".to_owned(),
        principal_id: "guest".to_owned(),
        inherits_to_descendants: true,
        expires_at,
        tag: false,
    }
}

fn change_share(
    row: Option<ExpiringShareRow>,
    minutes: Option<u32>,
    permanent: Option<u128>,
    claim: IdempotencyClaim,
) -> Result<ShareOutcome, AppError> {
    change_expiring_share(5, Some(&entry(true)), 8, &row, claim, minutes, permanent)
}

#[test]
fn expiring_shares_are_restarted_made_permanent_or_folded() {
    let run = IdempotencyClaim::Acquired(Some(8));
    assert!(matches!(
        change_share(Some(share(Some(50))), Some(30), None, run),
        Ok(ShareOutcome::Apply { change: ShareChange::Restart { minutes: 30 }, .. })
    ));
    match change_share(Some(share(Some(50))), None, None, run) {
        Ok(ShareOutcome::Apply { change: ShareChange::MakePermanent { change }, result, .. }) => {
            assert_eq!(change.action, "permission.expiring_share_made_permanent.v1");
            assert_eq!(result, 8);
        }
        other => panic!("{other:?}"),
    }
    match change_share(Some(share(Some(50))), None, Some(3), run) {
        Ok(ShareOutcome::Apply { change: ShareChange::Fold { permanent_id, .. }, result, .. }) => {
            assert_eq!(permanent_id, 3);
            assert_eq!(result, 3);
        }
        other => panic!("{other:?}"),
    }
    assert!(change_share(Some(share(None)), Some(30), None, run).is_err());
    assert!(change_share(None, Some(30), None, run).is_err());
    let restarted = share_restarted(5, &share(Some(50)), 8, 50, 90);
    assert_eq!(restarted.action, "permission.expiring_share_changed.v1");
}

#[test]
fn only_creators_and_administrators_keep_a_self_destructing_file() {
    let keep = |actor: &str, role: OrganizationRole| {
        check_keeper(Some(&entry(true)), "carbon", "owner", &carbon(actor), role)
    };
    assert!(keep("owner", OrganizationRole::Member).is_ok());
    assert!(keep("admin", OrganizationRole::Admin).is_ok());
    assert!(matches!(keep("editor", OrganizationRole::Member), Err(AppError::Forbidden)));
    match make_permanent(
        5,
        Some(&entry(true)),
        "carbon",
        "owner",
        &carbon("owner"),
        OrganizationRole::Member,
        IdempotencyClaim::Acquired(None),
        Some(900),
    ) {
        Ok(Some(change)) => assert_eq!(change.action, "entry.made_permanent.v1"),
        other => panic!("{other:?}"),
    }
    assert!(matches!(
        make_permanent(
            5,
            Some(&entry(true)),
            "carbon",
            "owner",
            &carbon("owner"),
            OrganizationRole::Member,
            IdempotencyClaim::Acquired(None),
            None,
        ),
        Err(AppError::Conflict { .. })
    ));
}
