//! Invitations of tags, contacts of members and expiring shares.

use vstd::prelude::*;
use vstd::utf8::encode_utf8;

use crate::error::{conflict, repo_error, validation, AppError};
use crate::ids::{Candidate, StoredId};
use crate::model::{
    ActorRef, AuthorizableEntry, Capability, EntryKind, EntryView, GrantedAccess,
    IdempotencyClaim,
};
use crate::postgres::metadata::common::{
    access_rights, actor_ref, actor_ref_of, encode_access, entry_change, mask_of, right_words,
    ChangeRecord, Detail, DetailValue,
};
use crate::postgres::metadata::entries::deref_entry;
use crate::postgres::metadata::listing::{kept_rows, page_length};
use crate::postgres::metadata::notifications::{
    encode_entry_kind, encode_kind, entry_kind_word, kind_word, NotificationKind,
};

verus! {

/// Whether a byte may not stand in a mail address.
pub open spec fn email_excluded(byte: u8) -> bool {
    byte <= 0x20 || byte == 0x7f || byte == 0x2c || byte == 0x3b || byte == 0x3c || byte == 0x3e
}

/// Whether bytes are a mail address: short enough, one `@` with something
/// before it and a dot somewhere behind it, and no separators or controls.
pub open spec fn email_ok(bytes: Seq<u8>) -> bool {
    &&& bytes.len() <= 254
    &&& forall|k: int| 0 <= k < bytes.len() ==> !email_excluded(#[trigger] bytes[k])
    &&& exists|at: int| #[trigger]
        splits_at(bytes, at) && at > 0 && exists|dot: int|
            at < dot < bytes.len() && #[trigger] bytes[dot] == 0x2e
}

/// Whether an index holds the only `@` of bytes.
pub open spec fn splits_at(bytes: Seq<u8>, at: int) -> bool {
    0 <= at < bytes.len() && bytes[at] == 0x40 && forall|k: int|
        0 <= k < bytes.len() && #[trigger] bytes[k] == 0x40 ==> k == at
}

/// Whether a text is a mail address.
pub fn valid_email(email: &str) -> (valid: bool)
    ensures
        valid == email_ok(encode_utf8(email@)),
{
    let bytes = email.as_bytes();
    if bytes.len() > 254 {
        return false;
    }
    let mut index: usize = 0;
    let mut at: Option<usize> = None;
    let mut dotted = false;
    while index < bytes.len()
        invariant
            index <= bytes@.len(),
            bytes@ == encode_utf8(email@),
            bytes@.len() <= 254,
            forall|k: int| 0 <= k < index ==> !email_excluded(#[trigger] bytes@[k]),
            match at {
                None => !dotted && forall|k: int| 0 <= k < index ==> #[trigger] bytes@[k] != 0x40,
                Some(found) => found < index && bytes@[found as int] == 0x40 && (forall|k: int|
                    0 <= k < index && #[trigger] bytes@[k] == 0x40 ==> k == found) && dotted == (
                exists|dot: int| found < dot < index && #[trigger] bytes@[dot] == 0x2e),
            },
        decreases bytes@.len() - index,
    {
        let byte: u8 = bytes[index];
        if byte <= 0x20 || byte == 0x7f || byte == 0x2c || byte == 0x3b || byte == 0x3c || byte
            == 0x3e {
            assert(email_excluded(bytes@[index as int]));
            return false;
        }
        if byte == 0x40 {
            if at.is_some() {
                proof {
                    let first = at->0 as int;
                    assert(bytes@[first] == 0x40 && bytes@[index as int] == 0x40);
                    assert forall|other: int| !#[trigger] splits_at(bytes@, other) by {
                        if splits_at(bytes@, other) {
                            assert(first == other && index as int == other);
                        }
                    }
                }
                return false;
            }
            at = Some(index);
        } else if byte == 0x2e && at.is_some() {
            dotted = true;
            assert(bytes@[index as int] == 0x2e);
        }
        index += 1;
    }
    match at {
        Some(found) => {
            proof {
                assert(splits_at(bytes@, found as int));
                assert forall|other: int| #[trigger] splits_at(bytes@, other) implies other
                    == found by {
                    assert(bytes@[found as int] == 0x40);
                }
            }
            found > 0 && dotted
        },
        None => {
            assert forall|other: int| !#[trigger] splits_at(bytes@, other) by {}
            false
        },
    }
}

/// Refuses a text that is no mail address.
pub fn check_email(email: &str) -> (result: Result<(), AppError>)
    ensures
        result == if email_ok(encode_utf8(email@)) {
            Ok::<(), AppError>(())
        } else {
            Err::<(), AppError>(AppError::Validation { code: "invalid_email" })
        },
{
    if valid_email(email) {
        Ok(())
    } else {
        Err(validation("invalid_email"))
    }
}

/// One member that a mail address belongs to.
#[derive(Clone, Debug)]
pub struct ContactRow {
    /// Kind of the member.
    pub actor_type: String,
    /// Identifier of the member.
    pub actor_id: Candidate,
}

/// The one active member that a mail address belongs to.
pub fn member_by_email(email: &str, rows: &Vec<ContactRow>) -> (member: Result<ActorRef, AppError>)
    ensures
        if !email_ok(encode_utf8(email@)) {
            member == Err::<ActorRef, AppError>(AppError::Validation { code: "invalid_email" })
        } else if rows@.len() != 1 {
            member == Err::<ActorRef, AppError>(
                AppError::Validation { code: "email_not_in_organization_directory" },
            )
        } else {
            match actor_ref_of(rows@[0].actor_type@, rows@[0].actor_id) {
                Ok(actor) => member == Ok::<ActorRef, AppError>(actor),
                Err(error) => member == Err::<ActorRef, AppError>(AppError::Repository { error }),
            }
        },
{
    match check_email(email) {
        Ok(()) => {},
        Err(error) => {
            return Err(error);
        },
    }
    if rows.len() != 1 {
        return Err(validation("email_not_in_organization_directory"));
    }
    match actor_ref(rows[0].actor_type.as_str(), &rows[0].actor_id) {
        Ok(actor) => Ok(actor),
        Err(error) => Err(repo_error(error)),
    }
}

/// A tag grant row to insert.
#[derive(Clone, Debug)]
pub struct TagGrantInsert {
    /// The entry.
    pub entry_id: u128,
    /// Grant identifier.
    pub grant_id: u128,
    /// The tag.
    pub tag_id: String,
    /// Rights as a bit mask.
    pub access_mask: i16,
    /// Whether the grant reaches descendants.
    pub inherits_to_descendants: bool,
    /// Member that grants access.
    pub granted_by: ActorRef,
    /// Minutes that an expiring share lasts. One is always a row of its own; a
    /// permanent grant amends the tag's permanent grant on the entry.
    pub lifetime_minutes: Option<u32>,
}

/// What inviting a tag leads to.
#[derive(Clone, Debug)]
pub enum TagInvitation {
    /// It was invited before: answer with this grant.
    Replay {
        /// The grant.
        grant_id: u128,
    },
    /// It is invited now.
    Apply {
        /// The grant.
        grant: TagGrantInsert,
    },
}

/// The first reason why a tag is not invited, before its name is looked up.
pub open spec fn tag_invitation_refusal(
    entry: Option<AuthorizableEntry>,
    access: GrantedAccess,
    lifetime_minutes: Option<u32>,
) -> Option<AppError> {
    match entry {
        None => Some(AppError::NotFound),
        Some(found) => if !found.access.read {
            Some(AppError::NotFound)
        } else if !found.access.manage_permissions {
            Some(AppError::Forbidden)
        } else if access.delete || (found.entry.kind == EntryKind::File && access.write) {
            Some(AppError::Validation { code: "invalid_invitation_rights" })
        } else if lifetime_minutes is Some && access.beyond_read() {
            Some(AppError::Validation { code: "expiring_share_is_read_only" })
        } else {
            None
        },
    }
}

/// Refuses an invitation that the entry, the caller or the rights do not allow.
pub fn check_tag_invitation(
    entry: Option<&AuthorizableEntry>,
    access: GrantedAccess,
    lifetime_minutes: Option<u32>,
) -> (result: Result<(), AppError>)
    ensures
        match tag_invitation_refusal(deref_entry(entry), access, lifetime_minutes) {
            Some(error) => result == Err::<(), AppError>(error),
            None => result == Ok::<(), AppError>(()),
        },
{
    let found = match entry {
        Some(found) => found,
        None => {
            return Err(AppError::NotFound);
        },
    };
    if !found.access.allows(Capability::Read) {
        return Err(AppError::NotFound);
    }
    if !found.access.allows(Capability::ManagePermissions) {
        return Err(AppError::Forbidden);
    }
    if access.delete || (found.entry.kind == EntryKind::File && access.write) {
        return Err(validation("invalid_invitation_rights"));
    }
    if lifetime_minutes.is_some() && (access.write || access.update || access.delete) {
        return Err(validation("expiring_share_is_read_only"));
    }
    Ok(())
}

/// Refuses an invitation of a tag that no active tag answers to.
pub fn require_tag(tag_id: &Option<String>) -> (result: Result<&String, AppError>)
    ensures
        match *tag_id {
            Some(tag) => result is Ok && *result->Ok_0 == tag,
            None => result == Err::<&String, AppError>(AppError::Validation { code: "invalid_tag" }),
        },
{
    match tag_id {
        Some(tag) => Ok(tag),
        None => Err(validation("invalid_tag")),
    }
}

/// Decides whether a tag is invited. `tag_id` is the active tag that the
/// request names.
pub fn invite_tag(
    id: u128,
    entry: Option<&AuthorizableEntry>,
    tag_id: Option<String>,
    access: GrantedAccess,
    inherit: bool,
    lifetime_minutes: Option<u32>,
    claim: IdempotencyClaim,
    actor: &ActorRef,
) -> (invitation: Result<TagInvitation, AppError>)
    ensures
        match tag_invitation_refusal(deref_entry(entry), access, lifetime_minutes) {
            Some(error) => invitation == Err::<TagInvitation, AppError>(error),
            None => if tag_id is None {
                invitation == Err::<TagInvitation, AppError>(
                    AppError::Validation { code: "invalid_tag" },
                )
            } else {
                match claim {
                    IdempotencyClaim::Replay(Some(grant_id)) => invitation == Ok::<
                        TagInvitation,
                        AppError,
                    >(TagInvitation::Replay { grant_id }),
                    IdempotencyClaim::Acquired(Some(grant_id)) => invitation == Ok::<
                        TagInvitation,
                        AppError,
                    >(
                        TagInvitation::Apply {
                            grant: TagGrantInsert {
                                entry_id: id,
                                grant_id,
                                tag_id: tag_id->0,
                                access_mask: mask_of(access),
                                inherits_to_descendants: inherit,
                                granted_by: *actor,
                                lifetime_minutes,
                            },
                        },
                    ),
                    _ => invitation == Err::<TagInvitation, AppError>(
                        AppError::Conflict { code: "invalid_invitation_state" },
                    ),
                }
            },
        },
{
    match check_tag_invitation(entry, access, lifetime_minutes) {
        Ok(()) => {},
        Err(error) => {
            return Err(error);
        },
    }
    let tag_id = match require_tag(&tag_id) {
        Ok(tag_id) => tag_id.clone(),
        Err(error) => {
            return Err(error);
        },
    };
    match claim {
        IdempotencyClaim::Replay(Some(grant_id)) => Ok(TagInvitation::Replay { grant_id }),
        IdempotencyClaim::Acquired(Some(grant_id)) => Ok(
            TagInvitation::Apply {
                grant: TagGrantInsert {
                    entry_id: id,
                    grant_id,
                    tag_id,
                    access_mask: encode_access(access),
                    inherits_to_descendants: inherit,
                    granted_by: actor.duplicate(),
                    lifetime_minutes,
                },
            },
        ),
        _ => Err(conflict("invalid_invitation_state")),
    }
}

/// The name of the change that inviting a tag makes.
pub open spec fn tag_grant_action(expires_at: Option<i128>) -> &'static str {
    if expires_at is Some {
        "permission.tag_expiring_share_granted.v1"
    } else {
        "permission.tag_granted.v1"
    }
}

/// The change that inviting a tag makes, once its grant is stored.
pub fn tag_granted(
    id: u128,
    grant_id: u128,
    tag_id: &String,
    access: GrantedAccess,
    inherit: bool,
    expires_at: Option<i128>,
) -> (change: ChangeRecord)
    ensures
        change.entry_id == Some(id),
        change.action == tag_grant_action(expires_at),
        change.aggregate_type == "entry",
        change.aggregate_id@ == crate::ids::hyphenated_chars(id),
        change.payload@.len() == 5,
        change.payload@[0] == (Detail { key: "grant_id", value: DetailValue::Id(grant_id) }),
        change.payload@[1] == (Detail { key: "tag_id", value: DetailValue::Text(*tag_id) }),
        change.payload@[2].key == "access",
        change.payload@[2].value matches DetailValue::Words(words) && words@ == right_words(access),
        change.payload@[3] == (Detail { key: "inherit", value: DetailValue::Bool(inherit) }),
        change.payload@[4] == (Detail {
            key: "expires_at",
            value: DetailValue::of_instant(expires_at),
        }),
{
    let action = if expires_at.is_some() {
        "permission.tag_expiring_share_granted.v1"
    } else {
        "permission.tag_granted.v1"
    };
    let payload: Vec<Detail> = vec![
        Detail { key: "grant_id", value: DetailValue::Id(grant_id) },
        Detail { key: "tag_id", value: DetailValue::Text(tag_id.clone()) },
        Detail { key: "access", value: DetailValue::Words(access_rights(access)) },
        Detail { key: "inherit", value: DetailValue::Bool(inherit) },
        Detail { key: "expires_at", value: DetailValue::optional_instant(expires_at) },
    ];
    entry_change(id, action, payload)
}

/// What every active member with a tag is told.
#[derive(Clone, Debug)]
pub struct TagNotification {
    /// The tag.
    pub tag_id: String,
    /// What happened.
    pub kind: &'static str,
    /// Member that made it happen.
    pub actor: ActorRef,
    /// The entry.
    pub entry_id: u128,
    /// Name of the entry.
    pub name: String,
    /// Path of the entry.
    pub path: String,
    /// Kind of the entry.
    pub entry_type: &'static str,
    /// Rights involved as a bit mask.
    pub access_mask: Option<i16>,
}

/// What every active member with a tag is told of its access.
pub fn notify_tag(
    tag_id: &String,
    kind: NotificationKind,
    actor: &ActorRef,
    entry: &EntryView,
    access: Option<GrantedAccess>,
) -> (notification: TagNotification)
    ensures
        notification.tag_id == *tag_id,
        notification.kind@ == kind_word(kind),
        notification.actor == *actor,
        notification.entry_id == entry.id,
        notification.name == entry.name,
        notification.path == entry.path,
        notification.entry_type@ == entry_kind_word(entry.kind),
        notification.access_mask == match access {
            Some(rights) => Some(mask_of(rights)),
            None => None,
        },
{
    let access_mask: Option<i16> = match access {
        Some(rights) => Some(encode_access(rights)),
        None => None,
    };
    TagNotification {
        tag_id: tag_id.clone(),
        kind: encode_kind(kind),
        actor: actor.duplicate(),
        entry_id: entry.id,
        name: entry.name.clone(),
        path: entry.path.clone(),
        entry_type: encode_entry_kind(entry.kind),
        access_mask,
    }
}

/// Invitations that a page shows.
pub const INVITATION_PAGE: usize = 100;

/// Refuses the invitations of an entry to whoever may not manage them.
pub fn check_manager(entry: Option<&AuthorizableEntry>) -> (result: Result<(), AppError>)
    ensures
        result == if entry is Some && entry->0.access.manage_permissions {
            Ok::<(), AppError>(())
        } else {
            Err::<(), AppError>(AppError::NotFound)
        },
{
    match entry {
        Some(found) => {
            if found.access.allows(Capability::ManagePermissions) {
                Ok(())
            } else {
                Err(AppError::NotFound)
            }
        },
        None => Err(AppError::NotFound),
    }
}

/// One page of an entry's invitations, by the identifiers of their grants: how
/// many are shown, and after which the next page starts.
pub fn invitations(entry: Option<&AuthorizableEntry>, grants: &Vec<u128>) -> (page: Result<
    (usize, Option<u128>),
    AppError,
>)
    ensures
        page == if entry is Some && entry->0.access.manage_permissions {
            Ok::<(usize, Option<u128>), AppError>(
                (
                    kept_rows(grants@.len(), INVITATION_PAGE as nat) as usize,
                    if grants@.len() > INVITATION_PAGE {
                        Some(grants@[INVITATION_PAGE - 1])
                    } else {
                        None
                    },
                ),
            )
        } else {
            Err::<(usize, Option<u128>), AppError>(AppError::NotFound)
        },
{
    match check_manager(entry) {
        Ok(()) => {},
        Err(error) => {
            return Err(error);
        },
    }
    let shown: usize = page_length(grants.len(), INVITATION_PAGE);
    let next = if grants.len() > INVITATION_PAGE {
        Some(grants[INVITATION_PAGE - 1])
    } else {
        None
    };
    Ok((shown, next))
}

/// A tag grant as stored.
#[derive(Clone, Debug)]
pub struct TagGrantRow {
    /// The tag.
    pub tag_id: String,
    /// End of an expiring share.
    pub expires_at: Option<i128>,
    /// Whether that end has passed.
    pub expired: bool,
}

/// What revoking a grant that may be a member's or a tag's leads to.
#[derive(Clone, Debug)]
pub enum RevocationStep {
    /// It is a member's grant: revoke it as one.
    Member {
        /// The grant.
        grant_id: u128,
    },
    /// It is a tag's grant that was revoked before.
    Replay,
    /// It is a tag's grant: revoke it.
    Tag,
}

/// Decides how a grant that may be a member's or a tag's is revoked. `claim` is
/// the claim on a tag's grant.
pub fn revoke_tag_or_member(
    entry: Option<&AuthorizableEntry>,
    tag: &Option<TagGrantRow>,
    grant: StoredId,
    claim: IdempotencyClaim,
) -> (step: Result<RevocationStep, AppError>)
    ensures
        if !(entry is Some && entry->0.access.manage_permissions) {
            step == Err::<RevocationStep, AppError>(AppError::NotFound)
        } else {
            match *tag {
                None => if grant.accepted {
                    step == Ok::<RevocationStep, AppError>(
                        RevocationStep::Member { grant_id: grant.value },
                    )
                } else {
                    step == Err::<RevocationStep, AppError>(AppError::NotFound)
                },
                Some(row) => if claim is Replay {
                    step == Ok::<RevocationStep, AppError>(RevocationStep::Replay)
                } else if row.expired {
                    step == Err::<RevocationStep, AppError>(AppError::NotFound)
                } else {
                    step == Ok::<RevocationStep, AppError>(RevocationStep::Tag)
                },
            }
        },
{
    match check_manager(entry) {
        Ok(()) => {},
        Err(error) => {
            return Err(error);
        },
    }
    match tag {
        None => {
            if grant.accepted {
                Ok(RevocationStep::Member { grant_id: grant.value })
            } else {
                Err(AppError::NotFound)
            }
        },
        Some(row) => {
            if let IdempotencyClaim::Replay(_) = claim {
                return Ok(RevocationStep::Replay);
            }
            if row.expired {
                return Err(AppError::NotFound);
            }
            Ok(RevocationStep::Tag)
        },
    }
}

/// What a revoked tag grant records and tells.
#[derive(Clone, Debug)]
pub struct TagRevocation {
    /// The change, where the grant was live.
    pub change: Option<ChangeRecord>,
    /// What the tag's members are told; an expiring share ends without it.
    pub notification: Option<TagNotification>,
}

/// The name of the change that revoking a tag grant makes.
pub open spec fn tag_revoke_action(expires_at: Option<i128>) -> &'static str {
    if expires_at is Some {
        "permission.tag_expiring_share_revoked.v1"
    } else {
        "permission.tag_revoked.v1"
    }
}

/// What a revoked tag grant records and tells: nothing where no live grant was
/// changed.
pub fn tag_revoked(
    id: u128,
    entry: &EntryView,
    row: &TagGrantRow,
    grant_id: u128,
    changed_rows: u64,
    actor: &ActorRef,
) -> (revocation: TagRevocation)
    ensures
        revocation.change is Some == (changed_rows > 0),
        revocation.change matches Some(change) ==> change.is_entry_change(
            id,
            tag_revoke_action(row.expires_at),
            seq![
                Detail { key: "grant_id", value: DetailValue::Id(grant_id) },
                Detail { key: "tag_id", value: DetailValue::Text(row.tag_id) },
            ],
        ),
        revocation.notification is Some == (changed_rows > 0 && row.expires_at is None),
        revocation.notification matches Some(notification) ==> notification.tag_id == row.tag_id
            && notification.kind@ == kind_word(NotificationKind::AccessRevoked)
            && notification.actor == *actor && notification.entry_id == entry.id
            && notification.name == entry.name && notification.path == entry.path
            && notification.entry_type@ == entry_kind_word(entry.kind)
            && notification.access_mask is None,
{
    if changed_rows == 0 {
        return TagRevocation { change: None, notification: None };
    }
    let action = if row.expires_at.is_some() {
        "permission.tag_expiring_share_revoked.v1"
    } else {
        "permission.tag_revoked.v1"
    };
    let payload: Vec<Detail> = vec![
        Detail { key: "grant_id", value: DetailValue::Id(grant_id) },
        Detail { key: "tag_id", value: DetailValue::Text(row.tag_id.clone()) },
    ];
    assert(payload@ =~= seq![
        Detail { key: "grant_id", value: DetailValue::Id(grant_id) },
        Detail { key: "tag_id", value: DetailValue::Text(row.tag_id) },
    ]);
    let notification = if row.expires_at.is_none() {
        Some(notify_tag(&row.tag_id, NotificationKind::AccessRevoked, actor, entry, None))
    } else {
        None
    };
    TagRevocation { change: Some(entry_change(id, action, payload)), notification }
}

/// A live grant of a member or a tag.
#[derive(Clone, Debug)]
pub struct ExpiringShareRow {
    /// Kind of the principal.
    pub principal_type: String,
    /// Identifier of the principal.
    pub principal_id: String,
    /// Whether the grant reaches descendants.
    pub inherits_to_descendants: bool,
    /// End of an expiring share.
    pub expires_at: Option<i128>,
    /// Whether the principal is a tag.
    pub tag: bool,
}

/// How an expiring share changes.
#[derive(Clone, Debug)]
pub enum ShareChange {
    /// Its clock starts again.
    Restart {
        /// Minutes that it lasts from now.
        minutes: u32,
    },
    /// It becomes permanent by itself.
    MakePermanent {
        /// The change.
        change: ChangeRecord,
    },
    /// It is folded into the principal's permanent grant, which keeps its rights
    /// and reaches descendants where the share did; the share ends.
    Fold {
        /// The permanent grant.
        permanent_id: u128,
        /// Whether the permanent grant reaches descendants from now on, even
        /// where it did not.
        add_inheritance: bool,
        /// The change.
        change: ChangeRecord,
    },
}

/// What changing an expiring share leads to.
#[derive(Clone, Debug)]
pub enum ShareOutcome {
    /// It was changed before: answer with this grant.
    Replay {
        /// The grant.
        grant_id: u128,
    },
    /// It is changed now.
    Apply {
        /// How.
        change: ShareChange,
        /// Whether the share is a tag's.
        tag: bool,
        /// The grant to answer with.
        result: u128,
    },
}

/// The principal of a share, as details name it.
pub open spec fn share_principal(share: ExpiringShareRow) -> Detail {
    Detail {
        key: "principal",
        value: DetailValue::Principal { kind: share.principal_type, id: share.principal_id },
    }
}

/// The details of a share that became permanent.
pub open spec fn permanent_details(
    share: ExpiringShareRow,
    grant_id: u128,
    previous: i128,
    result: u128,
) -> Seq<Detail> {
    seq![
        Detail { key: "grant_id", value: DetailValue::Id(grant_id) },
        share_principal(share),
        Detail { key: "previous_expires_at", value: DetailValue::Instant(previous) },
        Detail { key: "permanent_grant_id", value: DetailValue::Id(result) },
    ]
}

/// The change that making a share permanent makes.
fn made_permanent(
    id: u128,
    share: &ExpiringShareRow,
    grant_id: u128,
    previous: i128,
    result: u128,
) -> (change: ChangeRecord)
    ensures
        change.is_entry_change(
            id,
            "permission.expiring_share_made_permanent.v1",
            permanent_details(*share, grant_id, previous, result),
        ),
{
    let payload: Vec<Detail> = vec![
        Detail { key: "grant_id", value: DetailValue::Id(grant_id) },
        Detail {
            key: "principal",
            value: DetailValue::Principal {
                kind: share.principal_type.clone(),
                id: share.principal_id.clone(),
            },
        },
        Detail { key: "previous_expires_at", value: DetailValue::Instant(previous) },
        Detail { key: "permanent_grant_id", value: DetailValue::Id(result) },
    ];
    assert(payload@ =~= permanent_details(*share, grant_id, previous, result));
    entry_change(id, "permission.expiring_share_made_permanent.v1", payload)
}

/// The first reason why an expiring share does not change.
pub open spec fn share_refusal(
    entry: Option<AuthorizableEntry>,
    share: Option<ExpiringShareRow>,
    claim: IdempotencyClaim,
) -> Option<AppError> {
    if !(entry matches Some(found) && found.access.manage_permissions) {
        Some(AppError::NotFound)
    } else if claim matches IdempotencyClaim::Replay(Some(_)) {
        None
    } else {
        match share {
            None => Some(AppError::NotFound),
            Some(row) => if row.expires_at is None {
                Some(AppError::Conflict { code: "not_an_expiring_share" })
            } else {
                None
            },
        }
    }
}

/// Decides how an expiring share changes: with a lifetime its clock starts
/// again, without one it becomes permanent. `permanent` is the permanent grant
/// that the share's principal holds on the entry already.
pub fn change_expiring_share(
    id: u128,
    entry: Option<&AuthorizableEntry>,
    grant_id: u128,
    share: &Option<ExpiringShareRow>,
    claim: IdempotencyClaim,
    lifetime_minutes: Option<u32>,
    permanent: Option<u128>,
) -> (outcome: Result<ShareOutcome, AppError>)
    ensures
        match share_refusal(deref_entry(entry), *share, claim) {
            Some(error) => outcome == Err::<ShareOutcome, AppError>(error),
            None => match claim {
                IdempotencyClaim::Replay(Some(result)) => outcome == Ok::<ShareOutcome, AppError>(
                    ShareOutcome::Replay { grant_id: result },
                ),
                _ => outcome matches Ok(ShareOutcome::Apply { change, tag, result }) && share
                    is Some && tag == share->0.tag && match (lifetime_minutes, permanent) {
                    (Some(minutes), _) => change == (ShareChange::Restart { minutes }) && result
                        == grant_id,
                    (None, Some(held)) => result == held && (change matches ShareChange::Fold {
                        permanent_id,
                        add_inheritance,
                        change: record,
                    } && permanent_id == held && add_inheritance == share->0.inherits_to_descendants
                        && record.is_entry_change(
                        id,
                        "permission.expiring_share_made_permanent.v1",
                        permanent_details(share->0, grant_id, share->0.expires_at->0, held),
                    )),
                    (None, None) => result == grant_id && (change matches ShareChange::MakePermanent {
                        change: record,
                    } && record.is_entry_change(
                        id,
                        "permission.expiring_share_made_permanent.v1",
                        permanent_details(share->0, grant_id, share->0.expires_at->0, grant_id),
                    )),
                },
            },
        },
{
    match check_manager(entry) {
        Ok(()) => {},
        Err(error) => {
            return Err(error);
        },
    }
    if let IdempotencyClaim::Replay(Some(result)) = claim {
        return Ok(ShareOutcome::Replay { grant_id: result });
    }
    let row = match share {
        Some(row) => row,
        None => {
            return Err(AppError::NotFound);
        },
    };
    let previous: i128 = match row.expires_at {
        Some(previous) => previous,
        None => {
            return Err(conflict("not_an_expiring_share"));
        },
    };
    match lifetime_minutes {
        Some(minutes) => Ok(
            ShareOutcome::Apply {
                change: ShareChange::Restart { minutes },
                tag: row.tag,
                result: grant_id,
            },
        ),
        None => match permanent {
            Some(held) => Ok(
                ShareOutcome::Apply {
                    change: ShareChange::Fold {
                        permanent_id: held,
                        add_inheritance: row.inherits_to_descendants,
                        change: made_permanent(id, row, grant_id, previous, held),
                    },
                    tag: row.tag,
                    result: held,
                },
            ),
            None => Ok(
                ShareOutcome::Apply {
                    change: ShareChange::MakePermanent {
                        change: made_permanent(id, row, grant_id, previous, grant_id),
                    },
                    tag: row.tag,
                    result: grant_id,
                },
            ),
        },
    }
}

/// The details of a share whose clock started again.
pub open spec fn restart_details(
    share: ExpiringShareRow,
    grant_id: u128,
    previous: i128,
    expires_at: i128,
) -> Seq<Detail> {
    seq![
        Detail { key: "grant_id", value: DetailValue::Id(grant_id) },
        share_principal(share),
        Detail { key: "previous_expires_at", value: DetailValue::Instant(previous) },
        Detail { key: "expires_at", value: DetailValue::Instant(expires_at) },
    ]
}

/// The change that restarting a share's clock makes, once its new end is known.
pub fn share_restarted(
    id: u128,
    share: &ExpiringShareRow,
    grant_id: u128,
    previous: i128,
    expires_at: i128,
) -> (change: ChangeRecord)
    ensures
        change.is_entry_change(
            id,
            "permission.expiring_share_changed.v1",
            restart_details(*share, grant_id, previous, expires_at),
        ),
{
    let payload: Vec<Detail> = vec![
        Detail { key: "grant_id", value: DetailValue::Id(grant_id) },
        Detail {
            key: "principal",
            value: DetailValue::Principal {
                kind: share.principal_type.clone(),
                id: share.principal_id.clone(),
            },
        },
        Detail { key: "previous_expires_at", value: DetailValue::Instant(previous) },
        Detail { key: "expires_at", value: DetailValue::Instant(expires_at) },
    ];
    assert(payload@ =~= restart_details(*share, grant_id, previous, expires_at));
    entry_change(id, "permission.expiring_share_changed.v1", payload)
}

/// Only whoever manages an entry changes its shares, and a permanent grant never
/// becomes an expiring one.
pub proof fn law_permanent_grants_stay_permanent(
    entry: AuthorizableEntry,
    share: ExpiringShareRow,
    resource: Option<u128>,
)
    requires
        entry.access.manage_permissions,
        share.expires_at is None,
    ensures
        share_refusal(Some(entry), Some(share), IdempotencyClaim::Acquired(resource)) == Some(
            AppError::Conflict { code: "not_an_expiring_share" },
        ),
{
}

} // verus!
