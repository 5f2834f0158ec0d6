//! The notification inbox. A notification is written in the transaction of the
//! change that caused it.

use vstd::prelude::*;

use crate::error::{internal, MetadataRepositoryError};
use crate::ids::{Candidate, StoredId};
use crate::model::{ActorRef, EntryKind, EntryView, GrantedAccess};
use crate::postgres::kind_chars;
use crate::postgres::metadata::common::{
    access_of, actor_kind, actor_ref, actor_ref_of, decode_access, encode_access, entry_kind,
    entry_kind_of, mask_of,
};
use crate::text::same_text;

verus! {

/// What a notification is about.
#[derive(Clone, Copy, Debug, PartialEq, Eq, Structural)]
pub enum NotificationKind {
    /// Access was granted.
    AccessGranted,
    /// Access was revoked.
    AccessRevoked,
    /// Access was requested.
    AccessRequested,
    /// A request for access was decided.
    AccessRequestDecided,
}

/// How a request for access was decided.
#[derive(Clone, Copy, Debug, PartialEq, Eq, Structural)]
pub enum NotificationDecision {
    /// Approved.
    Approved,
    /// Denied.
    Denied,
}

/// What a notification remembers of an entry.
#[derive(Clone, Debug)]
pub struct EntrySnapshot {
    /// Entry identifier.
    pub entry_id: u128,
    /// Name at that moment.
    pub name: String,
    /// Path at that moment.
    pub path: String,
    /// Kind of the entry.
    pub kind: EntryKind,
}

impl EntrySnapshot {
    /// Whether the snapshot is of an entry.
    pub open spec fn is_of(self, entry: EntryView) -> bool {
        self.entry_id == entry.id && self.name == entry.name && self.path == entry.path && self.kind
            == entry.kind
    }
}

/// What a notification remembers of an entry.
pub fn snapshot(entry: &EntryView) -> (snapshot: EntrySnapshot)
    ensures
        snapshot.is_of(*entry),
{
    EntrySnapshot {
        entry_id: entry.id,
        name: entry.name.clone(),
        path: entry.path.clone(),
        kind: entry.kind,
    }
}

/// A notification about to be written.
#[derive(Clone, Debug)]
pub struct NewNotification {
    /// Member that receives it.
    pub recipient: ActorRef,
    /// What happened.
    pub kind: NotificationKind,
    /// Member that made it happen.
    pub actor: Option<ActorRef>,
    /// Entry that it is about.
    pub subject: Option<EntrySnapshot>,
    /// Rights involved.
    pub access: Option<GrantedAccess>,
    /// Request that it is about.
    pub access_request_id: Option<u128>,
    /// How the request was decided.
    pub decision: Option<NotificationDecision>,
}

/// The stored name of a kind of notification.
pub open spec fn kind_word(kind: NotificationKind) -> Seq<char> {
    match kind {
        NotificationKind::AccessGranted => "access_granted"@,
        NotificationKind::AccessRevoked => "access_revoked"@,
        NotificationKind::AccessRequested => "access_requested"@,
        NotificationKind::AccessRequestDecided => "access_request_decided"@,
    }
}

/// The stored name of a kind of notification.
pub fn encode_kind(kind: NotificationKind) -> (name: &'static str)
    ensures
        name@ == kind_word(kind),
{
    match kind {
        NotificationKind::AccessGranted => "access_granted",
        NotificationKind::AccessRevoked => "access_revoked",
        NotificationKind::AccessRequested => "access_requested",
        NotificationKind::AccessRequestDecided => "access_request_decided",
    }
}

/// The kind of notification that a stored name stands for.
pub open spec fn kind_of_word(value: Seq<char>) -> Option<NotificationKind> {
    if value == "access_granted"@ {
        Some(NotificationKind::AccessGranted)
    } else if value == "access_revoked"@ {
        Some(NotificationKind::AccessRevoked)
    } else if value == "access_requested"@ {
        Some(NotificationKind::AccessRequested)
    } else if value == "access_request_decided"@ {
        Some(NotificationKind::AccessRequestDecided)
    } else {
        None
    }
}

/// The kind of notification that a stored name stands for.
pub fn decode_kind(value: &str) -> (kind: Result<NotificationKind, MetadataRepositoryError>)
    ensures
        kind == match kind_of_word(value@) {
            Some(known) => Ok::<NotificationKind, MetadataRepositoryError>(known),
            None => Err::<NotificationKind, MetadataRepositoryError>(
                MetadataRepositoryError::Internal { reason: "invalid persisted notification kind" },
            ),
        },
{
    if same_text(value, "access_granted") {
        Ok(NotificationKind::AccessGranted)
    } else if same_text(value, "access_revoked") {
        Ok(NotificationKind::AccessRevoked)
    } else if same_text(value, "access_requested") {
        Ok(NotificationKind::AccessRequested)
    } else if same_text(value, "access_request_decided") {
        Ok(NotificationKind::AccessRequestDecided)
    } else {
        Err(internal("invalid persisted notification kind"))
    }
}

/// A kind of notification survives being stored and read back.
pub proof fn law_notification_kinds_round_trip(kind: NotificationKind)
    ensures
        kind_of_word(kind_word(kind)) == Some(kind),
{
    reveal_strlit("access_granted");
    reveal_strlit("access_revoked");
    reveal_strlit("access_requested");
    reveal_strlit("access_request_decided");
    assert("access_granted"@.len() == 14);
    assert("access_revoked"@.len() == 14);
    assert("access_requested"@.len() == 16);
    assert("access_request_decided"@.len() == 22);
    assert("access_granted"@[7] != "access_revoked"@[7]);
}

/// The stored name of a kind of entry.
pub open spec fn entry_kind_word(kind: EntryKind) -> Seq<char> {
    match kind {
        EntryKind::File => "file"@,
        EntryKind::Folder => "folder"@,
    }
}

/// The stored name of a kind of entry.
pub fn encode_entry_kind(kind: EntryKind) -> (name: &'static str)
    ensures
        name@ == entry_kind_word(kind),
{
    match kind {
        EntryKind::File => "file",
        EntryKind::Folder => "folder",
    }
}

/// A kind of entry survives being stored and read back.
pub proof fn law_entry_kinds_round_trip(kind: EntryKind)
    ensures
        entry_kind_of(entry_kind_word(kind)) == Some(kind),
{
    reveal_strlit("file");
    reveal_strlit("folder");
    assert("file"@.len() == 4);
    assert("folder"@.len() == 6);
}

/// One notification as it is written.
#[derive(Clone, Debug)]
pub struct NotificationInsert {
    /// Kind of the recipient.
    pub recipient_type: &'static str,
    /// Identifier of the recipient.
    pub recipient_id: String,
    /// What happened.
    pub kind: &'static str,
    /// Kind of the member that made it happen.
    pub actor_type: Option<&'static str>,
    /// Identifier of that member.
    pub actor_id: Option<String>,
    /// Entry that it is about.
    pub entry_id: Option<u128>,
    /// Name of the entry.
    pub name: Option<String>,
    /// Path of the entry.
    pub path: Option<String>,
    /// Kind of the entry.
    pub entry_type: Option<&'static str>,
    /// Rights involved as a bit mask.
    pub access_mask: Option<i16>,
    /// Request that it is about.
    pub access_request_id: Option<u128>,
    /// How the request was decided.
    pub decision: Option<NotificationDecision>,
}

/// The row that a notification is written as.
pub fn notification_insert(notification: &NewNotification) -> (row: NotificationInsert)
    ensures
        row.recipient_type@ == kind_chars(notification.recipient.kind),
        row.recipient_id == notification.recipient.id,
        row.kind@ == kind_word(notification.kind),
        match notification.actor {
            Some(actor) => row.actor_type is Some && row.actor_type->0@ == kind_chars(actor.kind)
                && row.actor_id == Some(actor.id),
            None => row.actor_type is None && row.actor_id is None,
        },
        match notification.subject {
            Some(subject) => row.entry_id == Some(subject.entry_id) && row.name == Some(
                subject.name,
            ) && row.path == Some(subject.path) && row.entry_type is Some && row.entry_type->0@
                == entry_kind_word(subject.kind),
            None => row.entry_id is None && row.name is None && row.path is None && row.entry_type
                is None,
        },
        row.access_mask == match notification.access {
            Some(access) => Some(mask_of(access)),
            None => None,
        },
        row.access_request_id == notification.access_request_id,
        row.decision == notification.decision,
{
    let (actor_type, actor_id) = match &notification.actor {
        Some(actor) => (Some(actor_kind(actor.kind)), Some(actor.id.clone())),
        None => (None, None),
    };
    let (entry_id, name, path, entry_type) = match &notification.subject {
        Some(subject) => (
            Some(subject.entry_id),
            Some(subject.name.clone()),
            Some(subject.path.clone()),
            Some(encode_entry_kind(subject.kind)),
        ),
        None => (None, None, None, None),
    };
    let access_mask: Option<i16> = match notification.access {
        Some(access) => Some(encode_access(access)),
        None => None,
    };
    NotificationInsert {
        recipient_type: actor_kind(notification.recipient.kind),
        recipient_id: notification.recipient.id.clone(),
        kind: encode_kind(notification.kind),
        actor_type,
        actor_id,
        entry_id,
        name,
        path,
        entry_type,
        access_mask,
        access_request_id: notification.access_request_id,
        decision: notification.decision,
    }
}

/// One notification as stored.
#[derive(Clone, Debug)]
pub struct NotificationRow {
    /// Notification identifier.
    pub notification_id: StoredId,
    /// What happened.
    pub kind: String,
    /// Kind of the member that made it happen.
    pub actor_type: Option<String>,
    /// Identifier of that member.
    pub actor_id: Option<Candidate>,
    /// Entry that it is about.
    pub entry_id: Option<StoredId>,
    /// Whether the stored details could be read.
    pub readable: bool,
    /// Name of the entry.
    pub name: Option<String>,
    /// Path of the entry.
    pub path: Option<Candidate>,
    /// Kind of the entry.
    pub entry_type: Option<String>,
    /// Rights involved as a bit mask.
    pub access_mask: Option<i16>,
    /// Request that it is about.
    pub access_request_id: Option<StoredId>,
    /// How the request was decided.
    pub decision: Option<NotificationDecision>,
    /// Time of reading.
    pub read_at: Option<i128>,
    /// Creation time.
    pub created_at: i128,
}

/// One notification of an inbox.
#[derive(Clone, Debug)]
pub struct Notification {
    /// Notification identifier.
    pub id: u128,
    /// What happened.
    pub kind: NotificationKind,
    /// Member that made it happen.
    pub actor: Option<ActorRef>,
    /// Entry that it is about.
    pub subject: Option<EntrySnapshot>,
    /// Rights involved.
    pub access: Option<GrantedAccess>,
    /// Request that it is about.
    pub access_request_id: Option<u128>,
    /// How the request was decided.
    pub decision: Option<NotificationDecision>,
    /// Creation time.
    pub created_at: i128,
    /// Time of reading.
    pub read_at: Option<i128>,
}

/// A stored value that a notification cannot hold.
pub open spec fn bad_notification(reason: &'static str) -> MetadataRepositoryError {
    MetadataRepositoryError::Internal { reason }
}

/// Whether a row remembers an entry: its identifier and all three facts.
pub open spec fn has_subject(row: NotificationRow) -> bool {
    row.entry_id is Some && row.name is Some && row.path is Some && row.entry_type is Some
}

/// The first reason why a stored notification is no notification.
pub open spec fn notification_error(row: NotificationRow) -> Option<MetadataRepositoryError> {
    if !row.readable {
        Some(bad_notification("invalid persisted notification details"))
    } else if row.actor_type is Some != row.actor_id is Some {
        Some(bad_notification("incomplete persisted notification actor"))
    } else if row.actor_type is Some && actor_ref_of(row.actor_type->0@, row.actor_id->0) is Err {
        Some(actor_ref_of(row.actor_type->0@, row.actor_id->0)->Err_0)
    } else if has_subject(row) && !row.entry_id->0.accepted {
        Some(bad_notification("invalid persisted notification entry identifier"))
    } else if has_subject(row) && !row.path->0.accepted {
        Some(bad_notification("invalid persisted notification path"))
    } else if has_subject(row) && entry_kind_of(row.entry_type->0@) is None {
        Some(bad_notification("invalid persisted entry kind"))
    } else if !row.notification_id.accepted {
        Some(bad_notification("invalid persisted notification identifier"))
    } else if kind_of_word(row.kind@) is None {
        Some(bad_notification("invalid persisted notification kind"))
    } else if row.access_mask is Some && access_of(row.access_mask->0) is Err {
        Some(access_of(row.access_mask->0)->Err_0)
    } else if row.access_request_id matches Some(request) && !request.accepted {
        Some(bad_notification("invalid persisted access-request identifier"))
    } else {
        None
    }
}

/// Whether a notification is what a row stores.
pub open spec fn notification_of_row(made: Notification, row: NotificationRow) -> bool {
    &&& made.id == row.notification_id.value
    &&& Some(made.kind) == kind_of_word(row.kind@)
    &&& match row.actor_type {
        Some(kind) => made.actor is Some && actor_ref_of(kind@, row.actor_id->0) == Ok::<
            ActorRef,
            MetadataRepositoryError,
        >(made.actor->0),
        None => made.actor is None,
    }
    &&& if has_subject(row) {
        made.subject matches Some(subject) && subject.entry_id == row.entry_id->0.value
            && subject.name == row.name->0 && subject.path == row.path->0.text && Some(subject.kind)
            == entry_kind_of(row.entry_type->0@)
    } else {
        made.subject is None
    }
    &&& match row.access_mask {
        Some(mask) => made.access is Some && access_of(mask) == Ok::<
            GrantedAccess,
            MetadataRepositoryError,
        >(made.access->0),
        None => made.access is None,
    }
    &&& made.access_request_id == match row.access_request_id {
        Some(request) => Some(request.value),
        None => None,
    }
    &&& made.decision == row.decision
    &&& made.created_at == row.created_at
    &&& made.read_at == row.read_at
}

/// The entry that a row remembers.
fn stored_subject(row: &NotificationRow) -> (subject: Result<
    Option<EntrySnapshot>,
    MetadataRepositoryError,
>)
    ensures
        if !has_subject(*row) {
            subject == Ok::<Option<EntrySnapshot>, MetadataRepositoryError>(None)
        } else if !row.entry_id->0.accepted {
            subject == Err::<Option<EntrySnapshot>, MetadataRepositoryError>(
                bad_notification("invalid persisted notification entry identifier"),
            )
        } else if !row.path->0.accepted {
            subject == Err::<Option<EntrySnapshot>, MetadataRepositoryError>(
                bad_notification("invalid persisted notification path"),
            )
        } else if entry_kind_of(row.entry_type->0@) is None {
            subject == Err::<Option<EntrySnapshot>, MetadataRepositoryError>(
                bad_notification("invalid persisted entry kind"),
            )
        } else {
            subject matches Ok(Some(found)) && found.entry_id == row.entry_id->0.value && found.name
                == row.name->0 && found.path == row.path->0.text && Some(found.kind)
                == entry_kind_of(row.entry_type->0@)
        },
{
    let entry_id = match row.entry_id {
        Some(entry_id) => entry_id,
        None => {
            return Ok(None);
        },
    };
    match (&row.name, &row.path, &row.entry_type) {
        (Some(name), Some(path), Some(kind)) => {
            if !entry_id.accepted {
                return Err(internal("invalid persisted notification entry identifier"));
            }
            if !path.accepted {
                return Err(internal("invalid persisted notification path"));
            }
            match entry_kind(kind.as_str()) {
                Ok(kind) => Ok(
                    Some(
                        EntrySnapshot {
                            entry_id: entry_id.value,
                            name: name.clone(),
                            path: path.text.clone(),
                            kind,
                        },
                    ),
                ),
                Err(error) => Err(error),
            }
        },
        _ => Ok(None),
    }
}

/// The notification that a row stores.
pub fn notification(row: &NotificationRow) -> (made: Result<Notification, MetadataRepositoryError>)
    ensures
        match notification_error(*row) {
            Some(error) => made == Err::<Notification, MetadataRepositoryError>(error),
            None => made matches Ok(found) && notification_of_row(found, *row),
        },
{
    if !row.readable {
        return Err(internal("invalid persisted notification details"));
    }
    let actor = match (&row.actor_type, &row.actor_id) {
        (Some(kind), Some(id)) => match actor_ref(kind.as_str(), id) {
            Ok(actor) => Some(actor),
            Err(error) => {
                return Err(error);
            },
        },
        (None, None) => None,
        _ => {
            return Err(internal("incomplete persisted notification actor"));
        },
    };
    let subject = match stored_subject(row) {
        Ok(subject) => subject,
        Err(error) => {
            return Err(error);
        },
    };
    if !row.notification_id.accepted {
        return Err(internal("invalid persisted notification identifier"));
    }
    let kind = match decode_kind(row.kind.as_str()) {
        Ok(kind) => kind,
        Err(error) => {
            return Err(error);
        },
    };
    let access = match row.access_mask {
        Some(mask) => match decode_access(mask) {
            Ok(access) => Some(access),
            Err(error) => {
                return Err(error);
            },
        },
        None => None,
    };
    let access_request_id = match row.access_request_id {
        Some(request) => {
            if !request.accepted {
                return Err(internal("invalid persisted access-request identifier"));
            }
            Some(request.value)
        },
        None => None,
    };
    Ok(
        Notification {
            id: row.notification_id.value,
            kind,
            actor,
            subject,
            access,
            access_request_id,
            decision: row.decision,
            created_at: row.created_at,
            read_at: row.read_at,
        },
    )
}

/// The first reason why stored notifications are no notifications.
pub open spec fn notifications_error(rows: Seq<NotificationRow>) -> Option<MetadataRepositoryError>
    decreases rows.len(),
{
    if rows.len() == 0 {
        None
    } else {
        match notifications_error(rows.drop_last()) {
            Some(error) => Some(error),
            None => notification_error(rows.last()),
        }
    }
}

/// The first failure among the first rows is the first failure of all.
proof fn lemma_notifications_error_persists(rows: Seq<NotificationRow>, length: int)
    requires
        0 <= length <= rows.len(),
        notifications_error(rows.take(length)) is Some,
    ensures
        notifications_error(rows) == notifications_error(rows.take(length)),
    decreases rows.len() - length,
{
    if length == rows.len() {
        assert(rows.take(length) =~= rows);
    } else {
        assert(rows.take(length + 1).drop_last() =~= rows.take(length));
        lemma_notifications_error_persists(rows, length + 1);
    }
}

/// Notifications of a member and how many are unread.
#[derive(Clone, Debug)]
pub struct NotificationInbox {
    /// Newest notifications.
    pub items: Vec<Notification>,
    /// Unread notifications, on this page or not.
    pub unread_count: u64,
}

/// The inbox that stored rows make up.
pub fn load_inbox(rows: &Vec<NotificationRow>, unread_count: i64) -> (inbox: Result<
    NotificationInbox,
    MetadataRepositoryError,
>)
    ensures
        match notifications_error(rows@) {
            Some(error) => inbox == Err::<NotificationInbox, MetadataRepositoryError>(error),
            None => if unread_count < 0 {
                inbox == Err::<NotificationInbox, MetadataRepositoryError>(
                    bad_notification("negative notification count"),
                )
            } else {
                inbox matches Ok(made) && made.unread_count == unread_count && made.items@.len()
                    == rows@.len() && forall|k: int|
                    0 <= k < rows@.len() ==> notification_of_row(#[trigger] made.items@[k], rows@[k])
            },
        },
{
    let mut items: Vec<Notification> = Vec::new();
    let mut index: usize = 0;
    assert(rows@.take(0) =~= Seq::<NotificationRow>::empty());
    while index < rows.len()
        invariant
            index <= rows@.len(),
            notifications_error(rows@.take(index as int)) is None,
            items@.len() == index,
            forall|k: int| 0 <= k < index ==> notification_of_row(#[trigger] items@[k], rows@[k]),
        decreases rows@.len() - index,
    {
        let ghost next = rows@.take(index + 1);
        assert(next.drop_last() =~= rows@.take(index as int));
        assert(next.last() == rows@[index as int]);
        match notification(&rows[index]) {
            Ok(made) => {
                items.push(made);
            },
            Err(error) => {
                proof {
                    lemma_notifications_error_persists(rows@, index + 1);
                }
                return Err(error);
            },
        }
        index += 1;
    }
    assert(rows@.take(rows@.len() as int) =~= rows@);
    if unread_count < 0 {
        return Err(internal("negative notification count"));
    }
    Ok(NotificationInbox { items, unread_count: unread_count as u64 })
}

/// One member with what decides whether it hears of a request.
#[derive(Clone, Debug)]
pub struct RecipientRow {
    /// Kind of the member.
    pub actor_type: String,
    /// Identifier of the member.
    pub actor_id: Candidate,
    /// Role in the organization.
    pub org_role: String,
    /// Status of the membership.
    pub membership_status: String,
}

/// The first reason why stored members are no members.
pub open spec fn recipients_error(rows: Seq<RecipientRow>) -> Option<MetadataRepositoryError>
    decreases rows.len(),
{
    if rows.len() == 0 {
        None
    } else {
        match recipients_error(rows.drop_last()) {
            Some(error) => Some(error),
            None => match actor_ref_of(rows.last().actor_type@, rows.last().actor_id) {
                Ok(_) => None,
                Err(error) => Some(error),
            },
        }
    }
}

/// The first failure among the first rows is the first failure of all.
proof fn lemma_recipients_error_persists(rows: Seq<RecipientRow>, length: int)
    requires
        0 <= length <= rows.len(),
        recipients_error(rows.take(length)) is Some,
    ensures
        recipients_error(rows) == recipients_error(rows.take(length)),
    decreases rows.len() - length,
{
    if length == rows.len() {
        assert(rows.take(length) =~= rows);
    } else {
        assert(rows.take(length + 1).drop_last() =~= rows.take(length));
        lemma_recipients_error_persists(rows, length + 1);
    }
}

/// Whether a member decides about requests for an entry: the entry's owner and
/// every administrator do, but never the requester itself.
pub open spec fn decides(
    member: ActorRef,
    administers: bool,
    owner: ActorRef,
    requester: ActorRef,
) -> bool {
    (administers || member.identity() == owner.identity()) && member.identity()
        != requester.identity()
}

/// Whether a member decides about requests for an entry.
pub fn is_decision_recipient(
    member: &ActorRef,
    administers: bool,
    owner: &ActorRef,
    requester: &ActorRef,
) -> (answer: bool)
    ensures
        answer == decides(*member, administers, *owner, *requester),
{
    (administers || member.same_actor(owner)) && !member.same_actor(requester)
}

/// Whether a stored membership is an active one.
pub open spec fn is_active_row(row: RecipientRow) -> bool {
    row.membership_status@ == "active"@
}

/// Whether a stored membership administers its organization.
pub open spec fn administers_row(row: RecipientRow) -> bool {
    row.org_role@ == "owner"@ || row.org_role@ == "admin"@
}

/// The member that a stored membership is of.
pub open spec fn member_of(row: RecipientRow) -> ActorRef {
    actor_ref_of(row.actor_type@, row.actor_id)->Ok_0
}

/// The active members who decide about a request, in the order they were read.
pub open spec fn recipients_of(
    rows: Seq<RecipientRow>,
    owner: ActorRef,
    requester: ActorRef,
) -> Seq<ActorRef>
    decreases rows.len(),
{
    if rows.len() == 0 {
        Seq::empty()
    } else {
        let earlier = recipients_of(rows.drop_last(), owner, requester);
        let row = rows.last();
        if is_active_row(row) && decides(member_of(row), administers_row(row), owner, requester) {
            earlier.push(member_of(row))
        } else {
            earlier
        }
    }
}

/// The members who hear of a request, because they are who can decide about it.
pub fn decision_recipients(
    rows: &Vec<RecipientRow>,
    owner: &ActorRef,
    requester: &ActorRef,
) -> (recipients: Result<Vec<ActorRef>, MetadataRepositoryError>)
    ensures
        match recipients_error(rows@) {
            Some(error) => recipients == Err::<Vec<ActorRef>, MetadataRepositoryError>(error),
            None => recipients matches Ok(list) && list@ == recipients_of(
                rows@,
                *owner,
                *requester,
            ),
        },
{
    let mut list: Vec<ActorRef> = Vec::new();
    let mut index: usize = 0;
    assert(rows@.take(0) =~= Seq::<RecipientRow>::empty());
    while index < rows.len()
        invariant
            index <= rows@.len(),
            recipients_error(rows@.take(index as int)) is None,
            list@ == recipients_of(rows@.take(index as int), *owner, *requester),
        decreases rows@.len() - index,
    {
        let ghost next = rows@.take(index + 1);
        assert(next.drop_last() =~= rows@.take(index as int));
        assert(next.last() == rows@[index as int]);
        let row = &rows[index];
        match actor_ref(row.actor_type.as_str(), &row.actor_id) {
            Ok(member) => {
                let administers = same_text(row.org_role.as_str(), "owner") || same_text(
                    row.org_role.as_str(),
                    "admin",
                );
                if same_text(row.membership_status.as_str(), "active") && is_decision_recipient(
                    &member,
                    administers,
                    owner,
                    requester,
                ) {
                    list.push(member);
                }
            },
            Err(error) => {
                proof {
                    lemma_recipients_error_persists(rows@, index + 1);
                }
                return Err(error);
            },
        }
        index += 1;
    }
    assert(rows@.take(rows@.len() as int) =~= rows@);
    Ok(list)
}

/// Nobody is asked to decide about their own request, and whoever is asked
/// administers the organization or owns the entry.
pub proof fn law_requesters_never_decide(
    rows: Seq<RecipientRow>,
    owner: ActorRef,
    requester: ActorRef,
    position: int,
)
    requires
        0 <= position < recipients_of(rows, owner, requester).len(),
    ensures
        recipients_of(rows, owner, requester)[position].identity() != requester.identity(),
        recipients_of(rows, owner, requester)[position].identity() == owner.identity() || exists|
            k: int,
        |
            0 <= k < rows.len() && administers_row(#[trigger] rows[k]) && is_active_row(rows[k])
                && member_of(rows[k]) == recipients_of(rows, owner, requester)[position],
    decreases rows.len(),
{
    let earlier = recipients_of(rows.drop_last(), owner, requester);
    let row = rows.last();
    if position < earlier.len() {
        law_requesters_never_decide(rows.drop_last(), owner, requester, position);
        if earlier[position].identity() != owner.identity() {
            let k = choose|k: int|
                0 <= k < rows.drop_last().len() && administers_row(
                    #[trigger] rows.drop_last()[k],
                ) && is_active_row(rows.drop_last()[k]) && member_of(rows.drop_last()[k])
                    == earlier[position];
            assert(rows[k] == rows.drop_last()[k]);
        }
    } else {
        assert(row == rows[rows.len() - 1]);
    }
}

} // verus!
