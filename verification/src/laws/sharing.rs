//! Granting, revoking and requesting access, access by link, and what members
//! are told of it.

use vstd::prelude::*;

use crate::error::{AppError, MetadataRepositoryError};
use crate::ids::hyphenated_chars;
use crate::model::{
    ActorRef, AuthorizableEntry, Capability, EntryKind, EntryView, GrantedAccess, IdempotencyClaim,
    OrganizationRole, SystemEntryKind,
};
use crate::postgres::invitations::{
    email_ok, permanent_details, restart_details, share_refusal, tag_grant_action,
    tag_invitation_refusal, tag_revoke_action, ExpiringShareRow,
};
use crate::postgres::kind_chars;
use crate::postgres::metadata::common::{
    access_of, actor_ref_of, grant_error, grant_of_row, mask_of, right_words, Detail, DetailValue,
    PermissionGrant,
};
use crate::postgres::metadata::entries::tells_of_access;
use crate::postgres::metadata::grants::{
    grant_planned, grant_refusal, revoke_planned, revoke_refusal, GrantPermissionCommand, GrantPlan,
    RevokePermissionCommand, RevokePlan,
};
use crate::postgres::metadata::notifications::{
    decides, entry_kind_word, kind_of_word, kind_word, member_of, notification_error,
    notification_of_row, recipients_of, EntrySnapshot, NewNotification, Notification,
    NotificationKind, NotificationRow, RecipientRow,
};
use crate::postgres::metadata::requests::{
    asks_to_decide, decision_planned, decision_refusal, request_error, request_of_row,
    request_planned, request_refusal, status_of, AccessDecision, AccessRequestStatus,
    AccessRequestView, DecisionPlan, RequestAccessCommand, RequestPlan,
};
use crate::postgres::models::{AccessRequestRow, PermissionGrantRow};
use crate::postgres::self_destruct::keep_refusal;
use crate::postgres::sharing::{
    event_shown, is_shareable_root, link_action, link_refusal, manages_link, shortens_permanent,
    shown_events, LinkState, LogEvent,
};

verus! {

/// Access is granted exactly where the caller may grant it on an entry that is
/// not reserved, to an active member, and without an end unless it is for
/// reading alone.
pub proof fn law_access_is_granted_where_it_may_be(
    command: GrantPermissionCommand,
    entry: Option<AuthorizableEntry>,
    required: Capability,
    is_member: bool,
)
    ensures
        grant_refusal(command, entry, required, is_member) is None <==> {
            &&& entry is Some
            &&& entry->0.access.permits(required)
            &&& entry->0.system_kind is None
            &&& is_member
            &&& command.lifetime_minutes is Some ==> !command.access.write
                && !command.access.update && !command.access.delete
        },
        grant_refusal(command, entry, required, is_member) == Some(
            MetadataRepositoryError::NotFound,
        ) <==> entry is None,
{
}

/// A grant gives the named member the named rights on the named entry, and the
/// member hears of it. Only a grant without an end amends an earlier one.
pub proof fn law_grants_give_what_was_asked_for(
    plan: GrantPlan,
    command: GrantPermissionCommand,
    grant_id: u128,
    entry: AuthorizableEntry,
    actor: ActorRef,
)
    requires
        grant_planned(plan, command, grant_id, entry, actor),
    ensures
        plan.grant.entry_id == command.entry_id,
        plan.grant.grant_id == grant_id,
        plan.grant.principal == command.principal,
        plan.grant.access_mask == mask_of(command.access),
        plan.grant.inherits_to_descendants == command.inherits_to_descendants,
        plan.grant.granted_by == actor,
        plan.grant.lifetime_minutes == command.lifetime_minutes,
        plan.amends <==> command.lifetime_minutes is None,
        plan.change.entry_id == Some(command.entry_id),
        plan.change.aggregate_id@ == hyphenated_chars(command.entry_id),
        command.lifetime_minutes is None ==> plan.change.action == "permission.granted.v1",
        command.lifetime_minutes is Some ==> plan.change.action
            == "permission.expiring_share_granted.v1",
        plan.change.aggregate_type == "entry",
        plan.change.payload@.len() == 2,
        plan.change.payload@[0] == (Detail { key: "grant_id", value: DetailValue::Id(grant_id) }),
        plan.change.payload@[1].key == "access",
        plan.change.payload@[1].value is Words,
        plan.change.payload@[1].value->Words_0@ == right_words(command.access),
        plan.notification.recipient == command.principal,
        plan.notification.kind == NotificationKind::AccessGranted,
        plan.notification.actor == Some(actor),
        plan.notification.access == Some(command.access),
        plan.notification.subject is Some && plan.notification.subject->0.entry_id
            == entry.entry.id,
{
}

/// Access is revoked exactly where the caller may do so and the grant is there:
/// once, and only where what is stored of it can be told to the member.
pub proof fn law_access_is_revoked_once(
    entry: Option<AuthorizableEntry>,
    required: Capability,
    grant: Option<PermissionGrantRow>,
    claim: IdempotencyClaim,
)
    ensures
        revoke_refusal(entry, required, grant, claim) is None <==> {
            &&& entry is Some
            &&& entry->0.access.permits(required)
            &&& entry->0.system_kind is None
            &&& grant is Some
            &&& claim is Replay || {
                &&& grant->0.revoked_at is None
                &&& actor_ref_of(grant->0.principal_type@, grant->0.principal_id) is Ok
                &&& grant->0.expires_at is Some || access_of(grant->0.access_mask) is Ok
            }
        },
        revoke_refusal(entry, required, grant, claim) == Some(MetadataRepositoryError::NotFound)
            ==> entry is None || grant is None,
        claim is Acquired && grant is Some && grant->0.revoked_at is Some ==> revoke_refusal(
            entry,
            required,
            grant,
            claim,
        ) is Some,
{
}

/// Revoking ends the grant that was named and no other, and tells the member of
/// it unless the grant was to end by itself.
pub proof fn law_revocations_end_the_named_grant(
    plan: RevokePlan,
    command: RevokePermissionCommand,
    entry: AuthorizableEntry,
    row: PermissionGrantRow,
    actor: ActorRef,
)
    requires
        revoke_planned(plan, command, entry, row, actor),
    ensures
        plan.entry_id == command.entry_id,
        plan.grant_id == command.grant_id,
        plan.revoked_by == actor,
        plan.change.entry_id == Some(command.entry_id),
        row.expires_at is None ==> plan.change.action == "permission.revoked.v1",
        row.expires_at is Some ==> plan.change.action == "permission.expiring_share_revoked.v1",
        plan.change.payload@ == seq![
            Detail { key: "grant_id", value: DetailValue::Id(command.grant_id) },
        ],
        plan.notification is Some <==> row.expires_at is None,
        plan.notification matches Some(told) ==> {
            &&& told.kind == NotificationKind::AccessRevoked
            &&& told.recipient == actor_ref_of(row.principal_type@, row.principal_id)->Ok_0
            &&& told.actor == Some(actor)
            &&& told.access == Some(access_of(row.access_mask)->Ok_0)
            &&& told.subject is Some && told.subject->0.entry_id == entry.entry.id
        },
{
}

/// A notification about access names who is told, who did it, the entry and the
/// rights, and asks for nothing.
pub proof fn law_members_are_told_of_their_access(
    notification: NewNotification,
    kind: NotificationKind,
    recipient: ActorRef,
    actor: ActorRef,
    entry: EntryView,
    access: GrantedAccess,
)
    requires
        tells_of_access(notification, kind, recipient, actor, entry, access),
    ensures
        notification.recipient == recipient,
        notification.kind == kind,
        notification.actor == Some(actor),
        notification.access == Some(access),
        notification.access_request_id is None && notification.decision is None,
        notification.subject matches Some(subject) && subject.entry_id == entry.id && subject.name
            == entry.name && subject.path == entry.path && subject.kind == entry.kind,
{
}

/// A snapshot is of an entry exactly where it repeats the entry's identifier,
/// name, path and kind.
pub proof fn law_snapshots_repeat_the_entry(snapshot: EntrySnapshot, entry: EntryView)
    ensures
        snapshot.is_of(entry) <==> snapshot.entry_id == entry.id && snapshot.name == entry.name
            && snapshot.path == entry.path && snapshot.kind == entry.kind,
{
}

/// Access is requested exactly where something is asked for that the caller does
/// not hold.
pub proof fn law_requests_ask_for_more(
    command: RequestAccessCommand,
    entry: Option<AuthorizableEntry>,
)
    ensures
        request_refusal(command, entry) == Some(MetadataRepositoryError::NotFound) <==> entry
            is None,
        entry matches Some(found) ==> (request_refusal(command, entry) is None <==> (
        command.access.read && !found.access.satisfied.read) || (command.access.write
            && !found.access.satisfied.write) || (command.access.update
            && !found.access.satisfied.update) || (command.access.delete
            && !found.access.satisfied.delete)),
        entry is Some && request_refusal(command, entry) is Some ==> request_refusal(command, entry)
            == Some(MetadataRepositoryError::Conflict),
{
    if entry is Some {
        crate::laws::access::law_rights_are_independent(
            command.access,
            entry->0.access.satisfied,
        );
    }
}

/// A request asks for the named rights on the named entry, for who asks.
pub proof fn law_requests_say_what_is_asked_for(
    plan: RequestPlan,
    command: RequestAccessCommand,
    request_id: u128,
    actor: ActorRef,
)
    requires
        request_planned(plan, command, request_id, actor),
    ensures
        plan.request.request_id == request_id,
        plan.request.entry_id == command.entry_id,
        plan.request.requested_by == actor,
        plan.request.access_mask == mask_of(command.access),
        plan.request.reason == command.reason,
        plan.change.entry_id == Some(command.entry_id),
        plan.change.action == "access_request.created.v1",
        plan.change.aggregate_type == "access_request",
        plan.change.aggregate_id@ == hyphenated_chars(request_id),
        plan.change.payload@.len() == 2,
        plan.change.payload@[0] == (Detail {
            key: "entry_id",
            value: DetailValue::Id(command.entry_id),
        }),
        plan.change.payload@[1].key == "requested_access",
        plan.change.payload@[1].value is Words,
        plan.change.payload@[1].value->Words_0@ == right_words(command.access),
{
}

/// Whoever is asked to decide hears who asks for what, and by which request.
pub proof fn law_deciders_hear_what_is_asked(
    notification: NewNotification,
    recipient: ActorRef,
    actor: ActorRef,
    entry: EntryView,
    access: GrantedAccess,
    request_id: u128,
)
    requires
        asks_to_decide(notification, recipient, actor, entry, access, request_id),
    ensures
        notification.recipient == recipient,
        notification.kind == NotificationKind::AccessRequested,
        notification.actor == Some(actor),
        notification.access == Some(access),
        notification.access_request_id == Some(request_id),
        notification.decision is None,
        notification.subject matches Some(subject) && subject.entry_id == entry.id,
{
}

/// A request is decided exactly where the caller may decide about its entry and
/// it is still pending; approving it takes a requester who is still a member.
pub proof fn law_pending_requests_are_decided(
    row: Option<AccessRequestRow>,
    entry: Option<AuthorizableEntry>,
    required: Capability,
    claim: IdempotencyClaim,
    decision: AccessDecision,
    requester_is_member: bool,
)
    ensures
        decision_refusal(row, entry, required, claim, decision, requester_is_member) is None <==> {
            &&& row is Some && row->0.entry_id.accepted
            &&& entry is Some && entry->0.access.permits(required)
            &&& claim is Replay || {
                &&& row->0.status@ == "pending"@
                &&& actor_ref_of(row->0.requested_by_type@, row->0.requested_by_id) is Ok
                &&& decision is Approve ==> requester_is_member
            }
        },
{
}

/// An approval grants the requester the rights that were approved, on the
/// request's entry and below it, for good. A denial grants nothing.
pub proof fn law_approvals_grant_and_denials_do_not(
    plan: DecisionPlan,
    request_id: u128,
    row: AccessRequestRow,
    decision: AccessDecision,
    grant_id: u128,
    actor: ActorRef,
)
    requires
        decision_planned(plan, request_id, row, decision, grant_id, actor),
    ensures
        plan.request_id == request_id,
        plan.decided_by == actor,
        plan.grant is Some <==> decision is Approve,
        plan.granted_mask is Some <==> decision is Approve,
        decision is Deny ==> plan.status == "denied",
        decision is Approve ==> plan.status == "approved",
        decision matches AccessDecision::Approve { access } ==> {
            &&& plan.granted_mask == Some(mask_of(access))
            &&& plan.grant->0.access_mask == mask_of(access)
            &&& plan.grant->0.entry_id == row.entry_id.value
            &&& plan.grant->0.grant_id == grant_id
            &&& plan.grant->0.principal == actor_ref_of(
                row.requested_by_type@,
                row.requested_by_id,
            )->Ok_0
            &&& plan.grant->0.granted_by == actor
            &&& plan.grant->0.inherits_to_descendants
            &&& plan.grant->0.lifetime_minutes is None
        },
        plan.change.entry_id == Some(row.entry_id.value),
        plan.change.action == "access_request.decided.v1",
        plan.change.aggregate_id@ == hyphenated_chars(request_id),
        plan.change.aggregate_type == "access_request",
        plan.change.payload@.len() == 2,
        plan.change.payload@[0] == (Detail {
            key: "status",
            value: DetailValue::Word(plan.status),
        }),
        plan.change.payload@[1].key == "grant_id",
        decision is Approve ==> plan.change.payload@[1].value == DetailValue::Id(grant_id),
        decision is Deny ==> plan.change.payload@[1].value == DetailValue::Null,
{
}

/// The words for a request's status name it, and no other word does.
pub proof fn law_request_statuses_have_words(word: Seq<char>)
    ensures
        status_of(word) == Some(AccessRequestStatus::Pending) <==> word == "pending"@,
        status_of(word) == Some(AccessRequestStatus::Approved) <==> word == "approved"@,
        status_of(word) == Some(AccessRequestStatus::Denied) <==> word == "denied"@,
{
    reveal_strlit("pending");
    reveal_strlit("approved");
    reveal_strlit("denied");
    assert("pending"@.len() == 7);
    assert("approved"@.len() == 8);
    assert("denied"@.len() == 6);
}

/// A stored request is shown as it is stored.
pub proof fn law_stored_requests_are_shown_as_stored(view: AccessRequestView, row: AccessRequestRow)
    requires
        request_of_row(view, row),
    ensures
        view.id == row.access_request_id.value,
        view.entry_id == row.entry_id.value,
        actor_ref_of(row.requested_by_type@, row.requested_by_id) == Ok::<
            ActorRef,
            MetadataRepositoryError,
        >(view.requested_by),
        access_of(row.requested_access_mask) == Ok::<GrantedAccess, MetadataRepositoryError>(
            view.requested_access,
        ),
        view.reason == row.reason,
        status_of(row.status@) == Some(view.status),
        row.granted_access_mask is Some <==> view.granted_access is Some,
        row.granted_access_mask matches Some(mask) ==> access_of(mask) == Ok::<
            GrantedAccess,
            MetadataRepositoryError,
        >(view.granted_access->0),
        row.decided_by_type is Some <==> view.decided_by is Some,
        row.decided_by_type matches Some(kind) ==> actor_ref_of(kind@, row.decided_by_id->0)
            == Ok::<ActorRef, MetadataRepositoryError>(view.decided_by->0),
        view.decided_at == row.decided_at,
        row.permission_grant_id is Some <==> view.permission_grant_id is Some,
        row.permission_grant_id matches Some(grant) ==> view.permission_grant_id == Some(
            grant.value,
        ),
        view.created_at == row.created_at && view.updated_at == row.updated_at,
{
}

/// A stored request is read exactly where each of its columns can be.
pub proof fn law_malformed_requests_are_never_shown(row: AccessRequestRow)
    ensures
        request_error(row) is None <==> {
            &&& status_of(row.status@) is Some
            &&& row.decided_by_type is Some <==> row.decided_by_id is Some
            &&& row.decided_by_type is Some ==> actor_ref_of(
                row.decided_by_type->0@,
                row.decided_by_id->0,
            ) is Ok
            &&& row.access_request_id.accepted && row.entry_id.accepted
            &&& actor_ref_of(row.requested_by_type@, row.requested_by_id) is Ok
            &&& access_of(row.requested_access_mask) is Ok
            &&& row.granted_access_mask matches Some(mask) ==> access_of(mask) is Ok
            &&& row.permission_grant_id matches Some(grant) ==> grant.accepted
        },
{
}

/// A stored grant is shown as it is stored, and read exactly where each of its
/// columns can be.
pub proof fn law_stored_grants_are_shown_as_stored(grant: PermissionGrant, row: PermissionGrantRow)
    ensures
        grant_error(row) is None <==> {
            &&& row.grant_id.accepted && row.org_id.accepted && row.entry_id.accepted
            &&& actor_ref_of(row.principal_type@, row.principal_id) is Ok
            &&& access_of(row.access_mask) is Ok
            &&& actor_ref_of(row.granted_by_type@, row.granted_by_id) is Ok
        },
        grant_of_row(grant, row) ==> {
            &&& grant.id == row.grant_id.value
            &&& grant.organization_id == row.org_id.text
            &&& grant.entry_id == row.entry_id.value
            &&& actor_ref_of(row.principal_type@, row.principal_id)->Ok_0 == grant.principal
            &&& access_of(row.access_mask)->Ok_0 == grant.access
            &&& grant.inherits == row.inherits_to_descendants
            &&& actor_ref_of(row.granted_by_type@, row.granted_by_id)->Ok_0 == grant.granted_by
            &&& grant.expires_at == row.expires_at
            &&& grant.created_at == row.created_at
        },
{
}

/// The words for kinds of notifications name them, and no other word does.
pub proof fn law_notifications_have_words(word: Seq<char>, kind: NotificationKind)
    ensures
        kind_word(NotificationKind::AccessGranted) == "access_granted"@,
        kind_word(NotificationKind::AccessRevoked) == "access_revoked"@,
        kind_word(NotificationKind::AccessRequested) == "access_requested"@,
        kind_word(NotificationKind::AccessRequestDecided) == "access_request_decided"@,
        kind_of_word(word) == Some(kind) <==> word == kind_word(kind),
        entry_kind_word(EntryKind::File) == "file"@,
        entry_kind_word(EntryKind::Folder) == "folder"@,
{
    reveal_strlit("access_granted");
    reveal_strlit("access_revoked");
    reveal_strlit("access_requested");
    reveal_strlit("access_request_decided");
    assert("access_granted"@.len() == 14);
    assert("access_revoked"@.len() == 14);
    assert("access_requested"@.len() == 16);
    assert("access_request_decided"@.len() == 22);
    assert("access_granted"@[7] != "access_revoked"@[7]);
}

/// A stored notification is shown as it is stored; what it is about is shown
/// where all of it is known.
pub proof fn law_stored_notifications_are_shown_as_stored(made: Notification, row: NotificationRow)
    requires
        notification_of_row(made, row),
    ensures
        made.id == row.notification_id.value,
        kind_of_word(row.kind@) == Some(made.kind),
        made.actor is Some <==> row.actor_type is Some,
        row.actor_type matches Some(kind) ==> actor_ref_of(kind@, row.actor_id->0)->Ok_0
            == made.actor->0,
        made.subject is Some <==> row.entry_id is Some && row.name is Some && row.path is Some
            && row.entry_type is Some,
        made.subject matches Some(subject) ==> subject.entry_id == row.entry_id->0.value
            && subject.name == row.name->0 && subject.path == row.path->0.text,
        made.access is Some <==> row.access_mask is Some,
        row.access_mask matches Some(mask) ==> access_of(mask)->Ok_0 == made.access->0,
        made.access_request_id is Some <==> row.access_request_id is Some,
        row.access_request_id matches Some(id) ==> made.access_request_id == Some(id.value),
        made.decision == row.decision,
        made.created_at == row.created_at && made.read_at == row.read_at,
{
}

/// A notification whose details cannot be read is never shown, nor one with half
/// an actor or of an unknown kind.
pub proof fn law_malformed_notifications_are_never_shown(row: NotificationRow)
    ensures
        !row.readable ==> notification_error(row) is Some,
        row.actor_type is Some && row.actor_id is None ==> notification_error(row) is Some,
        row.actor_type is None && row.actor_id is Some ==> notification_error(row) is Some,
        kind_of_word(row.kind@) is None ==> notification_error(row) is Some,
        !row.notification_id.accepted ==> notification_error(row) is Some,
        row.access_mask matches Some(mask) ==> access_of(mask) is Err ==> notification_error(row)
            is Some,
        row.readable && row.actor_type is None && row.actor_id is None && row.entry_id is None
            && row.notification_id.accepted && kind_of_word(row.kind@) is Some && row.access_mask
            is None && row.access_request_id is None ==> notification_error(row) is None,
{
}

/// Whoever can decide about a request hears of it: every active owner and
/// administrator, and the entry's owner, but for the requester.
pub proof fn law_everyone_who_can_decide_is_asked(
    rows: Seq<RecipientRow>,
    owner: ActorRef,
    requester: ActorRef,
    position: int,
)
    requires
        0 <= position < rows.len(),
        rows[position].membership_status@ == "active"@,
        member_of(rows[position]).identity() != requester.identity(),
        rows[position].org_role@ == "owner"@ || rows[position].org_role@ == "admin"@ || member_of(
            rows[position],
        ).identity() == owner.identity(),
    ensures
        recipients_of(rows, owner, requester).contains(member_of(rows[position])),
    decreases rows.len(),
{
    let earlier = recipients_of(rows.drop_last(), owner, requester);
    let all = recipients_of(rows, owner, requester);
    if position < rows.len() - 1 {
        assert(rows.drop_last()[position] == rows[position]);
        law_everyone_who_can_decide_is_asked(rows.drop_last(), owner, requester, position);
        let k = choose|k: int| 0 <= k < earlier.len() && earlier[k] == member_of(rows[position]);
        assert(all[k] == earlier[k]);
    } else {
        assert(all.last() == member_of(rows[position]));
    }
}

/// A member decides exactly where it administers or owns, and did not ask.
pub proof fn law_owners_and_administrators_decide(
    member: ActorRef,
    administers: bool,
    owner: ActorRef,
    requester: ActorRef,
)
    ensures
        decides(member, administers, owner, requester) <==> {
            &&& administers || (member.kind == owner.kind && member.id@ == owner.id@)
            &&& member.kind != requester.kind || member.id@ != requester.id@
        },
{
}

/// A tag is invited exactly by who may manage an entry's permissions, with
/// rights that its kind knows, and without an end unless it is for reading
/// alone.
pub proof fn law_tags_are_invited_where_they_may_be(
    entry: Option<AuthorizableEntry>,
    access: GrantedAccess,
    lifetime_minutes: Option<u32>,
)
    ensures
        tag_invitation_refusal(entry, access, lifetime_minutes) is None <==> {
            &&& entry is Some && entry->0.access.read && entry->0.access.manage_permissions
            &&& !access.delete
            &&& entry->0.entry.kind == EntryKind::File ==> !access.write
            &&& lifetime_minutes is Some ==> !access.write && !access.update
        },
        tag_invitation_refusal(entry, access, lifetime_minutes) == Some(AppError::NotFound) <==> !(
        entry matches Some(found) && found.access.read),
        tag_invitation_refusal(entry, access, lifetime_minutes) == Some(AppError::Forbidden) <==> (
        entry matches Some(found) && found.access.read && !found.access.manage_permissions),
{
}

/// Grants of tags that end by themselves are recorded under names of their own.
pub proof fn law_expiring_tag_shares_have_names_of_their_own(expires_at: Option<i128>)
    ensures
        expires_at is None ==> tag_grant_action(expires_at) == "permission.tag_granted.v1"
            && tag_revoke_action(expires_at) == "permission.tag_revoked.v1",
        expires_at is Some ==> tag_grant_action(expires_at)
            == "permission.tag_expiring_share_granted.v1" && tag_revoke_action(expires_at)
            == "permission.tag_expiring_share_revoked.v1",
{
}

/// An expiring share is changed exactly by who may manage the entry's
/// permissions, where the share is there and ends by itself.
pub proof fn law_only_expiring_shares_change(
    entry: Option<AuthorizableEntry>,
    share: Option<ExpiringShareRow>,
    claim: IdempotencyClaim,
)
    ensures
        share_refusal(entry, share, claim) is None <==> {
            &&& entry is Some && entry->0.access.manage_permissions
            &&& (claim is Replay && claim->Replay_0 is Some) || (share is Some
                && share->0.expires_at is Some)
        },
{
}

/// A changed share is recorded with its grant, its principal and its ends.
pub proof fn law_changed_shares_are_recorded(
    share: ExpiringShareRow,
    grant_id: u128,
    previous: i128,
    expires_at: i128,
    result: u128,
)
    ensures
        restart_details(share, grant_id, previous, expires_at) == seq![
            Detail { key: "grant_id", value: DetailValue::Id(grant_id) },
            Detail {
                key: "principal",
                value: DetailValue::Principal {
                    kind: share.principal_type,
                    id: share.principal_id,
                },
            },
            Detail { key: "previous_expires_at", value: DetailValue::Instant(previous) },
            Detail { key: "expires_at", value: DetailValue::Instant(expires_at) },
        ],
        permanent_details(share, grant_id, previous, result) == seq![
            Detail { key: "grant_id", value: DetailValue::Id(grant_id) },
            Detail {
                key: "principal",
                value: DetailValue::Principal {
                    kind: share.principal_type,
                    id: share.principal_id,
                },
            },
            Detail { key: "previous_expires_at", value: DetailValue::Instant(previous) },
            Detail { key: "permanent_grant_id", value: DetailValue::Id(result) },
        ],
{
}

/// A text with one `@`, something before it and a dot behind it, and nothing
/// that would end or list it, is an e-mail address; one without a single `@`
/// is none.
pub proof fn law_addresses_have_one_at_sign(local: Seq<u8>, domain: Seq<u8>, ending: Seq<u8>)
    requires
        local.len() > 0,
        local.len() + domain.len() + ending.len() <= 252,
        forall|k: int| 0 <= k < local.len() ==> 0x61 <= #[trigger] local[k] <= 0x7a,
        forall|k: int| 0 <= k < domain.len() ==> 0x61 <= #[trigger] domain[k] <= 0x7a,
        forall|k: int| 0 <= k < ending.len() ==> 0x61 <= #[trigger] ending[k] <= 0x7a,
    ensures
        email_ok(local + seq![0x40u8] + domain + seq![0x2eu8] + ending),
        !email_ok(local),
        !email_ok(local + seq![0x40u8] + domain),
        !email_ok(seq![0x40u8] + domain + seq![0x2eu8] + ending),
        !email_ok(local + seq![0x40u8] + domain + seq![0x40u8] + domain + seq![0x2eu8] + ending),
        !email_ok(local + seq![0x20u8] + seq![0x40u8] + domain + seq![0x2eu8] + ending),
{
    let good = local + seq![0x40u8] + domain + seq![0x2eu8] + ending;
    let at = local.len() as int;
    let dot = at + 1 + domain.len();
    assert forall|k: int| 0 <= k < good.len() && k != at && k != dot implies 0x61
        <= #[trigger] good[k] <= 0x7a by {
        if k < at {
            assert(good[k] == local[k]);
        } else if k < dot {
            assert(good[k] == domain[k - at - 1]);
        } else {
            assert(good[k] == ending[k - dot - 1]);
        }
    }
    assert(good[at] == 0x40 && good[dot] == 0x2e);
    assert(crate::postgres::invitations::splits_at(good, at));
    assert(email_ok(good));
    let bare = local + seq![0x40u8] + domain;
    assert forall|k: int| 0 <= k < bare.len() && k != at implies 0x61 <= #[trigger] bare[k] <= 0x7a by {
        if k < at {
            assert(bare[k] == local[k]);
        } else {
            assert(bare[k] == domain[k - at - 1]);
        }
    }
    let headless = seq![0x40u8] + domain + seq![0x2eu8] + ending;
    assert(headless[0] == 0x40);
    let twice = local + seq![0x40u8] + domain + seq![0x40u8] + domain + seq![0x2eu8] + ending;
    assert(twice[at] == 0x40 && twice[at + 1 + domain.len()] == 0x40);
    let spaced = local + seq![0x20u8] + seq![0x40u8] + domain + seq![0x2eu8] + ending;
    assert(spaced[at] == 0x20);
}

/// A file that destroys itself is kept by who created it and by administrators,
/// and by nobody who cannot read it.
pub proof fn law_creators_and_administrators_keep(
    entry: Option<AuthorizableEntry>,
    creator: (Seq<char>, Seq<char>),
    actor: ActorRef,
    role: OrganizationRole,
)
    ensures
        keep_refusal(entry, creator, actor, role) is None <==> {
            &&& entry is Some && entry->0.access.read
            &&& (creator.0 == kind_chars(actor.kind) && creator.1 == actor.id@) || role
                == OrganizationRole::Owner || role == OrganizationRole::Admin
        },
        keep_refusal(entry, creator, actor, role) == Some(AppError::NotFound) <==> !(entry matches Some(
            found,
        ) && found.access.read),
{
}

/// A link is in force exactly while it is on and its end, where it has one, is
/// still to come.
pub proof fn law_links_are_in_force_until_they_end(state: LinkState, now: i128)
    ensures
        state.live(now) <==> state.public && (state.expires_at is None || now
            < state.expires_at->0),
{
}

/// An entry's link is changed exactly by who sees the entry and may manage its
/// permissions; the reserved folders for the public and for tags belong to
/// administrators, and the other reserved folders have no link.
pub proof fn law_links_are_changed_by_managers(
    entry: Option<AuthorizableEntry>,
    role: OrganizationRole,
)
    ensures
        link_refusal(entry, role) is None <==> {
            let root = entry->0.system_kind == Some(SystemEntryKind::PublicContainer)
                || entry->0.system_kind == Some(SystemEntryKind::TagRoot);
            &&& entry is Some && entry->0.access.fully_visible
            &&& entry->0.reserved ==> root
            &&& entry->0.access.manage_permissions || (root && role != OrganizationRole::Member)
        },
        link_refusal(entry, role) == Some(AppError::NotFound) <==> !(entry matches Some(found)
            && found.access.fully_visible),
        entry matches Some(found) ==> (is_shareable_root(found) <==> found.system_kind == Some(
            SystemEntryKind::PublicContainer,
        ) || found.system_kind == Some(SystemEntryKind::TagRoot)),
        entry matches Some(found) ==> (manages_link(found, role) <==> (!found.reserved
            && found.access.manage_permissions) || (is_shareable_root(found) && role
            != OrganizationRole::Member)),
{
}

/// A link without an end is never given one, and a link that ends is recorded
/// under a name of its own.
pub proof fn law_permanent_links_stay_permanent(
    enabled: bool,
    lifetime_minutes: Option<u32>,
    state: LinkState,
)
    ensures
        shortens_permanent(enabled, lifetime_minutes, state) <==> enabled && lifetime_minutes
            is Some && state.public && state.expires_at is None,
        link_action(enabled, lifetime_minutes) == "entry.expiring_link_enabled.v1" <==> enabled
            && lifetime_minutes is Some,
        !(enabled && lifetime_minutes is Some) ==> link_action(enabled, lifetime_minutes)
            == "entry.link_access_changed.v1",
{
    reveal_strlit("entry.expiring_link_enabled.v1");
    reveal_strlit("entry.link_access_changed.v1");
    assert("entry.expiring_link_enabled.v1"@.len() == 30);
    assert("entry.link_access_changed.v1"@.len() == 28);
}

/// A log shows every event of the entry itself; events below it are shown to
/// managers and to whoever may read the entry below.
pub proof fn law_logs_show_what_may_be_seen(
    events: Seq<LogEvent>,
    child_visible: Seq<bool>,
    manages: bool,
    position: int,
)
    requires
        events.len() <= child_visible.len(),
        0 <= position < events.len(),
    ensures
        event_shown(events[position], child_visible[position], manages) <==> manages
            || child_visible[position] || !("child."@.is_prefix_of(events[position].action@)),
        manages ==> shown_events(events, child_visible, manages) == events,
        event_shown(events[position], child_visible[position], manages) ==> shown_events(
            events,
            child_visible,
            manages,
        ).contains(events[position]),
    decreases events.len(),
{
    let earlier = shown_events(events.drop_last(), child_visible, manages);
    let all = shown_events(events, child_visible, manages);
    if events.len() > 1 {
        let at = if position < events.len() - 1 {
            position
        } else {
            0
        };
        law_logs_show_what_may_be_seen(events.drop_last(), child_visible, manages, at);
        if position < events.len() - 1 && event_shown(
            events[position],
            child_visible[position],
            manages,
        ) {
            assert(events.drop_last()[position] == events[position]);
            let k = choose|k: int| 0 <= k < earlier.len() && earlier[k] == events[position];
            assert(all[k] == earlier[k]);
        }
        assert(events.drop_last().push(events.last()) =~= events);
    } else {
        assert(earlier =~= Seq::<LogEvent>::empty());
        assert(Seq::<LogEvent>::empty().push(events.last()) =~= events);
    }
    if position == events.len() - 1 && event_shown(events[position], child_visible[position], manages) {
        assert(all.last() == events[position]);
    }
}

/// No address holds a byte that would end or list it, wherever it stands.
pub proof fn law_addresses_hold_no_separators(bytes: Seq<u8>, position: int)
    requires
        email_ok(bytes),
        0 <= position < bytes.len(),
    ensures
        bytes.len() <= 254,
        0x20 < bytes[position] && bytes[position] != 0x7f,
        bytes[position] != 0x2c && bytes[position] != 0x3b,
        bytes[position] != 0x3c && bytes[position] != 0x3e,
{
}

} // verus!
