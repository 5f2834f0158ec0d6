//! Requests for access and their decisions.

use vstd::prelude::*;

use crate::error::{internal, internal_data, MetadataRepositoryError};
use crate::ids::{hyphenated, hyphenated_chars};
use crate::model::{
    ActorRef, AuthorizableEntry, Capability, EntryView, GrantedAccess, IdempotencyClaim,
};
use crate::postgres::metadata::common::{
    access_of, access_rights, actor_ref, actor_ref_of, bad_data, decode_access, encode_access,
    mask_of, right_words, ChangeRecord, Detail, DetailValue,
};
use crate::postgres::metadata::entries::{
    deref_entry, resource_claim, resource_claim_of, GrantInsert, ResourceClaim,
};
use crate::postgres::metadata::notifications::{
    snapshot, NewNotification, NotificationDecision, NotificationKind,
};
use crate::postgres::models::AccessRequestRow;
use crate::text::{clone_optional_text, same_text};

verus! {

/// Where a request for access stands.
#[derive(Clone, Copy, Debug, PartialEq, Eq, Structural)]
pub enum AccessRequestStatus {
    /// Not decided yet.
    Pending,
    /// Approved.
    Approved,
    /// Denied.
    Denied,
}

/// A request for access.
#[derive(Clone, Debug)]
pub struct AccessRequestView {
    /// Request identifier.
    pub id: u128,
    /// Entry that access is requested to.
    pub entry_id: u128,
    /// Member that requests it.
    pub requested_by: ActorRef,
    /// Rights requested.
    pub requested_access: GrantedAccess,
    /// What the requester wrote.
    pub reason: Option<String>,
    /// Where the request stands.
    pub status: AccessRequestStatus,
    /// Rights granted.
    pub granted_access: Option<GrantedAccess>,
    /// Member that decided.
    pub decided_by: Option<ActorRef>,
    /// Time of the decision.
    pub decided_at: Option<i128>,
    /// Grant that the approval made.
    pub permission_grant_id: Option<u128>,
    /// Creation time.
    pub created_at: i128,
    /// Time of the last change.
    pub updated_at: i128,
}

/// The status that a stored name stands for.
pub open spec fn status_of(value: Seq<char>) -> Option<AccessRequestStatus> {
    if value == "pending"@ {
        Some(AccessRequestStatus::Pending)
    } else if value == "approved"@ {
        Some(AccessRequestStatus::Approved)
    } else if value == "denied"@ {
        Some(AccessRequestStatus::Denied)
    } else {
        None
    }
}

/// The status that a stored name stands for.
fn parse_status(value: &str) -> (status: Option<AccessRequestStatus>)
    ensures
        status == status_of(value@),
{
    if same_text(value, "pending") {
        Some(AccessRequestStatus::Pending)
    } else if same_text(value, "approved") {
        Some(AccessRequestStatus::Approved)
    } else if same_text(value, "denied") {
        Some(AccessRequestStatus::Denied)
    } else {
        None
    }
}

/// The first reason why a stored request is no request.
pub open spec fn request_error(row: AccessRequestRow) -> Option<MetadataRepositoryError> {
    if status_of(row.status@) is None {
        Some(
            MetadataRepositoryError::Internal {
                reason: "invalid persisted access-request status",
            },
        )
    } else if row.decided_by_type is Some != row.decided_by_id is Some {
        Some(
            MetadataRepositoryError::Internal {
                reason: "incomplete access-request decision actor",
            },
        )
    } else if row.decided_by_type is Some && actor_ref_of(
        row.decided_by_type->0@,
        row.decided_by_id->0,
    ) is Err {
        Some(actor_ref_of(row.decided_by_type->0@, row.decided_by_id->0)->Err_0)
    } else if !row.access_request_id.accepted || !row.entry_id.accepted {
        Some(bad_data())
    } else if actor_ref_of(row.requested_by_type@, row.requested_by_id) is Err {
        Some(actor_ref_of(row.requested_by_type@, row.requested_by_id)->Err_0)
    } else if access_of(row.requested_access_mask) is Err {
        Some(access_of(row.requested_access_mask)->Err_0)
    } else if row.granted_access_mask is Some && access_of(row.granted_access_mask->0) is Err {
        Some(access_of(row.granted_access_mask->0)->Err_0)
    } else if row.permission_grant_id matches Some(grant) && !grant.accepted {
        Some(bad_data())
    } else {
        None
    }
}

/// Whether a request is what a row stores.
pub open spec fn request_of_row(view: AccessRequestView, row: AccessRequestRow) -> bool {
    &&& view.id == row.access_request_id.value
    &&& view.entry_id == row.entry_id.value
    &&& actor_ref_of(row.requested_by_type@, row.requested_by_id) == Ok::<
        ActorRef,
        MetadataRepositoryError,
    >(view.requested_by)
    &&& access_of(row.requested_access_mask) == Ok::<GrantedAccess, MetadataRepositoryError>(
        view.requested_access,
    )
    &&& view.reason == row.reason
    &&& Some(view.status) == status_of(row.status@)
    &&& match row.granted_access_mask {
        Some(mask) => view.granted_access is Some && access_of(mask) == Ok::<
            GrantedAccess,
            MetadataRepositoryError,
        >(view.granted_access->0),
        None => view.granted_access is None,
    }
    &&& match row.decided_by_type {
        Some(kind) => view.decided_by is Some && actor_ref_of(kind@, row.decided_by_id->0) == Ok::<
            ActorRef,
            MetadataRepositoryError,
        >(view.decided_by->0),
        None => view.decided_by is None,
    }
    &&& view.decided_at == row.decided_at
    &&& view.permission_grant_id == match row.permission_grant_id {
        Some(grant) => Some(grant.value),
        None => None,
    }
    &&& view.created_at == row.created_at
    &&& view.updated_at == row.updated_at
}

/// The request that a row stores.
pub fn access_request_view(row: &AccessRequestRow) -> (view: Result<
    AccessRequestView,
    MetadataRepositoryError,
>)
    ensures
        match request_error(*row) {
            Some(error) => view == Err::<AccessRequestView, MetadataRepositoryError>(error),
            None => view matches Ok(made) && request_of_row(made, *row),
        },
{
    let status = match parse_status(row.status.as_str()) {
        Some(status) => status,
        None => {
            return Err(internal("invalid persisted access-request status"));
        },
    };
    let decided_by = match (&row.decided_by_type, &row.decided_by_id) {
        (Some(kind), Some(id)) => match actor_ref(kind.as_str(), id) {
            Ok(actor) => Some(actor),
            Err(error) => {
                return Err(error);
            },
        },
        (None, None) => None,
        _ => {
            return Err(internal("incomplete access-request decision actor"));
        },
    };
    if !row.access_request_id.accepted || !row.entry_id.accepted {
        return Err(internal_data());
    }
    let requested_by = match actor_ref(row.requested_by_type.as_str(), &row.requested_by_id) {
        Ok(actor) => actor,
        Err(error) => {
            return Err(error);
        },
    };
    let requested_access = match decode_access(row.requested_access_mask) {
        Ok(access) => access,
        Err(error) => {
            return Err(error);
        },
    };
    let granted_access = match row.granted_access_mask {
        Some(mask) => match decode_access(mask) {
            Ok(access) => Some(access),
            Err(error) => {
                return Err(error);
            },
        },
        None => None,
    };
    let permission_grant_id = match row.permission_grant_id {
        Some(grant) => {
            if !grant.accepted {
                return Err(internal_data());
            }
            Some(grant.value)
        },
        None => None,
    };
    Ok(
        AccessRequestView {
            id: row.access_request_id.value,
            entry_id: row.entry_id.value,
            requested_by,
            requested_access,
            reason: clone_optional_text(&row.reason),
            status,
            granted_access,
            decided_by,
            decided_at: row.decided_at,
            permission_grant_id,
            created_at: row.created_at,
            updated_at: row.updated_at,
        },
    )
}

/// Access to request.
#[derive(Clone, Debug)]
pub struct RequestAccessCommand {
    /// The entry.
    pub entry_id: u128,
    /// Rights to request.
    pub access: GrantedAccess,
    /// What the requester writes.
    pub reason: Option<String>,
}

/// A request row to insert.
#[derive(Clone, Debug)]
pub struct AccessRequestInsert {
    /// Request identifier.
    pub request_id: u128,
    /// The entry.
    pub entry_id: u128,
    /// Member that requests.
    pub requested_by: ActorRef,
    /// Requested rights as a bit mask.
    pub access_mask: i16,
    /// What the requester wrote.
    pub reason: Option<String>,
}

/// Everything that requesting access writes, but for its notifications.
#[derive(Clone, Debug)]
pub struct RequestPlan {
    /// The request.
    pub request: AccessRequestInsert,
    /// The change.
    pub change: ChangeRecord,
}

/// What requesting access leads to.
#[derive(Clone, Debug)]
pub enum RequestOutcome {
    /// It was requested before: answer with this request.
    Replay {
        /// The request.
        request_id: u128,
    },
    /// It is requested now.
    Apply {
        /// What is written.
        plan: RequestPlan,
    },
}

/// The first reason why a request for access is refused. One for nothing but
/// what the caller may do already conflicts.
pub open spec fn request_refusal(
    command: RequestAccessCommand,
    entry: Option<AuthorizableEntry>,
) -> Option<MetadataRepositoryError> {
    match entry {
        None => Some(MetadataRepositoryError::NotFound),
        Some(found) => if command.access.within(found.access.satisfied) {
            Some(MetadataRepositoryError::Conflict)
        } else {
            None
        },
    }
}

/// Checks that access may be requested, before the idempotency key is claimed.
pub fn check_request(command: &RequestAccessCommand, entry: Option<&AuthorizableEntry>) -> (result:
    Result<(), MetadataRepositoryError>)
    ensures
        match request_refusal(*command, deref_entry(entry)) {
            Some(error) => result == Err::<(), MetadataRepositoryError>(error),
            None => result == Ok::<(), MetadataRepositoryError>(()),
        },
{
    match entry {
        Some(found) => if command.access.is_within(found.access.satisfied) {
            Err(MetadataRepositoryError::Conflict)
        } else {
            Ok(())
        },
        None => Err(MetadataRepositoryError::NotFound),
    }
}

/// Whether a plan requests exactly what was asked for.
pub open spec fn request_planned(
    plan: RequestPlan,
    command: RequestAccessCommand,
    request_id: u128,
    actor: ActorRef,
) -> bool {
    &&& plan.request.request_id == request_id
    &&& plan.request.entry_id == command.entry_id
    &&& plan.request.requested_by == actor
    &&& plan.request.access_mask == mask_of(command.access)
    &&& plan.request.reason == command.reason
    &&& plan.change.entry_id == Some(command.entry_id)
    &&& plan.change.action == "access_request.created.v1"
    &&& plan.change.aggregate_type == "access_request"
    &&& plan.change.aggregate_id@ == hyphenated_chars(request_id)
    &&& plan.change.payload@.len() == 2
    &&& plan.change.payload@[0] == (Detail {
        key: "entry_id",
        value: DetailValue::Id(command.entry_id),
    })
    &&& plan.change.payload@[1].key == "requested_access"
    &&& plan.change.payload@[1].value matches DetailValue::Words(words) && words@ == right_words(
        command.access,
    )
}

/// Decides whether access is requested, and what requesting it writes.
pub fn create_access_request(
    command: &RequestAccessCommand,
    entry: Option<&AuthorizableEntry>,
    claim: IdempotencyClaim,
    accepted: bool,
    actor: &ActorRef,
) -> (outcome: Result<RequestOutcome, MetadataRepositoryError>)
    ensures
        match request_refusal(*command, deref_entry(entry)) {
            Some(error) => outcome == Err::<RequestOutcome, MetadataRepositoryError>(error),
            None => match resource_claim_of(claim, accepted, false) {
                Err(error) => outcome == Err::<RequestOutcome, MetadataRepositoryError>(error),
                Ok(ResourceClaim::Replay { id }) => outcome == Ok::<
                    RequestOutcome,
                    MetadataRepositoryError,
                >(RequestOutcome::Replay { request_id: id }),
                Ok(ResourceClaim::Run { id }) => outcome matches Ok(RequestOutcome::Apply { plan })
                    && request_planned(plan, *command, id, *actor),
            },
        },
{
    match check_request(command, entry) {
        Ok(()) => {},
        Err(error) => {
            return Err(error);
        },
    }
    let request_id: u128 = match resource_claim(claim, accepted, false) {
        Ok(ResourceClaim::Run { id }) => id,
        Ok(ResourceClaim::Replay { id }) => {
            return Ok(RequestOutcome::Replay { request_id: id });
        },
        Err(error) => {
            return Err(error);
        },
    };
    let payload: Vec<Detail> = vec![
        Detail { key: "entry_id", value: DetailValue::Id(command.entry_id) },
        Detail { key: "requested_access", value: DetailValue::Words(access_rights(command.access)) },
    ];
    Ok(
        RequestOutcome::Apply {
            plan: RequestPlan {
                request: AccessRequestInsert {
                    request_id,
                    entry_id: command.entry_id,
                    requested_by: actor.duplicate(),
                    access_mask: encode_access(command.access),
                    reason: clone_optional_text(&command.reason),
                },
                change: ChangeRecord {
                    entry_id: Some(command.entry_id),
                    action: "access_request.created.v1",
                    aggregate_type: "access_request",
                    aggregate_id: hyphenated(request_id),
                    payload,
                },
            },
        },
    )
}

/// Whether a notification asks a member to decide about a request.
pub open spec fn asks_to_decide(
    notification: NewNotification,
    recipient: ActorRef,
    actor: ActorRef,
    entry: EntryView,
    access: GrantedAccess,
    request_id: u128,
) -> bool {
    &&& notification.recipient == recipient
    &&& notification.kind == NotificationKind::AccessRequested
    &&& notification.actor == Some(actor)
    &&& notification.subject matches Some(subject) && subject.is_of(entry)
    &&& notification.access == Some(access)
    &&& notification.access_request_id == Some(request_id)
    &&& notification.decision is None
}

/// What the members who decide about a request are told.
pub fn request_notifications(
    recipients: &Vec<ActorRef>,
    actor: &ActorRef,
    entry: &EntryView,
    access: GrantedAccess,
    request_id: u128,
) -> (notifications: Vec<NewNotification>)
    ensures
        notifications@.len() == recipients@.len(),
        forall|k: int|
            0 <= k < recipients@.len() ==> asks_to_decide(
                #[trigger] notifications@[k],
                recipients@[k],
                *actor,
                *entry,
                access,
                request_id,
            ),
{
    let mut notifications: Vec<NewNotification> = Vec::new();
    let mut index: usize = 0;
    while index < recipients.len()
        invariant
            index <= recipients@.len(),
            notifications@.len() == index,
            forall|k: int|
                0 <= k < index ==> asks_to_decide(
                    #[trigger] notifications@[k],
                    recipients@[k],
                    *actor,
                    *entry,
                    access,
                    request_id,
                ),
        decreases recipients@.len() - index,
    {
        notifications.push(
            NewNotification {
                recipient: recipients[index].duplicate(),
                kind: NotificationKind::AccessRequested,
                actor: Some(actor.duplicate()),
                subject: Some(snapshot(entry)),
                access: Some(access),
                access_request_id: Some(request_id),
                decision: None,
            },
        );
        index += 1;
    }
    notifications
}

/// A request together with the entry it is about.
#[derive(Clone, Debug)]
pub struct AuthorizableAccessRequest {
    /// The request.
    pub request: AccessRequestView,
    /// The entry.
    pub entry: AuthorizableEntry,
}

/// A stored request together with the entry it is about.
pub fn find_access_request(
    row: &Option<AccessRequestRow>,
    entry: Option<AuthorizableEntry>,
) -> (found: Result<Option<AuthorizableAccessRequest>, MetadataRepositoryError>)
    ensures
        match *row {
            None => found == Ok::<Option<AuthorizableAccessRequest>, MetadataRepositoryError>(None),
            Some(stored) => if !stored.entry_id.accepted {
                found == Err::<Option<AuthorizableAccessRequest>, MetadataRepositoryError>(
                    bad_data(),
                )
            } else if entry is None {
                found == Err::<Option<AuthorizableAccessRequest>, MetadataRepositoryError>(
                    MetadataRepositoryError::NotFound,
                )
            } else {
                match request_error(stored) {
                    Some(error) => found == Err::<
                        Option<AuthorizableAccessRequest>,
                        MetadataRepositoryError,
                    >(error),
                    None => found matches Ok(Some(pair)) && request_of_row(pair.request, stored)
                        && Some(pair.entry) == entry,
                }
            },
        },
{
    match row {
        None => Ok(None),
        Some(stored) => {
            if !stored.entry_id.accepted {
                return Err(internal_data());
            }
            match entry {
                None => Err(MetadataRepositoryError::NotFound),
                Some(entry) => match access_request_view(stored) {
                    Ok(request) => Ok(Some(AuthorizableAccessRequest { request, entry })),
                    Err(error) => Err(error),
                },
            }
        },
    }
}

/// How a request is decided.
#[derive(Clone, Copy, Debug, PartialEq, Eq, Structural)]
pub enum AccessDecision {
    /// It is denied.
    Deny,
    /// It is approved.
    Approve {
        /// Rights granted.
        access: GrantedAccess,
    },
}

/// Everything that deciding about a request writes.
#[derive(Clone, Debug)]
pub struct DecisionPlan {
    /// The request.
    pub request_id: u128,
    /// Stored name of the new status.
    pub status: &'static str,
    /// Granted rights as a bit mask.
    pub granted_mask: Option<i16>,
    /// Member that decides.
    pub decided_by: ActorRef,
    /// Grant that an approval makes.
    pub grant: Option<GrantInsert>,
    /// The change.
    pub change: ChangeRecord,
}

/// What deciding about a request leads to.
#[derive(Clone, Debug)]
pub enum DecisionOutcome {
    /// It was decided before: answer with the request as it is.
    Replay,
    /// It is decided now.
    Apply {
        /// What is written.
        plan: DecisionPlan,
    },
}

/// The first reason why a caller may not decide a request, however it stands.
pub open spec fn decider_refusal(
    row: Option<AccessRequestRow>,
    entry: Option<AuthorizableEntry>,
    required: Capability,
) -> Option<MetadataRepositoryError> {
    match row {
        None => Some(MetadataRepositoryError::NotFound),
        Some(stored) => if !stored.entry_id.accepted {
            Some(bad_data())
        } else if entry is None {
            Some(MetadataRepositoryError::NotFound)
        } else if !entry->0.access.permits(required) {
            Some(MetadataRepositoryError::Conflict)
        } else {
            None
        },
    }
}

/// Checks that a caller may decide a request, before the idempotency key is
/// claimed.
pub fn check_decider<'a>(
    row: &'a Option<AccessRequestRow>,
    entry: Option<&AuthorizableEntry>,
    required: Capability,
) -> (stored: Result<&'a AccessRequestRow, MetadataRepositoryError>)
    ensures
        match decider_refusal(*row, deref_entry(entry), required) {
            Some(error) => stored is Err && stored->Err_0 == error,
            None => row is Some && stored is Ok && *stored->Ok_0 == row->0,
        },
{
    let stored = match row {
        Some(stored) => stored,
        None => {
            return Err(MetadataRepositoryError::NotFound);
        },
    };
    if !stored.entry_id.accepted {
        return Err(internal_data());
    }
    match entry {
        Some(found) => if found.access.allows(required) {
            Ok(stored)
        } else {
            Err(MetadataRepositoryError::Conflict)
        },
        None => Err(MetadataRepositoryError::NotFound),
    }
}

/// The first reason why a request is not decided.
pub open spec fn decision_refusal(
    row: Option<AccessRequestRow>,
    entry: Option<AuthorizableEntry>,
    required: Capability,
    claim: IdempotencyClaim,
    decision: AccessDecision,
    requester_is_member: bool,
) -> Option<MetadataRepositoryError> {
    match decider_refusal(row, entry, required) {
        Some(error) => Some(error),
        None => if claim is Replay {
            None
        } else if row->0.status@ != "pending"@ {
            Some(MetadataRepositoryError::Conflict)
        } else if actor_ref_of(row->0.requested_by_type@, row->0.requested_by_id) is Err {
            Some(actor_ref_of(row->0.requested_by_type@, row->0.requested_by_id)->Err_0)
        } else if decision is Approve && !requester_is_member {
            Some(MetadataRepositoryError::Conflict)
        } else {
            None
        },
    }
}

/// Whether a plan decides a request exactly as asked.
pub open spec fn decision_planned(
    plan: DecisionPlan,
    request_id: u128,
    row: AccessRequestRow,
    decision: AccessDecision,
    grant_id: u128,
    actor: ActorRef,
) -> bool {
    &&& plan.request_id == request_id
    &&& plan.decided_by == actor
    &&& match decision {
        AccessDecision::Deny => plan.status == "denied" && plan.granted_mask is None && plan.grant
            is None,
        AccessDecision::Approve { access } => plan.status == "approved" && plan.granted_mask
            == Some(mask_of(access)) && (plan.grant matches Some(grant) && grant.entry_id
            == row.entry_id.value && grant.grant_id == grant_id && actor_ref_of(
            row.requested_by_type@,
            row.requested_by_id,
        ) == Ok::<ActorRef, MetadataRepositoryError>(grant.principal) && grant.access_mask
            == mask_of(access) && grant.inherits_to_descendants && grant.granted_by == actor
            && grant.lifetime_minutes is None),
    }
    &&& plan.change.entry_id == Some(row.entry_id.value)
    &&& plan.change.action == "access_request.decided.v1"
    &&& plan.change.aggregate_type == "access_request"
    &&& plan.change.aggregate_id@ == hyphenated_chars(request_id)
    &&& plan.change.payload@ == seq![
        Detail { key: "status", value: DetailValue::Word(plan.status) },
        Detail {
            key: "grant_id",
            value: DetailValue::of_id(
                if decision is Approve {
                    Some(grant_id)
                } else {
                    None
                },
            ),
        },
    ]
}

/// Decides about a request: a pending one is denied, or approved with a grant
/// to its requester.
pub fn decide_access_request(
    request_id: u128,
    row: &Option<AccessRequestRow>,
    entry: Option<&AuthorizableEntry>,
    required: Capability,
    claim: IdempotencyClaim,
    decision: AccessDecision,
    requester_is_member: bool,
    grant_id: u128,
    actor: &ActorRef,
) -> (outcome: Result<DecisionOutcome, MetadataRepositoryError>)
    ensures
        match decision_refusal(
            *row,
            deref_entry(entry),
            required,
            claim,
            decision,
            requester_is_member,
        ) {
            Some(error) => outcome == Err::<DecisionOutcome, MetadataRepositoryError>(error),
            None => match claim {
                IdempotencyClaim::Replay(_) => outcome == Ok::<
                    DecisionOutcome,
                    MetadataRepositoryError,
                >(DecisionOutcome::Replay),
                IdempotencyClaim::Acquired(_) => outcome matches Ok(
                    DecisionOutcome::Apply { plan },
                ) && row is Some && decision_planned(
                    plan,
                    request_id,
                    row->0,
                    decision,
                    grant_id,
                    *actor,
                ),
            },
        },
{
    let stored = match check_decider(row, entry, required) {
        Ok(stored) => stored,
        Err(error) => {
            return Err(error);
        },
    };
    if let IdempotencyClaim::Replay(_) = claim {
        return Ok(DecisionOutcome::Replay);
    }
    if !same_text(stored.status.as_str(), "pending") {
        return Err(MetadataRepositoryError::Conflict);
    }
    let requester = match actor_ref(stored.requested_by_type.as_str(), &stored.requested_by_id) {
        Ok(requester) => requester,
        Err(error) => {
            return Err(error);
        },
    };
    let (status, granted_mask, grant, made) = match decision {
        AccessDecision::Deny => ("denied", None, None, None),
        AccessDecision::Approve { access } => {
            if !requester_is_member {
                return Err(MetadataRepositoryError::Conflict);
            }
            (
                "approved",
                Some(encode_access(access)),
                Some(
                    GrantInsert {
                        entry_id: stored.entry_id.value,
                        grant_id,
                        principal: requester,
                        access_mask: encode_access(access),
                        inherits_to_descendants: true,
                        granted_by: actor.duplicate(),
                        lifetime_minutes: None,
                    },
                ),
                Some(grant_id),
            )
        },
    };
    let payload: Vec<Detail> = vec![
        Detail { key: "status", value: DetailValue::Word(status) },
        Detail { key: "grant_id", value: DetailValue::optional_id(made) },
    ];
    let plan = DecisionPlan {
        request_id,
        status,
        granted_mask,
        decided_by: actor.duplicate(),
        grant,
        change: ChangeRecord {
            entry_id: Some(stored.entry_id.value),
            action: "access_request.decided.v1",
            aggregate_type: "access_request",
            aggregate_id: hyphenated(request_id),
            payload,
        },
    };
    assert(plan.change.payload@ =~= seq![
        Detail { key: "status", value: DetailValue::Word(status) },
        Detail { key: "grant_id", value: DetailValue::of_id(made) },
    ]);
    Ok(DecisionOutcome::Apply { plan })
}

/// A request is decided at most once: one that is not pending is not decided
/// again, however it was decided.
pub proof fn law_requests_are_decided_once(
    row: AccessRequestRow,
    entry: Option<AuthorizableEntry>,
    required: Capability,
    resource: Option<u128>,
    decision: AccessDecision,
    requester_is_member: bool,
)
    requires
        row.status@ != "pending"@,
    ensures
        decision_refusal(
            Some(row),
            entry,
            required,
            IdempotencyClaim::Acquired(resource),
            decision,
            requester_is_member,
        ) is Some,
{
}

/// What the requester of a decided request is told.
pub fn decision_notification(
    requester: &ActorRef,
    actor: &ActorRef,
    entry: Option<&AuthorizableEntry>,
    decision: AccessDecision,
    request_id: u128,
) -> (notification: NewNotification)
    ensures
        notification.recipient == *requester,
        notification.kind == NotificationKind::AccessRequestDecided,
        notification.actor == Some(*actor),
        notification.subject is Some == entry is Some,
        notification.subject matches Some(subject) ==> subject.is_of(entry->0.entry),
        notification.access == match decision {
            AccessDecision::Approve { access } => Some(access),
            AccessDecision::Deny => None,
        },
        notification.access_request_id == Some(request_id),
        notification.decision == Some(
            match decision {
                AccessDecision::Approve { .. } => NotificationDecision::Approved,
                AccessDecision::Deny => NotificationDecision::Denied,
            },
        ),
{
    let subject = match entry {
        Some(found) => Some(snapshot(&found.entry)),
        None => None,
    };
    let (access, outcome) = match decision {
        AccessDecision::Approve { access } => (Some(access), NotificationDecision::Approved),
        AccessDecision::Deny => (None, NotificationDecision::Denied),
    };
    NewNotification {
        recipient: requester.duplicate(),
        kind: NotificationKind::AccessRequestDecided,
        actor: Some(actor.duplicate()),
        subject,
        access,
        access_request_id: Some(request_id),
        decision: Some(outcome),
    }
}

} // verus!
