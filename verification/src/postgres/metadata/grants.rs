//! Granting and revoking access.

use vstd::prelude::*;

use crate::error::MetadataRepositoryError;
use crate::model::{
    ActorRef, AuthorizableEntry, Capability, GrantedAccess, IdempotencyClaim,
};
use crate::postgres::metadata::common::{
    access_of, access_rights, actor_ref, actor_ref_of, change_error, decode_access,
    encode_access, entry_change, mask_of, require_changeable, right_words, ChangeRecord, Detail,
    DetailValue,
};
use crate::postgres::metadata::entries::{
    access_notification, deref_entry, resource_claim, resource_claim_of, tells_of_access,
    GrantInsert, ResourceClaim,
};
use crate::postgres::metadata::notifications::{NewNotification, NotificationKind};
use crate::postgres::models::PermissionGrantRow;

verus! {

/// Access to grant.
#[derive(Clone, Debug)]
pub struct GrantPermissionCommand {
    /// The entry.
    pub entry_id: u128,
    /// Member to grant access to.
    pub principal: ActorRef,
    /// Rights to grant.
    pub access: GrantedAccess,
    /// Whether the grant reaches descendants.
    pub inherits_to_descendants: bool,
    /// Minutes that an expiring share lasts; none grants for good.
    pub lifetime_minutes: Option<u32>,
}

/// Everything that granting access writes.
#[derive(Clone, Debug)]
pub struct GrantPlan {
    /// The grant. A permanent one amends the permanent grant that the member
    /// holds on the entry already; an expiring share is always a row of its own.
    pub grant: GrantInsert,
    /// Whether an existing permanent grant of the member is amended.
    pub amends: bool,
    /// The change.
    pub change: ChangeRecord,
    /// What the member is told.
    pub notification: NewNotification,
}

/// What granting access leads to.
#[derive(Clone, Debug)]
pub enum GrantOutcome {
    /// It was granted before: answer with this grant.
    Replay {
        /// The grant.
        grant_id: u128,
    },
    /// It is granted now.
    Apply {
        /// What is written.
        plan: GrantPlan,
    },
}

/// The first reason why access is not granted.
pub open spec fn grant_refusal(
    command: GrantPermissionCommand,
    entry: Option<AuthorizableEntry>,
    required: Capability,
    is_member: bool,
) -> Option<MetadataRepositoryError> {
    match change_error(entry, required) {
        Some(error) => Some(error),
        None => if !is_member || (command.lifetime_minutes is Some
            && command.access.beyond_read()) {
            Some(MetadataRepositoryError::Conflict)
        } else {
            None
        },
    }
}

/// Checks that access may be granted, before the idempotency key is claimed.
pub fn check_grant<'a>(
    command: &GrantPermissionCommand,
    entry: Option<&'a AuthorizableEntry>,
    required: Capability,
    is_member: bool,
) -> (found: Result<&'a AuthorizableEntry, MetadataRepositoryError>)
    ensures
        match grant_refusal(*command, deref_entry(entry), required, is_member) {
            Some(error) => found == Err::<&AuthorizableEntry, MetadataRepositoryError>(error),
            None => entry is Some && found == Ok::<&AuthorizableEntry, MetadataRepositoryError>(
                entry->0,
            ),
        },
{
    let found = match require_changeable(entry, required) {
        Ok(found) => found,
        Err(error) => {
            return Err(error);
        },
    };
    if !is_member || (command.lifetime_minutes.is_some() && (command.access.write
        || command.access.update || command.access.delete)) {
        return Err(MetadataRepositoryError::Conflict);
    }
    Ok(found)
}

/// The name of the change that a grant makes.
pub open spec fn grant_action(lifetime_minutes: Option<u32>) -> &'static str {
    if lifetime_minutes is Some {
        "permission.expiring_share_granted.v1"
    } else {
        "permission.granted.v1"
    }
}

/// Whether a plan grants exactly what was asked for.
pub open spec fn grant_planned(
    plan: GrantPlan,
    command: GrantPermissionCommand,
    grant_id: u128,
    entry: AuthorizableEntry,
    actor: ActorRef,
) -> bool {
    &&& plan.grant.entry_id == command.entry_id
    &&& plan.grant.grant_id == grant_id
    &&& plan.grant.principal == command.principal
    &&& plan.grant.access_mask == mask_of(command.access)
    &&& plan.grant.inherits_to_descendants == command.inherits_to_descendants
    &&& plan.grant.granted_by == actor
    &&& plan.grant.lifetime_minutes == command.lifetime_minutes
    &&& plan.amends == command.lifetime_minutes is None
    &&& plan.change.entry_id == Some(command.entry_id)
    &&& plan.change.action == grant_action(command.lifetime_minutes)
    &&& plan.change.aggregate_type == "entry"
    &&& plan.change.aggregate_id@ == crate::ids::hyphenated_chars(command.entry_id)
    &&& plan.change.payload@.len() == 2
    &&& plan.change.payload@[0] == (Detail { key: "grant_id", value: DetailValue::Id(grant_id) })
    &&& plan.change.payload@[1].key == "access"
    &&& plan.change.payload@[1].value matches DetailValue::Words(words) && words@ == right_words(
        command.access,
    )
    &&& tells_of_access(
        plan.notification,
        NotificationKind::AccessGranted,
        command.principal,
        actor,
        entry.entry,
        command.access,
    )
}

/// Decides whether access is granted, and everything that granting it writes.
/// `accepted` is the identifier type's verdict on the claimed grant identifier.
pub fn grant_permission(
    command: &GrantPermissionCommand,
    entry: Option<&AuthorizableEntry>,
    required: Capability,
    is_member: bool,
    claim: IdempotencyClaim,
    accepted: bool,
    actor: &ActorRef,
) -> (outcome: Result<GrantOutcome, MetadataRepositoryError>)
    ensures
        match grant_refusal(*command, deref_entry(entry), required, is_member) {
            Some(error) => outcome == Err::<GrantOutcome, MetadataRepositoryError>(error),
            None => match resource_claim_of(claim, accepted, false) {
                Err(error) => outcome == Err::<GrantOutcome, MetadataRepositoryError>(error),
                Ok(ResourceClaim::Replay { id }) => outcome == Ok::<
                    GrantOutcome,
                    MetadataRepositoryError,
                >(GrantOutcome::Replay { grant_id: id }),
                Ok(ResourceClaim::Run { id }) => outcome matches Ok(GrantOutcome::Apply { plan })
                    && entry is Some && grant_planned(plan, *command, id, *entry->0, *actor),
            },
        },
{
    let found = match check_grant(command, entry, required, is_member) {
        Ok(found) => found,
        Err(error) => {
            return Err(error);
        },
    };
    let grant_id: u128 = match resource_claim(claim, accepted, false) {
        Ok(ResourceClaim::Run { id }) => id,
        Ok(ResourceClaim::Replay { id }) => {
            return Ok(GrantOutcome::Replay { grant_id: id });
        },
        Err(error) => {
            return Err(error);
        },
    };
    let action = if command.lifetime_minutes.is_some() {
        "permission.expiring_share_granted.v1"
    } else {
        "permission.granted.v1"
    };
    let payload: Vec<Detail> = vec![
        Detail { key: "grant_id", value: DetailValue::Id(grant_id) },
        Detail { key: "access", value: DetailValue::Words(access_rights(command.access)) },
    ];
    Ok(
        GrantOutcome::Apply {
            plan: GrantPlan {
                grant: GrantInsert {
                    entry_id: command.entry_id,
                    grant_id,
                    principal: command.principal.duplicate(),
                    access_mask: encode_access(command.access),
                    inherits_to_descendants: command.inherits_to_descendants,
                    granted_by: actor.duplicate(),
                    lifetime_minutes: command.lifetime_minutes,
                },
                amends: command.lifetime_minutes.is_none(),
                change: entry_change(command.entry_id, action, payload),
                notification: access_notification(
                    NotificationKind::AccessGranted,
                    &command.principal,
                    actor,
                    &found.entry,
                    command.access,
                ),
            },
        },
    )
}

/// An expiring share gives no more than read access, and never amends a
/// permanent grant.
pub proof fn law_expiring_shares_only_read(
    command: GrantPermissionCommand,
    entry: Option<AuthorizableEntry>,
    required: Capability,
    is_member: bool,
)
    requires
        command.lifetime_minutes is Some,
        grant_refusal(command, entry, required, is_member) is None,
    ensures
        !command.access.write && !command.access.update && !command.access.delete,
        forall|plan: GrantPlan, grant_id: u128, actor: ActorRef| #[trigger]
            grant_planned(plan, command, grant_id, entry->0, actor) ==> !plan.amends,
{
}

/// A grant to revoke.
#[derive(Clone, Copy, Debug, PartialEq, Eq, Structural)]
pub struct RevokePermissionCommand {
    /// The entry.
    pub entry_id: u128,
    /// The grant.
    pub grant_id: u128,
}

/// Everything that revoking access writes.
#[derive(Clone, Debug)]
pub struct RevokePlan {
    /// The entry.
    pub entry_id: u128,
    /// The grant.
    pub grant_id: u128,
    /// Member that revokes.
    pub revoked_by: ActorRef,
    /// The change.
    pub change: ChangeRecord,
    /// What the member is told; an expiring share ends without a notification.
    pub notification: Option<NewNotification>,
}

/// What revoking access leads to.
#[derive(Clone, Debug)]
pub enum RevokeOutcome {
    /// It was revoked before.
    Replay,
    /// It is revoked now.
    Apply {
        /// What is written.
        plan: RevokePlan,
    },
}

/// The first reason why access is not revoked, whatever was asked before.
pub open spec fn revocation_refusal(
    entry: Option<AuthorizableEntry>,
    required: Capability,
    grant: Option<PermissionGrantRow>,
) -> Option<MetadataRepositoryError> {
    match change_error(entry, required) {
        Some(error) => Some(error),
        None => if grant is None {
            Some(MetadataRepositoryError::NotFound)
        } else {
            None
        },
    }
}

/// Checks that a grant may be revoked, before the idempotency key is claimed.
pub fn check_revocation<'a>(
    entry: Option<&'a AuthorizableEntry>,
    required: Capability,
    grant: &'a Option<PermissionGrantRow>,
) -> (found: Result<(&'a AuthorizableEntry, &'a PermissionGrantRow), MetadataRepositoryError>)
    ensures
        match revocation_refusal(deref_entry(entry), required, *grant) {
            Some(error) => found is Err && found->Err_0 == error,
            None => entry is Some && grant is Some && found is Ok && *found->Ok_0.0 == *entry->0
                && *found->Ok_0.1 == grant->0,
        },
{
    match require_changeable(entry, required) {
        Ok(found) => match grant {
            Some(row) => Ok((found, row)),
            None => Err(MetadataRepositoryError::NotFound),
        },
        Err(error) => Err(error),
    }
}

/// The first reason why access is not revoked.
pub open spec fn revoke_refusal(
    entry: Option<AuthorizableEntry>,
    required: Capability,
    grant: Option<PermissionGrantRow>,
    claim: IdempotencyClaim,
) -> Option<MetadataRepositoryError> {
    match revocation_refusal(entry, required, grant) {
        Some(error) => Some(error),
        None => if claim is Replay {
            None
        } else if grant->0.revoked_at is Some {
            Some(MetadataRepositoryError::Conflict)
        } else if actor_ref_of(grant->0.principal_type@, grant->0.principal_id) is Err {
            Some(actor_ref_of(grant->0.principal_type@, grant->0.principal_id)->Err_0)
        } else if grant->0.expires_at is None && access_of(grant->0.access_mask) is Err {
            Some(access_of(grant->0.access_mask)->Err_0)
        } else {
            None
        },
    }
}

/// The name of the change that a revocation makes.
pub open spec fn revoke_action(expires_at: Option<i128>) -> &'static str {
    if expires_at is Some {
        "permission.expiring_share_revoked.v1"
    } else {
        "permission.revoked.v1"
    }
}

/// Whether a plan revokes exactly the grant that was named.
pub open spec fn revoke_planned(
    plan: RevokePlan,
    command: RevokePermissionCommand,
    entry: AuthorizableEntry,
    row: PermissionGrantRow,
    actor: ActorRef,
) -> bool {
    &&& plan.entry_id == command.entry_id
    &&& plan.grant_id == command.grant_id
    &&& plan.revoked_by == actor
    &&& plan.change.is_entry_change(
        command.entry_id,
        revoke_action(row.expires_at),
        seq![Detail { key: "grant_id", value: DetailValue::Id(command.grant_id) }],
    )
    &&& plan.notification is Some == row.expires_at is None
    &&& plan.notification matches Some(notification) ==> tells_of_access(
        notification,
        NotificationKind::AccessRevoked,
        actor_ref_of(row.principal_type@, row.principal_id)->Ok_0,
        actor,
        entry.entry,
        access_of(row.access_mask)->Ok_0,
    )
}

/// Decides whether access is revoked, and everything that revoking it writes.
pub fn revoke_permission(
    command: RevokePermissionCommand,
    entry: Option<&AuthorizableEntry>,
    required: Capability,
    grant: &Option<PermissionGrantRow>,
    claim: IdempotencyClaim,
    actor: &ActorRef,
) -> (outcome: Result<RevokeOutcome, MetadataRepositoryError>)
    ensures
        match revoke_refusal(deref_entry(entry), required, *grant, claim) {
            Some(error) => outcome == Err::<RevokeOutcome, MetadataRepositoryError>(error),
            None => match claim {
                IdempotencyClaim::Replay(_) => outcome == Ok::<
                    RevokeOutcome,
                    MetadataRepositoryError,
                >(RevokeOutcome::Replay),
                IdempotencyClaim::Acquired(_) => outcome matches Ok(RevokeOutcome::Apply { plan })
                    && entry is Some && grant is Some && revoke_planned(
                    plan,
                    command,
                    *entry->0,
                    grant->0,
                    *actor,
                ),
            },
        },
{
    let (found, row) = match check_revocation(entry, required, grant) {
        Ok(pair) => pair,
        Err(error) => {
            return Err(error);
        },
    };
    if let IdempotencyClaim::Replay(_) = claim {
        return Ok(RevokeOutcome::Replay);
    }
    if row.revoked_at.is_some() {
        return Err(MetadataRepositoryError::Conflict);
    }
    let principal = match actor_ref(row.principal_type.as_str(), &row.principal_id) {
        Ok(principal) => principal,
        Err(error) => {
            return Err(error);
        },
    };
    let notification = if row.expires_at.is_some() {
        None
    } else {
        match decode_access(row.access_mask) {
            Ok(access) => Some(
                access_notification(
                    NotificationKind::AccessRevoked,
                    &principal,
                    actor,
                    &found.entry,
                    access,
                ),
            ),
            Err(error) => {
                return Err(error);
            },
        }
    };
    let action = if row.expires_at.is_some() {
        "permission.expiring_share_revoked.v1"
    } else {
        "permission.revoked.v1"
    };
    let payload: Vec<Detail> = vec![
        Detail { key: "grant_id", value: DetailValue::Id(command.grant_id) },
    ];
    assert(payload@ =~= seq![
        Detail { key: "grant_id", value: DetailValue::Id(command.grant_id) },
    ]);
    Ok(
        RevokeOutcome::Apply {
            plan: RevokePlan {
                entry_id: command.entry_id,
                grant_id: command.grant_id,
                revoked_by: actor.duplicate(),
                change: entry_change(command.entry_id, action, payload),
                notification,
            },
        },
    )
}

/// A repeated revocation tells nobody anything twice: it writes nothing.
pub proof fn law_repeated_revocations_are_quiet(
    entry: AuthorizableEntry,
    required: Capability,
    grant: PermissionGrantRow,
    resource: Option<u128>,
)
    requires
        change_error(Some(entry), required) is None,
    ensures
        revoke_refusal(Some(entry), required, Some(grant), IdempotencyClaim::Replay(resource))
            is None,
{
}

} // verus!
