//! Keeping a self-destructing file.

use vstd::prelude::*;

use crate::error::{conflict, AppError};
use crate::model::{
    ActorRef, AuthorizableEntry, Capability, IdempotencyClaim, OrganizationRole,
};
use crate::postgres::kind_chars;
use crate::postgres::metadata::common::{
    actor_kind, entry_change, ChangeRecord, Detail, DetailValue,
};
use crate::postgres::metadata::entries::deref_entry;
use crate::text::same_text;

verus! {

/// The first reason why a caller may not keep a file. Only its creator and
/// administrators may; whoever cannot see it is told it does not exist.
pub open spec fn keep_refusal(
    entry: Option<AuthorizableEntry>,
    creator: (Seq<char>, Seq<char>),
    actor: ActorRef,
    role: OrganizationRole,
) -> Option<AppError> {
    match entry {
        None => Some(AppError::NotFound),
        Some(found) => if !found.access.read {
            Some(AppError::NotFound)
        } else if creator != (kind_chars(actor.kind), actor.id@) && !role.administers() {
            Some(AppError::Forbidden)
        } else {
            None
        },
    }
}

/// Refuses a caller that may not keep a file.
pub fn check_keeper(
    entry: Option<&AuthorizableEntry>,
    creator_type: &str,
    creator_id: &str,
    actor: &ActorRef,
    role: OrganizationRole,
) -> (result: Result<(), AppError>)
    ensures
        match keep_refusal(deref_entry(entry), (creator_type@, creator_id@), *actor, role) {
            Some(error) => result == Err::<(), AppError>(error),
            None => result == Ok::<(), AppError>(()),
        },
{
    let found = match entry {
        Some(found) => found,
        None => {
            return Err(AppError::NotFound);
        },
    };
    if !found.access.allows(Capability::Read) {
        return Err(AppError::NotFound);
    }
    let is_creator = same_text(creator_type, actor_kind(actor.kind)) && same_text(
        creator_id,
        actor.id.as_str(),
    );
    if !is_creator && !role.has_administrative_access() {
        return Err(AppError::Forbidden);
    }
    Ok(())
}

/// Decides what keeping a file records: nothing where it was kept before, and a
/// conflict where its timer no longer ran. `cleared` is the deadline that was
/// taken away.
pub fn make_permanent(
    id: u128,
    entry: Option<&AuthorizableEntry>,
    creator_type: &str,
    creator_id: &str,
    actor: &ActorRef,
    role: OrganizationRole,
    claim: IdempotencyClaim,
    cleared: Option<i128>,
) -> (change: Result<Option<ChangeRecord>, AppError>)
    ensures
        match keep_refusal(deref_entry(entry), (creator_type@, creator_id@), *actor, role) {
            Some(error) => change == Err::<Option<ChangeRecord>, AppError>(error),
            None => match claim {
                IdempotencyClaim::Replay(_) => change == Ok::<Option<ChangeRecord>, AppError>(None),
                IdempotencyClaim::Acquired(_) => match cleared {
                    None => change == Err::<Option<ChangeRecord>, AppError>(
                        AppError::Conflict { code: "not_self_destructing" },
                    ),
                    Some(previous) => change matches Ok(Some(record)) && record.is_entry_change(
                        id,
                        "entry.made_permanent.v1",
                        seq![
                            Detail {
                                key: "previous_self_destruct_at",
                                value: DetailValue::Instant(previous),
                            },
                        ],
                    ),
                },
            },
        },
{
    match check_keeper(entry, creator_type, creator_id, actor, role) {
        Ok(()) => {},
        Err(error) => {
            return Err(error);
        },
    }
    if let IdempotencyClaim::Replay(_) = claim {
        return Ok(None);
    }
    let previous: i128 = match cleared {
        Some(previous) => previous,
        None => {
            return Err(conflict("not_self_destructing"));
        },
    };
    let payload: Vec<Detail> = vec![
        Detail { key: "previous_self_destruct_at", value: DetailValue::Instant(previous) },
    ];
    assert(payload@ =~= seq![
        Detail { key: "previous_self_destruct_at", value: DetailValue::Instant(previous) },
    ]);
    Ok(Some(entry_change(id, "entry.made_permanent.v1", payload)))
}

/// A member who may change a file but did not create it cannot keep it.
pub proof fn law_editors_cannot_keep(
    entry: AuthorizableEntry,
    creator: (Seq<char>, Seq<char>),
    actor: ActorRef,
)
    requires
        entry.access.read,
        creator != (kind_chars(actor.kind), actor.id@),
    ensures
        keep_refusal(Some(entry), creator, actor, OrganizationRole::Member) == Some(
            AppError::Forbidden,
        ),
        keep_refusal(Some(entry), creator, actor, OrganizationRole::Admin) is None,
        keep_refusal(Some(entry), creator, actor, OrganizationRole::Owner) is None,
{
}

} // verus!
