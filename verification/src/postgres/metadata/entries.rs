//! Creating, changing, deleting and restoring entries.

use vstd::prelude::*;

use crate::clock::{representable, NANOS_PER_DAY};
use crate::error::{internal, internal_data, MetadataRepositoryError};
use crate::ids::{hyphenated, hyphenated_chars, StoredId};
use crate::model::{
    ActorRef, AuthorizableEntry, Capability, EntryBoundary, EntryKind, EntryView, GrantedAccess,
    IdempotencyClaim, RequestAuthContext,
};
use crate::postgres::metadata::common::{
    change_error, encode_access, entry_change, mask_of, require_capability, require_changeable,
    retention_deadline, ChangeRecord, Detail, DetailValue, RETENTION_DAYS,
};
use crate::postgres::metadata::notifications::{snapshot, NewNotification, NotificationKind};
use crate::postgres::roots::{lemma_ascii_byte_len, MAX_ENTRY_NAME_BYTES};
use crate::text::{
    byte_len, characters, clone_optional_text, fitting_prefix, from_characters,
    lemma_encoding_of_concatenation, lemma_longest_prefix, longest_prefix,
};

verus! {

/// What a claim on a resource leads to.
#[derive(Clone, Copy, Debug, PartialEq, Eq, Structural)]
pub enum ResourceClaim {
    /// The operation runs on this resource.
    Run {
        /// The resource.
        id: u128,
    },
    /// The operation ran before, on this resource.
    Replay {
        /// The resource.
        id: u128,
    },
}

/// What a claim on an identified resource leads to. A claim without a resource
/// conflicts; `accepted` is the identifier type's verdict on the resource, asked
/// of a replayed one only where `check_replay` says so.
pub open spec fn resource_claim_of(
    claim: IdempotencyClaim,
    accepted: bool,
    check_replay: bool,
) -> Result<ResourceClaim, MetadataRepositoryError> {
    match claim {
        IdempotencyClaim::Replay(Some(id)) => if check_replay && !accepted {
            Err(MetadataRepositoryError::Internal { reason: "invalid persisted data" })
        } else {
            Ok(ResourceClaim::Replay { id })
        },
        IdempotencyClaim::Acquired(Some(id)) => if !accepted {
            Err(MetadataRepositoryError::Internal { reason: "invalid persisted data" })
        } else {
            Ok(ResourceClaim::Run { id })
        },
        _ => Err(MetadataRepositoryError::Conflict),
    }
}

/// What a claim on an identified resource leads to.
pub fn resource_claim(claim: IdempotencyClaim, accepted: bool, check_replay: bool) -> (step: Result<
    ResourceClaim,
    MetadataRepositoryError,
>)
    ensures
        step == resource_claim_of(claim, accepted, check_replay),
{
    match claim {
        IdempotencyClaim::Replay(Some(id)) => {
            if check_replay && !accepted {
                Err(internal_data())
            } else {
                Ok(ResourceClaim::Replay { id })
            }
        },
        IdempotencyClaim::Acquired(Some(id)) => {
            if accepted {
                Ok(ResourceClaim::Run { id })
            } else {
                Err(internal_data())
            }
        },
        _ => Err(MetadataRepositoryError::Conflict),
    }
}

/// One member invited to a new folder.
#[derive(Clone, Debug)]
pub struct Invitee {
    /// The member.
    pub principal: ActorRef,
    /// Rights given.
    pub access: GrantedAccess,
    /// Whether the grant reaches the folder's descendants.
    pub inherits_to_descendants: bool,
}

/// A folder to create.
#[derive(Clone, Debug)]
pub struct CreateFolderMutation {
    /// Identifier proposed for the folder.
    pub entry_id: u128,
    /// Name.
    pub name: String,
    /// Parent folder; none creates at the top.
    pub parent_id: Option<u128>,
    /// Members invited.
    pub invitees: Vec<Invitee>,
    /// Boundary.
    pub boundary: EntryBoundary,
    /// Owner.
    pub owner: ActorRef,
    /// Originating application.
    pub origin_application_id: Option<String>,
}

/// Whether creating a folder has to exclude the reconciliation of reserved
/// folders: only one at the top can collide with them.
pub fn locks_reconciliation(parent_id: Option<u128>) -> (locks: bool)
    ensures
        locks == parent_id is None,
{
    parent_id.is_none()
}

/// A folder row to insert. The owner is recorded as its creator and changer.
#[derive(Clone, Debug)]
pub struct FolderInsert {
    /// Entry identifier.
    pub entry_id: u128,
    /// Parent folder.
    pub parent_id: Option<u128>,
    /// Name.
    pub name: String,
    /// Boundary.
    pub boundary: EntryBoundary,
    /// Tag of the boundary.
    pub tag_id: Option<String>,
    /// Owner.
    pub owner: ActorRef,
    /// Originating application.
    pub origin_app_id: Option<String>,
}

/// A grant row to insert.
#[derive(Clone, Debug)]
pub struct GrantInsert {
    /// Entry that the grant is on.
    pub entry_id: u128,
    /// Grant identifier.
    pub grant_id: u128,
    /// Member that is granted access.
    pub principal: ActorRef,
    /// Rights as a bit mask.
    pub access_mask: i16,
    /// Whether the grant reaches descendants.
    pub inherits_to_descendants: bool,
    /// Member that grants access.
    pub granted_by: ActorRef,
    /// Minutes that an expiring share lasts; none for a permanent grant.
    pub lifetime_minutes: Option<u32>,
}

/// Everything that creating a folder writes.
#[derive(Clone, Debug)]
pub struct FolderPlan {
    /// The folder.
    pub folder: FolderInsert,
    /// Grants of the invited members.
    pub grants: Vec<GrantInsert>,
    /// The change.
    pub change: ChangeRecord,
}

/// A copy of a boundary.
pub fn duplicate_boundary(boundary: &EntryBoundary) -> (copy: EntryBoundary)
    ensures
        copy == *boundary,
{
    match boundary {
        EntryBoundary::Public => EntryBoundary::Public,
        EntryBoundary::Private => EntryBoundary::Private,
        EntryBoundary::Tag { tag } => EntryBoundary::Tag { tag: tag.clone() },
    }
}

/// The first reason why a folder may not be put where it was asked to be.
pub open spec fn folder_place_error(
    mutation: CreateFolderMutation,
    actor: ActorRef,
    parent: Option<AuthorizableEntry>,
    required: Option<Capability>,
) -> Option<MetadataRepositoryError> {
    if mutation.owner.identity() != actor.identity() {
        Some(MetadataRepositoryError::Conflict)
    } else if mutation.parent_id is None {
        if required is Some {
            Some(MetadataRepositoryError::Conflict)
        } else {
            None
        }
    } else {
        match parent {
            None => Some(MetadataRepositoryError::NotFound),
            Some(folder) => if folder.entry.kind != EntryKind::Folder
                || !folder.entry.boundary.same_boundary(mutation.boundary) || required is None
                || !folder.access.permits(required->0) {
                Some(MetadataRepositoryError::Conflict)
            } else {
                None
            },
        }
    }
}

/// Checks where a folder is to be put: the caller creates only what it owns
/// itself, only inside a folder of the same boundary, and only where the policy
/// allows it.
pub fn check_folder_place(
    mutation: &CreateFolderMutation,
    actor: &ActorRef,
    parent: Option<&AuthorizableEntry>,
    required: Option<Capability>,
) -> (result: Result<(), MetadataRepositoryError>)
    ensures
        match folder_place_error(*mutation, *actor, deref_entry(parent), required) {
            Some(error) => result == Err::<(), MetadataRepositoryError>(error),
            None => result == Ok::<(), MetadataRepositoryError>(()),
        },
{
    if !mutation.owner.same_actor(actor) {
        return Err(MetadataRepositoryError::Conflict);
    }
    if mutation.parent_id.is_none() {
        return if required.is_some() {
            Err(MetadataRepositoryError::Conflict)
        } else {
            Ok(())
        };
    }
    let folder = match parent {
        Some(folder) => folder,
        None => {
            return Err(MetadataRepositoryError::NotFound);
        },
    };
    if folder.entry.kind != EntryKind::Folder || !folder.entry.boundary.matches(
        &mutation.boundary,
    ) {
        return Err(MetadataRepositoryError::Conflict);
    }
    match required {
        Some(capability) => require_capability(folder, capability),
        None => Err(MetadataRepositoryError::Conflict),
    }
}

/// An optional entry without its reference.
pub open spec fn deref_entry(entry: Option<&AuthorizableEntry>) -> Option<AuthorizableEntry> {
    match entry {
        Some(found) => Some(*found),
        None => None,
    }
}

/// Whether every invited principal is a member.
pub open spec fn all_members(members: Seq<bool>) -> bool {
    forall|k: int| 0 <= k < members.len() ==> #[trigger] members[k]
}

/// Whether a grant is the one an invitation asks for.
pub open spec fn invited(
    grant: GrantInsert,
    invitee: Invitee,
    entry_id: u128,
    grant_id: u128,
    actor: ActorRef,
) -> bool {
    &&& grant.entry_id == entry_id
    &&& grant.grant_id == grant_id
    &&& grant.principal == invitee.principal
    &&& grant.access_mask == mask_of(invitee.access)
    &&& grant.inherits_to_descendants == invitee.inherits_to_descendants
    &&& grant.granted_by == actor
    &&& grant.lifetime_minutes is None
}

/// The first reason why a folder is not created.
pub open spec fn create_folder_error(
    mutation: CreateFolderMutation,
    actor: ActorRef,
    parent: Option<AuthorizableEntry>,
    required: Option<Capability>,
    active_tag: Option<String>,
    members: Seq<bool>,
) -> Option<MetadataRepositoryError> {
    match folder_place_error(mutation, actor, parent, required) {
        Some(error) => Some(error),
        None => if (mutation.boundary is Tag && active_tag is None) || !all_members(members) {
            Some(MetadataRepositoryError::Conflict)
        } else {
            None
        },
    }
}

/// Whether a plan creates exactly the folder that was asked for.
pub open spec fn folder_planned(
    plan: FolderPlan,
    mutation: CreateFolderMutation,
    entry_id: u128,
    actor: ActorRef,
    active_tag: Option<String>,
    grant_ids: Seq<u128>,
) -> bool {
    &&& plan.folder.entry_id == entry_id
    &&& plan.folder.parent_id == mutation.parent_id
    &&& plan.folder.name == mutation.name
    &&& plan.folder.boundary == mutation.boundary
    &&& plan.folder.tag_id == if mutation.boundary is Tag {
        active_tag
    } else {
        None
    }
    &&& plan.folder.owner == actor
    &&& plan.folder.origin_app_id == mutation.origin_application_id
    &&& plan.grants@.len() == mutation.invitees@.len()
    &&& forall|k: int|
        0 <= k < mutation.invitees@.len() ==> invited(
            #[trigger] plan.grants@[k],
            mutation.invitees@[k],
            entry_id,
            grant_ids[k],
            actor,
        )
    &&& plan.change.is_entry_change(
        entry_id,
        "entry.folder_created.v1",
        seq![Detail { key: "parent_id", value: DetailValue::of_id(mutation.parent_id) }],
    )
}

/// Decides whether a folder is created, and everything that creating it writes.
/// `members` says of each invited principal whether it is a current member,
/// `grant_ids` are fresh identifiers for their grants.
pub fn create_folder(
    mutation: &CreateFolderMutation,
    entry_id: u128,
    actor: &ActorRef,
    parent: Option<&AuthorizableEntry>,
    required: Option<Capability>,
    active_tag: Option<String>,
    members: &Vec<bool>,
    grant_ids: &Vec<u128>,
) -> (plan: Result<FolderPlan, MetadataRepositoryError>)
    requires
        members@.len() == mutation.invitees@.len(),
        grant_ids@.len() == mutation.invitees@.len(),
    ensures
        match create_folder_error(
            *mutation,
            *actor,
            deref_entry(parent),
            required,
            active_tag,
            members@,
        ) {
            Some(error) => plan == Err::<FolderPlan, MetadataRepositoryError>(error),
            None => plan matches Ok(made) && folder_planned(
                made,
                *mutation,
                entry_id,
                *actor,
                active_tag,
                grant_ids@,
            ),
        },
{
    match check_folder_place(mutation, actor, parent, required) {
        Ok(()) => {},
        Err(error) => {
            return Err(error);
        },
    }
    let tag_id = match crate::postgres::metadata::common::resolve_tag_id(
        &mutation.boundary,
        active_tag,
    ) {
        Ok(tag_id) => tag_id,
        Err(error) => {
            return Err(error);
        },
    };
    let mut grants: Vec<GrantInsert> = Vec::new();
    let mut index: usize = 0;
    while index < mutation.invitees.len()
        invariant
            index <= mutation.invitees@.len(),
            members@.len() == mutation.invitees@.len(),
            grant_ids@.len() == mutation.invitees@.len(),
            folder_place_error(*mutation, *actor, deref_entry(parent), required) is None,
            !(mutation.boundary is Tag && active_tag is None),
            tag_id == if mutation.boundary is Tag {
                active_tag
            } else {
                None
            },
            grants@.len() == index,
            forall|k: int| 0 <= k < index ==> #[trigger] members@[k],
            forall|k: int|
                0 <= k < index ==> invited(
                    #[trigger] grants@[k],
                    mutation.invitees@[k],
                    entry_id,
                    grant_ids@[k],
                    *actor,
                ),
        decreases mutation.invitees@.len() - index,
    {
        if !members[index] {
            assert(!all_members(members@));
            return Err(MetadataRepositoryError::Conflict);
        }
        let invitee = &mutation.invitees[index];
        grants.push(
            GrantInsert {
                entry_id,
                grant_id: grant_ids[index],
                principal: invitee.principal.duplicate(),
                access_mask: encode_access(invitee.access),
                inherits_to_descendants: invitee.inherits_to_descendants,
                granted_by: actor.duplicate(),
                lifetime_minutes: None,
            },
        );
        index += 1;
    }
    let payload: Vec<Detail> = vec![
        Detail { key: "parent_id", value: DetailValue::optional_id(mutation.parent_id) },
    ];
    assert(payload@ =~= seq![
        Detail { key: "parent_id", value: DetailValue::of_id(mutation.parent_id) },
    ]);
    Ok(
        FolderPlan {
            folder: FolderInsert {
                entry_id,
                parent_id: mutation.parent_id,
                name: mutation.name.clone(),
                boundary: duplicate_boundary(&mutation.boundary),
                tag_id,
                owner: actor.duplicate(),
                origin_app_id: clone_optional_text(&mutation.origin_application_id),
            },
            grants,
            change: entry_change(entry_id, "entry.folder_created.v1", payload),
        },
    )
}

/// Whether a notification tells a member of access to an entry.
pub open spec fn tells_of_access(
    notification: NewNotification,
    kind: NotificationKind,
    recipient: ActorRef,
    actor: ActorRef,
    entry: EntryView,
    access: GrantedAccess,
) -> bool {
    &&& notification.recipient == recipient
    &&& notification.kind == kind
    &&& notification.actor == Some(actor)
    &&& notification.subject matches Some(subject) && subject.is_of(entry)
    &&& notification.access == Some(access)
    &&& notification.access_request_id is None
    &&& notification.decision is None
}

/// A notification that tells a member of access to an entry.
pub fn access_notification(
    kind: NotificationKind,
    recipient: &ActorRef,
    actor: &ActorRef,
    entry: &EntryView,
    access: GrantedAccess,
) -> (notification: NewNotification)
    ensures
        tells_of_access(notification, kind, *recipient, *actor, *entry, access),
{
    NewNotification {
        recipient: recipient.duplicate(),
        kind,
        actor: Some(actor.duplicate()),
        subject: Some(snapshot(entry)),
        access: Some(access),
        access_request_id: None,
        decision: None,
    }
}

/// What the invited members of a new folder are told.
pub fn folder_notifications(
    mutation: &CreateFolderMutation,
    actor: &ActorRef,
    created: &EntryView,
) -> (notifications: Vec<NewNotification>)
    ensures
        notifications@.len() == mutation.invitees@.len(),
        forall|k: int|
            0 <= k < mutation.invitees@.len() ==> tells_of_access(
                #[trigger] notifications@[k],
                NotificationKind::AccessGranted,
                mutation.invitees@[k].principal,
                *actor,
                *created,
                mutation.invitees@[k].access,
            ),
{
    let mut notifications: Vec<NewNotification> = Vec::new();
    let mut index: usize = 0;
    while index < mutation.invitees.len()
        invariant
            index <= mutation.invitees@.len(),
            notifications@.len() == index,
            forall|k: int|
                0 <= k < index ==> tells_of_access(
                    #[trigger] notifications@[k],
                    NotificationKind::AccessGranted,
                    mutation.invitees@[k].principal,
                    *actor,
                    *created,
                    mutation.invitees@[k].access,
                ),
        decreases mutation.invitees@.len() - index,
    {
        let invitee = &mutation.invitees[index];
        notifications.push(
            access_notification(
                NotificationKind::AccessGranted,
                &invitee.principal,
                actor,
                created,
                invitee.access,
            ),
        );
        index += 1;
    }
    notifications
}

/// What was found of an entry and everything below it.
#[derive(Clone, Copy, Debug, PartialEq, Eq, Structural)]
pub struct SubtreeCheck {
    /// Entries that were locked, the top one among them.
    pub locked: usize,
    /// Whether every one of them may be changed by the caller.
    pub allowed: bool,
}

/// The first reason why an operation may not reach a whole subtree.
pub open spec fn subtree_error(check: SubtreeCheck, capability: Capability) -> Option<
    MetadataRepositoryError,
> {
    if check.locked == 0 {
        Some(MetadataRepositoryError::NotFound)
    } else if capability != Capability::Delete && capability != Capability::UpdateMetadata {
        Some(MetadataRepositoryError::Internal { reason: "unsupported recursive capability" })
    } else if !check.allowed {
        Some(MetadataRepositoryError::Conflict)
    } else {
        None
    }
}

/// Refuses an operation that may not reach a whole subtree.
pub fn require_subtree_capability(check: SubtreeCheck, capability: Capability) -> (result: Result<
    (),
    MetadataRepositoryError,
>)
    ensures
        match subtree_error(check, capability) {
            Some(error) => result == Err::<(), MetadataRepositoryError>(error),
            None => result == Ok::<(), MetadataRepositoryError>(()),
        },
{
    if check.locked == 0 {
        return Err(MetadataRepositoryError::NotFound);
    }
    match capability {
        Capability::Delete | Capability::UpdateMetadata => {},
        _ => {
            return Err(internal("unsupported recursive capability"));
        },
    }
    if check.allowed {
        Ok(())
    } else {
        Err(MetadataRepositoryError::Conflict)
    }
}

/// The application that entries must come from for an operation to reach them:
/// an application deletes only what it created itself.
pub fn recursive_origin(authorization: &RequestAuthContext, capability: Capability) -> (origin:
    Option<&str>)
    ensures
        capability != Capability::Delete ==> origin is None,
        capability == Capability::Delete ==> origin is Some == authorization.application() is Some,
        origin matches Some(id) ==> authorization.application() == Some(id@),
{
    match capability {
        Capability::Delete => authorization.originating_application(),
        _ => None,
    }
}

/// A change to an entry's name or place.
#[derive(Clone, Debug)]
pub struct UpdateEntryCommand {
    /// The entry.
    pub entry_id: u128,
    /// New name.
    pub name: Option<String>,
    /// New parent folder.
    pub parent_id: Option<u128>,
}

/// Everything that changing an entry writes.
#[derive(Clone, Debug)]
pub struct UpdatePlan {
    /// The entry.
    pub entry_id: u128,
    /// New name; none keeps it.
    pub name: Option<String>,
    /// New parent folder; none keeps it.
    pub parent_id: Option<u128>,
    /// Member that changes the entry.
    pub updated_by: ActorRef,
    /// The change.
    pub change: ChangeRecord,
}

/// What changing an entry leads to.
#[derive(Clone, Debug)]
pub enum UpdateOutcome {
    /// It was changed before: answer with the entry as it is.
    Replay,
    /// It is changed now.
    Apply {
        /// What is written.
        plan: UpdatePlan,
    },
}

/// The first reason why an entry may not move into a folder.
pub open spec fn move_error(
    current: AuthorizableEntry,
    parent: Option<AuthorizableEntry>,
) -> Option<MetadataRepositoryError> {
    match parent {
        None => Some(MetadataRepositoryError::NotFound),
        Some(folder) => if folder.entry.kind != EntryKind::Folder
            || !folder.entry.boundary.same_boundary(current.entry.boundary)
            || !folder.access.permits(Capability::CreateChild) {
            Some(MetadataRepositoryError::Conflict)
        } else {
            None
        },
    }
}

/// Checks the folder that an entry is to move into.
pub fn check_move(current: &AuthorizableEntry, parent: Option<&AuthorizableEntry>) -> (result:
    Result<(), MetadataRepositoryError>)
    ensures
        match move_error(*current, deref_entry(parent)) {
            Some(error) => result == Err::<(), MetadataRepositoryError>(error),
            None => result == Ok::<(), MetadataRepositoryError>(()),
        },
{
    let folder = match parent {
        Some(folder) => folder,
        None => {
            return Err(MetadataRepositoryError::NotFound);
        },
    };
    if folder.entry.kind != EntryKind::Folder || !folder.entry.boundary.matches(
        &current.entry.boundary,
    ) {
        return Err(MetadataRepositoryError::Conflict);
    }
    require_capability(folder, Capability::CreateChild)
}

/// Whether a change moves a whole folder, and everything below it has to be
/// looked at.
pub open spec fn moves_folder(command: UpdateEntryCommand, current: AuthorizableEntry) -> bool {
    command.parent_id is Some && current.entry.kind == EntryKind::Folder
}

/// The first reason why an entry is not changed.
pub open spec fn update_error(
    command: UpdateEntryCommand,
    current: Option<AuthorizableEntry>,
    required: Capability,
    parent: Option<AuthorizableEntry>,
    subtree: SubtreeCheck,
) -> Option<MetadataRepositoryError> {
    match change_error(current, required) {
        Some(error) => Some(error),
        None => if command.parent_id is Some && move_error(current->0, parent) is Some {
            move_error(current->0, parent)
        } else if moves_folder(command, current->0) {
            subtree_error(subtree, Capability::UpdateMetadata)
        } else {
            None
        },
    }
}

/// Checks that an entry may be renamed or moved, before the idempotency key is
/// claimed.
pub fn check_update(
    command: &UpdateEntryCommand,
    current: Option<&AuthorizableEntry>,
    required: Capability,
    parent: Option<&AuthorizableEntry>,
    subtree: SubtreeCheck,
) -> (result: Result<(), MetadataRepositoryError>)
    ensures
        match update_error(
            *command,
            deref_entry(current),
            required,
            deref_entry(parent),
            subtree,
        ) {
            Some(error) => result == Err::<(), MetadataRepositoryError>(error),
            None => result == Ok::<(), MetadataRepositoryError>(()),
        },
{
    let entry = match require_changeable(current, required) {
        Ok(entry) => entry,
        Err(error) => {
            return Err(error);
        },
    };
    if command.parent_id.is_some() {
        match check_move(entry, parent) {
            Ok(()) => {},
            Err(error) => {
                return Err(error);
            },
        }
        if entry.entry.kind == EntryKind::Folder {
            return require_subtree_capability(subtree, Capability::UpdateMetadata);
        }
    }
    Ok(())
}

/// Whether a plan makes exactly the change that was asked for.
pub open spec fn update_planned(
    plan: UpdatePlan,
    command: UpdateEntryCommand,
    actor: ActorRef,
) -> bool {
    &&& plan.entry_id == command.entry_id
    &&& plan.name == command.name
    &&& plan.parent_id == command.parent_id
    &&& plan.updated_by == actor
    &&& plan.change.is_entry_change(
        command.entry_id,
        "entry.metadata_updated.v1",
        seq![
            Detail { key: "renamed", value: DetailValue::Bool(command.name is Some) },
            Detail { key: "moved", value: DetailValue::Bool(command.parent_id is Some) },
        ],
    )
}

/// Decides whether an entry is renamed or moved, and everything that writes.
/// `parent` was read for a move, `subtree` for the move of a folder, and the
/// idempotency key was claimed last.
pub fn update_entry(
    command: &UpdateEntryCommand,
    current: Option<&AuthorizableEntry>,
    required: Capability,
    parent: Option<&AuthorizableEntry>,
    subtree: SubtreeCheck,
    claim: IdempotencyClaim,
    actor: &ActorRef,
) -> (outcome: Result<UpdateOutcome, MetadataRepositoryError>)
    ensures
        match update_error(
            *command,
            deref_entry(current),
            required,
            deref_entry(parent),
            subtree,
        ) {
            Some(error) => outcome == Err::<UpdateOutcome, MetadataRepositoryError>(error),
            None => match claim {
                IdempotencyClaim::Replay(_) => outcome == Ok::<
                    UpdateOutcome,
                    MetadataRepositoryError,
                >(UpdateOutcome::Replay),
                IdempotencyClaim::Acquired(_) => outcome matches Ok(UpdateOutcome::Apply { plan })
                    && update_planned(plan, *command, *actor),
            },
        },
{
    match check_update(command, current, required, parent, subtree) {
        Ok(()) => {},
        Err(error) => {
            return Err(error);
        },
    }
    if let IdempotencyClaim::Replay(_) = claim {
        return Ok(UpdateOutcome::Replay);
    }
    let payload: Vec<Detail> = vec![
        Detail { key: "renamed", value: DetailValue::Bool(command.name.is_some()) },
        Detail { key: "moved", value: DetailValue::Bool(command.parent_id.is_some()) },
    ];
    assert(payload@ =~= seq![
        Detail { key: "renamed", value: DetailValue::Bool(command.name is Some) },
        Detail { key: "moved", value: DetailValue::Bool(command.parent_id is Some) },
    ]);
    Ok(
        UpdateOutcome::Apply {
            plan: UpdatePlan {
                entry_id: command.entry_id,
                name: clone_optional_text(&command.name),
                parent_id: command.parent_id,
                updated_by: actor.duplicate(),
                change: entry_change(command.entry_id, "entry.metadata_updated.v1", payload),
            },
        },
    )
}

/// Reserved folders are never renamed, moved or deleted, whatever the policy
/// allows and whoever asks.
pub proof fn law_reserved_entries_never_change(
    command: UpdateEntryCommand,
    current: AuthorizableEntry,
    required: Capability,
    parent: Option<AuthorizableEntry>,
    subtree: SubtreeCheck,
)
    requires
        current.system_kind is Some,
    ensures
        update_error(command, Some(current), required, parent, subtree) == Some(
            MetadataRepositoryError::Conflict,
        ),
        delete_error(Some(current), required, subtree) == Some(MetadataRepositoryError::Conflict),
{
}

/// No move crosses a boundary.
pub proof fn law_moves_keep_the_boundary(
    command: UpdateEntryCommand,
    current: AuthorizableEntry,
    required: Capability,
    parent: AuthorizableEntry,
    subtree: SubtreeCheck,
)
    requires
        command.parent_id is Some,
        update_error(command, Some(current), required, Some(parent), subtree) is None,
    ensures
        parent.entry.boundary.same_boundary(current.entry.boundary),
        parent.entry.kind == EntryKind::Folder,
{
}

/// The first reason why an entry is not deleted.
pub open spec fn delete_error(
    entry: Option<AuthorizableEntry>,
    required: Capability,
    subtree: SubtreeCheck,
) -> Option<MetadataRepositoryError> {
    match change_error(entry, required) {
        Some(error) => Some(error),
        None => subtree_error(subtree, Capability::Delete),
    }
}

/// Checks that an entry and everything below it may be deleted, before the
/// idempotency key is claimed.
pub fn check_soft_delete(
    entry: Option<&AuthorizableEntry>,
    required: Capability,
    subtree: SubtreeCheck,
) -> (result: Result<(), MetadataRepositoryError>)
    ensures
        match delete_error(deref_entry(entry), required, subtree) {
            Some(error) => result == Err::<(), MetadataRepositoryError>(error),
            None => result == Ok::<(), MetadataRepositoryError>(()),
        },
{
    match require_changeable(entry, required) {
        Ok(_) => require_subtree_capability(subtree, Capability::Delete),
        Err(error) => Err(error),
    }
}

/// Everything that deleting an entry writes, to it and everything below it.
#[derive(Clone, Debug)]
pub struct DeletePlan {
    /// The entry at the top.
    pub entry_id: u128,
    /// Identifier of this deletion.
    pub batch_id: u128,
    /// Time of deletion.
    pub deleted_at: i128,
    /// When ordinary entries leave the bin.
    pub purge_after: i128,
    /// When self-destructing files leave the bin: at once.
    pub purge_self_destructing_after: i128,
    /// Member that deletes.
    pub updated_by: ActorRef,
    /// The change.
    pub change: ChangeRecord,
}

/// Whether a plan deletes exactly what was asked for, now.
pub open spec fn delete_planned(
    plan: DeletePlan,
    entry_id: u128,
    actor: ActorRef,
    batch_id: u128,
    now: i128,
) -> bool {
    &&& plan.entry_id == entry_id
    &&& plan.batch_id == batch_id
    &&& plan.deleted_at == now
    &&& plan.purge_after == now + RETENTION_DAYS * NANOS_PER_DAY
    &&& plan.purge_self_destructing_after == now
    &&& plan.updated_by == actor
    &&& plan.change.is_entry_change(
        entry_id,
        "entry.subtree_deleted.v1",
        seq![
            Detail { key: "deletion_batch_id", value: DetailValue::Id(batch_id) },
            Detail { key: "purge_after", value: DetailValue::Timestamp(plan.purge_after) },
        ],
    )
}

/// Decides whether an entry and everything below it goes to the bin; nothing
/// where it went there before.
pub fn soft_delete_entry(
    entry_id: u128,
    entry: Option<&AuthorizableEntry>,
    required: Capability,
    subtree: SubtreeCheck,
    claim: IdempotencyClaim,
    actor: &ActorRef,
    batch_id: u128,
    now: i128,
) -> (outcome: Result<Option<DeletePlan>, MetadataRepositoryError>)
    requires
        representable(now as int),
        representable(now + RETENTION_DAYS * NANOS_PER_DAY),
    ensures
        match delete_error(deref_entry(entry), required, subtree) {
            Some(error) => outcome == Err::<Option<DeletePlan>, MetadataRepositoryError>(error),
            None => match claim {
                IdempotencyClaim::Replay(_) => outcome == Ok::<
                    Option<DeletePlan>,
                    MetadataRepositoryError,
                >(None),
                IdempotencyClaim::Acquired(_) => outcome matches Ok(Some(plan)) && delete_planned(
                    plan,
                    entry_id,
                    *actor,
                    batch_id,
                    now,
                ),
            },
        },
{
    match check_soft_delete(entry, required, subtree) {
        Ok(()) => {},
        Err(error) => {
            return Err(error);
        },
    }
    if let IdempotencyClaim::Replay(_) = claim {
        return Ok(None);
    }
    let purge_after: i128 = retention_deadline(now);
    let payload: Vec<Detail> = vec![
        Detail { key: "deletion_batch_id", value: DetailValue::Id(batch_id) },
        Detail { key: "purge_after", value: DetailValue::Timestamp(purge_after) },
    ];
    assert(payload@ =~= seq![
        Detail { key: "deletion_batch_id", value: DetailValue::Id(batch_id) },
        Detail { key: "purge_after", value: DetailValue::Timestamp(purge_after) },
    ]);
    Ok(
        Some(
            DeletePlan {
                entry_id,
                batch_id,
                deleted_at: now,
                purge_after,
                purge_self_destructing_after: now,
                updated_by: actor.duplicate(),
                change: entry_change(entry_id, "entry.subtree_deleted.v1", payload),
            },
        ),
    )
}

/// When a deleted entry leaves the bin for good.
pub open spec fn purge_time(plan: DeletePlan, self_destructing: bool) -> i128 {
    if self_destructing {
        plan.purge_self_destructing_after
    } else {
        plan.purge_after
    }
}

/// A self-destructing file never waits in the bin: deleting it makes it due at
/// once, while everything else waits its full retention.
pub proof fn law_self_destructing_files_skip_the_bin(
    plan: DeletePlan,
    entry_id: u128,
    actor: ActorRef,
    batch_id: u128,
    now: i128,
)
    requires
        delete_planned(plan, entry_id, actor, batch_id, now),
    ensures
        purge_time(plan, true) <= now,
        purge_time(plan, false) > now,
{
}

/// One entry of a deletion.
#[derive(Clone, Copy, Debug, PartialEq, Eq, Structural)]
pub struct SubtreeRow {
    /// Entry identifier.
    pub entry_id: u128,
    /// Levels below the top.
    pub depth: i32,
    /// Whether its time in the bin is over.
    pub due: bool,
}

/// What restoring an entry starts with.
#[derive(Clone, Copy, Debug, PartialEq, Eq, Structural)]
pub enum RestoreStart {
    /// The entry is not in the bin: only a repeated request is answered.
    AlreadyActive,
    /// The entry is in the bin.
    InBin,
}

/// Decides what restoring an entry starts with.
pub fn start_restore(entry: Option<&AuthorizableEntry>, required: Capability) -> (start: Result<
    RestoreStart,
    MetadataRepositoryError,
>)
    ensures
        start == match entry {
            None => Err::<RestoreStart, MetadataRepositoryError>(MetadataRepositoryError::NotFound),
            Some(found) => if found.entry.deleted_at is None {
                Ok::<RestoreStart, MetadataRepositoryError>(RestoreStart::AlreadyActive)
            } else if !found.access.permits(required) || found.system_kind is Some {
                Err::<RestoreStart, MetadataRepositoryError>(MetadataRepositoryError::Conflict)
            } else {
                Ok::<RestoreStart, MetadataRepositoryError>(RestoreStart::InBin)
            },
        },
{
    let found = match entry {
        Some(found) => found,
        None => {
            return Err(MetadataRepositoryError::NotFound);
        },
    };
    if found.entry.deleted_at.is_none() {
        return Ok(RestoreStart::AlreadyActive);
    }
    match require_changeable(Some(found), required) {
        Ok(_) => Ok(RestoreStart::InBin),
        Err(error) => Err(error),
    }
}

/// Answers a request to restore an entry that is not in the bin: a repeated
/// request gets the entry, anything else conflicts.
pub fn restore_active(claim: IdempotencyClaim) -> (result: Result<(), MetadataRepositoryError>)
    ensures
        result == match claim {
            IdempotencyClaim::Replay(_) => Ok::<(), MetadataRepositoryError>(()),
            IdempotencyClaim::Acquired(_) => Err::<(), MetadataRepositoryError>(
                MetadataRepositoryError::Conflict,
            ),
        },
{
    match claim {
        IdempotencyClaim::Replay(_) => Ok(()),
        IdempotencyClaim::Acquired(_) => Err(MetadataRepositoryError::Conflict),
    }
}

/// Whether a restored entry may go back to its former parent.
pub open spec fn parent_is_usable(
    entry: AuthorizableEntry,
    parent: Option<AuthorizableEntry>,
) -> bool {
    entry.entry.parent_id is Some && (parent matches Some(folder) && folder.entry.kind
        == EntryKind::Folder && folder.entry.boundary.same_boundary(entry.entry.boundary)
        && folder.access.permits(Capability::CreateChild))
}

/// Whether a restored entry may go back to its former parent.
pub fn keeps_parent(entry: &AuthorizableEntry, parent: Option<&AuthorizableEntry>) -> (keeps: bool)
    ensures
        keeps == parent_is_usable(*entry, deref_entry(parent)),
{
    if entry.entry.parent_id.is_none() {
        return false;
    }
    match parent {
        Some(folder) => folder.entry.kind == EntryKind::Folder && folder.entry.boundary.matches(
            &entry.entry.boundary,
        ) && folder.access.allows(Capability::CreateChild),
        None => false,
    }
}

/// Where a restored entry goes: back to its former parent, to the top if it was
/// there, or to the reserved folder of its boundary.
pub open spec fn restore_parent_of(
    entry: AuthorizableEntry,
    parent: Option<AuthorizableEntry>,
    fallback: Option<StoredId>,
    fallback_entry: Option<AuthorizableEntry>,
) -> Result<Option<u128>, MetadataRepositoryError> {
    if parent_is_usable(entry, parent) {
        Ok(entry.entry.parent_id)
    } else if entry.entry.parent_id is None {
        Ok(None)
    } else {
        match fallback {
            None => Err(MetadataRepositoryError::Conflict),
            Some(id) => if !id.accepted {
                Err(MetadataRepositoryError::Internal { reason: "invalid persisted data" })
            } else {
                match fallback_entry {
                    None => Err(
                        MetadataRepositoryError::Internal { reason: "restore fallback disappeared" },
                    ),
                    Some(folder) => if folder.access.permits(Capability::CreateChild) {
                        Ok(Some(id.value))
                    } else {
                        Err(MetadataRepositoryError::Conflict)
                    },
                }
            },
        }
    }
}

/// Where a restored entry goes.
pub fn resolve_restore_parent(
    entry: &AuthorizableEntry,
    parent: Option<&AuthorizableEntry>,
    fallback: Option<StoredId>,
    fallback_entry: Option<&AuthorizableEntry>,
) -> (destination: Result<Option<u128>, MetadataRepositoryError>)
    ensures
        destination == restore_parent_of(
            *entry,
            deref_entry(parent),
            fallback,
            deref_entry(fallback_entry),
        ),
{
    if keeps_parent(entry, parent) {
        return Ok(entry.entry.parent_id);
    }
    if entry.entry.parent_id.is_none() {
        return Ok(None);
    }
    let id = match fallback {
        Some(id) => id,
        None => {
            return Err(MetadataRepositoryError::Conflict);
        },
    };
    if !id.accepted {
        return Err(internal_data());
    }
    match fallback_entry {
        Some(folder) => match require_capability(folder, Capability::CreateChild) {
            Ok(()) => Ok(Some(id.value)),
            Err(error) => Err(error),
        },
        None => Err(internal("restore fallback disappeared")),
    }
}

/// What is appended to the name of a restored entry whose name is taken.
pub open spec fn restored_suffix(entry_id: u128) -> Seq<char> {
    seq![' ', '(', 'r', 'e', 's', 't', 'o', 'r', 'e', 'd', ' '] + hyphenated_chars(
        entry_id,
    ).subrange(0, 8) + seq![')']
}

/// The name of a restored entry: its own, or where that is taken, as much of it
/// as leaves room for a suffix.
pub open spec fn restored_name_of(
    original: Seq<char>,
    occupied: bool,
    entry_id: u128,
) -> Seq<char> {
    if !occupied {
        original
    } else {
        longest_prefix(
            original,
            (MAX_ENTRY_NAME_BYTES - byte_len(restored_suffix(entry_id))) as nat,
        ) + restored_suffix(entry_id)
    }
}

/// The suffix of a restored name takes twenty bytes.
proof fn lemma_restored_suffix(entry_id: u128)
    ensures
        byte_len(restored_suffix(entry_id)) == 20,
{
    let digits = crate::ids::simple_chars(entry_id);
    let suffix = restored_suffix(entry_id);
    assert forall|k: int| 0 <= k < suffix.len() implies (#[trigger] suffix[k] as u32) < 0x80 by {
        if 11 <= k < 19 {
            assert(suffix[k] == hyphenated_chars(entry_id)[k - 11]);
            assert(hyphenated_chars(entry_id)[k - 11] == digits[k - 11]);
            let digit = (entry_id as int / vstd::arithmetic::power::pow(
                16,
                (31 - (k - 11)) as nat,
            )) % 16;
            assert(0 <= digit < 16);
        }
    }
    lemma_ascii_byte_len(suffix);
}

/// The name of a restored entry.
pub fn available_restore_name(original: &str, occupied: bool, entry_id: u128) -> (name: String)
    ensures
        name@ == restored_name_of(original@, occupied, entry_id),
{
    if !occupied {
        return original.to_owned();
    }
    let identifier = hyphenated(entry_id);
    let digits = characters(identifier.as_str());
    let short = from_characters(&digits, 0, 8);
    let mut suffix = String::new();
    suffix.push(' ');
    suffix.push('(');
    suffix.push('r');
    suffix.push('e');
    suffix.push('s');
    suffix.push('t');
    suffix.push('o');
    suffix.push('r');
    suffix.push('e');
    suffix.push('d');
    suffix.push(' ');
    suffix.append(short.as_str());
    suffix.push(')');
    proof {
        assert(suffix@ =~= restored_suffix(entry_id));
        lemma_restored_suffix(entry_id);
    }
    let room: usize = MAX_ENTRY_NAME_BYTES - suffix.as_str().as_bytes().len();
    let text = characters(original);
    let length = fitting_prefix(&text, room);
    let mut name = from_characters(&text, 0, length);
    assert(text@.subrange(0, length as int) =~= text@.take(length as int));
    name.append(suffix.as_str());
    name
}

/// The name of a restored entry is never longer than an entry name may be.
pub proof fn law_restored_names_are_bounded(original: Seq<char>, occupied: bool, entry_id: u128)
    requires
        byte_len(original) <= MAX_ENTRY_NAME_BYTES,
    ensures
        byte_len(restored_name_of(original, occupied, entry_id)) <= MAX_ENTRY_NAME_BYTES,
{
    lemma_restored_suffix(entry_id);
    let suffix = restored_suffix(entry_id);
    let room = (MAX_ENTRY_NAME_BYTES - byte_len(suffix)) as nat;
    lemma_longest_prefix(original, room);
    lemma_encoding_of_concatenation(longest_prefix(original, room), suffix);
}

/// One entry to bring back.
#[derive(Clone, Debug)]
pub struct RestoredRow {
    /// Entry identifier.
    pub entry_id: u128,
    /// New place and name, for the entry at the top.
    pub placed: Option<RestoredPlace>,
}

/// Where and under which name the top of a restored subtree goes.
#[derive(Clone, Debug)]
pub struct RestoredPlace {
    /// Parent folder.
    pub parent_id: Option<u128>,
    /// Name.
    pub name: String,
}

/// Everything that restoring an entry writes, to it and everything below it
/// that the same deletion removed.
#[derive(Clone, Debug)]
pub struct RestorePlan {
    /// Identifier of the deletion.
    pub batch_id: u128,
    /// Entries to bring back.
    pub rows: Vec<RestoredRow>,
    /// Member that restores.
    pub updated_by: ActorRef,
    /// The change.
    pub change: ChangeRecord,
}

/// The entries of a deletion that come back: those still in their time.
pub open spec fn restorable(rows: Seq<SubtreeRow>) -> Seq<SubtreeRow>
    decreases rows.len(),
{
    if rows.len() == 0 {
        Seq::empty()
    } else if rows.last().due {
        restorable(rows.drop_last())
    } else {
        restorable(rows.drop_last()).push(rows.last())
    }
}

/// Whether a row is brought back as it has to be.
pub open spec fn row_restored(
    made: RestoredRow,
    row: SubtreeRow,
    destination: Option<u128>,
    name: Seq<char>,
) -> bool {
    made.entry_id == row.entry_id && if row.depth == 0 {
        made.placed matches Some(place) && place.parent_id == destination && place.name@ == name
    } else {
        made.placed is None
    }
}

/// The first reason why an entry in the bin is not restored, before its
/// destination is looked for.
pub open spec fn restore_error(
    batch_id: Option<u128>,
    subtree: SubtreeCheck,
    claim: IdempotencyClaim,
    rows: Seq<SubtreeRow>,
) -> Option<MetadataRepositoryError> {
    if batch_id is None {
        Some(MetadataRepositoryError::NotFound)
    } else if subtree_error(subtree, Capability::UpdateMetadata) is Some {
        subtree_error(subtree, Capability::UpdateMetadata)
    } else if claim is Replay || rows.len() == 0 || rows[0].depth != 0 {
        Some(MetadataRepositoryError::Conflict)
    } else {
        None
    }
}

/// Checks that an entry in the bin may be restored, before its destination is
/// looked for: its deletion has to be live, everything below it has to be
/// changeable, and it has to be at the top of its deletion.
pub fn check_restore(
    batch_id: Option<u128>,
    subtree: SubtreeCheck,
    claim: IdempotencyClaim,
    rows: &Vec<SubtreeRow>,
) -> (result: Result<u128, MetadataRepositoryError>)
    ensures
        match restore_error(batch_id, subtree, claim, rows@) {
            Some(error) => result == Err::<u128, MetadataRepositoryError>(error),
            None => batch_id is Some && result == Ok::<u128, MetadataRepositoryError>(batch_id->0),
        },
{
    let batch: u128 = match batch_id {
        Some(batch) => batch,
        None => {
            return Err(MetadataRepositoryError::NotFound);
        },
    };
    match require_subtree_capability(subtree, Capability::UpdateMetadata) {
        Ok(()) => {},
        Err(error) => {
            return Err(error);
        },
    }
    if let IdempotencyClaim::Replay(_) = claim {
        return Err(MetadataRepositoryError::Conflict);
    }
    if rows.len() == 0 || rows[0].depth != 0 {
        return Err(MetadataRepositoryError::Conflict);
    }
    Ok(batch)
}

/// Whether a plan restores exactly what its deletion removed and is still in
/// its time.
pub open spec fn restore_planned(
    plan: RestorePlan,
    entry_id: u128,
    batch_id: u128,
    rows: Seq<SubtreeRow>,
    destination: Option<u128>,
    name: Seq<char>,
    actor: ActorRef,
) -> bool {
    &&& plan.batch_id == batch_id
    &&& plan.rows@.len() == restorable(rows).len()
    &&& forall|k: int|
        0 <= k < plan.rows@.len() ==> row_restored(
            #[trigger] plan.rows@[k],
            restorable(rows)[k],
            destination,
            name,
        )
    &&& plan.updated_by == actor
    &&& plan.change.is_entry_change(
        entry_id,
        "entry.subtree_restored.v1",
        seq![
            Detail { key: "deletion_batch_id", value: DetailValue::Id(batch_id) },
            Detail { key: "parent_id", value: DetailValue::of_id(destination) },
        ],
    )
}

/// Everything that restoring an entry writes. `occupied` says whether its name
/// is taken at its destination.
pub fn restore_bin_entry(
    entry_id: u128,
    name: &str,
    batch_id: Option<u128>,
    subtree: SubtreeCheck,
    claim: IdempotencyClaim,
    rows: &Vec<SubtreeRow>,
    destination: Option<u128>,
    occupied: bool,
    actor: &ActorRef,
) -> (plan: Result<RestorePlan, MetadataRepositoryError>)
    ensures
        match restore_error(batch_id, subtree, claim, rows@) {
            Some(error) => plan == Err::<RestorePlan, MetadataRepositoryError>(error),
            None => plan matches Ok(made) && restore_planned(
                made,
                entry_id,
                batch_id->0,
                rows@,
                destination,
                restored_name_of(name@, occupied, entry_id),
                *actor,
            ),
        },
{
    let batch: u128 = match check_restore(batch_id, subtree, claim, rows) {
        Ok(batch) => batch,
        Err(error) => {
            return Err(error);
        },
    };
    let restored_name = available_restore_name(name, occupied, entry_id);
    let mut restored: Vec<RestoredRow> = Vec::new();
    let mut index: usize = 0;
    assert(rows@.take(0) =~= Seq::<SubtreeRow>::empty());
    while index < rows.len()
        invariant
            index <= rows@.len(),
            restored_name@ == restored_name_of(name@, occupied, entry_id),
            restored@.len() == restorable(rows@.take(index as int)).len(),
            forall|k: int|
                0 <= k < restored@.len() ==> row_restored(
                    #[trigger] restored@[k],
                    restorable(rows@.take(index as int))[k],
                    destination,
                    restored_name@,
                ),
        decreases rows@.len() - index,
    {
        let row = rows[index];
        assert(rows@.take(index + 1).drop_last() =~= rows@.take(index as int));
        assert(rows@.take(index + 1).last() == row);
        if !row.due {
            let placed = if row.depth == 0 {
                Some(RestoredPlace { parent_id: destination, name: restored_name.clone() })
            } else {
                None
            };
            restored.push(RestoredRow { entry_id: row.entry_id, placed });
        }
        index += 1;
    }
    assert(rows@.take(rows@.len() as int) =~= rows@);
    let payload: Vec<Detail> = vec![
        Detail { key: "deletion_batch_id", value: DetailValue::Id(batch) },
        Detail { key: "parent_id", value: DetailValue::optional_id(destination) },
    ];
    assert(payload@ =~= seq![
        Detail { key: "deletion_batch_id", value: DetailValue::Id(batch) },
        Detail { key: "parent_id", value: DetailValue::of_id(destination) },
    ]);
    Ok(
        RestorePlan {
            batch_id: batch,
            rows: restored,
            updated_by: actor.duplicate(),
            change: entry_change(entry_id, "entry.subtree_restored.v1", payload),
        },
    )
}

/// Restoring a folder never brings back an entry whose time in the bin is over.
pub proof fn law_due_entries_stay_gone(rows: Seq<SubtreeRow>, position: int)
    requires
        0 <= position < restorable(rows).len(),
    ensures
        !restorable(rows)[position].due,
        rows.contains(restorable(rows)[position]),
    decreases rows.len(),
{
    if rows.last().due {
        law_due_entries_stay_gone(rows.drop_last(), position);
        let found = restorable(rows)[position];
        let k = choose|k: int| 0 <= k < rows.drop_last().len() && rows.drop_last()[k] == found;
        assert(rows[k] == found);
    } else if position == restorable(rows).len() - 1 {
        assert(rows[rows.len() - 1] == restorable(rows)[position]);
    } else {
        law_due_entries_stay_gone(rows.drop_last(), position);
        let found = restorable(rows)[position];
        let k = choose|k: int| 0 <= k < rows.drop_last().len() && rows.drop_last()[k] == found;
        assert(rows[k] == found);
    }
}

} // verus!
