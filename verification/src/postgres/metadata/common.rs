//! Decisions that every metadata operation shares.

use vstd::prelude::*;

use crate::clock::{representable, NANOS_PER_DAY};
use crate::error::{internal, invalid_data, MetadataRepositoryError};
use crate::ids::{hyphenated, hyphenated_chars, Candidate};
use crate::model::{
    ActorKind, ActorRef, AuthorizableEntry, Capability, EntryAccess, EntryBoundary, EntryKind, EntryView,
    GrantedAccess, IdempotencyClaim, MutationMetadata, OrganizationRole, RequestAuthContext,
    SystemEntryKind,
};
use crate::order::{insert_text, lists, strictly_sorted};
use crate::postgres::kind_chars;
use crate::postgres::models::{EntryRow, IdempotencyState, PermissionGrantRow, ProjectedCaller};
use crate::text::{clone_optional_text, contains_text, same_bytes, same_text};

verus! {

/// A row that has to exist.
pub fn row_or_conflict<T>(row: Option<T>) -> (found: Result<T, MetadataRepositoryError>)
    ensures
        found == match row {
            Some(value) => Ok::<T, MetadataRepositoryError>(value),
            None => Err::<T, MetadataRepositoryError>(MetadataRepositoryError::Conflict),
        },
{
    match row {
        Some(value) => Ok(value),
        None => Err(MetadataRepositoryError::Conflict),
    }
}

/// A row that the caller has to be able to find.
pub fn row_or_not_found<T>(row: Option<T>) -> (found: Result<T, MetadataRepositoryError>)
    ensures
        found == match row {
            Some(value) => Ok::<T, MetadataRepositoryError>(value),
            None => Err::<T, MetadataRepositoryError>(MetadataRepositoryError::NotFound),
        },
{
    match row {
        Some(value) => Ok(value),
        None => Err(MetadataRepositoryError::NotFound),
    }
}

/// A row that was written a moment ago and has to be there.
pub fn row_or_internal<T>(row: Option<T>, message: &'static str) -> (found: Result<
    T,
    MetadataRepositoryError,
>)
    ensures
        found == match row {
            Some(value) => Ok::<T, MetadataRepositoryError>(value),
            None => Err::<T, MetadataRepositoryError>(
                MetadataRepositoryError::Internal { reason: message },
            ),
        },
{
    match row {
        Some(value) => Ok(value),
        None => Err(internal(message)),
    }
}

/// The identifier of a tag that a boundary names; a tag that is not active
/// conflicts.
pub fn resolve_tag_id(boundary: &EntryBoundary, active: Option<String>) -> (id: Result<
    Option<String>,
    MetadataRepositoryError,
>)
    ensures
        id == match boundary {
            EntryBoundary::Tag { .. } => match active {
                Some(tag) => Ok::<Option<String>, MetadataRepositoryError>(Some(tag)),
                None => Err::<Option<String>, MetadataRepositoryError>(
                    MetadataRepositoryError::Conflict,
                ),
            },
            _ => Ok::<Option<String>, MetadataRepositoryError>(None),
        },
{
    match boundary {
        EntryBoundary::Tag { .. } => match active {
            Some(tag) => Ok(Some(tag)),
            None => Err(MetadataRepositoryError::Conflict),
        },
        _ => Ok(None),
    }
}

/// Refuses what the access policy does not allow.
pub fn require_capability(
    entry: &AuthorizableEntry,
    capability: Capability,
) -> (result: Result<(), MetadataRepositoryError>)
    ensures
        result == if entry.access.permits(capability) {
            Ok::<(), MetadataRepositoryError>(())
        } else {
            Err::<(), MetadataRepositoryError>(MetadataRepositoryError::Conflict)
        },
{
    if entry.access.allows(capability) {
        Ok(())
    } else {
        Err(MetadataRepositoryError::Conflict)
    }
}

/// The first reason why an entry may not be changed: it is not there, the
/// policy does not allow it, or the system keeps it.
pub open spec fn change_error(
    entry: Option<AuthorizableEntry>,
    capability: Capability,
) -> Option<MetadataRepositoryError> {
    match entry {
        None => Some(MetadataRepositoryError::NotFound),
        Some(found) => if !found.access.permits(capability) || found.system_kind is Some {
            Some(MetadataRepositoryError::Conflict)
        } else {
            None
        },
    }
}

/// Refuses an entry that is not there, that the policy does not allow to
/// change, or that the system keeps.
pub fn require_changeable<'a>(
    entry: Option<&'a AuthorizableEntry>,
    capability: Capability,
) -> (found: Result<&'a AuthorizableEntry, MetadataRepositoryError>)
    ensures
        match change_error(
            match entry {
                Some(present) => Some(*present),
                None => None,
            },
            capability,
        ) {
            Some(error) => found == Err::<&AuthorizableEntry, MetadataRepositoryError>(error),
            None => entry is Some && found == Ok::<&AuthorizableEntry, MetadataRepositoryError>(
                entry->0,
            ),
        },
{
    let present = match entry {
        Some(present) => present,
        None => {
            return Err(MetadataRepositoryError::NotFound);
        },
    };
    if !present.access.allows(capability) || present.system_kind.is_some() {
        return Err(MetadataRepositoryError::Conflict);
    }
    Ok(present)
}

/// The database name of a role.
pub open spec fn role_chars(role: OrganizationRole) -> Seq<char> {
    match role {
        OrganizationRole::Member => "member"@,
        OrganizationRole::Admin => "admin"@,
        OrganizationRole::Owner => "owner"@,
    }
}

/// The database name of a role.
pub fn organization_role(role: OrganizationRole) -> (name: &'static str)
    ensures
        name@ == role_chars(role),
{
    match role {
        OrganizationRole::Member => "member",
        OrganizationRole::Admin => "admin",
        OrganizationRole::Owner => "owner",
    }
}

/// The database name of a kind of member.
pub fn actor_kind(kind: ActorKind) -> (name: &'static str)
    ensures
        name@ == kind_chars(kind),
{
    match kind {
        ActorKind::Carbon => "carbon",
        ActorKind::Silicon => "silicon",
    }
}

/// Whether two lists hold the same texts.
pub open spec fn same_set(left: Seq<String>, right: Seq<String>) -> bool {
    forall|text: Seq<char>| #[trigger] lists(left, text) == lists(right, text)
}

/// Whether every text of a list is among another list's texts.
fn all_listed(left: &Vec<String>, right: &Vec<String>) -> (answer: bool)
    ensures
        answer == forall|text: Seq<char>| #[trigger] lists(left@, text) ==> lists(right@, text),
{
    let mut index: usize = 0;
    while index < left.len()
        invariant
            index <= left@.len(),
            forall|k: int| 0 <= k < index ==> lists(right@, (#[trigger] left@[k])@),
        decreases left@.len() - index,
    {
        if !contains_text(right, left[index].as_str()) {
            assert(lists(left@, left@[index as int]@));
            assert(!lists(right@, left@[index as int]@));
            return false;
        }
        index += 1;
    }
    true
}

/// Whether the projected member is what the identity service says of the
/// caller now: active, in the same role, with the same set of tags.
pub fn caller_projection_matches(
    projected: &ProjectedCaller,
    current_role: OrganizationRole,
    current_tags: &Vec<String>,
) -> (current: bool)
    ensures
        current == (projected.membership_status@ == "active"@ && projected.org_role@ == role_chars(
            current_role,
        ) && same_set(projected.tag_names@, current_tags@)),
{
    if !same_text(projected.membership_status.as_str(), "active") || !same_text(
        projected.org_role.as_str(),
        organization_role(current_role),
    ) {
        return false;
    }
    let forth = all_listed(&projected.tag_names, current_tags);
    let back = all_listed(current_tags, &projected.tag_names);
    proof {
        if forth && back {
            assert forall|text: Seq<char>| #[trigger]
                lists(projected.tag_names@, text) == lists(current_tags@, text) by {
                if lists(current_tags@, text) {
                    assert(lists(projected.tag_names@, text));
                }
            }
        }
    }
    forth && back
}

/// Whether a request has to take the organization's reconciliation lock before
/// it goes on. The reserved folders are looked at only for a current caller.
pub fn needs_reconciliation(caller_is_current: bool, roots_are_consistent: bool) -> (answer: bool)
    ensures
        answer == !(caller_is_current && roots_are_consistent),
{
    !(caller_is_current && roots_are_consistent)
}

/// What is left to reconcile once the lock is held and both facts were read
/// again.
#[derive(Clone, Copy, Debug, PartialEq, Eq, Structural)]
pub struct ReconciliationPlan {
    /// Refresh the caller's projection.
    pub refresh_caller: bool,
    /// Reconcile the reserved folders.
    pub reconcile_roots: bool,
}

/// Decides what is left to reconcile under the lock.
pub fn reconciliation_plan(caller_is_current: bool, roots_are_consistent: bool) -> (plan:
    ReconciliationPlan)
    ensures
        plan.refresh_caller == !caller_is_current,
        plan.reconcile_roots == !(caller_is_current && roots_are_consistent),
{
    ReconciliationPlan {
        refresh_caller: !caller_is_current,
        reconcile_roots: !caller_is_current || !roots_are_consistent,
    }
}

/// The tags that a caller holds now.
pub fn current_tags(authorization: &RequestAuthContext) -> (tags: Vec<String>)
    ensures
        tags@ == match authorization.tags {
            Some(disclosed) => disclosed@,
            None => Seq::empty(),
        },
{
    let mut tags: Vec<String> = Vec::new();
    match &authorization.tags {
        Some(disclosed) => {
            let mut index: usize = 0;
            while index < disclosed.len()
                invariant
                    index <= disclosed@.len(),
                    tags@ == disclosed@.take(index as int),
                decreases disclosed@.len() - index,
            {
                tags.push(disclosed[index].clone());
                index += 1;
                assert(tags@ =~= disclosed@.take(index as int));
            }
            assert(disclosed@.take(disclosed@.len() as int) =~= disclosed@);
        },
        None => {},
    }
    tags
}

/// The tag identifiers to record for a refreshed caller: each once, in order.
pub fn member_tag_ids(resolved: &Vec<String>) -> (ids: Vec<String>)
    ensures
        strictly_sorted(ids@),
        same_set(ids@, resolved@),
{
    let mut ids: Vec<String> = Vec::new();
    let mut index: usize = 0;
    assert(resolved@.take(0) =~= Seq::<String>::empty());
    while index < resolved.len()
        invariant
            index <= resolved@.len(),
            strictly_sorted(ids@),
            same_set(ids@, resolved@.take(index as int)),
        decreases resolved@.len() - index,
    {
        let ghost before = ids@;
        let ghost earlier = resolved@.take(index as int);
        insert_text(&mut ids, resolved[index].clone());
        index += 1;
        proof {
            let now = resolved@.take(index as int);
            assert forall|text: Seq<char>| #[trigger] lists(ids@, text) == lists(now, text) by {
                if lists(before, text) {
                    assert(lists(earlier, text));
                    let k = choose|k: int| 0 <= k < earlier.len() && (#[trigger] earlier[k])@ == text;
                    assert(now[k]@ == text);
                }
                if text == resolved@[index - 1]@ {
                    assert(now[index - 1]@ == text);
                }
                if lists(now, text) {
                    let k = choose|k: int| 0 <= k < now.len() && (#[trigger] now[k])@ == text;
                    if k < index - 1 {
                        assert(earlier[k]@ == text);
                        assert(lists(earlier, text));
                    }
                }
            }
        }
    }
    assert(resolved@.take(resolved@.len() as int) =~= resolved@);
    ids
}

/// The member that a stored kind and identifier name.
pub open spec fn actor_ref_of(kind: Seq<char>, id: Candidate) -> Result<
    ActorRef,
    MetadataRepositoryError,
> {
    if kind != "carbon"@ && kind != "silicon"@ {
        Err(MetadataRepositoryError::Internal { reason: "invalid persisted actor kind" })
    } else if !id.accepted {
        Err(MetadataRepositoryError::Internal { reason: "invalid persisted data" })
    } else {
        Ok(
            ActorRef {
                kind: if kind == "carbon"@ {
                    ActorKind::Carbon
                } else {
                    ActorKind::Silicon
                },
                id: id.text,
            },
        )
    }
}

/// The member that a stored kind and identifier name.
pub fn actor_ref(kind: &str, id: &Candidate) -> (actor: Result<ActorRef, MetadataRepositoryError>)
    ensures
        actor == actor_ref_of(kind@, *id),
{
    let kind = if same_text(kind, "carbon") {
        ActorKind::Carbon
    } else if same_text(kind, "silicon") {
        ActorKind::Silicon
    } else {
        return Err(internal("invalid persisted actor kind"));
    };
    if !id.accepted {
        return Err(invalid_data());
    }
    Ok(ActorRef { kind, id: id.text.clone() })
}

/// The bit mask of a set of rights.
pub open spec fn mask_of(access: GrantedAccess) -> i16 {
    ((if access.read {
        1int
    } else {
        0
    }) + (if access.write {
        2int
    } else {
        0
    }) + (if access.update {
        4int
    } else {
        0
    }) + (if access.delete {
        8int
    } else {
        0
    })) as i16
}

/// The bit mask of a set of rights.
pub fn encode_access(access: GrantedAccess) -> (mask: i16)
    ensures
        mask == mask_of(access),
        0 <= mask < 16,
{
    let read: i16 = if access.read { 1 } else { 0 };
    let write: i16 = if access.write { 2 } else { 0 };
    let update: i16 = if access.update { 4 } else { 0 };
    let delete: i16 = if access.delete { 8 } else { 0 };
    read + write + update + delete
}

/// The set of rights that a bit mask stands for, where it has no unknown bit.
pub open spec fn access_of(value: i16) -> Result<GrantedAccess, MetadataRepositoryError> {
    if 0 <= value < 16 {
        Ok(
            GrantedAccess {
                read: value as int % 2 == 1,
                write: (value as int / 2) % 2 == 1,
                update: (value as int / 4) % 2 == 1,
                delete: (value as int / 8) % 2 == 1,
            },
        )
    } else {
        Err(MetadataRepositoryError::Internal { reason: "invalid persisted access mask" })
    }
}

/// The set of rights that a bit mask stands for, where it has no unknown bit.
pub fn decode_access(value: i16) -> (access: Result<GrantedAccess, MetadataRepositoryError>)
    ensures
        access == access_of(value),
{
    if value < 0 || value >= 16 {
        return Err(internal("invalid persisted access mask"));
    }
    let bits: u16 = value as u16;
    Ok(
        GrantedAccess {
            read: bits % 2 == 1,
            write: (bits / 2) % 2 == 1,
            update: (bits / 4) % 2 == 1,
            delete: (bits / 8) % 2 == 1,
        },
    )
}

/// A set of rights survives being stored and read back.
pub proof fn law_access_round_trip(access: GrantedAccess)
    ensures
        access_of(mask_of(access)) == Ok::<GrantedAccess, MetadataRepositoryError>(access),
{
}

/// Two sets of rights with one mask are the same set.
pub proof fn law_access_masks_are_injective(left: GrantedAccess, right: GrantedAccess)
    requires
        mask_of(left) == mask_of(right),
    ensures
        left == right,
{
    law_access_round_trip(left);
    law_access_round_trip(right);
}

/// The kind of entry that a stored name stands for.
pub open spec fn entry_kind_of(value: Seq<char>) -> Option<EntryKind> {
    if value == "file"@ {
        Some(EntryKind::File)
    } else if value == "folder"@ {
        Some(EntryKind::Folder)
    } else {
        None
    }
}

/// The kind of entry that a stored name stands for.
pub fn entry_kind(value: &str) -> (kind: Result<EntryKind, MetadataRepositoryError>)
    ensures
        kind == match entry_kind_of(value@) {
            Some(known) => Ok::<EntryKind, MetadataRepositoryError>(known),
            None => Err::<EntryKind, MetadataRepositoryError>(
                MetadataRepositoryError::Internal { reason: "invalid persisted entry kind" },
            ),
        },
{
    if same_text(value, "file") {
        Ok(EntryKind::File)
    } else if same_text(value, "folder") {
        Ok(EntryKind::Folder)
    } else {
        Err(internal("invalid persisted entry kind"))
    }
}

/// The reserved classification that a stored name stands for.
pub open spec fn system_kind_of(value: Seq<char>) -> Option<SystemEntryKind> {
    if value == "public_root"@ {
        Some(SystemEntryKind::PublicContainer)
    } else if value == "private_root"@ {
        Some(SystemEntryKind::PrivateContainer)
    } else if value == "tag_root"@ {
        Some(SystemEntryKind::TagRoot)
    } else if value == "actor_root"@ || value == "app_container"@ {
        Some(SystemEntryKind::PrivateActorFolder)
    } else {
        None
    }
}

/// The reserved classification that a stored name stands for; an ordinary
/// entry has none.
pub fn system_kind(value: &Option<String>) -> (kind: Result<
    Option<SystemEntryKind>,
    MetadataRepositoryError,
>)
    ensures
        kind == match *value {
            None => Ok::<Option<SystemEntryKind>, MetadataRepositoryError>(None),
            Some(name) => match system_kind_of(name@) {
                Some(known) => Ok::<Option<SystemEntryKind>, MetadataRepositoryError>(Some(known)),
                None => Err::<Option<SystemEntryKind>, MetadataRepositoryError>(
                    MetadataRepositoryError::Internal {
                        reason: "invalid persisted system entry kind",
                    },
                ),
            },
        },
{
    match value {
        None => Ok(None),
        Some(name) => {
            let name = name.as_str();
            if same_text(name, "public_root") {
                Ok(Some(SystemEntryKind::PublicContainer))
            } else if same_text(name, "private_root") {
                Ok(Some(SystemEntryKind::PrivateContainer))
            } else if same_text(name, "tag_root") {
                Ok(Some(SystemEntryKind::TagRoot))
            } else if same_text(name, "actor_root") || same_text(name, "app_container") {
                Ok(Some(SystemEntryKind::PrivateActorFolder))
            } else {
                Err(internal("invalid persisted system entry kind"))
            }
        },
    }
}

/// The boundary name and tag that a boundary is stored under.
pub fn boundary_columns(boundary: &EntryBoundary) -> (columns: (&'static str, Option<&str>))
    ensures
        match *boundary {
            EntryBoundary::Public => columns.0@ == "public"@ && columns.1 is None,
            EntryBoundary::Private => columns.0@ == "private"@ && columns.1 is None,
            EntryBoundary::Tag { tag } => columns.0@ == "tag"@ && columns.1 is Some
                && columns.1->0@ == tag@,
        },
{
    match boundary {
        EntryBoundary::Public => ("public", None),
        EntryBoundary::Private => ("private", None),
        EntryBoundary::Tag { tag } => ("tag", Some(tag.as_str())),
    }
}

/// A stored value that its type does not accept.
pub open spec fn bad_data() -> MetadataRepositoryError {
    MetadataRepositoryError::Internal { reason: "invalid persisted data" }
}

/// The boundary that a stored root type and tag name stand for.
pub open spec fn boundary_of(root_type: Seq<char>, tag: Option<Candidate>) -> Result<
    EntryBoundary,
    MetadataRepositoryError,
> {
    if root_type == "public"@ {
        Ok(EntryBoundary::Public)
    } else if root_type == "private"@ {
        Ok(EntryBoundary::Private)
    } else if root_type == "tag"@ {
        match tag {
            None => Err(
                MetadataRepositoryError::Internal { reason: "missing entry tag projection" },
            ),
            Some(name) => if name.accepted {
                Ok(EntryBoundary::Tag { tag: name.text })
            } else {
                Err(bad_data())
            },
        }
    } else {
        Err(MetadataRepositoryError::Internal { reason: "invalid entry root type" })
    }
}

/// The boundary that a stored root type and tag name stand for.
fn boundary(root_type: &str, tag: &Option<Candidate>) -> (boundary: Result<
    EntryBoundary,
    MetadataRepositoryError,
>)
    ensures
        boundary == boundary_of(root_type@, *tag),
{
    if same_text(root_type, "public") {
        Ok(EntryBoundary::Public)
    } else if same_text(root_type, "private") {
        Ok(EntryBoundary::Private)
    } else if same_text(root_type, "tag") {
        match tag {
            None => Err(internal("missing entry tag projection")),
            Some(name) => {
                if name.accepted {
                    Ok(EntryBoundary::Tag { tag: name.text.clone() })
                } else {
                    Err(invalid_data())
                }
            },
        }
    } else {
        Err(internal("invalid entry root type"))
    }
}

/// The first reason why a stored entry is no entry.
pub open spec fn entry_error(row: EntryRow, tag: Option<Candidate>) -> Option<
    MetadataRepositoryError,
> {
    if !row.org_id.accepted {
        Some(bad_data())
    } else if boundary_of(row.root_type@, tag) is Err {
        Some(boundary_of(row.root_type@, tag)->Err_0)
    } else if !row.entry_id.accepted {
        Some(bad_data())
    } else if entry_kind_of(row.entry_type@) is None {
        Some(MetadataRepositoryError::Internal { reason: "invalid persisted entry kind" })
    } else if !row.name.accepted || !row.path.accepted || (row.parent_id matches Some(parent)
        && !parent.accepted) {
        Some(bad_data())
    } else if actor_ref_of(row.owner_type@, row.owner_id) is Err {
        Some(actor_ref_of(row.owner_type@, row.owner_id)->Err_0)
    } else if (row.origin_app_id matches Some(application) && !application.accepted) || (
    row.size_bytes matches Some(size) && size < 0) || (row.current_version_id matches Some(version)
        && !version.accepted) {
        Some(bad_data())
    } else {
        None
    }
}

/// Whether an entry is what a row stores.
pub open spec fn entry_of_row(entry: EntryView, row: EntryRow, tag: Option<Candidate>) -> bool {
    &&& entry.id == row.entry_id.value
    &&& entry.organization_id == row.org_id.text
    &&& Some(entry.kind) == entry_kind_of(row.entry_type@)
    &&& entry.name == row.name.text
    &&& entry.path == row.path.text
    &&& entry.parent_id == match row.parent_id {
        Some(parent) => Some(parent.value),
        None => None,
    }
    &&& boundary_of(row.root_type@, tag) == Ok::<EntryBoundary, MetadataRepositoryError>(
        entry.boundary,
    )
    &&& actor_ref_of(row.owner_type@, row.owner_id) == Ok::<ActorRef, MetadataRepositoryError>(
        entry.owner,
    )
    &&& entry.origin_application_id == match row.origin_app_id {
        Some(application) => Some(application.text),
        None => None,
    }
    &&& entry.content_type == row.content_type
    &&& entry.size == match row.size_bytes {
        Some(size) => Some(size as u64),
        None => None,
    }
    &&& entry.current_version_id == match row.current_version_id {
        Some(version) => Some(version.value),
        None => None,
    }
    &&& entry.created_at == row.created_at
    &&& entry.updated_at == row.updated_at
    &&& entry.deleted_at == row.deleted_at
}

/// The entry that a row stores; a row that its own types do not accept fails.
pub fn entry_view(row: &EntryRow, tag: &Option<Candidate>) -> (entry: Result<
    EntryView,
    MetadataRepositoryError,
>)
    ensures
        match entry_error(*row, *tag) {
            Some(error) => entry == Err::<EntryView, MetadataRepositoryError>(error),
            None => entry matches Ok(view) && entry_of_row(view, *row, *tag),
        },
{
    if !row.org_id.accepted {
        return Err(invalid_data());
    }
    let boundary = match boundary(row.root_type.as_str(), tag) {
        Ok(boundary) => boundary,
        Err(error) => {
            return Err(error);
        },
    };
    if !row.entry_id.accepted {
        return Err(invalid_data());
    }
    let kind = match entry_kind(row.entry_type.as_str()) {
        Ok(kind) => kind,
        Err(error) => {
            return Err(error);
        },
    };
    if !row.name.accepted || !row.path.accepted {
        return Err(invalid_data());
    }
    let parent_id = match row.parent_id {
        Some(parent) => {
            if !parent.accepted {
                return Err(invalid_data());
            }
            Some(parent.value)
        },
        None => None,
    };
    let owner = match actor_ref(row.owner_type.as_str(), &row.owner_id) {
        Ok(owner) => owner,
        Err(error) => {
            return Err(error);
        },
    };
    let origin_application_id = match &row.origin_app_id {
        Some(application) => {
            if !application.accepted {
                return Err(invalid_data());
            }
            Some(application.text.clone())
        },
        None => None,
    };
    let size: Option<u64> = match row.size_bytes {
        Some(size) => {
            if size < 0 {
                return Err(invalid_data());
            }
            Some(size as u64)
        },
        None => None,
    };
    let current_version_id = match row.current_version_id {
        Some(version) => {
            if !version.accepted {
                return Err(invalid_data());
            }
            Some(version.value)
        },
        None => None,
    };
    Ok(
        EntryView {
            id: row.entry_id.value,
            organization_id: row.org_id.text.clone(),
            kind,
            name: row.name.text.clone(),
            path: row.path.text.clone(),
            parent_id,
            boundary,
            owner,
            origin_application_id,
            content_type: clone_optional_text(&row.content_type),
            size,
            current_version_id,
            created_at: row.created_at,
            updated_at: row.updated_at,
            deleted_at: row.deleted_at,
        },
    )
}

/// Whether a stored row counts for an operation: one that is deleted does only
/// where deleted entries were asked for.
pub fn row_counts(row: &EntryRow, include_deleted: bool) -> (counts: bool)
    ensures
        counts == (include_deleted || row.deleted_at is None),
{
    include_deleted || row.deleted_at.is_none()
}

/// The first reason why a stored entry cannot be judged.
pub open spec fn authorizable_error(row: EntryRow, tag: Option<Candidate>) -> Option<
    MetadataRepositoryError,
> {
    match entry_error(row, tag) {
        Some(error) => Some(error),
        None => if row.system_kind matches Some(name) && system_kind_of(name@) is None {
            Some(
                MetadataRepositoryError::Internal { reason: "invalid persisted system entry kind" },
            )
        } else {
            None
        },
    }
}

/// Whether an entry is what a row stores, with the verdict of the policy.
pub open spec fn authorizable_of_row(
    found: AuthorizableEntry,
    row: EntryRow,
    tag: Option<Candidate>,
    access: EntryAccess,
) -> bool {
    &&& entry_of_row(found.entry, row, tag)
    &&& found.system_kind == match row.system_kind {
        Some(name) => system_kind_of(name@),
        None => None,
    }
    &&& found.reserved == found.system_kind is Some
    &&& found.self_destruct_at == row.self_destruct_at
    &&& found.access == access
}

/// The entry that a row stores, with what the access policy says of it.
pub fn build_authorizable(row: &EntryRow, tag: &Option<Candidate>, access: EntryAccess) -> (found:
    Result<AuthorizableEntry, MetadataRepositoryError>)
    ensures
        match authorizable_error(*row, *tag) {
            Some(error) => found == Err::<AuthorizableEntry, MetadataRepositoryError>(error),
            None => found matches Ok(entry) && authorizable_of_row(entry, *row, *tag, access),
        },
{
    let entry = match entry_view(row, tag) {
        Ok(entry) => entry,
        Err(error) => {
            return Err(error);
        },
    };
    let kind = match system_kind(&row.system_kind) {
        Ok(kind) => kind,
        Err(error) => {
            return Err(error);
        },
    };
    Ok(
        AuthorizableEntry {
            entry,
            system_kind: kind,
            reserved: kind.is_some(),
            self_destruct_at: row.self_destruct_at,
            access,
        },
    )
}

/// Whether the entries below a row decide that a path through it is visible.
/// Administrators see everything anyway, and nothing leads through the bin.
pub fn asks_for_descendants(role: OrganizationRole, row: &EntryRow) -> (answer: bool)
    ensures
        answer == (!role.administers() && row.deleted_at is None),
{
    !role.has_administrative_access() && row.deleted_at.is_none()
}

/// A permission that a member was granted on an entry.
#[derive(Clone, Debug)]
pub struct PermissionGrant {
    /// Grant identifier.
    pub id: u128,
    /// Owning organization.
    pub organization_id: String,
    /// Entry that the grant is on.
    pub entry_id: u128,
    /// Member that was granted access.
    pub principal: ActorRef,
    /// Granted rights.
    pub access: GrantedAccess,
    /// Whether the grant reaches the entry's descendants.
    pub inherits: bool,
    /// Member that granted access.
    pub granted_by: ActorRef,
    /// End of an expiring share.
    pub expires_at: Option<i128>,
    /// Creation time.
    pub created_at: i128,
}

/// The first reason why a stored grant is no grant.
pub open spec fn grant_error(row: PermissionGrantRow) -> Option<MetadataRepositoryError> {
    if !row.grant_id.accepted || !row.org_id.accepted || !row.entry_id.accepted {
        Some(bad_data())
    } else if actor_ref_of(row.principal_type@, row.principal_id) is Err {
        Some(actor_ref_of(row.principal_type@, row.principal_id)->Err_0)
    } else if access_of(row.access_mask) is Err {
        Some(access_of(row.access_mask)->Err_0)
    } else if actor_ref_of(row.granted_by_type@, row.granted_by_id) is Err {
        Some(actor_ref_of(row.granted_by_type@, row.granted_by_id)->Err_0)
    } else {
        None
    }
}

/// Whether a grant is what a row stores.
pub open spec fn grant_of_row(grant: PermissionGrant, row: PermissionGrantRow) -> bool {
    &&& grant.id == row.grant_id.value
    &&& grant.organization_id == row.org_id.text
    &&& grant.entry_id == row.entry_id.value
    &&& actor_ref_of(row.principal_type@, row.principal_id) == Ok::<
        ActorRef,
        MetadataRepositoryError,
    >(grant.principal)
    &&& access_of(row.access_mask) == Ok::<GrantedAccess, MetadataRepositoryError>(grant.access)
    &&& grant.inherits == row.inherits_to_descendants
    &&& actor_ref_of(row.granted_by_type@, row.granted_by_id) == Ok::<
        ActorRef,
        MetadataRepositoryError,
    >(grant.granted_by)
    &&& grant.expires_at == row.expires_at
    &&& grant.created_at == row.created_at
}

/// The grant that a row stores.
pub fn permission_grant(row: &PermissionGrantRow) -> (grant: Result<
    PermissionGrant,
    MetadataRepositoryError,
>)
    ensures
        match grant_error(*row) {
            Some(error) => grant == Err::<PermissionGrant, MetadataRepositoryError>(error),
            None => grant matches Ok(made) && grant_of_row(made, *row),
        },
{
    if !row.grant_id.accepted || !row.org_id.accepted || !row.entry_id.accepted {
        return Err(invalid_data());
    }
    let principal = match actor_ref(row.principal_type.as_str(), &row.principal_id) {
        Ok(principal) => principal,
        Err(error) => {
            return Err(error);
        },
    };
    let access = match decode_access(row.access_mask) {
        Ok(access) => access,
        Err(error) => {
            return Err(error);
        },
    };
    let granted_by = match actor_ref(row.granted_by_type.as_str(), &row.granted_by_id) {
        Ok(granted_by) => granted_by,
        Err(error) => {
            return Err(error);
        },
    };
    Ok(
        PermissionGrant {
            id: row.grant_id.value,
            organization_id: row.org_id.text.clone(),
            entry_id: row.entry_id.value,
            principal,
            access,
            inherits: row.inherits_to_descendants,
            granted_by,
            expires_at: row.expires_at,
            created_at: row.created_at,
        },
    )
}

/// Where a grant that applies to an entry was made.
#[derive(Clone, Copy, Debug, PartialEq, Eq, Structural)]
pub enum ResolvedGrantScope {
    /// On the entry itself.
    Direct,
    /// On a folder above it.
    Inherited,
}

/// A stored grant and how far above the entry it was made.
#[derive(Clone, Debug)]
pub struct ResolvedGrantRow {
    /// The grant.
    pub grant: PermissionGrantRow,
    /// Levels between the grant's entry and the judged entry.
    pub depth: i32,
}

/// A grant that applies to an entry.
#[derive(Clone, Debug)]
pub struct ResolvedPermissionGrant {
    /// The grant.
    pub grant: PermissionGrant,
    /// Where it was made.
    pub scope: ResolvedGrantScope,
}

/// The first reason why stored grants are no grants.
pub open spec fn grants_error(rows: Seq<ResolvedGrantRow>) -> Option<MetadataRepositoryError>
    decreases rows.len(),
{
    if rows.len() == 0 {
        None
    } else {
        match grants_error(rows.drop_last()) {
            Some(error) => Some(error),
            None => grant_error(rows.last().grant),
        }
    }
}

/// The first failure among the first grants is the first failure of all.
proof fn lemma_grants_error_persists(rows: Seq<ResolvedGrantRow>, length: int)
    requires
        0 <= length <= rows.len(),
        grants_error(rows.take(length)) is Some,
    ensures
        grants_error(rows) == grants_error(rows.take(length)),
    decreases rows.len() - length,
{
    if length == rows.len() {
        assert(rows.take(length) =~= rows);
    } else {
        assert(rows.take(length + 1).drop_last() =~= rows.take(length));
        lemma_grants_error_persists(rows, length + 1);
    }
}

/// Whether grants are what rows store, one for one.
pub open spec fn grants_of_rows(
    grants: Seq<ResolvedPermissionGrant>,
    rows: Seq<ResolvedGrantRow>,
) -> bool {
    grants.len() == rows.len() && forall|k: int|
        0 <= k < rows.len() ==> grant_of_row((#[trigger] grants[k]).grant, rows[k].grant)
            && grants[k].scope == if rows[k].depth == 0 {
            ResolvedGrantScope::Direct
        } else {
            ResolvedGrantScope::Inherited
        }
}

/// The grants that apply to an entry, nearest first as they were read.
pub fn load_relevant_grants(rows: &Vec<ResolvedGrantRow>) -> (grants: Result<
    Vec<ResolvedPermissionGrant>,
    MetadataRepositoryError,
>)
    ensures
        match grants_error(rows@) {
            Some(error) => grants == Err::<Vec<ResolvedPermissionGrant>, MetadataRepositoryError>(
                error,
            ),
            None => grants matches Ok(list) && grants_of_rows(list@, rows@),
        },
{
    let mut grants: Vec<ResolvedPermissionGrant> = Vec::new();
    let mut index: usize = 0;
    assert(rows@.take(0) =~= Seq::<ResolvedGrantRow>::empty());
    while index < rows.len()
        invariant
            index <= rows@.len(),
            grants_error(rows@.take(index as int)) is None,
            grants_of_rows(grants@, rows@.take(index as int)),
        decreases rows@.len() - index,
    {
        let row = &rows[index];
        let ghost next = rows@.take(index + 1);
        assert(next.drop_last() =~= rows@.take(index as int));
        assert(next.last() == *row);
        let grant = match permission_grant(&row.grant) {
            Ok(grant) => grant,
            Err(error) => {
                proof {
                    lemma_grants_error_persists(rows@, index + 1);
                }
                return Err(error);
            },
        };
        let scope = if row.depth == 0 {
            ResolvedGrantScope::Direct
        } else {
            ResolvedGrantScope::Inherited
        };
        grants.push(ResolvedPermissionGrant { grant, scope });
        index += 1;
        assert(grants_of_rows(grants@, rows@.take(index as int)));
    }
    assert(rows@.take(rows@.len() as int) =~= rows@);
    Ok(grants)
}

/// How a claim of an idempotency key goes on.
#[derive(Clone, Copy, Debug, PartialEq, Eq, Structural)]
pub enum ClaimStep {
    /// The claim is decided.
    Claimed {
        /// What the request does.
        claim: IdempotencyClaim,
    },
    /// The recorded request never finished and its turn is over: this request
    /// takes the record over, keeping the recorded resource.
    TakeOver,
}

/// How a claim goes on, given the insertion of a record and the record that was
/// there instead.
pub open spec fn claim_of(
    metadata: MutationMetadata,
    resource_id: Option<u128>,
    inserted: bool,
    existing: Option<IdempotencyState>,
    now: i128,
) -> Result<ClaimStep, MetadataRepositoryError> {
    if metadata.idempotency_key is None || inserted {
        Ok(ClaimStep::Claimed { claim: IdempotencyClaim::Acquired(resource_id) })
    } else {
        match existing {
            None => Err(MetadataRepositoryError::NotFound),
            Some(state) => if state.request_hash@ != metadata.request_fingerprint@ {
                Err(MetadataRepositoryError::Conflict)
            } else if state.status@ == "completed"@ {
                Ok(ClaimStep::Claimed { claim: IdempotencyClaim::Replay(state.resource_id) })
            } else if state.status@ != "in_progress"@ {
                Err(MetadataRepositoryError::Internal { reason: "invalid idempotency state" })
            } else if state.locked_until > now {
                Err(MetadataRepositoryError::Conflict)
            } else {
                Ok(ClaimStep::TakeOver)
            },
        }
    }
}

/// Decides what a mutation with an idempotency key does: it runs when its
/// record was inserted, answers from a completed record of the same request,
/// and conflicts with a record of another request or one that is still running.
/// A request without a key always runs.
pub fn claim_idempotency(
    metadata: &MutationMetadata,
    resource_id: Option<u128>,
    inserted: bool,
    existing: &Option<IdempotencyState>,
    now: i128,
) -> (step: Result<ClaimStep, MetadataRepositoryError>)
    ensures
        step == claim_of(*metadata, resource_id, inserted, *existing, now),
{
    if metadata.idempotency_key.is_none() || inserted {
        return Ok(ClaimStep::Claimed { claim: IdempotencyClaim::Acquired(resource_id) });
    }
    let state = match existing {
        Some(state) => state,
        None => {
            return Err(MetadataRepositoryError::NotFound);
        },
    };
    if !same_bytes(state.request_hash.as_slice(), metadata.request_fingerprint.as_slice()) {
        return Err(MetadataRepositoryError::Conflict);
    }
    if same_text(state.status.as_str(), "completed") {
        return Ok(ClaimStep::Claimed { claim: IdempotencyClaim::Replay(state.resource_id) });
    }
    if !same_text(state.status.as_str(), "in_progress") {
        return Err(internal("invalid idempotency state"));
    }
    if state.locked_until > now {
        return Err(MetadataRepositoryError::Conflict);
    }
    Ok(ClaimStep::TakeOver)
}

/// A repeated request is answered from its record and never runs again: the
/// completed record of the same request replays, whatever the time.
pub proof fn law_completed_requests_replay(
    metadata: MutationMetadata,
    resource_id: Option<u128>,
    state: IdempotencyState,
    now: i128,
)
    requires
        metadata.idempotency_key is Some,
        state.request_hash@ == metadata.request_fingerprint@,
        state.status@ == "completed"@,
    ensures
        claim_of(metadata, resource_id, false, Some(state), now) == Ok::<
            ClaimStep,
            MetadataRepositoryError,
        >(ClaimStep::Claimed { claim: IdempotencyClaim::Replay(state.resource_id) }),
{
}

/// A key that was used for another request is refused, wherever that request
/// stands.
pub proof fn law_keys_are_bound_to_one_request(
    metadata: MutationMetadata,
    resource_id: Option<u128>,
    state: IdempotencyState,
    now: i128,
)
    requires
        metadata.idempotency_key is Some,
        state.request_hash@ != metadata.request_fingerprint@,
    ensures
        claim_of(metadata, resource_id, false, Some(state), now) == Err::<
            ClaimStep,
            MetadataRepositoryError,
        >(MetadataRepositoryError::Conflict),
{
}

/// Two requests under one key never run at the same time: while one holds its
/// turn, the other conflicts.
pub proof fn law_running_requests_exclude_each_other(
    metadata: MutationMetadata,
    resource_id: Option<u128>,
    state: IdempotencyState,
    now: i128,
)
    requires
        metadata.idempotency_key is Some,
        state.status@ == "in_progress"@,
        state.locked_until > now,
    ensures
        claim_of(metadata, resource_id, false, Some(state), now) is Err,
{
    reveal_strlit("completed");
    reveal_strlit("in_progress");
    assert("completed"@.len() == 9);
    assert("in_progress"@.len() == 11);
}

/// Whether the record of a finished mutation was closed. Without a key there is
/// none to close; a record that is no longer this request's conflicts.
pub fn complete_idempotency(metadata: &MutationMetadata, closed_records: u64) -> (result: Result<
    (),
    MetadataRepositoryError,
>)
    ensures
        result == if metadata.idempotency_key is None || closed_records == 1 {
            Ok::<(), MetadataRepositoryError>(())
        } else {
            Err::<(), MetadataRepositoryError>(MetadataRepositoryError::Conflict)
        },
{
    if metadata.idempotency_key.is_none() || closed_records == 1 {
        Ok(())
    } else {
        Err(MetadataRepositoryError::Conflict)
    }
}

/// One value of a change record.
#[derive(Clone, Debug)]
pub enum DetailValue {
    /// Nothing.
    Null,
    /// A truth value.
    Bool(bool),
    /// A number.
    Integer(i64),
    /// A count or size.
    Unsigned(u64),
    /// A fixed word.
    Word(&'static str),
    /// A text.
    Text(String),
    /// Texts.
    Texts(Vec<String>),
    /// Fixed words.
    Words(Vec<&'static str>),
    /// An identifier in its hyphenated form.
    Id(u128),
    /// An instant in its RFC 3339 form.
    Instant(i128),
    /// An instant in the form that rows carry.
    Timestamp(i128),
    /// A member or a tag.
    Principal {
        /// Kind.
        kind: String,
        /// Identifier.
        id: String,
    },
}

impl DetailValue {
    /// An optional identifier.
    pub open spec fn of_id(id: Option<u128>) -> DetailValue {
        match id {
            Some(value) => DetailValue::Id(value),
            None => DetailValue::Null,
        }
    }

    /// An optional identifier.
    pub fn optional_id(id: Option<u128>) -> (value: DetailValue)
        ensures
            value == DetailValue::of_id(id),
    {
        match id {
            Some(value) => DetailValue::Id(value),
            None => DetailValue::Null,
        }
    }

    /// An optional instant.
    pub open spec fn of_instant(instant: Option<i128>) -> DetailValue {
        match instant {
            Some(value) => DetailValue::Instant(value),
            None => DetailValue::Null,
        }
    }

    /// An optional instant.
    pub fn optional_instant(instant: Option<i128>) -> (value: DetailValue)
        ensures
            value == DetailValue::of_instant(instant),
    {
        match instant {
            Some(value) => DetailValue::Instant(value),
            None => DetailValue::Null,
        }
    }
}

/// One named value of a change record.
#[derive(Clone, Debug)]
pub struct Detail {
    /// Name.
    pub key: &'static str,
    /// Value.
    pub value: DetailValue,
}

/// A change as it is recorded in the audit log and announced to subscribers.
#[derive(Clone, Debug)]
pub struct ChangeRecord {
    /// Entry that changed.
    pub entry_id: Option<u128>,
    /// Stable name of the change.
    pub action: &'static str,
    /// Kind of what changed.
    pub aggregate_type: &'static str,
    /// Identifier of what changed.
    pub aggregate_id: String,
    /// What changed about it.
    pub payload: Vec<Detail>,
}

impl ChangeRecord {
    /// Whether the record is of the given change to an entry.
    pub open spec fn is_entry_change(
        self,
        entry_id: u128,
        action: &'static str,
        payload: Seq<Detail>,
    ) -> bool {
        &&& self.entry_id == Some(entry_id)
        &&& self.action == action
        &&& self.aggregate_type == "entry"
        &&& self.aggregate_id@ == hyphenated_chars(entry_id)
        &&& self.payload@ == payload
    }
}

/// A change to an entry.
pub fn entry_change(entry_id: u128, action: &'static str, payload: Vec<Detail>) -> (record:
    ChangeRecord)
    ensures
        record.is_entry_change(entry_id, action, payload@),
{
    ChangeRecord {
        entry_id: Some(entry_id),
        action,
        aggregate_type: "entry",
        aggregate_id: hyphenated(entry_id),
        payload,
    }
}

/// The words for the rights of a set, in a fixed order.
pub open spec fn right_words(access: GrantedAccess) -> Seq<&'static str> {
    let read = if access.read {
        seq!["read"]
    } else {
        Seq::empty()
    };
    let write = if access.write {
        seq!["write"]
    } else {
        Seq::empty()
    };
    let update = if access.update {
        seq!["update"]
    } else {
        Seq::empty()
    };
    let delete = if access.delete {
        seq!["delete"]
    } else {
        Seq::empty()
    };
    read + write + update + delete
}

/// The words for the rights of a set, in a fixed order.
pub fn access_rights(access: GrantedAccess) -> (words: Vec<&'static str>)
    ensures
        words@ == right_words(access),
{
    let mut words: Vec<&'static str> = Vec::new();
    if access.read {
        words.push("read");
    }
    if access.write {
        words.push("write");
    }
    if access.update {
        words.push("update");
    }
    if access.delete {
        words.push("delete");
    }
    assert(words@ =~= right_words(access));
    words
}

/// Topic that changes are announced under.
pub const CHANGE_TOPIC: &'static str = "briefcase.domain-events.v1";

/// Version of the announcements' shape.
pub const CHANGE_SCHEMA_VERSION: u32 = 1;

/// A change as it is announced.
#[derive(Clone, Debug)]
pub struct ChangeAnnouncement {
    /// Topic.
    pub topic: &'static str,
    /// Version of the announcement's shape.
    pub schema_version: u32,
    /// The change itself: its name, what changed, and how.
    pub change: ChangeRecord,
}

/// Announces a change under the same name, subject and details as it is
/// recorded.
pub fn announce(change: ChangeRecord) -> (announcement: ChangeAnnouncement)
    ensures
        announcement.topic@ == CHANGE_TOPIC@,
        announcement.schema_version == 1,
        announcement.change == change,
{
    ChangeAnnouncement { topic: CHANGE_TOPIC, schema_version: CHANGE_SCHEMA_VERSION, change }
}

/// Days that a deleted entry stays in the bin.
pub const RETENTION_DAYS: i128 = 45;

/// When an entry deleted now leaves the bin.
pub fn retention_deadline(now: i128) -> (deadline: i128)
    requires
        representable(now as int),
        representable(now + RETENTION_DAYS * NANOS_PER_DAY),
    ensures
        deadline == now + RETENTION_DAYS * NANOS_PER_DAY,
{
    now + RETENTION_DAYS * NANOS_PER_DAY
}

} // verus!
