//! Creating, moving, deleting and restoring entries, and reading stored ones.

use vstd::prelude::*;

use crate::error::MetadataRepositoryError;
use crate::ids::{hyphenated_chars, Candidate, StoredId};
use crate::model::{
    ActorRef, AuthorizableEntry, Capability, EntryAccess, EntryBoundary, EntryKind, EntryView,
    IdempotencyClaim,
};
use crate::postgres::metadata::common::{
    actor_ref_of, authorizable_error, authorizable_of_row, boundary_of, entry_error, entry_kind_of,
    entry_of_row, mask_of, system_kind_of, ChangeRecord, Detail, DetailValue,
};
use crate::postgres::metadata::entries::{
    create_folder_error, delete_error, delete_planned, folder_planned, restorable, restore_error,
    restore_parent_of, restore_planned, restored_name_of, update_error, update_planned,
    CreateFolderMutation, DeletePlan, FolderPlan, RestorePlan, SubtreeCheck, SubtreeRow,
    UpdateEntryCommand, UpdatePlan,
};
use crate::postgres::models::EntryRow;
use crate::text::byte_len;

verus! {

/// A change of an entry is filed under the entry itself.
pub proof fn law_entry_changes_are_filed_under_the_entry(
    change: ChangeRecord,
    entry_id: u128,
    action: &'static str,
    payload: Seq<Detail>,
)
    requires
        change.is_entry_change(entry_id, action, payload),
    ensures
        change.entry_id == Some(entry_id),
        change.action == action,
        change.aggregate_type == "entry",
        change.aggregate_id@ == hyphenated_chars(entry_id),
        change.payload@ == payload,
{
}

/// An optional identifier or instant is recorded as itself, and as nothing where
/// there is none.
pub proof fn law_details_record_what_they_name(id: Option<u128>, instant: Option<i128>)
    ensures
        id is None <==> DetailValue::of_id(id) == DetailValue::Null,
        id matches Some(value) ==> DetailValue::of_id(id) == DetailValue::Id(value),
        instant is None <==> DetailValue::of_instant(instant) == DetailValue::Null,
        instant matches Some(value) ==> DetailValue::of_instant(instant) == DetailValue::Instant(
            value,
        ),
{
}

/// An entry moves exactly where the caller may change it, it is not reserved,
/// and its new place is a folder of its own boundary in which the caller may
/// create entries. A folder takes everything below it along, so all of that has
/// to be changeable too.
pub proof fn law_moves_are_admitted_exactly_where_they_may_be(
    command: UpdateEntryCommand,
    current: Option<AuthorizableEntry>,
    required: Capability,
    parent: Option<AuthorizableEntry>,
    subtree: SubtreeCheck,
)
    ensures
        update_error(command, current, required, parent, subtree) is None <==> {
            &&& current is Some
            &&& current->0.access.permits(required)
            &&& current->0.system_kind is None
            &&& command.parent_id is Some ==> {
                &&& parent is Some
                &&& parent->0.entry.kind == EntryKind::Folder
                &&& parent->0.entry.boundary.same_boundary(current->0.entry.boundary)
                &&& parent->0.access.create_child
                &&& current->0.entry.kind == EntryKind::Folder ==> subtree.locked > 0
                    && subtree.allowed
            }
        },
        update_error(command, current, required, parent, subtree) == Some(
            MetadataRepositoryError::NotFound,
        ) ==> current is None || (command.parent_id is Some && (parent is None || subtree.locked
            == 0)),
        update_error(command, current, required, parent, subtree) matches Some(error) ==> error
            == MetadataRepositoryError::NotFound || error == MetadataRepositoryError::Conflict,
{
}

/// A rename asks nothing of any folder.
pub proof fn law_renames_ask_for_no_folder(
    command: UpdateEntryCommand,
    current: AuthorizableEntry,
    required: Capability,
    parent: Option<AuthorizableEntry>,
    subtree: SubtreeCheck,
)
    requires
        command.parent_id is None,
    ensures
        update_error(command, Some(current), required, parent, subtree) is None
            <==> current.access.permits(required) && current.system_kind is None,
{
}

/// What is written of a change is what was asked for: the new name, the new
/// folder, and who changed it.
pub proof fn law_changes_write_what_was_asked_for(
    plan: UpdatePlan,
    command: UpdateEntryCommand,
    actor: ActorRef,
)
    requires
        update_planned(plan, command, actor),
    ensures
        plan.entry_id == command.entry_id,
        plan.name == command.name,
        plan.parent_id == command.parent_id,
        plan.updated_by == actor,
        plan.change.entry_id == Some(command.entry_id),
        plan.change.action == "entry.metadata_updated.v1",
        plan.change.payload@.len() == 2,
        plan.change.payload@[0] == (Detail {
            key: "renamed",
            value: DetailValue::Bool(command.name is Some),
        }),
        plan.change.payload@[1] == (Detail {
            key: "moved",
            value: DetailValue::Bool(command.parent_id is Some),
        }),
{
}

/// A folder is created by its owner: at the top where no capability is asked
/// for, and elsewhere in a folder of the same boundary in which the caller has
/// the capability. Its tag has to be active and everyone invited a member.
pub proof fn law_folders_are_created_where_they_may_be(
    mutation: CreateFolderMutation,
    actor: ActorRef,
    parent: Option<AuthorizableEntry>,
    required: Option<Capability>,
    active_tag: Option<String>,
    members: Seq<bool>,
)
    ensures
        create_folder_error(mutation, actor, parent, required, active_tag, members) is None <==> {
            &&& mutation.owner.kind == actor.kind && mutation.owner.id@ == actor.id@
            &&& mutation.parent_id is None ==> required is None
            &&& mutation.parent_id is Some ==> {
                &&& parent is Some
                &&& parent->0.entry.kind == EntryKind::Folder
                &&& parent->0.entry.boundary.same_boundary(mutation.boundary)
                &&& required is Some && parent->0.access.permits(required->0)
            }
            &&& mutation.boundary is Tag ==> active_tag is Some
            &&& forall|k: int| 0 <= k < members.len() ==> #[trigger] members[k]
        },
        create_folder_error(mutation, actor, parent, required, active_tag, members) == Some(
            MetadataRepositoryError::NotFound,
        ) ==> mutation.parent_id is Some && parent is None,
{
}

/// A created folder is what was asked for, belongs to who asked, and is shared
/// with exactly those who were invited, each with their own rights and for good.
pub proof fn law_created_folders_are_as_asked(
    plan: FolderPlan,
    mutation: CreateFolderMutation,
    entry_id: u128,
    actor: ActorRef,
    active_tag: Option<String>,
    grant_ids: Seq<u128>,
    position: int,
)
    requires
        folder_planned(plan, mutation, entry_id, actor, active_tag, grant_ids),
    ensures
        plan.folder.entry_id == entry_id,
        plan.folder.parent_id == mutation.parent_id,
        plan.folder.name == mutation.name,
        plan.folder.boundary == mutation.boundary,
        plan.folder.owner == actor,
        plan.folder.origin_app_id == mutation.origin_application_id,
        mutation.boundary is Tag ==> plan.folder.tag_id == active_tag,
        mutation.boundary !is Tag ==> plan.folder.tag_id is None,
        plan.grants@.len() == mutation.invitees@.len(),
        0 <= position < mutation.invitees@.len() ==> {
            let grant = plan.grants@[position];
            let invitee = mutation.invitees@[position];
            &&& grant.entry_id == entry_id
            &&& grant.grant_id == grant_ids[position]
            &&& grant.principal == invitee.principal
            &&& grant.access_mask == mask_of(invitee.access)
            &&& grant.inherits_to_descendants == invitee.inherits_to_descendants
            &&& grant.granted_by == actor
            &&& grant.lifetime_minutes is None
        },
        plan.change.entry_id == Some(entry_id),
        plan.change.action == "entry.folder_created.v1",
        plan.change.payload@ == seq![
            Detail { key: "parent_id", value: DetailValue::of_id(mutation.parent_id) },
        ],
{
}

/// An entry is deleted exactly where the caller may do so to it and to
/// everything below it, and it is not reserved.
pub proof fn law_deletions_reach_only_what_may_be_deleted(
    entry: Option<AuthorizableEntry>,
    required: Capability,
    subtree: SubtreeCheck,
)
    ensures
        delete_error(entry, required, subtree) is None <==> {
            &&& entry is Some
            &&& entry->0.access.permits(required)
            &&& entry->0.system_kind is None
            &&& subtree.locked > 0
            &&& subtree.allowed
        },
        delete_error(entry, required, subtree) == Some(MetadataRepositoryError::NotFound) ==> entry
            is None || subtree.locked == 0,
{
}

/// A deleted entry stays in the bin for forty-five days from now.
pub proof fn law_deleted_entries_stay_in_the_bin(
    plan: DeletePlan,
    entry_id: u128,
    actor: ActorRef,
    batch_id: u128,
    now: i128,
)
    requires
        delete_planned(plan, entry_id, actor, batch_id, now),
    ensures
        plan.entry_id == entry_id,
        plan.batch_id == batch_id,
        plan.deleted_at == now,
        plan.purge_after - now == 45 * 86_400 * 1_000_000_000,
        plan.purge_self_destructing_after == now,
        plan.updated_by == actor,
        plan.change.entry_id == Some(entry_id),
        plan.change.action == "entry.subtree_deleted.v1",
        plan.change.payload@ == seq![
            Detail { key: "deletion_batch_id", value: DetailValue::Id(batch_id) },
            Detail { key: "purge_after", value: DetailValue::Timestamp(plan.purge_after) },
        ],
{
}

/// An entry comes back from the bin exactly where its deletion is still there,
/// everything below it may be changed, it is at the top of its deletion, and
/// this is not a repeated request.
pub proof fn law_restores_need_a_live_deletion(
    batch_id: Option<u128>,
    subtree: SubtreeCheck,
    claim: IdempotencyClaim,
    rows: Seq<SubtreeRow>,
)
    ensures
        restore_error(batch_id, subtree, claim, rows) is None <==> {
            &&& batch_id is Some
            &&& subtree.locked > 0
            &&& subtree.allowed
            &&& claim is Acquired
            &&& rows.len() > 0
            &&& rows[0].depth == 0
        },
        restore_error(batch_id, subtree, claim, rows) == Some(MetadataRepositoryError::NotFound)
            <==> batch_id is None || subtree.locked == 0,
{
}

/// What is due is left in the bin, and everything else of the deletion comes
/// back, in its order.
pub proof fn law_only_what_is_due_stays_gone(rows: Seq<SubtreeRow>)
    ensures
        forall|k: int| 0 <= k < restorable(rows).len() ==> !(#[trigger] restorable(rows)[k]).due,
        forall|k: int| 0 <= k < rows.len() && !(#[trigger] rows[k]).due ==> restorable(
            rows,
        ).contains(rows[k]),
        forall|k: int|
            0 <= k < restorable(rows).len() ==> rows.contains(#[trigger] restorable(rows)[k]),
        (forall|k: int| 0 <= k < rows.len() ==> !(#[trigger] rows[k]).due) ==> restorable(rows)
            == rows,
    decreases rows.len(),
{
    if rows.len() > 0 {
        let earlier = rows.drop_last();
        law_only_what_is_due_stays_gone(earlier);
        assert forall|k: int| 0 <= k < rows.len() && !(#[trigger] rows[k]).due implies restorable(
            rows,
        ).contains(rows[k]) by {
            if k < earlier.len() {
                assert(earlier[k] == rows[k]);
                let j = choose|j: int|
                    0 <= j < restorable(earlier).len() && restorable(earlier)[j] == rows[k];
                assert(restorable(rows)[j] == rows[k]);
            } else {
                assert(restorable(rows).last() == rows[k]);
            }
        }
        assert forall|k: int| 0 <= k < restorable(rows).len() implies rows.contains(
            #[trigger] restorable(rows)[k],
        ) by {
            if k < restorable(earlier).len() {
                assert(earlier.contains(restorable(earlier)[k]));
                let j = choose|j: int| 0 <= j < earlier.len() && earlier[j] == restorable(earlier)[k];
                assert(rows[j] == restorable(rows)[k]);
            } else {
                assert(rows[rows.len() - 1] == restorable(rows)[k]);
            }
        }
        if forall|k: int| 0 <= k < rows.len() ==> !(#[trigger] rows[k]).due {
            assert forall|k: int| 0 <= k < earlier.len() implies !(#[trigger] earlier[k]).due by {
                assert(earlier[k] == rows[k]);
            }
            assert(restorable(rows) =~= rows);
        }
    } else {
        assert(restorable(rows) =~= rows);
    }
}

/// The entry at the top of a deletion comes back at its destination under its
/// new name; everything below it keeps its place.
pub proof fn law_restored_entries_are_placed_once(
    plan: RestorePlan,
    entry_id: u128,
    batch_id: u128,
    rows: Seq<SubtreeRow>,
    destination: Option<u128>,
    name: Seq<char>,
    actor: ActorRef,
    position: int,
)
    requires
        restore_planned(plan, entry_id, batch_id, rows, destination, name, actor),
        0 <= position < restorable(rows).len(),
    ensures
        plan.batch_id == batch_id,
        plan.updated_by == actor,
        plan.rows@.len() == restorable(rows).len(),
        plan.rows@[position].entry_id == restorable(rows)[position].entry_id,
        plan.rows@[position].placed is Some <==> restorable(rows)[position].depth == 0,
        plan.rows@[position].placed matches Some(place) ==> place.parent_id == destination
            && place.name@ == name,
        plan.change.entry_id == Some(entry_id),
        plan.change.action == "entry.subtree_restored.v1",
        plan.change.payload@ == seq![
            Detail { key: "deletion_batch_id", value: DetailValue::Id(batch_id) },
            Detail { key: "parent_id", value: DetailValue::of_id(destination) },
        ],
{
}

/// A restored entry keeps its name where the name is free; elsewhere it gets one
/// that says so and carries the beginning of its identifier.
pub proof fn law_restored_entries_keep_a_free_name(name: Seq<char>, entry_id: u128)
    requires
        byte_len(name) <= 255,
    ensures
        restored_name_of(name, false, entry_id) == name,
        restored_name_of(name, true, entry_id).len() >= 20,
        restored_name_of(name, true, entry_id).last() == ')',
        ({
            let made = restored_name_of(name, true, entry_id);
            &&& made.subrange(made.len() - 9, made.len() - 1) == hyphenated_chars(
                entry_id,
            ).subrange(0, 8)
            &&& made.subrange(made.len() - 20, made.len() - 9) == " (restored "@
        }),
{
    let made = restored_name_of(name, true, entry_id);
    let digits = hyphenated_chars(entry_id).subrange(0, 8);
    reveal_strlit(" (restored ");
    assert(made.subrange(made.len() - 9, made.len() - 1) =~= digits);
    assert(made.subrange(made.len() - 20, made.len() - 9) =~= " (restored "@);
}

/// A restored entry goes back to its folder where that still is a folder of its
/// boundary in which the caller may create entries; to the fallback otherwise,
/// where the caller may create entries there.
pub proof fn law_restored_entries_go_back(
    entry: AuthorizableEntry,
    parent: Option<AuthorizableEntry>,
    fallback: Option<StoredId>,
    fallback_entry: Option<AuthorizableEntry>,
)
    ensures
        entry.entry.parent_id is None ==> restore_parent_of(entry, parent, fallback, fallback_entry)
            == Ok::<Option<u128>, MetadataRepositoryError>(None),
        entry.entry.parent_id is Some && (parent matches Some(folder) && folder.entry.kind
            == EntryKind::Folder && folder.entry.boundary.same_boundary(entry.entry.boundary)
            && folder.access.create_child) ==> restore_parent_of(
            entry,
            parent,
            fallback,
            fallback_entry,
        ) == Ok::<Option<u128>, MetadataRepositoryError>(entry.entry.parent_id),
        entry.entry.parent_id is Some && !(parent matches Some(folder) && folder.entry.kind
            == EntryKind::Folder && folder.entry.boundary.same_boundary(entry.entry.boundary)
            && folder.access.create_child) ==> {
            let place = restore_parent_of(entry, parent, fallback, fallback_entry);
            &&& place is Ok <==> {
                &&& fallback is Some && fallback->0.accepted
                &&& fallback_entry is Some && fallback_entry->0.access.create_child
            }
            &&& place matches Ok(id) ==> id == Some(fallback->0.value)
        },
{
}

/// A stored entry is shown as it is stored.
pub proof fn law_stored_entries_are_shown_as_stored(
    entry: EntryView,
    row: EntryRow,
    tag: Option<Candidate>,
)
    requires
        entry_of_row(entry, row, tag),
    ensures
        entry.id == row.entry_id.value,
        entry.organization_id == row.org_id.text,
        entry_kind_of(row.entry_type@) == Some(entry.kind),
        entry.name == row.name.text,
        entry.path == row.path.text,
        row.parent_id is None <==> entry.parent_id is None,
        row.parent_id matches Some(parent) ==> entry.parent_id == Some(parent.value),
        boundary_of(row.root_type@, tag) == Ok::<EntryBoundary, MetadataRepositoryError>(
            entry.boundary,
        ),
        actor_ref_of(row.owner_type@, row.owner_id) == Ok::<ActorRef, MetadataRepositoryError>(
            entry.owner,
        ),
        row.origin_app_id is None <==> entry.origin_application_id is None,
        row.origin_app_id matches Some(application) ==> entry.origin_application_id == Some(
            application.text,
        ),
        entry.content_type == row.content_type,
        row.size_bytes is None <==> entry.size is None,
        row.size_bytes matches Some(size) ==> size >= 0 ==> entry.size->0 == size,
        row.current_version_id is None <==> entry.current_version_id is None,
        row.current_version_id matches Some(version) ==> entry.current_version_id == Some(
            version.value,
        ),
        entry.created_at == row.created_at,
        entry.updated_at == row.updated_at,
        entry.deleted_at == row.deleted_at,
{
}

/// A stored entry is read exactly where each of its columns can be.
pub proof fn law_malformed_entries_are_never_shown(row: EntryRow, tag: Option<Candidate>)
    ensures
        entry_error(row, tag) is None <==> {
            &&& row.org_id.accepted && row.entry_id.accepted && row.name.accepted
                && row.path.accepted
            &&& boundary_of(row.root_type@, tag) is Ok
            &&& entry_kind_of(row.entry_type@) is Some
            &&& row.parent_id matches Some(parent) ==> parent.accepted
            &&& actor_ref_of(row.owner_type@, row.owner_id) is Ok
            &&& row.origin_app_id matches Some(application) ==> application.accepted
            &&& row.size_bytes matches Some(size) ==> size >= 0
            &&& row.current_version_id matches Some(version) ==> version.accepted
        },
        authorizable_error(row, tag) is None <==> entry_error(row, tag) is None && (row.system_kind
            matches Some(name) ==> system_kind_of(name@) is Some),
{
}

/// What may be done to an entry is what the policy said, and the entry is
/// reserved exactly where it is stored as a reserved folder.
pub proof fn law_entries_carry_the_policys_verdict(
    found: AuthorizableEntry,
    row: EntryRow,
    tag: Option<Candidate>,
    access: EntryAccess,
)
    requires
        authorizable_of_row(found, row, tag, access),
        authorizable_error(row, tag) is None,
    ensures
        found.access == access,
        found.reserved <==> row.system_kind is Some,
        found.system_kind is Some <==> row.system_kind is Some,
        row.system_kind matches Some(name) ==> found.system_kind == system_kind_of(name@),
        found.self_destruct_at == row.self_destruct_at,
        found.entry.id == row.entry_id.value,
{
}

} // verus!
