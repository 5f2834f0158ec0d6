//! Capabilities, rights, roles and the words they are stored as.

use vstd::prelude::*;

use crate::error::MetadataRepositoryError;
use crate::iam::official::role_of;
use crate::ids::Candidate;
use crate::model::{
    AccessRight, ActorKind, ActorRef, AuthenticationMode, AuthorizableEntry, Capability,
    EntryAccess, EntryBoundary, EntryKind, GrantedAccess, IdempotencyClaim, MutationMetadata,
    OrganizationRole, RequestAuthContext, SystemEntryKind,
};
use crate::postgres::kind_chars;
use crate::postgres::metadata::common::{
    access_of, actor_ref_of, boundary_of, change_error, claim_of, entry_kind_of, mask_of,
    right_words, role_chars, system_kind_of, ClaimStep,
};
use crate::postgres::metadata::entries::{resource_claim_of, ResourceClaim};
use crate::postgres::metadata::listing::role_of_word;
use crate::postgres::models::IdempotencyState;

verus! {

/// Each capability is allowed by its own verdict of the policy and by no other.
pub proof fn law_capabilities_are_told_apart(access: EntryAccess)
    ensures
        access.permits(Capability::Read) <==> access.read,
        access.permits(Capability::CreateChild) <==> access.create_child,
        access.permits(Capability::WriteContent) <==> access.write_content,
        access.permits(Capability::UpdateMetadata) <==> access.update_metadata,
        access.permits(Capability::Delete) <==> access.delete,
        access.permits(Capability::ManagePermissions) <==> access.manage_permissions,
{
}

/// Owners and administrators administer, and nobody else does.
pub proof fn law_members_do_not_administer()
    ensures
        OrganizationRole::Owner.administers(),
        OrganizationRole::Admin.administers(),
        !OrganizationRole::Member.administers(),
{
}

/// A request comes through an application exactly where the application proved
/// that it acts for the member, and then through that one.
pub proof fn law_applications_act_by_proof_only(context: RequestAuthContext)
    ensures
        context.authentication is Bearer <==> context.application() is None,
        context.authentication matches AuthenticationMode::OnBehalfOf { application_id }
            ==> context.application() == Some(application_id@),
{
}

/// Tags are held by name, and only where they are known.
pub proof fn law_tags_are_held_by_name(context: RequestAuthContext, name: Seq<char>)
    ensures
        context.tags is None ==> !context.holds_tag(name),
        context.tags matches Some(tags) ==> (context.holds_tag(name) <==> exists|k: int|
            0 <= k < tags@.len() && (#[trigger] tags@[k])@ == name),
{
}

/// Rights that reach beyond reading are those to write, to update and to
/// delete.
pub proof fn law_rights_are_independent(access: GrantedAccess, other: GrantedAccess)
    ensures
        access.holds(AccessRight::Read) <==> access.read,
        access.holds(AccessRight::Write) <==> access.write,
        access.holds(AccessRight::Update) <==> access.update,
        access.holds(AccessRight::Delete) <==> access.delete,
        access.beyond_read() <==> (access.write || access.update || access.delete),
        access.within(other) <==> (access.read ==> other.read) && (access.write ==> other.write)
            && (access.update ==> other.update) && (access.delete ==> other.delete),
{
    assert(access.within(other) ==> ((access.holds(AccessRight::Read) ==> other.holds(
        AccessRight::Read,
    )) && (access.holds(AccessRight::Write) ==> other.holds(AccessRight::Write)) && (access.holds(
        AccessRight::Update,
    ) ==> other.holds(AccessRight::Update)) && (access.holds(AccessRight::Delete) ==> other.holds(
        AccessRight::Delete,
    ))));
}

/// A stored mask holds one bit for each right, from reading at the lowest to
/// deleting at the highest.
pub proof fn law_masks_hold_a_bit_for_each_right(access: GrantedAccess)
    ensures
        0 <= mask_of(access) < 16,
        mask_of(access) as int % 2 == 1 <==> access.read,
        (mask_of(access) as int / 2) % 2 == 1 <==> access.write,
        (mask_of(access) as int / 4) % 2 == 1 <==> access.update,
        (mask_of(access) as int / 8) % 2 == 1 <==> access.delete,
{
}

/// Whatever a stored mask is read as is stored as that mask again, and what no
/// rights are stored as is refused.
pub proof fn law_masks_are_read_as_stored(mask: i16)
    ensures
        access_of(mask) is Ok <==> 0 <= mask < 16,
        access_of(mask) matches Ok(access) ==> mask_of(access) == mask,
{
}

/// A right is spelled out exactly where it is held, each once and the weaker
/// ones first.
pub proof fn law_rights_are_spelled_out(access: GrantedAccess)
    ensures
        right_words(access).contains("read") <==> access.read,
        right_words(access).contains("write") <==> access.write,
        right_words(access).contains("update") <==> access.update,
        right_words(access).contains("delete") <==> access.delete,
        right_words(access).len() == (if access.read {
            1int
        } else {
            0
        }) + (if access.write {
            1int
        } else {
            0
        }) + (if access.update {
            1int
        } else {
            0
        }) + (if access.delete {
            1int
        } else {
            0
        }),
        access.read ==> right_words(access)[0] == "read",
        access.delete ==> right_words(access).last() == "delete",
{
    reveal_strlit("read");
    reveal_strlit("write");
    reveal_strlit("update");
    reveal_strlit("delete");
    assert("read"@.len() == 4);
    assert("write"@.len() == 5);
    assert("update"@[0] != "delete"@[0]);
    let words = right_words(access);
    let read = if access.read {
        seq!["read"]
    } else {
        Seq::<&'static str>::empty()
    };
    let write = if access.write {
        seq!["write"]
    } else {
        Seq::<&'static str>::empty()
    };
    let update = if access.update {
        seq!["update"]
    } else {
        Seq::<&'static str>::empty()
    };
    if access.read {
        assert(words[0] == "read");
    }
    if access.write {
        assert(words[read.len() as int] == "write");
    }
    if access.update {
        assert(words[(read + write).len() as int] == "update");
    }
    if access.delete {
        assert(words[(read + write + update).len() as int] == "delete");
    }
}

/// The three roles are told apart by the words that the identity service and
/// the database use for them, and no other word names a role.
pub proof fn law_roles_are_read_as_they_are_written(role: OrganizationRole, word: String)
    ensures
        role_chars(OrganizationRole::Owner) == "owner"@,
        role_chars(OrganizationRole::Admin) == "admin"@,
        role_chars(OrganizationRole::Member) == "member"@,
        role_of(Some(word)) == Some(role) <==> word@ == role_chars(role),
        role_of_word(word@) == Some(role) <==> word@ == role_chars(role),
        role_of(None) is None,
{
    reveal_strlit("owner");
    reveal_strlit("admin");
    reveal_strlit("member");
    assert("owner"@.len() == 5);
    assert("admin"@.len() == 5);
    assert("member"@.len() == 6);
    assert("owner"@[0] != "admin"@[0]);
}

/// Members are stored under the word for their kind and come back as they are.
pub proof fn law_members_are_read_as_stored(member: ActorRef, id: Candidate, word: Seq<char>)
    requires
        id.text == member.id,
    ensures
        kind_chars(ActorKind::Carbon) == "carbon"@,
        kind_chars(ActorKind::Silicon) == "silicon"@,
        id.accepted ==> actor_ref_of(kind_chars(member.kind), id) == Ok::<
            ActorRef,
            MetadataRepositoryError,
        >(member),
        actor_ref_of(word, id) is Ok <==> id.accepted && (word == "carbon"@ || word == "silicon"@),
{
    reveal_strlit("carbon");
    reveal_strlit("silicon");
    assert("carbon"@.len() == 6);
    assert("silicon"@.len() == 7);
}

/// The words for kinds of entries name them, and no other word does.
pub proof fn law_entry_kinds_have_words(word: Seq<char>)
    ensures
        entry_kind_of(word) == Some(EntryKind::File) <==> word == "file"@,
        entry_kind_of(word) == Some(EntryKind::Folder) <==> word == "folder"@,
{
    reveal_strlit("file");
    reveal_strlit("folder");
    assert("file"@.len() == 4);
    assert("folder"@.len() == 6);
}

/// The words for reserved folders name them, and no other word does.
pub proof fn law_reserved_folders_have_words(word: Seq<char>)
    ensures
        system_kind_of(word) == Some(SystemEntryKind::PublicContainer) <==> word == "public_root"@,
        system_kind_of(word) == Some(SystemEntryKind::PrivateContainer) <==> word
            == "private_root"@,
        system_kind_of(word) == Some(SystemEntryKind::TagRoot) <==> word == "tag_root"@,
        system_kind_of(word) == Some(SystemEntryKind::PrivateActorFolder) <==> word
            == "actor_root"@ || word == "app_container"@,
{
    reveal_strlit("public_root");
    reveal_strlit("private_root");
    reveal_strlit("tag_root");
    reveal_strlit("actor_root");
    reveal_strlit("app_container");
    assert("public_root"@.len() == 11);
    assert("private_root"@.len() == 12);
    assert("tag_root"@.len() == 8);
    assert("actor_root"@.len() == 10);
    assert("app_container"@.len() == 13);
}

/// A boundary is read from the word for it, and a tag's boundary carries the
/// name of the tag.
pub proof fn law_boundaries_have_words(word: Seq<char>, tag: Option<Candidate>)
    ensures
        boundary_of(word, tag) == Ok::<EntryBoundary, MetadataRepositoryError>(
            EntryBoundary::Public,
        ) <==> word == "public"@,
        boundary_of(word, tag) == Ok::<EntryBoundary, MetadataRepositoryError>(
            EntryBoundary::Private,
        ) <==> word == "private"@,
        word == "tag"@ ==> (boundary_of(word, tag) is Ok <==> (tag matches Some(name)
            && name.accepted)),
        boundary_of(word, tag) matches Ok(EntryBoundary::Tag { tag: name }) ==> word == "tag"@
            && tag is Some && name == tag->0.text,
{
    reveal_strlit("public");
    reveal_strlit("private");
    reveal_strlit("tag");
    assert("public"@.len() == 6);
    assert("private"@.len() == 7);
    assert("tag"@.len() == 3);
}

/// Boundaries are the same exactly where they are of one kind and, for tags, of
/// one name.
pub proof fn law_boundaries_are_kept_apart(left: EntryBoundary, right: EntryBoundary)
    ensures
        left.same_boundary(right) <==> right.same_boundary(left),
        left.same_boundary(left),
        left is Public ==> (left.same_boundary(right) <==> right is Public),
        left is Private ==> (left.same_boundary(right) <==> right is Private),
        left.same_boundary(right) ==> left.tag_chars() == right.tag_chars(),
        left is Tag && right is Tag ==> (left.same_boundary(right) <==> left.tag_chars()
            == right.tag_chars()),
        left matches EntryBoundary::Tag { tag } ==> left.tag_chars() == Some(tag@),
        left.tag_chars() is Some <==> left is Tag,
{
}

/// An entry may be changed exactly where it is there, the caller may do what is
/// asked, and the folder is not a reserved one.
pub proof fn law_changes_need_a_capability(
    entry: Option<AuthorizableEntry>,
    capability: Capability,
)
    ensures
        change_error(entry, capability) is None <==> (entry matches Some(found)
            && found.access.permits(capability) && found.system_kind is None),
        change_error(entry, capability) == Some(MetadataRepositoryError::NotFound) <==> entry
            is None,
        change_error(entry, capability) is Some && entry is Some ==> change_error(entry, capability)
            == Some(MetadataRepositoryError::Conflict),
{
}

/// A key runs an operation once: it is acquired where it is new, answered from
/// the finished operation it belongs to, and taken over only from the same
/// request when that one's time is up.
pub proof fn law_keys_run_an_operation_once(
    metadata: MutationMetadata,
    resource_id: Option<u128>,
    inserted: bool,
    existing: Option<IdempotencyState>,
    now: i128,
)
    ensures
        inserted || metadata.idempotency_key is None ==> claim_of(
            metadata,
            resource_id,
            inserted,
            existing,
            now,
        ) == Ok::<ClaimStep, MetadataRepositoryError>(
            ClaimStep::Claimed { claim: IdempotencyClaim::Acquired(resource_id) },
        ),
        !inserted && metadata.idempotency_key is Some ==> {
            let step = claim_of(metadata, resource_id, inserted, existing, now);
            let same_request = existing is Some && existing->0.request_hash@
                == metadata.request_fingerprint@;
            &&& step is Ok <==> same_request && (existing->0.status@ == "completed"@ || (
            existing->0.status@ == "in_progress"@ && existing->0.locked_until <= now))
            &&& step is Ok && existing->0.status@ == "completed"@ ==> step == Ok::<
                ClaimStep,
                MetadataRepositoryError,
            >(ClaimStep::Claimed { claim: IdempotencyClaim::Replay(existing->0.resource_id) })
            &&& step is Ok && existing->0.status@ == "in_progress"@ ==> step == Ok::<
                ClaimStep,
                MetadataRepositoryError,
            >(ClaimStep::TakeOver)
        },
{
    reveal_strlit("completed");
    reveal_strlit("in_progress");
    assert("completed"@.len() == 9);
    assert("in_progress"@.len() == 11);
}

/// A claimed operation runs on the identifier it acquired, or is answered with
/// the one it replays; without an identifier it does neither.
pub proof fn law_claims_name_their_resource(
    claim: IdempotencyClaim,
    accepted: bool,
    check_replay: bool,
    id: u128,
)
    ensures
        resource_claim_of(claim, accepted, check_replay) == Ok::<
            ResourceClaim,
            MetadataRepositoryError,
        >(ResourceClaim::Run { id }) <==> accepted && claim == IdempotencyClaim::Acquired(Some(id)),
        resource_claim_of(claim, accepted, check_replay) == Ok::<
            ResourceClaim,
            MetadataRepositoryError,
        >(ResourceClaim::Replay { id }) <==> (accepted || !check_replay) && claim
            == IdempotencyClaim::Replay(Some(id)),
        claim == IdempotencyClaim::Acquired(None) || claim == IdempotencyClaim::Replay(None)
            ==> resource_claim_of(claim, accepted, check_replay) == Err::<
            ResourceClaim,
            MetadataRepositoryError,
        >(MetadataRepositoryError::Conflict),
{
}

} // verus!
