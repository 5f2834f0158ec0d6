//! Tenants and planes, the folders that every organization has, its quota, and
//! what its members are shown of it page by page.

use vstd::prelude::*;

use crate::clock::{instant_of_timestamp, instant_plus_seconds, representable, seconds_to_midnight};
use crate::error::{
    is_conflict_code, map_metadata_spec, map_sql_spec, usage_error_spec, AppError,
    MetadataRepositoryError, SqlFailure, UploadLimit,
};
use crate::ids::{hyphenated_chars, simple_chars};
use crate::json::{member_of, Json, JsonMember};
use crate::model::TestingEnvironmentContext;
use crate::order::bytes_precede;
use crate::postgres::metadata::common::{
    actor_ref_of, authorizable_error, grants_of_rows, same_set, ResolvedGrantRow,
    ResolvedGrantScope, ResolvedPermissionGrant,
};
use crate::postgres::metadata::listing::{
    activity_error, activity_of_row, entries_error, kept_rows, page_size_of, version_error,
    version_of_row, version_source_of, ActivityEvent, ActivityRow, EntryFacts, FileVersionView,
    VersionRow, VersionSource,
};
use crate::postgres::quota::{ceiling_of, counter_of, no_usage, refusal, usage_of, UsageRow};
use crate::postgres::roots::{
    base_name, fitted_base, folder_name, is_entry_name, is_first_free, is_name_character,
    name_taken, next_root_action_spec, root_set_ok, root_shape_ok, same_reserved_identity,
    sanitized_character, suffix_of, tag_name_current, ExistingSystemRoot, ProjectedMember,
    ProjectedTag, RootAction, RootEvent, RootSibling, RootTarget,
};
use crate::postgres::{storage_org_chars, DatabaseIdentity, RoleCapabilities, TenantContext};
use crate::text::{decimal, longest_prefix, optional_chars, trim, trim_end, trim_start};

verus! {

/// Production keeps an organization under its own name; an environment keeps it
/// under a name that starts with the environment's, so that no two planes meet.
pub proof fn law_planes_keep_organizations_apart(
    organization: Seq<char>,
    plane: TestingEnvironmentContext,
    context: TenantContext,
    environment: Option<TestingEnvironmentContext>,
)
    ensures
        storage_org_chars(organization, None) == organization,
        storage_org_chars(organization, Some(plane)) == hyphenated_chars(plane.id) + seq![':']
            + organization,
        context.scoped_to(organization, environment) <==> {
            &&& context.org_id@ == storage_org_chars(organization, environment)
            &&& environment is None ==> context.testing_environment_id is None
                && context.testing_environment_control_version is None
            &&& environment is Some ==> context.testing_environment_id == Some(environment->0.id)
                && context.testing_environment_control_version == Some(
                environment->0.control_version,
            )
        },
{
}

/// A role sees every tenant exactly where it is a superuser or bypasses row-level
/// security, and two pools are one database exactly where all that identifies it
/// agrees.
pub proof fn law_roles_and_databases_are_told_apart(
    role: RoleCapabilities,
    left: DatabaseIdentity,
    right: DatabaseIdentity,
)
    ensures
        role.bypasses() <==> role.rolsuper || role.rolbypassrls,
        left.same_database(right) <==> left.system_identifier@ == right.system_identifier@
            && left.database_oid == right.database_oid && left.database_name@
            == right.database_name@,
{
}

/// A reserved folder is a live folder without content whose owner is known.
pub proof fn law_reserved_folders_are_plain(root: ExistingSystemRoot, roots: Seq<ExistingSystemRoot>)
    requires
        root_shape_ok(root, roots),
    ensures
        root.identity_exists,
        root.deleted_at is None && root.purge_after is None && root.deletion_batch_id is None,
        root.entry_type@ == "folder"@,
        root.origin_app_id is None && root.content_type is None && root.size_bytes is None
            && root.current_version_id is None,
        root.system_kind@ == "public_root"@ ==> root.root_type@ == "public"@ && root.parent_id
            is None && root.tag_id is None,
        root.system_kind@ == "private_root"@ ==> root.root_type@ == "private"@ && root.parent_id
            is None && root.tag_id is None,
        root.system_kind@ == "tag_root"@ ==> root.root_type@ == "tag"@ && root.parent_id is None
            && root.tag_id is Some,
        root.system_kind@ == "actor_root"@ ==> root.root_type@ == "private"@ && root.parent_id
            is Some && root.tag_id is None && exists|k: int|
            0 <= k < roots.len() && (#[trigger] roots[k]).entry_id == root.parent_id->0
                && roots[k].system_kind@ == "private_root"@,
        root.system_kind@ == "public_root"@ || root.system_kind@ == "private_root"@
            || root.system_kind@ == "tag_root"@ || root.system_kind@ == "actor_root"@,
{
    reveal_strlit("public_root");
    reveal_strlit("private_root");
    reveal_strlit("tag_root");
    reveal_strlit("actor_root");
    assert("public_root"@.len() == 11);
    assert("private_root"@.len() == 12);
    assert("tag_root"@.len() == 8);
    assert("actor_root"@.len() == 10);
    if root.system_kind@ == "actor_root"@ {
        let k = choose|k: int|
            0 <= k < roots.len() && (#[trigger] roots[k]).system_kind@ == "private_root"@
                && roots[k].entry_id == root.parent_id->0;
        assert(roots[k].entry_id == root.parent_id->0);
    }
}

/// A live folder for the public, for everyone's private folders or for a tag is a
/// well-shaped reserved folder.
pub proof fn law_well_shaped_folders_are_accepted(
    root: ExistingSystemRoot,
    roots: Seq<ExistingSystemRoot>,
)
    requires
        root.identity_exists,
        root.deleted_at is None && root.purge_after is None && root.deletion_batch_id is None,
        root.entry_type@ == "folder"@,
        root.origin_app_id is None && root.content_type is None && root.size_bytes is None
            && root.current_version_id is None,
        root.parent_id is None,
    ensures
        root.system_kind@ == "public_root"@ && root.root_type@ == "public"@ && root.tag_id is None
            ==> root_shape_ok(root, roots),
        root.system_kind@ == "private_root"@ && root.root_type@ == "private"@ && root.tag_id is None
            ==> root_shape_ok(root, roots),
        root.system_kind@ == "tag_root"@ && root.root_type@ == "tag"@ && root.tag_id is Some
            ==> root_shape_ok(root, roots),
{
    reveal_strlit("public_root");
    reveal_strlit("private_root");
    reveal_strlit("tag_root");
    assert("public_root"@.len() == 11);
    assert("private_root"@.len() == 12);
    assert("tag_root"@.len() == 8);
}

/// Every organization has one folder for the public, one for its private folders,
/// one for each tag and one for each member.
pub proof fn law_reserved_folders_are_there_once(
    roots: Seq<ExistingSystemRoot>,
    first: int,
    second: int,
)
    requires
        root_set_ok(roots),
        0 <= first < second < roots.len(),
    ensures
        roots[first].system_kind@ == roots[second].system_kind@ ==> {
            &&& roots[first].system_kind@ != "public_root"@
            &&& roots[first].system_kind@ != "private_root"@
            &&& roots[first].system_kind@ == "tag_root"@ ==> optional_chars(roots[first].tag_id)
                != optional_chars(roots[second].tag_id)
            &&& roots[first].system_kind@ == "actor_root"@ ==> roots[first].owner_type@
                != roots[second].owner_type@ || roots[first].owner_id@ != roots[second].owner_id@
        },
        root_shape_ok(roots[first], roots) && root_shape_ok(roots[second], roots),
        same_reserved_identity(roots[first], roots[first]),
{
    reveal_strlit("public_root");
    reveal_strlit("private_root");
    reveal_strlit("tag_root");
    reveal_strlit("actor_root");
    assert("public_root"@.len() == 11);
    assert("private_root"@.len() == 12);
    assert("tag_root"@.len() == 8);
    assert("actor_root"@.len() == 10);
    assert(!same_reserved_identity(roots[first], roots[second]));
}

/// A reserved folder is called what it is preferred to be called, where that fits
/// as the name of an entry.
pub proof fn law_folders_are_called_as_preferred(
    preferred: Seq<char>,
    namespace: Seq<char>,
    entry_id: u128,
)
    requires
        is_entry_name(preferred),
    ensures
        folder_name(preferred, namespace, entry_id, 0) == preferred,
{
    lemma_trimmed(preferred);
    let base = base_name(preferred);
    assert(base =~= preferred) by {
        assert forall|k: int| 0 <= k < preferred.len() implies
            crate::postgres::roots::sanitized_character(#[trigger] preferred[k])
            == preferred[k] by {
            assert(crate::postgres::roots::is_name_character(preferred[k]));
        }
        assert(Seq::new(
            preferred.len(),
            |k: int| crate::postgres::roots::sanitized_character(preferred[k]),
        ) =~= preferred);
    }
    let suffix = suffix_of(namespace, entry_id, 0);
    crate::postgres::roots::lemma_ascii_byte_len(suffix);
    assert(longest_prefix(base, 255) == base);
    assert(trim_end(base) == base);
    assert(fitted_base(base, suffix) + suffix =~= preferred);
}

/// A text without white space around it is what is left when that is taken away.
proof fn lemma_trimmed(text: Seq<char>)
    requires
        text.len() > 0,
        !crate::text::is_white_space(text[0]),
        !crate::text::is_white_space(text.last()),
    ensures
        trim(text) == text,
{
    assert(trim_start(text) == text);
    assert(trim_end(text) == text);
}

/// A folder whose name is taken says in brackets which one it is, and from the
/// second time on how often its name was taken.
pub proof fn law_taken_names_are_told_apart(namespace: Seq<char>, entry_id: u128, attempt: nat)
    ensures
        suffix_of(namespace, entry_id, 0).len() == 0,
        suffix_of(namespace, entry_id, 1) == seq![' ', '['] + namespace + seq!['-'] + simple_chars(
            entry_id,
        ).subrange(20, 32) + seq![']'],
        attempt >= 2 ==> suffix_of(namespace, entry_id, attempt) == seq![' ', '['] + namespace
            + seq!['-'] + simple_chars(entry_id).subrange(20, 32) + seq!['-'] + decimal(attempt)
            + seq![']'],
{
    assert(suffix_of(namespace, entry_id, 1) =~= seq![' ', '['] + namespace + seq!['-']
        + simple_chars(entry_id).subrange(20, 32) + seq![']']);
    if attempt >= 2 {
        assert(suffix_of(namespace, entry_id, attempt) =~= seq![' ', '['] + namespace + seq!['-']
            + simple_chars(entry_id).subrange(20, 32) + seq!['-'] + decimal(attempt) + seq![']']);
    }
}

/// A tag's folder carries the first of its names that no other folder carries.
pub proof fn law_tag_folders_carry_their_first_free_name(
    tag: ProjectedTag,
    siblings: Seq<RootSibling>,
    entry_id: u128,
    name: Seq<char>,
)
    ensures
        tag_name_current(tag, siblings) ==> tag.root_entry_id is Some && tag.root_name is Some
            && exists|attempt: nat|
            attempt < 16 && #[trigger] folder_name(tag.name@, "tag"@, tag.root_entry_id->0, attempt)
                == tag.root_name->0@,
        tag.root_entry_id is Some && tag.root_name is Some && tag.root_name->0@ == folder_name(
            tag.name@,
            "tag"@,
            tag.root_entry_id->0,
            0,
        ) ==> tag_name_current(tag, siblings),
        name_taken(siblings, entry_id, name) <==> exists|k: int|
            0 <= k < siblings.len() && (#[trigger] siblings[k]).entry_id != entry_id
                && siblings[k].name@ == name,
{
    if tag_name_current(tag, siblings) {
        let attempt = choose|attempt: nat| #[trigger]
            is_first_free(tag, tag.root_entry_id->0, tag.root_name->0@, siblings, attempt);
        assert(attempt < 16 && folder_name(tag.name@, "tag"@, tag.root_entry_id->0, attempt)
            == tag.root_name->0@);
    }
    if tag.root_entry_id is Some && tag.root_name is Some && tag.root_name->0@ == folder_name(
        tag.name@,
        "tag"@,
        tag.root_entry_id->0,
        0,
    ) {
        assert(is_first_free(tag, tag.root_entry_id->0, tag.root_name->0@, siblings, 0));
    }
}

/// Each reserved folder is stored as its own kind, inside its own boundary and
/// folder, and belongs to its member or to the custodian.
pub proof fn law_reserved_folders_are_made_as_their_kind(
    target: RootTarget,
    custodian: ProjectedMember,
    entry_id: u128,
    attempt: nat,
)
    ensures
        target is Public ==> target.kind_chars() == "public_root"@ && target.root_type_chars()
            == "public"@ && target.parent() is None && target.tag() is None && target.owner(
            custodian,
        ) == custodian && target.name_at(entry_id, attempt) == folder_name(
            "Public"@,
            "public"@,
            entry_id,
            attempt,
        ),
        target is Private ==> target.kind_chars() == "private_root"@ && target.root_type_chars()
            == "private"@ && target.parent() is None && target.tag() is None && target.owner(
            custodian,
        ) == custodian && target.name_at(entry_id, attempt) == folder_name(
            "Private"@,
            "private"@,
            entry_id,
            attempt,
        ),
        target matches RootTarget::Tag { tag_id, name } ==> target.kind_chars() == "tag_root"@
            && target.root_type_chars() == "tag"@ && target.parent() is None && target.tag()
            == Some(tag_id@) && target.owner(custodian) == custodian && target.name_at(
            entry_id,
            attempt,
        ) == folder_name(name@, "tag"@, entry_id, attempt),
        target matches RootTarget::Actor { private_root_id, member } ==> target.kind_chars()
            == "actor_root"@ && target.root_type_chars() == "private"@ && target.parent() == Some(
            private_root_id,
        ) && target.tag() is None && target.owner(custodian) == member && target.name_at(
            entry_id,
            attempt,
        ) == folder_name(member.actor_id@, member.actor_type@, entry_id, attempt),
        target matches RootTarget::Container { parent_id, member, name } ==> target.kind_chars()
            == "app_container"@ && target.root_type_chars() == "private"@ && target.parent()
            == Some(parent_id) && target.tag() is None && target.owner(custodian) == member
            && target.name_at(entry_id, attempt) == name@ && target.attempt_limit() == 1,
        target !is Container ==> target.attempt_limit() == 16,
{
}

/// A reserved folder that is there is taken; one that is not is inserted under
/// its next name, until no name is left.
pub proof fn law_reserved_folders_are_found_or_made(
    attempts: u8,
    limit: u8,
    found: Option<u128>,
    entry_id: u128,
)
    requires
        attempts < 255,
    ensures
        next_root_action_spec(attempts, limit, RootEvent::LookedUp { found: Some(entry_id) }) == (
        RootAction::Done { entry_id }),
        attempts < limit ==> next_root_action_spec(
            attempts,
            limit,
            RootEvent::LookedUp { found: None },
        ) == (RootAction::Insert { attempt: attempts }),
        attempts >= limit ==> next_root_action_spec(
            attempts,
            limit,
            RootEvent::LookedUp { found: None },
        ) is Exhausted,
        next_root_action_spec(attempts, limit, RootEvent::Inserted { entry_id, inserted: true })
            == (RootAction::Done { entry_id }),
        next_root_action_spec(attempts, limit, RootEvent::Inserted { entry_id, inserted: false })
            == (RootAction::LookUp { attempts: (attempts + 1) as u8 }),
{
}

/// A full day frees up at midnight, and full storage does not free up by itself.
pub proof fn law_daily_limits_end_at_midnight(limit: UploadLimit, now: i128)
    ensures
        refusal(limit, now) matches AppError::UploadLimitExhausted {
            limit: told,
            retry_after_seconds,
        } ==> told == limit && (retry_after_seconds is Some <==> limit
            == UploadLimit::DailyUpload),
        refusal(limit, now) is UploadLimitExhausted,
        limit == UploadLimit::DailyUpload ==> refusal(limit, now)->retry_after_seconds == Some(
            seconds_to_midnight(now as int) as u64,
        ),
{
}

/// From now to midnight is a day at most, and what is counted ends no later than
/// midnight and less than a second before it.
pub proof fn law_midnight_comes_within_a_day(now: int)
    requires
        0 <= now < 200_000_000_000 * 1_000_000_000,
    ensures
        1 <= seconds_to_midnight(now) <= 86_400,
        seconds_to_midnight(now) > 1 ==> {
            let left = 86_400_000_000_000 - now % 86_400_000_000_000;
            &&& seconds_to_midnight(now) * 1_000_000_000 <= left
            &&& left < (seconds_to_midnight(now) + 1) * 1_000_000_000
        },
{
}

/// Counters are read as they are stored, and a limit that is not there is none.
pub proof fn law_usage_is_read_as_stored(row: UsageRow)
    requires
        row.daily_upload_bytes >= 0,
        row.stored_bytes >= 0,
    ensures
        usage_of(row).daily_upload_bytes == row.daily_upload_bytes,
        usage_of(row).stored_bytes == row.stored_bytes,
        usage_of(row).daily_upload_limit is Some <==> row.daily_upload_limit is Some,
        usage_of(row).storage_limit is Some <==> row.storage_limit is Some,
        row.daily_upload_limit matches Some(limit) ==> limit >= 0
            ==> usage_of(row).daily_upload_limit->0 == limit,
        row.storage_limit matches Some(limit) ==> limit >= 0 ==> usage_of(row).storage_limit->0
            == limit,
        no_usage().daily_upload_bytes == 0 && no_usage().stored_bytes == 0,
        no_usage().daily_upload_limit is None && no_usage().storage_limit is None,
        ceiling_of(None) is None,
        counter_of(0) == 0,
{
}

/// A page keeps what was asked for, and never more than was read.
pub proof fn law_pages_keep_what_was_asked_for(
    read: nat,
    size: nat,
    limit: u16,
    take: Option<u16>,
)
    ensures
        kept_rows(read, size) <= read && kept_rows(read, size) <= size,
        kept_rows(read, size) == read || kept_rows(read, size) == size,
        page_size_of(limit, take) <= limit,
        take is None ==> page_size_of(limit, take) == limit,
        take matches Some(count) ==> page_size_of(limit, take) <= count && (page_size_of(
            limit,
            take,
        ) == limit || page_size_of(limit, take) == count),
{
}

/// A page of entries is read exactly where each of them is, and shows each of
/// them in its place.
pub proof fn law_pages_show_each_entry_in_its_place(
    facts: Seq<EntryFacts>,
    position: int,
)
    requires
        entries_error(facts) is None,
        0 <= position < facts.len(),
    ensures
        authorizable_error(facts[position].row, facts[position].tag) is None,
    decreases facts.len(),
{
    if position < facts.len() - 1 {
        law_pages_show_each_entry_in_its_place(facts.drop_last(), position);
    }
}

/// The words for where a version comes from name it, and a restored one names
/// what it restores.
pub proof fn law_versions_say_where_they_come_from(row: VersionRow)
    ensures
        version_source_of(row) is Ok <==> row.source@ == "upload"@ || (row.source@ == "restore"@
            && row.restored_from_version_id is Some && row.restored_from_version_id->0.accepted),
        version_source_of(row) matches Ok(source) ==> (source is InitialUpload <==> row.source@
            == "upload"@),
        version_source_of(row) matches Ok(VersionSource::Restore { source_version_id })
            ==> source_version_id == row.restored_from_version_id->0.value,
{
    reveal_strlit("upload");
    reveal_strlit("restore");
    assert("upload"@.len() == 6);
    assert("restore"@.len() == 7);
}

/// A stored version is shown as it is stored, and read exactly where each of its
/// columns can be.
pub proof fn law_stored_versions_are_shown_as_stored(view: FileVersionView, row: VersionRow)
    ensures
        version_error(row) is None <==> {
            &&& version_source_of(row) is Ok
            &&& row.version_id.accepted && row.version_number >= 0 && row.number_accepted
            &&& row.size_bytes >= 0
            &&& actor_ref_of(row.created_by_type@, row.created_by_id) is Ok
        },
        version_of_row(view, row) ==> {
            &&& view.id == row.version_id.value
            &&& view.number == row.version_number
            &&& view.size == row.size_bytes
            &&& actor_ref_of(row.created_by_type@, row.created_by_id)->Ok_0 == view.created_by
            &&& version_source_of(row)->Ok_0 == view.source
            &&& view.created_at == row.created_at
        },
{
}

/// Stored activity is shown as it is stored; an empty application is none.
pub proof fn law_stored_activity_is_shown_as_stored(event: ActivityEvent, row: ActivityRow)
    ensures
        activity_error(row) is None <==> {
            &&& actor_ref_of(row.actor_type@, row.actor_id) is Ok
            &&& row.origin_app_id is Some && row.origin_app_id->0.text@.len() > 0
                ==> row.origin_app_id->0.accepted
        },
        activity_of_row(event, row) ==> {
            &&& event.action == row.action
            &&& actor_ref_of(row.actor_type@, row.actor_id)->Ok_0 == event.actor
            &&& event.application_id is Some <==> row.origin_app_id is Some
                && row.origin_app_id->0.text@.len() > 0
            &&& event.application_id is Some ==> event.application_id->0
                == row.origin_app_id->0.text
            &&& event.occurred_at == row.occurred_at
        },
{
}

/// Grants are told apart by where they were made: on the entry, or above it.
pub proof fn law_grants_keep_where_they_were_made(
    grants: Seq<ResolvedPermissionGrant>,
    rows: Seq<ResolvedGrantRow>,
    position: int,
)
    requires
        grants_of_rows(grants, rows),
        0 <= position < rows.len(),
    ensures
        grants.len() == rows.len(),
        grants[position].scope == ResolvedGrantScope::Direct <==> rows[position].depth == 0,
        grants[position].grant.id == rows[position].grant.grant_id.value,
{
}

/// Two sets of texts are the same exactly where each text is in both or in none.
pub proof fn law_sets_hold_the_same_texts(left: Seq<String>, right: Seq<String>, text: Seq<char>)
    ensures
        same_set(left, left),
        same_set(left, right) ==> same_set(right, left),
        same_set(left, right) && (exists|k: int| 0 <= k < left.len() && (#[trigger] left[k])@ == text)
            ==> exists|k: int| 0 <= k < right.len() && (#[trigger] right[k])@ == text,
{
    if same_set(left, right) {
        assert(crate::order::lists(left, text) == crate::order::lists(right, text));
    }
}

/// Every failure of the database is reported as what it is to the caller.
pub proof fn law_database_failures_are_told_apart(
    failure: SqlFailure,
    error: MetadataRepositoryError,
    code: Seq<char>,
)
    ensures
        map_sql_spec(failure) == MetadataRepositoryError::NotFound <==> failure is RowNotFound,
        map_sql_spec(failure) == MetadataRepositoryError::Unavailable <==> failure is PoolTimedOut
            || failure is PoolClosed || failure is Io,
        map_sql_spec(failure) == MetadataRepositoryError::Conflict <==> (failure matches SqlFailure::Database {
            code: Some(state),
        } && is_conflict_code(state@)),
        is_conflict_code(code) <==> code == "23503"@ || code == "23505"@ || code == "23514"@ || code
            == "40001"@ || code == "40P01"@,
        map_metadata_spec(error) == AppError::NotFound <==> error is NotFound,
        error is Conflict ==> map_metadata_spec(error) == (AppError::Conflict {
            code: "metadata_conflict",
        }),
        error is Unavailable ==> map_metadata_spec(error) == (AppError::DependencyUnavailable {
            dependency: "postgresql",
        }),
        error is InvalidCursor ==> map_metadata_spec(error) == (AppError::BadRequest {
            code: "invalid_cursor",
        }),
        error is Internal ==> map_metadata_spec(error) == (AppError::Internal {
            category: "database_operation",
        }),
        usage_error_spec(error) == AppError::NotFound <==> error is NotFound,
        error is Conflict ==> usage_error_spec(error) == (AppError::Conflict {
            code: "organization_usage_conflict",
        }),
        error !is NotFound && error !is Conflict ==> usage_error_spec(error) == (AppError::Internal {
            category: "organization_usage",
        }),
{
}

/// An instant is counted in nanoseconds from the Unix epoch, and adding seconds
/// moves it by as many.
pub proof fn law_instants_are_counted_in_nanoseconds(seconds: int, instant: int, more: int)
    ensures
        instant_of_timestamp(seconds) matches Some(at) ==> at == seconds * 1_000_000_000,
        instant_of_timestamp(0) == Some(0i128),
        instant_plus_seconds(instant, more) matches Some(at) ==> at == instant + more
            * 1_000_000_000,
        instant_plus_seconds(instant, more) is Some <==> representable(instant) && representable(
            instant + more * 1_000_000_000,
        ),
{
}

/// A document's member is the first that carries the key, and only objects have
/// members.
pub proof fn law_documents_have_members(
    members: Seq<JsonMember>,
    first: JsonMember,
    key: Seq<char>,
    document: Json,
)
    ensures
        member_of(Seq::<JsonMember>::empty(), key) is None,
        first.key@ == key ==> member_of(seq![first] + members, key) == Some(first.value),
        first.key@ != key ==> member_of(seq![first] + members, key) == member_of(members, key),
        document !is Object ==> document.member(key) is None,
        document.text_member(key) is Some <==> document.member(key) is Some && document.member(
            key,
        )->0 is Text,
        document.integer_member(key) is Some <==> document.member(key) is Some && document.member(
            key,
        )->0 is Integer,
{
    assert((seq![first] + members).drop_first() =~= members);
}

/// Texts are ordered as their bytes are: byte by byte, and a beginning before
/// what goes on.
pub proof fn law_texts_are_ordered_by_their_bytes(
    left: Seq<u8>,
    right: Seq<u8>,
    byte: u8,
    other: u8,
)
    ensures
        !bytes_precede(left, Seq::empty()),
        right.len() > 0 ==> bytes_precede(Seq::empty(), right),
        byte < other ==> bytes_precede(seq![byte] + left, seq![other] + right),
        other < byte ==> !bytes_precede(seq![byte] + left, seq![other] + right),
        bytes_precede(seq![byte] + left, seq![byte] + right) <==> bytes_precede(left, right),
{
    assert((seq![byte] + left).drop_first() =~= left);
    assert((seq![byte] + right).drop_first() =~= right);
}

/// Trimming takes white space from both ends, and nothing else.
pub proof fn law_trimming_takes_white_space_only(text: Seq<char>, character: char)
    ensures
        crate::text::is_white_space(character) ==> trim_start(seq![character] + text) == trim_start(
            text,
        ) && trim_end(text.push(character)) == trim_end(text),
        !crate::text::is_white_space(character) ==> trim_start(seq![character] + text) == seq![
            character,
        ] + text && trim_end(text.push(character)) == text.push(character),
        trim_start(Seq::<char>::empty()).len() == 0,
        trim(text) == trim_end(trim_start(text)),
        crate::text::is_white_space(' ') && !crate::text::is_white_space('a'),
{
    assert((seq![character] + text).drop_first() =~= text);
    assert(text.push(character).drop_last() =~= text);
}

/// A folder is named after what is preferred without the white space around it,
/// with a dash for everything that no name may hold. What is left empty, or would
/// be a path of its own, is called by a word.
pub proof fn law_unfit_names_are_mended(preferred: Seq<char>, position: int, base: Seq<char>)
    ensures
        sanitized_character('/') == '-' && sanitized_character('\0') == '-',
        forall|character: char|
            is_name_character(character) && character != '\0' ==> #[trigger] sanitized_character(
                character,
            ) == character,
        forall|character: char|
            !is_name_character(character) ==> #[trigger] sanitized_character(character) == '-',
        trim(preferred).len() == 0 || trim(preferred) == "."@ || trim(preferred) == ".."@
            ==> base_name(preferred) == "Folder"@,
        base_name(preferred) != "Folder"@ ==> base_name(preferred).len() == trim(preferred).len(),
        base_name(preferred) != "Folder"@ && 0 <= position < trim(preferred).len() ==> base_name(
            preferred,
        )[position] == sanitized_character(trim(preferred)[position]),
        fitted_base(base, Seq::empty()) == "Folder"@ || fitted_base(base, Seq::empty()) == trim_end(
            longest_prefix(base, 255),
        ),
        trim_end(longest_prefix(base, 255)).len() == 0 ==> fitted_base(base, Seq::empty())
            == "Folder"@,
{
    reveal_strlit(".");
    reveal_strlit("..");
    crate::postgres::roots::lemma_ascii_byte_len(Seq::empty());
    let trimmed = trim(preferred);
    let made = Seq::new(trimmed.len(), |k: int| sanitized_character(trimmed[k]));
    if trimmed == "."@ {
        assert(trimmed[0] == '.');
        assert(made =~= "."@);
    }
    if trimmed == ".."@ {
        assert(trimmed[0] == '.' && trimmed[1] == '.');
        assert(made =~= ".."@);
    }
}

/// What is not found, over or in conflict is told by its code; every other failure
/// of the database is reported as one.
pub proof fn law_other_database_failures_are_internal(failure: SqlFailure)
    ensures
        failure is Other ==> map_sql_spec(failure) == (MetadataRepositoryError::Internal {
            reason: "database",
        }),
        map_sql_spec(failure) is Internal ==> map_sql_spec(failure) == (
        MetadataRepositoryError::Internal { reason: "database" }),
{
}

/// Reserved folders are the same one exactly where they are of one kind and, for a
/// tag, of one tag or, for a member, of one owner; and a member's folder lies in
/// the private one.
pub proof fn law_reserved_folders_are_told_apart(
    root: ExistingSystemRoot,
    other: ExistingSystemRoot,
    roots: Seq<ExistingSystemRoot>,
)
    ensures
        same_reserved_identity(root, other) <==> {
            &&& root.system_kind@ == other.system_kind@
            &&& root.system_kind@ == "tag_root"@ ==> optional_chars(root.tag_id) == optional_chars(
                other.tag_id,
            )
            &&& root.system_kind@ == "actor_root"@ ==> root.owner_type@ == other.owner_type@
                && root.owner_id@ == other.owner_id@
        },
        root.system_kind@ == "actor_root"@ ==> (root_shape_ok(root, roots) <==> {
            &&& root.parent_id is Some
            &&& crate::postgres::roots::private_root_is(roots, root.parent_id->0)
            &&& root.is_plain_folder()
            &&& root.root_type@ == "private"@
            &&& root.tag_id is None
        }),
{
    reveal_strlit("public_root");
    reveal_strlit("private_root");
    reveal_strlit("tag_root");
    reveal_strlit("actor_root");
    assert("public_root"@.len() == 11);
    assert("private_root"@.len() == 12);
    assert("tag_root"@.len() == 8);
    assert("actor_root"@.len() == 10);
}

} // verus!
