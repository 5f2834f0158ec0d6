//! What is read of what is stored: lists, cursors, keys and localized answers.

use vstd::arithmetic::power::{lemma_pow0, lemma_pow1, lemma_pow_adds, pow};
use vstd::prelude::*;
use vstd::utf8::encode_utf8;

use crate::encoding::{
    big_endian_of, number_of, sha256_of, signed_number_of, url_base64, url_base64_decoded,
};
use crate::error::MetadataRepositoryError;
use crate::iam::canonical::{localized, IdentityChars, LocalKeys};
use crate::iam::directory::{context_of_member, found_actor, Resolution};
use crate::ids::{hyphenated_chars, parsed_id};
use crate::json::Json;
use crate::model::{ActorKind, AuthorizableEntry, RequestAuthContext};
use crate::postgres::metadata::common::{
    actor_ref_of, authorizable_error, authorizable_of_row, grant_error, grants_error,
    ResolvedGrantRow,
};
use crate::postgres::metadata::listing::{
    activities_error, activity_error, cursor_bytes, entries_error, entries_of_facts,
    grant_rows_error, version_error, versions_error, ActivityRow, EntryFacts, VersionRow,
};
use crate::postgres::metadata::notifications::{
    notification_error, notifications_error, recipients_error, NotificationRow, RecipientRow,
};
use crate::postgres::models::PermissionGrantRow;
use crate::postgres::roots::{
    tag_name_current, tag_names_current, ExistingSystemRoot, ProjectedTag, RootSibling,
    SystemRootExpectation,
};
use crate::postgres::sharing::logged_child_of;
use crate::postgres::{id_or_empty, lock_key_of};

verus! {

/// A page of entries is read exactly where each of its rows is, and fails as the first
/// row that cannot be read.
pub proof fn law_the_first_malformed_entry_fails_a_page(rows: Seq<EntryFacts>, bad: int)
    requires
        0 <= bad <= rows.len(),
        forall|k: int| 0 <= k < bad ==> authorizable_error((#[trigger] rows[k]).row, rows[k].tag) is None,
        bad < rows.len() ==> authorizable_error(rows[bad].row, rows[bad].tag) is Some,
    ensures
        entries_error(rows) == if bad < rows.len() {
            authorizable_error(rows[bad].row, rows[bad].tag)
        } else {
            None
        },
    decreases rows.len(),
{
    if rows.len() > 0 {
        let front = rows.drop_last();
        let earlier = if bad < front.len() {
            bad
        } else {
            front.len() as int
        };
        law_the_first_malformed_entry_fails_a_page(front, earlier);
    }
}

/// A list of versions is read exactly where each of its rows is, and fails as the first
/// row that cannot be read.
pub proof fn law_the_first_malformed_version_fails_a_list(rows: Seq<VersionRow>, bad: int)
    requires
        0 <= bad <= rows.len(),
        forall|k: int| 0 <= k < bad ==> version_error(#[trigger] rows[k]) is None,
        bad < rows.len() ==> version_error(rows[bad]) is Some,
    ensures
        versions_error(rows) == if bad < rows.len() {
            version_error(rows[bad])
        } else {
            None
        },
    decreases rows.len(),
{
    if rows.len() > 0 {
        let front = rows.drop_last();
        let earlier = if bad < front.len() {
            bad
        } else {
            front.len() as int
        };
        law_the_first_malformed_version_fails_a_list(front, earlier);
    }
}

/// A log is read exactly where each of its rows is, and fails as the first
/// row that cannot be read.
pub proof fn law_the_first_malformed_event_fails_a_log(rows: Seq<ActivityRow>, bad: int)
    requires
        0 <= bad <= rows.len(),
        forall|k: int| 0 <= k < bad ==> activity_error(#[trigger] rows[k]) is None,
        bad < rows.len() ==> activity_error(rows[bad]) is Some,
    ensures
        activities_error(rows) == if bad < rows.len() {
            activity_error(rows[bad])
        } else {
            None
        },
    decreases rows.len(),
{
    if rows.len() > 0 {
        let front = rows.drop_last();
        let earlier = if bad < front.len() {
            bad
        } else {
            front.len() as int
        };
        law_the_first_malformed_event_fails_a_log(front, earlier);
    }
}

/// A list of grants is read exactly where each of its rows is, and fails as the first
/// row that cannot be read.
pub proof fn law_the_first_malformed_grant_fails_a_list(rows: Seq<PermissionGrantRow>, bad: int)
    requires
        0 <= bad <= rows.len(),
        forall|k: int| 0 <= k < bad ==> grant_error(#[trigger] rows[k]) is None,
        bad < rows.len() ==> grant_error(rows[bad]) is Some,
    ensures
        grant_rows_error(rows) == if bad < rows.len() {
            grant_error(rows[bad])
        } else {
            None
        },
    decreases rows.len(),
{
    if rows.len() > 0 {
        let front = rows.drop_last();
        let earlier = if bad < front.len() {
            bad
        } else {
            front.len() as int
        };
        law_the_first_malformed_grant_fails_a_list(front, earlier);
    }
}

/// A overview of grants is read exactly where each of its rows is, and fails as the first
/// row that cannot be read.
pub proof fn law_the_first_malformed_grant_fails_an_overview(rows: Seq<ResolvedGrantRow>, bad: int)
    requires
        0 <= bad <= rows.len(),
        forall|k: int| 0 <= k < bad ==> grant_error((#[trigger] rows[k]).grant) is None,
        bad < rows.len() ==> grant_error(rows[bad].grant) is Some,
    ensures
        grants_error(rows) == if bad < rows.len() {
            grant_error(rows[bad].grant)
        } else {
            None
        },
    decreases rows.len(),
{
    if rows.len() > 0 {
        let front = rows.drop_last();
        let earlier = if bad < front.len() {
            bad
        } else {
            front.len() as int
        };
        law_the_first_malformed_grant_fails_an_overview(front, earlier);
    }
}

/// A list of notifications is read exactly where each of its rows is, and fails as the first
/// row that cannot be read.
pub proof fn law_the_first_malformed_notification_fails_a_list(rows: Seq<NotificationRow>, bad: int)
    requires
        0 <= bad <= rows.len(),
        forall|k: int| 0 <= k < bad ==> notification_error(#[trigger] rows[k]) is None,
        bad < rows.len() ==> notification_error(rows[bad]) is Some,
    ensures
        notifications_error(rows) == if bad < rows.len() {
            notification_error(rows[bad])
        } else {
            None
        },
    decreases rows.len(),
{
    if rows.len() > 0 {
        let front = rows.drop_last();
        let earlier = if bad < front.len() {
            bad
        } else {
            front.len() as int
        };
        law_the_first_malformed_notification_fails_a_list(front, earlier);
    }
}

/// The members to tell are read exactly where each of them is, and reading them
/// fails as the first one that cannot be read.
pub proof fn law_the_first_malformed_recipient_fails_a_list(rows: Seq<RecipientRow>, bad: int)
    requires
        0 <= bad <= rows.len(),
        forall|k: int|
            0 <= k < bad ==> actor_ref_of((#[trigger] rows[k]).actor_type@, rows[k].actor_id) is Ok,
        bad < rows.len() ==> actor_ref_of(rows[bad].actor_type@, rows[bad].actor_id) is Err,
    ensures
        bad == rows.len() ==> recipients_error(rows) is None,
        bad < rows.len() ==> recipients_error(rows) == Some(
            actor_ref_of(rows[bad].actor_type@, rows[bad].actor_id)->Err_0,
        ),
    decreases rows.len(),
{
    if rows.len() > 0 {
        let front = rows.drop_last();
        let earlier = if bad < front.len() {
            bad
        } else {
            front.len() as int
        };
        law_the_first_malformed_recipient_fails_a_list(front, earlier);
    }
}

/// A page shows as many entries as were read, each in its place.
pub proof fn law_pages_show_what_was_read(
    entries: Seq<AuthorizableEntry>,
    facts: Seq<EntryFacts>,
    position: int,
)
    requires
        entries_of_facts(entries, facts),
    ensures
        entries.len() == facts.len(),
        0 <= position < facts.len() ==> authorizable_of_row(
            entries[position],
            facts[position].row,
            facts[position].tag,
            facts[position].access,
        ),
{
}

/// A cursor that is not given starts at the beginning, one that was handed out is
/// read back as it was, and any other text is refused.
pub proof fn law_cursors_are_read_back(text: &str, bytes: Seq<u8>)
    ensures
        cursor_bytes(None) == Ok::<Option<Seq<u8>>, MetadataRepositoryError>(None),
        text@ == url_base64(bytes) && url_base64_decoded(text@) == Some(bytes) ==> cursor_bytes(
            Some(text),
        ) == Ok::<Option<Seq<u8>>, MetadataRepositoryError>(Some(bytes)),
        url_base64_decoded(text@) is None <==> cursor_bytes(Some(text)) == Err::<
            Option<Seq<u8>>,
            MetadataRepositoryError,
        >(MetadataRepositoryError::InvalidCursor),
{
}

/// A number is read back from as many bytes as hold it, and bytes are given back
/// by the number that they hold.
pub proof fn law_numbers_are_read_back(value: nat, count: nat, bytes: Seq<u8>)
    ensures
        big_endian_of(value, count).len() == count,
        value < pow(256, count) ==> number_of(big_endian_of(value, count)) == value,
        number_of(bytes) < pow(256, bytes.len()),
        big_endian_of(number_of(bytes), bytes.len()) == bytes,
    decreases count + bytes.len(),
{
    lemma_pow0(256);
    lemma_pow1(256);
    if count > 0 {
        let fewer = (count - 1) as nat;
        law_numbers_are_read_back(value / 256, fewer, Seq::empty());
        lemma_pow_adds(256, fewer, 1);
        assert(big_endian_of(value, count).drop_last() =~= big_endian_of(value / 256, fewer));
        assert(value / 256 < pow(256, fewer) <== value < pow(256, fewer) * 256)
            by (nonlinear_arith);
        assert((value / 256) * 256 + value % 256 == value) by (nonlinear_arith);
    } else if bytes.len() > 0 {
        let front = bytes.drop_last();
        law_numbers_are_read_back(0, 0, front);
        lemma_pow_adds(256, front.len(), 1);
        let number = number_of(front);
        let last = bytes.last() as nat;
        assert((number * 256 + last) / 256 == number && (number * 256 + last) % 256 == last)
            by (nonlinear_arith)
            requires
                last < 256,
        ;
        assert(number * 256 + last < pow(256, front.len()) * 256) by (nonlinear_arith)
            requires
                number + 1 <= pow(256, front.len()),
                last < 256,
        ;
        assert(front.push(bytes.last()) =~= bytes);
    } else {
        assert(bytes =~= Seq::empty());
    }
    if count > 0 {
        law_numbers_are_read_back(0, 0, bytes);
    }
}

/// Eight bytes hold every signed number: the lower half as it is, the upper half
/// below zero.
pub proof fn law_signed_numbers_wrap_around(bytes: Seq<u8>)
    requires
        bytes.len() >= 8,
    ensures
        i64::MIN <= signed_number_of(bytes) <= i64::MAX,
        signed_number_of(bytes) >= 0 ==> signed_number_of(bytes) == number_of(bytes.take(8)),
        signed_number_of(bytes) < 0 ==> signed_number_of(bytes) + 0x1_0000_0000_0000_0000
            == number_of(bytes.take(8)),
{
    law_numbers_are_read_back(0, 0, bytes.take(8));
    lemma_pow1(256);
    lemma_pow_adds(256, 1, 1);
    assert(pow(256, 2) == 0x1_0000);
    lemma_pow_adds(256, 2, 2);
    assert(pow(256, 4) == 0x1_0000_0000);
    lemma_pow_adds(256, 4, 4);
    assert(pow(256, 8) == 0x1_0000_0000_0000_0000);
}

/// The lock of an environment is made of the digest of its purpose and of the
/// sixteen bytes of its identifier.
pub proof fn law_environments_have_locks_of_their_own(environment_id: u128, bytes: Seq<u8>)
    requires
        bytes.len() == 16,
        number_of(bytes) == environment_id,
    ensures
        lock_key_of(environment_id) == signed_number_of(
            sha256_of(
                encode_utf8("silicon-briefcase/testing-environment-clean-fence/v1"@) + bytes,
            ),
        ) as i64,
{
    law_numbers_are_read_back(0, 0, bytes);
}

/// A transaction names its environment, and the live plane by nothing.
pub proof fn law_transactions_name_their_environment(environment_id: u128)
    ensures
        id_or_empty(Some(environment_id)) == hyphenated_chars(environment_id),
        id_or_empty(None).len() == 0,
{
}

/// The folders of tags are named as they should be exactly where each is.
pub proof fn law_every_tag_folder_is_named(
    tags: Seq<ProjectedTag>,
    siblings: Seq<RootSibling>,
    more: ProjectedTag,
)
    ensures
        tag_names_current(Seq::empty(), siblings),
        tag_names_current(tags.push(more), siblings) <==> tag_names_current(tags, siblings)
            && tag_name_current(more, siblings),
{
    if tag_names_current(tags.push(more), siblings) {
        assert(tags.push(more)[tags.len() as int] == more);
        assert forall|k: int| 0 <= k < tags.len() implies tag_name_current(
            #[trigger] tags[k],
            siblings,
        ) by {
            assert(tags.push(more)[k] == tags[k]);
        }
    }
}

/// An event names the entry below by the identifier in its details, if at all.
pub proof fn law_events_name_entries_below(metadata: Json, text: Seq<char>)
    ensures
        metadata.text_member("entry_id"@) == Some(text) ==> logged_child_of(metadata) == parsed_id(
            text,
        ),
        metadata.text_member("entry_id"@) is None ==> logged_child_of(metadata) is None,
{
}

/// A reserved folder is the expected one exactly where it is a live folder
/// without content, of the kind, at the place and with the tag and owner that are
/// expected.
pub proof fn law_reserved_folders_are_the_expected_ones(
    root: ExistingSystemRoot,
    expected: SystemRootExpectation<'_>,
)
    ensures
        root.matches_expectation(expected) <==> {
            &&& root.identity_exists
            &&& root.deleted_at is None && root.purge_after is None && root.deletion_batch_id
                is None
            &&& root.entry_type@ == "folder"@
            &&& root.origin_app_id is None && root.content_type is None && root.size_bytes is None
                && root.current_version_id is None
            &&& root.system_kind@ == expected.system_kind@
            &&& root.root_type@ == expected.root_type@
            &&& root.parent_id == expected.parent_id
            &&& root.tag_id is Some <==> expected.tag_id is Some
            &&& root.tag_id is Some ==> root.tag_id->0@ == expected.tag_id->0@
            &&& expected.actor_owner matches Some(owner) ==> root.owner_type@ == owner.0@
                && root.owner_id@ == owner.1@
        },
{
}

/// A lookup has one recipient for each member it found, with the authority that
/// the directory lists for that member.
pub proof fn law_lookups_find_members_one_for_one(resolution: Resolution, position: int)
    requires
        resolution.well_formed(),
    ensures
        resolution.found@.len() == resolution.members@.len(),
        0 <= position < resolution.members@.len() ==> context_of_member(
            resolution.found@[position],
            resolution.members@[position],
            resolution.organization@,
            resolution.organization_id,
        ),
{
}

/// A lookup that goes on asks for the same people of the same organization.
pub proof fn law_lookups_keep_what_they_ask_for(before: Resolution, after: Resolution)
    ensures
        after.same_request(before) <==> {
            &&& after.organization == before.organization
            &&& after.organization_id == before.organization_id
            &&& after.recipients == before.recipients
        },
{
}

/// A member is found once a context of this kind and identifier is.
pub proof fn law_found_members_are_known_by_kind_and_identifier(
    found: Seq<RequestAuthContext>,
    more: RequestAuthContext,
    kind: ActorKind,
    id: Seq<char>,
)
    ensures
        !found_actor(Seq::empty(), (kind, id)),
        found_actor(found.push(more), (kind, id)) <==> found_actor(found, (kind, id)) || (
        more.actor.kind == kind && more.actor.id@ == id),
{
    let all = found.push(more);
    if found_actor(found, (kind, id)) {
        let k = choose|k: int|
            0 <= k < found.len() && (#[trigger] found[k]).actor.identity() == (kind, id);
        assert(all[k].actor.identity() == (kind, id));
    }
    if more.actor.kind == kind && more.actor.id@ == id {
        assert(all[found.len() as int].actor.identity() == (kind, id));
    }
    if found_actor(all, (kind, id)) {
        let k = choose|k: int|
            0 <= k < all.len() && (#[trigger] all[k]).actor.identity() == (kind, id);
        assert(k < found.len() ==> found[k].actor.identity() == (kind, id));
    }
}

/// Local keys take the place of an answer's identities, and nothing else of it
/// changes. An introspection is told who it is about.
pub proof fn law_answers_get_local_keys(
    before: Json,
    after: Json,
    identity: IdentityChars,
    keys: LocalKeys,
    key: Seq<char>,
    position: int,
)
    requires
        localized(before, after, identity, keys),
    ensures
        after is Object,
        key != "actor"@ && key != "principal_id"@ && key != "public_id"@ && key != "actor_type"@
            && key != "authorization"@ && key != "authorizations"@ && key != "membership_id"@
            ==> after.member(key) == before.member(key),
        before.member("active"@) is Some ==> {
            &&& after.text_member("principal_id"@) == Some(hyphenated_chars(keys.principal))
            &&& after.text_member("public_id"@) == Some(identity.1)
            &&& after.text_member("actor_type"@) == Some(identity.0)
        },
        before.member("active"@) is None ==> {
            &&& after.member("principal_id"@) == before.member("principal_id"@)
            &&& after.member("public_id"@) == before.member("public_id"@)
            &&& after.member("actor_type"@) == before.member("actor_type"@)
        },
        after.member("actor"@) is Some <==> before.member("actor"@) is Some,
        before.member("actor"@) is Some && before.member("actor"@)->0 is Object ==> {
            &&& after.member("actor"@)->0.text_member("principal_id"@) == Some(
                hyphenated_chars(keys.principal),
            )
            &&& key != "principal_id"@ ==> after.member("actor"@)->0.member(key)
                == before.member("actor"@)->0.member(key)
        },
        after.member("authorization"@) is Some <==> before.member("authorization"@) is Some,
        before.member("authorization"@) is Some && before.member("authorization"@)->0 is Object
            ==> {
            let snapshot = after.member("authorization"@)->0;
            &&& snapshot is Object
            &&& snapshot.text_member("principal_id"@) == Some(hyphenated_chars(keys.principal))
            &&& snapshot.text_member("membership_id"@) == Some(hyphenated_chars(keys.snapshots@[0]))
        },
        before.member("authorizations"@) is None ==> after.member("authorizations"@) is None,
        before.member("authorizations"@) is Some && before.member("authorizations"@)->0 is Array
            ==> after.array_member("authorizations"@).len() == before.array_member(
            "authorizations"@,
        ).len(),
        before.member("authorizations"@) is Some && before.member("authorizations"@)->0 is Array
            && 0 <= position < before.array_member("authorizations"@).len() && before.array_member(
            "authorizations"@,
        )[position] is Object ==> {
            let snapshot = after.array_member("authorizations"@)[position];
            &&& snapshot is Object
            &&& snapshot.text_member("principal_id"@) == Some(hyphenated_chars(keys.principal))
            &&& snapshot.text_member("membership_id"@) == Some(
                hyphenated_chars(keys.snapshots@[position]),
            )
        },
        before.text_member("membership_id"@) is Some ==> after.text_member("membership_id"@)
            == Some(hyphenated_chars(keys.membership->0)),
        before.text_member("membership_id"@) is None ==> after.member("membership_id"@)
            == before.member("membership_id"@),
{
}

} // verus!
