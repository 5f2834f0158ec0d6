//! What is wrong with what is refused. Whatever would be accepted but for one
//! thing is refused for that thing, and what is stored and cannot be read is
//! never mistaken for something that is not there.

use vstd::prelude::*;

use crate::clock::instant_of_timestamp;
use crate::error::{AppError, MetadataRepositoryError};
use crate::iam::canonical::{
    canonical_actor_of, contradiction, membership_chars, public_identity_ok, IdentityChars,
    LocalAuthorization, LocalIntrospection,
};
use crate::iam::claims::{
    application_tokens_error, introspection_error, obo_error, IamEnvironmentCredential, WireActor,
    WireApplicationTokenResponse, WireIntrospectionResponse, WireOboEndpoint, WireOboResponse,
};
use crate::iam::directory::{
    complete_after, directory_member_error, is_wanted, listing_error, listings_error, page_error,
    DirectoryMember, MemberPage, Resolution,
};
use crate::iam::official::{
    authorization_error, obo_request_error, session_error, tag_repeats, tags_error,
    AuthorizationTag,
};
use crate::iam::{fixed_secret_ok, plain_text, scope_set_ok, IamClientError, OboRequestBinding};
use crate::ids::Candidate;
use crate::json::Json;
use crate::model::{
    ActorRef, AuthorizableEntry, Capability, EntryBoundary, GrantedAccess, RequestAuthContext,
};
use crate::postgres::content::delegated::commit::{prepare_refusal, staged_refusal, CommitFacts};
use crate::postgres::content::delegated::reservation::{
    repeat_refusal, repeats, reservation_refusal, room_refusal, ReservationFacts,
    ReserveDelegatedUpload, StagingRoom,
};
use crate::postgres::content::delegated::transfer::{
    claim_refusal, failure_refusal, holds_capability, object_refusal, transfer_refusal,
    DelegatedUploadTransfer,
};
use crate::postgres::content::delegated::{
    cancellation_of, committed_refusal, description_of, destination_refusal, expiry_of, in_scope,
    row_object, UploadRow,
};
use crate::postgres::content::multipart::{
    abort_refusal, completion_error, completion_refusal, folder_refusal, owns_upload, part_error,
    part_refusal, parts_error, publish_completion_refusal, record_refusal, ClientCompletedPart,
    CompletionFacts, MultipartCompletionPreparation, MultipartPartRow, MultipartPlan,
    MultipartUploadRow,
};
use crate::postgres::content::objects::{checksum_of, StoredObject};
use crate::postgres::content::publishing::{next_version_refusal, publication_refusal};
use crate::postgres::content::storage::StorageConfigRow;
use crate::postgres::content::versions::{
    copy_refusal, download_refusal, file_refusal, VersionContentRow,
};
use crate::postgres::content::upload::write_refusal;
use crate::postgres::content::{name_refusal, parent_refusal, NamedChild};
use crate::postgres::metadata::common::{
    access_of, actor_ref_of, authorizable_error, boundary_of, entry_error, entry_kind_of,
    system_kind_of,
};
use crate::postgres::metadata::listing::{version_source_of, VersionRow, VersionSource};
use crate::postgres::metadata::notifications::{kind_of_word, notification_error, NotificationRow};
use crate::postgres::metadata::requests::{request_error, status_of};
use crate::postgres::models::{AccessRequestRow, EntryRow};

verus! {

/// The refusal of a response that is not what the service promised.
pub open spec fn invalid(reason: &'static str) -> Option<IamClientError> {
    Some(IamClientError::InvalidResponse { reason })
}

/// The refusal of a response that is about something else.
pub open spec fn mismatched(binding: &'static str) -> Option<IamClientError> {
    Some(IamClientError::BindingMismatch { binding })
}

/// Whether an error says that stored data could not be read.
pub open spec fn is_unreadable(error: AppError) -> bool {
    error == (AppError::Internal { category: "persisted_data" })
}

/// A token that would be accepted but for one thing is refused for that thing.
pub proof fn law_tokens_are_refused_for_what_is_wrong(
    good: WireIntrospectionResponse,
    organization: Seq<char>,
    application: Seq<char>,
    now: i128,
    other: Candidate,
    text: String,
    epoch: i64,
    until: i64,
)
    requires
        introspection_error(good, organization, application, now) is None,
    ensures
        ({
            let refused = |wire: WireIntrospectionResponse|
                introspection_error(wire, organization, application, now);
            &&& refused(WireIntrospectionResponse { active: false, ..good }) == invalid(
                "inactive_token_metadata",
            )
            &&& refused(WireIntrospectionResponse { org_id: None, ..good }) == invalid("org_id")
            &&& !other.accepted ==> refused(
                WireIntrospectionResponse { org_id: Some(other), ..good },
            ) == invalid("org_id")
            &&& other.accepted && other.text@ != organization ==> refused(
                WireIntrospectionResponse { org_id: Some(other), ..good },
            ) == mismatched("org_id")
            &&& refused(WireIntrospectionResponse { client_id: None, ..good }) == invalid(
                "client_id",
            )
            &&& text@ != application ==> refused(
                WireIntrospectionResponse { client_id: Some(text), ..good },
            ) == mismatched("client_id")
            &&& refused(WireIntrospectionResponse { audience: None, ..good }) == invalid("audience")
            &&& text@ != application ==> refused(
                WireIntrospectionResponse { audience: Some(text), ..good },
            ) == mismatched("audience")
            &&& refused(WireIntrospectionResponse { issued_at: None, ..good }) == invalid(
                "issued_at",
            )
            &&& refused(WireIntrospectionResponse { expires_at: None, ..good }) == invalid(
                "expires_at",
            )
            &&& instant_of_timestamp(until as int) is None ==> refused(
                WireIntrospectionResponse { issued_at: Some(until), ..good },
            ) == invalid("issued_at")
            &&& instant_of_timestamp(until as int) is None ==> refused(
                WireIntrospectionResponse { expires_at: Some(until), ..good },
            ) == invalid("expires_at")
            &&& instant_of_timestamp(until as int) is Some && until <= good.issued_at->0
                ==> refused(WireIntrospectionResponse { expires_at: Some(until), ..good })
                == invalid("token_lifetime")
            &&& instant_of_timestamp(until as int) is Some && until > good.issued_at->0
                && instant_of_timestamp(until as int)->0 <= now ==> refused(
                WireIntrospectionResponse { expires_at: Some(until), ..good },
            ) == Some(IamClientError::Rejected)
            &&& refused(WireIntrospectionResponse { principal_id: None, ..good }) == invalid(
                "principal_id",
            )
            &&& refused(WireIntrospectionResponse { membership_id: None, ..good }) == invalid(
                "membership_id",
            )
            &&& refused(WireIntrospectionResponse { session_id: None, ..good }) == invalid(
                "session_id",
            )
            &&& refused(WireIntrospectionResponse { scope: None, ..good }) == invalid("scope")
            &&& !scope_set_ok(text@) ==> refused(
                WireIntrospectionResponse { scope: Some(text), ..good },
            ) == invalid("scope")
            &&& refused(WireIntrospectionResponse { authorization_epoch: None, ..good }) == invalid(
                "authorization_epoch",
            )
            &&& epoch < 1 ==> refused(
                WireIntrospectionResponse { authorization_epoch: Some(epoch), ..good },
            ) == invalid("authorization_epoch")
            &&& refused(WireIntrospectionResponse { principal_id: Some(0u128), ..good }) == invalid(
                "token_identity",
            )
            &&& refused(WireIntrospectionResponse { membership_id: Some(0u128), ..good })
                == invalid("token_identity")
            &&& refused(WireIntrospectionResponse { session_id: Some(0u128), ..good }) == invalid(
                "token_identity",
            )
            &&& refused(WireIntrospectionResponse { actor_type: None, ..good }) == invalid(
                "actor_type",
            )
        }),
{
}

/// A token that is over discloses nothing, and is then refused as one that was
/// never there.
pub proof fn law_inactive_tokens_disclose_nothing(
    wire: WireIntrospectionResponse,
    organization: Seq<char>,
    application: Seq<char>,
    now: i128,
)
    requires
        !wire.active,
    ensures
        introspection_error(wire, organization, application, now) == Some(IamClientError::Rejected)
            <==> {
            &&& wire.principal_id is None && wire.actor_type is None && wire.org_id is None
            &&& wire.membership_id is None && wire.session_id is None && wire.scope is None
            &&& wire.client_id is None && wire.audience is None
            &&& wire.authorization_epoch is None && wire.issued_at is None
            &&& wire.expires_at is None
        },
{
}

/// A proof that would be accepted but for one thing is refused for that thing.
pub proof fn law_proofs_are_refused_for_what_is_wrong(
    good: WireOboResponse,
    audience: Seq<char>,
    application: Seq<char>,
    organization: Option<Seq<char>>,
    path: Seq<char>,
    other: Candidate,
    endpoint: WireOboEndpoint,
    actor: WireActor,
    metadata: Json,
    instant: i128,
)
    requires
        obo_error(good, audience, application, organization, path) is None,
    ensures
        ({
            let refused = |wire: WireOboResponse|
                obo_error(wire, audience, application, organization, path);
            &&& refused(WireOboResponse { valid: false, ..good }) == Some(IamClientError::Rejected)
            &&& refused(WireOboResponse { issuer_app_id: None, ..good }) == invalid("issuer_app_id")
            &&& !other.accepted ==> refused(WireOboResponse { issuer_app_id: Some(other), ..good })
                == invalid("issuer_app_id")
            &&& other.accepted && other.text@ != application ==> refused(
                WireOboResponse { issuer_app_id: Some(other), ..good },
            ) == mismatched("issuer_app_id")
            &&& refused(WireOboResponse { audience: None, ..good }) == invalid("audience")
            &&& !other.accepted ==> refused(WireOboResponse { audience: Some(other), ..good })
                == invalid("audience")
            &&& other.accepted && other.text@ != audience ==> refused(
                WireOboResponse { audience: Some(other), ..good },
            ) == mismatched("audience")
            &&& refused(WireOboResponse { endpoint: None, ..good }) == invalid("endpoint")
            &&& endpoint.path@ != path ==> refused(
                WireOboResponse { endpoint: Some(endpoint), ..good },
            ) == mismatched("endpoint.path")
            &&& endpoint.path@ == path && !plain_text(endpoint.endpoint_id@, 128) ==> refused(
                WireOboResponse { endpoint: Some(endpoint), ..good },
            ) == invalid("endpoint.endpoint_id")
            &&& refused(WireOboResponse { org_id: None, ..good }) == invalid("org_id")
            &&& !other.accepted ==> refused(WireOboResponse { org_id: Some(other), ..good })
                == invalid("org_id")
            &&& other.accepted && organization is Some && organization->0 != other.text@ ==> refused(
                WireOboResponse { org_id: Some(other), ..good },
            ) == mismatched("org_id")
            &&& refused(WireOboResponse { expires_at: None, ..good }) == invalid("expires_at")
            &&& refused(WireOboResponse { consumed_at: None, ..good }) == invalid("consumed_at")
            &&& instant > good.expires_at->0 ==> refused(
                WireOboResponse { consumed_at: Some(instant), ..good },
            ) == invalid("consumed_at")
            &&& refused(WireOboResponse { actor: None, ..good }) == invalid("actor")
            &&& actor.principal_id == 0 ==> refused(WireOboResponse { actor: Some(actor), ..good })
                == invalid("actor.principal_id")
            &&& actor.principal_id != 0 && !actor.public_id.accepted ==> refused(
                WireOboResponse { actor: Some(actor), ..good },
            ) == invalid("actor.public_id")
            &&& metadata !is Object && metadata !is Null ==> refused(
                WireOboResponse { metadata: Some(metadata), ..good },
            ) == invalid("metadata")
            &&& refused(WireOboResponse { proof_id: None, ..good }) == invalid("proof_id")
        }),
{
}

/// Exchanged tokens that would be accepted but for one thing are refused for that
/// thing.
pub proof fn law_exchanges_are_refused_for_what_is_wrong(
    good: WireApplicationTokenResponse,
    text: String,
    seconds: i64,
    actor: WireActor,
    other: Candidate,
)
    requires
        application_tokens_error(good) is None,
    ensures
        text@ != "Bearer"@ ==> application_tokens_error(
            WireApplicationTokenResponse { token_type: text, ..good },
        ) == invalid("token_type"),
        seconds != good.expires_in ==> application_tokens_error(
            WireApplicationTokenResponse { expires_in: seconds, ..good },
        ) == invalid("expires_in"),
        !fixed_secret_ok(text@, "oat_"@) ==> application_tokens_error(
            WireApplicationTokenResponse { access_token: text, ..good },
        ) == invalid("access_token"),
        !fixed_secret_ok(text@, "ort_"@) ==> application_tokens_error(
            WireApplicationTokenResponse { refresh_token: text, ..good },
        ) == invalid("refresh_token"),
        !scope_set_ok(text@) ==> application_tokens_error(
            WireApplicationTokenResponse { scope: text, ..good },
        ) == invalid("scope"),
        actor.principal_id == 0 ==> application_tokens_error(
            WireApplicationTokenResponse { actor, ..good },
        ) == invalid("actor.principal_id"),
        actor.principal_id != 0 && !actor.public_id.accepted ==> application_tokens_error(
            WireApplicationTokenResponse { actor, ..good },
        ) == invalid("actor.public_id"),
        !other.accepted ==> application_tokens_error(
            WireApplicationTokenResponse { org_id: Some(other), ..good },
        ) == invalid("org_id"),
        application_tokens_error(WireApplicationTokenResponse { org_id: None, ..good }) is None,
{
}

/// A session that would be accepted but for one thing is refused for that thing.
pub proof fn law_sessions_are_refused_for_what_is_wrong(
    good: LocalIntrospection,
    audience: Seq<char>,
    environment: Option<&IamEnvironmentCredential>,
    now: i64,
    until: i64,
)
    requires
        session_error(good, audience, environment, now) is None,
    ensures
        ({
            let refused = |response: LocalIntrospection|
                session_error(response, audience, environment, now);
            &&& refused(LocalIntrospection { active: false, ..good }) == Some(
                IamClientError::Rejected,
            )
            &&& refused(LocalIntrospection { client_id: None, ..good }) == mismatched(
                "session.audience",
            )
            &&& refused(LocalIntrospection { audience: None, ..good }) == mismatched(
                "session.audience",
            )
            &&& refused(LocalIntrospection { principal_id: None, ..good }) == invalid(
                "session.principal_id",
            )
            &&& refused(LocalIntrospection { principal_id: Some(0u128), ..good }) == invalid(
                "session.principal_id",
            )
            &&& refused(LocalIntrospection { actor_type: None, ..good }) == invalid(
                "session.actor_type",
            )
            &&& refused(LocalIntrospection { expires_at: None, ..good }) == invalid(
                "session.expires_at",
            )
            &&& until <= now ==> refused(LocalIntrospection { expires_at: Some(until), ..good })
                == Some(IamClientError::Rejected)
            &&& refused(LocalIntrospection { authorization: None, authorizations: None, ..good })
                == invalid("session.authorizations")
        }),
{
}

/// A snapshot that would be accepted but for one thing is refused for that thing.
pub proof fn law_snapshots_are_refused_for_what_is_wrong(
    good: LocalAuthorization,
    audience: Seq<char>,
    organization: Seq<char>,
    environment: Option<&IamEnvironmentCredential>,
    other: Candidate,
)
    requires
        authorization_error(good, audience, organization, environment) is None,
    ensures
        ({
            let refused = |snapshot: LocalAuthorization|
                authorization_error(snapshot, audience, organization, environment);
            &&& refused(LocalAuthorization { principal_id: 0, ..good }) == mismatched(
                "authorization.scope",
            )
            &&& refused(LocalAuthorization { membership_id: 0, ..good }) == mismatched(
                "authorization.scope",
            )
            &&& refused(LocalAuthorization { org_role: None, ..good }) == Some(
                IamClientError::Rejected,
            )
            &&& refused(LocalAuthorization { actor_type: None, ..good }) == invalid(
                "authorization.actor_type",
            )
            &&& refused(LocalAuthorization { public_id: None, ..good }) == Some(
                IamClientError::Rejected,
            )
            &&& !other.accepted ==> refused(LocalAuthorization { public_id: Some(other), ..good })
                == invalid("authorization.public_id")
            &&& good.tags is Some ==> refused(LocalAuthorization { tags: None, ..good }) == Some(
                IamClientError::Rejected,
            )
        }),
{
}

/// A request for a proof that cannot be bound names what cannot be bound.
pub proof fn law_unbound_proofs_name_what_is_unbound(
    text: Seq<char>,
    binding: OboRequestBinding<'_>,
)
    ensures
        !fixed_secret_ok(text, "obo_"@) ==> obo_request_error(text, binding) == Some(
            IamClientError::Rejected,
        ),
        fixed_secret_ok(text, "obo_"@) && !plain_text(binding.method@, 16) ==> obo_request_error(
            text,
            binding,
        ) == mismatched("obo.method"),
        fixed_secret_ok(text, "obo_"@) && plain_text(binding.method@, 16) && !plain_text(
            binding.path@,
            2_048,
        ) ==> obo_request_error(text, binding) == mismatched("obo.path"),
        fixed_secret_ok(text, "obo_"@) && plain_text(binding.method@, 16) && plain_text(
            binding.path@,
            2_048,
        ) && !plain_text(binding.body_sha256@, 64) ==> obo_request_error(text, binding)
            == mismatched("obo.body_sha256"),
{
}

/// A listed member that would be accepted but for one thing is refused for that
/// thing.
pub proof fn law_members_are_refused_for_what_is_wrong(
    good: DirectoryMember,
    organization: Seq<char>,
    recipients: Seq<ActorRef>,
    text: String,
    other: Candidate,
)
    requires
        listing_error(good, organization, recipients, false) is None,
        is_wanted(recipients, good),
    ensures
        ({
            let refused = |member: DirectoryMember|
                listing_error(member, organization, recipients, false);
            &&& text@ != organization ==> refused(DirectoryMember { org_id: text, ..good })
                == mismatched("directory.organization")
            &&& refused(DirectoryMember { kind: None, ..good }) == invalid("directory.actor_type")
            &&& !other.accepted ==> refused(DirectoryMember { public_id: other, ..good }) == invalid(
                "directory.public_id",
            )
            &&& listing_error(good, organization, recipients, true) == invalid(
                "directory.duplicate_member",
            )
        }),
        directory_member_error(DirectoryMember { active: false, ..good }) == invalid(
            "directory.membership",
        ),
        directory_member_error(DirectoryMember { removed: true, ..good }) == invalid(
            "directory.membership",
        ),
        directory_member_error(DirectoryMember { id: 0, ..good }) == invalid(
            "directory.membership",
        ),
        directory_member_error(DirectoryMember { org_role: None, ..good }) == invalid(
            "directory.role",
        ),
{
}

/// A page that cannot be followed says why: it names no cursor, one that was
/// followed already, or there are too many.
pub proof fn law_pages_are_refused_for_what_is_wrong(resolution: Resolution, page: MemberPage)
    requires
        listings_error(
            resolution.members@,
            page.items@,
            resolution.organization@,
            resolution.recipients@,
        ) is None,
        page.has_more,
        resolution.recipients@.len() == 0 || !complete_after(resolution, page),
    ensures
        page.next_cursor is None ==> page_error(resolution, page) == invalid("directory.cursor"),
        page.next_cursor is Some && (exists|k: int|
            0 <= k < resolution.cursors@.len() && (#[trigger] resolution.cursors@[k])@
                == page.next_cursor->0@) ==> page_error(resolution, page) == invalid(
            "directory.repeated_cursor",
        ),
        page.next_cursor is Some && (forall|k: int|
            0 <= k < resolution.cursors@.len() ==> (#[trigger] resolution.cursors@[k])@
                != page.next_cursor->0@) && resolution.pages >= 99 ==> page_error(resolution, page)
            == invalid("directory.page_budget"),
{
}

/// Tags that cannot be read are refused by the names that they are read under.
pub proof fn law_tags_are_refused_for_what_is_wrong(
    tags: Seq<AuthorizationTag>,
    identity: &'static str,
    name: &'static str,
)
    requires
        tags.len() > 0,
        tags_error(tags.drop_last(), identity, name) is None,
    ensures
        tags.last().id == 0 || tag_repeats(tags, tags.len() - 1) ==> tags_error(
            tags,
            identity,
            name,
        ) == invalid(identity),
        tags.last().id != 0 && !tag_repeats(tags, tags.len() - 1) && !tags.last().name.accepted
            ==> tags_error(tags, identity, name) == invalid(name),
{
}

/// An answer that contradicts itself says in what.
pub proof fn law_contradictions_say_in_what(
    value: Json,
    identity: IdentityChars,
    audience: Seq<char>,
    now: i64,
    kind: Option<Seq<char>>,
    id: Option<Seq<char>>,
)
    ensures
        value.text_member("public_id"@) is Some && value.text_member("public_id"@)->0 != identity.1
            ==> contradiction(value, identity, audience, now) == mismatched(
            "identity.introspection",
        ),
        value.text_member("public_id"@) is None && value.text_member("actor_type"@) is None
            && value.member("active"@) is Some && value.text_member("client_id"@) != Some(audience)
            ==> contradiction(value, identity, audience, now) == Some(IamClientError::Rejected),
        value.text_member("public_id"@) is None && value.text_member("actor_type"@) is None
            && value.member("active"@) is None && value.text_member("membership_id"@) is Some
            && value.text_member("org_id"@) is None ==> contradiction(
            value,
            identity,
            audience,
            now,
        ) == mismatched("identity.organization"),
        value.text_member("public_id"@) is None && value.text_member("actor_type"@) is None
            && value.member("active"@) is None && value.text_member("membership_id"@) is Some
            && value.text_member("org_id"@) is Some && value.text_member("membership_id"@)->0
            != membership_chars(identity.1, value.text_member("org_id"@)->0) ==> contradiction(
            value,
            identity,
            audience,
            now,
        ) == mismatched("identity.membership"),
        kind is None ==> canonical_actor_of(kind, id) == Err::<IdentityChars, IamClientError>(
            IamClientError::InvalidResponse { reason: "identity.actor_type" },
        ),
        kind is Some && (id is None || !public_identity_ok(kind->0, id->0)) ==> canonical_actor_of(
            kind,
            id,
        ) == Err::<IdentityChars, IamClientError>(
            IamClientError::InvalidResponse { reason: "identity.public_id" },
        ),
{
}

/// A delegated upload whose row cannot be read fails as such, and is never told
/// apart from one that is there.
pub proof fn law_unreadable_uploads_are_not_missing(
    row: UploadRow,
    stored: StoredObject,
    encoded: Option<Seq<char>>,
    parent: Result<AuthorizableEntry, AppError>,
    child: Option<NamedChild>,
    entry: Option<AuthorizableEntry>,
    facts: CommitFacts,
    transfer: DelegatedUploadTransfer,
    provider_upload_id: Option<Seq<char>>,
    received: Option<StoredObject>,
    now: i128,
    timeout_millis: u128,
)
    ensures
        object_refusal(row, stored, encoded) matches Some(error) ==> error is Conflict
            || is_unreadable(error),
        !row.object_key.accepted || row.size_bytes < 0 ==> is_unreadable(
            object_refusal(row, stored, encoded)->0,
        ) && object_refusal(row, stored, encoded) is Some,
        transfer_refusal(row, transfer) matches Some(error) ==> is_unreadable(error) || error == (
        AppError::Conflict { code: "delegated_upload_transfer_changed" }),
        failure_refusal(
            row,
            transfer,
            provider_upload_id,
            received,
            now,
            timeout_millis,
        ) matches Some(error) ==> error is Conflict || is_unreadable(error),
        parent is Ok ==> (destination_refusal(row, parent, child) matches Some(error) ==> error
            is Conflict || is_unreadable(error)),
        !row.parent_id.accepted ==> destination_refusal(row, parent, child) is Some
            && is_unreadable(destination_refusal(row, parent, child)->0),
        row.parent_id.accepted && parent is Err ==> destination_refusal(row, parent, child) == Some(
            parent->Err_0,
        ),
        parent is Ok ==> (staged_refusal(row, stored, parent, facts) matches Some(error) ==> error
            is Conflict || is_unreadable(error)),
        row_object(row) matches Err(error) ==> is_unreadable(error),
        expiry_of(row, now) matches Err(error) ==> is_unreadable(error),
        description_of(row, now) matches Err(error) ==> is_unreadable(error),
        cancellation_of(row, now, now) matches Err(error) ==> is_unreadable(error),
        row.published_entry_id is None || !row.published_entry_id->0.accepted
            ==> committed_refusal(row, entry) is Some && is_unreadable(
            committed_refusal(row, entry)->0,
        ),
{
}

/// A reservation that is refused is refused by its folder, its room, its end or
/// what is stored, and a repeated one by what became of the first.
pub proof fn law_reservations_are_refused_for_what_is_wrong(
    row: UploadRow,
    command: ReserveDelegatedUpload,
    parent: Result<AuthorizableEntry, AppError>,
    child: Option<NamedChild>,
    entry: Option<AuthorizableEntry>,
    room: StagingRoom,
    facts: ReservationFacts,
    expires_at: i128,
    now: i128,
)
    ensures
        room.count >= 32 ==> room_refusal(room, command.size) == Some(
            AppError::Conflict { code: "delegated_upload_staging_limit_exhausted" },
        ),
        room.count < 32 && room.bytes < 0 ==> room_refusal(room, command.size) is Some
            && is_unreadable(room_refusal(room, command.size)->0),
        parent is Ok && room_refusal(room, command.size) is None ==> (reservation_refusal(
            command,
            parent,
            room,
            facts,
            expires_at,
            now,
        ) matches Some(error) ==> is_unreadable(error) || error == (AppError::Validation {
            code: "invalid_delegated_upload_expiration",
        })),
        repeats(row, command) && expiry_of(row, now) is Ok && destination_refusal(
            row,
            parent,
            child,
        ) is None && committed_refusal(row, entry) is None ==> (repeat_refusal(
            row,
            command,
            now,
            parent,
            child,
            entry,
        ) matches Some(error) ==> is_unreadable(error)),
{
}

/// A transfer that is claimed by its capability, and a commit of an upload that
/// is there, are never answered as if there were none.
pub proof fn law_present_uploads_are_not_missing(
    row: UploadRow,
    environment: Option<crate::model::TestingEnvironmentContext>,
    capability_hash: Seq<u8>,
    lease_seconds: i64,
    checked_at: i128,
    now: i128,
    parent: Result<AuthorizableEntry, AppError>,
    child: Option<NamedChild>,
    entry: Option<AuthorizableEntry>,
)
    requires
        expiry_of(row, checked_at) is Ok,
        expiry_of(row, now) is Ok,
    ensures
        in_scope(row, environment) && holds_capability(row, capability_hash) ==> (claim_refusal(
            Some(row),
            environment,
            capability_hash,
            lease_seconds,
            checked_at,
            now,
        ) matches Some(error) ==> error is Validation || error is Conflict || is_unreadable(error)),
        parent is Ok && entry is Some ==> (prepare_refusal(
            Some(row),
            row.upload_id,
            now,
            parent,
            child,
            entry,
        ) matches Some(error) ==> error is Conflict || error is Forbidden || is_unreadable(error)),
{
}

/// A version that is there and cannot be read fails as such; a size that cannot
/// be stored does so too.
pub proof fn law_unreadable_versions_are_not_missing(
    entry: Option<AuthorizableEntry>,
    version: VersionContentRow,
    role_arn: Option<Seq<char>>,
    accepted: bool,
    leased_rows: u64,
    active: Option<StorageConfigRow>,
    existing: AuthorizableEntry,
    size: u64,
)
    ensures
        file_refusal(entry, Capability::Read) is None ==> (download_refusal(
            entry,
            Some(version),
            role_arn,
        ) matches Some(error) ==> is_unreadable(error)),
        file_refusal(entry, Capability::Read) is None && entry->0.entry.current_version_id is None
            ==> download_refusal(entry, None, role_arn) is Some && is_unreadable(
            download_refusal(entry, None, role_arn)->0,
        ),
        leased_rows != 1 ==> copy_refusal(accepted, leased_rows, version, role_arn, active) == Some(
            AppError::Conflict { code: "idempotency_state" },
        ),
        leased_rows == 1 ==> (copy_refusal(
            accepted,
            leased_rows,
            version,
            role_arn,
            active,
        ) matches Some(error) ==> is_unreadable(error)),
        size > i64::MAX ==> publication_refusal(None, None, None, size) is Some && is_unreadable(
            publication_refusal(None, None, None, size)->0,
        ),
        size > i64::MAX && existing.access.permits(Capability::WriteContent)
            ==> next_version_refusal(Some(existing), size) is Some && is_unreadable(
            next_version_refusal(Some(existing), size)->0,
        ),
        next_version_refusal(None, size) == Some(AppError::NotFound),
        !existing.access.permits(Capability::WriteContent) ==> next_version_refusal(
            Some(existing),
            size,
        ) == Some(AppError::Forbidden),
{
}

/// What is stored of a checksum or a provider and cannot be read fails as such.
pub proof fn law_unreadable_storage_is_not_missing(
    algorithm: Seq<char>,
    kind: Seq<char>,
    value: Candidate,
    child: Option<NamedChild>,
    active: Option<StorageConfigRow>,
)
    ensures
        checksum_of(algorithm, kind, value) matches Err(error) ==> is_unreadable(error),
        name_refusal(child) is None ==> (write_refusal(child, active) matches Some(error)
            ==> is_unreadable(error)),
        child is Some && !child->0.entry_id.accepted ==> write_refusal(child, active) is Some
            && is_unreadable(write_refusal(child, active)->0),
        child is Some && child->0.entry_id.accepted && child->0.entry_type@ != "file"@
            ==> write_refusal(child, active) == Some(
            AppError::Conflict { code: "entry_name_exists" },
        ),
{
}

/// Parts that do not fit are refused as such, and those that cannot be read are
/// never blamed on the caller.
pub proof fn law_parts_are_refused_for_what_is_wrong(
    plan: MultipartPlan,
    part: MultipartPartRow,
    supplied: ClientCompletedPart,
    stored: Seq<MultipartPartRow>,
    client: Seq<ClientCompletedPart>,
)
    ensures
        part.part_number < 0 ==> part_error(plan, part, supplied) is Some && is_unreadable(
            part_error(plan, part, supplied)->0,
        ),
        part_error(plan, part, supplied) matches Some(error) ==> is_unreadable(error) || error == (
        AppError::Validation { code: "invalid_multipart_completion" }),
        supplied.part_number == part.part_number && supplied.etag@ == part.etag@ && 1
            <= part.part_number <= plan.sizes@.len() && (part.size_bytes < 0 || (
        plan.sizes@[part.part_number - 1] == part.size_bytes && part.checksum_sha256@.len() != 32))
            ==> part_error(plan, part, supplied) is Some && is_unreadable(
            part_error(plan, part, supplied)->0,
        ),
        parts_error(plan, stored, client) matches Some(error) ==> is_unreadable(error) || error == (
        AppError::Validation { code: "invalid_multipart_completion" }),
        completion_error(plan, stored, client) matches Some(error) ==> is_unreadable(error)
            || error == (AppError::Validation { code: "invalid_multipart_completion" }),
    decreases stored.len(),
{
    if stored.len() > 0 && client.len() > 0 {
        law_parts_are_refused_for_what_is_wrong(
            plan,
            stored.last(),
            client.last(),
            stored.drop_last(),
            client.drop_last(),
        );
    }
}

/// An upload in parts that is the caller's own is never answered as if there were
/// none, but for its folder.
pub proof fn law_own_uploads_are_not_missing(
    upload: MultipartUploadRow,
    authorization: RequestAuthContext,
    planned: Option<MultipartPlan>,
    part_number: u32,
    etag: Seq<char>,
    size: u64,
    now: i128,
    parent: Option<AuthorizableEntry>,
    role_arn: Option<Seq<char>>,
    stored: Seq<MultipartPartRow>,
    client: Seq<ClientCompletedPart>,
    preparation: MultipartCompletionPreparation,
    object: StoredObject,
    facts: CompletionFacts,
)
    requires
        owns_upload(upload, authorization),
    ensures
        !upload.parent_entry_id.accepted ==> folder_refusal(upload, parent) is Some
            && is_unreadable(folder_refusal(upload, parent)->0),
        upload.parent_entry_id.accepted ==> folder_refusal(upload, parent) == parent_refusal(
            parent,
            Capability::CreateChild,
        ),
        folder_refusal(upload, parent) is None ==> (part_refusal(
            Some(upload),
            authorization,
            planned,
            part_number,
            now,
            parent,
            role_arn,
        ) matches Some(error) ==> error is Conflict || error is Validation || is_unreadable(error)),
        folder_refusal(upload, parent) is None ==> (record_refusal(
            etag,
            Some(upload),
            authorization,
            planned,
            part_number,
            size,
            now,
            parent,
        ) matches Some(error) ==> error is Conflict || error is Validation || is_unreadable(error)
            || error == (AppError::Internal { category: "database_operation" })),
        folder_refusal(upload, parent) is None ==> (publish_completion_refusal(
            preparation,
            object,
            Some(upload),
            authorization,
            parent,
            facts,
            role_arn,
        ) matches Some(error) ==> error is Conflict || is_unreadable(error) || error == (
        AppError::Internal { category: "object_checksum_unavailable" })),
        abort_refusal(upload, authorization, role_arn) matches Some(error) ==> is_unreadable(error)
            || error == (AppError::Conflict { code: "multipart_not_abortable" }),
        completion_refusal(upload, planned, stored, client, role_arn) matches Some(error)
            ==> is_unreadable(error) || error == (AppError::Validation {
            code: "invalid_multipart_completion",
        }) || error == (AppError::Conflict { code: "multipart_not_completable" }),
{
    if planned is Some && stored.len() > 0 && client.len() > 0 {
        law_parts_are_refused_for_what_is_wrong(
            planned->0,
            stored.last(),
            client.last(),
            stored,
            client,
        );
    }
}

/// A row that would be read but for one column fails for that column.
pub proof fn law_rows_fail_for_what_cannot_be_read(
    kind: Seq<char>,
    id: Candidate,
    mask: i16,
    row: EntryRow,
    tag: Option<Candidate>,
    version: VersionRow,
    request: AccessRequestRow,
    notification: NotificationRow,
    word: String,
)
    ensures
        kind != "carbon"@ && kind != "silicon"@ ==> actor_ref_of(kind, id) == Err::<
            ActorRef,
            MetadataRepositoryError,
        >(MetadataRepositoryError::Internal { reason: "invalid persisted actor kind" }),
        (kind == "carbon"@ || kind == "silicon"@) && !id.accepted ==> actor_ref_of(kind, id)
            == Err::<ActorRef, MetadataRepositoryError>(
            MetadataRepositoryError::Internal { reason: "invalid persisted data" },
        ),
        mask < 0 || mask >= 16 ==> access_of(mask) == Err::<GrantedAccess, MetadataRepositoryError>(
            MetadataRepositoryError::Internal { reason: "invalid persisted access mask" },
        ),
        kind != "public"@ && kind != "private"@ && kind != "tag"@ ==> boundary_of(kind, tag)
            == Err::<EntryBoundary, MetadataRepositoryError>(
            MetadataRepositoryError::Internal { reason: "invalid entry root type" },
        ),
        boundary_of("tag"@, None) == Err::<EntryBoundary, MetadataRepositoryError>(
            MetadataRepositoryError::Internal { reason: "missing entry tag projection" },
        ),
        entry_error(row, tag) is None && entry_kind_of(word@) is None ==> entry_error(
            EntryRow { entry_type: word, ..row },
            tag,
        ) == Some(MetadataRepositoryError::Internal { reason: "invalid persisted entry kind" }),
        entry_error(row, tag) is None && system_kind_of(word@) is None ==> authorizable_error(
            EntryRow { system_kind: Some(word), ..row },
            tag,
        ) == Some(
            MetadataRepositoryError::Internal { reason: "invalid persisted system entry kind" },
        ),
        version.source@ == "restore"@ && version.restored_from_version_id is None
            ==> version_source_of(version) == Err::<VersionSource, MetadataRepositoryError>(
            MetadataRepositoryError::Internal { reason: "restore version has no source" },
        ),
        version.source@ != "restore"@ && version.source@ != "upload"@ ==> version_source_of(version)
            == Err::<VersionSource, MetadataRepositoryError>(
            MetadataRepositoryError::Internal { reason: "invalid persisted version source" },
        ),
        status_of(request.status@) is None ==> request_error(request) == Some(
            MetadataRepositoryError::Internal {
                reason: "invalid persisted access-request status",
            },
        ),
        status_of(request.status@) is Some && (request.decided_by_type is Some
            != request.decided_by_id is Some) ==> request_error(request) == Some(
            MetadataRepositoryError::Internal {
                reason: "incomplete access-request decision actor",
            },
        ),
        notification_error(notification) is None ==> {
            let refused = |row: NotificationRow| notification_error(row);
            &&& refused(NotificationRow { readable: false, ..notification }) == Some(
                MetadataRepositoryError::Internal {
                    reason: "invalid persisted notification details",
                },
            )
            &&& notification.actor_id is Some ==> refused(
                NotificationRow { actor_type: None, ..notification },
            ) == Some(
                MetadataRepositoryError::Internal {
                    reason: "incomplete persisted notification actor",
                },
            )
            &&& kind_of_word(word@) is None ==> refused(
                NotificationRow { kind: word, ..notification },
            ) == Some(
                MetadataRepositoryError::Internal { reason: "invalid persisted notification kind" },
            )
        },
{
    reveal_strlit("public");
    reveal_strlit("private");
    reveal_strlit("tag");
    reveal_strlit("upload");
    reveal_strlit("restore");
    assert("tag"@.len() == 3);
    assert("public"@.len() == 6);
    assert("private"@.len() == 7);
    assert("upload"@.len() == 6);
    assert("restore"@.len() == 7);
}

} // verus!
