//! Who a token or proof speaks for, and what a failed call means.

use vstd::prelude::*;
use vstd::utf8::*;

use crate::clock::instant_of_timestamp;
use crate::error::AppError;
use crate::iam::canonical::{
    agreed_identity, answer_identity, canonical_actor_of, contradiction, localized_snapshot,
    membership_chars, plane_claim, preparation_of, public_identity_ok, snapshot_identity_of,
    snapshots_of, IdentityChars, LocalAuthorization, LocalIntrospection, WireActorType,
};
use crate::iam::claims::{
    application_tokens_error, introspection_error, obo_error, IamEnvironmentCredential,
    VerifiedIdentity, VerifiedOboAccess, WireApplicationTokenResponse, WireIntrospectionResponse,
    WireOboResponse,
};
use crate::iam::directory::{
    complete_after, context_of_member, directory_member_error, is_wanted, listing_error,
    lists_member, page_error, wanted_members, DirectoryMember, MemberPage, Resolution,
};
use crate::iam::official::{
    authorization_error, bearer_binding_error, context_of_snapshot, joined, kind_of,
    obo_binding_error, obo_request_error, organizations_of, plane_of, refuses, sdk_error_spec,
    session_error, session_snapshot_error, session_snapshots, tags_error, AuthorizationTag,
    Operation, ReachableAuthorization, SessionBinding,
};
use crate::iam::resilience::{
    after_attempt_spec, failure_class_spec, retry_delay_spec, AttemptDecision, AttemptOutcome,
    SdkFailure,
};
use crate::iam::{
    api_version_of, app_error_of, environment_key_ok, fixed_secret_ok, pieces, plain_text, scope_ok,
    scope_set_ok, version_catalog_ok, IamClientError, OboRequestBinding,
};
use crate::ids::Candidate;
use crate::json::Json;
use crate::model::{ActorKind, ActorRef, AuthenticationMode, OrganizationRole, RequestAuthContext};
use crate::order::{lists, text_precedes};
use crate::text::{byte_len, optional_chars};

verus! {

/// A member signs in with exactly the authority that the identity service
/// disclosed: its organization, its kind and public identifier, and the role
/// that the disclosed word names.
pub proof fn law_members_sign_in_as_what_they_are(
    context: RequestAuthContext,
    snapshot: LocalAuthorization,
    audience: Seq<char>,
    organization: Seq<char>,
    environment: Option<&IamEnvironmentCredential>,
    authentication: AuthenticationMode,
)
    requires
        authorization_error(snapshot, audience, organization, environment) is None,
        context_of_snapshot(context, snapshot, organization, authentication),
    ensures
        context.organization_id@ == organization && snapshot.org_id.text@ == organization,
        snapshot.org_role is Some,
        snapshot.org_role->0@ == "owner"@ <==> context.role == OrganizationRole::Owner,
        snapshot.org_role->0@ == "admin"@ <==> context.role == OrganizationRole::Admin,
        snapshot.org_role->0@ == "member"@ <==> context.role == OrganizationRole::Member,
        snapshot.actor_type == Some(WireActorType::Carbon) <==> context.actor.kind
            == ActorKind::Carbon,
        snapshot.actor_type == Some(WireActorType::Silicon) <==> context.actor.kind
            == ActorKind::Silicon,
        snapshot.public_id is Some && context.actor.id == snapshot.public_id->0.text,
        context.authentication == authentication,
        context.binding is Some,
        context.binding->0.organization_id == snapshot.organization_id,
        context.binding->0.principal_id == snapshot.principal_id,
        context.binding->0.membership_id == snapshot.membership_id,
        context.binding->0.membership_version == snapshot.membership_version,
        context.binding->0.authorization_epoch == snapshot.authorization_epoch,
        context.tags is Some <==> snapshot.tags is Some,
        context.tags matches Some(names) ==> names@.len() == snapshot.tags->0@.len() && forall|
            k: int,
        |
            0 <= k < names@.len() ==> (#[trigger] names@[k])@ == snapshot.tags->0@[k].name.text@
                && context.binding->0.tags->0@[k].id == snapshot.tags->0@[k].id,
{
    reveal_strlit("owner");
    reveal_strlit("admin");
    reveal_strlit("member");
    assert("owner"@.len() == 5);
    assert("admin"@.len() == 5);
    assert("member"@.len() == 6);
    assert("owner"@[0] != "admin"@[0]);
    if context.tags is Some {
        let names = context.tags->0@;
        let made = context.binding->0.tags->0@;
        assert forall|k: int| 0 <= k < names.len() implies (#[trigger] names[k])@
            == snapshot.tags->0@[k].name.text@ && made[k].id == snapshot.tags->0@[k].id by {
            assert(names[k]@ == made[k].name@);
            assert(made[k].id == snapshot.tags->0@[k].id);
        }
    }
}

/// A snapshot gives authority exactly where it is about this application, this
/// organization and this plane, its identifiers and versions are there, its
/// scopes disclose who the member is and which role it has, and its tags are
/// disclosed as the scopes say.
pub proof fn law_snapshots_give_authority_exactly_where_bound(
    snapshot: LocalAuthorization,
    audience: Seq<char>,
    organization: Seq<char>,
    environment: Option<&IamEnvironmentCredential>,
)
    ensures
        authorization_error(snapshot, audience, organization, environment) is None <==> {
            let own = lists(snapshot.scopes@, "self.membership.read"@) && lists(
                snapshot.scopes@,
                "self.identity.read"@,
            );
            let general = lists(snapshot.scopes@, "memberships.read"@) && lists(
                snapshot.scopes@,
                "roles.read"@,
            );
            &&& snapshot.audience@ == audience && snapshot.org_id.text@ == organization
            &&& snapshot.principal_id != 0 && snapshot.organization_id != 0
                && snapshot.membership_id != 0
            &&& snapshot.membership_version >= 1 && snapshot.authorization_epoch >= 1
            &&& environment is None ==> snapshot.testing_environment_id is None
            &&& environment is Some ==> environment->0.environment_id is Some
                && snapshot.testing_environment_id == environment->0.environment_id
            &&& scope_set_ok(joined(snapshot.scopes@))
            &&& own || general
            &&& snapshot.org_role is Some && (snapshot.org_role->0@ == "owner"@
                || snapshot.org_role->0@ == "admin"@ || snapshot.org_role->0@ == "member"@)
            &&& snapshot.actor_type == Some(WireActorType::Carbon) || snapshot.actor_type == Some(
                WireActorType::Silicon,
            )
            &&& snapshot.tags is Some <==> (!own || lists(snapshot.scopes@, "self.tags.read"@))
            &&& snapshot.tags is Some ==> tags_error(
                snapshot.tags->0@,
                "authorization.tag_id",
                "authorization.tag_name",
            ) is None
            &&& snapshot.public_id is Some && snapshot.public_id->0.accepted
        },
{
}

/// The kinds of members on the wire are theirs, and no other one is a member.
pub proof fn law_wire_kinds_are_members(actor_type: Option<WireActorType>)
    ensures
        kind_of(actor_type) == Some(ActorKind::Carbon) <==> actor_type == Some(
            WireActorType::Carbon,
        ),
        kind_of(actor_type) == Some(ActorKind::Silicon) <==> actor_type == Some(
            WireActorType::Silicon,
        ),
{
}

/// A member's tags are named once each: by identifier, and by name.
pub proof fn law_tags_are_named_once(
    tags: Seq<AuthorizationTag>,
    identity: &'static str,
    name: &'static str,
    first: int,
    second: int,
)
    requires
        tags_error(tags, identity, name) is None,
        0 <= first < second < tags.len(),
    ensures
        tags[first].id != tags[second].id,
        tags[first].name.text@ != tags[second].name.text@,
        tags[first].id != 0 && tags[second].id != 0,
        tags[first].name.accepted && tags[second].name.accepted,
    decreases tags.len(),
{
    if second < tags.len() - 1 {
        law_tags_are_named_once(tags.drop_last(), identity, name, first, second);
    } else {
        lemma_tags_are_usable(tags, identity, name, first);
        let last = tags.len() - 1;
        assert(!crate::iam::official::tag_repeats(tags, last));
        assert(tags[first] == tags.drop_last()[first]);
    }
}

/// Each tag of a member has an identifier and a name.
proof fn lemma_tags_are_usable(
    tags: Seq<AuthorizationTag>,
    identity: &'static str,
    name: &'static str,
    position: int,
)
    requires
        tags_error(tags, identity, name) is None,
        0 <= position < tags.len(),
    ensures
        tags[position].id != 0,
        tags[position].name.accepted,
    decreases tags.len(),
{
    if position < tags.len() - 1 {
        lemma_tags_are_usable(tags.drop_last(), identity, name, position);
    }
}

/// A token's introspection is accepted exactly where the token is active, of the
/// expected organization and application, within its lifetime, and complete.
pub proof fn law_tokens_are_accepted_exactly_where_bound(
    wire: WireIntrospectionResponse,
    organization: Seq<char>,
    application: Seq<char>,
    now: i128,
)
    ensures
        introspection_error(wire, organization, application, now) is None <==> {
            &&& wire.active
            &&& wire.org_id is Some && wire.org_id->0.accepted && wire.org_id->0.text@
                == organization
            &&& wire.client_id is Some && wire.client_id->0@ == application
            &&& wire.audience is Some && wire.audience->0@ == application
            &&& wire.issued_at is Some && instant_of_timestamp(wire.issued_at->0 as int) is Some
            &&& wire.expires_at is Some && instant_of_timestamp(wire.expires_at->0 as int) is Some
            &&& wire.issued_at->0 < wire.expires_at->0
            &&& now < instant_of_timestamp(wire.expires_at->0 as int)->0
            &&& wire.principal_id is Some && wire.principal_id->0 != 0
            &&& wire.membership_id is Some && wire.membership_id->0 != 0
            &&& wire.session_id is Some && wire.session_id->0 != 0
            &&& wire.scope is Some && scope_set_ok(wire.scope->0@)
            &&& wire.authorization_epoch is Some && wire.authorization_epoch->0 >= 1
            &&& wire.actor_type is Some
        },
        !wire.active && wire.principal_id is None && wire.actor_type is None && wire.org_id is None
            && wire.membership_id is None && wire.session_id is None && wire.scope is None
            && wire.client_id is None && wire.audience is None && wire.authorization_epoch is None
            && wire.issued_at is None && wire.expires_at is None ==> introspection_error(
            wire,
            organization,
            application,
            now,
        ) == Some(IamClientError::Rejected),
        !wire.active && (wire.principal_id is Some || wire.org_id is Some || wire.scope is Some
            || wire.expires_at is Some || wire.client_id is Some || wire.audience is Some
            || wire.membership_id is Some || wire.session_id is Some || wire.actor_type is Some
            || wire.authorization_epoch is Some || wire.issued_at is Some) ==> introspection_error(
            wire,
            organization,
            application,
            now,
        ) is Some && introspection_error(wire, organization, application, now)->0
            is InvalidResponse,
{
}

/// A token carries a snapshot's authority exactly where both are of one
/// principal, membership, epoch, kind and set of scopes, and the snapshot gives
/// authority here.
pub proof fn law_tokens_carry_their_own_snapshot(
    verified: VerifiedIdentity,
    snapshot: Option<LocalAuthorization>,
    scopes: Seq<char>,
    audience: Seq<char>,
    organization: Seq<char>,
    environment: Option<&IamEnvironmentCredential>,
)
    ensures
        bearer_binding_error(verified, snapshot, scopes, audience, organization, environment)
            is None <==> {
            &&& snapshot is Some
            &&& snapshot->0.principal_id == verified.principal_id
            &&& snapshot->0.membership_id == verified.membership_id
            &&& snapshot->0.authorization_epoch == verified.authorization_epoch
            &&& joined(snapshot->0.scopes@) == scopes
            &&& authorization_error(snapshot->0, audience, organization, environment) is None
            &&& kind_of(snapshot->0.actor_type) == Some(verified.actor_kind)
        },
{
}

/// Scopes are written in their order, with one space between two of them.
pub proof fn law_scopes_are_joined_by_spaces(scopes: Seq<String>, more: Seq<String>, last: String)
    requires
        more == scopes.push(last),
    ensures
        joined(Seq::<String>::empty()).len() == 0,
        scopes.len() == 0 ==> joined(more) == last@,
        scopes.len() > 0 ==> joined(more) == joined(scopes) + seq![' '] + last@,
{
    assert(more.drop_last() =~= scopes);
}

/// A proof of acting for a member is accepted exactly where it is valid, issued
/// by the application that presents it, for this audience, for the path that is
/// served and for the organization that was asked for, consumed before its end,
/// and complete.
pub proof fn law_proofs_are_accepted_exactly_where_bound(
    wire: WireOboResponse,
    audience: Seq<char>,
    application: Seq<char>,
    organization: Option<Seq<char>>,
    path: Seq<char>,
)
    ensures
        obo_error(wire, audience, application, organization, path) is None <==> {
            &&& wire.valid
            &&& wire.issuer_app_id is Some && wire.issuer_app_id->0.accepted
                && wire.issuer_app_id->0.text@ == application
            &&& wire.audience is Some && wire.audience->0.accepted && wire.audience->0.text@
                == audience
            &&& wire.endpoint is Some && wire.endpoint->0.path@ == path && plain_text(
                wire.endpoint->0.endpoint_id@,
                128,
            )
            &&& wire.org_id is Some && wire.org_id->0.accepted
            &&& organization is Some ==> organization->0 == wire.org_id->0.text@
            &&& wire.expires_at is Some && wire.consumed_at is Some && wire.consumed_at->0
                <= wire.expires_at->0
            &&& wire.actor is Some && wire.actor->0.principal_id != 0
                && wire.actor->0.public_id.accepted && plain_text(
                wire.actor->0.public_id.text@,
                255,
            )
            &&& wire.metadata is Some ==> wire.metadata->0 is Object || wire.metadata->0 is Null
            &&& wire.proof_id is Some
        },
        !wire.valid ==> obo_error(wire, audience, application, organization, path) == Some(
            IamClientError::Rejected,
        ),
{
}

/// A proof carries a snapshot's authority exactly where the snapshot gives
/// authority here and both are of one member.
pub proof fn law_proofs_carry_their_own_snapshot(
    verified: VerifiedOboAccess,
    snapshot: LocalAuthorization,
    audience: Seq<char>,
    environment: Option<&IamEnvironmentCredential>,
)
    ensures
        obo_binding_error(verified, snapshot, audience, environment) is None <==> {
            &&& authorization_error(
                snapshot,
                audience,
                verified.organization_id@,
                environment,
            ) is None
            &&& kind_of(snapshot.actor_type) == Some(verified.actor.kind)
            &&& snapshot.public_id->0.text@ == verified.actor.id@
        },
{
}

/// A proof is sent out exactly where it has a proof's form and is bound to a
/// plain method, path and digest.
pub proof fn law_proofs_are_sent_with_their_binding(
    proof_text: Seq<char>,
    binding: OboRequestBinding<'_>,
)
    ensures
        obo_request_error(proof_text, binding) is None <==> {
            &&& fixed_secret_ok(proof_text, "obo_"@)
            &&& plain_text(binding.method@, 16)
            &&& plain_text(binding.path@, 2_048)
            &&& plain_text(binding.body_sha256@, 64)
        },
        !fixed_secret_ok(proof_text, "obo_"@) ==> obo_request_error(proof_text, binding) == Some(
            IamClientError::Rejected,
        ),
{
}

/// Exchanged tokens are accepted exactly where they are bearer tokens of half an
/// hour, in the form of access and refresh tokens, for a named member.
pub proof fn law_exchanged_tokens_are_complete(wire: WireApplicationTokenResponse)
    ensures
        application_tokens_error(wire) is None <==> {
            &&& wire.token_type@ == "Bearer"@
            &&& wire.expires_in == 1_800
            &&& fixed_secret_ok(wire.access_token@, "oat_"@)
            &&& fixed_secret_ok(wire.refresh_token@, "ort_"@)
            &&& scope_set_ok(wire.scope@)
            &&& wire.actor.principal_id != 0
            &&& wire.actor.public_id.accepted && plain_text(wire.actor.public_id.text@, 255)
            &&& wire.org_id is Some ==> wire.org_id->0.accepted
        },
{
}

/// A session is accepted exactly where its token is active, for this
/// application, not over, of a known member, and each of its snapshots is of
/// that member.
pub proof fn law_sessions_are_accepted_exactly_where_bound(
    response: LocalIntrospection,
    audience: Seq<char>,
    environment: Option<&IamEnvironmentCredential>,
    now: i64,
)
    ensures
        session_error(response, audience, environment, now) is None ==> {
            &&& response.active
            &&& optional_chars(response.client_id) == Some(audience)
            &&& optional_chars(response.audience) == Some(audience)
            &&& response.principal_id is Some && response.principal_id->0 != 0
            &&& kind_of(response.actor_type) is Some
            &&& response.expires_at is Some && now < response.expires_at->0
            &&& session_snapshots(response) is Some
        },
        !response.active ==> session_error(response, audience, environment, now) == Some(
            IamClientError::Rejected,
        ),
        response.active && optional_chars(response.client_id) == Some(audience) && optional_chars(
            response.audience,
        ) == Some(audience) && response.principal_id is Some && response.principal_id->0 != 0
            && kind_of(response.actor_type) is Some && response.expires_at is Some && now
            < response.expires_at->0 && response.org_id is None && response.authorization is None
            && response.authorizations is Some && response.authorizations->0@.len() == 0
            ==> session_error(response, audience, environment, now) is None,
{
}

/// A session that selected an organization offers that one's snapshot; one that
/// selected none offers all of them; anything else is no session.
pub proof fn law_sessions_offer_what_was_selected(response: LocalIntrospection)
    ensures
        session_snapshots(response) is Some <==> (response.authorization is Some
            && response.authorizations is None && response.org_id is Some && response.org_id->0@
            == response.authorization->0.org_id.text@) || (response.authorization is None
            && response.authorizations is Some && response.org_id is None),
        session_snapshots(response) is Some && response.authorization is Some
            ==> session_snapshots(response)->0 == seq![response.authorization->0],
        session_snapshots(response) is Some && response.authorization is None
            ==> session_snapshots(response)->0 == response.authorizations->0@,
{
}

/// A snapshot belongs to a session exactly where it is of the session's member,
/// for this application and plane, with identifiers and versions, and under the
/// public identifier that is known already.
pub proof fn law_snapshots_belong_to_their_session(
    snapshot: LocalAuthorization,
    binding: SessionBinding,
    audience: Seq<char>,
    known: Option<Seq<char>>,
)
    ensures
        session_snapshot_error(snapshot, binding, audience, known) is None <==> {
            &&& snapshot.principal_id == binding.principal_id
            &&& kind_of(snapshot.actor_type) == Some(binding.actor_kind)
            &&& snapshot.audience@ == audience
            &&& snapshot.testing_environment_id == binding.environment
            &&& snapshot.org_id.accepted
            &&& snapshot.membership_id != 0 && snapshot.organization_id != 0
            &&& snapshot.membership_version >= 1 && snapshot.authorization_epoch >= 1
            &&& snapshot.public_id is Some && snapshot.public_id->0.accepted
            &&& known is Some ==> known->0 == snapshot.public_id->0.text@
        },
{
}

/// The organizations of a session are listed in order, each once, and none is
/// left out or made up.
pub proof fn law_sessions_list_their_organizations(
    list: Seq<String>,
    snapshots: Seq<LocalAuthorization>,
    position: int,
    place: int,
)
    requires
        organizations_of(list, snapshots),
    ensures
        0 <= position < snapshots.len() ==> lists(list, snapshots[position].org_id.text@),
        0 <= place < list.len() ==> exists|k: int|
            0 <= k < snapshots.len() && (#[trigger] snapshots[k]).org_id.text@ == list[place]@,
        0 <= place && place + 1 < list.len() ==> text_precedes(list[place]@, list[place + 1]@),
{
    if 0 <= position < snapshots.len() {
        let text = snapshots[position].org_id.text@;
        assert(lists(list, text) == exists|k: int|
            0 <= k < snapshots.len() && (#[trigger] snapshots[k]).org_id.text@ == text);
    }
    if 0 <= place < list.len() {
        let text = list[place]@;
        assert(lists(list, text));
    }
}

/// An organization is reachable exactly through an authorization for this
/// application and plane with versions.
pub proof fn law_reachable_organizations_are_authorized(
    reached: ReachableAuthorization,
    audience: Seq<char>,
    environment: Option<u128>,
)
    ensures
        reached.belongs(audience, environment) <==> reached.audience@ == audience
            && reached.testing_environment_id == environment && reached.org_id.accepted
            && reached.membership_version >= 1 && reached.authorization_epoch >= 1,
{
}

/// A plane is the one that the credential selects; without a credential it is
/// production.
pub proof fn law_credentials_select_their_plane(environment: Option<&IamEnvironmentCredential>)
    ensures
        environment is None ==> plane_of(environment) is None,
        environment matches Some(credential) ==> plane_of(environment)
            == credential.environment_id,
{
}

/// What the identity service refuses is the caller's fault, what is bound to
/// something else is forbidden, and everything else is the service's.
pub proof fn law_failures_are_told_apart(error: IamClientError)
    ensures
        app_error_of(error) == AppError::Unauthenticated <==> error is Rejected,
        app_error_of(error) == AppError::Forbidden <==> error is BindingMismatch,
        error is Unavailable || error is InvalidResponse ==> app_error_of(error) == (
        AppError::DependencyUnavailable { dependency: "iam" }),
{
}

/// A status refuses a credential exactly where it was sent for the operation
/// that the status answers; every other failed call is an outage.
pub proof fn law_refusals_are_no_outages(status: u16, failure: SdkFailure, operation: Operation)
    ensures
        refuses(Operation::Token, status) <==> status == 400,
        refuses(Operation::Obo, status) <==> status == 403 || status == 409 || status == 410
            || status == 422,
        refuses(Operation::Environment, status) <==> status == 400 || status == 401 || status == 403
            || status == 404 || status == 422,
        !refuses(Operation::Service, status),
        sdk_error_spec(failure, operation) is Rejected <==> (failure matches SdkFailure::Api {
            status,
        } && refuses(operation, status)),
        sdk_error_spec(failure, operation) is InvalidResponse <==> failure is Other,
        sdk_error_spec(failure, operation) is Rejected || sdk_error_spec(failure, operation)
            is InvalidResponse || sdk_error_spec(failure, operation) == (
        IamClientError::Unavailable { reason: failure_class_spec(failure) }),
{
}

/// Failures are classed by what failed: the time, the connection, the transport,
/// the rate, or the service's answer.
pub proof fn law_failures_have_classes(failure: SdkFailure)
    ensures
        failure matches SdkFailure::Transport { timeout, connect } ==> failure_class_spec(failure)
            == if timeout {
            "timeout"
        } else if connect {
            "connection"
        } else {
            "transport"
        },
        failure is RateLimited ==> failure_class_spec(failure) == "rate_limited",
        failure matches SdkFailure::Api { status } ==> failure_class_spec(failure) == if status
            == 429 {
            "rate_limited"
        } else {
            "upstream_http"
        },
        failure is Unstructured ==> failure_class_spec(failure) == "unstructured_http",
        failure is Other ==> failure_class_spec(failure) == "invalid_response",
{
}

/// What is worth a second attempt waits for a fifth of a second and a jitter, or
/// for as long as the service asks; nothing else is tried again.
pub proof fn law_only_passing_failures_are_retried(failure: SdkFailure, jitter_byte: u8)
    ensures
        failure matches SdkFailure::Transport { timeout, connect } ==> retry_delay_spec(
            failure,
            jitter_byte,
        ) == if timeout || connect {
            Some((200 + jitter_byte) as u64)
        } else {
            None
        },
        failure matches SdkFailure::Api { status } ==> retry_delay_spec(failure, jitter_byte)
            == if status == 502 || status == 503 || status == 504 {
            Some((200 + jitter_byte) as u64)
        } else {
            None
        },
        failure matches SdkFailure::Unstructured { status } ==> retry_delay_spec(
            failure,
            jitter_byte,
        ) == if status == 502 || status == 503 || status == 504 {
            Some((200 + jitter_byte) as u64)
        } else {
            None
        },
        failure matches SdkFailure::RateLimited { retry_after_millis } ==> {
            let delay = retry_delay_spec(failure, jitter_byte);
            &&& delay is Some
            &&& delay->0 >= retry_after_millis && delay->0 >= 200 + jitter_byte
            &&& delay->0 == retry_after_millis || delay->0 == 200 + jitter_byte
        },
        failure is Other ==> retry_delay_spec(failure, jitter_byte) is None,
{
}

/// An answer is delivered. A first failure that is worth it is tried again
/// within the budget; every other failure ends the call as what it is.
pub proof fn law_answers_are_delivered(
    attempt: u32,
    failure: SdkFailure,
    jitter_byte: u8,
    elapsed_millis: u64,
    budget_millis: u64,
)
    ensures
        after_attempt_spec(attempt, AttemptOutcome::Answered, budget_millis)
            == AttemptDecision::Deliver,
        after_attempt_spec(attempt, AttemptOutcome::DeadlinePassed, budget_millis) == (
        AttemptDecision::GiveUp {
            error: IamClientError::Unavailable { reason: "retry_budget_exhausted" },
        }),
        ({
            let outcome = AttemptOutcome::Failed { failure, jitter_byte, elapsed_millis };
            let decision = after_attempt_spec(attempt, outcome, budget_millis);
            let delay = retry_delay_spec(failure, jitter_byte);
            &&& decision is Retry <==> attempt == 1 && delay is Some && elapsed_millis + delay->0
                < budget_millis
            &&& decision matches AttemptDecision::Retry { delay_millis } ==> Some(delay_millis)
                == delay
            &&& decision is Retry || decision == (AttemptDecision::GiveUp {
                error: sdk_error_spec(failure, Operation::Service),
            })
        }),
{
}

/// A directory entry makes a recipient of the member that it lists, with the
/// member's own role, tags and versions.
pub proof fn law_recipients_are_who_the_directory_lists(
    context: RequestAuthContext,
    member: DirectoryMember,
    organization: Seq<char>,
    organization_id: u128,
)
    requires
        context_of_member(context, member, organization, organization_id),
    ensures
        context.organization_id@ == organization,
        context.actor.kind == member.kind->0 && context.actor.id@ == member.public_id.text@,
        member.org_role == Some(context.role),
        context.authentication is Bearer,
        context.binding is Some,
        context.binding->0.organization_id == organization_id,
        context.binding->0.principal_id == member.principal_id,
        context.binding->0.membership_id == member.id,
        context.binding->0.membership_version == member.version,
        context.binding->0.authorization_epoch == member.authorization_epoch,
        context.tags is Some && context.tags->0@.len() == member.tags@.len(),
{
}

/// Only an active membership with a role makes a recipient.
pub proof fn law_only_active_members_are_recipients(member: DirectoryMember)
    ensures
        directory_member_error(member) is None <==> {
            &&& member.active && !member.removed
            &&& member.id != 0 && member.principal_id != 0
            &&& member.version >= 1 && member.authorization_epoch >= 1
            &&& member.org_role is Some
            &&& tags_error(member.tags@, "directory.tag", "directory.tag_name") is None
        },
{
}

/// A listed member is of the organization that was asked for, and a wanted one is
/// listed once and may be a recipient.
pub proof fn law_listed_members_are_of_the_organization(
    member: DirectoryMember,
    organization: Seq<char>,
    recipients: Seq<ActorRef>,
    repeated: bool,
)
    ensures
        listing_error(member, organization, recipients, repeated) is None <==> {
            &&& member.org_id@ == organization
            &&& member.kind is Some
            &&& member.public_id.accepted
            &&& is_wanted(recipients, member) ==> !repeated && directory_member_error(
                member,
            ) is None
        },
        is_wanted(recipients, member) <==> recipients.len() == 0 || exists|k: int|
            0 <= k < recipients.len() && (#[trigger] recipients[k]).kind == member.kind->0
                && recipients[k].id@ == member.public_id.text@,
{
    if is_wanted(recipients, member) && recipients.len() > 0 {
        let k = choose|k: int|
            0 <= k < recipients.len() && (#[trigger] recipients[k]).identity() == member.identity();
        assert(recipients[k].kind == member.kind->0);
    }
    if exists|k: int|
        0 <= k < recipients.len() && (#[trigger] recipients[k]).kind == member.kind->0
            && recipients[k].id@ == member.public_id.text@ {
        let k = choose|k: int|
            0 <= k < recipients.len() && (#[trigger] recipients[k]).kind == member.kind->0
                && recipients[k].id@ == member.public_id.text@;
        assert(recipients[k].identity() == member.identity());
    }
}

/// Every wanted member of a page is kept, and no other.
pub proof fn law_pages_keep_who_is_wanted(
    members: Seq<DirectoryMember>,
    recipients: Seq<ActorRef>,
    position: int,
)
    requires
        0 <= position < members.len(),
    ensures
        is_wanted(recipients, members[position]) ==> wanted_members(members, recipients).contains(
            members[position],
        ),
        recipients.len() == 0 ==> wanted_members(members, recipients) == members,
        forall|k: int|
            0 <= k < wanted_members(members, recipients).len() ==> is_wanted(
                recipients,
                #[trigger] wanted_members(members, recipients)[k],
            ),
    decreases members.len(),
{
    let earlier = wanted_members(members.drop_last(), recipients);
    let all = wanted_members(members, recipients);
    if members.len() > 1 {
        let at = if position < members.len() - 1 {
            position
        } else {
            0
        };
        law_pages_keep_who_is_wanted(members.drop_last(), recipients, at);
    } else {
        assert(earlier =~= Seq::<DirectoryMember>::empty());
        assert(members.drop_last() =~= Seq::<DirectoryMember>::empty());
    }
    if is_wanted(recipients, members[position]) {
        if position < members.len() - 1 {
            assert(members.drop_last()[position] == members[position]);
            let k = choose|k: int| 0 <= k < earlier.len() && earlier[k] == members[position];
            assert(all[k] == earlier[k]);
        } else {
            assert(all.last() == members[position]);
        }
    }
    if recipients.len() == 0 {
        assert(members.drop_last().push(members.last()) =~= members);
    }
}

/// A lookup is complete exactly where everyone who was asked for is found, and a
/// page goes on only under a cursor that is new and within a hundred pages.
pub proof fn law_lookups_end(resolution: Resolution, page: MemberPage)
    ensures
        complete_after(resolution, page) <==> forall|k: int|
            0 <= k < resolution.recipients@.len() ==> lists_member(
                resolution.members@ + wanted_members(page.items@, resolution.recipients@),
                (#[trigger] resolution.recipients@[k]).identity(),
            ),
        page_error(resolution, page) is None && page.has_more && !(resolution.recipients@.len() > 0
            && complete_after(resolution, page)) ==> {
            &&& page.next_cursor is Some
            &&& resolution.pages + 1 < 100
            &&& forall|k: int|
                0 <= k < resolution.cursors@.len() ==> (#[trigger] resolution.cursors@[k])@
                    != page.next_cursor->0@
        },
{
}

/// A public identity is a handle behind the mark of its kind.
pub proof fn law_public_identities_have_one_form(kind: Seq<char>, handle: Seq<char>)
    requires
        forall|k: int|
            0 <= k < handle.len() ==> 'a' <= #[trigger] handle[k] <= 'z' || '0' <= handle[k] <= '9'
                || handle[k] == '_' || handle[k] == '-',
    ensures
        public_identity_ok("carbon"@, seq!['c', ':'] + handle) <==> 3 <= handle.len() <= 30,
        public_identity_ok("silicon"@, seq!['s', 'i', ':'] + handle) <==> 3 <= handle.len() <= 50,
        !public_identity_ok("carbon"@, handle) && !public_identity_ok("silicon"@, handle),
        kind != "carbon"@ && kind != "silicon"@ ==> !public_identity_ok(kind, handle),
{
    reveal_strlit("carbon");
    reveal_strlit("silicon");
    assert("carbon"@.len() == 6);
    assert("silicon"@.len() == 7);
    let carbon = seq!['c', ':'] + handle;
    let silicon = seq!['s', 'i', ':'] + handle;
    assert(carbon.skip(2) =~= handle);
    assert(silicon.skip(3) =~= handle);
}

/// An actor is canonical exactly where kind and identifier are there and fit each
/// other, and then it is that very pair.
pub proof fn law_canonical_actors_are_named(kind: Option<Seq<char>>, id: Option<Seq<char>>)
    ensures
        canonical_actor_of(kind, id) is Ok <==> kind is Some && id is Some && public_identity_ok(
            kind->0,
            id->0,
        ),
        canonical_actor_of(kind, id) matches Ok(identity) ==> identity.0 == kind->0 && identity.1
            == id->0,
{
}

/// A snapshot speaks of an identity exactly where it names the audience and the
/// plane, an accepted organization, and the membership of that identity there.
pub proof fn law_snapshots_name_their_membership(
    snapshot: Json,
    audience: Seq<char>,
    environment: Option<u128>,
    organizations: Seq<String>,
)
    ensures
        snapshot_identity_of(snapshot, audience, environment, organizations) matches Ok(identity)
            ==> {
            &&& snapshot.text_member("actor_type"@) == Some(identity.0)
            &&& snapshot.text_member("public_id"@) == Some(identity.1)
            &&& public_identity_ok(identity.0, identity.1)
            &&& snapshot.text_member("audience"@) == Some(audience)
            &&& plane_claim(snapshot) == Some(environment)
            &&& snapshot.text_member("org_id"@) is Some && lists(
                organizations,
                snapshot.text_member("org_id"@)->0,
            )
            &&& snapshot.text_member("membership_id"@) == Some(
                identity.1 + seq!['['] + snapshot.text_member("org_id"@)->0 + seq![']'],
            )
        },
        snapshot.text_member("actor_type"@) is Some && snapshot.text_member("public_id"@) is Some
            && public_identity_ok(
            snapshot.text_member("actor_type"@)->0,
            snapshot.text_member("public_id"@)->0,
        ) && snapshot.text_member("org_id"@) is Some && lists(
            organizations,
            snapshot.text_member("org_id"@)->0,
        ) && snapshot.text_member("audience"@) == Some(audience) && plane_claim(snapshot) == Some(
            environment,
        ) && snapshot.text_member("membership_id"@) == Some(
            snapshot.text_member("public_id"@)->0 + seq!['['] + snapshot.text_member("org_id"@)->0
                + seq![']'],
        ) ==> snapshot_identity_of(snapshot, audience, environment, organizations) is Ok,
        membership_chars(audience, audience) == audience + seq!['['] + audience + seq![']'],
{
}

/// An answer is about the one identity that everything in it names.
pub proof fn law_answers_do_not_contradict_themselves(
    value: Json,
    identity: IdentityChars,
    audience: Seq<char>,
    now: i64,
)
    ensures
        contradiction(value, identity, audience, now) is None <==> {
            &&& value.text_member("public_id"@) is Some ==> value.text_member("public_id"@)->0
                == identity.1
            &&& value.text_member("actor_type"@) is Some ==> value.text_member("actor_type"@)->0
                == identity.0
            &&& value.member("active"@) is Some ==> {
                &&& value.text_member("client_id"@) == Some(audience)
                &&& value.text_member("audience"@) is Some ==> value.text_member("audience"@)->0
                    == audience
                &&& value.integer_member("expires_at"@) is Some && now < value.integer_member(
                    "expires_at"@,
                )->0
            }
            &&& value.text_member("membership_id"@) is Some ==> value.text_member("org_id"@) is Some
                && value.text_member("membership_id"@)->0 == identity.1 + seq!['[']
                + value.text_member("org_id"@)->0 + seq![']']
        },
{
}

/// An answer carries one snapshot or a list of them, never both, and an actor that
/// it names beside them is theirs.
pub proof fn law_answers_have_one_shape(
    value: Json,
    audience: Seq<char>,
    environment: Option<u128>,
    organizations: Seq<String>,
)
    ensures
        value.member("authorization"@) is Some && value.member("authorizations"@) is Some
            ==> answer_identity(value, audience, environment, organizations) is Err,
        value.member("authorization"@) is Some ==> snapshots_of(value) == seq![
            value.member("authorization"@)->0,
        ],
        value.member("authorization"@) is None ==> snapshots_of(value) == value.array_member(
            "authorizations"@,
        ),
        value.member("actor"@) is Some && answer_identity(
            value,
            audience,
            environment,
            organizations,
        ) is Ok ==> {
            let identity = answer_identity(value, audience, environment, organizations)->Ok_0;
            &&& value.member("actor"@)->0.text_member("type"@) == Some(identity.0)
            &&& value.member("actor"@)->0.text_member("public_id"@) == Some(identity.1)
        },
{
}

/// An answer that is too large is refused, an inactive one is about nobody, and a
/// testing credential needs its environment.
pub proof fn law_answers_are_prepared_within_bounds(
    value: Json,
    size: usize,
    maximum: usize,
    audience: Seq<char>,
    environment: Option<&IamEnvironmentCredential>,
    organizations: Seq<String>,
    now: i64,
)
    ensures
        size > maximum ==> preparation_of(
            value,
            size,
            maximum,
            audience,
            environment,
            organizations,
            now,
        ) is Err,
        size <= maximum && value.member("active"@) == Some(Json::Bool(false)) ==> preparation_of(
            value,
            size,
            maximum,
            audience,
            environment,
            organizations,
            now,
        ) == Ok::<Option<IdentityChars>, IamClientError>(None),
        environment is Some && environment->0.environment_id is None && value.member("active"@)
            != Some(Json::Bool(false)) ==> preparation_of(
            value,
            size,
            maximum,
            audience,
            environment,
            organizations,
            now,
        ) is Err,
        preparation_of(value, size, maximum, audience, environment, organizations, now) matches Ok(
            Some(identity),
        ) ==> contradiction(value, identity, audience, now) is None,
{
}

/// Local keys take the place of a snapshot's principal and membership, and
/// nothing else of it changes.
pub proof fn law_local_keys_replace_public_identities(
    before: Json,
    after: Json,
    principal: u128,
    membership: u128,
    key: Seq<char>,
)
    requires
        localized_snapshot(before, after, principal, membership),
        before is Object,
    ensures
        after.text_member("principal_id"@) == Some(crate::ids::hyphenated_chars(principal)),
        after.text_member("membership_id"@) == Some(crate::ids::hyphenated_chars(membership)),
        key != "membership_id"@ && key != "principal_id"@ ==> after.member(key)
            == before.member(key),
{
}

/// A fixed secret is its mark and forty-three characters of the URL alphabet.
pub proof fn law_fixed_secrets_have_one_form(text: Seq<char>, prefix: Seq<char>)
    ensures
        fixed_secret_ok(text, prefix) ==> byte_len(text) == byte_len(prefix) + 43 && encode_utf8(
            text,
        ).take(byte_len(prefix) as int) == encode_utf8(prefix),
        fixed_secret_ok(text, prefix) ==> forall|k: int|
            byte_len(prefix) <= k < byte_len(text) ==> {
                let byte = #[trigger] encode_utf8(text)[k];
                0x30 <= byte <= 0x39 || 0x41 <= byte <= 0x5a || 0x61 <= byte <= 0x7a || byte == 0x5f
                    || byte == 0x2d
            },
        byte_len(text) == byte_len(prefix) + 43 && encode_utf8(text).take(byte_len(prefix) as int)
            == encode_utf8(prefix) && (forall|k: int|
            byte_len(prefix) <= k < byte_len(text) ==> 0x61 <= #[trigger] encode_utf8(text)[k]
                <= 0x7a) ==> fixed_secret_ok(text, prefix),
        environment_key_ok(text) ==> byte_len(text) == 32,
        byte_len(text) == 32 && (forall|k: int|
            0 <= k < 32 ==> 0x61 <= #[trigger] encode_utf8(text)[k] <= 0x7a) ==> environment_key_ok(
            text,
        ),
{
}

/// A plain text is there, fits, has no white space around it and no control code
/// in it.
pub proof fn law_plain_texts_are_bounded(text: Seq<char>, maximum: nat)
    ensures
        plain_text(text, maximum) <==> {
            &&& text.len() > 0
            &&& byte_len(text) <= maximum
            &&& crate::text::trim(text) == text
            &&& forall|k: int| 0 <= k < text.len() ==> !crate::text::is_control_code(
                #[trigger] text[k],
            )
        },
{
}

/// A scope starts with a letter and goes on with letters, digits and a few signs.
pub proof fn law_scopes_are_canonical(bytes: Seq<u8>)
    ensures
        scope_ok(bytes) ==> 2 <= bytes.len() <= 128 && 0x61 <= bytes[0] <= 0x7a,
        scope_ok(bytes) ==> forall|k: int|
            0 <= k < bytes.len() ==> {
                let byte = #[trigger] bytes[k];
                0x61 <= byte <= 0x7a || 0x30 <= byte <= 0x39 || byte == 0x5f || byte == 0x2e || byte
                    == 0x3a || byte == 0x2d
            },
        2 <= bytes.len() <= 128 && (forall|k: int|
            0 <= k < bytes.len() ==> 0x61 <= #[trigger] bytes[k] <= 0x7a) ==> scope_ok(bytes),
{
    if scope_ok(bytes) {
        assert(crate::iam::scope_byte(bytes[0], true));
    }
}

/// A version is a `v` and a number without leading zeros, and a catalog lists the
/// newest first, each once, and the first of all among them.
pub proof fn law_versions_are_numbers(text: Seq<char>, versions: Seq<String>)
    ensures
        api_version_of(text) is Some ==> {
            let bytes = encode_utf8(text);
            &&& bytes[0] == 0x76
            &&& 0x31 <= bytes[1] <= 0x39
            &&& 2 <= bytes.len() <= 10
        },
        encode_utf8(text).len() == 2 && encode_utf8(text)[0] == 0x76 && 0x31 <= encode_utf8(text)[1]
            <= 0x39 ==> api_version_of(text) == Some((encode_utf8(text)[1] - 0x30) as nat),
        version_catalog_ok(versions) ==> {
            &&& 1 <= versions.len() <= 16
            &&& lists(versions, "v1"@)
            &&& forall|k: int|
                #![trigger versions[k]]
                0 <= k && k + 1 < versions.len() ==> api_version_of(versions[k]@)->0
                    > api_version_of(versions[k + 1]@)->0
        },
{
    let bytes = encode_utf8(text);
    if bytes.len() == 2 {
        reveal_with_fuel(crate::iam::decimal, 2);
        assert(bytes.skip(1).drop_last() =~= Seq::<u8>::empty());
        assert(bytes.skip(1).last() == bytes[1]);
    }
    if api_version_of(text) is Some {
        assert(crate::iam::is_digit(bytes[1]));
    }
}

/// A snapshot without an environment is of production; one with an environment
/// names it by its identifier, and anything else names none.
pub proof fn law_snapshots_name_their_plane(snapshot: Json)
    ensures
        snapshot.member("testing_environment_id"@) is None || snapshot.member(
            "testing_environment_id"@,
        ) == Some(Json::Null) ==> plane_claim(snapshot) == Some(None::<u128>),
        snapshot.text_member("testing_environment_id"@) matches Some(text) ==> (plane_claim(
            snapshot,
        ) == match crate::ids::parsed_id(text) {
            Some(id) => Some(Some(id)),
            None => None,
        }),
        plane_claim(snapshot) matches Some(Some(id)) ==> snapshot.text_member(
            "testing_environment_id"@,
        ) is Some && crate::ids::parsed_id(snapshot.text_member("testing_environment_id"@)->0)
            == Some(id),
{
}

/// The snapshots of an answer agree exactly where each of them is accepted and
/// all of them are about the same identity.
pub proof fn law_snapshots_agree_on_one_identity(
    snapshots: Seq<Json>,
    more: Json,
    audience: Seq<char>,
    environment: Option<u128>,
    organizations: Seq<String>,
)
    ensures
        agreed_identity(Seq::empty(), audience, environment, organizations) == Ok::<
            Option<IdentityChars>,
            IamClientError,
        >(None),
        ({
            let known = agreed_identity(snapshots, audience, environment, organizations);
            let current = snapshot_identity_of(more, audience, environment, organizations);
            let all = agreed_identity(snapshots.push(more), audience, environment, organizations);
            &&& all is Ok <==> {
                &&& known is Ok && current is Ok
                &&& known->Ok_0 is Some ==> known->Ok_0->0 == current->Ok_0
            }
            &&& all matches Ok(identity) ==> identity == Some(current->Ok_0)
            &&& known is Err ==> all == known
            &&& known is Ok && current is Err ==> all == Err::<
                Option<IdentityChars>,
                IamClientError,
            >(current->Err_0)
            &&& known is Ok && current is Ok && all is Err ==> all == Err::<
                Option<IdentityChars>,
                IamClientError,
            >(IamClientError::BindingMismatch { binding: "authorization.identity" })
        }),
{
    assert(snapshots.push(more).drop_last() =~= snapshots);
}

/// An answer is about the actor it names, and else about whom its snapshots agree
/// on, and else about whom it names itself.
pub proof fn law_answers_are_about_whom_they_name(
    value: Json,
    audience: Seq<char>,
    environment: Option<u128>,
    organizations: Seq<String>,
)
    ensures
        ({
            let both = value.member("authorization"@) is Some && value.member("authorizations"@)
                is Some;
            let agreed = agreed_identity(
                snapshots_of(value),
                audience,
                environment,
                organizations,
            );
            let answer = answer_identity(value, audience, environment, organizations);
            let named = canonical_actor_of(
                value.text_member("actor_type"@),
                value.text_member("public_id"@),
            );
            &&& both ==> answer == Err::<IdentityChars, IamClientError>(
                IamClientError::BindingMismatch { binding: "authorization.multiple_shapes" },
            )
            &&& !both && agreed is Err ==> answer == Err::<IdentityChars, IamClientError>(
                agreed->Err_0,
            )
            &&& !both && agreed is Ok && value.member("actor"@) is None && agreed->Ok_0 is Some
                ==> answer == Ok::<IdentityChars, IamClientError>(agreed->Ok_0->0)
            &&& !both && agreed is Ok && value.member("actor"@) is None && agreed->Ok_0 is None
                && named is Ok ==> answer == named
            &&& !both && agreed is Ok && value.member("actor"@) is None && agreed->Ok_0 is None
                && named is Err ==> answer == Err::<IdentityChars, IamClientError>(
                IamClientError::InvalidResponse { reason: "identity.canonical_id" },
            )
            &&& !both && agreed is Ok && value.member("actor"@) is Some ==> {
                let actor = canonical_actor_of(
                    value.member("actor"@)->0.text_member("type"@),
                    value.member("actor"@)->0.text_member("public_id"@),
                );
                &&& actor is Err ==> answer == actor
                &&& actor is Ok && (agreed->Ok_0 is None || agreed->Ok_0->0 == actor->Ok_0)
                    ==> answer == actor
                &&& actor is Ok && agreed->Ok_0 is Some && agreed->Ok_0->0 != actor->Ok_0
                    ==> answer == Err::<IdentityChars, IamClientError>(
                    IamClientError::BindingMismatch { binding: "authorization.actor" },
                )
            }
        }),
{
}

/// A refused snapshot says whether its organization, its plane or its membership
/// is wrong, and a refused answer whether it is too large or of no environment.
pub proof fn law_refused_answers_say_why(
    snapshot: Json,
    audience: Seq<char>,
    plane: Option<u128>,
    organizations: Seq<String>,
    size: usize,
    maximum: usize,
    environment: Option<&IamEnvironmentCredential>,
    now: i64,
)
    ensures
        ({
            let actor = canonical_actor_of(
                snapshot.text_member("actor_type"@),
                snapshot.text_member("public_id"@),
            );
            let organization = snapshot.text_member("org_id"@);
            let identity = snapshot_identity_of(snapshot, audience, plane, organizations);
            &&& actor is Err ==> identity == actor
            &&& actor is Ok && organization is None ==> identity == Err::<
                IdentityChars,
                IamClientError,
            >(IamClientError::InvalidResponse { reason: "authorization.org_id" })
            &&& actor is Ok && organization is Some && !lists(organizations, organization->0)
                ==> identity == Err::<IdentityChars, IamClientError>(
                IamClientError::InvalidResponse { reason: "authorization.org_id" },
            )
            &&& actor is Ok && organization is Some && lists(organizations, organization->0)
                && plane_claim(snapshot) is None ==> identity == Err::<
                IdentityChars,
                IamClientError,
            >(IamClientError::InvalidResponse { reason: "authorization.environment" })
            &&& actor is Ok && organization is Some && lists(organizations, organization->0)
                && plane_claim(snapshot) is Some && identity is Err ==> identity == Err::<
                IdentityChars,
                IamClientError,
            >(IamClientError::BindingMismatch { binding: "authorization.canonical_identity" })
        }),
        size > maximum ==> preparation_of(
            snapshot,
            size,
            maximum,
            audience,
            environment,
            organizations,
            now,
        ) == Err::<Option<IdentityChars>, IamClientError>(
            IamClientError::InvalidResponse { reason: "response_size" },
        ),
        size <= maximum && snapshot.member("active"@) != Some(Json::Bool(false)) && environment
            is Some && environment->0.environment_id is None ==> preparation_of(
            snapshot,
            size,
            maximum,
            audience,
            environment,
            organizations,
            now,
        ) == Err::<Option<IdentityChars>, IamClientError>(
            IamClientError::BindingMismatch { binding: "identity.testing_environment" },
        ),
        size <= maximum && snapshot.member("active"@) != Some(Json::Bool(false)) && environment
            is None ==> {
            let identity = answer_identity(snapshot, audience, None, organizations);
            let prepared = preparation_of(
                snapshot,
                size,
                maximum,
                audience,
                environment,
                organizations,
                now,
            );
            &&& identity is Ok && contradiction(snapshot, identity->Ok_0, audience, now) is None
                ==> prepared == Ok::<Option<IdentityChars>, IamClientError>(Some(identity->Ok_0))
            &&& identity is Err ==> prepared == Err::<Option<IdentityChars>, IamClientError>(
                identity->Err_0,
            )
        },
{
}

/// A refused snapshot of a session says whether it is of somebody else or does
/// not say of whom, and a call that broke its contract says so.
pub proof fn law_refused_session_snapshots_say_why(
    good: LocalAuthorization,
    binding: SessionBinding,
    audience: Seq<char>,
    known: Option<Seq<char>>,
    other: Candidate,
    operation: Operation,
)
    requires
        session_snapshot_error(good, binding, audience, known) is None,
    ensures
        ({
            let refused = |snapshot: LocalAuthorization|
                session_snapshot_error(snapshot, binding, audience, known);
            &&& refused(LocalAuthorization { actor_type: None, ..good }) == Some(
                IamClientError::InvalidResponse { reason: "session.actor_type" },
            )
            &&& refused(LocalAuthorization { membership_id: 0, ..good }) == Some(
                IamClientError::BindingMismatch { binding: "session.authorization" },
            )
            &&& refused(LocalAuthorization { organization_id: 0, ..good }) == Some(
                IamClientError::BindingMismatch { binding: "session.authorization" },
            )
            &&& known is None ==> refused(LocalAuthorization { public_id: None, ..good }) == Some(
                IamClientError::Rejected,
            )
            &&& known is None && !other.accepted ==> refused(
                LocalAuthorization { public_id: Some(other), ..good },
            ) == Some(IamClientError::InvalidResponse { reason: "session.public_id" })
        }),
        sdk_error_spec(SdkFailure::Other, operation) == (IamClientError::InvalidResponse {
            reason: "official_client_contract",
        }),
{
}

/// Every version of a catalog is a number, and a text is cut exactly at its
/// separators.
pub proof fn law_catalogs_list_numbers(
    versions: Seq<String>,
    position: int,
    bytes: Seq<u8>,
    byte: u8,
    separator: u8,
)
    requires
        version_catalog_ok(versions),
        0 <= position < versions.len(),
    ensures
        api_version_of(versions[position]@) is Some,
        pieces(Seq::empty(), separator) == seq![Seq::<u8>::empty()],
        pieces(bytes.push(separator), separator) == pieces(bytes, separator).push(
            Seq::<u8>::empty(),
        ),
        byte != separator ==> pieces(bytes.push(byte), separator) == pieces(
            bytes,
            separator,
        ).drop_last().push(pieces(bytes, separator).last().push(byte)),
{
    lemma_some_piece(bytes, separator);
    assert(bytes.push(separator).drop_last() =~= bytes);
    assert(bytes.push(byte).drop_last() =~= bytes);
    if byte != separator {
        assert(pieces(bytes.push(byte), separator) =~= pieces(bytes, separator).drop_last().push(
            pieces(bytes, separator).last().push(byte),
        ));
    }
}

/// There is always a piece, if only an empty one.
proof fn lemma_some_piece(bytes: Seq<u8>, separator: u8)
    ensures
        pieces(bytes, separator).len() >= 1,
    decreases bytes.len(),
{
    if bytes.len() > 0 {
        lemma_some_piece(bytes.drop_last(), separator);
    }
}

/// A member is listed once an entry of this kind and identifier is.
pub proof fn law_listed_members_are_known_by_kind_and_identifier(
    members: Seq<DirectoryMember>,
    more: DirectoryMember,
    kind: ActorKind,
    id: Seq<char>,
)
    ensures
        !lists_member(Seq::empty(), (kind, id)),
        more.kind is Some ==> (lists_member(members.push(more), (kind, id)) <==> lists_member(
            members,
            (kind, id),
        ) || (more.kind == Some(kind) && more.public_id.text@ == id)),
{
    let all = members.push(more);
    if lists_member(members, (kind, id)) {
        let k = choose|k: int|
            0 <= k < members.len() && (#[trigger] members[k]).identity() == (kind, id);
        assert(all[k].identity() == (kind, id));
    }
    if more.kind == Some(kind) && more.public_id.text@ == id {
        assert(all[members.len() as int].identity() == (kind, id));
    }
    if lists_member(all, (kind, id)) {
        let k = choose|k: int| 0 <= k < all.len() && (#[trigger] all[k]).identity() == (kind, id);
        assert(k < members.len() ==> members[k].identity() == (kind, id));
    }
}

} // verus!
