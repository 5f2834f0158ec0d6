//! Decisions around the calls to the identity service.

use vstd::prelude::*;

use crate::clock::instant_of_timestamp;
use crate::iam::canonical::{LocalAuthorization, LocalIntrospection, WireActorType};
use crate::iam::claims::{
    introspection_error, IamEnvironmentCredential, VerifiedIdentity, VerifiedOboAccess,
    WireIntrospectionResponse,
};
use crate::iam::resilience::{failure_class, failure_class_spec, SdkFailure};
use crate::iam::{
    binding_mismatch, fixed_secret_ok, invalid_response, plain_text, scope_set_ok,
    valid_fixed_iam_secret, valid_scope_set, valid_server_version_catalog,
    validate_outbound_binding, version_catalog_ok, IamClientBuildError, IamClientError,
    OboRequestBinding, MAX_RESOURCE_BYTES,
};
use crate::ids::Candidate;
use crate::model::{
    ActorKind, ActorRef, AuthenticationMode, IamMembershipBinding, MembershipTag,
    OrganizationRole, RequestAuthContext,
};
use crate::order::{insert_text, lists, strictly_sorted};
use crate::secret::SecretText;
use crate::text::{contains_text, optional_chars, optional_text_is, same_text};

verus! {

/// What a call to the identity service was for.
#[derive(Clone, Copy, Debug, PartialEq, Eq, Structural)]
pub enum Operation {
    /// A read on behalf of this service.
    Service,
    /// A token exchange or refresh.
    Token,
    /// A delegation proof verification.
    Obo,
    /// A testing-environment call.
    Environment,
}

/// Whether a status refuses the caller's own credential.
pub open spec fn refuses(operation: Operation, status: u16) -> bool {
    match operation {
        Operation::Service => false,
        Operation::Token => status == 400,
        Operation::Obo => status == 403 || status == 409 || status == 410 || status == 422,
        Operation::Environment => status == 400 || status == 401 || status == 403 || status == 404
            || status == 422,
    }
}

/// What a failed call means for the operation it served.
pub open spec fn sdk_error_spec(failure: SdkFailure, operation: Operation) -> IamClientError {
    match failure {
        SdkFailure::Api { status } if refuses(operation, status) => IamClientError::Rejected,
        SdkFailure::Api { .. } | SdkFailure::RateLimited { .. } | SdkFailure::Transport { .. }
        | SdkFailure::Unstructured { .. } => IamClientError::Unavailable {
            reason: failure_class_spec(failure),
        },
        SdkFailure::Other => IamClientError::InvalidResponse {
            reason: "official_client_contract",
        },
    }
}

/// What a failed call means for the operation it served.
pub fn sdk_error(failure: SdkFailure, operation: Operation) -> (error: IamClientError)
    ensures
        error == sdk_error_spec(failure, operation),
{
    match failure {
        SdkFailure::Api { status } => {
            let refused = match operation {
                Operation::Service => false,
                Operation::Token => status == 400,
                Operation::Obo => status == 403 || status == 409 || status == 410 || status == 422,
                Operation::Environment => status == 400 || status == 401 || status == 403
                    || status == 404 || status == 422,
            };
            if refused {
                IamClientError::Rejected
            } else {
                IamClientError::Unavailable { reason: failure_class(failure) }
            }
        },
        SdkFailure::RateLimited { .. } | SdkFailure::Transport { .. }
        | SdkFailure::Unstructured { .. } => IamClientError::Unavailable {
            reason: failure_class(failure),
        },
        SdkFailure::Other => invalid_response("official_client_contract"),
    }
}

/// The caller's own mail address: a refused read is no address, any other
/// failure is a service failure.
pub fn self_email(profile: Result<Option<String>, SdkFailure>) -> (email: Result<
    Option<String>,
    IamClientError,
>)
    ensures
        match profile {
            Ok(address) => email == Ok::<Option<String>, IamClientError>(address),
            Err(SdkFailure::Api { status: 403 }) => email == Ok::<Option<String>, IamClientError>(
                None,
            ),
            Err(failure) => email == Err::<Option<String>, IamClientError>(
                sdk_error_spec(failure, Operation::Service),
            ),
        },
{
    match profile {
        Ok(address) => Ok(address),
        Err(SdkFailure::Api { status: 403 }) => Ok(None),
        Err(failure) => Err(sdk_error(failure, Operation::Service)),
    }
}

/// Checks the configured application identity of the client.
pub fn check_settings(app_id: &Candidate, app_secret: &SecretText) -> (result: Result<
    (),
    IamClientBuildError,
>)
    ensures
        result is Ok == (app_id.accepted && fixed_secret_ok(
            app_secret.chars(),
            "ask_"@,
        )),
        result matches Err(error) ==> error == IamClientBuildError::InvalidIdentifier,
{
    if !app_id.accepted || !valid_fixed_iam_secret(app_secret.expose_secret(), "ask_") {
        return Err(IamClientBuildError::InvalidIdentifier);
    }
    Ok(())
}

/// Accepts the version negotiated at start-up.
pub fn accept_version(service: &str, selected: &str, supported: &Vec<String>) -> (result: Result<
    (),
    IamClientBuildError,
>)
    ensures
        result is Ok == (service@ == "silicon-iam"@ && selected@ == "v1"@ && version_catalog_ok(
            supported@,
        )),
        result matches Err(error) ==> error == (IamClientBuildError::Handshake {
            cause: IamClientError::InvalidResponse { reason: "version_negotiation" },
        }),
{
    if !same_text(service, "silicon-iam") || !same_text(selected, "v1")
        || !valid_server_version_catalog(supported) {
        return Err(
            IamClientBuildError::Handshake { cause: invalid_response("version_negotiation") },
        );
    }
    Ok(())
}

/// The application identity that a request authenticates with: the test
/// plane's own identity where one is selected, this service's otherwise.
pub fn application_identity<'a>(
    service_app_id: &'a str,
    service_app_secret: &'a SecretText,
    environment: Option<&'a IamEnvironmentCredential>,
) -> (identity: (&'a str, &'a SecretText))
    ensures
        environment is None ==> identity.0@ == service_app_id@ && *identity.1
            == *service_app_secret,
        environment matches Some(plane) ==> identity.0@ == plane.app_id@ && *identity.1
            == plane.app_secret,
{
    match environment {
        Some(plane) => (plane.app_id.as_str(), &plane.app_secret),
        None => (service_app_id, service_app_secret),
    }
}

/// The public application identifier of a plane.
pub fn public_application_id<'a>(
    service_app_id: &'a str,
    service_app_secret: &'a SecretText,
    environment: Option<&'a IamEnvironmentCredential>,
) -> (id: &'a str)
    ensures
        id@ == match environment {
            Some(plane) => plane.app_id@,
            None => service_app_id@,
        },
{
    application_identity(service_app_id, service_app_secret, environment).0
}

/// Progress of validating a test-plane credential.
///
/// Each stage is reached only from the one before it, so no request is sent
/// before the stage that precedes it has passed.
#[derive(Clone, Copy, Debug, PartialEq, Eq, Structural)]
pub enum EnvironmentCheck {
    /// The testing context is to be read.
    ReadContext,
    /// The application directory is to be read.
    ReadDirectory,
    /// The credential is valid.
    Valid,
}

/// Starts validating a test-plane credential before anything is sent.
pub fn start_environment_check(
    environment: &IamEnvironmentCredential,
    service_app_id: &str,
    expected_environment_id: u128,
) -> (stage: Result<EnvironmentCheck, IamClientError>)
    ensures
        stage == if expected_environment_id == 0 || environment.app_id@ != service_app_id@ {
            Err::<EnvironmentCheck, IamClientError>(
                IamClientError::BindingMismatch { binding: "testing_application.app_id" },
            )
        } else {
            Ok::<EnvironmentCheck, IamClientError>(EnvironmentCheck::ReadContext)
        },
{
    if expected_environment_id == 0 || !same_text(environment.app_id.as_str(), service_app_id) {
        return Err(binding_mismatch("testing_application.app_id"));
    }
    Ok(EnvironmentCheck::ReadContext)
}

/// Holds the testing context that the service reports against the credential.
pub fn check_testing_context(
    current_environment_id: u128,
    current_app_id: &str,
    service_app_id: &str,
    expected_environment_id: u128,
) -> (stage: Result<EnvironmentCheck, IamClientError>)
    ensures
        stage == if current_environment_id != expected_environment_id || current_app_id@
            != service_app_id@ {
            Err::<EnvironmentCheck, IamClientError>(
                IamClientError::BindingMismatch { binding: "testing_environment.id" },
            )
        } else {
            Ok::<EnvironmentCheck, IamClientError>(EnvironmentCheck::ReadDirectory)
        },
{
    if current_environment_id != expected_environment_id || !same_text(
        current_app_id,
        service_app_id,
    ) {
        return Err(binding_mismatch("testing_environment.id"));
    }
    Ok(EnvironmentCheck::ReadDirectory)
}

/// Holds the directory entry of the application against the credential.
pub fn check_application_directory(
    directory_app_id: &str,
    environment: &IamEnvironmentCredential,
) -> (stage: Result<EnvironmentCheck, IamClientError>)
    ensures
        stage == if directory_app_id@ != environment.app_id@ {
            Err::<EnvironmentCheck, IamClientError>(
                IamClientError::BindingMismatch { binding: "application_directory.app_id" },
            )
        } else {
            Ok::<EnvironmentCheck, IamClientError>(EnvironmentCheck::Valid)
        },
{
    if !same_text(directory_app_id, environment.app_id.as_str()) {
        return Err(binding_mismatch("application_directory.app_id"));
    }
    Ok(EnvironmentCheck::Valid)
}

/// Rejects a credential that does not have its fixed form.
fn check_credential(credential: &SecretText, prefix: &'static str) -> (result: Result<
    (),
    IamClientError,
>)
    ensures
        result == if fixed_secret_ok(credential.chars(), prefix@) {
            Ok::<(), IamClientError>(())
        } else {
            Err::<(), IamClientError>(IamClientError::Rejected)
        },
{
    if valid_fixed_iam_secret(credential.expose_secret(), prefix) {
        Ok(())
    } else {
        Err(IamClientError::Rejected)
    }
}

/// Rejects a short-lived login token before it is sent.
pub fn check_short_lived_token(token: &SecretText) -> (result: Result<(), IamClientError>)
    ensures
        result == if fixed_secret_ok(token.chars(), "oac_"@) {
            Ok::<(), IamClientError>(())
        } else {
            Err::<(), IamClientError>(IamClientError::Rejected)
        },
{
    check_credential(token, "oac_")
}

/// Rejects a refresh token before it is sent.
pub fn check_refresh_token(token: &SecretText) -> (result: Result<(), IamClientError>)
    ensures
        result == if fixed_secret_ok(token.chars(), "ort_"@) {
            Ok::<(), IamClientError>(())
        } else {
            Err::<(), IamClientError>(IamClientError::Rejected)
        },
{
    check_credential(token, "ort_")
}

/// Rejects an access token before it is sent.
pub fn check_access_token(token: &SecretText) -> (result: Result<(), IamClientError>)
    ensures
        result == if fixed_secret_ok(token.chars(), "oat_"@) {
            Ok::<(), IamClientError>(())
        } else {
            Err::<(), IamClientError>(IamClientError::Rejected)
        },
{
    check_credential(token, "oat_")
}

/// The first requirement that an outgoing delegation check misses.
pub open spec fn obo_request_error(
    proof: Seq<char>,
    binding: OboRequestBinding<'_>,
) -> Option<IamClientError> {
    if !fixed_secret_ok(proof, "obo_"@) {
        Some(IamClientError::Rejected)
    } else if !plain_text(binding.method@, 16) {
        Some(IamClientError::BindingMismatch { binding: "obo.method" })
    } else if !plain_text(binding.path@, MAX_RESOURCE_BYTES as nat) {
        Some(IamClientError::BindingMismatch { binding: "obo.path" })
    } else if !plain_text(binding.body_sha256@, 64) {
        Some(IamClientError::BindingMismatch { binding: "obo.body_sha256" })
    } else {
        None
    }
}

/// Checks a delegation proof and its request binding before they are sent.
pub fn check_obo_request(proof: &SecretText, binding: &OboRequestBinding<'_>) -> (result: Result<
    (),
    IamClientError,
>)
    ensures
        match obo_request_error(proof.chars(), *binding) {
            Some(error) => result == Err::<(), IamClientError>(error),
            None => result == Ok::<(), IamClientError>(()),
        },
{
    check_credential(proof, "obo_")?;
    validate_outbound_binding("obo.method", binding.method, 16)?;
    validate_outbound_binding("obo.path", binding.path, MAX_RESOURCE_BYTES)?;
    validate_outbound_binding("obo.body_sha256", binding.body_sha256, 64)?;
    Ok(())
}

/// Refuses an answer larger than the configured bound.
pub fn check_response_size(size: usize, maximum: usize) -> (result: Result<(), IamClientError>)
    ensures
        result == if size > maximum {
            Err::<(), IamClientError>(IamClientError::InvalidResponse { reason: "response_size" })
        } else {
            Ok::<(), IamClientError>(())
        },
{
    if size > maximum {
        Err(invalid_response("response_size"))
    } else {
        Ok(())
    }
}

/// One organization that a login reaches.
#[derive(Clone, Debug)]
pub struct ReachableAuthorization {
    /// Application the authorization is meant for.
    pub audience: String,
    /// Testing environment the authorization belongs to.
    pub testing_environment_id: Option<u128>,
    /// Organization, with the verdict of the organization rules.
    pub org_id: Candidate,
    /// Version of the membership.
    pub membership_version: i64,
    /// Authorization epoch of the membership.
    pub authorization_epoch: i64,
}

impl ReachableAuthorization {
    /// Whether the authorization belongs to the audience and plane.
    pub open spec fn belongs(self, audience: Seq<char>, environment: Option<u128>) -> bool {
        self.audience@ == audience && self.testing_environment_id == environment
            && self.org_id.accepted && self.membership_version >= 1 && self.authorization_epoch
            >= 1
    }
}

/// The plane that a credential selects.
pub open spec fn plane_of(environment: Option<&IamEnvironmentCredential>) -> Option<u128> {
    match environment {
        Some(plane) => plane.environment_id,
        None => None,
    }
}

/// The plane that a credential selects.
fn selected_plane(environment: Option<&IamEnvironmentCredential>) -> (plane: Option<u128>)
    ensures
        plane == plane_of(environment),
{
    match environment {
        Some(plane) => plane.environment_id,
        None => None,
    }
}

/// The organizations that a login reaches, in order and each once.
pub fn reachable_organizations(
    authorizations: &Vec<ReachableAuthorization>,
    expected_audience: &str,
    environment: Option<&IamEnvironmentCredential>,
) -> (organizations: Result<Vec<String>, IamClientError>)
    ensures
        organizations is Ok == forall|k: int|
            0 <= k < authorizations@.len() ==> (#[trigger] authorizations@[k]).belongs(
                expected_audience@,
                plane_of(environment),
            ),
        organizations matches Err(error) ==> error == (IamClientError::InvalidResponse {
            reason: "authorization.organization",
        }),
        organizations matches Ok(list) ==> strictly_sorted(list@) && forall|text: Seq<char>|
            #[trigger] lists(list@, text) == exists|k: int|
                0 <= k < authorizations@.len() && (#[trigger] authorizations@[k]).org_id.text@
                    == text,
{
    let plane: Option<u128> = selected_plane(environment);
    let mut organizations: Vec<String> = Vec::new();
    let mut index: usize = 0;
    while index < authorizations.len()
        invariant
            index <= authorizations@.len(),
            plane == plane_of(environment),
            forall|k: int|
                0 <= k < index ==> (#[trigger] authorizations@[k]).belongs(
                    expected_audience@,
                    plane,
                ),
            strictly_sorted(organizations@),
            forall|text: Seq<char>| #[trigger]
                lists(organizations@, text) == exists|k: int|
                    0 <= k < index && (#[trigger] authorizations@[k]).org_id.text@ == text,
        decreases authorizations@.len() - index,
    {
        let authorization = &authorizations[index];
        if !same_text(authorization.audience.as_str(), expected_audience)
            || authorization.testing_environment_id != plane || !authorization.org_id.accepted
            || authorization.membership_version < 1 || authorization.authorization_epoch < 1 {
            assert(!authorizations@[index as int].belongs(expected_audience@, plane));
            return Err(invalid_response("authorization.organization"));
        }
        let ghost before = organizations@;
        insert_text(&mut organizations, authorization.org_id.text.clone());
        proof {
            assert forall|text: Seq<char>| #[trigger]
                lists(organizations@, text) == exists|k: int|
                    0 <= k < index + 1 && (#[trigger] authorizations@[k]).org_id.text@ == text by {
                if lists(before, text) {
                    let k = choose|k: int|
                        0 <= k < index && (#[trigger] authorizations@[k]).org_id.text@ == text;
                    assert(authorizations@[k].org_id.text@ == text);
                }
                if text == authorizations@[index as int].org_id.text@ {
                    assert(authorizations@[index as int].org_id.text@ == text);
                }
            }
        }
        index += 1;
    }
    Ok(organizations)
}

/// Texts in a row with single spaces between them.
pub open spec fn joined(texts: Seq<String>) -> Seq<char>
    decreases texts.len(),
{
    if texts.len() == 0 {
        Seq::empty()
    } else if texts.len() == 1 {
        texts[0]@
    } else {
        joined(texts.drop_last()) + seq![' '] + texts.last()@
    }
}

/// Texts in a row with single spaces between them.
pub fn join_with_spaces(texts: &Vec<String>) -> (text: String)
    ensures
        text@ == joined(texts@),
{
    let mut text = String::new();
    let mut index: usize = 0;
    assert(texts@.take(0) =~= Seq::<String>::empty());
    while index < texts.len()
        invariant
            index <= texts@.len(),
            text@ == joined(texts@.take(index as int)),
        decreases texts@.len() - index,
    {
        assert(texts@.take(index + 1).drop_last() =~= texts@.take(index as int));
        assert(texts@.take(index + 1).last() == texts@[index as int]);
        if index > 0 {
            text.push(' ');
        }
        text.append(texts[index].as_str());
        proof {
            if index == 0 {
                assert(texts@.take(1)[0] == texts@[0]);
                assert(text@ =~= texts@[0]@);
            } else {
                assert(text@ =~= joined(texts@.take(index as int)) + seq![' ']
                    + texts@[index as int]@);
            }
        }
        index += 1;
    }
    assert(texts@.take(texts@.len() as int) =~= texts@);
    text
}

/// Whether a list holds a scope.
pub open spec fn has_scope(scopes: Seq<String>, scope: Seq<char>) -> bool {
    exists|k: int| 0 <= k < scopes.len() && (#[trigger] scopes[k])@ == scope
}

/// Whether the scopes disclose the caller's own identity and membership.
pub open spec fn discloses_self(scopes: Seq<String>) -> bool {
    has_scope(scopes, "self.membership.read"@) && has_scope(scopes, "self.identity.read"@)
}

/// Whether the scopes disclose memberships and roles in general.
pub open spec fn discloses_directory(scopes: Seq<String>) -> bool {
    has_scope(scopes, "memberships.read"@) && has_scope(scopes, "roles.read"@)
}

/// Whether a snapshot with these scopes has to carry the member's tags. The
/// self-disclosure scopes leave tags to a scope of their own; the directory
/// scopes always carry them.
pub open spec fn discloses_tags(scopes: Seq<String>) -> bool {
    if discloses_self(scopes) {
        has_scope(scopes, "self.tags.read"@)
    } else {
        true
    }
}

/// Whether a snapshot is bound to the audience, organization and plane.
pub open spec fn snapshot_bound(
    snapshot: LocalAuthorization,
    audience: Seq<char>,
    organization: Seq<char>,
    environment: Option<&IamEnvironmentCredential>,
) -> bool {
    &&& snapshot.audience@ == audience
    &&& snapshot.org_id.text@ == organization
    &&& snapshot.principal_id != 0
    &&& snapshot.organization_id != 0
    &&& snapshot.membership_id != 0
    &&& snapshot.membership_version >= 1
    &&& snapshot.authorization_epoch >= 1
    &&& snapshot.testing_environment_id == plane_of(environment)
    &&& environment matches Some(plane) ==> plane.environment_id is Some
    &&& scope_set_ok(joined(snapshot.scopes@))
}

/// The role that a text names.
pub open spec fn role_of(role: Option<String>) -> Option<OrganizationRole> {
    match role {
        Some(text) => if text@ == "owner"@ {
            Some(OrganizationRole::Owner)
        } else if text@ == "admin"@ {
            Some(OrganizationRole::Admin)
        } else if text@ == "member"@ {
            Some(OrganizationRole::Member)
        } else {
            None
        },
        None => None,
    }
}

/// The role that a text names.
fn parse_role(role: &Option<String>) -> (parsed: Option<OrganizationRole>)
    ensures
        parsed == role_of(*role),
{
    if optional_text_is(role, "owner") {
        Some(OrganizationRole::Owner)
    } else if optional_text_is(role, "admin") {
        Some(OrganizationRole::Admin)
    } else if optional_text_is(role, "member") {
        Some(OrganizationRole::Member)
    } else {
        None
    }
}

/// The kind of member that a wire type names.
pub open spec fn kind_of(actor_type: Option<WireActorType>) -> Option<ActorKind> {
    match actor_type {
        Some(WireActorType::Carbon) => Some(ActorKind::Carbon),
        Some(WireActorType::Silicon) => Some(ActorKind::Silicon),
        Some(WireActorType::Other) | None => None,
    }
}

/// The kind of member that a wire type names.
pub fn parse_kind(actor_type: Option<WireActorType>) -> (kind: Option<ActorKind>)
    ensures
        kind == kind_of(actor_type),
{
    match actor_type {
        Some(WireActorType::Carbon) => Some(ActorKind::Carbon),
        Some(WireActorType::Silicon) => Some(ActorKind::Silicon),
        Some(WireActorType::Other) | None => None,
    }
}

/// One tag of a snapshot.
#[derive(Clone, Debug)]
pub struct AuthorizationTag {
    /// Immutable tag identifier.
    pub id: u128,
    /// Tag name, with the verdict of the tag rules.
    pub name: Candidate,
}

/// Whether a tag repeats the identifier or the name of an earlier one.
pub open spec fn tag_repeats(tags: Seq<AuthorizationTag>, index: int) -> bool {
    exists|k: int|
        0 <= k < index && (tags[k].id == tags[index].id || (#[trigger] tags[k]).name.text@
            == tags[index].name.text@)
}

/// The first failure among tags: a missing or repeated identity, or a name
/// that is no tag name.
pub open spec fn tags_error(
    tags: Seq<AuthorizationTag>,
    identity: &'static str,
    name: &'static str,
) -> Option<IamClientError>
    decreases tags.len(),
{
    if tags.len() == 0 {
        None
    } else {
        match tags_error(tags.drop_last(), identity, name) {
            Some(error) => Some(error),
            None => if tags.last().id == 0 || tag_repeats(tags, tags.len() - 1) {
                Some(IamClientError::InvalidResponse { reason: identity })
            } else if !tags.last().name.accepted {
                Some(IamClientError::InvalidResponse { reason: name })
            } else {
                None
            },
        }
    }
}

/// Whether membership tags are the given tags one for one.
pub open spec fn same_tags(made: Seq<MembershipTag>, tags: Seq<AuthorizationTag>) -> bool {
    made.len() == tags.len() && forall|k: int|
        0 <= k < tags.len() ==> (#[trigger] made[k]).id == tags[k].id && made[k].name
            == tags[k].name.text
}

/// Whether names are the names of membership tags one for one.
pub open spec fn same_names(names: Seq<String>, tags: Seq<MembershipTag>) -> bool {
    names.len() == tags.len() && forall|k: int|
        0 <= k < tags.len() ==> #[trigger] names[k] == tags[k].name
}

/// Accepts tags of which none is missing an identity, repeated or misnamed.
pub fn membership_tags(
    tags: &Vec<AuthorizationTag>,
    identity: &'static str,
    name: &'static str,
) -> (made: Result<Vec<MembershipTag>, IamClientError>)
    ensures
        match tags_error(tags@, identity, name) {
            Some(error) => made == Err::<Vec<MembershipTag>, IamClientError>(error),
            None => made matches Ok(list) && same_tags(list@, tags@),
        },
{
    let mut made: Vec<MembershipTag> = Vec::new();
    let mut index: usize = 0;
    assert(tags@.take(0) =~= Seq::<AuthorizationTag>::empty());
    while index < tags.len()
        invariant
            index <= tags@.len(),
            tags_error(tags@.take(index as int), identity, name) is None,
            same_tags(made@, tags@.take(index as int)),
        decreases tags@.len() - index,
    {
        let ghost next = tags@.take(index + 1);
        assert(next.drop_last() =~= tags@.take(index as int));
        assert(next.last() == tags@[index as int]);
        let tag = &tags[index];
        let mut repeated = tag.id == 0;
        let mut earlier: usize = 0;
        while earlier < index
            invariant
                index < tags@.len(),
                earlier <= index,
                *tag == tags@[index as int],
                next == tags@.take(index + 1),
                repeated == (tag.id == 0 || exists|k: int|
                    0 <= k < earlier && (next[k].id == next[index as int].id || (
                    #[trigger] next[k]).name.text@ == next[index as int].name.text@)),
            decreases index - earlier,
        {
            assert(next[earlier as int] == tags@[earlier as int]);
            assert(next[index as int] == tags@[index as int]);
            if tags[earlier].id == tag.id || same_text(
                tags[earlier].name.text.as_str(),
                tag.name.text.as_str(),
            ) {
                repeated = true;
            }
            earlier += 1;
        }
        if repeated {
            assert(tags_error(next, identity, name) == Some(
                IamClientError::InvalidResponse { reason: identity },
            ));
            proof {
                lemma_tags_error_persists(tags@, index + 1, identity, name);
            }
            return Err(invalid_response(identity));
        }
        if !tag.name.accepted {
            proof {
                lemma_tags_error_persists(tags@, index + 1, identity, name);
            }
            return Err(invalid_response(name));
        }
        made.push(MembershipTag { id: tag.id, name: tag.name.text.clone() });
        index += 1;
        assert(same_tags(made@, tags@.take(index as int)));
    }
    assert(tags@.take(tags@.len() as int) =~= tags@);
    Ok(made)
}

/// The first failure among the first tags is the first failure of all.
proof fn lemma_tags_error_persists(
    tags: Seq<AuthorizationTag>,
    length: int,
    identity: &'static str,
    name: &'static str,
)
    requires
        0 <= length <= tags.len(),
        tags_error(tags.take(length), identity, name) is Some,
    ensures
        tags_error(tags, identity, name) == tags_error(tags.take(length), identity, name),
    decreases tags.len() - length,
{
    if length == tags.len() {
        assert(tags.take(length) =~= tags);
    } else {
        assert(tags.take(length + 1).drop_last() =~= tags.take(length));
        lemma_tags_error_persists(tags, length + 1, identity, name);
    }
}

/// The names of membership tags.
pub fn tag_names(tags: &Vec<MembershipTag>) -> (names: Vec<String>)
    ensures
        same_names(names@, tags@),
{
    let mut names: Vec<String> = Vec::new();
    let mut index: usize = 0;
    while index < tags.len()
        invariant
            index <= tags@.len(),
            same_names(names@, tags@.take(index as int)),
        decreases tags@.len() - index,
    {
        names.push(tags[index].name.clone());
        index += 1;
        assert(same_names(names@, tags@.take(index as int)));
    }
    assert(tags@.take(tags@.len() as int) =~= tags@);
    names
}

/// The first requirement that a snapshot misses.
pub open spec fn authorization_error(
    snapshot: LocalAuthorization,
    audience: Seq<char>,
    organization: Seq<char>,
    environment: Option<&IamEnvironmentCredential>,
) -> Option<IamClientError> {
    if !snapshot_bound(snapshot, audience, organization, environment) {
        Some(IamClientError::BindingMismatch { binding: "authorization.scope" })
    } else if !discloses_self(snapshot.scopes@) && !discloses_directory(snapshot.scopes@) {
        Some(IamClientError::Rejected)
    } else if role_of(snapshot.org_role) is None {
        Some(IamClientError::Rejected)
    } else if kind_of(snapshot.actor_type) is None {
        Some(IamClientError::InvalidResponse { reason: "authorization.actor_type" })
    } else if snapshot.tags is Some != discloses_tags(snapshot.scopes@) {
        Some(IamClientError::Rejected)
    } else if snapshot.tags matches Some(tags) && tags_error(
        tags@,
        "authorization.tag_id",
        "authorization.tag_name",
    ) is Some {
        tags_error(snapshot.tags->0@, "authorization.tag_id", "authorization.tag_name")
    } else if snapshot.public_id is None {
        Some(IamClientError::Rejected)
    } else if !snapshot.public_id->0.accepted {
        Some(IamClientError::InvalidResponse { reason: "authorization.public_id" })
    } else {
        None
    }
}

/// Whether a context carries exactly the authority of a snapshot.
pub open spec fn context_of_snapshot(
    context: RequestAuthContext,
    snapshot: LocalAuthorization,
    organization: Seq<char>,
    authentication: AuthenticationMode,
) -> bool {
    &&& context.organization_id@ == organization
    &&& Some(context.actor.kind) == kind_of(snapshot.actor_type)
    &&& context.actor.id == snapshot.public_id->0.text
    &&& Some(context.role) == role_of(snapshot.org_role)
    &&& context.authentication == authentication
    &&& context.binding matches Some(binding) && {
        &&& binding.organization_id == snapshot.organization_id
        &&& binding.principal_id == snapshot.principal_id
        &&& binding.membership_id == snapshot.membership_id
        &&& binding.membership_version == snapshot.membership_version
        &&& binding.authorization_epoch == snapshot.authorization_epoch
        &&& binding.tags is Some == snapshot.tags is Some
        &&& context.tags is Some == snapshot.tags is Some
        &&& snapshot.tags matches Some(tags) ==> same_tags(binding.tags->0@, tags@) && same_names(
            context.tags->0@,
            binding.tags->0@,
        )
    }
}

/// Builds the authority of a request from the snapshot that the service
/// disclosed about it.
pub fn authorization(
    snapshot: LocalAuthorization,
    audience: &str,
    organization: &str,
    environment: Option<&IamEnvironmentCredential>,
    authentication: AuthenticationMode,
) -> (context: Result<RequestAuthContext, IamClientError>)
    ensures
        match authorization_error(snapshot, audience@, organization@, environment) {
            Some(error) => context == Err::<RequestAuthContext, IamClientError>(error),
            None => context matches Ok(made) && context_of_snapshot(
                made,
                snapshot,
                organization@,
                authentication,
            ),
        },
{
    let plane: Option<u128> = selected_plane(environment);
    let unplaced = match environment {
        Some(credential) => credential.environment_id.is_none(),
        None => false,
    };
    let scope = join_with_spaces(&snapshot.scopes);
    if !same_text(snapshot.audience.as_str(), audience) || !same_text(
        snapshot.org_id.text.as_str(),
        organization,
    ) || snapshot.principal_id == 0 || snapshot.organization_id == 0 || snapshot.membership_id == 0
        || snapshot.membership_version < 1 || snapshot.authorization_epoch < 1
        || snapshot.testing_environment_id != plane || unplaced || !valid_scope_set(
        scope.as_str(),
    ) {
        return Err(binding_mismatch("authorization.scope"));
    }
    let own = contains_text(&snapshot.scopes, "self.membership.read") && contains_text(
        &snapshot.scopes,
        "self.identity.read",
    );
    let directory = contains_text(&snapshot.scopes, "memberships.read") && contains_text(
        &snapshot.scopes,
        "roles.read",
    );
    if !own && !directory {
        return Err(IamClientError::Rejected);
    }
    let role = match parse_role(&snapshot.org_role) {
        Some(role) => role,
        None => {
            return Err(IamClientError::Rejected);
        },
    };
    let kind = match parse_kind(snapshot.actor_type) {
        Some(kind) => kind,
        None => {
            return Err(invalid_response("authorization.actor_type"));
        },
    };
    let tags_disclosed = !own || contains_text(&snapshot.scopes, "self.tags.read");
    if snapshot.tags.is_some() != tags_disclosed {
        return Err(IamClientError::Rejected);
    }
    let tags = match &snapshot.tags {
        Some(list) => match membership_tags(
            list,
            "authorization.tag_id",
            "authorization.tag_name",
        ) {
            Ok(made) => Some(made),
            Err(error) => {
                return Err(error);
            },
        },
        None => None,
    };
    let public_id = match snapshot.public_id {
        Some(candidate) => {
            if !candidate.accepted {
                return Err(invalid_response("authorization.public_id"));
            }
            candidate.text
        },
        None => {
            return Err(IamClientError::Rejected);
        },
    };
    let names = match &tags {
        Some(list) => Some(tag_names(list)),
        None => None,
    };
    Ok(
        RequestAuthContext {
            organization_id: organization.to_owned(),
            actor: ActorRef { kind, id: public_id },
            role,
            tags: names,
            authentication,
            binding: Some(
                IamMembershipBinding {
                    organization_id: snapshot.organization_id,
                    principal_id: snapshot.principal_id,
                    membership_id: snapshot.membership_id,
                    membership_version: snapshot.membership_version,
                    authorization_epoch: snapshot.authorization_epoch,
                    tags,
                },
            ),
        },
    )
}

/// The first requirement that binds an introspected token to its snapshot and
/// is missed.
pub open spec fn bearer_binding_error(
    verified: VerifiedIdentity,
    snapshot: Option<LocalAuthorization>,
    scopes: Seq<char>,
    audience: Seq<char>,
    organization: Seq<char>,
    environment: Option<&IamEnvironmentCredential>,
) -> Option<IamClientError> {
    match snapshot {
        None => Some(IamClientError::InvalidResponse { reason: "authorization_missing" }),
        Some(authority) => if authority.principal_id != verified.principal_id
            || authority.membership_id != verified.membership_id || authority.authorization_epoch
            != verified.authorization_epoch || joined(authority.scopes@) != scopes {
            Some(IamClientError::BindingMismatch { binding: "authorization.token" })
        } else {
            match authorization_error(authority, audience, organization, environment) {
                Some(error) => Some(error),
                None => if kind_of(authority.actor_type) != Some(verified.actor_kind) {
                    Some(IamClientError::BindingMismatch { binding: "authorization.actor_type" })
                } else {
                    None
                },
            }
        },
    }
}

/// Attaches the snapshot's authority to an introspected token once both agree
/// on principal, membership, epoch, scopes and kind of member.
pub fn bind_bearer(
    verified: VerifiedIdentity,
    snapshot: Option<LocalAuthorization>,
    scopes: &Option<String>,
    audience: &str,
    organization: &str,
    environment: Option<&IamEnvironmentCredential>,
) -> (bound: Result<VerifiedIdentity, IamClientError>)
    ensures
        match bearer_binding_error(
            verified,
            snapshot,
            match *scopes {
                Some(text) => text@,
                None => Seq::empty(),
            },
            audience@,
            organization@,
            environment,
        ) {
            Some(error) => bound == Err::<VerifiedIdentity, IamClientError>(error),
            None => bound matches Ok(identity) && identity == (VerifiedIdentity {
                authorization: identity.authorization,
                ..verified
            }) && identity.authorization is Some && context_of_snapshot(
                identity.authorization->0,
                snapshot->0,
                organization@,
                AuthenticationMode::Bearer,
            ),
        },
{
    let authority = match snapshot {
        Some(authority) => authority,
        None => {
            return Err(invalid_response("authorization_missing"));
        },
    };
    let joined_scopes = join_with_spaces(&authority.scopes);
    let scopes_agree = match scopes {
        Some(text) => same_text(joined_scopes.as_str(), text.as_str()),
        None => joined_scopes.as_str().is_empty(),
    };
    proof {
        if scopes is None && joined(authority.scopes@).len() == 0 {
            assert(joined(authority.scopes@) =~= Seq::<char>::empty());
        }
    }
    if authority.principal_id != verified.principal_id || authority.membership_id
        != verified.membership_id || authority.authorization_epoch != verified.authorization_epoch
        || !scopes_agree {
        return Err(binding_mismatch("authorization.token"));
    }
    let context = match authorization(
        authority,
        audience,
        organization,
        environment,
        AuthenticationMode::Bearer,
    ) {
        Ok(context) => context,
        Err(error) => {
            return Err(error);
        },
    };
    if context.actor.kind != verified.actor_kind {
        return Err(binding_mismatch("authorization.actor_type"));
    }
    Ok(
        VerifiedIdentity {
            authorization: Some(context),
            principal_id: verified.principal_id,
            actor_kind: verified.actor_kind,
            organization_id: verified.organization_id,
            membership_id: verified.membership_id,
            authorization_epoch: verified.authorization_epoch,
            expires_at: verified.expires_at,
        },
    )
}

/// Refuses a delegation answer whose snapshot is about another principal than
/// its actor.
pub fn check_obo_principal(snapshot_principal: u128, actor_principal: u128) -> (result: Result<
    (),
    IamClientError,
>)
    ensures
        result == if snapshot_principal != actor_principal {
            Err::<(), IamClientError>(
                IamClientError::BindingMismatch { binding: "authorization.principal" },
            )
        } else {
            Ok::<(), IamClientError>(())
        },
{
    if snapshot_principal != actor_principal {
        return Err(binding_mismatch("authorization.principal"));
    }
    Ok(())
}

/// The first requirement that binds a delegation answer to its snapshot and is
/// missed.
pub open spec fn obo_binding_error(
    verified: VerifiedOboAccess,
    snapshot: LocalAuthorization,
    audience: Seq<char>,
    environment: Option<&IamEnvironmentCredential>,
) -> Option<IamClientError> {
    match authorization_error(snapshot, audience, verified.organization_id@, environment) {
        Some(error) => Some(error),
        None => if kind_of(snapshot.actor_type) != Some(verified.actor.kind)
            || snapshot.public_id->0.text@ != verified.actor.id@ {
            Some(IamClientError::BindingMismatch { binding: "authorization.actor" })
        } else {
            None
        },
    }
}

/// Attaches the snapshot's authority to a delegation answer once both name the
/// same member. The authority acts for the issuing application.
pub fn bind_obo(
    verified: VerifiedOboAccess,
    snapshot: LocalAuthorization,
    audience: &str,
    environment: Option<&IamEnvironmentCredential>,
) -> (bound: Result<VerifiedOboAccess, IamClientError>)
    ensures
        match obo_binding_error(verified, snapshot, audience@, environment) {
            Some(error) => bound == Err::<VerifiedOboAccess, IamClientError>(error),
            None => bound matches Ok(access) && access == (VerifiedOboAccess {
                authorization: access.authorization,
                ..verified
            }) && access.authorization is Some && context_of_snapshot(
                access.authorization->0,
                snapshot,
                verified.organization_id@,
                AuthenticationMode::OnBehalfOf { application_id: verified.issuer },
            ),
        },
{
    let context = match authorization(
        snapshot,
        audience,
        verified.organization_id.as_str(),
        environment,
        AuthenticationMode::OnBehalfOf { application_id: verified.issuer.clone() },
    ) {
        Ok(context) => context,
        Err(error) => {
            return Err(error);
        },
    };
    if !context.actor.same_actor(&verified.actor) {
        return Err(binding_mismatch("authorization.actor"));
    }
    Ok(
        VerifiedOboAccess {
            authorization: Some(context),
            proof_id: verified.proof_id,
            actor: verified.actor,
            organization_id: verified.organization_id,
            issuer: verified.issuer,
            endpoint_id: verified.endpoint_id,
            metadata: verified.metadata,
        },
    )
}

/// Identity of a session and the organizations it reaches.
#[derive(Clone, Debug)]
pub struct IamSessionIdentity {
    /// Principal of the session.
    pub principal_id: u128,
    /// Kind of the member.
    pub actor_kind: ActorKind,
    /// Public identifier, where the session reaches an organization.
    pub public_id: Option<String>,
    /// Organizations in order, each once.
    pub organizations: Vec<String>,
    /// Expiry as a Unix timestamp.
    pub expires_at: i64,
}

/// The public identifier of a snapshot.
pub open spec fn public_chars(snapshot: LocalAuthorization) -> Option<Seq<char>> {
    match snapshot.public_id {
        Some(candidate) => Some(candidate.text@),
        None => None,
    }
}

/// What every snapshot of one session has to agree with.
pub struct SessionBinding {
    /// Principal of the session.
    pub principal_id: u128,
    /// Kind of the member.
    pub actor_kind: ActorKind,
    /// Plane of the session.
    pub environment: Option<u128>,
}

/// The first requirement that a session's snapshot misses. `known` is the
/// public identifier of the snapshots before it.
pub open spec fn session_snapshot_error(
    snapshot: LocalAuthorization,
    binding: SessionBinding,
    audience: Seq<char>,
    known: Option<Seq<char>>,
) -> Option<IamClientError> {
    if kind_of(snapshot.actor_type) is None {
        Some(IamClientError::InvalidResponse { reason: "session.actor_type" })
    } else if snapshot.principal_id != binding.principal_id || kind_of(snapshot.actor_type) != Some(
        binding.actor_kind,
    ) || snapshot.audience@ != audience || snapshot.testing_environment_id != binding.environment
        || !snapshot.org_id.accepted || snapshot.membership_id == 0 || snapshot.organization_id
        == 0 || snapshot.membership_version < 1 || snapshot.authorization_epoch < 1 || (known
        is Some && known != public_chars(snapshot)) {
        Some(IamClientError::BindingMismatch { binding: "session.authorization" })
    } else if snapshot.public_id is None {
        Some(IamClientError::Rejected)
    } else if !snapshot.public_id->0.accepted {
        Some(IamClientError::InvalidResponse { reason: "session.public_id" })
    } else {
        None
    }
}

/// The public identifier that the first snapshots carry.
pub open spec fn known_public_id(snapshots: Seq<LocalAuthorization>) -> Option<Seq<char>> {
    if snapshots.len() == 0 {
        None
    } else {
        public_chars(snapshots.last())
    }
}

/// The first failure among a session's snapshots.
pub open spec fn session_snapshots_error(
    snapshots: Seq<LocalAuthorization>,
    binding: SessionBinding,
    audience: Seq<char>,
) -> Option<IamClientError>
    decreases snapshots.len(),
{
    if snapshots.len() == 0 {
        None
    } else {
        match session_snapshots_error(snapshots.drop_last(), binding, audience) {
            Some(error) => Some(error),
            None => session_snapshot_error(
                snapshots.last(),
                binding,
                audience,
                known_public_id(snapshots.drop_last()),
            ),
        }
    }
}

/// The first failure among the first snapshots is the first failure of all.
proof fn lemma_session_error_persists(
    snapshots: Seq<LocalAuthorization>,
    length: int,
    binding: SessionBinding,
    audience: Seq<char>,
)
    requires
        0 <= length <= snapshots.len(),
        session_snapshots_error(snapshots.take(length), binding, audience) is Some,
    ensures
        session_snapshots_error(snapshots, binding, audience) == session_snapshots_error(
            snapshots.take(length),
            binding,
            audience,
        ),
    decreases snapshots.len() - length,
{
    if length == snapshots.len() {
        assert(snapshots.take(length) =~= snapshots);
    } else {
        assert(snapshots.take(length + 1).drop_last() =~= snapshots.take(length));
        lemma_session_error_persists(snapshots, length + 1, binding, audience);
    }
}

/// Whether a list names exactly the organizations of snapshots, in order and
/// each once.
pub open spec fn organizations_of(list: Seq<String>, snapshots: Seq<LocalAuthorization>) -> bool {
    strictly_sorted(list) && forall|text: Seq<char>| #[trigger]
        lists(list, text) == exists|k: int|
            0 <= k < snapshots.len() && (#[trigger] snapshots[k]).org_id.text@ == text
}

/// Checks one snapshot of a session.
fn check_session_snapshot(
    snapshot: &LocalAuthorization,
    binding: &SessionBinding,
    audience: &str,
    known: &Option<String>,
) -> (result: Result<(), IamClientError>)
    ensures
        match session_snapshot_error(*snapshot, *binding, audience@, optional_chars(*known)) {
            Some(error) => result == Err::<(), IamClientError>(error),
            None => result == Ok::<(), IamClientError>(()),
        },
{
    let kind = match parse_kind(snapshot.actor_type) {
        Some(kind) => kind,
        None => {
            return Err(invalid_response("session.actor_type"));
        },
    };
    let other_identity = match (known, &snapshot.public_id) {
        (Some(known), Some(candidate)) => !same_text(known.as_str(), candidate.text.as_str()),
        (Some(_), None) => true,
        (None, _) => false,
    };
    if snapshot.principal_id != binding.principal_id || kind != binding.actor_kind || !same_text(
        snapshot.audience.as_str(),
        audience,
    ) || snapshot.testing_environment_id != binding.environment || !snapshot.org_id.accepted
        || snapshot.membership_id == 0 || snapshot.organization_id == 0
        || snapshot.membership_version < 1 || snapshot.authorization_epoch < 1 || other_identity {
        return Err(binding_mismatch("session.authorization"));
    }
    match &snapshot.public_id {
        Some(candidate) => {
            if candidate.accepted {
                Ok(())
            } else {
                Err(invalid_response("session.public_id"))
            }
        },
        None => Err(IamClientError::Rejected),
    }
}

/// The public identifier and the organizations of a session's snapshots.
fn session_organizations(
    snapshots: &Vec<LocalAuthorization>,
    binding: &SessionBinding,
    audience: &str,
) -> (reached: Result<(Option<String>, Vec<String>), IamClientError>)
    ensures
        match session_snapshots_error(snapshots@, *binding, audience@) {
            Some(error) => reached == Err::<(Option<String>, Vec<String>), IamClientError>(error),
            None => reached matches Ok(pair) && optional_chars(pair.0) == known_public_id(
                snapshots@,
            ) && organizations_of(pair.1@, snapshots@),
        },
{
    let mut public_id: Option<String> = None;
    let mut organizations: Vec<String> = Vec::new();
    let mut index: usize = 0;
    assert(snapshots@.take(0) =~= Seq::<LocalAuthorization>::empty());
    while index < snapshots.len()
        invariant
            index <= snapshots@.len(),
            session_snapshots_error(snapshots@.take(index as int), *binding, audience@) is None,
            optional_chars(public_id) == known_public_id(snapshots@.take(index as int)),
            strictly_sorted(organizations@),
            forall|text: Seq<char>| #[trigger]
                lists(organizations@, text) == exists|k: int|
                    0 <= k < index && (#[trigger] snapshots@[k]).org_id.text@ == text,
        decreases snapshots@.len() - index,
    {
        let snapshot = &snapshots[index];
        let ghost next = snapshots@.take(index + 1);
        assert(next.drop_last() =~= snapshots@.take(index as int));
        assert(next.last() == *snapshot);
        match check_session_snapshot(snapshot, binding, audience, &public_id) {
            Ok(()) => {},
            Err(error) => {
                proof {
                    lemma_session_error_persists(snapshots@, index + 1, *binding, audience@);
                }
                return Err(error);
            },
        }
        public_id = match &snapshot.public_id {
            Some(candidate) => Some(candidate.text.clone()),
            None => None,
        };
        let ghost before = organizations@;
        insert_text(&mut organizations, snapshot.org_id.text.clone());
        proof {
            assert forall|text: Seq<char>| #[trigger]
                lists(organizations@, text) == exists|k: int|
                    0 <= k < index + 1 && (#[trigger] snapshots@[k]).org_id.text@ == text by {
                if lists(before, text) {
                    let k = choose|k: int|
                        0 <= k < index && (#[trigger] snapshots@[k]).org_id.text@ == text;
                    assert(snapshots@[k].org_id.text@ == text);
                }
                if text == snapshot.org_id.text@ {
                    assert(snapshots@[index as int].org_id.text@ == text);
                }
            }
        }
        index += 1;
    }
    assert(snapshots@.take(snapshots@.len() as int) =~= snapshots@);
    Ok((public_id, organizations))
}

/// The snapshots that an introspection offers: the one of its selected
/// organization, or those of every organization where it selects none.
pub open spec fn session_snapshots(response: LocalIntrospection) -> Option<Seq<LocalAuthorization>> {
    match (response.authorization, response.authorizations) {
        (Some(snapshot), None) => if optional_chars(response.org_id) == Some(snapshot.org_id.text@) {
            Some(seq![snapshot])
        } else {
            None
        },
        (None, Some(snapshots)) => if response.org_id is None {
            Some(snapshots@)
        } else {
            None
        },
        _ => None,
    }
}

/// What a session's introspection is bound to.
pub open spec fn session_binding(
    response: LocalIntrospection,
    environment: Option<&IamEnvironmentCredential>,
) -> SessionBinding {
    SessionBinding {
        principal_id: response.principal_id->0,
        actor_kind: kind_of(response.actor_type)->0,
        environment: plane_of(environment),
    }
}

/// The first requirement that a session's introspection misses at a time.
pub open spec fn session_error(
    response: LocalIntrospection,
    audience: Seq<char>,
    environment: Option<&IamEnvironmentCredential>,
    now: i64,
) -> Option<IamClientError> {
    if !response.active {
        Some(IamClientError::Rejected)
    } else if optional_chars(response.client_id) != Some(audience) || optional_chars(
        response.audience,
    ) != Some(audience) {
        Some(IamClientError::BindingMismatch { binding: "session.audience" })
    } else if response.principal_id is None || response.principal_id == Some(0u128) {
        Some(IamClientError::InvalidResponse { reason: "session.principal_id" })
    } else if kind_of(response.actor_type) is None {
        Some(IamClientError::InvalidResponse { reason: "session.actor_type" })
    } else if response.expires_at is None {
        Some(IamClientError::InvalidResponse { reason: "session.expires_at" })
    } else if response.expires_at->0 <= now {
        Some(IamClientError::Rejected)
    } else if session_snapshots(response) is None {
        Some(IamClientError::InvalidResponse { reason: "session.authorizations" })
    } else {
        session_snapshots_error(
            session_snapshots(response)->0,
            session_binding(response, environment),
            audience,
        )
    }
}

/// Accepts the identity of a session that is active, unexpired and bound to
/// this application in every organization it reaches.
pub fn session_identity(
    response: LocalIntrospection,
    audience: &str,
    environment: Option<&IamEnvironmentCredential>,
    now: i64,
) -> (identity: Result<IamSessionIdentity, IamClientError>)
    ensures
        match session_error(response, audience@, environment, now) {
            Some(error) => identity == Err::<IamSessionIdentity, IamClientError>(error),
            None => identity matches Ok(session) && Some(session.principal_id)
                == response.principal_id && Some(session.actor_kind) == kind_of(response.actor_type)
                && Some(session.expires_at) == response.expires_at && optional_chars(
                session.public_id,
            ) == known_public_id(session_snapshots(response)->0) && organizations_of(
                session.organizations@,
                session_snapshots(response)->0,
            ),
        },
{
    if !response.active {
        return Err(IamClientError::Rejected);
    }
    if !optional_text_is(&response.client_id, audience) || !optional_text_is(
        &response.audience,
        audience,
    ) {
        return Err(binding_mismatch("session.audience"));
    }
    let principal_id: u128 = match response.principal_id {
        Some(id) => id,
        None => 0,
    };
    if principal_id == 0 {
        return Err(invalid_response("session.principal_id"));
    }
    let actor_kind = match parse_kind(response.actor_type) {
        Some(kind) => kind,
        None => {
            return Err(invalid_response("session.actor_type"));
        },
    };
    let expires_at: i64 = match response.expires_at {
        Some(expiry) => expiry,
        None => {
            return Err(invalid_response("session.expires_at"));
        },
    };
    if expires_at <= now {
        return Err(IamClientError::Rejected);
    }
    let snapshots = match (response.authorization, response.authorizations) {
        (Some(snapshot), None) => {
            if !optional_text_is(&response.org_id, snapshot.org_id.text.as_str()) {
                return Err(invalid_response("session.authorizations"));
            }
            let mut one: Vec<LocalAuthorization> = Vec::new();
            one.push(snapshot);
            assert(one@ =~= seq![snapshot]);
            one
        },
        (None, Some(snapshots)) => {
            if response.org_id.is_some() {
                return Err(invalid_response("session.authorizations"));
            }
            snapshots
        },
        _ => {
            return Err(invalid_response("session.authorizations"));
        },
    };
    let binding = SessionBinding {
        principal_id,
        actor_kind,
        environment: selected_plane(environment),
    };
    match session_organizations(&snapshots, &binding, audience) {
        Ok((public_id, organizations)) => Ok(
            IamSessionIdentity { principal_id, actor_kind, public_id, organizations, expires_at },
        ),
        Err(error) => Err(error),
    }
}

/// A bearer token acts with nothing but its own authority: what is attached to
/// it names the token's principal, membership and epoch, the organization that
/// was asked for and the application that asked, and the token has not expired.
pub proof fn law_bearer_authority_is_the_tokens_own(
    wire: WireIntrospectionResponse,
    verified: VerifiedIdentity,
    snapshot: LocalAuthorization,
    scopes: Seq<char>,
    application: Seq<char>,
    organization: Seq<char>,
    environment: Option<&IamEnvironmentCredential>,
    now: i128,
)
    requires
        introspection_error(wire, organization, application, now) is None,
        verified.principal_id == wire.principal_id->0,
        verified.membership_id == wire.membership_id->0,
        verified.authorization_epoch == wire.authorization_epoch->0,
        verified.actor_kind == wire.actor_type->0,
        bearer_binding_error(
            verified,
            Some(snapshot),
            scopes,
            application,
            organization,
            environment,
        ) is None,
    ensures
        wire.active,
        wire.client_id->0@ == application && wire.audience->0@ == application
            && snapshot.audience@ == application,
        wire.org_id->0.text@ == organization && snapshot.org_id.text@ == organization,
        Some(snapshot.principal_id) == wire.principal_id && snapshot.principal_id != 0,
        Some(snapshot.membership_id) == wire.membership_id && snapshot.membership_id != 0,
        Some(snapshot.authorization_epoch) == wire.authorization_epoch,
        kind_of(snapshot.actor_type) == wire.actor_type,
        now < instant_of_timestamp(wire.expires_at->0 as int)->0,
{
}

/// Neither plane lends the other its authority: without a testing credential
/// only production snapshots count, and with one only those of the environment
/// that the credential selects.
pub proof fn law_planes_share_no_authority(
    snapshot: LocalAuthorization,
    audience: Seq<char>,
    organization: Seq<char>,
    environment: Option<&IamEnvironmentCredential>,
)
    requires
        authorization_error(snapshot, audience, organization, environment) is None,
    ensures
        environment is None ==> snapshot.testing_environment_id is None,
        environment matches Some(plane) ==> plane.environment_id is Some
            && snapshot.testing_environment_id == plane.environment_id,
{
}

/// Tags that the scopes do not disclose stay unknown, which is not the same as
/// a member without tags: a request knows tags exactly where they are
/// disclosed.
pub proof fn law_undisclosed_tags_stay_unknown(
    context: RequestAuthContext,
    snapshot: LocalAuthorization,
    audience: Seq<char>,
    organization: Seq<char>,
    environment: Option<&IamEnvironmentCredential>,
    authentication: AuthenticationMode,
)
    requires
        authorization_error(snapshot, audience, organization, environment) is None,
        context_of_snapshot(context, snapshot, organization, authentication),
    ensures
        context.tags is Some == discloses_tags(snapshot.scopes@),
        context.tags matches Some(names) ==> names@.len() == snapshot.tags->0@.len(),
{
}

/// All snapshots of a session are about one member of one plane, whatever
/// organizations they reach.
pub proof fn law_sessions_belong_to_one_member(
    snapshots: Seq<LocalAuthorization>,
    binding: SessionBinding,
    audience: Seq<char>,
    index: int,
)
    requires
        session_snapshots_error(snapshots, binding, audience) is None,
        0 <= index < snapshots.len(),
    ensures
        snapshots[index].principal_id == binding.principal_id,
        kind_of(snapshots[index].actor_type) == Some(binding.actor_kind),
        snapshots[index].audience@ == audience,
        snapshots[index].testing_environment_id == binding.environment,
        public_chars(snapshots[index]) is Some,
        public_chars(snapshots[index]) == known_public_id(snapshots),
    decreases snapshots.len(),
{
    if index < snapshots.len() - 1 {
        law_sessions_belong_to_one_member(snapshots.drop_last(), binding, audience, index);
    }
}

} // verus!
