//! Claims of successful answers and the values built from them.

use vstd::prelude::*;

use crate::clock::{from_unix_timestamp, instant_of_timestamp};
use crate::iam::{
    binding_mismatch, environment_key_ok, fixed_secret_ok, invalid_response, plain_text,
    required_wire, scope_set_ok, valid_environment_key, valid_fixed_iam_secret, valid_scope_set,
    validate_wire_text, IamClientBuildError, IamClientError, OboRequestBinding,
    MAX_IDENTIFIER_BYTES,
};
use crate::ids::Candidate;
use crate::json::Json;
use crate::model::{ActorKind, ActorRef, RequestAuthContext};
use crate::secret::SecretText;
use crate::text::{optional_chars, same_text};

verus! {

/// Identity for making requests inside one test plane.
///
/// Plane selection and application authentication are held together, so no
/// part can fall back to the production application.
#[derive(Debug)]
pub struct IamEnvironmentCredential {
    /// Public identifier of the environment, once it is known.
    pub environment_id: Option<u128>,
    /// Root key of the environment.
    pub environment_key: SecretText,
    /// Identifier of the test-only application.
    pub app_id: String,
    /// Secret of the test-only application.
    pub app_secret: SecretText,
}

impl IamEnvironmentCredential {
    /// Builds a credential from an environment key of 32 letters and digits,
    /// a canonical application identifier and an `ask_` application secret.
    pub fn new(
        environment_key: SecretText,
        app_id: Candidate,
        app_secret: SecretText,
    ) -> (credential: Result<IamEnvironmentCredential, IamClientBuildError>)
        ensures
            credential is Ok == (environment_key_ok(environment_key.chars())
                && app_id.accepted && fixed_secret_ok(app_secret.chars(), "ask_"@)),
            credential matches Err(error) ==> error == IamClientBuildError::InvalidIdentifier,
            credential matches Ok(built) ==> built.environment_id is None && built.environment_key
                == environment_key && built.app_id == app_id.text && built.app_secret
                == app_secret,
    {
        if !valid_environment_key(environment_key.expose_secret()) || !app_id.accepted
            || !valid_fixed_iam_secret(app_secret.expose_secret(), "ask_") {
            return Err(IamClientBuildError::InvalidIdentifier);
        }
        Ok(
            IamEnvironmentCredential {
                environment_id: None,
                environment_key,
                app_id: app_id.text,
                app_secret,
            },
        )
    }

    /// Binds authorization snapshots to the environment's public identifier.
    pub fn with_environment_id(self, environment_id: u128) -> (credential: IamEnvironmentCredential)
        ensures
            credential == (IamEnvironmentCredential {
                environment_id: Some(environment_id),
                ..self
            }),
    {
        IamEnvironmentCredential {
            environment_id: Some(environment_id),
            environment_key: self.environment_key,
            app_id: self.app_id,
            app_secret: self.app_secret,
        }
    }
}

/// Access and refresh credentials of one login or refresh.
#[derive(Debug)]
pub struct IamApplicationTokens {
    /// Opaque access token.
    pub access_token: SecretText,
    /// Rotating refresh token.
    pub refresh_token: SecretText,
    /// Lifetime of the access token in seconds.
    pub expires_in_seconds: u64,
    /// Canonical scope set.
    pub scope: String,
    /// Immutable principal identifier.
    pub principal_id: u128,
    /// Represented member.
    pub actor: ActorRef,
    /// Organization selected during login.
    pub organization_id: Option<String>,
    /// Replay metadata, where the transport reports any.
    pub idempotency_replayed: Option<bool>,
}

impl IamApplicationTokens {
    /// The access token.
    pub fn access_token(&self) -> (token: &SecretText)
        ensures
            *token == self.access_token,
    {
        &self.access_token
    }

    /// The refresh token.
    pub fn refresh_token(&self) -> (token: &SecretText)
        ensures
            *token == self.refresh_token,
    {
        &self.refresh_token
    }

    /// The lifetime of the access token in seconds.
    pub fn expires_in_seconds(&self) -> (seconds: u64)
        ensures
            seconds == self.expires_in_seconds,
    {
        self.expires_in_seconds
    }

    /// The canonical scope set.
    pub fn scope(&self) -> (scope: &str)
        ensures
            scope@ == self.scope@,
    {
        self.scope.as_str()
    }

    /// The immutable principal identifier.
    pub fn principal_id(&self) -> (id: u128)
        ensures
            id == self.principal_id,
    {
        self.principal_id
    }

    /// The represented member.
    pub fn actor(&self) -> (actor: &ActorRef)
        ensures
            *actor == self.actor,
    {
        &self.actor
    }

    /// The organization selected during login.
    pub fn organization_id(&self) -> (organization: Option<&str>)
        ensures
            organization is Some == self.organization_id is Some,
            organization matches Some(id) ==> optional_chars(self.organization_id) == Some(id@),
    {
        match &self.organization_id {
            Some(id) => Some(id.as_str()),
            None => None,
        }
    }

    /// Replay metadata, where the transport reports any.
    pub fn idempotency_replayed(&self) -> (replayed: Option<bool>)
        ensures
            replayed == self.idempotency_replayed,
    {
        self.idempotency_replayed
    }
}

/// Token identity accepted after every current-state binding was checked.
#[derive(Clone, Debug)]
pub struct VerifiedIdentity {
    /// Current authority.
    pub authorization: Option<RequestAuthContext>,
    /// Immutable principal identifier.
    pub principal_id: u128,
    /// Kind of the represented member.
    pub actor_kind: ActorKind,
    /// Organization bound to the token.
    pub organization_id: String,
    /// Membership bound to the token.
    pub membership_id: u128,
    /// Authorization epoch of the membership.
    pub authorization_epoch: i64,
    /// Expiry of the credential.
    pub expires_at: i128,
}

impl VerifiedIdentity {
    /// Current authority.
    pub fn authorization(&self) -> (authorization: Option<&RequestAuthContext>)
        ensures
            authorization is Some == self.authorization is Some,
            authorization matches Some(context) ==> self.authorization == Some(*context),
    {
        match &self.authorization {
            Some(context) => Some(context),
            None => None,
        }
    }

    /// The immutable principal identifier.
    pub fn principal_id(&self) -> (id: u128)
        ensures
            id == self.principal_id,
    {
        self.principal_id
    }

    /// The kind of the represented member.
    pub fn actor_kind(&self) -> (kind: ActorKind)
        ensures
            kind == self.actor_kind,
    {
        self.actor_kind
    }

    /// The organization bound to the token.
    pub fn organization_id(&self) -> (id: &str)
        ensures
            id@ == self.organization_id@,
    {
        self.organization_id.as_str()
    }

    /// The membership bound to the token.
    pub fn membership_id(&self) -> (id: u128)
        ensures
            id == self.membership_id,
    {
        self.membership_id
    }

    /// The authorization epoch of the membership.
    pub fn authorization_epoch(&self) -> (epoch: i64)
        ensures
            epoch == self.authorization_epoch,
    {
        self.authorization_epoch
    }

    /// The expiry of the credential.
    pub fn expires_at(&self) -> (instant: i128)
        ensures
            instant == self.expires_at,
    {
        self.expires_at
    }
}

/// A consumed delegation proof and what it authorizes.
#[derive(Debug)]
pub struct VerifiedOboAccess {
    /// Current authority, limited to the verified request.
    pub authorization: Option<RequestAuthContext>,
    /// Identifier of the consumed proof.
    pub proof_id: u128,
    /// Represented member.
    pub actor: ActorRef,
    /// Organization the proof is bound to.
    pub organization_id: String,
    /// Application that obtained the proof.
    pub issuer: String,
    /// Registered endpoint that the proof was made for.
    pub endpoint_id: String,
    /// Metadata bound into the proof.
    pub metadata: Json,
}

/// Member as the wire names it.
#[derive(Clone, Debug)]
pub struct WireActor {
    /// Immutable principal identifier.
    pub principal_id: u128,
    /// Kind of the member.
    pub kind: ActorKind,
    /// Public identifier, with the verdict of the member identifier rules.
    pub public_id: Candidate,
}

/// Answer to a login or refresh.
#[derive(Clone, Debug)]
pub struct WireApplicationTokenResponse {
    /// Access token.
    pub access_token: String,
    /// Refresh token.
    pub refresh_token: String,
    /// Token type.
    pub token_type: String,
    /// Lifetime in seconds.
    pub expires_in: i64,
    /// Scope set.
    pub scope: String,
    /// Represented member.
    pub actor: WireActor,
    /// Selected organization, with the verdict of the organization rules.
    pub org_id: Option<Candidate>,
}

/// Answer to a token introspection.
#[derive(Clone, Debug)]
pub struct WireIntrospectionResponse {
    /// Whether the token is active.
    pub active: bool,
    /// Principal identifier.
    pub principal_id: Option<u128>,
    /// Kind of the member.
    pub actor_type: Option<ActorKind>,
    /// Organization, with the verdict of the organization rules.
    pub org_id: Option<Candidate>,
    /// Membership identifier.
    pub membership_id: Option<u128>,
    /// Session identifier.
    pub session_id: Option<u128>,
    /// Scope set.
    pub scope: Option<String>,
    /// Application the token was issued to.
    pub client_id: Option<String>,
    /// Application the token is meant for.
    pub audience: Option<String>,
    /// Authorization epoch of the membership.
    pub authorization_epoch: Option<i64>,
    /// Issue time as a Unix timestamp.
    pub issued_at: Option<i64>,
    /// Expiry as a Unix timestamp.
    pub expires_at: Option<i64>,
}

impl WireIntrospectionResponse {
    /// Whether any claim beside the activity is present.
    pub open spec fn discloses(self) -> bool {
        self.principal_id is Some || self.actor_type is Some || self.org_id is Some
            || self.membership_id is Some || self.session_id is Some || self.scope is Some
            || self.client_id is Some || self.audience is Some || self.authorization_epoch is Some
            || self.issued_at is Some || self.expires_at is Some
    }

    /// Whether any claim beside the activity is present.
    pub fn has_metadata(&self) -> (answer: bool)
        ensures
            answer == self.discloses(),
    {
        self.principal_id.is_some() || self.actor_type.is_some() || self.org_id.is_some()
            || self.membership_id.is_some() || self.session_id.is_some() || self.scope.is_some()
            || self.client_id.is_some() || self.audience.is_some()
            || self.authorization_epoch.is_some() || self.issued_at.is_some()
            || self.expires_at.is_some()
    }
}

/// Endpoint that a delegation proof names.
#[derive(Clone, Debug)]
pub struct WireOboEndpoint {
    /// Registered endpoint identifier.
    pub endpoint_id: String,
    /// Registered path.
    pub path: String,
}

/// Answer to a delegation proof verification.
#[derive(Debug)]
pub struct WireOboResponse {
    /// Whether the proof is valid.
    pub valid: bool,
    /// Proof identifier.
    pub proof_id: Option<u128>,
    /// Represented member.
    pub actor: Option<WireActor>,
    /// Organization, with the verdict of the organization rules.
    pub org_id: Option<Candidate>,
    /// Issuing application, with the verdict of the application rules.
    pub issuer_app_id: Option<Candidate>,
    /// Audience, with the verdict of the application rules.
    pub audience: Option<Candidate>,
    /// Endpoint the proof was made for.
    pub endpoint: Option<WireOboEndpoint>,
    /// Metadata bound into the proof.
    pub metadata: Option<Json>,
    /// Expiry of the proof.
    pub expires_at: Option<i128>,
    /// Time of consumption.
    pub consumed_at: Option<i128>,
}

/// Lifetime of every access token, in seconds.
pub const ACCESS_TOKEN_SECONDS: u64 = 1_800;

/// The first requirement that a token answer misses.
pub open spec fn application_tokens_error(
    wire: WireApplicationTokenResponse,
) -> Option<IamClientError> {
    if wire.token_type@ != "Bearer"@ {
        Some(IamClientError::InvalidResponse { reason: "token_type" })
    } else if wire.expires_in != ACCESS_TOKEN_SECONDS {
        Some(IamClientError::InvalidResponse { reason: "expires_in" })
    } else if !fixed_secret_ok(wire.access_token@, "oat_"@) {
        Some(IamClientError::InvalidResponse { reason: "access_token" })
    } else if !fixed_secret_ok(wire.refresh_token@, "ort_"@) {
        Some(IamClientError::InvalidResponse { reason: "refresh_token" })
    } else if !scope_set_ok(wire.scope@) {
        Some(IamClientError::InvalidResponse { reason: "scope" })
    } else if wire.actor.principal_id == 0 {
        Some(IamClientError::InvalidResponse { reason: "actor.principal_id" })
    } else if !plain_text(wire.actor.public_id.text@, MAX_IDENTIFIER_BYTES as nat)
        || !wire.actor.public_id.accepted {
        Some(IamClientError::InvalidResponse { reason: "actor.public_id" })
    } else if wire.org_id matches Some(organization) && !organization.accepted {
        Some(IamClientError::InvalidResponse { reason: "org_id" })
    } else {
        None
    }
}

/// The text of an optional candidate.
pub open spec fn candidate_text(candidate: Option<Candidate>) -> Option<String> {
    match candidate {
        Some(inner) => Some(inner.text),
        None => None,
    }
}

/// Accepts a token answer that meets every requirement.
pub fn validate_application_tokens(
    wire: WireApplicationTokenResponse,
    idempotency_replayed: Option<bool>,
) -> (tokens: Result<IamApplicationTokens, IamClientError>)
    ensures
        match application_tokens_error(wire) {
            Some(error) => tokens == Err::<IamApplicationTokens, IamClientError>(error),
            None => tokens matches Ok(accepted) && accepted.access_token.chars()
                == wire.access_token@ && accepted.refresh_token.chars()
                == wire.refresh_token@ && accepted.expires_in_seconds == ACCESS_TOKEN_SECONDS
                && accepted.scope == wire.scope && accepted.principal_id
                == wire.actor.principal_id && accepted.actor == (ActorRef {
                kind: wire.actor.kind,
                id: wire.actor.public_id.text,
            }) && accepted.organization_id == candidate_text(wire.org_id)
                && accepted.idempotency_replayed == idempotency_replayed,
        },
{
    if !same_text(wire.token_type.as_str(), "Bearer") {
        return Err(invalid_response("token_type"));
    }
    if wire.expires_in != ACCESS_TOKEN_SECONDS as i64 {
        return Err(invalid_response("expires_in"));
    }
    if !valid_fixed_iam_secret(wire.access_token.as_str(), "oat_") {
        return Err(invalid_response("access_token"));
    }
    if !valid_fixed_iam_secret(wire.refresh_token.as_str(), "ort_") {
        return Err(invalid_response("refresh_token"));
    }
    if !valid_scope_set(wire.scope.as_str()) {
        return Err(invalid_response("scope"));
    }
    if wire.actor.principal_id == 0 {
        return Err(invalid_response("actor.principal_id"));
    }
    match validate_wire_text(
        "actor.public_id",
        wire.actor.public_id.text.as_str(),
        MAX_IDENTIFIER_BYTES,
    ) {
        Ok(()) => {},
        Err(error) => {
            return Err(error);
        },
    }
    if !wire.actor.public_id.accepted {
        return Err(invalid_response("actor.public_id"));
    }
    let organization_id = match wire.org_id {
        Some(organization) => {
            if !organization.accepted {
                return Err(invalid_response("org_id"));
            }
            Some(organization.text)
        },
        None => None,
    };
    Ok(
        IamApplicationTokens {
            access_token: SecretText::new(wire.access_token),
            refresh_token: SecretText::new(wire.refresh_token),
            expires_in_seconds: ACCESS_TOKEN_SECONDS,
            scope: wire.scope,
            principal_id: wire.actor.principal_id,
            actor: ActorRef { kind: wire.actor.kind, id: wire.actor.public_id.text },
            organization_id,
            idempotency_replayed,
        },
    )
}

/// The first requirement that an introspection answer misses.
pub open spec fn introspection_error(
    wire: WireIntrospectionResponse,
    organization: Seq<char>,
    application: Seq<char>,
    now: i128,
) -> Option<IamClientError> {
    if !wire.active {
        if wire.discloses() {
            Some(IamClientError::InvalidResponse { reason: "inactive_token_metadata" })
        } else {
            Some(IamClientError::Rejected)
        }
    } else if wire.org_id is None || !wire.org_id->0.accepted {
        Some(IamClientError::InvalidResponse { reason: "org_id" })
    } else if wire.org_id->0.text@ != organization {
        Some(IamClientError::BindingMismatch { binding: "org_id" })
    } else if wire.client_id is None {
        Some(IamClientError::InvalidResponse { reason: "client_id" })
    } else if wire.client_id->0@ != application {
        Some(IamClientError::BindingMismatch { binding: "client_id" })
    } else if wire.audience is None {
        Some(IamClientError::InvalidResponse { reason: "audience" })
    } else if wire.audience->0@ != application {
        Some(IamClientError::BindingMismatch { binding: "audience" })
    } else if wire.issued_at is None || instant_of_timestamp(wire.issued_at->0 as int) is None {
        Some(IamClientError::InvalidResponse { reason: "issued_at" })
    } else if wire.expires_at is None || instant_of_timestamp(wire.expires_at->0 as int) is None {
        Some(IamClientError::InvalidResponse { reason: "expires_at" })
    } else if wire.expires_at->0 <= wire.issued_at->0 {
        Some(IamClientError::InvalidResponse { reason: "token_lifetime" })
    } else if instant_of_timestamp(wire.expires_at->0 as int)->0 <= now {
        Some(IamClientError::Rejected)
    } else if wire.principal_id is None {
        Some(IamClientError::InvalidResponse { reason: "principal_id" })
    } else if wire.membership_id is None {
        Some(IamClientError::InvalidResponse { reason: "membership_id" })
    } else if wire.session_id is None {
        Some(IamClientError::InvalidResponse { reason: "session_id" })
    } else if wire.scope is None {
        Some(IamClientError::InvalidResponse { reason: "scope" })
    } else if wire.authorization_epoch is None {
        Some(IamClientError::InvalidResponse { reason: "authorization_epoch" })
    } else if wire.principal_id->0 == 0 || wire.membership_id->0 == 0 || wire.session_id->0 == 0 {
        Some(IamClientError::InvalidResponse { reason: "token_identity" })
    } else if !scope_set_ok(wire.scope->0@) {
        Some(IamClientError::InvalidResponse { reason: "scope" })
    } else if wire.authorization_epoch->0 < 1 {
        Some(IamClientError::InvalidResponse { reason: "authorization_epoch" })
    } else if wire.actor_type is None {
        Some(IamClientError::InvalidResponse { reason: "actor_type" })
    } else {
        None
    }
}

/// Accepts an introspection answer about an active token of the expected
/// organization and application that has not expired at `now`.
pub fn validate_introspection(
    wire: WireIntrospectionResponse,
    expected_organization: &str,
    expected_application: &str,
    now: i128,
) -> (verified: Result<VerifiedIdentity, IamClientError>)
    ensures
        match introspection_error(wire, expected_organization@, expected_application@, now) {
            Some(error) => verified == Err::<VerifiedIdentity, IamClientError>(error),
            None => verified == Ok::<VerifiedIdentity, IamClientError>(
                VerifiedIdentity {
                    authorization: None,
                    principal_id: wire.principal_id->0,
                    actor_kind: wire.actor_type->0,
                    organization_id: wire.org_id->0.text,
                    membership_id: wire.membership_id->0,
                    authorization_epoch: wire.authorization_epoch->0,
                    expires_at: instant_of_timestamp(wire.expires_at->0 as int)->0,
                },
            ),
        },
{
    if !wire.active {
        if wire.has_metadata() {
            return Err(invalid_response("inactive_token_metadata"));
        }
        return Err(IamClientError::Rejected);
    }
    let organization = required_wire(wire.org_id, "org_id")?;
    if !organization.accepted {
        return Err(invalid_response("org_id"));
    }
    if !same_text(organization.text.as_str(), expected_organization) {
        return Err(binding_mismatch("org_id"));
    }
    let client_id = required_wire(wire.client_id, "client_id")?;
    if !same_text(client_id.as_str(), expected_application) {
        return Err(binding_mismatch("client_id"));
    }
    let audience = required_wire(wire.audience, "audience")?;
    if !same_text(audience.as_str(), expected_application) {
        return Err(binding_mismatch("audience"));
    }
    let issued_seconds: i64 = required_wire(wire.issued_at, "issued_at")?;
    let issued_at: i128 = match from_unix_timestamp(issued_seconds) {
        Some(instant) => instant,
        None => {
            return Err(invalid_response("issued_at"));
        },
    };
    let expires_seconds: i64 = required_wire(wire.expires_at, "expires_at")?;
    let expires_at: i128 = match from_unix_timestamp(expires_seconds) {
        Some(instant) => instant,
        None => {
            return Err(invalid_response("expires_at"));
        },
    };
    if expires_at <= issued_at {
        return Err(invalid_response("token_lifetime"));
    }
    if expires_at <= now {
        return Err(IamClientError::Rejected);
    }
    let principal_id: u128 = required_wire(wire.principal_id, "principal_id")?;
    let membership_id: u128 = required_wire(wire.membership_id, "membership_id")?;
    let session_id: u128 = required_wire(wire.session_id, "session_id")?;
    let scope = required_wire(wire.scope, "scope")?;
    let authorization_epoch: i64 = required_wire(wire.authorization_epoch, "authorization_epoch")?;
    if principal_id == 0 || membership_id == 0 || session_id == 0 {
        return Err(invalid_response("token_identity"));
    }
    if !valid_scope_set(scope.as_str()) {
        return Err(invalid_response("scope"));
    }
    if authorization_epoch < 1 {
        return Err(invalid_response("authorization_epoch"));
    }
    let actor_kind = required_wire(wire.actor_type, "actor_type")?;
    Ok(
        VerifiedIdentity {
            authorization: None,
            principal_id,
            actor_kind,
            organization_id: organization.text,
            membership_id,
            authorization_epoch,
            expires_at,
        },
    )
}

/// The first requirement that a delegation answer misses.
pub open spec fn obo_error(
    wire: WireOboResponse,
    audience: Seq<char>,
    application: Seq<char>,
    organization: Option<Seq<char>>,
    path: Seq<char>,
) -> Option<IamClientError> {
    if !wire.valid {
        Some(IamClientError::Rejected)
    } else if wire.issuer_app_id is None || !wire.issuer_app_id->0.accepted {
        Some(IamClientError::InvalidResponse { reason: "issuer_app_id" })
    } else if wire.issuer_app_id->0.text@ != application {
        Some(IamClientError::BindingMismatch { binding: "issuer_app_id" })
    } else if wire.audience is None || !wire.audience->0.accepted {
        Some(IamClientError::InvalidResponse { reason: "audience" })
    } else if wire.audience->0.text@ != audience {
        Some(IamClientError::BindingMismatch { binding: "audience" })
    } else if wire.endpoint is None {
        Some(IamClientError::InvalidResponse { reason: "endpoint" })
    } else if wire.endpoint->0.path@ != path {
        Some(IamClientError::BindingMismatch { binding: "endpoint.path" })
    } else if !plain_text(wire.endpoint->0.endpoint_id@, 128) {
        Some(IamClientError::InvalidResponse { reason: "endpoint.endpoint_id" })
    } else if wire.org_id is None || !wire.org_id->0.accepted {
        Some(IamClientError::InvalidResponse { reason: "org_id" })
    } else if organization is Some && organization != Some(wire.org_id->0.text@) {
        Some(IamClientError::BindingMismatch { binding: "org_id" })
    } else if wire.expires_at is None {
        Some(IamClientError::InvalidResponse { reason: "expires_at" })
    } else if wire.consumed_at is None || wire.expires_at->0 < wire.consumed_at->0 {
        Some(IamClientError::InvalidResponse { reason: "consumed_at" })
    } else if wire.actor is None {
        Some(IamClientError::InvalidResponse { reason: "actor" })
    } else if wire.actor->0.principal_id == 0 {
        Some(IamClientError::InvalidResponse { reason: "actor.principal_id" })
    } else if !plain_text(wire.actor->0.public_id.text@, MAX_IDENTIFIER_BYTES as nat)
        || !wire.actor->0.public_id.accepted {
        Some(IamClientError::InvalidResponse { reason: "actor.public_id" })
    } else if wire.metadata matches Some(metadata) && metadata !is Object && metadata !is Null {
        Some(IamClientError::InvalidResponse { reason: "metadata" })
    } else if wire.proof_id is None {
        Some(IamClientError::InvalidResponse { reason: "proof_id" })
    } else {
        None
    }
}

/// Accepts a delegation answer bound to the expected audience, the presented
/// application, the served path and, where the request declared one, its
/// organization.
pub fn validate_obo(
    wire: WireOboResponse,
    expected_audience: &str,
    presented_application: &str,
    expected_organization: Option<&str>,
    binding: &OboRequestBinding<'_>,
) -> (verified: Result<VerifiedOboAccess, IamClientError>)
    ensures
        match obo_error(
            wire,
            expected_audience@,
            presented_application@,
            match expected_organization {
                Some(organization) => Some(organization@),
                None => None,
            },
            binding.path@,
        ) {
            Some(error) => verified == Err::<VerifiedOboAccess, IamClientError>(error),
            None => verified == Ok::<VerifiedOboAccess, IamClientError>(
                VerifiedOboAccess {
                    authorization: None,
                    proof_id: wire.proof_id->0,
                    actor: ActorRef {
                        kind: wire.actor->0.kind,
                        id: wire.actor->0.public_id.text,
                    },
                    organization_id: wire.org_id->0.text,
                    issuer: wire.issuer_app_id->0.text,
                    endpoint_id: wire.endpoint->0.endpoint_id,
                    metadata: match wire.metadata {
                        Some(metadata) => metadata,
                        None => Json::Null,
                    },
                },
            ),
        },
{
    if !wire.valid {
        return Err(IamClientError::Rejected);
    }
    let issuer = required_wire(wire.issuer_app_id, "issuer_app_id")?;
    if !issuer.accepted {
        return Err(invalid_response("issuer_app_id"));
    }
    if !same_text(issuer.text.as_str(), presented_application) {
        return Err(binding_mismatch("issuer_app_id"));
    }
    let audience = required_wire(wire.audience, "audience")?;
    if !audience.accepted {
        return Err(invalid_response("audience"));
    }
    if !same_text(audience.text.as_str(), expected_audience) {
        return Err(binding_mismatch("audience"));
    }
    let endpoint = required_wire(wire.endpoint, "endpoint")?;
    // The proof commits to the registered path. Holding it against the path
    // that was served keeps one endpoint's proof from being spent on another.
    if !same_text(endpoint.path.as_str(), binding.path) {
        return Err(binding_mismatch("endpoint.path"));
    }
    validate_wire_text("endpoint.endpoint_id", endpoint.endpoint_id.as_str(), 128)?;
    // The tenant follows from the two applications, so the answer is
    // authoritative; a request that declared one must agree with it.
    let organization = required_wire(wire.org_id, "org_id")?;
    if !organization.accepted {
        return Err(invalid_response("org_id"));
    }
    match expected_organization {
        Some(expected) => {
            if !same_text(expected, organization.text.as_str()) {
                return Err(binding_mismatch("org_id"));
            }
        },
        None => {},
    }
    let expires_at: i128 = required_wire(wire.expires_at, "expires_at")?;
    let consumed_at: i128 = required_wire(wire.consumed_at, "consumed_at")?;
    if expires_at < consumed_at {
        return Err(invalid_response("consumed_at"));
    }
    let actor = required_wire(wire.actor, "actor")?;
    if actor.principal_id == 0 {
        return Err(invalid_response("actor.principal_id"));
    }
    validate_wire_text("actor.public_id", actor.public_id.text.as_str(), MAX_IDENTIFIER_BYTES)?;
    if !actor.public_id.accepted {
        return Err(invalid_response("actor.public_id"));
    }
    let metadata = match wire.metadata {
        Some(metadata) => metadata,
        None => Json::Null,
    };
    if !metadata.is_object() && !metadata.is_null() {
        return Err(invalid_response("metadata"));
    }
    let proof_id: u128 = required_wire(wire.proof_id, "proof_id")?;
    Ok(
        VerifiedOboAccess {
            authorization: None,
            proof_id,
            actor: ActorRef { kind: actor.kind, id: actor.public_id.text },
            organization_id: organization.text,
            issuer: issuer.text,
            endpoint_id: endpoint.endpoint_id,
            metadata,
        },
    )
}

} // verus!
