use silicon_briefcase::iam::canonical::{
    canonical_actor, localize, map_snapshot, prepare, select_identity_store, snapshot_identity,
    valid_public_identity, validated_identity, IdentityKeys, IdentityStore, LocalAuthorization,
    LocalIntrospection, LocalKeys, Preparation, WireActorType,
};
use silicon_briefcase::iam::claims::{
    validate_application_tokens, validate_introspection, validate_obo, IamEnvironmentCredential,
    WireActor, WireApplicationTokenResponse, WireIntrospectionResponse, WireOboEndpoint,
    WireOboResponse, ACCESS_TOKEN_SECONDS,
};
use silicon_briefcase::iam::directory::{
    resolve_page, start_resolution, DirectoryMember, MemberPage, ResolutionStep,
};
use silicon_briefcase::iam::official::{
    accept_version, application_identity, authorization, bind_bearer, bind_obo,
    check_access_token, check_application_directory, check_obo_principal, check_obo_request,
    check_refresh_token, check_response_size, check_settings, check_short_lived_token,
    check_testing_context, join_with_spaces, public_application_id, reachable_organizations,
    sdk_error, self_email, session_identity, start_environment_check, AuthorizationTag,
    EnvironmentCheck, Operation, ReachableAuthorization,
};
use silicon_briefcase::iam::resilience::{
    after_attempt, failure_class, retry_delay, AttemptDecision, AttemptOutcome, SdkFailure,
    BUDGET_MILLIS,
};
use silicon_briefcase::iam::{
    parse_api_version, valid_environment_key, valid_fixed_iam_secret, valid_scope,
    valid_scope_set, valid_server_version_catalog, validate_outbound_binding, IamClientBuildError,
    IamClientError, OboRequestBinding,
};
use silicon_briefcase::ids::Candidate;
use silicon_briefcase::json::{Json, JsonMember};
use silicon_briefcase::model::{
    ActorKind, ActorRef, AuthenticationMode, OrganizationRole, RequestAuthContext,
};
use silicon_briefcase::secret::SecretText;

const PRINCIPAL_ID: &str = "01990a9d-86f1-7000-8000-000000000001";
const IAM_APP_ID: &str = "tos>briefcase";
const TEST_APP_ID: &str = IAM_APP_ID;
const IAM_APP_SECRET: &str = "ask_aaaaaaaaaaaaaaaaaaaaaaaaaaaaaaaaaaaaaaaaaaa";
const TEST_APP_SECRET: &str = "ask_bbbbbbbbbbbbbbbbbbbbbbbbbbbbbbbbbbbbbbbbbbb";
const TEST_ENVIRONMENT_KEY: &str = "A1b2C3d4E5f6G7h8I9j0K1l2M3n4O5p6";
const BEARER_TOKEN: &str = "oat_aaaaaaaaaaaaaaaaaaaaaaaaaaaaaaaaaaaaaaaaaaa";
const OBO_PROOF: &str = "obo_bbbbbbbbbbbbbbbbbbbbbbbbbbbbbbbbbbbbbbbbbbb";
const SHORT_LIVED_TOKEN: &str = "oac_ccccccccccccccccccccccccccccccccccccccccccc";
const REFRESH_TOKEN: &str = "ort_ddddddddddddddddddddddddddddddddddddddddddd";
const NOW: i128 = 1_788_177_600_000_000_000;

fn id(text: &str) -> u128 {
    uuid::Uuid::parse_str(text).map(|id| id.as_u128()).unwrap_or(0)
}

fn principal() -> u128 {
    id(PRINCIPAL_ID)
}

fn environment_id() -> u128 {
    id("01990a9d-86f1-7000-8000-000000000010")
}

fn accepted(text: &str) -> Candidate {
    Candidate { text: text.to_owned(), accepted: true }
}

fn refused(text: &str) -> Candidate {
    Candidate { text: text.to_owned(), accepted: false }
}

fn secret(text: &str) -> SecretText {
    SecretText::new(text.to_owned())
}

fn environment_credential() -> IamEnvironmentCredential {
    match IamEnvironmentCredential::new(
        secret(TEST_ENVIRONMENT_KEY),
        accepted(TEST_APP_ID),
        secret(TEST_APP_SECRET),
    ) {
        Ok(credential) => credential.with_environment_id(environment_id()),
        Err(error) => panic!("test fixture: {error:?}"),
    }
}

fn strings(values: &[&str]) -> Vec<String> {
    values.iter().map(|value| (*value).to_owned()).collect()
}

fn reports(error: IamClientError, expected: &str) -> bool {
    match error {
        IamClientError::InvalidResponse { reason } => reason == expected,
        IamClientError::BindingMismatch { binding } => binding == expected,
        IamClientError::Unavailable { reason } => reason == expected,
        IamClientError::Rejected => expected == "rejected",
    }
}

#[test]
fn version_catalog_is_ordered_unique_and_forward_compatible() {
    assert!(valid_server_version_catalog(&strings(&["v3", "v2", "v1"])));
    assert!(!valid_server_version_catalog(&strings(&["v1", "v2"])));
    assert!(!valid_server_version_catalog(&strings(&["v1", "v1"])));
    assert!(!valid_server_version_catalog(&strings(&["v01"])));
    assert!(!valid_server_version_catalog(&strings(&["v2"])));
}

#[test]
fn api_versions_are_positive_numbers_without_leading_zeros() {
    assert_eq!(parse_api_version("v1"), Some(1));
    assert_eq!(parse_api_version("v999999999"), Some(999_999_999));
    assert_eq!(parse_api_version("v1000000000"), None);
    assert_eq!(parse_api_version("v0"), None);
    assert_eq!(parse_api_version("1"), None);
    assert_eq!(parse_api_version("v"), None);
}

#[test]
fn environment_credentials_validate_and_redact_every_secret() {
    let credential = environment_credential();
    let rendered = format!("{credential:?}");
    assert!(rendered.contains(TEST_APP_ID));
    assert!(!rendered.contains(TEST_ENVIRONMENT_KEY));
    assert!(!rendered.contains(TEST_APP_SECRET));

    assert!(matches!(
        IamEnvironmentCredential::new(
            secret("short"),
            accepted(TEST_APP_ID),
            secret(TEST_APP_SECRET),
        ),
        Err(IamClientBuildError::InvalidIdentifier)
    ));
    assert!(matches!(
        IamEnvironmentCredential::new(
            secret(TEST_ENVIRONMENT_KEY),
            refused("briefcase"),
            secret(TEST_APP_SECRET),
        ),
        Err(IamClientBuildError::InvalidIdentifier)
    ));
}

#[test]
fn secrets_hand_out_exactly_what_they_were_given() {
    assert_eq!(secret("oat_x").expose_secret(), "oat_x");
    assert!(!format!("{:?}", secret("oat_x")).contains("oat_x"));
}

fn introspection() -> WireIntrospectionResponse {
    WireIntrospectionResponse {
        active: true,
        principal_id: Some(principal()),
        actor_type: Some(ActorKind::Carbon),
        client_id: Some(IAM_APP_ID.to_owned()),
        org_id: Some(accepted("tos")),
        membership_id: Some(id("01990a9d-86f1-7000-8000-000000000002")),
        session_id: Some(id("01990a9d-86f1-7000-8000-000000000003")),
        scope: Some("briefcase.read profile".to_owned()),
        audience: Some(IAM_APP_ID.to_owned()),
        authorization_epoch: Some(7),
        issued_at: Some(1_700_000_000),
        expires_at: Some(4_070_908_800),
    }
}

fn inactive() -> WireIntrospectionResponse {
    WireIntrospectionResponse {
        active: false,
        principal_id: None,
        actor_type: None,
        client_id: None,
        org_id: None,
        membership_id: None,
        session_id: None,
        scope: None,
        audience: None,
        authorization_epoch: None,
        issued_at: None,
        expires_at: None,
    }
}

#[test]
fn published_bearer_contract_returns_only_introspected_identity() {
    let verified = validate_introspection(introspection(), "tos", IAM_APP_ID, NOW)
        .unwrap_or_else(|error| panic!("introspection should verify: {error:?}"));

    assert_eq!(verified.organization_id(), "tos");
    assert_eq!(uuid::Uuid::from_u128(verified.principal_id()).to_string(), PRINCIPAL_ID);
    assert_eq!(verified.expires_at(), 4_070_908_800_000_000_000);
    assert!(verified.authorization().is_none());
    assert_eq!(verified.actor_kind(), ActorKind::Carbon);
    assert_eq!(verified.authorization_epoch(), 7);
}

#[test]
fn inactive_introspection_may_omit_identity_fields() {
    assert!(matches!(
        validate_introspection(inactive(), "tos", IAM_APP_ID, NOW),
        Err(IamClientError::Rejected)
    ));
}

#[test]
fn active_introspection_without_membership_data_fails_closed() {
    let wire = WireIntrospectionResponse {
        membership_id: None,
        scope: Some("profile".to_owned()),
        ..introspection()
    };

    assert!(matches!(
        validate_introspection(wire, "tos", IAM_APP_ID, NOW),
        Err(IamClientError::InvalidResponse { .. })
    ));
}

#[test]
fn inactive_introspection_that_discloses_metadata_fails_closed() {
    let wire = WireIntrospectionResponse { principal_id: Some(principal()), ..inactive() };

    assert!(matches!(
        validate_introspection(wire, "tos", IAM_APP_ID, NOW),
        Err(IamClientError::InvalidResponse { .. })
    ));
}

#[test]
fn every_introspected_claim_is_checked() {
    let cases: Vec<(WireIntrospectionResponse, &str)> = vec![
        (WireIntrospectionResponse { org_id: None, ..introspection() }, "org_id"),
        (WireIntrospectionResponse { org_id: Some(refused("tos")), ..introspection() }, "org_id"),
        (WireIntrospectionResponse { org_id: Some(accepted("x")), ..introspection() }, "org_id"),
        (WireIntrospectionResponse { client_id: None, ..introspection() }, "client_id"),
        (
            WireIntrospectionResponse { client_id: Some("x".to_owned()), ..introspection() },
            "client_id",
        ),
        (WireIntrospectionResponse { audience: Some("x".to_owned()), ..introspection() }, "audience"),
        (WireIntrospectionResponse { issued_at: Some(i64::MAX), ..introspection() }, "issued_at"),
        (WireIntrospectionResponse { expires_at: Some(i64::MAX), ..introspection() }, "expires_at"),
        (
            WireIntrospectionResponse { expires_at: Some(1_700_000_000), ..introspection() },
            "token_lifetime",
        ),
        (
            WireIntrospectionResponse { expires_at: Some(1_700_000_001), ..introspection() },
            "rejected",
        ),
        (WireIntrospectionResponse { session_id: Some(0), ..introspection() }, "token_identity"),
        (WireIntrospectionResponse { scope: Some("b a".to_owned()), ..introspection() }, "scope"),
        (
            WireIntrospectionResponse { authorization_epoch: Some(0), ..introspection() },
            "authorization_epoch",
        ),
        (WireIntrospectionResponse { actor_type: None, ..introspection() }, "actor_type"),
    ];
    for (wire, expected) in cases {
        match validate_introspection(wire, "tos", IAM_APP_ID, NOW) {
            Ok(_) => panic!("{expected} must fail closed"),
            Err(error) => assert!(reports(error, expected), "{error:?} {expected}"),
        }
    }
}

const DIGEST: &str = "bbbbbbbbbbbbbbbbbbbbbbbbbbbbbbbbbbbbbbbbbbbbbbbbbbbbbbbbbbbbbbbb";

fn obo_binding() -> OboRequestBinding<'static> {
    OboRequestBinding { method: "POST", path: "/api/v1/obo/files", body_sha256: DIGEST }
}

fn member(key: &str, value: Json) -> JsonMember {
    JsonMember { key: key.to_owned(), value }
}

fn text(value: &str) -> Json {
    Json::Text(value.to_owned())
}

fn obo_response() -> WireOboResponse {
    WireOboResponse {
        valid: true,
        proof_id: Some(id("01990a9d-86f1-7000-8000-000000000004")),
        actor: Some(WireActor {
            principal_id: id("01990a9d-86f1-7000-8000-000000000003"),
            kind: ActorKind::Silicon,
            public_id: accepted("researcher:tos"),
        }),
        org_id: Some(accepted("tos")),
        issuer_app_id: Some(accepted("tos>silicon-dm")),
        audience: Some(accepted(IAM_APP_ID)),
        endpoint: Some(WireOboEndpoint {
            endpoint_id: "briefcase.files.create".to_owned(),
            path: "/api/v1/obo/files".to_owned(),
        }),
        metadata: Some(Json::Object(vec![
            member("path", text("public/reports")),
            member("name", text("q3.pdf")),
        ])),
        expires_at: Some(4_070_908_800_000_000_000),
        consumed_at: Some(1_788_177_600_000_000_000),
    }
}

#[test]
fn the_published_obo_result_yields_the_represented_actor_and_metadata() {
    let verified =
        validate_obo(obo_response(), IAM_APP_ID, "tos>silicon-dm", Some("tos"), &obo_binding())
            .unwrap_or_else(|error| panic!("OBO contract should verify: {error:?}"));

    assert_eq!(verified.actor.id, "researcher:tos");
    assert_eq!(verified.organization_id, "tos");
    assert_eq!(verified.metadata.get_text("name"), Some("q3.pdf"));
    assert_eq!(verified.issuer, "tos>silicon-dm");
    assert_eq!(verified.endpoint_id, "briefcase.files.create");
}

#[test]
fn obo_issuer_audience_endpoint_and_organization_all_fail_closed() {
    let cases: Vec<(WireOboResponse, &str)> = vec![
        (
            WireOboResponse { issuer_app_id: Some(accepted("tos>different-app")), ..obo_response() },
            "issuer_app_id",
        ),
        (
            WireOboResponse { audience: Some(accepted("tos>someone-else")), ..obo_response() },
            "audience",
        ),
        (
            WireOboResponse {
                endpoint: Some(WireOboEndpoint {
                    endpoint_id: "briefcase.files.create".to_owned(),
                    path: "/api/v1/obo/other".to_owned(),
                }),
                ..obo_response()
            },
            "endpoint.path",
        ),
        (WireOboResponse { org_id: Some(accepted("other-org")), ..obo_response() }, "org_id"),
    ];

    for (wire, binding) in cases {
        let result =
            validate_obo(wire, IAM_APP_ID, "tos>silicon-dm", Some("tos"), &obo_binding());
        assert!(
            matches!(
                result,
                Err(IamClientError::BindingMismatch { binding: reported }) if reported == binding
            ),
            "{binding} must fail closed"
        );
    }
}

#[test]
fn an_obo_result_without_an_endpoint_or_proof_identity_fails_closed() {
    for wire in [
        WireOboResponse { endpoint: None, ..obo_response() },
        WireOboResponse { proof_id: None, ..obo_response() },
    ] {
        assert!(matches!(
            validate_obo(wire, IAM_APP_ID, "tos>silicon-dm", Some("tos"), &obo_binding()),
            Err(IamClientError::InvalidResponse { .. })
        ));
    }
}

#[test]
fn every_delegation_claim_is_checked() {
    let cases: Vec<(WireOboResponse, &str)> = vec![
        (WireOboResponse { valid: false, ..obo_response() }, "rejected"),
        (WireOboResponse { expires_at: None, ..obo_response() }, "expires_at"),
        (
            WireOboResponse { consumed_at: Some(4_070_908_800_000_000_001), ..obo_response() },
            "consumed_at",
        ),
        (WireOboResponse { actor: None, ..obo_response() }, "actor"),
        (
            WireOboResponse {
                actor: Some(WireActor {
                    principal_id: 0,
                    kind: ActorKind::Carbon,
                    public_id: accepted("a"),
                }),
                ..obo_response()
            },
            "actor.principal_id",
        ),
        (
            WireOboResponse {
                actor: Some(WireActor {
                    principal_id: 1,
                    kind: ActorKind::Carbon,
                    public_id: refused("a"),
                }),
                ..obo_response()
            },
            "actor.public_id",
        ),
        (WireOboResponse { metadata: Some(text("x")), ..obo_response() }, "metadata"),
    ];
    for (wire, expected) in cases {
        match validate_obo(wire, IAM_APP_ID, "tos>silicon-dm", None, &obo_binding()) {
            Ok(_) => panic!("{expected} must fail closed"),
            Err(error) => assert!(reports(error, expected), "{error:?} {expected}"),
        }
    }
}

fn token_response() -> WireApplicationTokenResponse {
    WireApplicationTokenResponse {
        access_token: "oat_eeeeeeeeeeeeeeeeeeeeeeeeeeeeeeeeeeeeeeeeeee".to_owned(),
        refresh_token: "ort_fffffffffffffffffffffffffffffffffffffffffff".to_owned(),
        token_type: "Bearer".to_owned(),
        expires_in: 1800,
        scope: "briefcase.read profile".to_owned(),
        actor: WireActor {
            principal_id: principal(),
            kind: ActorKind::Carbon,
            public_id: accepted("carbon-a"),
        },
        org_id: Some(accepted("tos")),
    }
}

#[test]
fn exchanged_tokens_keep_their_identity_and_stay_redacted() {
    let tokens = validate_application_tokens(token_response(), Some(true))
        .unwrap_or_else(|error| panic!("tokens should verify: {error:?}"));
    assert_eq!(tokens.actor().id, "carbon-a");
    assert_eq!(tokens.organization_id(), Some("tos"));
    assert_eq!(tokens.expires_in_seconds(), ACCESS_TOKEN_SECONDS);
    assert_eq!(tokens.scope(), "briefcase.read profile");
    assert_eq!(tokens.principal_id(), principal());
    assert_eq!(tokens.idempotency_replayed(), Some(true));
    assert_eq!(
        tokens.access_token().expose_secret(),
        "oat_eeeeeeeeeeeeeeeeeeeeeeeeeeeeeeeeeeeeeeeeeee"
    );
    assert_eq!(
        tokens.refresh_token().expose_secret(),
        "ort_fffffffffffffffffffffffffffffffffffffffffff"
    );
    let rendered = format!("{tokens:?}");
    assert!(!rendered.contains("oat_"));
    assert!(!rendered.contains("ort_"));
}

#[test]
fn malformed_token_responses_are_refused() {
    for wire in [
        WireApplicationTokenResponse { token_type: "bearer".to_owned(), ..token_response() },
        WireApplicationTokenResponse { expires_in: 1801, ..token_response() },
        WireApplicationTokenResponse { access_token: "oat_short".to_owned(), ..token_response() },
        WireApplicationTokenResponse { scope: "b a".to_owned(), ..token_response() },
    ] {
        assert!(matches!(
            validate_application_tokens(wire, None),
            Err(IamClientError::InvalidResponse { .. })
        ));
    }
}

#[test]
fn scopes_are_canonical() {
    assert!(valid_scope("briefcase.read"));
    assert!(!valid_scope("Briefcase"));
    assert!(valid_scope_set("briefcase.read profile"));
    assert!(!valid_scope_set("profile profile"));
    assert!(!valid_scope_set("profile briefcase.read"));
    assert!(!valid_scope_set(""));
}

#[test]
fn fixed_credentials_have_one_form() {
    assert!(valid_fixed_iam_secret(IAM_APP_SECRET, "ask_"));
    assert!(!valid_fixed_iam_secret(IAM_APP_SECRET, "oat_"));
    assert!(!valid_fixed_iam_secret("ask_", "ask_"));
    assert!(valid_environment_key(TEST_ENVIRONMENT_KEY));
    assert!(!valid_environment_key("A1b2C3d4E5f6G7h8I9j0K1l2M3n4O5p_"));
}

#[test]
fn outbound_bindings_are_plain_and_bounded() {
    assert!(validate_outbound_binding("org_id", "tos", 8).is_ok());
    for value in ["", " tos", "to\ns", "organization"] {
        match validate_outbound_binding("org_id", value, 8) {
            Ok(()) => panic!("{value:?} must be refused"),
            Err(error) => assert!(reports(error, "org_id")),
        }
    }
}

#[test]
fn token_kinds_are_checked_before_any_request() {
    assert!(check_short_lived_token(&secret(SHORT_LIVED_TOKEN)).is_ok());
    assert!(check_short_lived_token(&secret(REFRESH_TOKEN)).is_err());
    assert!(check_refresh_token(&secret(REFRESH_TOKEN)).is_ok());
    assert!(check_refresh_token(&secret(BEARER_TOKEN)).is_err());
    assert!(check_access_token(&secret(BEARER_TOKEN)).is_ok());
    assert!(check_access_token(&secret(OBO_PROOF)).is_err());
    assert!(check_obo_request(&secret(OBO_PROOF), &obo_binding()).is_ok());
    assert!(check_obo_request(&secret(BEARER_TOKEN), &obo_binding()).is_err());
    assert!(check_response_size(10, 10).is_ok());
    assert!(check_response_size(11, 10).is_err());
}

#[test]
fn settings_and_negotiated_versions_are_checked() {
    assert!(check_settings(&accepted(IAM_APP_ID), &secret(IAM_APP_SECRET)).is_ok());
    assert!(matches!(
        check_settings(&refused("briefcase"), &secret(IAM_APP_SECRET)),
        Err(IamClientBuildError::InvalidIdentifier)
    ));
    assert!(accept_version("silicon-iam", "v1", &strings(&["v1"])).is_ok());
    assert!(accept_version("other", "v1", &strings(&["v1"])).is_err());
    assert!(accept_version("silicon-iam", "v1", &strings(&["v2"])).is_err());
}

#[test]
fn a_test_plane_never_falls_back_to_the_service_application() {
    let service_secret = secret(IAM_APP_SECRET);
    let credential = environment_credential();
    let (app, app_secret) = application_identity("tos>service", &service_secret, Some(&credential));
    assert_eq!(app, TEST_APP_ID);
    assert_eq!(app_secret.expose_secret(), TEST_APP_SECRET);
    let (app, app_secret) = application_identity("tos>service", &service_secret, None);
    assert_eq!(app, "tos>service");
    assert_eq!(app_secret.expose_secret(), IAM_APP_SECRET);
    assert_eq!(public_application_id("tos>service", &service_secret, None), "tos>service");
}

#[test]
fn environments_are_validated_in_order_and_stop_at_the_first_mismatch() {
    let credential = environment_credential();
    assert!(matches!(
        start_environment_check(&credential, IAM_APP_ID, environment_id()),
        Ok(EnvironmentCheck::ReadContext)
    ));
    match start_environment_check(&credential, "other>briefcase", environment_id()) {
        Ok(_) => panic!("a different application must be refused before any request"),
        Err(error) => assert!(reports(error, "testing_application.app_id")),
    }
    assert!(matches!(
        check_testing_context(environment_id(), IAM_APP_ID, IAM_APP_ID, environment_id()),
        Ok(EnvironmentCheck::ReadDirectory)
    ));
    match check_testing_context(
        id("01990a9d-86f1-7000-8000-000000000011"),
        IAM_APP_ID,
        IAM_APP_ID,
        environment_id(),
    ) {
        Ok(_) => panic!("a different environment must be refused"),
        Err(error) => assert!(reports(error, "testing_environment.id")),
    }
    assert!(matches!(
        check_application_directory(TEST_APP_ID, &credential),
        Ok(EnvironmentCheck::Valid)
    ));
    assert!(check_application_directory("other>app", &credential).is_err());
}

fn failure_of(status: u16) -> SdkFailure {
    SdkFailure::Api { status }
}

#[test]
fn refused_proofs_are_not_reported_as_outages() {
    for status in [403, 409, 410, 422] {
        assert!(matches!(
            sdk_error(failure_of(status), Operation::Obo),
            IamClientError::Rejected
        ));
    }
    for status in [429, 500] {
        assert!(matches!(
            sdk_error(failure_of(status), Operation::Obo),
            IamClientError::Unavailable { .. }
        ));
    }
}

#[test]
fn an_unshared_email_is_no_failure() {
    assert!(matches!(
        self_email(Ok(Some("a@b.example".to_owned()))),
        Ok(Some(email)) if email == "a@b.example"
    ));
    assert!(matches!(self_email(Ok(None)), Ok(None)));
    assert!(self_email(Err(failure_of(500))).is_err());
}

#[test]
fn transient_failures_are_retried_once_and_no_more() {
    let failed = AttemptOutcome::Failed {
        failure: failure_of(503),
        jitter_byte: 0,
        elapsed_millis: 0,
    };
    assert!(matches!(after_attempt(1, failed, BUDGET_MILLIS), AttemptDecision::Retry { .. }));
    assert!(matches!(after_attempt(2, failed, BUDGET_MILLIS), AttemptDecision::GiveUp { .. }));
    assert!(matches!(
        after_attempt(2, AttemptOutcome::Answered, BUDGET_MILLIS),
        AttemptDecision::Deliver
    ));
}

#[test]
fn denials_are_never_retried() {
    for failure in [failure_of(400), failure_of(401), failure_of(403), SdkFailure::Other] {
        assert_eq!(retry_delay(failure, 7), None);
        assert!(matches!(
            after_attempt(
                1,
                AttemptOutcome::Failed { failure, jitter_byte: 7, elapsed_millis: 0 },
                BUDGET_MILLIS
            ),
            AttemptDecision::GiveUp { .. }
        ));
    }
}

#[test]
fn a_long_wait_is_not_cut_short() {
    let failure = SdkFailure::RateLimited { retry_after_millis: 60_000 };
    assert!(matches!(
        after_attempt(
            1,
            AttemptOutcome::Failed { failure, jitter_byte: 0, elapsed_millis: 0 },
            BUDGET_MILLIS
        ),
        AttemptDecision::GiveUp { .. }
    ));
}

#[test]
fn an_exhausted_budget_is_reported_as_such() {
    match after_attempt(1, AttemptOutcome::DeadlinePassed, 20) {
        AttemptDecision::GiveUp { error } => {
            assert!(matches!(
                error,
                IamClientError::Unavailable { reason: "retry_budget_exhausted" }
            ));
        }
        other => panic!("{other:?}"),
    }
    assert_eq!(
        failure_class(SdkFailure::Transport { timeout: true, connect: false }),
        "timeout"
    );
}

fn snapshot(tags: Option<Vec<AuthorizationTag>>, disclosed: bool) -> LocalAuthorization {
    let mut scopes = strings(&["self.identity.read", "self.membership.read"]);
    if disclosed {
        scopes.push("self.tags.read".to_owned());
    }
    LocalAuthorization {
        principal_id: principal(),
        organization_id: id("01990a9d-86f1-7000-8000-000000000002"),
        membership_id: id("01990a9d-86f1-7000-8000-000000000003"),
        actor_type: Some(WireActorType::Carbon),
        public_id: Some(accepted("member-a")),
        org_id: accepted("client-org"),
        membership_version: 7,
        authorization_epoch: 7,
        audience: "tos>briefcase".to_owned(),
        testing_environment_id: None,
        org_role: Some("member".to_owned()),
        scopes,
        tags,
    }
}

fn authorize(snapshot: LocalAuthorization) -> Result<RequestAuthContext, IamClientError> {
    authorization(snapshot, "tos>briefcase", "client-org", None, AuthenticationMode::Bearer)
}

#[test]
fn production_authorization_preserves_unknown_and_explicit_empty_tags() {
    let unknown = authorize(snapshot(None, false))
        .unwrap_or_else(|error| panic!("snapshot should verify: {error:?}"));
    assert!(unknown.tags.is_none());
    assert!(unknown.binding.as_ref().is_some_and(|binding| binding.tags.is_none()));
    assert!(!unknown.has_tag("finance"));
    let empty = authorize(snapshot(Some(Vec::new()), true))
        .unwrap_or_else(|error| panic!("snapshot should verify: {error:?}"));
    assert!(empty.tags.as_ref().is_some_and(Vec::is_empty));
    assert!(
        empty
            .binding
            .as_ref()
            .is_some_and(|binding| binding.tags.as_ref().is_some_and(Vec::is_empty))
    );
}

#[test]
fn scope_disclosure_inconsistency_and_missing_role_remain_rejected() {
    for mismatched in [snapshot(None, true), snapshot(Some(Vec::new()), false)] {
        assert!(authorize(mismatched).is_err());
    }
    let missing_role = LocalAuthorization { org_role: None, ..snapshot(None, false) };
    assert!(authorize(missing_role).is_err());
    let missing_identity = LocalAuthorization { public_id: None, ..snapshot(None, false) };
    assert!(authorize(missing_identity).is_err());
}

#[test]
fn disclosed_tags_become_the_members_tags() {
    let tags = vec![
        AuthorizationTag { id: 2, name: accepted("finance") },
        AuthorizationTag { id: 3, name: accepted("research") },
    ];
    let context = authorize(snapshot(Some(tags), true))
        .unwrap_or_else(|error| panic!("snapshot should verify: {error:?}"));
    assert!(context.has_tag("finance"));
    assert!(context.has_tag("research"));
    assert!(!context.has_tag("legal"));
    assert_eq!(context.role, OrganizationRole::Member);
    assert_eq!(context.actor.id, "member-a");
    let refused_tag = vec![AuthorizationTag { id: 2, name: refused("") }];
    assert!(authorize(snapshot(Some(refused_tag), true)).is_err());
}

#[test]
fn a_bearer_is_bound_to_the_snapshot_of_the_same_member() {
    let verified = match validate_introspection(
        WireIntrospectionResponse {
            org_id: Some(accepted("client-org")),
            membership_id: Some(id("01990a9d-86f1-7000-8000-000000000003")),
            scope: Some("self.identity.read self.membership.read".to_owned()),
            ..introspection()
        },
        "client-org",
        IAM_APP_ID,
        NOW,
    ) {
        Ok(verified) => verified,
        Err(error) => panic!("{error:?}"),
    };
    let scopes = Some("self.identity.read self.membership.read".to_owned());
    let bound = bind_bearer(
        verified.clone(),
        Some(snapshot(None, false)),
        &scopes,
        IAM_APP_ID,
        "client-org",
        None,
    )
    .unwrap_or_else(|error| panic!("{error:?}"));
    assert!(bound.authorization().is_some());
    let other = LocalAuthorization { principal_id: 9, ..snapshot(None, false) };
    assert!(bind_bearer(verified, Some(other), &scopes, IAM_APP_ID, "client-org", None).is_err());
}

#[test]
fn a_delegation_is_bound_to_its_own_principal() {
    assert!(check_obo_principal(1, 1).is_ok());
    assert!(check_obo_principal(1, 2).is_err());
    let verified = match validate_obo(
        WireOboResponse { org_id: Some(accepted("client-org")), ..obo_response() },
        IAM_APP_ID,
        "tos>silicon-dm",
        None,
        &obo_binding(),
    ) {
        Ok(verified) => verified,
        Err(error) => panic!("{error:?}"),
    };
    let owner = LocalAuthorization {
        actor_type: Some(WireActorType::Silicon),
        public_id: Some(accepted("researcher:tos")),
        ..snapshot(None, false)
    };
    let bound = bind_obo(verified, owner, IAM_APP_ID, None)
        .unwrap_or_else(|error| panic!("{error:?}"));
    match bound.authorization {
        Some(context) => {
            assert!(matches!(
                context.authentication,
                AuthenticationMode::OnBehalfOf { ref application_id } if application_id == "tos>silicon-dm"
            ));
        }
        None => panic!("a bound delegation carries authority"),
    }
}

#[test]
fn reachable_organizations_are_listed_once_and_sorted() {
    let reachable = |name: &str| ReachableAuthorization {
        audience: IAM_APP_ID.to_owned(),
        testing_environment_id: None,
        org_id: accepted(name),
        membership_version: 1,
        authorization_epoch: 1,
    };
    let listed = reachable_organizations(&vec![reachable("tos"), reachable("acme")], IAM_APP_ID, None)
        .unwrap_or_else(|error| panic!("{error:?}"));
    assert_eq!(listed, strings(&["acme", "tos"]));
    assert!(reachable_organizations(&vec![reachable("tos")], "other>app", None).is_err());
    assert_eq!(join_with_spaces(&strings(&["a", "b", "c"])), "a b c");
    assert_eq!(join_with_spaces(&Vec::new()), "");
}

#[test]
fn a_session_names_every_organization_it_reaches() {
    let response = LocalIntrospection {
        active: true,
        public_id: Some("member-a".to_owned()),
        principal_id: Some(principal()),
        actor_type: Some(WireActorType::Carbon),
        client_id: Some(IAM_APP_ID.to_owned()),
        audience: Some(IAM_APP_ID.to_owned()),
        expires_at: Some(4_070_908_800),
        org_id: None,
        authorization: None,
        authorizations: Some(vec![snapshot(None, false)]),
    };
    let identity = session_identity(response, IAM_APP_ID, None, 1_788_177_600)
        .unwrap_or_else(|error| panic!("{error:?}"));
    assert_eq!(identity.organizations, strings(&["client-org"]));
    assert_eq!(identity.principal_id, principal());
    assert_eq!(identity.actor_kind, ActorKind::Carbon);
    assert_eq!(identity.expires_at, 4_070_908_800);
}

fn directory_member_of(public_id: &str, kind: ActorKind) -> DirectoryMember {
    DirectoryMember {
        id: 11,
        org_id: "client-org".to_owned(),
        principal_id: 12,
        kind: Some(kind),
        public_id: accepted(public_id),
        active: true,
        org_role: Some(OrganizationRole::Member),
        tags: Vec::new(),
        removed: false,
        version: 1,
        authorization_epoch: 1,
    }
}

#[test]
fn recipients_are_resolved_page_by_page() {
    let caller = authorize(snapshot(None, false)).unwrap_or_else(|error| panic!("{error:?}"));
    let wanted = vec![
        ActorRef { kind: ActorKind::Carbon, id: "a".to_owned() },
        ActorRef { kind: ActorKind::Silicon, id: "b".to_owned() },
    ];
    let started = start_resolution(&caller, wanted).unwrap_or_else(|error| panic!("{error:?}"));
    let first = MemberPage {
        items: vec![
            directory_member_of("a", ActorKind::Carbon),
            directory_member_of("someone", ActorKind::Carbon),
        ],
        has_more: true,
        next_cursor: Some("next".to_owned()),
    };
    let going = match resolve_page(started, first) {
        Ok(ResolutionStep::ReadPage { resolution }) => resolution,
        Ok(_) => panic!("one recipient is still missing"),
        Err(error) => panic!("{error:?}"),
    };
    let last = MemberPage {
        items: vec![directory_member_of("b", ActorKind::Silicon)],
        has_more: false,
        next_cursor: None,
    };
    match resolve_page(going, last) {
        Ok(ResolutionStep::Resolved { recipients }) => assert_eq!(recipients.len(), 2),
        Ok(_) => panic!("every recipient was found"),
        Err(error) => panic!("{error:?}"),
    }
}

#[test]
fn a_recipient_that_no_page_lists_leaves_the_resolution_incomplete() {
    let caller = authorize(snapshot(None, false)).unwrap_or_else(|error| panic!("{error:?}"));
    let wanted = vec![ActorRef { kind: ActorKind::Carbon, id: "a".to_owned() }];
    let started = start_resolution(&caller, wanted).unwrap_or_else(|error| panic!("{error:?}"));
    let page = MemberPage { items: Vec::new(), has_more: false, next_cursor: None };
    assert!(matches!(resolve_page(started, page), Ok(ResolutionStep::Incomplete)));
}

fn introspection_json(public_id: &str) -> Json {
    Json::Object(vec![
        member("active", Json::Bool(true)),
        member("public_id", text(public_id)),
        member("actor_type", text("carbon")),
        member("client_id", text(IAM_APP_ID)),
        member("audience", text(IAM_APP_ID)),
        member("org_id", text("client-org")),
        member("expires_at", Json::Integer(4_070_908_800)),
        member(
            "authorization",
            Json::Object(vec![
                member("public_id", text(public_id)),
                member("actor_type", text("carbon")),
                member("org_id", text("client-org")),
                member("audience", text(IAM_APP_ID)),
                member("testing_environment_id", Json::Null),
                member("membership_version", Json::Integer(7)),
                member("authorization_epoch", Json::Integer(7)),
                member("membership_id", text(&format!("{public_id}[client-org]"))),
                member("scopes", Json::Array(vec![text("self.identity.read")])),
            ]),
        ),
    ])
}

#[test]
fn public_identities_are_mapped_to_local_ones() {
    let organizations = strings(&["client-org"]);
    let value = introspection_json("c:carbon-a");
    match validated_identity(&value, IAM_APP_ID, None, &organizations, 1_788_177_600) {
        Ok((kind, public_id)) => {
            assert_eq!(kind, "carbon");
            assert_eq!(public_id, "c:carbon-a");
        }
        Err(error) => panic!("{error:?}"),
    }
    assert!(validated_identity(&value, "other>app", None, &organizations, 1_788_177_600).is_err());
    match prepare(&value, 10, 100, IAM_APP_ID, None, &organizations, 1_788_177_600) {
        Ok(Preparation::Resolve { kind, public_id }) => {
            assert_eq!(kind, "carbon");
            assert_eq!(public_id, "c:carbon-a");
        }
        other => panic!("{other:?}"),
    }
    assert!(prepare(&value, 101, 100, IAM_APP_ID, None, &organizations, 1_788_177_600).is_err());
    let inactive = Json::Object(vec![member("active", Json::Bool(false))]);
    assert!(matches!(
        prepare(&inactive, 10, 100, IAM_APP_ID, None, &organizations, 1_788_177_600),
        Ok(Preparation::Inactive)
    ));
}

#[test]
fn local_identifiers_replace_whatever_the_answer_carried() {
    let mut value = introspection_json("c:carbon-a");
    let keys = LocalKeys { principal: 5, snapshots: vec![6], membership: Some(6) };
    localize(&mut value, "carbon", "c:carbon-a", &keys);
    assert_eq!(
        value.get_text("principal_id"),
        Some("00000000-0000-0000-0000-000000000005")
    );
    match value.get("authorization") {
        Some(authorization) => {
            assert_eq!(
                authorization.get_text("principal_id"),
                Some("00000000-0000-0000-0000-000000000005")
            );
            assert_eq!(
                authorization.get_text("membership_id"),
                Some("00000000-0000-0000-0000-000000000006")
            );
        }
        None => panic!("the snapshot stays"),
    }
    let mut snapshot = Json::Object(Vec::new());
    map_snapshot(&mut snapshot, 1, 2);
    assert_eq!(
        snapshot.get_text("membership_id"),
        Some("00000000-0000-0000-0000-000000000002")
    );
}

#[test]
fn public_identities_have_one_form_per_kind() {
    assert!(valid_public_identity("carbon", "c:carbon-a"));
    assert!(!valid_public_identity("application", "c:carbon-a"));
    assert!(!valid_public_identity("carbon", ""));
    assert!(!valid_public_identity("carbon", "c:ab"));
    assert!(!valid_public_identity("carbon", "c:Carbon"));
    assert!(valid_public_identity("silicon", "si:researcher"));
    assert!(canonical_actor(Some("carbon"), Some("c:carbon-a")).is_ok());
    assert!(canonical_actor(None, Some("c:carbon-a")).is_err());
    assert!(canonical_actor(Some("carbon"), None).is_err());
    let foreign = Json::Object(vec![member("org_id", text("other"))]);
    assert!(snapshot_identity(&foreign, IAM_APP_ID, None, &strings(&["client-org"])).is_err());
}

#[test]
fn identities_live_in_the_store_of_their_plane() {
    let both = IdentityKeys::Database { testing: true };
    assert!(matches!(select_identity_store(both, None), Ok(IdentityStore::Production)));
    assert!(matches!(select_identity_store(both, Some(1)), Ok(IdentityStore::Testing)));
    let production = IdentityKeys::Database { testing: false };
    assert!(select_identity_store(production, Some(1)).is_err());
    assert!(select_identity_store(IdentityKeys::Unconfigured, None).is_err());
}
