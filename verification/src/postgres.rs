//! Tenant-scoped decisions around the relational database.

pub mod content;
pub mod invitations;
pub mod metadata;
pub mod models;
pub mod quota;
pub mod reports;
pub mod repository;
pub mod roots;
pub mod self_destruct;
pub mod sharing;

use vstd::prelude::*;
use vstd::utf8::encode_utf8;

use crate::encoding::{
    big_endian_of, leading_signed_number, push_big_endian, sha256, sha256_of, signed_number_of,
};
use crate::ids::{hyphenated, hyphenated_chars};
use crate::model::{ActorKind, AuthenticationMode, ExecutionContext, TestingEnvironmentContext};
use crate::text::{optional_chars, same_text};

verus! {

/// The database name of a kind of member.
pub open spec fn kind_chars(kind: ActorKind) -> Seq<char> {
    match kind {
        ActorKind::Carbon => "carbon"@,
        ActorKind::Silicon => "silicon"@,
    }
}

/// The database name of a kind of member.
pub fn kind_name(kind: ActorKind) -> (name: &'static str)
    ensures
        name@ == kind_chars(kind),
{
    match kind {
        ActorKind::Carbon => "carbon",
        ActorKind::Silicon => "silicon",
    }
}

/// Request identity that a transaction carries as local settings. Row-level
/// security reads the organization; the rest is for diagnostics.
#[derive(Clone, Debug)]
pub struct TenantContext {
    /// Organization, within its testing environment if there is one.
    pub org_id: String,
    /// Selected testing environment.
    pub testing_environment_id: Option<u128>,
    /// Control-plane version of that environment.
    pub testing_environment_control_version: Option<i64>,
    /// Kind of the represented actor.
    pub actor_type: &'static str,
    /// Identifier of the represented actor.
    pub actor_id: String,
    /// Originating application.
    pub origin_app_id: Option<String>,
    /// Correlation identifier.
    pub request_id: String,
}

/// The organization that rows are stored under: organizations of a testing
/// environment live under a name of their own.
pub open spec fn storage_org_chars(
    organization: Seq<char>,
    environment: Option<TestingEnvironmentContext>,
) -> Seq<char> {
    match environment {
        Some(plane) => hyphenated_chars(plane.id) + seq![':'] + organization,
        None => organization,
    }
}

/// The organization that rows are stored under.
pub fn storage_org_id(
    public_org_id: &str,
    testing_environment: Option<TestingEnvironmentContext>,
) -> (stored: String)
    ensures
        stored@ == storage_org_chars(public_org_id@, testing_environment),
{
    match testing_environment {
        Some(plane) => {
            let mut stored = hyphenated(plane.id);
            stored.push(':');
            stored.append(public_org_id);
            assert(stored@ =~= storage_org_chars(public_org_id@, testing_environment));
            stored
        },
        None => public_org_id.to_owned(),
    }
}

impl TenantContext {
    /// Whether the context is scoped to an organization in a plane.
    pub open spec fn scoped_to(
        self,
        organization: Seq<char>,
        environment: Option<TestingEnvironmentContext>,
    ) -> bool {
        &&& self.org_id@ == storage_org_chars(organization, environment)
        &&& self.testing_environment_id == match environment {
            Some(plane) => Some(plane.id),
            None => None,
        }
        &&& self.testing_environment_control_version == match environment {
            Some(plane) => Some(plane.control_version),
            None => None,
        }
    }

    /// The context of a verified request.
    pub fn from_execution(execution: &ExecutionContext) -> (context: TenantContext)
        ensures
            context.scoped_to(
                execution.authorization.organization_id@,
                execution.testing_environment,
            ),
            context.actor_type@ == kind_chars(execution.authorization.actor.kind),
            context.actor_id == execution.authorization.actor.id,
            optional_chars(context.origin_app_id) == execution.authorization.application(),
            context.request_id == execution.request_id,
    {
        let authority = &execution.authorization;
        let plane = execution.testing_environment;
        let origin_app_id = match &authority.authentication {
            AuthenticationMode::Bearer => None,
            AuthenticationMode::OnBehalfOf { application_id } => Some(application_id.clone()),
        };
        TenantContext {
            org_id: storage_org_id(authority.organization_id.as_str(), plane),
            testing_environment_id: plane_id(plane),
            testing_environment_control_version: plane_version(plane),
            actor_type: kind_name(authority.actor.kind),
            actor_id: authority.actor.id.clone(),
            origin_app_id,
            request_id: execution.request_id.clone(),
        }
    }

    /// The context of a token whose principal has no public identifier yet.
    pub fn for_token_projection(
        org_id: &str,
        actor_kind: ActorKind,
        principal_id: u128,
        request_id: String,
        testing_environment: Option<TestingEnvironmentContext>,
    ) -> (context: TenantContext)
        ensures
            context.scoped_to(org_id@, testing_environment),
            context.actor_type@ == kind_chars(actor_kind),
            context.actor_id@ == hyphenated_chars(principal_id),
            context.origin_app_id is None,
            context.request_id == request_id,
    {
        TenantContext {
            org_id: storage_org_id(org_id, testing_environment),
            testing_environment_id: plane_id(testing_environment),
            testing_environment_control_version: plane_version(testing_environment),
            actor_type: kind_name(actor_kind),
            actor_id: hyphenated(principal_id),
            origin_app_id: None,
            request_id,
        }
    }

    /// The context of a lifecycle action on one testing environment.
    pub fn for_testing_environment_service(
        public_org_id: &str,
        testing_environment: TestingEnvironmentContext,
        request_id: String,
    ) -> (context: TenantContext)
        ensures
            context.scoped_to(public_org_id@, Some(testing_environment)),
            context.actor_type@ == "service"@,
            context.actor_id@ == "testing-environment"@,
            context.origin_app_id is None,
            context.request_id == request_id,
    {
        TenantContext {
            org_id: storage_org_id(public_org_id, Some(testing_environment)),
            testing_environment_id: Some(testing_environment.id),
            testing_environment_control_version: Some(testing_environment.control_version),
            actor_type: "service",
            actor_id: "testing-environment".to_owned(),
            origin_app_id: None,
            request_id,
        }
    }

    /// The context of a control-plane action in production.
    pub fn for_control_service(public_org_id: &str, request_id: String) -> (context: TenantContext)
        ensures
            context.scoped_to(public_org_id@, None),
            context.actor_type@ == "service"@,
            context.actor_id@ == "testing-environment"@,
            context.origin_app_id is None,
            context.request_id == request_id,
    {
        TenantContext {
            org_id: public_org_id.to_owned(),
            testing_environment_id: None,
            testing_environment_control_version: None,
            actor_type: "service",
            actor_id: "testing-environment".to_owned(),
            origin_app_id: None,
            request_id,
        }
    }

    /// The organization that rows are stored under.
    pub fn org_id(&self) -> (id: &str)
        ensures
            id@ == self.org_id@,
    {
        self.org_id.as_str()
    }

    /// The selected testing environment.
    pub fn testing_environment_id(&self) -> (id: Option<u128>)
        ensures
            id == self.testing_environment_id,
    {
        self.testing_environment_id
    }

    /// The control-plane version of the selected testing environment.
    pub fn testing_environment_control_version(&self) -> (version: Option<i64>)
        ensures
            version == self.testing_environment_control_version,
    {
        self.testing_environment_control_version
    }

    /// The kind of the represented actor.
    pub fn actor_type(&self) -> (kind: &'static str)
        ensures
            kind@ == self.actor_type@,
    {
        self.actor_type
    }

    /// The identifier of the represented actor.
    pub fn actor_id(&self) -> (id: &str)
        ensures
            id@ == self.actor_id@,
    {
        self.actor_id.as_str()
    }

    /// The originating application.
    pub fn origin_app_id(&self) -> (id: Option<&str>)
        ensures
            id is Some == self.origin_app_id is Some,
            id matches Some(application) ==> self.origin_app_id is Some && application@
                == self.origin_app_id->0@,
    {
        match &self.origin_app_id {
            Some(application) => Some(application.as_str()),
            None => None,
        }
    }

    /// The correlation identifier.
    pub fn request_id(&self) -> (id: &str)
        ensures
            id@ == self.request_id@,
    {
        self.request_id.as_str()
    }
}

/// The identifier of a plane.
fn plane_id(plane: Option<TestingEnvironmentContext>) -> (id: Option<u128>)
    ensures
        id == match plane {
            Some(environment) => Some(environment.id),
            None => None,
        },
{
    match plane {
        Some(environment) => Some(environment.id),
        None => None,
    }
}

/// The control-plane version of a plane.
fn plane_version(plane: Option<TestingEnvironmentContext>) -> (version: Option<i64>)
    ensures
        version == match plane {
            Some(environment) => Some(environment.control_version),
            None => None,
        },
{
    match plane {
        Some(environment) => Some(environment.control_version),
        None => None,
    }
}

/// Local settings of one transaction, in the order they are installed.
#[derive(Clone, Debug)]
pub struct TransactionSettings {
    /// `briefcase.org_id`.
    pub org_id: String,
    /// `briefcase.testing_environment_id`, empty in production.
    pub testing_environment_id: String,
    /// `briefcase.actor_type`.
    pub actor_type: String,
    /// `briefcase.actor_id`.
    pub actor_id: String,
    /// `briefcase.origin_app_id`, empty without an application.
    pub origin_app_id: String,
    /// `briefcase.request_id`.
    pub request_id: String,
    /// Advisory lock key of the testing environment to hold in shared mode.
    pub shared_lock: Option<i64>,
}

/// The characters of an optional identifier, none where it is absent.
pub open spec fn id_or_empty(id: Option<u128>) -> Seq<char> {
    match id {
        Some(value) => hyphenated_chars(value),
        None => Seq::empty(),
    }
}

/// The settings and the lifecycle lock of a tenant transaction.
pub fn transaction_settings(context: &TenantContext) -> (settings: TransactionSettings)
    ensures
        settings.org_id == context.org_id,
        settings.testing_environment_id@ == id_or_empty(context.testing_environment_id),
        settings.actor_type@ == context.actor_type@,
        settings.actor_id == context.actor_id,
        settings.origin_app_id@ == match context.origin_app_id {
            Some(application) => application@,
            None => Seq::empty(),
        },
        settings.request_id == context.request_id,
        settings.shared_lock == match context.testing_environment_id {
            Some(id) => Some(lock_key_of(id)),
            None => None,
        },
{
    let origin_app_id = match &context.origin_app_id {
        Some(application) => application.clone(),
        None => String::new(),
    };
    let (testing_environment_id, shared_lock) = match context.testing_environment_id {
        Some(id) => (hyphenated(id), Some(testing_environment_lock_key(id))),
        None => (String::new(), None),
    };
    TransactionSettings {
        org_id: context.org_id.clone(),
        testing_environment_id,
        actor_type: context.actor_type.to_owned(),
        actor_id: context.actor_id.clone(),
        origin_app_id,
        request_id: context.request_id.clone(),
        shared_lock,
    }
}

/// The settings and the lifecycle lock of a projection transaction, which acts
/// for the identity webhook.
pub fn projection_settings(
    org_id: &str,
    request_id: &str,
    testing_environment_id: Option<u128>,
) -> (settings: TransactionSettings)
    ensures
        settings.org_id@ == org_id@,
        settings.testing_environment_id@ == id_or_empty(testing_environment_id),
        settings.actor_type@ == "service"@,
        settings.actor_id@ == "iam-webhook"@,
        settings.origin_app_id@ == Seq::<char>::empty(),
        settings.request_id@ == request_id@,
        settings.shared_lock == match testing_environment_id {
            Some(id) => Some(lock_key_of(id)),
            None => None,
        },
{
    let (plane, shared_lock) = match testing_environment_id {
        Some(id) => (hyphenated(id), Some(testing_environment_lock_key(id))),
        None => (String::new(), None),
    };
    TransactionSettings {
        org_id: org_id.to_owned(),
        testing_environment_id: plane,
        actor_type: "service".to_owned(),
        actor_id: "iam-webhook".to_owned(),
        origin_app_id: String::new(),
        request_id: request_id.to_owned(),
        shared_lock,
    }
}

/// The advisory lock key that fences the life of a testing environment: the
/// leading digest bytes of a fixed namespace and the identifier's bytes.
pub open spec fn lock_key_of(environment_id: u128) -> i64 {
    signed_number_of(
        sha256_of(
            encode_utf8("silicon-briefcase/testing-environment-clean-fence/v1"@) + big_endian_of(
                environment_id as nat,
                16,
            ),
        ),
    ) as i64
}

/// The advisory lock key that fences the life of a testing environment.
pub fn testing_environment_lock_key(environment_id: u128) -> (key: i64)
    ensures
        key == lock_key_of(environment_id),
{
    let namespace = "silicon-briefcase/testing-environment-clean-fence/v1";
    let prefix = namespace.as_bytes();
    let mut bytes: Vec<u8> = Vec::new();
    let mut index: usize = 0;
    while index < prefix.len()
        invariant
            index <= prefix@.len(),
            bytes@ == prefix@.take(index as int),
        decreases prefix@.len() - index,
    {
        bytes.push(prefix[index]);
        index += 1;
        assert(bytes@ =~= prefix@.take(index as int));
    }
    assert(prefix@.take(prefix@.len() as int) =~= prefix@);
    push_big_endian(&mut bytes, environment_id, 16);
    let digest = sha256(bytes.as_slice());
    leading_signed_number(&digest)
}

/// A lifecycle fence was released; one that was not held is a protocol error.
pub fn fence_released(released: bool, exclusive: bool) -> (result: Result<(), &'static str>)
    ensures
        result is Ok == released,
        result matches Err(message) ==> message@ == if exclusive {
            "testing environment lifecycle fence was not held"@
        } else {
            "testing environment shared lifecycle fence was not held"@
        },
{
    if released {
        Ok(())
    } else if exclusive {
        Err("testing environment lifecycle fence was not held")
    } else {
        Err("testing environment shared lifecycle fence was not held")
    }
}

/// What a database role is able to do.
#[derive(Clone, Copy, Debug, PartialEq, Eq, Structural)]
pub struct RoleCapabilities {
    /// Superuser.
    pub rolsuper: bool,
    /// Bypasses row-level security.
    pub rolbypassrls: bool,
}

impl RoleCapabilities {
    /// Whether the role escapes row-level security.
    pub open spec fn bypasses(self) -> bool {
        self.rolsuper || self.rolbypassrls
    }

    /// Whether the role escapes row-level security.
    pub fn bypasses_row_level_security(self) -> (answer: bool)
        ensures
            answer == self.bypasses(),
    {
        self.rolsuper || self.rolbypassrls
    }
}

/// Accepts a role that row-level security binds; `None` is a role that could
/// not be resolved.
pub fn verify_tenant_isolated_role(capabilities: Option<RoleCapabilities>) -> (result: Result<
    (),
    &'static str,
>)
    ensures
        result is Ok == (capabilities matches Some(role) && !role.bypasses()),
        result matches Err(message) ==> message@ == if capabilities is None {
            "database role could not be resolved"@
        } else {
            "API database role must not be SUPERUSER or BYPASSRLS"@
        },
{
    match capabilities {
        None => Err("database role could not be resolved"),
        Some(role) => {
            if role.bypasses_row_level_security() {
                Err("API database role must not be SUPERUSER or BYPASSRLS")
            } else {
                Ok(())
            }
        },
    }
}

/// Accepts a role that row-level security does not bind; `None` is a role that
/// could not be resolved.
pub fn verify_cross_tenant_role(capabilities: Option<RoleCapabilities>) -> (result: Result<
    (),
    &'static str,
>)
    ensures
        result is Ok == (capabilities matches Some(role) && role.bypasses()),
        result matches Err(message) ==> message@ == if capabilities is None {
            "database role could not be resolved"@
        } else {
            "worker database role requires SUPERUSER or BYPASSRLS"@
        },
{
    match capabilities {
        None => Err("database role could not be resolved"),
        Some(role) => {
            if !role.bypasses_row_level_security() {
                Err("worker database role requires SUPERUSER or BYPASSRLS")
            } else {
                Ok(())
            }
        },
    }
}

/// What identifies a physical database, whatever address leads to it.
#[derive(Clone, Debug)]
pub struct DatabaseIdentity {
    /// System identifier of the cluster.
    pub system_identifier: String,
    /// Object identifier of the database.
    pub database_oid: i64,
    /// Name that the server reports.
    pub database_name: String,
}

impl DatabaseIdentity {
    /// Whether two identities are of one database.
    pub open spec fn same_database(self, other: DatabaseIdentity) -> bool {
        self.system_identifier@ == other.system_identifier@ && self.database_oid
            == other.database_oid && self.database_name@ == other.database_name@
    }
}

/// Refuses production and testing pools that lead to one database.
pub fn ensure_distinct_database_identities(
    production: &DatabaseIdentity,
    testing: &DatabaseIdentity,
) -> (result: Result<(), &'static str>)
    ensures
        result is Ok == !production.same_database(*testing),
        result matches Err(message) ==> message@
            == "production and testing pools must resolve to different PostgreSQL databases"@,
{
    if same_text(production.system_identifier.as_str(), testing.system_identifier.as_str())
        && production.database_oid == testing.database_oid && same_text(
        production.database_name.as_str(),
        testing.database_name.as_str(),
    ) {
        return Err(
            "production and testing pools must resolve to different PostgreSQL databases",
        );
    }
    Ok(())
}

} // verus!
