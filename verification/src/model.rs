//! Values that every adapter speaks of: members, organizations, entries,
//! rights and the context a request runs in.

use vstd::prelude::*;

use crate::text::same_text;

verus! {

/// Kind of a member.
#[derive(Clone, Copy, Debug, PartialEq, Eq, Structural)]
pub enum ActorKind {
    /// A person.
    Carbon,
    /// An agent.
    Silicon,
}

/// Role of a member inside one organization.
#[derive(Clone, Copy, Debug, PartialEq, Eq, Structural)]
pub enum OrganizationRole {
    /// Ordinary member.
    Member,
    /// Administrator.
    Admin,
    /// Owner.
    Owner,
}

impl OrganizationRole {
    /// Whether the role administers the organization.
    pub open spec fn administers(self) -> bool {
        self != OrganizationRole::Member
    }

    /// Whether the role administers the organization.
    pub fn has_administrative_access(self) -> (answer: bool)
        ensures
            answer == self.administers(),
    {
        match self {
            OrganizationRole::Member => false,
            OrganizationRole::Admin => true,
            OrganizationRole::Owner => true,
        }
    }
}

/// One member of an organization.
#[derive(Clone, Debug)]
pub struct ActorRef {
    /// Kind of the member.
    pub kind: ActorKind,
    /// Public identifier of the member.
    pub id: String,
}

impl ActorRef {
    /// The member as kind and identifier characters.
    pub open spec fn identity(self) -> (ActorKind, Seq<char>) {
        (self.kind, self.id@)
    }

    /// Whether two references name the same member.
    pub fn same_actor(&self, other: &ActorRef) -> (same: bool)
        ensures
            same == (self.identity() == other.identity()),
    {
        self.kind == other.kind && same_text(self.id.as_str(), other.id.as_str())
    }

    /// A copy of the reference.
    pub fn duplicate(&self) -> (copy: ActorRef)
        ensures
            copy == *self,
    {
        ActorRef { kind: self.kind, id: self.id.clone() }
    }
}

/// How the caller proved who it is.
#[derive(Clone, Debug)]
pub enum AuthenticationMode {
    /// The member's own bearer token.
    Bearer,
    /// An application acting for the member.
    OnBehalfOf {
        /// The application.
        application_id: String,
    },
}

/// One tag of a membership.
#[derive(Clone, Debug)]
pub struct MembershipTag {
    /// Immutable tag identifier.
    pub id: u128,
    /// Tag name.
    pub name: String,
}

/// Immutable facts that bind a request to one membership.
#[derive(Clone, Debug)]
pub struct IamMembershipBinding {
    /// Organization identifier.
    pub organization_id: u128,
    /// Principal identifier.
    pub principal_id: u128,
    /// Membership identifier.
    pub membership_id: u128,
    /// Version of the membership.
    pub membership_version: i64,
    /// Epoch that any authorization change advances.
    pub authorization_epoch: i64,
    /// Tags of the membership, or nothing where they were not disclosed.
    pub tags: Option<Vec<MembershipTag>>,
}

/// Authority that a request carries.
#[derive(Clone, Debug)]
pub struct RequestAuthContext {
    /// Organization the request acts in.
    pub organization_id: String,
    /// Represented member.
    pub actor: ActorRef,
    /// Role of the member.
    pub role: OrganizationRole,
    /// Tag names, or nothing where they were not disclosed.
    pub tags: Option<Vec<String>>,
    /// How the caller proved who it is.
    pub authentication: AuthenticationMode,
    /// Membership the authority is bound to.
    pub binding: Option<IamMembershipBinding>,
}

impl RequestAuthContext {
    /// Whether a tag name is among the disclosed ones.
    pub open spec fn holds_tag(self, name: Seq<char>) -> bool {
        self.tags matches Some(tags) && exists|k: int|
            0 <= k < tags@.len() && (#[trigger] tags@[k])@ == name
    }

    /// Whether a tag name is among the disclosed ones. Tags that were not
    /// disclosed hold no name.
    pub fn has_tag(&self, name: &str) -> (answer: bool)
        ensures
            answer == self.holds_tag(name@),
    {
        match &self.tags {
            Some(tags) => crate::text::contains_text(tags, name),
            None => false,
        }
    }

    /// The application the request acts through.
    pub open spec fn application(self) -> Option<Seq<char>> {
        match self.authentication {
            AuthenticationMode::Bearer => None,
            AuthenticationMode::OnBehalfOf { application_id } => Some(application_id@),
        }
    }

    /// The application the request acts through.
    pub fn originating_application(&self) -> (application: Option<&str>)
        ensures
            application is Some == self.application() is Some,
            application matches Some(id) ==> self.application() == Some(id@),
    {
        match &self.authentication {
            AuthenticationMode::Bearer => None,
            AuthenticationMode::OnBehalfOf { application_id } => Some(application_id.as_str()),
        }
    }
}

/// One generation of a testing environment.
#[derive(Clone, Copy, Debug, PartialEq, Eq, Structural)]
pub struct TestingEnvironmentContext {
    /// Environment identifier.
    pub id: u128,
    /// Control-plane version of the environment.
    pub control_version: i64,
}

/// Everything a repository operation knows about its request.
#[derive(Clone, Debug)]
pub struct ExecutionContext {
    /// Authority of the request.
    pub authorization: RequestAuthContext,
    /// Selected testing environment.
    pub testing_environment: Option<TestingEnvironmentContext>,
    /// Correlation identifier.
    pub request_id: String,
}

/// Kind of an entry.
#[derive(Clone, Copy, Debug, PartialEq, Eq, Structural)]
pub enum EntryKind {
    /// A file.
    File,
    /// A folder.
    Folder,
}

/// Reserved entries that the system itself keeps.
#[derive(Clone, Copy, Debug, PartialEq, Eq, Structural)]
pub enum SystemEntryKind {
    /// The organization's public container.
    PublicContainer,
    /// The organization's private container.
    PrivateContainer,
    /// The root of one tag.
    TagRoot,
    /// A member's private folder, or an application folder inside it.
    PrivateActorFolder,
}

/// Boundary that an entry inherits from its root.
#[derive(Clone, Debug)]
pub enum EntryBoundary {
    /// Everyone in the organization.
    Public,
    /// One member.
    Private,
    /// The holders of one tag.
    Tag {
        /// Name of the tag.
        tag: String,
    },
}

impl EntryBoundary {
    /// The name of the boundary's tag.
    pub open spec fn tag_chars(self) -> Option<Seq<char>> {
        match self {
            EntryBoundary::Tag { tag } => Some(tag@),
            _ => None,
        }
    }

    /// Whether two boundaries are the same boundary.
    pub open spec fn same_boundary(self, other: EntryBoundary) -> bool {
        match (self, other) {
            (EntryBoundary::Public, EntryBoundary::Public) => true,
            (EntryBoundary::Private, EntryBoundary::Private) => true,
            (EntryBoundary::Tag { tag: a }, EntryBoundary::Tag { tag: b }) => a@ == b@,
            _ => false,
        }
    }

    /// Whether two boundaries are the same boundary.
    pub fn matches(&self, other: &EntryBoundary) -> (same: bool)
        ensures
            same == self.same_boundary(*other),
    {
        match (self, other) {
            (EntryBoundary::Public, EntryBoundary::Public) => true,
            (EntryBoundary::Private, EntryBoundary::Private) => true,
            (EntryBoundary::Tag { tag: a }, EntryBoundary::Tag { tag: b }) => same_text(
                a.as_str(),
                b.as_str(),
            ),
            _ => false,
        }
    }
}

/// What a caller may be asked to be able to do with an entry.
#[derive(Clone, Copy, Debug, PartialEq, Eq, Structural)]
pub enum Capability {
    /// Read metadata and content.
    Read,
    /// Create entries inside a folder.
    CreateChild,
    /// Publish content.
    WriteContent,
    /// Rename, move, or otherwise change metadata.
    UpdateMetadata,
    /// Delete.
    Delete,
    /// Grant and revoke access.
    ManagePermissions,
}

/// One right that a grant conveys.
#[derive(Clone, Copy, Debug, PartialEq, Eq, Structural)]
pub enum AccessRight {
    /// Read.
    Read,
    /// Create content inside a folder.
    Write,
    /// Change what exists.
    Update,
    /// Delete.
    Delete,
}

/// A set of rights.
#[derive(Clone, Copy, Debug, PartialEq, Eq, Structural)]
pub struct GrantedAccess {
    /// Read.
    pub read: bool,
    /// Create content inside a folder.
    pub write: bool,
    /// Change what exists.
    pub update: bool,
    /// Delete.
    pub delete: bool,
}

impl GrantedAccess {
    /// Whether the set holds a right.
    pub open spec fn holds(self, right: AccessRight) -> bool {
        match right {
            AccessRight::Read => self.read,
            AccessRight::Write => self.write,
            AccessRight::Update => self.update,
            AccessRight::Delete => self.delete,
        }
    }

    /// Whether the set holds a right.
    pub fn contains(self, right: AccessRight) -> (answer: bool)
        ensures
            answer == self.holds(right),
    {
        match right {
            AccessRight::Read => self.read,
            AccessRight::Write => self.write,
            AccessRight::Update => self.update,
            AccessRight::Delete => self.delete,
        }
    }

    /// Whether every right of this set is among another set's rights.
    pub open spec fn within(self, other: GrantedAccess) -> bool {
        forall|right: AccessRight| self.holds(right) ==> #[trigger] other.holds(right)
    }

    /// Whether every right of this set is among another set's rights.
    pub fn is_within(self, other: GrantedAccess) -> (answer: bool)
        ensures
            answer == self.within(other),
    {
        let answer = (!self.read || other.read) && (!self.write || other.write) && (!self.update
            || other.update) && (!self.delete || other.delete);
        proof {
            if !answer {
                if self.read && !other.read {
                    assert(!other.holds(AccessRight::Read));
                } else if self.write && !other.write {
                    assert(!other.holds(AccessRight::Write));
                } else if self.update && !other.update {
                    assert(!other.holds(AccessRight::Update));
                } else {
                    assert(!other.holds(AccessRight::Delete));
                }
            }
        }
        answer
    }

    /// Whether the set holds a right other than reading.
    pub open spec fn beyond_read(self) -> bool {
        self.write || self.update || self.delete
    }
}

/// Verdict of the access policy about one entry and the request's caller.
#[derive(Clone, Copy, Debug, PartialEq, Eq, Structural)]
pub struct EntryAccess {
    /// May read.
    pub read: bool,
    /// May create entries inside.
    pub create_child: bool,
    /// May publish content.
    pub write_content: bool,
    /// May change metadata.
    pub update_metadata: bool,
    /// May delete.
    pub delete: bool,
    /// May grant and revoke access.
    pub manage_permissions: bool,
    /// Sees the entry itself, not only a path through it.
    pub fully_visible: bool,
    /// Requestable rights that the caller's effective access already covers.
    pub satisfied: GrantedAccess,
}

impl EntryAccess {
    /// Whether the policy allows a capability.
    pub open spec fn permits(self, capability: Capability) -> bool {
        match capability {
            Capability::Read => self.read,
            Capability::CreateChild => self.create_child,
            Capability::WriteContent => self.write_content,
            Capability::UpdateMetadata => self.update_metadata,
            Capability::Delete => self.delete,
            Capability::ManagePermissions => self.manage_permissions,
        }
    }

    /// Whether the policy allows a capability.
    pub fn allows(self, capability: Capability) -> (answer: bool)
        ensures
            answer == self.permits(capability),
    {
        match capability {
            Capability::Read => self.read,
            Capability::CreateChild => self.create_child,
            Capability::WriteContent => self.write_content,
            Capability::UpdateMetadata => self.update_metadata,
            Capability::Delete => self.delete,
            Capability::ManagePermissions => self.manage_permissions,
        }
    }
}

/// Metadata of one entry.
#[derive(Clone, Debug)]
pub struct EntryView {
    /// Entry identifier.
    pub id: u128,
    /// Owning organization.
    pub organization_id: String,
    /// Kind of the entry.
    pub kind: EntryKind,
    /// Name of the entry.
    pub name: String,
    /// Organization-relative path.
    pub path: String,
    /// Parent folder.
    pub parent_id: Option<u128>,
    /// Inherited boundary.
    pub boundary: EntryBoundary,
    /// Owner.
    pub owner: ActorRef,
    /// Application that created the entry.
    pub origin_application_id: Option<String>,
    /// Media type of a file.
    pub content_type: Option<String>,
    /// Size of a file in bytes.
    pub size: Option<u64>,
    /// Current content version of a file.
    pub current_version_id: Option<u128>,
    /// Creation time.
    pub created_at: i128,
    /// Time of the last change.
    pub updated_at: i128,
    /// Time of deletion.
    pub deleted_at: Option<i128>,
}

/// One entry with what the access policy says of it.
#[derive(Clone, Debug)]
pub struct AuthorizableEntry {
    /// Metadata of the entry.
    pub entry: EntryView,
    /// Reserved classification.
    pub system_kind: Option<SystemEntryKind>,
    /// Whether the entry is reserved for the system.
    pub reserved: bool,
    /// Running self-destruct deadline.
    pub self_destruct_at: Option<i128>,
    /// Verdict of the access policy.
    pub access: EntryAccess,
}

/// Claim of an idempotency key inside one transaction.
#[derive(Clone, Copy, Debug, PartialEq, Eq, Structural)]
pub enum IdempotencyClaim {
    /// This request performs the operation on the given resource.
    Acquired(Option<u128>),
    /// An earlier request performed it, on the given resource.
    Replay(Option<u128>),
}

/// Replay identity of a mutation.
#[derive(Clone, Debug)]
pub struct MutationMetadata {
    /// Key that the client repeats on a retry.
    pub idempotency_key: Option<String>,
    /// Digest of the canonical request.
    pub request_fingerprint: [u8; 32],
}

} // verus!
