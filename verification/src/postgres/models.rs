//! Stored rows that decisions read. Where a value is about to enter a checked
//! type, the row carries the verdict of that type beside it.

use vstd::prelude::*;

use crate::ids::{Candidate, StoredId};

verus! {

/// One entry as stored.
#[derive(Clone, Debug)]
pub struct EntryRow {
    /// Owning organization.
    pub org_id: Candidate,
    /// Entry identifier.
    pub entry_id: StoredId,
    /// Parent folder.
    pub parent_id: Option<StoredId>,
    /// Kind of the entry.
    pub entry_type: String,
    /// Name.
    pub name: Candidate,
    /// Organization-relative path.
    pub path: Candidate,
    /// Kind of the boundary.
    pub root_type: String,
    /// Tag of the boundary.
    pub tag_id: Option<String>,
    /// Reserved classification.
    pub system_kind: Option<String>,
    /// Kind of the owner.
    pub owner_type: String,
    /// Identifier of the owner.
    pub owner_id: Candidate,
    /// Application that created the entry.
    pub origin_app_id: Option<Candidate>,
    /// Media type.
    pub content_type: Option<String>,
    /// Size in bytes.
    pub size_bytes: Option<i64>,
    /// Current content version.
    pub current_version_id: Option<StoredId>,
    /// Deletion that removed the entry.
    pub deletion_batch_id: Option<u128>,
    /// Time of deletion.
    pub deleted_at: Option<i128>,
    /// Time of final removal.
    pub purge_after: Option<i128>,
    /// Running self-destruct deadline.
    pub self_destruct_at: Option<i128>,
    /// Creation time.
    pub created_at: i128,
    /// Time of the last change.
    pub updated_at: i128,
}

/// One permission grant as stored.
#[derive(Clone, Debug)]
pub struct PermissionGrantRow {
    /// Owning organization.
    pub org_id: Candidate,
    /// Entry that the grant is on.
    pub entry_id: StoredId,
    /// Grant identifier.
    pub grant_id: StoredId,
    /// Kind of the principal.
    pub principal_type: String,
    /// Identifier of the principal.
    pub principal_id: Candidate,
    /// Rights as a bit mask.
    pub access_mask: i16,
    /// Whether the grant reaches the entry's descendants.
    pub inherits_to_descendants: bool,
    /// Kind of the grantor.
    pub granted_by_type: String,
    /// Identifier of the grantor.
    pub granted_by_id: Candidate,
    /// End of an expiring share.
    pub expires_at: Option<i128>,
    /// Time of revocation.
    pub revoked_at: Option<i128>,
    /// Creation time.
    pub created_at: i128,
}

/// One access request as stored.
#[derive(Clone, Debug)]
pub struct AccessRequestRow {
    /// Owning organization.
    pub org_id: Candidate,
    /// Request identifier.
    pub access_request_id: StoredId,
    /// Entry that access is requested to.
    pub entry_id: StoredId,
    /// Kind of the requester.
    pub requested_by_type: String,
    /// Identifier of the requester.
    pub requested_by_id: Candidate,
    /// Requested rights as a bit mask.
    pub requested_access_mask: i16,
    /// What the requester wrote.
    pub reason: Option<String>,
    /// Where the request stands.
    pub status: String,
    /// Granted rights as a bit mask.
    pub granted_access_mask: Option<i16>,
    /// Kind of the decider.
    pub decided_by_type: Option<String>,
    /// Identifier of the decider.
    pub decided_by_id: Option<Candidate>,
    /// Time of the decision.
    pub decided_at: Option<i128>,
    /// Grant that the approval made.
    pub permission_grant_id: Option<StoredId>,
    /// Creation time.
    pub created_at: i128,
    /// Time of the last change.
    pub updated_at: i128,
}

/// Replay record of a mutation as stored.
#[derive(Clone, Debug)]
pub struct IdempotencyState {
    /// Digest of the recorded request.
    pub request_hash: Vec<u8>,
    /// Where the recorded request stands.
    pub status: String,
    /// Resource of the recorded request.
    pub resource_id: Option<u128>,
    /// End of the recorded request's exclusive turn.
    pub locked_until: i128,
}

/// One member as projected from the identity service.
#[derive(Clone, Debug)]
pub struct ProjectedCaller {
    /// Role.
    pub org_role: String,
    /// Status of the membership.
    pub membership_status: String,
    /// Names of the member's active tags.
    pub tag_names: Vec<String>,
}

} // verus!
