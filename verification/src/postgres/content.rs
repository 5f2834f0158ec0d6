//! Decisions around file content: what may be stored where, and what publishing
//! it writes.

pub mod delegated;
pub mod multipart;
pub mod objects;
pub mod publishing;
pub mod storage;
pub mod upload;
pub mod versions;

use vstd::prelude::*;

use crate::error::{conflict, internal_error, AppError};
use crate::ids::{Candidate, StoredId};
use crate::model::{
    AuthorizableEntry, Capability, EntryKind, IdempotencyClaim, MutationMetadata, OrganizationRole,
};
use crate::postgres::metadata::entries::deref_entry;
use crate::text::{same_bytes, same_text};

verus! {

/// Operation name of a small upload.
pub const SMALL_UPLOAD_OPERATION: &'static str = "upload_file";

/// Operation name of starting a multipart upload.
pub const MULTIPART_INIT_OPERATION: &'static str = "initiate_multipart_upload";

/// Operation name of completing a multipart upload.
pub const MULTIPART_COMPLETE_OPERATION: &'static str = "complete_multipart_upload";

/// Operation name of restoring a version.
pub const VERSION_RESTORE_OPERATION: &'static str = "restore_version";

/// A stored value that its own type does not accept.
pub open spec fn bad_value() -> AppError {
    AppError::Internal { category: "persisted_data" }
}

/// A size as a column.
pub fn to_i64(value: u64) -> (column: Result<i64, AppError>)
    ensures
        column == if value <= i64::MAX {
            Ok::<i64, AppError>(value as i64)
        } else {
            Err::<i64, AppError>(bad_value())
        },
{
    if value <= i64::MAX as u64 {
        Ok(value as i64)
    } else {
        Err(internal_error())
    }
}

/// A count as a column.
pub fn to_i32(value: u32) -> (column: Result<i32, AppError>)
    ensures
        column == if value <= i32::MAX {
            Ok::<i32, AppError>(value as i32)
        } else {
            Err::<i32, AppError>(bad_value())
        },
{
    if value <= i32::MAX as u32 {
        Ok(value as i32)
    } else {
        Err(internal_error())
    }
}

/// A column as a size.
pub fn to_u64(value: i64) -> (size: Result<u64, AppError>)
    ensures
        size == if value >= 0 {
            Ok::<u64, AppError>(value as u64)
        } else {
            Err::<u64, AppError>(bad_value())
        },
{
    if value >= 0 {
        Ok(value as u64)
    } else {
        Err(internal_error())
    }
}

/// A size survives being stored and read back.
pub proof fn law_sizes_round_trip(value: u64)
    requires
        value <= i64::MAX,
    ensures
        (value as i64) as u64 == value,
{
}

/// A stored object key; one that its type does not accept fails.
pub fn object_key(value: &Candidate) -> (key: Result<String, AppError>)
    ensures
        key == if value.accepted {
            Ok::<String, AppError>(value.text)
        } else {
            Err::<String, AppError>(bad_value())
        },
{
    if value.accepted {
        Ok(value.text.clone())
    } else {
        Err(internal_error())
    }
}

/// The replay identity of a request that has to have a key.
pub fn keyed_metadata(key: &String, hash: [u8; 32]) -> (metadata: MutationMetadata)
    ensures
        metadata.idempotency_key == Some(*key),
        metadata.request_fingerprint == hash,
{
    MutationMetadata { idempotency_key: Some(key.clone()), request_fingerprint: hash }
}

/// Refuses what the access policy does not allow.
pub fn require_entry_capability(
    entry: &AuthorizableEntry,
    capability: Capability,
) -> (result: Result<(), AppError>)
    ensures
        result == if entry.access.permits(capability) {
            Ok::<(), AppError>(())
        } else {
            Err::<(), AppError>(AppError::Forbidden)
        },
{
    if entry.access.allows(capability) {
        Ok(())
    } else {
        Err(AppError::Forbidden)
    }
}

/// Refuses everyone but administrators.
pub fn require_administrator(role: OrganizationRole) -> (result: Result<(), AppError>)
    ensures
        result == if role.administers() {
            Ok::<(), AppError>(())
        } else {
            Err::<(), AppError>(AppError::Forbidden)
        },
{
    if role.has_administrative_access() {
        Ok(())
    } else {
        Err(AppError::Forbidden)
    }
}

/// The first reason why nothing may be put into a folder.
pub open spec fn parent_refusal(
    parent: Option<AuthorizableEntry>,
    capability: Capability,
) -> Option<AppError> {
    match parent {
        None => Some(AppError::NotFound),
        Some(folder) => if folder.entry.kind != EntryKind::Folder {
            Some(AppError::NotFound)
        } else if !folder.access.permits(capability) {
            Some(AppError::Forbidden)
        } else {
            None
        },
    }
}

/// Refuses a folder that is not there, is none, or may not be written to.
pub fn require_parent<'a>(parent: Option<&'a AuthorizableEntry>, capability: Capability) -> (folder:
    Result<&'a AuthorizableEntry, AppError>)
    ensures
        match parent_refusal(deref_entry(parent), capability) {
            Some(error) => folder == Err::<&AuthorizableEntry, AppError>(error),
            None => parent is Some && folder == Ok::<&AuthorizableEntry, AppError>(parent->0),
        },
{
    let found = match parent {
        Some(found) => found,
        None => {
            return Err(AppError::NotFound);
        },
    };
    if found.entry.kind != EntryKind::Folder {
        return Err(AppError::NotFound);
    }
    match require_entry_capability(found, capability) {
        Ok(()) => Ok(found),
        Err(error) => Err(error),
    }
}

/// An active entry that carries a name inside a folder.
#[derive(Clone, Debug)]
pub struct NamedChild {
    /// Entry identifier.
    pub entry_id: StoredId,
    /// Kind of the entry.
    pub entry_type: String,
}

/// The first reason why a name cannot take another version: something that is
/// no file carries it.
pub open spec fn name_refusal(child: Option<NamedChild>) -> Option<AppError> {
    match child {
        None => None,
        Some(found) => if !found.entry_id.accepted {
            Some(bad_value())
        } else if found.entry_type@ != "file"@ {
            Some(AppError::Conflict { code: "entry_name_exists" })
        } else {
            None
        },
    }
}

/// Refuses an upload whose name is taken by something that has no versions.
pub fn ensure_name_is_versionable(child: &Option<NamedChild>) -> (result: Result<(), AppError>)
    ensures
        match name_refusal(*child) {
            Some(error) => result == Err::<(), AppError>(error),
            None => result == Ok::<(), AppError>(()),
        },
{
    match child {
        None => Ok(()),
        Some(found) => {
            if !found.entry_id.accepted {
                return Err(internal_error());
            }
            if !same_text(found.entry_type.as_str(), "file") {
                return Err(conflict("entry_name_exists"));
            }
            Ok(())
        },
    }
}

/// What a claim on a content resource leads to.
#[derive(Clone, Copy, Debug, PartialEq, Eq, Structural)]
pub enum ContentClaim {
    /// The operation runs on this resource.
    Run {
        /// The resource.
        id: u128,
    },
    /// The operation ran before, on this resource.
    Replay {
        /// The resource.
        id: u128,
    },
}

/// What a claim on a content resource leads to. A claim without a resource
/// conflicts; `accepted` is the identifier type's verdict on the resource, asked
/// of a replayed one only where `check_replay` says so.
pub open spec fn content_claim_of(
    claim: IdempotencyClaim,
    accepted: bool,
    check_replay: bool,
) -> Result<ContentClaim, AppError> {
    match claim {
        IdempotencyClaim::Replay(Some(id)) => if check_replay && !accepted {
            Err(bad_value())
        } else {
            Ok(ContentClaim::Replay { id })
        },
        IdempotencyClaim::Acquired(Some(id)) => if accepted {
            Ok(ContentClaim::Run { id })
        } else {
            Err(bad_value())
        },
        _ => Err(AppError::Conflict { code: "idempotency_state" }),
    }
}

/// What a claim on a content resource leads to.
pub fn content_claim(claim: IdempotencyClaim, accepted: bool, check_replay: bool) -> (step: Result<
    ContentClaim,
    AppError,
>)
    ensures
        step == content_claim_of(claim, accepted, check_replay),
{
    match claim {
        IdempotencyClaim::Replay(Some(id)) => {
            if check_replay && !accepted {
                Err(internal_error())
            } else {
                Ok(ContentClaim::Replay { id })
            }
        },
        IdempotencyClaim::Acquired(Some(id)) => {
            if accepted {
                Ok(ContentClaim::Run { id })
            } else {
                Err(internal_error())
            }
        },
        _ => Err(conflict("idempotency_state")),
    }
}

/// Replay record of a content operation as stored.
#[derive(Clone, Debug)]
pub struct OperationState {
    /// Digest of the recorded request.
    pub request_hash: Vec<u8>,
    /// Where the recorded request stands.
    pub status: String,
}

/// Whether an operation is still the one that its record was made for.
pub open spec fn in_progress(state: Option<OperationState>, request_hash: Seq<u8>) -> bool {
    state matches Some(record) && record.status@ == "in_progress"@ && record.request_hash@
        == request_hash
}

/// Refuses to finish an operation that is no longer the one its record was made
/// for.
pub fn ensure_idempotency_in_progress(
    state: &Option<OperationState>,
    request_hash: &[u8; 32],
) -> (result: Result<(), AppError>)
    ensures
        result == if in_progress(*state, request_hash@) {
            Ok::<(), AppError>(())
        } else {
            Err::<(), AppError>(AppError::Conflict { code: "idempotency_state" })
        },
{
    let record = match state {
        Some(record) => record,
        None => {
            return Err(conflict("idempotency_state"));
        },
    };
    if !same_text(record.status.as_str(), "in_progress") || !same_bytes(
        record.request_hash.as_slice(),
        request_hash.as_slice(),
    ) {
        return Err(conflict("idempotency_state"));
    }
    Ok(())
}

/// Whether the lease of a running restore was extended.
pub fn extend_version_restore_lease(updated_rows: u64) -> (result: Result<(), AppError>)
    ensures
        result == if updated_rows == 1 {
            Ok::<(), AppError>(())
        } else {
            Err::<(), AppError>(AppError::Conflict { code: "idempotency_state" })
        },
{
    if updated_rows == 1 {
        Ok(())
    } else {
        Err(conflict("idempotency_state"))
    }
}

/// Whether a statement that publishes a file reached exactly it. One that did
/// not finds the file or its folder gone.
pub fn check_published(changed_rows: u64) -> (result: Result<(), AppError>)
    ensures
        result == if changed_rows == 1 {
            Ok::<(), AppError>(())
        } else {
            Err::<(), AppError>(AppError::NotFound)
        },
{
    if changed_rows == 1 {
        Ok(())
    } else {
        Err(AppError::NotFound)
    }
}

} // verus!
