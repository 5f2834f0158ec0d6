//! Publishing a staged delegated upload under the authority that its member has
//! now.

use vstd::prelude::*;

use crate::encoding::{encode_hex, hex_of};
use crate::error::{conflict, internal_integrity, AppError};
use crate::model::{AuthorizableEntry, ExecutionContext};
use crate::postgres::content::delegated::{
    authorize_committed, authorize_destination, committed_refusal, destination_refusal, expire,
    expiry_of, lemma_status_words, published_id, row_object, row_target, status_after,
    DelegatedUploadState, DelegatedUploadStatus, UploadRow,
};
use crate::postgres::content::delegated::transfer::at_row_place;
use crate::postgres::content::objects::{ObjectChecksum, StoredObject};
use crate::postgres::content::publishing::{
    publication_refusal, publish_file_content, published, Publication, PublicationRequest,
    StoredContent,
};
use crate::postgres::content::storage::{
    encryption_of, identify_storage_target, StorageReference, StorageTarget,
};
use crate::postgres::content::{bad_value, NamedChild};
use crate::postgres::metadata::entries::deref_entry;
use crate::text::{borrowed_chars, optional_chars, same_optional_text, same_text};

verus! {

/// A staged upload that is ready to be published.
#[derive(Clone, Debug)]
pub struct DelegatedUploadCommit {
    /// What the caller learns.
    pub status: DelegatedUploadStatus,
    /// Place.
    pub target: StorageTarget,
    /// The object.
    pub stored: StoredObject,
}

/// What preparing to publish leads to.
#[derive(Clone, Debug)]
pub enum PrepareDelegatedUploadCommit {
    /// It is published already.
    Committed {
        /// What the caller learns.
        status: DelegatedUploadStatus,
    },
    /// It is staged.
    Staged {
        /// What is published.
        commit: DelegatedUploadCommit,
    },
}

/// The first reason why an upload is not published, before it is known where it
/// stands.
pub open spec fn lookup_refusal(row: Option<UploadRow>, upload_id: u128, now: i128) -> Option<
    AppError,
> {
    if row is None || row->0.upload_id != upload_id {
        Some(AppError::NotFound)
    } else if expiry_of(row->0, now) is Err {
        Some(expiry_of(row->0, now)->Err_0)
    } else {
        None
    }
}

/// What a caller learns of an upload in a state.
pub open spec fn in_state(
    row: UploadRow,
    state: DelegatedUploadState,
    published: Option<u128>,
) -> DelegatedUploadStatus {
    DelegatedUploadStatus {
        operation_id: row.operation_id,
        upload_id: row.upload_id,
        state,
        expires_at: row.expires_at,
        published_entry_id: published,
    }
}

/// The first reason why an upload is not prepared to be published.
pub open spec fn prepare_refusal(
    row: Option<UploadRow>,
    upload_id: u128,
    now: i128,
    parent: Result<AuthorizableEntry, AppError>,
    child: Option<NamedChild>,
    entry: Option<AuthorizableEntry>,
) -> Option<AppError> {
    if lookup_refusal(row, upload_id, now) is Some {
        lookup_refusal(row, upload_id, now)
    } else if status_after(row->0, now) == "committed"@ {
        committed_refusal(row->0, entry)
    } else if status_after(row->0, now) != "staged"@ {
        Some(AppError::Conflict { code: "delegated_upload_not_staged" })
    } else if destination_refusal(row->0, parent, child) is Some {
        destination_refusal(row->0, parent, child)
    } else if encryption_of(row->0.storage_encryption_mode@) is None || row_object(row->0) is Err {
        Some(bad_value())
    } else {
        None
    }
}

/// Prepares to publish an upload. One that is published already is described to
/// those who may still write to the file.
pub fn prepare_commit(
    row: Option<UploadRow>,
    upload_id: u128,
    now: i128,
    parent: &Result<AuthorizableEntry, AppError>,
    child: &Option<NamedChild>,
    entry: Option<&AuthorizableEntry>,
) -> (prepared: Result<PrepareDelegatedUploadCommit, AppError>)
    ensures
        match prepare_refusal(row, upload_id, now, *parent, *child, deref_entry(entry)) {
            Some(error) => prepared == Err::<PrepareDelegatedUploadCommit, AppError>(error),
            None => if status_after(row->0, now) == "committed"@ {
                prepared == Ok::<PrepareDelegatedUploadCommit, AppError>(
                    PrepareDelegatedUploadCommit::Committed {
                        status: in_state(
                            row->0,
                            DelegatedUploadState::Committed,
                            published_id(row->0.published_entry_id),
                        ),
                    },
                )
            } else {
                &&& prepared matches Ok(PrepareDelegatedUploadCommit::Staged { commit })
                    && commit.status == in_state(
                    row->0,
                    DelegatedUploadState::Staged,
                    published_id(row->0.published_entry_id),
                ) && row_target(commit.target, row->0) && row_object(row->0) == Ok::<
                    StoredObject,
                    AppError,
                >(commit.stored)
            },
        },
{
    let mut found = match row {
        Some(found) => found,
        None => {
            return Err(AppError::NotFound);
        },
    };
    if found.upload_id != upload_id {
        return Err(AppError::NotFound);
    }
    match expire(&mut found, now) {
        Ok(_) => {},
        Err(error) => {
            return Err(error);
        },
    }
    proof {
        lemma_status_words();
    }
    if same_text(found.status.as_str(), "committed") {
        match authorize_committed(&found, entry) {
            Ok(()) => {},
            Err(error) => {
                return Err(error);
            },
        }
        return match found.status() {
            Ok(status) => Ok(PrepareDelegatedUploadCommit::Committed { status }),
            Err(error) => Err(error),
        };
    }
    if !same_text(found.status.as_str(), "staged") {
        return Err(conflict("delegated_upload_not_staged"));
    }
    match authorize_destination(&found, parent, child) {
        Ok(()) => {},
        Err(error) => {
            return Err(error);
        },
    }
    let status = match found.status() {
        Ok(status) => status,
        Err(error) => {
            return Err(error);
        },
    };
    let target = match found.target() {
        Ok(target) => target,
        Err(error) => {
            return Err(error);
        },
    };
    match found.stored() {
        Ok(stored) => Ok(
            PrepareDelegatedUploadCommit::Staged {
                commit: DelegatedUploadCommit { status, target, stored },
            },
        ),
        Err(error) => Err(error),
    }
}

/// Whether two checksums are the same.
pub open spec fn same_checksum(left: Option<ObjectChecksum>, right: Option<ObjectChecksum>) -> bool {
    match (left, right) {
        (Some(a), Some(b)) => a.algorithm == b.algorithm && a.kind == b.kind && a.value@
            == b.value@,
        (None, None) => true,
        _ => false,
    }
}

/// Whether two objects are the same.
pub open spec fn same_object(left: StoredObject, right: StoredObject) -> bool {
    &&& left.key@ == right.key@
    &&& optional_chars(left.etag) == optional_chars(right.etag)
    &&& optional_chars(left.provider_version_id) == optional_chars(right.provider_version_id)
    &&& left.size == right.size
    &&& same_checksum(left.checksum, right.checksum)
}

/// Whether two objects are the same.
pub fn objects_match(left: &StoredObject, right: &StoredObject) -> (same: bool)
    ensures
        same == same_object(*left, *right),
{
    let checksums = match (&left.checksum, &right.checksum) {
        (Some(a), Some(b)) => a.algorithm == b.algorithm && a.kind == b.kind && same_text(
            a.value.as_str(),
            b.value.as_str(),
        ),
        (None, None) => true,
        _ => false,
    };
    same_text(left.key.as_str(), right.key.as_str()) && same_optional_text(&left.etag, &right.etag)
        && same_optional_text(&left.provider_version_id, &right.provider_version_id) && left.size
        == right.size && checksums
}

/// What is read before a staged upload is published.
#[derive(Clone, Debug)]
pub struct CommitFacts {
    /// What carries the name.
    pub child: Option<NamedChild>,
    /// The platform's place for the organization.
    pub platform: StorageTarget,
    /// Configuration that describes the upload's place.
    pub configuration_id: Option<u128>,
    /// Identifier for the version.
    pub version_id: u128,
    /// Number of the next version of a file that carries the name.
    pub next_number: i64,
}

/// Who provides the place of an upload now, where it is still known.
pub open spec fn row_provider(row: UploadRow, facts: CommitFacts) -> Option<Option<u128>> {
    if at_row_place(facts.platform, row) {
        Some(None)
    } else if facts.configuration_id is Some {
        Some(facts.configuration_id)
    } else {
        None
    }
}

/// Whether the place of an upload is provided as it was when room was reserved.
pub open spec fn provider_is_unchanged(row: UploadRow, facts: CommitFacts) -> bool {
    &&& row_provider(row, facts) is Some
    &&& row.storage_config_id == row_provider(row, facts)->0
    &&& row.storage_backend@ == (StorageReference {
        configuration_id: row.storage_config_id,
    }).backend_chars()
}

/// The first reason why a staged upload is not published, before its name is
/// looked at.
pub open spec fn staged_refusal(
    row: UploadRow,
    stored: StoredObject,
    parent: Result<AuthorizableEntry, AppError>,
    facts: CommitFacts,
) -> Option<AppError> {
    if row_object(row) is Err {
        Some(bad_value())
    } else if !same_object(row_object(row)->Ok_0, stored) {
        Some(AppError::Conflict { code: "delegated_upload_object_changed" })
    } else if destination_refusal(row, parent, facts.child) is Some {
        destination_refusal(row, parent, facts.child)
    } else if encryption_of(row.storage_encryption_mode@) is None {
        Some(bad_value())
    } else if !provider_is_unchanged(row, facts) {
        Some(AppError::Conflict { code: "storage_target_changed" })
    } else if !row.proposed_entry_id.accepted || row.expected_sha256@.len() != 32 {
        Some(bad_value())
    } else {
        None
    }
}

/// The file that an upload is published as: the one that carried its name when
/// room was reserved, or a new one.
pub open spec fn expected_entry(row: UploadRow) -> u128 {
    match row.destination_entry_id {
        Some(id) => id,
        None => row.proposed_entry_id.value,
    }
}

/// What a staged upload asks to be published.
pub open spec fn commit_request(row: UploadRow, facts: CommitFacts) -> PublicationRequest {
    PublicationRequest {
        entry_id: row.proposed_entry_id.value,
        name: row.name,
        version_id: facts.version_id,
        next_number: facts.next_number,
        self_destruct_minutes: None,
    }
}

/// Whether content is a staged upload's.
pub open spec fn is_staged_content(
    content: StoredContent,
    row: UploadRow,
    stored: StoredObject,
) -> bool {
    &&& content.content_type == row.content_type
    &&& content.size == row.size_bytes
    &&& Some(content.checksum) == stored.checksum
    &&& row_target(content.target, row)
    &&& content.key == row.object_key.text
    &&& content.stored == stored
    &&& content.storage.configuration_id == row.storage_config_id
}

/// A published upload.
#[derive(Clone, Debug)]
pub struct DelegatedPublication {
    /// How it is published.
    pub publication: Publication,
    /// Digest of its bytes in hexadecimal digits.
    pub sha256_hex: String,
    /// What the caller learns.
    pub status: DelegatedUploadStatus,
}

/// What publishing leads to.
#[derive(Clone, Debug)]
pub enum CommitOutcome {
    /// It was published already.
    Committed {
        /// What the caller learns.
        status: DelegatedUploadStatus,
    },
    /// It is published.
    Publish {
        /// How.
        plan: DelegatedPublication,
    },
}

/// Whether a staged upload is published as it has to be.
pub open spec fn commit_planned(
    plan: DelegatedPublication,
    row: UploadRow,
    stored: StoredObject,
    parent: AuthorizableEntry,
    facts: CommitFacts,
    context: ExecutionContext,
) -> bool {
    &&& exists|content: StoredContent|
        is_staged_content(content, row, stored) && #[trigger] published(
            plan.publication,
            commit_request(row, facts),
            parent,
            facts.child,
            content,
            context.authorization.actor,
            context.authorization.application(),
        )
    &&& plan.sha256_hex@ == hex_of(row.expected_sha256@)
    &&& plan.status == in_state(
        row,
        DelegatedUploadState::Committed,
        Some(expected_entry(row)),
    )
}

/// Publishes a staged upload. Its object has to be the staged one, its folder
/// still writable, its name still carried by the same file or by none, and its
/// place still provided as it was. An upload that was published before is
/// answered again and not published twice.
pub fn commit(
    context: &ExecutionContext,
    row: Option<UploadRow>,
    upload_id: u128,
    stored: StoredObject,
    now: i128,
    parent: &Result<AuthorizableEntry, AppError>,
    published_entry: Option<&AuthorizableEntry>,
    existing: Option<&AuthorizableEntry>,
    facts: &CommitFacts,
) -> (outcome: Result<CommitOutcome, AppError>)
    ensures
        match lookup_refusal(row, upload_id, now) {
            Some(error) => outcome == Err::<CommitOutcome, AppError>(error),
            None => if status_after(row->0, now) == "committed"@ {
                match committed_refusal(row->0, deref_entry(published_entry)) {
                    Some(error) => outcome == Err::<CommitOutcome, AppError>(error),
                    None => outcome == Ok::<CommitOutcome, AppError>(
                        CommitOutcome::Committed {
                            status: in_state(
                                row->0,
                                DelegatedUploadState::Committed,
                                published_id(row->0.published_entry_id),
                            ),
                        },
                    ),
                }
            } else if status_after(row->0, now) != "staged"@ {
                outcome == Err::<CommitOutcome, AppError>(
                    AppError::Conflict { code: "delegated_upload_not_staged" },
                )
            } else {
                match staged_refusal(row->0, stored, *parent, *facts) {
                    Some(error) => outcome == Err::<CommitOutcome, AppError>(error),
                    None => match publication_refusal(
                        facts.child,
                        deref_entry(existing),
                        None,
                        row->0.size_bytes as u64,
                    ) {
                        Some(error) => outcome == Err::<CommitOutcome, AppError>(error),
                        None => outcome matches Ok(CommitOutcome::Publish { plan })
                            && commit_planned(
                            plan,
                            row->0,
                            stored,
                            parent->Ok_0,
                            *facts,
                            *context,
                        ),
                    },
                }
            },
        },
{
    let mut found = match row {
        Some(found) => found,
        None => {
            return Err(AppError::NotFound);
        },
    };
    if found.upload_id != upload_id {
        return Err(AppError::NotFound);
    }
    match expire(&mut found, now) {
        Ok(_) => {},
        Err(error) => {
            return Err(error);
        },
    }
    proof {
        lemma_status_words();
    }
    if same_text(found.status.as_str(), "committed") {
        match authorize_committed(&found, published_entry) {
            Ok(()) => {},
            Err(error) => {
                return Err(error);
            },
        }
        return match found.status() {
            Ok(status) => Ok(CommitOutcome::Committed { status }),
            Err(error) => Err(error),
        };
    }
    if !same_text(found.status.as_str(), "staged") {
        return Err(conflict("delegated_upload_not_staged"));
    }
    match publish_staged(context, &found, stored, parent, existing, facts) {
        Ok(plan) => Ok(CommitOutcome::Publish { plan }),
        Err(error) => Err(error),
    }
}

/// Publishes an upload that is staged.
fn publish_staged(
    context: &ExecutionContext,
    row: &UploadRow,
    stored: StoredObject,
    parent: &Result<AuthorizableEntry, AppError>,
    existing: Option<&AuthorizableEntry>,
    facts: &CommitFacts,
) -> (plan: Result<DelegatedPublication, AppError>)
    ensures
        match staged_refusal(*row, stored, *parent, *facts) {
            Some(error) => plan == Err::<DelegatedPublication, AppError>(error),
            None => match publication_refusal(
                facts.child,
                deref_entry(existing),
                None,
                row.size_bytes as u64,
            ) {
                Some(error) => plan == Err::<DelegatedPublication, AppError>(error),
                None => plan is Ok && commit_planned(
                    plan->Ok_0,
                    *row,
                    stored,
                    parent->Ok_0,
                    *facts,
                    *context,
                ),
            },
        },
{
    let staged = match row.stored() {
        Ok(staged) => staged,
        Err(error) => {
            return Err(error);
        },
    };
    if !objects_match(&staged, &stored) {
        return Err(conflict("delegated_upload_object_changed"));
    }
    match authorize_destination(row, parent, &facts.child) {
        Ok(()) => {},
        Err(error) => {
            return Err(error);
        },
    }
    let folder = match parent {
        Ok(folder) => folder,
        Err(error) => {
            return Err(*error);
        },
    };
    let target = match row.target() {
        Ok(target) => target,
        Err(error) => {
            return Err(error);
        },
    };
    let storage = match identify_storage_target(&target, &facts.platform, facts.configuration_id) {
        Ok(storage) => storage,
        Err(error) => {
            return Err(error);
        },
    };
    if !same_text(storage.backend(), row.storage_backend.as_str()) || storage.configuration_id
        != row.storage_config_id {
        return Err(conflict("storage_target_changed"));
    }
    if !row.proposed_entry_id.accepted {
        return Err(internal_integrity());
    }
    let sha256 = match row.sha256() {
        Ok(sha256) => sha256,
        Err(error) => {
            return Err(error);
        },
    };
    let checksum = match &stored.checksum {
        Some(checksum) => checksum.duplicate(),
        None => {
            return Err(internal_integrity());
        },
    };
    let content = StoredContent {
        content_type: row.content_type.clone(),
        size: staged.size,
        checksum,
        target,
        key: staged.key,
        stored,
        storage,
    };
    assert(is_staged_content(content, *row, stored));
    let request = PublicationRequest {
        entry_id: row.proposed_entry_id.value,
        name: row.name.clone(),
        version_id: facts.version_id,
        next_number: facts.next_number,
        self_destruct_minutes: None,
    };
    assert(request == commit_request(*row, *facts));
    let application = context.authorization.originating_application();
    assert(borrowed_chars(application) == context.authorization.application());
    let publication = match publish_file_content(
        &request,
        folder,
        &facts.child,
        existing,
        &content,
        &context.authorization.actor,
        application,
    ) {
        Ok(publication) => publication,
        Err(error) => {
            return Err(error);
        },
    };
    let entry_id: u128 = match row.destination_entry_id {
        Some(entry_id) => entry_id,
        None => row.proposed_entry_id.value,
    };
    if publication.entry_id() != entry_id {
        return Err(internal_integrity());
    }
    Ok(
        DelegatedPublication {
            publication,
            sha256_hex: encode_hex(&sha256),
            status: DelegatedUploadStatus {
                operation_id: row.operation_id,
                upload_id: row.upload_id,
                state: DelegatedUploadState::Committed,
                expires_at: row.expires_at,
                published_entry_id: Some(entry_id),
            },
        },
    )
}

/// An upload is published as the file that was promised when room was reserved:
/// what carries the name now is what carried it then.
pub proof fn law_published_as_promised(
    plan: DelegatedPublication,
    row: UploadRow,
    stored: StoredObject,
    parent: AuthorizableEntry,
    facts: CommitFacts,
    context: ExecutionContext,
)
    requires
        staged_refusal(row, stored, Ok(parent), facts) is None,
        commit_planned(plan, row, stored, parent, facts, context),
    ensures
        plan.publication.entry() == expected_entry(row),
        plan.status.published_entry_id == Some(plan.publication.entry()),
{
}

/// Authority is asked for anew when an upload is published: a caller that the
/// upload policy now refuses publishes nothing, whatever was staged.
pub proof fn law_staging_keeps_no_authority(
    row: UploadRow,
    stored: StoredObject,
    refusal: AppError,
    facts: CommitFacts,
)
    ensures
        staged_refusal(row, stored, Err(refusal), facts) is Some,
{
}

/// Publishing a published upload again answers as the first time did.
pub proof fn law_commits_replay(
    row: UploadRow,
    committed: UploadRow,
    plan: DelegatedPublication,
    stored: StoredObject,
    parent: AuthorizableEntry,
    facts: CommitFacts,
    context: ExecutionContext,
    now: i128,
)
    requires
        commit_planned(plan, row, stored, parent, facts, context),
        committed == (UploadRow {
            status: committed.status,
            published_entry_id: committed.published_entry_id,
            ..row
        }),
        committed.status@ == "committed"@,
        published_id(committed.published_entry_id) == plan.status.published_entry_id,
    ensures
        status_after(committed, now) == "committed"@,
        in_state(
            committed,
            DelegatedUploadState::Committed,
            published_id(committed.published_entry_id),
        ) == plan.status,
{
    lemma_status_words();
}

} // verus!
