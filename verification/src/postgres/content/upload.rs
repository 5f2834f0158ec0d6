//! Small uploads: one object, staged first and then published.

use vstd::prelude::*;

use crate::encoding::{encode_standard, standard_base64};
use crate::error::AppError;
use crate::model::{AuthorizableEntry, Capability, ExecutionContext, IdempotencyClaim};
use crate::postgres::content::objects::{
    check_encoded_object, initial_key, initial_key_of, small_object_refusal, StoredObject,
};
use crate::postgres::content::publishing::{
    publication_refusal, publish_file_content, published, Publication, PublicationRequest,
    StoredContent,
};
use crate::postgres::content::storage::{
    encryption_of, identify_storage_target, resolve_write_target, target_of_configuration,
    StorageConfigRow, StorageReference, StorageTarget,
};
use crate::postgres::content::{
    bad_value, content_claim, content_claim_of, ensure_idempotency_in_progress,
    ensure_name_is_versionable, in_progress, name_refusal, parent_refusal, require_parent,
    ContentClaim, NamedChild, OperationState,
};
use crate::postgres::metadata::entries::deref_entry;
use crate::text::borrowed_chars;

verus! {

/// A small upload that is ready to be stored.
#[derive(Clone, Debug)]
pub struct SmallUploadPreparation {
    /// Identifier that is reserved for a new file.
    pub entry_id: u128,
    /// Place.
    pub target: StorageTarget,
    /// Key.
    pub key: String,
}

/// What preparing a small upload leads to.
#[derive(Clone, Debug)]
pub enum PreparedUpload {
    /// It was published before, as this file.
    Replay {
        /// The file.
        entry_id: u128,
    },
    /// It is to be stored.
    Acquired {
        /// Where.
        preparation: SmallUploadPreparation,
    },
}

/// Whether a place is where new content is written to.
pub open spec fn is_write_target(
    target: StorageTarget,
    platform: StorageTarget,
    active: Option<StorageConfigRow>,
    external_id: Seq<char>,
) -> bool {
    match active {
        None => target == platform,
        Some(configuration) => target_of_configuration(target, configuration, external_id),
    }
}

/// The first reason why new content cannot be written under a name.
pub open spec fn write_refusal(
    child: Option<NamedChild>,
    active: Option<StorageConfigRow>,
) -> Option<AppError> {
    if name_refusal(child) is Some {
        name_refusal(child)
    } else if active is Some && encryption_of(active->0.encryption_mode@) is None {
        Some(bad_value())
    } else {
        None
    }
}

/// The place for new content under a name.
pub fn place_content(
    child: &Option<NamedChild>,
    platform: StorageTarget,
    active: &Option<StorageConfigRow>,
    external_id: &str,
) -> (target: Result<StorageTarget, AppError>)
    ensures
        match write_refusal(*child, *active) {
            Some(error) => target == Err::<StorageTarget, AppError>(error),
            None => target is Ok && is_write_target(
                target->Ok_0,
                platform,
                *active,
                external_id@,
            ),
        },
{
    match ensure_name_is_versionable(child) {
        Ok(()) => {},
        Err(error) => {
            return Err(error);
        },
    }
    match resolve_write_target(platform, active, external_id) {
        Ok((target, _)) => Ok(target),
        Err(error) => Err(error),
    }
}

/// Prepares a small upload into a folder: a repeated request is answered with
/// the file that it was published as, another one gets a place and a key of its
/// own. `accepted` is the identifier type's verdict on the claimed resource.
pub fn prepare_small_upload(
    parent: Option<&AuthorizableEntry>,
    claim: IdempotencyClaim,
    accepted: bool,
    child: &Option<NamedChild>,
    platform: StorageTarget,
    active: &Option<StorageConfigRow>,
    external_id: &str,
) -> (prepared: Result<PreparedUpload, AppError>)
    ensures
        match parent_refusal(deref_entry(parent), Capability::CreateChild) {
            Some(error) => prepared == Err::<PreparedUpload, AppError>(error),
            None => match content_claim_of(claim, accepted, true) {
                Err(error) => prepared == Err::<PreparedUpload, AppError>(error),
                Ok(ContentClaim::Replay { id }) => prepared == Ok::<PreparedUpload, AppError>(
                    PreparedUpload::Replay { entry_id: id },
                ),
                Ok(ContentClaim::Run { id }) => match write_refusal(*child, *active) {
                    Some(error) => prepared == Err::<PreparedUpload, AppError>(error),
                    None => prepared matches Ok(PreparedUpload::Acquired { preparation })
                        && preparation.entry_id == id && preparation.key@ == initial_key_of(id)
                        && is_write_target(preparation.target, platform, *active, external_id@),
                },
            },
        },
{
    match require_parent(parent, Capability::CreateChild) {
        Ok(_) => {},
        Err(error) => {
            return Err(error);
        },
    }
    let entry_id: u128 = match content_claim(claim, accepted, true) {
        Err(error) => {
            return Err(error);
        },
        Ok(ContentClaim::Replay { id }) => {
            return Ok(PreparedUpload::Replay { entry_id: id });
        },
        Ok(ContentClaim::Run { id }) => id,
    };
    match place_content(child, platform, active, external_id) {
        Ok(target) => Ok(
            PreparedUpload::Acquired {
                preparation: SmallUploadPreparation {
                    entry_id,
                    target,
                    key: initial_key(entry_id),
                },
            },
        ),
        Err(error) => Err(error),
    }
}

/// A staged small upload.
#[derive(Clone, Debug)]
pub struct SmallUpload {
    /// Name.
    pub name: String,
    /// Media type.
    pub content_type: String,
    /// Digest of the request.
    pub request_hash: [u8; 32],
    /// Minutes after which a new file deletes itself.
    pub self_destruct_minutes: Option<u32>,
    /// Size of the staged bytes.
    pub size: u64,
    /// Digest of the staged bytes.
    pub sha256: [u8; 32],
}

/// What is read before a small upload is published.
#[derive(Clone, Debug)]
pub struct UploadFacts {
    /// Record of the running operation.
    pub state: Option<OperationState>,
    /// The platform's place for the organization.
    pub platform: StorageTarget,
    /// Configuration that describes the place that was written to.
    pub configuration_id: Option<u128>,
    /// What carries the name.
    pub child: Option<NamedChild>,
    /// Identifier for the version.
    pub version_id: u128,
    /// Number of the next version of a file that carries the name.
    pub next_number: i64,
}

/// The first reason why a stored small upload may not be published, before what
/// carries its name is looked at.
pub open spec fn upload_refusal(
    upload: SmallUpload,
    preparation: SmallUploadPreparation,
    stored: StoredObject,
    encoded: Seq<char>,
    parent: Option<AuthorizableEntry>,
    facts: UploadFacts,
) -> Option<AppError> {
    if small_object_refusal(stored, preparation.key@, upload.size, encoded) is Some {
        small_object_refusal(stored, preparation.key@, upload.size, encoded)
    } else if parent_refusal(parent, Capability::CreateChild) is Some {
        parent_refusal(parent, Capability::CreateChild)
    } else if !in_progress(facts.state, upload.request_hash@) {
        Some(AppError::Conflict { code: "idempotency_state" })
    } else if !preparation.target.same_place(facts.platform) && facts.configuration_id is None {
        Some(AppError::Conflict { code: "storage_target_changed" })
    } else {
        None
    }
}

/// Who provides a place that was written to.
pub open spec fn provider_of(
    target: StorageTarget,
    platform: StorageTarget,
    configuration_id: Option<u128>,
) -> StorageReference {
    if target.same_place(platform) {
        StorageReference { configuration_id: None }
    } else {
        StorageReference { configuration_id }
    }
}

/// The content that a small upload publishes.
pub open spec fn uploaded_content(
    upload: SmallUpload,
    preparation: SmallUploadPreparation,
    stored: StoredObject,
    facts: UploadFacts,
) -> StoredContent {
    StoredContent {
        content_type: upload.content_type,
        size: upload.size,
        checksum: stored.checksum->0,
        target: preparation.target,
        key: preparation.key,
        stored,
        storage: provider_of(preparation.target, facts.platform, facts.configuration_id),
    }
}

/// What a small upload asks to be published.
pub open spec fn upload_request(
    upload: SmallUpload,
    preparation: SmallUploadPreparation,
    facts: UploadFacts,
) -> PublicationRequest {
    PublicationRequest {
        entry_id: preparation.entry_id,
        name: upload.name,
        version_id: facts.version_id,
        next_number: facts.next_number,
        self_destruct_minutes: upload.self_destruct_minutes,
    }
}

/// Publishes a stored small upload: the stored object has to be the staged
/// content, the folder still writable, the operation still the running one, and
/// the place one that is still known. `existing` is the file that carries the
/// name, as the caller sees it.
pub fn commit_small_upload(
    context: &ExecutionContext,
    upload: &SmallUpload,
    preparation: &SmallUploadPreparation,
    stored: StoredObject,
    parent: Option<&AuthorizableEntry>,
    existing: Option<&AuthorizableEntry>,
    facts: &UploadFacts,
) -> (publication: Result<Publication, AppError>)
    ensures
        match upload_refusal(
            *upload,
            *preparation,
            stored,
            standard_base64(upload.sha256@),
            deref_entry(parent),
            *facts,
        ) {
            Some(error) => publication == Err::<Publication, AppError>(error),
            None => match publication_refusal(
                facts.child,
                deref_entry(existing),
                upload.self_destruct_minutes,
                upload.size,
            ) {
                Some(error) => publication == Err::<Publication, AppError>(error),
                None => publication is Ok && published(
                    publication->Ok_0,
                    upload_request(*upload, *preparation, *facts),
                    *parent->0,
                    facts.child,
                    uploaded_content(*upload, *preparation, stored, *facts),
                    context.authorization.actor,
                    context.authorization.application(),
                ),
            },
        },
{
    let encoded = encode_standard(&upload.sha256);
    commit_encoded_upload(
        context,
        upload,
        preparation,
        stored,
        encoded.as_str(),
        parent,
        existing,
        facts,
    )
}

/// Publishes a stored small upload, given the text of the staged content's
/// digest.
pub fn commit_encoded_upload(
    context: &ExecutionContext,
    upload: &SmallUpload,
    preparation: &SmallUploadPreparation,
    stored: StoredObject,
    encoded: &str,
    parent: Option<&AuthorizableEntry>,
    existing: Option<&AuthorizableEntry>,
    facts: &UploadFacts,
) -> (publication: Result<Publication, AppError>)
    ensures
        match upload_refusal(
            *upload,
            *preparation,
            stored,
            encoded@,
            deref_entry(parent),
            *facts,
        ) {
            Some(error) => publication == Err::<Publication, AppError>(error),
            None => match publication_refusal(
                facts.child,
                deref_entry(existing),
                upload.self_destruct_minutes,
                upload.size,
            ) {
                Some(error) => publication == Err::<Publication, AppError>(error),
                None => publication is Ok && published(
                    publication->Ok_0,
                    upload_request(*upload, *preparation, *facts),
                    *parent->0,
                    facts.child,
                    uploaded_content(*upload, *preparation, stored, *facts),
                    context.authorization.actor,
                    context.authorization.application(),
                ),
            },
        },
{
    let checksum = match check_encoded_object(
        &stored,
        preparation.key.as_str(),
        upload.size,
        encoded,
    ) {
        Ok(checksum) => checksum,
        Err(error) => {
            return Err(error);
        },
    };
    let folder = match require_parent(parent, Capability::CreateChild) {
        Ok(folder) => folder,
        Err(error) => {
            return Err(error);
        },
    };
    match ensure_idempotency_in_progress(&facts.state, &upload.request_hash) {
        Ok(()) => {},
        Err(error) => {
            return Err(error);
        },
    }
    let storage = match identify_storage_target(
        &preparation.target,
        &facts.platform,
        facts.configuration_id,
    ) {
        Ok(storage) => storage,
        Err(error) => {
            return Err(error);
        },
    };
    let content = StoredContent {
        content_type: upload.content_type.clone(),
        size: upload.size,
        checksum,
        target: preparation.target.duplicate(),
        key: preparation.key.clone(),
        stored,
        storage,
    };
    let request = PublicationRequest {
        entry_id: preparation.entry_id,
        name: upload.name.clone(),
        version_id: facts.version_id,
        next_number: facts.next_number,
        self_destruct_minutes: upload.self_destruct_minutes,
    };
    assert(content == uploaded_content(*upload, *preparation, stored, *facts));
    assert(request == upload_request(*upload, *preparation, *facts));
    let application = context.authorization.originating_application();
    assert(borrowed_chars(application) == context.authorization.application());
    publish_file_content(
        &request,
        folder,
        &facts.child,
        existing,
        &content,
        &context.authorization.actor,
        application,
    )
}

} // verus!
