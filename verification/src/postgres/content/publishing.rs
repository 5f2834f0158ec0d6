//! Publishing stored bytes as a file: a new one, or the next version of one
//! that is there.

use vstd::prelude::*;

use crate::error::{conflict, AppError};
use crate::model::{ActorRef, AuthorizableEntry, Capability, EntryBoundary};
use crate::postgres::content::objects::{
    checksum_algorithm, checksum_type, checksum_type_word, ObjectChecksum, StoredObject,
};
use crate::postgres::content::storage::{
    encryption_name, encryption_word, StorageReference, StorageTarget,
};
use crate::postgres::content::{
    bad_value, ensure_name_is_versionable, name_refusal, require_entry_capability, to_i64,
    NamedChild,
};
use crate::postgres::metadata::common::{entry_change, ChangeRecord, Detail, DetailValue};
use crate::postgres::metadata::entries::{deref_entry, duplicate_boundary};
use crate::text::{borrowed_chars, clone_optional_text, optional_chars};

verus! {

/// Bytes that are stored and ready to be published.
#[derive(Clone, Debug)]
pub struct StoredContent {
    /// Media type.
    pub content_type: String,
    /// Size in bytes.
    pub size: u64,
    /// Checksum that was verified.
    pub checksum: ObjectChecksum,
    /// Place.
    pub target: StorageTarget,
    /// Key.
    pub key: String,
    /// What the store reports of the object.
    pub stored: StoredObject,
    /// Who provides the place.
    pub storage: StorageReference,
}

/// A version row to insert.
#[derive(Clone, Debug)]
pub struct VersionInsert {
    /// Entry that the version is of.
    pub entry_id: u128,
    /// Version identifier.
    pub version_id: u128,
    /// Number of the version.
    pub version_number: i64,
    /// Where the version comes from.
    pub source: &'static str,
    /// Version that it repeats.
    pub restored_from_version_id: Option<u128>,
    /// Provider of the place.
    pub storage_backend: &'static str,
    /// Configuration of the organization.
    pub storage_config_id: Option<u128>,
    /// Bucket.
    pub bucket_name: String,
    /// Region.
    pub storage_region: String,
    /// Prefix.
    pub storage_prefix: String,
    /// How the object is encrypted.
    pub storage_encryption_mode: &'static str,
    /// Key of the key service.
    pub storage_kms_key_arn: Option<String>,
    /// Object key.
    pub object_key: String,
    /// Version that the store gave the object.
    pub object_version_id: Option<String>,
    /// Entity tag.
    pub etag: Option<String>,
    /// Digest of the checksum.
    pub checksum_algorithm: &'static str,
    /// What the checksum is made over.
    pub checksum_type: &'static str,
    /// Encoded checksum.
    pub checksum_value: String,
    /// Size in bytes.
    pub size_bytes: i64,
    /// Media type.
    pub content_type: String,
    /// Member that made the version.
    pub created_by: ActorRef,
}

impl VersionInsert {
    /// Whether the row is of a version of an entry that holds some content.
    pub open spec fn holds(
        self,
        entry_id: u128,
        version_id: u128,
        version_number: i64,
        content: StoredContent,
        actor: ActorRef,
    ) -> bool {
        &&& self.entry_id == entry_id
        &&& self.version_id == version_id
        &&& self.version_number == version_number
        &&& self.storage_backend@ == content.storage.backend_chars()
        &&& self.storage_config_id == content.storage.configuration_id
        &&& self.bucket_name == content.target.bucket
        &&& self.storage_region == content.target.region
        &&& self.storage_prefix == content.target.prefix
        &&& self.storage_encryption_mode@ == encryption_word(content.target.encryption)
        &&& self.storage_kms_key_arn == content.target.kms_key_arn
        &&& self.object_key == content.key
        &&& self.object_version_id == content.stored.provider_version_id
        &&& self.etag == content.stored.etag
        &&& self.checksum_algorithm@ == "sha256"@
        &&& self.checksum_type@ == checksum_type_word(content.checksum.kind)
        &&& self.checksum_value == content.checksum.value
        &&& self.size_bytes == content.size
        &&& self.content_type == content.content_type
        &&& self.created_by == actor
    }
}

/// The row of a version that holds some content. A size that no column can hold
/// fails.
pub fn version_insert(
    entry_id: u128,
    version_id: u128,
    version_number: i64,
    restored_from: Option<u128>,
    content: &StoredContent,
    actor: &ActorRef,
) -> (version: Result<VersionInsert, AppError>)
    ensures
        if content.size > i64::MAX {
            version == Err::<VersionInsert, AppError>(bad_value())
        } else {
            &&& version is Ok
            &&& version->Ok_0.holds(entry_id, version_id, version_number, *content, *actor)
            &&& version->Ok_0.restored_from_version_id == restored_from
            &&& version->Ok_0.source@ == if restored_from is Some {
                "restore"@
            } else {
                "upload"@
            }
        },
{
    let size_bytes: i64 = match to_i64(content.size) {
        Ok(size_bytes) => size_bytes,
        Err(error) => {
            return Err(error);
        },
    };
    Ok(
        VersionInsert {
            entry_id,
            version_id,
            version_number,
            source: if restored_from.is_some() {
                "restore"
            } else {
                "upload"
            },
            restored_from_version_id: restored_from,
            storage_backend: content.storage.backend(),
            storage_config_id: content.storage.configuration_id,
            bucket_name: content.target.bucket.clone(),
            storage_region: content.target.region.clone(),
            storage_prefix: content.target.prefix.clone(),
            storage_encryption_mode: encryption_name(content.target.encryption),
            storage_kms_key_arn: clone_optional_text(&content.target.kms_key_arn),
            object_key: content.key.clone(),
            object_version_id: clone_optional_text(&content.stored.provider_version_id),
            etag: clone_optional_text(&content.stored.etag),
            checksum_algorithm: checksum_algorithm(&content.checksum),
            checksum_type: checksum_type(&content.checksum),
            checksum_value: content.checksum.value.clone(),
            size_bytes,
            content_type: content.content_type.clone(),
            created_by: actor.duplicate(),
        },
    )
}

/// The next version of a file. It becomes the file's current one, and what was
/// indexed of the previous version is retired.
#[derive(Clone, Debug)]
pub struct NextVersion {
    /// The version.
    pub version: VersionInsert,
    /// The change.
    pub change: ChangeRecord,
}

/// The first reason why no further version of a file is published.
pub open spec fn next_version_refusal(entry: Option<AuthorizableEntry>, size: u64) -> Option<
    AppError,
> {
    match entry {
        None => Some(AppError::NotFound),
        Some(file) => if !file.access.permits(Capability::WriteContent) {
            Some(AppError::Forbidden)
        } else if size > i64::MAX {
            Some(bad_value())
        } else {
            None
        },
    }
}

/// Whether a plan publishes the next version of a file.
pub open spec fn next_version_planned(
    plan: NextVersion,
    entry_id: u128,
    version_id: u128,
    version_number: i64,
    content: StoredContent,
    actor: ActorRef,
) -> bool {
    &&& plan.version.holds(entry_id, version_id, version_number, content, actor)
    &&& plan.version.source@ == "upload"@
    &&& plan.version.restored_from_version_id is None
    &&& plan.change.is_entry_change(
        entry_id,
        "entry.version_created.v1",
        seq![
            Detail { key: "version_id", value: DetailValue::Id(version_id) },
            Detail { key: "version_number", value: DetailValue::Integer(version_number) },
            Detail { key: "size", value: DetailValue::Unsigned(content.size) },
        ],
    )
}

/// Adds the next version to a file. Replacing content asks for authority over
/// the file itself.
pub fn publish_next_version(
    entry_id: u128,
    entry: Option<&AuthorizableEntry>,
    content: &StoredContent,
    version_id: u128,
    version_number: i64,
    actor: &ActorRef,
) -> (plan: Result<NextVersion, AppError>)
    ensures
        match next_version_refusal(deref_entry(entry), content.size) {
            Some(error) => plan == Err::<NextVersion, AppError>(error),
            None => plan is Ok && next_version_planned(
                plan->Ok_0,
                entry_id,
                version_id,
                version_number,
                *content,
                *actor,
            ),
        },
{
    let file = match entry {
        Some(file) => file,
        None => {
            return Err(AppError::NotFound);
        },
    };
    match require_entry_capability(file, Capability::WriteContent) {
        Ok(()) => {},
        Err(error) => {
            return Err(error);
        },
    }
    let version = match version_insert(entry_id, version_id, version_number, None, content, actor) {
        Ok(version) => version,
        Err(error) => {
            return Err(error);
        },
    };
    let payload: Vec<Detail> = vec![
        Detail { key: "version_id", value: DetailValue::Id(version_id) },
        Detail { key: "version_number", value: DetailValue::Integer(version_number) },
        Detail { key: "size", value: DetailValue::Unsigned(content.size) },
    ];
    assert(payload@ =~= seq![
        Detail { key: "version_id", value: DetailValue::Id(version_id) },
        Detail { key: "version_number", value: DetailValue::Integer(version_number) },
        Detail { key: "size", value: DetailValue::Unsigned(content.size) },
    ]);
    Ok(NextVersion { version, change: entry_change(entry_id, "entry.version_created.v1", payload) })
}

/// A file row to insert. The owner is recorded as its creator and changer.
#[derive(Clone, Debug)]
pub struct FileInsert {
    /// Entry identifier.
    pub entry_id: u128,
    /// Folder that the file is put into.
    pub parent_id: u128,
    /// Name.
    pub name: String,
    /// Boundary of the folder.
    pub boundary: EntryBoundary,
    /// Owner.
    pub owner: ActorRef,
    /// Application that acts for the owner.
    pub origin_app_id: Option<String>,
    /// Media type.
    pub content_type: String,
    /// Size in bytes.
    pub size_bytes: i64,
    /// First version.
    pub current_version_id: u128,
    /// Minutes after which the file deletes itself.
    pub self_destruct_minutes: Option<u32>,
}

/// A new file with its first version.
#[derive(Clone, Debug)]
pub struct NewFile {
    /// The file.
    pub file: FileInsert,
    /// Its first version.
    pub version: VersionInsert,
    /// The changes.
    pub changes: Vec<ChangeRecord>,
}

/// How stored bytes are published.
#[derive(Clone, Debug)]
pub enum Publication {
    /// As a new file.
    Create {
        /// The file.
        plan: NewFile,
    },
    /// As the next version of a file.
    Version {
        /// The version.
        plan: NextVersion,
    },
}

impl Publication {
    /// The file that the bytes are published as.
    pub open spec fn entry(self) -> u128 {
        match self {
            Publication::Create { plan } => plan.file.entry_id,
            Publication::Version { plan } => plan.version.entry_id,
        }
    }

    /// The file that the bytes are published as. A replay answers with it, not
    /// with the identifier that was reserved for a new file.
    pub fn entry_id(&self) -> (id: u128)
        ensures
            id == self.entry(),
    {
        match self {
            Publication::Create { plan } => plan.file.entry_id,
            Publication::Version { plan } => plan.version.entry_id,
        }
    }
}

/// What is to be published where.
#[derive(Clone, Debug)]
pub struct PublicationRequest {
    /// Identifier that is reserved for a new file.
    pub entry_id: u128,
    /// Name.
    pub name: String,
    /// Identifier of the version.
    pub version_id: u128,
    /// Number of the version of a file that is there.
    pub next_number: i64,
    /// Minutes after which a new file deletes itself.
    pub self_destruct_minutes: Option<u32>,
}

/// Whether a plan makes a new file.
pub open spec fn file_planned(
    plan: NewFile,
    request: PublicationRequest,
    parent: AuthorizableEntry,
    content: StoredContent,
    actor: ActorRef,
    application: Option<Seq<char>>,
) -> bool {
    &&& plan.file.entry_id == request.entry_id
    &&& plan.file.parent_id == parent.entry.id
    &&& plan.file.name == request.name
    &&& plan.file.boundary == parent.entry.boundary
    &&& plan.file.owner == actor
    &&& optional_chars(plan.file.origin_app_id) == application
    &&& plan.file.content_type == content.content_type
    &&& plan.file.size_bytes == content.size
    &&& plan.file.current_version_id == request.version_id
    &&& plan.file.self_destruct_minutes == request.self_destruct_minutes
    &&& plan.version.holds(request.entry_id, request.version_id, 1, content, actor)
    &&& plan.version.source@ == "upload"@
    &&& plan.version.restored_from_version_id is None
    &&& plan.changes@.len() == if request.self_destruct_minutes is Some {
        2int
    } else {
        1
    }
    &&& plan.changes@[0].is_entry_change(
        request.entry_id,
        "entry.file_created.v1",
        seq![
            Detail { key: "parent_id", value: DetailValue::Id(parent.entry.id) },
            Detail { key: "version_id", value: DetailValue::Id(request.version_id) },
            Detail { key: "size", value: DetailValue::Unsigned(content.size) },
        ],
    )
    &&& request.self_destruct_minutes is Some ==> plan.changes@[1].is_entry_change(
        request.entry_id,
        "entry.self_destruct_set.v1",
        Seq::empty(),
    )
}

/// The first reason why stored bytes are not published. Something that is no
/// file under the name is in the way, and a file that is there keeps the timer
/// that it has.
pub open spec fn publication_refusal(
    child: Option<NamedChild>,
    existing: Option<AuthorizableEntry>,
    self_destruct_minutes: Option<u32>,
    size: u64,
) -> Option<AppError> {
    if name_refusal(child) is Some {
        name_refusal(child)
    } else if child is Some {
        if self_destruct_minutes is Some {
            Some(AppError::Conflict { code: "self_destruct_needs_new_file" })
        } else {
            next_version_refusal(existing, size)
        }
    } else if size > i64::MAX {
        Some(bad_value())
    } else {
        None
    }
}

/// Whether stored bytes are published as asked: under a name that is free as a
/// new file, else as the next version of the file that carries it.
pub open spec fn published(
    publication: Publication,
    request: PublicationRequest,
    parent: AuthorizableEntry,
    child: Option<NamedChild>,
    content: StoredContent,
    actor: ActorRef,
    application: Option<Seq<char>>,
) -> bool {
    match (child, publication) {
        (None, Publication::Create { plan }) => file_planned(
            plan,
            request,
            parent,
            content,
            actor,
            application,
        ),
        (Some(file), Publication::Version { plan }) => next_version_planned(
            plan,
            file.entry_id.value,
            request.version_id,
            request.next_number,
            content,
            actor,
        ),
        _ => false,
    }
}

/// A new file with its first version.
fn new_file(
    request: &PublicationRequest,
    parent: &AuthorizableEntry,
    content: &StoredContent,
    actor: &ActorRef,
    application: Option<&str>,
) -> (plan: Result<NewFile, AppError>)
    ensures
        if content.size > i64::MAX {
            plan == Err::<NewFile, AppError>(bad_value())
        } else {
            plan is Ok && file_planned(
                plan->Ok_0,
                *request,
                *parent,
                *content,
                *actor,
                borrowed_chars(application),
            )
        },
{
    let size_bytes: i64 = match to_i64(content.size) {
        Ok(size_bytes) => size_bytes,
        Err(error) => {
            return Err(error);
        },
    };
    let version = match version_insert(
        request.entry_id,
        request.version_id,
        1,
        None,
        content,
        actor,
    ) {
        Ok(version) => version,
        Err(error) => {
            return Err(error);
        },
    };
    let payload: Vec<Detail> = vec![
        Detail { key: "parent_id", value: DetailValue::Id(parent.entry.id) },
        Detail { key: "version_id", value: DetailValue::Id(request.version_id) },
        Detail { key: "size", value: DetailValue::Unsigned(content.size) },
    ];
    assert(payload@ =~= seq![
        Detail { key: "parent_id", value: DetailValue::Id(parent.entry.id) },
        Detail { key: "version_id", value: DetailValue::Id(request.version_id) },
        Detail { key: "size", value: DetailValue::Unsigned(content.size) },
    ]);
    let mut changes: Vec<ChangeRecord> = Vec::new();
    changes.push(entry_change(request.entry_id, "entry.file_created.v1", payload));
    if request.self_destruct_minutes.is_some() {
        let timer: Vec<Detail> = Vec::new();
        assert(timer@ =~= Seq::<Detail>::empty());
        changes.push(entry_change(request.entry_id, "entry.self_destruct_set.v1", timer));
    }
    Ok(
        NewFile {
            file: FileInsert {
                entry_id: request.entry_id,
                parent_id: parent.entry.id,
                name: request.name.clone(),
                boundary: duplicate_boundary(&parent.entry.boundary),
                owner: actor.duplicate(),
                origin_app_id: match application {
                    Some(application) => Some(application.to_owned()),
                    None => None,
                },
                content_type: content.content_type.clone(),
                size_bytes,
                current_version_id: request.version_id,
                self_destruct_minutes: request.self_destruct_minutes,
            },
            version,
            changes,
        },
    )
}

/// Publishes stored bytes as a file. Uploading over a file is how it is
/// updated: the bytes become its next version, and its history keeps the
/// previous ones. `existing` is that file as the caller sees it.
pub fn publish_file_content(
    request: &PublicationRequest,
    parent: &AuthorizableEntry,
    child: &Option<NamedChild>,
    existing: Option<&AuthorizableEntry>,
    content: &StoredContent,
    actor: &ActorRef,
    application: Option<&str>,
) -> (publication: Result<Publication, AppError>)
    ensures
        match publication_refusal(
            *child,
            deref_entry(existing),
            request.self_destruct_minutes,
            content.size,
        ) {
            Some(error) => publication == Err::<Publication, AppError>(error),
            None => publication is Ok && published(
                publication->Ok_0,
                *request,
                *parent,
                *child,
                *content,
                *actor,
                borrowed_chars(application),
            ),
        },
{
    match ensure_name_is_versionable(child) {
        Ok(()) => {},
        Err(error) => {
            return Err(error);
        },
    }
    match child {
        Some(file) => {
            if request.self_destruct_minutes.is_some() {
                return Err(conflict("self_destruct_needs_new_file"));
            }
            match publish_next_version(
                file.entry_id.value,
                existing,
                content,
                request.version_id,
                request.next_number,
                actor,
            ) {
                Ok(plan) => Ok(Publication::Version { plan }),
                Err(error) => Err(error),
            }
        },
        None => match new_file(request, parent, content, actor, application) {
            Ok(plan) => Ok(Publication::Create { plan }),
            Err(error) => Err(error),
        },
    }
}

/// Uploading over a file never makes a second file of that name and never
/// changes the file's timer or its place: it is published under the file's own
/// identifier.
pub proof fn law_uploads_over_a_file_version_it(
    publication: Publication,
    request: PublicationRequest,
    parent: AuthorizableEntry,
    child: NamedChild,
    content: StoredContent,
    actor: ActorRef,
    application: Option<Seq<char>>,
)
    requires
        published(publication, request, parent, Some(child), content, actor, application),
    ensures
        publication is Version,
        publication.entry() == child.entry_id.value,
{
}

/// A name that is free makes a new file, whose first version holds the content
/// and is its current one.
pub proof fn law_new_files_start_at_their_first_version(
    publication: Publication,
    request: PublicationRequest,
    parent: AuthorizableEntry,
    content: StoredContent,
    actor: ActorRef,
    application: Option<Seq<char>>,
)
    requires
        published(publication, request, parent, None, content, actor, application),
    ensures
        publication.entry() == request.entry_id,
        publication matches Publication::Create { plan } && plan.version.version_number == 1
            && plan.version.entry_id == plan.file.entry_id && plan.version.version_id
            == plan.file.current_version_id && plan.version.size_bytes == plan.file.size_bytes,
{
}

} // verus!
