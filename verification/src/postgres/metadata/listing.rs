//! Pages of entries, grants, versions, bin entries and activity.

use vstd::prelude::*;

use crate::encoding::{
    decode_url, encode_url, url_base64, url_base64_decoded, MAX_ENCODED_BYTES,
};
use crate::error::{internal, internal_data, MetadataRepositoryError};
use crate::ids::{Candidate, StoredId};
use crate::model::{
    ActorRef, AuthorizableEntry, EntryAccess, IdempotencyClaim, OrganizationRole,
    RequestAuthContext,
};
use crate::postgres::metadata::common::{
    actor_ref, actor_ref_of, authorizable_error, authorizable_of_row, bad_data,
    build_authorizable, grant_error, grant_of_row, permission_grant, ChangeRecord, Detail,
    PermissionGrant,
};
use crate::postgres::models::{EntryRow, PermissionGrantRow};
use crate::text::same_text;

verus! {

/// The text of a page cursor. Decoding the text gives the bytes back.
pub fn encode_cursor(bytes: &Vec<u8>) -> (text: String)
    requires
        bytes@.len() <= MAX_ENCODED_BYTES,
    ensures
        text@ == url_base64(bytes@),
        url_base64_decoded(text@) == Some(bytes@),
{
    encode_url(bytes)
}

/// The bytes of an optional page cursor.
pub open spec fn cursor_bytes(text: Option<&str>) -> Result<
    Option<Seq<u8>>,
    MetadataRepositoryError,
> {
    match text {
        None => Ok(None),
        Some(cursor) => match url_base64_decoded(cursor@) {
            Some(bytes) => Ok(Some(bytes)),
            None => Err(MetadataRepositoryError::InvalidCursor),
        },
    }
}

/// The bytes of an optional page cursor; a text that is no cursor is refused.
pub fn decode_optional(text: Option<&str>) -> (bytes: Result<
    Option<Vec<u8>>,
    MetadataRepositoryError,
>)
    ensures
        match cursor_bytes(text) {
            Err(error) => bytes == Err::<Option<Vec<u8>>, MetadataRepositoryError>(error),
            Ok(None) => bytes == Ok::<Option<Vec<u8>>, MetadataRepositoryError>(None),
            Ok(Some(decoded)) => bytes matches Ok(Some(list)) && list@ == decoded,
        },
{
    match text {
        None => Ok(None),
        Some(cursor) => match decode_url(cursor) {
            Some(bytes) => Ok(Some(bytes)),
            None => Err(MetadataRepositoryError::InvalidCursor),
        },
    }
}

/// Rows that a page of a given size keeps of those that were read.
pub open spec fn kept_rows(read: nat, size: nat) -> nat {
    if read < size {
        read
    } else {
        size
    }
}

/// Rows that a page keeps. One more than fits is read to tell whether another
/// page follows.
pub fn page_length(read: usize, size: usize) -> (length: usize)
    ensures
        length == kept_rows(read as nat, size as nat),
{
    if read < size {
        read
    } else {
        size
    }
}

/// Rows to ask the database for.
pub fn rows_to_read(size: u16) -> (rows: i64)
    ensures
        rows == size + 1,
{
    size as i64 + 1
}

/// The size of a listing page: the requested one, or less where a filter takes
/// only so many entries.
pub open spec fn page_size_of(limit: u16, take: Option<u16>) -> u16 {
    match take {
        Some(count) => if count < limit {
            count
        } else {
            limit
        },
        None => limit,
    }
}

/// The size of a listing page.
pub fn page_size(limit: u16, take: Option<u16>) -> (size: u16)
    ensures
        size == page_size_of(limit, take),
{
    match take {
        Some(count) => {
            if count < limit {
                count
            } else {
                limit
            }
        },
        None => limit,
    }
}

/// One stored entry with what was read about it.
#[derive(Clone, Debug)]
pub struct EntryFacts {
    /// The row.
    pub row: EntryRow,
    /// Name of its boundary's tag.
    pub tag: Option<Candidate>,
    /// Verdict of the access policy.
    pub access: EntryAccess,
}

/// The first reason why stored entries cannot be judged.
pub open spec fn entries_error(facts: Seq<EntryFacts>) -> Option<MetadataRepositoryError>
    decreases facts.len(),
{
    if facts.len() == 0 {
        None
    } else {
        match entries_error(facts.drop_last()) {
            Some(error) => Some(error),
            None => authorizable_error(facts.last().row, facts.last().tag),
        }
    }
}

/// The first failure among the first entries is the first failure of all.
proof fn lemma_entries_error_persists(facts: Seq<EntryFacts>, length: int)
    requires
        0 <= length <= facts.len(),
        entries_error(facts.take(length)) is Some,
    ensures
        entries_error(facts) == entries_error(facts.take(length)),
    decreases facts.len() - length,
{
    if length == facts.len() {
        assert(facts.take(length) =~= facts);
    } else {
        assert(facts.take(length + 1).drop_last() =~= facts.take(length));
        lemma_entries_error_persists(facts, length + 1);
    }
}

/// Whether entries are what facts store, one for one.
pub open spec fn entries_of_facts(
    entries: Seq<AuthorizableEntry>,
    facts: Seq<EntryFacts>,
) -> bool {
    entries.len() == facts.len() && forall|k: int|
        0 <= k < facts.len() ==> authorizable_of_row(
            #[trigger] entries[k],
            facts[k].row,
            facts[k].tag,
            facts[k].access,
        )
}

/// The first entries of a list, judged.
pub fn build_entries(facts: &Vec<EntryFacts>, length: usize) -> (entries: Result<
    Vec<AuthorizableEntry>,
    MetadataRepositoryError,
>)
    requires
        length <= facts@.len(),
    ensures
        match entries_error(facts@.take(length as int)) {
            Some(error) => entries == Err::<Vec<AuthorizableEntry>, MetadataRepositoryError>(error),
            None => entries matches Ok(list) && entries_of_facts(
                list@,
                facts@.take(length as int),
            ),
        },
{
    let mut entries: Vec<AuthorizableEntry> = Vec::new();
    let mut index: usize = 0;
    let ghost kept = facts@.take(length as int);
    assert(facts@.take(0) =~= Seq::<EntryFacts>::empty());
    while index < length
        invariant
            index <= length <= facts@.len(),
            kept == facts@.take(length as int),
            entries_error(facts@.take(index as int)) is None,
            entries_of_facts(entries@, facts@.take(index as int)),
        decreases length - index,
    {
        let fact = &facts[index];
        let ghost next = facts@.take(index + 1);
        assert(next.drop_last() =~= facts@.take(index as int));
        assert(next.last() == *fact);
        match build_authorizable(&fact.row, &fact.tag, fact.access) {
            Ok(entry) => {
                entries.push(entry);
            },
            Err(error) => {
                proof {
                    assert(kept.take(index + 1) =~= next);
                    lemma_entries_error_persists(kept, index + 1);
                }
                return Err(error);
            },
        }
        index += 1;
        assert(entries_of_facts(entries@, facts@.take(index as int)));
    }
    Ok(entries)
}

/// All entries of a list, judged.
pub fn find_active_entries(facts: &Vec<EntryFacts>) -> (entries: Result<
    Vec<AuthorizableEntry>,
    MetadataRepositoryError,
>)
    ensures
        match entries_error(facts@) {
            Some(error) => entries == Err::<Vec<AuthorizableEntry>, MetadataRepositoryError>(error),
            None => entries matches Ok(list) && entries_of_facts(list@, facts@),
        },
{
    assert(facts@.take(facts@.len() as int) =~= facts@);
    build_entries(facts, facts.len())
}

/// Where a chronological listing goes on.
#[derive(Clone, Copy, Debug, PartialEq, Eq, Structural)]
pub struct ChangeCursor {
    /// Last change of the last entry.
    pub changed_at: i128,
    /// The last entry.
    pub id: u128,
}

/// Where the bin goes on.
#[derive(Clone, Copy, Debug, PartialEq, Eq, Structural)]
pub struct BinCursor {
    /// Deletion of the last entry.
    pub deleted_at: i128,
    /// The last entry.
    pub id: u128,
}

/// One page of entries.
#[derive(Clone, Debug)]
pub struct EntryPage {
    /// The entries.
    pub items: Vec<AuthorizableEntry>,
    /// Where the next page starts.
    pub next: Option<ChangeCursor>,
}

/// One page of the bin.
#[derive(Clone, Debug)]
pub struct BinPage {
    /// The entries.
    pub items: Vec<AuthorizableEntry>,
    /// Where the next page starts.
    pub next: Option<BinCursor>,
}

/// A list from its end to its start.
fn reversed(list: Vec<AuthorizableEntry>) -> (backwards: Vec<AuthorizableEntry>)
    ensures
        backwards@ == list@.reverse(),
{
    let mut rest = list;
    let mut backwards: Vec<AuthorizableEntry> = Vec::new();
    while rest.len() > 0
        invariant
            rest@.len() <= list@.len(),
            rest@ == list@.take(rest@.len() as int),
            backwards@ == list@.skip(rest@.len() as int).reverse(),
        decreases rest@.len(),
    {
        let ghost before = rest@;
        match rest.pop() {
            Some(entry) => {
                backwards.push(entry);
                assert(entry == list@[before.len() - 1]);
            },
            None => {},
        }
        assert(rest@ =~= list@.take(rest@.len() as int));
        assert(list@.skip(rest@.len() as int).reverse() =~= list@.skip(
            before.len() as int,
        ).reverse().push(list@[before.len() - 1]));
    }
    assert(list@.skip(0) =~= list@);
    backwards
}

/// One page of a listing. Another page follows where more entries were read
/// than fit, unless a filter takes only so many; a filter may turn the page
/// round.
pub fn list_active_children(
    facts: &Vec<EntryFacts>,
    limit: u16,
    take: Option<u16>,
    requires_reversal: bool,
) -> (page: Result<EntryPage, MetadataRepositoryError>)
    ensures
        ({
            let size = page_size_of(limit, take);
            let kept = facts@.take(kept_rows(facts@.len(), size as nat) as int);
            match entries_error(kept) {
                Some(error) => page == Err::<EntryPage, MetadataRepositoryError>(error),
                None => page matches Ok(made) && entries_of_facts(
                    if requires_reversal {
                        made.items@.reverse()
                    } else {
                        made.items@
                    },
                    kept,
                ) && made.next == if take is None && facts@.len() > size && kept.len() > 0 {
                    Some(
                        ChangeCursor {
                            changed_at: kept.last().row.updated_at,
                            id: kept.last().row.entry_id.value,
                        },
                    )
                } else {
                    None
                },
            }
        }),
{
    let size: usize = page_size(limit, take) as usize;
    let length: usize = page_length(facts.len(), size);
    let ghost kept = facts@.take(length as int);
    let items = match build_entries(facts, length) {
        Ok(items) => items,
        Err(error) => {
            return Err(error);
        },
    };
    let has_more = take.is_none() && facts.len() > size;
    let next = if has_more && items.len() > 0 {
        let last = &items[items.len() - 1];
        assert(authorizable_of_row(
            items@[items@.len() - 1],
            kept[kept.len() - 1].row,
            kept[kept.len() - 1].tag,
            kept[kept.len() - 1].access,
        ));
        Some(ChangeCursor { changed_at: last.entry.updated_at, id: last.entry.id })
    } else {
        None
    };
    if requires_reversal {
        let ghost forwards = items@;
        let items = reversed(items);
        assert(items@.reverse() =~= forwards);
        Ok(EntryPage { items, next })
    } else {
        Ok(EntryPage { items, next })
    }
}

/// A page that another one follows is full, so it has a last entry that the
/// next one starts after.
pub proof fn law_full_pages_go_on(read: nat, size: nat)
    requires
        size > 0,
        read > size,
    ensures
        kept_rows(read, size) == size,
        kept_rows(read, size) > 0,
{
}

/// One page of the bin.
pub fn list_bin_entries(facts: &Vec<EntryFacts>, limit: u16) -> (page: Result<
    BinPage,
    MetadataRepositoryError,
>)
    ensures
        ({
            let kept = facts@.take(kept_rows(facts@.len(), limit as nat) as int);
            let more = facts@.len() > limit && kept.len() > 0;
            match entries_error(kept) {
                Some(error) => page == Err::<BinPage, MetadataRepositoryError>(error),
                None => if more && kept.last().row.deleted_at is None {
                    page == Err::<BinPage, MetadataRepositoryError>(
                        MetadataRepositoryError::Internal { reason: "bin result is not deleted" },
                    )
                } else {
                    page matches Ok(made) && entries_of_facts(made.items@, kept) && made.next
                        == if more {
                        Some(
                            BinCursor {
                                deleted_at: kept.last().row.deleted_at->0,
                                id: kept.last().row.entry_id.value,
                            },
                        )
                    } else {
                        None
                    }
                },
            }
        }),
{
    let size: usize = limit as usize;
    let length: usize = page_length(facts.len(), size);
    let ghost kept = facts@.take(length as int);
    let items = match build_entries(facts, length) {
        Ok(items) => items,
        Err(error) => {
            return Err(error);
        },
    };
    let next = if facts.len() > size && items.len() > 0 {
        let last = &items[items.len() - 1];
        assert(authorizable_of_row(
            items@[items@.len() - 1],
            kept[kept.len() - 1].row,
            kept[kept.len() - 1].tag,
            kept[kept.len() - 1].access,
        ));
        match last.entry.deleted_at {
            Some(deleted_at) => Some(BinCursor { deleted_at, id: last.entry.id }),
            None => {
                return Err(internal("bin result is not deleted"));
            },
        }
    } else {
        None
    };
    Ok(BinPage { items, next })
}

/// One page of grants.
#[derive(Clone, Debug)]
pub struct GrantPage {
    /// The grants.
    pub items: Vec<PermissionGrant>,
    /// Grant after which the next page starts.
    pub next: Option<u128>,
}

/// The first reason why stored grants are no grants.
pub open spec fn grant_rows_error(rows: Seq<PermissionGrantRow>) -> Option<MetadataRepositoryError>
    decreases rows.len(),
{
    if rows.len() == 0 {
        None
    } else {
        match grant_rows_error(rows.drop_last()) {
            Some(error) => Some(error),
            None => grant_error(rows.last()),
        }
    }
}

/// The first failure among the first rows is the first failure of all.
proof fn lemma_grant_rows_error_persists(rows: Seq<PermissionGrantRow>, length: int)
    requires
        0 <= length <= rows.len(),
        grant_rows_error(rows.take(length)) is Some,
    ensures
        grant_rows_error(rows) == grant_rows_error(rows.take(length)),
    decreases rows.len() - length,
{
    if length == rows.len() {
        assert(rows.take(length) =~= rows);
    } else {
        assert(rows.take(length + 1).drop_last() =~= rows.take(length));
        lemma_grant_rows_error_persists(rows, length + 1);
    }
}

/// One page of the grants on an entry.
pub fn list_permission_grants(rows: &Vec<PermissionGrantRow>, limit: u16) -> (page: Result<
    GrantPage,
    MetadataRepositoryError,
>)
    ensures
        ({
            let kept = rows@.take(kept_rows(rows@.len(), limit as nat) as int);
            match grant_rows_error(kept) {
                Some(error) => page == Err::<GrantPage, MetadataRepositoryError>(error),
                None => page matches Ok(made) && made.items@.len() == kept.len() && (forall|k: int|
                    0 <= k < kept.len() ==> grant_of_row(#[trigger] made.items@[k], kept[k]))
                    && made.next == if rows@.len() > limit && kept.len() > 0 {
                    Some(kept.last().grant_id.value)
                } else {
                    None
                },
            }
        }),
{
    let size: usize = limit as usize;
    let length: usize = page_length(rows.len(), size);
    let ghost kept = rows@.take(length as int);
    let mut items: Vec<PermissionGrant> = Vec::new();
    let mut index: usize = 0;
    assert(rows@.take(0) =~= Seq::<PermissionGrantRow>::empty());
    while index < length
        invariant
            index <= length <= rows@.len(),
            length == kept_rows(rows@.len(), limit as nat),
            kept == rows@.take(length as int),
            grant_rows_error(rows@.take(index as int)) is None,
            items@.len() == index,
            forall|k: int| 0 <= k < index ==> grant_of_row(#[trigger] items@[k], rows@[k]),
        decreases length - index,
    {
        let ghost next = rows@.take(index + 1);
        assert(next.drop_last() =~= rows@.take(index as int));
        assert(next.last() == rows@[index as int]);
        match permission_grant(&rows[index]) {
            Ok(grant) => {
                items.push(grant);
            },
            Err(error) => {
                proof {
                    assert(kept.take(index + 1) =~= next);
                    lemma_grant_rows_error_persists(kept, index + 1);
                }
                return Err(error);
            },
        }
        index += 1;
    }
    let next = if rows.len() > size && items.len() > 0 {
        Some(items[items.len() - 1].id)
    } else {
        None
    };
    Ok(GrantPage { items, next })
}

/// Where the content of a version comes from.
#[derive(Clone, Copy, Debug, PartialEq, Eq, Structural)]
pub enum VersionSource {
    /// An upload.
    InitialUpload,
    /// An earlier version.
    Restore {
        /// That version.
        source_version_id: u128,
    },
}

/// One content version as stored.
#[derive(Clone, Debug)]
pub struct VersionRow {
    /// Version identifier.
    pub version_id: StoredId,
    /// Number of the version.
    pub version_number: i64,
    /// Whether the number is one that a version can have.
    pub number_accepted: bool,
    /// Where the content comes from.
    pub source: String,
    /// Version that was restored.
    pub restored_from_version_id: Option<StoredId>,
    /// Size in bytes.
    pub size_bytes: i64,
    /// Kind of the creator.
    pub created_by_type: String,
    /// Identifier of the creator.
    pub created_by_id: Candidate,
    /// Creation time.
    pub created_at: i128,
}

/// One content version.
#[derive(Clone, Debug)]
pub struct FileVersionView {
    /// Version identifier.
    pub id: u128,
    /// Number of the version.
    pub number: u64,
    /// Size in bytes.
    pub size: u64,
    /// Creator.
    pub created_by: ActorRef,
    /// Where the content comes from.
    pub source: VersionSource,
    /// Creation time.
    pub created_at: i128,
}

/// The source that a stored version names.
pub open spec fn version_source_of(row: VersionRow) -> Result<
    VersionSource,
    MetadataRepositoryError,
> {
    if row.source@ == "upload"@ {
        Ok(VersionSource::InitialUpload)
    } else if row.source@ == "restore"@ {
        match row.restored_from_version_id {
            None => Err(
                MetadataRepositoryError::Internal { reason: "restore version has no source" },
            ),
            Some(version) => if version.accepted {
                Ok(VersionSource::Restore { source_version_id: version.value })
            } else {
                Err(bad_data())
            },
        }
    } else {
        Err(MetadataRepositoryError::Internal { reason: "invalid persisted version source" })
    }
}

/// The source that a stored version names.
fn version_source(row: &VersionRow) -> (source: Result<VersionSource, MetadataRepositoryError>)
    ensures
        source == version_source_of(*row),
{
    if same_text(row.source.as_str(), "upload") {
        Ok(VersionSource::InitialUpload)
    } else if same_text(row.source.as_str(), "restore") {
        match row.restored_from_version_id {
            None => Err(internal("restore version has no source")),
            Some(version) => {
                if version.accepted {
                    Ok(VersionSource::Restore { source_version_id: version.value })
                } else {
                    Err(internal_data())
                }
            },
        }
    } else {
        Err(internal("invalid persisted version source"))
    }
}

/// The first reason why a stored version is no version.
pub open spec fn version_error(row: VersionRow) -> Option<MetadataRepositoryError> {
    if version_source_of(row) is Err {
        Some(version_source_of(row)->Err_0)
    } else if !row.version_id.accepted || row.version_number < 0 || !row.number_accepted
        || row.size_bytes < 0 {
        Some(bad_data())
    } else if actor_ref_of(row.created_by_type@, row.created_by_id) is Err {
        Some(actor_ref_of(row.created_by_type@, row.created_by_id)->Err_0)
    } else {
        None
    }
}

/// Whether a version is what a row stores.
pub open spec fn version_of_row(view: FileVersionView, row: VersionRow) -> bool {
    &&& view.id == row.version_id.value
    &&& view.number == row.version_number
    &&& view.size == row.size_bytes
    &&& actor_ref_of(row.created_by_type@, row.created_by_id) == Ok::<
        ActorRef,
        MetadataRepositoryError,
    >(view.created_by)
    &&& version_source_of(row) == Ok::<VersionSource, MetadataRepositoryError>(view.source)
    &&& view.created_at == row.created_at
}

/// The version that a row stores.
pub fn file_version(row: &VersionRow) -> (view: Result<FileVersionView, MetadataRepositoryError>)
    ensures
        match version_error(*row) {
            Some(error) => view == Err::<FileVersionView, MetadataRepositoryError>(error),
            None => view matches Ok(made) && version_of_row(made, *row),
        },
{
    let source = match version_source(row) {
        Ok(source) => source,
        Err(error) => {
            return Err(error);
        },
    };
    if !row.version_id.accepted || row.version_number < 0 || !row.number_accepted || row.size_bytes
        < 0 {
        return Err(internal_data());
    }
    let created_by = match actor_ref(row.created_by_type.as_str(), &row.created_by_id) {
        Ok(actor) => actor,
        Err(error) => {
            return Err(error);
        },
    };
    Ok(
        FileVersionView {
            id: row.version_id.value,
            number: row.version_number as u64,
            size: row.size_bytes as u64,
            created_by,
            source,
            created_at: row.created_at,
        },
    )
}

/// The first reason why stored versions are no versions.
pub open spec fn versions_error(rows: Seq<VersionRow>) -> Option<MetadataRepositoryError>
    decreases rows.len(),
{
    if rows.len() == 0 {
        None
    } else {
        match versions_error(rows.drop_last()) {
            Some(error) => Some(error),
            None => version_error(rows.last()),
        }
    }
}

/// The first failure among the first rows is the first failure of all.
proof fn lemma_versions_error_persists(rows: Seq<VersionRow>, length: int)
    requires
        0 <= length <= rows.len(),
        versions_error(rows.take(length)) is Some,
    ensures
        versions_error(rows) == versions_error(rows.take(length)),
    decreases rows.len() - length,
{
    if length == rows.len() {
        assert(rows.take(length) =~= rows);
    } else {
        assert(rows.take(length + 1).drop_last() =~= rows.take(length));
        lemma_versions_error_persists(rows, length + 1);
    }
}

/// One page of versions.
#[derive(Clone, Debug)]
pub struct VersionPage {
    /// The versions, newest first.
    pub items: Vec<FileVersionView>,
    /// Number below which the next page starts.
    pub next: Option<i64>,
}

/// The version number below which a page starts.
pub fn versions_before(cursor: Option<i64>) -> (before: i64)
    ensures
        before == match cursor {
            Some(number) => number,
            None => i64::MAX,
        },
{
    match cursor {
        Some(number) => number,
        None => i64::MAX,
    }
}

/// One page of a file's versions.
pub fn list_file_versions(rows: &Vec<VersionRow>, limit: u16) -> (page: Result<
    VersionPage,
    MetadataRepositoryError,
>)
    ensures
        ({
            let kept = rows@.take(kept_rows(rows@.len(), limit as nat) as int);
            match versions_error(kept) {
                Some(error) => page == Err::<VersionPage, MetadataRepositoryError>(error),
                None => page matches Ok(made) && made.items@.len() == kept.len() && (forall|k: int|
                    0 <= k < kept.len() ==> version_of_row(#[trigger] made.items@[k], kept[k]))
                    && made.next == if rows@.len() > limit && kept.len() > 0 {
                    Some(kept.last().version_number)
                } else {
                    None
                },
            }
        }),
{
    let size: usize = limit as usize;
    let length: usize = page_length(rows.len(), size);
    let ghost kept = rows@.take(length as int);
    let mut items: Vec<FileVersionView> = Vec::new();
    let mut index: usize = 0;
    assert(rows@.take(0) =~= Seq::<VersionRow>::empty());
    while index < length
        invariant
            index <= length <= rows@.len(),
            length == kept_rows(rows@.len(), limit as nat),
            kept == rows@.take(length as int),
            versions_error(rows@.take(index as int)) is None,
            items@.len() == index,
            forall|k: int| 0 <= k < index ==> version_of_row(#[trigger] items@[k], rows@[k]),
        decreases length - index,
    {
        let ghost next = rows@.take(index + 1);
        assert(next.drop_last() =~= rows@.take(index as int));
        assert(next.last() == rows@[index as int]);
        match file_version(&rows[index]) {
            Ok(version) => {
                items.push(version);
            },
            Err(error) => {
                proof {
                    assert(kept.take(index + 1) =~= next);
                    lemma_versions_error_persists(kept, index + 1);
                }
                return Err(error);
            },
        }
        index += 1;
    }
    let next = if rows.len() > size && length > 0 {
        Some(rows[length - 1].version_number)
    } else {
        None
    };
    Ok(VersionPage { items, next })
}

/// One event of an entry's history as stored.
#[derive(Clone, Debug)]
pub struct ActivityRow {
    /// Kind of the actor.
    pub actor_type: String,
    /// Identifier of the actor.
    pub actor_id: Candidate,
    /// Application that the actor used; empty for none.
    pub origin_app_id: Option<Candidate>,
    /// Name of the change.
    pub action: String,
    /// When it happened.
    pub occurred_at: i128,
}

/// One event of an entry's history.
#[derive(Clone, Debug)]
pub struct ActivityEvent {
    /// Name of the change.
    pub action: String,
    /// Actor.
    pub actor: ActorRef,
    /// Application that the actor used.
    pub application_id: Option<String>,
    /// When it happened.
    pub occurred_at: i128,
}

/// Whether an event names an application.
pub open spec fn names_application(row: ActivityRow) -> bool {
    row.origin_app_id is Some && row.origin_app_id->0.text@.len() > 0
}

/// The first reason why a stored event is no event.
pub open spec fn activity_error(row: ActivityRow) -> Option<MetadataRepositoryError> {
    if actor_ref_of(row.actor_type@, row.actor_id) is Err {
        Some(actor_ref_of(row.actor_type@, row.actor_id)->Err_0)
    } else if names_application(row) && !row.origin_app_id->0.accepted {
        Some(bad_data())
    } else {
        None
    }
}

/// Whether an event is what a row stores.
pub open spec fn activity_of_row(event: ActivityEvent, row: ActivityRow) -> bool {
    &&& event.action == row.action
    &&& actor_ref_of(row.actor_type@, row.actor_id) == Ok::<ActorRef, MetadataRepositoryError>(
        event.actor,
    )
    &&& event.application_id == if names_application(row) {
        Some(row.origin_app_id->0.text)
    } else {
        None
    }
    &&& event.occurred_at == row.occurred_at
}

/// The event that a row stores.
pub fn activity_event(row: &ActivityRow) -> (event: Result<ActivityEvent, MetadataRepositoryError>)
    ensures
        match activity_error(*row) {
            Some(error) => event == Err::<ActivityEvent, MetadataRepositoryError>(error),
            None => event matches Ok(made) && activity_of_row(made, *row),
        },
{
    let actor = match actor_ref(row.actor_type.as_str(), &row.actor_id) {
        Ok(actor) => actor,
        Err(error) => {
            return Err(error);
        },
    };
    let application_id = match &row.origin_app_id {
        Some(application) => {
            if application.text.as_str().is_empty() {
                None
            } else if !application.accepted {
                return Err(internal_data());
            } else {
                Some(application.text.clone())
            }
        },
        None => None,
    };
    Ok(
        ActivityEvent {
            action: row.action.clone(),
            actor,
            application_id,
            occurred_at: row.occurred_at,
        },
    )
}

/// The first reason why stored events are no events.
pub open spec fn activities_error(rows: Seq<ActivityRow>) -> Option<MetadataRepositoryError>
    decreases rows.len(),
{
    if rows.len() == 0 {
        None
    } else {
        match activities_error(rows.drop_last()) {
            Some(error) => Some(error),
            None => activity_error(rows.last()),
        }
    }
}

/// The first failure among the first rows is the first failure of all.
proof fn lemma_activities_error_persists(rows: Seq<ActivityRow>, length: int)
    requires
        0 <= length <= rows.len(),
        activities_error(rows.take(length)) is Some,
    ensures
        activities_error(rows) == activities_error(rows.take(length)),
    decreases rows.len() - length,
{
    if length == rows.len() {
        assert(rows.take(length) =~= rows);
    } else {
        assert(rows.take(length + 1).drop_last() =~= rows.take(length));
        lemma_activities_error_persists(rows, length + 1);
    }
}

/// The history of an entry, newest first as it was read.
pub fn list_entry_activity(rows: &Vec<ActivityRow>) -> (events: Result<
    Vec<ActivityEvent>,
    MetadataRepositoryError,
>)
    ensures
        match activities_error(rows@) {
            Some(error) => events == Err::<Vec<ActivityEvent>, MetadataRepositoryError>(error),
            None => events matches Ok(list) && list@.len() == rows@.len() && forall|k: int|
                0 <= k < rows@.len() ==> activity_of_row(#[trigger] list@[k], rows@[k]),
        },
{
    let mut events: Vec<ActivityEvent> = Vec::new();
    let mut index: usize = 0;
    assert(rows@.take(0) =~= Seq::<ActivityRow>::empty());
    while index < rows.len()
        invariant
            index <= rows@.len(),
            activities_error(rows@.take(index as int)) is None,
            events@.len() == index,
            forall|k: int| 0 <= k < index ==> activity_of_row(#[trigger] events@[k], rows@[k]),
        decreases rows@.len() - index,
    {
        let ghost next = rows@.take(index + 1);
        assert(next.drop_last() =~= rows@.take(index as int));
        assert(next.last() == rows@[index as int]);
        match activity_event(&rows[index]) {
            Ok(event) => {
                events.push(event);
            },
            Err(error) => {
                proof {
                    lemma_activities_error_persists(rows@, index + 1);
                }
                return Err(error);
            },
        }
        index += 1;
    }
    assert(rows@.take(rows@.len() as int) =~= rows@);
    Ok(events)
}

/// One search hit, without its score.
#[derive(Clone, Debug)]
pub struct SearchCandidate {
    /// The entry.
    pub entry: AuthorizableEntry,
    /// Whether the name matched.
    pub filename_match: bool,
    /// Matches in the content.
    pub content_hits: u32,
    /// Excerpts of the content.
    pub snippets: Vec<String>,
}

/// One search hit, without its score. A hit whose entry is gone, or whose
/// counts do not fit, means that the index is broken.
pub fn search_candidate(
    entry_id: StoredId,
    entry: Option<AuthorizableEntry>,
    filename_match: bool,
    content_hits: i64,
    snippet: Option<String>,
) -> (candidate: Result<SearchCandidate, MetadataRepositoryError>)
    ensures
        if !entry_id.accepted {
            candidate == Err::<SearchCandidate, MetadataRepositoryError>(bad_data())
        } else if entry is None {
            candidate == Err::<SearchCandidate, MetadataRepositoryError>(
                MetadataRepositoryError::Internal {
                    reason: "search projection references missing entry",
                },
            )
        } else if !(0 <= content_hits <= u32::MAX) {
            candidate == Err::<SearchCandidate, MetadataRepositoryError>(bad_data())
        } else {
            candidate matches Ok(hit) && Some(hit.entry) == entry && hit.filename_match
                == filename_match && hit.content_hits == content_hits && hit.snippets@
                == match snippet {
                Some(text) => seq![text],
                None => Seq::empty(),
            }
        },
{
    if !entry_id.accepted {
        return Err(internal_data());
    }
    let entry = match entry {
        Some(entry) => entry,
        None => {
            return Err(internal("search projection references missing entry"));
        },
    };
    if content_hits < 0 || content_hits > u32::MAX as i64 {
        return Err(internal_data());
    }
    let mut snippets: Vec<String> = Vec::new();
    if let Some(text) = snippet {
        snippets.push(text);
        assert(snippets@ =~= seq![text]);
    }
    Ok(SearchCandidate { entry, filename_match, content_hits: content_hits as u32, snippets })
}

/// What the organization's projection says of a member.
#[derive(Clone, Debug)]
pub struct ProjectedMembership {
    /// Role.
    pub role: OrganizationRole,
    /// Tag names.
    pub tags: Vec<String>,
}

/// The role that a stored name stands for.
pub open spec fn role_of_word(value: Seq<char>) -> Option<OrganizationRole> {
    if value == "owner"@ {
        Some(OrganizationRole::Owner)
    } else if value == "admin"@ {
        Some(OrganizationRole::Admin)
    } else if value == "member"@ {
        Some(OrganizationRole::Member)
    } else {
        None
    }
}

/// A role survives being stored and read back.
pub proof fn law_roles_round_trip(role: OrganizationRole)
    ensures
        role_of_word(crate::postgres::metadata::common::role_chars(role)) == Some(role),
{
    reveal_strlit("owner");
    reveal_strlit("admin");
    reveal_strlit("member");
    assert("owner"@.len() == 5);
    assert("admin"@.len() == 5);
    assert("member"@.len() == 6);
    assert("owner"@[0] != "admin"@[0]);
}

/// What the organization's projection says of a member: nothing of one that is
/// not active.
pub fn project_member_authorization(org_role: Option<&str>, tag_names: &Vec<Candidate>) -> (member:
    Result<Option<ProjectedMembership>, MetadataRepositoryError>)
    ensures
        match org_role {
            None => member == Ok::<Option<ProjectedMembership>, MetadataRepositoryError>(None),
            Some(name) => if role_of_word(name@) is None {
                member == Err::<Option<ProjectedMembership>, MetadataRepositoryError>(
                    MetadataRepositoryError::Internal {
                        reason: "invalid persisted organization role",
                    },
                )
            } else if exists|k: int|
                0 <= k < tag_names@.len() && !(#[trigger] tag_names@[k]).accepted {
                member == Err::<Option<ProjectedMembership>, MetadataRepositoryError>(bad_data())
            } else {
                member matches Ok(Some(found)) && Some(found.role) == role_of_word(name@)
                    && found.tags@.len() == tag_names@.len() && forall|k: int|
                    0 <= k < tag_names@.len() ==> #[trigger] found.tags@[k] == tag_names@[k].text
            },
        },
{
    let name = match org_role {
        Some(name) => name,
        None => {
            return Ok(None);
        },
    };
    let role = if same_text(name, "owner") {
        OrganizationRole::Owner
    } else if same_text(name, "admin") {
        OrganizationRole::Admin
    } else if same_text(name, "member") {
        OrganizationRole::Member
    } else {
        return Err(internal("invalid persisted organization role"));
    };
    let mut tags: Vec<String> = Vec::new();
    let mut index: usize = 0;
    while index < tag_names.len()
        invariant
            index <= tag_names@.len(),
            org_role is Some,
            org_role->0@ == name@,
            role_of_word(name@) == Some(role),
            tags@.len() == index,
            forall|k: int| 0 <= k < index ==> (#[trigger] tag_names@[k]).accepted,
            forall|k: int| 0 <= k < index ==> #[trigger] tags@[k] == tag_names@[k].text,
        decreases tag_names@.len() - index,
    {
        if !tag_names[index].accepted {
            return Err(internal_data());
        }
        tags.push(tag_names[index].text.clone());
        index += 1;
    }
    Ok(Some(ProjectedMembership { role, tags }))
}

/// The application whose folder a request asks for; only a request through an
/// application has one.
pub fn application_folder_of(authorization: &RequestAuthContext) -> (application: Result<
    String,
    MetadataRepositoryError,
>)
    ensures
        match authorization.application() {
            Some(id) => application matches Ok(text) && text@ == id,
            None => application == Err::<String, MetadataRepositoryError>(
                MetadataRepositoryError::Internal {
                    reason: "application folder requires an OBO request",
                },
            ),
        },
{
    match authorization.originating_application() {
        Some(id) => Ok(id.to_owned()),
        None => Err(internal("application folder requires an OBO request")),
    }
}

/// The folder of an application once it is ensured.
pub fn ensured_application_folder(id: StoredId, entry: Option<AuthorizableEntry>) -> (folder: Result<
    AuthorizableEntry,
    MetadataRepositoryError,
>)
    ensures
        folder == if !id.accepted {
            Err::<AuthorizableEntry, MetadataRepositoryError>(bad_data())
        } else {
            match entry {
                Some(found) => Ok::<AuthorizableEntry, MetadataRepositoryError>(found),
                None => Err::<AuthorizableEntry, MetadataRepositoryError>(
                    MetadataRepositoryError::Internal { reason: "application folder disappeared" },
                ),
            }
        },
{
    if !id.accepted {
        return Err(internal_data());
    }
    match entry {
        Some(found) => Ok(found),
        None => Err(internal("application folder disappeared")),
    }
}

/// What marking an inbox read records: nothing where it was marked before.
pub fn mark_notifications_read(claim: IdempotencyClaim, actor: &ActorRef) -> (change: Option<
    ChangeRecord,
>)
    ensures
        match claim {
            IdempotencyClaim::Replay(_) => change is None,
            IdempotencyClaim::Acquired(_) => change matches Some(record) && record.entry_id is None
                && record.action == "notifications.inbox_read.v1" && record.aggregate_type
                == "notification_inbox" && record.aggregate_id == actor.id && record.payload@.len()
                == 0,
        },
{
    match claim {
        IdempotencyClaim::Replay(_) => None,
        IdempotencyClaim::Acquired(_) => {
            let payload: Vec<Detail> = Vec::new();
            Some(
                ChangeRecord {
                    entry_id: None,
                    action: "notifications.inbox_read.v1",
                    aggregate_type: "notification_inbox",
                    aggregate_id: actor.id.clone(),
                    payload,
                },
            )
        },
    }
}

} // verus!
