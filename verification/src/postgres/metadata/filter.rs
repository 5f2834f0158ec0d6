//! Compilation of parsed filters into statements. Whatever a filter says is
//! bound as a parameter; the statement itself is made of fixed fragments only.

use vstd::prelude::*;

use crate::model::{ActorKind, EntryKind};

verus! {

/// One piece of a statement.
#[derive(Clone, Debug)]
pub enum SqlPart {
    /// A fixed fragment.
    Fragment(&'static str),
    /// A bound text.
    Text(String),
    /// A bound fixed word.
    Word(&'static str),
    /// Bound texts.
    Texts(Vec<String>),
    /// A bound truth value.
    Bool(bool),
    /// A bound identifier.
    Id(u128),
    /// A bound instant.
    Instant(i128),
    /// A bound number.
    Integer(i64),
    /// A bound calendar day, counted from the Unix epoch.
    Day(i64),
    /// The fixed fragment that tells whether the reader owns a folder above the
    /// entry.
    OwnedAncestor,
}

/// What one piece of a statement says.
pub enum PartView {
    /// A fixed fragment.
    Fragment(&'static str),
    /// A bound text.
    Text(Seq<char>),
    /// A bound fixed word.
    Word(&'static str),
    /// Bound texts.
    Texts(Seq<Seq<char>>),
    /// A bound truth value.
    Bool(bool),
    /// A bound identifier.
    Id(u128),
    /// A bound instant.
    Instant(i128),
    /// A bound number.
    Integer(i64),
    /// A bound calendar day.
    Day(i64),
    /// The fixed fragment about owned folders above the entry.
    OwnedAncestor,
}

/// The characters of texts.
pub open spec fn texts_of(texts: Seq<String>) -> Seq<Seq<char>> {
    Seq::new(texts.len(), |k: int| texts[k]@)
}

impl View for SqlPart {
    type V = PartView;

    open spec fn view(&self) -> PartView {
        match *self {
            SqlPart::Fragment(text) => PartView::Fragment(text),
            SqlPart::Text(text) => PartView::Text(text@),
            SqlPart::Word(word) => PartView::Word(word),
            SqlPart::Texts(texts) => PartView::Texts(texts_of(texts@)),
            SqlPart::Bool(value) => PartView::Bool(value),
            SqlPart::Id(id) => PartView::Id(id),
            SqlPart::Instant(instant) => PartView::Instant(instant),
            SqlPart::Integer(value) => PartView::Integer(value),
            SqlPart::Day(day) => PartView::Day(day),
            SqlPart::OwnedAncestor => PartView::OwnedAncestor,
        }
    }
}

/// What the pieces of a statement say.
pub open spec fn statement(parts: Seq<SqlPart>) -> Seq<PartView> {
    Seq::new(parts.len(), |k: int| parts[k]@)
}

/// Appends one piece.
pub fn put(parts: &mut Vec<SqlPart>, part: SqlPart)
    ensures
        statement(final(parts)@) == statement(old(parts)@).push(part@),
{
    parts.push(part);
    assert(statement(parts@) =~= statement(old(parts)@).push(part@));
}

/// Appends a fixed fragment.
pub fn put_fragment(parts: &mut Vec<SqlPart>, text: &'static str)
    ensures
        statement(final(parts)@) == statement(old(parts)@).push(PartView::Fragment(text)),
{
    put(parts, SqlPart::Fragment(text));
}

/// Appends a bound text.
pub fn put_text(parts: &mut Vec<SqlPart>, text: &String)
    ensures
        statement(final(parts)@) == statement(old(parts)@).push(PartView::Text(text@)),
{
    put(parts, SqlPart::Text(text.clone()));
}

/// Appends bound texts.
pub fn put_texts(parts: &mut Vec<SqlPart>, texts: &Vec<String>)
    ensures
        statement(final(parts)@) == statement(old(parts)@).push(PartView::Texts(texts_of(texts@))),
{
    let mut copy: Vec<String> = Vec::new();
    let mut index: usize = 0;
    while index < texts.len()
        invariant
            index <= texts@.len(),
            copy@.len() == index,
            forall|k: int| 0 <= k < index ==> #[trigger] copy@[k] == texts@[k],
        decreases texts@.len() - index,
    {
        copy.push(texts[index].clone());
        index += 1;
    }
    assert(texts_of(copy@) =~= texts_of(texts@));
    put(parts, SqlPart::Texts(copy));
}

/// A member that a filter names.
#[derive(Clone, Debug)]
pub struct ActorSelector {
    /// Kind of the member, where the filter names it.
    pub kind: Option<ActorKind>,
    /// Identifier of the member.
    pub id: String,
}

/// A kind that files render as.
#[derive(Clone, Debug)]
pub struct RenderKind {
    /// Whether the kind is what no known kind covers.
    pub unsupported: bool,
    /// Extensions that make a file of the kind.
    pub extensions: Vec<String>,
    /// Beginnings of the media types that make a file of the kind.
    pub media_type_prefixes: Vec<String>,
}

/// The kind that a condition asks for, beside every known kind.
#[derive(Clone, Debug)]
pub struct RenderTerms {
    /// The kind.
    pub kind: RenderKind,
    /// Every known kind.
    pub all_kinds: Vec<RenderKind>,
}

/// One condition of a filter.
#[derive(Clone, Debug)]
pub enum FilterPredicate {
    /// Changed on a day or later.
    ChangedAfter(i64),
    /// Changed before a day.
    ChangedBefore(i64),
    /// Changed within days, both included.
    ChangedBetween(i64, i64),
    /// Created by a member.
    CreatedBy(ActorSelector),
    /// Shared with a member.
    SharedWith(ActorSelector),
    /// Within reach of a member.
    AccessibleTo(ActorSelector),
    /// Name or content matches a pattern.
    Contains(String),
    /// Content matches a pattern.
    HasContent(String),
    /// Name matches a pattern.
    NameMatches(String),
    /// Is of a kind.
    IsKind(EntryKind),
    /// Renders as a kind.
    IsRender(RenderTerms),
    /// Has an extension.
    HasExtension(String),
    /// Lies below a path pattern.
    InLocation(String),
    /// Is part of a live expiring share of the caller.
    IsExpiring,
    /// Has a running self-destruct timer.
    IsSelfDestruct,
    /// The caller has a permission; decided by the access policy.
    HasPermission,
}

/// A parsed filter.
#[derive(Debug)]
pub enum FilterExpression {
    /// Every part holds.
    All(Vec<FilterExpression>),
    /// Some part holds.
    Any(Vec<FilterExpression>),
    /// The part does not hold.
    Not(Box<FilterExpression>),
    /// One condition.
    Predicate(FilterPredicate),
}

/// Who filters.
#[derive(Clone, Debug)]
pub struct FilterCaller {
    /// Kind of the caller.
    pub kind: &'static str,
    /// Identifier of the caller.
    pub id: String,
    /// Whether the caller administers the organization.
    pub administrator: bool,
}

/// The lowercase extension of an entry name.
pub const EXTENSION: &'static str = r"lower(substring(entry.name from '\.([^.]+)$'))";

/// A pattern is escaped by a backslash.
pub const ESCAPE: &'static str = r" ESCAPE '\'";

/// Search documents of the entry, up to the pattern.
pub const CONTENT_MATCH: &'static str = "EXISTS (SELECT 1 FROM briefcase.search_documents AS document WHERE document.org_id = entry.org_id AND document.entry_id = entry.entry_id AND document.extracted_content ILIKE ";

/// End of a search-document match.
pub const CONTENT_MATCH_END: &'static str = r" ESCAPE '\')";

/// Grants that reach the entry, up to the member.
pub const SHARED_WITH: &'static str = "EXISTS (SELECT 1 FROM briefcase.entry_closure AS shared_path JOIN briefcase.effective_permission_grants AS shared_grant ON shared_grant.org_id = shared_path.org_id AND shared_grant.entry_id = shared_path.ancestor_id WHERE shared_path.org_id = entry.org_id AND shared_path.descendant_id = entry.entry_id AND shared_grant.revoked_at IS NULL AND (shared_path.depth = 0 OR shared_grant.inherits_to_descendants) AND shared_grant.principal_id = ";

/// Active members that reach the entry, up to the member.
pub const ACCESSIBLE_TO: &'static str = "EXISTS (SELECT 1 FROM briefcase.organization_members AS reader WHERE reader.org_id = entry.org_id AND reader.membership_status = 'active' AND reader.actor_id = ";

/// How a member reaches the entry, up to owned folders above it.
pub const ACCESSIBLE_BY: &'static str = " AND ( reader.org_role IN ('owner', 'admin') OR (entry.owner_type = reader.actor_type AND entry.owner_id = reader.actor_id) OR entry.root_type = 'public' OR (entry.root_type = 'tag' AND EXISTS ( SELECT 1 FROM briefcase.organization_member_tags AS reader_tag WHERE reader_tag.org_id = entry.org_id AND reader_tag.actor_type = reader.actor_type AND reader_tag.actor_id = reader.actor_id AND reader_tag.tag_id = entry.tag_id)) OR EXISTS ( SELECT 1 FROM briefcase.entry_closure AS reader_path JOIN briefcase.effective_permission_grants AS reader_grant ON reader_grant.org_id = reader_path.org_id AND reader_grant.entry_id = reader_path.ancestor_id WHERE reader_path.org_id = entry.org_id AND reader_path.descendant_id = entry.entry_id AND reader_grant.principal_type = reader.actor_type AND reader_grant.principal_id = reader.actor_id AND reader_grant.revoked_at IS NULL AND (reader_path.depth = 0 OR reader_grant.inherits_to_descendants)) OR ";

/// Live expiring shares that reach the entry, up to the caller's kind.
pub const EXPIRING_GRANTED: &'static str = "(EXISTS (SELECT 1 FROM briefcase.entry_closure AS expiring_path JOIN briefcase.effective_permission_grants AS expiring_grant ON expiring_grant.org_id = expiring_path.org_id AND expiring_grant.entry_id = expiring_path.ancestor_id WHERE expiring_path.org_id = entry.org_id AND expiring_path.descendant_id = entry.entry_id AND expiring_grant.expires_at IS NOT NULL AND expiring_grant.revoked_at IS NULL AND (expiring_path.depth = 0 OR expiring_grant.inherits_to_descendants) AND expiring_grant.principal_type = ";

/// Live expiring shares on the entry itself, up to the granting kind.
pub const EXPIRING_MANAGED: &'static str = ") AND (entry.link_expires_at > clock_timestamp() OR EXISTS (SELECT 1 FROM briefcase.permission_grants AS own_expiring WHERE own_expiring.org_id = entry.org_id AND own_expiring.entry_id = entry.entry_id AND own_expiring.revoked_at IS NULL AND own_expiring.expires_at > clock_timestamp()) OR EXISTS (SELECT 1 FROM briefcase.tag_permission_grants AS own_tag_expiring WHERE own_tag_expiring.org_id = entry.org_id AND own_tag_expiring.entry_id = entry.entry_id AND own_tag_expiring.revoked_at IS NULL AND own_tag_expiring.expires_at > clock_timestamp())) OR EXISTS (SELECT 1 FROM briefcase.permission_grants AS granted_expiring WHERE granted_expiring.org_id = entry.org_id AND granted_expiring.entry_id = entry.entry_id AND granted_expiring.revoked_at IS NULL AND granted_expiring.expires_at > clock_timestamp() AND granted_expiring.granted_by_type = ";

/// Live expiring tag shares on the entry itself, up to the granting kind.
pub const EXPIRING_TAG_MANAGED: &'static str = ") OR EXISTS (SELECT 1 FROM briefcase.tag_permission_grants AS granted_tag_expiring WHERE granted_tag_expiring.org_id = entry.org_id AND granted_tag_expiring.entry_id = entry.entry_id AND granted_tag_expiring.revoked_at IS NULL AND granted_tag_expiring.expires_at > clock_timestamp() AND granted_tag_expiring.granted_by_type = ";

/// Files with a running self-destruct timer.
pub const SELF_DESTRUCT: &'static str = "(entry.entry_type = 'file' AND entry.self_destruct_at IS NOT NULL AND entry.self_destruct_at > clock_timestamp())";

/// A calendar day as the instant of its UTC midnight.
pub open spec fn day_parts(day: i64) -> Seq<PartView> {
    seq![
        PartView::Fragment("(("),
        PartView::Day(day),
        PartView::Fragment(")::date AT TIME ZONE 'UTC')"),
    ]
}

/// The condition on a member's kind, where the filter names it.
pub open spec fn optional_kind_parts(
    selector: ActorSelector,
    column: &'static str,
) -> Seq<PartView> {
    match selector.kind {
        Some(kind) => seq![
            PartView::Fragment(" AND "),
            PartView::Fragment(column),
            PartView::Fragment(" = "),
            PartView::Word(kind_word_of(kind)),
        ],
        None => Seq::empty(),
    }
}

/// The database name of a kind of member.
pub open spec fn kind_word_of(kind: ActorKind) -> &'static str {
    match kind {
        ActorKind::Carbon => "carbon",
        ActorKind::Silicon => "silicon",
    }
}

/// The database name of a kind of entry.
pub open spec fn entry_word_of(kind: EntryKind) -> &'static str {
    match kind {
        EntryKind::File => "file",
        EntryKind::Folder => "folder",
    }
}

/// The condition on an entry's name.
pub open spec fn name_parts(pattern: String) -> Seq<PartView> {
    seq![
        PartView::Fragment("entry.name ILIKE "),
        PartView::Text(pattern@),
        PartView::Fragment(ESCAPE),
    ]
}

/// The condition on an entry's content.
pub open spec fn content_parts(pattern: String) -> Seq<PartView> {
    seq![
        PartView::Fragment(CONTENT_MATCH),
        PartView::Text(pattern@),
        PartView::Fragment(CONTENT_MATCH_END),
    ]
}

/// The condition that an entry is part of a live expiring share: one that gave
/// the caller access, or one on the entry itself that the caller manages.
pub open spec fn expiring_parts(caller: FilterCaller) -> Seq<PartView> {
    seq![
        PartView::Fragment(EXPIRING_GRANTED),
        PartView::Word(caller.kind),
        PartView::Fragment(" AND expiring_grant.principal_id = "),
        PartView::Text(caller.id@),
        PartView::Fragment(") OR ((entry.owner_type = "),
        PartView::Word(caller.kind),
        PartView::Fragment(" AND entry.owner_id = "),
        PartView::Text(caller.id@),
        PartView::Fragment(") OR "),
        PartView::Bool(caller.administrator),
        PartView::Fragment(EXPIRING_MANAGED),
        PartView::Word(caller.kind),
        PartView::Fragment(" AND granted_expiring.granted_by_id = "),
        PartView::Text(caller.id@),
        PartView::Fragment(EXPIRING_TAG_MANAGED),
        PartView::Word(caller.kind),
        PartView::Fragment(" AND granted_tag_expiring.granted_by_id = "),
        PartView::Text(caller.id@),
        PartView::Fragment("))"),
    ]
}

/// The extensions of some kinds, kind by kind.
pub open spec fn extensions_of(kinds: Seq<RenderKind>) -> Seq<Seq<char>>
    decreases kinds.len(),
{
    if kinds.len() == 0 {
        Seq::empty()
    } else {
        extensions_of(kinds.drop_last()) + texts_of(kinds.last().extensions@)
    }
}

/// The beginnings of the media types of some kinds, kind by kind.
pub open spec fn prefixes_of(kinds: Seq<RenderKind>) -> Seq<Seq<char>>
    decreases kinds.len(),
{
    if kinds.len() == 0 {
        Seq::empty()
    } else {
        prefixes_of(kinds.drop_last()) + texts_of(kinds.last().media_type_prefixes@)
    }
}

/// The patterns that match whatever begins with one of some texts.
pub open spec fn patterns_of(prefixes: Seq<Seq<char>>) -> Seq<Seq<char>> {
    Seq::new(prefixes.len(), |k: int| prefixes[k].push('%'))
}

/// The condition that an extension is among some.
pub open spec fn extension_parts(extensions: Seq<Seq<char>>) -> Seq<PartView> {
    seq![
        PartView::Fragment("COALESCE("),
        PartView::Fragment(EXTENSION),
        PartView::Fragment(" = ANY("),
        PartView::Texts(extensions),
        PartView::Fragment("), false)"),
    ]
}

/// The condition that a media type begins as one of some does; none of none
/// does.
pub open spec fn media_parts(prefixes: Seq<Seq<char>>) -> Seq<PartView> {
    if prefixes.len() == 0 {
        seq![PartView::Fragment("false")]
    } else {
        seq![
            PartView::Fragment("COALESCE(entry.content_type ILIKE ANY("),
            PartView::Texts(patterns_of(prefixes)),
            PartView::Fragment("), false)"),
        ]
    }
}

/// The condition that a file renders as a kind: a known extension decides, and
/// the media type speaks only for a name without one.
pub open spec fn render_parts(terms: RenderTerms) -> Seq<PartView> {
    let known = extension_parts(extensions_of(terms.all_kinds@));
    if terms.kind.unsupported {
        seq![PartView::Fragment("(entry.entry_type = 'file' AND NOT (")] + known + seq![
            PartView::Fragment(") AND NOT ("),
        ] + media_parts(prefixes_of(terms.all_kinds@)) + seq![PartView::Fragment("))")]
    } else {
        seq![PartView::Fragment("(entry.entry_type = 'file' AND (")] + extension_parts(
            texts_of(terms.kind.extensions@),
        ) + seq![PartView::Fragment(" OR (NOT (")] + known + seq![PartView::Fragment(") AND ")]
            + media_parts(texts_of(terms.kind.media_type_prefixes@)) + seq![
            PartView::Fragment(")))"),
        ]
    }
}

/// The statement parts of one condition.
pub open spec fn predicate_parts(
    predicate: FilterPredicate,
    caller: FilterCaller,
) -> Seq<PartView> {
    match predicate {
        FilterPredicate::ChangedAfter(day) => seq![PartView::Fragment("entry.updated_at >= ")]
            + day_parts(day),
        FilterPredicate::ChangedBefore(day) => seq![PartView::Fragment("entry.updated_at < ")]
            + day_parts(day),
        FilterPredicate::ChangedBetween(start, end) => seq![
            PartView::Fragment("(entry.updated_at >= "),
        ] + day_parts(start) + seq![PartView::Fragment(" AND entry.updated_at < ")] + day_parts(end)
            + seq![PartView::Fragment(" + interval '1 day')")],
        FilterPredicate::CreatedBy(selector) => seq![
            PartView::Fragment("(entry.created_by_id = "),
            PartView::Text(selector.id@),
        ] + optional_kind_parts(selector, "entry.created_by_type") + seq![PartView::Fragment(")")],
        FilterPredicate::SharedWith(selector) => seq![
            PartView::Fragment(SHARED_WITH),
            PartView::Text(selector.id@),
        ] + optional_kind_parts(selector, "shared_grant.principal_type") + seq![
            PartView::Fragment(")"),
        ],
        FilterPredicate::AccessibleTo(selector) => seq![
            PartView::Fragment(ACCESSIBLE_TO),
            PartView::Text(selector.id@),
        ] + optional_kind_parts(selector, "reader.actor_type") + seq![
            PartView::Fragment(ACCESSIBLE_BY),
            PartView::OwnedAncestor,
            PartView::Fragment("))"),
        ],
        FilterPredicate::Contains(pattern) => seq![PartView::Fragment("(")] + name_parts(pattern)
            + seq![PartView::Fragment(" OR ")] + content_parts(pattern) + seq![
            PartView::Fragment(")"),
        ],
        FilterPredicate::HasContent(pattern) => content_parts(pattern),
        FilterPredicate::NameMatches(pattern) => name_parts(pattern),
        FilterPredicate::IsKind(kind) => seq![
            PartView::Fragment("entry.entry_type = "),
            PartView::Word(entry_word_of(kind)),
        ],
        FilterPredicate::IsRender(terms) => render_parts(terms),
        FilterPredicate::HasExtension(extension) => seq![
            PartView::Fragment("(entry.entry_type = 'file' AND "),
            PartView::Fragment(EXTENSION),
            PartView::Fragment(" = "),
            PartView::Text(extension@),
            PartView::Fragment(")"),
        ],
        FilterPredicate::InLocation(pattern) => seq![
            PartView::Fragment("entry.path LIKE "),
            PartView::Text(pattern@),
            PartView::Fragment(ESCAPE),
        ],
        FilterPredicate::IsExpiring => expiring_parts(caller),
        FilterPredicate::IsSelfDestruct => seq![PartView::Fragment(SELF_DESTRUCT)],
        FilterPredicate::HasPermission => Seq::empty(),
    }
}

/// Appends a day.
fn push_day(parts: &mut Vec<SqlPart>, day: i64)
    ensures
        statement(final(parts)@) == statement(old(parts)@) + day_parts(day),
{
    put_fragment(parts, "((");
    put(parts, SqlPart::Day(day));
    put_fragment(parts, ")::date AT TIME ZONE 'UTC')");
    assert(statement(parts@) =~= statement(old(parts)@) + day_parts(day));
}

/// Appends the condition on a member's kind.
fn push_optional_kind(parts: &mut Vec<SqlPart>, selector: &ActorSelector, column: &'static str)
    ensures
        statement(final(parts)@) == statement(old(parts)@) + optional_kind_parts(*selector, column),
{
    if let Some(kind) = selector.kind {
        let word = match kind {
            ActorKind::Carbon => "carbon",
            ActorKind::Silicon => "silicon",
        };
        put_fragment(parts, " AND ");
        put_fragment(parts, column);
        put_fragment(parts, " = ");
        put(parts, SqlPart::Word(word));
    }
    assert(statement(parts@) =~= statement(old(parts)@) + optional_kind_parts(*selector, column));
}

/// Appends the condition on an entry's name.
fn push_name_match(parts: &mut Vec<SqlPart>, pattern: &String)
    ensures
        statement(final(parts)@) == statement(old(parts)@) + name_parts(*pattern),
{
    put_fragment(parts, "entry.name ILIKE ");
    put_text(parts, pattern);
    put_fragment(parts, ESCAPE);
    assert(statement(parts@) =~= statement(old(parts)@) + name_parts(*pattern));
}

/// Appends the condition on an entry's content.
fn push_content_match(parts: &mut Vec<SqlPart>, pattern: &String)
    ensures
        statement(final(parts)@) == statement(old(parts)@) + content_parts(*pattern),
{
    put_fragment(parts, CONTENT_MATCH);
    put_text(parts, pattern);
    put_fragment(parts, CONTENT_MATCH_END);
    assert(statement(parts@) =~= statement(old(parts)@) + content_parts(*pattern));
}

/// Appends the condition that an entry is part of a live expiring share.
fn push_expiring_match(parts: &mut Vec<SqlPart>, caller: &FilterCaller)
    ensures
        statement(final(parts)@) == statement(old(parts)@) + expiring_parts(*caller),
{
    put_fragment(parts, EXPIRING_GRANTED);
    put(parts, SqlPart::Word(caller.kind));
    put_fragment(parts, " AND expiring_grant.principal_id = ");
    put_text(parts, &caller.id);
    put_fragment(parts, ") OR ((entry.owner_type = ");
    put(parts, SqlPart::Word(caller.kind));
    put_fragment(parts, " AND entry.owner_id = ");
    put_text(parts, &caller.id);
    put_fragment(parts, ") OR ");
    put(parts, SqlPart::Bool(caller.administrator));
    put_fragment(parts, EXPIRING_MANAGED);
    put(parts, SqlPart::Word(caller.kind));
    put_fragment(parts, " AND granted_expiring.granted_by_id = ");
    put_text(parts, &caller.id);
    put_fragment(parts, EXPIRING_TAG_MANAGED);
    put(parts, SqlPart::Word(caller.kind));
    put_fragment(parts, " AND granted_tag_expiring.granted_by_id = ");
    put_text(parts, &caller.id);
    put_fragment(parts, "))");
    assert(statement(parts@) =~= statement(old(parts)@) + expiring_parts(*caller));
}

/// Appends copies of texts to others.
fn append_texts(list: &mut Vec<String>, texts: &Vec<String>)
    ensures
        texts_of(final(list)@) == texts_of(old(list)@) + texts_of(texts@),
{
    let mut index: usize = 0;
    assert(texts@.take(0) =~= Seq::<String>::empty());
    assert(texts_of(list@) =~= texts_of(list@) + texts_of(texts@.take(0)));
    let ghost before = list@;
    while index < texts.len()
        invariant
            index <= texts@.len(),
            texts_of(list@) == texts_of(before) + texts_of(texts@.take(index as int)),
        decreases texts@.len() - index,
    {
        let ghost earlier = list@;
        list.push(texts[index].clone());
        proof {
            assert(texts_of(list@) =~= texts_of(earlier).push(texts@[index as int]@));
            assert(texts_of(texts@.take(index + 1)) =~= texts_of(texts@.take(index as int)).push(
                texts@[index as int]@,
            ));
            assert(texts_of(list@) =~= texts_of(before) + texts_of(texts@.take(index + 1)));
        }
        index += 1;
    }
    assert(texts@.take(texts@.len() as int) =~= texts@);
}

/// The extensions of some kinds, kind by kind.
pub fn known_extensions(kinds: &Vec<RenderKind>) -> (extensions: Vec<String>)
    ensures
        texts_of(extensions@) == extensions_of(kinds@),
{
    let mut extensions: Vec<String> = Vec::new();
    let mut index: usize = 0;
    assert(kinds@.take(0) =~= Seq::<RenderKind>::empty());
    assert(texts_of(extensions@) =~= extensions_of(kinds@.take(0)));
    while index < kinds.len()
        invariant
            index <= kinds@.len(),
            texts_of(extensions@) == extensions_of(kinds@.take(index as int)),
        decreases kinds@.len() - index,
    {
        append_texts(&mut extensions, &kinds[index].extensions);
        assert(kinds@.take(index + 1).drop_last() =~= kinds@.take(index as int));
        assert(kinds@.take(index + 1).last() == kinds@[index as int]);
        index += 1;
    }
    assert(kinds@.take(kinds@.len() as int) =~= kinds@);
    extensions
}

/// The beginnings of the media types of some kinds, kind by kind.
pub fn known_media_prefixes(kinds: &Vec<RenderKind>) -> (prefixes: Vec<String>)
    ensures
        texts_of(prefixes@) == prefixes_of(kinds@),
{
    let mut prefixes: Vec<String> = Vec::new();
    let mut index: usize = 0;
    assert(kinds@.take(0) =~= Seq::<RenderKind>::empty());
    assert(texts_of(prefixes@) =~= prefixes_of(kinds@.take(0)));
    while index < kinds.len()
        invariant
            index <= kinds@.len(),
            texts_of(prefixes@) == prefixes_of(kinds@.take(index as int)),
        decreases kinds@.len() - index,
    {
        append_texts(&mut prefixes, &kinds[index].media_type_prefixes);
        assert(kinds@.take(index + 1).drop_last() =~= kinds@.take(index as int));
        assert(kinds@.take(index + 1).last() == kinds@[index as int]);
        index += 1;
    }
    assert(kinds@.take(kinds@.len() as int) =~= kinds@);
    prefixes
}

/// The patterns that match whatever begins with one of some texts.
pub fn media_patterns(prefixes: &Vec<String>) -> (patterns: Vec<String>)
    ensures
        texts_of(patterns@) == patterns_of(texts_of(prefixes@)),
{
    let mut patterns: Vec<String> = Vec::new();
    let mut index: usize = 0;
    while index < prefixes.len()
        invariant
            index <= prefixes@.len(),
            patterns@.len() == index,
            forall|k: int|
                0 <= k < index ==> (#[trigger] patterns@[k])@ == prefixes@[k]@.push('%'),
        decreases prefixes@.len() - index,
    {
        let mut pattern = prefixes[index].clone();
        pattern.push('%');
        patterns.push(pattern);
        index += 1;
    }
    assert(texts_of(patterns@) =~= patterns_of(texts_of(prefixes@)));
    patterns
}

/// Appends the condition that an extension is among some.
fn push_extension_membership(parts: &mut Vec<SqlPart>, extensions: &Vec<String>)
    ensures
        statement(final(parts)@) == statement(old(parts)@) + extension_parts(
            texts_of(extensions@),
        ),
{
    put_fragment(parts, "COALESCE(");
    put_fragment(parts, EXTENSION);
    put_fragment(parts, " = ANY(");
    put_texts(parts, extensions);
    put_fragment(parts, "), false)");
    assert(statement(parts@) =~= statement(old(parts)@) + extension_parts(texts_of(extensions@)));
}

/// Appends the condition that a media type begins as one of some does.
fn push_media_prefixes(parts: &mut Vec<SqlPart>, prefixes: &Vec<String>)
    ensures
        statement(final(parts)@) == statement(old(parts)@) + media_parts(texts_of(prefixes@)),
{
    if prefixes.len() == 0 {
        put_fragment(parts, "false");
    } else {
        put_fragment(parts, "COALESCE(entry.content_type ILIKE ANY(");
        put_texts(parts, &media_patterns(prefixes));
        put_fragment(parts, "), false)");
    }
    assert(statement(parts@) =~= statement(old(parts)@) + media_parts(texts_of(prefixes@)));
}

/// Appends the condition that a file renders as a kind.
fn push_render_match(parts: &mut Vec<SqlPart>, terms: &RenderTerms)
    ensures
        statement(final(parts)@) == statement(old(parts)@) + render_parts(*terms),
{
    let known = known_extensions(&terms.all_kinds);
    if terms.kind.unsupported {
        put_fragment(parts, "(entry.entry_type = 'file' AND NOT (");
        push_extension_membership(parts, &known);
        put_fragment(parts, ") AND NOT (");
        push_media_prefixes(parts, &known_media_prefixes(&terms.all_kinds));
        put_fragment(parts, "))");
    } else {
        put_fragment(parts, "(entry.entry_type = 'file' AND (");
        push_extension_membership(parts, &terms.kind.extensions);
        put_fragment(parts, " OR (NOT (");
        push_extension_membership(parts, &known);
        put_fragment(parts, ") AND ");
        push_media_prefixes(parts, &terms.kind.media_type_prefixes);
        put_fragment(parts, ")))");
    }
    assert(statement(parts@) =~= statement(old(parts)@) + render_parts(*terms));
}

/// Appends one condition. A permission is no condition of the database.
pub fn push_predicate(parts: &mut Vec<SqlPart>, predicate: &FilterPredicate, caller: &FilterCaller)
    requires
        *predicate !is HasPermission,
    ensures
        statement(final(parts)@) == statement(old(parts)@) + predicate_parts(*predicate, *caller),
{
    match predicate {
        FilterPredicate::ChangedAfter(day) => {
            put_fragment(parts, "entry.updated_at >= ");
            push_day(parts, *day);
        },
        FilterPredicate::ChangedBefore(day) => {
            put_fragment(parts, "entry.updated_at < ");
            push_day(parts, *day);
        },
        FilterPredicate::ChangedBetween(start, end) => {
            put_fragment(parts, "(entry.updated_at >= ");
            push_day(parts, *start);
            put_fragment(parts, " AND entry.updated_at < ");
            push_day(parts, *end);
            put_fragment(parts, " + interval '1 day')");
        },
        FilterPredicate::CreatedBy(selector) => {
            put_fragment(parts, "(entry.created_by_id = ");
            put_text(parts, &selector.id);
            push_optional_kind(parts, selector, "entry.created_by_type");
            put_fragment(parts, ")");
        },
        FilterPredicate::SharedWith(selector) => {
            put_fragment(parts, SHARED_WITH);
            put_text(parts, &selector.id);
            push_optional_kind(parts, selector, "shared_grant.principal_type");
            put_fragment(parts, ")");
        },
        FilterPredicate::AccessibleTo(selector) => {
            put_fragment(parts, ACCESSIBLE_TO);
            put_text(parts, &selector.id);
            push_optional_kind(parts, selector, "reader.actor_type");
            put_fragment(parts, ACCESSIBLE_BY);
            put(parts, SqlPart::OwnedAncestor);
            put_fragment(parts, "))");
        },
        FilterPredicate::Contains(pattern) => {
            put_fragment(parts, "(");
            push_name_match(parts, pattern);
            put_fragment(parts, " OR ");
            push_content_match(parts, pattern);
            put_fragment(parts, ")");
        },
        FilterPredicate::HasContent(pattern) => {
            push_content_match(parts, pattern);
        },
        FilterPredicate::NameMatches(pattern) => {
            push_name_match(parts, pattern);
        },
        FilterPredicate::IsKind(kind) => {
            let word = match kind {
                EntryKind::File => "file",
                EntryKind::Folder => "folder",
            };
            put_fragment(parts, "entry.entry_type = ");
            put(parts, SqlPart::Word(word));
        },
        FilterPredicate::IsRender(terms) => {
            push_render_match(parts, terms);
        },
        FilterPredicate::HasExtension(extension) => {
            put_fragment(parts, "(entry.entry_type = 'file' AND ");
            put_fragment(parts, EXTENSION);
            put_fragment(parts, " = ");
            put_text(parts, extension);
            put_fragment(parts, ")");
        },
        FilterPredicate::InLocation(pattern) => {
            put_fragment(parts, "entry.path LIKE ");
            put_text(parts, pattern);
            put_fragment(parts, ESCAPE);
        },
        FilterPredicate::IsExpiring => {
            push_expiring_match(parts, caller);
        },
        FilterPredicate::IsSelfDestruct => {
            put_fragment(parts, SELF_DESTRUCT);
        },
        FilterPredicate::HasPermission => {},
    }
    assert(statement(parts@) =~= statement(old(parts)@) + predicate_parts(*predicate, *caller));
}

/// Whether no condition of an expression is a permission.
pub open spec fn database_only(expression: FilterExpression) -> bool
    decreases expression, 1int,
{
    match expression {
        FilterExpression::All(children) => all_database_only(children@),
        FilterExpression::Any(children) => all_database_only(children@),
        FilterExpression::Not(inner) => database_only(*inner),
        FilterExpression::Predicate(predicate) => predicate !is HasPermission,
    }
}

/// Whether no condition of some expressions is a permission.
pub open spec fn all_database_only(children: Seq<FilterExpression>) -> bool
    decreases children, 0int,
{
    children.len() == 0 || (all_database_only(children.drop_last()) && database_only(
        children.last(),
    ))
}

/// Whether no condition of an expression is a permission, so that the database
/// alone can evaluate it.
pub fn is_database_only(expression: &FilterExpression) -> (answer: bool)
    ensures
        answer == database_only(*expression),
    decreases *expression, 1int,
{
    match expression {
        FilterExpression::All(children) => are_database_only(children),
        FilterExpression::Any(children) => are_database_only(children),
        FilterExpression::Not(inner) => is_database_only(inner),
        FilterExpression::Predicate(predicate) => !matches!(
            predicate,
            FilterPredicate::HasPermission,
        ),
    }
}

/// Whether no condition of some expressions is a permission.
fn are_database_only(children: &Vec<FilterExpression>) -> (answer: bool)
    ensures
        answer == all_database_only(children@),
    decreases children@, 0int,
{
    let mut index: usize = 0;
    assert(children@.take(0) =~= Seq::<FilterExpression>::empty());
    while index < children.len()
        invariant
            index <= children@.len(),
            all_database_only(children@.take(index as int)),
        decreases children@.len() - index,
    {
        let ghost next = children@.take(index + 1);
        assert(next.drop_last() =~= children@.take(index as int));
        assert(next.last() == children@[index as int]);
        if !is_database_only(&children[index]) {
            proof {
                if all_database_only(children@) {
                    lemma_each_is_database_only(children@, index as int);
                }
            }
            return false;
        }
        index += 1;
    }
    assert(children@.take(children@.len() as int) =~= children@);
    true
}

/// Each of some expressions without permissions is without permissions.
proof fn lemma_each_is_database_only(children: Seq<FilterExpression>, position: int)
    requires
        all_database_only(children),
        0 <= position < children.len(),
    ensures
        database_only(children[position]),
    decreases children.len(),
{
    if position < children.len() - 1 {
        lemma_each_is_database_only(children.drop_last(), position);
    }
}

/// The statement parts of an expression.
pub open spec fn expression_parts(
    expression: FilterExpression,
    caller: FilterCaller,
) -> Seq<PartView>
    decreases expression, 1int,
{
    match expression {
        FilterExpression::All(children) => group_parts(children@, " AND ", caller),
        FilterExpression::Any(children) => group_parts(children@, " OR ", caller),
        FilterExpression::Not(inner) => seq![PartView::Fragment("NOT (")] + expression_parts(
            *inner,
            caller,
        ) + seq![PartView::Fragment(")")],
        FilterExpression::Predicate(predicate) => predicate_parts(predicate, caller),
    }
}

/// The statement parts of expressions in a row, with a separator between them.
pub open spec fn separated_parts(
    children: Seq<FilterExpression>,
    separator: &'static str,
    caller: FilterCaller,
) -> Seq<PartView>
    decreases children, 0int,
{
    if children.len() == 0 {
        Seq::empty()
    } else if children.len() == 1 {
        expression_parts(children[0], caller)
    } else {
        separated_parts(children.drop_last(), separator, caller) + seq![
            PartView::Fragment(separator),
        ] + expression_parts(children.last(), caller)
    }
}

/// The statement parts of a group; an empty one holds.
pub open spec fn group_parts(
    children: Seq<FilterExpression>,
    separator: &'static str,
    caller: FilterCaller,
) -> Seq<PartView>
    decreases children, 1int,
{
    if children.len() == 0 {
        seq![PartView::Fragment("TRUE")]
    } else {
        seq![PartView::Fragment("(")] + separated_parts(children, separator, caller) + seq![
            PartView::Fragment(")"),
        ]
    }
}

/// Appends an expression as one condition. Its permissions, if it had any,
/// would be decided by the access policy.
pub fn push_expression(
    parts: &mut Vec<SqlPart>,
    expression: &FilterExpression,
    caller: &FilterCaller,
)
    requires
        database_only(*expression),
    ensures
        statement(final(parts)@) == statement(old(parts)@) + expression_parts(*expression, *caller),
    decreases *expression, 1int,
{
    match expression {
        FilterExpression::All(children) => {
            push_group(parts, children, " AND ", caller);
        },
        FilterExpression::Any(children) => {
            push_group(parts, children, " OR ", caller);
        },
        FilterExpression::Not(inner) => {
            put_fragment(parts, "NOT (");
            push_expression(parts, inner, caller);
            put_fragment(parts, ")");
        },
        FilterExpression::Predicate(predicate) => {
            push_predicate(parts, predicate, caller);
        },
    }
    assert(statement(parts@) =~= statement(old(parts)@) + expression_parts(*expression, *caller));
}

/// Appends a group of expressions.
fn push_group(
    parts: &mut Vec<SqlPart>,
    children: &Vec<FilterExpression>,
    separator: &'static str,
    caller: &FilterCaller,
)
    requires
        all_database_only(children@),
    ensures
        statement(final(parts)@) == statement(old(parts)@) + group_parts(
            children@,
            separator,
            *caller,
        ),
    decreases children@, 0int,
{
    let ghost before = statement(parts@);
    if children.len() == 0 {
        put_fragment(parts, "TRUE");
    } else {
        put_fragment(parts, "(");
        let mut index: usize = 0;
        assert(children@.take(0) =~= Seq::<FilterExpression>::empty());
        while index < children.len()
            invariant
                index <= children@.len(),
                all_database_only(children@),
                statement(parts@) == before.push(PartView::Fragment("(")) + separated_parts(
                    children@.take(index as int),
                    separator,
                    *caller,
                ),
            decreases children@.len() - index,
        {
            let ghost next = children@.take(index + 1);
            proof {
                assert(next.drop_last() =~= children@.take(index as int));
                assert(next.last() == children@[index as int]);
                lemma_each_is_database_only(children@, index as int);
            }
            if index > 0 {
                put_fragment(parts, separator);
            }
            push_expression(parts, &children[index], caller);
            proof {
                if index == 0 {
                    assert(next[0] == children@[0]);
                }
                assert(statement(parts@) =~= before.push(PartView::Fragment("("))
                    + separated_parts(next, separator, *caller));
            }
            index += 1;
        }
        assert(children@.take(children@.len() as int) =~= children@);
        put_fragment(parts, ")");
    }
    assert(statement(parts@) =~= before + group_parts(children@, separator, *caller));
}

/// The database conditions of an expression in the order in which they stand.
pub open spec fn database_predicates(expression: FilterExpression) -> Seq<FilterPredicate>
    decreases expression, 1int,
{
    match expression {
        FilterExpression::Predicate(predicate) => if predicate is HasPermission {
            Seq::empty()
        } else {
            seq![predicate]
        },
        FilterExpression::Not(inner) => database_predicates(*inner),
        FilterExpression::All(children) => listed_predicates(children@),
        FilterExpression::Any(children) => listed_predicates(children@),
    }
}

/// The database conditions of expressions in the order in which they stand.
pub open spec fn listed_predicates(children: Seq<FilterExpression>) -> Seq<FilterPredicate>
    decreases children, 0int,
{
    if children.len() == 0 {
        Seq::empty()
    } else {
        listed_predicates(children.drop_last()) + database_predicates(children.last())
    }
}

/// The statement parts of conditions in a list, each of them true or false and
/// never unknown.
pub open spec fn projected_parts(
    predicates: Seq<FilterPredicate>,
    caller: FilterCaller,
) -> Seq<PartView>
    decreases predicates.len(),
{
    if predicates.len() == 0 {
        Seq::empty()
    } else {
        let earlier = projected_parts(predicates.drop_last(), caller);
        let separated = if predicates.len() > 1 {
            earlier.push(PartView::Fragment(", "))
        } else {
            earlier
        };
        separated.push(PartView::Fragment("COALESCE((")) + predicate_parts(
            predicates.last(),
            caller,
        ) + seq![PartView::Fragment("), FALSE)")]
    }
}

/// Appends the database conditions of an expression behind those appended
/// before.
fn push_database_predicates(
    parts: &mut Vec<SqlPart>,
    expression: &FilterExpression,
    count: usize,
    caller: &FilterCaller,
    Ghost(start): Ghost<Seq<PartView>>,
    Ghost(earlier): Ghost<Seq<FilterPredicate>>,
) -> (total: usize)
    requires
        count > 0 <==> earlier.len() > 0,
        statement(old(parts)@) == start + projected_parts(earlier, *caller),
    ensures
        total > 0 <==> (earlier + database_predicates(*expression)).len() > 0,
        statement(final(parts)@) == start + projected_parts(
            earlier + database_predicates(*expression),
            *caller,
        ),
    decreases *expression, 1int,
{
    match expression {
        FilterExpression::Predicate(predicate) => {
            if let FilterPredicate::HasPermission = predicate {
                assert(earlier + database_predicates(*expression) =~= earlier);
                return count;
            }
            let ghost all = earlier + database_predicates(*expression);
            proof {
                assert(all =~= earlier.push(*predicate));
                assert(all.drop_last() =~= earlier);
            }
            if count > 0 {
                put_fragment(parts, ", ");
            }
            put_fragment(parts, "COALESCE((");
            push_predicate(parts, predicate, caller);
            put_fragment(parts, "), FALSE)");
            assert(statement(parts@) =~= start + projected_parts(all, *caller));
            1
        },
        FilterExpression::Not(inner) => {
            push_database_predicates(parts, inner, count, caller, Ghost(start), Ghost(earlier))
        },
        FilterExpression::All(children) | FilterExpression::Any(children) => {
            push_listed_predicates(parts, children, count, caller, Ghost(start), Ghost(earlier))
        },
    }
}

/// Appends the database conditions of expressions behind those appended
/// before.
fn push_listed_predicates(
    parts: &mut Vec<SqlPart>,
    children: &Vec<FilterExpression>,
    count: usize,
    caller: &FilterCaller,
    Ghost(start): Ghost<Seq<PartView>>,
    Ghost(earlier): Ghost<Seq<FilterPredicate>>,
) -> (total: usize)
    requires
        count > 0 <==> earlier.len() > 0,
        statement(old(parts)@) == start + projected_parts(earlier, *caller),
    ensures
        total > 0 <==> (earlier + listed_predicates(children@)).len() > 0,
        statement(final(parts)@) == start + projected_parts(
            earlier + listed_predicates(children@),
            *caller,
        ),
    decreases children@, 0int,
{
    let mut total: usize = count;
    let mut index: usize = 0;
    proof {
        assert(children@.take(0) =~= Seq::<FilterExpression>::empty());
        assert(earlier + listed_predicates(children@.take(0)) =~= earlier);
    }
    while index < children.len()
        invariant
            index <= children@.len(),
            total > 0 <==> (earlier + listed_predicates(children@.take(index as int))).len() > 0,
            statement(parts@) == start + projected_parts(
                earlier + listed_predicates(children@.take(index as int)),
                *caller,
            ),
        decreases children@.len() - index,
    {
        let ghost so_far = earlier + listed_predicates(children@.take(index as int));
        let ghost next = children@.take(index + 1);
        proof {
            assert(next.drop_last() =~= children@.take(index as int));
            assert(next.last() == children@[index as int]);
            assert(so_far + database_predicates(children@[index as int]) =~= earlier
                + listed_predicates(next));
        }
        total = push_database_predicates(
            parts,
            &children[index],
            total,
            caller,
            Ghost(start),
            Ghost(so_far),
        );
        index += 1;
    }
    assert(children@.take(children@.len() as int) =~= children@);
    total
}

/// Appends the truth values of an expression's database conditions as a list,
/// in the order in which they stand. Where an expression mixes them with
/// permissions, the access policy evaluates the whole of it.
pub fn push_database_predicate_matches(
    parts: &mut Vec<SqlPart>,
    expression: &FilterExpression,
    caller: &FilterCaller,
)
    ensures
        statement(final(parts)@) == statement(old(parts)@).push(PartView::Fragment("ARRAY["))
            + projected_parts(database_predicates(*expression), *caller) + seq![
            PartView::Fragment("]::boolean[]"),
        ],
{
    put_fragment(parts, "ARRAY[");
    let ghost start = statement(parts@);
    proof {
        assert(start + projected_parts(Seq::<FilterPredicate>::empty(), *caller) =~= start);
        assert(Seq::<FilterPredicate>::empty() + database_predicates(*expression)
            =~= database_predicates(*expression));
    }
    push_database_predicates(
        parts,
        expression,
        0,
        caller,
        Ghost(start),
        Ghost(Seq::empty()),
    );
    put_fragment(parts, "]::boolean[]");
    assert(statement(parts@) =~= start + projected_parts(database_predicates(*expression), *caller)
        + seq![PartView::Fragment("]::boolean[]")]);
}

/// A piece without what is bound to it.
pub open spec fn blank(part: PartView) -> PartView {
    match part {
        PartView::Fragment(text) => PartView::Fragment(text),
        PartView::Text(_) => PartView::Text(Seq::empty()),
        PartView::Word(_) => PartView::Word(""),
        PartView::Texts(_) => PartView::Texts(Seq::empty()),
        PartView::Bool(_) => PartView::Bool(false),
        PartView::Id(_) => PartView::Id(0),
        PartView::Instant(_) => PartView::Instant(0),
        PartView::Integer(_) => PartView::Integer(0),
        PartView::Day(_) => PartView::Day(0),
        PartView::OwnedAncestor => PartView::OwnedAncestor,
    }
}

/// A statement without what is bound to it.
pub open spec fn skeleton(parts: Seq<PartView>) -> Seq<PartView> {
    Seq::new(parts.len(), |k: int| blank(parts[k]))
}

/// Whether two conditions on what a file renders as differ only in the
/// extensions and media types that they name.
pub open spec fn same_render(left: RenderTerms, right: RenderTerms) -> bool {
    &&& left.kind.unsupported == right.kind.unsupported
    &&& (left.kind.media_type_prefixes@.len() == 0) == (right.kind.media_type_prefixes@.len() == 0)
    &&& (prefixes_of(left.all_kinds@).len() == 0) == (prefixes_of(right.all_kinds@).len() == 0)
}

/// Whether two conditions differ only in the values that they name.
pub open spec fn same_condition(left: FilterPredicate, right: FilterPredicate) -> bool {
    match (left, right) {
        (FilterPredicate::ChangedAfter(_), FilterPredicate::ChangedAfter(_)) => true,
        (FilterPredicate::ChangedBefore(_), FilterPredicate::ChangedBefore(_)) => true,
        (FilterPredicate::ChangedBetween(_, _), FilterPredicate::ChangedBetween(_, _)) => true,
        (FilterPredicate::CreatedBy(a), FilterPredicate::CreatedBy(b)) => a.kind is Some
            == b.kind is Some,
        (FilterPredicate::SharedWith(a), FilterPredicate::SharedWith(b)) => a.kind is Some
            == b.kind is Some,
        (FilterPredicate::AccessibleTo(a), FilterPredicate::AccessibleTo(b)) => a.kind is Some
            == b.kind is Some,
        (FilterPredicate::Contains(_), FilterPredicate::Contains(_)) => true,
        (FilterPredicate::HasContent(_), FilterPredicate::HasContent(_)) => true,
        (FilterPredicate::NameMatches(_), FilterPredicate::NameMatches(_)) => true,
        (FilterPredicate::IsKind(_), FilterPredicate::IsKind(_)) => true,
        (FilterPredicate::IsRender(a), FilterPredicate::IsRender(b)) => same_render(a, b),
        (FilterPredicate::HasExtension(_), FilterPredicate::HasExtension(_)) => true,
        (FilterPredicate::InLocation(_), FilterPredicate::InLocation(_)) => true,
        (FilterPredicate::IsExpiring, FilterPredicate::IsExpiring) => true,
        (FilterPredicate::IsSelfDestruct, FilterPredicate::IsSelfDestruct) => true,
        (FilterPredicate::HasPermission, FilterPredicate::HasPermission) => true,
        _ => false,
    }
}

/// Whether two expressions differ only in the values that their conditions
/// name.
pub open spec fn same_shape(left: FilterExpression, right: FilterExpression) -> bool
    decreases left, 1int,
{
    match (left, right) {
        (FilterExpression::All(a), FilterExpression::All(b)) => same_shapes(a@, b@),
        (FilterExpression::Any(a), FilterExpression::Any(b)) => same_shapes(a@, b@),
        (FilterExpression::Not(a), FilterExpression::Not(b)) => same_shape(*a, *b),
        (FilterExpression::Predicate(a), FilterExpression::Predicate(b)) => same_condition(a, b),
        _ => false,
    }
}

/// Whether expressions differ one by one only in the values that their
/// conditions name.
pub open spec fn same_shapes(left: Seq<FilterExpression>, right: Seq<FilterExpression>) -> bool
    decreases left, 0int,
{
    left.len() == right.len() && (left.len() == 0 || (same_shapes(
        left.drop_last(),
        right.drop_last(),
    ) && same_shape(left.last(), right.last())))
}

/// The skeleton of two statements in a row is the two skeletons in a row.
proof fn lemma_skeleton_of_concatenation(left: Seq<PartView>, right: Seq<PartView>)
    ensures
        skeleton(left + right) == skeleton(left) + skeleton(right),
{
    assert(skeleton(left + right) =~= skeleton(left) + skeleton(right));
}

/// Conditions that differ only in the values they name have one skeleton.
proof fn lemma_condition_skeletons(
    left: FilterPredicate,
    right: FilterPredicate,
    caller: FilterCaller,
    other: FilterCaller,
)
    requires
        same_condition(left, right),
    ensures
        skeleton(predicate_parts(left, caller)) == skeleton(predicate_parts(right, other)),
{
    let a = predicate_parts(left, caller);
    let b = predicate_parts(right, other);
    match (left, right) {
        (FilterPredicate::CreatedBy(x), FilterPredicate::CreatedBy(y)) => {
            lemma_kind_skeletons(x, y, "entry.created_by_type");
            assert(skeleton(a) =~= skeleton(b));
        },
        (FilterPredicate::SharedWith(x), FilterPredicate::SharedWith(y)) => {
            lemma_kind_skeletons(x, y, "shared_grant.principal_type");
            assert(skeleton(a) =~= skeleton(b));
        },
        (FilterPredicate::AccessibleTo(x), FilterPredicate::AccessibleTo(y)) => {
            lemma_kind_skeletons(x, y, "reader.actor_type");
            assert(skeleton(a) =~= skeleton(b));
        },
        (FilterPredicate::IsRender(x), FilterPredicate::IsRender(y)) => {
            lemma_render_skeletons(x, y);
        },
        (FilterPredicate::IsExpiring, FilterPredicate::IsExpiring) => {
            assert(skeleton(expiring_parts(caller)) =~= skeleton(expiring_parts(other)));
        },
        (FilterPredicate::ChangedAfter(_), FilterPredicate::ChangedAfter(_)) => {
            assert(skeleton(a) =~= skeleton(b));
        },
        (FilterPredicate::ChangedBefore(_), FilterPredicate::ChangedBefore(_)) => {
            assert(skeleton(a) =~= skeleton(b));
        },
        (FilterPredicate::ChangedBetween(_, _), FilterPredicate::ChangedBetween(_, _)) => {
            assert(skeleton(a) =~= skeleton(b));
        },
        (FilterPredicate::Contains(_), FilterPredicate::Contains(_)) => {
            assert(skeleton(a) =~= skeleton(b));
        },
        (FilterPredicate::HasContent(_), FilterPredicate::HasContent(_)) => {
            assert(skeleton(a) =~= skeleton(b));
        },
        (FilterPredicate::NameMatches(_), FilterPredicate::NameMatches(_)) => {
            assert(skeleton(a) =~= skeleton(b));
        },
        (FilterPredicate::IsKind(_), FilterPredicate::IsKind(_)) => {
            assert(skeleton(a) =~= skeleton(b));
        },
        (FilterPredicate::HasExtension(_), FilterPredicate::HasExtension(_)) => {
            assert(skeleton(a) =~= skeleton(b));
        },
        (FilterPredicate::InLocation(_), FilterPredicate::InLocation(_)) => {
            assert(skeleton(a) =~= skeleton(b));
        },
        _ => {},
    }
}

/// Conditions on a member's kind have one skeleton.
proof fn lemma_kind_skeletons(left: ActorSelector, right: ActorSelector, column: &'static str)
    requires
        left.kind is Some == right.kind is Some,
    ensures
        skeleton(optional_kind_parts(left, column)) == skeleton(optional_kind_parts(right, column)),
        optional_kind_parts(left, column).len() == optional_kind_parts(right, column).len(),
        forall|k: int|
            0 <= k < optional_kind_parts(left, column).len() ==> blank(
                #[trigger] optional_kind_parts(left, column)[k],
            ) == blank(optional_kind_parts(right, column)[k]),
{
    assert(skeleton(optional_kind_parts(left, column)) =~= skeleton(
        optional_kind_parts(right, column),
    ));
}

/// Conditions on what a file renders as have one skeleton.
proof fn lemma_render_skeletons(left: RenderTerms, right: RenderTerms)
    requires
        same_render(left, right),
    ensures
        skeleton(render_parts(left)) == skeleton(render_parts(right)),
{
    let a = extensions_of(left.all_kinds@);
    let b = extensions_of(right.all_kinds@);
    let c = texts_of(left.kind.extensions@);
    let d = texts_of(right.kind.extensions@);
    assert(skeleton(extension_parts(a)) =~= skeleton(extension_parts(b)));
    assert(skeleton(extension_parts(c)) =~= skeleton(extension_parts(d)));
    let a = prefixes_of(left.all_kinds@);
    let b = prefixes_of(right.all_kinds@);
    let c = texts_of(left.kind.media_type_prefixes@);
    let d = texts_of(right.kind.media_type_prefixes@);
    assert(skeleton(media_parts(a)) =~= skeleton(media_parts(b)));
    assert(skeleton(media_parts(c)) =~= skeleton(media_parts(d)));
    lemma_render_skeleton(left);
    lemma_render_skeleton(right);
}

/// The skeleton of a condition on what a file renders as, piece by piece.
proof fn lemma_render_skeleton(terms: RenderTerms)
    ensures
        ({
            let known = skeleton(extension_parts(extensions_of(terms.all_kinds@)));
            skeleton(render_parts(terms)) == if terms.kind.unsupported {
                seq![PartView::Fragment("(entry.entry_type = 'file' AND NOT (")] + known + seq![
                    PartView::Fragment(") AND NOT ("),
                ] + skeleton(media_parts(prefixes_of(terms.all_kinds@))) + seq![
                    PartView::Fragment("))"),
                ]
            } else {
                seq![PartView::Fragment("(entry.entry_type = 'file' AND (")] + skeleton(
                    extension_parts(texts_of(terms.kind.extensions@)),
                ) + seq![PartView::Fragment(" OR (NOT (")] + known + seq![
                    PartView::Fragment(") AND "),
                ] + skeleton(media_parts(texts_of(terms.kind.media_type_prefixes@))) + seq![
                    PartView::Fragment(")))"),
                ]
            }
        }),
{
    let known = skeleton(extension_parts(extensions_of(terms.all_kinds@)));
    if terms.kind.unsupported {
        assert(skeleton(render_parts(terms)) =~= seq![
            PartView::Fragment("(entry.entry_type = 'file' AND NOT ("),
        ] + known + seq![PartView::Fragment(") AND NOT (")] + skeleton(
            media_parts(prefixes_of(terms.all_kinds@)),
        ) + seq![PartView::Fragment("))")]);
    } else {
        assert(skeleton(render_parts(terms)) =~= seq![
            PartView::Fragment("(entry.entry_type = 'file' AND ("),
        ] + skeleton(extension_parts(texts_of(terms.kind.extensions@))) + seq![
            PartView::Fragment(" OR (NOT ("),
        ] + known + seq![PartView::Fragment(") AND ")] + skeleton(
            media_parts(texts_of(terms.kind.media_type_prefixes@)),
        ) + seq![PartView::Fragment(")))")]);
    }
}

/// What a filter says never becomes part of the statement: filters that differ
/// only in the values they name, from whatever caller, give the same statement
/// but for what is bound to it.
pub proof fn law_filter_values_are_only_bound(
    left: FilterExpression,
    right: FilterExpression,
    caller: FilterCaller,
    other: FilterCaller,
)
    requires
        same_shape(left, right),
    ensures
        skeleton(expression_parts(left, caller)) == skeleton(expression_parts(right, other)),
    decreases left, 1int, 0int,
{
    match (left, right) {
        (FilterExpression::All(a), FilterExpression::All(b)) => {
            lemma_group_skeletons(a@, b@, " AND ", caller, other);
        },
        (FilterExpression::Any(a), FilterExpression::Any(b)) => {
            lemma_group_skeletons(a@, b@, " OR ", caller, other);
        },
        (FilterExpression::Not(a), FilterExpression::Not(b)) => {
            law_filter_values_are_only_bound(*a, *b, caller, other);
            let open = seq![PartView::Fragment("NOT (")];
            let close = seq![PartView::Fragment(")")];
            lemma_skeleton_of_concatenation(open, expression_parts(*a, caller));
            lemma_skeleton_of_concatenation(open, expression_parts(*b, other));
            lemma_skeleton_of_concatenation(open + expression_parts(*a, caller), close);
            lemma_skeleton_of_concatenation(open + expression_parts(*b, other), close);
        },
        (FilterExpression::Predicate(a), FilterExpression::Predicate(b)) => {
            lemma_condition_skeletons(a, b, caller, other);
        },
        _ => {},
    }
}

/// Groups that differ only in the values they name have one skeleton.
proof fn lemma_group_skeletons(
    left: Seq<FilterExpression>,
    right: Seq<FilterExpression>,
    separator: &'static str,
    caller: FilterCaller,
    other: FilterCaller,
)
    requires
        same_shapes(left, right),
    ensures
        skeleton(group_parts(left, separator, caller)) == skeleton(
            group_parts(right, separator, other),
        ),
    decreases left, 0int, 1int,
{
    if left.len() > 0 {
        lemma_separated_skeletons(left, right, separator, caller, other);
        let open = seq![PartView::Fragment("(")];
        let close = seq![PartView::Fragment(")")];
        let a = separated_parts(left, separator, caller);
        let b = separated_parts(right, separator, other);
        lemma_skeleton_of_concatenation(open, a);
        lemma_skeleton_of_concatenation(open, b);
        lemma_skeleton_of_concatenation(open + a, close);
        lemma_skeleton_of_concatenation(open + b, close);
    }
}

/// Rows of expressions that differ only in the values they name have one
/// skeleton.
proof fn lemma_separated_skeletons(
    left: Seq<FilterExpression>,
    right: Seq<FilterExpression>,
    separator: &'static str,
    caller: FilterCaller,
    other: FilterCaller,
)
    requires
        same_shapes(left, right),
    ensures
        skeleton(separated_parts(left, separator, caller)) == skeleton(
            separated_parts(right, separator, other),
        ),
    decreases left, 0int, 0int,
{
    if left.len() > 0 {
        law_filter_values_are_only_bound(left.last(), right.last(), caller, other);
        if left.len() > 1 {
            lemma_separated_skeletons(
                left.drop_last(),
                right.drop_last(),
                separator,
                caller,
                other,
            );
            let between = seq![PartView::Fragment(separator)];
            let a = separated_parts(left.drop_last(), separator, caller);
            let b = separated_parts(right.drop_last(), separator, other);
            lemma_skeleton_of_concatenation(a, between);
            lemma_skeleton_of_concatenation(b, between);
            lemma_skeleton_of_concatenation(a + between, expression_parts(left.last(), caller));
            lemma_skeleton_of_concatenation(b + between, expression_parts(right.last(), other));
        } else {
            assert(left[0] == left.last());
            assert(right[0] == right.last());
        }
    }
}

/// Sort order of a listing.
#[derive(Clone, Copy, Debug, PartialEq, Eq, Structural)]
pub enum SortOrder {
    /// Last changed first.
    Newest,
    /// First changed first.
    Oldest,
}

/// What a listing scans.
pub struct ListingScan {
    /// Folder to list; none lists the top, or everything under a filter.
    pub parent_id: Option<u128>,
    /// Order of the scan.
    pub order: SortOrder,
    /// Where the page starts: time of the last change and entry.
    pub after: Option<(i128, u128)>,
    /// Whether there is a filter.
    pub filtered: bool,
    /// Rows to read.
    pub rows: i64,
}

/// Entries that a listing can show.
pub const LISTING_BASE: &'static str = " FROM briefcase.entries AS entry WHERE entry.org_id = briefcase.current_org_id() AND entry.deleted_at IS NULL";

/// The level that a listing scans. Without a filter one level is browsed; with
/// one, an unspecified folder widens the scan to the whole organization.
pub open spec fn level_parts(scan: ListingScan) -> Seq<PartView> {
    match scan.parent_id {
        Some(id) => seq![PartView::Fragment(" AND entry.parent_id = "), PartView::Id(id)],
        None => if scan.filtered {
            Seq::empty()
        } else {
            seq![PartView::Fragment(" AND entry.parent_id IS NULL")]
        },
    }
}

/// Where a page of a listing starts.
pub open spec fn start_parts(scan: ListingScan) -> Seq<PartView> {
    match scan.after {
        Some(after) => seq![
            PartView::Fragment(" AND (entry.updated_at, entry.entry_id) "),
            PartView::Fragment(
                match scan.order {
                    SortOrder::Newest => "< (",
                    SortOrder::Oldest => "> (",
                },
            ),
            PartView::Instant(after.0),
            PartView::Fragment(", "),
            PartView::Id(after.1),
            PartView::Fragment(")"),
        ],
        None => Seq::empty(),
    }
}

/// The order of a listing and how much of it is read.
pub open spec fn order_parts(scan: ListingScan) -> Seq<PartView> {
    seq![
        PartView::Fragment(
            match scan.order {
                SortOrder::Newest => " ORDER BY entry.updated_at DESC, entry.entry_id DESC LIMIT ",
                SortOrder::Oldest => " ORDER BY entry.updated_at ASC, entry.entry_id ASC LIMIT ",
            },
        ),
        PartView::Integer(scan.rows),
    ]
}

/// The filter of a listing.
pub open spec fn condition_parts(
    expression: Option<&FilterExpression>,
    caller: FilterCaller,
) -> Seq<PartView> {
    match expression {
        Some(condition) => seq![PartView::Fragment(" AND ")] + expression_parts(*condition, caller),
        None => Seq::empty(),
    }
}

/// Appends the level that a listing scans and where its page starts.
fn push_scan(parts: &mut Vec<SqlPart>, scan: &ListingScan)
    ensures
        statement(final(parts)@) == statement(old(parts)@) + level_parts(*scan) + start_parts(
            *scan,
        ),
{
    match scan.parent_id {
        Some(id) => {
            put_fragment(parts, " AND entry.parent_id = ");
            put(parts, SqlPart::Id(id));
        },
        None => {
            if !scan.filtered {
                put_fragment(parts, " AND entry.parent_id IS NULL");
            }
        },
    }
    assert(statement(parts@) =~= statement(old(parts)@) + level_parts(*scan));
    let ghost levelled = statement(parts@);
    if let Some(after) = scan.after {
        put_fragment(parts, " AND (entry.updated_at, entry.entry_id) ");
        let side = match scan.order {
            SortOrder::Newest => "< (",
            SortOrder::Oldest => "> (",
        };
        put_fragment(parts, side);
        put(parts, SqlPart::Instant(after.0));
        put_fragment(parts, ", ");
        put(parts, SqlPart::Id(after.1));
        put_fragment(parts, ")");
    }
    assert(statement(parts@) =~= levelled + start_parts(*scan));
}

/// The statement of a listing behind its columns.
pub fn listing_statement(
    scan: &ListingScan,
    expression: Option<&FilterExpression>,
    caller: &FilterCaller,
) -> (parts: Vec<SqlPart>)
    requires
        expression matches Some(condition) ==> database_only(*condition),
    ensures
        statement(parts@) == seq![PartView::Fragment(LISTING_BASE)] + level_parts(*scan)
            + start_parts(*scan) + condition_parts(expression, *caller) + order_parts(*scan),
{
    let mut parts: Vec<SqlPart> = Vec::new();
    put_fragment(&mut parts, LISTING_BASE);
    assert(statement(parts@) =~= seq![PartView::Fragment(LISTING_BASE)]);
    push_scan(&mut parts, scan);
    let ghost scanned = statement(parts@);
    if let Some(condition) = expression {
        put_fragment(&mut parts, " AND ");
        push_expression(&mut parts, condition, caller);
    }
    assert(statement(parts@) =~= scanned + condition_parts(expression, *caller));
    let ghost filtered = statement(parts@);
    let order = match scan.order {
        SortOrder::Newest => " ORDER BY entry.updated_at DESC, entry.entry_id DESC LIMIT ",
        SortOrder::Oldest => " ORDER BY entry.updated_at ASC, entry.entry_id ASC LIMIT ",
    };
    put_fragment(&mut parts, order);
    put(&mut parts, SqlPart::Integer(scan.rows));
    assert(statement(parts@) =~= filtered + order_parts(*scan));
    parts
}

} // verus!
