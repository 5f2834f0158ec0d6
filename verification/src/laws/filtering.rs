//! What filters and listings ask the database for.

use vstd::prelude::*;

use crate::model::{ActorKind, EntryKind};
use crate::postgres::metadata::filter::{
    all_database_only, condition_parts, database_only, database_predicates, expression_parts,
    extension_parts, extensions_of, group_parts, level_parts, listed_predicates, media_parts,
    order_parts, patterns_of, predicate_parts, prefixes_of, projected_parts, separated_parts,
    start_parts, statement, texts_of, ActorSelector, FilterCaller, FilterExpression,
    FilterPredicate, ListingScan, PartView, RenderKind, RenderTerms, SortOrder, SqlPart,
    ACCESSIBLE_BY, ACCESSIBLE_TO, CONTENT_MATCH, CONTENT_MATCH_END, ESCAPE, EXPIRING_GRANTED,
    EXPIRING_MANAGED, EXPIRING_TAG_MANAGED, EXTENSION, LISTING_BASE, SELF_DESTRUCT, SHARED_WITH,
};

verus! {

/// A statement says its pieces in order, each as what it is: fixed text stays
/// text, and a value stays a value.
pub proof fn law_statements_say_their_pieces(
    parts: Seq<SqlPart>,
    position: int,
    text: String,
    texts: Vec<String>,
)
    requires
        0 <= position < parts.len(),
    ensures
        statement(parts).len() == parts.len(),
        parts[position] matches SqlPart::Fragment(fixed) ==> statement(parts)[position]
            == PartView::Fragment(fixed),
        parts[position] matches SqlPart::Text(bound) ==> statement(parts)[position]
            == PartView::Text(bound@),
        parts[position] matches SqlPart::Id(id) ==> statement(parts)[position] == PartView::Id(id),
        parts[position] matches SqlPart::Bool(flag) ==> statement(parts)[position]
            == PartView::Bool(flag),
        parts[position] matches SqlPart::Word(word) ==> statement(parts)[position]
            == PartView::Word(word),
        parts[position] matches SqlPart::Integer(number) ==> statement(parts)[position]
            == PartView::Integer(number),
        parts[position] matches SqlPart::Instant(at) ==> statement(parts)[position]
            == PartView::Instant(at),
        parts[position] matches SqlPart::Day(day) ==> statement(parts)[position] == PartView::Day(
            day,
        ),
        SqlPart::Texts(texts)@ == PartView::Texts(texts_of(texts@)),
{
}

/// Alternatives are joined by OR: the statement of one more alternative is the
/// statement of the others with OR and it before the closing bracket.
pub proof fn law_alternatives_are_joined_by_or(
    children: Vec<FilterExpression>,
    more: Vec<FilterExpression>,
    last: FilterExpression,
    caller: FilterCaller,
)
    requires
        more@ == children@.push(last),
    ensures
        children@.len() > 0 ==> expression_parts(FilterExpression::Any(more), caller)
            == expression_parts(FilterExpression::Any(children), caller).drop_last() + seq![
            PartView::Fragment(" OR "),
        ] + expression_parts(last, caller) + seq![PartView::Fragment(")")],
        children@.len() == 0 ==> expression_parts(FilterExpression::Any(more), caller) == seq![
            PartView::Fragment("("),
        ] + expression_parts(last, caller) + seq![PartView::Fragment(")")],
        children@.len() == 0 ==> expression_parts(FilterExpression::Any(children), caller) == seq![
            PartView::Fragment("TRUE"),
        ],
{
    reveal_with_fuel(expression_parts, 3);
    reveal_with_fuel(group_parts, 3);
    reveal_with_fuel(separated_parts, 3);
    assert(more@.drop_last() =~= children@);
    assert(more@.last() == last);
    if children@.len() == 1 {
        assert(more@.drop_last()[0] == children@[0]);
    }
    if children@.len() > 0 {
        assert(expression_parts(FilterExpression::Any(more), caller) =~= expression_parts(
            FilterExpression::Any(children),
            caller,
        ).drop_last() + seq![PartView::Fragment(" OR ")] + expression_parts(last, caller) + seq![
            PartView::Fragment(")"),
        ]);
    }
}

/// Requirements are joined by AND, in the same way.
pub proof fn law_requirements_are_joined_by_and(
    children: Vec<FilterExpression>,
    more: Vec<FilterExpression>,
    last: FilterExpression,
    caller: FilterCaller,
)
    requires
        more@ == children@.push(last),
    ensures
        children@.len() > 0 ==> expression_parts(FilterExpression::All(more), caller)
            == expression_parts(FilterExpression::All(children), caller).drop_last() + seq![
            PartView::Fragment(" AND "),
        ] + expression_parts(last, caller) + seq![PartView::Fragment(")")],
        children@.len() == 0 ==> expression_parts(FilterExpression::All(more), caller) == seq![
            PartView::Fragment("("),
        ] + expression_parts(last, caller) + seq![PartView::Fragment(")")],
        children@.len() == 0 ==> expression_parts(FilterExpression::All(children), caller) == seq![
            PartView::Fragment("TRUE"),
        ],
{
    reveal_with_fuel(expression_parts, 3);
    reveal_with_fuel(group_parts, 3);
    reveal_with_fuel(separated_parts, 3);
    assert(more@.drop_last() =~= children@);
    assert(more@.last() == last);
    if children@.len() == 1 {
        assert(more@.drop_last()[0] == children@[0]);
    }
    if children@.len() > 0 {
        assert(expression_parts(FilterExpression::All(more), caller) =~= expression_parts(
            FilterExpression::All(children),
            caller,
        ).drop_last() + seq![PartView::Fragment(" AND ")] + expression_parts(last, caller) + seq![
            PartView::Fragment(")"),
        ]);
    }
}

/// A negation holds where what is behind it does not, and nothing but the
/// condition itself stands for a condition.
pub proof fn law_negations_negate(
    inner: Box<FilterExpression>,
    predicate: FilterPredicate,
    caller: FilterCaller,
)
    ensures
        expression_parts(FilterExpression::Not(inner), caller) == seq![PartView::Fragment("NOT (")]
            + expression_parts(*inner, caller) + seq![PartView::Fragment(")")],
        expression_parts(FilterExpression::Predicate(predicate), caller) == predicate_parts(
            predicate,
            caller,
        ),
        database_only(FilterExpression::Not(inner)) <==> database_only(*inner),
        database_only(FilterExpression::Predicate(predicate)) <==> predicate !is HasPermission,
{
}

/// The database evaluates an expression alone exactly where it evaluates each
/// part alone.
pub proof fn law_the_database_evaluates_all_or_nothing(
    children: Vec<FilterExpression>,
    more: Vec<FilterExpression>,
    last: FilterExpression,
)
    requires
        more@ == children@.push(last),
    ensures
        database_only(FilterExpression::All(more)) <==> database_only(
            FilterExpression::All(children),
        ) && database_only(last),
        database_only(FilterExpression::Any(more)) <==> database_only(
            FilterExpression::Any(children),
        ) && database_only(last),
        children@.len() == 0 ==> database_only(FilterExpression::All(children)) && database_only(
            FilterExpression::Any(children),
        ),
{
    reveal_with_fuel(database_only, 3);
    reveal_with_fuel(all_database_only, 3);
    assert(more@.drop_last() =~= children@);
}

/// Days are compared as UTC days: a later day lies at or behind its midnight, an
/// earlier one before it, and a range ends with its last day.
pub proof fn law_days_are_utc_days(day: i64, end: i64, caller: FilterCaller)
    ensures
        predicate_parts(FilterPredicate::ChangedAfter(day), caller) == seq![
            PartView::Fragment("entry.updated_at >= "),
            PartView::Fragment("(("),
            PartView::Day(day),
            PartView::Fragment(")::date AT TIME ZONE 'UTC')"),
        ],
        predicate_parts(FilterPredicate::ChangedBefore(day), caller) == seq![
            PartView::Fragment("entry.updated_at < "),
            PartView::Fragment("(("),
            PartView::Day(day),
            PartView::Fragment(")::date AT TIME ZONE 'UTC')"),
        ],
        predicate_parts(FilterPredicate::ChangedBetween(day, end), caller) == seq![
            PartView::Fragment("(entry.updated_at >= "),
            PartView::Fragment("(("),
            PartView::Day(day),
            PartView::Fragment(")::date AT TIME ZONE 'UTC')"),
            PartView::Fragment(" AND entry.updated_at < "),
            PartView::Fragment("(("),
            PartView::Day(end),
            PartView::Fragment(")::date AT TIME ZONE 'UTC')"),
            PartView::Fragment(" + interval '1 day')"),
        ],
{
    assert(predicate_parts(FilterPredicate::ChangedAfter(day), caller) =~= seq![
        PartView::Fragment("entry.updated_at >= "),
        PartView::Fragment("(("),
        PartView::Day(day),
        PartView::Fragment(")::date AT TIME ZONE 'UTC')"),
    ]);
    assert(predicate_parts(FilterPredicate::ChangedBefore(day), caller) =~= seq![
        PartView::Fragment("entry.updated_at < "),
        PartView::Fragment("(("),
        PartView::Day(day),
        PartView::Fragment(")::date AT TIME ZONE 'UTC')"),
    ]);
    assert(predicate_parts(FilterPredicate::ChangedBetween(day, end), caller) =~= seq![
        PartView::Fragment("(entry.updated_at >= "),
        PartView::Fragment("(("),
        PartView::Day(day),
        PartView::Fragment(")::date AT TIME ZONE 'UTC')"),
        PartView::Fragment(" AND entry.updated_at < "),
        PartView::Fragment("(("),
        PartView::Day(end),
        PartView::Fragment(")::date AT TIME ZONE 'UTC')"),
        PartView::Fragment(" + interval '1 day')"),
    ]);
}

/// A member is named by identifier, and by kind too where the filter names it.
pub proof fn law_members_are_filtered_by_identifier(
    selector: ActorSelector,
    caller: FilterCaller,
)
    ensures
        predicate_parts(FilterPredicate::CreatedBy(selector), caller)[0] == PartView::Fragment(
            "(entry.created_by_id = ",
        ),
        predicate_parts(FilterPredicate::CreatedBy(selector), caller)[1] == PartView::Text(
            selector.id@,
        ),
        predicate_parts(FilterPredicate::SharedWith(selector), caller)[0] == PartView::Fragment(
            SHARED_WITH,
        ),
        predicate_parts(FilterPredicate::SharedWith(selector), caller)[1] == PartView::Text(
            selector.id@,
        ),
        predicate_parts(FilterPredicate::AccessibleTo(selector), caller)[0] == PartView::Fragment(
            ACCESSIBLE_TO,
        ),
        predicate_parts(FilterPredicate::AccessibleTo(selector), caller)[1] == PartView::Text(
            selector.id@,
        ),
        selector.kind is None ==> predicate_parts(FilterPredicate::CreatedBy(selector), caller)
            == seq![
            PartView::Fragment("(entry.created_by_id = "),
            PartView::Text(selector.id@),
            PartView::Fragment(")"),
        ],
        selector.kind is None ==> predicate_parts(
            FilterPredicate::AccessibleTo(selector),
            caller,
        ).subrange(2, 5) == seq![
            PartView::Fragment(ACCESSIBLE_BY),
            PartView::OwnedAncestor,
            PartView::Fragment("))"),
        ],
        selector.kind matches Some(kind) ==> {
            let word = PartView::Word(
                if kind == ActorKind::Carbon {
                    "carbon"
                } else {
                    "silicon"
                },
            );
            &&& predicate_parts(FilterPredicate::CreatedBy(selector), caller).subrange(2, 6)
                == seq![
                PartView::Fragment(" AND "),
                PartView::Fragment("entry.created_by_type"),
                PartView::Fragment(" = "),
                word,
            ]
            &&& predicate_parts(FilterPredicate::SharedWith(selector), caller).subrange(2, 6)
                == seq![
                PartView::Fragment(" AND "),
                PartView::Fragment("shared_grant.principal_type"),
                PartView::Fragment(" = "),
                word,
            ]
            &&& predicate_parts(FilterPredicate::AccessibleTo(selector), caller).subrange(2, 6)
                == seq![
                PartView::Fragment(" AND "),
                PartView::Fragment("reader.actor_type"),
                PartView::Fragment(" = "),
                word,
            ]
        },
{
    let created = predicate_parts(FilterPredicate::CreatedBy(selector), caller);
    let shared = predicate_parts(FilterPredicate::SharedWith(selector), caller);
    let accessible = predicate_parts(FilterPredicate::AccessibleTo(selector), caller);
    match selector.kind {
        None => {
            assert(created =~= seq![
                PartView::Fragment("(entry.created_by_id = "),
                PartView::Text(selector.id@),
                PartView::Fragment(")"),
            ]);
            assert(accessible.subrange(2, 5) =~= seq![
                PartView::Fragment(ACCESSIBLE_BY),
                PartView::OwnedAncestor,
                PartView::Fragment("))"),
            ]);
        },
        Some(kind) => {
            let word = PartView::Word(
                if kind == ActorKind::Carbon {
                    "carbon"
                } else {
                    "silicon"
                },
            );
            assert(created.subrange(2, 6) =~= seq![
                PartView::Fragment(" AND "),
                PartView::Fragment("entry.created_by_type"),
                PartView::Fragment(" = "),
                word,
            ]);
            assert(shared.subrange(2, 6) =~= seq![
                PartView::Fragment(" AND "),
                PartView::Fragment("shared_grant.principal_type"),
                PartView::Fragment(" = "),
                word,
            ]);
            assert(accessible.subrange(2, 6) =~= seq![
                PartView::Fragment(" AND "),
                PartView::Fragment("reader.actor_type"),
                PartView::Fragment(" = "),
                word,
            ]);
        },
    }
}

/// Names and contents are matched by pattern; what contains a term matches by
/// its name or by its content.
pub proof fn law_terms_match_names_or_contents(pattern: String, caller: FilterCaller)
    ensures
        predicate_parts(FilterPredicate::NameMatches(pattern), caller) == seq![
            PartView::Fragment("entry.name ILIKE "),
            PartView::Text(pattern@),
            PartView::Fragment(ESCAPE),
        ],
        predicate_parts(FilterPredicate::HasContent(pattern), caller) == seq![
            PartView::Fragment(CONTENT_MATCH),
            PartView::Text(pattern@),
            PartView::Fragment(CONTENT_MATCH_END),
        ],
        predicate_parts(FilterPredicate::Contains(pattern), caller) == seq![PartView::Fragment("(")]
            + predicate_parts(FilterPredicate::NameMatches(pattern), caller) + seq![
            PartView::Fragment(" OR "),
        ] + predicate_parts(FilterPredicate::HasContent(pattern), caller) + seq![
            PartView::Fragment(")"),
        ],
        predicate_parts(FilterPredicate::InLocation(pattern), caller) == seq![
            PartView::Fragment("entry.path LIKE "),
            PartView::Text(pattern@),
            PartView::Fragment(ESCAPE),
        ],
        predicate_parts(FilterPredicate::HasExtension(pattern), caller) == seq![
            PartView::Fragment("(entry.entry_type = 'file' AND "),
            PartView::Fragment(EXTENSION),
            PartView::Fragment(" = "),
            PartView::Text(pattern@),
            PartView::Fragment(")"),
        ],
        predicate_parts(FilterPredicate::IsKind(EntryKind::File), caller) == seq![
            PartView::Fragment("entry.entry_type = "),
            PartView::Word("file"),
        ],
        predicate_parts(FilterPredicate::IsKind(EntryKind::Folder), caller) == seq![
            PartView::Fragment("entry.entry_type = "),
            PartView::Word("folder"),
        ],
        predicate_parts(FilterPredicate::IsSelfDestruct, caller) == seq![
            PartView::Fragment(SELF_DESTRUCT),
        ],
{
}

/// A live expiring share is the caller's who received it, and the caller's to
/// manage who owns the entry, administers, or granted the share.
pub proof fn law_expiring_shares_are_the_callers(caller: FilterCaller)
    ensures
        ({
            let parts = predicate_parts(FilterPredicate::IsExpiring, caller);
            &&& parts.len() == 19
            &&& parts[0] == PartView::Fragment(EXPIRING_GRANTED)
            &&& parts[2] == PartView::Fragment(" AND expiring_grant.principal_id = ")
            &&& parts[4] == PartView::Fragment(") OR ((entry.owner_type = ")
            &&& parts[6] == PartView::Fragment(" AND entry.owner_id = ")
            &&& parts[8] == PartView::Fragment(") OR ")
            &&& parts[9] == PartView::Bool(caller.administrator)
            &&& parts[10] == PartView::Fragment(EXPIRING_MANAGED)
            &&& parts[12] == PartView::Fragment(" AND granted_expiring.granted_by_id = ")
            &&& parts[14] == PartView::Fragment(EXPIRING_TAG_MANAGED)
            &&& parts[16] == PartView::Fragment(" AND granted_tag_expiring.granted_by_id = ")
            &&& parts[18] == PartView::Fragment("))")
            &&& parts[1] == PartView::Word(caller.kind) && parts[5] == PartView::Word(caller.kind)
                && parts[11] == PartView::Word(caller.kind) && parts[15] == PartView::Word(
                caller.kind,
            )
            &&& parts[3] == PartView::Text(caller.id@) && parts[7] == PartView::Text(caller.id@)
                && parts[13] == PartView::Text(caller.id@) && parts[17] == PartView::Text(
                caller.id@,
            )
        }),
{
}

/// The extensions and media types of every kind are asked for, in the order of
/// the kinds, and a media type is matched by its beginning.
pub proof fn law_every_kind_is_asked_for(
    kinds: Seq<RenderKind>,
    kind: RenderKind,
    prefixes: Seq<Seq<char>>,
    position: int,
)
    ensures
        extensions_of(Seq::empty()) == Seq::<Seq<char>>::empty(),
        prefixes_of(Seq::empty()) == Seq::<Seq<char>>::empty(),
        extensions_of(kinds.push(kind)) == extensions_of(kinds) + texts_of(kind.extensions@),
        prefixes_of(kinds.push(kind)) == prefixes_of(kinds) + texts_of(kind.media_type_prefixes@),
        patterns_of(prefixes).len() == prefixes.len(),
        0 <= position < prefixes.len() ==> patterns_of(prefixes)[position].drop_last()
            == prefixes[position] && patterns_of(prefixes)[position].last() == '%',
{
    assert(kinds.push(kind).drop_last() =~= kinds);
    if 0 <= position < prefixes.len() {
        assert(patterns_of(prefixes)[position].drop_last() =~= prefixes[position]);
    }
}

/// A file renders as a kind by its extension, or by its media type where no
/// known extension speaks; it renders as none where neither does.
pub proof fn law_extensions_speak_before_media_types(terms: RenderTerms, caller: FilterCaller)
    ensures
        ({
            let parts = predicate_parts(FilterPredicate::IsRender(terms), caller);
            let known = PartView::Texts(extensions_of(terms.all_kinds@));
            &&& terms.kind.unsupported ==> {
                &&& parts[0] == PartView::Fragment("(entry.entry_type = 'file' AND NOT (")
                &&& parts[2] == PartView::Fragment(EXTENSION)
                &&& parts[4] == known
                &&& parts[6] == PartView::Fragment(") AND NOT (")
                &&& prefixes_of(terms.all_kinds@).len() > 0 ==> parts[8] == PartView::Texts(
                    patterns_of(prefixes_of(terms.all_kinds@)),
                )
                &&& prefixes_of(terms.all_kinds@).len() == 0 ==> parts[7] == PartView::Fragment(
                    "false",
                )
                &&& parts.last() == PartView::Fragment("))")
            }
            &&& !terms.kind.unsupported ==> {
                &&& parts[0] == PartView::Fragment("(entry.entry_type = 'file' AND (")
                &&& parts[4] == PartView::Texts(texts_of(terms.kind.extensions@))
                &&& parts[6] == PartView::Fragment(" OR (NOT (")
                &&& parts[10] == known
                &&& parts[12] == PartView::Fragment(") AND ")
                &&& terms.kind.media_type_prefixes@.len() > 0 ==> parts[13] == PartView::Fragment(
                    "COALESCE(entry.content_type ILIKE ANY(",
                ) && parts[14] == PartView::Texts(
                    patterns_of(texts_of(terms.kind.media_type_prefixes@)),
                )
                &&& terms.kind.media_type_prefixes@.len() == 0 ==> parts[13] == PartView::Fragment(
                    "false",
                )
                &&& parts.last() == PartView::Fragment(")))")
            }
        }),
{
}

/// A listing shows one folder, or the top where no folder is named and nothing
/// is filtered for; a filter without a folder looks everywhere.
pub proof fn law_listings_scan_one_level(scan: ListingScan)
    ensures
        scan.parent_id matches Some(id) ==> level_parts(scan) == seq![
            PartView::Fragment(" AND entry.parent_id = "),
            PartView::Id(id),
        ],
        scan.parent_id is None && !scan.filtered ==> level_parts(scan) == seq![
            PartView::Fragment(" AND entry.parent_id IS NULL"),
        ],
        scan.parent_id is None && scan.filtered ==> level_parts(scan).len() == 0,
{
}

/// A page goes on behind the last entry of the page before it, in the order that
/// the listing has.
pub proof fn law_pages_go_on_in_order(scan: ListingScan)
    ensures
        scan.after is None ==> start_parts(scan).len() == 0,
        scan.after matches Some(after) ==> start_parts(scan) == seq![
            PartView::Fragment(" AND (entry.updated_at, entry.entry_id) "),
            PartView::Fragment(
                if scan.order == SortOrder::Newest {
                    "< ("
                } else {
                    "> ("
                },
            ),
            PartView::Instant(after.0),
            PartView::Fragment(", "),
            PartView::Id(after.1),
            PartView::Fragment(")"),
        ],
        scan.order == SortOrder::Newest ==> order_parts(scan) == seq![
            PartView::Fragment(" ORDER BY entry.updated_at DESC, entry.entry_id DESC LIMIT "),
            PartView::Integer(scan.rows),
        ],
        scan.order == SortOrder::Oldest ==> order_parts(scan) == seq![
            PartView::Fragment(" ORDER BY entry.updated_at ASC, entry.entry_id ASC LIMIT "),
            PartView::Integer(scan.rows),
        ],
{
}

/// A filter narrows a listing down.
pub proof fn law_filters_narrow_listings(
    expression: Option<&FilterExpression>,
    caller: FilterCaller,
)
    ensures
        expression is None ==> condition_parts(expression, caller).len() == 0,
        expression matches Some(condition) ==> condition_parts(expression, caller) == seq![
            PartView::Fragment(" AND "),
        ] + expression_parts(*condition, caller),
{
}

/// Every condition of an expression that the database evaluates is projected,
/// one truth value after the other.
pub proof fn law_conditions_are_projected_in_order(
    children: Vec<FilterExpression>,
    more: Vec<FilterExpression>,
    last: FilterExpression,
    inner: Box<FilterExpression>,
    predicates: Seq<FilterPredicate>,
    predicate: FilterPredicate,
    caller: FilterCaller,
)
    requires
        more@ == children@.push(last),
    ensures
        database_predicates(FilterExpression::Predicate(predicate)) == if predicate
            is HasPermission {
            Seq::empty()
        } else {
            seq![predicate]
        },
        database_predicates(FilterExpression::Not(inner)) == database_predicates(*inner),
        database_predicates(FilterExpression::All(more)) == database_predicates(
            FilterExpression::All(children),
        ) + database_predicates(last),
        database_predicates(FilterExpression::Any(more)) == database_predicates(
            FilterExpression::Any(children),
        ) + database_predicates(last),
        children@.len() == 0 ==> database_predicates(FilterExpression::All(children)).len() == 0
            && database_predicates(FilterExpression::Any(children)).len() == 0,
        predicates.len() > 0 ==> projected_parts(predicates.push(predicate), caller)
            == projected_parts(predicates, caller) + seq![
            PartView::Fragment(", "),
            PartView::Fragment("COALESCE(("),
        ] + predicate_parts(predicate, caller) + seq![PartView::Fragment("), FALSE)")],
        projected_parts(seq![predicate], caller) == seq![PartView::Fragment("COALESCE((")]
            + predicate_parts(predicate, caller) + seq![PartView::Fragment("), FALSE)")],
{
    reveal_with_fuel(database_predicates, 3);
    reveal_with_fuel(listed_predicates, 3);
    assert(more@.drop_last() =~= children@);
    assert(predicates.push(predicate).drop_last() =~= predicates);
    assert(seq![predicate].drop_last() =~= Seq::<FilterPredicate>::empty());
    assert(projected_parts(Seq::<FilterPredicate>::empty(), caller) =~= Seq::empty());
    if predicates.len() > 0 {
        assert(projected_parts(predicates.push(predicate), caller) =~= projected_parts(
            predicates,
            caller,
        ) + seq![PartView::Fragment(", "), PartView::Fragment("COALESCE((")] + predicate_parts(
            predicate,
            caller,
        ) + seq![PartView::Fragment("), FALSE)")]);
    }
    assert(projected_parts(seq![predicate], caller) =~= seq![PartView::Fragment("COALESCE((")]
        + predicate_parts(predicate, caller) + seq![PartView::Fragment("), FALSE)")]);
}

/// The fixed texts of statements: what is revoked, deleted or over is never
/// asked for, and everything stays inside the organization.
pub proof fn law_statements_stay_inside_the_organization()
    ensures
        EXTENSION == r"lower(substring(entry.name from '\.([^.]+)$'))",
        ESCAPE == r" ESCAPE '\'",
        CONTENT_MATCH == "EXISTS (SELECT 1 FROM briefcase.search_documents AS document WHERE document.org_id = entry.org_id AND document.entry_id = entry.entry_id AND document.extracted_content ILIKE ",
        CONTENT_MATCH_END == r" ESCAPE '\')",
        SHARED_WITH == "EXISTS (SELECT 1 FROM briefcase.entry_closure AS shared_path JOIN briefcase.effective_permission_grants AS shared_grant ON shared_grant.org_id = shared_path.org_id AND shared_grant.entry_id = shared_path.ancestor_id WHERE shared_path.org_id = entry.org_id AND shared_path.descendant_id = entry.entry_id AND shared_grant.revoked_at IS NULL AND (shared_path.depth = 0 OR shared_grant.inherits_to_descendants) AND shared_grant.principal_id = ",
        ACCESSIBLE_TO == "EXISTS (SELECT 1 FROM briefcase.organization_members AS reader WHERE reader.org_id = entry.org_id AND reader.membership_status = 'active' AND reader.actor_id = ",
        ACCESSIBLE_BY == " AND ( reader.org_role IN ('owner', 'admin') OR (entry.owner_type = reader.actor_type AND entry.owner_id = reader.actor_id) OR entry.root_type = 'public' OR (entry.root_type = 'tag' AND EXISTS ( SELECT 1 FROM briefcase.organization_member_tags AS reader_tag WHERE reader_tag.org_id = entry.org_id AND reader_tag.actor_type = reader.actor_type AND reader_tag.actor_id = reader.actor_id AND reader_tag.tag_id = entry.tag_id)) OR EXISTS ( SELECT 1 FROM briefcase.entry_closure AS reader_path JOIN briefcase.effective_permission_grants AS reader_grant ON reader_grant.org_id = reader_path.org_id AND reader_grant.entry_id = reader_path.ancestor_id WHERE reader_path.org_id = entry.org_id AND reader_path.descendant_id = entry.entry_id AND reader_grant.principal_type = reader.actor_type AND reader_grant.principal_id = reader.actor_id AND reader_grant.revoked_at IS NULL AND (reader_path.depth = 0 OR reader_grant.inherits_to_descendants)) OR ",
        EXPIRING_GRANTED == "(EXISTS (SELECT 1 FROM briefcase.entry_closure AS expiring_path JOIN briefcase.effective_permission_grants AS expiring_grant ON expiring_grant.org_id = expiring_path.org_id AND expiring_grant.entry_id = expiring_path.ancestor_id WHERE expiring_path.org_id = entry.org_id AND expiring_path.descendant_id = entry.entry_id AND expiring_grant.expires_at IS NOT NULL AND expiring_grant.revoked_at IS NULL AND (expiring_path.depth = 0 OR expiring_grant.inherits_to_descendants) AND expiring_grant.principal_type = ",
        EXPIRING_MANAGED == ") AND (entry.link_expires_at > clock_timestamp() OR EXISTS (SELECT 1 FROM briefcase.permission_grants AS own_expiring WHERE own_expiring.org_id = entry.org_id AND own_expiring.entry_id = entry.entry_id AND own_expiring.revoked_at IS NULL AND own_expiring.expires_at > clock_timestamp()) OR EXISTS (SELECT 1 FROM briefcase.tag_permission_grants AS own_tag_expiring WHERE own_tag_expiring.org_id = entry.org_id AND own_tag_expiring.entry_id = entry.entry_id AND own_tag_expiring.revoked_at IS NULL AND own_tag_expiring.expires_at > clock_timestamp())) OR EXISTS (SELECT 1 FROM briefcase.permission_grants AS granted_expiring WHERE granted_expiring.org_id = entry.org_id AND granted_expiring.entry_id = entry.entry_id AND granted_expiring.revoked_at IS NULL AND granted_expiring.expires_at > clock_timestamp() AND granted_expiring.granted_by_type = ",
        EXPIRING_TAG_MANAGED == ") OR EXISTS (SELECT 1 FROM briefcase.tag_permission_grants AS granted_tag_expiring WHERE granted_tag_expiring.org_id = entry.org_id AND granted_tag_expiring.entry_id = entry.entry_id AND granted_tag_expiring.revoked_at IS NULL AND granted_tag_expiring.expires_at > clock_timestamp() AND granted_tag_expiring.granted_by_type = ",
        SELF_DESTRUCT == "(entry.entry_type = 'file' AND entry.self_destruct_at IS NOT NULL AND entry.self_destruct_at > clock_timestamp())",
        LISTING_BASE == " FROM briefcase.entries AS entry WHERE entry.org_id = briefcase.current_org_id() AND entry.deleted_at IS NULL",
{
}

/// A file is asked for by its extension, which is one of those listed, and by its
/// media type, which starts like one of those listed; without any, none does.
pub proof fn law_kinds_are_asked_for_by_extension_and_media_type(
    extensions: Seq<Seq<char>>,
    prefixes: Seq<Seq<char>>,
)
    ensures
        extension_parts(extensions) == seq![
            PartView::Fragment("COALESCE("),
            PartView::Fragment(EXTENSION),
            PartView::Fragment(" = ANY("),
            PartView::Texts(extensions),
            PartView::Fragment("), false)"),
        ],
        prefixes.len() == 0 ==> media_parts(prefixes) == seq![PartView::Fragment("false")],
        prefixes.len() > 0 ==> media_parts(prefixes) == seq![
            PartView::Fragment("COALESCE(entry.content_type ILIKE ANY("),
            PartView::Texts(patterns_of(prefixes)),
            PartView::Fragment("), false)"),
        ],
{
}

} // verus!
