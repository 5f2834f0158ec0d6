//! Access by link, audit logs and what anyone with a link may see.

use vstd::prelude::*;

use crate::error::{conflict, map_sql, map_sql_spec, repo_error, sql_failure, validation, AppError};
use crate::ids::{parse_id, parsed_id};
use crate::json::Json;
use crate::model::{
    AuthorizableEntry, Capability, IdempotencyClaim, OrganizationRole, SystemEntryKind,
};
use crate::postgres::metadata::common::{entry_change, ChangeRecord, Detail, DetailValue};
use crate::postgres::metadata::entries::deref_entry;
use crate::postgres::metadata::listing::{kept_rows, page_length};
use crate::text::{begins_with, clone_optional_text, same_text};

verus! {

/// How a sharing operation reports an error of the database driver.
pub fn db(error: sqlx::Error) -> (mapped: AppError)
    ensures
        mapped == (AppError::Repository { error: map_sql_spec(sql_failure(error)) }),
{
    repo_error(map_sql(error))
}

/// Access to an entry by link.
#[derive(Clone, Copy, Debug, PartialEq, Eq, Structural)]
pub struct LinkAccess {
    /// Whether the caller may change it.
    pub can_manage: bool,
    /// Whether the entry's own link is live.
    pub enabled: bool,
    /// Whether any link reaches the entry.
    pub effective: bool,
    /// Nearest folder above whose link reaches the entry.
    pub inherited_from: Option<u128>,
    /// End of the entry's own expiring link.
    pub expires_at: Option<i128>,
}

/// The entry's own link as stored.
#[derive(Clone, Copy, Debug, PartialEq, Eq, Structural)]
pub struct LinkState {
    /// Whether the link was enabled.
    pub public: bool,
    /// End of an expiring link.
    pub expires_at: Option<i128>,
}

impl LinkState {
    /// Whether the link is live at a time.
    pub open spec fn live(self, now: i128) -> bool {
        self.public && (self.expires_at matches Some(end) ==> end > now)
    }
}

/// Whether an entry is a reserved folder that administrators may share by link.
pub open spec fn is_shareable_root(entry: AuthorizableEntry) -> bool {
    entry.system_kind == Some(SystemEntryKind::PublicContainer) || entry.system_kind == Some(
        SystemEntryKind::TagRoot,
    )
}

/// Whether an entry is a reserved folder that administrators may share by link.
fn shareable_root(entry: &AuthorizableEntry) -> (answer: bool)
    ensures
        answer == is_shareable_root(*entry),
{
    match entry.system_kind {
        Some(SystemEntryKind::PublicContainer) | Some(SystemEntryKind::TagRoot) => true,
        _ => false,
    }
}

/// Whether a caller may manage access by link.
pub open spec fn manages_link(entry: AuthorizableEntry, role: OrganizationRole) -> bool {
    (!entry.reserved && entry.access.manage_permissions) || (is_shareable_root(entry)
        && role.administers())
}

/// Whether a caller may manage access by link; whoever does not see the entry
/// itself is told it does not exist.
pub fn link_access(entry: Option<&AuthorizableEntry>, role: OrganizationRole) -> (can_manage: Result<
    bool,
    AppError,
>)
    ensures
        can_manage == match entry {
            None => Err::<bool, AppError>(AppError::NotFound),
            Some(found) => if !found.access.fully_visible {
                Err::<bool, AppError>(AppError::NotFound)
            } else {
                Ok::<bool, AppError>(manages_link(*found, role))
            },
        },
{
    let found = match entry {
        Some(found) => found,
        None => {
            return Err(AppError::NotFound);
        },
    };
    if !found.access.fully_visible {
        return Err(AppError::NotFound);
    }
    Ok(
        (!found.reserved && found.access.allows(Capability::ManagePermissions)) || (shareable_root(
            found,
        ) && role.has_administrative_access()),
    )
}

/// Access by link as it is at a time. An expired link is no longer enabled.
pub fn read_link(
    can_manage: bool,
    state: LinkState,
    inherited_from: Option<u128>,
    now: i128,
) -> (access: LinkAccess)
    ensures
        access.can_manage == can_manage,
        access.enabled == state.live(now),
        access.effective == (state.live(now) || inherited_from is Some),
        access.inherited_from == inherited_from,
        access.expires_at == if state.live(now) {
            state.expires_at
        } else {
            None
        },
{
    let enabled = state.public && match state.expires_at {
        Some(end) => end > now,
        None => true,
    };
    LinkAccess {
        can_manage,
        enabled,
        effective: enabled || inherited_from.is_some(),
        inherited_from,
        expires_at: if enabled {
            state.expires_at
        } else {
            None
        },
    }
}

/// Everything that changing access by link writes.
#[derive(Clone, Debug)]
pub struct LinkPlan {
    /// Whether the link is enabled.
    pub enabled: bool,
    /// Minutes that an expiring link lasts.
    pub lifetime_minutes: Option<u32>,
    /// The change.
    pub change: ChangeRecord,
}

/// The first reason why access by link is not changed.
pub open spec fn link_refusal(
    entry: Option<AuthorizableEntry>,
    role: OrganizationRole,
) -> Option<AppError> {
    match entry {
        None => Some(AppError::NotFound),
        Some(found) => if !found.access.fully_visible {
            Some(AppError::NotFound)
        } else if found.reserved && !is_shareable_root(found) {
            Some(AppError::Validation { code: "protected_folder" })
        } else if !found.access.manage_permissions && !(is_shareable_root(found)
            && role.administers()) {
            Some(AppError::Forbidden)
        } else {
            None
        },
    }
}

/// Refuses a caller that may not change access by link.
pub fn check_link_change(entry: Option<&AuthorizableEntry>, role: OrganizationRole) -> (result:
    Result<(), AppError>)
    ensures
        match link_refusal(deref_entry(entry), role) {
            Some(error) => result == Err::<(), AppError>(error),
            None => result == Ok::<(), AppError>(()),
        },
{
    let found = match entry {
        Some(found) => found,
        None => {
            return Err(AppError::NotFound);
        },
    };
    if !found.access.fully_visible {
        return Err(AppError::NotFound);
    }
    let root = shareable_root(found);
    if found.reserved && !root {
        return Err(validation("protected_folder"));
    }
    if !found.access.allows(Capability::ManagePermissions) && !(root
        && role.has_administrative_access()) {
        return Err(AppError::Forbidden);
    }
    Ok(())
}

/// Whether a change would shorten a permanent link to an expiring one.
pub open spec fn shortens_permanent(
    enabled: bool,
    lifetime_minutes: Option<u32>,
    state: LinkState,
) -> bool {
    enabled && lifetime_minutes is Some && state.public && state.expires_at is None
}

/// The name of the change that access by link makes.
pub open spec fn link_action(enabled: bool, lifetime_minutes: Option<u32>) -> &'static str {
    if enabled && lifetime_minutes is Some {
        "entry.expiring_link_enabled.v1"
    } else {
        "entry.link_access_changed.v1"
    }
}

/// Decides whether access by link changes, and everything that writes; nothing
/// where it was changed before.
pub fn set_link_access(
    id: u128,
    entry: Option<&AuthorizableEntry>,
    role: OrganizationRole,
    enabled: bool,
    lifetime_minutes: Option<u32>,
    state: LinkState,
    claim: IdempotencyClaim,
) -> (plan: Result<Option<LinkPlan>, AppError>)
    ensures
        match link_refusal(deref_entry(entry), role) {
            Some(error) => plan == Err::<Option<LinkPlan>, AppError>(error),
            None => match claim {
                IdempotencyClaim::Replay(_) => plan == Ok::<Option<LinkPlan>, AppError>(None),
                IdempotencyClaim::Acquired(_) => if shortens_permanent(
                    enabled,
                    lifetime_minutes,
                    state,
                ) {
                    plan == Err::<Option<LinkPlan>, AppError>(
                        AppError::Conflict { code: "link_is_permanent" },
                    )
                } else {
                    plan matches Ok(Some(made)) && made.enabled == enabled && made.lifetime_minutes
                        == (if enabled {
                        lifetime_minutes
                    } else {
                        None
                    }) && made.change.is_entry_change(
                        id,
                        link_action(enabled, lifetime_minutes),
                        seq![Detail { key: "enabled", value: DetailValue::Bool(enabled) }],
                    )
                },
            },
        },
{
    match check_link_change(entry, role) {
        Ok(()) => {},
        Err(error) => {
            return Err(error);
        },
    }
    if let IdempotencyClaim::Replay(_) = claim {
        return Ok(None);
    }
    if enabled && lifetime_minutes.is_some() && state.public && state.expires_at.is_none() {
        return Err(conflict("link_is_permanent"));
    }
    let action = if enabled && lifetime_minutes.is_some() {
        "entry.expiring_link_enabled.v1"
    } else {
        "entry.link_access_changed.v1"
    };
    let payload: Vec<Detail> = vec![Detail { key: "enabled", value: DetailValue::Bool(enabled) }];
    assert(payload@ =~= seq![Detail { key: "enabled", value: DetailValue::Bool(enabled) }]);
    Ok(
        Some(
            LinkPlan {
                enabled,
                lifetime_minutes: if enabled {
                    lifetime_minutes
                } else {
                    None
                },
                change: entry_change(id, action, payload),
            },
        ),
    )
}

/// A link that was enabled for a while is not effective by itself once that
/// while is over.
pub proof fn law_expired_links_are_closed(state: LinkState, now: i128)
    requires
        state.expires_at matches Some(end) && end <= now,
    ensures
        !state.live(now),
{
}

/// One event of an audit log.
#[derive(Clone, Debug)]
pub struct LogEvent {
    /// Event identifier.
    pub id: u128,
    /// Kind of the actor.
    pub actor_type: String,
    /// Identifier of the actor.
    pub actor_id: String,
    /// Application that the actor used.
    pub app_id: Option<String>,
    /// Name of the change.
    pub action: String,
    /// Details of the change, as text.
    pub metadata: String,
    /// When it happened.
    pub occurred_at: i128,
}

impl LogEvent {
    /// A copy of the event.
    pub fn duplicate(&self) -> (copy: LogEvent)
        ensures
            copy == *self,
    {
        LogEvent {
            id: self.id,
            actor_type: self.actor_type.clone(),
            actor_id: self.actor_id.clone(),
            app_id: clone_optional_text(&self.app_id),
            action: self.action.clone(),
            metadata: self.metadata.clone(),
            occurred_at: self.occurred_at,
        }
    }

    /// Whether the event is about an entry below the logged one.
    pub open spec fn is_of_child(self) -> bool {
        "child."@.is_prefix_of(self.action@)
    }
}

/// Refuses a log to whoever may not read its entry, and a cursor that names no
/// event of it.
pub fn check_log(
    entry: Option<&AuthorizableEntry>,
    cursor: Option<u128>,
    cursor_time: Option<i128>,
) -> (result: Result<(), AppError>)
    ensures
        result == match entry {
            None => Err::<(), AppError>(AppError::NotFound),
            Some(found) => if !found.access.read {
                Err::<(), AppError>(AppError::NotFound)
            } else if cursor is Some && cursor_time is None {
                Err::<(), AppError>(AppError::BadRequest { code: "invalid_cursor" })
            } else {
                Ok::<(), AppError>(())
            },
        },
{
    let found = match entry {
        Some(found) => found,
        None => {
            return Err(AppError::NotFound);
        },
    };
    if !found.access.allows(Capability::Read) {
        return Err(AppError::NotFound);
    }
    if cursor.is_some() && cursor_time.is_none() {
        return Err(AppError::BadRequest { code: "invalid_cursor" });
    }
    Ok(())
}

/// The entry below that an event's details name.
pub open spec fn logged_child_of(metadata: Json) -> Option<u128> {
    match metadata.text_member("entry_id"@) {
        Some(text) => parsed_id(text),
        None => None,
    }
}

/// The entry below that an event's details name.
pub fn logged_child(metadata: &Json) -> (child: Option<u128>)
    ensures
        child == logged_child_of(*metadata),
{
    match metadata.get_text("entry_id") {
        Some(text) => parse_id(text),
        None => None,
    }
}

/// Whether an event below is shown: its entry is still there and the caller may
/// read it.
pub fn child_is_visible(child: Option<&AuthorizableEntry>) -> (visible: bool)
    ensures
        visible == (child matches Some(found) && found.access.read),
{
    match child {
        Some(found) => found.access.allows(Capability::Read),
        None => false,
    }
}

/// Whether an event of a page is shown.
pub open spec fn event_shown(event: LogEvent, child_visible: bool, manages: bool) -> bool {
    !event.is_of_child() || manages || child_visible
}

/// The events of a page that are shown, in order.
pub open spec fn shown_events(
    events: Seq<LogEvent>,
    child_visible: Seq<bool>,
    manages: bool,
) -> Seq<LogEvent>
    decreases events.len(),
{
    if events.len() == 0 {
        Seq::empty()
    } else {
        let earlier = shown_events(events.drop_last(), child_visible, manages);
        if event_shown(events.last(), child_visible[events.len() - 1], manages) {
            earlier.push(events.last())
        } else {
            earlier
        }
    }
}

/// One page of a log.
#[derive(Clone, Debug)]
pub struct LogPage {
    /// The events.
    pub items: Vec<LogEvent>,
    /// Event after which the next page starts.
    pub next_cursor: Option<u128>,
}

/// One page of a log. The cursor goes by what was read, so events that are not
/// shown never end a log early. `child_visible` says of each event whether the
/// entry below that it names is visible.
pub fn logs(
    rows: &Vec<LogEvent>,
    child_visible: &Vec<bool>,
    manages: bool,
    limit: u16,
) -> (page: LogPage)
    requires
        child_visible@.len() == rows@.len(),
    ensures
        ({
            let kept = rows@.take(kept_rows(rows@.len(), limit as nat) as int);
            page.items@ == shown_events(kept, child_visible@, manages) && page.next_cursor
                == if rows@.len() > limit && kept.len() > 0 {
                Some(kept.last().id)
            } else {
                None
            }
        }),
{
    let size: usize = limit as usize;
    let length: usize = page_length(rows.len(), size);
    let mut items: Vec<LogEvent> = Vec::new();
    let mut index: usize = 0;
    assert(rows@.take(0) =~= Seq::<LogEvent>::empty());
    while index < length
        invariant
            index <= length <= rows@.len(),
            child_visible@.len() == rows@.len(),
            items@ == shown_events(rows@.take(index as int), child_visible@, manages),
        decreases length - index,
    {
        let row = &rows[index];
        assert(rows@.take(index + 1).drop_last() =~= rows@.take(index as int));
        assert(rows@.take(index + 1).last() == *row);
        if !begins_with(row.action.as_str(), "child.") || manages || child_visible[index] {
            items.push(row.duplicate());
        }
        index += 1;
    }
    let next_cursor = if rows.len() > size && length > 0 {
        Some(rows[length - 1].id)
    } else {
        None
    };
    LogPage { items, next_cursor }
}

/// Nobody learns from a log of an entry below that they may not read, unless
/// they manage the logged entry.
pub proof fn law_logs_show_only_visible_children(
    events: Seq<LogEvent>,
    child_visible: Seq<bool>,
    position: int,
)
    requires
        0 <= position < shown_events(events, child_visible, false).len(),
        child_visible.len() >= events.len(),
    ensures
        exists|k: int|
            0 <= k < events.len() && events[k] == shown_events(
                events,
                child_visible,
                false,
            )[position] && (#[trigger] events[k].is_of_child() ==> child_visible[k]),
    decreases events.len(),
{
    let earlier = shown_events(events.drop_last(), child_visible, false);
    if position < earlier.len() {
        law_logs_show_only_visible_children(events.drop_last(), child_visible, position);
        let k = choose|k: int|
            0 <= k < events.drop_last().len() && events.drop_last()[k] == earlier[position] && (
            #[trigger] events.drop_last()[k].is_of_child() ==> child_visible[k]);
        assert(events[k] == events.drop_last()[k]);
        assert(events[k].is_of_child() ==> child_visible[k]);
    } else {
        let k = events.len() - 1;
        assert(events[k].is_of_child() ==> child_visible[k]);
    }
}

/// One entry as anyone with a link sees it.
#[derive(Clone, Debug)]
pub struct PublicEntry {
    /// Entry identifier.
    pub id: u128,
    /// Name.
    pub name: String,
    /// Path.
    pub path: String,
    /// Kind.
    pub entry_type: String,
    /// Media type.
    pub content_type: Option<String>,
    /// Size in bytes.
    pub size: Option<i64>,
}

/// The entry that a link leads to.
pub fn public_entry(row: Option<PublicEntry>) -> (entry: Result<PublicEntry, AppError>)
    ensures
        entry == match row {
            Some(found) => Ok::<PublicEntry, AppError>(found),
            None => Err::<PublicEntry, AppError>(AppError::NotFound),
        },
{
    match row {
        Some(found) => Ok(found),
        None => Err(AppError::NotFound),
    }
}

/// Entries that a page of a public folder shows.
pub const PUBLIC_PAGE: usize = 100;

/// One page of a public folder.
#[derive(Clone, Debug)]
pub struct PublicPage {
    /// The entries.
    pub items: Vec<PublicEntry>,
    /// Entry after which the next page starts.
    pub next_cursor: Option<u128>,
}

/// One page of a public folder; only a folder has one.
pub fn public_children(root: Option<PublicEntry>, rows: Vec<PublicEntry>) -> (page: Result<
    PublicPage,
    AppError,
>)
    ensures
        match root {
            None => page == Err::<PublicPage, AppError>(AppError::NotFound),
            Some(folder) => if folder.entry_type@ != "folder"@ {
                page == Err::<PublicPage, AppError>(AppError::NotFound)
            } else {
                page matches Ok(made) && made.items@ == rows@.take(
                    kept_rows(rows@.len(), PUBLIC_PAGE as nat) as int,
                ) && made.next_cursor == if rows@.len() > PUBLIC_PAGE {
                    Some(rows@[PUBLIC_PAGE - 1].id)
                } else {
                    None
                }
            },
        },
{
    match public_entry(root) {
        Ok(folder) => {
            if !same_text(folder.entry_type.as_str(), "folder") {
                return Err(AppError::NotFound);
            }
        },
        Err(error) => {
            return Err(error);
        },
    }
    let mut items = rows;
    let next_cursor = if items.len() > PUBLIC_PAGE {
        Some(items[PUBLIC_PAGE - 1].id)
    } else {
        None
    };
    items.truncate(PUBLIC_PAGE);
    proof {
        if rows@.len() <= PUBLIC_PAGE {
            assert(rows@.take(rows@.len() as int) =~= rows@);
        }
        assert(items@ =~= rows@.take(kept_rows(rows@.len(), PUBLIC_PAGE as nat) as int));
    }
    Ok(PublicPage { items, next_cursor })
}

} // verus!
