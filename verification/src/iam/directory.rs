//! Recipients read from the membership directory.

use vstd::prelude::*;

use crate::iam::official::{
    membership_tags, same_names, same_tags, tag_names, tags_error, AuthorizationTag,
};
use crate::iam::{binding_mismatch, invalid_response, IamClientError};
use crate::ids::Candidate;
use crate::model::{
    ActorKind, ActorRef, AuthenticationMode, IamMembershipBinding, OrganizationRole,
    RequestAuthContext,
};
use crate::text::{contains_text, same_text};

verus! {

/// Pages that one resolution reads at most.
pub const MAX_PAGES: usize = 100;

/// One member as the directory lists it.
#[derive(Clone, Debug)]
pub struct DirectoryMember {
    /// Membership identifier.
    pub id: u128,
    /// Organization of the membership.
    pub org_id: String,
    /// Principal identifier.
    pub principal_id: u128,
    /// Kind of the member, if it is one this service represents.
    pub kind: Option<ActorKind>,
    /// Public identifier, with the verdict of the member identifier rules.
    pub public_id: Candidate,
    /// Whether the membership is active.
    pub active: bool,
    /// Role, if it is one this service knows.
    pub org_role: Option<OrganizationRole>,
    /// Tags of the member.
    pub tags: Vec<AuthorizationTag>,
    /// Whether a removal time is recorded.
    pub removed: bool,
    /// Version of the membership.
    pub version: i64,
    /// Authorization epoch of the membership.
    pub authorization_epoch: i64,
}

impl DirectoryMember {
    /// The member as kind and identifier characters.
    pub open spec fn identity(self) -> (ActorKind, Seq<char>) {
        (self.kind->0, self.public_id.text@)
    }
}

/// The first requirement that a listed membership misses.
pub open spec fn directory_member_error(member: DirectoryMember) -> Option<IamClientError> {
    if !member.active || member.removed || member.id == 0 || member.principal_id == 0
        || member.version < 1 || member.authorization_epoch < 1 {
        Some(IamClientError::InvalidResponse { reason: "directory.membership" })
    } else if member.org_role is None {
        Some(IamClientError::InvalidResponse { reason: "directory.role" })
    } else {
        tags_error(member.tags@, "directory.tag", "directory.tag_name")
    }
}

/// Whether a context carries exactly the authority of a listed membership.
pub open spec fn context_of_member(
    context: RequestAuthContext,
    member: DirectoryMember,
    organization: Seq<char>,
    organization_id: u128,
) -> bool {
    &&& context.organization_id@ == organization
    &&& context.actor.identity() == member.identity()
    &&& Some(context.role) == member.org_role
    &&& context.authentication == AuthenticationMode::Bearer
    &&& context.tags is Some
    &&& context.binding matches Some(binding) && {
        &&& binding.organization_id == organization_id
        &&& binding.principal_id == member.principal_id
        &&& binding.membership_id == member.id
        &&& binding.membership_version == member.version
        &&& binding.authorization_epoch == member.authorization_epoch
        &&& binding.tags is Some
        &&& same_tags(binding.tags->0@, member.tags@)
        &&& same_names(context.tags->0@, binding.tags->0@)
    }
}

/// Builds the authority of one listed membership.
pub fn directory_member(
    member: &DirectoryMember,
    actor: ActorRef,
    organization: &str,
    organization_id: u128,
) -> (context: Result<RequestAuthContext, IamClientError>)
    requires
        actor.identity() == member.identity(),
    ensures
        match directory_member_error(*member) {
            Some(error) => context == Err::<RequestAuthContext, IamClientError>(error),
            None => context matches Ok(made) && context_of_member(
                made,
                *member,
                organization@,
                organization_id,
            ),
        },
{
    if !member.active || member.removed || member.id == 0 || member.principal_id == 0
        || member.version < 1 || member.authorization_epoch < 1 {
        return Err(invalid_response("directory.membership"));
    }
    let role = match member.org_role {
        Some(role) => role,
        None => {
            return Err(invalid_response("directory.role"));
        },
    };
    let tags = match membership_tags(&member.tags, "directory.tag", "directory.tag_name") {
        Ok(tags) => tags,
        Err(error) => {
            return Err(error);
        },
    };
    let names = tag_names(&tags);
    Ok(
        RequestAuthContext {
            organization_id: organization.to_owned(),
            actor,
            role,
            tags: Some(names),
            authentication: AuthenticationMode::Bearer,
            binding: Some(
                IamMembershipBinding {
                    organization_id,
                    principal_id: member.principal_id,
                    membership_id: member.id,
                    membership_version: member.version,
                    authorization_epoch: member.authorization_epoch,
                    tags: Some(tags),
                },
            ),
        },
    )
}

/// Whether a list names a member.
pub open spec fn names_actor(actors: Seq<ActorRef>, identity: (ActorKind, Seq<char>)) -> bool {
    exists|k: int| 0 <= k < actors.len() && (#[trigger] actors[k]).identity() == identity
}

/// Whether a list names a member.
pub fn contains_actor(actors: &Vec<ActorRef>, actor: &ActorRef) -> (found: bool)
    ensures
        found == names_actor(actors@, actor.identity()),
{
    let mut index: usize = 0;
    while index < actors.len()
        invariant
            index <= actors@.len(),
            forall|k: int|
                0 <= k < index ==> (#[trigger] actors@[k]).identity() != actor.identity(),
        decreases actors@.len() - index,
    {
        if actors[index].same_actor(actor) {
            return true;
        }
        index += 1;
    }
    false
}

/// Whether a member was found already.
pub open spec fn found_actor(
    found: Seq<RequestAuthContext>,
    identity: (ActorKind, Seq<char>),
) -> bool {
    exists|k: int| 0 <= k < found.len() && (#[trigger] found[k]).actor.identity() == identity
}

/// Whether a member was found already.
fn was_found(found: &Vec<RequestAuthContext>, actor: &ActorRef) -> (answer: bool)
    ensures
        answer == found_actor(found@, actor.identity()),
{
    let mut index: usize = 0;
    while index < found.len()
        invariant
            index <= found@.len(),
            forall|k: int|
                0 <= k < index ==> (#[trigger] found@[k]).actor.identity() != actor.identity(),
        decreases found@.len() - index,
    {
        if found[index].actor.same_actor(actor) {
            return true;
        }
        index += 1;
    }
    false
}

/// Whether a listed member is one of the wanted recipients. Without any wanted
/// recipient, every member is.
pub open spec fn is_wanted(recipients: Seq<ActorRef>, member: DirectoryMember) -> bool {
    recipients.len() == 0 || names_actor(recipients, member.identity())
}

/// The members of a list that are wanted, in order.
pub open spec fn wanted_members(
    members: Seq<DirectoryMember>,
    recipients: Seq<ActorRef>,
) -> Seq<DirectoryMember>
    decreases members.len(),
{
    if members.len() == 0 {
        Seq::empty()
    } else {
        let earlier = wanted_members(members.drop_last(), recipients);
        if is_wanted(recipients, members.last()) {
            earlier.push(members.last())
        } else {
            earlier
        }
    }
}

/// The first requirement that one listed member misses, given whether the same
/// member was found before.
pub open spec fn listing_error(
    member: DirectoryMember,
    organization: Seq<char>,
    recipients: Seq<ActorRef>,
    repeated: bool,
) -> Option<IamClientError> {
    if member.org_id@ != organization {
        Some(IamClientError::BindingMismatch { binding: "directory.organization" })
    } else if member.kind is None {
        Some(IamClientError::InvalidResponse { reason: "directory.actor_type" })
    } else if !member.public_id.accepted {
        Some(IamClientError::InvalidResponse { reason: "directory.public_id" })
    } else if !is_wanted(recipients, member) {
        None
    } else if repeated {
        Some(IamClientError::InvalidResponse { reason: "directory.duplicate_member" })
    } else {
        directory_member_error(member)
    }
}

/// Whether a member is among listed ones.
pub open spec fn lists_member(
    members: Seq<DirectoryMember>,
    identity: (ActorKind, Seq<char>),
) -> bool {
    exists|k: int| 0 <= k < members.len() && (#[trigger] members[k]).identity() == identity
}

/// The first failure among listed members; `earlier` are the wanted ones of the
/// pages before.
pub open spec fn listings_error(
    earlier: Seq<DirectoryMember>,
    members: Seq<DirectoryMember>,
    organization: Seq<char>,
    recipients: Seq<ActorRef>,
) -> Option<IamClientError>
    decreases members.len(),
{
    if members.len() == 0 {
        None
    } else {
        match listings_error(earlier, members.drop_last(), organization, recipients) {
            Some(error) => Some(error),
            None => listing_error(
                members.last(),
                organization,
                recipients,
                lists_member(
                    earlier + wanted_members(members.drop_last(), recipients),
                    members.last().identity(),
                ),
            ),
        }
    }
}

/// The first failure among the first members is the first failure of all.
proof fn lemma_listing_error_persists(
    earlier: Seq<DirectoryMember>,
    members: Seq<DirectoryMember>,
    length: int,
    organization: Seq<char>,
    recipients: Seq<ActorRef>,
)
    requires
        0 <= length <= members.len(),
        listings_error(earlier, members.take(length), organization, recipients) is Some,
    ensures
        listings_error(earlier, members, organization, recipients) == listings_error(
            earlier,
            members.take(length),
            organization,
            recipients,
        ),
    decreases members.len() - length,
{
    if length == members.len() {
        assert(members.take(length) =~= members);
    } else {
        assert(members.take(length + 1).drop_last() =~= members.take(length));
        lemma_listing_error_persists(earlier, members, length + 1, organization, recipients);
    }
}

/// Whether contexts carry the authority of listed members one for one.
pub open spec fn contexts_of(
    found: Seq<RequestAuthContext>,
    members: Seq<DirectoryMember>,
    organization: Seq<char>,
    organization_id: u128,
) -> bool {
    found.len() == members.len() && forall|k: int|
        0 <= k < members.len() ==> context_of_member(
            #[trigger] found[k],
            members[k],
            organization,
            organization_id,
        )
}

/// Contexts of members name exactly the members.
proof fn lemma_found_members(
    found: Seq<RequestAuthContext>,
    members: Seq<DirectoryMember>,
    organization: Seq<char>,
    organization_id: u128,
    identity: (ActorKind, Seq<char>),
)
    requires
        contexts_of(found, members, organization, organization_id),
    ensures
        found_actor(found, identity) == lists_member(members, identity),
{
    if found_actor(found, identity) {
        let k = choose|k: int|
            0 <= k < found.len() && (#[trigger] found[k]).actor.identity() == identity;
        assert(members[k].identity() == identity);
    }
    if lists_member(members, identity) {
        let k = choose|k: int|
            0 <= k < members.len() && (#[trigger] members[k]).identity() == identity;
        assert(found[k].actor.identity() == identity);
    }
}

/// Adds the wanted members of one page to those found on the pages before.
/// `earlier` stands for the members that `found` holds.
fn collect_page(
    found: &mut Vec<RequestAuthContext>,
    members: &Vec<DirectoryMember>,
    organization: &str,
    organization_id: u128,
    recipients: &Vec<ActorRef>,
    Ghost(earlier): Ghost<Seq<DirectoryMember>>,
) -> (result: Result<(), IamClientError>)
    requires
        contexts_of(old(found)@, earlier, organization@, organization_id),
    ensures
        match listings_error(earlier, members@, organization@, recipients@) {
            Some(error) => result == Err::<(), IamClientError>(error),
            None => result is Ok && contexts_of(
                final(found)@,
                earlier + wanted_members(members@, recipients@),
                organization@,
                organization_id,
            ),
        },
{
    let mut index: usize = 0;
    proof {
        assert(members@.take(0) =~= Seq::<DirectoryMember>::empty());
        assert(earlier + Seq::<DirectoryMember>::empty() =~= earlier);
    }
    while index < members.len()
        invariant
            index <= members@.len(),
            listings_error(earlier, members@.take(index as int), organization@, recipients@)
                is None,
            contexts_of(
                found@,
                earlier + wanted_members(members@.take(index as int), recipients@),
                organization@,
                organization_id,
            ),
        decreases members@.len() - index,
    {
        let member = &members[index];
        let ghost next = members@.take(index + 1);
        let ghost so_far = earlier + wanted_members(members@.take(index as int), recipients@);
        proof {
            assert(next.drop_last() =~= members@.take(index as int));
            assert(next.last() == *member);
            lemma_found_members(
                found@,
                so_far,
                organization@,
                organization_id,
                member.identity(),
            );
            if listings_error(earlier, next, organization@, recipients@) is Some {
                lemma_listing_error_persists(
                    earlier,
                    members@,
                    index + 1,
                    organization@,
                    recipients@,
                );
            }
        }
        if !same_text(member.org_id.as_str(), organization) {
            return Err(binding_mismatch("directory.organization"));
        }
        let kind = match member.kind {
            Some(kind) => kind,
            None => {
                return Err(invalid_response("directory.actor_type"));
            },
        };
        if !member.public_id.accepted {
            return Err(invalid_response("directory.public_id"));
        }
        let actor = ActorRef { kind, id: member.public_id.text.clone() };
        if recipients.len() == 0 || contains_actor(recipients, &actor) {
            if was_found(found, &actor) {
                return Err(invalid_response("directory.duplicate_member"));
            }
            match directory_member(member, actor, organization, organization_id) {
                Ok(context) => {
                    found.push(context);
                    assert(earlier + wanted_members(next, recipients@) =~= so_far.push(*member));
                },
                Err(error) => {
                    return Err(error);
                },
            }
        }
        index += 1;
    }
    assert(members@.take(members@.len() as int) =~= members@);
    Ok(())
}

/// One page of the directory.
#[derive(Clone, Debug)]
pub struct MemberPage {
    /// Listed members.
    pub items: Vec<DirectoryMember>,
    /// Whether another page follows.
    pub has_more: bool,
    /// Where the next page starts.
    pub next_cursor: Option<String>,
}

/// What a resolution was asked for and has found so far.
pub struct Resolution {
    /// Organization of the caller.
    pub organization: String,
    /// Identifier of that organization.
    pub organization_id: u128,
    /// Wanted recipients; none means every member.
    pub recipients: Vec<ActorRef>,
    /// Authority of the members found so far.
    pub found: Vec<RequestAuthContext>,
    /// Cursors used so far.
    pub cursors: Vec<String>,
    /// Pages read so far.
    pub pages: usize,
    /// Wanted members of the pages read so far.
    pub members: Ghost<Seq<DirectoryMember>>,
}

impl Resolution {
    /// What was found carries the authority of the wanted members, in order.
    pub open spec fn well_formed(self) -> bool {
        contexts_of(self.found@, self.members@, self.organization@, self.organization_id)
    }

    /// Whether two resolutions ask for the same.
    pub open spec fn same_request(self, other: Resolution) -> bool {
        self.organization == other.organization && self.organization_id == other.organization_id
            && self.recipients == other.recipients
    }
}

/// How a resolution goes on.
pub enum ResolutionStep {
    /// Read the page after the last recorded cursor.
    ReadPage {
        /// The resolution so far.
        resolution: Resolution,
    },
    /// Everything wanted was found.
    Resolved {
        /// Authority of the recipients.
        recipients: Vec<RequestAuthContext>,
    },
    /// The directory ended before every wanted recipient was found.
    Incomplete,
}

/// Starts resolving recipients for a caller.
pub fn start_resolution(caller: &RequestAuthContext, recipients: Vec<ActorRef>) -> (started: Result<
    Resolution,
    IamClientError,
>)
    ensures
        match caller.binding {
            None => started == Err::<Resolution, IamClientError>(IamClientError::Rejected),
            Some(binding) => started matches Ok(resolution) && resolution.well_formed()
                && resolution.organization@ == caller.organization_id@
                && resolution.organization_id == binding.organization_id && resolution.recipients
                == recipients && resolution.members@.len() == 0 && resolution.cursors@.len() == 0
                && resolution.pages == 0,
        },
{
    let organization_id: u128 = match &caller.binding {
        Some(binding) => binding.organization_id,
        None => {
            return Err(IamClientError::Rejected);
        },
    };
    Ok(
        Resolution {
            organization: caller.organization_id.clone(),
            organization_id,
            recipients,
            found: Vec::new(),
            cursors: Vec::new(),
            pages: 0,
            members: Ghost(Seq::empty()),
        },
    )
}

/// Whether every wanted recipient was found.
fn all_found(found: &Vec<RequestAuthContext>, recipients: &Vec<ActorRef>) -> (answer: bool)
    ensures
        answer == forall|k: int|
            0 <= k < recipients@.len() ==> found_actor(
                found@,
                (#[trigger] recipients@[k]).identity(),
            ),
{
    let mut index: usize = 0;
    while index < recipients.len()
        invariant
            index <= recipients@.len(),
            forall|k: int|
                0 <= k < index ==> found_actor(found@, (#[trigger] recipients@[k]).identity()),
        decreases recipients@.len() - index,
    {
        if !was_found(found, &recipients[index]) {
            assert(!found_actor(found@, recipients@[index as int].identity()));
            return false;
        }
        index += 1;
    }
    true
}

/// The members known after one more page.
pub open spec fn members_after(resolution: Resolution, page: MemberPage) -> Seq<DirectoryMember> {
    resolution.members@ + wanted_members(page.items@, resolution.recipients@)
}

/// Whether every wanted recipient is known after one more page.
pub open spec fn complete_after(resolution: Resolution, page: MemberPage) -> bool {
    forall|k: int|
        0 <= k < resolution.recipients@.len() ==> lists_member(
            members_after(resolution, page),
            (#[trigger] resolution.recipients@[k]).identity(),
        )
}

/// The failure that one more page brings.
pub open spec fn page_error(resolution: Resolution, page: MemberPage) -> Option<IamClientError> {
    let listing = listings_error(
        resolution.members@,
        page.items@,
        resolution.organization@,
        resolution.recipients@,
    );
    if listing is Some {
        listing
    } else if resolution.recipients@.len() > 0 && complete_after(resolution, page) {
        None
    } else if !page.has_more {
        None
    } else if page.next_cursor is None {
        Some(IamClientError::InvalidResponse { reason: "directory.cursor" })
    } else if exists|k: int|
        0 <= k < resolution.cursors@.len() && (#[trigger] resolution.cursors@[k])@
            == page.next_cursor->0@ {
        Some(IamClientError::InvalidResponse { reason: "directory.repeated_cursor" })
    } else if resolution.pages + 1 >= MAX_PAGES {
        Some(IamClientError::InvalidResponse { reason: "directory.page_budget" })
    } else {
        None
    }
}

/// Processes one page: finishes once every wanted recipient is known or the
/// directory ends, and otherwise asks for the page after a cursor that was not
/// used before, as long as the page budget lasts. An incomplete directory is
/// never taken for an empty one.
pub fn resolve_page(resolution: Resolution, page: MemberPage) -> (step: Result<
    ResolutionStep,
    IamClientError,
>)
    requires
        resolution.well_formed(),
        resolution.pages < MAX_PAGES,
    ensures
        match page_error(resolution, page) {
            Some(error) => step == Err::<ResolutionStep, IamClientError>(error),
            None => step is Ok,
        },
        step matches Ok(ResolutionStep::Resolved { recipients }) ==> contexts_of(
            recipients@,
            members_after(resolution, page),
            resolution.organization@,
            resolution.organization_id,
        ),
        step is Ok ==> (step->Ok_0 is Resolved == if resolution.recipients@.len() > 0 {
            complete_after(resolution, page)
        } else {
            !page.has_more
        }),
        step is Ok ==> (step->Ok_0 is Incomplete == (resolution.recipients@.len() > 0
            && !complete_after(resolution, page) && !page.has_more)),
        step matches Ok(ResolutionStep::ReadPage { resolution: next }) ==> next.well_formed()
            && next.same_request(resolution) && next.members@ == members_after(resolution, page)
            && next.pages == resolution.pages + 1 && next.pages < MAX_PAGES && next.cursors@
            == resolution.cursors@.push(page.next_cursor->0),
{
    let ghost earlier = resolution.members@;
    let ghost after = members_after(resolution, page);
    let mut found = resolution.found;
    match collect_page(
        &mut found,
        &page.items,
        resolution.organization.as_str(),
        resolution.organization_id,
        &resolution.recipients,
        Ghost(earlier),
    ) {
        Ok(()) => {},
        Err(error) => {
            return Err(error);
        },
    }
    proof {
        assert forall|k: int| 0 <= k < resolution.recipients@.len() implies found_actor(
            found@,
            (#[trigger] resolution.recipients@[k]).identity(),
        ) == lists_member(after, resolution.recipients@[k].identity()) by {
            lemma_found_members(
                found@,
                after,
                resolution.organization@,
                resolution.organization_id,
                resolution.recipients@[k].identity(),
            );
        }
    }
    let wanted = resolution.recipients.len() > 0;
    if wanted && all_found(&found, &resolution.recipients) {
        return Ok(ResolutionStep::Resolved { recipients: found });
    }
    if !page.has_more {
        return if wanted {
            Ok(ResolutionStep::Incomplete)
        } else {
            Ok(ResolutionStep::Resolved { recipients: found })
        };
    }
    let cursor = match page.next_cursor {
        Some(cursor) => cursor,
        None => {
            return Err(invalid_response("directory.cursor"));
        },
    };
    let mut cursors = resolution.cursors;
    if contains_text(&cursors, cursor.as_str()) {
        return Err(invalid_response("directory.repeated_cursor"));
    }
    cursors.push(cursor);
    if resolution.pages + 1 >= MAX_PAGES {
        return Err(invalid_response("directory.page_budget"));
    }
    Ok(
        ResolutionStep::ReadPage {
            resolution: Resolution {
                organization: resolution.organization,
                organization_id: resolution.organization_id,
                recipients: resolution.recipients,
                found,
                cursors,
                pages: resolution.pages + 1,
                members: Ghost(after),
            },
        },
    )
}

} // verus!
