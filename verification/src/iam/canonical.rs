//! Canonical identities on the wire and the local keys that stand for them.

use vstd::prelude::*;

use crate::iam::claims::IamEnvironmentCredential;
use crate::iam::official::{check_response_size, AuthorizationTag};
use crate::iam::{binding_mismatch, invalid_response, IamClientError};
use crate::ids::{hyphenated, hyphenated_chars, parse_id, parsed_id, Candidate};
use crate::json::Json;
use crate::text::{characters, contains_text, same_text};

verus! {

/// Kind of a member as the wire names it.
#[derive(Clone, Copy, Debug, PartialEq, Eq, Structural)]
pub enum WireActorType {
    /// A person.
    Carbon,
    /// An agent.
    Silicon,
    /// A kind this service does not represent.
    Other,
}

/// Authorization snapshot with local identity keys.
#[derive(Clone, Debug)]
pub struct LocalAuthorization {
    /// Local principal key.
    pub principal_id: u128,
    /// Local membership key.
    pub membership_id: u128,
    /// Kind of the member.
    pub actor_type: Option<WireActorType>,
    /// Public identifier, with the verdict of the member identifier rules.
    pub public_id: Option<Candidate>,
    /// Organization identifier.
    pub organization_id: u128,
    /// Organization handle, with the verdict of the organization rules.
    pub org_id: Candidate,
    /// Version of the membership.
    pub membership_version: i64,
    /// Authorization epoch of the membership.
    pub authorization_epoch: i64,
    /// Application the snapshot is meant for.
    pub audience: String,
    /// Testing environment the snapshot belongs to.
    pub testing_environment_id: Option<u128>,
    /// Scopes of the snapshot.
    pub scopes: Vec<String>,
    /// Role inside the organization.
    pub org_role: Option<String>,
    /// Tags of the member.
    pub tags: Option<Vec<AuthorizationTag>>,
}

/// Session introspection with local identity keys.
#[derive(Clone, Debug)]
pub struct LocalIntrospection {
    /// Whether the token is active.
    pub active: bool,
    /// Public identifier.
    pub public_id: Option<String>,
    /// Local principal key.
    pub principal_id: Option<u128>,
    /// Kind of the member.
    pub actor_type: Option<WireActorType>,
    /// Application the token was issued to.
    pub client_id: Option<String>,
    /// Application the token is meant for.
    pub audience: Option<String>,
    /// Expiry as a Unix timestamp.
    pub expires_at: Option<i64>,
    /// Selected organization.
    pub org_id: Option<String>,
    /// Snapshot of the selected organization.
    pub authorization: Option<LocalAuthorization>,
    /// Snapshots of every organization the session reaches.
    pub authorizations: Option<Vec<LocalAuthorization>>,
}

/// Store that local identity keys are kept in.
#[derive(Clone, Copy, Debug, PartialEq, Eq, Structural)]
pub enum IdentityStore {
    /// Keys of production identities.
    Production,
    /// Keys of testing identities.
    Testing,
}

/// Stores that the client was given.
#[derive(Clone, Copy, Debug, PartialEq, Eq, Structural)]
pub enum IdentityKeys {
    /// None.
    Unconfigured,
    /// A production store and perhaps a testing store.
    Database {
        /// Whether there is a testing store.
        testing: bool,
    },
}

/// Selects the store of a plane. Production and testing keys never share one.
pub fn select_identity_store(keys: IdentityKeys, environment: Option<u128>) -> (store: Result<
    IdentityStore,
    IamClientError,
>)
    ensures
        store == match keys {
            IdentityKeys::Unconfigured => Err::<IdentityStore, IamClientError>(
                IamClientError::InvalidResponse { reason: "identity_store_missing" },
            ),
            IdentityKeys::Database { testing } => if environment is None {
                Ok::<IdentityStore, IamClientError>(IdentityStore::Production)
            } else if testing {
                Ok::<IdentityStore, IamClientError>(IdentityStore::Testing)
            } else {
                Err::<IdentityStore, IamClientError>(
                    IamClientError::BindingMismatch { binding: "identity.testing_database" },
                )
            },
        },
{
    match keys {
        IdentityKeys::Unconfigured => Err(invalid_response("identity_store_missing")),
        IdentityKeys::Database { testing } => {
            if environment.is_none() {
                Ok(IdentityStore::Production)
            } else if testing {
                Ok(IdentityStore::Testing)
            } else {
                Err(binding_mismatch("identity.testing_database"))
            }
        },
    }
}

/// Whether a character may stand in a public label.
pub open spec fn label_character(character: char) -> bool {
    'a' <= character <= 'z' || '0' <= character <= '9' || character == '_' || character == '-'
}

/// Whether a text is a public label of at most the given length.
pub open spec fn label_ok(part: Seq<char>, longest: int) -> bool {
    3 <= part.len() <= longest && forall|k: int|
        0 <= k < part.len() ==> label_character(#[trigger] part[k])
}

/// Whether an identifier is the public form of an identity of a kind.
pub open spec fn public_identity_ok(kind: Seq<char>, id: Seq<char>) -> bool {
    if kind == "carbon"@ {
        id.len() >= 2 && id[0] == 'c' && id[1] == ':' && label_ok(id.skip(2), 30)
    } else if kind == "silicon"@ {
        id.len() >= 3 && id[0] == 's' && id[1] == 'i' && id[2] == ':' && label_ok(id.skip(3), 50)
    } else {
        false
    }
}

/// Whether the characters from an index on are a public label.
fn valid_label(text: &Vec<char>, from: usize, longest: usize) -> (valid: bool)
    requires
        from <= text@.len(),
    ensures
        valid == label_ok(text@.skip(from as int), longest as int),
{
    let length: usize = text.len() - from;
    if length < 3 || length > longest {
        return false;
    }
    let mut index: usize = from;
    while index < text.len()
        invariant
            from <= index <= text@.len(),
            length == text@.len() - from,
            3 <= length <= longest,
            forall|k: int|
                0 <= k < index - from ==> label_character(#[trigger] text@.skip(from as int)[k]),
        decreases text@.len() - index,
    {
        let character = text[index];
        if !('a' <= character && character <= 'z' || '0' <= character && character <= '9'
            || character == '_' || character == '-') {
            assert(!label_character(text@.skip(from as int)[index - from]));
            return false;
        }
        index += 1;
    }
    true
}

/// Whether an identifier is the public form of an identity of a kind.
pub fn valid_public_identity(kind: &str, id: &str) -> (valid: bool)
    ensures
        valid == public_identity_ok(kind@, id@),
{
    let text = characters(id);
    if same_text(kind, "carbon") {
        text.len() >= 2 && text[0] == 'c' && text[1] == ':' && valid_label(&text, 2, 30)
    } else if same_text(kind, "silicon") {
        proof {
            reveal_strlit("carbon");
            reveal_strlit("silicon");
        }
        text.len() >= 3 && text[0] == 's' && text[1] == 'i' && text[2] == ':' && valid_label(
            &text,
            3,
            50,
        )
    } else {
        false
    }
}

/// Kind and public identifier of an identity.
pub type IdentityChars = (Seq<char>, Seq<char>);

/// Whether an outcome is the given one, texts taken by their characters.
pub open spec fn same_identity(
    outcome: Result<(String, String), IamClientError>,
    expected: Result<IdentityChars, IamClientError>,
) -> bool {
    match expected {
        Ok(identity) => outcome matches Ok(pair) && (pair.0@, pair.1@) == identity,
        Err(error) => outcome == Err::<(String, String), IamClientError>(error),
    }
}

/// The characters of an optional text.
pub open spec fn chars_of(text: Option<&str>) -> Option<Seq<char>> {
    match text {
        Some(value) => Some(value@),
        None => None,
    }
}

/// The identity that a kind and an identifier name.
pub open spec fn canonical_actor_of(kind: Option<Seq<char>>, id: Option<Seq<char>>) -> Result<
    IdentityChars,
    IamClientError,
> {
    if kind is None {
        Err(IamClientError::InvalidResponse { reason: "identity.actor_type" })
    } else if id is None {
        Err(IamClientError::InvalidResponse { reason: "identity.public_id" })
    } else if !public_identity_ok(kind->0, id->0) {
        Err(IamClientError::InvalidResponse { reason: "identity.public_id" })
    } else {
        Ok((kind->0, id->0))
    }
}

/// Accepts an identity in its public form.
pub fn canonical_actor(kind: Option<&str>, id: Option<&str>) -> (identity: Result<
    (String, String),
    IamClientError,
>)
    ensures
        same_identity(identity, canonical_actor_of(chars_of(kind), chars_of(id))),
{
    let kind = match kind {
        Some(kind) => kind,
        None => {
            return Err(invalid_response("identity.actor_type"));
        },
    };
    let id = match id {
        Some(id) => id,
        None => {
            return Err(invalid_response("identity.public_id"));
        },
    };
    if !valid_public_identity(kind, id) {
        return Err(invalid_response("identity.public_id"));
    }
    Ok((kind.to_owned(), id.to_owned()))
}

/// The name of the membership of an identity in an organization.
pub open spec fn membership_chars(public_id: Seq<char>, organization: Seq<char>) -> Seq<char> {
    public_id + seq!['['] + organization + seq![']']
}

/// The name of the membership of an identity in an organization.
fn membership_name(public_id: &str, organization: &str) -> (name: String)
    ensures
        name@ == membership_chars(public_id@, organization@),
{
    let mut name = public_id.to_owned();
    name.push('[');
    name.append(organization);
    name.push(']');
    assert(name@ =~= membership_chars(public_id@, organization@));
    name
}

/// The plane that a snapshot names; a text that is no identifier, or any other
/// value, is no plane.
pub open spec fn plane_claim(snapshot: Json) -> Option<Option<u128>> {
    match snapshot.member("testing_environment_id"@) {
        None | Some(Json::Null) => Some(None),
        Some(Json::Text(text)) => match parsed_id(text@) {
            Some(id) => Some(Some(id)),
            None => None,
        },
        _ => None,
    }
}

/// The plane that a snapshot names.
fn claimed_plane(snapshot: &Json) -> (plane: Option<Option<u128>>)
    ensures
        plane == plane_claim(*snapshot),
{
    match snapshot.get("testing_environment_id") {
        None | Some(Json::Null) => Some(None),
        Some(Json::Text(text)) => match parse_id(text.as_str()) {
            Some(id) => Some(Some(id)),
            None => None,
        },
        _ => None,
    }
}

/// Whether an organization is among the canonical ones.
pub open spec fn is_listed(organizations: Seq<String>, organization: Seq<char>) -> bool {
    exists|k: int| 0 <= k < organizations.len() && (#[trigger] organizations[k])@ == organization
}

/// The identity of a snapshot that is bound to the audience, the plane and a
/// membership of that very identity.
pub open spec fn snapshot_identity_of(
    snapshot: Json,
    audience: Seq<char>,
    environment: Option<u128>,
    organizations: Seq<String>,
) -> Result<IdentityChars, IamClientError> {
    let actor = canonical_actor_of(
        snapshot.text_member("actor_type"@),
        snapshot.text_member("public_id"@),
    );
    let organization = snapshot.text_member("org_id"@);
    if actor is Err {
        actor
    } else if organization is None || !is_listed(organizations, organization->0) {
        Err(IamClientError::InvalidResponse { reason: "authorization.org_id" })
    } else if plane_claim(snapshot) is None {
        Err(IamClientError::InvalidResponse { reason: "authorization.environment" })
    } else if snapshot.text_member("audience"@) != Some(audience) || plane_claim(snapshot) != Some(
        environment,
    ) || snapshot.text_member("membership_id"@) != Some(
        membership_chars(actor->Ok_0.1, organization->0),
    ) {
        Err(IamClientError::BindingMismatch { binding: "authorization.canonical_identity" })
    } else {
        actor
    }
}

/// Whether an optional text is the given one.
fn text_is(optional: Option<&str>, text: &str) -> (same: bool)
    ensures
        same == (chars_of(optional) == Some(text@)),
{
    match optional {
        Some(value) => same_text(value, text),
        None => false,
    }
}

/// The identity of a snapshot that is bound to the audience, the plane and a
/// membership of that very identity. `organizations` lists the canonical
/// organization handles among those that the answer names.
pub fn snapshot_identity(
    snapshot: &Json,
    audience: &str,
    environment: Option<u128>,
    organizations: &Vec<String>,
) -> (identity: Result<(String, String), IamClientError>)
    ensures
        same_identity(
            identity,
            snapshot_identity_of(*snapshot, audience@, environment, organizations@),
        ),
{
    let identity = match canonical_actor(
        snapshot.get_text("actor_type"),
        snapshot.get_text("public_id"),
    ) {
        Ok(identity) => identity,
        Err(error) => {
            return Err(error);
        },
    };
    let organization = match snapshot.get_text("org_id") {
        Some(organization) => organization,
        None => {
            return Err(invalid_response("authorization.org_id"));
        },
    };
    if !contains_text(organizations, organization) {
        return Err(invalid_response("authorization.org_id"));
    }
    let plane = match claimed_plane(snapshot) {
        Some(plane) => plane,
        None => {
            return Err(invalid_response("authorization.environment"));
        },
    };
    let membership = membership_name(identity.1.as_str(), organization);
    if !text_is(snapshot.get_text("audience"), audience) || plane != environment || !text_is(
        snapshot.get_text("membership_id"),
        membership.as_str(),
    ) {
        return Err(binding_mismatch("authorization.canonical_identity"));
    }
    Ok(identity)
}

/// The snapshots of an answer.
pub open spec fn snapshots_of(value: Json) -> Seq<Json> {
    match value.member("authorization"@) {
        Some(snapshot) => seq![snapshot],
        None => value.array_member("authorizations"@),
    }
}

/// The one identity that snapshots agree on.
pub open spec fn agreed_identity(
    snapshots: Seq<Json>,
    audience: Seq<char>,
    environment: Option<u128>,
    organizations: Seq<String>,
) -> Result<Option<IdentityChars>, IamClientError>
    decreases snapshots.len(),
{
    if snapshots.len() == 0 {
        Ok(None)
    } else {
        let known = agreed_identity(snapshots.drop_last(), audience, environment, organizations);
        let current = snapshot_identity_of(
            snapshots.last(),
            audience,
            environment,
            organizations,
        );
        match (known, current) {
            (Err(error), _) => Err(error),
            (Ok(_), Err(error)) => Err(error),
            (Ok(None), Ok(identity)) => Ok(Some(identity)),
            (Ok(Some(earlier)), Ok(identity)) => if earlier != identity {
                Err(IamClientError::BindingMismatch { binding: "authorization.identity" })
            } else {
                Ok(Some(identity))
            },
        }
    }
}

/// A failure among the first snapshots is the failure of all of them.
proof fn lemma_disagreement_persists(
    snapshots: Seq<Json>,
    length: int,
    audience: Seq<char>,
    environment: Option<u128>,
    organizations: Seq<String>,
)
    requires
        0 <= length <= snapshots.len(),
        agreed_identity(snapshots.take(length), audience, environment, organizations) is Err,
    ensures
        agreed_identity(snapshots, audience, environment, organizations) == agreed_identity(
            snapshots.take(length),
            audience,
            environment,
            organizations,
        ),
    decreases snapshots.len() - length,
{
    if length == snapshots.len() {
        assert(snapshots.take(length) =~= snapshots);
    } else {
        assert(snapshots.take(length + 1).drop_last() =~= snapshots.take(length));
        lemma_disagreement_persists(snapshots, length + 1, audience, environment, organizations);
    }
}

/// Whether an optional identity is the given one, texts taken by their
/// characters.
pub open spec fn same_known(known: Option<(String, String)>, expected: Option<IdentityChars>) -> bool {
    match expected {
        Some(identity) => known matches Some(pair) && (pair.0@, pair.1@) == identity,
        None => known is None,
    }
}

/// Whether two identities are the same.
fn identities_agree(left: &(String, String), right: &(String, String)) -> (same: bool)
    ensures
        same == ((left.0@, left.1@) == (right.0@, right.1@)),
{
    same_text(left.0.as_str(), right.0.as_str()) && same_text(left.1.as_str(), right.1.as_str())
}

/// Adds one identity to what is known so far; a different one is refused.
fn merge_identity(
    known: Option<(String, String)>,
    current: (String, String),
    binding: &'static str,
) -> (merged: Result<(String, String), IamClientError>)
    ensures
        merged == if known matches Some(earlier) && (earlier.0@, earlier.1@) != (
            current.0@,
            current.1@,
        ) {
            Err::<(String, String), IamClientError>(IamClientError::BindingMismatch { binding })
        } else {
            Ok::<(String, String), IamClientError>(current)
        },
{
    if let Some(earlier) = &known {
        if !identities_agree(earlier, &current) {
            return Err(binding_mismatch(binding));
        }
    }
    Ok(current)
}

/// The identity that a list of snapshots agrees on.
fn listed_identity(
    snapshots: &Vec<Json>,
    audience: &str,
    environment: Option<u128>,
    organizations: &Vec<String>,
) -> (known: Result<Option<(String, String)>, IamClientError>)
    ensures
        match agreed_identity(snapshots@, audience@, environment, organizations@) {
            Err(error) => known == Err::<Option<(String, String)>, IamClientError>(error),
            Ok(expected) => known matches Ok(found) && same_known(found, expected),
        },
{
    let mut known: Option<(String, String)> = None;
    let mut index: usize = 0;
    assert(snapshots@.take(0) =~= Seq::<Json>::empty());
    while index < snapshots.len()
        invariant
            index <= snapshots@.len(),
            agreed_identity(
                snapshots@.take(index as int),
                audience@,
                environment,
                organizations@,
            ) matches Ok(expected) && same_known(known, expected),
        decreases snapshots@.len() - index,
    {
        let ghost next = snapshots@.take(index + 1);
        assert(next.drop_last() =~= snapshots@.take(index as int));
        assert(next.last() == snapshots@[index as int]);
        let current = match snapshot_identity(
            &snapshots[index],
            audience,
            environment,
            organizations,
        ) {
            Ok(current) => current,
            Err(error) => {
                proof {
                    lemma_disagreement_persists(
                        snapshots@,
                        index + 1,
                        audience@,
                        environment,
                        organizations@,
                    );
                }
                return Err(error);
            },
        };
        match merge_identity(known, current, "authorization.identity") {
            Ok(identity) => {
                known = Some(identity);
            },
            Err(error) => {
                proof {
                    lemma_disagreement_persists(
                        snapshots@,
                        index + 1,
                        audience@,
                        environment,
                        organizations@,
                    );
                }
                return Err(error);
            },
        }
        index += 1;
    }
    assert(snapshots@.take(snapshots@.len() as int) =~= snapshots@);
    Ok(known)
}

/// The identity that an answer is about: what its snapshots agree on, then its
/// actor, then its own claims.
pub open spec fn answer_identity(
    value: Json,
    audience: Seq<char>,
    environment: Option<u128>,
    organizations: Seq<String>,
) -> Result<IdentityChars, IamClientError> {
    let agreed = agreed_identity(snapshots_of(value), audience, environment, organizations);
    if value.member("authorization"@) is Some && value.member("authorizations"@) is Some {
        Err(IamClientError::BindingMismatch { binding: "authorization.multiple_shapes" })
    } else if agreed is Err {
        Err(agreed->Err_0)
    } else {
        match value.member("actor"@) {
            Some(actor) => {
                let named = canonical_actor_of(
                    actor.text_member("type"@),
                    actor.text_member("public_id"@),
                );
                if named is Ok && agreed->Ok_0 is Some && agreed->Ok_0->0 != named->Ok_0 {
                    Err(IamClientError::BindingMismatch { binding: "authorization.actor" })
                } else {
                    named
                }
            },
            None => match agreed->Ok_0 {
                Some(identity) => Ok(identity),
                None => {
                    let named = canonical_actor_of(
                        value.text_member("actor_type"@),
                        value.text_member("public_id"@),
                    );
                    if named is Err {
                        Err(IamClientError::InvalidResponse { reason: "identity.canonical_id" })
                    } else {
                        named
                    }
                },
            },
        }
    }
}

/// The first claim of an answer that contradicts the identity it is about.
pub open spec fn contradiction(
    value: Json,
    identity: IdentityChars,
    audience: Seq<char>,
    now: i64,
) -> Option<IamClientError> {
    let membership = value.text_member("membership_id"@);
    let organization = value.text_member("org_id"@);
    if (value.text_member("public_id"@) is Some && value.text_member("public_id"@)->0
        != identity.1) || (value.text_member("actor_type"@) is Some && value.text_member(
        "actor_type"@,
    )->0 != identity.0) {
        Some(IamClientError::BindingMismatch { binding: "identity.introspection" })
    } else if value.member("active"@) is Some && (value.text_member("client_id"@) != Some(audience)
        || (value.text_member("audience"@) is Some && value.text_member("audience"@)->0
        != audience) || value.integer_member("expires_at"@) is None || value.integer_member(
        "expires_at"@,
    )->0 <= now) {
        Some(IamClientError::Rejected)
    } else if membership is Some && organization is None {
        Some(IamClientError::BindingMismatch { binding: "identity.organization" })
    } else if membership is Some && membership->0 != membership_chars(
        identity.1,
        organization->0,
    ) {
        Some(IamClientError::BindingMismatch { binding: "identity.membership" })
    } else {
        None
    }
}

/// The identity of an answer whose every identity claim agrees.
pub open spec fn validated_identity_of(
    value: Json,
    audience: Seq<char>,
    environment: Option<u128>,
    organizations: Seq<String>,
    now: i64,
) -> Result<IdentityChars, IamClientError> {
    match answer_identity(value, audience, environment, organizations) {
        Err(error) => Err(error),
        Ok(identity) => match contradiction(value, identity, audience, now) {
            Some(error) => Err(error),
            None => Ok(identity),
        },
    }
}

/// The identity that an answer is about.
fn claimed_identity(
    value: &Json,
    audience: &str,
    environment: Option<u128>,
    organizations: &Vec<String>,
) -> (identity: Result<(String, String), IamClientError>)
    ensures
        same_identity(
            identity,
            answer_identity(*value, audience@, environment, organizations@),
        ),
{
    let known = match value.get("authorization") {
        Some(snapshot) => {
            if value.get("authorizations").is_some() {
                return Err(binding_mismatch("authorization.multiple_shapes"));
            }
            proof {
                reveal_with_fuel(agreed_identity, 2);
                assert(seq![*snapshot].drop_last() =~= Seq::<Json>::empty());
            }
            match snapshot_identity(snapshot, audience, environment, organizations) {
                Ok(identity) => Some(identity),
                Err(error) => {
                    return Err(error);
                },
            }
        },
        None => match value.get("authorizations") {
            Some(Json::Array(snapshots)) => {
                match listed_identity(snapshots, audience, environment, organizations) {
                    Ok(known) => known,
                    Err(error) => {
                        return Err(error);
                    },
                }
            },
            _ => None,
        },
    };
    match value.get("actor") {
        Some(actor) => {
            let named = match canonical_actor(actor.get_text("type"), actor.get_text("public_id")) {
                Ok(named) => named,
                Err(error) => {
                    return Err(error);
                },
            };
            merge_identity(known, named, "authorization.actor")
        },
        None => match known {
            Some(identity) => Ok(identity),
            None => match canonical_actor(
                value.get_text("actor_type"),
                value.get_text("public_id"),
            ) {
                Ok(named) => Ok(named),
                Err(_) => Err(invalid_response("identity.canonical_id")),
            },
        },
    }
}

/// Accepts the identity of an answer once every claim about it agrees: its
/// snapshots, its actor, its own fields, its audience, its expiry and its
/// membership.
pub fn validated_identity(
    value: &Json,
    audience: &str,
    environment: Option<u128>,
    organizations: &Vec<String>,
    now: i64,
) -> (identity: Result<(String, String), IamClientError>)
    ensures
        same_identity(
            identity,
            validated_identity_of(*value, audience@, environment, organizations@, now),
        ),
{
    let identity = match claimed_identity(value, audience, environment, organizations) {
        Ok(identity) => identity,
        Err(error) => {
            return Err(error);
        },
    };
    let other_id = match value.get_text("public_id") {
        Some(id) => !same_text(id, identity.1.as_str()),
        None => false,
    };
    let other_kind = match value.get_text("actor_type") {
        Some(kind) => !same_text(kind, identity.0.as_str()),
        None => false,
    };
    if other_id || other_kind {
        return Err(binding_mismatch("identity.introspection"));
    }
    if value.get("active").is_some() {
        let other_audience = match value.get_text("audience") {
            Some(claimed) => !same_text(claimed, audience),
            None => false,
        };
        let expired = match value.get_integer("expires_at") {
            Some(expiry) => expiry <= now,
            None => true,
        };
        if !text_is(value.get_text("client_id"), audience) || other_audience || expired {
            return Err(IamClientError::Rejected);
        }
    }
    if let Some(membership) = value.get_text("membership_id") {
        let organization = match value.get_text("org_id") {
            Some(organization) => organization,
            None => {
                return Err(binding_mismatch("identity.organization"));
            },
        };
        let expected = membership_name(identity.1.as_str(), organization);
        if !same_text(membership, expected.as_str()) {
            return Err(binding_mismatch("identity.membership"));
        }
    }
    Ok(identity)
}

/// What has to be done with an answer before it is read.
#[derive(Clone, Debug)]
pub enum Preparation {
    /// The token is inactive: nothing is resolved.
    Inactive,
    /// The local keys of this identity are to be resolved.
    Resolve {
        /// Kind of the identity.
        kind: String,
        /// Public identifier.
        public_id: String,
    },
}

/// The outcome of preparing an answer of `size` bytes.
pub open spec fn preparation_of(
    value: Json,
    size: usize,
    maximum: usize,
    audience: Seq<char>,
    environment: Option<&IamEnvironmentCredential>,
    organizations: Seq<String>,
    now: i64,
) -> Result<Option<IdentityChars>, IamClientError> {
    if size > maximum {
        Err(IamClientError::InvalidResponse { reason: "response_size" })
    } else if value.member("active"@) == Some(Json::Bool(false)) {
        Ok(None)
    } else if environment matches Some(plane) && plane.environment_id is None {
        Err(IamClientError::BindingMismatch { binding: "identity.testing_environment" })
    } else {
        match validated_identity_of(
            value,
            audience,
            crate::iam::official::plane_of(environment),
            organizations,
            now,
        ) {
            Ok(identity) => Ok(Some(identity)),
            Err(error) => Err(error),
        }
    }
}

/// Decides whether the local keys of an answer's identity are to be resolved.
pub fn prepare(
    value: &Json,
    size: usize,
    maximum: usize,
    audience: &str,
    environment: Option<&IamEnvironmentCredential>,
    organizations: &Vec<String>,
    now: i64,
) -> (preparation: Result<Preparation, IamClientError>)
    ensures
        match preparation_of(*value, size, maximum, audience@, environment, organizations@, now) {
            Err(error) => preparation == Err::<Preparation, IamClientError>(error),
            Ok(None) => preparation == Ok::<Preparation, IamClientError>(Preparation::Inactive),
            Ok(Some(identity)) => preparation matches Ok(Preparation::Resolve { kind, public_id })
                && (kind@, public_id@) == identity,
        },
{
    check_response_size(size, maximum)?;
    if let Some(Json::Bool(active)) = value.get("active") {
        if !*active {
            return Ok(Preparation::Inactive);
        }
    }
    let selected = match environment {
        Some(plane) => {
            if plane.environment_id.is_none() {
                return Err(binding_mismatch("identity.testing_environment"));
            }
            plane.environment_id
        },
        None => None,
    };
    match validated_identity(value, audience, selected, organizations, now) {
        Ok((kind, public_id)) => Ok(Preparation::Resolve { kind, public_id }),
        Err(error) => Err(error),
    }
}

/// Local keys that stand for the identities of one answer.
#[derive(Clone, Debug)]
pub struct LocalKeys {
    /// Key of the principal.
    pub principal: u128,
    /// Keys of the snapshots' memberships, in their order.
    pub snapshots: Vec<u128>,
    /// Key of the answer's own membership.
    pub membership: Option<u128>,
}

/// An identifier as a structured value.
fn id_value(id: u128) -> (value: Json)
    ensures
        value matches Json::Text(text) && text@ == hyphenated_chars(id),
{
    Json::Text(hyphenated(id))
}

/// Whether a snapshot differs from another one only by its local keys.
pub open spec fn localized_snapshot(
    before: Json,
    after: Json,
    principal: u128,
    membership: u128,
) -> bool {
    if before is Object {
        &&& after is Object
        &&& after.text_member("membership_id"@) == Some(hyphenated_chars(membership))
        &&& after.text_member("principal_id"@) == Some(hyphenated_chars(principal))
        &&& forall|key: Seq<char>|
            key != "membership_id"@ && key != "principal_id"@ ==> #[trigger] after.member(key)
                == before.member(key)
    } else {
        after == before
    }
}

/// The two key names differ.
proof fn lemma_key_names_differ()
    ensures
        "membership_id"@ != "principal_id"@,
{
    reveal_strlit("membership_id");
    reveal_strlit("principal_id");
    assert("membership_id"@[0] != "principal_id"@[0]);
}

/// Gives a snapshot its local keys.
pub fn map_snapshot(snapshot: &mut Json, principal: u128, membership: u128)
    ensures
        localized_snapshot(*old(snapshot), *final(snapshot), principal, membership),
{
    proof {
        lemma_key_names_differ();
    }
    snapshot.set("membership_id", id_value(membership));
    snapshot.set("principal_id", id_value(principal));
}

/// Gives every snapshot of a list its local keys.
fn map_snapshots(snapshots: &mut Vec<Json>, principal: u128, memberships: &Vec<u128>)
    requires
        old(snapshots)@.len() == memberships@.len(),
    ensures
        final(snapshots)@.len() == old(snapshots)@.len(),
        forall|k: int|
            0 <= k < memberships@.len() ==> localized_snapshot(
                old(snapshots)@[k],
                #[trigger] final(snapshots)@[k],
                principal,
                memberships@[k],
            ),
{
    let ghost before = snapshots@;
    let mut index: usize = 0;
    while index < memberships.len()
        invariant
            index <= memberships@.len(),
            before.len() == memberships@.len(),
            snapshots@.len() == memberships@.len(),
            forall|k: int|
                0 <= k < index ==> localized_snapshot(
                    before[k],
                    #[trigger] snapshots@[k],
                    principal,
                    memberships@[k],
                ),
            forall|k: int| index <= k < before.len() ==> #[trigger] snapshots@[k] == before[k],
        decreases memberships@.len() - index,
    {
        map_snapshot(&mut snapshots[index], principal, memberships[index]);
        index += 1;
    }
}

/// The names that localizing an answer touches.
proof fn lemma_touched_names_differ()
    ensures
        "actor"@ != "active"@,
        "actor"@ != "principal_id"@,
        "actor"@ != "public_id"@,
        "actor"@ != "actor_type"@,
        "actor"@ != "authorization"@,
        "actor"@ != "authorizations"@,
        "actor"@ != "membership_id"@,
        "principal_id"@ != "public_id"@,
        "principal_id"@ != "actor_type"@,
        "principal_id"@ != "authorization"@,
        "principal_id"@ != "authorizations"@,
        "principal_id"@ != "membership_id"@,
        "public_id"@ != "actor_type"@,
        "public_id"@ != "authorization"@,
        "public_id"@ != "authorizations"@,
        "public_id"@ != "membership_id"@,
        "actor_type"@ != "authorization"@,
        "actor_type"@ != "authorizations"@,
        "actor_type"@ != "membership_id"@,
        "authorization"@ != "authorizations"@,
        "authorization"@ != "membership_id"@,
        "authorizations"@ != "membership_id"@,
{
    reveal_strlit("actor");
    reveal_strlit("active");
    reveal_strlit("principal_id");
    reveal_strlit("public_id");
    reveal_strlit("actor_type");
    reveal_strlit("authorization");
    reveal_strlit("authorizations");
    reveal_strlit("membership_id");
    assert("actor"@.len() == 5);
    assert("active"@.len() == 6);
    assert("principal_id"@.len() == 12);
    assert("public_id"@.len() == 9);
    assert("actor_type"@.len() == 10);
    assert("authorization"@.len() == 13);
    assert("authorizations"@.len() == 14);
    assert("membership_id"@.len() == 13);
    assert("authorization"@[0] != "membership_id"@[0]);
}

/// Whether an actor differs from another one only by its principal key.
pub open spec fn localized_actor(before: Json, after: Json, principal: u128) -> bool {
    if before is Object {
        &&& after is Object
        &&& after.text_member("principal_id"@) == Some(hyphenated_chars(principal))
        &&& forall|key: Seq<char>|
            key != "principal_id"@ ==> #[trigger] after.member(key) == before.member(key)
    } else {
        after == before
    }
}

/// Whether a member is one that localizing an answer may change.
pub open spec fn touched(key: Seq<char>) -> bool {
    key == "actor"@ || key == "principal_id"@ || key == "public_id"@ || key == "actor_type"@ || key
        == "authorization"@ || key == "authorizations"@ || key == "membership_id"@
}

/// Whether an answer differs from another one only by its local keys and, for
/// an introspection, by the identity that was established for it.
pub open spec fn localized(
    before: Json,
    after: Json,
    identity: IdentityChars,
    keys: LocalKeys,
) -> bool {
    &&& after is Object
    &&& forall|key: Seq<char>| !touched(key) ==> #[trigger] after.member(key) == before.member(key)
    &&& match before.member("actor"@) {
        Some(actor) => after.member("actor"@) is Some && localized_actor(
            actor,
            after.member("actor"@)->0,
            keys.principal,
        ),
        None => after.member("actor"@) is None,
    }
    &&& if before.member("active"@) is Some {
        after.text_member("principal_id"@) == Some(hyphenated_chars(keys.principal))
            && after.text_member("public_id"@) == Some(identity.1) && after.text_member(
            "actor_type"@,
        ) == Some(identity.0)
    } else {
        after.member("principal_id"@) == before.member("principal_id"@) && after.member(
            "public_id"@,
        ) == before.member("public_id"@) && after.member("actor_type"@) == before.member(
            "actor_type"@,
        )
    }
    &&& match before.member("authorization"@) {
        Some(snapshot) => after.member("authorization"@) is Some && localized_snapshot(
            snapshot,
            after.member("authorization"@)->0,
            keys.principal,
            keys.snapshots@[0],
        ),
        None => after.member("authorization"@) is None,
    }
    &&& match before.member("authorizations"@) {
        Some(Json::Array(snapshots)) => after.array_member("authorizations"@).len()
            == snapshots@.len() && forall|k: int|
            0 <= k < snapshots@.len() ==> localized_snapshot(
                snapshots@[k],
                #[trigger] after.array_member("authorizations"@)[k],
                keys.principal,
                keys.snapshots@[k],
            ),
        other => after.member("authorizations"@) == other,
    }
    &&& match before.text_member("membership_id"@) {
        Some(_) => after.text_member("membership_id"@) == Some(
            hyphenated_chars(keys.membership->0),
        ),
        None => after.member("membership_id"@) == before.member("membership_id"@),
    }
}

/// Replaces the public identities of a validated answer by their local keys.
pub fn localize(value: &mut Json, kind: &str, public_id: &str, keys: &LocalKeys)
    requires
        *old(value) is Object,
        old(value).member("authorization"@) is None || old(value).member("authorizations"@) is None,
        keys.snapshots@.len() == snapshots_of(*old(value)).len(),
        keys.membership is Some == old(value).text_member("membership_id"@) is Some,
    ensures
        localized(*old(value), *final(value), (kind@, public_id@), *keys),
{
    proof {
        lemma_touched_names_differ();
    }
    match value.get_mut("actor") {
        Some(actor) => {
            actor.set("principal_id", id_value(keys.principal));
        },
        None => {},
    }
    if value.get("active").is_some() {
        value.set("principal_id", id_value(keys.principal));
        value.set("public_id", Json::Text(public_id.to_owned()));
        value.set("actor_type", Json::Text(kind.to_owned()));
    }
    match value.get_mut("authorization") {
        Some(snapshot) => {
            map_snapshot(snapshot, keys.principal, keys.snapshots[0]);
        },
        None => {},
    }
    match value.get_mut("authorizations") {
        Some(Json::Array(snapshots)) => {
            map_snapshots(snapshots, keys.principal, &keys.snapshots);
        },
        _ => {},
    }
    if let Some(membership) = keys.membership {
        value.set("membership_id", id_value(membership));
    }
}

/// An answer speaks of one identity: where its snapshots agree on one, every
/// snapshot is about it, and none of them names another audience or plane.
pub proof fn law_answers_speak_of_one_identity(
    snapshots: Seq<Json>,
    audience: Seq<char>,
    environment: Option<u128>,
    organizations: Seq<String>,
    index: int,
)
    requires
        agreed_identity(snapshots, audience, environment, organizations) is Ok,
        0 <= index < snapshots.len(),
    ensures
        agreed_identity(snapshots, audience, environment, organizations) matches Ok(Some(identity))
            && snapshot_identity_of(snapshots[index], audience, environment, organizations) == Ok::<
            IdentityChars,
            IamClientError,
        >(identity),
        snapshots[index].text_member("audience"@) == Some(audience),
        plane_claim(snapshots[index]) == Some(environment),
    decreases snapshots.len(),
{
    if index < snapshots.len() - 1 {
        law_answers_speak_of_one_identity(
            snapshots.drop_last(),
            audience,
            environment,
            organizations,
            index,
        );
    }
}

} // verus!
