//! Structured values of a dynamically shaped answer.

use vstd::prelude::*;

use crate::text::same_text;

verus! {

/// One structured value.
#[derive(Debug)]
pub enum Json {
    /// No value.
    Null,
    /// A truth value.
    Bool(bool),
    /// A number that a signed 64-bit integer holds.
    Integer(i64),
    /// Any other number, by its text.
    Number(String),
    /// A text.
    Text(String),
    /// A list.
    Array(Vec<Json>),
    /// Named members.
    Object(Vec<JsonMember>),
}

/// One named member of an object.
#[derive(Debug)]
pub struct JsonMember {
    /// Name of the member.
    pub key: String,
    /// Value of the member.
    pub value: Json,
}

/// The value of the first member with the given name.
pub open spec fn member_of(members: Seq<JsonMember>, key: Seq<char>) -> Option<Json>
    decreases members.len(),
{
    if members.len() == 0 {
        None
    } else if members[0].key@ == key {
        Some(members[0].value)
    } else {
        member_of(members.drop_first(), key)
    }
}

/// The members with the value at an index changed.
pub open spec fn with_value(members: Seq<JsonMember>, index: int, value: Json) -> Seq<JsonMember> {
    members.update(index, JsonMember { key: members[index].key, value })
}

/// Changing the value of the first member with some name changes what that
/// name stands for and nothing else.
proof fn lemma_member_of_update(
    members: Seq<JsonMember>,
    index: int,
    value: Json,
    other: Seq<char>,
)
    requires
        0 <= index < members.len(),
        forall|k: int| 0 <= k < index ==> (#[trigger] members[k]).key@ != members[index].key@,
    ensures
        member_of(with_value(members, index, value), other) == if other == members[index].key@ {
            Some(value)
        } else {
            member_of(members, other)
        },
    decreases members.len(),
{
    let updated = with_value(members, index, value);
    if index == 0 {
        assert(updated.drop_first() =~= members.drop_first());
    } else {
        let rest = members.drop_first();
        assert forall|k: int| 0 <= k < index - 1 implies (#[trigger] rest[k]).key@ != rest[index
            - 1].key@ by {
            assert(rest[k] == members[k + 1]);
        }
        lemma_member_of_update(rest, index - 1, value, other);
        assert(updated.drop_first() =~= with_value(rest, index - 1, value));
        assert(members[0].key@ != members[index].key@);
    }
}

/// Adding a member behind the others gives its name a meaning where it had
/// none and changes nothing else.
proof fn lemma_member_of_push(members: Seq<JsonMember>, added: JsonMember, other: Seq<char>)
    ensures
        member_of(members.push(added), other) == match member_of(members, other) {
            Some(value) => Some(value),
            None => if added.key@ == other {
                Some(added.value)
            } else {
                None
            },
        },
    decreases members.len(),
{
    if members.len() > 0 {
        lemma_member_of_push(members.drop_first(), added, other);
        assert(members.push(added).drop_first() =~= members.drop_first().push(added));
    } else {
        assert(members.push(added).drop_first() =~= members);
    }
}

/// The index of the first member with the given name.
fn position(members: &Vec<JsonMember>, key: &str) -> (found: Option<usize>)
    ensures
        match found {
            Some(index) => index < members@.len() && members@[index as int].key@ == key@
                && member_of(members@, key@) == Some(members@[index as int].value) && (forall|k: int|
                0 <= k < index ==> (#[trigger] members@[k]).key@ != key@),
            None => member_of(members@, key@) is None,
        },
{
    let mut index: usize = 0;
    assert(members@.skip(0) =~= members@);
    while index < members.len()
        invariant
            index <= members@.len(),
            member_of(members@, key@) == member_of(members@.skip(index as int), key@),
            forall|k: int| 0 <= k < index ==> (#[trigger] members@[k]).key@ != key@,
        decreases members@.len() - index,
    {
        assert(members@.skip(index as int).drop_first() =~= members@.skip(index + 1));
        if same_text(members[index].key.as_str(), key) {
            return Some(index);
        }
        index += 1;
    }
    None
}

impl Json {
    /// The member with the given name, if this is an object that has it.
    pub open spec fn member(self, key: Seq<char>) -> Option<Json> {
        match self {
            Json::Object(members) => member_of(members@, key),
            _ => None,
        }
    }

    /// The text of the member with the given name, if it has one.
    pub open spec fn text_member(self, key: Seq<char>) -> Option<Seq<char>> {
        match self.member(key) {
            Some(Json::Text(text)) => Some(text@),
            _ => None,
        }
    }

    /// The integer of the member with the given name, if it has one.
    pub open spec fn integer_member(self, key: Seq<char>) -> Option<i64> {
        match self.member(key) {
            Some(Json::Integer(value)) => Some(value),
            _ => None,
        }
    }

    /// The list of the member with the given name; empty where there is none.
    pub open spec fn array_member(self, key: Seq<char>) -> Seq<Json> {
        match self.member(key) {
            Some(Json::Array(items)) => items@,
            _ => Seq::empty(),
        }
    }

    /// The member with the given name, if this is an object that has it.
    pub fn get(&self, key: &str) -> (found: Option<&Json>)
        ensures
            found is Some == self.member(key@) is Some,
            found matches Some(value) ==> self.member(key@) == Some(*value),
    {
        match self {
            Json::Object(members) => match position(members, key) {
                Some(index) => Some(&members[index].value),
                None => None,
            },
            _ => None,
        }
    }

    /// A mutable reference to the member with the given name. Whatever it is
    /// set to, the other members stay as they are.
    pub fn get_mut(&mut self, key: &str) -> (found: Option<&mut Json>)
        ensures
            found is Some == old(self).member(key@) is Some,
            match found {
                Some(value) => old(self).member(key@) == Some(*value) && final(self).member(key@)
                    == Some(*final(value)) && (forall|other: Seq<char>|
                    other != key@ ==> #[trigger] final(self).member(other) == old(self).member(
                        other,
                    )),
                None => *final(self) == *old(self),
            },
    {
        match self {
            Json::Object(members) => {
                match position(members, key) {
                    Some(index) => {
                        let ghost before = members@;
                        proof {
                            assert forall|after: Seq<JsonMember>, other: Seq<char>|
                                after == before.update(index as int, after[index as int])
                                    && after[index as int].key
                                    == before[index as int].key implies #[trigger] member_of(
                                after,
                                other,
                            ) == if other == key@ {
                                Some(after[index as int].value)
                            } else {
                                member_of(before, other)
                            } by {
                                let value = after[index as int].value;
                                assert(after =~= with_value(before, index as int, value));
                                lemma_member_of_update(before, index as int, value, other);
                            }
                        }
                        Some(&mut members[index].value)
                    },
                    None => None,
                }
            },
            _ => None,
        }
    }

    /// Gives an object's member a new value. Anything but an object stays as
    /// it is.
    pub fn set(&mut self, key: &str, value: Json)
        ensures
            *old(self) is Object ==> *final(self) is Object && final(self).member(key@) == Some(
                value,
            ) && (forall|other: Seq<char>|
                other != key@ ==> #[trigger] final(self).member(other) == old(self).member(other)),
            !(*old(self) is Object) ==> *final(self) == *old(self),
    {
        match self {
            Json::Object(members) => {
                let ghost before = members@;
                match position(members, key) {
                    Some(index) => {
                        let name = members[index].key.clone();
                        members.set(index, JsonMember { key: name, value });
                        proof {
                            assert(members@ =~= with_value(before, index as int, value));
                            assert forall|other: Seq<char>| #[trigger]
                                member_of(members@, other) == if other == key@ {
                                    Some(value)
                                } else {
                                    member_of(before, other)
                                } by {
                                lemma_member_of_update(before, index as int, value, other);
                            }
                        }
                    },
                    None => {
                        let added = JsonMember { key: key.to_owned(), value };
                        members.push(added);
                        proof {
                            assert forall|other: Seq<char>| #[trigger]
                                member_of(members@, other) == if other == key@ {
                                    Some(value)
                                } else {
                                    member_of(before, other)
                                } by {
                                lemma_member_of_push(before, added, other);
                            }
                        }
                    },
                }
            },
            _ => {},
        }
    }

    /// The text of the member with the given name, if it has one.
    pub fn get_text(&self, key: &str) -> (found: Option<&str>)
        ensures
            found is Some == self.text_member(key@) is Some,
            found matches Some(text) ==> self.text_member(key@) == Some(text@),
    {
        match self.get(key) {
            Some(Json::Text(text)) => Some(text.as_str()),
            _ => None,
        }
    }

    /// The integer of the member with the given name, if it has one.
    pub fn get_integer(&self, key: &str) -> (found: Option<i64>)
        ensures
            found == self.integer_member(key@),
    {
        match self.get(key) {
            Some(Json::Integer(value)) => Some(*value),
            _ => None,
        }
    }

    /// Whether this is an object.
    pub fn is_object(&self) -> (answer: bool)
        ensures
            answer == (*self is Object),
    {
        match self {
            Json::Object(_) => true,
            _ => false,
        }
    }

    /// Whether this is no value.
    pub fn is_null(&self) -> (answer: bool)
        ensures
            answer == (*self is Null),
    {
        match self {
            Json::Null => true,
            _ => false,
        }
    }
}

} // verus!
