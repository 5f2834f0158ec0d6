//! The order of texts by their bytes, and ordered lists without repetition.

use vstd::prelude::*;
use vstd::utf8::encode_utf8;

use crate::text::{lemma_encoding_is_injective, same_text};

verus! {

/// Whether a byte string comes before another one in dictionary order.
pub open spec fn bytes_precede(left: Seq<u8>, right: Seq<u8>) -> bool
    decreases left.len(),
{
    if right.len() == 0 {
        false
    } else if left.len() == 0 {
        true
    } else if left[0] != right[0] {
        left[0] < right[0]
    } else {
        bytes_precede(left.drop_first(), right.drop_first())
    }
}

/// Whether a text comes before another one in the dictionary order of their
/// bytes.
pub open spec fn text_precedes(left: Seq<char>, right: Seq<char>) -> bool {
    bytes_precede(encode_utf8(left), encode_utf8(right))
}

/// Whether each text of a list comes before every later one.
pub open spec fn strictly_sorted(list: Seq<String>) -> bool {
    forall|i: int, j: int|
        0 <= i < j < list.len() ==> text_precedes((#[trigger] list[i])@, (#[trigger] list[j])@)
}

/// Whether a list holds a text.
pub open spec fn lists(list: Seq<String>, text: Seq<char>) -> bool {
    exists|k: int| 0 <= k < list.len() && (#[trigger] list[k])@ == text
}

/// No byte string comes before itself.
pub proof fn lemma_precedence_is_irreflexive(bytes: Seq<u8>)
    ensures
        !bytes_precede(bytes, bytes),
    decreases bytes.len(),
{
    if bytes.len() > 0 {
        lemma_precedence_is_irreflexive(bytes.drop_first());
    }
}

/// Precedence chains.
pub proof fn lemma_precedence_is_transitive(a: Seq<u8>, b: Seq<u8>, c: Seq<u8>)
    requires
        bytes_precede(a, b),
        bytes_precede(b, c),
    ensures
        bytes_precede(a, c),
    decreases a.len(),
{
    if a.len() > 0 && b.len() > 0 && c.len() > 0 && a[0] == b[0] && b[0] == c[0] {
        lemma_precedence_is_transitive(a.drop_first(), b.drop_first(), c.drop_first());
    }
}

/// Of two different byte strings one comes before the other.
pub proof fn lemma_precedence_is_total(a: Seq<u8>, b: Seq<u8>)
    requires
        !bytes_precede(a, b),
        a != b,
    ensures
        bytes_precede(b, a),
    decreases a.len(),
{
    if a.len() == 0 {
        if b.len() == 0 {
            assert(a =~= b);
        }
    } else if b.len() > 0 && a[0] == b[0] {
        if a.drop_first() == b.drop_first() {
            assert(a =~= seq![a[0]] + a.drop_first());
            assert(b =~= seq![b[0]] + b.drop_first());
        }
        lemma_precedence_is_total(a.drop_first(), b.drop_first());
    }
}

/// Whether a byte string comes before another one in dictionary order.
pub fn precede(left: &[u8], right: &[u8]) -> (answer: bool)
    ensures
        answer == bytes_precede(left@, right@),
{
    let mut index: usize = 0;
    assert(left@.skip(0) =~= left@);
    assert(right@.skip(0) =~= right@);
    while index < left.len() && index < right.len()
        invariant
            index <= left@.len(),
            index <= right@.len(),
            bytes_precede(left@, right@) == bytes_precede(
                left@.skip(index as int),
                right@.skip(index as int),
            ),
        decreases left@.len() - index,
    {
        if left[index] != right[index] {
            return left[index] < right[index];
        }
        assert(left@.skip(index as int).drop_first() =~= left@.skip(index + 1));
        assert(right@.skip(index as int).drop_first() =~= right@.skip(index + 1));
        index += 1;
    }
    index == left.len() && index < right.len()
}

/// Whether a text comes before another one.
pub fn precedes(left: &str, right: &str) -> (answer: bool)
    ensures
        answer == text_precedes(left@, right@),
{
    precede(left.as_bytes(), right.as_bytes())
}

/// Adds a text to an ordered list unless the list already holds it.
pub fn insert_text(list: &mut Vec<String>, text: String)
    requires
        strictly_sorted(old(list)@),
    ensures
        strictly_sorted(final(list)@),
        forall|other: Seq<char>|
            #[trigger] lists(final(list)@, other) == (lists(old(list)@, other) || other == text@),
{
    let mut position: usize = 0;
    while position < list.len() && precedes(list[position].as_str(), text.as_str())
        invariant
            position <= list@.len(),
            list@ == old(list)@,
            forall|k: int| 0 <= k < position ==> text_precedes((#[trigger] list@[k])@, text@),
        decreases list@.len() - position,
    {
        position += 1;
    }
    if position < list.len() && same_text(list[position].as_str(), text.as_str()) {
        assert(list@[position as int]@ == text@);
        assert forall|other: Seq<char>| #[trigger]
            lists(list@, other) == (lists(old(list)@, other) || other == text@) by {
            if other == text@ {
                assert(list@[position as int]@ == other);
            }
        }
        return ;
    }
    let ghost before = list@;
    let ghost added = text@;
    list.insert(position, text);
    proof {
        if position < before.len() {
            if encode_utf8(before[position as int]@) == encode_utf8(added) {
                lemma_encoding_is_injective(before[position as int]@, added);
            }
            lemma_precedence_is_total(encode_utf8(before[position as int]@), encode_utf8(added));
        }
        assert forall|k: int| position < k < list@.len() implies text_precedes(
            added,
            (#[trigger] list@[k])@,
        ) by {
            assert(list@[k] == before[k - 1]);
            if k - 1 > position {
                lemma_precedence_is_transitive(
                    encode_utf8(added),
                    encode_utf8(before[position as int]@),
                    encode_utf8(before[k - 1]@),
                );
            }
        }
        assert forall|i: int, j: int| 0 <= i < j < list@.len() implies text_precedes(
            (#[trigger] list@[i])@,
            (#[trigger] list@[j])@,
        ) by {
            if i < position {
                assert(list@[i] == before[i]);
            } else if i > position {
                assert(list@[i] == before[i - 1]);
            }
            if j < position {
                assert(list@[j] == before[j]);
            } else if j > position {
                assert(list@[j] == before[j - 1]);
            }
        }
        assert forall|other: Seq<char>| #[trigger]
            lists(list@, other) == (lists(before, other) || other == added) by {
            if lists(before, other) {
                let k = choose|k: int| 0 <= k < before.len() && (#[trigger] before[k])@ == other;
                if k < position {
                    assert(list@[k]@ == other);
                } else {
                    assert(list@[k + 1]@ == other);
                }
            }
            if other == added {
                assert(list@[position as int]@ == other);
            }
            if lists(list@, other) {
                let k = choose|k: int| 0 <= k < list@.len() && (#[trigger] list@[k])@ == other;
                if k < position {
                    assert(before[k]@ == other);
                } else if k > position {
                    assert(before[k - 1]@ == other);
                }
            }
        }
    }
}

} // verus!
