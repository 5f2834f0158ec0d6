//! Text comparison, trimming and measuring shared by every module.
//!
//! A text is modelled by its sequence of characters; its length in bytes is
//! the length of its UTF-8 encoding.

use vstd::prelude::*;
use vstd::utf8::*;

verus! {

/// Whether a character has the Unicode `White_Space` property.
pub open spec fn is_white_space(character: char) -> bool {
    let code = character as u32;
    ||| 0x09 <= code <= 0x0d
    ||| code == 0x20
    ||| code == 0x85
    ||| code == 0xa0
    ||| code == 0x1680
    ||| 0x2000 <= code <= 0x200a
    ||| code == 0x2028
    ||| code == 0x2029
    ||| code == 0x202f
    ||| code == 0x205f
    ||| code == 0x3000
}

/// Whether a character is a Unicode control code, one of general category Cc.
pub open spec fn is_control_code(character: char) -> bool {
    let code = character as u32;
    code < 0x20 || 0x7f <= code <= 0x9f
}

/// `char::is_whitespace` of the standard library decides the `White_Space`
/// property, which Unicode gives to the listed characters and no others.
pub assume_specification[ char::is_whitespace ](character: char) -> (answer: bool)
    ensures
        answer == is_white_space(character),
;

/// `char::is_control` of the standard library decides the category of control
/// codes: the two ranges that ASCII and Latin-1 reserve for them.
pub assume_specification[ char::is_control ](character: char) -> (answer: bool)
    ensures
        answer == is_control_code(character),
;

/// `String::push` of the standard library appends one character.
pub assume_specification[ String::push ](text: &mut String, character: char)
    ensures
        final(text)@ == old(text)@.push(character),
;

/// The number of bytes that a text takes in UTF-8.
pub open spec fn byte_len(text: Seq<char>) -> nat {
    encode_utf8(text).len()
}

/// The optional text as optional characters.
pub open spec fn optional_chars(text: Option<String>) -> Option<Seq<char>> {
    match text {
        Some(value) => Some(value@),
        None => None,
    }
}

/// The characters of an optional borrowed text.
pub open spec fn borrowed_chars(text: Option<&str>) -> Option<Seq<char>> {
    match text {
        Some(value) => Some(value@),
        None => None,
    }
}

/// The characters left when leading white space is taken away.
pub open spec fn trim_start(text: Seq<char>) -> Seq<char>
    decreases text.len(),
{
    if text.len() > 0 && is_white_space(text[0]) {
        trim_start(text.drop_first())
    } else {
        text
    }
}

/// The characters left when trailing white space is taken away.
pub open spec fn trim_end(text: Seq<char>) -> Seq<char>
    decreases text.len(),
{
    if text.len() > 0 && is_white_space(text.last()) {
        trim_end(text.drop_last())
    } else {
        text
    }
}

/// The characters left when white space is taken away at both ends.
pub open spec fn trim(text: Seq<char>) -> Seq<char> {
    trim_end(trim_start(text))
}

/// The longest prefix that takes at most `maximum` bytes: characters are
/// dropped from the end until the rest fits.
pub open spec fn longest_prefix(text: Seq<char>, maximum: nat) -> Seq<char>
    decreases text.len(),
{
    if text.len() == 0 || byte_len(text) <= maximum {
        text
    } else {
        longest_prefix(text.drop_last(), maximum)
    }
}

/// Two texts with the same UTF-8 encoding are the same text.
pub proof fn lemma_encoding_is_injective(left: Seq<char>, right: Seq<char>)
    requires
        encode_utf8(left) == encode_utf8(right),
    ensures
        left == right,
{
    encode_utf8_decode_utf8(left);
    encode_utf8_decode_utf8(right);
}

/// The encoding of two texts in a row is the two encodings in a row.
pub proof fn lemma_encoding_of_concatenation(left: Seq<char>, right: Seq<char>)
    ensures
        encode_utf8(left + right) == encode_utf8(left) + encode_utf8(right),
    decreases left.len(),
{
    if left.len() == 0 {
        assert(left + right =~= right);
        assert(encode_utf8(left) =~= Seq::<u8>::empty());
    } else {
        lemma_encoding_of_concatenation(left.drop_first(), right);
        assert((left + right).drop_first() =~= left.drop_first() + right);
        assert((left + right)[0] == left[0]);
    }
}

/// Appending a character adds the width of that character.
pub proof fn lemma_byte_len_of_push(text: Seq<char>, character: char)
    ensures
        byte_len(text.push(character)) == byte_len(text) + encode_scalar(character as u32).len(),
{
    lemma_encoding_of_concatenation(text, seq![character]);
    assert(text.push(character) =~= text + seq![character]);
    let single = seq![character];
    assert(single.drop_first() =~= Seq::<char>::empty());
    assert(encode_utf8(single.drop_first()) =~= Seq::<u8>::empty());
    assert(encode_utf8(single) =~= encode_scalar(character as u32));
}

/// What is left behind leading white space does not start with white space.
pub proof fn lemma_trim_start_starts_plainly(text: Seq<char>)
    ensures
        trim_start(text).len() > 0 ==> !is_white_space(trim_start(text)[0]),
    decreases text.len(),
{
    if text.len() > 0 && is_white_space(text[0]) {
        lemma_trim_start_starts_plainly(text.drop_first());
    }
}

/// Trimming at the end never lengthens a text and gives one of its prefixes.
pub proof fn lemma_trim_end_is_prefix(text: Seq<char>)
    ensures
        trim_end(text).len() <= text.len(),
        trim_end(text) == text.take(trim_end(text).len() as int),
        trim_end(text).len() > 0 ==> !is_white_space(trim_end(text).last()),
    decreases text.len(),
{
    if text.len() > 0 && is_white_space(text.last()) {
        lemma_trim_end_is_prefix(text.drop_last());
        assert(trim_end(text) =~= text.take(trim_end(text).len() as int));
    } else {
        assert(trim_end(text) =~= text.take(text.len() as int));
    }
}

/// Trimming at the start gives one of the text's suffixes.
pub proof fn lemma_trim_start_is_suffix(text: Seq<char>)
    ensures
        trim_start(text).len() <= text.len(),
        trim_start(text) == text.skip(text.len() - trim_start(text).len()),
        trim_start(text).len() > 0 ==> !is_white_space(trim_start(text)[0]),
    decreases text.len(),
{
    if text.len() > 0 && is_white_space(text[0]) {
        lemma_trim_start_is_suffix(text.drop_first());
        assert(trim_start(text) =~= text.skip(text.len() - trim_start(text).len()));
    } else {
        assert(trim_start(text) =~= text.skip(0));
    }
}

/// A text is its own trimming exactly when neither end is white space.
pub proof fn lemma_trimmed_texts(text: Seq<char>)
    ensures
        trim(text) == text <==> (text.len() == 0 || (!is_white_space(text[0]) && !is_white_space(
            text.last(),
        ))),
{
    lemma_trim_start_is_suffix(text);
    lemma_trim_end_is_prefix(trim_start(text));
    if trim(text) == text {
        assert(trim_start(text).len() == text.len());
        assert(trim_start(text) =~= text);
    }
}

/// The longest fitting prefix is a prefix, fits, and cannot be extended.
pub proof fn lemma_longest_prefix(text: Seq<char>, maximum: nat)
    ensures
        longest_prefix(text, maximum).len() <= text.len(),
        longest_prefix(text, maximum) == text.take(longest_prefix(text, maximum).len() as int),
        byte_len(longest_prefix(text, maximum)) <= maximum,
    decreases text.len(),
{
    if text.len() == 0 {
        assert(encode_utf8(text) =~= Seq::<u8>::empty());
        assert(text =~= text.take(0));
    } else if byte_len(text) <= maximum {
        assert(text =~= text.take(text.len() as int));
    } else {
        lemma_longest_prefix(text.drop_last(), maximum);
        assert(longest_prefix(text, maximum) =~= text.take(
            longest_prefix(text, maximum).len() as int,
        ));
    }
}

/// Whether two texts are equal.
pub fn same_text(left: &str, right: &str) -> (same: bool)
    ensures
        same == (left@ == right@),
{
    let a: &[u8] = left.as_bytes();
    let b: &[u8] = right.as_bytes();
    if same_bytes(a, b) {
        proof {
            lemma_encoding_is_injective(left@, right@);
        }
        true
    } else {
        false
    }
}

/// Whether two byte strings are equal.
pub fn same_bytes(left: &[u8], right: &[u8]) -> (same: bool)
    ensures
        same == (left@ == right@),
{
    if left.len() != right.len() {
        return false;
    }
    let mut index: usize = 0;
    while index < left.len()
        invariant
            left@.len() == right@.len(),
            index <= left@.len(),
            forall|k: int| 0 <= k < index ==> left@[k] == right@[k],
        decreases left@.len() - index,
    {
        if left[index] != right[index] {
            return false;
        }
        index += 1;
    }
    assert(left@ =~= right@);
    true
}

/// Whether an optional text is present and equal to another text.
pub fn optional_text_is(optional: &Option<String>, text: &str) -> (same: bool)
    ensures
        same == (optional_chars(*optional) == Some(text@)),
{
    match optional {
        Some(value) => same_text(value.as_str(), text),
        None => false,
    }
}

/// Whether two optional texts are both absent or both present and equal.
pub fn same_optional_text(left: &Option<String>, right: &Option<String>) -> (same: bool)
    ensures
        same == (optional_chars(*left) == optional_chars(*right)),
{
    match (left, right) {
        (Some(a), Some(b)) => same_text(a.as_str(), b.as_str()),
        (None, None) => true,
        _ => false,
    }
}

/// A copy of an optional text.
pub fn clone_optional_text(optional: &Option<String>) -> (copy: Option<String>)
    ensures
        copy == *optional,
{
    match optional {
        Some(value) => Some(value.clone()),
        None => None,
    }
}

/// Whether some text of a list equals the given text.
pub fn contains_text(list: &Vec<String>, text: &str) -> (found: bool)
    ensures
        found == exists|k: int| 0 <= k < list@.len() && (#[trigger] list@[k])@ == text@,
{
    let mut index: usize = 0;
    while index < list.len()
        invariant
            index <= list@.len(),
            forall|k: int| 0 <= k < index ==> (#[trigger] list@[k])@ != text@,
        decreases list@.len() - index,
    {
        if same_text(list[index].as_str(), text) {
            return true;
        }
        index += 1;
    }
    false
}

/// The characters of a text.
pub fn characters(text: &str) -> (characters: Vec<char>)
    ensures
        characters@ == text@,
{
    let mut characters: Vec<char> = Vec::new();
    for character in iter: text.chars()
        invariant
            iter.seq() == text@,
            characters@ == text@.take(iter.index()),
    {
        characters.push(character);
        assert(text@.take(iter.index() + 1) =~= text@.take(iter.index()).push(character));
    }
    assert(text@.take(text@.len() as int) =~= text@);
    characters
}

/// The text made of the given characters.
pub fn from_characters(characters: &Vec<char>, from: usize, to: usize) -> (text: String)
    requires
        from <= to <= characters@.len(),
    ensures
        text@ == characters@.subrange(from as int, to as int),
{
    let mut text = String::new();
    let mut index: usize = from;
    assert(characters@.subrange(from as int, from as int) =~= Seq::<char>::empty());
    while index < to
        invariant
            from <= index <= to <= characters@.len(),
            text@ == characters@.subrange(from as int, index as int),
        decreases to - index,
    {
        text.push(characters[index]);
        index += 1;
        assert(characters@.subrange(from as int, index as int) =~= characters@.subrange(
            from as int,
            index - 1,
        ).push(characters@[index - 1]));
    }
    text
}

/// Whether a text begins with another one.
pub fn begins_with(text: &str, prefix: &str) -> (answer: bool)
    ensures
        answer == prefix@.is_prefix_of(text@),
{
    let whole = characters(text);
    let start = characters(prefix);
    if start.len() > whole.len() {
        return false;
    }
    let mut index: usize = 0;
    while index < start.len()
        invariant
            index <= start@.len() <= whole@.len(),
            whole@ == text@,
            start@ == prefix@,
            forall|k: int| 0 <= k < index ==> start@[k] == whole@[k],
        decreases start@.len() - index,
    {
        if start[index] != whole[index] {
            assert(start@[index as int] != whole@.subrange(0, start@.len() as int)[index as int]);
            return false;
        }
        index += 1;
    }
    assert(whole@.subrange(0, start@.len() as int) =~= start@);
    true
}

/// Whether a text has no white space at either end.
pub fn is_trimmed(text: &str) -> (answer: bool)
    ensures
        answer == (trim(text@) == text@),
{
    let characters = characters(text);
    proof {
        lemma_trimmed_texts(text@);
    }
    characters.len() == 0 || (!characters[0].is_whitespace() && !characters[characters.len()
        - 1].is_whitespace())
}

/// Whether a text holds nothing but white space.
pub fn is_blank(text: &str) -> (answer: bool)
    ensures
        answer == (trim(text@).len() == 0),
{
    let characters = characters(text);
    let bounds = trim_bounds(&characters);
    bounds.0 == bounds.1
}

/// The index range of a text that trimming leaves.
pub fn trim_bounds(characters: &Vec<char>) -> (bounds: (usize, usize))
    ensures
        bounds.0 <= bounds.1 <= characters@.len(),
        characters@.subrange(bounds.0 as int, bounds.1 as int) == trim(characters@),
{
    let mut start: usize = 0;
    assert(characters@.skip(0) =~= characters@);
    while start < characters.len() && characters[start].is_whitespace()
        invariant
            start <= characters@.len(),
            trim_start(characters@) == trim_start(characters@.skip(start as int)),
        decreases characters@.len() - start,
    {
        assert(characters@.skip(start as int).drop_first() =~= characters@.skip(start + 1));
        start += 1;
    }
    assert(trim_start(characters@) == characters@.skip(start as int));
    let mut end: usize = characters.len();
    assert(characters@.subrange(start as int, end as int) =~= characters@.skip(start as int));
    while end > start && characters[end - 1].is_whitespace()
        invariant
            start <= end <= characters@.len(),
            trim(characters@) == trim_end(characters@.subrange(start as int, end as int)),
        decreases end,
    {
        assert(characters@.subrange(start as int, end as int).drop_last()
            =~= characters@.subrange(start as int, end - 1));
        end -= 1;
    }
    (start, end)
}

/// Whether a text holds a control code.
pub fn has_control_code(text: &str) -> (answer: bool)
    ensures
        answer == exists|k: int| 0 <= k < text@.len() && is_control_code(#[trigger] text@[k]),
{
    let characters = characters(text);
    let mut index: usize = 0;
    while index < characters.len()
        invariant
            index <= characters@.len(),
            characters@ == text@,
            forall|k: int| 0 <= k < index ==> !is_control_code(#[trigger] text@[k]),
        decreases characters@.len() - index,
    {
        if characters[index].is_control() {
            return true;
        }
        index += 1;
    }
    false
}

/// The number of bytes that one character takes in UTF-8.
pub fn character_width(character: char) -> (width: usize)
    ensures
        width == encode_scalar(character as u32).len(),
        1 <= width <= 4,
{
    let scalar: u32 = character as u32;
    if scalar < 0x80 {
        1
    } else if scalar < 0x800 {
        2
    } else if scalar < 0x10000 {
        3
    } else {
        4
    }
}

/// How many leading characters fit into `maximum` bytes.
pub fn fitting_prefix(characters: &Vec<char>, maximum: usize) -> (length: usize)
    ensures
        length <= characters@.len(),
        characters@.take(length as int) == longest_prefix(characters@, maximum as nat),
{
    let mut length: usize = 0;
    let mut bytes: usize = 0;
    proof {
        assert(characters@.take(0) =~= Seq::<char>::empty());
        assert(encode_utf8(characters@.take(0)) =~= Seq::<u8>::empty());
    }
    while length < characters.len() && character_width(characters[length]) <= maximum - bytes
        invariant
            length <= characters@.len(),
            bytes <= maximum,
            bytes == byte_len(characters@.take(length as int)),
        ensures
            length <= characters@.len(),
            bytes <= maximum,
            bytes == byte_len(characters@.take(length as int)),
            length < characters@.len() ==> bytes + encode_scalar(
                characters@[length as int] as u32,
            ).len() > maximum,
        decreases characters@.len() - length,
    {
        let character = characters[length];
        proof {
            lemma_byte_len_of_push(characters@.take(length as int), character);
            assert(characters@.take(length + 1) =~= characters@.take(length as int).push(
                character,
            ));
        }
        bytes += character_width(character);
        length += 1;
    }
    proof {
        lemma_prefix_is_longest(characters@, length as nat, maximum as nat);
    }
    length
}

/// A prefix that fits and whose extension by one character does not fit is
/// the longest fitting prefix.
proof fn lemma_prefix_is_longest(text: Seq<char>, length: nat, maximum: nat)
    requires
        length <= text.len(),
        byte_len(text.take(length as int)) <= maximum,
        length < text.len() ==> byte_len(text.take(length as int)) + encode_scalar(
            text[length as int] as u32,
        ).len() > maximum,
    ensures
        text.take(length as int) == longest_prefix(text, maximum),
    decreases text.len(),
{
    if length == text.len() {
        assert(text.take(length as int) =~= text);
    } else {
        lemma_byte_len_is_monotone(text, length + 1);
        lemma_byte_len_of_push(text.take(length as int), text[length as int]);
        assert(text.take(length as int + 1) =~= text.take(length as int).push(text[length as int]));
        let shorter = text.drop_last();
        assert(shorter.take(length as int) =~= text.take(length as int));
        lemma_prefix_is_longest(shorter, length, maximum);
    }
}

/// A prefix takes no more bytes than the whole.
pub proof fn lemma_byte_len_is_monotone(text: Seq<char>, length: nat)
    requires
        length <= text.len(),
    ensures
        byte_len(text.take(length as int)) <= byte_len(text),
{
    lemma_encoding_of_concatenation(text.take(length as int), text.skip(length as int));
    assert(text =~= text.take(length as int) + text.skip(length as int));
}

/// The decimal digits of a number.
pub open spec fn decimal(value: nat) -> Seq<char>
    decreases value,
{
    if value < 10 {
        seq![(0x30 + value) as char]
    } else {
        decimal(value / 10).push((0x30 + value % 10) as char)
    }
}

/// Appends the decimal digits of a number to a text.
pub fn push_decimal(text: &mut String, value: u64)
    ensures
        final(text)@ == old(text)@ + decimal(value as nat),
    decreases value,
{
    let digit: u8 = (value % 10) as u8;
    if value >= 10 {
        push_decimal(text, value / 10);
        let ghost before = text@;
        text.push((0x30u8 + digit) as char);
        assert(before.push((0x30 + value as nat % 10) as char) =~= old(text)@ + decimal(
            value as nat,
        ));
    } else {
        text.push((0x30u8 + digit) as char);
        assert(text@ =~= old(text)@ + decimal(value as nat));
    }
}

} // verus!
