//! Reserved folders that every organization has: the public and the private
//! root, one root per tag and one per member.

use vstd::prelude::*;

use crate::ids::{simple, simple_chars};
use crate::text::{
    byte_len, characters, decimal, fitting_prefix, from_characters, is_control_code,
    is_white_space, lemma_byte_len_is_monotone, lemma_encoding_of_concatenation,
    lemma_longest_prefix, lemma_trim_end_is_prefix, lemma_trim_start_starts_plainly,
    longest_prefix, optional_chars, push_decimal, same_optional_text, same_text, trim,
    trim_bounds, trim_end, trim_start,
};

verus! {

/// Longest name of an entry, in bytes.
pub const MAX_ENTRY_NAME_BYTES: usize = 255;

/// Names tried for one reserved folder before giving up.
pub const MAX_NAME_ATTEMPTS: u8 = 16;

/// The reserved folders of an organization contradict each other.
pub const MALFORMED_SYSTEM_ROOT: &'static str = "malformed existing system root";

/// One reserved folder as stored.
#[derive(Clone, Debug)]
pub struct ExistingSystemRoot {
    /// Entry identifier.
    pub entry_id: u128,
    /// Parent folder.
    pub parent_id: Option<u128>,
    /// Kind of the entry.
    pub entry_type: String,
    /// Kind of the boundary.
    pub root_type: String,
    /// Tag of the boundary.
    pub tag_id: Option<String>,
    /// Reserved classification.
    pub system_kind: String,
    /// Kind of the owner.
    pub owner_type: String,
    /// Identifier of the owner.
    pub owner_id: String,
    /// Application that created the entry.
    pub origin_app_id: Option<String>,
    /// Media type.
    pub content_type: Option<String>,
    /// Size in bytes.
    pub size_bytes: Option<i64>,
    /// Current content version.
    pub current_version_id: Option<u128>,
    /// Deletion that removed the entry.
    pub deletion_batch_id: Option<u128>,
    /// Time of deletion.
    pub deleted_at: Option<i128>,
    /// Time of final removal.
    pub purge_after: Option<i128>,
    /// Whether the owner, and the tag of a tag root, still exist.
    pub identity_exists: bool,
}

/// What a reserved folder has to look like.
#[derive(Clone, Copy, Debug)]
pub struct SystemRootExpectation<'a> {
    /// Reserved classification.
    pub system_kind: &'static str,
    /// Kind of the boundary.
    pub root_type: &'static str,
    /// Parent folder.
    pub parent_id: Option<u128>,
    /// Tag of the boundary.
    pub tag_id: Option<&'a str>,
    /// Kind and identifier of the owner, where it is the represented member.
    pub actor_owner: Option<(&'a str, &'a str)>,
}

/// The characters of an optional text.
pub open spec fn tag_chars(tag: Option<&str>) -> Option<Seq<char>> {
    match tag {
        Some(text) => Some(text@),
        None => None,
    }
}

impl ExistingSystemRoot {
    /// Whether the folder is a plain, live folder that nothing else claims.
    pub open spec fn is_plain_folder(self) -> bool {
        &&& self.identity_exists
        &&& self.deleted_at is None
        &&& self.purge_after is None
        &&& self.deletion_batch_id is None
        &&& self.entry_type@ == "folder"@
        &&& self.origin_app_id is None
        &&& self.content_type is None
        &&& self.size_bytes is None
        &&& self.current_version_id is None
    }

    /// Whether the folder is a plain folder of the given kind and place.
    pub open spec fn placed(
        self,
        system_kind: Seq<char>,
        root_type: Seq<char>,
        parent_id: Option<u128>,
        tag_id: Option<Seq<char>>,
    ) -> bool {
        &&& self.is_plain_folder()
        &&& self.system_kind@ == system_kind
        &&& self.root_type@ == root_type
        &&& self.parent_id == parent_id
        &&& optional_chars(self.tag_id) == tag_id
    }

    /// Whether the folder looks as expected.
    pub open spec fn matches_expectation(self, expected: SystemRootExpectation<'_>) -> bool {
        &&& self.placed(
            expected.system_kind@,
            expected.root_type@,
            expected.parent_id,
            tag_chars(expected.tag_id),
        )
        &&& expected.actor_owner matches Some(owner) ==> self.owner_type@ == owner.0@
            && self.owner_id@ == owner.1@
    }
}

/// Whether an optional text equals an optional reference.
fn tag_is(tag: &Option<String>, expected: Option<&str>) -> (same: bool)
    ensures
        same == (optional_chars(*tag) == tag_chars(expected)),
{
    match (tag, expected) {
        (Some(text), Some(wanted)) => same_text(text.as_str(), wanted),
        (None, None) => true,
        _ => false,
    }
}

/// Whether a reserved folder looks as expected.
pub fn system_root_shape_matches(
    root: &ExistingSystemRoot,
    expected: SystemRootExpectation<'_>,
) -> (matching: bool)
    ensures
        matching == root.matches_expectation(expected),
{
    let owned = match expected.actor_owner {
        Some(owner) => same_text(root.owner_type.as_str(), owner.0) && same_text(
            root.owner_id.as_str(),
            owner.1,
        ),
        None => true,
    };
    root.identity_exists && root.deleted_at.is_none() && root.purge_after.is_none()
        && root.deletion_batch_id.is_none() && same_text(root.entry_type.as_str(), "folder")
        && root.origin_app_id.is_none() && root.content_type.is_none() && root.size_bytes.is_none()
        && root.current_version_id.is_none() && same_text(
        root.system_kind.as_str(),
        expected.system_kind,
    ) && same_text(root.root_type.as_str(), expected.root_type) && root.parent_id
        == expected.parent_id && tag_is(&root.tag_id, expected.tag_id) && owned
}

/// The outcome of looking one reserved folder up: absent, present as expected,
/// or malformed.
pub fn find_system_root(
    root: Option<&ExistingSystemRoot>,
    expected: SystemRootExpectation<'_>,
) -> (found: Result<Option<u128>, &'static str>)
    ensures
        match root {
            None => found == Ok::<Option<u128>, &'static str>(None),
            Some(stored) => if stored.matches_expectation(expected) {
                found == Ok::<Option<u128>, &'static str>(Some(stored.entry_id))
            } else {
                found matches Err(message) && message@ == MALFORMED_SYSTEM_ROOT@
            },
        },
{
    match root {
        Some(stored) => {
            if system_root_shape_matches(stored, expected) {
                Ok(Some(stored.entry_id))
            } else {
                Err(MALFORMED_SYSTEM_ROOT)
            }
        },
        None => Ok(None),
    }
}

/// Whether a folder is the organization's private root.
pub open spec fn is_private_root(root: ExistingSystemRoot) -> bool {
    root.placed("private_root"@, "private"@, None, None)
}

/// Whether some stored folder is the private root with the given identifier.
pub open spec fn private_root_is(roots: Seq<ExistingSystemRoot>, id: u128) -> bool {
    exists|k: int|
        0 <= k < roots.len() && (#[trigger] roots[k]).system_kind@ == "private_root"@
            && roots[k].entry_id == id
}

/// Whether a stored folder is in the shape of its kind, below the private root
/// where it is a member's.
pub open spec fn root_shape_ok(root: ExistingSystemRoot, roots: Seq<ExistingSystemRoot>) -> bool {
    if root.system_kind@ == "public_root"@ {
        root.placed("public_root"@, "public"@, None, None)
    } else if root.system_kind@ == "private_root"@ {
        is_private_root(root)
    } else if root.system_kind@ == "tag_root"@ {
        root.tag_id is Some && root.placed("tag_root"@, "tag"@, None, optional_chars(root.tag_id))
    } else if root.system_kind@ == "actor_root"@ {
        root.parent_id is Some && private_root_is(roots, root.parent_id->0) && root.placed(
            "actor_root"@,
            "private"@,
            root.parent_id,
            None,
        )
    } else {
        false
    }
}

/// Whether two folders of one kind claim the same identity: the organization
/// for its public and private roots, the tag for a tag root, the owner for a
/// member's root.
pub open spec fn same_reserved_identity(a: ExistingSystemRoot, b: ExistingSystemRoot) -> bool {
    a.system_kind@ == b.system_kind@ && if a.system_kind@ == "tag_root"@ {
        optional_chars(a.tag_id) == optional_chars(b.tag_id)
    } else if a.system_kind@ == "actor_root"@ {
        a.owner_type@ == b.owner_type@ && a.owner_id@ == b.owner_id@
    } else {
        true
    }
}

/// Whether the reserved folders of an organization are in shape and no two of
/// them claim the same identity.
pub open spec fn root_set_ok(roots: Seq<ExistingSystemRoot>) -> bool {
    &&& forall|k: int| 0 <= k < roots.len() ==> root_shape_ok(#[trigger] roots[k], roots)
    &&& forall|i: int, j: int|
        0 <= i < j < roots.len() ==> !same_reserved_identity(
            #[trigger] roots[i],
            #[trigger] roots[j],
        )
}

/// Whether a folder claims the same identity as one before it.
fn repeats_identity(roots: &Vec<ExistingSystemRoot>, index: usize) -> (answer: bool)
    requires
        index < roots@.len(),
    ensures
        answer == exists|k: int|
            0 <= k < index && same_reserved_identity(#[trigger] roots@[k], roots@[index as int]),
{
    let root = &roots[index];
    let mut earlier: usize = 0;
    while earlier < index
        invariant
            index < roots@.len(),
            earlier <= index,
            *root == roots@[index as int],
            forall|k: int|
                0 <= k < earlier ==> !same_reserved_identity(
                    #[trigger] roots@[k],
                    roots@[index as int],
                ),
        decreases index - earlier,
    {
        let other = &roots[earlier];
        if same_text(other.system_kind.as_str(), root.system_kind.as_str()) {
            let same = if same_text(other.system_kind.as_str(), "tag_root") {
                same_optional_text(&other.tag_id, &root.tag_id)
            } else if same_text(other.system_kind.as_str(), "actor_root") {
                same_text(other.owner_type.as_str(), root.owner_type.as_str()) && same_text(
                    other.owner_id.as_str(),
                    root.owner_id.as_str(),
                )
            } else {
                true
            };
            if same {
                return true;
            }
        }
        earlier += 1;
    }
    false
}

/// The identifier of the first stored private root.
fn private_root_of(roots: &Vec<ExistingSystemRoot>) -> (id: Option<u128>)
    ensures
        match id {
            Some(found) => private_root_is(roots@, found),
            None => forall|other: u128| !private_root_is(roots@, other),
        },
{
    let mut index: usize = 0;
    while index < roots.len()
        invariant
            index <= roots@.len(),
            forall|k: int|
                0 <= k < index ==> (#[trigger] roots@[k]).system_kind@ != "private_root"@,
        decreases roots@.len() - index,
    {
        if same_text(roots[index].system_kind.as_str(), "private_root") {
            assert(private_root_is(roots@, roots@[index as int].entry_id));
            return Some(roots[index].entry_id);
        }
        index += 1;
    }
    None
}

/// The four reserved classifications differ.
proof fn lemma_kinds_differ()
    ensures
        "public_root"@ != "private_root"@,
        "public_root"@ != "tag_root"@,
        "public_root"@ != "actor_root"@,
        "private_root"@ != "tag_root"@,
        "private_root"@ != "actor_root"@,
        "tag_root"@ != "actor_root"@,
{
    reveal_strlit("public_root");
    reveal_strlit("private_root");
    reveal_strlit("tag_root");
    reveal_strlit("actor_root");
    assert("public_root"@.len() == 11);
    assert("private_root"@.len() == 12);
    assert("tag_root"@.len() == 8);
    assert("actor_root"@.len() == 10);
}

/// Whether the reserved folders of an organization are in shape and no two of
/// them claim the same identity. Anything malformed fails closed.
pub fn system_root_set_is_valid(roots: &Vec<ExistingSystemRoot>) -> (valid: bool)
    ensures
        valid == root_set_ok(roots@),
{
    proof {
        lemma_kinds_differ();
    }
    let mut index: usize = 0;
    while index < roots.len()
        invariant
            index <= roots@.len(),
            forall|i: int, j: int|
                0 <= i < j < index ==> !same_reserved_identity(
                    #[trigger] roots@[i],
                    #[trigger] roots@[j],
                ),
        decreases roots@.len() - index,
    {
        if repeats_identity(roots, index) {
            let ghost k = choose|k: int|
                0 <= k < index && same_reserved_identity(
                    #[trigger] roots@[k],
                    roots@[index as int],
                );
            assert(same_reserved_identity(roots@[k], roots@[index as int]));
            return false;
        }
        index += 1;
    }
    let private_root_id = private_root_of(roots);
    let mut index: usize = 0;
    while index < roots.len()
        invariant
            index <= roots@.len(),
            forall|i: int, j: int|
                0 <= i < j < roots@.len() ==> !same_reserved_identity(
                    #[trigger] roots@[i],
                    #[trigger] roots@[j],
                ),
            match private_root_id {
                Some(found) => private_root_is(roots@, found),
                None => forall|other: u128| !private_root_is(roots@, other),
            },
            forall|k: int| 0 <= k < index ==> root_shape_ok(#[trigger] roots@[k], roots@),
            "public_root"@ != "private_root"@,
            "public_root"@ != "tag_root"@,
            "public_root"@ != "actor_root"@,
            "private_root"@ != "tag_root"@,
            "private_root"@ != "actor_root"@,
            "tag_root"@ != "actor_root"@,
        decreases roots@.len() - index,
    {
        let root = &roots[index];
        let shaped = if same_text(root.system_kind.as_str(), "public_root") {
            system_root_shape_matches(
                root,
                SystemRootExpectation {
                    system_kind: "public_root",
                    root_type: "public",
                    parent_id: None,
                    tag_id: None,
                    actor_owner: None,
                },
            )
        } else if same_text(root.system_kind.as_str(), "private_root") {
            system_root_shape_matches(
                root,
                SystemRootExpectation {
                    system_kind: "private_root",
                    root_type: "private",
                    parent_id: None,
                    tag_id: None,
                    actor_owner: None,
                },
            )
        } else if same_text(root.system_kind.as_str(), "tag_root") {
            match &root.tag_id {
                Some(tag) => system_root_shape_matches(
                    root,
                    SystemRootExpectation {
                        system_kind: "tag_root",
                        root_type: "tag",
                        parent_id: None,
                        tag_id: Some(tag.as_str()),
                        actor_owner: None,
                    },
                ),
                None => false,
            }
        } else if same_text(root.system_kind.as_str(), "actor_root") {
            match private_root_id {
                Some(id) => {
                    proof {
                        assert forall|other: u128| private_root_is(roots@, other) implies other
                            == id by {
                            let i = choose|k: int|
                                0 <= k < roots@.len() && (#[trigger] roots@[k]).system_kind@
                                    == "private_root"@ && roots@[k].entry_id == id;
                            let j = choose|k: int|
                                0 <= k < roots@.len() && (#[trigger] roots@[k]).system_kind@
                                    == "private_root"@ && roots@[k].entry_id == other;
                            if i < j {
                                assert(same_reserved_identity(roots@[i], roots@[j]));
                            } else if j < i {
                                assert(same_reserved_identity(roots@[j], roots@[i]));
                            }
                        }
                    }
                    system_root_shape_matches(
                        root,
                        SystemRootExpectation {
                            system_kind: "actor_root",
                            root_type: "private",
                            parent_id: Some(id),
                            tag_id: None,
                            actor_owner: Some((root.owner_type.as_str(), root.owner_id.as_str())),
                        },
                    )
                },
                None => false,
            }
        } else {
            false
        };
        if !shaped {
            assert(!root_shape_ok(roots@[index as int], roots@));
            return false;
        }
        index += 1;
    }
    true
}

/// The character that stands in a folder name for another one: path
/// separators and control codes become hyphens.
pub open spec fn sanitized_character(character: char) -> char {
    if character == '/' || character == '\0' || is_control_code(character) {
        '-'
    } else {
        character
    }
}

/// The name that is preferred for a reserved folder.
pub open spec fn base_name(preferred: Seq<char>) -> Seq<char> {
    let trimmed = trim(preferred);
    let base = Seq::new(trimmed.len(), |k: int| sanitized_character(trimmed[k]));
    if base.len() == 0 || base == "."@ || base == ".."@ {
        "Folder"@
    } else {
        base
    }
}

/// What is appended to a name that is taken: the namespace and the end of the
/// identifier, from the second collision on with a number.
pub open spec fn suffix_of(namespace: Seq<char>, entry_id: u128, attempt: nat) -> Seq<char> {
    if attempt == 0 {
        Seq::empty()
    } else {
        let counted = if attempt == 1 {
            Seq::empty()
        } else {
            seq!['-'] + decimal(attempt)
        };
        seq![' ', '['] + namespace + seq!['-'] + simple_chars(entry_id).subrange(20, 32) + counted
            + seq![']']
    }
}

/// The part of the preferred name that leaves room for a suffix.
pub open spec fn fitted_base(base: Seq<char>, suffix: Seq<char>) -> Seq<char> {
    let room = if byte_len(suffix) <= MAX_ENTRY_NAME_BYTES {
        (MAX_ENTRY_NAME_BYTES - byte_len(suffix)) as nat
    } else {
        0
    };
    let cut = trim_end(longest_prefix(base, room));
    if cut.len() == 0 {
        "Folder"@
    } else {
        cut
    }
}

/// The name of a reserved folder at an attempt.
pub open spec fn folder_name(
    preferred: Seq<char>,
    namespace: Seq<char>,
    entry_id: u128,
    attempt: nat,
) -> Seq<char> {
    let suffix = suffix_of(namespace, entry_id, attempt);
    fitted_base(base_name(preferred), suffix) + suffix
}

/// Cuts a text to the longest prefix that fits into the given bytes.
pub fn truncate_utf8(value: &mut String, maximum_bytes: usize)
    ensures
        final(value)@ == longest_prefix(old(value)@, maximum_bytes as nat),
{
    let text = characters(value.as_str());
    let length = fitting_prefix(&text, maximum_bytes);
    let kept = from_characters(&text, 0, length);
    assert(text@.subrange(0, length as int) =~= text@.take(length as int));
    *value = kept;
}

/// What is appended to a name that is taken.
pub fn collision_suffix(namespace: &str, entry_id: u128, attempt: u8) -> (suffix: String)
    ensures
        suffix@ == suffix_of(namespace@, entry_id, attempt as nat),
{
    if attempt == 0 {
        return String::new();
    }
    let identifier = simple(entry_id);
    let digits = characters(identifier.as_str());
    let short_identifier = from_characters(&digits, 20, 32);
    let mut suffix = String::new();
    suffix.push(' ');
    suffix.push('[');
    suffix.append(namespace);
    suffix.push('-');
    suffix.append(short_identifier.as_str());
    if attempt > 1 {
        suffix.push('-');
        push_decimal(&mut suffix, attempt as u64);
    }
    suffix.push(']');
    assert(suffix@ =~= suffix_of(namespace@, entry_id, attempt as nat));
    suffix
}

/// The name of a reserved folder at an attempt. The first attempt is the
/// preferred name itself, without what an entry name cannot hold.
pub fn system_folder_name(preferred: &str, namespace: &str, entry_id: u128, attempt: u8) -> (name:
    String)
    ensures
        name@ == folder_name(preferred@, namespace@, entry_id, attempt as nat),
{
    let text = characters(preferred);
    let (start, end) = trim_bounds(&text);
    let mut base = String::new();
    let mut index: usize = start;
    let ghost trimmed = trim(preferred@);
    while index < end
        invariant
            start <= index <= end <= text@.len(),
            trimmed == text@.subrange(start as int, end as int),
            base@ == Seq::new(
                (index - start) as nat,
                |k: int| sanitized_character(trimmed[k]),
            ),
        decreases end - index,
    {
        let character = text[index];
        let written = if character == '/' || character == '\0' || character.is_control() {
            '-'
        } else {
            character
        };
        base.push(written);
        index += 1;
        assert(base@ =~= Seq::new(
            (index - start) as nat,
            |k: int| sanitized_character(trimmed[k]),
        ));
    }
    assert(base@ == Seq::new(trimmed.len(), |k: int| sanitized_character(trimmed[k])));
    if base.as_str().is_empty() || same_text(base.as_str(), ".") || same_text(base.as_str(), "..") {
        base = "Folder".to_owned();
    }
    assert(base@ == base_name(preferred@));
    let suffix = collision_suffix(namespace, entry_id, attempt);
    let taken: usize = suffix.as_str().as_bytes().len();
    let room: usize = if taken <= MAX_ENTRY_NAME_BYTES {
        MAX_ENTRY_NAME_BYTES - taken
    } else {
        0
    };
    truncate_utf8(&mut base, room);
    let cut = characters(base.as_str());
    let mut length: usize = cut.len();
    assert(cut@.take(length as int) =~= cut@);
    while length > 0 && cut[length - 1].is_whitespace()
        invariant
            length <= cut@.len(),
            trim_end(cut@) == trim_end(cut@.take(length as int)),
        decreases length,
    {
        assert(cut@.take(length as int).drop_last() =~= cut@.take(length - 1));
        length -= 1;
    }
    assert(trim_end(cut@) == cut@.take(length as int));
    let mut name = if length == 0 {
        "Folder".to_owned()
    } else {
        from_characters(&cut, 0, length)
    };
    assert(cut@.subrange(0, length as int) =~= cut@.take(length as int));
    name.append(suffix.as_str());
    name
}

/// A text of ASCII characters takes one byte per character.
pub proof fn lemma_ascii_byte_len(text: Seq<char>)
    requires
        forall|k: int| 0 <= k < text.len() ==> (#[trigger] text[k] as u32) < 0x80,
    ensures
        byte_len(text) == text.len(),
    decreases text.len(),
{
    if text.len() == 0 {
        assert(vstd::utf8::encode_utf8(text) =~= Seq::<u8>::empty());
    } else {
        lemma_ascii_byte_len(text.drop_last());
        crate::text::lemma_byte_len_of_push(text.drop_last(), text.last());
        assert(text.drop_last().push(text.last()) =~= text);
        assert((text[text.len() - 1] as u32) < 0x80);
    }
}

/// Every name of a reserved folder fits into an entry name, as long as its
/// suffix leaves room for the fallback name.
pub proof fn law_folder_names_are_bounded(
    preferred: Seq<char>,
    namespace: Seq<char>,
    entry_id: u128,
    attempt: nat,
)
    requires
        byte_len(suffix_of(namespace, entry_id, attempt)) + 6 <= MAX_ENTRY_NAME_BYTES,
    ensures
        byte_len(folder_name(preferred, namespace, entry_id, attempt)) <= MAX_ENTRY_NAME_BYTES,
        folder_name(preferred, namespace, entry_id, attempt).len() > 0,
{
    let suffix = suffix_of(namespace, entry_id, attempt);
    let base = base_name(preferred);
    let room = (MAX_ENTRY_NAME_BYTES - byte_len(suffix)) as nat;
    let fitted = fitted_base(base, suffix);
    lemma_encoding_of_concatenation(fitted, suffix);
    lemma_longest_prefix(base, room);
    let cut = longest_prefix(base, room);
    lemma_trim_end_is_prefix(cut);
    lemma_byte_len_is_monotone(cut, trim_end(cut).len());
    reveal_strlit("Folder");
    lemma_ascii_byte_len("Folder"@);
}

/// Whether a character may stand in an entry name.
pub open spec fn is_name_character(character: char) -> bool {
    character != '/' && !is_control_code(character)
}

/// No name of a reserved folder holds a path separator or a control code,
/// whatever identifier it is made from.
pub proof fn law_folder_names_are_never_paths(
    preferred: Seq<char>,
    namespace: Seq<char>,
    entry_id: u128,
    attempt: nat,
    position: int,
)
    requires
        forall|k: int| 0 <= k < namespace.len() ==> is_name_character(#[trigger] namespace[k]),
        0 <= position < folder_name(preferred, namespace, entry_id, attempt).len(),
    ensures
        is_name_character(folder_name(preferred, namespace, entry_id, attempt)[position]),
{
    let suffix = suffix_of(namespace, entry_id, attempt);
    let base = base_name(preferred);
    let fitted = fitted_base(base, suffix);
    reveal_strlit("Folder");
    if position < fitted.len() {
        let room = if byte_len(suffix) <= MAX_ENTRY_NAME_BYTES {
            (MAX_ENTRY_NAME_BYTES - byte_len(suffix)) as nat
        } else {
            0
        };
        lemma_longest_prefix(base, room);
        lemma_trim_end_is_prefix(longest_prefix(base, room));
        if trim_end(longest_prefix(base, room)).len() > 0 {
            assert(fitted[position] == base[position]);
            if base != "Folder"@ {
                assert(base[position] == sanitized_character(trim(preferred)[position]));
            }
        }
    } else {
        let at = position - fitted.len();
        let digits = simple_chars(entry_id).subrange(20, 32);
        lemma_decimal_digits(attempt);
        assert(folder_name(preferred, namespace, entry_id, attempt)[position] == suffix[at]);
        let start = 2 + namespace.len() as int;
        if 2 <= at < start {
            assert(suffix[at] == namespace[at - 2]);
        } else if start < at <= start + 12 {
            assert(suffix[at] == digits[at - start - 1]);
            lemma_hex_digits(entry_id, 20 + at - start - 1);
        } else if attempt > 1 && start + 13 < at < suffix.len() - 1 {
            assert(suffix[at] == decimal(attempt)[at - start - 14]);
        }
    }
}

/// Whether a namespace is one that reserved folders are told apart by.
pub open spec fn is_root_namespace(namespace: Seq<char>) -> bool {
    ||| namespace == "public"@
    ||| namespace == "private"@
    ||| namespace == "tag"@
    ||| namespace == "carbon"@
    ||| namespace == "silicon"@
}

/// Whether a text is a path's name for the folder it stands in, or for the one
/// above.
pub open spec fn is_dots(name: Seq<char>) -> bool {
    name == "."@ || name == ".."@
}

/// Whether a text is plain enough for a path: it is neither empty nor too long,
/// holds no path separator and no control code, and neither starts nor ends in
/// white space.
pub open spec fn is_plain_name(name: Seq<char>) -> bool {
    &&& 1 <= byte_len(name) <= MAX_ENTRY_NAME_BYTES
    &&& forall|k: int| 0 <= k < name.len() ==> is_name_character(#[trigger] name[k])
    &&& name.len() > 0
    &&& !is_white_space(name[0])
    &&& !is_white_space(name.last())
}

/// Whether a text fits as the name of an entry: it is plain, and a path that
/// ends in it leads to the entry.
pub open spec fn is_entry_name(name: Seq<char>) -> bool {
    is_plain_name(name) && !is_dots(name)
}

/// Whether a preferred name is too long for an entry, and all that fits of it
/// is one or two dots and white space behind them.
pub open spec fn is_cut_to_dots(preferred: Seq<char>) -> bool {
    let base = base_name(preferred);
    byte_len(base) > MAX_ENTRY_NAME_BYTES && is_dots(
        trim_end(longest_prefix(base, MAX_ENTRY_NAME_BYTES as nat)),
    )
}

/// A namespace is a short ASCII word.
proof fn lemma_root_namespace(namespace: Seq<char>)
    requires
        is_root_namespace(namespace),
    ensures
        namespace.len() <= 7,
        forall|k: int| 0 <= k < namespace.len() ==> 'a' <= #[trigger] namespace[k] <= 'z',
{
    reveal_strlit("public");
    reveal_strlit("private");
    reveal_strlit("tag");
    reveal_strlit("carbon");
    reveal_strlit("silicon");
}

/// The suffix of a taken name is short, and each of its characters takes one
/// byte.
proof fn lemma_suffix_is_short(namespace: Seq<char>, entry_id: u128, attempt: u8)
    requires
        is_root_namespace(namespace),
    ensures
        byte_len(suffix_of(namespace, entry_id, attempt as nat)) <= 27,
{
    let suffix = suffix_of(namespace, entry_id, attempt as nat);
    let digits = simple_chars(entry_id).subrange(20, 32);
    let number = decimal(attempt as nat);
    lemma_root_namespace(namespace);
    lemma_decimal_digits(attempt as nat);
    reveal_with_fuel(decimal, 4);
    assert(number.len() <= 3);
    let start = 2 + namespace.len() as int;
    assert forall|at: int| 0 <= at < suffix.len() implies (#[trigger] suffix[at] as u32) < 0x80 by {
        if 2 <= at < start {
            assert(suffix[at] == namespace[at - 2]);
        } else if start < at <= start + 12 {
            assert(suffix[at] == digits[at - start - 1]);
            lemma_hex_digits(entry_id, 20 + at - start - 1);
        } else if attempt > 1 && start + 13 < at < suffix.len() - 1 {
            assert(suffix[at] == number[at - start - 14]);
        }
    }
    lemma_ascii_byte_len(suffix);
}

/// The preferred part of a name starts and ends in something other than white
/// space.
proof fn lemma_fitted_base_is_trimmed(preferred: Seq<char>, suffix: Seq<char>)
    ensures
        fitted_base(base_name(preferred), suffix).len() > 0,
        !is_white_space(fitted_base(base_name(preferred), suffix)[0]),
        !is_white_space(fitted_base(base_name(preferred), suffix).last()),
{
    let base = base_name(preferred);
    let room = if byte_len(suffix) <= MAX_ENTRY_NAME_BYTES {
        (MAX_ENTRY_NAME_BYTES - byte_len(suffix)) as nat
    } else {
        0
    };
    let cut = trim_end(longest_prefix(base, room));
    reveal_strlit("Folder");
    lemma_longest_prefix(base, room);
    lemma_trim_end_is_prefix(longest_prefix(base, room));
    if cut.len() > 0 {
        assert(cut[0] == base[0]);
        if base != "Folder"@ {
            let inner = trim_start(preferred);
            lemma_trim_start_starts_plainly(preferred);
            lemma_trim_end_is_prefix(inner);
            assert(trim(preferred)[0] == inner[0]);
            assert(base[0] == sanitized_character(inner[0]));
        }
    }
}

/// The preferred name itself ends in something other than white space, and is
/// not made of dots.
proof fn lemma_base_name_is_whole(preferred: Seq<char>)
    ensures
        trim_end(base_name(preferred)) == base_name(preferred),
        !is_dots(base_name(preferred)),
        base_name(preferred).len() > 0,
{
    let base = base_name(preferred);
    let trimmed = trim(preferred);
    reveal_strlit("Folder");
    reveal_strlit(".");
    reveal_strlit("..");
    assert("Folder"@.len() == 6);
    lemma_trim_end_is_prefix(trim_start(preferred));
    if base != "Folder"@ {
        assert(base.last() == sanitized_character(trimmed.last()));
    } else {
        assert(base.last() == 'r');
    }
}

/// Every name that a reserved folder can be given is a plain name, whatever it
/// is preferred to be called and however often that is taken. It fits as the
/// name of an entry but in one case: the first attempt at a name that is too
/// long and, cut to what fits, leaves nothing but dots.
pub proof fn law_folder_names_are_entry_names(
    preferred: Seq<char>,
    namespace: Seq<char>,
    entry_id: u128,
    attempt: u8,
)
    requires
        is_root_namespace(namespace),
    ensures
        is_plain_name(folder_name(preferred, namespace, entry_id, attempt as nat)),
        is_entry_name(folder_name(preferred, namespace, entry_id, attempt as nat)) <==> !(attempt
            == 0 && is_cut_to_dots(preferred)),
{
    let name = folder_name(preferred, namespace, entry_id, attempt as nat);
    let suffix = suffix_of(namespace, entry_id, attempt as nat);
    let fitted = fitted_base(base_name(preferred), suffix);
    lemma_root_namespace(namespace);
    lemma_suffix_is_short(namespace, entry_id, attempt);
    law_folder_names_are_bounded(preferred, namespace, entry_id, attempt as nat);
    lemma_fitted_base_is_trimmed(preferred, suffix);
    assert forall|k: int| 0 <= k < name.len() implies is_name_character(#[trigger] name[k]) by {
        law_folder_names_are_never_paths(preferred, namespace, entry_id, attempt as nat, k);
    }
    assert(name[0] == fitted[0]);
    reveal_strlit(".");
    reveal_strlit("..");
    if attempt == 0 {
        let base = base_name(preferred);
        assert(name =~= fitted);
        lemma_base_name_is_whole(preferred);
        assert(byte_len(suffix) == 0) by {
            lemma_ascii_byte_len(suffix);
        }
        if byte_len(base) <= MAX_ENTRY_NAME_BYTES {
            assert(longest_prefix(base, MAX_ENTRY_NAME_BYTES as nat) == base);
        } else {
            reveal_strlit("Folder");
        }
    } else {
        assert(name.last() == suffix.last());
        assert(suffix.last() == ']');
    }
    assert(byte_len(name) >= 1) by {
        if byte_len(name) == 0 {
            assert(vstd::utf8::encode_utf8(name) =~= vstd::utf8::encode_utf8(Seq::<char>::empty()));
            crate::text::lemma_encoding_is_injective(name, Seq::<char>::empty());
        }
    }
}

/// Every character of a decimal number is a digit.
proof fn lemma_decimal_digits(value: nat)
    ensures
        decimal(value).len() >= 1,
        forall|k: int| 0 <= k < decimal(value).len() ==> '0' <= #[trigger] decimal(value)[k] <= '9',
    decreases value,
{
    if value >= 10 {
        lemma_decimal_digits(value / 10);
    }
}

/// Every character of an identifier's simple form is a hexadecimal digit.
proof fn lemma_hex_digits(id: u128, position: int)
    requires
        0 <= position < 32,
    ensures
        '0' <= simple_chars(id)[position] <= '9' || 'a' <= simple_chars(id)[position] <= 'f',
{
    let digit = (id as int / vstd::arithmetic::power::pow(16, (31 - position) as nat)) % 16;
    assert(0 <= digit < 16);
}

/// Different numbers have different digits.
proof fn lemma_decimal_is_injective(first: nat, second: nat)
    requires
        decimal(first) == decimal(second),
    ensures
        first == second,
    decreases first,
{
    let a = decimal(first);
    let b = decimal(second);
    lemma_decimal_digits(first);
    lemma_decimal_digits(second);
    assert(a.last() == b.last());
    if first >= 10 {
        lemma_decimal_digits(first / 10);
    }
    if second >= 10 {
        lemma_decimal_digits(second / 10);
    }
    if first >= 10 && second >= 10 {
        assert(a.drop_last() =~= decimal(first / 10));
        assert(b.drop_last() =~= decimal(second / 10));
        lemma_decimal_is_injective(first / 10, second / 10);
    }
}

/// Repeated collisions of one folder give distinct names, whichever attempts
/// they are.
pub proof fn law_repeated_collisions_give_distinct_names(
    preferred: Seq<char>,
    namespace: Seq<char>,
    entry_id: u128,
    first: u8,
    second: u8,
)
    requires
        first >= 1,
        second >= 1,
        first != second,
    ensures
        folder_name(preferred, namespace, entry_id, first as nat) != folder_name(
            preferred,
            namespace,
            entry_id,
            second as nat,
        ),
    decreases if first < second {
        0int
    } else {
        1int
    },
{
    if second < first {
        law_repeated_collisions_give_distinct_names(preferred, namespace, entry_id, second, first);
    }
    let a = folder_name(preferred, namespace, entry_id, first as nat);
    let b = folder_name(preferred, namespace, entry_id, second as nat);
    let sa = suffix_of(namespace, entry_id, first as nat);
    let sb = suffix_of(namespace, entry_id, second as nat);
    let da = decimal(first as nat);
    let db = decimal(second as nat);
    lemma_decimal_digits(first as nat);
    lemma_decimal_digits(second as nat);
    if first < second && a == b {
        let end = a.len() as int;
        // The number in the longer suffix starts behind a hyphen, and nothing
        // in the shorter one looks like that there.
        if first == 1 {
            reveal_with_fuel(decimal, 4);
            assert(db.len() <= 3);
            let digits = simple_chars(entry_id).subrange(20, 32);
            let back = db.len() + 2;
            assert(sb[sb.len() - back] == '-');
            assert(sa[sa.len() - back] == digits[14 - back - 1]);
            lemma_hex_digits(entry_id, 20 + 14 - back - 1);
            assert(a[end - back] == sa[sa.len() - back]);
            assert(b[end - back] == sb[sb.len() - back]);
        } else if da.len() == db.len() {
            assert forall|k: int| 0 <= k < da.len() implies da[k] == db[k] by {
                let back = da.len() + 1 - k;
                assert(sa[sa.len() - back] == da[k]);
                assert(sb[sb.len() - back] == db[k]);
                assert(a[end - back] == sa[sa.len() - back]);
                assert(b[end - back] == sb[sb.len() - back]);
            }
            assert(da =~= db);
            lemma_decimal_is_injective(first as nat, second as nat);
        } else if da.len() < db.len() {
            let back = da.len() + 2;
            assert(sa[sa.len() - back] == '-');
            assert(sb[sb.len() - back] == db[db.len() - da.len() - 1]);
            assert(a[end - back] == sa[sa.len() - back]);
            assert(b[end - back] == sb[sb.len() - back]);
        } else {
            let back = db.len() + 2;
            assert(sb[sb.len() - back] == '-');
            assert(sa[sa.len() - back] == da[da.len() - db.len() - 1]);
            assert(a[end - back] == sa[sa.len() - back]);
            assert(b[end - back] == sb[sb.len() - back]);
        }
    }
}

/// Collisions of folders whose identifiers end differently give distinct
/// names.
pub proof fn law_collisions_of_different_folders_are_distinct(
    preferred: Seq<char>,
    namespace: Seq<char>,
    left: u128,
    right: u128,
    attempt: nat,
)
    requires
        attempt >= 1,
        simple_chars(left).subrange(20, 32) != simple_chars(right).subrange(20, 32),
    ensures
        folder_name(preferred, namespace, left, attempt) != folder_name(
            preferred,
            namespace,
            right,
            attempt,
        ),
{
    let a = folder_name(preferred, namespace, left, attempt);
    let b = folder_name(preferred, namespace, right, attempt);
    let sa = suffix_of(namespace, left, attempt);
    let sb = suffix_of(namespace, right, attempt);
    if a == b {
        assert(sa.len() == sb.len());
        let start = 3 + namespace.len() as int;
        assert forall|k: int| 0 <= k < 12 implies simple_chars(left).subrange(20, 32)[k]
            == simple_chars(right).subrange(20, 32)[k] by {
            assert(sa[start + k] == simple_chars(left).subrange(20, 32)[k]);
            assert(sb[start + k] == simple_chars(right).subrange(20, 32)[k]);
            assert(a[a.len() - sa.len() + start + k] == sa[start + k]);
            assert(b[b.len() - sb.len() + start + k] == sb[start + k]);
        }
        assert(simple_chars(left).subrange(20, 32) =~= simple_chars(right).subrange(20, 32));
    }
}

/// One tag of the organization and its folder.
#[derive(Clone, Debug)]
pub struct ProjectedTag {
    /// Tag identifier.
    pub tag_id: String,
    /// Tag name.
    pub name: String,
    /// Folder of the tag.
    pub root_entry_id: Option<u128>,
    /// Name of that folder.
    pub root_name: Option<String>,
}

/// One folder at the top of the organization.
#[derive(Clone, Debug)]
pub struct RootSibling {
    /// Entry identifier.
    pub entry_id: u128,
    /// Name.
    pub name: String,
}

/// Whether another folder holds a name.
pub open spec fn name_taken(siblings: Seq<RootSibling>, entry_id: u128, name: Seq<char>) -> bool {
    exists|k: int|
        0 <= k < siblings.len() && (#[trigger] siblings[k]).entry_id != entry_id
            && siblings[k].name@ == name
}

/// Whether another folder holds a name.
fn is_name_taken(siblings: &Vec<RootSibling>, entry_id: u128, name: &str) -> (taken: bool)
    ensures
        taken == name_taken(siblings@, entry_id, name@),
{
    let mut index: usize = 0;
    while index < siblings.len()
        invariant
            index <= siblings@.len(),
            forall|k: int|
                0 <= k < index ==> (#[trigger] siblings@[k]).entry_id == entry_id
                    || siblings@[k].name@ != name@,
        decreases siblings@.len() - index,
    {
        if siblings[index].entry_id != entry_id && same_text(siblings[index].name.as_str(), name) {
            return true;
        }
        index += 1;
    }
    false
}

/// The name that a tag's folder is given at an attempt.
pub open spec fn tag_folder_name(tag: ProjectedTag, entry_id: u128, attempt: nat) -> Seq<char> {
    folder_name(tag.name@, "tag"@, entry_id, attempt)
}

/// Whether a name is the one of an attempt, and every earlier one is held by
/// another folder.
pub open spec fn is_first_free(
    tag: ProjectedTag,
    entry_id: u128,
    name: Seq<char>,
    siblings: Seq<RootSibling>,
    attempt: nat,
) -> bool {
    attempt < MAX_NAME_ATTEMPTS && tag_folder_name(tag, entry_id, attempt) == name
        && forall|earlier: nat|
        earlier < attempt ==> name_taken(
            siblings,
            entry_id,
            #[trigger] tag_folder_name(tag, entry_id, earlier),
        )
}

/// Whether a tag's folder carries the first of its names that no other folder
/// holds.
pub open spec fn tag_name_current(tag: ProjectedTag, siblings: Seq<RootSibling>) -> bool {
    tag.root_entry_id is Some && tag.root_name is Some && exists|attempt: nat| #[trigger]
        is_first_free(tag, tag.root_entry_id->0, tag.root_name->0@, siblings, attempt)
}

/// Whether a tag's folder carries the first of its names that no other folder
/// holds.
pub fn tag_root_name_is_current(tag: &ProjectedTag, root_siblings: &Vec<RootSibling>) -> (current:
    bool)
    ensures
        current == tag_name_current(*tag, root_siblings@),
{
    let (entry_id, current_name) = match (tag.root_entry_id, &tag.root_name) {
        (Some(entry_id), Some(name)) => (entry_id, name),
        _ => {
            return false;
        },
    };
    let mut attempt: u8 = 0;
    while attempt < MAX_NAME_ATTEMPTS
        invariant
            attempt <= MAX_NAME_ATTEMPTS,
            tag.root_entry_id == Some(entry_id),
            tag.root_name == Some(*current_name),
            forall|earlier: nat|
                earlier < attempt ==> name_taken(
                    root_siblings@,
                    entry_id,
                    #[trigger] tag_folder_name(*tag, entry_id, earlier),
                ) && tag_folder_name(*tag, entry_id, earlier) != current_name@,
        decreases MAX_NAME_ATTEMPTS - attempt,
    {
        let candidate = system_folder_name(tag.name.as_str(), "tag", entry_id, attempt);
        assert(candidate@ == tag_folder_name(*tag, entry_id, attempt as nat));
        if same_text(candidate.as_str(), current_name.as_str()) {
            assert(tag.root_name->0 == *current_name);
            assert(is_first_free(
                *tag,
                tag.root_entry_id->0,
                tag.root_name->0@,
                root_siblings@,
                attempt as nat,
            ));
            return true;
        }
        if !is_name_taken(root_siblings, entry_id, candidate.as_str()) {
            return false;
        }
        attempt += 1;
    }
    false
}

/// What a read-only look at the reserved folders found.
#[derive(Clone, Copy, Debug, PartialEq, Eq, Structural)]
pub struct RootPreflight {
    /// Every folder needed exists and is in shape.
    pub structurally_consistent: bool,
    /// Every tag folder carries its tag's own name.
    pub tag_names_exact: bool,
}

/// Whether every tag's folder carries its current name.
pub open spec fn tag_names_current(tags: Seq<ProjectedTag>, siblings: Seq<RootSibling>) -> bool {
    forall|k: int| 0 <= k < tags.len() ==> tag_name_current(#[trigger] tags[k], siblings)
}

/// Whether the reserved folders need no reconciliation. The tag names are
/// looked at one by one only where they are not all the plain ones.
pub fn system_roots_are_consistent(
    preflight: RootPreflight,
    active_tags: &Vec<ProjectedTag>,
    root_siblings: &Vec<RootSibling>,
) -> (consistent: bool)
    ensures
        consistent == (preflight.structurally_consistent && (preflight.tag_names_exact
            || tag_names_current(active_tags@, root_siblings@))),
{
    if !preflight.structurally_consistent {
        return false;
    }
    if preflight.tag_names_exact {
        return true;
    }
    let mut index: usize = 0;
    while index < active_tags.len()
        invariant
            index <= active_tags@.len(),
            preflight.structurally_consistent,
            !preflight.tag_names_exact,
            forall|k: int|
                0 <= k < index ==> tag_name_current(#[trigger] active_tags@[k], root_siblings@),
        decreases active_tags@.len() - index,
    {
        if !tag_root_name_is_current(&active_tags[index], root_siblings) {
            assert(!tag_name_current(active_tags@[index as int], root_siblings@));
            return false;
        }
        index += 1;
    }
    true
}

/// One member as kind and identifier.
#[derive(Clone, Debug)]
pub struct ProjectedMember {
    /// Kind of the member.
    pub actor_type: String,
    /// Identifier of the member.
    pub actor_id: String,
}

impl ProjectedMember {
    /// A copy of the member.
    pub fn duplicate(&self) -> (copy: ProjectedMember)
        ensures
            copy == *self,
    {
        ProjectedMember { actor_type: self.actor_type.clone(), actor_id: self.actor_id.clone() }
    }
}

/// Who the folders of the organization are recorded under: the caller where it
/// is a member, otherwise the member that the organization's order puts first.
pub fn resolve_custodian(
    preferred: Option<ProjectedMember>,
    preferred_exists: bool,
    first_member: Option<ProjectedMember>,
) -> (custodian: Option<ProjectedMember>)
    ensures
        custodian == if preferred is Some && preferred_exists {
            preferred
        } else {
            first_member
        },
{
    match preferred {
        Some(member) => {
            if preferred_exists {
                Some(member)
            } else {
                first_member
            }
        },
        None => first_member,
    }
}

/// One reserved folder that has to exist.
#[derive(Clone, Debug)]
pub enum RootTarget {
    /// The public root.
    Public,
    /// The private root.
    Private,
    /// The root of a tag.
    Tag {
        /// Tag identifier.
        tag_id: String,
        /// Tag name.
        name: String,
    },
    /// The root of a member.
    Actor {
        /// The private root.
        private_root_id: u128,
        /// The member.
        member: ProjectedMember,
    },
    /// A folder for application data.
    Container {
        /// Folder that holds it.
        parent_id: u128,
        /// Its name.
        name: String,
        /// The member.
        member: ProjectedMember,
    },
}

/// One reserved folder to be inserted, whatever it conflicts with.
#[derive(Clone, Debug)]
pub struct RootInsert {
    /// New entry identifier.
    pub entry_id: u128,
    /// Parent folder.
    pub parent_id: Option<u128>,
    /// Name.
    pub name: String,
    /// Kind of the boundary.
    pub root_type: &'static str,
    /// Tag of the boundary.
    pub tag_id: Option<String>,
    /// Reserved classification.
    pub system_kind: &'static str,
    /// Owner.
    pub owner: ProjectedMember,
    /// Member that the insertion is recorded under.
    pub custodian: ProjectedMember,
}

impl RootTarget {
    /// Kind of the boundary.
    pub open spec fn root_type_chars(self) -> Seq<char> {
        match self {
            RootTarget::Public => "public"@,
            RootTarget::Tag { .. } => "tag"@,
            _ => "private"@,
        }
    }

    /// Reserved classification.
    pub open spec fn kind_chars(self) -> Seq<char> {
        match self {
            RootTarget::Public => "public_root"@,
            RootTarget::Private => "private_root"@,
            RootTarget::Tag { .. } => "tag_root"@,
            RootTarget::Actor { .. } => "actor_root"@,
            RootTarget::Container { .. } => "app_container"@,
        }
    }

    /// Parent folder.
    pub open spec fn parent(self) -> Option<u128> {
        match self {
            RootTarget::Actor { private_root_id, .. } => Some(private_root_id),
            RootTarget::Container { parent_id, .. } => Some(parent_id),
            _ => None,
        }
    }

    /// Tag of the boundary.
    pub open spec fn tag(self) -> Option<Seq<char>> {
        match self {
            RootTarget::Tag { tag_id, .. } => Some(tag_id@),
            _ => None,
        }
    }

    /// Owner: the represented member, or the custodian of a shared root.
    pub open spec fn owner(self, custodian: ProjectedMember) -> ProjectedMember {
        match self {
            RootTarget::Actor { member, .. } => member,
            RootTarget::Container { member, .. } => member,
            _ => custodian,
        }
    }

    /// Name at an attempt. A container has only its own name.
    pub open spec fn name_at(self, entry_id: u128, attempt: nat) -> Seq<char> {
        match self {
            RootTarget::Public => folder_name("Public"@, "public"@, entry_id, attempt),
            RootTarget::Private => folder_name("Private"@, "private"@, entry_id, attempt),
            RootTarget::Tag { name, .. } => folder_name(name@, "tag"@, entry_id, attempt),
            RootTarget::Actor { member, .. } => folder_name(
                member.actor_id@,
                member.actor_type@,
                entry_id,
                attempt,
            ),
            RootTarget::Container { name, .. } => name@,
        }
    }

    /// Insertions tried before giving up.
    pub open spec fn attempt_limit(self) -> u8 {
        match self {
            RootTarget::Container { .. } => 1,
            _ => MAX_NAME_ATTEMPTS,
        }
    }

    /// The folder to insert at an attempt.
    pub fn insertion(&self, entry_id: u128, attempt: u8, custodian: &ProjectedMember) -> (root:
        RootInsert)
        ensures
            root.entry_id == entry_id,
            root.parent_id == self.parent(),
            root.name@ == self.name_at(entry_id, attempt as nat),
            root.root_type@ == self.root_type_chars(),
            optional_chars(root.tag_id) == self.tag(),
            root.system_kind@ == self.kind_chars(),
            root.owner == self.owner(*custodian),
            root.custodian == *custodian,
    {
        match self {
            RootTarget::Public => RootInsert {
                entry_id,
                parent_id: None,
                name: system_folder_name("Public", "public", entry_id, attempt),
                root_type: "public",
                tag_id: None,
                system_kind: "public_root",
                owner: custodian.duplicate(),
                custodian: custodian.duplicate(),
            },
            RootTarget::Private => RootInsert {
                entry_id,
                parent_id: None,
                name: system_folder_name("Private", "private", entry_id, attempt),
                root_type: "private",
                tag_id: None,
                system_kind: "private_root",
                owner: custodian.duplicate(),
                custodian: custodian.duplicate(),
            },
            RootTarget::Tag { tag_id, name } => RootInsert {
                entry_id,
                parent_id: None,
                name: system_folder_name(name.as_str(), "tag", entry_id, attempt),
                root_type: "tag",
                tag_id: Some(tag_id.clone()),
                system_kind: "tag_root",
                owner: custodian.duplicate(),
                custodian: custodian.duplicate(),
            },
            RootTarget::Actor { private_root_id, member } => RootInsert {
                entry_id,
                parent_id: Some(*private_root_id),
                name: system_folder_name(
                    member.actor_id.as_str(),
                    member.actor_type.as_str(),
                    entry_id,
                    attempt,
                ),
                root_type: "private",
                tag_id: None,
                system_kind: "actor_root",
                owner: member.duplicate(),
                custodian: custodian.duplicate(),
            },
            RootTarget::Container { parent_id, name, member } => RootInsert {
                entry_id,
                parent_id: Some(*parent_id),
                name: name.clone(),
                root_type: "private",
                tag_id: None,
                system_kind: "app_container",
                owner: member.duplicate(),
                custodian: custodian.duplicate(),
            },
        }
    }

    /// What an existing folder of this target has to look like. A container is
    /// looked up by its full description instead.
    pub fn expectation(&self) -> (expected: Option<SystemRootExpectation<'_>>)
        ensures
            expected is None == (*self is Container),
            expected matches Some(shape) ==> shape.system_kind@ == self.kind_chars()
                && shape.root_type@ == self.root_type_chars() && shape.parent_id == self.parent()
                && tag_chars(shape.tag_id) == self.tag() && match *self {
                RootTarget::Actor { member, .. } => shape.actor_owner matches Some(owner)
                    && owner.0@ == member.actor_type@ && owner.1@ == member.actor_id@,
                _ => shape.actor_owner is None,
            },
    {
        match self {
            RootTarget::Public => Some(
                SystemRootExpectation {
                    system_kind: "public_root",
                    root_type: "public",
                    parent_id: None,
                    tag_id: None,
                    actor_owner: None,
                },
            ),
            RootTarget::Private => Some(
                SystemRootExpectation {
                    system_kind: "private_root",
                    root_type: "private",
                    parent_id: None,
                    tag_id: None,
                    actor_owner: None,
                },
            ),
            RootTarget::Tag { tag_id, .. } => Some(
                SystemRootExpectation {
                    system_kind: "tag_root",
                    root_type: "tag",
                    parent_id: None,
                    tag_id: Some(tag_id.as_str()),
                    actor_owner: None,
                },
            ),
            RootTarget::Actor { private_root_id, member } => Some(
                SystemRootExpectation {
                    system_kind: "actor_root",
                    root_type: "private",
                    parent_id: Some(*private_root_id),
                    tag_id: None,
                    actor_owner: Some((member.actor_type.as_str(), member.actor_id.as_str())),
                },
            ),
            RootTarget::Container { .. } => None,
        }
    }

    /// What running out of names is reported as.
    pub fn exhaustion(&self) -> (message: &'static str)
        ensures
            message@ == match *self {
                RootTarget::Public | RootTarget::Private => "system root name space exhausted"@,
                RootTarget::Tag { .. } => "tag root name space exhausted"@,
                RootTarget::Actor { .. } => "actor root name space exhausted"@,
                RootTarget::Container { .. } => "application container name is taken"@,
            },
    {
        match self {
            RootTarget::Public | RootTarget::Private => "system root name space exhausted",
            RootTarget::Tag { .. } => "tag root name space exhausted",
            RootTarget::Actor { .. } => "actor root name space exhausted",
            RootTarget::Container { .. } => "application container name is taken",
        }
    }
}

/// What the last command on behalf of a reserved folder gave.
#[derive(Clone, Copy, Debug, PartialEq, Eq, Structural)]
pub enum RootEvent {
    /// The folder was looked up.
    LookedUp {
        /// Its identifier, where it exists.
        found: Option<u128>,
    },
    /// An insertion ran.
    Inserted {
        /// Identifier that was to be inserted.
        entry_id: u128,
        /// Whether it was inserted, rather than conflicting.
        inserted: bool,
    },
}

/// What to do next for a reserved folder.
#[derive(Clone, Copy, Debug, PartialEq, Eq, Structural)]
pub enum RootAction {
    /// Look it up.
    LookUp {
        /// Insertions tried so far.
        attempts: u8,
    },
    /// Try to insert it under the name of this attempt.
    Insert {
        /// The attempt.
        attempt: u8,
    },
    /// It exists.
    Done {
        /// Its identifier.
        entry_id: u128,
    },
    /// No name is left to try.
    Exhausted,
}

/// What to do next for a reserved folder after some insertions.
pub open spec fn next_root_action_spec(attempts: u8, limit: u8, event: RootEvent) -> RootAction {
    match event {
        RootEvent::LookedUp { found: Some(entry_id) } => RootAction::Done { entry_id },
        RootEvent::LookedUp { found: None } => if attempts < limit {
            RootAction::Insert { attempt: attempts }
        } else {
            RootAction::Exhausted
        },
        RootEvent::Inserted { entry_id, inserted } => if inserted {
            RootAction::Done { entry_id }
        } else {
            RootAction::LookUp { attempts: (attempts + 1) as u8 }
        },
    }
}

/// Decides how a reserved folder comes into being: it is looked up, inserted
/// where it is missing, looked up again where the insertion conflicted, and so
/// on under the next name until the names run out.
pub fn next_root_action(attempts: u8, target: &RootTarget, event: RootEvent) -> (action: RootAction)
    requires
        event is Inserted ==> attempts < target.attempt_limit(),
    ensures
        action == next_root_action_spec(attempts, target.attempt_limit(), event),
{
    let limit: u8 = match target {
        RootTarget::Container { .. } => 1,
        _ => MAX_NAME_ATTEMPTS,
    };
    match event {
        RootEvent::LookedUp { found: Some(entry_id) } => RootAction::Done { entry_id },
        RootEvent::LookedUp { found: None } => {
            if attempts < limit {
                RootAction::Insert { attempt: attempts }
            } else {
                RootAction::Exhausted
            }
        },
        RootEvent::Inserted { entry_id, inserted } => {
            if inserted {
                RootAction::Done { entry_id }
            } else {
                RootAction::LookUp { attempts: attempts + 1 }
            }
        },
    }
}

/// An existing reserved folder is never inserted again.
pub proof fn law_existing_roots_are_kept(attempts: u8, limit: u8, entry_id: u128)
    ensures
        next_root_action_spec(
            attempts,
            limit,
            RootEvent::LookedUp { found: Some(entry_id) },
        ) == (RootAction::Done { entry_id }),
{
}

/// No more insertions are tried than the limit allows.
pub proof fn law_root_insertions_are_bounded(attempts: u8, limit: u8, event: RootEvent)
    ensures
        next_root_action_spec(attempts, limit, event) matches RootAction::Insert { attempt }
            ==> attempt < limit,
{
}

/// How the folder of a tag keeps up with the tag's name.
#[derive(Clone, Debug)]
pub enum RenameStep {
    /// The folder carries the name of this attempt already.
    Keep,
    /// Try to rename the folder, unless a sibling holds the name.
    Try {
        /// The name.
        name: String,
    },
    /// No name is left to try.
    Exhausted,
}

/// Decides the next step of renaming a tag's folder.
pub fn next_rename(tag: &ProjectedTag, entry_id: u128, current_name: &str, attempt: u8) -> (step:
    RenameStep)
    ensures
        if attempt >= MAX_NAME_ATTEMPTS {
            step is Exhausted
        } else if tag_folder_name(*tag, entry_id, attempt as nat) == current_name@ {
            step is Keep
        } else {
            step matches RenameStep::Try { name } && name@ == tag_folder_name(
                *tag,
                entry_id,
                attempt as nat,
            )
        },
{
    if attempt >= MAX_NAME_ATTEMPTS {
        return RenameStep::Exhausted;
    }
    let name = system_folder_name(tag.name.as_str(), "tag", entry_id, attempt);
    if same_text(name.as_str(), current_name) {
        RenameStep::Keep
    } else {
        RenameStep::Try { name }
    }
}

/// What running out of names for a rename is reported as.
pub const RENAME_EXHAUSTED: &'static str = "tag root rename name space exhausted";

/// How one tag of the organization is reconciled.
#[derive(Clone, Debug)]
pub enum TagStep {
    /// The folder is missing.
    Ensure {
        /// The folder.
        target: RootTarget,
    },
    /// The folder exists and may have to be renamed.
    Rename {
        /// The folder.
        entry_id: u128,
        /// Its name.
        current_name: String,
    },
}

/// Decides whether a tag's folder is to be created or kept up to date.
pub fn reconcile_tag(tag: &ProjectedTag) -> (step: Result<TagStep, &'static str>)
    ensures
        match (tag.root_entry_id, tag.root_name) {
            (None, _) => step matches Ok(
                TagStep::Ensure { target: RootTarget::Tag { tag_id, name } },
            ) && tag_id == tag.tag_id && name == tag.name,
            (Some(id), Some(root_name)) => step matches Ok(
                TagStep::Rename { entry_id, current_name },
            ) && entry_id == id && current_name == root_name,
            (Some(_), None) => step matches Err(message) && message@
                == "projected tag root is missing its display name"@,
        },
{
    match tag.root_entry_id {
        None => Ok(
            TagStep::Ensure {
                target: RootTarget::Tag { tag_id: tag.tag_id.clone(), name: tag.name.clone() },
            },
        ),
        Some(entry_id) => match &tag.root_name {
            Some(name) => Ok(TagStep::Rename { entry_id, current_name: name.clone() }),
            None => Err("projected tag root is missing its display name"),
        },
    }
}

/// The members whose folders have to exist: those that miss one, and the
/// caller, whose folder is repaired even while its membership lags behind.
pub fn actor_targets(
    private_root_id: u128,
    missing_members: &Vec<ProjectedMember>,
    caller: Option<&ProjectedMember>,
) -> (targets: Vec<RootTarget>)
    ensures
        targets@.len() == missing_members@.len() + if caller is Some { 1int } else { 0int },
        forall|k: int|
            0 <= k < missing_members@.len() ==> #[trigger] targets@[k] == (RootTarget::Actor {
                private_root_id,
                member: missing_members@[k],
            }),
        caller matches Some(member) ==> targets@.last() == (RootTarget::Actor {
            private_root_id,
            member: *member,
        }),
{
    let mut targets: Vec<RootTarget> = Vec::new();
    let mut index: usize = 0;
    while index < missing_members.len()
        invariant
            index <= missing_members@.len(),
            targets@.len() == index,
            forall|k: int|
                0 <= k < index ==> #[trigger] targets@[k] == (RootTarget::Actor {
                    private_root_id,
                    member: missing_members@[k],
                }),
        decreases missing_members@.len() - index,
    {
        targets.push(
            RootTarget::Actor { private_root_id, member: missing_members[index].duplicate() },
        );
        index += 1;
    }
    if let Some(member) = caller {
        targets.push(RootTarget::Actor { private_root_id, member: member.duplicate() });
    }
    targets
}

/// Name of the reserved folder that holds one member's application data.
pub const APPLICATION_CONTAINER_NAME: &'static str = "apps";

/// The folder that holds a member's application data, below the member's root.
pub fn applications_target(actor_root_id: u128, member: &ProjectedMember) -> (target: RootTarget)
    ensures
        target matches RootTarget::Container { parent_id, name, member: owner } && parent_id
            == actor_root_id && name@ == "apps"@ && owner == *member,
{
    RootTarget::Container {
        parent_id: actor_root_id,
        name: APPLICATION_CONTAINER_NAME.to_owned(),
        member: member.duplicate(),
    }
}

/// The folder of one application, below the folder for application data.
pub fn application_target(apps_id: u128, application_id: &str, member: &ProjectedMember) -> (target:
    RootTarget)
    ensures
        target matches RootTarget::Container { parent_id, name, member: owner } && parent_id
            == apps_id && name@ == application_id@ && owner == *member,
{
    RootTarget::Container {
        parent_id: apps_id,
        name: application_id.to_owned(),
        member: member.duplicate(),
    }
}

} // verus!
