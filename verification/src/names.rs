//! Case ids and the names of the threads that host cases. A case's thread is
//! named by a fixed prefix followed by the case id, and the id is recovered
//! from the name alone.

use vstd::prelude::*;
use vstd::string::*;
use uuid::Uuid;

verus! {

/// Number of characters in a case id.
pub const CASE_ID_LENGTH: usize = 6;

/// Number of characters in the prefix of a case thread's name.
pub const CASE_PREFIX_LENGTH: usize = 5;

/// Minutes without activity after which a case thread is archived: one day.
pub const AUTO_ARCHIVE_MINUTES: u16 = 1440;

/// The kinds of channel that the operations tell apart.
#[derive(Clone, Copy, Debug, PartialEq, Eq, Structural)]
pub enum ThreadKind {
    /// A public discussion thread.
    PublicThread,
    /// Any other kind of channel or thread.
    Other,
}

/// The prefix of every case thread's name.
pub open spec fn case_prefix() -> Seq<char> {
    "case-"@
}

/// The prefix has five characters.
pub proof fn lemma_case_prefix_len()
    ensures
        case_prefix().len() == CASE_PREFIX_LENGTH,
{
    reveal_strlit("case-");
}

/// Whether `name` begins with the case prefix.
pub open spec fn has_case_prefix(name: Seq<char>) -> bool {
    name.len() >= CASE_PREFIX_LENGTH && name.subrange(0, CASE_PREFIX_LENGTH as int)
        == case_prefix()
}

/// Whether a thread of this kind and name hosts a case.
pub open spec fn is_case_thread(kind: ThreadKind, name: Seq<char>) -> bool {
    kind == ThreadKind::PublicThread && has_case_prefix(name)
}

/// The case id that a case thread's name carries: all that follows the prefix.
pub open spec fn thread_case_id(name: Seq<char>) -> Seq<char> {
    name.subrange(CASE_PREFIX_LENGTH as int, name.len() as int)
}

/// The name of the thread that hosts the case `id`.
pub open spec fn thread_name_of(id: Seq<char>) -> Seq<char> {
    case_prefix() + id
}

/// Whether `c` is one of `0`-`9` or `a`-`f`.
pub open spec fn is_lower_hex(c: char) -> bool {
    (0x30 <= c as u32 <= 0x39) || (0x61 <= c as u32 <= 0x66)
}

/// Calls `uuid::Uuid::new_v4` and writes the identifier out with its
/// `Display` impl. Trusted: the text is the hyphenated lower-case form, 36
/// characters, hyphens at positions 8, 13, 18 and 23 and hexadecimal digits
/// elsewhere. Which digits is left open: they are random.
#[verifier::external_body]
fn random_uuid_text() -> (text: String)
    ensures
        text@.len() == 36,
        forall|i: int|
            0 <= i < 36 ==> if i == 8 || i == 13 || i == 18 || i == 23 {
                #[trigger] text@[i] == '-'
            } else {
                is_lower_hex(text@[i])
            },
{
    Uuid::new_v4().to_string()
}

/// The first six characters of `token`.
pub fn short_id(token: &str) -> (id: String)
    requires
        token@.len() >= CASE_ID_LENGTH,
    ensures
        id@ == token@.subrange(0, CASE_ID_LENGTH as int),
{
    token.substring_char(0, CASE_ID_LENGTH).to_owned()
}

/// A fresh case id: the first six characters of a random identifier.
pub fn new_case_id() -> (id: String)
    ensures
        id@.len() == CASE_ID_LENGTH,
        forall|i: int| 0 <= i < CASE_ID_LENGTH ==> is_lower_hex(#[trigger] id@[i]),
{
    let token = random_uuid_text();
    let id = short_id(token.as_str());
    assert forall|i: int| 0 <= i < CASE_ID_LENGTH implies is_lower_hex(#[trigger] id@[i]) by {
        assert(id@[i] == token@[i]);
    }
    id
}

/// The name of the thread that hosts the case `id`.
pub fn thread_name(id: &str) -> (name: String)
    ensures
        name@ == thread_name_of(id@),
{
    "case-".to_owned().concat(id)
}

/// Whether a thread of this kind and name hosts a case.
pub fn hosts_case(kind: ThreadKind, name: &str) -> (yes: bool)
    ensures
        yes == is_case_thread(kind, name@),
{
    match kind {
        ThreadKind::PublicThread => {
            if name.unicode_len() < CASE_PREFIX_LENGTH {
                false
            } else {
                name.substring_char(0, CASE_PREFIX_LENGTH).to_owned() == "case-".to_owned()
            }
        },
        ThreadKind::Other => false,
    }
}

/// The id of the case that a thread hosts: for a public thread whose name
/// begins with the prefix, what follows the prefix; for any other, nothing.
pub fn case_id_of_thread(kind: ThreadKind, name: &str) -> (id: Option<String>)
    ensures
        match id {
            Some(found) => is_case_thread(kind, name@) && found@ == thread_case_id(name@),
            None => !is_case_thread(kind, name@),
        },
{
    if hosts_case(kind, name) {
        Some(name.substring_char(CASE_PREFIX_LENGTH, name.unicode_len()).to_owned())
    } else {
        None
    }
}

} // verus!
