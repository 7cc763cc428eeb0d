//! The identifier generator: fixed-length random short ids drawn from a
//! URL-safe alphabet.
use vstd::prelude::*;
use vstd::string::StrSliceExecFns;

verus! {

/// The length of every short id the service hands out.
pub const ID_LENGTH: usize = 21;

/// The URL-safe alphabet the ids are drawn from: letters, digits, `_` and `-`.
pub open spec fn is_id_char(c: char) -> bool {
    ||| 'a' <= c && c <= 'z'
    ||| 'A' <= c && c <= 'Z'
    ||| '0' <= c && c <= '9'
    ||| c == '_'
    ||| c == '-'
}

/// A well-formed short id: exactly `ID_LENGTH` characters, all from the
/// URL-safe alphabet.
pub open spec fn is_valid_id(s: Seq<char>) -> bool {
    &&& s.len() == ID_LENGTH
    &&& forall|i: int| 0 <= i < s.len() ==> is_id_char(#[trigger] s[i])
}

/// Relies on nanoid::format with nanoid's default random source and its
/// URL-safe alphabet (64 symbols: `A-Za-z0-9_-`): the result holds exactly
/// `size` characters, each taken from that alphabet.
#[verifier::external_body]
fn nanoid_id() -> (r: String)
    ensures
        is_valid_id(r@),
{
    nanoid::format(nanoid::rngs::default, &nanoid::alphabet::SAFE, ID_LENGTH)
}

/// Produce a fresh short id: a random string of exactly `ID_LENGTH`
/// characters from the URL-safe alphabet. Generation never fails; uniqueness
/// rests on the entropy of the alphabet and on the store refusing a second
/// record under an id it already holds.
pub fn generate() -> (id: String)
    ensures
        is_valid_id(id@),
{
    nanoid_id()
}

/// Whether one character belongs to the id alphabet.
pub fn id_char_ok(c: char) -> (b: bool)
    ensures
        b == is_id_char(c),
{
    ('a' <= c && c <= 'z') || ('A' <= c && c <= 'Z') || ('0' <= c && c <= '9') || c == '_' || c
        == '-'
}

/// Whether a string is a well-formed short id.
pub fn id_ok(s: &str) -> (b: bool)
    ensures
        b == is_valid_id(s@),
{
    let n = s.unicode_len();
    if n != ID_LENGTH {
        return false;
    }
    let mut i: usize = 0;
    while i < n
        invariant
            n == s@.len(),
            0 <= i <= n,
            forall|j: int| 0 <= j < i ==> is_id_char(#[trigger] s@[j]),
        decreases n - i,
    {
        if !id_char_ok(s.get_char(i)) {
            return false;
        }
        i = i + 1;
    }
    true
}

} // verus!
