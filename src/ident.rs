use vstd::prelude::*;
use vstd::string::*;

verus! {

/// What `char::is_whitespace` answers for a character.
pub uninterp spec fn whitespace_char(c: char) -> bool;

/// What `char::is_alphanumeric` answers for a character.
pub uninterp spec fn alphanumeric_char(c: char) -> bool;

/// What `char::is_alphabetic` answers for a character.
pub uninterp spec fn alphabetic_char(c: char) -> bool;

/// Relies on `char::is_whitespace` (Unicode White_Space property).
#[verifier::external_body]
pub(crate) fn is_whitespace(c: char) -> (r: bool)
    ensures
        r == whitespace_char(c),
{
    c.is_whitespace()
}

/// Relies on `char::is_alphanumeric` (Unicode Alphabetic or Numeric).
#[verifier::external_body]
fn is_alphanumeric(c: char) -> (r: bool)
    ensures
        r == alphanumeric_char(c),
{
    c.is_alphanumeric()
}

/// Relies on `char::is_alphabetic` (Unicode Alphabetic property).
#[verifier::external_body]
fn is_alphabetic(c: char) -> (r: bool)
    ensures
        r == alphabetic_char(c),
{
    c.is_alphabetic()
}

/// Why a string cannot name a variable of the evaluator.
#[derive(Clone, Copy, Debug, PartialEq, Eq, Structural)]
pub enum IdError {
    Whitespace,
    Empty,
    NotAlphanumeric,
    FirstNotAlphabetic,
}

/// A character allowed inside an identifier.
pub open spec fn word_char(c: char) -> bool {
    alphanumeric_char(c) || c == '_'
}

pub open spec fn has_whitespace(s: Seq<char>) -> bool {
    exists|i: int| 0 <= i < s.len() && whitespace_char(#[trigger] s[i])
}

pub open spec fn all_word_chars(s: Seq<char>) -> bool {
    forall|i: int| 0 <= i < s.len() ==> word_char(#[trigger] s[i])
}

/// The first rule an identifier breaks, checked in a fixed order; `None` when
/// it is acceptable.
pub open spec fn id_error_of(s: Seq<char>) -> Option<IdError> {
    if has_whitespace(s) {
        Some(IdError::Whitespace)
    } else if s.len() == 0 {
        Some(IdError::Empty)
    } else if !all_word_chars(s) {
        Some(IdError::NotAlphanumeric)
    } else if !alphabetic_char(s[0]) {
        Some(IdError::FirstNotAlphabetic)
    } else {
        None
    }
}

pub open spec fn id_error_message(e: IdError) -> Seq<char> {
    match e {
        IdError::Whitespace => "Error: ID cannot contain whitespace characters"@,
        IdError::Empty => "Error: ID cannot be empty"@,
        IdError::NotAlphanumeric => "Error: ID must be alphanumeric"@,
        IdError::FirstNotAlphabetic => "Error: First letter must be alphabetic"@,
    }
}

impl IdError {
    /// The text shown next to an offending identifier.
    pub fn message(&self) -> (r: String)
        ensures
            r@ == id_error_message(*self),
    {
        match self {
            IdError::Whitespace => String::from_str("Error: ID cannot contain whitespace characters"),
            IdError::Empty => String::from_str("Error: ID cannot be empty"),
            IdError::NotAlphanumeric => String::from_str("Error: ID must be alphanumeric"),
            IdError::FirstNotAlphabetic => String::from_str("Error: First letter must be alphabetic"),
        }
    }
}

/// Picks the reported error from what is known about an identifier's characters:
/// whitespace wins over emptiness, emptiness over a bad character, and a bad
/// character over a non-alphabetic first letter.
pub fn id_error_from_classes(
    has_space: bool,
    is_empty: bool,
    all_word: bool,
    first_alphabetic: bool,
) -> (r: Option<IdError>)
    ensures
        r == (if has_space {
            Some(IdError::Whitespace)
        } else if is_empty {
            Some(IdError::Empty)
        } else if !all_word {
            Some(IdError::NotAlphanumeric)
        } else if !first_alphabetic {
            Some(IdError::FirstNotAlphabetic)
        } else {
            None
        }),
{
    if has_space {
        Some(IdError::Whitespace)
    } else if is_empty {
        Some(IdError::Empty)
    } else if !all_word {
        Some(IdError::NotAlphanumeric)
    } else if !first_alphabetic {
        Some(IdError::FirstNotAlphabetic)
    } else {
        None
    }
}

/// Checks whether `id` may name an input or a parameter.
pub fn has_id_error(id: &str) -> (r: Option<IdError>)
    ensures
        r == id_error_of(id@),
{
    let n = id.unicode_len();
    let mut has_space = false;
    let mut all_word = true;
    let mut i: usize = 0;
    while i < n
        invariant
            n == id@.len(),
            i <= n,
            has_space == has_whitespace(id@.subrange(0, i as int)),
            all_word == all_word_chars(id@.subrange(0, i as int)),
        decreases n - i,
    {
        let c = id.get_char(i);
        let ghost before = id@.subrange(0, i as int);
        let ghost after = id@.subrange(0, i + 1);
        assert(after == before.push(c));
        if is_whitespace(c) {
            has_space = true;
            assert(after[i as int] == c);
        } else {
            assert(has_whitespace(after) == has_whitespace(before)) by {
                if has_whitespace(after) {
                    let j = choose|j: int| 0 <= j < after.len() && whitespace_char(#[trigger] after[j]);
                    assert(j < i);
                    assert(before[j] == after[j]);
                }
            }
        }
        let word = is_alphanumeric(c) || c == '_';
        if !word {
            all_word = false;
            assert(!word_char(after[i as int]));
        } else {
            assert(all_word_chars(after) == all_word_chars(before)) by {
                if all_word_chars(before) {
                    assert forall|j: int| 0 <= j < after.len() implies word_char(#[trigger] after[j]) by {
                        if j < i {
                            assert(before[j] == after[j]);
                        }
                    }
                }
            }
        }
        i = i + 1;
    }
    assert(id@.subrange(0, n as int) == id@);
    let first_alphabetic = if n > 0 {
        is_alphabetic(id.get_char(0))
    } else {
        false
    };
    id_error_from_classes(has_space, n == 0, all_word, first_alphabetic)
}

} // verus!
