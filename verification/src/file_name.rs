//! Portability rules for output file names.
//!
//! A name is judged as a sequence of characters. Four rules apply, and the
//! first one that is broken decides the answer:
//!
//! 1. the name is not a device name reserved by Windows, in any letter case;
//! 2. it holds none of the characters `< > : " / \ | ? *`;
//! 3. it does not end with a period;
//! 4. it is at most [`MAX_NAME_LENGTH`] characters long.

use vstd::prelude::*;
use vstd::string::*;

pub mod laws;

verus! {

/// Why a candidate output name is refused.
#[derive(Clone, Copy, Debug, PartialEq, Eq, Structural)]
pub enum ValidationError {
    /// The name is one of the device names that Windows reserves.
    ReservedName,
    /// The name holds this character, which Windows forbids in file names.
    InvalidCharacter(char),
    /// The name ends with a period.
    TrailingPeriod,
    /// The name is longer than [`MAX_NAME_LENGTH`] characters.
    TooLong,
}

/// Longest accepted name, in characters.
pub const MAX_NAME_LENGTH: usize = 255;

/// `String::push` of the standard library: the string afterwards holds the
/// characters it held before, followed by `ch`. Taken from the method's
/// documentation, not proved.
pub assume_specification[ String::push ](s: &mut String, ch: char)
    ensures
        final(s)@ == old(s)@.push(ch),
;

impl ValidationError {
    /// The sentence that reports this error about the name `file_name`.
    pub open spec fn message_text(self, file_name: Seq<char>) -> Seq<char> {
        let subject = "The file name '"@ + file_name;
        match self {
            ValidationError::ReservedName => subject + "' is a reserved name on Windows."@,
            ValidationError::InvalidCharacter(c) => subject
                + "' contains an invalid character: '"@.push(c) + "'."@,
            ValidationError::TrailingPeriod => subject + "' cannot end with a period."@,
            ValidationError::TooLong => subject
                + "' exceeds the maximum length of 255 characters."@,
        }
    }

    /// Writes out the sentence that reports this error about `file_name`.
    pub fn message(&self, file_name: &str) -> (text: String)
        ensures
            text@ == self.message_text(file_name@),
    {
        let mut text = String::from_str("The file name '");
        text.append(file_name);
        match self {
            ValidationError::ReservedName => {
                text.append("' is a reserved name on Windows.");
            },
            ValidationError::InvalidCharacter(c) => {
                text.append("' contains an invalid character: '");
                text.push(*c);
                text.append("'.");
            },
            ValidationError::TrailingPeriod => {
                text.append("' cannot end with a period.");
            },
            ValidationError::TooLong => {
                text.append("' exceeds the maximum length of 255 characters.");
            },
        }
        text
    }
}

/// The characters that may not occur anywhere in a name.
pub open spec fn is_invalid_character(c: char) -> bool {
    c == '<' || c == '>' || c == ':' || c == '"' || c == '/' || c == '\\' || c == '|' || c == '?'
        || c == '*'
}

/// `c`, with an ASCII lower-case letter replaced by its upper-case form.
pub open spec fn ascii_uppercase(c: char) -> char {
    if 'a' <= c <= 'z' {
        ((c as int) - 32) as char
    } else {
        c
    }
}

/// Two names are the same up to the case of their ASCII letters.
pub open spec fn eq_ignore_ascii_case(a: Seq<char>, b: Seq<char>) -> bool {
    &&& a.len() == b.len()
    &&& forall|i: int|
        0 <= i < a.len() ==> ascii_uppercase(#[trigger] a[i]) == ascii_uppercase(b[i])
}

/// The device names that Windows reserves, in their upper-case spelling.
pub open spec fn reserved_names() -> Seq<Seq<char>> {
    seq![
        "CON"@,
        "PRN"@,
        "AUX"@,
        "NUL"@,
        "COM1"@,
        "COM2"@,
        "COM3"@,
        "COM4"@,
        "COM5"@,
        "COM6"@,
        "COM7"@,
        "COM8"@,
        "COM9"@,
        "LPT1"@,
        "LPT2"@,
        "LPT3"@,
        "LPT4"@,
        "LPT5"@,
        "LPT6"@,
        "LPT7"@,
        "LPT8"@,
        "LPT9"@,
    ]
}

/// The whole name is a reserved device name, in any letter case.
pub open spec fn is_reserved_name(name: Seq<char>) -> bool {
    exists|k: int|
        0 <= k < reserved_names().len() && eq_ignore_ascii_case(
            name,
            #[trigger] reserved_names()[k],
        )
}

/// Some character of the name is invalid.
pub open spec fn has_invalid_character(name: Seq<char>) -> bool {
    exists|i: int| 0 <= i < name.len() && is_invalid_character(#[trigger] name[i])
}

/// Position `i` holds an invalid character and no earlier position does.
pub open spec fn is_first_invalid_at(name: Seq<char>, i: int) -> bool {
    &&& 0 <= i < name.len()
    &&& is_invalid_character(name[i])
    &&& forall|j: int| 0 <= j < i ==> !is_invalid_character(#[trigger] name[j])
}

/// The leftmost invalid character of a name that has one.
pub open spec fn first_invalid_character(name: Seq<char>) -> char
    recommends
        has_invalid_character(name),
{
    name[choose|i: int| is_first_invalid_at(name, i)]
}

/// The last character of the name is a period.
pub open spec fn ends_with_period(name: Seq<char>) -> bool {
    name.len() > 0 && name.last() == '.'
}

/// The name holds more characters than a file name may.
pub open spec fn is_too_long(name: Seq<char>) -> bool {
    name.len() > MAX_NAME_LENGTH
}

/// The verdict on a name: the first broken rule, or acceptance.
pub open spec fn validation_result(name: Seq<char>) -> Result<(), ValidationError> {
    if is_reserved_name(name) {
        Err(ValidationError::ReservedName)
    } else if has_invalid_character(name) {
        Err(ValidationError::InvalidCharacter(first_invalid_character(name)))
    } else if ends_with_period(name) {
        Err(ValidationError::TrailingPeriod)
    } else if is_too_long(name) {
        Err(ValidationError::TooLong)
    } else {
        Ok(())
    }
}

/// A name has at most one leftmost invalid character: whoever finds it has
/// found [`first_invalid_character`].
pub proof fn lemma_first_invalid_character(name: Seq<char>, i: int)
    requires
        is_first_invalid_at(name, i),
    ensures
        has_invalid_character(name),
        first_invalid_character(name) == name[i],
{
    let k = choose|k: int| is_first_invalid_at(name, k);
    assert(is_first_invalid_at(name, k));
    assert(k == i) by {
        if k < i {
            assert(!is_invalid_character(name[k]));
        } else if i < k {
            assert(!is_invalid_character(name[i]));
        }
    }
}

fn is_invalid(c: char) -> (b: bool)
    ensures
        b == is_invalid_character(c),
{
    c == '<' || c == '>' || c == ':' || c == '"' || c == '/' || c == '\\' || c == '|' || c == '?'
        || c == '*'
}

fn to_ascii_uppercase(c: char) -> (u: char)
    ensures
        u == ascii_uppercase(c),
{
    if 'a' <= c && c <= 'z' {
        ((c as u8) - 32) as char
    } else {
        c
    }
}

/// Scans the name from the left for an invalid character.
fn find_invalid_character(name: &str) -> (found: Option<char>)
    ensures
        found is Some <==> has_invalid_character(name@),
        found is Some ==> found->0 == first_invalid_character(name@),
{
    for c in it: name.chars()
        invariant
            it.seq() == name@,
            forall|j: int| 0 <= j < it.index() ==> !is_invalid_character(#[trigger] name@[j]),
    {
        if is_invalid(c) {
            proof {
                lemma_first_invalid_character(name@, it.index() as int);
            }
            return Some(c);
        }
    }
    None
}

/// Compares a name of `length` characters with a reserved word, letter case
/// aside.
fn matches_ignoring_case(name: &str, length: usize, word: &str) -> (same: bool)
    requires
        length == name@.len(),
    ensures
        same == eq_ignore_ascii_case(name@, word@),
{
    if word.unicode_len() != length {
        return false;
    }
    let mut i: usize = 0;
    while i < length
        invariant
            i <= length,
            length == name@.len(),
            length == word@.len(),
            forall|j: int|
                0 <= j < i ==> ascii_uppercase(#[trigger] name@[j]) == ascii_uppercase(word@[j]),
        decreases length - i,
    {
        if to_ascii_uppercase(name.get_char(i)) != to_ascii_uppercase(word.get_char(i)) {
            return false;
        }
        i += 1;
    }
    true
}

/// Looks the name up among the reserved device names.
fn is_reserved(name: &str, length: usize) -> (reserved: bool)
    requires
        length == name@.len(),
    ensures
        reserved == is_reserved_name(name@),
{
    let words: [&str; 22] = [
        "CON", "PRN", "AUX", "NUL", "COM1", "COM2", "COM3", "COM4", "COM5", "COM6", "COM7",
        "COM8", "COM9", "LPT1", "LPT2", "LPT3", "LPT4", "LPT5", "LPT6", "LPT7", "LPT8", "LPT9",
    ];
    assert(forall|j: int| 0 <= j < 22 ==> (#[trigger] words@[j])@ == reserved_names()[j]);
    let mut k: usize = 0;
    while k < 22
        invariant
            k <= 22,
            length == name@.len(),
            reserved_names().len() == 22,
            forall|j: int| 0 <= j < 22 ==> (#[trigger] words@[j])@ == reserved_names()[j],
            forall|j: int|
                0 <= j < k ==> !eq_ignore_ascii_case(name@, #[trigger] reserved_names()[j]),
        decreases 22 - k,
    {
        if matches_ignoring_case(name, length, words[k]) {
            return true;
        }
        k += 1;
    }
    false
}

/// Judges a candidate output name.
///
/// The name is accepted when it breaks none of the four rules; otherwise the
/// error names the first rule that it breaks, and for an invalid character the
/// leftmost one in the name.
pub fn validate_file_name(file_name: &str) -> (r: Result<(), ValidationError>)
    ensures
        r == validation_result(file_name@),
        r is Ok <==> {
            &&& !is_reserved_name(file_name@)
            &&& !has_invalid_character(file_name@)
            &&& !ends_with_period(file_name@)
            &&& !is_too_long(file_name@)
        },
{
    let length = file_name.unicode_len();
    if is_reserved(file_name, length) {
        return Err(ValidationError::ReservedName);
    }
    if let Some(c) = find_invalid_character(file_name) {
        return Err(ValidationError::InvalidCharacter(c));
    }
    if length > 0 && file_name.get_char(length - 1) == '.' {
        return Err(ValidationError::TrailingPeriod);
    }
    if length > MAX_NAME_LENGTH {
        return Err(ValidationError::TooLong);
    }
    Ok(())
}

} // verus!
