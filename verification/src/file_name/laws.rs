//! What follows from the rules: how a name that is accepted stops being so.

use vstd::prelude::*;
use crate::file_name::{
    ascii_uppercase, ends_with_period, eq_ignore_ascii_case, first_invalid_character,
    has_invalid_character, is_first_invalid_at, is_invalid_character, is_reserved_name,
    is_too_long, lemma_first_invalid_character, reserved_names, validation_result,
    ValidationError, MAX_NAME_LENGTH,
};

verus! {

/// An upper-case ASCII letter or an ASCII digit.
pub open spec fn is_upper_or_digit(c: char) -> bool {
    'A' <= c <= 'Z' || '0' <= c <= '9'
}

/// Every reserved device name is three or four characters long and spelled
/// with upper-case letters and digits only.
pub proof fn lemma_reserved_names_spelling()
    ensures
        reserved_names().len() == 22,
        forall|k: int|
            0 <= k < 22 ==> 3 <= (#[trigger] reserved_names()[k]).len() <= 4,
        forall|k: int, i: int|
            0 <= k < 22 && 0 <= i < reserved_names()[k].len() ==> is_upper_or_digit(
                #[trigger] reserved_names()[k][i],
            ),
{
    reveal_strlit("CON");
    reveal_strlit("PRN");
    reveal_strlit("AUX");
    reveal_strlit("NUL");
    reveal_strlit("COM1");
    reveal_strlit("COM2");
    reveal_strlit("COM3");
    reveal_strlit("COM4");
    reveal_strlit("COM5");
    reveal_strlit("COM6");
    reveal_strlit("COM7");
    reveal_strlit("COM8");
    reveal_strlit("COM9");
    reveal_strlit("LPT1");
    reveal_strlit("LPT2");
    reveal_strlit("LPT3");
    reveal_strlit("LPT4");
    reveal_strlit("LPT5");
    reveal_strlit("LPT6");
    reveal_strlit("LPT7");
    reveal_strlit("LPT8");
    reveal_strlit("LPT9");
}

/// A reserved name breaks no other rule: it is short, holds no invalid
/// character and does not end with a period.
pub proof fn lemma_reserved_name_is_otherwise_clean(name: Seq<char>)
    requires
        is_reserved_name(name),
    ensures
        3 <= name.len() <= 4,
        !has_invalid_character(name),
        !ends_with_period(name),
        !is_too_long(name),
{
    lemma_reserved_names_spelling();
    let k = choose|k: int|
        0 <= k < reserved_names().len() && eq_ignore_ascii_case(
            name,
            #[trigger] reserved_names()[k],
        );
    let word = reserved_names()[k];
    assert forall|i: int| 0 <= i < name.len() implies !is_invalid_character(#[trigger] name[i])
        && name[i] != '.' by {
        assert(ascii_uppercase(name[i]) == ascii_uppercase(word[i]));
        assert(is_upper_or_digit(word[i]));
    }
    if name.len() > 0 {
        assert(name.last() == name[name.len() - 1]);
    }
}

/// At or before any invalid character of a name stands its leftmost one.
proof fn lemma_leftmost_invalid_before(name: Seq<char>, i: int) -> (k: int)
    requires
        0 <= i < name.len(),
        is_invalid_character(name[i]),
    ensures
        k <= i,
        is_first_invalid_at(name, k),
    decreases i,
{
    if exists|j: int| 0 <= j < i && is_invalid_character(#[trigger] name[j]) {
        let j = choose|j: int| 0 <= j < i && is_invalid_character(#[trigger] name[j]);
        lemma_leftmost_invalid_before(name, j)
    } else {
        i
    }
}

/// A name with an invalid character has a leftmost one, and that is what
/// [`first_invalid_character`] names: an invalid character of the name with
/// none before it.
pub proof fn lemma_first_invalid_character_exists(name: Seq<char>) -> (at: int)
    requires
        has_invalid_character(name),
    ensures
        is_first_invalid_at(name, at),
        first_invalid_character(name) == name[at],
        is_invalid_character(first_invalid_character(name)),
{
    let i = choose|i: int| 0 <= i < name.len() && is_invalid_character(#[trigger] name[i]);
    let at = lemma_leftmost_invalid_before(name, i);
    lemma_first_invalid_character(name, at);
    at
}

/// A name is accepted exactly when it breaks none of the four rules.
pub proof fn lemma_accepted_iff_clean(name: Seq<char>)
    ensures
        validation_result(name) is Ok <==> {
            &&& !is_reserved_name(name)
            &&& !has_invalid_character(name)
            &&& !ends_with_period(name)
            &&& !is_too_long(name)
        },
{
}

/// Each error is returned on exactly the names whose first broken rule is
/// the one it stands for; in particular a name that breaks a single rule is
/// refused for that rule. The character reported as invalid is an invalid
/// character of the name.
pub proof fn lemma_first_broken_rule_is_reported(name: Seq<char>)
    ensures
        validation_result(name) == Err::<(), ValidationError>(ValidationError::ReservedName)
            <==> is_reserved_name(name),
        validation_result(name) matches Err(ValidationError::InvalidCharacter(_)) <==> {
            &&& !is_reserved_name(name)
            &&& has_invalid_character(name)
        },
        validation_result(name) matches Err(ValidationError::InvalidCharacter(c)) ==> {
            &&& c == first_invalid_character(name)
            &&& is_invalid_character(c)
            &&& name.contains(c)
        },
        validation_result(name) == Err::<(), ValidationError>(ValidationError::TrailingPeriod)
            <==> {
            &&& !is_reserved_name(name)
            &&& !has_invalid_character(name)
            &&& ends_with_period(name)
        },
        validation_result(name) == Err::<(), ValidationError>(ValidationError::TooLong) <==> {
            &&& !is_reserved_name(name)
            &&& !has_invalid_character(name)
            &&& !ends_with_period(name)
            &&& is_too_long(name)
        },
{
    if has_invalid_character(name) {
        let at = lemma_first_invalid_character_exists(name);
        assert(name.contains(name[at]));
    }
}

/// Spelling a reserved device name, in whatever letter case, is refused as
/// such.
pub proof fn lemma_reserved_spelling_rejected(name: Seq<char>, k: int)
    requires
        0 <= k < reserved_names().len(),
        eq_ignore_ascii_case(name, reserved_names()[k]),
    ensures
        validation_result(name) == Err::<(), ValidationError>(ValidationError::ReservedName),
{
}

/// Putting one invalid character anywhere into an accepted name makes it
/// refused for that character.
pub proof fn lemma_inserted_invalid_character_rejected(name: Seq<char>, at: int, c: char)
    requires
        validation_result(name) is Ok,
        0 <= at <= name.len(),
        is_invalid_character(c),
    ensures
        validation_result(name.insert(at, c)) == Err::<(), ValidationError>(
            ValidationError::InvalidCharacter(c),
        ),
{
    let changed = name.insert(at, c);
    assert forall|j: int| 0 <= j < at implies !is_invalid_character(#[trigger] changed[j]) by {
        assert(changed[j] == name[j]);
    }
    assert(changed[at] == c);
    assert(is_first_invalid_at(changed, at));
    lemma_first_invalid_character(changed, at);
    if is_reserved_name(changed) {
        lemma_reserved_name_is_otherwise_clean(changed);
    }
}

/// Putting a period at the end of an accepted name makes it refused for the
/// trailing period.
pub proof fn lemma_appended_period_rejected(name: Seq<char>)
    requires
        validation_result(name) is Ok,
    ensures
        validation_result(name.push('.')) == Err::<(), ValidationError>(
            ValidationError::TrailingPeriod,
        ),
{
    let changed = name.push('.');
    assert(changed.last() == '.');
    if is_reserved_name(changed) {
        lemma_reserved_name_is_otherwise_clean(changed);
    }
    if has_invalid_character(changed) {
        let i = choose|i: int|
            0 <= i < changed.len() && is_invalid_character(#[trigger] changed[i]);
        if i < name.len() {
            assert(changed[i] == name[i]);
        }
    }
}

/// Lengthening an accepted name beyond the limit, with valid characters of
/// which the last is no period, makes it refused for its length.
pub proof fn lemma_lengthened_name_rejected(name: Seq<char>, tail: Seq<char>)
    requires
        validation_result(name) is Ok,
        !has_invalid_character(tail),
        !ends_with_period(tail),
        name.len() + tail.len() > MAX_NAME_LENGTH,
    ensures
        validation_result(name + tail) == Err::<(), ValidationError>(ValidationError::TooLong),
{
    let changed = name + tail;
    if is_reserved_name(changed) {
        lemma_reserved_name_is_otherwise_clean(changed);
    }
    if has_invalid_character(changed) {
        let i = choose|i: int|
            0 <= i < changed.len() && is_invalid_character(#[trigger] changed[i]);
        if i < name.len() {
            assert(changed[i] == name[i]);
        } else {
            assert(changed[i] == tail[i - name.len()]);
        }
    }
    assert(tail.len() > 0);
    assert(changed.last() == tail.last());
}

} // verus!
