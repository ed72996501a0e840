use chirp_gen::file_name::{validate_file_name, ValidationError, MAX_NAME_LENGTH};

const RESERVED: [&str; 22] = [
    "CON", "PRN", "AUX", "NUL", "COM1", "COM2", "COM3", "COM4", "COM5", "COM6", "COM7", "COM8",
    "COM9", "LPT1", "LPT2", "LPT3", "LPT4", "LPT5", "LPT6", "LPT7", "LPT8", "LPT9",
];

const INVALID: [char; 9] = ['<', '>', ':', '"', '/', '\\', '|', '?', '*'];

#[test]
fn plain_names_are_accepted() {
    assert_eq!(validate_file_name("chirp"), Ok(()));
    assert_eq!(validate_file_name("sweep_20_to_20000"), Ok(()));
    assert_eq!(validate_file_name("my file (2)"), Ok(()));
    assert_eq!(validate_file_name("a.b"), Ok(()));
    assert_eq!(validate_file_name(".hidden"), Ok(()));
}

#[test]
fn empty_name_is_accepted() {
    assert_eq!(validate_file_name(""), Ok(()));
}

#[test]
fn reserved_name_con_is_rejected() {
    assert_eq!(validate_file_name("CON"), Err(ValidationError::ReservedName));
}

#[test]
fn reserved_name_is_rejected_in_lower_case() {
    assert_eq!(validate_file_name("con"), Err(ValidationError::ReservedName));
}

#[test]
fn every_reserved_name_is_rejected_in_any_case() {
    for word in RESERVED {
        assert_eq!(validate_file_name(word), Err(ValidationError::ReservedName));
        assert_eq!(
            validate_file_name(&word.to_ascii_lowercase()),
            Err(ValidationError::ReservedName)
        );
    }
    assert_eq!(validate_file_name("cOm7"), Err(ValidationError::ReservedName));
    assert_eq!(validate_file_name("Lpt1"), Err(ValidationError::ReservedName));
}

#[test]
fn reserved_match_is_exact() {
    assert_eq!(validate_file_name("CONSOLE"), Ok(()));
    assert_eq!(validate_file_name("CO"), Ok(()));
    assert_eq!(validate_file_name("COM0"), Ok(()));
    assert_eq!(validate_file_name("COM10"), Ok(()));
    assert_eq!(validate_file_name("LPT"), Ok(()));
    assert_eq!(validate_file_name(" CON"), Ok(()));
    assert_eq!(validate_file_name("CON.wav"), Ok(()));
}

#[test]
fn reserved_match_folds_ascii_letters_only() {
    // Only 'a'..='z' are folded: accented and full-width letters stay as they
    // are, and so do characters 32 code points away from a digit.
    assert_eq!(validate_file_name("C\u{d6}N"), Ok(()));
    assert_eq!(validate_file_name("\u{ff23}ON"), Ok(()));
    assert_eq!(validate_file_name("COM\u{11}"), Ok(()));
    assert_eq!(validate_file_name("COMQ"), Ok(()));
}

#[test]
fn question_mark_is_rejected() {
    assert_eq!(
        validate_file_name("file?name"),
        Err(ValidationError::InvalidCharacter('?'))
    );
}

#[test]
fn each_invalid_character_is_rejected() {
    for c in INVALID {
        let name = format!("left{c}right");
        assert_eq!(validate_file_name(&name), Err(ValidationError::InvalidCharacter(c)));
        let alone = c.to_string();
        assert_eq!(validate_file_name(&alone), Err(ValidationError::InvalidCharacter(c)));
    }
}

#[test]
fn leftmost_invalid_character_is_reported() {
    assert_eq!(validate_file_name("a*b?c<d"), Err(ValidationError::InvalidCharacter('*')));
    assert_eq!(validate_file_name("?*"), Err(ValidationError::InvalidCharacter('?')));
    assert_eq!(validate_file_name("\u{e9}t\u{e9}|x:y"), Err(ValidationError::InvalidCharacter('|')));
}

#[test]
fn trailing_period_is_rejected() {
    assert_eq!(validate_file_name("name."), Err(ValidationError::TrailingPeriod));
    assert_eq!(validate_file_name("."), Err(ValidationError::TrailingPeriod));
    assert_eq!(validate_file_name("a.b."), Err(ValidationError::TrailingPeriod));
    assert_eq!(validate_file_name("name. "), Ok(()));
}

#[test]
fn name_of_256_characters_is_too_long() {
    assert_eq!(validate_file_name(&"a".repeat(256)), Err(ValidationError::TooLong));
}

#[test]
fn name_of_255_characters_is_accepted() {
    assert_eq!(validate_file_name(&"a".repeat(255)), Ok(()));
}

#[test]
fn length_limit_is_the_named_constant() {
    assert_eq!(MAX_NAME_LENGTH, 255);
    assert_eq!(validate_file_name(&"x".repeat(MAX_NAME_LENGTH)), Ok(()));
    assert_eq!(validate_file_name(&"x".repeat(MAX_NAME_LENGTH + 1)), Err(ValidationError::TooLong));
    assert_eq!(validate_file_name(&"x".repeat(5000)), Err(ValidationError::TooLong));
}

#[test]
fn length_is_counted_in_characters_not_bytes() {
    let name = "\u{e9}".repeat(255);
    assert_eq!(name.len(), 510);
    assert_eq!(validate_file_name(&name), Ok(()));
    let longer = "\u{e9}".repeat(256);
    assert_eq!(validate_file_name(&longer), Err(ValidationError::TooLong));
    let wide = "\u{1f3b5}".repeat(255);
    assert_eq!(wide.len(), 1020);
    assert_eq!(validate_file_name(&wide), Ok(()));
}

#[test]
fn invalid_character_wins_over_trailing_period_and_length() {
    assert_eq!(validate_file_name("a:b."), Err(ValidationError::InvalidCharacter(':')));
    let long = format!("{}/", "a".repeat(300));
    assert_eq!(validate_file_name(&long), Err(ValidationError::InvalidCharacter('/')));
    let both = format!("{}>.", "a".repeat(300));
    assert_eq!(validate_file_name(&both), Err(ValidationError::InvalidCharacter('>')));
}

#[test]
fn trailing_period_wins_over_length() {
    let name = format!("{}.", "a".repeat(400));
    assert_eq!(validate_file_name(&name), Err(ValidationError::TrailingPeriod));
}

#[test]
fn one_violation_put_into_an_accepted_name_is_reported() {
    let clean = ["chirp", "a", "", "Sweep 01", "com", "\u{e9}cho", &"z".repeat(255)];
    for name in clean {
        assert_eq!(validate_file_name(name), Ok(()));

        let with_period = format!("{name}.");
        assert_eq!(validate_file_name(&with_period), Err(ValidationError::TrailingPeriod));

        let chars: Vec<char> = name.chars().collect();
        for c in INVALID {
            for at in [0, chars.len() / 2, chars.len()] {
                let mut changed = chars.clone();
                changed.insert(at, c);
                let changed: String = changed.into_iter().collect();
                assert_eq!(
                    validate_file_name(&changed),
                    Err(ValidationError::InvalidCharacter(c))
                );
            }
        }

        let lengthened = format!("{name}{}", "y".repeat(256 - chars.len()));
        assert_eq!(lengthened.chars().count(), 256);
        assert_eq!(validate_file_name(&lengthened), Err(ValidationError::TooLong));
    }
}

#[test]
fn validation_twice_gives_the_same_answer() {
    for name in ["CON", "ok", "bad|name", "dot.", &"q".repeat(256)] {
        assert_eq!(validate_file_name(name), validate_file_name(name));
    }
}

#[test]
fn message_for_reserved_name() {
    assert_eq!(
        ValidationError::ReservedName.message("CON"),
        "The file name 'CON' is a reserved name on Windows."
    );
}

#[test]
fn message_for_invalid_character() {
    assert_eq!(
        ValidationError::InvalidCharacter('?').message("file?name"),
        "The file name 'file?name' contains an invalid character: '?'."
    );
    assert_eq!(
        ValidationError::InvalidCharacter('\\').message("a\\b"),
        "The file name 'a\\b' contains an invalid character: '\\'."
    );
}

#[test]
fn message_for_trailing_period() {
    assert_eq!(
        ValidationError::TrailingPeriod.message("name."),
        "The file name 'name.' cannot end with a period."
    );
}

#[test]
fn message_for_too_long() {
    let name = "a".repeat(256);
    assert_eq!(
        ValidationError::TooLong.message(&name),
        format!("The file name '{name}' exceeds the maximum length of 255 characters.")
    );
}

#[test]
fn message_matches_the_error_that_validation_returns() {
    let name = "what?";
    let error = validate_file_name(name).unwrap_err();
    assert_eq!(
        error.message(name),
        "The file name 'what?' contains an invalid character: '?'."
    );
}
