use securepass::{balance_password, check_password_strength, generate_random_password,
    ConfigError, PasswordOptions, PasswordStrength};

#[test]
fn test_generate_password_with_default() {
    let options = PasswordOptions::default();

    let result = options.generate_password();
    assert!(result.is_ok());
    let password = result.unwrap();
    assert_eq!(password.len(), PasswordOptions::default().length);

    let dictionary: Vec<String> = Vec::new();
    assert!(matches!(
        check_password_strength(&password, &dictionary).unwrap(),
        PasswordStrength::Strong
    ));
}

#[test]
fn test_generate_password_length_too_short() {
    let options = PasswordOptions { length: 5, ..Default::default() };

    let result = options.generate_password();
    assert!(result.is_err());
    assert_eq!(
        result.unwrap_err().message(),
        "Password length less than 10 is considered weak."
    );
}

#[test]
fn test_generate_password() {
    let options = PasswordOptions { length: 15, ..Default::default() };

    let result = options.generate_password();
    let password = result.unwrap();
    assert_eq!(password.len(), 15);
    let dictionary: Vec<String> = Vec::new();
    assert!(matches!(
        check_password_strength(&password, &dictionary).unwrap(),
        PasswordStrength::Strong
    ));
    assert!(password.chars().any(|c| "abcdefghijklmnopqrstuvwxyz".contains(c)));
    assert!(password.chars().any(|c| "ABCDEFGHIJKLMNOPQRSTUVWXYZ".contains(c)));
    assert!(password.chars().any(|c| "0123456789".contains(c)));
    assert!(password.chars().any(|c| "!@#$%^&*?(){}[]<>-_=+".contains(c)));
}

#[test]
fn test_generate_password_from_phrase() {
    let options = PasswordOptions { phrase: Some("a".to_string()), ..Default::default() };

    let password = options.generate_password();
    assert_eq!(password.unwrap(), "a".repeat(PasswordOptions::default().length));
}

#[test]
fn test_balance_password() {
    let dictionary: Vec<String> = Vec::new();
    let mut password = "qwertyuiop".to_string();
    assert!(matches!(
        check_password_strength(&password, &dictionary).unwrap(),
        PasswordStrength::Weak
    ));

    let balanced = balance_password(&mut password);
    assert!(matches!(
        check_password_strength(&balanced, &dictionary).unwrap(),
        PasswordStrength::Strong
    ));
}

#[test]
fn test_generate_password_whitespace_phrase_rejected() {
    let options = PasswordOptions { phrase: Some(" \t \n ".to_string()), ..Default::default() };

    let result = options.generate_password();
    assert_eq!(result.unwrap_err(), ConfigError::EmptyCharset);
}

#[test]
fn test_generate_password_unicode_whitespace_phrase_rejected() {
    // A phrase of no-break spaces is nothing but whitespace: the charset it
    // leaves is empty.
    let options = PasswordOptions { phrase: Some("\u{a0}\u{a0}".to_string()), ..Default::default() };

    let result = options.generate_password();
    assert_eq!(result.unwrap_err(), ConfigError::EmptyCharset);
}

#[test]
fn test_too_short_wins_over_empty_charset() {
    let options = PasswordOptions {
        length: 3,
        phrase: Some("   ".to_string()),
        ..Default::default()
    };

    assert_eq!(options.generate_password().unwrap_err(), ConfigError::TooShort);
}

#[test]
fn test_generate_password_from_spaced_phrase() {
    let options = PasswordOptions {
        length: 10,
        phrase: Some(" b b  b ".to_string()),
        ..Default::default()
    };

    let password = options.generate_password().unwrap();
    assert_eq!(password, "b".repeat(10));
}

#[test]
fn test_generate_password_only_enabled_classes() {
    let options = PasswordOptions {
        length: 12,
        include_special_chars: false,
        include_numbers: false,
        include_uppercase: true,
        with_balancing: true,
        phrase: None,
    };

    let password = options.generate_password().unwrap();
    assert_eq!(password.len(), 12);
    assert!(password.chars().any(|c| c.is_ascii_lowercase()));
    assert!(password.chars().any(|c| c.is_ascii_uppercase()));
    assert!(password.chars().all(|c| c.is_ascii_lowercase() || c.is_ascii_uppercase()));
}

#[test]
fn test_generate_random_password_single_char_charset() {
    let password = generate_random_password("x", 20);
    assert_eq!(password, "x".repeat(20));
}

#[test]
fn test_generate_random_password_zero_length() {
    let password = generate_random_password("abc", 0);
    assert_eq!(password, "");
}

#[test]
fn test_generate_random_password_stays_in_charset() {
    let password = generate_random_password("ab", 200);
    assert_eq!(password.len(), 200);
    assert!(password.chars().all(|c| c == 'a' || c == 'b'));
}

#[test]
fn test_balance_password_pads_short_input() {
    let mut password = String::new();
    let balanced = balance_password(&mut password);
    assert_eq!(balanced.len(), 13);
    assert_eq!(password, balanced);
    assert!(balanced.chars().any(|c| c.is_ascii_lowercase()));
    assert!(balanced.chars().any(|c| c.is_ascii_uppercase()));
    assert!(balanced.chars().any(|c| c.is_ascii_digit()));
    assert!(balanced.chars().any(|c| "!@#$%^&*?(){}[]<>-_=+".contains(c)));
}

#[test]
fn test_balance_password_keeps_covered_input() {
    let mut password = "aB3!aB3!aB3!a".to_string();
    let balanced = balance_password(&mut password);
    assert_eq!(balanced, "aB3!aB3!aB3!a");
    assert_eq!(password, "aB3!aB3!aB3!a");
}

#[test]
fn test_balance_password_changes_at_most_four_positions() {
    let mut password = "qwertyuiopasd".to_string();
    let before: Vec<char> = password.chars().collect();
    let balanced = balance_password(&mut password);
    let after: Vec<char> = balanced.chars().collect();
    assert_eq!(after.len(), before.len());
    let changed = before.iter().zip(after.iter()).filter(|(b, a)| b != a).count();
    assert!(changed <= 4);
}
