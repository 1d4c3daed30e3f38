use securepass::{check_has_common_words, check_password_specification, check_password_strength,
    password_entropy_centibits, remove_whitespace, PasswordStrength};

#[test]
fn test_check_password_strength() {
    let dictionary: Vec<String> = Vec::new();
    assert!(matches!(
        check_password_strength("!QEa4Kta2}wg1", &dictionary).unwrap(),
        PasswordStrength::Strong
    ));
    assert!(matches!(
        check_password_strength("Medium333!@", &dictionary).unwrap(),
        PasswordStrength::Medium
    ));
    assert!(matches!(
        check_password_strength("weakpassword", &dictionary).unwrap(),
        PasswordStrength::Weak
    ));
}

#[test]
fn test_check_password_strength_empty_input() {
    let dictionary: Vec<String> = Vec::new();
    let result = check_password_strength("", &dictionary);
    assert!(result.is_err());
    assert_eq!(result.unwrap_err().message(), "Password must contain min 1 char");
}

#[test]
fn test_entropy_centibits_exact_values() {
    // 12 lowercase characters: 12 * floor(100 * log2(26)) = 12 * 470.
    assert_eq!(password_entropy_centibits("weakpassword"), 5640);
    // 11 characters over all four classes: 11 * floor(100 * log2(83)) = 11 * 637.
    assert_eq!(password_entropy_centibits("Medium333!@"), 7007);
    // 13 characters over all four classes: 13 * 637.
    assert_eq!(password_entropy_centibits("!QEa4Kta2}wg1"), 8281);
    // Characters of no class contribute an empty effective alphabet.
    assert_eq!(password_entropy_centibits("~~~~"), 0);
    assert_eq!(password_entropy_centibits(""), 0);
}

#[test]
fn test_dictionary_penalty_demotes_one_tier() {
    let dictionary: Vec<String> = vec!["password".to_string()];
    // Both are 13 characters over all four classes (8281 centibits, below the
    // 8500 safety margin); only the first embeds the dictionary word.
    let with_word = "password4!Xa9";
    let without_word = "drowssap4!Xa9";
    assert!(matches!(
        check_password_strength(with_word, &dictionary).unwrap(),
        PasswordStrength::Medium
    ));
    assert!(matches!(
        check_password_strength(without_word, &dictionary).unwrap(),
        PasswordStrength::Strong
    ));
}

#[test]
fn test_dictionary_penalty_ends_at_safety_margin() {
    let dictionary: Vec<String> = vec!["password".to_string()];
    // 14 characters over all four classes: 8918 centibits, above the 8500
    // safety margin, so the embedded word costs nothing.
    assert!(matches!(
        check_password_strength("password44!Xa9", &dictionary).unwrap(),
        PasswordStrength::Strong
    ));
}

#[test]
fn test_strength_monotonic_in_coverage_scenario() {
    let dictionary: Vec<String> = Vec::new();
    let full = check_password_strength("aB3!aB3!aB3!", &dictionary).unwrap();
    let lower_only = check_password_strength("abcdefghijkl", &dictionary).unwrap();
    let rank = |v: &PasswordStrength| match v {
        PasswordStrength::Weak => 0,
        PasswordStrength::Medium => 1,
        PasswordStrength::Strong => 2,
    };
    assert!(rank(&full) >= rank(&lower_only));
    assert!(matches!(full, PasswordStrength::Medium));
    assert!(matches!(lower_only, PasswordStrength::Weak));
}

#[test]
fn test_check_has_common_words() {
    let dictionary: Vec<String> = vec!["qwerty".to_string(), "password".to_string()];
    assert!(check_has_common_words("xxpasswordyy", &dictionary));
    assert!(check_has_common_words("qwerty", &dictionary));
    assert!(!check_has_common_words("drowssap", &dictionary));
    assert!(!check_has_common_words("Password", &dictionary));
    assert!(!check_has_common_words("", &dictionary));
}

#[test]
fn test_check_has_common_words_empty_entry_matches_everything() {
    let dictionary: Vec<String> = vec![String::new()];
    assert!(check_has_common_words("anything", &dictionary));
    assert!(check_has_common_words("", &dictionary));
}

#[test]
fn test_check_password_specification() {
    let all = check_password_specification("aB3!");
    assert!(all.has_lowercase);
    assert!(all.has_uppercase);
    assert!(all.has_number);
    assert!(all.has_special);

    let lower = check_password_specification("abc");
    assert!(lower.has_lowercase);
    assert!(!lower.has_uppercase);
    assert!(!lower.has_number);
    assert!(!lower.has_special);

    let none = check_password_specification("~ ~");
    assert!(!none.has_lowercase);
    assert!(!none.has_uppercase);
    assert!(!none.has_number);
    assert!(!none.has_special);
}

#[test]
fn test_remove_whitespace() {
    assert_eq!(remove_whitespace(" a b\tc\nd \r"), "abcd");
    assert_eq!(remove_whitespace("nospace"), "nospace");
    assert_eq!(remove_whitespace(" \t\n\r"), "");
}

#[test]
fn test_remove_whitespace_unicode() {
    // No-break space, ogham space mark, en quad, line separator, ideographic
    // space: all White_Space, all stripped, like str::split_whitespace.
    assert_eq!(remove_whitespace("a\u{a0}b\u{1680}c\u{2000}d\u{2028}e\u{3000}f"), "abcdef");
    assert_eq!(remove_whitespace("\u{a0}\u{2009}\u{202f}\u{205f}\u{85}"), "");
    assert_eq!(
        remove_whitespace("x y z"),
        "x y z".split_whitespace().collect::<String>()
    );
}

#[test]
fn test_check_password_specification_unicode_letters() {
    // Greek small and capital alpha carry the Unicode Lowercase and
    // Uppercase properties that char::is_lowercase / is_uppercase report.
    let greek = check_password_specification("\u{3b1}\u{391}");
    assert!(greek.has_lowercase);
    assert!(greek.has_uppercase);
    assert!(!greek.has_number);
    assert!(!greek.has_special);
}

#[test]
fn test_entropy_counts_unicode_lowercase() {
    // Twelve Greek lowercase letters: only the lowercase class is present,
    // so the entropy is 12 * floor(100 * log2(26)), as for ASCII lowercase.
    let password = "\u{3b1}\u{3b2}\u{3b3}\u{3b4}\u{3b5}\u{3b6}\u{3b7}\u{3b8}\u{3b9}\u{3ba}\u{3bb}\u{3bc}";
    assert_eq!(password_entropy_centibits(password), 5640);
}
