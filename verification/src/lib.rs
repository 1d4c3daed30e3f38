//! Password generation and strength evaluation.
//!
//! The crate builds a character set from a configuration, draws characters
//! uniformly at random from it to produce a password of the requested length,
//! can repair a password so that every required character class is
//! represented, and classifies any password's strength with an integer
//! fixed-point entropy model, optionally penalizing passwords that contain a
//! word from a caller-supplied dictionary.

mod balance;
mod classes;
mod laws;
mod options;
mod random;
mod strength;
mod text;

pub use classes::{
    check_password_specification, check_space_char, check_special_char, is_digit_char,
    is_lower_char, is_space_char, is_special_char, is_upper_char,
    lemma_alphabet_chars_have_class, lemma_class_charset_contains, lemma_strip_spaces_identity,
    remove_whitespace, spec_class_charset, spec_digit_chars, spec_has_digit, spec_has_lower,
    spec_has_special, spec_has_upper, spec_lowercase_chars, spec_special_chars,
    spec_uppercase_chars, strip_spaces, unicode_lower_char, unicode_upper_char,
    PasswordSpecification,
};
pub use balance::{balance_password, spec_covers, unchanged_outside};
pub use laws::{
    lemma_dictionary_penalty, lemma_full_coverage_strong, lemma_phrase_of_single_char,
    lemma_strength_monotonic_in_coverage,
};
pub use options::{spec_charset, ConfigError, PasswordOptions};
pub use random::generate_random_password;
pub use strength::{
    check_has_common_words, check_password_strength, password_entropy_centibits, spec_alphabet_size,
    spec_base_score, spec_centibits_of_size, spec_contains_word, spec_has_dict_word,
    spec_password_centibits, spec_strength, strength_rank, EmptyInputError, PasswordStrength,
};
