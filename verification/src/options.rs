//! Generation configuration and the password generator.

use vstd::prelude::*;
use vstd::string::StringExecFns;
use crate::balance::{balance_chars, spec_covers};
use crate::classes::{
    class_charset, lemma_class_charset_contains, remove_whitespace, spec_class_charset,
    strip_spaces,
};
use crate::random::generate_random_password;
use crate::text::{chars_to_string, str_to_chars};

verus! {

/// Options for password generation. Lowercase characters are always
/// included; the minimum accepted length is 10.
pub struct PasswordOptions {
    /// Length of the password.
    pub length: usize,
    /// Whether to include special characters in the password.
    pub include_special_chars: bool,
    /// Whether to include uppercase characters in the password.
    pub include_uppercase: bool,
    /// Whether to include numerical characters in the password.
    pub include_numbers: bool,
    /// Whether to balance the password to ensure it meets strength criteria.
    pub with_balancing: bool,
    /// Optional phrase whose characters become the charset.
    pub phrase: Option<String>,
}

/// Error returned when the options admit no password.
#[derive(Clone, Copy, Debug, PartialEq, Eq, Structural)]
pub enum ConfigError {
    /// The requested length lies below the minimum of 10.
    TooShort,
    /// No character is available: the phrase holds nothing but whitespace.
    EmptyCharset,
}

impl ConfigError {
    /// The message describing this error.
    pub fn message(&self) -> (r: String)
        ensures
            *self == ConfigError::TooShort ==> r@
                == "Password length less than 10 is considered weak."@,
            *self == ConfigError::EmptyCharset ==> r@
                == "Password cannot be drawn from an empty charset."@,
    {
        match self {
            ConfigError::TooShort => String::from_str(
                "Password length less than 10 is considered weak.",
            ),
            ConfigError::EmptyCharset => String::from_str(
                "Password cannot be drawn from an empty charset.",
            ),
        }
    }
}

/// The charset the options describe: the whitespace-stripped phrase when one
/// is given, otherwise the enabled class alphabets.
pub open spec fn spec_charset(o: &PasswordOptions) -> Seq<char> {
    match o.phrase {
        Some(p) => strip_spaces(p@),
        None => spec_class_charset(o.include_uppercase, o.include_numbers, o.include_special_chars),
    }
}

impl Default for PasswordOptions {
    /// The default options: length 13, every class enabled, balancing on, no
    /// phrase.
    fn default() -> (r: Self)
        ensures
            r.length == 13,
            r.include_special_chars,
            r.include_uppercase,
            r.include_numbers,
            r.with_balancing,
            r.phrase is None,
    {
        Self {
            length: 13,
            include_special_chars: true,
            include_uppercase: true,
            include_numbers: true,
            with_balancing: true,
            phrase: None,
        }
    }
}

impl PasswordOptions {
    /// Builds the charset described by the options.
    pub fn generate_charset(&self) -> (r: String)
        ensures
            r@ == spec_charset(self),
    {
        match &self.phrase {
            Some(p) => remove_whitespace(p.as_str()),
            None => {
                let v = class_charset(
                    self.include_uppercase,
                    self.include_numbers,
                    self.include_special_chars,
                );
                chars_to_string(&v)
            },
        }
    }

    /// Generates a password of exactly the requested length, drawn from the
    /// charset the options describe. A length below 10 is rejected as too
    /// short; a charset with no characters is rejected as empty. With
    /// balancing on and no phrase, the password is repaired so that every
    /// enabled character class is represented.
    pub fn generate_password(&self) -> (r: Result<String, ConfigError>)
        ensures
            r is Err <==> (self.length < 10 || spec_charset(self).len() == 0),
            self.length < 10 ==> r == Err::<String, ConfigError>(ConfigError::TooShort),
            self.length >= 10 && spec_charset(self).len() == 0 ==> r == Err::<String, ConfigError>(
                ConfigError::EmptyCharset,
            ),
            r matches Ok(p) ==> p@.len() == self.length,
            r matches Ok(p) ==> forall|i: int|
                0 <= i < p@.len() ==> spec_charset(self).contains(#[trigger] p@[i]),
            r matches Ok(p) ==> (self.phrase is None && self.with_balancing ==> spec_covers(
                p@,
                self.include_uppercase,
                self.include_numbers,
                self.include_special_chars,
            )),
    {
        let length = self.length;
        if length < 10 {
            return Err(ConfigError::TooShort);
        }
        let charset = self.generate_charset();
        if charset.as_str().is_empty() {
            return Err(ConfigError::EmptyCharset);
        }
        let mut password = generate_random_password(charset.as_str(), length);

        if self.phrase.is_none() && self.with_balancing {
            let mut v = str_to_chars(password.as_str());
            balance_chars(
                &mut v,
                self.include_uppercase,
                self.include_numbers,
                self.include_special_chars,
            );
            proof {
                lemma_class_charset_contains(
                    self.include_uppercase,
                    self.include_numbers,
                    self.include_special_chars,
                );
            }
            password = chars_to_string(&v);
        }

        Ok(password)
    }
}

} // verus!
