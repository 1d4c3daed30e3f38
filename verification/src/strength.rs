//! Password strength evaluation.
//!
//! The evaluator uses an entropy model over integers: the entropy of a
//! password is its length times the binary logarithm of the effective
//! alphabet size, the sum of the sizes of the character classes actually
//! present in the password. To stay in integer arithmetic, entropy is
//! measured in centibits (hundredths of a bit): for each reachable alphabet
//! size `n`, a table gives `floor(100 * log2(n))`, and the model's thresholds
//! of 40, 60, 82, 100 and 85 bits become 4000, 6000, 8200,
//! 10000 and 8500 centibits. A password that contains a word of the supplied
//! dictionary as a contiguous substring is penalized by one score point while
//! its entropy lies below the 8500-centibit safety margin.
//!
//! One rule throughout: length and class coverage are always those of the
//! whole password; a contained dictionary word is never stripped from it, it
//! only costs the penalty point.

use vstd::prelude::*;
use vstd::string::StringExecFns;
use crate::classes::{
    compute_flags, spec_has_digit, spec_has_lower, spec_has_special, spec_has_upper,
    PasswordSpecification,
};
use crate::text::str_to_chars;

verus! {

/// Strength rating of a password, ordered `Weak < Medium < Strong`.
#[derive(Clone, Copy, Debug, PartialEq, Eq, Structural)]
pub enum PasswordStrength {
    /// Weak password strength.
    Weak,
    /// Medium password strength.
    Medium,
    /// Strong password strength.
    Strong,
}

/// The rank of a rating in the order `Weak < Medium < Strong`.
pub open spec fn strength_rank(v: PasswordStrength) -> int {
    match v {
        PasswordStrength::Weak => 0,
        PasswordStrength::Medium => 1,
        PasswordStrength::Strong => 2,
    }
}

/// Error returned when strength is requested on an empty password.
#[derive(Clone, Copy, Debug, PartialEq, Eq, Structural)]
pub struct EmptyInputError;

impl EmptyInputError {
    /// The message describing this error.
    pub fn message(&self) -> (r: String)
        ensures
            r@ == "Password must contain min 1 char"@,
    {
        String::from_str("Password must contain min 1 char")
    }
}

/// The effective alphabet size: the sizes of the character classes present
/// in the password add up (26 lowercase, 26 uppercase, 10 digits, 21 special
/// characters).
pub open spec fn spec_alphabet_size(lower: bool, upper: bool, digits: bool, special: bool) -> int {
    (if lower {
        26int
    } else {
        0int
    }) + (if upper {
        26int
    } else {
        0int
    }) + (if digits {
        10int
    } else {
        0int
    }) + (if special {
        21int
    } else {
        0int
    })
}

/// `floor(100 * log2(n))` for every alphabet size `n` that a combination of
/// the four classes can reach; 0 for an empty alphabet (and any other size).
pub open spec fn spec_centibits_of_size(n: int) -> int {
    if n == 10 {
        332
    } else if n == 21 {
        439
    } else if n == 26 {
        470
    } else if n == 31 {
        495
    } else if n == 36 {
        516
    } else if n == 47 {
        555
    } else if n == 52 {
        570
    } else if n == 57 {
        583
    } else if n == 62 {
        595
    } else if n == 73 {
        618
    } else if n == 83 {
        637
    } else {
        0
    }
}

/// The entropy of a password in centibits: its length times the centibit
/// logarithm of its effective alphabet size.
pub open spec fn spec_password_centibits(p: Seq<char>) -> int {
    p.len() * spec_centibits_of_size(
        spec_alphabet_size(
            spec_has_lower(p),
            spec_has_upper(p),
            spec_has_digit(p),
            spec_has_special(p),
        ),
    )
}

/// The word occurs in the password as a contiguous substring. An empty word
/// occurs in every password.
pub open spec fn spec_contains_word(p: Seq<char>, w: Seq<char>) -> bool {
    exists|i: int| 0 <= i && i + w.len() <= p.len() && #[trigger] p.subrange(i, i + w.len()) == w
}

/// Some word of the dictionary occurs in the password.
pub open spec fn spec_has_dict_word(p: Seq<char>, dict: Seq<Seq<char>>) -> bool {
    exists|k: int| 0 <= k < dict.len() && spec_contains_word(p, dict[k])
}

/// The score points earned by entropy alone: one point per tier above 6000
/// centibits, within [6000, 8200), [8200, 10000) and [10000, ..) in turn.
pub open spec fn spec_base_score(e: int) -> int {
    if e < 6000 {
        0
    } else if e < 8200 {
        1
    } else if e < 10000 {
        2
    } else {
        3
    }
}

/// The strength rating of a non-empty password against a dictionary.
/// Entropy below the 4000-centibit floor is Weak outright; otherwise the
/// entropy tiers earn 0 to 3 points, a contained dictionary word costs one
/// point while entropy is below 8500 centibits, and the cumulative score maps
/// to the rating: two points or more are Strong, exactly one point is
/// Medium, anything less is Weak.
pub open spec fn spec_strength(p: Seq<char>, dict: Seq<Seq<char>>) -> PasswordStrength {
    let e = spec_password_centibits(p);
    if e < 4000 {
        PasswordStrength::Weak
    } else {
        let base = spec_base_score(e);
        let score = if spec_has_dict_word(p, dict) && e < 8500 {
            base - 1
        } else {
            base
        };
        if score >= 2 {
            PasswordStrength::Strong
        } else if score == 1 {
            PasswordStrength::Medium
        } else {
            PasswordStrength::Weak
        }
    }
}

/// The centibit logarithm of the alphabet of the classes that the flags mark
/// present.
fn alphabet_centibits(flags: &PasswordSpecification) -> (r: u64)
    ensures
        r == spec_centibits_of_size(
            spec_alphabet_size(
                flags.has_lowercase,
                flags.has_uppercase,
                flags.has_number,
                flags.has_special,
            ),
        ),
        r <= 637,
{
    let mut n: u64 = 0;
    if flags.has_lowercase {
        n = n + 26;
    }
    if flags.has_uppercase {
        n = n + 26;
    }
    if flags.has_number {
        n = n + 10;
    }
    if flags.has_special {
        n = n + 21;
    }
    match n {
        10 => 332,
        21 => 439,
        26 => 470,
        31 => 495,
        36 => 516,
        47 => 555,
        52 => 570,
        57 => 583,
        62 => 595,
        73 => 618,
        83 => 637,
        _ => 0,
    }
}

/// Computes the entropy of a password in centibits.
pub fn password_entropy_centibits(password: &str) -> (r: u128)
    ensures
        r == spec_password_centibits(password@),
{
    let chars = str_to_chars(password);
    let flags = compute_flags(&chars);
    let bits = alphabet_centibits(&flags);
    let len = chars.len();
    proof {
        assert((len as u128) * (bits as u128) <= (usize::MAX as u128) * 637) by (nonlinear_arith)
            requires
                len <= usize::MAX,
                bits <= 637,
        ;
    }
    (len as u128) * (bits as u128)
}

/// Reports whether `needle` occurs in `hay` as a contiguous run.
pub(crate) fn contains_chars(hay: &Vec<char>, needle: &Vec<char>) -> (r: bool)
    ensures
        r == spec_contains_word(hay@, needle@),
{
    let n = hay.len();
    let m = needle.len();
    if m > n {
        return false;
    }
    if m == 0 {
        proof {
            assert(hay@.subrange(0, 0 + needle@.len() as int) =~= needle@);
        }
        return true;
    }
    let mut i: usize = 0;
    while i <= n - m
        invariant
            0 <= i <= n - m + 1,
            0 < m <= n,
            n == hay@.len(),
            m == needle@.len(),
            forall|s: int| 0 <= s < i ==> #[trigger] hay@.subrange(s, s + m as int) != needle@,
        decreases n - i,
    {
        let mut j: usize = 0;
        let mut mismatch = false;
        while j < m
            invariant
                0 <= j <= m,
                0 <= i <= n - m,
                n == hay@.len(),
                m == needle@.len(),
                !mismatch ==> forall|t: int| 0 <= t < j ==> hay@[i + t] == needle@[t],
                mismatch ==> hay@.subrange(i as int, i + m as int) != needle@,
            decreases m - j,
        {
            if hay[i + j] != needle[j] {
                proof {
                    assert(hay@.subrange(i as int, i + m as int)[j as int] != needle@[j as int]);
                }
                mismatch = true;
                j = m;
            } else {
                j = j + 1;
            }
        }
        if !mismatch {
            proof {
                assert(hay@.subrange(i as int, i + m as int) =~= needle@);
            }
            return true;
        }
        i = i + 1;
    }
    proof {
        assert forall|s: int| 0 <= s && s + needle@.len() <= hay@.len() implies #[trigger] hay@.subrange(
            s,
            s + needle@.len(),
        ) != needle@ by {
            assert(s < i);
        }
    }
    false
}

/// Reports whether the password contains any word of the dictionary as a
/// contiguous substring (a linear scan over every entry, not a token-boundary
/// match).
pub fn check_has_common_words(password: &str, words: &Vec<String>) -> (r: bool)
    ensures
        r == spec_has_dict_word(password@, words.deep_view()),
{
    let hay = str_to_chars(password);
    let mut k: usize = 0;
    while k < words.len()
        invariant
            0 <= k <= words@.len(),
            hay@ == password@,
            words.deep_view().len() == words@.len(),
            forall|t: int| 0 <= t < words@.len() ==> words.deep_view()[t] == #[trigger] words@[t]@,
            forall|t: int| 0 <= t < k ==> !spec_contains_word(password@, words.deep_view()[t]),
        decreases words@.len() - k,
    {
        let w = str_to_chars(words[k].as_str());
        if contains_chars(&hay, &w) {
            return true;
        }
        k = k + 1;
    }
    false
}

/// Checks the strength of a password against a dictionary of common words.
/// An empty password is an error, never a rating.
pub fn check_password_strength(password: &str, words: &Vec<String>) -> (r: Result<
    PasswordStrength,
    EmptyInputError,
>)
    ensures
        r is Err <==> password@.len() == 0,
        password@.len() > 0 ==> r == Ok::<PasswordStrength, EmptyInputError>(
            spec_strength(password@, words.deep_view()),
        ),
{
    if password.is_empty() {
        return Err(EmptyInputError);
    }
    let e = password_entropy_centibits(password);
    if e < 4000 {
        return Ok(PasswordStrength::Weak);
    }
    let base: u64 = if e < 6000 {
        0
    } else if e < 8200 {
        1
    } else if e < 10000 {
        2
    } else {
        3
    };
    let malus = check_has_common_words(password, words) && e < 8500;
    let score: i64 = if malus {
        base as i64 - 1
    } else {
        base as i64
    };
    if score >= 2 {
        Ok(PasswordStrength::Strong)
    } else if score == 1 {
        Ok(PasswordStrength::Medium)
    } else {
        Ok(PasswordStrength::Weak)
    }
}

} // verus!
