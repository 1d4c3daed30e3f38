//! Character classes and alphabets.
//!
//! A password is judged by which of four character classes occur in it:
//! lowercase letters, uppercase letters, digits, and a fixed set of special
//! characters. This module defines those classes, the alphabets that
//! generation draws from, the composition flags derived from a password, and
//! whitespace stripping for seed phrases.

use vstd::prelude::*;
use crate::text::{chars_to_string, str_to_chars};

verus! {

/// Whether `char::is_lowercase` holds of a character: what
/// [`check_lower_char`] relies on outside the ASCII letters.
pub uninterp spec fn unicode_lower_char(c: char) -> bool;

/// Whether `char::is_uppercase` holds of a character: what
/// [`check_upper_char`] relies on outside the ASCII letters.
pub uninterp spec fn unicode_upper_char(c: char) -> bool;

/// A character counts as lowercase when `char::is_lowercase` reports the
/// Unicode Lowercase property: every character of `'a'..='z'` has it, and
/// beyond that range the named result [`unicode_lower_char`] decides.
pub open spec fn is_lower_char(c: char) -> bool {
    ('a' <= c && c <= 'z') || unicode_lower_char(c)
}

/// A character counts as uppercase when `char::is_uppercase` reports the
/// Unicode Uppercase property: every character of `'A'..='Z'` has it, and
/// beyond that range the named result [`unicode_upper_char`] decides.
pub open spec fn is_upper_char(c: char) -> bool {
    ('A' <= c && c <= 'Z') || unicode_upper_char(c)
}

/// Relies on `char::is_lowercase`: the Unicode Lowercase property, which
/// every character of `'a'..='z'` has. The result depends on the character
/// alone.
#[verifier::external_body]
pub(crate) fn check_lower_char(c: char) -> (r: bool)
    ensures
        r == is_lower_char(c),
        !('a' <= c && c <= 'z') ==> r == unicode_lower_char(c),
{
    c.is_lowercase()
}

/// Relies on `char::is_uppercase`: the Unicode Uppercase property, which
/// every character of `'A'..='Z'` has. The result depends on the character
/// alone.
#[verifier::external_body]
pub(crate) fn check_upper_char(c: char) -> (r: bool)
    ensures
        r == is_upper_char(c),
        !('A' <= c && c <= 'Z') ==> r == unicode_upper_char(c),
{
    c.is_uppercase()
}

/// A character counts as a digit when it lies in `'0'..='9'`.
pub open spec fn is_digit_char(c: char) -> bool {
    '0' <= c && c <= '9'
}

/// The special characters that passwords may draw from.
pub open spec fn spec_special_chars() -> Seq<char> {
    seq!['!', '@', '#', '$', '%', '^', '&', '*', '?', '(', ')', '{', '}', '[', ']', '<', '>', '-', '_', '=', '+']
}

/// A character counts as special when it occurs in the special alphabet.
pub open spec fn is_special_char(c: char) -> bool {
    spec_special_chars().contains(c)
}

/// Whitespace, as stripped from seed phrases: the Unicode White_Space set
/// (the 25 code points that `char::is_whitespace` and `split_whitespace`
/// accept).
pub open spec fn is_space_char(c: char) -> bool {
    ('\u{9}' <= c && c <= '\u{d}') || c == ' ' || c == '\u{85}' || c == '\u{a0}' || c == '\u{1680}'
        || ('\u{2000}' <= c && c <= '\u{200a}') || c == '\u{2028}' || c == '\u{2029}' || c
        == '\u{202f}' || c == '\u{205f}' || c == '\u{3000}'
}

/// Reports whether `c` is whitespace.
pub fn check_space_char(c: char) -> (r: bool)
    ensures
        r == is_space_char(c),
{
    ('\u{9}' <= c && c <= '\u{d}') || c == ' ' || c == '\u{85}' || c == '\u{a0}' || c == '\u{1680}'
        || ('\u{2000}' <= c && c <= '\u{200a}') || c == '\u{2028}' || c == '\u{2029}' || c
        == '\u{202f}' || c == '\u{205f}' || c == '\u{3000}'
}

/// The lowercase alphabet, `"abcdefghijklmnopqrstuvwxyz"`.
pub open spec fn spec_lowercase_chars() -> Seq<char> {
    Seq::new(26, |i: int| ((97 + i) as u8) as char)
}

/// The uppercase alphabet, `"ABCDEFGHIJKLMNOPQRSTUVWXYZ"`.
pub open spec fn spec_uppercase_chars() -> Seq<char> {
    Seq::new(26, |i: int| ((65 + i) as u8) as char)
}

/// The digits, `"0123456789"`.
pub open spec fn spec_digit_chars() -> Seq<char> {
    Seq::new(10, |i: int| ((48 + i) as u8) as char)
}

/// The characters of each alphabet belong to the class it is named after.
pub proof fn lemma_alphabet_chars_have_class()
    ensures
        forall|c: char| spec_lowercase_chars().contains(c) ==> is_lower_char(c),
        forall|c: char| spec_uppercase_chars().contains(c) ==> is_upper_char(c),
        forall|c: char| spec_digit_chars().contains(c) ==> is_digit_char(c),
{
    assert forall|c: char| spec_lowercase_chars().contains(c) implies is_lower_char(c) by {
        let i = choose|i: int| 0 <= i < 26 && spec_lowercase_chars()[i] == c;
        assert(c as u32 == 97 + i);
    }
    assert forall|c: char| spec_uppercase_chars().contains(c) implies is_upper_char(c) by {
        let i = choose|i: int| 0 <= i < 26 && spec_uppercase_chars()[i] == c;
        assert(c as u32 == 65 + i);
    }
    assert forall|c: char| spec_digit_chars().contains(c) implies is_digit_char(c) by {
        let i = choose|i: int| 0 <= i < 10 && spec_digit_chars()[i] == c;
        assert(c as u32 == 48 + i);
    }
}

/// Builds the vector of the characters with code points `lo..hi`.
fn ascii_range_chars(lo: u8, hi: u8) -> (r: Vec<char>)
    requires
        lo <= hi,
    ensures
        r@ == Seq::new((hi - lo) as nat, |i: int| ((lo + i) as u8) as char),
{
    let mut v: Vec<char> = Vec::new();
    let mut b: u8 = lo;
    while b < hi
        invariant
            lo <= b <= hi,
            v@.len() == b - lo,
            forall|i: int| 0 <= i < v@.len() ==> v@[i] == (((lo + i) as u8) as char),
        decreases hi - b,
    {
        v.push(b as char);
        b = b + 1;
    }
    proof {
        assert(v@ =~= Seq::new((hi - lo) as nat, |i: int| ((lo + i) as u8) as char));
    }
    v
}

/// The lowercase alphabet as a vector.
pub(crate) fn lowercase_chars() -> (r: Vec<char>)
    ensures
        r@ == spec_lowercase_chars(),
{
    let v = ascii_range_chars(97, 123);
    proof {
        assert(v@ =~= spec_lowercase_chars());
    }
    v
}

/// The uppercase alphabet as a vector.
pub(crate) fn uppercase_chars() -> (r: Vec<char>)
    ensures
        r@ == spec_uppercase_chars(),
{
    let v = ascii_range_chars(65, 91);
    proof {
        assert(v@ =~= spec_uppercase_chars());
    }
    v
}

/// The digits as a vector.
pub(crate) fn digit_chars() -> (r: Vec<char>)
    ensures
        r@ == spec_digit_chars(),
{
    let v = ascii_range_chars(48, 58);
    proof {
        assert(v@ =~= spec_digit_chars());
    }
    v
}

/// The special alphabet as a vector.
pub(crate) fn special_chars() -> (r: Vec<char>)
    ensures
        r@ == spec_special_chars(),
{
    let mut v: Vec<char> = Vec::new();
    v.push('!');
    v.push('@');
    v.push('#');
    v.push('$');
    v.push('%');
    v.push('^');
    v.push('&');
    v.push('*');
    v.push('?');
    v.push('(');
    v.push(')');
    v.push('{');
    v.push('}');
    v.push('[');
    v.push(']');
    v.push('<');
    v.push('>');
    v.push('-');
    v.push('_');
    v.push('=');
    v.push('+');
    proof {
        assert(v@ =~= spec_special_chars());
    }
    v
}

/// Reports whether `c` is a special character.
pub fn check_special_char(c: char) -> (r: bool)
    ensures
        r == is_special_char(c),
{
    let table = special_chars();
    let mut i: usize = 0;
    while i < table.len()
        invariant
            0 <= i <= table@.len(),
            table@ == spec_special_chars(),
            forall|j: int| 0 <= j < i ==> table@[j] != c,
        decreases table@.len() - i,
    {
        if table[i] == c {
            return true;
        }
        i = i + 1;
    }
    false
}

/// The sequence has a character of the lowercase class.
pub open spec fn spec_has_lower(s: Seq<char>) -> bool {
    exists|i: int| 0 <= i < s.len() && is_lower_char(s[i])
}

/// The sequence has a character of the uppercase class.
pub open spec fn spec_has_upper(s: Seq<char>) -> bool {
    exists|i: int| 0 <= i < s.len() && is_upper_char(s[i])
}

/// The sequence has a digit.
pub open spec fn spec_has_digit(s: Seq<char>) -> bool {
    exists|i: int| 0 <= i < s.len() && is_digit_char(s[i])
}

/// The sequence has a special character.
pub open spec fn spec_has_special(s: Seq<char>) -> bool {
    exists|i: int| 0 <= i < s.len() && is_special_char(s[i])
}

/// Composition flags of a password: which character classes occur in it.
/// Recomputed on demand, never cached across mutation.
#[derive(Clone, Copy, Debug, PartialEq, Eq, Structural)]
pub struct PasswordSpecification {
    /// Whether the password contains lowercase characters.
    pub has_lowercase: bool,
    /// Whether the password contains uppercase characters.
    pub has_uppercase: bool,
    /// Whether the password contains special characters.
    pub has_special: bool,
    /// Whether the password contains numerical characters.
    pub has_number: bool,
}

/// Computes the composition flags of a character vector.
pub(crate) fn compute_flags(p: &Vec<char>) -> (r: PasswordSpecification)
    ensures
        r.has_lowercase == spec_has_lower(p@),
        r.has_uppercase == spec_has_upper(p@),
        r.has_number == spec_has_digit(p@),
        r.has_special == spec_has_special(p@),
{
    let mut has_lowercase = false;
    let mut has_uppercase = false;
    let mut has_number = false;
    let mut has_special = false;
    let mut i: usize = 0;
    while i < p.len()
        invariant
            0 <= i <= p@.len(),
            has_lowercase == exists|j: int| 0 <= j < i && is_lower_char(#[trigger] p@[j]),
            has_uppercase == exists|j: int| 0 <= j < i && is_upper_char(#[trigger] p@[j]),
            has_number == exists|j: int| 0 <= j < i && is_digit_char(#[trigger] p@[j]),
            has_special == exists|j: int| 0 <= j < i && is_special_char(#[trigger] p@[j]),
        decreases p@.len() - i,
    {
        let c = p[i];
        if check_lower_char(c) {
            has_lowercase = true;
        }
        if check_upper_char(c) {
            has_uppercase = true;
        }
        if '0' <= c && c <= '9' {
            has_number = true;
        }
        if check_special_char(c) {
            has_special = true;
        }
        i = i + 1;
    }
    PasswordSpecification { has_lowercase, has_uppercase, has_special, has_number }
}

/// Checks which character classes occur in the password.
pub fn check_password_specification(password: &str) -> (r: PasswordSpecification)
    ensures
        r.has_lowercase == spec_has_lower(password@),
        r.has_uppercase == spec_has_upper(password@),
        r.has_number == spec_has_digit(password@),
        r.has_special == spec_has_special(password@),
{
    let chars = str_to_chars(password);
    compute_flags(&chars)
}

/// The sequence with its whitespace characters removed, order kept.
pub open spec fn strip_spaces(s: Seq<char>) -> Seq<char>
    decreases s.len(),
{
    if s.len() == 0 {
        Seq::empty()
    } else if is_space_char(s.last()) {
        strip_spaces(s.drop_last())
    } else {
        strip_spaces(s.drop_last()).push(s.last())
    }
}

/// A sequence without whitespace is unchanged by stripping.
pub proof fn lemma_strip_spaces_identity(s: Seq<char>)
    requires
        forall|i: int| 0 <= i < s.len() ==> !is_space_char(#[trigger] s[i]),
    ensures
        strip_spaces(s) == s,
    decreases s.len(),
{
    if s.len() == 0 {
        assert(strip_spaces(s) =~= s);
    } else {
        lemma_strip_spaces_identity(s.drop_last());
        assert(!is_space_char(s[s.len() - 1]));
        assert(strip_spaces(s) =~= s);
    }
}

/// Removes whitespace from a string, keeping the other characters in order.
pub fn remove_whitespace(input: &str) -> (r: String)
    ensures
        r@ == strip_spaces(input@),
{
    let chars = str_to_chars(input);
    let mut out: Vec<char> = Vec::new();
    let mut i: usize = 0;
    while i < chars.len()
        invariant
            0 <= i <= chars@.len(),
            chars@ == input@,
            out@ == strip_spaces(input@.subrange(0, i as int)),
        decreases chars@.len() - i,
    {
        let c = chars[i];
        if !check_space_char(c) {
            out.push(c);
        }
        i = i + 1;
        proof {
            let sub = input@.subrange(0, i as int);
            assert(sub.drop_last() =~= input@.subrange(0, i - 1));
            assert(sub.last() == input@[i - 1]);
        }
    }
    proof {
        assert(input@.subrange(0, input@.len() as int) =~= input@);
    }
    chars_to_string(&out)
}

/// The charset assembled from the enabled character classes: lowercase always,
/// then the uppercase, digit and special alphabets per flag.
pub open spec fn spec_class_charset(upper: bool, digits: bool, special: bool) -> Seq<char> {
    spec_lowercase_chars() + (if upper {
        spec_uppercase_chars()
    } else {
        Seq::<char>::empty()
    }) + (if digits {
        spec_digit_chars()
    } else {
        Seq::<char>::empty()
    }) + (if special {
        spec_special_chars()
    } else {
        Seq::<char>::empty()
    })
}

/// Each enabled alphabet is contained in the assembled charset.
pub proof fn lemma_class_charset_contains(upper: bool, digits: bool, special: bool)
    ensures
        forall|c: char| spec_lowercase_chars().contains(c) ==> #[trigger] spec_class_charset(
            upper,
            digits,
            special,
        ).contains(c),
        upper ==> forall|c: char| spec_uppercase_chars().contains(c)
            ==> #[trigger] spec_class_charset(upper, digits, special).contains(c),
        digits ==> forall|c: char| spec_digit_chars().contains(c)
            ==> #[trigger] spec_class_charset(upper, digits, special).contains(c),
        special ==> forall|c: char| spec_special_chars().contains(c)
            ==> #[trigger] spec_class_charset(upper, digits, special).contains(c),
{
    let cs = spec_class_charset(upper, digits, special);
    assert forall|c: char| spec_lowercase_chars().contains(c) implies #[trigger] cs.contains(c) by {
        let i = choose|i: int| 0 <= i < 26 && spec_lowercase_chars()[i] == c;
        assert(cs[i] == c);
    }
    if upper {
        assert forall|c: char| spec_uppercase_chars().contains(c) implies #[trigger] cs.contains(
            c,
        ) by {
            let i = choose|i: int| 0 <= i < 26 && spec_uppercase_chars()[i] == c;
            assert(cs[26 + i] == c);
        }
    }
    if digits {
        assert forall|c: char| spec_digit_chars().contains(c) implies #[trigger] cs.contains(c) by {
            let i = choose|i: int| 0 <= i < 10 && spec_digit_chars()[i] == c;
            let off: int = if upper {
                52
            } else {
                26
            };
            assert(cs[off + i] == c);
        }
    }
    if special {
        assert forall|c: char| spec_special_chars().contains(c) implies #[trigger] cs.contains(
            c,
        ) by {
            let i = choose|i: int| 0 <= i < 21 && spec_special_chars()[i] == c;
            let off: int = 26 + (if upper {
                26int
            } else {
                0
            }) + (if digits {
                10int
            } else {
                0
            });
            assert(cs[off + i] == c);
        }
    }
}

/// Builds the charset vector from the enabled character classes.
pub(crate) fn class_charset(upper: bool, digits: bool, special: bool) -> (r: Vec<char>)
    ensures
        r@ == spec_class_charset(upper, digits, special),
        r@.len() > 0,
{
    let mut v = lowercase_chars();
    if upper {
        let mut t = uppercase_chars();
        v.append(&mut t);
    }
    if digits {
        let mut t = digit_chars();
        v.append(&mut t);
    }
    if special {
        let mut t = special_chars();
        v.append(&mut t);
    }
    proof {
        assert(v@ =~= spec_class_charset(upper, digits, special));
    }
    v
}

} // verus!
