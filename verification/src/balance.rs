//! Password balancing.
//!
//! The balancer repairs a password so that every required character class is
//! represented. To guarantee termination it never loops on a recheck: when
//! any required class is missing it makes exactly one replacement per
//! required class, at pairwise distinct positions chosen from a random
//! starting offset, so a class established by its own replacement can never
//! be un-set by the replacement made for another class. A password that
//! already covers every required class is left untouched.

use vstd::prelude::*;
use crate::classes::{
    class_charset, compute_flags, is_digit_char, is_lower_char, is_special_char, is_upper_char,
    lemma_alphabet_chars_have_class, digit_chars, lowercase_chars, special_chars,
    spec_digit_chars, spec_has_digit, spec_has_lower, spec_has_special, spec_has_upper,
    spec_lowercase_chars, spec_special_chars, spec_uppercase_chars, uppercase_chars,
    spec_class_charset,
};
use crate::random::{random_index, sample_char};
use crate::text::{chars_to_string, str_to_chars};

verus! {

/// `after` agrees with `before` at every position other than `a`, `b`, `c`
/// and `d`: at most four characters were replaced.
pub open spec fn unchanged_outside(
    before: Seq<char>,
    after: Seq<char>,
    a: int,
    b: int,
    c: int,
    d: int,
) -> bool {
    forall|j: int|
        0 <= j < after.len() && j != a && j != b && j != c && j != d ==> #[trigger] after[j]
            == before[j]
}

/// Every required class is represented: lowercase always, the other classes
/// per flag.
pub open spec fn spec_covers(p: Seq<char>, upper: bool, digits: bool, special: bool) -> bool {
    &&& spec_has_lower(p)
    &&& upper ==> spec_has_upper(p)
    &&& digits ==> spec_has_digit(p)
    &&& special ==> spec_has_special(p)
}

/// The position `k` slots after `start`, wrapped around `len`.
fn offset_index(start: usize, k: usize, len: usize) -> (r: usize)
    requires
        start < len,
        k <= len,
    ensures
        r < len,
        r as int == if start + k < len {
            start + k
        } else {
            start + k - len
        },
{
    if k >= len - start {
        k - (len - start)
    } else {
        start + k
    }
}

/// Repairs a character vector so that every required class is represented,
/// with at most one replacement per required class. A vector that already
/// covers the required classes is returned unchanged.
pub(crate) fn balance_chars(p: &mut Vec<char>, upper: bool, digits: bool, special: bool)
    requires
        old(p)@.len() >= 4,
    ensures
        final(p)@.len() == old(p)@.len(),
        spec_covers(final(p)@, upper, digits, special),
        spec_covers(old(p)@, upper, digits, special) ==> final(p)@ == old(p)@,
        forall|j: int|
            0 <= j < final(p)@.len() ==> final(p)@[j] == old(p)@[j]
                || spec_lowercase_chars().contains(#[trigger] final(p)@[j])
                || (upper && spec_uppercase_chars().contains(final(p)@[j]))
                || (digits && spec_digit_chars().contains(final(p)@[j]))
                || (special && spec_special_chars().contains(final(p)@[j])),
        exists|a: int, b: int, c: int, d: int|
            #[trigger] unchanged_outside(old(p)@, final(p)@, a, b, c, d),
{
    proof {
        lemma_alphabet_chars_have_class();
    }
    let flags = compute_flags(p);
    if flags.has_lowercase && (!upper || flags.has_uppercase) && (!digits || flags.has_number) && (
    !special || flags.has_special) {
        proof {
            assert(unchanged_outside(p@, p@, -1, -1, -1, -1));
        }
        return ;
    }
    let len = p.len();
    let start = random_index(len);
    let ghost orig = p@;

    let pos_lower = offset_index(start, 0, len);
    let table_lower = lowercase_chars();
    let c_lower = sample_char(&table_lower);
    p[pos_lower] = c_lower;
    let mut k: usize = 1;

    let mut pos_upper = pos_lower;
    if upper {
        pos_upper = offset_index(start, k, len);
        let table = uppercase_chars();
        let c = sample_char(&table);
        p[pos_upper] = c;
        k = k + 1;
    }

    let mut pos_digit = pos_lower;
    if digits {
        pos_digit = offset_index(start, k, len);
        let table = digit_chars();
        let c = sample_char(&table);
        p[pos_digit] = c;
        k = k + 1;
    }

    let mut pos_special = pos_lower;
    if special {
        pos_special = offset_index(start, k, len);
        let table = special_chars();
        let c = sample_char(&table);
        p[pos_special] = c;
    }

    proof {
        assert(is_lower_char(p@[pos_lower as int]));
        if upper {
            assert(is_upper_char(p@[pos_upper as int]));
        }
        if digits {
            assert(is_digit_char(p@[pos_digit as int]));
        }
        if special {
            assert(is_special_char(p@[pos_special as int]));
        }
        assert(unchanged_outside(
            orig,
            p@,
            pos_lower as int,
            pos_upper as int,
            pos_digit as int,
            pos_special as int,
        ));
    }
}

/// Balances a password for the default configuration: the password is first
/// padded with random characters from the full charset up to the default
/// length of 13 when shorter, and is then repaired so that all four character
/// classes are represented, with at most one replacement per class. The
/// balanced password is written back and also returned.
pub fn balance_password(password: &mut String) -> (r: String)
    ensures
        r@ == final(password)@,
        final(password)@.len() == if old(password)@.len() < 13 {
            13int
        } else {
            old(password)@.len() as int
        },
        spec_covers(final(password)@, true, true, true),
        old(password)@.len() >= 13 && spec_covers(old(password)@, true, true, true)
            ==> final(password)@ == old(password)@,
        forall|j: int|
            0 <= j < old(password)@.len() ==> final(password)@[j] == old(password)@[j]
                || spec_class_charset(true, true, true).contains(#[trigger] final(password)@[j]),
        forall|j: int|
            old(password)@.len() <= j < final(password)@.len() ==> spec_class_charset(
                true,
                true,
                true,
            ).contains(#[trigger] final(password)@[j]),
{
    let mut v = str_to_chars(password.as_str());
    let ghost orig = v@;
    if v.len() < 13 {
        let charset = class_charset(true, true, true);
        while v.len() < 13
            invariant
                charset@ == spec_class_charset(true, true, true),
                charset@.len() > 0,
                v@.len() <= 13,
                orig.len() <= v@.len(),
                v@.subrange(0, orig.len() as int) == orig,
                forall|j: int|
                    orig.len() <= j < v@.len() ==> charset@.contains(#[trigger] v@[j]),
            decreases 13 - v@.len(),
        {
            let c = sample_char(&charset);
            v.push(c);
            proof {
                assert(v@.subrange(0, orig.len() as int) =~= orig);
            }
        }
    }
    let ghost padded = v@;
    balance_chars(&mut v, true, true, true);
    proof {
        lemma_class_charset_contains_all();
        assert forall|j: int| 0 <= j < orig.len() implies v@[j] == orig[j] || spec_class_charset(
            true,
            true,
            true,
        ).contains(#[trigger] v@[j]) by {
            assert(padded[j] == orig[j]);
        }
    }
    let out = chars_to_string(&v);
    *password = chars_to_string(&v);
    out
}

/// Every alphabet is contained in the full charset.
proof fn lemma_class_charset_contains_all()
    ensures
        forall|c: char|
            (spec_lowercase_chars().contains(c) || spec_uppercase_chars().contains(c)
                || spec_digit_chars().contains(c) || spec_special_chars().contains(c))
                ==> #[trigger] spec_class_charset(true, true, true).contains(c),
{
    crate::classes::lemma_class_charset_contains(true, true, true);
}

} // verus!
