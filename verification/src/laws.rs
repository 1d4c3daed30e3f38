//! Laws of the strength model and of generation, proved once and for all.

use vstd::prelude::*;
use crate::classes::{
    is_space_char, lemma_strip_spaces_identity, spec_has_digit, spec_has_lower, spec_has_special,
    spec_has_upper, strip_spaces,
};
use crate::strength::{
    spec_has_dict_word, spec_password_centibits, spec_strength, strength_rank, PasswordStrength,
};

verus! {

/// A password that covers all four character classes, is at least 13
/// characters long, and contains no dictionary word is judged Strong.
pub proof fn lemma_full_coverage_strong(p: Seq<char>, dict: Seq<Seq<char>>)
    requires
        spec_has_lower(p),
        spec_has_upper(p),
        spec_has_digit(p),
        spec_has_special(p),
        p.len() >= 13,
        !spec_has_dict_word(p, dict),
    ensures
        spec_strength(p, dict) == PasswordStrength::Strong,
{
    let n = p.len() as int;
    assert(spec_password_centibits(p) == n * 637);
    assert(n * 637 >= 8281) by (nonlinear_arith)
        requires
            n >= 13,
    ;
}

/// Strength is monotonic in class coverage: against the same dictionary, a
/// password covering all four classes is judged at least as strong as a
/// password of the same length, 12 or longer, that has lowercase characters
/// only.
pub proof fn lemma_strength_monotonic_in_coverage(p1: Seq<char>, p2: Seq<char>, dict: Seq<Seq<char>>)
    requires
        p1.len() == p2.len(),
        p1.len() >= 12,
        spec_has_lower(p1),
        spec_has_upper(p1),
        spec_has_digit(p1),
        spec_has_special(p1),
        spec_has_lower(p2),
        !spec_has_upper(p2),
        !spec_has_digit(p2),
        !spec_has_special(p2),
    ensures
        strength_rank(spec_strength(p1, dict)) >= strength_rank(spec_strength(p2, dict)),
{
    let n = p1.len() as int;
    let e1 = spec_password_centibits(p1);
    let e2 = spec_password_centibits(p2);
    assert(e1 == n * 637);
    assert(e2 == n * 470);
    if e2 >= 8200 {
        // p2 is in the top tiers only from length 18 on, where p1's entropy
        // clears both the top tier and the dictionary safety margin.
        assert(n >= 18) by (nonlinear_arith)
            requires
                n * 470 >= 8200,
        ;
        assert(n * 637 >= 11466) by (nonlinear_arith)
            requires
                n >= 18,
        ;
        assert(spec_strength(p1, dict) == PasswordStrength::Strong);
    } else if e2 >= 6000 {
        // p2 reaches length 13 at least, so p1 earns two base points and a
        // dictionary penalty cannot push it below Medium.
        assert(n >= 13) by (nonlinear_arith)
            requires
                n * 470 >= 6000,
        ;
        assert(n * 637 >= 8281) by (nonlinear_arith)
            requires
                n >= 13,
        ;
        assert(strength_rank(spec_strength(p1, dict)) >= 1);
        assert(strength_rank(spec_strength(p2, dict)) <= 1);
    } else {
        assert(spec_strength(p2, dict) == PasswordStrength::Weak);
    }
}

/// Dictionary penalty: of two passwords of equal entropy in the moderate band
/// (at least 6000 and below the 8500-centibit safety margin), the one that
/// contains a dictionary word is judged exactly one tier below the one that
/// contains none.
pub proof fn lemma_dictionary_penalty(p1: Seq<char>, p2: Seq<char>, dict: Seq<Seq<char>>)
    requires
        spec_has_dict_word(p1, dict),
        !spec_has_dict_word(p2, dict),
        spec_password_centibits(p1) == spec_password_centibits(p2),
        6000 <= spec_password_centibits(p1) < 8500,
    ensures
        strength_rank(spec_strength(p2, dict)) == strength_rank(spec_strength(p1, dict)) + 1,
{
}

/// A charset derived from a phrase that repeats one non-whitespace character
/// admits only that character: any password drawn from it is that character
/// repeated.
pub proof fn lemma_phrase_of_single_char(phrase: Seq<char>, c: char, p: Seq<char>)
    requires
        phrase.len() > 0,
        forall|i: int| 0 <= i < phrase.len() ==> phrase[i] == c,
        !is_space_char(c),
        forall|i: int| 0 <= i < p.len() ==> strip_spaces(phrase).contains(#[trigger] p[i]),
    ensures
        strip_spaces(phrase) == phrase,
        forall|i: int| 0 <= i < p.len() ==> p[i] == c,
{
    lemma_strip_spaces_identity(phrase);
    assert forall|i: int| 0 <= i < p.len() implies p[i] == c by {
        let w = choose|w: int| 0 <= w < phrase.len() && phrase[w] == p[i];
    }
}

} // verus!
