use vstd::prelude::*;

use crate::rewrite::{generation, lemma_first_match_from, rewritten};
use crate::rules::{first_match, pattern_matches};

verus! {

/// Generation 0 is the starting string itself, whatever the rules.
pub proof fn law_generation_zero<T>(rules: Seq<(Seq<T>, Seq<T>)>, start: Seq<T>)
    ensures
        generation(rules, start, 0) == start,
{
}

/// First match wins: where the patterns of rules `j` and `k`, with `j`
/// before `k`, both match at the cursor, rule `k` is not the one applied;
/// the rule applied is the first matching one, at index `j` or before, and
/// the cursor skips its pattern.
pub proof fn law_first_match_wins<T>(rules: Seq<(Seq<T>, Seq<T>)>, s: Seq<T>, j: int, k: int)
    requires
        0 <= j < k < rules.len(),
        pattern_matches(rules[j].0, s),
        pattern_matches(rules[k].0, s),
    ensures
        match first_match(rules, s) {
            Some(m) => m <= j && rewritten(rules, s) == rules[m].1 + rewritten(
                rules,
                s.skip(rules[m].0.len() as int),
            ),
            None => false,
        },
{
    lemma_first_match_from(rules, s, 0);
}

/// Where no pattern matches at the cursor, the symbol under it is copied
/// unchanged and the cursor moves on by exactly one.
pub proof fn law_no_match_copies_symbol<T>(rules: Seq<(Seq<T>, Seq<T>)>, s: Seq<T>)
    requires
        s.len() > 0,
        forall|k: int| 0 <= k < rules.len() ==> !pattern_matches(#[trigger] rules[k].0, s),
    ensures
        rewritten(rules, s) == seq![s[0]] + rewritten(rules, s.skip(1)),
{
    lemma_first_match_from(rules, s, 0);
}

/// With no rules, a rewrite gives back its input, and so every generation
/// equals the starting string.
pub proof fn law_empty_rules_identity<T>(start: Seq<T>, n: nat)
    ensures
        rewritten(Seq::<(Seq<T>, Seq<T>)>::empty(), start) == start,
        generation(Seq::<(Seq<T>, Seq<T>)>::empty(), start, n) == start,
    decreases start.len() + n,
{
    if n > 0 {
        law_empty_rules_identity(start, (n - 1) as nat);
    } else if start.len() > 0 {
        law_empty_rules_identity(start.skip(1), 0);
        assert(seq![start[0]] + start.skip(1) =~= start);
    }
}

} // verus!
