use vstd::prelude::*;

use crate::rules::{Rules, Symbol, first_match, first_match_from, pattern_matches};

verus! {

/// The next generation of `g`: a cursor walks `g` from its start; where a
/// rule matches (the first in order), its replacement is emitted and the
/// cursor skips the pattern, elsewhere the symbol under the cursor is
/// copied and the cursor moves on by one.
pub open spec fn rewritten<T>(rules: Seq<(Seq<T>, Seq<T>)>, g: Seq<T>) -> Seq<T>
    decreases g.len(),
    via rewritten_decreases::<T>
{
    if g.len() == 0 {
        Seq::empty()
    } else {
        match first_match(rules, g) {
            Some(k) => rules[k].1 + rewritten(rules, g.skip(rules[k].0.len() as int)),
            None => seq![g[0]] + rewritten(rules, g.skip(1)),
        }
    }
}

#[via_fn]
proof fn rewritten_decreases<T>(rules: Seq<(Seq<T>, Seq<T>)>, g: Seq<T>) {
    if g.len() != 0 {
        if let Some(k) = first_match(rules, g) {
            lemma_first_match_from(rules, g, 0);
        }
    }
}

/// Generation `n` grown from `start`: generation 0 is `start` itself, and
/// each later one is the rewrite of the one before.
pub open spec fn generation<T>(rules: Seq<(Seq<T>, Seq<T>)>, start: Seq<T>, n: nat) -> Seq<T>
    decreases n,
{
    if n == 0 {
        start
    } else {
        rewritten(rules, generation(rules, start, (n - 1) as nat))
    }
}

/// The search from index `k` finds exactly the first rule at or after `k`
/// whose pattern matches.
pub proof fn lemma_first_match_from<T>(rules: Seq<(Seq<T>, Seq<T>)>, s: Seq<T>, k: int)
    requires
        0 <= k,
    ensures
        match first_match_from(rules, s, k) {
            Some(m) => k <= m < rules.len() && pattern_matches(rules[m].0, s) && forall|j: int|
                k <= j < m ==> !pattern_matches(#[trigger] rules[j].0, s),
            None => forall|j: int| k <= j < rules.len() ==> !pattern_matches(#[trigger] rules[j].0, s),
        },
    decreases rules.len() - k,
{
    if k < rules.len() && !pattern_matches(rules[k].0, s) {
        lemma_first_match_from(rules, s, k + 1);
    }
}

/// Appends the symbols of `src` to `out`.
fn push_all<T: Symbol>(out: &mut Vec<T>, src: &[T])
    ensures
        final(out)@ == old(out)@ + src@,
{
    let n = src.len();
    let mut j: usize = 0;
    while j < n
        invariant
            n == src@.len(),
            j <= n,
            out@ == old(out)@ + src@.take(j as int),
        decreases n - j,
    {
        out.push(src[j]);
        assert(src@.take(j + 1) =~= src@.take(j as int).push(src@[j as int]));
        j += 1;
    }
    assert(src@.take(n as int) =~= src@);
}

/// Rewrites `g` by `rules` into a fresh generation, leaving `g` as it is.
pub fn rewrite<T: Symbol>(g: &[T], rules: &Rules<T>) -> (r: Vec<T>)
    ensures
        r@ == rewritten(rules@, g@),
{
    let mut out: Vec<T> = Vec::new();
    let len = g.len();
    let mut i: usize = 0;
    assert(g@.skip(0) =~= g@);
    while i < len
        invariant
            len == g@.len(),
            i <= len,
            out@ + rewritten(rules@, g@.skip(i as int)) == rewritten(rules@, g@),
        decreases len - i,
    {
        let ghost s = g@.skip(i as int);
        let ghost before = out@;
        match rules.first_match_at(g, i) {
            Some(k) => {
                proof {
                    lemma_first_match_from(rules@, s, 0);
                }
                let (pred, succ) = rules.rule(k);
                push_all(&mut out, succ);
                proof {
                    assert(s.skip(pred@.len() as int) =~= g@.skip(i + pred@.len()));
                    assert(rewritten(rules@, s) == succ@ + rewritten(rules@, s.skip(pred@.len() as int)));
                    assert(before + (succ@ + rewritten(rules@, s.skip(pred@.len() as int)))
                        =~= before + succ@ + rewritten(rules@, s.skip(pred@.len() as int)));
                }
                i = i + pred.len();
            },
            None => {
                out.push(g[i]);
                proof {
                    assert(s.skip(1) =~= g@.skip(i + 1));
                    assert(before + (seq![g@[i as int]] + rewritten(rules@, s.skip(1)))
                        =~= before.push(g@[i as int]) + rewritten(rules@, s.skip(1)));
                }
                i = i + 1;
            },
        }
    }
    assert(out@ + rewritten(rules@, g@.skip(len as int)) =~= out@);
    out
}

} // verus!
