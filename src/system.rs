use vstd::prelude::*;

use crate::rewrite::{generation, rewrite, rewritten};
use crate::rules::{Rules, Symbol};

verus! {

/// An L-system: a rule set and the current generation. Pulling from it
/// hands out the current generation and moves on to the next, without end
/// and without going back.
pub struct LSystem<'a, T> {
    rules: &'a Rules<'a, T>,
    string: Vec<T>,
}

impl<'a, T: Symbol> LSystem<'a, T> {
    /// The rules that the next rewrite will use.
    pub closed spec fn rules_view(&self) -> Seq<(Seq<T>, Seq<T>)> {
        self.rules@
    }

    /// The current generation, the one that the next pull hands out.
    pub closed spec fn current_view(&self) -> Seq<T> {
        self.string@
    }

    /// A system whose current generation is `start`.
    pub fn new(rules: &'a Rules<'a, T>, start: Vec<T>) -> (s: Self)
        ensures
            s.rules_view() == rules@,
            s.current_view() == start@,
    {
        LSystem { rules, string: start }
    }

    /// The current generation, read without moving on.
    pub fn current(&self) -> (r: &[T])
        ensures
            r@ == self.current_view(),
    {
        self.string.as_slice()
    }

    /// A system one step further on, with the same rules; this one is left
    /// as it is.
    pub fn advance(&self) -> (r: LSystem<'a, T>)
        ensures
            r.rules_view() == self.rules_view(),
            r.current_view() == rewritten(self.rules_view(), self.current_view()),
    {
        LSystem { rules: self.rules, string: rewrite(self.string.as_slice(), self.rules) }
    }

    /// Replaces the rules. The current generation stays: the new rules take
    /// effect from the next rewrite on.
    pub fn set_rules(&mut self, rules: &'a Rules<'a, T>)
        ensures
            final(self).rules_view() == rules@,
            final(self).current_view() == old(self).current_view(),
    {
        self.rules = rules;
    }

    /// Hands out the current generation and moves on to the next one. There
    /// is always one.
    pub fn next(&mut self) -> (r: Option<Vec<T>>)
        ensures
            r matches Some(g) && g@ == old(self).current_view(),
            final(self).rules_view() == old(self).rules_view(),
            final(self).current_view() == rewritten(old(self).rules_view(), old(self).current_view()),
    {
        let mut cur = rewrite(self.string.as_slice(), self.rules);
        std::mem::swap(&mut self.string, &mut cur);
        Some(cur)
    }

    /// Skips `n` generations, then hands out the one after them and moves on:
    /// from the current generation taken as generation 0, this returns
    /// generation `n` and leaves generation `n + 1` as the current one.
    pub fn nth(&mut self, n: usize) -> (r: Option<Vec<T>>)
        ensures
            r matches Some(g) && g@ == generation(
                old(self).rules_view(),
                old(self).current_view(),
                n as nat,
            ),
            final(self).rules_view() == old(self).rules_view(),
            final(self).current_view() == generation(
                old(self).rules_view(),
                old(self).current_view(),
                (n + 1) as nat,
            ),
    {
        let ghost rules = self.rules_view();
        let ghost start = self.current_view();
        let mut k: usize = 0;
        while k < n
            invariant
                k <= n,
                self.rules_view() == rules,
                self.current_view() == generation(rules, start, k as nat),
            decreases n - k,
        {
            let _ = self.next();
            k += 1;
        }
        self.next()
    }
}

} // verus!
