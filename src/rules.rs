use vstd::prelude::*;

verus! {

/// A symbol of an L-system alphabet: copied freely and compared for
/// equality.
pub trait Symbol: Copy {
    /// Whether two symbols are the same.
    fn same(&self, other: &Self) -> (r: bool)
        ensures
            r == (*self == *other),
    ;
}

impl Symbol for char {
    fn same(&self, other: &Self) -> (r: bool) {
        *self == *other
    }
}

impl Symbol for i32 {
    fn same(&self, other: &Self) -> (r: bool) {
        *self == *other
    }
}

impl Symbol for bool {
    fn same(&self, other: &Self) -> (r: bool) {
        *self == *other
    }
}

impl Symbol for u8 {
    fn same(&self, other: &Self) -> (r: bool) {
        *self == *other
    }
}

impl Symbol for u16 {
    fn same(&self, other: &Self) -> (r: bool) {
        *self == *other
    }
}

impl Symbol for u32 {
    fn same(&self, other: &Self) -> (r: bool) {
        *self == *other
    }
}

impl Symbol for u64 {
    fn same(&self, other: &Self) -> (r: bool) {
        *self == *other
    }
}

impl Symbol for usize {
    fn same(&self, other: &Self) -> (r: bool) {
        *self == *other
    }
}

impl Symbol for i8 {
    fn same(&self, other: &Self) -> (r: bool) {
        *self == *other
    }
}

impl Symbol for i16 {
    fn same(&self, other: &Self) -> (r: bool) {
        *self == *other
    }
}

impl Symbol for i64 {
    fn same(&self, other: &Self) -> (r: bool) {
        *self == *other
    }
}

impl Symbol for isize {
    fn same(&self, other: &Self) -> (r: bool) {
        *self == *other
    }
}

/// Whether `pat` is a non-empty prefix of `s`: the rule with that pattern
/// applies at the start of `s`.
pub open spec fn pattern_matches<T>(pat: Seq<T>, s: Seq<T>) -> bool {
    0 < pat.len() <= s.len() && s.take(pat.len() as int) == pat
}

/// The index of the first rule, from index `k` on, whose pattern matches at
/// the start of `s`.
pub open spec fn first_match_from<T>(rules: Seq<(Seq<T>, Seq<T>)>, s: Seq<T>, k: int) -> Option<
    int,
>
    decreases rules.len() - k,
{
    if k < 0 || k >= rules.len() {
        None
    } else if pattern_matches(rules[k].0, s) {
        Some(k)
    } else {
        first_match_from(rules, s, k + 1)
    }
}

/// The index of the first rule whose pattern matches at the start of `s`.
pub open spec fn first_match<T>(rules: Seq<(Seq<T>, Seq<T>)>, s: Seq<T>) -> Option<int> {
    first_match_from(rules, s, 0)
}

/// Whether `pat` matches `g` at position `i`.
pub fn pattern_matches_at<T: Symbol>(pat: &[T], g: &[T], i: usize) -> (r: bool)
    requires
        i <= g@.len(),
    ensures
        r == pattern_matches(pat@, g@.skip(i as int)),
{
    let n = pat.len();
    let len = g.len();
    if n == 0 || n > len - i {
        return false;
    }
    let mut j: usize = 0;
    while j < n
        invariant
            len == g@.len(),
            i <= len,
            0 < n <= len - i,
            n == pat@.len(),
            j <= n,
            forall|m: int| 0 <= m < j ==> g@[i + m] == pat@[m],
        decreases n - j,
    {
        if !g[i + j].same(&pat[j]) {
            assert(g@.skip(i as int).take(n as int)[j as int] != pat@[j as int]);
            return false;
        }
        j += 1;
    }
    assert(g@.skip(i as int).take(n as int) =~= pat@);
    true
}

/// Rejection of a rule at construction.
#[derive(Debug, Clone, Copy, PartialEq, Eq, Structural)]
pub enum RuleError {
    /// The rule's pattern holds no symbol: it would match everywhere
    /// without consuming input.
    InvalidPattern,
}

/// An ordered set of rewrite rules, each a pattern and its replacement.
/// The order is the priority: at each position the first rule whose
/// pattern matches is the one applied. Duplicates are allowed.
#[derive(Debug)]
pub struct Rules<'a, T>(Vec<(&'a [T], &'a [T])>);

impl<'a, T> Rules<'a, T> {
    /// The rules as (pattern, replacement) pairs, in priority order.
    pub closed spec fn view(&self) -> Seq<(Seq<T>, Seq<T>)> {
        self.0@.map_values(|r: (&'a [T], &'a [T])| (r.0@, r.1@))
    }

    /// Every pattern holds at least one symbol.
    #[verifier::type_invariant]
    closed spec fn patterns_nonempty(&self) -> bool {
        forall|k: int| 0 <= k < self.0@.len() ==> #[trigger] self.0@[k].0@.len() > 0
    }

    /// Builds a rule set from (pattern, replacement) pairs, kept in their
    /// order. Fails if any pattern is empty.
    pub fn from_pairs(pairs: Vec<(&'a [T], &'a [T])>) -> (r: Result<Self, RuleError>)
        ensures
            match r {
                Ok(rules) => rules@ == pairs@.map_values(
                    |p: (&'a [T], &'a [T])| (p.0@, p.1@),
                ),
                Err(e) => e == RuleError::InvalidPattern,
            },
            r is Ok <==> forall|k: int| 0 <= k < pairs@.len() ==> #[trigger] pairs@[k].0@.len() > 0,
    {
        let mut k: usize = 0;
        while k < pairs.len()
            invariant
                k <= pairs@.len(),
                forall|m: int| 0 <= m < k ==> #[trigger] pairs@[m].0@.len() > 0,
            decreases pairs@.len() - k,
        {
            if pairs[k].0.len() == 0 {
                return Err(RuleError::InvalidPattern);
            }
            k += 1;
        }
        Ok(Rules(pairs))
    }

    /// Appends a rule after the existing ones. A rule with an empty pattern
    /// is refused and the set is left as it was.
    pub fn add_rule(&mut self, pred: &'a [T], succ: &'a [T]) -> (r: Result<(), RuleError>)
        ensures
            pred@.len() == 0 ==> r == Err::<(), RuleError>(RuleError::InvalidPattern)
                && final(self)@ == old(self)@,
            pred@.len() > 0 ==> r is Ok && final(self)@ == old(self)@.push((pred@, succ@)),
    {
        if pred.len() == 0 {
            return Err(RuleError::InvalidPattern);
        }
        let mut taken = Rules(Vec::new());
        std::mem::swap(self, &mut taken);
        proof {
            use_type_invariant(&taken);
        }
        let Rules(mut v) = taken;
        v.push((pred, succ));
        *self = Rules(v);
        assert(self@ =~= old(self)@.push((pred@, succ@)));
        Ok(())
    }

    /// The set extended by one rule, placed after the existing ones. A rule
    /// with an empty pattern is refused.
    pub fn with_rule(self, pred: &'a [T], succ: &'a [T]) -> (r: Result<Self, RuleError>)
        ensures
            match r {
                Ok(rules) => pred@.len() > 0 && rules@ == self@.push((pred@, succ@)),
                Err(e) => pred@.len() == 0 && e == RuleError::InvalidPattern,
            },
    {
        let mut rules = self;
        match rules.add_rule(pred, succ) {
            Ok(()) => Ok(rules),
            Err(e) => Err(e),
        }
    }

    /// The index of the first rule whose pattern matches `g` at position
    /// `i`.
    pub fn first_match_at(&self, g: &[T], i: usize) -> (r: Option<usize>)
        where
            T: Symbol,
        requires
            i <= g@.len(),
        ensures
            r matches Some(k) ==> first_match(self@, g@.skip(i as int)) == Some(k as int),
            r is None ==> first_match(self@, g@.skip(i as int)) is None,
    {
        let mut k: usize = 0;
        while k < self.0.len()
            invariant
                i <= g@.len(),
                k <= self@.len(),
                self@.len() == self.0@.len(),
                first_match(self@, g@.skip(i as int)) == first_match_from(
                    self@,
                    g@.skip(i as int),
                    k as int,
                ),
            decreases self.0@.len() - k,
        {
            let pat = self.0[k].0;
            if pattern_matches_at(pat, g, i) {
                return Some(k);
            }
            k += 1;
        }
        None
    }

    /// The rule at index `k`, as its pattern and its replacement.
    pub fn rule(&self, k: usize) -> (r: (&'a [T], &'a [T]))
        requires
            k < self@.len(),
        ensures
            (r.0@, r.1@) == self@[k as int],
            r.0@.len() > 0,
    {
        proof {
            use_type_invariant(self);
        }
        self.0[k]
    }

    /// The number of rules.
    pub fn len(&self) -> (r: usize)
        ensures
            r == self@.len(),
    {
        self.0.len()
    }

    /// Whether there are no rules.
    pub fn is_empty(&self) -> (r: bool)
        ensures
            r == (self@.len() == 0),
    {
        self.0.is_empty()
    }
}

impl<'a, T> Clone for Rules<'a, T> {
    /// A copy of the rule set; patterns and replacements stay shared.
    fn clone(&self) -> (r: Self)
        ensures
            r@ == self@,
    {
        proof {
            use_type_invariant(self);
        }
        let n = self.0.len();
        let mut v: Vec<(&'a [T], &'a [T])> = Vec::new();
        let mut k: usize = 0;
        while k < n
            invariant
                n == self.0@.len(),
                k <= n,
                v@ == self.0@.take(k as int),
                forall|m: int| 0 <= m < n ==> #[trigger] self.0@[m].0@.len() > 0,
            decreases n - k,
        {
            v.push(self.0[k]);
            assert(self.0@.take(k + 1) =~= self.0@.take(k as int).push(self.0@[k as int]));
            k += 1;
        }
        assert(self.0@.take(n as int) =~= self.0@);
        Rules(v)
    }
}

impl<'a, T> Default for Rules<'a, T> {
    /// The empty rule set.
    fn default() -> (r: Self)
        ensures
            r@ == Seq::<(Seq<T>, Seq<T>)>::empty(),
    {
        let r = Rules(Vec::new());
        assert(r@ =~= Seq::<(Seq<T>, Seq<T>)>::empty());
        r
    }
}

} // verus!
