use vstd::prelude::*;
use crate::fixed::Real;

verus! {

/// A type whose values can be listed as categories: a strict total order,
/// `before`, up to the equivalence `same`.
pub trait Category: Sized {
    spec fn before(a: Self, b: Self) -> bool;

    spec fn same(a: Self, b: Self) -> bool;

    fn is_before(&self, other: &Self) -> (r: bool)
        ensures
            r == Self::before(*self, *other),
    ;

    fn is_same(&self, other: &Self) -> (r: bool)
        ensures
            r == Self::same(*self, *other),
    ;

    fn duplicate(&self) -> (r: Self)
        ensures
            r == *self,
    ;

    proof fn lemma_same_equivalence(a: Self, b: Self, c: Self)
        ensures
            Self::same(a, a),
            Self::same(a, b) ==> Self::same(b, a),
            Self::same(a, b) && Self::same(b, c) ==> Self::same(a, c),
    ;

    proof fn lemma_strict_total(a: Self, b: Self, c: Self)
        ensures
            Self::before(a, b) ==> !Self::same(a, b) && !Self::before(b, a),
            Self::before(a, b) && Self::before(b, c) ==> Self::before(a, c),
            Self::before(a, b) || Self::before(b, a) || Self::same(a, b),
            Self::same(a, b) ==> (Self::before(a, c) == Self::before(b, c)),
            Self::same(a, b) ==> (Self::before(c, a) == Self::before(c, b)),
    ;
}

impl Category for i64 {
    open spec fn before(a: i64, b: i64) -> bool {
        a < b
    }

    open spec fn same(a: i64, b: i64) -> bool {
        a == b
    }

    fn is_before(&self, other: &i64) -> (r: bool) {
        *self < *other
    }

    fn is_same(&self, other: &i64) -> (r: bool) {
        *self == *other
    }

    fn duplicate(&self) -> (r: i64) {
        *self
    }

    proof fn lemma_same_equivalence(a: i64, b: i64, c: i64) {
    }

    proof fn lemma_strict_total(a: i64, b: i64, c: i64) {
    }
}

impl Category for Real {
    open spec fn before(a: Real, b: Real) -> bool {
        a.ticks < b.ticks
    }

    open spec fn same(a: Real, b: Real) -> bool {
        a == b
    }

    fn is_before(&self, other: &Real) -> (r: bool) {
        self.ticks < other.ticks
    }

    fn is_same(&self, other: &Real) -> (r: bool) {
        self.ticks == other.ticks
    }

    fn duplicate(&self) -> (r: Real) {
        *self
    }

    proof fn lemma_same_equivalence(a: Real, b: Real, c: Real) {
    }

    proof fn lemma_strict_total(a: Real, b: Real, c: Real) {
    }
}

impl Category for bool {
    open spec fn before(a: bool, b: bool) -> bool {
        !a && b
    }

    open spec fn same(a: bool, b: bool) -> bool {
        a == b
    }

    fn is_before(&self, other: &bool) -> (r: bool) {
        !*self && *other
    }

    fn is_same(&self, other: &bool) -> (r: bool) {
        *self == *other
    }

    fn duplicate(&self) -> (r: bool) {
        *self
    }

    proof fn lemma_same_equivalence(a: bool, b: bool, c: bool) {
    }

    proof fn lemma_strict_total(a: bool, b: bool, c: bool) {
    }
}

/// Lexicographic order of texts by character: a proper prefix comes first.
pub open spec fn lex_before(a: Seq<char>, b: Seq<char>) -> bool
    decreases a.len(),
{
    if a.len() == 0 {
        b.len() > 0
    } else if b.len() == 0 {
        false
    } else if a[0] == b[0] {
        lex_before(a.drop_first(), b.drop_first())
    } else {
        a[0] < b[0]
    }
}

/// Two non-empty texts with the same first letter and the same rest are equal.
proof fn lemma_first_and_rest(a: Seq<char>, b: Seq<char>)
    requires
        a.len() > 0,
        b.len() > 0,
        a[0] == b[0],
        a.drop_first() == b.drop_first(),
    ensures
        a == b,
{
    assert(a.drop_first().len() == a.len() - 1);
    assert(b.drop_first().len() == b.len() - 1);
    assert forall|i: int| 0 <= i < a.len() implies a[i] == b[i] by {
        if i > 0 {
            assert(a[i] == a.drop_first()[i - 1]);
            assert(b[i] == b.drop_first()[i - 1]);
        }
    }
    assert(a =~= b);
}

/// `lex_before` is a strict total order on texts.
pub proof fn lemma_lex_strict_total(a: Seq<char>, b: Seq<char>, c: Seq<char>)
    ensures
        lex_before(a, b) ==> a != b && !lex_before(b, a),
        lex_before(a, b) && lex_before(b, c) ==> lex_before(a, c),
        lex_before(a, b) || lex_before(b, a) || a == b,
    decreases a.len(),
{
    if a.len() == 0 {
        if b.len() == 0 {
            assert(a =~= b);
        }
    } else if b.len() == 0 {
    } else {
        let c_rest = if c.len() > 0 {
            c.drop_first()
        } else {
            c
        };
        lemma_lex_strict_total(a.drop_first(), b.drop_first(), c_rest);
        if a[0] == b[0] {
            if a.drop_first() == b.drop_first() {
                lemma_first_and_rest(a, b);
            }
        } else {
            assert(a[0] < b[0] || b[0] < a[0]);
        }
    }
}

/// Relies on `<String as PartialOrd>::lt`: strings compare by their UTF-8
/// bytes, lexicographically; UTF-8 keeps the order of code points, so this
/// is the order of `lex_before`.
#[verifier::external_body]
fn string_lt(a: &String, b: &String) -> (r: bool)
    ensures
        r == lex_before(a@, b@),
{
    a < b
}

impl Category for String {
    open spec fn before(a: String, b: String) -> bool {
        lex_before(a@, b@)
    }

    open spec fn same(a: String, b: String) -> bool {
        a@ == b@
    }

    fn is_before(&self, other: &String) -> (r: bool) {
        string_lt(self, other)
    }

    fn is_same(&self, other: &String) -> (r: bool) {
        *self == *other
    }

    fn duplicate(&self) -> (r: String) {
        self.clone()
    }

    proof fn lemma_same_equivalence(a: String, b: String, c: String) {
    }

    proof fn lemma_strict_total(a: String, b: String, c: String) {
        lemma_lex_strict_total(a@, b@, c@);
        lemma_lex_strict_total(b@, c@, a@);
        lemma_lex_strict_total(c@, a@, b@);
        lemma_lex_strict_total(a@, c@, b@);
        lemma_lex_strict_total(b@, a@, c@);
        lemma_lex_strict_total(c@, b@, a@);
    }
}

/// Each element of `s` comes before each later one.
pub open spec fn strictly_sorted<T: Category>(s: Seq<T>) -> bool {
    forall|i: int, j: int| 0 <= i < j < s.len() ==> T::before(#[trigger] s[i], #[trigger] s[j])
}

/// Some element of `s` is the same as `x`.
pub open spec fn has_like<T: Category>(s: Seq<T>, x: T) -> bool {
    exists|i: int| 0 <= i < s.len() && T::same(#[trigger] s[i], x)
}

/// `r` lists the distinct elements of `s` in order: it is strictly sorted,
/// and each element of either has a like in the other.
#[verifier::opaque]
pub open spec fn sorted_distinct_of<T: Category>(r: Seq<T>, s: Seq<T>) -> bool {
    &&& strictly_sorted(r)
    &&& forall|i: int| 0 <= i < r.len() ==> has_like(s, #[trigger] r[i])
    &&& forall|i: int| 0 <= i < s.len() ==> has_like(r, #[trigger] s[i])
}

/// An element like one already listed leaves the list as it is.
proof fn lemma_distinct_skip<T: Category>(r: Seq<T>, t: Seq<T>, x: T, p: int)
    requires
        sorted_distinct_of(r, t),
        0 <= p < r.len(),
        T::same(r[p], x),
    ensures
        sorted_distinct_of(r, t.push(x)),
{
    reveal(sorted_distinct_of);
    let t2 = t.push(x);
    assert forall|k: int| 0 <= k < r.len() implies has_like(t2, #[trigger] r[k]) by {
        let w = choose|w: int| 0 <= w < t.len() && T::same(#[trigger] t[w], r[k]);
        assert(T::same(t2[w], r[k]));
    }
    assert forall|k: int| 0 <= k < t2.len() implies has_like(r, #[trigger] t2[k]) by {
        if k < t.len() {
            assert(t2[k] == t[k]);
            assert(has_like(r, t[k]));
        } else {
            assert(T::same(r[p], t2[k]));
        }
    }
}

/// A new element, put after those before it, keeps the list sorted and distinct.
proof fn lemma_distinct_insert<T: Category>(r: Seq<T>, t: Seq<T>, x: T, p: int)
    requires
        sorted_distinct_of(r, t),
        0 <= p <= r.len(),
        forall|k: int| 0 <= k < p ==> T::before(#[trigger] r[k], x),
        p < r.len() ==> !T::before(r[p], x) && !T::same(r[p], x),
    ensures
        sorted_distinct_of(r.insert(p, x), t.push(x)),
{
    reveal(sorted_distinct_of);
    let n = r.insert(p, x);
    let t2 = t.push(x);
    assert(n.len() == r.len() + 1);
    assert(forall|k: int| 0 <= k < p ==> n[k] == r[k]);
    assert(forall|k: int| p < k < n.len() ==> n[k] == r[k - 1]);
    assert(n[p] == x);
    T::lemma_same_equivalence(x, x, x);
    if p < r.len() {
        T::lemma_strict_total(x, r[p], x);
        T::lemma_same_equivalence(x, r[p], x);
        assert(T::before(x, r[p]));
    }
    assert forall|a: int, b: int| 0 <= a < b < n.len() implies T::before(
        #[trigger] n[a],
        #[trigger] n[b],
    ) by {
        if b < p {
            assert(T::before(r[a], r[b]));
        } else if b == p {
        } else if a == p {
            if b - 1 > p {
                T::lemma_strict_total(x, r[p], r[b - 1]);
            }
        } else if a < p {
            T::lemma_strict_total(r[a], x, r[b - 1]);
            if b - 1 > p {
                T::lemma_strict_total(x, r[p], r[b - 1]);
            }
        } else {
            assert(T::before(r[a - 1], r[b - 1]));
        }
    }
    assert forall|k: int| 0 <= k < n.len() implies has_like(t2, #[trigger] n[k]) by {
        if k == p {
            assert(T::same(t2[t.len() as int], n[k]));
        } else {
            let j = if k < p {
                k
            } else {
                k - 1
            };
            assert(n[k] == r[j]);
            assert(has_like(t, r[j]));
            let w = choose|w: int| 0 <= w < t.len() && T::same(#[trigger] t[w], r[j]);
            assert(T::same(t2[w], n[k]));
        }
    }
    assert forall|k: int| 0 <= k < t2.len() implies has_like(n, #[trigger] t2[k]) by {
        if k < t.len() {
            assert(t2[k] == t[k]);
            assert(has_like(r, t[k]));
            let w = choose|w: int| 0 <= w < r.len() && T::same(#[trigger] r[w], t[k]);
            if w < p {
                assert(T::same(n[w], t2[k]));
            } else {
                assert(T::same(n[w + 1], t2[k]));
            }
        } else {
            assert(T::same(n[p], t2[k]));
        }
    }
}

/// The distinct elements of `s`, in order.
pub fn sorted_distinct<T: Category>(s: &Vec<T>) -> (r: Vec<T>)
    ensures
        sorted_distinct_of(r@, s@),
{
    let mut r: Vec<T> = Vec::new();
    let mut i: usize = 0;
    proof {
        reveal(sorted_distinct_of);
    }
    while i < s.len()
        invariant
            i <= s@.len(),
            sorted_distinct_of(r@, s@.take(i as int)),
        decreases s@.len() - i,
    {
        let x = &s[i];
        let mut p: usize = 0;
        while p < r.len() && r[p].is_before(x)
            invariant
                p <= r@.len(),
                forall|k: int| 0 <= k < p ==> T::before(#[trigger] r@[k], *x),
            decreases r@.len() - p,
        {
            p += 1;
        }
        proof {
            assert(s@.take(i + 1) =~= s@.take(i as int).push(*x));
        }
        if p < r.len() && r[p].is_same(x) {
            proof {
                lemma_distinct_skip(r@, s@.take(i as int), *x, p as int);
            }
        } else {
            proof {
                lemma_distinct_insert(r@, s@.take(i as int), *x, p as int);
            }
            r.insert(p, x.duplicate());
        }
        i += 1;
    }
    proof {
        assert(s@.take(s@.len() as int) =~= s@);
    }
    r
}

} // verus!
