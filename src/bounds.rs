use vstd::prelude::*;
use crate::fixed::Real;

verus! {

/// `m` is an element of `s`, and no element of `s` lies beyond it: none is
/// larger when `hi`, none smaller otherwise.
pub open spec fn extreme_real(m: Real, s: Seq<Real>, hi: bool) -> bool {
    &&& s.contains(m)
    &&& forall|k: int|
        0 <= k < s.len() ==> if hi {
            (#[trigger] s[k]).ticks <= m.ticks
        } else {
            m.ticks <= s[k].ticks
        }
}

/// `m` is an element of `s`, and no element of `s` lies beyond it.
pub open spec fn extreme_int(m: i64, s: Seq<i64>, hi: bool) -> bool {
    &&& s.contains(m)
    &&& forall|k: int|
        0 <= k < s.len() ==> if hi {
            #[trigger] s[k] <= m
        } else {
            m <= s[k]
        }
}

/// The largest (`hi`) or smallest element of `s`; `None` for an empty `s`.
pub open spec fn real_bound(s: Seq<Real>, hi: bool) -> Option<Real> {
    if s.len() == 0 {
        None
    } else {
        Some(choose|m: Real| extreme_real(m, s, hi))
    }
}

/// The largest (`hi`) or smallest element of `s`; `None` for an empty `s`.
pub open spec fn int_bound(s: Seq<i64>, hi: bool) -> Option<i64> {
    if s.len() == 0 {
        None
    } else {
        Some(choose|m: i64| extreme_int(m, s, hi))
    }
}

/// The smallest element of a non-empty sequence lies at or below its largest.
pub proof fn lemma_real_bounds_ordered(s: Seq<Real>)
    requires
        s.len() > 0,
    ensures
        real_bound(s, false).unwrap().ticks <= real_bound(s, true).unwrap().ticks,
{
    let lo = real_bound(s, false).unwrap();
    let hi = real_bound(s, true).unwrap();
    assert(exists|m: Real| extreme_real(m, s, false)) by {
        let k = choose_extreme_real(s, false);
        assert(extreme_real(s[k], s, false));
    }
    assert(exists|m: Real| extreme_real(m, s, true)) by {
        let k = choose_extreme_real(s, true);
        assert(extreme_real(s[k], s, true));
    }
    let j = choose|j: int| 0 <= j < s.len() && s[j] == hi;
    assert(lo.ticks <= s[j].ticks);
}

/// The smallest element of a non-empty sequence lies at or below its largest.
pub proof fn lemma_int_bounds_ordered(s: Seq<i64>)
    requires
        s.len() > 0,
    ensures
        int_bound(s, false).unwrap() <= int_bound(s, true).unwrap(),
{
    assert(exists|m: i64| extreme_int(m, s, false)) by {
        let k = choose_extreme_int(s, false);
        assert(extreme_int(s[k], s, false));
    }
    assert(exists|m: i64| extreme_int(m, s, true)) by {
        let k = choose_extreme_int(s, true);
        assert(extreme_int(s[k], s, true));
    }
    let lo = int_bound(s, false).unwrap();
    let hi = int_bound(s, true).unwrap();
    let j = choose|j: int| 0 <= j < s.len() && s[j] == hi;
    assert(lo <= s[j]);
}

/// A position in a non-empty `s` that holds an extreme element.
proof fn choose_extreme_real(s: Seq<Real>, hi: bool) -> (k: int)
    requires
        s.len() > 0,
    ensures
        0 <= k < s.len(),
        extreme_real(s[k], s, hi),
    decreases s.len(),
{
    if s.len() == 1 {
        assert(s[0] == s[0]);
        0
    } else {
        let t = s.drop_last();
        let j = choose_extreme_real(t, hi);
        let last = s.len() - 1;
        assert(forall|k: int| 0 <= k < t.len() ==> t[k] == s[k]);
        let better = if hi {
            s[last].ticks > t[j].ticks
        } else {
            s[last].ticks < t[j].ticks
        };
        if better {
            assert(s[last] == s[last]);
            last
        } else {
            assert(s[j] == t[j]);
            j
        }
    }
}

/// A position in a non-empty `s` that holds an extreme element.
proof fn choose_extreme_int(s: Seq<i64>, hi: bool) -> (k: int)
    requires
        s.len() > 0,
    ensures
        0 <= k < s.len(),
        extreme_int(s[k], s, hi),
    decreases s.len(),
{
    if s.len() == 1 {
        assert(s[0] == s[0]);
        0
    } else {
        let t = s.drop_last();
        let j = choose_extreme_int(t, hi);
        let last = s.len() - 1;
        assert(forall|k: int| 0 <= k < t.len() ==> t[k] == s[k]);
        let better = if hi {
            s[last] > t[j]
        } else {
            s[last] < t[j]
        };
        if better {
            assert(s[last] == s[last]);
            last
        } else {
            assert(s[j] == t[j]);
            j
        }
    }
}

/// The largest (`hi`) or smallest element of `s`, or `None` when it is empty.
pub fn bound_of_reals(s: &Vec<Real>, hi: bool) -> (r: Option<Real>)
    ensures
        r == real_bound(s@, hi),
{
    if s.len() == 0 {
        return None;
    }
    let mut cur = s[0];
    let mut i: usize = 1;
    proof {
        assert(s@.take(1)[0] == cur);
    }
    while i < s.len()
        invariant
            1 <= i <= s@.len(),
            extreme_real(cur, s@.take(i as int), hi),
        decreases s@.len() - i,
    {
        let x = s[i];
        let better = if hi {
            x.ticks > cur.ticks
        } else {
            x.ticks < cur.ticks
        };
        proof {
            let t = s@.take(i as int);
            let t2 = s@.take(i + 1);
            let p = choose|p: int| 0 <= p < t.len() && t[p] == cur;
            assert(t2[p] == cur);
            assert(t2[i as int] == x);
            assert(forall|k: int| 0 <= k < t.len() ==> t2[k] == t[k]);
        }
        if better {
            cur = x;
        }
        i += 1;
    }
    proof {
        assert(s@.take(s@.len() as int) =~= s@);
        let m = choose|m: Real| extreme_real(m, s@, hi);
        let pm = choose|p: int| 0 <= p < s@.len() && s@[p] == m;
        let pc = choose|p: int| 0 <= p < s@.len() && s@[p] == cur;
        assert(s@[pm].ticks == s@[pc].ticks);
        assert(m == cur);
    }
    Some(cur)
}

/// The largest (`hi`) or smallest element of `s`, or `None` when it is empty.
pub fn bound_of_ints(s: &Vec<i64>, hi: bool) -> (r: Option<i64>)
    ensures
        r == int_bound(s@, hi),
{
    if s.len() == 0 {
        return None;
    }
    let mut cur = s[0];
    let mut i: usize = 1;
    proof {
        assert(s@.take(1)[0] == cur);
    }
    while i < s.len()
        invariant
            1 <= i <= s@.len(),
            extreme_int(cur, s@.take(i as int), hi),
        decreases s@.len() - i,
    {
        let x = s[i];
        let better = if hi {
            x > cur
        } else {
            x < cur
        };
        proof {
            let t = s@.take(i as int);
            let t2 = s@.take(i + 1);
            let p = choose|p: int| 0 <= p < t.len() && t[p] == cur;
            assert(t2[p] == cur);
            assert(t2[i as int] == x);
            assert(forall|k: int| 0 <= k < t.len() ==> t2[k] == t[k]);
        }
        if better {
            cur = x;
        }
        i += 1;
    }
    proof {
        assert(s@.take(s@.len() as int) =~= s@);
        let m = choose|m: i64| extreme_int(m, s@, hi);
        let pm = choose|p: int| 0 <= p < s@.len() && s@[p] == m;
        let pc = choose|p: int| 0 <= p < s@.len() && s@[p] == cur;
        assert(s@[pm] == s@[pc]);
    }
    Some(cur)
}

} // verus!
