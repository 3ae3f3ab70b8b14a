use vstd::prelude::*;

verus! {

// The selection of a geometry is kept as a strictly ascending vector of
// vertex indices: a set with a guaranteed ascending iteration order.
// The helpers here build, probe and update such vectors.

/// Strictly ascending: the order every selection is kept in.
pub open spec fn sorted_strict(s: Seq<u32>) -> bool {
    forall|i: int, j: int| 0 <= i < j < s.len() ==> s[i] < s[j]
}

/// Insertion into a strictly ascending sequence, keeping it ascending
/// and dropping nothing; inserting a present value changes nothing.
pub open spec fn sorted_insert(s: Seq<u32>, x: u32) -> Seq<u32>
    decreases s.len(),
{
    if s.len() == 0 {
        seq![x]
    } else if x < s[0] {
        seq![x] + s
    } else if x == s[0] {
        s
    } else {
        seq![s[0]] + sorted_insert(s.drop_first(), x)
    }
}

// Small facts about drop_first, used by the inductions below.
proof fn lemma_sorted_drop_first(s: Seq<u32>)
    requires
        sorted_strict(s),
        s.len() > 0,
    ensures
        sorted_strict(s.drop_first()),
{
    let t = s.drop_first();
    assert forall|i: int, j: int| 0 <= i < j < t.len() implies t[i] < t[j] by {
        assert(t[i] == s[i + 1] && t[j] == s[j + 1]);
    }
}

proof fn lemma_contains_drop_first(s: Seq<u32>, y: u32)
    requires
        s.len() > 0,
    ensures
        s.contains(y) <==> (s[0] == y || s.drop_first().contains(y)),
{
    let t = s.drop_first();
    if s.contains(y) {
        let i = choose|i: int| 0 <= i < s.len() && s[i] == y;
        if i > 0 {
            assert(t[i - 1] == y);
        }
    }
    if t.contains(y) {
        let i = choose|i: int| 0 <= i < t.len() && t[i] == y;
        assert(s[i + 1] == y);
    }
}

pub proof fn lemma_sorted_insert_contains(s: Seq<u32>, x: u32, y: u32)
    ensures
        sorted_insert(s, x).contains(y) <==> (s.contains(y) || y == x),
    decreases s.len(),
{
    let r = sorted_insert(s, x);
    if s.len() == 0 {
        assert(r[0] == x);
        if r.contains(y) {
            let i = choose|i: int| 0 <= i < r.len() && r[i] == y;
        }
    } else if x < s[0] {
        assert(r == seq![x] + s);
        assert(r[0] == x);
        lemma_contains_drop_first(r, y);
        assert(r.drop_first() =~= s);
    } else if x == s[0] {
        assert(s[0] == x);
        assert(s.contains(x));
    } else {
        lemma_sorted_insert_contains(s.drop_first(), x, y);
        assert(r == seq![s[0]] + sorted_insert(s.drop_first(), x));
        assert(r.len() > 0 && r[0] == s[0]);
        lemma_contains_drop_first(r, y);
        assert(r.drop_first() =~= sorted_insert(s.drop_first(), x));
        lemma_contains_drop_first(s, y);
    }
}

pub proof fn lemma_sorted_insert_sorted(s: Seq<u32>, x: u32)
    requires
        sorted_strict(s),
    ensures
        sorted_strict(sorted_insert(s, x)),
    decreases s.len(),
{
    let r = sorted_insert(s, x);
    if s.len() == 0 {
    } else if x < s[0] {
        assert forall|i: int, j: int| 0 <= i < j < r.len() implies r[i] < r[j] by {
            if i == 0 {
                if j > 1 {
                    assert(r[j] == s[j - 1] && s[0] <= s[j - 1]);
                }
            } else {
                assert(r[i] == s[i - 1] && r[j] == s[j - 1]);
            }
        }
    } else if x == s[0] {
    } else {
        lemma_sorted_drop_first(s);
        lemma_sorted_insert_sorted(s.drop_first(), x);
        let rt = sorted_insert(s.drop_first(), x);
        assert forall|i: int, j: int| 0 <= i < j < r.len() implies r[i] < r[j] by {
            if i == 0 {
                assert(r[j] == rt[j - 1]);
                assert(rt.contains(rt[j - 1]));
                lemma_sorted_insert_contains(s.drop_first(), x, rt[j - 1]);
                if rt[j - 1] == x {
                } else {
                    assert(s.drop_first().contains(rt[j - 1]));
                    let k = choose|k: int|
                        0 <= k < s.drop_first().len() && s.drop_first()[k] == rt[j - 1];
                    assert(s[k + 1] == rt[j - 1]);
                }
            } else {
                assert(r[i] == rt[i - 1] && r[j] == rt[j - 1]);
            }
        }
    }
}

/// Linear membership probe.
pub fn contains_val(v: &Vec<u32>, x: u32) -> (r: bool)
    ensures
        r == v@.contains(x),
{
    let n = v.len();
    let mut i: usize = 0;
    while i < n
        invariant
            n == v@.len(),
            0 <= i <= n,
            forall|k: int| 0 <= k < i ==> v@[k] != x,
        decreases n - i,
    {
        if v[i] == x {
            return true;
        }
        i += 1;
    }
    false
}

/// Index of a present value.
pub fn index_of_val(v: &Vec<u32>, x: u32) -> (r: usize)
    requires
        v@.contains(x),
    ensures
        r < v@.len(),
        v@[r as int] == x,
        forall|k: int| 0 <= k < r ==> v@[k] != x,
    {
    let n = v.len();
    let mut i: usize = 0;
    loop
        invariant
            n == v@.len(),
            0 <= i <= n,
            v@.contains(x),
            forall|k: int| 0 <= k < i ==> v@[k] != x,
        decreases n - i,
    {
        if i < n {
            if v[i] == x {
                return i;
            }
            i += 1;
        } else {
            proof {
                let k = choose|k: int| 0 <= k < v@.len() && v@[k] == x;
                assert(false);
            }
        }
    }
}

/// The sequence without the occurrences of `x`, order kept.
pub open spec fn remove_all(s: Seq<u32>, x: u32) -> Seq<u32>
    decreases s.len(),
{
    if s.len() == 0 {
        Seq::empty()
    } else if s[0] == x {
        remove_all(s.drop_first(), x)
    } else {
        seq![s[0]] + remove_all(s.drop_first(), x)
    }
}

pub proof fn lemma_remove_all_props(s: Seq<u32>, x: u32)
    ensures
        forall|y: u32| remove_all(s, x).contains(y) <==> (s.contains(y) && y != x),
        sorted_strict(s) ==> sorted_strict(remove_all(s, x)),
        remove_all(s, x).len() <= s.len(),
        forall|k: int|
            0 <= k < remove_all(s, x).len() ==> s.contains(#[trigger] remove_all(s, x)[k]),
    decreases s.len(),
{
    if s.len() == 0 {
    } else {
        let t = s.drop_first();
        lemma_remove_all_props(t, x);
        assert(forall|y: u32| t.contains(y) ==> s.contains(y)) by {
            assert(forall|i: int| 0 <= i < t.len() ==> s[i + 1] == #[trigger] t[i]);
        }
        assert forall|y: u32| s.contains(y) && y != x implies remove_all(s, x).contains(y) by {
            let i = choose|i: int| 0 <= i < s.len() && s[i] == y;
            if i == 0 {
                assert(remove_all(s, x)[0] == y);
            } else {
                assert(t[i - 1] == y);
                assert(t.contains(y));
                let rt = remove_all(t, x);
                let j = choose|j: int| 0 <= j < rt.len() && rt[j] == y;
                if s[0] == x {
                } else {
                    assert(remove_all(s, x)[j + 1] == y);
                }
            }
        }
        assert forall|y: u32| remove_all(s, x).contains(y) implies s.contains(y) && y != x by {
            let r = remove_all(s, x);
            let i = choose|i: int| 0 <= i < r.len() && r[i] == y;
            if s[0] == x {
            } else {
                if i == 0 {
                    assert(s[0] == y);
                } else {
                    assert(remove_all(t, x)[i - 1] == y);
                    assert(remove_all(t, x).contains(y));
                }
            }
        }
        if sorted_strict(s) {
            assert(sorted_strict(t)) by {
                assert(forall|i: int| 0 <= i < t.len() ==> s[i + 1] == #[trigger] t[i]);
            }
            if s[0] != x {
                let rt = remove_all(t, x);
                let r = seq![s[0]] + rt;
                assert forall|i: int, j: int| 0 <= i < j < r.len() implies r[i] < r[j] by {
                    if i == 0 {
                        assert(rt.contains(rt[j - 1]));
                        assert(t.contains(rt[j - 1]));
                        let k = choose|k: int| 0 <= k < t.len() && t[k] == rt[j - 1];
                        assert(s[k + 1] == rt[j - 1]);
                    } else {
                        assert(r[i] == rt[i - 1] && r[j] == rt[j - 1]);
                    }
                }
            }
        }
        if s[0] != x {
            let rt = remove_all(t, x);
            assert(forall|k: int|
                0 <= k < rt.len() ==> t.contains(#[trigger] rt[k]));
            assert forall|k: int|
                0 <= k < remove_all(s, x).len() implies s.contains(
                #[trigger] remove_all(s, x)[k],
            ) by {
                if k == 0 {
                    assert(s.contains(s[0]));
                } else {
                    assert(remove_all(s, x)[k] == rt[k - 1]);
                }
            }
        }
    }
}

/// A copy without the occurrences of `x`, order kept.
pub fn filter_ne(v: &Vec<u32>, x: u32) -> (r: Vec<u32>)
    ensures
        r@ == remove_all(v@, x),
{
    let n = v.len();
    let mut r: Vec<u32> = Vec::new();
    let mut i: usize = 0;
    proof {
        assert(v@.skip(0) =~= v@);
        assert(Seq::<u32>::empty() + remove_all(v@, x) =~= remove_all(v@, x));
    }
    while i < n
        invariant
            n == v@.len(),
            0 <= i <= n,
            remove_all(v@, x) == r@ + remove_all(v@.skip(i as int), x),
        decreases n - i,
    {
        proof {
            let t = v@.skip(i as int);
            assert(t.len() > 0 && t[0] == v@[i as int]);
            assert(t.drop_first() =~= v@.skip(i as int + 1));
            let rest = remove_all(v@.skip(i as int + 1), x);
            if v@[i as int] != x {
                assert(remove_all(t, x) == seq![v@[i as int]] + rest);
                assert(r@ + (seq![v@[i as int]] + rest) =~= r@.push(v@[i as int]) + rest);
            } else {
                assert(remove_all(t, x) == rest);
            }
        }
        if v[i] != x {
            r.push(v[i]);
        }
        i += 1;
    }
    proof {
        assert(v@.skip(n as int) =~= Seq::<u32>::empty());
        assert(r@ + Seq::<u32>::empty() =~= r@);
    }
    r
}

/// A copy with `x` inserted in order.
pub fn insert_sorted(v: &Vec<u32>, x: u32) -> (r: Vec<u32>)
    ensures
        r@ == sorted_insert(v@, x),
{
    let n = v.len();
    let mut r: Vec<u32> = Vec::new();
    let mut i: usize = 0;
    proof {
        assert(v@.skip(0) =~= v@);
        assert(Seq::<u32>::empty() + sorted_insert(v@, x) =~= sorted_insert(v@, x));
    }
    while i < n && v[i] < x
        invariant
            n == v@.len(),
            0 <= i <= n,
            sorted_insert(v@, x) == r@ + sorted_insert(v@.skip(i as int), x),
        decreases n - i,
    {
        proof {
            let t = v@.skip(i as int);
            assert(t.len() > 0 && t[0] == v@[i as int]);
            assert(t.drop_first() =~= v@.skip(i as int + 1));
            let rest = sorted_insert(v@.skip(i as int + 1), x);
            assert(sorted_insert(t, x) == seq![v@[i as int]] + rest);
            assert(r@ + (seq![v@[i as int]] + rest) =~= r@.push(v@[i as int]) + rest);
        }
        r.push(v[i]);
        i += 1;
    }
    if i < n && v[i] == x {
        // already present: the remainder is copied unchanged
        proof {
            let t = v@.skip(i as int);
            assert(t.len() > 0 && t[0] == x);
            assert(sorted_insert(t, x) == t);
        }
    } else {
        proof {
            let t = v@.skip(i as int);
            if i < n {
                assert(t.len() > 0 && x < t[0]);
                assert(sorted_insert(t, x) == seq![x] + t);
            } else {
                assert(t =~= Seq::<u32>::empty());
                assert(sorted_insert(t, x) == seq![x]);
                assert(seq![x] =~= seq![x] + t);
            }
            assert(r@ + (seq![x] + t) =~= r@.push(x) + t);
        }
        r.push(x);
    }
    let mut j: usize = i;
    while j < n
        invariant
            n == v@.len(),
            i <= j <= n,
            sorted_insert(v@, x) == r@ + v@.skip(j as int),
        decreases n - j,
    {
        proof {
            let t = v@.skip(j as int);
            assert(t.len() > 0 && t[0] == v@[j as int]);
            assert(t.drop_first() =~= v@.skip(j as int + 1));
            assert(t =~= seq![v@[j as int]] + v@.skip(j as int + 1));
            assert(r@ + (seq![v@[j as int]] + v@.skip(j as int + 1)) =~= r@.push(v@[j as int])
                + v@.skip(j as int + 1));
        }
        r.push(v[j]);
        j += 1;
    }
    proof {
        assert(v@.skip(n as int) =~= Seq::<u32>::empty());
        assert(r@ + Seq::<u32>::empty() =~= r@);
    }
    r
}

/// Some index `m < upto` of `s` holds `y`.
pub open spec fn seq_has(s: Seq<u32>, upto: int, y: u32) -> bool {
    exists|m: int| 0 <= m < upto && s[m] == y
}

/// The ascending indices at which the flag sequence is true.
pub open spec fn true_indices(flags: Seq<bool>) -> Seq<u32>
    decreases flags.len(),
{
    if flags.len() == 0 {
        Seq::empty()
    } else {
        true_indices(flags.drop_last()) + (if flags.last() {
            seq![(flags.len() - 1) as u32]
        } else {
            Seq::empty()
        })
    }
}

pub proof fn lemma_true_indices(flags: Seq<bool>)
    requires
        flags.len() < 0x1_0000_0000,
    ensures
        sorted_strict(true_indices(flags)),
        forall|k: int|
            0 <= k < true_indices(flags).len() ==> #[trigger] true_indices(flags)[k]
                < flags.len(),
        forall|y: u32|
            #[trigger] true_indices(flags).contains(y) <==> (y < flags.len() && flags[y as int]),
        true_indices(flags).len() <= flags.len(),
    decreases flags.len(),
{
    if flags.len() == 0 {
    } else {
        let pre = flags.drop_last();
        lemma_true_indices(pre);
        let r = true_indices(flags);
        let rp = true_indices(pre);
        assert(forall|i: int| 0 <= i < pre.len() ==> pre[i] == #[trigger] flags[i]);
        assert forall|y: u32| #[trigger] r.contains(y) implies (y < flags.len()
            && flags[y as int]) by {
            let i = choose|i: int| 0 <= i < r.len() && r[i] == y;
            if i < rp.len() {
                assert(rp[i] == y);
                assert(rp.contains(y));
            } else {
                assert(flags.last());
                assert(y == (flags.len() - 1) as u32);
            }
        }
        assert forall|y: u32| y < flags.len() && flags[y as int] implies #[trigger] r.contains(
            y,
        ) by {
            if y < pre.len() {
                assert(rp.contains(y));
                let i = choose|i: int| 0 <= i < rp.len() && rp[i] == y;
                assert(r[i] == y);
            } else {
                assert(flags.last());
                assert(r[rp.len() as int] == y);
            }
        }
        assert forall|i: int, j: int| 0 <= i < j < r.len() implies r[i] < r[j] by {
            if j < rp.len() {
            } else {
                assert(flags.last());
                assert(r[j] == (flags.len() - 1) as u32);
                assert(r[i] == rp[i]);
                assert(rp.contains(rp[i]));
                assert(rp[i] < pre.len());
            }
        }
    }
}

} // verus!
