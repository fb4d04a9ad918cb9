//! Folders-first ordering of listings and the stable sort that applies it.
//!
//! Names compare lexicographically by code point, which is the order of
//! their UTF-8 bytes. A sort key is a flag (folders have it set) and a name;
//! keys with the flag set come first, then names in increasing order. Equal
//! keys keep their original relative order.
use vstd::prelude::*;

verus! {

/// Lexicographic "less than" on character sequences, by code point.
pub open spec fn lex_lt(a: Seq<char>, b: Seq<char>) -> bool
    decreases a.len(),
{
    if a.len() == 0 {
        b.len() > 0
    } else if b.len() == 0 {
        false
    } else if a[0] == b[0] {
        lex_lt(a.drop_first(), b.drop_first())
    } else {
        a[0] < b[0]
    }
}

/// `lex_lt` is a strict total order.
pub proof fn lemma_lex_order(a: Seq<char>, b: Seq<char>)
    ensures
        !lex_lt(a, a),
        lex_lt(a, b) ==> !lex_lt(b, a),
        a != b ==> lex_lt(a, b) || lex_lt(b, a),
    decreases a.len(),
{
    if a.len() > 0 {
        lemma_lex_order(a.drop_first(), a.drop_first());
        if b.len() > 0 {
            lemma_lex_order(a.drop_first(), b.drop_first());
            if a[0] == b[0] && a != b {
                assert(a.drop_first() != b.drop_first()) by {
                    if a.drop_first() == b.drop_first() {
                        assert(a =~= seq![a[0]] + a.drop_first());
                        assert(b =~= seq![b[0]] + b.drop_first());
                    }
                }
            }
        }
    } else if b.len() == 0 {
        assert(a =~= b);
    }
}

/// `lex_lt` is transitive.
pub proof fn lemma_lex_trans(a: Seq<char>, b: Seq<char>, c: Seq<char>)
    requires
        lex_lt(a, b),
        lex_lt(b, c),
    ensures
        lex_lt(a, c),
    decreases a.len(),
{
    if a.len() > 0 && b.len() > 0 && c.len() > 0 && a[0] == b[0] && b[0] == c[0] {
        lemma_lex_trans(a.drop_first(), b.drop_first(), c.drop_first());
    }
}

/// A sort key: whether the item goes in the first group, and its name.
pub struct SortKey {
    pub first: bool,
    pub name: Vec<char>,
}

impl View for SortKey {
    type V = (bool, Seq<char>);

    open spec fn view(&self) -> (bool, Seq<char>) {
        (self.first, self.name@)
    }
}

/// Strict order on keys: the first group before the rest, then by name.
pub open spec fn key_lt(a: (bool, Seq<char>), b: (bool, Seq<char>)) -> bool {
    (a.0 && !b.0) || (a.0 == b.0 && lex_lt(a.1, b.1))
}

/// `key_lt` is a strict total order.
pub proof fn lemma_key_order(a: (bool, Seq<char>), b: (bool, Seq<char>))
    ensures
        !key_lt(a, a),
        key_lt(a, b) ==> !key_lt(b, a),
        a != b ==> key_lt(a, b) || key_lt(b, a),
{
    lemma_lex_order(a.1, a.1);
    lemma_lex_order(a.1, b.1);
}

/// `key_lt` is transitive.
pub proof fn lemma_key_trans(a: (bool, Seq<char>), b: (bool, Seq<char>), c: (bool, Seq<char>))
    requires
        key_lt(a, b),
        key_lt(b, c),
    ensures
        key_lt(a, c),
{
    if a.0 == b.0 && b.0 == c.0 {
        lemma_lex_trans(a.1, b.1, c.1);
    }
}

/// Whether item `a` precedes item `b` in the stable order: a smaller key, or
/// an equal key and an earlier original position.
pub open spec fn comes_before(keys: Seq<(bool, Seq<char>)>, a: usize, b: usize) -> bool {
    key_lt(keys[a as int], keys[b as int]) || (keys[a as int] == keys[b as int] && a < b)
}

/// `p` is a sequence of original positions, each exactly once, in increasing
/// stable order.
pub open spec fn is_stable_order(keys: Seq<(bool, Seq<char>)>, p: Seq<usize>) -> bool {
    &&& p.len() == keys.len()
    &&& p.no_duplicates()
    &&& forall|i: int| 0 <= i < p.len() ==> p[i] < keys.len()
    &&& forall|k: usize| k < keys.len() ==> p.contains(k)
    &&& forall|i: int, j: int| 0 <= i < j < p.len() ==> comes_before(keys, p[i], p[j])
}

proof fn lemma_before_asym(keys: Seq<(bool, Seq<char>)>, a: usize, b: usize)
    requires
        a < keys.len(),
        b < keys.len(),
        comes_before(keys, a, b),
    ensures
        !comes_before(keys, b, a),
        a != b,
{
    lemma_key_order(keys[a as int], keys[b as int]);
}

/// Two stable orders of the same positions are the same sequence.
proof fn lemma_sorted_unique(keys: Seq<(bool, Seq<char>)>, p: Seq<usize>, q: Seq<usize>)
    requires
        p.len() == q.len(),
        p.no_duplicates(),
        q.no_duplicates(),
        forall|x: usize| p.contains(x) <==> q.contains(x),
        forall|i: int| 0 <= i < p.len() ==> p[i] < keys.len(),
        forall|i: int| 0 <= i < q.len() ==> q[i] < keys.len(),
        forall|i: int, j: int| 0 <= i < j < p.len() ==> comes_before(keys, p[i], p[j]),
        forall|i: int, j: int| 0 <= i < j < q.len() ==> comes_before(keys, q[i], q[j]),
    ensures
        p == q,
    decreases p.len(),
{
    if p.len() > 0 {
        let n = p.len() - 1;
        let a = p[n as int];
        let b = q[n as int];
        assert(p.contains(a));
        assert(q.contains(a));
        assert(q.contains(b));
        assert(p.contains(b));
        if a != b {
            let k = choose|k: int| 0 <= k < q.len() && q[k] == a;
            let m = choose|m: int| 0 <= m < p.len() && p[m] == b;
            assert(k < n);
            assert(m < n);
            assert(comes_before(keys, q[k], q[n as int]));
            assert(comes_before(keys, p[m], p[n as int]));
            lemma_before_asym(keys, a, b);
        }
        let p2 = p.drop_last();
        let q2 = q.drop_last();
        assert forall|x: usize| p2.contains(x) <==> q2.contains(x) by {
            if p2.contains(x) {
                let i = choose|i: int| 0 <= i < p2.len() && p2[i] == x;
                assert(p[i] == x);
                assert(x != a);
                assert(q.contains(x));
                let j = choose|j: int| 0 <= j < q.len() && q[j] == x;
                assert(j != n);
                assert(q2[j] == x);
            }
            if q2.contains(x) {
                let i = choose|i: int| 0 <= i < q2.len() && q2[i] == x;
                assert(q[i] == x);
                assert(x != b);
                assert(p.contains(x));
                let j = choose|j: int| 0 <= j < p.len() && p[j] == x;
                assert(j != n);
                assert(p2[j] == x);
            }
        }
        lemma_sorted_unique(keys, p2, q2);
        assert(p =~= p2.push(a));
        assert(q =~= q2.push(b));
    }
}

/// The stable order of `keys`: the one sequence of positions that
/// `is_stable_order` describes.
pub open spec fn stable_order(keys: Seq<(bool, Seq<char>)>) -> Seq<usize> {
    choose|p: Seq<usize>| is_stable_order(keys, p)
}

/// Any stable order is `stable_order`.
pub proof fn lemma_stable_order_unique(keys: Seq<(bool, Seq<char>)>, p: Seq<usize>)
    requires
        is_stable_order(keys, p),
    ensures
        stable_order(keys) == p,
        is_stable_order(keys, stable_order(keys)),
{
    let q = stable_order(keys);
    assert(is_stable_order(keys, q));
    assert forall|x: usize| p.contains(x) <==> q.contains(x) by {
        if p.contains(x) {
            let i = choose|i: int| 0 <= i < p.len() && p[i] == x;
            assert(x < keys.len());
        }
        if q.contains(x) {
            let i = choose|i: int| 0 <= i < q.len() && q[i] == x;
            assert(x < keys.len());
        }
    }
    lemma_sorted_unique(keys, p, q);
}

/// `comes_before` is transitive.
proof fn lemma_before_trans(keys: Seq<(bool, Seq<char>)>, a: usize, b: usize, c: usize)
    requires
        a < keys.len(),
        b < keys.len(),
        c < keys.len(),
        comes_before(keys, a, b),
        comes_before(keys, b, c),
    ensures
        comes_before(keys, a, c),
{
    if key_lt(keys[a as int], keys[b as int]) && key_lt(keys[b as int], keys[c as int]) {
        lemma_key_trans(keys[a as int], keys[b as int], keys[c as int]);
    }
}

/// Two different positions are ordered one way or the other.
proof fn lemma_before_total(keys: Seq<(bool, Seq<char>)>, a: usize, b: usize)
    requires
        a < keys.len(),
        b < keys.len(),
        a != b,
    ensures
        comes_before(keys, a, b) || comes_before(keys, b, a),
{
    lemma_key_order(keys[a as int], keys[b as int]);
}

/// Inserting position `x` into a sorted sequence of other positions, where
/// it belongs.
proof fn lemma_insert_sorted(keys: Seq<(bool, Seq<char>)>, p: Seq<usize>, x: usize) -> (q: Seq<usize>)
    requires
        x < keys.len(),
        !p.contains(x),
        p.no_duplicates(),
        forall|i: int| 0 <= i < p.len() ==> p[i] < keys.len(),
        forall|i: int, j: int| 0 <= i < j < p.len() ==> comes_before(keys, p[i], p[j]),
    ensures
        q.len() == p.len() + 1,
        q.no_duplicates(),
        forall|i: int| 0 <= i < q.len() ==> q[i] < keys.len(),
        forall|y: usize| q.contains(y) <==> (p.contains(y) || y == x),
        forall|i: int, j: int| 0 <= i < j < q.len() ==> comes_before(keys, q[i], q[j]),
    decreases p.len(),
{
    if p.len() == 0 {
        let q = seq![x];
        assert forall|y: usize| q.contains(y) <==> (p.contains(y) || y == x) by {
            if q.contains(y) {
                let k = choose|k: int| 0 <= k < q.len() && q[k] == y;
            }
            if y == x {
                assert(q[0] == y);
            }
        }
        q
    } else {
        let last = p.last();
        let n = p.len() - 1;
        assert(p[n] == last);
        assert(last != x) by {
            assert(p.contains(last));
        }
        let p2 = p.drop_last();
        assert(!p2.contains(x)) by {
            if p2.contains(x) {
                let k = choose|k: int| 0 <= k < p2.len() && p2[k] == x;
                assert(p[k] == x);
            }
        }
        assert(p2.no_duplicates()) by {
            assert forall|i: int, j: int| 0 <= i < p2.len() && 0 <= j < p2.len() && i != j implies p2[i]
                != p2[j] by {
                assert(p2[i] == p[i] && p2[j] == p[j]);
            }
        }
        assert forall|y: usize| p.contains(y) <==> (p2.contains(y) || y == last) by {
            if p.contains(y) {
                let k = choose|k: int| 0 <= k < p.len() && p[k] == y;
                if k < n {
                    assert(p2[k] == y);
                }
            }
            if p2.contains(y) {
                let k = choose|k: int| 0 <= k < p2.len() && p2[k] == y;
                assert(p[k] == y);
            }
        }
        if comes_before(keys, last, x) {
            let q = p.push(x);
            assert forall|i: int, j: int| 0 <= i < j < q.len() implies comes_before(keys, q[i], q[j]) by {
                if j == n + 1 {
                    if i < n {
                        lemma_before_trans(keys, p[i], last, x);
                    }
                } else {
                    assert(q[i] == p[i] && q[j] == p[j]);
                }
            }
            assert forall|y: usize| q.contains(y) <==> (p.contains(y) || y == x) by {
                if q.contains(y) {
                    let k = choose|k: int| 0 <= k < q.len() && q[k] == y;
                    if k < p.len() {
                        assert(p[k] == y);
                    }
                }
                if p.contains(y) {
                    let k = choose|k: int| 0 <= k < p.len() && p[k] == y;
                    assert(q[k] == y);
                }
                if y == x {
                    assert(q[p.len() as int] == y);
                }
            }
            assert(q.no_duplicates()) by {
                assert forall|i: int, j: int| 0 <= i < q.len() && 0 <= j < q.len() && i != j implies q[i]
                    != q[j] by {
                    if i < p.len() && j < p.len() {
                        assert(q[i] == p[i] && q[j] == p[j]);
                    } else if i < p.len() {
                        assert(q[i] == p[i]);
                        assert(p.contains(p[i]));
                    } else {
                        assert(q[j] == p[j]);
                        assert(p.contains(p[j]));
                    }
                }
            }
            q
        } else {
            lemma_before_total(keys, last, x);
            let q2 = lemma_insert_sorted(keys, p2, x);
            let q = q2.push(last);
            assert(!q2.contains(last)) by {
                if q2.contains(last) {
                    if last != x {
                        assert(p2.contains(last));
                        let k = choose|k: int| 0 <= k < p2.len() && p2[k] == last;
                        assert(p[k] == p[n]);
                    }
                }
            }
            assert forall|i: int, j: int| 0 <= i < j < q.len() implies comes_before(keys, q[i], q[j]) by {
                if j == q2.len() {
                    assert(q[i] == q2[i]);
                    assert(q2.contains(q2[i]));
                    if q2[i] != x {
                        assert(p2.contains(q2[i]));
                        let k = choose|k: int| 0 <= k < p2.len() && p2[k] == q2[i];
                        assert(p[k] == q2[i]);
                    }
                } else {
                    assert(q[i] == q2[i] && q[j] == q2[j]);
                }
            }
            assert forall|y: usize| q.contains(y) <==> (p.contains(y) || y == x) by {
                if q.contains(y) {
                    let k = choose|k: int| 0 <= k < q.len() && q[k] == y;
                    if k < q2.len() {
                        assert(q2[k] == y);
                        assert(q2.contains(y));
                    }
                }
                if p2.contains(y) || y == x {
                    assert(q2.contains(y));
                    let k = choose|k: int| 0 <= k < q2.len() && q2[k] == y;
                    assert(q[k] == y);
                }
                if y == last {
                    assert(q[q2.len() as int] == y);
                }
            }
            assert(q.no_duplicates()) by {
                assert forall|i: int, j: int| 0 <= i < q.len() && 0 <= j < q.len() && i != j implies q[i]
                    != q[j] by {
                    if i < q2.len() && j < q2.len() {
                        assert(q[i] == q2[i] && q[j] == q2[j]);
                    } else if i < q2.len() {
                        assert(q[i] == q2[i]);
                        assert(q2.contains(q2[i]));
                    } else {
                        assert(q[j] == q2[j]);
                        assert(q2.contains(q2[j]));
                    }
                }
            }
            q
        }
    }
}

/// A stable order of the first `n` positions.
proof fn lemma_prefix_order(keys: Seq<(bool, Seq<char>)>, n: nat) -> (p: Seq<usize>)
    requires
        n <= keys.len(),
        keys.len() <= usize::MAX,
    ensures
        p.len() == n,
        p.no_duplicates(),
        forall|i: int| 0 <= i < p.len() ==> p[i] < keys.len(),
        forall|y: usize| p.contains(y) <==> y < n,
        forall|i: int, j: int| 0 <= i < j < p.len() ==> comes_before(keys, p[i], p[j]),
    decreases n,
{
    if n == 0 {
        let p: Seq<usize> = seq![];
        p
    } else {
        let p0 = lemma_prefix_order(keys, (n - 1) as nat);
        let x = (n - 1) as usize;
        lemma_insert_sorted(keys, p0, x)
    }
}

/// Every key sequence that a `Vec` can hold has a stable order.
pub proof fn lemma_stable_order_exists(keys: Seq<(bool, Seq<char>)>)
    requires
        keys.len() <= usize::MAX,
    ensures
        is_stable_order(keys, stable_order(keys)),
{
    let p = lemma_prefix_order(keys, keys.len());
    lemma_stable_order_unique(keys, p);
}

/// Strict `key_lt` of two keys.
pub fn key_less(a: &SortKey, b: &SortKey) -> (r: bool)
    ensures
        r == key_lt(a@, b@),
{
    if a.first != b.first {
        return a.first;
    }
    let mut i: usize = 0;
    assert(a.name@.skip(0) =~= a.name@);
    assert(b.name@.skip(0) =~= b.name@);
    while i < a.name.len() && i < b.name.len() && a.name[i] == b.name[i]
        invariant
            i <= a.name.len(),
            i <= b.name.len(),
            lex_lt(a.name@, b.name@) == lex_lt(a.name@.skip(i as int), b.name@.skip(i as int)),
        decreases a.name.len() - i,
    {
        assert(a.name@.skip(i as int).drop_first() =~= a.name@.skip(i + 1));
        assert(b.name@.skip(i as int).drop_first() =~= b.name@.skip(i + 1));
        i += 1;
    }
    assert(a.name@.skip(0) =~= a.name@);
    assert(b.name@.skip(0) =~= b.name@);
    if i == a.name.len() {
        i < b.name.len()
    } else if i == b.name.len() {
        false
    } else {
        a.name[i] < b.name[i]
    }
}

/// The stable order of the keys: positions sorted by key, equal keys in
/// their original order.
pub fn stable_sort_positions(keys: &Vec<SortKey>) -> (r: Vec<usize>)
    ensures
        is_stable_order(keys@.map_values(|k: SortKey| k@), r@),
        r@ == stable_order(keys@.map_values(|k: SortKey| k@)),
{
    let ghost kv = keys@.map_values(|k: SortKey| k@);
    let mut out: Vec<usize> = Vec::new();
    let mut i: usize = 0;
    while i < keys.len()
        invariant
            kv == keys@.map_values(|k: SortKey| k@),
            i <= keys.len(),
            out.len() == i,
            out@.no_duplicates(),
            forall|t: int| 0 <= t < out.len() ==> out@[t] < i,
            forall|k: usize| k < i ==> out@.contains(k),
            forall|a: int, b: int| 0 <= a < b < out.len() ==> comes_before(kv, out@[a], out@[b]),
        decreases keys.len() - i,
    {
        let mut p: usize = 0;
        while p < out.len() && !key_less(&keys[i], &keys[out[p]])
            invariant
                kv == keys@.map_values(|k: SortKey| k@),
                i < keys.len(),
                out.len() == i,
                p <= out.len(),
                forall|t: int| 0 <= t < out.len() ==> out@[t] < i,
                forall|t: int| 0 <= t < p ==> !key_lt(kv[i as int], kv[out@[t] as int]),
            decreases out.len() - p,
        {
            p += 1;
        }
        let ghost old_out = out@;
        out.insert(p, i);
        proof {
            assert(out@ == old_out.insert(p as int, i));
            // elements before the insertion point precede i
            assert forall|t: int| 0 <= t < p implies comes_before(kv, old_out[t], i) by {
                lemma_key_order(kv[i as int], kv[old_out[t] as int]);
            }
            // elements from the insertion point on follow i
            if p < old_out.len() {
                assert(key_lt(kv[i as int], kv[old_out[p as int] as int]));
                assert forall|t: int| p <= t < old_out.len() implies comes_before(kv, i, old_out[t]) by {
                    if t > p {
                        assert(comes_before(kv, old_out[p as int], old_out[t]));
                        if key_lt(kv[old_out[p as int] as int], kv[old_out[t] as int]) {
                            lemma_key_trans(
                                kv[i as int],
                                kv[old_out[p as int] as int],
                                kv[old_out[t] as int],
                            );
                        }
                    }
                }
            }
            assert forall|a: int, b: int| 0 <= a < b < out.len() implies comes_before(
                kv,
                out@[a],
                out@[b],
            ) by {
                if a < p && b < p {
                    assert(out@[a] == old_out[a] && out@[b] == old_out[b]);
                } else if a < p && b == p {
                } else if a < p && b > p {
                    assert(out@[a] == old_out[a] && out@[b] == old_out[b - 1]);
                } else if a == p {
                    assert(out@[b] == old_out[b - 1]);
                } else {
                    assert(out@[a] == old_out[a - 1] && out@[b] == old_out[b - 1]);
                }
            }
            assert forall|k: usize| k < i + 1 implies out@.contains(k) by {
                if k < i {
                    assert(old_out.contains(k));
                    let t = choose|t: int| 0 <= t < old_out.len() && old_out[t] == k;
                    if t < p {
                        assert(out@[t] == k);
                    } else {
                        assert(out@[t + 1] == k);
                    }
                } else {
                    assert(out@[p as int] == k);
                }
            }
            assert forall|a: int, b: int| 0 <= a < out.len() && 0 <= b < out.len() && a != b implies out@[a]
                != out@[b] by {
                if a != p && b != p {
                    let a0 = if a < p { a } else { a - 1 };
                    let b0 = if b < p { b } else { b - 1 };
                    assert(out@[a] == old_out[a0] && out@[b] == old_out[b0]);
                } else if a == p {
                    let b0 = if b < p { b } else { b - 1 };
                    assert(out@[b] == old_out[b0]);
                } else {
                    let a0 = if a < p { a } else { a - 1 };
                    assert(out@[a] == old_out[a0]);
                }
            }
            assert forall|t: int| 0 <= t < out.len() implies out@[t] < i + 1 by {
                if t < p {
                    assert(out@[t] == old_out[t]);
                } else if t > p {
                    assert(out@[t] == old_out[t - 1]);
                }
            }
        }
        i += 1;
    }
    proof {
        lemma_stable_order_unique(kv, out@);
    }
    out
}

} // verus!
