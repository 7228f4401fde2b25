//! Ordered sets of names: character-wise order on strings (for UTF-8 text the
//! same order as byte-wise comparison), and a vector kept strictly increasing.
use vstd::prelude::*;
use crate::strings::views;

verus! {

/// `a` comes strictly before `b`: at the first position where they differ `a`
/// has the smaller character, or `a` is a proper prefix of `b`.
pub open spec fn lex_lt(a: Seq<char>, b: Seq<char>) -> bool
    decreases a.len(),
{
    if a.len() == 0 {
        b.len() > 0
    } else if b.len() == 0 {
        false
    } else if a[0] < b[0] {
        true
    } else if a[0] == b[0] {
        lex_lt(a.drop_first(), b.drop_first())
    } else {
        false
    }
}

/// No text comes before itself.
pub proof fn lemma_lex_irreflexive(a: Seq<char>)
    ensures
        !lex_lt(a, a),
    decreases a.len(),
{
    if a.len() > 0 {
        lemma_lex_irreflexive(a.drop_first());
    }
}

/// The order is transitive.
pub proof fn lemma_lex_transitive(a: Seq<char>, b: Seq<char>, c: Seq<char>)
    requires
        lex_lt(a, b),
        lex_lt(b, c),
    ensures
        lex_lt(a, c),
    decreases a.len(),
{
    if a.len() > 0 && b.len() > 0 && c.len() > 0 && a[0] == b[0] && b[0] == c[0] {
        lemma_lex_transitive(a.drop_first(), b.drop_first(), c.drop_first());
    }
}

/// Two different texts are ordered one way or the other.
pub proof fn lemma_lex_total(a: Seq<char>, b: Seq<char>)
    requires
        a != b,
    ensures
        lex_lt(a, b) || lex_lt(b, a),
    decreases a.len(),
{
    if a.len() == 0 && b.len() == 0 {
        assert(a =~= b);
    }
    if a.len() > 0 && b.len() > 0 && a[0] == b[0] {
        if a.drop_first() == b.drop_first() {
            assert(a =~= seq![a[0]] + a.drop_first());
            assert(b =~= seq![b[0]] + b.drop_first());
        }
        lemma_lex_total(a.drop_first(), b.drop_first());
    }
}

/// Compares two texts in this order.
pub fn lex_less(a: &str, b: &str) -> (res: bool)
    ensures
        res == lex_lt(a@, b@),
{
    let n = a.unicode_len();
    let m = b.unicode_len();
    let mut i: usize = 0;
    assert(a@.subrange(0, n as int) =~= a@);
    assert(b@.subrange(0, m as int) =~= b@);
    while i < n && i < m
        invariant
            n == a@.len(),
            m == b@.len(),
            i <= n,
            i <= m,
            a@.subrange(0, i as int) == b@.subrange(0, i as int),
            lex_lt(a@.subrange(i as int, n as int), b@.subrange(i as int, m as int)) == lex_lt(a@, b@),
        decreases n - i,
    {
        let x = a.get_char(i);
        let y = b.get_char(i);
        assert(a@.subrange(i as int, n as int)[0] == x);
        assert(b@.subrange(i as int, m as int)[0] == y);
        if x < y {
            return true;
        }
        if x != y {
            return false;
        }
        assert(a@.subrange(i as int, n as int).drop_first() =~= a@.subrange(i + 1, n as int));
        assert(b@.subrange(i as int, m as int).drop_first() =~= b@.subrange(i + 1, m as int));
        assert(a@.subrange(0, i + 1) =~= a@.subrange(0, i as int).push(x));
        assert(b@.subrange(0, i + 1) =~= b@.subrange(0, i as int).push(y));
        i = i + 1;
    }
    i < m
}

/// Strictly increasing in the text order.
pub open spec fn strictly_sorted(s: Seq<Seq<char>>) -> bool {
    forall|i: int, j: int| 0 <= i < j < s.len() ==> lex_lt(s[i], s[j])
}

/// Inserts a name into a strictly increasing vector of names, unless it is
/// already there; the vector stays strictly increasing.
pub fn insert_sorted(v: &mut Vec<String>, x: String)
    requires
        strictly_sorted(views(old(v)@)),
    ensures
        strictly_sorted(views(final(v)@)),
        views(final(v)@).to_set() == views(old(v)@).to_set().insert(x@),
{
    let ghost old_v = views(v@);
    let mut i: usize = 0;
    while i < v.len() && lex_less(v[i].as_str(), x.as_str())
        invariant
            i <= v@.len(),
            views(v@) == old_v,
            forall|k: int| 0 <= k < i ==> lex_lt(old_v[k], x@),
        decreases v.len() - i,
    {
        i = i + 1;
    }
    if i < v.len() && v[i].eq(&x) {
        proof {
            assert(views(v@)[i as int] == x@);
            assert(old_v.to_set() =~= old_v.to_set().insert(x@));
        }
        return;
    }
    proof {
        if i < old_v.len() {
            assert(!lex_lt(old_v[i as int], x@));
            assert(old_v[i as int] != x@);
            lemma_lex_total(old_v[i as int], x@);
        }
    }
    v.insert(i, x);
    proof {
        let nv = views(v@);
        assert(nv =~= old_v.subrange(0, i as int).push(x@) + old_v.subrange(i as int, old_v.len() as int));
        assert forall|a: int, b: int| 0 <= a < b < nv.len() implies lex_lt(nv[a], nv[b]) by {
            if a < i && b == i {
            } else if a < i && b > i {
                assert(nv[b] == old_v[b - 1]);
                assert(lex_lt(old_v[a], old_v[b - 1]));
            } else if a == i && b > i {
                assert(nv[b] == old_v[b - 1]);
                if b - 1 > i {
                    assert(lex_lt(old_v[i as int], old_v[b - 1]));
                    lemma_lex_transitive(x@, old_v[i as int], old_v[b - 1]);
                }
            } else if a > i {
                assert(nv[a] == old_v[a - 1]);
                assert(nv[b] == old_v[b - 1]);
            } else {
                assert(nv[a] == old_v[a]);
                assert(nv[b] == old_v[b]);
            }
        }
        assert forall|t: Seq<char>| nv.to_set().contains(t) <==> old_v.to_set().insert(x@).contains(t) by {
            if nv.contains(t) {
                let k = choose|k: int| 0 <= k < nv.len() && nv[k] == t;
                if k < i {
                    assert(old_v[k] == t);
                } else if k > i {
                    assert(old_v[k - 1] == t);
                }
            }
            if old_v.contains(t) {
                let k = choose|k: int| 0 <= k < old_v.len() && old_v[k] == t;
                if k < i {
                    assert(nv[k] == t);
                } else {
                    assert(nv[k + 1] == t);
                }
            }
            if t == x@ {
                assert(nv[i as int] == t);
            }
        }
        assert(nv.to_set() =~= old_v.to_set().insert(x@));
    }
}

/// The names of a set, each once, in increasing order.
pub open spec fn sorted_names(s: Set<Seq<char>>) -> Seq<Seq<char>> {
    choose|q: Seq<Seq<char>>| strictly_sorted(q) && q.to_set() == s
}

/// Two strictly increasing sequences with the same names are the same.
pub proof fn lemma_sorted_unique(a: Seq<Seq<char>>, b: Seq<Seq<char>>)
    requires
        strictly_sorted(a),
        strictly_sorted(b),
        a.to_set() == b.to_set(),
    ensures
        a == b,
    decreases a.len() + b.len(),
{
    if a.len() == 0 || b.len() == 0 {
        if a.len() > 0 {
            assert(a.contains(a[0]));
            assert(b.to_set().contains(a[0]));
        }
        if b.len() > 0 {
            assert(b.contains(b[0]));
            assert(a.to_set().contains(b[0]));
        }
        assert(a =~= b);
    } else {
        assert(a.contains(a[0]));
        assert(b.to_set().contains(a[0]));
        let j = choose|j: int| 0 <= j < b.len() && b[j] == a[0];
        assert(b.contains(b[0]));
        assert(a.to_set().contains(b[0]));
        let k = choose|k: int| 0 <= k < a.len() && a[k] == b[0];
        if j > 0 {
            assert(lex_lt(b[0], b[j]));
            if k == 0 {
                lemma_lex_irreflexive(a[0]);
            } else {
                assert(lex_lt(a[0], a[k]));
                lemma_lex_transitive(a[0], a[k], a[0]);
                lemma_lex_irreflexive(a[0]);
            }
        }
        assert(a[0] == b[0]);
        let ta = a.drop_first();
        let tb = b.drop_first();
        assert forall|i: int, l: int| 0 <= i < l < ta.len() implies lex_lt(ta[i], ta[l]) by {
            assert(ta[i] == a[i + 1] && ta[l] == a[l + 1]);
        }
        assert forall|i: int, l: int| 0 <= i < l < tb.len() implies lex_lt(tb[i], tb[l]) by {
            assert(tb[i] == b[i + 1] && tb[l] == b[l + 1]);
        }
        assert forall|x: Seq<char>| ta.to_set().contains(x) <==> tb.to_set().contains(x) by {
            if ta.contains(x) {
                let i = choose|i: int| 0 <= i < ta.len() && ta[i] == x;
                assert(a[i + 1] == x);
                assert(a.contains(x));
                assert(b.to_set().contains(x));
                let l = choose|l: int| 0 <= l < b.len() && b[l] == x;
                assert(lex_lt(a[0], a[i + 1]));
                if l == 0 {
                    lemma_lex_irreflexive(x);
                }
                assert(tb[l - 1] == x);
                assert(tb.contains(x));
            }
            if tb.contains(x) {
                let i = choose|i: int| 0 <= i < tb.len() && tb[i] == x;
                assert(b[i + 1] == x);
                assert(b.contains(x));
                assert(a.to_set().contains(x));
                let l = choose|l: int| 0 <= l < a.len() && a[l] == x;
                assert(lex_lt(b[0], b[i + 1]));
                if l == 0 {
                    lemma_lex_irreflexive(x);
                }
                assert(ta[l - 1] == x);
                assert(ta.contains(x));
            }
        }
        assert(ta.to_set() =~= tb.to_set());
        lemma_sorted_unique(ta, tb);
        assert(a =~= seq![a[0]] + ta);
        assert(b =~= seq![b[0]] + tb);
    }
}

/// A strictly increasing sequence is the sorted list of its own names.
pub proof fn lemma_sorted_names(q: Seq<Seq<char>>)
    requires
        strictly_sorted(q),
    ensures
        sorted_names(q.to_set()) == q,
{
    let r = sorted_names(q.to_set());
    assert(strictly_sorted(r) && r.to_set() == q.to_set());
    lemma_sorted_unique(r, q);
}

// ---------------------------------------------------------------------------
// Keeping the order of equal keys
// ---------------------------------------------------------------------------

/// Whether an item's key is `k`.
pub open spec fn key_is<T>(key: spec_fn(T) -> Seq<char>, k: Seq<char>) -> spec_fn(T) -> bool {
    |x: T| key(x) == k
}

/// The items of `s` whose key is `k`, in order.
pub open spec fn with_key<T>(s: Seq<T>, key: spec_fn(T) -> Seq<char>, k: Seq<char>) -> Seq<T> {
    s.filter(key_is(key, k))
}

/// Appending an item appends it to the items with its key, and leaves the others.
pub proof fn lemma_with_key_push<T>(s: Seq<T>, x: T, key: spec_fn(T) -> Seq<char>, k: Seq<char>)
    ensures
        with_key(s.push(x), key, k) == if key(x) == k {
            with_key(s, key, k).push(x)
        } else {
            with_key(s, key, k)
        },
{
    reveal(Seq::filter);
    assert(s.push(x).drop_last() =~= s);
}

/// No item of `s` has key `k`: none is kept.
pub proof fn lemma_with_key_none<T>(s: Seq<T>, key: spec_fn(T) -> Seq<char>, k: Seq<char>)
    requires
        forall|m: int| 0 <= m < s.len() ==> key(#[trigger] s[m]) != k,
    ensures
        with_key(s, key, k) == Seq::<T>::empty(),
    decreases s.len(),
{
    reveal(Seq::filter);
    if s.len() > 0 {
        assert forall|m: int| 0 <= m < s.drop_last().len() implies key(#[trigger] s.drop_last()[m]) != k by {
            assert(s.drop_last()[m] == s[m]);
        }
        lemma_with_key_none(s.drop_last(), key, k);
    }
}

/// Inserting an item where every later item has another key adds it last
/// among the items with its key, and leaves the others as they were.
pub proof fn lemma_with_key_insert<T>(s: Seq<T>, p: int, x: T, key: spec_fn(T) -> Seq<char>, k: Seq<char>)
    requires
        0 <= p <= s.len(),
        forall|m: int| p <= m < s.len() ==> key(#[trigger] s[m]) != key(x),
    ensures
        with_key(s.insert(p, x), key, k) == if key(x) == k {
            with_key(s, key, k).push(x)
        } else {
            with_key(s, key, k)
        },
{
    let pred = key_is(key, k);
    let a = s.subrange(0, p);
    let b = s.subrange(p, s.len() as int);
    assert(s =~= a + b);
    assert(s.insert(p, x) =~= a.push(x) + b);
    Seq::filter_distributes_over_add(a, b, pred);
    Seq::filter_distributes_over_add(a.push(x), b, pred);
    lemma_with_key_push(a, x, key, k);
    if key(x) == k {
        assert forall|m: int| 0 <= m < b.len() implies key(#[trigger] b[m]) != k by {
            assert(b[m] == s[p + m]);
        }
        lemma_with_key_none(b, key, k);
        assert(with_key(b, key, k) =~= Seq::<T>::empty());
        assert(a.push(x).filter(pred) + b.filter(pred) =~= (a.filter(pred) + b.filter(pred)).push(x));
    }
}

} // verus!
