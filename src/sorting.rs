//! Ordering of a snapshot's lists by callsign.

use vstd::multiset::Multiset;
use vstd::prelude::*;

use crate::models::{Controller, Pilot, V3ResponseData};

verus! {

/// Lexicographic order of texts by code point: `a` sorts strictly before `b`.
pub open spec fn text_lt(a: Seq<char>, b: Seq<char>) -> bool
    decreases a.len(),
{
    if a.len() == 0 {
        b.len() > 0
    } else if b.len() == 0 {
        false
    } else if a[0] != b[0] {
        a[0] < b[0]
    } else {
        text_lt(a.drop_first(), b.drop_first())
    }
}

proof fn lemma_text_lt_asym(a: Seq<char>, b: Seq<char>)
    requires
        text_lt(a, b),
    ensures
        !text_lt(b, a),
    decreases a.len(),
{
    if a.len() > 0 && b.len() > 0 && a[0] == b[0] {
        lemma_text_lt_asym(a.drop_first(), b.drop_first());
    }
}

proof fn lemma_text_lt_trans(a: Seq<char>, b: Seq<char>, c: Seq<char>)
    requires
        text_lt(a, b),
        text_lt(b, c),
    ensures
        text_lt(a, c),
    decreases a.len(),
{
    if a.len() > 0 && b.len() > 0 && c.len() > 0 && a[0] == b[0] && b[0] == c[0] {
        lemma_text_lt_trans(a.drop_first(), b.drop_first(), c.drop_first());
    }
}

proof fn lemma_text_lt_total(a: Seq<char>, b: Seq<char>)
    ensures
        text_lt(a, b) || text_lt(b, a) || a == b,
    decreases a.len(),
{
    if a.len() > 0 && b.len() > 0 && a[0] == b[0] {
        lemma_text_lt_total(a.drop_first(), b.drop_first());
        if a.drop_first() == b.drop_first() {
            assert(a =~= seq![a[0]] + a.drop_first());
            assert(b =~= seq![b[0]] + b.drop_first());
        }
    } else if a.len() == 0 && b.len() == 0 {
        assert(a =~= b);
    }
}

/// Whether `a` sorts strictly before `b`.
pub fn text_less(a: &str, b: &str) -> (r: bool)
    ensures
        r == text_lt(a@, b@),
{
    let n = a.unicode_len();
    let m = b.unicode_len();
    let mut i: usize = 0;
    assert(a@.skip(0) =~= a@);
    assert(b@.skip(0) =~= b@);
    while i < n && i < m
        invariant
            n == a@.len(),
            m == b@.len(),
            i <= n,
            i <= m,
            text_lt(a@, b@) == text_lt(a@.skip(i as int), b@.skip(i as int)),
        decreases n - i,
    {
        let x = a.get_char(i);
        let y = b.get_char(i);
        if x != y {
            return x < y;
        }
        assert(a@.skip(i as int).drop_first() =~= a@.skip(i + 1));
        assert(b@.skip(i as int).drop_first() =~= b@.skip(i + 1));
        i = i + 1;
    }
    i < m && i == n
}

/// An entity listed by callsign.
pub trait Callsigned {
    /// The text of the callsign.
    spec fn callsign_text(&self) -> Seq<char>;

    /// The callsign.
    fn callsign_str(&self) -> (r: &str)
        ensures
            r@ == self.callsign_text(),
    ;
}

impl Callsigned for Pilot {
    open spec fn callsign_text(&self) -> Seq<char> {
        self.callsign@
    }

    fn callsign_str(&self) -> (r: &str) {
        self.callsign.as_str()
    }
}

impl Callsigned for Controller {
    open spec fn callsign_text(&self) -> Seq<char> {
        self.callsign@
    }

    fn callsign_str(&self) -> (r: &str) {
        self.callsign.as_str()
    }
}

/// `s` is ordered by callsign: no entity sorts before one ahead of it.
pub open spec fn sorted_by_callsign<T: Callsigned>(s: Seq<T>) -> bool {
    forall|i: int, j: int|
        0 <= i < j < s.len() ==> !text_lt(#[trigger] s[j].callsign_text(), #[trigger] s[i].callsign_text())
}

/// The entities of `s` whose callsign is `k`, in their order in `s`.
pub open spec fn with_callsign<T: Callsigned>(s: Seq<T>, k: Seq<char>) -> Seq<T> {
    s.filter(|y: T| y.callsign_text() == k)
}

proof fn lemma_with_callsign_none<T: Callsigned>(s: Seq<T>, k: Seq<char>)
    requires
        forall|j: int| 0 <= j < s.len() ==> #[trigger] s[j].callsign_text() != k,
    ensures
        with_callsign(s, k) == Seq::<T>::empty(),
    decreases s.len(),
{
    reveal(Seq::filter);
    if s.len() > 0 {
        let d = s.drop_last();
        assert forall|j: int| 0 <= j < d.len() implies #[trigger] d[j].callsign_text() != k by {
            assert(s[j].callsign_text() != k);
        }
        lemma_with_callsign_none(d, k);
        assert(s.last().callsign_text() != k);
    }
    assert(with_callsign(s, k) =~= Seq::<T>::empty());
}

proof fn lemma_with_callsign_front<T: Callsigned>(x: T, s: Seq<T>, k: Seq<char>)
    ensures
        with_callsign(seq![x] + s, k) == if x.callsign_text() == k {
            seq![x] + with_callsign(s, k)
        } else {
            with_callsign(s, k)
        },
{
    let pred = |y: T| y.callsign_text() == k;
    Seq::filter_distributes_over_add(seq![x], s, pred);
    reveal_with_fuel(Seq::filter, 2);
    assert(seq![x].drop_last() =~= Seq::<T>::empty());
    if x.callsign_text() == k {
        assert(seq![x].filter(pred) =~= seq![x]);
    } else {
        assert(seq![x].filter(pred) =~= Seq::<T>::empty());
        assert(Seq::<T>::empty() + s.filter(pred) =~= s.filter(pred));
    }
}

/// Inserting `x` after entities that all sort strictly before it puts it
/// first among those with its callsign, and leaves the others as they were.
proof fn lemma_with_callsign_insert<T: Callsigned>(out: Seq<T>, p: int, x: T, k: Seq<char>)
    requires
        0 <= p <= out.len(),
        forall|j: int| 0 <= j < p ==> text_lt(#[trigger] out[j].callsign_text(), x.callsign_text()),
    ensures
        with_callsign(out.insert(p, x), k) == if x.callsign_text() == k {
            seq![x] + with_callsign(out, k)
        } else {
            with_callsign(out, k)
        },
{
    let pred = |y: T| y.callsign_text() == k;
    let a = out.subrange(0, p);
    let b = out.subrange(p, out.len() as int);
    assert(out.insert(p, x) =~= a + (seq![x] + b));
    assert(out =~= a + b);
    Seq::filter_distributes_over_add(a, seq![x] + b, pred);
    Seq::filter_distributes_over_add(a, b, pred);
    lemma_with_callsign_front(x, b, k);
    if x.callsign_text() == k {
        assert forall|j: int| 0 <= j < a.len() implies #[trigger] a[j].callsign_text() != k by {
            lemma_text_lt_asym(a[j].callsign_text(), x.callsign_text());
        }
        lemma_with_callsign_none(a, k);
        assert(with_callsign(a, k) + (seq![x] + with_callsign(b, k)) =~= seq![x] + with_callsign(b, k));
        assert(with_callsign(a, k) + with_callsign(b, k) =~= with_callsign(b, k));
    }
}

/// Sort a list by callsign. Entities with equal callsigns keep their order.
pub fn sort_by_callsign<T: Callsigned>(v: &mut Vec<T>)
    ensures
        sorted_by_callsign(final(v)@),
        forall|k: Seq<char>| #[trigger] with_callsign(final(v)@, k) == with_callsign(old(v)@, k),
        final(v)@.to_multiset() == old(v)@.to_multiset(),
{
    broadcast use vstd::seq_lib::group_to_multiset_ensures;

    let mut out: Vec<T> = Vec::new();
    while v.len() > 0
        invariant
            sorted_by_callsign(out@),
            v@.to_multiset().add(out@.to_multiset()) == old(v)@.to_multiset(),
            v@.len() <= old(v)@.len(),
            v@ == old(v)@.subrange(0, v@.len() as int),
            forall|k: Seq<char>| #[trigger] with_callsign(out@, k) == with_callsign(
                old(v)@.subrange(v@.len() as int, old(v)@.len() as int),
                k,
            ),
        decreases v@.len(),
    {
        let ghost before = v@;
        let x = v.pop().unwrap();
        assert(before =~= v@.push(x));
        let ghost n = old(v)@.len() as int;
        let ghost m = v@.len() as int;
        assert(v@ =~= old(v)@.subrange(0, m));
        assert(old(v)@.subrange(m, n) =~= seq![x] + old(v)@.subrange(m + 1, n));
        let mut p: usize = 0;
        while p < out.len() && text_less(out[p].callsign_str(), x.callsign_str())
            invariant
                p <= out@.len(),
                forall|k: int| 0 <= k < p ==> text_lt(#[trigger] out@[k].callsign_text(), x.callsign_text()),
            decreases out@.len() - p,
        {
            p = p + 1;
        }
        let ghost prev = out@;
        out.insert(p, x);
        proof {
            vstd::seq_lib::to_multiset_insert(prev, p as int, x);
            vstd::seq_lib::to_multiset_build(v@, x);
            assert(v@.to_multiset().add(out@.to_multiset()) =~= old(v)@.to_multiset());
            assert forall|k: Seq<char>| #[trigger] with_callsign(out@, k) == with_callsign(
                old(v)@.subrange(m, n),
                k,
            ) by {
                lemma_with_callsign_insert(prev, p as int, x, k);
                lemma_with_callsign_front(x, old(v)@.subrange(m + 1, n), k);
            }
        }
        assert forall|i: int, j: int| 0 <= i < j < out@.len() implies !text_lt(
            #[trigger] out@[j].callsign_text(),
            #[trigger] out@[i].callsign_text(),
        ) by {
            let xk = x.callsign_text();
            if i < p && j == p {
                lemma_text_lt_asym(prev[i].callsign_text(), xk);
            } else if i == p && j > p {
                let b = prev[p as int].callsign_text();
                let c = prev[j - 1].callsign_text();
                // x <= b <= c
                if text_lt(c, xk) {
                    lemma_text_lt_total(b, xk);
                    lemma_text_lt_total(c, b);
                    if text_lt(b, c) {
                        lemma_text_lt_trans(b, c, xk);
                    } else if text_lt(c, b) {
                        assert(j - 1 > p);
                    }
                }
            } else if i < p && j > p {
                assert(!text_lt(prev[j - 1].callsign_text(), prev[i].callsign_text()));
            } else if j < p {
            } else {
                assert(!text_lt(prev[j - 1].callsign_text(), prev[i - 1].callsign_text()));
            }
        }
    }
    assert(v@.to_multiset() =~= Multiset::empty());
    assert(old(v)@.subrange(0, old(v)@.len() as int) =~= old(v)@);
    *v = out;
}

/// Order both lists of a snapshot by callsign; entities with equal
/// callsigns keep their order.
pub fn sort_snapshot(data: &mut V3ResponseData)
    ensures
        sorted_by_callsign(final(data).pilots@),
        sorted_by_callsign(final(data).controllers@),
        forall|k: Seq<char>|
            #[trigger] with_callsign(final(data).pilots@, k) == with_callsign(old(data).pilots@, k),
        forall|k: Seq<char>|
            #[trigger] with_callsign(final(data).controllers@, k) == with_callsign(
                old(data).controllers@,
                k,
            ),
        final(data).pilots@.to_multiset() == old(data).pilots@.to_multiset(),
        final(data).controllers@.to_multiset() == old(data).controllers@.to_multiset(),
        final(data).general == old(data).general,
        final(data).facilities == old(data).facilities,
        final(data).ratings == old(data).ratings,
{
    sort_by_callsign(&mut data.pilots);
    sort_by_callsign(&mut data.controllers);
}

} // verus!
