//! Operations on rows: finding one, keeping some, summing over them and ranking them.
use crate::text::chars_of;
use vstd::prelude::*;

verus! {

// ---- finding ---------------------------------------------------------------------------

/// The first row that satisfies `p` stands at `i`.
pub open spec fn first_at<T>(s: Seq<T>, p: spec_fn(T) -> bool, i: int) -> bool {
    0 <= i < s.len() && p(s[i]) && forall|k: int| 0 <= k < i ==> !p(#[trigger] s[k])
}

/// Where the first row that satisfies `p` stands.
pub open spec fn position<T>(s: Seq<T>, p: spec_fn(T) -> bool) -> Option<int> {
    if exists|i: int| first_at(s, p, i) {
        Some(choose|i: int| first_at(s, p, i))
    } else {
        None
    }
}

/// The first row that satisfies `p`.
pub open spec fn found<T>(s: Seq<T>, p: spec_fn(T) -> bool) -> Option<T> {
    match position(s, p) {
        Some(i) => Some(s[i]),
        None => None,
    }
}

/// Some row satisfies `p`.
pub open spec fn any<T>(s: Seq<T>, p: spec_fn(T) -> bool) -> bool {
    exists|i: int| 0 <= i < s.len() && p(#[trigger] s[i])
}

/// No two rows share a key.
pub open spec fn distinct<T, K>(s: Seq<T>, key: spec_fn(T) -> K) -> bool {
    forall|i: int, j: int| 0 <= i < j < s.len() ==> key(#[trigger] s[i]) != key(#[trigger] s[j])
}

/// Every row satisfies `p`.
pub open spec fn every<T>(s: Seq<T>, p: spec_fn(T) -> bool) -> bool {
    forall|i: int| 0 <= i < s.len() ==> p(#[trigger] s[i])
}

pub proof fn lemma_position<T>(s: Seq<T>, p: spec_fn(T) -> bool)
    ensures
        forall|i: int| #[trigger] first_at(s, p, i) ==> position(s, p) == Some(i),
        position(s, p) is None <==> !any(s, p),
        position(s, p) is Some ==> first_at(s, p, position(s, p)->0),
    decreases s.len(),
{
    if any(s, p) {
        let w = choose|i: int| 0 <= i < s.len() && p(#[trigger] s[i]);
        lemma_first(s, p, w);
    }
}

proof fn lemma_first<T>(s: Seq<T>, p: spec_fn(T) -> bool, w: int)
    requires
        0 <= w < s.len(),
        p(s[w]),
    ensures
        exists|i: int| first_at(s, p, i),
    decreases w,
{
    if exists|k: int| 0 <= k < w && p(#[trigger] s[k]) {
        let k = choose|k: int| 0 <= k < w && p(#[trigger] s[k]);
        lemma_first(s, p, k);
    } else {
        assert(first_at(s, p, w));
    }
}

/// A row that satisfies `p` is the one found, where `p` picks by a key that no two rows
/// share.
pub proof fn lemma_only<T, K>(s: Seq<T>, key: spec_fn(T) -> K, p: spec_fn(T) -> bool, k: K, i: int)
    requires
        distinct(s, key),
        forall|t: T| #[trigger] p(t) == (key(t) == k),
        0 <= i < s.len(),
        key(s[i]) == k,
    ensures
        position(s, p) == Some(i),
{
    lemma_position(s, p);
}

/// The index of the first row that satisfies the predicate.
pub fn find_row<T: DeepView, F: Fn(&T) -> bool>(
    v: &Vec<T>,
    pick: F,
    Ghost(p): Ghost<spec_fn(T::V) -> bool>,
) -> (r: Option<usize>)
    requires
        forall|t: &T| #[trigger] pick.requires((t,)),
        forall|t: &T, b: bool| #[trigger] pick.ensures((t,), b) ==> b == p(t.deep_view()),
    ensures
        match r {
            Some(i) => position(v.deep_view(), p) == Some(i as int) && i < v.len() && p(
                v@[i as int].deep_view(),
            ),
            None => position(v.deep_view(), p) is None && !any(v.deep_view(), p),
        },
{
    let mut i: usize = 0;
    let ghost s = v.deep_view();
    while i < v.len()
        invariant
            s == v.deep_view(),
            i <= v.len(),
            forall|t: &T| #[trigger] pick.requires((t,)),
            forall|t: &T, b: bool| #[trigger] pick.ensures((t,), b) ==> b == p(t.deep_view()),
            forall|k: int| 0 <= k < i ==> !p(#[trigger] s[k]),
        decreases v.len() - i,
    {
        if pick(&v[i]) {
            proof {
                assert(first_at(s, p, i as int));
            }
            return Some(i);
        }
        i += 1;
    }
    None
}

// ---- keeping ----------------------------------------------------------------------------

/// The rows that satisfy `p`, in order.
pub open spec fn kept<T>(s: Seq<T>, p: spec_fn(T) -> bool) -> Seq<T>
    decreases s.len(),
{
    if s.len() == 0 {
        s
    } else {
        let rest = kept(s.drop_last(), p);
        if p(s.last()) {
            rest.push(s.last())
        } else {
            rest
        }
    }
}

/// The `i`-th kept row comes from a row of `s`, and the order is that of `s`.
pub proof fn lemma_kept<T>(s: Seq<T>, p: spec_fn(T) -> bool)
    ensures
        kept(s, p).len() <= s.len(),
        every(kept(s, p), p),
        forall|i: int| 0 <= i < kept(s, p).len() ==> s.contains(#[trigger] kept(s, p)[i]),
        forall|t: T| s.contains(t) && p(t) ==> #[trigger] kept(s, p).contains(t),
    decreases s.len(),
{
    if s.len() > 0 {
        let init = s.drop_last();
        lemma_kept(init, p);
        let k = kept(s, p);
        let rest = kept(init, p);
        assert forall|t: T| s.contains(t) && p(t) implies #[trigger] k.contains(t) by {
            let j = choose|j: int| 0 <= j < s.len() && s[j] == t;
            if j < init.len() {
                assert(init[j] == t);
                assert(rest.contains(t));
                let m = choose|m: int| 0 <= m < rest.len() && rest[m] == t;
                assert(k[m] == t);
            } else {
                assert(k[k.len() - 1] == t);
            }
        }
    }
}

/// What is kept of the rows is what a filter leaves of them.
pub proof fn lemma_kept_is_filter<T>(s: Seq<T>, p: spec_fn(T) -> bool, q: spec_fn(T) -> bool)
    requires
        forall|i: int| 0 <= i < s.len() ==> p(#[trigger] s[i]) == q(s[i]),
    ensures
        kept(s, p) == s.filter(q),
    decreases s.len(),
{
    reveal(Seq::filter);
    if s.len() > 0 {
        let init = s.drop_last();
        assert forall|i: int| 0 <= i < init.len() implies p(#[trigger] init[i]) == q(init[i]) by {
            assert(init[i] == s[i]);
        }
        lemma_kept_is_filter(init, p, q);
        assert(s.last() == s[s.len() - 1]);
    } else {
        assert(kept(s, p) =~= s.filter(q));
    }
}

/// Keys that are distinct stay distinct when only some rows are kept.
pub proof fn lemma_kept_distinct<T, K>(s: Seq<T>, p: spec_fn(T) -> bool, key: spec_fn(T) -> K)
    requires
        distinct(s, key),
    ensures
        distinct(kept(s, p), key),
    decreases s.len(),
{
    if s.len() > 0 {
        let init = s.drop_last();
        lemma_kept_distinct(init, p, key);
        lemma_kept(init, p);
    }
}

/// What holds of every two rows holds of every two kept rows.
pub proof fn lemma_kept_ordered<T>(
    s: Seq<T>,
    p: spec_fn(T) -> bool,
    rel: spec_fn(T, T) -> bool,
)
    requires
        ordered(s, rel),
    ensures
        ordered(kept(s, p), rel),
    decreases s.len(),
{
    if s.len() > 0 {
        let init = s.drop_last();
        lemma_kept_ordered(init, p, rel);
        lemma_kept(init, p);
    }
}

/// A property of every row is a property of every kept row.
pub proof fn lemma_kept_every<T>(s: Seq<T>, p: spec_fn(T) -> bool, q: spec_fn(T) -> bool)
    requires
        every(s, q),
    ensures
        every(kept(s, p), q),
{
    lemma_kept(s, p);
}

proof fn lemma_kept_step<T>(s: Seq<T>, p: spec_fn(T) -> bool, i: int)
    requires
        0 <= i < s.len(),
    ensures
        kept(s.take(i + 1), p) == if p(s[i]) {
            kept(s.take(i), p).push(s[i])
        } else {
            kept(s.take(i), p)
        },
{
    let next = s.take(i + 1);
    assert(next.drop_last() =~= s.take(i));
}

/// Drops every row that does not satisfy the predicate.
pub fn retain_rows<T: DeepView, F: Fn(&T) -> bool>(
    v: &mut Vec<T>,
    keep: F,
    Ghost(p): Ghost<spec_fn(T::V) -> bool>,
)
    requires
        forall|t: &T| #[trigger] keep.requires((t,)),
        forall|t: &T, b: bool| #[trigger] keep.ensures((t,), b) ==> b == p(t.deep_view()),
    ensures
        final(v).deep_view() == kept(old(v).deep_view(), p),
{
    let ghost s = v.deep_view();
    let ghost mut read: int = 0;
    let mut at: usize = 0;
    while at < v.len()
        invariant
            0 <= read <= s.len(),
            at <= v@.len(),
            at == kept(s.take(read), p).len(),
            v.deep_view() == kept(s.take(read), p) + s.skip(read),
            forall|t: &T| #[trigger] keep.requires((t,)),
            forall|t: &T, b: bool| #[trigger] keep.ensures((t,), b) ==> b == p(t.deep_view()),
        decreases v@.len() - at,
    {
        let ghost before = v.deep_view();
        assert(before[at as int] == v@[at as int].deep_view());
        proof {
            lemma_kept_step(s, p, read);
        }
        if keep(&v[at]) {
            at += 1;
        } else {
            let _gone = v.remove(at);
            assert(v.deep_view() =~= before.remove(at as int));
        }
        proof {
            read = read + 1;
        }
    }
    proof {
        assert(s.take(read) =~= s);
    }
}

/// What `g` picks from the rows, in order.
pub open spec fn picked<T, U>(s: Seq<T>, g: spec_fn(T) -> Option<U>) -> Seq<U>
    decreases s.len(),
{
    if s.len() == 0 {
        Seq::empty()
    } else {
        let rest = picked(s.drop_last(), g);
        match g(s.last()) {
            Some(u) => rest.push(u),
            None => rest,
        }
    }
}

/// Collects what the function picks from the rows.
pub fn pick_rows<T: DeepView, U: DeepView, F: Fn(&T) -> Option<U>>(
    v: &Vec<T>,
    pick: F,
    Ghost(g): Ghost<spec_fn(T::V) -> Option<U::V>>,
) -> (out: Vec<U>)
    requires
        forall|t: &T| #[trigger] pick.requires((t,)),
        forall|t: &T, u: Option<U>| #[trigger]
            pick.ensures((t,), u) ==> u.deep_view() == g(t.deep_view()),
    ensures
        out.deep_view() == picked(v.deep_view(), g),
{
    let ghost s = v.deep_view();
    let mut out: Vec<U> = Vec::new();
    let mut i: usize = 0;
    while i < v.len()
        invariant
            s == v.deep_view(),
            i <= v.len(),
            forall|t: &T| #[trigger] pick.requires((t,)),
            forall|t: &T, u: Option<U>| #[trigger]
                pick.ensures((t,), u) ==> u.deep_view() == g(t.deep_view()),
            out.deep_view() == picked(s.take(i as int), g),
        decreases v.len() - i,
    {
        let ghost next = s.take(i + 1);
        assert(next.drop_last() =~= s.take(i as int));
        match pick(&v[i]) {
            Some(u) => {
                out.push(u);
            },
            None => {},
        }
        i += 1;
    }
    assert(s.take(s.len() as int) =~= s);
    out
}

// ---- summing ------------------------------------------------------------------------------

/// The sum of `w` over the rows.
pub open spec fn total<T>(s: Seq<T>, w: spec_fn(T) -> int) -> int
    decreases s.len(),
{
    if s.len() == 0 {
        0
    } else {
        total(s.drop_last(), w) + w(s.last())
    }
}

/// The number of rows that satisfy `p`.
pub open spec fn tally<T>(s: Seq<T>, p: spec_fn(T) -> bool) -> int {
    total(
        s,
        |t: T|
            if p(t) {
                1
            } else {
                0
            },
    )
}

/// Replacing one row changes the sum by the difference of the two weights.
pub proof fn lemma_total_update<T>(s: Seq<T>, w: spec_fn(T) -> int, i: int, t: T)
    requires
        0 <= i < s.len(),
    ensures
        total(s.update(i, t), w) == total(s, w) - w(s[i]) + w(t),
    decreases s.len(),
{
    let u = s.update(i, t);
    if i == s.len() - 1 {
        assert(u.drop_last() =~= s.drop_last());
    } else {
        assert(u.drop_last() =~= s.drop_last().update(i, t));
        lemma_total_update(s.drop_last(), w, i, t);
    }
}

/// Adding one row adds its weight.
pub proof fn lemma_total_push<T>(s: Seq<T>, w: spec_fn(T) -> int, t: T)
    ensures
        total(s.push(t), w) == total(s, w) + w(t),
{
    assert(s.push(t).drop_last() =~= s);
}

/// Two weights that agree on every row have the same sum.
pub proof fn lemma_total_same<T>(s: Seq<T>, w: spec_fn(T) -> int, x: spec_fn(T) -> int)
    requires
        forall|i: int| 0 <= i < s.len() ==> w(#[trigger] s[i]) == x(s[i]),
    ensures
        total(s, w) == total(s, x),
    decreases s.len(),
{
    if s.len() > 0 {
        let init = s.drop_last();
        lemma_total_same(init, w, x);
    }
}

/// Weights that split add up.
pub proof fn lemma_total_split<T>(
    s: Seq<T>,
    w: spec_fn(T) -> int,
    x: spec_fn(T) -> int,
    y: spec_fn(T) -> int,
)
    requires
        forall|i: int| 0 <= i < s.len() ==> w(#[trigger] s[i]) == x(s[i]) + y(s[i]),
    ensures
        total(s, w) == total(s, x) + total(s, y),
    decreases s.len(),
{
    if s.len() > 0 {
        let init = s.drop_last();
        lemma_total_split(init, w, x, y);
    }
}

/// Sums a weight over the rows.
pub fn sum_rows<T: DeepView, F: Fn(&T) -> i64>(
    v: &Vec<T>,
    weigh: F,
    Ghost(w): Ghost<spec_fn(T::V) -> int>,
) -> (r: i128)
    requires
        forall|t: &T| #[trigger] weigh.requires((t,)),
        forall|t: &T, n: i64| #[trigger] weigh.ensures((t,), n) ==> n == w(t.deep_view()),
    ensures
        r == total(v.deep_view(), w),
{
    let ghost s = v.deep_view();
    let mut acc: i128 = 0;
    let mut i: usize = 0;
    while i < v.len()
        invariant
            s == v.deep_view(),
            i <= v.len(),
            forall|t: &T| #[trigger] weigh.requires((t,)),
            forall|t: &T, n: i64| #[trigger] weigh.ensures((t,), n) ==> n == w(t.deep_view()),
            acc == total(s.take(i as int), w),
            -(i * 0x8000_0000_0000_0000) <= acc <= i * 0x8000_0000_0000_0000,
        decreases v.len() - i,
    {
        let n: i64 = weigh(&v[i]);
        let ghost next = s.take(i + 1);
        assert(next.drop_last() =~= s.take(i as int));
        acc = acc + n as i128;
        i += 1;
    }
    assert(s.take(s.len() as int) =~= s);
    acc
}

/// `n` as a 64-bit number, where it is one.
pub fn fit_i64(n: i128) -> (r: Option<i64>)
    ensures
        r is Some <==> i64::MIN <= n <= i64::MAX,
        r is Some ==> r->0 == n,
{
    if n < i64::MIN as i128 || n > i64::MAX as i128 {
        None
    } else {
        Some(n as i64)
    }
}

/// `n` is a 64-bit number.
pub open spec fn fits(n: int) -> bool {
    i64::MIN <= n <= i64::MAX
}

// ---- ranking ------------------------------------------------------------------------------

/// Text order: by code point, a prefix before what it begins.
pub open spec fn text_le(a: Seq<char>, b: Seq<char>) -> bool
    decreases a.len(),
{
    if a.len() == 0 {
        true
    } else if b.len() == 0 {
        false
    } else if a[0] != b[0] {
        a[0] < b[0]
    } else {
        text_le(a.skip(1), b.skip(1))
    }
}

pub proof fn lemma_text_le_total(a: Seq<char>, b: Seq<char>)
    ensures
        text_le(a, b) || text_le(b, a),
    decreases a.len(),
{
    if a.len() > 0 && b.len() > 0 && a[0] == b[0] {
        lemma_text_le_total(a.skip(1), b.skip(1));
    }
}

pub proof fn lemma_text_le_transitive(a: Seq<char>, b: Seq<char>, c: Seq<char>)
    requires
        text_le(a, b),
        text_le(b, c),
    ensures
        text_le(a, c),
    decreases a.len(),
{
    if a.len() > 0 && b.len() > 0 && c.len() > 0 && a[0] == b[0] && b[0] == c[0] {
        lemma_text_le_transitive(a.skip(1), b.skip(1), c.skip(1));
    }
}

pub proof fn lemma_text_le_antisymmetric(a: Seq<char>, b: Seq<char>)
    requires
        text_le(a, b),
        text_le(b, a),
    ensures
        a == b,
    decreases a.len(),
{
    if a.len() > 0 && b.len() > 0 {
        lemma_text_le_antisymmetric(a.skip(1), b.skip(1));
        assert(b =~= seq![b[0]] + b.skip(1));
    }
}

/// Whether `a` stands before `b` in text order, or is the same text.
pub fn str_le(a: &str, b: &str) -> (r: bool)
    ensures
        r == text_le(a@, b@),
{
    let x = chars_of(a);
    let y = chars_of(b);
    let mut i: usize = 0;
    assert(a@.skip(0) =~= a@ && b@.skip(0) =~= b@);
    while i < x.len() && i < y.len() && x[i] == y[i]
        invariant
            x@ == a@,
            y@ == b@,
            i <= x.len(),
            i <= y.len(),
            text_le(a@, b@) == text_le(a@.skip(i as int), b@.skip(i as int)),
        decreases x.len() - i,
    {
        assert(a@.skip(i as int).skip(1) =~= a@.skip(i + 1));
        assert(b@.skip(i as int).skip(1) =~= b@.skip(i + 1));
        i += 1;
    }
    if i >= x.len() {
        true
    } else if i >= y.len() {
        false
    } else {
        x[i] < y[i]
    }
}

/// Newest first: the later stamp first, and of equal stamps the later id.
pub open spec fn later(a: Seq<char>, a_id: Seq<char>, b: Seq<char>, b_id: Seq<char>) -> bool {
    if a != b {
        text_le(b, a)
    } else {
        text_le(b_id, a_id)
    }
}

pub proof fn lemma_later_total(a: Seq<char>, a_id: Seq<char>, b: Seq<char>, b_id: Seq<char>)
    ensures
        later(a, a_id, b, b_id) || later(b, b_id, a, a_id),
{
    lemma_text_le_total(a, b);
    lemma_text_le_total(a_id, b_id);
}

pub proof fn lemma_later_transitive(
    a: Seq<char>,
    a_id: Seq<char>,
    b: Seq<char>,
    b_id: Seq<char>,
    c: Seq<char>,
    c_id: Seq<char>,
)
    requires
        later(a, a_id, b, b_id),
        later(b, b_id, c, c_id),
    ensures
        later(a, a_id, c, c_id),
{
    if a == b && b == c {
        lemma_text_le_transitive(c_id, b_id, a_id);
    } else if a != b && b != c {
        lemma_text_le_transitive(c, b, a);
        if a == c {
            lemma_text_le_antisymmetric(a, b);
        }
    }
}

/// Whether the first row stands before the second, newest first.
pub fn is_later(a: &str, a_id: &str, b: &str, b_id: &str) -> (r: bool)
    ensures
        r == later(a@, a_id@, b@, b_id@),
{
    if !crate::text::str_eq(a, b) {
        str_le(b, a)
    } else {
        str_le(b_id, a_id)
    }
}

/// Every earlier row may stand before every later one.
pub open spec fn ordered<T>(s: Seq<T>, le: spec_fn(T, T) -> bool) -> bool {
    forall|i: int, j: int| 0 <= i < j < s.len() ==> le(#[trigger] s[i], #[trigger] s[j])
}

/// Any two rows can be compared, and the comparison chains.
pub open spec fn comparable<T>(le: spec_fn(T, T) -> bool) -> bool {
    &&& forall|a: T, b: T| #[trigger] le(a, b) || le(b, a)
    &&& forall|a: T, b: T, c: T| #[trigger] le(a, b) && #[trigger] le(b, c) ==> le(a, c)
}

/// `out` holds the rows of `all`, each as often, in order.
pub open spec fn ranking<T>(all: Seq<T>, out: Seq<T>, le: spec_fn(T, T) -> bool) -> bool {
    ordered(out, le) && out.to_multiset() == all.to_multiset()
}

/// `out` is the first page of a ranking of `all`: at most `limit` rows.
pub open spec fn first_page<T>(
    all: Seq<T>,
    out: Seq<T>,
    le: spec_fn(T, T) -> bool,
    limit: int,
) -> bool {
    exists|full: Seq<T>| #[trigger]
        ranking(all, full, le) && out == full.take(
            if full.len() <= limit {
                full.len() as int
            } else {
                limit
            },
        )
}

/// Sorts the rows.
pub fn sort_rows<T: DeepView, F: Fn(&T, &T) -> bool>(
    v: &mut Vec<T>,
    le: F,
    Ghost(l): Ghost<spec_fn(T::V, T::V) -> bool>,
)
    requires
        comparable(l),
        forall|a: &T, b: &T| #[trigger] le.requires((a, b)),
        forall|a: &T, b: &T, r: bool|
            #[trigger] le.ensures((a, b), r) ==> r == l(a.deep_view(), b.deep_view()),
    ensures
        ranking(old(v).deep_view(), final(v).deep_view(), l),
{
    broadcast use vstd::seq_lib::group_to_multiset_ensures;

    let ghost all = v.deep_view();
    let mut i: usize = 0;
    while i < v.len()
        invariant
            comparable(l),
            forall|a: &T, b: &T| #[trigger] le.requires((a, b)),
            forall|a: &T, b: &T, r: bool|
                #[trigger] le.ensures((a, b), r) ==> r == l(a.deep_view(), b.deep_view()),
            i <= v.len(),
            v.deep_view().to_multiset() == all.to_multiset(),
            ordered(v.deep_view().take(i as int), l),
        decreases v.len() - i,
    {
        let ghost before = v.deep_view();
        let x = v.remove(i);
        let ghost xv = x.deep_view();
        let ghost mid = v.deep_view();
        assert(mid =~= before.remove(i as int));
        let mut j: usize = 0;
        while j < i && le(&v[j], &x)
            invariant
                forall|a: &T, b: &T| #[trigger] le.requires((a, b)),
                forall|a: &T, b: &T, r: bool|
                    #[trigger] le.ensures((a, b), r) ==> r == l(a.deep_view(), b.deep_view()),
                j <= i <= v.len(),
                mid == v.deep_view(),
                xv == x.deep_view(),
                forall|k: int| 0 <= k < j ==> l(#[trigger] mid[k], xv),
            decreases i - j,
        {
            j += 1;
        }
        assert(j < i ==> l(xv, mid[j as int]));
        v.insert(j, x);
        let ghost after = v.deep_view();
        assert(after =~= mid.insert(j as int, xv));
        proof {
            vstd::seq_lib::to_multiset_remove(before, i as int);
            vstd::seq_lib::to_multiset_insert(mid, j as int, xv);
            assert(before.to_multiset().count(xv) > 0) by {
                vstd::seq_lib::to_multiset_contains(before, xv);
            }
        }
        i += 1;
    }
    assert(v.deep_view().take(v@.len() as int) =~= v.deep_view());
}

// ---- checking ------------------------------------------------------------------------------

/// Whether the predicate holds of every row.
pub fn all_rows<T: DeepView, F: Fn(&T) -> bool>(
    v: &Vec<T>,
    good: F,
    Ghost(p): Ghost<spec_fn(T::V) -> bool>,
) -> (r: bool)
    requires
        forall|t: &T| #[trigger] good.requires((t,)),
        forall|t: &T, b: bool| #[trigger] good.ensures((t,), b) ==> b == p(t.deep_view()),
    ensures
        r == every(v.deep_view(), p),
{
    let ghost s = v.deep_view();
    let mut i: usize = 0;
    while i < v.len()
        invariant
            s == v.deep_view(),
            i <= v.len(),
            forall|t: &T| #[trigger] good.requires((t,)),
            forall|t: &T, b: bool| #[trigger] good.ensures((t,), b) ==> b == p(t.deep_view()),
            forall|k: int| 0 <= k < i ==> p(#[trigger] s[k]),
        decreases v.len() - i,
    {
        assert(s[i as int] == v@[i as int].deep_view());
        if !good(&v[i]) {
            return false;
        }
        i += 1;
    }
    true
}

/// Whether the relation holds of every row and every later one.
pub fn all_pairs<T: DeepView, F: Fn(&T, &T) -> bool>(
    v: &Vec<T>,
    good: F,
    Ghost(rel): Ghost<spec_fn(T::V, T::V) -> bool>,
) -> (r: bool)
    requires
        forall|a: &T, b: &T| #[trigger] good.requires((a, b)),
        forall|a: &T, b: &T, r: bool|
            #[trigger] good.ensures((a, b), r) ==> r == rel(a.deep_view(), b.deep_view()),
    ensures
        r == ordered(v.deep_view(), rel),
{
    let ghost s = v.deep_view();
    let mut i: usize = 0;
    while i < v.len()
        invariant
            s == v.deep_view(),
            i <= v.len(),
            forall|a: &T, b: &T| #[trigger] good.requires((a, b)),
            forall|a: &T, b: &T, r: bool|
                #[trigger] good.ensures((a, b), r) ==> r == rel(a.deep_view(), b.deep_view()),
            forall|p: int, q: int|
                0 <= p < i && p < q < s.len() ==> rel(#[trigger] s[p], #[trigger] s[q]),
        decreases v.len() - i,
    {
        let mut j: usize = i + 1;
        while j < v.len()
            invariant
                s == v.deep_view(),
                i < v.len(),
                i < j <= v.len(),
                forall|a: &T, b: &T| #[trigger] good.requires((a, b)),
                forall|a: &T, b: &T, r: bool|
                    #[trigger] good.ensures((a, b), r) ==> r == rel(a.deep_view(), b.deep_view()),
                forall|q: int| i < q < j ==> rel(s[i as int], #[trigger] s[q]),
            decreases v.len() - j,
        {
            assert(s[i as int] == v@[i as int].deep_view());
            assert(s[j as int] == v@[j as int].deep_view());
            if !good(&v[i], &v[j]) {
                return false;
            }
            j += 1;
        }
        i += 1;
    }
    true
}

} // verus!
