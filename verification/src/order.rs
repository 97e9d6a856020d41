//! Stable ordering of listings by a text key, as `sort_by` on `String`
//! keys orders them (character by character, by code point).

use vstd::prelude::*;

verus! {

/// `a < b` in the order of `String`: the first differing character decides,
/// and a proper prefix comes first.
pub open spec fn lex_lt(a: Seq<char>, b: Seq<char>) -> bool
    decreases a.len(),
{
    if a.len() == 0 {
        b.len() > 0
    } else if b.len() == 0 {
        false
    } else if a[0] != b[0] {
        a[0] < b[0]
    } else {
        lex_lt(a.drop_first(), b.drop_first())
    }
}

pub proof fn lemma_lex_trichotomy(a: Seq<char>, b: Seq<char>)
    ensures
        lex_lt(a, b) || lex_lt(b, a) || a == b,
        !(lex_lt(a, b) && lex_lt(b, a)),
        lex_lt(a, b) ==> a != b,
    decreases a.len(),
{
    if a.len() > 0 && b.len() > 0 {
        if a[0] == b[0] {
            lemma_lex_trichotomy(a.drop_first(), b.drop_first());
            if a.drop_first() == b.drop_first() {
                assert(a == seq![a[0]] + a.drop_first());
                assert(b == seq![b[0]] + b.drop_first());
            }
        }
    } else if a.len() == 0 && b.len() == 0 {
        assert(a == b);
    }
}

pub proof fn lemma_lex_transitive(a: Seq<char>, b: Seq<char>, c: Seq<char>)
    requires
        lex_lt(a, b),
        lex_lt(b, c),
    ensures
        lex_lt(a, c),
    decreases a.len(),
{
    if a.len() > 0 && b.len() > 0 && c.len() > 0 && a[0] == b[0] && b[0] == c[0] {
        lemma_lex_transitive(a.drop_first(), b.drop_first(), c.drop_first());
    }
}

/// Whether key `x` may stand before key `y`: ascending, or descending when
/// `descending`.
pub open spec fn in_order(x: Seq<char>, y: Seq<char>, descending: bool) -> bool {
    if descending {
        !lex_lt(x, y)
    } else {
        !lex_lt(y, x)
    }
}

/// `order` lists each index of `keys` once.
pub open spec fn is_permutation(order: Seq<usize>, n: int) -> bool {
    &&& order.len() == n
    &&& forall|i: int| 0 <= i < order.len() ==> #[trigger] order[i] < n
    &&& forall|i: int, j: int| 0 <= i < j < order.len() ==> order[i] != order[j]
}

/// What a stable sort of the indices by their keys yields: a permutation in
/// which keys are in order and equal keys keep the order they came in.
pub open spec fn is_stable_order(order: Seq<usize>, keys: Seq<Seq<char>>, descending: bool) -> bool {
    &&& is_permutation(order, keys.len() as int)
    &&& forall|i: int, j: int|
        0 <= i < j < order.len() ==> in_order(keys[order[i] as int], keys[order[j] as int], descending)
    &&& forall|i: int, j: int|
        0 <= i < j < order.len() && keys[order[i] as int] == keys[order[j] as int] ==> order[i] < order[j]
}

fn lex_less(a: &Vec<char>, b: &Vec<char>) -> (r: bool)
    ensures
        r == lex_lt(a@, b@),
{
    let mut i: usize = 0;
    assert(a@.skip(0) == a@ && b@.skip(0) == b@);
    while i < a.len() && i < b.len() && a[i] == b[i]
        invariant
            i <= a@.len(),
            i <= b@.len(),
            lex_lt(a@, b@) == lex_lt(a@.skip(i as int), b@.skip(i as int)),
        decreases a@.len() - i,
    {
        assert(a@.skip(i as int).drop_first() == a@.skip(i + 1));
        assert(b@.skip(i as int).drop_first() == b@.skip(i + 1));
        i = i + 1;
    }
    if i == a.len() {
        i < b.len()
    } else if i == b.len() {
        false
    } else {
        assert(a@.skip(i as int)[0] == a@[i as int]);
        assert(b@.skip(i as int)[0] == b@[i as int]);
        a[i] < b[i]
    }
}

/// Whether `x` must come after `y`.
fn goes_after(x: &Vec<char>, y: &Vec<char>, descending: bool) -> (r: bool)
    ensures
        r == !in_order(x@, y@, descending),
{
    if descending {
        lex_less(x, y)
    } else {
        lex_less(y, x)
    }
}

/// The indices of `keys` in stable sorted order of their keys (ascending,
/// or descending when `descending`).
pub fn stable_order(keys: &Vec<Vec<char>>, descending: bool) -> (r: Vec<usize>)
    ensures
        is_stable_order(r@, keys@.map_values(|k: Vec<char>| k@), descending),
{
    let ghost kv = keys@.map_values(|k: Vec<char>| k@);
    let mut order: Vec<usize> = Vec::new();
    let mut k: usize = 0;
    while k < keys.len()
        invariant
            k <= keys@.len(),
            kv == keys@.map_values(|k: Vec<char>| k@),
            kv.len() == keys@.len(),
            is_stable_order(order@, kv.take(k as int), descending),
        decreases keys@.len() - k,
    {
        // find the insertion point: after every entry that may precede key k
        let mut p: usize = order.len();
        while p > 0 && goes_after(&keys[order[p - 1]], &keys[k], descending)
            invariant
                p <= order@.len(),
                k < keys@.len(),
                kv == keys@.map_values(|k: Vec<char>| k@),
                is_stable_order(order@, kv.take(k as int), descending),
                forall|j: int| p <= j < order@.len() ==> !in_order(kv[order@[j] as int], kv[k as int], descending),
            decreases p,
        {
            assert(kv[order@[p - 1] as int] == keys@[order@[p - 1] as int]@);
            p = p - 1;
        }
        proof {
            if p > 0 {
                assert(kv[order@[p - 1] as int] == keys@[order@[p - 1] as int]@);
            }
        }
        let ghost old_order = order@;
        order.insert(p, k);
        proof {
            lemma_insert_keeps_order(old_order, kv, k as int, p as int, descending);
        }
        k = k + 1;
    }
    assert(kv.take(keys@.len() as int) == kv);
    order
}

proof fn lemma_in_order_facts(x: Seq<char>, y: Seq<char>, z: Seq<char>, descending: bool)
    ensures
        !in_order(x, y, descending) ==> in_order(y, x, descending),
        in_order(x, y, descending) && in_order(y, z, descending) ==> in_order(x, z, descending),
        !in_order(x, y, descending) ==> x != y,
{
    lemma_lex_trichotomy(x, y);
    lemma_lex_trichotomy(y, z);
    lemma_lex_trichotomy(x, z);
    if lex_lt(z, y) && lex_lt(y, x) {
        lemma_lex_transitive(z, y, x);
    }
    if lex_lt(x, y) && lex_lt(y, z) {
        lemma_lex_transitive(x, y, z);
    }
    if !lex_lt(z, y) && !lex_lt(y, x) && lex_lt(z, x) {
        if z == y {
        } else if y == x {
        } else {
            lemma_lex_transitive(y, z, x);
        }
    }
    if !lex_lt(y, z) && !lex_lt(x, y) && lex_lt(x, z) {
        if z == y {
        } else if y == x {
        } else {
            lemma_lex_transitive(z, x, y);
        }
    }
}

proof fn lemma_insert_keeps_order(
    order: Seq<usize>,
    kv: Seq<Seq<char>>,
    k: int,
    p: int,
    descending: bool,
)
    requires
        0 <= k < kv.len(),
        k < usize::MAX,
        0 <= p <= order.len(),
        is_stable_order(order, kv.take(k), descending),
        p > 0 ==> in_order(kv[order[p - 1] as int], kv[k], descending),
        forall|j: int| p <= j < order.len() ==> !in_order(kv[order[j] as int], kv[k], descending),
    ensures
        is_stable_order(order.insert(p, k as usize), kv.take(k + 1), descending),
{
    let o = order.insert(p, k as usize);
    let t0 = kv.take(k);
    let t1 = kv.take(k + 1);
    assert(order.len() == k);
    assert forall|i: int| 0 <= i < order.len() implies #[trigger] kv[order[i] as int] == t0[order[i] as int] by {}
    assert forall|i: int| 0 <= i < o.len() implies #[trigger] o[i] < k + 1 by {
        if i < p {
            assert(o[i] == order[i]);
        } else if i > p {
            assert(o[i] == order[i - 1]);
        }
    }
    assert forall|i: int, j: int| 0 <= i < j < o.len() implies o[i] != o[j] by {
        if i < p && j < p {
            assert(o[i] == order[i] && o[j] == order[j]);
        } else if i < p && j == p {
            assert(o[i] == order[i]);
        } else if i < p && j > p {
            assert(o[i] == order[i] && o[j] == order[j - 1]);
        } else if i == p {
            assert(o[j] == order[j - 1]);
        } else {
            assert(o[i] == order[i - 1] && o[j] == order[j - 1]);
        }
    }
    assert forall|i: int, j: int| 0 <= i < j < o.len() implies in_order(
        t1[o[i] as int],
        t1[o[j] as int],
        descending,
    ) && (t1[o[i] as int] == t1[o[j] as int] ==> o[i] < o[j]) by {
        let oi = if i < p { order[i] } else if i == p { k as usize } else { order[i - 1] };
        let oj = if j < p { order[j] } else if j == p { k as usize } else { order[j - 1] };
        assert(o[i] == oi && o[j] == oj);
        assert(t1[oi as int] == kv[oi as int]);
        assert(t1[oj as int] == kv[oj as int]);
        if i != p && j != p {
            let ii = if i < p { i } else { i - 1 };
            let jj = if j < p { j } else { j - 1 };
            assert(ii < jj);
            assert(order[ii] == oi && order[jj] == oj);
            assert(t0[oi as int] == kv[oi as int]);
            assert(t0[oj as int] == kv[oj as int]);
        } else if j == p {
            // i < p: everything before the insertion point may precede k
            assert(p > 0);
            let last = kv[order[p - 1] as int];
            if i < p - 1 {
                assert(t0[order[i] as int] == kv[order[i] as int]);
                assert(t0[order[p - 1] as int] == kv[order[p - 1] as int]);
                assert(in_order(kv[order[i] as int], last, descending));
                lemma_in_order_facts(kv[order[i] as int], last, kv[k], descending);
            }
        } else {
            // i == p < j: k precedes every later entry, strictly
            assert(!in_order(kv[order[j - 1] as int], kv[k], descending));
            lemma_in_order_facts(kv[order[j - 1] as int], kv[k], kv[k], descending);
        }
    }
}

} // verus!
