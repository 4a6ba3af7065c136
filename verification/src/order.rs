//! The order of names, and sorting by it.

use vstd::prelude::*;

verus! {

/// Whether `a` comes before `b` byte by byte: at the first place where they
/// differ `a` has the smaller byte, or `a` ends there.
pub open spec fn bytes_before(a: Seq<u8>, b: Seq<u8>) -> bool
    decreases a.len(),
{
    if b.len() == 0 {
        false
    } else if a.len() == 0 {
        true
    } else {
        a[0] < b[0] || (a[0] == b[0] && bytes_before(a.drop_first(), b.drop_first()))
    }
}

/// Whether text `a` comes before text `b`, by the bytes of their UTF-8 form.
pub open spec fn text_before(a: Seq<char>, b: Seq<char>) -> bool {
    bytes_before(vstd::utf8::encode_utf8(a), vstd::utf8::encode_utf8(b))
}

/// Of two different byte strings one comes before the other; none comes before
/// itself.
pub proof fn law_bytes_before_is_total(a: Seq<u8>, b: Seq<u8>)
    ensures
        a != b ==> (bytes_before(a, b) || bytes_before(b, a)),
        !(bytes_before(a, b) && bytes_before(b, a)),
        !bytes_before(a, a),
    decreases a.len(),
{
    if a.len() == 0 {
        if b.len() == 0 {
            assert(a =~= b);
        }
    } else {
        law_bytes_before_is_total(a.drop_first(), a.drop_first());
        if b.len() > 0 {
            law_bytes_before_is_total(a.drop_first(), b.drop_first());
            if a[0] == b[0] && a.drop_first() == b.drop_first() {
                assert(a =~= seq![a[0]] + a.drop_first());
                assert(b =~= seq![b[0]] + b.drop_first());
            }
        }
    }
}

/// The order of byte strings is transitive.
pub proof fn law_bytes_before_is_transitive(a: Seq<u8>, b: Seq<u8>, c: Seq<u8>)
    requires
        bytes_before(a, b),
        bytes_before(b, c),
    ensures
        bytes_before(a, c),
    decreases a.len(),
{
    if a.len() > 0 && a[0] == b[0] && b[0] == c[0] {
        law_bytes_before_is_transitive(a.drop_first(), b.drop_first(), c.drop_first());
    }
}

/// Whether `a` comes before `b` byte by byte.
pub fn bytes_less(a: &Vec<u8>, b: &Vec<u8>) -> (less: bool)
    ensures
        less == bytes_before(a@, b@),
{
    let n = a.len();
    let m = b.len();
    let mut i: usize = 0;
    assert(a@.skip(0) =~= a@);
    assert(b@.skip(0) =~= b@);
    while i < n && i < m
        invariant
            n == a@.len(),
            m == b@.len(),
            i <= n,
            i <= m,
            bytes_before(a@, b@) == bytes_before(a@.skip(i as int), b@.skip(i as int)),
        decreases n - i,
    {
        assert(a@.skip(i as int)[0] == a@[i as int]);
        assert(b@.skip(i as int)[0] == b@[i as int]);
        if a[i] != b[i] {
            return a[i] < b[i];
        }
        assert(a@.skip(i as int).drop_first() =~= a@.skip(i + 1));
        assert(b@.skip(i as int).drop_first() =~= b@.skip(i + 1));
        i += 1;
    }
    i < m
}

// ---------------------------------------------------------------------------
// Sorting
// ---------------------------------------------------------------------------

/// What a listed item is placed by: those that lead come first, then the order
/// of the keys decides.
pub struct SortKey {
    pub leads: bool,
    pub key: Vec<u8>,
}

/// Whether the item at `x` belongs before the item at `y`. Items with equal
/// keys keep their order.
pub open spec fn belongs_before(keys: Seq<SortKey>, x: int, y: int) -> bool {
    let a = keys[x];
    let b = keys[y];
    ||| a.leads && !b.leads
    ||| a.leads == b.leads && bytes_before(a.key@, b.key@)
    ||| a.leads == b.leads && a.key@ == b.key@ && x < y
}

/// Whether `order` lists the places `from..to` once each, in the order in
/// which their items belong.
pub open spec fn in_order(keys: Seq<SortKey>, order: Seq<usize>, from: int, to: int) -> bool {
    &&& order.len() == to - from
    &&& forall|i: int| 0 <= i < order.len() ==> from <= #[trigger] order[i] < to
    &&& forall|i: int, j: int|
        0 <= i < j < order.len() ==> belongs_before(
            keys,
            #[trigger] order[i] as int,
            #[trigger] order[j] as int,
        )
}

proof fn lemma_belongs_transitive(keys: Seq<SortKey>, x: int, y: int, z: int)
    requires
        belongs_before(keys, x, y),
        belongs_before(keys, y, z),
    ensures
        belongs_before(keys, x, z),
{
    let a = keys[x].key@;
    let b = keys[y].key@;
    let c = keys[z].key@;
    if bytes_before(a, b) && bytes_before(b, c) {
        law_bytes_before_is_transitive(a, b, c);
    }
}

proof fn lemma_belongs_total(keys: Seq<SortKey>, x: int, y: int)
    requires
        x != y,
    ensures
        belongs_before(keys, x, y) || belongs_before(keys, y, x),
{
    law_bytes_before_is_total(keys[x].key@, keys[y].key@);
}

/// Whether the item at `x` belongs before the item at `y`.
fn placed_before(keys: &Vec<SortKey>, x: usize, y: usize) -> (yes: bool)
    requires
        x < keys@.len(),
        y < keys@.len(),
    ensures
        yes == belongs_before(keys@, x as int, y as int),
{
    let a = &keys[x];
    let b = &keys[y];
    proof {
        law_bytes_before_is_total(a.key@, b.key@);
    }
    if a.leads != b.leads {
        return a.leads;
    }
    if bytes_less(&a.key, &b.key) {
        return true;
    }
    if bytes_less(&b.key, &a.key) {
        return false;
    }
    x < y
}

/// One list of two lists that are in order.
fn merge(keys: &Vec<SortKey>, a: Vec<usize>, b: Vec<usize>, from: usize, mid: usize, to: usize) -> (
r: Vec<usize>)
    requires
        from <= mid <= to <= keys@.len(),
        in_order(keys@, a@, from as int, mid as int),
        in_order(keys@, b@, mid as int, to as int),
    ensures
        in_order(keys@, r@, from as int, to as int),
{
    let n = a.len();
    let m = b.len();
    let mut r: Vec<usize> = Vec::new();
    let mut i: usize = 0;
    let mut j: usize = 0;
    while i < n || j < m
        invariant
            from <= mid <= to <= keys@.len(),
            in_order(keys@, a@, from as int, mid as int),
            in_order(keys@, b@, mid as int, to as int),
            n == a@.len(),
            m == b@.len(),
            i <= n,
            j <= m,
            r@.len() == i + j,
            forall|k: int| 0 <= k < r@.len() ==> from <= #[trigger] r@[k] < to,
            forall|k: int, l: int|
                0 <= k < l < r@.len() ==> belongs_before(
                    keys@,
                    #[trigger] r@[k] as int,
                    #[trigger] r@[l] as int,
                ),
            forall|k: int, l: int|
                0 <= k < r@.len() && i <= l < n ==> belongs_before(
                    keys@,
                    #[trigger] r@[k] as int,
                    #[trigger] a@[l] as int,
                ),
            forall|k: int, l: int|
                0 <= k < r@.len() && j <= l < m ==> belongs_before(
                    keys@,
                    #[trigger] r@[k] as int,
                    #[trigger] b@[l] as int,
                ),
        decreases (n - i) + (m - j),
    {
        let first = if i == n {
            false
        } else if j == m {
            true
        } else {
            assert(a@[i as int] < mid <= b@[j as int]);
            proof {
                lemma_belongs_total(keys@, a@[i as int] as int, b@[j as int] as int);
            }
            placed_before(keys, a[i], b[j])
        };
        let ghost before = r@;
        if first {
            let x = a[i];
            assert(from <= a@[i as int] < mid);
            r.push(x);
            assert forall|l: int| j <= l < m implies belongs_before(
                keys@,
                x as int,
                #[trigger] b@[l] as int,
            ) by {
                if l > j {
                    lemma_belongs_transitive(keys@, x as int, b@[j as int] as int, b@[l] as int);
                }
            }
            i += 1;
        } else {
            let x = b[j];
            assert(mid <= b@[j as int] < to);
            r.push(x);
            assert forall|l: int| i <= l < n implies belongs_before(
                keys@,
                x as int,
                #[trigger] a@[l] as int,
            ) by {
                if l > i {
                    lemma_belongs_transitive(keys@, x as int, a@[i as int] as int, a@[l] as int);
                }
            }
            j += 1;
        }
        assert(forall|k: int| 0 <= k < before.len() ==> r@[k] == before[k]);
    }
    r
}

/// The places `from..to` in the order in which their items belong.
pub fn sort_order(keys: &Vec<SortKey>, from: usize, to: usize) -> (r: Vec<usize>)
    requires
        from <= to <= keys@.len(),
    ensures
        in_order(keys@, r@, from as int, to as int),
    decreases to - from,
{
    if to - from <= 1 {
        let mut r: Vec<usize> = Vec::new();
        if from < to {
            r.push(from);
        }
        return r;
    }
    let mid = from + (to - from) / 2;
    let a = sort_order(keys, from, mid);
    let b = sort_order(keys, mid, to);
    merge(keys, a, b, from, mid, to)
}

} // verus!
