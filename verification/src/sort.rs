//! Stable sorting by keys: the order every list of this crate is shown in.
use vstd::prelude::*;

verus! {

/// What an item is sorted by.
#[derive(Debug, Clone, PartialEq)]
pub enum SortKey {
    /// Text, compared character by character (as `str` compares).
    Text(Vec<char>),
    /// Optional text: absent before any text.
    OptText(Option<Vec<char>>),
    /// A whole number.
    Num(i128),
    /// The fraction `num / den` (a zero `den` counts as one).
    Ratio { num: i64, den: u64 },
}

/// A key as a mathematical value.
pub enum KeyView {
    Text(Seq<char>),
    OptText(Option<Seq<char>>),
    Num(int),
    /// Numerator and (non-zero) denominator.
    Ratio(int, int),
}

impl View for SortKey {
    type V = KeyView;

    open spec fn view(&self) -> KeyView {
        match self {
            SortKey::Text(t) => KeyView::Text(t@),
            SortKey::OptText(t) => KeyView::OptText(
                match t {
                    Some(v) => Some(v@),
                    None => None,
                },
            ),
            SortKey::Num(n) => KeyView::Num(*n as int),
            SortKey::Ratio { num, den } => KeyView::Ratio(*num as int, den_of(*den)),
        }
    }
}

/// The views of a list of keys.
pub open spec fn key_views(keys: Seq<SortKey>) -> Seq<KeyView> {
    keys.map_values(|k: SortKey| k@)
}

/// The lexicographic comparison of two character sequences: -1, 0 or 1.
pub open spec fn lex_order(a: Seq<char>, b: Seq<char>) -> int
    decreases a.len(),
{
    if a.len() == 0 {
        if b.len() == 0 { 0 } else { -1 }
    } else if b.len() == 0 {
        1
    } else if a[0] < b[0] {
        -1
    } else if a[0] > b[0] {
        1
    } else {
        lex_order(a.drop_first(), b.drop_first())
    }
}

/// The sign of `x`.
pub open spec fn sign(x: int) -> int {
    if x < 0 { -1 } else if x > 0 { 1 } else { 0 }
}

/// A fraction's denominator, a zero one counted as one.
pub open spec fn den_of(d: u64) -> int {
    if d == 0 { 1 } else { d as int }
}

/// `d` where it is positive, else one.
pub open spec fn positive(d: int) -> int {
    if d > 0 { d } else { 1 }
}

/// The rank of a key's kind: keys of different kinds order by it.
pub open spec fn kind_rank(k: KeyView) -> int {
    match k {
        KeyView::Text(_) => 0,
        KeyView::OptText(_) => 1,
        KeyView::Num(_) => 2,
        KeyView::Ratio(..) => 3,
    }
}

/// The comparison of two keys: -1, 0 or 1.
pub open spec fn key_order(a: KeyView, b: KeyView) -> int {
    if kind_rank(a) != kind_rank(b) {
        sign(kind_rank(a) - kind_rank(b))
    } else {
        match (a, b) {
            (KeyView::Text(x), KeyView::Text(y)) => lex_order(x, y),
            (KeyView::OptText(x), KeyView::OptText(y)) => match (x, y) {
                (None, None) => 0,
                (None, Some(_)) => -1,
                (Some(_), None) => 1,
                (Some(p), Some(q)) => lex_order(p, q),
            },
            (KeyView::Num(x), KeyView::Num(y)) => sign(x - y),
            (KeyView::Ratio(n1, d1), KeyView::Ratio(n2, d2)) => sign(
                n1 * positive(d2) - n2 * positive(d1),
            ),
            _ => 0,
        }
    }
}

/// The comparison in the given direction: reversed when descending.
pub open spec fn dir_order(a: KeyView, b: KeyView, descending: bool) -> int {
    if descending { -key_order(a, b) } else { key_order(a, b) }
}

pub proof fn lemma_lex_antisym(a: Seq<char>, b: Seq<char>)
    ensures
        lex_order(a, b) == -lex_order(b, a),
        lex_order(a, b) == 0 <==> a == b,
        -1 <= lex_order(a, b) <= 1,
    decreases a.len(),
{
    if a.len() == 0 && b.len() == 0 {
        assert(a =~= b);
    }
    if a.len() > 0 && b.len() > 0 && a[0] == b[0] {
        lemma_lex_antisym(a.drop_first(), b.drop_first());
        if a.drop_first() == b.drop_first() {
            assert(a =~= seq![a[0]] + a.drop_first());
            assert(b =~= seq![b[0]] + b.drop_first());
        }
    }
}

pub proof fn lemma_lex_trans(a: Seq<char>, b: Seq<char>, c: Seq<char>)
    requires
        lex_order(a, b) <= 0,
        lex_order(b, c) <= 0,
    ensures
        lex_order(a, c) <= 0,
    decreases a.len(),
{
    if a.len() > 0 && b.len() > 0 && c.len() > 0 && a[0] == b[0] && b[0] == c[0] {
        lemma_lex_trans(a.drop_first(), b.drop_first(), c.drop_first());
    }
}

proof fn lemma_ratio_trans(n1: int, d1: int, n2: int, d2: int, n3: int, d3: int)
    requires
        d1 > 0,
        d2 > 0,
        d3 > 0,
        n1 * d2 <= n2 * d1,
        n2 * d3 <= n3 * d2,
    ensures
        n1 * d3 <= n3 * d1,
{
    assert(n1 * d2 * d3 <= n2 * d1 * d3) by (nonlinear_arith)
        requires
            n1 * d2 <= n2 * d1,
            d3 > 0,
    ;
    assert(n2 * d3 * d1 <= n3 * d2 * d1) by (nonlinear_arith)
        requires
            n2 * d3 <= n3 * d2,
            d1 > 0,
    ;
    assert(n2 * d1 * d3 == n2 * d3 * d1) by (nonlinear_arith);
    assert(n1 * d2 * d3 == n1 * d3 * d2) by (nonlinear_arith);
    assert(n3 * d2 * d1 == n3 * d1 * d2) by (nonlinear_arith);
    assert(n1 * d3 <= n3 * d1) by (nonlinear_arith)
        requires
            n1 * d3 * d2 <= n3 * d1 * d2,
            d2 > 0,
    ;
}

/// Key comparison is antisymmetric and ranges over -1, 0, 1.
pub proof fn lemma_key_antisym(a: KeyView, b: KeyView)
    ensures
        key_order(a, b) == -key_order(b, a),
        -1 <= key_order(a, b) <= 1,
{
    match (a, b) {
        (KeyView::Text(x), KeyView::Text(y)) => lemma_lex_antisym(x, y),
        (KeyView::OptText(Some(x)), KeyView::OptText(Some(y))) => lemma_lex_antisym(x, y),
        _ => {},
    }
}

/// Key comparison is transitive.
pub proof fn lemma_key_trans(a: KeyView, b: KeyView, c: KeyView)
    requires
        key_order(a, b) <= 0,
        key_order(b, c) <= 0,
    ensures
        key_order(a, c) <= 0,
{
    if kind_rank(a) == kind_rank(b) && kind_rank(b) == kind_rank(c) {
        match (a, b, c) {
            (KeyView::Text(x), KeyView::Text(y), KeyView::Text(z)) => lemma_lex_trans(x, y, z),
            (KeyView::OptText(x), KeyView::OptText(y), KeyView::OptText(z)) => {
                if let (Some(p), Some(q), Some(r)) = (x, y, z) {
                    lemma_lex_trans(p, q, r);
                }
            },
            (KeyView::Ratio(n1, d1), KeyView::Ratio(n2, d2), KeyView::Ratio(n3, d3)) => {
                lemma_ratio_trans(n1, positive(d1), n2, positive(d2), n3, positive(d3));
            },
            _ => {},
        }
    }
}

proof fn lemma_dir_props(a: KeyView, b: KeyView, c: KeyView, descending: bool)
    ensures
        dir_order(a, b, descending) == -dir_order(b, a, descending),
        dir_order(a, b, descending) <= 0 && dir_order(b, c, descending) <= 0 ==> dir_order(
            a,
            c,
            descending,
        ) <= 0,
{
    lemma_key_antisym(a, b);
    lemma_key_antisym(b, c);
    lemma_key_antisym(a, c);
    if dir_order(a, b, descending) <= 0 && dir_order(b, c, descending) <= 0 {
        if descending {
            lemma_key_trans(c, b, a);
        } else {
            lemma_key_trans(a, b, c);
        }
    }
}

fn lex_order_exec(a: &[char], b: &[char]) -> (r: i8)
    ensures
        r == lex_order(a@, b@),
{
    let mut i: usize = 0;
    assert(a@.skip(0) =~= a@);
    assert(b@.skip(0) =~= b@);
    while i < a.len() && i < b.len()
        invariant
            i <= a@.len(),
            i <= b@.len(),
            lex_order(a@, b@) == lex_order(a@.skip(i as int), b@.skip(i as int)),
        decreases a@.len() - i,
    {
        let ghost sa = a@.skip(i as int);
        let ghost sb = b@.skip(i as int);
        assert(sa[0] == a@[i as int]);
        assert(sb[0] == b@[i as int]);
        if a[i] < b[i] {
            return -1;
        }
        if a[i] > b[i] {
            return 1;
        }
        assert(sa.drop_first() =~= a@.skip(i + 1));
        assert(sb.drop_first() =~= b@.skip(i + 1));
        i = i + 1;
    }
    if i < a.len() {
        1
    } else if i < b.len() {
        -1
    } else {
        0
    }
}

fn sign_exec(lt: bool, gt: bool) -> (r: i8)
    ensures
        r == (if lt { -1int } else if gt { 1int } else { 0int }),
{
    if lt { -1 } else if gt { 1 } else { 0 }
}

/// Compares two keys: -1, 0 or 1.
pub fn key_order_exec(a: &SortKey, b: &SortKey) -> (r: i8)
    ensures
        r == key_order(a@, b@),
{
    match (a, b) {
        (SortKey::Text(x), SortKey::Text(y)) => lex_order_exec(x, y),
        (SortKey::OptText(x), SortKey::OptText(y)) => match (x, y) {
            (None, None) => 0,
            (None, Some(_)) => -1,
            (Some(_), None) => 1,
            (Some(p), Some(q)) => lex_order_exec(p, q),
        },
        (SortKey::Num(x), SortKey::Num(y)) => sign_exec(*x < *y, *x > *y),
        (SortKey::Ratio { num: n1, den: d1 }, SortKey::Ratio { num: n2, den: d2 }) => {
            let e1: i128 = if *d1 == 0 { 1 } else { *d1 as i128 };
            let e2: i128 = if *d2 == 0 { 1 } else { *d2 as i128 };
            proof {
                assert(-0x8000_0000_0000_0000_0000_0000_0000_0000 < (*n1 as i128) * e2
                    < 0x8000_0000_0000_0000_0000_0000_0000_0000) by (nonlinear_arith)
                    requires
                        -0x8000_0000_0000_0000 <= *n1 < 0x8000_0000_0000_0000,
                        1 <= e2 <= 0xffff_ffff_ffff_ffff,
                ;
                assert(-0x8000_0000_0000_0000_0000_0000_0000_0000 < (*n2 as i128) * e1
                    < 0x8000_0000_0000_0000_0000_0000_0000_0000) by (nonlinear_arith)
                    requires
                        -0x8000_0000_0000_0000 <= *n2 < 0x8000_0000_0000_0000,
                        1 <= e1 <= 0xffff_ffff_ffff_ffff,
                ;
            }
            let l = (*n1 as i128) * e2;
            let r = (*n2 as i128) * e1;
            sign_exec(l < r, l > r)
        },
        _ => {
            let ra: i8 = match a {
                SortKey::Text(_) => 0,
                SortKey::OptText(_) => 1,
                SortKey::Num(_) => 2,
                SortKey::Ratio { .. } => 3,
            };
            let rb: i8 = match b {
                SortKey::Text(_) => 0,
                SortKey::OptText(_) => 1,
                SortKey::Num(_) => 2,
                SortKey::Ratio { .. } => 3,
            };
            sign_exec(ra < rb, ra > rb)
        },
    }
}

/// `perm` lists each index of `0..n` exactly once.
pub open spec fn is_permutation(perm: Seq<usize>, n: nat) -> bool {
    &&& perm.len() == n
    &&& forall|i: int| 0 <= i < perm.len() ==> #[trigger] perm[i] < n
    &&& forall|i: int, j: int| 0 <= i < j < perm.len() ==> perm[i] != perm[j]
}

/// `perm` orders `keys` in the given direction, keeping the original order
/// of equal keys: what a stable sort by those keys gives.
pub open spec fn is_stable_sorted(keys: Seq<KeyView>, perm: Seq<usize>, descending: bool) -> bool {
    &&& is_permutation(perm, keys.len())
    &&& forall|i: int, j: int|
        0 <= i < j < perm.len() ==> dir_order(keys[perm[i] as int], keys[perm[j] as int], descending)
            <= 0
    &&& forall|i: int, j: int|
        0 <= i < j < perm.len() && dir_order(keys[perm[i] as int], keys[perm[j] as int], descending)
            == 0 ==> perm[i] < perm[j]
}

/// The indices of `keys` in stably sorted order.
pub fn stable_sort_indices(keys: &Vec<SortKey>, descending: bool) -> (perm: Vec<usize>)
    ensures
        is_stable_sorted(key_views(keys@), perm@, descending),
{
    let ghost kv = key_views(keys@);
    let mut out: Vec<usize> = Vec::new();
    let mut i: usize = 0;
    while i < keys.len()
        invariant
            i <= keys@.len(),
            kv == key_views(keys@),
            out@.len() == i,
            forall|a: int| 0 <= a < out@.len() ==> #[trigger] out@[a] < i,
            forall|a: int, b: int| 0 <= a < b < out@.len() ==> out@[a] != out@[b],
            forall|a: int, b: int|
                0 <= a < b < out@.len() ==> dir_order(
                    kv[out@[a] as int],
                    kv[out@[b] as int],
                    descending,
                ) <= 0,
            forall|a: int, b: int|
                0 <= a < b < out@.len() && dir_order(
                    kv[out@[a] as int],
                    kv[out@[b] as int],
                    descending,
                ) == 0 ==> out@[a] < out@[b],
        decreases keys@.len() - i,
    {
        let ghost ki = kv[i as int];
        // The first position whose key comes strictly after key i.
        let mut p: usize = 0;
        let mut found = false;
        while !found && p < out.len()
            invariant
                p <= out@.len(),
                i < keys@.len(),
                kv == key_views(keys@),
                ki == kv[i as int],
                    forall|a: int| 0 <= a < out@.len() ==> #[trigger] out@[a] < i,
                forall|a: int| 0 <= a < p ==> dir_order(#[trigger] kv[out@[a] as int], ki, descending)
                    <= 0,
                found ==> p < out@.len() && dir_order(kv[out@[p as int] as int], ki, descending)
                    > 0,
            decreases out@.len() - p + (if found { 0int } else { 1int }),
        {
            let c = key_order_exec(&keys[out[p]], &keys[i]);
            let gt = if descending { c < 0 } else { c > 0 };
            proof {
                lemma_key_antisym(kv[out@[p as int] as int], ki);
            }
            if gt {
                found = true;
            } else {
                p = p + 1;
            }
        }
        let ghost old_out = out@;
        proof {
            // Everything from p on comes strictly after key i.
            assert forall|b: int| p <= b < old_out.len() implies dir_order(
                kv[old_out[b] as int],
                ki,
                descending,
            ) > 0 by {
                if b > p {
                    let kp = kv[old_out[p as int] as int];
                    let kb = kv[old_out[b] as int];
                    lemma_dir_props(ki, kp, kb, descending);
                    lemma_dir_props(kb, ki, kp, descending);
                    lemma_dir_props(kp, kb, ki, descending);
                    if dir_order(kb, ki, descending) <= 0 {
                        assert(dir_order(kp, kb, descending) <= 0);
                        assert(dir_order(kp, ki, descending) <= 0);
                    }
                }
            }
        }
        out.insert(p, i);
        proof {
            assert forall|a: int, b: int| 0 <= a < b < out@.len() implies dir_order(
                kv[out@[a] as int],
                kv[out@[b] as int],
                descending,
            ) <= 0 && (dir_order(kv[out@[a] as int], kv[out@[b] as int], descending) == 0
                ==> out@[a] < out@[b]) by {
                if a < p && b == p {
                    assert(out@[b] == i);
                    assert(out@[a] == old_out[a]);
                } else if a == p {
                    assert(out@[b] == old_out[b - 1]);
                    lemma_dir_props(ki, kv[old_out[b - 1] as int], ki, descending);
                } else if b < p {
                    assert(out@[a] == old_out[a]);
                    assert(out@[b] == old_out[b]);
                } else {
                    assert(out@[b] == old_out[b - 1]);
                    if a < p {
                        assert(out@[a] == old_out[a]);
                    } else {
                        assert(out@[a] == old_out[a - 1]);
                    }
                }
            }
            assert forall|a: int| 0 <= a < out@.len() implies #[trigger] out@[a] < i + 1 by {
                if a < p {
                    assert(out@[a] == old_out[a]);
                } else if a > p {
                    assert(out@[a] == old_out[a - 1]);
                }
            }
            assert forall|a: int, b: int| 0 <= a < b < out@.len() implies out@[a] != out@[b] by {
                if a < p {
                    assert(out@[a] == old_out[a]);
                } else if a > p {
                    assert(out@[a] == old_out[a - 1]);
                }
                if b < p {
                    assert(out@[b] == old_out[b]);
                } else if b > p {
                    assert(out@[b] == old_out[b - 1]);
                }
            }
        }
        i = i + 1;
    }
    out
}

/// `items` reordered by `perm`: position `k` of the result holds
/// `items[perm[k]]`.
pub fn apply_permutation<T>(items: Vec<T>, perm: &Vec<usize>) -> (out: Vec<T>)
    requires
        is_permutation(perm@, items@.len()),
    ensures
        out@.len() == perm@.len(),
        forall|k: int| 0 <= k < perm@.len() ==> out@[k] == items@[#[trigger] perm@[k] as int],
{
    let ghost orig = items@;
    let n = items.len();
    let mut items = items;
    let mut slots: Vec<Option<T>> = Vec::new();
    while items.len() > 0
        invariant
            n == orig.len(),
            items@.len() + slots@.len() == n,
            items@ == orig.take(items@.len() as int),
            forall|j: int| 0 <= j < slots@.len() ==> #[trigger] slots@[j] == Some(orig[n - 1 - j]),
        decreases items@.len(),
    {
        let x = items.pop().unwrap();
        assert(x == orig[items@.len() as int]);
        assert(items@ =~= orig.take(items@.len() as int));
        slots.push(Some(x));
    }
    let mut out: Vec<T> = Vec::new();
    let mut k: usize = 0;
    while k < perm.len()
        invariant
            n == orig.len(),
            slots@.len() == n,
            is_permutation(perm@, n as nat),
            k <= perm@.len(),
            out@.len() == k,
            forall|a: int| 0 <= a < k ==> out@[a] == orig[#[trigger] perm@[a] as int],
            forall|a: int|
                k <= a < perm@.len() ==> slots@[n - 1 - #[trigger] perm@[a]] == Some(
                    orig[perm@[a] as int],
                ),
        decreases perm@.len() - k,
    {
        let idx = n - 1 - perm[k];
        let mut tmp: Option<T> = None;
        std::mem::swap(&mut tmp, &mut slots[idx]);
        assert(tmp == Some(orig[perm@[k as int] as int]));
        out.push(tmp.unwrap());
        assert forall|a: int| k + 1 <= a < perm@.len() implies slots@[n - 1
            - #[trigger] perm@[a]] == Some(orig[perm@[a] as int]) by {
            assert(perm@[a] != perm@[k as int]);
        }
        k = k + 1;
    }
    out
}

} // verus!
