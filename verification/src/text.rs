//! Text as sequences of characters: the building blocks every renderer and
//! parser of this crate is written with.
use vstd::prelude::*;

verus! {

/// `p` occurs in `t` starting at index `i`.
pub open spec fn occurs_at(t: Seq<char>, p: Seq<char>, i: int) -> bool {
    &&& 0 <= i
    &&& i + p.len() <= t.len()
    &&& t.subrange(i, i + p.len()) == p
}

/// `p` occurs somewhere in `t`.
pub open spec fn contains_seq(t: Seq<char>, p: Seq<char>) -> bool {
    exists|i: int| occurs_at(t, p, i)
}

/// Every non-overlapping occurrence of `p` in `t`, scanning from the left,
/// replaced by `r` (what `str::replace` does for a non-empty pattern).
pub open spec fn replace_all(t: Seq<char>, p: Seq<char>, r: Seq<char>) -> Seq<char>
    decreases t.len(),
{
    if p.len() == 0 || t.len() < p.len() {
        t
    } else if t.take(p.len() as int) == p {
        r + replace_all(t.skip(p.len() as int), p, r)
    } else {
        seq![t[0]] + replace_all(t.skip(1), p, r)
    }
}

/// The items of `items` with `sep` between consecutive ones.
pub open spec fn join(items: Seq<Seq<char>>, sep: Seq<char>) -> Seq<char>
    decreases items.len(),
{
    if items.len() == 0 {
        seq![]
    } else if items.len() == 1 {
        items[0]
    } else {
        join(items.drop_last(), sep) + sep + items.last()
    }
}

/// `join` of the first `m + 1` items: the first item, or the join of the
/// first `m` items, the separator and item `m`.
proof fn lemma_join_take_step(items: Seq<Seq<char>>, sep: Seq<char>, m: int)
    requires
        0 <= m < items.len(),
    ensures
        join(items.take(m + 1), sep) == if m == 0 {
            items[0]
        } else {
            join(items.take(m), sep) + sep + items[m]
        },
{
    let t = items.take(m + 1);
    assert(t.drop_last() =~= items.take(m));
    assert(t.last() == items[m]);
    if m == 0 {
        assert(t.len() == 1);
        assert(t[0] == items[0]);
    }
}

/// The join of the first `m` items begins the join of them all.
proof fn lemma_join_prefix(items: Seq<Seq<char>>, sep: Seq<char>, m: int)
    requires
        0 <= m <= items.len(),
    ensures
        join(items.take(m), sep).len() <= join(items, sep).len(),
        join(items, sep).subrange(0, join(items.take(m), sep).len() as int) == join(
            items.take(m),
            sep,
        ),
    decreases items.len() - m,
{
    let whole = join(items, sep);
    if m == items.len() {
        assert(items.take(m) =~= items);
        assert(whole.subrange(0, whole.len() as int) =~= whole);
    } else {
        lemma_join_prefix(items, sep, m + 1);
        lemma_join_take_step(items, sep, m);
        let a = join(items.take(m), sep);
        let b = join(items.take(m + 1), sep);
        if m == 0 {
            assert(items.take(0) =~= Seq::<Seq<char>>::empty());
            assert(a =~= Seq::<char>::empty());
            assert(whole.subrange(0, 0) =~= a);
        } else {
            assert(b.subrange(0, a.len() as int) =~= a);
            assert(whole.subrange(0, a.len() as int) =~= whole.subrange(0, b.len() as int).subrange(
                0,
                a.len() as int,
            ));
        }
    }
}

/// What occurs in a prefix of `b` occurs in `b` at the same place.
proof fn lemma_occurs_in_extension(a: Seq<char>, b: Seq<char>, p: Seq<char>, i: int)
    requires
        occurs_at(a, p, i),
        a.len() <= b.len(),
        b.subrange(0, a.len() as int) == a,
    ensures
        occurs_at(b, p, i),
{
    assert(b.subrange(i, i + p.len()) =~= a.subrange(i, i + p.len())) by {
        assert forall|j: int| 0 <= j < p.len() implies #[trigger] b.subrange(i, i + p.len())[j]
            == a.subrange(i, i + p.len())[j] by {
            assert(b.subrange(0, a.len() as int)[i + j] == b[i + j]);
        }
    }
}

/// Every item occurs in the join, and so does each item with the
/// separator and the next item after it.
pub proof fn lemma_join_contains(items: Seq<Seq<char>>, sep: Seq<char>, k: int)
    requires
        0 <= k < items.len(),
    ensures
        contains_seq(join(items, sep), items[k]),
        k + 1 < items.len() ==> contains_seq(join(items, sep), items[k] + sep + items[k + 1]),
{
    let whole = join(items, sep);
    lemma_join_take_step(items, sep, k);
    let a = join(items.take(k + 1), sep);
    let at = a.len() - items[k].len();
    assert(occurs_at(a, items[k], at)) by {
        if k > 0 {
            assert(a.subrange(at, at + items[k].len()) =~= items[k]);
        } else {
            assert(a.subrange(0, items[k].len() as int) =~= items[k]);
        }
    }
    lemma_join_prefix(items, sep, k + 1);
    lemma_occurs_in_extension(a, whole, items[k], at);
    if k + 1 < items.len() {
        lemma_join_take_step(items, sep, k + 1);
        let b = join(items.take(k + 2), sep);
        let pair = items[k] + sep + items[k + 1];
        assert(b == a + sep + items[k + 1]);
        assert(occurs_at(b, pair, at)) by {
            assert(b.subrange(at, at + pair.len()) =~= pair) by {
                assert forall|j: int| 0 <= j < pair.len() implies #[trigger] b.subrange(
                    at,
                    at + pair.len(),
                )[j] == pair[j] by {
                    if j < items[k].len() {
                        assert(a.subrange(at, at + items[k].len())[j] == a[at + j]);
                    }
                }
            }
        }
        lemma_join_prefix(items, sep, k + 2);
        lemma_occurs_in_extension(b, whole, pair, at);
    }
}

/// `n` spaces.
pub open spec fn spaces(n: nat) -> Seq<char> {
    Seq::new(n, |i: int| ' ')
}

/// `s` padded on the right with spaces to at least `width` characters
/// (what the `{:<width}` format does).
pub open spec fn pad_right(s: Seq<char>, width: nat) -> Seq<char> {
    if s.len() >= width {
        s
    } else {
        s + spaces((width - s.len()) as nat)
    }
}

/// The decimal digit for `d < 10`.
pub open spec fn digit_char(d: nat) -> char {
    if d == 0 { '0' }
    else if d == 1 { '1' }
    else if d == 2 { '2' }
    else if d == 3 { '3' }
    else if d == 4 { '4' }
    else if d == 5 { '5' }
    else if d == 6 { '6' }
    else if d == 7 { '7' }
    else if d == 8 { '8' }
    else { '9' }
}

/// The decimal representation of `n`, without leading zeros.
pub open spec fn decimal(n: nat) -> Seq<char>
    decreases n,
{
    if n < 10 {
        seq![digit_char(n)]
    } else {
        decimal(n / 10) + seq![digit_char(n % 10)]
    }
}

/// The decimal representation of a signed integer.
pub open spec fn signed_decimal(n: int) -> Seq<char> {
    if n < 0 {
        seq!['-'] + decimal((-n) as nat)
    } else {
        decimal(n as nat)
    }
}

/// The characters of a string slice, in order.
pub fn chars_of(s: &str) -> (v: Vec<char>)
    ensures
        v@ == s@,
{
    let mut v: Vec<char> = Vec::new();
    for c in iter: s.chars()
        invariant
            v@ == iter.seq().take(iter.index() as int),
    {
        v.push(c);
    }
    v
}

/// The string made of the characters of `v`.
#[verifier::external_body]
pub(crate) fn string_of(v: &[char]) -> (s: String)
    ensures
        s@ == v@,
{
    v.iter().collect()
}

/// Appends the characters of `s` to `buf`.
pub fn push_str(buf: &mut Vec<char>, s: &str)
    ensures
        final(buf)@ == old(buf)@ + s@,
{
    for c in iter: s.chars()
        invariant
            buf@ == old(buf)@ + iter.seq().take(iter.index() as int),
    {
        buf.push(c);
    }
}

/// Appends the characters of `s` to `buf`.
pub fn push_chars(buf: &mut Vec<char>, s: &[char])
    ensures
        final(buf)@ == old(buf)@ + s@,
{
    let mut i: usize = 0;
    while i < s.len()
        invariant
            i <= s@.len(),
            buf@ == old(buf)@ + s@.take(i as int),
        decreases s@.len() - i,
    {
        buf.push(s[i]);
        i = i + 1;
        assert(s@.take(i as int) == s@.take(i - 1) + seq![s@[i - 1]]);
    }
    assert(s@.take(s@.len() as int) == s@);
}

/// Whether `p` occurs in `t` at index `i`.
pub fn occurs_at_exec(t: &[char], p: &[char], i: usize) -> (b: bool)
    ensures
        b == occurs_at(t@, p@, i as int),
{
    if i > t.len() || p.len() > t.len() - i {
        return false;
    }
    let mut k: usize = 0;
    while k < p.len()
        invariant
            i + p@.len() <= t@.len(),
            t@.len() <= usize::MAX,
            k <= p@.len(),
            forall|j: int| 0 <= j < k ==> t@[i + j] == p@[j],
        decreases p@.len() - k,
    {
        if t[i + k] != p[k] {
            assert(t@.subrange(i as int, i + p@.len())[k as int] != p@[k as int]);
            return false;
        }
        k = k + 1;
    }
    assert(t@.subrange(i as int, i + p@.len()) =~= p@);
    true
}

/// Whether `p` occurs anywhere in `t`.
pub fn contains_exec(t: &[char], p: &[char]) -> (b: bool)
    ensures
        b == contains_seq(t@, p@),
{
    let mut i: usize = 0;
    while i < t.len()
        invariant
            i <= t@.len(),
            forall|j: int| 0 <= j < i ==> !occurs_at(t@, p@, j),
        decreases t@.len() - i,
    {
        if occurs_at_exec(t, p, i) {
            return true;
        }
        i = i + 1;
    }
    if occurs_at_exec(t, p, i) {
        return true;
    }
    assert forall|j: int| !occurs_at(t@, p@, j) by {
        if 0 <= j && j <= i {
        } else {
        }
    }
    false
}

/// `replace_all` computed.
pub fn replace_all_exec(t: &[char], p: &[char], r: &[char]) -> (out: Vec<char>)
    ensures
        out@ == replace_all(t@, p@, r@),
{
    let mut out: Vec<char> = Vec::new();
    if p.len() == 0 {
        push_chars(&mut out, t);
        return out;
    }
    let mut i: usize = 0;
    assert(t@.skip(0) =~= t@);
    while i < t.len()
        invariant
            p@.len() > 0,
            i <= t@.len(),
            out@ + replace_all(t@.skip(i as int), p@, r@) == replace_all(t@, p@, r@),
        decreases t@.len() - i,
    {
        let ghost rest = t@.skip(i as int);
        if p.len() <= t.len() - i && occurs_at_exec(t, p, i) {
            assert(rest.take(p@.len() as int) =~= t@.subrange(i as int, i + p@.len()));
            assert(rest.skip(p@.len() as int) =~= t@.skip(i + p@.len()));
            push_chars(&mut out, r);
            i = i + p.len();
        } else {
            proof {
                if p@.len() <= rest.len() {
                    assert(rest.take(p@.len() as int) =~= t@.subrange(i as int, i + p@.len()));
                }
            }
            assert(rest.skip(1) =~= t@.skip(i + 1));
            out.push(t[i]);
            i = i + 1;
        }
    }
    assert(t@.skip(i as int) =~= Seq::<char>::empty());
    out
}

/// The decimal representation of `n`.
pub fn decimal_exec(n: u64) -> (out: Vec<char>)
    ensures
        out@ == decimal(n as nat),
    decreases n,
{
    if n < 10 {
        let mut v: Vec<char> = Vec::new();
        v.push(digit_exec(n));
        v
    } else {
        let mut v = decimal_exec(n / 10);
        v.push(digit_exec(n % 10));
        v
    }
}

fn digit_exec(d: u64) -> (c: char)
    requires
        d < 10,
    ensures
        c == digit_char(d as nat),
{
    if d == 0 { '0' }
    else if d == 1 { '1' }
    else if d == 2 { '2' }
    else if d == 3 { '3' }
    else if d == 4 { '4' }
    else if d == 5 { '5' }
    else if d == 6 { '6' }
    else if d == 7 { '7' }
    else if d == 8 { '8' }
    else { '9' }
}

/// `n` as a decimal string.
pub fn u64_to_string(n: u64) -> (s: String)
    ensures
        s@ == decimal(n as nat),
{
    let v = decimal_exec(n);
    string_of(&v)
}

/// Appends `s` padded on the right to `width` characters.
pub fn push_padded(buf: &mut Vec<char>, s: &[char], width: usize)
    ensures
        final(buf)@ == old(buf)@ + pad_right(s@, width as nat),
{
    push_chars(buf, s);
    if s.len() >= width {
        return;
    }
    let ghost start = buf@;
    let mut k: usize = s.len();
    assert(spaces(0) =~= Seq::<char>::empty());
    while k < width
        invariant
            s@.len() <= k <= width,
            start == old(buf)@ + s@,
            buf@ == start + spaces((k - s@.len()) as nat),
        decreases width - k,
    {
        buf.push(' ');
        k = k + 1;
        assert(spaces((k - s@.len()) as nat) =~= spaces((k - 1 - s@.len()) as nat) + seq![' ']);
    }
    assert(buf@ =~= old(buf)@ + pad_right(s@, width as nat));
}

} // verus!

verus! {

/// Whether two character sequences are equal.
pub fn chars_eq(a: &[char], b: &[char]) -> (r: bool)
    ensures
        r == (a@ == b@),
{
    if a.len() != b.len() {
        return false;
    }
    let mut i: usize = 0;
    while i < a.len()
        invariant
            a@.len() == b@.len(),
            i <= a@.len(),
            forall|j: int| 0 <= j < i ==> a@[j] == b@[j],
        decreases a@.len() - i,
    {
        if a[i] != b[i] {
            return false;
        }
        i = i + 1;
    }
    assert(a@ =~= b@);
    true
}

/// Whether two strings are equal.
pub fn str_eq(a: &str, b: &str) -> (r: bool)
    ensures
        r == (a@ == b@),
{
    let x = chars_of(a);
    let y = chars_of(b);
    chars_eq(&x, &y)
}

} // verus!

verus! {

/// The concatenation of `items`.
pub open spec fn concat(items: Seq<Seq<char>>) -> Seq<char>
    decreases items.len(),
{
    if items.len() == 0 {
        seq![]
    } else {
        concat(items.drop_last()) + items.last()
    }
}

/// `join` computed over strings.
pub fn join_strings(items: &[String], sep: &str) -> (r: Vec<char>)
    ensures
        r@ == join(items@.map_values(|s: String| s@), sep@),
{
    let ghost views = items@.map_values(|s: String| s@);
    let mut out: Vec<char> = Vec::new();
    let mut i: usize = 0;
    assert(views.take(0) =~= Seq::<Seq<char>>::empty());
    while i < items.len()
        invariant
            i <= items@.len(),
            views == items@.map_values(|s: String| s@),
            out@ == join(views.take(i as int), sep@),
        decreases items@.len() - i,
    {
        if i > 0 {
            push_str(&mut out, sep);
        }
        push_str(&mut out, items[i].as_str());
        i = i + 1;
        assert(views.take(i as int).drop_last() =~= views.take(i - 1));
        assert(views.take(i as int).last() == views[i - 1]);
        if i == 1 {
            assert(views.take(1) =~= seq![views[0]]);
        }
    }
    assert(views.take(i as int) =~= views);
    out
}

/// What `char::to_uppercase` gives for a character: one or more characters,
/// by Unicode's case mapping.
pub uninterp spec fn upper_of(c: char) -> Seq<char>;

/// `char::to_uppercase`, collected into a string.
#[verifier::external_body]
pub(crate) fn char_upper(c: char) -> (r: String)
    ensures
        r@ == upper_of(c),
{
    c.to_uppercase().collect()
}

/// Whether `c` is white space: Unicode's `White_Space` characters, as
/// `char::is_whitespace` and `str::trim` read them.
pub open spec fn is_unicode_space(c: char) -> bool {
    let n = c as u32;
    (9 <= n <= 13) || n == 32 || n == 0x85 || n == 0xa0 || n == 0x1680 || (0x2000 <= n <= 0x200a)
        || n == 0x2028 || n == 0x2029 || n == 0x202f || n == 0x205f || n == 0x3000
}

/// Whether every character of `s` is white space (so that `s.trim()` is
/// empty).
pub open spec fn all_blank(s: Seq<char>) -> bool {
    forall|i: int| 0 <= i < s.len() ==> is_unicode_space(#[trigger] s[i])
}

fn is_space_exec(c: char) -> (b: bool)
    ensures
        b == is_unicode_space(c),
{
    let n = c as u32;
    (9 <= n && n <= 13) || n == 32 || n == 0x85 || n == 0xa0 || n == 0x1680 || (0x2000 <= n && n
        <= 0x200a) || n == 0x2028 || n == 0x2029 || n == 0x202f || n == 0x205f || n == 0x3000
}

/// Whether `s` is empty once white space is trimmed.
pub fn is_blank(s: &str) -> (b: bool)
    ensures
        b == all_blank(s@),
{
    let cs = chars_of(s);
    let mut i: usize = 0;
    while i < cs.len()
        invariant
            cs@ == s@,
            i <= cs@.len(),
            forall|j: int| 0 <= j < i ==> is_unicode_space(#[trigger] cs@[j]),
        decreases cs@.len() - i,
    {
        if !is_space_exec(cs[i]) {
            return false;
        }
        i = i + 1;
    }
    true
}

/// What `str::to_lowercase` gives for a text, by Unicode's case mapping.
pub uninterp spec fn lower_of(s: Seq<char>) -> Seq<char>;

/// `str::to_lowercase`.
#[verifier::external_body]
pub(crate) fn to_lower(s: &str) -> (r: String)
    ensures
        r@ == lower_of(s@),
{
    s.to_lowercase()
}

/// A character's code with ASCII upper-case letters folded to lower case.
pub open spec fn ascii_fold(c: char) -> u32 {
    let n = c as u32;
    if 65 <= n <= 90 {
        (n + 32) as u32
    } else {
        n
    }
}

/// Whether two texts are equal ignoring ASCII case (what
/// `str::eq_ignore_ascii_case` decides).
pub open spec fn eq_ascii_nocase(a: Seq<char>, b: Seq<char>) -> bool {
    a.len() == b.len() && forall|i: int| 0 <= i < a.len() ==> ascii_fold(#[trigger] a[i]) == ascii_fold(b[i])
}

fn ascii_fold_exec(c: char) -> (n: u32)
    ensures
        n == ascii_fold(c),
{
    let n = c as u32;
    if 65 <= n && n <= 90 {
        n + 32
    } else {
        n
    }
}

/// Whether two strings are equal ignoring ASCII case.
pub fn eq_ignore_ascii_case(a: &str, b: &str) -> (r: bool)
    ensures
        r == eq_ascii_nocase(a@, b@),
{
    let x = chars_of(a);
    let y = chars_of(b);
    if x.len() != y.len() {
        return false;
    }
    let mut i: usize = 0;
    while i < x.len()
        invariant
            x@ == a@,
            y@ == b@,
            x@.len() == y@.len(),
            i <= x@.len(),
            forall|j: int| 0 <= j < i ==> ascii_fold(#[trigger] x@[j]) == ascii_fold(y@[j]),
        decreases x@.len() - i,
    {
        if ascii_fold_exec(x[i]) != ascii_fold_exec(y[i]) {
            return false;
        }
        i = i + 1;
    }
    true
}

/// How many bytes UTF-8 takes for `c`.
pub open spec fn utf8_width(c: char) -> nat {
    let n = c as u32;
    if n < 0x80 {
        1
    } else if n < 0x800 {
        2
    } else if n < 0x10000 {
        3
    } else {
        4
    }
}

/// The characters of `s` that fill exactly its first `b` UTF-8 bytes, or
/// `None` when `b` is past the end or inside a character (where slicing a
/// `str` at `..b` panics).
pub open spec fn byte_prefix(s: Seq<char>, b: nat) -> Option<Seq<char>>
    decreases s.len(),
{
    if b == 0 {
        Some(seq![])
    } else if s.len() == 0 {
        None
    } else if utf8_width(s[0]) > b {
        None
    } else {
        match byte_prefix(s.drop_first(), (b - utf8_width(s[0])) as nat) {
            Some(p) => Some(seq![s[0]] + p),
            None => None,
        }
    }
}

/// The number of UTF-8 bytes of `s`.
pub open spec fn utf8_len(s: Seq<char>) -> nat
    decreases s.len(),
{
    if s.len() == 0 {
        0
    } else {
        utf8_width(s[0]) + utf8_len(s.drop_first())
    }
}

fn utf8_width_exec(c: char) -> (w: usize)
    ensures
        w == utf8_width(c),
{
    let n = c as u32;
    if n < 0x80 {
        1
    } else if n < 0x800 {
        2
    } else if n < 0x10000 {
        3
    } else {
        4
    }
}

/// `&s[..b]` on the characters of `s`: `None` where that slice panics.
pub fn byte_prefix_exec(s: &[char], b: usize) -> (r: Option<Vec<char>>)
    ensures
        match r {
            Some(v) => byte_prefix(s@, b as nat) == Some(v@),
            None => byte_prefix(s@, b as nat) is None,
        },
{
    let mut out: Vec<char> = Vec::new();
    let mut i: usize = 0;
    let mut rem: usize = b;
    assert(s@.skip(0) =~= s@);
    while rem > 0
        invariant
            i <= s@.len(),
            out@ == s@.take(i as int),
            byte_prefix(s@, b as nat) == (match byte_prefix(s@.skip(i as int), rem as nat) {
                Some(p) => Some(out@ + p),
                None => None,
            }),
        decreases rem,
    {
        if i >= s.len() {
            return None;
        }
        let w = utf8_width_exec(s[i]);
        if w > rem {
            return None;
        }
        assert(s@.skip(i as int).drop_first() =~= s@.skip(i + 1));
        assert(s@.skip(i as int)[0] == s@[i as int]);
        let ghost before = out@;
        out.push(s[i]);
        proof {
            match byte_prefix(s@.skip(i + 1), (rem - w) as nat) {
                Some(p) => {
                    assert(before + (seq![s@[i as int]] + p) =~= out@ + p);
                },
                None => {},
            }
        }
        rem = rem - w;
        i = i + 1;
        assert(out@ =~= s@.take(i as int));
    }
    assert(out@ + Seq::<char>::empty() =~= out@);
    Some(out)
}

/// The bytes of two texts add up.
pub proof fn lemma_utf8_len_concat(a: Seq<char>, b: Seq<char>)
    ensures
        utf8_len(a + b) == utf8_len(a) + utf8_len(b),
    decreases a.len(),
{
    if a.len() > 0 {
        lemma_utf8_len_concat(a.drop_first(), b);
        assert((a + b).drop_first() =~= a.drop_first() + b);
    } else {
        assert(a + b =~= b);
    }
}

/// Whether `s` takes at most `limit` UTF-8 bytes.
pub fn utf8_len_at_most(s: &[char], limit: usize) -> (r: bool)
    ensures
        r == (utf8_len(s@) <= limit),
{
    let mut acc: usize = 0;
    let mut i: usize = 0;
    assert(s@.take(0) =~= Seq::<char>::empty());
    while i < s.len()
        invariant
            i <= s@.len(),
            acc <= limit,
            acc == utf8_len(s@.take(i as int)),
        decreases s@.len() - i,
    {
        let w = utf8_width_exec(s[i]);
        proof {
            lemma_utf8_len_concat(s@.take(i as int), seq![s@[i as int]]);
            assert(s@.take(i as int) + seq![s@[i as int]] =~= s@.take(i + 1));
            assert(seq![s@[i as int]].drop_first() =~= Seq::<char>::empty());
            assert(utf8_len(Seq::<char>::empty()) == 0);
            assert(seq![s@[i as int]][0] == s@[i as int]);
            assert(utf8_len(seq![s@[i as int]]) == utf8_width(s@[i as int]));
        }
        if w > limit || acc > limit - w {
            proof {
                lemma_utf8_len_concat(s@.take(i + 1), s@.skip(i + 1));
                assert(s@.take(i + 1) + s@.skip(i + 1) =~= s@);
            }
            return false;
        }
        acc = acc + w;
        i = i + 1;
    }
    assert(s@.take(i as int) =~= s@);
    true
}

/// The texts of a list of strings.
pub open spec fn texts(v: Seq<String>) -> Seq<Seq<char>> {
    v.map_values(|s: String| s@)
}

/// `n` in decimal, with a minus sign when negative.
pub fn signed_decimal_exec(n: i64) -> (out: Vec<char>)
    ensures
        out@ == signed_decimal(n as int),
{
    if n < 0 {
        let m: u64 = (0i128 - n as i128) as u64;
        assert(m == -(n as int));
        let mut out: Vec<char> = Vec::new();
        out.push('-');
        let d = decimal_exec(m);
        push_chars(&mut out, &d);
        assert(out@ =~= seq!['-'] + decimal((-(n as int)) as nat));
        out
    } else {
        decimal_exec(n as u64)
    }
}

} // verus!
