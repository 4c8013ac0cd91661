//! Terminal layout arithmetic: truncation, wrapped-row counting and how much
//! of a list or a page fits on screen.
pub mod pager;

use vstd::prelude::*;

use crate::text::{chars_of, string_of};

verus! {

/// A key read from the terminal.
#[derive(PartialEq, Eq, Structural, Clone, Copy, Debug)]
pub enum Key {
    ArrowUp,
    ArrowDown,
    ArrowLeft,
    ArrowRight,
    PageUp,
    PageDown,
    Enter,
    Escape,
    Tab,
    BackTab,
    Char(char),
    Other,
}

/// What `truncate` makes of `s`: unchanged when it has at most `max`
/// characters, else its first `max - 1` characters (none when `max` is 0)
/// followed by an ellipsis.
pub open spec fn truncated(s: Seq<char>, max: nat) -> Seq<char> {
    if s.len() <= max {
        s
    } else {
        s.take(if max == 0 { 0 } else { max - 1 }) + seq!['…']
    }
}

/// A truncated text fits its budget whenever the budget is at least one
/// character, keeps a text that already fits, and otherwise keeps a prefix.
pub proof fn lemma_truncate_fits(s: Seq<char>, max: nat)
    ensures
        max > 0 ==> truncated(s, max).len() <= max,
        s.len() <= max ==> truncated(s, max) == s,
        s.len() > max ==> truncated(s, max).last() == '…' && truncated(s, max).drop_last()
            =~= s.take(truncated(s, max).len() - 1),
{
}

/// Shortens `s` to at most `max` characters, marking a cut with `…`.
pub fn truncate(s: &str, max: usize) -> (r: String)
    ensures
        r@ == truncated(s@, max as nat),
{
    let cs = chars_of(s);
    if cs.len() <= max {
        return string_of(&cs);
    }
    let keep: usize = if max == 0 { 0 } else { max - 1 };
    let mut out: Vec<char> = Vec::new();
    let mut i: usize = 0;
    while i < keep
        invariant
            keep < cs@.len(),
            i <= keep,
            out@ == cs@.take(i as int),
        decreases keep - i,
    {
        out.push(cs[i]);
        i = i + 1;
        assert(cs@.take(i as int) =~= cs@.take(i - 1) + seq![cs@[i - 1]]);
    }
    out.push('…');
    string_of(&out)
}

} // verus!

verus! {

/// The display width of `s` on a terminal, as `console` measures it (escape
/// sequences stripped, wide characters counted twice).
pub uninterp spec fn text_width(s: Seq<char>) -> nat;

/// `console::measure_text_width`: the terminal width of a string; its result
/// is `text_width` of the characters.
#[verifier::external_body]
pub(crate) fn measure_text_width(s: &str) -> (w: usize)
    ensures
        w == text_width(s@),
{
    console::measure_text_width(s)
}

/// `a / b` rounded up, for `b > 0`.
pub open spec fn ceil_div(a: int, b: int) -> int {
    (a + b - 1) / b
}

/// How many terminal rows a line of display width `w` takes on a terminal
/// `term_w` columns wide: one when either is zero, else `w / term_w` rounded up.
pub open spec fn rows_for_width(w: nat, term_w: nat) -> nat {
    if w == 0 || term_w == 0 {
        1
    } else {
        ceil_div(w as int, term_w as int) as nat
    }
}

/// `rows_for_width` computed.
pub fn rows_for(w: usize, term_w: usize) -> (r: usize)
    ensures
        r == rows_for_width(w as nat, term_w as nat),
        r >= 1,
{
    if w == 0 || term_w == 0 {
        1
    } else {
        let q = w / term_w;
        let rem = w % term_w;
        proof {
            assert(w == q * term_w + rem) by (nonlinear_arith)
                requires
                    q == w / term_w,
                    rem == w % term_w,
                    term_w > 0,
            ;
            assert(ceil_div(w as int, term_w as int) == if rem == 0 { q as int } else { q + 1 })
                by (nonlinear_arith)
                requires
                    w == q * term_w + rem,
                    0 <= rem < term_w,
                    term_w > 0,
                    w > 0,
            ;
            assert(rem == 0 ==> q >= 1) by (nonlinear_arith)
                requires
                    w == q * term_w + rem,
                    w > 0,
                    term_w > 0,
            ;
            assert(rem != 0 ==> q < w) by (nonlinear_arith)
                requires
                    w == q * term_w + rem,
                    0 <= rem < term_w,
                    term_w > 0,
            ;
        }
        if rem == 0 { q } else { q + 1 }
    }
}

/// How many terminal rows `text` takes on a terminal `term_w` columns wide.
pub fn vis_row_count(text: &str, term_w: usize) -> (r: usize)
    ensures
        r == rows_for_width(text_width(text@), term_w as nat),
{
    let w = measure_text_width(text);
    rows_for(w, term_w)
}

/// The sum of `v[m..]`.
pub open spec fn suffix_sum(v: Seq<usize>, m: int) -> int
    decreases v.len() - m,
{
    if m < 0 || m >= v.len() {
        0
    } else {
        v[m] + suffix_sum(v, m + 1)
    }
}

proof fn lemma_suffix_sum_monotone(v: Seq<usize>, a: int, b: int)
    requires
        0 <= a <= b,
    ensures
        suffix_sum(v, b) <= suffix_sum(v, a),
    decreases b - a,
{
    if a < b {
        lemma_suffix_sum_monotone(v, a + 1, b);
    }
}

/// The largest scroll offset that still fills the viewport: the smallest `m`
/// whose lines `m..` fit in `viewport` rows, where a line `m - 1` would not.
pub open spec fn is_max_scroll(v: Seq<usize>, viewport: nat, m: nat) -> bool {
    &&& m <= v.len()
    &&& suffix_sum(v, m as int) <= viewport
    &&& m == 0 || suffix_sum(v, m - 1) > viewport
}

/// The scroll offset past which nothing more comes into view, for lines of
/// the given row heights in a viewport of `viewport` rows.
pub fn calc_max_scroll(vis_rows: &[usize], viewport: usize) -> (m: usize)
    ensures
        is_max_scroll(vis_rows@, viewport as nat, m as nat),
{
    let mut max_scroll: usize = vis_rows.len();
    let mut tail: usize = 0;
    while max_scroll > 0
        invariant
            max_scroll <= vis_rows@.len(),
            tail == suffix_sum(vis_rows@, max_scroll as int),
            tail <= viewport,
        decreases max_scroll,
    {
        let needed = vis_rows[max_scroll - 1];
        if needed > viewport - tail {
            return max_scroll;
        }
        tail = tail + needed;
        max_scroll = max_scroll - 1;
    }
    max_scroll
}

/// How many rows an item takes in a selection list `width` columns wide:
/// its display width plus four columns of selector chrome (counted up to the
/// largest `usize`), wrapped, and at least one.
pub open spec fn item_rows(w: nat, width: nat) -> nat {
    if width > 0 {
        let padded = if w + 4 > usize::MAX { usize::MAX as int } else { w + 4int };
        let r = ceil_div(padded, width as int);
        if r < 1 { 1 } else { r as nat }
    } else {
        1
    }
}

/// The number of leading items, of display widths `widths`, whose wrapped
/// rows fit together in `available` rows.
pub open spec fn items_fitting(widths: Seq<nat>, width: nat, available: nat) -> nat
    decreases widths.len(),
{
    if widths.len() == 0 {
        0
    } else {
        let r = item_rows(widths[0], width);
        if r > available {
            0
        } else {
            1 + items_fitting(widths.drop_first(), width, (available - r) as nat)
        }
    }
}

/// How many list items fit on a terminal `term_width` × `term_height` once
/// `chrome_lines` rows of prompt, header and footer are taken: the leading
/// items whose wrapped rows fit, and at least one.
pub open spec fn visible_items(
    widths: Seq<nat>,
    chrome_lines: nat,
    term_width: nat,
    term_height: nat,
) -> nat {
    let available = if term_height >= chrome_lines { term_height - chrome_lines } else { 0 };
    let n = items_fitting(widths, term_width, available as nat);
    if n < 1 { 1 } else { n }
}

fn item_rows_exec(w: usize, width: usize) -> (r: usize)
    ensures
        r == item_rows(w as nat, width as nat),
{
    if width > 0 {
        let padded: usize = if w > usize::MAX - 4 { usize::MAX } else { w + 4 };
        let q = padded / width;
        let rem = padded % width;
        proof {
            assert(padded == q * width + rem) by (nonlinear_arith)
                requires
                    q == padded / width,
                    rem == padded % width,
                    width > 0,
            ;
            assert(ceil_div(padded as int, width as int) == if rem == 0 { q as int } else { q + 1 })
                by (nonlinear_arith)
                requires
                    padded == q * width + rem,
                    0 <= rem < width,
                    width > 0,
            ;
            assert(rem != 0 ==> q < padded) by (nonlinear_arith)
                requires
                    padded == q * width + rem,
                    0 <= rem < width,
                    width > 0,
            ;
        }
        let r = if rem == 0 { q } else { q + 1 };
        if r < 1 { 1 } else { r }
    } else {
        1
    }
}

/// `items_fitting` computed.
pub fn max_visible_items_for_widths(
    widths: &[usize],
    chrome_lines: usize,
    term_width: usize,
    term_height: usize,
) -> (n: usize)
    ensures
        n == visible_items(
            widths@.map_values(|w: usize| w as nat),
            chrome_lines as nat,
            term_width as nat,
            term_height as nat,
        ),
{
    let available: usize = if term_height >= chrome_lines { term_height - chrome_lines } else { 0 };
    let ghost ws = widths@.map_values(|w: usize| w as nat);
    let mut visual_rows: usize = 0;
    let mut count: usize = 0;
    let mut full = false;
    assert(ws.skip(0) =~= ws);
    while !full && count < widths.len()
        invariant
            full ==> count < widths@.len() && items_fitting(
                ws.skip(count as int),
                term_width as nat,
                (available - visual_rows) as nat,
            ) == 0,
            count <= widths@.len(),
            visual_rows <= available,
            ws == widths@.map_values(|w: usize| w as nat),
            items_fitting(ws, term_width as nat, available as nat) == count + items_fitting(
                ws.skip(count as int),
                term_width as nat,
                (available - visual_rows) as nat,
            ),
        decreases widths@.len() - count + (if full { 0int } else { 1int }),
    {
        let rows = item_rows_exec(widths[count], term_width);
        assert(ws.skip(count as int)[0] == widths@[count as int] as nat);
        assert(ws.skip(count as int).drop_first() =~= ws.skip(count + 1));
        if rows > available - visual_rows {
            full = true;
        } else {
            visual_rows = visual_rows + rows;
            count = count + 1;
        }
    }
    if !full {
        assert(ws.skip(count as int) =~= Seq::<nat>::empty());
    }
    if count < 1 { 1 } else { count }
}

/// How many of `items` fit in a selection list on a terminal of the given
/// size, accounting for line wrap; at least one.
pub fn max_visible_items(
    items: &[String],
    chrome_lines: usize,
    term_width: usize,
    term_height: usize,
) -> (n: usize)
    ensures
        n == visible_items(
            items@.map_values(|s: String| text_width(s@)),
            chrome_lines as nat,
            term_width as nat,
            term_height as nat,
        ),
{
    let mut widths: Vec<usize> = Vec::new();
    let mut i: usize = 0;
    while i < items.len()
        invariant
            i <= items@.len(),
            widths@.len() == i,
            forall|j: int| 0 <= j < i ==> widths@[j] == text_width(items@[j]@),
        decreases items@.len() - i,
    {
        widths.push(measure_text_width(items[i].as_str()));
        i = i + 1;
    }
    let n = max_visible_items_for_widths(&widths, chrome_lines, term_width, term_height);
    assert(widths@.map_values(|w: usize| w as nat) =~= items@.map_values(
        |s: String| text_width(s@),
    ));
    n
}

} // verus!
