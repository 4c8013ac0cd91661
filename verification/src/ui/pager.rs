//! A scrollable viewport over pre-rendered text: the layout it computes and
//! how it answers scroll keys. Drawing and reading keys are left to the caller.
use vstd::prelude::*;

use super::{calc_max_scroll, is_max_scroll, rows_for_width, text_width, vis_row_count, Key};
use crate::text::{chars_of, string_of};

verus! {

/// Position of the first `'\n'` in `s`, if any.
pub open spec fn newline_pos(s: Seq<char>) -> Option<nat>
    decreases s.len(),
{
    if s.len() == 0 {
        None
    } else if s[0] == '\n' {
        Some(0)
    } else {
        match newline_pos(s.drop_first()) {
            Some(k) => Some(k + 1),
            None => None,
        }
    }
}

/// A line that ended in `'\n'`, without a carriage return just before it.
pub open spec fn strip_cr(l: Seq<char>) -> Seq<char> {
    if l.len() > 0 && l.last() == '\r' {
        l.drop_last()
    } else {
        l
    }
}

pub proof fn lemma_newline_pos(s: Seq<char>)
    ensures
        newline_pos(s) matches Some(k) ==> k < s.len() && s[k as int] == '\n' && forall|j: int|
            0 <= j < k ==> s[j] != '\n',
        newline_pos(s) is None ==> forall|j: int| 0 <= j < s.len() ==> s[j] != '\n',
    decreases s.len(),
{
    if s.len() > 0 && s[0] != '\n' {
        lemma_newline_pos(s.drop_first());
        assert forall|j: int| 1 <= j < s.len() implies s[j] == s.drop_first()[j - 1] by {}
    }
}

/// The lines of `s` as `str::lines` gives them: split at each `'\n'` (a `'\r'`
/// just before it dropped), with no empty line after a final `'\n'`.
pub open spec fn split_lines(s: Seq<char>) -> Seq<Seq<char>>
    decreases s.len(),
{
    if s.len() == 0 {
        seq![]
    } else {
        match newline_pos(s) {
            Some(k) => {
                proof {
                    lemma_newline_pos(s);
                }
                seq![strip_cr(s.take(k as int))] + split_lines(s.skip(k + 1int))
            },
            None => seq![s],
        }
    }
}

/// The lines of `s`, as `str::lines` splits them.
pub fn lines_of(s: &str) -> (r: Vec<String>)
    ensures
        r@.map_values(|l: String| l@) == split_lines(s@),
{
    let cs = chars_of(s);
    let mut out: Vec<String> = Vec::new();
    let mut start: usize = 0;
    let mut cur: Vec<char> = Vec::new();
    let mut i: usize = 0;
    proof {
        assert(cs@.skip(0) =~= cs@);
        assert(out@.map_values(|l: String| l@) =~= Seq::<Seq<char>>::empty());
    }
    while i < cs.len()
        invariant
            start <= i <= cs@.len(),
            cur@ == cs@.subrange(start as int, i as int),
            forall|j: int| start <= j < i ==> cs@[j] != '\n',
            out@.map_values(|l: String| l@) + split_lines(cs@.skip(start as int)) == split_lines(
                cs@,
            ),
        decreases cs@.len() - i,
    {
        if cs[i] == '\n' {
            let ghost rest = cs@.skip(start as int);
            proof {
                lemma_newline_pos(rest);
                assert(rest[i - start] == '\n');
                assert forall|j: int| 0 <= j < i - start implies rest[j] != '\n' by {}
                assert(newline_pos(rest) == Some((i - start) as nat)) by {
                    match newline_pos(rest) {
                        Some(k) => {
                            if k < i - start {
                                assert(rest[k as int] != '\n');
                            }
                            if k > i - start {
                                assert(rest[i - start] != '\n');
                            }
                        },
                        None => {
                            assert(rest[i - start] != '\n');
                        },
                    }
                }
                assert(rest.take(i - start) =~= cur@);
                assert(rest.skip(i - start + 1) =~= cs@.skip(i + 1));
            }
            let line = if cur.len() > 0 && cur[cur.len() - 1] == '\r' {
                let mut t: Vec<char> = Vec::new();
                let mut k: usize = 0;
                while k < cur.len() - 1
                    invariant
                        k + 1 <= cur@.len(),
                        t@ == cur@.take(k as int),
                    decreases cur@.len() - k,
                {
                    t.push(cur[k]);
                    k = k + 1;
                    assert(cur@.take(k as int) =~= cur@.take(k - 1) + seq![cur@[k - 1]]);
                }
                assert(t@ =~= cur@.drop_last());
                string_of(&t)
            } else {
                string_of(&cur)
            };
            let ghost prev = out@.map_values(|l: String| l@);
            out.push(line);
            assert(out@.map_values(|l: String| l@) =~= prev.push(strip_cr(cur@)));
            i = i + 1;
            start = i;
            cur = Vec::new();
            assert(cur@ =~= cs@.subrange(start as int, i as int));
        } else {
            cur.push(cs[i]);
            i = i + 1;
            assert(cur@ =~= cs@.subrange(start as int, i as int));
        }
    }
    if start < cs.len() {
        let ghost rest = cs@.skip(start as int);
        proof {
            lemma_newline_pos(rest);
            assert forall|j: int| 0 <= j < rest.len() implies rest[j] != '\n' by {}
            assert(newline_pos(rest) is None) by {
                if let Some(k) = newline_pos(rest) {
                    assert(rest[k as int] == '\n');
                }
            }
            assert(rest =~= cur@);
        }
        let ghost prev = out@.map_values(|l: String| l@);
        out.push(string_of(&cur));
        assert(out@.map_values(|l: String| l@) =~= prev.push(cur@));
        assert(prev.push(cur@) =~= prev + split_lines(rest));
    } else {
        assert(cs@.skip(start as int) =~= Seq::<char>::empty());
        assert(out@.map_values(|l: String| l@) + split_lines(cs@.skip(start as int)) =~= out@.map_values(
            |l: String| l@,
        ));
    }
    out
}

/// What a pager key handler reports back.
pub enum Action {
    /// The scroll position was handled; draw again.
    Redraw,
    /// A key the pager does not scroll with, for the caller.
    Custom(Key),
}

/// Scrolling up one line: `↑` or `k`.
pub open spec fn is_up_key(k: Key) -> bool {
    k == Key::ArrowUp || k == Key::Char('k')
}

/// Scrolling down one line: `↓` or `j`.
pub open spec fn is_down_key(k: Key) -> bool {
    k == Key::ArrowDown || k == Key::Char('j')
}

/// Half a page up: Page Up or Ctrl-U.
pub open spec fn is_half_up_key(k: Key) -> bool {
    k == Key::PageUp || k == Key::Char('\u{15}')
}

/// Half a page down: Page Down or Ctrl-D.
pub open spec fn is_half_down_key(k: Key) -> bool {
    k == Key::PageDown || k == Key::Char('\u{4}')
}

/// A key that moves the viewport.
pub open spec fn is_scroll_key(k: Key) -> bool {
    is_up_key(k) || is_down_key(k) || is_half_up_key(k) || is_half_down_key(k)
}

/// Half a page up from `s`: step back a line while `s > 0` and fewer than
/// `half` rows have been passed.
pub open spec fn half_page_up(v: Seq<usize>, s: int, rows: int, half: int) -> int
    decreases s,
{
    if s > 0 && rows < half {
        half_page_up(v, s - 1, rows + v[s - 1], half)
    } else {
        s
    }
}

/// Half a page down from `s`: step forward a line while `s < max` and fewer
/// than `half` rows have been passed.
pub open spec fn half_page_down(v: Seq<usize>, s: int, max: int, rows: int, half: int) -> int
    decreases max - s,
{
    if s < max && rows < half {
        half_page_down(v, s + 1, max, rows + v[s], half)
    } else {
        s
    }
}

proof fn lemma_half_page_up_bounds(v: Seq<usize>, s: int, rows: int, half: int)
    requires
        s >= 0,
    ensures
        0 <= half_page_up(v, s, rows, half) <= s,
    decreases s,
{
    if s > 0 && rows < half {
        lemma_half_page_up_bounds(v, s - 1, rows + v[s - 1], half);
    }
}

proof fn lemma_half_page_down_bounds(v: Seq<usize>, s: int, max: int, rows: int, half: int)
    requires
        s <= max,
    ensures
        s <= half_page_down(v, s, max, rows, half) <= max,
    decreases max - s,
{
    if s < max && rows < half {
        lemma_half_page_down_bounds(v, s + 1, max, rows + v[s], half);
    }
}

/// The scroll offset after `key`, from offset `scroll`, for lines of heights
/// `v` in a viewport of `viewport` rows that can scroll up to `max`.
pub open spec fn next_scroll(v: Seq<usize>, viewport: nat, max: nat, scroll: nat, key: Key) -> nat {
    if is_up_key(key) {
        if scroll > 0 { (scroll - 1) as nat } else { 0 }
    } else if is_down_key(key) {
        if scroll < max { scroll + 1 } else { scroll }
    } else if is_half_up_key(key) {
        half_page_up(v, scroll as int, 0, (viewport / 2) as int) as nat
    } else if is_half_down_key(key) {
        half_page_down(v, scroll as int, max as int, 0, (viewport / 2) as int) as nat
    } else {
        scroll
    }
}

/// The last line drawn, drawing from `i` with `used` rows already taken:
/// lines are drawn while each still fits whole in the viewport.
pub open spec fn fit_end(v: Seq<usize>, i: int, used: int, viewport: int) -> int
    decreases v.len() - i,
{
    if i >= 0 && i < v.len() && used + v[i] <= viewport {
        fit_end(v, i + 1, used + v[i], viewport)
    } else {
        i
    }
}

proof fn lemma_fit_end_bounds(v: Seq<usize>, i: int, used: int, viewport: int)
    requires
        0 <= i <= v.len(),
    ensures
        i <= fit_end(v, i, used, viewport) <= v.len(),
    decreases v.len() - i,
{
    if i < v.len() && used + v[i] <= viewport {
        lemma_fit_end_bounds(v, i + 1, used + v[i], viewport);
    }
}

/// Terminal-aware scrollable pager over the lines of some content.
pub struct Pager {
    lines: Vec<String>,
    vis_rows: Vec<usize>,
    viewport: usize,
    max_scroll: usize,
    scroll: usize,
    scrollable: bool,
}

impl Pager {
    #[verifier::type_invariant]
    spec fn well_formed(self) -> bool {
        &&& self.vis_rows@.len() == self.lines@.len()
        &&& is_max_scroll(self.vis_rows@, self.viewport as nat, self.max_scroll as nat)
        &&& self.scroll <= self.max_scroll
        &&& self.scrollable == (self.max_scroll > 0)
    }

    /// The lines shown.
    pub closed spec fn line_texts(self) -> Seq<Seq<char>> {
        self.lines@.map_values(|l: String| l@)
    }

    /// How many terminal rows each line takes.
    pub closed spec fn row_heights(self) -> Seq<usize> {
        self.vis_rows@
    }

    /// Rows available for content.
    pub closed spec fn viewport_rows(self) -> nat {
        self.viewport as nat
    }

    /// The largest scroll offset.
    pub closed spec fn max_offset(self) -> nat {
        self.max_scroll as nat
    }

    /// The current scroll offset (a line index).
    pub closed spec fn offset(self) -> nat {
        self.scroll as nat
    }

    /// Lays out `content` on a terminal of `term_rows` × `term_cols`, with
    /// room kept for a header, a blank line, the wrapped `footer_hint` and
    /// the cursor; it starts at the top.
    pub fn new(content: &str, footer_hint: &str, term_rows: u16, term_cols: u16) -> (p: Self)
        ensures
            p.line_texts() == split_lines(content@),
            p.row_heights().len() == p.line_texts().len(),
            forall|i: int|
                0 <= i < p.row_heights().len() ==> #[trigger] p.row_heights()[i]
                    == rows_for_width(text_width(p.line_texts()[i]), term_cols as nat),
            ({
                let hint_rows = rows_for_width(text_width(footer_hint@), term_cols as nat);
                let chrome = 3 + hint_rows;
                p.viewport_rows() == if term_rows >= chrome { term_rows - chrome } else { 0 }
            }),
            is_max_scroll(p.row_heights(), p.viewport_rows(), p.max_offset()),
            p.offset() == 0,
    {
        let term_w = term_cols as usize;
        let lines = lines_of(content);
        let mut vis_rows: Vec<usize> = Vec::new();
        let mut i: usize = 0;
        while i < lines.len()
            invariant
                i <= lines@.len(),
                vis_rows@.len() == i,
                forall|j: int|
                    0 <= j < i ==> vis_rows@[j] == rows_for_width(
                        text_width(lines@[j]@),
                        term_w as nat,
                    ),
            decreases lines@.len() - i,
        {
            vis_rows.push(vis_row_count(lines[i].as_str(), term_w));
            i = i + 1;
        }
        let hint_rows = vis_row_count(footer_hint, term_w);
        let chrome: usize = if hint_rows > usize::MAX - 3 { usize::MAX } else { 3 + hint_rows };
        let rows = term_rows as usize;
        let viewport: usize = if rows >= chrome { rows - chrome } else { 0 };
        let max_scroll = calc_max_scroll(&vis_rows, viewport);
        let p = Pager {
            lines,
            vis_rows,
            viewport,
            max_scroll,
            scroll: 0,
            scrollable: max_scroll > 0,
        };
        p
    }

    /// Whether the content overflows the viewport.
    pub fn is_scrollable(&self) -> (b: bool)
        ensures
            b == (self.max_offset() > 0),
    {
        proof {
            use_type_invariant(self);
        }
        self.scrollable
    }

    /// The current scroll offset (logical line index).
    pub fn scroll_offset(&self) -> (s: usize)
        ensures
            s == self.offset(),
    {
        self.scroll
    }

    /// The number of logical lines.
    pub fn line_count(&self) -> (n: usize)
        ensures
            n == self.line_texts().len(),
    {
        proof {
            use_type_invariant(self);
        }
        self.lines.len()
    }

    /// The line with index `i`.
    pub fn line(&self, i: usize) -> (l: &String)
        requires
            i < self.line_texts().len(),
        ensures
            l@ == self.line_texts()[i as int],
    {
        &self.lines[i]
    }

    /// The lines to draw now: from the scroll offset, as many whole lines as
    /// fit in the viewport.
    pub fn visible_range(&self) -> (r: (usize, usize))
        ensures
            r.0 == self.offset(),
            r.1 == fit_end(self.row_heights(), self.offset() as int, 0, self.viewport_rows() as int),
            r.0 <= r.1 <= self.line_texts().len(),
    {
        proof {
            use_type_invariant(self);
            lemma_fit_end_bounds(self.vis_rows@, self.scroll as int, 0, self.viewport as int);
        }
        let mut rows_used: usize = 0;
        let mut i: usize = self.scroll;
        let mut full = false;
        while !full && i < self.lines.len()
            invariant
                full ==> i < self.lines@.len() && rows_used + self.vis_rows@[i as int]
                    > self.viewport,
                self.vis_rows@.len() == self.lines@.len(),
                self.scroll <= i <= self.lines@.len(),
                rows_used <= self.viewport,
                fit_end(self.vis_rows@, i as int, rows_used as int, self.viewport as int) == fit_end(
                    self.vis_rows@,
                    self.scroll as int,
                    0,
                    self.viewport as int,
                ),
            decreases self.lines@.len() - i + (if full { 0int } else { 1int }),
        {
            if self.vis_rows[i] > self.viewport - rows_used {
                full = true;
            } else {
                rows_used = rows_used + self.vis_rows[i];
                i = i + 1;
            }
        }
        (self.scroll, i)
    }

    /// Handles a key: scroll keys move the viewport and ask for a redraw,
    /// every other key is handed back.
    pub fn handle_key(&mut self, key: Key) -> (a: Action)
        ensures
            final(self).offset() == next_scroll(
                old(self).row_heights(),
                old(self).viewport_rows(),
                old(self).max_offset(),
                old(self).offset(),
                key,
            ),
            final(self).line_texts() == old(self).line_texts(),
            final(self).row_heights() == old(self).row_heights(),
            final(self).viewport_rows() == old(self).viewport_rows(),
            final(self).max_offset() == old(self).max_offset(),
            is_scroll_key(key) ==> a is Redraw,
            !is_scroll_key(key) ==> a == Action::Custom(key),
    {
        proof {
            use_type_invariant(&*self);
        }
        let ghost v = self.vis_rows@;
        let ghost max = self.max_scroll as int;
        let half = self.viewport / 2;
        if key == Key::ArrowUp || key == Key::Char('k') {
            self.scroll = if self.scroll > 0 { self.scroll - 1 } else { 0 };
            Action::Redraw
        } else if key == Key::ArrowDown || key == Key::Char('j') {
            if self.scroll < self.max_scroll {
                self.scroll = self.scroll + 1;
            }
            Action::Redraw
        } else if key == Key::PageUp || key == Key::Char('\u{15}') {
            let mut s = self.scroll;
            let mut rows: u128 = 0;
            proof {
                lemma_half_page_up_bounds(v, s as int, 0, half as int);
            }
            while s > 0 && rows < half as u128
                invariant
                    v == self.vis_rows@,
                    s <= self.scroll <= self.max_scroll <= v.len(),
                    rows <= usize::MAX as u128 * 2,
                    half_page_up(v, s as int, rows as int, half as int) == half_page_up(
                        v,
                        self.scroll as int,
                        0,
                        half as int,
                    ),
                decreases s,
            {
                s = s - 1;
                rows = rows + self.vis_rows[s] as u128;
            }
            self.scroll = s;
            Action::Redraw
        } else if key == Key::PageDown || key == Key::Char('\u{4}') {
            let mut s = self.scroll;
            let mut rows: u128 = 0;
            while s < self.max_scroll && rows < half as u128
                invariant
                    v == self.vis_rows@,
                    self.scroll <= s <= self.max_scroll <= v.len(),
                    max == self.max_scroll as int,
                    rows <= usize::MAX as u128 * 2,
                    half_page_down(v, s as int, max, rows as int, half as int) == half_page_down(
                        v,
                        self.scroll as int,
                        max,
                        0,
                        half as int,
                    ),
                decreases self.max_scroll - s,
            {
                rows = rows + self.vis_rows[s] as u128;
                s = s + 1;
            }
            self.scroll = s;
            Action::Redraw
        } else {
            Action::Custom(key)
        }
    }
}

/// A line down and then a line up leave a pager where it was, whenever it
/// could scroll down.
pub proof fn lemma_down_then_up(v: Seq<usize>, viewport: nat, max: nat, scroll: nat)
    requires
        scroll < max,
    ensures
        next_scroll(
            v,
            viewport,
            max,
            next_scroll(v, viewport, max, scroll, Key::ArrowDown),
            Key::ArrowUp,
        ) == scroll,
{
}

/// No key moves the scroll offset past the last useful one.
pub proof fn lemma_scroll_stays_in_range(
    v: Seq<usize>,
    viewport: nat,
    max: nat,
    scroll: nat,
    key: Key,
)
    requires
        scroll <= max,
    ensures
        next_scroll(v, viewport, max, scroll, key) <= max,
{
    lemma_half_page_up_bounds(v, scroll as int, 0, (viewport / 2) as int);
    lemma_half_page_down_bounds(v, scroll as int, max as int, 0, (viewport / 2) as int);
}

} // verus!
