//! Moving through records one at a time in a detail view: the position, the
//! footer of key hints and the header with the position.
use vstd::prelude::*;

use crate::text::{chars_of, decimal, decimal_exec, join, push_chars, push_str, string_of, texts};
use crate::ui::Key;

verus! {

/// What a key does in a detail view.
#[derive(Debug, Clone, Copy, PartialEq, Eq, Structural)]
pub enum DetailMove {
    /// Show the previous record (`←`, `h`).
    Prev,
    /// Show the next record (`→`, `l`).
    Next,
    /// Leave the view (`q`, escape).
    Back,
    /// A key the view's own actions may take.
    Other(Key),
}

/// What a key does in a detail view.
pub open spec fn spec_detail_move(k: Key) -> DetailMove {
    match k {
        Key::ArrowLeft | Key::Char('h') => DetailMove::Prev,
        Key::ArrowRight | Key::Char('l') => DetailMove::Next,
        Key::Escape | Key::Char('q') => DetailMove::Back,
        _ => DetailMove::Other(k),
    }
}

/// What a key does in a detail view.
pub fn detail_move(k: Key) -> (m: DetailMove)
    ensures
        m == spec_detail_move(k),
{
    match k {
        Key::ArrowLeft | Key::Char('h') => DetailMove::Prev,
        Key::ArrowRight | Key::Char('l') => DetailMove::Next,
        Key::Escape | Key::Char('q') => DetailMove::Back,
        _ => DetailMove::Other(k),
    }
}

/// The previous position, staying at the first.
pub open spec fn prev_index(idx: nat) -> nat {
    if idx > 0 {
        (idx - 1) as nat
    } else {
        0
    }
}

/// The next position, staying at the last.
pub open spec fn next_index(idx: nat, total: nat) -> nat {
    if idx + 1 < total {
        idx + 1
    } else {
        idx
    }
}

/// The previous position, staying at the first.
pub fn prev(idx: usize) -> (r: usize)
    ensures
        r == prev_index(idx as nat),
{
    if idx > 0 {
        idx - 1
    } else {
        0
    }
}

/// The next position, staying at the last.
pub fn next(idx: usize, total: usize) -> (r: usize)
    requires
        idx < total,
    ensures
        r == next_index(idx as nat, total as nat),
{
    if idx < total - 1 {
        idx + 1
    } else {
        idx
    }
}

/// Moving never leaves the records, and going forward then back returns to
/// where one was (unless one was at the last record).
pub proof fn lemma_moves_stay_and_undo(idx: nat, total: nat)
    requires
        idx < total,
    ensures
        prev_index(idx) < total,
        next_index(idx, total) < total,
        idx + 1 < total ==> prev_index(next_index(idx, total)) == idx,
        idx > 0 ==> next_index(prev_index(idx), total) == idx,
{
}

/// The key hints of a detail view: previous and next where there are such
/// records, scrolling when the content scrolls, then the view's actions.
pub open spec fn footer_items(idx: nat, total: nat, scrollable: bool, actions: Seq<Seq<char>>) -> Seq<Seq<char>> {
    let a: Seq<Seq<char>> = if idx > 0 {
        seq!["← prev"@]
    } else {
        seq![]
    };
    let b = if idx + 1 < total {
        a.push("→ next"@)
    } else {
        a
    };
    let c = if scrollable {
        b + seq!["↑↓/jk scroll"@, "^u/^d half-page"@]
    } else {
        b
    };
    c + actions
}

/// The key hints joined as the footer shows them.
pub open spec fn footer_text(idx: nat, total: nat, scrollable: bool, actions: Seq<Seq<char>>) -> Seq<char> {
    join(footer_items(idx, total, scrollable, actions), " · "@)
}

fn push_item(v: &mut Vec<String>, s: &str)
    ensures
        texts(final(v)@) == texts(old(v)@).push(s@),
{
    let ghost before = texts(v@);
    v.push(string_of(&chars_of(s)));
    assert(texts(v@) =~= before.push(s@));
}

/// The footer of a detail view (measured with scrolling shown, then shown
/// with it only when the content scrolls).
pub fn footer(idx: usize, total: usize, scrollable: bool, actions: &[String]) -> (r: String)
    ensures
        r@ == footer_text(idx as nat, total as nat, scrollable, texts(actions@)),
{
    let mut items: Vec<String> = Vec::new();
    assert(texts(items@) =~= Seq::<Seq<char>>::empty());
    if idx > 0 {
        push_item(&mut items, "← prev");
    }
    let ghost a = texts(items@);
    if idx < total && total - idx > 1 {
        push_item(&mut items, "→ next");
    }
    let ghost b = texts(items@);
    if scrollable {
        push_item(&mut items, "↑↓/jk scroll");
        push_item(&mut items, "^u/^d half-page");
    }
    let ghost c = texts(items@);
    let mut i: usize = 0;
    while i < actions.len()
        invariant
            i <= actions@.len(),
            texts(items@) == c + texts(actions@).take(i as int),
        decreases actions@.len() - i,
    {
        push_item(&mut items, actions[i].as_str());
        i = i + 1;
        assert(texts(actions@).take(i as int) =~= texts(actions@).take(i - 1).push(actions@[i - 1]@));
        assert(texts(items@) =~= c + texts(actions@).take(i as int));
    }
    assert(texts(actions@).take(i as int) =~= texts(actions@));
    assert(texts(items@) =~= footer_items(idx as nat, total as nat, scrollable, texts(actions@)));
    let j = crate::text::join_strings(&items, " · ");
    string_of(&j)
}

/// The header of a detail view: the record's position, and where the
/// scroll is when the content scrolls.
pub open spec fn header_text(idx: nat, total: nat, scroll: Option<(nat, nat)>) -> Seq<char> {
    "["@ + decimal(idx + 1) + "/"@ + decimal(total) + "]"@ + match scroll {
        Some((offset, lines)) => " ↕ "@ + decimal(offset + 1) + "/"@ + decimal(lines),
        None => seq![],
    }
}

/// The header of a detail view.
pub fn header(idx: usize, total: usize, scroll: Option<(usize, usize)>) -> (r: String)
    requires
        idx < total,
        scroll matches Some((o, l)) ==> o < l,
    ensures
        r@ == header_text(
            idx as nat,
            total as nat,
            match scroll {
                Some((o, l)) => Some((o as nat, l as nat)),
                None => None,
            },
        ),
{
    let mut b = chars_of("[");
    push_chars(&mut b, &decimal_exec((idx + 1) as u64));
    push_str(&mut b, "/");
    push_chars(&mut b, &decimal_exec(total as u64));
    push_str(&mut b, "]");
    match scroll {
        Some((o, l)) => {
            push_str(&mut b, " ↕ ");
            push_chars(&mut b, &decimal_exec((o + 1) as u64));
            push_str(&mut b, "/");
            push_chars(&mut b, &decimal_exec(l as u64));
        },
        None => {},
    }
    string_of(&b)
}

} // verus!
