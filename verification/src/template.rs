//! `{{{VAR}}}` placeholders in e-mail templates: substituting them and finding
//! the ones left over.
use vstd::prelude::*;

use crate::text::{
    chars_of, contains_seq, occurs_at, occurs_at_exec, push_chars, replace_all, replace_all_exec,
    string_of, texts,
};

verus! {

/// `{{{` + `key` + `}}}`.
pub open spec fn placeholder(key: Seq<char>) -> Seq<char> {
    seq!['{', '{', '{'] + key + seq!['}', '}', '}']
}

/// The (key, value) pairs of a variable list, by value.
pub open spec fn pairs_view(vars: Seq<(String, String)>) -> Seq<(Seq<char>, Seq<char>)> {
    vars.map_values(|p: (String, String)| (p.0@, p.1@))
}

/// `text` with the placeholder of each variable replaced by its value, the
/// variables taken in the order given.
pub open spec fn substituted(text: Seq<char>, vars: Seq<(Seq<char>, Seq<char>)>) -> Seq<char>
    decreases vars.len(),
{
    if vars.len() == 0 {
        text
    } else {
        replace_all(
            substituted(text, vars.drop_last()),
            placeholder(vars.last().0),
            vars.last().1,
        )
    }
}

/// A character allowed in a variable name: `A`–`Z` or `_`.
pub open spec fn is_var_char(c: char) -> bool {
    ('A' <= c && c <= 'Z') || c == '_'
}

/// A non-empty name made of upper-case ASCII letters and underscores.
pub open spec fn is_var_name(n: Seq<char>) -> bool {
    n.len() > 0 && forall|i: int| 0 <= i < n.len() ==> is_var_char(#[trigger] n[i])
}

/// `}}}`.
pub open spec fn closing() -> Seq<char> {
    seq!['}', '}', '}']
}

/// `{{{`.
pub open spec fn opening() -> Seq<char> {
    seq!['{', '{', '{']
}

/// The end of the run of variable characters that starts at `k`: the first
/// index at or after `k` that holds no variable character, or the length.
pub open spec fn var_run_end(t: Seq<char>, k: int) -> int
    decreases t.len() - k,
{
    if k < 0 || k >= t.len() || !is_var_char(t[k]) {
        k
    } else {
        var_run_end(t, k + 1)
    }
}

/// The name of the placeholder that starts at `i`, if one does.
pub open spec fn name_at(t: Seq<char>, i: int) -> Option<Seq<char>> {
    let j = var_run_end(t, i + 3);
    if occurs_at(t, opening(), i) && j > i + 3 && occurs_at(t, closing(), j) {
        Some(t.subrange(i + 3, j))
    } else {
        None
    }
}

/// The names of the placeholders starting at `i` or later, added in order of
/// position to `found` when not already in it.
pub open spec fn names_from(t: Seq<char>, i: int, found: Seq<Seq<char>>) -> Seq<Seq<char>>
    decreases t.len() - i,
{
    if i < 0 || i >= t.len() {
        found
    } else {
        match name_at(t, i) {
            Some(n) => if found.contains(n) {
                names_from(t, i + 1, found)
            } else {
                names_from(t, i + 1, found.push(n))
            },
            None => names_from(t, i + 1, found),
        }
    }
}

/// The variable names whose placeholder occurs in `t`, each once, in order
/// of first occurrence.
pub open spec fn unresolved(t: Seq<char>) -> Seq<Seq<char>> {
    names_from(t, 0, seq![])
}

/// The run of variable characters from `k` ends at `j` exactly when all
/// characters in between are variable characters and none is at `j`.
proof fn lemma_var_run_end(t: Seq<char>, k: int, j: int)
    requires
        0 <= k <= j <= t.len(),
    ensures
        var_run_end(t, k) == j <==> ((forall|m: int| k <= m < j ==> is_var_char(#[trigger] t[m]))
            && (j == t.len() || !is_var_char(t[j]))),
        k <= var_run_end(t, k) <= t.len(),
    decreases t.len() - k,
{
    if k >= t.len() || !is_var_char(t[k]) {
        if k < j {
            assert(!is_var_char(t[k]));
        }
    } else {
        if k < j {
            lemma_var_run_end(t, k + 1, j);
        } else {
            lemma_var_run_end(t, k + 1, t.len() as int);
        }
    }
}

/// A placeholder starts at `i` with name `n` exactly when `name_at` says so.
pub proof fn lemma_name_at(t: Seq<char>, i: int, n: Seq<char>)
    ensures
        name_at(t, i) == Some(n) <==> (is_var_name(n) && occurs_at(t, placeholder(n), i)),
{
    let j = var_run_end(t, i + 3);
    if occurs_at(t, opening(), i) {
        lemma_var_run_end(t, i + 3, t.len() as int);
        if name_at(t, i) == Some(n) {
            assert(n =~= t.subrange(i + 3, j));
            lemma_var_run_end(t, i + 3, j);
            assert forall|m: int| 0 <= m < n.len() implies is_var_char(#[trigger] n[m]) by {
                assert(n[m] == t[i + 3 + m]);
            }
            assert(t.subrange(i, i + placeholder(n).len()) =~= placeholder(n)) by {
                assert(t.subrange(i, i + 3) == opening());
                assert(t.subrange(j, j + 3) == closing());
                assert forall|m: int| 0 <= m < placeholder(n).len() implies t.subrange(
                    i,
                    i + placeholder(n).len(),
                )[m] == placeholder(n)[m] by {
                    if m < 3 {
                        assert(t.subrange(i, i + 3)[m] == t[i + m]);
                    } else if m < 3 + n.len() {
                    } else {
                        assert(t.subrange(j, j + 3)[m - 3 - n.len()] == t[j + m - 3 - n.len()]);
                    }
                }
            }
        }
        if is_var_name(n) && occurs_at(t, placeholder(n), i) {
            let e = i + 3 + n.len();
            let sub = t.subrange(i, i + placeholder(n).len());
            assert forall|m: int| i + 3 <= m < e implies is_var_char(#[trigger] t[m]) by {
                assert(sub[m - i] == placeholder(n)[m - i]);
                assert(placeholder(n)[m - i] == n[m - i - 3]);
            }
            assert(sub[3 + n.len() as int] == '}');
            assert(t[e] == '}');
            lemma_var_run_end(t, i + 3, e);
            assert(var_run_end(t, i + 3) == e);
            assert(t.subrange(e, e + 3) =~= closing()) by {
                assert forall|m: int| 0 <= m < 3 implies t.subrange(e, e + 3)[m] == closing()[m] by {
                    assert(sub[3 + n.len() + m] == placeholder(n)[3 + n.len() + m]);
                }
            }
            assert(t.subrange(i + 3, e) =~= n) by {
                assert forall|m: int| 0 <= m < n.len() implies t.subrange(i + 3, e)[m] == n[m] by {
                    assert(sub[3 + m] == placeholder(n)[3 + m]);
                }
            }
        }
    } else {
        if is_var_name(n) && occurs_at(t, placeholder(n), i) {
            let sub = t.subrange(i, i + placeholder(n).len());
            assert(t.subrange(i, i + 3) =~= opening()) by {
                assert forall|m: int| 0 <= m < 3 implies t.subrange(i, i + 3)[m] == opening()[m] by {
                    assert(sub[m] == placeholder(n)[m]);
                }
            }
        }
    }
}

/// What `names_from` holds: what `found` held, and the name of every
/// placeholder starting at `i` or later.
proof fn lemma_names_from(t: Seq<char>, i: int, found: Seq<Seq<char>>, n: Seq<char>)
    requires
        0 <= i,
    ensures
        names_from(t, i, found).contains(n) <==> (found.contains(n) || exists|k: int|
            i <= k < t.len() && #[trigger] name_at(t, k) == Some(n)),
    decreases t.len() - i,
{
    if i >= t.len() {
    } else {
        let f2 = match name_at(t, i) {
            Some(m) => if found.contains(m) { found } else { found.push(m) },
            None => found,
        };
        lemma_names_from(t, i + 1, f2, n);
        assert(f2.contains(n) <==> (found.contains(n) || name_at(t, i) == Some(n))) by {
            if let Some(m) = name_at(t, i) {
                if !found.contains(m) {
                    if f2.contains(n) && !found.contains(n) {
                        let w = choose|w: int| 0 <= w < f2.len() && f2[w] == n;
                        if w < found.len() {
                            assert(found[w] == n);
                        }
                    }
                    if found.contains(n) {
                        let w = choose|w: int| 0 <= w < found.len() && found[w] == n;
                        assert(f2[w] == n);
                    }
                    if name_at(t, i) == Some(n) {
                        assert(f2[found.len() as int] == n);
                    }
                }
            }
        }
        if exists|k: int| i <= k < t.len() && #[trigger] name_at(t, k) == Some(n) {
            let k = choose|k: int| i <= k < t.len() && #[trigger] name_at(t, k) == Some(n);
            if k > i {
                assert(i + 1 <= k < t.len() && name_at(t, k) == Some(n));
            }
        }
    }
}

/// What `names_from` adds keeps the list free of repeats.
proof fn lemma_names_from_distinct(t: Seq<char>, i: int, found: Seq<Seq<char>>)
    requires
        found.no_duplicates(),
    ensures
        names_from(t, i, found).no_duplicates(),
    decreases t.len() - i,
{
    if i < 0 || i >= t.len() {
    } else {
        match name_at(t, i) {
            Some(n) => if found.contains(n) {
                lemma_names_from_distinct(t, i + 1, found);
            } else {
                let f2 = found.push(n);
                assert forall|a: int, b: int|
                    0 <= a < f2.len() && 0 <= b < f2.len() && a != b implies f2[a] != f2[b] by {
                    if a == found.len() as int {
                        assert(found[b] == f2[b]);
                    } else if b == found.len() as int {
                        assert(found[a] == f2[a]);
                    }
                }
                lemma_names_from_distinct(t, i + 1, f2);
            },
            None => lemma_names_from_distinct(t, i + 1, found),
        }
    }
}

/// The unresolved names of `t` are exactly the variable names whose
/// placeholder `{{{NAME}}}` occurs in `t`, and each is reported once.
pub proof fn lemma_unresolved_exact(t: Seq<char>, n: Seq<char>)
    ensures
        unresolved(t).contains(n) <==> (is_var_name(n) && contains_seq(t, placeholder(n))),
        unresolved(t).no_duplicates(),
{
    lemma_names_from(t, 0, seq![], n);
    lemma_names_from_distinct(t, 0, seq![]);
    if unresolved(t).contains(n) {
        let k = choose|k: int| 0 <= k < t.len() && #[trigger] name_at(t, k) == Some(n);
        lemma_name_at(t, k, n);
    }
    if is_var_name(n) && contains_seq(t, placeholder(n)) {
        let k = choose|k: int| occurs_at(t, placeholder(n), k);
        lemma_name_at(t, k, n);
        assert(0 <= k < t.len() && name_at(t, k) == Some(n));
    }
}

/// Replaces `{{{VAR}}}` placeholders in `text` with the values of the
/// variables, each variable applied in turn.
pub fn substitute_variables(text: &str, variables: &[(String, String)]) -> (r: String)
    ensures
        r@ == substituted(text@, pairs_view(variables@)),
{
    let mut cur = chars_of(text);
    let mut i: usize = 0;
    while i < variables.len()
        invariant
            i <= variables@.len(),
            cur@ == substituted(text@, pairs_view(variables@).take(i as int)),
        decreases variables@.len() - i,
    {
        let key = chars_of(variables[i].0.as_str());
        let value = chars_of(variables[i].1.as_str());
        let mut pat: Vec<char> = Vec::new();
        pat.push('{');
        pat.push('{');
        pat.push('{');
        push_chars(&mut pat, &key);
        pat.push('}');
        pat.push('}');
        pat.push('}');
        assert(pat@ =~= placeholder(key@));
        cur = replace_all_exec(&cur, &pat, &value);
        i = i + 1;
        assert(pairs_view(variables@).take(i as int).drop_last() =~= pairs_view(variables@).take(
            i - 1,
        ));
    }
    assert(pairs_view(variables@).take(i as int) =~= pairs_view(variables@));
    string_of(&cur)
}

fn var_run_end_exec(t: &[char], k: usize) -> (j: usize)
    requires
        k <= t@.len(),
    ensures
        j == var_run_end(t@, k as int),
        k <= j <= t@.len(),
{
    let mut j: usize = k;
    while j < t.len() && (('A' <= t[j] && t[j] <= 'Z') || t[j] == '_')
        invariant
            k <= j <= t@.len(),
            var_run_end(t@, k as int) == var_run_end(t@, j as int),
        decreases t@.len() - j,
    {
        j = j + 1;
    }
    j
}

/// Where the name of the placeholder starting at `i` ends, if one starts
/// there.
fn name_end_at(t: &[char], i: usize) -> (r: Option<usize>)
    requires
        i <= t@.len(),
    ensures
        match name_at(t@, i as int) {
            Some(n) => r matches Some(j) && i + 3 <= j <= t@.len() && t@.subrange(
                i + 3,
                j as int,
            ) == n,
            None => r is None,
        },
{
    let mut open: Vec<char> = Vec::new();
    open.push('{');
    open.push('{');
    open.push('{');
    assert(open@ =~= opening());
    if !occurs_at_exec(t, &open, i) {
        return None;
    }
    let tl = t.len();
    assert(i + 3 <= tl);
    let j = var_run_end_exec(t, i + 3);
    let mut close: Vec<char> = Vec::new();
    close.push('}');
    close.push('}');
    close.push('}');
    assert(close@ =~= closing());
    if j > i + 3 && occurs_at_exec(t, &close, j) {
        Some(j)
    } else {
        None
    }
}

fn seq_contains_name(found: &Vec<Vec<char>>, name: &[char]) -> (b: bool)
    ensures
        b == found@.map_values(|v: Vec<char>| v@).contains(name@),
{
    let ghost fv = found@.map_values(|v: Vec<char>| v@);
    let mut i: usize = 0;
    while i < found.len()
        invariant
            i <= found@.len(),
            fv == found@.map_values(|v: Vec<char>| v@),
            forall|j: int| 0 <= j < i ==> fv[j] != name@,
        decreases found@.len() - i,
    {
        if found[i].len() == name.len() && occurs_at_exec(&found[i], name, 0) {
            assert(found[i as int]@.subrange(0, name@.len() as int) =~= found[i as int]@);
            assert(fv[i as int] == name@);
            return true;
        }
        proof {
            if fv[i as int] == name@ {
                assert(found[i as int]@.subrange(0, name@.len() as int) =~= found[i as int]@);
            }
        }
        i = i + 1;
    }
    false
}

/// The variable names of the `{{{VAR}}}` placeholders left in `text`, each
/// once, in order of first occurrence. A name counts when it is non-empty
/// and made of upper-case ASCII letters and underscores; every such
/// placeholder in the text is found.
pub fn find_unresolved_variables(text: &str) -> (r: Vec<String>)
    ensures
        r@.map_values(|s: String| s@) == unresolved(text@),
        texts(r@).no_duplicates(),
        forall|n: Seq<char>|
            #![trigger texts(r@).contains(n)]
            texts(r@).contains(n) <==> (is_var_name(n) && contains_seq(
                text@,
                placeholder(n),
            )),
{
    let t = chars_of(text);
    let mut found: Vec<Vec<char>> = Vec::new();
    let mut i: usize = 0;
    assert(found@.map_values(|v: Vec<char>| v@) =~= Seq::<Seq<char>>::empty());
    while i < t.len()
        invariant
            i <= t@.len(),
            names_from(t@, i as int, found@.map_values(|v: Vec<char>| v@)) == unresolved(t@),
        decreases t@.len() - i,
    {
        let ghost before = found@.map_values(|v: Vec<char>| v@);
        match name_end_at(&t, i) {
            Some(end) => {
                let ghost name_s = t@.subrange(i + 3, end as int);
                let mut name: Vec<char> = Vec::new();
                let mut k: usize = i + 3;
                while k < end
                    invariant
                        i + 3 <= k <= end <= t@.len(),
                        name@ == t@.subrange(i + 3, k as int),
                    decreases end - k,
                {
                    name.push(t[k]);
                    k = k + 1;
                    assert(t@.subrange(i + 3, k as int) =~= t@.subrange(i + 3, k - 1) + seq![
                        t@[k - 1],
                    ]);
                }
                if !seq_contains_name(&found, &name) {
                    found.push(name);
                    assert(found@.map_values(|v: Vec<char>| v@) =~= before.push(name_s));
                }
            },
            None => {},
        }
        i = i + 1;
    }
    let mut out: Vec<String> = Vec::new();
    let mut j: usize = 0;
    while j < found.len()
        invariant
            j <= found@.len(),
            out@.map_values(|s: String| s@) == found@.map_values(|v: Vec<char>| v@).take(j as int),
        decreases found@.len() - j,
    {
        let ghost prev = out@.map_values(|s: String| s@);
        out.push(string_of(&found[j]));
        assert(out@.map_values(|s: String| s@) =~= prev.push(found@[j as int]@));
        j = j + 1;
        assert(out@.map_values(|s: String| s@) =~= found@.map_values(|v: Vec<char>| v@).take(
            j as int,
        ));
    }
    assert(found@.map_values(|v: Vec<char>| v@).take(j as int) =~= found@.map_values(
        |v: Vec<char>| v@,
    ));
    proof {
        lemma_unresolved_exact(text@, seq![]);
        assert forall|n: Seq<char>|
            #![trigger texts(out@).contains(n)]
            texts(out@).contains(n) <==> (is_var_name(n) && contains_seq(
                text@,
                placeholder(n),
            )) by {
            lemma_unresolved_exact(text@, n);
        }
    }
    out
}

} // verus!
