//! What filling a path template does, stated over the template's pieces.
//!
//! A template is literal text and `{name}` placeholders. When neither the
//! text, the names, nor the IDs and their values hold a brace, `build_path`
//! replaces each placeholder whose name is an ID by that ID's value and keeps
//! everything else as it is.
use vstd::prelude::*;

use crate::rest::params::{find_key, lookup};
use crate::rest::path::{interpolate, placeholder, PathView, ResourceOperation};
use crate::text::replace_all;

verus! {

/// No `{` or `}` in `s`.
pub open spec fn brace_free(s: Seq<char>) -> bool {
    forall|i: int| 0 <= i < s.len() ==> s[i] != '{' && s[i] != '}'
}

/// The text of a template piece: a placeholder `(true, name)` is written
/// `{name}`, literal text `(false, text)` is written as it is.
pub open spec fn piece_text(p: (bool, Seq<char>)) -> Seq<char> {
    if p.0 {
        placeholder(p.1)
    } else {
        p.1
    }
}

/// The template that the pieces make.
pub open spec fn render(ps: Seq<(bool, Seq<char>)>) -> Seq<char>
    decreases ps.len(),
{
    if ps.len() == 0 {
        Seq::empty()
    } else {
        piece_text(ps[0]) + render(ps.drop_first())
    }
}

/// No piece's text or name holds a brace: every brace of the template
/// belongs to a placeholder.
pub open spec fn pieces_brace_free(ps: Seq<(bool, Seq<char>)>) -> bool {
    forall|i: int| 0 <= i < ps.len() ==> brace_free(#[trigger] ps[i].1)
}

/// No ID name or value holds a brace.
pub open spec fn ids_brace_free(ids: Seq<(Seq<char>, Seq<char>)>) -> bool {
    forall|i: int| 0 <= i < ids.len() ==> brace_free(#[trigger] ids[i].0) && brace_free(ids[i].1)
}

/// A piece filled with the IDs: a placeholder whose name is an ID becomes
/// that ID's value; other placeholders and text stay.
pub open spec fn filled_piece(p: (bool, Seq<char>), ids: Seq<(Seq<char>, Seq<char>)>) -> Seq<char> {
    if p.0 {
        match lookup(ids, p.1) {
            Some(v) => v,
            None => placeholder(p.1),
        }
    } else {
        p.1
    }
}

/// The template filled with the IDs, piece by piece.
pub open spec fn filled(ps: Seq<(bool, Seq<char>)>, ids: Seq<(Seq<char>, Seq<char>)>) -> Seq<char>
    decreases ps.len(),
{
    if ps.len() == 0 {
        Seq::empty()
    } else {
        filled_piece(ps[0], ids) + filled(ps.drop_first(), ids)
    }
}

/// The pieces after the placeholder `{k}` is filled with `v`.
pub open spec fn fill_one(ps: Seq<(bool, Seq<char>)>, k: Seq<char>, v: Seq<char>) -> Seq<(bool, Seq<char>)> {
    ps.map_values(|p: (bool, Seq<char>)| if p.0 && p.1 == k { (false, v) } else { p })
}


/// The placeholder names of the pieces, in order.
pub open spec fn slot_names(ps: Seq<(bool, Seq<char>)>) -> Seq<Seq<char>>
    decreases ps.len(),
{
    if ps.len() == 0 {
        Seq::empty()
    } else {
        (if ps[0].0 {
            seq![ps[0].1]
        } else {
            Seq::empty()
        }) + slot_names(ps.drop_first())
    }
}

/// `template` is literal text and placeholders, with no brace outside a
/// placeholder, and its placeholders name exactly `ids`, in order.
pub open spec fn names_exactly(template: Seq<char>, ids: Seq<Seq<char>>) -> bool {
    exists|ps: Seq<(bool, Seq<char>)>|
        #![trigger render(ps)]
        pieces_brace_free(ps) && render(ps) == template && slot_names(ps) == ids
}

/// Every path's template names exactly the IDs that the path requires.
pub open spec fn templates_name_ids(paths: Seq<PathView>) -> bool {
    forall|k: int| 0 <= k < paths.len() ==> names_exactly(#[trigger] paths[k].3, paths[k].2)
}

/// A path that finds, updates or deletes one resource requires its `id`,
/// as the last ID.
pub open spec fn ends_with_id(p: PathView) -> bool {
    (p.1 == ResourceOperation::Find || p.1 == ResourceOperation::Update || p.1 == ResourceOperation::Delete)
        ==> p.2.len() > 0 && p.2.last() == seq!['i', 'd']
}

/// Every path that finds, updates or deletes one resource requires its `id`.
pub open spec fn ids_end_with_id(paths: Seq<PathView>) -> bool {
    forall|k: int| 0 <= k < paths.len() ==> ends_with_id(#[trigger] paths[k])
}

/// Replacing a placeholder in text that starts brace-free leaves that text.
proof fn lemma_text_prefix(t: Seq<char>, b: Seq<char>, pat: Seq<char>, rep: Seq<char>)
    requires
        brace_free(t),
        pat.len() > 0,
        pat[0] == '{',
    ensures
        replace_all(t + b, pat, rep) == t + replace_all(b, pat, rep),
    decreases t.len(),
{
    let s = t + b;
    if t.len() == 0 {
        assert(s =~= b);
    } else if s.len() < pat.len() {
        assert(b.len() < pat.len());
        assert(s =~= t + b);
    } else {
        assert(s.take(pat.len() as int)[0] == t[0]);
        assert(s.take(pat.len() as int) != pat);
        assert(s.drop_first() =~= t.drop_first() + b);
        lemma_text_prefix(t.drop_first(), b, pat, rep);
        assert(seq![s[0]] + (t.drop_first() + replace_all(b, pat, rep)) =~= t + replace_all(b, pat, rep));
    }
}

/// Replacing `pat` in text that starts with `}` keeps the `}`.
proof fn lemma_close_prefix(b: Seq<char>, pat: Seq<char>, rep: Seq<char>)
    requires
        pat.len() > 0,
        pat[0] == '{',
    ensures
        replace_all(seq!['}'] + b, pat, rep) == seq!['}'] + replace_all(b, pat, rep),
{
    let s = seq!['}'] + b;
    if s.len() < pat.len() {
        assert(b.len() < pat.len());
    } else {
        assert(s.take(pat.len() as int)[0] == '}');
        assert(s.take(pat.len() as int) != pat);
        assert(s.drop_first() =~= b);
    }
}

/// Replacing `{k}` in text that starts with the placeholder `{n}`: the
/// placeholder becomes `rep` when `n` is `k` and stays otherwise.
proof fn lemma_slot_prefix(n: Seq<char>, b: Seq<char>, k: Seq<char>, rep: Seq<char>)
    requires
        brace_free(n),
        brace_free(k),
    ensures
        replace_all(placeholder(n) + b, placeholder(k), rep) == (if n == k {
            rep
        } else {
            placeholder(n)
        }) + replace_all(b, placeholder(k), rep),
{
    let s = placeholder(n) + b;
    let pat = placeholder(k);
    assert(pat[0] == '{');
    if n == k {
        assert(s.take(pat.len() as int) =~= pat);
        assert(s.skip(pat.len() as int) =~= b);
    } else {
        if s.len() >= pat.len() {
            let w = s.take(pat.len() as int);
            if w == pat {
                if k.len() < n.len() {
                    assert(w[k.len() as int + 1] == n[k.len() as int]);
                    assert(pat[k.len() as int + 1] == '}');
                } else if k.len() > n.len() {
                    assert(w[n.len() as int + 1] == '}');
                    assert(pat[n.len() as int + 1] == k[n.len() as int]);
                } else {
                    assert forall|i: int| 0 <= i < n.len() implies n[i] == k[i] by {
                        assert(w[i + 1] == n[i]);
                        assert(pat[i + 1] == k[i]);
                    }
                    assert(n =~= k);
                }
            }
            assert(w != pat);
            assert(s.drop_first() =~= n + (seq!['}'] + b));
            lemma_text_prefix(n, seq!['}'] + b, pat, rep);
            lemma_close_prefix(b, pat, rep);
            assert(seq![s[0]] + (n + (seq!['}'] + replace_all(b, pat, rep))) =~= placeholder(n) + replace_all(
                b,
                pat,
                rep,
            ));
        } else {
            assert(b.len() < pat.len());
        }
    }
}

/// Replacing `{k}` in the rendered pieces renders the pieces with that
/// placeholder filled.
proof fn lemma_replace_render(ps: Seq<(bool, Seq<char>)>, k: Seq<char>, v: Seq<char>)
    requires
        pieces_brace_free(ps),
        brace_free(k),
    ensures
        replace_all(render(ps), placeholder(k), v) == render(fill_one(ps, k, v)),
    decreases ps.len(),
{
    let pat = placeholder(k);
    assert(pat[0] == '{');
    if ps.len() == 0 {
        assert(fill_one(ps, k, v) =~= Seq::<(bool, Seq<char>)>::empty());
    } else {
        let rest = ps.drop_first();
        assert(pieces_brace_free(rest)) by {
            assert forall|i: int| 0 <= i < rest.len() implies brace_free(#[trigger] rest[i].1) by {
                assert(rest[i] == ps[i + 1]);
            }
        }
        lemma_replace_render(rest, k, v);
        assert(fill_one(ps, k, v).drop_first() =~= fill_one(rest, k, v));
        assert(brace_free(ps[0].1));
        if ps[0].0 {
            lemma_slot_prefix(ps[0].1, render(rest), k, v);
        } else {
            lemma_text_prefix(ps[0].1, render(rest), pat, v);
        }
    }
}

/// Filling `{k}` first, then the other IDs, is filling with `k` first.
proof fn lemma_fill_one(ps: Seq<(bool, Seq<char>)>, k: Seq<char>, v: Seq<char>, rest: Seq<(Seq<char>, Seq<char>)>)
    ensures
        filled(fill_one(ps, k, v), rest) == filled(ps, seq![(k, v)] + rest),
    decreases ps.len(),
{
    let e = seq![(k, v)] + rest;
    if ps.len() > 0 {
        lemma_fill_one(ps.drop_first(), k, v, rest);
        assert(fill_one(ps, k, v).drop_first() =~= fill_one(ps.drop_first(), k, v));
        assert(e.drop_first() =~= rest);
        let p = ps[0];
        if p.0 && p.1 != k {
            assert(e[0].0 == k);
            let fr = find_key(rest, p.1);
            assert(find_key(e, p.1) == (match fr {
                Some(i) => Some(i + 1),
                None => None::<int>,
            }));
            if let Some(i) = fr {
                crate::rest::params::lemma_find_key(rest, p.1);
                assert(e[i + 1] == rest[i]);
            }
            assert(lookup(e, p.1) == lookup(rest, p.1));
        }
        if p.0 && p.1 == k {
            assert(find_key(e, k) == Some(0int));
        }
    }
}

/// With no IDs, filling keeps every piece.
proof fn lemma_filled_none(ps: Seq<(bool, Seq<char>)>)
    ensures
        filled(ps, Seq::empty()) == render(ps),
    decreases ps.len(),
{
    if ps.len() > 0 {
        lemma_filled_none(ps.drop_first());
    }
}

/// `build_path` fills exactly the placeholders named by IDs: on a template
/// whose braces all belong to placeholders, with IDs whose names and values
/// hold no brace, each `{name}` whose name is an ID becomes that ID's value;
/// placeholders naming no ID and all other text stay, and IDs that the
/// template does not name have no effect.
pub proof fn lemma_build_path_fills(ps: Seq<(bool, Seq<char>)>, ids: Seq<(Seq<char>, Seq<char>)>)
    requires
        pieces_brace_free(ps),
        ids_brace_free(ids),
    ensures
        interpolate(render(ps), ids) == filled(ps, ids),
    decreases ids.len(),
{
    if ids.len() == 0 {
        lemma_filled_none(ps);
        assert(ids =~= Seq::<(Seq<char>, Seq<char>)>::empty());
    } else {
        let k = ids[0].0;
        let v = ids[0].1;
        let rest = ids.drop_first();
        assert(brace_free(k) && brace_free(v));
        lemma_replace_render(ps, k, v);
        let next = fill_one(ps, k, v);
        assert(pieces_brace_free(next)) by {
            assert forall|i: int| 0 <= i < next.len() implies brace_free(#[trigger] next[i].1) by {
                assert(brace_free(ps[i].1));
            }
        }
        assert(ids_brace_free(rest)) by {
            assert forall|i: int| 0 <= i < rest.len() implies brace_free(#[trigger] rest[i].0) && brace_free(
                rest[i].1,
            ) by {
                assert(rest[i] == ids[i + 1]);
            }
        }
        lemma_build_path_fills(next, rest);
        lemma_fill_one(ps, k, v, rest);
        assert(seq![(k, v)] + rest =~= ids);
        assert(interpolate(render(ps), ids) == interpolate(replace_all(render(ps), placeholder(k), v), rest));
        assert(interpolate(render(ps), ids) == filled(next, rest));
        assert(filled(ps, seq![(k, v)] + rest) == filled(ps, ids));
    }
}

} // verus!
