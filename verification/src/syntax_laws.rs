//! What holds of the request syntax: it can be read back, nothing else is
//! read, distinct paths are written differently, and a request is one line.

use vstd::prelude::*;
use crate::syntax::{
    escape, escape_char, escape_code, expr, first_dot, is_bare_name, is_name_char, needs_escape,
    parse_expr, parse_tail, quoted, tail_expr, unescape_code, unquote, valid_path,
};

verus! {

/// A quoted name is read back as written, whatever follows its closing quote.
pub proof fn lemma_unquote_escape(name: Seq<char>, rest: Seq<char>)
    ensures
        unquote(escape(name) + seq!['"'] + rest) == Some((name, rest)),
    decreases name.len(),
{
    if name.len() > 0 {
        let t = escape(name) + seq!['"'] + rest;
        let tail = name.drop_first();
        let t_tail = escape(tail) + seq!['"'] + rest;
        lemma_unquote_escape(tail, rest);
        if needs_escape(name[0]) {
            assert(t.skip(2) =~= t_tail);
        } else {
            assert(t.drop_first() =~= t_tail);
        }
    }
}

/// The steps below the root are read back as written.
pub proof fn lemma_parse_tail_expr(segments: Seq<Seq<char>>)
    ensures
        parse_tail(tail_expr(segments)) == Some(segments),
    decreases segments.len(),
{
    if segments.len() > 0 {
        let name = segments[0];
        let more = segments.drop_first();
        let t = tail_expr(segments);
        lemma_parse_tail_expr(more);
        lemma_unquote_escape(name, tail_expr(more));
        assert(t.skip(2) =~= escape(name) + seq!['"'] + tail_expr(more));
    }
}

/// In a bare name followed by nothing or by a dot, the first dot stands
/// right behind the name.
pub proof fn lemma_first_dot_after_name(name: Seq<char>, rest: Seq<char>)
    requires
        forall|i: int| 0 <= i < name.len() ==> is_name_char(#[trigger] name[i]),
        rest.len() == 0 || rest[0] == '.',
    ensures
        first_dot(name + rest) == name.len(),
    decreases name.len(),
{
    if name.len() > 0 {
        assert((name + rest).drop_first() =~= name.drop_first() + rest);
        lemma_first_dot_after_name(name.drop_first(), rest);
    }
}

/// Reading the expression of a path gives the path back; so writing what was
/// read gives the same expression again.
pub proof fn lemma_expr_roundtrip(p: Seq<Seq<char>>)
    requires
        valid_path(p),
    ensures
        parse_expr(expr(p)) == Some(p),
        expr(parse_expr(expr(p))->0) == expr(p),
{
    let root = p[0];
    let rest = tail_expr(p.drop_first());
    let t = expr(p);
    assert(rest.len() == 0 || rest[0] == '.');
    lemma_first_dot_after_name(root, rest);
    lemma_parse_tail_expr(p.drop_first());
    assert(t.take(root.len() as int) =~= root);
    assert(t.skip(root.len() as int) =~= rest);
}

/// Whatever is read as a quoted name was written from that name.
pub proof fn lemma_unquote_sound(t: Seq<char>)
    ensures
        unquote(t) matches Some((name, rest)) ==> t == escape(name) + seq!['"'] + rest,
    decreases t.len(),
{
    if t.len() >= 2 && t[0] == '\\' {
        lemma_unquote_sound(t.skip(2));
        match (unescape_code(t[1]), unquote(t.skip(2))) {
            (Some(c), Some((name, rest))) => {
                assert((seq![c] + name).drop_first() =~= name);
                assert(t =~= seq!['\\', t[1]] + t.skip(2));
            },
            _ => {},
        }
    } else if t.len() > 0 && !needs_escape(t[0]) {
        lemma_unquote_sound(t.drop_first());
        match unquote(t.drop_first()) {
            Some((name, rest)) => {
                assert((seq![t[0]] + name).drop_first() =~= name);
                assert(t =~= seq![t[0]] + t.drop_first());
            },
            None => {},
        }
    }
}

/// Whatever is read as steps below the root was written from those steps.
pub proof fn lemma_parse_tail_sound(t: Seq<char>)
    ensures
        parse_tail(t) matches Some(segments) ==> tail_expr(segments) == t,
    decreases t.len(),
{
    if t.len() >= 2 && t[0] == '.' && t[1] == '"' {
        lemma_unquote_sound(t.skip(2));
        match unquote(t.skip(2)) {
            Some((name, rest)) => {
                if rest.len() < t.len() {
                    lemma_parse_tail_sound(rest);
                    match parse_tail(rest) {
                        Some(more) => {
                            let segments = seq![name] + more;
                            assert(segments.drop_first() =~= more);
                            assert(t =~= seq!['.', '"'] + t.skip(2));
                        },
                        None => {},
                    }
                }
            },
            None => {},
        }
    }
}

/// Only expressions of valid paths are read, and each is read as the path
/// it was written from.
pub proof fn lemma_parse_expr_sound(t: Seq<char>)
    ensures
        parse_expr(t) matches Some(p) ==> valid_path(p) && expr(p) == t,
{
    let k = first_dot(t);
    if 0 <= k <= t.len() && is_bare_name(t.take(k)) {
        lemma_parse_tail_sound(t.skip(k));
        match parse_tail(t.skip(k)) {
            Some(more) => {
                let p = seq![t.take(k)] + more;
                assert(p.drop_first() =~= more);
            },
            None => {},
        }
    }
}

/// Distinct paths never share an expression.
pub proof fn lemma_expr_injective(p: Seq<Seq<char>>, q: Seq<Seq<char>>)
    requires
        valid_path(p),
        valid_path(q),
        expr(p) == expr(q),
    ensures
        p == q,
{
    lemma_expr_roundtrip(p);
    lemma_expr_roundtrip(q);
}

/// Whether `t` holds no line break.
pub open spec fn single_line(t: Seq<char>) -> bool {
    forall|i: int| 0 <= i < t.len() ==> #[trigger] t[i] != '\n' && t[i] != '\r'
}

/// A quoted name holds no line break.
pub proof fn lemma_escape_single_line(name: Seq<char>)
    ensures
        single_line(escape(name)),
    decreases name.len(),
{
    if name.len() > 0 {
        lemma_escape_single_line(name.drop_first());
        let head = escape_char(name[0]);
        let tail = escape(name.drop_first());
        assert forall|i: int| 0 <= i < escape(name).len() implies #[trigger] escape(name)[i] != '\n'
            && escape(name)[i] != '\r' by {
            if i < head.len() {
                assert(escape(name)[i] == head[i]);
            } else {
                assert(escape(name)[i] == tail[i - head.len()]);
            }
        }
    }
}

/// The steps below the root hold no line break.
pub proof fn lemma_tail_expr_single_line(segments: Seq<Seq<char>>)
    ensures
        single_line(tail_expr(segments)),
    decreases segments.len(),
{
    if segments.len() > 0 {
        lemma_tail_expr_single_line(segments.drop_first());
        lemma_escape_single_line(segments[0]);
        let body = escape(segments[0]);
        let head = quoted(segments[0]);
        let tail = tail_expr(segments.drop_first());
        let t = tail_expr(segments);
        assert forall|i: int| 0 <= i < t.len() implies #[trigger] t[i] != '\n' && t[i] != '\r' by {
            if i < 2 {
            } else if i < 2 + body.len() {
                assert(t[i] == body[i - 2]);
            } else if i < head.len() {
                assert(t[i] == '"');
            } else {
                assert(t[i] == tail[i - head.len()]);
            }
        }
    }
}

/// The expression of a valid path holds no line break: a request is one line.
pub proof fn lemma_expr_single_line(p: Seq<Seq<char>>)
    requires
        valid_path(p),
    ensures
        single_line(expr(p)),
{
    lemma_tail_expr_single_line(p.drop_first());
    let root = p[0];
    let tail = tail_expr(p.drop_first());
    let t = expr(p);
    assert forall|i: int| 0 <= i < t.len() implies #[trigger] t[i] != '\n' && t[i] != '\r' by {
        if i < root.len() {
            assert(is_name_char(root[i]));
        } else {
            assert(t[i] == tail[i - root.len()]);
        }
    }
}

} // verus!
