//! The expression syntax in which a node is asked for: the root as a bare
//! attribute name, then each further segment as a dot and the segment
//! between double quotes, with a backslash before what would end the
//! quotes, start an interpolation or break the line.

use vstd::prelude::*;
use crate::text::{chars_of, push_range};

verus! {

/// Whether `c` may begin a bare attribute name.
pub open spec fn is_name_start(c: char) -> bool {
    ('a' <= c && c <= 'z') || ('A' <= c && c <= 'Z') || c == '_'
}

/// Whether `c` may occur inside a bare attribute name.
pub open spec fn is_name_char(c: char) -> bool {
    is_name_start(c) || ('0' <= c && c <= '9') || c == '-' || c == '\''
}

/// A bare attribute name: a letter or underscore, then letters, digits,
/// underscores, hyphens and apostrophes.
pub open spec fn is_bare_name(s: Seq<char>) -> bool {
    &&& s.len() > 0
    &&& is_name_start(s[0])
    &&& forall|i: int| 0 <= i < s.len() ==> is_name_char(#[trigger] s[i])
}

fn name_start(c: char) -> (r: bool)
    ensures
        r == is_name_start(c),
{
    ('a' <= c && c <= 'z') || ('A' <= c && c <= 'Z') || c == '_'
}

fn name_char(c: char) -> (r: bool)
    ensures
        r == is_name_char(c),
{
    name_start(c) || ('0' <= c && c <= '9') || c == '-' || c == '\''
}

/// Whether `c` is written with a backslash inside a quoted attribute name.
pub open spec fn needs_escape(c: char) -> bool {
    c == '"' || c == '\\' || c == '$' || c == '\n' || c == '\r' || c == '\t'
}

/// The character that follows the backslash when `c` is escaped.
pub open spec fn escape_code(c: char) -> char {
    if c == '\n' {
        'n'
    } else if c == '\r' {
        'r'
    } else if c == '\t' {
        't'
    } else {
        c
    }
}

/// The character that a backslash followed by `code` stands for, if any.
pub open spec fn unescape_code(code: char) -> Option<char> {
    if code == 'n' {
        Some('\n')
    } else if code == 'r' {
        Some('\r')
    } else if code == 't' {
        Some('\t')
    } else if code == '"' || code == '\\' || code == '$' {
        Some(code)
    } else {
        None
    }
}

/// How one character of an attribute name is written between quotes.
pub open spec fn escape_char(c: char) -> Seq<char> {
    if needs_escape(c) {
        seq!['\\', escape_code(c)]
    } else {
        seq![c]
    }
}

/// How an attribute name is written between quotes.
pub open spec fn escape(s: Seq<char>) -> Seq<char>
    decreases s.len(),
{
    if s.len() == 0 {
        Seq::empty()
    } else {
        escape_char(s[0]) + escape(s.drop_first())
    }
}

/// One step below the root: a dot and the quoted attribute name.
pub open spec fn quoted(s: Seq<char>) -> Seq<char> {
    seq!['.', '"'] + escape(s) + seq!['"']
}

/// The steps below the root, one after the other.
pub open spec fn tail_expr(segments: Seq<Seq<char>>) -> Seq<char>
    decreases segments.len(),
{
    if segments.len() == 0 {
        Seq::empty()
    } else {
        quoted(segments[0]) + tail_expr(segments.drop_first())
    }
}

/// A path has a root, and the root is a bare attribute name.
pub open spec fn valid_path(p: Seq<Seq<char>>) -> bool {
    p.len() > 0 && is_bare_name(p[0])
}

/// The request expression of a path: the bare root, then each further
/// segment as a dot and a quoted name.
pub open spec fn expr(p: Seq<Seq<char>>) -> Seq<char> {
    p[0] + tail_expr(p.drop_first())
}

/// Escaping distributes over appending one character.
pub proof fn lemma_escape_push(s: Seq<char>, c: char)
    ensures
        escape(s.push(c)) == escape(s) + escape_char(c),
    decreases s.len(),
{
    if s.len() == 0 {
        assert(s.push(c).drop_first() =~= Seq::<char>::empty());
        assert(escape(s.push(c)) =~= escape_char(c) + escape(Seq::<char>::empty()));
    } else {
        lemma_escape_push(s.drop_first(), c);
        assert(s.push(c).drop_first() =~= s.drop_first().push(c));
    }
}

/// The steps distribute over appending one segment.
pub proof fn lemma_tail_expr_push(segments: Seq<Seq<char>>, name: Seq<char>)
    ensures
        tail_expr(segments.push(name)) == tail_expr(segments) + quoted(name),
    decreases segments.len(),
{
    if segments.len() == 0 {
        assert(segments.push(name).drop_first() =~= Seq::<Seq<char>>::empty());
        assert(tail_expr(segments.push(name)) =~= quoted(name) + tail_expr(Seq::<Seq<char>>::empty()));
    } else {
        lemma_tail_expr_push(segments.drop_first(), name);
        assert(segments.push(name).drop_first() =~= segments.drop_first().push(name));
    }
}

/// Reads a quoted attribute name from just behind its opening quote: the
/// name, and what follows the closing quote. Only the escapes that
/// `escape` writes are read back.
pub open spec fn unquote(t: Seq<char>) -> Option<(Seq<char>, Seq<char>)>
    decreases t.len(),
{
    if t.len() == 0 {
        None
    } else if t[0] == '"' {
        Some((Seq::empty(), t.drop_first()))
    } else if t[0] == '\\' {
        if t.len() < 2 {
            None
        } else {
            match (unescape_code(t[1]), unquote(t.skip(2))) {
                (Some(c), Some((name, rest))) => Some((seq![c] + name, rest)),
                _ => None,
            }
        }
    } else if needs_escape(t[0]) {
        None
    } else {
        match unquote(t.drop_first()) {
            Some((name, rest)) => Some((seq![t[0]] + name, rest)),
            None => None,
        }
    }
}

/// Reads the steps below the root.
pub open spec fn parse_tail(t: Seq<char>) -> Option<Seq<Seq<char>>>
    decreases t.len(),
{
    if t.len() == 0 {
        Some(Seq::empty())
    } else if t.len() < 2 || t[0] != '.' || t[1] != '"' {
        None
    } else {
        match unquote(t.skip(2)) {
            Some((name, rest)) => if rest.len() < t.len() {
                match parse_tail(rest) {
                    Some(more) => Some(seq![name] + more),
                    None => None,
                }
            } else {
                None
            },
            None => None,
        }
    }
}

/// The number of characters before the first dot.
pub open spec fn first_dot(t: Seq<char>) -> int
    decreases t.len(),
{
    if t.len() == 0 || t[0] == '.' {
        0
    } else {
        1 + first_dot(t.drop_first())
    }
}

/// Reads a request expression back into the path it was written from.
pub open spec fn parse_expr(t: Seq<char>) -> Option<Seq<Seq<char>>> {
    let k = first_dot(t);
    if 0 <= k <= t.len() && is_bare_name(t.take(k)) {
        match parse_tail(t.skip(k)) {
            Some(more) => Some(seq![t.take(k)] + more),
            None => None,
        }
    } else {
        None
    }
}

/// A name under construction placed in front of what is still to be read.
pub open spec fn with_prefix(
    prefix: Seq<char>,
    r: Option<(Seq<char>, Seq<char>)>,
) -> Option<(Seq<char>, Seq<char>)> {
    match r {
        Some((name, rest)) => Some((prefix + name, rest)),
        None => None,
    }
}

/// Segments already read placed in front of those still to be read.
pub open spec fn with_segments(
    done: Seq<Seq<char>>,
    r: Option<Seq<Seq<char>>>,
) -> Option<Seq<Seq<char>>> {
    match r {
        Some(more) => Some(done + more),
        None => None,
    }
}

/// Whether `text` is a bare attribute name.
pub fn is_name(text: &str) -> (r: bool)
    ensures
        r == is_bare_name(text@),
{
    let chars = chars_of(text);
    assert(chars@.subrange(0, chars.len() as int) =~= text@);
    all_name_chars(&chars, 0, chars.len())
}

/// Whether `chars[from..to]` is a bare attribute name.
pub(crate) fn all_name_chars(chars: &Vec<char>, from: usize, to: usize) -> (r: bool)
    requires
        from <= to <= chars.len(),
    ensures
        r == is_bare_name(chars@.subrange(from as int, to as int)),
{
    let ghost s = chars@.subrange(from as int, to as int);
    if from == to || !name_start(chars[from]) {
        return false;
    }
    let mut i: usize = from;
    while i < to
        invariant
            from <= i <= to <= chars.len(),
            s == chars@.subrange(from as int, to as int),
            forall|j: int| 0 <= j < i - from ==> is_name_char(#[trigger] s[j]),
        decreases to - i,
    {
        if !name_char(chars[i]) {
            assert(s[i - from] == chars[i as int]);
            return false;
        }
        i += 1;
    }
    true
}

/// Appends a dot and the quoted `name` to `out`.
pub(crate) fn push_quoted(out: &mut String, name: &str)
    ensures
        final(out)@ == old(out)@ + quoted(name@),
{
    out.push('.');
    out.push('"');
    let ghost base = out@;
    for c in it: name.chars()
        invariant
            it.seq() == name@,
            out@ == base + escape(name@.take(it.index())),
    {
        proof {
            lemma_escape_push(name@.take(it.index()), c);
            assert(name@.take(it.index() + 1) =~= name@.take(it.index()).push(c));
        }
        if c == '"' || c == '\\' || c == '$' {
            out.push('\\');
            out.push(c);
        } else if c == '\n' {
            out.push('\\');
            out.push('n');
        } else if c == '\r' {
            out.push('\\');
            out.push('r');
        } else if c == '\t' {
            out.push('\\');
            out.push('t');
        } else {
            out.push(c);
        }
    }
    assert(name@.take(name@.len() as int) =~= name@);
    out.push('"');
}

/// Reads the quoted name that begins at `chars[start]`, just behind its
/// opening quote: the name, and the index behind the closing quote.
pub(crate) fn read_quoted(chars: &Vec<char>, start: usize) -> (r: Option<(String, usize)>)
    requires
        start <= chars.len(),
    ensures
        match r {
            Some((name, next)) => {
                &&& start < next <= chars.len()
                &&& unquote(chars@.skip(start as int)) == Some((name@, chars@.skip(next as int)))
            },
            None => unquote(chars@.skip(start as int)) is None,
        },
{
    let ghost t = chars@;
    let mut name = String::new();
    let mut pos: usize = start;
    while pos < chars.len()
        invariant
            start <= pos <= chars.len(),
            t == chars@,
            unquote(t.skip(start as int)) == with_prefix(name@, unquote(t.skip(pos as int))),
        decreases chars.len() - pos,
    {
        let c = chars[pos];
        let ghost here = t.skip(pos as int);
        assert(here.drop_first() =~= t.skip(pos + 1));
        if c == '"' {
            return Some((name, pos + 1));
        } else if c == '\\' {
            if pos + 1 >= chars.len() {
                return None;
            }
            let code = chars[pos + 1];
            assert(here.skip(2) =~= t.skip(pos + 2));
            let decoded = if code == 'n' {
                '\n'
            } else if code == 'r' {
                '\r'
            } else if code == 't' {
                '\t'
            } else if code == '"' || code == '\\' || code == '$' {
                code
            } else {
                return None;
            };
            name.push(decoded);
            pos += 2;
        } else if c == '$' || c == '\n' || c == '\r' || c == '\t' {
            return None;
        } else {
            name.push(c);
            pos += 1;
        }
    }
    None
}

/// The index of the first dot in `chars`, or their number if there is none.
pub(crate) fn find_dot(chars: &Vec<char>) -> (k: usize)
    ensures
        k <= chars.len(),
        k == first_dot(chars@),
{
    let ghost t = chars@;
    let mut k: usize = 0;
    assert(t.skip(0) =~= t);
    while k < chars.len() && chars[k] != '.'
        invariant
            k <= chars.len(),
            t == chars@,
            first_dot(t) == k + first_dot(t.skip(k as int)),
        decreases chars.len() - k,
    {
        assert(t.skip(k as int).drop_first() =~= t.skip(k + 1));
        k += 1;
    }
    k
}

} // verus!
