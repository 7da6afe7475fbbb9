//! Node addresses.

use vstd::prelude::*;
use crate::syntax::{
    all_name_chars, expr, find_dot, first_dot, is_bare_name, is_name, lemma_tail_expr_push,
    parse_expr, parse_tail, push_quoted, read_quoted, tail_expr, valid_path, with_segments,
};
use crate::text::{chars_of, push_range};

verus! {

/// The address of a node: the root attribute, then the attribute names that
/// lead down to the node.
#[derive(Debug, PartialEq, Eq)]
pub struct BrowserPath {
    segments: Vec<String>,
}

impl View for BrowserPath {
    type V = Seq<Seq<char>>;

    closed spec fn view(&self) -> Seq<Seq<char>> {
        self.segments.deep_view()
    }
}

/// What an optional path holds.
pub open spec fn path_view(r: Option<BrowserPath>) -> Option<Seq<Seq<char>>> {
    match r {
        Some(p) => Some(p@),
        None => None,
    }
}

impl BrowserPath {
    /// What holds of every path: it has a root, and the root is a bare
    /// attribute name.
    #[verifier::type_invariant]
    pub open spec fn well_formed(self) -> bool {
        valid_path(self@)
    }

    /// The path that consists of the root `root` alone, if `root` is a bare
    /// attribute name.
    pub fn new(root: &str) -> (r: Option<BrowserPath>)
        ensures
            path_view(r) == if is_bare_name(root@) {
                Some(seq![root@])
            } else {
                None
            },
    {
        if !is_name(root) {
            return None;
        }
        let mut segments: Vec<String> = Vec::new();
        segments.push(root.to_owned());
        Some(BrowserPath { segments })
    }

    /// The number of segments, the root included.
    pub fn depth(&self) -> (n: usize)
        ensures
            n == self@.len(),
            n >= 1,
    {
        proof {
            use_type_invariant(self);
        }
        self.segments.len()
    }

    /// The segment at `index`, counted from the root, if there is one.
    pub fn segment(&self, index: usize) -> (r: Option<&str>)
        ensures
            match r {
                Some(s) => index < self@.len() && s@ == self@[index as int],
                None => index >= self@.len(),
            },
    {
        if index < self.segments.len() {
            Some(self.segments[index].as_str())
        } else {
            None
        }
    }

    /// The path one step further down, to the attribute `name`.
    pub fn child(&self, name: &str) -> (r: BrowserPath)
        ensures
            r@ == self@.push(name@),
    {
        proof {
            use_type_invariant(self);
        }
        let mut segments = self.segments.clone();
        segments.push(name.to_owned());
        BrowserPath { segments }
    }

    /// The path one step up, if this is not the root.
    pub fn parent(&self) -> (r: Option<BrowserPath>)
        ensures
            path_view(r) == if self@.len() > 1 {
                Some(self@.drop_last())
            } else {
                None
            },
    {
        proof {
            use_type_invariant(self);
        }
        if self.segments.len() <= 1 {
            return None;
        }
        let mut segments = self.segments.clone();
        segments.pop();
        Some(BrowserPath { segments })
    }

    /// Whether the two paths name the same node.
    pub fn same_as(&self, other: &BrowserPath) -> (r: bool)
        ensures
            r == (self@ == other@),
    {
        if self.segments.len() != other.segments.len() {
            assert(self@.len() != other@.len());
            return false;
        }
        let mut i: usize = 0;
        while i < self.segments.len()
            invariant
                i <= self.segments.len(),
                self.segments.len() == other.segments.len(),
                forall|j: int| 0 <= j < i ==> self@[j] == other@[j],
            decreases self.segments.len() - i,
        {
            if self.segments[i] != other.segments[i] {
                assert(self@[i as int] != other@[i as int]);
                return false;
            }
            i += 1;
        }
        assert(self@ =~= other@);
        true
    }

    /// Reads a request expression back into the path it was written from.
    /// Anything that `to_expr` does not write is refused.
    pub fn from_expr(text: &str) -> (r: Option<BrowserPath>)
        ensures
            path_view(r) == parse_expr(text@),
    {
        let chars = chars_of(text);
        let ghost t = chars@;
        let k = find_dot(&chars);
        if !all_name_chars(&chars, 0, k) {
            return None;
        }
        let mut root = String::new();
        push_range(&mut root, &chars, 0, k);
        let mut segments: Vec<String> = Vec::new();
        segments.push(root);
        let mut pos: usize = k;
        assert(segments.deep_view().drop_first() =~= Seq::<Seq<char>>::empty());
        assert(forall|more: Seq<Seq<char>>| Seq::<Seq<char>>::empty() + more =~= more);
        while pos < chars.len()
            invariant
                k <= pos <= chars.len(),
                t == chars@,
                t == text@,
                k == first_dot(t),
                is_bare_name(t.take(k as int)),
                segments.len() >= 1,
                segments.deep_view()[0] == t.take(k as int),
                parse_tail(t.skip(k as int)) == with_segments(
                    segments.deep_view().drop_first(),
                    parse_tail(t.skip(pos as int)),
                ),
            decreases chars.len() - pos,
        {
            let ghost here = t.skip(pos as int);
            if pos + 1 >= chars.len() || chars[pos] != '.' || chars[pos + 1] != '"' {
                return None;
            }
            assert(here.skip(2) =~= t.skip(pos + 2));
            match read_quoted(&chars, pos + 2) {
                None => {
                    return None;
                },
                Some((name, next)) => {
                    let ghost done = segments.deep_view();
                    segments.push(name);
                    proof {
                        match parse_tail(t.skip(next as int)) {
                            Some(more) => {
                                assert(done.drop_first() + (seq![name@] + more)
                                    =~= done.push(name@).drop_first() + more);
                            },
                            None => {},
                        }
                    }
                    pos = next;
                },
            }
        }
        proof {
            assert(segments.deep_view().drop_first() + Seq::<Seq<char>>::empty()
                =~= segments.deep_view().drop_first());
            assert(seq![t.take(k as int)] + segments.deep_view().drop_first()
                =~= segments.deep_view());
        }
        Some(BrowserPath { segments })
    }

    /// The expression that asks the evaluator for this node.
    pub fn to_expr(&self) -> (text: String)
        ensures
            text@ == expr(self@),
    {
        proof {
            use_type_invariant(self);
        }
        let mut out = self.segments[0].clone();
        let mut i: usize = 1;
        while i < self.segments.len()
            invariant
                1 <= i <= self.segments.len(),
                out@ == self@[0] + tail_expr(self@.subrange(1, i as int)),
            decreases self.segments.len() - i,
        {
            push_quoted(&mut out, self.segments[i].as_str());
            proof {
                lemma_tail_expr_push(self@.subrange(1, i as int), self@[i as int]);
                assert(self@.subrange(1, i + 1) =~= self@.subrange(1, i as int).push(self@[i as int]));
            }
            i += 1;
        }
        out
    }
}

impl Clone for BrowserPath {
    fn clone(&self) -> (r: Self)
        ensures
            r@ == self@,
    {
        proof {
            use_type_invariant(self);
        }
        let segments = self.segments.clone();
        BrowserPath { segments }
    }
}

} // verus!
