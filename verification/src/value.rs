//! What the evaluator reports of a node.

use vstd::prelude::*;

verus! {

/// An evaluated node. A container is reported by its shape only: an attribute
/// set by the names of its children, a list by the number of its elements;
/// what is inside is asked for by further requests.
#[derive(Debug, PartialEq)]
pub enum NixValue {
    /// Not evaluated yet.
    Thunk,
    Int(i64),
    /// A 64-bit floating-point number, held as its IEEE 754 bit pattern.
    Float(u64),
    Bool(bool),
    String(String),
    /// A file system path, as text.
    Path(String),
    Null,
    /// The names of the children, in the order reported.
    Attrs(Vec<String>),
    /// The number of elements.
    List(usize),
    Function,
    External,
}

/// A node as a mathematical value.
pub enum ValueView {
    Thunk,
    Int(i64),
    Float(u64),
    Bool(bool),
    Text(Seq<char>),
    Path(Seq<char>),
    Null,
    Attrs(Seq<Seq<char>>),
    List(usize),
    Function,
    External,
}

impl View for NixValue {
    type V = ValueView;

    open spec fn view(&self) -> ValueView {
        match self {
            NixValue::Thunk => ValueView::Thunk,
            NixValue::Int(i) => ValueView::Int(*i),
            NixValue::Float(bits) => ValueView::Float(*bits),
            NixValue::Bool(b) => ValueView::Bool(*b),
            NixValue::String(s) => ValueView::Text(s@),
            NixValue::Path(s) => ValueView::Path(s@),
            NixValue::Null => ValueView::Null,
            NixValue::Attrs(names) => ValueView::Attrs(names.deep_view()),
            NixValue::List(n) => ValueView::List(*n),
            NixValue::Function => ValueView::Function,
            NixValue::External => ValueView::External,
        }
    }
}

impl Clone for NixValue {
    fn clone(&self) -> (r: Self)
        ensures
            r@ == self@,
    {
        match self {
            NixValue::Thunk => NixValue::Thunk,
            NixValue::Int(i) => NixValue::Int(*i),
            NixValue::Float(bits) => NixValue::Float(*bits),
            NixValue::Bool(b) => NixValue::Bool(*b),
            NixValue::String(s) => NixValue::String(s.clone()),
            NixValue::Path(s) => NixValue::Path(s.clone()),
            NixValue::Null => NixValue::Null,
            NixValue::Attrs(names) => {
                let copy = names.clone();
                NixValue::Attrs(copy)
            },
            NixValue::List(n) => NixValue::List(*n),
            NixValue::Function => NixValue::Function,
            NixValue::External => NixValue::External,
        }
    }
}

} // verus!
