//! The closed set of value variants a cache entry can hold.

use vstd::prelude::*;

verus! {

/// A cached value: one of a fixed, closed set of primitive variants.
///
/// The `Float` variant carries the IEEE-754 bit pattern of a 64-bit
/// floating-point number, so that the cache itself works on plain bits;
/// callers convert with `f64::to_bits` / `f64::from_bits` at the edge.
#[derive(Debug)]
pub enum ZEntry {
    Int(i64),
    Float(u64),
    Text(String),
    Bool(bool),
}

/// The mathematical value of a [`ZEntry`]: the same variants, with the
/// text held as a sequence of characters.
pub enum ZEntryView {
    Int(i64),
    Float(u64),
    Text(Seq<char>),
    Bool(bool),
}

impl View for ZEntry {
    type V = ZEntryView;

    open spec fn view(&self) -> ZEntryView {
        match self {
            ZEntry::Int(i) => ZEntryView::Int(*i),
            ZEntry::Float(bits) => ZEntryView::Float(*bits),
            ZEntry::Text(s) => ZEntryView::Text(s@),
            ZEntry::Bool(b) => ZEntryView::Bool(*b),
        }
    }
}

impl Clone for ZEntry {
    /// Cloning preserves the value exactly.
    fn clone(&self) -> (r: Self)
        ensures
            r@ == self@,
    {
        match self {
            ZEntry::Int(i) => ZEntry::Int(*i),
            ZEntry::Float(bits) => ZEntry::Float(*bits),
            ZEntry::Text(s) => ZEntry::Text(s.clone()),
            ZEntry::Bool(b) => ZEntry::Bool(*b),
        }
    }
}

} // verus!
