//! A generic aggregate record with per-field type substitution.
//!
//! `AggregateStruct` is built once with every field holding the same type
//! and is then consumed by chained `replace_` operations, each of which
//! substitutes exactly one field's type and value while moving every other
//! field over verbatim.

use vstd::prelude::*;

verus! {

/// A record whose fields all share one type at construction
/// (`AggregateStruct<X, X>`). Each `replace_` operation re-parameterizes
/// the record at its use-site, so that exactly one field's type changes.
///
/// Each field owns its own type slot in the declaration: substituting one
/// field's type can therefore never affect another field's type. A record
/// shape where two fields are declared with one shared slot admits no such
/// per-field operation — its `replace_` signature would be ill-typed and is
/// rejected when the operation is written, before any value exists.
#[derive(Clone, Copy, Debug, PartialEq, Eq)]
pub struct AggregateStruct<A, B> {
    /// First field.
    pub a: A,
    /// Second field.
    pub b: B,
}

impl<X> AggregateStruct<X, X> {
    /// Builds the record with every field holding the same type.
    pub fn new(a: X, b: X) -> (r: Self)
        ensures
            r.a == a,
            r.b == b,
    {
        AggregateStruct { a, b }
    }
}

impl<A, B> AggregateStruct<A, B> {
    /// Consumes the record and substitutes field `a`: its value is mapped
    /// through `transform` into the new type, while field `b` is moved over
    /// unchanged in type and value.
    pub fn replace_a<Y, T>(self, transform: T) -> (r: AggregateStruct<Y, B>) where
        T: FnOnce(A) -> Y,

        requires
            call_requires(transform, (self.a,)),
        ensures
            call_ensures(transform, (self.a,), r.a),
            r.b == self.b,
    {
        AggregateStruct { a: transform(self.a), b: self.b }
    }

    /// Consumes the record and substitutes field `b`: its value is mapped
    /// through `transform` into the new type, while field `a` is moved over
    /// unchanged in type and value.
    pub fn replace_b<Y, T>(self, transform: T) -> (r: AggregateStruct<A, Y>) where
        T: FnOnce(B) -> Y,

        requires
            call_requires(transform, (self.b,)),
        ensures
            call_ensures(transform, (self.b,), r.b),
            r.a == self.a,
    {
        AggregateStruct { a: self.a, b: transform(self.b) }
    }
}

} // verus!
