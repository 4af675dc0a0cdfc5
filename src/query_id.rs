//! The identity capability that every expression type provides, and its
//! forwarding through the unit expression and ownership wrappers.
use vstd::prelude::*;
use crate::shape::Shape;

verus! {

/// Uniquely identifies queries by their type for the purpose of prepared
/// statement caching.
///
/// The static flag and the descriptor are properties of the type, not of a
/// value: no method takes `self`. A composite over constituents `f1 .. fn`
/// has the descriptor `composite_shape(TAG, seq![f1, .., fn])`, with a tag
/// of its own, and is static exactly when every constituent is.
pub trait QueryId {
    /// Whether the SQL text of `Self` is fully determined by its type.
    spec fn spec_has_static_query_id() -> bool;

    /// The descriptor of `Self`'s shape; consulted only when it is static.
    spec fn spec_query_shape() -> Shape;

    /// The static flag of `Self`.
    fn has_static_query_id() -> (r: bool)
        ensures
            r == Self::spec_has_static_query_id(),
    ;

    /// The descriptor of `Self`; callers that key a cache use `query_id`.
    fn query_shape() -> (r: Shape)
        ensures
            r == Self::spec_query_shape(),
    ;

    /// The identity key of `Self`: its descriptor when it is static, `None`
    /// otherwise. There is no need to override it.
    fn query_id() -> (r: Option<Shape>)
        ensures
            r == (if Self::spec_has_static_query_id() {
                Some(Self::spec_query_shape())
            } else {
                None::<Shape>
            }),
    {
        if Self::has_static_query_id() {
            Some(Self::query_shape())
        } else {
            None
        }
    }
}

/// The identity key of the expression type `T`.
pub open spec fn identity_key<T: QueryId + ?Sized>() -> Option<Shape> {
    if T::spec_has_static_query_id() {
        Some(T::spec_query_shape())
    } else {
        None
    }
}

/// The identity key of an expression value, which depends on its type alone.
pub open spec fn identity_key_of<T: QueryId>(expr: &T) -> Option<Shape> {
    identity_key::<T>()
}

/// The identity key under which a prepared statement for `expr` may be
/// cached; `None` means the cache must be bypassed.
pub fn query_id_of<T: QueryId>(expr: &T) -> (r: Option<Shape>)
    ensures
        r == identity_key_of(expr),
{
    T::query_id()
}

/// The no-op expression: a constant descriptor, always static.
impl QueryId for () {
    open spec fn spec_has_static_query_id() -> bool {
        true
    }

    open spec fn spec_query_shape() -> Shape {
        Shape::Unit
    }

    /// The static flag of `Self`.
    fn has_static_query_id() -> (r: bool) {
        true
    }

    fn query_shape() -> (r: Shape) {
        Shape::Unit
    }
}

/// Owning indirection is transparent to identity.
impl<T: QueryId + ?Sized> QueryId for Box<T> {
    open spec fn spec_has_static_query_id() -> bool {
        T::spec_has_static_query_id()
    }

    open spec fn spec_query_shape() -> Shape {
        T::spec_query_shape()
    }

    /// The static flag of `Self`.
    fn has_static_query_id() -> (r: bool) {
        T::has_static_query_id()
    }

    fn query_shape() -> (r: Shape) {
        T::query_shape()
    }
}

/// Borrowing indirection is transparent to identity.
impl<'a, T: QueryId + ?Sized> QueryId for &'a T {
    open spec fn spec_has_static_query_id() -> bool {
        T::spec_has_static_query_id()
    }

    open spec fn spec_query_shape() -> Shape {
        T::spec_query_shape()
    }

    /// The static flag of `Self`.
    fn has_static_query_id() -> (r: bool) {
        T::has_static_query_id()
    }

    fn query_shape() -> (r: Shape) {
        T::query_shape()
    }
}

} // verus!
