//! Expression types of the query builder, each with its identity.
use vstd::prelude::*;
use crate::query_id::{identity_key_of, QueryId};
use crate::shape::{composite_shape, Shape};

verus! {

// The type tags of the expression families, one distinct tag each.
pub const TABLE_TAG: u64 = 1;

pub const COLUMN_TAG: u64 = 2;

pub const TEXT_TAG: u64 = 3;

pub const INTEGER_TAG: u64 = 4;

pub const BOUND_TAG: u64 = 5;

pub const SELECT_TAG: u64 = 6;

pub const FILTER_TAG: u64 = 7;

pub const EQUALS_TAG: u64 = 8;

pub const AND_TAG: u64 = 9;

pub const DYNAMIC_TAG: u64 = 10;

/// A table, named by a number.
pub struct Table<const ID: u64>;

/// Column `ID` of table `TABLE`.
pub struct Column<const TABLE: u64, const ID: u64>;

/// The SQL text type.
pub struct Text;

/// The SQL integer type.
pub struct Integer;

/// A bind parameter: a host value of type `U` sent as SQL type `ST`.
pub struct Bound<ST, U> {
    pub sql_type: ST,
    pub value: U,
}

/// The projection of `selection` out of `source`.
pub struct Select<S, C> {
    pub source: S,
    pub selection: C,
}

/// The rows of `source` for which `predicate` holds.
pub struct Filter<S, P> {
    pub source: S,
    pub predicate: P,
}

/// The comparison `left = right`.
pub struct Equals<L, R> {
    pub left: L,
    pub right: R,
}

/// The conjunction `left AND right`.
pub struct And<L, R> {
    pub left: L,
    pub right: R,
}

/// A type-erased query: which expression it holds is known only at run time,
/// so its SQL text is never determined by its type.
pub struct Dynamic {
    /// The descriptor of the expression it was built from.
    pub erased: Shape,
}

impl<const ID: u64> QueryId for Table<ID> {
    open spec fn spec_has_static_query_id() -> bool {
        true
    }

    open spec fn spec_query_shape() -> Shape {
        composite_shape(TABLE_TAG, seq![Shape::Tag(ID)])
    }

    fn has_static_query_id() -> (r: bool) {
        true
    }

    fn query_shape() -> (r: Shape) {
        let parts = vec![Shape::Tag(ID)];
        assert(parts@ =~= seq![Shape::Tag(ID)]);
        Shape::composite(TABLE_TAG, parts)
    }
}

impl<const TABLE: u64, const ID: u64> QueryId for Column<TABLE, ID> {
    open spec fn spec_has_static_query_id() -> bool {
        true
    }

    open spec fn spec_query_shape() -> Shape {
        composite_shape(COLUMN_TAG, seq![Shape::Tag(TABLE), Shape::Tag(ID)])
    }

    fn has_static_query_id() -> (r: bool) {
        true
    }

    fn query_shape() -> (r: Shape) {
        Shape::composite(COLUMN_TAG, vec![Shape::Tag(TABLE), Shape::Tag(ID)])
    }
}

impl QueryId for Text {
    open spec fn spec_has_static_query_id() -> bool {
        true
    }

    open spec fn spec_query_shape() -> Shape {
        composite_shape(TEXT_TAG, seq![])
    }

    fn has_static_query_id() -> (r: bool) {
        true
    }

    fn query_shape() -> (r: Shape) {
        Shape::composite(TEXT_TAG, vec![])
    }
}

impl QueryId for Integer {
    open spec fn spec_has_static_query_id() -> bool {
        true
    }

    open spec fn spec_query_shape() -> Shape {
        composite_shape(INTEGER_TAG, seq![])
    }

    fn has_static_query_id() -> (r: bool) {
        true
    }

    fn query_shape() -> (r: Shape) {
        Shape::composite(INTEGER_TAG, vec![])
    }
}

/// Only the declared SQL type reaches the descriptor; the host type stands
/// as `Unit` whatever it is.
impl<ST: QueryId, U> QueryId for Bound<ST, U> {
    open spec fn spec_has_static_query_id() -> bool {
        ST::spec_has_static_query_id()
    }

    open spec fn spec_query_shape() -> Shape {
        composite_shape(BOUND_TAG, seq![ST::spec_query_shape(), Shape::Unit])
    }

    fn has_static_query_id() -> (r: bool) {
        ST::has_static_query_id()
    }

    fn query_shape() -> (r: Shape) {
        Shape::composite(BOUND_TAG, vec![ST::query_shape(), Shape::Unit])
    }
}

impl<S: QueryId, C: QueryId> QueryId for Select<S, C> {
    open spec fn spec_has_static_query_id() -> bool {
        S::spec_has_static_query_id() && C::spec_has_static_query_id()
    }

    open spec fn spec_query_shape() -> Shape {
        composite_shape(SELECT_TAG, seq![S::spec_query_shape(), C::spec_query_shape()])
    }

    fn has_static_query_id() -> (r: bool) {
        S::has_static_query_id() && C::has_static_query_id()
    }

    fn query_shape() -> (r: Shape) {
        Shape::composite(SELECT_TAG, vec![S::query_shape(), C::query_shape()])
    }
}

impl<S: QueryId, P: QueryId> QueryId for Filter<S, P> {
    open spec fn spec_has_static_query_id() -> bool {
        S::spec_has_static_query_id() && P::spec_has_static_query_id()
    }

    open spec fn spec_query_shape() -> Shape {
        composite_shape(FILTER_TAG, seq![S::spec_query_shape(), P::spec_query_shape()])
    }

    fn has_static_query_id() -> (r: bool) {
        S::has_static_query_id() && P::has_static_query_id()
    }

    fn query_shape() -> (r: Shape) {
        Shape::composite(FILTER_TAG, vec![S::query_shape(), P::query_shape()])
    }
}

impl<L: QueryId, R: QueryId> QueryId for Equals<L, R> {
    open spec fn spec_has_static_query_id() -> bool {
        L::spec_has_static_query_id() && R::spec_has_static_query_id()
    }

    open spec fn spec_query_shape() -> Shape {
        composite_shape(EQUALS_TAG, seq![L::spec_query_shape(), R::spec_query_shape()])
    }

    fn has_static_query_id() -> (r: bool) {
        L::has_static_query_id() && R::has_static_query_id()
    }

    fn query_shape() -> (r: Shape) {
        Shape::composite(EQUALS_TAG, vec![L::query_shape(), R::query_shape()])
    }
}

impl<L: QueryId, R: QueryId> QueryId for And<L, R> {
    open spec fn spec_has_static_query_id() -> bool {
        L::spec_has_static_query_id() && R::spec_has_static_query_id()
    }

    open spec fn spec_query_shape() -> Shape {
        composite_shape(AND_TAG, seq![L::spec_query_shape(), R::spec_query_shape()])
    }

    fn has_static_query_id() -> (r: bool) {
        L::has_static_query_id() && R::has_static_query_id()
    }

    fn query_shape() -> (r: Shape) {
        Shape::composite(AND_TAG, vec![L::query_shape(), R::query_shape()])
    }
}

/// Projects `selection` out of `source`.
pub fn select<S: QueryId, C: QueryId>(source: S, selection: C) -> (r: Select<S, C>)
    ensures
        r.source == source,
        r.selection == selection,
{
    Select { source, selection }
}

/// Keeps the rows of `source` for which `predicate` holds.
pub fn filter<S: QueryId, P: QueryId>(source: S, predicate: P) -> (r: Filter<S, P>)
    ensures
        r.source == source,
        r.predicate == predicate,
{
    Filter { source, predicate }
}

/// Compares `left` with `right`.
pub fn equals<L: QueryId, R: QueryId>(left: L, right: R) -> (r: Equals<L, R>)
    ensures
        r.left == left,
        r.right == right,
{
    Equals { left, right }
}

/// Joins two conditions with `AND`.
pub fn and<L: QueryId, R: QueryId>(left: L, right: R) -> (r: And<L, R>)
    ensures
        r.left == left,
        r.right == right,
{
    And { left, right }
}

/// Binds the host value `value` as a parameter of SQL type `ST`.
pub fn bind<ST: QueryId, U>(sql_type: ST, value: U) -> (r: Bound<ST, U>)
    ensures
        r.sql_type == sql_type,
        r.value == value,
{
    Bound { sql_type, value }
}

/// Erases the type of `expr`, keeping its descriptor as a run-time value.
pub fn to_dynamic<T: QueryId>(expr: T) -> (r: Dynamic)
    ensures
        r.erased == T::spec_query_shape(),
        identity_key_of(&r) is None,
{
    Dynamic { erased: T::query_shape() }
}

/// Never static; the descriptor is a placeholder that no key reaches.
impl QueryId for Dynamic {
    open spec fn spec_has_static_query_id() -> bool {
        false
    }

    open spec fn spec_query_shape() -> Shape {
        composite_shape(DYNAMIC_TAG, seq![])
    }

    fn has_static_query_id() -> (r: bool) {
        false
    }

    fn query_shape() -> (r: Shape) {
        Shape::composite(DYNAMIC_TAG, vec![])
    }
}

} // verus!
