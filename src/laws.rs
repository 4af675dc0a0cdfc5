//! Properties of identity keys that hold across expression types.
use vstd::prelude::*;
use crate::expression::{
    And, Bound, Column, Dynamic, Equals, Filter, Select, Table, AND_TAG, COLUMN_TAG, SELECT_TAG,
};
use crate::query_id::{identity_key, identity_key_of, QueryId};
use crate::shape::{lemma_composite_injective, Shape};

verus! {

/// Two expressions of the same type have the same identity key, whatever
/// values they hold.
pub proof fn lemma_shape_determinism<E: QueryId>(e1: E, e2: E)
    ensures
        identity_key_of(&e1) == identity_key_of(&e2),
{
}

/// Different columns, of the same table or not, have different descriptors.
pub proof fn lemma_column_discrimination<const T1: u64, const I1: u64, const T2: u64, const I2: u64>()
    requires
        T1 != T2 || I1 != I2,
    ensures
        identity_key::<Column<T1, I1>>() is Some,
        identity_key::<Column<T2, I2>>() is Some,
        identity_key::<Column<T1, I1>>() != identity_key::<Column<T2, I2>>(),
{
    let p1 = seq![Shape::Tag(T1), Shape::Tag(I1)];
    let p2 = seq![Shape::Tag(T2), Shape::Tag(I2)];
    lemma_composite_injective(COLUMN_TAG, p1, COLUMN_TAG, p2);
    if p1 == p2 {
        assert(p1[0] == p2[0] && p1[1] == p2[1]);
    }
}

/// Selecting two columns of different shape from the same static source
/// gives two different keys.
pub proof fn lemma_select_discrimination<S: QueryId, C1: QueryId, C2: QueryId>()
    requires
        S::spec_has_static_query_id(),
        C1::spec_has_static_query_id(),
        C2::spec_has_static_query_id(),
        C1::spec_query_shape() != C2::spec_query_shape(),
    ensures
        identity_key::<Select<S, C1>>() is Some,
        identity_key::<Select<S, C2>>() is Some,
        identity_key::<Select<S, C1>>() != identity_key::<Select<S, C2>>(),
{
    let p1 = seq![S::spec_query_shape(), C1::spec_query_shape()];
    let p2 = seq![S::spec_query_shape(), C2::spec_query_shape()];
    lemma_composite_injective(SELECT_TAG, p1, SELECT_TAG, p2);
    if p1 == p2 {
        assert(p1[1] == p2[1]);
    }
}

/// Selecting two different columns from one table gives two different
/// keys.
pub proof fn lemma_select_column_discrimination<const T: u64, const TA: u64, const IA: u64, const TB: u64, const IB: u64>()
    requires
        TA != TB || IA != IB,
    ensures
        identity_key::<Select<Table<T>, Column<TA, IA>>>() is Some,
        identity_key::<Select<Table<T>, Column<TB, IB>>>() is Some,
        identity_key::<Select<Table<T>, Column<TA, IA>>>() != identity_key::<
            Select<Table<T>, Column<TB, IB>>,
        >(),
{
    lemma_column_discrimination::<TA, IA, TB, IB>();
    lemma_select_discrimination::<Table<T>, Column<TA, IA>, Column<TB, IB>>();
}

/// A conjunction's key keeps the order of its operands: swapping two
/// operands of different shape changes it.
pub proof fn lemma_composite_order<A: QueryId, B: QueryId>()
    requires
        A::spec_has_static_query_id(),
        B::spec_has_static_query_id(),
        A::spec_query_shape() != B::spec_query_shape(),
    ensures
        identity_key::<And<A, B>>() != identity_key::<And<B, A>>(),
{
    let p1 = seq![A::spec_query_shape(), B::spec_query_shape()];
    let p2 = seq![B::spec_query_shape(), A::spec_query_shape()];
    lemma_composite_injective(AND_TAG, p1, AND_TAG, p2);
    if p1 == p2 {
        assert(p1[0] == p2[0]);
    }
}

/// A bind parameter's key depends on its SQL type, not on its host type.
pub proof fn lemma_bound_collapsing<ST: QueryId, U1, U2>()
    ensures
        identity_key::<Bound<ST, U1>>() == identity_key::<Bound<ST, U2>>(),
{
}

/// Filtering on a column compared with a bind parameter gives one key for
/// every host type of the bound value.
pub proof fn lemma_filter_bound_collapsing<S: QueryId, C: QueryId, ST: QueryId, U1, U2>()
    ensures
        identity_key::<Filter<S, Equals<C, Bound<ST, U1>>>>() == identity_key::<
            Filter<S, Equals<C, Bound<ST, U2>>>,
        >(),
{
}

/// A type-erased query has no key, whatever it was built from, and neither
/// has an indirection to one.
pub proof fn lemma_dynamic_opacity(q: Dynamic)
    ensures
        identity_key_of(&q) is None,
        identity_key::<Box<Dynamic>>() is None,
        identity_key::<&Dynamic>() is None,
{
}

/// Owning and borrowing indirections keep the key of what they wrap.
pub proof fn lemma_wrapper_transparency<T: QueryId>()
    ensures
        identity_key::<Box<T>>() == identity_key::<T>(),
        identity_key::<&T>() == identity_key::<T>(),
{
}

/// A composite with a constituent that is not static has no key, whatever
/// the other constituent.
pub proof fn lemma_composite_non_static<L: QueryId, R: QueryId>()
    requires
        !L::spec_has_static_query_id() || !R::spec_has_static_query_id(),
    ensures
        identity_key::<And<L, R>>() is None,
        identity_key::<Equals<L, R>>() is None,
        identity_key::<Select<L, R>>() is None,
        identity_key::<Filter<L, R>>() is None,
{
}

/// The no-op expression, as either constituent of a composite, leaves the
/// composite static exactly when the other constituent is.
pub proof fn lemma_unit_neutral<T: QueryId>()
    ensures
        And::<T, ()>::spec_has_static_query_id() == T::spec_has_static_query_id(),
        And::<(), T>::spec_has_static_query_id() == T::spec_has_static_query_id(),
        Filter::<T, ()>::spec_has_static_query_id() == T::spec_has_static_query_id(),
        Select::<T, ()>::spec_has_static_query_id() == T::spec_has_static_query_id(),
{
}

} // verus!
