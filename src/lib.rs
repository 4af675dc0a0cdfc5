//! Structural identities of composable query expressions, used as keys of a
//! prepared-statement cache.
pub mod expression;
pub mod laws;
pub mod query_id;
pub mod shape;

pub use expression::{
    and, bind, equals, filter, select, to_dynamic, And, Bound, Column, Dynamic, Equals, Filter,
    Integer, Select, Table, Text,
};
pub use query_id::{identity_key, identity_key_of, query_id_of, QueryId};
pub use shape::{composite_shape, Shape};
