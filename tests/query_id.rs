use query_id::{
    and, bind, equals, filter, query_id_of, select, to_dynamic, And, Column, Dynamic, Integer,
    QueryId, Shape, Table, Text,
};

type Users = Table<1>;
type UsersId = Column<1, 0>;
type UsersName = Column<1, 1>;

fn users() -> Users {
    Table
}

fn id() -> UsersId {
    Column
}

fn name() -> UsersName {
    Column
}

#[test]
fn queries_with_no_dynamic_elements_have_a_static_id() {
    assert!(query_id_of(&users()).is_some());
    assert!(query_id_of(&select(users(), name())).is_some());
    assert!(query_id_of(&filter(users(), equals(name(), bind(Text, "Sean")))).is_some());
}

#[test]
fn queries_with_different_types_have_different_ids() {
    let id1 = query_id_of(&select(users(), name()));
    let id2 = query_id_of(&select(users(), id()));
    assert_ne!(id1, id2);
}

#[test]
fn bind_params_use_only_sql_type_for_query_id() {
    let id1 = query_id_of(&filter(users(), equals(name(), bind(Text, "Sean"))));
    let id2 = query_id_of(&filter(users(), equals(name(), bind(Text, "Tess".to_string()))));
    assert_eq!(id1, id2);
}

#[test]
fn boxed_queries_do_not_have_static_query_id() {
    assert!(query_id_of(&to_dynamic(users())).is_none());
}

#[test]
fn selecting_different_columns_gives_distinct_some_keys() {
    let id1 = query_id_of(&select(users(), name()));
    let id2 = query_id_of(&select(users(), id()));
    assert!(id1.is_some());
    assert!(id2.is_some());
    assert_ne!(id1, id2);
}

#[test]
fn borrowed_and_owned_text_share_a_key() {
    let id1 = query_id_of(&filter(users(), equals(name(), bind(Text, "Sean"))));
    let id2 = query_id_of(&filter(users(), equals(name(), bind(Text, String::from("Sean")))));
    assert!(id1.is_some());
    assert_eq!(id1, id2);
}

#[test]
fn bound_values_of_one_type_share_a_key() {
    let id1 = query_id_of(&bind(Integer, 1_i32));
    let id2 = query_id_of(&bind(Integer, 2_i32));
    let id3 = query_id_of(&bind(Integer, 7_i64));
    assert!(id1.is_some());
    assert_eq!(id1, id2);
    assert_eq!(id1, id3);
}

#[test]
fn bound_sql_type_changes_the_key() {
    let id1 = query_id_of(&bind(Integer, 1_i32));
    let id2 = query_id_of(&bind(Text, 1_i32));
    assert_ne!(id1, id2);
}

#[test]
fn dynamic_select_has_no_key() {
    assert_eq!(query_id_of(&to_dynamic(select(users(), name()))), None);
}

#[test]
fn dynamic_keeps_the_erased_descriptor() {
    let d = to_dynamic(select(users(), name()));
    assert_eq!(Some(d.erased), query_id_of(&select(users(), name())));
}

#[test]
fn wrappers_keep_the_key() {
    let q = select(users(), name());
    let plain = query_id_of(&q);
    let boxed = query_id_of(&Box::new(select(users(), name())));
    let borrowed = query_id_of(&&q);
    assert!(plain.is_some());
    assert_eq!(plain, boxed);
    assert_eq!(plain, borrowed);
    assert_eq!(query_id_of(&Box::new(to_dynamic(users()))), None);
}

#[test]
fn composite_with_dynamic_constituent_has_no_key() {
    let static_part = equals(name(), bind(Text, "Sean"));
    let dynamic_part = to_dynamic(equals(id(), bind(Integer, 1_i32)));
    assert!(query_id_of(&static_part).is_some());
    assert_eq!(query_id_of(&and(static_part, dynamic_part)), None);
    assert_eq!(query_id_of(&filter(to_dynamic(users()), equals(name(), bind(Text, "x")))), None);
    assert_eq!(query_id_of(&select(users(), to_dynamic(name()))), None);
}

#[test]
fn unit_constituent_keeps_the_static_flag() {
    assert!(<And<UsersName, ()>>::has_static_query_id());
    assert!(query_id_of(&and(equals(name(), bind(Text, "Sean")), ())).is_some());
    assert!(query_id_of(&and((), equals(name(), bind(Text, "Sean")))).is_some());
    assert!(!<And<Dynamic, ()>>::has_static_query_id());
    assert_eq!(query_id_of(&and(to_dynamic(users()), ())), None);
}

#[test]
fn conjunction_order_matters() {
    let ab = query_id_of(&and(equals(name(), bind(Text, "a")), equals(id(), bind(Integer, 1_i32))));
    let ba = query_id_of(&and(equals(id(), bind(Integer, 1_i32)), equals(name(), bind(Text, "a"))));
    assert!(ab.is_some());
    assert_ne!(ab, ba);
}

#[test]
fn repeated_queries_give_equal_keys() {
    let first = query_id_of(&select(users(), name()));
    let second = query_id_of(&select(users(), name()));
    assert_eq!(first, second);
    assert_eq!(<Users>::query_id(), query_id_of(&users()));
}

#[test]
fn columns_of_different_tables_differ() {
    assert_ne!(query_id_of(&Column::<1, 0>), query_id_of(&Column::<2, 0>));
    assert_ne!(query_id_of(&Table::<1>), query_id_of(&Table::<2>));
}

#[test]
fn unit_has_a_constant_key() {
    assert_eq!(<()>::query_id(), Some(Shape::Unit));
}

#[test]
fn leaf_descriptor_is_tag_and_empty_list() {
    let expected = Shape::Pair(Box::new(Shape::Tag(3)), Box::new(Shape::Unit));
    assert_eq!(Text::query_shape(), expected);
}

#[test]
fn composite_descriptor_lists_constituents_in_order() {
    let built = Shape::composite(9, vec![Shape::Tag(1), Shape::Unit]);
    let expected = Shape::Pair(
        Box::new(Shape::Tag(9)),
        Box::new(Shape::Pair(
            Box::new(Shape::Tag(1)),
            Box::new(Shape::Pair(Box::new(Shape::Unit), Box::new(Shape::Unit))),
        )),
    );
    assert!(built == expected);
    assert!(Shape::composite(9, vec![Shape::Unit, Shape::Tag(1)]) != expected);
    assert!(Shape::composite(8, vec![Shape::Tag(1), Shape::Unit]) != expected);
}
