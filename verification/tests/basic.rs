use sea_orm_builder::{
    expand, Builder, DeclBody, EntityDecl, FieldDecl, FieldValue, FieldsDecl, MetaArgs, MetaItem,
    Mode, OpKind, SeaOrmBuilderError, SlotValue,
};

fn word(name: &str) -> MetaItem {
    MetaItem { name: name.to_string(), args: MetaArgs::Bare }
}

fn list(name: &str, items: Vec<MetaItem>) -> MetaItem {
    MetaItem { name: name.to_string(), args: MetaArgs::List(items) }
}

fn text(name: &str, value: &str) -> MetaItem {
    MetaItem { name: name.to_string(), args: MetaArgs::Text(value.to_string()) }
}

fn value(name: &str) -> MetaItem {
    MetaItem { name: name.to_string(), args: MetaArgs::Value }
}

fn filters(ops: &[&str]) -> MetaItem {
    list("where", ops.iter().map(|op| word(op)).collect())
}

fn field(ident: &str, ty: &str, attrs: Vec<MetaItem>) -> FieldDecl {
    FieldDecl { ident: ident.to_string(), ty: ty.to_string(), attrs }
}

/// The model of the table `foo_bar`: an id, a name and an age.
fn foo_bar() -> EntityDecl {
    EntityDecl {
        attrs: vec![list("sea_orm", vec![text("table_name", "foo_bar")])],
        body: DeclBody::Struct(FieldsDecl::Named(vec![
            field(
                "id",
                "u64",
                vec![
                    list("sea_orm", vec![word("primary_key"), value("auto_increment")]),
                    list(
                        "sea_builder",
                        vec![
                            list("select", vec![filters(&["eq", "in", "not_in"])]),
                            list("update", vec![filters(&["eq", "in", "not_in"])]),
                            list("delete", vec![filters(&["eq", "in", "not_in"])]),
                        ],
                    ),
                ],
            ),
            field(
                "name",
                "String",
                vec![list(
                    "sea_builder",
                    vec![
                        list("select", vec![filters(&["eq", "like"])]),
                        list("update", vec![filters(&["eq"]), word("set")]),
                    ],
                )],
            ),
            field(
                "age",
                "i32",
                vec![list(
                    "sea_builder",
                    vec![
                        list("delete", vec![filters(&["gte", "lt"])]),
                        list("update", vec![filters(&["between"]), word("set")]),
                    ],
                )],
            ),
        ])),
    }
}

fn uint(u: u64) -> FieldValue {
    FieldValue::U64(u)
}

#[test]
fn builders_compile_and_enforce() {
    let model = foo_bar();
    // select
    let (_sel_stmt, params) = Builder::new(expand(&model, Mode::Select).unwrap())
        .scalar("name", OpKind::Like, "abc")
        .unwrap()
        .list("id", OpKind::NotIn, vec![2u64, 3u64])
        .unwrap()
        .scalar("id", OpKind::Eq, 1u64)
        .unwrap()
        .order_by_desc("Name")
        .unwrap()
        .limit(10)
        .unwrap()
        .offset(5)
        .unwrap()
        .build_with_params()
        .unwrap();
    assert!(params.is_set("id", OpKind::Eq));
    assert_eq!(params.get("id", OpKind::Eq), Some(&SlotValue::Scalar(uint(1u64))));
    assert!(params.is_set("id", OpKind::NotIn));
    assert_eq!(
        params.get("id", OpKind::NotIn).unwrap(),
        &SlotValue::List(vec![uint(2u64), uint(3u64)])
    );
    assert!(params.is_set("name", OpKind::Like));
    assert_eq!(
        params.get("name", OpKind::Like).unwrap(),
        &SlotValue::Scalar(FieldValue::Text("abc".to_string()))
    );
    assert_eq!(params.where_params().len(), 3);

    // update ok
    let up_ok = Builder::new(expand(&model, Mode::Update).unwrap())
        .set("name", "new")
        .unwrap()
        .between("age", 1, 99)
        .unwrap()
        .list("id", OpKind::NotIn, vec![1u64, 2u64])
        .unwrap()
        .scalar("id", OpKind::Eq, 42u64)
        .unwrap()
        .build();
    assert!(up_ok.is_ok());

    // update with params snapshot
    let up_ok_with_params = Builder::new(expand(&model, Mode::Update).unwrap())
        .set("name", "new")
        .unwrap()
        .between("age", 1, 99)
        .unwrap()
        .list("id", OpKind::NotIn, vec![1u64, 2u64])
        .unwrap()
        .scalar("id", OpKind::Eq, 42u64)
        .unwrap()
        .build_with_params();
    assert!(up_ok_with_params.is_ok());
    let (_u_stmt, u_params) = up_ok_with_params.unwrap();
    assert!(u_params.is_set("id", OpKind::Eq));
    assert_eq!(u_params.get("id", OpKind::Eq), Some(&SlotValue::Scalar(uint(42))));
    assert!(u_params.is_set("id", OpKind::NotIn));
    assert_eq!(
        u_params.get("id", OpKind::NotIn).unwrap(),
        &SlotValue::List(vec![uint(1u64), uint(2u64)])
    );
    assert!(u_params.is_set("age", OpKind::Between));
    let (a, b) = match u_params.get("age", OpKind::Between).unwrap() {
        SlotValue::Pair(FieldValue::I32(a), FieldValue::I32(b)) => (a, b),
        other => panic!("not a pair of integers: {:?}", other),
    };
    assert_eq!((*a, *b), (1, 99));
    assert_eq!(u_params.where_params().len(), 3);

    // update missing where
    let up_no_where = Builder::new(expand(&model, Mode::Update).unwrap())
        .set("name", "x")
        .unwrap()
        .build();
    assert!(matches!(up_no_where, Err(SeaOrmBuilderError::NoWhere)));

    // delete ok
    let del_ok = Builder::new(expand(&model, Mode::Delete).unwrap())
        .list("id", OpKind::NotIn, vec![1u64, 2u64])
        .unwrap()
        .scalar("id", OpKind::Eq, 1u64)
        .unwrap()
        .build_with_params();
    assert!(del_ok.is_ok());
    let (_, del_params) = del_ok.unwrap();
    assert!(del_params.is_set("id", OpKind::Eq));
    assert!(del_params.is_set("id", OpKind::NotIn));
    assert_eq!(
        del_params.get("id", OpKind::NotIn).unwrap(),
        &SlotValue::List(vec![uint(1u64), uint(2u64)])
    );
    assert_eq!(del_params.where_params().len(), 2);

    // delete missing where
    let del_err = Builder::new(expand(&model, Mode::Delete).unwrap()).build();
    assert!(matches!(del_err, Err(SeaOrmBuilderError::NoWhere)));
}
