use sea_orm_builder::{
    expand, Builder, BuilderShape, CallError, Clause, DeclBody, Direction, EntityDecl, FieldDecl,
    FieldValue, FieldsDecl, MetaArgs, MetaItem, Mode, OpKind, SeaOrmBuilderError, SlotValue,
    Statement, WhereParam, WhereValue,
};

fn word(name: &str) -> MetaItem {
    MetaItem { name: name.to_string(), args: MetaArgs::Bare }
}

fn list(name: &str, items: Vec<MetaItem>) -> MetaItem {
    MetaItem { name: name.to_string(), args: MetaArgs::List(items) }
}

fn text(name: &str, value: &str) -> MetaItem {
    MetaItem { name: name.to_string(), args: MetaArgs::Text(value.to_string()) }
}

fn filters(ops: &[&str]) -> MetaItem {
    list("where", ops.iter().map(|op| word(op)).collect())
}

fn field(ident: &str, ty: &str, attrs: Vec<MetaItem>) -> FieldDecl {
    FieldDecl { ident: ident.to_string(), ty: ty.to_string(), attrs }
}

/// An entity with an integer `id` that permits `eq`, `in` and `not_in`
/// everywhere, and a string `name` that permits `eq` and `like` in a select
/// and `eq` and assignment in an update.
fn item() -> EntityDecl {
    EntityDecl {
        attrs: vec![list("sea_orm", vec![text("table_name", "item")])],
        body: DeclBody::Struct(FieldsDecl::Named(vec![
            field(
                "id",
                "i64",
                vec![list(
                    "sea_builder",
                    vec![
                        list("select", vec![filters(&["eq", "in", "not_in"])]),
                        list("update", vec![filters(&["eq", "in", "not_in"])]),
                        list("delete", vec![filters(&["eq", "in", "not_in"])]),
                    ],
                )],
            ),
            field(
                "name",
                "String",
                vec![list(
                    "sea_builder",
                    vec![
                        list("select", vec![filters(&["eq", "like"])]),
                        list("update", vec![filters(&["eq"]), word("set")]),
                    ],
                )],
            ),
        ])),
    }
}

/// An entity whose fields permit a bit of everything.
fn account() -> EntityDecl {
    EntityDecl {
        attrs: vec![list("sea_orm", vec![text("table_name", "user_account")])],
        body: DeclBody::Struct(FieldsDecl::Named(vec![
            field(
                "id",
                "u64",
                vec![list(
                    "sea_builder",
                    vec![
                        list("select", vec![filters(&["eq", "in", "between"])]),
                        list("update", vec![filters(&["eq"])]),
                        list("delete", vec![filters(&["eq", "in"])]),
                    ],
                )],
            ),
            field(
                "first_name",
                "String",
                vec![list(
                    "sea_builder",
                    vec![
                        list("select", vec![filters(&["eq", "ne", "like", "ilike"])]),
                        list("update", vec![word("set")]),
                    ],
                )],
            ),
            field(
                "age",
                "i32",
                vec![list(
                    "sea_builder",
                    vec![
                        list("select", vec![filters(&["lt", "lte", "gt", "gte", "between"])]),
                        list("update", vec![word("set"), filters(&["between"])]),
                    ],
                )],
            ),
            field(
                "active",
                "bool",
                vec![list(
                    "sea_builder",
                    vec![
                        list("select", vec![filters(&["eq"])]),
                        list("update", vec![word("set")]),
                    ],
                )],
            ),
            field(
                "score",
                "f64",
                vec![list("sea_builder", vec![list("select", vec![filters(&["gt"])])])],
            ),
        ])),
    }
}

fn shape(decl: &EntityDecl, mode: Mode) -> BuilderShape {
    expand(decl, mode).unwrap()
}

fn select(decl: &EntityDecl) -> Builder {
    Builder::new(shape(decl, Mode::Select))
}

fn update(decl: &EntityDecl) -> Builder {
    Builder::new(shape(decl, Mode::Update))
}

fn delete(decl: &EntityDecl) -> Builder {
    Builder::new(shape(decl, Mode::Delete))
}

fn refused(out: Result<Builder, CallError>) -> CallError {
    match out {
        Ok(_) => panic!("the call was accepted"),
        Err(e) => e,
    }
}

fn signed(i: i64) -> FieldValue {
    FieldValue::I64(i)
}

fn small(i: i32) -> FieldValue {
    FieldValue::I32(i)
}

fn scalar(v: FieldValue) -> SlotValue {
    SlotValue::Scalar(v)
}

fn single(s: &str) -> WhereValue {
    WhereValue::Single(s.to_string())
}

fn record(field: &str, op: OpKind, value: WhereValue) -> WhereParam {
    WhereParam { field: field.to_string(), op, value }
}

#[test]
fn select_snapshot_of_id_and_name() {
    let (_, params) = select(&item())
        .scalar("id", OpKind::Eq, 1i64)
        .unwrap()
        .scalar("name", OpKind::Like, "abc")
        .unwrap()
        .build_with_params()
        .unwrap();
    assert!(params.is_set("id", OpKind::Eq));
    assert_eq!(params.get("id", OpKind::Eq), Some(&scalar(signed(1))));
    assert!(params.is_set("name", OpKind::Like));
    assert_eq!(
        params.get("name", OpKind::Like),
        Some(&scalar(FieldValue::Text("abc".to_string())))
    );
    assert_eq!(params.where_params().len(), 2);
    assert!(!params.is_set("id", OpKind::In));
    assert!(!params.is_set("name", OpKind::Eq));
    assert_eq!(params.get("id", OpKind::NotIn), None);
}

#[test]
fn update_without_where_is_no_where() {
    let out = update(&item()).set("name", "x").unwrap().build();
    assert_eq!(out, Err(SeaOrmBuilderError::NoWhere));
}

#[test]
fn update_without_set_is_no_set() {
    let out = update(&item()).scalar("id", OpKind::Eq, 1i64).unwrap().build();
    assert_eq!(out, Err(SeaOrmBuilderError::NoSet));
}

#[test]
fn update_with_nothing_is_no_set_first() {
    assert_eq!(update(&item()).build(), Err(SeaOrmBuilderError::NoSet));
    assert!(matches!(update(&item()).build_with_params(), Err(SeaOrmBuilderError::NoSet)));
}

#[test]
fn update_with_set_and_where_succeeds() {
    let b = update(&item())
        .scalar("id", OpKind::Eq, 7i64)
        .unwrap()
        .set("name", "x")
        .unwrap();
    assert_eq!(b.set_count(), 1);
    assert!(b.has_where());
    let statement = b.build().unwrap();
    assert_eq!(statement.kind, Mode::Update);
    assert_eq!(
        statement.clauses,
        vec![
            Clause::Filter { column: "Id".to_string(), op: OpKind::Eq, operand: scalar(signed(7)) },
            Clause::Assign { column: "Name".to_string(), value: FieldValue::Text("x".to_string()) },
        ]
    );
}

#[test]
fn update_with_params_fails_like_build() {
    let no_where = update(&item()).set("name", "x").unwrap().build_with_params();
    assert!(matches!(no_where, Err(SeaOrmBuilderError::NoWhere)));
    let no_set = update(&item()).scalar("id", OpKind::Eq, 1i64).unwrap().build_with_params();
    assert!(matches!(no_set, Err(SeaOrmBuilderError::NoSet)));
}

#[test]
fn delete_needs_a_where() {
    assert_eq!(delete(&item()).build(), Err(SeaOrmBuilderError::NoWhere));
    assert!(matches!(delete(&item()).build_with_params(), Err(SeaOrmBuilderError::NoWhere)));
    let ok = delete(&item()).scalar("id", OpKind::Eq, 3i64).unwrap().build();
    assert_eq!(
        ok,
        Ok(Statement {
            kind: Mode::Delete,
            clauses: vec![Clause::Filter {
                column: "Id".to_string(),
                op: OpKind::Eq,
                operand: scalar(signed(3)),
            }],
        })
    );
}

#[test]
fn select_never_fails() {
    let empty = select(&item()).build();
    assert_eq!(empty, Ok(Statement { kind: Mode::Select, clauses: vec![] }));
    let (statement, params) = select(&item()).build_with_params().unwrap();
    assert_eq!(statement, Statement { kind: Mode::Select, clauses: vec![] });
    assert!(params.where_params().is_empty());
    assert!(!params.is_set("id", OpKind::Eq));
    assert!(select(&item()).scalar("id", OpKind::Eq, 1i64).unwrap().build().is_ok());
}

#[test]
fn last_write_wins() {
    let b = select(&item())
        .scalar("id", OpKind::Eq, 1i64)
        .unwrap()
        .scalar("id", OpKind::Eq, 2i64)
        .unwrap();
    assert!(b.is_set("id", OpKind::Eq));
    assert_eq!(b.get("id", OpKind::Eq), Some(&scalar(signed(2))));
    let b = b.list("id", OpKind::In, vec![1i64, 2]).unwrap().list("id", OpKind::In, vec![3i64]).unwrap();
    assert_eq!(b.get("id", OpKind::In), Some(&SlotValue::List(vec![signed(3)])));
    assert_eq!(b.get("id", OpKind::Eq), Some(&scalar(signed(2))));
}

#[test]
fn every_filter_call_appends_a_record() {
    let b = select(&item())
        .scalar("id", OpKind::Eq, 1i64)
        .unwrap()
        .scalar("name", OpKind::Like, "a%")
        .unwrap()
        .scalar("id", OpKind::Eq, 2i64)
        .unwrap()
        .scalar("id", OpKind::Eq, 2i64)
        .unwrap();
    assert_eq!(
        b.where_params(),
        &vec![
            record("id", OpKind::Eq, single("1")),
            record("name", OpKind::Like, single("\"a%\"")),
            record("id", OpKind::Eq, single("2")),
            record("id", OpKind::Eq, single("2")),
        ]
    );
    let (statement, params) = b.build_with_params().unwrap();
    assert_eq!(params.where_params().len(), 4);
    assert_eq!(statement.clauses.len(), 4);
    assert_eq!(params.get("id", OpKind::Eq), Some(&scalar(signed(2))));
}

#[test]
fn between_keeps_the_order_of_its_arguments() {
    let b = select(&account()).between("age", 99, 1).unwrap();
    assert!(b.is_set("age", OpKind::Between));
    assert_eq!(b.get("age", OpKind::Between), Some(&SlotValue::Pair(small(99), small(1))));
    assert_eq!(
        b.where_params(),
        &vec![record(
            "age",
            OpKind::Between,
            WhereValue::Range { start: "99".to_string(), end: "1".to_string() }
        )]
    );
    let statement = b.build().unwrap();
    assert_eq!(
        statement.clauses,
        vec![Clause::Filter {
            column: "Age".to_string(),
            op: OpKind::Between,
            operand: SlotValue::Pair(small(99), small(1)),
        }]
    );
}

#[test]
fn values_are_rendered_as_debug_text() {
    let b = select(&account())
        .scalar("id", OpKind::Eq, 18446744073709551615u64)
        .unwrap()
        .scalar("age", OpKind::Gt, -5)
        .unwrap()
        .scalar("active", OpKind::Eq, true)
        .unwrap()
        .scalar("first_name", OpKind::Ne, "say \"hi\"\n")
        .unwrap()
        .list("id", OpKind::In, vec![2u64, 3u64])
        .unwrap()
        .scalar("active", OpKind::Eq, false)
        .unwrap();
    let texts: Vec<WhereValue> = b.where_params().iter().map(|r| r.value.clone()).collect();
    assert_eq!(
        texts,
        vec![
            single("18446744073709551615"),
            single("-5"),
            single("true"),
            single("\"say \\\"hi\\\"\\n\""),
            WhereValue::List(vec!["2".to_string(), "3".to_string()]),
            single("false"),
        ]
    );
    assert_eq!(texts[0], single(&format!("{:?}", u64::MAX)));
    assert_eq!(texts[1], single(&format!("{:?}", -5i64)));
    assert_eq!(texts[2], single(&format!("{:?}", true)));
    assert_eq!(texts[3], single(&format!("{:?}", "say \"hi\"\n")));
}

#[test]
fn slot_values_render_by_shape() {
    assert_eq!(scalar(signed(i64::MIN)).render(), single("-9223372036854775808"));
    assert_eq!(
        SlotValue::List(vec![FieldValue::Text("a".to_string()), FieldValue::Bool(true)]).render(),
        WhereValue::List(vec!["\"a\"".to_string(), "true".to_string()])
    );
    assert_eq!(SlotValue::List(vec![]).render(), WhereValue::List(vec![]));
    assert_eq!(
        SlotValue::Pair(FieldValue::U64(0), FieldValue::Text("".to_string())).render(),
        WhereValue::Range { start: "0".to_string(), end: "\"\"".to_string() }
    );
    assert_eq!(FieldValue::Text("é".to_string()).render(), "\"é\"");
    assert_eq!(FieldValue::Text("tab\t".to_string()).render(), "\"tab\\t\"");
}

#[test]
fn a_record_can_hold_a_text_of_the_callers_choice() {
    let b = select(&item())
        .filter_recorded("id", OpKind::Eq, scalar(signed(5)), single("five"))
        .unwrap();
    assert_eq!(b.where_params(), &vec![record("id", OpKind::Eq, single("five"))]);
    assert_eq!(b.get("id", OpKind::Eq), Some(&scalar(signed(5))));
    assert!(b.has_where());
}

#[test]
fn filter_takes_a_slot_value() {
    let b = select(&item()).filter("id", OpKind::NotIn, SlotValue::List(vec![signed(4), signed(5)])).unwrap();
    assert_eq!(b.get("id", OpKind::NotIn), Some(&SlotValue::List(vec![signed(4), signed(5)])));
    assert_eq!(
        b.where_params(),
        &vec![record(
            "id",
            OpKind::NotIn,
            WhereValue::List(vec!["4".to_string(), "5".to_string()])
        )]
    );
}

#[test]
fn an_empty_list_is_a_filter() {
    let b = delete(&item()).list("id", OpKind::In, Vec::<i64>::new()).unwrap();
    assert!(b.has_where());
    assert!(b.is_set("id", OpKind::In));
    assert_eq!(b.get("id", OpKind::In), Some(&SlotValue::List(vec![])));
    assert_eq!(b.where_params(), &vec![record("id", OpKind::In, WhereValue::List(vec![]))]);
    assert!(b.build().is_ok());
}

#[test]
fn a_fresh_builder_is_empty() {
    let b = update(&item());
    assert!(!b.has_where());
    assert_eq!(b.set_count(), 0);
    assert!(b.where_params().is_empty());
    assert_eq!(b.statement(), &Statement { kind: Mode::Update, clauses: vec![] });
    for op in [OpKind::Eq, OpKind::In, OpKind::NotIn, OpKind::Like, OpKind::Between] {
        assert!(!b.is_set("id", op));
        assert_eq!(b.get("id", op), None);
        assert!(!b.is_set("name", op));
        assert!(!b.is_set("nothing", op));
    }
    assert_eq!(b.shape().name, "ItemUpdate");
}

#[test]
fn operations_that_are_not_declared_are_not_permitted() {
    // `like` is allowed on `name` in a select, not in an update or a delete.
    assert!(select(&item()).scalar("name", OpKind::Like, "a").is_ok());
    assert_eq!(refused(update(&item()).scalar("name", OpKind::Like, "a")), CallError::NotPermitted);
    assert_eq!(refused(delete(&item()).scalar("name", OpKind::Like, "a")), CallError::NotPermitted);
    assert_eq!(refused(delete(&item()).scalar("name", OpKind::Eq, "a")), CallError::NotPermitted);
    // `gt` is allowed on no field.
    assert_eq!(refused(select(&item()).scalar("id", OpKind::Gt, 1i64)), CallError::NotPermitted);
    assert_eq!(refused(select(&item()).between("id", 1i64, 2i64)), CallError::NotPermitted);
    // No such field.
    assert_eq!(refused(select(&item()).scalar("ID", OpKind::Eq, 1i64)), CallError::NotPermitted);
    assert_eq!(refused(select(&item()).scalar("", OpKind::Eq, 1i64)), CallError::NotPermitted);
}

#[test]
fn assignments_that_are_not_declared_are_not_permitted() {
    assert_eq!(refused(update(&item()).set("id", 1i64)), CallError::NotPermitted);
    assert_eq!(refused(update(&item()).set("missing", 1i64)), CallError::NotPermitted);
    assert_eq!(refused(select(&item()).set("name", "x")), CallError::NotPermitted);
    assert_eq!(refused(delete(&item()).set("name", "x")), CallError::NotPermitted);
}

#[test]
fn a_value_of_another_shape_is_refused() {
    assert_eq!(
        refused(select(&item()).list("id", OpKind::Eq, vec![1i64])),
        CallError::ShapeMismatch
    );
    assert_eq!(refused(select(&item()).scalar("id", OpKind::In, 1i64)), CallError::ShapeMismatch);
    assert_eq!(
        refused(select(&account()).filter("age", OpKind::Between, scalar(signed(1)))),
        CallError::ShapeMismatch
    );
    assert_eq!(
        refused(select(&account()).filter("age", OpKind::Lt, SlotValue::Pair(signed(1), signed(2)))),
        CallError::ShapeMismatch
    );
}

#[test]
fn a_value_of_another_type_is_refused() {
    assert_eq!(refused(select(&item()).scalar("id", OpKind::Eq, "1")), CallError::TypeMismatch);
    assert_eq!(refused(select(&item()).scalar("id", OpKind::Eq, 1u64)), CallError::TypeMismatch);
    assert_eq!(refused(select(&item()).scalar("name", OpKind::Eq, 1i64)), CallError::TypeMismatch);
    assert_eq!(
        refused(select(&account()).scalar("age", OpKind::Lt, 5i64)),
        CallError::TypeMismatch
    );
    assert_eq!(refused(select(&account()).scalar("age", OpKind::Lt, 5u8)), CallError::TypeMismatch);
    assert!(select(&account()).scalar("age", OpKind::Lt, 2147483647i32).is_ok());
    assert_eq!(refused(select(&account()).scalar("id", OpKind::Eq, 1u8)), CallError::TypeMismatch);
    assert_eq!(refused(select(&account()).scalar("id", OpKind::Eq, 1u32)), CallError::TypeMismatch);
    assert_eq!(
        refused(select(&account()).list("id", OpKind::In, vec![FieldValue::U64(1), signed(2)])),
        CallError::TypeMismatch
    );
    assert_eq!(
        refused(select(&account()).between("age", 1, "2")),
        CallError::TypeMismatch
    );
    assert_eq!(refused(update(&account()).set("active", 1)), CallError::TypeMismatch);
    assert_eq!(refused(update(&account()).set("age", i64::MAX)), CallError::TypeMismatch);
    assert_eq!(refused(select(&account()).scalar("score", OpKind::Gt, 1)), CallError::TypeMismatch);
    // A value that is carried as text is of no type whose values are held as they are.
    let disguised = FieldValue::Other { ty: "u64".to_string(), text: "1".to_string() };
    assert_eq!(
        refused(select(&account()).scalar("id", OpKind::Eq, disguised)),
        CallError::TypeMismatch
    );
}

#[test]
fn a_field_of_any_type_holds_the_values_of_its_type() {
    let half = FieldValue::Other { ty: "f64".to_string(), text: format!("{:?}", 0.5f64) };
    let b = select(&account()).scalar("score", OpKind::Gt, half.clone()).unwrap();
    assert!(b.is_set("score", OpKind::Gt));
    assert_eq!(b.get("score", OpKind::Gt), Some(&scalar(half.clone())));
    assert_eq!(b.where_params(), &vec![record("score", OpKind::Gt, single("0.5"))]);
    let statement = b.build().unwrap();
    assert_eq!(
        statement.clauses,
        vec![Clause::Filter { column: "Score".to_string(), op: OpKind::Gt, operand: scalar(half) }]
    );
    let other = FieldValue::Other { ty: "f32".to_string(), text: "0.5".to_string() };
    assert_eq!(
        refused(select(&account()).scalar("score", OpKind::Gt, other)),
        CallError::TypeMismatch
    );
}

#[test]
fn optional_and_pointer_sized_fields_take_filters_and_assignments() {
    let decl = EntityDecl {
        attrs: vec![],
        body: DeclBody::Struct(FieldsDecl::Named(vec![
            field(
                "note",
                "Option<String>",
                vec![list(
                    "sea_builder",
                    vec![list("update", vec![filters(&["eq", "in"]), word("set")])],
                )],
            ),
            field(
                "rank",
                "usize",
                vec![list(
                    "sea_builder",
                    vec![list("update", vec![filters(&["between"]), word("set")])],
                )],
            ),
            field(
                "delta",
                "isize",
                vec![list("sea_builder", vec![list("update", vec![filters(&["lt"])])])],
            ),
        ])),
    };
    let note = |v: Option<&str>| FieldValue::Other {
        ty: "Option<String>".to_string(),
        text: format!("{:?}", v),
    };
    let b = update(&decl)
        .scalar("note", OpKind::Eq, note(None))
        .unwrap()
        .list("note", OpKind::In, vec![note(Some("a")), note(None)])
        .unwrap()
        .set("note", note(Some("b")))
        .unwrap()
        .between("rank", 1usize, 9usize)
        .unwrap()
        .set("rank", 3usize)
        .unwrap()
        .scalar("delta", OpKind::Lt, -4isize)
        .unwrap();
    assert_eq!(b.get("note", OpKind::Eq), Some(&scalar(note(None))));
    assert_eq!(
        b.get("rank", OpKind::Between),
        Some(&SlotValue::Pair(FieldValue::Usize(1), FieldValue::Usize(9)))
    );
    assert_eq!(b.get("delta", OpKind::Lt), Some(&scalar(FieldValue::Isize(-4))));
    let texts: Vec<WhereValue> = b.where_params().iter().map(|r| r.value.clone()).collect();
    assert_eq!(
        texts,
        vec![
            single("None"),
            WhereValue::List(vec!["Some(\"a\")".to_string(), "None".to_string()]),
            WhereValue::Range { start: "1".to_string(), end: "9".to_string() },
            single("-4"),
        ]
    );
    assert_eq!(b.set_count(), 2);
    assert!(b.build().is_ok());
    assert_eq!(refused(update(&decl).set("rank", 3u64)), CallError::TypeMismatch);
    assert_eq!(refused(update(&decl).set("note", "b")), CallError::TypeMismatch);
}

#[test]
fn an_assignment_takes_a_field_value() {
    let b = update(&item()).assign("name", FieldValue::Text("x".to_string())).unwrap();
    assert_eq!(b.set_count(), 1);
    assert_eq!(
        b.statement().clauses,
        vec![Clause::Assign { column: "Name".to_string(), value: FieldValue::Text("x".to_string()) }]
    );
    assert_eq!(refused(update(&item()).assign("name", signed(1))), CallError::TypeMismatch);
    assert_eq!(refused(update(&item()).assign("id", signed(1))), CallError::NotPermitted);
}

#[test]
fn refusals_are_checked_in_order() {
    // Not permitted comes before the shape, the shape before the type.
    assert_eq!(
        refused(delete(&item()).list("name", OpKind::Like, vec![1i64])),
        CallError::NotPermitted
    );
    assert_eq!(refused(select(&item()).list("id", OpKind::Eq, vec!["x"])), CallError::ShapeMismatch);
}

#[test]
fn ordering_and_bounds_are_handed_on_in_call_order() {
    let statement = select(&item())
        .order_by_asc("Id")
        .unwrap()
        .limit(10)
        .unwrap()
        .scalar("id", OpKind::Eq, 1i64)
        .unwrap()
        .order_by_desc("Name")
        .unwrap()
        .offset(5)
        .unwrap()
        .limit(20)
        .unwrap()
        .build()
        .unwrap();
    assert_eq!(
        statement.clauses,
        vec![
            Clause::OrderBy { column: "Id".to_string(), direction: Direction::Asc },
            Clause::Limit(10),
            Clause::Filter { column: "Id".to_string(), op: OpKind::Eq, operand: scalar(signed(1)) },
            Clause::OrderBy { column: "Name".to_string(), direction: Direction::Desc },
            Clause::Offset(5),
            Clause::Limit(20),
        ]
    );
}

#[test]
fn ordering_and_bounds_leave_the_filter_state_alone() {
    let b = select(&item()).order_by_asc("Id").unwrap().limit(1).unwrap().offset(2).unwrap();
    assert!(!b.has_where());
    assert!(b.where_params().is_empty());
    assert_eq!(b.set_count(), 0);
    assert!(!b.is_set("id", OpKind::Eq));
}

#[test]
fn only_a_select_takes_ordering_and_bounds() {
    assert_eq!(refused(update(&item()).order_by_asc("Id")), CallError::NotPermitted);
    assert_eq!(refused(update(&item()).order_by_desc("Id")), CallError::NotPermitted);
    assert_eq!(refused(update(&item()).limit(1)), CallError::NotPermitted);
    assert_eq!(refused(delete(&item()).offset(1)), CallError::NotPermitted);
    assert_eq!(refused(delete(&item()).limit(1)), CallError::NotPermitted);
}

#[test]
fn assignments_are_counted_and_make_no_record() {
    let b = update(&account())
        .set("first_name", "a")
        .unwrap()
        .set("age", 30)
        .unwrap()
        .set("first_name", "b")
        .unwrap()
        .set("active", false)
        .unwrap();
    assert_eq!(b.set_count(), 4);
    assert!(!b.has_where());
    assert!(b.where_params().is_empty());
    assert_eq!(
        b.statement().clauses,
        vec![
            Clause::Assign { column: "FirstName".to_string(), value: FieldValue::Text("a".to_string()) },
            Clause::Assign { column: "Age".to_string(), value: small(30) },
            Clause::Assign { column: "FirstName".to_string(), value: FieldValue::Text("b".to_string()) },
            Clause::Assign { column: "Active".to_string(), value: FieldValue::Bool(false) },
        ]
    );
    assert_eq!(b.build(), Err(SeaOrmBuilderError::NoWhere));
}

#[test]
fn columns_are_named_in_upper_camel_case() {
    let statement = select(&account())
        .scalar("first_name", OpKind::Ilike, "a%")
        .unwrap()
        .build()
        .unwrap();
    assert_eq!(
        statement.clauses,
        vec![Clause::Filter {
            column: "FirstName".to_string(),
            op: OpKind::Ilike,
            operand: scalar(FieldValue::Text("a%".to_string())),
        }]
    );
}

#[test]
fn builder_and_snapshot_read_the_same_slots() {
    let b = update(&account())
        .set("age", 3)
        .unwrap()
        .between("age", 1, 9)
        .unwrap()
        .scalar("id", OpKind::Eq, 4u64)
        .unwrap();
    let before: Vec<(bool, Option<SlotValue>)> = [("age", OpKind::Between), ("id", OpKind::Eq), ("id", OpKind::In)]
        .iter()
        .map(|(f, op)| (b.is_set(f, *op), b.get(f, *op).cloned()))
        .collect();
    let records = b.where_params().clone();
    let (_, params) = b.build_with_params().unwrap();
    let after: Vec<(bool, Option<SlotValue>)> = [("age", OpKind::Between), ("id", OpKind::Eq), ("id", OpKind::In)]
        .iter()
        .map(|(f, op)| (params.is_set(f, *op), params.get(f, *op).cloned()))
        .collect();
    assert_eq!(before, after);
    assert_eq!(
        after,
        vec![
            (true, Some(SlotValue::Pair(small(1), small(9)))),
            (true, Some(scalar(FieldValue::U64(4)))),
            (false, None),
        ]
    );
    assert_eq!(params.where_params(), &records);
}

#[test]
fn builder_error_messages() {
    assert_eq!(SeaOrmBuilderError::NoWhere.message(), "no WHERE added");
    assert_eq!(SeaOrmBuilderError::NoSet.message(), "no SET added");
}

#[test]
fn a_finished_update_or_delete_is_constrained() {
    let updated = update(&account())
        .set("age", 3)
        .unwrap()
        .scalar("id", OpKind::Eq, 4u64)
        .unwrap()
        .build()
        .unwrap();
    assert!(updated.clauses.iter().any(|c| matches!(c, Clause::Filter { .. })));
    assert!(updated.clauses.iter().any(|c| matches!(c, Clause::Assign { .. })));
    let deleted = delete(&account()).list("id", OpKind::In, vec![1u64]).unwrap().build().unwrap();
    assert!(deleted.clauses.iter().any(|c| matches!(c, Clause::Filter { .. })));
    assert_eq!(deleted.clauses.len(), 1);
}

#[test]
fn a_refused_call_is_reported_with_its_reason() {
    let err = select(&item()).scalar("id", OpKind::Gt, 1i64).unwrap_err();
    assert_eq!(err, CallError::NotPermitted);
    let err = update(&item()).set("name", 1i64).unwrap_err();
    assert_eq!(err, CallError::TypeMismatch);
}
