use std::str::FromStr;

use proc_macro2::{TokenStream, TokenTree};
use sea_orm_builder::render::{
    checks, predicate, render_accessors, render_method, render_part, render_parts, render_sets,
    slot_type,
};
use sea_orm_builder::{
    expand, gen_set_method, gen_where_pieces, render_builder, BuilderShape, DeclBody, EntityDecl,
    FieldDecl, FieldsDecl, MetaArgs, MetaItem, Mode, OpKind, Part, ValueShape,
};

fn word(name: &str) -> MetaItem {
    MetaItem { name: name.to_string(), args: MetaArgs::Bare }
}

fn list(name: &str, items: Vec<MetaItem>) -> MetaItem {
    MetaItem { name: name.to_string(), args: MetaArgs::List(items) }
}

fn text(name: &str, value: &str) -> MetaItem {
    MetaItem { name: name.to_string(), args: MetaArgs::Text(value.to_string()) }
}

fn filters(ops: &[&str]) -> MetaItem {
    list("where", ops.iter().map(|op| word(op)).collect())
}

fn field(ident: &str, ty: &str, attrs: Vec<MetaItem>) -> FieldDecl {
    FieldDecl { ident: ident.to_string(), ty: ty.to_string(), attrs }
}

fn foo_bar() -> EntityDecl {
    EntityDecl {
        attrs: vec![list("sea_orm", vec![text("table_name", "foo_bar")])],
        body: DeclBody::Struct(FieldsDecl::Named(vec![
            field(
                "id",
                "u64",
                vec![list(
                    "sea_builder",
                    vec![
                        list("select", vec![filters(&["eq", "in", "not_in"])]),
                        list("update", vec![filters(&["eq", "in", "not_in"])]),
                        list("delete", vec![filters(&["eq", "in", "not_in"])]),
                    ],
                )],
            ),
            field(
                "name",
                "String",
                vec![list(
                    "sea_builder",
                    vec![
                        list("select", vec![filters(&["eq", "like", "ilike"])]),
                        list("update", vec![filters(&["eq"]), word("set")]),
                    ],
                )],
            ),
            field(
                "age",
                "i32",
                vec![list(
                    "sea_builder",
                    vec![
                        list("delete", vec![filters(&["gte", "lt"])]),
                        list("update", vec![filters(&["between"]), word("set")]),
                    ],
                )],
            ),
        ])),
    }
}

fn shape(mode: Mode) -> BuilderShape {
    expand(&foo_bar(), mode).unwrap()
}

/// The names of the functions that a source declares, in order.
fn functions(source: &str) -> Vec<String> {
    fn walk(tokens: TokenStream, found: &mut Vec<String>) {
        let mut after_fn = false;
        for tree in tokens {
            match tree {
                TokenTree::Ident(ident) => {
                    if after_fn {
                        found.push(ident.to_string());
                    }
                    after_fn = ident == "fn";
                }
                TokenTree::Group(group) => {
                    after_fn = false;
                    walk(group.stream(), found);
                }
                _ => after_fn = false,
            }
        }
    }
    let mut found = Vec::new();
    walk(TokenStream::from_str(source).expect("a token stream"), &mut found);
    found
}

/// The fields of a struct, as names and types without blanks.
fn fields(item: &str) -> Vec<(String, String)> {
    let parsed: syn::DeriveInput = syn::parse_str(item).expect("a struct");
    match parsed.data {
        syn::Data::Struct(data) => data
            .fields
            .iter()
            .map(|f| {
                let ty = &f.ty;
                (
                    f.ident.as_ref().expect("a named field").to_string(),
                    quote::ToTokens::to_token_stream(ty).to_string().replace(' ', ""),
                )
            })
            .collect(),
        _ => panic!("not a struct"),
    }
}

fn pairs(list: &[(&str, &str)]) -> Vec<(String, String)> {
    list.iter().map(|(a, b)| (a.to_string(), b.to_string())).collect()
}

#[test]
fn slot_types_by_shape() {
    assert_eq!(slot_type("u64", ValueShape::Scalar), "::std::option::Option<u64>");
    assert_eq!(
        slot_type("String", ValueShape::List),
        "::std::option::Option<::std::vec::Vec<String>>"
    );
    assert_eq!(slot_type("i32", ValueShape::Pair), "::std::option::Option<(i32, i32)>");
}

#[test]
fn predicates_by_operation() {
    assert_eq!(predicate(OpKind::Eq, "Id"), "::sea_orm::ColumnTrait::eq(&Column::Id, vv)");
    assert_eq!(predicate(OpKind::Ne, "Id"), "::sea_orm::ColumnTrait::ne(&Column::Id, vv)");
    assert_eq!(predicate(OpKind::Lt, "Id"), "::sea_orm::ColumnTrait::lt(&Column::Id, vv)");
    assert_eq!(predicate(OpKind::Lte, "Id"), "::sea_orm::ColumnTrait::lte(&Column::Id, vv)");
    assert_eq!(predicate(OpKind::Gt, "Id"), "::sea_orm::ColumnTrait::gt(&Column::Id, vv)");
    assert_eq!(predicate(OpKind::Gte, "Id"), "::sea_orm::ColumnTrait::gte(&Column::Id, vv)");
    assert_eq!(predicate(OpKind::Like, "Name"), "::sea_orm::ColumnTrait::like(&Column::Name, vv)");
    assert_eq!(predicate(OpKind::In, "Id"), "::sea_orm::ColumnTrait::is_in(&Column::Id, vv)");
    assert_eq!(
        predicate(OpKind::NotIn, "Id"),
        "::sea_orm::ColumnTrait::is_not_in(&Column::Id, vv)"
    );
    assert_eq!(
        predicate(OpKind::Between, "Age"),
        "::sea_orm::ColumnTrait::between(&Column::Age, a, b)"
    );
    assert_eq!(
        predicate(OpKind::Ilike, "Name"),
        "::sea_orm::sea_query::extension::postgres::PgExpr::ilike(::sea_orm::sea_query::Expr::col(\
         ::sea_orm::ColumnTrait::as_column_ref(&Column::Name)), vv)"
    );
}

#[test]
fn terminal_checks_by_kind() {
    assert_eq!(checks(Mode::Select), "");
    let delete = checks(Mode::Delete);
    assert_eq!(
        delete,
        "        if !self.has_where {\n            return ::std::result::Result::Err(\
         ::sea_orm_builder::SeaOrmBuilderError::NoWhere);\n        }\n"
    );
    let update = checks(Mode::Update);
    assert!(update.ends_with(delete.as_str()));
    let no_set = update.find("SeaOrmBuilderError::NoSet").expect("a check for an assignment");
    let no_where = update.find("SeaOrmBuilderError::NoWhere").expect("a check for a filter");
    assert!(no_set < no_where);
    assert!(update.starts_with("        if self.set_count == 0 {\n"));
}

#[test]
fn slot_lines() {
    let p = gen_where_pieces("id", "u64", "not_in").unwrap();
    assert_eq!(
        render_part(Part::Storage, &p),
        "    id_not_in_val: ::std::option::Option<::std::vec::Vec<u64>>,\n"
    );
    assert_eq!(
        render_part(Part::Init, &p),
        "            id_not_in_val: ::std::option::Option::None,\n"
    );
    assert_eq!(render_part(Part::Move, &p), "            id_not_in_val: self.id_not_in_val,\n");
    assert_eq!(render_part(Part::Method, &p), render_method(&p));
    assert_eq!(render_part(Part::Accessors, &p), render_accessors(&p.accessors));
}

#[test]
fn source_of_a_scalar_method() {
    let p = gen_where_pieces("name", "String", "like").unwrap();
    let expected = "    pub fn name_like<V: ::sea_orm_builder::IntoField<String>>(mut self, v: V) -> Self
    where
        String: ::std::clone::Clone + ::std::fmt::Debug,
    {
        let vv: String = v.into_field();
        self.name_like_val = ::std::option::Option::Some(vv.clone());
        self.where_params.push(::sea_orm_builder::WhereParam {
            field: ::std::string::String::from(\"name\"),
            op: ::sea_orm_builder::OpKind::Like,
            value: ::sea_orm_builder::WhereValue::Single(::std::format!(\"{:?}\", &vv)),
        });
        self.statement = ::sea_orm::QueryFilter::filter(self.statement, ::sea_orm::ColumnTrait::like(&Column::Name, vv));
        self.has_where = true;
        self
    }
";
    assert_eq!(render_method(&p), expected);
}

#[test]
fn source_of_a_list_method() {
    let p = gen_where_pieces("id", "u64", "in").unwrap();
    let source = render_method(&p);
    assert!(source.starts_with("    pub fn id_in<V, I>(mut self, iter: I) -> Self\n"));
    assert!(source.contains("        V: ::sea_orm_builder::IntoField<u64>,\n"));
    assert!(source.contains("        I: ::std::iter::IntoIterator<Item = V>,\n"));
    assert!(source.contains("        self.id_in_val = ::std::option::Option::Some(vv.clone());\n"));
    assert!(source.contains("            op: ::sea_orm_builder::OpKind::In,\n"));
    assert!(source.contains("            value: ::sea_orm_builder::WhereValue::List(\n"));
    assert!(source.contains("::sea_orm::ColumnTrait::is_in(&Column::Id, vv));\n"));
    assert_eq!(functions(&source), vec!["id_in"]);
}

#[test]
fn source_of_a_range_method() {
    let p = gen_where_pieces("age", "i32", "between").unwrap();
    let source = render_method(&p);
    assert!(source.starts_with("    pub fn age_between<V1, V2>(mut self, a: V1, b: V2) -> Self\n"));
    assert!(source.contains(
        "        self.age_between_val = ::std::option::Option::Some((a.clone(), b.clone()));\n"
    ));
    let start = source.find("start: ::std::format!(\"{:?}\", &a),").expect("a start");
    let end = source.find("end: ::std::format!(\"{:?}\", &b),").expect("an end");
    assert!(start < end);
    assert!(source.contains("::sea_orm::ColumnTrait::between(&Column::Age, a, b));\n"));
}

#[test]
fn source_of_the_accessor_pairs() {
    let scalar = gen_where_pieces("id", "u64", "eq").unwrap().accessors;
    assert_eq!(
        render_accessors(&scalar),
        "    pub fn is_id_eq(&self) -> bool {
        self.id_eq_val.is_some()
    }
    pub fn get_id_eq(&self) -> ::std::option::Option<&u64> {
        self.id_eq_val.as_ref()
    }
"
    );
    let many = gen_where_pieces("id", "u64", "in").unwrap().accessors;
    assert!(render_accessors(&many)
        .contains("    pub fn get_id_in(&self) -> ::std::option::Option<&[u64]> {\n"));
    let range = gen_where_pieces("age", "i32", "between").unwrap().accessors;
    assert!(render_accessors(&range)
        .contains("    pub fn get_age_between(&self) -> ::std::option::Option<(&i32, &i32)> {\n"));
    assert_eq!(functions(&render_accessors(&range)), vec!["is_age_between", "get_age_between"]);
}

#[test]
fn source_of_an_assignment_method() {
    let source = render_sets(&vec![gen_set_method("name", "String")]);
    assert_eq!(
        source,
        "    pub fn set_name<V: ::sea_orm_builder::IntoField<String>>(mut self, v: V) -> Self {
        let v: String = v.into_field();
        self.statement =
            self.statement.col_expr(Column::Name, ::sea_orm::sea_query::Expr::value(v));
        self.set_count += 1;
        self
    }
"
    );
    assert_eq!(render_sets(&vec![]), "");
}

#[test]
fn parts_follow_the_slots() {
    let select = shape(Mode::Select);
    let lines = render_parts(Part::Storage, &select.slots);
    assert_eq!(
        lines,
        "    id_eq_val: ::std::option::Option<u64>,
    id_in_val: ::std::option::Option<::std::vec::Vec<u64>>,
    id_not_in_val: ::std::option::Option<::std::vec::Vec<u64>>,
    name_eq_val: ::std::option::Option<String>,
    name_like_val: ::std::option::Option<String>,
    name_ilike_val: ::std::option::Option<String>,
"
    );
    assert_eq!(render_parts(Part::Method, &vec![]), "");
    let methods = functions(&render_parts(Part::Method, &select.slots));
    assert_eq!(methods, vec!["id_eq", "id_in", "id_not_in", "name_eq", "name_like", "name_ilike"]);
}

#[test]
fn select_source_declares_the_whole_surface() {
    let source = render_builder(&shape(Mode::Select));
    let items: Vec<&str> = source.split("\n\n").collect();
    assert_eq!(items.len(), 4);
    let slots = [
        ("id_eq_val", "::std::option::Option<u64>"),
        ("id_in_val", "::std::option::Option<::std::vec::Vec<u64>>"),
        ("id_not_in_val", "::std::option::Option<::std::vec::Vec<u64>>"),
        ("name_eq_val", "::std::option::Option<String>"),
        ("name_like_val", "::std::option::Option<String>"),
        ("name_ilike_val", "::std::option::Option<String>"),
    ];
    let mut builder = pairs(&[
        ("statement", "::sea_orm::Select<Entity>"),
        ("has_where", "bool"),
        ("where_params", "::std::vec::Vec<::sea_orm_builder::WhereParam>"),
    ]);
    builder.extend(pairs(&slots));
    assert!(items[0].starts_with("pub struct FooBarSelect {\n"));
    assert_eq!(fields(items[0]), builder);
    let mut snapshot = pairs(&[("where_params", "::std::vec::Vec<::sea_orm_builder::WhereParam>")]);
    snapshot.extend(pairs(&slots));
    assert!(items[1].starts_with("pub struct FooBarSelectParams {\n"));
    assert_eq!(fields(items[1]), snapshot);
    assert!(items[2].starts_with("impl FooBarSelectParams {\n"));
    assert_eq!(
        functions(items[2]),
        vec![
            "is_id_eq",
            "get_id_eq",
            "is_id_in",
            "get_id_in",
            "is_id_not_in",
            "get_id_not_in",
            "is_name_eq",
            "get_name_eq",
            "is_name_like",
            "get_name_like",
            "is_name_ilike",
            "get_name_ilike",
            "where_params",
        ]
    );
    assert!(items[3].starts_with("impl FooBarSelect {\n"));
    assert_eq!(
        functions(items[3]),
        vec![
            "new",
            "id_eq",
            "id_in",
            "id_not_in",
            "name_eq",
            "name_like",
            "name_ilike",
            "is_id_eq",
            "get_id_eq",
            "is_id_in",
            "get_id_in",
            "is_id_not_in",
            "get_id_not_in",
            "is_name_eq",
            "get_name_eq",
            "is_name_like",
            "get_name_like",
            "is_name_ilike",
            "get_name_ilike",
            "order_by_asc",
            "order_by_desc",
            "limit",
            "offset",
            "build",
            "build_with_params",
            "where_params",
        ]
    );
    assert!(source.contains("            statement: <Entity as ::sea_orm::EntityTrait>::find(),\n"));
    assert!(source.contains("    pub fn build(self) -> ::sea_orm::Select<Entity> {\n"));
    assert!(!source.contains("set_count"));
    assert!(!source.contains("SeaOrmBuilderError"));
}

#[test]
fn update_source_counts_and_checks() {
    let source = render_builder(&shape(Mode::Update));
    let items: Vec<&str> = source.split("\n\n").collect();
    assert_eq!(items.len(), 4);
    let builder = fields(items[0]);
    assert_eq!(builder[0], ("statement".to_string(), "::sea_orm::UpdateMany<Entity>".to_string()));
    assert_eq!(builder[2], ("set_count".to_string(), "usize".to_string()));
    assert_eq!(builder.last().unwrap().0, "age_between_val");
    assert_eq!(builder.last().unwrap().1, "::std::option::Option<(i32,i32)>");
    assert!(fields(items[1]).iter().all(|(name, _)| name != "set_count"));
    assert_eq!(
        functions(items[3]),
        vec![
            "new",
            "set_name",
            "set_age",
            "id_eq",
            "id_in",
            "id_not_in",
            "name_eq",
            "age_between",
            "is_id_eq",
            "get_id_eq",
            "is_id_in",
            "get_id_in",
            "is_id_not_in",
            "get_id_not_in",
            "is_name_eq",
            "get_name_eq",
            "is_age_between",
            "get_age_between",
            "build",
            "build_with_params",
            "where_params",
        ]
    );
    assert!(source.contains("            set_count: 0,\n"));
    assert!(source.contains(
        "            statement: <Entity as ::sea_orm::EntityTrait>::update_many(),\n"
    ));
    assert_eq!(source.matches("SeaOrmBuilderError::NoSet").count(), 2);
    assert_eq!(source.matches("SeaOrmBuilderError::NoWhere").count(), 2);
    assert!(!source.contains("order_by"));
}

#[test]
fn delete_source_checks_for_a_filter() {
    let source = render_builder(&shape(Mode::Delete));
    assert!(source.starts_with("pub struct FooBarDelete {\n"));
    assert!(source.contains("pub struct FooBarDeleteParams {\n"));
    assert!(source.contains(
        "            statement: <Entity as ::sea_orm::EntityTrait>::delete_many(),\n"
    ));
    assert_eq!(source.matches("SeaOrmBuilderError::NoWhere").count(), 2);
    assert!(!source.contains("SeaOrmBuilderError::NoSet"));
    assert!(!source.contains("set_count"));
    let names = functions(&source);
    assert!(names.contains(&"age_gte".to_string()));
    assert!(names.contains(&"age_lt".to_string()));
    assert!(!names.contains(&"limit".to_string()));
}

#[test]
fn source_of_an_entity_without_permissions() {
    let decl = EntityDecl {
        attrs: vec![],
        body: DeclBody::Struct(FieldsDecl::Named(vec![field("id", "u64", vec![])])),
    };
    let source = render_builder(&expand(&decl, Mode::Delete).unwrap());
    assert_eq!(
        source,
        "pub struct EntityDelete {
    pub statement: ::sea_orm::DeleteMany<Entity>,
    has_where: bool,
    where_params: ::std::vec::Vec<::sea_orm_builder::WhereParam>,
}

pub struct EntityDeleteParams {
    pub where_params: ::std::vec::Vec<::sea_orm_builder::WhereParam>,
}

impl EntityDeleteParams {
    pub fn where_params(&self) -> &[::sea_orm_builder::WhereParam] {
        &self.where_params
    }
}

impl EntityDelete {
    pub fn new() -> Self {
        Self {
            statement: <Entity as ::sea_orm::EntityTrait>::delete_many(),
            has_where: false,
            where_params: ::std::vec::Vec::new(),
        }
    }
    pub fn build(
        self,
    ) -> ::std::result::Result<::sea_orm::DeleteMany<Entity>, ::sea_orm_builder::SeaOrmBuilderError> {
        if !self.has_where {
            return ::std::result::Result::Err(::sea_orm_builder::SeaOrmBuilderError::NoWhere);
        }
        ::std::result::Result::Ok(self.statement)
    }
    pub fn build_with_params(
        self,
    ) -> ::std::result::Result<
        (::sea_orm::DeleteMany<Entity>, EntityDeleteParams),
        ::sea_orm_builder::SeaOrmBuilderError,
    > {
        if !self.has_where {
            return ::std::result::Result::Err(::sea_orm_builder::SeaOrmBuilderError::NoWhere);
        }
        let p = EntityDeleteParams {
            where_params: self.where_params,
        };
        ::std::result::Result::Ok((self.statement, p))
    }
    pub fn where_params(&self) -> &[::sea_orm_builder::WhereParam] {
        &self.where_params
    }
}
"
    );
}
