//! Writing a shape out as source text.
//!
//! A shape says what a builder type has: its name and that of its snapshot,
//! its slots, its fluent methods, its accessors and its assignment methods.
//! Here each is written out as Rust, against the entity `Entity` and its
//! `Column` in scope where the text is used: the struct of the builder, the
//! struct of the snapshot, and their `impl` blocks.

use vstd::prelude::*;
use vstd::string::*;

use crate::mode::Mode;
use crate::ops::{OpKind, ValueShape};
use crate::synth::{
    Accessors, AccessorsView, BuilderShape, BuilderShapeView, SetMethod, SetMethodView,
    WherePieces, WherePiecesView,
};

verus! {

/// The path of an operation in source text.
pub open spec fn op_path_text(op: OpKind) -> Seq<char> {
    match op {
        OpKind::Eq => "::sea_orm_builder::OpKind::Eq"@,
        OpKind::Ne => "::sea_orm_builder::OpKind::Ne"@,
        OpKind::Lt => "::sea_orm_builder::OpKind::Lt"@,
        OpKind::Lte => "::sea_orm_builder::OpKind::Lte"@,
        OpKind::Gt => "::sea_orm_builder::OpKind::Gt"@,
        OpKind::Gte => "::sea_orm_builder::OpKind::Gte"@,
        OpKind::Like => "::sea_orm_builder::OpKind::Like"@,
        OpKind::Ilike => "::sea_orm_builder::OpKind::Ilike"@,
        OpKind::In => "::sea_orm_builder::OpKind::In"@,
        OpKind::NotIn => "::sea_orm_builder::OpKind::NotIn"@,
        OpKind::Between => "::sea_orm_builder::OpKind::Between"@,
    }
}

/// The path of an operation in source text.
pub fn op_path(op: OpKind) -> (out: &'static str)
    ensures
        out@ == op_path_text(op),
{
    match op {
        OpKind::Eq => "::sea_orm_builder::OpKind::Eq",
        OpKind::Ne => "::sea_orm_builder::OpKind::Ne",
        OpKind::Lt => "::sea_orm_builder::OpKind::Lt",
        OpKind::Lte => "::sea_orm_builder::OpKind::Lte",
        OpKind::Gt => "::sea_orm_builder::OpKind::Gt",
        OpKind::Gte => "::sea_orm_builder::OpKind::Gte",
        OpKind::Like => "::sea_orm_builder::OpKind::Like",
        OpKind::Ilike => "::sea_orm_builder::OpKind::Ilike",
        OpKind::In => "::sea_orm_builder::OpKind::In",
        OpKind::NotIn => "::sea_orm_builder::OpKind::NotIn",
        OpKind::Between => "::sea_orm_builder::OpKind::Between",
    }
}

/// The method of a column that makes the predicate of an operation.
pub open spec fn column_call_text(op: OpKind) -> Seq<char> {
    match op {
        OpKind::Eq => "eq"@,
        OpKind::Ne => "ne"@,
        OpKind::Lt => "lt"@,
        OpKind::Lte => "lte"@,
        OpKind::Gt => "gt"@,
        OpKind::Gte => "gte"@,
        OpKind::Like => "like"@,
        OpKind::Ilike => "ilike"@,
        OpKind::In => "is_in"@,
        OpKind::NotIn => "is_not_in"@,
        OpKind::Between => "between"@,
    }
}

/// The method of a column that makes the predicate of an operation.
pub fn column_call(op: OpKind) -> (out: &'static str)
    ensures
        out@ == column_call_text(op),
{
    match op {
        OpKind::Eq => "eq",
        OpKind::Ne => "ne",
        OpKind::Lt => "lt",
        OpKind::Lte => "lte",
        OpKind::Gt => "gt",
        OpKind::Gte => "gte",
        OpKind::Like => "like",
        OpKind::Ilike => "ilike",
        OpKind::In => "is_in",
        OpKind::NotIn => "is_not_in",
        OpKind::Between => "between",
    }
}

/// The arguments that the predicate of a shape is made from.
pub open spec fn arguments_text(shape: ValueShape) -> Seq<char> {
    match shape {
        ValueShape::Scalar => "vv"@,
        ValueShape::List => "vv"@,
        ValueShape::Pair => "a, b"@,
    }
}

/// The arguments that the predicate of a shape is made from.
pub fn arguments(shape: ValueShape) -> (out: &'static str)
    ensures
        out@ == arguments_text(shape),
{
    match shape {
        ValueShape::Scalar => "vv",
        ValueShape::List => "vv",
        ValueShape::Pair => "a, b",
    }
}

/// The type of the statement of a kind.
pub open spec fn statement_type_text(mode: Mode) -> Seq<char> {
    match mode {
        Mode::Select => "::sea_orm::Select<Entity>"@,
        Mode::Update => "::sea_orm::UpdateMany<Entity>"@,
        Mode::Delete => "::sea_orm::DeleteMany<Entity>"@,
    }
}

/// The type of the statement of a kind.
pub fn statement_type(mode: Mode) -> (out: &'static str)
    ensures
        out@ == statement_type_text(mode),
{
    match mode {
        Mode::Select => "::sea_orm::Select<Entity>",
        Mode::Update => "::sea_orm::UpdateMany<Entity>",
        Mode::Delete => "::sea_orm::DeleteMany<Entity>",
    }
}

/// The expression that makes the empty statement of a kind.
pub open spec fn statement_start_text(mode: Mode) -> Seq<char> {
    match mode {
        Mode::Select => "<Entity as ::sea_orm::EntityTrait>::find()"@,
        Mode::Update => "<Entity as ::sea_orm::EntityTrait>::update_many()"@,
        Mode::Delete => "<Entity as ::sea_orm::EntityTrait>::delete_many()"@,
    }
}

/// The expression that makes the empty statement of a kind.
pub fn statement_start(mode: Mode) -> (out: &'static str)
    ensures
        out@ == statement_start_text(mode),
{
    match mode {
        Mode::Select => "<Entity as ::sea_orm::EntityTrait>::find()",
        Mode::Update => "<Entity as ::sea_orm::EntityTrait>::update_many()",
        Mode::Delete => "<Entity as ::sea_orm::EntityTrait>::delete_many()",
    }
}

/// The field that counts assignments: of an update only.
pub open spec fn count_field_text(mode: Mode) -> Seq<char> {
    match mode {
        Mode::Select => ""@,
        Mode::Update => "    set_count: usize,\n"@,
        Mode::Delete => ""@,
    }
}

/// The field that counts assignments: of an update only.
pub fn count_field(mode: Mode) -> (out: &'static str)
    ensures
        out@ == count_field_text(mode),
{
    match mode {
        Mode::Select => "",
        Mode::Update => "    set_count: usize,\n",
        Mode::Delete => "",
    }
}

/// The start of the count of assignments: of an update only.
pub open spec fn count_init_text(mode: Mode) -> Seq<char> {
    match mode {
        Mode::Select => ""@,
        Mode::Update => "            set_count: 0,\n"@,
        Mode::Delete => ""@,
    }
}

/// The start of the count of assignments: of an update only.
pub fn count_init(mode: Mode) -> (out: &'static str)
    ensures
        out@ == count_init_text(mode),
{
    match mode {
        Mode::Select => "",
        Mode::Update => "            set_count: 0,\n",
        Mode::Delete => "",
    }
}

/// The check that an assignment was given.
pub open spec fn needs_set_text() -> Seq<char> {
    "        if self.set_count == 0 {\n"@
        + "            return ::std::result::Result::Err(::sea_orm_builder::"@
        + "SeaOrmBuilderError::NoSet);\n"@
        + "        }\n"@
}

/// The check that an assignment was given.
pub fn needs_set() -> (out: String)
    ensures
        out@ == needs_set_text(),
{
    String::from_str("        if self.set_count == 0 {\n")
        .concat("            return ::std::result::Result::Err(::sea_orm_builder::")
        .concat("SeaOrmBuilderError::NoSet);\n")
        .concat("        }\n")
}

/// The check that a filter was given.
pub open spec fn needs_where_text() -> Seq<char> {
    "        if !self.has_where {\n"@
        + "            return ::std::result::Result::Err(::sea_orm_builder::"@
        + "SeaOrmBuilderError::NoWhere);\n"@
        + "        }\n"@
}

/// The check that a filter was given.
pub fn needs_where() -> (out: String)
    ensures
        out@ == needs_where_text(),
{
    String::from_str("        if !self.has_where {\n")
        .concat("            return ::std::result::Result::Err(::sea_orm_builder::")
        .concat("SeaOrmBuilderError::NoWhere);\n")
        .concat("        }\n")
}

/// What a terminal method checks before it yields: an update that it has an
/// assignment, first, and a filter; a delete that it has a filter; a select
/// nothing.
pub open spec fn checks_text(mode: Mode) -> Seq<char> {
    match mode {
        Mode::Select => Seq::empty(),
        Mode::Update => needs_set_text() + needs_where_text(),
        Mode::Delete => needs_where_text(),
    }
}

/// Writes out what a terminal method checks before it yields.
pub fn checks(mode: Mode) -> (out: String)
    ensures
        out@ == checks_text(mode),
{
    match mode {
        Mode::Select => String::new(),
        Mode::Update => needs_set().concat(needs_where().as_str()),
        Mode::Delete => needs_where(),
    }
}

/// The type of a slot that holds one value.
pub open spec fn scalar_type_text(ty: Seq<char>) -> Seq<char> {
    "::std::option::Option<"@
        + ty
        + ">"@
}

/// The type of a slot that holds one value.
pub fn scalar_type(ty: &str) -> (out: String)
    ensures
        out@ == scalar_type_text(ty@),
{
    String::from_str("::std::option::Option<")
        .concat(ty)
        .concat(">")
}

/// The type of a slot that holds a list.
pub open spec fn list_type_text(ty: Seq<char>) -> Seq<char> {
    "::std::option::Option<::std::vec::Vec<"@
        + ty
        + ">>"@
}

/// The type of a slot that holds a list.
pub fn list_type(ty: &str) -> (out: String)
    ensures
        out@ == list_type_text(ty@),
{
    String::from_str("::std::option::Option<::std::vec::Vec<")
        .concat(ty)
        .concat(">>")
}

/// The type of a slot that holds a pair.
pub open spec fn pair_type_text(ty: Seq<char>) -> Seq<char> {
    "::std::option::Option<("@
        + ty
        + ", "@
        + ty
        + ")>"@
}

/// The type of a slot that holds a pair.
pub fn pair_type(ty: &str) -> (out: String)
    ensures
        out@ == pair_type_text(ty@),
{
    String::from_str("::std::option::Option<(")
        .concat(ty)
        .concat(", ")
        .concat(ty)
        .concat(")>")
}

/// The declaration of a slot in a struct.
pub open spec fn storage_line_text(storage: Seq<char>, slot_type: Seq<char>) -> Seq<char> {
    "    "@
        + storage
        + ": "@
        + slot_type
        + ",\n"@
}

/// The declaration of a slot in a struct.
pub fn storage_line(storage: &str, slot_type: &str) -> (out: String)
    ensures
        out@ == storage_line_text(storage@, slot_type@),
{
    String::from_str("    ")
        .concat(storage)
        .concat(": ")
        .concat(slot_type)
        .concat(",\n")
}

/// The start of a slot: empty.
pub open spec fn init_line_text(storage: Seq<char>) -> Seq<char> {
    "            "@
        + storage
        + ": ::std::option::Option::None,\n"@
}

/// The start of a slot: empty.
pub fn init_line(storage: &str) -> (out: String)
    ensures
        out@ == init_line_text(storage@),
{
    String::from_str("            ")
        .concat(storage)
        .concat(": ::std::option::Option::None,\n")
}

/// The move of a slot from the builder into the snapshot.
pub open spec fn move_line_text(storage: Seq<char>) -> Seq<char> {
    "            "@
        + storage
        + ": self."@
        + storage
        + ",\n"@
}

/// The move of a slot from the builder into the snapshot.
pub fn move_line(storage: &str) -> (out: String)
    ensures
        out@ == move_line_text(storage@),
{
    String::from_str("            ")
        .concat(storage)
        .concat(": self.")
        .concat(storage)
        .concat(",\n")
}

/// A predicate made by a method of the column.
pub open spec fn plain_predicate_text(
    call: Seq<char>,
    column: Seq<char>,
    arguments: Seq<char>,
) -> Seq<char> {
    "::sea_orm::ColumnTrait::"@
        + call
        + "(&Column::"@
        + column
        + ", "@
        + arguments
        + ")"@
}

/// A predicate made by a method of the column.
pub fn plain_predicate(
    call: &str,
    column: &str,
    arguments: &str,
) -> (out: String)
    ensures
        out@ == plain_predicate_text(call@, column@, arguments@),
{
    String::from_str("::sea_orm::ColumnTrait::")
        .concat(call)
        .concat("(&Column::")
        .concat(column)
        .concat(", ")
        .concat(arguments)
        .concat(")")
}

/// The predicate of a pattern match that ignores case, which the column
/// has no method for.
pub open spec fn ilike_predicate_text(column: Seq<char>) -> Seq<char> {
    "::sea_orm::sea_query::extension::postgres::PgExpr::ilike(::sea_orm::"@
        + "sea_query::Expr::col(::sea_orm::ColumnTrait::as_column_ref(&Column::"@
        + column
        + ")), vv)"@
}

/// The predicate of a pattern match that ignores case, which the column
/// has no method for.
pub fn ilike_predicate(column: &str) -> (out: String)
    ensures
        out@ == ilike_predicate_text(column@),
{
    String::from_str("::sea_orm::sea_query::extension::postgres::PgExpr::ilike(::sea_orm::")
        .concat("sea_query::Expr::col(::sea_orm::ColumnTrait::as_column_ref(&Column::")
        .concat(column)
        .concat(")), vv)")
}

/// The fluent method of an operation on one value: it converts the value,
/// stores a copy in the slot, appends a record that holds the value as debug
/// text, hands the predicate on and marks that a filter was given.
pub open spec fn scalar_method_text(
    method: Seq<char>,
    ty: Seq<char>,
    storage: Seq<char>,
    field: Seq<char>,
    op_path: Seq<char>,
    predicate: Seq<char>,
) -> Seq<char> {
    "    pub fn "@
        + method
        + "<V: ::sea_orm_builder::IntoField<"@
        + ty
        + ">>(mut self, v: V) -> Self\n"@
        + "    where\n"@
        + "        "@
        + ty
        + ": ::std::clone::Clone + ::std::fmt::Debug,\n"@
        + "    {\n"@
        + "        let vv: "@
        + ty
        + " = v.into_field();\n"@
        + "        self."@
        + storage
        + " = ::std::option::Option::Some(vv.clone());\n"@
        + "        self.where_params.push(::sea_orm_builder::WhereParam {\n"@
        + "            field: ::std::string::String::from(\""@
        + field
        + "\"),\n"@
        + "            op: "@
        + op_path
        + ",\n"@
        + "            value: ::sea_orm_builder::WhereValue::Single(::std::"@
        + "format!(\"{:?}\", &vv)),\n"@
        + "        });\n"@
        + "        self.statement = ::sea_orm::QueryFilter::filter(self.statement, "@
        + predicate
        + ");\n"@
        + "        self.has_where = true;\n"@
        + "        self\n"@
        + "    }\n"@
}

/// The fluent method of an operation on one value: it converts the value,
/// stores a copy in the slot, appends a record that holds the value as debug
/// text, hands the predicate on and marks that a filter was given.
pub fn scalar_method(
    method: &str,
    ty: &str,
    storage: &str,
    field: &str,
    op_path: &str,
    predicate: &str,
) -> (out: String)
    ensures
        out@ == scalar_method_text(method@, ty@, storage@, field@, op_path@, predicate@),
{
    String::from_str("    pub fn ")
        .concat(method)
        .concat("<V: ::sea_orm_builder::IntoField<")
        .concat(ty)
        .concat(">>(mut self, v: V) -> Self\n")
        .concat("    where\n")
        .concat("        ")
        .concat(ty)
        .concat(": ::std::clone::Clone + ::std::fmt::Debug,\n")
        .concat("    {\n")
        .concat("        let vv: ")
        .concat(ty)
        .concat(" = v.into_field();\n")
        .concat("        self.")
        .concat(storage)
        .concat(" = ::std::option::Option::Some(vv.clone());\n")
        .concat("        self.where_params.push(::sea_orm_builder::WhereParam {\n")
        .concat("            field: ::std::string::String::from(\"")
        .concat(field)
        .concat("\"),\n")
        .concat("            op: ")
        .concat(op_path)
        .concat(",\n")
        .concat("            value: ::sea_orm_builder::WhereValue::Single(::std::")
        .concat("format!(\"{:?}\", &vv)),\n")
        .concat("        });\n")
        .concat("        self.statement = ::sea_orm::QueryFilter::filter(self.statement, ")
        .concat(predicate)
        .concat(");\n")
        .concat("        self.has_where = true;\n")
        .concat("        self\n")
        .concat("    }\n")
}

/// The fluent method of an operation on a list: it converts each value,
/// stores a copy of the list in the slot, appends a record that holds each
/// value as debug text, hands the predicate on and marks that a filter was
/// given.
pub open spec fn list_method_text(
    method: Seq<char>,
    ty: Seq<char>,
    storage: Seq<char>,
    field: Seq<char>,
    op_path: Seq<char>,
    predicate: Seq<char>,
) -> Seq<char> {
    "    pub fn "@
        + method
        + "<V, I>(mut self, iter: I) -> Self\n"@
        + "    where\n"@
        + "        V: ::sea_orm_builder::IntoField<"@
        + ty
        + ">,\n"@
        + "        I: ::std::iter::IntoIterator<Item = V>,\n"@
        + "        "@
        + ty
        + ": ::std::clone::Clone + ::std::fmt::Debug,\n"@
        + "    {\n"@
        + "        let vv: ::std::vec::Vec<"@
        + ty
        + "> = iter.into_iter().map(|x| x.into_field()).collect();\n"@
        + "        self."@
        + storage
        + " = ::std::option::Option::Some(vv.clone());\n"@
        + "        self.where_params.push(::sea_orm_builder::WhereParam {\n"@
        + "            field: ::std::string::String::from(\""@
        + field
        + "\"),\n"@
        + "            op: "@
        + op_path
        + ",\n"@
        + "            value: ::sea_orm_builder::WhereValue::List(\n"@
        + "                vv.iter().map(|x| ::std::format!(\"{:?}\", x)).collect(),\n"@
        + "            ),\n"@
        + "        });\n"@
        + "        self.statement = ::sea_orm::QueryFilter::filter(self.statement, "@
        + predicate
        + ");\n"@
        + "        self.has_where = true;\n"@
        + "        self\n"@
        + "    }\n"@
}

/// The fluent method of an operation on a list: it converts each value,
/// stores a copy of the list in the slot, appends a record that holds each
/// value as debug text, hands the predicate on and marks that a filter was
/// given.
pub fn list_method(
    method: &str,
    ty: &str,
    storage: &str,
    field: &str,
    op_path: &str,
    predicate: &str,
) -> (out: String)
    ensures
        out@ == list_method_text(method@, ty@, storage@, field@, op_path@, predicate@),
{
    String::from_str("    pub fn ")
        .concat(method)
        .concat("<V, I>(mut self, iter: I) -> Self\n")
        .concat("    where\n")
        .concat("        V: ::sea_orm_builder::IntoField<")
        .concat(ty)
        .concat(">,\n")
        .concat("        I: ::std::iter::IntoIterator<Item = V>,\n")
        .concat("        ")
        .concat(ty)
        .concat(": ::std::clone::Clone + ::std::fmt::Debug,\n")
        .concat("    {\n")
        .concat("        let vv: ::std::vec::Vec<")
        .concat(ty)
        .concat("> = iter.into_iter().map(|x| x.into_field()).collect();\n")
        .concat("        self.")
        .concat(storage)
        .concat(" = ::std::option::Option::Some(vv.clone());\n")
        .concat("        self.where_params.push(::sea_orm_builder::WhereParam {\n")
        .concat("            field: ::std::string::String::from(\"")
        .concat(field)
        .concat("\"),\n")
        .concat("            op: ")
        .concat(op_path)
        .concat(",\n")
        .concat("            value: ::sea_orm_builder::WhereValue::List(\n")
        .concat("                vv.iter().map(|x| ::std::format!(\"{:?}\", x)).collect(),\n")
        .concat("            ),\n")
        .concat("        });\n")
        .concat("        self.statement = ::sea_orm::QueryFilter::filter(self.statement, ")
        .concat(predicate)
        .concat(");\n")
        .concat("        self.has_where = true;\n")
        .concat("        self\n")
        .concat("    }\n")
}

/// The fluent method of a range: it converts the two ends, stores a copy of
/// them in the slot in the order given, appends a record that holds the
/// first as start and the second as end, hands the predicate on and marks
/// that a filter was given.
pub open spec fn pair_method_text(
    method: Seq<char>,
    ty: Seq<char>,
    storage: Seq<char>,
    field: Seq<char>,
    op_path: Seq<char>,
    predicate: Seq<char>,
) -> Seq<char> {
    "    pub fn "@
        + method
        + "<V1, V2>(mut self, a: V1, b: V2) -> Self\n"@
        + "    where\n"@
        + "        V1: ::sea_orm_builder::IntoField<"@
        + ty
        + ">,\n"@
        + "        V2: ::sea_orm_builder::IntoField<"@
        + ty
        + ">,\n"@
        + "        "@
        + ty
        + ": ::std::clone::Clone + ::std::fmt::Debug,\n"@
        + "    {\n"@
        + "        let a: "@
        + ty
        + " = a.into_field();\n"@
        + "        let b: "@
        + ty
        + " = b.into_field();\n"@
        + "        self."@
        + storage
        + " = ::std::option::Option::Some((a.clone(), b.clone()));\n"@
        + "        self.where_params.push(::sea_orm_builder::WhereParam {\n"@
        + "            field: ::std::string::String::from(\""@
        + field
        + "\"),\n"@
        + "            op: "@
        + op_path
        + ",\n"@
        + "            value: ::sea_orm_builder::WhereValue::Range {\n"@
        + "                start: ::std::format!(\"{:?}\", &a),\n"@
        + "                end: ::std::format!(\"{:?}\", &b),\n"@
        + "            },\n"@
        + "        });\n"@
        + "        self.statement = ::sea_orm::QueryFilter::filter(self.statement, "@
        + predicate
        + ");\n"@
        + "        self.has_where = true;\n"@
        + "        self\n"@
        + "    }\n"@
}

/// The fluent method of a range: it converts the two ends, stores a copy of
/// them in the slot in the order given, appends a record that holds the
/// first as start and the second as end, hands the predicate on and marks
/// that a filter was given.
pub fn pair_method(
    method: &str,
    ty: &str,
    storage: &str,
    field: &str,
    op_path: &str,
    predicate: &str,
) -> (out: String)
    ensures
        out@ == pair_method_text(method@, ty@, storage@, field@, op_path@, predicate@),
{
    String::from_str("    pub fn ")
        .concat(method)
        .concat("<V1, V2>(mut self, a: V1, b: V2) -> Self\n")
        .concat("    where\n")
        .concat("        V1: ::sea_orm_builder::IntoField<")
        .concat(ty)
        .concat(">,\n")
        .concat("        V2: ::sea_orm_builder::IntoField<")
        .concat(ty)
        .concat(">,\n")
        .concat("        ")
        .concat(ty)
        .concat(": ::std::clone::Clone + ::std::fmt::Debug,\n")
        .concat("    {\n")
        .concat("        let a: ")
        .concat(ty)
        .concat(" = a.into_field();\n")
        .concat("        let b: ")
        .concat(ty)
        .concat(" = b.into_field();\n")
        .concat("        self.")
        .concat(storage)
        .concat(" = ::std::option::Option::Some((a.clone(), b.clone()));\n")
        .concat("        self.where_params.push(::sea_orm_builder::WhereParam {\n")
        .concat("            field: ::std::string::String::from(\"")
        .concat(field)
        .concat("\"),\n")
        .concat("            op: ")
        .concat(op_path)
        .concat(",\n")
        .concat("            value: ::sea_orm_builder::WhereValue::Range {\n")
        .concat("                start: ::std::format!(\"{:?}\", &a),\n")
        .concat("                end: ::std::format!(\"{:?}\", &b),\n")
        .concat("            },\n")
        .concat("        });\n")
        .concat("        self.statement = ::sea_orm::QueryFilter::filter(self.statement, ")
        .concat(predicate)
        .concat(");\n")
        .concat("        self.has_where = true;\n")
        .concat("        self\n")
        .concat("    }\n")
}

/// The accessor pair of a slot that holds one value.
pub open spec fn scalar_accessors_text(
    is_name: Seq<char>,
    storage: Seq<char>,
    get_name: Seq<char>,
    ty: Seq<char>,
) -> Seq<char> {
    "    pub fn "@
        + is_name
        + "(&self) -> bool {\n"@
        + "        self."@
        + storage
        + ".is_some()\n"@
        + "    }\n"@
        + "    pub fn "@
        + get_name
        + "(&self) -> ::std::option::Option<&"@
        + ty
        + "> {\n"@
        + "        self."@
        + storage
        + ".as_ref()\n"@
        + "    }\n"@
}

/// The accessor pair of a slot that holds one value.
pub fn scalar_accessors(
    is_name: &str,
    storage: &str,
    get_name: &str,
    ty: &str,
) -> (out: String)
    ensures
        out@ == scalar_accessors_text(is_name@, storage@, get_name@, ty@),
{
    String::from_str("    pub fn ")
        .concat(is_name)
        .concat("(&self) -> bool {\n")
        .concat("        self.")
        .concat(storage)
        .concat(".is_some()\n")
        .concat("    }\n")
        .concat("    pub fn ")
        .concat(get_name)
        .concat("(&self) -> ::std::option::Option<&")
        .concat(ty)
        .concat("> {\n")
        .concat("        self.")
        .concat(storage)
        .concat(".as_ref()\n")
        .concat("    }\n")
}

/// The accessor pair of a slot that holds a list.
pub open spec fn list_accessors_text(
    is_name: Seq<char>,
    storage: Seq<char>,
    get_name: Seq<char>,
    ty: Seq<char>,
) -> Seq<char> {
    "    pub fn "@
        + is_name
        + "(&self) -> bool {\n"@
        + "        self."@
        + storage
        + ".is_some()\n"@
        + "    }\n"@
        + "    pub fn "@
        + get_name
        + "(&self) -> ::std::option::Option<&["@
        + ty
        + "]> {\n"@
        + "        self."@
        + storage
        + ".as_deref()\n"@
        + "    }\n"@
}

/// The accessor pair of a slot that holds a list.
pub fn list_accessors(
    is_name: &str,
    storage: &str,
    get_name: &str,
    ty: &str,
) -> (out: String)
    ensures
        out@ == list_accessors_text(is_name@, storage@, get_name@, ty@),
{
    String::from_str("    pub fn ")
        .concat(is_name)
        .concat("(&self) -> bool {\n")
        .concat("        self.")
        .concat(storage)
        .concat(".is_some()\n")
        .concat("    }\n")
        .concat("    pub fn ")
        .concat(get_name)
        .concat("(&self) -> ::std::option::Option<&[")
        .concat(ty)
        .concat("]> {\n")
        .concat("        self.")
        .concat(storage)
        .concat(".as_deref()\n")
        .concat("    }\n")
}

/// The accessor pair of a slot that holds a pair.
pub open spec fn pair_accessors_text(
    is_name: Seq<char>,
    storage: Seq<char>,
    get_name: Seq<char>,
    ty: Seq<char>,
) -> Seq<char> {
    "    pub fn "@
        + is_name
        + "(&self) -> bool {\n"@
        + "        self."@
        + storage
        + ".is_some()\n"@
        + "    }\n"@
        + "    pub fn "@
        + get_name
        + "(&self) -> ::std::option::Option<(&"@
        + ty
        + ", &"@
        + ty
        + ")> {\n"@
        + "        self."@
        + storage
        + ".as_ref().map(|(a, b)| (a, b))\n"@
        + "    }\n"@
}

/// The accessor pair of a slot that holds a pair.
pub fn pair_accessors(
    is_name: &str,
    storage: &str,
    get_name: &str,
    ty: &str,
) -> (out: String)
    ensures
        out@ == pair_accessors_text(is_name@, storage@, get_name@, ty@),
{
    String::from_str("    pub fn ")
        .concat(is_name)
        .concat("(&self) -> bool {\n")
        .concat("        self.")
        .concat(storage)
        .concat(".is_some()\n")
        .concat("    }\n")
        .concat("    pub fn ")
        .concat(get_name)
        .concat("(&self) -> ::std::option::Option<(&")
        .concat(ty)
        .concat(", &")
        .concat(ty)
        .concat(")> {\n")
        .concat("        self.")
        .concat(storage)
        .concat(".as_ref().map(|(a, b)| (a, b))\n")
        .concat("    }\n")
}

/// An assignment method: it converts the value, hands the assignment on and
/// counts it.
pub open spec fn set_method_text(method: Seq<char>, ty: Seq<char>, column: Seq<char>) -> Seq<char> {
    "    pub fn "@
        + method
        + "<V: ::sea_orm_builder::IntoField<"@
        + ty
        + ">>(mut self, v: V) -> Self {\n"@
        + "        let v: "@
        + ty
        + " = v.into_field();\n"@
        + "        self.statement =\n"@
        + "            self.statement.col_expr(Column::"@
        + column
        + ", ::sea_orm::sea_query::Expr::value(v));\n"@
        + "        self.set_count += 1;\n"@
        + "        self\n"@
        + "    }\n"@
}

/// An assignment method: it converts the value, hands the assignment on and
/// counts it.
pub fn set_method(method: &str, ty: &str, column: &str) -> (out: String)
    ensures
        out@ == set_method_text(method@, ty@, column@),
{
    String::from_str("    pub fn ")
        .concat(method)
        .concat("<V: ::sea_orm_builder::IntoField<")
        .concat(ty)
        .concat(">>(mut self, v: V) -> Self {\n")
        .concat("        let v: ")
        .concat(ty)
        .concat(" = v.into_field();\n")
        .concat("        self.statement =\n")
        .concat("            self.statement.col_expr(Column::")
        .concat(column)
        .concat(", ::sea_orm::sea_query::Expr::value(v));\n")
        .concat("        self.set_count += 1;\n")
        .concat("        self\n")
        .concat("    }\n")
}

/// What only a select has: ordering and bounds, which are handed on as they
/// are, and terminal methods that always yield.
pub open spec fn select_terminals_text(
    statement: Seq<char>,
    params_name: Seq<char>,
    moves: Seq<char>,
) -> Seq<char> {
    "    pub fn order_by_asc(mut self, col: Column) -> Self {\n"@
        + "        self.statement =\n"@
        + "            ::sea_orm::QueryOrder::order_by(self.statement, col, ::"@
        + "sea_orm::Order::Asc);\n"@
        + "        self\n"@
        + "    }\n"@
        + "    pub fn order_by_desc(mut self, col: Column) -> Self {\n"@
        + "        self.statement =\n"@
        + "            ::sea_orm::QueryOrder::order_by(self.statement, col, ::"@
        + "sea_orm::Order::Desc);\n"@
        + "        self\n"@
        + "    }\n"@
        + "    pub fn limit(mut self, limit: u64) -> Self {\n"@
        + "        self.statement = ::sea_orm::QuerySelect::limit(self.statement, "@
        + "limit);\n"@
        + "        self\n"@
        + "    }\n"@
        + "    pub fn offset(mut self, offset: u64) -> Self {\n"@
        + "        self.statement = ::sea_orm::QuerySelect::offset(self.statement, "@
        + "offset);\n"@
        + "        self\n"@
        + "    }\n"@
        + "    pub fn build(self) -> "@
        + statement
        + " {\n"@
        + "        self.statement\n"@
        + "    }\n"@
        + "    pub fn build_with_params(self) -> ("@
        + statement
        + ", "@
        + params_name
        + ") {\n"@
        + "        let p = "@
        + params_name
        + " {\n"@
        + "            where_params: self.where_params,\n"@
        + moves
        + "        };\n"@
        + "        (self.statement, p)\n"@
        + "    }\n"@
}

/// What only a select has: ordering and bounds, which are handed on as they
/// are, and terminal methods that always yield.
pub fn select_terminals(
    statement: &str,
    params_name: &str,
    moves: &str,
) -> (out: String)
    ensures
        out@ == select_terminals_text(statement@, params_name@, moves@),
{
    String::from_str("    pub fn order_by_asc(mut self, col: Column) -> Self {\n")
        .concat("        self.statement =\n")
        .concat("            ::sea_orm::QueryOrder::order_by(self.statement, col, ::")
        .concat("sea_orm::Order::Asc);\n")
        .concat("        self\n")
        .concat("    }\n")
        .concat("    pub fn order_by_desc(mut self, col: Column) -> Self {\n")
        .concat("        self.statement =\n")
        .concat("            ::sea_orm::QueryOrder::order_by(self.statement, col, ::")
        .concat("sea_orm::Order::Desc);\n")
        .concat("        self\n")
        .concat("    }\n")
        .concat("    pub fn limit(mut self, limit: u64) -> Self {\n")
        .concat("        self.statement = ::sea_orm::QuerySelect::limit(self.statement, ")
        .concat("limit);\n")
        .concat("        self\n")
        .concat("    }\n")
        .concat("    pub fn offset(mut self, offset: u64) -> Self {\n")
        .concat("        self.statement = ::sea_orm::QuerySelect::offset(self.statement, ")
        .concat("offset);\n")
        .concat("        self\n")
        .concat("    }\n")
        .concat("    pub fn build(self) -> ")
        .concat(statement)
        .concat(" {\n")
        .concat("        self.statement\n")
        .concat("    }\n")
        .concat("    pub fn build_with_params(self) -> (")
        .concat(statement)
        .concat(", ")
        .concat(params_name)
        .concat(") {\n")
        .concat("        let p = ")
        .concat(params_name)
        .concat(" {\n")
        .concat("            where_params: self.where_params,\n")
        .concat(moves)
        .concat("        };\n")
        .concat("        (self.statement, p)\n")
        .concat("    }\n")
}

/// The terminal methods of an update and of a delete: they check, then
/// yield the statement, with or without the snapshot.
pub open spec fn bulk_terminals_text(
    statement: Seq<char>,
    checks: Seq<char>,
    params_name: Seq<char>,
    moves: Seq<char>,
) -> Seq<char> {
    "    pub fn build(\n"@
        + "        self,\n"@
        + "    ) -> ::std::result::Result<"@
        + statement
        + ", ::sea_orm_builder::SeaOrmBuilderError> {\n"@
        + checks
        + "        ::std::result::Result::Ok(self.statement)\n"@
        + "    }\n"@
        + "    pub fn build_with_params(\n"@
        + "        self,\n"@
        + "    ) -> ::std::result::Result<\n"@
        + "        ("@
        + statement
        + ", "@
        + params_name
        + "),\n"@
        + "        ::sea_orm_builder::SeaOrmBuilderError,\n"@
        + "    > {\n"@
        + checks
        + "        let p = "@
        + params_name
        + " {\n"@
        + "            where_params: self.where_params,\n"@
        + moves
        + "        };\n"@
        + "        ::std::result::Result::Ok((self.statement, p))\n"@
        + "    }\n"@
}

/// The terminal methods of an update and of a delete: they check, then
/// yield the statement, with or without the snapshot.
pub fn bulk_terminals(
    statement: &str,
    checks: &str,
    params_name: &str,
    moves: &str,
) -> (out: String)
    ensures
        out@ == bulk_terminals_text(statement@, checks@, params_name@, moves@),
{
    String::from_str("    pub fn build(\n")
        .concat("        self,\n")
        .concat("    ) -> ::std::result::Result<")
        .concat(statement)
        .concat(", ::sea_orm_builder::SeaOrmBuilderError> {\n")
        .concat(checks)
        .concat("        ::std::result::Result::Ok(self.statement)\n")
        .concat("    }\n")
        .concat("    pub fn build_with_params(\n")
        .concat("        self,\n")
        .concat("    ) -> ::std::result::Result<\n")
        .concat("        (")
        .concat(statement)
        .concat(", ")
        .concat(params_name)
        .concat("),\n")
        .concat("        ::sea_orm_builder::SeaOrmBuilderError,\n")
        .concat("    > {\n")
        .concat(checks)
        .concat("        let p = ")
        .concat(params_name)
        .concat(" {\n")
        .concat("            where_params: self.where_params,\n")
        .concat(moves)
        .concat("        };\n")
        .concat("        ::std::result::Result::Ok((self.statement, p))\n")
        .concat("    }\n")
}

/// The two types and their `impl` blocks, around what the slots, the
/// methods and the accessors are written as.
pub open spec fn types_text(
    name: Seq<char>,
    statement: Seq<char>,
    count_field: Seq<char>,
    storages: Seq<char>,
    params_name: Seq<char>,
    pairs: Seq<char>,
    start: Seq<char>,
    count_init: Seq<char>,
    inits: Seq<char>,
    sets: Seq<char>,
    methods: Seq<char>,
    accessors: Seq<char>,
    terminals: Seq<char>,
) -> Seq<char> {
    "pub struct "@
        + name
        + " {\n"@
        + "    pub statement: "@
        + statement
        + ",\n"@
        + "    has_where: bool,\n"@
        + count_field
        + "    where_params: ::std::vec::Vec<::sea_orm_builder::WhereParam>,\n"@
        + storages
        + "}\n"@
        + "\n"@
        + "pub struct "@
        + params_name
        + " {\n"@
        + "    pub where_params: ::std::vec::Vec<::sea_orm_builder::WhereParam>,\n"@
        + storages
        + "}\n"@
        + "\n"@
        + "impl "@
        + params_name
        + " {\n"@
        + pairs
        + "    pub fn where_params(&self) -> &[::sea_orm_builder::WhereParam] {\n"@
        + "        &self.where_params\n"@
        + "    }\n"@
        + "}\n"@
        + "\n"@
        + "impl "@
        + name
        + " {\n"@
        + "    pub fn new() -> Self {\n"@
        + "        Self {\n"@
        + "            statement: "@
        + start
        + ",\n"@
        + "            has_where: false,\n"@
        + count_init
        + "            where_params: ::std::vec::Vec::new(),\n"@
        + inits
        + "        }\n"@
        + "    }\n"@
        + sets
        + methods
        + accessors
        + terminals
        + "    pub fn where_params(&self) -> &[::sea_orm_builder::WhereParam] {\n"@
        + "        &self.where_params\n"@
        + "    }\n"@
        + "}\n"@
}

/// The two types and their `impl` blocks, around what the slots, the
/// methods and the accessors are written as.
pub fn types(
    name: &str,
    statement: &str,
    count_field: &str,
    storages: &str,
    params_name: &str,
    pairs: &str,
    start: &str,
    count_init: &str,
    inits: &str,
    sets: &str,
    methods: &str,
    accessors: &str,
    terminals: &str,
) -> (out: String)
    ensures
        out@ == types_text(
            name@,
            statement@,
            count_field@,
            storages@,
            params_name@,
            pairs@,
            start@,
            count_init@,
            inits@,
            sets@,
            methods@,
            accessors@,
            terminals@,
        ),
{
    String::from_str("pub struct ")
        .concat(name)
        .concat(" {\n")
        .concat("    pub statement: ")
        .concat(statement)
        .concat(",\n")
        .concat("    has_where: bool,\n")
        .concat(count_field)
        .concat("    where_params: ::std::vec::Vec<::sea_orm_builder::WhereParam>,\n")
        .concat(storages)
        .concat("}\n")
        .concat("\n")
        .concat("pub struct ")
        .concat(params_name)
        .concat(" {\n")
        .concat("    pub where_params: ::std::vec::Vec<::sea_orm_builder::WhereParam>,\n")
        .concat(storages)
        .concat("}\n")
        .concat("\n")
        .concat("impl ")
        .concat(params_name)
        .concat(" {\n")
        .concat(pairs)
        .concat("    pub fn where_params(&self) -> &[::sea_orm_builder::WhereParam] {\n")
        .concat("        &self.where_params\n")
        .concat("    }\n")
        .concat("}\n")
        .concat("\n")
        .concat("impl ")
        .concat(name)
        .concat(" {\n")
        .concat("    pub fn new() -> Self {\n")
        .concat("        Self {\n")
        .concat("            statement: ")
        .concat(start)
        .concat(",\n")
        .concat("            has_where: false,\n")
        .concat(count_init)
        .concat("            where_params: ::std::vec::Vec::new(),\n")
        .concat(inits)
        .concat("        }\n")
        .concat("    }\n")
        .concat(sets)
        .concat(methods)
        .concat(accessors)
        .concat(terminals)
        .concat("    pub fn where_params(&self) -> &[::sea_orm_builder::WhereParam] {\n")
        .concat("        &self.where_params\n")
        .concat("    }\n")
        .concat("}\n")
}

/// The type of a slot: an optional value, list or pair of the field's type.
pub open spec fn slot_type_text(ty: Seq<char>, shape: ValueShape) -> Seq<char> {
    match shape {
        ValueShape::Scalar => scalar_type_text(ty),
        ValueShape::List => list_type_text(ty),
        ValueShape::Pair => pair_type_text(ty),
    }
}

/// The type of a slot: an optional value, list or pair of the field's type.
pub fn slot_type(ty: &str, shape: ValueShape) -> (out: String)
    ensures
        out@ == slot_type_text(ty@, shape),
{
    match shape {
        ValueShape::Scalar => scalar_type(ty),
        ValueShape::List => list_type(ty),
        ValueShape::Pair => pair_type(ty),
    }
}

/// The predicate that an operation makes on a column, over the value `vv`
/// or the two ends `a` and `b`.
pub open spec fn predicate_text(op: OpKind, column: Seq<char>) -> Seq<char> {
    match op {
        OpKind::Ilike => ilike_predicate_text(column),
        _ => plain_predicate_text(column_call_text(op), column, arguments_text(op.shape())),
    }
}

/// The predicate that an operation makes on a column, over the value `vv`
/// or the two ends `a` and `b`.
pub fn predicate(op: OpKind, column: &str) -> (out: String)
    ensures
        out@ == predicate_text(op, column@),
{
    match op {
        OpKind::Ilike => ilike_predicate(column),
        _ => plain_predicate(column_call(op), column, arguments(op.value_shape())),
    }
}

/// The fluent method of a slot, by the shape of its operation.
pub open spec fn method_text(p: WherePiecesView) -> Seq<char> {
    match p.op.shape() {
        ValueShape::Scalar => scalar_method_text(
            p.method,
            p.ty,
            p.storage,
            p.field,
            op_path_text(p.op),
            predicate_text(p.op, p.column),
        ),
        ValueShape::List => list_method_text(
            p.method,
            p.ty,
            p.storage,
            p.field,
            op_path_text(p.op),
            predicate_text(p.op, p.column),
        ),
        ValueShape::Pair => pair_method_text(
            p.method,
            p.ty,
            p.storage,
            p.field,
            op_path_text(p.op),
            predicate_text(p.op, p.column),
        ),
    }
}

/// Writes out the fluent method of a slot.
pub fn render_method(p: &WherePieces) -> (out: String)
    ensures
        out@ == method_text(p@),
{
    let made = predicate(p.op, p.column.as_str());
    match p.op.value_shape() {
        ValueShape::Scalar => scalar_method(
            p.method.as_str(),
            p.ty.as_str(),
            p.storage.as_str(),
            p.field.as_str(),
            op_path(p.op),
            made.as_str(),
        ),
        ValueShape::List => list_method(
            p.method.as_str(),
            p.ty.as_str(),
            p.storage.as_str(),
            p.field.as_str(),
            op_path(p.op),
            made.as_str(),
        ),
        ValueShape::Pair => pair_method(
            p.method.as_str(),
            p.ty.as_str(),
            p.storage.as_str(),
            p.field.as_str(),
            op_path(p.op),
            made.as_str(),
        ),
    }
}

/// An accessor pair, by the shape of what its slot holds.
pub open spec fn accessors_text(a: AccessorsView) -> Seq<char> {
    match a.shape {
        ValueShape::Scalar => scalar_accessors_text(a.is_name, a.storage, a.get_name, a.ty),
        ValueShape::List => list_accessors_text(a.is_name, a.storage, a.get_name, a.ty),
        ValueShape::Pair => pair_accessors_text(a.is_name, a.storage, a.get_name, a.ty),
    }
}

/// Writes out an accessor pair.
pub fn render_accessors(a: &Accessors) -> (out: String)
    ensures
        out@ == accessors_text(a@),
{
    match a.shape {
        ValueShape::Scalar => scalar_accessors(
            a.is_name.as_str(),
            a.storage.as_str(),
            a.get_name.as_str(),
            a.ty.as_str(),
        ),
        ValueShape::List => list_accessors(
            a.is_name.as_str(),
            a.storage.as_str(),
            a.get_name.as_str(),
            a.ty.as_str(),
        ),
        ValueShape::Pair => pair_accessors(
            a.is_name.as_str(),
            a.storage.as_str(),
            a.get_name.as_str(),
            a.ty.as_str(),
        ),
    }
}

/// What is written for each slot, one after the other.
#[derive(Clone, Copy, Debug, PartialEq, Eq, Structural)]
pub enum Part {
    /// The declaration of the slot in a struct.
    Storage,
    /// The empty start of the slot in the constructor.
    Init,
    /// The move of the slot into the snapshot.
    Move,
    /// The fluent method that fills the slot.
    Method,
    /// The accessor pair that reads the slot.
    Accessors,
}

/// One part of one slot.
pub open spec fn part_text(part: Part, p: WherePiecesView) -> Seq<char> {
    match part {
        Part::Storage => storage_line_text(p.storage, slot_type_text(p.ty, p.op.shape())),
        Part::Init => init_line_text(p.storage),
        Part::Move => move_line_text(p.storage),
        Part::Method => method_text(p),
        Part::Accessors => accessors_text(p.accessors),
    }
}

/// Writes out one part of one slot.
pub fn render_part(part: Part, p: &WherePieces) -> (out: String)
    ensures
        out@ == part_text(part, p@),
{
    match part {
        Part::Storage => {
            let ty = slot_type(p.ty.as_str(), p.op.value_shape());
            storage_line(p.storage.as_str(), ty.as_str())
        },
        Part::Init => init_line(p.storage.as_str()),
        Part::Move => move_line(p.storage.as_str()),
        Part::Method => render_method(p),
        Part::Accessors => render_accessors(&p.accessors),
    }
}

/// One part of every slot, in the order of the slots.
pub open spec fn parts_text(part: Part, slots: Seq<WherePiecesView>) -> Seq<char>
    decreases slots.len(),
{
    if slots.len() == 0 {
        Seq::empty()
    } else {
        parts_text(part, slots.drop_last()) + part_text(part, slots.last())
    }
}

/// Writes out one part of every slot, in the order of the slots.
pub fn render_parts(part: Part, slots: &Vec<WherePieces>) -> (out: String)
    ensures
        out@ == parts_text(part, slots.deep_view()),
{
    let ghost all = slots.deep_view();
    let mut out = String::new();
    let mut i: usize = 0;
    proof {
        assert(all.take(0) =~= Seq::empty());
    }
    while i < slots.len()
        invariant
            i <= slots.len(),
            all == slots.deep_view(),
            out@ == parts_text(part, all.take(i as int)),
        decreases slots.len() - i,
    {
        proof {
            assert(all.take(i + 1).drop_last() =~= all.take(i as int));
            assert(all.take(i + 1).last() == slots@[i as int]@);
        }
        let one = render_part(part, &slots[i]);
        out = out.concat(one.as_str());
        i += 1;
    }
    proof {
        assert(all.take(i as int) =~= all);
    }
    out
}

/// Every accessor pair of a snapshot, in order.
pub open spec fn pairs_text(pairs: Seq<AccessorsView>) -> Seq<char>
    decreases pairs.len(),
{
    if pairs.len() == 0 {
        Seq::empty()
    } else {
        pairs_text(pairs.drop_last()) + accessors_text(pairs.last())
    }
}

/// Writes out every accessor pair of a snapshot, in order.
pub fn render_pairs(pairs: &Vec<Accessors>) -> (out: String)
    ensures
        out@ == pairs_text(pairs.deep_view()),
{
    let ghost all = pairs.deep_view();
    let mut out = String::new();
    let mut i: usize = 0;
    proof {
        assert(all.take(0) =~= Seq::empty());
    }
    while i < pairs.len()
        invariant
            i <= pairs.len(),
            all == pairs.deep_view(),
            out@ == pairs_text(all.take(i as int)),
        decreases pairs.len() - i,
    {
        proof {
            assert(all.take(i + 1).drop_last() =~= all.take(i as int));
            assert(all.take(i + 1).last() == pairs@[i as int]@);
        }
        let one = render_accessors(&pairs[i]);
        out = out.concat(one.as_str());
        i += 1;
    }
    proof {
        assert(all.take(i as int) =~= all);
    }
    out
}

/// Every assignment method, in order.
pub open spec fn sets_text(sets: Seq<SetMethodView>) -> Seq<char>
    decreases sets.len(),
{
    if sets.len() == 0 {
        Seq::empty()
    } else {
        let s = sets.last();
        sets_text(sets.drop_last()) + set_method_text(s.method, s.ty, s.column)
    }
}

/// Writes out every assignment method, in order.
pub fn render_sets(sets: &Vec<SetMethod>) -> (out: String)
    ensures
        out@ == sets_text(sets.deep_view()),
{
    let ghost all = sets.deep_view();
    let mut out = String::new();
    let mut i: usize = 0;
    proof {
        assert(all.take(0) =~= Seq::empty());
    }
    while i < sets.len()
        invariant
            i <= sets.len(),
            all == sets.deep_view(),
            out@ == sets_text(all.take(i as int)),
        decreases sets.len() - i,
    {
        proof {
            assert(all.take(i + 1).drop_last() =~= all.take(i as int));
            assert(all.take(i + 1).last() == sets@[i as int]@);
        }
        let s = &sets[i];
        let one = set_method(s.method.as_str(), s.ty.as_str(), s.column.as_str());
        out = out.concat(one.as_str());
        i += 1;
    }
    proof {
        assert(all.take(i as int) =~= all);
    }
    out
}

/// The terminal methods of a kind, with the ordering and the bounds that
/// only a select has.
pub open spec fn terminals_text(
    mode: Mode,
    params_name: Seq<char>,
    moves: Seq<char>,
) -> Seq<char> {
    match mode {
        Mode::Select => select_terminals_text(statement_type_text(mode), params_name, moves),
        _ => bulk_terminals_text(
            statement_type_text(mode),
            checks_text(mode),
            params_name,
            moves,
        ),
    }
}

/// Writes out the terminal methods of a kind.
pub fn render_terminals(mode: Mode, params_name: &str, moves: &str) -> (out: String)
    ensures
        out@ == terminals_text(mode, params_name@, moves@),
{
    let checked = checks(mode);
    match mode {
        Mode::Select => select_terminals(statement_type(mode), params_name, moves),
        _ => bulk_terminals(statement_type(mode), checked.as_str(), params_name, moves),
    }
}

/// The source of the builder type of a shape and of its snapshot type: the
/// two structs, each with one field per slot; the accessors of the snapshot;
/// and the constructor, the assignment methods, the fluent methods, the
/// accessors and the terminal methods of the builder.
pub open spec fn builder_source(shape: BuilderShapeView) -> Seq<char> {
    types_text(
            shape.name,
            statement_type_text(shape.mode),
            count_field_text(shape.mode),
            parts_text(Part::Storage, shape.slots),
            shape.params_name,
            pairs_text(shape.params_accessors),
            statement_start_text(shape.mode),
            count_init_text(shape.mode),
            parts_text(Part::Init, shape.slots),
            sets_text(shape.set_methods),
            parts_text(Part::Method, shape.slots),
            parts_text(Part::Accessors, shape.slots),
            terminals_text(
            shape.mode,
            shape.params_name,
            parts_text(Part::Move, shape.slots),
        ),
        )
}

/// Writes out the source of the builder type of a shape and of its snapshot
/// type.
pub fn render_builder(shape: &BuilderShape) -> (out: String)
    ensures
        out@ == builder_source(shape@),
{
    let storages = render_parts(Part::Storage, &shape.slots);
    let inits = render_parts(Part::Init, &shape.slots);
    let moves = render_parts(Part::Move, &shape.slots);
    let methods = render_parts(Part::Method, &shape.slots);
    let accessors = render_parts(Part::Accessors, &shape.slots);
    let pairs = render_pairs(&shape.params_accessors);
    let sets = render_sets(&shape.set_methods);
    let terminals = render_terminals(shape.mode, shape.params_name.as_str(), moves.as_str());
    types(
            shape.name.as_str(),
            statement_type(shape.mode),
            count_field(shape.mode),
            storages.as_str(),
            shape.params_name.as_str(),
            pairs.as_str(),
            statement_start(shape.mode),
            count_init(shape.mode),
            inits.as_str(),
            sets.as_str(),
            methods.as_str(),
            accessors.as_str(),
            terminals.as_str(),
        )
}

} // verus!
