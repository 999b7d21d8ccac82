//! Schema-driven query builders.
//!
//! An entity declaration lists fields and, for each field, the operations it may
//! take part in when rows are selected, updated or deleted. From it the crate
//! derives the shape of one builder per kind, and runs builders of that shape:
//! they accept exactly the declared operations, record every filter for
//! inspection, and refuse to finish an update or a delete that has no filter.
//!
//! - [`decl`]: entity declarations as plain values.
//! - [`schema`]: reading a declaration into the entity prefix and the
//!   permissions of each field.
//! - [`synth`]: laying out the shape of a builder: its slots, methods and
//!   accessors.
//! - [`render`]: writing a shape out as the source of a builder type.
//! - [`builder`]: running a builder of a shape.
//! - [`statement`], [`record`], [`value`], [`convert`], [`ops`], [`mode`],
//!   [`text`]: what builders are made of.
//! - [`laws`], [`permits`]: what holds of every builder and of every shape.

pub mod builder;
pub mod convert;
pub mod decl;
pub mod laws;
pub mod mode;
pub mod ops;
pub mod permits;
pub mod record;
pub mod render;
pub mod schema;
pub mod statement;
pub mod synth;
pub mod text;
pub mod value;

pub use builder::{Builder, CallError, Params, SeaOrmBuilderError};
pub use convert::IntoField;
pub use decl::{DeclBody, EntityDecl, FieldDecl, FieldsDecl, MetaArgs, MetaItem};
pub use mode::Mode;
pub use ops::{OpKind, ValueShape};
pub use record::{WhereParam, WhereValue};
pub use render::{render_builder, Part};
pub use schema::{
    collect, declared_table_name, parse_ops_nested, parse_sea_builder_attrs, FieldPerms,
    ModelInfoField, SchemaError,
};
pub use statement::{Clause, Direction, Statement};
pub use synth::{
    build_delete, build_select, build_update, builder_name, derive_delete_builder,
    derive_select_builder, derive_update_builder, expand, gen_params_accessors, gen_set_method,
    gen_where_pieces, pieces_for, set_method_for, Accessors, BuilderShape, SetMethod, WherePieces,
};
pub use text::to_camel;
pub use value::{FieldValue, SlotValue};
