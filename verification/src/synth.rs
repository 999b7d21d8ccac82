//! Synthesising the shape of a builder from a normalised schema.
//!
//! For every field and every operation the schema allows for the kind at
//! hand, one storage slot is laid out together with what is bound to it: the
//! fluent method that fills it, and the accessor pair that reads it, on the
//! builder and on its snapshot. A word that names no operation stops the
//! synthesis: there is no partial shape.

use vstd::prelude::*;
use vstd::string::*;

use crate::schema::{
    collect, collected, ModelInfoField, ModelInfoFieldView, SchemaError, SchemaErrorView,
};
use crate::decl::{EntityDecl, EntityDeclView};
use crate::mode::Mode;
use crate::ops::{OpKind, ValueShape};
use crate::text::{lemma_push_deep_view, to_camel, upper_camel_case};

verus! {

/// The accessor pair of one storage slot: `is_<field>_<op>` tells whether the
/// slot is set, `get_<field>_<op>` reads it.
#[derive(Clone, Debug, PartialEq, Eq)]
pub struct Accessors {
    pub is_name: String,
    pub get_name: String,
    /// The name of the slot that the pair reads: `<field>_<op>_val`.
    pub storage: String,
    /// The type of the field, as written.
    pub ty: String,
    /// What the getter hands out: one value, a list, or a pair.
    pub shape: ValueShape,
}

/// The mathematical value of an [`Accessors`].
pub struct AccessorsView {
    pub is_name: Seq<char>,
    pub get_name: Seq<char>,
    pub storage: Seq<char>,
    pub ty: Seq<char>,
    pub shape: ValueShape,
}

impl View for Accessors {
    type V = AccessorsView;

    open spec fn view(&self) -> AccessorsView {
        AccessorsView {
            is_name: self.is_name@,
            get_name: self.get_name@,
            storage: self.storage@,
            ty: self.ty@,
            shape: self.shape,
        }
    }
}

impl DeepView for Accessors {
    type V = AccessorsView;

    open spec fn deep_view(&self) -> AccessorsView {
        self@
    }
}

/// One storage slot and what is bound to it.
#[derive(Clone, Debug, PartialEq, Eq)]
pub struct WherePieces {
    pub field: String,
    /// The type of the field, as written.
    pub ty: String,
    pub op: OpKind,
    /// The column the predicate is about: the field in upper camel case.
    pub column: String,
    /// The name of the slot: `<field>_<op>_val`.
    pub storage: String,
    /// The name of the fluent method: `<field>_<op>`.
    pub method: String,
    pub accessors: Accessors,
}

/// The mathematical value of a [`WherePieces`].
pub struct WherePiecesView {
    pub field: Seq<char>,
    pub ty: Seq<char>,
    pub op: OpKind,
    pub column: Seq<char>,
    pub storage: Seq<char>,
    pub method: Seq<char>,
    pub accessors: AccessorsView,
}

impl View for WherePieces {
    type V = WherePiecesView;

    open spec fn view(&self) -> WherePiecesView {
        WherePiecesView {
            field: self.field@,
            ty: self.ty@,
            op: self.op,
            column: self.column@,
            storage: self.storage@,
            method: self.method@,
            accessors: self.accessors@,
        }
    }
}

impl DeepView for WherePieces {
    type V = WherePiecesView;

    open spec fn deep_view(&self) -> WherePiecesView {
        self@
    }
}

/// The assignment method of a field that an update may set.
#[derive(Clone, Debug, PartialEq, Eq)]
pub struct SetMethod {
    pub field: String,
    /// The type of the field, as written.
    pub ty: String,
    /// The column that is assigned: the field in upper camel case.
    pub column: String,
    /// The name of the method: `set_<field>`.
    pub method: String,
}

/// The mathematical value of a [`SetMethod`].
pub struct SetMethodView {
    pub field: Seq<char>,
    pub ty: Seq<char>,
    pub column: Seq<char>,
    pub method: Seq<char>,
}

impl View for SetMethod {
    type V = SetMethodView;

    open spec fn view(&self) -> SetMethodView {
        SetMethodView {
            field: self.field@,
            ty: self.ty@,
            column: self.column@,
            method: self.method@,
        }
    }
}

impl DeepView for SetMethod {
    type V = SetMethodView;

    open spec fn deep_view(&self) -> SetMethodView {
        self@
    }
}

/// The shape of the builder of one kind for one entity, and of its snapshot.
#[derive(Clone, Debug, PartialEq, Eq)]
pub struct BuilderShape {
    pub mode: Mode,
    /// The name of the builder type: the entity prefix and the kind.
    pub name: String,
    /// The name of the snapshot type: the builder's name and `Params`.
    pub params_name: String,
    /// The storage slots, by field and then by operation, as declared.
    pub slots: Vec<WherePieces>,
    /// The accessor pairs of the snapshot, one per slot.
    pub params_accessors: Vec<Accessors>,
    /// The assignment methods: of an update only.
    pub set_methods: Vec<SetMethod>,
}

/// The mathematical value of a [`BuilderShape`].
pub struct BuilderShapeView {
    pub mode: Mode,
    pub name: Seq<char>,
    pub params_name: Seq<char>,
    pub slots: Seq<WherePiecesView>,
    pub params_accessors: Seq<AccessorsView>,
    pub set_methods: Seq<SetMethodView>,
}

impl View for BuilderShape {
    type V = BuilderShapeView;

    open spec fn view(&self) -> BuilderShapeView {
        BuilderShapeView {
            mode: self.mode,
            name: self.name@,
            params_name: self.params_name@,
            slots: self.slots.deep_view(),
            params_accessors: self.params_accessors.deep_view(),
            set_methods: self.set_methods.deep_view(),
        }
    }
}

/// The accessor pair for a field and an operation.
pub open spec fn accessors_of(field: Seq<char>, ty: Seq<char>, op: OpKind) -> AccessorsView {
    AccessorsView {
        is_name: "is_"@ + field + "_"@ + op.token(),
        get_name: "get_"@ + field + "_"@ + op.token(),
        storage: field + "_"@ + op.token() + "_val"@,
        ty,
        shape: op.shape(),
    }
}

/// The slot for a field and an operation on a column, with all that is bound
/// to it.
pub open spec fn pieces_on(
    field: Seq<char>,
    ty: Seq<char>,
    op: OpKind,
    column: Seq<char>,
) -> WherePiecesView {
    WherePiecesView {
        field,
        ty,
        op,
        column,
        storage: field + "_"@ + op.token() + "_val"@,
        method: field + "_"@ + op.token(),
        accessors: accessors_of(field, ty, op),
    }
}

/// The slot for a field and an operation word: the slot for the operation
/// that the word names, on the column called like the field in upper camel
/// case. A word that names no operation has none.
pub open spec fn where_pieces(field: Seq<char>, ty: Seq<char>, word: Seq<char>) -> Result<
    WherePiecesView,
    SchemaErrorView,
> {
    match OpKind::from_token(word) {
        None => Err(SchemaErrorView::UnsupportedOp { field, op: word }),
        Some(op) => Ok(pieces_on(field, ty, op, upper_camel_case(field))),
    }
}

/// The accessor pair of the snapshot for a field and an operation word. A
/// word that names no operation has none.
pub open spec fn params_accessors(field: Seq<char>, ty: Seq<char>, word: Seq<char>) -> Option<
    AccessorsView,
> {
    match OpKind::from_token(word) {
        None => None,
        Some(op) => Some(accessors_of(field, ty, op)),
    }
}

/// The assignment method for a field, on a column.
pub open spec fn set_method_on(
    field: Seq<char>,
    ty: Seq<char>,
    column: Seq<char>,
) -> SetMethodView {
    SetMethodView { field, ty, column, method: "set_"@ + field }
}

/// The assignment method for a field: on the column called like the field in
/// upper camel case.
pub open spec fn set_method(field: Seq<char>, ty: Seq<char>) -> SetMethodView {
    set_method_on(field, ty, upper_camel_case(field))
}

/// The accessor pair for a field and an operation.
fn gen_accessors(field: &str, ty: &str, op: OpKind) -> (out: Accessors)
    ensures
        out@ == accessors_of(field@, ty@, op),
{
    Accessors {
        is_name: String::from_str("is_").concat(field).concat("_").concat(op.as_str()),
        get_name: String::from_str("get_").concat(field).concat("_").concat(op.as_str()),
        storage: String::from_str(field).concat("_").concat(op.as_str()).concat("_val"),
        ty: String::from_str(ty),
        shape: op.value_shape(),
    }
}

/// Lays out the storage slot for a field and an operation on a given column:
/// the slot `<field>_<op>_val`, the fluent method `<field>_<op>` and the
/// accessor pair `is_<field>_<op>` and `get_<field>_<op>`.
pub fn pieces_for(field: &str, ty: &str, op: OpKind, column: String) -> (out: WherePieces)
    ensures
        out@ == pieces_on(field@, ty@, op, column@),
{
    WherePieces {
        field: String::from_str(field),
        ty: String::from_str(ty),
        op,
        column,
        storage: String::from_str(field).concat("_").concat(op.as_str()).concat("_val"),
        method: String::from_str(field).concat("_").concat(op.as_str()),
        accessors: gen_accessors(field, ty, op),
    }
}

/// Lays out the storage slot for one field and one operation word, with the
/// fluent method and the accessor pair bound to it.
///
/// The word must name one of the eleven operations: any other word is an
/// error that names the field and the word.
pub fn gen_where_pieces(field: &str, ty: &str, op: &str) -> (out: Result<WherePieces, SchemaError>)
    ensures
        match where_pieces(field@, ty@, op@) {
            Ok(p) => out matches Ok(got) && got@ == p,
            Err(e) => out matches Err(err) && err@ == e,
        },
{
    match OpKind::parse(op) {
        None => Err(
            SchemaError::UnsupportedOp { field: String::from_str(field), op: String::from_str(op) },
        ),
        Some(kind) => Ok(pieces_for(field, ty, kind, to_camel(field))),
    }
}

/// The accessor pair that the snapshot has for one field and one operation
/// word, or `None` where the word names no operation.
pub fn gen_params_accessors(field: &str, ty: &str, op: &str) -> (out: Option<Accessors>)
    ensures
        out.deep_view() == params_accessors(field@, ty@, op@),
{
    match OpKind::parse(op) {
        None => None,
        Some(kind) => Some(gen_accessors(field, ty, kind)),
    }
}

/// The assignment method `set_<field>` of a field, on a given column.
pub fn set_method_for(field: &str, ty: &str, column: String) -> (out: SetMethod)
    ensures
        out@ == set_method_on(field@, ty@, column@),
{
    SetMethod {
        field: String::from_str(field),
        ty: String::from_str(ty),
        column,
        method: String::from_str("set_").concat(field),
    }
}

/// The assignment method `set_<field>` of a field that an update may set.
pub fn gen_set_method(field: &str, ty: &str) -> (out: SetMethod)
    ensures
        out@ == set_method(field@, ty@),
{
    set_method_for(field, ty, to_camel(field))
}

/// The slots laid out so far, followed by one slot per operation word of a
/// field, first to last; the first word that names no operation decides the
/// error.
pub open spec fn slots_with_words(
    slots: Seq<WherePiecesView>,
    field: Seq<char>,
    ty: Seq<char>,
    words: Seq<Seq<char>>,
) -> Result<Seq<WherePiecesView>, SchemaErrorView>
    decreases words.len(),
{
    if words.len() == 0 {
        Ok(slots)
    } else {
        match where_pieces(field, ty, words[0]) {
            Err(e) => Err(e),
            Ok(pieces) => slots_with_words(slots.push(pieces), field, ty, words.drop_first()),
        }
    }
}

/// The slots laid out so far, followed by the slots of each field for the
/// kind at hand, first field to last.
pub open spec fn slots_with_fields(
    slots: Seq<WherePiecesView>,
    mode: Mode,
    fields: Seq<ModelInfoFieldView>,
) -> Result<Seq<WherePiecesView>, SchemaErrorView>
    decreases fields.len(),
{
    if fields.len() == 0 {
        Ok(slots)
    } else {
        match slots_with_words(slots, fields[0].ident, fields[0].ty, fields[0].perms.ops(mode)) {
            Err(e) => Err(e),
            Ok(next) => slots_with_fields(next, mode, fields.drop_first()),
        }
    }
}

/// The slots of a builder of the given kind over the given fields.
pub open spec fn shape_slots(mode: Mode, fields: Seq<ModelInfoFieldView>) -> Result<
    Seq<WherePiecesView>,
    SchemaErrorView,
> {
    slots_with_fields(Seq::empty(), mode, fields)
}

/// The assignment methods of an update builder: one for each field that
/// allows assignment, in field order.
pub open spec fn shape_sets(fields: Seq<ModelInfoFieldView>) -> Seq<SetMethodView>
    decreases fields.len(),
{
    if fields.len() == 0 {
        Seq::empty()
    } else if fields.last().perms.update_set {
        shape_sets(fields.drop_last()).push(set_method(fields.last().ident, fields.last().ty))
    } else {
        shape_sets(fields.drop_last())
    }
}

/// The accessor pairs of the given slots, in order.
pub open spec fn slot_accessors(slots: Seq<WherePiecesView>) -> Seq<AccessorsView> {
    Seq::new(slots.len(), |i: int| slots[i].accessors)
}

/// The shape of the builder called `name`, of the given kind, over the given
/// fields.
pub open spec fn shape_of(mode: Mode, name: Seq<char>, fields: Seq<ModelInfoFieldView>) -> Result<
    BuilderShapeView,
    SchemaErrorView,
> {
    match shape_slots(mode, fields) {
        Err(e) => Err(e),
        Ok(slots) => Ok(
            BuilderShapeView {
                mode,
                name,
                params_name: name + "Params"@,
                slots,
                params_accessors: slot_accessors(slots),
                set_methods: if mode == Mode::Update {
                    shape_sets(fields)
                } else {
                    Seq::empty()
                },
            },
        ),
    }
}

/// The name of the builder type of a kind for an entity prefix.
pub open spec fn builder_name_of(prefix: Seq<char>, mode: Mode) -> Seq<char> {
    prefix + mode.suffix()
}

/// The shape that a declaration expands to for a kind.
pub open spec fn expanded(decl: EntityDeclView, mode: Mode) -> Result<
    BuilderShapeView,
    SchemaErrorView,
> {
    match collected(decl) {
        Err(e) => Err(e),
        Ok((prefix, fields)) => shape_of(mode, builder_name_of(prefix, mode), fields),
    }
}

/// Lays out the shape of the builder called `name`, of the given kind.
fn build_shape(mode: Mode, name: &str, fields: &Vec<ModelInfoField>) -> (out: Result<
    BuilderShape,
    SchemaError,
>)
    ensures
        match shape_of(mode, name@, fields.deep_view()) {
            Ok(shape) => out matches Ok(got) && got@ == shape,
            Err(e) => out matches Err(err) && err@ == e,
        },
{
    let mut slots: Vec<WherePieces> = Vec::new();
    let mut accessors: Vec<Accessors> = Vec::new();
    let mut sets: Vec<SetMethod> = Vec::new();
    let ghost all = fields.deep_view();
    let mut i: usize = 0;
    proof {
        assert(all.skip(0) =~= all);
        assert(all.take(0) =~= Seq::empty());
        assert(slots.deep_view() =~= Seq::empty());
        assert(accessors.deep_view() =~= slot_accessors(slots.deep_view()));
        assert(sets.deep_view() =~= Seq::empty());
    }
    while i < fields.len()
        invariant
            i <= fields.len(),
            all == fields.deep_view(),
            shape_slots(mode, all) == slots_with_fields(
                slots.deep_view(),
                mode,
                all.skip(i as int),
            ),
            accessors.deep_view() == slot_accessors(slots.deep_view()),
            sets.deep_view() == if mode == Mode::Update {
                shape_sets(all.take(i as int))
            } else {
                Seq::empty()
            },
        decreases fields.len() - i,
    {
        let f = &fields[i];
        let words = match mode {
            Mode::Select => &f.perms.select_where,
            Mode::Update => &f.perms.update_where,
            Mode::Delete => &f.perms.delete_where,
        };
        let ghost field = all[i as int];
        let ghost ops = words.deep_view();
        proof {
            assert(all.skip(i as int).drop_first() =~= all.skip(i + 1));
            assert(all.skip(i as int)[0] == field);
            assert(field == f@);
            assert(ops == field.perms.ops(mode));
            assert(ops.skip(0) =~= ops);
        }
        let ghost start = slots.deep_view();
        let mut j: usize = 0;
        while j < words.len()
            invariant
                j <= words.len(),
                all == fields.deep_view(),
                ops == words.deep_view(),
                field == f@,
                slots_with_words(start, field.ident, field.ty, ops) == slots_with_words(
                    slots.deep_view(),
                    field.ident,
                    field.ty,
                    ops.skip(j as int),
                ),
                shape_slots(mode, all) == slots_with_fields(start, mode, all.skip(i as int)),
                all.skip(i as int).len() > 0,
                all.skip(i as int)[0] == field,
                ops == field.perms.ops(mode),
                accessors.deep_view() == slot_accessors(slots.deep_view()),
            decreases words.len() - j,
        {
            proof {
                assert(ops.skip(j as int).drop_first() =~= ops.skip(j + 1));
                assert(ops.skip(j as int)[0] == words@[j as int]@);
            }
            let word = words[j].as_str();
            match gen_where_pieces(f.ident.as_str(), f.ty.as_str(), word) {
                Err(e) => {
                    return Err(e);
                },
                Ok(pieces) => {
                    // The snapshot reads the same slot: a word that has pieces has accessors.
                    let pair = gen_params_accessors(f.ident.as_str(), f.ty.as_str(), word);
                    if let Some(pair) = pair {
                        let ghost slots_before = slots;
                        let ghost accessors_before = accessors;
                        slots.push(pieces);
                        accessors.push(pair);
                        proof {
                            lemma_push_deep_view(slots_before, slots, pieces);
                            lemma_push_deep_view(accessors_before, accessors, pair);
                            assert(accessors.deep_view() =~= slot_accessors(slots.deep_view()));
                        }
                    }
                },
            }
            j += 1;
        }
        proof {
            assert(all.take(i + 1).drop_last() =~= all.take(i as int));
            assert(all.take(i + 1).last() == field);
        }
        if mode == Mode::Update && f.perms.update_set {
            let ghost sets_before = sets;
            let method = gen_set_method(f.ident.as_str(), f.ty.as_str());
            sets.push(method);
            proof {
                lemma_push_deep_view(sets_before, sets, method);
            }
        }
        i += 1;
    }
    proof {
        assert(all.take(i as int) =~= all);
    }
    Ok(
        BuilderShape {
            mode,
            name: String::from_str(name),
            params_name: String::from_str(name).concat("Params"),
            slots,
            params_accessors: accessors,
            set_methods: sets,
        },
    )
}

/// Synthesises the select builder called `name`: one slot for every
/// operation word in the fields' select lists.
pub fn build_select(name: &str, fields: &Vec<ModelInfoField>) -> (out: Result<
    BuilderShape,
    SchemaError,
>)
    ensures
        match shape_of(Mode::Select, name@, fields.deep_view()) {
            Ok(shape) => out matches Ok(got) && got@ == shape,
            Err(e) => out matches Err(err) && err@ == e,
        },
{
    build_shape(Mode::Select, name, fields)
}

/// Synthesises the update builder called `name`: one slot for every
/// operation word in the fields' update lists, and one assignment method for
/// every field that allows assignment.
pub fn build_update(name: &str, fields: &Vec<ModelInfoField>) -> (out: Result<
    BuilderShape,
    SchemaError,
>)
    ensures
        match shape_of(Mode::Update, name@, fields.deep_view()) {
            Ok(shape) => out matches Ok(got) && got@ == shape,
            Err(e) => out matches Err(err) && err@ == e,
        },
{
    build_shape(Mode::Update, name, fields)
}

/// Synthesises the delete builder called `name`: one slot for every
/// operation word in the fields' delete lists.
pub fn build_delete(name: &str, fields: &Vec<ModelInfoField>) -> (out: Result<
    BuilderShape,
    SchemaError,
>)
    ensures
        match shape_of(Mode::Delete, name@, fields.deep_view()) {
            Ok(shape) => out matches Ok(got) && got@ == shape,
            Err(e) => out matches Err(err) && err@ == e,
        },
{
    build_shape(Mode::Delete, name, fields)
}

/// The name of the builder type of a kind for an entity prefix: `DemoItem`
/// and the select kind give `DemoItemSelect`.
pub fn builder_name(prefix: &str, mode: Mode) -> (name: String)
    ensures
        name@ == builder_name_of(prefix@, mode),
{
    String::from_str(prefix).concat(mode.type_suffix())
}

/// Reads an entity declaration and synthesises its builder of the given
/// kind.
///
/// Fails where the declaration is malformed, and where a permission list for
/// this kind holds a word that names no operation.
pub fn expand(decl: &EntityDecl, mode: Mode) -> (out: Result<BuilderShape, SchemaError>)
    ensures
        match expanded(decl@, mode) {
            Ok(shape) => out matches Ok(got) && got@ == shape,
            Err(e) => out matches Err(err) && err@ == e,
        },
{
    let (entity_prefix, fields) = match collect(decl) {
        Ok(v) => v,
        Err(err) => {
            return Err(err);
        },
    };
    let name = builder_name(entity_prefix.as_str(), mode);
    match mode {
        Mode::Select => build_select(name.as_str(), &fields),
        Mode::Update => build_update(name.as_str(), &fields),
        Mode::Delete => build_delete(name.as_str(), &fields),
    }
}

/// Derives the select builder of an entity declaration.
pub fn derive_select_builder(input: &EntityDecl) -> (out: Result<BuilderShape, SchemaError>)
    ensures
        match expanded(input@, Mode::Select) {
            Ok(shape) => out matches Ok(got) && got@ == shape,
            Err(e) => out matches Err(err) && err@ == e,
        },
{
    expand(input, Mode::Select)
}

/// Derives the update builder of an entity declaration: the builder that
/// insists on an assignment and on a filter.
pub fn derive_update_builder(input: &EntityDecl) -> (out: Result<BuilderShape, SchemaError>)
    ensures
        match expanded(input@, Mode::Update) {
            Ok(shape) => out matches Ok(got) && got@ == shape,
            Err(e) => out matches Err(err) && err@ == e,
        },
{
    expand(input, Mode::Update)
}

/// Derives the delete builder of an entity declaration: the builder that
/// insists on a filter.
pub fn derive_delete_builder(input: &EntityDecl) -> (out: Result<BuilderShape, SchemaError>)
    ensures
        match expanded(input@, Mode::Delete) {
            Ok(shape) => out matches Ok(got) && got@ == shape,
            Err(e) => out matches Err(err) && err@ == e,
        },
{
    expand(input, Mode::Delete)
}

} // verus!
