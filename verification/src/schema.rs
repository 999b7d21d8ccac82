//! Reading an entity declaration into a normalised schema: the entity prefix
//! and, for each field, the operations it is allowed to take part in.

use vstd::prelude::*;
use vstd::string::*;

use crate::decl::{
    lemma_list_view, DeclBody, DeclBodyView, EntityDecl, EntityDeclView, FieldDeclView, FieldsDecl,
    FieldsDeclView, MetaArgs, MetaArgsView, MetaItem, MetaItemView,
};
use crate::mode::Mode;
use crate::text::{lemma_push_deep_view, same_text, to_camel, upper_camel_case};

verus! {

/// Why a declaration yields no schema, or a schema no builder.
#[derive(Clone, Debug, PartialEq, Eq)]
pub enum SchemaError {
    /// The declaration is an enum or a union.
    NotAStruct,
    /// The struct names no field: its fields are positional, or it has none.
    ExpectedNamedFields,
    /// A permission block, a context or a `where` is not followed by a
    /// parenthesised list.
    ExpectedArguments,
    /// A context or a `where` is followed by an empty list.
    EmptyArguments,
    /// An operation word or `set` is followed by arguments or a value.
    UnexpectedArguments,
    /// `table_name` is not followed by a string literal.
    ExpectedText,
    /// A permission list names an operation that does not exist.
    UnsupportedOp { field: String, op: String },
}

/// The mathematical value of a [`SchemaError`].
pub enum SchemaErrorView {
    NotAStruct,
    ExpectedNamedFields,
    ExpectedArguments,
    EmptyArguments,
    UnexpectedArguments,
    ExpectedText,
    UnsupportedOp { field: Seq<char>, op: Seq<char> },
}

impl View for SchemaError {
    type V = SchemaErrorView;

    open spec fn view(&self) -> SchemaErrorView {
        match *self {
            SchemaError::NotAStruct => SchemaErrorView::NotAStruct,
            SchemaError::ExpectedNamedFields => SchemaErrorView::ExpectedNamedFields,
            SchemaError::ExpectedArguments => SchemaErrorView::ExpectedArguments,
            SchemaError::EmptyArguments => SchemaErrorView::EmptyArguments,
            SchemaError::UnexpectedArguments => SchemaErrorView::UnexpectedArguments,
            SchemaError::ExpectedText => SchemaErrorView::ExpectedText,
            SchemaError::UnsupportedOp { field, op } => SchemaErrorView::UnsupportedOp {
                field: field@,
                op: op@,
            },
        }
    }
}

impl SchemaErrorView {
    /// The diagnostic of the error.
    pub open spec fn text(self) -> Seq<char> {
        match self {
            SchemaErrorView::NotAStruct => {
                "Select/Update/Delete Builder can only be derived for structs"@
            },
            SchemaErrorView::ExpectedNamedFields => "Expected named fields"@,
            SchemaErrorView::ExpectedArguments => "expected attribute arguments in parentheses"@,
            SchemaErrorView::EmptyArguments => "expected nested attribute"@,
            SchemaErrorView::UnexpectedArguments => "expected `,`"@,
            SchemaErrorView::ExpectedText => "expected string literal"@,
            SchemaErrorView::UnsupportedOp { field, op } => "unsupported op: "@ + op,
        }
    }
}

impl SchemaError {
    /// The diagnostic of the error. For a word that names no operation it
    /// holds the word.
    pub fn message(&self) -> (out: String)
        ensures
            out@ == self@.text(),
    {
        match self {
            SchemaError::NotAStruct => String::from_str(
                "Select/Update/Delete Builder can only be derived for structs",
            ),
            SchemaError::ExpectedNamedFields => String::from_str("Expected named fields"),
            SchemaError::ExpectedArguments => String::from_str(
                "expected attribute arguments in parentheses",
            ),
            SchemaError::EmptyArguments => String::from_str("expected nested attribute"),
            SchemaError::UnexpectedArguments => String::from_str("expected `,`"),
            SchemaError::ExpectedText => String::from_str("expected string literal"),
            SchemaError::UnsupportedOp { field, op } => String::from_str(
                "unsupported op: ",
            ).concat(op.as_str()),
        }
    }
}

/// Per-field permissions: the operation words allowed when filtering a
/// select, an update and a delete, and whether an update may assign the field.
#[derive(Clone, Debug, PartialEq, Eq)]
pub struct FieldPerms {
    pub select_where: Vec<String>,
    pub update_where: Vec<String>,
    pub update_set: bool,
    pub delete_where: Vec<String>,
}

/// The mathematical value of a [`FieldPerms`].
pub struct FieldPermsView {
    pub select_where: Seq<Seq<char>>,
    pub update_where: Seq<Seq<char>>,
    pub update_set: bool,
    pub delete_where: Seq<Seq<char>>,
}

impl View for FieldPerms {
    type V = FieldPermsView;

    open spec fn view(&self) -> FieldPermsView {
        FieldPermsView {
            select_where: self.select_where.deep_view(),
            update_where: self.update_where.deep_view(),
            update_set: self.update_set,
            delete_where: self.delete_where.deep_view(),
        }
    }
}

impl FieldPermsView {
    /// No operation allowed anywhere.
    pub open spec fn empty() -> FieldPermsView {
        FieldPermsView {
            select_where: Seq::empty(),
            update_where: Seq::empty(),
            update_set: false,
            delete_where: Seq::empty(),
        }
    }
}

impl Default for FieldPerms {
    fn default() -> (perms: FieldPerms)
        ensures
            perms@ == FieldPermsView::empty(),
    {
        let perms = FieldPerms {
            select_where: Vec::new(),
            update_where: Vec::new(),
            update_set: false,
            delete_where: Vec::new(),
        };
        assert(perms@.select_where =~= Seq::empty());
        assert(perms@.update_where =~= Seq::empty());
        assert(perms@.delete_where =~= Seq::empty());
        perms
    }
}

/// The words of a list whose items are all bare, in order; a list with an
/// item that carries arguments or a value is malformed.
pub open spec fn word_list(items: Seq<MetaItemView>) -> Result<Seq<Seq<char>>, SchemaErrorView> {
    if forall|i: int| 0 <= i < items.len() ==> (#[trigger] items[i]).args is Bare {
        Ok(Seq::new(items.len(), |i: int| items[i].name))
    } else {
        Err(SchemaErrorView::UnexpectedArguments)
    }
}

/// The items between the parentheses that must follow a context or a `where`.
pub open spec fn nested_items(args: MetaArgsView) -> Result<Seq<MetaItemView>, SchemaErrorView> {
    match args {
        MetaArgsView::List(items) => if items.len() == 0 {
            Err(SchemaErrorView::EmptyArguments)
        } else {
            Ok(items)
        },
        _ => Err(SchemaErrorView::ExpectedArguments),
    }
}

/// The operation words that a `where` followed by `args` lists.
pub open spec fn where_ops(args: MetaArgsView) -> Result<Seq<Seq<char>>, SchemaErrorView> {
    match nested_items(args) {
        Err(e) => Err(e),
        Ok(items) => word_list(items),
    }
}

/// Reads the operation words that follow a `where` and appends them to
/// `target`. On a malformed list `target` is left as it was.
#[verifier::loop_isolation(false)]
pub fn parse_ops_nested(args: &MetaArgs, target: &mut Vec<String>) -> (done: Result<
    (),
    SchemaError,
>)
    ensures
        match where_ops(args@) {
            Ok(words) => done is Ok && final(target).deep_view() == old(target).deep_view()
                + words,
            Err(e) => done matches Err(err) && err@ == e && final(target).deep_view() == old(
                target,
            ).deep_view(),
        },
{
    match args {
        MetaArgs::List(items) => {
            let ghost all = items.deep_view();
            proof {
                lemma_list_view(*items);
            }
            if items.len() == 0 {
                return Err(SchemaError::EmptyArguments);
            }
            let mut words: Vec<String> = Vec::new();
            proof {
                assert(words.deep_view() =~= Seq::new(0nat, |k: int| all[k].name));
            }
            let mut i: usize = 0;
            while i < items.len()
                invariant
                    i <= items.len(),
                    forall|k: int| 0 <= k < i ==> (#[trigger] all[k]).args is Bare,
                    words.deep_view() == Seq::new(i as nat, |k: int| all[k].name),
                decreases items.len() - i,
            {
                proof {
                    assert(all[i as int] == items@[i as int]@);
                }
                match &items[i].args {
                    MetaArgs::Bare => {
                        let ghost before = words;
                        words.push(items[i].name.clone());
                        proof {
                            lemma_push_deep_view(before, words, items@[i as int].name);
                            assert(words.deep_view() =~= Seq::new(
                                (i + 1) as nat,
                                |k: int| all[k].name,
                            ));
                        }
                    },
                    _ => {
                        proof {
                            assert(!(all[i as int].args is Bare));
                        }
                        return Err(SchemaError::UnexpectedArguments);
                    },
                }
                i += 1;
            }
            let mut j: usize = 0;
            while j < words.len()
                invariant
                    j <= words.len(),
                    target.deep_view() == old(target).deep_view() + words.deep_view().take(
                        j as int,
                    ),
                decreases words.len() - j,
            {
                let ghost before = *target;
                target.push(words[j].clone());
                proof {
                    lemma_push_deep_view(before, *target, words@[j as int]);
                    assert(words.deep_view().take(j + 1) =~= words.deep_view().take(
                        j as int,
                    ).push(words@[j as int]@));
                    assert(target.deep_view() =~= old(target).deep_view()
                        + words.deep_view().take(j + 1));
                }
                j += 1;
            }
            proof {
                assert(words.deep_view().take(j as int) =~= words.deep_view());
            }
            Ok(())
        },
        _ => Err(SchemaError::ExpectedArguments),
    }
}

impl FieldPermsView {
    /// These permissions with `words` appended to the filter list of `mode`.
    pub open spec fn with_ops(self, mode: Mode, words: Seq<Seq<char>>) -> FieldPermsView {
        match mode {
            Mode::Select => FieldPermsView { select_where: self.select_where + words, ..self },
            Mode::Update => FieldPermsView { update_where: self.update_where + words, ..self },
            Mode::Delete => FieldPermsView { delete_where: self.delete_where + words, ..self },
        }
    }

    /// The filter list of `mode`.
    pub open spec fn ops(self, mode: Mode) -> Seq<Seq<char>> {
        match mode {
            Mode::Select => self.select_where,
            Mode::Update => self.update_where,
            Mode::Delete => self.delete_where,
        }
    }
}

/// The kind whose permission block a word opens, if it opens one.
pub open spec fn context_of(name: Seq<char>) -> Option<Mode> {
    if name == "select"@ {
        Some(Mode::Select)
    } else if name == "update"@ {
        Some(Mode::Update)
    } else if name == "delete"@ {
        Some(Mode::Delete)
    } else {
        None
    }
}

/// What one item inside the block of `mode` adds to `perms`: a `where`
/// appends its operation words, a bare `set` inside `update` sets the flag,
/// and any other item is passed over.
pub open spec fn context_item(perms: FieldPermsView, mode: Mode, item: MetaItemView) -> Result<
    FieldPermsView,
    SchemaErrorView,
> {
    if item.name == "where"@ {
        match where_ops(item.args) {
            Err(e) => Err(e),
            Ok(words) => Ok(perms.with_ops(mode, words)),
        }
    } else if mode == Mode::Update && item.name == "set"@ {
        match item.args {
            MetaArgsView::Bare => Ok(FieldPermsView { update_set: true, ..perms }),
            _ => Err(SchemaErrorView::UnexpectedArguments),
        }
    } else {
        Ok(perms)
    }
}

/// What the items inside the block of `mode` add to `perms`, first to last;
/// the first malformed item decides the error.
pub open spec fn context_items(
    perms: FieldPermsView,
    mode: Mode,
    items: Seq<MetaItemView>,
) -> Result<FieldPermsView, SchemaErrorView>
    decreases items.len(),
{
    if items.len() == 0 {
        Ok(perms)
    } else {
        match context_item(perms, mode, items[0]) {
            Err(e) => Err(e),
            Ok(next) => context_items(next, mode, items.drop_first()),
        }
    }
}

/// What one item of a permission attribute adds to `perms`: `select`,
/// `update` and `delete` open a block, and any other item is passed over.
pub open spec fn block_item(perms: FieldPermsView, item: MetaItemView) -> Result<
    FieldPermsView,
    SchemaErrorView,
> {
    match context_of(item.name) {
        None => Ok(perms),
        Some(mode) => match nested_items(item.args) {
            Err(e) => Err(e),
            Ok(items) => context_items(perms, mode, items),
        },
    }
}

/// What the items of a permission attribute add to `perms`, first to last.
pub open spec fn block_items(perms: FieldPermsView, items: Seq<MetaItemView>) -> Result<
    FieldPermsView,
    SchemaErrorView,
>
    decreases items.len(),
{
    if items.len() == 0 {
        Ok(perms)
    } else {
        match block_item(perms, items[0]) {
            Err(e) => Err(e),
            Ok(next) => block_items(next, items.drop_first()),
        }
    }
}

/// What one attribute of a field adds to `perms`. Only `sea_builder`
/// attributes count, and such an attribute must carry a list, which may be
/// empty.
pub open spec fn attr_perms(perms: FieldPermsView, attr: MetaItemView) -> Result<
    FieldPermsView,
    SchemaErrorView,
> {
    if attr.name == "sea_builder"@ {
        match attr.args {
            MetaArgsView::List(items) => block_items(perms, items),
            _ => Err(SchemaErrorView::ExpectedArguments),
        }
    } else {
        Ok(perms)
    }
}

/// What the attributes of a field add to `perms`, first to last.
pub open spec fn attrs_perms(perms: FieldPermsView, attrs: Seq<MetaItemView>) -> Result<
    FieldPermsView,
    SchemaErrorView,
>
    decreases attrs.len(),
{
    if attrs.len() == 0 {
        Ok(perms)
    } else {
        match attr_perms(perms, attrs[0]) {
            Err(e) => Err(e),
            Ok(next) => attrs_perms(next, attrs.drop_first()),
        }
    }
}

/// The permissions that the attributes of a field declare.
pub open spec fn field_perms(attrs: Seq<MetaItemView>) -> Result<FieldPermsView, SchemaErrorView> {
    attrs_perms(FieldPermsView::empty(), attrs)
}

/// Applies one item inside the block of `mode`.
fn parse_context_item(perms: FieldPerms, mode: Mode, item: &MetaItem) -> (out: Result<
    FieldPerms,
    SchemaError,
>)
    ensures
        match context_item(perms@, mode, item@) {
            Ok(p) => out matches Ok(got) && got@ == p,
            Err(e) => out matches Err(err) && err@ == e,
        },
{
    let mut perms = perms;
    if same_text(item.name.as_str(), "where") {
        let done = match mode {
            Mode::Select => parse_ops_nested(&item.args, &mut perms.select_where),
            Mode::Update => parse_ops_nested(&item.args, &mut perms.update_where),
            Mode::Delete => parse_ops_nested(&item.args, &mut perms.delete_where),
        };
        match done {
            Ok(()) => Ok(perms),
            Err(e) => Err(e),
        }
    } else if mode == Mode::Update && same_text(item.name.as_str(), "set") {
        match &item.args {
            MetaArgs::Bare => {
                perms.update_set = true;
                Ok(perms)
            },
            _ => Err(SchemaError::UnexpectedArguments),
        }
    } else {
        Ok(perms)
    }
}

/// Applies the items inside the block of `mode`, first to last.
fn parse_context(perms: FieldPerms, mode: Mode, items: &Vec<MetaItem>) -> (out: Result<
    FieldPerms,
    SchemaError,
>)
    ensures
        match context_items(perms@, mode, items.deep_view()) {
            Ok(p) => out matches Ok(got) && got@ == p,
            Err(e) => out matches Err(err) && err@ == e,
        },
{
    let ghost all = items.deep_view();
    let mut acc = perms;
    let mut i: usize = 0;
    proof {
        assert(all.skip(0) =~= all);
    }
    while i < items.len()
        invariant
            i <= items.len(),
            all == items.deep_view(),
            context_items(perms@, mode, all) == context_items(acc@, mode, all.skip(i as int)),
        decreases items.len() - i,
    {
        proof {
            assert(all.skip(i as int).drop_first() =~= all.skip(i + 1));
            assert(all.skip(i as int)[0] == items@[i as int]@);
        }
        match parse_context_item(acc, mode, &items[i]) {
            Ok(next) => {
                acc = next;
            },
            Err(e) => {
                return Err(e);
            },
        }
        i += 1;
    }
    Ok(acc)
}

/// The kind whose permission block a word opens, if it opens one.
fn parse_context_name(name: &str) -> (mode: Option<Mode>)
    ensures
        mode == context_of(name@),
{
    if same_text(name, "select") {
        Some(Mode::Select)
    } else if same_text(name, "update") {
        Some(Mode::Update)
    } else if same_text(name, "delete") {
        Some(Mode::Delete)
    } else {
        None
    }
}

/// Applies the items of one permission attribute, first to last.
fn parse_block(perms: FieldPerms, items: &Vec<MetaItem>) -> (out: Result<FieldPerms, SchemaError>)
    ensures
        match block_items(perms@, items.deep_view()) {
            Ok(p) => out matches Ok(got) && got@ == p,
            Err(e) => out matches Err(err) && err@ == e,
        },
{
    let ghost all = items.deep_view();
    let mut acc = perms;
    let mut i: usize = 0;
    proof {
        assert(all.skip(0) =~= all);
    }
    while i < items.len()
        invariant
            i <= items.len(),
            all == items.deep_view(),
            block_items(perms@, all) == block_items(acc@, all.skip(i as int)),
        decreases items.len() - i,
    {
        proof {
            assert(all.skip(i as int).drop_first() =~= all.skip(i + 1));
            assert(all.skip(i as int)[0] == items@[i as int]@);
        }
        match parse_context_name(items[i].name.as_str()) {
            None => {},
            Some(mode) => match &items[i].args {
                MetaArgs::List(nested) => {
                    proof {
                        lemma_list_view(*nested);
                    }
                    if nested.len() == 0 {
                        return Err(SchemaError::EmptyArguments);
                    }
                    match parse_context(acc, mode, nested) {
                        Ok(next) => {
                            acc = next;
                        },
                        Err(e) => {
                            return Err(e);
                        },
                    }
                },
                _ => {
                    return Err(SchemaError::ExpectedArguments);
                },
            },
        }
        i += 1;
    }
    Ok(acc)
}

/// Reads the permissions of a field from its attributes.
///
/// Every `sea_builder` attribute is read in turn: inside `select(..)`,
/// `update(..)` and `delete(..)` each `where(..)` appends its operation words
/// to the list of that kind, and a bare `set` inside `update(..)` allows
/// assignment. Other attributes and unknown names are passed over. The words
/// are collected as written: whether each names an operation is decided when a
/// builder is synthesised.
pub fn parse_sea_builder_attrs(attrs: &Vec<MetaItem>) -> (out: Result<FieldPerms, SchemaError>)
    ensures
        match field_perms(attrs.deep_view()) {
            Ok(p) => out matches Ok(got) && got@ == p,
            Err(e) => out matches Err(err) && err@ == e,
        },
{
    let ghost all = attrs.deep_view();
    let mut perms = FieldPerms::default();
    let mut i: usize = 0;
    proof {
        assert(all.skip(0) =~= all);
    }
    while i < attrs.len()
        invariant
            i <= attrs.len(),
            all == attrs.deep_view(),
            field_perms(all) == attrs_perms(perms@, all.skip(i as int)),
        decreases attrs.len() - i,
    {
        proof {
            assert(all.skip(i as int).drop_first() =~= all.skip(i + 1));
            assert(all.skip(i as int)[0] == attrs@[i as int]@);
        }
        if same_text(attrs[i].name.as_str(), "sea_builder") {
            match &attrs[i].args {
                MetaArgs::List(items) => {
                    proof {
                        lemma_list_view(*items);
                    }
                    match parse_block(perms, items) {
                        Ok(next) => {
                            perms = next;
                        },
                        Err(e) => {
                            return Err(e);
                        },
                    }
                },
                _ => {
                    return Err(SchemaError::ExpectedArguments);
                },
            }
        }
        i += 1;
    }
    Ok(perms)
}

/// A field of the normalised schema: its identifier, its type as written and
/// its permissions.
#[derive(Clone, Debug, PartialEq, Eq)]
pub struct ModelInfoField {
    pub ident: String,
    pub ty: String,
    pub perms: FieldPerms,
}

/// The mathematical value of a [`ModelInfoField`].
pub struct ModelInfoFieldView {
    pub ident: Seq<char>,
    pub ty: Seq<char>,
    pub perms: FieldPermsView,
}

impl View for ModelInfoField {
    type V = ModelInfoFieldView;

    open spec fn view(&self) -> ModelInfoFieldView {
        ModelInfoFieldView { ident: self.ident@, ty: self.ty@, perms: self.perms@ }
    }
}

impl DeepView for ModelInfoField {
    type V = ModelInfoFieldView;

    open spec fn deep_view(&self) -> ModelInfoFieldView {
        self@
    }
}

/// What one item of a `sea_orm` attribute of the entity does to the table
/// name found so far: `table_name = "text"` replaces it by the text, and any
/// other item is passed over.
pub open spec fn table_item(table: Option<Seq<char>>, item: MetaItemView) -> Result<
    Option<Seq<char>>,
    SchemaErrorView,
> {
    if item.name == "table_name"@ {
        match item.args {
            MetaArgsView::Text(name) => Ok(Some(name)),
            _ => Err(SchemaErrorView::ExpectedText),
        }
    } else {
        Ok(table)
    }
}

/// What the items of a `sea_orm` attribute do to the table name, first to
/// last.
pub open spec fn table_items(table: Option<Seq<char>>, items: Seq<MetaItemView>) -> Result<
    Option<Seq<char>>,
    SchemaErrorView,
>
    decreases items.len(),
{
    if items.len() == 0 {
        Ok(table)
    } else {
        match table_item(table, items[0]) {
            Err(e) => Err(e),
            Ok(next) => table_items(next, items.drop_first()),
        }
    }
}

/// What one attribute of the entity does to the table name. Only `sea_orm`
/// attributes count, and such an attribute must carry a list.
pub open spec fn table_attr(table: Option<Seq<char>>, attr: MetaItemView) -> Result<
    Option<Seq<char>>,
    SchemaErrorView,
> {
    if attr.name == "sea_orm"@ {
        match attr.args {
            MetaArgsView::List(items) => table_items(table, items),
            _ => Err(SchemaErrorView::ExpectedArguments),
        }
    } else {
        Ok(table)
    }
}

/// What the attributes of the entity do to the table name, first to last:
/// the last table name wins.
pub open spec fn table_attrs(table: Option<Seq<char>>, attrs: Seq<MetaItemView>) -> Result<
    Option<Seq<char>>,
    SchemaErrorView,
>
    decreases attrs.len(),
{
    if attrs.len() == 0 {
        Ok(table)
    } else {
        match table_attr(table, attrs[0]) {
            Err(e) => Err(e),
            Ok(next) => table_attrs(next, attrs.drop_first()),
        }
    }
}

/// The table name that the attributes of an entity declare, if they declare
/// one.
pub open spec fn declared_table(attrs: Seq<MetaItemView>) -> Result<
    Option<Seq<char>>,
    SchemaErrorView,
> {
    table_attrs(None, attrs)
}

/// The entity prefix for a declared table name: its upper camel case form,
/// or `Entity` where no table name is declared.
pub open spec fn entity_prefix(table: Option<Seq<char>>) -> Seq<char> {
    match table {
        Some(name) => upper_camel_case(name),
        None => "Entity"@,
    }
}

/// The schema fields that named field declarations give, in order; the first
/// field with malformed permissions decides the error.
pub open spec fn collected_fields(fields: Seq<FieldDeclView>) -> Result<
    Seq<ModelInfoFieldView>,
    SchemaErrorView,
>
    decreases fields.len(),
{
    if fields.len() == 0 {
        Ok(Seq::empty())
    } else {
        match collected_fields(fields.drop_last()) {
            Err(e) => Err(e),
            Ok(before) => match field_perms(fields.last().attrs) {
                Err(e) => Err(e),
                Ok(perms) => Ok(
                    before.push(
                        ModelInfoFieldView {
                            ident: fields.last().ident,
                            ty: fields.last().ty,
                            perms,
                        },
                    ),
                ),
            },
        }
    }
}

/// The entity prefix and the schema fields of a declaration.
///
/// The attributes of the entity are read first, then the body must be a
/// struct, then it must name at least one field, then each field's
/// permissions are read: the first of these to fail decides the error.
pub open spec fn collected(decl: EntityDeclView) -> Result<
    (Seq<char>, Seq<ModelInfoFieldView>),
    SchemaErrorView,
> {
    match declared_table(decl.attrs) {
        Err(e) => Err(e),
        Ok(table) => match decl.body {
            DeclBodyView::Struct(FieldsDeclView::Named(fields)) => if fields.len() == 0 {
                Err(SchemaErrorView::ExpectedNamedFields)
            } else {
                match collected_fields(fields) {
                    Err(e) => Err(e),
                    Ok(schema) => Ok((entity_prefix(table), schema)),
                }
            },
            DeclBodyView::Struct(_) => Err(SchemaErrorView::ExpectedNamedFields),
            _ => Err(SchemaErrorView::NotAStruct),
        },
    }
}

/// The schema fields are the declared fields, one for one and in order.
pub proof fn lemma_collected_fields_in_order(fields: Seq<FieldDeclView>)
    ensures
        collected_fields(fields) matches Ok(schema) ==> schema.len() == fields.len() && forall|
            i: int,
        |
            0 <= i < fields.len() ==> (#[trigger] schema[i]).ident == fields[i].ident
                && schema[i].ty == fields[i].ty && field_perms(fields[i].attrs) == Ok::<
                FieldPermsView,
                SchemaErrorView,
            >(schema[i].perms),
    decreases fields.len(),
{
    if fields.len() > 0 {
        lemma_collected_fields_in_order(fields.drop_last());
    }
}

/// A schema names at least one field, and its fields are those that the
/// declaration names, one for one and in declaration order.
pub proof fn law_schema_names_the_declared_fields(decl: EntityDeclView)
    ensures
        collected(decl) matches Ok(found) ==> decl.body matches DeclBodyView::Struct(
            FieldsDeclView::Named(fields),
        ) && fields.len() > 0 && found.1.len() == fields.len() && forall|i: int|
            0 <= i < fields.len() ==> (#[trigger] found.1[i]).ident == fields[i].ident
                && found.1[i].ty == fields[i].ty,
{
    match decl.body {
        DeclBodyView::Struct(FieldsDeclView::Named(fields)) => {
            lemma_collected_fields_in_order(fields);
        },
        _ => {},
    }
}

/// Once a field has malformed permissions, the fields have no schema.
pub proof fn lemma_collected_fields_fails_on(fields: Seq<FieldDeclView>, at: int)
    requires
        0 <= at < fields.len(),
        collected_fields(fields.take(at)) is Ok,
        field_perms(fields[at].attrs) is Err,
    ensures
        collected_fields(fields) is Err,
        collected_fields(fields)->Err_0 == field_perms(fields[at].attrs)->Err_0,
    decreases fields.len(),
{
    if fields.len() == at + 1 {
        assert(fields.drop_last() =~= fields.take(at));
    } else {
        assert(fields.drop_last().take(at) =~= fields.take(at));
        lemma_collected_fields_fails_on(fields.drop_last(), at);
    }
}

/// Reads the table name out of the items of one `sea_orm` attribute.
fn parse_table_items(table: Option<String>, items: &Vec<MetaItem>) -> (out: Result<
    Option<String>,
    SchemaError,
>)
    ensures
        match table_items(table.deep_view(), items.deep_view()) {
            Ok(t) => out matches Ok(got) && got.deep_view() == t,
            Err(e) => out matches Err(err) && err@ == e,
        },
{
    let ghost all = items.deep_view();
    let mut acc = table;
    let mut i: usize = 0;
    proof {
        assert(all.skip(0) =~= all);
    }
    while i < items.len()
        invariant
            i <= items.len(),
            all == items.deep_view(),
            table_items(table.deep_view(), all) == table_items(
                acc.deep_view(),
                all.skip(i as int),
            ),
        decreases items.len() - i,
    {
        proof {
            assert(all.skip(i as int).drop_first() =~= all.skip(i + 1));
            assert(all.skip(i as int)[0] == items@[i as int]@);
        }
        if same_text(items[i].name.as_str(), "table_name") {
            match &items[i].args {
                MetaArgs::Text(name) => {
                    acc = Some(name.clone());
                },
                _ => {
                    return Err(SchemaError::ExpectedText);
                },
            }
        }
        i += 1;
    }
    Ok(acc)
}

/// Reads the table name that the `sea_orm` attributes of an entity declare.
/// Where several do, the last one wins; `table_name` must be followed by a
/// string literal.
pub fn declared_table_name(attrs: &Vec<MetaItem>) -> (out: Result<Option<String>, SchemaError>)
    ensures
        match declared_table(attrs.deep_view()) {
            Ok(table) => out matches Ok(got) && got.deep_view() == table,
            Err(e) => out matches Err(err) && err@ == e,
        },
{
    let ghost all = attrs.deep_view();
    let mut table: Option<String> = None;
    let mut i: usize = 0;
    proof {
        assert(all.skip(0) =~= all);
    }
    while i < attrs.len()
        invariant
            i <= attrs.len(),
            all == attrs.deep_view(),
            declared_table(all) == table_attrs(table.deep_view(), all.skip(i as int)),
        decreases attrs.len() - i,
    {
        proof {
            assert(all.skip(i as int).drop_first() =~= all.skip(i + 1));
            assert(all.skip(i as int)[0] == attrs@[i as int]@);
        }
        if same_text(attrs[i].name.as_str(), "sea_orm") {
            match &attrs[i].args {
                MetaArgs::List(items) => {
                    proof {
                        lemma_list_view(*items);
                    }
                    match parse_table_items(table, items) {
                        Ok(next) => {
                            table = next;
                        },
                        Err(e) => {
                            return Err(e);
                        },
                    }
                },
                _ => {
                    return Err(SchemaError::ExpectedArguments);
                },
            }
        }
        i += 1;
    }
    Ok(table)
}

/// Collects the entity prefix and the fields' permissions from an entity
/// declaration.
///
/// The prefix is the upper camel case form of the declared table name
/// (`demo_item` gives `DemoItem`), or `Entity` where none is declared. An enum
/// or a union, a struct that names no field, and malformed permission syntax
/// are refused.
pub fn collect(decl: &EntityDecl) -> (out: Result<(String, Vec<ModelInfoField>), SchemaError>)
    ensures
        match collected(decl@) {
            Ok((prefix, schema)) => out matches Ok(got) && got.0@ == prefix
                && got.1.deep_view() == schema,
            Err(e) => out matches Err(err) && err@ == e,
        },
{
    let entity_prefix = match declared_table_name(&decl.attrs) {
        Err(e) => {
            return Err(e);
        },
        Ok(Some(table)) => to_camel(table.as_str()),
        Ok(None) => String::from_str("Entity"),
    };
    let fields = match &decl.body {
        DeclBody::Struct(fields) => fields,
        _ => {
            return Err(SchemaError::NotAStruct);
        },
    };
    let named = match fields {
        FieldsDecl::Named(named) => named,
        _ => {
            return Err(SchemaError::ExpectedNamedFields);
        },
    };
    if named.len() == 0 {
        return Err(SchemaError::ExpectedNamedFields);
    }
    let ghost all = named.deep_view();
    let mut fields_out: Vec<ModelInfoField> = Vec::new();
    let mut i: usize = 0;
    proof {
        assert(all.take(0) =~= Seq::empty());
        assert(fields_out.deep_view() =~= Seq::empty());
    }
    while i < named.len()
        invariant
            i <= named.len(),
            all == named.deep_view(),
            collected_fields(all.take(i as int)) == Ok::<Seq<ModelInfoFieldView>, SchemaErrorView>(
                fields_out.deep_view(),
            ),
            decl@.body == DeclBodyView::Struct(FieldsDeclView::Named(all)),
            all.len() > 0,
            declared_table(decl@.attrs) is Ok,
        decreases named.len() - i,
    {
        proof {
            assert(all.take(i + 1).drop_last() =~= all.take(i as int));
            assert(all[i as int] == named@[i as int]@);
        }
        let f = &named[i];
        match parse_sea_builder_attrs(&f.attrs) {
            Err(e) => {
                proof {
                    lemma_collected_fields_fails_on(all, i as int);
                }
                return Err(e);
            },
            Ok(perms) => {
                let ghost before = fields_out;
                let field = ModelInfoField { ident: f.ident.clone(), ty: f.ty.clone(), perms };
                fields_out.push(field);
                proof {
                    lemma_push_deep_view(before, fields_out, field);
                }
            },
        }
        i += 1;
    }
    proof {
        assert(all.take(i as int) =~= all);
    }
    Ok((entity_prefix, fields_out))
}

} // verus!
