//! Entity declarations as plain values.
//!
//! A declaration holds the attributes of the entity and its body, and for
//! each named field its identifier, its type as written and its attributes.
//! An attribute is a name followed by nothing, by a parenthesised list of
//! further items, or by a value.

use vstd::prelude::*;

verus! {

/// What follows the name of an item in an attribute.
#[derive(Debug, PartialEq, Eq)]
pub enum MetaArgs {
    /// Nothing: the item is a bare word.
    Bare,
    /// A parenthesised, comma separated list of items.
    List(Vec<MetaItem>),
    /// `= "text"`: a string literal, held without its quotes.
    Text(String),
    /// `= value` for any value that is not a string literal.
    Value,
}

/// A named item of an attribute, and the attribute itself.
#[derive(Debug, PartialEq, Eq)]
pub struct MetaItem {
    pub name: String,
    pub args: MetaArgs,
}

/// One named field of an entity declaration.
#[derive(Debug, PartialEq, Eq)]
pub struct FieldDecl {
    pub ident: String,
    /// The type of the field as it is written in the declaration.
    pub ty: String,
    pub attrs: Vec<MetaItem>,
}

/// The fields of a struct declaration.
#[derive(Debug, PartialEq, Eq)]
pub enum FieldsDecl {
    Named(Vec<FieldDecl>),
    /// Positional fields, as in a tuple struct.
    Unnamed,
    Unit,
}

/// What kind of item a declaration is.
#[derive(Debug, PartialEq, Eq)]
pub enum DeclBody {
    Struct(FieldsDecl),
    Enum,
    Union,
}

/// An entity declaration.
#[derive(Debug, PartialEq, Eq)]
pub struct EntityDecl {
    pub attrs: Vec<MetaItem>,
    pub body: DeclBody,
}

/// The mathematical value of a [`MetaArgs`].
pub enum MetaArgsView {
    Bare,
    List(Seq<MetaItemView>),
    Text(Seq<char>),
    Value,
}

/// The mathematical value of a [`MetaItem`].
pub struct MetaItemView {
    pub name: Seq<char>,
    pub args: MetaArgsView,
}

/// The mathematical value of a [`FieldDecl`].
pub struct FieldDeclView {
    pub ident: Seq<char>,
    pub ty: Seq<char>,
    pub attrs: Seq<MetaItemView>,
}

/// The mathematical value of a [`FieldsDecl`].
pub enum FieldsDeclView {
    Named(Seq<FieldDeclView>),
    Unnamed,
    Unit,
}

/// The mathematical value of a [`DeclBody`].
pub enum DeclBodyView {
    Struct(FieldsDeclView),
    Enum,
    Union,
}

/// The mathematical value of an [`EntityDecl`].
pub struct EntityDeclView {
    pub attrs: Seq<MetaItemView>,
    pub body: DeclBodyView,
}

/// The value of an item: its name and the value of what follows it.
pub open spec fn item_view(item: MetaItem) -> MetaItemView
    decreases item,
{
    MetaItemView { name: item.name@, args: args_view(item.args) }
}

/// The value of what follows a name: for a list, the values of its items in
/// order.
pub open spec fn args_view(args: MetaArgs) -> MetaArgsView
    decreases args,
{
    match args {
        MetaArgs::Bare => MetaArgsView::Bare,
        MetaArgs::List(items) => MetaArgsView::List(
            Seq::new(
                items@.len(),
                |i: int|
                    if 0 <= i < items@.len() {
                        item_view(items@[i])
                    } else {
                        MetaItemView { name: Seq::empty(), args: MetaArgsView::Bare }
                    },
            ),
        ),
        MetaArgs::Text(text) => MetaArgsView::Text(text@),
        MetaArgs::Value => MetaArgsView::Value,
    }
}

impl View for MetaItem {
    type V = MetaItemView;

    open spec fn view(&self) -> MetaItemView {
        item_view(*self)
    }
}

impl DeepView for MetaItem {
    type V = MetaItemView;

    open spec fn deep_view(&self) -> MetaItemView {
        item_view(*self)
    }
}

impl View for MetaArgs {
    type V = MetaArgsView;

    open spec fn view(&self) -> MetaArgsView {
        args_view(*self)
    }
}

impl View for FieldDecl {
    type V = FieldDeclView;

    open spec fn view(&self) -> FieldDeclView {
        FieldDeclView { ident: self.ident@, ty: self.ty@, attrs: self.attrs.deep_view() }
    }
}

impl DeepView for FieldDecl {
    type V = FieldDeclView;

    open spec fn deep_view(&self) -> FieldDeclView {
        self@
    }
}

impl View for FieldsDecl {
    type V = FieldsDeclView;

    open spec fn view(&self) -> FieldsDeclView {
        match *self {
            FieldsDecl::Named(fields) => FieldsDeclView::Named(fields.deep_view()),
            FieldsDecl::Unnamed => FieldsDeclView::Unnamed,
            FieldsDecl::Unit => FieldsDeclView::Unit,
        }
    }
}

impl View for DeclBody {
    type V = DeclBodyView;

    open spec fn view(&self) -> DeclBodyView {
        match *self {
            DeclBody::Struct(fields) => DeclBodyView::Struct(fields@),
            DeclBody::Enum => DeclBodyView::Enum,
            DeclBody::Union => DeclBodyView::Union,
        }
    }
}

impl View for EntityDecl {
    type V = EntityDeclView;

    open spec fn view(&self) -> EntityDeclView {
        EntityDeclView { attrs: self.attrs.deep_view(), body: self.body@ }
    }
}

/// The value of a list is the list of the values of its items.
pub proof fn lemma_list_view(items: Vec<MetaItem>)
    ensures
        MetaArgs::List(items)@ == MetaArgsView::List(items.deep_view()),
{
    assert(args_view(MetaArgs::List(items))->List_0 =~= items.deep_view());
}

} // verus!
