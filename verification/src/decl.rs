//! The declaration a derive works on, as plain data.
//!
//! A caller parses the item under the derive and hands it over in these types.
//! They keep what code generation reads: names, the shape of the fields, the
//! attributes with their tokens, and the generic header. Opaque runs of tokens
//! (a field's type, a bound) are kept as their source text.
//!
//! Each type has a view that replaces `String` and `Vec` by `Seq`; contracts
//! are stated over the views.

use vstd::prelude::*;

verus! {

/// The views of the elements of a sequence, in the same order.
pub open spec fn views<T: View>(s: Seq<T>) -> Seq<T::V> {
    s.map_values(|t: T| t@)
}

/// One token of an attribute's payload.
#[derive(Clone, Debug, PartialEq, Eq)]
pub enum Token {
    /// An identifier, by its text (`r#` included for a raw identifier).
    Ident(String),
    /// A single punctuation character.
    Punct(char),
    /// A literal, by its source text (a string literal keeps its quotes).
    Literal(String),
    /// A delimited group. Nothing looks inside one.
    Group,
}

pub enum TokenView {
    Ident(Seq<char>),
    Punct(char),
    Literal(Seq<char>),
    Group,
}

impl View for Token {
    type V = TokenView;

    open spec fn view(&self) -> TokenView {
        match self {
            Token::Ident(text) => TokenView::Ident(text@),
            Token::Punct(c) => TokenView::Punct(*c),
            Token::Literal(text) => TokenView::Literal(text@),
            Token::Group => TokenView::Group,
        }
    }
}

/// What follows the path inside an attribute.
#[derive(Clone, Debug, PartialEq, Eq)]
pub enum AttributeValue {
    /// Nothing: `#[path]`.
    Empty,
    /// `#[path = ...]`. The tokens after `=` are never read.
    Equals,
    /// `#[path(...)]`, with the tokens between the delimiters.
    Group(Vec<Token>),
}

pub enum AttributeValueView {
    Empty,
    Equals,
    Group(Seq<TokenView>),
}

impl View for AttributeValue {
    type V = AttributeValueView;

    open spec fn view(&self) -> AttributeValueView {
        match self {
            AttributeValue::Empty => AttributeValueView::Empty,
            AttributeValue::Equals => AttributeValueView::Equals,
            AttributeValue::Group(tokens) => AttributeValueView::Group(views(tokens@)),
        }
    }
}

/// An attribute attached to a field or a variant.
#[derive(Clone, Debug, PartialEq, Eq)]
pub struct Attribute {
    /// The identifiers of the path, in order: `["serde"]` for `#[serde(...)]`,
    /// `["a", "b"]` for `#[a::b]`.
    pub path: Vec<String>,
    pub value: AttributeValue,
}

pub struct AttributeView {
    pub path: Seq<Seq<char>>,
    pub value: AttributeValueView,
}

impl View for Attribute {
    type V = AttributeView;

    open spec fn view(&self) -> AttributeView {
        AttributeView { path: views(self.path@), value: self.value@ }
    }
}

/// A field of a struct with named fields.
#[derive(Clone, Debug, PartialEq, Eq)]
pub struct NamedField {
    pub attributes: Vec<Attribute>,
    pub name: String,
    /// The field's type, as source text.
    pub ty: String,
}

pub struct NamedFieldView {
    pub attributes: Seq<AttributeView>,
    pub name: Seq<char>,
    pub ty: Seq<char>,
}

impl View for NamedField {
    type V = NamedFieldView;

    open spec fn view(&self) -> NamedFieldView {
        NamedFieldView { attributes: views(self.attributes@), name: self.name@, ty: self.ty@ }
    }
}

/// The shape of a struct's body, or of what a variant carries.
#[derive(Clone, Debug, PartialEq, Eq)]
pub enum StructFields {
    /// No fields: `struct S;`, or a bare variant.
    Unit,
    /// Positional fields: `struct S(A, B);`. They are never read.
    Tuple,
    /// Named fields, in declaration order.
    Named(Vec<NamedField>),
}

pub enum StructFieldsView {
    Unit,
    Tuple,
    Named(Seq<NamedFieldView>),
}

impl View for StructFields {
    type V = StructFieldsView;

    open spec fn view(&self) -> StructFieldsView {
        match self {
            StructFields::Unit => StructFieldsView::Unit,
            StructFields::Tuple => StructFieldsView::Tuple,
            StructFields::Named(fields) => StructFieldsView::Named(views(fields@)),
        }
    }
}

/// A variant of an enum.
#[derive(Clone, Debug, PartialEq, Eq)]
pub struct EnumVariant {
    pub attributes: Vec<Attribute>,
    pub name: String,
    pub contents: StructFields,
}

pub struct EnumVariantView {
    pub attributes: Seq<AttributeView>,
    pub name: Seq<char>,
    pub contents: StructFieldsView,
}

impl View for EnumVariant {
    type V = EnumVariantView;

    open spec fn view(&self) -> EnumVariantView {
        EnumVariantView {
            attributes: views(self.attributes@),
            name: self.name@,
            contents: self.contents@,
        }
    }
}

/// What kind of generic parameter one is.
#[derive(Clone, Copy, Debug, PartialEq, Eq)]
pub enum ParamKind {
    /// `'a`
    Lifetime,
    /// `T`
    Type,
    /// `const N: usize`
    Const,
}

/// One generic parameter.
#[derive(Clone, Debug, PartialEq, Eq)]
pub struct GenericParam {
    pub kind: ParamKind,
    /// The name without its prefix: `a` for `'a`, `N` for `const N: usize`.
    pub name: String,
    /// The source text after the colon, if there is a colon.
    pub bound: Option<String>,
}

pub struct GenericParamView {
    pub kind: ParamKind,
    pub name: Seq<char>,
    pub bound: Option<Seq<char>>,
}

impl View for GenericParam {
    type V = GenericParamView;

    open spec fn view(&self) -> GenericParamView {
        GenericParamView {
            kind: self.kind,
            name: self.name@,
            bound: match self.bound {
                Some(text) => Some(text@),
                None => None,
            },
        }
    }
}

/// The generic parameters between `<` and `>`.
#[derive(Clone, Debug, PartialEq, Eq)]
pub struct GenericParamList {
    pub params: Vec<GenericParam>,
    /// Whether a comma follows the last parameter.
    pub trailing_comma: bool,
}

pub struct GenericParamListView {
    pub params: Seq<GenericParamView>,
    pub trailing_comma: bool,
}

impl View for GenericParamList {
    type V = GenericParamListView;

    open spec fn view(&self) -> GenericParamListView {
        GenericParamListView { params: views(self.params@), trailing_comma: self.trailing_comma }
    }
}

/// A `where` clause.
#[derive(Clone, Debug, PartialEq, Eq)]
pub struct WhereClause {
    /// Each item (`T: Bound`), as source text.
    pub items: Vec<String>,
    /// Whether a comma follows the last item.
    pub trailing_comma: bool,
}

pub struct WhereClauseView {
    pub items: Seq<Seq<char>>,
    pub trailing_comma: bool,
}

impl View for WhereClause {
    type V = WhereClauseView;

    open spec fn view(&self) -> WhereClauseView {
        WhereClauseView { items: views(self.items@), trailing_comma: self.trailing_comma }
    }
}

/// A struct declaration.
#[derive(Clone, Debug, PartialEq, Eq)]
pub struct Struct {
    pub name: String,
    /// `None` where the declaration has no `<...>` at all.
    pub generic_params: Option<GenericParamList>,
    pub where_clause: Option<WhereClause>,
    pub fields: StructFields,
}

pub struct StructView {
    pub name: Seq<char>,
    pub generic_params: Option<GenericParamListView>,
    pub where_clause: Option<WhereClauseView>,
    pub fields: StructFieldsView,
}

impl View for Struct {
    type V = StructView;

    open spec fn view(&self) -> StructView {
        StructView {
            name: self.name@,
            generic_params: match self.generic_params {
                Some(list) => Some(list@),
                None => None,
            },
            where_clause: match self.where_clause {
                Some(clause) => Some(clause@),
                None => None,
            },
            fields: self.fields@,
        }
    }
}

/// An enum declaration.
#[derive(Clone, Debug, PartialEq, Eq)]
pub struct Enum {
    pub name: String,
    /// `None` where the declaration has no `<...>` at all.
    pub generic_params: Option<GenericParamList>,
    /// The variants, in declaration order.
    pub variants: Vec<EnumVariant>,
}

pub struct EnumView {
    pub name: Seq<char>,
    pub generic_params: Option<GenericParamListView>,
    pub variants: Seq<EnumVariantView>,
}

impl View for Enum {
    type V = EnumView;

    open spec fn view(&self) -> EnumView {
        EnumView {
            name: self.name@,
            generic_params: match self.generic_params {
                Some(list) => Some(list@),
                None => None,
            },
            variants: views(self.variants@),
        }
    }
}

/// The item under the derive.
#[derive(Clone, Debug, PartialEq, Eq)]
pub enum Declaration {
    Struct(Struct),
    Enum(Enum),
    /// A union. Nothing of it is read.
    Union,
    /// Any other item.
    Other,
}

pub enum DeclarationView {
    Struct(StructView),
    Enum(EnumView),
    Union,
    Other,
}

impl View for Declaration {
    type V = DeclarationView;

    open spec fn view(&self) -> DeclarationView {
        match self {
            Declaration::Struct(decl) => DeclarationView::Struct(decl@),
            Declaration::Enum(decl) => DeclarationView::Enum(decl@),
            Declaration::Union => DeclarationView::Union,
            Declaration::Other => DeclarationView::Other,
        }
    }
}

} // verus!
