//! The `rename` directive: finding it among the attributes of a field or a
//! variant, and the external name that follows from it.
//!
//! Only attributes whose path is the single identifier `serde` are looked at.
//! Such an attribute must read `serde(rename = <literal> ...)`; what follows
//! the literal is not examined. A member may carry at most one of them.

use vstd::prelude::*;
use crate::decl::{
    views, Attribute, AttributeValue, AttributeValueView, AttributeView, EnumVariant,
    EnumVariantView, NamedField, NamedFieldView, Token, TokenView,
};
use crate::error::{AttrError, Defect, Site};
use crate::text::same_text;

verus! {

/// The path that marks an attribute as addressed to this derive.
pub const MARKER: &'static str = "serde";

/// The one key that a directive may set.
pub const KEYWORD: &'static str = "rename";

/// The name under which a field or a variant goes on the wire.
#[derive(Clone, Debug, PartialEq, Eq)]
pub enum ExternalName {
    /// No directive: the member's own identifier, read as a string.
    Identifier(String),
    /// The literal of the member's `rename` directive, as it was written.
    Renamed(String),
}

pub enum ExternalNameView {
    Identifier(Seq<char>),
    Renamed(Seq<char>),
}

impl View for ExternalName {
    type V = ExternalNameView;

    open spec fn view(&self) -> ExternalNameView {
        match self {
            ExternalName::Identifier(text) => ExternalNameView::Identifier(text@),
            ExternalName::Renamed(text) => ExternalNameView::Renamed(text@),
        }
    }
}

/// Whether the attribute is addressed to this derive.
pub open spec fn is_marker(attribute: AttributeView) -> bool {
    attribute.path.len() == 1 && attribute.path[0] == MARKER@
}

/// The position of the first `serde` attribute at or after `from`, or the
/// length of the list if there is none.
pub open spec fn next_marker(attributes: Seq<AttributeView>, from: int) -> int
    decreases attributes.len() - from,
{
    if from >= attributes.len() {
        attributes.len() as int
    } else if is_marker(attributes[from]) {
        from
    } else {
        next_marker(attributes, from + 1)
    }
}

/// An unsupported-attribute error at `site`.
pub open spec fn unsupported(site: Site) -> AttrError {
    AttrError { defect: Defect::UnsupportedAttribute, site }
}

/// A duplicate-directive error at the attribute at position `at`.
pub open spec fn duplicate(at: usize) -> AttrError {
    AttrError { defect: Defect::DuplicateRename, site: Site::Attribute(at) }
}

/// What the `serde` attribute at position `at` asks for: the literal to rename
/// to, or the place at which it stops being `rename = <literal>`.
pub open spec fn directive(attribute: AttributeView, at: usize) -> Result<Seq<char>, AttrError> {
    match attribute.value {
        AttributeValueView::Group(tokens) => {
            if tokens.len() >= 1 && tokens[0] is Ident {
                if tokens[0] != TokenView::Ident(KEYWORD@) {
                    Err(unsupported(Site::Token(at, 0)))
                } else if tokens.len() >= 3 && tokens[1] == TokenView::Punct('=')
                    && tokens[2] is Literal {
                    Ok(tokens[2]->Literal_0)
                } else {
                    Err(unsupported(Site::Payload(at)))
                }
            } else {
                Err(unsupported(Site::Payload(at)))
            }
        },
        _ => Err(unsupported(Site::Payload(at))),
    }
}

/// The directive of an attribute list: the literal of its only `serde`
/// attribute, `None` if it has no such attribute, or the first defect.
///
/// The first `serde` attribute is held to the directive's form; a second one
/// is a duplicate whatever it says.
pub open spec fn rename_spec(attributes: Seq<AttributeView>) -> Result<Option<Seq<char>>, AttrError> {
    let first = next_marker(attributes, 0);
    if first >= attributes.len() {
        Ok(None)
    } else {
        match directive(attributes[first], first as usize) {
            Err(error) => Err(error),
            Ok(literal) => {
                let second = next_marker(attributes, first + 1);
                if second < attributes.len() {
                    Err(duplicate(second as usize))
                } else {
                    Ok(Some(literal))
                }
            },
        }
    }
}

/// The external name of a member with these attributes and this identifier.
pub open spec fn name_spec(attributes: Seq<AttributeView>, ident: Seq<char>) -> Result<
    ExternalNameView,
    AttrError,
> {
    match rename_spec(attributes) {
        Ok(Some(literal)) => Ok(ExternalNameView::Renamed(literal)),
        Ok(None) => Ok(ExternalNameView::Identifier(ident)),
        Err(error) => Err(error),
    }
}

/// The external name of a field.
pub open spec fn name_of_field_spec(field: NamedFieldView) -> Result<ExternalNameView, AttrError> {
    name_spec(field.attributes, field.name)
}

/// The external name of a variant.
pub open spec fn name_of_variant_spec(variant: EnumVariantView) -> Result<
    ExternalNameView,
    AttrError,
> {
    name_spec(variant.attributes, variant.name)
}

/// A literal or an error, with the literal as a sequence of characters.
pub open spec fn literal_view(result: Result<String, AttrError>) -> Result<Seq<char>, AttrError> {
    match result {
        Ok(literal) => Ok(literal@),
        Err(error) => Err(error),
    }
}

/// A directive or an error, with the literal as a sequence of characters.
pub open spec fn rename_view(result: Result<Option<String>, AttrError>) -> Result<
    Option<Seq<char>>,
    AttrError,
> {
    match result {
        Ok(Some(literal)) => Ok(Some(literal@)),
        Ok(None) => Ok(None),
        Err(error) => Err(error),
    }
}

/// An external name or an error, with the name by its view.
pub open spec fn name_view(result: Result<ExternalName, AttrError>) -> Result<
    ExternalNameView,
    AttrError,
> {
    match result {
        Ok(name) => Ok(name@),
        Err(error) => Err(error),
    }
}

/// Whether the attribute is addressed to this derive.
fn is_marker_attribute(attribute: &Attribute) -> (marked: bool)
    ensures
        marked == is_marker(attribute@),
{
    attribute.path.len() == 1 && same_text(&attribute.path[0], MARKER)
}

/// Reads the `serde` attribute at position `at` as a directive.
fn directive_of(attribute: &Attribute, at: usize) -> (out: Result<String, AttrError>)
    ensures
        literal_view(out) == directive(attribute@, at),
{
    let payload = AttrError { defect: Defect::UnsupportedAttribute, site: Site::Payload(at) };
    match &attribute.value {
        AttributeValue::Group(tokens) => {
            if tokens.len() < 1 {
                return Err(payload);
            }
            match &tokens[0] {
                Token::Ident(text) => {
                    if !same_text(text, KEYWORD) {
                        return Err(
                            AttrError {
                                defect: Defect::UnsupportedAttribute,
                                site: Site::Token(at, 0),
                            },
                        );
                    }
                },
                _ => {
                    return Err(payload);
                },
            }
            if tokens.len() < 2 {
                return Err(payload);
            }
            match &tokens[1] {
                Token::Punct(c) => {
                    if *c != '=' {
                        return Err(payload);
                    }
                },
                _ => {
                    return Err(payload);
                },
            }
            if tokens.len() < 3 {
                return Err(payload);
            }
            match &tokens[2] {
                Token::Literal(text) => Ok(text.clone()),
                _ => Err(payload),
            }
        },
        _ => Err(payload),
    }
}

/// Finds the value of the `rename` directive among `attributes`.
///
/// Returns the directive's literal, `None` where no attribute is addressed to
/// this derive, or the first defect in the order of the list.
pub fn attr_rename(attributes: &[Attribute]) -> (out: Result<Option<String>, AttrError>)
    ensures
        rename_view(out) == rename_spec(views(attributes@)),
{
    let ghost list = views(attributes@);
    let mut rename: Option<String> = None;
    let mut i: usize = 0;
    while i < attributes.len()
        invariant
            i <= attributes.len(),
            list == views(attributes@),
            match rename {
                None => next_marker(list, 0) == next_marker(list, i as int),
                Some(literal) => {
                    let first = next_marker(list, 0);
                    &&& 0 <= first < i
                    &&& directive(list[first], first as usize) == Ok::<Seq<char>, AttrError>(
                        literal@,
                    )
                    &&& next_marker(list, first + 1) == next_marker(list, i as int)
                },
            },
        decreases attributes.len() - i,
    {
        let attribute = &attributes[i];
        if is_marker_attribute(attribute) {
            if rename.is_some() {
                return Err(AttrError { defect: Defect::DuplicateRename, site: Site::Attribute(i) });
            }
            match directive_of(attribute, i) {
                Ok(literal) => {
                    rename = Some(literal);
                },
                Err(error) => {
                    return Err(error);
                },
            }
        }
        i += 1;
    }
    Ok(rename)
}

/// Determines the external name of a field, respecting a `rename` directive.
pub fn name_of_field(field: &NamedField) -> (out: Result<ExternalName, AttrError>)
    ensures
        name_view(out) == name_of_field_spec(field@),
{
    match attr_rename(field.attributes.as_slice()) {
        Ok(Some(literal)) => Ok(ExternalName::Renamed(literal)),
        Ok(None) => Ok(ExternalName::Identifier(field.name.clone())),
        Err(error) => Err(error),
    }
}

/// Determines the external name of a variant, respecting a `rename` directive.
pub fn name_of_variant(variant: &EnumVariant) -> (out: Result<ExternalName, AttrError>)
    ensures
        name_view(out) == name_of_variant_spec(variant@),
{
    match attr_rename(variant.attributes.as_slice()) {
        Ok(Some(literal)) => Ok(ExternalName::Renamed(literal)),
        Ok(None) => Ok(ExternalName::Identifier(variant.name.clone())),
        Err(error) => Err(error),
    }
}

/// Where `next_marker` lands: on the first `serde` attribute from `from` on.
pub proof fn lemma_next_marker(attributes: Seq<AttributeView>, from: int)
    requires
        0 <= from <= attributes.len(),
    ensures
        from <= next_marker(attributes, from) <= attributes.len(),
        next_marker(attributes, from) < attributes.len() ==> is_marker(
            attributes[next_marker(attributes, from)],
        ),
        forall|i: int| from <= i < next_marker(attributes, from) ==> !is_marker(attributes[i]),
    decreases attributes.len() - from,
{
    if from < attributes.len() && !is_marker(attributes[from]) {
        lemma_next_marker(attributes, from + 1);
    }
}

/// Whether the `serde` attribute at position `at` is the only one of the
/// list and reads `rename = literal`, whatever follows the literal.
pub open spec fn carries_rename(
    attributes: Seq<AttributeView>,
    at: int,
    literal: Seq<char>,
) -> bool {
    &&& 0 <= at < attributes.len()
    &&& is_marker(attributes[at])
    &&& forall|i: int| 0 <= i < attributes.len() && i != at ==> !is_marker(attributes[i])
    &&& attributes[at].value matches AttributeValueView::Group(tokens)
    &&& tokens.len() >= 3
    &&& tokens[0] == TokenView::Ident(KEYWORD@)
    &&& tokens[1] == TokenView::Punct('=')
    &&& tokens[2] == TokenView::Literal(literal)
}

/// Whether the payload of the attribute is a group that lacks the `=` after
/// its first token, or the literal after the `=`.
pub open spec fn lacks_assignment(attribute: AttributeView) -> bool {
    attribute.value matches AttributeValueView::Group(tokens) && (tokens.len() < 2 || tokens[1]
        != TokenView::Punct('=') || tokens.len() < 3 || !(tokens[2] is Literal))
}

/// A member without any `serde` attribute goes by its own identifier.
pub proof fn law_identifier_without_directive(attributes: Seq<AttributeView>, ident: Seq<char>)
    requires
        forall|i: int| 0 <= i < attributes.len() ==> !is_marker(attributes[i]),
    ensures
        name_spec(attributes, ident) == Ok::<ExternalNameView, AttrError>(
            ExternalNameView::Identifier(ident),
        ),
{
    lemma_next_marker(attributes, 0);
}

/// A member whose only `serde` attribute reads `rename = literal` goes by
/// that literal, never by its identifier.
pub proof fn law_rename_gives_the_name(
    attributes: Seq<AttributeView>,
    ident: Seq<char>,
    at: int,
    literal: Seq<char>,
)
    requires
        carries_rename(attributes, at, literal),
    ensures
        name_spec(attributes, ident) == Ok::<ExternalNameView, AttrError>(
            ExternalNameView::Renamed(literal),
        ),
{
    lemma_next_marker(attributes, 0);
    lemma_next_marker(attributes, at + 1);
}

/// Two `serde` attributes on one member never resolve, whatever they hold.
pub proof fn law_two_directives_fail(attributes: Seq<AttributeView>, one: int, other: int)
    requires
        0 <= one < other < attributes.len(),
        is_marker(attributes[one]),
        is_marker(attributes[other]),
    ensures
        rename_spec(attributes) is Err,
{
    lemma_next_marker(attributes, 0);
    lemma_next_marker(attributes, next_marker(attributes, 0) + 1);
}

/// Where the first `serde` attribute of a member is a well-formed directive,
/// a second one is reported as a duplicate, at that second attribute and
/// whatever it holds.
pub proof fn law_second_directive_is_duplicate(
    attributes: Seq<AttributeView>,
    one: int,
    other: int,
)
    requires
        0 <= one < other < attributes.len(),
        is_marker(attributes[one]),
        is_marker(attributes[other]),
        directive(
            attributes[next_marker(attributes, 0)],
            next_marker(attributes, 0) as usize,
        ) is Ok,
    ensures
        rename_spec(attributes) == Err::<Option<Seq<char>>, AttrError>(
            duplicate(next_marker(attributes, next_marker(attributes, 0) + 1) as usize),
        ),
        next_marker(attributes, 0) <= one,
        next_marker(attributes, 0) < next_marker(attributes, next_marker(attributes, 0) + 1)
            <= other,
{
    lemma_next_marker(attributes, 0);
    lemma_next_marker(attributes, next_marker(attributes, 0) + 1);
}

/// Where the first `serde` attribute of a member has a payload without the
/// `=`, or without a literal after it, the member is refused with an
/// unsupported-attribute error.
pub proof fn law_missing_assignment_is_unsupported(attributes: Seq<AttributeView>, at: int)
    requires
        0 <= at < attributes.len(),
        is_marker(attributes[at]),
        forall|i: int| 0 <= i < at ==> !is_marker(attributes[i]),
        lacks_assignment(attributes[at]),
    ensures
        rename_spec(attributes) is Err,
        rename_spec(attributes)->Err_0.defect == Defect::UnsupportedAttribute,
{
    lemma_next_marker(attributes, 0);
}

/// A member resolves exactly when it has no `serde` attribute, or a single
/// one that is a well-formed directive.
pub proof fn law_resolves_iff_at_most_one_directive(attributes: Seq<AttributeView>)
    ensures
        rename_spec(attributes) is Ok <==> {
            let first = next_marker(attributes, 0);
            first == attributes.len() || (directive(attributes[first], first as usize) is Ok
                && next_marker(attributes, first + 1) == attributes.len())
        },
{
    lemma_next_marker(attributes, 0);
    if next_marker(attributes, 0) < attributes.len() {
        lemma_next_marker(attributes, next_marker(attributes, 0) + 1);
    }
}

} // verus!
