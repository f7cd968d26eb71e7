//! From a declaration to the external names of its members.
//!
//! A struct must have named fields; an enum must have no generic parameters
//! and only variants without fields. The names come out in declaration order,
//! one for each field or variant. The first rule that is broken decides the
//! error: the shape of the declaration is judged before any attribute is read.

use vstd::prelude::*;
use crate::attr::{
    carries_rename, is_marker, law_identifier_without_directive, law_rename_gives_the_name,
    name_of_field, name_of_field_spec, name_of_variant, name_of_variant_spec, name_spec,
    ExternalName, ExternalNameView,
};
use crate::decl::{
    views, AttributeView, Declaration, DeclarationView, Enum, EnumVariant, EnumVariantView,
    EnumView, NamedField, NamedFieldView, Struct, StructFields, StructFieldsView, StructView,
};
use crate::error::{AttrError, Error};

verus! {

/// What each member's attributes give, by position.
pub type Outcomes = Seq<Result<ExternalNameView, AttrError>>;

/// The outcome of resolving each field on its own.
pub open spec fn field_outcomes(fields: Seq<NamedFieldView>) -> Outcomes {
    fields.map_values(|field: NamedFieldView| name_of_field_spec(field))
}

/// The outcome of resolving each variant on its own.
pub open spec fn variant_outcomes(variants: Seq<EnumVariantView>) -> Outcomes {
    variants.map_values(|variant: EnumVariantView| name_of_variant_spec(variant))
}

/// The position of the first error at or after `from`, or the length of the
/// sequence if there is none.
pub open spec fn first_error(outcomes: Outcomes, from: int) -> int
    decreases outcomes.len() - from,
{
    if from >= outcomes.len() {
        outcomes.len() as int
    } else if outcomes[from] is Err {
        from
    } else {
        first_error(outcomes, from + 1)
    }
}

/// All the names if every member resolved, else the first member's error.
pub open spec fn collect(outcomes: Outcomes) -> Result<Seq<ExternalNameView>, Error> {
    let at = first_error(outcomes, 0);
    if at < outcomes.len() {
        Err(Error::Attribute { member: at as usize, error: outcomes[at]->Err_0 })
    } else {
        Ok(outcomes.map_values(|outcome: Result<ExternalNameView, AttrError>| outcome->Ok_0))
    }
}

/// The position of the first variant at or after `from` that carries fields,
/// or the number of variants if there is none.
pub open spec fn first_with_fields(variants: Seq<EnumVariantView>, from: int) -> int
    decreases variants.len() - from,
{
    if from >= variants.len() {
        variants.len() as int
    } else if variants[from].contents != StructFieldsView::Unit {
        from
    } else {
        first_with_fields(variants, from + 1)
    }
}

/// The external names of a struct's fields, in declaration order.
pub open spec fn struct_names_spec(decl: StructView) -> Result<Seq<ExternalNameView>, Error> {
    match decl.fields {
        StructFieldsView::Named(fields) => collect(field_outcomes(fields)),
        _ => Err(Error::UnsupportedFields),
    }
}

/// The external names of an enum's variants, in declaration order.
pub open spec fn enum_names_spec(decl: EnumView) -> Result<Seq<ExternalNameView>, Error> {
    if decl.generic_params is Some {
        Err(Error::GenericEnum)
    } else {
        let at = first_with_fields(decl.variants, 0);
        if at < decl.variants.len() {
            Err(Error::VariantWithFields { variant: at as usize })
        } else {
            collect(variant_outcomes(decl.variants))
        }
    }
}

/// The external names of a declaration's members, or why it is refused.
pub open spec fn names_spec(decl: DeclarationView) -> Result<Seq<ExternalNameView>, Error> {
    match decl {
        DeclarationView::Struct(decl) => struct_names_spec(decl),
        DeclarationView::Enum(decl) => enum_names_spec(decl),
        _ => Err(Error::UnsupportedDeclaration),
    }
}

/// Names or an error, with the names by their views.
pub open spec fn names_view(result: Result<Vec<ExternalName>, Error>) -> Result<
    Seq<ExternalNameView>,
    Error,
> {
    match result {
        Ok(names) => Ok(views(names@)),
        Err(error) => Err(error),
    }
}

/// Resolves the external name of every field.
pub fn field_names(fields: &Vec<NamedField>) -> (out: Result<Vec<ExternalName>, Error>)
    ensures
        names_view(out) == collect(field_outcomes(views(fields@))),
{
    let ghost outcomes = field_outcomes(views(fields@));
    let mut names: Vec<ExternalName> = Vec::new();
    let mut i: usize = 0;
    while i < fields.len()
        invariant
            i <= fields.len(),
            outcomes == field_outcomes(views(fields@)),
            first_error(outcomes, 0) == first_error(outcomes, i as int),
            names.len() == i,
            forall|k: int|
                0 <= k < i ==> outcomes[k] == Ok::<ExternalNameView, AttrError>(#[trigger] names@[k]@),
        decreases fields.len() - i,
    {
        match name_of_field(&fields[i]) {
            Ok(name) => {
                names.push(name);
            },
            Err(error) => {
                return Err(Error::Attribute { member: i, error });
            },
        }
        i += 1;
    }
    assert(views(names@) =~= outcomes.map_values(
        |outcome: Result<ExternalNameView, AttrError>| outcome->Ok_0,
    ));
    Ok(names)
}

/// Resolves the external name of every variant.
pub fn variant_names(variants: &Vec<EnumVariant>) -> (out: Result<Vec<ExternalName>, Error>)
    ensures
        names_view(out) == collect(variant_outcomes(views(variants@))),
{
    let ghost outcomes = variant_outcomes(views(variants@));
    let mut names: Vec<ExternalName> = Vec::new();
    let mut i: usize = 0;
    while i < variants.len()
        invariant
            i <= variants.len(),
            outcomes == variant_outcomes(views(variants@)),
            first_error(outcomes, 0) == first_error(outcomes, i as int),
            names.len() == i,
            forall|k: int|
                0 <= k < i ==> outcomes[k] == Ok::<ExternalNameView, AttrError>(#[trigger] names@[k]@),
        decreases variants.len() - i,
    {
        match name_of_variant(&variants[i]) {
            Ok(name) => {
                names.push(name);
            },
            Err(error) => {
                return Err(Error::Attribute { member: i, error });
            },
        }
        i += 1;
    }
    assert(views(names@) =~= outcomes.map_values(
        |outcome: Result<ExternalNameView, AttrError>| outcome->Ok_0,
    ));
    Ok(names)
}

/// Finds the first variant that carries fields.
pub fn variant_with_fields(variants: &Vec<EnumVariant>) -> (out: Option<usize>)
    ensures
        match out {
            Some(at) => at == first_with_fields(views(variants@), 0) && at < variants.len(),
            None => first_with_fields(views(variants@), 0) == variants.len(),
        },
{
    let ghost list = views(variants@);
    let mut i: usize = 0;
    while i < variants.len()
        invariant
            i <= variants.len(),
            list == views(variants@),
            first_with_fields(list, 0) == first_with_fields(list, i as int),
        decreases variants.len() - i,
    {
        match &variants[i].contents {
            StructFields::Unit => {},
            _ => {
                return Some(i);
            },
        }
        i += 1;
    }
    None
}

/// The external names of a struct's fields, in declaration order.
pub fn struct_names(decl: &Struct) -> (out: Result<Vec<ExternalName>, Error>)
    ensures
        names_view(out) == struct_names_spec(decl@),
{
    match &decl.fields {
        StructFields::Named(fields) => field_names(fields),
        _ => Err(Error::UnsupportedFields),
    }
}

/// The external names of an enum's variants, in declaration order.
pub fn enum_names(decl: &Enum) -> (out: Result<Vec<ExternalName>, Error>)
    ensures
        names_view(out) == enum_names_spec(decl@),
{
    if decl.generic_params.is_some() {
        return Err(Error::GenericEnum);
    }
    match variant_with_fields(&decl.variants) {
        Some(variant) => Err(Error::VariantWithFields { variant }),
        None => variant_names(&decl.variants),
    }
}

/// The external names of a declaration's members, or why it is refused.
pub fn names(decl: &Declaration) -> (out: Result<Vec<ExternalName>, Error>)
    ensures
        names_view(out) == names_spec(decl@),
{
    match decl {
        Declaration::Struct(decl) => struct_names(decl),
        Declaration::Enum(decl) => enum_names(decl),
        _ => Err(Error::UnsupportedDeclaration),
    }
}

/// The attributes of each member of a declaration that has members to name:
/// of each field of a struct with named fields, of each variant of an enum.
pub open spec fn member_attributes(decl: DeclarationView) -> Seq<Seq<AttributeView>> {
    match decl {
        DeclarationView::Struct(decl) => match decl.fields {
            StructFieldsView::Named(fields) => fields.map_values(
                |field: NamedFieldView| field.attributes,
            ),
            _ => Seq::empty(),
        },
        DeclarationView::Enum(decl) => decl.variants.map_values(
            |variant: EnumVariantView| variant.attributes,
        ),
        _ => Seq::empty(),
    }
}

/// The identifier of each member, alongside `member_attributes`.
pub open spec fn member_idents(decl: DeclarationView) -> Seq<Seq<char>> {
    match decl {
        DeclarationView::Struct(decl) => match decl.fields {
            StructFieldsView::Named(fields) => fields.map_values(
                |field: NamedFieldView| field.name,
            ),
            _ => Seq::empty(),
        },
        DeclarationView::Enum(decl) => decl.variants.map_values(
            |variant: EnumVariantView| variant.name,
        ),
        _ => Seq::empty(),
    }
}

/// Whether the declaration has a shape for which nothing is derived: a struct
/// without named fields, an enum with generic parameters or with a variant
/// that carries fields, a union, or an item of another kind.
pub open spec fn unsupported_shape(decl: DeclarationView) -> bool {
    match decl {
        DeclarationView::Struct(decl) => !(decl.fields is Named),
        DeclarationView::Enum(decl) => decl.generic_params is Some || exists|i: int|
            0 <= i < decl.variants.len() && (#[trigger] decl.variants[i]).contents
                != StructFieldsView::Unit,
        _ => true,
    }
}

/// Where `first_error` lands: on the first error from `from` on.
pub proof fn lemma_first_error(outcomes: Outcomes, from: int)
    requires
        0 <= from <= outcomes.len(),
    ensures
        from <= first_error(outcomes, from) <= outcomes.len(),
        first_error(outcomes, from) < outcomes.len() ==> outcomes[first_error(outcomes, from)]
            is Err,
        forall|i: int| from <= i < first_error(outcomes, from) ==> outcomes[i] is Ok,
    decreases outcomes.len() - from,
{
    if from < outcomes.len() && outcomes[from] is Ok {
        lemma_first_error(outcomes, from + 1);
    }
}

/// Where `first_with_fields` lands: on the first variant from `from` on that
/// carries fields.
pub proof fn lemma_first_with_fields(variants: Seq<EnumVariantView>, from: int)
    requires
        0 <= from <= variants.len(),
    ensures
        from <= first_with_fields(variants, from) <= variants.len(),
        first_with_fields(variants, from) < variants.len() ==> variants[first_with_fields(
            variants,
            from,
        )].contents != StructFieldsView::Unit,
        forall|i: int|
            from <= i < first_with_fields(variants, from) ==> variants[i].contents
                == StructFieldsView::Unit,
    decreases variants.len() - from,
{
    if from < variants.len() && variants[from].contents == StructFieldsView::Unit {
        lemma_first_with_fields(variants, from + 1);
    }
}

/// The names of a declaration are those of its members, each resolved on its
/// own and put at the member's position.
pub proof fn law_names_follow_members(decl: DeclarationView)
    requires
        names_spec(decl) is Ok,
    ensures
        names_spec(decl)->Ok_0.len() == member_attributes(decl).len(),
        member_idents(decl).len() == member_attributes(decl).len(),
        forall|i: int|
            0 <= i < member_attributes(decl).len() ==> name_spec(
                #[trigger] member_attributes(decl)[i],
                member_idents(decl)[i],
            ) == Ok::<ExternalNameView, AttrError>(names_spec(decl)->Ok_0[i]),
{
    match decl {
        DeclarationView::Struct(decl) => {
            let fields = decl.fields->Named_0;
            lemma_first_error(field_outcomes(fields), 0);
        },
        DeclarationView::Enum(decl) => {
            lemma_first_error(variant_outcomes(decl.variants), 0);
        },
        _ => {},
    }
}

/// A struct with named fields of which none carries a `serde` attribute
/// resolves, and every field goes by its identifier, in declaration order.
pub proof fn law_plain_struct_goes_by_identifiers(decl: StructView)
    requires
        decl.fields is Named,
        forall|i: int, j: int|
            0 <= i < decl.fields->Named_0.len() && 0 <= j
                < decl.fields->Named_0[i].attributes.len() ==> !is_marker(
                #[trigger] decl.fields->Named_0[i].attributes[j],
            ),
    ensures
        struct_names_spec(decl) == Ok::<Seq<ExternalNameView>, Error>(
            decl.fields->Named_0.map_values(
                |field: NamedFieldView| ExternalNameView::Identifier(field.name),
            ),
        ),
{
    let fields = decl.fields->Named_0;
    let outcomes = field_outcomes(fields);
    assert forall|i: int| 0 <= i < fields.len() implies outcomes[i] == Ok::<
        ExternalNameView,
        AttrError,
    >(ExternalNameView::Identifier(fields[i].name)) by {
        law_identifier_without_directive(fields[i].attributes, fields[i].name);
    }
    lemma_first_error(outcomes, 0);
    assert(struct_names_spec(decl)->Ok_0 =~= fields.map_values(
        |field: NamedFieldView| ExternalNameView::Identifier(field.name),
    ));
}

/// In a declaration that resolves, a member whose only `serde` attribute
/// reads `rename = literal` goes by that literal, and every spelling of the
/// names holds the literal as it was written.
pub proof fn law_rename_is_the_external_name(
    decl: DeclarationView,
    member: int,
    at: int,
    literal: Seq<char>,
    spelled: Seq<Seq<char>>,
)
    requires
        names_spec(decl) is Ok,
        0 <= member < member_attributes(decl).len(),
        carries_rename(member_attributes(decl)[member], at, literal),
        crate::spell::spells(names_spec(decl)->Ok_0, spelled),
    ensures
        names_spec(decl)->Ok_0[member] == ExternalNameView::Renamed(literal),
        spelled[member] == literal,
{
    law_names_follow_members(decl);
    law_rename_gives_the_name(
        member_attributes(decl)[member],
        member_idents(decl)[member],
        at,
        literal,
    );
}

/// A declaration of an unsupported shape is refused, and for its shape:
/// whatever its attributes hold, they are not looked at.
pub proof fn law_unsupported_shapes_are_refused(decl: DeclarationView)
    requires
        unsupported_shape(decl),
    ensures
        names_spec(decl) == Err::<Seq<ExternalNameView>, Error>(
            match decl {
                DeclarationView::Struct(_) => Error::UnsupportedFields,
                DeclarationView::Enum(decl) => if decl.generic_params is Some {
                    Error::GenericEnum
                } else {
                    Error::VariantWithFields {
                        variant: first_with_fields(decl.variants, 0) as usize,
                    }
                },
                _ => Error::UnsupportedDeclaration,
            },
        ),
{
    match decl {
        DeclarationView::Enum(decl) => {
            lemma_first_with_fields(decl.variants, 0);
        },
        _ => {},
    }
}

/// A defect in the attributes of any one member refuses the whole
/// declaration: no names come out, whatever the other members hold.
pub proof fn law_member_defect_refuses_the_declaration(decl: DeclarationView, member: int)
    requires
        0 <= member < member_attributes(decl).len(),
        name_spec(member_attributes(decl)[member], member_idents(decl)[member]) is Err,
    ensures
        names_spec(decl) is Err,
{
    match decl {
        DeclarationView::Struct(decl) => {
            let fields = decl.fields->Named_0;
            lemma_first_error(field_outcomes(fields), 0);
            assert(field_outcomes(fields)[member] is Err);
        },
        DeclarationView::Enum(decl) => {
            lemma_first_error(variant_outcomes(decl.variants), 0);
            assert(variant_outcomes(decl.variants)[member] is Err);
        },
        _ => {},
    }
}

} // verus!
