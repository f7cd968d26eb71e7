//! The serializer that is derived for a struct or an enum.
//!
//! A struct is written as a map. The emitted code hands out one pair at a
//! time, in the order in which the fields are declared: the field's external
//! name and a reference to its value; after the last pair it reports the end.
//! An enum is written as a string: the external name of the variant at hand.

use vstd::prelude::*;
use vstd::string::*;
use crate::decl::{
    views, Declaration, DeclarationView, Enum, EnumVariant, EnumVariantView, EnumView, NamedField,
    NamedFieldView, Struct, StructFields, StructFieldsView, StructView,
};
use crate::emit::{code_view, derives, in_const, wrap_in_const, BORROW};
use crate::error::Error;
use crate::generics::{
    add_lifetime, bounded_where_clause, derive_where_clause, inline_args_text,
    optional_inline_args_text, optional_params_text, optional_where_text, params_text,
    where_text, with_lifetime, write_inline_args, write_optional_inline_args,
    write_optional_params, write_optional_where, write_params, write_where,
};
use crate::resolve::{enum_names, field_names, names_spec};
use crate::spell::{spell_all, spells};
use crate::text::{concat, concat_texts, decimal, decimal_text};

verus! {

/// The trait that the emitted code implements.
pub const SERIALIZE: &'static str = "miniserde::Serialize";

/// The name of the constant that scopes the impls for the type `name`.
pub open spec fn dummy_name(name: Seq<char>) -> Seq<char> {
    "_IMPL_MINISERIALIZE_FOR_"@ + name
}

/// The impl of the trait for a struct: it begins a map over the value.
pub open spec fn struct_impl_text(
    name: Seq<char>,
    params: Seq<char>,
    args: Seq<char>,
    bounded: Seq<char>,
) -> Seq<char> {
    "impl "@ + params + " miniserde::Serialize for "@ + name + " "@ + args + " "@ + bounded
        + " { fn begin(&self) -> miniserde::ser::Fragment { miniserde::ser::Fragment::Map(miniserde::__private::Box::new(__Map { data: self, state: 0, })) } }"@
}

/// The state of the map: the value and the position of the next pair.
pub open spec fn map_state_text(
    name: Seq<char>,
    args: Seq<char>,
    wrapper_params: Seq<char>,
    where_clause: Seq<char>,
) -> Seq<char> {
    "struct __Map "@ + wrapper_params + " "@ + where_clause + " { data: &'__a "@ + name + " "@
        + args + ", state: miniserde::__private::usize, }"@
}

/// The arm that hands out the pair at position `index`.
pub open spec fn pair_arm(index: nat, literal: Seq<char>, field: Seq<char>) -> Seq<char> {
    decimal(index) + "usize => miniserde::__private::Some((miniserde::__private::Cow::Borrowed("@
        + literal + "), &self.data."@ + field + ",)), "@
}

/// The arms for all the fields, in declaration order.
pub open spec fn pair_arms(fields: Seq<NamedFieldView>, spelled: Seq<Seq<char>>) -> Seq<char> {
    concat(Seq::new(fields.len(), |i: int| pair_arm(i as nat, spelled[i], fields[i].name)))
}

/// The map itself: each call hands out the pair at the current position and
/// moves on; past the last field it reports the end.
pub open spec fn map_impl_text(
    wrapper_params: Seq<char>,
    wrapper_args: Seq<char>,
    bounded: Seq<char>,
    arms: Seq<char>,
) -> Seq<char> {
    "impl "@ + wrapper_params + " miniserde::ser::Map for __Map "@ + wrapper_args + " "@ + bounded
        + " { fn next(&mut self) -> miniserde::__private::Option<(miniserde::__private::Cow<miniserde::__private::str>, &dyn miniserde::Serialize)> { let __state = self.state; self.state = __state + 1; match __state { "@
        + arms + "_ => miniserde::__private::None, } } }"@
}

/// The code emitted for a struct with named fields whose external names are
/// spelled `spelled`.
pub open spec fn struct_text(decl: StructView, spelled: Seq<Seq<char>>) -> Seq<char> {
    let fields = decl.fields->Named_0;
    let params = optional_params_text(decl.generic_params);
    let args = optional_inline_args_text(decl.generic_params);
    let bounded = where_text(
        derive_where_clause(decl.where_clause, decl.generic_params, SERIALIZE@),
    );
    let wrapper = with_lifetime(decl.generic_params, BORROW@);
    in_const(
        dummy_name(decl.name),
        struct_impl_text(decl.name, params, args, bounded) + " "@ + map_state_text(
            decl.name,
            args,
            params_text(wrapper),
            optional_where_text(decl.where_clause),
        ) + " "@ + map_impl_text(
            params_text(wrapper),
            inline_args_text(wrapper),
            bounded,
            pair_arms(fields, spelled),
        ),
    )
}

/// The arm that names one variant.
pub open spec fn variant_arm(name: Seq<char>, variant: Seq<char>, literal: Seq<char>) -> Seq<char> {
    name + "::"@ + variant
        + " => { miniserde::ser::Fragment::Str(miniserde::__private::Cow::Borrowed("@ + literal
        + ")) } "@
}

/// The arms for all the variants, in declaration order.
pub open spec fn variant_arms(
    name: Seq<char>,
    variants: Seq<EnumVariantView>,
    spelled: Seq<Seq<char>>,
) -> Seq<char> {
    concat(Seq::new(variants.len(), |i: int| variant_arm(name, variants[i].name, spelled[i])))
}

/// The impl of the trait for an enum: one arm for each variant, no other.
pub open spec fn enum_impl_text(name: Seq<char>, arms: Seq<char>) -> Seq<char> {
    "impl miniserde::Serialize for "@ + name
        + " { fn begin(&self) -> miniserde::ser::Fragment { match self { "@ + arms + "} } }"@
}

/// The code emitted for an enum whose variants' external names are spelled
/// `spelled`.
pub open spec fn enum_text(decl: EnumView, spelled: Seq<Seq<char>>) -> Seq<char> {
    in_const(
        dummy_name(decl.name),
        enum_impl_text(
            decl.name,
            variant_arms(decl.name, decl.variants, spelled),
        ),
    )
}

/// The code emitted for a declaration whose members' external names are
/// spelled `spelled`.
pub open spec fn text(decl: DeclarationView, spelled: Seq<Seq<char>>) -> Seq<char> {
    match decl {
        DeclarationView::Struct(decl) => struct_text(decl, spelled),
        DeclarationView::Enum(decl) => enum_text(decl, spelled),
        _ => Seq::empty(),
    }
}

/// Writes the impl of the trait for a struct.
fn write_struct_impl(name: &str, params: &str, args: &str, bounded: &str) -> (out: String)
    ensures
        out@ == struct_impl_text(name@, params@, args@, bounded@),
{
    let mut out = String::from_str("impl ");
    out.append(params);
    out.append(" miniserde::Serialize for ");
    out.append(name);
    out.append(" ");
    out.append(args);
    out.append(" ");
    out.append(bounded);
    out.append(
        " { fn begin(&self) -> miniserde::ser::Fragment { miniserde::ser::Fragment::Map(miniserde::__private::Box::new(__Map { data: self, state: 0, })) } }",
    );
    out
}

/// Writes the state of the map.
fn write_map_state(name: &str, args: &str, wrapper_params: &str, where_clause: &str) -> (out:
    String)
    ensures
        out@ == map_state_text(name@, args@, wrapper_params@, where_clause@),
{
    let mut out = String::from_str("struct __Map ");
    out.append(wrapper_params);
    out.append(" ");
    out.append(where_clause);
    out.append(" { data: &'__a ");
    out.append(name);
    out.append(" ");
    out.append(args);
    out.append(", state: miniserde::__private::usize, }");
    out
}

/// Writes the arms that hand out the pairs.
fn write_pair_arms(fields: &Vec<NamedField>, spelled: &Vec<String>) -> (out: String)
    requires
        spelled.len() == fields.len(),
    ensures
        out@ == pair_arms(views(fields@), views(spelled@)),
{
    let mut pieces: Vec<String> = Vec::new();
    let mut i: usize = 0;
    while i < fields.len()
        invariant
            i <= fields.len(),
            spelled.len() == fields.len(),
            pieces.len() == i,
            forall|k: int|
                0 <= k < i ==> #[trigger] pieces@[k]@ == pair_arm(
                    k as nat,
                    spelled@[k]@,
                    fields@[k]@.name,
                ),
        decreases fields.len() - i,
    {
        let mut piece = decimal_text(i);
        piece.append(
            "usize => miniserde::__private::Some((miniserde::__private::Cow::Borrowed(",
        );
        piece.append(spelled[i].as_str());
        piece.append("), &self.data.");
        piece.append(fields[i].name.as_str());
        piece.append(",)), ");
        pieces.push(piece);
        i += 1;
    }
    assert(views(pieces@) =~= Seq::new(
        views(fields@).len(),
        |i: int| pair_arm(i as nat, views(spelled@)[i], views(fields@)[i].name),
    ));
    concat_texts(&pieces)
}

/// Writes the map itself.
fn write_map_impl(wrapper_params: &str, wrapper_args: &str, bounded: &str, arms: &str) -> (out:
    String)
    ensures
        out@ == map_impl_text(wrapper_params@, wrapper_args@, bounded@, arms@),
{
    let mut out = String::from_str("impl ");
    out.append(wrapper_params);
    out.append(" miniserde::ser::Map for __Map ");
    out.append(wrapper_args);
    out.append(" ");
    out.append(bounded);
    out.append(
        " { fn next(&mut self) -> miniserde::__private::Option<(miniserde::__private::Cow<miniserde::__private::str>, &dyn miniserde::Serialize)> { let __state = self.state; self.state = __state + 1; match __state { ",
    );
    out.append(arms);
    out.append("_ => miniserde::__private::None, } } }");
    out
}

/// Writes the serializer of a struct with named fields, given the literal of
/// each field's external name.
pub fn emit_struct(decl: &Struct, spelled: &Vec<String>) -> (out: String)
    requires
        decl@.fields matches StructFieldsView::Named(fields) && spelled.len() == fields.len(),
    ensures
        out@ == struct_text(decl@, views(spelled@)),
{
    let mut dummy = String::from_str("_IMPL_MINISERIALIZE_FOR_");
    dummy.append(decl.name.as_str());
    let params = write_optional_params(&decl.generic_params);
    let args = write_optional_inline_args(&decl.generic_params);
    let bounded = write_where(
        &bounded_where_clause(&decl.where_clause, &decl.generic_params, SERIALIZE),
    );
    let wrapper = add_lifetime(&decl.generic_params, BORROW);
    let wrapper_params = write_params(&wrapper);
    let wrapper_args = write_inline_args(&wrapper);
    let where_clause = write_optional_where(&decl.where_clause);
    let arms = match &decl.fields {
        StructFields::Named(fields) => write_pair_arms(fields, spelled),
        _ => String::new(),
    };
    let mut items = write_struct_impl(
        decl.name.as_str(),
        params.as_str(),
        args.as_str(),
        bounded.as_str(),
    );
    items.append(" ");
    items.append(
        write_map_state(
            decl.name.as_str(),
            args.as_str(),
            wrapper_params.as_str(),
            where_clause.as_str(),
        ).as_str(),
    );
    items.append(" ");
    items.append(
        write_map_impl(
            wrapper_params.as_str(),
            wrapper_args.as_str(),
            bounded.as_str(),
            arms.as_str(),
        ).as_str(),
    );
    wrap_in_const(dummy.as_str(), items.as_str())
}

/// Writes the arms that name the variants.
fn write_variant_arms(name: &str, variants: &Vec<EnumVariant>, spelled: &Vec<String>) -> (out:
    String)
    requires
        spelled.len() == variants.len(),
    ensures
        out@ == variant_arms(name@, views(variants@), views(spelled@)),
{
    let mut pieces: Vec<String> = Vec::new();
    let mut i: usize = 0;
    while i < variants.len()
        invariant
            i <= variants.len(),
            spelled.len() == variants.len(),
            pieces.len() == i,
            forall|k: int|
                0 <= k < i ==> #[trigger] pieces@[k]@ == variant_arm(
                    name@,
                    variants@[k]@.name,
                    spelled@[k]@,
                ),
        decreases variants.len() - i,
    {
        let mut piece = String::from_str(name);
        piece.append("::");
        piece.append(variants[i].name.as_str());
        piece.append(" => { miniserde::ser::Fragment::Str(miniserde::__private::Cow::Borrowed(");
        piece.append(spelled[i].as_str());
        piece.append(")) } ");
        pieces.push(piece);
        i += 1;
    }
    assert(views(pieces@) =~= Seq::new(
        views(variants@).len(),
        |i: int| variant_arm(name@, views(variants@)[i].name, views(spelled@)[i]),
    ));
    concat_texts(&pieces)
}

/// Writes the serializer of an enum, given the literal of each variant's
/// external name.
pub fn emit_enum(decl: &Enum, spelled: &Vec<String>) -> (out: String)
    requires
        spelled.len() == decl.variants.len(),
    ensures
        out@ == enum_text(decl@, views(spelled@)),
{
    let mut dummy = String::from_str("_IMPL_MINISERIALIZE_FOR_");
    dummy.append(decl.name.as_str());
    let arms = write_variant_arms(decl.name.as_str(), &decl.variants, spelled);
    let mut items = String::from_str("impl miniserde::Serialize for ");
    items.append(decl.name.as_str());
    items.append(" { fn begin(&self) -> miniserde::ser::Fragment { match self { ");
    items.append(arms.as_str());
    items.append("} } }");
    wrap_in_const(dummy.as_str(), items.as_str())
}

/// Derives the serializer of a struct.
pub fn derive_struct(decl: &Struct) -> (out: Result<String, Error>)
    ensures
        derives(
            DeclarationView::Struct(decl@),
            |decl: DeclarationView, spelled: Seq<Seq<char>>| text(decl, spelled),
            code_view(out),
        ),
{
    match &decl.fields {
        StructFields::Named(fields) => {
            match field_names(fields) {
                Ok(names) => {
                    let spelled = spell_all(&names);
                    let code = emit_struct(decl, &spelled);
                    assert(spells(
                        names_spec(DeclarationView::Struct(decl@))->Ok_0,
                        views(spelled@),
                    ));
                    Ok(code)
                },
                Err(error) => Err(error),
            }
        },
        _ => Err(Error::UnsupportedFields),
    }
}

/// Derives the serializer of an enum.
pub fn derive_enum(decl: &Enum) -> (out: Result<String, Error>)
    ensures
        derives(
            DeclarationView::Enum(decl@),
            |decl: DeclarationView, spelled: Seq<Seq<char>>| text(decl, spelled),
            code_view(out),
        ),
{
    match enum_names(decl) {
        Ok(names) => {
            let spelled = spell_all(&names);
            let code = emit_enum(decl, &spelled);
            assert(spells(names_spec(DeclarationView::Enum(decl@))->Ok_0, views(spelled@)));
            Ok(code)
        },
        Err(error) => Err(error),
    }
}

/// Derives the serializer of a declaration: the code to emit, or why none is
/// emitted.
pub fn derive(input: &Declaration) -> (out: Result<String, Error>)
    ensures
        derives(
            input@,
            |decl: DeclarationView, spelled: Seq<Seq<char>>| text(decl, spelled),
            code_view(out),
        ),
{
    match input {
        Declaration::Struct(decl) => derive_struct(decl),
        Declaration::Enum(decl) => derive_enum(decl),
        _ => Err(Error::UnsupportedDeclaration),
    }
}

} // verus!
