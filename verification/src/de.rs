//! The deserializer that is derived for a struct or an enum.
//!
//! A struct is read as a map, in two phases. While keys arrive, each key that
//! is the external name of a field opens the slot of that field (of the first
//! such field in declaration order); any other key is skipped. At the end
//! every slot must hold a value, and the struct is built from them; an empty
//! slot fails the whole value. An enum is read from a string: the first
//! variant whose external name is that string, and a failure if there is
//! none.

use vstd::prelude::*;
use vstd::string::*;
use crate::decl::{
    views, Declaration, DeclarationView, Enum, EnumVariant, EnumVariantView, EnumView, NamedField,
    NamedFieldView, Struct, StructFields, StructFieldsView, StructView,
};
use crate::emit::{code_view, derives, in_const, wrap_in_const, BORROW};
use crate::error::Error;
use crate::generics::{
    add_lifetime, bounded_where_clause, derive_where_clause, inline_args_text,
    optional_inline_args_text, optional_params_text, optional_where_text, params_text,
    where_text, with_lifetime, write_inline_args, write_optional_inline_args,
    write_optional_params, write_optional_where, write_params, write_where,
};
use crate::resolve::{enum_names, field_names, names_spec};
use crate::spell::{spell_all, spells};
use crate::text::{concat, concat_texts};

verus! {

/// The trait that the emitted code implements.
pub const DESERIALIZE: &'static str = "miniserde::Deserialize";

/// The name of the constant that scopes the impls for the type `name`.
pub open spec fn dummy_name(name: Seq<char>) -> Seq<char> {
    "_IMPL_MINIDESERIALIZE_FOR_"@ + name
}

/// The place that receives the finished value.
pub open spec fn visitor_text(
    name: Seq<char>,
    params: Seq<char>,
    args: Seq<char>,
    where_clause: Seq<char>,
) -> Seq<char> {
    "#[repr(C)] struct __Visitor "@ + params + " "@ + where_clause
        + " { __out: miniserde::__private::Option<"@ + name + " "@ + args + ">, }"@
}

/// The impl of the trait: the caller's slot for the value, seen as the place.
pub open spec fn begin_text(
    name: Seq<char>,
    params: Seq<char>,
    args: Seq<char>,
    bounded: Seq<char>,
) -> Seq<char> {
    "impl "@ + params + " miniserde::Deserialize for "@ + name + " "@ + args + " "@ + bounded
        + " { fn begin(__out: &mut miniserde::__private::Option<Self>) -> &mut dyn miniserde::de::Visitor { unsafe { &mut *{ __out as *mut miniserde::__private::Option<Self> as *mut __Visitor "@
        + args + " } } } }"@
}

/// The initialiser of one field's slot: empty.
pub open spec fn empty_slot(field: Seq<char>) -> Seq<char> {
    field + ": miniserde::Deserialize::default(), "@
}

/// The initialisers of all the slots, in declaration order.
pub open spec fn empty_slots(fields: Seq<NamedFieldView>) -> Seq<char> {
    concat(fields.map_values(|field: NamedFieldView| empty_slot(field.name)))
}

/// The place accepts a map: it opens a state with every slot empty.
pub open spec fn visitor_impl_text(
    params: Seq<char>,
    args: Seq<char>,
    bounded: Seq<char>,
    slots: Seq<char>,
) -> Seq<char> {
    "impl "@ + params + " miniserde::de::Visitor for __Visitor "@ + args + " "@ + bounded
        + " { fn map(&mut self) -> miniserde::Result<miniserde::__private::Box<dyn miniserde::de::Map + '_>> { Ok(miniserde::__private::Box::new(__State { "@
        + slots + "__out: &mut self.__out, })) } }"@
}

/// The declaration of one field's slot: an optional value of the field's
/// type.
pub open spec fn slot(field: Seq<char>, ty: Seq<char>) -> Seq<char> {
    field + ": miniserde::__private::Option<"@ + ty + ">, "@
}

/// The declarations of all the slots, in declaration order.
pub open spec fn slots(fields: Seq<NamedFieldView>) -> Seq<char> {
    concat(fields.map_values(|field: NamedFieldView| slot(field.name, field.ty)))
}

/// The state of a map that is being read: one slot for each field, and where
/// the finished value goes.
pub open spec fn state_text(
    name: Seq<char>,
    args: Seq<char>,
    wrapper_params: Seq<char>,
    where_clause: Seq<char>,
    slots: Seq<char>,
) -> Seq<char> {
    "struct __State "@ + wrapper_params + " "@ + where_clause + " { "@ + slots
        + "__out: &'__a mut miniserde::__private::Option<"@ + name + " "@ + args + ">, }"@
}

/// The arm that opens the slot of the field whose external name is spelled
/// `literal`.
pub open spec fn key_arm(literal: Seq<char>, field: Seq<char>) -> Seq<char> {
    literal + " => miniserde::__private::Ok(miniserde::Deserialize::begin(&mut self."@ + field
        + ")), "@
}

/// The arms for all the fields, in declaration order.
pub open spec fn key_arms(fields: Seq<NamedFieldView>, spelled: Seq<Seq<char>>) -> Seq<char> {
    concat(Seq::new(fields.len(), |i: int| key_arm(spelled[i], fields[i].name)))
}

/// The statement that takes one field's value out of its slot, or fails the
/// whole value if the slot is empty.
pub open spec fn take(field: Seq<char>) -> Seq<char> {
    "let "@ + field + " = self."@ + field + ".take().ok_or(miniserde::Error)?; "@
}

/// The statements that take all the values, in declaration order.
pub open spec fn takes(fields: Seq<NamedFieldView>) -> Seq<char> {
    concat(fields.map_values(|field: NamedFieldView| take(field.name)))
}

/// One field of the finished value.
pub open spec fn init(field: Seq<char>) -> Seq<char> {
    field + ", "@
}

/// All the fields of the finished value, in declaration order.
pub open spec fn inits(fields: Seq<NamedFieldView>) -> Seq<char> {
    concat(fields.map_values(|field: NamedFieldView| init(field.name)))
}

/// The map itself: a key opens the slot of the first field that answers to
/// it, any other key is skipped; the end builds the value from the slots.
pub open spec fn map_impl_text(
    name: Seq<char>,
    wrapper_params: Seq<char>,
    wrapper_args: Seq<char>,
    bounded: Seq<char>,
    key_arms: Seq<char>,
    takes: Seq<char>,
    inits: Seq<char>,
) -> Seq<char> {
    "impl "@ + wrapper_params + " miniserde::de::Map for __State "@ + wrapper_args + " "@ + bounded
        + " { fn key(&mut self, __k: &miniserde::__private::str) -> miniserde::Result<&mut dyn miniserde::de::Visitor> { match __k { "@
        + key_arms
        + "_ => miniserde::__private::Ok(<dyn miniserde::de::Visitor>::ignore()), } } fn finish(&mut self) -> miniserde::Result<()> { "@
        + takes + "*self.__out = miniserde::__private::Some("@ + name + " { "@ + inits
        + "}); miniserde::__private::Ok(()) } }"@
}

/// The code emitted for a struct with named fields whose external names are
/// spelled `spelled`.
pub open spec fn struct_text(decl: StructView, spelled: Seq<Seq<char>>) -> Seq<char> {
    let fields = decl.fields->Named_0;
    let params = optional_params_text(decl.generic_params);
    let args = optional_inline_args_text(decl.generic_params);
    let own = optional_where_text(decl.where_clause);
    let bounded = where_text(
        derive_where_clause(decl.where_clause, decl.generic_params, DESERIALIZE@),
    );
    let wrapper = with_lifetime(decl.generic_params, BORROW@);
    in_const(
        dummy_name(decl.name),
        visitor_text(decl.name, params, args, own) + " "@ + begin_text(
            decl.name,
            params,
            args,
            bounded,
        ) + " "@ + visitor_impl_text(params, args, bounded, empty_slots(fields)) + " "@
            + state_text(decl.name, args, params_text(wrapper), own, slots(fields)) + " "@
            + map_impl_text(
            decl.name,
            params_text(wrapper),
            inline_args_text(wrapper),
            bounded,
            key_arms(fields, spelled),
            takes(fields),
            inits(fields),
        ),
    )
}

/// The arm that yields the variant whose external name is spelled `literal`.
pub open spec fn variant_arm(literal: Seq<char>, name: Seq<char>, variant: Seq<char>) -> Seq<char> {
    literal + " => "@ + name + "::"@ + variant + ", "@
}

/// The arms for all the variants, in declaration order.
pub open spec fn variant_arms(
    name: Seq<char>,
    variants: Seq<EnumVariantView>,
    spelled: Seq<Seq<char>>,
) -> Seq<char> {
    concat(Seq::new(variants.len(), |i: int| variant_arm(spelled[i], name, variants[i].name)))
}

/// The place accepts a string: the first arm that matches it gives the
/// variant; a string that no arm matches is an error.
pub open spec fn string_impl_text(arms: Seq<char>) -> Seq<char> {
    "impl miniserde::de::Visitor for __Visitor { fn string(&mut self, s: &miniserde::__private::str) -> miniserde::Result<()> { let value = match s { "@
        + arms
        + "_ => return miniserde::__private::Err(miniserde::Error), }; self.__out = miniserde::__private::Some(value); miniserde::__private::Ok(()) } }"@
}

/// The code emitted for an enum whose variants' external names are spelled
/// `spelled`.
pub open spec fn enum_text(decl: EnumView, spelled: Seq<Seq<char>>) -> Seq<char> {
    in_const(
        dummy_name(decl.name),
        visitor_text(decl.name, ""@, ""@, ""@) + " "@ + begin_text(decl.name, ""@, ""@, ""@) + " "@
            + string_impl_text(variant_arms(decl.name, decl.variants, spelled)),
    )
}

/// The code emitted for a declaration whose members' external names are
/// spelled `spelled`.
pub open spec fn text(decl: DeclarationView, spelled: Seq<Seq<char>>) -> Seq<char> {
    match decl {
        DeclarationView::Struct(decl) => struct_text(decl, spelled),
        DeclarationView::Enum(decl) => enum_text(decl, spelled),
        _ => Seq::empty(),
    }
}

/// Writes the place that receives the finished value.
fn write_visitor(name: &str, params: &str, args: &str, where_clause: &str) -> (out: String)
    ensures
        out@ == visitor_text(name@, params@, args@, where_clause@),
{
    let mut out = String::from_str("#[repr(C)] struct __Visitor ");
    out.append(params);
    out.append(" ");
    out.append(where_clause);
    out.append(" { __out: miniserde::__private::Option<");
    out.append(name);
    out.append(" ");
    out.append(args);
    out.append(">, }");
    out
}

/// Writes the impl of the trait.
fn write_begin(name: &str, params: &str, args: &str, bounded: &str) -> (out: String)
    ensures
        out@ == begin_text(name@, params@, args@, bounded@),
{
    let mut out = String::from_str("impl ");
    out.append(params);
    out.append(" miniserde::Deserialize for ");
    out.append(name);
    out.append(" ");
    out.append(args);
    out.append(" ");
    out.append(bounded);
    out.append(
        " { fn begin(__out: &mut miniserde::__private::Option<Self>) -> &mut dyn miniserde::de::Visitor { unsafe { &mut *{ __out as *mut miniserde::__private::Option<Self> as *mut __Visitor ",
    );
    out.append(args);
    out.append(" } } } }");
    out
}

/// Writes the initialisers of all the slots.
fn write_empty_slots(fields: &Vec<NamedField>) -> (out: String)
    ensures
        out@ == empty_slots(views(fields@)),
{
    let mut pieces: Vec<String> = Vec::new();
    let mut i: usize = 0;
    while i < fields.len()
        invariant
            i <= fields.len(),
            pieces.len() == i,
            forall|k: int| 0 <= k < i ==> #[trigger] pieces@[k]@ == empty_slot(fields@[k]@.name),
        decreases fields.len() - i,
    {
        let mut piece = fields[i].name.clone();
        piece.append(": miniserde::Deserialize::default(), ");
        pieces.push(piece);
        i += 1;
    }
    assert(views(pieces@) =~= views(fields@).map_values(
        |field: NamedFieldView| empty_slot(field.name),
    ));
    concat_texts(&pieces)
}

/// Writes the impl that accepts a map.
fn write_visitor_impl(params: &str, args: &str, bounded: &str, slots: &str) -> (out: String)
    ensures
        out@ == visitor_impl_text(params@, args@, bounded@, slots@),
{
    let mut out = String::from_str("impl ");
    out.append(params);
    out.append(" miniserde::de::Visitor for __Visitor ");
    out.append(args);
    out.append(" ");
    out.append(bounded);
    out.append(
        " { fn map(&mut self) -> miniserde::Result<miniserde::__private::Box<dyn miniserde::de::Map + '_>> { Ok(miniserde::__private::Box::new(__State { ",
    );
    out.append(slots);
    out.append("__out: &mut self.__out, })) } }");
    out
}

/// Writes the declarations of all the slots.
fn write_slots(fields: &Vec<NamedField>) -> (out: String)
    ensures
        out@ == slots(views(fields@)),
{
    let mut pieces: Vec<String> = Vec::new();
    let mut i: usize = 0;
    while i < fields.len()
        invariant
            i <= fields.len(),
            pieces.len() == i,
            forall|k: int|
                0 <= k < i ==> #[trigger] pieces@[k]@ == slot(fields@[k]@.name, fields@[k]@.ty),
        decreases fields.len() - i,
    {
        let mut piece = fields[i].name.clone();
        piece.append(": miniserde::__private::Option<");
        piece.append(fields[i].ty.as_str());
        piece.append(">, ");
        pieces.push(piece);
        i += 1;
    }
    assert(views(pieces@) =~= views(fields@).map_values(
        |field: NamedFieldView| slot(field.name, field.ty),
    ));
    concat_texts(&pieces)
}

/// Writes the state of a map that is being read.
fn write_state(name: &str, args: &str, wrapper_params: &str, where_clause: &str, slots: &str) -> (out:
    String)
    ensures
        out@ == state_text(name@, args@, wrapper_params@, where_clause@, slots@),
{
    let mut out = String::from_str("struct __State ");
    out.append(wrapper_params);
    out.append(" ");
    out.append(where_clause);
    out.append(" { ");
    out.append(slots);
    out.append("__out: &'__a mut miniserde::__private::Option<");
    out.append(name);
    out.append(" ");
    out.append(args);
    out.append(">, }");
    out
}

/// Writes the arms that open the slots.
fn write_key_arms(fields: &Vec<NamedField>, spelled: &Vec<String>) -> (out: String)
    requires
        spelled.len() == fields.len(),
    ensures
        out@ == key_arms(views(fields@), views(spelled@)),
{
    let mut pieces: Vec<String> = Vec::new();
    let mut i: usize = 0;
    while i < fields.len()
        invariant
            i <= fields.len(),
            spelled.len() == fields.len(),
            pieces.len() == i,
            forall|k: int|
                0 <= k < i ==> #[trigger] pieces@[k]@ == key_arm(spelled@[k]@, fields@[k]@.name),
        decreases fields.len() - i,
    {
        let mut piece = spelled[i].clone();
        piece.append(" => miniserde::__private::Ok(miniserde::Deserialize::begin(&mut self.");
        piece.append(fields[i].name.as_str());
        piece.append(")), ");
        pieces.push(piece);
        i += 1;
    }
    assert(views(pieces@) =~= Seq::new(
        views(fields@).len(),
        |i: int| key_arm(views(spelled@)[i], views(fields@)[i].name),
    ));
    concat_texts(&pieces)
}

/// Writes the statements that take the values out of the slots.
fn write_takes(fields: &Vec<NamedField>) -> (out: String)
    ensures
        out@ == takes(views(fields@)),
{
    let mut pieces: Vec<String> = Vec::new();
    let mut i: usize = 0;
    while i < fields.len()
        invariant
            i <= fields.len(),
            pieces.len() == i,
            forall|k: int| 0 <= k < i ==> #[trigger] pieces@[k]@ == take(fields@[k]@.name),
        decreases fields.len() - i,
    {
        let mut piece = String::from_str("let ");
        piece.append(fields[i].name.as_str());
        piece.append(" = self.");
        piece.append(fields[i].name.as_str());
        piece.append(".take().ok_or(miniserde::Error)?; ");
        pieces.push(piece);
        i += 1;
    }
    assert(views(pieces@) =~= views(fields@).map_values(
        |field: NamedFieldView| take(field.name),
    ));
    concat_texts(&pieces)
}

/// Writes the fields of the finished value.
fn write_inits(fields: &Vec<NamedField>) -> (out: String)
    ensures
        out@ == inits(views(fields@)),
{
    let mut pieces: Vec<String> = Vec::new();
    let mut i: usize = 0;
    while i < fields.len()
        invariant
            i <= fields.len(),
            pieces.len() == i,
            forall|k: int| 0 <= k < i ==> #[trigger] pieces@[k]@ == init(fields@[k]@.name),
        decreases fields.len() - i,
    {
        let mut piece = fields[i].name.clone();
        piece.append(", ");
        pieces.push(piece);
        i += 1;
    }
    assert(views(pieces@) =~= views(fields@).map_values(
        |field: NamedFieldView| init(field.name),
    ));
    concat_texts(&pieces)
}

/// Writes the map itself.
fn write_map_impl(
    name: &str,
    wrapper_params: &str,
    wrapper_args: &str,
    bounded: &str,
    key_arms: &str,
    takes: &str,
    inits: &str,
) -> (out: String)
    ensures
        out@ == map_impl_text(
            name@,
            wrapper_params@,
            wrapper_args@,
            bounded@,
            key_arms@,
            takes@,
            inits@,
        ),
{
    let mut out = String::from_str("impl ");
    out.append(wrapper_params);
    out.append(" miniserde::de::Map for __State ");
    out.append(wrapper_args);
    out.append(" ");
    out.append(bounded);
    out.append(
        " { fn key(&mut self, __k: &miniserde::__private::str) -> miniserde::Result<&mut dyn miniserde::de::Visitor> { match __k { ",
    );
    out.append(key_arms);
    out.append(
        "_ => miniserde::__private::Ok(<dyn miniserde::de::Visitor>::ignore()), } } fn finish(&mut self) -> miniserde::Result<()> { ",
    );
    out.append(takes);
    out.append("*self.__out = miniserde::__private::Some(");
    out.append(name);
    out.append(" { ");
    out.append(inits);
    out.append("}); miniserde::__private::Ok(()) } }");
    out
}

/// Writes the deserializer of a struct with named fields, given the literal
/// of each field's external name.
pub fn emit_struct(decl: &Struct, spelled: &Vec<String>) -> (out: String)
    requires
        decl@.fields matches StructFieldsView::Named(fields) && spelled.len() == fields.len(),
    ensures
        out@ == struct_text(decl@, views(spelled@)),
{
    let mut dummy = String::from_str("_IMPL_MINIDESERIALIZE_FOR_");
    dummy.append(decl.name.as_str());
    let name = decl.name.as_str();
    let params = write_optional_params(&decl.generic_params);
    let args = write_optional_inline_args(&decl.generic_params);
    let own = write_optional_where(&decl.where_clause);
    let bounded = write_where(
        &bounded_where_clause(&decl.where_clause, &decl.generic_params, DESERIALIZE),
    );
    let wrapper = add_lifetime(&decl.generic_params, BORROW);
    let wrapper_params = write_params(&wrapper);
    let wrapper_args = write_inline_args(&wrapper);
    match &decl.fields {
        StructFields::Named(fields) => {
            let mut items = write_visitor(name, params.as_str(), args.as_str(), own.as_str());
            items.append(" ");
            items.append(
                write_begin(name, params.as_str(), args.as_str(), bounded.as_str()).as_str(),
            );
            items.append(" ");
            items.append(
                write_visitor_impl(
                    params.as_str(),
                    args.as_str(),
                    bounded.as_str(),
                    write_empty_slots(fields).as_str(),
                ).as_str(),
            );
            items.append(" ");
            items.append(
                write_state(
                    name,
                    args.as_str(),
                    wrapper_params.as_str(),
                    own.as_str(),
                    write_slots(fields).as_str(),
                ).as_str(),
            );
            items.append(" ");
            items.append(
                write_map_impl(
                    name,
                    wrapper_params.as_str(),
                    wrapper_args.as_str(),
                    bounded.as_str(),
                    write_key_arms(fields, spelled).as_str(),
                    write_takes(fields).as_str(),
                    write_inits(fields).as_str(),
                ).as_str(),
            );
            wrap_in_const(dummy.as_str(), items.as_str())
        },
        _ => String::new(),
    }
}

/// Writes the arms that yield the variants.
fn write_variant_arms(name: &str, variants: &Vec<EnumVariant>, spelled: &Vec<String>) -> (out:
    String)
    requires
        spelled.len() == variants.len(),
    ensures
        out@ == variant_arms(name@, views(variants@), views(spelled@)),
{
    let mut pieces: Vec<String> = Vec::new();
    let mut i: usize = 0;
    while i < variants.len()
        invariant
            i <= variants.len(),
            spelled.len() == variants.len(),
            pieces.len() == i,
            forall|k: int|
                0 <= k < i ==> #[trigger] pieces@[k]@ == variant_arm(
                    spelled@[k]@,
                    name@,
                    variants@[k]@.name,
                ),
        decreases variants.len() - i,
    {
        let mut piece = spelled[i].clone();
        piece.append(" => ");
        piece.append(name);
        piece.append("::");
        piece.append(variants[i].name.as_str());
        piece.append(", ");
        pieces.push(piece);
        i += 1;
    }
    assert(views(pieces@) =~= Seq::new(
        views(variants@).len(),
        |i: int| variant_arm(views(spelled@)[i], name@, views(variants@)[i].name),
    ));
    concat_texts(&pieces)
}

/// Writes the deserializer of an enum, given the literal of each variant's
/// external name.
pub fn emit_enum(decl: &Enum, spelled: &Vec<String>) -> (out: String)
    requires
        spelled.len() == decl.variants.len(),
    ensures
        out@ == enum_text(decl@, views(spelled@)),
{
    let mut dummy = String::from_str("_IMPL_MINIDESERIALIZE_FOR_");
    dummy.append(decl.name.as_str());
    let name = decl.name.as_str();
    let arms = write_variant_arms(name, &decl.variants, spelled);
    let mut string_impl = String::from_str(
        "impl miniserde::de::Visitor for __Visitor { fn string(&mut self, s: &miniserde::__private::str) -> miniserde::Result<()> { let value = match s { ",
    );
    string_impl.append(arms.as_str());
    string_impl.append(
        "_ => return miniserde::__private::Err(miniserde::Error), }; self.__out = miniserde::__private::Some(value); miniserde::__private::Ok(()) } }",
    );
    let mut items = write_visitor(name, "", "", "");
    items.append(" ");
    items.append(write_begin(name, "", "", "").as_str());
    items.append(" ");
    items.append(string_impl.as_str());
    wrap_in_const(dummy.as_str(), items.as_str())
}

/// Derives the deserializer of a struct.
pub fn derive_struct(decl: &Struct) -> (out: Result<String, Error>)
    ensures
        derives(
            DeclarationView::Struct(decl@),
            |decl: DeclarationView, spelled: Seq<Seq<char>>| text(decl, spelled),
            code_view(out),
        ),
{
    match &decl.fields {
        StructFields::Named(fields) => {
            match field_names(fields) {
                Ok(names) => {
                    let spelled = spell_all(&names);
                    let code = emit_struct(decl, &spelled);
                    assert(spells(
                        names_spec(DeclarationView::Struct(decl@))->Ok_0,
                        views(spelled@),
                    ));
                    Ok(code)
                },
                Err(error) => Err(error),
            }
        },
        _ => Err(Error::UnsupportedFields),
    }
}

/// Derives the deserializer of an enum.
pub fn derive_enum(decl: &Enum) -> (out: Result<String, Error>)
    ensures
        derives(
            DeclarationView::Enum(decl@),
            |decl: DeclarationView, spelled: Seq<Seq<char>>| text(decl, spelled),
            code_view(out),
        ),
{
    match enum_names(decl) {
        Ok(names) => {
            let spelled = spell_all(&names);
            let code = emit_enum(decl, &spelled);
            assert(spells(names_spec(DeclarationView::Enum(decl@))->Ok_0, views(spelled@)));
            Ok(code)
        },
        Err(error) => Err(error),
    }
}

/// Derives the deserializer of a declaration: the code to emit, or why none
/// is emitted.
pub fn derive(input: &Declaration) -> (out: Result<String, Error>)
    ensures
        derives(
            input@,
            |decl: DeclarationView, spelled: Seq<Seq<char>>| text(decl, spelled),
            code_view(out),
        ),
{
    match input {
        Declaration::Struct(decl) => derive_struct(decl),
        Declaration::Enum(decl) => derive_enum(decl),
        _ => Err(Error::UnsupportedDeclaration),
    }
}

} // verus!
