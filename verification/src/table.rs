//! The table of names that the emitted code of a declaration answers to.
//!
//! The emitted code holds each external name as a literal and compares keys
//! with the string that the literal stands for. For a member without a
//! directive that string is its identifier. For a renamed member it is the
//! text between the quotes, where the literal of the directive is a string
//! literal without escapes; any other literal (an escape, a raw string, a
//! number) is not interpreted here, and the declaration then has no table.

use vstd::prelude::*;
use vstd::string::*;
use crate::attr::{is_marker, ExternalName, ExternalNameView};
use crate::decl::{views, DeclarationView, EnumView, NamedFieldView, StructView};
use crate::protocol::{
    complete, correctly_keyed, distinct, law_enum_round_trip, law_struct_round_trip_in_any_order,
    law_unknown_name_is_refused, read_enum_spec, read_struct_spec, write_enum_spec, ReadError,
};
use crate::resolve::{
    enum_names_spec, law_names_follow_members, law_plain_struct_goes_by_identifiers,
    struct_names_spec,
};
use crate::spell::{plain, quoted, spells, spells_name};

verus! {

/// Whether `c` stands for itself between the quotes of a string literal.
pub open spec fn verbatim_char(c: char) -> bool {
    c != '"' && c != '\\' && c != '\r'
}

/// The string that a literal stands for, where the literal is a string
/// literal whose characters all stand for themselves.
pub open spec fn unquoted(literal: Seq<char>) -> Option<Seq<char>> {
    if literal.len() >= 2 && literal[0] == '"' && literal[literal.len() - 1] == '"' && forall|
        i: int,
    | 1 <= i < literal.len() - 1 ==> verbatim_char(#[trigger] literal[i]) {
        Some(literal.subrange(1, literal.len() - 1))
    } else {
        None
    }
}

/// The string that the emitted code compares a key with for this name, where
/// it is known.
pub open spec fn wire_name(name: ExternalNameView) -> Option<Seq<char>> {
    match name {
        ExternalNameView::Identifier(text) => Some(text),
        ExternalNameView::Renamed(literal) => unquoted(literal),
    }
}

/// The table of a declaration with these external names: the string of each
/// name, in declaration order, if every one of them is known.
pub open spec fn table_spec(names: Seq<ExternalNameView>) -> Option<Seq<Seq<char>>> {
    if forall|i: int| 0 <= i < names.len() ==> wire_name(#[trigger] names[i]) is Some {
        Some(names.map_values(|name: ExternalNameView| wire_name(name)->Some_0))
    } else {
        None
    }
}

/// A string or nothing, with the string as a sequence of characters.
pub open spec fn text_view(result: Option<String>) -> Option<Seq<char>> {
    match result {
        Some(text) => Some(text@),
        None => None,
    }
}

/// Reads a string literal without escapes.
pub fn unquote(literal: &str) -> (out: Option<String>)
    ensures
        text_view(out) == unquoted(literal@),
{
    let length = literal.unicode_len();
    if length < 2 {
        return None;
    }
    if literal.get_char(0) != '"' || literal.get_char(length - 1) != '"' {
        return None;
    }
    let mut i: usize = 1;
    while i < length - 1
        invariant
            length == literal@.len(),
            length >= 2,
            1 <= i <= length - 1,
            forall|k: int| 1 <= k < i ==> verbatim_char(#[trigger] literal@[k]),
        decreases length - i,
    {
        let c = literal.get_char(i);
        if c == '"' || c == '\\' || c == '\r' {
            return None;
        }
        i += 1;
    }
    Some(String::from_str(literal.substring_char(1, length - 1)))
}

/// The string that the emitted code compares a key with for this name.
pub fn name_on_the_wire(name: &ExternalName) -> (out: Option<String>)
    ensures
        text_view(out) == wire_name(name@),
{
    match name {
        ExternalName::Identifier(text) => Some(text.clone()),
        ExternalName::Renamed(literal) => unquote(literal.as_str()),
    }
}

/// The table of a declaration with these external names.
pub fn table(names: &Vec<ExternalName>) -> (out: Option<Vec<String>>)
    ensures
        match out {
            Some(table) => table_spec(views(names@)) == Some(views(table@)),
            None => table_spec(views(names@)) is None,
        },
{
    let ghost list = views(names@);
    let mut out: Vec<String> = Vec::new();
    let mut i: usize = 0;
    while i < names.len()
        invariant
            i <= names.len(),
            list == views(names@),
            out.len() == i,
            forall|k: int| 0 <= k < i ==> wire_name(#[trigger] list[k]) == Some(out@[k]@),
        decreases names.len() - i,
    {
        assert(list[i as int] == names@[i as int]@);
        match name_on_the_wire(&names[i]) {
            Some(text) => {
                out.push(text);
            },
            None => {
                return None;
            },
        }
        i += 1;
    }
    assert(views(out@) =~= list.map_values(|name: ExternalNameView| wire_name(name)->Some_0));
    Some(out)
}

/// A text without quotes, backslashes and carriage returns reads back from
/// between its quotes.
pub proof fn law_quoted_reads_back(text: Seq<char>)
    requires
        forall|i: int| 0 <= i < text.len() ==> verbatim_char(#[trigger] text[i]),
    ensures
        unquoted(quoted(text)) == Some(text),
{
    let literal = quoted(text);
    assert forall|i: int| 1 <= i < literal.len() - 1 implies verbatim_char(
        #[trigger] literal[i],
    ) by {
        assert(literal[i] == text[i - 1]);
    }
    assert(literal.subrange(1, literal.len() - 1) =~= text);
}

/// The table and the emitted code agree: the literal that the arm of a
/// member holds is the member's entry in the table between double quotes,
/// for a renamed member always and for any other where its identifier is
/// plain.
pub proof fn law_the_arms_hold_the_table(
    names: Seq<ExternalNameView>,
    spelled: Seq<Seq<char>>,
    member: int,
)
    requires
        table_spec(names) is Some,
        spells(names, spelled),
        0 <= member < names.len(),
        names[member] matches ExternalNameView::Identifier(text) ==> plain(text),
    ensures
        spelled[member] == quoted(table_spec(names)->Some_0[member]),
{
    assert(spells_name(names[member], spelled[member]));
    assert(wire_name(names[member]) is Some);
    match names[member] {
        ExternalNameView::Identifier(text) => {},
        ExternalNameView::Renamed(literal) => {
            assert(literal =~= quoted(literal.subrange(1, literal.len() - 1)));
        },
    }
}

/// A struct with named fields of which none carries a `serde` attribute has
/// the identifiers of its fields as its table, in declaration order.
pub proof fn law_plain_struct_answers_to_its_identifiers(decl: StructView)
    requires
        decl.fields is Named,
        forall|i: int, j: int|
            0 <= i < decl.fields->Named_0.len() && 0 <= j
                < decl.fields->Named_0[i].attributes.len() ==> !is_marker(
                #[trigger] decl.fields->Named_0[i].attributes[j],
            ),
    ensures
        struct_names_spec(decl) is Ok,
        table_spec(struct_names_spec(decl)->Ok_0) == Some(
            decl.fields->Named_0.map_values(|field: NamedFieldView| field.name),
        ),
{
    law_plain_struct_goes_by_identifiers(decl);
    let names = struct_names_spec(decl)->Ok_0;
    assert(table_spec(names)->Some_0 =~= decl.fields->Named_0.map_values(
        |field: NamedFieldView| field.name,
    ));
}

/// A struct with named fields, no `serde` attribute and no identifier used
/// twice reads back what was written for it: from a complete and correctly
/// keyed input, in whatever order its pairs come, every field gets its own
/// value.
pub proof fn law_plain_struct_round_trip<V>(
    decl: StructView,
    values: Seq<V>,
    input: Seq<(Seq<char>, V)>,
)
    requires
        decl.fields is Named,
        forall|i: int, j: int|
            0 <= i < decl.fields->Named_0.len() && 0 <= j
                < decl.fields->Named_0[i].attributes.len() ==> !is_marker(
                #[trigger] decl.fields->Named_0[i].attributes[j],
            ),
        forall|i: int, j: int|
            0 <= i < decl.fields->Named_0.len() && 0 <= j < decl.fields->Named_0.len() && i != j
                ==> decl.fields->Named_0[i].name != decl.fields->Named_0[j].name,
        values.len() == decl.fields->Named_0.len(),
        correctly_keyed(table_spec(struct_names_spec(decl)->Ok_0)->Some_0, values, input),
        complete(table_spec(struct_names_spec(decl)->Ok_0)->Some_0, input),
    ensures
        struct_names_spec(decl) is Ok,
        table_spec(struct_names_spec(decl)->Ok_0) is Some,
        read_struct_spec(table_spec(struct_names_spec(decl)->Ok_0)->Some_0, input) == Ok::<
            Seq<V>,
            ReadError,
        >(values),
{
    law_plain_struct_answers_to_its_identifiers(decl);
    let names = table_spec(struct_names_spec(decl)->Ok_0)->Some_0;
    assert(distinct(names));
    law_struct_round_trip_in_any_order(names, values, input);
}

/// An enum that has a table reads every one of its names back to a variant
/// that is written under the same name, and refuses, as an unknown name, a
/// string that is the name of no variant.
pub proof fn law_declared_enum_round_trip(decl: EnumView, variant: int, text: Seq<char>)
    requires
        enum_names_spec(decl) is Ok,
        table_spec(enum_names_spec(decl)->Ok_0) is Some,
        0 <= variant < decl.variants.len(),
    ensures
        ({
            let table = table_spec(enum_names_spec(decl)->Ok_0)->Some_0;
            &&& table.len() == decl.variants.len()
            &&& read_enum_spec(table, table[variant]) is Ok
            &&& write_enum_spec(table, read_enum_spec(table, table[variant])->Ok_0)
                == table[variant]
            &&& (forall|i: int| 0 <= i < table.len() ==> table[i] != text) ==> read_enum_spec(
                table,
                text,
            ) == Err::<int, ReadError>(ReadError::UnknownName)
        }),
{
    law_names_follow_members(DeclarationView::Enum(decl));
    let table = table_spec(enum_names_spec(decl)->Ok_0)->Some_0;
    law_enum_round_trip(table, variant);
    law_unknown_name_is_refused(table, text);
}

} // verus!
