//! The literal under which an external name stands in the emitted code.
//!
//! A renamed member keeps the literal of its directive, letter for letter. A
//! member without a directive gets its identifier as a string literal, which
//! `proc_macro2` spells: always between double quotes, and letter for letter
//! where the identifier is made of ASCII letters, digits and `_`.

use vstd::prelude::*;
use crate::attr::{ExternalName, ExternalNameView};
use crate::decl::views;

verus! {

/// Whether a string literal holds `c` as it is, whoever spells the literal.
pub open spec fn plain_char(c: char) -> bool {
    ('a' <= c && c <= 'z') || ('A' <= c && c <= 'Z') || ('0' <= c && c <= '9') || c == '_'
}

/// Whether the text is made of ASCII letters, digits and `_` alone.
pub open spec fn plain(text: Seq<char>) -> bool {
    forall|i: int| 0 <= i < text.len() ==> plain_char(#[trigger] text[i])
}

/// The text between two double quotes.
pub open spec fn quoted(text: Seq<char>) -> Seq<char> {
    seq!['"'] + text + seq!['"']
}

/// Whether `out` is a string literal for `text`, as far as that is known of
/// every spelling: it stands between double quotes, and it is the quoted text
/// itself where the text is plain.
pub open spec fn quotes(text: Seq<char>, out: Seq<char>) -> bool {
    &&& out.len() >= 2
    &&& out[0] == '"'
    &&& out[out.len() - 1] == '"'
    &&& plain(text) ==> out == quoted(text)
}

/// `proc_macro2::Literal::string` on `text`, then the literal's own text.
///
/// The outside crate spells the literal itself when it runs on its own: a
/// double quote, each character of the text as it is or escaped, a double
/// quote; ASCII letters, digits and `_` are never escaped. Inside a macro
/// expansion it leaves the spelling to the compiler, whose string literals
/// have the same form. The two may escape other characters differently, so
/// the result is pinned down for plain text only.
#[verifier::external_body]
fn string_literal(text: &str) -> (out: String)
    ensures
        quotes(text@, out@),
{
    proc_macro2::Literal::string(text).to_string()
}

/// Whether `literal` can stand for `name`: the literal of the directive for a
/// renamed member, a string literal for the identifier of any other.
pub open spec fn spells_name(name: ExternalNameView, literal: Seq<char>) -> bool {
    match name {
        ExternalNameView::Renamed(written) => literal == written,
        ExternalNameView::Identifier(text) => quotes(text, literal),
    }
}

/// Whether `spelled` can stand for `names`: one literal for each name, in the
/// same order.
pub open spec fn spells(names: Seq<ExternalNameView>, spelled: Seq<Seq<char>>) -> bool {
    &&& spelled.len() == names.len()
    &&& forall|i: int| 0 <= i < names.len() ==> spells_name(#[trigger] names[i], spelled[i])
}

/// The literal of each name where nothing is left to the spelling: the
/// literal of the directive, or the identifier between double quotes.
pub open spec fn written_out(names: Seq<ExternalNameView>) -> Seq<Seq<char>> {
    names.map_values(
        |name: ExternalNameView|
            match name {
                ExternalNameView::Renamed(literal) => literal,
                ExternalNameView::Identifier(text) => quoted(text),
            },
    )
}

/// The literal that stands for `name` in the emitted code.
pub fn spell(name: &ExternalName) -> (out: String)
    ensures
        spells_name(name@, out@),
{
    match name {
        ExternalName::Renamed(literal) => literal.clone(),
        ExternalName::Identifier(text) => string_literal(text.as_str()),
    }
}

/// The literal for each name, in the same order.
pub fn spell_all(names: &Vec<ExternalName>) -> (out: Vec<String>)
    ensures
        spells(views(names@), views(out@)),
{
    let mut out: Vec<String> = Vec::new();
    let mut i: usize = 0;
    while i < names.len()
        invariant
            i <= names.len(),
            out.len() == i,
            forall|k: int| 0 <= k < i ==> spells_name(#[trigger] names@[k]@, out@[k]@),
        decreases names.len() - i,
    {
        out.push(spell(&names[i]));
        i += 1;
    }
    out
}

/// A member whose identifier is plain stands in the emitted code as that
/// identifier between double quotes, and a renamed member as the literal of
/// its directive: the spelling of such names is one and the same everywhere.
pub proof fn law_plain_names_have_one_spelling(
    names: Seq<ExternalNameView>,
    one: Seq<Seq<char>>,
    other: Seq<Seq<char>>,
)
    requires
        spells(names, one),
        spells(names, other),
        forall|i: int|
            0 <= i < names.len() ==> (#[trigger] names[i] matches ExternalNameView::Identifier(text)
                ==> plain(text)),
    ensures
        one == other,
        one == written_out(names),
{
    assert forall|i: int| 0 <= i < names.len() implies one[i] == other[i] by {
        assert(spells_name(names[i], one[i]));
        assert(spells_name(names[i], other[i]));
    }
    assert(one =~= other);
    assert(one =~= written_out(names));
}

} // verus!
