//! What the two derives share when they write code: the constant that scopes
//! the emitted items, and the shape of a derive's result.

use vstd::prelude::*;
use vstd::string::*;
use crate::attr::ExternalNameView;
use crate::decl::DeclarationView;
use crate::error::Error;
use crate::resolve::{law_unsupported_shapes_are_refused, names_spec, unsupported_shape};
use crate::spell::{law_plain_names_have_one_spelling, plain, spells, written_out};

verus! {

/// The lifetime for which the helper types of the emitted code borrow.
pub const BORROW: &'static str = "__a";

/// The emitted items, wrapped in an unnamed scope: a constant of unit type
/// called `name` whose initialiser is a block that holds them.
pub open spec fn in_const(name: Seq<char>, items: Seq<char>) -> Seq<char> {
    "#[allow(non_upper_case_globals)] const "@ + name + ": () = { "@ + items + " };"@
}

/// Wraps the emitted items in a constant called `name`.
pub fn wrap_in_const(name: &str, items: &str) -> (out: String)
    ensures
        out@ == in_const(name@, items@),
{
    let mut out = String::from_str("#[allow(non_upper_case_globals)] const ");
    out.append(name);
    out.append(": () = { ");
    out.append(items);
    out.append(" };");
    out
}

/// What a derive may return for `decl`, where `text` says what is emitted for
/// given literals.
///
/// It fails exactly where resolving the names fails, with that error. Where
/// it succeeds the code is `text` of the declaration and of literals that
/// spell its external names: for each renamed member the literal of its
/// directive, for every other member a string literal for its identifier,
/// which is the identifier between double quotes where that is plain.
pub open spec fn derives(
    decl: DeclarationView,
    text: spec_fn(DeclarationView, Seq<Seq<char>>) -> Seq<char>,
    out: Result<Seq<char>, Error>,
) -> bool {
    match out {
        Err(error) => names_spec(decl) == Err::<Seq<ExternalNameView>, Error>(error),
        Ok(code) => {
            &&& names_spec(decl) is Ok
            &&& exists|spelled: Seq<Seq<char>>|
                #[trigger] spells(names_spec(decl)->Ok_0, spelled) && code == text(decl, spelled)
        },
    }
}

/// Code or an error, with the code as a sequence of characters.
pub open spec fn code_view(result: Result<String, Error>) -> Result<Seq<char>, Error> {
    match result {
        Ok(code) => Ok(code@),
        Err(error) => Err(error),
    }
}

/// A derive emits code exactly where the names of the declaration resolve,
/// and fails with the error of the names where they do not.
pub proof fn law_code_iff_names_resolve(
    decl: DeclarationView,
    text: spec_fn(DeclarationView, Seq<Seq<char>>) -> Seq<char>,
    out: Result<Seq<char>, Error>,
)
    requires
        derives(decl, text, out),
    ensures
        out is Ok <==> names_spec(decl) is Ok,
        out is Err ==> names_spec(decl) is Err && out->Err_0 == names_spec(decl)->Err_0,
{
}

/// For a declaration of an unsupported shape a derive returns an error and
/// no code at all.
pub proof fn law_unsupported_shape_emits_nothing(
    decl: DeclarationView,
    text: spec_fn(DeclarationView, Seq<Seq<char>>) -> Seq<char>,
    out: Result<Seq<char>, Error>,
)
    requires
        unsupported_shape(decl),
        derives(decl, text, out),
    ensures
        out is Err,
        out->Err_0 == names_spec(decl)->Err_0,
{
    law_unsupported_shapes_are_refused(decl);
}

/// Where every member without a directive has a plain identifier, the code
/// of a derive is fully determined: it holds each such identifier between
/// double quotes and each directive's literal as it was written.
pub proof fn law_plain_names_pin_the_code(
    decl: DeclarationView,
    text: spec_fn(DeclarationView, Seq<Seq<char>>) -> Seq<char>,
    code: Seq<char>,
)
    requires
        derives(decl, text, Ok(code)),
        forall|i: int|
            0 <= i < names_spec(decl)->Ok_0.len() ==> (
            #[trigger] names_spec(decl)->Ok_0[i] matches ExternalNameView::Identifier(name)
                ==> plain(name)),
    ensures
        code == text(decl, written_out(names_spec(decl)->Ok_0)),
{
    let names = names_spec(decl)->Ok_0;
    let spelled = choose|spelled: Seq<Seq<char>>|
        #[trigger] spells(names, spelled) && code == text(decl, spelled);
    law_plain_names_have_one_spelling(names, spelled, spelled);
}

} // verus!
