//! The generic header of the emitted impls.
//!
//! An impl for `S<'a, T: Bound>` repeats the parameters after `impl`, names
//! them again after the type (`S<'a, T,>`), and bounds each type parameter by
//! the derived trait in its `where` clause. The helper types of the emitted
//! code borrow from the value and carry one more lifetime in front.

use vstd::prelude::*;
use vstd::string::*;
use crate::decl::{
    views, GenericParam, GenericParamList, GenericParamListView, GenericParamView, ParamKind,
    WhereClause, WhereClauseView,
};
use crate::text::{concat, concat_texts, copy_texts, punctuated, punctuated_text};

verus! {

/// What stands before the name of a parameter of this kind.
pub open spec fn prefix(kind: ParamKind) -> Seq<char> {
    match kind {
        ParamKind::Lifetime => "'"@,
        ParamKind::Type => ""@,
        ParamKind::Const => "const "@,
    }
}

/// A parameter as it is declared: prefix, name, and the bound after a colon.
pub open spec fn param_text(param: GenericParamView) -> Seq<char> {
    match param.bound {
        Some(bound) => prefix(param.kind) + param.name + ": "@ + bound,
        None => prefix(param.kind) + param.name,
    }
}

/// Each parameter as it is declared.
pub open spec fn param_texts(params: Seq<GenericParamView>) -> Seq<Seq<char>> {
    params.map_values(|param: GenericParamView| param_text(param))
}

/// The parameter list as it is declared, between `<` and `>`.
pub open spec fn params_text(list: GenericParamListView) -> Seq<char> {
    "<"@ + punctuated(param_texts(list.params), list.trailing_comma) + ">"@
}

/// The parameter list as it is declared; nothing where there is none.
pub open spec fn optional_params_text(list: Option<GenericParamListView>) -> Seq<char> {
    match list {
        Some(list) => params_text(list),
        None => Seq::empty(),
    }
}

/// A parameter as an argument: its name, with the tick for a lifetime, and a
/// comma.
pub open spec fn arg_text(param: GenericParamView) -> Seq<char> {
    match param.kind {
        ParamKind::Lifetime => "'"@ + param.name + ","@,
        _ => ""@ + param.name + ","@,
    }
}

/// The parameters as the arguments of the type they belong to: `<'a,T,>`.
pub open spec fn inline_args_text(list: GenericParamListView) -> Seq<char> {
    "<"@ + concat(list.params.map_values(|param: GenericParamView| arg_text(param))) + ">"@
}

/// The parameters as arguments; nothing where there is no parameter list.
pub open spec fn optional_inline_args_text(list: Option<GenericParamListView>) -> Seq<char> {
    match list {
        Some(list) => inline_args_text(list),
        None => Seq::empty(),
    }
}

/// A lifetime parameter without bounds.
pub open spec fn lifetime(name: Seq<char>) -> GenericParamView {
    GenericParamView { kind: ParamKind::Lifetime, name, bound: None }
}

/// The parameter list with the lifetime `name` put in front. A list that had
/// parameters keeps its trailing comma; a new list has none.
pub open spec fn with_lifetime(
    list: Option<GenericParamListView>,
    name: Seq<char>,
) -> GenericParamListView {
    match list {
        Some(list) if list.params.len() > 0 => GenericParamListView {
            params: seq![lifetime(name)] + list.params,
            trailing_comma: list.trailing_comma,
        },
        _ => GenericParamListView { params: seq![lifetime(name)], trailing_comma: false },
    }
}

/// One item `T: derived` for each type parameter among the first `upto`.
pub open spec fn type_bounds(
    params: Seq<GenericParamView>,
    derived: Seq<char>,
    upto: int,
) -> Seq<Seq<char>>
    decreases upto,
{
    if upto <= 0 {
        Seq::empty()
    } else if params[upto - 1].kind == ParamKind::Type {
        type_bounds(params, derived, upto - 1).push(params[upto - 1].name + ": "@ + derived)
    } else {
        type_bounds(params, derived, upto - 1)
    }
}

/// The items that bound every type parameter by `derived`.
pub open spec fn derived_bounds(
    params: Option<GenericParamListView>,
    derived: Seq<char>,
) -> Seq<Seq<char>> {
    match params {
        Some(list) => type_bounds(list.params, derived, list.params.len() as int),
        None => Seq::empty(),
    }
}

/// The `where` clause of an impl of `derived`: the declaration's own items,
/// then one bound for each type parameter. Where bounds were added no comma
/// trails; otherwise the clause is the declaration's own, or an empty one.
pub open spec fn derive_where_clause(
    where_clause: Option<WhereClauseView>,
    params: Option<GenericParamListView>,
    derived: Seq<char>,
) -> WhereClauseView {
    let own = match where_clause {
        Some(clause) => clause,
        None => WhereClauseView { items: Seq::empty(), trailing_comma: true },
    };
    let added = derived_bounds(params, derived);
    WhereClauseView {
        items: own.items + added,
        trailing_comma: if added.len() == 0 {
            own.trailing_comma
        } else {
            false
        },
    }
}

/// A `where` clause as it is written. Without items it is the bare keyword.
pub open spec fn where_text(clause: WhereClauseView) -> Seq<char> {
    "where "@ + punctuated(clause.items, clause.trailing_comma)
}

/// A `where` clause as it is written; nothing where there is none.
pub open spec fn optional_where_text(clause: Option<WhereClauseView>) -> Seq<char> {
    match clause {
        Some(clause) => where_text(clause),
        None => Seq::empty(),
    }
}

/// What stands before the name of a parameter of this kind.
fn prefix_of(kind: ParamKind) -> (out: &'static str)
    ensures
        out@ == prefix(kind),
{
    match kind {
        ParamKind::Lifetime => "'",
        ParamKind::Type => "",
        ParamKind::Const => "const ",
    }
}

/// Writes a parameter as it is declared.
fn write_param(param: &GenericParam) -> (out: String)
    ensures
        out@ == param_text(param@),
{
    let mut out = String::from_str(prefix_of(param.kind));
    out.append(param.name.as_str());
    match &param.bound {
        Some(bound) => {
            out.append(": ");
            out.append(bound.as_str());
        },
        None => {},
    }
    out
}

/// Writes the parameter list as it is declared.
pub fn write_params(list: &GenericParamList) -> (out: String)
    ensures
        out@ == params_text(list@),
{
    let mut texts: Vec<String> = Vec::new();
    let mut i: usize = 0;
    while i < list.params.len()
        invariant
            i <= list.params.len(),
            texts.len() == i,
            forall|k: int| 0 <= k < i ==> #[trigger] texts@[k]@ == param_text(list.params@[k]@),
        decreases list.params.len() - i,
    {
        texts.push(write_param(&list.params[i]));
        i += 1;
    }
    assert(views(texts@) =~= param_texts(list@.params));
    let inner = punctuated_text(&texts, list.trailing_comma);
    let mut out = String::from_str("<");
    out.append(inner.as_str());
    out.append(">");
    out
}

/// Writes the parameter list as it is declared; nothing where there is none.
pub fn write_optional_params(list: &Option<GenericParamList>) -> (out: String)
    ensures
        out@ == optional_params_text(
            match list {
                Some(list) => Some(list@),
                None => None,
            },
        ),
{
    match list {
        Some(list) => write_params(list),
        None => String::new(),
    }
}

/// Writes a parameter as an argument.
fn write_arg(param: &GenericParam) -> (out: String)
    ensures
        out@ == arg_text(param@),
{
    let mut out = match param.kind {
        ParamKind::Lifetime => String::from_str("'"),
        _ => String::from_str(""),
    };
    out.append(param.name.as_str());
    out.append(",");
    out
}

/// Writes the parameters as the arguments of the type they belong to.
pub fn write_inline_args(list: &GenericParamList) -> (out: String)
    ensures
        out@ == inline_args_text(list@),
{
    let mut pieces: Vec<String> = Vec::new();
    let mut i: usize = 0;
    while i < list.params.len()
        invariant
            i <= list.params.len(),
            pieces.len() == i,
            forall|k: int| 0 <= k < i ==> #[trigger] pieces@[k]@ == arg_text(list.params@[k]@),
        decreases list.params.len() - i,
    {
        pieces.push(write_arg(&list.params[i]));
        i += 1;
    }
    assert(views(pieces@) =~= list@.params.map_values(|param: GenericParamView| arg_text(param)));
    let inner = concat_texts(&pieces);
    let mut out = String::from_str("<");
    out.append(inner.as_str());
    out.append(">");
    out
}

/// Writes the parameters as arguments; nothing where there is no list.
pub fn write_optional_inline_args(list: &Option<GenericParamList>) -> (out: String)
    ensures
        out@ == optional_inline_args_text(
            match list {
                Some(list) => Some(list@),
                None => None,
            },
        ),
{
    match list {
        Some(list) => write_inline_args(list),
        None => String::new(),
    }
}

/// A copy of a parameter.
fn copy_param(param: &GenericParam) -> (out: GenericParam)
    ensures
        out@ == param@,
{
    GenericParam {
        kind: param.kind,
        name: param.name.clone(),
        bound: match &param.bound {
            Some(bound) => Some(bound.clone()),
            None => None,
        },
    }
}

/// The parameter list with the lifetime `name` put in front.
pub fn add_lifetime(list: &Option<GenericParamList>, name: &str) -> (out: GenericParamList)
    ensures
        out@ == with_lifetime(
            match list {
                Some(list) => Some(list@),
                None => None,
            },
            name@,
        ),
{
    let first = GenericParam {
        kind: ParamKind::Lifetime,
        name: String::from_str(name),
        bound: None,
    };
    let mut params: Vec<GenericParam> = Vec::new();
    params.push(first);
    match list {
        Some(list) => {
            if list.params.len() == 0 {
                assert(views(params@) =~= seq![lifetime(name@)]);
                return GenericParamList { params, trailing_comma: false };
            }
            let mut i: usize = 0;
            while i < list.params.len()
                invariant
                    i <= list.params.len(),
                    params.len() == i + 1,
                    params@[0]@ == lifetime(name@),
                    forall|k: int| 1 <= k <= i ==> #[trigger] params@[k]@ == list.params@[k - 1]@,
                decreases list.params.len() - i,
            {
                params.push(copy_param(&list.params[i]));
                i += 1;
            }
            assert(views(params@) =~= seq![lifetime(name@)] + list@.params);
            GenericParamList { params, trailing_comma: list.trailing_comma }
        },
        None => {
            assert(views(params@) =~= seq![lifetime(name@)]);
            GenericParamList { params, trailing_comma: false }
        },
    }
}

/// The `where` clause of an impl of `derived` for a declaration with this
/// clause and these parameters.
pub fn bounded_where_clause(
    where_clause: &Option<WhereClause>,
    params: &Option<GenericParamList>,
    derived: &str,
) -> (out: WhereClause)
    ensures
        out@ == derive_where_clause(
            match where_clause {
                Some(clause) => Some(clause@),
                None => None,
            },
            match params {
                Some(list) => Some(list@),
                None => None,
            },
            derived@,
        ),
{
    let mut items: Vec<String> = match where_clause {
        Some(clause) => copy_texts(&clause.items),
        None => Vec::new(),
    };
    let own_comma = match where_clause {
        Some(clause) => clause.trailing_comma,
        None => true,
    };
    let ghost own = views(items@);
    assert(own =~= match where_clause {
        Some(clause) => clause@.items,
        None => Seq::empty(),
    });
    let mut added: usize = 0;
    match params {
        Some(list) => {
            let ghost declared = list@.params;
            let mut i: usize = 0;
            while i < list.params.len()
                invariant
                    i <= list.params.len(),
                    declared == views(list.params@),
                    added <= i,
                    added == type_bounds(declared, derived@, i as int).len(),
                    views(items@) == own + type_bounds(declared, derived@, i as int),
                decreases list.params.len() - i,
            {
                match list.params[i].kind {
                    ParamKind::Type => {
                        let mut item = list.params[i].name.clone();
                        item.append(": ");
                        item.append(derived);
                        let ghost before = views(items@);
                        let ghost bound = item@;
                        items.push(item);
                        added += 1;
                        assert(before.push(bound) =~= own + type_bounds(
                            declared,
                            derived@,
                            i as int + 1,
                        ));
                    },
                    _ => {},
                }
                i += 1;
            }
        },
        None => {},
    }
    WhereClause { items, trailing_comma: added == 0 && own_comma }
}

/// Writes a `where` clause.
pub fn write_where(clause: &WhereClause) -> (out: String)
    ensures
        out@ == where_text(clause@),
{
    let inner = punctuated_text(&clause.items, clause.trailing_comma);
    let mut out = String::from_str("where ");
    out.append(inner.as_str());
    out
}

/// Writes a `where` clause; nothing where there is none.
pub fn write_optional_where(clause: &Option<WhereClause>) -> (out: String)
    ensures
        out@ == optional_where_text(
            match clause {
                Some(clause) => Some(clause@),
                None => None,
            },
        ),
{
    match clause {
        Some(clause) => write_where(clause),
        None => String::new(),
    }
}

} // verus!
