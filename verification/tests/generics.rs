use derive_venial::decl::{GenericParam, GenericParamList, ParamKind, WhereClause};
use derive_venial::generics::{
    add_lifetime, bounded_where_clause, write_inline_args, write_optional_inline_args,
    write_optional_params, write_optional_where, write_params, write_where,
};
use proc_macro2::{TokenStream, TokenTree};
use quote::ToTokens;

fn flatten(stream: TokenStream, out: &mut Vec<String>) {
    for tree in stream {
        match tree {
            TokenTree::Group(group) => {
                out.push(format!("{:?} open", group.delimiter()));
                flatten(group.stream(), out);
                out.push(format!("{:?} close", group.delimiter()));
            }
            other => out.push(other.to_string()),
        }
    }
}

fn tokens(code: &str) -> Vec<String> {
    let stream: TokenStream = code.parse().unwrap();
    let mut out = vec![];
    flatten(stream, &mut out);
    out
}

fn tokens_of(value: &dyn Fn(&mut TokenStream)) -> Vec<String> {
    let mut stream = TokenStream::new();
    value(&mut stream);
    let mut out = vec![];
    flatten(stream, &mut out);
    out
}

fn parsed(source: &str) -> venial::Struct {
    match venial::parse_declaration(source.parse().unwrap()).unwrap() {
        venial::Declaration::Struct(decl) => decl,
        _ => panic!("not a struct"),
    }
}

fn params_of(decl: &venial::Struct) -> Option<GenericParamList> {
    decl.generic_params.as_ref().map(|list| GenericParamList {
        params: list
            .params
            .items()
            .map(|param| GenericParam {
                kind: if param.is_lifetime() {
                    ParamKind::Lifetime
                } else if param.is_const() {
                    ParamKind::Const
                } else {
                    ParamKind::Type
                },
                name: param.name.to_string(),
                bound: param.bound.as_ref().map(|bound| {
                    bound.tokens.iter().cloned().collect::<TokenStream>().to_string()
                }),
            })
            .collect(),
        trailing_comma: !list.params.skip_last,
    })
}

fn where_of(decl: &venial::Struct) -> Option<WhereClause> {
    decl.where_clause.as_ref().map(|clause| WhereClause {
        items: clause.items.items().map(|item| item.to_token_stream().to_string()).collect(),
        trailing_comma: !clause.items.skip_last,
    })
}

fn agrees_with_the_parser(source: &str) {
    let decl = parsed(source);
    let params = params_of(&decl);
    let clause = where_of(&decl);

    assert_eq!(
        tokens(&write_optional_params(&params)),
        tokens_of(&|out| decl.generic_params.to_tokens(out)),
        "parameters of {source}"
    );
    assert_eq!(
        tokens(&write_optional_inline_args(&params)),
        tokens_of(&|out| decl.get_inline_generic_args().to_tokens(out)),
        "arguments of {source}"
    );
    assert_eq!(
        tokens(&write_optional_where(&clause)),
        tokens_of(&|out| decl.where_clause.to_tokens(out)),
        "where clause of {source}"
    );
    let derived: TokenStream = "miniserde::Serialize".parse().unwrap();
    let bounded = decl.create_derive_where_clause(derived);
    assert_eq!(
        tokens(&write_where(&bounded_where_clause(&clause, &params, "miniserde::Serialize"))),
        tokens_of(&|out| bounded.to_tokens(out)),
        "bounded where clause of {source}"
    );
    let wrapper = decl.clone().with_param(venial::GenericParam::lifetime("__a"));
    let widened = add_lifetime(&params, "__a");
    assert_eq!(
        tokens(&write_params(&widened)),
        tokens_of(&|out| wrapper.generic_params.to_tokens(out)),
        "widened parameters of {source}"
    );
    assert_eq!(
        tokens(&write_inline_args(&widened)),
        tokens_of(&|out| wrapper.get_inline_generic_args().to_tokens(out)),
        "widened arguments of {source}"
    );
}

#[test]
fn no_generics() {
    agrees_with_the_parser("struct S { a: u8 }");
}

#[test]
fn empty_angle_brackets() {
    agrees_with_the_parser("struct S<> { a: u8 }");
}

#[test]
fn one_type_parameter() {
    agrees_with_the_parser("struct S<T> { a: T }");
}

#[test]
fn a_trailing_comma_is_kept() {
    agrees_with_the_parser("struct S<T,> { a: T }");
    agrees_with_the_parser("struct S<'a,> { a: &'a u8 }");
    agrees_with_the_parser("struct S<T, U,> where T: Copy, { a: T, b: U }");
}

#[test]
fn lifetimes_types_and_constants() {
    agrees_with_the_parser("struct S<'a, 'b: 'a, T: Clone + 'a, U, const N: usize> { a: &'a T }");
}

#[test]
fn only_lifetimes_and_constants_add_no_bound() {
    agrees_with_the_parser("struct S<'a, const N: usize> { a: &'a [u8; N] }");
    agrees_with_the_parser("struct S<'a> where 'a: 'static { a: &'a u8 }");
    agrees_with_the_parser("struct S<'a> where 'a: 'static, { a: &'a u8 }");
}

#[test]
fn where_clauses() {
    agrees_with_the_parser("struct S<T, U> where T: Copy, U: Iterator<Item = T> { a: T, b: U }");
    agrees_with_the_parser("struct S<T> where Vec<T>: Clone { a: T }");
    agrees_with_the_parser("struct S where u8: Copy { a: u8 }");
}

#[test]
fn the_pieces_read_as_expected() {
    let params = Some(GenericParamList {
        params: vec![
            GenericParam { kind: ParamKind::Lifetime, name: "a".to_string(), bound: None },
            GenericParam {
                kind: ParamKind::Type,
                name: "T".to_string(),
                bound: Some("Clone".to_string()),
            },
            GenericParam {
                kind: ParamKind::Const,
                name: "N".to_string(),
                bound: Some("usize".to_string()),
            },
        ],
        trailing_comma: false,
    });
    assert_eq!(write_optional_params(&params), "<'a, T: Clone, const N: usize>");
    assert_eq!(write_optional_inline_args(&params), "<'a,T,N,>");
    assert_eq!(write_optional_params(&None), "");
    assert_eq!(write_optional_inline_args(&None), "");
    assert_eq!(write_optional_where(&None), "");
    let clause = bounded_where_clause(&None, &params, "X");
    assert_eq!(clause, WhereClause { items: vec!["T: X".to_string()], trailing_comma: false });
    assert_eq!(write_where(&clause), "where T: X");
    let clause = bounded_where_clause(&None, &None, "X");
    assert_eq!(clause, WhereClause { items: vec![], trailing_comma: true });
    assert_eq!(write_where(&clause), "where ");
    let widened = add_lifetime(&params, "__a");
    assert_eq!(write_params(&widened), "<'__a, 'a, T: Clone, const N: usize>");
    assert_eq!(write_params(&add_lifetime(&None, "__a")), "<'__a>");
}
