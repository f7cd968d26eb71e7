use derive_venial::attr::ExternalName;
use derive_venial::de;
use derive_venial::decl::{
    Attribute, AttributeValue, Declaration, Enum, EnumVariant, GenericParam, GenericParamList,
    NamedField, ParamKind, Struct, StructFields, Token, WhereClause,
};
use derive_venial::error::{Anchor, AttrError, Defect, Error, Site};
use derive_venial::resolve::names;
use derive_venial::ser;
use proc_macro2::{TokenStream, TokenTree};
use quote::ToTokens;

fn token(parsed: &TokenTree) -> Token {
    match parsed {
        TokenTree::Ident(ident) => Token::Ident(ident.to_string()),
        TokenTree::Punct(punct) => Token::Punct(punct.as_char()),
        TokenTree::Literal(literal) => Token::Literal(literal.to_string()),
        TokenTree::Group(_) => Token::Group,
    }
}

fn attribute(parsed: &venial::Attribute) -> Attribute {
    Attribute {
        path: parsed
            .path
            .iter()
            .filter_map(|segment| match segment {
                TokenTree::Ident(ident) => Some(ident.to_string()),
                _ => None,
            })
            .collect(),
        value: match &parsed.value {
            venial::AttributeValue::Empty => AttributeValue::Empty,
            venial::AttributeValue::Equals(_, _) => AttributeValue::Equals,
            venial::AttributeValue::Group(_, tokens) => {
                AttributeValue::Group(tokens.iter().map(token).collect())
            }
        },
    }
}

fn fields(parsed: &venial::StructFields) -> StructFields {
    match parsed {
        venial::StructFields::Unit => StructFields::Unit,
        venial::StructFields::Tuple(_) => StructFields::Tuple,
        venial::StructFields::Named(named) => StructFields::Named(
            named
                .fields
                .items()
                .map(|field| NamedField {
                    attributes: field.attributes.iter().map(attribute).collect(),
                    name: field.name.to_string(),
                    ty: field.ty.to_token_stream().to_string(),
                })
                .collect(),
        ),
    }
}

fn generic_params(parsed: &venial::GenericParamList) -> GenericParamList {
    GenericParamList {
        params: parsed
            .params
            .items()
            .map(|param| GenericParam {
                kind: if param.is_lifetime() {
                    ParamKind::Lifetime
                } else if param.is_const() {
                    ParamKind::Const
                } else {
                    ParamKind::Type
                },
                name: param.name.to_string(),
                bound: param.bound.as_ref().map(|bound| {
                    bound.tokens.iter().cloned().collect::<TokenStream>().to_string()
                }),
            })
            .collect(),
        trailing_comma: !parsed.params.skip_last,
    }
}

fn declaration(source: &str) -> Declaration {
    match venial::parse_declaration(source.parse().unwrap()).unwrap() {
        venial::Declaration::Struct(decl) => Declaration::Struct(Struct {
            name: decl.name.to_string(),
            generic_params: decl.generic_params.as_ref().map(generic_params),
            where_clause: decl.where_clause.as_ref().map(|clause| WhereClause {
                items: clause
                    .items
                    .items()
                    .map(|item| item.to_token_stream().to_string())
                    .collect(),
                trailing_comma: !clause.items.skip_last,
            }),
            fields: fields(&decl.fields),
        }),
        venial::Declaration::Enum(decl) => Declaration::Enum(Enum {
            name: decl.name.to_string(),
            generic_params: decl.generic_params.as_ref().map(generic_params),
            variants: decl
                .variants
                .items()
                .map(|variant| EnumVariant {
                    attributes: variant.attributes.iter().map(attribute).collect(),
                    name: variant.name.to_string(),
                    contents: fields(&variant.contents),
                })
                .collect(),
        }),
        venial::Declaration::Union(_) => Declaration::Union,
        _ => Declaration::Other,
    }
}

fn flatten(stream: TokenStream, out: &mut Vec<String>) {
    for tree in stream {
        match tree {
            TokenTree::Group(group) => {
                out.push(format!("{:?} open", group.delimiter()));
                flatten(group.stream(), out);
                out.push(format!("{:?} close", group.delimiter()));
            }
            other => out.push(other.to_string()),
        }
    }
}

fn tokens(code: &str) -> Vec<String> {
    let stream: TokenStream = code.parse().unwrap();
    let mut out = vec![];
    flatten(stream, &mut out);
    out
}

fn holds(code: &[String], piece: &str) -> bool {
    let piece = tokens(piece);
    code.windows(piece.len()).any(|window| window == piece.as_slice())
}

#[test]
fn a_parsed_struct_is_derived() {
    let decl = declaration(
        r#"
        /// A point.
        #[derive(Debug)]
        pub struct Point<T: Copy> {
            #[serde(rename = "X")]
            pub x: T,
            #[doc = "height"]
            pub(crate) y: Vec<T>,
        }
        "#,
    );
    assert_eq!(
        names(&decl),
        Ok(vec![
            ExternalName::Renamed("\"X\"".to_string()),
            ExternalName::Identifier("y".to_string()),
        ])
    );
    let code = tokens(&ser::derive(&decl).unwrap());
    assert!(holds(
        &code,
        "impl<T: Copy> miniserde::Serialize for Point<T,> where T: miniserde::Serialize"
    ));
    assert!(holds(&code, r#"0usize => miniserde::__private::Some((miniserde::__private::Cow::Borrowed("X"), &self.data.x,)),"#));
    assert!(holds(&code, r#"1usize => miniserde::__private::Some((miniserde::__private::Cow::Borrowed("y"), &self.data.y,)),"#));
    let code = tokens(&de::derive(&decl).unwrap());
    assert!(holds(
        &code,
        "impl<'__a, T: Copy> miniserde::de::Map for __State<'__a, T,> where T: miniserde::Deserialize"
    ));
    assert!(holds(&code, "x: miniserde::__private::Option<T>, y: miniserde::__private::Option<Vec<T>>,"));
    assert!(holds(&code, r#""X" => miniserde::__private::Ok(miniserde::Deserialize::begin(&mut self.x)),"#));
    assert!(holds(&code, r#""y" => miniserde::__private::Ok(miniserde::Deserialize::begin(&mut self.y)),"#));
    assert!(holds(&code, "let x = self.x.take().ok_or(miniserde::Error)?; let y = self.y.take().ok_or(miniserde::Error)?;"));
    assert!(holds(&code, "miniserde::__private::Some(Point { x, y, })"));
}

#[test]
fn a_parsed_enum_is_derived() {
    let decl = declaration(
        r#"
        enum Tag {
            A,
            #[serde(rename = "b")]
            B,
        }
        "#,
    );
    let code = tokens(&ser::derive(&decl).unwrap());
    assert!(holds(&code, r#"Tag::A => { miniserde::ser::Fragment::Str(miniserde::__private::Cow::Borrowed("A")) }"#));
    assert!(holds(&code, r#"Tag::B => { miniserde::ser::Fragment::Str(miniserde::__private::Cow::Borrowed("b")) }"#));
    let code = tokens(&de::derive(&decl).unwrap());
    assert!(holds(&code, r#""A" => Tag::A, "b" => Tag::B, _ => return miniserde::__private::Err(miniserde::Error),"#));
}

#[test]
fn parsed_shapes_are_refused() {
    for source in ["struct S;", "struct S(u8, u8);", "struct S();"] {
        let decl = declaration(source);
        assert_eq!(ser::derive(&decl), Err(Error::UnsupportedFields), "{source}");
        assert_eq!(de::derive(&decl), Err(Error::UnsupportedFields), "{source}");
    }
    for source in ["enum E<T> { A, B(T) }", "enum E<'a> { A }", "enum E<> { A }"] {
        let decl = declaration(source);
        assert_eq!(ser::derive(&decl), Err(Error::GenericEnum), "{source}");
        assert_eq!(de::derive(&decl), Err(Error::GenericEnum), "{source}");
    }
    for source in ["enum E { A, B(u8), C { x: u8 } }", "enum E { A, B { x: u8 } }"] {
        let decl = declaration(source);
        assert_eq!(ser::derive(&decl), Err(Error::VariantWithFields { variant: 1 }), "{source}");
        assert_eq!(de::derive(&decl), Err(Error::VariantWithFields { variant: 1 }), "{source}");
    }
    for source in ["union U { a: u8, b: u16 }", "fn f() {}", "type T = u8;", "mod m {}"] {
        let decl = declaration(source);
        assert_eq!(ser::derive(&decl), Err(Error::UnsupportedDeclaration), "{source}");
        assert_eq!(de::derive(&decl), Err(Error::UnsupportedDeclaration), "{source}");
    }
}

#[test]
fn parsed_directives_are_judged() {
    let cases = [
        ("#[serde(rename = \"a\")] #[serde(rename = \"b\")]", Defect::DuplicateRename, Site::Attribute(1)),
        ("#[serde(rename = \"a\")] #[doc = \"x\"] #[serde]", Defect::DuplicateRename, Site::Attribute(2)),
        ("#[serde]", Defect::UnsupportedAttribute, Site::Payload(0)),
        ("#[serde = \"a\"]", Defect::UnsupportedAttribute, Site::Payload(0)),
        ("#[serde()]", Defect::UnsupportedAttribute, Site::Payload(0)),
        ("#[serde(skip)]", Defect::UnsupportedAttribute, Site::Token(0, 0)),
        ("#[serde(\"rename\" = \"a\")]", Defect::UnsupportedAttribute, Site::Payload(0)),
        ("#[serde(rename \"a\")]", Defect::UnsupportedAttribute, Site::Payload(0)),
        ("#[serde(rename(\"a\"))]", Defect::UnsupportedAttribute, Site::Payload(0)),
        ("#[serde(rename = a)]", Defect::UnsupportedAttribute, Site::Payload(0)),
        ("#[serde(rename =)]", Defect::UnsupportedAttribute, Site::Payload(0)),
        ("#[serde(rename = -1)]", Defect::UnsupportedAttribute, Site::Payload(0)),
    ];
    for (attributes, defect, site) in cases {
        let error = Error::Attribute { member: 1, error: AttrError { defect, site } };
        let decl = declaration(&format!("struct S {{ a: u8, {attributes} b: u8 }}"));
        assert_eq!(ser::derive(&decl), Err(error), "{attributes}");
        assert_eq!(de::derive(&decl), Err(error), "{attributes}");
        let decl = declaration(&format!("enum E {{ A, {attributes} B }}"));
        assert_eq!(ser::derive(&decl), Err(error), "{attributes}");
        assert_eq!(de::derive(&decl), Err(error), "{attributes}");
        assert_eq!(error.anchor(), Anchor::Within { member: 1, site });
    }
}

#[test]
fn parsed_directives_are_accepted() {
    let cases = [
        ("#[serde(rename = \"a b\")]", "\"a b\""),
        ("#[serde(rename = \"a\", other)]", "\"a\""),
        ("#[serde(rename = \"a\" \"b\" c)]", "\"a\""),
        ("#[serde(rename = r#\"a\"#)]", "r#\"a\"#"),
        ("#[serde(rename = 'a')]", "'a'"),
        ("#[serde(rename = 1)]", "1"),
        ("#[serde[rename = \"a\"]]", "\"a\""),
        ("#[serde{rename = \"a\"}]", "\"a\""),
        ("#[::serde(rename = \"a\")]", "\"a\""),
        ("#[serde::x(skip)] #[x::serde(skip)] #[serde(rename = \"a\")] #[rename]", "\"a\""),
    ];
    for (attributes, literal) in cases {
        let decl = declaration(&format!("struct S {{ {attributes} a: u8 }}"));
        assert_eq!(
            names(&decl),
            Ok(vec![ExternalName::Renamed(literal.to_string())]),
            "{attributes}"
        );
    }
}
