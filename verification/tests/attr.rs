use derive_venial::attr::{attr_rename, name_of_field, name_of_variant, ExternalName};
use derive_venial::decl::{Attribute, AttributeValue, EnumVariant, NamedField, StructFields, Token};
use derive_venial::error::{AttrError, Defect, Error, Site};

fn ident(text: &str) -> Token {
    Token::Ident(text.to_string())
}

fn literal(text: &str) -> Token {
    Token::Literal(text.to_string())
}

fn serde(tokens: Vec<Token>) -> Attribute {
    Attribute { path: vec!["serde".to_string()], value: AttributeValue::Group(tokens) }
}

fn rename(to: &str) -> Attribute {
    serde(vec![ident("rename"), Token::Punct('='), literal(to)])
}

fn doc() -> Attribute {
    Attribute { path: vec!["doc".to_string()], value: AttributeValue::Equals }
}

fn unsupported(site: Site) -> AttrError {
    AttrError { defect: Defect::UnsupportedAttribute, site }
}

fn field(name: &str, attributes: Vec<Attribute>) -> NamedField {
    NamedField { attributes, name: name.to_string(), ty: "u8".to_string() }
}

#[test]
fn no_attributes_no_directive() {
    assert_eq!(attr_rename(&[]), Ok(None));
}

#[test]
fn other_attributes_are_skipped() {
    let derive = Attribute {
        path: vec!["derive".to_string()],
        value: AttributeValue::Group(vec![ident("Debug")]),
    };
    let cfg = Attribute { path: vec!["inline".to_string()], value: AttributeValue::Empty };
    assert_eq!(attr_rename(&[doc(), derive, cfg]), Ok(None));
}

#[test]
fn a_longer_path_is_not_the_marker() {
    let qualified = Attribute {
        path: vec!["serde".to_string(), "rename".to_string()],
        value: AttributeValue::Empty,
    };
    let empty_path = Attribute { path: vec![], value: AttributeValue::Empty };
    assert_eq!(attr_rename(&[qualified, empty_path]), Ok(None));
}

#[test]
fn the_marker_is_case_sensitive() {
    let shouted = Attribute {
        path: vec!["Serde".to_string()],
        value: AttributeValue::Group(vec![ident("nonsense")]),
    };
    assert_eq!(attr_rename(&[shouted]), Ok(None));
}

#[test]
fn rename_gives_its_literal() {
    assert_eq!(attr_rename(&[rename("\"X\"")]), Ok(Some("\"X\"".to_string())));
}

#[test]
fn rename_is_found_among_other_attributes() {
    assert_eq!(
        attr_rename(&[doc(), rename("\"wire\""), doc()]),
        Ok(Some("\"wire\"".to_string()))
    );
}

#[test]
fn any_literal_is_taken_as_written() {
    assert_eq!(attr_rename(&[rename("5")]), Ok(Some("5".to_string())));
    assert_eq!(attr_rename(&[rename("r\"raw\"")]), Ok(Some("r\"raw\"".to_string())));
}

#[test]
fn tokens_after_the_literal_are_not_examined() {
    let attribute = serde(vec![
        ident("rename"),
        Token::Punct('='),
        literal("\"x\""),
        Token::Punct(','),
        ident("anything"),
        Token::Group,
    ]);
    assert_eq!(attr_rename(&[attribute]), Ok(Some("\"x\"".to_string())));
}

#[test]
fn a_second_directive_is_a_duplicate() {
    let out = attr_rename(&[rename("\"a\""), rename("\"b\"")]);
    assert_eq!(out, Err(AttrError { defect: Defect::DuplicateRename, site: Site::Attribute(1) }));
}

#[test]
fn a_duplicate_is_reported_at_its_own_position() {
    let out = attr_rename(&[doc(), rename("\"a\""), doc(), rename("\"a\""), rename("\"c\"")]);
    assert_eq!(out, Err(AttrError { defect: Defect::DuplicateRename, site: Site::Attribute(3) }));
}

#[test]
fn a_duplicate_is_a_duplicate_whatever_it_holds() {
    let empty = Attribute { path: vec!["serde".to_string()], value: AttributeValue::Empty };
    let out = attr_rename(&[rename("\"a\""), empty]);
    assert_eq!(out, Err(AttrError { defect: Defect::DuplicateRename, site: Site::Attribute(1) }));
    let other_key = serde(vec![ident("skip")]);
    let out = attr_rename(&[rename("\"a\""), other_key]);
    assert_eq!(out, Err(AttrError { defect: Defect::DuplicateRename, site: Site::Attribute(1) }));
}

#[test]
fn a_malformed_first_directive_is_reported_before_a_duplicate() {
    let out = attr_rename(&[serde(vec![ident("skip")]), rename("\"a\"")]);
    assert_eq!(out, Err(unsupported(Site::Token(0, 0))));
}

#[test]
fn a_bare_marker_is_unsupported() {
    let bare = Attribute { path: vec!["serde".to_string()], value: AttributeValue::Empty };
    assert_eq!(attr_rename(&[bare]), Err(unsupported(Site::Payload(0))));
}

#[test]
fn a_marker_with_equals_is_unsupported() {
    let equals = Attribute { path: vec!["serde".to_string()], value: AttributeValue::Equals };
    assert_eq!(attr_rename(&[doc(), equals]), Err(unsupported(Site::Payload(1))));
}

#[test]
fn an_empty_group_is_unsupported() {
    assert_eq!(attr_rename(&[serde(vec![])]), Err(unsupported(Site::Payload(0))));
}

#[test]
fn another_keyword_is_unsupported_at_the_keyword() {
    let attribute = serde(vec![ident("default"), Token::Punct('='), literal("\"x\"")]);
    assert_eq!(attr_rename(&[doc(), doc(), attribute]), Err(unsupported(Site::Token(2, 0))));
}

#[test]
fn the_keyword_is_case_sensitive() {
    let attribute = serde(vec![ident("Rename"), Token::Punct('='), literal("\"x\"")]);
    assert_eq!(attr_rename(&[attribute]), Err(unsupported(Site::Token(0, 0))));
}

#[test]
fn a_first_token_that_is_no_identifier_is_unsupported() {
    let attribute = serde(vec![literal("\"rename\""), Token::Punct('='), literal("\"x\"")]);
    assert_eq!(attr_rename(&[attribute]), Err(unsupported(Site::Payload(0))));
    let attribute = serde(vec![Token::Group]);
    assert_eq!(attr_rename(&[attribute]), Err(unsupported(Site::Payload(0))));
}

#[test]
fn a_missing_equals_is_unsupported() {
    let attribute = serde(vec![ident("rename"), literal("\"x\"")]);
    assert_eq!(attr_rename(&[attribute]), Err(unsupported(Site::Payload(0))));
    let attribute = serde(vec![ident("rename")]);
    assert_eq!(attr_rename(&[attribute]), Err(unsupported(Site::Payload(0))));
    let attribute = serde(vec![ident("rename"), Token::Punct(':'), literal("\"x\"")]);
    assert_eq!(attr_rename(&[attribute]), Err(unsupported(Site::Payload(0))));
}

#[test]
fn a_value_that_is_no_literal_is_unsupported() {
    let attribute = serde(vec![ident("rename"), Token::Punct('='), ident("x")]);
    assert_eq!(attr_rename(&[attribute]), Err(unsupported(Site::Payload(0))));
    let attribute = serde(vec![ident("rename"), Token::Punct('=')]);
    assert_eq!(attr_rename(&[attribute]), Err(unsupported(Site::Payload(0))));
    let attribute = serde(vec![ident("rename"), Token::Punct('='), Token::Group]);
    assert_eq!(attr_rename(&[attribute]), Err(unsupported(Site::Payload(0))));
}

#[test]
fn a_field_without_directive_goes_by_its_identifier() {
    assert_eq!(
        name_of_field(&field("count", vec![doc()])),
        Ok(ExternalName::Identifier("count".to_string()))
    );
}

#[test]
fn a_renamed_field_goes_by_the_literal() {
    assert_eq!(
        name_of_field(&field("count", vec![rename("\"n\"")])),
        Ok(ExternalName::Renamed("\"n\"".to_string()))
    );
}

#[test]
fn a_field_with_a_defect_has_no_name() {
    assert_eq!(
        name_of_field(&field("count", vec![rename("\"n\""), rename("\"m\"")])),
        Err(AttrError { defect: Defect::DuplicateRename, site: Site::Attribute(1) })
    );
}

#[test]
fn a_variant_goes_by_its_identifier_or_its_directive() {
    let plain = EnumVariant {
        attributes: vec![],
        name: "Red".to_string(),
        contents: StructFields::Unit,
    };
    assert_eq!(name_of_variant(&plain), Ok(ExternalName::Identifier("Red".to_string())));
    let renamed = EnumVariant {
        attributes: vec![rename("\"red\"")],
        name: "Red".to_string(),
        contents: StructFields::Unit,
    };
    assert_eq!(name_of_variant(&renamed), Ok(ExternalName::Renamed("\"red\"".to_string())));
    let broken = EnumVariant {
        attributes: vec![serde(vec![ident("rename"), literal("\"red\"")])],
        name: "Red".to_string(),
        contents: StructFields::Unit,
    };
    assert_eq!(name_of_variant(&broken), Err(unsupported(Site::Payload(0))));
}

#[test]
fn every_error_has_its_message() {
    assert_eq!(
        Error::UnsupportedDeclaration.message(),
        "currently only structs and enums are supported by this derive"
    );
    assert_eq!(
        Error::UnsupportedFields.message(),
        "currently only structs with named fields are supported"
    );
    assert_eq!(Error::GenericEnum.message(), "Enums with generics are not supported");
    assert_eq!(
        Error::VariantWithFields { variant: 3 }.message(),
        "Invalid variant: only simple enum variants without fields are supported"
    );
    let duplicate = AttrError { defect: Defect::DuplicateRename, site: Site::Attribute(1) };
    assert_eq!(Error::Attribute { member: 0, error: duplicate }.message(), "duplicate rename attribute");
    assert_eq!(
        Error::Attribute { member: 0, error: unsupported(Site::Payload(0)) }.message(),
        "unsupported attribute"
    );
    assert_eq!(Defect::DuplicateRename.message(), "duplicate rename attribute");
    assert_eq!(Defect::UnsupportedAttribute.message(), "unsupported attribute");
}
