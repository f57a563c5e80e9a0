use ifc_lite_core::parse::{entity_ref, enum_value, float, integer, list, string_literal};
use ifc_lite_core::{parse_entity, EntityId, IfcType, Token};

#[test]
fn parse_entity_ref() {
    assert_eq!(entity_ref("#123"), Ok(("", Token::EntityRef(EntityId::new(123)))));
    assert_eq!(entity_ref("#0"), Ok(("", Token::EntityRef(EntityId::new(0)))));
}

#[test]
fn parse_string_literal() {
    assert_eq!(string_literal("'hello'"), Ok(("", Token::Str("hello"))));
    assert_eq!(string_literal("'with spaces'"), Ok(("", Token::Str("with spaces"))));
}

#[test]
fn parse_integer_values() {
    assert_eq!(integer("42"), Ok(("", Token::Integer(42))));
    assert_eq!(integer("-42"), Ok(("", Token::Integer(-42))));
}

fn float_value(tok: &Token<'_>) -> f64 {
    match tok {
        Token::Float(text) => text.parse::<f64>().expect("float literal"),
        other => panic!("expected Float, got {other:?}"),
    }
}

#[test]
#[allow(clippy::approx_constant)]
fn parse_float_values() {
    let (rest, tok) = float("3.14").expect("float");
    assert_eq!(rest, "");
    assert_eq!(tok, Token::Float("3.14"));
    assert_eq!(float_value(&tok), 3.14);

    let (rest, tok) = float("-3.14").expect("float");
    assert_eq!(rest, "");
    assert_eq!(tok, Token::Float("-3.14"));
    assert_eq!(float_value(&tok), -3.14);

    let (rest, tok) = float("0.").expect("float");
    assert_eq!(rest, "");
    assert_eq!(tok, Token::Float("0."));
    assert_eq!(float_value(&tok), 0.0);
}

#[test]
fn parse_enum_values() {
    assert_eq!(enum_value(".TRUE."), Ok(("", Token::Enum("TRUE"))));
    assert_eq!(enum_value(".ELEMENT."), Ok(("", Token::Enum("ELEMENT"))));
}

#[test]
fn parse_list_values() {
    let (_, tok) = list("(1,2,3)").expect("list parse");
    match tok {
        Token::List(items) => {
            assert_eq!(items.len(), 3);
            assert_eq!(items[0], Token::Integer(1));
        }
        _ => panic!("expected List"),
    }
}

#[test]
fn parse_full_entity() {
    let input = "#123=IFCWALL('guid','owner',$,$,'name',$,$,$);";
    let (id, ifc_type, args) = parse_entity(input).expect("parse_entity");
    assert_eq!(id, EntityId::new(123));
    assert_eq!(ifc_type, IfcType::IfcWall);
    assert_eq!(args.len(), 8);
}

#[test]
fn parse_entity_with_nested_list() {
    let input = "#9=IFCDIRECTION((0.,0.,1.));";
    let (id, _, args) = parse_entity(input).expect("parse_entity");
    assert_eq!(id, EntityId::new(9));
    assert_eq!(args.len(), 1);
    match &args[0] {
        Token::List(inner) => assert_eq!(inner.len(), 3),
        other => panic!("expected List, got {other:?}"),
    }
}
