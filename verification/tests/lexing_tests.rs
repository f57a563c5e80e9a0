use ifc_lite_core::parse::{
    entity_ref, enum_value, float, integer, list, string_literal, token, typed_value, ParseFailure,
};
use ifc_lite_core::{parse_entity, EntityId, Error, IfcType, Token};

#[test]
fn entity_ref_edges() {
    assert_eq!(entity_ref("#12abc"), Ok(("abc", Token::EntityRef(EntityId::new(12)))));
    assert_eq!(
        entity_ref("#4294967295"),
        Ok(("", Token::EntityRef(EntityId::new(u32::MAX))))
    );
    // Ids past u32::MAX are rejected, as are refs without digits.
    assert_eq!(entity_ref("#4294967296"), Err(ParseFailure));
    assert_eq!(entity_ref("#"), Err(ParseFailure));
    assert_eq!(entity_ref("123"), Err(ParseFailure));
}

#[test]
fn string_literal_quotes() {
    // Doubled quotes do not end the string and stay in the text.
    assert_eq!(string_literal("'it''s' rest"), Ok((" rest", Token::Str("it''s"))));
    assert_eq!(string_literal("\"a\"\"b\""), Ok(("", Token::Str("a\"\"b"))));
    assert_eq!(string_literal("''"), Ok(("", Token::Str(""))));
    assert_eq!(string_literal("'semi;colon'"), Ok(("", Token::Str("semi;colon"))));
    assert_eq!(string_literal("'unterminated"), Err(ParseFailure));
    assert_eq!(string_literal("'ends with doubled'''"), Ok(("", Token::Str("ends with doubled''"))));
    assert_eq!(string_literal("plain"), Err(ParseFailure));
}

#[test]
fn integer_edges() {
    assert_eq!(integer("0"), Ok(("", Token::Integer(0))));
    assert_eq!(integer("12,3"), Ok((",3", Token::Integer(12))));
    assert_eq!(
        integer("-9223372036854775808"),
        Ok(("", Token::Integer(i64::MIN)))
    );
    assert_eq!(integer("9223372036854775807"), Ok(("", Token::Integer(i64::MAX))));
    assert_eq!(integer("9223372036854775808"), Err(ParseFailure));
    assert_eq!(integer("-"), Err(ParseFailure));
    assert_eq!(integer("+5"), Err(ParseFailure));
}

#[test]
fn float_forms() {
    assert_eq!(float("1.5E-10"), Ok(("", Token::Float("1.5E-10"))));
    assert_eq!(float("2.e+3,"), Ok((",", Token::Float("2.e+3"))));
    assert_eq!(float("7.25e2"), Ok(("", Token::Float("7.25e2"))));
    // An exponent marker without digits is not part of the literal.
    assert_eq!(float("1.E"), Ok(("E", Token::Float("1."))));
    assert_eq!(float("42"), Err(ParseFailure));
    assert_eq!(float(".5"), Err(ParseFailure));
    let (_, tok) = float("1.5E-10").expect("float");
    match tok {
        Token::Float(text) => assert_eq!(text.parse::<f64>().expect("f64"), 1.5E-10),
        other => panic!("expected Float, got {other:?}"),
    }
}

#[test]
fn enum_value_names() {
    assert_eq!(enum_value(".NOTDEFINED."), Ok(("", Token::Enum("NOTDEFINED"))));
    assert_eq!(enum_value(".T_1."), Ok(("", Token::Enum("T_1"))));
    assert_eq!(enum_value(".ÄÖ."), Ok(("", Token::Enum("ÄÖ"))));
    assert_eq!(enum_value(".."), Err(ParseFailure));
    assert_eq!(enum_value(".A-B."), Err(ParseFailure));
    assert_eq!(enum_value(".OPEN"), Err(ParseFailure));
}

#[test]
fn token_alternatives() {
    assert_eq!(token("$"), Ok(("", Token::Null)));
    assert_eq!(token("*"), Ok(("", Token::Derived)));
    assert_eq!(token("  42  "), Ok(("", Token::Integer(42))));
    assert_eq!(token(" 4.5 ,"), Ok((",", Token::Float("4.5"))));
    assert_eq!(token("#7"), Ok(("", Token::EntityRef(EntityId::new(7)))));
    assert_eq!(token(".F."), Ok(("", Token::Enum("F"))));
    assert_eq!(token("'x'"), Ok(("", Token::Str("x"))));
    assert_eq!(
        token("IFCBOOLEAN(.T.)"),
        Ok(("", Token::TypedValue("IFCBOOLEAN", vec![Token::Enum("T")])))
    );
    assert_eq!(token(")"), Err(ParseFailure));
    assert_eq!(token(""), Err(ParseFailure));
}

#[test]
fn typed_values_and_lists() {
    assert_eq!(
        typed_value("IFCLENGTHMEASURE(0.25)"),
        Ok(("", Token::TypedValue("IFCLENGTHMEASURE", vec![Token::Float("0.25")])))
    );
    assert_eq!(typed_value("IFCLABEL()"), Ok(("", Token::TypedValue("IFCLABEL", vec![]))));
    assert_eq!(typed_value("(1)"), Err(ParseFailure));
    assert_eq!(list("()"), Ok(("", Token::List(vec![]))));
    assert_eq!(
        list("( 1 , 'a' ,$)x"),
        Ok(("x", Token::List(vec![Token::Integer(1), Token::Str("a"), Token::Null])))
    );
    assert_eq!(
        list("((1.,2.),(#3))"),
        Ok((
            "",
            Token::List(vec![
                Token::List(vec![Token::Float("1."), Token::Float("2.")]),
                Token::List(vec![Token::EntityRef(EntityId::new(3))]),
            ])
        ))
    );
    assert_eq!(list("(1,2"), Err(ParseFailure));
    assert_eq!(list("(1,)"), Err(ParseFailure));
}

#[test]
fn parse_entity_layout() {
    let (id, ifc_type, args) =
        parse_entity("  #5 = IFCWALL ( 'a' , $ ) ;").expect("spaced entity");
    assert_eq!(id, EntityId::new(5));
    assert_eq!(ifc_type, IfcType::IfcWall);
    assert_eq!(args, vec![Token::Str("a"), Token::Null]);

    let (_, ifc_type, args) = parse_entity("#6=IFCCUSTOMTHING();trailing").expect("custom");
    assert_eq!(ifc_type, IfcType::Unknown("IFCCUSTOMTHING".to_string()));
    assert!(args.is_empty());
}

#[test]
fn parse_entity_errors() {
    for (bad, at, rendered) in [
        ("#5=IFCWALL('a')", 15, r#"Parsing Error: Error { input: "", code: Char }"#),
        ("5=IFCWALL();", 0, r#"Parsing Error: Error { input: "5=IFCWALL();", code: Char }"#),
        ("  x", 2, r#"Parsing Error: Error { input: "x", code: Char }"#),
        ("#x", 1, r#"Parsing Error: Error { input: "x", code: Digit }"#),
        ("#5IFCWALL();", 2, r#"Parsing Error: Error { input: "IFCWALL();", code: Char }"#),
        ("#5=();", 3, r#"Parsing Error: Error { input: "();", code: TakeWhile1 }"#),
        (
            "#4294967296=IFCWALL();",
            1,
            r#"Parsing Error: Error { input: "4294967296=IFCWALL();", code: MapRes }"#,
        ),
        ("#5=IFCWALL x();", 11, r#"Parsing Error: Error { input: "x();", code: Char }"#),
        ("#5=IFCWALL(,);", 11, r#"Parsing Error: Error { input: ",);", code: Char }"#),
        ("#5=IFCWALL(1 2);", 13, r#"Parsing Error: Error { input: "2);", code: Char }"#),
        ("#5=X('a\"b'", 10, r#"Parsing Error: Error { input: "", code: Char }"#),
        ("", 0, r#"Parsing Error: Error { input: "", code: Char }"#),
    ] {
        match parse_entity(bad) {
            Err(Error::Parse { position, message }) => {
                assert_eq!(position, at, "{bad:?}");
                assert_eq!(message, format!("failed to parse entity: {rendered}"), "{bad:?}");
            }
            other => panic!("expected a parse error for {bad:?}, got {other:?}"),
        }
    }
}
