use ifc_lite_core::attribute::Numeric;
use ifc_lite_core::decode::decode_line;
use ifc_lite_core::scan::{build_entity_index, scan_entities, scan_next, ScannedEntity};
use ifc_lite_core::streaming::{parse_stream, ParseEvent, StreamConfig};
use ifc_lite_core::{AttributeValue, DecodedEntity, EntityId, Error, IfcType, Token};

#[test]
fn scan_reports_offsets_and_names() {
    let content = "  \n#10 = IFCWALL ('a;b',$);\n#11=IFCDOOR();";
    let (e, next) = scan_next(content.as_bytes(), 0).expect("first");
    assert_eq!(e.id(), EntityId::new(10));
    assert_eq!(*e.ifc_type(), IfcType::IfcWall);
    assert_eq!(e.raw_name(), "IFCWALL");
    assert_eq!(e.start(), 3);
    assert_eq!(e.end(), 27);
    assert_eq!(next, 27);
    let (e, next) = scan_next(content.as_bytes(), next).expect("second");
    assert_eq!(e.id(), EntityId::new(11));
    assert_eq!((e.start(), e.end(), next), (28, 42, 42));
    assert!(scan_next(content.as_bytes(), next).is_none());
    assert!(scan_next(content.as_bytes(), 1000).is_none());
}

#[test]
fn scan_rejections() {
    assert!(scan_next(b"no entities here", 0).is_none());
    assert!(scan_next(b"#=IFCWALL();", 0).is_none());
    assert!(scan_next(b"#1 IFCWALL();", 0).is_none());
    assert!(scan_next(b"#1=(1);", 0).is_none());
    assert!(scan_next(b"#1=IFCWALL()", 0).is_none());
    assert!(scan_next(b"#1=IFCWALL('open;", 0).is_none());
    // A type name that is not UTF-8 ends the scan.
    assert!(scan_next(b"#1=\xff\xfe();", 0).is_none());
}

#[test]
fn scan_passes_over_malformed_hashes() {
    // A '#' that does not start an entity is passed over.
    let content = "'#x' #2=IFCWALL();";
    let (e, next) = scan_next(content.as_bytes(), 0).expect("entity after '#x'");
    assert_eq!(e.id(), EntityId::new(2));
    assert_eq!((e.start(), e.end(), next), (5, content.len(), content.len()));
    let (e, _) = scan_next(b"#x #1=A();", 0).expect("entity after '#x'");
    assert_eq!(e.id(), EntityId::new(1));
    assert_eq!(e.raw_name(), "A");
    // An unterminated entity is passed over in favour of a later one.
    let (e, _) = scan_next(b"#1=A('x #2=B();", 0).expect("inner entity");
    assert_eq!(e.id(), EntityId::new(2));
    let index = build_entity_index("#= junk\n#3=IFCWALL();\n#4 IFCDOOR();\n#5=IFCSLAB();");
    assert_eq!(index.len(), 2);
    assert!(index.contains_key(&EntityId::new(3)));
    assert!(index.contains_key(&EntityId::new(5)));
}

#[test]
fn scan_details() {
    // Doubled quotes inside a string keep the `;` inside it.
    let content = "#1=IFCWALL('it''s;here');";
    let (e, next) = scan_next(content.as_bytes(), 0).expect("quoted");
    assert_eq!((e.start(), e.end(), next), (0, content.len(), content.len()));

    // Ids wrap modulo 2^32 in the scanner.
    let (e, _) = scan_next(b"#4294967297=IFCWALL();", 0).expect("wrapping id");
    assert_eq!(e.id(), EntityId::new(1));

    // Non-ASCII type names are kept as written.
    let content = "#1=IFCWÄLL();";
    let (e, _) = scan_next(content.as_bytes(), 0).expect("utf-8 name");
    assert_eq!(e.raw_name(), "IFCWÄLL");
    assert_eq!(*e.ifc_type(), IfcType::Unknown("IFCWÄLL".to_string()));

    let made = ScannedEntity::new(
        EntityId::new(3),
        IfcType::IfcSlab,
        "IFCSLAB".to_string(),
        4,
        9,
    );
    assert_eq!(made.id(), EntityId::new(3));
    assert_eq!(*made.ifc_type(), IfcType::IfcSlab);
    assert_eq!(made.raw_name(), "IFCSLAB");
    assert_eq!((made.start(), made.end()), (4, 9));
}

#[test]
fn index_keeps_last_duplicate_and_offsets() {
    let content = "#1=IFCWALL();#1=IFCDOOR();#2=IFCSLAB();";
    let index = build_entity_index(content);
    assert_eq!(index.len(), 2);
    assert_eq!(index.get(&EntityId::new(1)), Some((13, 26)));
    assert_eq!(index.get(&EntityId::new(2)), Some((26, 39)));
    assert_eq!(index.get(&EntityId::new(3)), None);
    assert!(!index.contains_key(&EntityId::new(3)));

    let empty = build_entity_index("");
    assert_eq!(empty.len(), 0);
}

#[test]
fn scan_stream_matches_scan_next() {
    let content = "#1=IFCPROJECT();\n#2=IFCWALL();\n#3=IFCDOOR();\n".to_string();
    let all = scan_entities(content.clone()).collect().run().expect("collect");
    let ids: Vec<u32> = all.iter().map(|e| e.id().value()).collect();
    assert_eq!(ids, vec![1, 2, 3]);
    assert_eq!(all[1].start(), 17);
    assert_eq!(all[1].end(), 30);
    let none = scan_entities(String::new()).collect().run().expect("collect");
    assert!(none.is_empty());
}

#[test]
fn stream_event_order_and_counts() {
    let content = "\
#1=IFCPROJECT('g',$,$,$,$,$,$,$,$);
#2=IFCOWNERHISTORY('g2',$,$,$,$,$,$,$);
#3=IFCWALL('g3',$,$,$,$,$,$,$);
"
    .to_string();
    let size = content.len();
    let events = parse_stream(content, StreamConfig::default())
        .collect()
        .run()
        .expect("collect");
    assert_eq!(events.len(), 4);
    assert!(matches!(events[0], ParseEvent::Started { file_size } if file_size == size));
    match (&events[1], &events[2]) {
        (ParseEvent::EntityScanned { entity: a }, ParseEvent::EntityScanned { entity: b }) => {
            assert_eq!(a.id(), EntityId::new(1));
            assert_eq!(b.id(), EntityId::new(3));
        }
        other => panic!("expected two scanned entities, got {other:?}"),
    }
    // Skipped entities are not counted.
    assert!(matches!(events[3], ParseEvent::Completed { entity_count: 2 }));

    let events = parse_stream(String::new(), StreamConfig::default())
        .collect()
        .run()
        .expect("collect");
    assert_eq!(events.len(), 2);
    assert!(matches!(events[0], ParseEvent::Started { file_size: 0 }));
    assert!(matches!(events[1], ParseEvent::Completed { entity_count: 0 }));
}

#[test]
fn tokens_become_owned_values() {
    let v = AttributeValue::from_token(&Token::TypedValue(
        "IFCLABEL",
        vec![Token::Str("x"), Token::Integer(2)],
    ));
    let items = v.as_list().expect("list");
    assert_eq!(items.len(), 3);
    assert_eq!(items[0].as_string(), Some("IFCLABEL"));
    assert_eq!(items[1].as_string(), Some("x"));
    assert_eq!(items[2].as_int(), Some(Numeric::Integer(2)));

    let v = AttributeValue::from_token(&Token::EntityRef(EntityId::new(8)));
    assert_eq!(v.as_entity_ref(), Some(EntityId::new(8)));
    assert_eq!(v.as_string(), None);
    let v = AttributeValue::from_token(&Token::Enum("T"));
    assert_eq!(v.as_enum(), Some("T"));
    assert_eq!(v.as_entity_ref(), None);
    assert!(AttributeValue::from_token(&Token::Null).is_null());
    assert!(AttributeValue::from_token(&Token::Derived).is_null());
    assert!(!AttributeValue::from_token(&Token::Integer(0)).is_null());
    let v = AttributeValue::from_token(&Token::Float("1.5"));
    assert_eq!(v.as_float(), Some(Numeric::Float("1.5")));
    assert_eq!(v.as_int(), Some(Numeric::Float("1.5")));
    let copy = v.clone();
    assert_eq!(copy.as_float(), Some(Numeric::Float("1.5")));
    assert_eq!(AttributeValue::from_token(&Token::Str("s")).as_float(), None);
}

#[test]
fn decoded_entity_accessors() {
    let line = "#7=IFCPROPERTYSINGLEVALUE('Width',#3,IFCLENGTHMEASURE(0.25),(1,2),IFCCOUNTMEASURE(4),.T.,$);";
    let e = decode_line(line).expect("decode");
    assert_eq!(e.id(), EntityId::new(7));
    assert_eq!(*e.ifc_type(), IfcType::IfcPropertySingleValue);
    assert_eq!(e.attribute_count(), 7);
    assert_eq!(e.get_string(0), Some("Width"));
    assert_eq!(e.get_ref(1), Some(EntityId::new(3)));
    assert_eq!(e.get_ref(0), None);
    assert_eq!(e.get_float(2), Some(Numeric::Float("0.25")));
    assert_eq!(e.get_float(4), Some(Numeric::Integer(4)));
    assert_eq!(e.get_float(3), None);
    assert_eq!(e.get_list(3).map(|l| l.len()), Some(2));
    assert_eq!(e.get_list(0).map(|l| l.len()), None);
    assert_eq!(e.get(5).and_then(|v| v.as_enum()), Some("T"));
    assert!(e.get(6).expect("null").is_null());
    assert!(e.get(7).is_none());
    assert_eq!(e.get_string(99), None);
    assert_eq!(e.get_float(99), None);

    let made = DecodedEntity::new(
        EntityId::new(1),
        IfcType::IfcWall,
        vec![AttributeValue::Integer(5), AttributeValue::Null],
    );
    assert_eq!(made.id(), EntityId::new(1));
    assert_eq!(*made.ifc_type(), IfcType::IfcWall);
    assert_eq!(made.attribute_count(), 2);
    assert_eq!(made.get(0).and_then(|v| v.as_int()), Some(Numeric::Integer(5)));
}

#[test]
fn decode_line_errors() {
    match decode_line("#7=IFCWALL(") {
        Err(Error::Parse { position: 11, .. }) => {}
        other => panic!("expected a parse error, got {other:?}"),
    }
}
