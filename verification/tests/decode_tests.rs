use ifc_lite_core::decode::{decode_by_id, decode_entity};
use ifc_lite_core::scan::build_entity_index;
use ifc_lite_core::{EntityId, Error, IfcType};

#[test]
fn decode_entity_from_range() {
    let content = "#2=IFCWALL('guid',$,$,$,'Wall-001',$,$,$);";
    let entity = decode_entity(content, 0, content.len())
        .run()
        .expect("decode");
    assert_eq!(entity.id(), EntityId::new(2));
    assert_eq!(*entity.ifc_type(), IfcType::IfcWall);
    assert_eq!(entity.get_string(4), Some("Wall-001"));
}

#[test]
fn decode_by_id_success() {
    let content = "\
#1=IFCPROJECT('guid',$,$,$,$,$,$,$,$);
#5=IFCWALL('guid2',$,$,$,'Wall-001',$,$,$);
";
    let index = build_entity_index(content);
    let entity = decode_by_id(content, &index, EntityId::new(5))
        .run()
        .expect("decode");
    assert_eq!(entity.id(), EntityId::new(5));
    assert_eq!(entity.get_string(4), Some("Wall-001"));
}

#[test]
fn decode_by_id_missing() {
    let content = "#1=IFCPROJECT('g',$,$,$,$,$,$,$,$);";
    let index = build_entity_index(content);
    let err = decode_by_id(content, &index, EntityId::new(99))
        .run()
        .expect_err("should fail");
    assert!(matches!(err, Error::InvalidEntityRef(99)));
}
