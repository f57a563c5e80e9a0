use ifc_lite_core::scan::{build_entity_index, scan_entities, scan_next};
use ifc_lite_core::{EntityId, IfcType};

#[test]
fn scan_single_entity() {
    let content = "#1=IFCPROJECT('guid',$,$,$,$,$,$,$,$);";
    let (entity, next_pos) = scan_next(content.as_bytes(), 0).expect("scan_next");
    assert_eq!(entity.id(), EntityId::new(1));
    assert_eq!(*entity.ifc_type(), IfcType::IfcProject);
    assert_eq!(next_pos, content.len());
}

#[test]
fn scan_multiple_entities() {
    let content = "\
#1=IFCPROJECT('g',$,$,$,$,$,$,$,$);
#2=IFCWALL('g2',$,$,$,$,$,$,$);
#3=IFCDOOR('g3',$,$,$,$,$,$,$);
";
    let bytes = content.as_bytes();
    let (e1, p1) = scan_next(bytes, 0).expect("first");
    let (e2, p2) = scan_next(bytes, p1).expect("second");
    let (e3, p3) = scan_next(bytes, p2).expect("third");
    assert!(scan_next(bytes, p3).is_none());

    assert_eq!(e1.id(), EntityId::new(1));
    assert_eq!(e2.id(), EntityId::new(2));
    assert_eq!(e3.id(), EntityId::new(3));
}

#[test]
fn scan_respects_quoted_semicolons() {
    let content = "#1=IFCWALL('has;semi',$,$,$,$,$,$,$);";
    let (entity, _) = scan_next(content.as_bytes(), 0).expect("scan");
    assert_eq!(entity.id(), EntityId::new(1));
}

#[test]
fn stream_collect() {
    let content = "\
#1=IFCPROJECT('g',$,$,$,$,$,$,$,$);
#2=IFCWALL('g2',$,$,$,$,$,$,$);
"
    .to_string();
    let all = scan_entities(content).collect().run().expect("collect");
    assert_eq!(all.len(), 2);
}

#[test]
fn build_index_maps_ids_to_offsets() {
    let content = "\
#1=IFCPROJECT('g',$,$,$,$,$,$,$,$);
#5=IFCWALL('g2',$,$,$,$,$,$,$);
";
    let index = build_entity_index(content);
    assert_eq!(index.len(), 2);
    assert!(index.contains_key(&EntityId::new(1)));
    assert!(index.contains_key(&EntityId::new(5)));
}
