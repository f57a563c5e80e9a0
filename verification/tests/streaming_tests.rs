use ifc_lite_core::streaming::{parse_stream, ParseEvent, StreamConfig};
use ifc_lite_core::IfcType;

#[test]
fn stream_emits_started_entities_completed() {
    let content = "\
#1=IFCPROJECT('g',$,$,$,$,$,$,$,$);
#2=IFCWALL('g2',$,$,$,$,$,$,$);
#3=IFCDOOR('g3',$,$,$,$,$,$,$);
"
    .to_string();

    let events = parse_stream(content, StreamConfig::default())
        .collect()
        .run()
        .expect("collect");

    assert!(matches!(&events[0], ParseEvent::Started { .. }));
    assert!(matches!(events.last(), Some(ParseEvent::Completed { entity_count: 3 })));
}

#[test]
fn stream_skips_configured_types() {
    let content = "\
#1=IFCPROJECT('g',$,$,$,$,$,$,$,$);
#2=IFCOWNERHISTORY('g2',$,$,$,$,$,$,$);
#3=IFCWALL('g3',$,$,$,$,$,$,$);
"
    .to_string();

    let config = StreamConfig::default(); // skips OwnerHistory
    let entity_events: Vec<_> = parse_stream(content, config)
        .collect()
        .run()
        .expect("collect")
        .into_iter()
        .filter(|e| matches!(e, ParseEvent::EntityScanned { .. }))
        .collect();

    assert_eq!(entity_events.len(), 2);
}

#[test]
fn stream_only_types_filter() {
    let content = "\
#1=IFCPROJECT('g',$,$,$,$,$,$,$,$);
#2=IFCWALL('g2',$,$,$,$,$,$,$);
#3=IFCDOOR('g3',$,$,$,$,$,$,$);
"
    .to_string();

    let config = StreamConfig::default()
        .with_skip_types(vec![])
        .with_only_types(vec![IfcType::IfcWall]);

    let entity_events: Vec<_> = parse_stream(content, config)
        .collect()
        .run()
        .expect("collect")
        .into_iter()
        .filter(|e| matches!(e, ParseEvent::EntityScanned { .. }))
        .collect();

    assert_eq!(entity_events.len(), 1);
}
