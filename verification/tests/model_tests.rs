use ifc_lite_core::attribute::Numeric;
use ifc_lite_core::schema::{GeometryCategory, IfcSchema, ProfileCategory};
use ifc_lite_core::streaming::StreamConfig;
use ifc_lite_core::{EntityId, Error, IfcType};

#[test]
fn entity_id_round_trips_and_prints() {
    let id = EntityId::new(42);
    assert_eq!(id.value(), 42);
    assert_eq!(id.to_string(), "#42");
    assert_eq!(EntityId::new(0).to_string(), "#0");
    assert_eq!(EntityId::new(u32::MAX).to_string(), "#4294967295");
    let from: EntityId = EntityId::from(7u32);
    assert_eq!(from, EntityId::new(7));
    let back: u32 = u32::from(EntityId::new(1234));
    assert_eq!(back, 1234);
}

#[test]
fn error_constructors_and_messages() {
    let e = Error::parse(3, "bad input");
    assert!(matches!(&e, Error::Parse { position: 3, message } if message == "bad input"));
    assert_eq!(e.to_string(), "parse error at position 3: bad input");

    let e = Error::parse(0, String::from("owned"));
    assert_eq!(e.to_string(), "parse error at position 0: owned");

    let e = Error::unexpected(17, "','", "')'");
    assert!(matches!(
        &e,
        Error::UnexpectedToken { position: 17, expected, got } if expected == "','" && got == "')'"
    ));
    assert_eq!(e.to_string(), "unexpected token at position 17: expected ',', got ')'");

    assert_eq!(Error::InvalidEntityRef(99).to_string(), "invalid entity reference: #99");
    assert_eq!(
        Error::InvalidIfcType("IFCNOPE".to_string()).to_string(),
        "invalid IFC type: IFCNOPE"
    );
}

#[test]
fn error_wraps_std_errors() {
    let bytes = vec![0xffu8, 0xfe];
    let utf8 = std::str::from_utf8(&bytes).expect_err("invalid utf-8");
    let expected = format!("UTF-8 error: {utf8}");
    let e = Error::from(utf8);
    assert!(matches!(e, Error::Utf8(_)));
    assert_eq!(e.to_string(), expected);

    let io = std::io::Error::new(std::io::ErrorKind::Other, "disk on fire");
    let e = Error::from(io);
    assert!(matches!(e, Error::Io(_)));
    assert_eq!(e.to_string(), "IO error: disk on fire");
}

#[test]
fn ifc_type_names_round_trip() {
    assert_eq!(IfcType::from_name("IFCWALL"), IfcType::IfcWall);
    assert_eq!(IfcType::from_name("IFCPROJECT"), IfcType::IfcProject);
    assert_eq!(IfcType::from_name("IFCCABLESEGMENT"), IfcType::IfcCableSegment);
    assert_eq!(IfcType::IfcBuildingStorey.name(), "IFCBUILDINGSTOREY");
    assert_eq!(IfcType::IfcWall.to_string(), "IFCWALL");

    // Names are matched exactly, without case folding.
    assert_eq!(IfcType::from_name("IfcWall"), IfcType::Unknown("IfcWall".to_string()));
    let unknown = IfcType::from_name("IFCSOMETHINGELSE");
    assert_eq!(unknown, IfcType::Unknown("IFCSOMETHINGELSE".to_string()));
    assert_eq!(unknown.name(), "IFCSOMETHINGELSE");

    for t in [
        IfcType::IfcSite,
        IfcType::IfcDoor,
        IfcType::IfcExtrudedAreaSolid,
        IfcType::IfcOwnerHistory,
        IfcType::Unknown("IFCCUSTOM".to_string()),
    ] {
        assert_eq!(IfcType::from_name(t.name()), t);
    }
    assert_eq!(IfcType::from_name("IFCSLAB").name(), "IFCSLAB");
    for t in [IfcType::IfcAxis2Placement3D, IfcType::IfcProjectedCRS, IfcType::IfcWall] {
        assert!(t.name().starts_with("IFC") && t.name().len() > 3);
    }
    assert_eq!(IfcType::IfcAxis2Placement3D.name(), "IFCAXIS2PLACEMENT3D");
    assert_eq!(IfcType::IfcProjectedCRS.name(), "IFCPROJECTEDCRS");
    assert_eq!(IfcType::from_name("").name(), "");
}

#[test]
fn ifc_type_geometry_flag() {
    assert!(IfcType::IfcWall.has_geometry());
    assert!(IfcType::IfcDoor.has_geometry());
    assert!(!IfcType::IfcProject.has_geometry());
    assert!(!IfcType::IfcOwnerHistory.has_geometry());
    assert!(!IfcType::Unknown("IFCWALL2".to_string()).has_geometry());
}

#[test]
fn schema_classifies_every_table_entry() {
    let schema = IfcSchema::new();
    assert_eq!(
        schema.geometry_category(&IfcType::IfcRevolvedAreaSolid),
        Some(GeometryCategory::SweptSolid)
    );
    assert_eq!(
        schema.geometry_category(&IfcType::IfcBooleanClippingResult),
        Some(GeometryCategory::Boolean)
    );
    assert_eq!(
        schema.geometry_category(&IfcType::IfcShellBasedSurfaceModel),
        Some(GeometryCategory::Surface)
    );
    assert_eq!(
        schema.geometry_category(&IfcType::IfcMappedItem),
        Some(GeometryCategory::MappedItem)
    );
    assert_eq!(
        schema.profile_category(&IfcType::IfcCompositeProfileDef),
        Some(ProfileCategory::Composite)
    );
    assert_eq!(schema.profile_category(&IfcType::IfcWall), None);
    assert!(schema.is_geometry_type(&IfcType::IfcFacetedBrep));
    assert!(!schema.is_geometry_type(&IfcType::IfcCircleProfileDef));
    assert!(schema.is_profile_type(&IfcType::IfcIShapeProfileDef));
    assert!(!schema.is_profile_type(&IfcType::IfcMappedItem));
    assert!(!schema.is_profile_type(&IfcType::Unknown("IFCRECTANGLEPROFILEDEF2".to_string())));

    let other = IfcSchema::default();
    assert_eq!(
        other.geometry_category(&IfcType::IfcPolygonalFaceSet),
        Some(GeometryCategory::ExplicitMesh)
    );
    let copy = schema.clone();
    assert_eq!(
        copy.profile_category(&IfcType::IfcCircleHollowProfileDef),
        Some(ProfileCategory::Parametric)
    );
}

#[test]
fn stream_config_filters() {
    let config = StreamConfig::default();
    assert!(config.should_skip(&IfcType::IfcOwnerHistory));
    assert!(config.should_skip(&IfcType::IfcPerson));
    assert!(config.should_skip(&IfcType::IfcOrganization));
    assert!(config.should_skip(&IfcType::IfcApplication));
    assert!(!config.should_skip(&IfcType::IfcWall));

    let config = StreamConfig::default().with_skip_types(vec![IfcType::IfcWall]);
    assert!(config.should_skip(&IfcType::IfcWall));
    assert!(!config.should_skip(&IfcType::IfcOwnerHistory));

    let config = StreamConfig::default().with_only_types(vec![IfcType::IfcDoor, IfcType::IfcWall]);
    assert!(!config.should_skip(&IfcType::IfcDoor));
    assert!(!config.should_skip(&IfcType::IfcWall));
    assert!(config.should_skip(&IfcType::IfcSlab));
    // The skip list still applies alongside the allow list.
    assert!(config.should_skip(&IfcType::IfcOwnerHistory));

    let config = StreamConfig::default()
        .with_only_types(vec![IfcType::IfcWall])
        .with_skip_types(vec![IfcType::IfcWall]);
    assert!(config.should_skip(&IfcType::IfcWall));
}

#[test]
fn numeric_is_plain_data() {
    let n = Numeric::Float("0.5");
    assert_eq!(n, Numeric::Float("0.5"));
    assert_ne!(n, Numeric::Integer(0));
}
