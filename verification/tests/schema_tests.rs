use ifc_lite_core::schema::{GeometryCategory, IfcSchema, ProfileCategory};
use ifc_lite_core::IfcType;

#[test]
fn geometry_categories_populated() {
    let schema = IfcSchema::new();
    assert_eq!(
        schema.geometry_category(&IfcType::IfcExtrudedAreaSolid),
        Some(GeometryCategory::SweptSolid)
    );
    assert_eq!(
        schema.geometry_category(&IfcType::IfcTriangulatedFaceSet),
        Some(GeometryCategory::ExplicitMesh)
    );
    assert_eq!(schema.geometry_category(&IfcType::IfcWall), None);
}

#[test]
fn profile_categories_populated() {
    let schema = IfcSchema::new();
    assert_eq!(
        schema.profile_category(&IfcType::IfcRectangleProfileDef),
        Some(ProfileCategory::Parametric)
    );
    assert_eq!(
        schema.profile_category(&IfcType::IfcArbitraryClosedProfileDef),
        Some(ProfileCategory::Arbitrary)
    );
}
