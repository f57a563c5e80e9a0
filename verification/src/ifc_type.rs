//! IFC entity type enumeration.
//!
//! The named variants cover the commonly encountered IFC4X3 entity
//! types; any other type name is kept verbatim in [`IfcType::Unknown`].
//! The named variants are numbered in the byte order of their STEP names;
//! that order is what makes the names provably distinct.
use vstd::prelude::*;
use crate::text::str_eq;

verus! {

/// Discriminant for IFC entity types.
///
/// The view of a type is its position among the named variants (listed
/// below in the byte order of their STEP names; the catch-all
/// [`IfcType::Unknown`] comes last) together with its STEP name, so two
/// types are equal exactly when their views are.
#[derive(Debug, Clone, Eq, Hash)]
pub enum IfcType {
    /// `IFCAPPLICATION`
    IfcApplication,
    /// `IFCARBITRARYCLOSEDPROFILEDEF`
    IfcArbitraryClosedProfileDef,
    /// `IFCAXIS2PLACEMENT3D`
    IfcAxis2Placement3D,
    /// `IFCBEAM`
    IfcBeam,
    /// `IFCBOOLEANCLIPPINGRESULT`
    IfcBooleanClippingResult,
    /// `IFCBOOLEANRESULT`
    IfcBooleanResult,
    /// `IFCBUILDING`
    IfcBuilding,
    /// `IFCBUILDINGELEMENTPART`
    IfcBuildingElementPart,
    /// `IFCBUILDINGELEMENTPROXY`
    IfcBuildingElementProxy,
    /// `IFCBUILDINGSTOREY`
    IfcBuildingStorey,
    /// `IFCCABLESEGMENT`
    IfcCableSegment,
    /// `IFCCARTESIANPOINT`
    IfcCartesianPoint,
    /// `IFCCARTESIANPOINTLIST3D`
    IfcCartesianPointList3D,
    /// `IFCCHIMNEY`
    IfcChimney,
    /// `IFCCIRCLEHOLLOWPROFILEDEF`
    IfcCircleHollowProfileDef,
    /// `IFCCIRCLEPROFILEDEF`
    IfcCircleProfileDef,
    /// `IFCCOLUMN`
    IfcColumn,
    /// `IFCCOMPOSITEPROFILEDEF`
    IfcCompositeProfileDef,
    /// `IFCCONVERSIONBASEDUNIT`
    IfcConversionBasedUnit,
    /// `IFCCOVERING`
    IfcCovering,
    /// `IFCCURTAINWALL`
    IfcCurtainWall,
    /// `IFCDIMENSIONALEXPONENTS`
    IfcDimensionalExponents,
    /// `IFCDIRECTION`
    IfcDirection,
    /// `IFCDISTRIBUTIONELEMENT`
    IfcDistributionElement,
    /// `IFCDOOR`
    IfcDoor,
    /// `IFCDUCTSEGMENT`
    IfcDuctSegment,
    /// `IFCEXTRUDEDAREASOLID`
    IfcExtrudedAreaSolid,
    /// `IFCFACEBASEDSURFACEMODEL`
    IfcFaceBasedSurfaceModel,
    /// `IFCFACETEDBREP`
    IfcFacetedBrep,
    /// `IFCFLOWFITTING`
    IfcFlowFitting,
    /// `IFCFLOWSEGMENT`
    IfcFlowSegment,
    /// `IFCFLOWTERMINAL`
    IfcFlowTerminal,
    /// `IFCFOOTING`
    IfcFooting,
    /// `IFCFURNISHINGELEMENT`
    IfcFurnishingElement,
    /// `IFCFURNITURE`
    IfcFurniture,
    /// `IFCGEOMETRICREPRESENTATIONCONTEXT`
    IfcGeometricRepresentationContext,
    /// `IFCISHAPEPROFILEDEF`
    IfcIShapeProfileDef,
    /// `IFCLOCALPLACEMENT`
    IfcLocalPlacement,
    /// `IFCMAPCONVERSION`
    IfcMapConversion,
    /// `IFCMAPPEDITEM`
    IfcMappedItem,
    /// `IFCMEASUREWITHUNIT`
    IfcMeasureWithUnit,
    /// `IFCMEMBER`
    IfcMember,
    /// `IFCOPENINGELEMENT`
    IfcOpeningElement,
    /// `IFCORGANIZATION`
    IfcOrganization,
    /// `IFCOWNERHISTORY`
    IfcOwnerHistory,
    /// `IFCPERSON`
    IfcPerson,
    /// `IFCPILE`
    IfcPile,
    /// `IFCPIPESEGMENT`
    IfcPipeSegment,
    /// `IFCPLATE`
    IfcPlate,
    /// `IFCPOLYGONALFACESET`
    IfcPolygonalFaceSet,
    /// `IFCPOLYLOOP`
    IfcPolyLoop,
    /// `IFCPRODUCT`
    IfcProduct,
    /// `IFCPROJECT`
    IfcProject,
    /// `IFCPROJECTEDCRS`
    IfcProjectedCRS,
    /// `IFCPROPERTYSET`
    IfcPropertySet,
    /// `IFCPROPERTYSINGLEVALUE`
    IfcPropertySingleValue,
    /// `IFCRAILING`
    IfcRailing,
    /// `IFCRAMP`
    IfcRamp,
    /// `IFCRECTANGLEPROFILEDEF`
    IfcRectangleProfileDef,
    /// `IFCRELAGGREGATES`
    IfcRelAggregates,
    /// `IFCRELCONTAINEDINSPATIALSTRUCTURE`
    IfcRelContainedInSpatialStructure,
    /// `IFCREVOLVEDAREASOLID`
    IfcRevolvedAreaSolid,
    /// `IFCROOF`
    IfcRoof,
    /// `IFCSHELLBASEDSURFACEMODEL`
    IfcShellBasedSurfaceModel,
    /// `IFCSITE`
    IfcSite,
    /// `IFCSIUNIT`
    IfcSiUnit,
    /// `IFCSLAB`
    IfcSlab,
    /// `IFCSPACE`
    IfcSpace,
    /// `IFCSTAIR`
    IfcStair,
    /// `IFCTRIANGULATEDFACESET`
    IfcTriangulatedFaceSet,
    /// `IFCUNITASSIGNMENT`
    IfcUnitAssignment,
    /// `IFCWALL`
    IfcWall,
    /// `IFCWALLSTANDARDCASE`
    IfcWallStandardCase,
    /// `IFCWINDOW`
    IfcWindow,
    /// Any IFC type name not covered by the named variants.
    Unknown(String),
}

/// Position given to [`IfcType::Unknown`]; the named variants take `0..74`.
pub const UNKNOWN_ORDINAL: u8 = 74;

/// STEP name of the named variant at position `k`.
pub open spec fn name_of_ordinal(k: int) -> Seq<char> {
    if k == 0 {
        "IFCAPPLICATION"@
    } else if k == 1 {
        "IFCARBITRARYCLOSEDPROFILEDEF"@
    } else if k == 2 {
        "IFCAXIS2PLACEMENT3D"@
    } else if k == 3 {
        "IFCBEAM"@
    } else if k == 4 {
        "IFCBOOLEANCLIPPINGRESULT"@
    } else if k == 5 {
        "IFCBOOLEANRESULT"@
    } else if k == 6 {
        "IFCBUILDING"@
    } else if k == 7 {
        "IFCBUILDINGELEMENTPART"@
    } else if k == 8 {
        "IFCBUILDINGELEMENTPROXY"@
    } else if k == 9 {
        "IFCBUILDINGSTOREY"@
    } else if k == 10 {
        "IFCCABLESEGMENT"@
    } else if k == 11 {
        "IFCCARTESIANPOINT"@
    } else if k == 12 {
        "IFCCARTESIANPOINTLIST3D"@
    } else if k == 13 {
        "IFCCHIMNEY"@
    } else if k == 14 {
        "IFCCIRCLEHOLLOWPROFILEDEF"@
    } else if k == 15 {
        "IFCCIRCLEPROFILEDEF"@
    } else if k == 16 {
        "IFCCOLUMN"@
    } else if k == 17 {
        "IFCCOMPOSITEPROFILEDEF"@
    } else if k == 18 {
        "IFCCONVERSIONBASEDUNIT"@
    } else if k == 19 {
        "IFCCOVERING"@
    } else if k == 20 {
        "IFCCURTAINWALL"@
    } else if k == 21 {
        "IFCDIMENSIONALEXPONENTS"@
    } else if k == 22 {
        "IFCDIRECTION"@
    } else if k == 23 {
        "IFCDISTRIBUTIONELEMENT"@
    } else if k == 24 {
        "IFCDOOR"@
    } else if k == 25 {
        "IFCDUCTSEGMENT"@
    } else if k == 26 {
        "IFCEXTRUDEDAREASOLID"@
    } else if k == 27 {
        "IFCFACEBASEDSURFACEMODEL"@
    } else if k == 28 {
        "IFCFACETEDBREP"@
    } else if k == 29 {
        "IFCFLOWFITTING"@
    } else if k == 30 {
        "IFCFLOWSEGMENT"@
    } else if k == 31 {
        "IFCFLOWTERMINAL"@
    } else if k == 32 {
        "IFCFOOTING"@
    } else if k == 33 {
        "IFCFURNISHINGELEMENT"@
    } else if k == 34 {
        "IFCFURNITURE"@
    } else if k == 35 {
        "IFCGEOMETRICREPRESENTATIONCONTEXT"@
    } else if k == 36 {
        "IFCISHAPEPROFILEDEF"@
    } else if k == 37 {
        "IFCLOCALPLACEMENT"@
    } else if k == 38 {
        "IFCMAPCONVERSION"@
    } else if k == 39 {
        "IFCMAPPEDITEM"@
    } else if k == 40 {
        "IFCMEASUREWITHUNIT"@
    } else if k == 41 {
        "IFCMEMBER"@
    } else if k == 42 {
        "IFCOPENINGELEMENT"@
    } else if k == 43 {
        "IFCORGANIZATION"@
    } else if k == 44 {
        "IFCOWNERHISTORY"@
    } else if k == 45 {
        "IFCPERSON"@
    } else if k == 46 {
        "IFCPILE"@
    } else if k == 47 {
        "IFCPIPESEGMENT"@
    } else if k == 48 {
        "IFCPLATE"@
    } else if k == 49 {
        "IFCPOLYGONALFACESET"@
    } else if k == 50 {
        "IFCPOLYLOOP"@
    } else if k == 51 {
        "IFCPRODUCT"@
    } else if k == 52 {
        "IFCPROJECT"@
    } else if k == 53 {
        "IFCPROJECTEDCRS"@
    } else if k == 54 {
        "IFCPROPERTYSET"@
    } else if k == 55 {
        "IFCPROPERTYSINGLEVALUE"@
    } else if k == 56 {
        "IFCRAILING"@
    } else if k == 57 {
        "IFCRAMP"@
    } else if k == 58 {
        "IFCRECTANGLEPROFILEDEF"@
    } else if k == 59 {
        "IFCRELAGGREGATES"@
    } else if k == 60 {
        "IFCRELCONTAINEDINSPATIALSTRUCTURE"@
    } else if k == 61 {
        "IFCREVOLVEDAREASOLID"@
    } else if k == 62 {
        "IFCROOF"@
    } else if k == 63 {
        "IFCSHELLBASEDSURFACEMODEL"@
    } else if k == 64 {
        "IFCSITE"@
    } else if k == 65 {
        "IFCSIUNIT"@
    } else if k == 66 {
        "IFCSLAB"@
    } else if k == 67 {
        "IFCSPACE"@
    } else if k == 68 {
        "IFCSTAIR"@
    } else if k == 69 {
        "IFCTRIANGULATEDFACESET"@
    } else if k == 70 {
        "IFCUNITASSIGNMENT"@
    } else if k == 71 {
        "IFCWALL"@
    } else if k == 72 {
        "IFCWALLSTANDARDCASE"@
    } else if k == 73 {
        "IFCWINDOW"@
    } else {
        Seq::empty()
    }
}

/// The first position at or after `k` whose name is `s`, or
/// [`UNKNOWN_ORDINAL`] when there is none.
pub open spec fn ordinal_from(s: Seq<char>, k: int) -> int
    decreases UNKNOWN_ORDINAL - k,
{
    if k < 0 || k >= UNKNOWN_ORDINAL {
        UNKNOWN_ORDINAL as int
    } else if name_of_ordinal(k) == s {
        k
    } else {
        ordinal_from(s, k + 1)
    }
}

/// Position of the named variant whose STEP name is `s`, or
/// [`UNKNOWN_ORDINAL`] when no named variant has that name.
pub open spec fn ordinal_of_name(s: Seq<char>) -> int {
    ordinal_from(s, 0)
}

/// The view that [`IfcType::from_name`] gives to the name `s`.
pub open spec fn view_of_name(s: Seq<char>) -> (int, Seq<char>) {
    (ordinal_of_name(s), s)
}

impl View for IfcType {
    type V = (int, Seq<char>);

    open spec fn view(&self) -> (int, Seq<char>) {
        (self.ordinal(), self.spec_name())
    }
}

/// The STEP name of the named variant at position `k`.
fn name_at(k: u8) -> (r: &'static str)
    requires
        k < UNKNOWN_ORDINAL,
    ensures
        r@ == name_of_ordinal(k as int),
{
    match k {
        0 => "IFCAPPLICATION",
        1 => "IFCARBITRARYCLOSEDPROFILEDEF",
        2 => "IFCAXIS2PLACEMENT3D",
        3 => "IFCBEAM",
        4 => "IFCBOOLEANCLIPPINGRESULT",
        5 => "IFCBOOLEANRESULT",
        6 => "IFCBUILDING",
        7 => "IFCBUILDINGELEMENTPART",
        8 => "IFCBUILDINGELEMENTPROXY",
        9 => "IFCBUILDINGSTOREY",
        10 => "IFCCABLESEGMENT",
        11 => "IFCCARTESIANPOINT",
        12 => "IFCCARTESIANPOINTLIST3D",
        13 => "IFCCHIMNEY",
        14 => "IFCCIRCLEHOLLOWPROFILEDEF",
        15 => "IFCCIRCLEPROFILEDEF",
        16 => "IFCCOLUMN",
        17 => "IFCCOMPOSITEPROFILEDEF",
        18 => "IFCCONVERSIONBASEDUNIT",
        19 => "IFCCOVERING",
        20 => "IFCCURTAINWALL",
        21 => "IFCDIMENSIONALEXPONENTS",
        22 => "IFCDIRECTION",
        23 => "IFCDISTRIBUTIONELEMENT",
        24 => "IFCDOOR",
        25 => "IFCDUCTSEGMENT",
        26 => "IFCEXTRUDEDAREASOLID",
        27 => "IFCFACEBASEDSURFACEMODEL",
        28 => "IFCFACETEDBREP",
        29 => "IFCFLOWFITTING",
        30 => "IFCFLOWSEGMENT",
        31 => "IFCFLOWTERMINAL",
        32 => "IFCFOOTING",
        33 => "IFCFURNISHINGELEMENT",
        34 => "IFCFURNITURE",
        35 => "IFCGEOMETRICREPRESENTATIONCONTEXT",
        36 => "IFCISHAPEPROFILEDEF",
        37 => "IFCLOCALPLACEMENT",
        38 => "IFCMAPCONVERSION",
        39 => "IFCMAPPEDITEM",
        40 => "IFCMEASUREWITHUNIT",
        41 => "IFCMEMBER",
        42 => "IFCOPENINGELEMENT",
        43 => "IFCORGANIZATION",
        44 => "IFCOWNERHISTORY",
        45 => "IFCPERSON",
        46 => "IFCPILE",
        47 => "IFCPIPESEGMENT",
        48 => "IFCPLATE",
        49 => "IFCPOLYGONALFACESET",
        50 => "IFCPOLYLOOP",
        51 => "IFCPRODUCT",
        52 => "IFCPROJECT",
        53 => "IFCPROJECTEDCRS",
        54 => "IFCPROPERTYSET",
        55 => "IFCPROPERTYSINGLEVALUE",
        56 => "IFCRAILING",
        57 => "IFCRAMP",
        58 => "IFCRECTANGLEPROFILEDEF",
        59 => "IFCRELAGGREGATES",
        60 => "IFCRELCONTAINEDINSPATIALSTRUCTURE",
        61 => "IFCREVOLVEDAREASOLID",
        62 => "IFCROOF",
        63 => "IFCSHELLBASEDSURFACEMODEL",
        64 => "IFCSITE",
        65 => "IFCSIUNIT",
        66 => "IFCSLAB",
        67 => "IFCSPACE",
        68 => "IFCSTAIR",
        69 => "IFCTRIANGULATEDFACESET",
        70 => "IFCUNITASSIGNMENT",
        71 => "IFCWALL",
        72 => "IFCWALLSTANDARDCASE",
        _ => "IFCWINDOW",
    }
}

impl IfcType {
    /// Position of the variant: its place among the named variants, then
    /// [`UNKNOWN_ORDINAL`] for `Unknown`.
    pub open spec fn ordinal(self) -> int {
        match self {
            IfcType::IfcApplication => 0,
            IfcType::IfcArbitraryClosedProfileDef => 1,
            IfcType::IfcAxis2Placement3D => 2,
            IfcType::IfcBeam => 3,
            IfcType::IfcBooleanClippingResult => 4,
            IfcType::IfcBooleanResult => 5,
            IfcType::IfcBuilding => 6,
            IfcType::IfcBuildingElementPart => 7,
            IfcType::IfcBuildingElementProxy => 8,
            IfcType::IfcBuildingStorey => 9,
            IfcType::IfcCableSegment => 10,
            IfcType::IfcCartesianPoint => 11,
            IfcType::IfcCartesianPointList3D => 12,
            IfcType::IfcChimney => 13,
            IfcType::IfcCircleHollowProfileDef => 14,
            IfcType::IfcCircleProfileDef => 15,
            IfcType::IfcColumn => 16,
            IfcType::IfcCompositeProfileDef => 17,
            IfcType::IfcConversionBasedUnit => 18,
            IfcType::IfcCovering => 19,
            IfcType::IfcCurtainWall => 20,
            IfcType::IfcDimensionalExponents => 21,
            IfcType::IfcDirection => 22,
            IfcType::IfcDistributionElement => 23,
            IfcType::IfcDoor => 24,
            IfcType::IfcDuctSegment => 25,
            IfcType::IfcExtrudedAreaSolid => 26,
            IfcType::IfcFaceBasedSurfaceModel => 27,
            IfcType::IfcFacetedBrep => 28,
            IfcType::IfcFlowFitting => 29,
            IfcType::IfcFlowSegment => 30,
            IfcType::IfcFlowTerminal => 31,
            IfcType::IfcFooting => 32,
            IfcType::IfcFurnishingElement => 33,
            IfcType::IfcFurniture => 34,
            IfcType::IfcGeometricRepresentationContext => 35,
            IfcType::IfcIShapeProfileDef => 36,
            IfcType::IfcLocalPlacement => 37,
            IfcType::IfcMapConversion => 38,
            IfcType::IfcMappedItem => 39,
            IfcType::IfcMeasureWithUnit => 40,
            IfcType::IfcMember => 41,
            IfcType::IfcOpeningElement => 42,
            IfcType::IfcOrganization => 43,
            IfcType::IfcOwnerHistory => 44,
            IfcType::IfcPerson => 45,
            IfcType::IfcPile => 46,
            IfcType::IfcPipeSegment => 47,
            IfcType::IfcPlate => 48,
            IfcType::IfcPolygonalFaceSet => 49,
            IfcType::IfcPolyLoop => 50,
            IfcType::IfcProduct => 51,
            IfcType::IfcProject => 52,
            IfcType::IfcProjectedCRS => 53,
            IfcType::IfcPropertySet => 54,
            IfcType::IfcPropertySingleValue => 55,
            IfcType::IfcRailing => 56,
            IfcType::IfcRamp => 57,
            IfcType::IfcRectangleProfileDef => 58,
            IfcType::IfcRelAggregates => 59,
            IfcType::IfcRelContainedInSpatialStructure => 60,
            IfcType::IfcRevolvedAreaSolid => 61,
            IfcType::IfcRoof => 62,
            IfcType::IfcShellBasedSurfaceModel => 63,
            IfcType::IfcSite => 64,
            IfcType::IfcSiUnit => 65,
            IfcType::IfcSlab => 66,
            IfcType::IfcSpace => 67,
            IfcType::IfcStair => 68,
            IfcType::IfcTriangulatedFaceSet => 69,
            IfcType::IfcUnitAssignment => 70,
            IfcType::IfcWall => 71,
            IfcType::IfcWallStandardCase => 72,
            IfcType::IfcWindow => 73,
            IfcType::Unknown(_) => UNKNOWN_ORDINAL as int,
        }
    }

    /// STEP name of the type: fixed for the named variants, verbatim for `Unknown`.
    pub open spec fn spec_name(self) -> Seq<char> {
        match self {
            IfcType::Unknown(s) => s@,
            _ => name_of_ordinal(self.ordinal()),
        }
    }

    /// Whether the type typically carries geometry in an IFC model.
    pub open spec fn spec_has_geometry(self) -> bool {
        self is IfcBeam
            || self is IfcBuildingElementPart
            || self is IfcBuildingElementProxy
            || self is IfcChimney
            || self is IfcColumn
            || self is IfcCovering
            || self is IfcCurtainWall
            || self is IfcDistributionElement
            || self is IfcDoor
            || self is IfcFlowFitting
            || self is IfcFlowSegment
            || self is IfcFlowTerminal
            || self is IfcFooting
            || self is IfcFurnishingElement
            || self is IfcFurniture
            || self is IfcMember
            || self is IfcOpeningElement
            || self is IfcPile
            || self is IfcPlate
            || self is IfcProduct
            || self is IfcRailing
            || self is IfcRamp
            || self is IfcRoof
            || self is IfcSite
            || self is IfcSlab
            || self is IfcSpace
            || self is IfcStair
            || self is IfcWall
            || self is IfcWallStandardCase
            || self is IfcWindow
    }

    /// Position of the variant, as [`IfcType::ordinal`] gives it.
    pub fn ordinal_value(&self) -> (k: u8)
        ensures
            k == self.ordinal(),
    {
        match self {
            IfcType::IfcApplication => 0,
            IfcType::IfcArbitraryClosedProfileDef => 1,
            IfcType::IfcAxis2Placement3D => 2,
            IfcType::IfcBeam => 3,
            IfcType::IfcBooleanClippingResult => 4,
            IfcType::IfcBooleanResult => 5,
            IfcType::IfcBuilding => 6,
            IfcType::IfcBuildingElementPart => 7,
            IfcType::IfcBuildingElementProxy => 8,
            IfcType::IfcBuildingStorey => 9,
            IfcType::IfcCableSegment => 10,
            IfcType::IfcCartesianPoint => 11,
            IfcType::IfcCartesianPointList3D => 12,
            IfcType::IfcChimney => 13,
            IfcType::IfcCircleHollowProfileDef => 14,
            IfcType::IfcCircleProfileDef => 15,
            IfcType::IfcColumn => 16,
            IfcType::IfcCompositeProfileDef => 17,
            IfcType::IfcConversionBasedUnit => 18,
            IfcType::IfcCovering => 19,
            IfcType::IfcCurtainWall => 20,
            IfcType::IfcDimensionalExponents => 21,
            IfcType::IfcDirection => 22,
            IfcType::IfcDistributionElement => 23,
            IfcType::IfcDoor => 24,
            IfcType::IfcDuctSegment => 25,
            IfcType::IfcExtrudedAreaSolid => 26,
            IfcType::IfcFaceBasedSurfaceModel => 27,
            IfcType::IfcFacetedBrep => 28,
            IfcType::IfcFlowFitting => 29,
            IfcType::IfcFlowSegment => 30,
            IfcType::IfcFlowTerminal => 31,
            IfcType::IfcFooting => 32,
            IfcType::IfcFurnishingElement => 33,
            IfcType::IfcFurniture => 34,
            IfcType::IfcGeometricRepresentationContext => 35,
            IfcType::IfcIShapeProfileDef => 36,
            IfcType::IfcLocalPlacement => 37,
            IfcType::IfcMapConversion => 38,
            IfcType::IfcMappedItem => 39,
            IfcType::IfcMeasureWithUnit => 40,
            IfcType::IfcMember => 41,
            IfcType::IfcOpeningElement => 42,
            IfcType::IfcOrganization => 43,
            IfcType::IfcOwnerHistory => 44,
            IfcType::IfcPerson => 45,
            IfcType::IfcPile => 46,
            IfcType::IfcPipeSegment => 47,
            IfcType::IfcPlate => 48,
            IfcType::IfcPolygonalFaceSet => 49,
            IfcType::IfcPolyLoop => 50,
            IfcType::IfcProduct => 51,
            IfcType::IfcProject => 52,
            IfcType::IfcProjectedCRS => 53,
            IfcType::IfcPropertySet => 54,
            IfcType::IfcPropertySingleValue => 55,
            IfcType::IfcRailing => 56,
            IfcType::IfcRamp => 57,
            IfcType::IfcRectangleProfileDef => 58,
            IfcType::IfcRelAggregates => 59,
            IfcType::IfcRelContainedInSpatialStructure => 60,
            IfcType::IfcRevolvedAreaSolid => 61,
            IfcType::IfcRoof => 62,
            IfcType::IfcShellBasedSurfaceModel => 63,
            IfcType::IfcSite => 64,
            IfcType::IfcSiUnit => 65,
            IfcType::IfcSlab => 66,
            IfcType::IfcSpace => 67,
            IfcType::IfcStair => 68,
            IfcType::IfcTriangulatedFaceSet => 69,
            IfcType::IfcUnitAssignment => 70,
            IfcType::IfcWall => 71,
            IfcType::IfcWallStandardCase => 72,
            IfcType::IfcWindow => 73,
            IfcType::Unknown(_) => UNKNOWN_ORDINAL,
        }
    }

    /// The named variant at position `k`.
    fn of_ordinal(k: u8) -> (t: IfcType)
        requires
            k < UNKNOWN_ORDINAL,
        ensures
            t.ordinal() == k,
    {
        match k {
            0 => IfcType::IfcApplication,
            1 => IfcType::IfcArbitraryClosedProfileDef,
            2 => IfcType::IfcAxis2Placement3D,
            3 => IfcType::IfcBeam,
            4 => IfcType::IfcBooleanClippingResult,
            5 => IfcType::IfcBooleanResult,
            6 => IfcType::IfcBuilding,
            7 => IfcType::IfcBuildingElementPart,
            8 => IfcType::IfcBuildingElementProxy,
            9 => IfcType::IfcBuildingStorey,
            10 => IfcType::IfcCableSegment,
            11 => IfcType::IfcCartesianPoint,
            12 => IfcType::IfcCartesianPointList3D,
            13 => IfcType::IfcChimney,
            14 => IfcType::IfcCircleHollowProfileDef,
            15 => IfcType::IfcCircleProfileDef,
            16 => IfcType::IfcColumn,
            17 => IfcType::IfcCompositeProfileDef,
            18 => IfcType::IfcConversionBasedUnit,
            19 => IfcType::IfcCovering,
            20 => IfcType::IfcCurtainWall,
            21 => IfcType::IfcDimensionalExponents,
            22 => IfcType::IfcDirection,
            23 => IfcType::IfcDistributionElement,
            24 => IfcType::IfcDoor,
            25 => IfcType::IfcDuctSegment,
            26 => IfcType::IfcExtrudedAreaSolid,
            27 => IfcType::IfcFaceBasedSurfaceModel,
            28 => IfcType::IfcFacetedBrep,
            29 => IfcType::IfcFlowFitting,
            30 => IfcType::IfcFlowSegment,
            31 => IfcType::IfcFlowTerminal,
            32 => IfcType::IfcFooting,
            33 => IfcType::IfcFurnishingElement,
            34 => IfcType::IfcFurniture,
            35 => IfcType::IfcGeometricRepresentationContext,
            36 => IfcType::IfcIShapeProfileDef,
            37 => IfcType::IfcLocalPlacement,
            38 => IfcType::IfcMapConversion,
            39 => IfcType::IfcMappedItem,
            40 => IfcType::IfcMeasureWithUnit,
            41 => IfcType::IfcMember,
            42 => IfcType::IfcOpeningElement,
            43 => IfcType::IfcOrganization,
            44 => IfcType::IfcOwnerHistory,
            45 => IfcType::IfcPerson,
            46 => IfcType::IfcPile,
            47 => IfcType::IfcPipeSegment,
            48 => IfcType::IfcPlate,
            49 => IfcType::IfcPolygonalFaceSet,
            50 => IfcType::IfcPolyLoop,
            51 => IfcType::IfcProduct,
            52 => IfcType::IfcProject,
            53 => IfcType::IfcProjectedCRS,
            54 => IfcType::IfcPropertySet,
            55 => IfcType::IfcPropertySingleValue,
            56 => IfcType::IfcRailing,
            57 => IfcType::IfcRamp,
            58 => IfcType::IfcRectangleProfileDef,
            59 => IfcType::IfcRelAggregates,
            60 => IfcType::IfcRelContainedInSpatialStructure,
            61 => IfcType::IfcRevolvedAreaSolid,
            62 => IfcType::IfcRoof,
            63 => IfcType::IfcShellBasedSurfaceModel,
            64 => IfcType::IfcSite,
            65 => IfcType::IfcSiUnit,
            66 => IfcType::IfcSlab,
            67 => IfcType::IfcSpace,
            68 => IfcType::IfcStair,
            69 => IfcType::IfcTriangulatedFaceSet,
            70 => IfcType::IfcUnitAssignment,
            71 => IfcType::IfcWall,
            72 => IfcType::IfcWallStandardCase,
            _ => IfcType::IfcWindow,
        }
    }

    /// Look up an [`IfcType`] from its uppercase STEP name.
    ///
    /// The match is exact (no case folding); a name that no named
    /// variant carries yields `Unknown` with the name kept verbatim.
    pub fn from_name(s: &str) -> (t: IfcType)
        ensures
            t@ == view_of_name(s@),
    {
        let mut k: u8 = 0;
        while k < UNKNOWN_ORDINAL
            invariant
                k <= UNKNOWN_ORDINAL,
                ordinal_of_name(s@) == ordinal_from(s@, k as int),
            decreases UNKNOWN_ORDINAL - k,
        {
            if str_eq(s, name_at(k)) {
                return IfcType::of_ordinal(k);
            }
            k = k + 1;
        }
        IfcType::Unknown(s.to_owned())
    }

    /// The STEP-file name of this type.
    pub fn name(&self) -> (r: &str)
        ensures
            r@ == self.spec_name(),
    {
        match self {
            IfcType::Unknown(s) => s.as_str(),
            _ => name_at(self.ordinal_value()),
        }
    }

    /// The STEP-file name of this type, as an owned string.
    pub fn to_string(&self) -> (s: String)
        ensures
            s@ == self.spec_name(),
    {
        crate::text::string_of(self.name())
    }

    /// `true` when this type typically carries geometry in an IFC model.
    pub fn has_geometry(&self) -> (b: bool)
        ensures
            b == self.spec_has_geometry(),
    {
        match self {
            IfcType::IfcBeam
            | IfcType::IfcBuildingElementPart
            | IfcType::IfcBuildingElementProxy
            | IfcType::IfcChimney
            | IfcType::IfcColumn
            | IfcType::IfcCovering
            | IfcType::IfcCurtainWall
            | IfcType::IfcDistributionElement
            | IfcType::IfcDoor
            | IfcType::IfcFlowFitting
            | IfcType::IfcFlowSegment
            | IfcType::IfcFlowTerminal
            | IfcType::IfcFooting
            | IfcType::IfcFurnishingElement
            | IfcType::IfcFurniture
            | IfcType::IfcMember
            | IfcType::IfcOpeningElement
            | IfcType::IfcPile
            | IfcType::IfcPlate
            | IfcType::IfcProduct
            | IfcType::IfcRailing
            | IfcType::IfcRamp
            | IfcType::IfcRoof
            | IfcType::IfcSite
            | IfcType::IfcSlab
            | IfcType::IfcSpace
            | IfcType::IfcStair
            | IfcType::IfcWall
            | IfcType::IfcWallStandardCase
            | IfcType::IfcWindow => true,
            _ => false,
        }
    }
}

// ───────────────────────────────────────────────────────────────────
// The STEP names are sorted, hence distinct
// ───────────────────────────────────────────────────────────────────

/// `a` comes strictly before `b` in byte order, comparing from position
/// `i` on.
pub open spec fn precedes_from(a: Seq<char>, b: Seq<char>, i: int) -> bool
    decreases a.len() - i,
{
    if i < 0 || i >= b.len() {
        false
    } else if i >= a.len() {
        true
    } else if a[i] != b[i] {
        (a[i] as u32) < (b[i] as u32)
    } else {
        precedes_from(a, b, i + 1)
    }
}

/// Nothing comes strictly before itself.
pub proof fn lemma_precedes_irreflexive(a: Seq<char>, i: int)
    ensures
        !precedes_from(a, a, i),
    decreases a.len() - i,
{
    if 0 <= i < a.len() {
        lemma_precedes_irreflexive(a, i + 1);
    }
}

/// Byte order is transitive.
pub proof fn lemma_precedes_transitive(a: Seq<char>, b: Seq<char>, c: Seq<char>, i: int)
    requires
        precedes_from(a, b, i),
        precedes_from(b, c, i),
    ensures
        precedes_from(a, c, i),
    decreases b.len() - i,
{
    if i < a.len() && a[i] == b[i] && b[i] == c[i] {
        lemma_precedes_transitive(a, b, c, i + 1);
    }
}

/// Each STEP name comes before the next one in the table.
proof fn lemma_names_adjacent(k: int)
    requires
        0 <= k < UNKNOWN_ORDINAL - 1,
    ensures
        precedes_from(name_of_ordinal(k), name_of_ordinal(k + 1), 0),
{
    if k == 0 {
        reveal_strlit("IFCAPPLICATION");
        reveal_strlit("IFCARBITRARYCLOSEDPROFILEDEF");
        reveal_with_fuel(precedes_from, 6);
    } else if k == 1 {
        reveal_strlit("IFCARBITRARYCLOSEDPROFILEDEF");
        reveal_strlit("IFCAXIS2PLACEMENT3D");
        reveal_with_fuel(precedes_from, 6);
    } else if k == 2 {
        reveal_strlit("IFCAXIS2PLACEMENT3D");
        reveal_strlit("IFCBEAM");
        reveal_with_fuel(precedes_from, 5);
    } else if k == 3 {
        reveal_strlit("IFCBEAM");
        reveal_strlit("IFCBOOLEANCLIPPINGRESULT");
        reveal_with_fuel(precedes_from, 6);
    } else if k == 4 {
        reveal_strlit("IFCBOOLEANCLIPPINGRESULT");
        reveal_strlit("IFCBOOLEANRESULT");
        reveal_with_fuel(precedes_from, 12);
    } else if k == 5 {
        reveal_strlit("IFCBOOLEANRESULT");
        reveal_strlit("IFCBUILDING");
        reveal_with_fuel(precedes_from, 6);
    } else if k == 6 {
        reveal_strlit("IFCBUILDING");
        reveal_strlit("IFCBUILDINGELEMENTPART");
        reveal_with_fuel(precedes_from, 13);
    } else if k == 7 {
        reveal_strlit("IFCBUILDINGELEMENTPART");
        reveal_strlit("IFCBUILDINGELEMENTPROXY");
        reveal_with_fuel(precedes_from, 21);
    } else if k == 8 {
        reveal_strlit("IFCBUILDINGELEMENTPROXY");
        reveal_strlit("IFCBUILDINGSTOREY");
        reveal_with_fuel(precedes_from, 13);
    } else if k == 9 {
        reveal_strlit("IFCBUILDINGSTOREY");
        reveal_strlit("IFCCABLESEGMENT");
        reveal_with_fuel(precedes_from, 5);
    } else if k == 10 {
        reveal_strlit("IFCCABLESEGMENT");
        reveal_strlit("IFCCARTESIANPOINT");
        reveal_with_fuel(precedes_from, 7);
    } else if k == 11 {
        reveal_strlit("IFCCARTESIANPOINT");
        reveal_strlit("IFCCARTESIANPOINTLIST3D");
        reveal_with_fuel(precedes_from, 19);
    } else if k == 12 {
        reveal_strlit("IFCCARTESIANPOINTLIST3D");
        reveal_strlit("IFCCHIMNEY");
        reveal_with_fuel(precedes_from, 6);
    } else if k == 13 {
        reveal_strlit("IFCCHIMNEY");
        reveal_strlit("IFCCIRCLEHOLLOWPROFILEDEF");
        reveal_with_fuel(precedes_from, 6);
    } else if k == 14 {
        reveal_strlit("IFCCIRCLEHOLLOWPROFILEDEF");
        reveal_strlit("IFCCIRCLEPROFILEDEF");
        reveal_with_fuel(precedes_from, 11);
    } else if k == 15 {
        reveal_strlit("IFCCIRCLEPROFILEDEF");
        reveal_strlit("IFCCOLUMN");
        reveal_with_fuel(precedes_from, 6);
    } else if k == 16 {
        reveal_strlit("IFCCOLUMN");
        reveal_strlit("IFCCOMPOSITEPROFILEDEF");
        reveal_with_fuel(precedes_from, 7);
    } else if k == 17 {
        reveal_strlit("IFCCOMPOSITEPROFILEDEF");
        reveal_strlit("IFCCONVERSIONBASEDUNIT");
        reveal_with_fuel(precedes_from, 7);
    } else if k == 18 {
        reveal_strlit("IFCCONVERSIONBASEDUNIT");
        reveal_strlit("IFCCOVERING");
        reveal_with_fuel(precedes_from, 7);
    } else if k == 19 {
        reveal_strlit("IFCCOVERING");
        reveal_strlit("IFCCURTAINWALL");
        reveal_with_fuel(precedes_from, 6);
    } else if k == 20 {
        reveal_strlit("IFCCURTAINWALL");
        reveal_strlit("IFCDIMENSIONALEXPONENTS");
        reveal_with_fuel(precedes_from, 5);
    } else if k == 21 {
        reveal_strlit("IFCDIMENSIONALEXPONENTS");
        reveal_strlit("IFCDIRECTION");
        reveal_with_fuel(precedes_from, 7);
    } else if k == 22 {
        reveal_strlit("IFCDIRECTION");
        reveal_strlit("IFCDISTRIBUTIONELEMENT");
        reveal_with_fuel(precedes_from, 7);
    } else if k == 23 {
        reveal_strlit("IFCDISTRIBUTIONELEMENT");
        reveal_strlit("IFCDOOR");
        reveal_with_fuel(precedes_from, 6);
    } else if k == 24 {
        reveal_strlit("IFCDOOR");
        reveal_strlit("IFCDUCTSEGMENT");
        reveal_with_fuel(precedes_from, 6);
    } else if k == 25 {
        reveal_strlit("IFCDUCTSEGMENT");
        reveal_strlit("IFCEXTRUDEDAREASOLID");
        reveal_with_fuel(precedes_from, 5);
    } else if k == 26 {
        reveal_strlit("IFCEXTRUDEDAREASOLID");
        reveal_strlit("IFCFACEBASEDSURFACEMODEL");
        reveal_with_fuel(precedes_from, 5);
    } else if k == 27 {
        reveal_strlit("IFCFACEBASEDSURFACEMODEL");
        reveal_strlit("IFCFACETEDBREP");
        reveal_with_fuel(precedes_from, 9);
    } else if k == 28 {
        reveal_strlit("IFCFACETEDBREP");
        reveal_strlit("IFCFLOWFITTING");
        reveal_with_fuel(precedes_from, 6);
    } else if k == 29 {
        reveal_strlit("IFCFLOWFITTING");
        reveal_strlit("IFCFLOWSEGMENT");
        reveal_with_fuel(precedes_from, 9);
    } else if k == 30 {
        reveal_strlit("IFCFLOWSEGMENT");
        reveal_strlit("IFCFLOWTERMINAL");
        reveal_with_fuel(precedes_from, 9);
    } else if k == 31 {
        reveal_strlit("IFCFLOWTERMINAL");
        reveal_strlit("IFCFOOTING");
        reveal_with_fuel(precedes_from, 6);
    } else if k == 32 {
        reveal_strlit("IFCFOOTING");
        reveal_strlit("IFCFURNISHINGELEMENT");
        reveal_with_fuel(precedes_from, 6);
    } else if k == 33 {
        reveal_strlit("IFCFURNISHINGELEMENT");
        reveal_strlit("IFCFURNITURE");
        reveal_with_fuel(precedes_from, 10);
    } else if k == 34 {
        reveal_strlit("IFCFURNITURE");
        reveal_strlit("IFCGEOMETRICREPRESENTATIONCONTEXT");
        reveal_with_fuel(precedes_from, 5);
    } else if k == 35 {
        reveal_strlit("IFCGEOMETRICREPRESENTATIONCONTEXT");
        reveal_strlit("IFCISHAPEPROFILEDEF");
        reveal_with_fuel(precedes_from, 5);
    } else if k == 36 {
        reveal_strlit("IFCISHAPEPROFILEDEF");
        reveal_strlit("IFCLOCALPLACEMENT");
        reveal_with_fuel(precedes_from, 5);
    } else if k == 37 {
        reveal_strlit("IFCLOCALPLACEMENT");
        reveal_strlit("IFCMAPCONVERSION");
        reveal_with_fuel(precedes_from, 5);
    } else if k == 38 {
        reveal_strlit("IFCMAPCONVERSION");
        reveal_strlit("IFCMAPPEDITEM");
        reveal_with_fuel(precedes_from, 8);
    } else if k == 39 {
        reveal_strlit("IFCMAPPEDITEM");
        reveal_strlit("IFCMEASUREWITHUNIT");
        reveal_with_fuel(precedes_from, 6);
    } else if k == 40 {
        reveal_strlit("IFCMEASUREWITHUNIT");
        reveal_strlit("IFCMEMBER");
        reveal_with_fuel(precedes_from, 7);
    } else if k == 41 {
        reveal_strlit("IFCMEMBER");
        reveal_strlit("IFCOPENINGELEMENT");
        reveal_with_fuel(precedes_from, 5);
    } else if k == 42 {
        reveal_strlit("IFCOPENINGELEMENT");
        reveal_strlit("IFCORGANIZATION");
        reveal_with_fuel(precedes_from, 6);
    } else if k == 43 {
        reveal_strlit("IFCORGANIZATION");
        reveal_strlit("IFCOWNERHISTORY");
        reveal_with_fuel(precedes_from, 6);
    } else if k == 44 {
        reveal_strlit("IFCOWNERHISTORY");
        reveal_strlit("IFCPERSON");
        reveal_with_fuel(precedes_from, 5);
    } else if k == 45 {
        reveal_strlit("IFCPERSON");
        reveal_strlit("IFCPILE");
        reveal_with_fuel(precedes_from, 6);
    } else if k == 46 {
        reveal_strlit("IFCPILE");
        reveal_strlit("IFCPIPESEGMENT");
        reveal_with_fuel(precedes_from, 7);
    } else if k == 47 {
        reveal_strlit("IFCPIPESEGMENT");
        reveal_strlit("IFCPLATE");
        reveal_with_fuel(precedes_from, 6);
    } else if k == 48 {
        reveal_strlit("IFCPLATE");
        reveal_strlit("IFCPOLYGONALFACESET");
        reveal_with_fuel(precedes_from, 6);
    } else if k == 49 {
        reveal_strlit("IFCPOLYGONALFACESET");
        reveal_strlit("IFCPOLYLOOP");
        reveal_with_fuel(precedes_from, 9);
    } else if k == 50 {
        reveal_strlit("IFCPOLYLOOP");
        reveal_strlit("IFCPRODUCT");
        reveal_with_fuel(precedes_from, 6);
    } else if k == 51 {
        reveal_strlit("IFCPRODUCT");
        reveal_strlit("IFCPROJECT");
        reveal_with_fuel(precedes_from, 8);
    } else if k == 52 {
        reveal_strlit("IFCPROJECT");
        reveal_strlit("IFCPROJECTEDCRS");
        reveal_with_fuel(precedes_from, 12);
    } else if k == 53 {
        reveal_strlit("IFCPROJECTEDCRS");
        reveal_strlit("IFCPROPERTYSET");
        reveal_with_fuel(precedes_from, 8);
    } else if k == 54 {
        reveal_strlit("IFCPROPERTYSET");
        reveal_strlit("IFCPROPERTYSINGLEVALUE");
        reveal_with_fuel(precedes_from, 14);
    } else if k == 55 {
        reveal_strlit("IFCPROPERTYSINGLEVALUE");
        reveal_strlit("IFCRAILING");
        reveal_with_fuel(precedes_from, 5);
    } else if k == 56 {
        reveal_strlit("IFCRAILING");
        reveal_strlit("IFCRAMP");
        reveal_with_fuel(precedes_from, 7);
    } else if k == 57 {
        reveal_strlit("IFCRAMP");
        reveal_strlit("IFCRECTANGLEPROFILEDEF");
        reveal_with_fuel(precedes_from, 6);
    } else if k == 58 {
        reveal_strlit("IFCRECTANGLEPROFILEDEF");
        reveal_strlit("IFCRELAGGREGATES");
        reveal_with_fuel(precedes_from, 7);
    } else if k == 59 {
        reveal_strlit("IFCRELAGGREGATES");
        reveal_strlit("IFCRELCONTAINEDINSPATIALSTRUCTURE");
        reveal_with_fuel(precedes_from, 8);
    } else if k == 60 {
        reveal_strlit("IFCRELCONTAINEDINSPATIALSTRUCTURE");
        reveal_strlit("IFCREVOLVEDAREASOLID");
        reveal_with_fuel(precedes_from, 7);
    } else if k == 61 {
        reveal_strlit("IFCREVOLVEDAREASOLID");
        reveal_strlit("IFCROOF");
        reveal_with_fuel(precedes_from, 6);
    } else if k == 62 {
        reveal_strlit("IFCROOF");
        reveal_strlit("IFCSHELLBASEDSURFACEMODEL");
        reveal_with_fuel(precedes_from, 5);
    } else if k == 63 {
        reveal_strlit("IFCSHELLBASEDSURFACEMODEL");
        reveal_strlit("IFCSITE");
        reveal_with_fuel(precedes_from, 6);
    } else if k == 64 {
        reveal_strlit("IFCSITE");
        reveal_strlit("IFCSIUNIT");
        reveal_with_fuel(precedes_from, 7);
    } else if k == 65 {
        reveal_strlit("IFCSIUNIT");
        reveal_strlit("IFCSLAB");
        reveal_with_fuel(precedes_from, 6);
    } else if k == 66 {
        reveal_strlit("IFCSLAB");
        reveal_strlit("IFCSPACE");
        reveal_with_fuel(precedes_from, 6);
    } else if k == 67 {
        reveal_strlit("IFCSPACE");
        reveal_strlit("IFCSTAIR");
        reveal_with_fuel(precedes_from, 6);
    } else if k == 68 {
        reveal_strlit("IFCSTAIR");
        reveal_strlit("IFCTRIANGULATEDFACESET");
        reveal_with_fuel(precedes_from, 5);
    } else if k == 69 {
        reveal_strlit("IFCTRIANGULATEDFACESET");
        reveal_strlit("IFCUNITASSIGNMENT");
        reveal_with_fuel(precedes_from, 5);
    } else if k == 70 {
        reveal_strlit("IFCUNITASSIGNMENT");
        reveal_strlit("IFCWALL");
        reveal_with_fuel(precedes_from, 5);
    } else if k == 71 {
        reveal_strlit("IFCWALL");
        reveal_strlit("IFCWALLSTANDARDCASE");
        reveal_with_fuel(precedes_from, 9);
    } else if k == 72 {
        reveal_strlit("IFCWALLSTANDARDCASE");
        reveal_strlit("IFCWINDOW");
        reveal_with_fuel(precedes_from, 6);
    }
}

/// The STEP names are sorted: the name at `j` comes before the name at `k`.
pub proof fn lemma_names_sorted(j: int, k: int)
    requires
        0 <= j < k < UNKNOWN_ORDINAL,
    ensures
        precedes_from(name_of_ordinal(j), name_of_ordinal(k), 0),
    decreases k - j,
{
    lemma_names_adjacent(k - 1);
    if j < k - 1 {
        lemma_names_sorted(j, k - 1);
        lemma_precedes_transitive(name_of_ordinal(j), name_of_ordinal(k - 1), name_of_ordinal(k), 0);
    }
}

/// Searching from `j <= k` for the name at `k` finds `k`.
proof fn lemma_ordinal_from_finds(k: int, j: int)
    requires
        0 <= j <= k < UNKNOWN_ORDINAL,
    ensures
        ordinal_from(name_of_ordinal(k), j) == k,
    decreases k - j,
{
    if j < k {
        lemma_names_sorted(j, k);
        lemma_precedes_irreflexive(name_of_ordinal(k), 0);
        lemma_ordinal_from_finds(k, j + 1);
    }
}

/// Every named variant's STEP name is `IFC` followed by at least one more
/// character.
pub proof fn lemma_names_start_with_ifc(k: int)
    requires
        0 <= k < UNKNOWN_ORDINAL,
    ensures
        name_of_ordinal(k).len() > 3,
        name_of_ordinal(k).subrange(0, 3) == "IFC"@,
{
    reveal_strlit("IFC");
    if k == 0 {
        reveal_strlit("IFCAPPLICATION");
        assert(name_of_ordinal(k).subrange(0, 3) =~= "IFC"@);
    } else if k == 1 {
        reveal_strlit("IFCARBITRARYCLOSEDPROFILEDEF");
        assert(name_of_ordinal(k).subrange(0, 3) =~= "IFC"@);
    } else if k == 2 {
        reveal_strlit("IFCAXIS2PLACEMENT3D");
        assert(name_of_ordinal(k).subrange(0, 3) =~= "IFC"@);
    } else if k == 3 {
        reveal_strlit("IFCBEAM");
        assert(name_of_ordinal(k).subrange(0, 3) =~= "IFC"@);
    } else if k == 4 {
        reveal_strlit("IFCBOOLEANCLIPPINGRESULT");
        assert(name_of_ordinal(k).subrange(0, 3) =~= "IFC"@);
    } else if k == 5 {
        reveal_strlit("IFCBOOLEANRESULT");
        assert(name_of_ordinal(k).subrange(0, 3) =~= "IFC"@);
    } else if k == 6 {
        reveal_strlit("IFCBUILDING");
        assert(name_of_ordinal(k).subrange(0, 3) =~= "IFC"@);
    } else if k == 7 {
        reveal_strlit("IFCBUILDINGELEMENTPART");
        assert(name_of_ordinal(k).subrange(0, 3) =~= "IFC"@);
    } else if k == 8 {
        reveal_strlit("IFCBUILDINGELEMENTPROXY");
        assert(name_of_ordinal(k).subrange(0, 3) =~= "IFC"@);
    } else if k == 9 {
        reveal_strlit("IFCBUILDINGSTOREY");
        assert(name_of_ordinal(k).subrange(0, 3) =~= "IFC"@);
    } else if k == 10 {
        reveal_strlit("IFCCABLESEGMENT");
        assert(name_of_ordinal(k).subrange(0, 3) =~= "IFC"@);
    } else if k == 11 {
        reveal_strlit("IFCCARTESIANPOINT");
        assert(name_of_ordinal(k).subrange(0, 3) =~= "IFC"@);
    } else if k == 12 {
        reveal_strlit("IFCCARTESIANPOINTLIST3D");
        assert(name_of_ordinal(k).subrange(0, 3) =~= "IFC"@);
    } else if k == 13 {
        reveal_strlit("IFCCHIMNEY");
        assert(name_of_ordinal(k).subrange(0, 3) =~= "IFC"@);
    } else if k == 14 {
        reveal_strlit("IFCCIRCLEHOLLOWPROFILEDEF");
        assert(name_of_ordinal(k).subrange(0, 3) =~= "IFC"@);
    } else if k == 15 {
        reveal_strlit("IFCCIRCLEPROFILEDEF");
        assert(name_of_ordinal(k).subrange(0, 3) =~= "IFC"@);
    } else if k == 16 {
        reveal_strlit("IFCCOLUMN");
        assert(name_of_ordinal(k).subrange(0, 3) =~= "IFC"@);
    } else if k == 17 {
        reveal_strlit("IFCCOMPOSITEPROFILEDEF");
        assert(name_of_ordinal(k).subrange(0, 3) =~= "IFC"@);
    } else if k == 18 {
        reveal_strlit("IFCCONVERSIONBASEDUNIT");
        assert(name_of_ordinal(k).subrange(0, 3) =~= "IFC"@);
    } else if k == 19 {
        reveal_strlit("IFCCOVERING");
        assert(name_of_ordinal(k).subrange(0, 3) =~= "IFC"@);
    } else if k == 20 {
        reveal_strlit("IFCCURTAINWALL");
        assert(name_of_ordinal(k).subrange(0, 3) =~= "IFC"@);
    } else if k == 21 {
        reveal_strlit("IFCDIMENSIONALEXPONENTS");
        assert(name_of_ordinal(k).subrange(0, 3) =~= "IFC"@);
    } else if k == 22 {
        reveal_strlit("IFCDIRECTION");
        assert(name_of_ordinal(k).subrange(0, 3) =~= "IFC"@);
    } else if k == 23 {
        reveal_strlit("IFCDISTRIBUTIONELEMENT");
        assert(name_of_ordinal(k).subrange(0, 3) =~= "IFC"@);
    } else if k == 24 {
        reveal_strlit("IFCDOOR");
        assert(name_of_ordinal(k).subrange(0, 3) =~= "IFC"@);
    } else if k == 25 {
        reveal_strlit("IFCDUCTSEGMENT");
        assert(name_of_ordinal(k).subrange(0, 3) =~= "IFC"@);
    } else if k == 26 {
        reveal_strlit("IFCEXTRUDEDAREASOLID");
        assert(name_of_ordinal(k).subrange(0, 3) =~= "IFC"@);
    } else if k == 27 {
        reveal_strlit("IFCFACEBASEDSURFACEMODEL");
        assert(name_of_ordinal(k).subrange(0, 3) =~= "IFC"@);
    } else if k == 28 {
        reveal_strlit("IFCFACETEDBREP");
        assert(name_of_ordinal(k).subrange(0, 3) =~= "IFC"@);
    } else if k == 29 {
        reveal_strlit("IFCFLOWFITTING");
        assert(name_of_ordinal(k).subrange(0, 3) =~= "IFC"@);
    } else if k == 30 {
        reveal_strlit("IFCFLOWSEGMENT");
        assert(name_of_ordinal(k).subrange(0, 3) =~= "IFC"@);
    } else if k == 31 {
        reveal_strlit("IFCFLOWTERMINAL");
        assert(name_of_ordinal(k).subrange(0, 3) =~= "IFC"@);
    } else if k == 32 {
        reveal_strlit("IFCFOOTING");
        assert(name_of_ordinal(k).subrange(0, 3) =~= "IFC"@);
    } else if k == 33 {
        reveal_strlit("IFCFURNISHINGELEMENT");
        assert(name_of_ordinal(k).subrange(0, 3) =~= "IFC"@);
    } else if k == 34 {
        reveal_strlit("IFCFURNITURE");
        assert(name_of_ordinal(k).subrange(0, 3) =~= "IFC"@);
    } else if k == 35 {
        reveal_strlit("IFCGEOMETRICREPRESENTATIONCONTEXT");
        assert(name_of_ordinal(k).subrange(0, 3) =~= "IFC"@);
    } else if k == 36 {
        reveal_strlit("IFCISHAPEPROFILEDEF");
        assert(name_of_ordinal(k).subrange(0, 3) =~= "IFC"@);
    } else if k == 37 {
        reveal_strlit("IFCLOCALPLACEMENT");
        assert(name_of_ordinal(k).subrange(0, 3) =~= "IFC"@);
    } else if k == 38 {
        reveal_strlit("IFCMAPCONVERSION");
        assert(name_of_ordinal(k).subrange(0, 3) =~= "IFC"@);
    } else if k == 39 {
        reveal_strlit("IFCMAPPEDITEM");
        assert(name_of_ordinal(k).subrange(0, 3) =~= "IFC"@);
    } else if k == 40 {
        reveal_strlit("IFCMEASUREWITHUNIT");
        assert(name_of_ordinal(k).subrange(0, 3) =~= "IFC"@);
    } else if k == 41 {
        reveal_strlit("IFCMEMBER");
        assert(name_of_ordinal(k).subrange(0, 3) =~= "IFC"@);
    } else if k == 42 {
        reveal_strlit("IFCOPENINGELEMENT");
        assert(name_of_ordinal(k).subrange(0, 3) =~= "IFC"@);
    } else if k == 43 {
        reveal_strlit("IFCORGANIZATION");
        assert(name_of_ordinal(k).subrange(0, 3) =~= "IFC"@);
    } else if k == 44 {
        reveal_strlit("IFCOWNERHISTORY");
        assert(name_of_ordinal(k).subrange(0, 3) =~= "IFC"@);
    } else if k == 45 {
        reveal_strlit("IFCPERSON");
        assert(name_of_ordinal(k).subrange(0, 3) =~= "IFC"@);
    } else if k == 46 {
        reveal_strlit("IFCPILE");
        assert(name_of_ordinal(k).subrange(0, 3) =~= "IFC"@);
    } else if k == 47 {
        reveal_strlit("IFCPIPESEGMENT");
        assert(name_of_ordinal(k).subrange(0, 3) =~= "IFC"@);
    } else if k == 48 {
        reveal_strlit("IFCPLATE");
        assert(name_of_ordinal(k).subrange(0, 3) =~= "IFC"@);
    } else if k == 49 {
        reveal_strlit("IFCPOLYGONALFACESET");
        assert(name_of_ordinal(k).subrange(0, 3) =~= "IFC"@);
    } else if k == 50 {
        reveal_strlit("IFCPOLYLOOP");
        assert(name_of_ordinal(k).subrange(0, 3) =~= "IFC"@);
    } else if k == 51 {
        reveal_strlit("IFCPRODUCT");
        assert(name_of_ordinal(k).subrange(0, 3) =~= "IFC"@);
    } else if k == 52 {
        reveal_strlit("IFCPROJECT");
        assert(name_of_ordinal(k).subrange(0, 3) =~= "IFC"@);
    } else if k == 53 {
        reveal_strlit("IFCPROJECTEDCRS");
        assert(name_of_ordinal(k).subrange(0, 3) =~= "IFC"@);
    } else if k == 54 {
        reveal_strlit("IFCPROPERTYSET");
        assert(name_of_ordinal(k).subrange(0, 3) =~= "IFC"@);
    } else if k == 55 {
        reveal_strlit("IFCPROPERTYSINGLEVALUE");
        assert(name_of_ordinal(k).subrange(0, 3) =~= "IFC"@);
    } else if k == 56 {
        reveal_strlit("IFCRAILING");
        assert(name_of_ordinal(k).subrange(0, 3) =~= "IFC"@);
    } else if k == 57 {
        reveal_strlit("IFCRAMP");
        assert(name_of_ordinal(k).subrange(0, 3) =~= "IFC"@);
    } else if k == 58 {
        reveal_strlit("IFCRECTANGLEPROFILEDEF");
        assert(name_of_ordinal(k).subrange(0, 3) =~= "IFC"@);
    } else if k == 59 {
        reveal_strlit("IFCRELAGGREGATES");
        assert(name_of_ordinal(k).subrange(0, 3) =~= "IFC"@);
    } else if k == 60 {
        reveal_strlit("IFCRELCONTAINEDINSPATIALSTRUCTURE");
        assert(name_of_ordinal(k).subrange(0, 3) =~= "IFC"@);
    } else if k == 61 {
        reveal_strlit("IFCREVOLVEDAREASOLID");
        assert(name_of_ordinal(k).subrange(0, 3) =~= "IFC"@);
    } else if k == 62 {
        reveal_strlit("IFCROOF");
        assert(name_of_ordinal(k).subrange(0, 3) =~= "IFC"@);
    } else if k == 63 {
        reveal_strlit("IFCSHELLBASEDSURFACEMODEL");
        assert(name_of_ordinal(k).subrange(0, 3) =~= "IFC"@);
    } else if k == 64 {
        reveal_strlit("IFCSITE");
        assert(name_of_ordinal(k).subrange(0, 3) =~= "IFC"@);
    } else if k == 65 {
        reveal_strlit("IFCSIUNIT");
        assert(name_of_ordinal(k).subrange(0, 3) =~= "IFC"@);
    } else if k == 66 {
        reveal_strlit("IFCSLAB");
        assert(name_of_ordinal(k).subrange(0, 3) =~= "IFC"@);
    } else if k == 67 {
        reveal_strlit("IFCSPACE");
        assert(name_of_ordinal(k).subrange(0, 3) =~= "IFC"@);
    } else if k == 68 {
        reveal_strlit("IFCSTAIR");
        assert(name_of_ordinal(k).subrange(0, 3) =~= "IFC"@);
    } else if k == 69 {
        reveal_strlit("IFCTRIANGULATEDFACESET");
        assert(name_of_ordinal(k).subrange(0, 3) =~= "IFC"@);
    } else if k == 70 {
        reveal_strlit("IFCUNITASSIGNMENT");
        assert(name_of_ordinal(k).subrange(0, 3) =~= "IFC"@);
    } else if k == 71 {
        reveal_strlit("IFCWALL");
        assert(name_of_ordinal(k).subrange(0, 3) =~= "IFC"@);
    } else if k == 72 {
        reveal_strlit("IFCWALLSTANDARDCASE");
        assert(name_of_ordinal(k).subrange(0, 3) =~= "IFC"@);
    } else if k == 73 {
        reveal_strlit("IFCWINDOW");
        assert(name_of_ordinal(k).subrange(0, 3) =~= "IFC"@);
    }
}

/// Distinct named variants carry distinct STEP names: looking up the name
/// of the named variant at position `k` gives back `k`.
pub proof fn lemma_ordinal_of_name_of_ordinal(k: int)
    requires
        0 <= k < UNKNOWN_ORDINAL as int,
    ensures
        ordinal_of_name(name_of_ordinal(k)) == k,
{
    lemma_ordinal_from_finds(k, 0);
}

/// Naming a type and looking the name up again gives back the same type,
/// for every named variant and for every `Unknown` whose text is not the
/// name of a named variant.
pub proof fn lemma_from_name_inverts_name(t: IfcType)
    requires
        t.ordinal() < UNKNOWN_ORDINAL || ordinal_of_name(t.spec_name()) == UNKNOWN_ORDINAL,
    ensures
        view_of_name(t.spec_name()) == t@,
{
    if t.ordinal() < UNKNOWN_ORDINAL {
        lemma_ordinal_of_name_of_ordinal(t.ordinal());
    }
}

/// Looking a name up and naming the result gives back the name, for every text.
pub proof fn lemma_name_inverts_from_name(s: Seq<char>, t: IfcType)
    requires
        t@ == view_of_name(s),
    ensures
        t.spec_name() == s,
{
}

/// The STEP spelling of every named variant, as the IFC schema writes it:
/// naming the variant gives that text, and looking that text up gives the
/// variant back.
pub proof fn lemma_step_spellings()
    ensures
        IfcType::IfcApplication.spec_name() == "IFCAPPLICATION"@ && view_of_name("IFCAPPLICATION"@) == IfcType::IfcApplication@,
        IfcType::IfcArbitraryClosedProfileDef.spec_name() == "IFCARBITRARYCLOSEDPROFILEDEF"@ && view_of_name("IFCARBITRARYCLOSEDPROFILEDEF"@) == IfcType::IfcArbitraryClosedProfileDef@,
        IfcType::IfcAxis2Placement3D.spec_name() == "IFCAXIS2PLACEMENT3D"@ && view_of_name("IFCAXIS2PLACEMENT3D"@) == IfcType::IfcAxis2Placement3D@,
        IfcType::IfcBeam.spec_name() == "IFCBEAM"@ && view_of_name("IFCBEAM"@) == IfcType::IfcBeam@,
        IfcType::IfcBooleanClippingResult.spec_name() == "IFCBOOLEANCLIPPINGRESULT"@ && view_of_name("IFCBOOLEANCLIPPINGRESULT"@) == IfcType::IfcBooleanClippingResult@,
        IfcType::IfcBooleanResult.spec_name() == "IFCBOOLEANRESULT"@ && view_of_name("IFCBOOLEANRESULT"@) == IfcType::IfcBooleanResult@,
        IfcType::IfcBuilding.spec_name() == "IFCBUILDING"@ && view_of_name("IFCBUILDING"@) == IfcType::IfcBuilding@,
        IfcType::IfcBuildingElementPart.spec_name() == "IFCBUILDINGELEMENTPART"@ && view_of_name("IFCBUILDINGELEMENTPART"@) == IfcType::IfcBuildingElementPart@,
        IfcType::IfcBuildingElementProxy.spec_name() == "IFCBUILDINGELEMENTPROXY"@ && view_of_name("IFCBUILDINGELEMENTPROXY"@) == IfcType::IfcBuildingElementProxy@,
        IfcType::IfcBuildingStorey.spec_name() == "IFCBUILDINGSTOREY"@ && view_of_name("IFCBUILDINGSTOREY"@) == IfcType::IfcBuildingStorey@,
        IfcType::IfcCableSegment.spec_name() == "IFCCABLESEGMENT"@ && view_of_name("IFCCABLESEGMENT"@) == IfcType::IfcCableSegment@,
        IfcType::IfcCartesianPoint.spec_name() == "IFCCARTESIANPOINT"@ && view_of_name("IFCCARTESIANPOINT"@) == IfcType::IfcCartesianPoint@,
        IfcType::IfcCartesianPointList3D.spec_name() == "IFCCARTESIANPOINTLIST3D"@ && view_of_name("IFCCARTESIANPOINTLIST3D"@) == IfcType::IfcCartesianPointList3D@,
        IfcType::IfcChimney.spec_name() == "IFCCHIMNEY"@ && view_of_name("IFCCHIMNEY"@) == IfcType::IfcChimney@,
        IfcType::IfcCircleHollowProfileDef.spec_name() == "IFCCIRCLEHOLLOWPROFILEDEF"@ && view_of_name("IFCCIRCLEHOLLOWPROFILEDEF"@) == IfcType::IfcCircleHollowProfileDef@,
        IfcType::IfcCircleProfileDef.spec_name() == "IFCCIRCLEPROFILEDEF"@ && view_of_name("IFCCIRCLEPROFILEDEF"@) == IfcType::IfcCircleProfileDef@,
        IfcType::IfcColumn.spec_name() == "IFCCOLUMN"@ && view_of_name("IFCCOLUMN"@) == IfcType::IfcColumn@,
        IfcType::IfcCompositeProfileDef.spec_name() == "IFCCOMPOSITEPROFILEDEF"@ && view_of_name("IFCCOMPOSITEPROFILEDEF"@) == IfcType::IfcCompositeProfileDef@,
        IfcType::IfcConversionBasedUnit.spec_name() == "IFCCONVERSIONBASEDUNIT"@ && view_of_name("IFCCONVERSIONBASEDUNIT"@) == IfcType::IfcConversionBasedUnit@,
        IfcType::IfcCovering.spec_name() == "IFCCOVERING"@ && view_of_name("IFCCOVERING"@) == IfcType::IfcCovering@,
        IfcType::IfcCurtainWall.spec_name() == "IFCCURTAINWALL"@ && view_of_name("IFCCURTAINWALL"@) == IfcType::IfcCurtainWall@,
        IfcType::IfcDimensionalExponents.spec_name() == "IFCDIMENSIONALEXPONENTS"@ && view_of_name("IFCDIMENSIONALEXPONENTS"@) == IfcType::IfcDimensionalExponents@,
        IfcType::IfcDirection.spec_name() == "IFCDIRECTION"@ && view_of_name("IFCDIRECTION"@) == IfcType::IfcDirection@,
        IfcType::IfcDistributionElement.spec_name() == "IFCDISTRIBUTIONELEMENT"@ && view_of_name("IFCDISTRIBUTIONELEMENT"@) == IfcType::IfcDistributionElement@,
        IfcType::IfcDoor.spec_name() == "IFCDOOR"@ && view_of_name("IFCDOOR"@) == IfcType::IfcDoor@,
        IfcType::IfcDuctSegment.spec_name() == "IFCDUCTSEGMENT"@ && view_of_name("IFCDUCTSEGMENT"@) == IfcType::IfcDuctSegment@,
        IfcType::IfcExtrudedAreaSolid.spec_name() == "IFCEXTRUDEDAREASOLID"@ && view_of_name("IFCEXTRUDEDAREASOLID"@) == IfcType::IfcExtrudedAreaSolid@,
        IfcType::IfcFaceBasedSurfaceModel.spec_name() == "IFCFACEBASEDSURFACEMODEL"@ && view_of_name("IFCFACEBASEDSURFACEMODEL"@) == IfcType::IfcFaceBasedSurfaceModel@,
        IfcType::IfcFacetedBrep.spec_name() == "IFCFACETEDBREP"@ && view_of_name("IFCFACETEDBREP"@) == IfcType::IfcFacetedBrep@,
        IfcType::IfcFlowFitting.spec_name() == "IFCFLOWFITTING"@ && view_of_name("IFCFLOWFITTING"@) == IfcType::IfcFlowFitting@,
        IfcType::IfcFlowSegment.spec_name() == "IFCFLOWSEGMENT"@ && view_of_name("IFCFLOWSEGMENT"@) == IfcType::IfcFlowSegment@,
        IfcType::IfcFlowTerminal.spec_name() == "IFCFLOWTERMINAL"@ && view_of_name("IFCFLOWTERMINAL"@) == IfcType::IfcFlowTerminal@,
        IfcType::IfcFooting.spec_name() == "IFCFOOTING"@ && view_of_name("IFCFOOTING"@) == IfcType::IfcFooting@,
        IfcType::IfcFurnishingElement.spec_name() == "IFCFURNISHINGELEMENT"@ && view_of_name("IFCFURNISHINGELEMENT"@) == IfcType::IfcFurnishingElement@,
        IfcType::IfcFurniture.spec_name() == "IFCFURNITURE"@ && view_of_name("IFCFURNITURE"@) == IfcType::IfcFurniture@,
        IfcType::IfcGeometricRepresentationContext.spec_name() == "IFCGEOMETRICREPRESENTATIONCONTEXT"@ && view_of_name("IFCGEOMETRICREPRESENTATIONCONTEXT"@) == IfcType::IfcGeometricRepresentationContext@,
        IfcType::IfcIShapeProfileDef.spec_name() == "IFCISHAPEPROFILEDEF"@ && view_of_name("IFCISHAPEPROFILEDEF"@) == IfcType::IfcIShapeProfileDef@,
        IfcType::IfcLocalPlacement.spec_name() == "IFCLOCALPLACEMENT"@ && view_of_name("IFCLOCALPLACEMENT"@) == IfcType::IfcLocalPlacement@,
        IfcType::IfcMapConversion.spec_name() == "IFCMAPCONVERSION"@ && view_of_name("IFCMAPCONVERSION"@) == IfcType::IfcMapConversion@,
        IfcType::IfcMappedItem.spec_name() == "IFCMAPPEDITEM"@ && view_of_name("IFCMAPPEDITEM"@) == IfcType::IfcMappedItem@,
        IfcType::IfcMeasureWithUnit.spec_name() == "IFCMEASUREWITHUNIT"@ && view_of_name("IFCMEASUREWITHUNIT"@) == IfcType::IfcMeasureWithUnit@,
        IfcType::IfcMember.spec_name() == "IFCMEMBER"@ && view_of_name("IFCMEMBER"@) == IfcType::IfcMember@,
        IfcType::IfcOpeningElement.spec_name() == "IFCOPENINGELEMENT"@ && view_of_name("IFCOPENINGELEMENT"@) == IfcType::IfcOpeningElement@,
        IfcType::IfcOrganization.spec_name() == "IFCORGANIZATION"@ && view_of_name("IFCORGANIZATION"@) == IfcType::IfcOrganization@,
        IfcType::IfcOwnerHistory.spec_name() == "IFCOWNERHISTORY"@ && view_of_name("IFCOWNERHISTORY"@) == IfcType::IfcOwnerHistory@,
        IfcType::IfcPerson.spec_name() == "IFCPERSON"@ && view_of_name("IFCPERSON"@) == IfcType::IfcPerson@,
        IfcType::IfcPile.spec_name() == "IFCPILE"@ && view_of_name("IFCPILE"@) == IfcType::IfcPile@,
        IfcType::IfcPipeSegment.spec_name() == "IFCPIPESEGMENT"@ && view_of_name("IFCPIPESEGMENT"@) == IfcType::IfcPipeSegment@,
        IfcType::IfcPlate.spec_name() == "IFCPLATE"@ && view_of_name("IFCPLATE"@) == IfcType::IfcPlate@,
        IfcType::IfcPolygonalFaceSet.spec_name() == "IFCPOLYGONALFACESET"@ && view_of_name("IFCPOLYGONALFACESET"@) == IfcType::IfcPolygonalFaceSet@,
        IfcType::IfcPolyLoop.spec_name() == "IFCPOLYLOOP"@ && view_of_name("IFCPOLYLOOP"@) == IfcType::IfcPolyLoop@,
        IfcType::IfcProduct.spec_name() == "IFCPRODUCT"@ && view_of_name("IFCPRODUCT"@) == IfcType::IfcProduct@,
        IfcType::IfcProject.spec_name() == "IFCPROJECT"@ && view_of_name("IFCPROJECT"@) == IfcType::IfcProject@,
        IfcType::IfcProjectedCRS.spec_name() == "IFCPROJECTEDCRS"@ && view_of_name("IFCPROJECTEDCRS"@) == IfcType::IfcProjectedCRS@,
        IfcType::IfcPropertySet.spec_name() == "IFCPROPERTYSET"@ && view_of_name("IFCPROPERTYSET"@) == IfcType::IfcPropertySet@,
        IfcType::IfcPropertySingleValue.spec_name() == "IFCPROPERTYSINGLEVALUE"@ && view_of_name("IFCPROPERTYSINGLEVALUE"@) == IfcType::IfcPropertySingleValue@,
        IfcType::IfcRailing.spec_name() == "IFCRAILING"@ && view_of_name("IFCRAILING"@) == IfcType::IfcRailing@,
        IfcType::IfcRamp.spec_name() == "IFCRAMP"@ && view_of_name("IFCRAMP"@) == IfcType::IfcRamp@,
        IfcType::IfcRectangleProfileDef.spec_name() == "IFCRECTANGLEPROFILEDEF"@ && view_of_name("IFCRECTANGLEPROFILEDEF"@) == IfcType::IfcRectangleProfileDef@,
        IfcType::IfcRelAggregates.spec_name() == "IFCRELAGGREGATES"@ && view_of_name("IFCRELAGGREGATES"@) == IfcType::IfcRelAggregates@,
        IfcType::IfcRelContainedInSpatialStructure.spec_name() == "IFCRELCONTAINEDINSPATIALSTRUCTURE"@ && view_of_name("IFCRELCONTAINEDINSPATIALSTRUCTURE"@) == IfcType::IfcRelContainedInSpatialStructure@,
        IfcType::IfcRevolvedAreaSolid.spec_name() == "IFCREVOLVEDAREASOLID"@ && view_of_name("IFCREVOLVEDAREASOLID"@) == IfcType::IfcRevolvedAreaSolid@,
        IfcType::IfcRoof.spec_name() == "IFCROOF"@ && view_of_name("IFCROOF"@) == IfcType::IfcRoof@,
        IfcType::IfcShellBasedSurfaceModel.spec_name() == "IFCSHELLBASEDSURFACEMODEL"@ && view_of_name("IFCSHELLBASEDSURFACEMODEL"@) == IfcType::IfcShellBasedSurfaceModel@,
        IfcType::IfcSite.spec_name() == "IFCSITE"@ && view_of_name("IFCSITE"@) == IfcType::IfcSite@,
        IfcType::IfcSiUnit.spec_name() == "IFCSIUNIT"@ && view_of_name("IFCSIUNIT"@) == IfcType::IfcSiUnit@,
        IfcType::IfcSlab.spec_name() == "IFCSLAB"@ && view_of_name("IFCSLAB"@) == IfcType::IfcSlab@,
        IfcType::IfcSpace.spec_name() == "IFCSPACE"@ && view_of_name("IFCSPACE"@) == IfcType::IfcSpace@,
        IfcType::IfcStair.spec_name() == "IFCSTAIR"@ && view_of_name("IFCSTAIR"@) == IfcType::IfcStair@,
        IfcType::IfcTriangulatedFaceSet.spec_name() == "IFCTRIANGULATEDFACESET"@ && view_of_name("IFCTRIANGULATEDFACESET"@) == IfcType::IfcTriangulatedFaceSet@,
        IfcType::IfcUnitAssignment.spec_name() == "IFCUNITASSIGNMENT"@ && view_of_name("IFCUNITASSIGNMENT"@) == IfcType::IfcUnitAssignment@,
        IfcType::IfcWall.spec_name() == "IFCWALL"@ && view_of_name("IFCWALL"@) == IfcType::IfcWall@,
        IfcType::IfcWallStandardCase.spec_name() == "IFCWALLSTANDARDCASE"@ && view_of_name("IFCWALLSTANDARDCASE"@) == IfcType::IfcWallStandardCase@,
        IfcType::IfcWindow.spec_name() == "IFCWINDOW"@ && view_of_name("IFCWINDOW"@) == IfcType::IfcWindow@,
{
    lemma_ordinal_of_name_of_ordinal(0);
    lemma_ordinal_of_name_of_ordinal(1);
    lemma_ordinal_of_name_of_ordinal(2);
    lemma_ordinal_of_name_of_ordinal(3);
    lemma_ordinal_of_name_of_ordinal(4);
    lemma_ordinal_of_name_of_ordinal(5);
    lemma_ordinal_of_name_of_ordinal(6);
    lemma_ordinal_of_name_of_ordinal(7);
    lemma_ordinal_of_name_of_ordinal(8);
    lemma_ordinal_of_name_of_ordinal(9);
    lemma_ordinal_of_name_of_ordinal(10);
    lemma_ordinal_of_name_of_ordinal(11);
    lemma_ordinal_of_name_of_ordinal(12);
    lemma_ordinal_of_name_of_ordinal(13);
    lemma_ordinal_of_name_of_ordinal(14);
    lemma_ordinal_of_name_of_ordinal(15);
    lemma_ordinal_of_name_of_ordinal(16);
    lemma_ordinal_of_name_of_ordinal(17);
    lemma_ordinal_of_name_of_ordinal(18);
    lemma_ordinal_of_name_of_ordinal(19);
    lemma_ordinal_of_name_of_ordinal(20);
    lemma_ordinal_of_name_of_ordinal(21);
    lemma_ordinal_of_name_of_ordinal(22);
    lemma_ordinal_of_name_of_ordinal(23);
    lemma_ordinal_of_name_of_ordinal(24);
    lemma_ordinal_of_name_of_ordinal(25);
    lemma_ordinal_of_name_of_ordinal(26);
    lemma_ordinal_of_name_of_ordinal(27);
    lemma_ordinal_of_name_of_ordinal(28);
    lemma_ordinal_of_name_of_ordinal(29);
    lemma_ordinal_of_name_of_ordinal(30);
    lemma_ordinal_of_name_of_ordinal(31);
    lemma_ordinal_of_name_of_ordinal(32);
    lemma_ordinal_of_name_of_ordinal(33);
    lemma_ordinal_of_name_of_ordinal(34);
    lemma_ordinal_of_name_of_ordinal(35);
    lemma_ordinal_of_name_of_ordinal(36);
    lemma_ordinal_of_name_of_ordinal(37);
    lemma_ordinal_of_name_of_ordinal(38);
    lemma_ordinal_of_name_of_ordinal(39);
    lemma_ordinal_of_name_of_ordinal(40);
    lemma_ordinal_of_name_of_ordinal(41);
    lemma_ordinal_of_name_of_ordinal(42);
    lemma_ordinal_of_name_of_ordinal(43);
    lemma_ordinal_of_name_of_ordinal(44);
    lemma_ordinal_of_name_of_ordinal(45);
    lemma_ordinal_of_name_of_ordinal(46);
    lemma_ordinal_of_name_of_ordinal(47);
    lemma_ordinal_of_name_of_ordinal(48);
    lemma_ordinal_of_name_of_ordinal(49);
    lemma_ordinal_of_name_of_ordinal(50);
    lemma_ordinal_of_name_of_ordinal(51);
    lemma_ordinal_of_name_of_ordinal(52);
    lemma_ordinal_of_name_of_ordinal(53);
    lemma_ordinal_of_name_of_ordinal(54);
    lemma_ordinal_of_name_of_ordinal(55);
    lemma_ordinal_of_name_of_ordinal(56);
    lemma_ordinal_of_name_of_ordinal(57);
    lemma_ordinal_of_name_of_ordinal(58);
    lemma_ordinal_of_name_of_ordinal(59);
    lemma_ordinal_of_name_of_ordinal(60);
    lemma_ordinal_of_name_of_ordinal(61);
    lemma_ordinal_of_name_of_ordinal(62);
    lemma_ordinal_of_name_of_ordinal(63);
    lemma_ordinal_of_name_of_ordinal(64);
    lemma_ordinal_of_name_of_ordinal(65);
    lemma_ordinal_of_name_of_ordinal(66);
    lemma_ordinal_of_name_of_ordinal(67);
    lemma_ordinal_of_name_of_ordinal(68);
    lemma_ordinal_of_name_of_ordinal(69);
    lemma_ordinal_of_name_of_ordinal(70);
    lemma_ordinal_of_name_of_ordinal(71);
    lemma_ordinal_of_name_of_ordinal(72);
    lemma_ordinal_of_name_of_ordinal(73);
}

/// The types that carry geometry in an IFC model: the building elements,
/// furnishings, products and distribution elements, spaces and sites.
/// Every other type, `Unknown` included, carries none.
pub proof fn lemma_geometry_carriers(t: IfcType)
    ensures
        IfcType::IfcBeam.spec_has_geometry(),
        IfcType::IfcBuildingElementPart.spec_has_geometry(),
        IfcType::IfcBuildingElementProxy.spec_has_geometry(),
        IfcType::IfcChimney.spec_has_geometry(),
        IfcType::IfcColumn.spec_has_geometry(),
        IfcType::IfcCovering.spec_has_geometry(),
        IfcType::IfcCurtainWall.spec_has_geometry(),
        IfcType::IfcDistributionElement.spec_has_geometry(),
        IfcType::IfcDoor.spec_has_geometry(),
        IfcType::IfcFlowFitting.spec_has_geometry(),
        IfcType::IfcFlowSegment.spec_has_geometry(),
        IfcType::IfcFlowTerminal.spec_has_geometry(),
        IfcType::IfcFooting.spec_has_geometry(),
        IfcType::IfcFurnishingElement.spec_has_geometry(),
        IfcType::IfcFurniture.spec_has_geometry(),
        IfcType::IfcMember.spec_has_geometry(),
        IfcType::IfcOpeningElement.spec_has_geometry(),
        IfcType::IfcPile.spec_has_geometry(),
        IfcType::IfcPlate.spec_has_geometry(),
        IfcType::IfcProduct.spec_has_geometry(),
        IfcType::IfcRailing.spec_has_geometry(),
        IfcType::IfcRamp.spec_has_geometry(),
        IfcType::IfcRoof.spec_has_geometry(),
        IfcType::IfcSite.spec_has_geometry(),
        IfcType::IfcSlab.spec_has_geometry(),
        IfcType::IfcSpace.spec_has_geometry(),
        IfcType::IfcStair.spec_has_geometry(),
        IfcType::IfcWall.spec_has_geometry(),
        IfcType::IfcWallStandardCase.spec_has_geometry(),
        IfcType::IfcWindow.spec_has_geometry(),
        !IfcType::IfcApplication.spec_has_geometry(),
        !IfcType::IfcArbitraryClosedProfileDef.spec_has_geometry(),
        !IfcType::IfcAxis2Placement3D.spec_has_geometry(),
        !IfcType::IfcBooleanClippingResult.spec_has_geometry(),
        !IfcType::IfcBooleanResult.spec_has_geometry(),
        !IfcType::IfcBuilding.spec_has_geometry(),
        !IfcType::IfcBuildingStorey.spec_has_geometry(),
        !IfcType::IfcCableSegment.spec_has_geometry(),
        !IfcType::IfcCartesianPoint.spec_has_geometry(),
        !IfcType::IfcCartesianPointList3D.spec_has_geometry(),
        !IfcType::IfcCircleHollowProfileDef.spec_has_geometry(),
        !IfcType::IfcCircleProfileDef.spec_has_geometry(),
        !IfcType::IfcCompositeProfileDef.spec_has_geometry(),
        !IfcType::IfcConversionBasedUnit.spec_has_geometry(),
        !IfcType::IfcDimensionalExponents.spec_has_geometry(),
        !IfcType::IfcDirection.spec_has_geometry(),
        !IfcType::IfcDuctSegment.spec_has_geometry(),
        !IfcType::IfcExtrudedAreaSolid.spec_has_geometry(),
        !IfcType::IfcFaceBasedSurfaceModel.spec_has_geometry(),
        !IfcType::IfcFacetedBrep.spec_has_geometry(),
        !IfcType::IfcGeometricRepresentationContext.spec_has_geometry(),
        !IfcType::IfcIShapeProfileDef.spec_has_geometry(),
        !IfcType::IfcLocalPlacement.spec_has_geometry(),
        !IfcType::IfcMapConversion.spec_has_geometry(),
        !IfcType::IfcMappedItem.spec_has_geometry(),
        !IfcType::IfcMeasureWithUnit.spec_has_geometry(),
        !IfcType::IfcOrganization.spec_has_geometry(),
        !IfcType::IfcOwnerHistory.spec_has_geometry(),
        !IfcType::IfcPerson.spec_has_geometry(),
        !IfcType::IfcPipeSegment.spec_has_geometry(),
        !IfcType::IfcPolygonalFaceSet.spec_has_geometry(),
        !IfcType::IfcPolyLoop.spec_has_geometry(),
        !IfcType::IfcProject.spec_has_geometry(),
        !IfcType::IfcProjectedCRS.spec_has_geometry(),
        !IfcType::IfcPropertySet.spec_has_geometry(),
        !IfcType::IfcPropertySingleValue.spec_has_geometry(),
        !IfcType::IfcRectangleProfileDef.spec_has_geometry(),
        !IfcType::IfcRelAggregates.spec_has_geometry(),
        !IfcType::IfcRelContainedInSpatialStructure.spec_has_geometry(),
        !IfcType::IfcRevolvedAreaSolid.spec_has_geometry(),
        !IfcType::IfcShellBasedSurfaceModel.spec_has_geometry(),
        !IfcType::IfcSiUnit.spec_has_geometry(),
        !IfcType::IfcTriangulatedFaceSet.spec_has_geometry(),
        !IfcType::IfcUnitAssignment.spec_has_geometry(),
        t is Unknown ==> !t.spec_has_geometry(),
{
}

impl PartialEq for IfcType {
    fn eq(&self, other: &Self) -> (r: bool) {
        let a = self.ordinal_value();
        let b = other.ordinal_value();
        if a != b {
            return false;
        }
        match self {
            IfcType::Unknown(x) => match other {
                IfcType::Unknown(y) => x.eq(y),
                _ => false,
            },
            _ => true,
        }
    }
}

impl vstd::std_specs::cmp::PartialEqSpecImpl for IfcType {
    open spec fn obeys_eq_spec() -> bool {
        true
    }

    open spec fn eq_spec(&self, other: &Self) -> bool {
        self@ == other@
    }
}

} // verus!
