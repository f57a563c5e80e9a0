//! IFC schema metadata: geometry and profile categories.
//!
//! [`IfcSchema`] classifies IFC entity types into geometry
//! representation and profile categories, so that downstream code can
//! route entities to the right handler.
use std::collections::HashMap;
use vstd::prelude::*;
use crate::ifc_type::IfcType;

verus! {

broadcast use vstd::std_specs::hash::group_hash_axioms;

/// Categories of geometry representation in an IFC model.
#[derive(Debug, Clone, Copy, PartialEq, Eq, Structural, Hash)]
pub enum GeometryCategory {
    /// Swept solid: extrusion or revolution of a 2D profile.
    SweptSolid,
    /// CSG boolean: union, intersection, or subtraction.
    Boolean,
    /// Explicit mesh: tessellated or faceted boundary representation.
    ExplicitMesh,
    /// Instanced geometry via mapping.
    MappedItem,
    /// Surface model.
    Surface,
    /// Curve representation.
    Curve,
    /// Anything not covered by the other categories.
    Other,
}

/// Categories of profile definition.
#[derive(Debug, Clone, Copy, PartialEq, Eq, Structural, Hash)]
pub enum ProfileCategory {
    /// Standard parametric profile (rectangle, circle, I-shape, etc.).
    Parametric,
    /// Arbitrary closed curve profile.
    Arbitrary,
    /// Composite of multiple sub-profiles.
    Composite,
}

/// The standard IFC4 geometry classification.
pub open spec fn geometry_category_of(t: IfcType) -> Option<GeometryCategory> {
    match t {
        IfcType::IfcExtrudedAreaSolid => Some(GeometryCategory::SweptSolid),
        IfcType::IfcRevolvedAreaSolid => Some(GeometryCategory::SweptSolid),
        IfcType::IfcBooleanResult => Some(GeometryCategory::Boolean),
        IfcType::IfcBooleanClippingResult => Some(GeometryCategory::Boolean),
        IfcType::IfcFacetedBrep => Some(GeometryCategory::ExplicitMesh),
        IfcType::IfcTriangulatedFaceSet => Some(GeometryCategory::ExplicitMesh),
        IfcType::IfcPolygonalFaceSet => Some(GeometryCategory::ExplicitMesh),
        IfcType::IfcFaceBasedSurfaceModel => Some(GeometryCategory::Surface),
        IfcType::IfcShellBasedSurfaceModel => Some(GeometryCategory::Surface),
        IfcType::IfcMappedItem => Some(GeometryCategory::MappedItem),
        _ => None,
    }
}

/// The standard IFC4 profile classification.
pub open spec fn profile_category_of(t: IfcType) -> Option<ProfileCategory> {
    match t {
        IfcType::IfcRectangleProfileDef => Some(ProfileCategory::Parametric),
        IfcType::IfcCircleProfileDef => Some(ProfileCategory::Parametric),
        IfcType::IfcCircleHollowProfileDef => Some(ProfileCategory::Parametric),
        IfcType::IfcIShapeProfileDef => Some(ProfileCategory::Parametric),
        IfcType::IfcArbitraryClosedProfileDef => Some(ProfileCategory::Arbitrary),
        IfcType::IfcCompositeProfileDef => Some(ProfileCategory::Composite),
        _ => None,
    }
}

/// The IFC4 classification that every schema answers with: extruded and
/// revolved area solids are swept solids, CSG results are booleans, B-reps
/// and face sets are explicit meshes, surface models are surfaces, mapped
/// items are mapped items; the I-shape, rectangle and circle profiles are
/// parametric, closed arbitrary profiles are arbitrary, composite profiles
/// composite.  No other type is classified, and no type is both a geometry
/// and a profile type.
pub proof fn lemma_ifc4_classification(t: IfcType)
    ensures
        geometry_category_of(IfcType::IfcExtrudedAreaSolid) == Some(GeometryCategory::SweptSolid),
        geometry_category_of(IfcType::IfcRevolvedAreaSolid) == Some(GeometryCategory::SweptSolid),
        geometry_category_of(IfcType::IfcBooleanResult) == Some(GeometryCategory::Boolean),
        geometry_category_of(IfcType::IfcBooleanClippingResult) == Some(GeometryCategory::Boolean),
        geometry_category_of(IfcType::IfcFacetedBrep) == Some(GeometryCategory::ExplicitMesh),
        geometry_category_of(IfcType::IfcTriangulatedFaceSet) == Some(GeometryCategory::ExplicitMesh),
        geometry_category_of(IfcType::IfcPolygonalFaceSet) == Some(GeometryCategory::ExplicitMesh),
        geometry_category_of(IfcType::IfcFaceBasedSurfaceModel) == Some(GeometryCategory::Surface),
        geometry_category_of(IfcType::IfcShellBasedSurfaceModel) == Some(GeometryCategory::Surface),
        geometry_category_of(IfcType::IfcMappedItem) == Some(GeometryCategory::MappedItem),
        profile_category_of(IfcType::IfcRectangleProfileDef) == Some(ProfileCategory::Parametric),
        profile_category_of(IfcType::IfcCircleProfileDef) == Some(ProfileCategory::Parametric),
        profile_category_of(IfcType::IfcCircleHollowProfileDef) == Some(ProfileCategory::Parametric),
        profile_category_of(IfcType::IfcIShapeProfileDef) == Some(ProfileCategory::Parametric),
        profile_category_of(IfcType::IfcArbitraryClosedProfileDef) == Some(ProfileCategory::Arbitrary),
        profile_category_of(IfcType::IfcCompositeProfileDef) == Some(ProfileCategory::Composite),
        geometry_category_of(t) is Some ==> t is IfcExtrudedAreaSolid || t is IfcRevolvedAreaSolid || t is IfcBooleanResult || t is IfcBooleanClippingResult || t is IfcFacetedBrep || t is IfcTriangulatedFaceSet || t is IfcPolygonalFaceSet || t is IfcFaceBasedSurfaceModel || t is IfcShellBasedSurfaceModel || t is IfcMappedItem,
        profile_category_of(t) is Some ==> t is IfcRectangleProfileDef || t is IfcCircleProfileDef || t is IfcCircleHollowProfileDef || t is IfcIShapeProfileDef || t is IfcArbitraryClosedProfileDef || t is IfcCompositeProfileDef,
        !(geometry_category_of(t) is Some && profile_category_of(t) is Some),
{
}

/// The geometry classification keyed by type position ([`IfcType::ordinal`]).
pub open spec fn geometry_map() -> Map<u8, GeometryCategory> {
    Map::<u8, GeometryCategory>::empty()
        .insert(IfcType::IfcExtrudedAreaSolid.ordinal() as u8, GeometryCategory::SweptSolid)
        .insert(IfcType::IfcRevolvedAreaSolid.ordinal() as u8, GeometryCategory::SweptSolid)
        .insert(IfcType::IfcBooleanResult.ordinal() as u8, GeometryCategory::Boolean)
        .insert(IfcType::IfcBooleanClippingResult.ordinal() as u8, GeometryCategory::Boolean)
        .insert(IfcType::IfcFacetedBrep.ordinal() as u8, GeometryCategory::ExplicitMesh)
        .insert(IfcType::IfcTriangulatedFaceSet.ordinal() as u8, GeometryCategory::ExplicitMesh)
        .insert(IfcType::IfcPolygonalFaceSet.ordinal() as u8, GeometryCategory::ExplicitMesh)
        .insert(IfcType::IfcFaceBasedSurfaceModel.ordinal() as u8, GeometryCategory::Surface)
        .insert(IfcType::IfcShellBasedSurfaceModel.ordinal() as u8, GeometryCategory::Surface)
        .insert(IfcType::IfcMappedItem.ordinal() as u8, GeometryCategory::MappedItem)
}

/// The profile classification keyed by type position ([`IfcType::ordinal`]).
pub open spec fn profile_map() -> Map<u8, ProfileCategory> {
    Map::<u8, ProfileCategory>::empty()
        .insert(IfcType::IfcRectangleProfileDef.ordinal() as u8, ProfileCategory::Parametric)
        .insert(IfcType::IfcCircleProfileDef.ordinal() as u8, ProfileCategory::Parametric)
        .insert(IfcType::IfcCircleHollowProfileDef.ordinal() as u8, ProfileCategory::Parametric)
        .insert(IfcType::IfcIShapeProfileDef.ordinal() as u8, ProfileCategory::Parametric)
        .insert(IfcType::IfcArbitraryClosedProfileDef.ordinal() as u8, ProfileCategory::Arbitrary)
        .insert(IfcType::IfcCompositeProfileDef.ordinal() as u8, ProfileCategory::Composite)
}

/// Lookup tables for IFC type classification, keyed by the position of
/// the type among the named variants.
///
/// Every schema holds the standard IFC4 tables; query it with
/// [`geometry_category`](IfcSchema::geometry_category) and
/// [`profile_category`](IfcSchema::profile_category).
pub struct IfcSchema {
    geometry_types: HashMap<u8, GeometryCategory>,
    profile_types: HashMap<u8, ProfileCategory>,
}

impl IfcSchema {
    #[verifier::type_invariant]
    spec fn holds_standard_tables(self) -> bool {
        &&& self.geometry_types@ == geometry_map()
        &&& self.profile_types@ == profile_map()
    }

    /// The classification this schema answers with: always the standard one.
    pub closed spec fn classifies_as_standard(self) -> bool {
        self.holds_standard_tables()
    }

    /// Build the schema with the standard IFC4 classification tables.
    pub fn new() -> (s: Self)
        ensures
            s.classifies_as_standard(),
    {
        let mut geometry_types: HashMap<u8, GeometryCategory> = HashMap::new();
        geometry_types.insert(IfcType::IfcExtrudedAreaSolid.ordinal_value(), GeometryCategory::SweptSolid);
        geometry_types.insert(IfcType::IfcRevolvedAreaSolid.ordinal_value(), GeometryCategory::SweptSolid);
        geometry_types.insert(IfcType::IfcBooleanResult.ordinal_value(), GeometryCategory::Boolean);
        geometry_types.insert(IfcType::IfcBooleanClippingResult.ordinal_value(), GeometryCategory::Boolean);
        geometry_types.insert(IfcType::IfcFacetedBrep.ordinal_value(), GeometryCategory::ExplicitMesh);
        geometry_types.insert(IfcType::IfcTriangulatedFaceSet.ordinal_value(), GeometryCategory::ExplicitMesh);
        geometry_types.insert(IfcType::IfcPolygonalFaceSet.ordinal_value(), GeometryCategory::ExplicitMesh);
        geometry_types.insert(IfcType::IfcFaceBasedSurfaceModel.ordinal_value(), GeometryCategory::Surface);
        geometry_types.insert(IfcType::IfcShellBasedSurfaceModel.ordinal_value(), GeometryCategory::Surface);
        geometry_types.insert(IfcType::IfcMappedItem.ordinal_value(), GeometryCategory::MappedItem);
        let mut profile_types: HashMap<u8, ProfileCategory> = HashMap::new();
        profile_types.insert(IfcType::IfcRectangleProfileDef.ordinal_value(), ProfileCategory::Parametric);
        profile_types.insert(IfcType::IfcCircleProfileDef.ordinal_value(), ProfileCategory::Parametric);
        profile_types.insert(IfcType::IfcCircleHollowProfileDef.ordinal_value(), ProfileCategory::Parametric);
        profile_types.insert(IfcType::IfcIShapeProfileDef.ordinal_value(), ProfileCategory::Parametric);
        profile_types.insert(IfcType::IfcArbitraryClosedProfileDef.ordinal_value(), ProfileCategory::Arbitrary);
        profile_types.insert(IfcType::IfcCompositeProfileDef.ordinal_value(), ProfileCategory::Composite);
        assert(geometry_types@ =~= geometry_map());
        assert(profile_types@ =~= profile_map());
        IfcSchema { geometry_types, profile_types }
    }

    /// Geometry category for the given type, if classified.
    pub fn geometry_category(&self, ifc_type: &IfcType) -> (r: Option<GeometryCategory>)
        ensures
            r == geometry_category_of(*ifc_type),
    {
        proof {
            use_type_invariant(self);
        }
        match self.geometry_types.get(&ifc_type.ordinal_value()) {
            Some(c) => Some(*c),
            None => None,
        }
    }

    /// Profile category for the given type, if classified.
    pub fn profile_category(&self, ifc_type: &IfcType) -> (r: Option<ProfileCategory>)
        ensures
            r == profile_category_of(*ifc_type),
    {
        proof {
            use_type_invariant(self);
        }
        match self.profile_types.get(&ifc_type.ordinal_value()) {
            Some(c) => Some(*c),
            None => None,
        }
    }

/// `true` if the type is a geometry representation.
    pub fn is_geometry_type(&self, ifc_type: &IfcType) -> (b: bool)
        ensures
            b == geometry_category_of(*ifc_type).is_some(),
    {
        self.geometry_category(ifc_type).is_some()
    }

    /// `true` if the type is a profile definition.
    pub fn is_profile_type(&self, ifc_type: &IfcType) -> (b: bool)
        ensures
            b == profile_category_of(*ifc_type).is_some(),
    {
        self.profile_category(ifc_type).is_some()
    }
}

impl Clone for IfcSchema {
    /// Every schema holds the same standard tables, so a copy is a fresh one.
    fn clone(&self) -> (s: Self)
        ensures
            s.classifies_as_standard(),
    {
        Self::new()
    }
}

impl Default for IfcSchema {
    fn default() -> (s: Self)
        ensures
            s.classifies_as_standard(),
    {
        Self::new()
    }
}

} // verus!
