//! The projected, editor-facing view model. Views are built fresh on each
//! query and hold copies of the document's values.
use vstd::prelude::*;
use crate::model::{AxisValue, Number};

verus! {

/// The end of one contour inside a packed path.
#[derive(Clone, Copy, Debug, PartialEq, Eq, Structural)]
pub struct ContourInfo {
    /// Index of the contour's last point in the packed point stream.
    pub end_point: usize,
    pub is_closed: bool,
}

/// Contours flattened into parallel arrays: two coordinates and one point-type
/// code (`0` on-curve, `1` off-curve) per point, and one entry per contour.
#[derive(Clone, Debug)]
pub struct PackedPath {
    pub coordinates: Vec<Number>,
    pub point_types: Vec<i32>,
    pub contour_info: Vec<ContourInfo>,
}

/// An affine placement split into named fields.
#[derive(Clone, Copy, Debug, PartialEq, Eq, Structural)]
pub struct DecomposedTransform {
    pub translate_x: Number,
    pub translate_y: Number,
    pub rotation: Number,
    pub scale_x: Number,
    pub scale_y: Number,
    pub skew_x: Number,
    pub skew_y: Number,
    pub t_center_x: Number,
    pub t_center_y: Number,
}

#[derive(Clone, Debug)]
pub struct ComponentView {
    pub name: String,
    pub transformation: DecomposedTransform,
    /// Per-axis values of a variable component; not projected, always empty.
    pub location: Vec<AxisValue>,
}

#[derive(Clone, Debug)]
pub struct AnchorView {
    pub name: String,
    pub x: Number,
    pub y: Number,
}

#[derive(Clone, Debug)]
pub struct StaticGlyphView {
    pub path: PackedPath,
    pub components: Vec<ComponentView>,
    pub x_advance: Number,
    pub y_advance: Number,
    pub anchors: Vec<AnchorView>,
}

#[derive(Clone, Debug)]
pub struct LayerView {
    pub glyph: StaticGlyphView,
}

/// A layer of a glyph keyed by its identifier.
#[derive(Clone, Debug)]
pub struct LayerEntry {
    pub id: String,
    pub layer: LayerView,
}

#[derive(Clone, Debug)]
pub struct GlyphSourceView {
    pub name: String,
    pub layer_name: String,
    pub location: Vec<AxisValue>,
}

#[derive(Clone, Debug)]
pub struct GlyphView {
    pub name: String,
    /// Per-glyph axes; not modeled, always empty.
    pub axes: Vec<AxisView>,
    pub sources: Vec<GlyphSourceView>,
    pub layers: Vec<LayerEntry>,
}

#[derive(Clone, Debug)]
pub struct AxisView {
    pub name: String,
    pub label: String,
    pub tag: String,
    pub min_value: Number,
    pub max_value: Number,
    pub default_value: Number,
    pub hidden: bool,
}

#[derive(Clone, Debug)]
pub struct AxesView {
    pub axes: Vec<AxisView>,
}

#[derive(Clone, Debug)]
pub struct GuidelineView {
    pub name: Option<String>,
    pub x: Number,
    pub y: Number,
    pub angle: Number,
    pub locked: bool,
}

#[derive(Clone, Debug)]
pub struct SourceView {
    pub name: String,
    pub is_sparse: bool,
    pub location: Vec<AxisValue>,
    pub italic_angle: Number,
    pub guidelines: Vec<GuidelineView>,
}

#[derive(Clone, Debug)]
pub struct FontInfoView {
    pub family_name: Option<String>,
    pub version_major: u16,
    pub version_minor: u16,
    pub copyright: Option<String>,
    pub trademark: Option<String>,
    pub description: Option<String>,
    pub sample_text: Option<String>,
    pub designer: Option<String>,
    pub designer_url: Option<String>,
    pub manufacturer: Option<String>,
    pub manufacturer_url: Option<String>,
    pub license_description: Option<String>,
    pub license_info_url: Option<String>,
    pub vendor_id: Option<String>,
}

/// What the back end offers: its editing features (none) and the formats
/// it can export to.
#[derive(Clone, Debug)]
pub struct BackendInfo {
    pub features: Vec<String>,
    pub export_formats: Vec<String>,
}

} // verus!
