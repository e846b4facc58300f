//! The source-side document model, held as plain values.
//!
//! Numbers of the document (coordinates, advances, axis bounds, locations) are
//! carried as the IEEE-754 bit patterns of `f64` values. The projection copies
//! them and never computes with them, so a bit pattern keeps each value exactly.
use vstd::prelude::*;

verus! {

/// A number of the document, as the bit pattern of an `f64`.
#[derive(Clone, Copy, Debug, PartialEq, Eq, Structural)]
pub struct Number {
    pub bits: u64,
}

/// The bit pattern of positive zero.
pub const ZERO_BITS: u64 = 0;

impl Number {
    /// Positive zero.
    pub fn zero() -> (r: Number)
        ensures
            r == Number::zero_spec(),
    {
        Number { bits: ZERO_BITS }
    }

    pub open spec fn zero_spec() -> Number {
        Number { bits: ZERO_BITS }
    }

    pub fn from_bits(bits: u64) -> (r: Number)
        ensures
            r.bits == bits,
    {
        Number { bits }
    }

    pub fn to_bits(&self) -> (r: u64)
        ensures
            r == self.bits,
    {
        self.bits
    }
}

/// The kind of an outline node.
#[derive(Clone, Copy, Debug, PartialEq, Eq, Structural)]
pub enum NodeType {
    Move,
    Line,
    OffCurve,
    Curve,
    QCurve,
    Quartic,
    Hobby,
    Spiro,
    RaphNewSpiral,
}

/// One point of a contour.
#[derive(Clone, Copy, Debug, PartialEq, Eq, Structural)]
pub struct Node {
    pub x: Number,
    pub y: Number,
    pub nodetype: NodeType,
}

/// One contour: its nodes in order, and whether it is closed.
#[derive(Clone, Debug)]
pub struct Path {
    pub nodes: Vec<Node>,
    pub closed: bool,
}

/// A 2x3 affine matrix `[a, b, c, d, e, f]`: linear part `(a, b, c, d)` and
/// translation `(e, f)`.
#[derive(Clone, Copy, Debug, PartialEq, Eq, Structural)]
pub struct Affine {
    pub a: Number,
    pub b: Number,
    pub c: Number,
    pub d: Number,
    pub e: Number,
    pub f: Number,
}

/// A placement of another glyph inside a layer.
#[derive(Clone, Debug)]
pub struct Component {
    pub reference: String,
    pub transform: Affine,
}

#[derive(Clone, Debug)]
pub struct Anchor {
    pub name: String,
    pub x: Number,
    pub y: Number,
}

#[derive(Clone, Debug)]
pub struct Guide {
    pub name: Option<String>,
    pub x: Number,
    pub y: Number,
    pub angle: Number,
}

/// A glyph's outline and metrics for one master (or a free-standing layer).
#[derive(Clone, Debug)]
pub struct Layer {
    pub id: Option<String>,
    pub width: Number,
    pub paths: Vec<Path>,
    pub components: Vec<Component>,
    pub anchors: Vec<Anchor>,
}

#[derive(Clone, Debug)]
pub struct Glyph {
    pub name: String,
    pub codepoints: Vec<u32>,
    pub layers: Vec<Layer>,
}

/// One coordinate of a design-space location: an axis tag and a value.
#[derive(Clone, Debug)]
pub struct AxisValue {
    pub tag: String,
    pub value: Number,
}

#[derive(Clone, Debug)]
pub struct Master {
    pub id: String,
    pub location: Vec<AxisValue>,
    pub guides: Vec<Guide>,
}

/// A string given in several locales.
#[derive(Clone, Debug)]
pub struct LocalizedEntry {
    pub locale: String,
    pub text: String,
}

/// A localized string table.
#[derive(Clone, Debug)]
pub struct LocalizedText {
    pub entries: Vec<LocalizedEntry>,
}

#[derive(Clone, Debug)]
pub struct Axis {
    pub tag: String,
    pub name: LocalizedText,
    pub min: Option<Number>,
    pub default: Option<Number>,
    pub max: Option<Number>,
    pub hidden: bool,
}

/// The localized metadata fields of a font.
#[derive(Clone, Debug)]
pub struct Names {
    pub family_name: LocalizedText,
    pub copyright: LocalizedText,
    pub trademark: LocalizedText,
    pub description: LocalizedText,
    pub sample_text: LocalizedText,
    pub designer: LocalizedText,
    pub designer_url: LocalizedText,
    pub manufacturer: LocalizedText,
    pub manufacturer_url: LocalizedText,
    pub license: LocalizedText,
    pub license_url: LocalizedText,
}

/// A contour is well formed when it has at least one node.
pub open spec fn path_wf(p: Path) -> bool {
    p.nodes@.len() > 0
}

pub open spec fn paths_wf(paths: Seq<Path>) -> bool {
    forall|i: int| 0 <= i < paths.len() ==> #[trigger] path_wf(paths[i])
}

pub open spec fn layer_wf(l: Layer) -> bool {
    paths_wf(l.paths@)
}

pub open spec fn glyph_wf(g: Glyph) -> bool {
    forall|i: int| 0 <= i < g.layers@.len() ==> #[trigger] layer_wf(g.layers@[i])
}

/// No two masters share an id.
pub open spec fn master_ids_distinct(masters: Seq<Master>) -> bool {
    forall|i: int, j: int|
        0 <= i < masters.len() && 0 <= j < masters.len() && i != j ==> masters[i].id@
            != masters[j].id@
}

/// No two glyphs share a name.
pub open spec fn glyph_names_distinct(glyphs: Seq<Glyph>) -> bool {
    forall|i: int, j: int|
        0 <= i < glyphs.len() && 0 <= j < glyphs.len() && i != j ==> glyphs[i].name@
            != glyphs[j].name@
}

} // verus!
