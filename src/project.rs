//! The projectors: each maps one part of the document to its view.
use vstd::prelude::*;
use crate::model::{
    Affine, Anchor, Axis, AxisValue, Component, Glyph, Guide, Layer, LocalizedText, Master, Names,
    Number, glyph_wf, layer_wf, master_ids_distinct,
};
use crate::pack::{pack_paths, packs};
use crate::view::{
    AnchorView, AxisView, ComponentView, DecomposedTransform, FontInfoView, GlyphSourceView,
    GlyphView, GuidelineView, LayerEntry, LayerView, SourceView, StaticGlyphView,
};

verus! {

/// The view of a string that may be absent.
pub open spec fn opt_view(o: Option<String>) -> Option<Seq<char>> {
    match o {
        Some(s) => Some(s@),
        None => None,
    }
}

/// Translation and axis-aligned scale of the matrix; rotation, skew and the
/// rotation center are zero whatever the matrix holds.
pub open spec fn decompose_spec(t: Affine) -> DecomposedTransform {
    DecomposedTransform {
        translate_x: t.e,
        translate_y: t.f,
        rotation: Number::zero_spec(),
        scale_x: t.a,
        scale_y: t.d,
        skew_x: Number::zero_spec(),
        skew_y: Number::zero_spec(),
        t_center_x: Number::zero_spec(),
        t_center_y: Number::zero_spec(),
    }
}

/// Splits a component's matrix into named fields. Only translation and
/// axis-aligned scale are kept: rotation and shear in `b` and `c` are dropped.
pub fn decompose_transform(t: &Affine) -> (r: DecomposedTransform)
    ensures
        r == decompose_spec(*t),
{
    DecomposedTransform {
        translate_x: t.e,
        translate_y: t.f,
        rotation: Number::zero(),
        scale_x: t.a,
        scale_y: t.d,
        skew_x: Number::zero(),
        skew_y: Number::zero(),
        t_center_x: Number::zero(),
        t_center_y: Number::zero(),
    }
}

pub open spec fn component_matches(r: ComponentView, c: Component) -> bool {
    &&& r.name@ == c.reference@
    &&& r.transformation == decompose_spec(c.transform)
    &&& r.location@.len() == 0
}

pub fn project_component(c: &Component) -> (r: ComponentView)
    ensures
        component_matches(r, *c),
{
    ComponentView {
        name: c.reference.clone(),
        transformation: decompose_transform(&c.transform),
        location: Vec::new(),
    }
}

pub open spec fn anchor_matches(r: AnchorView, a: Anchor) -> bool {
    r.name@ == a.name@ && r.x == a.x && r.y == a.y
}

pub fn project_anchor(a: &Anchor) -> (r: AnchorView)
    ensures
        anchor_matches(r, *a),
{
    AnchorView { name: a.name.clone(), x: a.x, y: a.y }
}

/// The static glyph of a layer: packed contours, components and anchors in
/// order, the layer's width as horizontal advance and a zero vertical advance.
pub open spec fn layer_matches(r: LayerView, l: Layer) -> bool {
    let g = r.glyph;
    &&& packs(g.path, l.paths@)
    &&& g.components@.len() == l.components@.len()
    &&& forall|i: int|
        0 <= i < l.components@.len() ==> component_matches(
            #[trigger] g.components@[i],
            l.components@[i],
        )
    &&& g.anchors@.len() == l.anchors@.len()
    &&& forall|i: int|
        0 <= i < l.anchors@.len() ==> anchor_matches(#[trigger] g.anchors@[i], l.anchors@[i])
    &&& g.x_advance == l.width
    &&& g.y_advance == Number::zero_spec()
}

pub fn project_layer(l: &Layer) -> (r: LayerView)
    requires
        layer_wf(*l),
    ensures
        layer_matches(r, *l),
{
    let path = pack_paths(&l.paths);
    let mut components: Vec<ComponentView> = Vec::new();
    let mut i: usize = 0;
    while i < l.components.len()
        invariant
            0 <= i <= l.components@.len(),
            components@.len() == i,
            forall|k: int|
                0 <= k < i ==> component_matches(#[trigger] components@[k], l.components@[k]),
        decreases l.components@.len() - i,
    {
        components.push(project_component(&l.components[i]));
        i = i + 1;
    }
    let mut anchors: Vec<AnchorView> = Vec::new();
    let mut j: usize = 0;
    while j < l.anchors.len()
        invariant
            0 <= j <= l.anchors@.len(),
            anchors@.len() == j,
            forall|k: int| 0 <= k < j ==> anchor_matches(#[trigger] anchors@[k], l.anchors@[k]),
        decreases l.anchors@.len() - j,
    {
        anchors.push(project_anchor(&l.anchors[j]));
        j = j + 1;
    }
    LayerView {
        glyph: StaticGlyphView {
            path,
            components,
            x_advance: l.width,
            y_advance: Number::zero(),
            anchors,
        },
    }
}

/// A copy of a design-space location.
pub fn copy_location(loc: &Vec<AxisValue>) -> (r: Vec<AxisValue>)
    ensures
        r@ == loc@,
{
    let mut r: Vec<AxisValue> = Vec::new();
    let mut i: usize = 0;
    while i < loc.len()
        invariant
            0 <= i <= loc@.len(),
            r@ == loc@.take(i as int),
        decreases loc@.len() - i,
    {
        let v = AxisValue { tag: loc[i].tag.clone(), value: loc[i].value };
        r.push(v);
        assert(r@ =~= loc@.take(i as int + 1));
        i = i + 1;
    }
    assert(loc@.take(loc@.len() as int) =~= loc@);
    r
}

/// The identifier of a layer, `"Unknown layer"` when it has none.
pub open spec fn layer_id_of(l: Layer) -> Seq<char> {
    match l.id {
        Some(s) => s@,
        None => "Unknown layer"@,
    }
}

pub fn layer_id(l: &Layer) -> (r: String)
    ensures
        r@ == layer_id_of(*l),
{
    match &l.id {
        Some(s) => s.clone(),
        None => "Unknown layer".to_owned(),
    }
}

/// The location of the master with the given id (the last one, should ids
/// repeat), or the empty location when no master has it.
pub open spec fn master_location(masters: Seq<Master>, id: Seq<char>) -> Seq<AxisValue>
    decreases masters.len(),
{
    if masters.len() == 0 {
        Seq::empty()
    } else if masters.last().id@ == id {
        masters.last().location@
    } else {
        master_location(masters.drop_last(), id)
    }
}

pub fn resolve_location(masters: &Vec<Master>, id: &String) -> (r: Vec<AxisValue>)
    ensures
        r@ == master_location(masters@, id@),
{
    let mut i: usize = masters.len();
    assert(masters@.take(i as int) =~= masters@);
    while i > 0
        invariant
            i <= masters@.len(),
            master_location(masters@, id@) == master_location(masters@.take(i as int), id@),
        decreases i,
    {
        let ghost prefix = masters@.take(i as int);
        assert(prefix.drop_last() =~= masters@.take(i as int - 1));
        if masters[i - 1].id == *id {
            return copy_location(&masters[i - 1].location);
        }
        i = i - 1;
    }
    Vec::new()
}

proof fn lemma_master_location_of(masters: Seq<Master>, id: Seq<char>, j: int)
    requires
        master_ids_distinct(masters),
        0 <= j < masters.len(),
        masters[j].id@ == id,
    ensures
        master_location(masters, id) == masters[j].location@,
    decreases masters.len(),
{
    let n = masters.len() - 1;
    if j < n {
        assert(masters.last().id@ != id);
        lemma_master_location_of(masters.drop_last(), id, j);
    }
}

proof fn lemma_master_location_none(masters: Seq<Master>, id: Seq<char>)
    requires
        forall|j: int| 0 <= j < masters.len() ==> masters[j].id@ != id,
    ensures
        master_location(masters, id).len() == 0,
    decreases masters.len(),
{
    if masters.len() > 0 {
        assert(masters.last().id@ != id);
        lemma_master_location_none(masters.drop_last(), id);
    }
}

/// A layer whose id is the id of a master gets that master's location as its
/// source location; a layer whose id names no master gets the empty location.
pub proof fn lemma_location_resolution(masters: Seq<Master>, l: Layer, r: GlyphSourceView)
    requires
        master_ids_distinct(masters),
        source_matches(r, l, masters),
    ensures
        forall|j: int|
            0 <= j < masters.len() && #[trigger] masters[j].id@ == layer_id_of(l) ==> r.location@
                == masters[j].location@,
        (forall|j: int| 0 <= j < masters.len() ==> masters[j].id@ != layer_id_of(l))
            ==> r.location@.len() == 0,
{
    assert forall|j: int|
        0 <= j < masters.len() && #[trigger] masters[j].id@ == layer_id_of(l) implies r.location@
            == masters[j].location@ by {
        lemma_master_location_of(masters, layer_id_of(l), j);
    }
    if forall|j: int| 0 <= j < masters.len() ==> masters[j].id@ != layer_id_of(l) {
        lemma_master_location_none(masters, layer_id_of(l));
    }
}

pub open spec fn source_matches(r: GlyphSourceView, l: Layer, masters: Seq<Master>) -> bool {
    &&& r.name@ == layer_id_of(l)
    &&& r.layer_name@ == layer_id_of(l)
    &&& r.location@ == master_location(masters, layer_id_of(l))
}

/// One source and one keyed layer per layer of the glyph, in order.
pub open spec fn glyph_matches(r: GlyphView, g: Glyph, masters: Seq<Master>) -> bool {
    &&& r.name@ == g.name@
    &&& r.axes@.len() == 0
    &&& r.sources@.len() == g.layers@.len()
    &&& r.layers@.len() == g.layers@.len()
    &&& forall|i: int|
        0 <= i < g.layers@.len() ==> source_matches(#[trigger] r.sources@[i], g.layers@[i], masters)
    &&& forall|i: int|
        0 <= i < g.layers@.len() ==> (#[trigger] r.layers@[i]).id@ == layer_id_of(g.layers@[i])
            && layer_matches(r.layers@[i].layer, g.layers@[i])
}

pub fn project_glyph(g: &Glyph, masters: &Vec<Master>) -> (r: GlyphView)
    requires
        glyph_wf(*g),
    ensures
        glyph_matches(r, *g, masters@),
{
    let mut sources: Vec<GlyphSourceView> = Vec::new();
    let mut layers: Vec<LayerEntry> = Vec::new();
    let mut i: usize = 0;
    while i < g.layers.len()
        invariant
            glyph_wf(*g),
            0 <= i <= g.layers@.len(),
            sources@.len() == i,
            layers@.len() == i,
            forall|k: int|
                0 <= k < i ==> source_matches(#[trigger] sources@[k], g.layers@[k], masters@),
            forall|k: int|
                0 <= k < i ==> (#[trigger] layers@[k]).id@ == layer_id_of(g.layers@[k])
                    && layer_matches(layers@[k].layer, g.layers@[k]),
        decreases g.layers@.len() - i,
    {
        let layer = &g.layers[i];
        assert(layer_wf(g.layers@[i as int]));
        let id = layer_id(layer);
        let view = project_layer(layer);
        let location = resolve_location(masters, &id);
        sources.push(GlyphSourceView { name: id.clone(), layer_name: id.clone(), location });
        layers.push(LayerEntry { id, layer: view });
        i = i + 1;
    }
    GlyphView { name: g.name.clone(), axes: Vec::new(), sources, layers }
}

/// The keys of a glyph view's layers are exactly the identifiers of the
/// glyph's layers, `"Unknown layer"` standing for a missing one.
pub proof fn lemma_layer_keys(g: Glyph, masters: Seq<Master>, v: GlyphView)
    requires
        glyph_matches(v, g, masters),
    ensures
        v.layers@.map_values(|e: LayerEntry| e.id@).to_set() == g.layers@.map_values(
            |l: Layer| layer_id_of(l),
        ).to_set(),
{
    assert(v.layers@.map_values(|e: LayerEntry| e.id@) =~= g.layers@.map_values(
        |l: Layer| layer_id_of(l),
    ));
}

/// Two layer views with the same content.
pub open spec fn same_layer_view(a: LayerView, b: LayerView) -> bool {
    let (x, y) = (a.glyph, b.glyph);
    &&& x.path.coordinates@ == y.path.coordinates@
    &&& x.path.point_types@ == y.path.point_types@
    &&& x.path.contour_info@ == y.path.contour_info@
    &&& x.components@.len() == y.components@.len()
    &&& forall|i: int|
        0 <= i < x.components@.len() ==> {
            &&& (#[trigger] x.components@[i]).name@ == y.components@[i].name@
            &&& x.components@[i].transformation == y.components@[i].transformation
            &&& x.components@[i].location@ == y.components@[i].location@
        }
    &&& x.anchors@.len() == y.anchors@.len()
    &&& forall|i: int|
        0 <= i < x.anchors@.len() ==> (#[trigger] x.anchors@[i]).name@ == y.anchors@[i].name@
            && x.anchors@[i].x == y.anchors@[i].x && x.anchors@[i].y == y.anchors@[i].y
    &&& x.x_advance == y.x_advance
    &&& x.y_advance == y.y_advance
}

/// Two glyph views with the same content.
pub open spec fn same_glyph_view(a: GlyphView, b: GlyphView) -> bool {
    &&& a.name@ == b.name@
    &&& a.axes@.len() == 0 && b.axes@.len() == 0
    &&& a.sources@.len() == b.sources@.len()
    &&& forall|i: int|
        0 <= i < a.sources@.len() ==> {
            &&& (#[trigger] a.sources@[i]).name@ == b.sources@[i].name@
            &&& a.sources@[i].layer_name@ == b.sources@[i].layer_name@
            &&& a.sources@[i].location@ == b.sources@[i].location@
        }
    &&& a.layers@.len() == b.layers@.len()
    &&& forall|i: int|
        0 <= i < a.layers@.len() ==> (#[trigger] a.layers@[i]).id@ == b.layers@[i].id@
            && same_layer_view(a.layers@[i].layer, b.layers@[i].layer)
}

/// The view of a glyph is determined by the glyph and the masters: projecting
/// the same glyph twice gives the same content.
pub proof fn lemma_glyph_view_determined(g: Glyph, masters: Seq<Master>, a: GlyphView, b: GlyphView)
    requires
        glyph_matches(a, g, masters),
        glyph_matches(b, g, masters),
    ensures
        same_glyph_view(a, b),
{
    assert forall|i: int| 0 <= i < a.sources@.len() implies {
        &&& (#[trigger] a.sources@[i]).name@ == b.sources@[i].name@
        &&& a.sources@[i].layer_name@ == b.sources@[i].layer_name@
        &&& a.sources@[i].location@ == b.sources@[i].location@
    } by {
        assert(source_matches(a.sources@[i], g.layers@[i], masters));
        assert(source_matches(b.sources@[i], g.layers@[i], masters));
    }
    assert forall|i: int| 0 <= i < a.layers@.len() implies (#[trigger] a.layers@[i]).id@
        == b.layers@[i].id@ && same_layer_view(a.layers@[i].layer, b.layers@[i].layer) by {
        let l = g.layers@[i];
        let (x, y) = (a.layers@[i].layer.glyph, b.layers@[i].layer.glyph);
        assert(layer_matches(a.layers@[i].layer, l));
        assert(layer_matches(b.layers@[i].layer, l));
        assert forall|k: int| 0 <= k < x.components@.len() implies {
            &&& (#[trigger] x.components@[k]).name@ == y.components@[k].name@
            &&& x.components@[k].transformation == y.components@[k].transformation
            &&& x.components@[k].location@ == y.components@[k].location@
        } by {
            assert(component_matches(x.components@[k], l.components@[k]));
            assert(component_matches(y.components@[k], l.components@[k]));
            assert(x.components@[k].location@ =~= y.components@[k].location@);
        }
        assert forall|k: int| 0 <= k < x.anchors@.len() implies (#[trigger] x.anchors@[k]).name@
            == y.anchors@[k].name@ && x.anchors@[k].x == y.anchors@[k].x && x.anchors@[k].y
            == y.anchors@[k].y by {
            assert(anchor_matches(x.anchors@[k], l.anchors@[k]));
            assert(anchor_matches(y.anchors@[k], l.anchors@[k]));
        }
    }
}

/// A bound of an axis, zero when absent.
pub open spec fn bound_or_zero(b: Option<Number>) -> Number {
    match b {
        Some(v) => v,
        None => Number::zero_spec(),
    }
}

fn bound_value(b: Option<Number>) -> (r: Number)
    ensures
        r == bound_or_zero(b),
{
    match b {
        Some(v) => v,
        None => Number::zero(),
    }
}

/// The axis view carries the tag in place of the axis's localized name, and
/// an empty label.
pub open spec fn axis_matches(r: AxisView, a: Axis) -> bool {
    &&& r.name@ == a.tag@
    &&& r.label@ == Seq::<char>::empty()
    &&& r.tag@ == a.tag@
    &&& r.min_value == bound_or_zero(a.min)
    &&& r.max_value == bound_or_zero(a.max)
    &&& r.default_value == bound_or_zero(a.default)
    &&& r.hidden == a.hidden
}

pub fn project_axis(a: &Axis) -> (r: AxisView)
    ensures
        axis_matches(r, *a),
{
    AxisView {
        name: a.tag.clone(),
        label: String::new(),
        tag: a.tag.clone(),
        min_value: bound_value(a.min),
        max_value: bound_value(a.max),
        default_value: bound_value(a.default),
        hidden: a.hidden,
    }
}

pub open spec fn guide_matches(r: GuidelineView, g: Guide) -> bool {
    &&& opt_view(r.name) == opt_view(g.name)
    &&& r.x == g.x
    &&& r.y == g.y
    &&& r.angle == g.angle
    &&& !r.locked
}

pub fn project_guide(g: &Guide) -> (r: GuidelineView)
    ensures
        guide_matches(r, *g),
{
    let name = match &g.name {
        Some(s) => Some(s.clone()),
        None => None,
    };
    GuidelineView { name, x: g.x, y: g.y, angle: g.angle, locked: false }
}

/// A master's source: named by its id, at its location, with its guides.
pub open spec fn source_view_matches(r: SourceView, m: Master) -> bool {
    &&& r.name@ == m.id@
    &&& !r.is_sparse
    &&& r.location@ == m.location@
    &&& r.italic_angle == Number::zero_spec()
    &&& r.guidelines@.len() == m.guides@.len()
    &&& forall|i: int|
        0 <= i < m.guides@.len() ==> guide_matches(#[trigger] r.guidelines@[i], m.guides@[i])
}

pub fn project_master(m: &Master) -> (r: SourceView)
    ensures
        source_view_matches(r, *m),
{
    let mut guidelines: Vec<GuidelineView> = Vec::new();
    let mut i: usize = 0;
    while i < m.guides.len()
        invariant
            0 <= i <= m.guides@.len(),
            guidelines@.len() == i,
            forall|k: int| 0 <= k < i ==> guide_matches(#[trigger] guidelines@[k], m.guides@[k]),
        decreases m.guides@.len() - i,
    {
        guidelines.push(project_guide(&m.guides[i]));
        i = i + 1;
    }
    SourceView {
        name: m.id.clone(),
        is_sparse: false,
        location: copy_location(&m.location),
        italic_angle: Number::zero(),
        guidelines,
    }
}

/// The text of the first entry in the default locale, `"dflt"`.
pub open spec fn default_text(t: LocalizedText) -> Option<Seq<char>> {
    first_default(t.entries@.map_values(|e: crate::model::LocalizedEntry| (e.locale@, e.text@)))
}

pub open spec fn first_default(entries: Seq<(Seq<char>, Seq<char>)>) -> Option<Seq<char>>
    decreases entries.len(),
{
    if entries.len() == 0 {
        None
    } else if entries[0].0 == "dflt"@ {
        Some(entries[0].1)
    } else {
        first_default(entries.drop_first())
    }
}

/// The default-locale string of a localized table, if it has one.
pub fn resolve_default(t: &LocalizedText) -> (r: Option<String>)
    ensures
        opt_view(r) == default_text(*t),
{
    let ghost all = t.entries@.map_values(|e: crate::model::LocalizedEntry| (e.locale@, e.text@));
    let dflt = "dflt".to_owned();
    assert(all.subrange(0, all.len() as int) =~= all);
    let mut i: usize = 0;
    while i < t.entries.len()
        invariant
            0 <= i <= t.entries@.len(),
            all == t.entries@.map_values(|e: crate::model::LocalizedEntry| (e.locale@, e.text@)),
            dflt@ == "dflt"@,
            first_default(all) == first_default(all.subrange(i as int, all.len() as int)),
        decreases t.entries@.len() - i,
    {
        let ghost rest = all.subrange(i as int, all.len() as int);
        assert(rest.drop_first() =~= all.subrange(i as int + 1, all.len() as int));
        if t.entries[i].locale == dflt {
            return Some(t.entries[i].text.clone());
        }
        i = i + 1;
    }
    None
}

/// Each metadata field is its table's default-locale string; the version
/// passes through and the vendor id is absent.
pub open spec fn info_matches(r: FontInfoView, n: Names, major: u16, minor: u16) -> bool {
    &&& opt_view(r.family_name) == default_text(n.family_name)
    &&& r.version_major == major
    &&& r.version_minor == minor
    &&& opt_view(r.copyright) == default_text(n.copyright)
    &&& opt_view(r.trademark) == default_text(n.trademark)
    &&& opt_view(r.description) == default_text(n.description)
    &&& opt_view(r.sample_text) == default_text(n.sample_text)
    &&& opt_view(r.designer) == default_text(n.designer)
    &&& opt_view(r.designer_url) == default_text(n.designer_url)
    &&& opt_view(r.manufacturer) == default_text(n.manufacturer)
    &&& opt_view(r.manufacturer_url) == default_text(n.manufacturer_url)
    &&& opt_view(r.license_description) == default_text(n.license)
    &&& opt_view(r.license_info_url) == default_text(n.license_url)
    &&& r.vendor_id.is_none()
}

pub fn project_info(n: &Names, major: u16, minor: u16) -> (r: FontInfoView)
    ensures
        info_matches(r, *n, major, minor),
{
    FontInfoView {
        family_name: resolve_default(&n.family_name),
        version_major: major,
        version_minor: minor,
        copyright: resolve_default(&n.copyright),
        trademark: resolve_default(&n.trademark),
        description: resolve_default(&n.description),
        sample_text: resolve_default(&n.sample_text),
        designer: resolve_default(&n.designer),
        designer_url: resolve_default(&n.designer_url),
        manufacturer: resolve_default(&n.manufacturer),
        manufacturer_url: resolve_default(&n.manufacturer_url),
        license_description: resolve_default(&n.license),
        license_info_url: resolve_default(&n.license_url),
        vendor_id: None,
    }
}

/// The axis view is determined by the axis.
pub proof fn lemma_axis_view_determined(x: Axis, a: AxisView, b: AxisView)
    requires
        axis_matches(a, x),
        axis_matches(b, x),
    ensures
        a.name@ == b.name@ && a.label@ == b.label@ && a.tag@ == b.tag@,
        a.min_value == b.min_value && a.max_value == b.max_value,
        a.default_value == b.default_value && a.hidden == b.hidden,
{
}

/// The source view is determined by the master.
pub proof fn lemma_source_view_determined(m: Master, a: SourceView, b: SourceView)
    requires
        source_view_matches(a, m),
        source_view_matches(b, m),
    ensures
        a.name@ == b.name@ && a.is_sparse == b.is_sparse && a.location@ == b.location@,
        a.italic_angle == b.italic_angle,
        a.guidelines@.len() == b.guidelines@.len(),
        forall|i: int|
            0 <= i < a.guidelines@.len() ==> {
                &&& opt_view((#[trigger] a.guidelines@[i]).name) == opt_view(b.guidelines@[i].name)
                &&& a.guidelines@[i].x == b.guidelines@[i].x
                &&& a.guidelines@[i].y == b.guidelines@[i].y
                &&& a.guidelines@[i].angle == b.guidelines@[i].angle
                &&& a.guidelines@[i].locked == b.guidelines@[i].locked
            },
{
    assert forall|i: int| 0 <= i < a.guidelines@.len() implies {
        &&& opt_view((#[trigger] a.guidelines@[i]).name) == opt_view(b.guidelines@[i].name)
        &&& a.guidelines@[i].x == b.guidelines@[i].x
        &&& a.guidelines@[i].y == b.guidelines@[i].y
        &&& a.guidelines@[i].angle == b.guidelines@[i].angle
        &&& a.guidelines@[i].locked == b.guidelines@[i].locked
    } by {
        assert(guide_matches(a.guidelines@[i], m.guides@[i]));
        assert(guide_matches(b.guidelines@[i], m.guides@[i]));
    }
}

/// The font info view is determined by the names and the version.
pub proof fn lemma_info_view_determined(
    n: Names,
    major: u16,
    minor: u16,
    a: FontInfoView,
    b: FontInfoView,
)
    requires
        info_matches(a, n, major, minor),
        info_matches(b, n, major, minor),
    ensures
        opt_view(a.family_name) == opt_view(b.family_name),
        a.version_major == b.version_major && a.version_minor == b.version_minor,
        opt_view(a.copyright) == opt_view(b.copyright),
        opt_view(a.trademark) == opt_view(b.trademark),
        opt_view(a.description) == opt_view(b.description),
        opt_view(a.sample_text) == opt_view(b.sample_text),
        opt_view(a.designer) == opt_view(b.designer),
        opt_view(a.designer_url) == opt_view(b.designer_url),
        opt_view(a.manufacturer) == opt_view(b.manufacturer),
        opt_view(a.manufacturer_url) == opt_view(b.manufacturer_url),
        opt_view(a.license_description) == opt_view(b.license_description),
        opt_view(a.license_info_url) == opt_view(b.license_info_url),
        opt_view(a.vendor_id) == opt_view(b.vendor_id),
{
}

} // verus!
