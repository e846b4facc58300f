//! The font document and the accessors that the editor calls on it.
use vstd::prelude::*;
use babelfont::Font as BabelFont;
use crate::model::{
    Axis, Glyph, Master, Names, glyph_names_distinct, glyph_wf, layer_wf, master_ids_distinct,
};
use crate::project::{
    axis_matches, glyph_matches, info_matches, layer_id_of, layer_matches,
    lemma_glyph_view_determined, lemma_location_resolution, opt_view, source_matches,
    project_axis, project_glyph, project_info, project_master, same_glyph_view,
    source_view_matches,
};
use crate::pack::{
    all_nodes, lemma_closed_flags, lemma_contour_ends_increase, lemma_packed_lengths,
};
use crate::view::{AxesView, AxisView, BackendInfo, FontInfoView, GlyphView, SourceView};

verus! {

/// The ways in which an operation on a document fails.
#[derive(Clone, Copy, Debug, PartialEq, Eq, Structural)]
pub enum ProjectionError {
    /// The source document is malformed.
    ParseError,
    /// No glyph has the requested name.
    NotFound,
    /// The document could not be written out as text.
    SerializationFailure,
}

#[verifier::external_type_specification]
#[verifier::external_body]
pub struct ExSourceFont(BabelFont);

/// Relies on `babelfont::Font::new`: a new, empty document.
#[verifier::external_body]
fn empty_source() -> (r: BabelFont) {
    BabelFont::new()
}

/// The document written in the Glyphs 3 text format, `None` where that fails.
pub uninterp spec fn glyphs_text_of(font: BabelFont) -> Option<Seq<char>>;

/// Relies on `babelfont::Font::as_glyphslib` and `glyphslib::Font::to_string`:
/// the document in the Glyphs 3 text format, `None` where either fails. The
/// text depends on the document alone.
#[verifier::external_body]
fn glyphs_text(font: &BabelFont) -> (r: Option<String>)
    ensures
        opt_view(r) == glyphs_text_of(*font),
{
    font.as_glyphslib().ok()?.to_string().ok()
}

/// A glyph's name and code points.
#[derive(Clone, Debug)]
pub struct GlyphMapEntry {
    pub name: String,
    pub codepoints: Vec<u32>,
}

/// A key and value of the document's custom data.
#[derive(Clone, Debug)]
pub struct CustomDataEntry {
    pub key: String,
    pub value: String,
}

/// A loaded document: the source as babelfont holds it, for export, and its
/// model as plain values, which every projection reads.
pub struct Font {
    pub source: BabelFont,
    pub axes: Vec<Axis>,
    pub masters: Vec<Master>,
    pub glyphs: Vec<Glyph>,
    pub names: Names,
    pub upm: u16,
    pub version_major: u16,
    pub version_minor: u16,
}

/// Every contour of every glyph has a node.
pub open spec fn glyphs_wf(glyphs: Seq<Glyph>) -> bool {
    forall|i: int| 0 <= i < glyphs.len() ==> #[trigger] glyph_wf(glyphs[i])
}

/// `i` is the index of the first glyph with the given name.
pub open spec fn is_first_named(glyphs: Seq<Glyph>, name: Seq<char>, i: int) -> bool {
    &&& 0 <= i < glyphs.len()
    &&& glyphs[i].name@ == name
    &&& forall|j: int| 0 <= j < i ==> glyphs[j].name@ != name
}

pub open spec fn has_glyph(glyphs: Seq<Glyph>, name: Seq<char>) -> bool {
    exists|i: int| 0 <= i < glyphs.len() && glyphs[i].name@ == name
}

/// Looking a glyph up twice in the same document gives the same outcome: the
/// same error, or views with the same content.
pub proof fn lemma_get_glyph_repeatable(
    glyphs: Seq<Glyph>,
    masters: Seq<Master>,
    name: Seq<char>,
    a: GlyphView,
    b: GlyphView,
)
    requires
        exists|i: int| is_first_named(glyphs, name, i) && glyph_matches(a, glyphs[i], masters),
        exists|i: int| is_first_named(glyphs, name, i) && glyph_matches(b, glyphs[i], masters),
    ensures
        same_glyph_view(a, b),
{
    let i = choose|i: int| is_first_named(glyphs, name, i) && glyph_matches(a, glyphs[i], masters);
    let j = choose|j: int| is_first_named(glyphs, name, j) && glyph_matches(b, glyphs[j], masters);
    if i < j {
        assert(glyphs[i].name@ != name);
    } else if j < i {
        assert(glyphs[j].name@ != name);
    }
    lemma_glyph_view_determined(glyphs[i], masters, a, b);
}

/// For a glyph that `getGlyph` returns, each layer's view keeps the layer's
/// packing laws (`2P` coordinates, `P` point types, one entry per contour, the
/// last ending at point `P - 1`, end points strictly increasing, closed flags
/// carried over), is keyed by the layer's id, and its source has the location
/// of the master of that id, or the empty location when no master has it.
pub proof fn lemma_glyph_layer_view(
    glyphs: Seq<Glyph>,
    masters: Seq<Master>,
    gi: int,
    v: GlyphView,
    k: int,
)
    requires
        glyphs_wf(glyphs),
        master_ids_distinct(masters),
        0 <= gi < glyphs.len(),
        glyph_matches(v, glyphs[gi], masters),
        0 <= k < glyphs[gi].layers@.len(),
    ensures
        ({
            let l = glyphs[gi].layers@[k];
            let pp = v.layers@[k].layer.glyph.path;
            &&& pp.coordinates@.len() == 2 * all_nodes(l.paths@).len()
            &&& pp.point_types@.len() == all_nodes(l.paths@).len()
            &&& pp.contour_info@.len() == l.paths@.len()
            &&& l.paths@.len() > 0 ==> pp.contour_info@.last().end_point == all_nodes(
                l.paths@,
            ).len() - 1
            &&& forall|c: int|
                0 <= c && c + 1 < l.paths@.len() ==> (#[trigger] pp.contour_info@[c]).end_point
                    < pp.contour_info@[c + 1].end_point
            &&& forall|c: int|
                0 <= c < l.paths@.len() ==> (#[trigger] pp.contour_info@[c]).is_closed
                    == l.paths@[c].closed
            &&& v.layers@[k].id@ == layer_id_of(l)
            &&& v.sources@[k].name@ == layer_id_of(l)
            &&& v.sources@[k].layer_name@ == layer_id_of(l)
            &&& forall|j: int|
                0 <= j < masters.len() && #[trigger] masters[j].id@ == layer_id_of(l)
                    ==> v.sources@[k].location@ == masters[j].location@
            &&& (forall|j: int| 0 <= j < masters.len() ==> masters[j].id@ != layer_id_of(l))
                ==> v.sources@[k].location@.len() == 0
        }),
{
    let g = glyphs[gi];
    let l = g.layers@[k];
    let pp = v.layers@[k].layer.glyph.path;
    assert(glyph_wf(g));
    assert(layer_wf(l));
    assert(layer_matches(v.layers@[k].layer, l));
    assert(source_matches(v.sources@[k], l, masters));
    lemma_packed_lengths(l.paths@, pp);
    assert forall|c: int| 0 <= c && c + 1 < l.paths@.len() implies (
    #[trigger] pp.contour_info@[c]).end_point < pp.contour_info@[c + 1].end_point by {
        lemma_contour_ends_increase(l.paths@, pp, c);
    }
    assert forall|c: int| 0 <= c < l.paths@.len() implies (
    #[trigger] pp.contour_info@[c]).is_closed == l.paths@[c].closed by {
        lemma_closed_flags(l.paths@, pp, c);
    }
    lemma_location_resolution(masters, l, v.sources@[k]);
}

fn glyphs_well_formed(glyphs: &Vec<Glyph>) -> (r: bool)
    ensures
        r == glyphs_wf(glyphs@),
{
    let mut i: usize = 0;
    while i < glyphs.len()
        invariant
            0 <= i <= glyphs@.len(),
            forall|k: int| 0 <= k < i ==> #[trigger] glyph_wf(glyphs@[k]),
        decreases glyphs@.len() - i,
    {
        let g = &glyphs[i];
        let mut j: usize = 0;
        while j < g.layers.len()
            invariant
                0 <= i < glyphs@.len(),
                *g == glyphs@[i as int],
                0 <= j <= g.layers@.len(),
                forall|k: int|
                    0 <= k < j ==> #[trigger] crate::model::layer_wf(g.layers@[k]),
            decreases g.layers@.len() - j,
        {
            let l = &g.layers[j];
            let mut p: usize = 0;
            while p < l.paths.len()
                invariant
                    0 <= i < glyphs@.len(),
                    *g == glyphs@[i as int],
                    0 <= j < g.layers@.len(),
                    *l == g.layers@[j as int],
                    0 <= p <= l.paths@.len(),
                    forall|k: int| 0 <= k < p ==> #[trigger] crate::model::path_wf(l.paths@[k]),
                decreases l.paths@.len() - p,
            {
                if l.paths[p].nodes.len() == 0 {
                    assert(!crate::model::path_wf(l.paths@[p as int]));
                    assert(!crate::model::layer_wf(g.layers@[j as int]));
                    assert(!glyph_wf(glyphs@[i as int]));
                    return false;
                }
                p = p + 1;
            }
            j = j + 1;
        }
        i = i + 1;
    }
    true
}

fn glyph_names_unique(glyphs: &Vec<Glyph>) -> (r: bool)
    ensures
        r == glyph_names_distinct(glyphs@),
{
    let n = glyphs.len();
    let mut i: usize = 0;
    while i < n
        invariant
            n == glyphs@.len(),
            0 <= i <= n,
            forall|a: int, b: int|
                0 <= a < i && 0 <= b < n && a != b ==> glyphs@[a].name@ != glyphs@[b].name@,
        decreases n - i,
    {
        let mut j: usize = 0;
        while j < n
            invariant
                n == glyphs@.len(),
                0 <= i < n,
                0 <= j <= n,
                forall|a: int, b: int|
                    0 <= a < i && 0 <= b < n && a != b ==> glyphs@[a].name@ != glyphs@[b].name@,
                forall|b: int| 0 <= b < j && b != i ==> glyphs@[i as int].name@ != glyphs@[b].name@,
            decreases n - j,
        {
            if j != i && glyphs[i].name == glyphs[j].name {
                return false;
            }
            j = j + 1;
        }
        i = i + 1;
    }
    true
}

fn master_ids_unique(masters: &Vec<Master>) -> (r: bool)
    ensures
        r == master_ids_distinct(masters@),
{
    let n = masters.len();
    let mut i: usize = 0;
    while i < n
        invariant
            n == masters@.len(),
            0 <= i <= n,
            forall|a: int, b: int|
                0 <= a < i && 0 <= b < n && a != b ==> masters@[a].id@ != masters@[b].id@,
        decreases n - i,
    {
        let mut j: usize = 0;
        while j < n
            invariant
                n == masters@.len(),
                0 <= i < n,
                0 <= j <= n,
                forall|a: int, b: int|
                    0 <= a < i && 0 <= b < n && a != b ==> masters@[a].id@ != masters@[b].id@,
                forall|b: int| 0 <= b < j && b != i ==> masters@[i as int].id@ != masters@[b].id@,
            decreases n - j,
        {
            if j != i && masters[i].id == masters[j].id {
                return false;
            }
            j = j + 1;
        }
        i = i + 1;
    }
    true
}

/// Every localized table of the names is empty.
pub open spec fn names_empty(n: Names) -> bool {
    &&& n.family_name.entries@.len() == 0
    &&& n.copyright.entries@.len() == 0
    &&& n.trademark.entries@.len() == 0
    &&& n.description.entries@.len() == 0
    &&& n.sample_text.entries@.len() == 0
    &&& n.designer.entries@.len() == 0
    &&& n.designer_url.entries@.len() == 0
    &&& n.manufacturer.entries@.len() == 0
    &&& n.manufacturer_url.entries@.len() == 0
    &&& n.license.entries@.len() == 0
    &&& n.license_url.entries@.len() == 0
}

fn empty_table() -> (r: crate::model::LocalizedText)
    ensures
        r.entries@.len() == 0,
{
    crate::model::LocalizedText { entries: Vec::new() }
}

impl Font {
    /// The model's invariant: contours are non-empty, glyph names and master
    /// ids unique.
    pub open spec fn wf(&self) -> bool {
        &&& glyphs_wf(self.glyphs@)
        &&& glyph_names_distinct(self.glyphs@)
        &&& master_ids_distinct(self.masters@)
    }

    /// Takes a loaded document and its model. The model must be the plain-value
    /// form of `source`: export writes out `source`, while every projection
    /// reads the model. Fails with `ParseError` where a contour has no node, two
    /// glyphs share a name or two masters share an id.
    pub fn new(
        source: BabelFont,
        axes: Vec<Axis>,
        masters: Vec<Master>,
        glyphs: Vec<Glyph>,
        names: Names,
        upm: u16,
        version_major: u16,
        version_minor: u16,
    ) -> (r: Result<Font, ProjectionError>)
        ensures
            (r is Ok) == (glyphs_wf(glyphs@) && glyph_names_distinct(glyphs@)
                && master_ids_distinct(masters@)),
            r is Err ==> r == Err::<Font, ProjectionError>(ProjectionError::ParseError),
            r matches Ok(f) ==> {
                &&& f.wf()
                &&& f.axes@ == axes@
                &&& f.masters@ == masters@
                &&& f.glyphs@ == glyphs@
                &&& f.names == names
                &&& f.upm == upm
                &&& f.version_major == version_major
                &&& f.version_minor == version_minor
            },
    {
        if !glyphs_well_formed(&glyphs) || !glyph_names_unique(&glyphs) || !master_ids_unique(
            &masters,
        ) {
            return Err(ProjectionError::ParseError);
        }
        Ok(Font { source, axes, masters, glyphs, names, upm, version_major, version_minor })
    }

    /// A new, empty document: no axes, masters or glyphs, 1000 units per em,
    /// version 1.0.
    pub fn empty() -> (r: Font)
        ensures
            r.wf(),
            r.axes@.len() == 0,
            r.masters@.len() == 0,
            r.glyphs@.len() == 0,
            r.upm == 1000,
            r.version_major == 1,
            r.version_minor == 0,
            names_empty(r.names),
    {
        let names = Names {
            family_name: empty_table(),
            copyright: empty_table(),
            trademark: empty_table(),
            description: empty_table(),
            sample_text: empty_table(),
            designer: empty_table(),
            designer_url: empty_table(),
            manufacturer: empty_table(),
            manufacturer_url: empty_table(),
            license: empty_table(),
            license_url: empty_table(),
        };
        Font {
            source: empty_source(),
            axes: Vec::new(),
            masters: Vec::new(),
            glyphs: Vec::new(),
            names,
            upm: 1000,
            version_major: 1,
            version_minor: 0,
        }
    }

    /// Each glyph's name with its code points, in glyph order.
    pub fn getGlyphMap(&self) -> (r: Vec<GlyphMapEntry>)
        ensures
            r@.len() == self.glyphs@.len(),
            forall|i: int|
                0 <= i < r@.len() ==> (#[trigger] r@[i]).name@ == self.glyphs@[i].name@
                    && r@[i].codepoints@ == self.glyphs@[i].codepoints@,
    {
        let mut r: Vec<GlyphMapEntry> = Vec::new();
        let mut i: usize = 0;
        while i < self.glyphs.len()
            invariant
                0 <= i <= self.glyphs@.len(),
                r@.len() == i,
                forall|k: int|
                    0 <= k < i ==> (#[trigger] r@[k]).name@ == self.glyphs@[k].name@
                        && r@[k].codepoints@ == self.glyphs@[k].codepoints@,
            decreases self.glyphs@.len() - i,
        {
            let g = &self.glyphs[i];
            let mut codepoints: Vec<u32> = Vec::new();
            let mut j: usize = 0;
            while j < g.codepoints.len()
                invariant
                    0 <= j <= g.codepoints@.len(),
                    codepoints@ == g.codepoints@.take(j as int),
                decreases g.codepoints@.len() - j,
            {
                codepoints.push(g.codepoints[j]);
                assert(codepoints@ =~= g.codepoints@.take(j as int + 1));
                j = j + 1;
            }
            assert(g.codepoints@.take(g.codepoints@.len() as int) =~= g.codepoints@);
            r.push(GlyphMapEntry { name: g.name.clone(), codepoints });
            i = i + 1;
        }
        r
    }

    /// One axis view per axis, in order.
    pub fn getAxes(&self) -> (r: AxesView)
        ensures
            r.axes@.len() == self.axes@.len(),
            forall|i: int|
                0 <= i < self.axes@.len() ==> axis_matches(#[trigger] r.axes@[i], self.axes@[i]),
    {
        let mut axes: Vec<AxisView> = Vec::new();
        let mut i: usize = 0;
        while i < self.axes.len()
            invariant
                0 <= i <= self.axes@.len(),
                axes@.len() == i,
                forall|k: int| 0 <= k < i ==> axis_matches(#[trigger] axes@[k], self.axes@[k]),
            decreases self.axes@.len() - i,
        {
            axes.push(project_axis(&self.axes[i]));
            i = i + 1;
        }
        AxesView { axes }
    }

    /// Background images are not kept: always `None`.
    pub fn getBackgroundImage(&self, _identifier: &str) -> (r: Option<Vec<u8>>)
        ensures
            r is None,
    {
        None
    }

    /// Background images are not kept: nothing is stored, and `false` says so.
    pub fn putBackgroundImage(&self, _identifier: &str, _image: &[u8]) -> (r: bool)
        ensures
            !r,
    {
        false
    }

    /// The view of the first glyph with the given name, or `NotFound`.
    pub fn getGlyph(&self, name: String) -> (r: Result<GlyphView, ProjectionError>)
        requires
            self.wf(),
        ensures
            (r is Err) == !has_glyph(self.glyphs@, name@),
            r is Err ==> r == Err::<GlyphView, ProjectionError>(ProjectionError::NotFound),
            r matches Ok(v) ==> exists|i: int|
                is_first_named(self.glyphs@, name@, i) && glyph_matches(
                    v,
                    self.glyphs@[i],
                    self.masters@,
                ),
            r matches Ok(v) ==> forall|i: int|
                0 <= i < self.glyphs@.len() && #[trigger] self.glyphs@[i].name@ == name@
                    ==> glyph_matches(v, self.glyphs@[i], self.masters@),
    {
        let mut i: usize = 0;
        while i < self.glyphs.len()
            invariant
                self.wf(),
                0 <= i <= self.glyphs@.len(),
                forall|j: int| 0 <= j < i ==> self.glyphs@[j].name@ != name@,
            decreases self.glyphs@.len() - i,
        {
            if self.glyphs[i].name == name {
                assert(glyph_wf(self.glyphs@[i as int]));
                let v = project_glyph(&self.glyphs[i], &self.masters);
                assert(is_first_named(self.glyphs@, name@, i as int));
                assert forall|k: int|
                    0 <= k < self.glyphs@.len() && #[trigger] self.glyphs@[k].name@ == name@
                        implies glyph_matches(v, self.glyphs@[k], self.masters@) by {
                    assert(k == i as int);
                }
                return Ok(v);
            }
            i = i + 1;
        }
        Err(ProjectionError::NotFound)
    }

    /// One source per master, in order.
    pub fn getSources(&self) -> (r: Vec<SourceView>)
        ensures
            r@.len() == self.masters@.len(),
            forall|i: int|
                0 <= i < self.masters@.len() ==> source_view_matches(
                    #[trigger] r@[i],
                    self.masters@[i],
                ),
    {
        let mut r: Vec<SourceView> = Vec::new();
        let mut i: usize = 0;
        while i < self.masters.len()
            invariant
                0 <= i <= self.masters@.len(),
                r@.len() == i,
                forall|k: int| 0 <= k < i ==> source_view_matches(#[trigger] r@[k], self.masters@[k]),
            decreases self.masters@.len() - i,
        {
            r.push(project_master(&self.masters[i]));
            i = i + 1;
        }
        r
    }

    pub fn getUnitsPerEm(&self) -> (r: u16)
        ensures
            r == self.upm,
    {
        self.upm
    }

    /// Edits are not applied by this back end, so it reports itself read-only.
    pub fn isReadOnly(&self) -> (r: bool)
        ensures
            r,
    {
        true
    }

    /// No editing features; export to the Glyphs format.
    pub fn getBackEndInfo(&self) -> (r: BackendInfo)
        ensures
            r.features@.len() == 0,
            r.export_formats@.len() == 1,
            r.export_formats@[0]@ == "glyphs"@,
    {
        let mut export_formats: Vec<String> = Vec::new();
        export_formats.push("glyphs".to_owned());
        BackendInfo { features: Vec::new(), export_formats }
    }

    /// Custom data is not modeled: always empty.
    pub fn getCustomData(&self) -> (r: Vec<CustomDataEntry>)
        ensures
            r@.len() == 0,
    {
        Vec::new()
    }

    /// Change subscriptions are not offered; this does nothing.
    pub fn subscribeChanges(&self, _path: &str, _live_changes: bool) {
    }

    /// Change subscriptions are not offered; this does nothing.
    pub fn unsubscribeChanges(&self, _path: &str, _live_changes: bool) {
    }

    /// Edits are not applied; this does nothing.
    pub fn editFinal(
        &self,
        _final_change: &str,
        _rollback_change: &str,
        _label: &str,
        _broadcast: bool,
    ) {
    }

    /// Edits are not applied; this does nothing.
    pub fn editIncremental(&self, _change: &str) {
    }

    /// The whole document in the Glyphs 3 text format, or
    /// `SerializationFailure` where it cannot be written.
    pub fn exportAs(&self) -> (r: Result<String, ProjectionError>)
        ensures
            (r is Ok) == (glyphs_text_of(self.source) is Some),
            r matches Ok(t) ==> glyphs_text_of(self.source) == Some(t@),
            r is Err ==> r == Err::<String, ProjectionError>(
                ProjectionError::SerializationFailure,
            ),
    {
        match glyphs_text(&self.source) {
            Some(text) => Ok(text),
            None => Err(ProjectionError::SerializationFailure),
        }
    }

    /// Component back-references are not indexed: always empty.
    pub fn findGlyphsThatUseGlyph(&self, _glyph_name: &str) -> (r: Vec<String>)
        ensures
            r@.len() == 0,
    {
        Vec::new()
    }

    /// Event listeners are not kept; this does nothing.
    pub fn on(&self, _event: &str) {
    }

    /// The font's metadata, each field in its default locale.
    pub fn getFontInfo(&self) -> (r: FontInfoView)
        ensures
            info_matches(r, self.names, self.version_major, self.version_minor),
    {
        project_info(&self.names, self.version_major, self.version_minor)
    }
}

} // verus!
