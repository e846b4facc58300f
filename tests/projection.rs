use fontra_projection::font::{Font, ProjectionError};
use fontra_projection::model::{
    Affine, Anchor, Axis, AxisValue, Component, Glyph, Guide, Layer, LocalizedEntry,
    LocalizedText, Master, Names, Node, NodeType, Number, Path,
};
use fontra_projection::pack::pack_paths;
use fontra_projection::project::{decompose_transform, resolve_default};
use fontra_projection::view::ContourInfo;

fn num(v: f64) -> Number {
    Number::from_bits(v.to_bits())
}

fn val(n: Number) -> f64 {
    f64::from_bits(n.to_bits())
}

fn text(entries: &[(&str, &str)]) -> LocalizedText {
    LocalizedText {
        entries: entries
            .iter()
            .map(|(l, t)| LocalizedEntry { locale: l.to_string(), text: t.to_string() })
            .collect(),
    }
}

fn no_names() -> Names {
    Names {
        family_name: text(&[]),
        copyright: text(&[]),
        trademark: text(&[]),
        description: text(&[]),
        sample_text: text(&[]),
        designer: text(&[]),
        designer_url: text(&[]),
        manufacturer: text(&[]),
        manufacturer_url: text(&[]),
        license: text(&[]),
        license_url: text(&[]),
    }
}

fn node(x: f64, y: f64, nodetype: NodeType) -> Node {
    Node { x: num(x), y: num(y), nodetype }
}

fn triangle() -> Path {
    Path {
        nodes: vec![
            node(0.0, 0.0, NodeType::Line),
            node(250.0, 700.0, NodeType::Line),
            node(500.0, 0.0, NodeType::Line),
        ],
        closed: true,
    }
}

fn layer(id: Option<&str>, width: f64, paths: Vec<Path>) -> Layer {
    Layer {
        id: id.map(|s| s.to_string()),
        width: num(width),
        paths,
        components: vec![],
        anchors: vec![],
    }
}

fn master(id: &str, wght: f64) -> Master {
    Master {
        id: id.to_string(),
        location: vec![AxisValue { tag: "wght".to_string(), value: num(wght) }],
        guides: vec![],
    }
}

fn scenario_font() -> Font {
    let axis = Axis {
        tag: "wght".to_string(),
        name: text(&[("dflt", "Weight")]),
        min: Some(num(100.0)),
        default: Some(num(400.0)),
        max: Some(num(900.0)),
        hidden: false,
    };
    let glyph = Glyph {
        name: "A".to_string(),
        codepoints: vec![0x41],
        layers: vec![layer(Some("M1"), 500.0, vec![triangle()])],
    };
    Font::new(
        babelfont::Font::new(),
        vec![axis],
        vec![master("M1", 400.0)],
        vec![glyph],
        no_names(),
        1000,
        1,
        0,
    )
    .unwrap()
}

fn affine(c: [f64; 6]) -> Affine {
    Affine { a: num(c[0]), b: num(c[1]), c: num(c[2]), d: num(c[3]), e: num(c[4]), f: num(c[5]) }
}

#[test]
fn decompose_keeps_translation_and_scale() {
    let t = decompose_transform(&affine([2.0, 0.0, 0.0, 3.0, 10.0, 20.0]));
    assert_eq!(val(t.translate_x), 10.0);
    assert_eq!(val(t.translate_y), 20.0);
    assert_eq!(val(t.scale_x), 2.0);
    assert_eq!(val(t.scale_y), 3.0);
    assert_eq!(val(t.rotation), 0.0);
    assert_eq!(val(t.skew_x), 0.0);
    assert_eq!(val(t.skew_y), 0.0);
    assert_eq!(val(t.t_center_x), 0.0);
    assert_eq!(val(t.t_center_y), 0.0);
}

#[test]
fn decompose_drops_rotation() {
    let t = decompose_transform(&affine([0.0, 1.0, -1.0, 0.0, 0.0, 0.0]));
    assert_eq!(val(t.scale_x), 0.0);
    assert_eq!(val(t.scale_y), 0.0);
    assert_eq!(val(t.rotation), 0.0);
    assert_eq!(val(t.skew_x), 0.0);
    assert_eq!(val(t.skew_y), 0.0);
}

#[test]
fn pack_two_contours() {
    let open = Path {
        nodes: vec![
            node(1.0, 2.0, NodeType::Move),
            node(3.0, 4.0, NodeType::OffCurve),
            node(5.0, 6.0, NodeType::OffCurve),
            node(7.0, 8.0, NodeType::Curve),
        ],
        closed: false,
    };
    let packed = pack_paths(&vec![triangle(), open]);
    let coords: Vec<f64> = packed.coordinates.iter().map(|n| val(*n)).collect();
    assert_eq!(
        coords,
        vec![0.0, 0.0, 250.0, 700.0, 500.0, 0.0, 1.0, 2.0, 3.0, 4.0, 5.0, 6.0, 7.0, 8.0]
    );
    assert_eq!(packed.point_types, vec![0, 0, 0, 0, 1, 1, 0]);
    assert_eq!(
        packed.contour_info,
        vec![
            ContourInfo { end_point: 2, is_closed: true },
            ContourInfo { end_point: 6, is_closed: false },
        ]
    );
}

#[test]
fn pack_lengths_and_order() {
    let paths = vec![triangle(), triangle(), triangle()];
    let packed = pack_paths(&paths);
    assert_eq!(packed.coordinates.len(), 18);
    assert_eq!(packed.point_types.len(), 9);
    assert_eq!(packed.contour_info.len(), 3);
    assert_eq!(packed.contour_info[2].end_point, 8);
    for w in packed.contour_info.windows(2) {
        assert!(w[0].end_point < w[1].end_point);
    }
}

#[test]
fn pack_no_contours() {
    let packed = pack_paths(&vec![]);
    assert!(packed.coordinates.is_empty());
    assert!(packed.point_types.is_empty());
    assert!(packed.contour_info.is_empty());
}

#[test]
fn pack_every_on_curve_kind_is_zero() {
    let kinds = [
        NodeType::Move,
        NodeType::Line,
        NodeType::Curve,
        NodeType::QCurve,
        NodeType::Quartic,
        NodeType::Hobby,
        NodeType::Spiro,
        NodeType::RaphNewSpiral,
    ];
    let path = Path { nodes: kinds.iter().map(|k| node(0.0, 0.0, *k)).collect(), closed: true };
    let packed = pack_paths(&vec![path]);
    assert_eq!(packed.point_types, vec![0; 8]);
}

#[test]
fn end_to_end_scenario() {
    let font = scenario_font();
    let axes = font.getAxes();
    assert_eq!(axes.axes.len(), 1);
    let a = &axes.axes[0];
    assert_eq!(a.name, "wght");
    assert_eq!(a.tag, "wght");
    assert_eq!(a.label, "");
    assert_eq!(val(a.min_value), 100.0);
    assert_eq!(val(a.max_value), 900.0);
    assert_eq!(val(a.default_value), 400.0);
    assert!(!a.hidden);

    let glyph = font.getGlyph("A".to_string()).unwrap();
    assert!(glyph.axes.is_empty());
    assert_eq!(glyph.layers.len(), 1);
    assert_eq!(glyph.layers[0].id, "M1");
    let path = &glyph.layers[0].layer.glyph.path;
    let coords: Vec<f64> = path.coordinates.iter().map(|n| val(*n)).collect();
    assert_eq!(coords, vec![0.0, 0.0, 250.0, 700.0, 500.0, 0.0]);
    assert_eq!(path.point_types, vec![0, 0, 0]);
    assert_eq!(path.contour_info, vec![ContourInfo { end_point: 2, is_closed: true }]);

    assert_eq!(glyph.sources.len(), 1);
    let s = &glyph.sources[0];
    assert_eq!(s.name, "M1");
    assert_eq!(s.layer_name, "M1");
    assert_eq!(s.location.len(), 1);
    assert_eq!(s.location[0].tag, "wght");
    assert_eq!(val(s.location[0].value), 400.0);
}

#[test]
fn get_glyph_nonexistent_is_not_found() {
    let font = scenario_font();
    assert_eq!(font.getGlyph("nonexistent".to_string()).unwrap_err(), ProjectionError::NotFound);
    // A failed lookup leaves the document usable.
    assert!(font.getGlyph("A".to_string()).is_ok());
}

#[test]
fn layer_keys_and_unresolved_locations() {
    let glyph = Glyph {
        name: "B".to_string(),
        codepoints: vec![],
        layers: vec![
            layer(Some("M1"), 600.0, vec![]),
            layer(Some("brace"), 600.0, vec![]),
            layer(None, 610.0, vec![triangle()]),
        ],
    };
    let font = Font::new(
        babelfont::Font::new(),
        vec![],
        vec![master("M1", 400.0), master("M2", 700.0)],
        vec![glyph],
        no_names(),
        1000,
        1,
        0,
    )
    .unwrap();
    let view = font.getGlyph("B".to_string()).unwrap();
    let keys: Vec<&str> = view.layers.iter().map(|e| e.id.as_str()).collect();
    assert_eq!(keys, vec!["M1", "brace", "Unknown layer"]);
    assert_eq!(val(view.sources[0].location[0].value), 400.0);
    assert!(view.sources[1].location.is_empty());
    assert!(view.sources[2].location.is_empty());
    assert_eq!(view.sources[2].name, "Unknown layer");
    assert_eq!(val(view.layers[2].layer.glyph.x_advance), 610.0);
    assert_eq!(val(view.layers[2].layer.glyph.y_advance), 0.0);
}

#[test]
fn components_and_anchors_are_projected() {
    let mut l = layer(Some("M1"), 500.0, vec![]);
    l.components.push(Component {
        reference: "acutecomb".to_string(),
        transform: affine([1.0, 0.0, 0.0, 1.0, 120.0, 0.0]),
    });
    l.anchors.push(Anchor { name: "top".to_string(), x: num(250.0), y: num(700.0) });
    let glyph = Glyph { name: "Aacute".to_string(), codepoints: vec![0xC1], layers: vec![l] };
    let font = Font::new(
        babelfont::Font::new(),
        vec![],
        vec![master("M1", 400.0)],
        vec![glyph],
        no_names(),
        1000,
        1,
        0,
    )
    .unwrap();
    let view = font.getGlyph("Aacute".to_string()).unwrap();
    let g = &view.layers[0].layer.glyph;
    assert_eq!(g.components.len(), 1);
    assert_eq!(g.components[0].name, "acutecomb");
    assert_eq!(val(g.components[0].transformation.translate_x), 120.0);
    assert_eq!(val(g.components[0].transformation.scale_x), 1.0);
    assert!(g.components[0].location.is_empty());
    assert_eq!(g.anchors.len(), 1);
    assert_eq!(g.anchors[0].name, "top");
    assert_eq!(val(g.anchors[0].y), 700.0);
}

#[test]
fn empty_contour_is_rejected() {
    let glyph = Glyph {
        name: "A".to_string(),
        codepoints: vec![],
        layers: vec![layer(Some("M1"), 500.0, vec![Path { nodes: vec![], closed: true }])],
    };
    let r = Font::new(babelfont::Font::new(), vec![], vec![], vec![glyph], no_names(), 1000, 1, 0);
    assert_eq!(r.err(), Some(ProjectionError::ParseError));
}

#[test]
fn repeated_glyph_name_is_rejected() {
    let g = || Glyph { name: "A".to_string(), codepoints: vec![], layers: vec![] };
    let r = Font::new(babelfont::Font::new(), vec![], vec![], vec![g(), g()], no_names(), 1000, 1, 0);
    assert_eq!(r.err(), Some(ProjectionError::ParseError));
}

#[test]
fn repeated_master_id_is_rejected() {
    let r = Font::new(
        babelfont::Font::new(),
        vec![],
        vec![master("M1", 400.0), master("M1", 700.0)],
        vec![],
        no_names(),
        1000,
        1,
        0,
    );
    assert_eq!(r.err(), Some(ProjectionError::ParseError));
}

#[test]
fn sources_one_per_master() {
    let mut m = master("M1", 400.0);
    m.guides.push(Guide { name: Some("baseline".to_string()), x: num(0.0), y: num(10.0), angle: num(90.0) });
    m.guides.push(Guide { name: None, x: num(5.0), y: num(0.0), angle: num(0.0) });
    let font =
        Font::new(babelfont::Font::new(), vec![], vec![m, master("M2", 900.0)], vec![], no_names(), 1000, 1, 0)
            .unwrap();
    let sources = font.getSources();
    assert_eq!(sources.len(), 2);
    assert_eq!(sources[0].name, "M1");
    assert_eq!(sources[1].name, "M2");
    assert!(!sources[0].is_sparse);
    assert_eq!(val(sources[0].italic_angle), 0.0);
    assert_eq!(val(sources[1].location[0].value), 900.0);
    assert_eq!(sources[0].guidelines.len(), 2);
    assert_eq!(sources[0].guidelines[0].name.as_deref(), Some("baseline"));
    assert_eq!(val(sources[0].guidelines[0].angle), 90.0);
    assert!(!sources[0].guidelines[0].locked);
    assert_eq!(sources[0].guidelines[1].name, None);
}

#[test]
fn glyph_map_lists_code_points() {
    let font = scenario_font();
    let map = font.getGlyphMap();
    assert_eq!(map.len(), 1);
    assert_eq!(map[0].name, "A");
    assert_eq!(map[0].codepoints, vec![0x41]);
}

#[test]
fn font_info_uses_default_locale() {
    let mut names = no_names();
    names.family_name = text(&[("ENG", "English"), ("dflt", "Family")]);
    names.designer = text(&[("ENG", "Only English")]);
    let font = Font::new(babelfont::Font::new(), vec![], vec![], vec![], names, 1000, 2, 7).unwrap();
    let info = font.getFontInfo();
    assert_eq!(info.family_name.as_deref(), Some("Family"));
    assert_eq!(info.designer, None);
    assert_eq!(info.copyright, None);
    assert_eq!(info.version_major, 2);
    assert_eq!(info.version_minor, 7);
    assert_eq!(info.vendor_id, None);
}

#[test]
fn resolve_default_picks_dflt() {
    assert_eq!(resolve_default(&text(&[("dflt", "x"), ("ENG", "y")])), Some("x".to_string()));
    assert_eq!(resolve_default(&text(&[])), None);
}

#[test]
fn axis_bounds_default_to_zero() {
    let axis = Axis {
        tag: "wdth".to_string(),
        name: text(&[]),
        min: None,
        default: Some(num(100.0)),
        max: None,
        hidden: true,
    };
    let font = Font::new(babelfont::Font::new(), vec![axis], vec![], vec![], no_names(), 1000, 1, 0).unwrap();
    let axes = font.getAxes();
    assert_eq!(val(axes.axes[0].min_value), 0.0);
    assert_eq!(val(axes.axes[0].max_value), 0.0);
    assert_eq!(val(axes.axes[0].default_value), 100.0);
    assert!(axes.axes[0].hidden);
}

#[test]
fn fixed_accessors() {
    let font = Font::empty();
    assert_eq!(font.getUnitsPerEm(), 1000);
    assert!(font.isReadOnly());
    let info = font.getBackEndInfo();
    assert!(info.features.is_empty());
    assert_eq!(info.export_formats, vec!["glyphs".to_string()]);
    assert!(font.getCustomData().is_empty());
    assert!(font.findGlyphsThatUseGlyph("A").is_empty());
    assert!(font.getBackgroundImage("img").is_none());
    assert!(!font.putBackgroundImage("img", &[1, 2, 3]));
    assert!(font.getAxes().axes.is_empty());
    assert!(font.getSources().is_empty());
    assert!(font.getGlyphMap().is_empty());
}

#[test]
fn accessors_are_idempotent() {
    let font = scenario_font();
    assert_eq!(format!("{:?}", font.getGlyph("A".to_string())), format!("{:?}", font.getGlyph("A".to_string())));
    assert_eq!(format!("{:?}", font.getAxes()), format!("{:?}", font.getAxes()));
    assert_eq!(format!("{:?}", font.getSources()), format!("{:?}", font.getSources()));
    assert_eq!(format!("{:?}", font.getFontInfo()), format!("{:?}", font.getFontInfo()));
    assert_eq!(format!("{:?}", font.getGlyphMap()), format!("{:?}", font.getGlyphMap()));
}

#[test]
fn export_writes_glyphs_text() {
    let font = Font::empty();
    let text = font.exportAs().unwrap();
    assert!(!text.is_empty());
    assert_eq!(font.exportAs().unwrap(), text);
}

#[test]
fn empty_document_has_no_font_info() {
    let info = Font::empty().getFontInfo();
    assert_eq!(info.family_name, None);
    assert_eq!(info.copyright, None);
    assert_eq!(info.version_major, 1);
    assert_eq!(info.version_minor, 0);
}
