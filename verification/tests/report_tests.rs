use cadutil::codes::{LcDetailLevel, LcEntityType, LcFormat, LcSeverity};
use cadutil::info_report::{
    blocks_lines, bounds_lines, entities_lines, file_info_lines, header_lines, kinds_lines,
    label_of, layers_lines, listed_kind_at, rows_to_show, statistics_lines,
};
use cadutil::model::{
    Binary64, BlockInfo, EntityInfo, FileInfo, Issue, LayerInfo, LcBoundingBox, LcPoint3D,
    ValidationResult,
};
use cadutil::report::{Line, Span, Style};
use cadutil::validation_report::validation_lines;

fn b(x: f64) -> Binary64 {
    Binary64 { bits: x.to_bits() }
}

fn point(x: f64, y: f64, z: f64) -> LcPoint3D {
    LcPoint3D { x: b(x), y: b(y), z: b(z) }
}

fn text_of(line: &Line) -> String {
    let mut out = String::new();
    for span in &line.spans {
        match span {
            Span::Text { text, .. } => out.push_str(text),
            Span::Fixed { value, places } => {
                out.push_str(&format!("{:.*}", *places as usize, f64::from_bits(value.bits)))
            }
            Span::FixedDifference { from, to, places } => out.push_str(&format!(
                "{:.*}",
                *places as usize,
                f64::from_bits(to.bits) - f64::from_bits(from.bits)
            )),
        }
    }
    out
}

fn texts(lines: &[Line]) -> Vec<String> {
    lines.iter().map(text_of).collect()
}

fn styles(line: &Line) -> Vec<Style> {
    line.spans
        .iter()
        .map(|s| match s {
            Span::Text { style, .. } => *style,
            _ => Style::Plain,
        })
        .collect()
}

fn layer(name: &str, off: bool, frozen: bool, locked: bool) -> LayerInfo {
    LayerInfo {
        name: name.to_string(),
        color: 7,
        line_type: "CONTINUOUS".to_string(),
        line_weight: b(0.0),
        is_off: off,
        is_frozen: frozen,
        is_locked: locked,
    }
}

fn entity(kind: LcEntityType, layer: &str, color: i32) -> EntityInfo {
    EntityInfo {
        entity_type: kind,
        layer: layer.to_string(),
        color,
        line_type: String::new(),
        line_weight: b(0.0),
        handle: 0,
    }
}

fn lines_of(n: usize) -> Vec<EntityInfo> {
    (0..n).map(|i| entity(LcEntityType::Line, "0", i as i32)).collect()
}

fn sample() -> FileInfo {
    let mut counts = [0; 20];
    counts[LcEntityType::Line.index()] = 3;
    counts[LcEntityType::Circle.index()] = 1;
    counts[LcEntityType::Image.index()] = 1;
    counts[LcEntityType::Viewport.index()] = 4;
    counts[LcEntityType::Unknown.index()] = 2;
    FileInfo {
        filename: "plan.dxf".to_string(),
        format: LcFormat::Dxf,
        dxf_version: "AC1021".to_string(),
        layer_count: 3,
        block_count: 1,
        entity_count: 5,
        bounds: LcBoundingBox { min: point(-1.5, 0.0, 0.0), max: point(10.25, 20.0, 0.5) },
        layers: vec![
            layer("0", false, false, false),
            layer("Walls", true, true, true),
            layer("Doors", true, false, true),
        ],
        blocks: vec![BlockInfo {
            name: "DOOR".to_string(),
            base_point: point(1.0, 2.555, 9.0),
            entity_count: 4,
        }],
        entities: vec![
            entity(LcEntityType::Line, "Walls", 7),
            entity(LcEntityType::Line, "Walls", 256),
            entity(LcEntityType::Circle, "0", -1),
            entity(LcEntityType::LwPolyline, "a layer with a long name", 1),
            entity(LcEntityType::Image, "", 12),
        ],
        entity_counts: counts,
    }
}

fn issue(severity: LcSeverity, code: &str, message: &str, location: &str) -> Issue {
    Issue {
        severity,
        code: code.to_string(),
        message: message.to_string(),
        location: location.to_string(),
    }
}

#[test]
fn header_of_a_dxf_drawing() {
    let lines = header_lines(&sample());
    assert_eq!(
        texts(&lines),
        vec![
            "File Information",
            "================",
            "  File:        plan.dxf",
            "  Format:      DXF",
            "  DXF Version: AC1021",
            "",
        ]
    );
    assert_eq!(styles(&lines[0]), vec![Style::CyanBold]);
    assert_eq!(styles(&lines[1]), vec![Style::Cyan]);
    assert_eq!(styles(&lines[2]), vec![Style::Plain]);
    assert!(lines[5].spans.is_empty());
}

#[test]
fn header_without_a_dxf_version() {
    let mut info = sample();
    info.dxf_version = String::new();
    info.format = LcFormat::Jww;
    assert_eq!(
        texts(&header_lines(&info)),
        vec![
            "File Information",
            "================",
            "  File:        plan.dxf",
            "  Format:      JWW",
            "",
        ]
    );
}

#[test]
fn statistics_show_the_three_counts() {
    let mut info = sample();
    info.layer_count = 3;
    info.block_count = 0;
    info.entity_count = -5;
    assert_eq!(
        texts(&statistics_lines(&info)),
        vec!["Statistics", "----------", "  Layers:   3", "  Blocks:   0", "  Entities: -5", ""]
    );
}

#[test]
fn bounds_of_a_drawing_with_an_extent() {
    assert_eq!(
        texts(&bounds_lines(&sample())),
        vec![
            "Bounding Box",
            "------------",
            "  Min: (-1.5000, 0.0000, 0.0000)",
            "  Max: (10.2500, 20.0000, 0.5000)",
            "  Size: 11.7500 x 20.0000",
            "",
        ]
    );
}

#[test]
fn bounds_of_a_drawing_without_an_extent_are_left_out() {
    let mut info = sample();
    info.bounds = LcBoundingBox { min: point(1.0, 0.0, 0.0), max: point(0.0, 5.0, 0.0) };
    assert!(bounds_lines(&info).is_empty());
    info.bounds = LcBoundingBox { min: point(f64::NAN, 0.0, 0.0), max: point(0.0, 5.0, 0.0) };
    assert!(bounds_lines(&info).is_empty());
}

#[test]
fn kinds_table_lists_what_occurs_in_table_order() {
    assert_eq!(
        texts(&kinds_lines(&sample())),
        vec![
            "Entity Types",
            "------------",
            "  Line              3",
            "  Circle            1",
            "  Image             1",
            "",
        ]
    );
}

#[test]
fn kinds_table_rows_are_the_formatter_s() {
    let mut info = sample();
    info.entity_counts = [0; 20];
    info.entity_counts[LcEntityType::LwPolyline.index()] = 1234567;
    info.entity_counts[LcEntityType::Dimension.index()] = 12;
    info.entity_counts[LcEntityType::Point.index()] = -4;
    let lines = texts(&kinds_lines(&info));
    assert_eq!(
        lines,
        vec![
            "Entity Types".to_string(),
            "------------".to_string(),
            format!("  {:12} {:>6}", "LWPolyline", 1234567),
            format!("  {:12} {:>6}", "Dimension", 12),
            String::new(),
        ]
    );
}

#[test]
fn kinds_table_of_an_empty_drawing_has_no_rows() {
    let mut info = sample();
    info.entity_counts = [0; 20];
    assert_eq!(texts(&kinds_lines(&info)), vec!["Entity Types", "------------", ""]);
}

#[test]
fn listed_kinds_and_their_labels() {
    let expected = [
        (LcEntityType::Point, "Point"),
        (LcEntityType::Line, "Line"),
        (LcEntityType::Circle, "Circle"),
        (LcEntityType::Arc, "Arc"),
        (LcEntityType::Ellipse, "Ellipse"),
        (LcEntityType::Polyline, "Polyline"),
        (LcEntityType::LwPolyline, "LWPolyline"),
        (LcEntityType::Spline, "Spline"),
        (LcEntityType::Text, "Text"),
        (LcEntityType::MText, "MText"),
        (LcEntityType::Insert, "Insert"),
        (LcEntityType::Hatch, "Hatch"),
        (LcEntityType::Dimension, "Dimension"),
        (LcEntityType::Leader, "Leader"),
        (LcEntityType::Solid, "Solid"),
        (LcEntityType::Image, "Image"),
    ];
    for (k, (kind, label)) in expected.iter().enumerate() {
        assert_eq!(listed_kind_at(k), *kind);
        assert_eq!(label_of(*kind), *label);
    }
}

#[test]
fn layers_show_one_badge_frozen_before_off_before_locked() {
    let mut info = sample();
    info.layers = vec![
        layer("a", false, false, false),
        layer("b", true, true, true),
        layer("c", true, false, true),
        layer("d", false, false, true),
        layer("e", true, false, false),
        layer("f", false, true, false),
    ];
    assert_eq!(
        texts(&layers_lines(&info, LcDetailLevel::Normal)),
        vec![
            "Layers",
            "------",
            "  a (color: 7, type: CONTINUOUS)",
            "  b (color: 7, type: CONTINUOUS) [frozen]",
            "  c (color: 7, type: CONTINUOUS) [off]",
            "  d (color: 7, type: CONTINUOUS) [locked]",
            "  e (color: 7, type: CONTINUOUS) [off]",
            "  f (color: 7, type: CONTINUOUS) [frozen]",
            "",
        ]
    );
}

#[test]
fn layers_and_blocks_are_left_out_at_summary() {
    assert!(layers_lines(&sample(), LcDetailLevel::Summary).is_empty());
    assert!(blocks_lines(&sample(), LcDetailLevel::Summary).is_empty());
    for detail in [LcDetailLevel::Normal, LcDetailLevel::Verbose, LcDetailLevel::Full] {
        assert_eq!(layers_lines(&sample(), detail).len(), 6);
        assert_eq!(blocks_lines(&sample(), detail).len(), 4);
    }
}

#[test]
fn sections_without_items_are_left_out() {
    let mut info = sample();
    info.layers.clear();
    info.blocks.clear();
    info.entities.clear();
    for detail in [
        LcDetailLevel::Summary,
        LcDetailLevel::Normal,
        LcDetailLevel::Verbose,
        LcDetailLevel::Full,
    ] {
        assert!(layers_lines(&info, detail).is_empty());
        assert!(blocks_lines(&info, detail).is_empty());
        assert!(entities_lines(&info, detail).is_empty());
    }
}

#[test]
fn blocks_show_count_and_base_point() {
    assert_eq!(
        texts(&blocks_lines(&sample(), LcDetailLevel::Normal)),
        vec!["Blocks", "------", "  DOOR (4 entities, base: (1.00, 2.56))", ""]
    );
}

#[test]
fn entities_are_left_out_below_verbose() {
    assert!(entities_lines(&sample(), LcDetailLevel::Summary).is_empty());
    assert!(entities_lines(&sample(), LcDetailLevel::Normal).is_empty());
}

#[test]
fn entity_rows_are_the_formatter_s() {
    let info = sample();
    let lines = texts(&entities_lines(&info, LcDetailLevel::Verbose));
    let mut expected = vec!["Entities".to_string(), "--------".to_string()];
    for (i, e) in info.entities.iter().enumerate() {
        expected.push(format!(
            "  {:4}. {:12} layer: {:16} color: {:3}",
            i + 1,
            e.entity_type.as_str(),
            e.layer,
            e.color
        ));
    }
    assert_eq!(lines, expected);
    assert_eq!(lines[2], "     1. LINE         layer: Walls            color:   7");
    assert_eq!(lines[4], "     3. CIRCLE       layer: 0                color:  -1");
    assert_eq!(lines[5], "     4. LWPOLYLINE   layer: a layer with a long name color:   1");
}

#[test]
fn verbose_listing_is_cut_at_twenty() {
    let mut info = sample();
    info.entities = lines_of(25);
    let lines = texts(&entities_lines(&info, LcDetailLevel::Verbose));
    assert_eq!(lines.len(), 2 + 20 + 1);
    assert_eq!(lines[2], "     1. LINE         layer: 0                color:   0");
    assert_eq!(lines[21], "    20. LINE         layer: 0                color:  19");
    assert_eq!(lines[22], "  ... and 5 more entities");
}

#[test]
fn verbose_listing_of_twenty_has_no_more_line() {
    let mut info = sample();
    info.entities = lines_of(20);
    let lines = texts(&entities_lines(&info, LcDetailLevel::Verbose));
    assert_eq!(lines.len(), 2 + 20);
    assert!(lines.iter().all(|l| !l.contains("more")));
    info.entities = lines_of(21);
    let lines = texts(&entities_lines(&info, LcDetailLevel::Verbose));
    assert_eq!(lines.len(), 2 + 20 + 1);
    assert_eq!(lines[22], "  ... and 1 more entities");
}

#[test]
fn full_listing_shows_every_entity() {
    let mut info = sample();
    info.entities = lines_of(1234);
    let lines = texts(&entities_lines(&info, LcDetailLevel::Full));
    assert_eq!(lines.len(), 2 + 1234);
    assert_eq!(lines[1235], "  1234. LINE         layer: 0                color: 1233");
    assert!(lines.iter().all(|l| !l.contains("more")));
}

#[test]
fn rows_to_show_by_level() {
    for n in [0usize, 1, 19, 20, 21, 1000] {
        assert_eq!(rows_to_show(LcDetailLevel::Summary, n), 0);
        assert_eq!(rows_to_show(LcDetailLevel::Normal, n), 0);
        assert_eq!(rows_to_show(LcDetailLevel::Verbose, n), n.min(20));
        assert_eq!(rows_to_show(LcDetailLevel::Full, n), n);
    }
}

#[test]
fn whole_report_at_each_level() {
    let info = sample();
    let summary = texts(&file_info_lines(&info, LcDetailLevel::Summary));
    let normal = texts(&file_info_lines(&info, LcDetailLevel::Normal));
    let verbose = texts(&file_info_lines(&info, LcDetailLevel::Verbose));
    let full = texts(&file_info_lines(&info, LcDetailLevel::Full));
    assert_eq!(
        summary,
        vec![
            "File Information",
            "================",
            "  File:        plan.dxf",
            "  Format:      DXF",
            "  DXF Version: AC1021",
            "",
            "Statistics",
            "----------",
            "  Layers:   3",
            "  Blocks:   1",
            "  Entities: 5",
            "",
            "Bounding Box",
            "------------",
            "  Min: (-1.5000, 0.0000, 0.0000)",
            "  Max: (10.2500, 20.0000, 0.5000)",
            "  Size: 11.7500 x 20.0000",
            "",
            "Entity Types",
            "------------",
            "  Line              3",
            "  Circle            1",
            "  Image             1",
            "",
        ]
    );
    assert_eq!(normal[..summary.len()], summary[..]);
    assert_eq!(
        normal[summary.len()..],
        [
            "Layers",
            "------",
            "  0 (color: 7, type: CONTINUOUS)",
            "  Walls (color: 7, type: CONTINUOUS) [frozen]",
            "  Doors (color: 7, type: CONTINUOUS) [off]",
            "",
            "Blocks",
            "------",
            "  DOOR (4 entities, base: (1.00, 2.56))",
            "",
        ]
    );
    assert_eq!(verbose[..normal.len()], normal[..]);
    assert_eq!(verbose.len(), normal.len() + 2 + 5);
    assert_eq!(full, verbose);
}

#[test]
fn lower_levels_show_a_part_of_what_higher_levels_show() {
    let mut info = sample();
    info.entities = lines_of(30);
    let levels = [
        LcDetailLevel::Summary,
        LcDetailLevel::Normal,
        LcDetailLevel::Verbose,
        LcDetailLevel::Full,
    ];
    for w in levels.windows(2) {
        let low = texts(&entities_lines(&info, w[0]));
        let high = texts(&entities_lines(&info, w[1]));
        let low_rows: Vec<&String> = low.iter().filter(|l| l.contains(". LINE")).collect();
        let high_rows: Vec<&String> = high.iter().filter(|l| l.contains(". LINE")).collect();
        assert!(low_rows.len() <= high_rows.len());
        assert_eq!(low_rows[..], high_rows[..low_rows.len()]);
        assert!(layers_lines(&info, w[0]).len() <= layers_lines(&info, w[1]).len());
        assert!(blocks_lines(&info, w[0]).len() <= blocks_lines(&info, w[1]).len());
    }
}

#[test]
fn validation_report_of_a_valid_drawing_without_findings() {
    let result = ValidationResult { is_valid: true, issues: Vec::new() };
    let lines = validation_lines(&result, "plan.dxf");
    assert_eq!(
        texts(&lines),
        vec![
            "Validation Result",
            "=================",
            "  File: plan.dxf",
            "  Status: VALID",
            "  Issues: 0",
            "",
        ]
    );
    assert_eq!(styles(&lines[3]), vec![Style::Plain, Style::GreenBold]);
}

#[test]
fn validation_report_lists_findings_in_order_of_detection() {
    let result = ValidationResult {
        is_valid: false,
        issues: vec![
            issue(LcSeverity::Info, "NOTE", "first", ""),
            issue(LcSeverity::Error, "FILE_ERROR", "cannot open", "/nonexistent/file.dxf"),
            issue(LcSeverity::Warning, "EMPTY_DRAWING", "Drawing has no entities", ""),
        ],
    };
    let lines = validation_lines(&result, "/nonexistent/file.dxf");
    assert_eq!(
        texts(&lines),
        vec![
            "Validation Result",
            "=================",
            "  File: /nonexistent/file.dxf",
            "  Status: INVALID",
            "  Issues: 3",
            "",
            "Issues",
            "------",
            "  [INFO] NOTE: first",
            "  [ERROR] FILE_ERROR: cannot open",
            "         at /nonexistent/file.dxf",
            "  [WARN] EMPTY_DRAWING: Drawing has no entities",
        ]
    );
    assert_eq!(styles(&lines[3]), vec![Style::Plain, Style::RedBold]);
    assert_eq!(
        styles(&lines[8]),
        vec![Style::Plain, Style::Blue, Style::Plain, Style::Dimmed, Style::Plain, Style::Plain]
    );
    assert_eq!(styles(&lines[9])[1], Style::RedBold);
    assert_eq!(styles(&lines[10]), vec![Style::Plain, Style::Dimmed]);
    assert_eq!(styles(&lines[11])[1], Style::YellowBold);
}

#[test]
fn empty_drawing_is_valid_with_one_warning() {
    let result = ValidationResult {
        is_valid: true,
        issues: vec![issue(LcSeverity::Warning, "EMPTY_DRAWING", "Drawing has no entities", "")],
    };
    assert!(result.is_consistent());
    let lines = texts(&validation_lines(&result, "empty.dxf"));
    assert_eq!(lines[3], "  Status: VALID");
    assert_eq!(lines[4], "  Issues: 1");
    assert_eq!(lines[8], "  [WARN] EMPTY_DRAWING: Drawing has no entities");
    assert_eq!(lines.len(), 9);
}
