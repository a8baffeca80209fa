use cadutil::codes::{LcEntityType, LcFormat, LcSeverity};
use cadutil::model::{
    Binary64, EntityInfo, FileInfo, Issue, LayerInfo, LcBoundingBox, LcPoint3D, ValidationResult,
};

fn b(x: f64) -> Binary64 {
    Binary64 { bits: x.to_bits() }
}

fn point(x: f64, y: f64, z: f64) -> LcPoint3D {
    LcPoint3D { x: b(x), y: b(y), z: b(z) }
}

fn layer(name: &str) -> LayerInfo {
    LayerInfo {
        name: name.to_string(),
        color: 7,
        line_type: "CONTINUOUS".to_string(),
        line_weight: b(0.0),
        is_off: false,
        is_frozen: false,
        is_locked: false,
    }
}

fn entity(kind: LcEntityType) -> EntityInfo {
    EntityInfo {
        entity_type: kind,
        layer: "0".to_string(),
        color: 256,
        line_type: String::new(),
        line_weight: b(0.0),
        handle: 1,
    }
}

fn drawing(layers: Vec<LayerInfo>, entities: Vec<EntityInfo>, counts: [i32; 20], total: i32) -> FileInfo {
    FileInfo {
        filename: "a.dxf".to_string(),
        format: LcFormat::Dxf,
        dxf_version: "AC1021".to_string(),
        layer_count: layers.len() as i32,
        block_count: 0,
        entity_count: total,
        bounds: LcBoundingBox { min: point(0.0, 0.0, 0.0), max: point(1.0, 1.0, 0.0) },
        layers,
        blocks: Vec::new(),
        entities,
        entity_counts: counts,
    }
}

fn issue(severity: LcSeverity) -> Issue {
    Issue {
        severity,
        code: "C".to_string(),
        message: "m".to_string(),
        location: String::new(),
    }
}

#[test]
fn binary64_order_is_the_order_of_the_numbers() {
    let values = [
        f64::NEG_INFINITY,
        f64::MIN,
        -1.0e300,
        -2.5,
        -1.0,
        -f64::MIN_POSITIVE,
        -5e-324,
        -0.0,
        0.0,
        5e-324,
        f64::MIN_POSITIVE,
        0.1,
        1.0,
        1.0000000000000002,
        2.5,
        1.0e300,
        f64::MAX,
        f64::INFINITY,
        f64::NAN,
        -f64::NAN,
    ];
    for x in values {
        for y in values {
            assert_eq!(b(x).le(&b(y)), x <= y, "{} <= {}", x, y);
        }
    }
}

#[test]
fn binary64_zeroes_are_equal() {
    assert!(b(0.0).le(&b(-0.0)));
    assert!(b(-0.0).le(&b(0.0)));
}

#[test]
fn binary64_not_a_number_is_never_at_most() {
    let nan = Binary64 { bits: 0x7ff8_0000_0000_0001 };
    let signalling = Binary64 { bits: 0xfff0_0000_0000_0001 };
    for other in [b(0.0), b(1.0), b(f64::INFINITY), nan, signalling] {
        assert!(!nan.le(&other));
        assert!(!other.le(&nan));
        assert!(!signalling.le(&other));
        assert!(!other.le(&signalling));
    }
}

#[test]
fn box_with_least_x_above_greatest_x_is_no_extent() {
    let none = LcBoundingBox { min: point(1.0, 0.0, 0.0), max: point(-1.0, 5.0, 0.0) };
    assert!(!none.defined());
    let sentinel = LcBoundingBox {
        min: point(f64::MAX, f64::MAX, f64::MAX),
        max: point(f64::MIN, f64::MIN, f64::MIN),
    };
    assert!(!sentinel.defined());
}

#[test]
fn box_is_an_extent_by_its_x_alone() {
    let flat = LcBoundingBox { min: point(2.0, 9.0, 9.0), max: point(2.0, 0.0, 0.0) };
    assert!(flat.defined());
    let usual = LcBoundingBox { min: point(-3.0, -4.0, 0.0), max: point(10.5, 2.0, 0.0) };
    assert!(usual.defined());
    let undefined = LcBoundingBox { min: point(f64::NAN, 0.0, 0.0), max: point(1.0, 1.0, 0.0) };
    assert!(!undefined.defined());
}

#[test]
fn counts_are_read_by_kind() {
    let mut counts = [0; 20];
    counts[2] = 5;
    counts[19] = 3;
    counts[0] = 1;
    let d = drawing(Vec::new(), Vec::new(), counts, 9);
    assert_eq!(d.count_of(LcEntityType::Line), 5);
    assert_eq!(d.count_of(LcEntityType::Viewport), 3);
    assert_eq!(d.count_of(LcEntityType::Unknown), 1);
    assert_eq!(d.count_of(LcEntityType::Circle), 0);
}

#[test]
fn snapshot_is_consistent_when_counts_add_up() {
    let mut counts = [0; 20];
    counts[2] = 2;
    counts[3] = 1;
    let without_entities = drawing(Vec::new(), Vec::new(), counts, 3);
    assert!(without_entities.is_consistent());
    let with_entities = drawing(
        Vec::new(),
        vec![entity(LcEntityType::Line), entity(LcEntityType::Line), entity(LcEntityType::Circle)],
        counts,
        3,
    );
    assert!(with_entities.is_consistent());
}

#[test]
fn snapshot_is_inconsistent_otherwise() {
    let mut counts = [0; 20];
    counts[2] = 2;
    assert!(!drawing(Vec::new(), Vec::new(), counts, 3).is_consistent());
    assert!(!drawing(Vec::new(), vec![entity(LcEntityType::Line)], counts, 2).is_consistent());
    let mut negative = [0; 20];
    negative[1] = -1;
    assert!(!drawing(Vec::new(), vec![entity(LcEntityType::Point)], negative, -1).is_consistent());
    assert!(drawing(Vec::new(), Vec::new(), negative, -1).is_consistent());
}

#[test]
fn consistency_does_not_overflow() {
    let counts = [i32::MAX; 20];
    assert!(!drawing(Vec::new(), Vec::new(), counts, i32::MAX).is_consistent());
    let low = [i32::MIN; 20];
    assert!(!drawing(Vec::new(), Vec::new(), low, i32::MIN).is_consistent());
}

#[test]
fn empty_drawing_is_consistent() {
    assert!(drawing(Vec::new(), Vec::new(), [0; 20], 0).is_consistent());
}

#[test]
fn layer_is_found_by_name() {
    let d = drawing(vec![layer("0"), layer("Walls"), layer("Doors"), layer("Walls")], Vec::new(), [0; 20], 0);
    assert_eq!(d.layer_index("0"), Some(0));
    assert_eq!(d.layer_index("Walls"), Some(1));
    assert_eq!(d.layer_index("Doors"), Some(2));
    assert_eq!(d.layer_index("walls"), None);
    assert_eq!(d.layer_index(""), None);
    assert_eq!(drawing(Vec::new(), Vec::new(), [0; 20], 0).layer_index("0"), None);
}

#[test]
fn valid_outcome_with_an_error_is_inconsistent() {
    let sound = ValidationResult {
        is_valid: true,
        issues: vec![issue(LcSeverity::Info), issue(LcSeverity::Warning)],
    };
    assert!(!sound.has_error());
    assert!(sound.is_consistent());
    let unsound = ValidationResult {
        is_valid: true,
        issues: vec![issue(LcSeverity::Warning), issue(LcSeverity::Error)],
    };
    assert!(unsound.has_error());
    assert!(!unsound.is_consistent());
}

#[test]
fn invalid_outcome_is_consistent_with_anything() {
    for issues in [Vec::new(), vec![issue(LcSeverity::Info)], vec![issue(LcSeverity::Error)]] {
        assert!(ValidationResult { is_valid: false, issues }.is_consistent());
    }
    assert!(ValidationResult { is_valid: true, issues: Vec::new() }.is_consistent());
}
