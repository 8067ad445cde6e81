use object_space_config::decode::decode_document;
use object_space_config::encode::encode_document;
use object_space_config::error::{ConfigError, Field, SchemaError};
use object_space_config::float_bits::FloatBits;
use object_space_config::loader::{load_object_space_config_str, parse_document};
use object_space_config::schema::{
    Constraint, Descriptor, Detector, DetectorDescriptor, ObjectSpaceConfig, validate_config,
};
use object_space_config::tree::Node;

fn node_to_value(n: &Node) -> toml::Value {
    match n {
        Node::Bool(b) => toml::Value::Boolean(*b),
        Node::Int(i) => toml::Value::Integer(*i),
        Node::Float(f) => toml::Value::Float(f64::from_bits(f.bits)),
        Node::Str(s) => toml::Value::String(s.clone()),
        Node::Datetime => toml::Value::String(String::new()),
        Node::Array(a) => toml::Value::Array(a.iter().map(node_to_value).collect()),
        Node::Table(es) => toml::Value::Table(
            es.iter().map(|e| (e.0.clone(), node_to_value(&e.1))).collect(),
        ),
    }
}

fn fb(x: f64) -> FloatBits {
    FloatBits { bits: x.to_bits() }
}

const CHECKERBOARD_DOC: &str = "[camera.detector]\n\
    type = \"checkerboard\"\n\
    width = 8\n\
    height = 6\n\
    edge_length = 0.025\n\
    variances = [1e-6, 1e-6, 1e-6]\n\
    \n\
    [camera.descriptor]\n\
    type = \"detector_defined\"\n";

const CHARUCO_DOC: &str = "[camera.detector]\n\
    type = \"charuco\"\n\
    width = 8\n\
    height = 6\n\
    edge_length = 0.025\n\
    marker_length = 0.02\n\
    variances = [1e-6, 1e-6, 1e-6]\n\
    \n\
    [camera.descriptor]\n\
    type = \"detector_defined\"\n";

#[test]
fn valid_checkerboard_is_ok() {
    let c = load_object_space_config_str(CHECKERBOARD_DOC).unwrap();
    match &c.camera.detector {
        Detector::Checkerboard { width, height, edge_length, variances } => {
            assert_eq!(*width, 8);
            assert_eq!(*height, 6);
            assert_eq!(edge_length.bits, 0.025f64.to_bits());
            assert_eq!(variances.len(), 3);
            assert_eq!(variances[0].bits, 1e-6f64.to_bits());
            assert_eq!(variances[1].bits, 1e-6f64.to_bits());
            assert_eq!(variances[2].bits, 1e-6f64.to_bits());
        },
        Detector::Charuco { .. } => panic!("decoded the wrong variant"),
    }
    assert!(matches!(c.camera.descriptor, Descriptor::DetectorDefined));
}

#[test]
fn valid_charuco_is_ok() {
    let c = load_object_space_config_str(CHARUCO_DOC).unwrap();
    match &c.camera.detector {
        Detector::Charuco { width, height, edge_length, marker_length, variances } => {
            assert_eq!(*width, 8);
            assert_eq!(*height, 6);
            assert_eq!(edge_length.bits, 0.025f64.to_bits());
            assert_eq!(marker_length.bits, 0.02f64.to_bits());
            assert_eq!(variances.len(), 3);
        },
        Detector::Checkerboard { .. } => panic!("decoded the wrong variant"),
    }
}

#[test]
fn invalid_toml_does_not_parse() {
    let err = load_object_space_config_str("this is = = not toml").unwrap_err();
    assert!(matches!(err, ConfigError::Syntax(_)));
}

#[test]
fn missing_edge_length_is_schema_error() {
    let text = "[camera.detector]\n\
        type = \"checkerboard\"\n\
        width = 8\n\
        height = 6\n\
        variances = [1e-6, 1e-6, 1e-6]\n\
        [camera.descriptor]\n\
        type = \"detector_defined\"\n";
    let err = load_object_space_config_str(text).unwrap_err();
    assert!(matches!(
        err,
        ConfigError::Schema(SchemaError::MissingField(Field::EdgeLength))
    ));
}

#[test]
fn unknown_detector_field_is_schema_error() {
    let text = "[camera.detector]\n\
        type = \"checkerboard\"\n\
        width = 8\n\
        height = 6\n\
        edge_length = 0.025\n\
        variances = [1e-6, 1e-6, 1e-6]\n\
        foo = 1\n\
        [camera.descriptor]\n\
        type = \"detector_defined\"\n";
    let err = load_object_space_config_str(text).unwrap_err();
    match err {
        ConfigError::Schema(SchemaError::UnexpectedField(Field::Detector, k)) => {
            assert_eq!(k, "foo");
        },
        other => panic!("expected an unexpected-field error, got {:?}", other),
    }
}

#[test]
fn unknown_top_level_field_is_schema_error() {
    let text = "extra = 1\n\
        [camera.detector]\n\
        type = \"checkerboard\"\n\
        width = 8\n\
        height = 6\n\
        edge_length = 0.025\n\
        variances = [1e-6, 1e-6, 1e-6]\n\
        [camera.descriptor]\n\
        type = \"detector_defined\"\n";
    let err = load_object_space_config_str(text).unwrap_err();
    match err {
        ConfigError::Schema(SchemaError::UnexpectedField(Field::Document, k)) => {
            assert_eq!(k, "extra");
        },
        other => panic!("expected an unexpected-field error, got {:?}", other),
    }
}

#[test]
fn unknown_descriptor_field_is_schema_error() {
    let text = "[camera.detector]\n\
        type = \"checkerboard\"\n\
        width = 8\n\
        height = 6\n\
        edge_length = 0.025\n\
        variances = [1e-6, 1e-6, 1e-6]\n\
        [camera.descriptor]\n\
        type = \"detector_defined\"\n\
        bar = true\n";
    let err = load_object_space_config_str(text).unwrap_err();
    match err {
        ConfigError::Schema(SchemaError::UnexpectedField(Field::Descriptor, k)) => {
            assert_eq!(k, "bar");
        },
        other => panic!("expected an unexpected-field error, got {:?}", other),
    }
}

#[test]
fn marker_not_below_edge_is_invalid() {
    let text = "[camera.detector]\n\
        type = \"charuco\"\n\
        width = 8\n\
        height = 6\n\
        edge_length = 0.04\n\
        marker_length = 0.05\n\
        variances = [1e-6, 1e-6, 1e-6]\n\
        [camera.descriptor]\n\
        type = \"detector_defined\"\n";
    let err = load_object_space_config_str(text).unwrap_err();
    assert!(matches!(
        err,
        ConfigError::Schema(SchemaError::InvalidValue(Constraint::MarkerBelowEdge))
    ));
}

#[test]
fn unrelated_document_is_missing_camera() {
    let text = "[package]\nname = \"demo\"\nversion = \"0.1.0\"\n";
    let err = load_object_space_config_str(text).unwrap_err();
    assert!(matches!(
        err,
        ConfigError::Schema(SchemaError::MissingField(Field::Camera))
    ));
}

#[test]
fn missing_type_tag_is_schema_error() {
    let text = "[camera.detector]\n\
        width = 8\n\
        height = 6\n\
        edge_length = 0.025\n\
        variances = [1e-6, 1e-6, 1e-6]\n\
        [camera.descriptor]\n\
        type = \"detector_defined\"\n";
    let err = load_object_space_config_str(text).unwrap_err();
    assert!(matches!(
        err,
        ConfigError::Schema(SchemaError::MissingDiscriminator(Field::Detector))
    ));
}

#[test]
fn non_string_type_tag_is_schema_error() {
    let text = "[camera.detector]\n\
        type = 3\n\
        width = 8\n\
        height = 6\n\
        edge_length = 0.025\n\
        variances = [1e-6, 1e-6, 1e-6]\n\
        [camera.descriptor]\n\
        type = \"detector_defined\"\n";
    let err = load_object_space_config_str(text).unwrap_err();
    assert!(matches!(
        err,
        ConfigError::Schema(SchemaError::NonStringDiscriminator(Field::Detector))
    ));
}

#[test]
fn datetime_type_tag_is_schema_error() {
    let text = "[camera.detector]\n\
        type = 1979-05-27\n\
        width = 8\n\
        height = 6\n\
        edge_length = 0.025\n\
        variances = [1e-6, 1e-6, 1e-6]\n\
        [camera.descriptor]\n\
        type = \"detector_defined\"\n";
    let err = load_object_space_config_str(text).unwrap_err();
    assert!(matches!(
        err,
        ConfigError::Schema(SchemaError::NonStringDiscriminator(Field::Detector))
    ));
}

#[test]
fn unknown_variant_tag_is_schema_error() {
    let text = "[camera.detector]\n\
        type = \"circle_grid\"\n\
        width = 8\n\
        height = 6\n\
        edge_length = 0.025\n\
        variances = [1e-6, 1e-6, 1e-6]\n\
        [camera.descriptor]\n\
        type = \"detector_defined\"\n";
    let err = load_object_space_config_str(text).unwrap_err();
    match err {
        ConfigError::Schema(SchemaError::UnknownVariant(Field::Detector, tag)) => {
            assert_eq!(tag, "circle_grid");
        },
        other => panic!("expected an unknown-variant error, got {:?}", other),
    }
}

#[test]
fn unknown_descriptor_variant_is_schema_error() {
    let text = "[camera.detector]\n\
        type = \"checkerboard\"\n\
        width = 8\n\
        height = 6\n\
        edge_length = 0.025\n\
        variances = [1e-6, 1e-6, 1e-6]\n\
        [camera.descriptor]\n\
        type = \"fiducial\"\n";
    let err = load_object_space_config_str(text).unwrap_err();
    match err {
        ConfigError::Schema(SchemaError::UnknownVariant(Field::Descriptor, tag)) => {
            assert_eq!(tag, "fiducial");
        },
        other => panic!("expected an unknown-variant error, got {:?}", other),
    }
}

#[test]
fn string_width_is_type_mismatch() {
    let text = "[camera.detector]\n\
        type = \"checkerboard\"\n\
        width = \"eight\"\n\
        height = 6\n\
        edge_length = 0.025\n\
        variances = [1e-6, 1e-6, 1e-6]\n\
        [camera.descriptor]\n\
        type = \"detector_defined\"\n";
    let err = load_object_space_config_str(text).unwrap_err();
    assert!(matches!(
        err,
        ConfigError::Schema(SchemaError::TypeMismatch(Field::Width))
    ));
}

#[test]
fn scalar_variances_is_type_mismatch() {
    let text = "[camera.detector]\n\
        type = \"checkerboard\"\n\
        width = 8\n\
        height = 6\n\
        edge_length = 0.025\n\
        variances = 3\n\
        [camera.descriptor]\n\
        type = \"detector_defined\"\n";
    let err = load_object_space_config_str(text).unwrap_err();
    assert!(matches!(
        err,
        ConfigError::Schema(SchemaError::TypeMismatch(Field::Variances))
    ));
}

#[test]
fn boolean_variance_entry_is_type_mismatch() {
    let text = "[camera.detector]\n\
        type = \"checkerboard\"\n\
        width = 8\n\
        height = 6\n\
        edge_length = 0.025\n\
        variances = [true, 1e-6, 1e-6]\n\
        [camera.descriptor]\n\
        type = \"detector_defined\"\n";
    let err = load_object_space_config_str(text).unwrap_err();
    assert!(matches!(
        err,
        ConfigError::Schema(SchemaError::TypeMismatch(Field::Variances))
    ));
}

#[test]
fn zero_width_is_invalid_value() {
    let text = "[camera.detector]\n\
        type = \"checkerboard\"\n\
        width = 0\n\
        height = 6\n\
        edge_length = 0.025\n\
        variances = [1e-6, 1e-6, 1e-6]\n\
        [camera.descriptor]\n\
        type = \"detector_defined\"\n";
    let err = load_object_space_config_str(text).unwrap_err();
    assert!(matches!(
        err,
        ConfigError::Schema(SchemaError::InvalidValue(Constraint::WidthPositive))
    ));
}

#[test]
fn negative_height_is_invalid_value() {
    let text = "[camera.detector]\n\
        type = \"checkerboard\"\n\
        width = 8\n\
        height = -2\n\
        edge_length = 0.025\n\
        variances = [1e-6, 1e-6, 1e-6]\n\
        [camera.descriptor]\n\
        type = \"detector_defined\"\n";
    let err = load_object_space_config_str(text).unwrap_err();
    assert!(matches!(
        err,
        ConfigError::Schema(SchemaError::InvalidValue(Constraint::HeightPositive))
    ));
}

#[test]
fn zero_edge_length_is_invalid_value() {
    let text = "[camera.detector]\n\
        type = \"checkerboard\"\n\
        width = 8\n\
        height = 6\n\
        edge_length = 0.0\n\
        variances = [1e-6, 1e-6, 1e-6]\n\
        [camera.descriptor]\n\
        type = \"detector_defined\"\n";
    let err = load_object_space_config_str(text).unwrap_err();
    assert!(matches!(
        err,
        ConfigError::Schema(SchemaError::InvalidValue(Constraint::EdgeLengthPositive))
    ));
}

#[test]
fn nan_edge_length_is_invalid_value() {
    let text = "[camera.detector]\n\
        type = \"checkerboard\"\n\
        width = 8\n\
        height = 6\n\
        edge_length = nan\n\
        variances = [1e-6, 1e-6, 1e-6]\n\
        [camera.descriptor]\n\
        type = \"detector_defined\"\n";
    let err = load_object_space_config_str(text).unwrap_err();
    assert!(matches!(
        err,
        ConfigError::Schema(SchemaError::InvalidValue(Constraint::EdgeLengthPositive))
    ));
}

#[test]
fn zero_marker_length_is_invalid_value() {
    let text = "[camera.detector]\n\
        type = \"charuco\"\n\
        width = 8\n\
        height = 6\n\
        edge_length = 0.025\n\
        marker_length = 0.0\n\
        variances = [1e-6, 1e-6, 1e-6]\n\
        [camera.descriptor]\n\
        type = \"detector_defined\"\n";
    let err = load_object_space_config_str(text).unwrap_err();
    assert!(matches!(
        err,
        ConfigError::Schema(SchemaError::InvalidValue(Constraint::MarkerLengthPositive))
    ));
}

#[test]
fn two_variances_is_invalid_value() {
    let text = "[camera.detector]\n\
        type = \"checkerboard\"\n\
        width = 8\n\
        height = 6\n\
        edge_length = 0.025\n\
        variances = [1e-6, 1e-6]\n\
        [camera.descriptor]\n\
        type = \"detector_defined\"\n";
    let err = load_object_space_config_str(text).unwrap_err();
    assert!(matches!(
        err,
        ConfigError::Schema(SchemaError::InvalidValue(Constraint::VariancesLengthThree))
    ));
}

#[test]
fn negative_variance_is_invalid_value() {
    let text = "[camera.detector]\n\
        type = \"checkerboard\"\n\
        width = 8\n\
        height = 6\n\
        edge_length = 0.025\n\
        variances = [1e-6, -1e-6, 1e-6]\n\
        [camera.descriptor]\n\
        type = \"detector_defined\"\n";
    let err = load_object_space_config_str(text).unwrap_err();
    assert!(matches!(
        err,
        ConfigError::Schema(SchemaError::InvalidValue(Constraint::VarianceNonNegative))
    ));
}

#[test]
fn negative_zero_variance_is_accepted() {
    let text = "[camera.detector]\n\
        type = \"checkerboard\"\n\
        width = 8\n\
        height = 6\n\
        edge_length = 0.025\n\
        variances = [0.0, -0.0, 0.0]\n\
        [camera.descriptor]\n\
        type = \"detector_defined\"\n";
    assert!(load_object_space_config_str(text).is_ok());
}

#[test]
fn integer_accepted_where_float_required() {
    let text = "[camera.detector]\n\
        type = \"checkerboard\"\n\
        width = 8\n\
        height = 6\n\
        edge_length = 1\n\
        variances = [1e-6, 1e-6, 1e-6]\n\
        [camera.descriptor]\n\
        type = \"detector_defined\"\n";
    let c = load_object_space_config_str(text).unwrap();
    match &c.camera.detector {
        Detector::Checkerboard { edge_length, .. } => {
            assert_eq!(edge_length.bits, 1.0f64.to_bits());
        },
        Detector::Charuco { .. } => panic!("decoded the wrong variant"),
    }
}

#[test]
fn float_rejected_where_integer_required() {
    let text = "[camera.detector]\n\
        type = \"checkerboard\"\n\
        width = 8.0\n\
        height = 6\n\
        edge_length = 0.025\n\
        variances = [1e-6, 1e-6, 1e-6]\n\
        [camera.descriptor]\n\
        type = \"detector_defined\"\n";
    let err = load_object_space_config_str(text).unwrap_err();
    assert!(matches!(
        err,
        ConfigError::Schema(SchemaError::TypeMismatch(Field::Width))
    ));
}

fn sample_checkerboard() -> ObjectSpaceConfig {
    ObjectSpaceConfig {
        camera: DetectorDescriptor {
            detector: Detector::Checkerboard {
                width: 8,
                height: 6,
                edge_length: fb(0.025),
                variances: vec![fb(1e-6), fb(1e-6), fb(1e-6)],
            },
            descriptor: Descriptor::DetectorDefined,
        },
    }
}

fn sample_charuco() -> ObjectSpaceConfig {
    ObjectSpaceConfig {
        camera: DetectorDescriptor {
            detector: Detector::Charuco {
                width: 12,
                height: 9,
                edge_length: fb(0.04),
                marker_length: fb(0.03),
                variances: vec![fb(2e-6), fb(3e-6), fb(4e-6)],
            },
            descriptor: Descriptor::DetectorDefined,
        },
    }
}

#[test]
fn tree_round_trip_checkerboard() {
    let c = sample_checkerboard();
    let tree = encode_document(&c);
    let back = decode_document(&tree).unwrap();
    assert!(back == c);
}

#[test]
fn tree_round_trip_charuco() {
    let c = sample_charuco();
    let tree = encode_document(&c);
    let back = decode_document(&tree).unwrap();
    assert!(back == c);
}

#[test]
fn text_round_trip_checkerboard() {
    let c = sample_checkerboard();
    let text = toml::to_string(&node_to_value(&encode_document(&c))).unwrap();
    let back = load_object_space_config_str(&text).unwrap();
    assert!(back == c);
}

#[test]
fn text_round_trip_charuco() {
    let c = sample_charuco();
    let text = toml::to_string(&node_to_value(&encode_document(&c))).unwrap();
    let back = load_object_space_config_str(&text).unwrap();
    assert!(back == c);
}

#[test]
fn validate_reports_first_violation() {
    let mut c = sample_charuco();
    assert!(validate_config(&c).is_none());
    match &mut c.camera.detector {
        Detector::Charuco { marker_length, edge_length, .. } => {
            *marker_length = fb(0.05);
            *edge_length = fb(0.04);
        },
        Detector::Checkerboard { .. } => panic!("expected the charuco sample"),
    }
    assert_eq!(validate_config(&c), Some(Constraint::MarkerBelowEdge));
}

#[test]
fn parse_document_yields_the_tree() {
    let t = parse_document("x = 1\n").unwrap();
    match t {
        Node::Table(es) => {
            assert_eq!(es.len(), 1);
            assert_eq!(es[0].0, "x");
            assert!(matches!(es[0].1, Node::Int(1)));
        },
        other => panic!("expected a table, got {:?}", other),
    }
}

#[test]
fn charuco_without_marker_length_is_missing_field() {
    let text = "[camera.detector]\n\
        type = \"charuco\"\n\
        width = 8\n\
        height = 6\n\
        edge_length = 0.025\n\
        variances = [1e-6, 1e-6, 1e-6]\n\
        [camera.descriptor]\n\
        type = \"detector_defined\"\n";
    let err = load_object_space_config_str(text).unwrap_err();
    assert!(matches!(
        err,
        ConfigError::Schema(SchemaError::MissingField(Field::MarkerLength))
    ));
}

#[test]
fn checkerboard_with_marker_length_is_unexpected_field() {
    let text = "[camera.detector]\n\
        type = \"checkerboard\"\n\
        width = 8\n\
        height = 6\n\
        edge_length = 0.025\n\
        marker_length = 0.02\n\
        variances = [1e-6, 1e-6, 1e-6]\n\
        [camera.descriptor]\n\
        type = \"detector_defined\"\n";
    let err = load_object_space_config_str(text).unwrap_err();
    match err {
        ConfigError::Schema(SchemaError::UnexpectedField(Field::Detector, k)) => {
            assert_eq!(k, "marker_length");
        },
        other => panic!("expected an unexpected-field error, got {:?}", other),
    }
}

#[test]
fn error_kinds_are_distinguishable() {
    let r = ConfigError::Resource("no such file".to_owned());
    let s = ConfigError::Syntax("bad text".to_owned());
    let k = ConfigError::Schema(SchemaError::MissingField(Field::Camera));
    assert!(matches!(r, ConfigError::Resource(_)));
    assert!(!matches!(r, ConfigError::Syntax(_)));
    assert!(!matches!(r, ConfigError::Schema(_)));
    assert!(matches!(s, ConfigError::Syntax(_)));
    assert!(matches!(k, ConfigError::Schema(_)));
}
