use vstd::prelude::*;

use crate::error::{Field, SchemaError, SpecSchemaError};
use crate::float_bits::FloatBits;
use crate::loader::{float_bits_of_int, spec_float_bits_of_int};
use crate::schema::{
    ConfigModel, Descriptor, Detector, DetectorDescriptor, DetectorModel, ObjectSpaceConfig,
    PairModel, config_first_violation, config_valid, lemma_first_violation_none, validate_config,
};
use crate::tree::{
    KeySet, Node, first_bad_key, find_bad_key, key_allowed, lemma_first_bad_key_some, lookup,
    lookup_entry,
};

verus! {

/// The integer a scalar node carries, if it is an integer.
pub open spec fn int_value(n: Node) -> Option<i64> {
    match n {
        Node::Int(i) => Some(i),
        _ => None,
    }
}

/// The float a scalar node carries, if it is numeric.  An integer is
/// admitted where a float is required and converts to the nearest
/// binary64.
pub open spec fn float_value(n: Node) -> Option<FloatBits> {
    match n {
        Node::Float(f) => Some(f),
        Node::Int(i) => Some(FloatBits { bits: spec_float_bits_of_int(i) }),
        _ => None,
    }
}

/// Every element of the sequence is a numeric scalar.
pub open spec fn all_numeric(ns: Seq<Node>) -> bool {
    forall|i: int| 0 <= i < ns.len() ==> (#[trigger] float_value(ns[i])) is Some
}

/// The floats carried by a sequence of numeric scalars.
pub open spec fn numeric_seq(ns: Seq<Node>) -> Seq<FloatBits> {
    Seq::new(ns.len(), |i: int| float_value(ns[i]).unwrap())
}

/// The float sequence an array node carries, if it is an array of
/// numeric scalars.
pub open spec fn float_array_value(n: Node) -> Option<Seq<FloatBits>> {
    match n {
        Node::Array(a) => if all_numeric(a@) {
            Some(numeric_seq(a@))
        } else {
            None
        },
        _ => None,
    }
}

/// Structural decoding of a detector block's fields, after its tag has
/// selected the variant.  Checks, in order: every required field present,
/// no key outside the variant's declared set, and every field of the
/// right shape, naming the first offence.
pub open spec fn spec_decode_fields(es: Seq<(String, Node)>, charuco: bool) -> Result<
    DetectorModel,
    SpecSchemaError,
> {
    if lookup(es, "width"@) is None {
        Err(SpecSchemaError::MissingField(Field::Width))
    } else if lookup(es, "height"@) is None {
        Err(SpecSchemaError::MissingField(Field::Height))
    } else if lookup(es, "edge_length"@) is None {
        Err(SpecSchemaError::MissingField(Field::EdgeLength))
    } else if charuco && lookup(es, "marker_length"@) is None {
        Err(SpecSchemaError::MissingField(Field::MarkerLength))
    } else if lookup(es, "variances"@) is None {
        Err(SpecSchemaError::MissingField(Field::Variances))
    } else {
        match first_bad_key(es, if charuco { KeySet::Charuco } else { KeySet::Checkerboard }) {
            Some(k) => Err(SpecSchemaError::UnexpectedField(Field::Detector, k)),
            None => {
                if int_value(lookup(es, "width"@).unwrap()) is None {
                    Err(SpecSchemaError::TypeMismatch(Field::Width))
                } else if int_value(lookup(es, "height"@).unwrap()) is None {
                    Err(SpecSchemaError::TypeMismatch(Field::Height))
                } else if float_value(lookup(es, "edge_length"@).unwrap()) is None {
                    Err(SpecSchemaError::TypeMismatch(Field::EdgeLength))
                } else if charuco && float_value(lookup(es, "marker_length"@).unwrap()) is None {
                    Err(SpecSchemaError::TypeMismatch(Field::MarkerLength))
                } else if float_array_value(lookup(es, "variances"@).unwrap()) is None {
                    Err(SpecSchemaError::TypeMismatch(Field::Variances))
                } else {
                    let width = int_value(lookup(es, "width"@).unwrap()).unwrap();
                    let height = int_value(lookup(es, "height"@).unwrap()).unwrap();
                    let edge_length = float_value(lookup(es, "edge_length"@).unwrap()).unwrap();
                    let variances = float_array_value(lookup(es, "variances"@).unwrap()).unwrap();
                    if charuco {
                        Ok(
                            DetectorModel::Charuco {
                                width,
                                height,
                                edge_length,
                                marker_length: float_value(
                                    lookup(es, "marker_length"@).unwrap(),
                                ).unwrap(),
                                variances,
                            },
                        )
                    } else {
                        Ok(DetectorModel::Checkerboard { width, height, edge_length, variances })
                    }
                }
            },
        }
    }
}

/// Structural decoding of a detector block: the node must be a table, its
/// `type` tag must be a string naming a known variant, and the variant's
/// field rules must hold.
pub open spec fn spec_decode_detector(t: Node) -> Result<DetectorModel, SpecSchemaError> {
    match t {
        Node::Table(es) => match lookup(es@, "type"@) {
            None => Err(SpecSchemaError::MissingDiscriminator(Field::Detector)),
            Some(tag) => match tag {
                Node::Str(s) => if s@ == "checkerboard"@ {
                    spec_decode_fields(es@, false)
                } else if s@ == "charuco"@ {
                    spec_decode_fields(es@, true)
                } else {
                    Err(SpecSchemaError::UnknownVariant(Field::Detector, s@))
                },
                _ => Err(SpecSchemaError::NonStringDiscriminator(Field::Detector)),
            },
        },
        _ => Err(SpecSchemaError::TypeMismatch(Field::Detector)),
    }
}

/// Structural decoding of a descriptor block: a table whose `type` tag is
/// the string `detector_defined` and which carries no other key.
pub open spec fn spec_decode_descriptor(t: Node) -> Result<Descriptor, SpecSchemaError> {
    match t {
        Node::Table(es) => match lookup(es@, "type"@) {
            None => Err(SpecSchemaError::MissingDiscriminator(Field::Descriptor)),
            Some(tag) => match tag {
                Node::Str(s) => if s@ == "detector_defined"@ {
                    match first_bad_key(es@, KeySet::DescriptorBlock) {
                        Some(k) => Err(SpecSchemaError::UnexpectedField(Field::Descriptor, k)),
                        None => Ok(Descriptor::DetectorDefined),
                    }
                } else {
                    Err(SpecSchemaError::UnknownVariant(Field::Descriptor, s@))
                },
                _ => Err(SpecSchemaError::NonStringDiscriminator(Field::Descriptor)),
            },
        },
        _ => Err(SpecSchemaError::TypeMismatch(Field::Descriptor)),
    }
}

/// Structural decoding of a detector-descriptor pairing: a table with
/// exactly the keys `detector` and `descriptor`, each a well-formed block.
pub open spec fn spec_decode_pair(t: Node) -> Result<PairModel, SpecSchemaError> {
    match t {
        Node::Table(es) => {
            if lookup(es@, "detector"@) is None {
                Err(SpecSchemaError::MissingField(Field::Detector))
            } else if lookup(es@, "descriptor"@) is None {
                Err(SpecSchemaError::MissingField(Field::Descriptor))
            } else {
                match first_bad_key(es@, KeySet::Pairing) {
                    Some(k) => Err(SpecSchemaError::UnexpectedField(Field::Camera, k)),
                    None => match spec_decode_detector(lookup(es@, "detector"@).unwrap()) {
                        Err(e) => Err(e),
                        Ok(d) => match spec_decode_descriptor(
                            lookup(es@, "descriptor"@).unwrap(),
                        ) {
                            Err(e) => Err(e),
                            Ok(ds) => Ok(PairModel { detector: d, descriptor: ds }),
                        },
                    },
                }
            }
        },
        _ => Err(SpecSchemaError::TypeMismatch(Field::Camera)),
    }
}

/// Structural decoding of a whole document: a table with exactly the key
/// `camera`, holding a detector-descriptor pairing.
pub open spec fn spec_decode_document(t: Node) -> Result<ConfigModel, SpecSchemaError> {
    match t {
        Node::Table(es) => {
            if lookup(es@, "camera"@) is None {
                Err(SpecSchemaError::MissingField(Field::Camera))
            } else {
                match first_bad_key(es@, KeySet::TopLevel) {
                    Some(k) => Err(SpecSchemaError::UnexpectedField(Field::Document, k)),
                    None => match spec_decode_pair(lookup(es@, "camera"@).unwrap()) {
                        Err(e) => Err(e),
                        Ok(p) => Ok(ConfigModel { camera: p }),
                    },
                }
            }
        },
        _ => Err(SpecSchemaError::TypeMismatch(Field::Document)),
    }
}

/// Full decoding of a document tree: structural decoding first, then the
/// semantic constraints; the first violated constraint becomes the error.
pub open spec fn spec_load_document(t: Node) -> Result<ConfigModel, SpecSchemaError> {
    match spec_decode_document(t) {
        Err(e) => Err(e),
        Ok(m) => match config_first_violation(m) {
            Some(c) => Err(SpecSchemaError::InvalidValue(c)),
            None => Ok(m),
        },
    }
}

/// The executable result mirrors the mathematical one, value for value.
pub open spec fn config_result_matches(
    r: Result<ObjectSpaceConfig, SchemaError>,
    s: Result<ConfigModel, SpecSchemaError>,
) -> bool {
    match (r, s) {
        (Ok(c), Ok(m)) => c@ == m,
        (Err(e), Err(se)) => e@ == se,
        _ => false,
    }
}

/// As `config_result_matches`, for a detector block.
pub open spec fn detector_result_matches(
    r: Result<Detector, SchemaError>,
    s: Result<DetectorModel, SpecSchemaError>,
) -> bool {
    match (r, s) {
        (Ok(d), Ok(m)) => d@ == m,
        (Err(e), Err(se)) => e@ == se,
        _ => false,
    }
}

/// As `config_result_matches`, for a descriptor block.
pub open spec fn descriptor_result_matches(
    r: Result<Descriptor, SchemaError>,
    s: Result<Descriptor, SpecSchemaError>,
) -> bool {
    match (r, s) {
        (Ok(d), Ok(m)) => d == m,
        (Err(e), Err(se)) => e@ == se,
        _ => false,
    }
}

/// As `config_result_matches`, for a detector-descriptor pairing.
pub open spec fn pair_result_matches(
    r: Result<DetectorDescriptor, SchemaError>,
    s: Result<PairModel, SpecSchemaError>,
) -> bool {
    match (r, s) {
        (Ok(p), Ok(m)) => p@ == m,
        (Err(e), Err(se)) => e@ == se,
        _ => false,
    }
}

/// Read a numeric scalar as a float.
fn decode_numeric(n: &Node) -> (r: Option<FloatBits>)
    ensures
        r == float_value(*n),
{
    match n {
        Node::Float(f) => Some(*f),
        Node::Int(i) => Some(FloatBits { bits: float_bits_of_int(*i) }),
        _ => None,
    }
}

/// Read an array of numeric scalars as a float vector.
fn decode_variances(a: &Vec<Node>) -> (r: Option<Vec<FloatBits>>)
    ensures
        match r {
            Some(v) => all_numeric(a@) && v@ == numeric_seq(a@),
            None => !all_numeric(a@),
        },
{
    let mut out: Vec<FloatBits> = Vec::new();
    let mut i: usize = 0;
    while i < a.len()
        invariant
            i <= a.len(),
            out@.len() == i as int,
            forall|j: int| 0 <= j < i ==> (#[trigger] float_value(a@[j])) is Some,
            forall|j: int| 0 <= j < i ==> out@[j] == float_value(a@[j]).unwrap(),
        decreases a.len() - i,
    {
        match decode_numeric(&a[i]) {
            Some(f) => {
                out.push(f);
            },
            None => {
                assert(!all_numeric(a@)) by {
                    assert(float_value(a@[i as int]) is None);
                }
                return None;
            },
        }
        i += 1;
    }
    proof {
        assert(out@ =~= numeric_seq(a@));
    }
    Some(out)
}

/// Decode the fields of a detector block once its tag has selected the
/// variant (`charuco` tells which one).
fn decode_fields(es: &Vec<(String, Node)>, charuco: bool) -> (r: Result<Detector, SchemaError>)
    ensures
        detector_result_matches(r, spec_decode_fields(es@, charuco)),
{
    let wi = match lookup_entry(es, &"width".to_owned()) {
        Some(i) => i,
        None => {
            return Err(SchemaError::MissingField(Field::Width));
        },
    };
    let hi = match lookup_entry(es, &"height".to_owned()) {
        Some(i) => i,
        None => {
            return Err(SchemaError::MissingField(Field::Height));
        },
    };
    let ei = match lookup_entry(es, &"edge_length".to_owned()) {
        Some(i) => i,
        None => {
            return Err(SchemaError::MissingField(Field::EdgeLength));
        },
    };
    let mi: Option<usize> = if charuco {
        match lookup_entry(es, &"marker_length".to_owned()) {
            Some(i) => Some(i),
            None => {
                return Err(SchemaError::MissingField(Field::MarkerLength));
            },
        }
    } else {
        None
    };
    let vi = match lookup_entry(es, &"variances".to_owned()) {
        Some(i) => i,
        None => {
            return Err(SchemaError::MissingField(Field::Variances));
        },
    };
    match find_bad_key(es, if charuco { KeySet::Charuco } else { KeySet::Checkerboard }) {
        Some(k) => {
            return Err(SchemaError::UnexpectedField(Field::Detector, k));
        },
        None => {},
    }
    let width = match &es[wi].1 {
        Node::Int(v) => *v,
        _ => {
            return Err(SchemaError::TypeMismatch(Field::Width));
        },
    };
    let height = match &es[hi].1 {
        Node::Int(v) => *v,
        _ => {
            return Err(SchemaError::TypeMismatch(Field::Height));
        },
    };
    let edge_length = match decode_numeric(&es[ei].1) {
        Some(f) => f,
        None => {
            return Err(SchemaError::TypeMismatch(Field::EdgeLength));
        },
    };
    let marker_length: FloatBits = if charuco {
        match decode_numeric(&es[mi.unwrap()].1) {
            Some(f) => f,
            None => {
                return Err(SchemaError::TypeMismatch(Field::MarkerLength));
            },
        }
    } else {
        FloatBits { bits: 0 }
    };
    let variances = match &es[vi].1 {
        Node::Array(a) => match decode_variances(a) {
            Some(v) => v,
            None => {
                return Err(SchemaError::TypeMismatch(Field::Variances));
            },
        },
        _ => {
            return Err(SchemaError::TypeMismatch(Field::Variances));
        },
    };
    if charuco {
        Ok(Detector::Charuco { width, height, edge_length, marker_length, variances })
    } else {
        Ok(Detector::Checkerboard { width, height, edge_length, variances })
    }
}

/// Decode a detector block.
pub fn decode_detector(t: &Node) -> (r: Result<Detector, SchemaError>)
    ensures
        detector_result_matches(r, spec_decode_detector(*t)),
{
    let es = match t {
        Node::Table(es) => es,
        _ => {
            return Err(SchemaError::TypeMismatch(Field::Detector));
        },
    };
    let ti = match lookup_entry(es, &"type".to_owned()) {
        Some(i) => i,
        None => {
            return Err(SchemaError::MissingDiscriminator(Field::Detector));
        },
    };
    let s = match &es[ti].1 {
        Node::Str(s) => s,
        _ => {
            return Err(SchemaError::NonStringDiscriminator(Field::Detector));
        },
    };
    if *s == "checkerboard".to_owned() {
        decode_fields(es, false)
    } else if *s == "charuco".to_owned() {
        decode_fields(es, true)
    } else {
        Err(SchemaError::UnknownVariant(Field::Detector, s.clone()))
    }
}

/// Decode a descriptor block.
pub fn decode_descriptor(t: &Node) -> (r: Result<Descriptor, SchemaError>)
    ensures
        descriptor_result_matches(r, spec_decode_descriptor(*t)),
{
    let es = match t {
        Node::Table(es) => es,
        _ => {
            return Err(SchemaError::TypeMismatch(Field::Descriptor));
        },
    };
    let ti = match lookup_entry(es, &"type".to_owned()) {
        Some(i) => i,
        None => {
            return Err(SchemaError::MissingDiscriminator(Field::Descriptor));
        },
    };
    let s = match &es[ti].1 {
        Node::Str(s) => s,
        _ => {
            return Err(SchemaError::NonStringDiscriminator(Field::Descriptor));
        },
    };
    if *s == "detector_defined".to_owned() {
        match find_bad_key(es, KeySet::DescriptorBlock) {
            Some(k) => Err(SchemaError::UnexpectedField(Field::Descriptor, k)),
            None => Ok(Descriptor::DetectorDefined),
        }
    } else {
        Err(SchemaError::UnknownVariant(Field::Descriptor, s.clone()))
    }
}

/// Decode a detector-descriptor pairing.
pub fn decode_pair(t: &Node) -> (r: Result<DetectorDescriptor, SchemaError>)
    ensures
        pair_result_matches(r, spec_decode_pair(*t)),
{
    let es = match t {
        Node::Table(es) => es,
        _ => {
            return Err(SchemaError::TypeMismatch(Field::Camera));
        },
    };
    let di = match lookup_entry(es, &"detector".to_owned()) {
        Some(i) => i,
        None => {
            return Err(SchemaError::MissingField(Field::Detector));
        },
    };
    let si = match lookup_entry(es, &"descriptor".to_owned()) {
        Some(i) => i,
        None => {
            return Err(SchemaError::MissingField(Field::Descriptor));
        },
    };
    match find_bad_key(es, KeySet::Pairing) {
        Some(k) => {
            return Err(SchemaError::UnexpectedField(Field::Camera, k));
        },
        None => {},
    }
    let detector = match decode_detector(&es[di].1) {
        Ok(d) => d,
        Err(e) => {
            return Err(e);
        },
    };
    let descriptor = match decode_descriptor(&es[si].1) {
        Ok(d) => d,
        Err(e) => {
            return Err(e);
        },
    };
    Ok(DetectorDescriptor { detector, descriptor })
}

/// Decode a document tree structurally, without the semantic constraints.
fn decode_document_structure(t: &Node) -> (r: Result<ObjectSpaceConfig, SchemaError>)
    ensures
        config_result_matches(r, spec_decode_document(*t)),
{
    let es = match t {
        Node::Table(es) => es,
        _ => {
            return Err(SchemaError::TypeMismatch(Field::Document));
        },
    };
    let ci = match lookup_entry(es, &"camera".to_owned()) {
        Some(i) => i,
        None => {
            return Err(SchemaError::MissingField(Field::Camera));
        },
    };
    match find_bad_key(es, KeySet::TopLevel) {
        Some(k) => {
            return Err(SchemaError::UnexpectedField(Field::Document, k));
        },
        None => {},
    }
    match decode_pair(&es[ci].1) {
        Ok(p) => Ok(ObjectSpaceConfig { camera: p }),
        Err(e) => Err(e),
    }
}

/// Decode a document tree into a validated configuration: the strict
/// structural walk first, then the semantic constraints.
pub fn decode_document(t: &Node) -> (r: Result<ObjectSpaceConfig, SchemaError>)
    ensures
        config_result_matches(r, spec_load_document(*t)),
{
    let c = match decode_document_structure(t) {
        Ok(c) => c,
        Err(e) => {
            return Err(e);
        },
    };
    match validate_config(&c) {
        Some(k) => Err(SchemaError::InvalidValue(k)),
        None => Ok(c),
    }
}

/// Law: a configuration that loads is semantically valid — no invalid or
/// partial configuration is ever accepted.
pub proof fn lemma_loaded_config_valid(t: Node, m: ConfigModel)
    requires
        spec_load_document(t) == Ok::<ConfigModel, SpecSchemaError>(m),
    ensures
        config_valid(m),
{
    lemma_first_violation_none(m.camera.detector);
}

/// Law: a key other than `camera` at the top level of a document makes
/// loading fail with a schema error, whatever else the document holds.
pub proof fn lemma_unknown_top_level_key_rejected(t: Node, i: int)
    requires
        t matches Node::Table(es) && 0 <= i < es@.len() && es@[i].0@ != "camera"@,
    ensures
        spec_load_document(t) is Err,
{
    let es = t->Table_0;
    if lookup(es@, "camera"@) is Some {
        lemma_first_bad_key_some(es@, KeySet::TopLevel, i);
    }
}

/// Law: a key other than `detector` or `descriptor` inside the `camera`
/// table makes loading fail with a schema error, whatever else the
/// document holds.
pub proof fn lemma_unknown_pairing_key_rejected(t: Node, pt: Node, i: int)
    requires
        t matches Node::Table(es) && lookup(es@, "camera"@) == Some(pt),
        pt matches Node::Table(ps) && 0 <= i < ps@.len() && ps@[i].0@ != "detector"@ && ps@[i].0@
            != "descriptor"@,
    ensures
        spec_load_document(t) is Err,
{
    let es = t->Table_0;
    let ps = pt->Table_0;
    if first_bad_key(es@, KeySet::TopLevel) is None {
        if lookup(ps@, "detector"@) is Some && lookup(ps@, "descriptor"@) is Some {
            lemma_first_bad_key_some(ps@, KeySet::Pairing, i);
        }
    }
}

/// Law: a key outside the declared field set of either detector variant
/// (and other than the `type` tag itself) inside the detector block makes
/// loading fail with a schema error, whichever variant the tag selects
/// and whatever else the document holds.
pub proof fn lemma_unknown_detector_key_rejected(t: Node, pt: Node, dt: Node, i: int)
    requires
        t matches Node::Table(es) && lookup(es@, "camera"@) == Some(pt),
        pt matches Node::Table(ps) && lookup(ps@, "detector"@) == Some(dt),
        dt matches Node::Table(ds) && 0 <= i < ds@.len() && !key_allowed(
            KeySet::Charuco,
            ds@[i].0@,
        ),
    ensures
        spec_load_document(t) is Err,
{
    let es = t->Table_0;
    let ps = pt->Table_0;
    let ds = dt->Table_0;
    if first_bad_key(es@, KeySet::TopLevel) is None {
        if lookup(ps@, "descriptor"@) is Some && first_bad_key(ps@, KeySet::Pairing) is None {
            match lookup(ds@, "type"@) {
                Some(tag) => match tag {
                    Node::Str(s) => {
                        if s@ == "checkerboard"@ {
                            lemma_first_bad_key_some(ds@, KeySet::Checkerboard, i);
                        } else if s@ == "charuco"@ {
                            lemma_first_bad_key_some(ds@, KeySet::Charuco, i);
                        }
                    },
                    _ => {},
                },
                None => {},
            }
        }
    }
}

/// Law: a key other than the `type` tag inside the descriptor block makes
/// loading fail with a schema error, whatever else the document holds.
pub proof fn lemma_unknown_descriptor_key_rejected(t: Node, pt: Node, st: Node, i: int)
    requires
        t matches Node::Table(es) && lookup(es@, "camera"@) == Some(pt),
        pt matches Node::Table(ps) && lookup(ps@, "descriptor"@) == Some(st),
        st matches Node::Table(ss) && 0 <= i < ss@.len() && ss@[i].0@ != "type"@,
    ensures
        spec_load_document(t) is Err,
{
    let es = t->Table_0;
    let ps = pt->Table_0;
    let ss = st->Table_0;
    if first_bad_key(es@, KeySet::TopLevel) is None {
        if lookup(ps@, "detector"@) is Some && first_bad_key(ps@, KeySet::Pairing) is None {
            if spec_decode_detector(lookup(ps@, "detector"@).unwrap()) is Ok {
                match lookup(ss@, "type"@) {
                    Some(tag) => match tag {
                        Node::Str(s) => {
                            if s@ == "detector_defined"@ {
                                lemma_first_bad_key_some(ss@, KeySet::DescriptorBlock, i);
                            }
                        },
                        _ => {},
                    },
                    None => {},
                }
            }
        }
    }
}

/// Law: a detector block whose `type` tag is absent, not a string, or
/// not a known variant name is rejected with exactly the corresponding
/// discriminator error — never a generic failure — once the document
/// around it is otherwise in shape.
pub proof fn lemma_detector_tag_problems(t: Node, pt: Node, dt: Node)
    requires
        t matches Node::Table(es) && first_bad_key(es@, KeySet::TopLevel) is None && lookup(
            es@,
            "camera"@,
        ) == Some(pt),
        pt matches Node::Table(ps) && lookup(ps@, "detector"@) == Some(dt) && lookup(
            ps@,
            "descriptor"@,
        ) is Some && first_bad_key(ps@, KeySet::Pairing) is None,
        dt matches Node::Table(ds),
    ensures
        lookup(dt->Table_0@, "type"@) is None ==> spec_load_document(t) == Err::<
            ConfigModel,
            SpecSchemaError,
        >(SpecSchemaError::MissingDiscriminator(Field::Detector)),
        (lookup(dt->Table_0@, "type"@) matches Some(tag) && !(tag is Str)) ==> spec_load_document(
            t,
        ) == Err::<ConfigModel, SpecSchemaError>(
            SpecSchemaError::NonStringDiscriminator(Field::Detector),
        ),
        (lookup(dt->Table_0@, "type"@) matches Some(tag) && tag matches Node::Str(s) && s@
            != "checkerboard"@ && s@ != "charuco"@) ==> spec_load_document(t) == Err::<
            ConfigModel,
            SpecSchemaError,
        >(SpecSchemaError::UnknownVariant(Field::Detector, lookup(dt->Table_0@, "type"@)->Some_0->Str_0@)),
{
}

} // verus!
