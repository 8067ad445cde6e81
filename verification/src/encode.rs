use vstd::prelude::*;

use crate::decode::{
    all_numeric, float_value, numeric_seq, spec_decode_descriptor, spec_decode_detector,
    spec_decode_document, spec_decode_fields, spec_decode_pair, spec_load_document,
};
use crate::error::SpecSchemaError;
use crate::float_bits::{FloatBits, float_is_positive, float_lt};
use crate::schema::{
    ConfigModel, Descriptor, Detector, DetectorDescriptor, DetectorModel, ObjectSpaceConfig,
    PairModel, config_valid, variances_non_negative,
};
use crate::tree::{KeySet, Node, key_allowed, lemma_first_bad_key_none, lemma_lookup_present};

verus! {

/// The node is the canonical encoding of a descriptor: a table holding
/// exactly its `type` tag.
pub open spec fn encodes_descriptor(d: Descriptor, t: Node) -> bool {
    t matches Node::Table(es) && {
        &&& es@.len() == 1
        &&& es@[0].0@ == "type"@
        &&& es@[0].1 matches Node::Str(s) && s@ == "detector_defined"@
    }
}

/// The node is an array of float scalars carrying exactly `vs`.
pub open spec fn encodes_variances(vs: Seq<FloatBits>, n: Node) -> bool {
    n matches Node::Array(a) && {
        &&& a@.len() == vs.len()
        &&& forall|i: int| 0 <= i < vs.len() ==> a@[i] == Node::Float(vs[i])
    }
}

/// The node is the canonical encoding of a detector: a table holding the
/// variant's tag and its fields, in declaration order.
pub open spec fn encodes_detector(d: DetectorModel, t: Node) -> bool {
    match d {
        DetectorModel::Checkerboard { width, height, edge_length, variances } => (
            t matches Node::Table(es) && {
            &&& es@.len() == 5
            &&& es@[0].0@ == "type"@
            &&& es@[0].1 matches Node::Str(s) && s@ == "checkerboard"@
            &&& es@[1].0@ == "width"@ && es@[1].1 == Node::Int(width)
            &&& es@[2].0@ == "height"@ && es@[2].1 == Node::Int(height)
            &&& es@[3].0@ == "edge_length"@ && es@[3].1 == Node::Float(edge_length)
            &&& es@[4].0@ == "variances"@ && encodes_variances(variances, es@[4].1)
            }
        ),
        DetectorModel::Charuco { width, height, edge_length, marker_length, variances } => (
            t matches Node::Table(es) && {
            &&& es@.len() == 6
            &&& es@[0].0@ == "type"@
            &&& es@[0].1 matches Node::Str(s) && s@ == "charuco"@
            &&& es@[1].0@ == "width"@ && es@[1].1 == Node::Int(width)
            &&& es@[2].0@ == "height"@ && es@[2].1 == Node::Int(height)
            &&& es@[3].0@ == "edge_length"@ && es@[3].1 == Node::Float(edge_length)
            &&& es@[4].0@ == "marker_length"@ && es@[4].1 == Node::Float(marker_length)
            &&& es@[5].0@ == "variances"@ && encodes_variances(variances, es@[5].1)
            }
        ),
    }
}

/// The node is the canonical encoding of a detector-descriptor pairing.
pub open spec fn encodes_pair(p: PairModel, t: Node) -> bool {
    t matches Node::Table(es) && {
        &&& es@.len() == 2
        &&& es@[0].0@ == "detector"@ && encodes_detector(p.detector, es@[0].1)
        &&& es@[1].0@ == "descriptor"@ && encodes_descriptor(p.descriptor, es@[1].1)
    }
}

/// The node is the canonical encoding of a whole configuration: a table
/// holding exactly the `camera` pairing.
pub open spec fn encodes(m: ConfigModel, t: Node) -> bool {
    t matches Node::Table(es) && {
        &&& es@.len() == 1
        &&& es@[0].0@ == "camera"@ && encodes_pair(m.camera, es@[0].1)
    }
}

/// Encode a variance vector as an array of float scalars.
fn encode_variances(vs: &Vec<FloatBits>) -> (n: Node)
    ensures
        encodes_variances(vs@, n),
{
    let mut a: Vec<Node> = Vec::new();
    let mut i: usize = 0;
    while i < vs.len()
        invariant
            i <= vs.len(),
            a@.len() == i as int,
            forall|j: int| 0 <= j < i ==> a@[j] == Node::Float(vs@[j]),
        decreases vs.len() - i,
    {
        a.push(Node::Float(vs[i]));
        i += 1;
    }
    Node::Array(a)
}

/// Encode a detector as its canonical table.
pub fn encode_detector(d: &Detector) -> (n: Node)
    ensures
        encodes_detector(d@, n),
{
    match d {
        Detector::Checkerboard { width, height, edge_length, variances } => {
            let mut es: Vec<(String, Node)> = Vec::new();
            es.push(("type".to_owned(), Node::Str("checkerboard".to_owned())));
            es.push(("width".to_owned(), Node::Int(*width)));
            es.push(("height".to_owned(), Node::Int(*height)));
            es.push(("edge_length".to_owned(), Node::Float(*edge_length)));
            es.push(("variances".to_owned(), encode_variances(variances)));
            Node::Table(es)
        },
        Detector::Charuco { width, height, edge_length, marker_length, variances } => {
            let mut es: Vec<(String, Node)> = Vec::new();
            es.push(("type".to_owned(), Node::Str("charuco".to_owned())));
            es.push(("width".to_owned(), Node::Int(*width)));
            es.push(("height".to_owned(), Node::Int(*height)));
            es.push(("edge_length".to_owned(), Node::Float(*edge_length)));
            es.push(("marker_length".to_owned(), Node::Float(*marker_length)));
            es.push(("variances".to_owned(), encode_variances(variances)));
            Node::Table(es)
        },
    }
}

/// Encode a detector-descriptor pairing as its canonical table.
pub fn encode_pair(p: &DetectorDescriptor) -> (n: Node)
    ensures
        encodes_pair(p@, n),
{
    let mut es: Vec<(String, Node)> = Vec::new();
    es.push(("detector".to_owned(), encode_detector(&p.detector)));
    let mut ds: Vec<(String, Node)> = Vec::new();
    ds.push(("type".to_owned(), Node::Str("detector_defined".to_owned())));
    es.push(("descriptor".to_owned(), Node::Table(ds)));
    Node::Table(es)
}

/// Encode a configuration as its canonical document tree.
pub fn encode_document(c: &ObjectSpaceConfig) -> (t: Node)
    ensures
        encodes(c@, t),
{
    let mut es: Vec<(String, Node)> = Vec::new();
    es.push(("camera".to_owned(), encode_pair(&c.camera)));
    Node::Table(es)
}

/// Decoding a descriptor's canonical table yields the descriptor back.
proof fn lemma_descriptor_round_trip(d: Descriptor, t: Node)
    requires
        encodes_descriptor(d, t),
    ensures
        spec_decode_descriptor(t) == Ok::<Descriptor, SpecSchemaError>(d),
{
    let es = t->Table_0;
    lemma_lookup_present(es@, 0, "type"@);
    assert forall|j: int| 0 <= j < es@.len() implies key_allowed(
        KeySet::DescriptorBlock,
        #[trigger] es@[j].0@,
    ) by {}
    lemma_first_bad_key_none(es@, KeySet::DescriptorBlock);
    assert(d is DetectorDefined);
}

/// Decoding a detector's canonical table yields the detector back,
/// field for field.
proof fn lemma_detector_round_trip(d: DetectorModel, t: Node)
    requires
        encodes_detector(d, t),
    ensures
        spec_decode_detector(t) == Ok::<DetectorModel, SpecSchemaError>(d),
{
    reveal_strlit("type");
    reveal_strlit("width");
    reveal_strlit("height");
    reveal_strlit("edge_length");
    reveal_strlit("marker_length");
    reveal_strlit("variances");
    assert("type"@.len() == 4);
    assert("width"@.len() == 5);
    assert("height"@.len() == 6);
    assert("edge_length"@.len() == 11);
    assert("marker_length"@.len() == 13);
    assert("variances"@.len() == 9);
    reveal_strlit("checkerboard");
    reveal_strlit("charuco");
    assert("checkerboard"@.len() == 12);
    assert("charuco"@.len() == 7);
    let es = t->Table_0;
    match d {
        DetectorModel::Checkerboard { width, height, edge_length, variances } => {
            lemma_lookup_present(es@, 0, "type"@);
            lemma_lookup_present(es@, 1, "width"@);
            lemma_lookup_present(es@, 2, "height"@);
            lemma_lookup_present(es@, 3, "edge_length"@);
            lemma_lookup_present(es@, 4, "variances"@);
            assert forall|j: int| 0 <= j < es@.len() implies key_allowed(
                KeySet::Checkerboard,
                #[trigger] es@[j].0@,
            ) by {}
            lemma_first_bad_key_none(es@, KeySet::Checkerboard);
            let an = es@[4].1->Array_0;
            assert forall|i: int| 0 <= i < an@.len() implies (#[trigger] float_value(
                an@[i],
            )) is Some by {
                assert(an@[i] == Node::Float(variances[i]));
            }
            assert(all_numeric(an@));
            assert forall|i: int| 0 <= i < an@.len() implies numeric_seq(an@)[i] == variances[i] by {
                assert(an@[i] == Node::Float(variances[i]));
            }
            assert(numeric_seq(an@) =~= variances);
            assert(spec_decode_fields(es@, false) == Ok::<DetectorModel, SpecSchemaError>(d));
        },
        DetectorModel::Charuco { width, height, edge_length, marker_length, variances } => {
            lemma_lookup_present(es@, 0, "type"@);
            lemma_lookup_present(es@, 1, "width"@);
            lemma_lookup_present(es@, 2, "height"@);
            lemma_lookup_present(es@, 3, "edge_length"@);
            lemma_lookup_present(es@, 4, "marker_length"@);
            lemma_lookup_present(es@, 5, "variances"@);
            assert forall|j: int| 0 <= j < es@.len() implies key_allowed(
                KeySet::Charuco,
                #[trigger] es@[j].0@,
            ) by {}
            lemma_first_bad_key_none(es@, KeySet::Charuco);
            let an = es@[5].1->Array_0;
            assert forall|i: int| 0 <= i < an@.len() implies (#[trigger] float_value(
                an@[i],
            )) is Some by {
                assert(an@[i] == Node::Float(variances[i]));
            }
            assert(all_numeric(an@));
            assert forall|i: int| 0 <= i < an@.len() implies numeric_seq(an@)[i] == variances[i] by {
                assert(an@[i] == Node::Float(variances[i]));
            }
            assert(numeric_seq(an@) =~= variances);
            assert(spec_decode_fields(es@, true) == Ok::<DetectorModel, SpecSchemaError>(d));
        },
    }
}

/// Decoding a pairing's canonical table yields the pairing back.
proof fn lemma_pair_round_trip(p: PairModel, t: Node)
    requires
        encodes_pair(p, t),
    ensures
        spec_decode_pair(t) == Ok::<PairModel, SpecSchemaError>(p),
{
    reveal_strlit("detector");
    reveal_strlit("descriptor");
    assert("detector"@.len() == 8);
    assert("descriptor"@.len() == 10);
    let es = t->Table_0;
    lemma_lookup_present(es@, 0, "detector"@);
    lemma_lookup_present(es@, 1, "descriptor"@);
    assert forall|j: int| 0 <= j < es@.len() implies key_allowed(
        KeySet::Pairing,
        #[trigger] es@[j].0@,
    ) by {}
    lemma_first_bad_key_none(es@, KeySet::Pairing);
    lemma_detector_round_trip(p.detector, es@[0].1);
    lemma_descriptor_round_trip(p.descriptor, es@[1].1);
}

/// Law: loading inverts encoding.  The canonical document tree of any
/// semantically valid configuration decodes and validates back to that
/// very configuration — every field comes back exactly, with no loss.
pub proof fn lemma_encode_then_decode(m: ConfigModel, t: Node)
    requires
        config_valid(m),
        encodes(m, t),
    ensures
        spec_load_document(t) == Ok::<ConfigModel, SpecSchemaError>(m),
{
    let es = t->Table_0;
    lemma_lookup_present(es@, 0, "camera"@);
    assert forall|j: int| 0 <= j < es@.len() implies key_allowed(
        KeySet::TopLevel,
        #[trigger] es@[j].0@,
    ) by {}
    lemma_first_bad_key_none(es@, KeySet::TopLevel);
    lemma_pair_round_trip(m.camera, es@[0].1);
    assert(spec_decode_document(t) == Ok::<ConfigModel, SpecSchemaError>(m));
}

/// Law: every valid checkerboard configuration loads.  For positive
/// board dimensions and edge length and three non-negative variances,
/// loading the canonical document succeeds and the decoded fields equal
/// the encoded values exactly.
pub proof fn lemma_valid_checkerboard_loads(m: ConfigModel, t: Node)
    requires
        m.camera.detector matches DetectorModel::Checkerboard {
            width,
            height,
            edge_length,
            variances,
        } && width > 0 && height > 0 && float_is_positive(edge_length) && variances.len() == 3
            && variances_non_negative(variances),
        encodes(m, t),
    ensures
        spec_load_document(t) == Ok::<ConfigModel, SpecSchemaError>(m),
{
    lemma_encode_then_decode(m, t);
}

/// Law: every valid ChArUco configuration loads.  In addition to the
/// checkerboard constraints, the marker length is positive and strictly
/// below the edge length.
pub proof fn lemma_valid_charuco_loads(m: ConfigModel, t: Node)
    requires
        m.camera.detector matches DetectorModel::Charuco {
            width,
            height,
            edge_length,
            marker_length,
            variances,
        } && width > 0 && height > 0 && float_is_positive(edge_length) && float_is_positive(
            marker_length,
        ) && float_lt(marker_length, edge_length) && variances.len() == 3
            && variances_non_negative(variances),
        encodes(m, t),
    ensures
        spec_load_document(t) == Ok::<ConfigModel, SpecSchemaError>(m),
{
    lemma_encode_then_decode(m, t);
}

} // verus!
