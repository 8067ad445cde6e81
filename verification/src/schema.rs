use vstd::prelude::*;

use crate::float_bits::{FloatBits, float_is_non_negative, float_is_positive, float_lt};

verus! {

/// The possible object-space configurations.
///
/// A configuration pairs a detector with a descriptor for each component
/// type within the system.  At the present time only cameras are supported.
#[derive(Debug)]
pub struct ObjectSpaceConfig {
    /// Configuration for camera components.
    pub camera: DetectorDescriptor,
}

/// The detector-descriptor pairing for a camera.
#[derive(Debug)]
pub struct DetectorDescriptor {
    /// The detector to use on observations from the parent component type.
    pub detector: Detector,
    /// The descriptor defining the object space observed with the detector.
    pub descriptor: Descriptor,
}

/// The possible detectors that can be used on component observations, and
/// their parameters.
#[derive(Debug)]
pub enum Detector {
    /// Detector for a checkerboard within a camera image.
    Checkerboard {
        /// Number of checker squares horizontally on the board.
        width: i64,
        /// Number of checker squares vertically on the board.
        height: i64,
        /// Size of one edge of a checker square, in metres.
        edge_length: FloatBits,
        /// The variances (X/Y/Z) of object-space points, in metres^2.
        variances: Vec<FloatBits>,
    },
    /// Detector for a ChArUco board within a camera image.
    Charuco {
        /// Number of checker squares horizontally on the board.
        width: i64,
        /// Number of checker squares vertically on the board.
        height: i64,
        /// Size of one edge of a checker square, in metres.
        edge_length: FloatBits,
        /// Size of one edge of the ArUco markers in the board.
        /// Must be smaller than `edge_length`.
        marker_length: FloatBits,
        /// The variances (X/Y/Z) of object-space points, in metres^2.
        variances: Vec<FloatBits>,
    },
}

/// The possible descriptors for the object space detected in an image.
#[derive(Clone, Copy, Debug, PartialEq, Eq, Structural)]
pub enum Descriptor {
    /// The descriptor is defined in terms of the detector and its parameters.
    DetectorDefined,
}

/// Mathematical model of a configuration: the same shape with sequences in
/// place of vectors, so that contracts can state equality extensionally.
#[verifier::ext_equal]
pub struct ConfigModel {
    pub camera: PairModel,
}

/// Mathematical model of a detector-descriptor pairing.
#[verifier::ext_equal]
pub struct PairModel {
    pub detector: DetectorModel,
    pub descriptor: Descriptor,
}

/// Mathematical model of a detector.
#[verifier::ext_equal]
pub enum DetectorModel {
    Checkerboard {
        width: i64,
        height: i64,
        edge_length: FloatBits,
        variances: Seq<FloatBits>,
    },
    Charuco {
        width: i64,
        height: i64,
        edge_length: FloatBits,
        marker_length: FloatBits,
        variances: Seq<FloatBits>,
    },
}

impl View for Detector {
    type V = DetectorModel;

    open spec fn view(&self) -> DetectorModel {
        match self {
            Detector::Checkerboard { width, height, edge_length, variances } => (
                DetectorModel::Checkerboard {
                    width: *width,
                    height: *height,
                    edge_length: *edge_length,
                    variances: variances@,
                }
            ),
            Detector::Charuco { width, height, edge_length, marker_length, variances } => (
                DetectorModel::Charuco {
                    width: *width,
                    height: *height,
                    edge_length: *edge_length,
                    marker_length: *marker_length,
                    variances: variances@,
                }
            ),
        }
    }
}

impl View for DetectorDescriptor {
    type V = PairModel;

    open spec fn view(&self) -> PairModel {
        PairModel { detector: self.detector@, descriptor: self.descriptor }
    }
}

impl View for ObjectSpaceConfig {
    type V = ConfigModel;

    open spec fn view(&self) -> ConfigModel {
        ConfigModel { camera: self.camera@ }
    }
}

/// A semantic constraint that a structurally well-formed configuration can
/// still violate.
#[derive(Clone, Copy, Debug, PartialEq, Eq, Structural)]
pub enum Constraint {
    /// `width` must be strictly positive.
    WidthPositive,
    /// `height` must be strictly positive.
    HeightPositive,
    /// `edge_length` must be strictly positive.
    EdgeLengthPositive,
    /// `marker_length` must be strictly positive.
    MarkerLengthPositive,
    /// `marker_length` must be strictly smaller than `edge_length`.
    MarkerBelowEdge,
    /// `variances` must hold exactly three entries (X/Y/Z).
    VariancesLengthThree,
    /// Every entry of `variances` must be non-negative.
    VarianceNonNegative,
}

/// Every entry of a variance sequence is non-negative.
pub open spec fn variances_non_negative(vs: Seq<FloatBits>) -> bool {
    forall|i: int| 0 <= i < vs.len() ==> float_is_non_negative(#[trigger] vs[i])
}

/// The semantic invariants of a detector: positive board dimensions and
/// edge length, exactly three non-negative variances, and for a ChArUco
/// board a positive marker length strictly below the edge length.
pub open spec fn detector_valid(d: DetectorModel) -> bool {
    match d {
        DetectorModel::Checkerboard { width, height, edge_length, variances } => {
            &&& width > 0
            &&& height > 0
            &&& float_is_positive(edge_length)
            &&& variances.len() == 3
            &&& variances_non_negative(variances)
        },
        DetectorModel::Charuco { width, height, edge_length, marker_length, variances } => {
            &&& width > 0
            &&& height > 0
            &&& float_is_positive(edge_length)
            &&& float_is_positive(marker_length)
            &&& float_lt(marker_length, edge_length)
            &&& variances.len() == 3
            &&& variances_non_negative(variances)
        },
    }
}

/// The semantic invariants of a whole configuration.  The single
/// descriptor variant carries no parameters, so only the detector
/// contributes constraints.
pub open spec fn config_valid(m: ConfigModel) -> bool {
    detector_valid(m.camera.detector)
}

/// The first violated constraint of a detector, in the order the fields
/// are declared; `None` when the detector is semantically valid.
pub open spec fn first_violation(d: DetectorModel) -> Option<Constraint> {
    match d {
        DetectorModel::Checkerboard { width, height, edge_length, variances } => {
            if width <= 0 {
                Some(Constraint::WidthPositive)
            } else if height <= 0 {
                Some(Constraint::HeightPositive)
            } else if !float_is_positive(edge_length) {
                Some(Constraint::EdgeLengthPositive)
            } else if variances.len() != 3 {
                Some(Constraint::VariancesLengthThree)
            } else if !variances_non_negative(variances) {
                Some(Constraint::VarianceNonNegative)
            } else {
                None
            }
        },
        DetectorModel::Charuco { width, height, edge_length, marker_length, variances } => {
            if width <= 0 {
                Some(Constraint::WidthPositive)
            } else if height <= 0 {
                Some(Constraint::HeightPositive)
            } else if !float_is_positive(edge_length) {
                Some(Constraint::EdgeLengthPositive)
            } else if !float_is_positive(marker_length) {
                Some(Constraint::MarkerLengthPositive)
            } else if !float_lt(marker_length, edge_length) {
                Some(Constraint::MarkerBelowEdge)
            } else if variances.len() != 3 {
                Some(Constraint::VariancesLengthThree)
            } else if !variances_non_negative(variances) {
                Some(Constraint::VarianceNonNegative)
            } else {
                None
            }
        },
    }
}

/// The first violated constraint of a configuration.
pub open spec fn config_first_violation(m: ConfigModel) -> Option<Constraint> {
    first_violation(m.camera.detector)
}

/// A valid detector has no violated constraint, and conversely.
pub proof fn lemma_first_violation_none(d: DetectorModel)
    ensures
        first_violation(d) is None <==> detector_valid(d),
{
}

/// Check every entry of a variance vector for non-negativity.
fn variances_all_non_negative(vs: &Vec<FloatBits>) -> (r: bool)
    ensures
        r == variances_non_negative(vs@),
{
    let mut i: usize = 0;
    while i < vs.len()
        invariant
            i <= vs.len(),
            forall|j: int| 0 <= j < i ==> float_is_non_negative(#[trigger] vs@[j]),
        decreases vs.len() - i,
    {
        if !vs[i].is_non_negative() {
            return false;
        }
        i += 1;
    }
    true
}

/// Report the first violated semantic constraint of a detector, in
/// declaration order, or `None` when all constraints hold.
pub fn validate_detector(d: &Detector) -> (r: Option<Constraint>)
    ensures
        r == first_violation(d@),
{
    match d {
        Detector::Checkerboard { width, height, edge_length, variances } => {
            if *width <= 0 {
                Some(Constraint::WidthPositive)
            } else if *height <= 0 {
                Some(Constraint::HeightPositive)
            } else if !edge_length.is_positive() {
                Some(Constraint::EdgeLengthPositive)
            } else if variances.len() != 3 {
                Some(Constraint::VariancesLengthThree)
            } else if !variances_all_non_negative(variances) {
                Some(Constraint::VarianceNonNegative)
            } else {
                None
            }
        },
        Detector::Charuco { width, height, edge_length, marker_length, variances } => {
            if *width <= 0 {
                Some(Constraint::WidthPositive)
            } else if *height <= 0 {
                Some(Constraint::HeightPositive)
            } else if !edge_length.is_positive() {
                Some(Constraint::EdgeLengthPositive)
            } else if !marker_length.is_positive() {
                Some(Constraint::MarkerLengthPositive)
            } else if !marker_length.lt(edge_length) {
                Some(Constraint::MarkerBelowEdge)
            } else if variances.len() != 3 {
                Some(Constraint::VariancesLengthThree)
            } else if !variances_all_non_negative(variances) {
                Some(Constraint::VarianceNonNegative)
            } else {
                None
            }
        },
    }
}

/// Report the first violated semantic constraint of a configuration.
pub fn validate_config(c: &ObjectSpaceConfig) -> (r: Option<Constraint>)
    ensures
        r == config_first_violation(c@),
{
    validate_detector(&c.camera.detector)
}

/// Compare two variance vectors entry by entry.
fn variances_eq(a: &Vec<FloatBits>, b: &Vec<FloatBits>) -> (r: bool)
    ensures
        r == (a@ == b@),
{
    if a.len() != b.len() {
        proof {
            assert(a@.len() != b@.len());
        }
        return false;
    }
    let mut i: usize = 0;
    while i < a.len()
        invariant
            i <= a.len(),
            a@.len() == b@.len(),
            forall|j: int| 0 <= j < i ==> a@[j] == b@[j],
        decreases a.len() - i,
    {
        if !(a[i] == b[i]) {
            return false;
        }
        i += 1;
    }
    proof {
        assert(a@ =~= b@);
    }
    true
}

impl PartialEq for Detector {
    /// Structural equality on the variant and all its fields.
    fn eq(&self, other: &Detector) -> (r: bool) {
        match (self, other) {
            (
                Detector::Checkerboard { width: w1, height: h1, edge_length: e1, variances: v1 },
                Detector::Checkerboard { width: w2, height: h2, edge_length: e2, variances: v2 },
            ) => *w1 == *w2 && *h1 == *h2 && *e1 == *e2 && variances_eq(v1, v2),
            (
                Detector::Charuco {
                    width: w1,
                    height: h1,
                    edge_length: e1,
                    marker_length: m1,
                    variances: v1,
                },
                Detector::Charuco {
                    width: w2,
                    height: h2,
                    edge_length: e2,
                    marker_length: m2,
                    variances: v2,
                },
            ) => *w1 == *w2 && *h1 == *h2 && *e1 == *e2 && *m1 == *m2 && variances_eq(v1, v2),
            _ => false,
        }
    }
}

impl vstd::std_specs::cmp::PartialEqSpecImpl for Detector {
    open spec fn obeys_eq_spec() -> bool {
        true
    }

    open spec fn eq_spec(&self, other: &Detector) -> bool {
        self@ == other@
    }
}

impl PartialEq for DetectorDescriptor {
    /// Structural equality on both halves of the pairing.
    fn eq(&self, other: &DetectorDescriptor) -> (r: bool) {
        self.detector == other.detector && self.descriptor == other.descriptor
    }
}

impl vstd::std_specs::cmp::PartialEqSpecImpl for DetectorDescriptor {
    open spec fn obeys_eq_spec() -> bool {
        true
    }

    open spec fn eq_spec(&self, other: &DetectorDescriptor) -> bool {
        self@ == other@
    }
}

impl PartialEq for ObjectSpaceConfig {
    /// Structural equality on every field of the configuration.
    fn eq(&self, other: &ObjectSpaceConfig) -> (r: bool) {
        self.camera == other.camera
    }
}

impl vstd::std_specs::cmp::PartialEqSpecImpl for ObjectSpaceConfig {
    open spec fn obeys_eq_spec() -> bool {
        true
    }

    open spec fn eq_spec(&self, other: &ObjectSpaceConfig) -> bool {
        self@ == other@
    }
}

} // verus!
