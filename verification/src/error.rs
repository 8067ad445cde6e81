use vstd::prelude::*;

use crate::schema::Constraint;

verus! {

/// A place in the document that an error can point at: a declared field,
/// or one of the two tagged blocks, or the document itself.
#[derive(Clone, Copy, Debug, PartialEq, Eq, Structural)]
pub enum Field {
    /// The whole document.
    Document,
    /// The top-level `camera` table.
    Camera,
    /// The `detector` block of a pairing.
    Detector,
    /// The `descriptor` block of a pairing.
    Descriptor,
    /// The `width` field of a detector.
    Width,
    /// The `height` field of a detector.
    Height,
    /// The `edge_length` field of a detector.
    EdgeLength,
    /// The `marker_length` field of a ChArUco detector.
    MarkerLength,
    /// The `variances` field of a detector.
    Variances,
}

/// A violation of the configuration schema: the text parsed, but its
/// structure does not fit the declared shape, or a semantic constraint
/// fails.
#[derive(Debug)]
pub enum SchemaError {
    /// A key appeared that is not in the declared field set of the named
    /// site; the offending key is carried along.
    UnexpectedField(Field, String),
    /// A required field is absent.
    MissingField(Field),
    /// A tagged block carries no `type` key.
    MissingDiscriminator(Field),
    /// A tagged block's `type` key is not a string.
    NonStringDiscriminator(Field),
    /// A tagged block's `type` tag names no known variant; the tag is
    /// carried along.
    UnknownVariant(Field, String),
    /// A field's value has the wrong shape for its declared type.
    TypeMismatch(Field),
    /// A structurally well-formed configuration violates the named
    /// semantic constraint.
    InvalidValue(Constraint),
}

/// Mathematical model of a schema error, with keys and tags as character
/// sequences.
pub enum SpecSchemaError {
    UnexpectedField(Field, Seq<char>),
    MissingField(Field),
    MissingDiscriminator(Field),
    NonStringDiscriminator(Field),
    UnknownVariant(Field, Seq<char>),
    TypeMismatch(Field),
    InvalidValue(Constraint),
}

impl View for SchemaError {
    type V = SpecSchemaError;

    open spec fn view(&self) -> SpecSchemaError {
        match self {
            SchemaError::UnexpectedField(f, k) => SpecSchemaError::UnexpectedField(*f, k@),
            SchemaError::MissingField(f) => SpecSchemaError::MissingField(*f),
            SchemaError::MissingDiscriminator(f) => SpecSchemaError::MissingDiscriminator(*f),
            SchemaError::NonStringDiscriminator(f) => SpecSchemaError::NonStringDiscriminator(*f),
            SchemaError::UnknownVariant(f, s) => SpecSchemaError::UnknownVariant(*f, s@),
            SchemaError::TypeMismatch(f) => SpecSchemaError::TypeMismatch(*f),
            SchemaError::InvalidValue(c) => SpecSchemaError::InvalidValue(*c),
        }
    }
}

/// The terminal error of a load: the source could not be read, the text
/// is not well-formed, or the tree does not conform to the schema.  The
/// three kinds are distinguishable programmatically, and the underlying
/// diagnostic is preserved rather than flattened.
#[derive(Debug)]
pub enum ConfigError {
    /// The source text could not be obtained; carries the reader's own
    /// diagnostic.
    Resource(String),
    /// The text is not well-formed in the configuration format; carries
    /// the parser's own diagnostic.
    Syntax(String),
    /// The text parsed but does not conform to the schema.
    Schema(SchemaError),
}

/// Mathematical model of a terminal load error.
pub enum SpecConfigError {
    Resource(Seq<char>),
    Syntax(Seq<char>),
    Schema(SpecSchemaError),
}

impl View for ConfigError {
    type V = SpecConfigError;

    open spec fn view(&self) -> SpecConfigError {
        match self {
            ConfigError::Resource(m) => SpecConfigError::Resource(m@),
            ConfigError::Syntax(m) => SpecConfigError::Syntax(m@),
            ConfigError::Schema(e) => SpecConfigError::Schema(e@),
        }
    }
}

} // verus!
