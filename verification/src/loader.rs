use vstd::prelude::*;

use crate::decode::{decode_document, spec_load_document};
use crate::error::{ConfigError, SpecConfigError};
use crate::float_bits::FloatBits;
use crate::schema::ObjectSpaceConfig;
use crate::tree::Node;

verus! {

#[verifier::external_type_specification]
#[verifier::external_body]
pub struct ExTomlValue(toml::Value);

/// The tree that the TOML parser yields for a text, carried over into
/// `Node`, or nothing when the text is not well-formed TOML.  Parsing is
/// deterministic, so the tree is a function of the text alone.
pub uninterp spec fn toml_tree_of(s: Seq<char>) -> Option<Node>;

/// The bits of the binary64 value nearest to the given integer, as the
/// IEEE-754 round-to-nearest conversion fixes it.
pub uninterp spec fn spec_float_bits_of_int(i: i64) -> u64;

/// Relies on the built-in IEEE-754 conversion from `i64` to binary64
/// (the cast toml's float type forces here): total, and a function of
/// the argument alone.
#[verifier::external_body]
pub(crate) fn float_bits_of_int(i: i64) -> (r: u64)
    ensures
        r == spec_float_bits_of_int(i),
{
    match toml::Value::Float(i as _) {
        toml::Value::Float(f) => f.to_bits(),
        _ => 0,
    }
}

/// Relies on the shape of `toml::Value`: carries a parsed value over into
/// the crate's own tree, variant by variant.  Table entries come out in
/// the order toml's map iterates them; a date-time keeps only its kind.
#[verifier::external_body]
fn value_to_node(v: toml::Value) -> Node {
    match v {
        toml::Value::String(s) => Node::Str(s),
        toml::Value::Integer(i) => Node::Int(i),
        toml::Value::Float(f) => Node::Float(FloatBits { bits: f.to_bits() }),
        toml::Value::Boolean(b) => Node::Bool(b),
        toml::Value::Datetime(_) => Node::Datetime,
        toml::Value::Array(a) => Node::Array(a.into_iter().map(value_to_node).collect()),
        toml::Value::Table(t) => Node::Table(
            t.into_iter().map(|e| (e.0, value_to_node(e.1))).collect(),
        ),
    }
}

/// Relies on toml's document parser (`toml::Value`'s `FromStr`, that is
/// `toml::from_str`): a well-formed document always parses to a table,
/// and a failure carries the parser's own positional diagnostic.
#[verifier::external_body]
fn parse_toml(text: &str) -> (r: Result<Node, String>)
    ensures
        (r matches Ok(t) ==> toml_tree_of(text@) == Some(t) && t is Table),
        (r matches Err(_) ==> toml_tree_of(text@) is None),
{
    match text.parse::<toml::Value>() {
        Ok(v) => Ok(value_to_node(v)),
        Err(e) => Err(e.to_string()),
    }
}

/// Parse a configuration text into the generic structured tree, with a
/// syntax failure carrying the parser's diagnostic.
pub fn parse_document(text: &str) -> (r: Result<Node, ConfigError>)
    ensures
        match r {
            Ok(t) => toml_tree_of(text@) == Some(t) && t is Table,
            Err(e) => toml_tree_of(text@) is None && e@ is Syntax,
        },
{
    match parse_toml(text) {
        Ok(t) => Ok(t),
        Err(m) => Err(ConfigError::Syntax(m)),
    }
}

/// Load a configuration from its text: parse, then decode and validate.
///
/// Text that is not well-formed fails with a syntax error; text whose
/// tree does not fit the schema, or violates a semantic constraint, fails
/// with exactly the schema error that `spec_load_document` fixes for that
/// tree.
pub fn load_object_space_config_str(text: &str) -> (r: Result<ObjectSpaceConfig, ConfigError>)
    ensures
        match toml_tree_of(text@) {
            None => r matches Err(e) && e@ is Syntax,
            Some(t) => match (r, spec_load_document(t)) {
                (Ok(c), Ok(m)) => c@ == m,
                (Err(e), Err(se)) => e@ == SpecConfigError::Schema(se),
                _ => false,
            },
        },
{
    let t = match parse_document(text) {
        Ok(t) => t,
        Err(e) => {
            return Err(e);
        },
    };
    match decode_document(&t) {
        Ok(c) => Ok(c),
        Err(e) => Err(ConfigError::Schema(e)),
    }
}

} // verus!
