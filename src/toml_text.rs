//! What this library takes from the `toml` crate: parsing a document.
use crate::node::Node;
use vstd::prelude::*;

verus! {

#[verifier::external_type_specification]
#[verifier::external_body]
pub struct ExTomlValue(toml::Value);

#[verifier::external_type_specification]
#[verifier::external_body]
pub struct ExTomlError(toml::de::Error);

/// The tree that the `toml` crate parses `text` into, or `None` where it
/// rejects the text as TOML.
pub uninterp spec fn toml_document(text: Seq<char>) -> Option<Node>;

/// Relies on `toml::from_str::<toml::Value>`: parses a whole TOML document,
/// with a result that depends on the text alone. Tables keep the order of the
/// text (the crate's `preserve_order` feature).
#[verifier::external_body]
pub(crate) fn parse_toml(text: &str) -> (r: Result<Node, toml::de::Error>)
    ensures
        r is Ok <==> toml_document(text@) is Some,
        r is Ok ==> toml_document(text@) == Some(r->Ok_0),
{
    toml::from_str::<toml::Value>(text).map(node_of)
}

/// Turns a `toml::Value` into a `Node`, variant for variant, keeping the order
/// of each table's entries as `toml::map::Map::into_iter` yields them.
#[verifier::external_body]
fn node_of(v: toml::Value) -> Node {
    match v {
        toml::Value::String(s) => Node::Str(s),
        toml::Value::Integer(i) => Node::Integer(i),
        toml::Value::Float(_) => Node::Float,
        toml::Value::Boolean(b) => Node::Boolean(b),
        toml::Value::Datetime(_) => Node::Datetime,
        toml::Value::Array(a) => Node::Array(a.into_iter().map(node_of).collect()),
        toml::Value::Table(t) => Node::Table(t.into_iter().map(|(k, e)| (k, node_of(e))).collect()),
    }
}

} // verus!
