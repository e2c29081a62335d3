use vstd::prelude::*;

verus! {

/// Mathematical shape of a parsed JSON value, as far as this library reads
/// one: a string, an object with its entries in the object's iteration
/// order, or any other kind of value.
pub ghost enum JsonNode {
    Str(Seq<char>),
    Object(Seq<(Seq<char>, JsonNode)>),
    Leaf,
}

#[verifier::external_type_specification]
#[verifier::external_body]
pub struct ExJsonValue(serde_json::Value);

/// The node a `serde_json::Value` stands for.
pub uninterp spec fn json_node(v: serde_json::Value) -> JsonNode;

/// What parsing a text as JSON yields: the node of the parsed value, or the
/// parse error's display text. Both depend on the text alone.
pub uninterp spec fn parsed_json(text: Seq<char>) -> Result<JsonNode, Seq<char>>;

/// The nodes of a vector of object entries.
pub open spec fn json_entry_nodes(list: Seq<(String, serde_json::Value)>) -> Seq<
    (Seq<char>, JsonNode),
> {
    list.map_values(|p: (String, serde_json::Value)| (p.0@, json_node(p.1)))
}

/// Relies on serde_json::from_str::<serde_json::Value>, which parses a JSON
/// text, and on serde_json::Error's display text; both are functions of the
/// text alone.
#[verifier::external_body]
pub(crate) fn json_parse(text: &str) -> (r: Result<serde_json::Value, String>)
    ensures
        match r {
            Ok(v) => parsed_json(text@) == Ok::<JsonNode, Seq<char>>(json_node(v)),
            Err(m) => parsed_json(text@) == Err::<JsonNode, Seq<char>>(m@),
        },
{
    serde_json::from_str::<serde_json::Value>(text).map_err(|e| e.to_string())
}

/// Relies on serde_json::Value::as_str: the payload iff the value is a JSON
/// string.
#[verifier::external_body]
pub(crate) fn json_as_str(v: &serde_json::Value) -> (r: Option<&str>)
    ensures
        match json_node(*v) {
            JsonNode::Str(s) => r matches Some(t) && t@ == s,
            _ => r is None,
        },
{
    v.as_str()
}

/// Relies on serde_json::Value::as_object and serde_json::Map::iter: the
/// object's entries in iteration order, or `None` when the value is not an
/// object. The keys and values are copied out with their Clone, which
/// keeps their content.
#[verifier::external_body]
pub(crate) fn json_entries(v: &serde_json::Value) -> (r: Option<
    Vec<(String, serde_json::Value)>,
>)
    ensures
        match json_node(*v) {
            JsonNode::Object(es) => r matches Some(list) && json_entry_nodes(list@) == es,
            _ => r is None,
        },
{
    match v.as_object() {
        Some(m) => Some(m.iter().map(|(k, val)| (k.clone(), val.clone())).collect()),
        None => None,
    }
}

} // verus!
