use vstd::prelude::*;

verus! {

/// Mathematical shape of a parsed TOML value, as far as this library reads
/// one: a string, a table of entries in the table's iteration order, or any
/// other kind of value. The second field of `Table`, like the payload of
/// `Leaf`, is the value's TOML text rendering.
pub ghost enum TomlNode {
    Str(Seq<char>),
    Table(Seq<(Seq<char>, TomlNode)>, Seq<char>),
    Leaf(Seq<char>),
}

#[verifier::external_type_specification]
#[verifier::external_body]
pub struct ExTomlValue(toml::Value);

/// The node a `toml::Value` stands for.
pub uninterp spec fn toml_node(v: toml::Value) -> TomlNode;

/// What parsing a text as a TOML document yields: the node of the parsed
/// value, or the parse error's display text. Both depend on the text alone.
pub uninterp spec fn parsed_toml(text: Seq<char>) -> Result<TomlNode, Seq<char>>;

/// The nodes of a vector of table entries.
pub open spec fn toml_entry_nodes(list: Seq<(String, toml::Value)>) -> Seq<(Seq<char>, TomlNode)> {
    list.map_values(|p: (String, toml::Value)| (p.0@, toml_node(p.1)))
}

/// Relies on toml::from_str::<toml::Value>, which parses a TOML document,
/// and on toml::de::Error's display text; both are functions of the text
/// alone.
#[verifier::external_body]
pub(crate) fn toml_parse(text: &str) -> (r: Result<toml::Value, String>)
    ensures
        match r {
            Ok(v) => parsed_toml(text@) == Ok::<TomlNode, Seq<char>>(toml_node(v)),
            Err(m) => parsed_toml(text@) == Err::<TomlNode, Seq<char>>(m@),
        },
{
    toml::from_str::<toml::Value>(text).map_err(|e| e.to_string())
}

/// Relies on toml::Value::as_str: the payload iff the value is a TOML
/// string.
#[verifier::external_body]
pub(crate) fn toml_as_str(v: &toml::Value) -> (r: Option<&str>)
    ensures
        match toml_node(*v) {
            TomlNode::Str(s) => r matches Some(t) && t@ == s,
            _ => r is None,
        },
{
    v.as_str()
}

/// Relies on toml::Value::as_table and toml::map::Map::iter: the table's
/// entries in iteration order, or `None` when the value is not a table.
/// The keys and values are copied out with their derived Clone, which
/// keeps their content.
#[verifier::external_body]
pub(crate) fn toml_entries(v: &toml::Value) -> (r: Option<Vec<(String, toml::Value)>>)
    ensures
        match toml_node(*v) {
            TomlNode::Table(es, _) => r matches Some(list) && toml_entry_nodes(list@) == es,
            _ => r is None,
        },
{
    match v.as_table() {
        Some(t) => Some(t.iter().map(|(k, val)| (k.clone(), val.clone())).collect()),
        None => None,
    }
}

/// Relies on toml::Value's display text, a function of the value alone; the
/// model carries that text for every value that is not a TOML string.
#[verifier::external_body]
pub(crate) fn toml_render(v: &toml::Value) -> (r: String)
    ensures
        match toml_node(*v) {
            TomlNode::Table(_, t) => r@ == t,
            TomlNode::Leaf(t) => r@ == t,
            TomlNode::Str(_) => true,
        },
{
    v.to_string()
}

} // verus!
