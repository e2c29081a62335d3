use vstd::prelude::*;
use vstd::string::StringExecFns;

use crate::assoc::{assoc_lookup, find_entry, lemma_lookup_hit, lemma_lookup_miss};
use crate::record::{
    opt_str_view, DepValueView, DependencyValue, ManifestSource, RepoMetadata, RepoView,
    SourceView,
};
use crate::toml_doc::{
    parsed_toml, toml_as_str, toml_entries, toml_entry_nodes, toml_node, toml_parse, toml_render,
    TomlNode,
};

verus! {

/// What ecosystem-A manifest extraction found: the optional `package`
/// fields and the optional dependency table.
pub struct CargoManifest {
    pub package_name: Option<String>,
    pub version: Option<String>,
    pub edition: Option<String>,
    pub dependencies: Option<Vec<(String, DependencyValue)>>,
}

#[verifier::ext_equal]
pub ghost struct CargoManifestView {
    pub package_name: Option<Seq<char>>,
    pub version: Option<Seq<char>>,
    pub edition: Option<Seq<char>>,
    pub dependencies: Option<Seq<(Seq<char>, DepValueView)>>,
}

impl View for CargoManifest {
    type V = CargoManifestView;

    open spec fn view(&self) -> CargoManifestView {
        CargoManifestView {
            package_name: opt_str_view(self.package_name),
            version: opt_str_view(self.version),
            edition: opt_str_view(self.edition),
            dependencies: match self.dependencies {
                Some(d) => Some(crate::record::deps_view(d@)),
                None => None,
            },
        }
    }
}

/// How one dependency declaration is kept: a plain string becomes a version
/// requirement, anything else is carried by its rendering.
pub open spec fn dep_value_of(n: TomlNode) -> DepValueView {
    match n {
        TomlNode::Str(s) => DepValueView::Version(s),
        TomlNode::Table(_, t) => DepValueView::Structured(t),
        TomlNode::Leaf(t) => DepValueView::Structured(t),
    }
}

pub open spec fn deps_of(es: Seq<(Seq<char>, TomlNode)>) -> Seq<(Seq<char>, DepValueView)> {
    es.map_values(|p: (Seq<char>, TomlNode)| (p.0, dep_value_of(p.1)))
}

/// The `package` section's required `name` and `version` and optional
/// `edition`, or why the section is rejected.
pub open spec fn cargo_package_of(pes: Seq<(Seq<char>, TomlNode)>) -> Result<
    (Seq<char>, Seq<char>, Option<Seq<char>>),
    Seq<char>,
> {
    match assoc_lookup(pes, "name"@) {
        Some(TomlNode::Str(n)) => match assoc_lookup(pes, "version"@) {
            Some(TomlNode::Str(v)) => match assoc_lookup(pes, "edition"@) {
                None => Ok((n, v, None)),
                Some(TomlNode::Str(e)) => Ok((n, v, Some(e))),
                Some(_) => Err("invalid type for field `package.edition`: expected a string"@),
            },
            Some(_) => Err("invalid type for field `package.version`: expected a string"@),
            None => Err("missing field `version` in `package`"@),
        },
        Some(_) => Err("invalid type for field `package.name`: expected a string"@),
        None => Err("missing field `name` in `package`"@),
    }
}

pub open spec fn cargo_package_part(es: Seq<(Seq<char>, TomlNode)>) -> Result<
    (Option<Seq<char>>, Option<Seq<char>>, Option<Seq<char>>),
    Seq<char>,
> {
    match assoc_lookup(es, "package"@) {
        None => Ok((None, None, None)),
        Some(TomlNode::Table(pes, _)) => match cargo_package_of(pes) {
            Ok((n, v, e)) => Ok((Some(n), Some(v), e)),
            Err(m) => Err(m),
        },
        Some(_) => Err("invalid type for field `package`: expected a table"@),
    }
}

pub open spec fn cargo_deps_part(es: Seq<(Seq<char>, TomlNode)>) -> Result<
    Option<Seq<(Seq<char>, DepValueView)>>,
    Seq<char>,
> {
    match assoc_lookup(es, "dependencies"@) {
        None => Ok(None),
        Some(TomlNode::Table(des, _)) => Ok(Some(deps_of(des))),
        Some(_) => Err("invalid type for field `dependencies`: expected a table"@),
    }
}

/// What a syntactically valid ecosystem-A manifest yields: the extracted
/// fields, or the first schema violation in reading order.
pub open spec fn cargo_of(doc: TomlNode) -> Result<CargoManifestView, Seq<char>> {
    match doc {
        TomlNode::Table(es, _) => match cargo_package_part(es) {
            Err(m) => Err(m),
            Ok((pn, pv, pe)) => match cargo_deps_part(es) {
                Err(m) => Err(m),
                Ok(d) => Ok(
                    CargoManifestView {
                        package_name: pn,
                        version: pv,
                        edition: pe,
                        dependencies: d,
                    },
                ),
            },
        },
        _ => Err("the manifest root is not a table"@),
    }
}

/// The record one ecosystem-A repository directory yields, as a function of
/// its name, its path, and how its manifest presented itself.
pub open spec fn rust_record(name: Seq<char>, path: Seq<char>, src: SourceView) -> RepoView {
    match src {
        SourceView::Missing => crate::record::base_record(
            name,
            "rust"@,
            path,
            Some("Cargo.toml not found"@),
        ),
        SourceView::ReadError(c) => crate::record::base_record(
            name,
            "rust"@,
            path,
            Some("Failed to read Cargo.toml: "@ + c),
        ),
        SourceView::Content(text) => match parsed_toml(text) {
            Err(c) => crate::record::base_record(
                name,
                "rust"@,
                path,
                Some("Failed to parse Cargo.toml: "@ + c),
            ),
            Ok(node) => match cargo_of(node) {
                Err(c) => crate::record::base_record(
                    name,
                    "rust"@,
                    path,
                    Some("Failed to parse Cargo.toml: "@ + c),
                ),
                Ok(m) => RepoView {
                    name: name,
                    repo_type: "rust"@,
                    path: path,
                    package_name: m.package_name,
                    version: m.version,
                    edition: m.edition,
                    dependencies: m.dependencies,
                    dev_dependencies: None,
                    parse_error: None,
                },
            },
        },
    }
}

/// Builds the record of one ecosystem-A repository directory from its name,
/// its path, and its manifest file's content or fate.
pub fn process_rust_repo(name: String, path: String, source: ManifestSource) -> (r: RepoMetadata)
    ensures
        r@ == rust_record(name@, path@, source@),
{
    let ghost src = source@;
    let (parse_error, manifest) = match source {
        ManifestSource::Missing => (Some("Cargo.toml not found".to_owned()), None),
        ManifestSource::ReadError(cause) => {
            let mut m = "Failed to read Cargo.toml: ".to_owned();
            m.append(cause.as_str());
            (Some(m), None)
        },
        ManifestSource::Content(text) => match toml_parse(text.as_str()) {
            Err(cause) => {
                let mut m = "Failed to parse Cargo.toml: ".to_owned();
                m.append(cause.as_str());
                (Some(m), None)
            },
            Ok(value) => match extract_cargo(&value) {
                Err(cause) => {
                    let mut m = "Failed to parse Cargo.toml: ".to_owned();
                    m.append(cause.as_str());
                    (Some(m), None)
                },
                Ok(manifest) => (None, Some(manifest)),
            },
        },
    };
    let r = match manifest {
        None => RepoMetadata {
            name,
            repo_type: "rust".to_owned(),
            path,
            package_name: None,
            version: None,
            edition: None,
            dependencies: None,
            dev_dependencies: None,
            parse_error,
        },
        Some(m) => RepoMetadata {
            name,
            repo_type: "rust".to_owned(),
            path,
            package_name: m.package_name,
            version: m.version,
            edition: m.edition,
            dependencies: m.dependencies,
            dev_dependencies: None,
            parse_error: None,
        },
    };
    proof {
        assert(r@ =~~= rust_record(r.name@, r.path@, src));
    }
    r
}

/// `find_entry`, restated over the entries' nodes.
fn lookup_toml<'a>(list: &'a Vec<(String, toml::Value)>, key: &str) -> (r: Option<&'a toml::Value>)
    ensures
        match r {
            Some(v) => assoc_lookup(toml_entry_nodes(list@), key@) == Some(toml_node(*v)),
            None => assoc_lookup(toml_entry_nodes(list@), key@) is None,
        },
{
    let r = find_entry(list, key);
    proof {
        let nodes = toml_entry_nodes(list@);
        match r {
            Some(v) => {
                let i = choose|i: int|
                    0 <= i < list@.len() && (#[trigger] list@[i]).0@ == key@ && *v == list@[i].1
                        && (forall|j: int| 0 <= j < i ==> (#[trigger] list@[j]).0@ != key@);
                assert(forall|j: int| 0 <= j < i ==> (#[trigger] nodes[j]).0 != key@);
                lemma_lookup_hit(nodes, key@, i);
            },
            None => {
                assert(forall|i: int|
                    0 <= i < nodes.len() ==> (#[trigger] nodes[i]).0 != key@);
                lemma_lookup_miss(nodes, key@);
            },
        }
    }
    r
}

/// Turns a dependency table's entries into the kept form, value by value.
fn convert_deps(list: &Vec<(String, toml::Value)>) -> (r: Vec<(String, DependencyValue)>)
    ensures
        crate::record::deps_view(r@) == deps_of(toml_entry_nodes(list@)),
{
    let mut out: Vec<(String, DependencyValue)> = Vec::new();
    let mut i: usize = 0;
    while i < list.len()
        invariant
            0 <= i <= list@.len(),
            out@.len() == i,
            forall|j: int|
                0 <= j < i ==> (#[trigger] out@[j]).0@ == list@[j].0@ && out@[j].1@ == dep_value_of(
                    toml_node(list@[j].1),
                ),
        decreases list@.len() - i,
    {
        let key = list[i].0.clone();
        let value = match toml_as_str(&list[i].1) {
            Some(s) => DependencyValue::Version(s.to_owned()),
            None => DependencyValue::Structured(toml_render(&list[i].1)),
        };
        out.push((key, value));
        i = i + 1;
    }
    proof {
        assert(crate::record::deps_view(out@) =~= deps_of(toml_entry_nodes(list@)));
    }
    out
}

/// Reads the expected sections out of a parsed ecosystem-A manifest.
pub fn extract_cargo(doc: &toml::Value) -> (r: Result<CargoManifest, String>)
    ensures
        match r {
            Ok(m) => cargo_of(toml_node(*doc)) == Ok::<CargoManifestView, Seq<char>>(m@),
            Err(e) => cargo_of(toml_node(*doc)) == Err::<CargoManifestView, Seq<char>>(e@),
        },
{
    let entries = match toml_entries(doc) {
        Some(es) => es,
        None => {
            return Err("the manifest root is not a table".to_owned());
        },
    };
    let (package_name, version, edition) = match lookup_toml(&entries, "package") {
        None => (None, None, None),
        Some(pv) => {
            let pes = match toml_entries(pv) {
                None => {
                    return Err("invalid type for field `package`: expected a table".to_owned());
                },
                Some(pes) => pes,
            };
            match extract_package_fields(&pes) {
                Err(m) => {
                    return Err(m);
                },
                Ok((n, v, e)) => (Some(n), Some(v), e),
            }
        },
    };
    let dependencies = match lookup_toml(&entries, "dependencies") {
        None => None,
        Some(dv) => {
            let des = match toml_entries(dv) {
                None => {
                    return Err("invalid type for field `dependencies`: expected a table".to_owned());
                },
                Some(des) => des,
            };
            Some(convert_deps(&des))
        },
    };
    let m = CargoManifest { package_name, version, edition, dependencies };
    proof {
        assert(cargo_of(toml_node(*doc)) matches Ok(mv) && mv =~~= m@);
    }
    Ok(m)
}

/// Reads `name`, `version` and `edition` out of the `package` section's
/// entries.
fn extract_package_fields(pes: &Vec<(String, toml::Value)>) -> (r: Result<
    (String, String, Option<String>),
    String,
>)
    ensures
        match r {
            Ok(t) => cargo_package_of(toml_entry_nodes(pes@)) == Ok::<
                (Seq<char>, Seq<char>, Option<Seq<char>>),
                Seq<char>,
            >((t.0@, t.1@, opt_str_view(t.2))),
            Err(m) => cargo_package_of(toml_entry_nodes(pes@)) == Err::<
                (Seq<char>, Seq<char>, Option<Seq<char>>),
                Seq<char>,
            >(m@),
        },
{
    let name = match lookup_toml(pes, "name") {
        None => {
            return Err("missing field `name` in `package`".to_owned());
        },
        Some(v) => match toml_as_str(v) {
            None => {
                return Err("invalid type for field `package.name`: expected a string".to_owned());
            },
            Some(s) => s.to_owned(),
        },
    };
    let version = match lookup_toml(pes, "version") {
        None => {
            return Err("missing field `version` in `package`".to_owned());
        },
        Some(v) => match toml_as_str(v) {
            None => {
                return Err(
                    "invalid type for field `package.version`: expected a string".to_owned(),
                );
            },
            Some(s) => s.to_owned(),
        },
    };
    let edition = match lookup_toml(pes, "edition") {
        None => None,
        Some(v) => match toml_as_str(v) {
            None => {
                return Err(
                    "invalid type for field `package.edition`: expected a string".to_owned(),
                );
            },
            Some(s) => Some(s.to_owned()),
        },
    };
    Ok((name, version, edition))
}

} // verus!
