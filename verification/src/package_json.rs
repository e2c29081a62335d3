use vstd::prelude::*;
use vstd::string::StringExecFns;

use crate::assoc::{assoc_lookup, find_entry, lemma_lookup_hit, lemma_lookup_miss};
use crate::json_doc::{
    json_as_str, json_entries, json_entry_nodes, json_node, json_parse, parsed_json, JsonNode,
};
use crate::record::{
    opt_str_view, string_pairs_view, DepValueView, DependencyValue, ManifestSource, RepoMetadata,
    RepoView, SourceView,
};

verus! {

/// What ecosystem-B manifest extraction found: the optional identification
/// fields and the two optional dependency maps.
pub struct PackageManifest {
    pub package_name: Option<String>,
    pub version: Option<String>,
    pub dependencies: Option<Vec<(String, DependencyValue)>>,
    pub dev_dependencies: Option<Vec<(String, String)>>,
}

#[verifier::ext_equal]
pub ghost struct PackageManifestView {
    pub package_name: Option<Seq<char>>,
    pub version: Option<Seq<char>>,
    pub dependencies: Option<Seq<(Seq<char>, DepValueView)>>,
    pub dev_dependencies: Option<Seq<(Seq<char>, Seq<char>)>>,
}

impl View for PackageManifest {
    type V = PackageManifestView;

    open spec fn view(&self) -> PackageManifestView {
        PackageManifestView {
            package_name: opt_str_view(self.package_name),
            version: opt_str_view(self.version),
            dependencies: match self.dependencies {
                Some(d) => Some(crate::record::deps_view(d@)),
                None => None,
            },
            dev_dependencies: match self.dev_dependencies {
                Some(d) => Some(string_pairs_view(d@)),
                None => None,
            },
        }
    }
}

pub open spec fn all_string_values(es: Seq<(Seq<char>, JsonNode)>) -> bool {
    forall|i: int| 0 <= i < es.len() ==> (#[trigger] es[i]).1 is Str
}

pub open spec fn string_map_of(es: Seq<(Seq<char>, JsonNode)>) -> Seq<(Seq<char>, Seq<char>)> {
    es.map_values(|p: (Seq<char>, JsonNode)| (p.0, p.1->Str_0))
}

/// Version strings of ecosystem B are wrapped into the shared dependency
/// value shape as plain string-typed values.
pub open spec fn wrap_versions(m: Seq<(Seq<char>, Seq<char>)>) -> Seq<(Seq<char>, DepValueView)> {
    m.map_values(|p: (Seq<char>, Seq<char>)| (p.0, DepValueView::Version(p.1)))
}

/// An optional top-level field that must be a string when present.
pub open spec fn json_str_field(
    es: Seq<(Seq<char>, JsonNode)>,
    key: Seq<char>,
    msg: Seq<char>,
) -> Result<Option<Seq<char>>, Seq<char>> {
    match assoc_lookup(es, key) {
        None => Ok(None),
        Some(JsonNode::Str(s)) => Ok(Some(s)),
        Some(_) => Err(msg),
    }
}

/// An optional top-level field that must map names to strings when present.
pub open spec fn json_string_object(
    es: Seq<(Seq<char>, JsonNode)>,
    key: Seq<char>,
    obj_msg: Seq<char>,
    val_msg: Seq<char>,
) -> Result<Option<Seq<(Seq<char>, Seq<char>)>>, Seq<char>> {
    match assoc_lookup(es, key) {
        None => Ok(None),
        Some(JsonNode::Object(des)) => if all_string_values(des) {
            Ok(Some(string_map_of(des)))
        } else {
            Err(val_msg)
        },
        Some(_) => Err(obj_msg),
    }
}

/// What a syntactically valid ecosystem-B manifest yields: the extracted
/// fields, or the first schema violation in reading order.
pub open spec fn package_of(doc: JsonNode) -> Result<PackageManifestView, Seq<char>> {
    match doc {
        JsonNode::Object(es) => match json_str_field(
            es,
            "name"@,
            "invalid type for field `name`: expected a string"@,
        ) {
            Err(m) => Err(m),
            Ok(n) => match json_str_field(
                es,
                "version"@,
                "invalid type for field `version`: expected a string"@,
            ) {
                Err(m) => Err(m),
                Ok(v) => match json_string_object(
                    es,
                    "dependencies"@,
                    "invalid type for field `dependencies`: expected an object"@,
                    "invalid type for a value in `dependencies`: expected a string"@,
                ) {
                    Err(m) => Err(m),
                    Ok(d) => match json_string_object(
                        es,
                        "devDependencies"@,
                        "invalid type for field `devDependencies`: expected an object"@,
                        "invalid type for a value in `devDependencies`: expected a string"@,
                    ) {
                        Err(m) => Err(m),
                        Ok(dd) => Ok(
                            PackageManifestView {
                                package_name: n,
                                version: v,
                                dependencies: match d {
                                    Some(m) => Some(wrap_versions(m)),
                                    None => None,
                                },
                                dev_dependencies: dd,
                            },
                        ),
                    },
                },
            },
        },
        _ => Err("the manifest root is not an object"@),
    }
}

/// `find_entry`, restated over the entries' nodes.
fn lookup_json<'a>(list: &'a Vec<(String, serde_json::Value)>, key: &str) -> (r: Option<
    &'a serde_json::Value,
>)
    ensures
        match r {
            Some(v) => assoc_lookup(json_entry_nodes(list@), key@) == Some(json_node(*v)),
            None => assoc_lookup(json_entry_nodes(list@), key@) is None,
        },
{
    let r = find_entry(list, key);
    proof {
        let nodes = json_entry_nodes(list@);
        match r {
            Some(v) => {
                let i = choose|i: int|
                    0 <= i < list@.len() && (#[trigger] list@[i]).0@ == key@ && *v == list@[i].1
                        && (forall|j: int| 0 <= j < i ==> (#[trigger] list@[j]).0@ != key@);
                assert(forall|j: int| 0 <= j < i ==> (#[trigger] nodes[j]).0 != key@);
                lemma_lookup_hit(nodes, key@, i);
            },
            None => {
                assert(forall|i: int|
                    0 <= i < nodes.len() ==> (#[trigger] nodes[i]).0 != key@);
                lemma_lookup_miss(nodes, key@);
            },
        }
    }
    r
}

/// Copies an object's entries as name/string pairs; `None` when some value
/// is not a string.
fn convert_string_object(list: &Vec<(String, serde_json::Value)>) -> (r: Option<
    Vec<(String, String)>,
>)
    ensures
        match r {
            Some(out) => all_string_values(json_entry_nodes(list@)) && string_pairs_view(out@)
                == string_map_of(json_entry_nodes(list@)),
            None => !all_string_values(json_entry_nodes(list@)),
        },
{
    let mut out: Vec<(String, String)> = Vec::new();
    let mut i: usize = 0;
    while i < list.len()
        invariant
            0 <= i <= list@.len(),
            out@.len() == i,
            forall|j: int|
                0 <= j < i ==> json_node(#[trigger] list@[j].1) is Str && out@[j].0@
                    == list@[j].0@ && out@[j].1@ == json_node(list@[j].1)->Str_0,
        decreases list@.len() - i,
    {
        let value = match json_as_str(&list[i].1) {
            Some(s) => s.to_owned(),
            None => {
                proof {
                    assert(!all_string_values(json_entry_nodes(list@))) by {
                        assert(json_entry_nodes(list@)[i as int].1 == json_node(list@[i as int].1));
                    }
                }
                return None;
            },
        };
        let key = list[i].0.clone();
        out.push((key, value));
        i = i + 1;
    }
    proof {
        assert(string_pairs_view(out@) =~= string_map_of(json_entry_nodes(list@)));
    }
    Some(out)
}

/// Wraps each version string as a string-typed dependency value.
fn wrap_version_deps(list: Vec<(String, String)>) -> (r: Vec<(String, DependencyValue)>)
    ensures
        crate::record::deps_view(r@) == wrap_versions(string_pairs_view(list@)),
{
    let ghost orig = list@;
    let mut list = list;
    let mut out: Vec<(String, DependencyValue)> = Vec::new();
    let mut i: usize = 0;
    while i < list.len()
        invariant
            0 <= i <= list@.len(),
            list@ == orig,
            out@.len() == i,
            forall|j: int|
                0 <= j < i ==> (#[trigger] out@[j]).0@ == orig[j].0@ && out@[j].1@
                    == DepValueView::Version(orig[j].1@),
        decreases list@.len() - i,
    {
        let key = list[i].0.clone();
        let value = DependencyValue::Version(list[i].1.clone());
        out.push((key, value));
        i = i + 1;
    }
    proof {
        assert(crate::record::deps_view(out@) =~= wrap_versions(string_pairs_view(orig)));
    }
    out
}

/// Reads the expected fields out of a parsed ecosystem-B manifest.
pub fn extract_package(doc: &serde_json::Value) -> (r: Result<PackageManifest, String>)
    ensures
        match r {
            Ok(m) => package_of(json_node(*doc)) == Ok::<PackageManifestView, Seq<char>>(m@),
            Err(e) => package_of(json_node(*doc)) == Err::<PackageManifestView, Seq<char>>(e@),
        },
{
    let entries = match json_entries(doc) {
        Some(es) => es,
        None => {
            return Err("the manifest root is not an object".to_owned());
        },
    };
    let package_name = match lookup_json(&entries, "name") {
        None => None,
        Some(v) => match json_as_str(v) {
            None => {
                return Err("invalid type for field `name`: expected a string".to_owned());
            },
            Some(s) => Some(s.to_owned()),
        },
    };
    let version = match lookup_json(&entries, "version") {
        None => None,
        Some(v) => match json_as_str(v) {
            None => {
                return Err("invalid type for field `version`: expected a string".to_owned());
            },
            Some(s) => Some(s.to_owned()),
        },
    };
    let dependencies = match lookup_json(&entries, "dependencies") {
        None => None,
        Some(dv) => {
            let des = match json_entries(dv) {
                None => {
                    return Err(
                        "invalid type for field `dependencies`: expected an object".to_owned(),
                    );
                },
                Some(des) => des,
            };
            match convert_string_object(&des) {
                None => {
                    return Err(
                        "invalid type for a value in `dependencies`: expected a string".to_owned(),
                    );
                },
                Some(pairs) => Some(wrap_version_deps(pairs)),
            }
        },
    };
    let dev_dependencies = match lookup_json(&entries, "devDependencies") {
        None => None,
        Some(dv) => {
            let des = match json_entries(dv) {
                None => {
                    return Err(
                        "invalid type for field `devDependencies`: expected an object".to_owned(),
                    );
                },
                Some(des) => des,
            };
            match convert_string_object(&des) {
                None => {
                    return Err(
                        "invalid type for a value in `devDependencies`: expected a string".to_owned(),
                    );
                },
                Some(pairs) => Some(pairs),
            }
        },
    };
    let m = PackageManifest { package_name, version, dependencies, dev_dependencies };
    proof {
        assert(package_of(json_node(*doc)) matches Ok(mv) && mv =~~= m@);
    }
    Ok(m)
}

/// The record one ecosystem-B repository directory yields, as a function of
/// its name, its path, and how its manifest presented itself.
pub open spec fn typescript_record(name: Seq<char>, path: Seq<char>, src: SourceView) -> RepoView {
    match src {
        SourceView::Missing => crate::record::base_record(
            name,
            "typescript"@,
            path,
            Some("package.json not found"@),
        ),
        SourceView::ReadError(c) => crate::record::base_record(
            name,
            "typescript"@,
            path,
            Some("Failed to read package.json: "@ + c),
        ),
        SourceView::Content(text) => match parsed_json(text) {
            Err(c) => crate::record::base_record(
                name,
                "typescript"@,
                path,
                Some("Failed to parse package.json: "@ + c),
            ),
            Ok(node) => match package_of(node) {
                Err(c) => crate::record::base_record(
                    name,
                    "typescript"@,
                    path,
                    Some("Failed to parse package.json: "@ + c),
                ),
                Ok(m) => RepoView {
                    name: name,
                    repo_type: "typescript"@,
                    path: path,
                    package_name: m.package_name,
                    version: m.version,
                    edition: None,
                    dependencies: m.dependencies,
                    dev_dependencies: m.dev_dependencies,
                    parse_error: None,
                },
            },
        },
    }
}

/// Builds the record of one ecosystem-B repository directory from its name,
/// its path, and its manifest file's content or fate.
pub fn process_typescript_repo(name: String, path: String, source: ManifestSource) -> (r:
    RepoMetadata)
    ensures
        r@ == typescript_record(name@, path@, source@),
{
    let ghost src = source@;
    let (parse_error, manifest) = match source {
        ManifestSource::Missing => (Some("package.json not found".to_owned()), None),
        ManifestSource::ReadError(cause) => {
            let mut m = "Failed to read package.json: ".to_owned();
            m.append(cause.as_str());
            (Some(m), None)
        },
        ManifestSource::Content(text) => match json_parse(text.as_str()) {
            Err(cause) => {
                let mut m = "Failed to parse package.json: ".to_owned();
                m.append(cause.as_str());
                (Some(m), None)
            },
            Ok(value) => match extract_package(&value) {
                Err(cause) => {
                    let mut m = "Failed to parse package.json: ".to_owned();
                    m.append(cause.as_str());
                    (Some(m), None)
                },
                Ok(manifest) => (None, Some(manifest)),
            },
        },
    };
    let r = match manifest {
        None => RepoMetadata {
            name,
            repo_type: "typescript".to_owned(),
            path,
            package_name: None,
            version: None,
            edition: None,
            dependencies: None,
            dev_dependencies: None,
            parse_error,
        },
        Some(m) => RepoMetadata {
            name,
            repo_type: "typescript".to_owned(),
            path,
            package_name: m.package_name,
            version: m.version,
            edition: None,
            dependencies: m.dependencies,
            dev_dependencies: m.dev_dependencies,
            parse_error: None,
        },
    };
    proof {
        assert(r@ =~~= typescript_record(r.name@, r.path@, src));
    }
    r
}

} // verus!
