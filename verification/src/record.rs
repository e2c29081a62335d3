use vstd::prelude::*;

verus! {

/// The value attached to one dependency entry: either a plain version
/// requirement string, or a structured declaration carried by its textual
/// rendering.
#[derive(Debug, PartialEq, Eq)]
pub enum DependencyValue {
    Version(String),
    Structured(String),
}

pub ghost enum DepValueView {
    Version(Seq<char>),
    Structured(Seq<char>),
}

impl View for DependencyValue {
    type V = DepValueView;

    open spec fn view(&self) -> DepValueView {
        match self {
            DependencyValue::Version(s) => DepValueView::Version(s@),
            DependencyValue::Structured(s) => DepValueView::Structured(s@),
        }
    }
}

/// How the manifest file of one repository directory presented itself:
/// absent, unreadable (with the cause), or read in full.
#[derive(Debug, PartialEq, Eq)]
pub enum ManifestSource {
    Missing,
    ReadError(String),
    Content(String),
}

pub ghost enum SourceView {
    Missing,
    ReadError(Seq<char>),
    Content(Seq<char>),
}

impl View for ManifestSource {
    type V = SourceView;

    open spec fn view(&self) -> SourceView {
        match self {
            ManifestSource::Missing => SourceView::Missing,
            ManifestSource::ReadError(s) => SourceView::ReadError(s@),
            ManifestSource::Content(s) => SourceView::Content(s@),
        }
    }
}

/// One repository's metadata record. Either the manifest was read and
/// validated and the optional metadata fields carry what it held, or
/// `parse_error` is set and every optional metadata field is `None`.
#[derive(Debug, PartialEq, Eq)]
pub struct RepoMetadata {
    pub name: String,
    pub repo_type: String,
    pub path: String,
    pub package_name: Option<String>,
    pub version: Option<String>,
    pub edition: Option<String>,
    pub dependencies: Option<Vec<(String, DependencyValue)>>,
    pub dev_dependencies: Option<Vec<(String, String)>>,
    pub parse_error: Option<String>,
}

#[verifier::ext_equal]
pub ghost struct RepoView {
    pub name: Seq<char>,
    pub repo_type: Seq<char>,
    pub path: Seq<char>,
    pub package_name: Option<Seq<char>>,
    pub version: Option<Seq<char>>,
    pub edition: Option<Seq<char>>,
    pub dependencies: Option<Seq<(Seq<char>, DepValueView)>>,
    pub dev_dependencies: Option<Seq<(Seq<char>, Seq<char>)>>,
    pub parse_error: Option<Seq<char>>,
}

pub open spec fn opt_str_view(o: Option<String>) -> Option<Seq<char>> {
    match o {
        Some(s) => Some(s@),
        None => None,
    }
}

pub open spec fn deps_view(d: Seq<(String, DependencyValue)>) -> Seq<(Seq<char>, DepValueView)> {
    d.map_values(|p: (String, DependencyValue)| (p.0@, p.1@))
}

pub open spec fn string_pairs_view(d: Seq<(String, String)>) -> Seq<(Seq<char>, Seq<char>)> {
    d.map_values(|p: (String, String)| (p.0@, p.1@))
}

impl View for RepoMetadata {
    type V = RepoView;

    open spec fn view(&self) -> RepoView {
        RepoView {
            name: self.name@,
            repo_type: self.repo_type@,
            path: self.path@,
            package_name: opt_str_view(self.package_name),
            version: opt_str_view(self.version),
            edition: opt_str_view(self.edition),
            dependencies: match self.dependencies {
                Some(d) => Some(deps_view(d@)),
                None => None,
            },
            dev_dependencies: match self.dev_dependencies {
                Some(d) => Some(string_pairs_view(d@)),
                None => None,
            },
            parse_error: opt_str_view(self.parse_error),
        }
    }
}

/// A record whose manifest yielded nothing: only the identity fields and,
/// when something went wrong, the error message are filled.
pub open spec fn base_record(
    name: Seq<char>,
    repo_type: Seq<char>,
    path: Seq<char>,
    err: Option<Seq<char>>,
) -> RepoView {
    RepoView {
        name: name,
        repo_type: repo_type,
        path: path,
        package_name: None,
        version: None,
        edition: None,
        dependencies: None,
        dev_dependencies: None,
        parse_error: err,
    }
}

impl RepoView {
    /// Every field that only a validated manifest can fill is empty.
    pub open spec fn optional_fields_empty(self) -> bool {
        &&& self.package_name is None
        &&& self.version is None
        &&& self.edition is None
        &&& self.dependencies is None
        &&& self.dev_dependencies is None
    }
}

} // verus!
