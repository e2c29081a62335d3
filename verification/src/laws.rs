use vstd::prelude::*;

use crate::cargo_manifest::{cargo_of, rust_record, CargoManifestView};
use crate::json_doc::parsed_json;
use crate::package_json::{package_of, typescript_record, PackageManifestView};
use crate::record::{RepoView, SourceView};
use crate::report::{count_failed, report_spec, summary_of};
use crate::toml_doc::{parsed_toml, TomlNode};

verus! {

/// A repository directory lacking its expected manifest yields a record
/// whose `parse_error` is exactly the missing-file message, with every
/// optional metadata field empty.
pub proof fn lemma_missing_manifest(name: Seq<char>, path: Seq<char>)
    ensures
        ({
            let r = rust_record(name, path, SourceView::Missing);
            r.parse_error == Some("Cargo.toml not found"@) && r.optional_fields_empty()
        }),
        ({
            let r = typescript_record(name, path, SourceView::Missing);
            r.parse_error == Some("package.json not found"@) && r.optional_fields_empty()
        }),
{
}

/// A manifest file that exists but cannot be read yields a record with
/// `parse_error` set and every optional metadata field empty.
pub proof fn lemma_unreadable_manifest(name: Seq<char>, path: Seq<char>, cause: Seq<char>)
    ensures
        ({
            let r = rust_record(name, path, SourceView::ReadError(cause));
            r.parse_error is Some && r.optional_fields_empty()
        }),
        ({
            let r = typescript_record(name, path, SourceView::ReadError(cause));
            r.parse_error is Some && r.optional_fields_empty()
        }),
{
}

/// A readable, syntactically valid ecosystem-A manifest that passes the
/// schema yields a record with exactly the extracted package name, version,
/// edition and dependencies, and no parse error.
pub proof fn lemma_valid_cargo_manifest(
    name: Seq<char>,
    path: Seq<char>,
    text: Seq<char>,
    node: TomlNode,
    m: CargoManifestView,
)
    requires
        parsed_toml(text) == Ok::<TomlNode, Seq<char>>(node),
        cargo_of(node) == Ok::<CargoManifestView, Seq<char>>(m),
    ensures
        ({
            let r = rust_record(name, path, SourceView::Content(text));
            &&& r.parse_error is None
            &&& r.package_name == m.package_name
            &&& r.version == m.version
            &&& r.edition == m.edition
            &&& r.dependencies == m.dependencies
        }),
{
}

/// The ecosystem-B counterpart: a valid manifest's fields land in the
/// record unchanged, and no parse error is set.
pub proof fn lemma_valid_package_manifest(
    name: Seq<char>,
    path: Seq<char>,
    text: Seq<char>,
    node: crate::json_doc::JsonNode,
    m: PackageManifestView,
)
    requires
        parsed_json(text) == Ok::<crate::json_doc::JsonNode, Seq<char>>(node),
        package_of(node) == Ok::<PackageManifestView, Seq<char>>(m),
    ensures
        ({
            let r = typescript_record(name, path, SourceView::Content(text));
            &&& r.parse_error is None
            &&& r.package_name == m.package_name
            &&& r.version == m.version
            &&& r.dependencies == m.dependencies
            &&& r.dev_dependencies == m.dev_dependencies
        }),
{
}

/// A malformed ecosystem-A manifest — one the parser or the schema rejects
/// — yields a record with `parse_error` set and no optional metadata field
/// populated.
pub proof fn lemma_malformed_cargo_manifest(name: Seq<char>, path: Seq<char>, text: Seq<char>)
    requires
        match parsed_toml(text) {
            Ok(node) => cargo_of(node) is Err,
            Err(_) => true,
        },
    ensures
        ({
            let r = rust_record(name, path, SourceView::Content(text));
            r.parse_error is Some && r.optional_fields_empty()
        }),
{
}

/// The ecosystem-B counterpart of the malformed-manifest law.
pub proof fn lemma_malformed_package_manifest(name: Seq<char>, path: Seq<char>, text: Seq<char>)
    requires
        match parsed_json(text) {
            Ok(node) => package_of(node) is Err,
            Err(_) => true,
        },
    ensures
        ({
            let r = typescript_record(name, path, SourceView::Content(text));
            r.parse_error is Some && r.optional_fields_empty()
        }),
{
}

/// The counter identities of any run: each ecosystem's total is its
/// successful count plus its failed count, and the combined failure count
/// is the sum of the two ecosystems' failed counts.
pub proof fn lemma_summary_counters(rust: Seq<RepoView>, ts: Seq<RepoView>)
    ensures
        ({
            let s = summary_of(rust, ts);
            &&& s.total_rust_repos == s.successful_rust_parses + count_failed(rust)
            &&& s.total_typescript_repos == s.successful_typescript_parses + count_failed(ts)
            &&& s.failed_parses == count_failed(rust) + count_failed(ts)
        }),
{
    crate::report::lemma_count_split(rust);
    crate::report::lemma_count_split(ts);
}

/// Two runs over unchanged records and errors yield the same report apart
/// from the timestamp: the record lists, the counters and the error list
/// all coincide.
pub proof fn lemma_rescan_idempotent(
    t1: Seq<char>,
    t2: Seq<char>,
    rust: Seq<RepoView>,
    ts: Seq<RepoView>,
    errors: Seq<Seq<char>>,
)
    ensures
        ({
            let a = report_spec(t1, rust, ts, errors);
            let b = report_spec(t2, rust, ts, errors);
            &&& a.rust_repos == b.rust_repos
            &&& a.typescript_repos == b.typescript_repos
            &&& a.summary == b.summary
            &&& a.errors == b.errors
            &&& a.timestamp == t1
            &&& b.timestamp == t2
        }),
{
}

} // verus!
