use repo_inventory::cargo_manifest::process_rust_repo;
use repo_inventory::package_json::process_typescript_repo;
use repo_inventory::record::{DependencyValue, ManifestSource, RepoMetadata};
use repo_inventory::report::{build_report, build_summary, failed_repo_names, make_report};

fn rust_repo(name: &str, source: ManifestSource) -> RepoMetadata {
    process_rust_repo(name.to_string(), format!("/repos/rust/{}", name), source)
}

fn ts_repo(name: &str, source: ManifestSource) -> RepoMetadata {
    process_typescript_repo(name.to_string(), format!("/repos/ts/{}", name), source)
}

#[test]
fn rust_missing_manifest() {
    let r = rust_repo("alpha", ManifestSource::Missing);
    assert_eq!(r.name, "alpha");
    assert_eq!(r.repo_type, "rust");
    assert_eq!(r.path, "/repos/rust/alpha");
    assert_eq!(r.parse_error, Some("Cargo.toml not found".to_string()));
    assert_eq!(r.package_name, None);
    assert_eq!(r.version, None);
    assert_eq!(r.edition, None);
    assert_eq!(r.dependencies, None);
    assert_eq!(r.dev_dependencies, None);
}

#[test]
fn typescript_missing_manifest() {
    let r = ts_repo("beta", ManifestSource::Missing);
    assert_eq!(r.repo_type, "typescript");
    assert_eq!(r.parse_error, Some("package.json not found".to_string()));
    assert_eq!(r.package_name, None);
    assert_eq!(r.version, None);
    assert_eq!(r.dependencies, None);
    assert_eq!(r.dev_dependencies, None);
}

#[test]
fn rust_read_error() {
    let r = rust_repo("gamma", ManifestSource::ReadError("permission denied".to_string()));
    assert_eq!(
        r.parse_error,
        Some("Failed to read Cargo.toml: permission denied".to_string())
    );
    assert_eq!(r.package_name, None);
}

#[test]
fn typescript_read_error() {
    let r = ts_repo("delta", ManifestSource::ReadError("io error".to_string()));
    assert_eq!(
        r.parse_error,
        Some("Failed to read package.json: io error".to_string())
    );
}

#[test]
fn rust_valid_manifest() {
    let text = "[package]\nname=\"x\"\nversion=\"1.0.0\"";
    let r = rust_repo("x-repo", ManifestSource::Content(text.to_string()));
    assert_eq!(r.parse_error, None);
    assert_eq!(r.package_name, Some("x".to_string()));
    assert_eq!(r.version, Some("1.0.0".to_string()));
    assert_eq!(r.edition, None);
    assert_eq!(r.dependencies, None);
}

#[test]
fn rust_manifest_with_edition_and_deps() {
    let text = "[package]\nname = \"x\"\nversion = \"0.2.0\"\nedition = \"2021\"\n\n[dependencies]\nplain = \"1.4\"\nshaped = { version = \"2.0\", default-features = false }\n";
    let r = rust_repo("x", ManifestSource::Content(text.to_string()));
    assert_eq!(r.parse_error, None);
    assert_eq!(r.package_name, Some("x".to_string()));
    assert_eq!(r.version, Some("0.2.0".to_string()));
    assert_eq!(r.edition, Some("2021".to_string()));
    let deps = r.dependencies.expect("dependency table expected");
    assert_eq!(deps.len(), 2);
    let plain = deps.iter().find(|p| p.0 == "plain").expect("plain entry");
    assert_eq!(plain.1, DependencyValue::Version("1.4".to_string()));
    let shaped = deps.iter().find(|p| p.0 == "shaped").expect("shaped entry");
    match &shaped.1 {
        DependencyValue::Structured(text) => {
            assert!(text.contains("2.0"));
        }
        other => panic!("expected a structured value, got {:?}", other),
    }
}

#[test]
fn rust_manifest_without_package_section() {
    let r = rust_repo("empty", ManifestSource::Content(String::new()));
    assert_eq!(r.parse_error, None);
    assert_eq!(r.package_name, None);
    assert_eq!(r.version, None);
    assert_eq!(r.edition, None);
    assert_eq!(r.dependencies, None);
}

#[test]
fn rust_manifest_syntax_error() {
    let r = rust_repo("broken", ManifestSource::Content("not == valid".to_string()));
    let err = r.parse_error.expect("parse error expected");
    assert!(err.starts_with("Failed to parse Cargo.toml: "));
    assert_eq!(r.package_name, None);
    assert_eq!(r.dependencies, None);
}

#[test]
fn rust_manifest_missing_name() {
    let r = rust_repo("noname", ManifestSource::Content("[package]\nversion=\"1\"".to_string()));
    assert_eq!(
        r.parse_error,
        Some("Failed to parse Cargo.toml: missing field `name` in `package`".to_string())
    );
}

#[test]
fn rust_manifest_missing_version() {
    let r = rust_repo("nover", ManifestSource::Content("[package]\nname=\"a\"".to_string()));
    assert_eq!(
        r.parse_error,
        Some("Failed to parse Cargo.toml: missing field `version` in `package`".to_string())
    );
}

#[test]
fn rust_manifest_bad_field_types() {
    let r = rust_repo("t1", ManifestSource::Content("[package]\nname=5\nversion=\"1\"".to_string()));
    assert_eq!(
        r.parse_error,
        Some(
            "Failed to parse Cargo.toml: invalid type for field `package.name`: expected a string"
                .to_string()
        )
    );
    let r = rust_repo(
        "t2",
        ManifestSource::Content("[package]\nname=\"a\"\nversion=1".to_string()),
    );
    assert_eq!(
        r.parse_error,
        Some(
            "Failed to parse Cargo.toml: invalid type for field `package.version`: expected a string"
                .to_string()
        )
    );
    let r = rust_repo(
        "t3",
        ManifestSource::Content("[package]\nname=\"a\"\nversion=\"1\"\nedition=2021".to_string()),
    );
    assert_eq!(
        r.parse_error,
        Some(
            "Failed to parse Cargo.toml: invalid type for field `package.edition`: expected a string"
                .to_string()
        )
    );
}

#[test]
fn rust_manifest_bad_section_types() {
    let r = rust_repo("s1", ManifestSource::Content("package = 3".to_string()));
    assert_eq!(
        r.parse_error,
        Some("Failed to parse Cargo.toml: invalid type for field `package`: expected a table".to_string())
    );
    let r = rust_repo("s2", ManifestSource::Content("dependencies = 5".to_string()));
    assert_eq!(
        r.parse_error,
        Some(
            "Failed to parse Cargo.toml: invalid type for field `dependencies`: expected a table"
                .to_string()
        )
    );
}

#[test]
fn typescript_valid_manifest() {
    let text = "{\"name\":\"y\",\"version\":\"2.0.0\",\"dependencies\":{\"lib\":\"^1.0\"}}";
    let r = ts_repo("y-repo", ManifestSource::Content(text.to_string()));
    assert_eq!(r.parse_error, None);
    assert_eq!(r.package_name, Some("y".to_string()));
    assert_eq!(r.version, Some("2.0.0".to_string()));
    assert_eq!(
        r.dependencies,
        Some(vec![("lib".to_string(), DependencyValue::Version("^1.0".to_string()))])
    );
    assert_eq!(r.dev_dependencies, None);
    assert_eq!(r.edition, None);
}

#[test]
fn typescript_manifest_with_dev_dependencies() {
    let text = "{\"name\":\"z\",\"devDependencies\":{\"checker\":\"5.1\"}}";
    let r = ts_repo("z", ManifestSource::Content(text.to_string()));
    assert_eq!(r.parse_error, None);
    assert_eq!(r.package_name, Some("z".to_string()));
    assert_eq!(r.version, None);
    assert_eq!(
        r.dev_dependencies,
        Some(vec![("checker".to_string(), "5.1".to_string())])
    );
}

#[test]
fn typescript_manifest_syntax_error() {
    let r = ts_repo("bad", ManifestSource::Content("{not json".to_string()));
    let err = r.parse_error.expect("parse error expected");
    assert!(err.starts_with("Failed to parse package.json: "));
    assert_eq!(r.package_name, None);
}

#[test]
fn typescript_manifest_schema_errors() {
    let cases = [
        ("[1,2]", "the manifest root is not an object"),
        ("{\"name\":5}", "invalid type for field `name`: expected a string"),
        ("{\"version\":{}}", "invalid type for field `version`: expected a string"),
        (
            "{\"dependencies\":[1]}",
            "invalid type for field `dependencies`: expected an object",
        ),
        (
            "{\"dependencies\":{\"a\":1}}",
            "invalid type for a value in `dependencies`: expected a string",
        ),
        (
            "{\"devDependencies\":\"x\"}",
            "invalid type for field `devDependencies`: expected an object",
        ),
        (
            "{\"devDependencies\":{\"a\":{}}}",
            "invalid type for a value in `devDependencies`: expected a string",
        ),
    ];
    for (text, cause) in cases {
        let r = ts_repo("schema", ManifestSource::Content(text.to_string()));
        assert_eq!(
            r.parse_error,
            Some(format!("Failed to parse package.json: {}", cause)),
            "for input {}",
            text
        );
        assert_eq!(r.package_name, None);
        assert_eq!(r.version, None);
        assert_eq!(r.dependencies, None);
        assert_eq!(r.dev_dependencies, None);
    }
}

#[test]
fn summary_counters() {
    let rust = vec![
        rust_repo("ok1", ManifestSource::Content("[package]\nname=\"a\"\nversion=\"1\"".to_string())),
        rust_repo("bad1", ManifestSource::Missing),
    ];
    let ts = vec![ts_repo("ok2", ManifestSource::Content("{}".to_string()))];
    let s = build_summary(&rust, &ts);
    assert_eq!(s.total_rust_repos, 2);
    assert_eq!(s.total_typescript_repos, 1);
    assert_eq!(s.successful_rust_parses, 1);
    assert_eq!(s.successful_typescript_parses, 1);
    assert_eq!(s.failed_parses, 1);
    let failed_rust = rust.iter().filter(|r| r.parse_error.is_some()).count();
    let failed_ts = ts.iter().filter(|r| r.parse_error.is_some()).count();
    assert_eq!(s.total_rust_repos, s.successful_rust_parses + failed_rust);
    assert_eq!(s.total_typescript_repos, s.successful_typescript_parses + failed_ts);
    assert_eq!(s.failed_parses, failed_rust + failed_ts);
}

#[test]
fn report_rerun_differs_only_in_timestamp() {
    let make_inputs = || {
        let rust = vec![
            rust_repo("a", ManifestSource::Content("[package]\nname=\"a\"\nversion=\"1\"".to_string())),
            rust_repo("b", ManifestSource::Missing),
        ];
        let ts = vec![ts_repo("c", ManifestSource::Content("{\"name\":\"c\"}".to_string()))];
        let errors = vec!["Failed to read TypeScript repos directory: /nowhere".to_string()];
        (rust, ts, errors)
    };
    let (r1, t1, e1) = make_inputs();
    let (r2, t2, e2) = make_inputs();
    let a = build_report("2024-01-01T00:00:00+00:00".to_string(), r1, t1, e1);
    let b = build_report("2025-06-30T12:00:00+00:00".to_string(), r2, t2, e2);
    assert_ne!(a.timestamp, b.timestamp);
    assert_eq!(a.rust_repos, b.rust_repos);
    assert_eq!(a.typescript_repos, b.typescript_repos);
    assert_eq!(a.summary, b.summary);
    assert_eq!(a.errors, b.errors);
}

#[test]
fn make_report_fills_all_fields() {
    let rust = vec![rust_repo("a", ManifestSource::Missing)];
    let report = make_report(rust, Vec::new(), Vec::new());
    assert!(!report.timestamp.is_empty());
    assert_eq!(report.rust_repos.len(), 1);
    assert_eq!(report.typescript_repos.len(), 0);
    assert_eq!(report.summary.total_rust_repos, 1);
    assert_eq!(report.summary.failed_parses, 1);
    assert!(report.errors.is_empty());
}

#[test]
fn failed_names_keep_order() {
    let rust = vec![
        rust_repo("r-ok", ManifestSource::Content("[package]\nname=\"a\"\nversion=\"1\"".to_string())),
        rust_repo("r-bad", ManifestSource::Missing),
    ];
    let ts = vec![
        ts_repo("t-bad", ManifestSource::Missing),
        ts_repo("t-ok", ManifestSource::Content("{}".to_string())),
    ];
    let names = failed_repo_names(&rust, &ts);
    assert_eq!(names, vec!["r-bad".to_string(), "t-bad".to_string()]);
}

#[test]
fn root_scan_error_text() {
    assert_eq!(
        repo_inventory::report::root_scan_error("Rust", "/missing/root"),
        "Failed to read Rust repos directory: /missing/root"
    );
}
