//! A repository-inventory library: it models the scan of two ecosystems'
//! repository directories, reads each repository's manifest through the
//! `toml` and `serde_json` parsers, aggregates the records and the five
//! summary counters into one report, and rewrites a task document's text
//! when manifests failed to parse. Every function here carries a contract;
//! the file-system walk, the clock and the serialized outputs live in the
//! thin program around the library.
pub mod assoc;
pub mod cargo_manifest;
pub mod json_doc;
pub mod laws;
pub mod package_json;
pub mod record;
pub mod report;
pub mod tasks;
pub mod toml_doc;
