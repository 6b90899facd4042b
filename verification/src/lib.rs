//! Verified core of a project-scaffolding helper.
//!
//! The library covers the logic of the tool: classifying a package
//! reference, selecting the matching package from local metadata,
//! cataloguing the examples of a checkout, deciding how each entry of an
//! example tree is materialized, and merging two package manifests under a
//! "destination wins for existing keys, union otherwise" policy.  The
//! manifest documents themselves are kept in `toml_edit`, behind a small
//! trusted layer; everything around that layer is verified.

pub mod catalog;
pub mod errors;
pub mod manifest_doc;
pub mod materialize;
pub mod merge;
pub mod resolver;
