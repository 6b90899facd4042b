use vstd::prelude::*;

verus! {

/// Failure while turning a package reference into a repository and revision.
#[derive(Debug, Clone, Copy, PartialEq, Eq, Structural)]
pub enum ResolutionError {
    /// More than one local package carries the requested name.
    AmbiguousPackage,
    /// No local package carries the requested name.
    PackageNotFound,
    /// The selected package declares no source repository.
    MissingRepositoryMetadata,
    /// The selected package records no source-control revision.
    MissingRevisionMetadata,
}

/// Failure while listing or selecting an example of a checkout.
#[derive(Debug, Clone, Copy, PartialEq, Eq, Structural)]
pub enum CatalogError {
    /// The checkout has no `examples` directory.
    NoExamplesDirectory,
    /// The requested name is not among the catalogued examples.
    ExampleNotFound,
}

/// Failure while merging two manifest documents.
#[derive(Debug, Clone, Copy, PartialEq, Eq, Structural)]
pub enum MergeError {
    /// One of the two manifest texts is not syntactically valid.
    ManifestParseError,
}

} // verus!
