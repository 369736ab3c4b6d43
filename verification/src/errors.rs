use vstd::prelude::*;

verus! {

/// The failure kinds of the trust-root engine.
///
/// Construction fails atomically with one of these; queries over a ready
/// trust root can only fail with `MetadataError`.
#[derive(Clone, Copy, Debug, PartialEq, Eq, Structural)]
pub enum TrustRootError {
    /// No source (disk cache, embedded defaults, remote repository) supplied
    /// the named target.
    TargetNotFound,
    /// Repository metadata lacks an entry for the target, or a cardinality
    /// invariant (exactly-one / non-empty) was violated by a query.
    MetadataError,
    /// The trusted-root bytes failed to parse.
    DeserializationError,
    /// The underlying repository I/O failed.
    TransportError,
}

} // verus!
