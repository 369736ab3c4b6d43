//! A verified trust-root engine for a software-signing transparency
//! ecosystem: it resolves, freshness-checks and exposes a consistent bundle
//! of certificate-authority chains and transparency-log public keys.

pub mod errors;
pub mod model;
pub mod policy;
pub mod rekor;
pub mod resolver;
pub mod root;
