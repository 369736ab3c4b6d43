use vstd::prelude::*;

use crate::errors::TrustRootError;
use crate::model::{
    active_tlog_keys, ca_keys, tlog_keys, valid_ca_certs, TrustedRootDocument,
};

verus! {

/// A ready trust root: the parsed document, exposed through read-only
/// queries that apply the validity policy and the per-query cardinality
/// invariants. Never mutated after construction.
#[derive(Clone, Debug)]
pub struct SigstoreTrustRoot {
    pub trusted_root: TrustedRootDocument,
}

/// What `fulcio_certs_at` returns: the certificates of every authority
/// whose window passes with expiry allowed, flattened in document order;
/// `MetadataError` exactly when that union is empty.
pub open spec fn fulcio_certs_ok(
    doc: TrustedRootDocument,
    now: int,
    r: Result<Vec<Vec<u8>>, TrustRootError>,
) -> bool {
    let cs = valid_ca_certs(doc.certificate_authorities@, true, now);
    match r {
        Result::Ok(v) => v.deep_view() == cs && cs.len() > 0,
        Result::Err(e) => e == TrustRootError::MetadataError && cs.len() == 0,
    }
}

/// What `rekor_keys_at` returns: the single signing-log key that is active
/// under the strict policy; `MetadataError` exactly when the number of
/// active keys is not one.
pub open spec fn rekor_keys_ok(
    doc: TrustedRootDocument,
    now: int,
    r: Result<Vec<Vec<u8>>, TrustRootError>,
) -> bool {
    let ks = active_tlog_keys(doc.tlogs@, now);
    match r {
        Result::Ok(v) => v.deep_view() == ks && ks.len() == 1,
        Result::Err(e) => e == TrustRootError::MetadataError && ks.len() != 1,
    }
}

/// What `ctfe_keys_at` returns: every certificate-transparency-log key that
/// is active under the strict policy; `MetadataError` exactly when none is.
pub open spec fn ctfe_keys_ok(
    doc: TrustedRootDocument,
    now: int,
    r: Result<Vec<Vec<u8>>, TrustRootError>,
) -> bool {
    let ks = active_tlog_keys(doc.ctlogs@, now);
    match r {
        Result::Ok(v) => v.deep_view() == ks && ks.len() > 0,
        Result::Err(e) => e == TrustRootError::MetadataError && ks.len() == 0,
    }
}

/// Relies on chrono::Utc::now: the wall clock, of whose reading nothing is
/// assumed.
#[verifier::external_body]
fn now_timestamp() -> i64 {
    chrono::Utc::now().timestamp()
}

impl SigstoreTrustRoot {
    /// Wraps an already resolved, validated and parsed document; queries
    /// read it unchanged for the lifetime of the value.
    pub fn new(trusted_root: TrustedRootDocument) -> (s: Self)
        ensures
            s.trusted_root == trusted_root,
    {
        SigstoreTrustRoot { trusted_root }
    }

    /// The certificates of every authority that was active at `now` or
    /// earlier (expiry allowed: a certificate may have been active when the
    /// signing happened), flattened in document order. Fails when the union
    /// is empty.
    pub fn fulcio_certs_at(&self, now: i64) -> (r: Result<Vec<Vec<u8>>, TrustRootError>)
        ensures
            fulcio_certs_ok(self.trusted_root, now as int, r),
    {
        let certs = ca_keys(&self.trusted_root.certificate_authorities, true, now);
        proof {
            assert(certs.deep_view().len() == certs@.len());
        }
        if certs.len() == 0 {
            Result::Err(TrustRootError::MetadataError)
        } else {
            Result::Ok(certs)
        }
    }

    /// The signing-log keys active at `now` under the strict policy.
    /// Succeeds only when exactly one key is active.
    pub fn rekor_keys_at(&self, now: i64) -> (r: Result<Vec<Vec<u8>>, TrustRootError>)
        ensures
            rekor_keys_ok(self.trusted_root, now as int, r),
    {
        let keys = tlog_keys(&self.trusted_root.tlogs, now);
        proof {
            assert(keys.deep_view().len() == keys@.len());
        }
        if keys.len() != 1 {
            Result::Err(TrustRootError::MetadataError)
        } else {
            Result::Ok(keys)
        }
    }

    /// The certificate-transparency-log keys active at `now` under the
    /// strict policy. Fails when none is active.
    pub fn ctfe_keys_at(&self, now: i64) -> (r: Result<Vec<Vec<u8>>, TrustRootError>)
        ensures
            ctfe_keys_ok(self.trusted_root, now as int, r),
    {
        let keys = tlog_keys(&self.trusted_root.ctlogs, now);
        proof {
            assert(keys.deep_view().len() == keys@.len());
        }
        if keys.len() == 0 {
            Result::Err(TrustRootError::MetadataError)
        } else {
            Result::Ok(keys)
        }
    }

    /// `fulcio_certs_at` evaluated at the wall clock's reading.
    pub fn fulcio_certs(&self) -> (r: Result<Vec<Vec<u8>>, TrustRootError>)
        ensures
            exists|now: int| fulcio_certs_ok(self.trusted_root, now, r),
    {
        let now = now_timestamp();
        let r = self.fulcio_certs_at(now);
        proof {
            assert(fulcio_certs_ok(self.trusted_root, now as int, r));
        }
        r
    }

    /// `rekor_keys_at` evaluated at the wall clock's reading.
    pub fn rekor_keys(&self) -> (r: Result<Vec<Vec<u8>>, TrustRootError>)
        ensures
            exists|now: int| rekor_keys_ok(self.trusted_root, now, r),
    {
        let now = now_timestamp();
        let r = self.rekor_keys_at(now);
        proof {
            assert(rekor_keys_ok(self.trusted_root, now as int, r));
        }
        r
    }

    /// `ctfe_keys_at` evaluated at the wall clock's reading.
    pub fn ctfe_keys(&self) -> (r: Result<Vec<Vec<u8>>, TrustRootError>)
        ensures
            exists|now: int| ctfe_keys_ok(self.trusted_root, now, r),
    {
        let now = now_timestamp();
        let r = self.ctfe_keys_at(now);
        proof {
            assert(ctfe_keys_ok(self.trusted_root, now as int, r));
        }
        r
    }
}

} // verus!
