use vstd::prelude::*;

use crate::policy::{is_timerange_valid, time_range_valid, TimeRange};

verus! {

/// One transparency-log instance: optional raw public-key bytes and an
/// optional validity window.
#[derive(Clone, Debug, PartialEq, Eq)]
pub struct TransparencyLogInstance {
    pub public_key: Option<Vec<u8>>,
    pub valid_for: Option<TimeRange>,
}

/// One certificate authority: an optional validity window and an ordered
/// chain of raw certificate bytes.
#[derive(Clone, Debug, PartialEq, Eq)]
pub struct CertificateAuthority {
    pub valid_for: Option<TimeRange>,
    pub cert_chain: Vec<Vec<u8>>,
}

/// The parsed trust-root document: certificate authorities, signing-log
/// instances and certificate-transparency-log instances, each in document
/// order. Immutable once constructed; all queries are pure reads.
#[derive(Clone, Debug, PartialEq, Eq)]
pub struct TrustedRootDocument {
    pub certificate_authorities: Vec<CertificateAuthority>,
    pub tlogs: Vec<TransparencyLogInstance>,
    pub ctlogs: Vec<TransparencyLogInstance>,
}

/// A log instance contributes a key when it has one and its window passes
/// the strict (no-expiry) policy at `now`.
pub open spec fn tlog_key_active(t: TransparencyLogInstance, now: int) -> bool {
    &&& t.public_key is Some
    &&& time_range_valid(t.valid_for, false, now)
}

/// The key bytes of a log instance (empty if it has none).
pub open spec fn tlog_key_bytes(t: TransparencyLogInstance) -> Seq<u8> {
    match t.public_key {
        Option::Some(k) => k@,
        Option::None => Seq::empty(),
    }
}

/// The keys, in document order, of the log instances that are active at
/// `now` under the strict policy.
pub open spec fn active_tlog_keys(tlogs: Seq<TransparencyLogInstance>, now: int) -> Seq<Seq<u8>>
    decreases tlogs.len(),
{
    if tlogs.len() == 0 {
        Seq::empty()
    } else {
        let rest = active_tlog_keys(tlogs.drop_last(), now);
        if tlog_key_active(tlogs.last(), now) {
            rest.push(tlog_key_bytes(tlogs.last()))
        } else {
            rest
        }
    }
}

/// The certificates, flattened in document order, of the authorities whose
/// window passes the policy at `now` with the given expiry mode.
pub open spec fn valid_ca_certs(
    cas: Seq<CertificateAuthority>,
    allow_expired: bool,
    now: int,
) -> Seq<Seq<u8>>
    decreases cas.len(),
{
    if cas.len() == 0 {
        Seq::empty()
    } else {
        let rest = valid_ca_certs(cas.drop_last(), allow_expired, now);
        if time_range_valid(cas.last().valid_for, allow_expired, now) {
            rest + cas.last().cert_chain.deep_view()
        } else {
            rest
        }
    }
}

/// An independent copy of a byte vector.
fn copy_bytes(src: &Vec<u8>) -> (r: Vec<u8>)
    ensures
        r@ == src@,
{
    let mut r: Vec<u8> = Vec::new();
    let mut i: usize = 0;
    while i < src.len()
        invariant
            i <= src.len(),
            r@ == src@.take(i as int),
        decreases src.len() - i,
    {
        r.push(src[i]);
        proof {
            assert(src@.take(i + 1 as int) =~= src@.take(i as int).push(src@[i as int]));
        }
        i += 1;
    }
    proof {
        assert(src@.take(src@.len() as int) =~= src@);
    }
    r
}

/// The keys of the log instances that are currently active: each instance
/// with a key whose window passes the strict policy at `now`, in document
/// order.
pub fn tlog_keys(tlogs: &Vec<TransparencyLogInstance>, now: i64) -> (r: Vec<Vec<u8>>)
    ensures
        r.deep_view() == active_tlog_keys(tlogs@, now as int),
{
    let mut out: Vec<Vec<u8>> = Vec::new();
    let mut i: usize = 0;
    while i < tlogs.len()
        invariant
            i <= tlogs.len(),
            out.deep_view() == active_tlog_keys(tlogs@.take(i as int), now as int),
        decreases tlogs.len() - i,
    {
        let t = &tlogs[i];
        let ghost prev = out.deep_view();
        if is_timerange_valid(t.valid_for.as_ref(), false, now) {
            match &t.public_key {
                Option::Some(k) => {
                    out.push(copy_bytes(k));
                    proof {
                        assert(out.deep_view() =~~= prev.push(tlog_key_bytes(tlogs@[i as int])));
                    }
                },
                Option::None => {},
            }
        }
        proof {
            assert(tlogs@.take(i + 1 as int).drop_last() =~= tlogs@.take(i as int));
            assert(tlogs@.take(i + 1 as int).last() == tlogs@[i as int]);
        }
        i += 1;
    }
    proof {
        assert(tlogs@.take(tlogs@.len() as int) =~= tlogs@);
    }
    out
}

/// The certificates of the authorities whose window passes the policy at
/// `now` with the given expiry mode, flattened across authorities and, within
/// each authority, in chain order.
pub fn ca_keys(cas: &Vec<CertificateAuthority>, allow_expired: bool, now: i64) -> (r: Vec<
    Vec<u8>,
>)
    ensures
        r.deep_view() == valid_ca_certs(cas@, allow_expired, now as int),
{
    let mut out: Vec<Vec<u8>> = Vec::new();
    let mut i: usize = 0;
    while i < cas.len()
        invariant
            i <= cas.len(),
            out.deep_view() == valid_ca_certs(cas@.take(i as int), allow_expired, now as int),
        decreases cas.len() - i,
    {
        let ca = &cas[i];
        let ghost prev = out.deep_view();
        if is_timerange_valid(ca.valid_for.as_ref(), allow_expired, now) {
            proof {
                assert(out.deep_view() =~= prev + ca.cert_chain.deep_view().take(0));
            }
            let mut j: usize = 0;
            while j < ca.cert_chain.len()
                invariant
                    j <= ca.cert_chain.len(),
                    out.deep_view() == prev + ca.cert_chain.deep_view().take(j as int),
                decreases ca.cert_chain.len() - j,
            {
                let c = copy_bytes(&ca.cert_chain[j]);
                proof {
                    assert(c.deep_view() =~= ca.cert_chain.deep_view()[j as int]);
                }
                out.push(c);
                proof {
                    let cdv = ca.cert_chain.deep_view();
                    assert(out.deep_view() =~~= (prev + cdv.take(j as int)).push(
                        cdv[j as int],
                    ));
                    assert((prev + cdv.take(j as int)).push(cdv[j as int]) =~~= prev + cdv.take(
                        j + 1 as int,
                    ));
                }
                j += 1;
            }
            proof {
                assert(ca.cert_chain.deep_view().take(ca.cert_chain@.len() as int)
                    =~= ca.cert_chain.deep_view());
            }
        }
        proof {
            assert(cas@.take(i + 1 as int).drop_last() =~= cas@.take(i as int));
            assert(cas@.take(i + 1 as int).last() == cas@[i as int]);
        }
        i += 1;
    }
    proof {
        assert(cas@.take(cas@.len() as int) =~= cas@);
    }
    out
}

} // verus!
