use vstd::prelude::*;

use crate::errors::TrustRootError;

verus! {

/// The digest that the outside hash function computes for a byte sequence.
pub uninterp spec fn sha256_of(data: Seq<u8>) -> Seq<u8>;

/// Relies on sha2::Sha256: a 32-byte digest that depends on the input bytes
/// alone.
#[verifier::external_body]
fn sha256_digest(data: &Vec<u8>) -> (r: Vec<u8>)
    ensures
        r@ == sha256_of(data@),
        r@.len() == 32,
{
    let mut hasher = <sha2::Sha256 as sha2::Digest>::new();
    sha2::Digest::update(&mut hasher, data.as_slice());
    sha2::Digest::finalize(hasher).to_vec()
}

/// Whether two byte vectors hold the same bytes.
fn bytes_equal(a: &Vec<u8>, b: &Vec<u8>) -> (r: bool)
    ensures
        r == (a@ == b@),
{
    if a.len() != b.len() {
        return false;
    }
    let mut i: usize = 0;
    while i < a.len()
        invariant
            i <= a.len(),
            a@.len() == b@.len(),
            forall|k: int| 0 <= k < i ==> a@[k] == b@[k],
        decreases a.len() - i,
    {
        if a[i] != b[i] {
            return false;
        }
        i += 1;
    }
    proof {
        assert(a@ =~= b@);
    }
    true
}

/// The resolve-and-validate machine for one named target. Each `Await`
/// state names the one outside action the caller must perform next; the
/// caller hands the outcome back as a `ResolveEvent` and the machine, which
/// owns every decision, moves on. `Done` and `Failed` are terminal.
#[derive(Clone, Debug, PartialEq, Eq)]
pub enum ResolveState {
    /// Read the target file from the disk cache.
    AwaitCache,
    /// Look the target up in the embedded resource table.
    AwaitEmbedded,
    /// Read the target from the remote repository.
    AwaitRemote,
    /// The candidate's digest did not match the metadata digest: read the
    /// target from the remote repository again; what comes back is
    /// authoritative without a further check.
    AwaitRefetch,
    /// Write these authoritative bytes to the disk cache (create or
    /// overwrite), then report `Written`.
    AwaitCacheWrite(Vec<u8>),
    /// The authoritative bytes of the target.
    Done(Vec<u8>),
    /// Resolution failed; nothing was handed out.
    Failed(TrustRootError),
}

/// The outcome of the outside action a state asked for: the bytes a read
/// produced (or `None` when the source had nothing, or the remote read
/// failed for any reason), or the completion of a cache write.
#[derive(Clone, Debug, PartialEq, Eq)]
pub enum ResolveEvent {
    Bytes(Option<Vec<u8>>),
    Written,
}

/// What the machine is resolving against: whether a cache directory is
/// configured, and the digest that the already-verified repository metadata
/// declares for the target (`None` when the metadata has no entry).
#[derive(Clone, Debug, PartialEq, Eq)]
pub struct ResolveConfig {
    pub has_cache_dir: bool,
    pub expected_digest: Option<Vec<u8>>,
}

/// Whether the machine, in state `s`, awaits exactly the event `e`.
pub open spec fn step_enabled(s: ResolveState, e: ResolveEvent) -> bool {
    match s {
        ResolveState::AwaitCache => e is Bytes,
        ResolveState::AwaitEmbedded => e is Bytes,
        ResolveState::AwaitRemote => e is Bytes,
        ResolveState::AwaitRefetch => e is Bytes,
        ResolveState::AwaitCacheWrite(_) => e is Written,
        ResolveState::Done(_) => false,
        ResolveState::Failed(_) => false,
    }
}

/// Where authoritative bytes go: through a cache write when a cache
/// directory is configured, else straight to `Done`.
pub open spec fn finish_state(d: Vec<u8>, cfg: ResolveConfig) -> ResolveState {
    if cfg.has_cache_dir {
        ResolveState::AwaitCacheWrite(d)
    } else {
        ResolveState::Done(d)
    }
}

/// What becomes of a candidate: no metadata entry fails the resolution;
/// a matching digest makes the candidate authoritative; a mismatch forces
/// the one mandatory remote re-fetch.
pub open spec fn candidate_step(d: Vec<u8>, cfg: ResolveConfig, digest_ok: bool) -> ResolveState {
    match cfg.expected_digest {
        Option::None => ResolveState::Failed(TrustRootError::MetadataError),
        Option::Some(_) => if digest_ok {
            finish_state(d, cfg)
        } else {
            ResolveState::AwaitRefetch
        },
    }
}

/// Whether the bytes an event carries hash to the digest the metadata
/// declares.
pub open spec fn event_digest_ok(e: ResolveEvent, cfg: ResolveConfig) -> bool {
    &&& e matches ResolveEvent::Bytes(Some(d))
    &&& cfg.expected_digest matches Option::Some(ed) && sha256_of(d@) == ed@
}

/// The full transition function, with the digest comparison abstracted as
/// `digest_ok`. A pair that `step_enabled` refuses is left unchanged.
pub open spec fn step_spec(
    s: ResolveState,
    e: ResolveEvent,
    cfg: ResolveConfig,
    digest_ok: bool,
) -> ResolveState {
    match (s, e) {
        (ResolveState::AwaitCache, ResolveEvent::Bytes(Option::Some(d))) => candidate_step(
            d,
            cfg,
            digest_ok,
        ),
        (ResolveState::AwaitCache, ResolveEvent::Bytes(Option::None)) => ResolveState::AwaitEmbedded,
        (ResolveState::AwaitEmbedded, ResolveEvent::Bytes(Option::Some(d))) => candidate_step(
            d,
            cfg,
            digest_ok,
        ),
        (ResolveState::AwaitEmbedded, ResolveEvent::Bytes(Option::None)) => ResolveState::AwaitRemote,
        (ResolveState::AwaitRemote, ResolveEvent::Bytes(Option::Some(d))) => candidate_step(
            d,
            cfg,
            digest_ok,
        ),
        (ResolveState::AwaitRemote, ResolveEvent::Bytes(Option::None)) => ResolveState::Failed(
            TrustRootError::TargetNotFound,
        ),
        (ResolveState::AwaitRefetch, ResolveEvent::Bytes(Option::Some(d))) => finish_state(d, cfg),
        (ResolveState::AwaitRefetch, ResolveEvent::Bytes(Option::None)) => ResolveState::Failed(
            TrustRootError::TargetNotFound,
        ),
        (ResolveState::AwaitCacheWrite(d), ResolveEvent::Written) => ResolveState::Done(d),
        (s, _) => s,
    }
}

/// The state the machine starts in: the disk cache is consulted only when
/// a cache directory is configured.
pub fn resolve_start(cfg: &ResolveConfig) -> (s: ResolveState)
    ensures
        s == (if cfg.has_cache_dir {
            ResolveState::AwaitCache
        } else {
            ResolveState::AwaitEmbedded
        }),
{
    if cfg.has_cache_dir {
        ResolveState::AwaitCache
    } else {
        ResolveState::AwaitEmbedded
    }
}

/// Validates a candidate against the metadata digest and decides its fate.
fn check_candidate(d: Vec<u8>, cfg: &ResolveConfig) -> (next: ResolveState)
    ensures
        next == candidate_step(
            d,
            *cfg,
            (cfg.expected_digest matches Option::Some(ed) && sha256_of(d@) == ed@),
        ),
{
    match &cfg.expected_digest {
        Option::None => ResolveState::Failed(TrustRootError::MetadataError),
        Option::Some(expected) => {
            let digest = sha256_digest(&d);
            if bytes_equal(&digest, expected) {
                if cfg.has_cache_dir {
                    ResolveState::AwaitCacheWrite(d)
                } else {
                    ResolveState::Done(d)
                }
            } else {
                ResolveState::AwaitRefetch
            }
        },
    }
}

/// One transition of the resolve-and-validate machine.
pub fn resolve_step(s: ResolveState, e: ResolveEvent, cfg: &ResolveConfig) -> (next: ResolveState)
    requires
        step_enabled(s, e),
    ensures
        next == step_spec(s, e, *cfg, event_digest_ok(e, *cfg)),
{
    match (s, e) {
        (ResolveState::AwaitCache, ResolveEvent::Bytes(Option::Some(d))) => check_candidate(d, cfg),
        (ResolveState::AwaitCache, ResolveEvent::Bytes(Option::None)) => ResolveState::AwaitEmbedded,
        (ResolveState::AwaitEmbedded, ResolveEvent::Bytes(Option::Some(d))) => check_candidate(
            d,
            cfg,
        ),
        (ResolveState::AwaitEmbedded, ResolveEvent::Bytes(Option::None)) => ResolveState::AwaitRemote,
        (ResolveState::AwaitRemote, ResolveEvent::Bytes(Option::Some(d))) => check_candidate(d, cfg),
        (ResolveState::AwaitRemote, ResolveEvent::Bytes(Option::None)) => ResolveState::Failed(
            TrustRootError::TargetNotFound,
        ),
        (ResolveState::AwaitRefetch, ResolveEvent::Bytes(Option::Some(d))) => {
            if cfg.has_cache_dir {
                ResolveState::AwaitCacheWrite(d)
            } else {
                ResolveState::Done(d)
            }
        },
        (ResolveState::AwaitRefetch, ResolveEvent::Bytes(Option::None)) => ResolveState::Failed(
            TrustRootError::TargetNotFound,
        ),
        (ResolveState::AwaitCacheWrite(d), ResolveEvent::Written) => ResolveState::Done(d),
        _ => vstd::pervasive::unreached(),
    }
}

/// Fresh-cache round trip: a cache candidate whose digest matches the
/// metadata digest is final. The machine goes to the cache write and then
/// finishes with exactly the candidate bytes (or finishes at once when no
/// cache directory is configured); no remote-fetch state is ever entered.
pub proof fn lemma_fresh_cache_round_trip(d: Vec<u8>, cfg: ResolveConfig)
    requires
        cfg.expected_digest is Some,
    ensures
        cfg.has_cache_dir ==> step_spec(
            ResolveState::AwaitCache,
            ResolveEvent::Bytes(Option::Some(d)),
            cfg,
            true,
        ) == ResolveState::AwaitCacheWrite(d),
        cfg.has_cache_dir ==> step_spec(
            ResolveState::AwaitCacheWrite(d),
            ResolveEvent::Written,
            cfg,
            true,
        ) == ResolveState::Done(d),
        !cfg.has_cache_dir ==> step_spec(
            ResolveState::AwaitCache,
            ResolveEvent::Bytes(Option::Some(d)),
            cfg,
            true,
        ) == ResolveState::Done(d),
{
}

/// Digest mismatch: a cache candidate whose digest does not match forces
/// exactly one remote re-fetch, whose result is authoritative whatever its
/// own digest; the cache is then overwritten with the re-fetched bytes and
/// the machine finishes with them.
pub proof fn lemma_stale_cache_single_refetch(
    d: Vec<u8>,
    refetched: Vec<u8>,
    cfg: ResolveConfig,
    refetch_digest_ok: bool,
)
    requires
        cfg.expected_digest is Some,
        cfg.has_cache_dir,
    ensures
        step_spec(ResolveState::AwaitCache, ResolveEvent::Bytes(Option::Some(d)), cfg, false)
            == ResolveState::AwaitRefetch,
        step_spec(
            ResolveState::AwaitRefetch,
            ResolveEvent::Bytes(Option::Some(refetched)),
            cfg,
            refetch_digest_ok,
        ) == ResolveState::AwaitCacheWrite(refetched),
        step_spec(
            ResolveState::AwaitCacheWrite(refetched),
            ResolveEvent::Written,
            cfg,
            refetch_digest_ok,
        ) == ResolveState::Done(refetched),
{
}

} // verus!
