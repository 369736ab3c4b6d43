use sha2::Digest;
use sigstore::errors::TrustRootError;
use sigstore::resolver::{resolve_start, resolve_step, ResolveConfig, ResolveEvent, ResolveState};

/// Drives the machine the way a caller would: the cache and the embedded
/// table are maps of stub bytes, the remote source counts how often it is
/// read, and a configured cache directory records what was written to it.
struct Driver {
    cache: Option<Vec<u8>>,
    embedded: Option<Vec<u8>>,
    remote: Option<Vec<u8>>,
    remote_fetches: usize,
    cache_writes: Vec<Vec<u8>>,
}

impl Driver {
    fn run(&mut self, cfg: &ResolveConfig) -> Result<Vec<u8>, TrustRootError> {
        let mut state = resolve_start(cfg);
        loop {
            state = match state {
                ResolveState::AwaitCache => {
                    let bytes = self.cache.clone();
                    resolve_step(ResolveState::AwaitCache, ResolveEvent::Bytes(bytes), cfg)
                }
                ResolveState::AwaitEmbedded => {
                    let bytes = self.embedded.clone();
                    resolve_step(ResolveState::AwaitEmbedded, ResolveEvent::Bytes(bytes), cfg)
                }
                ResolveState::AwaitRemote => {
                    self.remote_fetches += 1;
                    let bytes = self.remote.clone();
                    resolve_step(ResolveState::AwaitRemote, ResolveEvent::Bytes(bytes), cfg)
                }
                ResolveState::AwaitRefetch => {
                    self.remote_fetches += 1;
                    let bytes = self.remote.clone();
                    resolve_step(ResolveState::AwaitRefetch, ResolveEvent::Bytes(bytes), cfg)
                }
                ResolveState::AwaitCacheWrite(bytes) => {
                    self.cache_writes.push(bytes.clone());
                    resolve_step(ResolveState::AwaitCacheWrite(bytes), ResolveEvent::Written, cfg)
                }
                ResolveState::Done(bytes) => return Ok(bytes),
                ResolveState::Failed(e) => return Err(e),
            };
        }
    }
}

fn sha256(data: &[u8]) -> Vec<u8> {
    sha2::Sha256::digest(data).to_vec()
}

#[test]
fn fresh_cache_zero_remote_fetches() {
    let cached = vec![1u8, 2, 3, 4];
    let cfg = ResolveConfig {
        has_cache_dir: true,
        expected_digest: Some(sha256(&cached)),
    };
    let mut driver = Driver {
        cache: Some(cached.clone()),
        embedded: None,
        remote: Some(vec![9u8, 9]),
        remote_fetches: 0,
        cache_writes: Vec::new(),
    };
    let got = driver.run(&cfg);
    assert_eq!(got, Ok(cached.clone()));
    assert_eq!(driver.remote_fetches, 0);
    assert_eq!(driver.cache_writes, vec![cached]);
}

#[test]
fn stale_cache_one_refetch_overwrites_cache() {
    let stale = vec![9u8, 9, 9];
    let fresh = vec![5u8, 6, 7];
    let cfg = ResolveConfig {
        has_cache_dir: true,
        expected_digest: Some(sha256(&fresh)),
    };
    let mut driver = Driver {
        cache: Some(stale),
        embedded: None,
        remote: Some(fresh.clone()),
        remote_fetches: 0,
        cache_writes: Vec::new(),
    };
    let got = driver.run(&cfg);
    assert_eq!(got, Ok(fresh.clone()));
    assert_eq!(driver.remote_fetches, 1);
    assert_eq!(driver.cache_writes, vec![fresh]);
}

#[test]
fn embedded_fallback_when_no_cache() {
    let embedded = vec![7u8, 7];
    let cfg = ResolveConfig {
        has_cache_dir: false,
        expected_digest: Some(sha256(&embedded)),
    };
    let mut driver = Driver {
        cache: None,
        embedded: Some(embedded.clone()),
        remote: None,
        remote_fetches: 0,
        cache_writes: Vec::new(),
    };
    let got = driver.run(&cfg);
    assert_eq!(got, Ok(embedded));
    assert_eq!(driver.remote_fetches, 0);
    assert_eq!(driver.cache_writes, Vec::<Vec<u8>>::new());
}

#[test]
fn remote_is_last_resort_and_validated() {
    let remote = vec![3u8, 1, 4];
    let cfg = ResolveConfig {
        has_cache_dir: true,
        expected_digest: Some(sha256(&remote)),
    };
    let mut driver = Driver {
        cache: None,
        embedded: None,
        remote: Some(remote.clone()),
        remote_fetches: 0,
        cache_writes: Vec::new(),
    };
    let got = driver.run(&cfg);
    assert_eq!(got, Ok(remote.clone()));
    assert_eq!(driver.remote_fetches, 1);
    assert_eq!(driver.cache_writes, vec![remote]);
}

#[test]
fn no_source_yields_target_not_found() {
    let cfg = ResolveConfig {
        has_cache_dir: true,
        expected_digest: Some(vec![0u8; 32]),
    };
    let mut driver = Driver {
        cache: None,
        embedded: None,
        remote: None,
        remote_fetches: 0,
        cache_writes: Vec::new(),
    };
    let got = driver.run(&cfg);
    assert_eq!(got, Err(TrustRootError::TargetNotFound));
}

#[test]
fn missing_metadata_entry_yields_metadata_error() {
    let cached = vec![1u8];
    let cfg = ResolveConfig {
        has_cache_dir: true,
        expected_digest: None,
    };
    let mut driver = Driver {
        cache: Some(cached),
        embedded: None,
        remote: None,
        remote_fetches: 0,
        cache_writes: Vec::new(),
    };
    let got = driver.run(&cfg);
    assert_eq!(got, Err(TrustRootError::MetadataError));
    assert_eq!(driver.remote_fetches, 0);
}
