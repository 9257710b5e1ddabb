//! Key set sources and the rules that govern fetching from them: which
//! sources are fetched at start-up, and how long a fetched copy is reused.
use vstd::prelude::*;

verus! {

/// How long a remote key set is reused when the source does not say.
pub const DEFAULT_CACHE_SECS: u64 = 600;

/// The bound on one remote fetch when the source does not say.
pub const DEFAULT_TIMEOUT_SECS: u64 = 10;

pub enum JwksProviderSource {
    /// A key set served over HTTP.
    Remote {
        url: String,
        cache_duration_secs: Option<u64>,
        prefetch: Option<bool>,
        timeout_secs: Option<u64>,
    },
    /// A key set read from a file, once.
    Local { file: String },
}

impl JwksProviderSource {
    /// Whether the key set is fetched when the plugin starts: always for a
    /// file, and for a remote source only when it asks for it.
    pub fn can_prefetch(&self) -> (r: bool)
        ensures
            r == match *self {
                JwksProviderSource::Remote { prefetch, .. } => prefetch == Some(true),
                JwksProviderSource::Local { .. } => true,
            },
    {
        match self {
            JwksProviderSource::Remote { prefetch, .. } => match prefetch {
                Some(p) => *p,
                None => false,
            },
            JwksProviderSource::Local { .. } => true,
        }
    }

    /// The bound on one fetch, in seconds.
    pub fn timeout_secs(&self) -> (r: u64)
        ensures
            r == match *self {
                JwksProviderSource::Remote { timeout_secs: Some(t), .. } => t,
                _ => DEFAULT_TIMEOUT_SECS,
            },
    {
        match self {
            JwksProviderSource::Remote { timeout_secs: Some(t), .. } => *t,
            _ => DEFAULT_TIMEOUT_SECS,
        }
    }

    /// Whether a copy fetched `age_secs` seconds ago may be used instead of
    /// fetching again: a file's copy always, a remote copy while younger
    /// than the cache duration.
    pub fn reuse_cached(&self, age_secs: u64) -> (r: bool)
        ensures
            r == match *self {
                JwksProviderSource::Remote { cache_duration_secs: Some(d), .. } => age_secs < d,
                JwksProviderSource::Remote { cache_duration_secs: None, .. } => age_secs < DEFAULT_CACHE_SECS,
                JwksProviderSource::Local { .. } => true,
            },
    {
        match self {
            JwksProviderSource::Remote { cache_duration_secs, .. } => match cache_duration_secs {
                Some(d) => age_secs < *d,
                None => age_secs < DEFAULT_CACHE_SECS,
            },
            JwksProviderSource::Local { .. } => true,
        }
    }
}

} // verus!
