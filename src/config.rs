//! The proxy's operational parameters and partial updates of them.

use vstd::prelude::*;
use crate::recorder::fresh_id;

verus! {

/// The operational parameters of the proxy.
pub struct ProxyConfig {
    /// How long a client may take, in milliseconds (advisory).
    pub client_timeout_ms: u64,
    /// The deadline for an upstream round trip, in milliseconds.
    pub upstream_timeout_ms: u64,
    pub max_history_size: usize,
    pub max_body_size: usize,
    pub truncate_body_at: usize,
    /// The secret that admin requests must carry; fixed once made.
    pub access_token: String,
}

impl Default for ProxyConfig {
    /// The defaults: 30 s for clients, 500 ms upstream, 100 transactions, bodies of
    /// 1 MiB, previews of 1 KiB, and a fresh random token.
    fn default() -> (r: Self)
        ensures
            r.client_timeout_ms == 30_000,
            r.upstream_timeout_ms == 500,
            r.max_history_size == 100,
            r.max_body_size == 1024 * 1024,
            r.truncate_body_at == 1024,
            r.access_token@.len() == 36,
    {
        ProxyConfig {
            client_timeout_ms: 30_000,
            upstream_timeout_ms: 500,
            max_history_size: 100,
            max_body_size: 1024 * 1024,
            truncate_body_at: 1024,
            access_token: fresh_id(),
        }
    }
}

/// A partial update of the configuration: each field present replaces the current one.
#[derive(Clone, Copy, Debug, PartialEq, Eq, Structural)]
pub struct ConfigUpdate {
    pub client_timeout_ms: Option<u64>,
    pub upstream_timeout_ms: Option<u64>,
    pub max_history_size: Option<usize>,
    pub max_body_size: Option<usize>,
    pub truncate_body_at: Option<usize>,
}

/// The value of an optional field, or the current one where it is absent.
pub open spec fn or_current<T>(o: Option<T>, current: T) -> T {
    match o {
        Some(v) => v,
        None => current,
    }
}

/// `new` is `old` with the fields of `u` applied; the token is kept.
pub open spec fn updated(old: ProxyConfig, u: ConfigUpdate, new: ProxyConfig) -> bool {
    &&& new.client_timeout_ms == or_current(u.client_timeout_ms, old.client_timeout_ms)
    &&& new.upstream_timeout_ms == or_current(u.upstream_timeout_ms, old.upstream_timeout_ms)
    &&& new.max_history_size == or_current(u.max_history_size, old.max_history_size)
    &&& new.max_body_size == or_current(u.max_body_size, old.max_body_size)
    &&& new.truncate_body_at == or_current(u.truncate_body_at, old.truncate_body_at)
    &&& new.access_token == old.access_token
}

impl ConfigUpdate {
    /// Applies the fields present to `config`; the others, and the token, stay.
    pub fn apply_to(&self, config: &mut ProxyConfig)
        ensures
            updated(*old(config), *self, *final(config)),
    {
        if let Some(timeout) = self.client_timeout_ms {
            config.client_timeout_ms = timeout;
        }
        if let Some(timeout) = self.upstream_timeout_ms {
            config.upstream_timeout_ms = timeout;
        }
        if let Some(size) = self.max_history_size {
            config.max_history_size = size;
        }
        if let Some(size) = self.max_body_size {
            config.max_body_size = size;
        }
        if let Some(size) = self.truncate_body_at {
            config.truncate_body_at = size;
        }
    }
}

} // verus!
