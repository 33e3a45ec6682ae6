//! Configuration values consumed by the core, and time-to-live resolution.
//!
//! Loading the TOML file (and bootstrapping a default one) is the job of an
//! outside collaborator; the core only consumes the resulting optional
//! values.  The time-to-live is resolved once per operation from the
//! highest-priority source: environment override, configured value,
//! hardcoded default, and is always capped at 24 hours.

use vstd::prelude::*;
use crate::mime::str_eq;

verus! {

/// Default time-to-live: five minutes.
pub const DEFAULT_TTL_SECS: u64 = 300;

/// Upper cap on any time-to-live: 24 hours.
pub const MAX_TTL_SECS: u64 = 86400;

/// The configuration values the core reads.  Every field is optional;
/// a missing configuration source is modelled as every field `None`.
pub struct Config {
    pub ttl_secs: Option<u64>,
    pub max_image_dimension: Option<u32>,
    pub max_file_size_mb: Option<u64>,
    pub allowed_directories: Option<Vec<String>>,
    pub clipboard_mode: Option<String>,
    pub cache_wl_images: Option<bool>,
}

/// The resolved time-to-live: the environment override if present, else the
/// configured value if present, else the default; in every case capped at
/// 24 hours.
pub open spec fn effective_ttl_spec(env_secs: Option<u64>, cfg_secs: Option<u64>) -> u64 {
    if env_secs is Some {
        if env_secs.unwrap() <= MAX_TTL_SECS {
            env_secs.unwrap()
        } else {
            MAX_TTL_SECS
        }
    } else if cfg_secs is Some {
        if cfg_secs.unwrap() <= MAX_TTL_SECS {
            cfg_secs.unwrap()
        } else {
            MAX_TTL_SECS
        }
    } else {
        DEFAULT_TTL_SECS
    }
}

/// Resolve the time-to-live in seconds.  `env_secs` is the parsed
/// environment override, `cfg` the loaded configuration if any.
pub fn load_ttl(env_secs: Option<u64>, cfg: Option<&Config>) -> (r: u64)
    ensures
        r == effective_ttl_spec(env_secs, spec_cfg_ttl(cfg)),
        r <= MAX_TTL_SECS,
{
    let secs: Option<u64> = match env_secs {
        Some(s) => Some(s),
        None => match cfg {
            Some(c) => c.ttl_secs,
            None => None,
        },
    };
    match secs {
        Some(s) => if s <= MAX_TTL_SECS {
            s
        } else {
            MAX_TTL_SECS
        },
        None => DEFAULT_TTL_SECS,
    }
}

/// The configured time-to-live, if a configuration with one is present.
pub open spec fn spec_cfg_ttl(cfg: Option<&Config>) -> Option<u64> {
    match cfg {
        Some(c) => c.ttl_secs,
        None => None,
    }
}

/// The configuration forces file-only operation: the daemon is never used.
pub open spec fn file_only_spec(cfg: Option<&Config>) -> bool {
    match cfg {
        Some(c) => match c.clipboard_mode {
            Some(m) => m@ == "file_only"@,
            None => false,
        },
        None => false,
    }
}

/// Whether the live clipboard daemon may be used: the configuration does
/// not force file-only mode and the daemon's probe succeeded.
pub fn wl_clipboard_available(cfg: Option<&Config>, probe_ok: bool) -> (r: bool)
    ensures
        r == (!file_only_spec(cfg) && probe_ok),
{
    let file_only = match cfg {
        Some(c) => match &c.clipboard_mode {
            Some(m) => str_eq(m.as_str(), "file_only"),
            None => false,
        },
        None => false,
    };
    !file_only && probe_ok
}

/// Whether images fetched from the daemon and converted are persisted into
/// the cache.  Defaults to true when unconfigured.
pub open spec fn cache_images_spec(cfg: Option<&Config>) -> bool {
    match cfg {
        Some(c) => match c.cache_wl_images {
            Some(b) => b,
            None => true,
        },
        None => true,
    }
}

/// Whether converted daemon images are persisted into the cache.
pub fn cache_wl_images_enabled(cfg: Option<&Config>) -> (r: bool)
    ensures
        r == cache_images_spec(cfg),
{
    match cfg {
        Some(c) => match c.cache_wl_images {
            Some(b) => b,
            None => true,
        },
        None => true,
    }
}

/// The configured maximum image dimension, if downscaling is enabled.
pub fn max_image_dimension(cfg: Option<&Config>) -> (r: Option<u32>)
    ensures
        r == spec_max_dim(cfg),
{
    match cfg {
        Some(c) => c.max_image_dimension,
        None => None,
    }
}

/// The configured maximum image dimension.
pub open spec fn spec_max_dim(cfg: Option<&Config>) -> Option<u32> {
    match cfg {
        Some(c) => c.max_image_dimension,
        None => None,
    }
}

} // verus!
