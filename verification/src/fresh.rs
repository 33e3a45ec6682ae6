//! Freshness evaluation for cache artifacts.
//!
//! A cache artifact is usable only while it exists as a non-empty regular
//! file whose last modification lies no further than the time-to-live in the
//! past.  A modification time in the future (clock skew) is deliberately
//! treated as stale.  Any metadata error collapses to "not fresh".

use vstd::prelude::*;

verus! {

/// Filesystem metadata of one cache artifact, reduced to the facts the
/// evaluator reads.  `modified` is the last-modification time in whole
/// seconds since the epoch; `None` stands for a missing file or any
/// metadata error.
pub struct FileMeta {
    pub exists: bool,
    pub is_file: bool,
    pub len: u64,
    pub modified: Option<u64>,
}

/// The file exists, is a regular file, and holds at least one byte.
pub open spec fn non_empty_spec(meta: FileMeta) -> bool {
    meta.exists && meta.is_file && meta.len > 0
}

/// The artifact is fresh at time `now` under time-to-live `ttl`:
/// non-empty, with a known modification time that is not in the future
/// and at most `ttl` seconds old.
pub open spec fn is_fresh_spec(meta: FileMeta, now: u64, ttl: u64) -> bool {
    &&& non_empty_spec(meta)
    &&& meta.modified is Some
    &&& meta.modified.unwrap() <= now
    &&& now - meta.modified.unwrap() <= ttl
}

/// Whether the artifact described by `meta` is a non-empty regular file.
pub fn is_file_non_empty(meta: &FileMeta) -> (r: bool)
    ensures
        r == non_empty_spec(*meta),
{
    meta.exists && meta.is_file && meta.len > 0
}

/// Whether the artifact described by `meta` is fresh at `now` under `ttl`.
pub fn is_file_fresh(meta: &FileMeta, now: u64, ttl: u64) -> (r: bool)
    ensures
        r == is_fresh_spec(*meta, now, ttl),
{
    match meta.modified {
        Some(m) => m <= now && now - m <= ttl && meta.exists && meta.is_file && meta.len > 0,
        None => false,
    }
}

/// Freshness in terms of the artifact's age.  For an artifact modified `d`
/// seconds ago, freshness holds exactly when `d` is within the time-to-live
/// and the artifact is a non-empty regular file; an artifact whose
/// modification time lies in the future is never fresh.
pub proof fn lemma_freshness_by_age(meta: FileMeta, now: u64, ttl: u64, d: u64)
    requires
        d <= now,
        meta.modified == Some((now - d) as u64),
    ensures
        is_fresh_spec(meta, now, ttl) <==> (d <= ttl && non_empty_spec(meta)),
{
}

/// Clock skew: a modification time strictly after `now` is never fresh.
pub proof fn lemma_future_mtime_not_fresh(meta: FileMeta, now: u64, ttl: u64)
    requires
        meta.modified is Some,
        meta.modified.unwrap() > now,
    ensures
        !is_fresh_spec(meta, now, ttl),
{
}

} // verus!
