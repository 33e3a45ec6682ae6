//! Verified core of a file-backed clipboard bridge.
//!
//! The bridge presents a "get/set clipboard content by MIME type"
//! interface over two sources: a small file cache (an image payload with
//! its type marker, and a text payload, each valid for a time-to-live)
//! and a live clipboard daemon reached through short subprocess calls.
//! This crate holds every decision: freshness and lazy expiry, the
//! jpg/jpeg aliasing and marker normalization, the read priority order
//! (daemon first, bitmap conversion, cache fallback), target enumeration
//! with deduplication, size and directory validation, downscaling
//! arithmetic, and the subprocess timeout policy.  The surrounding
//! process only moves bytes: it materializes the cache from disk, runs
//! the daemon commands, and feeds the observed plain values back in.
//!
//! - [`mime`]: type classification, normalization, aliasing.
//! - [`fresh`]: the freshness evaluator over file metadata.
//! - [`cache`]: the cache store model and its read/write/expiry rules.
//! - [`config`]: consumed configuration values and time-to-live resolution.
//! - [`harness`]: the subprocess timeout harness's polling decisions.
//! - [`daemon`]: interpreting the daemon's type list and fetch results.
//! - [`image_ops`]: downscaling and bitmap conversion over the `image` crate.
//! - [`validate`]: size ceilings and the directory allow-list.
//! - [`resolve`]: the per-request orchestration of all of the above.
//! - [`targets`]: the deduplicated target enumeration.
//! - [`args`], [`paths`]: the command line and the cache file names.

pub mod args;
pub mod cache;
pub mod config;
pub mod daemon;
pub mod fresh;
pub mod harness;
pub mod image_ops;
pub mod mime;
pub mod paths;
pub mod resolve;
pub mod targets;
pub mod validate;
