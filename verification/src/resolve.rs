//! The resolution orchestrator: for one request, the policy that
//! sequences cache lookup, daemon lookup, conversion and cache
//! population.
//!
//! Reading is a short interaction with the outside: the surrounding
//! process performs one listed action at a time (list the daemon's types,
//! fetch one type) and feeds the observed result back into the session,
//! which decides the next step.  Every decision — the priority order, the
//! alias rules, what is persisted back — is made and verified here; the
//! surrounding process only moves bytes.

use vstd::prelude::*;
use crate::cache::{
    abs_read_image, abs_read_text, abs_write_image, abs_write_text, wf_cache, AbsCache, CacheModel,
};
use crate::config::{spec_max_dim, Config};
use crate::daemon::{contains_text_type, has_text_type_spec, list_contains, list_contains_spec};
use crate::image_ops::{
    clone_bytes, convert_bitmap_to_png, downscale_image_if_needed, downscale_spec, png_reencoding,
    ConvertError,
};
use crate::mime::{is_supported_image, is_text_plain, is_image_mime, text_plain_family};
use crate::validate::size_limit_bytes;

verus! {

/// What the surrounding process must do next with a read session.
pub enum ReadStep {
    /// Probe the daemon and list its advertised types, then report them.
    FetchTypes,
    /// Fetch the named type from the daemon, then report the outcome.
    FetchData(String),
    /// Terminal: write these bytes to the requester and exit success.
    Serve(Vec<u8>),
    /// Terminal: no data available; exit failure.
    NoData,
    /// Terminal: the bitmap conversion failed; exit failure.
    HardError(ConvertError),
}

/// Progress of a read session.
pub enum ReadPhase {
    /// Waiting for the daemon's advertised types.
    AwaitTypes,
    /// Waiting for a `text/plain` fetch.
    AwaitText,
    /// Waiting for a fetch of the exact requested image type.
    AwaitDirect,
    /// Waiting for a bitmap fetch to convert to PNG.
    AwaitBmp,
    /// A terminal step was returned.
    Done,
}

/// One read request being resolved.
pub struct ReadSession {
    pub mime: String,
    pub max_dim: Option<u32>,
    pub cache_enabled: bool,
    pub now: u64,
    pub ttl: u64,
    pub phase: ReadPhase,
    pub bmp_available: bool,
}

/// The request fell back to the cache: a fresh matching image entry is
/// served, a stale one is expired, and the session is done.
pub open spec fn cache_fallback(
    before: ReadSession,
    cache_before: AbsCache,
    cache_after: AbsCache,
    after: ReadSession,
    r: ReadStep,
) -> bool {
    let (res, next) = abs_read_image(cache_before, before.mime@, before.now, before.ttl);
    &&& cache_after =~= next
    &&& after.phase is Done
    &&& match res {
        Some(b) => r matches ReadStep::Serve(v) && v@ == b,
        None => r is NoData,
    }
}

impl ReadSession {
    /// The carried request parameters, unchanged by a transition.
    pub open spec fn same_request(self, other: ReadSession) -> bool {
        &&& self.mime@ == other.mime@
        &&& self.max_dim == other.max_dim
        &&& self.cache_enabled == other.cache_enabled
        &&& self.now == other.now
        &&& self.ttl == other.ttl
    }

    /// Begin resolving a read of `mime`.
    ///
    /// Text requests serve a fresh cached text entry at once (expiring a
    /// stale one); otherwise, and for every supported image request, the
    /// daemon is consulted first.  A type outside both families fails at
    /// once.
    pub fn start(
        mime: String,
        max_dim: Option<u32>,
        cache_enabled: bool,
        now: u64,
        ttl: u64,
        cache: &mut CacheModel,
    ) -> (r: (ReadSession, ReadStep))
        ensures
            r.0.mime@ == mime@ && r.0.max_dim == max_dim && r.0.cache_enabled == cache_enabled
                && r.0.now == now && r.0.ttl == ttl,
            wf_cache(old(cache)@) ==> wf_cache(final(cache)@),
            text_plain_family(mime@) ==> ({
                let (res, after) = abs_read_text(old(cache)@, now, ttl);
                &&& final(cache)@ =~= after
                &&& match res {
                    Some(b) => (r.1 matches ReadStep::Serve(v) && v@ == b) && r.0.phase is Done,
                    None => r.1 is FetchTypes && r.0.phase is AwaitTypes,
                }
            }),
            !text_plain_family(mime@) && is_image_mime(mime@) ==> final(cache)@ =~= old(cache)@
                && r.1 is FetchTypes && r.0.phase is AwaitTypes,
            !text_plain_family(mime@) && !is_image_mime(mime@) ==> final(cache)@ =~= old(cache)@
                && r.1 is NoData && r.0.phase is Done,
    {
        if is_text_plain(mime.as_str()) {
            match cache.read_text(now, ttl) {
                Some(v) => (
                    ReadSession {
                        mime,
                        max_dim,
                        cache_enabled,
                        now,
                        ttl,
                        phase: ReadPhase::Done,
                        bmp_available: false,
                    },
                    ReadStep::Serve(v),
                ),
                None => (
                    ReadSession {
                        mime,
                        max_dim,
                        cache_enabled,
                        now,
                        ttl,
                        phase: ReadPhase::AwaitTypes,
                        bmp_available: false,
                    },
                    ReadStep::FetchTypes,
                ),
            }
        } else if is_supported_image(mime.as_str()) {
            (
                ReadSession {
                    mime,
                    max_dim,
                    cache_enabled,
                    now,
                    ttl,
                    phase: ReadPhase::AwaitTypes,
                    bmp_available: false,
                },
                ReadStep::FetchTypes,
            )
        } else {
            (
                ReadSession {
                    mime,
                    max_dim,
                    cache_enabled,
                    now,
                    ttl,
                    phase: ReadPhase::Done,
                    bmp_available: false,
                },
                ReadStep::NoData,
            )
        }
    }

    /// Report the daemon's advertised types (`available` is false when the
    /// daemon is unreachable, disabled, or listing failed).
    ///
    /// A text request proceeds to a `text/plain` fetch when any `text/*`
    /// type is advertised, and fails otherwise.  An image request fetches
    /// the exact requested type when advertised; else, a PNG request with
    /// bitmap advertised fetches the bitmap for conversion; else the
    /// request falls back to the cache, serving a fresh matching entry and
    /// expiring a stale one.
    pub fn on_types(&mut self, available: bool, types: &Vec<String>, cache: &mut CacheModel) -> (r:
        ReadStep)
        requires
            old(self).phase is AwaitTypes,
        ensures
            old(self).same_request(*final(self)),
            wf_cache(old(cache)@) ==> wf_cache(final(cache)@),
            text_plain_family(old(self).mime@) ==> ({
                if available && has_text_type_spec(types.deep_view()) {
                    (r matches ReadStep::FetchData(m) && m@ == "text/plain"@) && final(self).phase is AwaitText && final(cache)@ =~= old(cache)@
                } else {
                    r is NoData && final(self).phase is Done && final(cache)@ =~= old(cache)@
                }
            }),
            !text_plain_family(old(self).mime@) ==> ({
                let direct = available && list_contains_spec(types.deep_view(), old(self).mime@);
                let bmp = available && old(self).mime@ == "image/png"@ && list_contains_spec(
                    types.deep_view(),
                    "image/bmp"@,
                );
                if direct {
                    (r matches ReadStep::FetchData(m) && m@ == old(self).mime@) && final(self).phase is AwaitDirect && final(self).bmp_available == bmp && final(cache)@
                        =~= old(cache)@
                } else if bmp {
                    (r matches ReadStep::FetchData(m) && m@ == "image/bmp"@) && final(self).phase is AwaitBmp && final(cache)@ =~= old(cache)@
                } else {
                    let (res, after) = abs_read_image(
                        old(cache)@,
                        old(self).mime@,
                        old(self).now,
                        old(self).ttl,
                    );
                    &&& final(cache)@ =~= after
                    &&& final(self).phase is Done
                    &&& match res {
                        Some(b) => r matches ReadStep::Serve(v) && v@ == b,
                        None => r is NoData,
                    }
                }
            }),
    {
        if is_text_plain(self.mime.as_str()) {
            if available && contains_text_type(types) {
                self.phase = ReadPhase::AwaitText;
                ReadStep::FetchData(String::from_str("text/plain"))
            } else {
                self.phase = ReadPhase::Done;
                ReadStep::NoData
            }
        } else {
            let bmp = available && crate::mime::str_eq(self.mime.as_str(), "image/png")
                && list_contains(types, "image/bmp");
            if available && list_contains(types, self.mime.as_str()) {
                self.phase = ReadPhase::AwaitDirect;
                self.bmp_available = bmp;
                ReadStep::FetchData(self.mime.clone())
            } else if bmp {
                self.phase = ReadPhase::AwaitBmp;
                ReadStep::FetchData(String::from_str("image/bmp"))
            } else {
                self.phase = ReadPhase::Done;
                match cache.read_image(self.mime.as_str(), self.now, self.ttl) {
                    Some(v) => ReadStep::Serve(v),
                    None => ReadStep::NoData,
                }
            }
        }
    }

    /// Report the outcome of the fetch the session asked for (`None` for a
    /// failed fetch).
    ///
    /// A fetched text payload is served as is, never cached back.  A
    /// directly fetched image is downscaled per configuration and served,
    /// never cached back; a failed direct fetch falls back to the bitmap
    /// path when it was advertised, else to the cache.  A fetched bitmap
    /// is converted to PNG — failure of that conversion is a hard error —
    /// then downscaled, persisted to the cache when configured, and
    /// served; a failed bitmap fetch falls back to the cache.
    pub fn on_fetch(&mut self, data: Option<Vec<u8>>, cache: &mut CacheModel) -> (r: ReadStep)
        requires
            old(self).phase is AwaitText || old(self).phase is AwaitDirect || old(self).phase is AwaitBmp,
        ensures
            old(self).same_request(*final(self)),
            wf_cache(old(cache)@) ==> wf_cache(final(cache)@),
            old(self).phase is AwaitText ==> final(cache)@ =~= old(cache)@ && final(self).phase is Done && match data {
                Some(v) => r matches ReadStep::Serve(w) && w@ == v@,
                None => r is NoData,
            },
            old(self).phase is AwaitDirect ==> match data {
                Some(v) => final(cache)@ =~= old(cache)@ && final(self).phase is Done && (
                r matches ReadStep::Serve(w) && w@ == downscale_spec(
                    v@,
                    old(self).mime@,
                    old(self).max_dim,
                )),
                None => if old(self).bmp_available {
                    final(cache)@ =~= old(cache)@ && final(self).phase is AwaitBmp && (
                    r matches ReadStep::FetchData(m) && m@ == "image/bmp"@)
                } else {
                    cache_fallback(*old(self), old(cache)@, final(cache)@, *final(self), r)
                },
            },
            old(self).phase is AwaitBmp ==> match data {
                None => cache_fallback(*old(self), old(cache)@, final(cache)@, *final(self), r),
                Some(bmp) => final(self).phase is Done && (match png_reencoding(bmp@) {
                    None => r is HardError && final(cache)@ =~= old(cache)@,
                    Some(png) => ({
                        let processed = downscale_spec(png, "image/png"@, old(self).max_dim);
                        &&& (r matches ReadStep::Serve(w) && w@ == processed)
                        &&& old(self).cache_enabled ==> final(cache)@ =~= abs_write_image(
                            old(cache)@,
                            processed,
                            "image/png"@,
                            old(self).now,
                        )
                        &&& !old(self).cache_enabled ==> final(cache)@ =~= old(cache)@
                    }),
                }),
            },
    {
        let phase_text = matches!(self.phase, ReadPhase::AwaitText);
        let phase_direct = matches!(self.phase, ReadPhase::AwaitDirect);
        if phase_text {
            self.phase = ReadPhase::Done;
            match data {
                Some(v) => ReadStep::Serve(v),
                None => ReadStep::NoData,
            }
        } else if phase_direct {
            match data {
                Some(v) => {
                    self.phase = ReadPhase::Done;
                    let processed = downscale_image_if_needed(&v, self.mime.as_str(), self.max_dim);
                    ReadStep::Serve(processed)
                },
                None => {
                    if self.bmp_available {
                        self.phase = ReadPhase::AwaitBmp;
                        ReadStep::FetchData(String::from_str("image/bmp"))
                    } else {
                        self.phase = ReadPhase::Done;
                        match cache.read_image(self.mime.as_str(), self.now, self.ttl) {
                            Some(v) => ReadStep::Serve(v),
                            None => ReadStep::NoData,
                        }
                    }
                },
            }
        } else {
            match data {
                Some(bmp) => {
                    self.phase = ReadPhase::Done;
                    match convert_bitmap_to_png(&bmp) {
                        Err(e) => ReadStep::HardError(e),
                        Ok(png) => {
                            let processed = downscale_image_if_needed(
                                &png,
                                "image/png",
                                self.max_dim,
                            );
                            if self.cache_enabled {
                                let copy = clone_bytes(&processed);
                                cache.write_image(copy, "image/png", self.now);
                            }
                            ReadStep::Serve(processed)
                        },
                    }
                },
                None => {
                    self.phase = ReadPhase::Done;
                    match cache.read_image(self.mime.as_str(), self.now, self.ttl) {
                        Some(v) => ReadStep::Serve(v),
                        None => ReadStep::NoData,
                    }
                },
            }
        }
    }
}

/// Outcome of a write request.
pub enum WriteOutcome {
    /// The content was stored in the cache.
    Stored,
    /// Stream input exceeded the configured size ceiling; nothing stored.
    TooBig,
    /// The type is outside the supported families; nothing stored.
    Unsupported,
}

/// The byte ceiling for stream input: the configured size limit, or 100
/// megabytes when none is configured.
pub open spec fn max_input_bytes_spec(max_mb: Option<u64>) -> int {
    match max_mb {
        Some(mb) => size_limit_bytes(mb),
        None => 100 * 0x100000int,
    }
}

/// The byte ceiling for stream input under this configuration.
pub fn max_input_bytes(cfg: Option<&Config>) -> (r: u64)
    ensures
        r == max_input_bytes_spec(spec_cfg_max_mb(cfg)),
{
    match cfg {
        Some(c) => match c.max_file_size_mb {
            Some(mb) => crate::validate::mb_to_bytes(mb),
            None => 100 * 0x100000,
        },
        None => 100 * 0x100000,
    }
}

/// The configured size ceiling in megabytes, if any.
pub open spec fn spec_cfg_max_mb(cfg: Option<&Config>) -> Option<u64> {
    match cfg {
        Some(c) => c.max_file_size_mb,
        None => None,
    }
}

/// Stream input of this length exceeds the ceiling.
pub open spec fn stream_too_big(len: int, cfg: Option<&Config>) -> bool {
    len > max_input_bytes_spec(spec_cfg_max_mb(cfg))
}

/// Store content of type `mime` into the cache.
///
/// Text-family content is stored as the text entry unchanged.  Image
/// content from the input stream is rejected when it exceeds the size
/// ceiling; otherwise image content is downscaled per configuration and
/// stored together with the normalized type marker.  Every other type is
/// rejected as unsupported.  Nothing but the described entry changes.
pub fn input_type(
    mime: &str,
    data: Vec<u8>,
    from_stdin: bool,
    cfg: Option<&Config>,
    now: u64,
    cache: &mut CacheModel,
) -> (r: WriteOutcome)
    ensures
        wf_cache(old(cache)@) ==> wf_cache(final(cache)@),
        text_plain_family(mime@) ==> r is Stored && final(cache)@ =~= abs_write_text(
            old(cache)@,
            data@,
            now,
        ),
        !text_plain_family(mime@) && is_image_mime(mime@) && from_stdin && stream_too_big(
            data@.len() as int,
            cfg,
        ) ==> r is TooBig && final(cache)@ =~= old(cache)@,
        !text_plain_family(mime@) && is_image_mime(mime@) && !(from_stdin && stream_too_big(
            data@.len() as int,
            cfg,
        )) ==> r is Stored && final(cache)@ =~= abs_write_image(
            old(cache)@,
            downscale_spec(data@, mime@, spec_max_dim(cfg)),
            mime@,
            now,
        ),
        !text_plain_family(mime@) && !is_image_mime(mime@) ==> r is Unsupported && final(cache)@
            =~= old(cache)@,
{
    if is_text_plain(mime) {
        cache.write_text(data, now);
        WriteOutcome::Stored
    } else if is_supported_image(mime) {
        if from_stdin && data.len() as u64 > max_input_bytes(cfg) {
            return WriteOutcome::TooBig;
        }
        let max_dim = crate::config::max_image_dimension(cfg);
        let processed = downscale_image_if_needed(&data, mime, max_dim);
        cache.write_image(processed, mime, now);
        WriteOutcome::Stored
    } else {
        WriteOutcome::Unsupported
    }
}

} // verus!
