//! Model of the cache store: the image payload with its type marker, and
//! the text payload, each with its modification time.
//!
//! The surrounding process materializes this model from the storage
//! directory's files before an operation and persists any change back
//! afterwards.  Every rule about the store — freshness, lazy expiry on
//! read, marker normalization, the jpg/jpeg alias — is decided here.

use vstd::prelude::*;
use crate::mime::{
    alias_matches, alias_matches_spec, is_image_mime, normalize_image_mime, normalize_image_spec,
};
use crate::image_ops::clone_bytes;

verus! {

/// A cache entry is usable while it is non-empty, its modification time is
/// not in the future, and it is at most `ttl` seconds old.
pub open spec fn entry_fresh(bytes: Seq<u8>, mtime: u64, now: u64, ttl: u64) -> bool {
    bytes.len() > 0 && mtime <= now && now - mtime <= ttl
}

/// The text payload artifact.
pub struct TextEntry {
    pub bytes: Vec<u8>,
    pub mtime: u64,
}

/// The image payload artifact together with its declared-type marker.
pub struct ImageEntry {
    pub bytes: Vec<u8>,
    pub format: String,
    pub mtime: u64,
}

/// Abstract value of the store.
#[verifier::ext_equal]
pub struct AbsCache {
    pub text: Option<(Seq<u8>, u64)>,
    pub image: Option<(Seq<u8>, Seq<char>, u64)>,
}

/// The cache store: up to one text entry and one image entry.
pub struct CacheModel {
    pub text: Option<TextEntry>,
    pub image: Option<ImageEntry>,
}

impl View for CacheModel {
    type V = AbsCache;

    open spec fn view(&self) -> AbsCache {
        AbsCache {
            text: match self.text {
                Some(e) => Some((e.bytes@, e.mtime)),
                None => None,
            },
            image: match self.image {
                Some(e) => Some((e.bytes@, e.format@, e.mtime)),
                None => None,
            },
        }
    }
}

/// Store invariant: a persisted image marker is always one of the
/// supported raster types in normalized form — `image/jpg` is never
/// stored.
pub open spec fn wf_cache(c: AbsCache) -> bool {
    c.image matches Some((b, f, t)) ==> is_image_mime(f) && f == normalize_image_spec(f)
}

/// Writing text replaces the text entry, stamped at `now`.
pub open spec fn abs_write_text(c: AbsCache, bytes: Seq<u8>, now: u64) -> AbsCache {
    AbsCache { text: Some((bytes, now)), image: c.image }
}

/// Reading text serves a fresh entry unchanged; an expired entry is
/// treated as absent and removed as a side effect of the read.
pub open spec fn abs_read_text(c: AbsCache, now: u64, ttl: u64) -> (Option<Seq<u8>>, AbsCache) {
    match c.text {
        Some((b, t)) => if entry_fresh(b, t, now, ttl) {
            (Some(b), c)
        } else {
            (None, AbsCache { text: None, image: c.image })
        },
        None => (None, c),
    }
}

/// Writing an image replaces the image entry with the bytes and the
/// normalized type marker, stamped at `now`.
pub open spec fn abs_write_image(c: AbsCache, bytes: Seq<u8>, mime: Seq<char>, now: u64) -> AbsCache {
    AbsCache { text: c.text, image: Some((bytes, normalize_image_spec(mime), now)) }
}

/// Reading an image serves a fresh entry whose stored marker matches the
/// request (exactly, or through the jpg alias for jpeg); a fresh mismatch
/// serves nothing and changes nothing; an expired entry is treated as
/// absent and removed as a side effect of the read.
pub open spec fn abs_read_image(c: AbsCache, mime: Seq<char>, now: u64, ttl: u64) -> (
    Option<Seq<u8>>,
    AbsCache,
) {
    match c.image {
        Some((b, f, t)) => if entry_fresh(b, t, now, ttl) {
            if alias_matches_spec(mime, f) {
                (Some(b), c)
            } else {
                (None, c)
            }
        } else {
            (None, AbsCache { text: c.text, image: None })
        },
        None => (None, c),
    }
}

impl CacheModel {
    /// An empty store.
    pub fn new() -> (r: CacheModel)
        ensures
            r@.text is None,
            r@.image is None,
            wf_cache(r@),
    {
        CacheModel { text: None, image: None }
    }

    /// Store text content.
    pub fn write_text(&mut self, bytes: Vec<u8>, now: u64)
        ensures
            final(self)@ =~= abs_write_text(old(self)@, bytes@, now),
            wf_cache(old(self)@) ==> wf_cache(final(self)@),
    {
        self.text = Some(TextEntry { bytes, mtime: now });
    }

    /// Serve text content, expiring a stale entry.
    pub fn read_text(&mut self, now: u64, ttl: u64) -> (r: Option<Vec<u8>>)
        ensures
            ({
                let (res, after) = abs_read_text(old(self)@, now, ttl);
                &&& final(self)@ =~= after
                &&& match r {
                    Some(v) => res matches Some(s) && v@ == s,
                    None => res is None,
                }
            }),
            wf_cache(old(self)@) ==> wf_cache(final(self)@),
    {
        let fresh = match &self.text {
            Some(e) => {
                let e_len_ok = e.bytes.len() > 0;
                e_len_ok && e.mtime <= now && now - e.mtime <= ttl
            },
            None => false,
        };
        match &self.text {
            Some(e) => {
                if fresh {
                    Some(clone_bytes(&e.bytes))
                } else {
                    self.text = None;
                    None
                }
            },
            None => None,
        }
    }

    /// Store image content under a supported raster type; the marker is
    /// persisted in normalized form.
    pub fn write_image(&mut self, bytes: Vec<u8>, mime: &str, now: u64)
        requires
            is_image_mime(mime@),
        ensures
            final(self)@ =~= abs_write_image(old(self)@, bytes@, mime@, now),
            wf_cache(old(self)@) ==> wf_cache(final(self)@),
    {
        proof {
            lemma_normalized_marker(mime@);
        }
        let format = normalize_image_mime(mime);
        self.image = Some(ImageEntry { bytes, format, mtime: now });
    }

    /// Serve image content for a requested type, expiring a stale entry.
    pub fn read_image(&mut self, mime: &str, now: u64, ttl: u64) -> (r: Option<Vec<u8>>)
        ensures
            ({
                let (res, after) = abs_read_image(old(self)@, mime@, now, ttl);
                &&& final(self)@ =~= after
                &&& match r {
                    Some(v) => res matches Some(s) && v@ == s,
                    None => res is None,
                }
            }),
            wf_cache(old(self)@) ==> wf_cache(final(self)@),
    {
        let fresh = match &self.image {
            Some(e) => {
                let e_len_ok = e.bytes.len() > 0;
                e_len_ok && e.mtime <= now && now - e.mtime <= ttl
            },
            None => false,
        };
        match &self.image {
            Some(e) => {
                if fresh {
                    if alias_matches(mime, e.format.as_str()) {
                        Some(clone_bytes(&e.bytes))
                    } else {
                        None
                    }
                } else {
                    self.image = None;
                    None
                }
            },
            None => None,
        }
    }
}

/// The stored image marker, if the image entry is fresh.
pub open spec fn fresh_image_marker_spec(c: AbsCache, now: u64, ttl: u64) -> Option<Seq<char>> {
    match c.image {
        Some((b, f, t)) => if entry_fresh(b, t, now, ttl) {
            Some(f)
        } else {
            None
        },
        None => None,
    }
}

/// The text entry is present and fresh.
pub open spec fn text_fresh_spec(c: AbsCache, now: u64, ttl: u64) -> bool {
    match c.text {
        Some((b, t)) => entry_fresh(b, t, now, ttl),
        None => false,
    }
}

impl CacheModel {
    /// The stored image marker if the image entry is fresh; a stale entry
    /// is expired as a side effect, exactly as on a read.
    pub fn fresh_image_marker(&mut self, now: u64, ttl: u64) -> (r: Option<String>)
        ensures
            match r {
                Some(f) => fresh_image_marker_spec(old(self)@, now, ttl) == Some(f@),
                None => fresh_image_marker_spec(old(self)@, now, ttl) is None,
            },
            r is Some ==> final(self)@ =~= old(self)@,
            r is None ==> final(self)@ =~= (AbsCache { text: old(self)@.text, image: None }),
            wf_cache(old(self)@) ==> wf_cache(final(self)@),
    {
        let fresh = match &self.image {
            Some(e) => {
                let e_len_ok = e.bytes.len() > 0;
                e_len_ok && e.mtime <= now && now - e.mtime <= ttl
            },
            None => false,
        };
        match &self.image {
            Some(e) => {
                if fresh {
                    Some(e.format.clone())
                } else {
                    self.image = None;
                    None
                }
            },
            None => {
                self.image = None;
                None
            },
        }
    }

    /// Whether the text entry is fresh; a stale entry is expired as a side
    /// effect, exactly as on a read.
    pub fn take_text_fresh(&mut self, now: u64, ttl: u64) -> (r: bool)
        ensures
            r == text_fresh_spec(old(self)@, now, ttl),
            r ==> final(self)@ =~= old(self)@,
            !r ==> final(self)@ =~= (AbsCache { text: None, image: old(self)@.image }),
            wf_cache(old(self)@) ==> wf_cache(final(self)@),
    {
        let fresh = match &self.text {
            Some(e) => {
                let e_len_ok = e.bytes.len() > 0;
                e_len_ok && e.mtime <= now && now - e.mtime <= ttl
            },
            None => false,
        };
        if fresh {
            true
        } else {
            self.text = None;
            false
        }
    }
}

/// Normalization sends every supported raster type to a supported type in
/// normalized form: `image/jpg` becomes `image/jpeg`, everything else is
/// already normalized.
pub proof fn lemma_normalized_marker(m: Seq<char>)
    requires
        is_image_mime(m),
    ensures
        is_image_mime(normalize_image_spec(m)),
        normalize_image_spec(m) == normalize_image_spec(normalize_image_spec(m)),
{
    reveal_strlit("image/jpg");
    reveal_strlit("image/jpeg");
    assert("image/jpg"@.len() == 9);
    assert("image/jpeg"@.len() == 10);
}

/// Round trip: writing text `x` and reading `text/plain` back at any time
/// within the time-to-live returns exactly `x`, and the read leaves the
/// store unchanged — so repeated reads within the time-to-live all return
/// the same bytes.
pub proof fn lemma_text_round_trip(c: AbsCache, x: Seq<u8>, now: u64, later: u64, ttl: u64)
    requires
        x.len() > 0,
        now <= later,
        later - now <= ttl,
    ensures
        ({
            let c1 = abs_write_text(c, x, now);
            let (res, after) = abs_read_text(c1, later, ttl);
            res == Some(x) && after =~= c1
        }),
{
}

/// Expiry: an entry older than the time-to-live (or empty, or stamped in
/// the future) is served as absent, and the read removes it.
pub proof fn lemma_expiry_prunes(c: AbsCache, mime: Seq<char>, now: u64, ttl: u64)
    ensures
        ({
            let (res, after) = abs_read_text(c, now, ttl);
            c.text matches Some((b, t)) && !entry_fresh(b, t, now, ttl) ==> res is None
                && after.text is None && after.image == c.image
        }),
        ({
            let (res, after) = abs_read_image(c, mime, now, ttl);
            c.image matches Some((b, f, t)) && !entry_fresh(b, t, now, ttl) ==> res is None
                && after.image is None && after.text == c.text
        }),
{
}

/// Alias symmetry: image bytes written as `image/jpg` are served for a
/// request of `image/jpeg`, and bytes written as `image/jpeg` are served
/// for a request of `image/jpg` — the same bytes in both directions.
pub proof fn lemma_alias_symmetry(c: AbsCache, x: Seq<u8>, now: u64, later: u64, ttl: u64)
    requires
        x.len() > 0,
        now <= later,
        later - now <= ttl,
    ensures
        abs_read_image(abs_write_image(c, x, "image/jpg"@, now), "image/jpeg"@, later, ttl).0
            == Some(x),
        abs_read_image(abs_write_image(c, x, "image/jpeg"@, now), "image/jpg"@, later, ttl).0
            == Some(x),
{
    reveal_strlit("image/jpg");
    reveal_strlit("image/jpeg");
    assert("image/jpg"@.len() == 9);
    assert("image/jpeg"@.len() == 10);
}

} // verus!
