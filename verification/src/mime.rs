//! MIME type classification, normalization and aliasing.
//!
//! All three operations (enumerate, read, write) go through these
//! predicates, so the `image/jpg` / `image/jpeg` aliasing and the
//! text-family prefix rules are decided in exactly one place.

use vstd::prelude::*;
use vstd::string::*;

verus! {

/// Character-for-character string equality.
pub fn str_eq(a: &str, b: &str) -> (r: bool)
    ensures
        r == (a@ == b@),
{
    let sa = String::from_str(a);
    let sb = String::from_str(b);
    sa.eq(&sb)
}

/// `s` starts with `p`.
pub open spec fn has_prefix_spec(s: Seq<char>, p: Seq<char>) -> bool {
    s.len() >= p.len() && s.subrange(0, p.len() as int) == p
}

/// Whether `s` starts with the prefix `p`.
pub fn str_has_prefix(s: &str, p: &str) -> (r: bool)
    ensures
        r == has_prefix_spec(s@, p@),
{
    let n = p.unicode_len();
    if s.unicode_len() < n {
        return false;
    }
    let sub = s.substring_char(0, n);
    str_eq(sub, p)
}

/// The requested type asks for plain text (`text/plain` and any
/// parameterized variant such as `text/plain;charset=utf-8`).
pub open spec fn text_plain_family(s: Seq<char>) -> bool {
    has_prefix_spec(s, "text/plain"@)
}

/// Any `text/*` type.
pub open spec fn text_family(s: Seq<char>) -> bool {
    has_prefix_spec(s, "text/"@)
}

/// The raster image types the bridge stores and serves.  Bitmap is not
/// among them: it is only ever a conversion source.
pub open spec fn is_image_mime(s: Seq<char>) -> bool {
    ||| s == "image/png"@
    ||| s == "image/jpeg"@
    ||| s == "image/jpg"@
    ||| s == "image/gif"@
    ||| s == "image/webp"@
}

/// The normalized form persisted in the cache's type marker:
/// `image/jpg` is never stored, it becomes `image/jpeg`.
pub open spec fn normalize_image_spec(s: Seq<char>) -> Seq<char> {
    if s == "image/jpg"@ {
        "image/jpeg"@
    } else {
        s
    }
}

/// A stored type marker satisfies a request either exactly or through the
/// `image/jpg` alias for `image/jpeg`.
pub open spec fn alias_matches_spec(req: Seq<char>, stored: Seq<char>) -> bool {
    req == stored || (req == "image/jpg"@ && stored == "image/jpeg"@)
}

/// Whether `m` asks for plain text.
pub fn is_text_plain(m: &str) -> (r: bool)
    ensures
        r == text_plain_family(m@),
{
    str_has_prefix(m, "text/plain")
}

/// Whether `m` is any `text/*` type.
pub fn is_text_type(m: &str) -> (r: bool)
    ensures
        r == text_family(m@),
{
    str_has_prefix(m, "text/")
}

/// Whether `m` is one of the supported raster image types.
pub fn is_supported_image(m: &str) -> (r: bool)
    ensures
        r == is_image_mime(m@),
{
    str_eq(m, "image/png") || str_eq(m, "image/jpeg") || str_eq(m, "image/jpg") || str_eq(
        m,
        "image/gif",
    ) || str_eq(m, "image/webp")
}

/// The normalized marker text for an image type.
pub fn normalize_image_mime(m: &str) -> (r: String)
    ensures
        r@ == normalize_image_spec(m@),
{
    if str_eq(m, "image/jpg") {
        String::from_str("image/jpeg")
    } else {
        String::from_str(m)
    }
}

/// Whether the stored marker `stored` satisfies a request for `req`.
pub fn alias_matches(req: &str, stored: &str) -> (r: bool)
    ensures
        r == alias_matches_spec(req@, stored@),
{
    str_eq(req, stored) || (str_eq(req, "image/jpg") && str_eq(stored, "image/jpeg"))
}

/// The image format families a decoded image can be re-encoded to.
pub enum ImageKind {
    Png,
    Jpeg,
    Gif,
    Webp,
}

impl ImageKind {
    /// The canonical MIME string of the format family.
    pub open spec fn mime_spec(self) -> Seq<char> {
        match self {
            ImageKind::Png => "image/png"@,
            ImageKind::Jpeg => "image/jpeg"@,
            ImageKind::Gif => "image/gif"@,
            ImageKind::Webp => "image/webp"@,
        }
    }
}

/// The re-encoding target for a requested image MIME type; `None` for a
/// type outside the supported raster families.
pub open spec fn kind_of_spec(s: Seq<char>) -> Option<ImageKind> {
    if s == "image/png"@ {
        Some(ImageKind::Png)
    } else if s == "image/jpeg"@ || s == "image/jpg"@ {
        Some(ImageKind::Jpeg)
    } else if s == "image/gif"@ {
        Some(ImageKind::Gif)
    } else if s == "image/webp"@ {
        Some(ImageKind::Webp)
    } else {
        None
    }
}

/// The re-encoding target for `m`.
pub fn image_kind_of(m: &str) -> (r: Option<ImageKind>)
    ensures
        r == kind_of_spec(m@),
{
    if str_eq(m, "image/png") {
        Some(ImageKind::Png)
    } else if str_eq(m, "image/jpeg") || str_eq(m, "image/jpg") {
        Some(ImageKind::Jpeg)
    } else if str_eq(m, "image/gif") {
        Some(ImageKind::Gif)
    } else if str_eq(m, "image/webp") {
        Some(ImageKind::Webp)
    } else {
        None
    }
}

} // verus!
