//! Image transcoding: aspect-preserving downscaling and bitmap-to-PNG
//! conversion.
//!
//! Decoding, resampling and re-encoding are done by the `image` crate
//! behind trusted wrappers; everything those calls return is a function of
//! the input bytes alone, so each result carries an uninterpreted name.
//! The decision logic — when to downscale, which target dimensions, which
//! failures degrade to pass-through — is verified here.

use vstd::prelude::*;
use vstd::arithmetic::div_mod::{
    lemma_div_is_ordered, lemma_div_multiples_vanish, lemma_fundamental_div_mod, lemma_mod_bound,
};
use vstd::arithmetic::mul::{lemma_mul_inequality, lemma_mul_is_commutative};
use crate::mime::{image_kind_of, kind_of_spec, ImageKind};

verus! {

/// The pixel dimensions (width, height) that decoding the bytes yields,
/// or `None` when the bytes are not a decodable image.
pub uninterp spec fn decoded_dims(data: Seq<u8>) -> Option<(u32, u32)>;

/// The bytes produced by decoding `data`, resampling to `w` by `h` with a
/// Lanczos filter and re-encoding in the format of `mime`; `None` when
/// decoding or encoding fails.
pub uninterp spec fn resized_encoding(data: Seq<u8>, w: u32, h: u32, mime: Seq<char>) -> Option<
    Seq<u8>,
>;

/// The bytes produced by decoding `data` and re-encoding it as PNG at its
/// original dimensions; `None` when decoding or encoding fails.
pub uninterp spec fn png_reencoding(data: Seq<u8>) -> Option<Seq<u8>>;

/// Relies on `image::load_from_memory` and the decoded image's `width` and
/// `height` accessors: decoding is pure, so the decoded dimensions depend
/// on the bytes alone.
#[verifier::external_body]
fn probe_dims(data: &Vec<u8>) -> (r: Option<(u32, u32)>)
    ensures
        r == decoded_dims(data@),
{
    image::load_from_memory(data).ok().map(|img| (img.width(), img.height()))
}

/// Relies on `image::load_from_memory`, `DynamicImage::resize_exact` with
/// the Lanczos3 filter, and `DynamicImage::write_to`: all three are pure,
/// so the re-encoded bytes depend on the arguments alone; `resize_exact`
/// produces an image of exactly the requested dimensions, which encoding
/// and decoding preserve.
#[verifier::external_body]
fn resize_encode(data: &Vec<u8>, w: u32, h: u32, kind: ImageKind) -> (r: Option<Vec<u8>>)
    ensures
        (r is Some) == (resized_encoding(data@, w, h, kind.mime_spec()) is Some),
        r matches Some(v) ==> v@ == resized_encoding(data@, w, h, kind.mime_spec()).unwrap(),
        r matches Some(v) ==> decoded_dims(v@) == Some((w, h)),
{
    let img = image::load_from_memory(data).ok()?;
    let fmt = match kind {
        ImageKind::Png => image::ImageFormat::Png,
        ImageKind::Jpeg => image::ImageFormat::Jpeg,
        ImageKind::Gif => image::ImageFormat::Gif,
        ImageKind::Webp => image::ImageFormat::WebP,
    };
    let resized = img.resize_exact(w, h, image::imageops::FilterType::Lanczos3);
    let mut out = std::io::Cursor::new(Vec::new());
    resized.write_to(&mut out, fmt).ok()?;
    Some(out.into_inner())
}

/// Relies on `image::load_from_memory` and `DynamicImage::write_to` with
/// the PNG format: both are pure, so the PNG re-encoding depends on the
/// input bytes alone; re-encoding keeps the decoded pixel dimensions.
#[verifier::external_body]
fn reencode_as_png(data: &Vec<u8>) -> (r: Option<Vec<u8>>)
    ensures
        (r is Some) == (png_reencoding(data@) is Some),
        r matches Some(v) ==> v@ == png_reencoding(data@).unwrap(),
        r matches Some(v) ==> decoded_dims(v@) == decoded_dims(data@),
{
    let img = match image::load_from_memory(data) {
        Ok(i) => i,
        Err(_) => return None,
    };
    let mut out = std::io::Cursor::new(Vec::new());
    match img.write_to(&mut out, image::ImageFormat::Png) {
        Ok(()) => Some(out.into_inner()),
        Err(_) => None,
    }
}

/// The larger of the two dimensions.
pub open spec fn max_side(w: int, h: int) -> int {
    if w >= h {
        w
    } else {
        h
    }
}

/// Scaled width: both dimensions shrink by the factor `d / max_side`,
/// truncated.
pub open spec fn scaled_w(w: int, h: int, d: int) -> int {
    (w * d) / max_side(w, h)
}

/// Scaled height.
pub open spec fn scaled_h(w: int, h: int, d: int) -> int {
    (h * d) / max_side(w, h)
}

/// Downscaling applies only when a positive cap is configured and the
/// larger dimension exceeds it.
pub open spec fn needs_downscale(w: int, h: int, max_dim: Option<u32>) -> bool {
    match max_dim {
        Some(d) => d > 0 && max_side(w, h) > d,
        None => false,
    }
}

/// Copy of a byte vector.
pub fn clone_bytes(data: &Vec<u8>) -> (r: Vec<u8>)
    ensures
        r@ == data@,
{
    vstd::slice::slice_to_vec(data.as_slice())
}

/// The target dimensions for downscaling, or `None` when no downscaling
/// is called for (no cap, zero cap, or the image already fits).
pub fn downscale_dims(w: u32, h: u32, max_dim: Option<u32>) -> (r: Option<(u32, u32)>)
    ensures
        (r is Some) == needs_downscale(w as int, h as int, max_dim),
        r matches Some(p) ==> {
            &&& p.0 == scaled_w(w as int, h as int, max_dim.unwrap() as int)
            &&& p.1 == scaled_h(w as int, h as int, max_dim.unwrap() as int)
        },
{
    let d: u32 = match max_dim {
        Some(d) => d,
        None => return None,
    };
    if d == 0 {
        return None;
    }
    let mc: u32 = if w >= h {
        w
    } else {
        h
    };
    if mc <= d {
        return None;
    }
    proof {
        assert((w as int) * (d as int) <= 0xffff_ffff * 0xffff_ffff) by (nonlinear_arith)
            requires
                w <= 0xffff_ffffu32,
                d <= 0xffff_ffffu32,
        ;
        assert((h as int) * (d as int) <= 0xffff_ffff * 0xffff_ffff) by (nonlinear_arith)
            requires
                h <= 0xffff_ffffu32,
                d <= 0xffff_ffffu32,
        ;
        lemma_scaled_bounded(w as int, h as int, d as int);
    }
    let nw: u64 = (w as u64) * (d as u64) / (mc as u64);
    let nh: u64 = (h as u64) * (d as u64) / (mc as u64);
    Some((nw as u32, nh as u32))
}

/// Both scaled dimensions lie between 0 and the cap `d`.
pub proof fn lemma_scaled_bounded(w: int, h: int, d: int)
    requires
        0 <= w,
        0 <= h,
        0 < d,
        max_side(w, h) > d,
    ensures
        0 <= scaled_w(w, h, d) <= d,
        0 <= scaled_h(w, h, d) <= d,
{
    let mc = max_side(w, h);
    lemma_mul_inequality(w, mc, d);
    lemma_mul_inequality(h, mc, d);
    lemma_div_is_ordered(w * d, mc * d, mc);
    lemma_div_is_ordered(h * d, mc * d, mc);
    lemma_mul_is_commutative(mc, d);
    lemma_div_multiples_vanish(d, mc);
    lemma_div_multiples_vanish(0, mc);
    lemma_div_is_ordered(0, w * d, mc);
    lemma_div_is_ordered(0, h * d, mc);
}

/// Downscale invariant: when the larger dimension exceeds the cap, the
/// scaled larger dimension equals the cap exactly, and the aspect ratio is
/// preserved up to the one-pixel truncation error of the smaller side.
pub proof fn lemma_downscale_invariant(w: int, h: int, d: int)
    requires
        0 < w,
        0 < h,
        0 < d,
        max_side(w, h) > d,
    ensures
        max_side(scaled_w(w, h, d), scaled_h(w, h, d)) == d,
        w >= h ==> scaled_w(w, h, d) == d && 0 <= d * h - scaled_h(w, h, d) * w < w,
        h > w ==> scaled_h(w, h, d) == d && 0 <= d * w - scaled_w(w, h, d) * h < h,
{
    lemma_scaled_bounded(w, h, d);
    let mc = max_side(w, h);
    if w >= h {
        lemma_mul_is_commutative(w, d);
        lemma_div_multiples_vanish(d, w);
        assert(scaled_w(w, h, d) == d);
        lemma_fundamental_div_mod(h * d, w);
        lemma_mod_bound(h * d, w);
        lemma_mul_is_commutative(h, d);
        lemma_mul_is_commutative(w, (h * d) / w);
        assert(d * h - scaled_h(w, h, d) * w == (h * d) % w);
    } else {
        lemma_mul_is_commutative(h, d);
        lemma_div_multiples_vanish(d, h);
        assert(scaled_h(w, h, d) == d);
        lemma_fundamental_div_mod(w * d, h);
        lemma_mod_bound(w * d, h);
        lemma_mul_is_commutative(w, d);
        lemma_mul_is_commutative(h, (w * d) / h);
        assert(d * w - scaled_w(w, h, d) * h == (w * d) % h);
    }
}

/// The target dimensions of a downscaled image.
pub open spec fn scaled_dims_of(data: Seq<u8>, d: u32) -> (u32, u32) {
    let w = decoded_dims(data).unwrap().0;
    let h = decoded_dims(data).unwrap().1;
    (
        (scaled_w(w as int, h as int, d as int) as u32),
        (scaled_h(w as int, h as int, d as int) as u32),
    )
}

/// Downscaling applies to these bytes and this request: the type is a
/// supported raster family, the bytes decode, and the decoded image
/// exceeds a configured positive cap.
pub open spec fn downscale_applies(data: Seq<u8>, mime: Seq<char>, max_dim: Option<u32>) -> bool {
    &&& kind_of_spec(mime) is Some
    &&& decoded_dims(data) is Some
    &&& needs_downscale(
        decoded_dims(data).unwrap().0 as int,
        decoded_dims(data).unwrap().1 as int,
        max_dim,
    )
}

/// What downscaling returns: the re-encoding at the scaled dimensions when
/// it applies and the encoder succeeds, the input bytes unchanged in every
/// other case (no cap, unknown type, undecodable bytes, image already
/// within the cap, or encoder failure).
pub open spec fn downscale_spec(data: Seq<u8>, mime: Seq<char>, max_dim: Option<u32>) -> Seq<u8> {
    if downscale_applies(data, mime, max_dim) {
        let w = decoded_dims(data).unwrap().0;
        let h = decoded_dims(data).unwrap().1;
        let d = max_dim.unwrap();
        let nw = scaled_w(w as int, h as int, d as int) as u32;
        let nh = scaled_h(w as int, h as int, d as int) as u32;
        match resized_encoding(data, nw, nh, kind_of_spec(mime).unwrap().mime_spec()) {
            Some(out) => out,
            None => data,
        }
    } else {
        data
    }
}

/// Outcome of best-effort downscaling, distinguishing a genuine transform
/// from the degrade-to-pass-through paths.
pub enum ScaleOutcome {
    /// The bytes were resampled and re-encoded.
    Transformed(Vec<u8>),
    /// The input bytes come back unchanged.
    PassThrough(Vec<u8>),
}

impl ScaleOutcome {
    /// The carried bytes.
    pub open spec fn bytes(self) -> Seq<u8> {
        match self {
            ScaleOutcome::Transformed(v) => v@,
            ScaleOutcome::PassThrough(v) => v@,
        }
    }
}

/// Best-effort downscaling.  Never fails: every error path degrades to
/// returning the input bytes unchanged.
pub fn downscale_image(data: &Vec<u8>, mime: &str, max_dim: Option<u32>) -> (r: ScaleOutcome)
    ensures
        r.bytes() == downscale_spec(data@, mime@, max_dim),
        r is PassThrough ==> r.bytes() == data@,
        r is Transformed ==> downscale_applies(data@, mime@, max_dim),
        r is Transformed ==> decoded_dims(r.bytes()) == Some(
            scaled_dims_of(data@, max_dim.unwrap()),
        ),
{
    let positive_cap = match max_dim {
        Some(d) => d > 0,
        None => false,
    };
    if !positive_cap {
        return ScaleOutcome::PassThrough(clone_bytes(data));
    }
    let kind = match image_kind_of(mime) {
        Some(k) => k,
        None => return ScaleOutcome::PassThrough(clone_bytes(data)),
    };
    let (w, h) = match probe_dims(data) {
        Some(p) => p,
        None => return ScaleOutcome::PassThrough(clone_bytes(data)),
    };
    let (nw, nh) = match downscale_dims(w, h, max_dim) {
        Some(p) => p,
        None => return ScaleOutcome::PassThrough(clone_bytes(data)),
    };
    match resize_encode(data, nw, nh, kind) {
        Some(out) => ScaleOutcome::Transformed(out),
        None => ScaleOutcome::PassThrough(clone_bytes(data)),
    }
}

/// Best-effort downscaling, returning only the bytes.
pub fn downscale_image_if_needed(data: &Vec<u8>, mime: &str, max_dim: Option<u32>) -> (r: Vec<u8>)
    ensures
        r@ == downscale_spec(data@, mime@, max_dim),
{
    match downscale_image(data, mime, max_dim) {
        ScaleOutcome::Transformed(v) => v,
        ScaleOutcome::PassThrough(v) => v,
    }
}

/// Failure of the bitmap-to-PNG conversion, the one transcoding path whose
/// errors are not degraded to pass-through.
#[derive(Debug)]
pub enum ConvertError {
    /// The bytes did not decode, or PNG encoding failed.
    InvalidData,
}

/// Convert decodable bytes (in practice a bitmap) to PNG.  Unlike
/// downscaling this propagates failure: a silent pass-through would hand
/// back a format the requester cannot read.
pub fn convert_bitmap_to_png(data: &Vec<u8>) -> (r: Result<Vec<u8>, ConvertError>)
    ensures
        (r is Ok) == (png_reencoding(data@) is Some),
        r matches Ok(v) ==> v@ == png_reencoding(data@).unwrap(),
        r matches Ok(v) ==> decoded_dims(v@) == decoded_dims(data@),
{
    match reencode_as_png(data) {
        Some(v) => Ok(v),
        None => Err(ConvertError::InvalidData),
    }
}

} // verus!
