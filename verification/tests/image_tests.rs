use clip_bridge::cache::CacheModel;
use clip_bridge::image_ops::{
    convert_bitmap_to_png, downscale_dims, downscale_image, downscale_image_if_needed, ScaleOutcome,
};
use clip_bridge::resolve::{ReadSession, ReadStep};

fn png_bytes(w: u32, h: u32) -> Vec<u8> {
    let img = image::RgbImage::from_pixel(w, h, image::Rgb([10u8, 200u8, 30u8]));
    let mut out = std::io::Cursor::new(Vec::new());
    image::DynamicImage::ImageRgb8(img)
        .write_to(&mut out, image::ImageFormat::Png)
        .expect("png encode");
    out.into_inner()
}

fn bmp_bytes(w: u32, h: u32) -> Vec<u8> {
    let img = image::RgbImage::from_pixel(w, h, image::Rgb([1u8, 2u8, 3u8]));
    let mut out = std::io::Cursor::new(Vec::new());
    image::DynamicImage::ImageRgb8(img)
        .write_to(&mut out, image::ImageFormat::Bmp)
        .expect("bmp encode");
    out.into_inner()
}

fn dims_of(data: &[u8]) -> (u32, u32) {
    let img = image::load_from_memory(data).expect("decode");
    (img.width(), img.height())
}

#[test]
fn downscale_dims_exact_values() {
    assert_eq!(downscale_dims(100, 50, Some(10)), Some((10, 5)));
    assert_eq!(downscale_dims(50, 100, Some(10)), Some((5, 10)));
    assert_eq!(downscale_dims(3000, 2000, Some(1568)), Some((1568, 1045)));
    assert_eq!(downscale_dims(10, 10, Some(10)), None);
    assert_eq!(downscale_dims(10, 10, Some(0)), None);
    assert_eq!(downscale_dims(10, 10, None), None);
}

#[test]
fn downscale_shrinks_larger_dimension_to_cap() {
    let data = png_bytes(100, 50);
    let out = downscale_image_if_needed(&data, "image/png", Some(10));
    assert_eq!(dims_of(&out), (10, 5));
}

#[test]
fn downscale_within_cap_is_identity() {
    let data = png_bytes(20, 10);
    let out = downscale_image_if_needed(&data, "image/png", Some(100));
    assert_eq!(out, data);
    let out = downscale_image_if_needed(&data, "image/png", None);
    assert_eq!(out, data);
    let out = downscale_image_if_needed(&data, "image/png", Some(0));
    assert_eq!(out, data);
}

#[test]
fn downscale_corrupt_input_passes_through() {
    let junk = vec![1u8, 2, 3, 4, 5];
    let out = downscale_image(&junk, "image/png", Some(10));
    match out {
        ScaleOutcome::PassThrough(v) => assert_eq!(v, junk),
        ScaleOutcome::Transformed(_) => panic!("corrupt input must pass through"),
    }
}

#[test]
fn downscale_unknown_type_passes_through() {
    let data = png_bytes(100, 50);
    let out = downscale_image_if_needed(&data, "application/octet-stream", Some(10));
    assert_eq!(out, data);
}

#[test]
fn bitmap_converts_to_png() {
    let bmp = bmp_bytes(7, 4);
    let png = convert_bitmap_to_png(&bmp).expect("conversion");
    let img = image::load_from_memory(&png).expect("valid png");
    assert_eq!((img.width(), img.height()), (7, 4));
    assert_eq!(image::guess_format(&png).unwrap(), image::ImageFormat::Png);
}

#[test]
fn bitmap_conversion_rejects_junk() {
    assert!(convert_bitmap_to_png(&vec![9u8; 16]).is_err());
}

#[test]
fn bmp_only_daemon_serves_png_and_caches_marker() {
    let mut cache = CacheModel::new();
    let bmp = bmp_bytes(6, 3);
    let (mut s, step) =
        ReadSession::start("image/png".to_string(), None, true, 77, 300, &mut cache);
    assert!(matches!(step, ReadStep::FetchTypes));
    let step = s.on_types(true, &vec!["image/bmp".to_string()], &mut cache);
    match &step {
        ReadStep::FetchData(m) => assert_eq!(m, "image/bmp"),
        _ => panic!("expected bitmap fetch"),
    }
    let step = s.on_fetch(Some(bmp), &mut cache);
    let served = match step {
        ReadStep::Serve(v) => v,
        _ => panic!("expected serve"),
    };
    assert_eq!(dims_of(&served), (6, 3));
    assert_eq!(image::guess_format(&served).unwrap(), image::ImageFormat::Png);
    let entry = cache.image.as_ref().expect("converted image cached");
    assert_eq!(entry.format, "image/png");
    assert_eq!(entry.bytes, served);
    assert_eq!(entry.mtime, 77);
}

#[test]
fn bmp_conversion_not_cached_when_disabled() {
    let mut cache = CacheModel::new();
    let bmp = bmp_bytes(5, 5);
    let (mut s, _) = ReadSession::start("image/png".to_string(), None, false, 0, 300, &mut cache);
    let _ = s.on_types(true, &vec!["image/bmp".to_string()], &mut cache);
    let step = s.on_fetch(Some(bmp), &mut cache);
    assert!(matches!(step, ReadStep::Serve(_)));
    assert!(cache.image.is_none());
}

#[test]
fn bmp_conversion_failure_is_hard_error() {
    let mut cache = CacheModel::new();
    let (mut s, _) = ReadSession::start("image/png".to_string(), None, true, 0, 300, &mut cache);
    let _ = s.on_types(true, &vec!["image/bmp".to_string()], &mut cache);
    let step = s.on_fetch(Some(vec![0u8; 8]), &mut cache);
    assert!(matches!(step, ReadStep::HardError(_)));
    assert!(cache.image.is_none());
}

#[test]
fn direct_image_fetch_is_downscaled() {
    let mut cache = CacheModel::new();
    let big = png_bytes(40, 20);
    let (mut s, step) =
        ReadSession::start("image/png".to_string(), Some(10), true, 0, 300, &mut cache);
    assert!(matches!(step, ReadStep::FetchTypes));
    let step = s.on_types(true, &vec!["image/png".to_string()], &mut cache);
    assert!(matches!(step, ReadStep::FetchData(_)));
    let step = s.on_fetch(Some(big), &mut cache);
    let served = match step {
        ReadStep::Serve(v) => v,
        _ => panic!("expected serve"),
    };
    assert_eq!(dims_of(&served), (10, 5));
    assert!(cache.image.is_none(), "direct fetches are not cached back");
}
