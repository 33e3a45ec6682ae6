use clip_bridge::args::parse_args;
use clip_bridge::cache::CacheModel;
use clip_bridge::config::{load_ttl, wl_clipboard_available, Config};
use clip_bridge::daemon::{fetch_from_wl_clipboard, get_wl_clipboard_types, split_lines};
use clip_bridge::fresh::{is_file_fresh, is_file_non_empty, FileMeta};
use clip_bridge::harness::{poll_step, PollDecision, POLL_INTERVAL_MS, WL_CLIPBOARD_TIMEOUT_MS};
use clip_bridge::paths::{get_image_format_path, get_image_path, get_text_path};
use clip_bridge::resolve::{input_type, max_input_bytes, ReadSession, ReadStep, WriteOutcome};
use clip_bridge::targets::print_targets;
use clip_bridge::validate::{mb_to_bytes, validate_file_access, AccessError};

fn cfg(
    ttl: Option<u64>,
    max_dim: Option<u32>,
    max_mb: Option<u64>,
    dirs: Option<Vec<&str>>,
    mode: Option<&str>,
    cache_images: Option<bool>,
) -> Config {
    Config {
        ttl_secs: ttl,
        max_image_dimension: max_dim,
        max_file_size_mb: max_mb,
        allowed_directories: dirs.map(|v| v.into_iter().map(String::from).collect()),
        clipboard_mode: mode.map(String::from),
        cache_wl_images: cache_images,
    }
}

fn strs(v: Vec<&str>) -> Vec<String> {
    v.into_iter().map(String::from).collect()
}

#[test]
fn freshness_within_ttl() {
    let meta = FileMeta { exists: true, is_file: true, len: 5, modified: Some(1000) };
    assert!(is_file_fresh(&meta, 1300, 300));
    assert!(is_file_fresh(&meta, 1000, 300));
    assert!(!is_file_fresh(&meta, 1301, 300));
}

#[test]
fn freshness_requires_non_empty_file() {
    let empty = FileMeta { exists: true, is_file: true, len: 0, modified: Some(1000) };
    assert!(!is_file_fresh(&empty, 1000, 300));
    assert!(!is_file_non_empty(&empty));
    let dir = FileMeta { exists: true, is_file: false, len: 5, modified: Some(1000) };
    assert!(!is_file_fresh(&dir, 1000, 300));
    let missing = FileMeta { exists: false, is_file: false, len: 0, modified: None };
    assert!(!is_file_fresh(&missing, 1000, 300));
}

#[test]
fn freshness_future_mtime_is_stale() {
    let meta = FileMeta { exists: true, is_file: true, len: 5, modified: Some(2000) };
    assert!(!is_file_fresh(&meta, 1999, 300));
}

#[test]
fn text_round_trip_is_idempotent() {
    let mut cache = CacheModel::new();
    cache.write_text(b"hello".to_vec(), 100);
    let first = cache.read_text(150, 300).expect("fresh text");
    assert_eq!(first, b"hello".to_vec());
    let second = cache.read_text(380, 300).expect("still fresh");
    assert_eq!(second, b"hello".to_vec());
}

#[test]
fn expired_text_is_absent_and_pruned() {
    let mut cache = CacheModel::new();
    cache.write_text(b"old".to_vec(), 0);
    assert!(cache.read_text(301, 300).is_none());
    assert!(cache.text.is_none());
}

#[test]
fn expired_image_is_absent_and_pruned() {
    let mut cache = CacheModel::new();
    cache.write_image(b"img".to_vec(), "image/png", 0);
    assert!(cache.read_image("image/png", 500, 300).is_none());
    assert!(cache.image.is_none());
}

#[test]
fn alias_symmetry_jpg_jpeg() {
    let mut cache = CacheModel::new();
    cache.write_image(b"abc".to_vec(), "image/jpg", 10);
    assert_eq!(cache.image.as_ref().unwrap().format, "image/jpeg");
    assert_eq!(cache.read_image("image/jpeg", 20, 300), Some(b"abc".to_vec()));

    let mut cache2 = CacheModel::new();
    cache2.write_image(b"abc".to_vec(), "image/jpeg", 10);
    assert_eq!(cache2.read_image("image/jpg", 20, 300), Some(b"abc".to_vec()));
}

#[test]
fn mismatched_fresh_image_not_served_nor_pruned() {
    let mut cache = CacheModel::new();
    cache.write_image(b"abc".to_vec(), "image/png", 10);
    assert!(cache.read_image("image/gif", 20, 300).is_none());
    assert!(cache.image.is_some());
}

#[test]
fn enumeration_has_no_duplicates() {
    let mut cache = CacheModel::new();
    cache.write_image(b"img".to_vec(), "image/jpeg", 100);
    cache.write_text(b"txt".to_vec(), 100);
    let types = strs(vec![
        "image/png",
        "image/png",
        "image/jpeg",
        "image/jpg",
        "text/html",
        "text/html",
        "image/bmp",
        "application/x-unknown",
    ]);
    let out = print_targets(&mut cache, 150, 300, true, &types);
    for i in 0..out.len() {
        for j in (i + 1)..out.len() {
            assert_ne!(out[i], out[j], "duplicate emitted");
        }
    }
    assert!(out.contains(&"image/jpeg".to_string()));
    assert!(out.contains(&"image/jpg".to_string()));
    assert!(out.contains(&"image/png".to_string()));
    assert!(out.contains(&"text/html".to_string()));
    assert!(out.contains(&"text/plain;charset=utf-8".to_string()));
    assert!(out.contains(&"STRING".to_string()));
    assert!(!out.contains(&"image/bmp".to_string()));
    assert!(!out.contains(&"application/x-unknown".to_string()));
}

#[test]
fn enumeration_text_round_trip_tokens() {
    let mut cache = CacheModel::new();
    cache.write_text(b"hello".to_vec(), 100);
    let out = print_targets(&mut cache, 120, 300, false, &Vec::new());
    assert_eq!(out, strs(vec!["text/plain;charset=utf-8", "STRING"]));
}

#[test]
fn enumeration_prunes_stale_entries() {
    let mut cache = CacheModel::new();
    cache.write_image(b"img".to_vec(), "image/png", 0);
    cache.write_text(b"txt".to_vec(), 0);
    let out = print_targets(&mut cache, 1000, 300, false, &Vec::new());
    assert!(out.is_empty());
    assert!(cache.image.is_none());
    assert!(cache.text.is_none());
}

#[test]
fn enumeration_bmp_advertises_png_only() {
    let mut cache = CacheModel::new();
    let out = print_targets(&mut cache, 0, 300, true, &strs(vec!["image/bmp"]));
    assert_eq!(out, strs(vec!["image/png"]));
}

#[test]
fn enumeration_daemon_charset_suppresses_legacy_token() {
    // when the daemon itself advertises the parameterized text type, the
    // cache's fresh text adds nothing and the legacy token stays out
    let mut cache = CacheModel::new();
    cache.write_text(b"txt".to_vec(), 100);
    let out = print_targets(&mut cache, 120, 300, true, &strs(vec!["text/plain;charset=utf-8"]));
    assert_eq!(out, strs(vec!["text/plain;charset=utf-8"]));
}

#[test]
fn enumeration_emits_fresh_marker_first() {
    let mut cache = CacheModel::new();
    cache.write_image(b"img".to_vec(), "image/gif", 100);
    let out = print_targets(&mut cache, 120, 300, true, &strs(vec!["image/png"]));
    assert_eq!(out, strs(vec!["image/gif", "image/png"]));
}

#[test]
fn image_read_with_stale_cache_and_no_daemon_fails_and_prunes() {
    let mut cache = CacheModel::new();
    cache.write_image(b"old".to_vec(), "image/png", 0);
    let (mut s, step) =
        ReadSession::start("image/png".to_string(), None, true, 1000, 300, &mut cache);
    assert!(matches!(step, ReadStep::FetchTypes));
    let step = s.on_types(false, &Vec::new(), &mut cache);
    assert!(matches!(step, ReadStep::NoData));
    assert!(cache.image.is_none(), "stale entry expired by the read");
}

#[test]
fn text_read_serves_cache_first() {
    let mut cache = CacheModel::new();
    cache.write_text(b"hi".to_vec(), 100);
    let (_s, step) = ReadSession::start("text/plain".to_string(), None, true, 150, 300, &mut cache);
    match step {
        ReadStep::Serve(v) => assert_eq!(v, b"hi".to_vec()),
        _ => panic!("expected immediate serve"),
    }
}

#[test]
fn text_read_falls_back_to_daemon() {
    let mut cache = CacheModel::new();
    let (mut s, step) =
        ReadSession::start("text/plain;charset=utf-8".to_string(), None, true, 0, 300, &mut cache);
    assert!(matches!(step, ReadStep::FetchTypes));
    let step = s.on_types(true, &strs(vec!["text/html"]), &mut cache);
    match step {
        ReadStep::FetchData(m) => assert_eq!(m, "text/plain"),
        _ => panic!("expected a text fetch"),
    }
    let step = s.on_fetch(Some(b"live".to_vec()), &mut cache);
    match step {
        ReadStep::Serve(v) => assert_eq!(v, b"live".to_vec()),
        _ => panic!("expected serve"),
    }
    assert!(cache.text.is_none(), "fetched text is not cached back");
}

#[test]
fn text_read_fails_without_text_source() {
    let mut cache = CacheModel::new();
    let (mut s, step) = ReadSession::start("text/plain".to_string(), None, true, 0, 300, &mut cache);
    assert!(matches!(step, ReadStep::FetchTypes));
    let step = s.on_types(true, &strs(vec!["image/png"]), &mut cache);
    assert!(matches!(step, ReadStep::NoData));
}

#[test]
fn unknown_type_read_fails() {
    let mut cache = CacheModel::new();
    let (_s, step) =
        ReadSession::start("application/json".to_string(), None, true, 0, 300, &mut cache);
    assert!(matches!(step, ReadStep::NoData));
}

#[test]
fn image_read_prefers_daemon_then_cache() {
    let mut cache = CacheModel::new();
    cache.write_image(b"cached".to_vec(), "image/gif", 100);
    let (mut s, step) =
        ReadSession::start("image/gif".to_string(), None, true, 150, 300, &mut cache);
    assert!(matches!(step, ReadStep::FetchTypes));
    // daemon advertises the type; the direct fetch wins
    let step = s.on_types(true, &strs(vec!["image/gif"]), &mut cache);
    match step {
        ReadStep::FetchData(m) => assert_eq!(m, "image/gif"),
        _ => panic!("expected direct fetch"),
    }
    let step = s.on_fetch(Some(b"live".to_vec()), &mut cache);
    match step {
        // undecodable bytes degrade to pass-through, so the served bytes
        // are exactly the fetched ones
        ReadStep::Serve(v) => assert_eq!(v, b"live".to_vec()),
        _ => panic!("expected serve"),
    }
}

#[test]
fn image_read_falls_back_to_cache_when_daemon_lacks_type() {
    let mut cache = CacheModel::new();
    cache.write_image(b"cached".to_vec(), "image/gif", 100);
    let (mut s, step) =
        ReadSession::start("image/gif".to_string(), None, true, 150, 300, &mut cache);
    assert!(matches!(step, ReadStep::FetchTypes));
    let step = s.on_types(true, &strs(vec!["text/html"]), &mut cache);
    match step {
        ReadStep::Serve(v) => assert_eq!(v, b"cached".to_vec()),
        _ => panic!("expected cache serve"),
    }
}

#[test]
fn image_read_failed_direct_fetch_falls_back() {
    let mut cache = CacheModel::new();
    cache.write_image(b"cached".to_vec(), "image/png", 100);
    let (mut s, step) =
        ReadSession::start("image/png".to_string(), None, true, 150, 300, &mut cache);
    assert!(matches!(step, ReadStep::FetchTypes));
    let step = s.on_types(true, &strs(vec!["image/png"]), &mut cache);
    assert!(matches!(step, ReadStep::FetchData(_)));
    let step = s.on_fetch(None, &mut cache);
    match step {
        ReadStep::Serve(v) => assert_eq!(v, b"cached".to_vec()),
        _ => panic!("expected cache serve after failed fetch"),
    }
}

#[test]
fn oversized_stream_write_is_rejected() {
    let mut cache = CacheModel::new();
    let c = cfg(None, None, Some(1), None, None, None);
    let two_mb = vec![0u8; 2 * 1024 * 1024];
    let out = input_type("image/png", two_mb, true, Some(&c), 50, &mut cache);
    assert!(matches!(out, WriteOutcome::TooBig));
    assert!(cache.image.is_none(), "no cache entry on rejected write");
    assert!(cache.text.is_none());
}

#[test]
fn file_write_is_not_stream_capped() {
    let mut cache = CacheModel::new();
    let c = cfg(None, None, Some(1), None, None, None);
    let two_mb = vec![7u8; 2 * 1024 * 1024];
    let out = input_type("image/png", two_mb.clone(), false, Some(&c), 50, &mut cache);
    assert!(matches!(out, WriteOutcome::Stored));
    assert_eq!(cache.image.as_ref().unwrap().bytes, two_mb);
}

#[test]
fn unsupported_write_is_rejected() {
    let mut cache = CacheModel::new();
    let out = input_type("application/pdf", b"x".to_vec(), false, None, 0, &mut cache);
    assert!(matches!(out, WriteOutcome::Unsupported));
    assert!(cache.image.is_none() && cache.text.is_none());
}

#[test]
fn text_write_stores_exact_bytes() {
    let mut cache = CacheModel::new();
    let out = input_type("text/plain", b"hello".to_vec(), true, None, 5, &mut cache);
    assert!(matches!(out, WriteOutcome::Stored));
    assert_eq!(cache.read_text(5, 300), Some(b"hello".to_vec()));
}

#[test]
fn allow_list_rejects_outside_paths() {
    let c = cfg(None, None, None, Some(vec!["/home/user"]), None, None);
    let r = validate_file_access(Some(&c), Some(10), "/etc/passwd");
    assert!(matches!(r, Err(AccessError::NotAllowed)));
    let r = validate_file_access(Some(&c), Some(10), "/home/user/doc.txt");
    assert!(r.is_ok());
    let r = validate_file_access(Some(&c), Some(10), "/home/user");
    assert!(r.is_ok());
    let r = validate_file_access(Some(&c), Some(10), "/home/userx/doc.txt");
    assert!(matches!(r, Err(AccessError::NotAllowed)));
}

#[test]
fn size_ceiling_rejects_large_files() {
    let c = cfg(None, None, Some(1), None, None, None);
    let r = validate_file_access(Some(&c), Some(2 * 1024 * 1024), "/tmp/big");
    assert!(matches!(r, Err(AccessError::TooLarge(1))));
    let r = validate_file_access(Some(&c), Some(1024 * 1024), "/tmp/ok");
    assert!(r.is_ok());
    let r = validate_file_access(Some(&c), None, "/tmp/unknown");
    assert!(r.is_ok());
}

#[test]
fn no_config_allows_everything() {
    assert!(validate_file_access(None, Some(u64::MAX), "/anywhere").is_ok());
}

#[test]
fn size_arithmetic() {
    assert_eq!(mb_to_bytes(1), 1024 * 1024);
    assert_eq!(mb_to_bytes(100), 100 * 1024 * 1024);
    assert_eq!(mb_to_bytes(u64::MAX), u64::MAX);
    assert_eq!(max_input_bytes(None), 100 * 1024 * 1024);
    let c = cfg(None, None, Some(2), None, None, None);
    assert_eq!(max_input_bytes(Some(&c)), 2 * 1024 * 1024);
}

#[test]
fn poll_decisions_around_timeout() {
    assert_eq!(WL_CLIPBOARD_TIMEOUT_MS, 2000);
    assert_eq!(POLL_INTERVAL_MS, 50);
    assert!(matches!(poll_step(true, 5000, 2000), PollDecision::Collect));
    assert!(matches!(poll_step(false, 0, 2000), PollDecision::Wait));
    assert!(matches!(poll_step(false, 2000, 2000), PollDecision::Wait));
    assert!(matches!(poll_step(false, 2001, 2000), PollDecision::Kill));
    assert!(matches!(poll_step(false, 2050, 2000), PollDecision::Kill));
}

#[test]
fn ttl_resolution_priority_and_cap() {
    let c = cfg(Some(600), None, None, None, None, None);
    assert_eq!(load_ttl(None, Some(&c)), 600);
    assert_eq!(load_ttl(Some(60), Some(&c)), 60);
    assert_eq!(load_ttl(Some(1_000_000), None), 86_400);
    assert_eq!(load_ttl(None, Some(&cfg(Some(1_000_000), None, None, None, None, None))), 86_400);
    assert_eq!(load_ttl(None, None), 300);
    assert_eq!(load_ttl(None, Some(&cfg(None, None, None, None, None, None))), 300);
}

#[test]
fn daemon_availability_modes() {
    let file_only = cfg(None, None, None, None, Some("file_only"), None);
    assert!(!wl_clipboard_available(Some(&file_only), true));
    let auto = cfg(None, None, None, None, Some("auto"), None);
    assert!(wl_clipboard_available(Some(&auto), true));
    assert!(!wl_clipboard_available(Some(&auto), false));
    assert!(wl_clipboard_available(None, true));
}

#[test]
fn type_list_parsing() {
    let lines = split_lines("image/png\ntext/html\n");
    assert_eq!(lines, strs(vec!["image/png", "text/html"]));
    assert_eq!(split_lines(""), Vec::<String>::new());
    assert_eq!(split_lines("a\r\nb"), strs(vec!["a", "b"]));
    assert_eq!(split_lines("a\n\nb"), strs(vec!["a", "", "b"]));
    assert_eq!(split_lines("x\r"), strs(vec!["x\r"]));
    assert_eq!(get_wl_clipboard_types(true, "a\nb"), strs(vec!["a", "b"]));
    assert_eq!(get_wl_clipboard_types(false, "a\nb"), Vec::<String>::new());
}

#[test]
fn fetch_outcome() {
    assert_eq!(fetch_from_wl_clipboard(true, b"data".to_vec()).unwrap(), b"data".to_vec());
    assert!(fetch_from_wl_clipboard(false, b"junk".to_vec()).is_err());
}

#[test]
fn argument_parsing() {
    let args = parse_args(&strs(vec!["-o", "-t", "TARGETS"]));
    assert!(args.mode_output);
    assert_eq!(args.mime_type.as_deref(), Some("TARGETS"));
    assert_eq!(args.selection, "clipboard");
    assert!(args.input_file.is_none());

    let args = parse_args(&strs(vec!["-selection", "primary", "-t", "image/png", "-i", "f.png"]));
    assert_eq!(args.selection, "primary");
    assert_eq!(args.mime_type.as_deref(), Some("image/png"));
    assert_eq!(args.input_file.as_deref(), Some("f.png"));
    assert!(!args.mode_output);

    // -i followed by a flag does not consume it
    let args = parse_args(&strs(vec!["-i", "-o"]));
    assert!(args.input_file.is_none());
    assert!(args.mode_output);

    // unknown arguments are ignored
    let args = parse_args(&strs(vec!["weird", "-o"]));
    assert!(args.mode_output);
}

#[test]
fn storage_paths() {
    assert_eq!(get_image_path("/tmp/store"), "/tmp/store/image.bin");
    assert_eq!(get_image_format_path("/tmp/store"), "/tmp/store/image.format");
    assert_eq!(get_text_path("/tmp/store"), "/tmp/store/text.txt");
}
