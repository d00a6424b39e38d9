use backend::cache::{
    check_rate_limit, counter_needs_expiry, POSTBACK_RATE_LIMIT_MAX, REDIRECT_RATE_LIMIT_MAX, counter_value, rate_limit_key, scan_finished,
};
use backend::error::AppError;
use backend::redirect::{check_redirect_variant, client_ip_candidates, first_forwarded_address, redirect_target};
use backend::registry::ScraperRegistry;
use backend::scrape::{
    apply_source_update, clamp_interval, job_completion, job_run_completion, job_source_name, no_scraper_outcome, queue_failure_message,
    scrape_outcome, validate_new_source, worker_step, JobCommand, JobOutcome, NewSourceFields,
    ScraperError, SourceFields, SourceUpdate, WorkerStep,
};
use backend::store::{list_cache_key, product_cache_key};
use backend::upload::{check_upload_size, upload_dir, upload_path, validate_upload_field, MAX_FILE_SIZE};

#[test]
fn rate_limit_blocks_after_max_requests() {
    for count in 1..=5u64 {
        assert!(check_rate_limit(count, REDIRECT_RATE_LIMIT_MAX).is_ok(), "Request {} should succeed", count);
    }
    let e = check_rate_limit(6, REDIRECT_RATE_LIMIT_MAX).unwrap_err();
    assert!(matches!(e, AppError::RateLimited));
    assert_eq!(e.public_message(), "Rate limit exceeded. Please try again later.");
    assert_eq!(rate_limit_key("redirect", "10.0.0.50"), "ratelimit:redirect:10.0.0.50");
}

#[test]
fn postback_rate_limit_allows_thirty_per_window() {
    for count in 1..=30u64 {
        assert!(check_rate_limit(count, POSTBACK_RATE_LIMIT_MAX).is_ok());
    }
    assert!(matches!(check_rate_limit(31, POSTBACK_RATE_LIMIT_MAX), Err(AppError::RateLimited)));
    assert_eq!(rate_limit_key("postback", "10.0.0.7"), "ratelimit:postback:10.0.0.7");
}

#[test]
fn counters_expire_from_their_first_increment() {
    assert!(counter_needs_expiry(1));
    assert!(!counter_needs_expiry(2));
    assert_eq!(counter_value(5), 5);
    assert!(scan_finished("0"));
    assert!(!scan_finished("17"));
}

#[test]
fn redirect_logs_ip_address() {
    assert_eq!(first_forwarded_address("172.16.0.1"), "172.16.0.1");
    assert_eq!(first_forwarded_address(" 10.0.0.1 , 10.0.0.2"), "10.0.0.1");
    assert_eq!(client_ip_candidates(Some("1.2.3.4, 5.6.7.8"), Some(" 9.9.9.9 ")), vec!["1.2.3.4", "9.9.9.9"]);
    assert!(client_ip_candidates(None, None).is_empty());
}

#[test]
fn redirect_returns_404_for_nonexistent_merchant_link() {
    let e = redirect_target(None).unwrap_err();
    assert_eq!(e.status_code(), 404);
    assert_eq!(e.public_message(), "Merchant link not found");
    assert_eq!(redirect_target(Some("https://shopee.co.th/product/123".to_string())).ok(),
        Some("https://shopee.co.th/product/123".to_string()));
}

#[test]
fn redirect_returns_404_for_invalid_variant() {
    let e = check_redirect_variant(true, false).unwrap_err();
    assert_eq!(e.public_message(), "Variant not found for this merchant link");
    assert!(check_redirect_variant(false, false).is_ok());
    assert!(check_redirect_variant(true, true).is_ok());
}

#[test]
fn registry_registers_and_replaces_scrapers() {
    let mut r: ScraperRegistry<u32> = ScraperRegistry::new();
    assert!(!r.has_scraper("shopee"));
    assert!(r.platforms().is_empty());
    r.register("shopee".to_string(), 1);
    r.register("lazada".to_string(), 2);
    r.register("shopee".to_string(), 3);
    assert_eq!(r.get("shopee"), Some(&3));
    assert_eq!(r.get("lazada"), Some(&2));
    assert_eq!(r.get("tiktok"), None);
    assert!(r.has_scraper("lazada"));
    let mut p = r.platforms();
    p.sort();
    assert_eq!(p, vec!["lazada", "shopee"]);
    let d: ScraperRegistry<u32> = ScraperRegistry::default();
    assert!(d.platforms().is_empty());
}

#[test]
fn scrape_sources_are_validated_and_clamped() {
    let req = NewSourceFields { name: " ".to_string(), platform: "shopee".to_string(), source_url: "u".to_string(), scrape_interval_hours: None };
    assert_eq!(validate_new_source(&req).unwrap_err().message(), "name is required and must be at most 255 chars");
    let req = NewSourceFields { name: "n".to_string(), platform: "shopee".to_string(), source_url: " ".to_string(), scrape_interval_hours: None };
    assert_eq!(validate_new_source(&req).unwrap_err().message(), "source_url is required");
    let req = NewSourceFields { name: "n".to_string(), platform: "shopee".to_string(), source_url: "u".to_string(), scrape_interval_hours: None };
    assert_eq!(validate_new_source(&req).ok(), Some(24));
    let req = NewSourceFields { name: "n".to_string(), platform: "shopee".to_string(), source_url: "u".to_string(), scrape_interval_hours: Some(10000) };
    assert_eq!(validate_new_source(&req).ok(), Some(720));
    assert_eq!(clamp_interval(0), 1);
    let existing = SourceFields { name: "a".to_string(), platform: "p".to_string(), source_url: "u".to_string(), is_active: true, scrape_interval_hours: 5000 };
    let upd = SourceUpdate { name: Some("b".to_string()), platform: None, source_url: None, is_active: Some(false), scrape_interval_hours: None };
    let s = apply_source_update(existing, upd);
    assert_eq!((s.name.as_str(), s.platform.as_str(), s.is_active, s.scrape_interval_hours), ("b", "p", false, 720));
}

#[test]
fn jobs_record_their_outcome() {
    assert!(matches!(no_scraper_outcome("shopee"), JobOutcome::Failed(ref m) if m == "No scraper registered for platform: shopee"));
    assert!(matches!(scrape_outcome(Ok(3)), JobOutcome::Completed(3)));
    assert!(matches!(scrape_outcome(Err(ScraperError::Network("down".to_string()))), JobOutcome::Failed(ref m) if m == "Network error: down"));
    assert_eq!(ScraperError::NotImplemented("x".to_string()).message(), "Not implemented for platform: x");
    assert_eq!(queue_failure_message("channel closed"), "Failed to queue job: channel closed");
    assert_eq!(job_source_name(None), "Unknown");
    assert!(matches!(worker_step(Some(JobCommand::RunJob(9))), WorkerStep::Process(9)));
    assert!(matches!(worker_step(Some(JobCommand::Shutdown)), WorkerStep::Stop));
    assert!(matches!(worker_step(None), WorkerStep::Stop));
}

#[test]
fn upload_invalid_file_type_returns_400() {
    let e = validate_upload_field(true, Some("test.txt"), Some("text/plain")).unwrap_err();
    assert_eq!(e.status_code(), 400);
    assert!(e.public_message().contains("Invalid file type"));
    assert_eq!(e.public_message(), "Invalid file type: text/plain. Allowed types: jpg, png, heic");
    assert!(validate_upload_field(true, Some("a.png"), Some("image/png")).is_ok());
    assert_eq!(validate_upload_field(false, None, None).unwrap_err().message(), "No file provided");
    assert_eq!(validate_upload_field(true, None, Some("image/png")).unwrap_err().message(), "No filename provided");
    assert_eq!(validate_upload_field(true, Some("a"), None).unwrap_err().message(), "No content type provided");
}

#[test]
fn upload_file_too_large_returns_error() {
    let e = check_upload_size(11 * 1024 * 1024).unwrap_err();
    assert_eq!(e.status_code(), 400);
    assert_eq!(e.message(), "File too large: 11534336 bytes. Maximum size: 10485760 bytes");
    assert!(check_upload_size(MAX_FILE_SIZE).is_ok());
}

#[test]
fn upload_valid_png_returns_201() {
    let id: u128 = 0x0123_4567_89ab_cdef_0123_4567_89ab_cdef;
    let path = upload_path(id);
    assert!(path.starts_with("/uploads/products/"));
    assert!(path.ends_with("/optimized.webp"));
    assert_eq!(path, "/uploads/products/01234567-89ab-cdef-0123-456789abcdef/optimized.webp");
    assert_eq!(upload_dir(id), "uploads/products/01234567-89ab-cdef-0123-456789abcdef");
}

#[test]
fn store_cache_keys() {
    assert_eq!(list_cache_key(1, 20, None, None), "store:list:1:20:None:None");
    assert_eq!(list_cache_key(2, 5, Some("gadgets"), Some("a \"b\"")), "store:list:2:5:Some(\"gadgets\"):Some(\"a \\\"b\\\"\")");
    assert_eq!(list_cache_key(-3, 0, None, Some("x")), "store:list:-3:0:None:Some(\"x\")");
    assert_eq!(list_cache_key(i64::MIN, i64::MAX, None, None), "store:list:-9223372036854775808:9223372036854775807:None:None");
    assert_eq!(product_cache_key(1), "store:product:00000000-0000-0000-0000-000000000001");
}

fn encoded(width: u32, height: u32, format: image::ImageFormat) -> Vec<u8> {
    encoded_color(width, height, [0, 0, 0], format)
}

fn encoded_color(width: u32, height: u32, color: [u8; 3], format: image::ImageFormat) -> Vec<u8> {
    let img = image::DynamicImage::ImageRgb8(image::RgbImage::from_pixel(width, height, image::Rgb(color)));
    let mut buf = std::io::Cursor::new(Vec::new());
    img.write_to(&mut buf, format).unwrap();
    buf.into_inner()
}

#[test]
fn upload_large_image_is_resized() {
    let (_, w, h) = backend::upload::prepare_upload_image(&encoded(200, 100, image::ImageFormat::Png))
        .ok()
        .expect("png should decode");
    assert_eq!((w, h), (1080, 1080));
}

#[test]
fn upload_jpeg_returns_201() {
    let (_, w, h) = backend::upload::prepare_upload_image(&encoded(80, 60, image::ImageFormat::Jpeg))
        .ok()
        .expect("jpeg should decode");
    assert_eq!((w, h), (1080, 1080));
}

#[test]
fn invalid_image_bytes_are_a_validation_error() {
    let e = backend::upload::prepare_upload_image(b"This is not an image").err().unwrap();
    assert_eq!(e.status_code(), 400);
    assert!(e.message().starts_with("Invalid image: "));
    let e = backend::upload::prepare_upload_image(&[]).err().unwrap();
    assert_eq!(e.status_code(), 400);
    assert!(e.message().starts_with("Invalid image: "));
}

#[test]
fn redirect_works_without_variant() {
    assert!(check_redirect_variant(false, false).is_ok());
    assert_eq!(redirect_target(Some("https://x".to_string())).ok(), Some("https://x".to_string()));
}

#[test]
fn cookie_set_at_login_is_read_back() {
    let token = "eyJhbGciOiJIUzI1NiJ9.eyJzdWIiOiJ4In0.sig";
    let set_cookie = backend::cookies::build_access_cookie(token, "http://localhost:3000");
    let sent_back = set_cookie.split(';').next().unwrap();
    assert_eq!(backend::cookies::extract_token_from_cookie(Some(sent_back)), Some(token.to_string()));
    assert_eq!(backend::cookies::parse_cookie_value(sent_back, "tc_token"), Some(token));
}

#[test]
fn job_completion_writes_status_and_one_column() {
    let failed = job_completion(no_scraper_outcome("lazada"));
    assert_eq!(failed.status, "failed");
    assert_eq!(failed.error_message.as_deref(), Some("No scraper registered for platform: lazada"));
    assert_eq!(failed.items_found, None);
    let done = job_completion(scrape_outcome(Ok(7)));
    assert_eq!(done.status, "completed");
    assert_eq!(done.error_message, None);
    assert_eq!(done.items_found, Some(7));
}

#[test]
fn job_run_records_each_ending() {
    let none = job_run_completion("shopee", None);
    assert_eq!((none.status.as_str(), none.error_message.as_deref(), none.items_found), ("failed", Some("No scraper registered for platform: shopee"), None));
    let ok = job_run_completion("shopee", Some(Ok(12)));
    assert_eq!((ok.status.as_str(), ok.error_message.as_deref(), ok.items_found), ("completed", None, Some(12)));
    let err = job_run_completion("shopee", Some(Err(ScraperError::Parse("bad html".to_string()))));
    assert_eq!((err.status.as_str(), err.error_message.as_deref(), err.items_found), ("failed", Some("Parse error: bad html"), None));
}

#[test]
fn upload_pixels_are_the_resized_image() {
    let (img, w, h) = backend::upload::prepare_upload_image(&encoded_color(200, 100, [255, 0, 0], image::ImageFormat::Png))
        .ok()
        .expect("png should decode");
    assert_eq!((w, h), (1080, 1080));
    assert_eq!((img.width(), img.height()), (1080, 1080));
    assert!(matches!(img, image::DynamicImage::ImageRgb8(_)));
    let px = img.to_rgba8().into_raw();
    assert_eq!(px.len(), 1080 * 1080 * 4);
    assert_eq!(&px[0..4], &[255, 0, 0, 255]);
    let mid = (540 * 1080 + 540) * 4;
    assert_eq!(&px[mid..mid + 4], &[255, 0, 0, 255]);
}

#[test]
fn upload_too_flat_to_cover_is_refused() {
    let e = backend::upload::prepare_upload_image(&encoded(3_800_000, 1, image::ImageFormat::Png)).err().unwrap();
    assert_eq!(e.status_code(), 400);
    assert_eq!(e.message(), "Invalid image: dimensions out of range");
}
