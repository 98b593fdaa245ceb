use std::io::Cursor;

use image::{DynamicImage, ImageFormat, RgbaImage};
use klippy::clipboard::{ClipboardPayload, ImagePayload};
use klippy::engine::{
    admit_payload, classify_content_type, format_from_mime, format_image_summary,
    hash_for_payload, is_duplicate, should_ignore_bundle, should_skip_internal_copy,
    should_skip_pending_internal_copy, should_skip_payload, Admission, PendingInternalCopy,
    PendingInternalPayload, INTERNAL_COPY_SUPPRESS_WINDOW_MS,
};
use klippy::error::AppError;
use klippy::hash::sha256_hex;
use klippy::media::StoredImage;
use klippy::model::{default_settings, LatestClip, Settings};

fn image_payload_with_len(len: usize) -> ClipboardPayload {
    ClipboardPayload::Image(ImagePayload {
        bytes: vec![1; len],
        mime: "image/png".to_string(),
        format: "png".to_string(),
        width: 10,
        height: 10,
    })
}

fn encoded_image_payload(format: ImageFormat) -> ClipboardPayload {
    let rgba = RgbaImage::from_raw(2, 1, vec![255, 0, 0, 255, 0, 0, 255, 255]).expect("image");
    let mut output = Cursor::new(Vec::new());
    DynamicImage::ImageRgba8(rgba)
        .write_to(&mut output, format)
        .expect("encode");
    ClipboardPayload::Image(ImagePayload {
        bytes: output.into_inner(),
        mime: "image/png".to_string(),
        format: "png".to_string(),
        width: 2,
        height: 1,
    })
}

fn text(s: &str) -> ClipboardPayload {
    ClipboardPayload::Text(s.to_string())
}

fn open_settings() -> Settings {
    let mut settings = default_settings();
    settings.denylist_bundle_ids = vec!["com.secrets.app".to_string()];
    settings
}

#[test]
fn classifies_url() {
    assert_eq!(classify_content_type("https://example.com"), "url");
}

#[test]
fn classifies_code() {
    assert_eq!(
        classify_content_type("fn main() { println!(\"x\"); }"),
        "code"
    );
}

#[test]
fn classification_examples() {
    assert_eq!(classify_content_type("https://x.com"), "url");
    assert_eq!(classify_content_type("  HTTP://Example.com/a;b"), "url");
    assert_eq!(classify_content_type("fn main() { println!(); }"), "code");
    assert_eq!(classify_content_type("a => b"), "code");
    assert_eq!(classify_content_type("#Include <stdio.h>"), "code");
    assert_eq!(classify_content_type("x;"), "code");
    assert_eq!(classify_content_type("just some plain words"), "text");
    assert_eq!(classify_content_type("http:/almost"), "text");
    assert_eq!(classify_content_type("letter"), "text");
}

#[test]
fn skips_empty_and_oversized_text() {
    assert!(should_skip_payload(&ClipboardPayload::Text("   ".to_string()), 100));
    assert!(should_skip_payload(
        &ClipboardPayload::Text("a".repeat(20)),
        10
    ));
    assert!(!should_skip_payload(
        &ClipboardPayload::Text("hello".to_string()),
        100
    ));
}

#[test]
fn skips_oversized_image_payload() {
    assert!(should_skip_payload(&image_payload_with_len(11), 10));
    assert!(!should_skip_payload(&image_payload_with_len(10), 10));
}

#[test]
fn size_filter_counts_utf8_bytes_and_empty_images() {
    assert!(should_skip_payload(&text("ééé"), 5));
    assert!(!should_skip_payload(&text("ééé"), 6));
    assert!(should_skip_payload(&image_payload_with_len(0), 10));
    assert!(should_skip_payload(&text("\n\t "), 100));
}

#[test]
fn duplicate_check_matches_latest_text() {
    let latest = LatestClip {
        content: "hello".to_string(),
        content_type: "text".to_string(),
        hash: "abc".to_string(),
    };
    assert!(is_duplicate(
        Some(&latest),
        &ClipboardPayload::Text("hello".to_string()),
        "abc"
    ));
    assert!(!is_duplicate(
        Some(&latest),
        &ClipboardPayload::Text("hello".to_string() + "!"),
        "abc"
    ));
}

#[test]
fn duplicate_check_matches_latest_image_hash() {
    let payload = encoded_image_payload(ImageFormat::Png);
    let hash = hash_for_payload(&payload).expect("hash");
    let latest = LatestClip {
        content: "Image".to_string(),
        content_type: "image".to_string(),
        hash: hash.clone(),
    };
    assert!(is_duplicate(Some(&latest), &payload, &hash));
}

#[test]
fn duplicate_check_needs_category_and_hash() {
    let latest = LatestClip {
        content: "hello".to_string(),
        content_type: "image".to_string(),
        hash: "abc".to_string(),
    };
    assert!(!is_duplicate(Some(&latest), &text("hello"), "abc"));
    assert!(is_duplicate(Some(&latest), &image_payload_with_len(3), "abc"));
    assert!(!is_duplicate(Some(&latest), &image_payload_with_len(3), "abd"));
    assert!(!is_duplicate(None, &text("hello"), "abc"));
    let text_latest = LatestClip {
        content: "hello".to_string(),
        content_type: "code".to_string(),
        hash: "abc".to_string(),
    };
    assert!(!is_duplicate(Some(&text_latest), &text("hello"), "abd"));
    assert!(!is_duplicate(Some(&text_latest), &image_payload_with_len(3), "abc"));
}

#[test]
fn canonical_image_hash_is_format_independent() {
    let png_payload = encoded_image_payload(ImageFormat::Png);
    let tiff_payload = encoded_image_payload(ImageFormat::Tiff);
    let png_hash = hash_for_payload(&png_payload).expect("png hash");
    let tiff_hash = hash_for_payload(&tiff_payload).expect("tiff hash");
    assert_eq!(png_hash, tiff_hash);
}

#[test]
fn undecodable_image_hash_is_internal_error() {
    let result = hash_for_payload(&image_payload_with_len(4));
    assert!(matches!(result, Err(AppError::Internal(_))));
}

#[test]
fn text_hash_is_sha256_of_text() {
    assert_eq!(hash_for_payload(&text("hello")).expect("hash"), sha256_hex("hello"));
}

#[test]
fn ignore_bundle_for_self_and_denylist() {
    let denylist = vec!["com.secrets.app".to_string()];
    assert!(should_ignore_bundle(
        "com.klippy.app",
        "com.klippy.app",
        &denylist
    ));
    assert!(should_ignore_bundle(
        "com.secrets.app",
        "com.klippy.app",
        &denylist
    ));
    assert!(!should_ignore_bundle(
        "com.apple.Terminal",
        "com.klippy.app",
        &denylist
    ));
}

#[test]
fn skips_pending_internal_copy_within_suppress_window() {
    let now: u64 = 100_000;
    let pending = PendingInternalCopy {
        payload: PendingInternalPayload::Text("copy me".to_string()),
        created_at: now,
    };

    assert!(should_skip_internal_copy(
        Some(&pending),
        &ClipboardPayload::Text("copy me".to_string()),
        now,
        2_000
    ));
}

#[test]
fn does_not_skip_pending_internal_copy_if_content_differs() {
    let now: u64 = 100_000;
    let pending = PendingInternalCopy {
        payload: PendingInternalPayload::Text("copy me".to_string()),
        created_at: now,
    };

    assert!(!should_skip_internal_copy(
        Some(&pending),
        &ClipboardPayload::Text("different".to_string()),
        now,
        2_000
    ));
}

#[test]
fn does_not_skip_pending_internal_copy_after_window_expires() {
    let now: u64 = 100_000;
    let pending = PendingInternalCopy {
        payload: PendingInternalPayload::Text("copy me".to_string()),
        created_at: now - 3_000,
    };

    assert!(!should_skip_internal_copy(
        Some(&pending),
        &ClipboardPayload::Text("copy me".to_string()),
        now,
        2_000
    ));
}

#[test]
fn image_pending_copy_uses_hash_match() {
    let now: u64 = 100_000;
    let payload = encoded_image_payload(ImageFormat::Png);
    let pending = PendingInternalCopy {
        payload: PendingInternalPayload::ImageHash(hash_for_payload(&payload).expect("hash")),
        created_at: now,
    };

    assert!(should_skip_internal_copy(
        Some(&pending),
        &payload,
        now,
        2_000
    ));
}

#[test]
fn image_marker_matches_tiff_echo_of_png_copy() {
    let png = encoded_image_payload(ImageFormat::Png);
    let tiff = encoded_image_payload(ImageFormat::Tiff);
    let pending = PendingInternalCopy {
        payload: PendingInternalPayload::ImageHash(hash_for_payload(&png).expect("hash")),
        created_at: 0,
    };
    assert!(should_skip_internal_copy(Some(&pending), &tiff, 10, 2_000));
    assert!(!should_skip_internal_copy(Some(&pending), &text("x"), 10, 2_000));
}

#[test]
fn marker_is_consumed_by_echo_and_dropped_after_expiry() {
    let marker = PendingInternalCopy {
        payload: PendingInternalPayload::Text("copy me".to_string()),
        created_at: 1_000,
    };
    let mut pending = Some(marker.clone());
    assert!(should_skip_pending_internal_copy(&mut pending, &text("copy me"), 1_500));
    assert!(pending.is_none());

    let mut pending = Some(marker.clone());
    assert!(!should_skip_pending_internal_copy(&mut pending, &text("other"), 1_500));
    assert_eq!(pending, Some(marker.clone()));

    let mut pending = Some(marker.clone());
    let late = 1_000 + INTERNAL_COPY_SUPPRESS_WINDOW_MS + 1;
    assert!(!should_skip_pending_internal_copy(&mut pending, &text("copy me"), late));
    assert!(pending.is_none());

    let mut pending = Some(marker);
    let edge = 1_000 + INTERNAL_COPY_SUPPRESS_WINDOW_MS;
    assert!(should_skip_pending_internal_copy(&mut pending, &text("copy me"), edge));
}

#[test]
fn self_copy_echo_creates_nothing_until_window_elapses() {
    let settings = open_settings();
    let marker = PendingInternalCopy {
        payload: PendingInternalPayload::Text("copied entry".to_string()),
        created_at: 10_000,
    };
    let mut pending = Some(marker.clone());
    let now = 10_000 + 200;
    let result = admit_payload(&settings, &text("copied entry"), &mut pending, now, None, "com.klippy.app", None);
    assert_eq!(result, Ok(Admission::Rejected));
    assert!(pending.is_none());

    let mut pending = Some(marker);
    let later = 10_000 + 1_600;
    let result = admit_payload(&settings, &text("copied entry"), &mut pending, later, None, "com.klippy.app", None);
    assert_eq!(
        result,
        Ok(Admission::Text {
            content_type: "text".to_string(),
            hash: sha256_hex("copied entry"),
        })
    );
    assert!(pending.is_none());
}

#[test]
fn admission_applies_each_filter() {
    let settings = open_settings();
    let app = "com.klippy.app";
    let mut none: Option<PendingInternalCopy> = None;

    let mut paused = settings.clone();
    paused.tracking_paused = true;
    assert_eq!(admit_payload(&paused, &text("hi"), &mut none, 0, None, app, None), Ok(Admission::Rejected));

    assert_eq!(admit_payload(&settings, &text("  "), &mut none, 0, None, app, None), Ok(Admission::Rejected));
    assert_eq!(
        admit_payload(&settings, &text("hi"), &mut none, 0, Some("com.secrets.app"), app, None),
        Ok(Admission::Rejected)
    );
    assert_eq!(
        admit_payload(&settings, &text("hi"), &mut none, 0, Some(app), app, None),
        Ok(Admission::Rejected)
    );

    let latest = LatestClip {
        content: "hi".to_string(),
        content_type: "text".to_string(),
        hash: sha256_hex("hi"),
    };
    assert_eq!(
        admit_payload(&settings, &text("hi"), &mut none, 0, Some("com.apple.Terminal"), app, Some(&latest)),
        Ok(Admission::Rejected)
    );
    assert_eq!(
        admit_payload(&settings, &text("let x = 1"), &mut none, 0, Some("com.apple.Terminal"), app, Some(&latest)),
        Ok(Admission::Text {
            content_type: "code".to_string(),
            hash: sha256_hex("let x = 1"),
        })
    );

    let broken = image_payload_with_len(8);
    assert!(matches!(
        admit_payload(&settings, &broken, &mut none, 0, None, app, None),
        Err(AppError::Internal(_))
    ));

    let png = encoded_image_payload(ImageFormat::Png);
    let hash = hash_for_payload(&png).expect("hash");
    assert_eq!(
        admit_payload(&settings, &png, &mut none, 0, None, app, None),
        Ok(Admission::Image { hash: hash.clone() })
    );
    let latest_image = LatestClip {
        content: "Image | PNG | 2x1 | 0.0 MB".to_string(),
        content_type: "image".to_string(),
        hash,
    };
    let tiff = encoded_image_payload(ImageFormat::Tiff);
    assert_eq!(
        admit_payload(&settings, &tiff, &mut none, 0, None, app, Some(&latest_image)),
        Ok(Admission::Rejected)
    );
}

#[test]
fn formats_follow_mime_types() {
    assert_eq!(format_from_mime(Some("image/jpeg")), "jpeg");
    assert_eq!(format_from_mime(Some("image/tiff")), "tiff");
    assert_eq!(format_from_mime(Some("image/webp")), "webp");
    assert_eq!(format_from_mime(Some("image/gif")), "png");
    assert_eq!(format_from_mime(None), "png");
}

fn stored(byte_size: i64, w: i64, h: i64) -> StoredImage {
    StoredImage {
        media_path: "/m/a.png".to_string(),
        thumb_path: "/t/a.png".to_string(),
        mime_type: "image/png".to_string(),
        byte_size,
        pixel_width: w,
        pixel_height: h,
    }
}

fn payload_of_format(format: &str) -> ImagePayload {
    ImagePayload {
        bytes: vec![0; 4],
        mime: "image/png".to_string(),
        format: format.to_string(),
        width: 1,
        height: 1,
    }
}

#[test]
fn image_summary_has_format_size_and_megabytes() {
    assert_eq!(
        format_image_summary(&payload_of_format("png"), &stored(1234, 20, 10)),
        "Image | PNG | 20x10 | 0.0 MB"
    );
    assert_eq!(
        format_image_summary(&payload_of_format("tiff"), &stored(157_287, 640, 480)),
        "Image | TIFF | 640x480 | 0.2 MB"
    );
    assert_eq!(
        format_image_summary(&payload_of_format("jpeg"), &stored(3 * 1_048_576 + 524_288, 1, 2)),
        "Image | JPEG | 1x2 | 3.5 MB"
    );
    assert_eq!(
        format_image_summary(&payload_of_format("png"), &stored(12 * 1_048_576, 4000, 3000)),
        "Image | PNG | 4000x3000 | 12.0 MB"
    );
}

#[test]
fn image_summary_rounds_like_float_formatting() {
    for size in [0i64, 1, 262_144, 786_432, 1_310_720, 52_428, 52_429, 104_857, 157_286, 157_287, 1_048_575, 10_485_760, 99_999_999] {
        let expected = format!(
            "Image | PNG | 1x1 | {:.1} MB",
            size as f64 / (1024.0 * 1024.0)
        );
        assert_eq!(format_image_summary(&payload_of_format("png"), &stored(size, 1, 1)), expected);
    }
}
