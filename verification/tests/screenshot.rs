use computer_use_hyprland::screenshot::{
    crop_png, data_url_payload, encode_screenshot_to_fit_bytes, file_uri_to_path, fit_step,
    next_dimension_for_byte_cap, percent_decode, png_dimensions, portal_screenshot_path,
    prepare_screenshot_payload, read_png_as_capture, request_token, CaptureError, FitStep,
    RawScreenshotCapture, ResolvedScreenshotPayloadOptions, ScreenshotCapture,
    ScreenshotOutputFormat, ScreenshotPayloadOptions, ABSOLUTE_SCREENSHOT_MAX_BYTES,
    ABSOLUTE_SCREENSHOT_MAX_DIMENSION, DEFAULT_SCREENSHOT_JPEG_QUALITY,
    DEFAULT_SCREENSHOT_MAX_BYTES, DEFAULT_SCREENSHOT_MAX_DIMENSION, MAX_SCREENSHOT_JPEG_QUALITY,
    MIN_SCREENSHOT_MAX_BYTES,
};
use std::io::Cursor;

/// The payload of a capture, scaled to fit and shrunk by the square root of the excess.
fn payload(
    raw: RawScreenshotCapture,
    options: ScreenshotPayloadOptions,
) -> Result<ScreenshotCapture, CaptureError> {
    prepare_screenshot_payload(
        raw,
        options,
        |width: u32, height: u32, max_width: u32, max_height: u32| {
            let scale = (f64::from(max_width) / f64::from(width))
                .min(f64::from(max_height) / f64::from(height))
                .min(1.0);
            (
                (f64::from(width) * scale).round() as u32,
                (f64::from(height) * scale).round() as u32,
            )
        },
        |width: u32, height: u32, encoded: usize, max_bytes: usize| {
            let shrink = ((max_bytes as f64 / encoded as f64).sqrt() * 0.9).clamp(0.1, 0.95);
            (
                (f64::from(width) * shrink).floor() as u32,
                (f64::from(height) * shrink).floor() as u32,
            )
        },
    )
}

fn valid_png(width: u32, height: u32) -> Vec<u8> {
    let mut png = Vec::new();
    png.extend_from_slice(b"\x89PNG\r\n\x1a\n");
    png.extend_from_slice(&13_u32.to_be_bytes());
    png.extend_from_slice(b"IHDR");
    png.extend_from_slice(&width.to_be_bytes());
    png.extend_from_slice(&height.to_be_bytes());
    png.extend_from_slice(&[8, 6, 0, 0, 0]);
    png
}

fn solid_png(width: u32, height: u32) -> Vec<u8> {
    let img = image::RgbaImage::from_pixel(width, height, image::Rgba([24, 96, 160, 255]));
    encode_test_png(img)
}

fn noisy_png(width: u32, height: u32) -> Vec<u8> {
    let mut img = image::RgbaImage::new(width, height);
    for (x, y, pixel) in img.enumerate_pixels_mut() {
        let r = ((x * 31 + y * 17) % 256) as u8;
        let g = ((x * 13 + y * 47) % 256) as u8;
        let b = ((x * 97 + y * 7) % 256) as u8;
        *pixel = image::Rgba([r, g, b, 255]);
    }
    encode_test_png(img)
}

fn encode_test_png(img: image::RgbaImage) -> Vec<u8> {
    let mut out = Vec::new();
    image::DynamicImage::ImageRgba8(img)
        .write_to(&mut Cursor::new(&mut out), image::ImageFormat::Png)
        .unwrap();
    out
}

fn raw_capture(bytes: Vec<u8>) -> RawScreenshotCapture {
    let (width, height) = png_dimensions(&bytes).unwrap();
    RawScreenshotCapture {
        mime_type: "image/png".to_string(),
        bytes,
        source: "test".to_string(),
        width,
        height,
    }
}

#[test]
fn decodes_file_uri_percent_escapes() {
    assert_eq!(
        file_uri_to_path("file:///tmp/Codex%20Screenshot.png").unwrap(),
        "/tmp/Codex Screenshot.png"
    );
}

#[test]
fn request_token_is_portal_safe() {
    let token = request_token(4242, 1_760_000_000_000_000_000);
    assert!(token.starts_with("computer_use_hyprland_"));
    assert!(token.chars().all(|c| c.is_ascii_alphanumeric() || c == '_'));
}

#[test]
fn reads_png_dimensions_from_ihdr() {
    let png = valid_png(3840, 1080);

    assert_eq!(png_dimensions(&png).unwrap(), (3840, 1080));
}

#[test]
fn default_payload_downscales_long_edge() {
    let capture =
        payload(raw_capture(solid_png(4000, 1000)), Default::default()).unwrap();

    assert_eq!((capture.width, capture.height), (1920, 480));
    assert_eq!(
        (capture.coordinate_width, capture.coordinate_height),
        (4000, 1000)
    );
    assert!(capture.resized);
    assert!(capture.bytes <= DEFAULT_SCREENSHOT_MAX_BYTES);
    assert!(capture.data_url.starts_with("data:image/png;base64,"));
}

#[test]
fn larger_bounded_request_can_keep_more_detail() {
    let capture = payload(
        raw_capture(solid_png(3000, 1000)),
        ScreenshotPayloadOptions {
            max_width: Some(3000),
            max_height: Some(3000),
            max_bytes: Some(DEFAULT_SCREENSHOT_MAX_BYTES),
            ..Default::default()
        },
    )
    .unwrap();

    assert_eq!((capture.width, capture.height), (3000, 1000));
    assert_eq!(
        (capture.coordinate_width, capture.coordinate_height),
        (3000, 1000)
    );
    assert!(!capture.resized);
}

#[test]
fn byte_cap_downscales_until_payload_fits() {
    let capture = payload(
        raw_capture(noisy_png(512, 512)),
        ScreenshotPayloadOptions {
            max_width: Some(512),
            max_height: Some(512),
            max_bytes: Some(20_000),
            ..Default::default()
        },
    )
    .unwrap();

    assert!(capture.bytes <= 20_000);
    assert!(capture.width < 512);
    assert_eq!(
        (capture.coordinate_width, capture.coordinate_height),
        (512, 512)
    );
    assert!(capture.resized);
}

#[test]
fn jpeg_format_compresses_when_requested() {
    let capture = payload(
        raw_capture(noisy_png(512, 512)),
        ScreenshotPayloadOptions {
            max_width: Some(512),
            max_height: Some(512),
            max_bytes: Some(DEFAULT_SCREENSHOT_MAX_BYTES),
            format: Some(ScreenshotOutputFormat::Jpeg),
            quality: Some(60),
            ..Default::default()
        },
    )
    .unwrap();

    assert_eq!(capture.mime_type, "image/jpeg");
    assert_eq!(capture.format, ScreenshotOutputFormat::Jpeg);
    assert_eq!(capture.quality, Some(60));
    assert_eq!((capture.width, capture.height), (512, 512));
    assert_eq!(
        (capture.coordinate_width, capture.coordinate_height),
        (512, 512)
    );
    assert!(capture.bytes < capture.original_bytes);
    assert!(capture.data_url.starts_with("data:image/jpeg;base64,"));
}

#[test]
fn portal_capture_keeps_the_source_it_came_from() {
    let capture = read_png_as_capture(valid_png(1, 1), "/tmp/shot", "xdg-desktop-portal").unwrap();

    assert_eq!(capture.source, "xdg-desktop-portal");
    assert_eq!((capture.width, capture.height), (1, 1));
    assert_eq!(capture.mime_type, "image/png");
}

#[test]
fn portal_capture_refuses_an_empty_file() {
    let error = read_png_as_capture(Vec::new(), "/tmp/shot", "xdg-desktop-portal").unwrap_err();

    assert!(error.contains("screenshot file was empty"), "{error}");
}

#[test]
fn bytes_that_are_no_png_have_no_dimensions() {
    assert_eq!(
        png_dimensions(b"GIF89a").unwrap_err(),
        "screenshot file was not a valid PNG"
    );
    assert_eq!(
        png_dimensions(&valid_png(0, 5)).unwrap_err(),
        "screenshot PNG had invalid dimensions 0x5"
    );
}

#[test]
fn a_part_is_cut_out_of_a_picture_and_clamped_to_it() {
    let (part, width, height) = crop_png(&solid_png(40, 30), 10, 20, 100, 5).unwrap();
    assert_eq!((width, height), (30, 5));
    assert_eq!(png_dimensions(&part).unwrap(), (30, 5));

    let (_, width, height) = crop_png(&solid_png(40, 30), -7, -7, 10, 10).unwrap();
    assert_eq!((width, height), (10, 10));
}

#[test]
fn a_part_outside_the_picture_or_of_no_picture_is_refused() {
    assert_eq!(
        crop_png(&solid_png(40, 30), 40, 0, 1, 1).unwrap_err(),
        "crop origin outside image"
    );
    let error = crop_png(b"nothing", 0, 0, 1, 1).unwrap_err();
    assert!(error.starts_with("decode png: "), "{error}");
}

#[test]
fn a_cut_part_holds_the_pixels_that_were_there() {
    let (part, width, height) = crop_png(&noisy_png(16, 16), 3, 5, 4, 2).unwrap();
    assert_eq!((width, height), (4, 2));
    let whole = image::load_from_memory(&noisy_png(16, 16)).unwrap().to_rgba8();
    let cut = image::load_from_memory(&part).unwrap().to_rgba8();
    for x in 0..4 {
        for y in 0..2 {
            assert_eq!(cut.get_pixel(x, y), whole.get_pixel(x + 3, y + 5));
        }
    }
}

#[test]
fn an_untouched_payload_reads_back_byte_for_byte() {
    let png = solid_png(16, 16);
    let capture = payload(raw_capture(png.clone()), Default::default()).unwrap();
    let encoded = data_url_payload(&capture.data_url);

    assert_eq!(capture.data_url, format!("data:image/png;base64,{encoded}"));
    let decoded =
        base64::Engine::decode(&base64::engine::general_purpose::STANDARD, encoded).unwrap();
    assert_eq!(decoded, png);
    assert_eq!(capture.bytes, png.len());
    assert!(!capture.resized);
}

#[test]
fn a_resized_payload_is_a_picture_of_the_size_it_claims() {
    let capture = payload(
        raw_capture(noisy_png(64, 32)),
        ScreenshotPayloadOptions {
            max_width: Some(16),
            ..Default::default()
        },
    )
    .unwrap();
    let decoded = base64::Engine::decode(
        &base64::engine::general_purpose::STANDARD,
        data_url_payload(&capture.data_url),
    )
    .unwrap();
    assert_eq!((capture.width, capture.height), (16, 8));
    assert_eq!(png_dimensions(&decoded).unwrap(), (16, 8));
}

#[test]
fn a_resized_jpeg_is_a_picture_of_the_size_it_claims() {
    let capture = payload(
        raw_capture(noisy_png(64, 32)),
        ScreenshotPayloadOptions {
            max_width: Some(16),
            format: Some(ScreenshotOutputFormat::Jpeg),
            ..Default::default()
        },
    )
    .unwrap();
    let decoded = base64::Engine::decode(
        &base64::engine::general_purpose::STANDARD,
        data_url_payload(&capture.data_url),
    )
    .unwrap();
    let picture = image::load_from_memory(&decoded).unwrap();
    assert_eq!((picture.width(), picture.height()), (16, 8));
}

/// The bytes of a payload.
fn bytes_of(capture: &ScreenshotCapture) -> Vec<u8> {
    base64::Engine::decode(
        &base64::engine::general_purpose::STANDARD,
        data_url_payload(&capture.data_url),
    )
    .unwrap()
}

#[test]
fn a_resized_payload_holds_the_resized_picture() {
    let png = noisy_png(64, 32);
    let small = image::load_from_memory(&png).unwrap().resize_exact(
        16,
        8,
        image::imageops::FilterType::Lanczos3,
    );
    let options = |format| ScreenshotPayloadOptions {
        max_width: Some(16),
        format: Some(format),
        quality: Some(70),
        ..Default::default()
    };

    let capture = payload(
        raw_capture(png.clone()),
        options(ScreenshotOutputFormat::Png),
    )
    .unwrap();
    let sent = image::load_from_memory(&bytes_of(&capture)).unwrap();
    assert_eq!(sent.to_rgba8(), small.to_rgba8());

    let capture = payload(raw_capture(png), options(ScreenshotOutputFormat::Jpeg)).unwrap();
    let mut jpeg = Vec::new();
    image::codecs::jpeg::JpegEncoder::new_with_quality(&mut jpeg, 70)
        .encode_image(&small.to_rgb8())
        .unwrap();
    assert_eq!(bytes_of(&capture), jpeg);
}

#[test]
fn no_side_is_longer_than_was_asked_for() {
    let capture = prepare_screenshot_payload(
        raw_capture(noisy_png(64, 32)),
        ScreenshotPayloadOptions {
            max_width: Some(16),
            max_height: Some(20),
            ..Default::default()
        },
        |width, height, _max_width, _max_height| (width, height),
        |width, height, _encoded, _max_bytes| (width / 2, height / 2),
    )
    .unwrap();
    assert_eq!((capture.width, capture.height), (16, 20));
}

#[test]
fn a_capture_that_is_no_picture_cannot_be_sent() {
    let raw = RawScreenshotCapture {
        mime_type: "image/png".to_string(),
        bytes: valid_png(10, 10),
        source: "test".to_string(),
        width: 10,
        height: 10,
    };
    let error = payload(
        raw,
        ScreenshotPayloadOptions {
            format: Some(ScreenshotOutputFormat::Jpeg),
            ..Default::default()
        },
    )
    .unwrap_err();
    assert_eq!(error.message, "failed to decode screenshot PNG for encoding");
    assert!(error.detail().starts_with(&error.message));
}

#[test]
fn a_payload_that_cannot_be_made_small_enough_is_refused() {
    assert!(matches!(fit_step(10, 20, (5, 5)), FitStep::Fits));
    assert!(matches!(fit_step(30, 20, (5, 5)), FitStep::Shrink));
    assert!(matches!(fit_step(30, 20, (1, 1)), FitStep::TooLarge));
    assert_eq!(next_dimension_for_byte_cap(90, 100), 90);
    assert_eq!(next_dimension_for_byte_cap(100, 100), 99);
    assert_eq!(next_dimension_for_byte_cap(0, 100), 1);
    assert_eq!(next_dimension_for_byte_cap(7, 1), 1);
}

#[test]
fn options_are_brought_into_their_bounds() {
    let plain = ScreenshotPayloadOptions::default().resolve();
    assert_eq!(plain.max_width, DEFAULT_SCREENSHOT_MAX_DIMENSION);
    assert_eq!(plain.max_bytes, DEFAULT_SCREENSHOT_MAX_BYTES);
    assert_eq!(plain.quality, DEFAULT_SCREENSHOT_JPEG_QUALITY);

    let wild = ScreenshotPayloadOptions {
        max_width: Some(u32::MAX),
        max_height: Some(0),
        max_bytes: Some(usize::MAX),
        format: None,
        quality: Some(200),
    }
    .resolve();
    assert_eq!(wild.max_width, ABSOLUTE_SCREENSHOT_MAX_DIMENSION);
    assert_eq!(wild.max_height, 1);
    assert_eq!(wild.max_bytes, ABSOLUTE_SCREENSHOT_MAX_BYTES);
    assert_eq!(wild.quality, MAX_SCREENSHOT_JPEG_QUALITY);

    let small = ScreenshotPayloadOptions {
        max_bytes: Some(1),
        ..Default::default()
    }
    .resolve();
    assert_eq!(small.max_bytes, MIN_SCREENSHOT_MAX_BYTES);
}

#[test]
fn percent_escapes_are_decoded_and_broken_ones_kept() {
    assert_eq!(percent_decode("a%20b"), "a b");
    assert_eq!(percent_decode("100%"), "100%");
    assert_eq!(percent_decode("%zz"), "%zz");
    assert_eq!(percent_decode("%C3%A9"), "\u{e9}");
    assert_eq!(percent_decode("%ff"), "\u{fffd}");
}

#[test]
fn only_file_uris_name_a_path() {
    assert_eq!(
        file_uri_to_path("https://example.org/x.png").unwrap_err(),
        "unsupported screenshot uri: https://example.org/x.png"
    );
}

#[test]
fn a_token_names_the_process_and_the_time() {
    assert_eq!(request_token(7, 99), "computer_use_hyprland_7_99");
    assert_eq!(
        request_token(7, u128::from(u64::MAX) + 1),
        "computer_use_hyprland_7_18446744073709551616"
    );
}

#[test]
fn a_portal_answers_with_a_path_or_says_why_not() {
    assert_eq!(
        portal_screenshot_path(0, Some("file:///tmp/a%20b.png")).unwrap(),
        "/tmp/a b.png"
    );
    assert_eq!(
        portal_screenshot_path(1, Some("file:///tmp/a.png")).unwrap_err(),
        "XDG portal screenshot was denied or cancelled with response code 1"
    );
    assert_eq!(
        portal_screenshot_path(0, None).unwrap_err(),
        "XDG portal screenshot response did not include a uri"
    );
}

fn options_of(format: ScreenshotOutputFormat, max_bytes: usize) -> ResolvedScreenshotPayloadOptions {
    ResolvedScreenshotPayloadOptions {
        max_width: 4096,
        max_height: 4096,
        max_bytes,
        format,
        quality: 80,
    }
}

#[test]
fn a_picture_is_shrunk_only_as_long_as_it_is_too_large() {
    let raw = noisy_png(64, 48);
    let halve = |width: u32, height: u32, _encoded: usize, _cap: usize| (width / 2, height / 2);
    let fits = options_of(ScreenshotOutputFormat::Png, raw.len());
    let (bytes, width, height) =
        encode_screenshot_to_fit_bytes(&raw, (64, 48), (64, 48), fits, halve).unwrap();
    assert_eq!((bytes.as_slice(), width, height), (raw.as_slice(), 64, 48));
    let tight = options_of(ScreenshotOutputFormat::Png, raw.len() - 1);
    let (bytes, width, height) =
        encode_screenshot_to_fit_bytes(&raw, (64, 48), (64, 48), tight, halve).unwrap();
    assert!(bytes.len() < raw.len());
    assert_eq!(64 / width, 48 / height);
    assert_eq!(png_dimensions(&bytes).unwrap(), (width, height));
}

#[test]
fn a_proposal_that_does_not_shrink_is_made_to() {
    let raw = noisy_png(8, 1);
    let stay = |width: u32, height: u32, _encoded: usize, _cap: usize| (width, height);
    let error = encode_screenshot_to_fit_bytes(
        &raw,
        (8, 1),
        (8, 1),
        options_of(ScreenshotOutputFormat::Png, 1),
        stay,
    )
    .unwrap_err();
    assert!(error.message.starts_with("screenshot payload is "));
    assert!(error.message.ends_with(" bytes at 1x1, over max_bytes 1"));
    assert!(error.cause.is_none());
}

#[test]
fn a_header_without_a_picture_is_not_encoded() {
    let raw = valid_png(8, 8);
    let error = encode_screenshot_to_fit_bytes(
        &raw,
        (8, 8),
        (4, 4),
        options_of(ScreenshotOutputFormat::Jpeg, 1024),
        |width: u32, height: u32, _encoded: usize, _cap: usize| (width, height),
    )
    .unwrap_err();
    assert_eq!(error.message, "failed to decode screenshot PNG for encoding");
    assert!(error.cause.is_some());
}
