use base64::Engine;
use image_recognition::services::image::{
    compress_image, detect_mime_type, fit_within, generate_thumbnail, is_valid_format,
    process_image_for_api, Raster,
};

fn b64(bytes: &[u8]) -> String {
    base64::engine::general_purpose::STANDARD.encode(bytes)
}

fn unb64(text: &str) -> Vec<u8> {
    base64::engine::general_purpose::STANDARD.decode(text).unwrap()
}

fn noise(width: u32, height: u32) -> image::RgbImage {
    let mut seed: u32 = 12345;
    image::RgbImage::from_fn(width, height, |_, _| {
        seed = seed.wrapping_mul(1664525).wrapping_add(1013904223);
        image::Rgb([(seed >> 24) as u8, (seed >> 16) as u8, (seed >> 8) as u8])
    })
}

fn png_of(img: &image::RgbImage) -> Vec<u8> {
    let mut out = Vec::new();
    img.write_to(&mut std::io::Cursor::new(&mut out), image::ImageFormat::Png).unwrap();
    out
}

fn flat(width: u32, height: u32) -> image::RgbImage {
    image::RgbImage::from_pixel(width, height, image::Rgb([10, 200, 30]))
}

#[test]
fn small_image_comes_back_unchanged() {
    let png = png_of(&flat(8, 8));
    let input = b64(&png);
    let out = process_image_for_api(&input, true, 1_000_000).unwrap();
    assert!(!out.was_compressed);
    assert_eq!(out.base64, input);
    assert_eq!(out.mime_type, "image/png");
    assert_eq!(out.original_size, png.len());
    assert_eq!(out.compressed_size, None);
}

#[test]
fn image_at_the_budget_and_at_the_largest_dimension_is_unchanged() {
    let png = png_of(&flat(1920, 2));
    let input = b64(&png);
    let out = process_image_for_api(&input, true, png.len()).unwrap();
    assert!(!out.was_compressed);
    assert_eq!(out.base64, input);
}

#[test]
fn compression_off_hands_the_input_back_without_decoding() {
    let input = b64(b"GIF89a there is no image here");
    let out = process_image_for_api(&input, false, 1).unwrap();
    assert!(!out.was_compressed);
    assert_eq!(out.base64, input);
    assert_eq!(out.mime_type, "image/gif");
    assert_eq!(out.original_size, 29);
    assert_eq!(out.compressed_size, None);
}

#[test]
fn bad_payloads_are_reported() {
    let e = process_image_for_api("!!!", true, 100).unwrap_err();
    assert!(e.starts_with("Invalid base64: "), "{}", e);
    let e = process_image_for_api("!!!", false, 100).unwrap_err();
    assert!(e.starts_with("Invalid base64: "), "{}", e);
    let e = process_image_for_api(&b64(b"this is no image at all"), true, 100).unwrap_err();
    assert!(e.starts_with("Failed to decode image: "), "{}", e);
}

#[test]
fn image_over_the_budget_is_encoded_again() {
    let png = png_of(&noise(64, 64));
    let budget = png.len() - 1;
    let out = process_image_for_api(&b64(&png), true, budget).unwrap();
    assert!(out.was_compressed);
    assert_eq!(out.original_size, png.len());
    let payload = unb64(&out.base64);
    assert_eq!(out.compressed_size, Some(payload.len()));
    assert_eq!(out.mime_type, "image/jpeg");
    assert_eq!(detect_mime_type(&payload), "image/jpeg");
    let back = image::load_from_memory(&payload).unwrap();
    assert_eq!((back.width(), back.height()), (64, 64));
}

#[test]
fn budget_out_of_reach_ends_at_the_floor_of_the_quality() {
    let raster = Raster {
        width: 32,
        height: 32,
        pixels: image::DynamicImage::ImageRgb8(noise(32, 32)).into_rgba8().into_raw(),
    };
    let (bytes, mime) = compress_image(&raster, 10).unwrap();
    assert_eq!(mime, "image/jpeg");
    assert!(bytes.len() > 10);
    let mut floor = Vec::new();
    let encoder = image::codecs::jpeg::JpegEncoder::new_with_quality(&mut floor, 60);
    noise(32, 32).write_with_encoder(encoder).unwrap();
    assert_eq!(bytes, floor);
}

#[test]
fn png_is_taken_where_it_fits() {
    let raster = Raster { width: 4, height: 4, pixels: vec![255u8; 64] };
    let (bytes, mime) = compress_image(&raster, 1_000_000).unwrap();
    assert_eq!(mime, "image/png");
    assert_eq!(detect_mime_type(&bytes), "image/png");
}

#[test]
fn jpeg_search_stops_at_the_first_quality_that_fits() {
    let img = noise(48, 48);
    let raster = Raster {
        width: 48,
        height: 48,
        pixels: image::DynamicImage::ImageRgb8(img.clone()).into_rgba8().into_raw(),
    };
    let at = |q: u8| {
        let mut out = Vec::new();
        img.write_with_encoder(image::codecs::jpeg::JpegEncoder::new_with_quality(&mut out, q))
            .unwrap();
        out
    };
    let budget = at(80).len();
    assert!(at(85).len() > budget);
    let (bytes, mime) = compress_image(&raster, budget).unwrap();
    assert_eq!(mime, "image/jpeg");
    assert_eq!(bytes, at(80));
}

#[test]
fn large_image_is_scaled_down_before_it_is_encoded() {
    let png = png_of(&flat(3840, 1000));
    let out = process_image_for_api(&b64(&png), true, 10_000_000).unwrap();
    assert!(out.was_compressed);
    assert_eq!(out.mime_type, "image/png");
    let back = image::load_from_memory(&unb64(&out.base64)).unwrap();
    assert_eq!((back.width(), back.height()), (1920, 500));
}

#[test]
fn fitted_sizes() {
    assert_eq!(fit_within(3840, 2160), (1920, 1080));
    assert_eq!(fit_within(2160, 3840), (1080, 1920));
    assert_eq!(fit_within(1921, 1921), (1920, 1920));
    assert_eq!(fit_within(1921, 1), (1920, 1));
    assert_eq!(fit_within(4000, 3), (1920, 1));
    assert_eq!(fit_within(3840, 3), (1920, 2));
    assert_eq!(fit_within(1000, 4000), (480, 1920));
    assert_eq!(fit_within(2000, 10), (1920, 10));
    assert_eq!(fit_within(u32::MAX, u32::MAX), (1920, 1920));
    assert_eq!(fit_within(u32::MAX, 1), (1920, 1));
    assert_eq!(fit_within(5000, 0), (1920, 1));
}

#[test]
fn media_type_is_told_from_the_first_bytes() {
    assert_eq!(detect_mime_type(&[0x89, 0x50, 0x4e, 0x47, 1, 2, 3, 4]), "image/png");
    assert_eq!(detect_mime_type(&[0x89, 0x50, 0x4e, 0x47, 1, 2, 3]), "image/jpeg");
    assert_eq!(detect_mime_type(&[0xff, 0xd8, 0xff, 0, 0, 0, 0, 0]), "image/jpeg");
    assert_eq!(detect_mime_type(b"GIF87a.."), "image/gif");
    assert_eq!(detect_mime_type(b"GIF89a.."), "image/gif");
    assert_eq!(detect_mime_type(b"GIF88a.."), "image/jpeg");
    assert_eq!(detect_mime_type(b"RIFF....WEBP"), "image/webp");
    assert_eq!(detect_mime_type(b"RIFF....WEB"), "image/jpeg");
    assert_eq!(detect_mime_type(b"RIFF....WAVE"), "image/jpeg");
    assert_eq!(detect_mime_type(b""), "image/jpeg");
    assert_eq!(detect_mime_type(b"plain text here"), "image/jpeg");
}

#[test]
fn formats_go_by_the_extension() {
    assert!(is_valid_format("photo.jpg"));
    assert!(is_valid_format("photo.JPG"));
    assert!(is_valid_format("photo.Jpeg"));
    assert!(is_valid_format("a.b.png"));
    assert!(is_valid_format("x.webp"));
    assert!(is_valid_format("x.GIF"));
    assert!(is_valid_format("gif"));
    assert!(!is_valid_format("photo.bmp"));
    assert!(!is_valid_format("photo.png.txt"));
    assert!(!is_valid_format("photo."));
    assert!(!is_valid_format(""));
    assert!(!is_valid_format("jpg.exe"));
}

#[test]
fn thumbnail_is_a_small_jpeg() {
    let png = png_of(&noise(100, 50));
    let url = generate_thumbnail(&b64(&png), 20, 20).unwrap();
    let payload = url.strip_prefix("data:image/jpeg;base64,").unwrap();
    let back = image::load_from_memory(&unb64(payload)).unwrap();
    assert_eq!((back.width(), back.height()), (20, 10));
    assert!(generate_thumbnail("!!!", 20, 20).unwrap_err().starts_with("Invalid base64: "));
    assert!(generate_thumbnail(&b64(b"nothing"), 20, 20)
        .unwrap_err()
        .starts_with("Failed to decode image: "));
}
