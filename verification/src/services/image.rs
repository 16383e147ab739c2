//! The image preparer: it brings an image under a byte budget and under a
//! largest dimension, by scaling it down and encoding it again.

use crate::text::{concat, str_eq, window_eq, window_starts_with};
use crate::utils::codec::{base64_bytes, base64_decode, base64_encode, base64_text};
use vstd::prelude::*;
use vstd::string::*;

verus! {

/// The largest width or height that a prepared image keeps.
pub open spec fn max_dimension() -> u32 {
    1920
}

/// The JPEG quality that the search begins with.
pub open spec fn first_quality() -> u8 {
    90
}

/// The JPEG quality below which the search does not go.
pub open spec fn quality_floor() -> u8 {
    60
}

/// A decoded image: its size, and four bytes for each pixel (red, green,
/// blue, alpha), row by row.
#[derive(Debug, Clone, PartialEq, Eq)]
pub struct Raster {
    pub width: u32,
    pub height: u32,
    pub pixels: Vec<u8>,
}

/// The mathematical value of a [`Raster`].
pub struct RasterModel {
    pub width: u32,
    pub height: u32,
    pub pixels: Seq<u8>,
}

impl RasterModel {
    /// The pixel data holds four bytes for each pixel.
    pub open spec fn well_formed(self) -> bool {
        self.pixels.len() == 4 * self.width * self.height
    }
}

impl View for Raster {
    type V = RasterModel;

    open spec fn view(&self) -> RasterModel {
        RasterModel { width: self.width, height: self.height, pixels: self.pixels@ }
    }
}

/// What `image::load_from_memory` makes of `data`, converted to eight-bit
/// RGBA: the image, or the text of the decoder's error.
pub uninterp spec fn decoded_image(data: Seq<u8>) -> Result<RasterModel, Seq<char>>;

/// The pixels that `image::imageops::resize` with the Lanczos filter of
/// three lobes gives for `image` at the size `width` by `height`.
pub uninterp spec fn resampled(image: RasterModel, width: u32, height: u32) -> Seq<u8>;

/// The PNG file that the `image` crate writes for `image`, or the text of
/// the encoder's error.
pub uninterp spec fn png_encoding(image: RasterModel) -> Result<Seq<u8>, Seq<char>>;

/// The JPEG file that the `image` crate writes for the colours of `image`
/// at the quality `quality`, or the text of the encoder's error.
pub uninterp spec fn jpeg_encoding(image: RasterModel, quality: u8) -> Result<Seq<u8>, Seq<char>>;

/// What `DynamicImage::thumbnail` makes of `image` for the bounds `width`
/// by `height`, as eight-bit RGBA.
pub uninterp spec fn thumbnail_of(image: RasterModel, width: u32, height: u32) -> RasterModel;

/// Decodes with `image::load_from_memory` and converts with
/// `DynamicImage::into_rgba8`. The result is a function of the bytes and
/// gets the name [`decoded_image`]; the buffer of an RGBA image that the
/// crate hands out has four bytes for each pixel. An error is given as its
/// display text.
#[verifier::external_body]
fn decode_raster(data: &[u8]) -> (decoded: Result<Raster, String>)
    ensures
        match decoded {
            Ok(image) => decoded_image(data@) == Ok::<RasterModel, Seq<char>>(image@)
                && image@.well_formed(),
            Err(e) => decoded_image(data@) == Err::<RasterModel, Seq<char>>(e@),
        },
{
    match ::image::load_from_memory(data) {
        Ok(image) => {
            let rgba = image.into_rgba8();
            Ok(Raster { width: rgba.width(), height: rgba.height(), pixels: rgba.into_raw() })
        },
        Err(e) => Err(e.to_string()),
    }
}

/// Scales with `image::imageops::resize` and `FilterType::Lanczos3`. The
/// result has the size asked for; its pixels are a function of the
/// arguments and get the name [`resampled`]. The outside code fails on a
/// buffer shorter than the size needs and on a target whose buffer length
/// overflows: `requires` leaves both out.
#[verifier::external_body]
fn resize_raster(image: &Raster, width: u32, height: u32) -> (scaled: Raster)
    requires
        image@.well_formed(),
        4 * width * height <= usize::MAX,
    ensures
        scaled@ == (RasterModel {
            width,
            height,
            pixels: resampled(image@, width, height),
        }),
        scaled@.well_formed(),
{
    let source = ::image::ImageBuffer::<::image::Rgba<u8>, &[u8]>::from_raw(
        image.width,
        image.height,
        image.pixels.as_slice(),
    ).expect("four bytes for each pixel");
    let filter = ::image::imageops::FilterType::Lanczos3;
    let scaled = ::image::imageops::resize(&source, width, height, filter);
    Raster { width: scaled.width(), height: scaled.height(), pixels: scaled.into_raw() }
}

/// Encodes with `ImageBuffer::write_to` and `ImageFormat::Png`. The result
/// is a function of the image and gets the name [`png_encoding`]; an error
/// is given as its display text.
#[verifier::external_body]
fn encode_png(image: &Raster) -> (encoded: Result<Vec<u8>, String>)
    requires
        image@.well_formed(),
    ensures
        match encoded {
            Ok(bytes) => png_encoding(image@) == Ok::<Seq<u8>, Seq<char>>(bytes@),
            Err(e) => png_encoding(image@) == Err::<Seq<u8>, Seq<char>>(e@),
        },
{
    let source = ::image::ImageBuffer::<::image::Rgba<u8>, &[u8]>::from_raw(
        image.width,
        image.height,
        image.pixels.as_slice(),
    ).expect("four bytes for each pixel");
    let mut out: Vec<u8> = Vec::new();
    match source.write_to(&mut std::io::Cursor::new(&mut out), ::image::ImageFormat::Png) {
        Ok(()) => Ok(out),
        Err(e) => Err(e.to_string()),
    }
}

/// Encodes the colours with `JpegEncoder::new_with_quality` and
/// `ImageBuffer::write_with_encoder`, after `ConvertBuffer::convert` to
/// eight-bit RGB. The result is a function of the image and the quality and
/// gets the name [`jpeg_encoding`]; an error is given as its display text.
#[verifier::external_body]
fn encode_jpeg(image: &Raster, quality: u8) -> (encoded: Result<Vec<u8>, String>)
    requires
        image@.well_formed(),
    ensures
        match encoded {
            Ok(bytes) => jpeg_encoding(image@, quality) == Ok::<Seq<u8>, Seq<char>>(bytes@),
            Err(e) => jpeg_encoding(image@, quality) == Err::<Seq<u8>, Seq<char>>(e@),
        },
{
    let source = ::image::ImageBuffer::<::image::Rgba<u8>, &[u8]>::from_raw(
        image.width,
        image.height,
        image.pixels.as_slice(),
    ).expect("four bytes for each pixel");
    let rgb: ::image::RgbImage = ::image::buffer::ConvertBuffer::convert(&source);
    let mut out: Vec<u8> = Vec::new();
    let encoder = ::image::codecs::jpeg::JpegEncoder::new_with_quality(&mut out, quality);
    match rgb.write_with_encoder(encoder) {
        Ok(()) => Ok(out),
        Err(e) => Err(e.to_string()),
    }
}

/// `n`, or one where `n` is zero.
pub open spec fn spec_at_least_one(n: u32) -> int {
    if n == 0 {
        1
    } else {
        n as int
    }
}

/// Scales with `DynamicImage::thumbnail`. The result is a function of the
/// arguments and gets the name [`thumbnail_of`]. The thumbnail fits the
/// bounds, with sides of at least one pixel; the outside code fails where
/// the length of such a buffer overflows, which `requires` leaves out.
#[verifier::external_body]
fn thumbnail_raster(image: &Raster, width: u32, height: u32) -> (small: Raster)
    requires
        image@.well_formed(),
        4 * spec_at_least_one(width) * spec_at_least_one(height) <= usize::MAX,
    ensures
        small@ == thumbnail_of(image@, width, height),
        small@.well_formed(),
{
    let source = ::image::RgbaImage::from_raw(image.width, image.height, image.pixels.clone())
        .expect("four bytes for each pixel");
    let small = ::image::DynamicImage::ImageRgba8(source).thumbnail(width, height).into_rgba8();
    Raster { width: small.width(), height: small.height(), pixels: small.into_raw() }
}

/// The length of the shorter side `side` of an image scaled so that its
/// longer side `longest` becomes the largest dimension: the exact quotient
/// rounded to the nearest integer, halves upwards, and at least one.
pub open spec fn scaled_side(side: u32, longest: u32) -> int {
    let rounded = (2 * side * max_dimension() + longest) / (2 * longest);
    if rounded < 1 {
        1
    } else {
        rounded
    }
}

/// The size to which an image of the size `width` by `height` is scaled
/// down: the longer side becomes the largest dimension, the other side
/// keeps the proportion.
pub open spec fn fitted(width: u32, height: u32) -> (int, int) {
    if width >= height {
        (max_dimension() as int, scaled_side(height, width))
    } else {
        (scaled_side(width, height), max_dimension() as int)
    }
}

/// Whether an image of this size is scaled down: one of its sides is
/// longer than the largest dimension.
pub open spec fn needs_resize(width: u32, height: u32) -> bool {
    width > max_dimension() || height > max_dimension()
}

/// The absolute value of `x`.
pub open spec fn magnitude(x: int) -> int {
    if x < 0 {
        -x
    } else {
        x
    }
}

/// The scaled side is at most the largest dimension, at most the side it
/// comes from where that is not zero, and within one pixel of the exact
/// proportion.
pub proof fn lemma_scaled_side(side: u32, longest: u32)
    requires
        side <= longest,
        longest > max_dimension(),
    ensures
        1 <= scaled_side(side, longest) <= max_dimension(),
        side >= 1 ==> scaled_side(side, longest) <= side,
        magnitude(max_dimension() * side - scaled_side(side, longest) * longest) <= longest,
{
    let s = side as int;
    let l = longest as int;
    let n = 2 * s * 1920 + l;
    let d = 2 * l;
    let q = n / d;
    assert(n == d * q + n % d && 0 <= n % d < d) by {
        vstd::arithmetic::div_mod::lemma_fundamental_div_mod(n, d);
    }
    assert(q <= s && q <= 1920 && q >= 0) by (nonlinear_arith)
        requires
            n == d * q + n % d,
            0 <= n % d < d,
            n == 2 * s * 1920 + l,
            d == 2 * l,
            0 <= s <= l,
            l > 1920,
    ;
    assert(magnitude(1920 * s - q * l) <= l) by (nonlinear_arith)
        requires
            n == d * q + n % d,
            0 <= n % d < d,
            n == 2 * s * 1920 + l,
            d == 2 * l,
            0 <= s <= l,
            l > 1920,
    ;
    if q < 1 {
        assert(1920 * s < l) by (nonlinear_arith)
            requires
                n == d * q + n % d,
                0 <= n % d < d,
                n == 2 * s * 1920 + l,
                d == 2 * l,
                q == 0,
        ;
    }
}

/// Scaling down never makes a side longer and keeps the proportion of the
/// sides within rounding: the new size fits the largest dimension, neither
/// new side is longer than the old one, and `new width * height` differs
/// from `new height * width` by at most the longer old side, which is to
/// say that each new side is within one pixel of the exact proportion.
pub proof fn lemma_fitted_keeps_shape(width: u32, height: u32)
    requires
        needs_resize(width, height),
        width >= 1,
        height >= 1,
    ensures
        1 <= fitted(width, height).0 <= max_dimension(),
        1 <= fitted(width, height).1 <= max_dimension(),
        fitted(width, height).0 <= width,
        fitted(width, height).1 <= height,
        magnitude(fitted(width, height).0 * height - fitted(width, height).1 * width) <= (if width
            >= height {
            width
        } else {
            height
        }),
{
    if width >= height {
        lemma_scaled_side(height, width);
    } else {
        lemma_scaled_side(width, height);
    }
}

/// The scaled length of the side `side` of an image whose longer side is
/// `longest`.
fn scale_side(side: u32, longest: u32) -> (scaled: u32)
    requires
        side <= longest,
        longest > max_dimension(),
    ensures
        scaled == scaled_side(side, longest),
        1 <= scaled <= max_dimension(),
{
    proof {
        lemma_scaled_side(side, longest);
    }
    let n: u64 = 2 * (side as u64) * 1920 + (longest as u64);
    let rounded: u64 = n / (2 * (longest as u64));
    if rounded < 1 {
        1
    } else {
        rounded as u32
    }
}

/// The size to which an image that is too large is scaled down.
pub fn fit_within(width: u32, height: u32) -> (size: (u32, u32))
    requires
        needs_resize(width, height),
    ensures
        (size.0 as int, size.1 as int) == fitted(width, height),
        1 <= size.0 <= max_dimension(),
        1 <= size.1 <= max_dimension(),
{
    if width >= height {
        (1920, scale_side(height, width))
    } else {
        (scale_side(width, height), 1920)
    }
}

/// The media type that the first bytes of `data` tell: PNG, JPEG, GIF or
/// WebP by their signatures, looked for only in data of eight bytes or
/// more, and JPEG for anything else.
pub open spec fn sniffed_type(data: Seq<u8>) -> Seq<char> {
    if data.len() < 8 {
        "image/jpeg"@
    } else if seq![0x89u8, 0x50u8, 0x4eu8, 0x47u8].is_prefix_of(data) {
        "image/png"@
    } else if seq![0xffu8, 0xd8u8, 0xffu8].is_prefix_of(data) {
        "image/jpeg"@
    } else if seq![0x47u8, 0x49u8, 0x46u8, 0x38u8, 0x37u8, 0x61u8].is_prefix_of(data) || seq![
        0x47u8,
        0x49u8,
        0x46u8,
        0x38u8,
        0x39u8,
        0x61u8,
    ].is_prefix_of(data) {
        "image/gif"@
    } else if seq![0x52u8, 0x49u8, 0x46u8, 0x46u8].is_prefix_of(data) && data.len() >= 12
        && data.subrange(8, 12) == seq![0x57u8, 0x45u8, 0x42u8, 0x50u8] {
        "image/webp"@
    } else {
        "image/jpeg"@
    }
}

/// Tells the media type of an image from its first bytes.
pub fn detect_mime_type(data: &[u8]) -> (mime_type: String)
    ensures
        mime_type@ == sniffed_type(data@),
{
    let n = data.len();
    let png: [u8; 4] = [0x89, 0x50, 0x4e, 0x47];
    let jpeg: [u8; 3] = [0xff, 0xd8, 0xff];
    let gif87: [u8; 6] = [0x47, 0x49, 0x46, 0x38, 0x37, 0x61];
    let gif89: [u8; 6] = [0x47, 0x49, 0x46, 0x38, 0x39, 0x61];
    let riff: [u8; 4] = [0x52, 0x49, 0x46, 0x46];
    let webp: [u8; 4] = [0x57, 0x45, 0x42, 0x50];
    if n < 8 {
        String::from_str("image/jpeg")
    } else if window_starts_with(data, 0, n, png.as_slice()) {
        String::from_str("image/png")
    } else if window_starts_with(data, 0, n, jpeg.as_slice()) {
        String::from_str("image/jpeg")
    } else if window_starts_with(data, 0, n, gif87.as_slice()) || window_starts_with(
        data,
        0,
        n,
        gif89.as_slice(),
    ) {
        String::from_str("image/gif")
    } else if window_starts_with(data, 0, n, riff.as_slice()) && n >= 12 && window_eq(
        data,
        8,
        12,
        webp.as_slice(),
    ) {
        String::from_str("image/webp")
    } else {
        String::from_str("image/jpeg")
    }
}

/// The outcome of the search for a JPEG encoding from the quality
/// `quality` down: the first encoding that is within the budget, or the one
/// at the floor of the quality; the encoder's error ends the search.
pub open spec fn jpeg_search(image: RasterModel, budget: usize, quality: u8) -> Result<
    (Seq<u8>, Seq<char>),
    Seq<char>,
>
    decreases quality,
{
    match jpeg_encoding(image, quality) {
        Err(e) => Err("Failed to encode JPEG: "@ + e),
        Ok(bytes) => if bytes.len() <= budget || quality <= quality_floor() {
            Ok((bytes, "image/jpeg"@))
        } else {
            jpeg_search(image, budget, (quality - 5) as u8)
        },
    }
}

/// The compressed form of `image` for the budget `budget`, with its media
/// type: the PNG encoding where it is within the budget, else what the
/// search for a JPEG encoding gives.
pub open spec fn compressed(image: RasterModel, budget: usize) -> Result<
    (Seq<u8>, Seq<char>),
    Seq<char>,
> {
    match png_encoding(image) {
        Err(e) => Err("Failed to encode PNG: "@ + e),
        Ok(bytes) => if bytes.len() <= budget {
            Ok((bytes, "image/png"@))
        } else {
            jpeg_search(image, budget, first_quality())
        },
    }
}

/// The number of JPEG encodings that the search makes from the quality
/// `quality` down.
pub open spec fn jpeg_attempts(image: RasterModel, budget: usize, quality: u8) -> nat
    decreases quality,
{
    match jpeg_encoding(image, quality) {
        Err(_) => 1,
        Ok(bytes) => if bytes.len() <= budget || quality <= quality_floor() {
            1
        } else {
            1 + jpeg_attempts(image, budget, (quality - 5) as u8)
        },
    }
}

/// The number of encodings that compressing `image` makes: the PNG
/// encoding, and the JPEG encodings where the search is entered.
pub open spec fn encode_attempts(image: RasterModel, budget: usize) -> nat {
    match png_encoding(image) {
        Err(_) => 1,
        Ok(bytes) => if bytes.len() <= budget {
            1
        } else {
            1 + jpeg_attempts(image, budget, first_quality())
        },
    }
}

/// The search from a quality that is the floor plus a multiple of five
/// makes at most one encoding for each step down to the floor.
proof fn lemma_jpeg_attempts(image: RasterModel, budget: usize, quality: u8)
    requires
        quality_floor() <= quality <= first_quality(),
        (quality - quality_floor()) % 5 == 0,
    ensures
        jpeg_attempts(image, budget, quality) <= 1 + (quality - quality_floor()) / 5,
        match jpeg_search(image, budget, quality) {
            Ok(found) => found.0.len() <= budget || jpeg_encoding(image, quality_floor()) == Ok::<
                Seq<u8>,
                Seq<char>,
            >(found.0),
            Err(_) => true,
        },
    decreases quality,
{
    if quality > quality_floor() {
        lemma_jpeg_attempts(image, budget, (quality - 5) as u8);
    }
}

/// The search ends: it makes at most seven JPEG encodings, after the one
/// PNG encoding, and what compressing returns is within the budget or is
/// the JPEG encoding at the floor of the quality.
pub proof fn lemma_search_is_bounded(image: RasterModel, budget: usize)
    ensures
        jpeg_attempts(image, budget, first_quality()) <= 7,
        encode_attempts(image, budget) <= 8,
        match compressed(image, budget) {
            Ok(found) => found.0.len() <= budget || (found.1 == "image/jpeg"@ && jpeg_encoding(
                image,
                quality_floor(),
            ) == Ok::<Seq<u8>, Seq<char>>(found.0)),
            Err(_) => true,
        },
{
    lemma_jpeg_attempts(image, budget, first_quality());
    lemma_jpeg_found_type(image, budget, first_quality());
}

/// What the search finds is a JPEG file.
proof fn lemma_jpeg_found_type(image: RasterModel, budget: usize, quality: u8)
    ensures
        match jpeg_search(image, budget, quality) {
            Ok(found) => found.1 == "image/jpeg"@,
            Err(_) => true,
        },
    decreases quality,
{
    match jpeg_encoding(image, quality) {
        Ok(bytes) => {
            if !(bytes.len() <= budget || quality <= quality_floor()) {
                lemma_jpeg_found_type(image, budget, (quality - 5) as u8);
            }
        },
        Err(_) => {},
    }
}

/// The bytes and the media type of a compressed image, on the side of
/// success, and the message on the side of failure.
pub open spec fn compressed_model(r: Result<(Vec<u8>, String), String>) -> Result<
    (Seq<u8>, Seq<char>),
    Seq<char>,
> {
    match r {
        Ok(found) => Ok((found.0@, found.1@)),
        Err(e) => Err(e@),
    }
}

/// Encodes an image for a byte budget: without loss as PNG where that is
/// within the budget, else as JPEG at the first quality from 90 down in
/// steps of 5 that is within the budget, and at the quality 60 where none
/// is.
pub fn compress_image(img: &Raster, max_size_bytes: usize) -> (found: Result<
    (Vec<u8>, String),
    String,
>)
    requires
        img@.well_formed(),
    ensures
        compressed_model(found) == compressed(img@, max_size_bytes),
{
    match encode_png(img) {
        Err(e) => {
            return Err(concat("Failed to encode PNG: ", e.as_str()));
        },
        Ok(png) => {
            if png.len() <= max_size_bytes {
                return Ok((png, String::from_str("image/png")));
            }
        },
    }
    let mut quality: u8 = 90;
    loop
        invariant
            img@.well_formed(),
            quality_floor() <= quality <= first_quality(),
            (quality - quality_floor()) % 5 == 0,
            compressed(img@, max_size_bytes) == jpeg_search(img@, max_size_bytes, quality),
        decreases quality,
    {
        match encode_jpeg(img, quality) {
            Err(e) => {
                return Err(concat("Failed to encode JPEG: ", e.as_str()));
            },
            Ok(jpeg) => {
                if jpeg.len() <= max_size_bytes || quality <= 60 {
                    return Ok((jpeg, String::from_str("image/jpeg")));
                }
            },
        }
        quality -= 5;
    }
}

/// An image made ready for a provider.
#[derive(Debug, Clone, PartialEq, Eq)]
pub struct ProcessedImage {
    pub base64: String,
    pub mime_type: String,
    pub original_size: usize,
    pub compressed_size: Option<usize>,
    pub was_compressed: bool,
}

/// The mathematical value of a [`ProcessedImage`].
pub struct ProcessedModel {
    pub base64: Seq<char>,
    pub mime_type: Seq<char>,
    pub original_size: usize,
    pub compressed_size: Option<usize>,
    pub was_compressed: bool,
}

impl View for ProcessedImage {
    type V = ProcessedModel;

    open spec fn view(&self) -> ProcessedModel {
        ProcessedModel {
            base64: self.base64@,
            mime_type: self.mime_type@,
            original_size: self.original_size,
            compressed_size: self.compressed_size,
            was_compressed: self.was_compressed,
        }
    }
}

/// The input handed back as it came: the payload is the input, and the
/// media type is told from the first bytes of the data.
pub open spec fn unchanged(input: Seq<char>, data: Seq<u8>) -> ProcessedModel {
    ProcessedModel {
        base64: input,
        mime_type: sniffed_type(data),
        original_size: data.len() as usize,
        compressed_size: None,
        was_compressed: false,
    }
}

/// The image that is encoded again: `image` scaled down where one of its
/// sides is longer than the largest dimension, else `image` itself.
pub open spec fn scaled(image: RasterModel) -> RasterModel {
    if needs_resize(image.width, image.height) {
        let size = fitted(image.width, image.height);
        RasterModel {
            width: size.0 as u32,
            height: size.1 as u32,
            pixels: resampled(image, size.0 as u32, size.1 as u32),
        }
    } else {
        image
    }
}

/// What preparing the data `data`, which the payload `input` encodes, gives
/// where compression is on.
pub open spec fn prepared_data(input: Seq<char>, data: Seq<u8>, budget: usize) -> Result<
    ProcessedModel,
    Seq<char>,
> {
    match decoded_image(data) {
        Err(e) => Err("Failed to decode image: "@ + e),
        Ok(image) => if !needs_resize(image.width, image.height) && data.len() <= budget {
            Ok(unchanged(input, data))
        } else {
            match compressed(scaled(image), budget) {
                Err(e) => Err(e),
                Ok(found) => Ok(
                    ProcessedModel {
                        base64: base64_text(found.0),
                        mime_type: found.1,
                        original_size: data.len() as usize,
                        compressed_size: Some(found.0.len() as usize),
                        was_compressed: true,
                    },
                ),
            }
        },
    }
}

/// What preparing the payload `input` gives: an error for a payload that is
/// no base64 and, where compression is on, for data that is no image; the
/// input as it came where compression is off, and where the image is
/// within the budget and within the largest dimension; else the image
/// scaled down where it is too large, and encoded again.
pub open spec fn prepared(input: Seq<char>, auto_compress: bool, budget: usize) -> Result<
    ProcessedModel,
    Seq<char>,
> {
    match base64_bytes(input) {
        Err(e) => Err("Invalid base64: "@ + e),
        Ok(data) => if !auto_compress {
            Ok(unchanged(input, data))
        } else {
            prepared_data(input, data, budget)
        },
    }
}

/// The value of a prepared image, or the message of the failure.
pub open spec fn processed_model(r: Result<ProcessedImage, String>) -> Result<
    ProcessedModel,
    Seq<char>,
> {
    match r {
        Ok(image) => Ok(image@),
        Err(e) => Err(e@),
    }
}

/// An image within the byte budget and within the largest dimension comes
/// back as it went in: the payload is the input, and nothing is marked as
/// compressed.
pub proof fn lemma_small_image_unchanged(input: Seq<char>, budget: usize)
    requires
        base64_bytes(input) is Ok,
        decoded_image(base64_bytes(input)->Ok_0) is Ok,
        base64_bytes(input)->Ok_0.len() <= budget,
        !needs_resize(
            decoded_image(base64_bytes(input)->Ok_0)->Ok_0.width,
            decoded_image(base64_bytes(input)->Ok_0)->Ok_0.height,
        ),
    ensures
        prepared(input, true, budget) is Ok,
        prepared(input, true, budget)->Ok_0.base64 == input,
        !prepared(input, true, budget)->Ok_0.was_compressed,
        prepared(input, false, budget) is Ok,
        prepared(input, false, budget)->Ok_0.base64 == input,
        !prepared(input, false, budget)->Ok_0.was_compressed,
{
}

/// An image that is encoded again comes out within the byte budget, or as
/// the JPEG encoding at the floor of the quality.
pub proof fn lemma_compressed_within_budget(input: Seq<char>, budget: usize)
    requires
        prepared(input, true, budget) is Ok,
        prepared(input, true, budget)->Ok_0.was_compressed,
    ensures
        ({
            let image = scaled(decoded_image(base64_bytes(input)->Ok_0)->Ok_0);
            let payload = compressed(image, budget)->Ok_0.0;
            &&& prepared(input, true, budget)->Ok_0.base64 == base64_text(payload)
            &&& prepared(input, true, budget)->Ok_0.compressed_size == Some(payload.len() as usize)
            &&& payload.len() <= budget || jpeg_encoding(image, quality_floor()) == Ok::<
                Seq<u8>,
                Seq<char>,
            >(payload)
        }),
{
    let image = scaled(decoded_image(base64_bytes(input)->Ok_0)->Ok_0);
    lemma_search_is_bounded(image, budget);
}

/// Makes an image ready for a provider. With compression off the input
/// comes back as it is. With compression on, an image within the budget and
/// within the largest dimension comes back as it is; any other is scaled
/// down where it is too large, and encoded again for the budget.
pub fn process_image_for_api(input_base64: &str, auto_compress: bool, max_size_bytes: usize) -> (out:
    Result<ProcessedImage, String>)
    ensures
        processed_model(out) == prepared(input_base64@, auto_compress, max_size_bytes),
{
    let image_data = match base64_decode(input_base64) {
        Ok(data) => data,
        Err(e) => {
            return Err(concat("Invalid base64: ", e.as_str()));
        },
    };
    let original_size = image_data.len();
    if !auto_compress {
        return Ok(
            ProcessedImage {
                base64: String::from_str(input_base64),
                mime_type: detect_mime_type(image_data.as_slice()),
                original_size,
                compressed_size: None,
                was_compressed: false,
            },
        );
    }
    let img = match decode_raster(image_data.as_slice()) {
        Ok(img) => img,
        Err(e) => {
            return Err(concat("Failed to decode image: ", e.as_str()));
        },
    };
    let too_large = img.width > 1920 || img.height > 1920;
    if !too_large && original_size <= max_size_bytes {
        return Ok(
            ProcessedImage {
                base64: String::from_str(input_base64),
                mime_type: detect_mime_type(image_data.as_slice()),
                original_size,
                compressed_size: None,
                was_compressed: false,
            },
        );
    }
    let img = if too_large {
        let size = fit_within(img.width, img.height);
        assert(4 * size.0 * size.1 <= usize::MAX) by (nonlinear_arith)
            requires
                size.0 <= 1920,
                size.1 <= 1920,
                usize::MAX >= 0xffff_ffff,
        ;
        resize_raster(&img, size.0, size.1)
    } else {
        img
    };
    match compress_image(&img, max_size_bytes) {
        Err(e) => Err(e),
        Ok(found) => {
            let size = found.0.len();
            Ok(
                ProcessedImage {
                    base64: base64_encode(found.0.as_slice()),
                    mime_type: found.1,
                    original_size,
                    compressed_size: Some(size),
                    was_compressed: true,
                },
            )
        },
    }
}

/// The thumbnail of the image that `input` encodes, as a data URL of a
/// JPEG file at the quality 70.
pub open spec fn thumbnail_url(input: Seq<char>, width: u32, height: u32) -> Result<
    Seq<char>,
    Seq<char>,
> {
    match base64_bytes(input) {
        Err(e) => Err("Invalid base64: "@ + e),
        Ok(data) => match decoded_image(data) {
            Err(e) => Err("Failed to decode image: "@ + e),
            Ok(image) => match jpeg_encoding(thumbnail_of(image, width, height), 70) {
                Err(e) => Err("Failed to encode thumbnail: "@ + e),
                Ok(bytes) => Ok("data:image/jpeg;base64,"@ + base64_text(bytes)),
            },
        },
    }
}

/// The characters of a text result, on either side.
pub open spec fn text_result(r: Result<String, String>) -> Result<Seq<char>, Seq<char>> {
    match r {
        Ok(text) => Ok(text@),
        Err(e) => Err(e@),
    }
}

/// Makes a thumbnail that fits `width` by `height`, as a data URL.
pub fn generate_thumbnail(input_base64: &str, width: u32, height: u32) -> (url: Result<
    String,
    String,
>)
    requires
        4 * spec_at_least_one(width) * spec_at_least_one(height) <= usize::MAX,
    ensures
        text_result(url) == thumbnail_url(input_base64@, width, height),
{
    let image_data = match base64_decode(input_base64) {
        Ok(data) => data,
        Err(e) => {
            return Err(concat("Invalid base64: ", e.as_str()));
        },
    };
    let img = match decode_raster(image_data.as_slice()) {
        Ok(img) => img,
        Err(e) => {
            return Err(concat("Failed to decode image: ", e.as_str()));
        },
    };
    let small = thumbnail_raster(&img, width, height);
    match encode_jpeg(&small, 70) {
        Err(e) => Err(concat("Failed to encode thumbnail: ", e.as_str())),
        Ok(bytes) => {
            let encoded = base64_encode(bytes.as_slice());
            Ok(concat("data:image/jpeg;base64,", encoded.as_str()))
        },
    }
}

/// What `str::to_lowercase` makes of `s`.
pub uninterp spec fn lowercased(s: Seq<char>) -> Seq<char>;

/// Lowers the case with `str::to_lowercase`. The result is a function of
/// the characters and gets the name [`lowercased`].
#[verifier::external_body]
pub(crate) fn lowercase(s: &str) -> (lower: String)
    ensures
        lower@ == lowercased(s@),
{
    s.to_lowercase()
}

/// What follows the last full stop of `name`; all of `name` where it has
/// none.
pub open spec fn extension(name: Seq<char>) -> Seq<char>
    decreases name.len(),
{
    if name.len() == 0 {
        name
    } else if name.last() == '.' {
        Seq::empty()
    } else {
        extension(name.drop_last()).push(name.last())
    }
}

/// Whether `ext`, in lower case, names a format that the application
/// takes: `jpg`, `jpeg`, `png`, `webp` or `gif`.
pub open spec fn is_supported(ext: Seq<char>) -> bool {
    let lower = lowercased(ext);
    lower == "jpg"@ || lower == "jpeg"@ || lower == "png"@ || lower == "webp"@ || lower == "gif"@
}

/// Whether the extension of a file name is one of the formats that the
/// application takes, in either case.
pub fn is_valid_format(filename: &str) -> (valid: bool)
    ensures
        valid == is_supported(extension(filename@)),
{
    let mut ext = String::new();
    for c in it: filename.chars()
        invariant
            it.seq() == filename@,
            ext@ == extension(filename@.take(it.index() as int)),
    {
        assert(filename@.take(it.index() + 1).drop_last() =~= filename@.take(it.index() as int));
        if c == '.' {
            ext = String::new();
        } else {
            ext.push(c);
        }
    }
    assert(filename@.take(filename@.len() as int) =~= filename@);
    let lower = lowercase(ext.as_str());
    str_eq(lower.as_str(), "jpg") || str_eq(lower.as_str(), "jpeg") || str_eq(
        lower.as_str(),
        "png",
    ) || str_eq(lower.as_str(), "webp") || str_eq(lower.as_str(), "gif")
}

} // verus!
