//! Screenshots: reading a capture, cutting a part out of it, and fitting it to the bounds
//! it may be returned in.

use vstd::prelude::*;
use vstd::string::StringExecFns;
use vstd::utf8::{decode_utf8, encode_utf8, valid_utf8};
use base64::Engine;
use crate::numerals::{decimal, decimal_of, digit_char, wide_decimal_of};
use crate::text::{after_prefix, cat, chars_of, lossy, lossy_text, starts_with, string_of};

verus! {

pub const DEFAULT_SCREENSHOT_MAX_DIMENSION: u32 = 1920;

pub const DEFAULT_SCREENSHOT_MAX_BYTES: usize = 2_097_152;

pub const ABSOLUTE_SCREENSHOT_MAX_DIMENSION: u32 = 4096;

pub const ABSOLUTE_SCREENSHOT_MAX_BYTES: usize = 4_194_304;

pub const DEFAULT_SCREENSHOT_JPEG_QUALITY: u8 = 80;

pub const MIN_SCREENSHOT_JPEG_QUALITY: u8 = 1;

pub const MAX_SCREENSHOT_JPEG_QUALITY: u8 = 95;

pub const MIN_SCREENSHOT_MAX_BYTES: usize = 1024;

/// A capture as it was taken.
#[derive(Debug)]
pub struct RawScreenshotCapture {
    pub mime_type: String,
    pub bytes: Vec<u8>,
    pub source: String,
    pub width: u32,
    pub height: u32,
}

/// What an image is encoded as.
#[derive(Debug, Clone, Copy, PartialEq, Eq, Structural)]
pub enum ScreenshotOutputFormat {
    Png,
    Jpeg,
}

impl ScreenshotOutputFormat {
    /// The media type of the format.
    pub open spec fn media_type(self) -> Seq<char> {
        match self {
            ScreenshotOutputFormat::Png => "image/png"@,
            ScreenshotOutputFormat::Jpeg => "image/jpeg"@,
        }
    }

    /// The media type of the format.
    pub fn mime_type(self) -> (r: &'static str)
        ensures
            r@ == self.media_type(),
    {
        match self {
            ScreenshotOutputFormat::Png => "image/png",
            ScreenshotOutputFormat::Jpeg => "image/jpeg",
        }
    }
}

/// A capture as it is returned, but for the ratio of its width to the coordinate width.
#[derive(Debug)]
pub struct ScreenshotCapture {
    pub mime_type: String,
    pub data_url: String,
    pub source: String,
    /// Width of the returned image payload.
    pub width: u32,
    /// Height of the returned image payload.
    pub height: u32,
    /// Coordinate-space width before payload downscaling.
    pub coordinate_width: u32,
    /// Coordinate-space height before payload downscaling.
    pub coordinate_height: u32,
    pub resized: bool,
    pub bytes: usize,
    pub original_bytes: usize,
    pub max_bytes: usize,
    pub format: ScreenshotOutputFormat,
    pub quality: Option<u8>,
}

/// What a caller asks of the payload, but for an additional downscale factor.
#[derive(Debug, Clone, Copy, PartialEq, Eq, Structural)]
pub struct ScreenshotPayloadOptions {
    pub max_width: Option<u32>,
    pub max_height: Option<u32>,
    pub max_bytes: Option<usize>,
    pub format: Option<ScreenshotOutputFormat>,
    pub quality: Option<u8>,
}

impl Default for ScreenshotPayloadOptions {
    fn default() -> (r: Self)
        ensures
            r == (ScreenshotPayloadOptions {
                max_width: None,
                max_height: None,
                max_bytes: None,
                format: None,
                quality: None,
            }),
    {
        ScreenshotPayloadOptions {
            max_width: None,
            max_height: None,
            max_bytes: None,
            format: None,
            quality: None,
        }
    }
}

/// What holds of the payload.
#[derive(Debug, Clone, Copy, PartialEq, Eq, Structural)]
pub struct ResolvedScreenshotPayloadOptions {
    pub max_width: u32,
    pub max_height: u32,
    pub max_bytes: usize,
    pub format: ScreenshotOutputFormat,
    pub quality: u8,
}

/// A number that may not be given, brought between two bounds.
pub open spec fn bounded(n: Option<int>, default: int, low: int, high: int) -> int {
    crate::abs_pointer::between(
        match n {
            Some(n) => n,
            None => default,
        },
        low,
        high,
    )
}

fn bounded_u32(n: Option<u32>, default: u32, low: u32, high: u32) -> (r: u32)
    requires
        low <= high,
    ensures
        r == bounded(
            match n {
                Some(n) => Some(n as int),
                None => None,
            },
            default as int,
            low as int,
            high as int,
        ),
{
    let n: u32 = match n {
        Some(n) => n,
        None => default,
    };
    if n < low {
        low
    } else if n > high {
        high
    } else {
        n
    }
}

impl ScreenshotPayloadOptions {
    /// What holds of the payload: what is asked for, within the bounds, and else the
    /// defaults.
    pub open spec fn resolved(self) -> ResolvedScreenshotPayloadOptions {
        ResolvedScreenshotPayloadOptions {
            max_width: bounded(
                match self.max_width {
                    Some(n) => Some(n as int),
                    None => None,
                },
                DEFAULT_SCREENSHOT_MAX_DIMENSION as int,
                1,
                ABSOLUTE_SCREENSHOT_MAX_DIMENSION as int,
            ) as u32,
            max_height: bounded(
                match self.max_height {
                    Some(n) => Some(n as int),
                    None => None,
                },
                DEFAULT_SCREENSHOT_MAX_DIMENSION as int,
                1,
                ABSOLUTE_SCREENSHOT_MAX_DIMENSION as int,
            ) as u32,
            max_bytes: bounded(
                match self.max_bytes {
                    Some(n) => Some(n as int),
                    None => None,
                },
                DEFAULT_SCREENSHOT_MAX_BYTES as int,
                MIN_SCREENSHOT_MAX_BYTES as int,
                ABSOLUTE_SCREENSHOT_MAX_BYTES as int,
            ) as usize,
            format: match self.format {
                Some(format) => format,
                None => ScreenshotOutputFormat::Png,
            },
            quality: bounded(
                match self.quality {
                    Some(n) => Some(n as int),
                    None => None,
                },
                DEFAULT_SCREENSHOT_JPEG_QUALITY as int,
                MIN_SCREENSHOT_JPEG_QUALITY as int,
                MAX_SCREENSHOT_JPEG_QUALITY as int,
            ) as u8,
        }
    }

    /// What holds of the payload.
    pub fn resolve(self) -> (r: ResolvedScreenshotPayloadOptions)
        ensures
            r == self.resolved(),
            1 <= r.max_width <= ABSOLUTE_SCREENSHOT_MAX_DIMENSION,
            1 <= r.max_height <= ABSOLUTE_SCREENSHOT_MAX_DIMENSION,
            MIN_SCREENSHOT_MAX_BYTES <= r.max_bytes <= ABSOLUTE_SCREENSHOT_MAX_BYTES,
            MIN_SCREENSHOT_JPEG_QUALITY <= r.quality <= MAX_SCREENSHOT_JPEG_QUALITY,
    {
        let max_bytes: usize = match self.max_bytes {
            Some(n) => n,
            None => DEFAULT_SCREENSHOT_MAX_BYTES,
        };
        let quality: u8 = match self.quality {
            Some(n) => n,
            None => DEFAULT_SCREENSHOT_JPEG_QUALITY,
        };
        ResolvedScreenshotPayloadOptions {
            max_width: bounded_u32(
                self.max_width,
                DEFAULT_SCREENSHOT_MAX_DIMENSION,
                1,
                ABSOLUTE_SCREENSHOT_MAX_DIMENSION,
            ),
            max_height: bounded_u32(
                self.max_height,
                DEFAULT_SCREENSHOT_MAX_DIMENSION,
                1,
                ABSOLUTE_SCREENSHOT_MAX_DIMENSION,
            ),
            max_bytes: if max_bytes < MIN_SCREENSHOT_MAX_BYTES {
                MIN_SCREENSHOT_MAX_BYTES
            } else if max_bytes > ABSOLUTE_SCREENSHOT_MAX_BYTES {
                ABSOLUTE_SCREENSHOT_MAX_BYTES
            } else {
                max_bytes
            },
            format: match self.format {
                Some(format) => format,
                None => ScreenshotOutputFormat::Png,
            },
            quality: if quality < MIN_SCREENSHOT_JPEG_QUALITY {
                MIN_SCREENSHOT_JPEG_QUALITY
            } else if quality > MAX_SCREENSHOT_JPEG_QUALITY {
                MAX_SCREENSHOT_JPEG_QUALITY
            } else {
                quality
            },
        }
    }
}

/// Four bytes as a number, the most significant first.
pub open spec fn big_endian(bytes: Seq<u8>, at: int) -> int {
    bytes[at] * 0x100_0000 + bytes[at + 1] * 0x1_0000 + bytes[at + 2] * 0x100 + bytes[at + 3]
}

/// Whether bytes begin like a PNG file: its signature, and the header chunk first.
pub open spec fn is_png(bytes: Seq<u8>) -> bool {
    &&& bytes.len() >= 24
    &&& bytes.take(8) == seq![0x89u8, 0x50, 0x4e, 0x47, 0x0d, 0x0a, 0x1a, 0x0a]
    &&& bytes.subrange(12, 16) == seq![0x49u8, 0x48, 0x44, 0x52]
}

/// The dimensions in the header of a PNG file, or what is wrong with it.
pub open spec fn header_size(bytes: Seq<u8>) -> Result<(u32, u32), Seq<char>> {
    let width = big_endian(bytes, 16);
    let height = big_endian(bytes, 20);
    if !is_png(bytes) {
        Err("screenshot file was not a valid PNG"@)
    } else if width == 0 || height == 0 {
        Err(
            "screenshot PNG had invalid dimensions "@ + decimal(width) + "x"@ + decimal(height),
        )
    } else {
        Ok((width as u32, height as u32))
    }
}

/// Whether bytes are a PNG file whose header holds some dimensions.
pub open spec fn has_size(bytes: Seq<u8>, width: u32, height: u32) -> bool {
    header_size(bytes) == Ok::<(u32, u32), Seq<char>>((width, height))
}

fn big_endian_of(bytes: &[u8], at: usize) -> (r: u32)
    requires
        at + 4 <= bytes@.len(),
    ensures
        r == big_endian(bytes@, at as int),
{
    bytes[at] as u32 * 0x100_0000 + bytes[at + 1] as u32 * 0x1_0000 + bytes[at + 2] as u32 * 0x100
        + bytes[at + 3] as u32
}

/// The dimensions in the header of a PNG file.
pub fn png_dimensions(bytes: &[u8]) -> (r: Result<(u32, u32), String>)
    ensures
        match header_size(bytes@) {
            Ok(size) => r == Ok::<(u32, u32), String>(size),
            Err(message) => r is Err && r->Err_0@ == message,
        },
{
    let signature = bytes.len() >= 24 && bytes[0] == 0x89 && bytes[1] == 0x50 && bytes[2] == 0x4e
        && bytes[3] == 0x47 && bytes[4] == 0x0d && bytes[5] == 0x0a && bytes[6] == 0x1a && bytes[7]
        == 0x0a;
    let header = signature && bytes[12] == 0x49 && bytes[13] == 0x48 && bytes[14] == 0x44
        && bytes[15] == 0x52;
    proof {
        if bytes@.len() >= 24 {
            let begin = bytes@.take(8);
            let chunk = bytes@.subrange(12, 16);
            if header {
                assert(begin =~= seq![0x89u8, 0x50, 0x4e, 0x47, 0x0d, 0x0a, 0x1a, 0x0a]);
                assert(chunk =~= seq![0x49u8, 0x48, 0x44, 0x52]);
            } else if is_png(bytes@) {
                assert(begin[0] == 0x89 && begin[1] == 0x50 && begin[2] == 0x4e && begin[3] == 0x47
                    && begin[4] == 0x0d && begin[5] == 0x0a && begin[6] == 0x1a && begin[7]
                    == 0x0a);
                assert(chunk[0] == 0x49 && chunk[1] == 0x48 && chunk[2] == 0x44 && chunk[3]
                    == 0x52);
            }
        }
    }
    if !header {
        return Err("screenshot file was not a valid PNG".to_owned());
    }
    let width: u32 = big_endian_of(bytes, 16);
    let height: u32 = big_endian_of(bytes, 20);
    if width == 0 || height == 0 {
        let mut message = cat(
            "screenshot PNG had invalid dimensions ",
            &decimal_of(width as u64),
        );
        message.append("x");
        message.append(&decimal_of(height as u64));
        return Err(message);
    }
    Ok((width, height))
}

/// What a capture read from a file comes to: the bytes as they are, with the dimensions in
/// their header.
pub fn read_png_as_capture(bytes: Vec<u8>, path: &str, source: &str) -> (r: Result<
    RawScreenshotCapture,
    String,
>)
    ensures
        if bytes@.len() == 0 {
            r is Err && r->Err_0@ == "screenshot file was empty: "@ + path@
        } else {
            match header_size(bytes@) {
                Err(message) => r is Err && r->Err_0@ == message,
                Ok((width, height)) => {
                    &&& r is Ok
                    &&& r->Ok_0.mime_type@ == "image/png"@
                    &&& r->Ok_0.bytes == bytes
                    &&& r->Ok_0.source@ == source@
                    &&& r->Ok_0.width == width
                    &&& r->Ok_0.height == height
                },
            }
        },
{
    if bytes.len() == 0 {
        return Err(cat("screenshot file was empty: ", path));
    }
    let (width, height): (u32, u32) = match png_dimensions(&bytes) {
        Ok(size) => size,
        Err(message) => return Err(message),
    };
    Ok(
        RawScreenshotCapture {
            mime_type: "image/png".to_owned(),
            bytes,
            source: source.to_owned(),
            width,
            height,
        },
    )
}

/// What went wrong with an image: the message, and its cause where there is one.
#[derive(Debug)]
pub struct CaptureError {
    pub message: String,
    pub cause: Option<String>,
}

impl CaptureError {
    /// The message with its cause.
    pub open spec fn full(self) -> Seq<char> {
        match self.cause {
            Some(cause) => self.message@ + ": "@ + cause@,
            None => self.message@,
        }
    }

    /// The message with its cause.
    pub fn detail(&self) -> (r: String)
        ensures
            r@ == self.full(),
    {
        match &self.cause {
            Some(cause) => {
                let mut detail = cat(&self.message, ": ");
                detail.append(cause);
                detail
            },
            None => self.message.clone(),
        }
    }
}

/// Whether an error is a message with a cause.
pub open spec fn fails_by(error: CaptureError, message: Seq<char>, cause: Seq<char>) -> bool {
    error.message@ == message && error.cause is Some && error.cause->0@ == cause
}

/// Whether an error is a message alone.
pub open spec fn fails_with(error: CaptureError, message: Seq<char>) -> bool {
    error.message@ == message && error.cause is None
}

/// The dimensions of the picture in a PNG file, or why it cannot be decoded.
pub uninterp spec fn decoded_size(bytes: Seq<u8>) -> Result<(u32, u32), Seq<char>>;

/// `image::load_from_memory_with_format` for PNG: the dimensions of the picture it decodes,
/// or its error in words. Both depend on the bytes alone, and the dimensions are those in
/// the file's header.
#[verifier::external_body]
fn decode_size(bytes: &[u8]) -> (r: Result<(u32, u32), String>)
    ensures
        match decoded_size(bytes@) {
            Ok(size) => r is Ok && r->Ok_0 == size,
            Err(message) => r is Err && r->Err_0@ == message,
        },
        r is Ok ==> has_size(bytes@, (r->Ok_0).0, (r->Ok_0).1),
{
    match image::load_from_memory_with_format(bytes, image::ImageFormat::Png) {
        Ok(img) => Ok((img.width(), img.height())),
        Err(error) => Err(error.to_string()),
    }
}

/// The PNG file of a part of the picture in a PNG file, or why there is none.
pub uninterp spec fn cropped_png(bytes: Seq<u8>, x: u32, y: u32, width: u32, height: u32) -> Result<
    Seq<u8>,
    Seq<char>,
>;

/// `DynamicImage::crop_imm`, between `image::load_from_memory_with_format` and
/// `DynamicImage::write_to` for PNG: the part of the picture from a point on, of given
/// dimensions, as a PNG file, or the error in words. A part that is inside the picture has
/// the dimensions asked for, and the file's header says so.
#[verifier::external_body]
fn crop_to_png(bytes: &[u8], x: u32, y: u32, width: u32, height: u32) -> (r: Result<Vec<u8>, String>)
    requires
        decoded_size(bytes@) is Ok,
        x + width <= (decoded_size(bytes@)->Ok_0).0,
        y + height <= (decoded_size(bytes@)->Ok_0).1,
    ensures
        match cropped_png(bytes@, x, y, width, height) {
            Ok(part) => r is Ok && r->Ok_0@ == part,
            Err(message) => r is Err && r->Err_0@ == message,
        },
        r is Ok ==> has_size(r->Ok_0@, width, height),
{
    let mut out: Vec<u8> = Vec::new();
    image::load_from_memory_with_format(bytes, image::ImageFormat::Png)
        .map(|img| img.crop_imm(x, y, width, height))
        .and_then(|img| img.write_to(&mut std::io::Cursor::new(&mut out), image::ImageFormat::Png))
        .map_err(|error| error.to_string())?;
    Ok(out)
}

/// Whether a file is one that the resize makes of the picture in a PNG file, in some
/// dimensions. There may be more than one such file: the filter takes the sine of
/// floating-point numbers, whose precision is the machine's.
pub uninterp spec fn is_resized(bytes: Seq<u8>, width: u32, height: u32, file: Seq<u8>) -> bool;

/// `DynamicImage::resize_exact` with the Lanczos filter, between
/// `image::load_from_memory_with_format` and `DynamicImage::write_to` for PNG: the picture
/// in other dimensions, as a PNG file whose header holds them. There is always one: the
/// picture decodes, a picture with pixels in a colour type of the decoder's own is one that
/// the encoder takes, and writing to memory does not fail. The pixels are left unsaid, but
/// that they are what the resize makes of this picture.
#[verifier::external_body]
fn resize_to_png(bytes: &[u8], width: u32, height: u32) -> (r: Result<Vec<u8>, String>)
    requires
        decoded_size(bytes@) is Ok,
        0 < width <= (decoded_size(bytes@)->Ok_0).0,
        0 < height <= (decoded_size(bytes@)->Ok_0).1,
    ensures
        r is Ok,
        has_size(r->Ok_0@, width, height),
        is_resized(bytes@, width, height, r->Ok_0@),
{
    let mut out: Vec<u8> = Vec::new();
    image::load_from_memory_with_format(bytes, image::ImageFormat::Png)
        .map(|img| img.resize_exact(width, height, image::imageops::FilterType::Lanczos3))
        .and_then(|img| img.write_to(&mut std::io::Cursor::new(&mut out), image::ImageFormat::Png))
        .map_err(|error| error.to_string())?;
    Ok(out)
}

/// The JPEG file of the picture in a PNG file, or why there is none.
pub uninterp spec fn jpeg_of(bytes: Seq<u8>, quality: u8) -> Result<Seq<u8>, Seq<char>>;

/// `JpegEncoder::encode_image` at a quality, behind `image::load_from_memory_with_format`
/// and `DynamicImage::to_rgb8`: the picture as a JPEG file, or the error in words. Both
/// depend on the bytes and the quality alone.
#[verifier::external_body]
fn to_jpeg(bytes: &[u8], quality: u8) -> (r: Result<Vec<u8>, String>)
    requires
        1 <= quality <= 100,
    ensures
        match jpeg_of(bytes@, quality) {
            Ok(file) => r is Ok && r->Ok_0@ == file,
            Err(message) => r is Err && r->Err_0@ == message,
        },
{
    let mut out: Vec<u8> = Vec::new();
    image::load_from_memory_with_format(bytes, image::ImageFormat::Png)
        .and_then(|img| {
            image::codecs::jpeg::JpegEncoder::new_with_quality(&mut out, quality)
                .encode_image(&img.to_rgb8())
        })
        .map_err(|error| error.to_string())?;
    Ok(out)
}

/// Cut a rectangle (clamped to the image) out of a PNG image: the re-encoded PNG and the
/// actual dimensions of the part.
pub open spec fn part_of(bytes: Seq<u8>, x: i32, y: i32, w: u32, h: u32) -> Result<
    (Seq<u8>, u32, u32),
    Seq<char>,
> {
    let left = crate::geometry::max(x as int, 0);
    let top = crate::geometry::max(y as int, 0);
    match decoded_size(bytes) {
        Err(message) => Err("decode png: "@ + message),
        Ok((width, height)) => if left >= width || top >= height {
            Err("crop origin outside image"@)
        } else {
            let part_width = crate::geometry::min(w as int, width - left) as u32;
            let part_height = crate::geometry::min(h as int, height - top) as u32;
            match cropped_png(bytes, left as u32, top as u32, part_width, part_height) {
                Ok(part) => Ok((part, part_width, part_height)),
                Err(message) => Err("encode png: "@ + message),
            }
        },
    }
}

/// Crop a PNG image to `(x, y, w, h)` (clamped to the image), returning the
/// re-encoded PNG and the actual cropped dimensions.
pub fn crop_png(raw: &[u8], x: i32, y: i32, w: u32, h: u32) -> (r: Result<
    (Vec<u8>, u32, u32),
    String,
>)
    ensures
        match part_of(raw@, x, y, w, h) {
            Ok((part, width, height)) => r is Ok && (r->Ok_0).0@ == part && (r->Ok_0).1 == width
                && (r->Ok_0).2 == height,
            Err(message) => r is Err && r->Err_0@ == message,
        },
        r is Ok ==> has_size((r->Ok_0).0@, (r->Ok_0).1, (r->Ok_0).2),
{
    let (width, height): (u32, u32) = match decode_size(raw) {
        Ok(size) => size,
        Err(message) => return Err(cat("decode png: ", &message)),
    };
    let left: u32 = if x < 0 {
        0
    } else {
        x as u32
    };
    let top: u32 = if y < 0 {
        0
    } else {
        y as u32
    };
    if left >= width || top >= height {
        return Err("crop origin outside image".to_owned());
    }
    let part_width: u32 = if w <= width - left {
        w
    } else {
        width - left
    };
    let part_height: u32 = if h <= height - top {
        h
    } else {
        height - top
    };
    match crop_to_png(raw, left, top, part_width, part_height) {
        Ok(part) => Ok((part, part_width, part_height)),
        Err(message) => Err(cat("encode png: ", &message)),
    }
}

/// A dimension brought between one and another, by what is proposed for it.
pub open spec fn scaled(proposed: u32, dimension: u32) -> u32 {
    crate::abs_pointer::between(proposed as int, 1, dimension as int) as u32
}

fn scaled_of(proposed: u32, dimension: u32) -> (r: u32)
    requires
        dimension > 0,
    ensures
        r == scaled(proposed, dimension),
        1 <= r <= dimension,
{
    if proposed < 1 {
        1
    } else if proposed > dimension {
        dimension
    } else {
        proposed
    }
}

/// The dimension that follows one that gave too large a payload, by what is proposed for
/// it: smaller, unless it is one already.
pub open spec fn shrunk(proposed: u32, dimension: u32) -> u32 {
    if scaled(proposed, dimension) == dimension && dimension > 1 {
        (dimension - 1) as u32
    } else {
        scaled(proposed, dimension)
    }
}

/// The dimension that follows one that gave too large a payload.
pub fn next_dimension_for_byte_cap(proposed: u32, dimension: u32) -> (r: u32)
    requires
        dimension > 0,
    ensures
        r == shrunk(proposed, dimension),
        1 <= r <= dimension,
        dimension > 1 ==> r < dimension,
{
    let next: u32 = scaled_of(proposed, dimension);
    if next == dimension && dimension > 1 {
        dimension - 1
    } else {
        next
    }
}

/// Whether a file is the picture in a PNG file, resized to some dimensions.
pub open spec fn resizes_to(raw: Seq<u8>, size: (u32, u32), file: Seq<u8>) -> bool {
    has_size(file, size.0, size.1) && is_resized(raw, size.0, size.1, file)
}

/// Whether bytes are a picture as the payload holds it, in some dimensions: in its own it is
/// the picture itself, and in others the picture resized to them, in the format and at the
/// quality asked for.
pub open spec fn encodes(
    bytes: Seq<u8>,
    raw: Seq<u8>,
    original: (u32, u32),
    size: (u32, u32),
    options: ResolvedScreenshotPayloadOptions,
) -> bool {
    match options.format {
        ScreenshotOutputFormat::Png => if size == original {
            bytes == raw
        } else {
            resizes_to(raw, size, bytes)
        },
        ScreenshotOutputFormat::Jpeg => if size == original {
            jpeg_of(raw, options.quality) == Ok::<Seq<u8>, Seq<char>>(bytes)
        } else {
            exists|small: Seq<u8>|
                resizes_to(raw, size, small) && #[trigger] jpeg_of(small, options.quality) == Ok::<
                    Seq<u8>,
                    Seq<char>,
                >(bytes)
        },
    }
}

/// Whether an error is why a picture cannot be encoded in some dimensions: only a JPEG file
/// can fail, and it did for the picture in those dimensions.
pub open spec fn cannot_encode(
    error: CaptureError,
    raw: Seq<u8>,
    original: (u32, u32),
    size: (u32, u32),
    options: ResolvedScreenshotPayloadOptions,
) -> bool {
    &&& options.format is Jpeg
    &&& error.message@ == "failed to encode screenshot JPEG"@
    &&& error.cause is Some
    &&& if size == original {
        jpeg_of(raw, options.quality) == Err::<Seq<u8>, Seq<char>>(error.cause->0@)
    } else {
        exists|small: Seq<u8>|
            resizes_to(raw, size, small) && #[trigger] jpeg_of(small, options.quality) == Err::<
                Seq<u8>,
                Seq<char>,
            >(error.cause->0@)
    }
}

/// A picture as the payload holds it, in some dimensions.
fn encode_image(
    raw: &[u8],
    original: (u32, u32),
    size: (u32, u32),
    options: ResolvedScreenshotPayloadOptions,
) -> (r: Result<Vec<u8>, CaptureError>)
    requires
        decoded_size(raw@) is Ok,
        0 < size.0 <= (decoded_size(raw@)->Ok_0).0,
        0 < size.1 <= (decoded_size(raw@)->Ok_0).1,
        1 <= options.quality <= 100,
    ensures
        match r {
            Ok(bytes) => encodes(bytes@, raw@, original, size, options),
            Err(error) => cannot_encode(error, raw@, original, size, options),
        },
{
    let resized = if size.0 == original.0 && size.1 == original.1 {
        None
    } else {
        match resize_to_png(raw, size.0, size.1) {
            Ok(small) => Some(small),
            Err(_) => None,
        }
    };
    match options.format {
        ScreenshotOutputFormat::Png => Ok(
            match resized {
                Some(small) => small,
                None => vstd::slice::slice_to_vec(raw),
            },
        ),
        ScreenshotOutputFormat::Jpeg => {
            let encoded = match &resized {
                Some(small) => to_jpeg(small, options.quality),
                None => to_jpeg(raw, options.quality),
            };
            match encoded {
                Ok(bytes) => Ok(bytes),
                Err(cause) => Err(
                    CaptureError {
                        message: "failed to encode screenshot JPEG".to_owned(),
                        cause: Some(cause),
                    },
                ),
            }
        },
    }
}

/// What follows an attempt to fit a picture into so many bytes.
#[derive(Debug, Clone, Copy, PartialEq, Eq, Structural)]
pub enum FitStep {
    /// It fits.
    Fits,
    /// It does not fit, and cannot get smaller.
    TooLarge,
    /// It does not fit, and is tried in smaller dimensions.
    Shrink,
}

/// What follows an attempt to fit a picture into so many bytes.
pub fn fit_step(encoded_bytes: usize, max_bytes: usize, size: (u32, u32)) -> (r: FitStep)
    ensures
        r == if encoded_bytes <= max_bytes {
            FitStep::Fits
        } else if size == (1u32, 1u32) {
            FitStep::TooLarge
        } else {
            FitStep::Shrink
        },
{
    if encoded_bytes <= max_bytes {
        FitStep::Fits
    } else if size.0 == 1 && size.1 == 1 {
        FitStep::TooLarge
    } else {
        FitStep::Shrink
    }
}

/// Whether a picture fits at once: it is returned as it is, or its JPEG file is small
/// enough.
pub open spec fn fits_at_once(
    raw: Seq<u8>,
    original: (u32, u32),
    target: (u32, u32),
    options: ResolvedScreenshotPayloadOptions,
) -> bool {
    target == original && match options.format {
        ScreenshotOutputFormat::Png => raw.len() <= options.max_bytes,
        ScreenshotOutputFormat::Jpeg => jpeg_of(raw, options.quality) is Ok && jpeg_of(
            raw,
            options.quality,
        )->Ok_0.len() <= options.max_bytes,
    }
}

/// An attempt to fit a picture into so many bytes: the dimensions, and the file it gave.
pub struct Attempt {
    pub size: (u32, u32),
    pub bytes: Seq<u8>,
}

/// Whether dimensions are those that follow an attempt that took too many bytes: what
/// `shrink` proposes, smaller than before on each axis that can be.
pub open spec fn shrinks_to<F: Fn(u32, u32, usize, usize) -> (u32, u32)>(
    shrink: F,
    last: Attempt,
    max_bytes: usize,
    next: (u32, u32),
) -> bool {
    exists|proposed: (u32, u32)|
        #[trigger] shrink.ensures(
            (last.size.0, last.size.1, last.bytes.len() as usize, max_bytes),
            proposed,
        ) && next == (shrunk(proposed.0, last.size.0), shrunk(proposed.1, last.size.1))
}

/// Whether attempts lead to some dimensions: the first is in the dimensions asked for, each
/// took too many bytes, and each is followed by smaller dimensions.
pub open spec fn comes_to<F: Fn(u32, u32, usize, usize) -> (u32, u32)>(
    tried: Seq<Attempt>,
    raw: Seq<u8>,
    original: (u32, u32),
    target: (u32, u32),
    options: ResolvedScreenshotPayloadOptions,
    shrink: F,
    size: (u32, u32),
) -> bool
    decreases tried.len(),
{
    if tried.len() == 0 {
        size == target
    } else {
        let last = tried.last();
        &&& comes_to(tried.drop_last(), raw, original, target, options, shrink, last.size)
        &&& encodes(last.bytes, raw, original, last.size, options)
        &&& last.bytes.len() > options.max_bytes
        &&& shrinks_to(shrink, last, options.max_bytes, size)
    }
}

/// A picture that fits at once is not shrunk: no attempts lead from the dimensions it is
/// asked for in to smaller ones.
pub proof fn what_fits_is_not_shrunk<F: Fn(u32, u32, usize, usize) -> (u32, u32)>(
    tried: Seq<Attempt>,
    raw: Seq<u8>,
    original: (u32, u32),
    target: (u32, u32),
    options: ResolvedScreenshotPayloadOptions,
    shrink: F,
    size: (u32, u32),
)
    requires
        comes_to(tried, raw, original, target, options, shrink, size),
        fits_at_once(raw, original, target, options),
    ensures
        tried.len() == 0,
        size == target,
    decreases tried.len(),
{
    if tried.len() > 0 {
        what_fits_is_not_shrunk(
            tried.drop_last(),
            raw,
            original,
            target,
            options,
            shrink,
            tried.last().size,
        );
    }
}

/// Whether an error is why a picture of one pixel was too large.
pub open spec fn pixel_too_large(
    error: CaptureError,
    raw: Seq<u8>,
    original: (u32, u32),
    size: (u32, u32),
    options: ResolvedScreenshotPayloadOptions,
) -> bool {
    size == (1u32, 1u32) && exists|bytes: Seq<u8>| #[trigger]
        encodes(bytes, raw, original, size, options) && bytes.len() > options.max_bytes
            && fails_with(error, payload_words(bytes.len() as int, options.max_bytes as int))
}

/// Whether an error is why a picture was given up: attempts led to dimensions it could not
/// be encoded in, or to one pixel that was too large.
pub open spec fn gives_up<F: Fn(u32, u32, usize, usize) -> (u32, u32)>(
    error: CaptureError,
    raw: Seq<u8>,
    original: (u32, u32),
    target: (u32, u32),
    options: ResolvedScreenshotPayloadOptions,
    shrink: F,
) -> bool {
    exists|tried: Seq<Attempt>, size: (u32, u32)| #[trigger]
        comes_to(tried, raw, original, target, options, shrink, size) && (cannot_encode(
            error,
            raw,
            original,
            size,
            options,
        ) || pixel_too_large(error, raw, original, size, options))
}

/// What is said of a payload that is too large at one pixel.
pub open spec fn payload_words(bytes: int, max_bytes: int) -> Seq<char> {
    "screenshot payload is "@ + decimal(bytes) + " bytes at 1x1, over max_bytes "@ + decimal(
        max_bytes,
    )
}

/// A picture in so many bytes at most, in the dimensions asked for or smaller ones: it is
/// tried in ever smaller dimensions, and the first file that fits is the answer. `original`
/// is the dimensions in the file's header. `shrink` proposes the next dimensions from the
/// last, the bytes they took, and the bytes there may be.
pub fn encode_screenshot_to_fit_bytes<F: Fn(u32, u32, usize, usize) -> (u32, u32)>(
    raw: &[u8],
    original: (u32, u32),
    target: (u32, u32),
    options: ResolvedScreenshotPayloadOptions,
    shrink: F,
) -> (r: Result<(Vec<u8>, u32, u32), CaptureError>)
    requires
        has_size(raw@, original.0, original.1),
        0 < target.0 <= original.0,
        0 < target.1 <= original.1,
        1 <= options.quality <= 100,
        forall|w: u32, h: u32, encoded: usize, cap: usize|
            #[trigger] shrink.requires((w, h, encoded, cap)),
    ensures
        match decoded_size(raw@) {
            Err(cause) => r is Err && fails_by(
                r->Err_0,
                "failed to decode screenshot PNG for encoding"@,
                cause,
            ),
            Ok(_) => match r {
                Ok((bytes, width, height)) => {
                    &&& bytes@.len() <= options.max_bytes
                    &&& 1 <= width <= target.0
                    &&& 1 <= height <= target.1
                    &&& encodes(bytes@, raw@, original, (width, height), options)
                    &&& exists|tried: Seq<Attempt>|
                        #[trigger] comes_to(
                            tried,
                            raw@,
                            original,
                            target,
                            options,
                            shrink,
                            (width, height),
                        )
                },
                Err(error) => {
                    &&& gives_up(error, raw@, original, target, options, shrink)
                    &&& !fits_at_once(raw@, original, target, options)
                },
            },
        },
{
    let decoded: (u32, u32) = match decode_size(raw) {
        Ok(decoded) => decoded,
        Err(cause) => return Err(
            CaptureError {
                message: "failed to decode screenshot PNG for encoding".to_owned(),
                cause: Some(cause),
            },
        ),
    };
    let mut size: (u32, u32) = target;
    let ghost mut tried: Seq<Attempt> = Seq::empty();
    loop
        invariant
            decoded_size(raw@) == Ok::<(u32, u32), Seq<char>>(decoded),
            target.0 <= decoded.0,
            target.1 <= decoded.1,
            1 <= size.0 <= target.0,
            1 <= size.1 <= target.1,
            1 <= options.quality <= 100,
            comes_to(tried, raw@, original, target, options, shrink, size),
            forall|w: u32, h: u32, encoded: usize, cap: usize|
                #[trigger] shrink.requires((w, h, encoded, cap)),
        decreases size.0 + size.1,
    {
        proof {
            if fits_at_once(raw@, original, target, options) {
                what_fits_is_not_shrunk(tried, raw@, original, target, options, shrink, size);
            }
        }
        let bytes = match encode_image(raw, original, size, options) {
            Ok(bytes) => bytes,
            Err(error) => return Err(error),
        };
        match fit_step(bytes.len(), options.max_bytes, size) {
            FitStep::Fits => return Ok((bytes, size.0, size.1)),
            FitStep::TooLarge => {
                let mut message = cat("screenshot payload is ", &decimal_of(bytes.len() as u64));
                message.append(" bytes at 1x1, over max_bytes ");
                message.append(&decimal_of(options.max_bytes as u64));
                let error = CaptureError { message, cause: None };
                assert(fails_with(
                    error,
                    payload_words(bytes@.len() as int, options.max_bytes as int),
                ));
                return Err(error);
            },
            FitStep::Shrink => {},
        }
        let (width, height): (u32, u32) = shrink(size.0, size.1, bytes.len(), options.max_bytes);
        let next: (u32, u32) = (
            next_dimension_for_byte_cap(width, size.0),
            next_dimension_for_byte_cap(height, size.1),
        );
        proof {
            let last = Attempt { size, bytes: bytes@ };
            assert(shrinks_to(shrink, last, options.max_bytes, next));
            assert(tried.push(last).drop_last() =~= tried);
            tried = tried.push(last);
        }
        size = next;
    }
}

/// A digit of base64.
pub open spec fn base64_digit(n: int) -> char {
    if n < 26 {
        ('A' as int + n) as char
    } else if n < 52 {
        ('a' as int + (n - 26)) as char
    } else if n < 62 {
        ('0' as int + (n - 52)) as char
    } else if n == 62 {
        '+'
    } else {
        '/'
    }
}

/// Bytes in base64: four digits for every three bytes, six bits each, the most significant
/// first, and `=` where the last three are not full.
pub open spec fn base64_text(bytes: Seq<u8>) -> Seq<char>
    decreases bytes.len(),
{
    let a = bytes[0] as int;
    let b = bytes[1] as int;
    let c = bytes[2] as int;
    if bytes.len() == 0 {
        seq![]
    } else if bytes.len() == 1 {
        seq![base64_digit(a / 4), base64_digit(a % 4 * 16), '=', '=']
    } else if bytes.len() == 2 {
        seq![base64_digit(a / 4), base64_digit(a % 4 * 16 + b / 16), base64_digit(b % 16 * 4), '=']
    } else {
        seq![
            base64_digit(a / 4),
            base64_digit(a % 4 * 16 + b / 16),
            base64_digit(b % 16 * 4 + c / 64),
            base64_digit(c % 64),
        ] + base64_text(bytes.skip(3))
    }
}

/// `base64::Engine::encode` of the `STANDARD` engine: the bytes in the standard alphabet,
/// padded.
#[verifier::external_body]
fn base64_of(bytes: &[u8]) -> (r: String)
    requires
        bytes@.len() <= 0x4000_0000,
    ensures
        r@ == base64_text(bytes@),
{
    base64::engine::general_purpose::STANDARD.encode(bytes)
}

/// A `data:` URL with a picture in it.
pub open spec fn data_url_of(format: ScreenshotOutputFormat, bytes: Seq<u8>) -> Seq<char> {
    "data:"@ + format.media_type() + ";base64,"@ + base64_text(bytes)
}

/// Whether a capture is returned as it was taken: as a PNG file, in its own dimensions, and
/// small enough.
pub open spec fn returned_as_is(
    raw: Seq<u8>,
    size: (u32, u32),
    target: (u32, u32),
    options: ResolvedScreenshotPayloadOptions,
) -> bool {
    options.format is Png && target == size && raw.len() <= options.max_bytes
}

/// Whether a capture is the payload of a picture.
pub open spec fn is_payload(
    capture: ScreenshotCapture,
    raw: RawScreenshotCapture,
    bytes: Seq<u8>,
    options: ResolvedScreenshotPayloadOptions,
) -> bool {
    &&& has_size(raw.bytes@, capture.coordinate_width, capture.coordinate_height)
    &&& capture.mime_type@ == options.format.media_type()
    &&& capture.data_url@ == data_url_of(options.format, bytes)
    &&& capture.source == raw.source
    &&& capture.resized == ((capture.width, capture.height) != (
        capture.coordinate_width,
        capture.coordinate_height,
    ))
    &&& capture.bytes == bytes.len()
    &&& capture.original_bytes == raw.bytes@.len()
    &&& capture.max_bytes == options.max_bytes
    &&& capture.format == options.format
    &&& capture.quality == if options.format is Jpeg {
        Some(options.quality)
    } else {
        None
    }
    &&& capture.bytes <= capture.max_bytes
    &&& 1 <= capture.width <= capture.coordinate_width
    &&& 1 <= capture.height <= capture.coordinate_height
    &&& encodes(
        bytes,
        raw.bytes@,
        (capture.coordinate_width, capture.coordinate_height),
        (capture.width, capture.height),
        options,
    )
}

/// The dimensions a picture is first tried in, by what is proposed for them: none is larger
/// than the picture's own, nor than the largest allowed.
pub open spec fn aimed(
    proposed: (u32, u32),
    size: (u32, u32),
    options: ResolvedScreenshotPayloadOptions,
) -> (u32, u32) {
    (
        scaled(proposed.0, smaller(size.0, options.max_width)),
        scaled(proposed.1, smaller(size.1, options.max_height)),
    )
}

/// The smaller of two dimensions.
pub open spec fn smaller(a: u32, b: u32) -> u32 {
    if a <= b {
        a
    } else {
        b
    }
}

fn smaller_of(a: u32, b: u32) -> (r: u32)
    ensures
        r == smaller(a, b),
{
    if a <= b {
        a
    } else {
        b
    }
}

/// Whether an answer is the payload of a picture within the bounds asked for, or why there
/// is none. `scale` proposes the dimensions it is first tried in, and `shrink` those that
/// follow dimensions which took too many bytes.
pub open spec fn prepares<
    S: Fn(u32, u32, u32, u32) -> (u32, u32),
    F: Fn(u32, u32, usize, usize) -> (u32, u32),
>(
    raw: RawScreenshotCapture,
    options: ScreenshotPayloadOptions,
    scale: S,
    shrink: F,
    r: Result<ScreenshotCapture, CaptureError>,
) -> bool {
    let resolved = options.resolved();
    if raw.bytes@.len() == 0 {
        r is Err && fails_with(r->Err_0, "screenshot file was empty"@)
    } else {
        match header_size(raw.bytes@) {
            Err(message) => r is Err && fails_with(r->Err_0, message),
            Ok(size) => exists|proposed: (u32, u32)|
                #[trigger] scale.ensures(
                    (size.0, size.1, resolved.max_width, resolved.max_height),
                    proposed,
                ) && fits_in(raw, size, aimed(proposed, size, resolved), resolved, shrink, r),
        }
    }
}

/// Whether an answer is the payload of a picture that is first tried in some dimensions: a
/// picture that needs no change is returned as it is, one that cannot be decoded is
/// refused, and else it is returned in the first dimensions it fits in.
pub open spec fn fits_in<F: Fn(u32, u32, usize, usize) -> (u32, u32)>(
    raw: RawScreenshotCapture,
    size: (u32, u32),
    target: (u32, u32),
    resolved: ResolvedScreenshotPayloadOptions,
    shrink: F,
    r: Result<ScreenshotCapture, CaptureError>,
) -> bool {
    &&& r is Ok ==> r->Ok_0.width <= target.0 && r->Ok_0.height <= target.1 && exists|
        bytes: Seq<u8>,
    | #[trigger]
        is_payload(r->Ok_0, raw, bytes, resolved)
    &&& if returned_as_is(raw.bytes@, size, target, resolved) {
        r is Ok && (r->Ok_0.width, r->Ok_0.height) == size
    } else {
        match decoded_size(raw.bytes@) {
            Err(cause) => r is Err && fails_by(
                r->Err_0,
                "failed to decode screenshot PNG for encoding"@,
                cause,
            ),
            Ok(_) => match r {
                Ok(capture) => exists|tried: Seq<Attempt>|
                    #[trigger] comes_to(
                        tried,
                        raw.bytes@,
                        size,
                        target,
                        resolved,
                        shrink,
                        (capture.width, capture.height),
                    ),
                Err(error) => {
                    &&& gives_up(error, raw.bytes@, size, target, resolved, shrink)
                    &&& !fits_at_once(raw.bytes@, size, target, resolved)
                },
            },
        }
    }
}

/// A capture as it is returned: within the dimensions and the bytes asked for. `scale`
/// proposes the dimensions of a picture of some dimensions within the largest allowed, and
/// `shrink` those that follow dimensions which took too many bytes.
pub fn prepare_screenshot_payload<
    S: Fn(u32, u32, u32, u32) -> (u32, u32),
    F: Fn(u32, u32, usize, usize) -> (u32, u32),
>(
    raw: RawScreenshotCapture,
    options: ScreenshotPayloadOptions,
    scale: S,
    shrink: F,
) -> (r: Result<ScreenshotCapture, CaptureError>)
    requires
        forall|w: u32, h: u32, max_w: u32, max_h: u32|
            #[trigger] scale.requires((w, h, max_w, max_h)),
        forall|w: u32, h: u32, encoded: usize, cap: usize|
            #[trigger] shrink.requires((w, h, encoded, cap)),
    ensures
        prepares(raw, options, scale, shrink, r),
        r is Ok ==> 1 <= r->Ok_0.width <= options.resolved().max_width,
        r is Ok ==> 1 <= r->Ok_0.height <= options.resolved().max_height,
{
    if raw.bytes.len() == 0 {
        return Err(
            CaptureError { message: "screenshot file was empty".to_owned(), cause: None },
        );
    }
    let size: (u32, u32) = match png_dimensions(&raw.bytes) {
        Ok(size) => size,
        Err(message) => return Err(CaptureError { message, cause: None }),
    };
    let original_bytes: usize = raw.bytes.len();
    let resolved = options.resolve();
    let proposed: (u32, u32) = scale(size.0, size.1, resolved.max_width, resolved.max_height);
    let target: (u32, u32) = (
        scaled_of(proposed.0, smaller_of(size.0, resolved.max_width)),
        scaled_of(proposed.1, smaller_of(size.1, resolved.max_height)),
    );
    let ghost given = raw;
    let as_is = match resolved.format {
        ScreenshotOutputFormat::Png => target.0 == size.0 && target.1 == size.1 && original_bytes
            <= resolved.max_bytes,
        ScreenshotOutputFormat::Jpeg => false,
    };
    let (bytes, width, height) = if as_is {
        (raw.bytes, size.0, size.1)
    } else {
        match encode_screenshot_to_fit_bytes(&raw.bytes, size, target, resolved, shrink) {
            Ok(fitted) => fitted,
            Err(error) => return Err(error),
        }
    };
    let mut data_url = cat("data:", resolved.format.mime_type());
    data_url.append(";base64,");
    data_url.append(&base64_of(&bytes));
    let quality: Option<u8> = match resolved.format {
        ScreenshotOutputFormat::Jpeg => Some(resolved.quality),
        ScreenshotOutputFormat::Png => None,
    };
    let capture = ScreenshotCapture {
        mime_type: resolved.format.mime_type().to_owned(),
        data_url,
        source: raw.source,
        width,
        height,
        coordinate_width: size.0,
        coordinate_height: size.1,
        resized: width != size.0 || height != size.1,
        bytes: bytes.len(),
        original_bytes,
        max_bytes: resolved.max_bytes,
        format: resolved.format,
        quality,
    };
    assert(is_payload(capture, given, bytes@, resolved));
    Ok(capture)
}

/// Return the base64 payload of a `data:` URL (or the original string if bare).
pub open spec fn payload_of(data_url: Seq<char>) -> Seq<char> {
    if data_url.contains(',') {
        data_url.skip(data_url.index_of_first(',')->0 + 1)
    } else {
        data_url
    }
}

/// Return the base64 payload of a `data:` URL (or the original string if bare).
pub fn data_url_payload(data_url: &str) -> (r: String)
    ensures
        r@ == payload_of(data_url@),
{
    let chars = chars_of(data_url);
    for i in 0..chars.len()
        invariant
            chars@ == data_url@,
            forall|k: int| 0 <= k < i ==> data_url@[k] != ',',
    {
        if chars[i] == ',' {
            proof {
                data_url@.index_of_first_ensures(',');
                assert(data_url@.index_of_first(',') == Some(i as int));
                assert(chars@.subrange(i + 1, chars@.len() as int) =~= data_url@.skip(i + 1));
            }
            return string_of(&chars, i + 1, chars.len());
        }
    }
    data_url.to_owned()
}

/// What is cut off a `data:` URL of a payload is what stood before the picture: the base64
/// text of its bytes is read back whole.
pub proof fn a_payload_reads_back(format: ScreenshotOutputFormat, bytes: Seq<u8>)
    ensures
        payload_of(data_url_of(format, bytes)) == base64_text(bytes),
{
    reveal_strlit("data:");
    reveal_strlit(";base64,");
    reveal_strlit("image/png");
    reveal_strlit("image/jpeg");
    let url = data_url_of(format, bytes);
    let opening = "data:"@ + format.media_type() + ";base64,"@;
    assert(url =~= opening + base64_text(bytes));
    let at = opening.len() - 1;
    assert(url[at] == ',');
    assert(url.contains(','));
    url.index_of_first_ensures(',');
    assert forall|k: int| 0 <= k < at implies url[k] != ',' by {
        assert(url[k] == opening[k]);
    }
    assert(url.index_of_first(',') == Some(at));
    assert(url.skip(at + 1) =~= base64_text(bytes));
}

/// The value of a hexadecimal digit.
pub open spec fn hex_digit(b: u8) -> Option<int> {
    if 0x30 <= b <= 0x39 {
        Some(b - 0x30)
    } else if 0x41 <= b <= 0x46 {
        Some(b - 0x41 + 10)
    } else if 0x61 <= b <= 0x66 {
        Some(b - 0x61 + 10)
    } else {
        None
    }
}

/// The byte that two characters name: two hexadecimal digits, or one behind a plus sign.
pub open spec fn escaped_byte(a: u8, b: u8) -> Option<u8> {
    match (hex_digit(a), hex_digit(b)) {
        (Some(high), Some(low)) => Some((high * 16 + low) as u8),
        (None, Some(low)) => if a == 0x2b {
            Some(low as u8)
        } else {
            None
        },
        _ => None,
    }
}

/// Bytes with their percent escapes read.
pub open spec fn unescaped(bytes: Seq<u8>) -> Seq<u8>
    decreases bytes.len(),
{
    if bytes.len() == 0 {
        seq![]
    } else if bytes[0] == 0x25 && bytes.len() > 2 && escaped_byte(bytes[1], bytes[2]) is Some {
        seq![escaped_byte(bytes[1], bytes[2])->0] + unescaped(bytes.skip(3))
    } else {
        seq![bytes[0]] + unescaped(bytes.skip(1))
    }
}

fn hex_digit_of(b: u8) -> (r: Option<u8>)
    ensures
        match r {
            Some(n) => hex_digit(b) == Some(n as int) && n < 16,
            None => hex_digit(b) is None,
        },
{
    if 0x30 <= b && b <= 0x39 {
        Some(b - 0x30)
    } else if 0x41 <= b && b <= 0x46 {
        Some(b - 0x41 + 10)
    } else if 0x61 <= b && b <= 0x66 {
        Some(b - 0x61 + 10)
    } else {
        None
    }
}

fn escaped_byte_of(a: u8, b: u8) -> (r: Option<u8>)
    ensures
        r == escaped_byte(a, b),
{
    match (hex_digit_of(a), hex_digit_of(b)) {
        (Some(high), Some(low)) => Some(high * 16 + low),
        (None, Some(low)) => if a == 0x2b {
            Some(low)
        } else {
            None
        },
        _ => None,
    }
}

/// A text with its percent escapes read, as UTF-8.
pub fn percent_decode(value: &str) -> (r: String)
    ensures
        r@ == lossy_text(unescaped(encode_utf8(value@))),
        valid_utf8(unescaped(encode_utf8(value@))) ==> r@ == decode_utf8(
            unescaped(encode_utf8(value@)),
        ),
{
    let bytes = value.as_bytes();
    let ghost all = bytes@;
    let mut decoded: Vec<u8> = Vec::new();
    let mut index: usize = 0;
    assert(all.skip(0) =~= all);
    assert(decoded@ + unescaped(all) =~= unescaped(all));
    while index < bytes.len()
        invariant
            bytes@ == all,
            index <= all.len(),
            unescaped(all) == decoded@ + unescaped(all.skip(index as int)),
        decreases all.len() - index,
    {
        let ghost rest = all.skip(index as int);
        let ghost before = decoded@;
        if bytes[index] == 0x25 && bytes.len() - index > 2 {
            if let Some(byte) = escaped_byte_of(bytes[index + 1], bytes[index + 2]) {
                decoded.push(byte);
                proof {
                    assert(rest[1] == all[index + 1] && rest[2] == all[index + 2]);
                    assert(rest.skip(3) =~= all.skip(index + 3));
                    assert(before + (seq![byte] + unescaped(rest.skip(3))) =~= decoded@ + unescaped(
                        all.skip(index + 3),
                    ));
                }
                index = index + 3;
                continue;
            }
        }
        decoded.push(bytes[index]);
        proof {
            if rest.len() > 2 {
                assert(rest[1] == all[index + 1] && rest[2] == all[index + 2]);
            }
            assert(rest.skip(1) =~= all.skip(index + 1));
            assert(before + (seq![rest[0]] + unescaped(rest.skip(1))) =~= decoded@ + unescaped(
                all.skip(index + 1),
            ));
        }
        index = index + 1;
    }
    assert(unescaped(all.skip(index as int)) =~= seq![]);
    assert(decoded@ + seq![] =~= decoded@);
    lossy(&decoded)
}

/// Whether an answer is the path a `file:` URI names, or that it is another URI.
pub open spec fn names_path(uri: Seq<char>, r: Result<String, String>) -> bool {
    if starts_with(uri, "file://"@) {
        let rest = uri.skip("file://"@.len() as int);
        &&& r is Ok
        &&& r->Ok_0@ == lossy_text(unescaped(encode_utf8(rest)))
        &&& valid_utf8(unescaped(encode_utf8(rest))) ==> r->Ok_0@ == decode_utf8(
            unescaped(encode_utf8(rest)),
        )
    } else {
        r is Err && r->Err_0@ == "unsupported screenshot uri: "@ + uri
    }
}

/// The path a `file:` URI names.
pub fn file_uri_to_path(uri: &str) -> (r: Result<String, String>)
    ensures
        names_path(uri@, r),
{
    match after_prefix(uri, "file://") {
        Some(rest) => Ok(percent_decode(&rest)),
        None => Err(cat("unsupported screenshot uri: ", uri)),
    }
}

/// The path of the screenshot in a portal's response, or why there is none: the portal
/// answers with a code that is not zero where it was denied or cancelled.
pub fn portal_screenshot_path(response_code: u32, uri: Option<&str>) -> (r: Result<String, String>)
    ensures
        if response_code != 0 {
            r is Err && r->Err_0@
                == "XDG portal screenshot was denied or cancelled with response code "@ + decimal(
                response_code as int,
            )
        } else {
            match uri {
                None => r is Err && r->Err_0@
                    == "XDG portal screenshot response did not include a uri"@,
                Some(uri) => names_path(uri@, r),
            }
        },
{
    if response_code != 0 {
        return Err(
            cat(
                "XDG portal screenshot was denied or cancelled with response code ",
                &decimal_of(response_code as u64),
            ),
        );
    }
    match uri {
        None => Err("XDG portal screenshot response did not include a uri".to_owned()),
        Some(uri) => file_uri_to_path(uri),
    }
}

proof fn nothing_to_unescape(bytes: Seq<u8>)
    requires
        forall|i: int| 0 <= i < bytes.len() ==> bytes[i] != 0x25,
    ensures
        unescaped(bytes) == bytes,
    decreases bytes.len(),
{
    if bytes.len() > 0 {
        nothing_to_unescape(bytes.skip(1));
        assert(seq![bytes[0]] + bytes.skip(1) =~= bytes);
    }
}

/// A path without a percent sign stands in its URI as it is.
pub proof fn a_plain_path_reads_back(path: Seq<char>)
    requires
        forall|i: int| 0 <= i < encode_utf8(path).len() ==> encode_utf8(path)[i] != 0x25,
    ensures
        unescaped(encode_utf8(path)) == encode_utf8(path),
        valid_utf8(unescaped(encode_utf8(path))),
        decode_utf8(unescaped(encode_utf8(path))) == path,
{
    nothing_to_unescape(encode_utf8(path));
    vstd::utf8::encode_utf8_valid_utf8(path);
    vstd::utf8::encode_utf8_decode_utf8(path);
}

/// A token for a portal request.
pub open spec fn token(pid: int, nanos: int) -> Seq<char> {
    "computer_use_hyprland_"@ + decimal(pid) + "_"@ + decimal(nanos)
}

/// A token for a portal request, from the process and the time.
pub fn request_token(pid: u32, nanos: u128) -> (r: String)
    ensures
        r@ == token(pid as int, nanos as int),
{
    let mut token = cat("computer_use_hyprland_", &decimal_of(pid as u64));
    token.append("_");
    token.append(&wide_decimal_of(nanos));
    token
}

/// Whether a portal takes a character in a token: a letter, a digit, or an underscore.
pub open spec fn is_portal_safe(c: char) -> bool {
    'a' <= c <= 'z' || 'A' <= c <= 'Z' || '0' <= c <= '9' || c == '_'
}

/// A token is one that portals take.
pub proof fn tokens_are_portal_safe(pid: u32, nanos: u128)
    ensures
        forall|i: int| 0 <= i < token(pid as int, nanos as int).len() ==> is_portal_safe(
            #[trigger] token(pid as int, nanos as int)[i],
        ),
{
    reveal_strlit("computer_use_hyprland_");
    reveal_strlit("_");
    crate::numerals::digits_have_no_space_or_letter(pid as int);
    crate::numerals::digits_have_no_space_or_letter(nanos as int);
}

/// What is asked of a payload holds where it is within the bounds, and what is not asked is
/// the default: 1920 pixels a side, two mebibytes, PNG, and a quality of 80.
pub proof fn a_payload_is_as_asked_within_the_bounds(options: ScreenshotPayloadOptions)
    ensures
        options.max_width is None ==> options.resolved().max_width == 1920,
        options.max_height is None ==> options.resolved().max_height == 1920,
        options.max_bytes is None ==> options.resolved().max_bytes == 2 * 1024 * 1024,
        options.quality is None ==> options.resolved().quality == 80,
        options.format is None ==> options.resolved().format is Png,
        options.max_width is Some && 1 <= options.max_width->0 <= 4096
            ==> options.resolved().max_width == options.max_width->0,
        options.max_height is Some && 1 <= options.max_height->0 <= 4096
            ==> options.resolved().max_height == options.max_height->0,
        options.max_bytes is Some && 1024 <= options.max_bytes->0 <= 4 * 1024 * 1024
            ==> options.resolved().max_bytes == options.max_bytes->0,
        options.quality is Some && 1 <= options.quality->0 <= 95 ==> options.resolved().quality
            == options.quality->0,
        options.format is Some ==> options.resolved().format == options.format->0,
        1 <= options.resolved().max_width <= 4096,
        1 <= options.resolved().max_height <= 4096,
        1024 <= options.resolved().max_bytes <= 4 * 1024 * 1024,
        1 <= options.resolved().quality <= 95,
{
}

/// A PNG file begins with its signature, and its header chunk holds the width and then the
/// height, each in four bytes, the most significant first.
pub proof fn a_header_holds_width_and_height(bytes: Seq<u8>, width: u32, height: u32)
    requires
        has_size(bytes, width, height),
    ensures
        bytes.len() >= 24,
        bytes[0] == 0x89 && bytes[1] == 0x50 && bytes[2] == 0x4e && bytes[3] == 0x47,
        bytes[4] == 0x0d && bytes[5] == 0x0a && bytes[6] == 0x1a && bytes[7] == 0x0a,
        bytes[12] == 0x49 && bytes[13] == 0x48 && bytes[14] == 0x44 && bytes[15] == 0x52,
        width > 0 && height > 0,
        width == bytes[16] * 0x100_0000 + bytes[17] * 0x1_0000 + bytes[18] * 0x100 + bytes[19],
        height == bytes[20] * 0x100_0000 + bytes[21] * 0x1_0000 + bytes[22] * 0x100 + bytes[23],
{
    let start = bytes.take(8);
    let chunk = bytes.subrange(12, 16);
    assert(start[0] == bytes[0] && start[1] == bytes[1] && start[2] == bytes[2] && start[3]
        == bytes[3] && start[4] == bytes[4] && start[5] == bytes[5] && start[6] == bytes[6]
        && start[7] == bytes[7]);
    assert(chunk[0] == bytes[12] && chunk[1] == bytes[13] && chunk[2] == bytes[14] && chunk[3]
        == bytes[15]);
}

/// A part that is cut out of a picture is the pixels of the rectangle that are in the picture,
/// to the right of the corner and below it.
pub proof fn a_part_is_what_the_rectangle_and_the_picture_share(
    bytes: Seq<u8>,
    x: i32,
    y: i32,
    w: u32,
    h: u32,
    size: (u32, u32),
)
    requires
        decoded_size(bytes) == Ok::<(u32, u32), Seq<char>>(size),
        part_of(bytes, x, y, w, h) is Ok,
        x >= 0,
        y >= 0,
    ensures
        ({
            let (part, width, height) = part_of(bytes, x, y, w, h)->Ok_0;
            &&& x < size.0 && y < size.1
            &&& x + w <= size.0 ==> width == w
            &&& x + w > size.0 ==> x + width == size.0
            &&& y + h <= size.1 ==> height == h
            &&& y + h > size.1 ==> y + height == size.1
            &&& cropped_png(bytes, x as u32, y as u32, width, height) == Ok::<Seq<u8>, Seq<char>>(
                part,
            )
        }),
{
}

/// A payload tells of the picture it is: the dimensions of the capture are those coordinates
/// count in, its own are no larger, it counts as resized exactly where they differ, and it is
/// no larger than it may be.
pub proof fn a_payload_tells_of_its_picture(
    capture: ScreenshotCapture,
    raw: RawScreenshotCapture,
    bytes: Seq<u8>,
    options: ResolvedScreenshotPayloadOptions,
)
    requires
        is_payload(capture, raw, bytes, options),
    ensures
        has_size(raw.bytes@, capture.coordinate_width, capture.coordinate_height),
        1 <= capture.width <= capture.coordinate_width,
        1 <= capture.height <= capture.coordinate_height,
        capture.resized <==> capture.width != capture.coordinate_width || capture.height
            != capture.coordinate_height,
        capture.bytes == bytes.len() && bytes.len() <= options.max_bytes,
        capture.original_bytes == raw.bytes@.len(),
        capture.source@ == raw.source@,
        options.format is Png ==> capture.mime_type@ == "image/png"@ && capture.quality is None
            && capture.data_url@ == "data:"@ + "image/png"@ + ";base64,"@ + base64_text(bytes),
        options.format is Jpeg ==> capture.mime_type@ == "image/jpeg"@ && capture.quality == Some(
            options.quality,
        ) && capture.data_url@ == "data:"@ + "image/jpeg"@ + ";base64,"@ + base64_text(bytes),
        options.format is Png && !capture.resized ==> bytes == raw.bytes@,
        options.format is Jpeg && !capture.resized ==> jpeg_of(raw.bytes@, options.quality) == Ok::<
            Seq<u8>,
            Seq<char>,
        >(bytes),
        options.format is Png && capture.resized ==> has_size(bytes, capture.width, capture.height)
            && is_resized(raw.bytes@, capture.width, capture.height, bytes),
{
}

/// The dimensions a picture is first tried in are those proposed, brought within its own and
/// the largest allowed; and each that follows is smaller, down to a pixel.
pub proof fn a_picture_is_never_made_larger(
    proposed: (u32, u32),
    size: (u32, u32),
    options: ResolvedScreenshotPayloadOptions,
)
    requires
        size.0 > 0 && size.1 > 0,
        options.max_width > 0 && options.max_height > 0,
    ensures
        1 <= aimed(proposed, size, options).0 <= size.0,
        1 <= aimed(proposed, size, options).1 <= size.1,
        aimed(proposed, size, options).0 <= options.max_width,
        aimed(proposed, size, options).1 <= options.max_height,
        1 <= proposed.0 <= size.0 && proposed.0 <= options.max_width ==> aimed(
            proposed,
            size,
            options,
        ).0 == proposed.0,
        1 <= proposed.1 <= size.1 && proposed.1 <= options.max_height ==> aimed(
            proposed,
            size,
            options,
        ).1 == proposed.1,
        size.0 > 1 ==> 1 <= shrunk(proposed.0, size.0) < size.0,
        1 <= proposed.0 < size.0 ==> shrunk(proposed.0, size.0) == proposed.0,
        size.0 == 1 ==> shrunk(proposed.0, size.0) == 1,
{
}

/// A percent sign and two hexadecimal digits, in either letter case, stand for the byte they
/// write, and another byte for itself.
pub proof fn an_escape_stands_for_the_byte_it_writes(n: u8, rest: Seq<u8>, plain: u8)
    requires
        plain != 0x25,
    ensures
        ({
            let high = digit_char(n as int / 16) as u8;
            let low = digit_char(n as int % 16) as u8;
            &&& hex_digit(high) == Some(n as int / 16)
            &&& hex_digit(low) == Some(n as int % 16)
            &&& unescaped(seq![0x25u8, high, low] + rest) == seq![n] + unescaped(rest)
        }),
        unescaped(seq![plain] + rest) == seq![plain] + unescaped(rest),
        unescaped(Seq::empty()).len() == 0,
        hex_digit(0x41) == Some(10int) && hex_digit(0x46) == Some(15int),
{
    let high = digit_char(n as int / 16) as u8;
    let low = digit_char(n as int % 16) as u8;
    let escaped = seq![0x25u8, high, low] + rest;
    assert(escaped.skip(3) =~= rest);
    assert(escaped[0] == 0x25 && escaped[1] == high && escaped[2] == low);
    assert((n as int / 16) * 16 + n as int % 16 == n);
    let other = seq![plain] + rest;
    assert(other.skip(1) =~= rest);
    assert(other[0] == plain);
}

} // verus!
