//! The raw and image proxies: what is answered for what the remote server sent.
use vstd::prelude::*;

use image::{DynamicImage, ImageEncoder};

use crate::error::AppError;
use crate::reply::{byte_header, header_str, header_text, text_header,
    HttpReply};
use crate::text::{decimal, decimal_string, difference_string, signed_decimal};

verus! {

broadcast use vstd::string::group_string_axioms;

/// The query of the raw proxy.
pub struct ProxyParams {
    pub url: String,
}

/// The query of the image proxy: the image's address and the width wanted.
pub struct ProxyImgParams {
    pub url: String,
    pub w: Option<u32>,
}

/// A decoded image, from the `image` crate.
#[verifier::external_type_specification]
#[verifier::external_body]
pub struct ExDynamicImage(DynamicImage);

/// The filters that the `image` crate resizes with (`imageops::FilterType`).
pub enum ResizeFilter {
    Nearest,
    Triangle,
    CatmullRom,
    Gaussian,
    Lanczos3,
}

/// The filter an image is scaled with.
pub const RESIZE_FILTER: ResizeFilter = ResizeFilter::Lanczos3;

/// The AVIF encoder's speed, from 1 (slowest) to 10.
pub const AVIF_SPEED: u8 = 7;

/// The AVIF encoder's quality, from 1 (worst) to 100.
pub const AVIF_QUALITY: u8 = 55;

// ---------------------------------------------------------------------------
// Trusted access to the image crate
// ---------------------------------------------------------------------------

/// The image that `image::load_from_memory` decodes from `bytes`, or `None`
/// where decoding fails.
pub uninterp spec fn decoded_image(bytes: Seq<u8>) -> Option<DynamicImage>;

/// The width and height of an image (`DynamicImage::width`, `height`).
pub uninterp spec fn image_size(img: DynamicImage) -> (u32, u32);

/// An image scaled to exactly `width` x `height` with `filter`
/// (`DynamicImage::resize_exact`).
pub uninterp spec fn resized_image(img: DynamicImage, width: u32, height: u32, filter: ResizeFilter) -> DynamicImage;

/// The pixels of an image as 8-bit RGBA, row by row (`DynamicImage::to_rgba8`).
pub uninterp spec fn image_rgba(img: DynamicImage) -> Seq<u8>;

/// Whether `file` is what the `image` crate's AVIF encoder
/// (`AvifEncoder::new_with_speed_quality(.., speed, quality).write_image`) may
/// write for the RGBA pixels `rgba` of a `width` x `height` image. The encoder's
/// bytes depend on the machine (`ravif` picks its tile count from the number of
/// threads), so this relates a file to its input and settings; it names no one
/// file.
pub uninterp spec fn avif_encodes(
    file: Seq<u8>,
    rgba: Seq<u8>,
    width: u32,
    height: u32,
    speed: u8,
    quality: u8,
) -> bool;

/// The width and height that an AVIF file written by the `image` crate's AVIF
/// encoder states (the size that `ravif` hands to `avif_serialize`).
pub uninterp spec fn avif_stated_size(file: Seq<u8>) -> (u32, u32);

/// `image::load_from_memory`: decodes an image of any format the crate was built
/// with, or fails; the error is given by its message.
#[verifier::external_body]
fn decode_image(bytes: &[u8]) -> (r: Result<DynamicImage, String>)
    ensures
        r is Ok <==> decoded_image(bytes@) is Some,
        r matches Ok(img) ==> decoded_image(bytes@) == Some(img),
{
    image::load_from_memory(bytes).map_err(|error| error.to_string())
}

/// `DynamicImage::width`.
#[verifier::external_body]
fn image_width(img: &DynamicImage) -> (w: u32)
    ensures
        w == image_size(*img).0,
{
    img.width()
}

/// `DynamicImage::height`.
#[verifier::external_body]
fn image_height(img: &DynamicImage) -> (h: u32)
    ensures
        h == image_size(*img).1,
{
    img.height()
}

/// `DynamicImage::resize_exact`: the image scaled to exactly `width` x `height`
/// with `filter`.
#[verifier::external_body]
fn resize_image(img: &DynamicImage, width: u32, height: u32, filter: ResizeFilter) -> (out:
    DynamicImage)
    ensures
        out == resized_image(*img, width, height, filter),
        image_size(out) == (width, height),
{
    let filter = match filter {
        ResizeFilter::Nearest => image::imageops::FilterType::Nearest,
        ResizeFilter::Triangle => image::imageops::FilterType::Triangle,
        ResizeFilter::CatmullRom => image::imageops::FilterType::CatmullRom,
        ResizeFilter::Gaussian => image::imageops::FilterType::Gaussian,
        ResizeFilter::Lanczos3 => image::imageops::FilterType::Lanczos3,
    };
    img.resize_exact(width, height, filter)
}

/// `DynamicImage::to_rgba8`: the image's pixels as 8-bit RGBA, four bytes a
/// pixel, with the image's own width and height.
#[verifier::external_body]
fn rgba_pixels(img: &DynamicImage) -> (r: (Vec<u8>, u32, u32))
    ensures
        (r.1, r.2) == image_size(*img),
        r.0@ == image_rgba(*img),
        r.0@.len() == 4 * r.1 * r.2,
{
    let rgba = img.to_rgba8();
    let (width, height) = (rgba.width(), rgba.height());
    (rgba.into_raw(), width, height)
}

/// `AvifEncoder::new_with_speed_quality(.., speed, quality).write_image` on RGBA
/// pixels, which must fill `width` x `height` (it panics otherwise, as `ravif`
/// does outside the speed and quality ranges). The file states the size it was
/// given, and encodes the pixels at the given settings (`avif_encodes`); the
/// error is given by its message.
#[verifier::external_body]
fn encode_avif_rgba(pixels: &[u8], width: u32, height: u32, speed: u8, quality: u8) -> (r: Result<
    Vec<u8>,
    String,
>)
    requires
        pixels@.len() == 4 * width * height,
        1 <= speed <= 10,
        1 <= quality <= 100,
    ensures
        r matches Ok(file) ==> avif_stated_size(file@) == (width, height) && avif_encodes(
            file@,
            pixels@,
            width,
            height,
            speed,
            quality,
        ),
{
    let mut compressed = Vec::new();
    image::codecs::avif::AvifEncoder::new_with_speed_quality(&mut compressed, speed, quality)
        .write_image(pixels, width, height, image::ExtendedColorType::Rgba8)
        .map_err(|error| error.to_string())?;
    Ok(compressed)
}

// ---------------------------------------------------------------------------
// Specifications
// ---------------------------------------------------------------------------

/// Whether `s` begins with `prefix`.
pub open spec fn starts_with(s: Seq<char>, prefix: Seq<char>) -> bool {
    s.len() >= prefix.len() && s.subrange(0, prefix.len() as int) == prefix
}

/// The size an image of `width` x `height` is scaled to for a requested width:
/// only a width strictly between 0 and the image's own counts; the height keeps
/// the proportion, rounded down, at least 1.
pub open spec fn spec_resized_size(requested: Option<u32>, width: u32, height: u32) -> Option<
    (u32, u32),
> {
    match requested {
        Some(w) => if 0 < w && w < width {
            let h = (height as int * w as int) / (width as int);
            Some((w, if h < 1 { 1u32 } else { h as u32 }))
        } else {
            None
        },
        None => None,
    }
}

/// The size an image of `width` x `height` is encoded at for a requested width.
pub open spec fn spec_scaled_size(requested: Option<u32>, width: u32, height: u32) -> (u32, u32) {
    match spec_resized_size(requested, width, height) {
        Some(size) => size,
        None => (width, height),
    }
}

/// The image that is encoded for a requested width: scaled with `RESIZE_FILTER`
/// when `spec_resized_size` asks for it, as it is otherwise.
pub open spec fn spec_scaled_image(img: DynamicImage, requested: Option<u32>) -> DynamicImage {
    match spec_resized_size(requested, image_size(img).0, image_size(img).1) {
        Some(size) => resized_image(img, size.0, size.1, RESIZE_FILTER),
        None => img,
    }
}

/// The content type the image proxy reads: the header as text, empty when it is
/// missing or not visible ASCII.
pub open spec fn spec_mime(content_type: Option<Seq<u8>>) -> Seq<char> {
    match content_type {
        Some(v) => match header_text(v) {
            Some(t) => t,
            None => Seq::<char>::empty(),
        },
        None => Seq::<char>::empty(),
    }
}

/// The headers of a passed-through SVG image of `len` bytes.
pub open spec fn svg_headers(len: nat) -> Seq<(Seq<char>, Seq<u8>)> {
    seq![
        ("content-type"@, vstd::utf8::encode_utf8("image/svg+xml"@)),
        ("content-length"@, vstd::utf8::encode_utf8(decimal(len))),
    ]
}

/// The headers of an AVIF image of `len` bytes made from a source image of `source` bytes.
pub open spec fn avif_headers(source: nat, len: nat) -> Seq<(Seq<char>, Seq<u8>)> {
    seq![
        ("content-type"@, vstd::utf8::encode_utf8("image/avif"@)),
        ("x-image-format"@, vstd::utf8::encode_utf8("avif"@)),
        ("content-length"@, vstd::utf8::encode_utf8(decimal(len))),
        ("x-original-size"@, vstd::utf8::encode_utf8(decimal(source))),
        ("x-bytes-saved"@, vstd::utf8::encode_utf8(signed_decimal(source - len))),
    ]
}

/// The headers of the raw proxy: the remote content type, when there is one, and
/// the length.
pub open spec fn raw_headers(content_type: Option<Seq<u8>>, len: nat) -> Seq<(Seq<char>, Seq<u8>)> {
    let length = ("content-length"@, vstd::utf8::encode_utf8(decimal(len)));
    match content_type {
        Some(v) => seq![("content-type"@, v), length],
        None => seq![length],
    }
}

pub open spec fn bytes_view(o: Option<Vec<u8>>) -> Option<Seq<u8>> {
    match o {
        Some(v) => Some(v@),
        None => None,
    }
}

// ---------------------------------------------------------------------------
// Executable
// ---------------------------------------------------------------------------

/// Whether `s` begins with `prefix`.
pub fn has_prefix(s: &str, prefix: &str) -> (b: bool)
    ensures
        b == starts_with(s@, prefix@),
{
    let cs = crate::text::chars_of(s);
    let ps = crate::text::chars_of(prefix);
    if cs.len() < ps.len() {
        return false;
    }
    let n = ps.len();
    let mut i: usize = 0;
    while i < n
        invariant
            n == ps@.len(),
            n <= cs@.len(),
            cs@ == s@,
            ps@ == prefix@,
            i <= n,
            forall|j: int| 0 <= j < i ==> cs@[j] == ps@[j],
        decreases n - i,
    {
        if cs[i] != ps[i] {
            assert(s@.subrange(0, n as int)[i as int] != prefix@[i as int]);
            return false;
        }
        i = i + 1;
    }
    assert(s@.subrange(0, n as int) =~= prefix@);
    true
}

/// The size an image is scaled to for a requested width, if any.
pub fn resized_size(requested: Option<u32>, width: u32, height: u32) -> (r: Option<(u32, u32)>)
    ensures
        r == spec_resized_size(requested, width, height),
{
    match requested {
        Some(w) => if 0 < w && w < width {
            assert(height as int * w as int <= 0xffff_ffff * 0xffff_ffff) by (nonlinear_arith)
                requires
                    height <= 0xffff_ffff,
                    w <= 0xffff_ffff,
            ;
            let product: u64 = height as u64 * w as u64;
            let h: u64 = product / width as u64;
            assert(h <= height) by (nonlinear_arith)
                requires
                    h == (height as int * w as int) / (width as int),
                    w < width,
                    0 < w,
            {
                assert(height as int * w as int <= height as int * width as int);
                assert((height as int * w as int) / (width as int) <= (height as int * width as int)
                    / (width as int)) by {
                    vstd::arithmetic::div_mod::lemma_div_is_ordered(
                        height as int * w as int,
                        height as int * width as int,
                        width as int,
                    );
                }
                vstd::arithmetic::div_mod::lemma_div_by_multiple(height as int, width as int);
            }
            Some((w, if h < 1 { 1u32 } else { h as u32 }))
        } else {
            None
        },
        None => None,
    }
}

/// The answer of the raw proxy for a body and its content type.
pub fn proxy_reply(content_type: Option<Vec<u8>>, body: Vec<u8>) -> (reply: HttpReply)
    ensures
        reply.header_list() == raw_headers(bytes_view(content_type), body@.len()),
        reply.body@ == body@,
{
    let ghost ct = bytes_view(content_type);
    let mut headers: Vec<(String, Vec<u8>)> = Vec::new();
    match content_type {
        Some(v) => headers.push(byte_header("content-type", v)),
        None => {},
    }
    let length = decimal_string(body.len() as u64);
    headers.push(text_header("content-length", length.as_str()));
    let reply = HttpReply { headers, body };
    assert(reply.header_list() =~= raw_headers(ct, reply.body@.len()));
    reply
}

/// The answer for an SVG image, passed through.
pub fn svg_reply(body: Vec<u8>) -> (reply: HttpReply)
    ensures
        reply.header_list() == svg_headers(body@.len()),
        reply.body@ == body@,
{
    let mut headers: Vec<(String, Vec<u8>)> = Vec::new();
    headers.push(text_header("content-type", "image/svg+xml"));
    let length = decimal_string(body.len() as u64);
    headers.push(text_header("content-length", length.as_str()));
    let reply = HttpReply { headers, body };
    assert(reply.header_list() =~= svg_headers(reply.body@.len()));
    reply
}

/// The answer for an image re-encoded as AVIF from a source image of `source_len` bytes.
pub fn avif_reply(source_len: usize, compressed: Vec<u8>) -> (reply: HttpReply)
    ensures
        reply.header_list() == avif_headers(source_len as nat, compressed@.len()),
        reply.body@ == compressed@,
{
    let mut headers: Vec<(String, Vec<u8>)> = Vec::new();
    headers.push(text_header("content-type", "image/avif"));
    headers.push(text_header("x-image-format", "avif"));
    let length = decimal_string(compressed.len() as u64);
    headers.push(text_header("content-length", length.as_str()));
    let source = decimal_string(source_len as u64);
    headers.push(text_header("x-original-size", source.as_str()));
    let saved = difference_string(source_len, compressed.len());
    headers.push(text_header("x-bytes-saved", saved.as_str()));
    let reply = HttpReply { headers, body: compressed };
    assert(reply.header_list() =~= avif_headers(source_len as nat, reply.body@.len()));
    reply
}

/// The answer of the image proxy for what the remote server sent: an SVG image
/// passes through; any other image is decoded, scaled down to the requested
/// width (if smaller than its own), and re-encoded as AVIF.
pub fn image_reply(content_type: Option<Vec<u8>>, source: Vec<u8>, requested_width: Option<u32>) -> (r:
    Result<HttpReply, AppError>)
    ensures
        starts_with(spec_mime(bytes_view(content_type)), "image/svg"@) ==> (r matches Ok(reply)
            && reply.header_list() == svg_headers(source@.len()) && reply.body@ == source@),
        !starts_with(spec_mime(bytes_view(content_type)), "image/svg"@) ==> match r {
            Ok(reply) => reply.header_list() == avif_headers(source@.len(), reply.body@.len()),
            Err(e) => e is Upstream,
        },
        !starts_with(spec_mime(bytes_view(content_type)), "image/svg"@) && decoded_image(source@)
            is None ==> r matches Err(AppError::Upstream(_)),
        !starts_with(spec_mime(bytes_view(content_type)), "image/svg"@) ==> (r matches Ok(reply)
            ==> decoded_image(source@) matches Some(img) && avif_stated_size(reply.body@)
            == spec_scaled_size(requested_width, image_size(img).0, image_size(img).1)
            && avif_encodes(
            reply.body@,
            image_rgba(spec_scaled_image(img, requested_width)),
            spec_scaled_size(requested_width, image_size(img).0, image_size(img).1).0,
            spec_scaled_size(requested_width, image_size(img).0, image_size(img).1).1,
            AVIF_SPEED,
            AVIF_QUALITY,
        )),
{
    let mime = match &content_type {
        Some(v) => match header_str(v.as_slice()) {
            Some(t) => t,
            None => String::new(),
        },
        None => String::new(),
    };
    assert(mime@ == spec_mime(bytes_view(content_type)));
    if has_prefix(mime.as_str(), "image/svg") {
        return Ok(svg_reply(source));
    }
    let decoded = match decode_image(source.as_slice()) {
        Ok(img) => img,
        Err(m) => return Err(AppError::Upstream(m)),
    };
    let width = image_width(&decoded);
    let height = image_height(&decoded);
    let scaled = match resized_size(requested_width, width, height) {
        Some((w, h)) => resize_image(&decoded, w, h, RESIZE_FILTER),
        None => decoded,
    };
    let (pixels, w, h) = rgba_pixels(&scaled);
    let compressed = match encode_avif_rgba(pixels.as_slice(), w, h, AVIF_SPEED, AVIF_QUALITY) {
        Ok(bytes) => bytes,
        Err(m) => return Err(AppError::Upstream(m)),
    };
    Ok(avif_reply(source.len(), compressed))
}

} // verus!
