use std::io::Cursor;

use txtdot::error::AppError;
use txtdot::proxy::{avif_reply, has_prefix, image_reply, proxy_reply, resized_size, svg_reply};

fn header<'a>(headers: &'a [(String, Vec<u8>)], name: &str) -> Option<&'a [u8]> {
    headers.iter().find(|(n, _)| n == name).map(|(_, v)| v.as_slice())
}

fn png(width: u32, height: u32) -> Vec<u8> {
    let img = image::RgbaImage::from_pixel(width, height, image::Rgba([200, 30, 30, 255]));
    let mut out = Cursor::new(Vec::new());
    image::DynamicImage::ImageRgba8(img)
        .write_to(&mut out, image::ImageFormat::Png)
        .unwrap();
    out.into_inner()
}

#[test]
fn raw_proxy_headers() {
    let reply = proxy_reply(Some(b"text/css".to_vec()), b"body{}".to_vec());
    assert_eq!(reply.headers.len(), 2);
    assert_eq!(header(&reply.headers, "content-type"), Some(&b"text/css"[..]));
    assert_eq!(header(&reply.headers, "content-length"), Some(&b"6"[..]));
    assert_eq!(reply.body, b"body{}".to_vec());
    let reply = proxy_reply(None, vec![0; 1234]);
    assert_eq!(reply.headers.len(), 1);
    assert_eq!(header(&reply.headers, "content-length"), Some(&b"1234"[..]));
}

#[test]
fn svg_passes_through() {
    let svg = b"<svg xmlns='http://www.w3.org/2000/svg'/>".to_vec();
    let reply = image_reply(Some(b"image/svg+xml; charset=utf-8".to_vec()), svg.clone(), Some(10))
        .ok()
        .unwrap();
    assert_eq!(reply.body, svg);
    assert_eq!(header(&reply.headers, "content-type"), Some(&b"image/svg+xml"[..]));
    assert_eq!(header(&reply.headers, "content-length"), Some(svg.len().to_string().as_bytes()));
    assert_eq!(svg_reply(vec![1]).headers.len(), 2);
}

#[test]
fn images_become_avif() {
    let source = png(40, 20);
    let reply = image_reply(Some(b"image/png".to_vec()), source.clone(), Some(10))
        .ok()
        .unwrap();
    assert_eq!(header(&reply.headers, "content-type"), Some(&b"image/avif"[..]));
    assert_eq!(header(&reply.headers, "x-image-format"), Some(&b"avif"[..]));
    assert_eq!(
        header(&reply.headers, "content-length"),
        Some(reply.body.len().to_string().as_bytes())
    );
    assert_eq!(
        header(&reply.headers, "x-original-size"),
        Some(source.len().to_string().as_bytes())
    );
    let saved = source.len() as isize - reply.body.len() as isize;
    assert_eq!(header(&reply.headers, "x-bytes-saved"), Some(saved.to_string().as_bytes()));
    assert!(!reply.body.is_empty());
}

#[test]
fn undecodable_images_are_upstream_errors() {
    assert!(matches!(
        image_reply(None, b"not an image".to_vec(), None),
        Err(AppError::Upstream(_))
    ));
    assert!(matches!(
        image_reply(Some(vec![0xff, b'i']), b"still not".to_vec(), None),
        Err(AppError::Upstream(_))
    ));
}

#[test]
fn avif_headers_for_growth() {
    let reply = avif_reply(3, vec![0; 10]);
    assert_eq!(header(&reply.headers, "x-bytes-saved"), Some(&b"-7"[..]));
}

#[test]
fn resizing_only_shrinks() {
    assert_eq!(resized_size(Some(100), 400, 300), Some((100, 75)));
    assert_eq!(resized_size(Some(1), 1000, 10), Some((1, 1)));
    assert_eq!(resized_size(Some(400), 400, 300), None);
    assert_eq!(resized_size(Some(500), 400, 300), None);
    assert_eq!(resized_size(Some(0), 400, 300), None);
    assert_eq!(resized_size(None, 400, 300), None);
    assert_eq!(resized_size(Some(u32::MAX - 1), u32::MAX, u32::MAX), Some((u32::MAX - 1, u32::MAX - 1)));
}

#[test]
fn prefixes() {
    assert!(has_prefix("image/svg+xml", "image/svg"));
    assert!(!has_prefix("image/sv", "image/svg"));
    assert!(!has_prefix("text/svg", "image/svg"));
}

#[test]
fn avif_settings() {
    assert_eq!(txtdot::proxy::AVIF_SPEED, 7);
    assert_eq!(txtdot::proxy::AVIF_QUALITY, 55);
    assert!(matches!(txtdot::proxy::RESIZE_FILTER, txtdot::proxy::ResizeFilter::Lanczos3));
}
