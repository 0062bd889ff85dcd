//! The transcode pipeline against the real codecs.

use std::io::Cursor;

use image::{DynamicImage, ImageFormat, RgbImage, RgbaImage};

use imgproxy::errors::TranscodeError;
use imgproxy::format::Format;
use imgproxy::pipeline::{success_reply, transcode};

/// A deterministic test raster with visible structure.
fn gradient_rgb(width: u32, height: u32) -> RgbImage {
    RgbImage::from_fn(width, height, |x, y| {
        image::Rgb([(x % 256) as u8, (y % 256) as u8, ((x + y) % 256) as u8])
    })
}

fn encode(img: DynamicImage, format: ImageFormat) -> Vec<u8> {
    let mut out = Cursor::new(Vec::new());
    img.write_to(&mut out, format).expect("test image encodes");
    out.into_inner()
}

#[test]
fn jpeg_source_to_png_has_exact_dimensions() {
    // A 400x300 JPEG source, requested as /png/100/50/.
    let source = encode(DynamicImage::ImageRgb8(gradient_rgb(400, 300)), ImageFormat::Jpeg);
    let out = transcode(&source, Format::Jpeg, Format::Png, 100, 50).unwrap();

    assert_eq!(image::guess_format(&out).unwrap(), ImageFormat::Png);
    let decoded = image::load_from_memory(&out).unwrap();
    assert_eq!(decoded.width(), 100);
    assert_eq!(decoded.height(), 50);

    let reply = success_reply(Format::Png, out);
    assert_eq!(reply.status, 200);
    assert_eq!(reply.content_type, Some("image/png"));
}

#[test]
fn png_source_to_jpeg_has_exact_dimensions() {
    let source = encode(DynamicImage::ImageRgb8(gradient_rgb(60, 80)), ImageFormat::Png);
    let out = transcode(&source, Format::Png, Format::Jpeg, 10, 10).unwrap();

    assert_eq!(image::guess_format(&out).unwrap(), ImageFormat::Jpeg);
    let decoded = image::load_from_memory(&out).unwrap();
    assert_eq!(decoded.width(), 10);
    assert_eq!(decoded.height(), 10);

    let reply = success_reply(Format::Jpeg, out);
    assert_eq!(reply.content_type, Some("image/jpeg"));
}

#[test]
fn gif_source_decodes() {
    let source = encode(DynamicImage::ImageRgb8(gradient_rgb(32, 32)), ImageFormat::Gif);
    let out = transcode(&source, Format::Gif, Format::Png, 16, 16).unwrap();
    let decoded = image::load_from_memory(&out).unwrap();
    assert_eq!((decoded.width(), decoded.height()), (16, 16));
}

#[test]
fn upscaling_stretches_to_the_requested_size() {
    // Exact resize does not preserve aspect ratio: 20x20 grows to 200x40.
    let source = encode(DynamicImage::ImageRgb8(gradient_rgb(20, 20)), ImageFormat::Png);
    let out = transcode(&source, Format::Png, Format::Png, 200, 40).unwrap();
    let decoded = image::load_from_memory(&out).unwrap();
    assert_eq!((decoded.width(), decoded.height()), (200, 40));
}

#[test]
fn transcoding_changes_the_bytes() {
    // The pipeline must hand back a re-encoded image, not its input.
    let source = encode(DynamicImage::ImageRgb8(gradient_rgb(40, 40)), ImageFormat::Png);
    let out = transcode(&source, Format::Png, Format::Png, 12, 12).unwrap();
    assert_ne!(out, source);
}

#[test]
fn nearest_neighbor_resampling_is_used() {
    // A half-red, half-blue 2x1 PNG scaled to 10x10 by nearest neighbor
    // keeps only pure source colors: no blended pixel appears.
    let mut img = RgbaImage::new(2, 1);
    img.put_pixel(0, 0, image::Rgba([255, 0, 0, 255]));
    img.put_pixel(1, 0, image::Rgba([0, 0, 255, 255]));
    let source = encode(DynamicImage::ImageRgba8(img), ImageFormat::Png);
    let out = transcode(&source, Format::Png, Format::Png, 10, 10).unwrap();
    let decoded = image::load_from_memory(&out).unwrap().to_rgba8();
    for pixel in decoded.pixels() {
        assert!(
            pixel.0 == [255, 0, 0, 255] || pixel.0 == [0, 0, 255, 255],
            "blended pixel {:?}",
            pixel
        );
    }
}

#[test]
fn undecodable_bytes_are_a_decode_error() {
    let result = transcode(b"certainly not an image", Format::Jpeg, Format::Png, 100, 50);
    assert_eq!(result, Err(TranscodeError::PistonImageLoadError));
}

#[test]
fn truncated_image_is_a_decode_error() {
    let source = encode(DynamicImage::ImageRgb8(gradient_rgb(64, 64)), ImageFormat::Png);
    let result = transcode(&source[..source.len() / 2], Format::Png, Format::Png, 20, 20);
    assert_eq!(result, Err(TranscodeError::PistonImageLoadError));
}

#[test]
fn mislabeled_format_is_a_decode_error() {
    // PNG bytes declared as JPEG: the decoder trusts the declared type.
    let source = encode(DynamicImage::ImageRgb8(gradient_rgb(24, 24)), ImageFormat::Png);
    let result = transcode(&source, Format::Jpeg, Format::Png, 12, 12);
    assert_eq!(result, Err(TranscodeError::PistonImageLoadError));
}

#[test]
fn repeated_transcodes_match_exactly() {
    // Same request, unchanged source: same dimensions and pixel content.
    let source = encode(DynamicImage::ImageRgb8(gradient_rgb(33, 47)), ImageFormat::Jpeg);
    let first = transcode(&source, Format::Jpeg, Format::Png, 17, 29).unwrap();
    let second = transcode(&source, Format::Jpeg, Format::Png, 17, 29).unwrap();
    assert_eq!(first, second);

    let a = image::load_from_memory(&first).unwrap().to_rgba8();
    let b = image::load_from_memory(&second).unwrap().to_rgba8();
    assert_eq!(a.dimensions(), b.dimensions());
    assert_eq!(a.into_raw(), b.into_raw());
}
