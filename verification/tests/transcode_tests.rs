use image::codecs::gif::GifEncoder;
use image::{Frame, ImageFormat, Rgba, RgbaImage};
use memelibre::errors::PublishError;
use memelibre::sniff::{sniff, SniffedFormat};
use memelibre::transcode::{transcode, TargetFormat};

fn png_10x10_opaque() -> Vec<u8> {
    let img = RgbaImage::from_pixel(10, 10, Rgba([40, 80, 120, 255]));
    let mut cursor = std::io::Cursor::new(Vec::new());
    img.write_to(&mut cursor, ImageFormat::Png).unwrap();
    cursor.into_inner()
}

fn gif_three_frames() -> Vec<u8> {
    let mut out = Vec::new();
    {
        let mut encoder = GifEncoder::new(&mut out);
        for i in 0..3u8 {
            let img = RgbaImage::from_pixel(4, 4, Rgba([i * 70, 0, 0, 255]));
            encoder.encode_frame(Frame::new(img)).unwrap();
        }
    }
    out
}

#[test]
fn png_is_reencoded_as_webp() {
    let png = png_10x10_opaque();
    let format = sniff(&png);
    assert_eq!(format, SniffedFormat::StillRaster);
    let media = transcode(png.clone(), format, 80).unwrap();
    assert_eq!(media.format, TargetFormat::Webp);
    assert_eq!(media.format.content_type(), "image/webp");
    assert_eq!(media.format.extension(), "webp");
    // The stored bytes carry the WebP container magic, not the PNG input.
    assert_ne!(media.bytes, png);
    assert_eq!(&media.bytes[0..4], b"RIFF");
    assert_eq!(&media.bytes[8..12], b"WEBP");
}

#[test]
fn reencoding_the_same_source_is_deterministic() {
    let png = png_10x10_opaque();
    let format = sniff(&png);
    let first = transcode(png.clone(), format, 80).unwrap();
    let second = transcode(png.clone(), format, 80).unwrap();
    assert_eq!(first.bytes, second.bytes);
    assert_eq!(first.bytes.len(), second.bytes.len());
}

#[test]
fn animated_gif_passes_through_unchanged() {
    let gif = gif_three_frames();
    let format = sniff(&gif);
    assert_eq!(format, SniffedFormat::Animated);
    let media = transcode(gif.clone(), format, 80).unwrap();
    assert_eq!(media.bytes, gif);
    assert_eq!(media.format, TargetFormat::Gif);
    assert_eq!(media.format.content_type(), "image/gif");
}

#[test]
fn gif_magic_alone_is_enough_for_passthrough() {
    // Animated payloads are stored without decoding, so a payload is
    // passed through on the strength of its GIF signature alone.
    let mut bytes = b"GIF89a".to_vec();
    bytes.extend_from_slice(&[1, 2, 3, 4]);
    let format = sniff(&bytes);
    assert_eq!(format, SniffedFormat::Animated);
    let media = transcode(bytes.clone(), format, 80).unwrap();
    assert_eq!(media.bytes, bytes);
}

#[test]
fn text_payload_is_invalid_media() {
    let text = b"definitely-not-an-image".to_vec();
    let format = sniff(&text);
    assert_eq!(format, SniffedFormat::Unrecognized);
    let err = transcode(text, format, 80).unwrap_err();
    assert_eq!(err, PublishError::InvalidMediaFormat);
}

#[test]
fn raster_wider_than_webp_allows_is_invalid_media() {
    // 16384 exceeds WebP's dimension limit by one; the payload decodes
    // but cannot be re-encoded, so it is rejected as invalid media.
    let img = RgbaImage::from_pixel(16384, 1, Rgba([1, 2, 3, 255]));
    let mut cursor = std::io::Cursor::new(Vec::new());
    img.write_to(&mut cursor, ImageFormat::Png).unwrap();
    let png = cursor.into_inner();
    let format = sniff(&png);
    assert_eq!(format, SniffedFormat::StillRaster);
    let err = transcode(png, format, 80).unwrap_err();
    assert_eq!(err, PublishError::InvalidMediaFormat);
}

#[test]
fn corrupt_png_sniffs_but_fails_to_decode() {
    let mut bytes = vec![0x89, b'P', b'N', b'G', 0x0d, 0x0a, 0x1a, 0x0a];
    bytes.extend_from_slice(&[0xde, 0xad, 0xbe, 0xef, 0, 1, 2, 3]);
    let format = sniff(&bytes);
    assert_eq!(format, SniffedFormat::StillRaster);
    let err = transcode(bytes, format, 80).unwrap_err();
    assert_eq!(err, PublishError::InvalidMediaFormat);
}
