//! Format sniffing: classify a payload by its leading bytes alone.
//!
//! Client-declared metadata (file name, extension, content type) never
//! reaches this module; the classification depends on the bytes only.
//!
//! The recognised set is a deliberate choice: GIF as the animated
//! format, and PNG, JPEG, WebP, TIFF and BMP as still rasters — exactly
//! the decoders this library links, so a payload classified as a still
//! raster is always one the transcoder will attempt to decode. Formats
//! outside this set (ICO, QOI, ...) are rejected as unrecognised
//! rather than accepted for a decode that is not built in.

use vstd::prelude::*;

verus! {

/// Media formats recognised by inspecting a payload's leading bytes.
#[derive(Clone, Copy, Debug, PartialEq, Eq, Structural)]
pub enum SniffedFormat {
    /// An animated container (GIF); stored untouched to preserve animation.
    Animated,
    /// A still raster image; re-encoded before storage.
    StillRaster,
    /// No known signature; the payload is rejected.
    Unrecognized,
}

/// GIF signature: "GIF87a" or "GIF89a".
pub open spec fn is_gif(b: Seq<u8>) -> bool {
    b.len() >= 6 && b[0] == 0x47u8 && b[1] == 0x49u8 && b[2] == 0x46u8 && b[3] == 0x38u8 && (b[4]
        == 0x37u8 || b[4] == 0x39u8) && b[5] == 0x61u8
}

/// PNG signature: 0x89 "PNG" CR LF 0x1A LF.
pub open spec fn is_png(b: Seq<u8>) -> bool {
    b.len() >= 8 && b[0] == 0x89u8 && b[1] == 0x50u8 && b[2] == 0x4eu8 && b[3] == 0x47u8 && b[4]
        == 0x0du8 && b[5] == 0x0au8 && b[6] == 0x1au8 && b[7] == 0x0au8
}

/// JPEG signature: FF D8 FF.
pub open spec fn is_jpeg(b: Seq<u8>) -> bool {
    b.len() >= 3 && b[0] == 0xffu8 && b[1] == 0xd8u8 && b[2] == 0xffu8
}

/// WebP signature: "RIFF" <size> "WEBP".
pub open spec fn is_webp(b: Seq<u8>) -> bool {
    b.len() >= 12 && b[0] == 0x52u8 && b[1] == 0x49u8 && b[2] == 0x46u8 && b[3] == 0x46u8 && b[8]
        == 0x57u8 && b[9] == 0x45u8 && b[10] == 0x42u8 && b[11] == 0x50u8
}

/// TIFF signature: "MM\0*" (big-endian) or "II*\0" (little-endian).
pub open spec fn is_tiff(b: Seq<u8>) -> bool {
    b.len() >= 4 && ((b[0] == 0x4du8 && b[1] == 0x4du8 && b[2] == 0x00u8 && b[3] == 0x2au8) || (
    b[0] == 0x49u8 && b[1] == 0x49u8 && b[2] == 0x2au8 && b[3] == 0x00u8))
}

/// BMP signature: "BM".
pub open spec fn is_bmp(b: Seq<u8>) -> bool {
    b.len() >= 2 && b[0] == 0x42u8 && b[1] == 0x4du8
}

/// A still-raster signature the transcoder can try to decode.
pub open spec fn is_still_raster(b: Seq<u8>) -> bool {
    is_png(b) || is_jpeg(b) || is_webp(b) || is_tiff(b) || is_bmp(b)
}

/// The classification of a byte buffer. A pure function of the bytes:
/// the same input always yields the same classification.
pub open spec fn sniff_spec(b: Seq<u8>) -> SniffedFormat {
    if is_gif(b) {
        SniffedFormat::Animated
    } else if is_still_raster(b) {
        SniffedFormat::StillRaster
    } else {
        SniffedFormat::Unrecognized
    }
}

/// Classify a payload from its encoded bytes, never from client metadata.
pub fn sniff(data: &Vec<u8>) -> (f: SniffedFormat)
    ensures
        f == sniff_spec(data@),
{
    if data.len() >= 6 && data[0] == 0x47 && data[1] == 0x49 && data[2] == 0x46 && data[3] == 0x38
        && (data[4] == 0x37 || data[4] == 0x39) && data[5] == 0x61 {
        return SniffedFormat::Animated;
    }
    let png = data.len() >= 8 && data[0] == 0x89 && data[1] == 0x50 && data[2] == 0x4e && data[3]
        == 0x47 && data[4] == 0x0d && data[5] == 0x0a && data[6] == 0x1a && data[7] == 0x0a;
    let jpeg = data.len() >= 3 && data[0] == 0xff && data[1] == 0xd8 && data[2] == 0xff;
    let webp = data.len() >= 12 && data[0] == 0x52 && data[1] == 0x49 && data[2] == 0x46 && data[3]
        == 0x46 && data[8] == 0x57 && data[9] == 0x45 && data[10] == 0x42 && data[11] == 0x50;
    let tiff = data.len() >= 4 && ((data[0] == 0x4d && data[1] == 0x4d && data[2] == 0x00 && data[3]
        == 0x2a) || (data[0] == 0x49 && data[1] == 0x49 && data[2] == 0x2a && data[3] == 0x00));
    let bmp = data.len() >= 2 && data[0] == 0x42 && data[1] == 0x4d;
    if png || jpeg || webp || tiff || bmp {
        SniffedFormat::StillRaster
    } else {
        SniffedFormat::Unrecognized
    }
}

} // verus!
