//! Transcoding: decode a still raster and re-encode it compactly at a
//! configured quality, or pass an animated payload through untouched.
//!
//! This step is deterministic and CPU-bound: it never touches the
//! network or the relational store.

use crate::errors::PublishError;
use crate::sniff::{sniff_spec, SniffedFormat};
use vstd::prelude::*;
use vstd::string::StringExecFns;

verus! {

/// The format under which a payload is stored.
#[derive(Clone, Copy, Debug, PartialEq, Eq, Structural)]
pub enum TargetFormat {
    /// Animated passthrough: the original GIF bytes.
    Gif,
    /// Re-encoded still raster.
    Webp,
}

impl TargetFormat {
    /// The canonical MIME type sent to the object store.
    pub open spec fn mime_spec(self) -> Seq<char> {
        match self {
            TargetFormat::Gif => "image/gif"@,
            TargetFormat::Webp => "image/webp"@,
        }
    }

    /// The canonical file extension, as it appears at the end of a key.
    pub open spec fn extension_spec(self) -> Seq<char> {
        match self {
            TargetFormat::Gif => "gif"@,
            TargetFormat::Webp => "webp"@,
        }
    }

    pub fn content_type(&self) -> (m: String)
        ensures
            m@ == self.mime_spec(),
    {
        match self {
            TargetFormat::Gif => String::from_str("image/gif"),
            TargetFormat::Webp => String::from_str("image/webp"),
        }
    }

    pub fn extension(&self) -> (e: &'static str)
        ensures
            e@ == self.extension_spec(),
    {
        match self {
            TargetFormat::Gif => "gif",
            TargetFormat::Webp => "webp",
        }
    }
}

/// The largest width or height WebP can represent (libwebp's own
/// dimension limit). The transcoder rejects larger rasters before the
/// encoder sees them.
pub const WEBP_DIMENSION_LIMIT: u32 = 16383;

/// A decoded raster held with full alpha fidelity: RGBA, four bytes
/// per pixel, row-major.
pub struct Raster {
    pub pixels: Vec<u8>,
    pub width: u32,
    pub height: u32,
}

impl Raster {
    /// The buffer holds exactly one RGBA quadruple per pixel.
    pub open spec fn wf(self) -> bool {
        self.pixels@.len() == 4 * self.width * self.height
    }
}

/// What decoding a payload yields: `None` when the bytes do not form a
/// valid image, otherwise the RGBA buffer and its dimensions. Decoding
/// is a function of the bytes alone.
pub uninterp spec fn decoded_rgba(b: Seq<u8>) -> Option<(Seq<u8>, u32, u32)>;

/// What lossy WebP encoding yields for a pixel buffer, its dimensions
/// and a quality: `None` when the encoder rejects the raster (for
/// instance, dimensions it cannot represent). A function of its
/// arguments alone.
pub uninterp spec fn webp_encoded(pixels: Seq<u8>, width: u32, height: u32, quality: u8) -> Option<
    Seq<u8>,
>;

/// Relies on image::load_from_memory followed by
/// DynamicImage::to_rgba8: decoding is a pure function of the bytes,
/// and the RGBA buffer it returns holds width * height * 4 bytes.
#[verifier::external_body]
fn decode_rgba(data: &Vec<u8>) -> (r: Option<Raster>)
    ensures
        r matches Some(ras) ==> ras.wf() && decoded_rgba(data@) == Some(
            (ras.pixels@, ras.width, ras.height),
        ),
        r is None ==> decoded_rgba(data@) is None,
{
    match image::load_from_memory(data) {
        Ok(img) => {
            let rgba = img.to_rgba8();
            let (width, height) = rgba.dimensions();
            Some(Raster { pixels: rgba.into_raw(), width, height })
        },
        Err(_) => None,
    }
}

/// Relies on webp::Encoder::from_rgba and encode_simple (lossy,
/// default configuration): the output is a pure function of the pixel
/// buffer, the dimensions and the quality. from_rgba panics unless the
/// buffer holds width * height * 4 bytes, so a well-formed raster is
/// required; and the crate computes the row stride as `width * 4` in
/// `i32` before libwebp validates the dimensions, so both dimensions
/// must stay within WebP's own limit to keep that product in range.
/// An encoder error surfaces as `None`.
#[verifier::external_body]
fn encode_webp(r: &Raster, quality: u8) -> (out: Option<Vec<u8>>)
    requires
        r.wf(),
        r.width <= WEBP_DIMENSION_LIMIT,
        r.height <= WEBP_DIMENSION_LIMIT,
        quality <= 100,
    ensures
        out matches Some(v) ==> webp_encoded(r.pixels@, r.width, r.height, quality) == Some(v@),
        out is None ==> webp_encoded(r.pixels@, r.width, r.height, quality) is None,
{
    let encoder = webp::Encoder::from_rgba(&r.pixels, r.width, r.height);
    match encoder.encode_simple(false, quality.into()) {
        Ok(mem) => Some(mem.to_vec()),
        Err(_) => None,
    }
}

/// A payload ready for upload: the bytes to store and their format.
#[derive(Debug)]
pub struct EncodedMedia {
    pub bytes: Vec<u8>,
    pub format: TargetFormat,
}

/// What the transcoder produces for a payload and a quality:
/// animated payloads pass through unchanged as GIF; still rasters are
/// decoded and re-encoded as WebP; anything unrecognised, undecodable,
/// beyond WebP's dimension limit or unencodable is rejected as invalid
/// media.
pub open spec fn transcode_spec(b: Seq<u8>, quality: u8) -> Result<
    (Seq<u8>, TargetFormat),
    PublishError,
> {
    match sniff_spec(b) {
        SniffedFormat::Animated => Ok((b, TargetFormat::Gif)),
        SniffedFormat::Unrecognized => Err(PublishError::InvalidMediaFormat),
        SniffedFormat::StillRaster => match decoded_rgba(b) {
            Option::None => Err(PublishError::InvalidMediaFormat),
            Option::Some(raster) => {
                if raster.1 > WEBP_DIMENSION_LIMIT || raster.2 > WEBP_DIMENSION_LIMIT {
                    Err(PublishError::InvalidMediaFormat)
                } else {
                    match webp_encoded(raster.0, raster.1, raster.2, quality) {
                        Option::None => Err(PublishError::InvalidMediaFormat),
                        Option::Some(out) => Ok((out, TargetFormat::Webp)),
                    }
                }
            },
        },
    }
}

/// Run the transcoder on a classified payload.
pub fn transcode(data: Vec<u8>, format: SniffedFormat, quality: u8) -> (r: Result<
    EncodedMedia,
    PublishError,
>)
    requires
        quality <= 100,
        format == sniff_spec(data@),
    ensures
        transcode_spec(data@, quality) matches Ok(p) ==> r matches Ok(m) && m.bytes@ == p.0
            && m.format == p.1,
        transcode_spec(data@, quality) is Err ==> r == Err::<EncodedMedia, PublishError>(
            PublishError::InvalidMediaFormat,
        ),
{
    match format {
        SniffedFormat::Animated => Ok(EncodedMedia { bytes: data, format: TargetFormat::Gif }),
        SniffedFormat::Unrecognized => Err(PublishError::InvalidMediaFormat),
        SniffedFormat::StillRaster => {
            match decode_rgba(&data) {
                Option::None => Err(PublishError::InvalidMediaFormat),
                Option::Some(raster) => {
                    if raster.width > WEBP_DIMENSION_LIMIT || raster.height
                        > WEBP_DIMENSION_LIMIT {
                        return Err(PublishError::InvalidMediaFormat);
                    }
                    match encode_webp(&raster, quality) {
                        Option::None => Err(PublishError::InvalidMediaFormat),
                        Option::Some(out) => Ok(
                            EncodedMedia { bytes: out, format: TargetFormat::Webp },
                        ),
                    }
                },
            }
        },
    }
}

/// An animated payload is stored byte-for-byte identical to the input,
/// under the animated format's canonical content type.
pub proof fn lemma_animated_passthrough(b: Seq<u8>, quality: u8)
    requires
        sniff_spec(b) == SniffedFormat::Animated,
    ensures
        transcode_spec(b, quality) == Ok::<(Seq<u8>, TargetFormat), PublishError>(
            (b, TargetFormat::Gif),
        ),
        (TargetFormat::Gif).mime_spec() == "image/gif"@,
{
}

/// Transcoding is deterministic: the same payload at the same quality
/// yields the same stored bytes, so re-running the encoder on the same
/// source cannot change the output or its length.
pub proof fn lemma_transcode_deterministic(b: Seq<u8>, quality: u8, r1: Seq<u8>, r2: Seq<u8>)
    requires
        transcode_spec(b, quality) matches Ok(p1) && r1 == p1.0,
        transcode_spec(b, quality) matches Ok(p2) && r2 == p2.0,
    ensures
        r1 == r2,
        r1.len() == r2.len(),
{
}

} // verus!
