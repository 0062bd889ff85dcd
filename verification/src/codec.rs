//! Decoding, resizing and encoding of rasters.
//!
//! The pixel work itself is done by the `image` crate; this module wraps the
//! three calls the pipeline makes — decode, nearest-neighbor exact resize,
//! encode — behind contracts. Each call is deterministic in its arguments,
//! so its result is named by an uninterpreted spec function; the pipeline's
//! own contracts are stated over those names.

use vstd::prelude::*;

use crate::errors::TranscodeError;
use crate::format::Format;

verus! {

/// A decoded raster: RGBA samples, row major, four bytes per pixel, owned by
/// exactly one pipeline stage at a time.
pub struct PixelBuffer {
    /// Width in pixels.
    pub width: u32,
    /// Height in pixels.
    pub height: u32,
    /// The samples, `4 * width * height` bytes.
    pub data: Vec<u8>,
}

impl PixelBuffer {
    /// The raster holds exactly four bytes for each of its pixels.
    pub open spec fn wf(&self) -> bool {
        self.data@.len() == 4 * (self.width as int) * (self.height as int)
    }
}

/// What the image library decodes the given bytes to, as an RGBA raster:
/// `None` when the bytes are not a valid image of the given format,
/// otherwise the width, the height and the samples.
pub uninterp spec fn decode_of(fmt: Format, bytes: Seq<u8>) -> Option<(u32, u32, Seq<u8>)>;

/// The raster the image library's nearest-neighbor resampler produces for
/// the given source raster and target dimensions.
pub uninterp spec fn resize_of(sw: u32, sh: u32, data: Seq<u8>, w: u32, h: u32) -> Seq<u8>;

/// The bytes the image library serializes an RGBA raster to in the given
/// output format.
pub uninterp spec fn encode_of(fmt: Format, w: u32, h: u32, data: Seq<u8>) -> Seq<u8>;

/// Relies on `image::load_from_memory_with_format` (and
/// `DynamicImage::to_rgba8`): decoding is deterministic in the bytes and the
/// declared format, and a decoded `ImageBuffer` holds exactly
/// `4 * width * height` samples.
#[verifier::external_body]
pub(crate) fn decode_rgba(fmt: Format, bytes: &[u8]) -> (r: Result<PixelBuffer, TranscodeError>)
    ensures
        match decode_of(fmt, bytes@) {
            Some(d) => r matches Ok(p) && p.width == d.0 && p.height == d.1 && p.data@ == d.2
                && p.wf(),
            None => r matches Err(e) && e is PistonImageLoadError,
        },
{
    let ifmt = match fmt {
        Format::Png => image::ImageFormat::Png,
        Format::Jpeg => image::ImageFormat::Jpeg,
        Format::Gif => image::ImageFormat::Gif,
    };
    match image::load_from_memory_with_format(bytes, ifmt) {
        Ok(img) => {
            let rgba = img.to_rgba8();
            let (width, height) = rgba.dimensions();
            Ok(PixelBuffer { width, height, data: rgba.into_raw() })
        },
        Err(_) => Err(TranscodeError::PistonImageLoadError),
    }
}

/// Relies on `image::DynamicImage::resize_exact` with
/// `FilterType::Nearest`: the result is a new image whose dimensions are
/// exactly the requested ones, computed from the source samples alone.
#[verifier::external_body]
pub(crate) fn resize_exact_nearest(src: &PixelBuffer, w: u32, h: u32) -> (r: PixelBuffer)
    requires
        src.wf(),
        1 <= src.width,
        1 <= src.height,
        1 <= w <= 9999,
        1 <= h <= 9999,
    ensures
        r.width == w,
        r.height == h,
        r.data@ == resize_of(src.width, src.height, src.data@, w, h),
        r.wf(),
{
    let buf = image::RgbaImage::from_raw(src.width, src.height, src.data.clone())
        .expect("well-formed raster");
    let img = image::DynamicImage::ImageRgba8(buf)
        .resize_exact(w, h, image::imageops::FilterType::Nearest);
    let out = img.to_rgba8();
    let (width, height) = out.dimensions();
    PixelBuffer { width, height, data: out.into_raw() }
}

/// Relies on `image::DynamicImage::write_to`: serialization to PNG or JPEG
/// is deterministic in the raster and the format, and succeeds on every
/// input admitted here — the method converts to a color type its encoder
/// supports by itself (for JPEG it drops the alpha channel, as its
/// documentation states), the dimensions are far below both codecs'
/// limits, and a write into an in-memory cursor cannot fail. The error arm
/// below is defensive only.
#[verifier::external_body]
pub(crate) fn encode_buffer(buf: &PixelBuffer, fmt: Format) -> (r: Result<Vec<u8>, TranscodeError>)
    requires
        buf.wf(),
        fmt.is_output(),
        1 <= buf.width <= 9999,
        1 <= buf.height <= 9999,
    ensures
        r is Ok,
        r matches Ok(v) ==> v@ == encode_of(fmt, buf.width, buf.height, buf.data@),
{
    let ifmt = match fmt {
        Format::Png => image::ImageFormat::Png,
        Format::Jpeg => image::ImageFormat::Jpeg,
        Format::Gif => image::ImageFormat::Gif,
    };
    let raster = match image::RgbaImage::from_raw(buf.width, buf.height, buf.data.clone()) {
        Some(b) => b,
        None => return Err(TranscodeError::EncodeError),
    };
    let mut out = std::io::Cursor::new(Vec::new());
    match image::DynamicImage::ImageRgba8(raster).write_to(&mut out, ifmt) {
        Ok(()) => Ok(out.into_inner()),
        Err(_) => Err(TranscodeError::EncodeError),
    }
}

} // verus!
