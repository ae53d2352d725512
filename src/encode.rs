//! Encoder dispatch: a pixel buffer is written through the encoder of the requested format.
use vstd::prelude::*;
use crate::bytes::{eq_lower, lower};
use crate::decode::ColorType;
use crate::error::{ImageError, ImageFormatHint};
use crate::format::{extension_of_path, path_extension, ImageFormat};

verus! {

/// How the samples of a PNM file are written.
#[derive(Clone, Copy, Debug, PartialEq, Eq, Structural, Hash)]
pub enum SampleEncoding {
    Binary,
    Ascii,
}

/// The variants of the PNM family.
#[derive(Clone, Copy, Debug, PartialEq, Eq, Structural, Hash)]
pub enum PnmSubtype {
    Bitmap(SampleEncoding),
    Graymap(SampleEncoding),
    Pixmap(SampleEncoding),
    ArbitraryMap,
}

/// The encoder that a save request resolves to.
#[derive(Clone, Copy, Debug, PartialEq, Eq, Structural, Hash)]
pub enum EncodeTarget {
    /// The encoder of a format that has no subtypes.
    Plain(ImageFormat),
    /// The PNM encoder, writing the given subtype.
    Pnm(PnmSubtype),
}

impl EncodeTarget {
    pub open spec fn spec_format(self) -> ImageFormat {
        match self {
            EncodeTarget::Plain(f) => f,
            EncodeTarget::Pnm(_) => ImageFormat::Pnm,
        }
    }
}

/// The set of encoders available to a build, writing to sinks of type `W`.
pub trait EncoderSet<W> {
    /// Whether an encoder of `format` is available.
    spec fn encodes(&self, format: ImageFormat) -> bool;

    /// `r` is what the encoder of `target` gives when it writes `buf`, an image of `width` by
    /// `height` pixels laid out as `color`, into `out`.
    spec fn writes(
        &self,
        out: W,
        target: EncodeTarget,
        buf: &[u8],
        width: u32,
        height: u32,
        color: ColorType,
        r: Result<(), ImageError>,
    ) -> bool;

    fn has_encoder(&self, format: ImageFormat) -> (r: bool)
        ensures
            r == self.encodes(format),
    ;

    /// Encodes `buf`, an image of `width` by `height` pixels laid out as `color`, into `out`
    /// with the encoder of `target`. An encoder reports its failures as encoding or I/O errors,
    /// never as an unsupported format.
    fn write_image(
        &self,
        out: W,
        target: EncodeTarget,
        buf: &[u8],
        width: u32,
        height: u32,
        color: ColorType,
    ) -> (r: Result<(), ImageError>)
        requires
            self.encodes(target.spec_format()),
        ensures
            self.writes(out, target, buf, width, height, color, r),
            crate::decode::not_unsupported(r),
    ;
}

/// The PNM subtype that a file extension selects, compared without regard to ASCII case:
/// `pbm`, `pgm` and `ppm` the binary bitmap, graymap and pixmap, `pam` the arbitrary map.
pub open spec fn pnm_subtype_of_extension(ext: Seq<u8>) -> Option<PnmSubtype> {
    let e = lower(ext);
    if e == seq![0x70u8, 0x62, 0x6d] {
        Some(PnmSubtype::Bitmap(SampleEncoding::Binary))
    } else if e == seq![0x70u8, 0x67, 0x6d] {
        Some(PnmSubtype::Graymap(SampleEncoding::Binary))
    } else if e == seq![0x70u8, 0x70, 0x6d] {
        Some(PnmSubtype::Pixmap(SampleEncoding::Binary))
    } else if e == seq![0x70u8, 0x61, 0x6d] {
        Some(PnmSubtype::ArbitraryMap)
    } else {
        None
    }
}

/// The encoder that saving an image of `format` to `path` uses: for PNM, the subtype that the
/// path's extension selects, and `None` where it selects none; for any other format, its own.
pub open spec fn encode_target_of(path: Seq<u8>, format: ImageFormat) -> Option<EncodeTarget> {
    if format == ImageFormat::Pnm {
        match path_extension(path) {
            Some(ext) => match pnm_subtype_of_extension(ext) {
                Some(s) => Some(EncodeTarget::Pnm(s)),
                None => None,
            },
            None => None,
        }
    } else {
        Some(EncodeTarget::Plain(format))
    }
}

/// The PNM subtype that `ext` selects (see `pnm_subtype_of_extension`).
pub fn pnm_subtype_from_extension(ext: &[u8]) -> (r: Option<PnmSubtype>)
    ensures
        r == pnm_subtype_of_extension(ext@),
{
    if eq_lower(ext, [0x70u8, 0x62, 0x6d].as_slice()) {
        Some(PnmSubtype::Bitmap(SampleEncoding::Binary))
    } else if eq_lower(ext, [0x70u8, 0x67, 0x6d].as_slice()) {
        Some(PnmSubtype::Graymap(SampleEncoding::Binary))
    } else if eq_lower(ext, [0x70u8, 0x70, 0x6d].as_slice()) {
        Some(PnmSubtype::Pixmap(SampleEncoding::Binary))
    } else if eq_lower(ext, [0x70u8, 0x61, 0x6d].as_slice()) {
        Some(PnmSubtype::ArbitraryMap)
    } else {
        None
    }
}

/// Resolves the encoder that saving an image of `format` to `path` uses. A PNM save to a path
/// whose extension selects no subtype fails as unsupported, with `format` as the hint.
pub fn encode_target(path: &str, format: ImageFormat) -> (r: Result<EncodeTarget, ImageError>)
    ensures
        r == match encode_target_of(vstd::utf8::encode_utf8(path@), format) {
            Some(t) => Ok(t),
            None => Err(ImageError::Unsupported(ImageFormatHint::Exact(format))),
        },
{
    if format == ImageFormat::Pnm {
        match extension_of_path(path.as_bytes()) {
            Some(ext) => match pnm_subtype_from_extension(ext.as_slice()) {
                Some(s) => Ok(EncodeTarget::Pnm(s)),
                None => Err(ImageError::Unsupported(ImageFormatHint::Exact(format))),
            },
            None => Err(ImageError::Unsupported(ImageFormatHint::Exact(format))),
        }
    } else {
        Ok(EncodeTarget::Plain(format))
    }
}

/// Saves `buf`, an image of `width` by `height` pixels laid out as `color`, as `format` into
/// `out`, the sink opened on `path`. Where no encoder of `format` is available, or a PNM
/// subtype cannot be resolved from `path`, fails as unsupported with `format` as the hint and
/// writes nothing. Otherwise the encoder that `encode_target` resolves writes the arguments, as
/// given, into `out`, and its result is returned.
pub fn save_buffer_with_format_impl<W, E: EncoderSet<W>>(
    encoders: &E,
    out: W,
    path: &str,
    buf: &[u8],
    width: u32,
    height: u32,
    color: ColorType,
    format: ImageFormat,
) -> (r: Result<(), ImageError>)
    ensures
        !encoders.encodes(format) || encode_target_of(vstd::utf8::encode_utf8(path@), format) is None
            ==> r == Err::<(), ImageError>(ImageError::Unsupported(ImageFormatHint::Exact(format))),
        encoders.encodes(format) ==> match encode_target_of(vstd::utf8::encode_utf8(path@), format) {
            Some(target) => encoders.writes(out, target, buf, width, height, color, r)
                && crate::decode::not_unsupported(r),
            None => true,
        },
{
    if !encoders.has_encoder(format) {
        return Err(ImageError::Unsupported(ImageFormatHint::Exact(format)));
    }
    match encode_target(path, format) {
        Ok(target) => encoders.write_image(out, target, buf, width, height, color),
        Err(e) => Err(e),
    }
}

} // verus!
