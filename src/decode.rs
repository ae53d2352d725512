//! Decoder dispatch: a decoder for the requested format is opened and handed to a visitor.
use vstd::prelude::*;
use crate::error::{ImageError, ImageFormatHint, LimitErrorKind};
use crate::format::ImageFormat;
use crate::limits::Limits;

verus! {

/// How the samples of a pixel are laid out.
#[derive(Clone, Copy, Debug, PartialEq, Eq, Structural, Hash)]
pub enum ColorType {
    L8,
    La8,
    Rgb8,
    Rgba8,
    L16,
    La16,
    Rgb16,
    Rgba16,
    Bgr8,
    Bgra8,
}

/// A fully decoded image: its size, its pixel layout, and its pixel bytes.
#[derive(Clone, Debug, PartialEq, Eq)]
pub struct DynamicImage {
    pub width: u32,
    pub height: u32,
    pub color: ColorType,
    pub pixels: Vec<u8>,
}

/// A decoder of one container format, opened on a stream, as each codec provides it. A codec
/// reports its failures as decoding or limit errors, never as an unsupported format.
pub trait ImageDecoder: Sized {
    /// The dimensions that the stream declares, as `(width, height)`.
    spec fn spec_dimensions(&self) -> (u32, u32);

    /// The exact number of bytes of the pixel buffer that a full decode produces.
    spec fn spec_total_bytes(&self) -> u64;

    /// The budget last granted to the decoder's own allocations, if any.
    spec fn granted(&self) -> Option<Limits>;

    /// The decoder, in this state, refuses the budget `limits` with the error `e`.
    spec fn refuses(&self, limits: Limits, e: ImageError) -> bool;

    /// `r` is what a full decode of the stream in this state gives.
    spec fn read_post(&self, r: Result<DynamicImage, ImageError>) -> bool;

    fn dimensions(&self) -> (r: (u32, u32))
        ensures
            r == self.spec_dimensions(),
    ;

    fn total_bytes(&self) -> (r: u64)
        ensures
            r == self.spec_total_bytes(),
    ;

    /// Bounds the decoder's own working allocations by `limits`; fails where it cannot keep
    /// within them.
    fn set_limits(&mut self, limits: Limits) -> (r: Result<(), ImageError>)
        ensures
            r is Ok ==> final(self).granted() == Some(limits),
            r matches Err(e) ==> old(self).refuses(limits, e) && !(e is Unsupported),
    ;

    /// Decodes the whole image.
    fn read_image(self) -> (r: Result<DynamicImage, ImageError>)
        ensures
            self.read_post(r),
            not_unsupported(r),
    ;
}

/// `r` is no refusal as an unsupported format.
pub open spec fn not_unsupported<T>(r: Result<T, ImageError>) -> bool {
    !(r matches Err(ImageError::Unsupported(_)))
}

/// A computation over whichever concrete decoder the dispatch opens.
pub trait DecoderVisitor: Sized {
    type Output;

    fn visit_decoder<D: ImageDecoder>(self, decoder: D) -> (r: Result<Self::Output, ImageError>)
        ensures
            not_unsupported(r),
    ;
}

/// The set of decoders available to a build, over streams of type `R`.
pub trait DecoderSet<R> {
    type Decoder: ImageDecoder;

    /// Whether a decoder of `format` is available.
    spec fn decodes(&self, format: ImageFormat) -> bool;

    /// The codec of `format` opens `reader` as the decoder `d`.
    spec fn opens(&self, reader: R, format: ImageFormat, d: Self::Decoder) -> bool;

    /// The codec of `format` refuses to open `reader`, with the error `e`.
    spec fn open_refuses(&self, reader: R, format: ImageFormat, e: ImageError) -> bool;

    fn has_decoder(&self, format: ImageFormat) -> (r: bool)
        ensures
            r == self.decodes(format),
    ;

    /// Opens the decoder of `format` on `reader`; fails where the stream's header is invalid.
    fn open_decoder(&self, reader: R, format: ImageFormat) -> (r: Result<Self::Decoder, ImageError>)
        requires
            self.decodes(format),
        ensures
            r matches Ok(d) ==> self.opens(reader, format, d),
            r matches Err(e) ==> self.open_refuses(reader, format, e) && !(e is Unsupported),
    ;
}

/// The error of a request for a format that no available codec handles.
pub open spec fn unsupported(format: ImageFormat) -> ImageError {
    ImageError::Unsupported(ImageFormatHint::Exact(format))
}

/// What decoding with `decoder` within `limits` gives: where the budget cannot cover the pixel
/// buffer, a refusal for insufficient memory; otherwise the decoder's refusal of the remaining
/// budget, or, once the decoder has been granted exactly that remaining budget, its full decode.
pub open spec fn budget_outcome<D: ImageDecoder>(decoder: D, limits: Limits, r: Result<DynamicImage, ImageError>) -> bool {
    match limits.after_reserve(decoder.spec_total_bytes()) {
        None => r == Err::<DynamicImage, ImageError>(ImageError::Limits(LimitErrorKind::InsufficientMemory)),
        Some(rest) => {
            ||| (r matches Err(e) && decoder.refuses(rest, e) && !(e is Unsupported))
            ||| (exists|d: D| #[trigger] d.granted() == Some(rest) && d.read_post(r) && not_unsupported(r))
        },
    }
}

/// What opening `reader` as `format` and then doing `then` with the decoder gives: a refusal as
/// unsupported exactly where no codec of `format` is available; otherwise the codec's refusal to
/// open, or the outcome `then` for a decoder that the codec of `format` opens on `reader`.
pub open spec fn dispatch_outcome<R, C: DecoderSet<R>, T>(
    codecs: C,
    reader: R,
    format: ImageFormat,
    r: Result<T, ImageError>,
    then: spec_fn(C::Decoder, Result<T, ImageError>) -> bool,
) -> bool {
    if !codecs.decodes(format) {
        r == Err::<T, ImageError>(unsupported(format))
    } else {
        ||| (r matches Err(e) && codecs.open_refuses(reader, format, e) && !(e is Unsupported))
        ||| (exists|d: C::Decoder| #[trigger] codecs.opens(reader, format, d) && then(d, r) && not_unsupported(r))
    }
}

/// Reports the decoder's dimensions and reads nothing else.
pub struct DimensionsVisitor;

impl DecoderVisitor for DimensionsVisitor {
    type Output = (u32, u32);

    fn visit_decoder<D: ImageDecoder>(self, decoder: D) -> (r: Result<(u32, u32), ImageError>)
        ensures
            not_unsupported(r),
            r == Ok::<(u32, u32), ImageError>(decoder.spec_dimensions()),
    {
        Ok(decoder.dimensions())
    }
}

/// Decodes the whole image within a memory budget (see `read_within_budget`).
pub struct LoadVisitor {
    pub limits: Limits,
}

impl DecoderVisitor for LoadVisitor {
    type Output = DynamicImage;

    fn visit_decoder<D: ImageDecoder>(self, decoder: D) -> (r: Result<DynamicImage, ImageError>)
        ensures
            not_unsupported(r),
            budget_outcome(decoder, self.limits, r),
    {
        read_within_budget(decoder, self.limits)
    }
}

/// Decodes the whole image within `limits`. The pixel buffer's size, as the decoder reports it,
/// is taken from the budget first: where the budget cannot cover it, this fails with
/// insufficient memory before the decoder does any more work. Otherwise the decoder is given
/// what is left of the budget for its own allocations, and then decodes; a refusal of that
/// budget is returned as it is, and the decoder then does no more work.
pub fn read_within_budget<D: ImageDecoder>(decoder: D, limits: Limits) -> (r: Result<DynamicImage, ImageError>)
    ensures
        not_unsupported(r),
        budget_outcome(decoder, limits, r),
{
    let ghost original = decoder;
    let mut decoder = decoder;
    let mut limits = limits;
    let total_bytes = decoder.total_bytes();
    match limits.reserve(total_bytes) {
        Err(e) => Err(e),
        Ok(()) => match decoder.set_limits(limits) {
            Err(e) => Err(e),
            Ok(()) => {
                let ghost granted = decoder;
                let r = decoder.read_image();
                assert(granted.granted() == Some(limits) && granted.read_post(r));
                r
            },
        },
    }
}

/// Opens the decoder of `format` on `r`, where a codec of `format` is available; otherwise
/// refuses `format` as unsupported.
fn open_for<R, C: DecoderSet<R>>(codecs: &C, r: R, format: ImageFormat) -> (res: Result<C::Decoder, ImageError>)
    ensures
        !codecs.decodes(format) ==> res == Err::<C::Decoder, ImageError>(unsupported(format)),
        codecs.decodes(format) ==> match res {
            Ok(d) => codecs.opens(r, format, d),
            Err(e) => codecs.open_refuses(r, format, e) && !(e is Unsupported),
        },
{
    if codecs.has_decoder(format) {
        codecs.open_decoder(r, format)
    } else {
        Err(ImageError::Unsupported(ImageFormatHint::Exact(format)))
    }
}

/// Opens the decoder of `format` on `r` and hands it to `visitor`, returning what the visitor
/// returns. Where no decoder of `format` is available, fails as unsupported, with `format` as
/// the hint, and never calls the visitor; where the codec cannot open `r`, returns its error.
pub fn load_decoder<R, C: DecoderSet<R>, V: DecoderVisitor>(codecs: &C, r: R, format: ImageFormat, visitor: V)
    -> (res: Result<V::Output, ImageError>)
    ensures
        !codecs.decodes(format) ==> res == Err::<V::Output, ImageError>(unsupported(format)),
        codecs.decodes(format) ==> not_unsupported(res),
        codecs.decodes(format) ==> (res matches Err(e) && codecs.open_refuses(r, format, e))
            || (exists|d: C::Decoder| #[trigger] codecs.opens(r, format, d)),
{
    match open_for(codecs, r, format) {
        Ok(decoder) => {
            assert(codecs.opens(r, format, decoder));
            visitor.visit_decoder(decoder)
        },
        Err(e) => Err(e),
    }
}

/// Decodes a whole image of `format` from `r` within `limits` (see `read_within_budget`).
pub fn load_inner<R, C: DecoderSet<R>>(codecs: &C, r: R, limits: Limits, format: ImageFormat)
    -> (res: Result<DynamicImage, ImageError>)
    ensures
        dispatch_outcome(*codecs, r, format, res, |d: C::Decoder, x: Result<DynamicImage, ImageError>| budget_outcome(d, limits, x)),
{
    match open_for(codecs, r, format) {
        Ok(decoder) => {
            let ghost opened = decoder;
            let res = read_within_budget(decoder, limits);
            assert(codecs.opens(r, format, opened) && budget_outcome(opened, limits, res));
            res
        },
        Err(e) => Err(e),
    }
}

/// Decodes a whole image of `format` from `r`, with an unbounded memory budget.
pub fn load<R, C: DecoderSet<R>>(codecs: &C, r: R, format: ImageFormat) -> (res: Result<DynamicImage, ImageError>)
    ensures
        dispatch_outcome(*codecs, r, format, res, |d: C::Decoder, x: Result<DynamicImage, ImageError>| budget_outcome(d, Limits { max_alloc: None }, x)),
{
    load_inner(codecs, r, Limits::no_limits(), format)
}

/// Reads the dimensions, as `(width, height)`, of an image of `format` from `fin`: those that
/// the opened decoder reports. No pixel data is read.
pub fn image_dimensions_with_format_impl<R, C: DecoderSet<R>>(codecs: &C, fin: R, format: ImageFormat)
    -> (res: Result<(u32, u32), ImageError>)
    ensures
        dispatch_outcome(*codecs, fin, format, res, |d: C::Decoder, x: Result<(u32, u32), ImageError>| x == Ok::<(u32, u32), ImageError>(d.spec_dimensions())),
{
    match open_for(codecs, fin, format) {
        Ok(decoder) => {
            let ghost opened = decoder;
            let res = DimensionsVisitor.visit_decoder(decoder);
            assert(codecs.opens(fin, format, opened));
            res
        },
        Err(e) => Err(e),
    }
}

} // verus!
