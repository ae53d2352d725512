//! Format detection from the leading bytes of a stream.
use vstd::prelude::*;
use crate::bytes::{has_prefix, starts_with};
use crate::error::{ImageError, ImageFormatHint};
use crate::format::ImageFormat;

verus! {

/// Number of rows of the signature table.
pub const SIGNATURE_COUNT: usize = 20;

/// The signature table, in its order of precedence: row `i` pairs a leading byte sequence with
/// the format it identifies. The `RIFF` row matches any RIFF container, not only WebP.
pub open spec fn signature_entry(i: int) -> (Seq<u8>, ImageFormat) {
    if i == 0 {
        (seq![0x89u8, 0x50, 0x4e, 0x47, 0x0d, 0x0a, 0x1a, 0x0a], ImageFormat::Png)  // \x89PNG\r\n\x1a\n
    } else if i == 1 {
        (seq![0xffu8, 0xd8, 0xff], ImageFormat::Jpeg)
    } else if i == 2 {
        (seq![0x47u8, 0x49, 0x46, 0x38, 0x39, 0x61], ImageFormat::Gif)  // GIF89a
    } else if i == 3 {
        (seq![0x47u8, 0x49, 0x46, 0x38, 0x37, 0x61], ImageFormat::Gif)  // GIF87a
    } else if i == 4 {
        (seq![0x52u8, 0x49, 0x46, 0x46], ImageFormat::WebP)  // RIFF
    } else if i == 5 {
        (seq![0x4du8, 0x4d, 0x00, 0x2a], ImageFormat::Tiff)  // MM\0*
    } else if i == 6 {
        (seq![0x49u8, 0x49, 0x2a, 0x00], ImageFormat::Tiff)  // II*\0
    } else if i == 7 {
        (seq![0x44u8, 0x44, 0x53, 0x20], ImageFormat::Dds)  // "DDS "
    } else if i == 8 {
        (seq![0x42u8, 0x4d], ImageFormat::Bmp)  // BM
    } else if i == 9 {
        (seq![0x00u8, 0x00, 0x01, 0x00], ImageFormat::Ico)
    } else if i == 10 {
        (seq![0x23u8, 0x3f, 0x52, 0x41, 0x44, 0x49, 0x41, 0x4e, 0x43, 0x45], ImageFormat::Hdr)  // #?RADIANCE
    } else if 11 <= i <= 17 {
        (seq![0x50u8, (0x31 + (i - 11)) as u8], ImageFormat::Pnm)  // PNM headers: P followed by a digit from 1 to 7
    } else if i == 18 {
        (seq![0x66u8, 0x61, 0x72, 0x62, 0x66, 0x65, 0x6c, 0x64], ImageFormat::Farbfeld)  // farbfeld
    } else {
        (seq![0x00u8, 0x00, 0x00, 0x20, 0x66, 0x74, 0x79, 0x70, 0x61, 0x76, 0x69, 0x66], ImageFormat::Avif)  // \0\0\0 ftypavif
    }
}

/// The format of the first table row at or after `i` whose signature begins `buf`.
pub open spec fn guess_from(buf: Seq<u8>, i: int) -> Option<ImageFormat>
    decreases SIGNATURE_COUNT - i,
{
    if i < 0 || i >= SIGNATURE_COUNT {
        None
    } else if has_prefix(buf, signature_entry(i).0) {
        Some(signature_entry(i).1)
    } else {
        guess_from(buf, i + 1)
    }
}

/// The format that the leading bytes of `buf` identify: that of the first matching table row.
pub open spec fn guessed_format(buf: Seq<u8>) -> Option<ImageFormat> {
    guess_from(buf, 0)
}

/// What guessing the format of `buf` gives: the guessed format, or a refusal as unsupported
/// with nothing known of the format.
pub open spec fn guess_result(buf: Seq<u8>) -> Result<ImageFormat, ImageError> {
    match guessed_format(buf) {
        Some(f) => Ok(f),
        None => Err(ImageError::Unsupported(ImageFormatHint::Unknown)),
    }
}

/// Whether `buf` begins with the signature of table row `i`.
fn signature_matches(buf: &[u8], i: usize) -> (r: bool)
    requires
        i < SIGNATURE_COUNT,
    ensures
        r == has_prefix(buf@, signature_entry(i as int).0),
{
    if i == 0 {
        starts_with(buf, [0x89u8, 0x50, 0x4e, 0x47, 0x0d, 0x0a, 0x1a, 0x0a].as_slice())
    } else if i == 1 {
        starts_with(buf, [0xffu8, 0xd8, 0xff].as_slice())
    } else if i == 2 {
        starts_with(buf, [0x47u8, 0x49, 0x46, 0x38, 0x39, 0x61].as_slice())
    } else if i == 3 {
        starts_with(buf, [0x47u8, 0x49, 0x46, 0x38, 0x37, 0x61].as_slice())
    } else if i == 4 {
        starts_with(buf, [0x52u8, 0x49, 0x46, 0x46].as_slice())
    } else if i == 5 {
        starts_with(buf, [0x4du8, 0x4d, 0x00, 0x2a].as_slice())
    } else if i == 6 {
        starts_with(buf, [0x49u8, 0x49, 0x2a, 0x00].as_slice())
    } else if i == 7 {
        starts_with(buf, [0x44u8, 0x44, 0x53, 0x20].as_slice())
    } else if i == 8 {
        starts_with(buf, [0x42u8, 0x4d].as_slice())
    } else if i == 9 {
        starts_with(buf, [0x00u8, 0x00, 0x01, 0x00].as_slice())
    } else if i == 10 {
        starts_with(buf, [0x23u8, 0x3f, 0x52, 0x41, 0x44, 0x49, 0x41, 0x4e, 0x43, 0x45].as_slice())
    } else if i <= 17 {
        let digit: u8 = 0x31 + (i - 11) as u8;
        starts_with(buf, [0x50u8, digit].as_slice())
    } else if i == 18 {
        starts_with(buf, [0x66u8, 0x61, 0x72, 0x62, 0x66, 0x65, 0x6c, 0x64].as_slice())
    } else {
        starts_with(buf, [0x00u8, 0x00, 0x00, 0x20, 0x66, 0x74, 0x79, 0x70, 0x61, 0x76, 0x69, 0x66].as_slice())
    }
}

/// The format of table row `i`.
fn signature_format(i: usize) -> (r: ImageFormat)
    requires
        i < SIGNATURE_COUNT,
    ensures
        r == signature_entry(i as int).1,
{
    if i == 0 {
        ImageFormat::Png
    } else if i == 1 {
        ImageFormat::Jpeg
    } else if i <= 3 {
        ImageFormat::Gif
    } else if i == 4 {
        ImageFormat::WebP
    } else if i <= 6 {
        ImageFormat::Tiff
    } else if i == 7 {
        ImageFormat::Dds
    } else if i == 8 {
        ImageFormat::Bmp
    } else if i == 9 {
        ImageFormat::Ico
    } else if i == 10 {
        ImageFormat::Hdr
    } else if i <= 17 {
        ImageFormat::Pnm
    } else if i == 18 {
        ImageFormat::Farbfeld
    } else {
        ImageFormat::Avif
    }
}

/// Scans the signature table in order and returns the format of the first row whose signature
/// begins `buffer`, or `None` where none does. Only the leading bytes are looked at.
pub fn guess_format_impl(buffer: &[u8]) -> (r: Option<ImageFormat>)
    ensures
        r == guessed_format(buffer@),
{
    let mut i: usize = 0;
    while i < SIGNATURE_COUNT
        invariant
            i <= SIGNATURE_COUNT,
            guessed_format(buffer@) == guess_from(buffer@, i as int),
        decreases SIGNATURE_COUNT - i,
    {
        if signature_matches(buffer, i) {
            return Some(signature_format(i));
        }
        i = i + 1;
    }
    None
}

/// Guesses the format of an image from its leading bytes. Where no signature matches, the
/// input is refused as unsupported, with nothing known of its format. TGA has no signature
/// and is never guessed; the rest of the buffer is not checked.
pub fn guess_format(buffer: &[u8]) -> (r: Result<ImageFormat, ImageError>)
    ensures
        r == guess_result(buffer@),
{
    match guess_format_impl(buffer) {
        Some(format) => Ok(format),
        None => Err(ImageError::Unsupported(ImageFormatHint::Unknown)),
    }
}

} // verus!
