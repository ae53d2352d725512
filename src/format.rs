//! The closed set of container formats, and their lookup by file extension.
use vstd::prelude::*;
use crate::bytes::{eq_lower, find_last, copy_from};
use crate::error::{ImageError, ImageFormatHint};

verus! {

/// A supported image container format.
#[derive(Clone, Copy, Debug, PartialEq, Eq, Structural, Hash)]
pub enum ImageFormat {
    Png,
    Jpeg,
    Gif,
    WebP,
    Pnm,
    Tiff,
    Tga,
    Dds,
    Bmp,
    Ico,
    Hdr,
    Farbfeld,
    Avif,
}

/// Number of rows of the extension table.
pub const EXTENSION_COUNT: usize = 19;

/// The extension table: row `i` pairs a lower-case extension with its format.
pub open spec fn extension_entry(i: int) -> (Seq<u8>, ImageFormat) {
    if i == 0 {
        (seq![0x61u8, 0x76, 0x69, 0x66], ImageFormat::Avif)  // avif
    } else if i == 1 {
        (seq![0x6au8, 0x70, 0x67], ImageFormat::Jpeg)  // jpg
    } else if i == 2 {
        (seq![0x6au8, 0x70, 0x65, 0x67], ImageFormat::Jpeg)  // jpeg
    } else if i == 3 {
        (seq![0x70u8, 0x6e, 0x67], ImageFormat::Png)  // png
    } else if i == 4 {
        (seq![0x67u8, 0x69, 0x66], ImageFormat::Gif)  // gif
    } else if i == 5 {
        (seq![0x77u8, 0x65, 0x62, 0x70], ImageFormat::WebP)  // webp
    } else if i == 6 {
        (seq![0x74u8, 0x69, 0x66], ImageFormat::Tiff)  // tif
    } else if i == 7 {
        (seq![0x74u8, 0x69, 0x66, 0x66], ImageFormat::Tiff)  // tiff
    } else if i == 8 {
        (seq![0x74u8, 0x67, 0x61], ImageFormat::Tga)  // tga
    } else if i == 9 {
        (seq![0x64u8, 0x64, 0x73], ImageFormat::Dds)  // dds
    } else if i == 10 {
        (seq![0x62u8, 0x6d, 0x70], ImageFormat::Bmp)  // bmp
    } else if i == 11 {
        (seq![0x69u8, 0x63, 0x6f], ImageFormat::Ico)  // ico
    } else if i == 12 {
        (seq![0x68u8, 0x64, 0x72], ImageFormat::Hdr)  // hdr
    } else if i == 13 {
        (seq![0x70u8, 0x62, 0x6d], ImageFormat::Pnm)  // pbm
    } else if i == 14 {
        (seq![0x70u8, 0x61, 0x6d], ImageFormat::Pnm)  // pam
    } else if i == 15 {
        (seq![0x70u8, 0x70, 0x6d], ImageFormat::Pnm)  // ppm
    } else if i == 16 {
        (seq![0x70u8, 0x67, 0x6d], ImageFormat::Pnm)  // pgm
    } else if i == 17 {
        (seq![0x66u8, 0x66], ImageFormat::Farbfeld)  // ff
    } else {
        (seq![0x66u8, 0x61, 0x72, 0x62, 0x66, 0x65, 0x6c, 0x64], ImageFormat::Farbfeld)  // farbfeld
    }
}

/// The format of the first table row at or after `i` whose extension is `ext`.
pub open spec fn lookup_extension_from(ext: Seq<u8>, i: int) -> Option<ImageFormat>
    decreases EXTENSION_COUNT - i,
{
    if i < 0 || i >= EXTENSION_COUNT {
        None
    } else if extension_entry(i).0 == ext {
        Some(extension_entry(i).1)
    } else {
        lookup_extension_from(ext, i + 1)
    }
}

/// The format that a file extension names, compared without regard to ASCII case.
pub open spec fn format_of_extension(ext: Seq<u8>) -> Option<ImageFormat> {
    lookup_extension_from(crate::bytes::lower(ext), 0)
}

pub open spec fn slash() -> u8 {
    0x2f
}

pub open spec fn dot() -> u8 {
    0x2e
}

/// The last component of a `/`-separated path.
pub open spec fn file_name(path: Seq<u8>) -> Seq<u8> {
    match crate::bytes::last_index_of(path, slash()) {
        Some(i) => path.subrange(i + 1, path.len() as int),
        None => path,
    }
}

/// The extension of a path: what follows the last `.` of its file name, where that `.` is not
/// the name's first byte and the name is not `..`.
pub open spec fn path_extension(path: Seq<u8>) -> Option<Seq<u8>> {
    let name = file_name(path);
    match crate::bytes::last_index_of(name, dot()) {
        Some(i) => if i > 0 && name != seq![dot(), dot()] {
            Some(name.subrange(i + 1, name.len() as int))
        } else {
            None
        },
        None => None,
    }
}

/// `r` is what looking a format up by the extension `ext` gives: the table's format, or a
/// refusal as unsupported that carries `ext` as written.
pub open spec fn is_extension_lookup(ext: Seq<u8>, r: Result<ImageFormat, ImageError>) -> bool {
    match format_of_extension(ext) {
        Some(f) => r == Ok::<ImageFormat, ImageError>(f),
        None => r matches Err(ImageError::Unsupported(ImageFormatHint::PathExtension(e))) && e@ == ext,
    }
}

/// `r` is what looking a format up by the path `path` gives: a path without an extension is
/// refused as unsupported with no hint, one with an extension is looked up by it.
pub open spec fn is_path_lookup(path: Seq<u8>, r: Result<ImageFormat, ImageError>) -> bool {
    match path_extension(path) {
        Some(ext) => is_extension_lookup(ext, r),
        None => r == Err::<ImageFormat, ImageError>(ImageError::Unsupported(ImageFormatHint::Unknown)),
    }
}

/// Whether `ext`, lower-cased, is the extension of table row `i`.
fn extension_matches(ext: &[u8], i: usize) -> (r: bool)
    requires
        i < EXTENSION_COUNT,
    ensures
        r == (crate::bytes::lower(ext@) == extension_entry(i as int).0),
{
    let row: &[u8] = if i == 0 {
        [0x61u8, 0x76, 0x69, 0x66].as_slice()
    } else if i == 1 {
        [0x6au8, 0x70, 0x67].as_slice()
    } else if i == 2 {
        [0x6au8, 0x70, 0x65, 0x67].as_slice()
    } else if i == 3 {
        [0x70u8, 0x6e, 0x67].as_slice()
    } else if i == 4 {
        [0x67u8, 0x69, 0x66].as_slice()
    } else if i == 5 {
        [0x77u8, 0x65, 0x62, 0x70].as_slice()
    } else if i == 6 {
        [0x74u8, 0x69, 0x66].as_slice()
    } else if i == 7 {
        [0x74u8, 0x69, 0x66, 0x66].as_slice()
    } else if i == 8 {
        [0x74u8, 0x67, 0x61].as_slice()
    } else if i == 9 {
        [0x64u8, 0x64, 0x73].as_slice()
    } else if i == 10 {
        [0x62u8, 0x6d, 0x70].as_slice()
    } else if i == 11 {
        [0x69u8, 0x63, 0x6f].as_slice()
    } else if i == 12 {
        [0x68u8, 0x64, 0x72].as_slice()
    } else if i == 13 {
        [0x70u8, 0x62, 0x6d].as_slice()
    } else if i == 14 {
        [0x70u8, 0x61, 0x6d].as_slice()
    } else if i == 15 {
        [0x70u8, 0x70, 0x6d].as_slice()
    } else if i == 16 {
        [0x70u8, 0x67, 0x6d].as_slice()
    } else if i == 17 {
        [0x66u8, 0x66].as_slice()
    } else {
        [0x66u8, 0x61, 0x72, 0x62, 0x66, 0x65, 0x6c, 0x64].as_slice()
    };
    eq_lower(ext, row)
}

/// The format of table row `i`.
fn extension_format(i: usize) -> (r: ImageFormat)
    requires
        i < EXTENSION_COUNT,
    ensures
        r == extension_entry(i as int).1,
{
    if i == 0 {
        ImageFormat::Avif
    } else if i <= 2 {
        ImageFormat::Jpeg
    } else if i == 3 {
        ImageFormat::Png
    } else if i == 4 {
        ImageFormat::Gif
    } else if i == 5 {
        ImageFormat::WebP
    } else if i <= 7 {
        ImageFormat::Tiff
    } else if i == 8 {
        ImageFormat::Tga
    } else if i == 9 {
        ImageFormat::Dds
    } else if i == 10 {
        ImageFormat::Bmp
    } else if i == 11 {
        ImageFormat::Ico
    } else if i == 12 {
        ImageFormat::Hdr
    } else if i <= 16 {
        ImageFormat::Pnm
    } else {
        ImageFormat::Farbfeld
    }
}

/// Looks a format up by file extension, without regard to ASCII case. An extension that the
/// table lacks is refused as unsupported, with the extension as written for a hint.
pub fn format_from_extension(ext: &[u8]) -> (r: Result<ImageFormat, ImageError>)
    ensures
        is_extension_lookup(ext@, r),
{
    let mut i: usize = 0;
    while i < EXTENSION_COUNT
        invariant
            i <= EXTENSION_COUNT,
            format_of_extension(ext@) == lookup_extension_from(crate::bytes::lower(ext@), i as int),
        decreases EXTENSION_COUNT - i,
    {
        if extension_matches(ext, i) {
            return Ok(extension_format(i));
        }
        i = i + 1;
    }
    let raw = copy_from(ext, 0);
    assert(raw@ =~= ext@);
    Err(ImageError::Unsupported(ImageFormatHint::PathExtension(raw)))
}

/// The extension of a `/`-separated path given as bytes (see `path_extension`).
pub fn extension_of_path(path: &[u8]) -> (r: Option<Vec<u8>>)
    ensures
        match r {
            Some(e) => path_extension(path@) == Some(e@),
            None => path_extension(path@) is None,
        },
{
    let n = path.len();
    let start: usize = match find_last(path, 0x2f) {
        Some(i) => {
            assert(i < n);
            i + 1
        },
        None => 0,
    };
    proof {
        crate::bytes::lemma_last_index_of(path@, slash());
    }
    let name = copy_from(path, start);
    assert(name@ == file_name(path@)) by {
        if start == 0 {
            assert(path@.subrange(0, path@.len() as int) =~= path@);
        }
    }
    proof {
        crate::bytes::lemma_last_index_of(name@, dot());
    }
    match find_last(name.as_slice(), 0x2e) {
        Some(i) => {
            let is_dot_dot = name.len() == 2 && name[0] == 0x2e && name[1] == 0x2e;
            assert(is_dot_dot == (name@ == seq![dot(), dot()])) by {
                if name@ == seq![dot(), dot()] {
                    assert(name@[0] == dot());
                } else if is_dot_dot {
                    assert(name@ =~= seq![dot(), dot()]);
                }
            }
            if i > 0 && !is_dot_dot {
                Some(copy_from(name.as_slice(), i + 1))
            } else {
                None
            }
        },
        None => None,
    }
}

/// Looks a format up by the extension of a `/`-separated path. A path without an extension is
/// refused as unsupported with no hint; one with an unknown extension as `format_from_extension`
/// refuses it.
pub fn format_from_path(path: &str) -> (r: Result<ImageFormat, ImageError>)
    ensures
        is_path_lookup(vstd::utf8::encode_utf8(path@), r),
{
    let bytes = path.as_bytes();
    match extension_of_path(bytes) {
        Some(ext) => format_from_extension(ext.as_slice()),
        None => Err(ImageError::Unsupported(ImageFormatHint::Unknown)),
    }
}

} // verus!
