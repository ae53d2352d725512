use image::error::{ImageError, ImageFormatHint};
use image::format::{format_from_extension, format_from_path, ImageFormat};
use image::signature::{guess_format, guess_format_impl};

#[test]
fn every_extension_names_its_format() {
    let table: [(&str, ImageFormat); 19] = [
        ("avif", ImageFormat::Avif),
        ("jpg", ImageFormat::Jpeg),
        ("jpeg", ImageFormat::Jpeg),
        ("png", ImageFormat::Png),
        ("gif", ImageFormat::Gif),
        ("webp", ImageFormat::WebP),
        ("tif", ImageFormat::Tiff),
        ("tiff", ImageFormat::Tiff),
        ("tga", ImageFormat::Tga),
        ("dds", ImageFormat::Dds),
        ("bmp", ImageFormat::Bmp),
        ("ico", ImageFormat::Ico),
        ("hdr", ImageFormat::Hdr),
        ("pbm", ImageFormat::Pnm),
        ("pam", ImageFormat::Pnm),
        ("ppm", ImageFormat::Pnm),
        ("pgm", ImageFormat::Pnm),
        ("ff", ImageFormat::Farbfeld),
        ("farbfeld", ImageFormat::Farbfeld),
    ];
    for (ext, format) in table.iter() {
        assert_eq!(format_from_extension(ext.as_bytes()), Ok(*format));
        let upper = ext.to_ascii_uppercase();
        assert_eq!(format_from_extension(upper.as_bytes()), Ok(*format));
        let path = format!("some/dir/picture.{}", ext);
        assert_eq!(format_from_path(&path), Ok(*format));
    }
}

#[test]
fn extension_lookup_ignores_case() {
    assert_eq!(format_from_extension(b"JpEg"), Ok(ImageFormat::Jpeg));
    assert_eq!(format_from_path("IMG_0001.PNG"), Ok(ImageFormat::Png));
}

#[test]
fn unknown_extension_is_unsupported_with_raw_hint() {
    assert_eq!(
        format_from_extension(b"XYZ"),
        Err(ImageError::Unsupported(ImageFormatHint::PathExtension(b"XYZ".to_vec())))
    );
    assert_eq!(
        format_from_path("a/b.c/notes.Txt"),
        Err(ImageError::Unsupported(ImageFormatHint::PathExtension(b"Txt".to_vec())))
    );
}

#[test]
fn path_without_extension_is_unsupported() {
    let unknown = Err(ImageError::Unsupported(ImageFormatHint::Unknown));
    assert_eq!(format_from_path("picture"), unknown);
    assert_eq!(format_from_path("dir.png/picture"), unknown);
    assert_eq!(format_from_path(".png"), unknown);
    assert_eq!(format_from_path("a/.."), unknown);
    assert_eq!(format_from_path(""), unknown);
    assert_eq!(format_from_path("dir/"), unknown);
}

#[test]
fn path_uses_last_dot() {
    assert_eq!(format_from_path("archive.png.gif"), Ok(ImageFormat::Gif));
    assert_eq!(format_from_path("../up/x.y.TIFF"), Ok(ImageFormat::Tiff));
}

#[test]
fn every_signature_with_suffix_is_guessed() {
    let table: Vec<(&[u8], ImageFormat)> = vec![
        (b"\x89PNG\r\n\x1a\n", ImageFormat::Png),
        (&[0xff, 0xd8, 0xff], ImageFormat::Jpeg),
        (b"GIF89a", ImageFormat::Gif),
        (b"GIF87a", ImageFormat::Gif),
        (b"RIFF", ImageFormat::WebP),
        (b"MM\x00*", ImageFormat::Tiff),
        (b"II*\x00", ImageFormat::Tiff),
        (b"DDS ", ImageFormat::Dds),
        (b"BM", ImageFormat::Bmp),
        (&[0, 0, 1, 0], ImageFormat::Ico),
        (b"#?RADIANCE", ImageFormat::Hdr),
        (b"P1", ImageFormat::Pnm),
        (b"P2", ImageFormat::Pnm),
        (b"P3", ImageFormat::Pnm),
        (b"P4", ImageFormat::Pnm),
        (b"P5", ImageFormat::Pnm),
        (b"P6", ImageFormat::Pnm),
        (b"P7", ImageFormat::Pnm),
        (b"farbfeld", ImageFormat::Farbfeld),
        (b"\0\0\0 ftypavif", ImageFormat::Avif),
    ];
    for (sig, format) in table.iter() {
        assert_eq!(guess_format(sig), Ok(*format));
        let mut longer = sig.to_vec();
        longer.extend_from_slice(b"\x00\xffarbitrary trailing bytes");
        assert_eq!(guess_format(&longer), Ok(*format));
        assert_eq!(guess_format_impl(&longer), Some(*format));
    }
}

#[test]
fn truncated_signature_is_not_guessed() {
    assert_eq!(guess_format_impl(b"\x89PNG\r\n\x1a"), None);
    assert_eq!(guess_format_impl(b"GIF8"), None);
    assert_eq!(guess_format_impl(b"P"), None);
    assert_eq!(guess_format_impl(b"P8"), None);
    assert_eq!(guess_format_impl(&[0, 0, 0, 0x20, b'f']), None);
    assert_eq!(guess_format_impl(&[]), None);
}

#[test]
fn any_riff_container_is_guessed_as_webp() {
    assert_eq!(guess_format(b"RIFF\x24\x00\x00\x00WAVEfmt "), Ok(ImageFormat::WebP));
    assert_eq!(guess_format(b"RIFF\x24\x00\x00\x00WEBPVP8 "), Ok(ImageFormat::WebP));
}

#[test]
fn ico_and_avif_share_leading_zeros_but_stay_apart() {
    assert_eq!(guess_format(&[0, 0, 1, 0, 1, 0]), Ok(ImageFormat::Ico));
    assert_eq!(guess_format(b"\0\0\0 ftypavif\0\0"), Ok(ImageFormat::Avif));
    assert_eq!(
        guess_format(&[0, 0, 2, 0]),
        Err(ImageError::Unsupported(ImageFormatHint::Unknown))
    );
}

#[test]
fn tga_has_no_signature() {
    let tga_header: [u8; 18] = [0, 0, 2, 0, 0, 0, 0, 0, 0, 0, 0, 0, 4, 0, 4, 0, 24, 0];
    assert_eq!(
        guess_format(&tga_header),
        Err(ImageError::Unsupported(ImageFormatHint::Unknown))
    );
}

#[test]
fn unknown_name_and_bytes_are_unsupported() {
    assert_eq!(
        guess_format(b"hello, world"),
        Err(ImageError::Unsupported(ImageFormatHint::Unknown))
    );
    assert!(matches!(format_from_path("hello.world"), Err(ImageError::Unsupported(_))));
}

#[test]
fn png_stream_is_guessed_as_png() {
    let stream: Vec<u8> = vec![
        0x89, b'P', b'N', b'G', b'\r', b'\n', 0x1a, b'\n', 0, 0, 0, 13, b'I', b'H', b'D', b'R',
    ];
    assert_eq!(guess_format(&stream), Ok(ImageFormat::Png));
}
