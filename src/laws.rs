//! Properties of format detection and of the memory budget, stated over the tables.
use vstd::prelude::*;
use crate::bytes::{has_prefix, last_index_of, lower};
use crate::decode::{budget_outcome, DynamicImage, ImageDecoder};
use crate::error::{ImageError, ImageFormatHint, LimitErrorKind};
use crate::format::{ImageFormat, 
    dot, extension_entry, file_name, format_of_extension, is_path_lookup, lookup_extension_from,
    path_extension, slash, EXTENSION_COUNT,
};
use crate::limits::Limits;
use crate::signature::{guess_from, guess_result, guessed_format, signature_entry, SIGNATURE_COUNT};

verus! {

/// `a` and `b` differ at index `d`, which both have.
pub open spec fn differ_at(a: Seq<u8>, b: Seq<u8>, d: int) -> bool {
    0 <= d < a.len() && d < b.len() && a[d] != b[d]
}

/// Distinct rows of the extension table have distinct extensions, all in lower case.
proof fn lemma_extension_rows(i: int)
    requires
        0 <= i < EXTENSION_COUNT,
    ensures
        lower(extension_entry(i).0) == extension_entry(i).0,
        forall|j: int| 0 <= j < i ==> extension_entry(j).0 != extension_entry(i).0,
{
    let e = extension_entry(i).0;
    assert(lower(e) =~= e);
    assert forall|j: int| 0 <= j < i implies extension_entry(j).0 != extension_entry(i).0 by {
        let f = extension_entry(j).0;
        assert(f.len() != e.len() || differ_at(f, e, 0) || differ_at(f, e, 1) || differ_at(f, e, 2));
    }
}

proof fn lemma_lookup_reaches(ext: Seq<u8>, k: int, i: int)
    requires
        0 <= k <= i < EXTENSION_COUNT,
        extension_entry(i).0 == ext,
        forall|j: int| k <= j < i ==> extension_entry(j).0 != ext,
    ensures
        lookup_extension_from(ext, k) == Some(extension_entry(i).1),
    decreases i - k,
{
    if k < i {
        lemma_lookup_reaches(ext, k + 1, i);
    }
}

/// Every extension of the table, written in any mix of ASCII case, looks up to the format of
/// its row; the table itself is written in lower case.
pub proof fn lemma_extension_round_trip(ext: Seq<u8>, i: int)
    requires
        0 <= i < EXTENSION_COUNT,
        lower(ext) == extension_entry(i).0,
    ensures
        format_of_extension(ext) == Some(extension_entry(i).1),
        lower(extension_entry(i).0) == extension_entry(i).0,
{
    lemma_extension_rows(i);
    lemma_lookup_reaches(extension_entry(i).0, 0, i);
}

proof fn lemma_last_index_of_append(a: Seq<u8>, b: Seq<u8>, c: u8)
    requires
        forall|j: int| 0 <= j < b.len() ==> b[j] != c,
    ensures
        last_index_of(a + b, c) == last_index_of(a, c),
    decreases b.len(),
{
    if b.len() > 0 {
        assert((a + b).drop_last() =~= a + b.drop_last());
        lemma_last_index_of_append(a, b.drop_last(), c);
    } else {
        assert(a + b =~= a);
    }
}

/// A file name made of a stem, a dot and an extension of the table names the format of that
/// extension's row, whatever directories and dots the stem holds, provided the stem does not
/// end a directory.
pub proof fn lemma_path_round_trip(stem: Seq<u8>, i: int)
    requires
        0 <= i < EXTENSION_COUNT,
        stem.len() > 0,
        stem.last() != slash(),
    ensures
        path_extension(stem + seq![dot()] + extension_entry(i).0) == Some(extension_entry(i).0),
        is_path_lookup(stem + seq![dot()] + extension_entry(i).0, Ok(extension_entry(i).1)),
{
    let ext = extension_entry(i).0;
    let tail = seq![dot()] + ext;
    let path = stem + seq![dot()] + ext;
    assert(path =~= stem + tail);
    assert(forall|j: int| 0 <= j < ext.len() ==> ext[j] != slash() && ext[j] != dot());
    assert(forall|j: int| 0 <= j < tail.len() ==> tail[j] != slash());
    lemma_last_index_of_append(stem, tail, slash());
    crate::bytes::lemma_last_index_of(stem, slash());
    let name0 = file_name(stem);
    assert(file_name(path) =~= name0 + tail);
    assert(name0.len() > 0);
    assert(name0 + tail =~= (name0 + seq![dot()]) + ext);
    lemma_last_index_of_append(name0 + seq![dot()], ext, dot());
    assert((name0 + seq![dot()]).last() == dot());
    let name = file_name(path);
    assert(name.len() >= 3);
    assert(name.subrange(name0.len() as int + 1, name.len() as int) =~= ext);
    lemma_extension_rows(i);
    lemma_extension_round_trip(ext, i);
}

/// Distinct rows of the signature table differ at one of their first five bytes.
pub proof fn lemma_signature_rows_differ(i: int, j: int)
    requires
        0 <= i < SIGNATURE_COUNT,
        0 <= j < SIGNATURE_COUNT,
        i != j,
    ensures
        exists|d: int| differ_at(signature_entry(i).0, signature_entry(j).0, d),
{
    let a = signature_entry(i).0;
    let b = signature_entry(j).0;
    if differ_at(a, b, 0) {
    } else if differ_at(a, b, 1) {
    } else if differ_at(a, b, 2) {
    } else {
        assert(differ_at(a, b, 4));
    }
}

/// No input begins with the signatures of two distinct rows.
pub proof fn lemma_signatures_exclusive(buf: Seq<u8>, i: int, j: int)
    requires
        0 <= i < SIGNATURE_COUNT,
        0 <= j < SIGNATURE_COUNT,
        i != j,
    ensures
        !(has_prefix(buf, signature_entry(i).0) && has_prefix(buf, signature_entry(j).0)),
{
    lemma_signature_rows_differ(i, j);
    let d = choose|d: int| differ_at(signature_entry(i).0, signature_entry(j).0, d);
    if has_prefix(buf, signature_entry(i).0) && has_prefix(buf, signature_entry(j).0) {
        assert(buf.subrange(0, signature_entry(i).0.len() as int)[d] == buf[d]);
        assert(buf.subrange(0, signature_entry(j).0.len() as int)[d] == buf[d]);
    }
}

proof fn lemma_guess_reaches(buf: Seq<u8>, k: int, i: int)
    requires
        0 <= k <= i < SIGNATURE_COUNT,
        has_prefix(buf, signature_entry(i).0),
        forall|j: int| k <= j < i ==> !has_prefix(buf, signature_entry(j).0),
    ensures
        guess_from(buf, k) == Some(signature_entry(i).1),
    decreases i - k,
{
    if k < i {
        lemma_guess_reaches(buf, k + 1, i);
    }
}

/// The format guessed for an input is that of the first row whose signature begins it.
pub proof fn lemma_first_match_decides(buf: Seq<u8>, i: int)
    requires
        0 <= i < SIGNATURE_COUNT,
        has_prefix(buf, signature_entry(i).0),
        forall|j: int| 0 <= j < i ==> !has_prefix(buf, signature_entry(j).0),
    ensures
        guessed_format(buf) == Some(signature_entry(i).1),
{
    lemma_guess_reaches(buf, 0, i);
}

/// An input that begins with a row's signature, followed by anything, is guessed as that
/// row's format.
pub proof fn lemma_signature_prefix(i: int, suffix: Seq<u8>)
    requires
        0 <= i < SIGNATURE_COUNT,
    ensures
        guessed_format(signature_entry(i).0 + suffix) == Some(signature_entry(i).1),
{
    let sig = signature_entry(i).0;
    let buf = sig + suffix;
    assert(buf.subrange(0, sig.len() as int) =~= sig);
    assert forall|j: int| 0 <= j < i implies !has_prefix(buf, signature_entry(j).0) by {
        lemma_signatures_exclusive(buf, i, j);
    }
    lemma_first_match_decides(buf, i);
}

/// Where the signatures of two rows both begin an input, the earlier row decides the format.
pub proof fn lemma_earlier_row_wins(buf: Seq<u8>, i: int, j: int)
    requires
        0 <= i < j < SIGNATURE_COUNT,
        has_prefix(buf, signature_entry(i).0),
        has_prefix(buf, signature_entry(j).0),
    ensures
        guessed_format(buf) == Some(signature_entry(i).1),
{
    assert forall|k: int| 0 <= k < i implies !has_prefix(buf, signature_entry(k).0) by {
        lemma_signatures_exclusive(buf, i, k);
    }
    lemma_first_match_decides(buf, i);
}

/// A budget of `n` bytes refuses an output buffer of `n + 1` bytes, and covers one of `n`
/// bytes exactly, leaving nothing for the decoder's own allocations.
pub proof fn lemma_budget_boundary(n: u64)
    requires
        n < u64::MAX,
    ensures
        (Limits { max_alloc: Some(n) }).after_reserve((n + 1) as u64) is None,
        (Limits { max_alloc: Some(n) }).after_reserve(n) == Some(Limits { max_alloc: Some(0) }),
{
}

/// A path whose extension names no format, and leading bytes that match no signature, are
/// refused by both lookups as unsupported.
pub proof fn lemma_unknown_input_unsupported(path: Seq<u8>, buf: Seq<u8>, r: Result<ImageFormat, ImageError>)
    requires
        match path_extension(path) {
            Some(ext) => format_of_extension(ext) is None,
            None => true,
        },
        guessed_format(buf) is None,
        is_path_lookup(path, r),
    ensures
        r matches Err(ImageError::Unsupported(_)),
        guess_result(buf) == Err::<ImageFormat, ImageError>(ImageError::Unsupported(ImageFormatHint::Unknown)),
{
}

/// Decoding within a budget of `n` bytes, with a decoder whose pixel buffer takes more than `n`
/// bytes, is refused for insufficient memory; with one whose buffer takes exactly `n` bytes,
/// the decoder is left exactly nothing for its own allocations: it either refuses that empty
/// budget or decodes once granted it.
pub proof fn lemma_decode_budget_boundary<D: ImageDecoder>(decoder: D, n: u64, r: Result<DynamicImage, ImageError>)
    requires
        budget_outcome(decoder, Limits { max_alloc: Some(n) }, r),
    ensures
        n < decoder.spec_total_bytes() ==> r == Err::<DynamicImage, ImageError>(
            ImageError::Limits(LimitErrorKind::InsufficientMemory),
        ),
        decoder.spec_total_bytes() == n ==> {
            ||| (r matches Err(e) && decoder.refuses(Limits { max_alloc: Some(0) }, e))
            ||| (exists|d: D| #[trigger] d.granted() == Some(Limits { max_alloc: Some(0) }) && d.read_post(r))
        },
{
}

} // verus!
