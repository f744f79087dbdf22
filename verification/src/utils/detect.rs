//! Telling a tarball's compression from its content, as `infer` sees it.
use vstd::prelude::*;

use crate::cli::Compression;
use crate::consts::{GZ_MIME, XZ_MIME, ZST_MIME};
use super::{compression_of_extension, result_view, text_is, UnsupportedExtError};

verus! {

/// Name for the MIME type that `infer::get` reports for a buffer, if any.
pub uninterp spec fn infer_mime_of(buf: Seq<u8>) -> Option<Seq<char>>;

/// Calls `infer::get` on `buf` and takes the MIME type of the kind it found.
///
/// Claims only that the result is `infer_mime_of(buf)`: `infer` tries its
/// matchers in a fixed order on the bytes alone, so the result is a function
/// of them; which matcher wins is left to the name.
#[verifier::external_body]
fn sniff_mime_type(buf: &[u8]) -> (r: Option<String>)
    ensures
        r.deep_view() == infer_mime_of(buf@),
{
    match infer::get(buf) {
        Some(kind) => Some(kind.mime_type().to_string()),
        None => None,
    }
}

/// The compression that a supported MIME type stands for.
pub open spec fn compression_of_mime(mime: Seq<char>) -> Option<Compression> {
    if mime == XZ_MIME@ {
        Some(Compression::Xz)
    } else if mime == GZ_MIME@ {
        Some(Compression::Gz)
    } else if mime == ZST_MIME@ {
        Some(Compression::Zst)
    } else {
        None
    }
}

/// Classification of a sniffed MIME type: the compression it stands for, or
/// the error carrying the type (`unknown mime type` when none was found).
pub open spec fn classify_mime(mime: Option<Seq<char>>) -> Result<Compression, Option<Seq<char>>> {
    let m = match mime {
        Some(m) => m,
        None => "unknown mime type"@,
    };
    match compression_of_mime(m) {
        Some(c) => Ok(c),
        None => Err(Some(m)),
    }
}

/// Classification of a path by its content: a path that is not a regular
/// file is refused as `Directory`; a file goes by the MIME type of its first
/// bytes.
pub open spec fn classify_content(is_file: bool, header: Seq<u8>) -> Result<Compression, Option<Seq<char>>> {
    if is_file {
        classify_mime(infer_mime_of(header))
    } else {
        Err(Some("Directory"@))
    }
}

/// The compression a sniffed MIME type stands for: xz, gzip or zstd; any other
/// type, or none, is an error carrying it.
pub fn compression_for_mime(mime: Option<String>) -> (r: Result<Compression, UnsupportedExtError>)
    ensures
        result_view(r) == classify_mime(mime.deep_view()),
{
    let m = match mime {
        Some(m) => m,
        None => String::from_str("unknown mime type"),
    };
    if text_is(&m, XZ_MIME) {
        Ok(Compression::Xz)
    } else if text_is(&m, GZ_MIME) {
        Ok(Compression::Gz)
    } else if text_is(&m, ZST_MIME) {
        Ok(Compression::Zst)
    } else {
        Err(UnsupportedExtError { ext: Some(m) })
    }
}

/// The compression of a file, told by its content.  `is_file` says whether the
/// path names a regular file; `header` holds its first bytes (up to 8192, as
/// `infer` reads them from a path).
pub fn get_compression_type(is_file: bool, header: &[u8]) -> (r: Result<Compression, UnsupportedExtError>)
    ensures
        result_view(r) == classify_content(is_file, header@),
{
    if is_file {
        compression_for_mime(sniff_mime_type(header))
    } else {
        Err(UnsupportedExtError { ext: Some(String::from_str("Directory")) })
    }
}

/// The extensions that are expected for a file of each compression.
pub open spec fn expected_extension(c: Compression, ext: Seq<char>) -> bool {
    match c {
        Compression::Xz => ext == "xz"@,
        Compression::Gz => ext == "gz"@ || ext == "gzip"@,
        Compression::Zst => ext == "zstd"@ || ext == "zst"@,
    }
}

/// Whether `ext` is an extension expected for a file compressed with `c`; a
/// file sniffed as one compression but named with another extension is worth
/// a warning.
pub fn has_expected_extension(c: Compression, ext: &str) -> (r: bool)
    ensures
        r == expected_extension(c, ext@),
{
    let e = String::from_str(ext);
    match c {
        Compression::Xz => text_is(&e, "xz"),
        Compression::Gz => text_is(&e, "gz") || text_is(&e, "gzip"),
        Compression::Zst => text_is(&e, "zstd") || text_is(&e, "zst"),
    }
}

/// Which MIME types are recognized, and as what: exactly
/// `application/x-xz` as xz, `application/gzip` as gzip and
/// `application/zstd` as Zstandard.  Every other type is refused with an
/// error carrying it, and no type at all as `unknown mime type`.
pub proof fn lemma_recognized_mime_types(mime: Seq<char>)
    ensures
        (classify_mime(Some(mime)) is Ok) <==> (mime == "application/x-xz"@ || mime
            == "application/gzip"@ || mime == "application/zstd"@),
        classify_mime(Some(mime)) == Ok::<Compression, Option<Seq<char>>>(Compression::Xz)
            <==> mime == "application/x-xz"@,
        classify_mime(Some(mime)) == Ok::<Compression, Option<Seq<char>>>(Compression::Gz)
            <==> mime == "application/gzip"@,
        classify_mime(Some(mime)) == Ok::<Compression, Option<Seq<char>>>(Compression::Zst)
            <==> mime == "application/zstd"@,
        classify_mime(Some(mime)) is Err ==> classify_mime(Some(mime)) == Err::<
            Compression,
            Option<Seq<char>>,
        >(Some(mime)),
        classify_mime(None) == Err::<Compression, Option<Seq<char>>>(
            Some("unknown mime type"@),
        ),
{
    reveal_strlit("application/x-xz");
    reveal_strlit("application/gzip");
    reveal_strlit("application/zstd");
    reveal_strlit("unknown mime type");
    let x = "application/x-xz"@;
    let g = "application/gzip"@;
    let z = "application/zstd"@;
    let u = "unknown mime type"@;
    assert(x != g) by {
        assert(x[12] != g[12]);
    }
    assert(x != z) by {
        assert(x[12] != z[12]);
    }
    assert(g != z) by {
        assert(g[12] != z[12]);
    }
    assert(u != x && u != g && u != z) by {
        assert(u[0] != x[0]);
    }
}

/// A file's content decides its compression: a path that is no regular file
/// is refused as `Directory`, and a file is classified exactly by the MIME
/// type sniffed from its first bytes.
pub proof fn lemma_content_decides(is_file: bool, header: Seq<u8>)
    ensures
        !is_file ==> classify_content(is_file, header) == Err::<Compression, Option<Seq<char>>>(
            Some("Directory"@),
        ),
        is_file ==> classify_content(is_file, header) == classify_mime(infer_mime_of(header)),
{
}

/// The extensions expected for each compression are those that name it
/// (its own name, and `zstd` for Zstandard), and `gzip` for gzip.
pub proof fn lemma_expected_extensions(c: Compression, ext: Seq<char>)
    ensures
        expected_extension(c, c.spec_name()),
        c == Compression::Zst ==> expected_extension(c, seq!['z', 's', 't', 'd']),
        c == Compression::Gz ==> expected_extension(c, seq!['g', 'z', 'i', 'p']),
        expected_extension(c, ext) <==> (compression_of_extension(ext) == Some(c) || (c
            == Compression::Gz && ext == seq!['g', 'z', 'i', 'p'])),
{
    reveal_strlit("xz");
    reveal_strlit("gz");
    reveal_strlit("gzip");
    reveal_strlit("zst");
    reveal_strlit("zstd");
    assert("xz"@ =~= seq!['x', 'z']);
    assert("gz"@ =~= seq!['g', 'z']);
    assert("gzip"@ =~= seq!['g', 'z', 'i', 'p']);
    assert("zst"@ =~= seq!['z', 's', 't']);
    assert("zstd"@ =~= seq!['z', 's', 't', 'd']);
}

} // verus!
