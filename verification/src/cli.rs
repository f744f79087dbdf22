//! The service's options and the sources it works on.
use vstd::prelude::*;

use crate::utils::detect::{self, classify_content};
use crate::utils::path::{path_extension_of, plain_extension, plain_without_extension};
use crate::utils::{classify_extension, get_compression_type, result_view, vendor_plan, UnsupportedExtError, VendorPlan};

verus! {

/// Compression algorithm of a source or vendor tarball.
#[derive(Clone, Copy, Debug, PartialEq, Eq, Structural)]
pub enum Compression {
    Gz,
    Xz,
    Zst,
}

impl Compression {
    /// The name under which the algorithm is shown and written as an extension.
    pub open spec fn spec_name(self) -> Seq<char> {
        match self {
            Compression::Gz => seq!['g', 'z'],
            Compression::Xz => seq!['x', 'z'],
            Compression::Zst => seq!['z', 's', 't'],
        }
    }

    /// The name of the algorithm: `gz`, `xz` or `zst`.
    pub fn as_str(&self) -> (r: &'static str)
        ensures
            r@ == self.spec_name(),
    {
        match self {
            Compression::Gz => {
                proof {
                    reveal_strlit("gz");
                }
                "gz"
            },
            Compression::Xz => {
                proof {
                    reveal_strlit("xz");
                }
                "xz"
            },
            Compression::Zst => {
                proof {
                    reveal_strlit("zst");
                }
                "zst"
            },
        }
    }
}

impl Default for Compression {
    /// Zstandard is the default.
    fn default() -> (r: Self)
        ensures
            r == Compression::Zst,
    {
        Compression::Zst
    }
}

/// When to color the log output.
#[derive(Clone, Copy, Debug, PartialEq, Eq, Structural)]
pub enum ColorChoice {
    Auto,
    Always,
    Never,
}

/// A tarball of sources.
#[derive(Clone, Debug)]
pub struct SrcTar {
    /// Where to find packed sources.
    pub srctar: String,
}

/// A directory of unpacked sources.
#[derive(Clone, Debug)]
pub struct SrcDir {
    /// Where to find unpacked sources.
    pub srcdir: String,
}

/// What the service was asked to do.
#[derive(Clone, Debug)]
pub struct Opts {
    /// Packed sources, if given.
    pub srctar: Option<SrcTar>,
    /// Unpacked sources, if given.
    pub srcdir: Option<SrcDir>,
    /// Compression of the vendor tarball to write.
    pub compression: Compression,
    /// Tag for multi-vendor and multi-cargo_config projects.
    pub tag: Option<String>,
    /// Other manifests to vendor, relative to the project.
    pub cargotoml: Vec<String>,
    /// Whether to update dependencies before vendoring.
    pub update: bool,
    /// Where the vendor tarball and cargo config go.
    pub outdir: String,
    /// Whether to color output.
    pub color: Option<ColorChoice>,
}

/// Which kind of source the options name.
#[derive(Clone, Copy, Debug, PartialEq, Eq, Structural)]
pub enum SrcKind {
    SrcTar,
    SrcDir,
}

impl SrcKind {
    /// How the kind is shown.
    pub open spec fn spec_describe(self) -> Seq<char> {
        match self {
            SrcKind::SrcTar => "SrcKind::SrcTar"@,
            SrcKind::SrcDir => "SrcKind::SrcDir"@,
        }
    }

    /// How the kind is shown: `SrcKind::SrcTar` or `SrcKind::SrcDir`.
    pub fn describe(&self) -> (r: &'static str)
        ensures
            r@ == self.spec_describe(),
    {
        match self {
            SrcKind::SrcTar => "SrcKind::SrcTar",
            SrcKind::SrcDir => "SrcKind::SrcDir",
        }
    }
}

/// The options do not name the kind of source that was expected.
#[derive(Clone, Copy, Debug, PartialEq, Eq, Structural)]
pub struct SrcKindError {
    /// The kind that was found, if any.
    pub src: Option<SrcKind>,
}

impl SrcKindError {
    /// The message shown for this error.
    pub open spec fn spec_message(self) -> Seq<char> {
        match self.src {
            Some(SrcKind::SrcTar) => "Expected `SrcKind::SrcDir`, got `"@ + "SrcKind::SrcTar"@ + "`"@,
            Some(SrcKind::SrcDir) => "Expected `SrcKind::SrcTar`, got `"@ + "SrcKind::SrcDir"@ + "`"@,
            None => "Could not determine src kind"@,
        }
    }

    /// The message shown for this error.
    pub fn message(&self) -> (r: String)
        ensures
            r@ == self.spec_message(),
    {
        match self.src {
            Some(kind) => {
                let mut msg = match kind {
                    SrcKind::SrcTar => String::from_str("Expected `SrcKind::SrcDir`, got `"),
                    SrcKind::SrcDir => String::from_str("Expected `SrcKind::SrcTar`, got `"),
                };
                msg.append(kind.describe());
                msg.append("`");
                msg
            },
            None => String::from_str("Could not determine src kind"),
        }
    }
}

/// Why the compression of the source tarball could not be had.
#[derive(Debug)]
pub enum SrcTypeError {
    /// The tarball's extension is not supported.
    Unsupported(UnsupportedExtError),
    /// The options name no tarball.
    Kind(SrcKindError),
}

/// What a `SrcTypeError` says: the unsupported extension, or the kind found.
pub enum SrcTypeErrorView {
    Unsupported(Option<Seq<char>>),
    Kind(Option<SrcKind>),
}

impl View for SrcTypeError {
    type V = SrcTypeErrorView;

    open spec fn view(&self) -> SrcTypeErrorView {
        match self {
            SrcTypeError::Unsupported(e) => SrcTypeErrorView::Unsupported(e@),
            SrcTypeError::Kind(e) => SrcTypeErrorView::Kind(e.src),
        }
    }
}

impl SrcTypeError {
    /// The message shown for this error.
    pub fn message(&self) -> (r: String)
        ensures
            r@ == (match self {
                SrcTypeError::Unsupported(e) => e.spec_message(),
                SrcTypeError::Kind(e) => e.spec_message(),
            }),
    {
        match self {
            SrcTypeError::Unsupported(e) => e.message(),
            SrcTypeError::Kind(e) => e.message(),
        }
    }
}

/// Access to the source that the options name.
pub trait Src {
    /// The kind of source named, if any.
    fn srckind(&self) -> Option<SrcKind>;

    /// The compression of the source tarball.
    fn srctar_compression_type(&self) -> Result<Compression, SrcTypeError>;
}

impl Opts {
    /// The kind of source named: a directory wins over a tarball.
    pub open spec fn spec_srckind(self) -> Option<SrcKind> {
        if self.srcdir is Some {
            Some(SrcKind::SrcDir)
        } else if self.srctar is Some {
            Some(SrcKind::SrcTar)
        } else {
            None
        }
    }

    /// The compression of the source tarball, through the view of the error.
    pub open spec fn spec_srctar_compression_type(self) -> Result<Compression, SrcTypeErrorView> {
        match self.spec_srckind() {
            Some(SrcKind::SrcTar) => match classify_extension(
                path_extension_of(self.srctar->0.srctar@),
            ) {
                Ok(c) => Ok(c),
                Err(e) => Err(SrcTypeErrorView::Unsupported(e)),
            },
            Some(SrcKind::SrcDir) => Err(SrcTypeErrorView::Kind(Some(SrcKind::SrcDir))),
            None => Err(SrcTypeErrorView::Kind(None)),
        }
    }
}

impl Src for Opts {
    fn srckind(&self) -> (r: Option<SrcKind>)
        ensures
            r == self.spec_srckind(),
    {
        if self.srcdir.is_some() {
            Some(SrcKind::SrcDir)
        } else if self.srctar.is_some() {
            Some(SrcKind::SrcTar)
        } else {
            None
        }
    }

    fn srctar_compression_type(&self) -> (r: Result<Compression, SrcTypeError>)
        ensures
            (match r {
                Ok(c) => Ok(c),
                Err(e) => Err(e@),
            }) == self.spec_srctar_compression_type(),
            self.srctar matches Some(src) ==> (self.srcdir is None && plain_extension(src.srctar@) is Some
                ==> (match r {
                Ok(c) => Ok(c),
                Err(e) => Err(e@),
            }) == (match classify_extension(plain_extension(src.srctar@)) {
                Ok(c) => Ok(c),
                Err(e) => Err(SrcTypeErrorView::Unsupported(e)),
            })),
            self.srctar matches Some(src) ==> (self.srcdir is None && plain_without_extension(src.srctar@)
                ==> (match r {
                Ok(c) => Ok(c),
                Err(e) => Err(e@),
            }) == Err::<Compression, SrcTypeErrorView>(SrcTypeErrorView::Unsupported(None))),
    {
        match self.srckind() {
            Some(kind) => {
                match kind {
                    SrcKind::SrcTar => match &self.srctar {
                        Some(src) => match get_compression_type(&src.srctar) {
                            Ok(t) => Ok(t),
                            Err(err) => Err(SrcTypeError::Unsupported(err)),
                        },
                        None => Err(SrcTypeError::Kind(SrcKindError { src: None })),
                    },
                    SrcKind::SrcDir => Err(SrcTypeError::Kind(SrcKindError { src: Some(kind) })),
                }
            },
            None => Err(SrcTypeError::Kind(SrcKindError { src: None })),
        }
    }
}

/// Options that name a source directory have no tarball compression: asking
/// for it is refused with the directory kind.
pub proof fn lemma_srcdir_has_no_tarball_compression(opts: Opts)
    requires
        opts.srcdir is Some,
    ensures
        opts.spec_srckind() == Some(SrcKind::SrcDir),
        opts.spec_srctar_compression_type() == Err::<Compression, SrcTypeErrorView>(
            SrcTypeErrorView::Kind(Some(SrcKind::SrcDir)),
        ),
{
}

/// For options that name only a tarball, the compression of the source is the
/// tarball's own, as the tarball's extension classifies it.
pub proof fn lemma_tarball_compression_is_the_tarballs(opts: Opts)
    requires
        opts.srcdir is None,
        opts.srctar is Some,
    ensures
        opts.spec_srckind() == Some(SrcKind::SrcTar),
        opts.spec_srctar_compression_type() == (match classify_extension(
            path_extension_of(opts.srctar->0.srctar@),
        ) {
            Ok(c) => Ok(c),
            Err(e) => Err(SrcTypeErrorView::Unsupported(e)),
        }),
{
}

/// The kind of source the options name: a directory whenever one is given,
/// a tarball only when it is given alone, none when neither is; and only
/// options that name a tarball alone can have a tarball compression.
pub proof fn lemma_srckind(opts: Opts)
    ensures
        (opts.spec_srckind() == Some(SrcKind::SrcDir)) <==> opts.srcdir is Some,
        (opts.spec_srckind() == Some(SrcKind::SrcTar)) <==> (opts.srcdir is None
            && opts.srctar is Some),
        (opts.spec_srckind() is None) <==> (opts.srcdir is None && opts.srctar is None),
        opts.srcdir is None && opts.srctar is None ==> opts.spec_srctar_compression_type()
            == Err::<Compression, SrcTypeErrorView>(SrcTypeErrorView::Kind(None)),
        opts.spec_srctar_compression_type() is Ok ==> opts.srcdir is None && opts.srctar is Some,
        opts.spec_srctar_compression_type() != Err::<Compression, SrcTypeErrorView>(
            SrcTypeErrorView::Kind(Some(SrcKind::SrcTar)),
        ),
{
}

/// The names the compressions are shown and written under: `gz`, `xz` and
/// `zst`, one for each.
pub proof fn lemma_compression_names(a: Compression, b: Compression)
    ensures
        Compression::Gz.spec_name() == seq!['g', 'z'],
        Compression::Xz.spec_name() == seq!['x', 'z'],
        Compression::Zst.spec_name() == seq!['z', 's', 't'],
        a != b ==> a.spec_name() != b.spec_name(),
{
    if a != b {
        assert(a.spec_name()[0] != b.spec_name()[0] || a.spec_name().len() != b.spec_name().len());
    }
}

/// A kind error names the kind it found after the kind it expected, which is
/// the other one; the two kinds are shown differently.
pub proof fn lemma_kind_error_names_kinds(k: SrcKind)
    ensures
        SrcKind::SrcTar.spec_describe() != SrcKind::SrcDir.spec_describe(),
        (SrcKindError { src: Some(k) }).spec_message() == "Expected `"@ + (match k {
            SrcKind::SrcTar => SrcKind::SrcDir,
            SrcKind::SrcDir => SrcKind::SrcTar,
        }).spec_describe() + "`, got `"@ + k.spec_describe() + "`"@,
{
    reveal_strlit("SrcKind::SrcTar");
    reveal_strlit("SrcKind::SrcDir");
    reveal_strlit("Expected `");
    reveal_strlit("`, got `");
    reveal_strlit("Expected `SrcKind::SrcDir`, got `");
    reveal_strlit("Expected `SrcKind::SrcTar`, got `");
    assert("SrcKind::SrcTar"@[12] != "SrcKind::SrcDir"@[12]);
    assert("Expected `SrcKind::SrcDir`, got `"@ =~= "Expected `"@ + "SrcKind::SrcDir"@ + "`, got `"@);
    assert("Expected `SrcKind::SrcTar`, got `"@ =~= "Expected `"@ + "SrcKind::SrcTar"@ + "`, got `"@);
}

/// Unpacking a source tarball into a directory with the decoder that its
/// compression calls for.
#[derive(Clone, Debug)]
pub struct Unpack {
    /// The decoder to use.
    pub compression: Compression,
    /// The tarball.
    pub archive: String,
    /// Where its contents go.
    pub outdir: String,
}

impl SrcTar {
    /// The compression of the tarball, told by its content: `is_file` says
    /// whether the tarball's path names a regular file and `header` holds its
    /// first bytes (up to 8192).  What it is named only matters for a warning
    /// (see `detect::has_expected_extension`).
    pub fn get_compression(&self, is_file: bool, header: &[u8]) -> (r: Result<Compression, UnsupportedExtError>)
        ensures
            result_view(r) == classify_content(is_file, header@),
    {
        detect::get_compression_type(is_file, header)
    }

    /// How to unpack the tarball into `outdir`: with the decoder of the
    /// compression that its content shows (see `get_compression`); a tarball
    /// of unsupported content, or a path that is no file, is refused.
    pub fn decompress(&self, outdir: &str, is_file: bool, header: &[u8]) -> (r: Result<Unpack, UnsupportedExtError>)
        ensures
            (match r {
                Ok(u) => Ok(u.compression),
                Err(e) => Err(e@),
            }) == classify_content(is_file, header@),
            r matches Ok(u) ==> u.archive@ == self.srctar@ && u.outdir@ == outdir@,
    {
        match self.get_compression(is_file, header) {
            Ok(comp) => Ok(Unpack {
                compression: comp,
                archive: self.srctar.clone(),
                outdir: String::from_str(outdir),
            }),
            Err(err) => Err(err),
        }
    }

    /// How to vendor the dependencies of the project at `prjdir`.
    pub fn vendor(&self, opts: &Opts, prjdir: &str) -> (r: VendorPlan)
        ensures
            r.spec_is_plan(*opts, prjdir@, None),
    {
        vendor_plan(opts, prjdir, None)
    }
}

impl SrcDir {
    /// How to vendor the dependencies of the project at `prjdir`.
    pub fn vendor(&self, opts: &Opts, prjdir: &str) -> (r: VendorPlan)
        ensures
            r.spec_is_plan(*opts, prjdir@, None),
    {
        vendor_plan(opts, prjdir, None)
    }
}

} // verus!
