use obs_service_cargo::cli::{
    Compression, Opts, Src, SrcDir, SrcKind, SrcKindError, SrcTar, SrcTypeError,
};
use obs_service_cargo::service::{
    select_glob_match, select_source, use_color, GlobMatchError, SourceError,
};
use obs_service_cargo::cli::ColorChoice;

fn opts(srcdir: Option<&str>, srctar: Option<&str>, outdir: &str) -> Opts {
    Opts {
        srctar: srctar.map(|s| SrcTar { srctar: s.to_string() }),
        srcdir: srcdir.map(|s| SrcDir { srcdir: s.to_string() }),
        compression: Compression::default(),
        tag: None,
        cargotoml: Vec::new(),
        update: true,
        outdir: outdir.to_string(),
        color: Some(ColorChoice::Auto),
    }
}

#[test]
fn is_using_srcdir() {
    let opt = opts(Some("test"), None, "test");
    opt.srckind()
        .map(|f| assert_eq!(true, matches!(f, SrcKind::SrcDir)));
    assert_eq!(opt.srckind(), Some(SrcKind::SrcDir));
}

#[test]
fn srcdir_errors_on_getting_compression_type() {
    let opt = opts(Some("test"), None, "test");
    assert_eq!(true, opt.srctar_compression_type().is_err());
}

#[test]
fn is_using_srctar() {
    let opt = opts(None, Some("test"), "test");
    assert_eq!(opt.srckind(), Some(SrcKind::SrcTar));
}

#[test]
fn is_srctar_xz() {
    let opt = opts(None, Some("test.tar.xz"), "test");
    match opt.srctar_compression_type() {
        Ok(c) => assert_eq!(true, matches!(c, Compression::Xz)),
        Err(err) => {
            println!("Expected xz or lzma compressed file, got `{}`", err.message());
            panic!("Not an xz compressed tar file")
        }
    }
}

#[test]
fn is_srctar_zst() {
    let opt = opts(None, Some("test.tar.zst"), "test");
    match opt.srctar_compression_type() {
        Ok(c) => assert_eq!(true, matches!(c, Compression::Zst)),
        Err(err) => {
            println!("Expected zstd compressed file, got `{}`", err.message());
            panic!("Not a zst compressed tar file")
        }
    }
}

#[test]
fn is_srctar_gz() {
    let opt = opts(None, Some("test.tar.gz"), "test");
    match opt.srctar_compression_type() {
        Ok(c) => assert_eq!(true, matches!(c, Compression::Gz)),
        Err(err) => {
            println!("Expected gz compressed file, got `{}`", err.message());
            panic!("Not a gz compressed tar file")
        }
    }
}

#[test]
fn srckind_prefers_the_directory() {
    let opt = opts(Some("dir"), Some("src.tar.gz"), "out");
    assert_eq!(opt.srckind(), Some(SrcKind::SrcDir));
    assert_eq!(opts(None, None, "out").srckind(), None);
}

#[test]
fn compression_type_errors_name_what_was_found() {
    match opts(Some("test"), None, "test").srctar_compression_type() {
        Err(SrcTypeError::Kind(e)) => {
            assert_eq!(e.src, Some(SrcKind::SrcDir));
            assert_eq!(e.message(), "Expected `SrcKind::SrcTar`, got `SrcKind::SrcDir`");
        }
        _ => panic!("expected a kind error"),
    }
    match opts(None, None, "test").srctar_compression_type() {
        Err(SrcTypeError::Kind(e)) => {
            assert_eq!(e.src, None);
            assert_eq!(e.message(), "Could not determine src kind");
        }
        _ => panic!("expected a kind error"),
    }
    match opts(None, Some("test.tar.bz2"), "test").srctar_compression_type() {
        Err(SrcTypeError::Unsupported(e)) => assert_eq!(e.ext, Some("bz2".to_string())),
        _ => panic!("expected an unsupported extension"),
    }
    let tar_err = SrcKindError { src: Some(SrcKind::SrcTar) };
    assert_eq!(tar_err.message(), "Expected `SrcKind::SrcDir`, got `SrcKind::SrcTar`");
}

#[test]
fn names_are_shown() {
    assert_eq!(Compression::Gz.as_str(), "gz");
    assert_eq!(Compression::Xz.as_str(), "xz");
    assert_eq!(Compression::Zst.as_str(), "zst");
    assert_eq!(Compression::default(), Compression::Zst);
    assert_eq!(SrcKind::SrcTar.describe(), "SrcKind::SrcTar");
    assert_eq!(SrcKind::SrcDir.describe(), "SrcKind::SrcDir");
}

#[test]
fn tarball_compression_and_unpacking() {
    let zst_header = [0x28, 0xb5, 0x2f, 0xfd, 0x00, 0x00];
    let tar = SrcTar { srctar: "/srv/prj-1.0.tar.zst".to_string() };
    assert_eq!(tar.get_compression(true, &zst_header).unwrap(), Compression::Zst);
    let unpack = tar.decompress("/tmp/work", true, &zst_header).unwrap();
    assert_eq!(unpack.compression, Compression::Zst);
    assert_eq!(unpack.archive, "/srv/prj-1.0.tar.zst");
    assert_eq!(unpack.outdir, "/tmp/work");
    let bad = SrcTar { srctar: "/srv/prj-1.0.zip".to_string() };
    let png_header = [0x89, 0x50, 0x4e, 0x47, 0x0d, 0x0a, 0x1a, 0x0a];
    assert_eq!(
        bad.decompress("/tmp/work", true, &png_header).unwrap_err().ext,
        Some("image/png".to_string())
    );
}

#[test]
fn tarball_decoder_follows_content_not_name() {
    let gz_header = [0x1f, 0x8b, 0x08, 0x00];
    // Misnamed, and without an extension: the content decides.
    let misnamed = SrcTar { srctar: "prj.tar.xz".to_string() };
    assert_eq!(misnamed.decompress("w", true, &gz_header).unwrap().compression, Compression::Gz);
    let tgz = SrcTar { srctar: "prj.tgz".to_string() };
    assert_eq!(tgz.get_compression(true, &gz_header).unwrap(), Compression::Gz);
    let bare = SrcTar { srctar: "prj".to_string() };
    assert_eq!(bare.get_compression(true, &gz_header).unwrap(), Compression::Gz);
    // A path that names no file is refused as a directory.
    let missing = SrcTar { srctar: "missing.tar.gz".to_string() };
    assert_eq!(
        missing.decompress("w", false, &[]).unwrap_err().ext,
        Some("Directory".to_string())
    );
}

#[test]
fn sources_vendor_the_project_dir() {
    let o = opts(None, Some("a.tar.gz"), "/out");
    let tar = SrcTar { srctar: "a.tar.gz".to_string() };
    let plan = tar.vendor(&o, "/w/prj");
    assert_eq!(plan.archive, "/out/vendor.tar.zst");
    let dir = SrcDir { srcdir: "/src".to_string() };
    assert_eq!(dir.vendor(&o, "/src").manifest_path, "/src/Cargo.toml");
}

#[test]
fn one_source_must_be_named() {
    assert_eq!(select_source(&opts(Some("d"), None, "o")), Ok(SrcKind::SrcDir));
    assert_eq!(select_source(&opts(None, Some("t"), "o")), Ok(SrcKind::SrcTar));
    assert_eq!(select_source(&opts(Some("d"), Some("t"), "o")), Err(SourceError::Both));
    assert_eq!(select_source(&opts(None, None, "o")), Err(SourceError::Neither));
    assert_eq!(SourceError::Both.message(), "Use only srcdir OR srctar");
    assert_eq!(SourceError::Neither.message(), "Must provide srcdir OR srctar");
}

#[test]
fn glob_must_match_one_path() {
    assert_eq!(select_glob_match(vec![]), Err(GlobMatchError::NoMatch));
    assert_eq!(
        select_glob_match(vec![Some("a.tar.gz".to_string())]),
        Ok("a.tar.gz".to_string())
    );
    assert_eq!(select_glob_match(vec![None]), Err(GlobMatchError::Unreadable));
    assert_eq!(
        select_glob_match(vec![Some("a".to_string()), Some("b".to_string())]),
        Err(GlobMatchError::Multiple)
    );
    assert_eq!(GlobMatchError::NoMatch.message(), "No files matched srctar glob input");
    assert_eq!(GlobMatchError::Multiple.message(), "Multiple files matched srctar glob input");
    assert_eq!(GlobMatchError::Unreadable.message(), "Glob error");
    assert_eq!(GlobMatchError::InvalidPattern.message(), "Invalid srctar glob input");
}

#[test]
fn color_follows_terminal_and_choice() {
    assert!(!use_color(false, Some(ColorChoice::Always), true));
    assert!(use_color(true, Some(ColorChoice::Always), false));
    assert!(!use_color(true, Some(ColorChoice::Never), true));
    assert!(use_color(true, Some(ColorChoice::Auto), true));
    assert!(!use_color(true, None, false));
}
