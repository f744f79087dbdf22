use obs_service_cargo::cli::{Compression, Opts};
use obs_service_cargo::utils::detect;
use obs_service_cargo::utils::path::{path_join, path_pop};
use obs_service_cargo::utils::{project_root, VendorStep};
use obs_service_cargo::utils::{
    cargotomls, compression_for_extension, get_compression_type, manifest_candidate, vendor_plan,
    UnsupportedExtError,
};

fn opts_with(compression: Compression, outdir: &str) -> Opts {
    Opts {
        srctar: None,
        srcdir: None,
        compression,
        tag: None,
        cargotoml: Vec::new(),
        update: true,
        outdir: outdir.to_string(),
        color: None,
    }
}

#[test]
fn unsupported_extensions() {
    let unsupported_exts = vec!["/uwu.txt", "muwu.mi", "uwu.zip"];
    for someext in unsupported_exts {
        assert_eq!(true, get_compression_type(someext).is_err());
    }
}

#[test]
fn supported_extensions() {
    let supported_exts = vec!["uwu.tar.xz", "uwu.tar.zst", "uwu.tar.zstd", "uwu.tar.gz"];
    for someext in supported_exts {
        assert_eq!(true, get_compression_type(someext).is_ok());
    }
}

#[test]
fn extension_picks_the_compression() {
    assert_eq!(get_compression_type("uwu.tar.xz").unwrap(), Compression::Xz);
    assert_eq!(get_compression_type("uwu.tar.zst").unwrap(), Compression::Zst);
    assert_eq!(get_compression_type("uwu.tar.zstd").unwrap(), Compression::Zst);
    assert_eq!(get_compression_type("/srv/uwu.tar.gz").unwrap(), Compression::Gz);
}

#[test]
fn unsupported_extension_is_carried_in_the_error() {
    let err = get_compression_type("uwu.zip").unwrap_err();
    assert_eq!(err.ext, Some("zip".to_string()));
    assert_eq!(
        err.message(),
        "zip is unsupported. If you think this is incorrect, please open an issue at https://github.com/uncomfyhalomacro/obs-service-cargo_vendor-rs/issues."
    );
}

#[test]
fn missing_extension_is_an_error_without_extension() {
    let err = get_compression_type("uwu").unwrap_err();
    assert_eq!(err.ext, None);
    assert_eq!(
        err.message(),
        "No extension found for file. Please check if file has an extension or if it is actually a file."
    );
    // A hidden file has no extension either.
    assert_eq!(get_compression_type("dir/.gz").unwrap_err().ext, None);
    assert_eq!(get_compression_type("vendor").unwrap_err().ext, None);
    assert_eq!(get_compression_type(".gz").unwrap_err().ext, None);
}

#[test]
fn extension_classification_by_value() {
    assert_eq!(compression_for_extension(Some("gz".to_string())).unwrap(), Compression::Gz);
    assert_eq!(compression_for_extension(Some("zstd".to_string())).unwrap(), Compression::Zst);
    let err: UnsupportedExtError = compression_for_extension(Some("gzip".to_string())).unwrap_err();
    assert_eq!(err.ext, Some("gzip".to_string()));
    assert_eq!(compression_for_extension(None).unwrap_err().ext, None);
}

#[test]
fn vendor_plan_names_its_files() {
    let opts = opts_with(Compression::Zst, "/out");
    let plan = vendor_plan(&opts, "/tmp/prj", None);
    assert_eq!(plan.prjdir, "/tmp/prj");
    assert_eq!(plan.manifest_path, "/tmp/prj/Cargo.toml");
    assert_eq!(plan.cargo_config, "/out/cargo_config");
    assert_eq!(plan.vendor_dir, "/tmp/prj/vendor/");
    assert_eq!(plan.archive, "/out/vendor.tar.zst");
    assert_eq!(plan.compression, Compression::Zst);
    assert!(plan.update);
    assert_eq!(plan.update_args, vec!["update", "-vv", "--manifest-path", "/tmp/prj/Cargo.toml"]);
    assert_eq!(plan.vendor_args, vec!["vendor", "-vv", "--manifest-path", "/tmp/prj/Cargo.toml"]);
}

#[test]
fn named_vendor_plan_prefixes_its_files() {
    let mut opts = opts_with(Compression::Gz, "out/");
    opts.update = false;
    let plan = vendor_plan(&opts, "prj/", Some("sub-vendor"));
    assert_eq!(plan.cargo_config, "out/sub-vendor_cargo_config");
    assert_eq!(plan.archive, "out/sub-vendor.tar.gz");
    assert_eq!(plan.manifest_path, "prj/Cargo.toml");
    assert!(!plan.update);
    // Naming it `vendor` is the plain case.
    assert_eq!(vendor_plan(&opts, "prj", Some("vendor")).cargo_config, "out/cargo_config");
}

#[test]
fn vendor_archive_is_recognized_by_its_name() {
    for c in [Compression::Gz, Compression::Xz, Compression::Zst] {
        let opts = opts_with(c, "/out");
        let plan = vendor_plan(&opts, "/tmp/prj", Some("x"));
        assert_eq!(get_compression_type(&plan.archive).unwrap(), c);
    }
}

#[test]
fn subcrates_are_vendored_under_their_directory_name() {
    let mut opts = opts_with(Compression::Xz, "/out");
    opts.cargotoml = vec!["crates/sub/Cargo.toml".to_string(), "Cargo.toml".to_string()];
    let jobs = cargotomls(&opts, "/work");
    assert_eq!(jobs.len(), 2);
    assert_eq!(jobs[0].dir, "/work/crates/sub");
    let plan = jobs[0].plan.as_ref().unwrap();
    assert_eq!(plan.archive, "/out/sub-vendor.tar.xz");
    assert_eq!(plan.cargo_config, "/out/sub-vendor_cargo_config");
    assert_eq!(plan.manifest_path, "/work/crates/sub/Cargo.toml");
    assert_eq!(jobs[1].dir, "/work");
    assert_eq!(jobs[1].plan.as_ref().unwrap().archive, "/out/work-vendor.tar.xz");
}

#[test]
fn subcrate_at_root_has_no_name() {
    let mut opts = opts_with(Compression::Xz, "/out");
    opts.cargotoml = vec!["Cargo.toml".to_string()];
    let jobs = cargotomls(&opts, "/");
    assert_eq!(jobs[0].dir, "/");
    assert!(jobs[0].plan.is_none());
}

#[test]
fn manifest_is_looked_for_in_each_entry() {
    assert_eq!(manifest_candidate("/tmp/w/prj"), Some("/tmp/w/prj/Cargo.toml".to_string()));
    assert_eq!(manifest_candidate("prj/"), Some("prj/Cargo.toml".to_string()));
}

#[test]
fn content_picks_the_compression() {
    let gz = [0x1f, 0x8b, 0x08, 0x00, 0x00, 0x00];
    let xz = [0xfd, 0x37, 0x7a, 0x58, 0x5a, 0x00, 0x00];
    let zst = [0x28, 0xb5, 0x2f, 0xfd, 0x00];
    assert_eq!(detect::get_compression_type(true, &gz).unwrap(), Compression::Gz);
    assert_eq!(detect::get_compression_type(true, &xz).unwrap(), Compression::Xz);
    assert_eq!(detect::get_compression_type(true, &zst).unwrap(), Compression::Zst);
}

#[test]
fn content_errors_carry_what_was_found() {
    let png = [0x89, 0x50, 0x4e, 0x47, 0x0d, 0x0a, 0x1a, 0x0a];
    assert_eq!(
        detect::get_compression_type(true, &png).unwrap_err().ext,
        Some("image/png".to_string())
    );
    assert_eq!(
        detect::get_compression_type(true, b"plain text").unwrap_err().ext,
        Some("unknown mime type".to_string())
    );
    assert_eq!(
        detect::get_compression_type(false, &[0x1f, 0x8b, 0x08]).unwrap_err().ext,
        Some("Directory".to_string())
    );
}

#[test]
fn mime_classification_by_value() {
    assert_eq!(
        detect::compression_for_mime(Some("application/zstd".to_string())).unwrap(),
        Compression::Zst
    );
    assert_eq!(
        detect::compression_for_mime(None).unwrap_err().ext,
        Some("unknown mime type".to_string())
    );
}

#[test]
fn expected_extensions_per_compression() {
    assert!(detect::has_expected_extension(Compression::Gz, "gzip"));
    assert!(detect::has_expected_extension(Compression::Gz, "gz"));
    assert!(detect::has_expected_extension(Compression::Zst, "zstd"));
    assert!(detect::has_expected_extension(Compression::Xz, "xz"));
    assert!(!detect::has_expected_extension(Compression::Xz, "gz"));
    assert!(!detect::has_expected_extension(Compression::Zst, "unknown extension"));
}

#[test]
fn subcrate_of_the_readme_example() {
    let mut opts = opts_with(Compression::Zst, "/out");
    opts.cargotoml = vec!["s390-tools/rust/utils/Cargo.toml".to_string()];
    let jobs = cargotomls(&opts, "/work");
    assert_eq!(jobs[0].dir, "/work/s390-tools/rust/utils");
    let plan = jobs[0].plan.as_ref().unwrap();
    assert_eq!(plan.archive, "/out/utils-vendor.tar.zst");
    assert_eq!(plan.cargo_config, "/out/utils-vendor_cargo_config");
}

#[test]
fn subcrate_manifest_at_a_relative_root() {
    let mut opts = opts_with(Compression::Gz, "out");
    opts.cargotoml = vec!["Cargo.toml".to_string()];
    let jobs = cargotomls(&opts, "");
    assert_eq!(jobs[0].dir, "");
    assert!(jobs[0].plan.is_none());
}

#[test]
fn project_root_is_the_first_entry_with_a_manifest() {
    let entries = vec![
        ("/w/notes".to_string(), false),
        ("/w/prj".to_string(), true),
        ("/w/other".to_string(), true),
    ];
    assert_eq!(project_root(&entries), Some("/w/prj".to_string()));
    // A relative entry is put under the root.
    assert_eq!(project_root(&vec![("prj".to_string(), true)]), Some("/prj".to_string()));
    assert_eq!(project_root(&vec![("/w/a".to_string(), false)]), None);
    assert_eq!(project_root(&Vec::new()), None);
    // An entry whose root is `/` itself gives none.
    assert_eq!(project_root(&vec![("".to_string(), true)]), None);
}

#[test]
fn vendor_run_steps() {
    let mut opts = opts_with(Compression::Zst, "/out");
    let plan = vendor_plan(&opts, "/p", None);
    assert_eq!(plan.next_step(VendorStep::Start, true), VendorStep::Update);
    assert_eq!(plan.next_step(VendorStep::Update, false), VendorStep::Vendor);
    assert_eq!(plan.next_step(VendorStep::Vendor, true), VendorStep::WriteConfig);
    assert_eq!(plan.next_step(VendorStep::Vendor, false), VendorStep::Pack);
    assert_eq!(plan.next_step(VendorStep::WriteConfig, true), VendorStep::Pack);
    assert_eq!(plan.next_step(VendorStep::WriteConfig, false), VendorStep::Failed);
    assert_eq!(plan.next_step(VendorStep::Pack, true), VendorStep::Finished);
    assert_eq!(plan.next_step(VendorStep::Pack, false), VendorStep::Failed);
    opts.update = false;
    let plan = vendor_plan(&opts, "/p", None);
    assert_eq!(plan.next_step(VendorStep::Start, true), VendorStep::Vendor);
}

#[test]
fn paths_are_joined_as_pathbuf_does() {
    for (base, rel) in [("/tmp", "file.bk"), ("/tmp/", "x"), ("", "x"), ("/tmp", "/etc"), ("a", "")] {
        let mut expected = std::path::PathBuf::from(base);
        expected.push(rel);
        assert_eq!(path_join(base, rel), expected.to_string_lossy());
    }
    assert_eq!(path_pop("/foo/bar"), "/foo");
    assert_eq!(path_pop("/foo"), "/");
    assert_eq!(path_pop("foo"), "");
    assert_eq!(path_pop("/"), "/");
}
