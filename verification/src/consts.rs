//! Names and texts shared by the service.
use vstd::prelude::*;

verus! {

/// Prefix of the temporary working directory.
pub const PREFIX: &'static str = ".obs-service-cargo-vendor";

/// Closing advice printed after a successful run.
pub const VENDOR_EXAMPLE: &'static str =
    "Examples of how to modify your spec file to use vendored libraries can be found online:

https://en.opensuse.org/Packaging_Rust_Software#Creating_the_Package

WARNING: To avoid cargo install rebuilding the binary in the install stage
         all environment variables must be the same as in the build stage.
";

/// MIME type reported for xz compressed data.
pub const XZ_MIME: &'static str = "application/x-xz";

/// MIME type reported for zstd compressed data.
pub const ZST_MIME: &'static str = "application/zstd";

/// MIME type reported for gzip compressed data.
pub const GZ_MIME: &'static str = "application/gzip";

/// File name of a cargo manifest.
pub const MANIFEST_FILE: &'static str = "Cargo.toml";

} // verus!
