//! Deciding what the service does with sources and vendored dependencies.
pub mod detect;
pub mod path;

use vstd::prelude::*;

use crate::cli::{Compression, Opts};
use crate::consts::MANIFEST_FILE;
use self::path::{
    joined, last_segment, lemma_joined_ends_with, lemma_last_segment_after_slash, lemma_joined_file_name, lemma_plain_extension, path_extension,
    path_extension_of, path_file_name, path_file_name_of, path_join, path_parent, path_parent_of,
    path_pop, paths_equal_of, plain_extension, plain_file_name, plain_parent,
    plain_without_extension, popped, same_path,
};

verus! {

/// A file whose compression cannot be told from its name or content.
#[derive(Debug)]
pub struct UnsupportedExtError {
    /// The offending extension or type, if there was one.
    pub ext: Option<String>,
}

impl View for UnsupportedExtError {
    type V = Option<Seq<char>>;

    open spec fn view(&self) -> Option<Seq<char>> {
        self.ext.deep_view()
    }
}

/// Text of the message for a file without an extension.
pub open spec fn no_extension_message() -> Seq<char> {
    "No extension found for file. Please check if file has an extension or if it is actually a file."@
}

/// Text that follows an unsupported extension in its message.
pub open spec fn unsupported_suffix() -> Seq<char> {
    " is unsupported. If you think this is incorrect, please open an issue at https://github.com/uncomfyhalomacro/obs-service-cargo_vendor-rs/issues."@
}

impl UnsupportedExtError {
    /// The message shown for this error.
    pub open spec fn spec_message(self) -> Seq<char> {
        match self@ {
            None => no_extension_message(),
            Some(ext) => ext + unsupported_suffix(),
        }
    }

    /// The message shown for this error.
    pub fn message(&self) -> (r: String)
        ensures
            r@ == self.spec_message(),
    {
        match &self.ext {
            None => String::from_str(
                "No extension found for file. Please check if file has an extension or if it is actually a file.",
            ),
            Some(ext) => {
                let mut msg = ext.clone();
                msg.append(
                    " is unsupported. If you think this is incorrect, please open an issue at https://github.com/uncomfyhalomacro/obs-service-cargo_vendor-rs/issues.",
                );
                msg
            },
        }
    }
}

/// The compression that a supported extension stands for.
pub open spec fn compression_of_extension(ext: Seq<char>) -> Option<Compression> {
    if ext == seq!['z', 's', 't'] || ext == seq!['z', 's', 't', 'd'] {
        Some(Compression::Zst)
    } else if ext == seq!['g', 'z'] {
        Some(Compression::Gz)
    } else if ext == seq!['x', 'z'] {
        Some(Compression::Xz)
    } else {
        None
    }
}

/// Classification of an (optional) extension: the compression it stands for,
/// or the error, which carries the extension when there is one.
pub open spec fn classify_extension(ext: Option<Seq<char>>) -> Result<Compression, Option<Seq<char>>> {
    match ext {
        None => Err(None),
        Some(e) => match compression_of_extension(e) {
            Some(c) => Ok(c),
            None => Err(Some(e)),
        },
    }
}

/// A classification result seen through the view of its error.
pub open spec fn result_view(r: Result<Compression, UnsupportedExtError>) -> Result<Compression, Option<Seq<char>>> {
    match r {
        Ok(c) => Ok(c),
        Err(e) => Err(e@),
    }
}

/// Whether `s` holds the text `lit`.
fn text_is(s: &String, lit: &str) -> (r: bool)
    ensures
        r == (s@ == lit@),
{
    *s == String::from_str(lit)
}

/// The compression that an extension stands for: `zst` and `zstd` for
/// Zstandard, `gz` for gzip, `xz` for xz; any other extension, or none, is an
/// error that carries it.
pub fn compression_for_extension(ext: Option<String>) -> (r: Result<Compression, UnsupportedExtError>)
    ensures
        result_view(r) == classify_extension(ext.deep_view()),
{
    proof {
        reveal_strlit("zst");
        reveal_strlit("zstd");
        reveal_strlit("gz");
        reveal_strlit("xz");
        assert("zst"@ =~= seq!['z', 's', 't']);
        assert("zstd"@ =~= seq!['z', 's', 't', 'd']);
        assert("gz"@ =~= seq!['g', 'z']);
        assert("xz"@ =~= seq!['x', 'z']);
    }
    match ext {
        Some(s) => {
            if text_is(&s, "zst") || text_is(&s, "zstd") {
                Ok(Compression::Zst)
            } else if text_is(&s, "gz") {
                Ok(Compression::Gz)
            } else if text_is(&s, "xz") {
                Ok(Compression::Xz)
            } else {
                Err(UnsupportedExtError { ext: Some(s) })
            }
        },
        None => Err(UnsupportedExtError { ext: None }),
    }
}

/// The compression of a file, told by the extension of its name.
pub fn get_compression_type(file: &str) -> (r: Result<Compression, UnsupportedExtError>)
    ensures
        result_view(r) == classify_extension(path_extension_of(file@)),
        plain_extension(file@) is Some ==> result_view(r) == classify_extension(plain_extension(file@)),
        plain_without_extension(file@) ==> result_view(r) == Err::<Compression, Option<Seq<char>>>(None),
{
    compression_for_extension(path_extension(file))
}

/// The texts of a list of arguments.
pub open spec fn args_view(args: Vec<String>) -> Seq<Seq<char>> {
    args@.map_values(|a: String| a@)
}

/// The arguments of a verbose cargo subcommand run on a given manifest.
pub open spec fn cargo_args(cmd: Seq<char>, manifest: Seq<char>) -> Seq<Seq<char>> {
    seq![cmd, "-vv"@, "--manifest-path"@, manifest]
}

/// The arguments of a verbose cargo subcommand run on a given manifest.
fn make_cargo_args(cmd: &str, manifest: &String) -> (r: Vec<String>)
    ensures
        args_view(r) == cargo_args(cmd@, manifest@),
{
    let mut args: Vec<String> = Vec::new();
    args.push(String::from_str(cmd));
    args.push(String::from_str("-vv"));
    args.push(String::from_str("--manifest-path"));
    args.push(manifest.clone());
    assert(args_view(args) =~= cargo_args(cmd@, manifest@));
    args
}

/// The name that the vendored files are known by: the given one, else `vendor`.
pub open spec fn vendor_stem(vendorname: Option<Seq<char>>) -> Seq<char> {
    match vendorname {
        Some(name) => name,
        None => "vendor"@,
    }
}

/// The file the cargo configuration goes to: `cargo_config` for the plain
/// vendor, `<name>_cargo_config` for a named one.
pub open spec fn cargo_config_name(stem: Seq<char>) -> Seq<char> {
    if stem == "vendor"@ {
        "cargo_config"@
    } else {
        stem + "_cargo_config"@
    }
}

/// The file name of the vendor tarball: `<name>.tar.<compression>`.
pub open spec fn archive_name(stem: Seq<char>, compression: Compression) -> Seq<char> {
    stem + seq!['.', 't', 'a', 'r', '.'] + compression.spec_name()
}

/// The steps of vendoring one project: optionally update its lock file, run
/// `cargo vendor`, keep the configuration it prints, and pack the `vendor/`
/// directory into a tarball in the output directory.
#[derive(Debug)]
pub struct VendorPlan {
    /// The project directory, where cargo runs.
    pub prjdir: String,
    /// The project's manifest.
    pub manifest_path: String,
    /// Whether to update dependencies first.
    pub update: bool,
    /// The arguments of `cargo update`.
    pub update_args: Vec<String>,
    /// The arguments of `cargo vendor`.
    pub vendor_args: Vec<String>,
    /// Where the printed cargo configuration is written, in the output
    /// directory.
    pub cargo_config: String,
    /// The directory that `cargo vendor` fills.
    pub vendor_dir: String,
    /// The tarball to write.
    pub archive: String,
    /// Its compression.
    pub compression: Compression,
}

impl VendorPlan {
    /// This is the plan for vendoring the project at `prjdir` under `opts`,
    /// with the vendored files named after `vendorname`.
    pub open spec fn spec_is_plan(self, opts: Opts, prjdir: Seq<char>, vendorname: Option<Seq<char>>) -> bool {
        let manifest = joined(prjdir, "Cargo.toml"@);
        let stem = vendor_stem(vendorname);
        &&& self.prjdir@ == prjdir
        &&& self.manifest_path@ == manifest
        &&& self.update == opts.update
        &&& args_view(self.update_args) == cargo_args("update"@, manifest)
        &&& args_view(self.vendor_args) == cargo_args("vendor"@, manifest)
        &&& self.cargo_config@ == joined(opts.outdir@, cargo_config_name(stem))
        &&& self.vendor_dir@ == joined(prjdir, "vendor/"@)
        &&& self.archive@ == joined(opts.outdir@, archive_name(stem, opts.compression))
        &&& self.compression == opts.compression
    }
}

/// Where a vendor run stands: about to start, running one of its steps, or
/// done (finished or failed).
#[derive(Clone, Copy, Debug, PartialEq, Eq, Structural)]
pub enum VendorStep {
    /// Nothing has run yet.
    Start,
    /// `cargo update` with the plan's arguments.
    Update,
    /// `cargo vendor` with the plan's arguments.
    Vendor,
    /// Writing what `cargo vendor` printed to the plan's config file.
    WriteConfig,
    /// Packing the vendor directory into the plan's tarball.
    Pack,
    /// All done.
    Finished,
    /// A step that must succeed failed; its error is the run's error.
    Failed,
}

/// The step that follows `step` of a vendor run, given whether `step`
/// succeeded: an update is done only when asked for and its failure is only
/// reported; the configuration is written only when `cargo vendor` succeeded,
/// and its failure is only reported too, the tarball is packed in any case;
/// failing to write the configuration or the tarball fails the run.
pub open spec fn spec_next_vendor_step(update: bool, step: VendorStep, succeeded: bool) -> VendorStep {
    match step {
        VendorStep::Start => if update {
            VendorStep::Update
        } else {
            VendorStep::Vendor
        },
        VendorStep::Update => VendorStep::Vendor,
        VendorStep::Vendor => if succeeded {
            VendorStep::WriteConfig
        } else {
            VendorStep::Pack
        },
        VendorStep::WriteConfig => if succeeded {
            VendorStep::Pack
        } else {
            VendorStep::Failed
        },
        VendorStep::Pack => if succeeded {
            VendorStep::Finished
        } else {
            VendorStep::Failed
        },
        VendorStep::Finished => VendorStep::Finished,
        VendorStep::Failed => VendorStep::Failed,
    }
}

impl VendorPlan {
    /// The step of this plan's run that follows `step`, given whether `step`
    /// succeeded (what `succeeded` says of `Start` and of the final steps does
    /// not matter).
    pub fn next_step(&self, step: VendorStep, succeeded: bool) -> (r: VendorStep)
        ensures
            r == spec_next_vendor_step(self.update, step, succeeded),
    {
        match step {
            VendorStep::Start => if self.update {
                VendorStep::Update
            } else {
                VendorStep::Vendor
            },
            VendorStep::Update => VendorStep::Vendor,
            VendorStep::Vendor => if succeeded {
                VendorStep::WriteConfig
            } else {
                VendorStep::Pack
            },
            VendorStep::WriteConfig => if succeeded {
                VendorStep::Pack
            } else {
                VendorStep::Failed
            },
            VendorStep::Pack => if succeeded {
                VendorStep::Finished
            } else {
                VendorStep::Failed
            },
            VendorStep::Finished => VendorStep::Finished,
            VendorStep::Failed => VendorStep::Failed,
        }
    }
}

/// How to vendor the dependencies of the project at `prjdir` as `opts` ask,
/// with the vendored files named after `vendorname` (`vendor` if none).
pub fn vendor_plan(opts: &Opts, prjdir: &str, vendorname: Option<&str>) -> (r: VendorPlan)
    ensures
        r.spec_is_plan(*opts, prjdir@, vendorname.deep_view()),
{
    let manifest_path = path_join(prjdir, MANIFEST_FILE);
    proof {
        reveal_strlit("Cargo.toml");
        assert(MANIFEST_FILE@ =~= "Cargo.toml"@);
    }
    let stem = match vendorname {
        Some(name) => String::from_str(name),
        None => String::from_str("vendor"),
    };
    let config_name = if text_is(&stem, "vendor") {
        String::from_str("cargo_config")
    } else {
        let mut config = stem.clone();
        config.append("_cargo_config");
        config
    };
    let cargo_config = path_join(&opts.outdir, config_name.as_str());
    let update_args = make_cargo_args("update", &manifest_path);
    let vendor_args = make_cargo_args("vendor", &manifest_path);
    let vendor_dir = path_join(prjdir, "vendor/");
    let mut name = stem.clone();
    name.append(".tar.");
    name.append(opts.compression.as_str());
    proof {
        reveal_strlit(".tar.");
        assert(".tar."@ =~= seq!['.', 't', 'a', 'r', '.']);
    }
    let archive = path_join(&opts.outdir, name.as_str());
    VendorPlan {
        prjdir: String::from_str(prjdir),
        manifest_path,
        update: opts.update,
        update_args,
        vendor_args,
        cargo_config,
        vendor_dir,
        archive,
        compression: opts.compression,
    }
}

/// The manifest path inside a directory, written as `<dir>/Cargo.toml`.
pub fn manifest_in(dir: &str) -> (r: String)
    ensures
        r@ == dir@ + "/"@ + "Cargo.toml"@,
{
    let mut path = String::from_str(dir);
    path.append("/");
    path.append(MANIFEST_FILE);
    proof {
        reveal_strlit("Cargo.toml");
        assert(MANIFEST_FILE@ =~= "Cargo.toml"@);
    }
    path
}

/// The project root that a directory entry holding a manifest gives: the
/// parent of `<entry>/Cargo.toml` put under `/`, unless that is the root
/// itself.
pub open spec fn root_from_entry(entry: Seq<char>) -> Option<Seq<char>> {
    match path_parent_of(entry + "/"@ + "Cargo.toml"@) {
        Some(parent) => {
            let root = joined(seq!['/'], parent);
            if paths_equal_of(root, seq!['/']) {
                None
            } else {
                Some(root)
            }
        },
        None => None,
    }
}

/// Entry `i` is the first one that holds a manifest.
pub open spec fn is_first_with_manifest(entries: Seq<(String, bool)>, i: int) -> bool {
    &&& 0 <= i < entries.len()
    &&& entries[i].1
    &&& forall|j: int| 0 <= j < i ==> !(#[trigger] entries[j]).1
}

/// The project root among the entries of a directory, each with whether
/// `<entry>/Cargo.toml` is a file: the first entry that holds one gives it;
/// none is found when no entry holds one, or when the root it gives is `/`.
pub fn project_root(entries: &Vec<(String, bool)>) -> (r: Option<String>)
    ensures
        (forall|j: int| 0 <= j < entries.len() ==> !(#[trigger] entries[j]).1) ==> r is None,
        forall|i: int|
            is_first_with_manifest(entries@, i) ==> r.deep_view() == root_from_entry(
                (#[trigger] entries[i]).0@,
            ),
{
    proof {
        reveal_strlit("/");
        assert("/"@ =~= seq!['/']);
    }
    let mut i: usize = 0;
    while i < entries.len()
        invariant
            i <= entries.len(),
            "/"@ == seq!['/'],
            forall|j: int| 0 <= j < i ==> !(#[trigger] entries[j]).1,
        decreases entries.len() - i,
    {
        if entries[i].1 {
            proof {
                assert forall|k: int| is_first_with_manifest(entries@, k) implies k == i by {
                    if k < i {
                        assert(!entries[k].1);
                    } else if k > i {
                        assert(!entries[i as int].1);
                    }
                }
            }
            let entry = entries[i].0.as_str();
            let manifest = manifest_in(entry);
            let found = match path_parent(manifest.as_str()) {
                Some(parent) => {
                    let root = path_join("/", parent.as_str());
                    if same_path(root.as_str(), "/") {
                        None
                    } else {
                        Some(root)
                    }
                },
                None => None,
            };
            return found;
        }
        i = i + 1;
    }
    None
}

/// The manifest that a directory entry is taken to hold: the entry joined with
/// `Cargo.toml`, kept when its final component is `Cargo.toml`, which it
/// always is.
pub fn manifest_candidate(entry: &str) -> (r: Option<String>)
    ensures
        r.deep_view() == Some(joined(entry@, "Cargo.toml"@)),
{
    proof {
        reveal_strlit("Cargo.toml");
        assert(MANIFEST_FILE@ =~= "Cargo.toml"@);
        lemma_joined_file_name(entry@, "Cargo.toml"@);
    }
    let dir = path_join(entry, MANIFEST_FILE);
    match path_file_name(dir.as_str()) {
        Some(name) => {
            if text_is(&name, MANIFEST_FILE) {
                Some(dir)
            } else {
                None
            }
        },
        None => None,
    }
}

/// Vendoring one of the extra manifests: the directory that holds it, and the
/// plan for vendoring it under the name `<directory name>-vendor`, when that
/// directory has a name.
#[derive(Debug)]
pub struct SubcrateJob {
    /// The subproject's directory.
    pub dir: String,
    /// How to vendor it, if its directory has a name.
    pub plan: Option<VendorPlan>,
}

impl SubcrateJob {
    /// This is the job for the manifest `toml`, relative to `workdir`.
    pub open spec fn spec_is_job(self, opts: Opts, workdir: Seq<char>, toml: Seq<char>) -> bool {
        let dir = popped(joined(workdir, toml));
        &&& self.dir@ == dir
        &&& plain_parent(joined(workdir, toml)) matches Some(d) ==> self.dir@ == d
        &&& plain_file_name(self.dir@) matches Some(base) ==> self.plan matches Some(plan)
            && plan.spec_is_plan(opts, self.dir@, Some(base + "-vendor"@))
        &&& match path_file_name_of(dir) {
            Some(base) => self.plan matches Some(plan) && plan.spec_is_plan(
                opts,
                dir,
                Some(base + "-vendor"@),
            ),
            None => self.plan is None,
        }
    }
}

/// How to vendor each of the extra manifests that `opts` name, in order,
/// relative to `workdir`.
pub fn cargotomls(opts: &Opts, workdir: &str) -> (r: Vec<SubcrateJob>)
    ensures
        r.len() == opts.cargotoml.len(),
        forall|i: int|
            0 <= i < r.len() ==> (#[trigger] r[i]).spec_is_job(*opts, workdir@, opts.cargotoml[i]@),
{
    let mut jobs: Vec<SubcrateJob> = Vec::new();
    let n = opts.cargotoml.len();
    for i in 0..n
        invariant
            n == opts.cargotoml.len(),
            jobs.len() == i,
            forall|j: int|
                0 <= j < i ==> (#[trigger] jobs[j]).spec_is_job(*opts, workdir@, opts.cargotoml[j]@),
    {
        let joined_path = path_join(workdir, opts.cargotoml[i].as_str());
        let dir = path_pop(joined_path.as_str());
        let plan = match path_file_name(dir.as_str()) {
            Some(base) => {
                let mut name = base.clone();
                name.append("-vendor");
                Some(vendor_plan(opts, dir.as_str(), Some(name.as_str())))
            },
            None => None,
        };
        jobs.push(SubcrateJob { dir, plan });
    }
    jobs
}

/// Every compression is recognized by the extension it is named by.
pub proof fn lemma_name_is_recognized(c: Compression)
    ensures
        compression_of_extension(c.spec_name()) == Some(c),
        classify_extension(Some(c.spec_name())) == Ok::<Compression, Option<Seq<char>>>(c),
{
}

/// The tarball that a vendor plan writes is recognized by its name as
/// compressed the way the options asked: unpacking it later picks the
/// matching decoder.
pub proof fn lemma_vendor_archive_is_recognized(
    plan: VendorPlan,
    opts: Opts,
    prjdir: Seq<char>,
    vendorname: Option<Seq<char>>,
)
    requires
        plan.spec_is_plan(opts, prjdir, vendorname),
    ensures
        plain_extension(plan.archive@) == Some(opts.compression.spec_name()),
        classify_extension(plain_extension(plan.archive@)) == Ok::<Compression, Option<Seq<char>>>(opts.compression),
{
    let stem = vendor_stem(vendorname);
    let e = opts.compression.spec_name();
    let rel = archive_name(stem, opts.compression);
    lemma_joined_ends_with(opts.outdir@, rel);
    let head = choose|head: Seq<char>| joined(opts.outdir@, rel) == #[trigger] (head + rel);
    let q = head + stem + seq!['.', 't', 'a', 'r'];
    assert(plan.archive@ =~= q + seq!['.'] + e);
    assert(q.last() == 'r');
    lemma_plain_extension(q, e);
    lemma_name_is_recognized(opts.compression);
}

/// Which extensions are recognized, and as what: `zst` and `zstd` as
/// Zstandard, `gz` as gzip, `xz` as xz.  Every other extension is refused with
/// an error carrying it, and a file without extension is refused without one.
pub proof fn lemma_recognized_extensions(ext: Seq<char>)
    ensures
        classify_extension(None) == Err::<Compression, Option<Seq<char>>>(None),
        ext == seq!['z', 's', 't'] ==> classify_extension(Some(ext)) == Ok::<
            Compression,
            Option<Seq<char>>,
        >(Compression::Zst),
        ext == seq!['z', 's', 't', 'd'] ==> classify_extension(Some(ext)) == Ok::<
            Compression,
            Option<Seq<char>>,
        >(Compression::Zst),
        ext == seq!['g', 'z'] ==> classify_extension(Some(ext)) == Ok::<
            Compression,
            Option<Seq<char>>,
        >(Compression::Gz),
        ext == seq!['x', 'z'] ==> classify_extension(Some(ext)) == Ok::<
            Compression,
            Option<Seq<char>>,
        >(Compression::Xz),
        ext != seq!['z', 's', 't'] && ext != seq!['z', 's', 't', 'd'] && ext != seq!['g', 'z']
            && ext != seq!['x', 'z'] ==> classify_extension(Some(ext)) == Err::<
            Compression,
            Option<Seq<char>>,
        >(Some(ext)),
{
}

/// An extension that is recognized as a compression is the name of that
/// compression, or `zstd` for Zstandard; an error always carries the
/// extension it refused.
pub proof fn lemma_recognized_extension_names_its_compression(ext: Option<Seq<char>>)
    ensures
        classify_extension(ext) matches Ok(c) ==> ext == Some(c.spec_name()) || (c
            == Compression::Zst && ext == Some(seq!['z', 's', 't', 'd'])),
        classify_extension(ext) matches Err(e) ==> e == ext,
{
}

/// Where a vendor run goes from each step.  A run with an update starts with
/// it, one without starts with `cargo vendor`; an update, whatever its
/// outcome, is followed by `cargo vendor`; the configuration is written
/// exactly after a successful `cargo vendor`; a failed `cargo vendor` goes on
/// to packing; only a failed write of the configuration or of the tarball
/// fails the run, and only a successful packing finishes it.
pub proof fn lemma_vendor_run_order(update: bool, step: VendorStep, succeeded: bool)
    ensures
        spec_next_vendor_step(true, VendorStep::Start, succeeded) == VendorStep::Update,
        spec_next_vendor_step(false, VendorStep::Start, succeeded) == VendorStep::Vendor,
        spec_next_vendor_step(update, VendorStep::Update, succeeded) == VendorStep::Vendor,
        spec_next_vendor_step(update, VendorStep::Vendor, false) == VendorStep::Pack,
        (spec_next_vendor_step(update, step, succeeded) == VendorStep::Update) <==> (step
            == VendorStep::Start && update),
        (spec_next_vendor_step(update, step, succeeded) == VendorStep::Vendor) <==> ((step
            == VendorStep::Start && !update) || step == VendorStep::Update),
        (spec_next_vendor_step(update, step, succeeded) == VendorStep::WriteConfig) <==> (step
            == VendorStep::Vendor && succeeded),
        (spec_next_vendor_step(update, step, succeeded) == VendorStep::Pack) <==> ((step
            == VendorStep::Vendor && !succeeded) || (step == VendorStep::WriteConfig
            && succeeded)),
        step != VendorStep::Failed ==> ((spec_next_vendor_step(update, step, succeeded)
            == VendorStep::Failed) <==> ((step == VendorStep::WriteConfig || step
            == VendorStep::Pack) && !succeeded)),
        step != VendorStep::Finished ==> ((spec_next_vendor_step(update, step, succeeded)
            == VendorStep::Finished) <==> (step == VendorStep::Pack && succeeded)),
{
}

/// The place of a step in a vendor run.
pub open spec fn step_rank(step: VendorStep) -> int {
    match step {
        VendorStep::Start => 0,
        VendorStep::Update => 1,
        VendorStep::Vendor => 2,
        VendorStep::WriteConfig => 3,
        VendorStep::Pack => 4,
        VendorStep::Finished => 5,
        VendorStep::Failed => 5,
    }
}

/// A vendor run only moves forward: each step that is not final is followed
/// by a later one, so every step runs at most once and a run ends after at
/// most five steps; the final steps stay as they are.
pub proof fn lemma_vendor_run_moves_forward(update: bool, step: VendorStep, succeeded: bool)
    ensures
        step != VendorStep::Finished && step != VendorStep::Failed ==> step_rank(step)
            < step_rank(spec_next_vendor_step(update, step, succeeded)),
        step == VendorStep::Finished || step == VendorStep::Failed ==> spec_next_vendor_step(
            update,
            step,
            succeeded,
        ) == step,
{
}

/// What a vendor plan does not take from the name of the vendored files:
/// plans for one project under one set of options, under any two names,
/// run cargo alike on the same manifest and pack the same `vendor/`
/// directory with the same compression.
pub proof fn lemma_plan_ignores_name_for_cargo(
    p1: VendorPlan,
    p2: VendorPlan,
    opts: Opts,
    prjdir: Seq<char>,
    n1: Option<Seq<char>>,
    n2: Option<Seq<char>>,
)
    requires
        p1.spec_is_plan(opts, prjdir, n1),
        p2.spec_is_plan(opts, prjdir, n2),
    ensures
        p1.prjdir@ == p2.prjdir@,
        p1.manifest_path@ == p2.manifest_path@,
        p1.vendor_dir@ == p2.vendor_dir@,
        p1.update == p2.update,
        args_view(p1.update_args) == args_view(p2.update_args),
        args_view(p1.vendor_args) == args_view(p2.vendor_args),
        p1.compression == p2.compression,
{
}

/// The files of a vendor plan, for a project directory and an output
/// directory written without a trailing slash: the manifest is
/// `<prjdir>/Cargo.toml`; cargo runs `update` (when asked) and `vendor` as
/// `cargo <cmd> -vv --manifest-path <manifest>`; the vendored crates are in
/// `<prjdir>/vendor/`; the tarball is `<outdir>/<name>.tar.<compression>`
/// and the configuration `<outdir>/cargo_config` for the plain vendor, or
/// `<outdir>/<name>_cargo_config` for another name.
pub proof fn lemma_plan_files(
    plan: VendorPlan,
    opts: Opts,
    prjdir: Seq<char>,
    vendorname: Option<Seq<char>>,
)
    requires
        plan.spec_is_plan(opts, prjdir, vendorname),
        prjdir.len() > 0,
        prjdir.last() != '/',
        opts.outdir@.len() > 0,
        opts.outdir@.last() != '/',
    ensures
        plan.prjdir@ == prjdir,
        plan.manifest_path@ == prjdir + seq!['/', 'C', 'a', 'r', 'g', 'o', '.', 't', 'o', 'm', 'l'],
        plan.vendor_dir@ == prjdir + seq!['/', 'v', 'e', 'n', 'd', 'o', 'r', '/'],
        plan.update == opts.update,
        args_view(plan.update_args) == seq![
            seq!['u', 'p', 'd', 'a', 't', 'e'],
            seq!['-', 'v', 'v'],
            seq!['-', '-', 'm', 'a', 'n', 'i', 'f', 'e', 's', 't', '-', 'p', 'a', 't', 'h'],
            plan.manifest_path@,
        ],
        args_view(plan.vendor_args) == seq![
            seq!['v', 'e', 'n', 'd', 'o', 'r'],
            seq!['-', 'v', 'v'],
            seq!['-', '-', 'm', 'a', 'n', 'i', 'f', 'e', 's', 't', '-', 'p', 'a', 't', 'h'],
            plan.manifest_path@,
        ],
        plan.compression == opts.compression,
        vendorname is None ==> plan.archive@ == opts.outdir@ + seq![
            '/',
            'v',
            'e',
            'n',
            'd',
            'o',
            'r',
            '.',
            't',
            'a',
            'r',
            '.',
        ] + opts.compression.spec_name(),
        vendorname matches Some(n) ==> (n.len() == 0 || n[0] != '/') ==> plan.archive@ == opts.outdir@ + seq!['/'] + n + seq![
            '.',
            't',
            'a',
            'r',
            '.',
        ] + opts.compression.spec_name(),
        vendorname is None ==> plan.cargo_config@ == opts.outdir@ + seq![
            '/',
            'c',
            'a',
            'r',
            'g',
            'o',
            '_',
            'c',
            'o',
            'n',
            'f',
            'i',
            'g',
        ],
        vendorname matches Some(n) ==> (n.len() == 0 || n[0] != '/') ==> n != seq![
            'v',
            'e',
            'n',
            'd',
            'o',
            'r',
        ] ==> plan.cargo_config@
            == opts.outdir@ + seq!['/'] + n + seq![
            '_',
            'c',
            'a',
            'r',
            'g',
            'o',
            '_',
            'c',
            'o',
            'n',
            'f',
            'i',
            'g',
        ],
{
    reveal_strlit("Cargo.toml");
    reveal_strlit("vendor/");
    reveal_strlit("vendor");
    reveal_strlit("update");
    reveal_strlit("-vv");
    reveal_strlit("--manifest-path");
    reveal_strlit("cargo_config");
    reveal_strlit("_cargo_config");
    assert("Cargo.toml"@ =~= seq!['C', 'a', 'r', 'g', 'o', '.', 't', 'o', 'm', 'l']);
    assert("vendor/"@ =~= seq!['v', 'e', 'n', 'd', 'o', 'r', '/']);
    assert("vendor"@ =~= seq!['v', 'e', 'n', 'd', 'o', 'r']);
    assert("update"@ =~= seq!['u', 'p', 'd', 'a', 't', 'e']);
    assert("-vv"@ =~= seq!['-', 'v', 'v']);
    assert("--manifest-path"@ =~= seq![
        '-',
        '-',
        'm',
        'a',
        'n',
        'i',
        'f',
        'e',
        's',
        't',
        '-',
        'p',
        'a',
        't',
        'h',
    ]);
    assert("cargo_config"@ =~= seq!['c', 'a', 'r', 'g', 'o', '_', 'c', 'o', 'n', 'f', 'i', 'g']);
    assert("_cargo_config"@ =~= seq![
        '_',
        'c',
        'a',
        'r',
        'g',
        'o',
        '_',
        'c',
        'o',
        'n',
        'f',
        'i',
        'g',
    ]);
    let stem = vendor_stem(vendorname);
    assert(joined(prjdir, "Cargo.toml"@) =~= prjdir + seq!['/'] + "Cargo.toml"@);
    assert(plan.vendor_dir@ =~= prjdir + seq!['/', 'v', 'e', 'n', 'd', 'o', 'r', '/']);
    assert(plan.manifest_path@ =~= prjdir + seq![
        '/',
        'C',
        'a',
        'r',
        'g',
        'o',
        '.',
        't',
        'o',
        'm',
        'l',
    ]);
    let rel = archive_name(stem, opts.compression);
    if stem.len() == 0 || stem[0] != '/' {
        assert(rel[0] == stem.add(seq!['.', 't', 'a', 'r', '.'])[0]);
        assert(plan.archive@ =~= opts.outdir@ + seq!['/'] + rel);
        let cfg = cargo_config_name(stem);
        if stem != "vendor"@ {
            assert(cfg[0] == (stem + "_cargo_config"@)[0]);
        }
        assert(plan.cargo_config@ =~= opts.outdir@ + seq!['/'] + cfg);
    }
}

/// A project root found from an entry is absolute and is not the root
/// directory itself.
pub proof fn lemma_project_root_is_absolute(entry: Seq<char>)
    ensures
        root_from_entry(entry) matches Some(root) ==> root.len() > 0 && root[0] == '/'
            && !paths_equal_of(root, seq!['/']),
{
    match path_parent_of(entry + "/"@ + "Cargo.toml"@) {
        Some(parent) => {
            let root = joined(seq!['/'], parent);
            if !(parent.len() > 0 && parent[0] == '/') {
                assert(root =~= seq!['/'] + parent);
            }
        },
        None => {},
    }
}

/// Among the entries of a directory, the first one holding a manifest is
/// unique, and there is one as soon as any entry holds a manifest.
pub proof fn lemma_first_with_manifest(entries: Seq<(String, bool)>, i: int, j: int)
    ensures
        is_first_with_manifest(entries, i) && is_first_with_manifest(entries, j) ==> i == j,
        0 <= j < entries.len() && entries[j].1 ==> exists|k: int|
            #[trigger] is_first_with_manifest(entries, k) && k <= j,
    decreases j,
{
    if is_first_with_manifest(entries, i) && is_first_with_manifest(entries, j) {
        if i < j {
            assert(!entries[i].1);
        } else if j < i {
            assert(!entries[j].1);
        }
    }
    if 0 <= j < entries.len() && entries[j].1 {
        if exists|m: int| 0 <= m < j && (#[trigger] entries[m]).1 {
            let m = choose|m: int| 0 <= m < j && (#[trigger] entries[m]).1;
            lemma_first_with_manifest(entries, i, m);
        } else {
            assert(is_first_with_manifest(entries, j));
        }
    }
}

/// Each extra manifest is vendored in its own directory: the plan of a job,
/// when it has one, runs cargo there and packs that directory's `vendor/`,
/// under a name that ends in `-vendor`; a directory without a name gets no
/// plan.
pub proof fn lemma_subcrate_job(job: SubcrateJob, opts: Opts, workdir: Seq<char>, toml: Seq<char>)
    requires
        job.spec_is_job(opts, workdir, toml),
    ensures
        job.plan matches Some(plan) ==> plan.prjdir@ == job.dir@ && plan.vendor_dir@ == joined(
            job.dir@,
            seq!['v', 'e', 'n', 'd', 'o', 'r', '/'],
        ) && plan.manifest_path@ == joined(
            job.dir@,
            seq!['C', 'a', 'r', 'g', 'o', '.', 't', 'o', 'm', 'l'],
        ),
        job.plan matches Some(plan) ==> exists|base: Seq<char>|
            plan.spec_is_plan(opts, job.dir@, Some(#[trigger] (base + "-vendor"@))),
        path_file_name_of(job.dir@) is None ==> job.plan is None,
{
    reveal_strlit("vendor/");
    reveal_strlit("Cargo.toml");
    assert("vendor/"@ =~= seq!['v', 'e', 'n', 'd', 'o', 'r', '/']);
    assert("Cargo.toml"@ =~= seq!['C', 'a', 'r', 'g', 'o', '.', 't', 'o', 'm', 'l']);
    match path_file_name_of(job.dir@) {
        Some(base) => {
            assert(job.plan->0.spec_is_plan(opts, job.dir@, Some(base + "-vendor"@)));
        },
        None => {},
    }
}

/// An extra manifest `<sub>/Cargo.toml` under a working directory is
/// vendored in `<workdir>/<sub>`, the directory that holds it.
pub proof fn lemma_subcrate_dir(
    job: SubcrateJob,
    opts: Opts,
    workdir: Seq<char>,
    sub: Seq<char>,
)
    requires
        job.spec_is_job(opts, workdir, sub + "/Cargo.toml"@),
        workdir.len() > 0,
        workdir.last() != '/',
        sub.len() > 0,
        sub[0] != '/',
        sub.last() != '/',
        last_segment(workdir + seq!['/'] + sub) != seq!['.'],
    ensures
        job.dir@ == workdir + seq!['/'] + sub,
{
    reveal_strlit("/Cargo.toml");
    reveal_strlit("Cargo.toml");
    let name = seq!['C', 'a', 'r', 'g', 'o', '.', 't', 'o', 'm', 'l'];
    assert("/Cargo.toml"@ =~= seq!['/'] + name);
    let x = workdir + seq!['/'] + sub;
    let toml = sub + "/Cargo.toml"@;
    assert(toml[0] == sub[0]);
    let p = joined(workdir, toml);
    assert(p =~= (x + seq!['/']) + name);
    lemma_last_segment_after_slash(x + seq!['/'], name);
    assert(last_segment(p) == name);
    assert(name != seq!['.'] && name != seq!['.', '.']) by {
        assert(name.len() == 10);
    }
    assert(plain_file_name(p) == Some(name));
    let k = p.len() - name.len();
    assert(k == x.len() + 1);
    assert(p.subrange(0, k - 1) =~= x);
    assert(x.last() == sub.last());
    assert(plain_parent(p) == Some(x));
}

} // verus!
