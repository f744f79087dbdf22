//! The decisions the service makes around its I/O: which source to work
//! from, which tarball a glob picked, and whether to color its log.
use vstd::prelude::*;

use crate::cli::{ColorChoice, Opts, SrcKind};

verus! {

/// Whether to color the log: never when standard output is not a terminal;
/// otherwise as asked, where `auto` (or no choice) goes by whether the
/// terminal supports colors.
pub open spec fn spec_use_color(is_terminal: bool, color: Option<ColorChoice>, term_supports_color: bool) -> bool {
    is_terminal && match color {
        Some(ColorChoice::Always) => true,
        Some(ColorChoice::Never) => false,
        _ => term_supports_color,
    }
}

/// Whether to color the log: never when standard output is not a terminal;
/// otherwise as asked, where `auto` (or no choice) goes by whether the
/// terminal supports colors.
pub fn use_color(is_terminal: bool, color: Option<ColorChoice>, term_supports_color: bool) -> (r: bool)
    ensures
        r == spec_use_color(is_terminal, color, term_supports_color),
{
    if !is_terminal {
        return false;
    }
    match color {
        Some(ColorChoice::Always) => true,
        Some(ColorChoice::Never) => false,
        Some(ColorChoice::Auto) => term_supports_color,
        None => term_supports_color,
    }
}

/// The options name both a directory and a tarball, or neither.
#[derive(Clone, Copy, Debug, PartialEq, Eq, Structural)]
pub enum SourceError {
    Both,
    Neither,
}

impl SourceError {
    /// The message shown for this error.
    pub fn message(&self) -> (r: &'static str)
        ensures
            r@ == (match self {
                SourceError::Both => "Use only srcdir OR srctar"@,
                SourceError::Neither => "Must provide srcdir OR srctar"@,
            }),
    {
        match self {
            SourceError::Both => "Use only srcdir OR srctar",
            SourceError::Neither => "Must provide srcdir OR srctar",
        }
    }
}

/// The one source the options name; naming both, or neither, is an error.
pub open spec fn spec_select_source(opts: Opts) -> Result<SrcKind, SourceError> {
    match (opts.srcdir, opts.srctar) {
        (Some(_), None) => Ok(SrcKind::SrcDir),
        (None, Some(_)) => Ok(SrcKind::SrcTar),
        (Some(_), Some(_)) => Err(SourceError::Both),
        (None, None) => Err(SourceError::Neither),
    }
}

/// The one source the options name; naming both, or neither, is an error.
pub fn select_source(opts: &Opts) -> (r: Result<SrcKind, SourceError>)
    ensures
        r == spec_select_source(*opts),
{
    match (&opts.srcdir, &opts.srctar) {
        (Some(_), None) => Ok(SrcKind::SrcDir),
        (None, Some(_)) => Ok(SrcKind::SrcTar),
        (Some(_), Some(_)) => Err(SourceError::Both),
        (None, None) => Err(SourceError::Neither),
    }
}

/// The tarball glob could not be resolved to one readable path.
#[derive(Clone, Copy, Debug, PartialEq, Eq, Structural)]
pub enum GlobMatchError {
    /// The pattern is not a valid glob.
    InvalidPattern,
    /// Nothing matched.
    NoMatch,
    /// More than one path matched.
    Multiple,
    /// The one match could not be read.
    Unreadable,
}

impl GlobMatchError {
    /// The message shown for this error.
    pub fn message(&self) -> (r: &'static str)
        ensures
            r@ == (match self {
                GlobMatchError::InvalidPattern => "Invalid srctar glob input"@,
                GlobMatchError::NoMatch => "No files matched srctar glob input"@,
                GlobMatchError::Multiple => "Multiple files matched srctar glob input"@,
                GlobMatchError::Unreadable => "Glob error"@,
            }),
    {
        match self {
            GlobMatchError::InvalidPattern => "Invalid srctar glob input",
            GlobMatchError::NoMatch => "No files matched srctar glob input",
            GlobMatchError::Multiple => "Multiple files matched srctar glob input",
            GlobMatchError::Unreadable => "Glob error",
        }
    }
}

/// The single path that the tarball glob matched, or why there is none.
pub open spec fn spec_select_glob_match(matches: Seq<Option<String>>) -> Result<String, GlobMatchError> {
    if matches.len() == 0 {
        Err(GlobMatchError::NoMatch)
    } else if matches.len() > 1 {
        Err(GlobMatchError::Multiple)
    } else {
        match matches[0] {
            Some(p) => Ok(p),
            None => Err(GlobMatchError::Unreadable),
        }
    }
}

/// The single path that the tarball glob matched.  Each entry is a match, or
/// `None` for one that could not be read.
pub fn select_glob_match(matches: Vec<Option<String>>) -> (r: Result<String, GlobMatchError>)
    ensures
        r == spec_select_glob_match(matches@),
{
    let mut matches = matches;
    if matches.len() == 0 {
        Err(GlobMatchError::NoMatch)
    } else if matches.len() == 1 {
        match matches.pop() {
            Some(Some(p)) => Ok(p),
            _ => Err(GlobMatchError::Unreadable),
        }
    } else {
        Err(GlobMatchError::Multiple)
    }
}

/// Color is used only on a terminal; there `always` and `never` decide
/// whatever the terminal supports, and `auto`, like no choice, follows it.
pub proof fn lemma_color(color: Option<ColorChoice>, supports: bool)
    ensures
        !spec_use_color(false, color, supports),
        spec_use_color(true, Some(ColorChoice::Always), supports),
        !spec_use_color(true, Some(ColorChoice::Never), supports),
        spec_use_color(true, Some(ColorChoice::Auto), supports) == supports,
        spec_use_color(true, None, supports) == supports,
{
}

/// Exactly one source must be named: the result is a kind exactly when one of
/// directory and tarball is given, and it is that one.
pub proof fn lemma_one_source(opts: Opts)
    ensures
        (spec_select_source(opts) is Ok) <==> (opts.srcdir is Some != opts.srctar is Some),
        (spec_select_source(opts) == Ok::<SrcKind, SourceError>(SrcKind::SrcDir)) <==> (
        opts.srcdir is Some && opts.srctar is None),
        (spec_select_source(opts) == Ok::<SrcKind, SourceError>(SrcKind::SrcTar)) <==> (
        opts.srcdir is None && opts.srctar is Some),
        (spec_select_source(opts) == Err::<SrcKind, SourceError>(SourceError::Both)) <==> (
        opts.srcdir is Some && opts.srctar is Some),
        (spec_select_source(opts) == Err::<SrcKind, SourceError>(SourceError::Neither)) <==> (
        opts.srcdir is None && opts.srctar is None),
{
}

/// A glob resolves only when it matched exactly one readable path, and then to
/// that path; no match, several matches and an unreadable match are told
/// apart.
pub proof fn lemma_one_match(matches: Seq<Option<String>>)
    ensures
        spec_select_glob_match(matches) matches Ok(p) ==> matches.len() == 1 && matches[0] == Some(p),
        matches.len() == 1 && matches[0] is Some ==> spec_select_glob_match(matches) is Ok,
        (spec_select_glob_match(matches) == Err::<String, GlobMatchError>(GlobMatchError::NoMatch))
            <==> matches.len() == 0,
        (spec_select_glob_match(matches) == Err::<String, GlobMatchError>(GlobMatchError::Multiple))
            <==> matches.len() > 1,
        (spec_select_glob_match(matches) == Err::<String, GlobMatchError>(GlobMatchError::Unreadable))
            <==> (matches.len() == 1 && matches[0] is None),
        spec_select_glob_match(matches) != Err::<String, GlobMatchError>(
            GlobMatchError::InvalidPattern,
        ),
{
}

} // verus!
