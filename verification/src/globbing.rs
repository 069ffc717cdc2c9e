//! Glob patterns, as the `glob` crate reads them.
//!
//! Reading a pattern already asks the file system one thing: whether the
//! place that the pattern starts from is a directory. Everything else is
//! read only when the matches are walked, which is left to the caller.

use vstd::prelude::*;

verus! {

/// The matches of a glob pattern, not yet looked up. The place that the
/// pattern starts from has been looked at by the time a value exists;
/// walking it reads the directories below, which is left to the caller.
#[verifier::external_type_specification]
#[verifier::external_body]
pub struct ExPaths(glob::Paths);

/// What walking the matches yields where a directory cannot be read.
#[verifier::external_type_specification]
#[verifier::external_body]
pub struct ExWalkError(glob::GlobError);

/// The standard library's owned path, which the matches are handed out as.
#[verifier::external_type_specification]
#[verifier::external_body]
pub struct ExPathBuf(std::path::PathBuf);

/// The fault that `glob` finds in a pattern.
#[verifier::external_type_specification]
pub struct ExPatternError(glob::PatternError);

/// The fault that `glob::glob` finds in `pattern`, as the position it gives
/// and the words it uses; none where it accepts the pattern.
pub uninterp spec fn glob_fault(pattern: Seq<char>) -> Option<(usize, Seq<char>)>;

/// A glob pattern that is not well formed.
#[derive(Debug, PartialEq, Eq)]
pub struct GlobPatternError {
    /// Roughly where in the pattern the fault lies, counted in characters.
    pub position: usize,
    /// What is wrong there.
    pub reason: String,
}

/// Calls `glob::glob`.
///
/// Trusted: whether the call fails, and with which fault, depends on the
/// pattern alone. The call asks the file system whether the place that the
/// pattern starts from is a directory, which changes neither. Nothing is
/// said of the matches, which depend on the file system.
#[verifier::external_body]
fn glob_paths(pattern: &str) -> (r: Result<glob::Paths, glob::PatternError>)
    ensures
        match r {
            Ok(_) => glob_fault(pattern@) is None,
            Err(fault) => glob_fault(pattern@) == Some((fault.pos, fault.msg@)),
        },
{
    glob::glob(pattern)
}

/// Prepares the expansion of `pattern` against the file system, or says
/// what is wrong with the pattern. For a pattern that is accepted the file
/// system is asked whether the place it starts from is a directory; the
/// matches are looked up when the result is walked.
pub fn open_glob(pattern: &str) -> (r: Result<glob::Paths, GlobPatternError>)
    ensures
        match r {
            Ok(_) => glob_fault(pattern@) is None,
            Err(e) => glob_fault(pattern@) == Some((e.position, e.reason@)),
        },
{
    match glob_paths(pattern) {
        Ok(paths) => Ok(paths),
        Err(fault) => Err(GlobPatternError::from_fault(&fault)),
    }
}

impl GlobPatternError {
    /// The fault as `glob` reports it, in the library's own terms.
    pub fn from_fault(fault: &glob::PatternError) -> (e: GlobPatternError)
        ensures
            e.position == fault.pos,
            e.reason@ == fault.msg@,
    {
        GlobPatternError { position: fault.pos, reason: String::from_str(fault.msg) }
    }

    /// A few words that name the fault.
    pub fn message(&self) -> (r: String)
        ensures
            r@ == "invalid glob pattern: "@ + self.reason@,
    {
        let mut text = String::from_str("invalid glob pattern: ");
        text.append(self.reason.as_str());
        text
    }
}

} // verus!
