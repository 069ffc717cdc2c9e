//! Guarding existing files: whether an output file may be written, and what
//! to ask the operator where that is in doubt.

use vstd::prelude::*;
use crate::text::{ascii_lower, chars_of, to_ascii_lower, trim_bounds, trimmed};

verus! {

/// What has to happen before a file is written.
#[derive(Clone, Copy, Debug, PartialEq, Eq, Structural)]
pub enum GateStep {
    /// The file may be written at once.
    Write,
    /// The operator has to be asked first.
    Ask,
}

/// Guards writes to files that already exist.
#[derive(Clone, Copy, Debug)]
pub struct OverwriteGate {
    /// Whether existing files are overwritten without asking.
    pub force: bool,
}

/// The step to take for an output path: nothing is asked where
/// overwriting is forced or no file is in the way.
pub open spec fn gate_step(force: bool, exists: bool) -> GateStep {
    if force || !exists {
        GateStep::Write
    } else {
        GateStep::Ask
    }
}

/// Whether an answer consents: apart from white space at both ends it is
/// the one letter `y`, in either case.
pub open spec fn confirms_spec(answer: Seq<char>) -> bool {
    let t = trimmed(answer);
    t.len() == 1 && ascii_lower(t[0]) == 'y'
}

/// Whether a file may be written, given the operator's answer where one
/// was asked for.
pub open spec fn may_write_spec(force: bool, exists: bool, answer: Option<Seq<char>>) -> bool {
    match gate_step(force, exists) {
        GateStep::Write => true,
        GateStep::Ask => match answer {
            Some(a) => confirms_spec(a),
            None => false,
        },
    }
}

/// The question put to the operator about `path`.
pub open spec fn prompt_spec(path: Seq<char>) -> Seq<char> {
    "Output file "@ + path + " already exists. Overwrite? [y/N]"@
}

/// Whether `answer` consents to overwriting.
pub fn confirms(answer: &str) -> (r: bool)
    ensures
        r == confirms_spec(answer@),
{
    let chars = chars_of(answer);
    let (lo, hi) = trim_bounds(&chars);
    hi - lo == 1 && to_ascii_lower(chars[lo]) == 'y'
}

/// The question put to the operator before `path` is overwritten.
pub fn prompt(path: &str) -> (r: String)
    ensures
        r@ == prompt_spec(path@),
{
    let mut text = String::from_str("Output file ");
    text.append(path);
    text.append(" already exists. Overwrite? [y/N]");
    text
}

impl OverwriteGate {
    /// A guard that asks before overwriting unless `force` is set.
    pub fn new(force: bool) -> (gate: OverwriteGate)
        ensures
            gate.force == force,
    {
        OverwriteGate { force }
    }

    /// What has to happen before an output file is written; `exists` says
    /// whether a file is already at its path.
    pub fn step(&self, exists: bool) -> (r: GateStep)
        ensures
            r == gate_step(self.force, exists),
    {
        if self.force || !exists {
            GateStep::Write
        } else {
            GateStep::Ask
        }
    }

    /// Whether the output file may be written. `answer` is the line the
    /// operator gave where one was asked for, `None` where nothing was asked
    /// or nothing came back.
    pub fn may_write(&self, exists: bool, answer: Option<&str>) -> (r: bool)
        ensures
            r == may_write_spec(
                self.force,
                exists,
                match answer {
                    Some(a) => Some(a@),
                    None => None,
                },
            ),
    {
        match self.step(exists) {
            GateStep::Write => true,
            GateStep::Ask => match answer {
                Some(a) => confirms(a),
                None => false,
            },
        }
    }
}

/// With `force` set nothing is ever asked, whether or not the output file
/// exists.
pub proof fn lemma_force_never_asks(exists: bool)
    ensures
        gate_step(true, exists) == GateStep::Write,
        forall|answer: Option<Seq<char>>| may_write_spec(true, exists, answer),
{
}

} // verus!
