//! The course of a run: where each result goes, what is reported, and what
//! a failure means for the files that have not had their turn.

use vstd::prelude::*;
use crate::error::ResizeError;
use crate::matcher::{paths_of, ImageFileRef};
use crate::paths::{file_name, join, path_file_name, path_join};

verus! {

/// How the path of a result comes about.
#[derive(Clone, Copy, Debug, PartialEq, Eq, Structural)]
pub enum OutputResolution {
    /// No output was named: the result is written over the input.
    InPlace,
    /// The output named is a file: the result is written to that path.
    AsGiven,
    /// The output named is a directory: the result is written into it under
    /// the input's file name.
    IntoDirectory,
}

/// How the path of a result comes about, given whether an output was named
/// and whether a directory is at its path.
pub open spec fn resolution_spec(output_named: bool, output_is_dir: bool) -> OutputResolution {
    if !output_named {
        OutputResolution::InPlace
    } else if output_is_dir {
        OutputResolution::IntoDirectory
    } else {
        OutputResolution::AsGiven
    }
}

/// Where the result for `input` is written: into the output directory under
/// the input's file name, to the output path as given, or over the input
/// where no output was named.
pub open spec fn output_spec(
    input: Seq<char>,
    output: Option<Seq<char>>,
    output_is_dir: bool,
) -> Seq<char> {
    match resolution_spec(output is Some, output_is_dir) {
        OutputResolution::InPlace => input,
        OutputResolution::AsGiven => output.unwrap(),
        OutputResolution::IntoDirectory => path_join(
            output.unwrap(),
            path_file_name(input).unwrap(),
        ),
    }
}

/// The line that reports a file as done.
pub open spec fn report_line_spec(input: Seq<char>, output: Seq<char>) -> Seq<char> {
    "Processed: "@ + input + " -> "@ + output
}

/// How the path of a result comes about. `output_named` says whether the
/// operator named an output, `output_is_dir` whether a directory is at its
/// path.
pub fn resolution(output_named: bool, output_is_dir: bool) -> (r: OutputResolution)
    ensures
        r == resolution_spec(output_named, output_is_dir),
{
    if !output_named {
        OutputResolution::InPlace
    } else if output_is_dir {
        OutputResolution::IntoDirectory
    } else {
        OutputResolution::AsGiven
    }
}

/// The path that the result for `input` is written to. `output` is the
/// output path the operator named, if any, and `output_is_dir` says whether
/// a directory is at that path.
pub fn resolve_output(input: &ImageFileRef, output: Option<&str>, output_is_dir: bool) -> (r:
    String)
    ensures
        r@ == output_spec(
            input@,
            match output {
                Some(out) => Some(out@),
                None => None,
            },
            output_is_dir,
        ),
{
    let path = input.as_str();
    match output {
        Some(out) => match resolution(true, output_is_dir) {
            OutputResolution::IntoDirectory => match file_name(path) {
                Some(name) => join(out, name.as_str()),
                None => vstd::pervasive::unreached(),
            },
            _ => String::from_str(out),
        },
        None => String::from_str(path),
    }
}

/// The line that reports `input` as processed into `output`.
pub fn report_line(input: &str, output: &str) -> (r: String)
    ensures
        r@ == report_line_spec(input@, output@),
{
    let mut line = String::from_str("Processed: ");
    line.append(input);
    line.append(" -> ");
    line.append(output);
    line
}

/// How the work on one file ended.
#[derive(Debug, PartialEq, Eq)]
pub enum FileOutcome {
    /// The operator declined to overwrite the output; nothing was done.
    Skipped,
    /// The result was written to the path given.
    Written(String),
    /// The work failed.
    Failed(ResizeError),
}

/// The state of a run, as contracts see it.
pub struct PipelineView {
    /// The files of the run, in the order they are worked on.
    pub files: Seq<Seq<char>>,
    /// How many of them have been dealt with.
    pub next: nat,
    /// The lines reported so far.
    pub report: Seq<Seq<char>>,
    /// The failure that ended the run, if one did.
    pub failure: Option<ResizeError>,
}

impl PipelineView {
    /// A run that has not begun.
    pub open spec fn start(files: Seq<Seq<char>>) -> PipelineView {
        PipelineView { files, next: 0, report: Seq::empty(), failure: None }
    }

    /// The file whose turn it is; none once every file has been dealt with
    /// or the run has failed.
    pub open spec fn current(self) -> Option<Seq<char>> {
        if self.failure is None && self.next < self.files.len() {
            Some(self.files[self.next as int])
        } else {
            None
        }
    }

    /// The state after the work on the current file ended in `outcome`.
    /// A skipped file is passed over in silence, a written one is reported,
    /// a failure ends the run. Where no file has its turn nothing changes.
    pub open spec fn step(self, outcome: FileOutcome) -> PipelineView {
        match self.current() {
            None => self,
            Some(input) => match outcome {
                FileOutcome::Skipped => PipelineView { next: self.next + 1, ..self },
                FileOutcome::Written(output) => PipelineView {
                    next: self.next + 1,
                    report: self.report.push(report_line_spec(input, output@)),
                    ..self
                },
                FileOutcome::Failed(error) => PipelineView { failure: Some(error), ..self },
            },
        }
    }

    /// The state after the outcomes of `outcomes`, one after the other.
    pub open spec fn run(self, outcomes: Seq<FileOutcome>) -> PipelineView
        decreases outcomes.len(),
    {
        if outcomes.len() == 0 {
            self
        } else {
            self.run(outcomes.drop_last()).step(outcomes.last())
        }
    }
}

/// How many of `outcomes` say that a result was written.
pub open spec fn written_count(outcomes: Seq<FileOutcome>) -> nat
    decreases outcomes.len(),
{
    if outcomes.len() == 0 {
        0
    } else {
        written_count(outcomes.drop_last()) + if outcomes.last() is Written {
            1nat
        } else {
            0nat
        }
    }
}

/// Once a run has failed, no file has its turn and no outcome changes
/// anything.
pub proof fn lemma_failure_is_final(state: PipelineView, outcomes: Seq<FileOutcome>)
    requires
        state.failure is Some,
    ensures
        state.current() is None,
        state.run(outcomes) == state,
    decreases outcomes.len(),
{
    if outcomes.len() > 0 {
        lemma_failure_is_final(state, outcomes.drop_last());
    }
}

/// Outcomes taken in two batches give the state they give taken at once.
pub proof fn lemma_run_in_batches(
    state: PipelineView,
    first: Seq<FileOutcome>,
    second: Seq<FileOutcome>,
)
    ensures
        state.run(first + second) == state.run(first).run(second),
    decreases second.len(),
{
    if second.len() > 0 {
        lemma_run_in_batches(state, first, second.drop_last());
        assert((first + second).drop_last() =~= first + second.drop_last());
    }
}

/// While nothing fails, each outcome deals with one file, and each written
/// result adds one line to the report.
pub proof fn lemma_run_without_failure(files: Seq<Seq<char>>, outcomes: Seq<FileOutcome>)
    requires
        outcomes.len() <= files.len(),
        forall|j: int| 0 <= j < outcomes.len() ==> !(#[trigger] outcomes[j] is Failed),
    ensures
        PipelineView::start(files).run(outcomes).files == files,
        PipelineView::start(files).run(outcomes).failure is None,
        PipelineView::start(files).run(outcomes).next == outcomes.len(),
        PipelineView::start(files).run(outcomes).report.len() == written_count(outcomes),
    decreases outcomes.len(),
{
    if outcomes.len() > 0 {
        lemma_run_without_failure(files, outcomes.drop_last());
    }
}

/// A run stops at its first failure. Where the work on file `k` is the
/// first to fail, the run ends with that failure, the files after it never
/// have their turn, and the report holds one line for each result written
/// before, whatever outcomes follow.
pub proof fn lemma_fail_fast(files: Seq<Seq<char>>, outcomes: Seq<FileOutcome>, k: int)
    requires
        0 <= k < outcomes.len(),
        k < files.len(),
        outcomes[k] is Failed,
        forall|j: int| 0 <= j < k ==> !(#[trigger] outcomes[j] is Failed),
    ensures
        PipelineView::start(files).run(outcomes).failure == Some(outcomes[k]->Failed_0),
        PipelineView::start(files).run(outcomes).current() is None,
        PipelineView::start(files).run(outcomes).next == k,
        PipelineView::start(files).run(outcomes).report == PipelineView::start(files).run(
            outcomes.take(k),
        ).report,
        PipelineView::start(files).run(outcomes).report.len() == written_count(outcomes.take(k)),
{
    let start = PipelineView::start(files);
    let upto = outcomes.take(k + 1);
    let after = outcomes.skip(k + 1);
    // Up to file `k` nothing fails, so each outcome stands for one file.
    lemma_run_without_failure(files, outcomes.take(k));
    assert(upto.drop_last() =~= outcomes.take(k));
    // The failure of file `k` is final, whatever follows.
    lemma_failure_is_final(start.run(upto), after);
    assert(upto + after =~= outcomes);
    lemma_run_in_batches(start, upto, after);
}

/// A run over a list of image files, one file at a time.
pub struct ProcessingPipeline {
    files: Vec<ImageFileRef>,
    next: usize,
    report: Vec<String>,
    failure: Option<ResizeError>,
}

impl View for ProcessingPipeline {
    type V = PipelineView;

    closed spec fn view(&self) -> PipelineView {
        PipelineView {
            files: paths_of(self.files@),
            next: self.next as nat,
            report: self.report@.map_values(|line: String| line@),
            failure: self.failure,
        }
    }
}

impl ProcessingPipeline {
    /// A run over `files` that has not begun.
    pub fn new(files: Vec<ImageFileRef>) -> (pipeline: ProcessingPipeline)
        ensures
            pipeline@ == PipelineView::start(paths_of(files@)),
    {
        let pipeline = ProcessingPipeline { files, next: 0, report: Vec::new(), failure: None };
        assert(pipeline@.report =~= Seq::<Seq<char>>::empty());
        pipeline
    }

    /// The file whose turn it is; none once the run is over.
    pub fn current(&self) -> (r: Option<&ImageFileRef>)
        ensures
            match r {
                Some(file) => self@.current() == Some(file@),
                None => self@.current() is None,
            },
    {
        if self.failure.is_none() && self.next < self.files.len() {
            Some(&self.files[self.next])
        } else {
            None
        }
    }

    /// How many files have been dealt with, which is the place of the
    /// current file among the files of the run.
    pub fn position(&self) -> (r: usize)
        ensures
            r == self@.next,
    {
        self.next
    }

    /// Takes note of how the work on the current file ended, and gives back
    /// the line to report where there is one.
    pub fn record(&mut self, outcome: FileOutcome) -> (line: Option<String>)
        ensures
            final(self)@ == old(self)@.step(outcome),
            match line {
                Some(text) => final(self)@.report == old(self)@.report.push(text@),
                None => final(self)@.report == old(self)@.report,
            },
    {
        if self.failure.is_some() || self.next >= self.files.len() {
            return None;
        }
        match outcome {
            FileOutcome::Skipped => {
                self.next = self.next + 1;
                None
            },
            FileOutcome::Written(output) => {
                let line = report_line(self.files[self.next].as_str(), output.as_str());
                let copy = line.clone();
                self.report.push(line);
                self.next = self.next + 1;
                assert(self@.report =~= old(self)@.report.push(copy@));
                Some(copy)
            },
            FileOutcome::Failed(error) => {
                self.failure = Some(error);
                None
            },
        }
    }

    /// Ends the run: the lines reported, or the failure that cut it short.
    pub fn finish(self) -> (r: Result<Vec<String>, ResizeError>)
        ensures
            match r {
                Ok(lines) => self@.failure is None && lines@.map_values(|line: String| line@)
                    == self@.report,
                Err(error) => self@.failure == Some(error),
            },
    {
        match self.failure {
            Some(error) => Err(error),
            None => Ok(self.report),
        }
    }
}

} // verus!
