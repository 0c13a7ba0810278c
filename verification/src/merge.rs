//! The merge tool: what it is called with, and what its exit means.

use crate::text::texts;
use vstd::prelude::*;
use vstd::string::*;

verus! {

/// The arguments of one run of the tool: every staged input in order, then
/// the output path and the bit depth of the output, each behind its flag.
pub open spec fn arguments(inputs: Seq<Seq<char>>, output: Seq<char>) -> Seq<Seq<char>> {
    inputs + seq!["-o"@, output, "-b"@, "32"@]
}

/// Builds the arguments for merging `inputs` into `output`.
pub fn arguments_of(inputs: &Vec<String>, output: &str) -> (r: Vec<String>)
    ensures
        texts(r@) == arguments(texts(inputs@), output@),
{
    let mut r: Vec<String> = Vec::new();
    let mut i: usize = 0;
    while i < inputs.len()
        invariant
            i <= inputs.len(),
            r.len() == i,
            forall|j: int| 0 <= j < i ==> (#[trigger] r[j])@ == inputs[j]@,
        decreases inputs.len() - i,
    {
        r.push(inputs[i].clone());
        i = i + 1;
    }
    r.push(String::from_str("-o"));
    r.push(String::from_str(output));
    r.push(String::from_str("-b"));
    r.push(String::from_str("32"));
    assert(texts(r@) =~= arguments(texts(inputs@), output@));
    r
}

/// How the tool ended.
#[derive(Clone, Copy, Debug, PartialEq, Eq, Structural)]
pub enum ToolExit {
    /// It ran and exited with status zero.
    Success,
    /// It ran and exited with another status, or was ended from outside.
    Failure,
    /// It could not be found or started.
    NotStarted,
}

/// Result of one merge attempt.
#[derive(Clone, Debug, PartialEq, Eq)]
pub enum MergeResult {
    /// The tool wrote the artifact `identifier` from `count` inputs.
    Merged { identifier: String, count: usize },
    /// No artifact was made; `reason` says why.
    Failed { reason: String },
}

/// A `MergeResult` as plain values.
pub enum MergeResultView {
    Merged { identifier: Seq<char>, count: nat },
    Failed { reason: Seq<char> },
}

impl View for MergeResult {
    type V = MergeResultView;

    open spec fn view(&self) -> MergeResultView {
        match self {
            MergeResult::Merged { identifier, count } => MergeResultView::Merged {
                identifier: identifier@,
                count: *count as nat,
            },
            MergeResult::Failed { reason } => MergeResultView::Failed { reason: reason@ },
        }
    }
}

/// The result of an attempt to merge `count` inputs into the artifact
/// `identifier` that ended with `exit`.
pub open spec fn outcome(exit: ToolExit, identifier: Seq<char>, count: nat) -> MergeResultView {
    match exit {
        ToolExit::Success => MergeResultView::Merged { identifier, count },
        ToolExit::Failure => MergeResultView::Failed { reason: "Failed to merge HDR images"@ },
        ToolExit::NotStarted => MergeResultView::Failed { reason: "Failed to execute hdrmerge"@ },
    }
}

/// Judges a merge attempt by the way the tool ended.
pub fn conclude(exit: ToolExit, identifier: &str, count: usize) -> (r: MergeResult)
    ensures
        r@ == outcome(exit, identifier@, count as nat),
{
    match exit {
        ToolExit::Success => MergeResult::Merged {
            identifier: String::from_str(identifier),
            count,
        },
        ToolExit::Failure => MergeResult::Failed {
            reason: String::from_str("Failed to merge HDR images"),
        },
        ToolExit::NotStarted => MergeResult::Failed {
            reason: String::from_str("Failed to execute hdrmerge"),
        },
    }
}

} // verus!
