//! What comes back from an attempt to run the external tool.

use vstd::prelude::*;
use vstd::utf8::{decode_utf8, valid_utf8};

verus! {

/// How an attempt to run the tool ended.
#[derive(Debug)]
pub enum ToolOutcome {
    /// The tool could not be located.
    NotFound { reason: String },
    /// The tool was located, but the run could not be started or awaited.
    LaunchFailed { reason: String },
    /// The tool ran and exited, having written `stderr` to its diagnostic
    /// stream.
    Exited { success: bool, stderr: Vec<u8> },
}

/// A `ToolOutcome` as plain values.
pub enum ToolOutcomeView {
    NotFound { reason: Seq<char> },
    LaunchFailed { reason: Seq<char> },
    Exited { success: bool, stderr: Seq<u8> },
}

impl View for ToolOutcome {
    type V = ToolOutcomeView;

    open spec fn view(&self) -> ToolOutcomeView {
        match self {
            ToolOutcome::NotFound { reason } => ToolOutcomeView::NotFound { reason: reason@ },
            ToolOutcome::LaunchFailed { reason } => ToolOutcomeView::LaunchFailed {
                reason: reason@,
            },
            ToolOutcome::Exited { success, stderr } => ToolOutcomeView::Exited {
                success: *success,
                stderr: stderr@,
            },
        }
    }
}

/// Whether a version query that ended in `outcome` shows the tool to be
/// usable: it was found, it started, and it exited with success.
pub open spec fn shows_available(outcome: ToolOutcomeView) -> bool {
    outcome matches ToolOutcomeView::Exited { success, .. } && success
}

/// Tells from the outcome of a version query whether the tool is usable.
pub fn is_available(outcome: &ToolOutcome) -> (available: bool)
    ensures
        available == shows_available(outcome@),
{
    match outcome {
        ToolOutcome::Exited { success, .. } => *success,
        _ => false,
    }
}

/// The text that `String::from_utf8_lossy` makes of `bytes`.
pub uninterp spec fn lossy_text(bytes: Seq<u8>) -> Seq<char>;

/// The text read from `bytes`: the text they encode where they are valid
/// UTF-8, else what lossy decoding makes of them.
pub open spec fn decoded_text(bytes: Seq<u8>) -> Seq<char> {
    if valid_utf8(bytes) {
        decode_utf8(bytes)
    } else {
        lossy_text(bytes)
    }
}

/// Decodes `bytes` with `String::from_utf8_lossy`, which reads them as UTF-8
/// and puts U+FFFD in place of what is not. The result is a function of the
/// bytes, named `lossy_text`; bytes that are valid UTF-8 come out as the
/// text they encode.
#[verifier::external_body]
fn decode_lossy(bytes: &[u8]) -> (text: String)
    ensures
        text@ == lossy_text(bytes@),
        valid_utf8(bytes@) ==> text@ == decode_utf8(bytes@),
{
    String::from_utf8_lossy(bytes).to_string()
}

/// Reads the text that a tool wrote as `bytes` to its diagnostic stream.
pub fn read_diagnostics(bytes: &[u8]) -> (text: String)
    ensures
        text@ == decoded_text(bytes@),
{
    decode_lossy(bytes)
}

} // verus!
