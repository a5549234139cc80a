//! Whole requests, from their first state to their last.
//!
//! `Outside` fixes what the outside would answer during one request. Against
//! it a request takes a definite course, and this module states what holds
//! of every such course.

use crate::conversion::{ConversionView, EventView};
use crate::path::{resolved_output_path, Separators};
use crate::report::{failure_message, ConversionResultView};
use crate::settings::ConversionSettings;
use crate::tool::ToolOutcomeView;
use vstd::prelude::*;
use vstd::utf8::{encode_utf8, encode_utf8_decode_utf8, encode_utf8_valid_utf8};

verus! {

/// The answers that the outside has for one request.
pub struct Outside {
    /// Whether a file exists at the output path before the request.
    pub output_exists: bool,
    /// How a run of the tool ends.
    pub tool: ToolOutcomeView,
    /// The size of the file at the output path after the run, where it can
    /// be read.
    pub output_size: Option<u64>,
}

impl ConversionView {
    /// The answer of `outside` to what the state waits for.
    pub open spec fn answer(self, outside: Outside) -> EventView {
        match self {
            ConversionView::CheckingOutput { .. } => EventView::OutputChecked {
                exists: outside.output_exists,
            },
            ConversionView::RunningTool { .. } => EventView::ToolReturned { outcome: outside.tool },
            _ => EventView::SizeRead { size: outside.output_size },
        }
    }

    /// The state after `outside` has answered what the state waits for.
    pub open spec fn advance(self, outside: Outside) -> ConversionView {
        self.step(self.answer(outside))
    }

    /// How many runs of the tool the state asks for: one if it waits for the
    /// tool, else none.
    pub open spec fn tool_runs(self) -> nat {
        if self is RunningTool {
            1
        } else {
            0
        }
    }
}

/// The states that a request goes through against `outside`: its first
/// state and the three that follow.
pub open spec fn course(
    separators: Separators,
    input_path: Seq<char>,
    output_path: Option<Seq<char>>,
    settings: ConversionSettings,
    outside: Outside,
) -> Seq<ConversionView> {
    let first = ConversionView::begin(separators, input_path, output_path, settings);
    let second = first.advance(outside);
    let third = second.advance(outside);
    seq![first, second, third, third.advance(outside)]
}

/// The state in which a request ends against `outside`.
pub open spec fn outcome(
    separators: Separators,
    input_path: Seq<char>,
    output_path: Option<Seq<char>>,
    settings: ConversionSettings,
    outside: Outside,
) -> ConversionView {
    course(separators, input_path, output_path, settings, outside)[3]
}

/// How many times the tool is run in the course of a request.
pub open spec fn tool_runs(
    separators: Separators,
    input_path: Seq<char>,
    output_path: Option<Seq<char>>,
    settings: ConversionSettings,
    outside: Outside,
) -> nat {
    let states = course(separators, input_path, output_path, settings, outside);
    states[0].tool_runs() + states[1].tool_runs() + states[2].tool_runs() + states[3].tool_runs()
}

/// Whether the request is turned down without a run: its output exists and
/// may not be overwritten.
pub open spec fn is_turned_down(settings: ConversionSettings, outside: Outside) -> bool {
    outside.output_exists && !settings.overwrite
}

/// A state in which a conversion is over stays as it is, whatever arrives.
pub proof fn lemma_settled_state_stays(state: ConversionView, event: EventView)
    requires
        state.is_settled(),
    ensures
        state.step(event) == state,
{
}

/// Every request is over after three answers at most. If it ends with a
/// result, that result names the input path and the resolved output path,
/// carries no error with a success, and an error and no size with a failure.
pub proof fn lemma_request_settles(
    separators: Separators,
    input_path: Seq<char>,
    output_path: Option<Seq<char>>,
    settings: ConversionSettings,
    outside: Outside,
)
    ensures
        outcome(separators, input_path, output_path, settings, outside).is_settled(),
        outcome(separators, input_path, output_path, settings, outside) matches ConversionView::Finished {
            result,
        } ==> {
            &&& result.well_formed()
            &&& result.input_path == input_path
            &&& result.output_path == resolved_output_path(separators, input_path, output_path)
        },
{
}

/// A request whose output exists and may not be overwritten fails with the
/// already-exists message, and the tool is never run.
pub proof fn lemma_existing_output_is_kept(
    separators: Separators,
    input_path: Seq<char>,
    output_path: Option<Seq<char>>,
    settings: ConversionSettings,
    outside: Outside,
)
    requires
        !settings.overwrite,
        outside.output_exists,
    ensures
        outcome(separators, input_path, output_path, settings, outside) == (ConversionView::Finished {
            result: ConversionResultView::already_exists(
                input_path,
                resolved_output_path(separators, input_path, output_path),
            ),
        }),
        tool_runs(separators, input_path, output_path, settings, outside) == 0,
{
}

/// A request that may overwrite runs the tool exactly once, and ends as it
/// would if no file were at the output path.
pub proof fn lemma_overwrite_ignores_existing_output(
    separators: Separators,
    input_path: Seq<char>,
    output_path: Option<Seq<char>>,
    settings: ConversionSettings,
    outside: Outside,
)
    requires
        settings.overwrite,
    ensures
        tool_runs(separators, input_path, output_path, settings, outside) == 1,
        outcome(separators, input_path, output_path, settings, outside) == outcome(
            separators,
            input_path,
            output_path,
            settings,
            Outside { output_exists: false, ..outside },
        ),
{
}

/// The tool is run once in every request but one that is turned down, in
/// which it is not run.
pub proof fn lemma_tool_runs_once_unless_turned_down(
    separators: Separators,
    input_path: Seq<char>,
    output_path: Option<Seq<char>>,
    settings: ConversionSettings,
    outside: Outside,
)
    ensures
        tool_runs(separators, input_path, output_path, settings, outside) == if is_turned_down(
            settings,
            outside,
        ) {
            0nat
        } else {
            1nat
        },
{
}

/// A tool that cannot be located aborts the request with the reason given.
pub proof fn lemma_missing_tool_aborts(
    separators: Separators,
    input_path: Seq<char>,
    output_path: Option<Seq<char>>,
    settings: ConversionSettings,
    outside: Outside,
    reason: Seq<char>,
)
    requires
        !is_turned_down(settings, outside),
        outside.tool == (ToolOutcomeView::NotFound { reason }),
    ensures
        outcome(separators, input_path, output_path, settings, outside) == (ConversionView::Aborted {
            message: reason,
        }),
{
}

/// A tool that cannot be started fails the request with a message that
/// gives the reason.
pub proof fn lemma_launch_failure_is_reported(
    separators: Separators,
    input_path: Seq<char>,
    output_path: Option<Seq<char>>,
    settings: ConversionSettings,
    outside: Outside,
    reason: Seq<char>,
)
    requires
        !is_turned_down(settings, outside),
        outside.tool == (ToolOutcomeView::LaunchFailed { reason }),
    ensures
        outcome(separators, input_path, output_path, settings, outside) == (ConversionView::Finished {
            result: ConversionResultView::launch_failed(
                input_path,
                resolved_output_path(separators, input_path, output_path),
                reason,
            ),
        }),
{
}

/// A tool that exits with success makes the request a success, without an
/// error, and with the size of the output as the outside reports it.
pub proof fn lemma_success_reports_size(
    separators: Separators,
    input_path: Seq<char>,
    output_path: Option<Seq<char>>,
    settings: ConversionSettings,
    outside: Outside,
    stderr: Seq<u8>,
)
    requires
        !is_turned_down(settings, outside),
        outside.tool == (ToolOutcomeView::Exited { success: true, stderr }),
    ensures
        outcome(separators, input_path, output_path, settings, outside) == (ConversionView::Finished {
            result: ConversionResultView {
                input_path,
                output_path: resolved_output_path(separators, input_path, output_path),
                output_size: outside.output_size,
                success: true,
                error: None,
            },
        }),
{
}

/// A tool that exits with failure after writing `diagnostics` to its
/// diagnostic stream fails the request; the error is `diagnostics`, or the
/// generic message if the tool wrote nothing.
pub proof fn lemma_failure_reports_diagnostics(
    separators: Separators,
    input_path: Seq<char>,
    output_path: Option<Seq<char>>,
    settings: ConversionSettings,
    outside: Outside,
    diagnostics: Seq<char>,
)
    requires
        !is_turned_down(settings, outside),
        outside.tool == (ToolOutcomeView::Exited {
            success: false,
            stderr: encode_utf8(diagnostics),
        }),
    ensures
        outcome(separators, input_path, output_path, settings, outside) == (ConversionView::Finished {
            result: ConversionResultView {
                input_path,
                output_path: resolved_output_path(separators, input_path, output_path),
                output_size: None,
                success: false,
                error: Some(failure_message(diagnostics)),
            },
        }),
{
    encode_utf8_valid_utf8(diagnostics);
    encode_utf8_decode_utf8(diagnostics);
}

} // verus!
