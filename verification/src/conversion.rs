//! The course of one conversion request.
//!
//! A conversion needs three things from the outside: whether the output file
//! exists, a run of the tool, and the size of the written file. The state of
//! a conversion says which of them it waits for; `step` takes the answer and
//! gives the next state. Whoever drives a conversion looks at the state,
//! does what it waits for, and hands the answer to `step`, until the state
//! is `Finished` or `Aborted`.

use crate::command::{conversion_argument_list, conversion_arguments};
use crate::path::{resolve_output_path, resolved_output_path, Separators};
use crate::report::{ConversionResult, ConversionResultView};
use crate::settings::ConversionSettings;
use crate::tool::{decoded_text, read_diagnostics, ToolOutcome, ToolOutcomeView};
use vstd::prelude::*;

verus! {

/// An answer from the outside.
#[derive(Debug)]
pub enum Event {
    /// Whether a file exists at the output path.
    OutputChecked { exists: bool },
    /// How the run of the tool ended.
    ToolReturned { outcome: ToolOutcome },
    /// The size in bytes of the file at the output path, or `None` where it
    /// could not be read.
    SizeRead { size: Option<u64> },
}

/// An `Event` as plain values.
pub enum EventView {
    OutputChecked { exists: bool },
    ToolReturned { outcome: ToolOutcomeView },
    SizeRead { size: Option<u64> },
}

impl View for Event {
    type V = EventView;

    open spec fn view(&self) -> EventView {
        match self {
            Event::OutputChecked { exists } => EventView::OutputChecked { exists: *exists },
            Event::ToolReturned { outcome } => EventView::ToolReturned { outcome: outcome@ },
            Event::SizeRead { size } => EventView::SizeRead { size: *size },
        }
    }
}

/// The state of a conversion.
#[derive(Debug)]
pub enum Conversion {
    /// Waits to learn whether a file exists at `output_path`.
    CheckingOutput { input_path: String, output_path: String, settings: ConversionSettings },
    /// Waits for a run of the tool with `args`.
    RunningTool { input_path: String, output_path: String, args: Vec<String> },
    /// Waits for the size of the file at `output_path`.
    ReadingSize { input_path: String, output_path: String },
    /// The conversion is over, with `result`.
    Finished { result: ConversionResult },
    /// The conversion could not be attempted, for the reason in `message`.
    Aborted { message: String },
}

/// A `Conversion` as plain values.
pub enum ConversionView {
    CheckingOutput { input_path: Seq<char>, output_path: Seq<char>, settings: ConversionSettings },
    RunningTool { input_path: Seq<char>, output_path: Seq<char>, args: Seq<Seq<char>> },
    ReadingSize { input_path: Seq<char>, output_path: Seq<char> },
    Finished { result: ConversionResultView },
    Aborted { message: Seq<char> },
}

impl View for Conversion {
    type V = ConversionView;

    open spec fn view(&self) -> ConversionView {
        match self {
            Conversion::CheckingOutput {
                input_path,
                output_path,
                settings,
            } => ConversionView::CheckingOutput {
                input_path: input_path@,
                output_path: output_path@,
                settings: *settings,
            },
            Conversion::RunningTool { input_path, output_path, args } => ConversionView::RunningTool {
                input_path: input_path@,
                output_path: output_path@,
                args: args.deep_view(),
            },
            Conversion::ReadingSize { input_path, output_path } => ConversionView::ReadingSize {
                input_path: input_path@,
                output_path: output_path@,
            },
            Conversion::Finished { result } => ConversionView::Finished { result: result@ },
            Conversion::Aborted { message } => ConversionView::Aborted { message: message@ },
        }
    }
}

impl ConversionView {
    /// The state that waits for the run that converts `input_path` into
    /// `output_path` under `settings`.
    pub open spec fn running(
        input_path: Seq<char>,
        output_path: Seq<char>,
        settings: ConversionSettings,
    ) -> ConversionView {
        ConversionView::RunningTool {
            input_path,
            output_path,
            args: conversion_arguments(input_path, output_path, settings),
        }
    }

    /// The first state of a request. The output path is resolved, reading
    /// the input path with `separators`. A request that may overwrite goes
    /// straight to the run of the tool; any other first asks whether the
    /// output exists.
    pub open spec fn begin(
        separators: Separators,
        input_path: Seq<char>,
        output_path: Option<Seq<char>>,
        settings: ConversionSettings,
    ) -> ConversionView {
        let resolved = resolved_output_path(separators, input_path, output_path);
        if settings.overwrite {
            Self::running(input_path, resolved, settings)
        } else {
            ConversionView::CheckingOutput { input_path, output_path: resolved, settings }
        }
    }

    /// The state that follows `self` on `event`.
    ///
    /// - An output that exists and may not be overwritten ends the request
    ///   with the already-exists failure; otherwise the tool is to be run.
    /// - A tool that could not be located aborts the request. One that could
    ///   not be started, or that exited with failure, ends it with a
    ///   failure; the latter's message is taken from what the tool wrote to
    ///   its diagnostic stream. One that exited with success leaves the size
    ///   of the output to be read.
    /// - The size that was read, if any, ends the request with success.
    /// - An event that does not answer what the state waits for changes
    ///   nothing.
    pub open spec fn step(self, event: EventView) -> ConversionView {
        match (self, event) {
            (
                ConversionView::CheckingOutput { input_path, output_path, settings },
                EventView::OutputChecked { exists },
            ) => if exists && !settings.overwrite {
                ConversionView::Finished {
                    result: ConversionResultView::already_exists(input_path, output_path),
                }
            } else {
                Self::running(input_path, output_path, settings)
            },
            (
                ConversionView::RunningTool { input_path, output_path, args },
                EventView::ToolReturned { outcome },
            ) => match outcome {
                ToolOutcomeView::NotFound { reason } => ConversionView::Aborted { message: reason },
                ToolOutcomeView::LaunchFailed { reason } => ConversionView::Finished {
                    result: ConversionResultView::launch_failed(input_path, output_path, reason),
                },
                ToolOutcomeView::Exited { success, stderr } => if success {
                    ConversionView::ReadingSize { input_path, output_path }
                } else {
                    ConversionView::Finished {
                        result: ConversionResultView::tool_failed(
                            input_path,
                            output_path,
                            decoded_text(stderr),
                        ),
                    }
                },
            },
            (
                ConversionView::ReadingSize { input_path, output_path },
                EventView::SizeRead { size },
            ) => ConversionView::Finished {
                result: ConversionResultView::succeeded(input_path, output_path, size),
            },
            _ => self,
        }
    }

    /// Whether the conversion is over.
    pub open spec fn is_settled(self) -> bool {
        self is Finished || self is Aborted
    }
}

impl Conversion {
    /// Starts a request to convert `input_path`, writing to `output_path`
    /// or, if none is given, beside the input. `separators` says which
    /// characters part the components of a path where the request runs.
    pub fn begin(
        separators: Separators,
        input_path: String,
        output_path: Option<String>,
        settings: ConversionSettings,
    ) -> (state: Conversion)
        ensures
            state@ == ConversionView::begin(
                separators,
                input_path@,
                match output_path {
                    Some(path) => Some(path@),
                    None => None,
                },
                settings,
            ),
    {
        let resolved = resolve_output_path(separators, input_path.as_str(), output_path);
        if settings.overwrite {
            Self::running(input_path, resolved, &settings)
        } else {
            Conversion::CheckingOutput { input_path, output_path: resolved, settings }
        }
    }

    /// The state that waits for the run of the tool.
    fn running(input_path: String, output_path: String, settings: &ConversionSettings) -> (state:
        Conversion)
        ensures
            state@ == ConversionView::running(input_path@, output_path@, *settings),
    {
        let args = conversion_argument_list(input_path.as_str(), output_path.as_str(), settings);
        Conversion::RunningTool { input_path, output_path, args }
    }

    /// Takes an answer from the outside and gives the state that follows.
    pub fn step(self, event: Event) -> (next: Conversion)
        ensures
            next@ == self@.step(event@),
    {
        match (self, event) {
            (
                Conversion::CheckingOutput { input_path, output_path, settings },
                Event::OutputChecked { exists },
            ) => {
                if exists && !settings.overwrite {
                    Conversion::Finished {
                        result: ConversionResult::already_exists(input_path, output_path),
                    }
                } else {
                    Self::running(input_path, output_path, &settings)
                }
            },
            (
                Conversion::RunningTool { input_path, output_path, args },
                Event::ToolReturned { outcome },
            ) => {
                match outcome {
                    ToolOutcome::NotFound { reason } => Conversion::Aborted { message: reason },
                    ToolOutcome::LaunchFailed { reason } => Conversion::Finished {
                        result: ConversionResult::launch_failed(
                            input_path,
                            output_path,
                            reason.as_str(),
                        ),
                    },
                    ToolOutcome::Exited { success, stderr } => {
                        if success {
                            Conversion::ReadingSize { input_path, output_path }
                        } else {
                            let diagnostics = read_diagnostics(stderr.as_slice());
                            Conversion::Finished {
                                result: ConversionResult::tool_failed(
                                    input_path,
                                    output_path,
                                    diagnostics,
                                ),
                            }
                        }
                    },
                }
            },
            (Conversion::ReadingSize { input_path, output_path }, Event::SizeRead { size }) => {
                Conversion::Finished {
                    result: ConversionResult::succeeded(input_path, output_path, size),
                }
            },
            (state, _) => state,
        }
    }

    /// Whether the conversion is over.
    pub fn is_settled(&self) -> (settled: bool)
        ensures
            settled == self@.is_settled(),
    {
        match self {
            Conversion::Finished { .. } => true,
            Conversion::Aborted { .. } => true,
            _ => false,
        }
    }
}

} // verus!
