//! What a conversion request comes back with.

use vstd::prelude::*;
use vstd::string::*;

verus! {

/// The outcome of one conversion request.
#[derive(Debug)]
pub struct ConversionResult {
    /// The input path, as the caller gave it.
    pub input_path: String,
    /// The path that the conversion was to write.
    pub output_path: String,
    /// The size in bytes of the written file, where it could be read.
    pub output_size: Option<u64>,
    /// Whether the conversion produced its output.
    pub success: bool,
    /// Why the conversion produced no output.
    pub error: Option<String>,
}

/// A `ConversionResult` as plain values.
pub struct ConversionResultView {
    pub input_path: Seq<char>,
    pub output_path: Seq<char>,
    pub output_size: Option<u64>,
    pub success: bool,
    pub error: Option<Seq<char>>,
}

impl View for ConversionResult {
    type V = ConversionResultView;

    open spec fn view(&self) -> ConversionResultView {
        ConversionResultView {
            input_path: self.input_path@,
            output_path: self.output_path@,
            output_size: self.output_size,
            success: self.success,
            error: match self.error {
                Some(message) => Some(message@),
                None => None,
            },
        }
    }
}

/// The message of a request turned down because its output is already there.
pub open spec fn already_exists_message() -> Seq<char> {
    "Output file already exists"@
}

/// What precedes the reason in the message of a tool that could not be
/// started.
pub open spec fn launch_failure_prefix() -> Seq<char> {
    "Failed to execute FFmpeg: "@
}

/// The message of a tool that failed without saying why.
pub open spec fn generic_failure_message() -> Seq<char> {
    "FFmpeg conversion failed"@
}

/// The message of a tool that failed after writing `diagnostics`: what it
/// wrote, or the generic message if it wrote nothing.
pub open spec fn failure_message(diagnostics: Seq<char>) -> Seq<char> {
    if diagnostics.len() == 0 {
        generic_failure_message()
    } else {
        diagnostics
    }
}

impl ConversionResultView {
    /// A success carries no error; a failure carries an error and no size.
    pub open spec fn well_formed(self) -> bool {
        if self.success {
            self.error is None
        } else {
            self.output_size is None && self.error is Some
        }
    }

    /// The failure with the given message.
    pub open spec fn failure(
        input_path: Seq<char>,
        output_path: Seq<char>,
        message: Seq<char>,
    ) -> ConversionResultView {
        ConversionResultView {
            input_path,
            output_path,
            output_size: None,
            success: false,
            error: Some(message),
        }
    }

    /// The result of a request whose output file was already there.
    pub open spec fn already_exists(
        input_path: Seq<char>,
        output_path: Seq<char>,
    ) -> ConversionResultView {
        Self::failure(input_path, output_path, already_exists_message())
    }

    /// The result of a request whose tool could not be started, for `reason`.
    pub open spec fn launch_failed(
        input_path: Seq<char>,
        output_path: Seq<char>,
        reason: Seq<char>,
    ) -> ConversionResultView {
        Self::failure(input_path, output_path, launch_failure_prefix() + reason)
    }

    /// The result of a request whose tool ran and failed, having written
    /// `diagnostics`.
    pub open spec fn tool_failed(
        input_path: Seq<char>,
        output_path: Seq<char>,
        diagnostics: Seq<char>,
    ) -> ConversionResultView {
        Self::failure(input_path, output_path, failure_message(diagnostics))
    }

    /// The result of a request whose tool ran to success and left a file of
    /// `output_size` bytes, where that size could be read.
    pub open spec fn succeeded(
        input_path: Seq<char>,
        output_path: Seq<char>,
        output_size: Option<u64>,
    ) -> ConversionResultView {
        ConversionResultView {
            input_path,
            output_path,
            output_size,
            success: true,
            error: None,
        }
    }
}

impl ConversionResult {
    /// Whether this result keeps the rule that ties `success` to `error` and
    /// `output_size`.
    pub fn is_well_formed(&self) -> (ok: bool)
        ensures
            ok == self@.well_formed(),
    {
        if self.success {
            self.error.is_none()
        } else {
            self.output_size.is_none() && self.error.is_some()
        }
    }

    /// The result of a request that is turned down because a file already
    /// exists at `output_path`.
    pub fn already_exists(input_path: String, output_path: String) -> (result: ConversionResult)
        ensures
            result@ == ConversionResultView::already_exists(input_path@, output_path@),
            result@.well_formed(),
    {
        ConversionResult {
            input_path,
            output_path,
            output_size: None,
            success: false,
            error: Some(String::from_str("Output file already exists")),
        }
    }

    /// The result of a request whose tool could not be started, for `reason`.
    pub fn launch_failed(input_path: String, output_path: String, reason: &str) -> (result:
        ConversionResult)
        ensures
            result@ == ConversionResultView::launch_failed(input_path@, output_path@, reason@),
            result@.well_formed(),
    {
        let mut message = String::from_str("Failed to execute FFmpeg: ");
        message.append(reason);
        ConversionResult {
            input_path,
            output_path,
            output_size: None,
            success: false,
            error: Some(message),
        }
    }

    /// The result of a request whose tool ran and failed, having written
    /// `diagnostics`.
    pub fn tool_failed(input_path: String, output_path: String, diagnostics: String) -> (result:
        ConversionResult)
        ensures
            result@ == ConversionResultView::tool_failed(input_path@, output_path@, diagnostics@),
            result@.well_formed(),
    {
        let message = if diagnostics.as_str().is_empty() {
            String::from_str("FFmpeg conversion failed")
        } else {
            diagnostics
        };
        ConversionResult {
            input_path,
            output_path,
            output_size: None,
            success: false,
            error: Some(message),
        }
    }

    /// The result of a request whose tool ran to success. `output_size` is
    /// the size of the written file, or `None` where it could not be read.
    pub fn succeeded(input_path: String, output_path: String, output_size: Option<u64>) -> (result:
        ConversionResult)
        ensures
            result@ == ConversionResultView::succeeded(input_path@, output_path@, output_size),
            result@.well_formed(),
    {
        ConversionResult { input_path, output_path, output_size, success: true, error: None }
    }
}

} // verus!
