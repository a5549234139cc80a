//! The command lines handed to FFmpeg.

use crate::decimal::{decimal, decimal_string};
use crate::filter::{filter_text, scale_filter};
use crate::settings::ConversionSettings;
use vstd::prelude::*;
use vstd::string::*;

verus! {

/// The name under which the bundled tool is looked up.
pub open spec fn tool_name() -> Seq<char> {
    "ffmpeg"@
}

/// The flag that lets FFmpeg replace an existing output file, or forbids it.
pub open spec fn overwrite_flag(overwrite: bool) -> Seq<char> {
    if overwrite {
        "-y"@
    } else {
        "-n"@
    }
}

/// The arguments of the run that converts `input_path` into `output_path`.
///
/// In order: no banner; errors only in the log; the overwrite flag; the
/// input; no audio; the filter of `filter_text`; the cap on encoded frames;
/// the WebP encoder, lossy, with the photo preset, the quality and the
/// compression effort of `settings`; endless looping; frame timing passed
/// through; and last the output.
pub open spec fn conversion_arguments(
    input_path: Seq<char>,
    output_path: Seq<char>,
    settings: ConversionSettings,
) -> Seq<Seq<char>> {
    seq![
        "-hide_banner"@,
        "-loglevel"@,
        "error"@,
        overwrite_flag(settings.overwrite),
        "-i"@,
        input_path,
        "-an"@,
        "-vf"@,
        filter_text(settings.fps as nat, settings.max_dimension as nat),
        "-frames:v"@,
        decimal(settings.max_frames as nat),
        "-c:v"@,
        "libwebp"@,
        "-lossless"@,
        "0"@,
        "-preset"@,
        "photo"@,
        "-qscale:v"@,
        decimal(settings.quality as nat),
        "-compression_level"@,
        decimal(settings.compression_level as nat),
        "-loop"@,
        "0"@,
        "-fps_mode"@,
        "passthrough"@,
        output_path,
    ]
}

/// The arguments of the run that asks the tool for its version.
pub open spec fn version_arguments() -> Seq<Seq<char>> {
    seq!["-version"@]
}

/// The name under which the bundled tool is looked up.
pub fn tool_name_text() -> (name: &'static str)
    ensures
        name@ == tool_name(),
{
    "ffmpeg"
}

/// Builds the arguments of the run that converts `input_path` into
/// `output_path` under `settings`.
pub fn conversion_argument_list(
    input_path: &str,
    output_path: &str,
    settings: &ConversionSettings,
) -> (args: Vec<String>)
    ensures
        args.deep_view() == conversion_arguments(input_path@, output_path@, *settings),
{
    let mut args: Vec<String> = Vec::new();
    args.push(String::from_str("-hide_banner"));
    args.push(String::from_str("-loglevel"));
    args.push(String::from_str("error"));
    args.push(String::from_str(if settings.overwrite { "-y" } else { "-n" }));
    args.push(String::from_str("-i"));
    args.push(String::from_str(input_path));
    args.push(String::from_str("-an"));
    args.push(String::from_str("-vf"));
    args.push(scale_filter(settings.fps, settings.max_dimension));
    args.push(String::from_str("-frames:v"));
    args.push(decimal_string(settings.max_frames));
    args.push(String::from_str("-c:v"));
    args.push(String::from_str("libwebp"));
    args.push(String::from_str("-lossless"));
    args.push(String::from_str("0"));
    args.push(String::from_str("-preset"));
    args.push(String::from_str("photo"));
    args.push(String::from_str("-qscale:v"));
    args.push(decimal_string(settings.quality));
    args.push(String::from_str("-compression_level"));
    args.push(decimal_string(settings.compression_level));
    args.push(String::from_str("-loop"));
    args.push(String::from_str("0"));
    args.push(String::from_str("-fps_mode"));
    args.push(String::from_str("passthrough"));
    args.push(String::from_str(output_path));
    assert(args.deep_view() =~= conversion_arguments(input_path@, output_path@, *settings));
    args
}

/// Builds the arguments of the run that asks the tool for its version.
pub fn version_argument_list() -> (args: Vec<String>)
    ensures
        args.deep_view() == version_arguments(),
{
    let mut args: Vec<String> = Vec::new();
    args.push(String::from_str("-version"));
    assert(args.deep_view() =~= version_arguments());
    args
}

} // verus!
