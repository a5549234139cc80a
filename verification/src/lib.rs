//! Planning and interpreting video-to-WebP conversions performed by an
//! external FFmpeg process.

pub mod command;
pub mod conversion;
pub mod course;
pub mod decimal;
pub mod filter;
pub mod path;
pub mod report;
pub mod settings;
pub mod tool;
