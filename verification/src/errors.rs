//! The failures the pipeline can report.

use vstd::prelude::*;

verus! {

/// Which part of the source path was missing when an output path was derived.
#[derive(Clone, Copy, Debug, PartialEq, Eq, Structural)]
pub enum PathErrorKind {
    /// The source path was empty, so no parent directory exists.
    MissingParent,
    /// The source path names no file (it is empty after its last separator).
    MissingStem,
    /// The source file name carries no extension, but one was needed.
    MissingExtension,
}

/// Every error a run of the optimizer can surface.
#[derive(Clone, Copy, Debug, PartialEq, Eq, Structural)]
pub enum OptError {
    /// No work was requested, or a pixel buffer does not match its
    /// stated dimensions.
    ConfigurationError,
    /// A target width would force a degenerate (zero) scaling factor.
    InvalidTarget { target_width: usize },
    /// The resampler rejected the dimension pair or the buffer shape, or
    /// failed on it; carries the offending destination dimensions.
    ResizeError { dest_width: usize, dest_height: usize },
    /// A lossy encoder reported failure.
    CompressionFailed,
    /// The source path lacks a component the naming scheme needs.
    PathError { kind: PathErrorKind },
    /// Creating a directory or writing an output file failed.
    IoError,
}

} // verus!
