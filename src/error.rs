//! Outcomes of an export.
use vstd::prelude::*;
use crate::timecode::{digits, push_decimal};

verus! {

/// Why an export failed.
#[derive(Clone, Debug)]
pub enum ExportError {
    /// Neither the bundled tool nor one on the search path could be found.
    ToolNotFound,
    /// The request held no segment.
    NoSegments,
    /// The cut of the segment at this 1-based position failed, with the
    /// tool's diagnostic text.
    SegmentFailure { index: usize, diagnostic: String },
    /// The tool could not be started at all.
    ToolLaunchFailure(String),
    /// The concatenation of the cut segments failed.
    AssemblyFailure(String),
    /// A directory could not be made, or a file copied or written.
    Io(String),
}

/// The human-readable text of an error.
pub open spec fn error_text(e: ExportError) -> Seq<char> {
    match e {
        ExportError::ToolNotFound => "transcoding tool not found"@,
        ExportError::NoSegments => "at least one segment must be selected"@,
        ExportError::SegmentFailure { index, diagnostic } =>
            "cutting segment "@ + digits(index as nat) + " failed: "@ + diagnostic@,
        ExportError::ToolLaunchFailure(cause) => "transcoding tool could not be run: "@ + cause@,
        ExportError::AssemblyFailure(cause) => "joining the segments failed: "@ + cause@,
        ExportError::Io(cause) => cause@,
    }
}

impl ExportError {
    /// The message reported to the caller.
    pub fn message(&self) -> (r: String)
        ensures
            r@ == error_text(*self),
    {
        match self {
            ExportError::ToolNotFound => String::from_str("transcoding tool not found"),
            ExportError::NoSegments => String::from_str("at least one segment must be selected"),
            ExportError::SegmentFailure { index, diagnostic } => {
                let mut s = String::from_str("cutting segment ");
                push_decimal(&mut s, *index as u64);
                s.append(" failed: ");
                s.append(diagnostic.as_str());
                s
            },
            ExportError::ToolLaunchFailure(cause) => {
                let mut s = String::from_str("transcoding tool could not be run: ");
                s.append(cause.as_str());
                s
            },
            ExportError::AssemblyFailure(cause) => {
                let mut s = String::from_str("joining the segments failed: ");
                s.append(cause.as_str());
                s
            },
            ExportError::Io(cause) => cause.clone(),
        }
    }
}

/// The outcome of a finished export.
#[derive(Clone, Debug)]
pub struct ExportResult {
    pub success: bool,
    pub message: String,
}

/// The message of a successful export.
pub open spec fn success_text() -> Seq<char> {
    "video exported successfully"@
}

impl ExportResult {
    /// The result of an export that wrote all of its output.
    pub fn exported() -> (r: ExportResult)
        ensures
            r.success,
            r.message@ == success_text(),
    {
        ExportResult { success: true, message: String::from_str("video exported successfully") }
    }
}

} // verus!
