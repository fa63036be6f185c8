//! The failure taxonomy of the library.
use vstd::prelude::*;
use vstd::string::StringExecFns;

verus! {

/// Everything that can go wrong while summarizing or binning a source.
///
/// Malformed individual records never raise one of these: they are recovered
/// locally by skipping. Only container-level failures abort a call.
#[derive(Debug)]
pub enum DataError {
    /// The source could not be opened or read at all.
    Open(String),
    /// The container structure could not be parsed.
    Format(String),
    /// A requested axis column index lies beyond the header width.
    AxisRange,
    /// No row yielded numeric values on the requested axes.
    NoNumericData,
    /// The file type tag is unknown to the summarizer; carries the
    /// offending tag.
    Unsupported(String),
    /// The file type tag names a source the binning engine cannot consume;
    /// carries the offending tag.
    LodUnsupported(String),
}

impl DataError {
    /// The human-readable rendering of this error.
    pub open spec fn spec_message(&self) -> Seq<char> {
        match self {
            DataError::Open(m) => "open error: "@ + m@,
            DataError::Format(m) => "format error: "@ + m@,
            DataError::AxisRange => "Axis index out of range"@,
            DataError::NoNumericData => "No numeric data found"@,
            DataError::Unsupported(t) => "Unsupported file type "@ + t@,
            DataError::LodUnsupported(t) => "LOD not supported for "@ + t@,
        }
    }

    /// Renders the error as text.
    pub fn message(&self) -> (r: String)
        ensures
            r@ == self.spec_message(),
    {
        match self {
            DataError::Open(m) => String::from_str("open error: ").concat(m.as_str()),
            DataError::Format(m) => String::from_str("format error: ").concat(m.as_str()),
            DataError::AxisRange => String::from_str("Axis index out of range"),
            DataError::NoNumericData => String::from_str("No numeric data found"),
            DataError::Unsupported(t) => String::from_str("Unsupported file type ").concat(
                t.as_str(),
            ),
            DataError::LodUnsupported(t) => String::from_str("LOD not supported for ").concat(
                t.as_str(),
            ),
        }
    }
}

} // verus!
