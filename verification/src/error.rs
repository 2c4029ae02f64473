//! The failure taxonomy of the conversion pipeline.

use vstd::prelude::*;

verus! {

/// Why a conversion stopped.  Every failure is detected at its origin and
/// returned at once; no operation retries or recovers.
#[derive(Debug)]
pub enum SvgError {
    /// The text is not a valid SVG document; carries the parser's message.
    Parse(String),
    /// The requested raster dimensions are zero or too large to allocate.
    Allocation,
    /// A caller-supplied argument is out of range (a scale of zero).
    InvalidArgument,
    /// The PNG encoder rejected the populated raster; carries its message.
    Encoding(String),
}

impl SvgError {
    /// The human-readable message this error carries.
    pub open spec fn message_view(&self) -> Seq<char> {
        match self {
            SvgError::Parse(m) => m@,
            SvgError::Allocation => "Failed to create pixmap"@,
            SvgError::InvalidArgument => "Scale factor must be positive"@,
            SvgError::Encoding(m) => m@,
        }
    }

    /// A human-readable description of the failure.
    pub fn message(&self) -> (m: &str)
        ensures
            m@ == self.message_view(),
    {
        match self {
            SvgError::Parse(m) => m.as_str(),
            SvgError::Allocation => "Failed to create pixmap",
            SvgError::InvalidArgument => "Scale factor must be positive",
            SvgError::Encoding(m) => m.as_str(),
        }
    }
}

} // verus!
