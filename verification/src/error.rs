use vstd::prelude::*;

verus! {

/// The failures the viewer can report. Every variant carries the text that
/// the failing collaborator gave, if any.
#[derive(Debug)]
pub enum SvgError {
    /// The file could not be read.
    Io(String),
    /// The document is malformed.
    Parse(String),
    /// Zero or invalid dimensions, or no pixel buffer could be allocated.
    Render(String),
    /// The encoder failed, or the pixel buffer does not match the image size.
    Export(String),
    /// The system clipboard refused the image.
    Clipboard(String),
    /// No document is loaded.
    NoFile,
}

impl SvgError {
    /// The text shown to the user for this error.
    pub open spec fn message_spec(self) -> Seq<char> {
        match self {
            SvgError::Io(detail) => "Failed to read file: "@ + detail@,
            SvgError::Parse(detail) => "Failed to parse SVG: "@ + detail@,
            SvgError::Render(detail) => "Failed to render SVG: "@ + detail@,
            SvgError::Export(detail) => "Failed to export image: "@ + detail@,
            SvgError::Clipboard(detail) => "Clipboard error: "@ + detail@,
            SvgError::NoFile => "No file loaded"@,
        }
    }

    /// Renders the error as the user-visible message.
    pub fn message(&self) -> (text: String)
        ensures
            text@ == self.message_spec(),
    {
        match self {
            SvgError::Io(detail) => String::from_str("Failed to read file: ").concat(
                detail.as_str(),
            ),
            SvgError::Parse(detail) => String::from_str("Failed to parse SVG: ").concat(
                detail.as_str(),
            ),
            SvgError::Render(detail) => String::from_str("Failed to render SVG: ").concat(
                detail.as_str(),
            ),
            SvgError::Export(detail) => String::from_str("Failed to export image: ").concat(
                detail.as_str(),
            ),
            SvgError::Clipboard(detail) => String::from_str("Clipboard error: ").concat(
                detail.as_str(),
            ),
            SvgError::NoFile => String::from_str("No file loaded"),
        }
    }
}

} // verus!
