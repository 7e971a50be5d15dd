//! The failures of a clipboard operation and the text that describes each.

use vstd::prelude::*;
use vstd::string::StringExecFns;

verus! {

/// Errors that can occur when working with the clipboard.
#[derive(Debug)]
pub enum ClipboardError {
    /// The platform clipboard could not be opened.
    InitializationFailed(String),
    /// The platform rejected the write.
    CopyFailed(String),
    /// The platform rejected the read.
    ReadFailed(String),
    /// The clipboard holds something that is not text.
    NonTextData,
    /// The clipboard has no content.
    Empty,
}

/// Whether `detail` is the text that `cause` displays as.
pub open spec fn displays_as(cause: &arboard::Error, detail: String) -> bool {
    vstd::string::to_string_from_display_ensures::<arboard::Error>(cause, detail)
}

/// Whether `detail` is the text that some platform error displays as.
pub open spec fn is_platform_detail(detail: String) -> bool {
    exists|cause: arboard::Error| displays_as(&cause, detail)
}

impl ClipboardError {
    /// The one-line description of this error: a fixed phrase for its kind,
    /// followed by the platform's detail where the kind carries one.
    pub open spec fn description(&self) -> Seq<char> {
        match self {
            ClipboardError::InitializationFailed(detail) => "Failed to initialize clipboard: "@
                + detail@,
            ClipboardError::CopyFailed(detail) => "Failed to copy to clipboard: "@ + detail@,
            ClipboardError::ReadFailed(detail) => "Failed to read from clipboard: "@ + detail@,
            ClipboardError::NonTextData => "Clipboard contains non-text data"@,
            ClipboardError::Empty => "Clipboard is empty"@,
        }
    }

    /// Renders the description as an owned string.
    pub fn to_string(&self) -> (text: String)
        ensures
            text@ == self.description(),
    {
        match self {
            ClipboardError::InitializationFailed(detail) => String::from_str(
                "Failed to initialize clipboard: ",
            ).concat(detail.as_str()),
            ClipboardError::CopyFailed(detail) => String::from_str(
                "Failed to copy to clipboard: ",
            ).concat(detail.as_str()),
            ClipboardError::ReadFailed(detail) => String::from_str(
                "Failed to read from clipboard: ",
            ).concat(detail.as_str()),
            ClipboardError::NonTextData => String::from_str("Clipboard contains non-text data"),
            ClipboardError::Empty => String::from_str("Clipboard is empty"),
        }
    }
}

} // verus!
