//! The clipboard manager: one live handle to the platform clipboard, with the
//! platform's failures reported as [`ClipboardError`].
//!
//! What the platform answers is decided outside this library. Each operation
//! therefore comes in two parts: a function that says, for every answer the
//! platform can give, what the manager makes of it, and the method that asks
//! the platform and hands the answer to that function.

use vstd::prelude::*;

use crate::error::{displays_as, is_platform_detail, ClipboardError};
use crate::platform;

verus! {

/// Manages clipboard operations across platforms.
pub struct ClipboardManager {
    clipboard: arboard::Clipboard,
}

/// Whether `managed` is what the manager makes of the platform's answer to a
/// request for a handle: the manager of that handle, or
/// `InitializationFailed` with the text of the platform's error.
pub open spec fn opens_as(
    opened: Result<arboard::Clipboard, arboard::Error>,
    managed: Result<ClipboardManager, ClipboardError>,
) -> bool {
    match opened {
        Ok(clipboard) => managed matches Ok(manager) && manager.handle() == clipboard,
        Err(cause) => managed matches Err(ClipboardError::InitializationFailed(detail))
            && displays_as(&cause, detail),
    }
}

/// Whether `copied` is what the manager makes of the platform's answer to a
/// write: success, or `CopyFailed` with the text of the platform's error.
pub open spec fn copies_as(
    written: Result<(), arboard::Error>,
    copied: Result<(), ClipboardError>,
) -> bool {
    match written {
        Ok(()) => copied is Ok,
        Err(cause) => copied matches Err(ClipboardError::CopyFailed(detail)) && displays_as(
            &cause,
            detail,
        ),
    }
}

/// Whether `read` is what the manager makes of the platform's answer to a
/// read: the platform's text, unchanged, or `ReadFailed` with the text of the
/// platform's error.
pub open spec fn reads_as(
    fetched: Result<String, arboard::Error>,
    read: Result<String, ClipboardError>,
) -> bool {
    match fetched {
        Ok(text) => read matches Ok(same) && same@ == text@,
        Err(cause) => read matches Err(ClipboardError::ReadFailed(detail)) && displays_as(
            &cause,
            detail,
        ),
    }
}

impl ClipboardManager {
    /// The platform handle that this manager owns.
    pub closed spec fn handle(&self) -> arboard::Clipboard {
        self.clipboard
    }

    /// The manager for the platform's answer to a request for a handle.
    pub fn from_opened(opened: Result<arboard::Clipboard, arboard::Error>) -> (managed: Result<
        Self,
        ClipboardError,
    >)
        ensures
            opens_as(opened, managed),
    {
        match opened {
            Ok(clipboard) => Ok(ClipboardManager { clipboard }),
            Err(cause) => Err(ClipboardError::InitializationFailed(cause.to_string())),
        }
    }

    /// The outcome of a copy for the platform's answer to the write.
    pub fn copy_outcome(written: Result<(), arboard::Error>) -> (copied: Result<
        (),
        ClipboardError,
    >)
        ensures
            copies_as(written, copied),
    {
        match written {
            Ok(()) => Ok(()),
            Err(cause) => Err(ClipboardError::CopyFailed(cause.to_string())),
        }
    }

    /// The outcome of a read for the platform's answer to it.
    pub fn get_outcome(fetched: Result<String, arboard::Error>) -> (read: Result<
        String,
        ClipboardError,
    >)
        ensures
            reads_as(fetched, read),
    {
        match fetched {
            Ok(text) => Ok(text),
            Err(cause) => Err(ClipboardError::ReadFailed(cause.to_string())),
        }
    }

    /// Opens the platform clipboard. The only failure is
    /// `InitializationFailed`, with the platform's own words as its detail;
    /// it is reported at once and not retried.
    pub fn new() -> (managed: Result<Self, ClipboardError>)
        ensures
            managed is Err ==> (managed matches Err(ClipboardError::InitializationFailed(detail))
                && is_platform_detail(detail)),
    {
        Self::from_opened(platform::open())
    }

    /// Asks the platform to replace the clipboard's text by `text`. The only
    /// failure is `CopyFailed`, with the platform's own words as its detail.
    pub fn copy(&mut self, text: &str) -> (copied: Result<(), ClipboardError>)
        ensures
            copied is Err ==> (copied matches Err(ClipboardError::CopyFailed(detail))
                && is_platform_detail(detail)),
    {
        Self::copy_outcome(platform::set_text(&mut self.clipboard, text))
    }

    /// Asks the platform for the clipboard's text and hands it on unchanged.
    /// The only failure is `ReadFailed`, with the platform's own words as its
    /// detail.
    pub fn get(&mut self) -> (read: Result<String, ClipboardError>)
        ensures
            read is Err ==> (read matches Err(ClipboardError::ReadFailed(detail))
                && is_platform_detail(detail)),
    {
        Self::get_outcome(platform::get_text(&mut self.clipboard))
    }
}

} // verus!
