//! The boundary to the platform clipboard. Nothing here is proved: each item
//! states what is believed of `arboard`.

use vstd::prelude::*;

verus! {

/// `arboard::Clipboard`, a handle to the platform clipboard. Its contents are
/// not visible to the verifier.
#[verifier::external_type_specification]
#[verifier::external_body]
pub struct ExClipboard(arboard::Clipboard);

/// `arboard::Error`, the failure of a platform clipboard operation. Its
/// contents are not visible to the verifier.
#[verifier::external_type_specification]
#[verifier::external_body]
pub struct ExError(arboard::Error);

/// Calls `arboard::Clipboard::new`. Whether the platform grants a handle is
/// decided outside this library, so nothing is claimed of the result.
#[verifier::external_body]
pub(crate) fn open() -> (opened: Result<arboard::Clipboard, arboard::Error>) {
    arboard::Clipboard::new()
}

/// Calls `arboard::Clipboard::set_text` with `text`. Whether the platform
/// accepts the write is decided outside this library, so nothing is claimed
/// of the result.
#[verifier::external_body]
pub(crate) fn set_text(clipboard: &mut arboard::Clipboard, text: &str) -> (written: Result<
    (),
    arboard::Error,
>) {
    clipboard.set_text(text)
}

/// Calls `arboard::Clipboard::get_text`. What the clipboard holds is decided
/// outside this library, so nothing is claimed of the result.
#[verifier::external_body]
pub(crate) fn get_text(clipboard: &mut arboard::Clipboard) -> (read: Result<
    String,
    arboard::Error,
>) {
    clipboard.get_text()
}

} // verus!
