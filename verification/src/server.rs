//! The tool server: one callable operation, `copy_to_clipboard`, with its
//! replies, and what the server advertises of itself.

use vstd::prelude::*;
use vstd::string::StrSliceExecFns;
use vstd::string::StringExecFns;

use crate::clipboard::{opens_as, ClipboardManager};
use crate::decimal::{decimal_digits, decimal_value, lemma_decimal_round_trip, push_decimal};
use crate::error::{displays_as, is_platform_detail, ClipboardError};

verus! {

/// The code of every failed tool call. It lies outside the codes that the
/// protocol defines for itself.
pub const TOOL_ERROR_CODE: i32 = -32000;

/// Input parameters for the `copy_to_clipboard` tool.
#[derive(Debug, Clone)]
pub struct CopyToClipboardInput {
    /// The text content to copy to the clipboard.
    pub text: String,
}

/// A failed tool call: a code for the machine and one line for the reader.
#[derive(Debug, Clone)]
pub struct ToolError {
    pub code: i32,
    pub message: String,
}

/// What the server advertises of itself.
#[derive(Debug, Clone)]
pub struct ServerInfo {
    /// How the server describes itself to a caller.
    pub instructions: String,
    /// Whether the server offers callable tools.
    pub offers_tools: bool,
}

/// The server. It keeps nothing between calls: each call opens the clipboard
/// anew.
#[derive(Debug, Clone)]
pub struct KlipServer {}

/// The text of the reply to a call that copied `count` characters.
pub open spec fn success_text(count: nat) -> Seq<char> {
    "Successfully copied "@ + decimal_digits(count) + " characters to clipboard"@
}

/// The number that a success message reports: what stands between its fixed
/// opening and its fixed ending, read as a decimal numeral.
pub open spec fn reported_count(message: Seq<char>) -> nat {
    decimal_value(
        message.subrange(
            "Successfully copied "@.len() as int,
            message.len() - " characters to clipboard"@.len(),
        ),
    )
}

/// Whether `failure` is the reply to a call that could not open the clipboard
/// or could not write to it, for some failure of the platform.
pub open spec fn reports_failed_copy(failure: ToolError) -> bool {
    exists|detail: String| #[trigger]
        is_platform_detail(detail) && (reports(
            failure,
            ClipboardError::InitializationFailed(detail),
        ) || reports(failure, ClipboardError::CopyFailed(detail)))
}

/// Whether `failure` is the reply to a call that failed with `error`.
pub open spec fn reports(failure: ToolError, error: ClipboardError) -> bool {
    failure.code == TOOL_ERROR_CODE && failure.message@ == error.description()
}

/// Whether `reply` answers a call for `text` whose copy ended as `outcome`:
/// the count of the characters of `text` where it succeeded, the error where
/// it failed.
pub open spec fn replies_as(
    text: Seq<char>,
    outcome: Result<(), ClipboardError>,
    reply: Result<String, ToolError>,
) -> bool {
    match outcome {
        Ok(()) => reply matches Ok(message) && message@ == success_text(text.len()),
        Err(error) => reply matches Err(failure) && reports(failure, error),
    }
}

/// The count that a success message reports is the count it was built from.
pub proof fn lemma_reported_count(count: nat)
    ensures
        reported_count(success_text(count)) == count,
{
    let opening = "Successfully copied "@;
    let ending = " characters to clipboard"@;
    let digits = decimal_digits(count);
    let message = success_text(count);
    assert(message.subrange(opening.len() as int, message.len() - ending.len()) =~= digits);
    lemma_decimal_round_trip(count);
}

/// The reply to a successful call reports the number of characters of the
/// text that was copied.
pub proof fn lemma_reply_reports_char_count(text: Seq<char>, reply: Result<String, ToolError>)
    requires
        replies_as(text, Ok(()), reply),
    ensures
        reply matches Ok(message) && reported_count(message@) == text.len(),
{
    lemma_reported_count(text.len());
}

/// Where the platform grants no handle, no manager is made, and the call is
/// answered by a failure with the fixed code, whose message is the
/// description of an initialization failure with the platform's own words.
pub proof fn lemma_unavailable_clipboard_is_reported(
    cause: arboard::Error,
    managed: Result<ClipboardManager, ClipboardError>,
    text: Seq<char>,
    reply: Result<String, ToolError>,
)
    requires
        opens_as(Err(cause), managed),
        managed matches Err(error) ==> replies_as(text, Err(error), reply),
    ensures
        managed is Err,
        reply matches Err(failure) && failure.code == TOOL_ERROR_CODE && exists|detail: String|
            #[trigger] displays_as(&cause, detail) && failure.message@
                == "Failed to initialize clipboard: "@ + detail@,
{
}

/// The reply to a call that copied `count` characters.
pub fn success_message(count: usize) -> (message: String)
    ensures
        message@ == success_text(count as nat),
{
    let mut message = String::from_str("Successfully copied ");
    push_decimal(&mut message, count);
    message.append(" characters to clipboard");
    message
}

impl ToolError {
    /// The reply to a call that failed with `error`: the fixed code, and the
    /// error's description as the message.
    pub fn from_clipboard_error(error: &ClipboardError) -> (failure: ToolError)
        ensures
            reports(failure, *error),
    {
        ToolError { code: TOOL_ERROR_CODE, message: error.to_string() }
    }
}

impl KlipServer {
    /// A server, ready to accept a call.
    pub fn new() -> (server: Self) {
        KlipServer {  }
    }

    /// The reply to a call for `text` whose copy ended as `outcome`. No
    /// failure is passed over: the reply is a success exactly where the copy
    /// was one.
    pub fn reply(text: &str, outcome: Result<(), ClipboardError>) -> (reply: Result<
        String,
        ToolError,
    >)
        ensures
            replies_as(text@, outcome, reply),
    {
        match outcome {
            Ok(()) => Ok(success_message(text.unicode_len())),
            Err(error) => Err(ToolError::from_clipboard_error(&error)),
        }
    }

    /// Copies `params.text` to the system clipboard: opens the clipboard
    /// anew, writes the text, and replies.
    ///
    /// On success the reply reports the number of characters of the text, and
    /// not the number of its bytes. A call fails only where the clipboard
    /// cannot be opened or rejects the write, and the reply then carries that
    /// error's description.
    pub fn copy_to_clipboard(&self, params: CopyToClipboardInput) -> (reply: Result<
        String,
        ToolError,
    >)
        ensures
            match reply {
                Ok(message) => message@ == success_text(params.text@.len()),
                Err(failure) => reports_failed_copy(failure),
            },
    {
        let outcome = match ClipboardManager::new() {
            Ok(mut manager) => manager.copy(params.text.as_str()),
            Err(error) => Err(error),
        };
        Self::reply(params.text.as_str(), outcome)
    }

    /// What the server advertises: its description, and that it offers tools.
    pub fn get_info(&self) -> (info: ServerInfo)
        ensures
            info.instructions@
                == "A clipboard management server that allows copying text to the system clipboard"@,
            info.offers_tools,
    {
        ServerInfo {
            instructions: String::from_str(
                "A clipboard management server that allows copying text to the system clipboard",
            ),
            offers_tools: true,
        }
    }
}

} // verus!
