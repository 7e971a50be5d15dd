//! Clipboard access behind a single-tool server: the text handed to the
//! `copy_to_clipboard` tool is placed on the system clipboard, and the caller
//! is told how many characters were copied.

pub mod clipboard;
pub mod decimal;
pub mod error;
mod platform;
pub mod server;

pub use clipboard::ClipboardManager;
pub use error::ClipboardError;
pub use server::{CopyToClipboardInput, KlipServer, ServerInfo, ToolError};
