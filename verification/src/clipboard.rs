//! Errors of the clipboard and the paste that follows a copy.

use vstd::prelude::*;
use vstd::string::StringExecFns;

verus! {

/// Why the clipboard could not be used.
#[derive(Debug)]
pub enum ClipboardError {
    /// The clipboard could not be read; the platform's words are kept.
    ReadError(String),
    /// The clipboard could not be written; the platform's words are kept.
    WriteError(String),
}

impl ClipboardError {
    /// The error as one line.
    pub fn message(&self) -> (text: String)
        ensures
            text@ == match *self {
                ClipboardError::ReadError(detail) => "Failed to read clipboard: "@ + detail@,
                ClipboardError::WriteError(detail) => "Failed to write clipboard: "@ + detail@,
            },
    {
        match self {
            ClipboardError::ReadError(detail) => String::from_str(
                "Failed to read clipboard: ",
            ).concat(detail.as_str()),
            ClipboardError::WriteError(detail) => String::from_str(
                "Failed to write clipboard: ",
            ).concat(detail.as_str()),
        }
    }
}

/// The PowerShell command that puts `text` on the clipboard: the text stands
/// in a here-string, on lines of its own.
pub open spec fn set_clipboard_command_text(text: Seq<char>) -> Seq<char> {
    "Set-Clipboard -Value @'\n"@ + text + "\n'@"@
}

/// The PowerShell command that puts `text` on the clipboard.
pub fn set_clipboard_command(text: &str) -> (command: String)
    ensures
        command@ == set_clipboard_command_text(text@),
{
    String::from_str("Set-Clipboard -Value @'\n").concat(text).concat("\n'@")
}

/// Pastes what the clipboard holds into the window in front. No key press is
/// simulated: the call succeeds and leaves the paste to the user.
pub fn simulate_paste() -> (done: Result<(), ClipboardError>)
    ensures
        done is Ok,
{
    Ok(())
}

} // verus!
