//! The ways in which reading a process's command line can fail.

use vstd::prelude::*;

verus! {

/// Why the command line of a process could not be recovered. Each kind names
/// the step that failed and carries nothing of the inspected process.
#[derive(Clone, Copy, Debug, PartialEq, Eq, Structural)]
pub enum WinError {
    /// The basic-information query failed or gave no control-block address.
    NtQueryFailed,
    /// The control block does not lie in committed read/write memory.
    MemoryProtectionFailed,
    /// The control block could not be read, or holds no parameters pointer.
    PebReadFailed,
    /// The process parameters do not lie in committed read/write memory.
    ProcessParametersMemoryProtectionFailed,
    /// The command-line buffer could not be read.
    CommandLineReadFailed,
    /// The process has no command line, or it decodes to nothing.
    EmptyCommandLine,
}

impl WinError {
    /// The description of this failure.
    pub open spec fn message_view(self) -> Seq<char> {
        match self {
            WinError::NtQueryFailed => "Failed to query process information"@,
            WinError::MemoryProtectionFailed => "Memory protection check failed for process PEB"@,
            WinError::PebReadFailed => "Failed to read process PEB"@,
            WinError::ProcessParametersMemoryProtectionFailed => "Memory protection check failed for process parameters"@,
            WinError::CommandLineReadFailed => "Failed to read command line from process memory"@,
            WinError::EmptyCommandLine => "Command line is empty"@,
        }
    }

    /// Renders this failure as text.
    pub fn message(&self) -> (text: String)
        ensures
            text@ == self.message_view(),
    {
        match self {
            WinError::NtQueryFailed => "Failed to query process information".to_owned(),
            WinError::MemoryProtectionFailed => "Memory protection check failed for process PEB".to_owned(),
            WinError::PebReadFailed => "Failed to read process PEB".to_owned(),
            WinError::ProcessParametersMemoryProtectionFailed => "Memory protection check failed for process parameters".to_owned(),
            WinError::CommandLineReadFailed => "Failed to read command line from process memory".to_owned(),
            WinError::EmptyCommandLine => "Command line is empty".to_owned(),
        }
    }
}

/// The text that opens every command-line placeholder.
pub open spec fn placeholder_prefix() -> Seq<char> {
    "Failed to get command line: "@
}

/// The text that stands in for the command line of a process whose command
/// line could not be read.
pub open spec fn placeholder_view(error: WinError) -> Seq<char> {
    placeholder_prefix() + error.message_view()
}

/// Builds the placeholder that reports `error` in place of a command line.
pub fn command_line_placeholder(error: WinError) -> (text: String)
    ensures
        text@ == placeholder_view(error),
{
    let mut text: String = "Failed to get command line: ".to_owned();
    let message: String = error.message();
    text.append(message.as_str());
    text
}

/// A placeholder is never empty and begins with "Failed to get command line:".
pub proof fn lemma_placeholder_shape(error: WinError)
    ensures
        placeholder_view(error).len() > 0,
        "Failed to get command line:"@.is_prefix_of(placeholder_view(error)),
{
    reveal_strlit("Failed to get command line: ");
    reveal_strlit("Failed to get command line:");
    let short = "Failed to get command line:"@;
    let long = placeholder_prefix();
    assert(short =~= long.take(27));
    assert(short =~= placeholder_view(error).subrange(0, 27));
}

} // verus!
