use app_container_tokens::error::{command_line_placeholder, WinError};

#[test]
fn every_failure_has_its_message() {
    assert_eq!(WinError::NtQueryFailed.message(), "Failed to query process information");
    assert_eq!(
        WinError::MemoryProtectionFailed.message(),
        "Memory protection check failed for process PEB"
    );
    assert_eq!(WinError::PebReadFailed.message(), "Failed to read process PEB");
    assert_eq!(
        WinError::ProcessParametersMemoryProtectionFailed.message(),
        "Memory protection check failed for process parameters"
    );
    assert_eq!(
        WinError::CommandLineReadFailed.message(),
        "Failed to read command line from process memory"
    );
    assert_eq!(WinError::EmptyCommandLine.message(), "Command line is empty");
}

#[test]
fn messages_are_distinct() {
    let all = [
        WinError::NtQueryFailed,
        WinError::MemoryProtectionFailed,
        WinError::PebReadFailed,
        WinError::ProcessParametersMemoryProtectionFailed,
        WinError::CommandLineReadFailed,
        WinError::EmptyCommandLine,
    ];
    for (i, a) in all.iter().enumerate() {
        for (j, b) in all.iter().enumerate() {
            assert_eq!(i == j, a.message() == b.message());
        }
    }
}

#[test]
fn placeholder_embeds_the_failure() {
    assert_eq!(
        command_line_placeholder(WinError::PebReadFailed),
        "Failed to get command line: Failed to read process PEB"
    );
    assert_eq!(
        command_line_placeholder(WinError::EmptyCommandLine),
        "Failed to get command line: Command line is empty"
    );
}

#[test]
fn placeholders_begin_alike() {
    let all = [
        WinError::NtQueryFailed,
        WinError::MemoryProtectionFailed,
        WinError::PebReadFailed,
        WinError::ProcessParametersMemoryProtectionFailed,
        WinError::CommandLineReadFailed,
        WinError::EmptyCommandLine,
    ];
    for error in all {
        let text = command_line_placeholder(error);
        assert!(text.starts_with("Failed to get command line:"));
        assert!(text.ends_with(&error.message()));
    }
}
