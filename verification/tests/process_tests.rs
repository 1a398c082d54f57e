use app_container_tokens::container::TokenProbe;
use app_container_tokens::error::WinError;
use app_container_tokens::filetime::FileTime;
use app_container_tokens::process::{
    command_line_text, container_endpoint_entry, creation_date, get_app_container_process_tokens,
    get_process_info, handle_names_process, process_info_entry, ContainerProbe, InfoProbe,
    OpenedProcess, ProcessIdentity, ProcessInfo, QueryError, WalkError,
};

fn identity(process_id: u32, parent_process_id: u32) -> ProcessIdentity {
    ProcessIdentity { process_id, parent_process_id }
}

fn unix_epoch() -> FileTime {
    FileTime { low: 0xD53E_8000, high: 0x019D_B1DE }
}

fn opened(
    process_id: u32,
    parent_process_id: u32,
    creation_time: Option<FileTime>,
    command_line: Result<String, WinError>,
) -> InfoProbe {
    InfoProbe {
        identity: identity(process_id, parent_process_id),
        opened: Some(OpenedProcess { handle: 0x2a0, creation_time, command_line }),
    }
}

fn path_buffer(text: &str) -> Vec<u16> {
    let mut units: Vec<u16> = text.encode_utf16().collect();
    units.resize(1024, 0);
    units
}

fn container(session_id: u32, object_path: &str) -> ContainerProbe {
    ContainerProbe {
        handle: Some(0x2a0),
        token: TokenProbe::Flag(1),
        session_id: Some(session_id),
        object_path: Some(path_buffer(object_path)),
    }
}

#[test]
fn creation_date_is_zero_without_process_times() {
    assert_eq!(creation_date(None), 0);
}

#[test]
fn creation_date_is_the_unix_timestamp() {
    assert_eq!(creation_date(Some(unix_epoch())), 0);
    assert_eq!(creation_date(Some(FileTime { low: 0, high: 0 })), -11644473600);
    assert_eq!(creation_date(Some(FileTime { low: 0xD53E_8000 + 10_000_000, high: 0x019D_B1DE })), 1);
}

#[test]
fn command_line_is_kept_as_read() {
    assert_eq!(command_line_text(&Ok("cmd.exe /c dir".to_string())), "cmd.exe /c dir");
}

#[test]
fn failed_read_becomes_a_placeholder() {
    assert_eq!(
        command_line_text(&Err(WinError::NtQueryFailed)),
        "Failed to get command line: Failed to query process information"
    );
    assert_eq!(
        command_line_text(&Err(WinError::CommandLineReadFailed)),
        "Failed to get command line: Failed to read command line from process memory"
    );
}

#[test]
fn empty_text_becomes_the_empty_command_line_placeholder() {
    assert_eq!(
        command_line_text(&Ok(String::new())),
        "Failed to get command line: Command line is empty"
    );
}

#[test]
fn unopened_process_has_no_record() {
    let probe = InfoProbe { identity: identity(4, 0), opened: None };
    assert_eq!(process_info_entry(&probe), None);
}

#[test]
fn null_and_sentinel_name_no_process() {
    assert!(!handle_names_process(0));
    assert!(!handle_names_process(-1));
    assert!(handle_names_process(4));
    assert!(handle_names_process(-2));
}

#[test]
fn process_whose_open_gave_no_handle_has_no_record() {
    for handle in [0isize, -1] {
        let probe = InfoProbe {
            identity: identity(4, 0),
            opened: Some(OpenedProcess {
                handle,
                creation_time: Some(unix_epoch()),
                command_line: Ok("a.exe".to_string()),
            }),
        };
        assert_eq!(process_info_entry(&probe), None);
    }
}

#[test]
fn opened_process_has_a_full_record() {
    let ft = FileTime { low: 0xD53E_8000 + 50_000_000, high: 0x019D_B1DE };
    let probe = opened(1234, 567, Some(ft), Ok("C:\\a.exe --flag".to_string()));
    assert_eq!(
        process_info_entry(&probe),
        Some(ProcessInfo {
            process_id: 1234,
            parent_process_id: 567,
            creation_date: 5,
            command_line: "C:\\a.exe --flag".to_string(),
        })
    );
}

#[test]
fn degraded_fields_do_not_drop_the_record() {
    let probe = opened(88, 4, None, Err(WinError::MemoryProtectionFailed));
    assert_eq!(
        process_info_entry(&probe),
        Some(ProcessInfo {
            process_id: 88,
            parent_process_id: 4,
            creation_date: 0,
            command_line:
                "Failed to get command line: Memory protection check failed for process PEB"
                    .to_string(),
        })
    );
}

#[test]
fn process_info_lists_opened_processes_in_order() {
    let walk = vec![
        InfoProbe { identity: identity(0, 0), opened: None },
        opened(4, 0, None, Err(WinError::NtQueryFailed)),
        opened(100, 4, Some(unix_epoch()), Ok("smss.exe".to_string())),
        InfoProbe { identity: identity(200, 100), opened: None },
        opened(300, 100, Some(unix_epoch()), Err(WinError::EmptyCommandLine)),
    ];
    let records = get_process_info(Ok(walk)).unwrap();
    assert_eq!(
        records,
        vec![
            ProcessInfo {
                process_id: 4,
                parent_process_id: 0,
                creation_date: 0,
                command_line: "Failed to get command line: Failed to query process information"
                    .to_string(),
            },
            ProcessInfo {
                process_id: 100,
                parent_process_id: 4,
                creation_date: 0,
                command_line: "smss.exe".to_string(),
            },
            ProcessInfo {
                process_id: 300,
                parent_process_id: 100,
                creation_date: 0,
                command_line: "Failed to get command line: Command line is empty".to_string(),
            },
        ]
    );
    for record in &records {
        assert!(record.process_id > 0);
        assert!(!record.command_line.is_empty());
    }
}

#[test]
fn process_info_of_an_empty_walk_is_an_empty_list() {
    assert_eq!(get_process_info(Ok(Vec::new())), Ok(Vec::new()));
}

#[test]
fn process_info_without_any_opened_process_is_an_empty_list() {
    let walk = vec![
        InfoProbe { identity: identity(4, 0), opened: None },
        InfoProbe { identity: identity(8, 4), opened: None },
    ];
    assert_eq!(get_process_info(Ok(walk)), Ok(Vec::new()));
}

#[test]
fn process_info_fails_only_with_the_walk() {
    assert_eq!(
        get_process_info(Err(WalkError::SnapshotFailed)),
        Err(QueryError { message: "Failed to create process snapshot".to_string() })
    );
    assert_eq!(
        get_process_info(Err(WalkError::FirstEntryFailed)),
        Err(QueryError { message: "Failed to get first process in snapshot".to_string() })
    );
}

#[test]
fn container_process_has_an_endpoint() {
    assert_eq!(
        container_endpoint_entry(&container(2, "AppContainerNamedObjects\\S-1-15-2-1")),
        Some("\\\\.\\pipe\\Sessions\\2\\AppContainerNamedObjects\\S-1-15-2-1".to_string())
    );
}

#[test]
fn process_outside_a_container_has_no_endpoint() {
    let mut probe = container(2, "AppContainerNamedObjects\\S-1-15-2-1");
    probe.token = TokenProbe::Flag(0);
    assert_eq!(container_endpoint_entry(&probe), None);
}

#[test]
fn process_with_unreadable_token_has_no_endpoint() {
    let mut probe = container(2, "x");
    probe.token = TokenProbe::Unopened;
    assert_eq!(container_endpoint_entry(&probe), None);
    probe.token = TokenProbe::Unanswered;
    assert_eq!(container_endpoint_entry(&probe), None);
}

#[test]
fn unopened_process_has_no_endpoint() {
    let mut probe = container(2, "x");
    probe.handle = None;
    assert_eq!(container_endpoint_entry(&probe), None);
    probe.handle = Some(-1);
    assert_eq!(container_endpoint_entry(&probe), None);
    probe.handle = Some(0);
    assert_eq!(container_endpoint_entry(&probe), None);
}

#[test]
fn container_without_session_or_path_has_no_endpoint() {
    let mut probe = container(2, "x");
    probe.session_id = None;
    assert_eq!(container_endpoint_entry(&probe), None);
    let mut probe = container(2, "x");
    probe.object_path = None;
    assert_eq!(container_endpoint_entry(&probe), None);
    let mut probe = container(2, "x");
    probe.object_path = Some(vec![0x61; 1024]);
    assert_eq!(container_endpoint_entry(&probe), None);
}

#[test]
fn endpoints_list_only_container_processes_in_order() {
    let mut outside = container(1, "ignored");
    outside.token = TokenProbe::Flag(0);
    let mut unresolved = container(1, "ignored");
    unresolved.session_id = None;
    let walk = vec![
        ContainerProbe {
            handle: None,
            token: TokenProbe::Unopened,
            session_id: None,
            object_path: None,
        },
        container(1, "AppContainerNamedObjects\\S-1-15-2-1"),
        outside,
        unresolved,
        container(3, "AppContainerNamedObjects\\S-1-15-2-9"),
    ];
    assert_eq!(
        get_app_container_process_tokens(Ok(walk)),
        Ok(vec![
            "\\\\.\\pipe\\Sessions\\1\\AppContainerNamedObjects\\S-1-15-2-1".to_string(),
            "\\\\.\\pipe\\Sessions\\3\\AppContainerNamedObjects\\S-1-15-2-9".to_string(),
        ])
    );
}

#[test]
fn container_with_empty_object_path_is_passed_over() {
    let walk = vec![container(1, ""), container(2, "x")];
    assert_eq!(
        get_app_container_process_tokens(Ok(walk)),
        Ok(vec!["\\\\.\\pipe\\Sessions\\2\\x".to_string()])
    );
}

#[test]
fn every_endpoint_has_digits_and_a_path() {
    let walk = vec![container(0, "a"), container(4294967295, "b\\c"), container(7, "")];
    let tokens = get_app_container_process_tokens(Ok(walk)).unwrap();
    assert_eq!(tokens.len(), 2);
    for token in tokens {
        let rest = token.strip_prefix("\\\\.\\pipe\\Sessions\\").unwrap();
        let (digits, path) = rest.split_once('\\').unwrap();
        assert!(!digits.is_empty());
        assert!(digits.chars().all(|c| c.is_ascii_digit()));
        assert!(!path.is_empty());
    }
}

#[test]
fn endpoints_of_a_walk_without_containers_are_an_empty_list() {
    let mut outside = container(1, "ignored");
    outside.token = TokenProbe::Flag(0);
    assert_eq!(get_app_container_process_tokens(Ok(vec![outside])), Ok(Vec::new()));
    assert_eq!(get_app_container_process_tokens(Ok(Vec::new())), Ok(Vec::new()));
}

#[test]
fn endpoints_fail_only_with_the_walk() {
    assert_eq!(
        get_app_container_process_tokens(Err(WalkError::SnapshotFailed)),
        Err(QueryError { message: "CreateToolhelp32Snapshot failed".to_string() })
    );
    assert_eq!(
        get_app_container_process_tokens(Err(WalkError::FirstEntryFailed)),
        Err(QueryError { message: "Process32First failed".to_string() })
    );
}

#[test]
fn the_two_queries_treat_a_failed_step_differently() {
    // The information query keeps a process whose command line could not be read ...
    let info = get_process_info(Ok(vec![opened(8, 4, None, Err(WinError::PebReadFailed))]));
    assert_eq!(info.unwrap().len(), 1);
    // ... the endpoint query drops a container whose endpoint could not be resolved.
    let mut probe = container(1, "x");
    probe.object_path = None;
    assert_eq!(get_app_container_process_tokens(Ok(vec![probe])), Ok(Vec::new()));
}
