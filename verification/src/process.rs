//! The two queries over the process table: the information record of every
//! process that could be opened, and the endpoint path of every process that
//! runs inside an app container.
//!
//! A caller walks a snapshot of the process table and probes each process;
//! the queries here decide what each probe contributes. A process that cannot
//! be opened contributes nothing to either query. An opened process always
//! contributes an information record, in which whatever could not be read is
//! degraded in place; it contributes an endpoint path only if every step of
//! resolving one succeeded.

use vstd::prelude::*;
use crate::container::{
    add_app_container_process_name, classify_token, endpoint_of, is_endpoint_path,
    lemma_endpoint_of_is_well_formed, token_class, TokenClass, TokenProbe,
};
use crate::error::{
    command_line_placeholder, lemma_placeholder_shape, placeholder_view, WinError,
};
use crate::filetime::{filetime_to_unix_timestamp, unix_seconds_of_ticks, FileTime};

verus! {

/// A process as the process table lists it.
#[derive(Clone, Copy, Debug, PartialEq, Eq, Structural)]
pub struct ProcessIdentity {
    pub process_id: u32,
    pub parent_process_id: u32,
}

/// Process information including ID, parent, creation time, and command line.
#[derive(Clone, Debug, PartialEq, Eq)]
pub struct ProcessInfo {
    /// Process ID
    pub process_id: u32,
    /// Parent process ID
    pub parent_process_id: u32,
    /// Creation date as Unix timestamp (seconds since epoch), or 0 where the
    /// process times could not be had
    pub creation_date: i64,
    /// Full command line of the process, or a placeholder that says why it
    /// could not be read
    pub command_line: String,
}

/// A process information record with its command line as a sequence of
/// characters.
pub struct ProcessInfoView {
    pub process_id: u32,
    pub parent_process_id: u32,
    pub creation_date: int,
    pub command_line: Seq<char>,
}

impl View for ProcessInfo {
    type V = ProcessInfoView;

    open spec fn view(&self) -> ProcessInfoView {
        ProcessInfoView {
            process_id: self.process_id,
            parent_process_id: self.parent_process_id,
            creation_date: self.creation_date as int,
            command_line: self.command_line@,
        }
    }
}

/// Why the process table could not be walked at all.
#[derive(Clone, Copy, Debug, PartialEq, Eq, Structural)]
pub enum WalkError {
    /// No snapshot of the process table could be taken.
    SnapshotFailed,
    /// The snapshot has no first entry, or it could not be read.
    FirstEntryFailed,
}

/// The failure of a whole query: a generic failure with a fixed message.
#[derive(Clone, Debug, PartialEq, Eq)]
pub struct QueryError {
    pub message: String,
}

/// What was read from a process that could be opened for the information
/// query.
#[derive(Debug)]
pub struct OpenedProcess {
    /// The raw value of the handle that opening the process gave.
    pub handle: isize,
    /// The creation time of the process, unless its times could not be had.
    pub creation_time: Option<FileTime>,
    /// The outcome of reading the command line.
    pub command_line: Result<String, WinError>,
}

/// One process of the table, probed for the information query.
#[derive(Debug)]
pub struct InfoProbe {
    pub identity: ProcessIdentity,
    /// What was read from the process, unless it could not be opened.
    pub opened: Option<OpenedProcess>,
}

/// One process of the table, probed for the endpoint query.
#[derive(Debug)]
pub struct ContainerProbe {
    /// The raw value of the handle that opening the process gave, unless it
    /// could not be opened.
    pub handle: Option<isize>,
    /// What was learnt about the token of the process.
    pub token: TokenProbe,
    /// The session id of the token, unless its query failed or was not made.
    pub session_id: Option<u32>,
    /// The buffer that received the container's named-object path, unless
    /// its query failed or was not made.
    pub object_path: Option<Vec<u16>>,
}

/// Whether a raw handle value can name an opened process: it is neither null,
/// which a failed open returns, nor the invalid-handle sentinel.
pub open spec fn names_a_process(handle: isize) -> bool {
    handle != 0 && handle != -1
}

/// Tells whether a raw handle value can name an opened process.
pub fn handle_names_process(handle: isize) -> (named: bool)
    ensures
        named == names_a_process(handle),
{
    handle != 0 && handle != -1
}

/// The creation date that a record shows: the Unix timestamp of the creation
/// time, or 0 where there is none.
pub open spec fn creation_date_of(creation_time: Option<FileTime>) -> int {
    match creation_time {
        Some(ft) => unix_seconds_of_ticks(ft.ticks()),
        None => 0,
    }
}

/// The command line that a record shows: the text that was read, or the
/// placeholder of the failure. Text that is empty counts as the failure
/// `EmptyCommandLine`.
pub open spec fn command_line_of(outcome: Result<String, WinError>) -> Seq<char> {
    match outcome {
        Ok(text) => if text@.len() > 0 {
            text@
        } else {
            placeholder_view(WinError::EmptyCommandLine)
        },
        Err(error) => placeholder_view(error),
    }
}

/// The record that a probe contributes to the information query: one for
/// every process whose open gave a handle that names it, none for any other.
pub open spec fn info_record(probe: InfoProbe) -> Option<ProcessInfoView> {
    match probe.opened {
        Some(process) => if !names_a_process(process.handle) {
            None
        } else {
            Some(
                ProcessInfoView {
                    process_id: probe.identity.process_id,
                    parent_process_id: probe.identity.parent_process_id,
                    creation_date: creation_date_of(process.creation_time),
                    command_line: command_line_of(process.command_line),
                },
            )
        },
        None => None,
    }
}

/// The records of a walk: those of its probes, in the order of the walk.
pub open spec fn info_records(probes: Seq<InfoProbe>) -> Seq<ProcessInfoView>
    decreases probes.len(),
{
    if probes.len() == 0 {
        Seq::empty()
    } else {
        let earlier = info_records(probes.drop_last());
        match info_record(probes.last()) {
            Some(record) => earlier.push(record),
            None => earlier,
        }
    }
}

/// The views of a list of records.
pub open spec fn record_views(records: Seq<ProcessInfo>) -> Seq<ProcessInfoView> {
    records.map_values(|record: ProcessInfo| record@)
}

/// The views of a list of strings.
pub open spec fn string_views(strings: Seq<String>) -> Seq<Seq<char>> {
    strings.map_values(|text: String| text@)
}

/// The code units of a buffer that may be absent.
pub open spec fn units_of(buffer: Option<Vec<u16>>) -> Option<Seq<u16>> {
    match buffer {
        Some(units) => Some(units@),
        None => None,
    }
}

/// The endpoint path that a probe contributes to the endpoint query: one only
/// for a process whose open gave a handle that names it, whose token says that
/// it runs inside an app container, and whose endpoint path could be resolved.
pub open spec fn container_endpoint(probe: ContainerProbe) -> Option<Seq<char>> {
    match probe.handle {
        Some(handle) => if names_a_process(handle) && token_class(probe.token)
            == TokenClass::Container {
            endpoint_of(probe.session_id, units_of(probe.object_path))
        } else {
            None
        },
        None => None,
    }
}

/// The endpoint paths of a walk: those of its probes, in the order of the walk.
pub open spec fn container_endpoints(probes: Seq<ContainerProbe>) -> Seq<Seq<char>>
    decreases probes.len(),
{
    if probes.len() == 0 {
        Seq::empty()
    } else {
        let earlier = container_endpoints(probes.drop_last());
        match container_endpoint(probes.last()) {
            Some(path) => earlier.push(path),
            None => earlier,
        }
    }
}

/// The message with which the information query fails.
pub open spec fn info_failure_message(error: WalkError) -> Seq<char> {
    match error {
        WalkError::SnapshotFailed => "Failed to create process snapshot"@,
        WalkError::FirstEntryFailed => "Failed to get first process in snapshot"@,
    }
}

/// The message with which the endpoint query fails.
pub open spec fn endpoint_failure_message(error: WalkError) -> Seq<char> {
    match error {
        WalkError::SnapshotFailed => "CreateToolhelp32Snapshot failed"@,
        WalkError::FirstEntryFailed => "Process32First failed"@,
    }
}

/// The creation date for a record: the Unix timestamp of the creation time,
/// or 0 where the process times could not be had.
pub fn creation_date(creation_time: Option<FileTime>) -> (seconds: i64)
    ensures
        seconds == creation_date_of(creation_time),
{
    match creation_time {
        Some(ft) => filetime_to_unix_timestamp(ft),
        None => 0,
    }
}

/// The command line for a record: the text that was read, or the placeholder
/// of the failure.
pub fn command_line_text(outcome: &Result<String, WinError>) -> (text: String)
    ensures
        text@ == command_line_of(*outcome),
        text@.len() > 0,
{
    match outcome {
        Ok(read) => {
            if read.as_str().is_empty() {
                proof {
                    lemma_placeholder_shape(WinError::EmptyCommandLine);
                }
                command_line_placeholder(WinError::EmptyCommandLine)
            } else {
                read.clone()
            }
        },
        Err(error) => {
            proof {
                lemma_placeholder_shape(*error);
            }
            command_line_placeholder(*error)
        },
    }
}

/// The record of one probed process, if it contributes one.
pub fn process_info_entry(probe: &InfoProbe) -> (entry: Option<ProcessInfo>)
    ensures
        match entry {
            Some(record) => info_record(*probe) == Some(record@),
            None => info_record(*probe) is None,
        },
{
    match &probe.opened {
        Some(process) => {
            if !handle_names_process(process.handle) {
                None
            } else {
                Some(
                    ProcessInfo {
                        process_id: probe.identity.process_id,
                        parent_process_id: probe.identity.parent_process_id,
                        creation_date: creation_date(process.creation_time),
                        command_line: command_line_text(&process.command_line),
                    },
                )
            }
        },
        None => None,
    }
}

/// Gets information about all accessible processes of a walk.
///
/// The query fails only if the process table could not be walked. Otherwise
/// it returns one record for each process that could be opened, in the order
/// of the walk, holding
/// - Process ID
/// - Parent process ID
/// - Creation date as Unix timestamp
/// - Command line
pub fn get_process_info(walk: Result<Vec<InfoProbe>, WalkError>) -> (result: Result<
    Vec<ProcessInfo>,
    QueryError,
>)
    ensures
        result is Err <==> walk is Err,
        match walk {
            Ok(probes) => result matches Ok(records) && record_views(records@) == info_records(
                probes@,
            ) && records@.len() == info_records(probes@).len(),
            Err(error) => result matches Err(failure) && failure.message@ == info_failure_message(
                error,
            ),
        },
{
    let probes: Vec<InfoProbe> = match walk {
        Ok(probes) => probes,
        Err(WalkError::SnapshotFailed) => {
            return Err(QueryError { message: "Failed to create process snapshot".to_owned() });
        },
        Err(WalkError::FirstEntryFailed) => {
            return Err(
                QueryError { message: "Failed to get first process in snapshot".to_owned() },
            );
        },
    };
    let mut process_info_list: Vec<ProcessInfo> = Vec::new();
    let mut i: usize = 0;
    while i < probes.len()
        invariant
            0 <= i <= probes.len(),
            record_views(process_info_list@) == info_records(probes@.take(i as int)),
        decreases probes.len() - i,
    {
        let ghost before = process_info_list@;
        let entry: Option<ProcessInfo> = process_info_entry(&probes[i]);
        proof {
            assert(probes@.take(i + 1).drop_last() == probes@.take(i as int));
            assert(probes@.take(i + 1).last() == probes@[i as int]);
        }
        match entry {
            Some(record) => {
                process_info_list.push(record);
                assert(record_views(process_info_list@) == record_views(before).push(record@));
            },
            None => {},
        }
        i += 1;
    }
    assert(probes@.take(i as int) == probes@);
    Ok(process_info_list)
}

/// The endpoint path of one probed process, if it contributes one.
pub fn container_endpoint_entry(probe: &ContainerProbe) -> (entry: Option<String>)
    ensures
        match entry {
            Some(path) => container_endpoint(*probe) == Some(path@),
            None => container_endpoint(*probe) is None,
        },
        entry matches Some(path) ==> is_endpoint_path(path@),
{
    let handle: isize = match probe.handle {
        Some(handle) => handle,
        None => {
            return None;
        },
    };
    if !handle_names_process(handle) {
        return None;
    }
    match classify_token(probe.token) {
        TokenClass::Container => {
            let object_path: Option<&Vec<u16>> = match &probe.object_path {
                Some(units) => Some(units),
                None => None,
            };
            add_app_container_process_name(probe.session_id, object_path)
        },
        TokenClass::NotContainer => None,
        TokenClass::Indeterminate => None,
    }
}

/// Gets the endpoint paths of all app-container processes of a walk.
///
/// The query fails only if the process table could not be walked. Otherwise
/// it returns the endpoint path of each process that runs inside an app
/// container and whose path could be resolved, in the order of the walk.
/// Every entry has the form `\\.\pipe\Sessions\<digits>\<path>`, with a path
/// that is not empty.
pub fn get_app_container_process_tokens(walk: Result<Vec<ContainerProbe>, WalkError>) -> (result:
    Result<Vec<String>, QueryError>)
    ensures
        result is Err <==> walk is Err,
        match walk {
            Ok(probes) => result matches Ok(tokens) && string_views(tokens@)
                == container_endpoints(probes@) && tokens@.len() == container_endpoints(
                probes@,
            ).len(),
            Err(error) => result matches Err(failure) && failure.message@
                == endpoint_failure_message(error),
        },
        result matches Ok(tokens) ==> forall|i: int|
            0 <= i < tokens@.len() ==> is_endpoint_path((#[trigger] tokens@[i])@),
{
    let probes: Vec<ContainerProbe> = match walk {
        Ok(probes) => probes,
        Err(WalkError::SnapshotFailed) => {
            return Err(QueryError { message: "CreateToolhelp32Snapshot failed".to_owned() });
        },
        Err(WalkError::FirstEntryFailed) => {
            return Err(QueryError { message: "Process32First failed".to_owned() });
        },
    };
    let mut tokens: Vec<String> = Vec::new();
    let mut i: usize = 0;
    while i < probes.len()
        invariant
            0 <= i <= probes.len(),
            string_views(tokens@) == container_endpoints(probes@.take(i as int)),
            forall|k: int| 0 <= k < tokens@.len() ==> is_endpoint_path((#[trigger] tokens@[k])@),
        decreases probes.len() - i,
    {
        let ghost before = tokens@;
        let entry: Option<String> = container_endpoint_entry(&probes[i]);
        proof {
            assert(probes@.take(i + 1).drop_last() == probes@.take(i as int));
            assert(probes@.take(i + 1).last() == probes@[i as int]);
        }
        match entry {
            Some(token_name) => {
                tokens.push(token_name);
                assert(string_views(tokens@) == string_views(before).push(token_name@));
            },
            None => {},
        }
        i += 1;
    }
    assert(probes@.take(i as int) == probes@);
    Ok(tokens)
}

/// The record of an opened process carries the ids of the process table, and
/// its command line is never empty: it is the text that was read, or a
/// placeholder that begins with "Failed to get command line:".
pub proof fn lemma_record_is_complete(probe: InfoProbe)
    ensures
        info_record(probe) matches Some(record) ==> {
            &&& record.process_id == probe.identity.process_id
            &&& record.parent_process_id == probe.identity.parent_process_id
            &&& record.command_line.len() > 0
            &&& {
                ||| probe.opened matches Some(process) && (process.command_line matches Ok(text)
                    && text@ == record.command_line)
                ||| "Failed to get command line:"@.is_prefix_of(record.command_line)
            }
        },
{
    match probe.opened {
        Some(process) => {
            match process.command_line {
                Ok(text) => {
                    lemma_placeholder_shape(WinError::EmptyCommandLine);
                },
                Err(error) => {
                    lemma_placeholder_shape(error);
                },
            }
        },
        None => {},
    }
}

/// Every record of a walk is the record of one of its probes.
pub proof fn lemma_records_come_from_probes(probes: Seq<InfoProbe>, k: int)
    requires
        0 <= k < info_records(probes).len(),
    ensures
        exists|i: int|
            0 <= i < probes.len() && #[trigger] info_record(probes[i]) == Some(
                info_records(probes)[k],
            ),
    decreases probes.len(),
{
    let earlier = info_records(probes.drop_last());
    if k < earlier.len() {
        lemma_records_come_from_probes(probes.drop_last(), k);
        let i = choose|i: int|
            0 <= i < probes.drop_last().len() && #[trigger] info_record(probes.drop_last()[i])
                == Some(earlier[k]);
        assert(probes.drop_last()[i] == probes[i]);
        assert(info_record(probes[i]) == Some(info_records(probes)[k]));
    } else {
        let last = probes.len() - 1;
        assert(info_record(probes[last]) == Some(info_records(probes)[k]));
    }
}

/// In the result of the information query every command line is filled, and
/// every process id is positive where the process table's ids are.
pub proof fn lemma_records_are_complete(probes: Seq<InfoProbe>, k: int)
    requires
        0 <= k < info_records(probes).len(),
    ensures
        info_records(probes)[k].command_line.len() > 0,
        (forall|i: int| 0 <= i < probes.len() ==> (#[trigger] probes[i]).identity.process_id > 0)
            ==> info_records(probes)[k].process_id > 0,
{
    lemma_records_come_from_probes(probes, k);
    let i = choose|i: int|
        0 <= i < probes.len() && #[trigger] info_record(probes[i]) == Some(
            info_records(probes)[k],
        );
    lemma_record_is_complete(probes[i]);
}

/// The information query answers with one record for each probe whose open
/// gave a handle that names the process, and never with more records than
/// probes.
pub proof fn lemma_record_count(probes: Seq<InfoProbe>)
    ensures
        info_records(probes).len() <= probes.len(),
        (forall|i: int| 0 <= i < probes.len() ==> info_record(#[trigger] probes[i]) is Some)
            ==> info_records(probes).len() == probes.len(),
        (forall|i: int| 0 <= i < probes.len() ==> info_record(#[trigger] probes[i]) is None)
            ==> info_records(probes).len() == 0,
    decreases probes.len(),
{
    if probes.len() > 0 {
        lemma_record_count(probes.drop_last());
        assert forall|i: int| 0 <= i < probes.drop_last().len() implies probes.drop_last()[i]
            == probes[i] by {}
    }
}

/// A process contributes an endpoint path only if its token says that it runs
/// inside an app container.
pub proof fn lemma_endpoint_needs_container(probe: ContainerProbe)
    ensures
        container_endpoint(probe) is Some ==> token_class(probe.token) == TokenClass::Container,
        container_endpoint(probe) is Some ==> (probe.token matches TokenProbe::Flag(flag) && flag
            != 0),
        container_endpoint(probe) matches Some(path) ==> is_endpoint_path(path),
{
    lemma_endpoint_of_is_well_formed(probe.session_id, units_of(probe.object_path));
}

/// Every endpoint path of a walk is the endpoint path of one of its probes.
pub proof fn lemma_endpoints_come_from_probes(probes: Seq<ContainerProbe>, k: int)
    requires
        0 <= k < container_endpoints(probes).len(),
    ensures
        exists|i: int|
            0 <= i < probes.len() && #[trigger] container_endpoint(probes[i]) == Some(
                container_endpoints(probes)[k],
            ),
    decreases probes.len(),
{
    let earlier = container_endpoints(probes.drop_last());
    if k < earlier.len() {
        lemma_endpoints_come_from_probes(probes.drop_last(), k);
        let i = choose|i: int|
            0 <= i < probes.drop_last().len() && #[trigger] container_endpoint(
                probes.drop_last()[i],
            ) == Some(earlier[k]);
        assert(probes.drop_last()[i] == probes[i]);
        assert(container_endpoint(probes[i]) == Some(container_endpoints(probes)[k]));
    } else {
        let last = probes.len() - 1;
        assert(container_endpoint(probes[last]) == Some(container_endpoints(probes)[k]));
    }
}

/// Every entry of the endpoint query's result belongs to a process whose
/// token says that it runs inside an app container, and has the form
/// `\\.\pipe\Sessions\<digits>\<path>`, with a path that is not empty.
pub proof fn lemma_endpoints_belong_to_containers(probes: Seq<ContainerProbe>, k: int)
    requires
        0 <= k < container_endpoints(probes).len(),
    ensures
        exists|i: int|
            0 <= i < probes.len() && token_class((#[trigger] probes[i]).token)
                == TokenClass::Container && container_endpoint(probes[i]) == Some(
                container_endpoints(probes)[k],
            ),
        is_endpoint_path(container_endpoints(probes)[k]),
{
    lemma_endpoints_come_from_probes(probes, k);
    let i = choose|i: int|
        0 <= i < probes.len() && #[trigger] container_endpoint(probes[i]) == Some(
            container_endpoints(probes)[k],
        );
    lemma_endpoint_needs_container(probes[i]);
}

/// A walk without any app-container process has no endpoint paths, whatever
/// else was learnt about its processes.
pub proof fn lemma_no_container_no_endpoint(probes: Seq<ContainerProbe>)
    requires
        forall|i: int|
            0 <= i < probes.len() ==> token_class((#[trigger] probes[i]).token)
                != TokenClass::Container,
    ensures
        container_endpoints(probes).len() == 0,
    decreases probes.len(),
{
    if probes.len() > 0 {
        assert forall|i: int| 0 <= i < probes.drop_last().len() implies token_class(
            (#[trigger] probes.drop_last()[i]).token,
        ) != TokenClass::Container by {
            assert(probes.drop_last()[i] == probes[i]);
        }
        lemma_no_container_no_endpoint(probes.drop_last());
        assert(token_class(probes[probes.len() - 1].token) != TokenClass::Container);
    }
}

} // verus!
