//! Reading the command line of another process out of that process's memory.
//!
//! The read is a fixed chain of system calls, each a condition of the next: find the
//! process control block, check that it lies in committed read/write memory,
//! read it, check and read the process parameters it points to, then read the
//! command-line buffer that those describe. The chain is a state machine here:
//! [`start`] names the first request, and [`advance`] takes the operating
//! system's answer to the pending request and names the next one, or finishes.
//! The caller only performs the requests.

use vstd::prelude::*;
use crate::error::WinError;
use crate::text::{
    decode_prefix, find_null, lemma_terminated_len, terminated_units, utf16_lossy,
};

verus! {

/// The most bytes of command line that are ever read from a process.
pub const MAX_CMD_LINE_SIZE: usize = 8192;

/// The region state of committed memory.
pub const MEM_COMMIT: u32 = 0x1000;

/// The protection flag of memory that may be read and written.
pub const PAGE_READWRITE: u32 = 0x04;

/// What the operating system reports about the region of a process's address
/// space that holds an address.
#[derive(Clone, Copy, Debug, PartialEq, Eq, Structural)]
pub struct RemoteMemoryRegion {
    pub base_address: usize,
    pub region_size: usize,
    pub state: u32,
    pub protect: u32,
}

/// A system call that the reader asks its caller to perform.
#[derive(Clone, Copy, Debug, PartialEq, Eq, Structural)]
pub enum Request {
    /// Query the basic information of the process.
    QueryProcess,
    /// Query the memory region that holds the process control block.
    QueryPebRegion { address: usize },
    /// Read the process control block at `address`.
    ReadPeb { address: usize },
    /// Query the memory region that holds the process parameters.
    QueryParametersRegion { address: usize },
    /// Read the process parameters at `address`.
    ReadParameters { address: usize },
    /// Read `byte_length` bytes at `address` into a zeroed buffer of
    /// `unit_capacity` UTF-16 code units: room for the bytes and for a
    /// terminating unit after them.
    ReadCommandLine { address: usize, byte_length: usize, unit_capacity: usize },
}

/// What the operating system answered to a request.
#[derive(Debug)]
pub enum Answer {
    /// The basic-information query: whether it succeeded, and the address of
    /// the process control block that it reported.
    ProcessQueried { ok: bool, peb_address: usize },
    /// A region query: the number of bytes of region information returned
    /// (zero on failure), and the region.
    RegionQueried { returned: usize, region: RemoteMemoryRegion },
    /// The read of the control block: whether it succeeded, the number of
    /// bytes transferred, and the parameters pointer found in the block.
    PebRead { ok: bool, bytes_read: usize, process_parameters: usize },
    /// The read of the process parameters: whether it succeeded, and the
    /// command line's buffer pointer and length in bytes found in them.
    ParametersRead { ok: bool, buffer: usize, length: u16 },
    /// The read of the command line: whether it succeeded, and the buffer
    /// after the read.
    CommandLineRead { ok: bool, units: Vec<u16> },
}

/// What the reader does next.
#[derive(Debug, PartialEq, Eq)]
pub enum Step {
    /// Perform this request and come back with its answer.
    Ask(Request),
    /// The read is over: the command line, or why there is none.
    Finish(Result<String, WinError>),
}

/// A step with its text as a sequence of characters.
pub enum StepView {
    Ask(Request),
    Fail(WinError),
    Text(Seq<char>),
}

impl View for Step {
    type V = StepView;

    open spec fn view(&self) -> StepView {
        match *self {
            Step::Ask(request) => StepView::Ask(request),
            Step::Finish(Err(error)) => StepView::Fail(error),
            Step::Finish(Ok(text)) => StepView::Text(text@),
        }
    }
}

impl Request {
    /// Whether this request bounds what it reads: a command-line read asks for
    /// at least one byte and at most `MAX_CMD_LINE_SIZE`, into a buffer with
    /// room for those bytes and one code unit more.
    pub open spec fn bounded(self) -> bool {
        match self {
            Request::ReadCommandLine { address, byte_length, unit_capacity } => {
                &&& 1 <= byte_length <= 8192
                &&& unit_capacity == byte_length / 2 + 1
            },
            _ => true,
        }
    }
}

/// Whether a region query found committed memory that may be read and written.
pub open spec fn region_is_readable(returned: usize, region: RemoteMemoryRegion) -> bool {
    &&& returned != 0
    &&& region.state == MEM_COMMIT
    &&& region.protect & PAGE_READWRITE != 0
}

/// The number of bytes to read for a command line of the declared length.
pub open spec fn clamped_length(length: u16) -> int {
    if length <= 8192 {
        length as int
    } else {
        8192
    }
}

/// The number of code units that a read of `byte_length` bytes can write to:
/// a last byte on its own writes to half a unit.
pub open spec fn written_units(byte_length: int) -> int {
    byte_length / 2 + byte_length % 2
}

/// The first `limit` code units of `units`, or all of them where there are
/// fewer.
pub open spec fn clipped(units: Seq<u16>, limit: int) -> Seq<u16> {
    if 0 <= limit <= units.len() {
        units.take(limit)
    } else {
        units
    }
}

/// The code units that hold the text of a command line, given the buffer
/// after a read of `byte_length` bytes: those that the read can have written
/// to, up to the first zero unit among them.
pub open spec fn command_line_units(units: Seq<u16>, byte_length: int) -> Seq<u16> {
    terminated_units(clipped(units, written_units(byte_length)))
}

/// The outcome of a command-line read of `byte_length` bytes that reported
/// success and left `units` in the buffer.
pub open spec fn decoded(units: Seq<u16>, byte_length: int) -> StepView {
    let kept = command_line_units(units, byte_length);
    if kept.len() == 0 || utf16_lossy(kept).len() == 0 {
        StepView::Fail(WinError::EmptyCommandLine)
    } else {
        StepView::Text(utf16_lossy(kept))
    }
}

/// The step that follows `pending` once the operating system has given
/// `answer`. An answer of another kind than the pending request calls for is
/// ignored: the request stays pending.
pub open spec fn next(pending: Request, answer: Answer) -> StepView {
    match (pending, answer) {
        (Request::QueryProcess, Answer::ProcessQueried { ok, peb_address }) => {
            if !ok || peb_address == 0 {
                StepView::Fail(WinError::NtQueryFailed)
            } else {
                StepView::Ask(Request::QueryPebRegion { address: peb_address })
            }
        },
        (Request::QueryPebRegion { address }, Answer::RegionQueried { returned, region }) => {
            if region_is_readable(returned, region) {
                StepView::Ask(Request::ReadPeb { address })
            } else {
                StepView::Fail(WinError::MemoryProtectionFailed)
            }
        },
        (Request::ReadPeb { address }, Answer::PebRead { ok, bytes_read, process_parameters }) => {
            if !ok || process_parameters == 0 || bytes_read == 0 {
                StepView::Fail(WinError::PebReadFailed)
            } else {
                StepView::Ask(Request::QueryParametersRegion { address: process_parameters })
            }
        },
        (
            Request::QueryParametersRegion { address },
            Answer::RegionQueried { returned, region },
        ) => {
            if region_is_readable(returned, region) {
                StepView::Ask(Request::ReadParameters { address })
            } else {
                StepView::Fail(WinError::ProcessParametersMemoryProtectionFailed)
            }
        },
        (Request::ReadParameters { address }, Answer::ParametersRead { ok, buffer, length }) => {
            if !ok || buffer == 0 || length == 0 {
                StepView::Fail(WinError::EmptyCommandLine)
            } else {
                StepView::Ask(
                    Request::ReadCommandLine {
                        address: buffer,
                        byte_length: clamped_length(length) as usize,
                        unit_capacity: (clamped_length(length) / 2 + 1) as usize,
                    },
                )
            }
        },
        (
            Request::ReadCommandLine { address, byte_length, unit_capacity },
            Answer::CommandLineRead { ok, units },
        ) => {
            if !ok {
                StepView::Fail(WinError::CommandLineReadFailed)
            } else {
                decoded(units@, byte_length as int)
            }
        },
        _ => StepView::Ask(pending),
    }
}

/// The request that opens every read.
pub fn start() -> (first: Request)
    ensures
        first == Request::QueryProcess,
{
    Request::QueryProcess
}

/// Decides whether a region query found committed read/write memory.
pub fn check_region(returned: usize, region: &RemoteMemoryRegion) -> (readable: bool)
    ensures
        readable == region_is_readable(returned, *region),
{
    returned != 0 && region.state == MEM_COMMIT && (region.protect & PAGE_READWRITE) != 0
}

/// Clamps the declared byte length of a command line to `MAX_CMD_LINE_SIZE`.
pub fn clamp_command_line_length(length: u16) -> (bytes: usize)
    ensures
        bytes == clamped_length(length),
        bytes <= MAX_CMD_LINE_SIZE,
        bytes <= length,
{
    let declared: usize = length as usize;
    if declared <= MAX_CMD_LINE_SIZE {
        declared
    } else {
        MAX_CMD_LINE_SIZE
    }
}

/// Turns the buffer of a successful command-line read of `byte_length` bytes
/// into text: the code units up to the first zero unit, or all of them where
/// there is none, decoded lossily. Units that the read cannot have written to
/// are ignored, whatever they hold. A buffer that holds no text is
/// `EmptyCommandLine`.
pub fn decode_command_line(units: Vec<u16>, byte_length: usize) -> (result: Result<
    String,
    WinError,
>)
    ensures
        (Step::Finish(result))@ == decoded(units@, byte_length as int),
{
    let ghost given = units@;
    let mut units = units;
    units.truncate(byte_length / 2 + byte_length % 2);
    assert(units@ == clipped(given, written_units(byte_length as int)));
    let len: usize = match find_null(&units) {
        Some(at) => at,
        None => units.len(),
    };
    if len == 0 {
        return Err(WinError::EmptyCommandLine);
    }
    let text: String = decode_prefix(&units, len);
    if text.as_str().is_empty() {
        Err(WinError::EmptyCommandLine)
    } else {
        Ok(text)
    }
}

/// Takes the answer to the pending request and decides what follows: the next
/// request, or the end of the read with the command line or the failure.
pub fn advance(pending: Request, answer: Answer) -> (step: Step)
    ensures
        step@ == next(pending, answer),
{
    match (pending, answer) {
        (Request::QueryProcess, Answer::ProcessQueried { ok, peb_address }) => {
            if !ok || peb_address == 0 {
                Step::Finish(Err(WinError::NtQueryFailed))
            } else {
                Step::Ask(Request::QueryPebRegion { address: peb_address })
            }
        },
        (Request::QueryPebRegion { address }, Answer::RegionQueried { returned, region }) => {
            if check_region(returned, &region) {
                Step::Ask(Request::ReadPeb { address })
            } else {
                Step::Finish(Err(WinError::MemoryProtectionFailed))
            }
        },
        (Request::ReadPeb { address }, Answer::PebRead { ok, bytes_read, process_parameters }) => {
            if !ok || process_parameters == 0 || bytes_read == 0 {
                Step::Finish(Err(WinError::PebReadFailed))
            } else {
                Step::Ask(Request::QueryParametersRegion { address: process_parameters })
            }
        },
        (
            Request::QueryParametersRegion { address },
            Answer::RegionQueried { returned, region },
        ) => {
            if check_region(returned, &region) {
                Step::Ask(Request::ReadParameters { address })
            } else {
                Step::Finish(Err(WinError::ProcessParametersMemoryProtectionFailed))
            }
        },
        (Request::ReadParameters { address }, Answer::ParametersRead { ok, buffer, length }) => {
            if !ok || buffer == 0 || length == 0 {
                Step::Finish(Err(WinError::EmptyCommandLine))
            } else {
                let byte_length: usize = clamp_command_line_length(length);
                Step::Ask(
                    Request::ReadCommandLine {
                        address: buffer,
                        byte_length,
                        unit_capacity: byte_length / 2 + 1,
                    },
                )
            }
        },
        (
            Request::ReadCommandLine { address, byte_length, unit_capacity },
            Answer::CommandLineRead { ok, units },
        ) => {
            if !ok {
                Step::Finish(Err(WinError::CommandLineReadFailed))
            } else {
                Step::Finish(decode_command_line(units, byte_length))
            }
        },
        (pending, _) => Step::Ask(pending),
    }
}

/// Every request that follows a bounded one is bounded: whatever length a
/// process declares for its command line, no more than `MAX_CMD_LINE_SIZE`
/// bytes are asked for, into a buffer of no more than 4097 code units.
pub proof fn lemma_requests_stay_bounded(pending: Request, answer: Answer)
    requires
        pending.bounded(),
    ensures
        next(pending, answer) matches StepView::Ask(request) ==> request.bounded(),
        next(pending, answer) matches StepView::Ask(
            Request::ReadCommandLine { address, byte_length, unit_capacity },
        ) ==> byte_length <= MAX_CMD_LINE_SIZE && unit_capacity <= 4097,
{
}

/// The very first request is bounded.
pub proof fn lemma_start_is_bounded()
    ensures
        Request::QueryProcess.bounded(),
{
}

/// Process parameters that lie in committed read/write memory are read, and
/// if they declare a command line of zero bytes the read ends with
/// `EmptyCommandLine`.
pub proof fn lemma_zero_length_is_empty_command_line(
    address: usize,
    returned: usize,
    region: RemoteMemoryRegion,
    ok: bool,
    buffer: usize,
)
    requires
        region_is_readable(returned, region),
    ensures
        next(
            Request::QueryParametersRegion { address },
            Answer::RegionQueried { returned, region },
        ) == StepView::Ask(Request::ReadParameters { address }),
        next(
            Request::ReadParameters { address },
            Answer::ParametersRead { ok, buffer, length: 0 },
        ) == StepView::Fail(WinError::EmptyCommandLine),
{
}

/// No structure is read before its memory has been checked: a read of the
/// control block or of the parameters is only asked for in answer to a region
/// query at that address that found committed read/write memory, unless that
/// read was pending already.
pub proof fn lemma_reads_follow_checks(pending: Request, answer: Answer, address: usize)
    ensures
        next(pending, answer) == StepView::Ask(Request::ReadPeb { address }) ==> {
            ||| pending == Request::ReadPeb { address }
            ||| pending == Request::QueryPebRegion { address } && (answer matches Answer::RegionQueried {
                returned,
                region,
            } && region_is_readable(returned, region))
        },
        next(pending, answer) == StepView::Ask(Request::ReadParameters { address }) ==> {
            ||| pending == Request::ReadParameters { address }
            ||| pending == Request::QueryParametersRegion { address } && (
            answer matches Answer::RegionQueried { returned, region } && region_is_readable(
                returned,
                region,
            ))
        },
{
}

/// Whatever a process declares and whatever the buffer holds, the text of a
/// command line is decoded from at least one and at most 4096 code units.
pub proof fn lemma_text_comes_from_bounded_units(pending: Request, answer: Answer)
    requires
        pending.bounded(),
    ensures
        next(pending, answer) matches StepView::Text(text) ==> exists|kept: Seq<u16>|
            1 <= kept.len() <= 4096 && text == #[trigger] utf16_lossy(kept),
{
    match (pending, answer) {
        (
            Request::ReadCommandLine { address, byte_length, unit_capacity },
            Answer::CommandLineRead { ok, units },
        ) => {
            if ok {
                let limit = written_units(byte_length as int);
                assert(limit <= 4096);
                let kept = command_line_units(units@, byte_length as int);
                lemma_terminated_len(clipped(units@, limit));
                if next(pending, answer) is Text {
                    assert(next(pending, answer) == StepView::Text(utf16_lossy(kept)));
                }
            }
        },
        _ => {},
    }
}

/// A read never ends with an empty command line.
pub proof fn lemma_text_is_never_empty(pending: Request, answer: Answer)
    ensures
        next(pending, answer) matches StepView::Text(text) ==> text.len() > 0,
{
}

} // verus!
