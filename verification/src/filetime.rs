//! Conversion of Windows file times to Unix timestamps.

use vstd::prelude::*;

verus! {

/// Number of 100-nanosecond intervals in one second.
pub const FILETIME_TO_SECONDS: u64 = 10_000_000;

/// Seconds between the Windows epoch (1601-01-01) and the Unix epoch (1970-01-01).
pub const WINDOWS_TO_UNIX_EPOCH: u64 = 11_644_473_600;

/// A Windows file time: a count of 100-nanosecond intervals since 1601-01-01,
/// split into its low and high 32-bit halves.
#[derive(Clone, Copy, Debug, PartialEq, Eq, Structural)]
pub struct FileTime {
    pub low: u32,
    pub high: u32,
}

impl FileTime {
    /// The 64-bit interval count that the two halves stand for.
    pub open spec fn ticks(self) -> int {
        self.high * 0x1_0000_0000 + self.low
    }
}

/// Whole seconds since the Unix epoch at `ticks` intervals since the Windows epoch.
pub open spec fn unix_seconds_of_ticks(ticks: int) -> int {
    ticks / 10_000_000 - 11_644_473_600
}

/// The interval count at which second `seconds` of the Unix epoch begins.
pub open spec fn ticks_of_unix_seconds(seconds: int) -> int {
    (seconds + 11_644_473_600) * 10_000_000
}

/// Converts a Windows file time to seconds since the Unix epoch, rounding down
/// to the second. Times before 1970 give negative results.
pub fn filetime_to_unix_timestamp(ft: FileTime) -> (seconds: i64)
    ensures
        seconds == unix_seconds_of_ticks(ft.ticks()),
        -11_644_473_600 <= seconds <= 1_833_029_933_770,
{
    let high: u64 = ft.high as u64;
    let low: u64 = ft.low as u64;
    let ticks: u64 = high * 0x1_0000_0000 + low;
    let since_1601: u64 = ticks / FILETIME_TO_SECONDS;
    since_1601 as i64 - WINDOWS_TO_UNIX_EPOCH as i64
}

/// Converting the start of a Unix second to an interval count and back gives
/// the same second, and so does any instant within that second.
pub proof fn lemma_unix_seconds_round_trip(seconds: int, fraction: int)
    requires
        0 <= fraction < 10_000_000,
    ensures
        unix_seconds_of_ticks(ticks_of_unix_seconds(seconds) + fraction) == seconds,
{
    let whole: int = seconds + 11_644_473_600;
    assert((whole * 10_000_000 + fraction) / 10_000_000 == whole) by (nonlinear_arith)
        requires
            0 <= fraction < 10_000_000,
    ;
}

} // verus!
