//! The errors this library reports.

use vstd::prelude::*;

verus! {

/// Every failure the library can report, each carrying the operating
/// system's error code where one exists.
///
/// - `EnumerationFailed`: the interface enumeration call failed; no handle
///   is produced.
/// - `ChannelSetupFailed`: creating or binding the notification channel
///   failed; the watch call returns without ever blocking.
/// - `WatchTimedOut`: the caller-supplied timeout elapsed with no event.
///   Distinguished from the other watch failures so that callers can poll.
/// - `WatchIOFailed`: any other failure while arming or reading the
///   notification channel.
#[derive(Clone, Copy, PartialEq, Eq, Structural, Debug)]
pub enum NetError {
    EnumerationFailed(i32),
    ChannelSetupFailed(i32),
    WatchTimedOut,
    WatchIOFailed(i32),
}

impl NetError {
    /// True exactly of the timeout kind: the steady-state "poll again"
    /// signal of a long-running monitor.
    pub fn is_timeout(&self) -> (r: bool)
        ensures
            r == (*self == NetError::WatchTimedOut),
    {
        matches!(self, NetError::WatchTimedOut)
    }
}

} // verus!
