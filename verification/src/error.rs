use vstd::prelude::*;

use crate::sonyflake::Timestamp;

verus! {

/// The error type for this crate.
#[derive(Debug, PartialEq, Eq)]
pub enum Error {
    /// Construction was given a start time that lies after the current time.
    StartTimeAheadOfCurrentTime(Timestamp),
    /// The configured machine-id provider reported a failure.
    MachineIdFailed(String),
    /// The configured machine-id check rejected the resolved machine id.
    CheckMachineIdFailed,
    /// The elapsed time no longer fits in its bit range; the generator is exhausted.
    OverTimeLimit,
    /// All sequence numbers of the current tick have been handed out.
    OverSequenceLimit,
    /// No private IPv4 address was found on any active interface.
    NoPrivateIPv4,
}

} // verus!
