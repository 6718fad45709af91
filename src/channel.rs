use std::sync::mpsc::{Receiver, RecvTimeoutError};
use std::time::Duration;
use vstd::prelude::*;

verus! {

#[verifier::external_type_specification]
#[verifier::external_body]
#[verifier::reject_recursive_types(T)]
pub struct ExReceiver<T>(std::sync::mpsc::Receiver<T>);

/// Relies on std's `Duration::from_secs`, which builds a duration from whole seconds and
/// does not panic.
pub assume_specification[ core::time::Duration::from_secs ](secs: u64) -> core::time::Duration;

/// Why a wait on the report channel ended without a report.
#[derive(Debug, Clone, Copy, PartialEq, Eq, Structural)]
pub enum RecvFailure {
    /// The wait ran out before a report arrived.
    Timeout,
    /// Every sender is gone: no report will ever arrive.
    Disconnected,
}

/// Relies on `std::sync::mpsc::Receiver::recv_timeout`: it waits at most `timeout` for the
/// next value, and tells a wait that ran out apart from a channel whose senders are gone.
/// Which of the three comes back depends on timing and on the other side of the channel,
/// so nothing is promised of it.
#[verifier::external_body]
pub(crate) fn recv_report(rx: &Receiver<Vec<u8>>, timeout: Duration) -> (r: Result<Vec<u8>, RecvFailure>) {
    match rx.recv_timeout(timeout) {
        Ok(report) => Ok(report),
        Err(RecvTimeoutError::Timeout) => Err(RecvFailure::Timeout),
        Err(RecvTimeoutError::Disconnected) => Err(RecvFailure::Disconnected),
    }
}

} // verus!
