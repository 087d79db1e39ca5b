//! Reader liveness detection.
//!
//! The reader thread never sends a message on its completion channel; the
//! channel closes when the thread exits, and that closure is the only way the
//! reporter learns that the stream ended. One timed wait on the channel
//! therefore distinguishes "the interval elapsed, the reader is still alive"
//! from "the reader has finished".

use vstd::prelude::*;
use std::sync::mpsc::Receiver;
use std::sync::mpsc::RecvTimeoutError;
use std::time::Duration;

verus! {

/// What one timed wait on the completion channel observed, as a plain value.
#[derive(Clone, Copy, PartialEq, Eq, Structural, Debug)]
pub enum WaitOutcome {
    /// A message arrived (never sent during normal operation).
    Received,
    /// The timeout elapsed with the channel still open: the reader is alive.
    TimedOut,
    /// The channel is closed: the reader thread has exited.
    Disconnected,
}

#[verifier::external_type_specification]
#[verifier::external_body]
#[verifier::reject_recursive_types(T)]
pub struct ExReceiver<T>(Receiver<T>);

/// Relies on std::sync::mpsc::Receiver::recv_timeout: it waits at most the
/// given time for a message and returns Ok(msg) on a message, Err(Timeout)
/// when the timeout elapsed with the channel still open, and
/// Err(Disconnected) when every sender is dropped. The outcome depends on
/// timing, so nothing is promised of which variant comes back.
#[verifier::external_body]
fn wait_for_completion(read_thread: &Receiver<()>, timeout_ms: u64) -> WaitOutcome {
    match read_thread.recv_timeout(Duration::from_millis(timeout_ms)) {
        Ok(()) => WaitOutcome::Received,
        Err(RecvTimeoutError::Timeout) => WaitOutcome::TimedOut,
        Err(RecvTimeoutError::Disconnected) => WaitOutcome::Disconnected,
    }
}

/// Whether a wait outcome means the reader thread is still alive: only a
/// timeout does; a message or a closed channel means it has finished.
pub fn reader_alive_after(outcome: &WaitOutcome) -> (alive: bool)
    ensures
        alive == (*outcome is TimedOut),
{
    matches!(*outcome, WaitOutcome::TimedOut)
}

/// Wait up to `timeout_ms` milliseconds on the reader's completion channel
/// and report whether the reader thread is still alive. The result depends on
/// when the reader exits relative to the timeout, so no outcome is promised;
/// `reader_alive_after` carries the verified reading of the wait.
pub fn is_read_thread_alive(read_thread: &Receiver<()>, timeout_ms: u64) -> (alive: bool) {
    let outcome = wait_for_completion(read_thread, timeout_ms);
    reader_alive_after(&outcome)
}

} // verus!
