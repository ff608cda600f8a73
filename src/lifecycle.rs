//! The decisions behind stopping a capture stream: the stop flag is raised
//! first, and the capture thread is joined exactly once.

use vstd::prelude::*;

verus! {

/// std's I/O error, carried through opaque inside `PwError`.
#[verifier::external_type_specification]
#[verifier::external_body]
pub struct ExIoError(std::io::Error);

/// Why a capture stream could not start. Each native setup step has its own.
#[derive(Debug)]
pub enum PwError {
    /// The event loop could not be created.
    MainLoop,
    /// The transport context could not be created.
    Context,
    /// Connecting through the broker's transport descriptor failed.
    ConnectFd,
    /// The video stream object could not be created.
    CreateStream,
    /// The stream's callbacks could not be registered.
    RegisterListener,
    /// The stream could not be connected to the source node.
    StreamConnect,
    /// The capture thread could not be spawned.
    SpawnThread(std::io::Error),
}

/// Where a capture stream stands on its way down.
#[derive(Debug, Clone, Copy, PartialEq, Eq, Structural)]
pub struct StreamLifecycle {
    /// The stop flag has been raised.
    pub stop_requested: bool,
    /// The capture thread has been joined.
    pub joined: bool,
}

/// What the handle does after a stop request.
#[derive(Debug, Clone, Copy, PartialEq, Eq, Structural)]
pub enum StopAction {
    /// Wait for the capture thread to finish.
    JoinThread,
    /// The thread was joined before: nothing is left to wait for.
    Nothing,
}

/// The state and the action after a stop request in state `s`.
pub open spec fn stop_step(s: StreamLifecycle) -> (StreamLifecycle, StopAction) {
    (
        StreamLifecycle { stop_requested: true, joined: true },
        if s.joined {
            StopAction::Nothing
        } else {
            StopAction::JoinThread
        },
    )
}

impl StreamLifecycle {
    /// A stream whose thread was just started.
    pub fn running() -> (r: Self)
        ensures
            !r.stop_requested,
            !r.joined,
    {
        StreamLifecycle { stop_requested: false, joined: false }
    }

    /// The capture loop keeps iterating while this holds.
    pub fn keeps_running(&self) -> (r: bool)
        ensures
            r == !self.stop_requested,
    {
        !self.stop_requested
    }

    /// Raises the stop flag and says whether the thread must still be
    /// joined. Afterwards the stream counts as stopped and joined.
    pub fn stop(&mut self) -> (r: StopAction)
        ensures
            (*final(self), r) == stop_step(*old(self)),
    {
        self.stop_requested = true;
        if self.joined {
            StopAction::Nothing
        } else {
            self.joined = true;
            StopAction::JoinThread
        }
    }
}

/// Stopping twice is harmless: after any first stop the stream is stopped
/// and joined, and a second stop waits for nothing and leaves it as it was.
pub proof fn lemma_stop_twice(s: StreamLifecycle)
    ensures
        stop_step(s).0.stop_requested,
        stop_step(s).0.joined,
        stop_step(stop_step(s).0).1 == StopAction::Nothing,
        stop_step(stop_step(s).0).0 == stop_step(s).0,
{
}

} // verus!
