//! The shutdown token shared by the two loops and the coordinator that owns
//! it: `NotStarted`, `Running`, `StopRequested`, `Stopped`.

use std::sync::atomic::AtomicBool;
use std::sync::atomic::Ordering;
use std::sync::Arc;
use vstd::prelude::*;

verus! {

/// A flag that starts cleared and can only be set. Every loop gets its own
/// handle at spawn time; all handles designate the same flag.
pub struct ShutdownSignal {
    flag: Arc<AtomicBool>,
}

impl ShutdownSignal {
    /// A fresh, cleared signal.
    pub fn new() -> (r: Self) {
        ShutdownSignal { flag: Arc::new(AtomicBool::new(false)) }
    }

    /// Another handle to the same flag.
    pub fn share(&self) -> (r: Self)
        ensures
            r == *self,
    {
        ShutdownSignal { flag: self.flag.clone() }
    }

    /// Sets the flag. There is no operation that clears it.
    pub fn set(&self) {
        self.flag.store(true, Ordering::Relaxed);
    }

    /// Reads the flag as it is at this moment.
    pub fn is_set(&self) -> (r: bool) {
        self.flag.load(Ordering::Relaxed)
    }
}

/// Where the coordinator stands.
#[derive(Clone, Copy, Debug, PartialEq, Eq, Structural)]
pub enum Lifecycle {
    NotStarted,
    Running,
    StopRequested,
    Stopped,
}

/// How the simulation loop's unit of execution ended, as the joiner saw it.
#[derive(Clone, Copy, Debug, PartialEq, Eq, Structural)]
pub enum SimulationExit {
    Finished,
    Panicked,
}

/// Why a coordinator call failed.
#[derive(Clone, Copy, Debug, PartialEq, Eq, Structural)]
pub enum LifecycleError {
    /// The call is not allowed in the coordinator's current state.
    InvalidTransition,
    /// The simulation loop ended abnormally.
    SimulationThreadFailure,
}

impl Lifecycle {
    /// `join` is allowed exactly while a simulation loop is outstanding.
    pub open spec fn joinable(self) -> bool {
        self == Lifecycle::Running || self == Lifecycle::StopRequested
    }

}

/// Owns the shutdown signal and tracks the lifecycle of the two loops.
pub struct Coordinator {
    state: Lifecycle,
    signal: ShutdownSignal,
}

impl Coordinator {
    /// The coordinator's current state.
    pub closed spec fn lifecycle(&self) -> Lifecycle {
        self.state
    }

    /// The token that the coordinator owns.
    pub closed spec fn token(&self) -> ShutdownSignal {
        self.signal
    }

    /// A coordinator that has started nothing yet.
    pub fn new() -> (r: Self)
        ensures
            r.lifecycle() == Lifecycle::NotStarted,
    {
        Coordinator { state: Lifecycle::NotStarted, signal: ShutdownSignal::new() }
    }

    /// Returns the current state.
    pub fn state(&self) -> (r: Lifecycle)
        ensures
            r == self.lifecycle(),
    {
        self.state
    }

    /// `NotStarted` to `Running`. Hands out the token that the simulation
    /// loop is spawned with. In any other state nothing changes and the call
    /// is rejected.
    pub fn start(&mut self) -> (r: Result<ShutdownSignal, LifecycleError>)
        ensures
            final(self).token() == old(self).token(),
            old(self).lifecycle() == Lifecycle::NotStarted ==> r == Ok::<
                ShutdownSignal,
                LifecycleError,
            >(old(self).token()) && final(self).lifecycle() == Lifecycle::Running,
            old(self).lifecycle() != Lifecycle::NotStarted ==> r == Err::<
                ShutdownSignal,
                LifecycleError,
            >(LifecycleError::InvalidTransition) && final(self).lifecycle() == old(
                self,
            ).lifecycle(),
    {
        match self.state {
            Lifecycle::NotStarted => {
                self.state = Lifecycle::Running;
                Ok(self.signal.share())
            },
            _ => Err(LifecycleError::InvalidTransition),
        }
    }

    /// `Running` to `StopRequested`, setting the shutdown signal. In any
    /// other state nothing changes, the signal is not touched, and the call
    /// is rejected.
    pub fn request_stop(&mut self) -> (r: Result<(), LifecycleError>)
        ensures
            final(self).token() == old(self).token(),
            old(self).lifecycle() == Lifecycle::Running ==> r == Ok::<(), LifecycleError>(())
                && final(self).lifecycle() == Lifecycle::StopRequested,
            old(self).lifecycle() != Lifecycle::Running ==> r == Err::<(), LifecycleError>(
                LifecycleError::InvalidTransition,
            ) && final(self).lifecycle() == old(self).lifecycle(),
    {
        match self.state {
            Lifecycle::Running => {
                self.signal.set();
                self.state = Lifecycle::StopRequested;
                Ok(())
            },
            _ => Err(LifecycleError::InvalidTransition),
        }
    }

    /// Records that the simulation loop's unit of execution has fully exited
    /// and how. Allowed while a loop is outstanding, with or without a stop
    /// request; the coordinator is then `Stopped`, and an abnormal exit is
    /// reported as `SimulationThreadFailure`. In `NotStarted` and `Stopped`
    /// nothing changes and the call is rejected.
    pub fn join(&mut self, exit: SimulationExit) -> (r: Result<(), LifecycleError>)
        ensures
            final(self).token() == old(self).token(),
            old(self).lifecycle().joinable() ==> final(self).lifecycle() == Lifecycle::Stopped,
            old(self).lifecycle().joinable() && exit == SimulationExit::Finished ==> r == Ok::<
                (),
                LifecycleError,
            >(()),
            old(self).lifecycle().joinable() && exit == SimulationExit::Panicked ==> r == Err::<
                (),
                LifecycleError,
            >(LifecycleError::SimulationThreadFailure),
            !old(self).lifecycle().joinable() ==> r == Err::<(), LifecycleError>(
                LifecycleError::InvalidTransition,
            ) && final(self).lifecycle() == old(self).lifecycle(),
    {
        match self.state {
            Lifecycle::Running | Lifecycle::StopRequested => {
                self.state = Lifecycle::Stopped;
                match exit {
                    SimulationExit::Finished => Ok(()),
                    SimulationExit::Panicked => Err(LifecycleError::SimulationThreadFailure),
                }
            },
            _ => Err(LifecycleError::InvalidTransition),
        }
    }
}

/// The process exit code for what `join` reported: zero on a clean join,
/// one otherwise.
pub fn exit_code(joined: Result<(), LifecycleError>) -> (code: i32)
    ensures
        joined.is_ok() ==> code == 0,
        joined.is_err() ==> code == 1,
{
    match joined {
        Ok(_) => 0,
        Err(_) => 1,
    }
}

} // verus!
