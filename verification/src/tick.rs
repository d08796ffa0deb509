//! The simulation tick driver: at each tick boundary it looks at the
//! shutdown signal, and after each step of the world at the world's answer.

use crate::lifecycle::ShutdownSignal;
use flecs_ecs::prelude::World;
use vstd::prelude::*;

verus! {

/// The `World` of flecs_ecs, carried as an opaque value.
#[verifier::external_type_specification]
#[verifier::external_body]
pub struct ExWorld(World);

/// `World::progress` of flecs_ecs: runs the world's systems for one tick and
/// answers whether the world wants to go on (false once `World::quit` was
/// called). The answer depends on the world, so nothing is claimed of it. The
/// systems registered on the world run inside the call.
pub assume_specification[ World::progress ](world: &World) -> (continues: bool)
;

/// Why the driver left its loop.
#[derive(Clone, Copy, Debug, PartialEq, Eq, Structural)]
pub enum ExitReason {
    /// The shutdown signal was found set at a tick boundary.
    ShutdownObserved,
    /// The world reported that it does not want another step.
    WorldStopped,
}

/// Where the driver stands between two events.
#[derive(Clone, Copy, Debug, PartialEq, Eq, Structural)]
pub enum DriverPhase {
    /// Between ticks: the next thing to do is to read the shutdown signal.
    Boundary,
    /// A step of the world is in flight.
    InTick,
    /// The loop is over.
    Exited(ExitReason),
}

/// What the driver's surroundings report back to it.
#[derive(Clone, Copy, Debug, PartialEq, Eq, Structural)]
pub enum DriverEvent {
    /// The shutdown signal was read at a boundary.
    Polled { shutdown_set: bool },
    /// The world finished one step.
    Advanced { world_continues: bool },
}

/// What the driver asks of its surroundings next.
#[derive(Clone, Copy, Debug, PartialEq, Eq, Structural)]
pub enum DriverAction {
    /// Read the shutdown signal and report `Polled`.
    PollSignal,
    /// Advance the world by exactly one step and report `Advanced`.
    AdvanceWorld,
    /// Leave the loop.
    Stop(ExitReason),
}

/// The event that `phase` waits for, if it waits for one.
pub open spec fn in_turn(phase: DriverPhase, event: DriverEvent) -> bool {
    match (phase, event) {
        (DriverPhase::Boundary, DriverEvent::Polled { .. }) => true,
        (DriverPhase::InTick, DriverEvent::Advanced { .. }) => true,
        _ => false,
    }
}

/// The phase that follows `phase` on `event`. An event out of turn leaves
/// the phase as it is.
pub open spec fn next_phase(phase: DriverPhase, event: DriverEvent) -> DriverPhase {
    match (phase, event) {
        (DriverPhase::Boundary, DriverEvent::Polled { shutdown_set }) => if shutdown_set {
            DriverPhase::Exited(ExitReason::ShutdownObserved)
        } else {
            DriverPhase::InTick
        },
        (DriverPhase::InTick, DriverEvent::Advanced { world_continues }) => if world_continues {
            DriverPhase::Boundary
        } else {
            DriverPhase::Exited(ExitReason::WorldStopped)
        },
        _ => phase,
    }
}

/// What a driver in `phase` asks for.
pub open spec fn action_in(phase: DriverPhase) -> DriverAction {
    match phase {
        DriverPhase::Boundary => DriverAction::PollSignal,
        DriverPhase::InTick => DriverAction::AdvanceWorld,
        DriverPhase::Exited(reason) => DriverAction::Stop(reason),
    }
}

/// An event read after the shutdown signal was set: a poll has seen it.
pub open spec fn after_shutdown(event: DriverEvent) -> bool {
    match event {
        DriverEvent::Polled { shutdown_set } => shutdown_set,
        DriverEvent::Advanced { .. } => true,
    }
}

/// One transition of the driver: the phase after `event` and what to do
/// there.
pub fn driver_transition(phase: DriverPhase, event: DriverEvent) -> (r: (DriverPhase, DriverAction))
    ensures
        r.0 == next_phase(phase, event),
        r.1 == action_in(r.0),
{
    let next = match phase {
        DriverPhase::Boundary => match event {
            DriverEvent::Polled { shutdown_set } => if shutdown_set {
                DriverPhase::Exited(ExitReason::ShutdownObserved)
            } else {
                DriverPhase::InTick
            },
            DriverEvent::Advanced { .. } => phase,
        },
        DriverPhase::InTick => match event {
            DriverEvent::Advanced { world_continues } => if world_continues {
                DriverPhase::Boundary
            } else {
                DriverPhase::Exited(ExitReason::WorldStopped)
            },
            DriverEvent::Polled { .. } => phase,
        },
        DriverPhase::Exited(_) => phase,
    };
    let action = match next {
        DriverPhase::Boundary => DriverAction::PollSignal,
        DriverPhase::InTick => DriverAction::AdvanceWorld,
        DriverPhase::Exited(reason) => DriverAction::Stop(reason),
    };
    (next, action)
}

/// Runs one iteration of the simulation loop on `world`, starting at a tick
/// boundary: reads the signal, and unless it is set advances the world by one
/// step. The iteration ends at the next boundary or with the loop over, never
/// inside a tick.
pub fn run_tick(world: &World, signal: &ShutdownSignal) -> (r: DriverPhase)
    ensures
        r != DriverPhase::InTick,
        exists|shutdown_set: bool, world_continues: bool|
            r == #[trigger] next_phase(
                #[trigger] next_phase(DriverPhase::Boundary, DriverEvent::Polled { shutdown_set }),
                DriverEvent::Advanced { world_continues },
            ),
{
    let shutdown_set = signal.is_set();
    let (polled, action) = driver_transition(
        DriverPhase::Boundary,
        DriverEvent::Polled { shutdown_set },
    );
    match action {
        DriverAction::AdvanceWorld => {
            let world_continues = world.progress();
            let (r, _) = driver_transition(polled, DriverEvent::Advanced { world_continues });
            r
        },
        _ => {
            assert(polled == next_phase(polled, DriverEvent::Advanced { world_continues: true }));
            polled
        },
    }
}

/// Once the shutdown signal is set the loop ends within one in-flight tick:
/// from any phase that still waits for an event, two events in turn that come
/// after the setting leave the driver exited, and neither of them starts a
/// new step of the world.
pub proof fn lemma_shutdown_ends_loop(phase: DriverPhase, first: DriverEvent, second: DriverEvent)
    requires
        in_turn(phase, first),
        after_shutdown(first),
        after_shutdown(second),
        next_phase(phase, first) is Exited || in_turn(next_phase(phase, first), second),
    ensures
        action_in(next_phase(phase, first)) != DriverAction::AdvanceWorld,
        action_in(next_phase(next_phase(phase, first), second)) != DriverAction::AdvanceWorld,
        next_phase(next_phase(phase, first), second) is Exited,
{
}

/// A poll that finds the signal set ends the loop at once, whatever the
/// world would have answered.
pub proof fn lemma_poll_after_shutdown_exits()
    ensures
        next_phase(DriverPhase::Boundary, DriverEvent::Polled { shutdown_set: true })
            == DriverPhase::Exited(ExitReason::ShutdownObserved),
{
}

/// The loop is over for good: no event moves an exited driver.
pub proof fn lemma_exit_is_terminal(reason: ExitReason, event: DriverEvent)
    ensures
        next_phase(DriverPhase::Exited(reason), event) == DriverPhase::Exited(reason),
{
}

} // verus!
