//! The driver's state machine: configure the pin once, blink it a fixed
//! number of times, then restore it and stop. The loop that sleeps between
//! blinks and touches the hardware lives outside the library; it asks this
//! module what to do at each step.

use vstd::prelude::*;

verus! {

/// Number of blink iterations the driver performs.
pub const BLINK_COUNT: u32 = 10;

/// Where the driver stands in its one-way run.
#[derive(Clone, Copy, Debug, PartialEq, Eq, Structural)]
pub enum DriverState {
    /// Startup: the pin is still in its power-on mode.
    Unconfigured,
    /// The pin is configured as output and being blinked.
    ConfiguredOutput,
    /// The pin has been driven low and restored as input; the run is over.
    TerminatedInput,
}

/// What the driver is to do next.
#[derive(Clone, Copy, Debug, PartialEq, Eq, Structural)]
pub enum DriverAction {
    /// Configure the pin as output (once, at startup).
    Configure,
    /// Toggle the pin, then suspend for the fixed interval.
    ToggleAndWait,
    /// Drive the pin low and restore it as input (once, at shutdown).
    Restore,
    /// Nothing is left to do.
    Halt,
}

/// One step of the driver: from the current state and the number of blinks
/// already performed, the action to take and the state that follows it.
/// The run is one-way: configuration happens once, the toggle self-loop
/// runs until `BLINK_COUNT` blinks are done, restoration happens once, and
/// the terminated state is never left.
pub fn driver_step(state: DriverState, blinks_done: u32) -> (r: (DriverAction, DriverState))
    ensures
        state is Unconfigured ==> r == (DriverAction::Configure, DriverState::ConfiguredOutput),
        state is ConfiguredOutput && blinks_done < BLINK_COUNT ==> r == (
            DriverAction::ToggleAndWait,
            DriverState::ConfiguredOutput,
        ),
        state is ConfiguredOutput && blinks_done >= BLINK_COUNT ==> r == (
            DriverAction::Restore,
            DriverState::TerminatedInput,
        ),
        state is TerminatedInput ==> r == (DriverAction::Halt, DriverState::TerminatedInput),
{
    match state {
        DriverState::Unconfigured => (DriverAction::Configure, DriverState::ConfiguredOutput),
        DriverState::ConfiguredOutput => {
            if blinks_done < BLINK_COUNT {
                (DriverAction::ToggleAndWait, DriverState::ConfiguredOutput)
            } else {
                (DriverAction::Restore, DriverState::TerminatedInput)
            }
        },
        DriverState::TerminatedInput => (DriverAction::Halt, DriverState::TerminatedInput),
    }
}

} // verus!
