use vstd::prelude::*;

verus! {

/// Configuration for an interactive driver loop sitting on top of the
/// engine. The driver owns the clock and the window; this type only decides
/// when the next generation is due.
pub struct UiOptions {
    /// How many milliseconds must elapse between two generations.
    /// For instance 500 advances the board twice a second, and 0 advances it
    /// on every frame.
    pub millis_between_ticks: u64,

    /// How wide and high each cell is drawn, in pixels.
    pub square_size: i32,
}

impl UiOptions {
    /// Decide whether enough time has passed since the last generation,
    /// given the elapsed time as whole seconds plus the nanoseconds of the
    /// remaining fraction of a second.
    pub fn ready_for_next_tick(&self, elapsed_secs: u64, elapsed_subsec_nanos: u32) -> (r: bool)
        requires
            elapsed_secs * 1000 + 999 <= u64::MAX,
            elapsed_subsec_nanos < 1_000_000_000,
        ensures
            r == (elapsed_secs * 1000 + elapsed_subsec_nanos as int / 1_000_000
                >= self.millis_between_ticks),
    {
        let elapsed_ms: u64 = elapsed_secs * 1_000 + (elapsed_subsec_nanos as u64) / 1_000_000;
        elapsed_ms >= self.millis_between_ticks
    }
}

/// Whether the driver loop is advancing the board or holding it still.
#[derive(Copy, Clone, Eq, PartialEq, Structural, Debug)]
pub enum SimulationState {
    Paused,
    Playing,
}

/// The driver loop's pause switch.
#[derive(Copy, Clone, Eq, PartialEq, Structural, Debug)]
pub struct Simulation {
    pub state: SimulationState,
}

impl Simulation {
    /// A simulation starts out paused.
    pub fn new() -> (s: Simulation)
        ensures
            s.state == SimulationState::Paused,
    {
        Simulation { state: SimulationState::Paused }
    }

    /// Switch between paused and playing.
    pub fn toggle_state(&mut self)
        ensures
            old(self).state == SimulationState::Paused ==> final(self).state
                == SimulationState::Playing,
            old(self).state == SimulationState::Playing ==> final(self).state
                == SimulationState::Paused,
    {
        self.state = match self.state {
            SimulationState::Paused => SimulationState::Playing,
            SimulationState::Playing => SimulationState::Paused,
        };
    }
}

} // verus!
