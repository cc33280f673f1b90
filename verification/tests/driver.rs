use conway::Simulation;
use conway::SimulationState;
use conway::UiOptions;

#[test]
fn ready_when_enough_milliseconds_have_elapsed() {
    let options = UiOptions { millis_between_ticks: 500, square_size: 16 };
    assert!(options.ready_for_next_tick(1, 0));
    assert!(options.ready_for_next_tick(0, 500_000_000));
    assert!(!options.ready_for_next_tick(0, 499_999_999));
    assert!(!options.ready_for_next_tick(0, 0));
}

#[test]
fn ready_every_frame_when_no_delay_is_asked_for() {
    let options = UiOptions { millis_between_ticks: 0, square_size: 8 };
    assert!(options.ready_for_next_tick(0, 0));
}

#[test]
fn subsecond_nanos_round_down_to_whole_milliseconds() {
    let options = UiOptions { millis_between_ticks: 3, square_size: 4 };
    assert!(!options.ready_for_next_tick(0, 2_999_999));
    assert!(options.ready_for_next_tick(0, 3_000_000));
}

#[test]
fn simulation_starts_paused_and_toggles() {
    let mut sim = Simulation::new();
    assert_eq!(sim.state, SimulationState::Paused);
    sim.toggle_state();
    assert_eq!(sim.state, SimulationState::Playing);
    sim.toggle_state();
    assert_eq!(sim.state, SimulationState::Paused);
}
