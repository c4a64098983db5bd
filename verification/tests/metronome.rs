use ready_metronome::metronome::{
    compute_ns_delay, effective_beats_per_bar, refresh_timeout, ts_value_is_valid, CycleAction,
    EngineState, InitMetronomeSettings, Metronome, MetronomeSettings, SoundLoadError,
};

fn sound_list() -> Vec<String> {
    vec!["EmeryBoardClick.wav".to_string(), "Sine440.wav".to_string()]
}

fn running_settings(bpm: u64) -> MetronomeSettings {
    MetronomeSettings::new(
        InitMetronomeSettings {
            bpm,
            ts_note: 4,
            ts_value: 4,
            volume: 100,
            debug: false,
            is_running: true,
        },
        sound_list(),
        0,
    )
}

/// A metronome in the steady state: started, first tick already booked.
fn steady_metronome(bpm: u64) -> Metronome {
    let mut m = Metronome::new(running_settings(bpm));
    assert_eq!(m.cycle(0), CycleAction::Trigger);
    m.complete_tick(Ok(()));
    m
}

#[test]
fn ns_delay_exact_values() {
    // One beat at 60 bpm lasts a second; at 120 bpm, half a second.
    assert_eq!(compute_ns_delay(60, false, false, false), 1_000_000_000);
    assert_eq!(compute_ns_delay(120, false, false, false), 500_000_000);
    // Triplet mode: three ticks over two beats.
    assert_eq!(compute_ns_delay(60, true, false, false), 666_666_666);
    // Eighth subdivision halves the delay; sixteenth quarters it.
    assert_eq!(compute_ns_delay(120, false, true, false), 250_000_000);
    assert_eq!(compute_ns_delay(120, false, false, true), 125_000_000);
    // Sixteenths subsume eighths when both are on.
    assert_eq!(compute_ns_delay(120, false, true, true), 125_000_000);
}

#[test]
fn effective_beats_exact_values() {
    assert_eq!(effective_beats_per_bar(4, false, false, false), 4);
    // A 4-beat bar in triplet mode holds 6 ticks.
    assert_eq!(effective_beats_per_bar(4, true, false, false), 6);
    assert_eq!(effective_beats_per_bar(4, false, true, false), 8);
    assert_eq!(effective_beats_per_bar(4, false, false, true), 16);
    assert_eq!(effective_beats_per_bar(3, true, true, false), 9);
    assert_eq!(effective_beats_per_bar(7, false, false, false), 7);
}

#[test]
fn ts_value_gate() {
    assert!(ts_value_is_valid(4));
    assert!(ts_value_is_valid(8));
    assert!(ts_value_is_valid(16));
    assert!(ts_value_is_valid(32));
    assert!(!ts_value_is_valid(0));
    assert!(!ts_value_is_valid(3));
    assert!(!ts_value_is_valid(64));
}

#[test]
fn new_settings_derive_fields_and_reset_counters() {
    let s = running_settings(120);
    assert_eq!(s.bpm, 120);
    assert_eq!(s.ns_delay, 500_000_000);
    assert_eq!(s.beats_per_bar, 4);
    assert_eq!(s.current_beat_count, 0);
    assert_eq!(s.bar_count, 1);
    assert_eq!(s.tick_count, 0);
    assert!(!s.error);
    assert!(s.is_running);
}

#[test]
fn beat_counting_closed_form() {
    // From beat 0 with three effective beats per bar, after 7 ticks the
    // beat counter reads ((7 - 1) % 3) + 1 = 1 and the bar counter has
    // grown by (7 - 1) / 3 = 2.
    let mut m = Metronome::new(running_settings(120));
    m.settings.set_time_signature(3, 4);
    for _ in 0..7 {
        m.complete_tick(Ok(()));
    }
    assert_eq!(m.settings.current_beat_count, 1);
    assert_eq!(m.settings.bar_count, 3);
}

#[test]
fn wraparound_after_four_ticks() {
    // With four effective beats per bar, exactly four ticks past the
    // first bring the beat counter back to 1 and the bar counter up one.
    let mut m = steady_metronome(120);
    assert_eq!(m.settings.current_beat_count, 1);
    let bar_before = m.settings.bar_count;
    for _ in 0..4 {
        m.complete_tick(Ok(()));
    }
    assert_eq!(m.settings.current_beat_count, 1);
    assert_eq!(m.settings.bar_count, bar_before + 1);
}

#[test]
fn stop_twice_keeps_counters_reset() {
    let mut m = steady_metronome(120);
    m.complete_tick(Ok(()));
    m.observe_running(false);
    assert_eq!(m.settings.current_beat_count, 0);
    assert_eq!(m.settings.bar_count, 1);
    assert_eq!(m.state(), EngineState::Idle);
    m.observe_running(false);
    assert_eq!(m.settings.current_beat_count, 0);
    assert_eq!(m.settings.bar_count, 1);
    assert_eq!(m.state(), EngineState::Idle);
}

#[test]
fn live_tempo_change_moves_the_threshold() {
    let mut m = steady_metronome(120);
    // 600 ms since the last tick: past the 500 ms delay at 120 bpm.
    assert_eq!(m.cycle(600_000_000), CycleAction::Trigger);
    m.complete_tick(Ok(()));
    // The same elapsed time is short of the 1 s delay at 60 bpm, on the
    // very next comparison after the edit.
    m.settings.set_bpm(60);
    assert_eq!(m.cycle(600_000_000), CycleAction::Wait);
    assert_eq!(m.cycle(1_000_000_000), CycleAction::Trigger);
}

#[test]
fn failed_sound_load_faults_the_engine() {
    let mut m = steady_metronome(120);
    let beat_before = m.settings.current_beat_count;
    let bar_before = m.settings.bar_count;
    m.complete_tick(Err(SoundLoadError));
    assert!(m.settings.error);
    assert_eq!(m.state(), EngineState::Faulted);
    // A failed tick does not count: the counters stand where they were.
    assert_eq!(m.settings.current_beat_count, beat_before);
    assert_eq!(m.settings.bar_count, bar_before);
    // The next wake halts instead of dispatching, and the running flag
    // stays up until the control surface lowers it.
    assert_eq!(m.cycle(u64::MAX), CycleAction::Halt);
    assert!(m.settings.is_running);
}

#[test]
fn shrinking_the_bar_mid_bar_still_wraps() {
    // Three beats into a four-beat bar, the bar is shrunk to two beats:
    // the counter stands past the new bar length, so the very next tick
    // wraps it to 1 and counts the bar.
    let mut m = steady_metronome(120);
    m.complete_tick(Ok(()));
    m.complete_tick(Ok(()));
    assert_eq!(m.settings.current_beat_count, 3);
    m.settings.set_time_signature(2, 4);
    assert_eq!(m.settings.beats_per_bar, 2);
    let bar_before = m.settings.bar_count;
    m.complete_tick(Ok(()));
    assert_eq!(m.settings.current_beat_count, 1);
    assert_eq!(m.settings.bar_count, bar_before + 1);
}

#[test]
fn debug_flag_toggle() {
    let mut s = running_settings(120);
    assert!(!s.debug);
    s.set_debug(true);
    assert!(s.debug);
    s.set_debug(false);
    assert!(!s.debug);
}

#[test]
fn restart_after_fault_needs_error_cleared() {
    let mut m = steady_metronome(120);
    m.complete_tick(Err(SoundLoadError));
    m.observe_running(false);
    m.observe_running(true);
    // The error flag still stands, so the engine halts again at once.
    assert_eq!(m.cycle(0), CycleAction::Halt);
    m.settings.clear_error();
    assert_eq!(m.state(), EngineState::Priming);
    assert_eq!(m.cycle(0), CycleAction::Trigger);
}

#[test]
fn priming_tick_fires_immediately() {
    let mut m = Metronome::new(running_settings(120));
    assert_eq!(m.state(), EngineState::Priming);
    assert_eq!(m.cycle(0), CycleAction::Trigger);
    assert_eq!(m.state(), EngineState::Steady);
}

#[test]
fn steady_trigger_exactly_at_the_delay() {
    let mut m = steady_metronome(120);
    assert_eq!(m.cycle(499_999_999), CycleAction::Wait);
    assert_eq!(m.cycle(500_000_000), CycleAction::Trigger);
}

#[test]
fn stopped_engine_never_triggers() {
    let mut m = steady_metronome(120);
    m.observe_running(false);
    assert_eq!(m.cycle(u64::MAX), CycleAction::Wait);
}

#[test]
fn subdivision_edit_recomputes_both_derived_fields() {
    let mut s = running_settings(120);
    s.set_subdivisions(true, false, false);
    assert_eq!(s.beats_per_bar, 6);
    assert_eq!(s.ns_delay, 333_333_333);
    s.set_subdivisions(false, false, true);
    assert_eq!(s.beats_per_bar, 16);
    assert_eq!(s.ns_delay, 125_000_000);
    s.set_subdivisions(false, false, false);
    assert_eq!(s.beats_per_bar, 4);
    assert_eq!(s.ns_delay, 500_000_000);
}

#[test]
fn time_signature_edit_recomputes_beats() {
    let mut s = running_settings(120);
    s.set_time_signature(6, 8);
    assert_eq!(s.beats_per_bar, 6);
    assert_eq!(s.ts_value, 8);
    assert_eq!(s.ns_delay, 500_000_000);
}

#[test]
fn volume_and_sound_selection() {
    let mut s = running_settings(120);
    s.set_volume(42);
    assert_eq!(s.volume, 42);
    s.select_sound(1);
    assert_eq!(s.selected_sound, 1);
    let m = Metronome::new(s);
    assert_eq!(m.selected_sound_name().as_str(), "Sine440.wav");
}

#[test]
fn refresh_timeout_bounds_the_sleep() {
    assert_eq!(refresh_timeout(5_000_000, 2_000_000), 3_000_000);
    assert_eq!(refresh_timeout(5_000_000, 5_000_000), 0);
    // Already overdue: sleep a whole refresh period.
    assert_eq!(refresh_timeout(5_000_000, 6_000_000), 5_000_000);
}

#[test]
fn tick_count_wraps_at_the_top() {
    let mut m = Metronome::new(running_settings(120));
    m.bump_tick_count();
    m.bump_tick_count();
    assert_eq!(m.settings.tick_count, 2);
    m.settings.tick_count = u64::MAX;
    m.bump_tick_count();
    assert_eq!(m.settings.tick_count, 0);
}
