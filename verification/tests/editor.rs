//! Editor operations on the shared state: note entry, tempo steps,
//! pattern management, parameter editing, and project loading.

use infinitrak::instrument::{count_params, Instrument, ModuleConfig, WaveformType};
use infinitrak::pattern::{Pattern, NUM_CHANNELS, NUM_INSTRUMENTS, ROWS_PER_PATTERN};
use infinitrak::state::{PlayMode, Project, SharedState};

#[test]
fn count_params_over_the_default_chain() {
    // Oscillator (3) + ADSR (4) + gain (1).
    let inst = Instrument::default();
    assert_eq!(count_params(&inst), 8);
}

#[test]
fn count_params_over_a_preset_with_filter() {
    // The kick preset: oscillator, filter, ADSR, gain.
    let st = SharedState::new(120, 48000);
    assert_eq!(count_params(&st.instruments[0]), 3 + 2 + 4 + 1);
}

#[test]
fn changing_the_waveform_cycles_both_ways() {
    let mut inst = Instrument::default();
    inst.change_module_param(0, true);
    match inst.modules[0] {
        ModuleConfig::Oscillator { waveform, .. } => assert_eq!(waveform, WaveformType::Square),
        _ => panic!("module 0 should stay an oscillator"),
    }
    inst.change_module_param(0, false);
    match inst.modules[0] {
        ModuleConfig::Oscillator { waveform, .. } => assert_eq!(waveform, WaveformType::Sine),
        _ => panic!("module 0 should stay an oscillator"),
    }
}

#[test]
fn parameter_steps_land_exactly() {
    // Index 4 is the ADSR's decay (0.05 per step, in thousandths);
    // index 7 is the gain level (0.05 per step, clamped at 1).
    let mut inst = Instrument::default();
    inst.change_module_param(4, true);
    match inst.modules[1] {
        ModuleConfig::Adsr { decay, .. } => assert_eq!(decay, 150),
        _ => panic!("module 1 should stay an ADSR"),
    }
    for _ in 0..20 {
        inst.change_module_param(7, true);
    }
    match inst.modules[2] {
        ModuleConfig::Gain { level } => assert_eq!(level, 1_000),
        _ => panic!("module 2 should stay a gain"),
    }
}

#[test]
fn parameter_floors_hold() {
    // The ADSR attack never falls below a thousandth of a second.
    let mut inst = Instrument::default();
    for _ in 0..5 {
        inst.change_module_param(3, false);
    }
    match inst.modules[1] {
        ModuleConfig::Adsr { attack, .. } => assert_eq!(attack, 1),
        _ => panic!("module 1 should stay an ADSR"),
    }
}

#[test]
fn parameter_index_past_the_end_changes_nothing() {
    let mut inst = Instrument::default();
    let before = inst.modules.clone();
    inst.change_module_param(8, true);
    assert_eq!(inst.modules, before);
}

#[test]
fn filter_cutoff_clamps_to_its_range() {
    let mut st = SharedState::new(120, 48000);
    // Kick preset: parameter 3 is the filter cutoff (2000 Hz, 100 Hz steps).
    let inst = &mut st.instruments[0];
    inst.change_module_param(3, true);
    match inst.modules[1] {
        ModuleConfig::Filter { cutoff, .. } => assert_eq!(cutoff, 2_100_000),
        _ => panic!("module 1 should stay a filter"),
    }
    for _ in 0..200 {
        inst.change_module_param(3, true);
    }
    match inst.modules[1] {
        ModuleConfig::Filter { cutoff, .. } => assert_eq!(cutoff, 20_000_000),
        _ => panic!("module 1 should stay a filter"),
    }
}

#[test]
fn set_note_writes_the_cell_and_asks_for_a_preview() {
    let mut st = SharedState::new(120, 48000);
    st.set_note(4, 2, 49);
    assert_eq!(st.patterns[0].rows[4][2].key, 49);
    assert_eq!(st.preview_request, Some((2, 49)));
    st.clear_note(4, 2);
    assert_eq!(st.patterns[0].rows[4][2].key, 0);
    assert_eq!(st.preview_request, Some((2, 0)));
}

#[test]
fn bpm_steps_stay_inside_the_editor_limits() {
    let mut st = SharedState::new(120, 48000);
    st.step_bpm(true);
    assert_eq!(st.bpm, 125);
    for _ in 0..100 {
        st.step_bpm(true);
    }
    assert_eq!(st.bpm, 300);
    for _ in 0..100 {
        st.step_bpm(false);
    }
    assert_eq!(st.bpm, 10);
}

#[test]
fn bpm_step_retimes_the_tick_for_the_same_engine_rate() {
    let mut st = SharedState::new(120, 48000);
    assert_eq!(st.samples_per_tick, 6000);
    st.step_bpm(true);
    // The engine rate recovered from (6000, 120) is 48000; one tick at
    // 125 beats per minute is then 48000*60/(125*4) = 5760 samples.
    assert_eq!(st.samples_per_tick, 5760);
}

#[test]
fn pattern_management_clones_selects_and_deletes() {
    let mut st = SharedState::new(120, 48000);
    st.set_note(0, 0, 60);
    st.clone_current_pattern();
    assert_eq!(st.patterns.len(), 2);
    assert_eq!(st.current_pattern, 1);
    assert_eq!(st.patterns[1].rows[0][0].key, 60);

    st.select_prev_pattern();
    assert_eq!(st.current_pattern, 0);
    st.select_next_pattern();
    assert_eq!(st.current_pattern, 1);
    st.select_next_pattern();
    assert_eq!(st.patterns.len(), 3);
    assert_eq!(st.current_pattern, 2);
    assert_eq!(st.patterns[2].rows[0][0].key, 0);

    st.delete_current_pattern();
    assert_eq!(st.patterns.len(), 2);
    assert_eq!(st.current_pattern, 1);
    st.delete_current_pattern();
    st.delete_current_pattern();
    assert_eq!(st.patterns.len(), 1);
    assert_eq!(st.current_pattern, 0);
    st.delete_current_pattern();
    assert_eq!(st.patterns.len(), 1);
}

#[test]
fn toggle_transport_starts_and_stops() {
    let mut st = SharedState::new(120, 48000);
    st.toggle_transport(7);
    assert!(st.is_playing);
    assert_eq!(st.current_row, 7);
    assert_eq!(st.current_tick_samples, st.samples_per_tick);
    st.toggle_transport(0);
    assert!(!st.is_playing);
    assert_eq!(st.current_row, 7);
}

#[test]
fn toggle_play_mode_flips() {
    let mut st = SharedState::new(120, 48000);
    assert_eq!(st.play_mode, PlayMode::Pattern);
    st.toggle_play_mode();
    assert_eq!(st.play_mode, PlayMode::Song);
    st.toggle_play_mode();
    assert_eq!(st.play_mode, PlayMode::Pattern);
}

#[test]
fn load_project_pads_instruments_with_defaults() {
    let mut st = SharedState::new(120, 48000);
    let mut inst = Instrument::default();
    inst.name = "Lonely".to_string();
    let project = Project { bpm: 90, pattern: None, patterns: Vec::new(), instruments: vec![inst] };
    st.load_project(project);
    assert_eq!(st.bpm, 90);
    // The tick length follows the new tempo at the engine rate the old
    // values imply: 48000*60/(90*4).
    assert_eq!(st.samples_per_tick, 8000);
    assert_eq!(st.instruments.len(), NUM_INSTRUMENTS);
    assert_eq!(st.instruments[0].name, "Lonely");
    for i in 1..NUM_INSTRUMENTS {
        assert_eq!(st.instruments[i].name, "Init");
    }
    assert_eq!(st.patterns.len(), 1);
    assert_eq!(st.current_pattern, 0);
}

#[test]
fn load_project_takes_the_single_pattern_fallback() {
    let mut st = SharedState::new(120, 48000);
    let mut p = Pattern::default();
    p.rows[3][1].key = 71;
    let project =
        Project { bpm: 120, pattern: Some(p), patterns: Vec::new(), instruments: Vec::new() };
    st.load_project(project);
    assert_eq!(st.patterns.len(), 1);
    assert_eq!(st.patterns[0].rows[3][1].key, 71);
}

#[test]
fn load_project_mends_a_ragged_pattern_grid() {
    // A grid with too few rows or cells comes back cut and padded to
    // the fixed shape, with the surviving notes kept.
    let mut st = SharedState::new(120, 48000);
    let mut p = Pattern::default();
    p.rows.truncate(2);
    p.rows[1].truncate(3);
    p.rows[1][2].key = 44;
    let project =
        Project { bpm: 120, pattern: None, patterns: vec![p], instruments: Vec::new() };
    st.load_project(project);
    assert_eq!(st.patterns[0].rows.len(), ROWS_PER_PATTERN);
    for row in &st.patterns[0].rows {
        assert_eq!(row.len(), NUM_CHANNELS);
    }
    assert_eq!(st.patterns[0].rows[1][2].key, 44);
    assert_eq!(st.patterns[0].rows[1][3].key, 0);
    assert_eq!(st.patterns[0].rows[2][0].key, 0);
}

#[test]
fn load_project_holds_the_tempo_at_one_at_least() {
    let mut st = SharedState::new(120, 48000);
    let project =
        Project { bpm: 0, pattern: None, patterns: Vec::new(), instruments: Vec::new() };
    st.load_project(project);
    assert_eq!(st.bpm, 1);
    assert!(st.samples_per_tick >= 1);
}
