//! Tick scheduling: tempo-derived tick lengths, tick counts per
//! callback, playhead advance, and the scheduler's invariants.

use infinitrak::engine::{EngineCommand, TrackerEngine};
use infinitrak::pattern::{NUM_CHANNELS, ROWS_PER_PATTERN};
use infinitrak::state::SharedState;

#[test]
fn tick_length_at_48000_and_120_bpm() {
    let st = SharedState::new(120, 48000);
    assert_eq!(st.samples_per_tick, 6000);
}

#[test]
fn tick_length_at_44100_and_120_bpm() {
    let st = SharedState::new(120, 44100);
    assert_eq!(st.samples_per_tick, 5512);
}

#[test]
fn one_tick_per_exact_callback_at_48000() {
    let mut st = SharedState::new(120, 48000);
    st.current_tick_samples = 0;
    st.is_playing = true;
    let mut engine = TrackerEngine::new(48000);

    let cmds = engine.process(&mut st, 6000);
    assert_eq!(st.current_row, 1);
    assert_eq!(cmds.len(), NUM_CHANNELS);

    let cmds = engine.process(&mut st, 12000);
    assert_eq!(st.current_row, 3);
    assert_eq!(cmds.len(), 2 * NUM_CHANNELS);

    let cmds = engine.process(&mut st, 5999);
    assert_eq!(st.current_row, 3);
    assert_eq!(cmds.len(), 0);
    assert_eq!(st.current_tick_samples, 5999);
}

#[test]
fn ten_callbacks_at_44100_advance_ten_rows_without_drift() {
    let mut st = SharedState::new(120, 44100);
    assert_eq!(st.samples_per_tick, 5512);
    st.current_tick_samples = 0;
    st.is_playing = true;
    let mut engine = TrackerEngine::new(44100);
    for _ in 0..10 {
        engine.process(&mut st, 5512);
    }
    assert_eq!(st.current_row, 10 % ROWS_PER_PATTERN);
    assert_eq!(st.current_tick_samples, 0);
}

#[test]
fn residue_carries_between_callbacks() {
    let mut st = SharedState::new(120, 48000);
    st.current_tick_samples = 0;
    st.is_playing = true;
    let mut engine = TrackerEngine::new(48000);
    engine.process(&mut st, 4000);
    assert_eq!(st.current_row, 0);
    assert_eq!(st.current_tick_samples, 4000);
    engine.process(&mut st, 4000);
    assert_eq!(st.current_row, 1);
    assert_eq!(st.current_tick_samples, 2000);
}

#[test]
fn playhead_wraps_at_pattern_end() {
    let mut st = SharedState::new(120, 48000);
    st.current_tick_samples = 0;
    st.current_row = ROWS_PER_PATTERN - 1;
    st.is_playing = true;
    let mut engine = TrackerEngine::new(48000);
    engine.process(&mut st, 6000);
    assert_eq!(st.current_row, 0);
}

#[test]
fn residue_stays_below_tick_length_over_odd_callbacks() {
    let mut st = SharedState::new(120, 48000);
    st.current_tick_samples = 0;
    st.is_playing = true;
    let mut engine = TrackerEngine::new(48000);
    let mut fed: usize = 0;
    for frames in [512usize, 4096, 7333, 1, 6000, 123, 17999] {
        engine.process(&mut st, frames);
        fed += frames;
        assert!(st.current_tick_samples < st.samples_per_tick);
        assert_eq!(st.current_row, (fed / 6000) % ROWS_PER_PATTERN);
        assert_eq!(st.current_tick_samples, fed % 6000);
    }
}

#[test]
fn a_very_long_callback_wraps_the_pattern_repeatedly() {
    let mut st = SharedState::new(120, 48000);
    st.current_tick_samples = 0;
    st.is_playing = true;
    let mut engine = TrackerEngine::new(48000);
    // 140 ticks: two full pattern wraps and 12 rows more.
    let cmds = engine.process(&mut st, 140 * 6000 + 17);
    assert_eq!(cmds.len(), 140 * NUM_CHANNELS);
    assert_eq!(st.current_row, 140 % ROWS_PER_PATTERN);
    assert_eq!(st.current_tick_samples, 17);
}

#[test]
fn stopped_transport_fires_no_ticks() {
    let mut st = SharedState::new(120, 48000);
    let row0 = st.current_row;
    let cts0 = st.current_tick_samples;
    let mut engine = TrackerEngine::new(48000);
    let cmds = engine.process(&mut st, 48000);
    assert_eq!(cmds.len(), 0);
    assert_eq!(st.current_row, row0);
    assert_eq!(st.current_tick_samples, cts0);
}

#[test]
fn empty_pattern_releases_every_channel_on_a_tick() {
    // A tick over an empty row is a note-off for every channel.
    let mut st = SharedState::new(120, 48000);
    st.current_tick_samples = 0;
    st.is_playing = true;
    let mut engine = TrackerEngine::new(48000);
    let cmds = engine.process(&mut st, 6000);
    assert_eq!(cmds.len(), NUM_CHANNELS);
    for (i, c) in cmds.iter().enumerate() {
        assert_eq!(*c, EngineCommand::Release { channel: i });
    }
    for ch in &engine.channels {
        assert!(!ch.voice.gate);
        assert_eq!(ch.last_key, 0);
    }
}

#[test]
fn transport_start_primes_an_immediate_tick() {
    // The transport protocol sets the tick clock to a full tick before
    // playing, so the starting row fires on the first callback however
    // short it is.
    let mut st = SharedState::new(120, 48000);
    st.toggle_transport(4);
    assert!(st.is_playing);
    assert_eq!(st.current_row, 4);
    assert_eq!(st.current_tick_samples, st.samples_per_tick);
    let mut engine = TrackerEngine::new(48000);
    engine.process(&mut st, 1);
    assert_eq!(st.current_row, 5);
}
