//! Note lifecycle: trigger, legato, release, preview, and the stop edge.

use infinitrak::channel::Channel;
use infinitrak::engine::{EngineCommand, TrackerEngine};
use infinitrak::pattern::{Note, NUM_CHANNELS};
use infinitrak::state::SharedState;
use infinitrak::voice::EnvStage;

fn playing_state(bpm: u32, sample_rate: u32) -> SharedState {
    let mut st = SharedState::new(bpm, sample_rate);
    st.current_tick_samples = 0;
    st.is_playing = true;
    st
}

#[test]
fn kick_on_row_zero_triggers_channel_zero() {
    // One kick note on row 0, channel 0: the first tick hands the host a
    // hard trigger with the kick's bank slot and rebuilds the fresh
    // voice; every other channel is released.
    let mut st = playing_state(120, 48000);
    st.patterns[0].rows[0][0] = Note { key: 36 };
    let mut engine = TrackerEngine::new(48000);
    let cmds = engine.process(&mut st, 6000);
    assert_eq!(
        cmds[0],
        EngineCommand::Trigger { channel: 0, key: 36, instrument: 0, rebuild: true }
    );
    for (i, c) in cmds.iter().enumerate().skip(1) {
        assert_eq!(*c, EngineCommand::Release { channel: i });
    }
    assert!(engine.channels[0].voice.gate);
    assert_eq!(engine.channels[0].voice.stage, EnvStage::Attack);
    assert_eq!(engine.channels[0].voice.pitch_key, 36);
    assert_eq!(engine.channels[0].last_key, 36);
    assert_eq!(engine.channels[0].current_instrument.name, "Kick");
}

#[test]
fn synth_channel_holds_legato_on_repeated_key() {
    // Channel 5 is a synth channel: the same key on the next row moves
    // legato — no retrigger, the envelope runs on.
    let mut st = playing_state(120, 48000);
    st.patterns[0].rows[0][5] = Note { key: 60 };
    st.patterns[0].rows[1][5] = Note { key: 60 };
    let mut engine = TrackerEngine::new(48000);

    let cmds = engine.process(&mut st, 6000);
    assert_eq!(
        cmds[5],
        EngineCommand::Trigger { channel: 5, key: 60, instrument: 5, rebuild: true }
    );

    let cmds = engine.process(&mut st, 6000);
    assert_eq!(
        cmds[5],
        EngineCommand::Legato { channel: 5, key: 60, instrument: 5, rebuild: false }
    );
    assert!(engine.channels[5].voice.gate);
    assert_eq!(engine.channels[5].voice.stage, EnvStage::Attack);
}

#[test]
fn drum_channel_retriggers_on_repeated_key() {
    // Channel 0 is a drum channel: the same key on the next row must
    // retrigger hard.
    let mut st = playing_state(120, 48000);
    st.patterns[0].rows[0][0] = Note { key: 36 };
    st.patterns[0].rows[1][0] = Note { key: 36 };
    let mut engine = TrackerEngine::new(48000);

    engine.process(&mut st, 6000);
    let cmds = engine.process(&mut st, 6000);
    assert_eq!(
        cmds[0],
        EngineCommand::Trigger { channel: 0, key: 36, instrument: 0, rebuild: false }
    );
}

#[test]
fn synth_channel_retriggers_on_changed_key() {
    let mut st = playing_state(120, 48000);
    st.patterns[0].rows[0][5] = Note { key: 60 };
    st.patterns[0].rows[1][5] = Note { key: 64 };
    let mut engine = TrackerEngine::new(48000);

    engine.process(&mut st, 6000);
    let cmds = engine.process(&mut st, 6000);
    assert_eq!(
        cmds[5],
        EngineCommand::Trigger { channel: 5, key: 64, instrument: 5, rebuild: false }
    );
    assert_eq!(engine.channels[5].voice.pitch_key, 64);
}

#[test]
fn empty_row_releases_a_sounding_note() {
    let mut st = playing_state(120, 48000);
    st.patterns[0].rows[0][4] = Note { key: 52 };
    let mut engine = TrackerEngine::new(48000);

    engine.process(&mut st, 6000);
    assert!(engine.channels[4].voice.gate);

    let cmds = engine.process(&mut st, 6000);
    assert_eq!(cmds[4], EngineCommand::Release { channel: 4 });
    assert!(!engine.channels[4].voice.gate);
    assert_eq!(engine.channels[4].voice.stage, EnvStage::Release);
    assert_eq!(engine.channels[4].last_key, 0);
}

#[test]
fn stop_edge_silences_every_channel() {
    // Stop while playing: the next callback silences all channels and
    // hands the host one silence per channel before anything else.
    let mut st = playing_state(120, 48000);
    for i in 0..NUM_CHANNELS {
        st.patterns[0].rows[0][i] = Note { key: 40 };
    }
    let mut engine = TrackerEngine::new(48000);
    engine.process(&mut st, 6000);
    for ch in &engine.channels {
        assert!(ch.voice.gate);
    }

    st.is_playing = false;
    let cmds = engine.process(&mut st, 1000);
    assert_eq!(cmds.len(), NUM_CHANNELS);
    for (i, c) in cmds.iter().enumerate() {
        assert_eq!(*c, EngineCommand::Silence { channel: i });
    }
    for ch in &engine.channels {
        assert!(!ch.voice.gate);
        assert_eq!(ch.last_key, 0);
    }

    let cmds = engine.process(&mut st, 1000);
    assert_eq!(cmds.len(), 0);
}

#[test]
fn preview_triggers_and_auto_releases_after_half_a_second() {
    // Preview while stopped: channel 3 sounds its bank instrument at the
    // requested key, and auto-releases once half a second of callbacks
    // has passed.
    let mut st = SharedState::new(120, 48000);
    st.preview_request = Some((3, 60));
    let mut engine = TrackerEngine::new(48000);

    let cmds = engine.process(&mut st, 512);
    assert_eq!(
        cmds[0],
        EngineCommand::Trigger { channel: 3, key: 60, instrument: 3, rebuild: true }
    );
    assert_eq!(st.preview_request, None);
    assert!(engine.channels[3].voice.gate);
    assert_eq!(engine.channels[3].current_instrument.name, "Bass Saw");

    // 24000 samples of audition at 48 kHz; 512 already ran down.
    let mut elapsed = 512;
    while elapsed < 24000 {
        engine.process(&mut st, 512);
        elapsed += 512;
    }
    assert!(!engine.channels[3].voice.gate);
    assert_eq!(engine.channels[3].voice.stage, EnvStage::Release);
}

#[test]
fn preview_key_zero_releases_the_channel() {
    let mut st = SharedState::new(120, 48000);
    st.preview_request = Some((3, 60));
    let mut engine = TrackerEngine::new(48000);
    engine.process(&mut st, 64);
    assert!(engine.channels[3].voice.gate);

    st.preview_request = Some((3, 0));
    let cmds = engine.process(&mut st, 64);
    assert_eq!(cmds[0], EngineCommand::Release { channel: 3 });
    assert!(!engine.channels[3].voice.gate);
}

#[test]
fn preview_on_out_of_range_channel_is_dropped() {
    let mut st = SharedState::new(120, 48000);
    st.preview_request = Some((NUM_CHANNELS, 60));
    let mut engine = TrackerEngine::new(48000);
    let cmds = engine.process(&mut st, 64);
    assert_eq!(cmds.len(), 0);
    assert_eq!(st.preview_request, None);
}

#[test]
fn trigger_then_release_leaves_gate_closed_in_release_stage() {
    let mut ch = Channel::new(48000);
    ch.trigger_note(72, None);
    assert!(ch.voice.gate);
    ch.release();
    assert!(!ch.voice.gate);
    assert_eq!(ch.voice.stage, EnvStage::Release);
}

#[test]
fn cleared_key_always_means_released_voice() {
    // Invariant: a channel whose last key is zero holds no open gate,
    // come what may.
    let mut st = playing_state(120, 48000);
    st.patterns[0].rows[0][7] = Note { key: 55 };
    st.patterns[0].rows[2][7] = Note { key: 55 };
    let mut engine = TrackerEngine::new(48000);
    for frames in [6000usize, 512, 6000, 11488, 6000] {
        engine.process(&mut st, frames);
        for ch in &engine.channels {
            if ch.last_key == 0 {
                assert!(!ch.voice.gate);
                assert_ne!(ch.voice.stage, EnvStage::Attack);
            }
        }
    }
}
