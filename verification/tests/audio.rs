//! The engine's commands driving real signal processors: audio-level
//! checks of the kick scenario, envelope attack timing, and render
//! determinism.

use infinitedsp_core::{FrameProcessor, Mono};

type AudioParam = infinitedsp_core::core::audio_param::AudioParam;
type DspChain<C> = infinitedsp_core::core::dsp_chain::DspChain<C>;
type Parameter = infinitedsp_core::core::parameter::Parameter;

use infinitedsp_core::effects::filter::ladder_filter::LadderFilter;
use infinitedsp_core::effects::utility::dc_source::DcSource;
use infinitedsp_core::effects::utility::gain::Gain;
use infinitedsp_core::synthesis::envelope::{Adsr, Trigger};
use infinitedsp_core::synthesis::oscillator::{Oscillator, Waveform};

use infinitrak::engine::{EngineCommand, TrackerEngine};
use infinitrak::instrument::{Instrument, ModuleConfig, WaveformType};
use infinitrak::render::{prepare_render, render_total_samples, RENDER_SAMPLE_RATE};
use infinitrak::state::SharedState;

fn milli(v: i32) -> f32 {
    v as f32 / 1000.0
}

fn midi_to_freq(key: u8) -> f32 {
    440.0 * 2.0f32.powf((key as f32 - 69.0) / 12.0)
}

fn waveform_of(w: WaveformType) -> Waveform {
    match w {
        WaveformType::Sine => Waveform::Sine,
        WaveformType::Square => Waveform::Square,
        WaveformType::Saw => Waveform::Saw,
        WaveformType::Triangle => Waveform::Triangle,
        WaveformType::Noise => Waveform::WhiteNoise,
    }
}

/// A real voice: the processors the library's voice model stands for.
struct RealVoice {
    modules: Vec<Box<dyn FrameProcessor<Mono> + Send>>,
    triggers: Vec<Trigger>,
    pitch: Parameter,
    gate: Parameter,
    sample_rate: f32,
}

impl RealVoice {
    fn new(sample_rate: f32) -> RealVoice {
        RealVoice {
            modules: Vec::new(),
            triggers: Vec::new(),
            pitch: Parameter::new(440.0),
            gate: Parameter::new(0.0),
            sample_rate,
        }
    }

    fn build(&mut self, instrument: &Instrument) {
        self.modules.clear();
        self.triggers.clear();
        for config in &instrument.modules {
            match *config {
                ModuleConfig::Oscillator {
                    waveform, pitch_env_amount, pitch_env_decay, ..
                } => {
                    let wave = waveform_of(waveform);
                    if pitch_env_amount > 0 {
                        let base_pitch = DcSource::new(AudioParam::Linked(self.pitch.clone()));
                        let pe_env = Adsr::new(
                            AudioParam::Linked(self.gate.clone()),
                            AudioParam::Static(0.001),
                            AudioParam::Static(milli(pitch_env_decay)),
                            AudioParam::Static(0.0),
                            AudioParam::Static(0.01),
                        );
                        self.triggers.push(pe_env.create_trigger());
                        let pe_gain = Gain::new(AudioParam::Static(milli(pitch_env_amount)));
                        let env_chain = DspChain::new(pe_env, self.sample_rate).and(pe_gain);
                        let freq_mod =
                            DspChain::new(base_pitch, self.sample_rate).and_mix(1.0, env_chain);
                        let mut osc =
                            Oscillator::new(AudioParam::Dynamic(Box::new(freq_mod)), wave);
                        osc.set_sample_rate(self.sample_rate);
                        self.modules.push(Box::new(osc));
                    } else {
                        let mut osc =
                            Oscillator::new(AudioParam::Linked(self.pitch.clone()), wave);
                        osc.set_sample_rate(self.sample_rate);
                        self.modules.push(Box::new(osc));
                    }
                }
                ModuleConfig::Filter { cutoff, resonance } => {
                    let mut filter = LadderFilter::new(
                        AudioParam::Static(milli(cutoff)),
                        AudioParam::Static(milli(resonance)),
                    );
                    filter.set_sample_rate(self.sample_rate);
                    self.modules.push(Box::new(filter));
                }
                ModuleConfig::Adsr { attack, decay, sustain, release } => {
                    let env = Adsr::new(
                        AudioParam::Linked(self.gate.clone()),
                        AudioParam::Static(milli(attack)),
                        AudioParam::Static(milli(decay)),
                        AudioParam::Static(milli(sustain)),
                        AudioParam::Static(milli(release)),
                    );
                    self.triggers.push(env.create_trigger());
                    let mut vca = Gain::new(AudioParam::Dynamic(Box::new(env)));
                    FrameProcessor::<Mono>::set_sample_rate(&mut vca, self.sample_rate);
                    self.modules.push(Box::new(vca));
                }
                ModuleConfig::Gain { level } => {
                    let mut gain = Gain::new(AudioParam::Static(milli(level)));
                    FrameProcessor::<Mono>::set_sample_rate(&mut gain, self.sample_rate);
                    self.modules.push(Box::new(gain));
                }
            }
        }
    }

    fn process(&mut self, buffer: &mut [f32], sample_index: u64) {
        for module in &mut self.modules {
            module.process(buffer, sample_index);
        }
    }
}

/// Applies one engine command to the voice bank, as the audio host does.
fn apply(cmd: &EngineCommand, voices: &mut [RealVoice], instruments: &[Instrument]) {
    match *cmd {
        EngineCommand::Trigger { channel, key, instrument, rebuild } => {
            let v = &mut voices[channel];
            v.gate.set(0.0);
            if rebuild {
                let inst = instruments[instrument].clone();
                v.build(&inst);
            }
            v.pitch.set(midi_to_freq(key));
            v.gate.set(1.0);
            for t in &v.triggers {
                t.fire();
            }
        }
        EngineCommand::Legato { channel, key, instrument, rebuild } => {
            let v = &mut voices[channel];
            if rebuild {
                let inst = instruments[instrument].clone();
                v.build(&inst);
            }
            v.pitch.set(midi_to_freq(key));
        }
        EngineCommand::Release { channel } | EngineCommand::Silence { channel } => {
            voices[channel].gate.set(0.0);
        }
    }
}

/// Renders one pattern of `state` offline, exactly as the host's render
/// loop does: block by block, applying the engine's commands, mixing the
/// voices and clipping, then converting to 16-bit.
fn render_offline(state: &SharedState) -> Vec<i16> {
    let mut rs = prepare_render(state);
    let mut engine = TrackerEngine::new(RENDER_SAMPLE_RATE);
    let mut voices: Vec<RealVoice> = (0..16).map(|_| RealVoice::new(44100.0)).collect();
    let total = render_total_samples(rs.samples_per_tick);
    let mut out = Vec::with_capacity(total);
    let mut mix = vec![0.0f32; 512];
    let mut scratch = vec![0.0f32; 512];
    let mut done = 0usize;
    while done < total {
        let block = 512usize.min(total - done);
        let cmds = engine.process(&mut rs, block);
        for cmd in &cmds {
            apply(cmd, &mut voices, &rs.instruments);
        }
        for s in mix[..block].iter_mut() {
            *s = 0.0;
        }
        for voice in &mut voices {
            for s in scratch[..block].iter_mut() {
                *s = 0.0;
            }
            voice.process(&mut scratch[..block], done as u64);
            for (m, s) in mix[..block].iter_mut().zip(scratch[..block].iter()) {
                *m += *s;
            }
        }
        for s in mix[..block].iter() {
            let clipped = s.clamp(-1.0, 1.0);
            out.push((clipped * i16::MAX as f32) as i16);
        }
        done += block;
    }
    out
}

#[test]
fn kick_scenario_sounds_and_decays() {
    // A single kick on row 0, channel 0: a loud burst at once, near
    // silence a quarter second in.
    let mut st = SharedState::new(120, 44100);
    st.set_note(0, 0, 36);
    st.preview_request = None;
    let samples = render_offline(&st);

    let spt = 5512;
    let peak_start = samples[..spt]
        .iter()
        .map(|s| (*s as f32 / i16::MAX as f32).abs())
        .fold(0.0f32, f32::max);
    assert!(peak_start >= 0.5, "kick peak was {}", peak_start);

    // A quarter second in (two ticks past the note-off at row 1), the
    // release has all but died away.
    let from = 11025;
    let to = 12025;
    let tail = samples[from..to]
        .iter()
        .map(|s| (*s as f32 / i16::MAX as f32).abs())
        .fold(0.0f32, f32::max);
    assert!(tail < 0.01, "kick tail was {}", tail);
}

#[test]
fn rendering_the_same_state_twice_is_byte_identical() {
    // The render is deterministic: the noise generators are seeded per
    // build, and everything else is a function of the state.
    let mut st = SharedState::new(120, 44100);
    st.set_note(0, 0, 36);
    st.set_note(2, 1, 42);
    st.set_note(4, 2, 40);
    st.set_note(8, 5, 60);
    st.set_note(9, 5, 60);
    st.preview_request = None;

    let a = render_offline(&st);
    let b = render_offline(&st);
    assert_eq!(a, b);
}

#[test]
fn adsr_attack_reaches_full_level_on_time() {
    // An envelope with a 0.1 s attack at 44100 Hz reaches full level
    // within one sample of 4410.
    let mut env = Adsr::new(
        AudioParam::Static(1.0),
        AudioParam::Static(0.1),
        AudioParam::Static(0.2),
        AudioParam::Static(0.5),
        AudioParam::Static(0.1),
    );
    FrameProcessor::<Mono>::set_sample_rate(&mut env, 44100.0);
    let mut buffer = vec![0.0f32; 8820];
    FrameProcessor::<Mono>::process(&mut env, &mut buffer, 0);
    let reached = buffer.iter().position(|s| *s >= 1.0).expect("attack never completed");
    let expected = 4410usize;
    assert!(
        (reached as i64 - (expected as i64 - 1)).abs() <= 1,
        "attack took {} samples",
        reached + 1
    );
}
