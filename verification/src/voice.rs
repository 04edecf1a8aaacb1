//! The per-channel voice: its built module topology, envelope trigger
//! handles, and gate state.
//!
//! A voice owns one instantiated signal processor per module of its
//! instrument. The processors themselves work per sample on audio
//! buffers and live with the audio host; the voice here carries what
//! every decision about them reads: the configuration each processor was
//! built from, how many envelope trigger handles were recorded, the key
//! driving the pitch parameter, and its gate.
//!
//! The envelope stage is tracked as of the last gate event. `Attack`
//! covers the whole gate-held phase — a running envelope walks from
//! attack through decay into sustain on its own while its gate stays
//! high. `Release` is the falling phase after its gate drops; its decay
//! to silence is again the processors' time-driven business, so the model
//! keeps `Release` until the next trigger. `Idle` holds before the first
//! trigger.

use vstd::prelude::*;

use crate::instrument::{Instrument, InstrumentModel, ModuleConfig};

verus! {

/// Coarse envelope stage of a voice, as of its last gate event.
#[derive(Clone, Copy, PartialEq, Eq, Structural, Debug)]
pub enum EnvStage {
    Idle,
    Attack,
    Release,
}

/// Whether building module `want` in place of the running module `built`
/// requires new processors: the variant differs, an oscillator's waveform
/// differs, or an oscillator gains or loses its pitch envelope. Scalar
/// parameter changes never force a rebuild — they flow into the running
/// processors.
pub open spec fn module_forces_rebuild(built: ModuleConfig, want: ModuleConfig) -> bool {
    match (built, want) {
        (
            ModuleConfig::Oscillator { waveform: w1, pitch_env_amount: a1, .. },
            ModuleConfig::Oscillator { waveform: w2, pitch_env_amount: a2, .. },
        ) => w1 != w2 || ((a1 > 0) != (a2 > 0)),
        (ModuleConfig::Filter { .. }, ModuleConfig::Filter { .. }) => false,
        (ModuleConfig::Adsr { .. }, ModuleConfig::Adsr { .. }) => false,
        (ModuleConfig::Gain { .. }, ModuleConfig::Gain { .. }) => false,
        _ => true,
    }
}

/// Whether a voice built as `built` must be rebuilt to play `want`.
pub open spec fn needs_rebuild(built: Seq<ModuleConfig>, want: Seq<ModuleConfig>) -> bool {
    ||| built.len() != want.len()
    ||| exists|i: int|
        0 <= i < built.len() && module_forces_rebuild(#[trigger] built[i], want[i])
}

/// Whether building `m` records an envelope trigger handle: every ADSR
/// module does, and every oscillator with a pitch envelope does (for the
/// envelope that sweeps its frequency).
pub open spec fn module_has_trigger(m: ModuleConfig) -> bool {
    match m {
        ModuleConfig::Adsr { .. } => true,
        ModuleConfig::Oscillator { pitch_env_amount, .. } => pitch_env_amount > 0,
        _ => false,
    }
}

/// Number of envelope trigger handles building `mods` records.
pub open spec fn trigger_count(mods: Seq<ModuleConfig>) -> int
    decreases mods.len(),
{
    if mods.len() == 0 {
        0
    } else {
        trigger_count(mods.drop_last()) + if module_has_trigger(mods.last()) {
            1int
        } else {
            0int
        }
    }
}

pub proof fn lemma_trigger_count_bounds(mods: Seq<ModuleConfig>)
    ensures
        0 <= trigger_count(mods) <= mods.len(),
    decreases mods.len(),
{
    if mods.len() > 0 {
        lemma_trigger_count_bounds(mods.drop_last());
    }
}

/// Mathematical image of a [`SynthVoice`].
pub struct VoiceModel {
    pub built: Seq<ModuleConfig>,
    pub triggers: int,
    pub pitch_key: u8,
    pub gate: bool,
    pub stage: EnvStage,
    pub sample_rate: u32,
}

/// The voice after its processors are rebuilt for `inst`: the new
/// topology with its trigger handles. Fresh envelopes start idle; if the
/// gate is already high they see a rising edge on the next buffer and
/// enter their attack.
pub open spec fn built_voice(v: VoiceModel, inst: InstrumentModel) -> VoiceModel {
    VoiceModel {
        built: inst.modules,
        triggers: trigger_count(inst.modules),
        stage: if v.gate {
            EnvStage::Attack
        } else {
            EnvStage::Idle
        },
        ..v
    }
}

/// The voice after a parameter update: the pitch follows `key`; with an
/// instrument given, the voice is rebuilt exactly when the topology
/// demands it, and otherwise only its processors' scalar parameters move
/// (which this model does not track — they are whatever the instrument
/// holds).
pub open spec fn updated_voice(v: VoiceModel, key: u8, inst: Option<InstrumentModel>) -> VoiceModel {
    let moved = VoiceModel { pitch_key: key, ..v };
    match inst {
        Some(im) => if needs_rebuild(v.built, im.modules) {
            built_voice(moved, im)
        } else {
            moved
        },
        None => moved,
    }
}

/// The voice after `trigger`: gate high, every recorded envelope re-armed
/// into its attack.
pub open spec fn triggered_voice(v: VoiceModel) -> VoiceModel {
    VoiceModel { gate: true, stage: EnvStage::Attack, ..v }
}

/// The voice after `release`: gate low; an envelope that has ever run
/// falls into its release stage, one that never ran stays idle.
pub open spec fn released_voice(v: VoiceModel) -> VoiceModel {
    VoiceModel {
        gate: false,
        stage: if v.stage is Idle {
            EnvStage::Idle
        } else {
            EnvStage::Release
        },
        ..v
    }
}

/// The sound-producing unit of one channel. See the module documentation
/// for what is carried here and what lives with the audio host.
pub struct SynthVoice {
    /// Configuration snapshot of each instantiated module, in signal
    /// order; the rebuild decision compares against it.
    pub modules: Vec<ModuleConfig>,
    /// Number of envelope trigger handles recorded at the last build.
    pub triggers: usize,
    /// MIDI key whose frequency the pitch parameter holds.
    pub pitch_key: u8,
    /// Gate parameter: true while a note is held.
    pub gate: bool,
    /// Envelope stage as of the last gate event.
    pub stage: EnvStage,
    pub sample_rate: u32,
}

impl View for SynthVoice {
    type V = VoiceModel;

    open spec fn view(&self) -> VoiceModel {
        VoiceModel {
            built: self.modules@,
            triggers: self.triggers as int,
            pitch_key: self.pitch_key,
            gate: self.gate,
            stage: self.stage,
            sample_rate: self.sample_rate,
        }
    }
}

impl SynthVoice {
    /// A silent voice with no modules built, pitched at concert A.
    pub fn new(sample_rate: u32) -> (v: SynthVoice)
        ensures
            v@.built.len() == 0,
            v@.triggers == 0,
            v@.pitch_key == 69,
            !v@.gate,
            v@.stage is Idle,
            v@.sample_rate == sample_rate,
    {
        SynthVoice {
            modules: Vec::new(),
            triggers: 0,
            pitch_key: 69,
            gate: false,
            stage: EnvStage::Idle,
            sample_rate,
        }
    }

    /// Discards the built modules and instantiates processors for
    /// `instrument`, recording a trigger handle for every envelope.
    pub fn build(&mut self, instrument: &Instrument)
        ensures
            final(self)@ == built_voice(old(self)@, instrument@),
    {
        self.modules = instrument.modules.clone();
        let mut count: usize = 0;
        let mut i: usize = 0;
        proof {
            lemma_trigger_count_bounds(instrument.modules@);
        }
        while i < self.modules.len()
            invariant
                i <= self.modules@.len(),
                self.modules@ == instrument.modules@,
                count == trigger_count(self.modules@.take(i as int)),
                count <= i,
            decreases self.modules@.len() - i,
        {
            let has = match self.modules[i] {
                ModuleConfig::Adsr { .. } => true,
                ModuleConfig::Oscillator { pitch_env_amount, .. } => pitch_env_amount > 0,
                _ => false,
            };
            proof {
                assert(self.modules@.take(i + 1).drop_last() =~= self.modules@.take(i as int));
                assert(self.modules@.take(i + 1).last() == self.modules@[i as int]);
            }
            if has {
                count = count + 1;
            }
            i = i + 1;
        }
        proof {
            assert(self.modules@.take(self.modules@.len() as int) =~= self.modules@);
        }
        self.triggers = count;
        self.stage = if self.gate {
            EnvStage::Attack
        } else {
            EnvStage::Idle
        };
        proof {
            assert(self.modules@ =~= instrument@.modules);
        }
    }

    /// Whether this voice must be rebuilt to play `instrument`.
    pub fn must_rebuild_for(&self, instrument: &Instrument) -> (r: bool)
        ensures
            r == needs_rebuild(self@.built, instrument@.modules),
    {
        if self.modules.len() != instrument.modules.len() {
            return true;
        }
        let mut i: usize = 0;
        while i < self.modules.len()
            invariant
                i <= self.modules@.len(),
                self.modules@.len() == instrument.modules@.len(),
                forall|j: int|
                    0 <= j < i as int ==> !module_forces_rebuild(
                        #[trigger] self.modules@[j],
                        instrument.modules@[j],
                    ),
            decreases self.modules@.len() - i,
        {
            let built = self.modules[i];
            let want = instrument.modules[i];
            let forces = match (built, want) {
                (
                    ModuleConfig::Oscillator { waveform: w1, pitch_env_amount: a1, .. },
                    ModuleConfig::Oscillator { waveform: w2, pitch_env_amount: a2, .. },
                ) => w1 != w2 || ((a1 > 0) != (a2 > 0)),
                (ModuleConfig::Filter { .. }, ModuleConfig::Filter { .. }) => false,
                (ModuleConfig::Adsr { .. }, ModuleConfig::Adsr { .. }) => false,
                (ModuleConfig::Gain { .. }, ModuleConfig::Gain { .. }) => false,
                _ => true,
            };
            if forces {
                return true;
            }
            i = i + 1;
        }
        false
    }

    /// Repoints the pitch at `key` and, with an instrument given, either
    /// rebuilds the modules (exactly when the topology demands it) or
    /// pushes the instrument's scalar parameters into the running
    /// processors. Returns whether a rebuild happened.
    pub fn update_params(&mut self, key: u8, instrument: Option<&Instrument>) -> (rebuilt: bool)
        ensures
            rebuilt == (match instrument {
                Some(inst) => needs_rebuild(old(self)@.built, inst@.modules),
                None => false,
            }),
            final(self)@ == updated_voice(
                old(self)@,
                key,
                match instrument {
                    Some(inst) => Some(inst@),
                    None => None,
                },
            ),
    {
        self.pitch_key = key;
        match instrument {
            Some(inst) => {
                if self.must_rebuild_for(inst) {
                    self.build(inst);
                    true
                } else {
                    false
                }
            },
            None => false,
        }
    }

    /// Opens this voice's gate and fires every recorded envelope trigger
    /// handle, re-arming the envelopes into their attack even if its gate
    /// was already high.
    pub fn trigger(&mut self)
        ensures
            final(self)@ == triggered_voice(old(self)@),
    {
        self.gate = true;
        self.stage = EnvStage::Attack;
    }

    /// Closes this voice's gate; a running envelope falls into its
    /// release stage.
    pub fn release(&mut self)
        ensures
            final(self)@ == released_voice(old(self)@),
    {
        self.gate = false;
        self.stage = match self.stage {
            EnvStage::Idle => EnvStage::Idle,
            _ => EnvStage::Release,
        };
    }

    /// Reconfigures the voice for a new engine sample rate.
    pub fn set_sample_rate(&mut self, sample_rate: u32)
        ensures
            final(self)@ == (VoiceModel { sample_rate, ..old(self)@ }),
    {
        self.sample_rate = sample_rate;
    }

    /// Processing latency of the voice in samples: every module specified
    /// here is push-through.
    pub fn latency_samples(&self) -> (r: u32)
        ensures
            r == 0,
    {
        0
    }
}

} // verus!
