//! Instrument definitions: module configurations and their editing rules.
//!
//! Every scalar module parameter is stored in thousandths of its natural
//! unit (seconds, hertz, or a unitless level), so `1_000` stands for one
//! second, one hertz, or a level of `1.0`. All editing steps and limits of
//! the parameter editor are exact multiples of a thousandth, so this
//! representation loses nothing; the audio host divides by `1000` when it
//! hands a value to a signal processor.

use vstd::prelude::*;

verus! {

/// Waveform shape of an oscillator module.
#[derive(Clone, Copy, PartialEq, Eq, Structural, Debug)]
pub enum WaveformType {
    Sine,
    Square,
    Saw,
    Triangle,
    Noise,
}

/// Configuration of one module in an instrument's signal chain.
///
/// Scalar fields are in thousandths (see the module documentation):
/// times in thousandths of a second, `cutoff` and `pitch_env_amount` in
/// thousandths of a hertz, `sustain`, `level` and `resonance` in
/// thousandths of full scale. `pitch_offset` and `detune` are declared for
/// compatibility but not consumed by the voice builder.
#[derive(Clone, Copy, PartialEq, Eq, Structural, Debug)]
pub enum ModuleConfig {
    Oscillator {
        waveform: WaveformType,
        pitch_offset: i32,
        detune: i32,
        pitch_env_amount: i32,
        pitch_env_decay: i32,
    },
    Filter { cutoff: i32, resonance: i32 },
    Adsr { attack: i32, decay: i32, sustain: i32, release: i32 },
    Gain { level: i32 },
}

/// A named ordered chain of module configurations. The module order is the
/// signal order: each module processes the running buffer in place.
pub struct Instrument {
    pub name: String,
    pub modules: Vec<ModuleConfig>,
}

/// Mathematical image of an [`Instrument`].
pub struct InstrumentModel {
    pub name: Seq<char>,
    pub modules: Seq<ModuleConfig>,
}

impl View for Instrument {
    type V = InstrumentModel;

    open spec fn view(&self) -> InstrumentModel {
        InstrumentModel { name: self.name@, modules: self.modules@ }
    }
}

/// Number of editable parameters a module exposes in the instrument editor.
pub open spec fn param_count(m: ModuleConfig) -> int {
    match m {
        ModuleConfig::Oscillator { .. } => 3,
        ModuleConfig::Filter { .. } => 2,
        ModuleConfig::Adsr { .. } => 4,
        ModuleConfig::Gain { .. } => 1,
    }
}

/// Number of editable parameters exposed by the first `m` modules.
pub open spec fn params_before(mods: Seq<ModuleConfig>, m: int) -> int
    decreases m,
{
    if m <= 0 {
        0
    } else {
        params_before(mods, m - 1) + param_count(mods[m - 1])
    }
}

/// Total number of editable parameters of a module chain.
pub open spec fn params_total(mods: Seq<ModuleConfig>) -> int {
    params_before(mods, mods.len() as int)
}

pub proof fn lemma_params_before_monotonic(mods: Seq<ModuleConfig>, a: int, b: int)
    requires
        0 <= a <= b,
    ensures
        params_before(mods, a) <= params_before(mods, b),
    decreases b - a,
{
    if a < b {
        lemma_params_before_monotonic(mods, a, b - 1);
    }
}

/// Counts the parameters that the instrument editor can address on `inst`,
/// in module order.
pub fn count_params(inst: &Instrument) -> (n: usize)
    requires
        4 * inst@.modules.len() <= usize::MAX,
    ensures
        n == params_total(inst@.modules),
{
    let mut n: usize = 0;
    let mut i: usize = 0;
    while i < inst.modules.len()
        invariant
            i <= inst.modules@.len(),
            4 * inst.modules@.len() <= usize::MAX,
            n == params_before(inst.modules@, i as int),
            n <= 4 * i,
        decreases inst.modules@.len() - i,
    {
        let c: usize = match inst.modules[i] {
            ModuleConfig::Oscillator { .. } => 3,
            ModuleConfig::Filter { .. } => 2,
            ModuleConfig::Adsr { .. } => 4,
            ModuleConfig::Gain { .. } => 1,
        };
        n = n + c;
        i = i + 1;
    }
    n
}

/// The waveform after one step forward in the editor's cycle.
pub open spec fn next_waveform(w: WaveformType) -> WaveformType {
    match w {
        WaveformType::Sine => WaveformType::Square,
        WaveformType::Square => WaveformType::Saw,
        WaveformType::Saw => WaveformType::Triangle,
        WaveformType::Triangle => WaveformType::Noise,
        WaveformType::Noise => WaveformType::Sine,
    }
}

/// The waveform after one step backward in the editor's cycle.
pub open spec fn prev_waveform(w: WaveformType) -> WaveformType {
    match w {
        WaveformType::Sine => WaveformType::Noise,
        WaveformType::Square => WaveformType::Sine,
        WaveformType::Saw => WaveformType::Square,
        WaveformType::Triangle => WaveformType::Saw,
        WaveformType::Noise => WaveformType::Triangle,
    }
}

/// A scalar parameter moved by `delta` and kept inside `[lo, hi]`.
pub open spec fn adjusted(v: i32, delta: int, lo: int, hi: int) -> i32 {
    let n = v + delta;
    if n < lo {
        lo as i32
    } else if n > hi {
        hi as i32
    } else {
        n as i32
    }
}

/// One module with its editable parameter `slot` moved one editor step up
/// or down. Steps and limits are the editor's rules, in thousandths.
pub open spec fn module_with_param_changed(m: ModuleConfig, slot: int, up: bool) -> ModuleConfig {
    let d: int = if up { 1 } else { -1 };
    match m {
        ModuleConfig::Oscillator {
            waveform,
            pitch_offset,
            detune,
            pitch_env_amount,
            pitch_env_decay,
        } => {
            if slot == 0 {
                ModuleConfig::Oscillator {
                    waveform: if up { next_waveform(waveform) } else { prev_waveform(waveform) },
                    pitch_offset,
                    detune,
                    pitch_env_amount,
                    pitch_env_decay,
                }
            } else if slot == 1 {
                ModuleConfig::Oscillator {
                    waveform,
                    pitch_offset,
                    detune,
                    pitch_env_amount: adjusted(pitch_env_amount, d * 10_000, 0, i32::MAX as int),
                    pitch_env_decay,
                }
            } else {
                ModuleConfig::Oscillator {
                    waveform,
                    pitch_offset,
                    detune,
                    pitch_env_amount,
                    pitch_env_decay: adjusted(pitch_env_decay, d * 10, 1, i32::MAX as int),
                }
            }
        },
        ModuleConfig::Filter { cutoff, resonance } => {
            if slot == 0 {
                ModuleConfig::Filter {
                    cutoff: adjusted(cutoff, d * 100_000, 20_000, 20_000_000),
                    resonance,
                }
            } else {
                ModuleConfig::Filter { cutoff, resonance: adjusted(resonance, d * 50, 0, 950) }
            }
        },
        ModuleConfig::Adsr { attack, decay, sustain, release } => {
            if slot == 0 {
                ModuleConfig::Adsr {
                    attack: adjusted(attack, d * 10, 1, i32::MAX as int),
                    decay,
                    sustain,
                    release,
                }
            } else if slot == 1 {
                ModuleConfig::Adsr {
                    attack,
                    decay: adjusted(decay, d * 50, 1, i32::MAX as int),
                    sustain,
                    release,
                }
            } else if slot == 2 {
                ModuleConfig::Adsr {
                    attack,
                    decay,
                    sustain: adjusted(sustain, d * 50, 0, 1_000),
                    release,
                }
            } else {
                ModuleConfig::Adsr {
                    attack,
                    decay,
                    sustain,
                    release: adjusted(release, d * 50, 1, i32::MAX as int),
                }
            }
        },
        ModuleConfig::Gain { level } => {
            ModuleConfig::Gain { level: adjusted(level, d * 50, 0, 1_000) }
        },
    }
}

/// Whether editor parameter index `idx` lands on module `m` of the chain.
pub open spec fn param_index_hits(mods: Seq<ModuleConfig>, m: int, idx: int) -> bool {
    params_before(mods, m) <= idx < params_before(mods, m) + param_count(mods[m])
}

/// Module `m` of the chain after the editor moved parameter `idx` one step;
/// modules that `idx` does not land on are unchanged.
pub open spec fn module_after_change(
    mods: Seq<ModuleConfig>,
    m: int,
    idx: int,
    up: bool,
) -> ModuleConfig {
    if param_index_hits(mods, m, idx) {
        module_with_param_changed(mods[m], idx - params_before(mods, m), up)
    } else {
        mods[m]
    }
}

/// A scalar parameter moved by `delta` (an editor step) and clamped to
/// `[lo, hi]`, computed exactly.
fn adjust(v: i32, delta: i32, lo: i32, hi: i32) -> (r: i32)
    requires
        i32::MIN <= lo <= hi <= i32::MAX,
    ensures
        r == adjusted(v, delta as int, lo as int, hi as int),
{
    let n: i64 = v as i64 + delta as i64;
    if n < lo as i64 {
        lo
    } else if n > hi as i64 {
        hi
    } else {
        n as i32
    }
}

impl Instrument {
    /// Moves the editable parameter with flat index `param_idx` one editor
    /// step up or down, leaving every other parameter as it was. An index
    /// past the last parameter changes nothing.
    pub fn change_module_param(&mut self, param_idx: usize, up: bool)
        ensures
            final(self)@.name == old(self)@.name,
            final(self)@.modules.len() == old(self)@.modules.len(),
            forall|m: int|
                0 <= m < final(self)@.modules.len() ==> final(self)@.modules[m]
                    == module_after_change(
                    old(self)@.modules,
                    m,
                    param_idx as int,
                    up,
                ),
    {
        let ghost mods0 = self.modules@;
        let mut i: usize = 0;
        let mut seen: usize = 0;
        while i < self.modules.len()
            invariant
                i <= self.modules@.len(),
                self@.name == old(self)@.name,
                self.modules@.len() == mods0.len(),
                mods0 == old(self)@.modules,
                seen == params_before(mods0, i as int),
                seen <= param_idx,
                forall|m: int| i <= m < mods0.len() ==> self.modules@[m] == mods0[m],
                forall|m: int|
                    0 <= m < i ==> self.modules@[m] == module_after_change(
                        mods0,
                        m,
                        param_idx as int,
                        up,
                    ),
            decreases self.modules@.len() - i,
        {
            let cur = self.modules[i];
            let c: usize = match cur {
                ModuleConfig::Oscillator { .. } => 3,
                ModuleConfig::Filter { .. } => 2,
                ModuleConfig::Adsr { .. } => 4,
                ModuleConfig::Gain { .. } => 1,
            };
            if param_idx - seen < c {
                let slot = param_idx - seen;
                let changed = match cur {
                    ModuleConfig::Oscillator {
                        waveform,
                        pitch_offset,
                        detune,
                        pitch_env_amount,
                        pitch_env_decay,
                    } => {
                        if slot == 0 {
                            let w = if up {
                                match waveform {
                                    WaveformType::Sine => WaveformType::Square,
                                    WaveformType::Square => WaveformType::Saw,
                                    WaveformType::Saw => WaveformType::Triangle,
                                    WaveformType::Triangle => WaveformType::Noise,
                                    WaveformType::Noise => WaveformType::Sine,
                                }
                            } else {
                                match waveform {
                                    WaveformType::Sine => WaveformType::Noise,
                                    WaveformType::Square => WaveformType::Sine,
                                    WaveformType::Saw => WaveformType::Square,
                                    WaveformType::Triangle => WaveformType::Saw,
                                    WaveformType::Noise => WaveformType::Triangle,
                                }
                            };
                            ModuleConfig::Oscillator {
                                waveform: w,
                                pitch_offset,
                                detune,
                                pitch_env_amount,
                                pitch_env_decay,
                            }
                        } else if slot == 1 {
                            ModuleConfig::Oscillator {
                                waveform,
                                pitch_offset,
                                detune,
                                pitch_env_amount: adjust(
                                    pitch_env_amount,
                                    if up { 10_000 } else { -10_000 },
                                    0,
                                    i32::MAX,
                                ),
                                pitch_env_decay,
                            }
                        } else {
                            ModuleConfig::Oscillator {
                                waveform,
                                pitch_offset,
                                detune,
                                pitch_env_amount,
                                pitch_env_decay: adjust(
                                    pitch_env_decay,
                                    if up { 10 } else { -10 },
                                    1,
                                    i32::MAX,
                                ),
                            }
                        }
                    },
                    ModuleConfig::Filter { cutoff, resonance } => {
                        if slot == 0 {
                            ModuleConfig::Filter {
                                cutoff: adjust(
                                    cutoff,
                                    if up { 100_000 } else { -100_000 },
                                    20_000,
                                    20_000_000,
                                ),
                                resonance,
                            }
                        } else {
                            ModuleConfig::Filter {
                                cutoff,
                                resonance: adjust(resonance, if up { 50 } else { -50 }, 0, 950),
                            }
                        }
                    },
                    ModuleConfig::Adsr { attack, decay, sustain, release } => {
                        if slot == 0 {
                            ModuleConfig::Adsr {
                                attack: adjust(attack, if up { 10 } else { -10 }, 1, i32::MAX),
                                decay,
                                sustain,
                                release,
                            }
                        } else if slot == 1 {
                            ModuleConfig::Adsr {
                                attack,
                                decay: adjust(decay, if up { 50 } else { -50 }, 1, i32::MAX),
                                sustain,
                                release,
                            }
                        } else if slot == 2 {
                            ModuleConfig::Adsr {
                                attack,
                                decay,
                                sustain: adjust(sustain, if up { 50 } else { -50 }, 0, 1_000),
                                release,
                            }
                        } else {
                            ModuleConfig::Adsr {
                                attack,
                                decay,
                                sustain,
                                release: adjust(release, if up { 50 } else { -50 }, 1, i32::MAX),
                            }
                        }
                    },
                    ModuleConfig::Gain { level } => {
                        ModuleConfig::Gain {
                            level: adjust(level, if up { 50 } else { -50 }, 0, 1_000),
                        }
                    },
                };
                self.modules.set(i, changed);
                proof {
                    assert(param_index_hits(mods0, i as int, param_idx as int));
                    assert forall|m: int| i < m < mods0.len() implies !param_index_hits(
                        mods0,
                        m,
                        param_idx as int,
                    ) by {
                        lemma_params_before_monotonic(mods0, i as int + 1, m);
                    }
                }
                return ;
            }
            seen = seen + c;
            i = i + 1;
        }
        proof {
            assert forall|m: int| 0 <= m < mods0.len() implies !param_index_hits(
                mods0,
                m,
                param_idx as int,
            ) by {
                lemma_params_before_monotonic(mods0, m + 1, mods0.len() as int);
            }
        }
    }
}

impl Clone for Instrument {
    fn clone(&self) -> (r: Instrument)
        ensures
            r@ == self@,
    {
        let r = Instrument { name: self.name.clone(), modules: self.modules.clone() };
        proof {
            assert(r.modules@ =~= self.modules@);
        }
        r
    }
}

/// The module chain of a freshly initialised instrument: a sine oscillator
/// without pitch envelope, a gentle envelope, and a half-level gain.
pub open spec fn default_modules() -> Seq<ModuleConfig> {
    seq![
        ModuleConfig::Oscillator {
            waveform: WaveformType::Sine,
            pitch_offset: 0,
            detune: 0,
            pitch_env_amount: 0,
            pitch_env_decay: 100,
        },
        ModuleConfig::Adsr { attack: 10, decay: 100, sustain: 800, release: 200 },
        ModuleConfig::Gain { level: 500 },
    ]
}

impl Default for Instrument {
    /// A freshly initialised instrument, named "Init".
    fn default() -> (r: Instrument)
        ensures
            r@.name == "Init"@,
            r@.modules == default_modules(),
    {
        let mut modules: Vec<ModuleConfig> = Vec::new();
        modules.push(
            ModuleConfig::Oscillator {
                waveform: WaveformType::Sine,
                pitch_offset: 0,
                detune: 0,
                pitch_env_amount: 0,
                pitch_env_decay: 100,
            },
        );
        modules.push(ModuleConfig::Adsr { attack: 10, decay: 100, sustain: 800, release: 200 });
        modules.push(ModuleConfig::Gain { level: 500 });
        proof {
            assert(modules@ =~= default_modules());
        }
        Instrument { name: "Init".to_owned(), modules }
    }
}

} // verus!
