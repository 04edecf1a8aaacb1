//! The musical state shared between the editor and the audio engine, and
//! the editor-side operations on it.

use vstd::prelude::*;

use crate::instrument::{default_modules, Instrument, InstrumentModel, ModuleConfig, WaveformType};
use crate::pattern::{
    empty_grid, grid_wf, normalized_grid, Note, Pattern, NUM_CHANNELS, NUM_INSTRUMENTS,
    ROWS_PER_PATTERN,
};

verus! {

/// Transport mode. Only `Pattern` playback is fully specified; `Song` is
/// declared for saved projects and plays like `Pattern`.
#[derive(Clone, Copy, PartialEq, Eq, Structural, Debug)]
pub enum PlayMode {
    Pattern,
    Song,
}

/// Musical state exchanged between the editor thread and the audio thread.
/// The host wraps it in a mutex; every operation here works on the plain
/// value.
///
/// `bpm` is in whole beats per minute; `samples_per_tick` is the length of
/// one row in samples at the engine's sample rate; `current_tick_samples`
/// counts the samples already spent inside the current tick.
/// `preview_request` is a single-slot mailbox from the editor to the
/// engine: `(channel, key)` with `key > 0` auditions a note, `key == 0`
/// releases it.
pub struct SharedState {
    pub patterns: Vec<Pattern>,
    pub current_pattern: usize,
    pub instruments: Vec<Instrument>,
    pub current_row: usize,
    pub is_playing: bool,
    pub play_mode: PlayMode,
    pub bpm: u32,
    pub samples_per_tick: usize,
    pub current_tick_samples: usize,
    pub preview_request: Option<(usize, u8)>,
}

/// Mathematical image of a [`SharedState`].
pub struct StateModel {
    pub patterns: Seq<Seq<Seq<Note>>>,
    pub current_pattern: usize,
    pub instruments: Seq<InstrumentModel>,
    pub current_row: usize,
    pub is_playing: bool,
    pub play_mode: PlayMode,
    pub bpm: u32,
    pub samples_per_tick: usize,
    pub current_tick_samples: usize,
    pub preview_request: Option<(usize, u8)>,
}

impl View for SharedState {
    type V = StateModel;

    open spec fn view(&self) -> StateModel {
        StateModel {
            patterns: self.patterns@.map_values(|p: Pattern| p@),
            current_pattern: self.current_pattern,
            instruments: self.instruments@.map_values(|i: Instrument| i@),
            current_row: self.current_row,
            is_playing: self.is_playing,
            play_mode: self.play_mode,
            bpm: self.bpm,
            samples_per_tick: self.samples_per_tick,
            current_tick_samples: self.current_tick_samples,
            preview_request: self.preview_request,
        }
    }
}

/// Number of samples in one tick (one row): `sample_rate·60 / (bpm·4)`,
/// truncated — four rows per beat.
pub open spec fn samples_per_tick_at(sample_rate: u32, bpm: u32) -> int {
    (sample_rate * 60) / (bpm * 4)
}

/// `samples_per_tick` recomputed for a tempo change from `bpm_old` to
/// `bpm_new`: the engine sample rate is recovered from the old values and
/// the quotient is taken anew. Both divisions truncate, as the stored
/// integers force.
pub open spec fn retimed(spt: int, bpm_old: int, bpm_new: int) -> int
    recommends
        bpm_new >= 1,
{
    ((spt * bpm_old * 4) / 60) * 60 / (bpm_new * 4)
}

impl SharedState {
    /// Structural invariant: at least one pattern, all patterns of the
    /// fixed shape, a full instrument bank, the playhead and the selected
    /// pattern in range, and a positive tick length.
    pub open spec fn wf(&self) -> bool {
        &&& self@.patterns.len() >= 1
        &&& (self@.current_pattern as int) < self@.patterns.len()
        &&& forall|p: int| 0 <= p < self@.patterns.len() ==> grid_wf(#[trigger] self@.patterns[p])
        &&& self@.instruments.len() == NUM_INSTRUMENTS
        &&& (self@.current_row as int) < ROWS_PER_PATTERN
        &&& self@.samples_per_tick >= 1
        &&& self@.bpm >= 1
    }

    /// A fresh state: one empty pattern, the preset instrument bank,
    /// transport stopped at row zero, and the tick length that `bpm`
    /// yields at `sample_rate`. As the transport protocol asks,
    /// `current_tick_samples` starts at `samples_per_tick`, so the first
    /// playing callback fires a tick at once.
    pub fn new(bpm: u32, sample_rate: u32) -> (s: SharedState)
        requires
            1 <= bpm,
            bpm * 4 <= sample_rate * 60,
            samples_per_tick_at(sample_rate, bpm) <= usize::MAX,
        ensures
            s.wf(),
            s@.patterns =~= seq![empty_grid()],
            s@.current_pattern == 0,
            s@.instruments.len() == NUM_INSTRUMENTS,
            forall|i: int|
                0 <= i < NUM_INSTRUMENTS ==> #[trigger] s@.instruments[i] == preset_instrument_model(
                    i,
                ),
            s@.current_row == 0,
            !s@.is_playing,
            s@.play_mode == PlayMode::Pattern,
            s@.bpm == bpm,
            s@.samples_per_tick == samples_per_tick_at(sample_rate, bpm),
            s@.current_tick_samples == samples_per_tick_at(sample_rate, bpm),
            s@.preview_request is None,
    {
        let spt = samples_per_tick_for(sample_rate, bpm);
        let mut patterns: Vec<Pattern> = Vec::new();
        patterns.push(Pattern::default());
        let mut instruments: Vec<Instrument> = Vec::new();
        let mut i: usize = 0;
        while i < NUM_INSTRUMENTS
            invariant
                i <= NUM_INSTRUMENTS,
                instruments@.len() == i as int,
                forall|j: int|
                    0 <= j < i as int ==> (#[trigger] instruments@[j])@
                        == preset_instrument_model(j),
            decreases NUM_INSTRUMENTS - i,
        {
            instruments.push(preset_instrument(i));
            i = i + 1;
        }
        SharedState {
            patterns,
            current_pattern: 0,
            instruments,
            current_row: 0,
            is_playing: false,
            play_mode: PlayMode::Pattern,
            bpm,
            samples_per_tick: spt,
            current_tick_samples: spt,
            preview_request: None,
        }
    }
}

/// Number of samples in one tick at `sample_rate` for `bpm`, computed
/// exactly.
pub fn samples_per_tick_for(sample_rate: u32, bpm: u32) -> (r: usize)
    requires
        1 <= bpm,
        samples_per_tick_at(sample_rate, bpm) <= usize::MAX,
    ensures
        r == samples_per_tick_at(sample_rate, bpm),
        bpm * 4 <= sample_rate * 60 ==> r >= 1,
{
    let n: u64 = (sample_rate as u64) * 60 / ((bpm as u64) * 4);
    proof {
        if bpm * 4 <= sample_rate * 60 {
            vstd::arithmetic::div_mod::lemma_div_non_zero(
                sample_rate as int * 60,
                bpm as int * 4,
            );
        }
    }
    n as usize
}

/// The name of the instrument preset in bank slot `i` (slots past the
/// factory presets are fresh "Init" instruments).
pub open spec fn preset_name(i: int) -> Seq<char> {
    if i == 0 {
        "Kick"@
    } else if i == 1 {
        "Hihat Cl"@
    } else if i == 2 {
        "Snare"@
    } else if i == 3 {
        "Bass Saw"@
    } else if i == 4 {
        "Lead Sq"@
    } else if i == 5 {
        "Pluck"@
    } else if i == 6 {
        "Pad"@
    } else if i == 7 {
        "Acid"@
    } else {
        "Init"@
    }
}

/// An oscillator module without pitch envelope, as the presets use it.
pub open spec fn plain_osc(w: WaveformType) -> ModuleConfig {
    ModuleConfig::Oscillator {
        waveform: w,
        pitch_offset: 0,
        detune: 0,
        pitch_env_amount: 0,
        pitch_env_decay: 100,
    }
}

/// The module chain of the instrument preset in bank slot `i`.
pub open spec fn preset_modules(i: int) -> Seq<ModuleConfig> {
    if i == 0 {
        seq![
            ModuleConfig::Oscillator {
                waveform: WaveformType::Sine,
                pitch_offset: 0,
                detune: 0,
                pitch_env_amount: 150_000,
                pitch_env_decay: 50,
            },
            ModuleConfig::Filter { cutoff: 2_000_000, resonance: 0 },
            ModuleConfig::Adsr { attack: 1, decay: 200, sustain: 0, release: 100 },
            ModuleConfig::Gain { level: 900 },
        ]
    } else if i == 1 {
        seq![
            plain_osc(WaveformType::Noise),
            ModuleConfig::Filter { cutoff: 10_000_000, resonance: 0 },
            ModuleConfig::Adsr { attack: 1, decay: 50, sustain: 0, release: 50 },
            ModuleConfig::Gain { level: 600 },
        ]
    } else if i == 2 {
        seq![
            plain_osc(WaveformType::Noise),
            ModuleConfig::Filter { cutoff: 3_000_000, resonance: 200 },
            ModuleConfig::Adsr { attack: 1, decay: 150, sustain: 0, release: 100 },
            ModuleConfig::Gain { level: 700 },
        ]
    } else if i == 3 {
        seq![
            plain_osc(WaveformType::Saw),
            ModuleConfig::Filter { cutoff: 400_000, resonance: 400 },
            ModuleConfig::Adsr { attack: 10, decay: 200, sustain: 600, release: 200 },
            ModuleConfig::Gain { level: 600 },
        ]
    } else if i == 4 {
        seq![
            plain_osc(WaveformType::Square),
            ModuleConfig::Filter { cutoff: 3_000_000, resonance: 200 },
            ModuleConfig::Adsr { attack: 20, decay: 100, sustain: 800, release: 300 },
            ModuleConfig::Gain { level: 500 },
        ]
    } else if i == 5 {
        seq![
            plain_osc(WaveformType::Triangle),
            ModuleConfig::Filter { cutoff: 2_000_000, resonance: 0 },
            ModuleConfig::Adsr { attack: 1, decay: 300, sustain: 0, release: 300 },
            ModuleConfig::Gain { level: 600 },
        ]
    } else if i == 6 {
        seq![
            plain_osc(WaveformType::Saw),
            ModuleConfig::Filter { cutoff: 800_000, resonance: 100 },
            ModuleConfig::Adsr { attack: 500, decay: 500, sustain: 700, release: 1_000 },
            ModuleConfig::Gain { level: 400 },
        ]
    } else if i == 7 {
        seq![
            plain_osc(WaveformType::Saw),
            ModuleConfig::Filter { cutoff: 600_000, resonance: 800 },
            ModuleConfig::Adsr { attack: 10, decay: 200, sustain: 200, release: 100 },
            ModuleConfig::Gain { level: 500 },
        ]
    } else {
        default_modules()
    }
}

/// The full model of the instrument preset in bank slot `i`.
pub open spec fn preset_instrument_model(i: int) -> InstrumentModel {
    InstrumentModel { name: preset_name(i), modules: preset_modules(i) }
}

/// Builds the instrument preset for bank slot `slot`: a kick, a closed
/// hi-hat, a snare, a saw bass, a square lead, a pluck, a pad and an acid
/// voice in the first eight slots, fresh instruments after them.
pub fn preset_instrument(slot: usize) -> (r: Instrument)
    ensures
        r@ == preset_instrument_model(slot as int),
{
    if slot == 0 {
        let mut m: Vec<ModuleConfig> = Vec::new();
        m.push(
            ModuleConfig::Oscillator {
                waveform: WaveformType::Sine,
                pitch_offset: 0,
                detune: 0,
                pitch_env_amount: 150_000,
                pitch_env_decay: 50,
            },
        );
        m.push(ModuleConfig::Filter { cutoff: 2_000_000, resonance: 0 });
        m.push(ModuleConfig::Adsr { attack: 1, decay: 200, sustain: 0, release: 100 });
        m.push(ModuleConfig::Gain { level: 900 });
        proof {
            assert(m@ =~= preset_modules(0));
        }
        Instrument { name: "Kick".to_owned(), modules: m }
    } else if slot == 1 {
        let mut m: Vec<ModuleConfig> = Vec::new();
        m.push(plain_osc_config(WaveformType::Noise));
        m.push(ModuleConfig::Filter { cutoff: 10_000_000, resonance: 0 });
        m.push(ModuleConfig::Adsr { attack: 1, decay: 50, sustain: 0, release: 50 });
        m.push(ModuleConfig::Gain { level: 600 });
        proof {
            assert(m@ =~= preset_modules(1));
        }
        Instrument { name: "Hihat Cl".to_owned(), modules: m }
    } else if slot == 2 {
        let mut m: Vec<ModuleConfig> = Vec::new();
        m.push(plain_osc_config(WaveformType::Noise));
        m.push(ModuleConfig::Filter { cutoff: 3_000_000, resonance: 200 });
        m.push(ModuleConfig::Adsr { attack: 1, decay: 150, sustain: 0, release: 100 });
        m.push(ModuleConfig::Gain { level: 700 });
        proof {
            assert(m@ =~= preset_modules(2));
        }
        Instrument { name: "Snare".to_owned(), modules: m }
    } else if slot == 3 {
        let mut m: Vec<ModuleConfig> = Vec::new();
        m.push(plain_osc_config(WaveformType::Saw));
        m.push(ModuleConfig::Filter { cutoff: 400_000, resonance: 400 });
        m.push(ModuleConfig::Adsr { attack: 10, decay: 200, sustain: 600, release: 200 });
        m.push(ModuleConfig::Gain { level: 600 });
        proof {
            assert(m@ =~= preset_modules(3));
        }
        Instrument { name: "Bass Saw".to_owned(), modules: m }
    } else if slot == 4 {
        let mut m: Vec<ModuleConfig> = Vec::new();
        m.push(plain_osc_config(WaveformType::Square));
        m.push(ModuleConfig::Filter { cutoff: 3_000_000, resonance: 200 });
        m.push(ModuleConfig::Adsr { attack: 20, decay: 100, sustain: 800, release: 300 });
        m.push(ModuleConfig::Gain { level: 500 });
        proof {
            assert(m@ =~= preset_modules(4));
        }
        Instrument { name: "Lead Sq".to_owned(), modules: m }
    } else if slot == 5 {
        let mut m: Vec<ModuleConfig> = Vec::new();
        m.push(plain_osc_config(WaveformType::Triangle));
        m.push(ModuleConfig::Filter { cutoff: 2_000_000, resonance: 0 });
        m.push(ModuleConfig::Adsr { attack: 1, decay: 300, sustain: 0, release: 300 });
        m.push(ModuleConfig::Gain { level: 600 });
        proof {
            assert(m@ =~= preset_modules(5));
        }
        Instrument { name: "Pluck".to_owned(), modules: m }
    } else if slot == 6 {
        let mut m: Vec<ModuleConfig> = Vec::new();
        m.push(plain_osc_config(WaveformType::Saw));
        m.push(ModuleConfig::Filter { cutoff: 800_000, resonance: 100 });
        m.push(ModuleConfig::Adsr { attack: 500, decay: 500, sustain: 700, release: 1_000 });
        m.push(ModuleConfig::Gain { level: 400 });
        proof {
            assert(m@ =~= preset_modules(6));
        }
        Instrument { name: "Pad".to_owned(), modules: m }
    } else if slot == 7 {
        let mut m: Vec<ModuleConfig> = Vec::new();
        m.push(plain_osc_config(WaveformType::Saw));
        m.push(ModuleConfig::Filter { cutoff: 600_000, resonance: 800 });
        m.push(ModuleConfig::Adsr { attack: 10, decay: 200, sustain: 200, release: 100 });
        m.push(ModuleConfig::Gain { level: 500 });
        proof {
            assert(m@ =~= preset_modules(7));
        }
        Instrument { name: "Acid".to_owned(), modules: m }
    } else {
        Instrument::default()
    }
}

/// An oscillator module without pitch envelope, built exactly as
/// [`plain_osc`] states it.
fn plain_osc_config(w: WaveformType) -> (r: ModuleConfig)
    ensures
        r == plain_osc(w),
{
    ModuleConfig::Oscillator {
        waveform: w,
        pitch_offset: 0,
        detune: 0,
        pitch_env_amount: 0,
        pitch_env_decay: 100,
    }
}

/// [`retimed`] kept inside `[1, usize::MAX]`, so that the stored tick
/// length never reaches zero (which would stall the scheduler) and always
/// fits its field.
pub open spec fn retimed_clamped(spt: int, bpm_old: int, bpm_new: int) -> int {
    let r = retimed(spt, bpm_old, bpm_new);
    if r < 1 {
        1
    } else if r > usize::MAX {
        usize::MAX as int
    } else {
        r
    }
}

/// Recomputes the tick length for a tempo change, exactly as
/// [`retimed_clamped`] states it.
fn retime(spt: usize, bpm_old: u32, bpm_new: u32) -> (r: usize)
    requires
        1 <= bpm_new,
    ensures
        r == retimed_clamped(spt as int, bpm_old as int, bpm_new as int),
{
    proof {
        vstd::arithmetic::mul::lemma_mul_upper_bound(
            spt as int,
            usize::MAX as int,
            bpm_old as int,
            u32::MAX as int,
        );
    }
    let prod: u128 = (spt as u128) * (bpm_old as u128) * 4;
    let sr60: u128 = prod / 60 * 60;
    proof {
        assert(prod / 60 * 60 <= prod) by {
            vstd::arithmetic::div_mod::lemma_fundamental_div_mod(prod as int, 60);
        }
    }
    let n: u128 = sr60 / ((bpm_new as u128) * 4);
    if n < 1 {
        1
    } else if n > usize::MAX as u128 {
        usize::MAX
    } else {
        n as usize
    }
}

/// A project as loaded from disk: tempo, either a single pattern or a
/// list of them, and up to a bank of instruments. The host fills this
/// from the saved file; the state decides here, checked, what to keep.
pub struct Project {
    pub bpm: u32,
    pub pattern: Option<Pattern>,
    pub patterns: Vec<Pattern>,
    pub instruments: Vec<Instrument>,
}

/// Mathematical image of a [`Project`].
pub struct ProjectModel {
    pub bpm: u32,
    pub pattern: Option<Seq<Seq<Note>>>,
    pub patterns: Seq<Seq<Seq<Note>>>,
    pub instruments: Seq<InstrumentModel>,
}

impl View for Project {
    type V = ProjectModel;

    open spec fn view(&self) -> ProjectModel {
        ProjectModel {
            bpm: self.bpm,
            pattern: match self.pattern {
                Some(p) => Some(p@),
                None => None,
            },
            patterns: self.patterns@.map_values(|p: Pattern| p@),
            instruments: self.instruments@.map_values(|i: Instrument| i@),
        }
    }
}

/// The pattern list a loaded project yields: its pattern list if it has
/// one, else its single pattern, else one empty pattern — each mended to
/// the fixed shape.
pub open spec fn loaded_grids(p: ProjectModel) -> Seq<Seq<Seq<Note>>> {
    if p.patterns.len() > 0 {
        p.patterns.map_values(|g: Seq<Seq<Note>>| normalized_grid(g))
    } else if p.pattern is Some {
        seq![normalized_grid(p.pattern->0)]
    } else {
        seq![empty_grid()]
    }
}

/// The instrument bank a loaded project yields: its instruments, cut or
/// padded with fresh instruments to the bank size.
pub open spec fn loaded_instruments(p: ProjectModel) -> Seq<InstrumentModel> {
    Seq::new(
        NUM_INSTRUMENTS as nat,
        |i: int|
            if i < p.instruments.len() {
                p.instruments[i]
            } else {
                InstrumentModel { name: "Init"@, modules: default_modules() }
            },
    )
}

impl SharedState {
    /// Replaces the musical content with a loaded project: tempo (held at
    /// one beat per minute at least), patterns and instruments as
    /// [`loaded_grids`] and [`loaded_instruments`] state, the first
    /// pattern selected, and the tick length recomputed for the new tempo
    /// at the engine rate the old values imply. Transport fields are left
    /// alone.
    pub fn load_project(&mut self, project: Project)
        requires
            old(self).wf(),
        ensures
            final(self).wf(),
            final(self)@ == (StateModel {
                bpm: if project@.bpm < 1 {
                    1u32
                } else {
                    project@.bpm
                },
                patterns: loaded_grids(project@),
                current_pattern: 0,
                instruments: loaded_instruments(project@),
                samples_per_tick: retimed_clamped(
                    old(self)@.samples_per_tick as int,
                    old(self)@.bpm as int,
                    if project@.bpm < 1 {
                        1int
                    } else {
                        project@.bpm as int
                    },
                ) as usize,
                ..old(self)@
            }),
    {
        let bpm_old = self.bpm;
        let bpm_new: u32 = if project.bpm < 1 {
            1
        } else {
            project.bpm
        };
        self.bpm = bpm_new;

        if project.patterns.len() > 0 {
            let mut ps: Vec<Pattern> = Vec::new();
            let mut i: usize = 0;
            while i < project.patterns.len()
                invariant
                    i <= project.patterns@.len(),
                    ps@.len() == i as int,
                    forall|j: int|
                        0 <= j < i as int ==> (#[trigger] ps@[j])@ == normalized_grid(
                            project.patterns@[j]@,
                        ),
                decreases project.patterns@.len() - i,
            {
                ps.push(project.patterns[i].normalized());
                i = i + 1;
            }
            self.patterns = ps;
            proof {
                assert(self@.patterns =~= loaded_grids(project@));
            }
        } else {
            let mut ps: Vec<Pattern> = Vec::new();
            match &project.pattern {
                Some(p) => ps.push(p.normalized()),
                None => ps.push(Pattern::default()),
            }
            self.patterns = ps;
            proof {
                assert(self@.patterns =~= loaded_grids(project@));
            }
        }
        self.current_pattern = 0;

        let mut insts: Vec<Instrument> = Vec::new();
        let mut i: usize = 0;
        while i < NUM_INSTRUMENTS
            invariant
                i <= NUM_INSTRUMENTS,
                insts@.len() == i as int,
                forall|j: int|
                    0 <= j < i as int ==> (#[trigger] insts@[j])@ == loaded_instruments(
                        project@,
                    )[j],
            decreases NUM_INSTRUMENTS - i,
        {
            if i < project.instruments.len() {
                insts.push(project.instruments[i].clone());
            } else {
                insts.push(Instrument::default());
            }
            i = i + 1;
        }
        self.instruments = insts;
        proof {
            assert(self@.instruments =~= loaded_instruments(project@));
        }

        self.samples_per_tick = retime(self.samples_per_tick, bpm_old, bpm_new);
    }

    /// Writes `key` into the current pattern at `(row, channel)` and asks
    /// the engine to audition it (`key == 0` auditions a release).
    pub fn set_note(&mut self, row: usize, channel: usize, key: u8)
        requires
            old(self).wf(),
            row < ROWS_PER_PATTERN,
            channel < NUM_CHANNELS,
            key < 128,
        ensures
            final(self).wf(),
            final(self)@ == (StateModel {
                patterns: old(self)@.patterns.update(
                    old(self)@.current_pattern as int,
                    old(self)@.patterns[old(self)@.current_pattern as int].update(
                        row as int,
                        old(self)@.patterns[old(self)@.current_pattern as int][row as int].update(
                            channel as int,
                            Note { key },
                        ),
                    ),
                ),
                preview_request: Some((channel, key)),
                ..old(self)@
            }),
    {
        let cp = self.current_pattern;
        let pat: &mut Pattern = &mut self.patterns[cp];
        let prow: &mut Vec<Note> = &mut pat.rows[row];
        prow.set(channel, Note { key });
        self.preview_request = Some((channel, key));
        proof {
            assert(self@.patterns =~~= old(self)@.patterns.update(
                old(self)@.current_pattern as int,
                old(self)@.patterns[old(self)@.current_pattern as int].update(
                    row as int,
                    old(self)@.patterns[old(self)@.current_pattern as int][row as int].update(
                        channel as int,
                        Note { key },
                    ),
                ),
            ));
        }
    }

    /// Clears the note at `(row, channel)` of the current pattern and asks
    /// the engine to release the channel.
    pub fn clear_note(&mut self, row: usize, channel: usize)
        requires
            old(self).wf(),
            row < ROWS_PER_PATTERN,
            channel < NUM_CHANNELS,
        ensures
            final(self).wf(),
            final(self)@ == (StateModel {
                patterns: old(self)@.patterns.update(
                    old(self)@.current_pattern as int,
                    old(self)@.patterns[old(self)@.current_pattern as int].update(
                        row as int,
                        old(self)@.patterns[old(self)@.current_pattern as int][row as int].update(
                            channel as int,
                            Note { key: 0 },
                        ),
                    ),
                ),
                preview_request: Some((channel, 0u8)),
                ..old(self)@
            }),
    {
        self.set_note(row, channel, 0);
    }

    /// Starts the transport at `start_row` if it is stopped — with
    /// `current_tick_samples` primed to a full tick, so the first playing
    /// callback fires the row at once — and stops it if it is playing.
    pub fn toggle_transport(&mut self, start_row: usize)
        requires
            old(self).wf(),
            start_row < ROWS_PER_PATTERN,
        ensures
            final(self).wf(),
            old(self)@.is_playing ==> final(self)@ == (StateModel {
                is_playing: false,
                ..old(self)@
            }),
            !old(self)@.is_playing ==> final(self)@ == (StateModel {
                is_playing: true,
                current_row: start_row,
                current_tick_samples: old(self)@.samples_per_tick,
                ..old(self)@
            }),
    {
        if !self.is_playing {
            self.current_row = start_row;
            self.current_tick_samples = self.samples_per_tick;
            self.is_playing = true;
        } else {
            self.is_playing = false;
        }
    }

    /// Moves the tempo one editor step (5 beats per minute) up or down,
    /// inside the editor's limits, and recomputes the tick length for the
    /// engine rate the old values imply. Outside the limits nothing
    /// changes.
    pub fn step_bpm(&mut self, up: bool)
        requires
            old(self).wf(),
            1 <= old(self)@.bpm,
        ensures
            final(self).wf(),
            up && old(self)@.bpm < 300 ==> final(self)@ == (StateModel {
                bpm: (old(self)@.bpm + 5) as u32,
                samples_per_tick: retimed_clamped(
                    old(self)@.samples_per_tick as int,
                    old(self)@.bpm as int,
                    old(self)@.bpm + 5,
                ) as usize,
                ..old(self)@
            }),
            !up && old(self)@.bpm > 10 ==> final(self)@ == (StateModel {
                bpm: (old(self)@.bpm - 5) as u32,
                samples_per_tick: retimed_clamped(
                    old(self)@.samples_per_tick as int,
                    old(self)@.bpm as int,
                    old(self)@.bpm - 5,
                ) as usize,
                ..old(self)@
            }),
            !(up && old(self)@.bpm < 300) && !(!up && old(self)@.bpm > 10) ==> final(self)@ == old(
                self,
            )@,
    {
        if up {
            if self.bpm < 300 {
                let bpm_old = self.bpm;
                self.bpm = self.bpm + 5;
                self.samples_per_tick = retime(self.samples_per_tick, bpm_old, self.bpm);
            }
        } else {
            if self.bpm > 10 {
                let bpm_old = self.bpm;
                self.bpm = self.bpm - 5;
                self.samples_per_tick = retime(self.samples_per_tick, bpm_old, self.bpm);
            }
        }
    }

    /// Selects the previous pattern, if there is one.
    pub fn select_prev_pattern(&mut self)
        requires
            old(self).wf(),
        ensures
            final(self).wf(),
            old(self)@.current_pattern > 0 ==> final(self)@ == (StateModel {
                current_pattern: (old(self)@.current_pattern - 1) as usize,
                ..old(self)@
            }),
            old(self)@.current_pattern == 0 ==> final(self)@ == old(self)@,
    {
        if self.current_pattern > 0 {
            self.current_pattern = self.current_pattern - 1;
        }
    }

    /// Selects the next pattern, appending a fresh empty pattern when the
    /// selection walks past the last one. The selection index is capped at
    /// 255 patterns.
    pub fn select_next_pattern(&mut self)
        requires
            old(self).wf(),
        ensures
            final(self).wf(),
            old(self)@.current_pattern >= 255 ==> final(self)@ == old(self)@,
            old(self)@.current_pattern < 255 && old(self)@.current_pattern + 1 < old(
                self,
            )@.patterns.len() ==> final(self)@ == (StateModel {
                current_pattern: (old(self)@.current_pattern + 1) as usize,
                ..old(self)@
            }),
            old(self)@.current_pattern < 255 && old(self)@.current_pattern + 1 >= old(
                self,
            )@.patterns.len() ==> final(self)@ == (StateModel {
                current_pattern: (old(self)@.current_pattern + 1) as usize,
                patterns: old(self)@.patterns.push(empty_grid()),
                ..old(self)@
            }),
    {
        if self.current_pattern < 255 {
            self.current_pattern = self.current_pattern + 1;
            if self.current_pattern >= self.patterns.len() {
                self.patterns.push(Pattern::default());
                proof {
                    assert(self@.patterns =~= old(self)@.patterns.push(empty_grid()));
                }
            }
        }
    }

    /// Duplicates the current pattern right after itself and selects the
    /// copy.
    pub fn clone_current_pattern(&mut self)
        requires
            old(self).wf(),
            old(self)@.patterns.len() < usize::MAX,
        ensures
            final(self).wf(),
            final(self)@ == (StateModel {
                patterns: old(self)@.patterns.insert(
                    old(self)@.current_pattern + 1,
                    old(self)@.patterns[old(self)@.current_pattern as int],
                ),
                current_pattern: (old(self)@.current_pattern + 1) as usize,
                ..old(self)@
            }),
    {
        let cp = self.current_pattern;
        let copy = self.patterns[cp].clone();
        self.patterns.insert(cp + 1, copy);
        self.current_pattern = cp + 1;
        proof {
            assert(self@.patterns =~= old(self)@.patterns.insert(
                old(self)@.current_pattern + 1,
                old(self)@.patterns[old(self)@.current_pattern as int],
            ));
        }
    }

    /// Removes the current pattern, keeping the selection in range; the
    /// last remaining pattern is never removed.
    pub fn delete_current_pattern(&mut self)
        requires
            old(self).wf(),
        ensures
            final(self).wf(),
            old(self)@.patterns.len() <= 1 ==> final(self)@ == old(self)@,
            old(self)@.patterns.len() > 1 ==> final(self)@ == (StateModel {
                patterns: old(self)@.patterns.remove(old(self)@.current_pattern as int),
                current_pattern: if old(self)@.current_pattern + 1 == old(self)@.patterns.len() {
                    (old(self)@.current_pattern - 1) as usize
                } else {
                    old(self)@.current_pattern
                },
                ..old(self)@
            }),
    {
        if self.patterns.len() > 1 {
            let cp = self.current_pattern;
            self.patterns.remove(cp);
            if self.current_pattern >= self.patterns.len() {
                self.current_pattern = self.patterns.len() - 1;
            }
            proof {
                assert(self@.patterns =~= old(self)@.patterns.remove(
                    old(self)@.current_pattern as int,
                ));
            }
        }
    }

    /// Flips the transport between pattern and song mode.
    pub fn toggle_play_mode(&mut self)
        requires
            old(self).wf(),
        ensures
            final(self).wf(),
            final(self)@ == (StateModel {
                play_mode: if old(self)@.play_mode is Pattern {
                    PlayMode::Song
                } else {
                    PlayMode::Pattern
                },
                ..old(self)@
            }),
    {
        self.play_mode = match self.play_mode {
            PlayMode::Pattern => PlayMode::Song,
            PlayMode::Song => PlayMode::Pattern,
        };
    }
}

impl Clone for SharedState {
    fn clone(&self) -> (r: SharedState)
        ensures
            r@ == self@,
    {
        let r = SharedState {
            patterns: self.patterns.clone(),
            current_pattern: self.current_pattern,
            instruments: self.instruments.clone(),
            current_row: self.current_row,
            is_playing: self.is_playing,
            play_mode: self.play_mode,
            bpm: self.bpm,
            samples_per_tick: self.samples_per_tick,
            current_tick_samples: self.current_tick_samples,
            preview_request: self.preview_request,
        };
        proof {
            assert(r@.patterns =~= self@.patterns);
            assert(r@.instruments =~= self@.instruments);
        }
        r
    }
}

} // verus!

