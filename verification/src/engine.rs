//! The tracker engine: per-callback scheduling, note lifecycle and
//! preview servicing.
//!
//! On every audio callback the host locks the shared state and calls
//! [`TrackerEngine::process`] with the frame count of its buffer. The
//! engine services the preview mailbox, advances the tick clock, detects
//! the transport's stop edge, fires the due rows, and hands back the
//! resulting commands in execution order. The host applies each command
//! to the real per-channel signal processors and then mixes and clips
//! their audio — the one part of the callback that lives outside this
//! crate.

use vstd::prelude::*;

use crate::channel::{
    after_legato_note, after_release, after_silence, after_trigger_note, Channel, ChannelModel,
};
use crate::pattern::{Note, NUM_CHANNELS, NUM_INSTRUMENTS, ROWS_PER_PATTERN};
use crate::state::{SharedState, StateModel};
use crate::instrument::{default_modules, InstrumentModel};
use crate::voice::needs_rebuild;

verus! {

/// One action the host must mirror onto its signal processors, in the
/// order handed out. `instrument` is the index of the instrument bank
/// slot to play; `rebuild` tells the host whether the channel's
/// processors were rebuilt (topology changed) or only retargeted.
#[derive(Clone, Copy, PartialEq, Eq, Structural, Debug)]
pub enum EngineCommand {
    Trigger { channel: usize, key: u8, instrument: usize, rebuild: bool },
    Legato { channel: usize, key: u8, instrument: usize, rebuild: bool },
    Release { channel: usize },
    Silence { channel: usize },
}

/// Mathematical image of a [`TrackerEngine`].
pub struct EngineModel {
    pub channels: Seq<ChannelModel>,
    pub preview_timers: Seq<usize>,
    pub preview_duration: usize,
    pub was_playing: bool,
}

/// Channels 0, 1 and 2 are drum channels: a repeated key retriggers
/// hard. Channels from 3 up are synth channels: a repeated key plays
/// legato.
pub open spec fn drum_channel(i: int) -> bool {
    i <= 2
}

/// The decision for channel `i` when a tick reads `note` for it:
/// a positive key triggers (or, on a synth channel holding the same key,
/// moves legato) with the channel's bank instrument and records the key;
/// an empty cell releases the channel and clears the key.
pub open spec fn tick_note_step(
    ch: ChannelModel,
    note: Note,
    inst: InstrumentModel,
    i: int,
) -> (ChannelModel, EngineCommand) {
    let inst_idx = (i % (NUM_INSTRUMENTS as int)) as usize;
    if note.key > 0 {
        let rebuild = needs_rebuild(ch.voice.built, inst.modules);
        if !drum_channel(i) && note.key == ch.last_key {
            (
                ChannelModel { last_key: note.key, ..after_legato_note(ch, note.key, Some(inst)) },
                EngineCommand::Legato {
                    channel: i as usize,
                    key: note.key,
                    instrument: inst_idx,
                    rebuild,
                },
            )
        } else {
            (
                ChannelModel { last_key: note.key, ..after_trigger_note(ch, note.key, Some(inst)) },
                EngineCommand::Trigger {
                    channel: i as usize,
                    key: note.key,
                    instrument: inst_idx,
                    rebuild,
                },
            )
        }
    } else {
        (after_silence(ch), EngineCommand::Release { channel: i as usize })
    }
}

/// All channels after one tick reads `row`.
pub open spec fn tick_channels(
    chs: Seq<ChannelModel>,
    row: Seq<Note>,
    insts: Seq<InstrumentModel>,
) -> Seq<ChannelModel> {
    Seq::new(
        chs.len(),
        |i: int| tick_note_step(chs[i], row[i], insts[i % (NUM_INSTRUMENTS as int)], i).0,
    )
}

/// The commands one tick reading `row` hands out, in channel order.
pub open spec fn tick_commands(
    chs: Seq<ChannelModel>,
    row: Seq<Note>,
    insts: Seq<InstrumentModel>,
) -> Seq<EngineCommand> {
    Seq::new(
        chs.len(),
        |i: int| tick_note_step(chs[i], row[i], insts[i % (NUM_INSTRUMENTS as int)], i).1,
    )
}

/// Channels, playhead row and commands after the first `n` ticks of a
/// callback, starting at `row0` of pattern `pat`.
pub open spec fn run_ticks(
    chs: Seq<ChannelModel>,
    pat: Seq<Seq<Note>>,
    insts: Seq<InstrumentModel>,
    row0: int,
    n: int,
) -> (Seq<ChannelModel>, int, Seq<EngineCommand>)
    decreases n,
{
    if n <= 0 {
        (chs, row0, Seq::empty())
    } else {
        let prev = run_ticks(chs, pat, insts, row0, n - 1);
        let chs1 = tick_channels(prev.0, pat[prev.1], insts);
        let cmds1 = tick_commands(prev.0, pat[prev.1], insts);
        (chs1, (prev.1 + 1) % (ROWS_PER_PATTERN as int), prev.2 + cmds1)
    }
}

/// After `n` ticks the playhead stands `n` rows further, wrapped.
pub proof fn lemma_run_ticks_row(
    chs: Seq<ChannelModel>,
    pat: Seq<Seq<Note>>,
    insts: Seq<InstrumentModel>,
    row0: int,
    n: int,
)
    requires
        0 <= row0 < ROWS_PER_PATTERN,
        0 <= n,
    ensures
        run_ticks(chs, pat, insts, row0, n).1 == (row0 + n) % (ROWS_PER_PATTERN as int),
    decreases n,
{
    if n == 0 {
        assert(row0 % (ROWS_PER_PATTERN as int) == row0);
    } else {
        lemma_run_ticks_row(chs, pat, insts, row0, n - 1);
        vstd::arithmetic::div_mod::lemma_add_mod_noop(row0 + n - 1, 1, ROWS_PER_PATTERN as int);
        assert(1int % (ROWS_PER_PATTERN as int) == 1);
    }
}

/// A freshly constructed channel: a silent, idle voice at concert A
/// with no modules built or trigger handles recorded, bound to the
/// fresh "Init" instrument, no key played yet.
pub open spec fn fresh_channel(ch: ChannelModel, sample_rate: u32) -> bool {
    &&& !ch.voice.gate
    &&& ch.voice.stage is Idle
    &&& ch.voice.built.len() == 0
    &&& ch.voice.triggers == 0
    &&& ch.voice.pitch_key == 69
    &&& ch.voice.sample_rate == sample_rate
    &&& ch.instrument.name == "Init"@
    &&& ch.instrument.modules == default_modules()
    &&& ch.last_key == 0
}

/// A channel whose last key is cleared holds no note: its gate is closed
/// and its envelope is not in an attack-or-held stage.
pub open spec fn key_clear_released(ch: ChannelModel) -> bool {
    ch.last_key == 0 ==> !ch.voice.gate && !(ch.voice.stage is Attack)
}

/// [`key_clear_released`] for every channel.
pub open spec fn channels_key_clear_released(chs: Seq<ChannelModel>) -> bool {
    forall|i: int| 0 <= i < chs.len() ==> key_clear_released(#[trigger] chs[i])
}

/// Number of ticks a callback of `frames` samples fires.
pub open spec fn ticks_elapsed(st: StateModel, frames: int) -> int {
    if st.is_playing {
        (st.current_tick_samples + frames) / (st.samples_per_tick as int)
    } else {
        0
    }
}

/// The shared state after a callback of `frames` samples: the preview
/// mailbox drained; while playing, the tick clock advanced with its
/// residue kept and the playhead moved by the fired ticks.
pub open spec fn state_after_process(st: StateModel, frames: int) -> StateModel {
    StateModel {
        preview_request: None,
        current_tick_samples: if st.is_playing {
            ((st.current_tick_samples + frames) % (st.samples_per_tick as int)) as usize
        } else {
            st.current_tick_samples
        },
        current_row: if st.is_playing {
            ((st.current_row + ticks_elapsed(st, frames)) % (ROWS_PER_PATTERN as int)) as usize
        } else {
            st.current_row
        },
        ..st
    }
}

/// The engine after servicing the preview mailbox: a keyed request
/// triggers the channel with its bank instrument and arms its auto
/// release timer; a key of zero releases the channel and clears the
/// timer. A request naming a channel out of range is dropped.
pub open spec fn engine_after_preview(e: EngineModel, st: StateModel) -> EngineModel {
    match st.preview_request {
        Some((c, k)) => {
            if c < NUM_CHANNELS {
                if k > 0 {
                    EngineModel {
                        channels: e.channels.update(
                            c as int,
                            ChannelModel {
                                last_key: k,
                                ..after_trigger_note(
                                    e.channels[c as int],
                                    k,
                                    Some(st.instruments[c as int % (NUM_INSTRUMENTS as int)]),
                                )
                            },
                        ),
                        preview_timers: e.preview_timers.update(c as int, e.preview_duration),
                        ..e
                    }
                } else {
                    EngineModel {
                        channels: e.channels.update(c as int, after_release(e.channels[c as int])),
                        preview_timers: e.preview_timers.update(c as int, 0usize),
                        ..e
                    }
                }
            } else {
                e
            }
        },
        None => e,
    }
}

/// The commands the preview mailbox yields.
pub open spec fn preview_commands(e: EngineModel, st: StateModel) -> Seq<EngineCommand> {
    match st.preview_request {
        Some((c, k)) => {
            if c < NUM_CHANNELS {
                if k > 0 {
                    seq![
                        EngineCommand::Trigger {
                            channel: c,
                            key: k,
                            instrument: (c as int % (NUM_INSTRUMENTS as int)) as usize,
                            rebuild: needs_rebuild(
                                e.channels[c as int].voice.built,
                                st.instruments[c as int % (NUM_INSTRUMENTS as int)].modules,
                            ),
                        },
                    ]
                } else {
                    seq![EngineCommand::Release { channel: c }]
                }
            } else {
                Seq::empty()
            }
        },
        None => Seq::empty(),
    }
}

/// Every channel silenced, as the transport's stop edge demands.
pub open spec fn silence_all(e: EngineModel) -> EngineModel {
    EngineModel {
        channels: Seq::new(e.channels.len(), |i: int| after_silence(e.channels[i])),
        ..e
    }
}

/// One silence command per channel, in channel order.
pub open spec fn silence_commands(n: int) -> Seq<EngineCommand> {
    Seq::new(n as nat, |i: int| EngineCommand::Silence { channel: i as usize })
}

/// Preview timers run down by `frames` samples; a timer that reaches
/// zero within this callback releases its channel.
pub open spec fn timers_after(timers: Seq<usize>, frames: int) -> Seq<usize> {
    Seq::new(
        timers.len(),
        |i: int|
            if timers[i] > frames {
                (timers[i] - frames) as usize
            } else {
                0usize
            },
    )
}

/// Channels after the preview timers ran down by `frames`.
pub open spec fn channels_after_timers(
    chs: Seq<ChannelModel>,
    timers: Seq<usize>,
    frames: int,
) -> Seq<ChannelModel> {
    Seq::new(
        chs.len(),
        |i: int|
            if 0 < timers[i] <= frames {
                after_release(chs[i])
            } else {
                chs[i]
            },
    )
}

/// The release commands of the timers that expire within `frames`
/// samples, for the first `n` channels, in channel order.
pub open spec fn timer_commands(timers: Seq<usize>, frames: int, n: int) -> Seq<EngineCommand>
    decreases n,
{
    if n <= 0 {
        Seq::empty()
    } else {
        timer_commands(timers, frames, n - 1) + if 0 < timers[n - 1] <= frames {
            seq![EngineCommand::Release { channel: (n - 1) as usize }]
        } else {
            Seq::empty()
        }
    }
}

/// The engine after a callback of `frames` samples: preview serviced,
/// every channel silenced on the transport's stop edge, and then either
/// the preview timers run down (transport stopped) or the due ticks
/// fired (transport playing).
pub open spec fn engine_after_process(e: EngineModel, st: StateModel, frames: int) -> EngineModel {
    let e1 = engine_after_preview(e, st);
    let e2 = if e.was_playing && !st.is_playing {
        silence_all(e1)
    } else {
        e1
    };
    if st.is_playing {
        EngineModel {
            channels: run_ticks(
                e2.channels,
                st.patterns[st.current_pattern as int],
                st.instruments,
                st.current_row as int,
                ticks_elapsed(st, frames),
            ).0,
            was_playing: true,
            ..e2
        }
    } else {
        EngineModel {
            channels: channels_after_timers(e2.channels, e2.preview_timers, frames),
            preview_timers: timers_after(e2.preview_timers, frames),
            was_playing: false,
            ..e2
        }
    }
}

/// Every command a callback of `frames` samples hands out, in execution
/// order: preview first, then the stop edge's silences, then either the
/// expiring preview timers' releases or the fired ticks' note commands.
pub open spec fn process_commands(e: EngineModel, st: StateModel, frames: int) -> Seq<
    EngineCommand,
> {
    let e1 = engine_after_preview(e, st);
    let e2 = if e.was_playing && !st.is_playing {
        silence_all(e1)
    } else {
        e1
    };
    preview_commands(e, st) + (if e.was_playing && !st.is_playing {
        silence_commands(NUM_CHANNELS as int)
    } else {
        Seq::empty()
    }) + (if st.is_playing {
        run_ticks(
            e2.channels,
            st.patterns[st.current_pattern as int],
            st.instruments,
            st.current_row as int,
            ticks_elapsed(st, frames),
        ).2
    } else {
        timer_commands(e2.preview_timers, frames, NUM_CHANNELS as int)
    })
}

/// Law: after any callback the playhead row stays in range and, while
/// playing, the tick residue lies strictly inside the tick (the rest
/// carries to the next callback, so rows never drift); a stopped
/// transport leaves the tick clock and the playhead alone. Stated over
/// the model for every frame count, with no machine bound.
pub proof fn lemma_tick_clock_law(st: StateModel, frames: int)
    requires
        st.samples_per_tick >= 1,
        (st.current_row as int) < ROWS_PER_PATTERN,
        frames >= 0,
    ensures
        (state_after_process(st, frames).current_row as int) < ROWS_PER_PATTERN,
        st.is_playing ==> state_after_process(st, frames).current_tick_samples
            < st.samples_per_tick,
        !st.is_playing ==> state_after_process(st, frames).current_tick_samples
            == st.current_tick_samples && state_after_process(st, frames).current_row
            == st.current_row,
{
    if st.is_playing {
        let total = st.current_tick_samples + frames;
        let spt = st.samples_per_tick as int;
        vstd::arithmetic::div_mod::lemma_mod_bound(total, spt);
        vstd::arithmetic::div_mod::lemma_div_pos_is_pos(total, spt);
        vstd::arithmetic::div_mod::lemma_mod_bound(
            st.current_row + ticks_elapsed(st, frames),
            ROWS_PER_PATTERN as int,
        );
    }
}

proof fn lemma_tick_channels_preserve_key_clear(
    chs: Seq<ChannelModel>,
    row: Seq<Note>,
    insts: Seq<InstrumentModel>,
)
    requires
        channels_key_clear_released(chs),
    ensures
        channels_key_clear_released(tick_channels(chs, row, insts)),
{
    assert forall|i: int|
        0 <= i < chs.len() implies key_clear_released(
        #[trigger] tick_channels(chs, row, insts)[i],
    ) by {
        assert(tick_channels(chs, row, insts)[i] == tick_note_step(
            chs[i],
            row[i],
            insts[i % (NUM_INSTRUMENTS as int)],
            i,
        ).0);
    }
}

proof fn lemma_run_ticks_preserve_key_clear(
    chs: Seq<ChannelModel>,
    pat: Seq<Seq<Note>>,
    insts: Seq<InstrumentModel>,
    row0: int,
    n: int,
)
    requires
        channels_key_clear_released(chs),
    ensures
        channels_key_clear_released(run_ticks(chs, pat, insts, row0, n).0),
    decreases n,
{
    if n > 0 {
        lemma_run_ticks_preserve_key_clear(chs, pat, insts, row0, n - 1);
        let prev = run_ticks(chs, pat, insts, row0, n - 1);
        lemma_tick_channels_preserve_key_clear(prev.0, pat[prev.1], insts);
    }
}

/// Law: the channel invariant — a cleared key means a closed gate and
/// an envelope past its attack — survives any callback, whatever the
/// shared state holds. Stated over the model for every frame count,
/// with no machine bound.
pub proof fn lemma_key_clear_released_preserved(e: EngineModel, st: StateModel, frames: int)
    requires
        e.channels.len() == NUM_CHANNELS,
        e.preview_timers.len() == NUM_CHANNELS,
        channels_key_clear_released(e.channels),
    ensures
        channels_key_clear_released(engine_after_process(e, st, frames).channels),
{
    let e1 = engine_after_preview(e, st);
    assert(channels_key_clear_released(e1.channels)) by {
        assert forall|i: int|
            0 <= i < e1.channels.len() implies key_clear_released(#[trigger] e1.channels[i]) by {
            if e1.channels[i] != e.channels[i] {
                match st.preview_request {
                    Some((c, k)) => {
                        assert(i == c as int);
                    },
                    None => {},
                }
            }
        }
    }
    let e2 = if e.was_playing && !st.is_playing {
        silence_all(e1)
    } else {
        e1
    };
    assert(channels_key_clear_released(e2.channels)) by {
        assert forall|i: int|
            0 <= i < e2.channels.len() implies key_clear_released(#[trigger] e2.channels[i]) by {
            if e.was_playing && !st.is_playing {
                assert(e2.channels[i] == after_silence(e1.channels[i]));
            }
        }
    }
    if st.is_playing {
        lemma_run_ticks_preserve_key_clear(
            e2.channels,
            st.patterns[st.current_pattern as int],
            st.instruments,
            st.current_row as int,
            ticks_elapsed(st, frames),
        );
    } else {
        let after = channels_after_timers(e2.channels, e2.preview_timers, frames);
        assert forall|i: int|
            0 <= i < after.len() implies key_clear_released(#[trigger] after[i]) by {
            assert(after[i] == e2.channels[i] || after[i] == after_release(e2.channels[i]));
        }
    }
}

/// Law: on the transport's stop edge every channel comes out of the
/// callback released with its key cleared, and the edge is consumed —
/// the engine records the stopped transport, so the next stopped
/// callback finds no edge to act on. Stated over the model for every
/// frame count, with no machine bound.
pub proof fn lemma_stop_edge_silences(e: EngineModel, st: StateModel, frames: int)
    requires
        e.channels.len() == NUM_CHANNELS,
        e.preview_timers.len() == NUM_CHANNELS,
        e.was_playing,
        !st.is_playing,
    ensures
        engine_after_process(e, st, frames).channels.len() == e.channels.len(),
        forall|i: int|
            0 <= i < e.channels.len() ==> !(#[trigger] engine_after_process(
                e,
                st,
                frames,
            ).channels[i]).voice.gate && engine_after_process(e, st, frames).channels[i].last_key
                == 0,
        !engine_after_process(e, st, frames).was_playing,
{
    let e1 = engine_after_preview(e, st);
    let e2 = silence_all(e1);
    assert forall|i: int|
        0 <= i < e.channels.len() implies !(#[trigger] engine_after_process(
        e,
        st,
        frames,
    ).channels[i]).voice.gate && engine_after_process(e, st, frames).channels[i].last_key
        == 0 by {
        assert(e2.channels[i] == after_silence(e1.channels[i]));
        let after = engine_after_process(e, st, frames).channels[i];
        assert(after == e2.channels[i] || after == after_release(e2.channels[i]));
    }
}

/// Law: preview timers only run while the transport is stopped; a
/// playing callback leaves every timer exactly where the preview
/// servicing put it.
pub proof fn lemma_timers_hold_while_playing(e: EngineModel, st: StateModel, frames: int)
    requires
        st.is_playing,
    ensures
        engine_after_process(e, st, frames).preview_timers == engine_after_preview(
            e,
            st,
        ).preview_timers,
{
}

/// Law: while the transport is stopped with the preview slot empty and
/// no stop edge pending, a timer due within the callback releases its
/// channel and stops at zero; one with more time left only counts down,
/// its channel untouched; an idle timer stays idle.
pub proof fn lemma_preview_timer_expiry(e: EngineModel, st: StateModel, frames: int, i: int)
    requires
        !st.is_playing,
        !e.was_playing,
        st.preview_request is None,
        0 <= i < e.channels.len(),
        e.preview_timers.len() == e.channels.len(),
        0 <= frames,
    ensures
        0 < e.preview_timers[i] <= frames ==> engine_after_process(e, st, frames).channels[i]
            == after_release(e.channels[i]) && engine_after_process(
            e,
            st,
            frames,
        ).preview_timers[i] == 0,
        e.preview_timers[i] > frames ==> engine_after_process(e, st, frames).channels[i]
            == e.channels[i] && engine_after_process(e, st, frames).preview_timers[i]
            == e.preview_timers[i] - frames,
        e.preview_timers[i] == 0 ==> engine_after_process(e, st, frames).channels[i]
            == e.channels[i] && engine_after_process(e, st, frames).preview_timers[i] == 0,
{
}

/// The engine owning the channels and the scheduling state of the audio
/// callback. The host keeps it beside the real signal processors and
/// feeds it the shared state on every callback.
pub struct TrackerEngine {
    pub channels: Vec<Channel>,
    /// Per-channel countdown, in samples, until an auditioned note
    /// auto-releases; runs only while the transport is stopped.
    pub preview_timers: Vec<usize>,
    /// Length of an audition in samples: half a second.
    pub preview_duration: usize,
    /// Transport state seen on the previous callback, for stop-edge
    /// detection.
    pub was_playing: bool,
}

impl View for TrackerEngine {
    type V = EngineModel;

    open spec fn view(&self) -> EngineModel {
        EngineModel {
            channels: self.channels@.map_values(|c: Channel| c@),
            preview_timers: self.preview_timers@,
            preview_duration: self.preview_duration,
            was_playing: self.was_playing,
        }
    }
}

impl TrackerEngine {
    /// Structural invariant: one channel and one preview timer per
    /// sequencer channel, and no channel holding a cleared key with an
    /// open gate.
    pub open spec fn wf(&self) -> bool {
        &&& self@.channels.len() == NUM_CHANNELS
        &&& self@.preview_timers.len() == NUM_CHANNELS
        &&& channels_key_clear_released(self@.channels)
    }

    /// A fresh engine at `sample_rate`: every channel a silent, idle
    /// voice at concert A with no modules built, bound to the fresh
    /// "Init" instrument; idle preview timers; transport seen as
    /// stopped.
    pub fn new(sample_rate: u32) -> (e: TrackerEngine)
        ensures
            e.wf(),
            e@.preview_duration == sample_rate as int / 2,
            !e@.was_playing,
            forall|i: int| 0 <= i < NUM_CHANNELS ==> (#[trigger] e@.preview_timers[i]) == 0,
            forall|i: int|
                0 <= i < NUM_CHANNELS ==> fresh_channel(#[trigger] e@.channels[i], sample_rate),
    {
        let mut channels: Vec<Channel> = Vec::new();
        let mut timers: Vec<usize> = Vec::new();
        let mut i: usize = 0;
        while i < NUM_CHANNELS
            invariant
                i <= NUM_CHANNELS,
                channels@.len() == i as int,
                timers@.len() == i as int,
                forall|j: int| 0 <= j < i as int ==> (#[trigger] timers@[j]) == 0,
                forall|j: int|
                    0 <= j < i as int ==> fresh_channel((#[trigger] channels@[j])@, sample_rate),
            decreases NUM_CHANNELS - i,
        {
            let ch = Channel::new(sample_rate);
            proof {
                assert(fresh_channel(ch@, sample_rate));
            }
            channels.push(ch);
            timers.push(0);
            i = i + 1;
        }
        let sr_half: u32 = sample_rate / 2;
        TrackerEngine {
            channels,
            preview_timers: timers,
            preview_duration: sr_half as usize,
            was_playing: false,
        }
    }

    /// Fires one tick: reads the playhead row of the current pattern,
    /// decides every channel's note event, and advances the playhead one
    /// row, wrapping at the pattern's end. With the transport stopped
    /// nothing happens.
    pub fn tick(&mut self, state: &mut SharedState) -> (cmds: Vec<EngineCommand>)
        requires
            old(self).wf(),
            old(state).wf(),
        ensures
            final(self).wf(),
            final(state).wf(),
            !old(state)@.is_playing ==> final(self)@ == old(self)@ && final(state)@ == old(state)@
                && cmds@ == Seq::<EngineCommand>::empty(),
            old(state)@.is_playing ==> final(state)@ == (StateModel {
                current_row: (((old(state)@.current_row + 1) as int) % (
                ROWS_PER_PATTERN as int)) as usize,
                ..old(state)@
            }),
            old(state)@.is_playing ==> final(self)@ == (EngineModel {
                channels: tick_channels(
                    old(self)@.channels,
                    old(state)@.patterns[old(state)@.current_pattern as int][old(
                        state,
                    )@.current_row as int],
                    old(state)@.instruments,
                ),
                ..old(self)@
            }),
            old(state)@.is_playing ==> cmds@ == tick_commands(
                old(self)@.channels,
                old(state)@.patterns[old(state)@.current_pattern as int][old(
                    state,
                )@.current_row as int],
                old(state)@.instruments,
            ),
    {
        let mut cmds: Vec<EngineCommand> = Vec::new();
        if !state.is_playing {
            return cmds;
        }
        let cp = state.current_pattern;
        let r = state.current_row;
        let ghost row_notes = state@.patterns[cp as int][r as int];
        let ghost chs0 = self@.channels;
        let mut i: usize = 0;
        while i < NUM_CHANNELS
            invariant
                i <= NUM_CHANNELS,
                self.channels@.len() == NUM_CHANNELS,
                self.preview_timers@ == old(self)@.preview_timers,
                self.preview_duration == old(self)@.preview_duration,
                self.was_playing == old(self)@.was_playing,
                chs0 == old(self)@.channels,
                chs0.len() == NUM_CHANNELS,
                *state == *old(state),
                state.wf(),
                cp == state@.current_pattern,
                r == state@.current_row,
                row_notes == state@.patterns[cp as int][r as int],
                row_notes.len() == NUM_CHANNELS,
                cmds@ == tick_commands(chs0, row_notes, state@.instruments).take(i as int),
                forall|j: int|
                    i <= j < NUM_CHANNELS ==> (#[trigger] self@.channels[j]) == chs0[j],
                forall|j: int|
                    0 <= j < i as int ==> (#[trigger] self@.channels[j]) == tick_channels(
                        chs0,
                        row_notes,
                        state@.instruments,
                    )[j],
            decreases NUM_CHANNELS - i,
        {
            let ghost pre = self@.channels;
            let ghost ii = i as int;
            let ghost step = tick_note_step(
                chs0[ii],
                row_notes[ii],
                state@.instruments[ii % (NUM_INSTRUMENTS as int)],
                ii,
            );
            let note = state.patterns[cp].rows[r][i];
            let inst_idx = i % NUM_INSTRUMENTS;
            proof {
                assert(note == row_notes[ii]);
                assert(state.instruments@[inst_idx as int]@ == state@.instruments[ii % (
                NUM_INSTRUMENTS as int)]);
                assert(pre[ii] == chs0[ii]);
            }
            if note.key > 0 {
                let is_drum = i <= 2;
                let legato = !is_drum && note.key == self.channels[i].last_key;
                proof {
                    assert(legato == (!drum_channel(ii) && note.key == chs0[ii].last_key));
                }
                if legato {
                    let rebuilt = self.channels[i].legato_note(
                        note.key,
                        Some(&state.instruments[inst_idx]),
                    );
                    self.channels[i].last_key = note.key;
                    cmds.push(
                        EngineCommand::Legato {
                            channel: i,
                            key: note.key,
                            instrument: inst_idx,
                            rebuild: rebuilt,
                        },
                    );
                } else {
                    let rebuilt = self.channels[i].trigger_note(
                        note.key,
                        Some(&state.instruments[inst_idx]),
                    );
                    self.channels[i].last_key = note.key;
                    cmds.push(
                        EngineCommand::Trigger {
                            channel: i,
                            key: note.key,
                            instrument: inst_idx,
                            rebuild: rebuilt,
                        },
                    );
                }
            } else {
                self.channels[i].silence();
                cmds.push(EngineCommand::Release { channel: i });
            }
            proof {
                assert(self@.channels[ii] == step.0);
                assert(cmds@.last() == step.1);
                assert(forall|j: int|
                    0 <= j < NUM_CHANNELS && j != ii ==> #[trigger] self@.channels[j] == pre[j]);
                assert(cmds@ =~= tick_commands(chs0, row_notes, state@.instruments).take(ii + 1));
            }
            i = i + 1;
        }
        state.current_row = (state.current_row + 1) % ROWS_PER_PATTERN;
        proof {
            assert(cmds@ =~= tick_commands(chs0, row_notes, state@.instruments));
            assert(self@.channels =~= tick_channels(chs0, row_notes, state@.instruments));
            assert(channels_key_clear_released(self@.channels));
            assert(self.preview_timers@ =~= old(self)@.preview_timers);
        }
        cmds
    }

    /// One audio callback of `frames` samples: drains the preview
    /// mailbox, advances the tick clock while playing, silences every
    /// channel on the transport's stop edge, runs the preview timers
    /// down while stopped, and fires the due ticks. Returns the commands
    /// for the host in execution order.
    ///
    /// On return the playhead row is in range, and — while playing — the
    /// tick residue is strictly below the tick length; when the
    /// transport has just stopped, every channel ends released with its
    /// key cleared.
    pub fn process(&mut self, state: &mut SharedState, frames: usize) -> (cmds: Vec<EngineCommand>)
        requires
            old(self).wf(),
            old(state).wf(),
            old(state)@.current_tick_samples + frames <= usize::MAX,
        ensures
            final(self).wf(),
            final(state).wf(),
            final(state)@ == state_after_process(old(state)@, frames as int),
            final(self)@ == engine_after_process(old(self)@, old(state)@, frames as int),
            cmds@ == process_commands(old(self)@, old(state)@, frames as int),
            final(state)@.current_row < ROWS_PER_PATTERN,
            old(state)@.is_playing ==> final(state)@.current_tick_samples < old(
                state,
            )@.samples_per_tick,
            old(self)@.was_playing && !old(state)@.is_playing ==> forall|i: int|
                0 <= i < NUM_CHANNELS ==> !(#[trigger] final(self)@.channels[i]).voice.gate
                    && final(self)@.channels[i].last_key == 0,
    {
        let ghost st0 = state@;
        let ghost e0 = self@;
        let mut cmds: Vec<EngineCommand> = Vec::new();

        // Service the preview mailbox and clear it.
        let pr = state.preview_request;
        state.preview_request = None;
        match pr {
            Some((c, k)) => {
                if c < NUM_CHANNELS {
                    if k > 0 {
                        let inst_idx = c % NUM_INSTRUMENTS;
                        let rebuilt = self.channels[c].trigger_note(
                            k,
                            Some(&state.instruments[inst_idx]),
                        );
                        self.channels[c].last_key = k;
                        self.preview_timers.set(c, self.preview_duration);
                        cmds.push(
                            EngineCommand::Trigger {
                                channel: c,
                                key: k,
                                instrument: inst_idx,
                                rebuild: rebuilt,
                            },
                        );
                    } else {
                        self.channels[c].release();
                        self.preview_timers.set(c, 0);
                        cmds.push(EngineCommand::Release { channel: c });
                    }
                }
            },
            None => {},
        }
        let ghost e1v = engine_after_preview(e0, st0);
        let ghost pc = preview_commands(e0, st0);
        proof {
            assert(self@.channels =~= e1v.channels);
            assert(self@.preview_timers =~= e1v.preview_timers);
            assert(self@ == e1v);
            assert(cmds@ =~= pc);
            assert(state@ == (StateModel { preview_request: None, ..st0 }));
        }

        // Advance the tick clock while playing, counting the due ticks.
        let playing = state.is_playing;
        let mut ticks: usize = 0;
        let ghost total = st0.current_tick_samples + frames;
        if playing {
            state.current_tick_samples = state.current_tick_samples + frames;
            let ghost st1 = state@;
            while state.current_tick_samples >= state.samples_per_tick
                invariant
                    state@ == (StateModel {
                        current_tick_samples: state@.current_tick_samples,
                        ..st1
                    }),
                    st1.samples_per_tick == st0.samples_per_tick,
                    st0.samples_per_tick >= 1,
                    ticks * st0.samples_per_tick + state@.current_tick_samples == total,
                    total <= usize::MAX,
                decreases state@.current_tick_samples,
            {
                proof {
                    assert((ticks + 1) * st0.samples_per_tick == ticks * st0.samples_per_tick
                        + st0.samples_per_tick) by (nonlinear_arith);
                    assert(ticks + 1 <= (ticks + 1) * st0.samples_per_tick) by (nonlinear_arith)
                        requires
                            st0.samples_per_tick >= 1,
                            ticks >= 0,
                    ;
                }
                state.current_tick_samples = state.current_tick_samples
                    - state.samples_per_tick;
                ticks = ticks + 1;
            }
            proof {
                vstd::arithmetic::div_mod::lemma_fundamental_div_mod_converse(
                    total as int,
                    st0.samples_per_tick as int,
                    ticks as int,
                    state@.current_tick_samples as int,
                );
                assert(ticks as int == ticks_elapsed(st0, frames as int));
                assert(state@.current_tick_samples == total % (st0.samples_per_tick as int));
            }
        }
        let ghost st2 = state@;
        proof {
            assert(st2 == (StateModel {
                current_tick_samples: st2.current_tick_samples,
                preview_request: None,
                ..st0
            }));
        }

        // Silence every channel when the transport has just stopped.
        let was = self.was_playing;
        if was && !playing {
            let mut si: usize = 0;
            while si < NUM_CHANNELS
                invariant
                    si <= NUM_CHANNELS,
                    self@.channels.len() == NUM_CHANNELS,
                    e1v.channels.len() == NUM_CHANNELS,
                    self@.preview_timers == e1v.preview_timers,
                    self@.preview_duration == e1v.preview_duration,
                    self@.was_playing == e1v.was_playing,
                    forall|j: int|
                        0 <= j < si as int ==> #[trigger] self@.channels[j] == after_silence(
                            e1v.channels[j],
                        ),
                    forall|j: int|
                        si <= j < NUM_CHANNELS ==> #[trigger] self@.channels[j] == e1v.channels[j],
                    cmds@ == pc + silence_commands(si as int),
                decreases NUM_CHANNELS - si,
            {
                let ghost pre = self@.channels;
                self.channels[si].silence();
                cmds.push(EngineCommand::Silence { channel: si });
                proof {
                    assert(self@.channels[si as int] == after_silence(pre[si as int]));
                    assert(forall|j: int|
                        0 <= j < NUM_CHANNELS && j != si as int ==> #[trigger] self@.channels[j]
                            == pre[j]);
                    assert(cmds@ =~= pc + silence_commands(si as int + 1));
                }
                si = si + 1;
            }
            proof {
                assert(self@.channels =~= silence_all(e1v).channels);
            }
        }
        self.was_playing = playing;
        let ghost e2v = if e0.was_playing && !st0.is_playing {
            silence_all(e1v)
        } else {
            e1v
        };
        let ghost sc = if e0.was_playing && !st0.is_playing {
            silence_commands(NUM_CHANNELS as int)
        } else {
            Seq::<EngineCommand>::empty()
        };
        proof {
            assert(self@.channels =~= e2v.channels);
            assert(self@.preview_timers =~= e2v.preview_timers);
            assert(cmds@ =~= pc + sc);
        }
        let ghost base_cmds = cmds@;

        if !playing {
            // Run the preview timers down; an expiring one releases its
            // channel.
            let mut ti: usize = 0;
            while ti < NUM_CHANNELS
                invariant
                    ti <= NUM_CHANNELS,
                    self@.channels.len() == NUM_CHANNELS,
                    self@.preview_timers.len() == NUM_CHANNELS,
                    e2v.channels.len() == NUM_CHANNELS,
                    e2v.preview_timers.len() == NUM_CHANNELS,
                    self@.preview_duration == e2v.preview_duration,
                    self@.was_playing == st0.is_playing,
                    forall|j: int|
                        0 <= j < ti as int ==> #[trigger] self@.channels[j] == channels_after_timers(
                            e2v.channels,
                            e2v.preview_timers,
                            frames as int,
                        )[j],
                    forall|j: int|
                        ti <= j < NUM_CHANNELS ==> #[trigger] self@.channels[j] == e2v.channels[j],
                    forall|j: int|
                        0 <= j < ti as int ==> #[trigger] self@.preview_timers[j] == timers_after(
                            e2v.preview_timers,
                            frames as int,
                        )[j],
                    forall|j: int|
                        ti <= j < NUM_CHANNELS ==> #[trigger] self@.preview_timers[j]
                            == e2v.preview_timers[j],
                    cmds@ == base_cmds + timer_commands(
                        e2v.preview_timers,
                        frames as int,
                        ti as int,
                    ),
                decreases NUM_CHANNELS - ti,
            {
                let ghost pre = self@.channels;
                let ghost pre_t = self@.preview_timers;
                proof {
                    assert(pre[ti as int] == e2v.channels[ti as int]);
                    assert(pre_t[ti as int] == e2v.preview_timers[ti as int]);
                }
                if self.preview_timers[ti] > 0 {
                    if self.preview_timers[ti] > frames {
                        let nv = self.preview_timers[ti] - frames;
                        self.preview_timers.set(ti, nv);
                    } else {
                        self.preview_timers.set(ti, 0);
                        self.channels[ti].release();
                        cmds.push(EngineCommand::Release { channel: ti });
                    }
                }
                proof {
                    assert(forall|j: int|
                        0 <= j < NUM_CHANNELS && j != ti as int ==> #[trigger] self@.channels[j]
                            == pre[j]);
                    assert(forall|j: int|
                        0 <= j < NUM_CHANNELS && j != ti as int
                            ==> #[trigger] self@.preview_timers[j] == pre_t[j]);
                    assert(self@.channels[ti as int] == channels_after_timers(
                        e2v.channels,
                        e2v.preview_timers,
                        frames as int,
                    )[ti as int]);
                    assert(self@.preview_timers[ti as int] == timers_after(
                        e2v.preview_timers,
                        frames as int,
                    )[ti as int]);
                    assert(cmds@ =~= base_cmds + timer_commands(
                        e2v.preview_timers,
                        frames as int,
                        ti as int + 1,
                    ));
                }
                ti = ti + 1;
            }
            proof {
                assert(self@.channels =~= channels_after_timers(
                    e2v.channels,
                    e2v.preview_timers,
                    frames as int,
                ));
                assert(self@.preview_timers =~= timers_after(e2v.preview_timers, frames as int));
                assert(self@ == engine_after_process(e0, st0, frames as int));
                assert(state@ == state_after_process(st0, frames as int));
                assert(cmds@ =~= process_commands(e0, st0, frames as int));
                assert(channels_key_clear_released(self@.channels));
            }
        } else {
            // Fire the due ticks.
            let ghost pat = st0.patterns[st0.current_pattern as int];
            let ghost insts = st0.instruments;
            let ghost row0 = st0.current_row as int;
            let ghost e_base = self@;
            let mut t: usize = 0;
            while t < ticks
                invariant
                    t <= ticks,
                    self.wf(),
                    state.wf(),
                    state@.is_playing,
                    self@ == (EngineModel {
                        channels: run_ticks(e2v.channels, pat, insts, row0, t as int).0,
                        ..e_base
                    }),
                    e_base == (EngineModel { channels: e2v.channels, was_playing: true, ..e2v }),
                    state@ == (StateModel {
                        current_row: run_ticks(
                            e2v.channels,
                            pat,
                            insts,
                            row0,
                            t as int,
                        ).1 as usize,
                        ..st2
                    }),
                    0 <= run_ticks(e2v.channels, pat, insts, row0, t as int).1
                        < ROWS_PER_PATTERN as int,
                    st2.current_row as int == row0,
                    st2.patterns[st2.current_pattern as int] == pat,
                    st2.instruments == insts,
                    cmds@ == base_cmds + run_ticks(e2v.channels, pat, insts, row0, t as int).2,
                decreases ticks - t,
            {
                let ghost prev = run_ticks(e2v.channels, pat, insts, row0, t as int);
                let mut tc = self.tick(state);
                cmds.append(&mut tc);
                proof {
                    let next = run_ticks(e2v.channels, pat, insts, row0, t as int + 1);
                    assert(next.0 == tick_channels(prev.0, pat[prev.1], insts));
                    assert(next.2 == prev.2 + tick_commands(prev.0, pat[prev.1], insts));
                    assert(self@.channels =~= next.0);
                    assert(cmds@ =~= base_cmds + next.2);
                }
                t = t + 1;
            }
            proof {
                lemma_run_ticks_row(e2v.channels, pat, insts, row0, ticks as int);
                assert(state@ == state_after_process(st0, frames as int));
                assert(self@ == engine_after_process(e0, st0, frames as int));
                assert(cmds@ =~= process_commands(e0, st0, frames as int));
            }
        }
        cmds
    }
}

} // verus!
