//! Offline rendering: the state reset and sizing that drive the render
//! loop.
//!
//! The host renders a pattern by building a fresh engine over the state
//! that [`prepare_render`] yields and clocking it in blocks through
//! [`TrackerEngine::process`], exactly as the live callback does; the
//! audio itself — running the voices, mixing, clipping and writing
//! 16-bit samples to the output file — is the host's part.
//!
//! [`TrackerEngine::process`]: crate::engine::TrackerEngine::process

use vstd::prelude::*;

use crate::pattern::ROWS_PER_PATTERN;
use crate::state::{samples_per_tick_at, samples_per_tick_for, SharedState, StateModel};

verus! {

/// Offline renders run at the fixed CD rate.
pub const RENDER_SAMPLE_RATE: u32 = 44100;

/// A copy of `state` reset for an offline render: retimed for the render
/// rate (held at one sample per tick at least), playhead at row zero,
/// the tick clock primed so the first block fires row zero at once,
/// transport playing, and no stray preview. Patterns, instruments,
/// tempo and mode are kept.
pub fn prepare_render(state: &SharedState) -> (r: SharedState)
    requires
        state.wf(),
    ensures
        r.wf(),
        r@ == (StateModel {
            samples_per_tick: render_samples_per_tick(state@.bpm) as usize,
            current_tick_samples: render_samples_per_tick(state@.bpm) as usize,
            current_row: 0,
            is_playing: true,
            preview_request: None,
            ..state@
        }),
{
    let mut r = state.clone();
    let spt = render_tick_length(r.bpm);
    r.samples_per_tick = spt;
    r.current_row = 0;
    r.current_tick_samples = spt;
    r.is_playing = true;
    r.preview_request = None;
    r
}

/// The tick length of an offline render at `bpm`, at least one sample —
/// a tempo faster than the render rate can carry still advances.
pub open spec fn render_samples_per_tick(bpm: u32) -> int {
    let spt = samples_per_tick_at(RENDER_SAMPLE_RATE, bpm);
    if spt < 1 {
        1
    } else {
        spt
    }
}

/// Computes [`render_samples_per_tick`] exactly.
pub fn render_tick_length(bpm: u32) -> (r: usize)
    requires
        bpm >= 1,
    ensures
        r == render_samples_per_tick(bpm),
        1 <= r <= 661_500,
{
    proof {
        vstd::arithmetic::div_mod::lemma_div_is_ordered_by_denominator(
            RENDER_SAMPLE_RATE as int * 60,
            4,
            bpm as int * 4,
        );
    }
    let spt = samples_per_tick_for(RENDER_SAMPLE_RATE, bpm);
    if spt < 1 {
        1
    } else {
        spt
    }
}

/// Number of mono samples a full render produces: one pattern of
/// `ROWS_PER_PATTERN` rows at `samples_per_tick` samples each.
pub fn render_total_samples(samples_per_tick: usize) -> (n: usize)
    requires
        samples_per_tick * ROWS_PER_PATTERN <= usize::MAX,
    ensures
        n == samples_per_tick * ROWS_PER_PATTERN,
{
    samples_per_tick * ROWS_PER_PATTERN
}

} // verus!
