//! One sequencer channel: a voice, its bound instrument, and the key it
//! last played.
//!
//! The channel's mix buffer — the scratch audio its voice renders into —
//! lives with the audio host; everything the note lifecycle decides on is
//! here.

use vstd::prelude::*;

use crate::instrument::{Instrument, InstrumentModel};
use crate::voice::{
    released_voice, triggered_voice, updated_voice, EnvStage, SynthVoice, VoiceModel,
};

verus! {

/// Mathematical image of a [`Channel`].
pub struct ChannelModel {
    pub voice: VoiceModel,
    pub instrument: InstrumentModel,
    pub last_key: u8,
}

/// One sequencer channel.
pub struct Channel {
    pub voice: SynthVoice,
    /// The instrument the voice currently plays; kept so a note can be
    /// retriggered without naming the instrument again.
    pub current_instrument: Instrument,
    /// MIDI key most recently played on this channel, `0` for none; the
    /// scheduler's legato decision reads it.
    pub last_key: u8,
}

impl View for Channel {
    type V = ChannelModel;

    open spec fn view(&self) -> ChannelModel {
        ChannelModel {
            voice: self.voice@,
            instrument: self.current_instrument@,
            last_key: self.last_key,
        }
    }
}

/// The channel after a hard trigger of `key`: the named instrument (or
/// the bound one) is stored, the voice is released, retargeted — rebuilt
/// exactly when the topology demands — and triggered. The release before
/// the trigger lets every envelope re-arm cleanly.
pub open spec fn after_trigger_note(
    ch: ChannelModel,
    key: u8,
    inst: Option<InstrumentModel>,
) -> ChannelModel {
    let im = match inst {
        Some(i) => i,
        None => ch.instrument,
    };
    ChannelModel {
        instrument: im,
        voice: triggered_voice(updated_voice(released_voice(ch.voice), key, Some(im))),
        ..ch
    }
}

/// The channel after a legato move to `key`: parameters and pitch follow,
/// but its gate and its envelopes run on.
pub open spec fn after_legato_note(
    ch: ChannelModel,
    key: u8,
    inst: Option<InstrumentModel>,
) -> ChannelModel {
    let im = match inst {
        Some(i) => i,
        None => ch.instrument,
    };
    ChannelModel { instrument: im, voice: updated_voice(ch.voice, key, Some(im)), ..ch }
}

/// The channel after a release: its gate closes, its envelopes fall.
pub open spec fn after_release(ch: ChannelModel) -> ChannelModel {
    ChannelModel { voice: released_voice(ch.voice), ..ch }
}

/// The channel after being silenced on a transport stop: released, with
/// its last key forgotten.
pub open spec fn after_silence(ch: ChannelModel) -> ChannelModel {
    ChannelModel { voice: released_voice(ch.voice), last_key: 0, ..ch }
}

impl Channel {
    /// A fresh channel: a silent voice bound to a fresh instrument, no
    /// key played yet.
    pub fn new(sample_rate: u32) -> (ch: Channel)
        ensures
            ch@.voice.built.len() == 0,
            ch@.voice.triggers == 0,
            ch@.voice.pitch_key == 69,
            !ch@.voice.gate,
            ch@.voice.stage is Idle,
            ch@.voice.sample_rate == sample_rate,
            ch@.instrument.name == "Init"@,
            ch@.instrument.modules == crate::instrument::default_modules(),
            ch@.last_key == 0,
    {
        Channel {
            voice: SynthVoice::new(sample_rate),
            current_instrument: Instrument::default(),
            last_key: 0,
        }
    }

    /// Hard-triggers `key`, as [`after_trigger_note`] states it. Returns
    /// whether the voice was rebuilt, so the host can mirror the running
    /// processors.
    pub fn trigger_note(&mut self, key: u8, instrument: Option<&Instrument>) -> (rebuilt: bool)
        ensures
            final(self)@ == after_trigger_note(
                old(self)@,
                key,
                match instrument {
                    Some(inst) => Some(inst@),
                    None => None,
                },
            ),
            rebuilt == crate::voice::needs_rebuild(
                old(self)@.voice.built,
                after_trigger_note(
                    old(self)@,
                    key,
                    match instrument {
                        Some(inst) => Some(inst@),
                        None => None,
                    },
                ).instrument.modules,
            ),
    {
        if let Some(inst) = instrument {
            self.current_instrument = inst.clone();
        }
        self.voice.release();
        let rebuilt = self.voice.update_params(key, Some(&self.current_instrument));
        self.voice.trigger();
        rebuilt
    }

    /// Moves the playing note to `key` legato, as [`after_legato_note`]
    /// states it. Returns whether the voice was rebuilt.
    pub fn legato_note(&mut self, key: u8, instrument: Option<&Instrument>) -> (rebuilt: bool)
        ensures
            final(self)@ == after_legato_note(
                old(self)@,
                key,
                match instrument {
                    Some(inst) => Some(inst@),
                    None => None,
                },
            ),
            rebuilt == crate::voice::needs_rebuild(
                old(self)@.voice.built,
                after_legato_note(
                    old(self)@,
                    key,
                    match instrument {
                        Some(inst) => Some(inst@),
                        None => None,
                    },
                ).instrument.modules,
            ),
    {
        if let Some(inst) = instrument {
            self.current_instrument = inst.clone();
        }
        self.voice.update_params(key, Some(&self.current_instrument))
    }

    /// Releases the playing note.
    pub fn release(&mut self)
        ensures
            final(self)@ == after_release(old(self)@),
    {
        self.voice.release();
    }

    /// Releases the playing note and forgets the last key; used on the
    /// transport's stop edge.
    pub fn silence(&mut self)
        ensures
            final(self)@ == after_silence(old(self)@),
    {
        self.voice.release();
        self.last_key = 0;
    }
}

/// Law: a hard trigger followed at once by a release leaves a channel
/// with its gate closed and its envelope in release stage, whatever it
/// held before.
pub proof fn lemma_trigger_then_release(ch: ChannelModel, key: u8, inst: Option<InstrumentModel>)
    ensures
        !after_release(after_trigger_note(ch, key, inst)).voice.gate,
        after_release(after_trigger_note(ch, key, inst)).voice.stage is Release,
{
}

} // verus!
