//! Event decoding and the voice registry.
//!
//! The registry maps active key numbers to sounding notes, one per layer:
//! a primary saw voice at the key's pitch and a secondary square voice one
//! octave below it.  A note-on message creates and registers both layers'
//! notes; a note-off (or a note-on with zero velocity) removes and stops
//! them.  A note-off for a key with no active note is a protocol
//! mismatch: it is reported, and the registry is left unchanged.

use crate::fixed::{lemma_div_bound_nonneg, SCALE};
use crate::note::Note;
use crate::wavetable::{WAVE_TYPE_SAW, WAVE_TYPE_SQUARE};
use vstd::prelude::*;

verus! {

/// Number of key numbers the registry covers.
pub const KEY_COUNT: usize = 128;

/// Pulse width of the secondary square voice, a fixed-point fraction.
pub const SECONDARY_PULSE_WIDTH: i64 = 9_000;

/// An error the event-handling layer reports.
#[derive(Clone, Copy, Debug, PartialEq, Eq, Structural)]
pub enum SynthError {
    /// A note-off arrived for a key with no active note: the upstream
    /// event pairing is broken.
    ProtocolMismatch,
}

/// A decoded control message.
#[derive(Clone, Copy, Debug, PartialEq, Eq, Structural)]
pub enum NoteEvent {
    /// A key was pressed with a nonzero velocity.
    On { key: u8, velocity: u8 },
    /// A key was released.
    Off { key: u8 },
}

/// The event a raw three-byte control message decodes to, if any.  A
/// note-on with zero velocity decodes as a note-off; data bytes must stay
/// below 128, and any other message is ignored.
pub open spec fn decode_spec(m: Seq<u8>) -> Option<NoteEvent> {
    if m.len() == 3 && m[1] < 128 && m[2] < 128 {
        if m[0] == 0x80u8 || (m[0] == 0x90u8 && m[2] == 0u8) {
            Some(NoteEvent::Off { key: m[1] })
        } else if m[0] == 0x90u8 {
            Some(NoteEvent::On { key: m[1], velocity: m[2] })
        } else {
            None
        }
    } else {
        None
    }
}

/// Decodes a raw control message into a note event.
pub fn decode_message(message: &[u8]) -> (ev: Option<NoteEvent>)
    ensures
        ev == decode_spec(message@),
{
    if message.len() != 3 {
        return None;
    }
    let status = message[0];
    let key = message[1];
    let velocity = message[2];
    if key >= 128 || velocity >= 128 {
        return None;
    }
    if status == 0x80 || (status == 0x90 && velocity == 0) {
        Some(NoteEvent::Off { key })
    } else if status == 0x90 {
        Some(NoteEvent::On { key, velocity })
    } else {
        None
    }
}

/// Base frequencies in millihertz for the twelve semitones of the octave
/// that starts at key 60, where key 69 sounds at 440 Hz.
pub open spec fn semitone_base_mhz(s: int) -> int {
    if s == 0 {
        261_626
    } else if s == 1 {
        277_183
    } else if s == 2 {
        293_665
    } else if s == 3 {
        311_127
    } else if s == 4 {
        329_628
    } else if s == 5 {
        349_228
    } else if s == 6 {
        369_994
    } else if s == 7 {
        391_995
    } else if s == 8 {
        415_305
    } else if s == 9 {
        440_000
    } else if s == 10 {
        466_164
    } else {
        493_883
    }
}

/// The equal-temperament frequency of a key in millihertz: the semitone's
/// base frequency, doubled or halved once per octave away from the octave
/// of key 60.
pub open spec fn midi_freq_mhz(key: int) -> int {
    let base = semitone_base_mhz(key % 12);
    let octave = key / 12;
    if octave >= 5 {
        base * (if octave == 5 {
            1int
        } else if octave == 6 {
            2int
        } else if octave == 7 {
            4int
        } else if octave == 8 {
            8int
        } else if octave == 9 {
            16int
        } else {
            32int
        })
    } else {
        base / (if octave == 4 {
            2int
        } else if octave == 3 {
            4int
        } else if octave == 2 {
            8int
        } else if octave == 1 {
            16int
        } else {
            32int
        })
    }
}

/// Executable semitone base lookup.
fn semitone_base_value(s: usize) -> (mhz: u32)
    requires
        s < 12,
    ensures
        mhz == semitone_base_mhz(s as int),
        261_626 <= mhz <= 493_883,
{
    match s {
        0 => 261_626,
        1 => 277_183,
        2 => 293_665,
        3 => 311_127,
        4 => 329_628,
        5 => 349_228,
        6 => 369_994,
        7 => 391_995,
        8 => 415_305,
        9 => 440_000,
        10 => 466_164,
        _ => 493_883,
    }
}

/// The frequency a key number sounds at, in millihertz.
pub fn midi_note_freq_mhz(key: u8) -> (mhz: u32)
    requires
        key < 128,
    ensures
        mhz == midi_freq_mhz(key as int),
        0 < mhz <= 16_000_000,
{
    let base: u32 = semitone_base_value((key % 12) as usize);
    let octave: u8 = key / 12;
    if octave >= 5 {
        let factor: u32 = if octave == 5 {
            1
        } else if octave == 6 {
            2
        } else if octave == 7 {
            4
        } else if octave == 8 {
            8
        } else if octave == 9 {
            16
        } else {
            32
        };
        base * factor
    } else {
        let divisor: u32 = if octave == 4 {
            2
        } else if octave == 3 {
            4
        } else if octave == 2 {
            8
        } else if octave == 1 {
            16
        } else {
            32
        };
        base / divisor
    }
}

/// The gain a velocity maps to: the full amplitude scaled by
/// `velocity / 127`.
pub open spec fn velocity_amplitude_spec(velocity: int) -> int {
    (velocity * (SCALE as int)) / 127
}

/// Converts a velocity to a fixed-point gain; full velocity gives
/// exactly the full amplitude.
pub fn velocity_amplitude(velocity: u8) -> (amp: i64)
    requires
        velocity < 128,
    ensures
        amp == velocity_amplitude_spec(velocity as int),
        0 <= amp <= SCALE,
        velocity == 127 ==> amp == SCALE,
{
    proof {
        lemma_div_bound_nonneg((velocity as int) * (SCALE as int), 127, SCALE as int);
    }
    ((velocity as i64) * SCALE) / 127
}

/// The primary-layer note a note-on creates: a saw voice at the key's
/// pitch with velocity-derived gain.
pub open spec fn primary_note_spec(key: u8, velocity: u8) -> Note {
    Note {
        wave_table_type: WAVE_TYPE_SAW,
        pulse_width: 0,
        parameters: crate::note::NoteParameters {
            frequency_mhz: midi_freq_mhz(key as int) as u32,
            amplitude: velocity_amplitude_spec(velocity as int) as i64,
            attack: crate::note::DEFAULT_ATTACK_MS,
            decay: crate::note::DEFAULT_DECAY_MS,
            sustain: crate::note::DEFAULT_SUSTAIN,
            release: crate::note::DEFAULT_RELEASE_MS,
            filter_cutoff: crate::note::DEFAULT_FILTER_CUTOFF,
            filter_resonance: crate::note::DEFAULT_FILTER_RESONANCE,
        },
        sounding: true,
    }
}

/// The secondary-layer note a note-on creates: a square voice exactly one
/// octave below the primary, with the same gain.
pub open spec fn secondary_note_spec(key: u8, velocity: u8) -> Note {
    Note {
        wave_table_type: WAVE_TYPE_SQUARE,
        pulse_width: SECONDARY_PULSE_WIDTH,
        parameters: crate::note::NoteParameters {
            frequency_mhz: (midi_freq_mhz(key as int) as u32 / 2) as u32,
            amplitude: velocity_amplitude_spec(velocity as int) as i64,
            attack: crate::note::DEFAULT_ATTACK_MS,
            decay: crate::note::DEFAULT_DECAY_MS,
            sustain: crate::note::DEFAULT_SUSTAIN,
            release: crate::note::DEFAULT_RELEASE_MS,
            filter_cutoff: crate::note::DEFAULT_FILTER_CUTOFF,
            filter_resonance: crate::note::DEFAULT_FILTER_RESONANCE,
        },
        sounding: true,
    }
}

/// The per-key voice registry: for each key number, the primary and
/// secondary layer's active note, if any.
pub struct VoiceRegistry {
    /// Primary-layer notes, indexed by key number.
    pub primary: Vec<Option<Note>>,
    /// Secondary-layer notes, indexed by key number.
    pub secondary: Vec<Option<Note>>,
}

impl VoiceRegistry {
    /// Both layers cover every key, and a key is active in one layer
    /// exactly when it is active in the other, since note-on registers
    /// both layers together.
    pub open spec fn wf(self) -> bool {
        &&& self.primary@.len() == KEY_COUNT
        &&& self.secondary@.len() == KEY_COUNT
        &&& forall|k: int|
            0 <= k < KEY_COUNT ==> (#[trigger] self.primary@[k] is Some <==> #[trigger] self
                .secondary@[k] is Some)
    }

    /// Whether a key has an active note.
    pub open spec fn active(self, key: u8) -> bool {
        self.primary@[key as int] is Some
    }

    /// Creates a registry with no active notes.
    pub fn new() -> (r: VoiceRegistry)
        ensures
            r.wf(),
            forall|k: int| 0 <= k < KEY_COUNT ==> #[trigger] r.primary@[k] is None,
            forall|k: int| 0 <= k < KEY_COUNT ==> #[trigger] r.secondary@[k] is None,
    {
        let mut primary: Vec<Option<Note>> = Vec::new();
        let mut secondary: Vec<Option<Note>> = Vec::new();
        let mut k: usize = 0;
        while k < KEY_COUNT
            invariant
                k <= KEY_COUNT,
                primary@.len() == k,
                secondary@.len() == k,
                forall|i: int| 0 <= i < k ==> #[trigger] primary@[i] is None,
                forall|i: int| 0 <= i < k ==> #[trigger] secondary@[i] is None,
            decreases KEY_COUNT - k,
        {
            primary.push(None);
            secondary.push(None);
            k = k + 1;
        }
        VoiceRegistry { primary, secondary }
    }

    /// Handles a note-on: creates the primary and the detuned secondary
    /// note for the key and registers both, replacing whatever the key
    /// held.  Other keys are untouched.
    pub fn note_on(&mut self, key: u8, velocity: u8) -> (notes: (Note, Note))
        requires
            old(self).wf(),
            key < 128,
            velocity < 128,
        ensures
            final(self).wf(),
            notes.0 == primary_note_spec(key, velocity),
            notes.1 == secondary_note_spec(key, velocity),
            final(self).primary@ == old(self).primary@.update(
                key as int,
                Some(primary_note_spec(key, velocity)),
            ),
            final(self).secondary@ == old(self).secondary@.update(
                key as int,
                Some(secondary_note_spec(key, velocity)),
            ),
    {
        let frequency = midi_note_freq_mhz(key);
        let amplitude = velocity_amplitude(velocity);
        let primary = Note::new(WAVE_TYPE_SAW, frequency, amplitude, 0);
        let secondary = Note::new(WAVE_TYPE_SQUARE, frequency / 2, amplitude, SECONDARY_PULSE_WIDTH);
        self.primary[key as usize] = Some(primary);
        self.secondary[key as usize] = Some(secondary);
        (primary, secondary)
    }

    /// Handles a note-off: removes the key's notes from both layers and
    /// stops them, returning the stopped pair.  A key with no active note
    /// is a protocol mismatch: the error is reported and the registry is
    /// unchanged.
    pub fn note_off(&mut self, key: u8) -> (r: Result<(Note, Note), SynthError>)
        requires
            old(self).wf(),
            key < 128,
        ensures
            final(self).wf(),
            old(self).active(key) ==> {
                &&& r matches Ok((p, s))
                    && old(self).primary@[key as int] matches Some(po)
                    && old(self).secondary@[key as int] matches Some(so)
                    && p == crate::note::stopped(po)
                    && s == crate::note::stopped(so)
                &&& final(self).primary@ == old(self).primary@.update(key as int, None::<Note>)
                &&& final(self).secondary@ == old(self).secondary@.update(key as int, None::<Note>)
            },
            !old(self).active(key) ==> {
                &&& r == Result::<(Note, Note), SynthError>::Err(SynthError::ProtocolMismatch)
                &&& *final(self) == *old(self)
            },
    {
        let slot = self.primary[key as usize].is_some();
        if !slot {
            return Err(SynthError::ProtocolMismatch);
        }
        let taken_primary: Option<Note> = self.primary[key as usize];
        let taken_secondary: Option<Note> = self.secondary[key as usize];
        self.primary[key as usize] = None;
        self.secondary[key as usize] = None;
        match (taken_primary, taken_secondary) {
            (Some(mut p), Some(mut s)) => {
                p.stop();
                s.stop();
                Ok((p, s))
            },
            _ => Err(SynthError::ProtocolMismatch),
        }
    }

    /// Dispatches one decoded event: a note-on registers a layered pair,
    /// a note-off removes and stops the key's pair, and a note-off for an
    /// inactive key reports the protocol mismatch.
    pub fn dispatch(&mut self, event: NoteEvent) -> (r: Result<(), SynthError>)
        requires
            old(self).wf(),
            event matches NoteEvent::On { key, velocity } ==> key < 128 && velocity < 128,
            event matches NoteEvent::Off { key } ==> key < 128,
        ensures
            final(self).wf(),
            event matches NoteEvent::On { key, velocity } ==> r is Ok && final(self).primary@
                == old(self).primary@.update(key as int, Some(primary_note_spec(key, velocity)))
                && final(self).secondary@ == old(self).secondary@.update(
                key as int,
                Some(secondary_note_spec(key, velocity)),
            ),
            event matches NoteEvent::Off { key } ==> (if old(self).active(key) {
                r is Ok && final(self).primary@ == old(self).primary@.update(
                    key as int,
                    None::<Note>,
                ) && final(self).secondary@ == old(self).secondary@.update(key as int, None::<Note>)
            } else {
                r == Result::<(), SynthError>::Err(SynthError::ProtocolMismatch) && *final(self)
                    == *old(self)
            }),
    {
        match event {
            NoteEvent::On { key, velocity } => {
                self.note_on(key, velocity);
                Ok(())
            },
            NoteEvent::Off { key } => {
                match self.note_off(key) {
                    Ok(_) => Ok(()),
                    Err(e) => Err(e),
                }
            },
        }
    }
}

} // verus!
