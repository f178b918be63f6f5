//! The lifecycle of one sounding note.
//!
//! A [`Note`] owns the parameters of one sounding pitch and the flag that
//! is shared with the note's sample-production activity.  Creating a note
//! fixes the envelope and filter defaults and raises the flag; stopping it
//! clears the flag, which the production activity observes between
//! samples to begin the release ramp.  The activity itself lives outside
//! the engine: it builds its oscillator with
//! [`Note::configure_oscillator`], delivers samples to the audio sink,
//! and keeps running for [`Note::release_wait_ms`] after the flag clears
//! so the release tail is never truncated.

use crate::fixed::SCALE;
use crate::oscillator::{increment_for, WavetableOscillator};
use crate::wavetable::{selected_sample, TABLE_LEN};
use vstd::prelude::*;

verus! {

/// Default attack time for a new note, in milliseconds.
pub const DEFAULT_ATTACK_MS: u16 = 100;

/// Default decay time for a new note, in milliseconds.
pub const DEFAULT_DECAY_MS: u16 = 100;

/// Default sustain level for a new note, as a fixed-point fraction.
pub const DEFAULT_SUSTAIN: i64 = 3_000;

/// Default release time for a new note, in milliseconds.
pub const DEFAULT_RELEASE_MS: u16 = 300;

/// Default filter cutoff for a new note, as a fixed-point fraction.
pub const DEFAULT_FILTER_CUTOFF: i64 = 2_000;

/// Default filter resonance for a new note, as a fixed-point fraction.
pub const DEFAULT_FILTER_RESONANCE: i64 = 10_000;

/// Extra time the production activity keeps running after the release has
/// elapsed, so the audible tail is never cut short.
pub const RELEASE_SAFETY_MARGIN_MS: u64 = 300;

/// The parameters one sounding note is configured with.
#[derive(Clone, Copy)]
pub struct NoteParameters {
    /// Oscillator frequency in millihertz.
    pub frequency_mhz: u32,
    /// Gain derived from the note's velocity, a fixed-point fraction.
    pub amplitude: i64,
    /// Attack time in milliseconds.
    pub attack: u16,
    /// Decay time in milliseconds.
    pub decay: u16,
    /// Sustain level as a fixed-point fraction of the peak.
    pub sustain: i64,
    /// Release time in milliseconds.
    pub release: u16,
    /// Filter cutoff, a fixed-point fraction.
    pub filter_cutoff: i64,
    /// Filter resonance, a fixed-point fraction.
    pub filter_resonance: i64,
}

impl NoteParameters {
    /// All fractional parameters are in range.
    pub open spec fn wf(self) -> bool {
        &&& 0 <= self.amplitude <= SCALE
        &&& 0 <= self.sustain <= SCALE
        &&& 0 <= self.filter_cutoff < SCALE
        &&& 0 <= self.filter_resonance <= SCALE
    }

    /// Bundles the parameters of one note.
    pub fn new(
        frequency_mhz: u32,
        amplitude: i64,
        attack: u16,
        decay: u16,
        sustain: i64,
        release: u16,
        filter_cutoff: i64,
        filter_resonance: i64,
    ) -> (p: NoteParameters)
        requires
            0 <= amplitude <= SCALE,
            0 <= sustain <= SCALE,
            0 <= filter_cutoff < SCALE,
            0 <= filter_resonance <= SCALE,
        ensures
            p == (NoteParameters {
                frequency_mhz,
                amplitude,
                attack,
                decay,
                sustain,
                release,
                filter_cutoff,
                filter_resonance,
            }),
            p.wf(),
    {
        NoteParameters {
            frequency_mhz,
            amplitude,
            attack,
            decay,
            sustain,
            release,
            filter_cutoff,
            filter_resonance,
        }
    }
}

/// One sounding pitch: its waveform, its parameters, and the sounding
/// flag shared with its production activity.
#[derive(Clone, Copy)]
pub struct Note {
    /// Waveform selector for the note's wavetable.
    pub wave_table_type: u8,
    /// Pulse width for a square wavetable, a fixed-point fraction.
    pub pulse_width: i64,
    /// The note's envelope, gain and filter parameters.
    pub parameters: NoteParameters,
    /// True until the note is stopped; the production activity reads this
    /// between samples.
    pub sounding: bool,
}

/// The state a note reaches when it is stopped: the flag cleared,
/// everything else untouched.
pub open spec fn stopped(n: Note) -> Note {
    Note { sounding: false, ..n }
}

/// Stopping is idempotent: a second stop leaves exactly the state the
/// first one reached.
pub proof fn lemma_stop_idempotent(n: Note)
    ensures
        stopped(stopped(n)) == stopped(n),
{
}

impl Note {
    /// The parameters are in range.
    pub open spec fn wf(self) -> bool {
        &&& self.parameters.wf()
        &&& 0 <= self.pulse_width <= SCALE
    }

    /// Creates a sounding note with the default envelope and filter
    /// settings.
    pub fn new(wave_table_type: u8, frequency_mhz: u32, amplitude: i64, pulse_width: i64) -> (n:
        Note)
        requires
            0 <= amplitude <= SCALE,
            0 <= pulse_width <= SCALE,
        ensures
            n.wf(),
            n.sounding,
            n.wave_table_type == wave_table_type,
            n.pulse_width == pulse_width,
            n.parameters == (NoteParameters {
                frequency_mhz,
                amplitude,
                attack: DEFAULT_ATTACK_MS,
                decay: DEFAULT_DECAY_MS,
                sustain: DEFAULT_SUSTAIN,
                release: DEFAULT_RELEASE_MS,
                filter_cutoff: DEFAULT_FILTER_CUTOFF,
                filter_resonance: DEFAULT_FILTER_RESONANCE,
            }),
    {
        let parameters = NoteParameters::new(
            frequency_mhz,
            amplitude,
            DEFAULT_ATTACK_MS,
            DEFAULT_DECAY_MS,
            DEFAULT_SUSTAIN,
            DEFAULT_RELEASE_MS,
            DEFAULT_FILTER_CUTOFF,
            DEFAULT_FILTER_RESONANCE,
        );
        Note { wave_table_type, pulse_width, parameters, sounding: true }
    }

    /// Clears the sounding flag; the production activity begins its
    /// release on observing it.  Stopping an already stopped note changes
    /// nothing.
    pub fn stop(&mut self)
        ensures
            *final(self) == stopped(*old(self)),
    {
        self.sounding = false;
    }

    /// Builds the oscillator the note's production activity plays: the
    /// note's wavetable and pulse width, its frequency, gain, envelope and
    /// filter settings, sounding from the given instant.
    pub fn configure_oscillator(&self, sample_rate: u32, now_ms: u64) -> (o: WavetableOscillator)
        requires
            self.wf(),
            sample_rate >= 1,
        ensures
            o.wf(),
            o.note_on,
            o.note_on_time == now_ms,
            o.sample_rate == sample_rate,
            o.phase == 0,
            o.phase_increment == increment_for(
                self.parameters.frequency_mhz as int,
                sample_rate as int,
            ),
            o.amplitude == self.parameters.amplitude,
            o.attack == self.parameters.attack,
            o.decay == self.parameters.decay,
            o.sustain == self.parameters.sustain,
            o.release == self.parameters.release,
            o.held_release_amplitude == 0,
            o.filter.cutoff == self.parameters.filter_cutoff,
            o.filter.resonance == self.parameters.filter_resonance,
            forall|i: int|
                0 <= i < TABLE_LEN ==> #[trigger] o.wave_table.samples@[i] == selected_sample(
                    self.wave_table_type,
                    self.pulse_width as int,
                    i,
                ),
    {
        let mut oscillator = WavetableOscillator::new(
            sample_rate,
            self.wave_table_type,
            self.parameters.filter_cutoff,
            self.parameters.filter_resonance,
            self.pulse_width,
            now_ms,
        );
        oscillator.set_frequency(self.parameters.frequency_mhz);
        oscillator.set_amplitude(self.parameters.amplitude);
        oscillator.set_attack(self.parameters.attack);
        oscillator.set_decay(self.parameters.decay);
        oscillator.set_sustain(self.parameters.sustain);
        oscillator.set_release(self.parameters.release);
        oscillator
    }

    /// How long the production activity must keep running after the
    /// sounding flag clears: the release time plus a safety margin.
    pub fn release_wait_ms(&self) -> (ms: u64)
        ensures
            ms == self.parameters.release + RELEASE_SAFETY_MARGIN_MS,
    {
        self.parameters.release as u64 + RELEASE_SAFETY_MARGIN_MS
    }
}

} // verus!
