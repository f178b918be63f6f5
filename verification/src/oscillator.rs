//! The wavetable oscillator: one sounding voice's synthesis state.
//!
//! An oscillator owns a wavetable, a fractional phase accumulator, the
//! envelope parameters and a smoothing filter.  Each [`WavetableOscillator::next`]
//! call produces one sample: the wavetable is read by linear interpolation
//! at the current phase, the phase advances by the frequency-derived
//! increment and wraps, the envelope amplitude for the current instant is
//! computed, the raw sample is smoothed by the filter, and the result is
//! the envelope times the smoothed sample.  Phase is a fixed-point index:
//! [`PHASE_ONE`] stands for one table slot.

use crate::envelope::{
    attack_decay_sustain_amplitude, envelope_off, envelope_on, release_amplitude,
};
use crate::filter::{filter_step, Filter};
use crate::fixed::{
    div_trunc, lemma_div_trunc_bound, lemma_div_trunc_multiple, lemma_scaled_bound, scaled_mul,
    scaled_spec, SCALE,
};
use crate::wavetable::{selected_sample, wavetable_for, WaveTable, TABLE_LEN};
use vstd::arithmetic::div_mod::{
    lemma_div_is_ordered, lemma_div_is_ordered_by_denominator, lemma_div_pos_is_pos,
    lemma_mod_division_less_than_divisor,
};
use vstd::prelude::*;

verus! {

/// One table slot of phase, in fixed-point phase units.
pub const PHASE_ONE: i64 = 1_000_000;

/// One full cycle of phase: the table length in phase units.
pub const TABLE_SPAN: i64 = 64 * 1_000_000;

/// Upper bound on a phase increment, wide enough for any `u32` frequency
/// in millihertz at any nonzero sample rate.
pub const MAX_PHASE_INCREMENT: i64 = 300_000_000_000_000;

/// Linear interpolation between the two table entries bracketing `phase`:
/// the entry at the truncated index weighted by the remaining fraction,
/// plus the next entry (wrapping) weighted by the fractional part.
pub open spec fn lerp_spec(table: Seq<i64>, phase: int) -> int
    recommends
        table.len() == TABLE_LEN,
        0 <= phase < TABLE_SPAN,
{
    let idx = phase / (PHASE_ONE as int);
    let frac = phase % (PHASE_ONE as int);
    div_trunc(
        ((PHASE_ONE as int) - frac) * table[idx] + frac * table[(idx + 1) % (TABLE_LEN as int)],
        PHASE_ONE as int,
    )
}

/// At a whole-slot phase the interpolation is exact: it returns the table
/// entry at that slot, unchanged.
pub proof fn lemma_lerp_exact_at_index(table: Seq<i64>, phase: int)
    requires
        table.len() == TABLE_LEN,
        0 <= phase < TABLE_SPAN,
        phase % (PHASE_ONE as int) == 0,
    ensures
        lerp_spec(table, phase) == table[phase / (PHASE_ONE as int)],
{
    let idx = phase / (PHASE_ONE as int);
    lemma_div_pos_is_pos(phase, PHASE_ONE as int);
    assert(((PHASE_ONE as int) - 0) * table[idx] + 0 * table[(idx + 1) % (TABLE_LEN as int)] == (
    PHASE_ONE as int) * table[idx]);
    lemma_div_trunc_multiple(table[idx] as int, PHASE_ONE as int);
}

/// The frequency-derived phase increment: `frequency * TABLE_LEN /
/// sample_rate` table slots per sample, in phase units, with the
/// frequency given in millihertz.
pub open spec fn increment_for(frequency_mhz: int, sample_rate: int) -> int
    recommends
        sample_rate > 0,
{
    (frequency_mhz * (TABLE_SPAN as int)) / (sample_rate * 1000)
}

/// The wavetable oscillator.
pub struct WavetableOscillator {
    /// True while the note sounds, before its release begins.
    pub note_on: bool,
    /// Clock reading at note-on, in milliseconds.
    pub note_on_time: u64,
    /// Clock reading at note-off; meaningful once `note_on` is false.
    pub note_off_time: u64,
    /// Output sample rate in hertz.
    pub sample_rate: u32,
    /// The one-cycle wavetable read by `next`.
    pub wave_table: WaveTable,
    /// Fractional index into the wavetable, in phase units.
    pub phase: i64,
    /// Phase advance per sample, in phase units.
    pub phase_increment: i64,
    /// Static gain, a fixed-point fraction.
    pub amplitude: i64,
    /// The last envelope amplitude computed while the note was on; the
    /// release ramp starts from this value.
    pub held_release_amplitude: i64,
    /// Attack time in milliseconds.
    pub attack: u16,
    /// Decay time in milliseconds.
    pub decay: u16,
    /// Sustain level as a fixed-point fraction of the peak.
    pub sustain: i64,
    /// Release time in milliseconds.
    pub release: u16,
    /// The per-voice smoothing filter.
    pub filter: Filter,
}

impl WavetableOscillator {
    /// The oscillator's invariant: the table and filter are well formed,
    /// the phase lies inside one cycle, and every amplitude-like field is
    /// an in-range fraction.
    pub open spec fn wf(self) -> bool {
        &&& self.wave_table.wf()
        &&& self.filter.wf()
        &&& 0 <= self.phase < TABLE_SPAN
        &&& 0 <= self.phase_increment <= MAX_PHASE_INCREMENT
        &&& 0 <= self.amplitude <= SCALE
        &&& 0 <= self.sustain <= SCALE
        &&& 0 <= self.held_release_amplitude <= SCALE
        &&& self.sample_rate >= 1
    }

    /// The envelope amplitude `next` will apply, given the clock reading
    /// and the shared sounding flag: the on-envelope while the note stays
    /// on, and the release ramp (starting at this very instant on the
    /// transition) once it does not.
    pub open spec fn next_envelope(self, now_ms: int, sounding: bool) -> int {
        if self.note_on && sounding {
            envelope_on(
                self.amplitude as int,
                self.attack as int,
                self.decay as int,
                self.sustain as int,
                now_ms - self.note_on_time,
            )
        } else if self.note_on {
            envelope_off(self.held_release_amplitude as int, self.release as int, 0)
        } else {
            envelope_off(
                self.held_release_amplitude as int,
                self.release as int,
                now_ms - self.note_off_time,
            )
        }
    }

    /// The raw wavetable sample `next` will read at the current phase.
    pub open spec fn next_raw(self) -> int {
        lerp_spec(self.wave_table.samples@, self.phase as int)
    }

    /// The smoothed sample: the raw sample passed through both filter
    /// stages.
    pub open spec fn next_filtered(self) -> int {
        filter_step(
            self.filter.buf1 as int,
            self.filter.cutoff as int,
            filter_step(self.filter.buf0 as int, self.filter.cutoff as int, self.next_raw()),
        )
    }

    /// The sample `next` will return: the envelope amplitude times the
    /// smoothed sample, as a fixed-point product.
    pub open spec fn next_sample(self, now_ms: int, sounding: bool) -> int {
        scaled_spec(self.next_envelope(now_ms, sounding), self.next_filtered())
    }

    /// Creates an oscillator over the wavetable the selector picks, at
    /// phase zero, sounding from the given instant, with full gain, a
    /// zero envelope and a fresh filter.
    pub fn new(
        sample_rate: u32,
        wave_table_type: u8,
        filter_cutoff: i64,
        filter_resonance: i64,
        pulse_width: i64,
        now_ms: u64,
    ) -> (o: WavetableOscillator)
        requires
            sample_rate >= 1,
            0 <= filter_cutoff < SCALE,
            0 <= filter_resonance <= SCALE,
            0 <= pulse_width <= SCALE,
        ensures
            o.wf(),
            o.note_on,
            o.note_on_time == now_ms,
            o.note_off_time == now_ms,
            o.sample_rate == sample_rate,
            o.phase == 0,
            o.phase_increment == 0,
            o.amplitude == SCALE,
            o.held_release_amplitude == 0,
            o.attack == 0,
            o.decay == 0,
            o.sustain == 0,
            o.release == 0,
            forall|i: int|
                0 <= i < TABLE_LEN ==> #[trigger] o.wave_table.samples@[i] == selected_sample(
                    wave_table_type,
                    pulse_width as int,
                    i,
                ),
            o.filter.cutoff == filter_cutoff,
            o.filter.resonance == filter_resonance,
            o.filter.feedback == 0,
            o.filter.buf0 == 0,
            o.filter.buf1 == SCALE,
    {
        WavetableOscillator {
            note_on: true,
            note_on_time: now_ms,
            note_off_time: now_ms,
            sample_rate,
            wave_table: wavetable_for(wave_table_type, pulse_width),
            phase: 0,
            phase_increment: 0,
            amplitude: SCALE,
            held_release_amplitude: 0,
            attack: 0,
            decay: 0,
            sustain: 0,
            release: 0,
            filter: Filter::new(filter_cutoff, filter_resonance, 0),
        }
    }

    /// Sets the attack time in milliseconds.
    pub fn set_attack(&mut self, attack: u16)
        requires
            old(self).wf(),
        ensures
            final(self).wf(),
            *final(self) == (WavetableOscillator { attack, ..*old(self) }),
    {
        self.attack = attack;
    }

    /// Sets the decay time in milliseconds.
    pub fn set_decay(&mut self, decay: u16)
        requires
            old(self).wf(),
        ensures
            final(self).wf(),
            *final(self) == (WavetableOscillator { decay, ..*old(self) }),
    {
        self.decay = decay;
    }

    /// Sets the sustain level as a fixed-point fraction of the peak.
    pub fn set_sustain(&mut self, sustain: i64)
        requires
            old(self).wf(),
            0 <= sustain <= SCALE,
        ensures
            final(self).wf(),
            *final(self) == (WavetableOscillator { sustain, ..*old(self) }),
    {
        self.sustain = sustain;
    }

    /// Sets the release time in milliseconds.
    pub fn set_release(&mut self, release: u16)
        requires
            old(self).wf(),
        ensures
            final(self).wf(),
            *final(self) == (WavetableOscillator { release, ..*old(self) }),
    {
        self.release = release;
    }

    /// Derives the phase increment from a frequency in millihertz.
    pub fn set_frequency(&mut self, frequency_mhz: u32)
        requires
            old(self).wf(),
        ensures
            final(self).wf(),
            *final(self) == (WavetableOscillator {
                phase_increment: increment_for(
                    frequency_mhz as int,
                    old(self).sample_rate as int,
                ) as i64,
                ..*old(self)
            }),
    {
        let numerator: i64 = (frequency_mhz as i64) * TABLE_SPAN;
        let denominator: i64 = (self.sample_rate as i64) * 1000;
        proof {
            lemma_div_pos_is_pos(numerator as int, denominator as int);
            lemma_div_is_ordered_by_denominator(numerator as int, 1000, denominator as int);
            lemma_div_is_ordered(numerator as int, 274_877_906_880_000_000, 1000);
        }
        self.phase_increment = numerator / denominator;
    }

    /// Sets the static gain, a fixed-point fraction.
    pub fn set_amplitude(&mut self, amplitude: i64)
        requires
            old(self).wf(),
            0 <= amplitude <= SCALE,
        ensures
            final(self).wf(),
            *final(self) == (WavetableOscillator { amplitude, ..*old(self) }),
    {
        self.amplitude = amplitude;
    }

    /// Marks the note sounding or released; a release records the instant
    /// it began.
    pub fn set_note_on(&mut self, note_on: bool, now_ms: u64)
        requires
            old(self).wf(),
        ensures
            final(self).wf(),
            *final(self) == (WavetableOscillator {
                note_on,
                note_off_time: if !note_on {
                    now_ms
                } else {
                    old(self).note_off_time
                },
                ..*old(self)
            }),
    {
        self.note_on = note_on;
        if !note_on {
            self.note_off_time = now_ms;
        }
    }

    /// Reads the wavetable at the current phase by linear interpolation.
    pub fn lerp(&self) -> (s: i64)
        requires
            self.wf(),
        ensures
            s == lerp_spec(self.wave_table.samples@, self.phase as int),
            -SCALE <= s <= SCALE,
    {
        let truncated_index: usize = (self.phase / PHASE_ONE) as usize;
        let next_index: usize = (truncated_index + 1) % TABLE_LEN;
        let next_weight: i64 = self.phase % PHASE_ONE;
        let truncated_weight: i64 = PHASE_ONE - next_weight;
        proof {
            lemma_div_pos_is_pos(self.phase as int, PHASE_ONE as int);
            lemma_div_is_ordered(self.phase as int, TABLE_SPAN - 1, PHASE_ONE as int);
            lemma_mod_division_less_than_divisor(self.phase as int, PHASE_ONE as int);
        }
        let t0: i64 = self.wave_table.samples[truncated_index];
        let t1: i64 = self.wave_table.samples[next_index];
        proof {
            assert(-10_000_000_000 <= truncated_weight * t0 <= 10_000_000_000
                && -10_000_000_000 <= next_weight * t1 <= 10_000_000_000
                && -10_000_000_000 <= truncated_weight * t0 + next_weight * t1
                <= 10_000_000_000) by (nonlinear_arith)
                requires
                    0 <= next_weight <= 1_000_000,
                    truncated_weight == 1_000_000 - next_weight,
                    -10_000 <= t0 <= 10_000,
                    -10_000 <= t1 <= 10_000,
            ;
            lemma_div_trunc_bound(
                (truncated_weight * t0 + next_weight * t1) as int,
                PHASE_ONE as int,
                SCALE as int,
            );
        }
        (truncated_weight * t0 + next_weight * t1) / PHASE_ONE
    }

    /// Computes the envelope amplitude for the given instant and, while
    /// the note is on, records it as the value a later release will ramp
    /// down from.
    pub fn get_amplitude(&mut self, now_ms: u64) -> (amp: i64)
        requires
            old(self).wf(),
            old(self).note_on ==> now_ms >= old(self).note_on_time,
            !old(self).note_on ==> now_ms >= old(self).note_off_time,
        ensures
            final(self).wf(),
            old(self).note_on ==> {
                &&& amp == envelope_on(
                    old(self).amplitude as int,
                    old(self).attack as int,
                    old(self).decay as int,
                    old(self).sustain as int,
                    now_ms - old(self).note_on_time,
                )
                &&& *final(self) == (WavetableOscillator {
                    held_release_amplitude: amp,
                    ..*old(self)
                })
                &&& 0 <= amp <= old(self).amplitude
            },
            !old(self).note_on ==> {
                &&& amp == envelope_off(
                    old(self).held_release_amplitude as int,
                    old(self).release as int,
                    now_ms - old(self).note_off_time,
                )
                &&& *final(self) == *old(self)
                &&& 0 <= amp <= old(self).held_release_amplitude
            },
    {
        if self.note_on {
            let amp = attack_decay_sustain_amplitude(
                self.amplitude,
                self.attack,
                self.decay,
                self.sustain,
                now_ms - self.note_on_time,
            );
            self.held_release_amplitude = amp;
            amp
        } else {
            release_amplitude(
                self.held_release_amplitude,
                self.release,
                now_ms - self.note_off_time,
            )
        }
    }

    /// Produces one output sample for the given clock reading and shared
    /// sounding flag.  A cleared flag begins the release at this instant;
    /// the wavetable is read at the current phase, the phase advances and
    /// wraps, and the envelope-scaled, filtered sample is returned.  The
    /// output magnitude never exceeds the envelope amplitude, and so
    /// never exceeds the gain while the note sounds, nor the held
    /// amplitude once it is released.
    pub fn next(&mut self, now_ms: u64, sounding: bool) -> (out: i64)
        requires
            old(self).wf(),
            now_ms >= old(self).note_on_time,
            !old(self).note_on ==> now_ms >= old(self).note_off_time,
        ensures
            final(self).wf(),
            out == old(self).next_sample(now_ms as int, sounding),
            final(self).note_on == (old(self).note_on && sounding),
            final(self).note_off_time == if old(self).note_on && !sounding {
                now_ms as int
            } else {
                old(self).note_off_time as int
            },
            final(self).phase == (old(self).phase + old(self).phase_increment) % (
            TABLE_SPAN as int),
            0 <= final(self).phase < TABLE_SPAN,
            final(self).held_release_amplitude == if old(self).note_on && sounding {
                old(self).next_envelope(now_ms as int, sounding)
            } else {
                old(self).held_release_amplitude as int
            },
            final(self).filter.buf0 == filter_step(
                old(self).filter.buf0 as int,
                old(self).filter.cutoff as int,
                old(self).next_raw(),
            ),
            final(self).filter.buf1 == old(self).next_filtered(),
            final(self).note_on_time == old(self).note_on_time,
            final(self).phase_increment == old(self).phase_increment,
            final(self).amplitude == old(self).amplitude,
            final(self).attack == old(self).attack,
            final(self).decay == old(self).decay,
            final(self).sustain == old(self).sustain,
            final(self).release == old(self).release,
            final(self).sample_rate == old(self).sample_rate,
            final(self).wave_table == old(self).wave_table,
            final(self).filter.cutoff == old(self).filter.cutoff,
            -(old(self).next_envelope(now_ms as int, sounding)) <= out <= old(self).next_envelope(
                now_ms as int,
                sounding,
            ),
            old(self).note_on && sounding ==> -old(self).amplitude <= out <= old(self).amplitude,
            !(old(self).note_on && sounding) ==> -old(self).held_release_amplitude <= out <= old(
                self,
            ).held_release_amplitude,
    {
        if self.note_on && !sounding {
            self.set_note_on(false, now_ms);
        }
        let sample = self.lerp();
        proof {
            lemma_mod_division_less_than_divisor(
                (self.phase + self.phase_increment) as int,
                TABLE_SPAN as int,
            );
        }
        self.phase = (self.phase + self.phase_increment) % TABLE_SPAN;
        let ampl = self.get_amplitude(now_ms);
        let filtered = self.filter.process(sample);
        proof {
            lemma_scaled_bound(ampl as int, filtered as int, ampl as int);
        }
        scaled_mul(ampl, filtered)
    }
}

} // verus!
