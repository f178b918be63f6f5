//! The attack/decay/sustain/release amplitude envelope.
//!
//! The envelope turns elapsed wall-clock time into an amplitude
//! multiplier.  While a note sounds, the amplitude ramps linearly from
//! silence to the peak over the attack time, ramps down to the sustain
//! level over the decay time, and then holds.  After note-off it ramps
//! linearly from the amplitude held at that instant down to silence over
//! the release time, and stays silent.  Times are in milliseconds;
//! amplitudes and the sustain fraction are fixed-point fractions.

use crate::fixed::{lemma_div_bound_nonneg, lemma_div_mono, SCALE};
use vstd::arithmetic::div_mod::lemma_div_multiples_vanish;
use vstd::prelude::*;

verus! {

/// The sustain level: the peak amplitude scaled by the sustain fraction.
pub open spec fn sustain_level(amplitude: int, sustain: int) -> int {
    (amplitude * sustain) / (SCALE as int)
}

/// Envelope amplitude while the note sounds, `t` milliseconds after
/// note-on: the attack ramp, then the decay ramp, then the sustain hold.
pub open spec fn envelope_on(amplitude: int, attack: int, decay: int, sustain: int, t: int) -> int {
    let peak = if attack > 0 && t < attack {
        (amplitude * t) / attack
    } else {
        amplitude
    };
    if t > attack {
        if decay > 0 && t - attack < decay {
            amplitude - ((amplitude - sustain_level(amplitude, sustain)) * (t - attack)) / decay
        } else {
            sustain_level(amplitude, sustain)
        }
    } else {
        peak
    }
}

/// Envelope amplitude `t` milliseconds after note-off: a linear ramp from
/// the amplitude held at note-off down to silence over the release time.
pub open spec fn envelope_off(held: int, release: int, t: int) -> int {
    if release > 0 && t < release {
        (held * (release - t)) / release
    } else {
        0
    }
}

/// The sustain level never exceeds the peak amplitude.
pub proof fn lemma_sustain_level_bounds(amplitude: int, sustain: int)
    requires
        0 <= amplitude,
        0 <= sustain <= SCALE,
    ensures
        0 <= sustain_level(amplitude, sustain) <= amplitude,
{
    assert(0 <= amplitude * sustain <= amplitude * (SCALE as int)) by (nonlinear_arith)
        requires
            0 <= amplitude,
            0 <= sustain <= SCALE,
    ;
    lemma_div_bound_nonneg(amplitude * sustain, SCALE as int, amplitude);
}

/// While the note sounds the envelope stays between silence and the peak
/// amplitude.
pub proof fn lemma_envelope_on_bounds(amplitude: int, attack: int, decay: int, sustain: int, t: int)
    requires
        0 <= amplitude,
        0 <= attack,
        0 <= decay,
        0 <= sustain <= SCALE,
        0 <= t,
    ensures
        0 <= envelope_on(amplitude, attack, decay, sustain, t) <= amplitude,
{
    lemma_sustain_level_bounds(amplitude, sustain);
    let level = sustain_level(amplitude, sustain);
    if attack > 0 && t < attack {
        assert(0 <= amplitude * t <= amplitude * attack) by (nonlinear_arith)
            requires
                0 <= amplitude,
                0 <= t <= attack,
        ;
        lemma_div_bound_nonneg(amplitude * t, attack, amplitude);
    }
    if t > attack && decay > 0 && t - attack < decay {
        assert(0 <= (amplitude - level) * (t - attack) <= (amplitude - level) * decay)
            by (nonlinear_arith)
            requires
                0 <= amplitude - level,
                0 <= t - attack <= decay,
        ;
        lemma_div_bound_nonneg((amplitude - level) * (t - attack), decay, amplitude - level);
    }
}

/// After note-off the envelope stays between silence and the held
/// amplitude.
pub proof fn lemma_envelope_off_bounds(held: int, release: int, t: int)
    requires
        0 <= held,
        0 <= release,
        0 <= t,
    ensures
        0 <= envelope_off(held, release, t) <= held,
{
    if release > 0 && t < release {
        assert(0 <= held * (release - t) <= held * release) by (nonlinear_arith)
            requires
                0 <= held,
                0 <= release - t <= release,
        ;
        lemma_div_bound_nonneg(held * (release - t), release, held);
    }
}

/// The attack starts in silence, reaches the peak amplitude exactly when
/// the attack time has elapsed, and the envelope sits at the sustain
/// level from the end of the decay on, for as long as the note sounds.
pub proof fn lemma_envelope_on_shape(amplitude: int, attack: int, decay: int, sustain: int, t: int)
    requires
        0 <= amplitude,
        0 <= attack,
        0 <= decay,
        0 <= sustain <= SCALE,
        0 <= t,
    ensures
        attack > 0 && t == 0 ==> envelope_on(amplitude, attack, decay, sustain, t) == 0,
        attack > 0 && t == attack ==> envelope_on(amplitude, attack, decay, sustain, t)
            == amplitude,
        t > attack && t >= attack + decay ==> envelope_on(amplitude, attack, decay, sustain, t)
            == sustain_level(amplitude, sustain),
{
    if attack > 0 && t == 0 {
        assert(amplitude * 0 == 0) by (nonlinear_arith);
        vstd::arithmetic::div_mod::lemma_div_of0(attack);
    }
}

/// Between the attack peak and the end of the decay, the envelope is the
/// linear interpolation between the peak and the sustain level, and so
/// lies between the two.
pub proof fn lemma_envelope_decay_range(
    amplitude: int,
    attack: int,
    decay: int,
    sustain: int,
    t: int,
)
    requires
        0 <= amplitude,
        0 <= attack,
        0 < decay,
        0 <= sustain <= SCALE,
        attack < t < attack + decay,
    ensures
        sustain_level(amplitude, sustain) <= envelope_on(amplitude, attack, decay, sustain, t)
            <= amplitude,
        envelope_on(amplitude, attack, decay, sustain, t) == amplitude - ((amplitude
            - sustain_level(amplitude, sustain)) * (t - attack)) / decay,
{
    lemma_sustain_level_bounds(amplitude, sustain);
    let level = sustain_level(amplitude, sustain);
    assert(0 <= (amplitude - level) * (t - attack) <= (amplitude - level) * decay)
        by (nonlinear_arith)
        requires
            0 <= amplitude - level,
            0 <= t - attack <= decay,
    ;
    lemma_div_bound_nonneg((amplitude - level) * (t - attack), decay, amplitude - level);
}

/// After note-off the envelope starts at exactly the held amplitude,
/// follows the linear release ramp while the release lasts, never rises
/// as time passes, and is exactly silent from the release time on.
pub proof fn lemma_envelope_release_shape(held: int, release: int, t1: int, t2: int)
    requires
        0 <= held,
        0 <= release,
        0 <= t1 <= t2,
    ensures
        release > 0 ==> envelope_off(held, release, 0) == held,
        t1 < release ==> envelope_off(held, release, t1) == (held * (release - t1)) / release,
        envelope_off(held, release, t2) <= envelope_off(held, release, t1),
        t1 >= release ==> envelope_off(held, release, t1) == 0,
{
    if release > 0 {
        assert(held * (release - 0) == release * held) by (nonlinear_arith);
        lemma_div_multiples_vanish(held, release);
    }
    if release > 0 && t2 < release {
        assert(held * (release - t2) <= held * (release - t1)) by (nonlinear_arith)
            requires
                0 <= held,
                t1 <= t2,
        ;
        lemma_div_mono(held * (release - t2), held * (release - t1), release);
    }
    if release > 0 && t1 < release {
        lemma_envelope_off_bounds(held, release, t1);
    }
}

/// Envelope amplitude for a sounding note, computed from the elapsed time
/// since note-on.
pub fn attack_decay_sustain_amplitude(
    amplitude: i64,
    attack: u16,
    decay: u16,
    sustain: i64,
    elapsed_ms: u64,
) -> (amp: i64)
    requires
        0 <= amplitude <= SCALE,
        0 <= sustain <= SCALE,
    ensures
        amp == envelope_on(amplitude as int, attack as int, decay as int, sustain as int, elapsed_ms as int),
        0 <= amp <= amplitude,
{
    proof {
        lemma_envelope_on_bounds(
            amplitude as int,
            attack as int,
            decay as int,
            sustain as int,
            elapsed_ms as int,
        );
        lemma_sustain_level_bounds(amplitude as int, sustain as int);
    }
    let mut amp: i64 = amplitude;
    if attack > 0 && elapsed_ms < attack as u64 {
        proof {
            assert(0 <= amplitude * (elapsed_ms as int) <= amplitude * (attack as int)
                && amplitude * (attack as int) <= 10_000 * 65_535) by (nonlinear_arith)
                requires
                    0 <= amplitude <= 10_000,
                    0 <= elapsed_ms as int <= attack as int,
                    attack as int <= 65_535,
            ;
            lemma_div_bound_nonneg(amplitude * (elapsed_ms as int), attack as int, amplitude as int);
        }
        amp = (amplitude * (elapsed_ms as i64)) / (attack as i64);
    }
    if elapsed_ms > attack as u64 {
        let level: i64 = (amplitude * sustain) / SCALE;
        proof {
            assert(0 <= amplitude * sustain <= amplitude * (SCALE as int)) by (nonlinear_arith)
                requires
                    0 <= amplitude,
                    0 <= sustain <= SCALE,
            ;
            lemma_div_bound_nonneg((amplitude * sustain) as int, SCALE as int, amplitude as int);
        }
        if decay > 0 {
            let elapsed_since_attack: u64 = elapsed_ms - attack as u64;
            if elapsed_since_attack < decay as u64 {
                proof {
                    assert(0 <= (amplitude - level) * (elapsed_since_attack as int) <= (amplitude
                        - level) * (decay as int) && (amplitude - level) * (decay as int) <= 10_000
                        * 65_535) by (nonlinear_arith)
                        requires
                            0 <= amplitude - level <= 10_000,
                            0 <= elapsed_since_attack as int <= decay as int,
                            decay as int <= 65_535,
                    ;
                    lemma_div_bound_nonneg(
                        (amplitude - level) * (elapsed_since_attack as int),
                        decay as int,
                        (amplitude - level) as int,
                    );
                }
                amp = amplitude - ((amplitude - level) * (elapsed_since_attack as i64)) / (
                decay as i64);
            } else {
                amp = level;
            }
        } else {
            amp = level;
        }
    }
    amp
}

/// Envelope amplitude for a released note, computed from the amplitude
/// held at note-off and the elapsed time since note-off.
pub fn release_amplitude(held: i64, release: u16, elapsed_ms: u64) -> (amp: i64)
    requires
        0 <= held <= SCALE,
    ensures
        amp == envelope_off(held as int, release as int, elapsed_ms as int),
        0 <= amp <= held,
{
    proof {
        lemma_envelope_off_bounds(held as int, release as int, elapsed_ms as int);
    }
    if release > 0 && elapsed_ms < release as u64 {
        proof {
            assert(0 <= held * ((release as int) - (elapsed_ms as int)) <= held * (release as int)
                && held * (release as int) <= 10_000 * 65_535) by (nonlinear_arith)
                requires
                    0 <= held <= 10_000,
                    0 <= (release as int) - (elapsed_ms as int) <= release as int,
                    release as int <= 65_535,
            ;
            lemma_div_bound_nonneg(
                held * ((release as int) - (elapsed_ms as int)),
                release as int,
                held as int,
            );
        }
        (held * (release as i64 - elapsed_ms as i64)) / (release as i64)
    } else {
        0
    }
}

} // verus!
