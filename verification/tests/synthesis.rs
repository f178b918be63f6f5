//! Tests for the synthesis path: wavetables, interpolation, the envelope
//! and the smoothing filter.

use wavesynth::filter::Filter;
use wavesynth::envelope::{attack_decay_sustain_amplitude, release_amplitude};
use wavesynth::oscillator::{WavetableOscillator, PHASE_ONE, TABLE_SPAN};
use wavesynth::wavetable::{
    wavetable_for, wavetable_saw, wavetable_sine, wavetable_square, wavetable_tri, TABLE_LEN,
    WAVE_TYPE_SAW, WAVE_TYPE_SQUARE,
};

const SCALE: i64 = 10_000;

#[test]
fn tables_have_one_cycle_of_in_range_samples() {
    let tables = [
        wavetable_sine(),
        wavetable_saw(),
        wavetable_square(9_000),
        wavetable_tri(),
    ];
    for table in tables.iter() {
        assert_eq!(table.samples.len(), TABLE_LEN);
        for &sample in table.samples.iter() {
            assert!(-SCALE <= sample && sample <= SCALE);
        }
    }
}

#[test]
fn sine_table_landmarks() {
    let t = wavetable_sine();
    assert_eq!(t.samples[0], 0);
    assert_eq!(t.samples[16], SCALE);
    assert_eq!(t.samples[32], 0);
    assert_eq!(t.samples[48], -SCALE);
    // Antisymmetry of the two half cycles.
    for n in 0..32 {
        assert_eq!(t.samples[n + 32], -t.samples[n]);
    }
}

#[test]
fn saw_table_descends_from_full() {
    let t = wavetable_saw();
    assert_eq!(t.samples[0], SCALE);
    assert_eq!(t.samples[32], 0);
    assert_eq!(t.samples[63], -9_687);
    for n in 1..TABLE_LEN {
        assert!(t.samples[n] < t.samples[n - 1]);
    }
}

#[test]
fn square_table_splits_at_pulse_width() {
    let t = wavetable_square(9_000);
    // 64 * 0.9 truncates to 57 slots of the low level.
    for n in 0..57 {
        assert_eq!(t.samples[n], -SCALE);
    }
    for n in 57..TABLE_LEN {
        assert_eq!(t.samples[n], SCALE);
    }
    let all_high = wavetable_square(0);
    for n in 0..TABLE_LEN {
        assert_eq!(all_high.samples[n], SCALE);
    }
    let all_low = wavetable_square(SCALE);
    for n in 0..TABLE_LEN {
        assert_eq!(all_low.samples[n], -SCALE);
    }
}

#[test]
fn tri_table_rises_then_falls() {
    let t = wavetable_tri();
    assert_eq!(t.samples[0], -SCALE);
    assert_eq!(t.samples[16], 0);
    assert_eq!(t.samples[32], SCALE);
    assert_eq!(t.samples[48], 0);
    assert_eq!(t.samples[63], -9_375);
}

#[test]
fn unknown_selector_falls_back_to_sine() {
    let fallback = wavetable_for(99, 0);
    let sine = wavetable_sine();
    assert_eq!(fallback.samples, sine.samples);
}

#[test]
fn lerp_is_exact_at_integer_phase() {
    let mut o = WavetableOscillator::new(44_100, WAVE_TYPE_SAW, 2_000, 0, 0, 0);
    for k in 0..TABLE_LEN {
        o.phase = (k as i64) * PHASE_ONE;
        assert_eq!(o.lerp(), o.wave_table.samples[k]);
    }
}

#[test]
fn lerp_interpolates_and_wraps_to_the_table_start() {
    let mut o = WavetableOscillator::new(44_100, WAVE_TYPE_SAW, 2_000, 0, 0, 0);
    // Halfway between slot 63 (-9687) and slot 0 (10000).
    o.phase = 63 * PHASE_ONE + PHASE_ONE / 2;
    assert_eq!(o.lerp(), (500_000 * -9_687 + 500_000 * 10_000) / PHASE_ONE);
}

#[test]
fn phase_stays_in_range_over_many_samples() {
    let mut o = WavetableOscillator::new(44_100, WAVE_TYPE_SAW, 2_000, 0, 0, 0);
    o.set_frequency(440_000);
    o.set_amplitude(SCALE);
    for step in 0..10_000u64 {
        let out = o.next(step / 44, true);
        assert!(0 <= o.phase && o.phase < TABLE_SPAN);
        assert!(-SCALE <= out && out <= SCALE);
    }
}

#[test]
fn envelope_scenario_values() {
    // attack 100 ms, decay 100 ms, sustain 0.3, release 300 ms, full gain.
    assert_eq!(attack_decay_sustain_amplitude(SCALE, 100, 100, 3_000, 0), 0);
    assert_eq!(attack_decay_sustain_amplitude(SCALE, 100, 100, 3_000, 50), 5_000);
    assert_eq!(attack_decay_sustain_amplitude(SCALE, 100, 100, 3_000, 100), SCALE);
    let mid_decay = attack_decay_sustain_amplitude(SCALE, 100, 100, 3_000, 150);
    assert_eq!(mid_decay, 6_500);
    assert!(3_000 < mid_decay && mid_decay < SCALE);
    assert_eq!(attack_decay_sustain_amplitude(SCALE, 100, 100, 3_000, 200), 3_000);
    assert_eq!(attack_decay_sustain_amplitude(SCALE, 100, 100, 3_000, 500), 3_000);
    assert_eq!(attack_decay_sustain_amplitude(SCALE, 100, 100, 3_000, 100_000), 3_000);
    // Release from the held value 0.3: exactly half way after 150 ms.
    assert_eq!(release_amplitude(3_000, 300, 0), 3_000);
    assert_eq!(release_amplitude(3_000, 300, 150), 1_500);
    assert_eq!(release_amplitude(3_000, 300, 300), 0);
    assert_eq!(release_amplitude(3_000, 300, 100_000), 0);
}

#[test]
fn envelope_edge_cases() {
    // Zero attack starts at full amplitude.
    assert_eq!(attack_decay_sustain_amplitude(SCALE, 0, 100, 3_000, 0), SCALE);
    // Zero decay snaps to the sustain level once the attack has passed.
    assert_eq!(attack_decay_sustain_amplitude(SCALE, 100, 0, 3_000, 101), 3_000);
    // Zero release is silent immediately.
    assert_eq!(release_amplitude(3_000, 0, 0), 0);
    // The release ramp never rises.
    let mut previous = release_amplitude(3_000, 300, 0);
    for t in 1..400u64 {
        let now = release_amplitude(3_000, 300, t);
        assert!(now <= previous);
        previous = now;
    }
}

#[test]
fn filter_recurrence_exact_values() {
    let mut f = Filter::new(2_000, 0, 0);
    assert_eq!(f.buf0, 0);
    assert_eq!(f.buf1, SCALE);
    let out = f.process(SCALE);
    assert_eq!(f.buf0, 2_000);
    assert_eq!(f.buf1, 8_400);
    assert_eq!(out, 8_400);
    let out2 = f.process(0);
    assert_eq!(f.buf0, 1_600);
    assert_eq!(f.buf1, 7_040);
    assert_eq!(out2, 7_040);
}

#[test]
fn filter_feedback_recomputed_on_setting_changes() {
    let mut f = Filter::new(2_000, 0, 0);
    assert_eq!(f.feedback, 0);
    f.set_resonance(5_000);
    // 0.5 + 0.5 / (1 - 0.2) = 1.125
    assert_eq!(f.feedback, 11_250);
    f.set_cutoff(5_000);
    // 0.5 + 0.5 / (1 - 0.5) = 1.5
    assert_eq!(f.feedback, 15_000);
    f.set_feedback(7);
    assert_eq!(f.feedback, 7);
    assert_eq!(f.cutoff, 5_000);
    assert_eq!(f.resonance, 5_000);
}

#[test]
fn first_sample_applies_envelope_and_filter() {
    let mut o = WavetableOscillator::new(44_100, WAVE_TYPE_SAW, 2_000, 0, 0, 1_000);
    // Defaults: zero attack and decay, so the envelope is the full gain.
    let out = o.next(1_000, true);
    // Raw saw sample at phase 0 is SCALE; the filter leaves 8400 of it.
    assert_eq!(out, 8_400);
}

#[test]
fn release_transition_and_tail() {
    let mut o = WavetableOscillator::new(44_100, WAVE_TYPE_SQUARE, 2_000, 0, 9_000, 0);
    o.set_frequency(440_000);
    o.set_amplitude(SCALE);
    o.set_attack(100);
    o.set_decay(100);
    o.set_sustain(3_000);
    o.set_release(300);
    // Run well into the sustain phase.
    let _ = o.next(500, true);
    assert!(o.note_on);
    assert_eq!(o.held_release_amplitude, 3_000);
    // The cleared flag begins the release at this instant.
    let _ = o.next(500, false);
    assert!(!o.note_on);
    assert_eq!(o.note_off_time, 500);
    assert_eq!(o.held_release_amplitude, 3_000);
    // Midway through the release the output is bounded by the ramp value.
    let out = o.next(650, false);
    assert!(out.abs() <= 1_500);
    // Once the release has elapsed the note is exactly silent.
    let out = o.next(800, false);
    assert_eq!(out, 0);
    let out = o.next(100_000, false);
    assert_eq!(out, 0);
}

#[test]
fn output_magnitude_never_exceeds_gain() {
    let mut o = WavetableOscillator::new(44_100, WAVE_TYPE_SQUARE, 2_000, 0, 9_000, 0);
    o.set_frequency(880_000);
    o.set_amplitude(4_000);
    o.set_attack(10);
    o.set_decay(10);
    o.set_sustain(5_000);
    o.set_release(50);
    for step in 0..2_000u64 {
        let sounding = step < 1_000;
        let out = o.next(step / 44, sounding);
        assert!(out.abs() <= 4_000);
    }
}
