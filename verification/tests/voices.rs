//! Tests for note lifecycles, event decoding and the voice registry.

use wavesynth::note::{Note, RELEASE_SAFETY_MARGIN_MS};
use wavesynth::registry::{
    decode_message, midi_note_freq_mhz, velocity_amplitude, NoteEvent, SynthError, VoiceRegistry,
    SECONDARY_PULSE_WIDTH,
};
use wavesynth::wavetable::{WAVE_TYPE_SAW, WAVE_TYPE_SQUARE};

const SCALE: i64 = 10_000;

#[test]
fn note_defaults_and_stop() {
    let mut n = Note::new(WAVE_TYPE_SAW, 440_000, 8_000, 0);
    assert!(n.sounding);
    assert_eq!(n.parameters.frequency_mhz, 440_000);
    assert_eq!(n.parameters.amplitude, 8_000);
    assert_eq!(n.parameters.attack, 100);
    assert_eq!(n.parameters.decay, 100);
    assert_eq!(n.parameters.sustain, 3_000);
    assert_eq!(n.parameters.release, 300);
    n.stop();
    assert!(!n.sounding);
}

#[test]
fn stop_twice_equals_stop_once() {
    let mut n = Note::new(WAVE_TYPE_SAW, 440_000, 8_000, 0);
    n.stop();
    let once = n;
    n.stop();
    assert_eq!(n.sounding, once.sounding);
    assert_eq!(n.wave_table_type, once.wave_table_type);
    assert_eq!(n.pulse_width, once.pulse_width);
    assert_eq!(n.parameters.frequency_mhz, once.parameters.frequency_mhz);
    assert_eq!(n.parameters.amplitude, once.parameters.amplitude);
    assert_eq!(n.parameters.release, once.parameters.release);
}

#[test]
fn release_wait_adds_the_safety_margin() {
    let n = Note::new(WAVE_TYPE_SAW, 440_000, 8_000, 0);
    assert_eq!(n.release_wait_ms(), 300 + RELEASE_SAFETY_MARGIN_MS);
}

#[test]
fn configure_oscillator_applies_the_parameters() {
    let n = Note::new(WAVE_TYPE_SAW, 440_000, 8_000, 0);
    let o = n.configure_oscillator(44_100, 7);
    assert!(o.note_on);
    assert_eq!(o.note_on_time, 7);
    assert_eq!(o.sample_rate, 44_100);
    assert_eq!(o.phase, 0);
    // 440000 mHz * 64 slots * 1e6 phase units / (44100 Hz * 1000).
    assert_eq!(o.phase_increment, 28_160_000_000_000 / 44_100_000);
    assert_eq!(o.amplitude, 8_000);
    assert_eq!(o.attack, 100);
    assert_eq!(o.decay, 100);
    assert_eq!(o.sustain, 3_000);
    assert_eq!(o.release, 300);
    assert_eq!(o.filter.cutoff, 2_000);
    assert_eq!(o.filter.resonance, 10_000);
}

#[test]
fn decode_note_events() {
    assert_eq!(
        decode_message(&[0x90, 69, 100]),
        Some(NoteEvent::On { key: 69, velocity: 100 })
    );
    assert_eq!(decode_message(&[0x80, 69, 64]), Some(NoteEvent::Off { key: 69 }));
    // A note-on with zero velocity is a note-off.
    assert_eq!(decode_message(&[0x90, 69, 0]), Some(NoteEvent::Off { key: 69 }));
    // Other statuses, lengths and out-of-range data bytes are ignored.
    assert_eq!(decode_message(&[0xB0, 69, 100]), None);
    assert_eq!(decode_message(&[0x90, 69]), None);
    assert_eq!(decode_message(&[0x90, 200, 100]), None);
    assert_eq!(decode_message(&[0x90, 69, 200]), None);
    assert_eq!(decode_message(&[]), None);
}

#[test]
fn velocity_scales_to_full_gain() {
    assert_eq!(velocity_amplitude(0), 0);
    assert_eq!(velocity_amplitude(64), 64 * SCALE / 127);
    assert_eq!(velocity_amplitude(127), SCALE);
}

#[test]
fn key_frequencies_follow_equal_temperament() {
    assert_eq!(midi_note_freq_mhz(69), 440_000);
    assert_eq!(midi_note_freq_mhz(81), 880_000);
    assert_eq!(midi_note_freq_mhz(57), 220_000);
    assert_eq!(midi_note_freq_mhz(60), 261_626);
    assert_eq!(midi_note_freq_mhz(48), 130_813);
    assert_eq!(midi_note_freq_mhz(127), 391_995 * 32);
    assert_eq!(midi_note_freq_mhz(0), 261_626 / 32);
}

#[test]
fn note_on_registers_a_layered_pair() {
    let mut r = VoiceRegistry::new();
    let (primary, secondary) = r.note_on(69, 127);
    assert_eq!(primary.wave_table_type, WAVE_TYPE_SAW);
    assert_eq!(primary.pulse_width, 0);
    assert_eq!(primary.parameters.frequency_mhz, 440_000);
    assert_eq!(primary.parameters.amplitude, SCALE);
    assert!(primary.sounding);
    assert_eq!(secondary.wave_table_type, WAVE_TYPE_SQUARE);
    assert_eq!(secondary.pulse_width, SECONDARY_PULSE_WIDTH);
    // The secondary layer sounds exactly one octave below the primary.
    assert_eq!(secondary.parameters.frequency_mhz, 220_000);
    assert!(secondary.sounding);
    assert!(r.primary[69].is_some());
    assert!(r.secondary[69].is_some());
    assert!(r.primary[68].is_none());
}

#[test]
fn note_off_stops_both_layers_independently() {
    let mut r = VoiceRegistry::new();
    r.note_on(69, 100);
    let (primary, secondary) = r.note_off(69).expect("the key is active");
    assert!(!primary.sounding);
    assert!(!secondary.sounding);
    // Each layer keeps its own release tail.
    assert_eq!(primary.release_wait_ms(), 600);
    assert_eq!(secondary.release_wait_ms(), 600);
    assert!(r.primary[69].is_none());
    assert!(r.secondary[69].is_none());
}

#[test]
fn note_off_for_an_unknown_key_is_a_protocol_mismatch() {
    let mut r = VoiceRegistry::new();
    r.note_on(60, 100);
    let result = r.note_off(72);
    assert_eq!(result.map(|_| ()), Err(SynthError::ProtocolMismatch));
    // The registry is unchanged: the active key is still active.
    assert!(r.primary[60].is_some());
    assert!(r.secondary[60].is_some());
    for k in 0..128 {
        if k != 60 {
            assert!(r.primary[k].is_none());
            assert!(r.secondary[k].is_none());
        }
    }
    // A second note-off for a key that was already evicted also fails.
    r.note_off(60).expect("the key is active");
    assert_eq!(r.note_off(60).map(|_| ()), Err(SynthError::ProtocolMismatch));
}

#[test]
fn dispatch_follows_the_event_stream() {
    let mut r = VoiceRegistry::new();
    let on = decode_message(&[0x90, 64, 90]).expect("a note-on decodes");
    assert_eq!(r.dispatch(on), Ok(()));
    assert!(r.primary[64].is_some());
    let off = decode_message(&[0x80, 64, 0]).expect("a note-off decodes");
    assert_eq!(r.dispatch(off), Ok(()));
    assert!(r.primary[64].is_none());
    assert_eq!(r.dispatch(off), Err(SynthError::ProtocolMismatch));
}
