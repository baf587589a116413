use kbd_synth_min::adsr::EnvState;
use kbd_synth_min::engine::{Synth, MAX_VOICES};
use kbd_synth_min::filter::{Filter, FilterType};
use kbd_synth_min::note::Note;
use kbd_synth_min::osc::Waveform;
use kbd_synth_min::ONE;

fn twenty_notes() -> Vec<Note> {
    vec![
        Note::C4,
        Note::C4_5,
        Note::D4,
        Note::D4_5,
        Note::E4,
        Note::F4,
        Note::F4_5,
        Note::G4,
        Note::G4_5,
        Note::A4,
        Note::A4_5,
        Note::B4,
        Note::C5,
        Note::C5_5,
        Note::D5,
        Note::D5_5,
        Note::E5,
        Note::F5,
        Note::F5_5,
        Note::G5,
    ]
}

fn active_count(s: &Synth) -> usize {
    s.voices.iter().filter(|v| v.on).count()
}

#[test]
fn seventeenth_note_is_dropped() {
    let mut s = Synth::new(44100, Waveform::Sine, None);
    let notes = twenty_notes();
    for n in notes.iter().take(17) {
        s.note_on(*n);
    }
    assert_eq!(active_count(&s), MAX_VOICES);
    // the 17th distinct note found no slot: nothing sounds it
    assert!(s.voices.iter().all(|v| v.note != notes[16]));
}

#[test]
fn retrigger_reuses_the_same_voice() {
    let mut s = Synth::new(44100, Waveform::Sine, None);
    s.note_on(Note::A4);
    s.note_on(Note::A4);
    assert_eq!(active_count(&s), 1);
}

#[test]
fn retrigger_restarts_envelope_but_keeps_phase() {
    let mut s = Synth::new(44100, Waveform::Sine, None);
    s.set_adsr(ONE, ONE, ONE, ONE);
    s.note_on(Note::A4);
    for _ in 0..100 {
        s.next_sample();
    }
    let phase_before = s.voices[0].osc.phase;
    assert!(phase_before != 0);
    assert!(s.voices[0].asdr.done > 0);
    s.note_on(Note::A4);
    assert_eq!(s.voices[0].asdr.done, 0);
    assert_eq!(s.voices[0].asdr.level, 0);
    assert_eq!(s.voices[0].osc.phase, phase_before);
}

#[test]
fn master_volume_is_clamped() {
    let mut s = Synth::new(44100, Waveform::Sine, None);
    s.set_master_volume(10 * ONE);
    assert_eq!(s.master_volume, ONE);
    s.set_master_volume(-10 * ONE);
    assert_eq!(s.master_volume, 0);
    s.set_master_volume(ONE / 2);
    assert_eq!(s.master_volume, ONE / 2);
}

#[test]
fn set_adsr_clamps_all_parameters() {
    let mut s = Synth::new(44100, Waveform::Sine, None);
    s.set_adsr(-5, -1, 99999999, -7);
    assert_eq!(s.attack, 0);
    assert_eq!(s.decay, 0);
    assert_eq!(s.sustain, ONE);
    assert_eq!(s.release, 0);
    s.set_adsr(ONE, ONE, 12345, ONE);
    assert_eq!(s.sustain, 12345);
}

#[test]
fn set_adsr_retriggers_audible_voices() {
    let mut s = Synth::new(44100, Waveform::Sine, None);
    s.set_adsr(0, 0, 32768, ONE);
    s.note_on(Note::C4);
    s.next_sample();
    assert!(s.voices[0].asdr.level > 0);
    s.set_adsr(0, 0, 16384, ONE);
    // the audible voice was forced back into its (instant) attack,
    // landing in Sustain at the new sustain level
    assert_eq!(s.voices[0].asdr.state, EnvState::Sustain);
    assert_eq!(s.voices[0].asdr.level, 16384);
}

#[test]
fn waveform_round_trip_present_and_future_voices() {
    let mut s = Synth::new(44100, Waveform::Sine, None);
    s.note_on(Note::C4);
    let w = Waveform::Square { pulse_width: 30000 };
    s.set_waveform(w);
    assert_eq!(s.waveform, w);
    // live voice switched in place, phase preserved
    assert_eq!(s.voices[0].osc.waveform, w);
    // a later allocation picks the new default up
    s.note_on(Note::D4);
    assert_eq!(s.voices[1].osc.waveform, w);
    // and advancing a sample does not lose it
    s.next_sample();
    assert_eq!(s.voices[0].osc.waveform, w);
}

#[test]
fn zero_master_volume_short_circuits() {
    let mut s = Synth::new(44100, Waveform::Sine, None);
    s.set_adsr(ONE, ONE, ONE, ONE);
    s.note_on(Note::A4);
    s.set_master_volume(0);
    let before_done = s.voices[0].asdr.done;
    let out = s.next_sample();
    assert_eq!(out, 0);
    // the short-circuit happens before any per-voice work
    assert_eq!(s.voices[0].asdr.done, before_done);
}

#[test]
fn dead_voice_is_freed_by_next_sample() {
    let mut s = Synth::new(100, Waveform::Sine, None);
    s.set_adsr(0, 0, ONE, 655); // 0.01 s release at 100 Hz: one sample
    s.note_on(Note::A4);
    s.note_off(Note::A4);
    let mut n = 0;
    while active_count(&s) > 0 && n < 100 {
        s.next_sample();
        n += 1;
    }
    assert_eq!(active_count(&s), 0);
    assert!(n <= 3);
}

#[test]
fn note_off_is_idempotent_on_engine() {
    let mut s = Synth::new(44100, Waveform::Sine, None);
    s.set_adsr(0, 0, ONE, ONE);
    s.note_on(Note::E4);
    for _ in 0..5 {
        s.next_sample();
    }
    s.note_off(Note::E4);
    for _ in 0..5 {
        s.next_sample();
    }
    let e = s.voices[0].asdr;
    s.note_off(Note::E4);
    let e2 = s.voices[0].asdr;
    assert_eq!(e.state, e2.state);
    assert_eq!(e.level, e2.level);
    assert_eq!(e.start, e2.start);
    assert_eq!(e.total, e2.total);
    assert_eq!(e.done, e2.done);
}

#[test]
fn set_filter_updates_same_topology_in_place() {
    let mut s = Synth::new(44100, Waveform::Sawtooth, Some(FilterType::OnePoleLpf(1000000)));
    s.set_adsr(0, 0, ONE, ONE);
    s.set_master_volume(ONE);
    s.note_on(Note::A4);
    for _ in 0..32 {
        s.next_sample();
    }
    let y_before = match s.voices[0].filter {
        Some(Filter::OnePoleLpf(f)) => f.y1,
        _ => panic!("expected a one-pole filter"),
    };
    assert!(y_before != 0);
    s.set_filter(Some(FilterType::OnePoleLpf(2000000)));
    match s.voices[0].filter {
        Some(Filter::OnePoleLpf(f)) => {
            assert_eq!(f.y1, y_before, "history must survive a cutoff change");
            assert_eq!(f.cutoff, 2000000);
        }
        _ => panic!("topology must not change"),
    }
    // switching topology rebuilds the stage with cleared history
    s.set_filter(Some(FilterType::TwoPoleLpf(1000000, 5 * ONE)));
    match s.voices[0].filter {
        Some(Filter::TwoPoleLpf(f)) => {
            assert_eq!(f.y1, 0);
            assert_eq!(f.y2, 0);
        }
        _ => panic!("expected a two-pole filter"),
    }
    // clearing removes the stage
    s.set_filter(None);
    assert!(s.voices[0].filter.is_none());
    assert_eq!(s.filter_type, None);
}

#[test]
fn adsr_times_are_capped_at_one_hour() {
    let mut s = Synth::new(44100, Waveform::Sine, None);
    s.set_adsr(i64::MAX, i64::MAX, 0, i64::MAX);
    assert_eq!(s.attack, kbd_synth_min::fixed::TIME_MAX);
    assert_eq!(s.decay, kbd_synth_min::fixed::TIME_MAX);
    assert_eq!(s.release, kbd_synth_min::fixed::TIME_MAX);
}
