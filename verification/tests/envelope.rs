use kbd_synth_min::adsr::{Adsr, EnvState};
use kbd_synth_min::ONE;

#[test]
fn instant_attack_lands_in_sustain() {
    // a = 0 and d = 0: note_on chains through Attack and Decay in one call
    let mut e = Adsr::new(0, 0, 32768, 65536, 44100);
    e.note_on();
    assert_eq!(e.state, EnvState::Sustain);
    assert_eq!(e.level, 32768);
    assert!(e.gate);
}

#[test]
fn attack_reaches_full_scale_after_ceil_a_sr_samples() {
    // 1.0 s attack at 100 Hz: exactly 100 samples to full scale
    let mut e = Adsr::new(ONE, ONE, 32768, ONE, 100);
    e.note_on();
    assert_eq!(e.state, EnvState::Attack);
    let mut prev: i64 = 0;
    for _ in 0..99 {
        let l = e.next_sample();
        assert!(l >= prev, "attack must be monotone");
        assert!(l < ONE, "full scale must not be hit early");
        prev = l;
    }
    let l100 = e.next_sample();
    assert_eq!(l100, ONE);
    assert_eq!(e.state, EnvState::Decay);
}

#[test]
fn attack_level_is_exact_ramp() {
    let mut e = Adsr::new(ONE, ONE, 32768, ONE, 100);
    e.note_on();
    assert_eq!(e.next_sample(), 655); // floor(65536 * 1 / 100)
    for _ in 1..50 {
        e.next_sample();
    }
    assert_eq!(e.level, 32768); // floor(65536 * 50 / 100)
}

#[test]
fn release_follows_note_off_and_ends_idle() {
    let mut e = Adsr::new(0, 0, ONE, 6554, 100); // 0.1 s release at 100 Hz
    e.note_on();
    assert_eq!(e.state, EnvState::Sustain);
    e.note_off();
    assert_eq!(e.state, EnvState::Release);
    assert!(!e.gate);
    // ceil(0.100006 * 100) = 11 samples to silence
    let mut n = 0;
    while e.is_active() && n < 1000 {
        e.next_sample();
        n += 1;
    }
    assert_eq!(e.state, EnvState::Idle);
    assert_eq!(e.level, 0);
    assert!(n <= 11);
}

#[test]
fn note_off_on_releasing_envelope_is_a_no_op() {
    let mut e = Adsr::new(0, 0, ONE, ONE, 100);
    e.note_on();
    e.note_off();
    for _ in 0..10 {
        e.next_sample();
    }
    let (st, level, start, total, done) = (e.state, e.level, e.start, e.total, e.done);
    e.note_off(); // second release: must not restart or stretch the ramp
    assert_eq!(e.state, st);
    assert_eq!(e.level, level);
    assert_eq!(e.start, start);
    assert_eq!(e.total, total);
    assert_eq!(e.done, done);
}

#[test]
fn retune_clamps_and_keeps_running_stage() {
    let mut e = Adsr::new(ONE, ONE, 32768, ONE, 100);
    e.note_on();
    e.next_sample();
    let (st, level, total, done) = (e.state, e.level, e.total, e.done);
    e.retune(-44, 2 * ONE, 9999999, -1);
    assert_eq!(e.a, 0);
    assert_eq!(e.d, 2 * ONE);
    assert_eq!(e.s, ONE);
    assert_eq!(e.r, 0);
    // the running attack is untouched until its next transition
    assert_eq!(e.state, st);
    assert_eq!(e.level, level);
    assert_eq!(e.total, total);
    assert_eq!(e.done, done);
}

#[test]
fn new_envelope_clamps_sustain() {
    let e = Adsr::new(0, 0, 999999999, 0, 44100);
    assert_eq!(e.s, ONE);
    let e2 = Adsr::new(0, 0, -5, 0, 44100);
    assert_eq!(e2.s, 0);
    assert_eq!(e2.state, EnvState::Idle);
    assert_eq!(e2.level, 0);
}
