use kbd_synth_min::filter::{Filter, FilterTrait, FilterType, OnePoleLpf, TwoPoleLpf};
use kbd_synth_min::ui::{FilterTypeUi, WaveformTypeUi};
use kbd_synth_min::note::Note;
use kbd_synth_min::osc::{Osc, Waveform};
use kbd_synth_min::ONE;

#[test]
fn tuning_table_matches_the_fixed_frequencies() {
    assert_eq!(Note::Rest.freq_millihz(), 0);
    assert_eq!(Note::C4.freq_millihz(), 261626);
    assert_eq!(Note::A4.freq_millihz(), 440000);
    assert_eq!(Note::B4.freq_millihz(), 493883);
    assert_eq!(Note::C5.freq_millihz(), 523251);
    assert_eq!(Note::G5.freq_millihz(), 783991);
}

#[test]
fn oscillator_phase_accumulates_and_wraps() {
    // A4 at 44100 Hz: increment = floor(440000 * 2^32 / 44100000)
    let mut o = Osc::new(440000, 44100, Waveform::Sine);
    assert_eq!(o.phase, 0);
    assert_eq!(o.phase_inc, 42852281);
    let s0 = o.next_sample();
    assert_eq!(s0, 0, "a sine starts at zero phase");
    assert_eq!(o.phase, 42852281);
    // the phase never leaves one cycle
    for _ in 0..1000 {
        o.next_sample();
        assert!(0 <= o.phase && o.phase < 1i64 << 32);
    }
}

#[test]
fn sine_peaks_at_quarter_cycle() {
    let w = Waveform::Sine;
    assert_eq!(w.sample(0, 0), 0);
    assert_eq!(w.sample(0x4000_0000, 0), ONE);
    assert_eq!(w.sample(0x8000_0000, 0), 0);
    assert_eq!(w.sample(0xC000_0000, 0), -ONE);
}

#[test]
fn square_levels_follow_the_pulse_width() {
    let w = Waveform::Square { pulse_width: 32768 };
    // far from both edges, with a zero increment no correction applies
    assert_eq!(w.sample(0x2000_0000, 0), ONE);
    assert_eq!(w.sample(0xC000_0000, 0), -ONE);
    // the duty cycle is clamped into [0.05, 0.95]
    let narrow = Waveform::Square { pulse_width: 0 };
    assert_eq!(narrow.sample(0x2000_0000, 0), -ONE); // 0.125 is past 5% duty
}

#[test]
fn sawtooth_ramps_through_the_cycle() {
    let w = Waveform::Sawtooth;
    assert_eq!(w.sample(0x4000_0000, 0), -32768);
    assert_eq!(w.sample(0x8000_0000, 0), 0);
    assert_eq!(w.sample(0xC000_0000, 0), 32768);
}

#[test]
fn triangle_is_linear_at_curve_zero_and_sharpened_above() {
    let lin = Waveform::Triangle { curve: 0 };
    assert_eq!(lin.sample(0x8000_0000, 0), ONE); // peak at half cycle
    assert_eq!(lin.sample(0, 0), -ONE);
    assert_eq!(lin.sample(0x4000_0000, 0), 0);
    // curve 1 cubes the shape: 0.5 -> 0.125
    let sharp = Waveform::Triangle { curve: 1 };
    assert_eq!(sharp.sample(0x6000_0000, 0), 8192);
    assert_eq!(lin.sample(0x6000_0000, 0), 32768);
}

#[test]
fn one_pole_impulse_response_has_the_documented_coefficient() {
    // sr = 44100 Hz, cutoff 1 kHz: a = 8172 = 0.1247 * ONE, near the
    // textbook 0.1249
    let mut f = OnePoleLpf::new(44100, 1000000);
    assert_eq!(f.a, 8172);
    let first = f.process(ONE);
    assert_eq!(first, f.a, "first impulse output is exactly a");
    // silence afterwards: geometric decay by (1 - a) with rounding toward 0
    let second = f.process(0);
    assert_eq!(second, 7153);
    assert_eq!(second, first + (f.a * (0 - first)) / ONE);
    let mut prev = second;
    for _ in 0..100 {
        let y = f.process(0);
        assert!(0 <= y && y <= prev, "the response must decay");
        prev = y;
    }
}

#[test]
fn one_pole_cutoff_is_clamped_below_half_nyquist() {
    let f = OnePoleLpf::new(1000, 999999999);
    assert_eq!(f.cutoff, 490 * 1000); // 0.49 * sr, in millihertz
    let g = OnePoleLpf::new(1000, -5);
    assert_eq!(g.cutoff, 0);
    assert_eq!(g.a, 0);
}

#[test]
fn two_pole_passes_dc_and_reset_clears_history() {
    let mut f = TwoPoleLpf::new(44100, 1000000, 5 * ONE);
    // a constant input settles near itself (low-pass passes DC)
    let mut y: i64 = 0;
    for _ in 0..4000 {
        y = f.process(10000);
    }
    assert!((y - 10000).abs() < 1500, "DC gain near one, got {}", y);
    f.reset();
    assert_eq!(f.y1, 0);
    assert_eq!(f.y2, 0);
    // coefficients survive a reset
    assert!(f.b0 > 0);
}

#[test]
fn filter_enum_dispatches_to_both_topologies() {
    let mut one = Filter::new(FilterType::OnePoleLpf(1000000), 44100);
    let y1 = one.process(ONE);
    assert_eq!(y1, 8172);
    let mut two = Filter::new(FilterType::TwoPoleLpf(1000000, ONE), 44100);
    let z1 = two.process(ONE);
    // a biquad low-pass reacts to an impulse with its (small) b0 share
    match two {
        Filter::TwoPoleLpf(f) => assert_eq!(z1, (f.b0 * ONE) / ONE),
        _ => panic!("wrong variant"),
    }
    one.reset();
    match one {
        Filter::OnePoleLpf(f) => assert_eq!(f.y1, 0),
        _ => panic!("wrong variant"),
    }
}

#[test]
fn ui_choices_build_the_matching_parameters() {
    assert_eq!(WaveformTypeUi::Sine.to_waveform(100, 2), Waveform::Sine);
    assert_eq!(
        WaveformTypeUi::Square.to_waveform(30000, 2),
        Waveform::Square { pulse_width: 30000 }
    );
    assert_eq!(WaveformTypeUi::Saw.to_waveform(100, 2), Waveform::Sawtooth);
    assert_eq!(
        WaveformTypeUi::Triangle.to_waveform(100, 2),
        Waveform::Triangle { curve: 2 }
    );
    assert_eq!(
        FilterTypeUi::OnePoleLpf.to_filter_type(1000000, ONE),
        FilterType::OnePoleLpf(1000000)
    );
    assert_eq!(
        FilterTypeUi::TwoPoleLpf.to_filter_type(1000000, ONE),
        FilterType::TwoPoleLpf(1000000, ONE)
    );
}

#[test]
fn polyblep_corrects_both_edges_of_the_sawtooth() {
    let w = Waveform::Sawtooth;
    let dt: i64 = 1 << 26; // a fast oscillator: the correction window is wide
    // just after the wrap: ramp -64512, correction -16384
    assert_eq!(w.sample(1 << 25, dt), -48128);
    // just before the wrap: ramp 64512, correction +16384
    assert_eq!(w.sample((1i64 << 32) - (1 << 25), dt), 48128);
    // mid-cycle the correction vanishes
    assert_eq!(w.sample(1i64 << 31, dt), 0);
}
