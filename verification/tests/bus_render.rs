use kbd_synth_min::bus::{Msg, SharedBus, QUEUE_CAP};
use kbd_synth_min::engine::Synth;
use kbd_synth_min::note::Note;
use kbd_synth_min::osc::Waveform;
use kbd_synth_min::render::{render_block, QUANTUM};
use kbd_synth_min::ONE;

#[test]
fn bus_keeps_fifo_order_and_drops_the_overflow() {
    let mut bus = SharedBus::new();
    // 2049 pushes into a 2048-slot bus: the last one fails
    for i in 0..2049i64 {
        let ok = bus.push(Msg::SetMasterVolume(i));
        if i < QUEUE_CAP as i64 {
            assert!(ok, "push {} must succeed", i);
        } else {
            assert!(!ok, "push {} must be dropped", i);
        }
    }
    // draining yields exactly 2048 messages, in the original order
    let mut expected: i64 = 0;
    while let Some(m) = bus.pop() {
        match m {
            Msg::SetMasterVolume(v) => assert_eq!(v, expected),
            _ => panic!("unexpected message"),
        }
        expected += 1;
    }
    assert_eq!(expected, QUEUE_CAP as i64);
    assert!(bus.pop().is_none());
}

#[test]
fn bus_starts_empty() {
    let mut bus = SharedBus::default();
    assert!(bus.pop().is_none());
}

#[test]
fn render_block_output_is_clamped() {
    let mut synth = Synth::new(44100, Waveform::Square { pulse_width: 32768 }, None);
    let mut bus = SharedBus::new();
    assert!(bus.push(Msg::SetMasterVolume(ONE)));
    assert!(bus.push(Msg::SetAdsr { a: 0, d: 0, s: ONE, r: ONE }));
    for n in [Note::C4, Note::E4, Note::G4, Note::C5, Note::A4, Note::B4] {
        assert!(bus.push(Msg::NoteOn { note: n }));
    }
    let mut out: Vec<i64> = vec![0; QUANTUM];
    render_block(&mut synth, &mut bus, &mut out);
    assert_eq!(out.len(), QUANTUM);
    assert!(out.iter().all(|&v| -ONE <= v && v <= ONE));
    // six unclamped square waves at full volume must actually clip
    assert!(out.iter().any(|&v| v == ONE || v == -ONE));
}

#[test]
fn render_block_drains_every_message_first() {
    let mut synth = Synth::new(44100, Waveform::Sine, None);
    let mut bus = SharedBus::new();
    assert!(bus.push(Msg::SetWaveform(Waveform::Sawtooth)));
    assert!(bus.push(Msg::SetMasterVolume(ONE / 4)));
    assert!(bus.push(Msg::NoteOn { note: Note::D4 }));
    assert!(bus.push(Msg::NoteOff { note: Note::D4 }));
    assert!(bus.push(Msg::SetFilter(Some(
        kbd_synth_min::filter::FilterType::OnePoleLpf(500000),
    ))));
    let mut out: Vec<i64> = vec![0; 8];
    render_block(&mut synth, &mut bus, &mut out);
    assert!(bus.pop().is_none(), "the queue is drained before rendering");
    assert_eq!(synth.waveform, Waveform::Sawtooth);
    assert_eq!(synth.master_volume, ONE / 4);
    assert!(synth.filter_type.is_some());
    // the voice saw both its on and off before the first sample
    assert!(!synth.voices[0].asdr.gate);
}

#[test]
fn silent_engine_renders_zeros() {
    let mut synth = Synth::new(44100, Waveform::Sine, None);
    let mut bus = SharedBus::new();
    assert!(bus.push(Msg::SetMasterVolume(0)));
    let mut out: Vec<i64> = vec![7777; 16];
    render_block(&mut synth, &mut bus, &mut out);
    assert!(out.iter().all(|&v| v == 0));
}

#[test]
fn render_block_accepts_an_empty_buffer() {
    let mut synth = Synth::new(44100, Waveform::Sine, None);
    let mut bus = SharedBus::new();
    assert!(bus.push(Msg::NoteOn { note: Note::C4 }));
    let mut out: Vec<i64> = Vec::new();
    render_block(&mut synth, &mut bus, &mut out);
    assert!(out.is_empty());
    assert!(bus.pop().is_none(), "messages are applied even for an empty block");
    assert!(synth.voices[0].on);
}
