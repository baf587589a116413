//! The block renderer: drain every queued control message, apply them to
//! the engine in FIFO order, then fill the output buffer one sample at a
//! time, each hard-clamped to `[-ONE, ONE]`.
//!
//! Because the whole queue is drained before the first sample, parameter
//! changes take effect atomically at block boundaries, never mid-block.

use vstd::prelude::*;
use crate::fixed::{ONE, sclamp, clamp64};
use crate::engine::{
    Synth,
    SynthM,
    spec_model_note_on,
    spec_model_note_off,
    spec_model_set_master_volume,
    spec_model_set_adsr,
    spec_model_set_waveform,
    spec_model_set_filter,
    spec_model_tick,
};
use crate::bus::{SharedBus, Msg};

verus! {

/// Samples per render block in the reference configuration.
pub const QUANTUM: usize = 128;

/// The engine state after one control message.
pub open spec fn spec_apply_msg(m: SynthM, msg: Msg) -> SynthM {
    match msg {
        Msg::NoteOn { note } => spec_model_note_on(m, note),
        Msg::NoteOff { note } => spec_model_note_off(m, note),
        Msg::SetMasterVolume(v) => spec_model_set_master_volume(m, v),
        Msg::SetAdsr { a, d, s, r } => spec_model_set_adsr(m, a, d, s, r),
        Msg::SetWaveform(w) => spec_model_set_waveform(m, w),
        Msg::SetFilter(ft) => spec_model_set_filter(m, ft),
    }
}

/// The engine state after a whole run of messages, oldest first.
pub open spec fn spec_apply_all(m: SynthM, msgs: Seq<Msg>) -> SynthM
    decreases msgs.len(),
{
    if msgs.len() == 0 {
        m
    } else {
        spec_apply_all(spec_apply_msg(m, msgs[0]), msgs.subrange(1, msgs.len() as int))
    }
}

/// The engine state after `n` samples of silence-free running.
pub open spec fn spec_model_run(m: SynthM, n: nat) -> SynthM
    decreases n,
{
    if n == 0 {
        m
    } else {
        spec_model_tick(spec_model_run(m, (n - 1) as nat)).0
    }
}

/// Render one mono block into `out`: the queue is applied first, in FIFO
/// order and in full, then each slot receives the engine's next sample,
/// clamped into `[-ONE, ONE]`.
pub fn render_block(synth: &mut Synth, bus: &mut SharedBus, out: &mut Vec<i64>)
    requires
        old(synth).wf(),
    ensures
        final(synth).wf(),
        final(bus).contents().len() == 0,
        final(bus).capacity() == old(bus).capacity(),
        final(out).len() == old(out).len(),
        forall|k: int| 0 <= k < final(out).len() ==> -ONE <= #[trigger] final(out)@[k] <= ONE,
        ({
            let applied = spec_apply_all(old(synth).model(), old(bus).contents());
            &&& final(synth).model() == spec_model_run(applied, old(out).len() as nat)
            &&& forall|k: int|
                0 <= k < old(out).len() ==> final(out)@[k] == sclamp(
                    spec_model_tick(spec_model_run(applied, k as nat)).1,
                    -(ONE as int),
                    ONE as int,
                )
        }),
{
    let mut draining: bool = true;
    while draining
        invariant
            synth.wf(),
            bus.capacity() == old(bus).capacity(),
            spec_apply_all(old(synth).model(), old(bus).contents()) == spec_apply_all(
                synth.model(),
                bus.contents(),
            ),
            !draining ==> bus.contents().len() == 0,
        decreases bus.contents().len() + (if draining { 1int } else { 0int }),
    {
        let m = bus.pop();
        match m {
            Option::Some(Msg::NoteOn { note }) => synth.note_on(note),
            Option::Some(Msg::NoteOff { note }) => synth.note_off(note),
            Option::Some(Msg::SetMasterVolume(v)) => synth.set_master_volume(v),
            Option::Some(Msg::SetAdsr { a, d, s, r }) => synth.set_adsr(a, d, s, r),
            Option::Some(Msg::SetWaveform(w)) => synth.set_waveform(w),
            Option::Some(Msg::SetFilter(ft)) => synth.set_filter(ft),
            Option::None => {
                draining = false;
            },
        }
    }
    let ghost applied = synth.model();
    let n: usize = out.len();
    let mut i: usize = 0;
    while i < n
        invariant
            synth.wf(),
            bus.capacity() == old(bus).capacity(),
            bus.contents().len() == 0,
            i <= n,
            out.len() == n,
            synth.model() == spec_model_run(applied, i as nat),
            forall|k: int|
                0 <= k < i as int ==> out@[k] == sclamp(
                    spec_model_tick(spec_model_run(applied, k as nat)).1,
                    -(ONE as int),
                    ONE as int,
                ),
            forall|k: int| 0 <= k < i as int ==> -ONE <= #[trigger] out@[k] <= ONE,
        decreases n - i,
    {
        let v: i64 = synth.next_sample();
        out[i] = clamp64(v, -ONE, ONE);
        i = i + 1;
    }
}

} // verus!
