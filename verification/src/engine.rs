//! The synthesizer engine: a fixed pool of sixteen voices, global
//! parameters, note dispatch and the per-sample mixdown.
//!
//! A voice is free exactly when its `on` flag is down. `note_on` retriggers
//! a voice already sounding the note, else takes the first free slot, else
//! silently drops the note — there is no voice stealing.

use vstd::prelude::*;
use crate::fixed::{ONE, TIME_MAX, SR_MAX, tdiv, sclamp, clamp64, lemma_tdiv_mul_le};
use crate::adsr::{Adsr, spec_adsr_new, spec_note_on, spec_note_off, spec_env_tick, spec_retune};
use crate::note::{Note, spec_freq_millihz};
use crate::osc::{Osc, Waveform, spec_osc_new, spec_osc_tick, spec_osc_out};
use crate::filter::{
    Filter,
    FilterType,
    FilterTrait,
    TwoPoleLpf,
    spec_filter_new,
    spec_one_pole_with_cutoff,
    spec_two_pole_coeffs,
    SR_MIN,
    OUT_MAX,
};

verus! {

/// Size of the voice pool; at most this many notes sound at once.
pub const MAX_VOICES: usize = 16;

/// Magnitude bound on the unclamped mix of a full voice pool.
pub const MIX_MAX: i64 = 16 * 0x100_0004_0000;

/// One slot of the voice pool.
#[derive(Clone, Copy, Debug)]
pub struct Voice {
    /// The slot is occupied while this is up.
    pub on: bool,
    /// The note this voice sounds.
    pub note: Note,
    /// Amplitude envelope.
    pub asdr: Adsr,
    /// Tone generator.
    pub osc: Osc,
    /// Optional low-pass stage.
    pub filter: Option<Filter>,
}

impl Voice {
    pub open spec fn wf(self) -> bool {
        &&& self.asdr.wf()
        &&& self.osc.wf()
        &&& match self.filter {
            Option::Some(f) => f.f_wf(),
            Option::None => true,
        }
    }
}

/// The engine.
pub struct Synth {
    /// Sample rate in Hz.
    pub sr: i64,
    /// The fixed voice pool, always `MAX_VOICES` long.
    pub voices: Vec<Voice>,
    /// Output gain, Q16 in `[0, ONE]`.
    pub master_volume: i64,
    /// Default attack time for new notes, Q16 seconds.
    pub attack: i64,
    /// Default decay time, Q16 seconds.
    pub decay: i64,
    /// Default sustain level, Q16 in `[0, ONE]`.
    pub sustain: i64,
    /// Default release time, Q16 seconds.
    pub release: i64,
    /// Waveform given to newly allocated voices.
    pub waveform: Waveform,
    /// Filter given to newly allocated voices.
    pub filter_type: Option<FilterType>,
}

/// Index of the first active voice sounding `note` at or after `k`, or -1.
pub open spec fn find_same_note(vs: Seq<Voice>, note: Note, k: int) -> int
    decreases vs.len() - k,
{
    if k < 0 || k >= vs.len() {
        -1
    } else if vs[k].on && vs[k].note == note {
        k
    } else {
        find_same_note(vs, note, k + 1)
    }
}

/// Index of the first free voice at or after `k`, or -1.
pub open spec fn find_free(vs: Seq<Voice>, k: int) -> int
    decreases vs.len() - k,
{
    if k < 0 || k >= vs.len() {
        -1
    } else if !vs[k].on {
        k
    } else {
        find_free(vs, k + 1)
    }
}

/// A filter option with its history zeroed.
pub open spec fn spec_clear_filter(f: Option<Filter>) -> Option<Filter> {
    match f {
        Option::None => Option::None,
        Option::Some(g) => Option::Some(g.f_cleared()),
    }
}

/// The filter a fresh voice gets for the configured filter type.
pub open spec fn spec_make_filter(ft: Option<FilterType>, sr: int) -> Option<Filter> {
    match ft {
        Option::None => Option::None,
        Option::Some(t) => Option::Some(spec_filter_new(t, sr)),
    }
}

/// The envelope a fresh note starts with: built from the engine's current
/// ADSR constants and gated on.
pub open spec fn spec_fresh_adsr(s: Synth) -> Adsr {
    spec_note_on(spec_adsr_new(s.attack, s.decay, s.sustain, s.release, s.sr))
}

/// `note_off` on one voice: release it only if it actively sounds `note`.
pub open spec fn spec_voice_note_off(v: Voice, note: Note) -> Voice {
    if v.on && v.note == note {
        Voice { asdr: spec_note_off(v.asdr), ..v }
    } else {
        v
    }
}

/// A global ADSR edit applied to one voice: retune in place, and force a
/// still-audible envelope back into Attack.
pub open spec fn spec_voice_adsr_edit(v: Voice, a: i64, d: i64, s: i64, r: i64) -> Voice {
    if !v.on {
        v
    } else {
        let e1 = spec_retune(v.asdr, a, d, s, r);
        let e2 = if e1.level > 0 {
            spec_note_on(e1)
        } else {
            e1
        };
        Voice { asdr: e2, ..v }
    }
}

/// A global filter edit applied to one voice: clearing removes the stage,
/// the same topology keeps its history and only re-derives coefficients,
/// and a change of topology rebuilds the stage from scratch.
pub open spec fn spec_voice_set_filter(v: Voice, new: Option<FilterType>, sr: int) -> Voice {
    match (new, v.filter) {
        (Option::None, _) => Voice { filter: Option::None, ..v },
        (Option::Some(ft), Option::None) => Voice {
            filter: Option::Some(spec_filter_new(ft, sr)),
            ..v
        },
        (Option::Some(FilterType::OnePoleLpf(c)), Option::Some(Filter::OnePoleLpf(f))) => Voice {
            filter: Option::Some(
                Filter::OnePoleLpf(spec_one_pole_with_cutoff(f, sr, c as int)),
            ),
            ..v
        },
        (Option::Some(FilterType::TwoPoleLpf(c, q)), Option::Some(Filter::TwoPoleLpf(f))) => Voice {
            filter: Option::Some(
                Filter::TwoPoleLpf(spec_two_pole_coeffs(TwoPoleLpf { cutoff: c, q, ..f }, sr)),
            ),
            ..v
        },
        (Option::Some(ft), Option::Some(_)) => Voice {
            filter: Option::Some(spec_filter_new(ft, sr)),
            ..v
        },
    }
}

/// One voice advanced one sample: the new voice state and its (envelope-
/// scaled) contribution to the mix.
pub open spec fn spec_voice_tick(v: Voice) -> (Voice, int) {
    if !v.on {
        (v, 0)
    } else {
        let e = spec_env_tick(v.asdr);
        if e.level <= 0 {
            (Voice { on: false, asdr: e, ..v }, 0)
        } else {
            let s0 = spec_osc_out(v.osc);
            let o = spec_osc_tick(v.osc);
            match v.filter {
                Option::None => (Voice { asdr: e, osc: o, ..v }, tdiv(s0 * e.level, 65536)),
                Option::Some(f) => (
                    Voice { asdr: e, osc: o, filter: Option::Some(f.f_next(s0)), ..v },
                    tdiv(f.f_out(s0) * e.level, 65536),
                ),
            }
        }
    }
}

/// Sum of the contributions of the first `k` voices.
pub open spec fn spec_mix(vs: Seq<Voice>, k: int) -> int
    decreases k,
{
    if k <= 0 {
        0
    } else {
        spec_mix(vs, k - 1) + spec_voice_tick(vs[k - 1]).1
    }
}

/// The engine state at the specification level: the same fields as
/// `Synth`, with the voice pool as a sequence. Every mutating method's
/// contract is an equation on this state.
pub struct SynthM {
    pub sr: i64,
    pub voices: Seq<Voice>,
    pub master_volume: i64,
    pub attack: i64,
    pub decay: i64,
    pub sustain: i64,
    pub release: i64,
    pub waveform: Waveform,
    pub filter_type: Option<FilterType>,
}

/// What `note_on` does to the whole engine state.
pub open spec fn spec_model_note_on(m: SynthM, note: Note) -> SynthM {
    let fresh = spec_note_on(spec_adsr_new(m.attack, m.decay, m.sustain, m.release, m.sr));
    let i = find_same_note(m.voices, note, 0);
    let j = find_free(m.voices, 0);
    if i >= 0 {
        SynthM {
            voices: m.voices.update(
                i,
                (Voice {
                    asdr: fresh,
                    filter: spec_clear_filter(m.voices[i].filter),
                    ..m.voices[i]
                }),
            ),
            ..m
        }
    } else if j >= 0 {
        SynthM {
            voices: m.voices.update(
                j,
                (Voice {
                    on: true,
                    note,
                    asdr: fresh,
                    osc: spec_osc_new(spec_freq_millihz(note), m.sr as int, m.waveform),
                    filter: spec_make_filter(m.filter_type, m.sr as int),
                }),
            ),
            ..m
        }
    } else {
        m
    }
}

/// What `note_off` does to the whole engine state.
pub open spec fn spec_model_note_off(m: SynthM, note: Note) -> SynthM {
    SynthM {
        voices: Seq::new(m.voices.len(), |i: int| spec_voice_note_off(m.voices[i], note)),
        ..m
    }
}

/// What `set_master_volume` does to the whole engine state.
pub open spec fn spec_model_set_master_volume(m: SynthM, vol: i64) -> SynthM {
    SynthM { master_volume: sclamp(vol as int, 0, ONE as int) as i64, ..m }
}

/// What `set_adsr` does to the whole engine state.
pub open spec fn spec_model_set_adsr(m: SynthM, a: i64, d: i64, s: i64, r: i64) -> SynthM {
    SynthM {
        attack: sclamp(a as int, 0, TIME_MAX as int) as i64,
        decay: sclamp(d as int, 0, TIME_MAX as int) as i64,
        sustain: sclamp(s as int, 0, ONE as int) as i64,
        release: sclamp(r as int, 0, TIME_MAX as int) as i64,
        voices: Seq::new(m.voices.len(), |i: int| spec_voice_adsr_edit(m.voices[i], a, d, s, r)),
        ..m
    }
}

/// What `set_waveform` does to the whole engine state.
pub open spec fn spec_model_set_waveform(m: SynthM, new: Waveform) -> SynthM {
    SynthM {
        waveform: new,
        voices: Seq::new(
            m.voices.len(),
            |i: int|
                Voice { osc: Osc { waveform: new, ..m.voices[i].osc }, ..m.voices[i] },
        ),
        ..m
    }
}

/// What `set_filter` does to the whole engine state.
pub open spec fn spec_model_set_filter(m: SynthM, new: Option<FilterType>) -> SynthM {
    SynthM {
        filter_type: new,
        voices: Seq::new(
            m.voices.len(),
            |i: int| spec_voice_set_filter(m.voices[i], new, m.sr as int),
        ),
        ..m
    }
}

/// What `next_sample` does to the whole engine state, and the sample it
/// returns (before the renderer's clamp).
pub open spec fn spec_model_tick(m: SynthM) -> (SynthM, int) {
    if m.master_volume == 0 {
        (m, 0)
    } else {
        (
            SynthM {
                voices: Seq::new(m.voices.len(), |i: int| spec_voice_tick(m.voices[i]).0),
                ..m
            },
            tdiv(spec_mix(m.voices, m.voices.len() as int) * m.master_volume as int, 65536),
        )
    }
}

/// Advancing a voice one sample never changes which waveform its
/// oscillator plays: a waveform set once holds for every later sample.
pub proof fn lemma_tick_keeps_waveform(v: Voice)
    ensures
        spec_voice_tick(v).0.osc.waveform == v.osc.waveform,
{
}

/// A `note_off` for a voice whose gate is already down — one releasing or
/// idle — leaves the voice exactly as it is: the release is neither
/// restarted nor stretched.
pub proof fn lemma_voice_note_off_idempotent(v: Voice, note: Note)
    requires
        !v.asdr.gate,
    ensures
        spec_voice_note_off(v, note) == v,
{
    crate::adsr::lemma_note_off_idempotent(v.asdr);
}

impl Synth {
    pub open spec fn wf(self) -> bool {
        &&& SR_MIN <= self.sr <= SR_MAX
        &&& self.voices.len() == MAX_VOICES
        &&& (forall|i: int|
            0 <= i < self.voices.len() ==> (#[trigger] self.voices[i]).wf())
        &&& 0 <= self.master_volume <= ONE
        &&& 0 <= self.attack <= TIME_MAX
        &&& 0 <= self.decay <= TIME_MAX
        &&& 0 <= self.sustain <= ONE
        &&& 0 <= self.release <= TIME_MAX
    }

    /// This engine's specification-level state.
    pub open spec fn model(self) -> SynthM {
        SynthM {
            sr: self.sr,
            voices: self.voices@,
            master_volume: self.master_volume,
            attack: self.attack,
            decay: self.decay,
            sustain: self.sustain,
            release: self.release,
            waveform: self.waveform,
            filter_type: self.filter_type,
        }
    }

    /// All global parameters coincide (the voice pool may differ).
    pub open spec fn same_globals(self, o: Synth) -> bool {
        &&& self.sr == o.sr
        &&& self.master_volume == o.master_volume
        &&& self.attack == o.attack
        &&& self.decay == o.decay
        &&& self.sustain == o.sustain
        &&& self.release == o.release
        &&& self.waveform == o.waveform
        &&& self.filter_type == o.filter_type
    }

    /// Build an engine with sixteen silent voices and the default globals:
    /// a fifth of full volume, instant attack, half-second decay and
    /// release, full sustain.
    pub fn new(sr: i64, waveform: Waveform, filter_type: Option<FilterType>) -> (s: Synth)
        requires
            SR_MIN <= sr <= SR_MAX,
        ensures
            s.wf(),
            s.sr == sr,
            s.waveform == waveform,
            s.filter_type == filter_type,
            s.master_volume == 13107,
            s.attack == 0 && s.decay == 32768 && s.sustain == ONE && s.release == 32768,
            forall|i: int| 0 <= i < MAX_VOICES ==> !(#[trigger] s.voices[i]).on,
    {
        let mut voices: Vec<Voice> = Vec::new();
        let mut k: usize = 0;
        while k < MAX_VOICES
            invariant
                voices.len() == k,
                k <= MAX_VOICES,
                SR_MIN <= sr <= SR_MAX,
                forall|i: int|
                    0 <= i < k as int ==> !(#[trigger] voices[i]).on && voices[i].wf(),
            decreases MAX_VOICES - k,
        {
            let v = Voice {
                on: false,
                note: Note::Rest,
                asdr: Adsr::new(0, 0, 0, 0, sr),
                osc: Osc::new(0, sr, waveform),
                filter: Option::None,
            };
            voices.push(v);
            k = k + 1;
        }
        Synth {
            sr,
            voices,
            master_volume: 13107,
            attack: 0,
            decay: 32768,
            sustain: ONE,
            release: 32768,
            waveform,
            filter_type,
        }
    }

    /// Start (or retrigger) `note`. A voice already sounding it gets a
    /// fresh envelope and cleared filter history, keeping its oscillator
    /// phase; otherwise the first free slot is activated; with no free slot
    /// the note is silently dropped.
    pub fn note_on(&mut self, note: Note)
        requires
            old(self).wf(),
        ensures
            final(self).wf(),
            final(self).same_globals(*old(self)),
            final(self).voices.len() == MAX_VOICES,
            ({
                let vs = old(self).voices@;
                let fresh = spec_fresh_adsr(*old(self));
                let i = find_same_note(vs, note, 0);
                let j = find_free(vs, 0);
                if i >= 0 {
                    final(self).voices@ == vs.update(
                        i,
                        (Voice { asdr: fresh, filter: spec_clear_filter(vs[i].filter), ..vs[i] }),
                    )
                } else if j >= 0 {
                    final(self).voices@ == vs.update(
                        j,
                        (Voice {
                            on: true,
                            note,
                            asdr: fresh,
                            osc: spec_osc_new(
                                spec_freq_millihz(note),
                                old(self).sr as int,
                                old(self).waveform,
                            ),
                            filter: spec_make_filter(
                                old(self).filter_type,
                                old(self).sr as int,
                            ),
                        }),
                    )
                } else {
                    final(self).voices@ == vs
                }
            }),
            final(self).model() == spec_model_note_on(old(self).model(), note),
    {
        let mut adsr = Adsr::new(self.attack, self.decay, self.sustain, self.release, self.sr);
        adsr.note_on();

        let ghost vs = self.voices@;
        let mut i: usize = 0;
        let mut hit: usize = MAX_VOICES;
        while i < MAX_VOICES
            invariant
                i <= MAX_VOICES,
                self.voices@ == vs,
                vs.len() == MAX_VOICES,
                hit <= MAX_VOICES,
                hit == MAX_VOICES ==> find_same_note(vs, note, 0) == find_same_note(
                    vs,
                    note,
                    i as int,
                ),
                hit < MAX_VOICES ==> find_same_note(vs, note, 0) == hit as int,
            decreases MAX_VOICES - i,
        {
            if hit == MAX_VOICES && self.voices[i].on && self.voices[i].note == note {
                hit = i;
            }
            i = i + 1;
        }
        if hit < MAX_VOICES {
            let v = self.voices[hit];
            let cleared: Option<Filter> = match v.filter {
                Option::None => Option::None,
                Option::Some(mut f) => {
                    f.reset();
                    Option::Some(f)
                },
            };
            self.voices[hit] = Voice { asdr: adsr, filter: cleared, ..v };
            return ;
        }
        proof {
            assert(find_same_note(vs, note, MAX_VOICES as int) == -1);
        }

        let mut j: usize = 0;
        let mut free: usize = MAX_VOICES;
        while j < MAX_VOICES
            invariant
                j <= MAX_VOICES,
                self.voices@ == vs,
                vs.len() == MAX_VOICES,
                free <= MAX_VOICES,
                free == MAX_VOICES ==> find_free(vs, 0) == find_free(vs, j as int),
                free < MAX_VOICES ==> find_free(vs, 0) == free as int,
            decreases MAX_VOICES - j,
        {
            if free == MAX_VOICES && !self.voices[j].on {
                free = j;
            }
            j = j + 1;
        }
        proof {
            if free == MAX_VOICES {
                assert(find_free(vs, MAX_VOICES as int) == -1);
            }
        }
        if free < MAX_VOICES {
            let freq: i64 = note.freq_millihz();
            let osc = Osc::new(freq, self.sr, self.waveform);
            let filter: Option<Filter> = match self.filter_type {
                Option::None => Option::None,
                Option::Some(ft) => Option::Some(Filter::new(ft, self.sr)),
            };
            self.voices[free] = Voice { on: true, note, asdr: adsr, osc, filter };
        }
    }

    /// Release every active voice sounding `note`.
    pub fn note_off(&mut self, note: Note)
        requires
            old(self).wf(),
        ensures
            final(self).wf(),
            final(self).same_globals(*old(self)),
            final(self).voices.len() == MAX_VOICES,
            forall|i: int|
                0 <= i < MAX_VOICES ==> final(self).voices[i] == spec_voice_note_off(
                    #[trigger] old(self).voices[i],
                    note,
                ),
            final(self).model() == spec_model_note_off(old(self).model(), note),
    {
        let mut i: usize = 0;
        while i < MAX_VOICES
            invariant
                i <= MAX_VOICES,
                old(self).wf(),
                self.voices.len() == MAX_VOICES,
                self.same_globals(*old(self)),
                forall|j: int|
                    i as int <= j < MAX_VOICES ==> self.voices[j] == old(self).voices[j],
                forall|j: int|
                    0 <= j < i as int ==> self.voices[j] == spec_voice_note_off(
                        #[trigger] old(self).voices[j],
                        note,
                    ),
                forall|j: int| 0 <= j < i as int ==> (#[trigger] self.voices[j]).wf(),
            decreases MAX_VOICES - i,
        {
            let v = self.voices[i];
            if v.on && v.note == note {
                let mut a = v.asdr;
                a.note_off();
                self.voices[i] = Voice { asdr: a, ..v };
            }
            i = i + 1;
        }
        proof {
            assert(self.voices@ =~= Seq::new(
                old(self).voices@.len(),
                |j: int| spec_voice_note_off(old(self).voices@[j], note),
            ));
        }
    }

    /// Set the output gain, clamped into `[0, ONE]`; it takes effect on the
    /// very next sample.
    pub fn set_master_volume(&mut self, vol: i64)
        requires
            old(self).wf(),
        ensures
            final(self).wf(),
            final(self).master_volume == sclamp(vol as int, 0, ONE as int),
            0 <= final(self).master_volume <= ONE,
            *final(self) == (Synth { master_volume: final(self).master_volume, ..*old(self) }),
            final(self).model() == spec_model_set_master_volume(old(self).model(), vol),
    {
        self.master_volume = clamp64(vol, 0, ONE);
    }

    /// Replace the global ADSR constants (clamped into range) and retune
    /// every active voice in place; a voice still audible is forced back
    /// into Attack.
    pub fn set_adsr(&mut self, a: i64, d: i64, s: i64, r: i64)
        requires
            old(self).wf(),
        ensures
            final(self).wf(),
            final(self).attack == sclamp(a as int, 0, TIME_MAX as int),
            final(self).decay == sclamp(d as int, 0, TIME_MAX as int),
            final(self).sustain == sclamp(s as int, 0, ONE as int),
            final(self).release == sclamp(r as int, 0, TIME_MAX as int),
            0 <= final(self).sustain <= ONE,
            final(self).attack >= 0 && final(self).decay >= 0 && final(self).release >= 0,
            final(self).sr == old(self).sr && final(self).master_volume == old(self).master_volume && final(self).waveform == old(self).waveform && final(self).filter_type == old(self).filter_type,
            final(self).voices.len() == MAX_VOICES,
            forall|i: int|
                0 <= i < MAX_VOICES ==> final(self).voices[i] == spec_voice_adsr_edit(
                    #[trigger] old(self).voices[i],
                    a,
                    d,
                    s,
                    r,
                ),
            final(self).model() == spec_model_set_adsr(old(self).model(), a, d, s, r),
    {
        self.attack = clamp64(a, 0, TIME_MAX);
        self.decay = clamp64(d, 0, TIME_MAX);
        self.sustain = clamp64(s, 0, ONE);
        self.release = clamp64(r, 0, TIME_MAX);
        let mut i: usize = 0;
        while i < MAX_VOICES
            invariant
                i <= MAX_VOICES,
                old(self).wf(),
                self.voices.len() == MAX_VOICES,
                self.sr == old(self).sr && self.master_volume == old(self).master_volume
                    && self.waveform == old(self).waveform && self.filter_type == old(self).filter_type,
                self.attack == sclamp(a as int, 0, TIME_MAX as int),
                self.decay == sclamp(d as int, 0, TIME_MAX as int),
                self.sustain == sclamp(s as int, 0, ONE as int),
                self.release == sclamp(r as int, 0, TIME_MAX as int),
                forall|j: int|
                    i as int <= j < MAX_VOICES ==> self.voices[j] == old(self).voices[j],
                forall|j: int|
                    0 <= j < i as int ==> self.voices[j] == spec_voice_adsr_edit(
                        #[trigger] old(self).voices[j],
                        a,
                        d,
                        s,
                        r,
                    ),
                forall|j: int| 0 <= j < i as int ==> (#[trigger] self.voices[j]).wf(),
            decreases MAX_VOICES - i,
        {
            let v = self.voices[i];
            if v.on {
                let mut env = v.asdr;
                env.retune(a, d, s, r);
                if env.is_active() {
                    env.note_on();
                }
                self.voices[i] = Voice { asdr: env, ..v };
            }
            i = i + 1;
        }
        proof {
            assert(self.voices@ =~= Seq::new(
                old(self).voices@.len(),
                |j: int| spec_voice_adsr_edit(old(self).voices@[j], a, d, s, r),
            ));
        }
    }

    /// Swap the waveform, both as the default for new voices and live in
    /// every existing oscillator (phase preserved).
    pub fn set_waveform(&mut self, new: Waveform)
        requires
            old(self).wf(),
        ensures
            final(self).wf(),
            final(self).waveform == new,
            final(self).sr == old(self).sr && final(self).master_volume == old(self).master_volume && final(self).attack == old(self).attack && final(self).decay
                == old(self).decay && final(self).sustain == old(self).sustain && final(self).release == old(self).release && final(self).filter_type == old(self).filter_type,
            final(self).voices.len() == MAX_VOICES,
            forall|i: int|
                0 <= i < MAX_VOICES ==> final(self).voices[i] == (Voice {
                    osc: (Osc { waveform: new, ..old(self).voices[i].osc }),
                    ..(#[trigger] old(self).voices[i])
                }),
            final(self).model() == spec_model_set_waveform(old(self).model(), new),
    {
        self.waveform = new;
        let mut i: usize = 0;
        while i < MAX_VOICES
            invariant
                i <= MAX_VOICES,
                old(self).wf(),
                self.voices.len() == MAX_VOICES,
                self.sr == old(self).sr && self.master_volume == old(self).master_volume
                    && self.attack == old(self).attack && self.decay == old(self).decay
                    && self.sustain == old(self).sustain && self.release == old(self).release
                    && self.filter_type == old(self).filter_type,
                self.waveform == new,
                forall|j: int|
                    i as int <= j < MAX_VOICES ==> self.voices[j] == old(self).voices[j],
                forall|j: int|
                    0 <= j < i as int ==> self.voices[j] == (Voice {
                        osc: (Osc { waveform: new, ..old(self).voices[j].osc }),
                        ..(#[trigger] old(self).voices[j])
                    }),
                forall|j: int| 0 <= j < i as int ==> (#[trigger] self.voices[j]).wf(),
            decreases MAX_VOICES - i,
        {
            let v = self.voices[i];
            let mut o = v.osc;
            o.set_waveform(new);
            self.voices[i] = Voice { osc: o, ..v };
            i = i + 1;
        }
        proof {
            assert(self.voices@ =~= Seq::new(
                old(self).voices@.len(),
                |j: int|
                    Voice {
                        osc: Osc { waveform: new, ..old(self).voices@[j].osc },
                        ..old(self).voices@[j]
                    },
            ));
        }
    }

    /// Swap the filter configuration, both as the default for new voices
    /// and live in every existing voice; see `spec_voice_set_filter` for
    /// what happens to each.
    pub fn set_filter(&mut self, new: Option<FilterType>)
        requires
            old(self).wf(),
        ensures
            final(self).wf(),
            final(self).filter_type == new,
            final(self).sr == old(self).sr && final(self).master_volume == old(self).master_volume && final(self).attack == old(self).attack && final(self).decay
                == old(self).decay && final(self).sustain == old(self).sustain && final(self).release == old(self).release && final(self).waveform == old(self).waveform,
            final(self).voices.len() == MAX_VOICES,
            forall|i: int|
                0 <= i < MAX_VOICES ==> final(self).voices[i] == spec_voice_set_filter(
                    #[trigger] old(self).voices[i],
                    new,
                    old(self).sr as int,
                ),
            final(self).model() == spec_model_set_filter(old(self).model(), new),
    {
        self.filter_type = new;
        let mut i: usize = 0;
        while i < MAX_VOICES
            invariant
                i <= MAX_VOICES,
                old(self).wf(),
                SR_MIN <= self.sr <= SR_MAX,
                self.voices.len() == MAX_VOICES,
                self.sr == old(self).sr && self.master_volume == old(self).master_volume
                    && self.attack == old(self).attack && self.decay == old(self).decay
                    && self.sustain == old(self).sustain && self.release == old(self).release
                    && self.waveform == old(self).waveform,
                self.filter_type == new,
                forall|j: int|
                    i as int <= j < MAX_VOICES ==> self.voices[j] == old(self).voices[j],
                forall|j: int|
                    0 <= j < i as int ==> self.voices[j] == spec_voice_set_filter(
                        #[trigger] old(self).voices[j],
                        new,
                        old(self).sr as int,
                    ),
                forall|j: int| 0 <= j < i as int ==> (#[trigger] self.voices[j]).wf(),
            decreases MAX_VOICES - i,
        {
            let v = self.voices[i];
            let nv: Voice = match (new, v.filter) {
                (Option::None, _) => Voice { filter: Option::None, ..v },
                (Option::Some(ft), Option::None) => Voice {
                    filter: Option::Some(Filter::new(ft, self.sr)),
                    ..v
                },
                (Option::Some(FilterType::OnePoleLpf(c)), Option::Some(
                    Filter::OnePoleLpf(mut f),
                )) => {
                    f.set_cutoff(self.sr, c);
                    Voice { filter: Option::Some(Filter::OnePoleLpf(f)), ..v }
                },
                (Option::Some(FilterType::TwoPoleLpf(c, q)), Option::Some(
                    Filter::TwoPoleLpf(mut f),
                )) => {
                    f.set_params(self.sr, c, q);
                    Voice { filter: Option::Some(Filter::TwoPoleLpf(f)), ..v }
                },
                (Option::Some(ft), Option::Some(_)) => Voice {
                    filter: Option::Some(Filter::new(ft, self.sr)),
                    ..v
                },
            };
            self.voices[i] = nv;
            i = i + 1;
        }
        proof {
            assert(self.voices@ =~= Seq::new(
                old(self).voices@.len(),
                |j: int| spec_voice_set_filter(old(self).voices@[j], new, old(self).sr as int),
            ));
        }
    }

    /// Advance every active voice one sample and mix their contributions,
    /// scaled by the master volume. A zero master volume short-circuits:
    /// nothing advances and silence is returned. A voice whose envelope
    /// has died is freed and contributes nothing.
    pub fn next_sample(&mut self) -> (out: i64)
        requires
            old(self).wf(),
        ensures
            final(self).wf(),
            final(self).same_globals(*old(self)),
            old(self).master_volume == 0 ==> *final(self) == *old(self) && out == 0,
            old(self).master_volume != 0 ==> final(self).voices.len() == MAX_VOICES && (forall|
                i: int,
            |
                0 <= i < MAX_VOICES ==> final(self).voices[i] == spec_voice_tick(
                    #[trigger] old(self).voices[i],
                ).0) && out == tdiv(
                spec_mix(old(self).voices@, MAX_VOICES as int) * old(self).master_volume as int,
                65536,
            ),
            -MIX_MAX <= out <= MIX_MAX,
            final(self).model() == spec_model_tick(old(self).model()).0,
            out == spec_model_tick(old(self).model()).1,
    {
        if self.master_volume == 0 {
            return 0;
        }
        let mut sum: i64 = 0;
        let mut i: usize = 0;
        while i < MAX_VOICES
            invariant
                i <= MAX_VOICES,
                old(self).wf(),
                old(self).master_volume != 0,
                self.voices.len() == MAX_VOICES,
                self.same_globals(*old(self)),
                forall|j: int|
                    i as int <= j < MAX_VOICES ==> self.voices[j] == old(self).voices[j],
                forall|j: int|
                    0 <= j < i as int ==> self.voices[j] == spec_voice_tick(
                        #[trigger] old(self).voices[j],
                    ).0,
                forall|j: int| 0 <= j < i as int ==> (#[trigger] self.voices[j]).wf(),
                sum == spec_mix(old(self).voices@, i as int),
                -(i as int) * OUT_MAX as int <= sum <= (i as int) * OUT_MAX as int,
            decreases MAX_VOICES - i,
        {
            let v = self.voices[i];
            let mut vpart: i64 = 0;
            if v.on {
                let mut env = v.asdr;
                let lvl = env.next_sample();
                if lvl <= 0 {
                    self.voices[i] = Voice { on: false, asdr: env, ..v };
                } else {
                    let mut o = v.osc;
                    let s0 = o.next_sample();
                    let (nf, filtered): (Option<Filter>, i64) = match v.filter {
                        Option::None => (Option::None, s0),
                        Option::Some(mut f) => {
                            let y = f.process(s0);
                            (Option::Some(f), y)
                        },
                    };
                    proof {
                        assert(-(OUT_MAX as int) * 65536 <= filtered as int * lvl as int
                            <= OUT_MAX as int * 65536) by (nonlinear_arith)
                            requires
                                -OUT_MAX <= filtered <= OUT_MAX,
                                0 <= lvl <= 65536,
                        ;
                        lemma_tdiv_mul_le(filtered as int, lvl as int, 65536);
                    }
                    vpart = (filtered * lvl) / ONE;
                    self.voices[i] = Voice { asdr: env, osc: o, filter: nf, ..v };
                }
            }
            sum = sum + vpart;
            i = i + 1;
        }
        proof {
            assert(-(MIX_MAX as int) * 65536 <= sum as int * self.master_volume as int <= (
            MIX_MAX as int) * 65536) by (nonlinear_arith)
                requires -MIX_MAX <= sum <= MIX_MAX, 0 <= self.master_volume <= 65536,
            ;
            lemma_tdiv_mul_le(sum as int, self.master_volume as int, 65536);
            assert(self.voices@ =~= Seq::new(
                old(self).voices@.len(),
                |j: int| spec_voice_tick(old(self).voices@[j]).0,
            ));
        }
        (sum * self.master_volume) / ONE
    }
}

} // verus!
