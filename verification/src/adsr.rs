//! The per-voice ADSR amplitude envelope.
//!
//! A linear state machine `Idle -> Attack -> Decay -> Sustain -> Release ->
//! Idle`. Levels are Q16 (`ONE` is full level), stage times are Q16 seconds.
//! A stage of zero length completes inside the very call that enters it and
//! chains into the next stage. Levels are integers, so no denormal guard is
//! needed: a level is silent exactly when it is zero.

use vstd::prelude::*;
use crate::fixed::{ONE, TIME_MAX, SR_MAX, tdiv, sclamp, ramp_level, lemma_ramp_bounds, clamp64};

verus! {

/// Largest number of samples one stage can span:
/// `TIME_MAX / ONE` seconds at `SR_MAX` samples per second.
pub const TOTAL_MAX: i64 = 3600000000;

/// The envelope's stage.
#[derive(Clone, Copy, Debug, PartialEq, Eq, Structural)]
pub enum EnvState {
    Idle,
    Attack,
    Decay,
    Sustain,
    Release,
}

/// ADSR envelope generator. A ramping stage (Attack, Decay, Release) moves
/// `level` linearly from `start` to `target` over `total` samples, of which
/// `done` have elapsed.
#[derive(Clone, Copy, Debug)]
pub struct Adsr {
    /// Attack time, Q16 seconds.
    pub a: i64,
    /// Decay time, Q16 seconds.
    pub d: i64,
    /// Sustain level, Q16 in `[0, ONE]`.
    pub s: i64,
    /// Release time, Q16 seconds.
    pub r: i64,
    /// Sample rate in Hz.
    pub sr: i64,
    /// Current stage.
    pub state: EnvState,
    /// Current output level, Q16 in `[0, ONE]`.
    pub level: i64,
    /// True while the note is held.
    pub gate: bool,
    /// Level the current stage moves toward.
    pub target: i64,
    /// Level the current stage started from.
    pub start: i64,
    /// Length of the current stage in samples (ramping stages only).
    pub total: i64,
    /// Samples of the current stage already elapsed.
    pub done: i64,
}

/// Number of samples a stage of `time` Q16 seconds spans: `ceil(time * sr / ONE)`.
pub open spec fn stage_total_i(time: i64, sr: i64) -> i64 {
    ((time * sr + 65535) / 65536) as i64
}

impl Adsr {
    /// The stage is one that ramps the level.
    pub open spec fn is_ramping(self) -> bool {
        self.state is Attack || self.state is Decay || self.state is Release
    }

    /// Range invariants on the constants and the level alone.
    pub open spec fn params_wf(self) -> bool {
        &&& 1 <= self.sr <= SR_MAX
        &&& 0 <= self.a <= TIME_MAX
        &&& 0 <= self.d <= TIME_MAX
        &&& 0 <= self.r <= TIME_MAX
        &&& 0 <= self.s <= ONE
        &&& 0 <= self.level <= ONE
        &&& 0 <= self.target <= ONE
    }

    /// Full well-formedness: ranges, coupling of `gate` to the stage, and the ramp
    /// bookkeeping of the active stage.
    pub open spec fn wf(self) -> bool {
        &&& self.params_wf()
        &&& (self.gate <==> (self.state is Attack || self.state is Decay
            || self.state is Sustain))
        &&& (self.is_ramping() ==> {
            &&& 1 <= self.total <= TOTAL_MAX
            &&& 0 <= self.done < self.total
            &&& 0 <= self.start <= ONE
            &&& self.level == ramp_level(
                self.start as int,
                self.target as int,
                self.total as int,
                self.done as int,
            )
        })
        &&& (self.state is Attack ==> self.target == ONE)
        &&& (self.state is Release ==> self.target == 0)
        &&& (self.state is Idle ==> self.level == 0)
    }
}

/// A fresh envelope: all constants clamped into range, stage `Idle`, level 0.
pub open spec fn spec_adsr_new(a: i64, d: i64, s: i64, r: i64, sr: i64) -> Adsr {
    Adsr {
        a: sclamp(a as int, 0, TIME_MAX as int) as i64,
        d: sclamp(d as int, 0, TIME_MAX as int) as i64,
        s: sclamp(s as int, 0, ONE as int) as i64,
        r: sclamp(r as int, 0, TIME_MAX as int) as i64,
        sr,
        state: EnvState::Idle,
        level: 0,
        gate: false,
        target: 0,
        start: 0,
        total: 1,
        done: 0,
    }
}

/// Entering Release: target 0 over `r` seconds from the current level; a
/// zero-length or already-finished release falls through to Idle at once.
pub open spec fn spec_enter_release(e: Adsr) -> Adsr {
    if e.r == 0 || e.level == 0 {
        Adsr { state: EnvState::Idle, target: 0, level: 0, ..e }
    } else {
        Adsr {
            state: EnvState::Release,
            target: 0,
            start: e.level,
            total: stage_total_i(e.r, e.sr),
            done: 0,
            ..e
        }
    }
}

/// Entering Sustain: the level is pinned to the configured sustain value.
pub open spec fn spec_enter_sustain(e: Adsr) -> Adsr {
    Adsr { state: EnvState::Sustain, level: e.s, target: e.s, ..e }
}

/// Entering Decay: toward the sustain level over `d` seconds; a zero-length
/// decay chains at once into Sustain (gate held) or Release.
pub open spec fn spec_enter_decay(e: Adsr) -> Adsr {
    if e.d == 0 || e.level == e.s {
        let e2 = Adsr { state: EnvState::Decay, target: e.s, level: e.s, ..e };
        if e2.gate {
            spec_enter_sustain(e2)
        } else {
            spec_enter_release(e2)
        }
    } else {
        Adsr {
            state: EnvState::Decay,
            target: e.s,
            start: e.level,
            total: stage_total_i(e.d, e.sr),
            done: 0,
            ..e
        }
    }
}

/// Entering Attack: toward full level over `a` seconds; a zero-length attack
/// chains at once into Decay (gate held) or Release.
pub open spec fn spec_enter_attack(e: Adsr) -> Adsr {
    if e.a == 0 || e.level == ONE {
        let e2 = Adsr { state: EnvState::Attack, target: ONE, level: ONE, ..e };
        if e2.gate {
            spec_enter_decay(e2)
        } else {
            spec_enter_release(e2)
        }
    } else {
        Adsr {
            state: EnvState::Attack,
            target: ONE,
            start: e.level,
            total: stage_total_i(e.a, e.sr),
            done: 0,
            ..e
        }
    }
}

/// What follows once a ramping stage has hit its target.
pub open spec fn spec_advance(e: Adsr) -> Adsr {
    match e.state {
        EnvState::Attack => if e.gate {
            spec_enter_decay(e)
        } else {
            spec_enter_release(e)
        },
        EnvState::Decay => if e.gate {
            spec_enter_sustain(e)
        } else {
            spec_enter_release(e)
        },
        EnvState::Release => Adsr { state: EnvState::Idle, level: 0, ..e },
        _ => e,
    }
}

/// `note_on`: raise `gate` and enter Attack from the current level.
pub open spec fn spec_note_on(e: Adsr) -> Adsr {
    spec_enter_attack(Adsr { gate: true, ..e })
}

/// `note_off`: drop `gate` and enter Release; a no-op while `gate` is
/// already down (the voice is releasing or idle).
pub open spec fn spec_note_off(e: Adsr) -> Adsr {
    if e.gate {
        spec_enter_release(Adsr { gate: false, ..e })
    } else {
        e
    }
}

/// `retune`: the constants replaced (clamped), everything else untouched.
pub open spec fn spec_retune(e: Adsr, a: i64, d: i64, s: i64, r: i64) -> Adsr {
    Adsr {
        a: sclamp(a as int, 0, TIME_MAX as int) as i64,
        d: sclamp(d as int, 0, TIME_MAX as int) as i64,
        s: sclamp(s as int, 0, ONE as int) as i64,
        r: sclamp(r as int, 0, TIME_MAX as int) as i64,
        ..e
    }
}

/// One sample of envelope time.
pub open spec fn spec_env_tick(e: Adsr) -> Adsr {
    match e.state {
        EnvState::Idle => Adsr { level: 0, ..e },
        EnvState::Sustain => {
            let e1 = Adsr { level: e.s, ..e };
            if !e1.gate {
                spec_enter_release(e1)
            } else {
                e1
            }
        },
        _ => {
            let done1 = e.done + 1int;
            let lvl = ramp_level(e.start as int, e.target as int, e.total as int, done1);
            let e1 = Adsr { done: done1 as i64, level: lvl as i64, ..e };
            if done1 == e.total {
                spec_advance(Adsr { level: e.target, ..e1 })
            } else {
                e1
            }
        },
    }
}

impl Adsr {
    /// Build an envelope; the sustain level and all times are clamped into
    /// their valid ranges.
    pub fn new(a: i64, d: i64, s: i64, r: i64, sr: i64) -> (e: Adsr)
        requires
            1 <= sr <= SR_MAX,
        ensures
            e == spec_adsr_new(a, d, s, r, sr),
            e.wf(),
    {
        Adsr {
            a: clamp64(a, 0, TIME_MAX),
            d: clamp64(d, 0, TIME_MAX),
            s: clamp64(s, 0, ONE),
            r: clamp64(r, 0, TIME_MAX),
            sr,
            state: EnvState::Idle,
            level: 0,
            gate: false,
            target: 0,
            start: 0,
            total: 1,
            done: 0,
        }
    }

    /// Replace the time/level constants without touching the running stage;
    /// they take effect at the next stage transition.
    pub fn retune(&mut self, a: i64, d: i64, s: i64, r: i64)
        requires
            old(self).wf(),
        ensures
            final(self).wf(),
            *final(self) == spec_retune(*old(self), a, d, s, r),
    {
        self.a = clamp64(a, 0, TIME_MAX);
        self.d = clamp64(d, 0, TIME_MAX);
        self.s = clamp64(s, 0, ONE);
        self.r = clamp64(r, 0, TIME_MAX);
    }

    /// Number of samples a stage lasts; zero exactly for a zero time.
    fn stage_samples(&self, time: i64) -> (n: i64)
        requires
            self.params_wf(),
            0 <= time <= TIME_MAX,
        ensures
            n == stage_total_i(time, self.sr),
            time == 0 ==> n == 0,
            time >= 1 ==> 1 <= n <= TOTAL_MAX,
    {
        proof {
            assert(time * self.sr <= TIME_MAX as int * SR_MAX as int) by (nonlinear_arith)
                requires 0 <= time <= TIME_MAX, 1 <= self.sr <= SR_MAX,
            ;
            assert(time >= 1 ==> time * self.sr >= 1) by (nonlinear_arith)
                requires self.sr >= 1,
            ;
            assert(time == 0 ==> time * self.sr == 0) by (nonlinear_arith);
            assert((TIME_MAX as int * SR_MAX as int + 65535) / 65536 <= TOTAL_MAX as int);
        }
        (time * self.sr + 65535) / 65536
    }

    fn enter_release(&mut self)
        requires
            old(self).params_wf(),
            !old(self).gate,
        ensures
            *final(self) == spec_enter_release(*old(self)),
            final(self).wf(),
            final(self).state is Release || final(self).state is Idle,
    {
        self.state = EnvState::Release;
        self.target = 0;
        if self.r == 0 || self.level == 0 {
            // zero-length stage: complete it within this call
            self.level = 0;
            self.state = EnvState::Idle;
        } else {
            self.start = self.level;
            self.total = self.stage_samples(self.r);
            self.done = 0;
            proof {
                lemma_ramp_bounds(
                    self.start as int,
                    self.target as int,
                    self.total as int,
                    0,
                );
            }
        }
    }

    fn enter_sustain(&mut self)
        requires
            old(self).params_wf(),
            old(self).gate,
        ensures
            *final(self) == spec_enter_sustain(*old(self)),
            final(self).wf(),
    {
        self.state = EnvState::Sustain;
        self.level = self.s;
        self.target = self.s;
    }

    fn enter_decay(&mut self)
        requires
            old(self).params_wf(),
        ensures
            *final(self) == spec_enter_decay(*old(self)),
            old(self).gate ==> final(self).wf(),
    {
        self.state = EnvState::Decay;
        self.target = self.s;
        if self.d == 0 || self.level == self.s {
            self.level = self.s;
            if self.gate {
                self.enter_sustain();
            } else {
                self.enter_release();
            }
        } else {
            self.start = self.level;
            self.total = self.stage_samples(self.d);
            self.done = 0;
            proof {
                lemma_ramp_bounds(
                    self.start as int,
                    self.target as int,
                    self.total as int,
                    0,
                );
            }
        }
    }

    fn enter_attack(&mut self)
        requires
            old(self).params_wf(),
        ensures
            *final(self) == spec_enter_attack(*old(self)),
            old(self).gate ==> final(self).wf(),
    {
        self.state = EnvState::Attack;
        self.target = ONE;
        if self.a == 0 || self.level == ONE {
            self.level = ONE;
            if self.gate {
                self.enter_decay();
            } else {
                self.enter_release();
            }
        } else {
            self.start = self.level;
            self.total = self.stage_samples(self.a);
            self.done = 0;
            proof {
                lemma_ramp_bounds(
                    self.start as int,
                    self.target as int,
                    self.total as int,
                    0,
                );
            }
        }
    }

    /// Chain to the stage that follows a finished ramp.
    fn advance_after_hit(&mut self)
        requires
            old(self).params_wf(),
            old(self).is_ramping(),
            old(self).level == old(self).target,
            old(self).gate <==> (old(self).state is Attack || old(self).state is Decay),
            old(self).state is Release ==> old(self).target == 0,
        ensures
            *final(self) == spec_advance(*old(self)),
            final(self).wf(),
    {
        match self.state {
            EnvState::Attack => {
                if self.gate {
                    self.enter_decay();
                } else {
                    self.enter_release();
                }
            },
            EnvState::Decay => {
                if self.gate {
                    self.enter_sustain();
                } else {
                    self.enter_release();
                }
            },
            EnvState::Release => {
                self.state = EnvState::Idle;
                self.level = 0;
            },
            EnvState::Sustain | EnvState::Idle => {},
        }
    }

    /// Raise `gate` and restart the attack from the current level.
    pub fn note_on(&mut self)
        requires
            old(self).params_wf(),
        ensures
            *final(self) == spec_note_on(*old(self)),
            final(self).wf(),
    {
        self.gate = true;
        self.enter_attack();
    }

    /// Drop `gate` and begin the release from the current level. On a
    /// voice already releasing (or idle) this is a no-op: the release is
    /// neither restarted nor extended.
    pub fn note_off(&mut self)
        requires
            old(self).wf(),
        ensures
            *final(self) == spec_note_off(*old(self)),
            final(self).wf(),
            old(self).state is Release || old(self).state is Idle ==> *final(self) == *old(
                self,
            ),
    {
        if self.gate {
            self.gate = false;
            self.enter_release();
        }
    }

    /// Advance one sample and return the current level.
    pub fn next_sample(&mut self) -> (lvl: i64)
        requires
            old(self).wf(),
        ensures
            *final(self) == spec_env_tick(*old(self)),
            final(self).wf(),
            lvl == final(self).level,
            0 <= lvl <= ONE,
    {
        match self.state {
            EnvState::Idle => {
                self.level = 0;
            },
            EnvState::Sustain => {
                self.level = self.s;
                if !self.gate {
                    self.enter_release();
                }
            },
            EnvState::Attack | EnvState::Decay | EnvState::Release => {
                proof {
                    assert((self.target - self.start) * (self.done + 1)
                        <= 65536int * TOTAL_MAX as int
                        && (self.target - self.start) * (self.done + 1)
                        >= -65536int * TOTAL_MAX as int) by (nonlinear_arith)
                        requires
                            -65536 <= self.target - self.start <= 65536,
                            0 <= self.done + 1 <= TOTAL_MAX as int,
                    ;
                    lemma_ramp_bounds(
                        self.start as int,
                        self.target as int,
                        self.total as int,
                        self.done + 1,
                    );
                }
                self.done = self.done + 1;
                let delta: i64 = self.target - self.start;
                let num: i64 = delta * self.done;
                let q: i64 = num / self.total;
                self.level = self.start + q;
                if self.done == self.total {
                    self.level = self.target;
                    self.advance_after_hit();
                }
            },
        }
        self.level
    }

    /// A voice is audible while its level is above zero.
    pub fn is_active(&self) -> (b: bool)
        ensures
            b == (self.level > 0),
    {
        self.level > 0
    }
}

/// `n` envelope samples, one after another.
pub open spec fn spec_env_run(e: Adsr, n: nat) -> Adsr
    decreases n,
{
    if n == 0 {
        e
    } else {
        spec_env_tick(spec_env_run(e, (n - 1) as nat))
    }
}

/// The stage length is well defined: at least one sample for a positive
/// time, and never beyond `TOTAL_MAX` for times and rates in range.
pub proof fn lemma_stage_total_bounds(time: i64, sr: i64)
    requires
        1 <= time <= TIME_MAX,
        1 <= sr <= SR_MAX,
    ensures
        1 <= stage_total_i(time, sr) <= TOTAL_MAX,
        stage_total_i(time, sr) as int == (time * sr + 65535) / 65536,
{
    assert(1 <= time * sr <= TIME_MAX as int * SR_MAX as int) by (nonlinear_arith)
        requires 1 <= time <= TIME_MAX, 1 <= sr <= SR_MAX,
    ;
    vstd::arithmetic::div_mod::lemma_div_is_ordered(65536, time * sr + 65535, 65536);
    vstd::arithmetic::div_mod::lemma_div_is_ordered(
        time * sr + 65535,
        TIME_MAX as int * SR_MAX as int + 65535,
        65536,
    );
    assert(65536int / 65536 == 1);
    assert((TIME_MAX as int * SR_MAX as int + 65535) / 65536 <= TOTAL_MAX as int);
}

/// With zero attack and zero decay, `note_on` chains through Attack and
/// Decay inside the same call: the envelope comes out in Sustain, already
/// sitting at the sustain level.
pub proof fn lemma_instant_attack_reaches_sustain(e: Adsr)
    requires
        e.wf(),
        e.a == 0,
        e.d == 0,
    ensures
        spec_note_on(e).state is Sustain,
        spec_note_on(e).level == e.s,
        spec_note_on(e).gate,
{
}

/// A `note_off` on an envelope whose gate is already down — one releasing
/// or idle — changes nothing: the release is neither restarted nor
/// stretched.
pub proof fn lemma_note_off_idempotent(e: Adsr)
    requires
        !e.gate,
    ensures
        spec_note_off(e) == e,
{
}

/// While the attack ramp is still short of its end, each sample moves the
/// envelope one step along the ramp and nothing else.
proof fn lemma_attack_steps(e: Adsr, k: nat)
    requires
        e.wf(),
        e.state is Attack,
        k <= e.total - e.done,
    ensures
        k < e.total - e.done ==> spec_env_run(e, k) == (Adsr {
            done: (e.done + k) as i64,
            level: ramp_level(e.start as int, 65536, e.total as int, e.done + k) as i64,
            ..e
        }),
        k == e.total - e.done ==> spec_env_run(e, k) == spec_advance(
            Adsr { level: e.target, done: e.total, ..e },
        ),
    decreases k,
{
    lemma_ramp_bounds(e.start as int, 65536, e.total as int, e.done + k);
    if k == 0 {
        assert(e == (Adsr {
            done: (e.done + 0) as i64,
            level: ramp_level(e.start as int, 65536, e.total as int, e.done + 0) as i64,
            ..e
        }));
    } else {
        lemma_attack_steps(e, (k - 1) as nat);
        let prev = spec_env_run(e, (k - 1) as nat);
        assert(prev == (Adsr {
            done: (e.done + k - 1) as i64,
            level: ramp_level(e.start as int, 65536, e.total as int, e.done + k - 1) as i64,
            ..e
        }));
        assert(spec_env_run(e, k) == spec_env_tick(prev));
        if k == e.total - e.done {
            assert(ramp_level(e.start as int, 65536, e.total as int, e.total as int) == 65536);
        }
    }
}

/// From a fresh `note_on` with a positive attack time, the level climbs the
/// ramp monotonically, never past full scale, and after exactly
/// `ceil(a * sr / ONE)` samples sits at exactly full scale with the stage
/// moved on to Decay — or Sustain, when the sustain level is full scale.
pub proof fn lemma_attack_duration(e0: Adsr)
    requires
        e0.wf(),
        e0.level == 0,
        e0.a >= 1,
        e0.d >= 1 || e0.s == ONE,
    ensures
        ({
            let e1 = spec_note_on(e0);
            let n = stage_total_i(e0.a, e0.sr) as nat;
            &&& spec_env_run(e1, n).level == ONE
            &&& (spec_env_run(e1, n).state is Decay || spec_env_run(e1, n).state is Sustain)
            &&& (forall|k: nat| k <= n ==> 0 <= (#[trigger] spec_env_run(e1, k).level) <= ONE)
            &&& (forall|k: nat|
                k < n ==> (#[trigger] spec_env_run(e1, k).level) <= spec_env_run(
                    e1,
                    (k + 1) as nat,
                ).level)
        }),
{
    lemma_stage_total_bounds(e0.a, e0.sr);
    let e1 = spec_note_on(e0);
    let n = stage_total_i(e0.a, e0.sr) as nat;
    assert(e1 == (Adsr {
        gate: true,
        state: EnvState::Attack,
        target: ONE,
        start: 0,
        total: stage_total_i(e0.a, e0.sr),
        done: 0,
        ..e0
    }));
    assert(e1.wf()) by {
        lemma_ramp_bounds(0, 65536, e1.total as int, 0);
    };
    lemma_attack_steps(e1, n);
    let hit = spec_advance(Adsr { level: e1.target, done: e1.total, ..e1 });
    assert(spec_env_run(e1, n) == hit);
    assert(hit.level == ONE && (hit.state is Decay || hit.state is Sustain));
    assert forall|k: nat| k <= n implies 0 <= (#[trigger] spec_env_run(e1, k).level)
        <= ONE by {
        lemma_attack_steps(e1, k);
        if k < n {
            lemma_ramp_bounds(0, 65536, e1.total as int, k as int);
        }
    };
    assert forall|k: nat| k < n implies (#[trigger] spec_env_run(e1, k).level)
        <= spec_env_run(e1, (k + 1) as nat).level by {
        lemma_attack_steps(e1, k);
        lemma_attack_steps(e1, (k + 1) as nat);
        lemma_ramp_bounds(0, 65536, e1.total as int, k as int);
        if k + 1 < n {
            crate::fixed::lemma_ramp_monotone(0, 65536, e1.total as int, k as int, k as int + 1);
        }
    };
}

} // verus!
