//! The ramp-phase schedule: when each virtual user is spawned during ramp-up,
//! when each one is stopped during ramp-down, and which phase the test is in
//! at a given elapsed time.
//!
//! `RampController` is the decision core of the phase state machine. A driver
//! loop polls it with the elapsed wall-clock time; the controller answers with
//! the actions that are due (spawn workers, raise stop flags, change phase),
//! catching up on everything whose scheduled time has passed.

use vstd::arithmetic::div_mod::{
    lemma_div_is_ordered, lemma_div_multiples_vanish, lemma_fundamental_div_mod,
};
use vstd::arithmetic::mul::lemma_mul_inequality;
use vstd::prelude::*;

verus! {

/// The four phases of a load test, in the order they occur.
#[derive(Clone, Copy, Debug, PartialEq, Eq, Structural)]
pub enum RampPhase {
    Idle,
    RampUp,
    Hold,
    RampDown,
}

/// The timing plan of one run: the target number of virtual users and the
/// three phase durations.
#[derive(Clone, Copy, Debug, PartialEq, Eq, Structural)]
pub struct RampConfig {
    pub vus: usize,
    pub ramp_up_ms: u64,
    pub hold_ms: u64,
    pub ramp_down_ms: u64,
}

pub open spec fn min_nat(a: nat, b: nat) -> nat {
    if a <= b {
        a
    } else {
        b
    }
}

/// Total wall-clock length of the test.
pub open spec fn ramp_total_ms(cfg: RampConfig) -> nat {
    (cfg.ramp_up_ms + cfg.hold_ms + cfg.ramp_down_ms) as nat
}

/// The phase the test is in after `elapsed` milliseconds.
pub open spec fn phase_at(cfg: RampConfig, elapsed: nat) -> RampPhase {
    if elapsed < cfg.ramp_up_ms {
        RampPhase::RampUp
    } else if elapsed < cfg.ramp_up_ms + cfg.hold_ms {
        RampPhase::Hold
    } else if elapsed < ramp_total_ms(cfg) {
        RampPhase::RampDown
    } else {
        RampPhase::Idle
    }
}

/// How many workers are due to have been spawned after `elapsed` milliseconds:
/// worker `i` is scheduled at `i * (ramp_up_ms / vus)`, so it is due as soon
/// as `i * ramp_up_ms <= elapsed * vus`. A zero ramp-up spawns no workers at
/// all.
pub open spec fn spawn_due(cfg: RampConfig, elapsed: nat) -> nat {
    if cfg.vus == 0 || cfg.ramp_up_ms == 0 {
        0
    } else {
        min_nat(cfg.vus as nat, ((elapsed * cfg.vus) / (cfg.ramp_up_ms as int) + 1) as nat)
    }
}

/// How many workers are due to have been stopped after `elapsed` milliseconds
/// (measured from test start): stopping begins when ramp-down begins, and
/// worker `i` is due to stop once `i * ramp_down_ms` has passed within
/// ramp-down, scaled by `vus`. Stops are issued in spawn order, worker 0
/// first.
pub open spec fn stop_due(cfg: RampConfig, elapsed: nat) -> nat {
    if cfg.vus == 0 || cfg.ramp_down_ms == 0 || elapsed < cfg.ramp_up_ms + cfg.hold_ms {
        0
    } else {
        min_nat(
            cfg.vus as nat,
            (((elapsed - (cfg.ramp_up_ms + cfg.hold_ms)) * cfg.vus) / (cfg.ramp_down_ms as int))
                as nat + 1,
        )
    }
}

/// The stop flag of worker `i` when `stopped` workers have been stopped in
/// spawn order (or every flag has been forced at the end of ramp-down).
pub open spec fn stop_flag(stopped: nat, forced: bool, i: nat) -> bool {
    forced || i < stopped
}

/// By the end of ramp-up every configured worker has been spawned: for any
/// positive ramp-up duration, once it has fully elapsed the number of workers
/// due is exactly the configured count.
pub proof fn lemma_ramp_up_spawns_all(cfg: RampConfig, elapsed: nat)
    requires
        cfg.ramp_up_ms > 0,
        elapsed >= cfg.ramp_up_ms,
    ensures
        spawn_due(cfg, elapsed) == cfg.vus,
{
    if cfg.vus > 0 {
        let v = cfg.vus as int;
        let tu = cfg.ramp_up_ms as int;
        let e = elapsed as int;
        lemma_mul_inequality(tu, e, v);
        lemma_div_multiples_vanish(v, tu);
        lemma_div_is_ordered(tu * v, e * v, tu);
        assert(v * tu == tu * v);
        assert((e * v) / tu >= v);
    }
}

/// No worker is spawned before its scheduled time: if worker `i` is already
/// due after `elapsed` milliseconds, then `i * ramp_up_ms <= elapsed * vus`,
/// which is `elapsed >= i * (ramp_up_ms / vus)` without the division.
pub proof fn lemma_spawn_not_early(cfg: RampConfig, elapsed: nat, i: nat)
    requires
        i < spawn_due(cfg, elapsed),
    ensures
        i * cfg.ramp_up_ms <= elapsed * cfg.vus,
{
    let v = cfg.vus as int;
    let tu = cfg.ramp_up_ms as int;
    let e = elapsed as int;
    let q = (e * v) / tu;
    assert(i <= q);
    lemma_mul_inequality(i as int, q, tu);
    lemma_fundamental_div_mod(e * v, tu);
    assert(q * tu <= e * v);
}

/// Stop flags are raised in worker order over time: the number of workers due
/// to be stopped only grows with elapsed time, so a later worker's flag is
/// never raised before an earlier worker's.
pub proof fn lemma_stop_due_monotone(cfg: RampConfig, e1: nat, e2: nat)
    requires
        e1 <= e2,
    ensures
        stop_due(cfg, e1) <= stop_due(cfg, e2),
{
    if !(cfg.vus == 0 || cfg.ramp_down_ms == 0 || e1 < cfg.ramp_up_ms + cfg.hold_ms) {
        let v = cfg.vus as int;
        let td = cfg.ramp_down_ms as int;
        let start = cfg.ramp_up_ms + cfg.hold_ms;
        let r1 = e1 - start;
        let r2 = e2 - start;
        lemma_mul_inequality(r1, r2, v);
        lemma_div_is_ordered(r1 * v, r2 * v, td);
    }
}

/// Within one stop count, flags form a prefix: whenever worker `i + 1`'s flag
/// is raised, worker `i`'s flag is raised as well.
pub proof fn lemma_stop_flags_fifo(stopped: nat, forced: bool, i: nat)
    ensures
        stop_flag(stopped, forced, i + 1) ==> stop_flag(stopped, forced, i),
{
}

/// By the end of ramp-down every worker's stop flag is raised: once the
/// schedule is over a step forces every flag, so each of the `count` spawned
/// workers sees its flag true.
pub proof fn lemma_ramp_down_raises_all_flags(stopped: nat, count: nat, forced: bool, i: nat)
    requires
        i < count,
        forced || stopped == count,
    ensures
        stop_flag(stopped, forced, i),
{
}

/// The actions a `RampController` step asks its driver to perform, all due
/// work since the previous step: spawn workers `spawn_from..spawn_to`, raise
/// the stop flags of workers `stop_from..stop_to` (in that order), apply a
/// phase transition, and at the very end force every stop flag and join.
#[derive(Clone, Copy, Debug)]
pub struct StepActions {
    pub spawn_from: usize,
    pub spawn_to: usize,
    pub stop_from: usize,
    pub stop_to: usize,
    pub transition: Option<(RampPhase, RampPhase)>,
    pub force_stop_all: bool,
    pub done: bool,
}

/// The phase state machine of one run. A driver calls `step` with the elapsed
/// wall-clock time; the controller never acts on its own.
pub struct RampController {
    pub config: RampConfig,
    pub phase: RampPhase,
    pub spawned: usize,
    pub stopped: usize,
    pub last_elapsed: u64,
}

impl RampController {
    /// Basic bounds that hold between any two steps.
    pub open spec fn wf(self) -> bool {
        self.stopped <= self.spawned <= self.config.vus
    }

    /// A fresh controller: idle, nothing spawned, nothing stopped.
    pub fn new(config: RampConfig) -> (r: RampController)
        ensures
            r.wf(),
            r.config == config,
            r.phase == RampPhase::Idle,
            r.spawned == 0,
            r.stopped == 0,
            r.last_elapsed == 0,
    {
        RampController { config, phase: RampPhase::Idle, spawned: 0, stopped: 0, last_elapsed: 0 }
    }

    /// One poll of the state machine. Catches up on every spawn and stop whose
    /// scheduled time has passed (not just one per tick), moves to the phase
    /// the clock dictates, and, once the whole schedule has elapsed, forces
    /// all remaining stop flags and reports the run done so the driver joins
    /// its workers.
    pub fn step(&mut self, elapsed_ms: u64) -> (a: StepActions)
        requires
            old(self).wf(),
        ensures
            final(self).wf(),
            final(self).config == old(self).config,
            final(self).last_elapsed == max_u64(old(self).last_elapsed, elapsed_ms),
            final(self).phase == phase_at(old(self).config, final(self).last_elapsed as nat),
            final(self).spawned == max_nat(
                old(self).spawned as nat,
                spawn_due(old(self).config, final(self).last_elapsed as nat),
            ),
            final(self).stopped == if final(self).last_elapsed as nat >= ramp_total_ms(
                old(self).config,
            ) {
                final(self).spawned as nat
            } else {
                max_nat(
                    old(self).stopped as nat,
                    min_nat(
                        final(self).spawned as nat,
                        stop_due(old(self).config, final(self).last_elapsed as nat),
                    ),
                )
            },
            a.spawn_from == old(self).spawned,
            a.spawn_to == final(self).spawned,
            a.stop_from == old(self).stopped,
            a.stop_to == final(self).stopped,
            a.transition == if old(self).phase != final(self).phase {
                Some((old(self).phase, final(self).phase))
            } else {
                None::<(RampPhase, RampPhase)>
            },
            a.force_stop_all == (final(self).last_elapsed as nat >= ramp_total_ms(
                old(self).config,
            )),
            a.done == a.force_stop_all,
    {
        let eff: u64 = if elapsed_ms > self.last_elapsed {
            elapsed_ms
        } else {
            self.last_elapsed
        };
        self.last_elapsed = eff;

        let cfg = self.config;
        let new_phase = current_phase(&cfg, eff);
        let transition: Option<(RampPhase, RampPhase)> = if self.phase != new_phase {
            Some((self.phase, new_phase))
        } else {
            None
        };
        let old_phase = self.phase;
        self.phase = new_phase;

        let due = due_spawn_count(&cfg, eff);
        let spawn_from = self.spawned;
        if due > self.spawned {
            self.spawned = due;
        }
        let spawn_to = self.spawned;

        let ended = is_schedule_over(&cfg, eff);
        let stop_from = self.stopped;
        if ended {
            self.stopped = self.spawned;
        } else {
            let stops = due_stop_count(&cfg, eff);
            let stops_capped = if stops > self.spawned {
                self.spawned
            } else {
                stops
            };
            if stops_capped > self.stopped {
                self.stopped = stops_capped;
            }
        }
        let stop_to = self.stopped;

        StepActions {
            spawn_from,
            spawn_to,
            stop_from,
            stop_to,
            transition,
            force_stop_all: ended,
            done: ended,
        }
    }
}

pub open spec fn max_u64(a: u64, b: u64) -> u64 {
    if a >= b {
        a
    } else {
        b
    }
}

pub open spec fn max_nat(a: nat, b: nat) -> nat {
    if a >= b {
        a
    } else {
        b
    }
}

/// The phase that `elapsed_ms` milliseconds into the run dictates.
pub fn current_phase(cfg: &RampConfig, elapsed_ms: u64) -> (r: RampPhase)
    ensures
        r == phase_at(*cfg, elapsed_ms as nat),
{
    let e = elapsed_ms as u128;
    let tu = cfg.ramp_up_ms as u128;
    let th = cfg.hold_ms as u128;
    let td = cfg.ramp_down_ms as u128;
    if e < tu {
        RampPhase::RampUp
    } else if e < tu + th {
        RampPhase::Hold
    } else if e < tu + th + td {
        RampPhase::RampDown
    } else {
        RampPhase::Idle
    }
}

/// Whether the full schedule (all three phases) has elapsed.
pub fn is_schedule_over(cfg: &RampConfig, elapsed_ms: u64) -> (r: bool)
    ensures
        r == (elapsed_ms as nat >= ramp_total_ms(*cfg)),
{
    let e = elapsed_ms as u128;
    e >= cfg.ramp_up_ms as u128 + cfg.hold_ms as u128 + cfg.ramp_down_ms as u128
}

/// The number of workers due to have been spawned `elapsed_ms` milliseconds
/// into the run.
pub fn due_spawn_count(cfg: &RampConfig, elapsed_ms: u64) -> (r: usize)
    ensures
        r == spawn_due(*cfg, elapsed_ms as nat),
{
    if cfg.vus == 0 || cfg.ramp_up_ms == 0 {
        return 0;
    }
    proof {
        assert((elapsed_ms as int) * (cfg.vus as int) < u128::MAX) by (nonlinear_arith)
            requires
                0 <= elapsed_ms as int <= u64::MAX,
                0 <= cfg.vus as int <= u64::MAX;
    }
    let prod: u128 = elapsed_ms as u128 * cfg.vus as u128;
    proof {
        assert((prod as int) / (cfg.ramp_up_ms as int) <= prod as int) by (nonlinear_arith)
            requires
                prod as int >= 0,
                cfg.ramp_up_ms as int >= 1;
    }
    let due: u128 = prod / (cfg.ramp_up_ms as u128) + 1;
    if due >= cfg.vus as u128 {
        cfg.vus
    } else {
        due as usize
    }
}

/// The number of workers due to have been stopped `elapsed_ms` milliseconds
/// into the run (zero before ramp-down begins).
pub fn due_stop_count(cfg: &RampConfig, elapsed_ms: u64) -> (r: usize)
    ensures
        r == stop_due(*cfg, elapsed_ms as nat),
{
    let e = elapsed_ms as u128;
    let start: u128 = cfg.ramp_up_ms as u128 + cfg.hold_ms as u128;
    if cfg.vus == 0 || cfg.ramp_down_ms == 0 || e < start {
        return 0;
    }
    proof {
        assert(((e as int) - (start as int)) * (cfg.vus as int) < u128::MAX) by (nonlinear_arith)
            requires
                0 <= e as int - start as int <= u64::MAX,
                0 <= cfg.vus as int <= u64::MAX;
    }
    let prod: u128 = (e - start) * cfg.vus as u128;
    proof {
        assert((prod as int) / (cfg.ramp_down_ms as int) <= prod as int) by (nonlinear_arith)
            requires
                prod as int >= 0,
                cfg.ramp_down_ms as int >= 1;
    }
    let due: u128 = prod / (cfg.ramp_down_ms as u128) + 1;
    if due >= cfg.vus as u128 {
        cfg.vus
    } else {
        due as usize
    }
}

} // verus!
