//! Health and stamina pools, passive stamina recovery, and the despawn
//! countdown of dead enemies.
use vstd::prelude::*;
use crate::clock::{lemma_total_ms_nonneg, total_ms};
use crate::combat::CombatStatus;

verus! {

/// Hit points of a character.
#[derive(Clone, Copy, Debug, PartialEq, Eq, Structural)]
pub struct Health {
    pub current: u32,
    pub max: u32,
}

impl Health {
    /// The pool never holds more than its maximum.
    pub open spec fn wf(&self) -> bool {
        self.current <= self.max
    }

    /// A full pool of `max` points.
    pub fn new(max: u32) -> (r: Health)
        ensures
            r.current == max && r.max == max,
    {
        Health { current: max, max }
    }

    /// How full the pool is, in whole percent, rounded down; zero for an
    /// empty maximum.
    pub fn percent(&self) -> (r: u32)
        requires
            self.wf(),
        ensures
            r == fill_percent(self.current, self.max),
            r <= 100,
    {
        percent_of(self.current, self.max)
    }
}

/// `current` as a share of `max`, in whole percent rounded down.
pub open spec fn fill_percent(current: u32, max: u32) -> u32 {
    if max == 0 {
        0
    } else {
        (current * 100 / (max as int)) as u32
    }
}

fn percent_of(current: u32, max: u32) -> (r: u32)
    requires
        current <= max,
    ensures
        r == fill_percent(current, max),
        r <= 100,
{
    if max == 0 {
        0
    } else {
        let c: u64 = current as u64;
        let m: u64 = max as u64;
        assert(c * 100 <= m * 100) by (nonlinear_arith)
            requires
                c <= m,
        ;
        assert((c * 100) / (m as int) <= 100) by (nonlinear_arith)
            requires
                c * 100 <= m * 100,
                m > 0,
        ;
        (c * 100 / m) as u32
    }
}

impl Default for Health {
    fn default() -> (r: Health)
        ensures
            r.current == 100 && r.max == 100,
    {
        Health { current: 100, max: 100 }
    }
}

/// A stamina pool, in thousandths of a point; `recovery_rate` is in
/// thousandths per millisecond.
#[derive(Clone, Copy, Debug, PartialEq, Eq, Structural)]
pub struct Stamina {
    pub current: u32,
    pub max: u32,
    pub recovery_rate: u32,
}

impl Stamina {
    /// The pool never holds more than its maximum.
    pub open spec fn wf(&self) -> bool {
        self.current <= self.max
    }

    /// How full the pool is, in whole percent, rounded down; zero for an
    /// empty maximum.
    pub fn percent(&self) -> (r: u32)
        requires
            self.wf(),
        ensures
            r == fill_percent(self.current, self.max),
            r <= 100,
    {
        percent_of(self.current, self.max)
    }
}

impl Default for Stamina {
    /// 100 points, recovering 30 points per second.
    fn default() -> (r: Stamina)
        ensures
            r.current == 100_000 && r.max == 100_000 && r.recovery_rate == 30,
    {
        Stamina { current: 100_000, max: 100_000, recovery_rate: 30 }
    }
}

/// Stamina spent on an attack.
pub const ATTACK_STAMINA_COST: u32 = 20_000;
/// Stamina spent on a dodge.
pub const DODGE_STAMINA_COST: u32 = 25_000;
/// Stamina drained per millisecond of blocking (15 points per second).
pub const BLOCK_STAMINA_DRAIN: u32 = 15;
/// Stamina drained per millisecond of sprinting (10 points per second).
pub const SPRINT_STAMINA_DRAIN: u32 = 10;

pub open spec fn min_int(a: int, b: int) -> int {
    if a <= b {
        a
    } else {
        b
    }
}

/// `a - b`, or zero where that would be negative.
pub open spec fn floor_sub(a: int, b: int) -> int {
    if a >= b {
        a - b
    } else {
        0
    }
}

/// Stamina after `dt` ms of passive recovery, capped at the maximum.
pub open spec fn recovered(s: Stamina, dt: u32) -> Stamina {
    Stamina { current: min_int(s.current + s.recovery_rate * dt, s.max as int) as u32, ..s }
}

/// Passive recovery: a character that is not blocking regains
/// `recovery_rate` per millisecond, up to the maximum.
pub fn recover_stamina(stamina: &mut Stamina, status: &CombatStatus, dt: u32)
    requires
        old(stamina).wf(),
    ensures
        *final(stamina) == (if status.is_blocking {
            *old(stamina)
        } else {
            recovered(*old(stamina), dt)
        }),
        final(stamina).wf(),
{
    if !status.is_blocking {
        let rate = stamina.recovery_rate as u64;
        assert(rate * dt <= 18446744065119617025) by (nonlinear_arith)
            requires
                rate <= 4294967295,
                dt <= 4294967295,
        ;
        let gained: u64 = rate * dt as u64;
        let total: u64 = stamina.current as u64 + gained;
        if total < stamina.max as u64 {
            stamina.current = total as u32;
        } else {
            stamina.current = stamina.max;
        }
    }
}

/// The despawn countdown after `dt` ms: a dead character's `death_timer`
/// runs down toward zero.
pub open spec fn counted_down(s: CombatStatus, dt: u32) -> CombatStatus {
    if s.is_dead {
        CombatStatus { death_timer: floor_sub(s.death_timer as int, dt as int) as u32, ..s }
    } else {
        s
    }
}

/// Runs the despawn countdown of a dead enemy for one tick, and tells
/// whether the enemy (with the indicators that refer to it) is to be
/// removed now: it is dead and its countdown has reached zero.
pub fn tick_death_timer(status: &mut CombatStatus, dt: u32) -> (despawn: bool)
    ensures
        *final(status) == counted_down(*old(status), dt),
        despawn == (old(status).is_dead && old(status).death_timer <= dt),
{
    if status.is_dead {
        status.death_timer = status.death_timer.saturating_sub(dt);
        status.death_timer == 0
    } else {
        false
    }
}

} // verus!

verus! {

/// The combat status after the despawn countdown of a run of ticks.
pub open spec fn countdown_run(s: CombatStatus, dts: Seq<u32>) -> CombatStatus
    decreases dts.len(),
{
    if dts.len() == 0 {
        s
    } else {
        counted_down(countdown_run(s, dts.drop_last()), dts.last())
    }
}

/// A dead enemy is removed on the tick that brings the time since its
/// death to `DEATH_DESPAWN_TIME`, and not before: after a run of ticks
/// totalling less, its countdown holds what is left, and the next tick
/// removes it if and only if it reaches the total.
pub proof fn lemma_despawn_on_time(s: CombatStatus, dts: Seq<u32>, dt: u32)
    requires
        s.is_dead,
        s.death_timer == crate::combat::DEATH_DESPAWN_TIME,
        total_ms(dts) < crate::combat::DEATH_DESPAWN_TIME,
    ensures
        countdown_run(s, dts).is_dead,
        countdown_run(s, dts).death_timer == crate::combat::DEATH_DESPAWN_TIME - total_ms(dts),
        countdown_run(s, dts).death_timer <= dt <==> total_ms(dts) + dt >= crate::combat::DEATH_DESPAWN_TIME,
    decreases dts.len(),
{
    if dts.len() > 0 {
        lemma_total_ms_nonneg(dts.drop_last());
        lemma_despawn_on_time(s, dts.drop_last(), dts.last());
    }
}

} // verus!
