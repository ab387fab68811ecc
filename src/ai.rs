//! The enemy decision process: Idle, Patrol, Chase and Attack, the movement
//! each state asks for, and the clip it shows.
use vstd::prelude::*;
use crate::clock::{lemma_total_ms_nonneg, total_ms};
use crate::anim::{switch_command, AnimCommand, Clip, CurrentAnimation};
use crate::combat::{CombatStatus, ENEMY_ATTACK_RANGE};
use crate::geom::{closer_than, farther_than, is_closer_than, is_farther_than, Pos};

verus! {

/// Walking speed on patrol, in mm/s.
pub const ENEMY_WALK_SPEED: u32 = 2000;
/// Running speed in a chase, in mm/s.
pub const ENEMY_CHASE_SPEED: u32 = 4000;
/// An enemy notices the player closer than this, in millimetres.
pub const ENEMY_DETECTION_RANGE: u32 = 8000;
/// A chase is given up beyond 1.5 times the detection range.
pub const ENEMY_LOSE_RANGE: u32 = 12000;
/// Radius of the patrol circle around home, in millimetres.
pub const ENEMY_PATROL_RANGE: i32 = 3000;
/// Time spent idle before a patrol starts, in ms.
pub const IDLE_TIME: u32 = 3000;
/// Longest patrol, in ms.
pub const PATROL_TIME: u32 = 5000;
/// Length of one attack, in ms.
pub const ATTACK_TIME: u32 = 1000;
/// Downward speed layered onto every enemy movement, in mm/s.
pub const ENEMY_FALL_SPEED: u32 = 20_000;

/// What an enemy is doing.
#[derive(Clone, Copy, Debug, PartialEq, Eq, Structural)]
pub enum AiState {
    Idle,
    Patrol,
    Chase,
    Attack,
}

/// The decision state of one enemy.
#[derive(Clone, Copy, Debug, PartialEq, Eq, Structural)]
pub struct EnemyAi {
    pub state: AiState,
    pub home_position: Pos,
    pub patrol_target: Option<Pos>,
    /// Time since the last transition, in ms.
    pub state_timer: u32,
}

impl EnemyAi {
    /// The patrol circle around home lies within the coordinate range.
    pub open spec fn wf(&self) -> bool {
        self.home_position.x <= i32::MAX - ENEMY_PATROL_RANGE
    }

    /// An idle enemy at `home`, with no patrol target.
    pub fn new(home: Pos) -> (r: EnemyAi)
        ensures
            r.state == AiState::Idle,
            r.home_position == home,
            r.patrol_target.is_none(),
            r.state_timer == 0,
    {
        EnemyAi { state: AiState::Idle, home_position: home, patrol_target: None, state_timer: 0 }
    }
}

/// `a + b`, capped at `u32::MAX`.
pub open spec fn sat_add(a: u32, b: u32) -> u32 {
    if a + b > u32::MAX {
        u32::MAX
    } else {
        (a + b) as u32
    }
}

/// The patrol point: on the circle of radius `ENEMY_PATROL_RANGE` around
/// home, at the angle `1000 × state_timer` radians, taken with the timer
/// just reset by the transition. That angle is zero, so the point lies on
/// the +x axis from home.
pub open spec fn patrol_point(home: Pos) -> Pos {
    Pos { x: (home.x + ENEMY_PATROL_RANGE) as i32, ..home }
}

/// The state that follows `s` once its timer has reached `t`, for an enemy
/// at `enemy` and the player at `player`. The first matching rule wins.
pub open spec fn next_state(s: AiState, t: u32, has_target: bool, enemy: Pos, player: Pos) -> AiState {
    match s {
        AiState::Idle => if closer_than(enemy, player, ENEMY_DETECTION_RANGE as int) {
            AiState::Chase
        } else if t > IDLE_TIME {
            AiState::Patrol
        } else {
            AiState::Idle
        },
        AiState::Patrol => if closer_than(enemy, player, ENEMY_DETECTION_RANGE as int) {
            AiState::Chase
        } else if !has_target || t > PATROL_TIME {
            AiState::Idle
        } else {
            AiState::Patrol
        },
        AiState::Chase => if closer_than(enemy, player, ENEMY_ATTACK_RANGE as int) {
            AiState::Attack
        } else if farther_than(enemy, player, ENEMY_LOSE_RANGE as int) {
            AiState::Idle
        } else {
            AiState::Chase
        },
        AiState::Attack => if t > ATTACK_TIME {
            if closer_than(enemy, player, ENEMY_ATTACK_RANGE as int) {
                AiState::Attack
            } else {
                AiState::Chase
            }
        } else {
            AiState::Attack
        },
    }
}

/// Whether the move from `s` (timer at `t`) is a transition: a change of
/// state, or a new attack.
pub open spec fn transitions(s: AiState, t: u32, has_target: bool, enemy: Pos, player: Pos) -> bool {
    next_state(s, t, has_target, enemy, player) != s || (s == AiState::Attack && t > ATTACK_TIME)
}

/// The decision state after a tick of `dt` ms: the timer advances, the
/// state follows `next_state`, every transition resets the timer, and
/// entering Patrol picks the patrol point.
pub open spec fn ai_after(ai: EnemyAi, enemy: Pos, player: Pos, dt: u32) -> EnemyAi {
    let t = sat_add(ai.state_timer, dt);
    let has_target = ai.patrol_target.is_some();
    let n = next_state(ai.state, t, has_target, enemy, player);
    EnemyAi {
        state: n,
        state_timer: if transitions(ai.state, t, has_target, enemy, player) {
            0
        } else {
            t
        },
        patrol_target: if n == AiState::Patrol && ai.state != AiState::Patrol {
            Some(patrol_point(ai.home_position))
        } else {
            ai.patrol_target
        },
        ..ai
    }
}

fn patrol_point_of(home: Pos) -> (r: Pos)
    requires
        home.x <= i32::MAX - ENEMY_PATROL_RANGE,
    ensures
        r == patrol_point(home),
{
    Pos { x: home.x + ENEMY_PATROL_RANGE, ..home }
}

/// Advances an enemy's decision state by one tick of `dt` ms.
pub fn update_ai_state(ai: &mut EnemyAi, enemy: Pos, player: Pos, dt: u32)
    requires
        old(ai).wf(),
    ensures
        *final(ai) == ai_after(*old(ai), enemy, player, dt),
        final(ai).wf(),
{
    let t = ai.state_timer.saturating_add(dt);
    let has_target = ai.patrol_target.is_some();
    let detected = is_closer_than(enemy, player, ENEMY_DETECTION_RANGE);
    let in_reach = is_closer_than(enemy, player, ENEMY_ATTACK_RANGE);
    let (next, reset) = match ai.state {
        AiState::Idle => if detected {
            (AiState::Chase, true)
        } else if t > IDLE_TIME {
            (AiState::Patrol, true)
        } else {
            (AiState::Idle, false)
        },
        AiState::Patrol => if detected {
            (AiState::Chase, true)
        } else if !has_target || t > PATROL_TIME {
            (AiState::Idle, true)
        } else {
            (AiState::Patrol, false)
        },
        AiState::Chase => if in_reach {
            (AiState::Attack, true)
        } else if is_farther_than(enemy, player, ENEMY_LOSE_RANGE) {
            (AiState::Idle, true)
        } else {
            (AiState::Chase, false)
        },
        AiState::Attack => if t > ATTACK_TIME {
            if in_reach {
                (AiState::Attack, true)
            } else {
                (AiState::Chase, true)
            }
        } else {
            (AiState::Attack, false)
        },
    };
    if next == AiState::Patrol && ai.state != AiState::Patrol {
        ai.patrol_target = Some(patrol_point_of(ai.home_position));
    }
    ai.state = next;
    ai.state_timer = if reset {
        0
    } else {
        t
    };
}

/// The movement an enemy asks for in one tick.
#[derive(Clone, Copy, Debug, PartialEq, Eq, Structural)]
pub struct EnemyIntent {
    /// Where to walk or run to, if anywhere.
    pub move_toward: Option<Pos>,
    /// Horizontal speed toward `move_toward`, in mm/s.
    pub speed: u32,
    /// Whether the movement keeps to the horizontal plane.
    pub horizontal_only: bool,
    /// The point to face, if any.
    pub face: Option<Pos>,
    /// Vertical displacement of this tick, in micrometres (downward).
    pub fall: i64,
    /// The clip the state shows.
    pub desired: Clip,
}

/// The movement and clip of each state: Idle stands; Patrol walks to the
/// patrol point and faces it; Chase runs to the player on the horizontal
/// plane and faces them; Attack stands and faces the player. Every state
/// falls at `ENEMY_FALL_SPEED`.
pub open spec fn intent_of(ai: EnemyAi, player: Pos, dt: u32) -> EnemyIntent {
    let fall = -(ENEMY_FALL_SPEED * dt) as i64;
    match ai.state {
        AiState::Idle => EnemyIntent {
            move_toward: None,
            speed: 0,
            horizontal_only: false,
            face: None,
            fall,
            desired: Clip::Idle,
        },
        AiState::Patrol => EnemyIntent {
            move_toward: ai.patrol_target,
            speed: if ai.patrol_target.is_some() { ENEMY_WALK_SPEED } else { 0 },
            horizontal_only: false,
            face: ai.patrol_target,
            fall,
            desired: Clip::Walk,
        },
        AiState::Chase => EnemyIntent {
            move_toward: Some(player),
            speed: ENEMY_CHASE_SPEED,
            horizontal_only: true,
            face: Some(player),
            fall,
            desired: Clip::Run,
        },
        AiState::Attack => EnemyIntent {
            move_toward: None,
            speed: 0,
            horizontal_only: true,
            face: Some(player),
            fall,
            desired: Clip::Attack,
        },
    }
}

/// What an enemy does in one tick: its movement, and the command for its
/// animation player.
#[derive(Clone, Copy, Debug, PartialEq, Eq, Structural)]
pub struct EnemyAction {
    pub intent: EnemyIntent,
    pub command: AnimCommand,
}

fn intent_for(ai: &EnemyAi, player: Pos, dt: u32) -> (r: EnemyIntent)
    ensures
        r == intent_of(*ai, player, dt),
{
    let fall: i64 = -(ENEMY_FALL_SPEED as i64 * dt as i64);
    match ai.state {
        AiState::Idle => EnemyIntent {
            move_toward: None,
            speed: 0,
            horizontal_only: false,
            face: None,
            fall,
            desired: Clip::Idle,
        },
        AiState::Patrol => EnemyIntent {
            move_toward: ai.patrol_target,
            speed: if ai.patrol_target.is_some() { ENEMY_WALK_SPEED } else { 0 },
            horizontal_only: false,
            face: ai.patrol_target,
            fall,
            desired: Clip::Walk,
        },
        AiState::Chase => EnemyIntent {
            move_toward: Some(player),
            speed: ENEMY_CHASE_SPEED,
            horizontal_only: true,
            face: Some(player),
            fall,
            desired: Clip::Run,
        },
        AiState::Attack => EnemyIntent {
            move_toward: None,
            speed: 0,
            horizontal_only: true,
            face: Some(player),
            fall,
            desired: Clip::Attack,
        },
    }
}

/// One tick of an enemy's decisions. A dead enemy decides nothing: its
/// state and clip stay as they are, and the result is `None`. A live one
/// advances its state by `ai_after`, asks for the movement of its new
/// state, and switches to that state's clip.
pub fn enemy_ai(ai: &mut EnemyAi, animation: &mut CurrentAnimation, status: &CombatStatus, enemy: Pos, player: Pos, dt: u32) -> (r: Option<EnemyAction>)
    requires
        old(ai).wf(),
    ensures
        final(ai).wf(),
        status.is_dead ==> r.is_none() && *final(ai) == *old(ai) && *final(animation) == *old(animation),
        !status.is_dead ==> ({
            let a = ai_after(*old(ai), enemy, player, dt);
            let i = intent_of(a, player, dt);
            &&& *final(ai) == a
            &&& final(animation).0 == Some(i.desired)
            &&& r == Some(EnemyAction { intent: i, command: switch_command(old(animation).0, Some(i.desired)) })
        }),
{
    if status.is_dead {
        return None;
    }
    update_ai_state(ai, enemy, player, dt);
    let intent = intent_for(ai, player, dt);
    let command = animation.switch_to(Some(intent.desired));
    Some(EnemyAction { intent, command })
}

} // verus!

verus! {

/// One tick as the decision process sees it: where the enemy and the
/// player stand, and how long the tick lasts.
#[derive(Clone, Copy, Debug, PartialEq, Eq, Structural)]
pub struct AiTick {
    pub enemy: Pos,
    pub player: Pos,
    pub dt: u32,
}

/// The lengths of a run of ticks.
pub open spec fn tick_lengths(ticks: Seq<AiTick>) -> Seq<u32> {
    ticks.map_values(|t: AiTick| t.dt)
}

/// The decision state after a run of ticks.
pub open spec fn ai_run(ai: EnemyAi, ticks: Seq<AiTick>) -> EnemyAi
    decreases ticks.len(),
{
    if ticks.len() == 0 {
        ai
    } else {
        let t = ticks.last();
        ai_after(ai_run(ai, ticks.drop_last()), t.enemy, t.player, t.dt)
    }
}

/// No tick of the run brings the player within detection range.
pub open spec fn undetected(ticks: Seq<AiTick>) -> bool {
    forall|i: int| 0 <= i < ticks.len() ==> !closer_than(
        (#[trigger] ticks[i]).enemy,
        ticks[i].player,
        ENEMY_DETECTION_RANGE as int,
    )
}

proof fn lemma_lengths_drop_last(ticks: Seq<AiTick>)
    requires
        ticks.len() > 0,
    ensures
        tick_lengths(ticks.drop_last()) == tick_lengths(ticks).drop_last(),
        tick_lengths(ticks).last() == ticks.last().dt,
        tick_lengths(ticks).len() == ticks.len(),
{
    assert(tick_lengths(ticks.drop_last()) =~= tick_lengths(ticks).drop_last());
}

proof fn lemma_undetected_prefix(ticks: Seq<AiTick>)
    requires
        ticks.len() > 0,
        undetected(ticks),
    ensures
        undetected(ticks.drop_last()),
{
    let rest = ticks.drop_last();
    assert forall|i: int| 0 <= i < rest.len() implies !closer_than(
        (#[trigger] rest[i]).enemy,
        rest[i].player,
        ENEMY_DETECTION_RANGE as int,
    ) by {
        assert(rest[i] == ticks[i]);
    }
}

proof fn lemma_idle_accumulates(ai: EnemyAi, ticks: Seq<AiTick>)
    requires
        ai.state == AiState::Idle,
        ai.state_timer == 0,
        undetected(ticks),
        total_ms(tick_lengths(ticks)) <= IDLE_TIME,
    ensures
        ai_run(ai, ticks) == (EnemyAi { state_timer: total_ms(tick_lengths(ticks)) as u32, ..ai }),
    decreases ticks.len(),
{
    if ticks.len() > 0 {
        let rest = ticks.drop_last();
        lemma_lengths_drop_last(ticks);
        lemma_total_ms_nonneg(tick_lengths(rest));
        lemma_undetected_prefix(ticks);
        lemma_idle_accumulates(ai, rest);
        assert(!closer_than(ticks[ticks.len() - 1].enemy, ticks[ticks.len() - 1].player, ENEMY_DETECTION_RANGE as int));
    }
}

/// An idle enemy that detects nothing starts a patrol on the first tick
/// at which more than `IDLE_TIME` has passed since it became idle, and not
/// before, however both characters move meanwhile: it stays idle through
/// any run of undetected ticks that totals at most `IDLE_TIME`, and the
/// tick that takes the total past `IDLE_TIME` starts a patrol toward the
/// patrol point. Every transition into Idle resets the timer, so the run
/// may start at any entry into Idle. A single tick from Idle without
/// detection starts a patrol if and only if the timer passes `IDLE_TIME`.
pub proof fn lemma_idle_to_patrol(ai: EnemyAi, ticks: Seq<AiTick>)
    requires
        ai.state == AiState::Idle,
        ai.state_timer == 0,
        undetected(ticks),
    ensures
        total_ms(tick_lengths(ticks)) <= IDLE_TIME ==> ai_run(ai, ticks).state == AiState::Idle,
        ticks.len() > 0 && total_ms(tick_lengths(ticks).drop_last()) <= IDLE_TIME < total_ms(tick_lengths(ticks)) ==> {
            let r = ai_run(ai, ticks);
            &&& r.state == AiState::Patrol
            &&& r.state_timer == 0
            &&& r.patrol_target == Some(patrol_point(ai.home_position))
        },
        forall|a: EnemyAi, enemy: Pos, player: Pos, t: u32|
            a.state != AiState::Idle && (#[trigger] ai_after(a, enemy, player, t)).state == AiState::Idle
                ==> ai_after(a, enemy, player, t).state_timer == 0,
        forall|a: EnemyAi, enemy: Pos, player: Pos, t: u32|
            a.state == AiState::Idle && !closer_than(enemy, player, ENEMY_DETECTION_RANGE as int) ==> (
            (#[trigger] ai_after(a, enemy, player, t)).state == AiState::Patrol <==> sat_add(a.state_timer, t) > IDLE_TIME),
{
    if total_ms(tick_lengths(ticks)) <= IDLE_TIME {
        lemma_idle_accumulates(ai, ticks);
    }
    if ticks.len() > 0 && total_ms(tick_lengths(ticks).drop_last()) <= IDLE_TIME < total_ms(tick_lengths(ticks)) {
        let rest = ticks.drop_last();
        lemma_lengths_drop_last(ticks);
        lemma_undetected_prefix(ticks);
        lemma_idle_accumulates(ai, rest);
        assert(!closer_than(ticks[ticks.len() - 1].enemy, ticks[ticks.len() - 1].player, ENEMY_DETECTION_RANGE as int));
    }
}

/// The patrol point lies on the patrol circle: `ENEMY_PATROL_RANGE` from
/// home, on the horizontal plane.
pub proof fn lemma_patrol_point_near_home(home: Pos)
    requires
        home.x <= i32::MAX - ENEMY_PATROL_RANGE,
    ensures
        crate::geom::dist_sq(patrol_point(home), home) == ENEMY_PATROL_RANGE * ENEMY_PATROL_RANGE,
        patrol_point(home).y == home.y,
{
}

} // verus!
