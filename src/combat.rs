//! Combat resolution: blocking and its stamina drain, hit-stun, damage,
//! death, and the hit events that presentation subscribes to.
use vstd::prelude::*;
use crate::ai::AiState;
use crate::anim::{
    playing_unfinished, restart_command, switch_command, AnimCommand, Clip, CurrentAnimation,
};
use crate::geom::{closer_than, impact_point, impact_spec, is_closer_than, Point, Pos};
use crate::health::{floor_sub, Health, Stamina, BLOCK_STAMINA_DRAIN};

verus! {

/// Hit-stun: how long a character that took damage cannot be hit again.
pub const HIT_STUN_TIME: u32 = 500;
/// How long a dead enemy stays before it is removed.
pub const DEATH_DESPAWN_TIME: u32 = 3000;
/// Damage of an enemy's blow on the player.
pub const DAMAGE_TO_PLAYER: u32 = 20;
/// Damage of the player's blow on an enemy.
pub const DAMAGE_TO_ENEMY: u32 = 25;
/// Reach of an enemy's attack, in millimetres.
pub const ENEMY_ATTACK_RANGE: u32 = 2000;
/// Reach of the player's attack: 1.5 times an enemy's.
pub const PLAYER_ATTACK_RANGE: u32 = 3000;

/// Blocking, hit-stun and death of a character.
#[derive(Clone, Copy, Debug, PartialEq, Eq, Structural)]
pub struct CombatStatus {
    pub is_blocking: bool,
    pub is_hit: bool,
    pub is_dead: bool,
    /// Remaining hit-stun, in ms.
    pub hit_timer: u32,
    /// Remaining time before a dead character is removed, in ms.
    pub death_timer: u32,
}

impl CombatStatus {
    /// A character that is alive, not blocking and not stunned.
    pub fn new() -> (r: CombatStatus)
        ensures
            !r.is_blocking && !r.is_hit && !r.is_dead && r.hit_timer == 0 && r.death_timer == 0,
    {
        CombatStatus {
            is_blocking: false,
            is_hit: false,
            is_dead: false,
            hit_timer: 0,
            death_timer: 0,
        }
    }
}

/// A blow that landed or was blocked, at `position`.
#[derive(Clone, Copy, Debug, PartialEq, Eq, Structural)]
pub struct HitEvent {
    pub position: Point,
    pub blocked: bool,
}

impl HitEvent {
    /// Number of sparks shown at the impact: more for a block.
    pub fn spark_count(&self) -> (r: u32)
        ensures
            r == if self.blocked { 15u32 } else { 8u32 },
    {
        if self.blocked {
            15
        } else {
            8
        }
    }
}

/// Whose animation player an order is for.
#[derive(Clone, Copy, Debug, PartialEq, Eq, Structural)]
pub enum Target {
    Player,
    /// The enemy at this index of the enemies handed to `combat_system`.
    Enemy(usize),
}

/// An animation command for one character.
#[derive(Clone, Copy, Debug, PartialEq, Eq, Structural)]
pub struct AnimOrder {
    pub target: Target,
    pub command: AnimCommand,
}

/// What combat resolution reads and writes of the player.
#[derive(Clone, Copy, Debug, PartialEq, Eq, Structural)]
pub struct PlayerCombatant {
    pub position: Pos,
    pub health: Health,
    pub status: CombatStatus,
    pub stamina: Stamina,
    pub animation: CurrentAnimation,
    /// The animation player reports that all playback has ended.
    pub animation_finished: bool,
}

/// What combat resolution reads and writes of an enemy.
#[derive(Clone, Copy, Debug, PartialEq, Eq, Structural)]
pub struct EnemyCombatant {
    pub position: Pos,
    pub health: Health,
    pub status: CombatStatus,
    pub ai_state: AiState,
    pub animation: CurrentAnimation,
}

impl PlayerCombatant {
    /// Pools within bounds, and a dead player has no health left.
    pub open spec fn wf(&self) -> bool {
        &&& self.health.wf()
        &&& self.stamina.wf()
        &&& self.status.is_dead ==> self.health.current == 0
    }
}

impl EnemyCombatant {
    /// Health within bounds, and a dead enemy has no health left.
    pub open spec fn wf(&self) -> bool {
        &&& self.health.wf()
        &&& self.status.is_dead ==> self.health.current == 0
    }
}

/// Hit-stun after `dt` ms: the timer runs down, and the stun ends when it
/// reaches zero.
pub open spec fn hit_decayed(s: CombatStatus, dt: u32) -> CombatStatus {
    if s.is_hit {
        let t = floor_sub(s.hit_timer as int, dt as int) as u32;
        CombatStatus { hit_timer: t, is_hit: t > 0, ..s }
    } else {
        s
    }
}

/// Runs a character's hit-stun for one tick.
pub fn decay_hit_timer(status: &mut CombatStatus, dt: u32)
    ensures
        *final(status) == hit_decayed(*old(status), dt),
{
    if status.is_hit {
        status.hit_timer = status.hit_timer.saturating_sub(dt);
        if status.hit_timer == 0 {
            status.is_hit = false;
        }
    }
}

/// The player's block for one tick: it holds while the block input is held,
/// the player lives and has stamina; it drains `BLOCK_STAMINA_DRAIN` per ms
/// and ends at once when stamina runs out.
pub open spec fn block_step(p: PlayerCombatant, block_held: bool, dt: u32) -> PlayerCombatant {
    if block_held && !p.status.is_dead && p.stamina.current > 0 {
        let c = floor_sub(p.stamina.current as int, BLOCK_STAMINA_DRAIN * dt) as u32;
        PlayerCombatant {
            status: CombatStatus { is_blocking: c > 0, ..p.status },
            stamina: Stamina { current: c, ..p.stamina },
            ..p
        }
    } else {
        PlayerCombatant { status: CombatStatus { is_blocking: false, ..p.status }, ..p }
    }
}

/// Updates the player's block for one tick.
pub fn update_block(player: &mut PlayerCombatant, block_held: bool, dt: u32)
    ensures
        *final(player) == block_step(*old(player), block_held, dt),
{
    if block_held && !player.status.is_dead && player.stamina.current > 0 {
        let drain: u64 = BLOCK_STAMINA_DRAIN as u64 * dt as u64;
        let cur: u64 = player.stamina.current as u64;
        let c: u32 = if cur >= drain {
            (cur - drain) as u32
        } else {
            0
        };
        player.stamina.current = c;
        player.status.is_blocking = c > 0;
    } else {
        player.status.is_blocking = false;
    }
}

/// `current - damage`, floored at zero.
pub open spec fn damaged(h: Health, damage: u32) -> Health {
    Health { current: floor_sub(h.current as int, damage as int) as u32, ..h }
}

/// An enemy's blow lands on the player this tick: the enemy lives, is in
/// the Attack state and within `ENEMY_ATTACK_RANGE`, and the player is
/// neither stunned nor dead.
pub open spec fn enemy_strikes(p: PlayerCombatant, e: EnemyCombatant) -> bool {
    &&& e.ai_state == AiState::Attack
    &&& !e.status.is_dead
    &&& closer_than(p.position, e.position, ENEMY_ATTACK_RANGE as int)
    &&& !p.status.is_hit
    &&& !p.status.is_dead
}

/// The player after an enemy's blow: a block takes no damage and shows the
/// Block clip; otherwise the damage is taken with hit-stun, and the Death
/// clip replaces the Hit clip when health runs out.
pub open spec fn player_struck(p: PlayerCombatant) -> PlayerCombatant {
    if p.status.is_blocking {
        PlayerCombatant { animation: CurrentAnimation(Some(Clip::Block)), ..p }
    } else {
        let h = damaged(p.health, DAMAGE_TO_PLAYER);
        PlayerCombatant {
            health: h,
            status: CombatStatus {
                is_hit: true,
                hit_timer: HIT_STUN_TIME,
                is_dead: h.current == 0,
                ..p.status
            },
            animation: CurrentAnimation(Some(if h.current == 0 { Clip::Death } else { Clip::Hit })),
            ..p
        }
    }
}

/// The animation command that goes with `player_struck`.
pub open spec fn player_struck_command(p: PlayerCombatant) -> AnimCommand {
    if p.status.is_blocking {
        switch_command(p.animation.0, Some(Clip::Block))
    } else {
        restart_command(player_struck(p).animation.0)
    }
}

/// Whether the player is attacking: the Attack clip is the active clip and
/// unfinished.
pub open spec fn is_attacking(p: PlayerCombatant) -> bool {
    playing_unfinished(p.animation.0, Clip::Attack, p.animation_finished)
}

/// The player's blow lands on an enemy this tick: the player was attacking
/// at the start of the tick (`attacking`), the enemy is within
/// `PLAYER_ATTACK_RANGE`, and it is neither stunned nor dead. Only the
/// target's state can hold the blow back.
pub open spec fn player_strikes(attacking: bool, p: PlayerCombatant, e: EnemyCombatant) -> bool {
    &&& attacking
    &&& closer_than(p.position, e.position, PLAYER_ATTACK_RANGE as int)
    &&& !e.status.is_hit
    &&& !e.status.is_dead
}

/// The enemy after the player's blow: damage with hit-stun; on death the
/// health is zero, the despawn countdown starts, and the Death clip plays.
pub open spec fn enemy_struck(e: EnemyCombatant) -> EnemyCombatant {
    let h = damaged(e.health, DAMAGE_TO_ENEMY);
    EnemyCombatant {
        health: h,
        status: CombatStatus {
            is_hit: true,
            hit_timer: HIT_STUN_TIME,
            is_dead: h.current == 0,
            death_timer: if h.current == 0 { DEATH_DESPAWN_TIME } else { e.status.death_timer },
            ..e.status
        },
        animation: CurrentAnimation(Some(if h.current == 0 { Clip::Death } else { Clip::Hit })),
        ..e
    }
}

/// One exchange between the player and the enemy at index `idx`: the
/// enemy's hit-stun runs down, then the enemy's blow, then the player's.
/// Each blow is held back only by its target's hit-stun or death, so both
/// may land.
pub open spec fn exchange(p: PlayerCombatant, e: EnemyCombatant, dt: u32, idx: usize, attacking: bool) -> (
    PlayerCombatant,
    EnemyCombatant,
    Seq<HitEvent>,
    Seq<AnimOrder>,
) {
    let e1 = EnemyCombatant { status: hit_decayed(e.status, dt), ..e };
    let s1 = enemy_strikes(p, e1);
    let p_struck = if s1 {
        player_struck(p)
    } else {
        p
    };
    let ev1 = if s1 {
        seq![HitEvent { position: impact_spec(p.position, e1.position), blocked: p.status.is_blocking }]
    } else {
        seq![]
    };
    let o1 = if s1 {
        seq![AnimOrder { target: Target::Player, command: player_struck_command(p) }]
    } else {
        seq![]
    };
    let s2 = player_strikes(attacking, p_struck, e1);
    let e3 = if s2 {
        enemy_struck(e1)
    } else {
        e1
    };
    let ev2 = if s2 {
        seq![HitEvent { position: impact_spec(e1.position, p_struck.position), blocked: false }]
    } else {
        seq![]
    };
    let o2 = if s2 {
        seq![AnimOrder { target: Target::Enemy(idx), command: restart_command(e3.animation.0) }]
    } else {
        seq![]
    };
    (p_struck, e3, ev1 + ev2, o1 + o2)
}

/// The exchanges with `es`, in order.
pub open spec fn exchanges(p: PlayerCombatant, es: Seq<EnemyCombatant>, dt: u32, attacking: bool) -> (
    PlayerCombatant,
    Seq<EnemyCombatant>,
    Seq<HitEvent>,
    Seq<AnimOrder>,
)
    decreases es.len(),
{
    if es.len() == 0 {
        (p, seq![], seq![], seq![])
    } else {
        let prev = exchanges(p, es.drop_last(), dt, attacking);
        let step = exchange(prev.0, es.last(), dt, (es.len() - 1) as usize, attacking);
        (step.0, prev.1.push(step.1), prev.2 + step.2, prev.3 + step.3)
    }
}

/// One tick of combat: the block, the player's hit-stun, then the
/// exchanges with every enemy in order. Whether the player attacks is read
/// once, from the player's clip at the start of the tick.
pub open spec fn combat_tick(p: PlayerCombatant, es: Seq<EnemyCombatant>, block_held: bool, dt: u32) -> (
    PlayerCombatant,
    Seq<EnemyCombatant>,
    Seq<HitEvent>,
    Seq<AnimOrder>,
) {
    let b = block_step(p, block_held, dt);
    exchanges(PlayerCombatant { status: hit_decayed(b.status, dt), ..b }, es, dt, is_attacking(p))
}

/// What one tick of combat produced.
pub struct CombatReport {
    /// Hits and blocks, in the order they happened.
    pub events: Vec<HitEvent>,
    /// Animation commands, in the order they are to be applied.
    pub orders: Vec<AnimOrder>,
}

fn strike_player(player: &mut PlayerCombatant, enemy: &EnemyCombatant, events: &mut Vec<HitEvent>, orders: &mut Vec<AnimOrder>)
    requires
        enemy_strikes(*old(player), *enemy),
    ensures
        *final(player) == player_struck(*old(player)),
        final(events)@ == old(events)@.push(
            HitEvent { position: impact_spec(old(player).position, enemy.position), blocked: old(player).status.is_blocking },
        ),
        final(orders)@ == old(orders)@.push(
            AnimOrder { target: Target::Player, command: player_struck_command(*old(player)) },
        ),
{
    let position = impact_point(player.position, enemy.position);
    events.push(HitEvent { position, blocked: player.status.is_blocking });
    let command = if player.status.is_blocking {
        player.animation.switch_to(Some(Clip::Block))
    } else {
        player.health.current = player.health.current.saturating_sub(DAMAGE_TO_PLAYER);
        player.status.is_hit = true;
        player.status.hit_timer = HIT_STUN_TIME;
        if player.health.current == 0 {
            player.status.is_dead = true;
            player.animation.force(Clip::Death)
        } else {
            player.animation.force(Clip::Hit)
        }
    };
    orders.push(AnimOrder { target: Target::Player, command });
}

fn strike_enemy(player: &PlayerCombatant, enemy: &mut EnemyCombatant, idx: usize, events: &mut Vec<HitEvent>, orders: &mut Vec<AnimOrder>)
    requires
        !old(enemy).status.is_hit,
        !old(enemy).status.is_dead,
    ensures
        *final(enemy) == enemy_struck(*old(enemy)),
        final(events)@ == old(events)@.push(
            HitEvent { position: impact_spec(old(enemy).position, player.position), blocked: false },
        ),
        final(orders)@ == old(orders)@.push(
            AnimOrder { target: Target::Enemy(idx), command: restart_command(final(enemy).animation.0) },
        ),
{
    let position = impact_point(enemy.position, player.position);
    events.push(HitEvent { position, blocked: false });
    enemy.health.current = enemy.health.current.saturating_sub(DAMAGE_TO_ENEMY);
    enemy.status.is_hit = true;
    enemy.status.hit_timer = HIT_STUN_TIME;
    let command = if enemy.health.current == 0 {
        enemy.status.is_dead = true;
        enemy.status.death_timer = DEATH_DESPAWN_TIME;
        enemy.animation.force(Clip::Death)
    } else {
        enemy.animation.force(Clip::Hit)
    };
    orders.push(AnimOrder { target: Target::Enemy(idx), command });
}

fn resolve_exchange(player: &mut PlayerCombatant, enemy: &mut EnemyCombatant, dt: u32, idx: usize, attacking: bool, events: &mut Vec<HitEvent>, orders: &mut Vec<AnimOrder>)
    ensures
        ({
            let x = exchange(*old(player), *old(enemy), dt, idx, attacking);
            &&& *final(player) == x.0
            &&& *final(enemy) == x.1
            &&& final(events)@ == old(events)@ + x.2
            &&& final(orders)@ == old(orders)@ + x.3
        }),
{
    let ghost p_start = *player;
    let ghost ev0 = events@;
    let ghost or0 = orders@;
    decay_hit_timer(&mut enemy.status, dt);
    if enemy.ai_state == AiState::Attack && !enemy.status.is_dead
        && is_closer_than(player.position, enemy.position, ENEMY_ATTACK_RANGE)
        && !player.status.is_hit && !player.status.is_dead
    {
        strike_player(player, enemy, events, orders);
    }
    if attacking
        && is_closer_than(player.position, enemy.position, PLAYER_ATTACK_RANGE)
        && !enemy.status.is_hit && !enemy.status.is_dead
    {
        strike_enemy(player, enemy, idx, events, orders);
    }
    proof {
        let x = exchange(p_start, *old(enemy), dt, idx, attacking);
        assert(events@ =~= ev0 + x.2);
        assert(orders@ =~= or0 + x.3);
    }
}

/// One tick of combat resolution. First the player's block (held only
/// while `block_held`, the player lives and has stamina, draining
/// `BLOCK_STAMINA_DRAIN` per ms) and hit-stun; then, for each enemy in
/// order, the enemy's hit-stun, the enemy's blow on the player and the
/// player's blow on the enemy. Health never leaves `[0, max]`, stamina
/// never leaves `[0, max]`, the dead have no health left, and nobody comes
/// back to life.
pub fn combat_system(player: &mut PlayerCombatant, enemies: &mut Vec<EnemyCombatant>, block_held: bool, dt: u32) -> (r: CombatReport)
    ensures
        ({
            let t = combat_tick(*old(player), old(enemies)@, block_held, dt);
            &&& *final(player) == t.0
            &&& final(enemies)@ == t.1
            &&& r.events@ == t.2
            &&& r.orders@ == t.3
        }),
        old(player).wf() ==> final(player).wf(),
        old(player).status.is_dead ==> final(player).status.is_dead,
        final(enemies)@.len() == old(enemies)@.len(),
        forall|i: int| 0 <= i < old(enemies)@.len() ==> {
            &&& old(enemies)@[i].wf() ==> final(enemies)@[i].wf()
            &&& #[trigger] old(enemies)@[i].status.is_dead ==> final(enemies)@[i].status.is_dead
        },
{
    let ghost p_in = *old(player);
    let ghost es = enemies@;
    let attacking = player.animation.is_playing(Clip::Attack, player.animation_finished);
    update_block(player, block_held, dt);
    decay_hit_timer(&mut player.status, dt);
    let ghost p_start = *player;
    let mut events: Vec<HitEvent> = Vec::new();
    let mut orders: Vec<AnimOrder> = Vec::new();
    let n = enemies.len();
    let mut i: usize = 0;
    while i < n
        invariant
            n == es.len(),
            attacking == is_attacking(p_in),
            enemies@.len() == n,
            0 <= i <= n,
            p_start == (PlayerCombatant { status: hit_decayed(block_step(p_in, block_held, dt).status, dt), ..block_step(p_in, block_held, dt) }),
            ({
                let x = exchanges(p_start, es.subrange(0, i as int), dt, attacking);
                &&& *player == x.0
                &&& enemies@.subrange(0, i as int) == x.1
                &&& events@ == x.2
                &&& orders@ == x.3
            }),
            forall|j: int| i <= j < n ==> enemies@[j] == es[j],
            p_in.wf() ==> player.wf(),
            p_in.status.is_dead ==> player.status.is_dead,
            forall|j: int| 0 <= j < i ==> {
                &&& es[j].wf() ==> enemies@[j].wf()
                &&& #[trigger] es[j].status.is_dead ==> enemies@[j].status.is_dead
            },
        decreases n - i,
    {
        let ghost before = enemies@;
        let mut enemy = enemies[i];
        resolve_exchange(player, &mut enemy, dt, i, attacking, &mut events, &mut orders);
        enemies.set(i, enemy);
        proof {
            let sub = es.subrange(0, i as int + 1);
            assert(sub.drop_last() =~= es.subrange(0, i as int));
            assert(sub.last() == es[i as int]);
            assert(enemies@.subrange(0, i as int + 1) =~= before.subrange(0, i as int).push(enemy));
        }
        i = i + 1;
    }
    proof {
        assert(es.subrange(0, n as int) =~= es);
        assert(enemies@.subrange(0, n as int) =~= enemies@);
    }
    CombatReport { events, orders }
}

} // verus!

verus! {

proof fn lemma_exchanges_keep_invariants(p: PlayerCombatant, es: Seq<EnemyCombatant>, dt: u32, attacking: bool)
    ensures
        ({
            let x = exchanges(p, es, dt, attacking);
            &&& x.1.len() == es.len()
            &&& p.wf() ==> x.0.wf()
            &&& p.status.is_dead ==> x.0.status.is_dead
            &&& forall|i: int| 0 <= i < es.len() ==> {
                &&& es[i].wf() ==> x.1[i].wf()
                &&& #[trigger] es[i].status.is_dead ==> x.1[i].status.is_dead
            }
        }),
    decreases es.len(),
{
    if es.len() > 0 {
        lemma_exchanges_keep_invariants(p, es.drop_last(), dt, attacking);
        assert forall|i: int| 0 <= i < es.len() - 1 implies es[i] == es.drop_last()[i] by {}
    }
}

/// Health and stamina stay within `[0, max]` through a tick of combat and
/// the passive recovery that follows it, and whoever is dead has no health
/// left.
pub proof fn lemma_pools_stay_in_bounds(p: PlayerCombatant, es: Seq<EnemyCombatant>, block_held: bool, dt: u32)
    requires
        p.wf(),
        forall|i: int| 0 <= i < es.len() ==> (#[trigger] es[i]).wf(),
    ensures
        ({
            let t = combat_tick(p, es, block_held, dt);
            &&& t.0.wf()
            &&& t.0.health.current <= t.0.health.max
            &&& t.0.stamina.current <= t.0.stamina.max
            &&& crate::health::recovered(t.0.stamina, dt).wf()
            &&& forall|i: int| 0 <= i < es.len() ==> (#[trigger] t.1[i]).wf()
        }),
{
    let b = block_step(p, block_held, dt);
    let p_start = PlayerCombatant { status: hit_decayed(b.status, dt), ..b };
    lemma_exchanges_keep_invariants(p_start, es, dt, is_attacking(p));
    let t = combat_tick(p, es, block_held, dt);
    let s = t.0.stamina;
    assert(s.recovery_rate * dt >= 0) by (nonlinear_arith)
        requires
            s.recovery_rate >= 0,
            dt >= 0,
    ;
    assert forall|i: int| 0 <= i < es.len() implies (#[trigger] t.1[i]).wf() by {
        assert(es[i].wf());
    }
}

/// Death is final: a character that is dead before a tick of combat is dead
/// after it, with no health.
pub proof fn lemma_death_is_final(p: PlayerCombatant, es: Seq<EnemyCombatant>, block_held: bool, dt: u32)
    requires
        p.wf(),
        forall|i: int| 0 <= i < es.len() ==> (#[trigger] es[i]).wf(),
    ensures
        ({
            let t = combat_tick(p, es, block_held, dt);
            &&& p.status.is_dead ==> t.0.status.is_dead && t.0.health.current == 0
            &&& t.0.status.is_dead ==> t.0.health.current == 0
            &&& forall|i: int| 0 <= i < es.len() ==> {
                &&& #[trigger] es[i].status.is_dead ==> t.1[i].status.is_dead
                &&& t.1[i].status.is_dead ==> t.1[i].health.current == 0
            }
        }),
{
    let b = block_step(p, block_held, dt);
    let p_start = PlayerCombatant { status: hit_decayed(b.status, dt), ..b };
    lemma_exchanges_keep_invariants(p_start, es, dt, is_attacking(p));
    assert forall|i: int| 0 <= i < es.len() implies {
        &&& #[trigger] es[i].status.is_dead ==> combat_tick(p, es, block_held, dt).1[i].status.is_dead
        &&& combat_tick(p, es, block_held, dt).1[i].status.is_dead ==> combat_tick(p, es, block_held, dt).1[i].health.current == 0
    } by {
        assert(es[i].wf());
    }
}

} // verus!

verus! {

/// The player can take no further switch this tick: stunned, or blocking
/// with the Block clip already active.
pub open spec fn player_settled(p: PlayerCombatant) -> bool {
    p.status.is_hit || (p.status.is_blocking && p.animation.0 == Some(Clip::Block))
}

/// The target is the player, or one of the first `n` enemies.
pub open spec fn within_enemies(t: Target, n: int) -> bool {
    match t {
        Target::Player => true,
        Target::Enemy(k) => k < n,
    }
}

/// Orders where no character is switched twice: any later order for a
/// character already ordered is a `Keep` for the player.
pub open spec fn one_switch_each(o: Seq<AnimOrder>) -> bool {
    forall|i: int, j: int|
        0 <= i < j < o.len() && (#[trigger] o[i]).target == (#[trigger] o[j]).target ==> o[j].target
            == Target::Player && o[j].command == AnimCommand::Keep
}

proof fn lemma_exchanges_switch_once(p: PlayerCombatant, es: Seq<EnemyCombatant>, dt: u32, attacking: bool)
    requires
        es.len() <= usize::MAX,
    ensures
        ({
            let x = exchanges(p, es, dt, attacking);
            &&& x.0.status.is_blocking == p.status.is_blocking
            &&& player_settled(p) ==> player_settled(x.0)
            &&& forall|i: int| 0 <= i < x.3.len() ==> within_enemies((#[trigger] x.3[i]).target, es.len() as int)
            &&& forall|i: int| 0 <= i < x.3.len() && (#[trigger] x.3[i]).target == Target::Player ==> player_settled(x.0)
            &&& one_switch_each(x.3)
        }),
    decreases es.len(),
{
    if es.len() > 0 {
        let n = (es.len() - 1) as usize;
        lemma_exchanges_switch_once(p, es.drop_last(), dt, attacking);
        let prev = exchanges(p, es.drop_last(), dt, attacking);
        let e = es.last();
        let e1 = EnemyCombatant { status: hit_decayed(e.status, dt), ..e };
        let s1 = enemy_strikes(prev.0, e1);
        let step = exchange(prev.0, e, dt, n, attacking);
        let o = prev.3 + step.3;
        let m = prev.3.len();
        assert(exchanges(p, es, dt, attacking).3 == o);
        assert(step.3.len() <= 2);
        assert(forall|j: int| 0 <= j < step.3.len() ==> (#[trigger] step.3[j]).target == Target::Player
            || step.3[j].target == Target::Enemy(n));
        assert(forall|j: int| 0 <= j < step.3.len() && (#[trigger] step.3[j]).target == Target::Player ==> j == 0 && s1);
        assert(step.3.len() == 2 ==> step.3[0].target != step.3[1].target);
        if s1 {
            assert(step.3[0].target == Target::Player);
            assert(player_settled(step.0));
            if player_settled(prev.0) {
                assert(prev.0.status.is_blocking && prev.0.animation.0 == Some(Clip::Block));
                assert(step.3[0].command == AnimCommand::Keep);
            }
        }
        assert forall|i: int| 0 <= i < o.len() implies within_enemies((#[trigger] o[i]).target, es.len() as int) by {
            if i >= m {
                assert(o[i] == step.3[i - m]);
            }
        }
        assert forall|i: int| 0 <= i < o.len() && (#[trigger] o[i]).target == Target::Player implies player_settled(step.0) by {
            if i >= m {
                assert(o[i] == step.3[i - m]);
            }
        }
        assert forall|i: int, j: int|
            0 <= i < j < o.len() && (#[trigger] o[i]).target == (#[trigger] o[j]).target implies o[j].target
                == Target::Player && o[j].command == AnimCommand::Keep by {
            if j < m {
                assert(o[i] == prev.3[i] && o[j] == prev.3[j]);
            } else if i < m {
                assert(o[i] == prev.3[i] && o[j] == step.3[j - m]);
                assert(within_enemies(prev.3[i].target, n as int));
                if step.3[j - m].target == Target::Player {
                    assert(j - m == 0 && s1);
                    assert(player_settled(prev.0));
                    assert(step.3[0].command == AnimCommand::Keep);
                } else {
                    assert(step.3[j - m].target == Target::Enemy(n));
                }
            } else {
                assert(o[i] == step.3[i - m] && o[j] == step.3[j - m]);
                assert(i - m == 0 && j - m == 1);
            }
        }
    }
}

/// At most one clip switch per character in a tick of combat: once a
/// character has an order, every later order for it is a `Keep` for the
/// player, and enemies are never ordered twice. Enemy orders name only the
/// enemies handed in.
pub proof fn lemma_one_switch_per_character(p: PlayerCombatant, es: Seq<EnemyCombatant>, block_held: bool, dt: u32)
    requires
        es.len() <= usize::MAX,
    ensures
        ({
            let o = combat_tick(p, es, block_held, dt).3;
            &&& one_switch_each(o)
            &&& forall|i: int| 0 <= i < o.len() ==> within_enemies((#[trigger] o[i]).target, es.len() as int)
        }),
{
    let b = block_step(p, block_held, dt);
    let p_start = PlayerCombatant { status: hit_decayed(b.status, dt), ..b };
    lemma_exchanges_switch_once(p_start, es, dt, is_attacking(p));
}

} // verus!
