//! Player movement, jumping and dodging.
use vstd::prelude::*;
use crate::anim::{
    playing_unfinished, restart_command, switch_command, AnimCommand, Clip, CurrentAnimation,
};
use crate::combat::CombatStatus;
use crate::health::{Stamina, DODGE_STAMINA_COST};
use crate::input::{Dir, PlayerInput};
use vstd::arithmetic::div_mod::lemma_div_multiples_vanish;

verus! {

/// Walking speed, in mm/s.
pub const WALK_SPEED: u32 = 1000;
/// Running speed, in mm/s.
pub const RUN_SPEED: u32 = 2000;
/// Downward acceleration, in mm/s per ms (4 m/s²).
pub const GRAVITY: i32 = 4;
/// Upward speed at the start of a jump, in mm/s.
pub const JUMP_VELOCITY: i32 = 2000;
/// Speed of a dodge, in mm/s.
pub const DODGE_SPEED: u32 = 3000;
/// Length of a dodge, in ms.
pub const DODGE_DURATION: u32 = 400;

/// Vertical speed of the player, in mm/s, upward positive.
#[derive(Clone, Copy, Debug, PartialEq, Eq, Structural)]
pub struct VerticalVelocity(pub i32);

/// A dodge under way: its direction and remaining time in ms.
#[derive(Clone, Copy, Debug, PartialEq, Eq, Structural)]
pub struct Dodging {
    pub direction: Dir,
    pub timer: u32,
}

/// A displacement requested from the physics collaborator, in micrometres.
#[derive(Clone, Copy, Debug, PartialEq, Eq, Structural)]
pub struct Displacement {
    pub x: i64,
    pub y: i64,
    pub z: i64,
}

/// Vertical speed after `dt` ms of gravity, saturating at `i32::MIN`.
pub open spec fn fallen(v: i32, dt: u32) -> i32 {
    if v - GRAVITY * dt < i32::MIN {
        i32::MIN
    } else {
        (v - GRAVITY * dt) as i32
    }
}

fn fall(v: i32, dt: u32) -> (r: i32)
    ensures
        r == fallen(v, dt),
{
    let g: i64 = GRAVITY as i64;
    let t: i64 = dt as i64;
    assert(0 <= g * t <= 4 * 4294967295) by (nonlinear_arith)
        requires
            g == 4,
            0 <= t <= 4294967295,
    ;
    let w: i64 = v as i64 - g * t;
    if w < i32::MIN as i64 {
        i32::MIN
    } else {
        w as i32
    }
}

/// A displacement of `dt` ms along `dir` (scaled by 1000) at `speed` mm/s,
/// with vertical speed `v`.
pub open spec fn displacement(dir: Dir, speed: u32, v: i32, dt: u32) -> Displacement {
    Displacement {
        x: (dir.x * speed * dt / 1000) as i64,
        y: (v * dt) as i64,
        z: (dir.z * speed * dt / 1000) as i64,
    }
}

fn axis_step(d: i32, k: u32, dt: u32) -> (r: i64)
    requires
        -1000 <= d <= 1000,
        k <= 3,
    ensures
        r == d * (1000 * k) * dt / 1000,
{
    proof {
        assert(d * (1000 * k) * dt == 1000 * (d * k * dt)) by (nonlinear_arith);
        lemma_div_multiples_vanish(d * k * dt, 1000);
    }
    let di: i64 = d as i64;
    let ki: i64 = k as i64;
    assert(-3000 <= di * ki <= 3000) by (nonlinear_arith)
        requires
            -1000 <= di <= 1000,
            0 <= ki <= 3,
    ;
    let a: i64 = di * ki;
    assert(-3000 * 4294967295 <= a * dt <= 3000 * 4294967295) by (nonlinear_arith)
        requires
            -3000 <= a <= 3000,
            0 <= dt <= 4294967295,
    ;
    a * dt as i64
}

fn move_along(dir: Dir, speed: u32, v: i32, dt: u32) -> (r: Displacement)
    requires
        dir.wf(),
        speed <= DODGE_SPEED,
        speed % 1000 == 0,
    ensures
        r == displacement(dir, speed, v, dt),
{
    let k = speed / 1000;
    assert(speed == 1000 * k);
    let vy = v as i64;
    assert(-2147483648 * 4294967295 <= vy * dt <= 2147483647 * 4294967295) by (nonlinear_arith)
        requires
            -2147483648 <= vy <= 2147483647,
            0 <= dt <= 4294967295,
    ;
    Displacement { x: axis_step(dir.x, k, dt), y: vy * dt as i64, z: axis_step(dir.z, k, dt) }
}

/// Whether a dodge starts: it is requested, none is under way, the player
/// lives and is not mid-attack, and stamina covers its cost.
pub open spec fn dodge_starts(input: PlayerInput, stamina: Stamina, dodging: Option<Dodging>, status: CombatStatus, attacking: bool) -> bool {
    &&& input.dodging
    &&& dodging.is_none()
    &&& !status.is_dead
    &&& !attacking
    &&& stamina.current >= DODGE_STAMINA_COST
}

/// Starts a dodge when `dodge_starts` holds: its cost is debited, and it
/// runs for `DODGE_DURATION` along the held movement, or along `forward`
/// when no movement is held. Otherwise nothing changes.
pub fn handle_dodge(input: &PlayerInput, forward: Dir, stamina: &mut Stamina, dodging: &mut Option<Dodging>, status: &CombatStatus, animation: &CurrentAnimation, animation_finished: bool)
    requires
        input.movement.wf(),
        forward.wf(),
    ensures
        ({
            let attacking = playing_unfinished(animation.0, Clip::Attack, animation_finished);
            if dodge_starts(*input, *old(stamina), *old(dodging), *status, attacking) {
                &&& *final(stamina) == (Stamina { current: (old(stamina).current - DODGE_STAMINA_COST) as u32, ..*old(stamina) })
                &&& *final(dodging) == Some(Dodging {
                    direction: if input.movement.held() { input.movement } else { forward },
                    timer: DODGE_DURATION,
                })
            } else {
                &&& *final(stamina) == *old(stamina)
                &&& *final(dodging) == *old(dodging)
            }
        }),
        old(stamina).wf() ==> final(stamina).wf(),
        (*old(dodging) matches Some(d) ==> d.direction.wf()) ==> (*final(dodging) matches Some(d) ==> d.direction.wf()),
        old(stamina).current < DODGE_STAMINA_COST || playing_unfinished(animation.0, Clip::Attack, animation_finished)
            ==> *final(stamina) == *old(stamina) && *final(dodging) == *old(dodging),
{
    let attacking = animation.is_playing(Clip::Attack, animation_finished);
    if input.dodging && dodging.is_none() && !status.is_dead && !attacking
        && stamina.current >= DODGE_STAMINA_COST
    {
        stamina.current = stamina.current - DODGE_STAMINA_COST;
        let direction = if input.movement.is_held() {
            input.movement
        } else {
            forward
        };
        *dodging = Some(Dodging { direction, timer: DODGE_DURATION });
    }
}

/// Runs a dodge for one tick. The remaining time drops by `dt`; once it is
/// used up the dodge ends and nothing moves. Otherwise the player moves at
/// `DODGE_SPEED` along the dodge's direction, under gravity. A dead player
/// and a player who is not dodging are left alone.
pub fn update_dodge(dodging: &mut Option<Dodging>, velocity: &mut VerticalVelocity, status: &CombatStatus, dt: u32) -> (r: Option<Displacement>)
    requires
        *old(dodging) matches Some(d) ==> d.direction.wf(),
    ensures
        match *old(dodging) {
            Some(d) if !status.is_dead => if d.timer <= dt {
                &&& *final(dodging) == None::<Dodging>
                &&& *final(velocity) == *old(velocity)
                &&& r.is_none()
            } else {
                let v = fallen(old(velocity).0, dt);
                &&& *final(dodging) == Some(Dodging { timer: (d.timer - dt) as u32, ..d })
                &&& *final(velocity) == VerticalVelocity(v)
                &&& r == Some(displacement(d.direction, DODGE_SPEED, v, dt))
            },
            _ => {
                &&& *final(dodging) == *old(dodging)
                &&& *final(velocity) == *old(velocity)
                &&& r.is_none()
            },
        },
{
    if status.is_dead {
        return None;
    }
    match *dodging {
        Some(d) => {
            if d.timer <= dt {
                *dodging = None;
                None
            } else {
                *dodging = Some(Dodging { timer: d.timer - dt, ..d });
                let v = fall(velocity.0, dt);
                velocity.0 = v;
                Some(move_along(d.direction, DODGE_SPEED, v, dt))
            }
        },
        None => None,
    }
}

/// What player movement asks for in one tick.
#[derive(Clone, Copy, Debug, PartialEq, Eq, Structural)]
pub struct MoveOutcome {
    /// The displacement to request, if any.
    pub step: Option<Displacement>,
    /// The command for the player's animation player.
    pub command: AnimCommand,
}

/// What the world reports of the player for a tick of movement.
#[derive(Clone, Copy, Debug, PartialEq, Eq, Structural)]
pub struct MoveContext {
    pub is_dead: bool,
    pub dodging: bool,
    /// The physics collaborator found the player on the ground.
    pub grounded: bool,
    /// The animation player reports that all playback has ended.
    pub animation_finished: bool,
    pub dt: u32,
}

/// The locomotion clip: Run or Walk while moving, none at rest.
pub open spec fn locomotion_clip(moving: bool, running: bool) -> Option<Clip> {
    if moving {
        Some(if running { Clip::Run } else { Clip::Walk })
    } else {
        None
    }
}

/// One tick of player movement, as the input, vertical speed, active clip
/// and outcome that follow it.
///
/// - A dead player does nothing, and a pending attack is dropped.
/// - A dodging player is moved by the dodge instead.
/// - A pending attack starts when no attack or jump clip is playing: the
///   request is consumed, the Attack clip starts, and nothing moves.
/// - A jump starts on the jump edge when grounded and neither attacking nor
///   jumping.
/// - Mid-attack nothing moves.
/// - Otherwise the player moves along the input at walking or running
///   speed under gravity (grounded and not rising: the vertical speed is
///   zero), and when grounded and not jumping shows the locomotion clip.
pub open spec fn movement_step(input: PlayerInput, ctx: MoveContext, anim: CurrentAnimation, v: VerticalVelocity) -> (
    PlayerInput,
    VerticalVelocity,
    CurrentAnimation,
    MoveOutcome,
) {
    let attacking = playing_unfinished(anim.0, Clip::Attack, ctx.animation_finished);
    let jumping = playing_unfinished(anim.0, Clip::Jump, ctx.animation_finished);
    let still = MoveOutcome { step: None, command: AnimCommand::Keep };
    if ctx.is_dead {
        (PlayerInput { attack_buffer: 0, ..input }, v, anim, still)
    } else if ctx.dodging {
        (input, v, anim, still)
    } else if input.attack_buffer > 0 && !attacking && !jumping {
        (
            PlayerInput { attack_buffer: 0, ..input },
            v,
            CurrentAnimation(Some(Clip::Attack)),
            MoveOutcome { step: None, command: restart_command(Some(Clip::Attack)) },
        )
    } else if attacking {
        (input, v, anim, still)
    } else {
        let jumped = input.jumping && ctx.grounded && !jumping;
        let v1 = if jumped {
            JUMP_VELOCITY
        } else {
            v.0
        };
        let v2 = if ctx.grounded && v1 <= 0 {
            0
        } else {
            fallen(v1, ctx.dt)
        };
        let moving = input.movement.x != 0 || input.movement.z != 0;
        let speed = if input.sprinting {
            RUN_SPEED
        } else {
            WALK_SPEED
        };
        let desired = locomotion_clip(moving, input.sprinting);
        let anim2 = if jumped {
            CurrentAnimation(Some(Clip::Jump))
        } else if ctx.grounded && !jumping {
            CurrentAnimation(desired)
        } else {
            anim
        };
        let command = if jumped {
            restart_command(Some(Clip::Jump))
        } else if ctx.grounded && !jumping {
            switch_command(anim.0, desired)
        } else {
            AnimCommand::Keep
        };
        (
            input,
            VerticalVelocity(v2),
            anim2,
            MoveOutcome { step: Some(displacement(input.movement, speed, v2, ctx.dt)), command },
        )
    }
}

/// One tick of player movement; see `movement_step`.
pub fn player_movement(input: &mut PlayerInput, ctx: &MoveContext, animation: &mut CurrentAnimation, velocity: &mut VerticalVelocity) -> (r: MoveOutcome)
    requires
        old(input).movement.wf(),
    ensures
        ({
            let s = movement_step(*old(input), *ctx, *old(animation), *old(velocity));
            &&& *final(input) == s.0
            &&& *final(velocity) == s.1
            &&& *final(animation) == s.2
            &&& r == s.3
        }),
        !ctx.is_dead && playing_unfinished(old(animation).0, Clip::Attack, ctx.animation_finished)
            ==> r.step.is_none() && *final(velocity) == *old(velocity) && final(input).jumping == old(input).jumping,
{
    let still = MoveOutcome { step: None, command: AnimCommand::Keep };
    if ctx.is_dead {
        input.consume_attack();
        return still;
    }
    if ctx.dodging {
        return still;
    }
    let attacking = animation.is_playing(Clip::Attack, ctx.animation_finished);
    let jumping = animation.is_playing(Clip::Jump, ctx.animation_finished);
    if input.attack_buffered() && !attacking && !jumping {
        input.consume_attack();
        let command = animation.force(Clip::Attack);
        return MoveOutcome { step: None, command };
    }
    if attacking {
        return still;
    }
    let jumped = input.jumping && ctx.grounded && !jumping;
    let mut command = AnimCommand::Keep;
    if jumped {
        velocity.0 = JUMP_VELOCITY;
        command = animation.force(Clip::Jump);
    }
    if ctx.grounded && velocity.0 <= 0 {
        velocity.0 = 0;
    } else {
        velocity.0 = fall(velocity.0, ctx.dt);
    }
    let moving = input.movement.x != 0 || input.movement.z != 0;
    let speed = if input.sprinting {
        RUN_SPEED
    } else {
        WALK_SPEED
    };
    if !jumped && ctx.grounded && !jumping {
        let desired = if moving {
            Some(if input.sprinting { Clip::Run } else { Clip::Walk })
        } else {
            None
        };
        command = animation.switch_to(desired);
    }
    MoveOutcome { step: Some(move_along(input.movement, speed, velocity.0, ctx.dt)), command }
}

} // verus!
