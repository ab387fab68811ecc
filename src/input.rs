//! The abstract input signal of one tick and the attack buffer.
use vstd::prelude::*;
use crate::clock::total_ms;
use crate::health::floor_sub;

verus! {

/// How long a press of attack stays pending, in ms.
pub const ATTACK_BUFFER_TIME: u32 = 150;

/// A horizontal direction in world space: a unit vector scaled by 1000, or
/// zero for no direction.
#[derive(Clone, Copy, Debug, PartialEq, Eq, Structural)]
pub struct Dir {
    pub x: i32,
    pub z: i32,
}

impl Dir {
    /// Each component is at most one unit.
    pub open spec fn wf(&self) -> bool {
        -1000 <= self.x <= 1000 && -1000 <= self.z <= 1000
    }

    /// Whether the direction is held: its squared length is above a tenth
    /// of a unit.
    pub open spec fn held(&self) -> bool {
        self.x * self.x + self.z * self.z > 100_000
    }

    /// The zero direction.
    pub fn zero() -> (r: Dir)
        ensures
            r.x == 0 && r.z == 0,
    {
        Dir { x: 0, z: 0 }
    }

    /// Whether the direction is held.
    pub fn is_held(&self) -> (r: bool)
        requires
            self.wf(),
        ensures
            r == self.held(),
    {
        let x = self.x as i64;
        let z = self.z as i64;
        assert(0 <= x * x <= 1_000_000 && 0 <= z * z <= 1_000_000) by (nonlinear_arith)
            requires
                -1000 <= x <= 1000,
                -1000 <= z <= 1000,
        ;
        x * x + z * z > 100_000
    }
}

/// What the input collaborator reports for one tick. `movement` is the
/// held movement keys resolved against the camera into world space.
#[derive(Clone, Copy, Debug, PartialEq, Eq, Structural)]
pub struct InputSnapshot {
    pub movement: Dir,
    pub attack_pressed: bool,
    pub block_held: bool,
    pub dodge_pressed: bool,
    pub jump_pressed: bool,
    pub sprint_held: bool,
}

/// The player's input as the simulation sees it, with the attack buffer.
#[derive(Clone, Copy, Debug, PartialEq, Eq, Structural)]
pub struct PlayerInput {
    pub movement: Dir,
    pub attacking: bool,
    pub blocking: bool,
    pub dodging: bool,
    pub jumping: bool,
    pub sprinting: bool,
    /// Remaining time of a pending attack, in ms; zero when none is pending.
    pub attack_buffer: u32,
}

/// The attack buffer after a tick of `dt` ms: a press arms it when nothing
/// is pending and leaves a pending one untouched; a tick without a press
/// runs it down to zero.
pub open spec fn buffer_after(buffer: u32, pressed: bool, dt: u32) -> u32 {
    if pressed {
        if buffer == 0 {
            ATTACK_BUFFER_TIME
        } else {
            buffer
        }
    } else {
        floor_sub(buffer as int, dt as int) as u32
    }
}

impl PlayerInput {
    /// No input, nothing pending.
    pub fn new() -> (r: PlayerInput)
        ensures
            r.movement.x == 0 && r.movement.z == 0,
            !r.attacking && !r.blocking && !r.dodging && !r.jumping && !r.sprinting,
            r.attack_buffer == 0,
    {
        PlayerInput {
            movement: Dir::zero(),
            attacking: false,
            blocking: false,
            dodging: false,
            jumping: false,
            sprinting: false,
            attack_buffer: 0,
        }
    }

    /// Whether an attack request is pending.
    pub fn attack_buffered(&self) -> (r: bool)
        ensures
            r == (self.attack_buffer > 0),
    {
        self.attack_buffer > 0
    }

    /// Clears a pending attack request.
    pub fn consume_attack(&mut self)
        ensures
            *final(self) == (PlayerInput { attack_buffer: 0, ..*old(self) }),
    {
        self.attack_buffer = 0;
    }

    /// Runs the attack buffer for one tick.
    pub fn update_attack_buffer(&mut self, pressed: bool, dt: u32)
        ensures
            *final(self) == (PlayerInput { attack_buffer: buffer_after(old(self).attack_buffer, pressed, dt), ..*old(self) }),
    {
        if pressed {
            if self.attack_buffer == 0 {
                self.attack_buffer = ATTACK_BUFFER_TIME;
            }
        } else {
            self.attack_buffer = self.attack_buffer.saturating_sub(dt);
        }
    }

    /// Takes in one tick's input: the levels and edges as reported, and the
    /// attack buffer run by the attack edge.
    pub fn read(&mut self, snapshot: &InputSnapshot, dt: u32)
        ensures
            *final(self) == (PlayerInput {
                movement: snapshot.movement,
                attacking: snapshot.attack_pressed,
                blocking: snapshot.block_held,
                dodging: snapshot.dodge_pressed,
                jumping: snapshot.jump_pressed,
                sprinting: snapshot.sprint_held,
                attack_buffer: buffer_after(old(self).attack_buffer, snapshot.attack_pressed, dt),
            }),
    {
        self.movement = snapshot.movement;
        self.update_attack_buffer(snapshot.attack_pressed, dt);
        self.attacking = snapshot.attack_pressed;
        self.blocking = snapshot.block_held;
        self.jumping = snapshot.jump_pressed;
        self.sprinting = snapshot.sprint_held;
        self.dodging = snapshot.dodge_pressed;
    }
}

} // verus!

verus! {

/// The attack buffer through a run of ticks without a press.
pub open spec fn buffer_run(buffer: u32, dts: Seq<u32>) -> u32
    decreases dts.len(),
{
    if dts.len() == 0 {
        buffer
    } else {
        buffer_after(buffer_run(buffer, dts.drop_last()), false, dts.last())
    }
}

proof fn lemma_buffer_runs_down(buffer: u32, dts: Seq<u32>)
    ensures
        buffer_run(buffer, dts) == floor_sub(buffer as int, total_ms(dts)),
        total_ms(dts) >= 0,
    decreases dts.len(),
{
    if dts.len() > 0 {
        lemma_buffer_runs_down(buffer, dts.drop_last());
    }
}

/// The attack buffer: a press with nothing pending makes an attack
/// pending, and a press while one is pending does not extend it. Left
/// alone, the request stays pending for less than `ATTACK_BUFFER_TIME` and
/// clears once that much time has passed. Once consumed it stays clear
/// until the next press.
pub proof fn lemma_attack_buffer(dt: u32, held: u32, dts: Seq<u32>)
    requires
        held > 0,
    ensures
        buffer_after(0, true, dt) == ATTACK_BUFFER_TIME,
        buffer_after(held, true, dt) == held,
        total_ms(dts) < ATTACK_BUFFER_TIME ==> buffer_run(ATTACK_BUFFER_TIME, dts) > 0,
        total_ms(dts) >= ATTACK_BUFFER_TIME ==> buffer_run(ATTACK_BUFFER_TIME, dts) == 0,
        buffer_run(0, dts) == 0,
{
    lemma_buffer_runs_down(ATTACK_BUFFER_TIME, dts);
    lemma_buffer_runs_down(0, dts);
}

} // verus!
