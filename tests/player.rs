use melee_arena::anim::{AnimCommand, Clip, CurrentAnimation};
use melee_arena::combat::CombatStatus;
use melee_arena::health::Stamina;
use melee_arena::input::{Dir, InputSnapshot, PlayerInput};
use melee_arena::player::{
    handle_dodge, player_movement, update_dodge, Displacement, Dodging, MoveContext,
    VerticalVelocity,
};

fn ctx(grounded: bool, finished: bool, dt: u32) -> MoveContext {
    MoveContext { is_dead: false, dodging: false, grounded, animation_finished: finished, dt }
}

fn forward() -> Dir {
    Dir { x: 0, z: -1000 }
}

#[test]
fn attack_press_arms_buffer_once() {
    let mut input = PlayerInput::new();
    assert!(!input.attack_buffered());
    input.update_attack_buffer(true, 16);
    assert!(input.attack_buffered());
    assert_eq!(input.attack_buffer, 150);
    input.update_attack_buffer(false, 100);
    assert_eq!(input.attack_buffer, 50);
    // A second press while pending does not extend the window.
    input.update_attack_buffer(true, 16);
    assert_eq!(input.attack_buffer, 50);
    input.update_attack_buffer(false, 50);
    assert!(!input.attack_buffered());
}

#[test]
fn unconsumed_attack_clears_after_window() {
    let mut input = PlayerInput::new();
    input.update_attack_buffer(true, 16);
    for _ in 0..9 {
        input.update_attack_buffer(false, 16);
        assert!(input.attack_buffered());
    }
    input.update_attack_buffer(false, 6);
    assert!(!input.attack_buffered());
}

#[test]
fn read_takes_snapshot_levels_and_edges() {
    let mut input = PlayerInput::new();
    let snap = InputSnapshot {
        movement: Dir { x: 1000, z: 0 },
        attack_pressed: true,
        block_held: true,
        dodge_pressed: false,
        jump_pressed: true,
        sprint_held: true,
    };
    input.read(&snap, 16);
    assert_eq!(input.movement, Dir { x: 1000, z: 0 });
    assert!(input.attacking && input.blocking && input.jumping && input.sprinting);
    assert!(!input.dodging);
    assert_eq!(input.attack_buffer, 150);
}

#[test]
fn buffered_attack_starts_and_is_consumed_once() {
    let mut input = PlayerInput::new();
    input.update_attack_buffer(true, 16);
    let mut anim = CurrentAnimation(None);
    let mut v = VerticalVelocity(0);
    let out = player_movement(&mut input, &ctx(true, true, 16), &mut anim, &mut v);
    assert_eq!(out.step, None);
    assert_eq!(out.command, AnimCommand::Play { clip: Clip::Attack, repeat: false });
    assert!(!input.attack_buffered());
    assert_eq!(anim, CurrentAnimation(Some(Clip::Attack)));
    // While the swing plays nothing more starts and nothing moves.
    let out = player_movement(&mut input, &ctx(true, false, 16), &mut anim, &mut v);
    assert_eq!(out.step, None);
    assert_eq!(out.command, AnimCommand::Keep);
}

#[test]
fn attacking_player_does_not_move_jump_or_dodge() {
    let mut input = PlayerInput::new();
    input.movement = Dir { x: 1000, z: 0 };
    input.jumping = true;
    input.dodging = true;
    let mut anim = CurrentAnimation(Some(Clip::Attack));
    let mut v = VerticalVelocity(0);
    let out = player_movement(&mut input, &ctx(true, false, 16), &mut anim, &mut v);
    assert_eq!(out.step, None);
    assert_eq!(v, VerticalVelocity(0));
    assert_eq!(anim, CurrentAnimation(Some(Clip::Attack)));
    let mut stamina = Stamina::default();
    let mut dodging: Option<Dodging> = None;
    handle_dodge(&input, forward(), &mut stamina, &mut dodging, &CombatStatus::new(), &anim, false);
    assert!(dodging.is_none());
    assert_eq!(stamina.current, 100_000);
}

#[test]
fn walking_moves_at_walk_speed() {
    let mut input = PlayerInput::new();
    input.movement = Dir { x: 600, z: -800 };
    let mut anim = CurrentAnimation(None);
    let mut v = VerticalVelocity(0);
    let out = player_movement(&mut input, &ctx(true, true, 16), &mut anim, &mut v);
    assert_eq!(out.step, Some(Displacement { x: 9600, y: 0, z: -12800 }));
    assert_eq!(out.command, AnimCommand::Play { clip: Clip::Walk, repeat: true });
    input.sprinting = true;
    let out = player_movement(&mut input, &ctx(true, true, 16), &mut anim, &mut v);
    assert_eq!(out.step, Some(Displacement { x: 19200, y: 0, z: -25600 }));
    assert_eq!(out.command, AnimCommand::Play { clip: Clip::Run, repeat: true });
}

#[test]
fn standing_still_stops_locomotion_clip() {
    let mut input = PlayerInput::new();
    let mut anim = CurrentAnimation(Some(Clip::Walk));
    let mut v = VerticalVelocity(0);
    let out = player_movement(&mut input, &ctx(true, true, 16), &mut anim, &mut v);
    assert_eq!(out.command, AnimCommand::StopAll);
    assert_eq!(anim, CurrentAnimation(None));
    assert_eq!(out.step, Some(Displacement { x: 0, y: 0, z: 0 }));
}

#[test]
fn jump_starts_when_grounded() {
    let mut input = PlayerInput::new();
    input.jumping = true;
    let mut anim = CurrentAnimation(None);
    let mut v = VerticalVelocity(0);
    let out = player_movement(&mut input, &ctx(true, true, 10), &mut anim, &mut v);
    assert_eq!(v, VerticalVelocity(1960));
    assert_eq!(out.step, Some(Displacement { x: 0, y: 19600, z: 0 }));
    assert_eq!(out.command, AnimCommand::Play { clip: Clip::Jump, repeat: false });
    assert_eq!(anim, CurrentAnimation(Some(Clip::Jump)));
    // In the air there is no second jump, and gravity keeps acting.
    let out = player_movement(&mut input, &ctx(false, false, 10), &mut anim, &mut v);
    assert_eq!(v, VerticalVelocity(1920));
    assert_eq!(out.command, AnimCommand::Keep);
}

#[test]
fn airborne_player_falls() {
    let mut input = PlayerInput::new();
    let mut anim = CurrentAnimation(None);
    let mut v = VerticalVelocity(-100);
    let out = player_movement(&mut input, &ctx(false, true, 20), &mut anim, &mut v);
    assert_eq!(v, VerticalVelocity(-180));
    assert_eq!(out.step, Some(Displacement { x: 0, y: -3600, z: 0 }));
    // Landing clears the downward speed.
    let _ = player_movement(&mut input, &ctx(true, true, 20), &mut anim, &mut v);
    assert_eq!(v, VerticalVelocity(0));
}

#[test]
fn dead_player_drops_pending_attack() {
    let mut input = PlayerInput::new();
    input.update_attack_buffer(true, 16);
    let mut anim = CurrentAnimation(Some(Clip::Death));
    let mut v = VerticalVelocity(0);
    let c = MoveContext { is_dead: true, dodging: false, grounded: true, animation_finished: true, dt: 16 };
    let out = player_movement(&mut input, &c, &mut anim, &mut v);
    assert_eq!(out.step, None);
    assert!(!input.attack_buffered());
}

#[test]
fn dodge_needs_stamina() {
    let mut input = PlayerInput::new();
    input.dodging = true;
    let mut stamina = Stamina { current: 24_999, max: 100_000, recovery_rate: 30 };
    let mut dodging: Option<Dodging> = None;
    let anim = CurrentAnimation(None);
    handle_dodge(&input, forward(), &mut stamina, &mut dodging, &CombatStatus::new(), &anim, true);
    assert!(dodging.is_none());
    assert_eq!(stamina.current, 24_999);
}

#[test]
fn dodge_debits_stamina_and_follows_input() {
    let mut input = PlayerInput::new();
    input.dodging = true;
    input.movement = Dir { x: 1000, z: 0 };
    let mut stamina = Stamina::default();
    let mut dodging: Option<Dodging> = None;
    let anim = CurrentAnimation(None);
    handle_dodge(&input, forward(), &mut stamina, &mut dodging, &CombatStatus::new(), &anim, true);
    assert_eq!(stamina.current, 75_000);
    assert_eq!(dodging, Some(Dodging { direction: Dir { x: 1000, z: 0 }, timer: 400 }));
    // No second dodge while one is under way.
    handle_dodge(&input, forward(), &mut stamina, &mut dodging, &CombatStatus::new(), &anim, true);
    assert_eq!(stamina.current, 75_000);
}

#[test]
fn dodge_without_movement_goes_forward() {
    let mut input = PlayerInput::new();
    input.dodging = true;
    let mut stamina = Stamina::default();
    let mut dodging: Option<Dodging> = None;
    let anim = CurrentAnimation(None);
    handle_dodge(&input, forward(), &mut stamina, &mut dodging, &CombatStatus::new(), &anim, true);
    assert_eq!(dodging.unwrap().direction, forward());
}

#[test]
fn dodge_moves_then_ends() {
    let mut dodging = Some(Dodging { direction: Dir { x: 0, z: -1000 }, timer: 400 });
    let mut v = VerticalVelocity(0);
    let status = CombatStatus::new();
    let d = update_dodge(&mut dodging, &mut v, &status, 100);
    assert_eq!(v, VerticalVelocity(-400));
    assert_eq!(d, Some(Displacement { x: 0, y: -40_000, z: -300_000 }));
    assert_eq!(dodging.unwrap().timer, 300);
    let _ = update_dodge(&mut dodging, &mut v, &status, 100);
    let _ = update_dodge(&mut dodging, &mut v, &status, 100);
    let d = update_dodge(&mut dodging, &mut v, &status, 100);
    assert_eq!(d, None);
    assert!(dodging.is_none());
}

#[test]
fn dodging_player_is_not_moved_by_movement() {
    let mut input = PlayerInput::new();
    input.movement = Dir { x: 1000, z: 0 };
    let mut anim = CurrentAnimation(None);
    let mut v = VerticalVelocity(0);
    let c = MoveContext { is_dead: false, dodging: true, grounded: true, animation_finished: true, dt: 16 };
    let out = player_movement(&mut input, &c, &mut anim, &mut v);
    assert_eq!(out.step, None);
}
