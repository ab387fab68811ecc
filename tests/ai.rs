use melee_arena::ai::{enemy_ai, update_ai_state, AiState, EnemyAi, EnemyIntent};
use melee_arena::anim::{AnimCommand, Clip, CurrentAnimation};
use melee_arena::combat::CombatStatus;
use melee_arena::geom::Pos;

fn at(x: i32) -> Pos {
    Pos { x, y: 0, z: 0 }
}

#[test]
fn distant_enemy_idles_then_patrols_near_home() {
    let home = at(0);
    let player = at(10_000);
    let mut ai = EnemyAi::new(home);
    // Three seconds in 16 ms ticks: 187 ticks make 2992 ms, still idle.
    for _ in 0..187 {
        update_ai_state(&mut ai, home, player, 16);
        assert_eq!(ai.state, AiState::Idle);
    }
    assert_eq!(ai.state_timer, 2992);
    update_ai_state(&mut ai, home, player, 8);
    assert_eq!(ai.state, AiState::Idle);
    assert_eq!(ai.state_timer, 3000);
    update_ai_state(&mut ai, home, player, 16);
    assert_eq!(ai.state, AiState::Patrol);
    assert_eq!(ai.state_timer, 0);
    let target = ai.patrol_target.unwrap();
    let d2 = (target.x as i64 - home.x as i64).pow(2)
        + (target.y as i64 - home.y as i64).pow(2)
        + (target.z as i64 - home.z as i64).pow(2);
    assert!(d2 <= 3000 * 3000);
    assert_eq!(target, Pos { x: 3000, y: 0, z: 0 });
}

#[test]
fn idle_enemy_detects_player() {
    let mut ai = EnemyAi::new(at(0));
    update_ai_state(&mut ai, at(0), at(7999), 16);
    assert_eq!(ai.state, AiState::Chase);
    assert_eq!(ai.state_timer, 0);
    let mut ai = EnemyAi::new(at(0));
    update_ai_state(&mut ai, at(0), at(8000), 16);
    assert_eq!(ai.state, AiState::Idle);
}

#[test]
fn patrol_ends_after_five_seconds() {
    let mut ai = EnemyAi::new(at(0));
    ai.state = AiState::Patrol;
    ai.patrol_target = Some(at(3000));
    ai.state_timer = 4990;
    update_ai_state(&mut ai, at(0), at(20_000), 10);
    assert_eq!(ai.state, AiState::Patrol);
    update_ai_state(&mut ai, at(0), at(20_000), 1);
    assert_eq!(ai.state, AiState::Idle);
    assert_eq!(ai.state_timer, 0);
}

#[test]
fn patrol_without_target_goes_idle() {
    let mut ai = EnemyAi::new(at(0));
    ai.state = AiState::Patrol;
    update_ai_state(&mut ai, at(0), at(20_000), 16);
    assert_eq!(ai.state, AiState::Idle);
}

#[test]
fn chase_turns_to_attack_in_reach_and_gives_up_far_away() {
    let mut ai = EnemyAi::new(at(0));
    ai.state = AiState::Chase;
    update_ai_state(&mut ai, at(0), at(1999), 16);
    assert_eq!(ai.state, AiState::Attack);
    let mut ai = EnemyAi::new(at(0));
    ai.state = AiState::Chase;
    update_ai_state(&mut ai, at(0), at(12_000), 16);
    assert_eq!(ai.state, AiState::Chase);
    update_ai_state(&mut ai, at(0), at(12_001), 16);
    assert_eq!(ai.state, AiState::Idle);
}

#[test]
fn attack_repeats_or_resumes_chase_after_one_second() {
    let mut ai = EnemyAi::new(at(0));
    ai.state = AiState::Attack;
    ai.state_timer = 990;
    update_ai_state(&mut ai, at(0), at(1500), 10);
    assert_eq!(ai.state, AiState::Attack);
    assert_eq!(ai.state_timer, 1000);
    update_ai_state(&mut ai, at(0), at(1500), 10);
    assert_eq!(ai.state, AiState::Attack);
    assert_eq!(ai.state_timer, 0);
    ai.state_timer = 1000;
    update_ai_state(&mut ai, at(0), at(2500), 10);
    assert_eq!(ai.state, AiState::Chase);
    assert_eq!(ai.state_timer, 0);
}

#[test]
fn chasing_enemy_runs_toward_player() {
    let mut ai = EnemyAi::new(at(0));
    ai.state = AiState::Chase;
    let mut anim = CurrentAnimation(Some(Clip::Idle));
    let status = CombatStatus::new();
    let action = enemy_ai(&mut ai, &mut anim, &status, at(0), at(5000), 10).unwrap();
    assert_eq!(
        action.intent,
        EnemyIntent {
            move_toward: Some(at(5000)),
            speed: 4000,
            horizontal_only: true,
            face: Some(at(5000)),
            fall: -200_000,
            desired: Clip::Run,
        }
    );
    assert_eq!(action.command, AnimCommand::Play { clip: Clip::Run, repeat: true });
    assert_eq!(anim, CurrentAnimation(Some(Clip::Run)));
    let action = enemy_ai(&mut ai, &mut anim, &status, at(0), at(5000), 10).unwrap();
    assert_eq!(action.command, AnimCommand::Keep);
}

#[test]
fn attacking_enemy_holds_attack_clip() {
    let mut ai = EnemyAi::new(at(0));
    ai.state = AiState::Chase;
    let mut anim = CurrentAnimation(Some(Clip::Run));
    let status = CombatStatus::new();
    let action = enemy_ai(&mut ai, &mut anim, &status, at(0), at(1000), 16).unwrap();
    assert_eq!(ai.state, AiState::Attack);
    assert_eq!(action.intent.move_toward, None);
    assert_eq!(action.intent.face, Some(at(1000)));
    assert_eq!(action.command, AnimCommand::Play { clip: Clip::Attack, repeat: false });
}

#[test]
fn dead_enemy_decides_nothing() {
    let mut ai = EnemyAi::new(at(0));
    let mut anim = CurrentAnimation(Some(Clip::Death));
    let mut status = CombatStatus::new();
    status.is_dead = true;
    let r = enemy_ai(&mut ai, &mut anim, &status, at(0), at(100), 5000);
    assert!(r.is_none());
    assert_eq!(ai, EnemyAi::new(at(0)));
    assert_eq!(anim, CurrentAnimation(Some(Clip::Death)));
}

#[test]
fn enemy_that_gives_up_chase_idles_three_seconds() {
    let mut ai = EnemyAi::new(at(0));
    ai.state = AiState::Chase;
    ai.state_timer = 4000;
    update_ai_state(&mut ai, at(0), at(12_500), 16);
    assert_eq!(ai.state, AiState::Idle);
    assert_eq!(ai.state_timer, 0);
    // The player wanders about, never within detection range.
    let mut x: i32 = 12_500;
    let mut elapsed: u32 = 0;
    while elapsed + 16 <= 3000 {
        x = if x > 9000 { x - 500 } else { 20_000 };
        update_ai_state(&mut ai, at(0), at(x), 16);
        elapsed += 16;
        assert_eq!(ai.state, AiState::Idle);
    }
    update_ai_state(&mut ai, at(0), at(9000), 16);
    assert_eq!(ai.state, AiState::Patrol);
}
