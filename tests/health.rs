use melee_arena::anim::{missing_clip, AnimCommand, Clip, CurrentAnimation};
use melee_arena::combat::CombatStatus;
use melee_arena::health::{recover_stamina, tick_death_timer, Health, Stamina};

#[test]
fn dead_enemy_is_removed_after_three_seconds() {
    let mut status = CombatStatus::new();
    status.is_dead = true;
    status.death_timer = 3000;
    for _ in 0..29 {
        assert!(!tick_death_timer(&mut status, 100));
    }
    assert_eq!(status.death_timer, 100);
    assert!(tick_death_timer(&mut status, 100));
    assert_eq!(status.death_timer, 0);
}

#[test]
fn living_character_has_no_countdown() {
    let mut status = CombatStatus::new();
    assert!(!tick_death_timer(&mut status, 5000));
    assert_eq!(status, CombatStatus::new());
}

#[test]
fn defaults() {
    let h = Health::default();
    assert_eq!((h.current, h.max), (100, 100));
    let s = Stamina::default();
    assert_eq!((s.current, s.max, s.recovery_rate), (100_000, 100_000, 30));
    assert_eq!(Health::new(40), Health { current: 40, max: 40 });
}

#[test]
fn stamina_recovers_up_to_max() {
    let mut s = Stamina { current: 50_000, max: 100_000, recovery_rate: 30 };
    let idle = CombatStatus::new();
    recover_stamina(&mut s, &idle, 100);
    assert_eq!(s.current, 53_000);
    recover_stamina(&mut s, &idle, 10_000);
    assert_eq!(s.current, 100_000);
}

#[test]
fn blocking_stops_recovery() {
    let mut s = Stamina { current: 50_000, max: 100_000, recovery_rate: 30 };
    let mut blocking = CombatStatus::new();
    blocking.is_blocking = true;
    recover_stamina(&mut s, &blocking, 100);
    assert_eq!(s.current, 50_000);
}

#[test]
fn pool_percentages() {
    assert_eq!(Health { current: 80, max: 100 }.percent(), 80);
    assert_eq!(Health { current: 1, max: 3 }.percent(), 33);
    assert_eq!(Health { current: 0, max: 0 }.percent(), 0);
    assert_eq!(Stamina { current: 75_000, max: 100_000, recovery_rate: 30 }.percent(), 75);
}

#[test]
fn switching_clips() {
    let mut anim = CurrentAnimation(None);
    assert_eq!(anim.switch_to(Some(Clip::Idle)), AnimCommand::Play { clip: Clip::Idle, repeat: true });
    assert_eq!(anim.switch_to(Some(Clip::Idle)), AnimCommand::Keep);
    assert_eq!(anim.switch_to(Some(Clip::Block)), AnimCommand::Play { clip: Clip::Block, repeat: false });
    assert_eq!(anim.force(Clip::Block), AnimCommand::Play { clip: Clip::Block, repeat: false });
    assert_eq!(anim.switch_to(None), AnimCommand::StopAll);
    assert_eq!(anim, CurrentAnimation(None));
    let anim = CurrentAnimation(Some(Clip::Jump));
    assert!(anim.is_playing(Clip::Jump, false));
    assert!(!anim.is_playing(Clip::Jump, true));
    assert!(!anim.is_playing(Clip::Attack, false));
}

#[test]
fn catalog_is_all_or_nothing() {
    assert_eq!(missing_clip(&vec![true; 8]), None);
    let mut found = vec![true; 8];
    found[3] = false;
    found[6] = false;
    assert_eq!(missing_clip(&found), Some(Clip::Attack));
    assert_eq!(Clip::Attack.name(), "1H_Melee_Attack_Chop");
    assert_eq!(Clip::Run.name(), "Running_B");
    assert_eq!(Clip::at(7), Clip::Block);
    assert_eq!(Clip::Death.index(), 6);
}
