use clock_crawler::battle::RoundOutcome;
use clock_crawler::game::{
    battle_end_check, game_pause, initiate_battle, initiate_pickup, new_player,
    pickup_end_check, resolve_battle_outcome, within_interaction, GameState, PlayerState,
};
use clock_crawler::rng::GameRng;
use clock_crawler::timer::{AttackSpeed, TickTimer};

#[test]
fn repeating_timer_carries_the_overshoot() {
    let mut t = TickTimer::new(100, true);
    t.tick(250);
    assert!(t.finished());
    assert_eq!(t.elapsed_ms, 50);
    t.tick(30);
    assert!(!t.finished());
    assert_eq!(t.elapsed_ms, 80);
}

#[test]
fn one_shot_timer_stays_finished() {
    let mut t = TickTimer::new(100, false);
    t.tick(60);
    assert!(!t.finished());
    t.tick(60);
    assert!(t.finished());
    assert_eq!(t.elapsed_ms, 100);
    t.tick(0);
    assert!(t.finished());
}

#[test]
fn paused_timer_ignores_ticks() {
    let mut t = TickTimer::new(100, true);
    t.pause();
    t.tick(500);
    assert!(!t.finished());
    assert_eq!(t.elapsed_ms, 0);
}

#[test]
fn reset_starts_the_countdown_over() {
    let mut t = TickTimer::new(100, false);
    t.tick(150);
    assert!(t.finished());
    t.reset();
    assert!(!t.finished());
    assert_eq!(t.elapsed_ms, 0);
}

#[test]
fn attack_speed_is_a_repeating_timer() {
    let a = AttackSpeed::new(500);
    assert_eq!(a.0.duration_ms, 500);
    assert!(a.0.repeating);
}

#[test]
fn player_starts_with_stock_stats() {
    let p = new_player();
    assert_eq!(p.health.current(), 100);
    assert_eq!(p.damage, 5);
    assert_eq!(p.defense_pm, 0);
    assert_eq!(p.attack.duration_ms, 500);
}

#[test]
fn pause_remembers_where_it_came_from() {
    let (next, saved) = game_pause(GameState::Battle, GameState::Running, true);
    assert_eq!(next, GameState::Paused);
    assert_eq!(saved, GameState::Battle);
    let (next, saved) = game_pause(GameState::Paused, saved, true);
    assert_eq!(next, GameState::Battle);
    assert_eq!(saved, GameState::Battle);
    let (next, _) = game_pause(GameState::Running, GameState::Running, false);
    assert_eq!(next, GameState::Running);
}

#[test]
fn battle_starts_only_up_close_in_the_same_sector() {
    assert!(within_interaction(3, 3, 29999));
    assert!(!within_interaction(3, 3, 30000));
    assert!(!within_interaction(3, 4, 0));
    assert_eq!(
        initiate_battle(3, 3, 1000),
        Some((GameState::Battle, PlayerState::Idle))
    );
    assert_eq!(initiate_battle(3, 5, 1000), None);
    assert_eq!(
        initiate_pickup(6, 6, 100),
        Some((GameState::Pickup, PlayerState::Idle))
    );
    assert_eq!(initiate_pickup(6, 6, 40000), None);
}

#[test]
fn outcomes_steer_the_game_state() {
    assert_eq!(
        resolve_battle_outcome(RoundOutcome::EnemyDown, false),
        GameState::Running
    );
    assert_eq!(
        resolve_battle_outcome(RoundOutcome::EnemyDown, true),
        GameState::Win
    );
    assert_eq!(
        resolve_battle_outcome(RoundOutcome::PlayerDown, false),
        GameState::GameOver
    );
    assert_eq!(
        resolve_battle_outcome(RoundOutcome::Continue, false),
        GameState::Battle
    );
    assert_eq!(battle_end_check(true, GameState::Battle), GameState::Running);
    assert_eq!(battle_end_check(false, GameState::Battle), GameState::Battle);
    assert_eq!(pickup_end_check(true, GameState::Pickup), GameState::Running);
    assert_eq!(pickup_end_check(false, GameState::Pickup), GameState::Pickup);
}

#[test]
fn seeded_rolls_are_reproducible_and_in_range() {
    let mut a = GameRng::new(123);
    let mut b = GameRng::new(123);
    for _ in 0..100 {
        let n = a.roll_below(7);
        assert!(n < 7);
        assert_eq!(n, b.roll_below(7));
        let p = a.roll_permille();
        assert!(p < 1000);
        assert_eq!(p, b.roll_permille());
    }
}

#[test]
fn entropy_seeding_yields_a_working_generator() {
    let mut rng = GameRng::from_entropy();
    for _ in 0..10 {
        assert!(rng.roll_below(5) < 5);
    }
}
