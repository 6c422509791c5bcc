use clock_crawler::battle::{
    battle_round, clamp_defense, enemy_take_damage, final_damage, Health, RoundOutcome,
};
use clock_crawler::enemy::{spawn_enemy, default_enemies, EnemyIdx};
use clock_crawler::game::new_player;
use clock_crawler::items::{default_items, ItemIdx};
use clock_crawler::rng::GameRng;
use clock_crawler::spells::{default_spells, SpellCast, SpellIdx};
use clock_crawler::stack::Stack;

#[test]
fn final_damage_applies_defense_share() {
    assert_eq!(final_damage(100, 200), 80);
    assert_eq!(final_damage(7, 500), 3);
    assert_eq!(final_damage(10, 0), 10);
}

#[test]
fn final_damage_clamps_defense() {
    assert_eq!(final_damage(10, -500), 10);
    assert_eq!(final_damage(10, 1500), 0);
    assert_eq!(clamp_defense(-7), 0);
    assert_eq!(clamp_defense(1200), 1000);
    assert_eq!(clamp_defense(450), 450);
}

#[test]
fn health_floors_at_zero_and_caps_at_max() {
    let mut h = Health::new(100);
    h.take_damage(30);
    assert_eq!(h.current(), 70);
    h.take_damage(500);
    assert_eq!(h.current(), 0);
    h.heal(40);
    assert_eq!(h.current(), 40);
    h.heal(1000);
    assert_eq!(h.current(), 100);
}

#[test]
fn health_percent_in_permille() {
    let mut h = Health::new(200);
    h.take_damage(150);
    assert_eq!(h.percent(), 250);
}

#[test]
fn battle_round_exchanges_hits() {
    let mut player = new_player();
    let enemies = default_enemies();
    let items = default_items();
    let no_items: Stack<ItemIdx> = Stack::new(4);
    let mut enemy = spawn_enemy(&enemies, EnemyIdx(1), 0, false).combatant;
    assert_eq!(enemy.health.current(), 50);

    // Half a second: the player's timer completes, the enemy's does not.
    let r = battle_round(&mut player, &mut enemy, &no_items, &items, 500);
    assert_eq!(r, RoundOutcome::Continue);
    assert_eq!(enemy.health.current(), 45);
    assert_eq!(player.health.current(), 100);

    // Another half second: both timers complete.
    let r = battle_round(&mut player, &mut enemy, &no_items, &items, 500);
    assert_eq!(r, RoundOutcome::Continue);
    assert_eq!(enemy.health.current(), 40);
    assert_eq!(player.health.current(), 97);
}

#[test]
fn battle_round_counts_equipped_damage() {
    let mut player = new_player();
    let enemies = default_enemies();
    let items = default_items();
    let mut equipped: Stack<ItemIdx> = Stack::new(4);
    equipped.push(ItemIdx(3)); // scissors: +11 damage
    let mut enemy = spawn_enemy(&enemies, EnemyIdx(1), 0, false).combatant;
    let r = battle_round(&mut player, &mut enemy, &equipped, &items, 500);
    assert_eq!(r, RoundOutcome::Continue);
    assert_eq!(enemy.health.current(), 50 - (5 + 11));
}

#[test]
fn battle_round_reports_enemy_down() {
    let mut player = new_player();
    let enemies = default_enemies();
    let items = default_items();
    let no_items: Stack<ItemIdx> = Stack::new(4);
    let mut enemy = spawn_enemy(&enemies, EnemyIdx(1), 0, false).combatant;
    enemy.health.take_damage(46); // 4 hit points left
    let r = battle_round(&mut player, &mut enemy, &no_items, &items, 500);
    assert_eq!(r, RoundOutcome::EnemyDown);
    assert_eq!(enemy.health.current(), 0);
}

#[test]
fn hardness_scales_enemy_stats() {
    let enemies = default_enemies();
    let scaled = spawn_enemy(&enemies, EnemyIdx(1), 1, false).combatant;
    assert_eq!(scaled.health.current(), 60); // 50 * 1.2
    assert_eq!(scaled.damage, 3); // 3 * 1.2 rounded down
    let boss = spawn_enemy(&enemies, EnemyIdx(0), 7, true).combatant;
    assert_eq!(boss.health.current(), 1260); // 700 * 1.8
    assert_eq!(boss.damage, 36); // 20 * 1.8
}

#[test]
fn cast_spell_respects_cooldown() {
    let mut spells = default_spells();
    assert_eq!(spells.cast_spell(SpellIdx(1)), None);
    spells.cooldown_spells(5000);
    let cast = spells.cast_spell(SpellIdx(1));
    match cast {
        Some(SpellCast::Damage(effect)) => {
            assert_eq!(effect.remaining_strikes, 1);
            assert_eq!(effect.damage, 10);
            assert_eq!(effect.chance_pm, 1000);
        }
        other => panic!("unexpected cast: {:?}", other),
    }
    // The cooldown restarted with the cast.
    assert_eq!(spells.cast_spell(SpellIdx(1)), None);
}

#[test]
fn damage_spell_strikes_and_expires() {
    let mut spells = default_spells();
    spells.cooldown_spells(5000);
    let mut effect = match spells.cast_spell(SpellIdx(1)) {
        Some(SpellCast::Damage(e)) => e,
        other => panic!("unexpected cast: {:?}", other),
    };
    let mut rng = GameRng::new(9);
    let (strike, done) =
        clock_crawler::spells::process_damage_spell(&mut effect, &mut rng, 0);
    assert_eq!(strike, Some(10)); // chance is certain
    assert!(done);
}

#[test]
fn damage_spell_with_zero_chance_never_lands() {
    let mut effect = clock_crawler::spells::DamageSpell {
        timer: clock_crawler::timer::TickTimer::new(0, true),
        remaining_strikes: 2,
        damage: 5,
        chance_pm: 0,
    };
    let mut rng = GameRng::new(3);
    let (strike, done) =
        clock_crawler::spells::process_damage_spell(&mut effect, &mut rng, 0);
    assert_eq!(strike, None);
    assert!(!done);
    assert_eq!(effect.remaining_strikes, 1);
}

#[test]
fn heal_spell_restores_player() {
    let mut h = Health::new(100);
    h.take_damage(50);
    let effect = clock_crawler::spells::HealSpell { heal: 10 };
    clock_crawler::spells::process_heal_spell(&effect, &mut h);
    assert_eq!(h.current(), 60);
}

#[test]
fn attack_up_applies_then_reverts() {
    let mut spells = default_spells();
    spells.cooldown_spells(8000);
    let mut effect = match spells.cast_spell(SpellIdx(4)) {
        Some(SpellCast::PlayerAttackUp(e)) => e,
        other => panic!("unexpected cast: {:?}", other),
    };
    let mut damage: u32 = 5;
    let done = clock_crawler::spells::process_player_attack_up_spell(&mut effect, &mut damage, 0);
    assert!(!done);
    assert_eq!(damage, 15);
    let done =
        clock_crawler::spells::process_player_attack_up_spell(&mut effect, &mut damage, 2000);
    assert!(done);
    assert_eq!(damage, 5);
}

#[test]
fn defense_up_applies_then_reverts() {
    let mut spells = default_spells();
    spells.cooldown_spells(8000);
    let mut effect = match spells.cast_spell(SpellIdx(5)) {
        Some(SpellCast::PlayerDefenseUp(e)) => e,
        other => panic!("unexpected cast: {:?}", other),
    };
    let mut defense: i32 = 0;
    let done =
        clock_crawler::spells::process_player_defence_up_spell(&mut effect, &mut defense, 0);
    assert!(!done);
    assert_eq!(defense, 100);
    let done =
        clock_crawler::spells::process_player_defence_up_spell(&mut effect, &mut defense, 2000);
    assert!(done);
    assert_eq!(defense, 0);
}

#[test]
fn enemy_defense_down_lowers_then_reverts() {
    let mut spells = default_spells();
    spells.cooldown_spells(5000);
    let mut effect = match spells.cast_spell(SpellIdx(6)) {
        Some(SpellCast::EnemyDefenseDown(e)) => e,
        other => panic!("unexpected cast: {:?}", other),
    };
    let mut defense: i32 = 0;
    let done =
        clock_crawler::spells::process_enemy_denfense_down_spell(&mut effect, &mut defense, 0);
    assert!(!done);
    assert_eq!(defense, -100);
    // A strike against negative defense still lands in full.
    let enemies = default_enemies();
    let mut enemy = spawn_enemy(&enemies, EnemyIdx(1), 0, false).combatant;
    enemy.defense_pm = defense;
    enemy_take_damage(&mut enemy, 10);
    assert_eq!(enemy.health.current(), 40);
    let done =
        clock_crawler::spells::process_enemy_denfense_down_spell(&mut effect, &mut defense, 2000);
    assert!(done);
    assert_eq!(defense, 0);
}
