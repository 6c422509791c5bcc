use clock_crawler::chests::{default_chests, ChestInfo};
use clock_crawler::drops::{apply_loot, loot_for_kills, on_chest_open_finish, LootDrop};
use clock_crawler::enemy::{default_enemies, EnemyIdx};
use clock_crawler::inventory::Inventory;
use clock_crawler::items::default_items;
use clock_crawler::rng::GameRng;
use clock_crawler::sectors::{
    advance_position, default_sectors, next_section_position, on_last_cycle_event,
    position_to_sector_position, random_sector_timer, sector_tick, PlayerProgress, SectorIdx,
    SectorSlots, SectorState, SlotType, SpawnedThing,
};
use clock_crawler::spells::default_spells;
use clock_crawler::timer::TickTimer;

#[test]
fn position_maps_to_eighths_of_the_turn() {
    assert_eq!(position_to_sector_position(0), 0);
    assert_eq!(position_to_sector_position(124), 0);
    assert_eq!(position_to_sector_position(125), 1);
    assert_eq!(position_to_sector_position(500), 4);
    assert_eq!(position_to_sector_position(999), 7);
}

#[test]
fn next_sector_wraps_the_ring() {
    assert_eq!(next_section_position(0), 1);
    assert_eq!(next_section_position(6), 7);
    assert_eq!(next_section_position(7), 0);
}

#[test]
fn advance_position_wraps_the_turn() {
    assert_eq!(advance_position(0, 80, 1000), 80);
    assert_eq!(advance_position(900, 100, 2000), 100);
    assert_eq!(advance_position(999, 0, 5000), 999);
}

#[test]
fn progress_counts_cycles_and_flags_the_last() {
    let mut p = PlayerProgress::new();
    assert!(!p.update(1));
    assert_eq!(p.cycles, 0);
    assert!(!p.update(0));
    assert_eq!(p.cycles, 1);
    for lap in 2..8 {
        assert!(!p.update(1));
        let last = p.update(0);
        assert_eq!(p.cycles, lap);
        assert_eq!(last, lap == 8);
    }
    assert!(!p.update(1));
    assert!(p.update(0));
    assert_eq!(p.cycles, 8);
}

#[test]
fn staying_in_a_sector_adds_no_cycle() {
    let mut p = PlayerProgress::new();
    assert!(!p.update(0));
    assert!(!p.update(0));
    assert_eq!(p.cycles, 0);
}

#[test]
fn slots_hold_one_occupant_each() {
    let mut slots = SectorSlots::new();
    assert_eq!(slots.first_empty(), Some(0));
    slots.occupy(0, SlotType::Enemy);
    assert_eq!(slots.get(0), Some(SlotType::Enemy));
    assert_eq!(slots.first_empty(), Some(1));
    slots.occupy(1, SlotType::Item);
    slots.free(0);
    assert_eq!(slots.get(0), None);
    assert_eq!(slots.get(1), Some(SlotType::Item));
    assert_eq!(slots.first_empty(), Some(0));
}

#[test]
fn full_slots_have_no_free_position() {
    let mut slots = SectorSlots::new();
    for i in 0..4 {
        slots.occupy(i, SlotType::Enemy);
    }
    assert_eq!(slots.first_empty(), None);
}

#[test]
fn sector_timer_jitters_between_one_and_two_seconds() {
    let mut rng = GameRng::new(11);
    for _ in 0..20 {
        let t = random_sector_timer(&mut rng);
        assert!(t.duration_ms >= 1000 && t.duration_ms < 2000);
        assert!(t.repeating);
    }
}

fn fresh_sector(position: u8) -> SectorState {
    SectorState {
        sector_idx: SectorIdx(0),
        position,
        timer: TickTimer::new(1000, true),
        slots: SectorSlots::new(),
    }
}

#[test]
fn no_spawn_near_the_player() {
    let sectors = default_sectors();
    let enemies = default_enemies();
    let chests = default_chests();
    let mut rng = GameRng::new(5);
    // The player stands in the sector itself.
    let mut state = fresh_sector(2);
    assert_eq!(
        sector_tick(&mut state, &sectors, &enemies, &chests, 2, &mut rng, 5000),
        None
    );
    // The player stands one sector behind.
    let mut state = fresh_sector(3);
    assert_eq!(
        sector_tick(&mut state, &sectors, &enemies, &chests, 2, &mut rng, 5000),
        None
    );
}

#[test]
fn no_spawn_before_the_timer_completes() {
    let sectors = default_sectors();
    let enemies = default_enemies();
    let chests = default_chests();
    let mut rng = GameRng::new(5);
    let mut state = fresh_sector(4);
    assert_eq!(
        sector_tick(&mut state, &sectors, &enemies, &chests, 0, &mut rng, 300),
        None
    );
    for i in 0..4 {
        assert_eq!(state.slots.get(i), None);
    }
}

#[test]
fn no_spawn_into_full_slots() {
    let sectors = default_sectors();
    let enemies = default_enemies();
    let chests = default_chests();
    let mut rng = GameRng::new(5);
    let mut state = fresh_sector(4);
    for i in 0..4 {
        state.slots.occupy(i, SlotType::Item);
    }
    assert_eq!(
        sector_tick(&mut state, &sectors, &enemies, &chests, 0, &mut rng, 5000),
        None
    );
}

#[test]
fn spawn_fills_the_first_empty_slot() {
    let sectors = default_sectors();
    let enemies = default_enemies();
    let chests = default_chests();
    // Try a run of seeds; with spawn gates around 25-30% some must spawn.
    let mut spawned: u32 = 0;
    for seed in 0..40u64 {
        let mut rng = GameRng::new(seed);
        let mut state = fresh_sector(4);
        match sector_tick(&mut state, &sectors, &enemies, &chests, 0, &mut rng, 1500) {
            Some((pos, SpawnedThing::Enemy(idx))) => {
                spawned += 1;
                assert_eq!(pos, 0);
                assert_eq!(state.slots.get(0), Some(SlotType::Enemy));
                assert_eq!(idx, EnemyIdx(1)); // the only enemy of theme 0
            }
            Some((pos, SpawnedThing::Chest(idx))) => {
                spawned += 1;
                assert_eq!(pos, 0);
                assert_eq!(state.slots.get(0), Some(SlotType::Item));
                assert_eq!(idx, clock_crawler::chests::ChestIdx(0));
            }
            None => {
                for i in 0..4 {
                    assert_eq!(state.slots.get(i), None);
                }
            }
        }
    }
    assert!(spawned > 0);
}

#[test]
fn sector_tick_is_reproducible() {
    let sectors = default_sectors();
    let enemies = default_enemies();
    let chests = default_chests();
    for seed in 0..10u64 {
        let mut rng_a = GameRng::new(seed);
        let mut state_a = fresh_sector(4);
        let r_a = sector_tick(&mut state_a, &sectors, &enemies, &chests, 0, &mut rng_a, 1500);
        let mut rng_b = GameRng::new(seed);
        let mut state_b = fresh_sector(4);
        let r_b = sector_tick(&mut state_b, &sectors, &enemies, &chests, 0, &mut rng_b, 1500);
        assert_eq!(r_a, r_b);
    }
}

#[test]
fn last_cycle_clears_enemies_and_spawns_the_boss() {
    let enemies = default_enemies();
    let mut state = fresh_sector(7);
    state.slots.occupy(0, SlotType::Enemy);
    state.slots.occupy(1, SlotType::Item);
    state.slots.occupy(2, SlotType::Enemy);
    let boss = on_last_cycle_event(&mut state, &enemies);
    assert_eq!(state.slots.get(0), None);
    assert_eq!(state.slots.get(1), Some(SlotType::Item));
    assert_eq!(state.slots.get(2), None);
    assert!(state.timer.paused);
    assert!(boss.is_boss);
    assert_eq!(boss.idx, EnemyIdx(0));
    assert_eq!(boss.combatant.health.current(), 700);
    assert_eq!(boss.combatant.damage, 20);
}

#[test]
fn same_seed_same_kills_same_loot() {
    let enemies = default_enemies();
    let items = default_items();
    let spells = default_spells();
    let sectors = default_sectors();
    let kills = vec![EnemyIdx(1), EnemyIdx(2), EnemyIdx(3), EnemyIdx(4), EnemyIdx(1)];
    let mut inv_a = Inventory::new();
    let loot_a = loot_for_kills(42, &kills, &enemies, &items, &spells, &sectors, &mut inv_a);
    let mut inv_b = Inventory::new();
    let loot_b = loot_for_kills(42, &kills, &enemies, &items, &spells, &sectors, &mut inv_b);
    assert_eq!(loot_a, loot_b);
    assert_eq!(inv_a.backpack_items.iter(), inv_b.backpack_items.iter());
    assert_eq!(inv_a.backpack_spells.iter(), inv_b.backpack_spells.iter());
    assert_eq!(inv_a.backpack_sectors.iter(), inv_b.backpack_sectors.iter());
}

#[test]
fn chest_with_empty_lists_drops_nothing() {
    let items = default_items();
    let spells = default_spells();
    let sectors = default_sectors();
    let chest = ChestInfo {
        spawn_permille: 0,
        items: vec![],
        spells: vec![],
        sectors: vec![],
    };
    let mut inv = Inventory::new();
    let mut rng = GameRng::new(1);
    let loot = on_chest_open_finish(&chest, &items, &spells, &sectors, &mut inv, &mut rng);
    assert_eq!(
        loot,
        LootDrop { item: None, spell: None, sector: None }
    );
    assert_eq!(inv.backpack_items.iter(), vec![None, None, None, None]);
    assert_eq!(inv.backpack_spells.iter(), vec![None, None, None, None]);
    assert_eq!(inv.backpack_sectors.iter(), vec![None, None, None, None]);
}

#[test]
fn chest_loot_lands_in_the_backpacks() {
    // A run of seeds against the stock grey-walls chest: every drop that
    // happens goes on top of its backpack.
    let items = default_items();
    let spells = default_spells();
    let sectors = default_sectors();
    let mut saw_item = false;
    for seed in 0..60u64 {
        let mut inv = Inventory::new();
        let mut rng = GameRng::new(seed);
        let chest = clock_crawler::chests::ChestInfo {
            spawn_permille: 250,
            items: vec![clock_crawler::items::ItemIdx(1), clock_crawler::items::ItemIdx(5)],
            spells: vec![clock_crawler::spells::SpellIdx(5)],
            sectors: vec![SectorIdx(1), SectorIdx(2)],
        };
        let loot = on_chest_open_finish(&chest, &items, &spells, &sectors, &mut inv, &mut rng);
        assert_eq!(inv.backpack_items.index(0), loot.item);
        assert_eq!(inv.backpack_spells.index(0), loot.spell);
        assert_eq!(inv.backpack_sectors.index(0), loot.sector);
        if loot.item.is_some() {
            saw_item = true;
        }
    }
    assert!(saw_item);
}

#[test]
fn place_sector_retints_the_ring() {
    let mut inv = Inventory::new();
    apply_loot(
        &mut inv,
        &LootDrop { item: None, spell: None, sector: Some(SectorIdx(2)) },
    );
    let mut state = fresh_sector(3);
    let placed = clock_crawler::inventory::place_sector(&mut state, &mut inv, 0, 5);
    assert!(placed);
    assert_eq!(state.sector_idx, SectorIdx(2));
    assert_eq!(inv.backpack_sectors.iter(), vec![None, None, None, None]);
    // An empty slot places nothing.
    let placed = clock_crawler::inventory::place_sector(&mut state, &mut inv, 0, 5);
    assert!(!placed);
    assert_eq!(state.sector_idx, SectorIdx(2));
}
