//! Enemies: static stat blocks referenced by index, the difficulty scaling
//! applied as the player completes cycles, and the battle-ready enemy a
//! spawn produces.

use vstd::prelude::*;

use crate::battle::{Combatant, Health, MAX_STAT};
use crate::chests::ChestIdx;
use crate::items::ItemIdx;
use crate::sectors::SectorIdx;
use crate::spells::SpellIdx;
use crate::timer::TickTimer;

verus! {

/// Index into the global enemy table.
#[derive(Debug, Clone, Copy, PartialEq, Eq, Structural)]
pub struct EnemyIdx(pub usize);

/// Milliseconds between two enemy attacks.
pub const ENEMY_ATTACK_PERIOD_MS: u32 = 1000;

/// Upper bound on table stats so that difficulty scaling stays in range.
pub const MAX_BASE_STAT: u32 = 500000;

/// The static stat block of one enemy kind: its spawn gate, the loot it can
/// drop, and its battle stats.
#[derive(Debug, Clone)]
pub struct EnemyInfo {
    pub spawn_permille: u32,
    pub items: Vec<ItemIdx>,
    pub spells: Vec<SpellIdx>,
    pub sectors: Vec<SectorIdx>,
    pub hp: u32,
    pub damage: u32,
}

impl EnemyInfo {
    /// Probabilities are per-mille and stats leave room for scaling.
    pub open spec fn wf(&self) -> bool {
        &&& self.spawn_permille <= 1000
        &&& self.hp <= MAX_BASE_STAT
        &&& self.damage <= MAX_BASE_STAT
    }
}

/// The global enemy table, indexed by [`EnemyIdx`].
pub struct Enemies {
    infos: Vec<EnemyInfo>,
}

impl Enemies {
    /// The table entries in order.
    pub closed spec fn view(&self) -> Seq<EnemyInfo> {
        self.infos@
    }

    /// Every entry is well formed.
    pub open spec fn wf(&self) -> bool {
        forall|i: int| 0 <= i < self@.len() ==> (#[trigger] self@[i]).wf()
    }

    /// A table from the given entries.
    pub fn new(infos: Vec<EnemyInfo>) -> (r: Enemies)
        ensures
            r@ == infos@,
    {
        Enemies { infos }
    }

    /// How many enemy kinds the table holds.
    pub fn len(&self) -> (r: usize)
        ensures
            r == self@.len(),
    {
        self.infos.len()
    }

    /// The stat block behind `idx`.
    pub fn index(&self, idx: EnemyIdx) -> (r: &EnemyInfo)
        requires
            idx.0 < self@.len(),
        ensures
            *r == self@[idx.0 as int],
    {
        &self.infos[idx.0]
    }
}

/// The difficulty multiplier in thousandths for a given completed-cycle
/// count: 1000 on the first cycle, rising to 1800 on the last.
pub open spec fn spec_hardness_permille(cycles: u8) -> u32 {
    match cycles {
        0u8 => 1000u32,
        1u8 => 1200u32,
        2u8 => 1300u32,
        3u8 => 1400u32,
        4u8 => 1500u32,
        5u8 => 1600u32,
        6u8 => 1700u32,
        7u8 => 1800u32,
        _ => 1000u32,
    }
}

/// The difficulty multiplier for a completed-cycle count.
pub fn hardness_permille(cycles: u8) -> (r: u32)
    ensures
        r == spec_hardness_permille(cycles),
        1000 <= r <= 1800,
{
    match cycles {
        0u8 => 1000,
        1u8 => 1200,
        2u8 => 1300,
        3u8 => 1400,
        4u8 => 1500,
        5u8 => 1600,
        6u8 => 1700,
        7u8 => 1800,
        _ => 1000,
    }
}

/// A stat scaled by a per-mille multiplier, rounded down.
pub open spec fn spec_scale_stat(stat: u32, permille: u32) -> int {
    stat * permille / 1000
}

/// Scales a base stat by a per-mille difficulty multiplier.
pub fn scale_stat(stat: u32, permille: u32) -> (r: u32)
    requires
        stat <= MAX_BASE_STAT,
        permille <= 2000,
    ensures
        r == spec_scale_stat(stat, permille),
        r <= MAX_STAT,
{
    proof {
        assert(stat * permille <= MAX_BASE_STAT * 2000) by (nonlinear_arith)
            requires
                stat <= MAX_BASE_STAT,
                permille <= 2000,
                stat >= 0,
                permille >= 0,
        ;
    }
    ((stat as u64 * permille as u64) / 1000) as u32
}

/// A live enemy: its battle stats after difficulty scaling, which table
/// entry it is, and whether it is the final boss.
#[derive(Debug, Clone, Copy, PartialEq, Eq, Structural)]
pub struct Enemy {
    pub combatant: Combatant,
    pub idx: EnemyIdx,
    pub is_boss: bool,
}

/// The enemy that spawning `idx` at the given difficulty produces, exactly
/// as [`spawn_enemy`] builds it.
pub open spec fn spec_spawn_enemy(
    info: EnemyInfo,
    idx: EnemyIdx,
    hardness_pm: u32,
    is_boss: bool,
) -> Enemy {
    Enemy {
        combatant: Combatant {
            health: Health {
                current: spec_scale_stat(info.hp, hardness_pm) as u32,
                max: spec_scale_stat(info.hp, hardness_pm) as u32,
            },
            damage: spec_scale_stat(info.damage, hardness_pm) as u32,
            defense_pm: 0,
            attack: TickTimer {
                duration_ms: ENEMY_ATTACK_PERIOD_MS,
                elapsed_ms: 0,
                repeating: true,
                paused: false,
                finished: false,
            },
        },
        idx,
        is_boss,
    }
}

/// Builds the live enemy for table entry `idx`: hit points and damage are
/// scaled by the difficulty of the current cycle, defense starts at zero,
/// and the attack timer starts a fresh one-second cadence.
pub fn spawn_enemy(enemies: &Enemies, idx: EnemyIdx, cycles: u8, is_boss: bool) -> (r: Enemy)
    requires
        enemies.wf(),
        idx.0 < enemies@.len(),
    ensures
        r == spec_spawn_enemy(
            enemies@[idx.0 as int],
            idx,
            spec_hardness_permille(cycles),
            is_boss,
        ),
        r.combatant.wf(),
    {
    let info = enemies.index(idx);
    let hardness = hardness_permille(cycles);
    let hp = scale_stat(info.hp, hardness);
    let damage = scale_stat(info.damage, hardness);
    Enemy {
        combatant: Combatant {
            health: Health::new(hp),
            damage,
            defense_pm: 0,
            attack: TickTimer::new(ENEMY_ATTACK_PERIOD_MS, true),
        },
        idx,
        is_boss,
    }
}

/// The stock enemy table: the big boss followed by the green, grey and
/// orange office mobs, with their loot lists.
pub fn default_enemies() -> (r: Enemies)
    ensures
        r@.len() == 5,
        r.wf(),
        r@[0].hp == 700 && r@[0].damage == 20,
        r@[1].hp == 50 && r@[1].damage == 3,
        r@[2].hp == 75 && r@[2].damage == 5,
        r@[3].hp == 120 && r@[3].damage == 8,
        r@[4].hp == 140 && r@[4].damage == 10,
        forall|i: int| 0 <= i < 5 ==> (#[trigger] r@[i]).spawn_permille == 300,
        r@[0].items@ == seq![ItemIdx(0), ItemIdx(1), ItemIdx(2)],
        r@[0].spells@ == seq![SpellIdx(0), SpellIdx(1), SpellIdx(2), SpellIdx(3), SpellIdx(4)],
        r@[0].sectors@ == seq![SectorIdx(0)],
        r@[1].items@ == seq![ItemIdx(2), ItemIdx(5)],
        r@[1].spells@ == seq![SpellIdx(0), SpellIdx(3)],
        r@[1].sectors@ == seq![SectorIdx(1), SectorIdx(2)],
        r@[2].items@ == seq![ItemIdx(0), ItemIdx(2), ItemIdx(5)],
        r@[2].spells@ == seq![SpellIdx(0), SpellIdx(1)],
        r@[2].sectors@ == seq![SectorIdx(3), SectorIdx(4)],
        r@[3].items@ == seq![ItemIdx(1), ItemIdx(3), ItemIdx(5)],
        r@[3].spells@ == Seq::<SpellIdx>::empty(),
        r@[3].sectors@ == seq![SectorIdx(2), SectorIdx(3)],
        r@[4].items@ == seq![ItemIdx(2), ItemIdx(4)],
        r@[4].spells@ == seq![SpellIdx(2)],
        r@[4].sectors@ == seq![SectorIdx(4)],
{
    let mut infos: Vec<EnemyInfo> = Vec::new();
    let boss_items = vec![ItemIdx(0), ItemIdx(1), ItemIdx(2)];
    let boss_spells = vec![SpellIdx(0), SpellIdx(1), SpellIdx(2), SpellIdx(3), SpellIdx(4)];
    let boss_sectors = vec![SectorIdx(0)];
    infos.push(
        EnemyInfo {
            spawn_permille: 300,
            items: boss_items,
            spells: boss_spells,
            sectors: boss_sectors,
            hp: 700,
            damage: 20,
        },
    );
    infos.push(
        EnemyInfo {
            spawn_permille: 300,
            items: vec![ItemIdx(2), ItemIdx(5)],
            spells: vec![SpellIdx(0), SpellIdx(3)],
            sectors: vec![SectorIdx(1), SectorIdx(2)],
            hp: 50,
            damage: 3,
        },
    );
    infos.push(
        EnemyInfo {
            spawn_permille: 300,
            items: vec![ItemIdx(0), ItemIdx(2), ItemIdx(5)],
            spells: vec![SpellIdx(0), SpellIdx(1)],
            sectors: vec![SectorIdx(3), SectorIdx(4)],
            hp: 75,
            damage: 5,
        },
    );
    infos.push(
        EnemyInfo {
            spawn_permille: 300,
            items: vec![ItemIdx(1), ItemIdx(3), ItemIdx(5)],
            spells: Vec::new(),
            sectors: vec![SectorIdx(2), SectorIdx(3)],
            hp: 120,
            damage: 8,
        },
    );
    infos.push(
        EnemyInfo {
            spawn_permille: 300,
            items: vec![ItemIdx(2), ItemIdx(4)],
            spells: vec![SpellIdx(2)],
            sectors: vec![SectorIdx(4)],
            hp: 140,
            damage: 10,
        },
    );
    Enemies::new(infos)
}

} // verus!
