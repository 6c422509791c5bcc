//! Drop-table sampling. A kill or an opened chest rolls once per loot
//! category — item, spell, sector card — independently: pick one entry of
//! the category's list uniformly, then gate it by that entry's drop
//! probability. Every roll comes from the deterministic generator, so a
//! fixed seed fixes the whole loot sequence.

use vstd::prelude::*;

use crate::chests::ChestInfo;
use crate::enemy::{Enemies, EnemyIdx, EnemyInfo};
use crate::inventory::Inventory;
use crate::items::{ItemIdx, ItemInfo, Items};
use crate::rng::{rng_step, roll_below_output, GameRng};
use crate::sectors::{SectorIdx, SectorInfo, Sectors, MAX_TABLE};
use crate::spells::{SpellIdx, SpellInfo, Spells};
use crate::stack::pushed_slots;

verus! {

/// What one kill or chest opening dropped: at most one entry per category.
#[derive(Debug, Clone, Copy, PartialEq, Eq, Structural)]
pub struct LootDrop {
    pub item: Option<ItemIdx>,
    pub spell: Option<SpellIdx>,
    pub sector: Option<SectorIdx>,
}

/// A loot list fits the table it points into.
pub open spec fn item_list_wf(list: Seq<ItemIdx>, items_len: nat) -> bool {
    &&& list.len() <= MAX_TABLE
    &&& forall|i: int| 0 <= i < list.len() ==> (#[trigger] list[i]).0 < items_len
}

/// A spell loot list fits the spell table.
pub open spec fn spell_list_wf(list: Seq<SpellIdx>, spells_len: nat) -> bool {
    &&& list.len() <= MAX_TABLE
    &&& forall|i: int| 0 <= i < list.len() ==> (#[trigger] list[i]).0 < spells_len
}

/// A sector loot list fits the sector table.
pub open spec fn sector_list_wf(list: Seq<SectorIdx>, sectors_len: nat) -> bool {
    &&& list.len() <= MAX_TABLE
    &&& forall|i: int| 0 <= i < list.len() ==> (#[trigger] list[i]).0 < sectors_len
}

/// The loot lists of an enemy fit the three tables they point into.
pub open spec fn enemy_loot_wf(
    info: EnemyInfo,
    items_len: nat,
    spells_len: nat,
    sectors_len: nat,
) -> bool {
    &&& item_list_wf(info.items@, items_len)
    &&& spell_list_wf(info.spells@, spells_len)
    &&& sector_list_wf(info.sectors@, sectors_len)
}

/// The loot lists of a chest fit the three tables they point into.
pub open spec fn chest_loot_wf(
    info: ChestInfo,
    items_len: nat,
    spells_len: nat,
    sectors_len: nat,
) -> bool {
    &&& item_list_wf(info.items@, items_len)
    &&& spell_list_wf(info.spells@, spells_len)
    &&& sector_list_wf(info.sectors@, sectors_len)
}

/// The item roll: pick one list entry uniformly, then gate it by its drop
/// probability. Two rolls are consumed; an empty list consumes none.
#[verifier::opaque]
pub open spec fn spec_item_roll(list: Seq<ItemIdx>, items: Seq<ItemInfo>, r0: u64) -> (
    Option<ItemIdx>,
    u64,
) {
    if list.len() == 0 {
        (None::<ItemIdx>, r0)
    } else {
        let idx = list[roll_below_output(r0, list.len() as u32) as int];
        let r1 = rng_step(r0);
        let gate = roll_below_output(r1, 1000);
        (
            if gate < items[idx.0 as int].drop_permille {
                Some(idx)
            } else {
                None::<ItemIdx>
            },
            rng_step(r1),
        )
    }
}

/// The spell roll, shaped like the item roll.
#[verifier::opaque]
pub open spec fn spec_spell_roll(list: Seq<SpellIdx>, spells: Seq<SpellInfo>, r0: u64) -> (
    Option<SpellIdx>,
    u64,
) {
    if list.len() == 0 {
        (None::<SpellIdx>, r0)
    } else {
        let idx = list[roll_below_output(r0, list.len() as u32) as int];
        let r1 = rng_step(r0);
        let gate = roll_below_output(r1, 1000);
        (
            if gate < spells[idx.0 as int].drop_permille {
                Some(idx)
            } else {
                None::<SpellIdx>
            },
            rng_step(r1),
        )
    }
}

/// The sector-card roll, gated by the listed sector's drop probability.
#[verifier::opaque]
pub open spec fn spec_sector_roll(list: Seq<SectorIdx>, sectors: Seq<SectorInfo>, r0: u64) -> (
    Option<SectorIdx>,
    u64,
) {
    if list.len() == 0 {
        (None::<SectorIdx>, r0)
    } else {
        let idx = list[roll_below_output(r0, list.len() as u32) as int];
        let r1 = rng_step(r0);
        let gate = roll_below_output(r1, 1000);
        (
            if gate < sectors[idx.0 as int].drop_permille {
                Some(idx)
            } else {
                None::<SectorIdx>
            },
            rng_step(r1),
        )
    }
}

/// The three independent category rolls of one loot event, in item, spell,
/// sector order, and the generator state after them.
pub open spec fn spec_loot_rolls(
    item_list: Seq<ItemIdx>,
    spell_list: Seq<SpellIdx>,
    sector_list: Seq<SectorIdx>,
    items: Seq<ItemInfo>,
    spells: Seq<SpellInfo>,
    sectors: Seq<SectorInfo>,
    r0: u64,
) -> (LootDrop, u64) {
    let (item, r1) = spec_item_roll(item_list, items, r0);
    let (spell, r2) = spec_spell_roll(spell_list, spells, r1);
    let (sector, r3) = spec_sector_roll(sector_list, sectors, r2);
    (LootDrop { item, spell, sector }, r3)
}

/// Rolls the item category for one loot event.
fn roll_item(list: &Vec<ItemIdx>, items: &Items, rng: &mut GameRng) -> (r: Option<ItemIdx>)
    requires
        item_list_wf(list@, items@.len()),
    ensures
        ({
            let (pick, r1) = spec_item_roll(list@, items@, old(rng)@);
            r == pick && final(rng)@ == r1
        }),
{
    proof {
        reveal(spec_item_roll);
    }
    if list.len() == 0 {
        return None;
    }
    let pick = rng.roll_below(list.len() as u32) as usize;
    let idx = list[pick];
    let gate = rng.roll_permille();
    if gate < items.index(idx).drop_permille {
        Some(idx)
    } else {
        None
    }
}

/// Rolls the spell category for one loot event.
fn roll_spell(list: &Vec<SpellIdx>, spells: &Spells, rng: &mut GameRng) -> (r: Option<SpellIdx>)
    requires
        spell_list_wf(list@, spells@.len()),
    ensures
        ({
            let (pick, r1) = spec_spell_roll(list@, spells@, old(rng)@);
            r == pick && final(rng)@ == r1
        }),
{
    proof {
        reveal(spec_spell_roll);
    }
    if list.len() == 0 {
        return None;
    }
    let pick = rng.roll_below(list.len() as u32) as usize;
    let idx = list[pick];
    let gate = rng.roll_permille();
    if gate < spells.index(idx).drop_permille {
        Some(idx)
    } else {
        None
    }
}

/// Rolls the sector-card category for one loot event.
fn roll_sector(list: &Vec<SectorIdx>, sectors: &Sectors, rng: &mut GameRng) -> (r: Option<
    SectorIdx,
>)
    requires
        sector_list_wf(list@, sectors@.len()),
    ensures
        ({
            let (pick, r1) = spec_sector_roll(list@, sectors@, old(rng)@);
            r == pick && final(rng)@ == r1
        }),
{
    proof {
        reveal(spec_sector_roll);
    }
    if list.len() == 0 {
        return None;
    }
    let pick = rng.roll_below(list.len() as u32) as usize;
    let idx = list[pick];
    let gate = rng.roll_permille();
    if gate < sectors.index(idx).drop_permille {
        Some(idx)
    } else {
        None
    }
}

/// Pushes each dropped entry into its backpack compartment, most recent on
/// top; categories that dropped nothing leave their compartment untouched.
pub fn apply_loot(inventory: &mut Inventory, loot: &LootDrop)
    requires
        old(inventory).wf(),
    ensures
        final(inventory).wf(),
        final(inventory).active_items == old(inventory).active_items,
        final(inventory).active_spells == old(inventory).active_spells,
        final(inventory).backpack_items@ == match loot.item {
            Some(idx) => pushed_slots(old(inventory).backpack_items@, idx),
            None => old(inventory).backpack_items@,
        },
        final(inventory).backpack_spells@ == match loot.spell {
            Some(idx) => pushed_slots(old(inventory).backpack_spells@, idx),
            None => old(inventory).backpack_spells@,
        },
        final(inventory).backpack_sectors@ == match loot.sector {
            Some(idx) => pushed_slots(old(inventory).backpack_sectors@, idx),
            None => old(inventory).backpack_sectors@,
        },
{
    if let Some(idx) = loot.item {
        inventory.backpack_items.push(idx);
    }
    if let Some(idx) = loot.spell {
        inventory.backpack_spells.push(idx);
    }
    if let Some(idx) = loot.sector {
        inventory.backpack_sectors.push(idx);
    }
}

/// A defeated enemy's loot event: rolls the dead enemy's three loot lists
/// and pushes whatever dropped into the backpacks.
pub fn on_dead_finish(
    enemy_idx: EnemyIdx,
    enemies: &Enemies,
    items: &Items,
    spells: &Spells,
    sectors: &Sectors,
    inventory: &mut Inventory,
    rng: &mut GameRng,
) -> (r: LootDrop)
    requires
        old(inventory).wf(),
        enemy_idx.0 < enemies@.len(),
        enemy_loot_wf(
            enemies@[enemy_idx.0 as int],
            items@.len(),
            spells@.len(),
            sectors@.len(),
        ),
    ensures
        final(inventory).wf(),
        ({
            let info = enemies@[enemy_idx.0 as int];
            let (loot, r1) = spec_loot_rolls(
                info.items@,
                info.spells@,
                info.sectors@,
                items@,
                spells@,
                sectors@,
                old(rng)@,
            );
            &&& r == loot
            &&& final(rng)@ == r1
            &&& final(inventory).backpack_items@ == match loot.item {
                Some(idx) => pushed_slots(old(inventory).backpack_items@, idx),
                None => old(inventory).backpack_items@,
            }
            &&& final(inventory).backpack_spells@ == match loot.spell {
                Some(idx) => pushed_slots(old(inventory).backpack_spells@, idx),
                None => old(inventory).backpack_spells@,
            }
            &&& final(inventory).backpack_sectors@ == match loot.sector {
                Some(idx) => pushed_slots(old(inventory).backpack_sectors@, idx),
                None => old(inventory).backpack_sectors@,
            }
            &&& final(inventory).active_items == old(inventory).active_items
            &&& final(inventory).active_spells == old(inventory).active_spells
        }),
{
    let info = enemies.index(enemy_idx);
    let item = roll_item(&info.items, items, rng);
    let spell = roll_spell(&info.spells, spells, rng);
    let sector = roll_sector(&info.sectors, sectors, rng);
    let loot = LootDrop { item, spell, sector };
    apply_loot(inventory, &loot);
    loot
}

/// An opened chest's loot event: rolls the chest's three loot lists and
/// pushes whatever dropped into the backpacks.
pub fn on_chest_open_finish(
    chest: &ChestInfo,
    items: &Items,
    spells: &Spells,
    sectors: &Sectors,
    inventory: &mut Inventory,
    rng: &mut GameRng,
) -> (r: LootDrop)
    requires
        old(inventory).wf(),
        chest_loot_wf(*chest, items@.len(), spells@.len(), sectors@.len()),
    ensures
        final(inventory).wf(),
        ({
            let (loot, r1) = spec_loot_rolls(
                chest.items@,
                chest.spells@,
                chest.sectors@,
                items@,
                spells@,
                sectors@,
                old(rng)@,
            );
            &&& r == loot
            &&& final(rng)@ == r1
            &&& final(inventory).backpack_items@ == match loot.item {
                Some(idx) => pushed_slots(old(inventory).backpack_items@, idx),
                None => old(inventory).backpack_items@,
            }
            &&& final(inventory).backpack_spells@ == match loot.spell {
                Some(idx) => pushed_slots(old(inventory).backpack_spells@, idx),
                None => old(inventory).backpack_spells@,
            }
            &&& final(inventory).backpack_sectors@ == match loot.sector {
                Some(idx) => pushed_slots(old(inventory).backpack_sectors@, idx),
                None => old(inventory).backpack_sectors@,
            }
            &&& final(inventory).active_items == old(inventory).active_items
            &&& final(inventory).active_spells == old(inventory).active_spells
        }),
{
    let item = roll_item(&chest.items, items, rng);
    let spell = roll_spell(&chest.spells, spells, rng);
    let sector = roll_sector(&chest.sectors, sectors, rng);
    let loot = LootDrop { item, spell, sector };
    apply_loot(inventory, &loot);
    loot
}

/// The loot of one kill and the generator state after it.
pub open spec fn spec_kill_loot(
    info: EnemyInfo,
    items: Seq<ItemInfo>,
    spells: Seq<SpellInfo>,
    sectors: Seq<SectorInfo>,
    r0: u64,
) -> (LootDrop, u64) {
    spec_loot_rolls(info.items@, info.spells@, info.sectors@, items, spells, sectors, r0)
}

/// The loot sequence of a run of kills, in order, starting the generator
/// at `r0`.
pub open spec fn spec_loot_sequence(
    kills: Seq<EnemyIdx>,
    enemies: Seq<EnemyInfo>,
    items: Seq<ItemInfo>,
    spells: Seq<SpellInfo>,
    sectors: Seq<SectorInfo>,
    r0: u64,
) -> Seq<LootDrop>
    decreases kills.len(),
{
    if kills.len() == 0 {
        Seq::<LootDrop>::empty()
    } else {
        let (drop, r1) = spec_kill_loot(
            enemies[kills[0].0 as int],
            items,
            spells,
            sectors,
            r0,
        );
        seq![drop] + spec_loot_sequence(kills.drop_first(), enemies, items, spells, sectors, r1)
    }
}

/// Every kill of a run in order: samples each dead enemy's loot and pushes
/// it into the backpacks, starting the generator at `seed`.
#[verifier::rlimit(100)]
pub fn loot_for_kills(
    seed: u64,
    kills: &Vec<EnemyIdx>,
    enemies: &Enemies,
    items: &Items,
    spells: &Spells,
    sectors: &Sectors,
    inventory: &mut Inventory,
) -> (r: Vec<LootDrop>)
    requires
        old(inventory).wf(),
        forall|i: int| 0 <= i < kills@.len() ==> (#[trigger] kills@[i]).0 < enemies@.len(),
        forall|i: int|
            0 <= i < enemies@.len() ==> enemy_loot_wf(
                #[trigger] enemies@[i],
                items@.len(),
                spells@.len(),
                sectors@.len(),
            ),
    ensures
        final(inventory).wf(),
        r@ == spec_loot_sequence(kills@, enemies@, items@, spells@, sectors@, seed),
{
    let mut rng = GameRng::new(seed);
    let mut out: Vec<LootDrop> = Vec::new();
    let n = kills.len();
    let mut i: usize = 0;
    proof {
        assert(kills@.skip(0) =~= kills@);
        assert(out@ + spec_loot_sequence(kills@, enemies@, items@, spells@, sectors@, rng@)
            =~= spec_loot_sequence(kills@, enemies@, items@, spells@, sectors@, seed));
    }
    while i < n
        invariant
            i <= n,
            n == kills@.len(),
            inventory.wf(),
            forall|j: int| 0 <= j < kills@.len() ==> (#[trigger] kills@[j]).0 < enemies@.len(),
            forall|j: int|
                0 <= j < enemies@.len() ==> enemy_loot_wf(
                    #[trigger] enemies@[j],
                    items@.len(),
                    spells@.len(),
                    sectors@.len(),
                ),
            out@ + spec_loot_sequence(
                kills@.skip(i as int),
                enemies@,
                items@,
                spells@,
                sectors@,
                rng@,
            ) == spec_loot_sequence(kills@, enemies@, items@, spells@, sectors@, seed),
        decreases n - i,
    {
        proof {
            assert(kills@.skip(i as int).drop_first() =~= kills@.skip(i as int + 1));
        }
        let drop = on_dead_finish(kills[i], enemies, items, spells, sectors, inventory, &mut rng);
        out.push(drop);
        proof {
            assert(out@ + spec_loot_sequence(
                kills@.skip(i as int + 1),
                enemies@,
                items@,
                spells@,
                sectors@,
                rng@,
            ) =~= spec_loot_sequence(kills@, enemies@, items@, spells@, sectors@, seed));
        }
        i = i + 1;
    }
    proof {
        assert(kills@.skip(n as int) =~= Seq::<EnemyIdx>::empty());
        assert(out@ =~= spec_loot_sequence(kills@, enemies@, items@, spells@, sectors@, seed));
    }
    out
}

/// Law of reproducible drops: the loot sequence is a function of the seed
/// and the kill sequence alone — two runs from equal seeds over equal kill
/// sequences, against the same tables, drop exactly the same loot.
pub proof fn lemma_loot_deterministic(
    seed1: u64,
    seed2: u64,
    kills1: Seq<EnemyIdx>,
    kills2: Seq<EnemyIdx>,
    enemies: Seq<EnemyInfo>,
    items: Seq<ItemInfo>,
    spells: Seq<SpellInfo>,
    sectors: Seq<SectorInfo>,
)
    requires
        seed1 == seed2,
        kills1 == kills2,
    ensures
        spec_loot_sequence(kills1, enemies, items, spells, sectors, seed1)
            == spec_loot_sequence(kills2, enemies, items, spells, sectors, seed2),
{
}

} // verus!
