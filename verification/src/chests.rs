//! Loot chests: static per-chest loot lists with a spawn gate, referenced by
//! index from the sector tables.

use vstd::prelude::*;

use crate::items::ItemIdx;
use crate::sectors::SectorIdx;
use crate::spells::SpellIdx;

verus! {

/// Index into the global chest table.
#[derive(Debug, Clone, Copy, PartialEq, Eq, Structural)]
pub struct ChestIdx(pub usize);

/// One chest kind: its spawn gate in thousandths and the loot it can hold.
#[derive(Debug, Clone)]
pub struct ChestInfo {
    pub spawn_permille: u32,
    pub items: Vec<ItemIdx>,
    pub spells: Vec<SpellIdx>,
    pub sectors: Vec<SectorIdx>,
}

impl ChestInfo {
    /// The spawn gate is a valid per-mille value.
    pub open spec fn wf(&self) -> bool {
        self.spawn_permille <= 1000
    }
}

/// The global chest table, indexed by [`ChestIdx`].
pub struct Chests {
    infos: Vec<ChestInfo>,
}

impl Chests {
    /// The table entries in order.
    pub closed spec fn view(&self) -> Seq<ChestInfo> {
        self.infos@
    }

    /// Every entry is well formed.
    pub open spec fn wf(&self) -> bool {
        forall|i: int| 0 <= i < self@.len() ==> (#[trigger] self@[i]).wf()
    }

    /// A table from the given entries.
    pub fn new(infos: Vec<ChestInfo>) -> (r: Chests)
        ensures
            r@ == infos@,
    {
        Chests { infos }
    }

    /// How many chest kinds the table holds.
    pub fn len(&self) -> (r: usize)
        ensures
            r == self@.len(),
    {
        self.infos.len()
    }

    /// The entry behind `idx`.
    pub fn index(&self, idx: ChestIdx) -> (r: &ChestInfo)
        requires
            idx.0 < self@.len(),
        ensures
            *r == self@[idx.0 as int],
    {
        &self.infos[idx.0]
    }
}

/// The stock chest table: one chest kind per sector theme, with its loot.
pub fn default_chests() -> (r: Chests)
    ensures
        r@.len() == 5,
        r.wf(),
        forall|i: int| 0 <= i < 3 ==> (#[trigger] r@[i]).spawn_permille == 250,
        r@[3].spawn_permille == 200 && r@[4].spawn_permille == 200,
        r@[0].items@ == seq![ItemIdx(1), ItemIdx(5)],
        r@[0].spells@ == seq![SpellIdx(5)],
        r@[0].sectors@ == seq![SectorIdx(1), SectorIdx(2)],
        r@[1].items@ == seq![ItemIdx(1), ItemIdx(2), ItemIdx(3)],
        r@[1].spells@ == seq![SpellIdx(4)],
        r@[1].sectors@ == seq![SectorIdx(2)],
        r@[2].items@ == seq![ItemIdx(0), ItemIdx(5)],
        r@[2].spells@ == seq![SpellIdx(3)],
        r@[2].sectors@ == seq![SectorIdx(3), SectorIdx(4)],
        r@[3].items@ == seq![ItemIdx(0), ItemIdx(1), ItemIdx(3)],
        r@[3].spells@ == seq![SpellIdx(0), SpellIdx(1), SpellIdx(6)],
        r@[3].sectors@ == seq![SectorIdx(3)],
        r@[4].items@ == seq![ItemIdx(0), ItemIdx(3), ItemIdx(4)],
        r@[4].spells@ == seq![SpellIdx(2), SpellIdx(3), SpellIdx(4)],
        r@[4].sectors@ == seq![SectorIdx(0), SectorIdx(3), SectorIdx(4)],
{
    let mut infos: Vec<ChestInfo> = Vec::new();
    infos.push(
        ChestInfo {
            spawn_permille: 250,
            items: vec![ItemIdx(1), ItemIdx(5)],
            spells: vec![SpellIdx(5)],
            sectors: vec![SectorIdx(1), SectorIdx(2)],
        },
    );
    infos.push(
        ChestInfo {
            spawn_permille: 250,
            items: vec![ItemIdx(1), ItemIdx(2), ItemIdx(3)],
            spells: vec![SpellIdx(4)],
            sectors: vec![SectorIdx(2)],
        },
    );
    infos.push(
        ChestInfo {
            spawn_permille: 250,
            items: vec![ItemIdx(0), ItemIdx(5)],
            spells: vec![SpellIdx(3)],
            sectors: vec![SectorIdx(3), SectorIdx(4)],
        },
    );
    infos.push(
        ChestInfo {
            spawn_permille: 200,
            items: vec![ItemIdx(0), ItemIdx(1), ItemIdx(3)],
            spells: vec![SpellIdx(0), SpellIdx(1), SpellIdx(6)],
            sectors: vec![SectorIdx(3)],
        },
    );
    infos.push(
        ChestInfo {
            spawn_permille: 200,
            items: vec![ItemIdx(0), ItemIdx(3), ItemIdx(4)],
            spells: vec![SpellIdx(2), SpellIdx(3), SpellIdx(4)],
            sectors: vec![SectorIdx(0), SectorIdx(3), SectorIdx(4)],
        },
    );
    Chests::new(infos)
}

} // verus!
