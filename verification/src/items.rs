//! Equippable items and the static item table: each item adds flat damage,
//! per-mille defense, or after-battle healing, and has a drop probability.

use vstd::prelude::*;

verus! {

/// Index into the global item table.
#[derive(Debug, Clone, Copy, PartialEq, Eq, Structural)]
pub struct ItemIdx(pub usize);

/// The office gear a defeated enemy or an opened chest can drop.
#[derive(Debug, Clone, Copy, PartialEq, Eq, Structural)]
pub enum Item {
    Coffecup,
    Paperclip,
    Plant,
    Scissiors,
    Stapler,
    Stickynotes,
}

impl Item {
    /// Flat damage the item adds to every player attack.
    pub fn add_damage(&self) -> (r: u32)
        ensures
            r == self.spec_add_damage(),
    {
        match self {
            Item::Coffecup => 0,
            Item::Paperclip => 0,
            Item::Plant => 0,
            Item::Scissiors => 11,
            Item::Stapler => 22,
            Item::Stickynotes => 0,
        }
    }

    /// The damage bonus, as a spec-level value.
    pub open spec fn spec_add_damage(&self) -> u32 {
        match self {
            Item::Coffecup => 0,
            Item::Paperclip => 0,
            Item::Plant => 0,
            Item::Scissiors => 11,
            Item::Stapler => 22,
            Item::Stickynotes => 0,
        }
    }

    /// Defense the item adds, in thousandths of full damage absorption.
    pub fn add_defense(&self) -> (r: u32)
        ensures
            r == self.spec_add_defense(),
    {
        match self {
            Item::Coffecup => 0,
            Item::Paperclip => 200,
            Item::Plant => 0,
            Item::Scissiors => 0,
            Item::Stapler => 0,
            Item::Stickynotes => 100,
        }
    }

    /// The defense bonus in thousandths, as a spec-level value.
    pub open spec fn spec_add_defense(&self) -> u32 {
        match self {
            Item::Coffecup => 0,
            Item::Paperclip => 200,
            Item::Plant => 0,
            Item::Scissiors => 0,
            Item::Stapler => 0,
            Item::Stickynotes => 100,
        }
    }

    /// Health restored after each battle while the item is equipped.
    pub fn heal(&self) -> (r: u32)
        ensures
            r == self.spec_heal(),
    {
        match self {
            Item::Coffecup => 20,
            Item::Paperclip => 0,
            Item::Plant => 10,
            Item::Scissiors => 0,
            Item::Stapler => 0,
            Item::Stickynotes => 0,
        }
    }

    /// The after-battle healing, as a spec-level value.
    pub open spec fn spec_heal(&self) -> u32 {
        match self {
            Item::Coffecup => 20,
            Item::Paperclip => 0,
            Item::Plant => 10,
            Item::Scissiors => 0,
            Item::Stapler => 0,
            Item::Stickynotes => 0,
        }
    }
}

/// One entry of the item table: which item it is, and the chance (in
/// thousandths) that a loot roll for it succeeds.
#[derive(Debug, Clone, Copy, PartialEq, Eq, Structural)]
pub struct ItemInfo {
    pub drop_permille: u32,
    pub item: Item,
}

/// The global item table, indexed by [`ItemIdx`].
pub struct Items {
    infos: Vec<ItemInfo>,
}

impl Items {
    /// The table entries in order.
    pub closed spec fn view(&self) -> Seq<ItemInfo> {
        self.infos@
    }

    /// Every drop probability is a valid per-mille value.
    pub open spec fn wf(&self) -> bool {
        forall|i: int| 0 <= i < self@.len() ==> #[trigger] self@[i].drop_permille <= 1000
    }

    /// A table from the given entries.
    pub fn new(infos: Vec<ItemInfo>) -> (r: Items)
        ensures
            r@ == infos@,
    {
        Items { infos }
    }

    /// How many items the table holds.
    pub fn len(&self) -> (r: usize)
        ensures
            r == self@.len(),
    {
        self.infos.len()
    }

    /// The entry behind `idx`.
    pub fn index(&self, idx: ItemIdx) -> (r: ItemInfo)
        requires
            idx.0 < self@.len(),
        ensures
            r == self@[idx.0 as int],
    {
        self.infos[idx.0]
    }
}

/// The stock item table.
pub open spec fn spec_default_items() -> Seq<ItemInfo> {
    seq![
        ItemInfo { drop_permille: 200, item: Item::Coffecup },
        ItemInfo { drop_permille: 900, item: Item::Paperclip },
        ItemInfo { drop_permille: 900, item: Item::Plant },
        ItemInfo { drop_permille: 900, item: Item::Scissiors },
        ItemInfo { drop_permille: 900, item: Item::Stapler },
        ItemInfo { drop_permille: 900, item: Item::Stickynotes },
    ]
}

/// Builds the stock item table: coffee cup, paperclip, plant, scissors,
/// stapler and sticky notes, with their drop probabilities.
pub fn default_items() -> (r: Items)
    ensures
        r@ == spec_default_items(),
        r.wf(),
{
    let mut infos: Vec<ItemInfo> = Vec::new();
    infos.push(ItemInfo { drop_permille: 200, item: Item::Coffecup });
    infos.push(ItemInfo { drop_permille: 900, item: Item::Paperclip });
    infos.push(ItemInfo { drop_permille: 900, item: Item::Plant });
    infos.push(ItemInfo { drop_permille: 900, item: Item::Scissiors });
    infos.push(ItemInfo { drop_permille: 900, item: Item::Stapler });
    infos.push(ItemInfo { drop_permille: 900, item: Item::Stickynotes });
    assert(infos@ =~= spec_default_items());
    Items::new(infos)
}

} // verus!
