//! The player's inventory: five fixed-capacity stacks — equipped items,
//! backpack items, equipped spells, backpack spells and collected sector
//! cards — plus the moves between them.

use vstd::prelude::*;

use crate::items::ItemIdx;
use crate::sectors::{SectorIdx, SectorState};
use crate::spells::SpellIdx;
use crate::stack::{empty_slots, pushed_slots, Stack};

verus! {

/// Slots in each equipped stack.
pub const INVENTORY_ITEMS: usize = 4;

/// Slots in each backpack stack.
pub const INVENTORY_BACKPACK_ITEMS: usize = 4;

/// Slots for collected sector cards.
pub const INVENTORY_BACKPACK_SECTORS: usize = 4;

/// Everything the player carries.
pub struct Inventory {
    pub active_items: Stack<ItemIdx>,
    pub backpack_items: Stack<ItemIdx>,
    pub active_spells: Stack<SpellIdx>,
    pub backpack_spells: Stack<SpellIdx>,
    pub backpack_sectors: Stack<SectorIdx>,
}

impl Inventory {
    /// Every compartment has its fixed capacity.
    pub open spec fn wf(&self) -> bool {
        &&& self.active_items@.len() == INVENTORY_ITEMS
        &&& self.backpack_items@.len() == INVENTORY_BACKPACK_ITEMS
        &&& self.active_spells@.len() == INVENTORY_ITEMS
        &&& self.backpack_spells@.len() == INVENTORY_BACKPACK_ITEMS
        &&& self.backpack_sectors@.len() == INVENTORY_BACKPACK_SECTORS
    }

    /// An empty inventory.
    pub fn new() -> (r: Inventory)
        ensures
            r.wf(),
            r.active_items@ == empty_slots::<ItemIdx>(INVENTORY_ITEMS as nat),
            r.backpack_items@ == empty_slots::<ItemIdx>(INVENTORY_BACKPACK_ITEMS as nat),
            r.active_spells@ == empty_slots::<SpellIdx>(INVENTORY_ITEMS as nat),
            r.backpack_spells@ == empty_slots::<SpellIdx>(INVENTORY_BACKPACK_ITEMS as nat),
            r.backpack_sectors@ == empty_slots::<SectorIdx>(INVENTORY_BACKPACK_SECTORS as nat),
    {
        Inventory {
            active_items: Stack::new(INVENTORY_ITEMS),
            backpack_items: Stack::new(INVENTORY_BACKPACK_ITEMS),
            active_spells: Stack::new(INVENTORY_ITEMS),
            backpack_spells: Stack::new(INVENTORY_BACKPACK_ITEMS),
            backpack_sectors: Stack::new(INVENTORY_BACKPACK_SECTORS),
        }
    }

    /// Equips the backpack item in slot `id`: it leaves the backpack and
    /// goes on top of the equipped items, whose oldest entry is evicted. An
    /// empty slot changes nothing.
    pub fn equip_item(&mut self, id: usize)
        requires
            old(self).wf(),
            id < old(self).backpack_items@.len(),
        ensures
            final(self).wf(),
            final(self).active_spells == old(self).active_spells,
            final(self).backpack_spells == old(self).backpack_spells,
            final(self).backpack_sectors == old(self).backpack_sectors,
            match old(self).backpack_items@[id as int] {
                Some(item_idx) => {
                    &&& final(self).backpack_items@ == old(self).backpack_items@.remove(id as int)
                        + seq![None::<ItemIdx>]
                    &&& final(self).active_items@ == pushed_slots(
                        old(self).active_items@,
                        item_idx,
                    )
                },
                None => {
                    &&& final(self).backpack_items == old(self).backpack_items
                    &&& final(self).active_items == old(self).active_items
                },
            },
    {
        let slot = self.backpack_items.index(id);
        if let Some(item_idx) = slot {
            self.backpack_items.remove(id);
            self.active_items.push(item_idx);
        }
    }

    /// Equips the backpack spell in slot `id`, shaped like `equip_item`.
    pub fn equip_spell(&mut self, id: usize)
        requires
            old(self).wf(),
            id < old(self).backpack_spells@.len(),
        ensures
            final(self).wf(),
            final(self).active_items == old(self).active_items,
            final(self).backpack_items == old(self).backpack_items,
            final(self).backpack_sectors == old(self).backpack_sectors,
            match old(self).backpack_spells@[id as int] {
                Some(spell_idx) => {
                    &&& final(self).backpack_spells@ == old(self).backpack_spells@.remove(id as int)
                        + seq![None::<SpellIdx>]
                    &&& final(self).active_spells@ == pushed_slots(
                        old(self).active_spells@,
                        spell_idx,
                    )
                },
                None => {
                    &&& final(self).backpack_spells == old(self).backpack_spells
                    &&& final(self).active_spells == old(self).active_spells
                },
            },
    {
        let slot = self.backpack_spells.index(id);
        if let Some(spell_idx) = slot {
            self.backpack_spells.remove(id);
            self.active_spells.push(spell_idx);
        }
    }

    /// The equipped spell in slot `id`, if any.
    pub fn get_spell_idx(&self, id: usize) -> (r: Option<SpellIdx>)
        requires
            id < self.active_spells@.len(),
        ensures
            r == self.active_spells@[id as int],
    {
        self.active_spells.index(id)
    }

    /// A sector card was placed on the ring: slot `id` of the collected
    /// cards empties out.
    pub fn on_sector_placed(&mut self, id: usize)
        requires
            old(self).wf(),
            id < old(self).backpack_sectors@.len(),
        ensures
            final(self).wf(),
            final(self).active_items == old(self).active_items,
            final(self).backpack_items == old(self).backpack_items,
            final(self).active_spells == old(self).active_spells,
            final(self).backpack_spells == old(self).backpack_spells,
            final(self).backpack_sectors@ == old(self).backpack_sectors@.remove(id as int)
                + seq![None::<SectorIdx>],
    {
        self.backpack_sectors.remove(id);
    }
}

/// Places the collected sector card in backpack slot `id` onto the sector
/// under the cursor: the sector takes the card's theme and the card leaves
/// the backpack. An empty slot places nothing.
pub fn place_sector(
    state: &mut SectorState,
    inventory: &mut Inventory,
    id: usize,
    sectors_len: usize,
) -> (placed: bool)
    requires
        old(inventory).wf(),
        id < old(inventory).backpack_sectors@.len(),
        match old(inventory).backpack_sectors@[id as int] {
            Some(sector_idx) => sector_idx.0 < sectors_len,
            None => true,
        },
    ensures
        final(inventory).wf(),
        final(state).position == old(state).position,
        final(state).timer == old(state).timer,
        final(state).slots == old(state).slots,
        final(inventory).active_items == old(inventory).active_items,
        final(inventory).backpack_items == old(inventory).backpack_items,
        final(inventory).active_spells == old(inventory).active_spells,
        final(inventory).backpack_spells == old(inventory).backpack_spells,
        match old(inventory).backpack_sectors@[id as int] {
            Some(sector_idx) => {
                &&& placed
                &&& final(state).sector_idx == sector_idx
                &&& final(state).sector_idx.0 < sectors_len
                &&& final(inventory).backpack_sectors@ == old(
                    inventory,
                ).backpack_sectors@.remove(id as int) + seq![None::<SectorIdx>]
            },
            None => {
                &&& !placed
                &&& *final(state) == *old(state)
                &&& final(inventory).backpack_sectors == old(inventory).backpack_sectors
            },
        },
{
    let slot = inventory.backpack_sectors.index(id);
    if let Some(sector_idx) = slot {
        state.sector_idx = sector_idx;
        inventory.on_sector_placed(id);
        true
    } else {
        false
    }
}

} // verus!
