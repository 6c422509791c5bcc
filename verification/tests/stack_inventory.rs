use clock_crawler::inventory::Inventory;
use clock_crawler::items::ItemIdx;
use clock_crawler::sectors::SectorIdx;
use clock_crawler::spells::SpellIdx;
use clock_crawler::stack::Stack;

#[test]
fn stack_starts_empty() {
    let s: Stack<ItemIdx> = Stack::new(4);
    assert_eq!(s.capacity(), 4);
    for i in 0..4 {
        assert_eq!(s.index(i), None);
    }
}

#[test]
fn push_inserts_in_front() {
    let mut s: Stack<ItemIdx> = Stack::new(4);
    s.push(ItemIdx(7));
    s.push(ItemIdx(8));
    assert_eq!(s.index(0), Some(ItemIdx(8)));
    assert_eq!(s.index(1), Some(ItemIdx(7)));
    assert_eq!(s.index(2), None);
    assert_eq!(s.index(3), None);
}

#[test]
fn push_beyond_capacity_keeps_most_recent() {
    let mut s: Stack<ItemIdx> = Stack::new(4);
    for i in 0..6 {
        s.push(ItemIdx(i));
    }
    assert_eq!(
        s.iter(),
        vec![Some(ItemIdx(5)), Some(ItemIdx(4)), Some(ItemIdx(3)), Some(ItemIdx(2))]
    );
}

#[test]
fn remove_shifts_left_and_frees_tail() {
    let mut s: Stack<ItemIdx> = Stack::new(4);
    for i in 0..4 {
        s.push(ItemIdx(i));
    }
    s.remove(1);
    assert_eq!(
        s.iter(),
        vec![Some(ItemIdx(3)), Some(ItemIdx(1)), Some(ItemIdx(0)), None]
    );
}

#[test]
fn remove_last_slot() {
    let mut s: Stack<ItemIdx> = Stack::new(2);
    s.push(ItemIdx(1));
    s.push(ItemIdx(2));
    s.remove(1);
    assert_eq!(s.iter(), vec![Some(ItemIdx(2)), None]);
}

#[test]
fn inventory_starts_empty() {
    let inv = Inventory::new();
    assert_eq!(inv.active_items.capacity(), 4);
    assert_eq!(inv.backpack_items.capacity(), 4);
    assert_eq!(inv.active_spells.capacity(), 4);
    assert_eq!(inv.backpack_spells.capacity(), 4);
    assert_eq!(inv.backpack_sectors.capacity(), 4);
    assert_eq!(inv.get_spell_idx(0), None);
}

#[test]
fn equip_item_moves_between_stacks() {
    let mut inv = Inventory::new();
    inv.backpack_items.push(ItemIdx(3));
    inv.backpack_items.push(ItemIdx(4));
    inv.equip_item(1);
    assert_eq!(inv.active_items.index(0), Some(ItemIdx(3)));
    assert_eq!(
        inv.backpack_items.iter(),
        vec![Some(ItemIdx(4)), None, None, None]
    );
}

#[test]
fn equip_item_from_empty_slot_changes_nothing() {
    let mut inv = Inventory::new();
    inv.backpack_items.push(ItemIdx(3));
    inv.equip_item(2);
    assert_eq!(inv.active_items.index(0), None);
    assert_eq!(
        inv.backpack_items.iter(),
        vec![Some(ItemIdx(3)), None, None, None]
    );
}

#[test]
fn equip_spell_moves_between_stacks() {
    let mut inv = Inventory::new();
    inv.backpack_spells.push(SpellIdx(2));
    inv.equip_spell(0);
    assert_eq!(inv.get_spell_idx(0), Some(SpellIdx(2)));
    assert_eq!(inv.backpack_spells.iter(), vec![None, None, None, None]);
}

#[test]
fn sector_placed_removes_card() {
    let mut inv = Inventory::new();
    inv.backpack_sectors.push(SectorIdx(1));
    inv.backpack_sectors.push(SectorIdx(2));
    inv.on_sector_placed(0);
    assert_eq!(
        inv.backpack_sectors.iter(),
        vec![Some(SectorIdx(1)), None, None, None]
    );
}
