//! Battle resolution: hit points, the damage/defense formula, equipped-item
//! bonuses, and the per-tick exchange between the player and the enemy it
//! faces. Defense is measured in thousandths of full absorption; a value at
//! or above 1000 blocks everything, at or below 0 blocks nothing.

use vstd::prelude::*;

use crate::items::{Item, ItemIdx, ItemInfo, Items};
use crate::stack::Stack;
use crate::timer::{spec_tick, TickTimer};

verus! {

/// Largest stat the game data may carry; keeps every damage computation
/// comfortably inside 32 bits.
pub const MAX_STAT: u32 = 1000000;

/// Most slots an equipment stack handed to the battle resolver may have.
pub const MAX_EQUIPPED: usize = 1000;

/// Hit points with a fixed maximum.
#[derive(Debug, Clone, Copy, PartialEq, Eq, Structural)]
pub struct Health {
    pub current: u32,
    pub max: u32,
}

impl Health {
    /// Hit points never exceed the maximum.
    pub open spec fn wf(&self) -> bool {
        self.current <= self.max
    }

    /// The health after losing `damage` points, floored at zero.
    pub open spec fn spec_after_damage(self, damage: int) -> Health {
        Health {
            current: if damage >= self.current {
                0u32
            } else {
                (self.current - damage) as u32
            },
            ..self
        }
    }

    /// The health after regaining `heal` points, capped at the maximum.
    pub open spec fn spec_after_heal(self, heal: int) -> Health {
        Health {
            current: if self.current + heal >= self.max {
                self.max
            } else {
                (self.current + heal) as u32
            },
            ..self
        }
    }

    /// Full health with the given maximum.
    pub fn new(max: u32) -> (r: Health)
        ensures
            r == (Health { current: max, max }),
            r.wf(),
    {
        Health { current: max, max }
    }

    /// The remaining hit points.
    pub fn current(&self) -> (r: u32)
        ensures
            r == self.current,
    {
        self.current
    }

    /// The filled share of the health bar, in thousandths.
    pub fn percent(&self) -> (r: u32)
        requires
            self.wf(),
            self.max > 0,
        ensures
            r == self.current * 1000 / (self.max as int),
            r <= 1000,
    {
        proof {
            assert(self.current * 1000 / (self.max as int) <= 1000) by (nonlinear_arith)
                requires
                    self.current <= self.max,
                    self.max > 0,
            ;
        }
        ((self.current as u64 * 1000) / self.max as u64) as u32
    }

    /// Removes `damage` hit points, stopping at zero.
    pub fn take_damage(&mut self, damage: u32)
        requires
            old(self).wf(),
        ensures
            final(self).wf(),
            *final(self) == old(self).spec_after_damage(damage as int),
    {
        if damage >= self.current {
            self.current = 0;
        } else {
            self.current = self.current - damage;
        }
    }

    /// Restores `heal` hit points, stopping at the maximum.
    pub fn heal(&mut self, heal: u32)
        requires
            old(self).wf(),
        ensures
            final(self).wf(),
            *final(self) == old(self).spec_after_heal(heal as int),
    {
        let healed: u64 = self.current as u64 + heal as u64;
        if healed >= self.max as u64 {
            self.current = self.max;
        } else {
            self.current = healed as u32;
        }
    }
}

/// Defense clamped into the meaningful range `0 ..= 1000`.
pub open spec fn spec_clamp_defense(defense_pm: int) -> int {
    if defense_pm < 0 {
        0
    } else if defense_pm > 1000 {
        1000
    } else {
        defense_pm
    }
}

/// The damage that lands after defense: the raw damage scaled by the share
/// of it that the clamped defense does not absorb, rounded down. Never
/// negative and never more than the raw damage.
pub open spec fn spec_final_damage(raw: int, defense_pm: int) -> int {
    raw * (1000 - spec_clamp_defense(defense_pm)) / 1000
}

/// Clamps a defense value into `0 ..= 1000` thousandths.
pub fn clamp_defense(defense_pm: i32) -> (r: u32)
    ensures
        r == spec_clamp_defense(defense_pm as int),
{
    if defense_pm < 0 {
        0
    } else if defense_pm > 1000 {
        1000
    } else {
        defense_pm as u32
    }
}

/// Applies the defense formula to a raw hit.
pub fn final_damage(raw: u32, defense_pm: i32) -> (r: u32)
    ensures
        r == spec_final_damage(raw as int, defense_pm as int),
        r <= raw,
{
    let kept: u32 = 1000 - clamp_defense(defense_pm);
    proof {
        assert(raw as int * kept as int <= u32::MAX as int * 1000) by (nonlinear_arith)
            requires
                raw <= u32::MAX,
                kept <= 1000,
        ;
    }
    let scaled: u64 = (raw as u64 * kept as u64) / 1000;
    proof {
        assert(raw * kept <= raw * 1000) by (nonlinear_arith)
            requires
                kept <= 1000,
                raw >= 0,
        ;
        assert(raw * 1000 / 1000 == raw) by (nonlinear_arith);
        vstd::arithmetic::div_mod::lemma_div_is_ordered(
            (raw * kept) as int,
            (raw * 1000) as int,
            1000,
        );
    }
    scaled as u32
}

/// Law of the damage formula: whatever the raw damage and however buffed or
/// debuffed the defense, the damage that lands is never negative and never
/// exceeds the raw damage.
pub proof fn lemma_final_damage_bounds(raw: u32, defense_pm: int)
    ensures
        0 <= spec_final_damage(raw as int, defense_pm) <= raw,
{
    let kept = 1000 - spec_clamp_defense(defense_pm);
    assert(0 <= raw * kept <= raw * 1000) by (nonlinear_arith)
        requires
            0 <= kept <= 1000,
            raw >= 0,
    ;
    assert(raw * 1000 / 1000 == raw) by (nonlinear_arith);
    vstd::arithmetic::div_mod::lemma_div_is_ordered((raw * kept) as int, (raw * 1000) as int, 1000);
}

/// Every equipped slot points into the item table.
pub open spec fn slots_in_table(slots: Seq<Option<ItemIdx>>, table_len: nat) -> bool {
    forall|i: int|
        0 <= i < slots.len() ==> match #[trigger] slots[i] {
            Some(idx) => idx.0 < table_len,
            None => true,
        }
}

/// The summed per-item value over a stack of equipped slots; empty slots and
/// out-of-table references count nothing.
pub open spec fn spec_item_sum(
    slots: Seq<Option<ItemIdx>>,
    items: Seq<ItemInfo>,
    value: spec_fn(Item) -> u32,
) -> int
    decreases slots.len(),
{
    if slots.len() == 0 {
        0
    } else {
        (match slots[0] {
            Some(idx) => if idx.0 < items.len() {
                value(items[idx.0 as int].item) as int
            } else {
                0
            },
            None => 0,
        }) + spec_item_sum(slots.drop_first(), items, value)
    }
}

/// The flat damage added by the equipped items.
pub open spec fn spec_damage_bonus(slots: Seq<Option<ItemIdx>>, items: Seq<ItemInfo>) -> int {
    spec_item_sum(slots, items, |it: Item| it.spec_add_damage())
}

/// The per-mille defense added by the equipped items.
pub open spec fn spec_defense_bonus(slots: Seq<Option<ItemIdx>>, items: Seq<ItemInfo>) -> int {
    spec_item_sum(slots, items, |it: Item| it.spec_add_defense())
}

/// The item sum is between 0 and `bound` per slot, whenever each single
/// value is at most `bound`.
pub proof fn lemma_item_sum_bounds(
    slots: Seq<Option<ItemIdx>>,
    items: Seq<ItemInfo>,
    value: spec_fn(Item) -> u32,
    bound: int,
)
    requires
        forall|it: Item| (#[trigger] value(it)) as int <= bound,
        bound >= 0,
    ensures
        0 <= spec_item_sum(slots, items, value) <= bound * slots.len(),
    decreases slots.len(),
{
    if slots.len() == 0 {
    } else {
        lemma_item_sum_bounds(slots.drop_first(), items, value, bound);
        let n = slots.len() as int;
        assert(bound * (n - 1) + bound == bound * n) by (nonlinear_arith);
    }
}

/// Which per-item value an equipment sum adds up.
enum BonusKind {
    AttackDamage,
    DefensePermille,
}

impl BonusKind {
    /// The per-item value this sum reads.
    spec fn value_fn(self) -> spec_fn(Item) -> u32 {
        match self {
            BonusKind::AttackDamage => |it: Item| it.spec_add_damage(),
            BonusKind::DefensePermille => |it: Item| it.spec_add_defense(),
        }
    }
}

/// Adds up one per-item value over the equipped stack.
fn item_sum(kind: &BonusKind, active: &Stack<ItemIdx>, items: &Items) -> (r: u32)
    requires
        active@.len() <= MAX_EQUIPPED,
    ensures
        r == spec_item_sum(active@, items@, kind.value_fn()),
{
    proof {
        assert(forall|it: Item| (#[trigger] kind.value_fn()(it)) as int <= 1000) by {
            assert forall|it: Item| (#[trigger] kind.value_fn()(it)) as int <= 1000 by {
                match it {
                    Item::Coffecup => {},
                    Item::Paperclip => {},
                    Item::Plant => {},
                    Item::Scissiors => {},
                    Item::Stapler => {},
                    Item::Stickynotes => {},
                }
            }
        }
    }
    let mut sum: u32 = 0;
    let mut i: usize = 0;
    let cap = active.capacity();
    proof {
        assert(active@.skip(0) =~= active@);
    }
    while i < cap
        invariant
            i <= cap,
            cap == active@.len(),
            active@.len() <= MAX_EQUIPPED,
            forall|it: Item| (#[trigger] kind.value_fn()(it)) as int <= 1000,
            sum + spec_item_sum(active@.skip(i as int), items@, kind.value_fn()) == spec_item_sum(
                active@,
                items@,
                kind.value_fn(),
            ),
            sum <= 1000 * i,
        decreases cap - i,
    {
        proof {
            assert(active@.skip(i as int).drop_first() =~= active@.skip(i as int + 1));
            lemma_item_sum_bounds(
                active@.skip(i as int + 1),
                items@,
                kind.value_fn(),
                1000,
            );
        }
        let entry = active.index(i);
        match entry {
            Some(idx) => {
                if idx.0 < items.len() {
                    let info = items.index(idx);
                    let add = match kind {
                        BonusKind::AttackDamage => info.item.add_damage(),
                        BonusKind::DefensePermille => info.item.add_defense(),
                    };
                    sum = sum + add;
                }
            },
            None => {},
        }
        i = i + 1;
    }
    proof {
        assert(active@.skip(cap as int) =~= Seq::<Option<ItemIdx>>::empty());
    }
    sum
}

/// The flat damage the equipped items add to each player attack.
pub fn attack_item_bonus(active: &Stack<ItemIdx>, items: &Items) -> (r: u32)
    requires
        active@.len() <= MAX_EQUIPPED,
    ensures
        r == spec_damage_bonus(active@, items@),
{
    item_sum(&BonusKind::AttackDamage, active, items)
}

/// The per-mille defense the equipped items add against each enemy attack.
pub fn defense_item_bonus(active: &Stack<ItemIdx>, items: &Items) -> (r: u32)
    requires
        active@.len() <= MAX_EQUIPPED,
    ensures
        r == spec_defense_bonus(active@, items@),
{
    item_sum(&BonusKind::DefensePermille, active, items)
}

/// One side of a battle: hit points, base damage, defense in thousandths
/// (possibly below zero under a debuff), and the attack cadence.
#[derive(Debug, Clone, Copy, PartialEq, Eq, Structural)]
pub struct Combatant {
    pub health: Health,
    pub damage: u32,
    pub defense_pm: i32,
    pub attack: TickTimer,
}

impl Combatant {
    /// Stats inside the ranges the game data allows.
    pub open spec fn wf(&self) -> bool {
        &&& self.health.wf()
        &&& self.attack.wf()
        &&& self.damage <= MAX_STAT
        &&& -(MAX_STAT as int) <= self.defense_pm <= MAX_STAT
    }
}

/// How one frame of battle ended.
#[derive(Debug, Clone, Copy, PartialEq, Eq, Structural)]
pub enum RoundOutcome {
    /// Both sides still stand.
    Continue,
    /// The player's strike brought the enemy to zero hit points.
    EnemyDown,
    /// The enemy's strike brought the player to zero hit points.
    PlayerDown,
}

/// A combatant after being struck for `raw` damage against the given
/// effective defense.
pub open spec fn spec_struck(target: Combatant, raw: int, defense_eff: int) -> Combatant {
    Combatant { health: target.health.spec_after_damage(spec_final_damage(raw, defense_eff)), ..target }
}

/// One frame of battle, exactly as [`battle_round`] resolves it: the player's
/// attack timer ticks and a finished timer lands a strike; if the enemy
/// survives, its own timer ticks and strikes back the same way.
pub open spec fn spec_battle_round(
    p: Combatant,
    e: Combatant,
    bonus_damage: int,
    bonus_defense: int,
    delta_ms: u32,
) -> (Combatant, Combatant, RoundOutcome) {
    let p1 = Combatant { attack: spec_tick(p.attack, delta_ms), ..p };
    let e1 = if p1.attack.finished {
        spec_struck(e, p.damage + bonus_damage, e.defense_pm as int)
    } else {
        e
    };
    if p1.attack.finished && e1.health.current == 0 {
        (p1, e1, RoundOutcome::EnemyDown)
    } else {
        let e2 = Combatant { attack: spec_tick(e1.attack, delta_ms), ..e1 };
        let p2 = if e2.attack.finished {
            spec_struck(p1, e.damage as int, p.defense_pm + bonus_defense)
        } else {
            p1
        };
        if e2.attack.finished && p2.health.current == 0 {
            (p2, e2, RoundOutcome::PlayerDown)
        } else {
            (p2, e2, RoundOutcome::Continue)
        }
    }
}

/// Lands a raw hit on the enemy, softened by its current defense; used by
/// damage-spell strikes as well as by the battle resolver.
pub fn enemy_take_damage(enemy: &mut Combatant, raw: u32)
    requires
        old(enemy).health.wf(),
    ensures
        final(enemy).health.wf(),
        *final(enemy) == spec_struck(*old(enemy), raw as int, old(enemy).defense_pm as int),
{
    let landed = final_damage(raw, enemy.defense_pm);
    enemy.health.take_damage(landed);
}

/// Resolves one frame of battle between the player and the active enemy.
///
/// The player's strike carries the base damage plus the equipped-item
/// bonuses; the enemy's strike is softened by the player's base defense plus
/// the equipped-item defense. Whoever reaches zero hit points first ends the
/// battle, the enemy being checked before it can strike back.
pub fn battle_round(
    player: &mut Combatant,
    enemy: &mut Combatant,
    active_items: &Stack<ItemIdx>,
    items: &Items,
    delta_ms: u32,
) -> (r: RoundOutcome)
    requires
        old(player).wf(),
        old(enemy).wf(),
        active_items@.len() <= MAX_EQUIPPED,
    ensures
        final(player).wf(),
        final(enemy).wf(),
        ({
            let (p2, e2, outcome) = spec_battle_round(
                *old(player),
                *old(enemy),
                spec_damage_bonus(active_items@, items@),
                spec_defense_bonus(active_items@, items@),
                delta_ms,
            );
            *final(player) == p2 && *final(enemy) == e2 && r == outcome
        }),
{
    proof {
        assert(forall|it: Item| (#[trigger] it.spec_add_damage()) <= 1000);
        assert(forall|it: Item| (#[trigger] it.spec_add_defense()) <= 1000);
        lemma_item_sum_bounds(active_items@, items@, |it: Item| it.spec_add_damage(), 1000);
        lemma_item_sum_bounds(active_items@, items@, |it: Item| it.spec_add_defense(), 1000);
    }
    player.attack.tick(delta_ms);
    if player.attack.finished() {
        let bonus = attack_item_bonus(active_items, items);
        let raw = player.damage + bonus;
        let landed = final_damage(raw, enemy.defense_pm);
        enemy.health.take_damage(landed);
        if enemy.health.current() == 0 {
            return RoundOutcome::EnemyDown;
        }
    }
    enemy.attack.tick(delta_ms);
    if enemy.attack.finished() {
        let bonus = defense_item_bonus(active_items, items);
        let defense_eff: i32 = player.defense_pm + bonus as i32;
        let landed = final_damage(enemy.damage, defense_eff);
        player.health.take_damage(landed);
        if player.health.current() == 0 {
            return RoundOutcome::PlayerDown;
        }
    }
    RoundOutcome::Continue
}

} // verus!
