//! Spells and their transient effects: multi-strike damage over time,
//! instant healing, and timed stat modifiers that apply on their first tick
//! and revert when their timer completes. Each spell in the table carries a
//! cast cooldown and a drop probability.

use vstd::prelude::*;

use crate::battle::Health;
use crate::rng::{rng_step, roll_below_output, GameRng};
use crate::timer::{spec_tick, TickTimer};

verus! {

/// Index into the global spell table.
#[derive(Debug, Clone, Copy, PartialEq, Eq, Structural)]
pub struct SpellIdx(pub usize);

/// A volley of strikes: `strikes` hits of `damage` each, `delta_ms` apart,
/// each landing only with `chance_pm` thousandths probability.
#[derive(Debug, Clone, Copy, PartialEq, Eq, Structural)]
pub struct DamageSpellInfo {
    pub strikes: u32,
    pub delta_ms: u32,
    pub damage: u32,
    pub chance_pm: u32,
}

/// An instant restoration of hit points.
#[derive(Debug, Clone, Copy, PartialEq, Eq, Structural)]
pub struct HealSpellInfo {
    pub heal: u32,
}

/// A timed flat bonus to the player's attack damage.
#[derive(Debug, Clone, Copy, PartialEq, Eq, Structural)]
pub struct PlayerAttackUpSpellInfo {
    pub duration_ms: u32,
    pub attack: u32,
}

/// A timed per-mille bonus to the player's defense.
#[derive(Debug, Clone, Copy, PartialEq, Eq, Structural)]
pub struct PlayerDefenseUpSpellInfo {
    pub duration_ms: u32,
    pub defense_pm: u32,
}

/// A timed per-mille penalty to the enemy's defense.
#[derive(Debug, Clone, Copy, PartialEq, Eq, Structural)]
pub struct EnemyDefenseDownSpellInfo {
    pub duration_ms: u32,
    pub defense_pm: u32,
}

/// What a spell does when cast.
#[derive(Debug, Clone, Copy, PartialEq, Eq, Structural)]
pub enum Spell {
    Damage(DamageSpellInfo),
    Heal(HealSpellInfo),
    PlayerAttackUp(PlayerAttackUpSpellInfo),
    PlayerDefenseUp(PlayerDefenseUpSpellInfo),
    EnemyDefenseDown(EnemyDefenseDownSpellInfo),
}

/// One entry of the spell table: the spell, its drop probability in
/// thousandths, and its cast cooldown.
#[derive(Debug, Clone, Copy, PartialEq, Eq, Structural)]
pub struct SpellInfo {
    pub drop_permille: u32,
    pub cooldown: TickTimer,
    pub spell: Spell,
}

/// A live multi-strike damage effect.
#[derive(Debug, Clone, Copy, PartialEq, Eq, Structural)]
pub struct DamageSpell {
    pub timer: TickTimer,
    pub remaining_strikes: u32,
    pub damage: u32,
    pub chance_pm: u32,
}

/// A pending instant heal.
#[derive(Debug, Clone, Copy, PartialEq, Eq, Structural)]
pub struct HealSpell {
    pub heal: u32,
}

/// A live attack-up buff; `active` is set once the bonus has been applied.
#[derive(Debug, Clone, Copy, PartialEq, Eq, Structural)]
pub struct PlayerAttackUpSpell {
    pub timer: TickTimer,
    pub active: bool,
    pub attack: u32,
}

/// A live defense-up buff; `active` is set once the bonus has been applied.
#[derive(Debug, Clone, Copy, PartialEq, Eq, Structural)]
pub struct PlayerDefenseUpSpell {
    pub timer: TickTimer,
    pub active: bool,
    pub defense_pm: u32,
}

/// A live defense-down debuff on the enemy; `active` is set once the penalty
/// has been applied.
#[derive(Debug, Clone, Copy, PartialEq, Eq, Structural)]
pub struct EnemyDefenseDownSpell {
    pub timer: TickTimer,
    pub active: bool,
    pub defense_pm: u32,
}

/// The effect a successful cast spawns.
#[derive(Debug, Clone, Copy, PartialEq, Eq, Structural)]
pub enum SpellCast {
    Damage(DamageSpell),
    Heal(HealSpell),
    PlayerAttackUp(PlayerAttackUpSpell),
    PlayerDefenseUp(PlayerDefenseUpSpell),
    EnemyDefenseDown(EnemyDefenseDownSpell),
}

/// The effect that casting `spell` creates: timers start from zero and stat
/// modifiers start inactive.
pub open spec fn spec_cast_effect(spell: Spell) -> SpellCast {
    match spell {
        Spell::Damage(info) => SpellCast::Damage(
            DamageSpell {
                timer: TickTimer {
                    duration_ms: info.delta_ms,
                    elapsed_ms: 0,
                    repeating: true,
                    paused: false,
                    finished: false,
                },
                remaining_strikes: info.strikes,
                damage: info.damage,
                chance_pm: info.chance_pm,
            },
        ),
        Spell::Heal(info) => SpellCast::Heal(HealSpell { heal: info.heal }),
        Spell::PlayerAttackUp(info) => SpellCast::PlayerAttackUp(
            PlayerAttackUpSpell {
                timer: TickTimer {
                    duration_ms: info.duration_ms,
                    elapsed_ms: 0,
                    repeating: false,
                    paused: false,
                    finished: false,
                },
                active: false,
                attack: info.attack,
            },
        ),
        Spell::PlayerDefenseUp(info) => SpellCast::PlayerDefenseUp(
            PlayerDefenseUpSpell {
                timer: TickTimer {
                    duration_ms: info.duration_ms,
                    elapsed_ms: 0,
                    repeating: false,
                    paused: false,
                    finished: false,
                },
                active: false,
                defense_pm: info.defense_pm,
            },
        ),
        Spell::EnemyDefenseDown(info) => SpellCast::EnemyDefenseDown(
            EnemyDefenseDownSpell {
                timer: TickTimer {
                    duration_ms: info.duration_ms,
                    elapsed_ms: 0,
                    repeating: false,
                    paused: false,
                    finished: false,
                },
                active: false,
                defense_pm: info.defense_pm,
            },
        ),
    }
}

/// The global spell table, indexed by [`SpellIdx`].
pub struct Spells {
    infos: Vec<SpellInfo>,
}

impl Spells {
    /// The table entries in order.
    pub closed spec fn view(&self) -> Seq<SpellInfo> {
        self.infos@
    }

    /// Drop probabilities are valid per-mille values and every cooldown
    /// timer is well formed.
    pub open spec fn wf(&self) -> bool {
        forall|i: int|
            0 <= i < self@.len() ==> (#[trigger] self@[i]).drop_permille <= 1000
                && self@[i].cooldown.wf()
    }

    /// A table from the given entries.
    pub fn new(infos: Vec<SpellInfo>) -> (r: Spells)
        ensures
            r@ == infos@,
    {
        Spells { infos }
    }

    /// How many spells the table holds.
    pub fn len(&self) -> (r: usize)
        ensures
            r == self@.len(),
    {
        self.infos.len()
    }

    /// The entry behind `idx`.
    pub fn index(&self, idx: SpellIdx) -> (r: SpellInfo)
        requires
            idx.0 < self@.len(),
        ensures
            r == self@[idx.0 as int],
    {
        self.infos[idx.0]
    }

    /// Advances every cast cooldown by one frame.
    pub fn cooldown_spells(&mut self, delta_ms: u32)
        requires
            old(self).wf(),
        ensures
            final(self).wf(),
            final(self)@.len() == old(self)@.len(),
            forall|i: int|
                0 <= i < old(self)@.len() ==> #[trigger] final(self)@[i] == (SpellInfo {
                    cooldown: spec_tick(old(self)@[i].cooldown, delta_ms),
                    ..old(self)@[i]
                }),
    {
        let n = self.infos.len();
        let mut i: usize = 0;
        while i < n
            invariant
                i <= n,
                n == self.infos@.len(),
                old(self).wf(),
                forall|j: int|
                    i <= j < n ==> #[trigger] self.infos@[j] == old(self)@[j],
                forall|j: int|
                    0 <= j < i ==> #[trigger] self.infos@[j] == (SpellInfo {
                        cooldown: spec_tick(old(self)@[j].cooldown, delta_ms),
                        ..old(self)@[j]
                    }),
                forall|j: int| 0 <= j < n ==> (#[trigger] self.infos@[j]).cooldown.wf(),
            decreases n - i,
        {
            let entry = &mut self.infos[i];
            entry.cooldown.tick(delta_ms);
            i = i + 1;
        }
    }

    /// Casts the spell behind `idx`: when its cooldown has completed, the
    /// cooldown starts over and the spell's effect is produced; before that
    /// the cast fizzles and nothing changes.
    pub fn cast_spell(&mut self, idx: SpellIdx) -> (r: Option<SpellCast>)
        requires
            old(self).wf(),
            idx.0 < old(self)@.len(),
        ensures
            final(self).wf(),
            final(self)@.len() == old(self)@.len(),
            old(self)@[idx.0 as int].cooldown.finished ==> {
                &&& r == Some(spec_cast_effect(old(self)@[idx.0 as int].spell))
                &&& final(self)@ == old(self)@.update(
                    idx.0 as int,
                    SpellInfo {
                        cooldown: TickTimer {
                            elapsed_ms: 0,
                            finished: false,
                            ..old(self)@[idx.0 as int].cooldown
                        },
                        ..old(self)@[idx.0 as int]
                    },
                )
            },
            !old(self)@[idx.0 as int].cooldown.finished ==> r == None::<SpellCast> && final(self)@
                == old(self)@,
    {
        let entry = &mut self.infos[idx.0];
        if !entry.cooldown.finished() {
            return None;
        }
        entry.cooldown.reset();
        let spell = entry.spell;
        let cast = match spell {
            Spell::Damage(info) => SpellCast::Damage(
                DamageSpell {
                    timer: TickTimer::new(info.delta_ms, true),
                    remaining_strikes: info.strikes,
                    damage: info.damage,
                    chance_pm: info.chance_pm,
                },
            ),
            Spell::Heal(info) => SpellCast::Heal(HealSpell { heal: info.heal }),
            Spell::PlayerAttackUp(info) => SpellCast::PlayerAttackUp(
                PlayerAttackUpSpell {
                    timer: TickTimer::new(info.duration_ms, false),
                    active: false,
                    attack: info.attack,
                },
            ),
            Spell::PlayerDefenseUp(info) => SpellCast::PlayerDefenseUp(
                PlayerDefenseUpSpell {
                    timer: TickTimer::new(info.duration_ms, false),
                    active: false,
                    defense_pm: info.defense_pm,
                },
            ),
            Spell::EnemyDefenseDown(info) => SpellCast::EnemyDefenseDown(
                EnemyDefenseDownSpell {
                    timer: TickTimer::new(info.duration_ms, false),
                    active: false,
                    defense_pm: info.defense_pm,
                },
            ),
        };
        Some(cast)
    }
}

/// One tick of a live damage volley, exactly as [`process_damage_spell`]
/// resolves it: the fields after the tick, the generator state after it,
/// the strike that landed (if any), and whether the volley is spent.
pub open spec fn spec_damage_spell_tick(effect: DamageSpell, rng_state: u64, delta_ms: u32) -> (
    DamageSpell,
    u64,
    Option<u32>,
    bool,
) {
    let ticked = spec_tick(effect.timer, delta_ms);
    if ticked.finished {
        let landed = roll_below_output(rng_state, 1000) < effect.chance_pm;
        let after = DamageSpell {
            timer: ticked,
            remaining_strikes: (effect.remaining_strikes - 1) as u32,
            ..effect
        };
        (
            after,
            rng_step(rng_state),
            if landed {
                Some(effect.damage)
            } else {
                None
            },
            after.remaining_strikes == 0,
        )
    } else {
        (DamageSpell { timer: ticked, ..effect }, rng_state, None, false)
    }
}

/// Advances a live damage volley by one frame. When its interval timer
/// completes, one strike is spent: with the effect's per-mille chance it
/// lands for `damage`. A volley whose last strike is spent reports itself
/// done and should be discarded.
pub fn process_damage_spell(effect: &mut DamageSpell, rng: &mut GameRng, delta_ms: u32) -> (r: (
    Option<u32>,
    bool,
))
    requires
        old(effect).timer.wf(),
        old(effect).remaining_strikes >= 1,
    ensures
        final(effect).timer.wf(),
        ({
            let (after, state, strike, done) = spec_damage_spell_tick(
                *old(effect),
                old(rng)@,
                delta_ms,
            );
            *final(effect) == after && final(rng)@ == state && r.0 == strike && r.1 == done
        }),
{
    effect.timer.tick(delta_ms);
    if effect.timer.finished() {
        let roll = rng.roll_permille();
        let strike = if roll < effect.chance_pm {
            Some(effect.damage)
        } else {
            None
        };
        effect.remaining_strikes = effect.remaining_strikes - 1;
        (strike, effect.remaining_strikes == 0)
    } else {
        (None, false)
    }
}

/// Applies a pending instant heal to the player's health; the effect is
/// finished afterwards and should be discarded.
pub fn process_heal_spell(effect: &HealSpell, health: &mut Health)
    requires
        old(health).wf(),
    ensures
        final(health).wf(),
        *final(health) == old(health).spec_after_heal(effect.heal as int),
{
    health.heal(effect.heal);
}

/// Advances a live attack-up buff. On its first tick it becomes active and
/// adds its bonus to the player's damage; when its timer later completes,
/// the bonus is taken back and the effect reports itself done.
pub fn process_player_attack_up_spell(
    effect: &mut PlayerAttackUpSpell,
    damage: &mut u32,
    delta_ms: u32,
) -> (done: bool)
    requires
        old(effect).timer.wf(),
        !old(effect).active ==> *old(damage) + old(effect).attack <= u32::MAX,
        old(effect).active ==> *old(damage) >= old(effect).attack,
    ensures
        final(effect).timer.wf(),
        !old(effect).active ==> {
            &&& *final(effect) == (PlayerAttackUpSpell { active: true, ..*old(effect) })
            &&& *final(damage) == *old(damage) + old(effect).attack
            &&& !done
        },
        old(effect).active ==> {
            &&& *final(effect) == (PlayerAttackUpSpell {
                timer: spec_tick(old(effect).timer, delta_ms),
                ..*old(effect)
            })
            &&& done == spec_tick(old(effect).timer, delta_ms).finished
            &&& *final(damage) == if done {
                *old(damage) - old(effect).attack
            } else {
                *old(damage) as int
            }
        },
{
    if effect.active {
        effect.timer.tick(delta_ms);
        if effect.timer.finished() {
            *damage = *damage - effect.attack;
            return true;
        }
        false
    } else {
        effect.active = true;
        *damage = *damage + effect.attack;
        false
    }
}

/// Advances a live defense-up buff. On its first tick it becomes active and
/// raises the player's defense; when its timer later completes, the bonus is
/// taken back and the effect reports itself done.
pub fn process_player_defence_up_spell(
    effect: &mut PlayerDefenseUpSpell,
    defense_pm: &mut i32,
    delta_ms: u32,
) -> (done: bool)
    requires
        old(effect).timer.wf(),
        old(effect).defense_pm <= i32::MAX,
        !old(effect).active ==> *old(defense_pm) + old(effect).defense_pm <= i32::MAX,
        old(effect).active ==> *old(defense_pm) - old(effect).defense_pm >= i32::MIN,
    ensures
        final(effect).timer.wf(),
        !old(effect).active ==> {
            &&& *final(effect) == (PlayerDefenseUpSpell { active: true, ..*old(effect) })
            &&& *final(defense_pm) == *old(defense_pm) + old(effect).defense_pm
            &&& !done
        },
        old(effect).active ==> {
            &&& *final(effect) == (PlayerDefenseUpSpell {
                timer: spec_tick(old(effect).timer, delta_ms),
                ..*old(effect)
            })
            &&& done == spec_tick(old(effect).timer, delta_ms).finished
            &&& *final(defense_pm) == if done {
                *old(defense_pm) - old(effect).defense_pm
            } else {
                *old(defense_pm) as int
            }
        },
{
    if effect.active {
        effect.timer.tick(delta_ms);
        if effect.timer.finished() {
            *defense_pm = *defense_pm - effect.defense_pm as i32;
            return true;
        }
        false
    } else {
        effect.active = true;
        *defense_pm = *defense_pm + effect.defense_pm as i32;
        false
    }
}

/// Advances a live defense-down debuff on the enemy. On its first tick it
/// becomes active and lowers the enemy's defense; when its timer later
/// completes, the penalty is lifted and the effect reports itself done.
pub fn process_enemy_denfense_down_spell(
    effect: &mut EnemyDefenseDownSpell,
    defense_pm: &mut i32,
    delta_ms: u32,
) -> (done: bool)
    requires
        old(effect).timer.wf(),
        old(effect).defense_pm <= i32::MAX,
        !old(effect).active ==> *old(defense_pm) - old(effect).defense_pm >= i32::MIN,
        old(effect).active ==> *old(defense_pm) + old(effect).defense_pm <= i32::MAX,
    ensures
        final(effect).timer.wf(),
        !old(effect).active ==> {
            &&& *final(effect) == (EnemyDefenseDownSpell { active: true, ..*old(effect) })
            &&& *final(defense_pm) == *old(defense_pm) - old(effect).defense_pm
            &&& !done
        },
        old(effect).active ==> {
            &&& *final(effect) == (EnemyDefenseDownSpell {
                timer: spec_tick(old(effect).timer, delta_ms),
                ..*old(effect)
            })
            &&& done == spec_tick(old(effect).timer, delta_ms).finished
            &&& *final(defense_pm) == if done {
                *old(defense_pm) + old(effect).defense_pm
            } else {
                *old(defense_pm) as int
            }
        },
{
    if effect.active {
        effect.timer.tick(delta_ms);
        if effect.timer.finished() {
            *defense_pm = *defense_pm + effect.defense_pm as i32;
            return true;
        }
        false
    } else {
        effect.active = true;
        *defense_pm = *defense_pm - effect.defense_pm as i32;
        false
    }
}

/// The stock spell table.
pub open spec fn spec_default_spells() -> Seq<SpellInfo> {
    seq![
        SpellInfo {
            drop_permille: 800,
            cooldown: TickTimer {
                duration_ms: 2000,
                elapsed_ms: 0,
                repeating: false,
                paused: false,
                finished: false,
            },
            spell: Spell::Damage(
                DamageSpellInfo { strikes: 2, delta_ms: 100, damage: 5, chance_pm: 1000 },
            ),
        },
        SpellInfo {
            drop_permille: 700,
            cooldown: TickTimer {
                duration_ms: 5000,
                elapsed_ms: 0,
                repeating: false,
                paused: false,
                finished: false,
            },
            spell: Spell::Damage(
                DamageSpellInfo { strikes: 1, delta_ms: 0, damage: 10, chance_pm: 1000 },
            ),
        },
        SpellInfo {
            drop_permille: 100,
            cooldown: TickTimer {
                duration_ms: 15000,
                elapsed_ms: 0,
                repeating: false,
                paused: false,
                finished: false,
            },
            spell: Spell::Damage(
                DamageSpellInfo { strikes: 1, delta_ms: 0, damage: 100, chance_pm: 500 },
            ),
        },
        SpellInfo {
            drop_permille: 200,
            cooldown: TickTimer {
                duration_ms: 10000,
                elapsed_ms: 0,
                repeating: false,
                paused: false,
                finished: false,
            },
            spell: Spell::Heal(HealSpellInfo { heal: 10 }),
        },
        SpellInfo {
            drop_permille: 300,
            cooldown: TickTimer {
                duration_ms: 8000,
                elapsed_ms: 0,
                repeating: false,
                paused: false,
                finished: false,
            },
            spell: Spell::PlayerAttackUp(
                PlayerAttackUpSpellInfo { duration_ms: 2000, attack: 10 },
            ),
        },
        SpellInfo {
            drop_permille: 300,
            cooldown: TickTimer {
                duration_ms: 8000,
                elapsed_ms: 0,
                repeating: false,
                paused: false,
                finished: false,
            },
            spell: Spell::PlayerDefenseUp(
                PlayerDefenseUpSpellInfo { duration_ms: 2000, defense_pm: 100 },
            ),
        },
        SpellInfo {
            drop_permille: 300,
            cooldown: TickTimer {
                duration_ms: 5000,
                elapsed_ms: 0,
                repeating: false,
                paused: false,
                finished: false,
            },
            spell: Spell::EnemyDefenseDown(
                EnemyDefenseDownSpellInfo { duration_ms: 2000, defense_pm: 100 },
            ),
        },
    ]
}

/// Builds the stock spell table: marker volley, keyboard slam, layoff
/// punch, lunchbox heal, excel attack buff, standup defense buff and
/// powerpoint defense debuff.
pub fn default_spells() -> (r: Spells)
    ensures
        r@ == spec_default_spells(),
        r.wf(),
{
    let mut infos: Vec<SpellInfo> = Vec::new();
    infos.push(
        SpellInfo {
            drop_permille: 800,
            cooldown: TickTimer::new(2000, false),
            spell: Spell::Damage(
                DamageSpellInfo { strikes: 2, delta_ms: 100, damage: 5, chance_pm: 1000 },
            ),
        },
    );
    infos.push(
        SpellInfo {
            drop_permille: 700,
            cooldown: TickTimer::new(5000, false),
            spell: Spell::Damage(
                DamageSpellInfo { strikes: 1, delta_ms: 0, damage: 10, chance_pm: 1000 },
            ),
        },
    );
    infos.push(
        SpellInfo {
            drop_permille: 100,
            cooldown: TickTimer::new(15000, false),
            spell: Spell::Damage(
                DamageSpellInfo { strikes: 1, delta_ms: 0, damage: 100, chance_pm: 500 },
            ),
        },
    );
    infos.push(
        SpellInfo {
            drop_permille: 200,
            cooldown: TickTimer::new(10000, false),
            spell: Spell::Heal(HealSpellInfo { heal: 10 }),
        },
    );
    infos.push(
        SpellInfo {
            drop_permille: 300,
            cooldown: TickTimer::new(8000, false),
            spell: Spell::PlayerAttackUp(
                PlayerAttackUpSpellInfo { duration_ms: 2000, attack: 10 },
            ),
        },
    );
    infos.push(
        SpellInfo {
            drop_permille: 300,
            cooldown: TickTimer::new(8000, false),
            spell: Spell::PlayerDefenseUp(
                PlayerDefenseUpSpellInfo { duration_ms: 2000, defense_pm: 100 },
            ),
        },
    );
    infos.push(
        SpellInfo {
            drop_permille: 300,
            cooldown: TickTimer::new(5000, false),
            spell: Spell::EnemyDefenseDown(
                EnemyDefenseDownSpellInfo { duration_ms: 2000, defense_pm: 100 },
            ),
        },
    );
    assert(infos@ =~= spec_default_spells());
    Spells::new(infos)
}

} // verus!
