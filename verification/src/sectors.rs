//! The clock face: a fixed ring of eight sectors, each with four spawn
//! slots, an independent spawn timer with random jitter, and a theme that
//! picks which enemies and chests can appear. Also tracks the player's
//! progress around the ring in completed cycles.

use vstd::prelude::*;

use crate::chests::{ChestIdx, ChestInfo, Chests};
use crate::enemy::{spawn_enemy, Enemies, Enemy, EnemyIdx, EnemyInfo};
use crate::rng::{rng_step, roll_below_output, GameRng};
use crate::timer::{spec_tick, TickTimer};

verus! {

/// How many sectors the ring has.
pub const SECTORS_NUM: u8 = 8;

/// How many spawn slots each sector has.
pub const SECTOR_THINGS: usize = 4;

/// Completing this many cycles triggers the final boss.
pub const MAX_CYCLES: u8 = 8;

/// Index into the sector-theme table.
#[derive(Debug, Clone, Copy, PartialEq, Eq, Structural)]
pub struct SectorIdx(pub usize);

/// What occupies a spawn slot.
#[derive(Debug, Clone, Copy, PartialEq, Eq, Structural)]
pub enum SlotType {
    Enemy,
    Item,
}

/// The sector a point on the circle lies in, the full turn being measured
/// in thousandths: each sector covers an equal eighth of the turn.
pub open spec fn spec_position_to_sector(turn_permille: u32) -> u8 {
    ((turn_permille * (SECTORS_NUM as int)) / 1000) as u8
}

/// Maps a position on the circle, given as thousandths of a full turn from
/// the top, to the sector it lies in.
pub fn position_to_sector_position(turn_permille: u32) -> (r: u8)
    requires
        turn_permille < 1000,
    ensures
        r == spec_position_to_sector(turn_permille),
        r < SECTORS_NUM,
{
    proof {
        assert(turn_permille * (SECTORS_NUM as int) / 1000 < SECTORS_NUM) by (nonlinear_arith)
            requires
                turn_permille < 1000,
        ;
    }
    ((turn_permille as u64 * SECTORS_NUM as u64) / 1000) as u8
}

/// The sector after `section_id`, wrapping around the ring.
pub open spec fn spec_next_sector(section_id: u8) -> u8 {
    if section_id == SECTORS_NUM - 1 {
        0u8
    } else {
        (section_id + 1) as u8
    }
}

/// The sector the player reaches next, walking the ring clockwise.
pub fn next_section_position(section_id: u8) -> (r: u8)
    requires
        section_id < SECTORS_NUM,
    ensures
        r == spec_next_sector(section_id),
        r < SECTORS_NUM,
{
    if section_id == SECTORS_NUM - 1 {
        0
    } else {
        section_id + 1
    }
}

/// Walks the player clockwise around the circle: the position, in
/// thousandths of a full turn, advanced by a speed given in thousandths of
/// a turn per second, wrapping at a full turn.
pub fn advance_position(turn_permille: u32, speed_pm_per_s: u32, delta_ms: u32) -> (r: u32)
    requires
        turn_permille < 1000,
        speed_pm_per_s <= 1000000,
    ensures
        r == (turn_permille + speed_pm_per_s * delta_ms / 1000) % 1000,
        r < 1000,
{
    proof {
        assert(speed_pm_per_s as int * delta_ms as int <= 1000000int * u32::MAX as int)
            by (nonlinear_arith)
            requires
                speed_pm_per_s <= 1000000,
                delta_ms <= u32::MAX,
        ;
    }
    let step: u64 = speed_pm_per_s as u64 * delta_ms as u64 / 1000;
    ((turn_permille as u64 + step) % 1000) as u32
}

/// The player's progress around the ring: completed cycles and the sector
/// the player was last seen in.
#[derive(Debug, Clone, Copy, PartialEq, Eq, Structural)]
pub struct PlayerProgress {
    pub cycles: u8,
    pub player_last_sector: u8,
}

impl PlayerProgress {
    /// Progress at the start of a run.
    pub fn new() -> (r: PlayerProgress)
        ensures
            r == (PlayerProgress { cycles: 0u8, player_last_sector: 0u8 }),
    {
        PlayerProgress { cycles: 0, player_last_sector: 0 }
    }

    /// Notes the sector the player stands in. Stepping into the top sector
    /// from elsewhere completes a cycle; the update reports whether that
    /// completion was the final one.
    pub fn update(&mut self, sector_id: u8) -> (last_cycle: bool)
        requires
            old(self).cycles < 255,
        ensures
            final(self).player_last_sector == if sector_id != old(self).player_last_sector {
                sector_id
            } else {
                old(self).player_last_sector
            },
            final(self).cycles == if sector_id != old(self).player_last_sector && sector_id == 0 {
                old(self).cycles + 1
            } else {
                old(self).cycles as int
            },
            last_cycle == (sector_id != old(self).player_last_sector && sector_id == 0
                && old(self).cycles + 1 == MAX_CYCLES),
    {
        let mut last_cycle = false;
        if sector_id != self.player_last_sector {
            if sector_id == 0 {
                self.cycles = self.cycles + 1;
                if self.cycles == MAX_CYCLES {
                    last_cycle = true;
                }
            }
            self.player_last_sector = sector_id;
        }
        last_cycle
    }
}

/// The first free slot of `s`, scanning from the front.
pub open spec fn spec_first_empty_from(s: Seq<Option<SlotType>>, i: int) -> Option<int>
    decreases s.len() - i,
{
    if i < 0 || i >= s.len() {
        None
    } else if s[i] is None {
        Some(i)
    } else {
        spec_first_empty_from(s, i + 1)
    }
}

/// The first free slot of `s`.
pub open spec fn spec_first_empty(s: Seq<Option<SlotType>>) -> Option<int> {
    spec_first_empty_from(s, 0)
}

/// The occupancy of one sector's spawn slots. Each slot holds at most one
/// occupant: it is either free or taken by a single [`SlotType`].
pub struct SectorSlots {
    slots: Vec<Option<SlotType>>,
}

impl SectorSlots {
    /// The slots in order.
    pub closed spec fn view(&self) -> Seq<Option<SlotType>> {
        self.slots@
    }

    /// A sector always has exactly [`SECTOR_THINGS`] slots.
    pub open spec fn wf(&self) -> bool {
        self@.len() == SECTOR_THINGS
    }

    /// All slots free.
    pub fn new() -> (r: SectorSlots)
        ensures
            r.wf(),
            forall|i: int| 0 <= i < SECTOR_THINGS ==> r@[i] is None,
    {
        let mut slots: Vec<Option<SlotType>> = Vec::new();
        slots.push(None);
        slots.push(None);
        slots.push(None);
        slots.push(None);
        SectorSlots { slots }
    }

    /// How many slots the sector has.
    pub fn capacity(&self) -> (r: usize)
        ensures
            r == self@.len(),
    {
        self.slots.len()
    }

    /// The occupant of `position`, if any.
    pub fn get(&self, position: usize) -> (r: Option<SlotType>)
        requires
            position < self@.len(),
        ensures
            r == self@[position as int],
    {
        self.slots[position]
    }

    /// The first free slot, if the sector has one.
    pub fn first_empty(&self) -> (r: Option<usize>)
        ensures
            match r {
                Some(p) => spec_first_empty(self@) == Some(p as int) && p < self@.len()
                    && self@[p as int] is None,
                None => spec_first_empty(self@) is None,
            },
    {
        let n = self.slots.len();
        let mut i: usize = 0;
        while i < n
            invariant
                i <= n,
                n == self@.len(),
                spec_first_empty(self@) == spec_first_empty_from(self@, i as int),
            decreases n - i,
        {
            if self.slots[i].is_none() {
                return Some(i);
            }
            i = i + 1;
        }
        None
    }

    /// Fills the free slot at `position` with a single occupant.
    pub fn occupy(&mut self, position: usize, kind: SlotType)
        requires
            position < old(self)@.len(),
            old(self)@[position as int] is None,
        ensures
            final(self)@ == old(self)@.update(position as int, Some(kind)),
    {
        self.slots[position] = Some(kind);
    }

    /// Despawns the occupant of `position`: the slot is free afterwards and
    /// every other slot keeps its occupant.
    pub fn free(&mut self, position: usize)
        requires
            position < old(self)@.len(),
        ensures
            final(self)@ == old(self)@.update(position as int, None::<SlotType>),
            final(self)@[position as int] is None,
    {
        self.slots[position] = None;
    }
}

/// Largest loot or spawn list a table entry may carry.
pub const MAX_TABLE: usize = 1000;

/// One sector theme: its loot-drop gate in thousandths and which enemies
/// and chests can appear in a sector of this theme.
#[derive(Debug, Clone)]
pub struct SectorInfo {
    pub drop_permille: u32,
    pub enemies: Vec<EnemyIdx>,
    pub chests: Vec<ChestIdx>,
}

impl SectorInfo {
    /// Rates are per-mille and every listed index points into its table.
    pub open spec fn wf(&self, enemies_len: nat, chests_len: nat) -> bool {
        &&& self.drop_permille <= 1000
        &&& self.enemies@.len() <= MAX_TABLE
        &&& self.chests@.len() <= MAX_TABLE
        &&& forall|i: int|
            0 <= i < self.enemies@.len() ==> (#[trigger] self.enemies@[i]).0 < enemies_len
        &&& forall|i: int|
            0 <= i < self.chests@.len() ==> (#[trigger] self.chests@[i]).0 < chests_len
    }
}

/// The sector-theme table, indexed by [`SectorIdx`].
pub struct Sectors {
    infos: Vec<SectorInfo>,
}

impl Sectors {
    /// The table entries in order.
    pub closed spec fn view(&self) -> Seq<SectorInfo> {
        self.infos@
    }

    /// Every entry is well formed against the enemy and chest tables.
    pub open spec fn wf(&self, enemies_len: nat, chests_len: nat) -> bool {
        forall|i: int| 0 <= i < self@.len() ==> (#[trigger] self@[i]).wf(enemies_len, chests_len)
    }

    /// A table from the given entries.
    pub fn new(infos: Vec<SectorInfo>) -> (r: Sectors)
        ensures
            r@ == infos@,
    {
        Sectors { infos }
    }

    /// How many themes the table holds.
    pub fn len(&self) -> (r: usize)
        ensures
            r == self@.len(),
    {
        self.infos.len()
    }

    /// The entry behind `idx`.
    pub fn index(&self, idx: SectorIdx) -> (r: &SectorInfo)
        requires
            idx.0 < self@.len(),
        ensures
            *r == self@[idx.0 as int],
    {
        &self.infos[idx.0]
    }
}

/// The stock sector-theme table: grey walls, green zebras, bright yellow,
/// bottle-glass grey and shroom brown.
pub fn default_sectors() -> (r: Sectors)
    ensures
        r@.len() == 5,
        r@[0].drop_permille == 200,
        r@[1].drop_permille == 400,
        r@[2].drop_permille == 300,
        r@[3].drop_permille == 200,
        r@[4].drop_permille == 200,
        r@[0].enemies@ == seq![EnemyIdx(1)],
        r@[1].enemies@ == seq![EnemyIdx(1), EnemyIdx(3)],
        r@[2].enemies@ == seq![EnemyIdx(1), EnemyIdx(3)],
        r@[3].enemies@ == seq![EnemyIdx(2), EnemyIdx(3)],
        r@[4].enemies@ == seq![EnemyIdx(2), EnemyIdx(4)],
        r@[0].chests@ == seq![ChestIdx(0)],
        r@[1].chests@ == seq![ChestIdx(1)],
        r@[2].chests@ == seq![ChestIdx(2)],
        r@[3].chests@ == seq![ChestIdx(3)],
        r@[4].chests@ == seq![ChestIdx(4)],
        r.wf(5, 5),
{
    let mut infos: Vec<SectorInfo> = Vec::new();
    infos.push(
        SectorInfo { drop_permille: 200, enemies: vec![EnemyIdx(1)], chests: vec![ChestIdx(0)] },
    );
    infos.push(
        SectorInfo {
            drop_permille: 400,
            enemies: vec![EnemyIdx(1), EnemyIdx(3)],
            chests: vec![ChestIdx(1)],
        },
    );
    infos.push(
        SectorInfo {
            drop_permille: 300,
            enemies: vec![EnemyIdx(1), EnemyIdx(3)],
            chests: vec![ChestIdx(2)],
        },
    );
    infos.push(
        SectorInfo {
            drop_permille: 200,
            enemies: vec![EnemyIdx(2), EnemyIdx(3)],
            chests: vec![ChestIdx(3)],
        },
    );
    infos.push(
        SectorInfo {
            drop_permille: 200,
            enemies: vec![EnemyIdx(2), EnemyIdx(4)],
            chests: vec![ChestIdx(4)],
        },
    );
    Sectors::new(infos)
}

/// A fresh sector spawn timer: a repeating countdown of one to two seconds,
/// the jitter drawn from the roll generator.
pub fn random_sector_timer(rng: &mut GameRng) -> (r: TickTimer)
    ensures
        final(rng)@ == rng_step(old(rng)@),
        r == (TickTimer {
            duration_ms: (1000 + roll_below_output(old(rng)@, 1000)) as u32,
            elapsed_ms: 0,
            repeating: true,
            paused: false,
            finished: false,
        }),
        r.wf(),
{
    let jitter = rng.roll_below(1000);
    TickTimer::new(1000 + jitter, true)
}

/// Law of occupancy: filling a free slot and despawning its occupant leaves
/// the sector exactly as it was; in particular a despawned slot is free
/// again and no other slot ever changed hands.
pub proof fn lemma_occupy_then_free_restores(
    s: Seq<Option<SlotType>>,
    position: int,
    kind: SlotType,
)
    requires
        0 <= position < s.len(),
        s[position] is None,
    ensures
        s.update(position, Some(kind)).update(position, None::<SlotType>) == s,
{
    assert(s.update(position, Some(kind)).update(position, None::<SlotType>) =~= s);
}

/// One sector of the live ring: its theme, its place on the clock, its
/// spawn timer and its slot occupancy.
pub struct SectorState {
    pub sector_idx: SectorIdx,
    pub position: u8,
    pub timer: TickTimer,
    pub slots: SectorSlots,
}

impl SectorState {
    /// The timer and slots are well formed and the sector sits on the ring.
    pub open spec fn wf(&self) -> bool {
        &&& self.timer.wf()
        &&& self.slots.wf()
        &&& self.position < SECTORS_NUM
    }
}

/// What a finished spawn roll puts into a sector slot.
#[derive(Debug, Clone, Copy, PartialEq, Eq, Structural)]
pub enum SpawnedThing {
    Enemy(EnemyIdx),
    Chest(ChestIdx),
}

/// The enemy half of a spawn roll: pick one entry of the sector's enemy
/// list uniformly, then gate it by that enemy's spawn probability. Two
/// rolls are consumed; an empty list consumes none.
pub open spec fn spec_enemy_roll(list: Seq<EnemyIdx>, enemies: Seq<EnemyInfo>, r0: u64) -> (
    Option<EnemyIdx>,
    u64,
) {
    if list.len() == 0 {
        (None::<EnemyIdx>, r0)
    } else {
        let idx = list[roll_below_output(r0, list.len() as u32) as int];
        let r1 = rng_step(r0);
        let gate = roll_below_output(r1, 1000);
        (
            if gate < enemies[idx.0 as int].spawn_permille {
                Some(idx)
            } else {
                None::<EnemyIdx>
            },
            rng_step(r1),
        )
    }
}

/// The chest half of a spawn roll, shaped like the enemy half.
pub open spec fn spec_chest_roll(list: Seq<ChestIdx>, chests: Seq<ChestInfo>, r0: u64) -> (
    Option<ChestIdx>,
    u64,
) {
    if list.len() == 0 {
        (None::<ChestIdx>, r0)
    } else {
        let idx = list[roll_below_output(r0, list.len() as u32) as int];
        let r1 = rng_step(r0);
        let gate = roll_below_output(r1, 1000);
        (
            if gate < chests[idx.0 as int].spawn_permille {
                Some(idx)
            } else {
                None::<ChestIdx>
            },
            rng_step(r1),
        )
    }
}

/// One frame of a sector, exactly as [`sector_tick`] resolves it: the timer
/// after the tick, the slots after any spawn, the generator state, and what
/// spawned where. Nothing spawns in the player's sector or the next one,
/// before the timer completes, or when no slot is free; otherwise the enemy
/// and chest rolls run and a coin breaks a tie between them.
pub open spec fn spec_sector_tick(
    timer: TickTimer,
    slots: Seq<Option<SlotType>>,
    position: u8,
    info: SectorInfo,
    enemies: Seq<EnemyInfo>,
    chests: Seq<ChestInfo>,
    player_sector: u8,
    r0: u64,
    delta_ms: u32,
) -> (TickTimer, Seq<Option<SlotType>>, u64, Option<(int, SpawnedThing)>) {
    let t1 = spec_tick(timer, delta_ms);
    if position == player_sector || position == spec_next_sector(player_sector) {
        (t1, slots, r0, None::<(int, SpawnedThing)>)
    } else if !t1.finished {
        (t1, slots, r0, None::<(int, SpawnedThing)>)
    } else {
        match spec_first_empty(slots) {
            None => (t1, slots, r0, None::<(int, SpawnedThing)>),
            Some(pos) => {
                let (enemy_pick, r1) = spec_enemy_roll(info.enemies@, enemies, r0);
                let (chest_pick, r2) = spec_chest_roll(info.chests@, chests, r1);
                match (enemy_pick, chest_pick) {
                    (Some(e), Some(c)) => {
                        let coin = roll_below_output(r2, 2);
                        let r3 = rng_step(r2);
                        if coin == 0 {
                            (
                                t1,
                                slots.update(pos, Some(SlotType::Enemy)),
                                r3,
                                Some((pos, SpawnedThing::Enemy(e))),
                            )
                        } else {
                            (
                                t1,
                                slots.update(pos, Some(SlotType::Item)),
                                r3,
                                Some((pos, SpawnedThing::Chest(c))),
                            )
                        }
                    },
                    (Some(e), None) => (
                        t1,
                        slots.update(pos, Some(SlotType::Enemy)),
                        r2,
                        Some((pos, SpawnedThing::Enemy(e))),
                    ),
                    (None, Some(c)) => (
                        t1,
                        slots.update(pos, Some(SlotType::Item)),
                        r2,
                        Some((pos, SpawnedThing::Chest(c))),
                    ),
                    (None, None) => (t1, slots, r2, None::<(int, SpawnedThing)>),
                }
            },
        }
    }
}

/// Advances one sector by one frame: ticks its spawn timer and, when the
/// timer completes away from the player with a slot free, rolls for an
/// enemy and a chest and spawns the winner into the first free slot. The
/// returned pair names the filled slot and its new occupant.
pub fn sector_tick(
    state: &mut SectorState,
    sectors: &Sectors,
    enemies: &Enemies,
    chests: &Chests,
    player_sector: u8,
    rng: &mut GameRng,
    delta_ms: u32,
) -> (r: Option<(usize, SpawnedThing)>)
    requires
        old(state).wf(),
        old(state).sector_idx.0 < sectors@.len(),
        sectors.wf(enemies@.len(), chests@.len()),
        player_sector < SECTORS_NUM,
    ensures
        final(state).wf(),
        final(state).sector_idx == old(state).sector_idx,
        final(state).position == old(state).position,
        ({
            let (t1, slots1, r1, spawn) = spec_sector_tick(
                old(state).timer,
                old(state).slots@,
                old(state).position,
                sectors@[old(state).sector_idx.0 as int],
                enemies@,
                chests@,
                player_sector,
                old(rng)@,
                delta_ms,
            );
            &&& final(state).timer == t1
            &&& final(state).slots@ == slots1
            &&& final(rng)@ == r1
            &&& (match (r, spawn) {
                (Some((p, th)), Some((sp, sth))) => p == sp && th == sth,
                (None, None) => true,
                _ => false,
            })
        }),
{
    state.timer.tick(delta_ms);
    if state.position == player_sector || state.position == next_section_position(player_sector) {
        return None;
    }
    if !state.timer.finished() {
        return None;
    }
    let empty = state.slots.first_empty();
    let pos = match empty {
        None => {
            return None;
        },
        Some(p) => p,
    };
    let info = sectors.index(state.sector_idx);
    let enemy_pick: Option<EnemyIdx> = if info.enemies.len() > 0 {
        let pick = rng.roll_below(info.enemies.len() as u32) as usize;
        let eidx = info.enemies[pick];
        let gate = rng.roll_permille();
        if gate < enemies.index(eidx).spawn_permille {
            Some(eidx)
        } else {
            None
        }
    } else {
        None
    };
    let chest_pick: Option<ChestIdx> = if info.chests.len() > 0 {
        let pick = rng.roll_below(info.chests.len() as u32) as usize;
        let cidx = info.chests[pick];
        let gate = rng.roll_permille();
        if gate < chests.index(cidx).spawn_permille {
            Some(cidx)
        } else {
            None
        }
    } else {
        None
    };
    match (enemy_pick, chest_pick) {
        (Some(e), Some(c)) => {
            let coin = rng.roll_below(2);
            if coin == 0 {
                state.slots.occupy(pos, SlotType::Enemy);
                Some((pos, SpawnedThing::Enemy(e)))
            } else {
                state.slots.occupy(pos, SlotType::Item);
                Some((pos, SpawnedThing::Chest(c)))
            }
        },
        (Some(e), None) => {
            state.slots.occupy(pos, SlotType::Enemy);
            Some((pos, SpawnedThing::Enemy(e)))
        },
        (None, Some(c)) => {
            state.slots.occupy(pos, SlotType::Item);
            Some((pos, SpawnedThing::Chest(c)))
        },
        (None, None) => None,
    }
}

/// The last-cycle slots: every enemy despawns from the final sector while
/// chests stay where they are.
pub open spec fn spec_boss_cleared_slots(slots: Seq<Option<SlotType>>) -> Seq<Option<SlotType>> {
    Seq::new(
        slots.len(),
        |i: int|
            if slots[i] == Some(SlotType::Enemy) {
                None::<SlotType>
            } else {
                slots[i]
            },
    )
}

/// The final cycle begins: in the last sector every enemy despawns (each
/// freed slot forgetting its occupant), the spawn timer restarts paused so
/// nothing else appears, and the big boss spawns there at base difficulty.
pub fn on_last_cycle_event(state: &mut SectorState, enemies: &Enemies) -> (boss: Enemy)
    requires
        old(state).wf(),
        old(state).position == SECTORS_NUM - 1,
        enemies.wf(),
        enemies@.len() > 0,
    ensures
        final(state).wf(),
        final(state).sector_idx == old(state).sector_idx,
        final(state).position == old(state).position,
        final(state).slots@ == spec_boss_cleared_slots(old(state).slots@),
        final(state).timer == (TickTimer {
            elapsed_ms: 0,
            finished: false,
            paused: true,
            ..old(state).timer
        }),
        boss == crate::enemy::spec_spawn_enemy(enemies@[0], EnemyIdx(0), 1000, true),
        boss.combatant.wf(),
{
    let n = state.slots.capacity();
    let mut i: usize = 0;
    while i < n
        invariant
            i <= n,
            n == state.slots@.len(),
            state.slots@.len() == old(state).slots@.len(),
            state.sector_idx == old(state).sector_idx,
            state.position == old(state).position,
            state.timer == old(state).timer,
            old(state).wf(),
            forall|j: int| i <= j < n ==> #[trigger] state.slots@[j] == old(state).slots@[j],
            forall|j: int|
                0 <= j < i ==> #[trigger] state.slots@[j] == spec_boss_cleared_slots(
                    old(state).slots@,
                )[j],
        decreases n - i,
    {
        let here = state.slots.get(i);
        match here {
            Some(SlotType::Enemy) => {
                state.slots.free(i);
            },
            _ => {},
        }
        i = i + 1;
    }
    proof {
        assert(state.slots@ =~= spec_boss_cleared_slots(old(state).slots@));
    }
    state.timer.reset();
    state.timer.pause();
    spawn_enemy(enemies, EnemyIdx(0), 0, true)
}

} // verus!
