//! The run-level state machines: the game mode, the player's animation
//! state, proximity-triggered battle and pickup entry, pause handling, and
//! the player's starting stats.

use vstd::prelude::*;

use crate::battle::{Combatant, Health, RoundOutcome};
use crate::timer::TickTimer;

verus! {

/// In thousandths of a world unit: how close the player must stand to an
/// enemy or chest to engage it.
pub const INTERACTION_DISTANCE_MM: u32 = 30000;

/// Milliseconds between two player attacks.
pub const PLAYER_ATTACK_PERIOD_MS: u32 = 500;

/// The player's starting hit points.
pub const PLAYER_START_HP: u32 = 100;

/// The player's starting base damage.
pub const PLAYER_START_DAMAGE: u32 = 5;

/// The mode the run is in.
#[derive(Debug, Clone, Copy, PartialEq, Eq, Structural)]
pub enum GameState {
    Preparing,
    Running,
    Pickup,
    Battle,
    Paused,
    Win,
    GameOver,
}

/// The player's animation state.
#[derive(Debug, Clone, Copy, PartialEq, Eq, Structural)]
pub enum PlayerState {
    Idle,
    Run,
    Attack,
    Dead,
}

/// The player's starting battle stats: full health, base damage, no
/// defense, and a fresh half-second attack cadence.
pub fn new_player() -> (r: Combatant)
    ensures
        r == (Combatant {
            health: Health { current: PLAYER_START_HP, max: PLAYER_START_HP },
            damage: PLAYER_START_DAMAGE,
            defense_pm: 0,
            attack: TickTimer {
                duration_ms: PLAYER_ATTACK_PERIOD_MS,
                elapsed_ms: 0,
                repeating: true,
                paused: false,
                finished: false,
            },
        }),
        r.wf(),
{
    Combatant {
        health: Health::new(PLAYER_START_HP),
        damage: PLAYER_START_DAMAGE,
        defense_pm: 0,
        attack: TickTimer::new(PLAYER_ATTACK_PERIOD_MS, true),
    }
}

/// The pause key toggles between the running mode and a pause that
/// remembers where it came from. Returns the mode to enter and the mode to
/// remember.
pub fn game_pause(current: GameState, remembered: GameState, pause_pressed: bool) -> (r: (
    GameState,
    GameState,
))
    ensures
        !pause_pressed ==> r == (current, remembered),
        pause_pressed && current == GameState::Paused ==> r == (remembered, remembered),
        pause_pressed && current != GameState::Paused ==> r == (GameState::Paused, current),
{
    if pause_pressed {
        if current == GameState::Paused {
            (remembered, remembered)
        } else {
            (GameState::Paused, current)
        }
    } else {
        (current, remembered)
    }
}

/// Whether standing `distance_mm` thousandths of a unit from something in
/// sector `other_sector` engages it: same sector, within reach.
pub fn within_interaction(player_sector: u8, other_sector: u8, distance_mm: u32) -> (r: bool)
    ensures
        r == (player_sector == other_sector && distance_mm < INTERACTION_DISTANCE_MM),
{
    player_sector == other_sector && distance_mm < INTERACTION_DISTANCE_MM
}

/// A roaming player meeting an enemy up close enters battle and stops to
/// fight; otherwise nothing changes.
pub fn initiate_battle(player_sector: u8, enemy_sector: u8, distance_mm: u32) -> (r: Option<
    (GameState, PlayerState),
>)
    ensures
        (player_sector == enemy_sector && distance_mm < INTERACTION_DISTANCE_MM) ==> r == Some(
            (GameState::Battle, PlayerState::Idle),
        ),
        !(player_sector == enemy_sector && distance_mm < INTERACTION_DISTANCE_MM) ==> r
            == None::<(GameState, PlayerState)>,
{
    if within_interaction(player_sector, enemy_sector, distance_mm) {
        Some((GameState::Battle, PlayerState::Idle))
    } else {
        None
    }
}

/// A roaming player meeting a chest up close stops to open it; otherwise
/// nothing changes.
pub fn initiate_pickup(player_sector: u8, chest_sector: u8, distance_mm: u32) -> (r: Option<
    (GameState, PlayerState),
>)
    ensures
        (player_sector == chest_sector && distance_mm < INTERACTION_DISTANCE_MM) ==> r == Some(
            (GameState::Pickup, PlayerState::Idle),
        ),
        !(player_sector == chest_sector && distance_mm < INTERACTION_DISTANCE_MM) ==> r
            == None::<(GameState, PlayerState)>,
{
    if within_interaction(player_sector, chest_sector, distance_mm) {
        Some((GameState::Pickup, PlayerState::Idle))
    } else {
        None
    }
}

/// The mode after a frame of battle: a beaten ordinary enemy resumes the
/// run, the beaten final boss wins it, a beaten player ends it, and
/// otherwise the battle goes on.
pub fn resolve_battle_outcome(outcome: RoundOutcome, enemy_is_boss: bool) -> (r: GameState)
    ensures
        outcome == RoundOutcome::EnemyDown && enemy_is_boss ==> r == GameState::Win,
        outcome == RoundOutcome::EnemyDown && !enemy_is_boss ==> r == GameState::Running,
        outcome == RoundOutcome::PlayerDown ==> r == GameState::GameOver,
        outcome == RoundOutcome::Continue ==> r == GameState::Battle,
{
    match outcome {
        RoundOutcome::EnemyDown => if enemy_is_boss {
            GameState::Win
        } else {
            GameState::Running
        },
        RoundOutcome::PlayerDown => GameState::GameOver,
        RoundOutcome::Continue => GameState::Battle,
    }
}

/// The mode after a battle frame reported the enemy dead.
pub fn battle_end_check(enemy_dead: bool, current: GameState) -> (r: GameState)
    ensures
        enemy_dead ==> r == GameState::Running,
        !enemy_dead ==> r == current,
{
    if enemy_dead {
        GameState::Running
    } else {
        current
    }
}

/// The mode after a pickup frame reported the chest opened.
pub fn pickup_end_check(chest_opened: bool, current: GameState) -> (r: GameState)
    ensures
        chest_opened ==> r == GameState::Running,
        !chest_opened ==> r == current,
{
    if chest_opened {
        GameState::Running
    } else {
        current
    }
}

} // verus!
