use vstd::prelude::*;

use crate::config::{ItemKind, PowerKey, PowerTypeEnum};

verus! {

/// The player has been spawned and the wave can be populated.
#[derive(PartialEq, Eq, Structural, Clone, Copy, Debug)]
pub struct PlayerSpawned;

/// No enemy of the current wave is left.
#[derive(PartialEq, Eq, Structural, Clone, Copy, Debug)]
pub struct AllEnemiesDied;

/// The current wave number was raised.
#[derive(PartialEq, Eq, Structural, Clone, Copy, Debug)]
pub struct CurrentWaveChanged;

/// The countdown changed and its text must be redrawn.
#[derive(PartialEq, Eq, Structural, Clone, Copy, Debug)]
pub struct CurrentTimeChanged;

/// The player profile in the HUD must be given full health and mana bars.
#[derive(PartialEq, Eq, Structural, Clone, Copy, Debug)]
pub struct PlayerProfileUISet;

/// The player is given the power of the current wave.
#[derive(PartialEq, Eq, Structural, Clone, Copy, Debug)]
pub struct PowerFound;

/// Every spawned instance of a power of this kind that the player does not carry goes away.
#[derive(PartialEq, Eq, Structural, Clone, Copy, Debug)]
pub struct DespawnPower(pub PowerTypeEnum);

/// The power list of the HUD must show a power the player was just given.
#[derive(PartialEq, Eq, Structural, Clone, Copy, Debug)]
pub struct OnUpdatePowerUI {
    pub power_type: PowerTypeEnum,
    pub keycode: PowerKey,
}

/// A health pack may be dropped on the map.
#[derive(PartialEq, Eq, Structural, Clone, Copy, Debug)]
pub struct MaybeSpawnEnergyPack;

/// The player lost: health or time ran out.
#[derive(PartialEq, Eq, Structural, Clone, Copy, Debug)]
pub struct GameOver;

/// A button asked for a new game.
#[derive(PartialEq, Eq, Structural, Clone, Copy, Debug)]
pub struct RestartGame;

/// A buff of a kind that the HUD does not show yet must be added to it.
#[derive(PartialEq, Eq, Structural, Clone, Copy, Debug)]
pub struct BuffUIAdd {
    pub item_kind: ItemKind,
}

/// A buff of this kind expired and the HUD must show one less of it.
#[derive(PartialEq, Eq, Structural, Clone, Copy, Debug)]
pub struct BuffUIRemove {
    pub item_kind: ItemKind,
}

/// Points added to the score.
#[derive(PartialEq, Eq, Structural, Clone, Copy, Debug)]
pub enum ScorePoints {
    /// No points: the score display is only refreshed.
    Zero,
    /// The bonus for the seconds left on the countdown when a wave is cleared.
    TimeLeft { seconds: u16 },
}

/// The events that the game's decisions trigger, in the order they are triggered.
#[derive(PartialEq, Eq, Structural, Clone, Copy, Debug)]
pub enum GameEvent {
    PlayerSpawned(PlayerSpawned),
    AllEnemiesDied(AllEnemiesDied),
    CurrentWaveChanged(CurrentWaveChanged),
    CurrentTimeChanged(CurrentTimeChanged),
    PlayerProfileUISet(PlayerProfileUISet),
    PowerFound(PowerFound),
    DespawnPower(DespawnPower),
    OnUpdatePowerUI(OnUpdatePowerUI),
    MaybeSpawnEnergyPack(MaybeSpawnEnergyPack),
    GameOver(GameOver),
    RestartGame(RestartGame),
    BuffUIAdd(BuffUIAdd),
    BuffUIRemove(BuffUIRemove),
    /// The score grows by the given points.
    ScoreChanged(ScorePoints),
    /// The player's health is set back to `PLAYER_HEALTH`.
    PlayerHealthRestored,
}

} // verus!
