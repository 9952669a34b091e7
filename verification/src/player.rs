use vstd::prelude::*;

use crate::config::{AMMO_DAMAGE, PLAYER_ARMOR, PLAYER_HEALTH, PLAYER_MOVE_SPEED, WeaponTypeEnum};
use crate::events::{GameEvent, PlayerSpawned};
use crate::sprites::{Sprites, SpritesResources, get_sprites, is_game_sprite_table};
use crate::timer::{CurrentWave, TimePassed};

verus! {

/// Marks the player.
#[derive(PartialEq, Eq, Structural, Clone, Copy, Debug)]
pub struct Player;

/// What the player starts a game with.
#[derive(PartialEq, Eq, Structural, Clone, Copy, Debug)]
pub struct PlayerLoadout {
    pub marker: Player,
    pub health: u32,
    pub speed: u32,
    pub armor: u32,
    pub weapon: WeaponTypeEnum,
    pub weapon_damage: u32,
    pub ammo: WeaponTypeEnum,
}

/// The player of a new game: full health, base speed and armor, a bow loaded
/// with its ammo, and a full health bar; spawning the player starts the wave.
pub fn setup_player() -> (out: (PlayerLoadout, Vec<GameEvent>))
    ensures
        out.0 == (PlayerLoadout {
            marker: Player,
            health: PLAYER_HEALTH,
            speed: PLAYER_MOVE_SPEED,
            armor: PLAYER_ARMOR,
            weapon: WeaponTypeEnum::Bow,
            weapon_damage: AMMO_DAMAGE,
            ammo: WeaponTypeEnum::Bow,
        }),
        out.1@ == seq![GameEvent::PlayerSpawned(PlayerSpawned)],
{
    let loadout = PlayerLoadout {
        marker: Player,
        health: PLAYER_HEALTH,
        speed: PLAYER_MOVE_SPEED,
        armor: PLAYER_ARMOR,
        weapon: WeaponTypeEnum::Bow,
        weapon_damage: AMMO_DAMAGE,
        ammo: WeaponTypeEnum::default(),
    };
    let mut events: Vec<GameEvent> = Vec::new();
    events.push(GameEvent::PlayerSpawned(PlayerSpawned));
    (loadout, events)
}

/// The resources a game keeps from its start.
pub struct GameResources {
    pub current_wave: CurrentWave,
    pub time_passed: TimePassed,
    pub sprites: SpritesResources,
}

/// The resources of a game when it opens: the first wave, a minute on the
/// clock and the sprite table.
pub fn setup_resources() -> (resources: GameResources)
    ensures
        resources.current_wave == CurrentWave(1),
        resources.time_passed == (TimePassed { minutes: 1, seconds: 0 }),
        is_game_sprite_table(resources.sprites.0),
{
    GameResources {
        current_wave: CurrentWave(1),
        time_passed: TimePassed { minutes: 1, seconds: 0 },
        sprites: SpritesResources(get_sprites()),
    }
}

} // verus!
