use vstd::prelude::*;

verus! {

/// Render layer of the background, the map and what lies on it.
pub const BASE_LAYER: usize = 0;

/// Render layer of the player and what the player carries.
pub const PLAYER_LAYER: usize = 1;

/// Render layer of the in-game HUD.
pub const OVERLAY_LAYER: usize = 2;

/// Render layer of the menu, game over and victory screens.
pub const MENU_UI_LAYER: usize = 3;

/// Number of enemy waves in a game; finishing the last one wins the game.
pub const NUMBER_OF_WAVES: usize = 5;

/// Number of game levels that have a background and a boss.
pub const NUMBER_OF_LEVELS: usize = 7;

/// Width in pixels of the background texture at scale one.
pub const BACKGROUND_TEXTURE_WIDTH_PX: u32 = 1920;

/// Height in pixels of the background texture at scale one.
pub const BACKGROUND_TEXTURE_HEIGHT_PX: u32 = 1080;

/// Health points of the player when a game starts.
pub const PLAYER_HEALTH: u32 = 1000;

/// Mana points of the player when a game starts.
pub const PLAYER_MANA: u32 = 100;

/// Armor of the player when a game starts.
pub const PLAYER_ARMOR: u32 = 0;

/// Movement speed of the player when a game starts.
pub const PLAYER_MOVE_SPEED: u32 = 150;

/// Damage of the ammo that the player's first weapon shoots.
pub const AMMO_DAMAGE: u32 = 10;

/// Seconds of play that each wave number is worth when the countdown is reset.
pub const SECONDS_PER_WAVE: u16 = 30;

/// Source of the sprite shown in the weapon slot of the HUD when a game starts.
pub const DEFAULT_WEAPON_SPRITE_SOURCE: &'static str = "textures/Weapon/Bow.png";

/// The two kinds of weapons.
#[derive(PartialEq, Eq, Structural, Clone, Copy, Debug)]
pub enum WeaponTypeEnum {
    Bow,
    Wand,
}

impl Default for WeaponTypeEnum {
    fn default() -> (w: Self)
        ensures
            w == WeaponTypeEnum::Bow,
    {
        WeaponTypeEnum::Bow
    }
}

/// The classes of enemies, bosses included.
#[derive(PartialEq, Eq, Structural, Clone, Copy, Debug)]
pub enum EnemyClassEnum {
    Orc,
    Mage,
    BossOrc,
    BossMage,
    BossAlien,
}

/// The kinds of powers the player can be equipped with.
#[derive(PartialEq, Eq, Structural, Clone, Copy, Debug)]
pub enum PowerTypeEnum {
    Explosions,
    CircleOfDeath,
    Laser,
}

/// When a spawned power stops acting.
#[derive(PartialEq, Eq, Structural, Clone, Copy, Debug)]
pub enum StoppingCondition {
    Instances,
    Limit,
    ScreenBounces,
}

impl Default for StoppingCondition {
    fn default() -> (s: Self)
        ensures
            s == StoppingCondition::Instances,
    {
        StoppingCondition::Instances
    }
}

/// Which player statistic an item raises.
#[derive(PartialEq, Eq, Structural, Clone, Copy, Debug)]
pub enum ItemStatsType {
    Speed,
    Armor,
    Shield,
}

impl Default for ItemStatsType {
    fn default() -> (s: Self)
        ensures
            s == ItemStatsType::Speed,
    {
        ItemStatsType::Speed
    }
}

/// The kind of protection a shield gives.
#[derive(PartialEq, Eq, Structural, Clone, Copy, Debug)]
pub enum ShieldType {
    Physical,
    Magical,
}

impl Default for ShieldType {
    fn default() -> (s: Self)
        ensures
            s == ShieldType::Physical,
    {
        ShieldType::Physical
    }
}

/// Who carries a weapon or ammo.
#[derive(PartialEq, Eq, Structural, Clone, Copy, Debug)]
pub enum EquippedTypeEnum {
    Player,
    Enemy,
}

/// The kind of an item or buff, without its statistics.
#[derive(PartialEq, Eq, Structural, Clone, Copy, Debug)]
pub enum ItemKind {
    Speed,
    Armor,
    Shield,
    Health,
}

/// What the market sells.
#[derive(PartialEq, Eq, Structural, Clone, Copy, Debug)]
pub enum MarketTypes {
    Weapon(WeaponTypeEnum),
}

/// The keys that trigger the player's powers.
#[derive(PartialEq, Eq, Structural, Clone, Copy, Debug)]
pub enum PowerKey {
    KeyH,
    KeyJ,
    KeyL,
}

} // verus!
