use vstd::prelude::*;

use crate::config::{
    BACKGROUND_TEXTURE_HEIGHT_PX, BACKGROUND_TEXTURE_WIDTH_PX, NUMBER_OF_LEVELS, EnemyClassEnum,
    ItemKind, PowerKey, PowerTypeEnum, WeaponTypeEnum,
};
use crate::sprites::{RectangularDimensions, SpriteKind, Sprites, sprite_of};

verus! {

/// The sprite of the ammo a weapon shoots.
pub fn get_ammo_sprite_based_on_weapon_type(weapon_type: WeaponTypeEnum) -> (kind: SpriteKind)
    ensures
        kind == (match weapon_type {
            WeaponTypeEnum::Bow => SpriteKind::Arrow,
            WeaponTypeEnum::Wand => SpriteKind::MagicBall,
        }),
{
    match weapon_type {
        WeaponTypeEnum::Bow => SpriteKind::Arrow,
        WeaponTypeEnum::Wand => SpriteKind::MagicBall,
    }
}

/// The sprite of a weapon.
pub fn get_weapon_sprite_based_on_weapon_type(weapon_type: WeaponTypeEnum) -> (kind: SpriteKind)
    ensures
        kind == (match weapon_type {
            WeaponTypeEnum::Bow => SpriteKind::Bow,
            WeaponTypeEnum::Wand => SpriteKind::Wand,
        }),
{
    match weapon_type {
        WeaponTypeEnum::Bow => SpriteKind::Bow,
        WeaponTypeEnum::Wand => SpriteKind::Wand,
    }
}

/// The sprite of an item or buff.
pub open spec fn item_sprite(item: ItemKind) -> SpriteKind {
    match item {
        ItemKind::Speed => SpriteKind::Lightning,
        ItemKind::Armor => SpriteKind::Shield,
        ItemKind::Shield => SpriteKind::Diamond,
        ItemKind::Health => SpriteKind::HpPack,
    }
}

/// The sprite of an item or buff.
pub fn get_item_sprite_based_on_item_type(item_type: ItemKind) -> (kind: SpriteKind)
    ensures
        kind == item_sprite(item_type),
{
    match item_type {
        ItemKind::Speed => SpriteKind::Lightning,
        ItemKind::Armor => SpriteKind::Shield,
        ItemKind::Shield => SpriteKind::Diamond,
        ItemKind::Health => SpriteKind::HpPack,
    }
}

/// The sprite of a power.
pub open spec fn power_sprite(power_type: PowerTypeEnum) -> SpriteKind {
    match power_type {
        PowerTypeEnum::Explosions => SpriteKind::MineBomb,
        PowerTypeEnum::CircleOfDeath => SpriteKind::CircleOfDeath,
        PowerTypeEnum::Laser => SpriteKind::Laser,
    }
}

/// The sprite of a power.
pub fn get_power_sprite_based_on_power_type(power_type: PowerTypeEnum) -> (kind: SpriteKind)
    ensures
        kind == power_sprite(power_type),
{
    match power_type {
        PowerTypeEnum::Explosions => SpriteKind::MineBomb,
        PowerTypeEnum::CircleOfDeath => SpriteKind::CircleOfDeath,
        PowerTypeEnum::Laser => SpriteKind::Laser,
    }
}

/// Each power is drawn with a picture of its own, one of the three power
/// pictures: two powers share a picture exactly when they share a key, that
/// is, when they are the same power.
pub proof fn lemma_power_sprites_are_one_to_one(a: PowerTypeEnum, b: PowerTypeEnum)
    ensures
        (power_sprite(a) == power_sprite(b)) == (a == b),
        (power_sprite(a) == power_sprite(b)) == (power_key(a) == power_key(b)),
        power_sprite(a) == SpriteKind::MineBomb || power_sprite(a) == SpriteKind::CircleOfDeath
            || power_sprite(a) == SpriteKind::Laser,
{
}

/// The key that triggers a power.
pub open spec fn power_key(power_type: PowerTypeEnum) -> PowerKey {
    match power_type {
        PowerTypeEnum::Explosions => PowerKey::KeyL,
        PowerTypeEnum::CircleOfDeath => PowerKey::KeyJ,
        PowerTypeEnum::Laser => PowerKey::KeyH,
    }
}

/// The key that triggers a power.
pub fn get_key_code_based_on_power_type(power_type: PowerTypeEnum) -> (key: PowerKey)
    ensures
        key == power_key(power_type),
{
    match power_type {
        PowerTypeEnum::Explosions => PowerKey::KeyL,
        PowerTypeEnum::CircleOfDeath => PowerKey::KeyJ,
        PowerTypeEnum::Laser => PowerKey::KeyH,
    }
}

/// Each power has a key of its own, and every power key belongs to a power.
pub proof fn lemma_power_keys_are_one_to_one(a: PowerTypeEnum, b: PowerTypeEnum, key: PowerKey)
    ensures
        power_key(a) == power_key(b) ==> a == b,
        exists|p: PowerTypeEnum| power_key(p) == key,
{
    match key {
        PowerKey::KeyH => assert(power_key(PowerTypeEnum::Laser) == key),
        PowerKey::KeyJ => assert(power_key(PowerTypeEnum::CircleOfDeath) == key),
        PowerKey::KeyL => assert(power_key(PowerTypeEnum::Explosions) == key),
    }
}

/// The sprite an enemy of a class is drawn with.
pub fn get_enemy_sprite_based_on_enemy_class(enemy_class: EnemyClassEnum) -> (kind: SpriteKind)
    ensures
        kind == (match enemy_class {
            EnemyClassEnum::Orc => SpriteKind::OrcIdle,
            EnemyClassEnum::Mage => SpriteKind::MageIdle,
            EnemyClassEnum::BossOrc => SpriteKind::OrcIdle,
            EnemyClassEnum::BossMage => SpriteKind::MageIdle,
            EnemyClassEnum::BossAlien => SpriteKind::Profile,
        }),
{
    match enemy_class {
        EnemyClassEnum::Orc => SpriteKind::OrcIdle,
        EnemyClassEnum::Mage => SpriteKind::MageIdle,
        EnemyClassEnum::BossOrc => SpriteKind::OrcIdle,
        EnemyClassEnum::BossMage => SpriteKind::MageIdle,
        EnemyClassEnum::BossAlien => SpriteKind::Profile,
    }
}

/// A game level: from one to `NUMBER_OF_LEVELS`.
pub open spec fn is_game_level(level: u16) -> bool {
    1 <= level <= NUMBER_OF_LEVELS
}

/// The boss of a level: the orc, the mage and the alien take turns, starting with the orc.
pub open spec fn level_boss(level: u16) -> EnemyClassEnum {
    if (level - 1) % 3 == 0 {
        EnemyClassEnum::BossOrc
    } else if (level - 1) % 3 == 1 {
        EnemyClassEnum::BossMage
    } else {
        EnemyClassEnum::BossAlien
    }
}

/// The class of the boss of a game level; each boss class comes with its own
/// damage, health and scale.
pub fn get_boss_type_based_on_game_level(game_level: u16) -> (boss: EnemyClassEnum)
    requires
        is_game_level(game_level),
    ensures
        boss == level_boss(game_level),
{
    match game_level {
        1 => EnemyClassEnum::BossOrc,
        2 => EnemyClassEnum::BossMage,
        3 => EnemyClassEnum::BossAlien,
        4 => EnemyClassEnum::BossOrc,
        5 => EnemyClassEnum::BossMage,
        6 => EnemyClassEnum::BossAlien,
        _ => EnemyClassEnum::BossOrc,
    }
}

/// The background of a level: the three level backgrounds take turns.
pub open spec fn level_background(level: u16) -> SpriteKind {
    if (level - 1) % 3 == 0 {
        SpriteKind::Level1Bg
    } else if (level - 1) % 3 == 1 {
        SpriteKind::Level2Bg
    } else {
        SpriteKind::Level3Bg
    }
}

/// The background texture of a game level.
pub fn get_background_texture_based_on_game_level(game_level: u16) -> (kind: SpriteKind)
    requires
        is_game_level(game_level),
    ensures
        kind == level_background(game_level),
{
    match game_level {
        1 => SpriteKind::Level1Bg,
        2 => SpriteKind::Level2Bg,
        3 => SpriteKind::Level3Bg,
        4 => SpriteKind::Level1Bg,
        5 => SpriteKind::Level2Bg,
        6 => SpriteKind::Level3Bg,
        _ => SpriteKind::Level1Bg,
    }
}

/// Levels three apart share their boss and their background.
pub proof fn lemma_levels_repeat_every_three(level: u16)
    requires
        is_game_level(level),
        is_game_level((level + 3) as u16),
    ensures
        level_boss((level + 3) as u16) == level_boss(level),
        level_background((level + 3) as u16) == level_background(level),
{
}

/// How many tiles, side by side, cover a length: the length divided by the
/// tile's, rounded up. A tile of no length is repeated as often as a `u32` allows.
pub open spec fn tiles_to_cover(length: u32, tile: u32) -> u32 {
    if tile == 0 {
        u32::MAX
    } else {
        ((length as int + tile as int - 1) / (tile as int)) as u32
    }
}

/// How many background tiles are laid out in each direction.
#[derive(PartialEq, Eq, Structural, Clone, Copy, Debug)]
pub struct TileGrid {
    pub columns: u32,
    pub rows: u32,
}

proof fn lemma_round_up(l: int, t: int)
    requires
        l >= 0,
        t > 0,
    ensures
        (l + t - 1) / t == l / t + (if l % t == 0 { 0int } else { 1int }),
        l % t != 0 ==> l / t + 1 <= l,
{
    assert((l + t - 1) / t == l / t + (if l % t == 0 { 0int } else { 1int })) by (nonlinear_arith)
        requires
            l >= 0,
            t > 0,
    {
        let q = l / t;
        let r = l % t;
        assert(l == q * t + r);
        if r == 0 {
            assert(l + t - 1 == q * t + (t - 1));
        } else {
            assert(l + t - 1 == (q + 1) * t + (r - 1));
        }
    }
    assert(l % t != 0 ==> l / t + 1 <= l) by (nonlinear_arith)
        requires
            l >= 0,
            t > 0,
    {
        if l % t != 0 {
            assert(l == (l / t) * t + l % t);
        }
    }
}

fn count_tiles(length: u32, tile: u32) -> (count: u32)
    ensures
        count == tiles_to_cover(length, tile),
{
    if tile == 0 {
        u32::MAX
    } else {
        proof {
            lemma_round_up(length as int, tile as int);
        }
        let whole = length / tile;
        if length % tile == 0 {
            whole
        } else {
            whole + 1
        }
    }
}

/// The number of copies of a background tile in a row and in a column that
/// cover the background texture.
pub fn render_background_texture(tile: RectangularDimensions) -> (grid: TileGrid)
    ensures
        grid.columns == tiles_to_cover(BACKGROUND_TEXTURE_WIDTH_PX, tile.width),
        grid.rows == tiles_to_cover(BACKGROUND_TEXTURE_HEIGHT_PX, tile.height),
{
    TileGrid {
        columns: count_tiles(BACKGROUND_TEXTURE_WIDTH_PX, tile.width),
        rows: count_tiles(BACKGROUND_TEXTURE_HEIGHT_PX, tile.height),
    }
}

/// The tiles cover the length, and one tile fewer would not.
pub proof fn lemma_tiles_cover_exactly(length: u32, tile: u32)
    requires
        tile > 0,
    ensures
        tiles_to_cover(length, tile) * tile >= length,
        (tiles_to_cover(length, tile) - 1) * tile < length || length == 0,
{
    let t = tile as int;
    let l = length as int;
    let n = (l + t - 1) / t;
    assert(0 <= n <= u32::MAX) by (nonlinear_arith)
        requires
            n == (l + t - 1) / t,
            t > 0,
            0 <= l <= u32::MAX,
    ;
    assert(tiles_to_cover(length, tile) as int == n);
    assert(n * t <= l + t - 1 && l + t - 1 < n * t + t) by (nonlinear_arith)
        requires
            n == (l + t - 1) / t,
            t > 0,
            l >= 0,
    ;
    assert((n - 1) * t == n * t - t) by (nonlinear_arith);
}

/// Marks a tile of the background.
#[derive(PartialEq, Eq, Structural, Clone, Copy, Debug)]
pub struct TileBackground;

/// The background of a level, and the tiles that cover the screen with it.
#[derive(PartialEq, Eq, Structural, Clone, Copy, Debug)]
pub struct BackgroundTiles {
    pub marker: TileBackground,
    pub tile: SpriteKind,
    pub grid: TileGrid,
}

/// The background of the game level, laid out in tiles; `None` when the sprite
/// table has no data for the level's background.
pub fn setup_sprite(game_level: u16, sprites: &Sprites) -> (background: Option<BackgroundTiles>)
    requires
        is_game_level(game_level),
    ensures
        background == (match sprite_of(*sprites, level_background(game_level)) {
            Some(info) => Some(
                BackgroundTiles {
                    marker: TileBackground,
                    tile: level_background(game_level),
                    grid: TileGrid {
                        columns: tiles_to_cover(BACKGROUND_TEXTURE_WIDTH_PX, info.dimensions.width),
                        rows: tiles_to_cover(BACKGROUND_TEXTURE_HEIGHT_PX, info.dimensions.height),
                    },
                },
            ),
            None => None,
        }),
{
    let tile = get_background_texture_based_on_game_level(game_level);
    match sprites.sprite(tile) {
        Some(info) => Some(BackgroundTiles { marker: TileBackground, tile, grid: render_background_texture(info.dimensions) }),
        None => None,
    }
}

} // verus!
