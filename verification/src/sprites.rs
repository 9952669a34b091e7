use vstd::prelude::*;

use crate::animation::{AnimationIndices, AnimationInfo, AnimationTimer};

verus! {

/// Size of a sprite in pixels.
#[derive(PartialEq, Eq, Structural, Clone, Copy, Debug)]
pub struct RectangularDimensions {
    pub width: u32,
    pub height: u32,
}

impl Default for RectangularDimensions {
    fn default() -> (d: Self)
        ensures
            d == (RectangularDimensions { width: 0, height: 0 }),
    {
        RectangularDimensions { width: 0, height: 0 }
    }
}

/// Where, in pixels, the first tile of a texture atlas starts.
#[derive(PartialEq, Eq, Structural, Clone, Copy, Debug)]
pub struct GridOffset {
    pub x: u32,
    pub y: u32,
}

/// How a texture is cut into frames: a grid of `columns` by `rows` tiles of
/// `tile_width` by `tile_height` pixels, starting at `offset` (in pixels)
/// when there is one. A grid without tiles describes an empty atlas.
#[derive(PartialEq, Eq, Structural, Clone, Copy, Debug)]
pub struct AtlasGrid {
    pub tile_width: u32,
    pub tile_height: u32,
    pub columns: u32,
    pub rows: u32,
    pub offset: Option<GridOffset>,
}

/// A texture and how it is drawn.
#[derive(Clone, Copy, Debug)]
pub struct SpriteInfo {
    pub dimensions: RectangularDimensions,
    pub source: &'static str,
    pub animation: Option<AnimationInfo>,
    pub layout: AtlasGrid,
}

impl Default for SpriteInfo {
    fn default() -> (s: Self)
        ensures
            s.dimensions == (RectangularDimensions { width: 0, height: 0 }),
            s.source@ == ""@,
            s.animation is None,
            s.layout == (AtlasGrid { tile_width: 0, tile_height: 0, columns: 0, rows: 0, offset: None }),
    {
        SpriteInfo {
            dimensions: RectangularDimensions::default(),
            source: "",
            animation: None,
            layout: AtlasGrid { tile_width: 0, tile_height: 0, columns: 0, rows: 0, offset: None },
        }
    }
}

/// The sprites the game draws. The level backgrounds and the sprites of the
/// orcs, mages, items, profile and powers are slots that hold a sprite only
/// once one is supplied for them.
#[derive(Clone, Copy, Debug)]
pub struct Sprites {
    pub player_tile: SpriteInfo,
    pub gamestudio_tileset: SpriteInfo,
    pub player_custom_bg: SpriteInfo,
    pub player_char_idle: SpriteInfo,
    pub player_char_walking: SpriteInfo,
    pub enemy_char_idle: SpriteInfo,
    pub bow: SpriteInfo,
    pub arrow: SpriteInfo,
    pub wand: SpriteInfo,
    pub magic_ball: SpriteInfo,
    pub speed_potion: SpriteInfo,
    pub lightning: SpriteInfo,
    pub level_1_bg: Option<SpriteInfo>,
    pub level_2_bg: Option<SpriteInfo>,
    pub level_3_bg: Option<SpriteInfo>,
    pub orc_idle: Option<SpriteInfo>,
    pub mage_idle: Option<SpriteInfo>,
    pub shield: Option<SpriteInfo>,
    pub hp_pack: Option<SpriteInfo>,
    pub diamond: Option<SpriteInfo>,
    pub profile: Option<SpriteInfo>,
    pub mine_bomb: Option<SpriteInfo>,
    pub laser: Option<SpriteInfo>,
    pub circle_of_death: Option<SpriteInfo>,
}

/// The sprite table kept for the whole game.
#[derive(Clone, Copy, Debug)]
pub struct SpritesResources(pub Sprites);

/// The sprites that the game asks for by name.
#[derive(PartialEq, Eq, Structural, Clone, Copy, Debug)]
pub enum SpriteKind {
    PlayerTile,
    GamestudioTileset,
    PlayerCustomBg,
    PlayerCharIdle,
    PlayerCharWalking,
    EnemyCharIdle,
    Bow,
    Arrow,
    Wand,
    MagicBall,
    SpeedPotion,
    Lightning,
    Level1Bg,
    Level2Bg,
    Level3Bg,
    OrcIdle,
    MageIdle,
    Shield,
    HpPack,
    Diamond,
    Profile,
    MineBomb,
    Laser,
    CircleOfDeath,
}

/// The sprite of `kind` in the table: always there for the kinds the table
/// always holds, and what the slot holds for the others.
pub open spec fn sprite_of(sprites: Sprites, kind: SpriteKind) -> Option<SpriteInfo> {
    match kind {
        SpriteKind::PlayerTile => Some(sprites.player_tile),
        SpriteKind::GamestudioTileset => Some(sprites.gamestudio_tileset),
        SpriteKind::PlayerCustomBg => Some(sprites.player_custom_bg),
        SpriteKind::PlayerCharIdle => Some(sprites.player_char_idle),
        SpriteKind::PlayerCharWalking => Some(sprites.player_char_walking),
        SpriteKind::EnemyCharIdle => Some(sprites.enemy_char_idle),
        SpriteKind::Bow => Some(sprites.bow),
        SpriteKind::Arrow => Some(sprites.arrow),
        SpriteKind::Wand => Some(sprites.wand),
        SpriteKind::MagicBall => Some(sprites.magic_ball),
        SpriteKind::SpeedPotion => Some(sprites.speed_potion),
        SpriteKind::Lightning => Some(sprites.lightning),
        SpriteKind::Level1Bg => sprites.level_1_bg,
        SpriteKind::Level2Bg => sprites.level_2_bg,
        SpriteKind::Level3Bg => sprites.level_3_bg,
        SpriteKind::OrcIdle => sprites.orc_idle,
        SpriteKind::MageIdle => sprites.mage_idle,
        SpriteKind::Shield => sprites.shield,
        SpriteKind::HpPack => sprites.hp_pack,
        SpriteKind::Diamond => sprites.diamond,
        SpriteKind::Profile => sprites.profile,
        SpriteKind::MineBomb => sprites.mine_bomb,
        SpriteKind::Laser => sprites.laser,
        SpriteKind::CircleOfDeath => sprites.circle_of_death,
    }
}

impl Sprites {
    /// The sprite of `kind`, or `None` for an empty slot.
    pub fn sprite(&self, kind: SpriteKind) -> (found: Option<SpriteInfo>)
        ensures
            found == sprite_of(*self, kind),
    {
        match kind {
            SpriteKind::PlayerTile => Some(self.player_tile),
            SpriteKind::GamestudioTileset => Some(self.gamestudio_tileset),
            SpriteKind::PlayerCustomBg => Some(self.player_custom_bg),
            SpriteKind::PlayerCharIdle => Some(self.player_char_idle),
            SpriteKind::PlayerCharWalking => Some(self.player_char_walking),
            SpriteKind::EnemyCharIdle => Some(self.enemy_char_idle),
            SpriteKind::Bow => Some(self.bow),
            SpriteKind::Arrow => Some(self.arrow),
            SpriteKind::Wand => Some(self.wand),
            SpriteKind::MagicBall => Some(self.magic_ball),
            SpriteKind::SpeedPotion => Some(self.speed_potion),
            SpriteKind::Lightning => Some(self.lightning),
            SpriteKind::Level1Bg => self.level_1_bg,
            SpriteKind::Level2Bg => self.level_2_bg,
            SpriteKind::Level3Bg => self.level_3_bg,
            SpriteKind::OrcIdle => self.orc_idle,
            SpriteKind::MageIdle => self.mage_idle,
            SpriteKind::Shield => self.shield,
            SpriteKind::HpPack => self.hp_pack,
            SpriteKind::Diamond => self.diamond,
            SpriteKind::Profile => self.profile,
            SpriteKind::MineBomb => self.mine_bomb,
            SpriteKind::Laser => self.laser,
            SpriteKind::CircleOfDeath => self.circle_of_death,
        }
    }
}

/// Size in pixels of the character sprites.
pub const PLAYER_PIXEL_SIZE: u32 = 32;

/// Period in milliseconds of every sprite animation.
pub const PLAYER_ANIMATION_TIMER_MILLIS: u32 = 100;

/// Width in pixels of the player tile.
pub const PLAYER_TILE_WIDTH: u32 = 95;

/// Height in pixels of the player tile.
pub const PLAYER_TILE_HEIGHT: u32 = 95;

/// Horizontal offset in pixels of the player tile in its texture.
pub const PLAYER_TILE_OFFSET_X: u32 = 500;

/// Vertical offset in pixels of the player tile in its texture.
pub const PLAYER_TILE_OFFSET_Y: u32 = 623;

/// `info` is a sprite of the given size and source whose texture is a single
/// row of `frames` tiles of that size, animated through all of them, or a
/// single still tile when `frames` is `None`; `offset` is where the grid starts.
pub open spec fn is_sprite(
    info: SpriteInfo,
    width: u32,
    height: u32,
    source: Seq<char>,
    frames: Option<usize>,
    offset: Option<GridOffset>,
) -> bool {
    &&& info.dimensions == (RectangularDimensions { width, height })
    &&& info.source@ == source
    &&& info.animation == (match frames {
        Some(n) => Some(
            AnimationInfo {
                indices: AnimationIndices { first: 0, last: (n - 1) as usize },
                timer: AnimationTimer(PLAYER_ANIMATION_TIMER_MILLIS),
            },
        ),
        None => None,
    })
    &&& info.layout == (AtlasGrid {
        tile_width: width,
        tile_height: height,
        columns: match frames {
            Some(n) => n as u32,
            None => 1,
        },
        rows: 1,
        offset,
    })
}

fn still_sprite(width: u32, height: u32, source: &'static str, offset: Option<GridOffset>) -> (info: SpriteInfo)
    ensures
        is_sprite(info, width, height, source@, None, offset),
{
    SpriteInfo {
        dimensions: RectangularDimensions { width, height },
        source,
        animation: None,
        layout: AtlasGrid { tile_width: width, tile_height: height, columns: 1, rows: 1, offset },
    }
}

fn animated_sprite(source: &'static str, frames: u32) -> (info: SpriteInfo)
    requires
        1 <= frames <= 64,
    ensures
        is_sprite(info, PLAYER_PIXEL_SIZE, PLAYER_PIXEL_SIZE, source@, Some(frames as usize), None),
{
    SpriteInfo {
        dimensions: RectangularDimensions { width: PLAYER_PIXEL_SIZE, height: PLAYER_PIXEL_SIZE },
        source,
        animation: Some(
            AnimationInfo {
                indices: AnimationIndices { first: 0, last: (frames - 1) as usize },
                timer: AnimationTimer(PLAYER_ANIMATION_TIMER_MILLIS),
            },
        ),
        layout: AtlasGrid {
            tile_width: PLAYER_PIXEL_SIZE,
            tile_height: PLAYER_PIXEL_SIZE,
            columns: frames,
            rows: 1,
            offset: None,
        },
    }
}

/// The game's sprite table: where each texture lives, its size, how it is cut
/// into frames and how those frames are animated; the slots are empty.
pub open spec fn is_game_sprite_table(sprites: Sprites) -> bool {
    &&& is_sprite(
        sprites.player_tile,
        PLAYER_TILE_WIDTH,
        PLAYER_TILE_HEIGHT,
        "textures/Tiles/player.png"@,
        None,
        Some(GridOffset { x: PLAYER_TILE_OFFSET_X, y: PLAYER_TILE_OFFSET_Y }),
    )
    &&& is_sprite(sprites.gamestudio_tileset, 1361, 763, "textures/Tiles/tileset.png"@, None, None)
    &&& is_sprite(sprites.player_custom_bg, 1920, 1080, "textures/Background/Alien1.png"@, None, None)
    &&& is_sprite(sprites.player_char_idle, 32, 32, "textures/Alien/Alien_idle.png"@, Some(4), None)
    &&& is_sprite(sprites.player_char_walking, 32, 32, "textures/Alien/Alien_run.png"@, Some(6), None)
    &&& is_sprite(sprites.enemy_char_idle, 32, 32, "textures/Enemy/Idle-Sheet.png"@, Some(4), None)
    &&& is_sprite(sprites.bow, 32, 32, "textures/Weapon/Bow.png"@, Some(1), None)
    &&& is_sprite(sprites.arrow, 32, 32, "textures/Weapon/Arrow.png"@, Some(1), None)
    &&& is_sprite(sprites.wand, 32, 32, "textures/Weapon/Wand.png"@, Some(1), None)
    &&& is_sprite(sprites.magic_ball, 32, 32, "textures/Weapon/MagicBall.png"@, Some(1), None)
    &&& is_sprite(sprites.speed_potion, 32, 32, "textures/Effects/speed_potion.png"@, Some(1), None)
    &&& is_sprite(sprites.lightning, 32, 32, "textures/Effects/lightning.png"@, Some(1), None)
    &&& sprites.level_1_bg is None
    &&& sprites.level_2_bg is None
    &&& sprites.level_3_bg is None
    &&& sprites.orc_idle is None
    &&& sprites.mage_idle is None
    &&& sprites.shield is None
    &&& sprites.hp_pack is None
    &&& sprites.diamond is None
    &&& sprites.profile is None
    &&& sprites.mine_bomb is None
    &&& sprites.laser is None
    &&& sprites.circle_of_death is None
}

/// The sprite table: where each texture lives, its size, how it is cut into
/// frames and how those frames are animated; the slots start empty.
pub fn get_sprites() -> (sprites: Sprites)
    ensures
        is_game_sprite_table(sprites),
{
    Sprites {
        player_tile: still_sprite(
            PLAYER_TILE_WIDTH,
            PLAYER_TILE_HEIGHT,
            "textures/Tiles/player.png",
            Some(GridOffset { x: PLAYER_TILE_OFFSET_X, y: PLAYER_TILE_OFFSET_Y }),
        ),
        gamestudio_tileset: still_sprite(1361, 763, "textures/Tiles/tileset.png", None),
        player_custom_bg: still_sprite(1920, 1080, "textures/Background/Alien1.png", None),
        player_char_idle: animated_sprite("textures/Alien/Alien_idle.png", 4),
        player_char_walking: animated_sprite("textures/Alien/Alien_run.png", 6),
        enemy_char_idle: animated_sprite("textures/Enemy/Idle-Sheet.png", 4),
        bow: animated_sprite("textures/Weapon/Bow.png", 1),
        arrow: animated_sprite("textures/Weapon/Arrow.png", 1),
        wand: animated_sprite("textures/Weapon/Wand.png", 1),
        magic_ball: animated_sprite("textures/Weapon/MagicBall.png", 1),
        speed_potion: animated_sprite("textures/Effects/speed_potion.png", 1),
        lightning: animated_sprite("textures/Effects/lightning.png", 1),
        level_1_bg: None,
        level_2_bg: None,
        level_3_bg: None,
        orc_idle: None,
        mage_idle: None,
        shield: None,
        hp_pack: None,
        diamond: None,
        profile: None,
        mine_bomb: None,
        laser: None,
        circle_of_death: None,
    }
}

} // verus!
