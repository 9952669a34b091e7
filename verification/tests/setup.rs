use area_25_5::camera::{
    setup_base_camera, setup_menu_camera, setup_overlay_camera, setup_player_camera, spawn_base_camera,
    spawn_menu_camera, spawn_overlay_camera, spawn_player_camera, BaseCamera, CameraClear, CameraMarker,
    MenuCamera, PlayerCamera,
};
use area_25_5::config::{
    EnemyClassEnum, ItemKind, ItemStatsType, MarketTypes, PowerKey, PowerTypeEnum, ShieldType, StoppingCondition,
    WeaponTypeEnum, PLAYER_HEALTH, PLAYER_MANA,
};
use area_25_5::events::{GameEvent, PlayerProfileUISet, PlayerSpawned, RestartGame};
use area_25_5::player::{setup_player, setup_resources, Player};
use area_25_5::sprites::{get_sprites, RectangularDimensions, SpriteInfo, SpriteKind};
use area_25_5::timer::{CurrentWave, TimePassed};
use area_25_5::ui::{
    check_restart_click, game_over_screen, game_won_screen, handle_play_again_click, handle_restart_click,
    handle_start_game_click, menu_screen, on_player_profile_ui_set, setup_ui, spawn_player_stats_ui,
    ButtonAction, ButtonBackground, ButtonInteraction, HudPanel, PlayerStat, ScreenButton, ScreenOverlay,
};
use area_25_5::util::{
    get_ammo_sprite_based_on_weapon_type, get_background_texture_based_on_game_level,
    get_boss_type_based_on_game_level, get_enemy_sprite_based_on_enemy_class,
    get_item_sprite_based_on_item_type, get_key_code_based_on_power_type,
    get_power_sprite_based_on_power_type, get_weapon_sprite_based_on_weapon_type,
    render_background_texture, setup_sprite, BackgroundTiles, TileBackground, TileGrid,
};

#[test]
fn cameras_draw_their_layers_in_order() {
    let cameras = [spawn_base_camera(), spawn_player_camera(), spawn_overlay_camera(), spawn_menu_camera()];
    for (i, camera) in cameras.iter().enumerate() {
        assert_eq!(camera.order, i as isize);
        assert_eq!(camera.layer, i);
    }
    assert_eq!(cameras[0].clear, CameraClear::WithDefaultColor);
    assert_eq!(cameras[0].marker, CameraMarker::Base(BaseCamera));
    assert_eq!(cameras[1].marker, CameraMarker::Player(PlayerCamera));
    assert_eq!(cameras[2].marker, CameraMarker::Menu(MenuCamera));
    assert_eq!(cameras[3].clear, CameraClear::Keep);
    assert_eq!(setup_base_camera(), cameras[0]);
    assert_eq!(setup_player_camera(), cameras[1]);
    assert_eq!(setup_overlay_camera(), cameras[2]);
    assert_eq!(setup_menu_camera(), cameras[3]);
}

#[test]
fn sprite_table_has_the_game_textures() {
    let sprites = get_sprites();
    assert_eq!(sprites.player_tile.source, "textures/Tiles/player.png");
    assert_eq!(sprites.player_tile.layout.offset.map(|o| (o.x, o.y)), Some((500, 623)));
    assert_eq!(sprites.player_custom_bg.dimensions, RectangularDimensions { width: 1920, height: 1080 });
    let walking = sprites.player_char_walking.animation.unwrap();
    assert_eq!((walking.indices.first, walking.indices.last), (0, 5));
    assert_eq!(walking.timer.0, 100);
    assert_eq!(sprites.player_char_walking.layout.columns, 6);
    assert_eq!(sprites.arrow.source, "textures/Weapon/Arrow.png");
    assert!(sprites.gamestudio_tileset.animation.is_none());
    assert_eq!(sprites.sprite(SpriteKind::MagicBall).unwrap().source, "textures/Weapon/MagicBall.png");
    assert!(sprites.sprite(SpriteKind::Level1Bg).is_none());
    let empty = SpriteInfo::default();
    assert_eq!(empty.source, "");
    assert_eq!(empty.layout.columns, 0);
}

#[test]
fn sprites_are_chosen_by_kind() {
    assert_eq!(get_ammo_sprite_based_on_weapon_type(WeaponTypeEnum::Bow), SpriteKind::Arrow);
    assert_eq!(get_ammo_sprite_based_on_weapon_type(WeaponTypeEnum::Wand), SpriteKind::MagicBall);
    assert_eq!(get_weapon_sprite_based_on_weapon_type(WeaponTypeEnum::Wand), SpriteKind::Wand);
    assert_eq!(get_item_sprite_based_on_item_type(ItemKind::Armor), SpriteKind::Shield);
    assert_eq!(get_item_sprite_based_on_item_type(ItemKind::Health), SpriteKind::HpPack);
    assert_eq!(get_power_sprite_based_on_power_type(PowerTypeEnum::Laser), SpriteKind::Laser);
    assert_eq!(get_enemy_sprite_based_on_enemy_class(EnemyClassEnum::BossAlien), SpriteKind::Profile);
    assert_eq!(get_enemy_sprite_based_on_enemy_class(EnemyClassEnum::BossOrc), SpriteKind::OrcIdle);
}

#[test]
fn power_keys() {
    assert_eq!(get_key_code_based_on_power_type(PowerTypeEnum::Explosions), PowerKey::KeyL);
    assert_eq!(get_key_code_based_on_power_type(PowerTypeEnum::CircleOfDeath), PowerKey::KeyJ);
    assert_eq!(get_key_code_based_on_power_type(PowerTypeEnum::Laser), PowerKey::KeyH);
}

#[test]
fn levels_cycle_through_three_bosses_and_backgrounds() {
    let bosses = [EnemyClassEnum::BossOrc, EnemyClassEnum::BossMage, EnemyClassEnum::BossAlien];
    let backgrounds = [SpriteKind::Level1Bg, SpriteKind::Level2Bg, SpriteKind::Level3Bg];
    for level in 1..=7u16 {
        let turn = ((level - 1) % 3) as usize;
        assert_eq!(get_boss_type_based_on_game_level(level), bosses[turn]);
        assert_eq!(get_background_texture_based_on_game_level(level), backgrounds[turn]);
    }
}

#[test]
fn background_tiles_cover_the_texture() {
    assert_eq!(render_background_texture(RectangularDimensions { width: 1920, height: 1080 }), TileGrid { columns: 1, rows: 1 });
    assert_eq!(render_background_texture(RectangularDimensions { width: 95, height: 95 }), TileGrid { columns: 21, rows: 12 });
    assert_eq!(render_background_texture(RectangularDimensions { width: 640, height: 1081 }), TileGrid { columns: 3, rows: 1 });
    assert_eq!(render_background_texture(RectangularDimensions { width: 0, height: 2000 }), TileGrid { columns: u32::MAX, rows: 1 });
    assert!(setup_sprite(1, &get_sprites()).is_none());
}

#[test]
fn level_background_is_laid_out_in_tiles() {
    let mut sprites = get_sprites();
    sprites.level_2_bg = Some(SpriteInfo {
        dimensions: RectangularDimensions { width: 640, height: 400 },
        ..sprites.player_custom_bg
    });
    let expected = BackgroundTiles {
        marker: TileBackground,
        tile: SpriteKind::Level2Bg,
        grid: TileGrid { columns: 3, rows: 3 },
    };
    assert_eq!(setup_sprite(2, &sprites), Some(expected));
    assert_eq!(setup_sprite(5, &sprites), Some(expected));
    assert!(setup_sprite(1, &sprites).is_none());
    assert!(setup_sprite(3, &sprites).is_none());
    assert_eq!(sprites.sprite(SpriteKind::Level2Bg).map(|info| info.dimensions.width), Some(640));
}

#[test]
fn new_game_resources_and_player() {
    let resources = setup_resources();
    assert_eq!(resources.current_wave, CurrentWave(1));
    assert_eq!(resources.time_passed, TimePassed { minutes: 1, seconds: 0 });
    assert_eq!(resources.sprites.0.bow.source, "textures/Weapon/Bow.png");
    let (loadout, events) = setup_player();
    assert_eq!(loadout.marker, Player);
    assert_eq!(loadout.health, 1000);
    assert_eq!(loadout.speed, 150);
    assert_eq!(loadout.armor, 0);
    assert_eq!(loadout.weapon, WeaponTypeEnum::Bow);
    assert_eq!(loadout.ammo, WeaponTypeEnum::Bow);
    assert_eq!(loadout.weapon_damage, 10);
    assert_eq!(events, vec![GameEvent::PlayerSpawned(PlayerSpawned)]);
}

#[test]
fn hud_of_a_new_game() {
    let hud = setup_ui();
    assert_eq!(hud.panels.len(), 6);
    assert!(matches!(hud.panels[0], HudPanel::CurrentWave(_)));
    assert!(matches!(hud.panels[5], HudPanel::Weapon(_)));
    assert_eq!(hud.wave_text, "Current wave: 1");
    assert_eq!(hud.score_text, "0");
    assert_eq!(hud.time_text, "01:00");
    assert_eq!(hud.weapon_image, "textures/Weapon/Bow.png");
    assert_eq!(hud.events, vec![GameEvent::PlayerProfileUISet(PlayerProfileUISet)]);
    let bars = on_player_profile_ui_set();
    assert_eq!((bars.health, bars.max_health), (PLAYER_HEALTH, PLAYER_HEALTH));
    assert_eq!((bars.mana, bars.max_mana), (PLAYER_MANA, PLAYER_MANA));
}

#[test]
fn screens() {
    let menu = menu_screen();
    assert_eq!(menu.title, "MAIN MENU");
    assert_eq!(menu.button_title, "Start game");
    assert!(!menu.shows_final_score);
    assert!(matches!(menu.overlay, ScreenOverlay::Menu(_)));
    let over = game_over_screen();
    assert_eq!(over.title, "GAME OVER");
    assert_eq!(over.button_title, "Restart game");
    assert!(over.shows_final_score);
    assert!(matches!(over.button, ScreenButton::RestartGame(_)));
    let won = game_won_screen();
    assert_eq!(won.title, "YOU WON");
    assert_eq!(won.button_title, "Play again");
    assert!(matches!(won.overlay, ScreenOverlay::GameWon(_)));
    assert_eq!((won.title_font_size, won.text_font_size), (100, 40));
}

#[test]
fn buttons_respond_to_interactions() {
    let interactions = vec![ButtonInteraction::Pressed, ButtonInteraction::Hovered, ButtonInteraction::Idle];
    let expected = vec![
        ButtonAction::Trigger(RestartGame),
        ButtonAction::SetBackground(ButtonBackground::Highlight),
        ButtonAction::SetBackground(ButtonBackground::Black),
    ];
    assert_eq!(handle_play_again_click(&interactions), expected);
    assert_eq!(handle_restart_click(&interactions), expected);
    assert_eq!(handle_start_game_click(&interactions), expected);
    assert_eq!(check_restart_click(&interactions)[1], ButtonAction::SetBackground(ButtonBackground::Green));
}

#[test]
fn stats_panel_rows() {
    let rows = spawn_player_stats_ui("textures/Weapon/Wand.png");
    let labels: Vec<&str> = rows.iter().map(|r| r.label).collect();
    assert_eq!(labels, vec!["Health", "Damage", "Armor", "Speed"]);
    assert_eq!(rows[1].icon, "textures/Weapon/Wand.png");
    assert_eq!(rows[3].stat, PlayerStat::Speed);
}

#[test]
fn defaults() {
    assert_eq!(WeaponTypeEnum::default(), WeaponTypeEnum::Bow);
    assert_eq!(StoppingCondition::default(), StoppingCondition::Instances);
    assert_eq!(ItemStatsType::default(), ItemStatsType::Speed);
    assert_eq!(ShieldType::default(), ShieldType::Physical);
}

#[test]
fn market_sells_weapons() {
    let wand = MarketTypes::Weapon(WeaponTypeEnum::Wand);
    assert_eq!(wand, MarketTypes::Weapon(WeaponTypeEnum::Wand));
    assert_ne!(wand, MarketTypes::Weapon(WeaponTypeEnum::Bow));
}
