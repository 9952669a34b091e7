use area_25_5::actions::{
    change_enemy_direction, handle_click, handle_show_player_stats_ui, on_mouse_click,
    player_move_direction, EnemyRetarget, StatsPanelAction, Weapon,
};
use area_25_5::ammo::{move_enemy_ammo, move_player_ammo, AmmoAction, AmmoStep};
use area_25_5::animation::{animate_sprite, AnimationIndices};
use area_25_5::audio::{hit_enemy_audio, hit_item_audio, hit_weapon_audio, player_hit_audio};
use area_25_5::buffs::{
    on_buff_add_ui, on_buff_added, on_buff_remove_ui, remove_outdated_buffs, BuffGroupStatus,
    BuffRemoval, BuffsUI,
};
use area_25_5::cleanup::cleanup_system;
use area_25_5::config::{EnemyClassEnum, ItemKind, PowerKey, PowerTypeEnum, WeaponTypeEnum};
use area_25_5::events::{BuffUIAdd, BuffUIRemove, DespawnPower, GameEvent, OnUpdatePowerUI};
use area_25_5::powers::{
    despawn_powers, on_power_found, power_despawned_on_hit, power_up, update_power_ui,
    PowerInstance, PowerSlot, PowerUiChange, PowerUiEntry,
};
use area_25_5::sprites::SpriteKind;
use area_25_5::timer::CurrentWave;

fn icon(kind: ItemKind, counter: u32) -> BuffsUI {
    BuffsUI { item_type: kind, counter }
}

#[test]
fn picking_a_known_buff_counts_it() {
    let mut icons = vec![icon(ItemKind::Speed, 1), icon(ItemKind::Shield, 2)];
    let out = on_buff_added(&mut icons, ItemKind::Shield);
    assert_eq!(icons, vec![icon(ItemKind::Speed, 1), icon(ItemKind::Shield, 3)]);
    let text = out.counter_text.unwrap();
    assert_eq!(text.index, 1);
    assert_eq!(text.text, "x3");
    assert!(out.events.is_empty());
}

#[test]
fn picking_a_new_buff_asks_for_an_icon() {
    let mut icons = vec![icon(ItemKind::Speed, 1)];
    let out = on_buff_added(&mut icons, ItemKind::Armor);
    assert_eq!(icons, vec![icon(ItemKind::Speed, 1)]);
    assert!(out.counter_text.is_none());
    assert_eq!(out.events, vec![GameEvent::BuffUIAdd(BuffUIAdd { item_kind: ItemKind::Armor })]);
}

#[test]
fn health_packs_are_never_counted_on_an_icon() {
    let mut icons = vec![icon(ItemKind::Health, 1)];
    let out = on_buff_added(&mut icons, ItemKind::Health);
    assert_eq!(out.events, vec![GameEvent::BuffUIAdd(BuffUIAdd { item_kind: ItemKind::Health })]);
    assert!(on_buff_add_ui(&mut icons, ItemKind::Health).is_none());
    assert_eq!(icons, vec![icon(ItemKind::Health, 1)]);
}

#[test]
fn a_new_icon_counts_one() {
    let mut icons = vec![];
    let added = on_buff_add_ui(&mut icons, ItemKind::Shield).unwrap();
    assert_eq!(added.sprite, SpriteKind::Diamond);
    assert_eq!(added.counter_text, "x1");
    assert_eq!(icons, vec![icon(ItemKind::Shield, 1)]);
}

#[test]
fn shield_expiry_lowers_or_removes_its_icon() {
    let mut icons = vec![icon(ItemKind::Speed, 4), icon(ItemKind::Shield, 2)];
    match on_buff_remove_ui(&mut icons, ItemKind::Shield) {
        BuffRemoval::CounterLowered { index, text } => {
            assert_eq!(index, 1);
            assert_eq!(text, "x1");
        }
        _ => panic!("the shield icon should count one less"),
    }
    assert_eq!(icons, vec![icon(ItemKind::Speed, 4), icon(ItemKind::Shield, 1)]);
    match on_buff_remove_ui(&mut icons, ItemKind::Shield) {
        BuffRemoval::IconRemoved { index } => assert_eq!(index, 1),
        _ => panic!("the shield icon should go away"),
    }
    assert_eq!(icons, vec![icon(ItemKind::Speed, 4)]);
    assert!(matches!(on_buff_remove_ui(&mut icons, ItemKind::Speed), BuffRemoval::Unchanged));
    assert!(matches!(on_buff_remove_ui(&mut icons, ItemKind::Shield), BuffRemoval::Unchanged));
}

#[test]
fn shield_expiry_undoes_pickup() {
    for start in [vec![icon(ItemKind::Speed, 1)], vec![icon(ItemKind::Shield, 2), icon(ItemKind::Armor, 1)]] {
        let mut icons = start.clone();
        let out = on_buff_added(&mut icons, ItemKind::Shield);
        if !out.events.is_empty() {
            on_buff_add_ui(&mut icons, ItemKind::Shield);
        }
        on_buff_remove_ui(&mut icons, ItemKind::Shield);
        assert_eq!(icons, start);
    }
}

#[test]
fn only_expired_shields_are_removed_and_reported_once() {
    let groups = vec![
        BuffGroupStatus { item_kind: ItemKind::Speed, duration_seconds: Some(1), elapsed_seconds: 100 },
        BuffGroupStatus { item_kind: ItemKind::Shield, duration_seconds: Some(20), elapsed_seconds: 20 },
        BuffGroupStatus { item_kind: ItemKind::Shield, duration_seconds: Some(20), elapsed_seconds: 21 },
        BuffGroupStatus { item_kind: ItemKind::Shield, duration_seconds: None, elapsed_seconds: 500 },
        BuffGroupStatus { item_kind: ItemKind::Shield, duration_seconds: Some(5), elapsed_seconds: 6 },
    ];
    let out = remove_outdated_buffs(&groups);
    assert_eq!(out.expired, vec![false, false, true, false, true]);
    assert_eq!(out.events, vec![GameEvent::BuffUIRemove(BuffUIRemove { item_kind: ItemKind::Shield })]);
    let fresh = remove_outdated_buffs(&groups[..2].to_vec());
    assert!(fresh.events.is_empty());
}

#[test]
fn power_ui_raises_a_listed_power() {
    let mut entries = vec![PowerUiEntry { power_type: PowerTypeEnum::Laser, power_level: 1 }];
    let event = OnUpdatePowerUI { power_type: PowerTypeEnum::Laser, keycode: PowerKey::KeyH };
    match update_power_ui(&mut entries, event) {
        PowerUiChange::LevelRaised { index, text } => {
            assert_eq!(index, 0);
            assert_eq!(text, "2");
        }
        _ => panic!("the laser should go up a level"),
    }
    assert_eq!(entries[0].power_level, 2);
    let event = OnUpdatePowerUI { power_type: PowerTypeEnum::Explosions, keycode: PowerKey::KeyL };
    match update_power_ui(&mut entries, event) {
        PowerUiChange::Spawn { power_type, keycode, sprite } => {
            assert_eq!(power_type, PowerTypeEnum::Explosions);
            assert_eq!(keycode, PowerKey::KeyL);
            assert_eq!(sprite, SpriteKind::MineBomb);
        }
        _ => panic!("explosions should get a new entry"),
    }
    assert_eq!(entries.len(), 1);
}

#[test]
fn power_found_replaces_a_power_on_the_same_key() {
    let table = vec![
        PowerSlot { level: 2, power_type: PowerTypeEnum::Laser },
        PowerSlot { level: 3, power_type: PowerTypeEnum::CircleOfDeath },
    ];
    let keys = vec![PowerKey::KeyL, PowerKey::KeyJ];
    let plan = on_power_found(true, &keys, &table, CurrentWave(3)).unwrap();
    assert_eq!(plan.table_index, 1);
    assert_eq!(plan.replaced, Some(1));
    assert_eq!(
        plan.events,
        vec![GameEvent::OnUpdatePowerUI(OnUpdatePowerUI {
            power_type: PowerTypeEnum::CircleOfDeath,
            keycode: PowerKey::KeyJ
        })]
    );
    assert!(on_power_found(true, &keys, &table, CurrentWave(1)).is_none());
    assert!(on_power_found(false, &keys, &table, CurrentWave(3)).is_none());
}

#[test]
fn circles_of_death_not_carried_are_cleaned_up() {
    let powers = vec![
        PowerInstance { entity: 10, trigger_key: PowerKey::KeyJ },
        PowerInstance { entity: 11, trigger_key: PowerKey::KeyJ },
        PowerInstance { entity: 12, trigger_key: PowerKey::KeyH },
    ];
    let carried = vec![10u64];
    let out = despawn_powers(DespawnPower(PowerTypeEnum::CircleOfDeath), true, &carried, &powers);
    assert_eq!(out, vec![false, true, false]);
    let out = despawn_powers(DespawnPower(PowerTypeEnum::Laser), true, &carried, &powers);
    assert_eq!(out, vec![false, false, false]);
    let out = despawn_powers(DespawnPower(PowerTypeEnum::CircleOfDeath), false, &carried, &powers);
    assert_eq!(out, vec![false, false, false]);
    assert!(power_despawned_on_hit(PowerTypeEnum::Explosions));
    assert!(!power_despawned_on_hit(PowerTypeEnum::Laser));
}

#[test]
fn power_keys_are_taken_in_order() {
    let keys = vec![PowerKey::KeyJ, PowerKey::KeyH];
    let choice = power_up(true, true, false, &keys).unwrap();
    assert_eq!((choice.key, choice.power_index), (PowerKey::KeyH, 1));
    let choice = power_up(false, true, true, &keys).unwrap();
    assert_eq!((choice.key, choice.power_index), (PowerKey::KeyJ, 0));
    assert!(power_up(false, false, true, &keys).is_none());
    assert!(power_up(false, false, false, &keys).is_none());
    assert!(power_up(true, true, true, &vec![]).is_none());
}

fn step(equipped_by: u64, off_screen: bool) -> AmmoStep {
    AmmoStep { equipped_by, off_screen }
}

#[test]
fn player_ammo_moves_until_one_leaves() {
    let player = 7u64;
    let ammos = vec![step(7, false), step(3, true), step(7, true), step(7, false)];
    assert_eq!(
        move_player_ammo(Some(player), &ammos),
        vec![AmmoAction::Move, AmmoAction::Untouched, AmmoAction::Despawn, AmmoAction::Untouched]
    );
    assert_eq!(
        move_enemy_ammo(Some(player), &ammos),
        vec![AmmoAction::Untouched, AmmoAction::Despawn, AmmoAction::Untouched, AmmoAction::Untouched]
    );
    assert_eq!(move_player_ammo(None, &ammos), vec![AmmoAction::Untouched; 4]);
}

#[test]
fn ammo_systems_never_share_ammo() {
    let player = 1u64;
    let ammos = vec![step(1, false), step(2, false), step(1, false), step(5, false)];
    let mine = move_player_ammo(Some(player), &ammos);
    let theirs = move_enemy_ammo(Some(player), &ammos);
    for (a, b) in mine.iter().zip(theirs.iter()) {
        assert!(*a == AmmoAction::Untouched || *b == AmmoAction::Untouched);
    }
}

#[test]
fn animation_walks_and_wraps() {
    let indices = AnimationIndices { first: 2, last: 4 };
    assert_eq!(animate_sprite(2, &indices, true), 3);
    assert_eq!(animate_sprite(4, &indices, true), 2);
    assert_eq!(animate_sprite(3, &indices, false), 3);
    let mut frame = 3;
    for _ in 0..3 {
        frame = animate_sprite(frame, &indices, true);
        assert!(2 <= frame && frame <= 4);
    }
    assert_eq!(frame, 3);
}

#[test]
fn audio_is_silent() {
    assert_eq!(hit_enemy_audio(), None);
    assert_eq!(hit_item_audio(), None);
    assert_eq!(hit_weapon_audio(), None);
    assert_eq!(player_hit_audio(), None);
}

#[test]
fn cleanup_removes_every_marked_entity() {
    assert_eq!(cleanup_system(&vec![3, 1, 4]), vec![3, 1, 4]);
    assert!(cleanup_system(&vec![]).is_empty());
}

#[test]
fn clicks_and_keys() {
    assert!(handle_click(true, true));
    assert!(!handle_click(false, true));
    assert!(!handle_click(true, false));
    assert_eq!(player_move_direction(true, true, false, false), (-1, 1));
    assert_eq!(player_move_direction(true, true, true, true), (0, 0));
    assert_eq!(player_move_direction(false, false, true, true), (1, -1));
}

#[test]
fn shots_use_the_last_weapon_carried() {
    assert_eq!(on_mouse_click(false, &vec![]), None);
    assert_eq!(on_mouse_click(true, &vec![]), Some(WeaponTypeEnum::Bow));
    let weapons = vec![
        Weapon { weapon_type: WeaponTypeEnum::Bow },
        Weapon { weapon_type: WeaponTypeEnum::Wand },
    ];
    assert_eq!(on_mouse_click(true, &weapons), Some(WeaponTypeEnum::Wand));
}

#[test]
fn enemies_but_mages_are_retargeted() {
    let classes = vec![EnemyClassEnum::Orc, EnemyClassEnum::Mage, EnemyClassEnum::BossMage];
    let random = vec![false, false, true];
    assert_eq!(
        change_enemy_direction(&classes, &random),
        vec![
            Some(EnemyRetarget { side: 1, is_random: true }),
            None,
            Some(EnemyRetarget { side: 1, is_random: false }),
        ]
    );
    let classes = vec![EnemyClassEnum::Orc, EnemyClassEnum::Orc];
    let random = vec![true, true];
    assert_eq!(change_enemy_direction(&classes, &random)[1], Some(EnemyRetarget { side: -1, is_random: false }));
}

#[test]
fn stats_panel_follows_the_k_key() {
    let children = vec![false, true, true];
    assert_eq!(handle_show_player_stats_ui(true, true, 0, &children), StatsPanelAction::Show { weapon_child: 1 });
    assert_eq!(handle_show_player_stats_ui(true, true, 1, &children), StatsPanelAction::Nothing);
    assert_eq!(handle_show_player_stats_ui(true, true, 0, &vec![false]), StatsPanelAction::Nothing);
    assert_eq!(handle_show_player_stats_ui(true, false, 1, &children), StatsPanelAction::Hide);
    assert_eq!(handle_show_player_stats_ui(true, false, 2, &children), StatsPanelAction::Nothing);
    assert_eq!(handle_show_player_stats_ui(false, false, 1, &children), StatsPanelAction::Nothing);
}
