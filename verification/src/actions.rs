use vstd::prelude::*;

use crate::config::{EnemyClassEnum, WeaponTypeEnum};
use crate::waves::finds;

verus! {

/// A weapon and the kind of ammo it shoots.
#[derive(PartialEq, Eq, Structural, Clone, Copy, Debug)]
pub struct Weapon {
    pub weapon_type: WeaponTypeEnum,
}

/// A left click shoots when it was just pressed and the pointer lies over the
/// game world.
pub fn handle_click(cursor_in_world: bool, left_just_pressed: bool) -> (shoot: bool)
    ensures
        shoot == (cursor_in_world && left_just_pressed),
{
    cursor_in_world && left_just_pressed
}

/// The weapon a shot of the player uses: the last weapon the player carries,
/// a bow when the player carries none, and no shot without a player.
pub fn on_mouse_click(player_present: bool, carried_weapons: &Vec<Weapon>) -> (shot: Option<WeaponTypeEnum>)
    ensures
        !player_present ==> shot is None,
        player_present && carried_weapons@.len() == 0 ==> shot == Some(WeaponTypeEnum::Bow),
        player_present && carried_weapons@.len() > 0 ==> shot == Some(
            carried_weapons@[carried_weapons@.len() - 1].weapon_type,
        ),
{
    if !player_present {
        return None;
    }
    let mut weapon_type = WeaponTypeEnum::default();
    let mut i: usize = 0;
    while i < carried_weapons.len()
        invariant
            i <= carried_weapons@.len(),
            i == 0 ==> weapon_type == WeaponTypeEnum::Bow,
            i > 0 ==> weapon_type == carried_weapons@[i - 1].weapon_type,
        decreases carried_weapons@.len() - i,
    {
        weapon_type = carried_weapons[i].weapon_type;
        i = i + 1;
    }
    Some(weapon_type)
}

/// The direction the player walks: one step right for `right` and left for
/// `left`, up for `up` and down for `down`; opposite keys cancel out.
pub fn player_move_direction(up: bool, left: bool, down: bool, right: bool) -> (direction: (i8, i8))
    ensures
        direction.0 == (if right { 1int } else { 0int }) - (if left { 1int } else { 0int }),
        direction.1 == (if up { 1int } else { 0int }) - (if down { 1int } else { 0int }),
{
    let mut x: i8 = 0;
    let mut y: i8 = 0;
    if up {
        y = y + 1;
    }
    if left {
        x = x - 1;
    }
    if down {
        y = y - 1;
    }
    if right {
        x = x + 1;
    }
    (x, y)
}

/// A new aim of an enemy that wanders: the side of the player it heads to,
/// and whether it now wanders or charges.
#[derive(PartialEq, Eq, Structural, Clone, Copy, Debug)]
pub struct EnemyRetarget {
    pub side: i8,
    pub is_random: bool,
}

/// How an enemy is re-aimed: mages keep their place; the others switch between
/// wandering and charging, aiming at one side of the player when their
/// position in the enemy list is even and at the other when it is odd.
pub open spec fn enemy_retarget(class: EnemyClassEnum, is_random: bool, index: int) -> Option<EnemyRetarget> {
    if class == EnemyClassEnum::Mage {
        None
    } else {
        Some(EnemyRetarget { side: if index % 2 != 0 { -1i8 } else { 1i8 }, is_random: !is_random })
    }
}

/// Every enemy but a mage is re-aimed: it switches between wandering and
/// charging, aims at one side of the player or the other, and two enemies
/// next to each other in the list aim at opposite sides. Mages never move.
pub proof fn lemma_all_but_mages_are_retargeted(class: EnemyClassEnum, is_random: bool, index: int)
    requires
        index >= 0,
    ensures
        class == EnemyClassEnum::Mage ==> enemy_retarget(class, is_random, index) is None,
        class != EnemyClassEnum::Mage ==> (enemy_retarget(class, is_random, index) matches Some(r) && r.is_random
            != is_random && (r.side == 1 || r.side == -1)),
        class != EnemyClassEnum::Mage ==> (enemy_retarget(class, is_random, index) matches Some(r)
            && enemy_retarget(class, is_random, index + 1) matches Some(s) && r.side == -s.side),
        index % 2 == 0 && class != EnemyClassEnum::Mage ==> (enemy_retarget(class, is_random, index) matches Some(r)
            && r.side == 1),
{
}

/// Re-aims the enemies, listed with their class and whether they wander.
pub fn change_enemy_direction(classes: &Vec<EnemyClassEnum>, is_random: &Vec<bool>) -> (retargets: Vec<
    Option<EnemyRetarget>,
>)
    requires
        classes@.len() == is_random@.len(),
    ensures
        retargets@.len() == classes@.len(),
        forall|i: int|
            0 <= i < classes@.len() ==> retargets@[i] == enemy_retarget(classes@[i], is_random@[i], i),
{
    let mut retargets: Vec<Option<EnemyRetarget>> = Vec::new();
    let mut i: usize = 0;
    while i < classes.len()
        invariant
            i <= classes@.len(),
            classes@.len() == is_random@.len(),
            retargets@.len() == i,
            forall|k: int| 0 <= k < i ==> retargets@[k] == enemy_retarget(classes@[k], is_random@[k], k),
        decreases classes@.len() - i,
    {
        let retarget = if classes[i] == EnemyClassEnum::Mage {
            None
        } else {
            let side: i8 = if i % 2 != 0 {
                -1
            } else {
                1
            };
            Some(EnemyRetarget { side, is_random: !is_random[i] })
        };
        retargets.push(retarget);
        i = i + 1;
    }
    retargets
}

/// What the statistics panel does this frame.
#[derive(PartialEq, Eq, Structural, Clone, Copy, Debug)]
pub enum StatsPanelAction {
    Nothing,
    /// Show the panel with the statistics of the weapon at this place among the player's children.
    Show { weapon_child: usize },
    Hide,
}

/// The statistics panel shows while `K` is held: it is opened, with the
/// player's first weapon, when none is open, and closed once `K` is released
/// and exactly one is open. Nothing happens without a player.
pub fn handle_show_player_stats_ui(
    player_present: bool,
    key_k_pressed: bool,
    open_panels: usize,
    child_is_weapon: &Vec<bool>,
) -> (action: StatsPanelAction)
    ensures
        !player_present ==> action == StatsPanelAction::Nothing,
        player_present && key_k_pressed && open_panels != 0 ==> action == StatsPanelAction::Nothing,
        player_present && key_k_pressed && open_panels == 0 ==> match action {
            StatsPanelAction::Show { weapon_child } => finds(child_is_weapon@, true, Some(weapon_child)),
            StatsPanelAction::Nothing => finds(child_is_weapon@, true, None),
            StatsPanelAction::Hide => false,
        },
        player_present && !key_k_pressed ==> action == (if open_panels == 1 {
            StatsPanelAction::Hide
        } else {
            StatsPanelAction::Nothing
        }),
{
    if !player_present {
        return StatsPanelAction::Nothing;
    }
    if key_k_pressed {
        if open_panels == 0 {
            let mut i: usize = 0;
            while i < child_is_weapon.len()
                invariant
                    i <= child_is_weapon@.len(),
                    player_present && key_k_pressed && open_panels == 0,
                    forall|j: int| 0 <= j < i ==> child_is_weapon@[j] != true,
                decreases child_is_weapon@.len() - i,
            {
                if child_is_weapon[i] {
                    return StatsPanelAction::Show { weapon_child: i };
                }
                i = i + 1;
            }
        }
        return StatsPanelAction::Nothing;
    }
    if open_panels == 1 {
        StatsPanelAction::Hide
    } else {
        StatsPanelAction::Nothing
    }
}

} // verus!
