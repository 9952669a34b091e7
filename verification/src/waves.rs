use vstd::prelude::*;

use crate::config::ItemKind;
use crate::events::{GameEvent, PlayerProfileUISet, PowerFound};
use crate::state::GameState;
use crate::text::{decimal, labeled_number};
use crate::timer::CurrentWave;

verus! {

/// `found` is the index of the first entry of `entries` equal to `target`, or
/// `None` when no entry is.
pub open spec fn finds<T>(entries: Seq<T>, target: T, found: Option<usize>) -> bool {
    match found {
        Some(i) => {
            &&& i < entries.len()
            &&& entries[i as int] == target
            &&& forall|j: int| 0 <= j < i ==> entries[j] != target
        },
        None => forall|j: int| 0 <= j < entries.len() ==> entries[j] != target,
    }
}

/// The entry of a per-wave table that belongs to `wave`: the first one whose
/// level is the wave's number.
pub fn find_wave_entry(levels: &Vec<usize>, wave: CurrentWave) -> (found: Option<usize>)
    ensures
        finds(levels@, wave.0 as usize, found),
{
    let target = wave.0 as usize;
    let mut i: usize = 0;
    while i < levels.len()
        invariant
            i <= levels@.len(),
            target == wave.0 as usize,
            forall|j: int| 0 <= j < i ==> levels@[j] != target,
        decreases levels@.len() - i,
    {
        if levels[i] == target {
            return Some(i);
        }
        i = i + 1;
    }
    None
}

/// What to spawn for a wave: the entries of the enemy, weapon and item tables.
/// The search stops at the first table without an entry for the wave, so a
/// later entry is only chosen when the earlier ones were found.
pub open spec fn spawn_chain(
    enemy_levels: Seq<usize>,
    weapon_levels: Seq<usize>,
    item_levels: Seq<usize>,
    wave: usize,
    enemy: Option<usize>,
    weapon: Option<usize>,
    item: Option<usize>,
) -> bool {
    &&& finds(enemy_levels, wave, enemy)
    &&& enemy is None ==> weapon is None
    &&& enemy is Some ==> finds(weapon_levels, wave, weapon)
    &&& weapon is None ==> item is None
    &&& weapon is Some ==> finds(item_levels, wave, item)
}

/// What happens once the player is spawned.
pub struct SpawnPlan {
    pub next_state: Option<GameState>,
    pub enemy: Option<usize>,
    pub weapon: Option<usize>,
    pub item: Option<usize>,
    pub spawn_hud: bool,
    pub events: Vec<GameEvent>,
}

/// Once the player is spawned the game becomes alive, the enemies, weapons and
/// items of the current wave are chosen from their tables, and the weapon and
/// profile panels of the HUD are shown once all three were found (the profile
/// panel then asks for its health and mana bars).
pub fn on_player_spawned(
    state: GameState,
    current_wave: CurrentWave,
    enemy_levels: &Vec<usize>,
    weapon_levels: &Vec<usize>,
    item_levels: &Vec<usize>,
) -> (plan: SpawnPlan)
    ensures
        plan.next_state == (if state == GameState::Alive { None } else { Some(GameState::Alive) }),
        spawn_chain(
            enemy_levels@,
            weapon_levels@,
            item_levels@,
            current_wave.0 as usize,
            plan.enemy,
            plan.weapon,
            plan.item,
        ),
        plan.spawn_hud == plan.item is Some,
        plan.events@ == (if plan.item is Some {
            seq![GameEvent::PlayerProfileUISet(PlayerProfileUISet)]
        } else {
            Seq::empty()
        }),
{
    let next_state = if state != GameState::Alive {
        Some(GameState::Alive)
    } else {
        None
    };
    let enemy = find_wave_entry(enemy_levels, current_wave);
    if enemy.is_none() {
        return SpawnPlan { next_state, enemy, weapon: None, item: None, spawn_hud: false, events: Vec::new() };
    }
    let weapon = find_wave_entry(weapon_levels, current_wave);
    if weapon.is_none() {
        return SpawnPlan { next_state, enemy, weapon, item: None, spawn_hud: false, events: Vec::new() };
    }
    let item = find_wave_entry(item_levels, current_wave);
    if item.is_none() {
        return SpawnPlan { next_state, enemy, weapon, item, spawn_hud: false, events: Vec::new() };
    }
    let mut events: Vec<GameEvent> = Vec::new();
    events.push(GameEvent::PlayerProfileUISet(PlayerProfileUISet));
    SpawnPlan { next_state, enemy, weapon, item, spawn_hud: true, events }
}

/// What happens when a new wave starts.
pub struct WaveChangePlan {
    pub despawn_items: Vec<bool>,
    pub despawn_weapons: Vec<bool>,
    pub enemy: Option<usize>,
    pub weapon: Option<usize>,
    pub item: Option<usize>,
    pub events: Vec<GameEvent>,
    pub wave_text: Option<String>,
}

/// When a new wave starts, with the player on the map: the items left on the
/// map go away except health packs, so do the weapons nobody carries; the
/// wave's enemies, weapons and items are chosen from their tables, and once all
/// three were found the player is given the wave's power and the HUD shows
/// `"Wave #"` and the wave number. Without a player nothing happens.
pub fn on_wave_changed(
    player_present: bool,
    current_wave: CurrentWave,
    item_kinds: &Vec<ItemKind>,
    weapon_has_parent: &Vec<bool>,
    enemy_levels: &Vec<usize>,
    weapon_levels: &Vec<usize>,
    item_levels: &Vec<usize>,
) -> (plan: WaveChangePlan)
    ensures
        plan.despawn_items@.len() == item_kinds@.len(),
        forall|i: int|
            0 <= i < item_kinds@.len() ==> plan.despawn_items@[i] == (player_present && item_kinds@[i]
                != ItemKind::Health),
        plan.despawn_weapons@.len() == weapon_has_parent@.len(),
        forall|i: int|
            0 <= i < weapon_has_parent@.len() ==> plan.despawn_weapons@[i] == (player_present
                && !weapon_has_parent@[i]),
        !player_present ==> plan.enemy is None && plan.weapon is None && plan.item is None,
        player_present ==> spawn_chain(
            enemy_levels@,
            weapon_levels@,
            item_levels@,
            current_wave.0 as usize,
            plan.enemy,
            plan.weapon,
            plan.item,
        ),
        plan.item is Some ==> plan.events@ == seq![GameEvent::PowerFound(PowerFound)],
        plan.item is None ==> plan.events@.len() == 0,
        plan.item is Some ==> (plan.wave_text matches Some(t) && t@ == "Wave #"@ + decimal(
            current_wave.0 as nat,
        )),
        plan.item is None ==> plan.wave_text is None,
{
    let mut despawn_items: Vec<bool> = Vec::new();
    let mut i: usize = 0;
    while i < item_kinds.len()
        invariant
            i <= item_kinds@.len(),
            despawn_items@.len() == i,
            forall|j: int|
                0 <= j < i ==> despawn_items@[j] == (player_present && item_kinds@[j] != ItemKind::Health),
        decreases item_kinds@.len() - i,
    {
        despawn_items.push(player_present && item_kinds[i] != ItemKind::Health);
        i = i + 1;
    }

    let mut despawn_weapons: Vec<bool> = Vec::new();
    let mut k: usize = 0;
    while k < weapon_has_parent.len()
        invariant
            k <= weapon_has_parent@.len(),
            despawn_weapons@.len() == k,
            forall|j: int|
                0 <= j < k ==> despawn_weapons@[j] == (player_present && !weapon_has_parent@[j]),
        decreases weapon_has_parent@.len() - k,
    {
        despawn_weapons.push(player_present && !weapon_has_parent[k]);
        k = k + 1;
    }

    let mut events: Vec<GameEvent> = Vec::new();
    if !player_present {
        return WaveChangePlan {
            despawn_items,
            despawn_weapons,
            enemy: None,
            weapon: None,
            item: None,
            events,
            wave_text: None,
        };
    }
    let enemy = find_wave_entry(enemy_levels, current_wave);
    if enemy.is_none() {
        return WaveChangePlan {
            despawn_items,
            despawn_weapons,
            enemy,
            weapon: None,
            item: None,
            events,
            wave_text: None,
        };
    }
    let weapon = find_wave_entry(weapon_levels, current_wave);
    if weapon.is_none() {
        return WaveChangePlan {
            despawn_items,
            despawn_weapons,
            enemy,
            weapon,
            item: None,
            events,
            wave_text: None,
        };
    }
    let item = find_wave_entry(item_levels, current_wave);
    if item.is_none() {
        return WaveChangePlan {
            despawn_items,
            despawn_weapons,
            enemy,
            weapon,
            item,
            events,
            wave_text: None,
        };
    }
    events.push(GameEvent::PowerFound(PowerFound));
    let wave_text = labeled_number("Wave #", current_wave.0 as u64);
    WaveChangePlan {
        despawn_items,
        despawn_weapons,
        enemy,
        weapon,
        item,
        events,
        wave_text: Some(wave_text),
    }
}

} // verus!
