use vstd::prelude::*;

use crate::config::{PowerKey, PowerTypeEnum};
use crate::events::{DespawnPower, GameEvent, OnUpdatePowerUI};
use crate::sprites::SpriteKind;
use crate::text::{decimal, decimal_text};
use crate::timer::CurrentWave;
use crate::util::{get_key_code_based_on_power_type, get_power_sprite_based_on_power_type, power_key, power_sprite};
use crate::waves::{finds, find_wave_entry};

verus! {

/// A power shown in the power list of the HUD, with the level it has reached.
#[derive(PartialEq, Eq, Structural, Clone, Copy, Debug)]
pub struct PowerUiEntry {
    pub power_type: PowerTypeEnum,
    pub power_level: u32,
}

/// Entry `i` is the first entry of the power list showing `power_type`.
pub open spec fn is_first_power_entry(entries: Seq<PowerUiEntry>, power_type: PowerTypeEnum, i: int) -> bool {
    &&& 0 <= i < entries.len()
    &&& entries[i].power_type == power_type
    &&& forall|j: int| 0 <= j < i ==> entries[j].power_type != power_type
}

/// What the power list of the HUD does about a power the player was given.
pub enum PowerUiChange {
    /// The power was already listed: entry `index` went up a level and shows `text`.
    LevelRaised { index: usize, text: String },
    /// The power is new: an entry with its picture and key is added to the list.
    Spawn { power_type: PowerTypeEnum, keycode: PowerKey, sprite: SpriteKind },
}

/// When the player is given a power, the power list shows it one level higher
/// if it lists it already, and a new entry for it otherwise.
pub fn update_power_ui(entries: &mut Vec<PowerUiEntry>, event: OnUpdatePowerUI) -> (change: PowerUiChange)
    requires
        forall|i: int| is_first_power_entry(old(entries)@, event.power_type, i) ==> old(entries)@[i].power_level < u32::MAX,
    ensures
        match change {
            PowerUiChange::LevelRaised { index, text } => {
                &&& is_first_power_entry(old(entries)@, event.power_type, index as int)
                &&& final(entries)@ == old(entries)@.update(
                    index as int,
                    PowerUiEntry {
                        power_type: event.power_type,
                        power_level: (old(entries)@[index as int].power_level + 1) as u32,
                    },
                )
                &&& text@ == decimal((old(entries)@[index as int].power_level + 1) as nat)
            },
            PowerUiChange::Spawn { power_type, keycode, sprite } => {
                &&& forall|j: int| 0 <= j < old(entries)@.len() ==> old(entries)@[j].power_type != event.power_type
                &&& final(entries)@ == old(entries)@
                &&& power_type == event.power_type
                &&& keycode == event.keycode
                &&& sprite == power_sprite(event.power_type)
            },
        },
{
    let mut i: usize = 0;
    while i < entries.len()
        invariant
            i <= entries@.len(),
            entries@ == old(entries)@,
            forall|j: int| 0 <= j < i ==> entries@[j].power_type != event.power_type,
            forall|j: int| is_first_power_entry(old(entries)@, event.power_type, j) ==> old(entries)@[j].power_level < u32::MAX,
        decreases entries@.len() - i,
    {
        let entry = entries[i];
        if entry.power_type == event.power_type {
            assert(is_first_power_entry(old(entries)@, event.power_type, i as int));
            let power_level = entry.power_level + 1;
            entries.set(i, PowerUiEntry { power_type: entry.power_type, power_level });
            return PowerUiChange::LevelRaised { index: i, text: decimal_text(power_level as u64) };
        }
        i = i + 1;
    }
    PowerUiChange::Spawn {
        power_type: event.power_type,
        keycode: event.keycode,
        sprite: get_power_sprite_based_on_power_type(event.power_type),
    }
}

/// Raising a power's level leaves every other entry as it was, and no level goes down.
pub proof fn lemma_power_levels_only_grow(entries: Seq<PowerUiEntry>, power_type: PowerTypeEnum, index: int)
    requires
        is_first_power_entry(entries, power_type, index),
        entries[index].power_level < u32::MAX,
    ensures
        forall|j: int|
            0 <= j < entries.len() ==> entries.update(
                index,
                PowerUiEntry { power_type, power_level: (entries[index].power_level + 1) as u32 },
            )[j].power_level >= entries[j].power_level,
        forall|j: int|
            0 <= j < entries.len() && j != index ==> entries.update(
                index,
                PowerUiEntry { power_type, power_level: (entries[index].power_level + 1) as u32 },
            )[j] == entries[j],
{
}

/// The first of the player's powers bound to `key`.
fn find_power_key(keys: &Vec<PowerKey>, key: PowerKey) -> (found: Option<usize>)
    ensures
        finds(keys@, key, found),
{
    let mut i: usize = 0;
    while i < keys.len()
        invariant
            i <= keys@.len(),
            forall|j: int| 0 <= j < i ==> keys@[j] != key,
        decreases keys@.len() - i,
    {
        if keys[i] == key {
            return Some(i);
        }
        i = i + 1;
    }
    None
}

/// A row of the per-wave power table: the wave it belongs to and the power it gives.
#[derive(PartialEq, Eq, Structural, Clone, Copy, Debug)]
pub struct PowerSlot {
    pub level: usize,
    pub power_type: PowerTypeEnum,
}

/// How the player is given the power of the current wave.
pub struct PowerFoundPlan {
    /// The row of the power table to equip the player with.
    pub table_index: usize,
    /// The player's power (by its position among the player's powers) that the
    /// new one replaces, because both use the same key.
    pub replaced: Option<usize>,
    pub events: Vec<GameEvent>,
}

/// The levels of the rows of a power table.
pub open spec fn slot_levels(table: Seq<PowerSlot>) -> Seq<usize> {
    table.map_values(|slot: PowerSlot| slot.level)
}

/// When the player is given the current wave's power: the power comes from the
/// table's row for the wave; a power of the player's with the same key is
/// replaced; and the power list of the HUD is told. Nothing happens without a
/// player or without a row for the wave.
pub fn on_power_found(
    player_present: bool,
    player_power_keys: &Vec<PowerKey>,
    power_table: &Vec<PowerSlot>,
    current_wave: CurrentWave,
) -> (plan: Option<PowerFoundPlan>)
    ensures
        !player_present ==> plan is None,
        player_present ==> match plan {
            None => finds(slot_levels(power_table@), current_wave.0 as usize, None),
            Some(p) => {
                &&& finds(slot_levels(power_table@), current_wave.0 as usize, Some(p.table_index))
                &&& finds(
                    player_power_keys@,
                    power_key(power_table@[p.table_index as int].power_type),
                    p.replaced,
                )
                &&& p.events@ == seq![
                    GameEvent::OnUpdatePowerUI(
                        OnUpdatePowerUI {
                            power_type: power_table@[p.table_index as int].power_type,
                            keycode: power_key(power_table@[p.table_index as int].power_type),
                        },
                    ),
                ]
            },
        },
{
    if !player_present {
        return None;
    }
    let mut levels: Vec<usize> = Vec::new();
    let mut i: usize = 0;
    while i < power_table.len()
        invariant
            i <= power_table@.len(),
            levels@ == slot_levels(power_table@).subrange(0, i as int),
        decreases power_table@.len() - i,
    {
        levels.push(power_table[i].level);
        i = i + 1;
    }
    assert(levels@ == slot_levels(power_table@));
    let found = find_wave_entry(&levels, current_wave);
    let table_index = match found {
        None => return None,
        Some(index) => index,
    };
    let power_type = power_table[table_index].power_type;
    let keycode = get_key_code_based_on_power_type(power_type);

    let replaced = find_power_key(player_power_keys, keycode);
    let mut events: Vec<GameEvent> = Vec::new();
    events.push(GameEvent::OnUpdatePowerUI(OnUpdatePowerUI { power_type, keycode }));
    Some(PowerFoundPlan { table_index, replaced, events })
}

/// A spawned power as the clean-up sees it: its entity (by its bits) and its key.
#[derive(PartialEq, Eq, Structural, Clone, Copy, Debug)]
pub struct PowerInstance {
    pub entity: u64,
    pub trigger_key: PowerKey,
}

/// A spawned power goes away on a clean-up of `event`'s kind: only circles of
/// death are cleaned up, and only those the player does not carry.
pub open spec fn power_cleaned_up(event: DespawnPower, player_powers: Seq<u64>, power: PowerInstance) -> bool {
    &&& event.0 == PowerTypeEnum::CircleOfDeath
    &&& !player_powers.contains(power.entity)
    &&& power.trigger_key == power_key(PowerTypeEnum::CircleOfDeath)
}

/// Which spawned powers go away when a power of the event's kind ends: with the
/// player on the map, every circle of death that the player does not carry.
pub fn despawn_powers(
    event: DespawnPower,
    player_present: bool,
    player_powers: &Vec<u64>,
    powers: &Vec<PowerInstance>,
) -> (despawned: Vec<bool>)
    ensures
        despawned@.len() == powers@.len(),
        forall|i: int|
            0 <= i < powers@.len() ==> despawned@[i] == (player_present && power_cleaned_up(
                event,
                player_powers@,
                powers@[i],
            )),
{
    let circle_key = get_key_code_based_on_power_type(PowerTypeEnum::CircleOfDeath);
    let cleans = player_present && event.0 == PowerTypeEnum::CircleOfDeath;
    let mut despawned: Vec<bool> = Vec::new();
    let mut i: usize = 0;
    while i < powers.len()
        invariant
            i <= powers@.len(),
            despawned@.len() == i,
            circle_key == power_key(PowerTypeEnum::CircleOfDeath),
            cleans == (player_present && event.0 == PowerTypeEnum::CircleOfDeath),
            forall|k: int|
                0 <= k < i ==> despawned@[k] == (player_present && power_cleaned_up(event, player_powers@, powers@[k])),
        decreases powers@.len() - i,
    {
        let power = powers[i];
        let mut carried = false;
        let mut j: usize = 0;
        while j < player_powers.len()
            invariant
                j <= player_powers@.len(),
                carried == (exists|m: int| 0 <= m < j && player_powers@[m] == power.entity),
            decreases player_powers@.len() - j,
        {
            if player_powers[j] == power.entity {
                carried = true;
            }
            j = j + 1;
        }
        assert(carried == player_powers@.contains(power.entity));
        despawned.push(cleans && !carried && power.trigger_key == circle_key);
        i = i + 1;
    }
    despawned
}

/// Whether a spawned power goes away when it hits an enemy: explosions do,
/// lasers and circles of death end in their own way.
pub fn power_despawned_on_hit(power_type: PowerTypeEnum) -> (despawned: bool)
    ensures
        despawned == (power_type == PowerTypeEnum::Explosions),
{
    power_type == PowerTypeEnum::Explosions
}

/// Which of the player's powers a key press asks for.
#[derive(PartialEq, Eq, Structural, Clone, Copy, Debug)]
pub struct PowerUpChoice {
    pub key: PowerKey,
    pub power_index: usize,
}

/// The power key pressed this frame: `H` before `J` before `L`.
pub open spec fn pressed_power_key(h: bool, j: bool, l: bool) -> Option<PowerKey> {
    if h {
        Some(PowerKey::KeyH)
    } else if j {
        Some(PowerKey::KeyJ)
    } else if l {
        Some(PowerKey::KeyL)
    } else {
        None
    }
}

/// A power key is chosen exactly when one of the three is pressed; the key
/// chosen is one that was pressed, `H` wins over the others and `J` over `L`,
/// and each key pressed alone chooses itself.
pub proof fn lemma_pressed_power_key(h: bool, j: bool, l: bool)
    ensures
        (pressed_power_key(h, j, l) is Some) == (h || j || l),
        pressed_power_key(h, j, l) == Some(PowerKey::KeyH) ==> h,
        pressed_power_key(h, j, l) == Some(PowerKey::KeyJ) ==> j && !h,
        pressed_power_key(h, j, l) == Some(PowerKey::KeyL) ==> l && !h && !j,
        h && !j && !l ==> pressed_power_key(h, j, l) == Some(PowerKey::KeyH),
        !h && j && !l ==> pressed_power_key(h, j, l) == Some(PowerKey::KeyJ),
        !h && !j && l ==> pressed_power_key(h, j, l) == Some(PowerKey::KeyL),
{
}

/// The power the player uses this frame: the first of the player's powers
/// bound to the key just pressed (`H`, else `J`, else `L`); nothing when the
/// player has no power, pressed no power key, or has no power on that key.
pub fn power_up(
    just_pressed_h: bool,
    just_pressed_j: bool,
    just_pressed_l: bool,
    player_power_keys: &Vec<PowerKey>,
) -> (choice: Option<PowerUpChoice>)
    ensures
        player_power_keys@.len() == 0 ==> choice is None,
        player_power_keys@.len() > 0 ==> match pressed_power_key(just_pressed_h, just_pressed_j, just_pressed_l) {
            None => choice is None,
            Some(key) => match choice {
                Some(c) => c.key == key && finds(player_power_keys@, key, Some(c.power_index)),
                None => finds(player_power_keys@, key, None),
            },
        },
{
    if player_power_keys.len() == 0 {
        return None;
    }
    let key = if just_pressed_h {
        PowerKey::KeyH
    } else if just_pressed_j {
        PowerKey::KeyJ
    } else if just_pressed_l {
        PowerKey::KeyL
    } else {
        return None;
    };
    match find_power_key(player_power_keys, key) {
        Some(power_index) => Some(PowerUpChoice { key, power_index }),
        None => None,
    }
}

} // verus!
