use vstd::prelude::*;

verus! {

/// The sound played when ammo hits an enemy: the game plays none.
pub fn hit_enemy_audio() -> (sound: Option<&'static str>)
    ensures
        sound is None,
{
    None
}

/// The sound played when the player picks up an item: the game plays none.
pub fn hit_item_audio() -> (sound: Option<&'static str>)
    ensures
        sound is None,
{
    None
}

/// The sound played when the player picks up a weapon: the game plays none.
pub fn hit_weapon_audio() -> (sound: Option<&'static str>)
    ensures
        sound is None,
{
    None
}

/// The sound played when an enemy hits the player: the game plays none, and
/// the timer that spaces such sounds out is not advanced either.
pub fn player_hit_audio() -> (sound: Option<&'static str>)
    ensures
        sound is None,
{
    None
}

} // verus!
