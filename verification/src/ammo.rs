use vstd::prelude::*;

use crate::config::WeaponTypeEnum;

verus! {

/// Ammo in flight: the weapon that shot it and the entity (by its bits) that carries that weapon.
#[derive(PartialEq, Eq, Structural, Clone, Copy, Debug)]
pub struct Ammo {
    pub weapon_type: WeaponTypeEnum,
    pub equipped_by: u64,
}

/// One piece of ammo as a movement system sees it in a frame: who shot it,
/// and whether the position it would move to lies off the background.
#[derive(PartialEq, Eq, Structural, Clone, Copy, Debug)]
pub struct AmmoStep {
    pub equipped_by: u64,
    pub off_screen: bool,
}

/// What a movement system does with a piece of ammo in a frame.
#[derive(PartialEq, Eq, Structural, Clone, Copy, Debug)]
pub enum AmmoAction {
    Untouched,
    Move,
    Despawn,
}

/// The ammo a movement system is in charge of: the player's own for the
/// player's system, everybody else's for the enemies' system.
pub open spec fn in_charge(player: u64, step: AmmoStep, player_side: bool) -> bool {
    if player_side {
        step.equipped_by == player
    } else {
        step.equipped_by != player
    }
}

/// Whether the system stopped before ammo `i`: some earlier ammo in its
/// charge left the background, and the frame ends at the first one that does.
pub open spec fn stopped_before(steps: Seq<AmmoStep>, player: u64, player_side: bool, i: int) -> bool {
    exists|j: int| 0 <= j < i && in_charge(player, steps[j], player_side) && steps[j].off_screen
}

/// What the system does with ammo `i`: nothing once it has stopped or when the
/// ammo is not in its charge; otherwise the ammo goes away when it would leave
/// the background, and moves when it would not.
pub open spec fn ammo_action(steps: Seq<AmmoStep>, player: u64, player_side: bool, i: int) -> AmmoAction {
    if stopped_before(steps, player, player_side, i) || !in_charge(player, steps[i], player_side) {
        AmmoAction::Untouched
    } else if steps[i].off_screen {
        AmmoAction::Despawn
    } else {
        AmmoAction::Move
    }
}

fn move_ammo(player: Option<u64>, ammos: &Vec<AmmoStep>, player_side: bool) -> (actions: Vec<AmmoAction>)
    ensures
        actions@.len() == ammos@.len(),
        forall|i: int|
            0 <= i < ammos@.len() ==> actions@[i] == (match player {
                Some(p) => ammo_action(ammos@, p, player_side, i),
                None => AmmoAction::Untouched,
            }),
{
    let mut actions: Vec<AmmoAction> = Vec::new();
    let mut stopped = false;
    let mut i: usize = 0;
    while i < ammos.len()
        invariant
            i <= ammos@.len(),
            actions@.len() == i,
            forall|k: int|
                0 <= k < i ==> actions@[k] == (match player {
                    Some(p) => ammo_action(ammos@, p, player_side, k),
                    None => AmmoAction::Untouched,
                }),
            player matches Some(p) ==> stopped == stopped_before(ammos@, p, player_side, i as int),
            player is None ==> !stopped,
        decreases ammos@.len() - i,
    {
        let step = ammos[i];
        let action = match player {
            None => AmmoAction::Untouched,
            Some(p) => {
                let mine = if player_side {
                    step.equipped_by == p
                } else {
                    step.equipped_by != p
                };
                if stopped || !mine {
                    AmmoAction::Untouched
                } else if step.off_screen {
                    AmmoAction::Despawn
                } else {
                    AmmoAction::Move
                }
            },
        };
        proof {
            if let Some(p) = player {
                if in_charge(p, ammos@[i as int], player_side) && ammos@[i as int].off_screen {
                    assert(stopped_before(ammos@, p, player_side, i + 1));
                } else {
                    assert(stopped_before(ammos@, p, player_side, i + 1) == stopped_before(
                        ammos@,
                        p,
                        player_side,
                        i as int,
                    )) by {
                        if stopped_before(ammos@, p, player_side, i + 1) {
                            let j = choose|j: int|
                                0 <= j < i + 1 && in_charge(p, ammos@[j], player_side)
                                    && ammos@[j].off_screen;
                            assert(j < i);
                        }
                    }
                }
            }
        }
        if let Some(p) = player {
            let mine = if player_side {
                step.equipped_by == p
            } else {
                step.equipped_by != p
            };
            if mine && step.off_screen {
                stopped = true;
            }
        }
        actions.push(action);
        i = i + 1;
    }
    actions
}

/// Moves the player's ammo for a frame: ammo shot by others is left alone; the
/// first of the player's ammo that would leave the background goes away and
/// ends the frame's movement; the player's other ammo moves. Without a player
/// nothing moves.
pub fn move_player_ammo(player: Option<u64>, ammos: &Vec<AmmoStep>) -> (actions: Vec<AmmoAction>)
    ensures
        actions@.len() == ammos@.len(),
        forall|i: int|
            0 <= i < ammos@.len() ==> actions@[i] == (match player {
                Some(p) => ammo_action(ammos@, p, true, i),
                None => AmmoAction::Untouched,
            }),
{
    move_ammo(player, ammos, true)
}

/// Moves the enemies' ammo for a frame, as `move_player_ammo` moves the
/// player's: the player's own ammo is left alone.
pub fn move_enemy_ammo(player: Option<u64>, ammos: &Vec<AmmoStep>) -> (actions: Vec<AmmoAction>)
    ensures
        actions@.len() == ammos@.len(),
        forall|i: int|
            0 <= i < ammos@.len() ==> actions@[i] == (match player {
                Some(p) => ammo_action(ammos@, p, false, i),
                None => AmmoAction::Untouched,
            }),
{
    move_ammo(player, ammos, false)
}

/// The two movement systems never both act on the same piece of ammo, and
/// each removes at most one piece of ammo per frame.
pub proof fn lemma_ammo_systems_do_not_overlap(steps: Seq<AmmoStep>, player: u64, i: int, k: int)
    requires
        0 <= i < k < steps.len(),
    ensures
        ammo_action(steps, player, true, i) == AmmoAction::Untouched
            || ammo_action(steps, player, false, i) == AmmoAction::Untouched,
        !(ammo_action(steps, player, true, i) == AmmoAction::Despawn && ammo_action(steps, player, true, k)
            == AmmoAction::Despawn),
        !(ammo_action(steps, player, false, i) == AmmoAction::Despawn && ammo_action(steps, player, false, k)
            == AmmoAction::Despawn),
{
    if ammo_action(steps, player, true, i) == AmmoAction::Despawn {
        assert(stopped_before(steps, player, true, k));
    }
    if ammo_action(steps, player, false, i) == AmmoAction::Despawn {
        assert(stopped_before(steps, player, false, k));
    }
}

} // verus!
