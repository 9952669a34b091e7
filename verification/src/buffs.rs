use vstd::prelude::*;

use crate::config::ItemKind;
use crate::events::{BuffUIAdd, BuffUIRemove, GameEvent};
use crate::sprites::SpriteKind;
use crate::text::{decimal, labeled_number};
use crate::util::{get_item_sprite_based_on_item_type, item_sprite};

verus! {

/// An icon of the buff row: the kind of buff and how many of it the player has.
#[derive(PartialEq, Eq, Structural, Clone, Copy, Debug)]
pub struct BuffsUI {
    pub item_type: ItemKind,
    pub counter: u32,
}

/// An icon of kind `shown` counts a newly picked buff of kind `added`: speed,
/// armor and shield buffs are counted on the icon of their kind; health packs
/// have no icon.
pub open spec fn counts_together(shown: ItemKind, added: ItemKind) -> bool {
    shown == added && added != ItemKind::Health
}

/// Icon `i` is the first icon that counts buffs of `kind`.
pub open spec fn is_first_buff_match(icons: Seq<BuffsUI>, kind: ItemKind, i: int) -> bool {
    &&& 0 <= i < icons.len()
    &&& counts_together(icons[i].item_type, kind)
    &&& forall|j: int| 0 <= j < i ==> !counts_together(icons[j].item_type, kind)
}

/// The first icon that counts buffs of `kind`, if any.
pub open spec fn first_buff_match(icons: Seq<BuffsUI>, kind: ItemKind) -> Option<int> {
    if exists|i: int| is_first_buff_match(icons, kind, i) {
        Some(choose|i: int| is_first_buff_match(icons, kind, i))
    } else {
        None
    }
}

proof fn lemma_first_buff_match_is(icons: Seq<BuffsUI>, kind: ItemKind, i: int)
    requires
        is_first_buff_match(icons, kind, i),
    ensures
        first_buff_match(icons, kind) == Some(i),
{
    let k = choose|k: int| is_first_buff_match(icons, kind, k);
    assert(is_first_buff_match(icons, kind, k));
    if k < i {
        assert(!counts_together(icons[k].item_type, kind));
    } else if i < k {
        assert(!counts_together(icons[i].item_type, kind));
    }
}

proof fn lemma_some_match_has_first(icons: Seq<BuffsUI>, kind: ItemKind, j: int)
    requires
        0 <= j < icons.len(),
        counts_together(icons[j].item_type, kind),
    ensures
        first_buff_match(icons, kind) is Some,
    decreases j,
{
    if exists|k: int| 0 <= k < j && counts_together(icons[k].item_type, kind) {
        let k = choose|k: int| 0 <= k < j && counts_together(icons[k].item_type, kind);
        lemma_some_match_has_first(icons, kind, k);
    } else {
        assert(is_first_buff_match(icons, kind, j));
    }
}

/// The icons once a buff of `kind` was picked up and its icon already shown:
/// the first icon that counts it goes up by one.
pub open spec fn buff_added_icons(icons: Seq<BuffsUI>, kind: ItemKind) -> Seq<BuffsUI> {
    match first_buff_match(icons, kind) {
        Some(i) => icons.update(i, BuffsUI { item_type: icons[i].item_type, counter: (icons[i].counter + 1) as u32 }),
        None => icons,
    }
}

/// The new text of an icon's counter.
pub struct BuffCounterText {
    pub index: usize,
    pub text: String,
}

/// What picking up a buff does to the buff row.
pub struct BuffAdded {
    pub counter_text: Option<BuffCounterText>,
    pub events: Vec<GameEvent>,
}

/// When the player picks up a buff, the icon that counts buffs of its kind
/// shows one more (`"x"` and the new count); without such an icon, one is asked for.
pub fn on_buff_added(icons: &mut Vec<BuffsUI>, item_kind: ItemKind) -> (out: BuffAdded)
    requires
        forall|i: int| is_first_buff_match(old(icons)@, item_kind, i) ==> old(icons)@[i].counter < u32::MAX,
    ensures
        final(icons)@ == buff_added_icons(old(icons)@, item_kind),
        match first_buff_match(old(icons)@, item_kind) {
            Some(i) => {
                &&& out.counter_text matches Some(t)
                &&& t.index == i
                &&& t.text@ == "x"@ + decimal((old(icons)@[i].counter + 1) as nat)
                &&& out.events@.len() == 0
            },
            None => {
                &&& out.counter_text is None
                &&& out.events@ == seq![GameEvent::BuffUIAdd(BuffUIAdd { item_kind })]
            },
        },
{
    let mut i: usize = 0;
    while i < icons.len()
        invariant
            i <= icons@.len(),
            icons@ == old(icons)@,
            forall|j: int| 0 <= j < i ==> !counts_together(icons@[j].item_type, item_kind),
            forall|j: int| is_first_buff_match(old(icons)@, item_kind, j) ==> old(icons)@[j].counter < u32::MAX,
        decreases icons@.len() - i,
    {
        let icon = icons[i];
        let same = match (icon.item_type, item_kind) {
            (ItemKind::Speed, ItemKind::Speed) | (ItemKind::Armor, ItemKind::Armor) | (
                ItemKind::Shield,
                ItemKind::Shield,
            ) => true,
            _ => false,
        };
        if same {
            proof {
                lemma_first_buff_match_is(old(icons)@, item_kind, i as int);
            }
            let counter = icon.counter + 1;
            icons.set(i, BuffsUI { item_type: icon.item_type, counter });
            let text = labeled_number("x", counter as u64);
            return BuffAdded { counter_text: Some(BuffCounterText { index: i, text }), events: Vec::new() };
        }
        i = i + 1;
    }
    let mut events: Vec<GameEvent> = Vec::new();
    events.push(GameEvent::BuffUIAdd(BuffUIAdd { item_kind }));
    BuffAdded { counter_text: None, events }
}

/// The icons once the icon for a new kind of buff was added: health packs get
/// none, the others get an icon counting one at the end of the row.
pub open spec fn buff_icon_added_icons(icons: Seq<BuffsUI>, kind: ItemKind) -> Seq<BuffsUI> {
    if kind == ItemKind::Health {
        icons
    } else {
        icons.push(BuffsUI { item_type: kind, counter: 1 })
    }
}

/// A new icon of the buff row: its picture and its counter's text.
pub struct BuffIcon {
    pub sprite: SpriteKind,
    pub counter_text: String,
}

/// Adds the icon of a new kind of buff at the end of the row, counting one,
/// with the item's picture; health packs get no icon.
pub fn on_buff_add_ui(icons: &mut Vec<BuffsUI>, item_kind: ItemKind) -> (icon: Option<BuffIcon>)
    ensures
        final(icons)@ == buff_icon_added_icons(old(icons)@, item_kind),
        item_kind == ItemKind::Health ==> icon is None,
        item_kind != ItemKind::Health ==> (icon matches Some(b) && b.sprite == item_sprite(item_kind)
            && b.counter_text@ == "x"@ + decimal(1)),
{
    if item_kind == ItemKind::Health {
        return None;
    }
    let sprite = get_item_sprite_based_on_item_type(item_kind);
    let counter: u32 = 1;
    icons.push(BuffsUI { item_type: item_kind, counter });
    Some(BuffIcon { sprite, counter_text: labeled_number("x", counter as u64) })
}

/// The icons once an expired buff of `kind` was taken off: only shields
/// expire; the first shield icon loses one, and goes away when it counted one.
pub open spec fn buff_removed_icons(icons: Seq<BuffsUI>, kind: ItemKind) -> Seq<BuffsUI> {
    if kind != ItemKind::Shield {
        icons
    } else {
        match first_buff_match(icons, ItemKind::Shield) {
            Some(i) => if icons[i].counter == 1 {
                icons.remove(i)
            } else {
                icons.update(i, BuffsUI { item_type: icons[i].item_type, counter: (icons[i].counter - 1) as u32 })
            },
            None => icons,
        }
    }
}

/// What taking an expired buff off does to the buff row.
pub enum BuffRemoval {
    Unchanged,
    IconRemoved { index: usize },
    CounterLowered { index: usize, text: String },
}

/// When a buff of `item_kind` expires: for a shield, the first shield icon
/// shows one less (`"x"` and the new count), or goes away when it counted one.
pub fn on_buff_remove_ui(icons: &mut Vec<BuffsUI>, item_kind: ItemKind) -> (out: BuffRemoval)
    requires
        forall|i: int| item_kind == ItemKind::Shield && is_first_buff_match(old(icons)@, ItemKind::Shield, i)
            ==> old(icons)@[i].counter >= 1,
    ensures
        final(icons)@ == buff_removed_icons(old(icons)@, item_kind),
        match out {
            BuffRemoval::Unchanged => item_kind != ItemKind::Shield || first_buff_match(
                old(icons)@,
                ItemKind::Shield,
            ) is None,
            BuffRemoval::IconRemoved { index } => {
                &&& item_kind == ItemKind::Shield
                &&& first_buff_match(old(icons)@, ItemKind::Shield) == Some(index as int)
                &&& old(icons)@[index as int].counter == 1
            },
            BuffRemoval::CounterLowered { index, text } => {
                &&& item_kind == ItemKind::Shield
                &&& first_buff_match(old(icons)@, ItemKind::Shield) == Some(index as int)
                &&& old(icons)@[index as int].counter != 1
                &&& text@ == "x"@ + decimal((old(icons)@[index as int].counter - 1) as nat)
            },
        },
{
    if item_kind != ItemKind::Shield {
        return BuffRemoval::Unchanged;
    }
    let mut i: usize = 0;
    while i < icons.len()
        invariant
            i <= icons@.len(),
            icons@ == old(icons)@,
            item_kind == ItemKind::Shield,
            forall|j: int| 0 <= j < i ==> !counts_together(icons@[j].item_type, ItemKind::Shield),
            forall|j: int| is_first_buff_match(old(icons)@, ItemKind::Shield, j) ==> old(icons)@[j].counter >= 1,
        decreases icons@.len() - i,
    {
        let icon = icons[i];
        if icon.item_type == ItemKind::Shield {
            proof {
                lemma_first_buff_match_is(old(icons)@, ItemKind::Shield, i as int);
            }
            if icon.counter == 1 {
                icons.remove(i);
                return BuffRemoval::IconRemoved { index: i };
            } else {
                let counter = icon.counter - 1;
                icons.set(i, BuffsUI { item_type: icon.item_type, counter });
                return BuffRemoval::CounterLowered { index: i, text: labeled_number("x", counter as u64) };
            }
        }
        i = i + 1;
    }
    BuffRemoval::Unchanged
}

/// Buffs of one kind other than health count together: when the row already
/// shows an icon of that kind, picking up another raises the first such icon by
/// one, leaves every other icon as it was, and asks for no new icon.
pub proof fn lemma_same_kind_buffs_count_together(icons: Seq<BuffsUI>, kind: ItemKind, i: int)
    requires
        kind != ItemKind::Health,
        0 <= i < icons.len(),
        icons[i].item_type == kind,
        forall|j: int| 0 <= j < i ==> icons[j].item_type != kind,
    ensures
        first_buff_match(icons, kind) == Some(i),
        buff_added_icons(icons, kind).len() == icons.len(),
        buff_added_icons(icons, kind)[i] == (BuffsUI { item_type: kind, counter: (icons[i].counter + 1) as u32 }),
        forall|j: int| 0 <= j < icons.len() && j != i ==> buff_added_icons(icons, kind)[j] == icons[j],
{
    assert(is_first_buff_match(icons, kind, i));
    lemma_first_buff_match_is(icons, kind, i);
}

/// The icons after the player picks up a buff: counted on its icon when one
/// shows it, otherwise on a new icon.
pub open spec fn buff_picked_up_icons(icons: Seq<BuffsUI>, kind: ItemKind) -> Seq<BuffsUI> {
    if first_buff_match(icons, kind) is Some {
        buff_added_icons(icons, kind)
    } else {
        buff_icon_added_icons(icons, kind)
    }
}

/// When a shield picked up expires, the buff row is back to what it was
/// before: the expiry undoes the pick-up.
pub proof fn lemma_shield_expiry_undoes_pickup(icons: Seq<BuffsUI>)
    requires
        forall|i: int|
            is_first_buff_match(icons, ItemKind::Shield, i) ==> 1 <= icons[i].counter < u32::MAX,
    ensures
        buff_removed_icons(buff_picked_up_icons(icons, ItemKind::Shield), ItemKind::Shield) == icons,
{
    let kind = ItemKind::Shield;
    match first_buff_match(icons, kind) {
        Some(i) => {
            assert(is_first_buff_match(icons, kind, i));
            let added = buff_added_icons(icons, kind);
            assert(is_first_buff_match(added, kind, i));
            lemma_first_buff_match_is(added, kind, i);
            assert(buff_removed_icons(added, kind) =~= icons);
        },
        None => {
            let added = icons.push(BuffsUI { item_type: kind, counter: 1 });
            let last = icons.len() as int;
            assert forall|j: int| 0 <= j < last implies !counts_together(added[j].item_type, kind) by {
                if counts_together(icons[j].item_type, kind) {
                    lemma_some_match_has_first(icons, kind, j);
                }
            }
            assert(is_first_buff_match(added, kind, last));
            lemma_first_buff_match_is(added, kind, last);
            assert(added.remove(last) =~= icons);
        },
    }
}

/// A buff group the player carries, as the expiry check sees it: its kind,
/// how long it lasts, and the seconds since it was picked up.
#[derive(PartialEq, Eq, Structural, Clone, Copy, Debug)]
pub struct BuffGroupStatus {
    pub item_kind: ItemKind,
    pub duration_seconds: Option<u64>,
    pub elapsed_seconds: i64,
}

/// A buff group has expired: only shields with a duration expire, once more
/// seconds than their duration have passed.
pub open spec fn has_expired(group: BuffGroupStatus) -> bool {
    &&& group.item_kind == ItemKind::Shield
    &&& group.duration_seconds matches Some(d)
    &&& group.elapsed_seconds > d
}

/// Which buff groups expired, and the event that updates the buff row.
pub struct OutdatedBuffs {
    pub expired: Vec<bool>,
    pub events: Vec<GameEvent>,
}

/// The buff groups that expired and go away with their buffs; the buff row is
/// told about the first of them only.
pub fn remove_outdated_buffs(groups: &Vec<BuffGroupStatus>) -> (out: OutdatedBuffs)
    requires
        forall|i: int|
            0 <= i < groups@.len() && groups@[i].item_kind == ItemKind::Shield ==> (
            groups@[i].duration_seconds matches Some(d) ==> d <= i64::MAX),
    ensures
        out.expired@.len() == groups@.len(),
        forall|i: int| 0 <= i < groups@.len() ==> out.expired@[i] == has_expired(groups@[i]),
        (exists|i: int| 0 <= i < groups@.len() && has_expired(groups@[i])) ==> out.events@ == seq![
            GameEvent::BuffUIRemove(BuffUIRemove { item_kind: ItemKind::Shield }),
        ],
        !(exists|i: int| 0 <= i < groups@.len() && has_expired(groups@[i])) ==> out.events@.len() == 0,
{
    let mut expired: Vec<bool> = Vec::new();
    let mut events: Vec<GameEvent> = Vec::new();
    let mut removed_kind: Option<ItemKind> = None;
    let mut i: usize = 0;
    while i < groups.len()
        invariant
            i <= groups@.len(),
            expired@.len() == i,
            forall|k: int| 0 <= k < i ==> expired@[k] == has_expired(groups@[k]),
            forall|k: int|
                0 <= k < groups@.len() && groups@[k].item_kind == ItemKind::Shield ==> (
                groups@[k].duration_seconds matches Some(d) ==> d <= i64::MAX),
            (exists|k: int| 0 <= k < i && has_expired(groups@[k])) ==> removed_kind == Some(ItemKind::Shield)
                && events@ == seq![GameEvent::BuffUIRemove(BuffUIRemove { item_kind: ItemKind::Shield })],
            !(exists|k: int| 0 <= k < i && has_expired(groups@[k])) ==> removed_kind is None && events@.len()
                == 0,
        decreases groups@.len() - i,
    {
        let group = groups[i];
        let has_passed = match group.item_kind {
            ItemKind::Speed | ItemKind::Armor | ItemKind::Health => false,
            ItemKind::Shield => match group.duration_seconds {
                None => false,
                Some(duration) => {
                    let limit = duration as i64;
                    let passed = group.elapsed_seconds > limit;
                    if passed && removed_kind.is_none() {
                        events.push(GameEvent::BuffUIRemove(BuffUIRemove { item_kind: group.item_kind }));
                    }
                    passed
                },
            },
        };
        if has_passed && removed_kind.is_none() {
            removed_kind = Some(group.item_kind);
        }
        expired.push(has_passed);
        proof {
            assert(has_passed == has_expired(groups@[i as int]));
            if has_passed {
                assert(exists|k: int| 0 <= k < i + 1 && has_expired(groups@[k]));
            } else if exists|k: int| 0 <= k < i + 1 && has_expired(groups@[k]) {
                let k = choose|k: int| 0 <= k < i + 1 && has_expired(groups@[k]);
                assert(k < i);
            }
        }
        i = i + 1;
    }
    OutdatedBuffs { expired, events }
}

} // verus!
