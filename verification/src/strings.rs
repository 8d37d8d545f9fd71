//! Names and log lines for actors, items and events, looked up through an
//! id-to-kind table that the presentation layer builds from the room.

use std::collections::HashMap;

use vstd::prelude::*;
use vstd::string::StringExecFns;

use crate::content::{get_item_data, spec_item_data, EquipSlot};
use crate::types::{ActorType, GameEvent, ItemType};

verus! {

broadcast use vstd::std_specs::hash::group_hash_axioms;

pub const EMPTY_INVENTORY: &'static str = "nothing is being carried";

/// What kind of entity an id belongs to.
pub enum NamedType {
    ActorType { actor_type: ActorType },
    ItemType { item_type: ItemType },
}

pub open spec fn spec_actor_type_name(actor_type: ActorType) -> Seq<char> {
    match actor_type {
        ActorType::Player => "((player))"@,
        ActorType::Toad => "mortal toad"@,
    }
}

pub open spec fn spec_item_type_name(item_type: ItemType) -> Seq<char> {
    match item_type {
        ItemType::LumpOfBlackstone => "lump of blackstone"@,
        ItemType::BlackstoneSpear => "blackstone spear"@,
        ItemType::CarmineChainmail => "carmine chainmail"@,
        ItemType::Bloodflower => "bloodflower"@,
    }
}

/// The display name of the actor behind `actor_id`: the player's own name
/// for the player, the kind name for a monster, and a placeholder for an
/// unknown or non-actor id.
pub open spec fn spec_actor_name(
    actor_id: u32,
    player_name: Seq<char>,
    table: Map<u32, NamedType>,
) -> Seq<char> {
    if table.contains_key(actor_id) {
        match table[actor_id] {
            NamedType::ActorType { actor_type: ActorType::Player } => player_name,
            NamedType::ActorType { actor_type } => spec_actor_type_name(actor_type),
            NamedType::ItemType { .. } => "((item instead of actor))"@,
        }
    } else {
        "((unknown actor))"@
    }
}

pub open spec fn spec_item_name(item_id: u32, table: Map<u32, NamedType>) -> Seq<char> {
    if table.contains_key(item_id) {
        match table[item_id] {
            NamedType::ItemType { item_type } => spec_item_type_name(item_type),
            NamedType::ActorType { .. } => "((actor instead of item))"@,
        }
    } else {
        "((unknown item))"@
    }
}

pub open spec fn spec_equipped_past_verb(item_id: u32, table: Map<u32, NamedType>) -> Seq<char> {
    if table.contains_key(item_id) {
        match table[item_id] {
            NamedType::ItemType { item_type } => match spec_item_data(item_type).equip_slot {
                EquipSlot::Weapon => "wielded"@,
                EquipSlot::Headgear => "donned"@,
                EquipSlot::Torso => "put on"@,
            },
            NamedType::ActorType { .. } => "((unknown))"@,
        }
    } else {
        "((unknown))"@
    }
}

pub open spec fn spec_equipped_participle(item_id: u32, table: Map<u32, NamedType>) -> Seq<
    char,
> {
    if table.contains_key(item_id) {
        match table[item_id] {
            NamedType::ItemType { item_type } => match spec_item_data(item_type).equip_slot {
                EquipSlot::Weapon => "wielded"@,
                EquipSlot::Headgear => "worn"@,
                EquipSlot::Torso => "worn"@,
            },
            NamedType::ActorType { .. } => "((unknown))"@,
        }
    } else {
        "((unknown))"@
    }
}

pub open spec fn spec_unequipped_past_verb(item_id: u32, table: Map<u32, NamedType>) -> Seq<
    char,
> {
    if table.contains_key(item_id) {
        match table[item_id] {
            NamedType::ItemType { item_type } => match spec_item_data(item_type).equip_slot {
                EquipSlot::Weapon => "put away"@,
                EquipSlot::Headgear => "doffed"@,
                EquipSlot::Torso => "took off"@,
            },
            NamedType::ActorType { .. } => "((unknown))"@,
        }
    } else {
        "((unknown))"@
    }
}

pub open spec fn spec_digit(d: nat) -> char {
    if d == 0 {
        '0'
    } else if d == 1 {
        '1'
    } else if d == 2 {
        '2'
    } else if d == 3 {
        '3'
    } else if d == 4 {
        '4'
    } else if d == 5 {
        '5'
    } else if d == 6 {
        '6'
    } else if d == 7 {
        '7'
    } else if d == 8 {
        '8'
    } else {
        '9'
    }
}

/// The decimal digit string of `n`, most significant digit first.
pub open spec fn spec_decimal(n: nat) -> Seq<char>
    decreases n,
{
    if n < 10 {
        seq![spec_digit(n)]
    } else {
        spec_decimal(n / 10).push(spec_digit(n % 10))
    }
}

/// The log line for one event.
pub open spec fn spec_event_string(
    event: GameEvent,
    player_name: Seq<char>,
    table: Map<u32, NamedType>,
) -> Seq<char> {
    match event {
        GameEvent::Bonk { actor_id } => spec_actor_name(actor_id, player_name, table)
            + " hits a wall"@,
        GameEvent::MeleeAttack { attacker_id, defender_id, damage } => spec_actor_name(
            attacker_id,
            player_name,
            table,
        ) + " \u{2020}"@ + spec_decimal(damage as nat) + " "@ + spec_actor_name(
            defender_id,
            player_name,
            table,
        ),
        GameEvent::Death { actor_id } => spec_actor_name(actor_id, player_name, table) + " dies"@,
        GameEvent::GotItem { item_id } => "got "@ + spec_item_name(item_id, table),
        GameEvent::DroppedItem { item_id } => "dropped "@ + spec_item_name(item_id, table),
        GameEvent::EquippedItem { item_id } => spec_equipped_past_verb(item_id, table) + " "@
            + spec_item_name(item_id, table),
        GameEvent::UnequippedItem { item_id } => spec_unequipped_past_verb(item_id, table) + " "@
            + spec_item_name(item_id, table),
        GameEvent::AteItem { item_id } => "ate "@ + spec_item_name(item_id, table),
        GameEvent::ItemNotEdible { item_id } => "chewed on "@ + spec_item_name(item_id, table)
            + ", ineffectually"@,
        GameEvent::EffectHealed { actor_id } => spec_actor_name(actor_id, player_name, table)
            + " is healed"@,
        GameEvent::SlowedByWater { actor_id } => spec_actor_name(actor_id, player_name, table)
            + " is slowed wading in the water"@,
    }
}

fn actor_type_to_name(actor_type: ActorType) -> (r: &'static str)
    ensures
        r@ == spec_actor_type_name(actor_type),
{
    match actor_type {
        ActorType::Player => "((player))",
        ActorType::Toad => "mortal toad",
    }
}

pub fn item_type_to_name(item_type: ItemType) -> (r: &'static str)
    ensures
        r@ == spec_item_type_name(item_type),
{
    match item_type {
        ItemType::LumpOfBlackstone => "lump of blackstone",
        ItemType::BlackstoneSpear => "blackstone spear",
        ItemType::CarmineChainmail => "carmine chainmail",
        ItemType::Bloodflower => "bloodflower",
    }
}

fn get_actor_name<'a>(
    actor_id: u32,
    player_name: &'a str,
    type_table: &HashMap<u32, NamedType>,
) -> (r: &'a str)
    ensures
        r@ == spec_actor_name(actor_id, player_name@, type_table@),
{
    match type_table.get(&actor_id) {
        Some(NamedType::ActorType { actor_type: ActorType::Player }) => player_name,
        Some(NamedType::ActorType { actor_type }) => actor_type_to_name(*actor_type),
        Some(NamedType::ItemType { .. }) => "((item instead of actor))",
        None => "((unknown actor))",
    }
}

pub fn get_item_name(item_id: u32, type_table: &HashMap<u32, NamedType>) -> (r: &'static str)
    ensures
        r@ == spec_item_name(item_id, type_table@),
{
    match type_table.get(&item_id) {
        Some(NamedType::ItemType { item_type }) => item_type_to_name(*item_type),
        Some(NamedType::ActorType { .. }) => "((actor instead of item))",
        None => "((unknown item))",
    }
}

pub fn get_equipped_past_verb(item_id: u32, type_table: &HashMap<u32, NamedType>) -> (r:
    &'static str)
    ensures
        r@ == spec_equipped_past_verb(item_id, type_table@),
{
    match type_table.get(&item_id) {
        Some(NamedType::ItemType { item_type }) => {
            match get_item_data(*item_type).equip_slot {
                EquipSlot::Weapon => "wielded",
                EquipSlot::Headgear => "donned",
                EquipSlot::Torso => "put on",
            }
        },
        _ => "((unknown))",
    }
}

pub fn get_equipped_participle(item_id: u32, type_table: &HashMap<u32, NamedType>) -> (r:
    &'static str)
    ensures
        r@ == spec_equipped_participle(item_id, type_table@),
{
    match type_table.get(&item_id) {
        Some(NamedType::ItemType { item_type }) => {
            match get_item_data(*item_type).equip_slot {
                EquipSlot::Weapon => "wielded",
                _ => "worn",
            }
        },
        _ => "((unknown))",
    }
}

pub fn get_unequipped_past_verb(item_id: u32, type_table: &HashMap<u32, NamedType>) -> (r:
    &'static str)
    ensures
        r@ == spec_unequipped_past_verb(item_id, type_table@),
{
    match type_table.get(&item_id) {
        Some(NamedType::ItemType { item_type }) => {
            match get_item_data(*item_type).equip_slot {
                EquipSlot::Weapon => "put away",
                EquipSlot::Headgear => "doffed",
                EquipSlot::Torso => "took off",
            }
        },
        _ => "((unknown))",
    }
}

fn digit_str(d: u32) -> (r: &'static str)
    requires
        d < 10,
    ensures
        r@ == seq![spec_digit(d as nat)],
{
    if d == 0 {
        proof {
            reveal_strlit("0");
            assert("0"@ =~= seq!['0']);
        }
        "0"
    } else if d == 1 {
        proof {
            reveal_strlit("1");
            assert("1"@ =~= seq!['1']);
        }
        "1"
    } else if d == 2 {
        proof {
            reveal_strlit("2");
            assert("2"@ =~= seq!['2']);
        }
        "2"
    } else if d == 3 {
        proof {
            reveal_strlit("3");
            assert("3"@ =~= seq!['3']);
        }
        "3"
    } else if d == 4 {
        proof {
            reveal_strlit("4");
            assert("4"@ =~= seq!['4']);
        }
        "4"
    } else if d == 5 {
        proof {
            reveal_strlit("5");
            assert("5"@ =~= seq!['5']);
        }
        "5"
    } else if d == 6 {
        proof {
            reveal_strlit("6");
            assert("6"@ =~= seq!['6']);
        }
        "6"
    } else if d == 7 {
        proof {
            reveal_strlit("7");
            assert("7"@ =~= seq!['7']);
        }
        "7"
    } else if d == 8 {
        proof {
            reveal_strlit("8");
            assert("8"@ =~= seq!['8']);
        }
        "8"
    } else {
        proof {
            reveal_strlit("9");
            assert("9"@ =~= seq!['9']);
        }
        "9"
    }
}

/// Renders `n` in decimal.
fn u32_to_decimal(n: u32) -> (s: String)
    ensures
        s@ == spec_decimal(n as nat),
    decreases n,
{
    if n < 10 {
        String::from_str(digit_str(n))
    } else {
        let mut s = u32_to_decimal(n / 10);
        s.append(digit_str(n % 10));
        proof {
            assert(s@ =~= spec_decimal(n as nat));
        }
        s
    }
}

/// Builds the log line for one event.
pub fn get_string(
    event: GameEvent,
    player_name: &str,
    type_table: &HashMap<u32, NamedType>,
) -> (s: String)
    ensures
        s@ == spec_event_string(event, player_name@, type_table@),
{
    match event {
        GameEvent::Bonk { actor_id } => {
            let mut s = String::from_str(get_actor_name(actor_id, player_name, type_table));
            s.append(" hits a wall");
            s
        },
        GameEvent::MeleeAttack { attacker_id, defender_id, damage } => {
            let mut s = String::from_str(get_actor_name(attacker_id, player_name, type_table));
            s.append(" \u{2020}");
            let rendered = u32_to_decimal(damage);
            s.append(rendered.as_str());
            s.append(" ");
            s.append(get_actor_name(defender_id, player_name, type_table));
            s
        },
        GameEvent::Death { actor_id } => {
            let mut s = String::from_str(get_actor_name(actor_id, player_name, type_table));
            s.append(" dies");
            s
        },
        GameEvent::GotItem { item_id } => {
            let mut s = String::from_str("got ");
            s.append(get_item_name(item_id, type_table));
            s
        },
        GameEvent::DroppedItem { item_id } => {
            let mut s = String::from_str("dropped ");
            s.append(get_item_name(item_id, type_table));
            s
        },
        GameEvent::EquippedItem { item_id } => {
            let mut s = String::from_str(get_equipped_past_verb(item_id, type_table));
            s.append(" ");
            s.append(get_item_name(item_id, type_table));
            s
        },
        GameEvent::UnequippedItem { item_id } => {
            let mut s = String::from_str(get_unequipped_past_verb(item_id, type_table));
            s.append(" ");
            s.append(get_item_name(item_id, type_table));
            s
        },
        GameEvent::AteItem { item_id } => {
            let mut s = String::from_str("ate ");
            s.append(get_item_name(item_id, type_table));
            s
        },
        GameEvent::ItemNotEdible { item_id } => {
            let mut s = String::from_str("chewed on ");
            s.append(get_item_name(item_id, type_table));
            s.append(", ineffectually");
            s
        },
        GameEvent::EffectHealed { actor_id } => {
            let mut s = String::from_str(get_actor_name(actor_id, player_name, type_table));
            s.append(" is healed");
            s
        },
        GameEvent::SlowedByWater { actor_id } => {
            let mut s = String::from_str(get_actor_name(actor_id, player_name, type_table));
            s.append(" is slowed wading in the water");
            s
        },
    }
}

} // verus!
