//! Static content table: base stats per actor kind and equip data per item
//! kind. Pure data, total over the closed kind enums.

use vstd::prelude::*;

use crate::types::{ActorType, ItemType};

verus! {

#[derive(Copy, Clone, Debug, PartialEq, Eq, Structural)]
pub struct ActorBaseStats {
    pub max_hp: i32,
    pub attack_power: i32,
    pub defense_power: i32,
}

#[derive(Copy, Clone, Debug, PartialEq, Eq, Structural)]
pub enum EquipSlot {
    Weapon,
    Headgear,
    Torso,
}

#[derive(Copy, Clone, Debug, PartialEq, Eq, Structural)]
pub struct ItemData {
    pub equip_slot: EquipSlot,
    pub attack_bonus: Option<i32>,
    pub defense_bonus: Option<i32>,
}

/// The base stats a newly created actor of the given kind starts with.
pub open spec fn spec_base_stats(actor_type: ActorType) -> ActorBaseStats {
    match actor_type {
        ActorType::Player => ActorBaseStats { max_hp: 10, attack_power: 1, defense_power: 0 },
        ActorType::Toad => ActorBaseStats { max_hp: 4, attack_power: 1, defense_power: 0 },
    }
}

/// The equip slot and stat bonuses of the given item kind.
pub open spec fn spec_item_data(item_type: ItemType) -> ItemData {
    match item_type {
        ItemType::LumpOfBlackstone => ItemData {
            equip_slot: EquipSlot::Weapon,
            attack_bonus: None,
            defense_bonus: None,
        },
        ItemType::BlackstoneSpear => ItemData {
            equip_slot: EquipSlot::Weapon,
            attack_bonus: Some(1),
            defense_bonus: None,
        },
        ItemType::CarmineChainmail => ItemData {
            equip_slot: EquipSlot::Torso,
            attack_bonus: None,
            defense_bonus: Some(2),
        },
        ItemType::Bloodflower => ItemData {
            equip_slot: EquipSlot::Headgear,
            attack_bonus: None,
            defense_bonus: None,
        },
    }
}

/// Every stat bonus in the content table is small; callers use this bound
/// to show that applying a bonus to a player stat cannot overflow.
pub proof fn lemma_item_bonus_bounded(item_type: ItemType)
    ensures
        match spec_item_data(item_type).attack_bonus {
            Some(b) => 0 <= b <= 2,
            None => true,
        },
        match spec_item_data(item_type).defense_bonus {
            Some(b) => 0 <= b <= 2,
            None => true,
        },
{
}

pub fn get_base_stats(actor_type: ActorType) -> (r: ActorBaseStats)
    ensures
        r == spec_base_stats(actor_type),
{
    match actor_type {
        ActorType::Player => ActorBaseStats { max_hp: 10, attack_power: 1, defense_power: 0 },
        ActorType::Toad => ActorBaseStats { max_hp: 4, attack_power: 1, defense_power: 0 },
    }
}

pub fn get_item_data(item_type: ItemType) -> (r: ItemData)
    ensures
        r == spec_item_data(item_type),
{
    match item_type {
        ItemType::LumpOfBlackstone => ItemData {
            equip_slot: EquipSlot::Weapon,
            attack_bonus: None,
            defense_bonus: None,
        },
        ItemType::BlackstoneSpear => ItemData {
            equip_slot: EquipSlot::Weapon,
            attack_bonus: Some(1),
            defense_bonus: None,
        },
        ItemType::CarmineChainmail => ItemData {
            equip_slot: EquipSlot::Torso,
            attack_bonus: None,
            defense_bonus: Some(2),
        },
        ItemType::Bloodflower => ItemData {
            equip_slot: EquipSlot::Headgear,
            attack_bonus: None,
            defense_bonus: None,
        },
    }
}

} // verus!
