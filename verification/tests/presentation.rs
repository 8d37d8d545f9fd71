use std::collections::HashMap;

use lark::strings::{
    get_equipped_participle, get_equipped_past_verb, get_item_name, get_string,
    get_unequipped_past_verb, item_type_to_name, NamedType, EMPTY_INVENTORY,
};
use lark::types::{ActorType, GameEvent, ItemType};
use lark::ui_common::ItemMenu;

fn sample_table() -> HashMap<u32, NamedType> {
    let mut table = HashMap::new();
    table.insert(0, NamedType::ActorType { actor_type: ActorType::Player });
    table.insert(1, NamedType::ActorType { actor_type: ActorType::Toad });
    table.insert(2, NamedType::ItemType { item_type: ItemType::LumpOfBlackstone });
    table.insert(3, NamedType::ItemType { item_type: ItemType::BlackstoneSpear });
    table.insert(4, NamedType::ItemType { item_type: ItemType::CarmineChainmail });
    table.insert(5, NamedType::ItemType { item_type: ItemType::Bloodflower });
    table
}

#[test]
fn test_item_type_names() {
    assert_eq!("lump of blackstone", item_type_to_name(ItemType::LumpOfBlackstone));
    assert_eq!("blackstone spear", item_type_to_name(ItemType::BlackstoneSpear));
    assert_eq!("carmine chainmail", item_type_to_name(ItemType::CarmineChainmail));
    assert_eq!("bloodflower", item_type_to_name(ItemType::Bloodflower));
}

#[test]
fn test_item_name_lookup() {
    let table = sample_table();
    assert_eq!("blackstone spear", get_item_name(3, &table));
    assert_eq!("((actor instead of item))", get_item_name(1, &table));
    assert_eq!("((unknown item))", get_item_name(99, &table));
}

#[test]
fn test_equip_verbs() {
    let table = sample_table();
    assert_eq!("wielded", get_equipped_past_verb(3, &table));
    assert_eq!("put on", get_equipped_past_verb(4, &table));
    assert_eq!("donned", get_equipped_past_verb(5, &table));
    assert_eq!("wielded", get_equipped_participle(3, &table));
    assert_eq!("worn", get_equipped_participle(4, &table));
    assert_eq!("put away", get_unequipped_past_verb(3, &table));
    assert_eq!("took off", get_unequipped_past_verb(4, &table));
    assert_eq!("doffed", get_unequipped_past_verb(5, &table));
    assert_eq!("((unknown))", get_equipped_past_verb(0, &table));
}

#[test]
fn test_event_strings() {
    let table = sample_table();
    assert_eq!(
        "rodney hits a wall",
        get_string(GameEvent::Bonk { actor_id: 0 }, "rodney", &table)
    );
    assert_eq!(
        "rodney \u{2020}12 mortal toad",
        get_string(
            GameEvent::MeleeAttack { attacker_id: 0, defender_id: 1, damage: 12 },
            "rodney",
            &table
        )
    );
    assert_eq!(
        "mortal toad \u{2020}0 rodney",
        get_string(
            GameEvent::MeleeAttack { attacker_id: 1, defender_id: 0, damage: 0 },
            "rodney",
            &table
        )
    );
    assert_eq!("mortal toad dies", get_string(GameEvent::Death { actor_id: 1 }, "rodney", &table));
    assert_eq!(
        "got lump of blackstone",
        get_string(GameEvent::GotItem { item_id: 2 }, "rodney", &table)
    );
    assert_eq!(
        "dropped bloodflower",
        get_string(GameEvent::DroppedItem { item_id: 5 }, "rodney", &table)
    );
    assert_eq!(
        "wielded blackstone spear",
        get_string(GameEvent::EquippedItem { item_id: 3 }, "rodney", &table)
    );
    assert_eq!(
        "took off carmine chainmail",
        get_string(GameEvent::UnequippedItem { item_id: 4 }, "rodney", &table)
    );
    assert_eq!(
        "ate bloodflower",
        get_string(GameEvent::AteItem { item_id: 5 }, "rodney", &table)
    );
    assert_eq!(
        "chewed on lump of blackstone, ineffectually",
        get_string(GameEvent::ItemNotEdible { item_id: 2 }, "rodney", &table)
    );
    assert_eq!(
        "rodney is healed",
        get_string(GameEvent::EffectHealed { actor_id: 0 }, "rodney", &table)
    );
    assert_eq!(
        "mortal toad is slowed wading in the water",
        get_string(GameEvent::SlowedByWater { actor_id: 1 }, "rodney", &table)
    );
}

#[test]
fn test_decimal_rendering_in_events() {
    let table = sample_table();
    assert_eq!(
        "rodney \u{2020}305 mortal toad",
        get_string(
            GameEvent::MeleeAttack { attacker_id: 0, defender_id: 1, damage: 305 },
            "rodney",
            &table
        )
    );
    assert_eq!(
        "rodney \u{2020}4294967295 mortal toad",
        get_string(
            GameEvent::MeleeAttack { attacker_id: 0, defender_id: 1, damage: u32::MAX },
            "rodney",
            &table
        )
    );
}

#[test]
fn test_empty_inventory_text() {
    assert_eq!("nothing is being carried", EMPTY_INVENTORY);
}

#[test]
fn test_item_menu_cursor_wraps() {
    let mut menu = ItemMenu::new(vec![5, 6, 7]);
    assert!(!menu.is_empty());
    assert_eq!(0, menu.cursor_index);
    menu.move_cursor(-1);
    assert_eq!(2, menu.cursor_index);
    menu.move_cursor(1);
    assert_eq!(0, menu.cursor_index);
    menu.move_cursor(1);
    assert_eq!(1, menu.cursor_index);
}

#[test]
fn test_item_menu_empty() {
    let mut menu = ItemMenu::new(vec![]);
    assert!(menu.is_empty());
    menu.move_cursor(1);
    assert_eq!(0, menu.cursor_index);
    menu.move_cursor(-1);
    assert_eq!(0, menu.cursor_index);
    // on an empty list any step at all is a no-op
    menu.move_cursor(7);
    assert_eq!(0, menu.cursor_index);
}
