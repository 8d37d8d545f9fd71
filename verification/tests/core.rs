use lark::game_model::{Command, GameInstance, Room};
use lark::types::{vec2, ActorType, GameEvent, ItemType, TileSize};

use lark::game_model::distance;

#[test]
fn test_distance() {
    assert_eq!(0, distance(vec2(0, 0), vec2(0, 0)));
    assert_eq!(1, distance(vec2(1, 0), vec2(0, 0)));
    assert_eq!(4, distance(vec2(1, 0), vec2(4, 1)));
    assert_eq!(4, distance(vec2(1, 1), vec2(-1, -1)));
}

#[test]
fn test_create_room() {
    let room = Room::new(TileSize::new(4, 5));
    assert_eq!(room.size, TileSize::new(4, 5));
    assert_eq!(room.cells.len(), 4);
    assert_eq!(room.cells[0].len(), 5);
    assert_eq!(room.actors.len(), 0);
}

#[test]
fn test_create_actors() {
    let mut room = Room::new(TileSize::new(4, 5));
    room.create_actor(ActorType::Toad, vec2(0, 0));
    room.create_player(vec2(1, 0));
    assert_eq!(room.actors.len(), 2);
    assert_ne!(room.actors[0].id, room.actors[1].id);
    assert_eq!(room.player_index, 1);
}

#[test]
fn test_actor_walk() {
    let mut game = GameInstance::new();
    assert_eq!(0, game.turn);
    game.current_room.create_player(vec2(1, 1));

    game.execute_command(Command::Walk { delta: vec2(0, -1) });
    assert_eq!(game.current_room.get_player().position, vec2(1, 1));
    assert_eq!(
        vec![GameEvent::Bonk { actor_id: game.current_room.get_player().id }],
        game.event_log
    );
    assert_eq!(0, game.turn);

    game.execute_command(Command::Walk { delta: vec2(0, 1) });
    assert_eq!(game.current_room.get_player().position, vec2(1, 2));
    assert_eq!(1, game.event_log.len()); // No new event
    assert_eq!(1, game.turn);
}

#[test]
fn test_toad_monster_moves_in_circles() {
    let mut game = GameInstance::new();
    let monster_id = {
        let room = &mut game.current_room;
        room.create_player(vec2(4, 4));
        room.create_actor(ActorType::Toad, vec2(1, 1))
    };
    game.execute_command(Command::Wait);
    assert_eq!(game.current_room.get_actor(monster_id).position, vec2(2, 1));
    game.execute_command(Command::Wait);
    assert_eq!(game.current_room.get_actor(monster_id).position, vec2(2, 2));
    game.execute_command(Command::Wait);
    assert_eq!(game.current_room.get_actor(monster_id).position, vec2(1, 2));
    game.execute_command(Command::Wait);
    assert_eq!(game.current_room.get_actor(monster_id).position, vec2(1, 1));
}

#[test]
fn test_toad_monster_fights_player() {
    let mut game = GameInstance::new();
    let (monster_id, player_id, player_max_hp, monster_max_hp) = {
        let room = &mut game.current_room;
        room.create_player(vec2(1, 1));
        let monster_id = room.create_actor(ActorType::Toad, vec2(2, 1));
        let player_id = room.get_player().id;
        let player_max_hp = room.get_player().current_hp;
        let monster_max_hp = room.get_actor(monster_id).current_hp;
        (monster_id, player_id, player_max_hp, monster_max_hp)
    };
    game.execute_command(Command::Fight { delta: vec2(1, 0) });
    assert!(game.current_room.get_player().current_hp < player_max_hp);
    assert!(game.current_room.get_actor(monster_id).current_hp < monster_max_hp);
    assert_eq!(
        vec![
            GameEvent::MeleeAttack { attacker_id: player_id, defender_id: monster_id, damage: 1 },
            GameEvent::MeleeAttack { attacker_id: monster_id, defender_id: player_id, damage: 1 },
        ],
        game.event_log
    );
}

#[test]
fn test_toad_dies() {
    let mut game = GameInstance::new();
    let monster_id = {
        let room = &mut game.current_room;
        room.create_player(vec2(1, 1));
        let monster_id = room.create_actor(ActorType::Toad, vec2(2, 1));
        room.get_actor_mut(monster_id).current_hp = 1;
        monster_id
    };
    game.execute_command(Command::Fight { delta: vec2(1, 0) });
    assert!(game.current_room.get_actor(monster_id).is_dead);
    game.execute_command(Command::Walk { delta: vec2(1, 0) });
    assert_eq!(game.current_room.get_player().position, vec2(2, 1)); // Player can occupy that space now
    assert_eq!(game.current_room.get_actor(monster_id).position, vec2(2, 1)); // Dead monster shouldn't move
}

#[test]
fn test_pick_up_and_drop_item() {
    let mut game = GameInstance::new();
    let item_id = {
        let room = &mut game.current_room;
        room.create_player(vec2(1, 1));
        let item_id = room.create_item(ItemType::LumpOfBlackstone, vec2(1, 1));
        item_id
    };
    assert!(!game.current_room.get_item(item_id).carried);
    assert_eq!(0, game.current_room.player_inventory.len());
    assert_eq!(vec![0], game.current_room.find_loose_items_at(vec2(1, 1)));

    game.execute_command(Command::GetItem { item_id });
    assert!(game.current_room.get_item(item_id).carried);
    assert_eq!(vec![item_id], game.current_room.player_inventory);
    assert_eq!(0, game.current_room.find_loose_items_at(vec2(1, 1)).len());

    game.execute_command(Command::Walk { delta: vec2(1, 0) });
    // Item moves with player
    assert_eq!(vec2(2, 1), game.current_room.get_item(item_id).position);

    game.execute_command(Command::DropItem { item_id });
    assert!(!game.current_room.get_item(item_id).carried);
    assert_eq!(0, game.current_room.player_inventory.len());

    game.execute_command(Command::Walk { delta: vec2(-1, 0) });
    // Item remains where dropped
    assert_eq!(vec2(2, 1), game.current_room.get_item(item_id).position);
}

#[test]
fn test_pick_up_and_drop_events() {
    let mut game = GameInstance::new();
    let item_id = {
        let room = &mut game.current_room;
        room.create_player(vec2(1, 1));
        let item_id = room.create_item(ItemType::LumpOfBlackstone, vec2(1, 1));
        item_id
    };
    game.execute_command(Command::GetItem { item_id });
    game.execute_command(Command::DropItem { item_id });
    assert_eq!(
        vec![GameEvent::GotItem { item_id }, GameEvent::DroppedItem { item_id }],
        game.event_log
    );
}

#[test]
fn test_wield_spear() {
    let mut game = GameInstance::new();
    let item_id = {
        let room = &mut game.current_room;
        room.create_player(vec2(1, 1));
        let item_id = room.create_item(ItemType::BlackstoneSpear, vec2(1, 1));
        item_id
    };
    let attack_power_pre = game.current_room.get_player().attack_power;
    game.execute_command(Command::GetItem { item_id });
    game.execute_command(Command::ToggleEquipment { item_id });
    assert!(game.current_room.get_player().attack_power > attack_power_pre);

    game.execute_command(Command::ToggleEquipment { item_id });
    assert!(game.current_room.get_player().attack_power == attack_power_pre);

    assert_eq!(
        vec![
            GameEvent::GotItem { item_id },
            GameEvent::EquippedItem { item_id },
            GameEvent::UnequippedItem { item_id },
        ],
        game.event_log
    );
}

#[test]
fn test_swap_equipment() {
    let mut game = GameInstance::new();
    let (id1, id2) = {
        let room = &mut game.current_room;
        room.create_player(vec2(1, 1));
        let item_id1 = room.create_item(ItemType::BlackstoneSpear, vec2(1, 1));
        let item_id2 = room.create_item(ItemType::BlackstoneSpear, vec2(1, 1));
        (item_id1, item_id2)
    };
    game.execute_command(Command::GetItem { item_id: id1 });
    game.execute_command(Command::GetItem { item_id: id2 });
    game.execute_command(Command::ToggleEquipment { item_id: id1 });
    game.execute_command(Command::ToggleEquipment { item_id: id2 });
    assert!(!game.current_room.get_item(id1).equipped);
    assert!(game.current_room.get_item(id2).equipped);

    assert_eq!(
        vec![
            GameEvent::GotItem { item_id: id1 },
            GameEvent::GotItem { item_id: id2 },
            GameEvent::EquippedItem { item_id: id1 },
            GameEvent::UnequippedItem { item_id: id1 },
            GameEvent::EquippedItem { item_id: id2 },
        ],
        game.event_log
    );
}

#[test]
fn test_drop_equipped_item() {
    let mut game = GameInstance::new();
    let item_id = {
        let room = &mut game.current_room;
        room.create_player(vec2(1, 1));
        let item_id = room.create_item(ItemType::BlackstoneSpear, vec2(1, 1));
        item_id
    };
    let attack_power_pre = game.current_room.get_player().attack_power;
    game.execute_command(Command::GetItem { item_id });
    game.execute_command(Command::ToggleEquipment { item_id });
    game.execute_command(Command::DropItem { item_id });
    assert!(game.current_room.get_player().attack_power == attack_power_pre);

    assert_eq!(
        vec![
            GameEvent::GotItem { item_id },
            GameEvent::EquippedItem { item_id },
            GameEvent::UnequippedItem { item_id },
            GameEvent::DroppedItem { item_id },
        ],
        game.event_log
    );
}
