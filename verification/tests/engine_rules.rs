use lark::content::{get_base_stats, get_item_data, EquipSlot};
use lark::game_model::{CellType, Command, GameInstance, Room};
use lark::types::{vec2, ActorType, GameEvent, ItemType, TileSize};

#[test]
fn test_cell_type_out_of_bounds() {
    let game = GameInstance::new();
    let room = &game.current_room;
    // every position outside [0,13) x [0,9) reads as OutOfBounds
    assert!(matches!(room.get_cell_type(vec2(-1, 0)), CellType::OutOfBounds));
    assert!(matches!(room.get_cell_type(vec2(0, -1)), CellType::OutOfBounds));
    assert!(matches!(room.get_cell_type(vec2(13, 0)), CellType::OutOfBounds));
    assert!(matches!(room.get_cell_type(vec2(0, 9)), CellType::OutOfBounds));
    assert!(matches!(room.get_cell_type(vec2(-100, 200)), CellType::OutOfBounds));
    // the border is wall, the inside floor
    assert!(matches!(room.get_cell_type(vec2(0, 0)), CellType::DefaultWall));
    assert!(matches!(room.get_cell_type(vec2(12, 8)), CellType::DefaultWall));
    assert!(matches!(room.get_cell_type(vec2(1, 1)), CellType::Floor));
    assert!(matches!(room.get_cell_type(vec2(11, 7)), CellType::Floor));
}

#[test]
fn test_walk_out_of_bounds_bonks() {
    let mut game = GameInstance::new();
    game.current_room.create_player(vec2(1, 1));
    let player_id = game.current_room.get_player().id;
    game.execute_command(Command::Walk { delta: vec2(100, 0) });
    assert_eq!(game.current_room.get_player().position, vec2(1, 1));
    assert_eq!(vec![GameEvent::Bonk { actor_id: player_id }], game.event_log);
    assert_eq!(0, game.turn); // a failed walk does not end the turn
}

#[test]
fn test_walk_blocked_by_living_actor() {
    let mut game = GameInstance::new();
    let monster_id = {
        let room = &mut game.current_room;
        room.create_player(vec2(1, 1));
        room.create_actor(ActorType::Toad, vec2(2, 2))
    };
    let player_id = game.current_room.get_player().id;
    // keep the toad where it is but make the player bump into it
    game.current_room.get_actor_mut(monster_id).position = vec2(2, 1);
    game.execute_command(Command::Walk { delta: vec2(1, 0) });
    assert_eq!(game.current_room.get_player().position, vec2(1, 1));
    assert_eq!(game.event_log[0], GameEvent::Bonk { actor_id: player_id });
}

#[test]
fn test_zero_damage_attack_emits_event() {
    let mut game = GameInstance::new();
    let monster_id = {
        let room = &mut game.current_room;
        room.create_player(vec2(1, 1));
        room.create_actor(ActorType::Toad, vec2(2, 1))
    };
    let player_id = game.current_room.get_player().id;
    // a defense at least as high as the attack clamps the damage at zero
    game.current_room.get_actor_mut(monster_id).defense_power = 5;
    let monster_hp = game.current_room.get_actor(monster_id).current_hp;
    game.execute_command(Command::Fight { delta: vec2(1, 0) });
    assert_eq!(
        game.event_log[0],
        GameEvent::MeleeAttack { attacker_id: player_id, defender_id: monster_id, damage: 0 }
    );
    assert_eq!(monster_hp, game.current_room.get_actor(monster_id).current_hp);
    assert!(!game.current_room.get_actor(monster_id).is_dead);
}

#[test]
fn test_fight_into_empty_space_is_silent() {
    let mut game = GameInstance::new();
    game.current_room.create_player(vec2(1, 1));
    game.execute_command(Command::Fight { delta: vec2(1, 0) });
    assert_eq!(0, game.event_log.len());
    assert_eq!(1, game.turn); // but the turn still ends
}

#[test]
fn test_death_event_exactly_once() {
    let mut game = GameInstance::new();
    let monster_id = {
        let room = &mut game.current_room;
        room.create_player(vec2(1, 1));
        let monster_id = room.create_actor(ActorType::Toad, vec2(2, 1));
        room.get_actor_mut(monster_id).current_hp = 1;
        monster_id
    };
    let player_id = game.current_room.get_player().id;
    game.execute_command(Command::Fight { delta: vec2(1, 0) });
    assert_eq!(
        vec![
            GameEvent::MeleeAttack { attacker_id: player_id, defender_id: monster_id, damage: 1 },
            GameEvent::Death { actor_id: monster_id },
        ],
        game.event_log
    );
    assert_eq!(0, game.current_room.get_actor(monster_id).current_hp);
}

#[test]
fn test_toad_patrol_phase_advances_when_blocked() {
    let mut game = GameInstance::new();
    let monster_id = {
        let room = &mut game.current_room;
        room.create_player(vec2(1, 1));
        room.create_actor(ActorType::Toad, vec2(11, 7))
    };
    // east is the border wall: blocked, but the phase still advances
    game.execute_command(Command::Wait);
    assert_eq!(game.current_room.get_actor(monster_id).position, vec2(11, 7));
    // south is the border wall too
    game.execute_command(Command::Wait);
    assert_eq!(game.current_room.get_actor(monster_id).position, vec2(11, 7));
    // west is free
    game.execute_command(Command::Wait);
    assert_eq!(game.current_room.get_actor(monster_id).position, vec2(10, 7));
    // north is free
    game.execute_command(Command::Wait);
    assert_eq!(game.current_room.get_actor(monster_id).position, vec2(10, 6));
}

#[test]
fn test_dead_actor_query_views() {
    let mut game = GameInstance::new();
    let monster_id = {
        let room = &mut game.current_room;
        room.create_player(vec2(1, 1));
        let monster_id = room.create_actor(ActorType::Toad, vec2(2, 1));
        room.get_actor_mut(monster_id).current_hp = 1;
        monster_id
    };
    game.execute_command(Command::Fight { delta: vec2(1, 0) });
    assert!(game.current_room.get_actor(monster_id).is_dead);
    let living = game.current_room.find_actors_at(vec2(2, 1), false);
    assert_eq!(0, living.len());
    let with_dead = game.current_room.find_actors_at(vec2(2, 1), true);
    assert_eq!(vec![1], with_dead);
}

#[test]
fn test_equip_bonuses_stack_across_slots() {
    let mut game = GameInstance::new();
    let (spear_id, mail_id) = {
        let room = &mut game.current_room;
        room.create_player(vec2(1, 1));
        let spear_id = room.create_item(ItemType::BlackstoneSpear, vec2(1, 1));
        let mail_id = room.create_item(ItemType::CarmineChainmail, vec2(1, 1));
        (spear_id, mail_id)
    };
    let attack_pre = game.current_room.get_player().attack_power;
    let defense_pre = game.current_room.get_player().defense_power;
    game.execute_command(Command::GetItem { item_id: spear_id });
    game.execute_command(Command::GetItem { item_id: mail_id });
    game.execute_command(Command::ToggleEquipment { item_id: spear_id });
    game.execute_command(Command::ToggleEquipment { item_id: mail_id });
    // different slots: both stay equipped and both bonuses apply
    assert!(game.current_room.get_item(spear_id).equipped);
    assert!(game.current_room.get_item(mail_id).equipped);
    assert_eq!(attack_pre + 1, game.current_room.get_player().attack_power);
    assert_eq!(defense_pre + 2, game.current_room.get_player().defense_power);
    game.execute_command(Command::ToggleEquipment { item_id: spear_id });
    game.execute_command(Command::ToggleEquipment { item_id: mail_id });
    assert_eq!(attack_pre, game.current_room.get_player().attack_power);
    assert_eq!(defense_pre, game.current_room.get_player().defense_power);
}

#[test]
fn test_drop_keeps_inventory_in_acquisition_order() {
    let mut game = GameInstance::new();
    let (id1, id2, id3) = {
        let room = &mut game.current_room;
        room.create_player(vec2(1, 1));
        let id1 = room.create_item(ItemType::LumpOfBlackstone, vec2(1, 1));
        let id2 = room.create_item(ItemType::BlackstoneSpear, vec2(1, 1));
        let id3 = room.create_item(ItemType::Bloodflower, vec2(1, 1));
        (id1, id2, id3)
    };
    game.execute_command(Command::GetItem { item_id: id1 });
    game.execute_command(Command::GetItem { item_id: id2 });
    game.execute_command(Command::GetItem { item_id: id3 });
    assert_eq!(vec![id1, id2, id3], game.current_room.player_inventory);
    // dropping the first entry keeps the rest in acquisition order
    game.execute_command(Command::DropItem { item_id: id1 });
    assert_eq!(vec![id2, id3], game.current_room.player_inventory);
    // dropping a middle entry of the original list behaves the same
    game.execute_command(Command::GetItem { item_id: id1 });
    assert_eq!(vec![id2, id3, id1], game.current_room.player_inventory);
    game.execute_command(Command::DropItem { item_id: id3 });
    assert_eq!(vec![id2, id1], game.current_room.player_inventory);
}

#[test]
fn test_wait_runs_one_ai_sweep_per_turn() {
    let mut game = GameInstance::new();
    game.current_room.create_player(vec2(1, 1));
    assert_eq!(0, game.turn);
    game.execute_command(Command::Wait);
    assert_eq!(1, game.turn);
    game.execute_command(Command::Wait);
    assert_eq!(2, game.turn);
    assert_eq!(0, game.event_log.len());
}

#[test]
fn test_base_stats_values() {
    let player = get_base_stats(ActorType::Player);
    assert_eq!(10, player.max_hp);
    assert_eq!(1, player.attack_power);
    assert_eq!(0, player.defense_power);
    let toad = get_base_stats(ActorType::Toad);
    assert_eq!(4, toad.max_hp);
    assert_eq!(1, toad.attack_power);
    assert_eq!(0, toad.defense_power);
}

#[test]
fn test_item_data_values() {
    let lump = get_item_data(ItemType::LumpOfBlackstone);
    assert_eq!(EquipSlot::Weapon, lump.equip_slot);
    assert_eq!(None, lump.attack_bonus);
    assert_eq!(None, lump.defense_bonus);
    let spear = get_item_data(ItemType::BlackstoneSpear);
    assert_eq!(EquipSlot::Weapon, spear.equip_slot);
    assert_eq!(Some(1), spear.attack_bonus);
    assert_eq!(None, spear.defense_bonus);
    let mail = get_item_data(ItemType::CarmineChainmail);
    assert_eq!(EquipSlot::Torso, mail.equip_slot);
    assert_eq!(None, mail.attack_bonus);
    assert_eq!(Some(2), mail.defense_bonus);
    let flower = get_item_data(ItemType::Bloodflower);
    assert_eq!(EquipSlot::Headgear, flower.equip_slot);
    assert_eq!(None, flower.attack_bonus);
    assert_eq!(None, flower.defense_bonus);
}

#[test]
fn test_room_new_is_all_empty() {
    let room = Room::new(TileSize::new(3, 3));
    for x in 0..3 {
        for y in 0..3 {
            assert!(matches!(room.get_cell_type(vec2(x, y)), CellType::Empty));
        }
    }
}
