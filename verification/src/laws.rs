//! The engine's cross-cutting guarantees, stated over the spec model and
//! proved once and for all.

use vstd::prelude::*;

use crate::content::{spec_base_stats, spec_item_data};
use crate::game_model::{Actor, Command, Item};
use crate::model::{
    actor_hits, cell_type_at, first_conflict_from, has_item_id, has_player, item_idx,
    lemma_actor_hits_upto_complete, lemma_actor_hits_upto_sound, manhattan,
    next_ai_phase, player_of, room_wf, sp_command, sp_damage, sp_execute, sp_melee,
    sp_monster_turn, sp_sweep, sp_unequip, sp_walk, toad_patrol_delta, walk_ok, GameModel,
    RoomModel,
};
use crate::types::{ActorType, GameEvent, TilePoint};

verus! {

/// A blocked walk — into a wall, out of bounds, or into a living actor —
/// changes nothing but the log: the player keeps its position, the world
/// state and turn counter are untouched, no AI sweep runs, and exactly one
/// `Bonk` event is appended.
pub proof fn lemma_blocked_walk_changes_nothing(g: GameModel, delta: TilePoint)
    requires
        room_wf(g.room),
        has_player(g.room),
        ({
            let ct = cell_type_at(
                g.room,
                player_of(g.room).position.x + delta.x,
                player_of(g.room).position.y + delta.y,
            );
            ct is DefaultWall || ct is OutOfBounds || actor_hits(
                g.room.actors,
                player_of(g.room).position.x + delta.x,
                player_of(g.room).position.y + delta.y,
                false,
            ).len() > 0
        }),
    ensures
        sp_execute(g, Command::Walk { delta }) == (GameModel {
            log: g.log.push(GameEvent::Bonk { actor_id: player_of(g.room).id }),
            ..g
        }),
{
    assert(!walk_ok(g.room, g.room.player_index, delta));
    let ev = GameEvent::Bonk { actor_id: player_of(g.room).id };
    assert(g.log + seq![ev] =~= g.log.push(ev));
}

/// Melee damage is never negative; the defender's HP lands in
/// `[0, max_hp]`; the attack event always carries exactly the computed
/// damage; and a `Death` event appears exactly when this attack brought a
/// living defender down.
pub proof fn lemma_melee_damage_and_death(r: RoomModel, a: int, d: int)
    requires
        0 <= a < r.actors.len(),
        0 <= d < r.actors.len(),
        r.actors[d].max_hp >= 0,
    ensures
        ({
            let dmg = sp_damage(
                r.actors[a].attack_power as int,
                r.actors[d].defense_power as int,
            );
            let hit = sp_melee(r, a, d);
            &&& dmg >= 0
            &&& 0 <= hit.0.actors[d].current_hp <= r.actors[d].max_hp
            &&& hit.1.len() >= 1
            &&& hit.1[0] == GameEvent::MeleeAttack {
                attacker_id: r.actors[a].id,
                defender_id: r.actors[d].id,
                damage: dmg as u32,
            }
            &&& hit.0.actors[d].is_dead <==> (r.actors[d].is_dead || r.actors[d].current_hp - dmg
                <= 0)
            &&& (hit.1.len() == 2 <==> (hit.0.actors[d].is_dead && !r.actors[d].is_dead))
            &&& hit.1.len() == 2 ==> hit.1[1] == GameEvent::Death { actor_id: r.actors[d].id }
        }),
{
}

/// A living toad at Manhattan distance 1 from the player always attacks
/// and never moves; otherwise it attempts the patrol step of its current
/// phase and advances the phase — wrapping after the fourth — whether or
/// not the step was blocked.
pub proof fn lemma_toad_turn(r: RoomModel, i: int)
    requires
        room_wf(r),
        has_player(r),
        0 <= i < r.actors.len(),
        r.actors[i].actor_type is Toad,
        !r.actors[i].is_dead,
    ensures
        manhattan(player_of(r).position, r.actors[i].position) == 1 ==> sp_monster_turn(r, i)
            == sp_melee(r, i, r.player_index) && sp_monster_turn(r, i).0.actors[i].position
            == r.actors[i].position,
        manhattan(player_of(r).position, r.actors[i].position) != 1 ==> ({
            let step = sp_monster_turn(r, i);
            let delta = toad_patrol_delta(r.actors[i].ai_data as int);
            &&& step.1 =~= Seq::<GameEvent>::empty()
            &&& step.0.actors[i].ai_data as int == next_ai_phase(r.actors[i].ai_data as int)
            &&& walk_ok(r, i, delta) ==> step.0.actors[i].position == (TilePoint {
                x: (r.actors[i].position.x + delta.x) as i32,
                y: (r.actors[i].position.y + delta.y) as i32,
            })
            &&& !walk_ok(r, i, delta) ==> step.0.actors[i].position == r.actors[i].position
        }),
{
    assert(i != r.player_index);
    if manhattan(player_of(r).position, r.actors[i].position) == 1 {
        let hit = sp_melee(r, i, r.player_index);
        assert(hit.0.actors[i] == r.actors[i]);
    }
}

/// Once an item is in the inventory, a successful player walk moves it in
/// lockstep: it ends exactly at the player's new position.
pub proof fn lemma_carried_item_follows_walk(g: GameModel, delta: TilePoint, item_id: u32)
    requires
        room_wf(g.room),
        has_player(g.room),
        has_item_id(g.room, item_id),
        g.room.inventory.contains(item_id),
        walk_ok(g.room, g.room.player_index, delta),
    ensures
        ({
            let g1 = sp_execute(g, Command::Walk { delta });
            &&& has_item_id(g1.room, item_id)
            &&& g1.room.items[item_idx(g1.room, item_id)].position == player_of(g1.room).position
        }),
{
    let r = g.room;
    let pi = r.player_index;
    let j = item_idx(r, item_id);
    assert(0 <= j < r.items.len() && r.items[j].id == item_id);
    let r1 = sp_walk(r, pi, delta).0;
    crate::model::lemma_walk_preserves(r, pi, delta);
    assert(r1.items[j].position == player_of(r1).position);
    assert(r1.items[j].id == item_id);
    crate::model::lemma_item_idx_unique(r1, item_id, j);
    crate::model::lemma_sweep_preserves(r1, r1.actors.len() as int);
    let g1 = sp_execute(g, Command::Walk { delta });
    assert(g1.room.items == r1.items);
    crate::model::lemma_item_idx_unique(g1.room, item_id, j);
}

/// Dropping an item leaves it loose, out of the inventory, and exactly
/// where it lay (at the player's position while carried); the remaining
/// inventory entries keep their acquisition order.
pub proof fn lemma_drop_leaves_item_loose(g: GameModel, item_id: u32)
    requires
        room_wf(g.room),
        has_player(g.room),
        has_item_id(g.room, item_id),
        g.room.inventory.contains(item_id),
    ensures
        ({
            let g1 = sp_execute(g, Command::DropItem { item_id });
            &&& has_item_id(g1.room, item_id)
            &&& !g1.room.items[item_idx(g1.room, item_id)].carried
            &&& !g1.room.inventory.contains(item_id)
            &&& g1.room.inventory == g.room.inventory.remove(
                crate::model::inventory_pos(g.room.inventory, item_id),
            )
            &&& g1.room.items[item_idx(g1.room, item_id)].position == g.room.items[item_idx(
                g.room,
                item_id,
            )].position
        }),
{
    let r = g.room;
    let j = item_idx(r, item_id);
    assert(0 <= j < r.items.len() && r.items[j].id == item_id);
    crate::model::lemma_drop_item_preserves(r, item_id);
    let rc = sp_command(r, Command::DropItem { item_id }).0;
    if r.items[j].equipped {
        crate::model::lemma_unequip_preserves(r, item_id);
    }
    assert(rc.items[j].id == item_id && !rc.items[j].carried && rc.items[j].position
        == r.items[j].position);
    crate::model::lemma_item_idx_unique(rc, item_id, j);
    crate::model::lemma_sweep_preserves(rc, rc.actors.len() as int);
    let g1 = sp_execute(g, Command::DropItem { item_id });
    assert(g1.room.items == rc.items && g1.room.inventory == rc.inventory);
    crate::model::lemma_item_idx_unique(g1.room, item_id, j);
}

/// An item whose id is not in the inventory never moves on a walk: once
/// dropped it stays frozen wherever it lies.
pub proof fn lemma_loose_item_ignores_walk(g: GameModel, delta: TilePoint, item_id: u32)
    requires
        room_wf(g.room),
        has_player(g.room),
        has_item_id(g.room, item_id),
        !g.room.inventory.contains(item_id),
    ensures
        ({
            let g1 = sp_execute(g, Command::Walk { delta });
            &&& has_item_id(g1.room, item_id)
            &&& g1.room.items[item_idx(g1.room, item_id)].position == g.room.items[item_idx(
                g.room,
                item_id,
            )].position
        }),
{
    let r = g.room;
    let pi = r.player_index;
    let j = item_idx(r, item_id);
    assert(0 <= j < r.items.len() && r.items[j].id == item_id);
    let r1 = sp_walk(r, pi, delta).0;
    crate::model::lemma_walk_preserves(r, pi, delta);
    assert(r1.items[j] == r.items[j]);
    crate::model::lemma_item_idx_unique(r1, item_id, j);
    crate::model::lemma_sweep_preserves(r1, r1.actors.len() as int);
    let g1 = sp_execute(g, Command::Walk { delta });
    assert(g1.room.items == r1.items);
    crate::model::lemma_item_idx_unique(g1.room, item_id, j);
}

/// Equipping into an occupied slot emits the auto-unequip first: the event
/// order is always (UnequippedItem, EquippedItem); with a free slot the
/// equip event stands alone.
pub proof fn lemma_equip_swap_order(r: RoomModel, item_id: u32)
    requires
        room_wf(r),
        has_player(r),
        has_item_id(r, item_id),
    ensures
        ({
            let slot = spec_item_data(r.items[item_idx(r, item_id)].item_type).equip_slot;
            let fc = first_conflict_from(r, slot, 0);
            let done = crate::model::sp_equip(r, item_id);
            &&& fc >= 0 ==> done.1 =~= seq![
                GameEvent::UnequippedItem { item_id: r.inventory[fc] },
                GameEvent::EquippedItem { item_id },
            ]
            &&& fc < 0 ==> done.1 =~= seq![GameEvent::EquippedItem { item_id }]
        }),
{
}

/// What one item contributes to the player's attack power: its attack
/// bonus while equipped, nothing otherwise.
pub open spec fn item_attack_contrib(it: Item) -> int {
    if it.equipped {
        crate::model::bonus_or_zero(spec_item_data(it.item_type).attack_bonus)
    } else {
        0
    }
}

/// What one item contributes to the player's defense power.
pub open spec fn item_defense_contrib(it: Item) -> int {
    if it.equipped {
        crate::model::bonus_or_zero(spec_item_data(it.item_type).defense_bonus)
    } else {
        0
    }
}

pub open spec fn attack_bonus_upto(items: Seq<Item>, n: int) -> int
    decreases n,
{
    if n <= 0 {
        0
    } else {
        attack_bonus_upto(items, n - 1) + item_attack_contrib(items[n - 1])
    }
}

pub open spec fn defense_bonus_upto(items: Seq<Item>, n: int) -> int
    decreases n,
{
    if n <= 0 {
        0
    } else {
        defense_bonus_upto(items, n - 1) + item_defense_contrib(items[n - 1])
    }
}

/// The player's live stats equal the base stats plus the bonuses of
/// exactly the currently equipped items.
pub open spec fn stats_consistent(r: RoomModel) -> bool {
    &&& player_of(r).attack_power as int == spec_base_stats(ActorType::Player).attack_power
        + attack_bonus_upto(r.items, r.items.len() as int)
    &&& player_of(r).defense_power as int == spec_base_stats(ActorType::Player).defense_power
        + defense_bonus_upto(r.items, r.items.len() as int)
}

/// Item sequences agreeing on equipped flags and kinds contribute the same
/// bonuses.
proof fn lemma_bonus_sums_same(items1: Seq<Item>, items2: Seq<Item>, n: int)
    requires
        n <= items1.len(),
        n <= items2.len(),
        forall|i: int|
            0 <= i < n ==> (#[trigger] items2[i]).equipped == items1[i].equipped
                && items2[i].item_type == items1[i].item_type,
    ensures
        attack_bonus_upto(items2, n) == attack_bonus_upto(items1, n),
        defense_bonus_upto(items2, n) == defense_bonus_upto(items1, n),
    decreases n,
{
    if n > 0 {
        lemma_bonus_sums_same(items1, items2, n - 1);
    }
}

/// Updating one item changes each bonus sum by the difference of that
/// item's contributions.
proof fn lemma_bonus_sums_update(items: Seq<Item>, j: int, it: Item, n: int)
    requires
        0 <= j < n <= items.len(),
    ensures
        attack_bonus_upto(items.update(j, it), n) == attack_bonus_upto(items, n)
            - item_attack_contrib(items[j]) + item_attack_contrib(it),
        defense_bonus_upto(items.update(j, it), n) == defense_bonus_upto(items, n)
            - item_defense_contrib(items[j]) + item_defense_contrib(it),
    decreases n,
{
    if j == n - 1 {
        lemma_bonus_sums_same(items, items.update(j, it), n - 1);
    } else {
        lemma_bonus_sums_update(items, j, it, n - 1);
    }
}

/// The bonus sums vanish while nothing is equipped.
proof fn lemma_bonus_sums_zero(items: Seq<Item>, n: int)
    requires
        n <= items.len(),
        forall|i: int| 0 <= i < n ==> !(#[trigger] items[i]).equipped,
    ensures
        attack_bonus_upto(items, n) == 0,
        defense_bonus_upto(items, n) == 0,
    decreases n,
{
    if n > 0 {
        lemma_bonus_sums_zero(items, n - 1);
    }
}

/// The base case of the stat ledger: a player on base stats in a room
/// where nothing is equipped — as after creation — satisfies it.
pub proof fn lemma_base_stats_consistent(r: RoomModel)
    requires
        has_player(r),
        player_of(r).attack_power == spec_base_stats(ActorType::Player).attack_power,
        player_of(r).defense_power == spec_base_stats(ActorType::Player).defense_power,
        forall|i: int| 0 <= i < r.items.len() ==> !(#[trigger] r.items[i]).equipped,
    ensures
        stats_consistent(r),
{
    lemma_bonus_sums_zero(r.items, r.items.len() as int);
}

/// Unequipping keeps the stat ledger balanced.
proof fn lemma_unequip_keeps_consistency(r: RoomModel, item_id: u32)
    requires
        room_wf(r),
        has_player(r),
        has_item_id(r, item_id),
        r.items[item_idx(r, item_id)].equipped,
        crate::model::stat_headroom(r),
        stats_consistent(r),
    ensures
        stats_consistent(sp_unequip(r, item_id).0),
{
    let j = item_idx(r, item_id);
    let r1 = sp_unequip(r, item_id).0;
    crate::content::lemma_item_bonus_bounded(r.items[j].item_type);
    lemma_bonus_sums_update(
        r.items,
        j,
        Item { equipped: false, ..r.items[j] },
        r.items.len() as int,
    );
}

/// Every valid command keeps the stat ledger balanced: after the command
/// and its AI sweep, the player's attack and defense still equal base
/// stats plus the bonuses of exactly the equipped items.
#[verifier::rlimit(100)]
pub proof fn lemma_execute_keeps_stat_consistency(g: GameModel, command: Command)
    requires
        room_wf(g.room),
        has_player(g.room),
        g.room.actors.len() <= usize::MAX,
        crate::model::command_valid(g.room, command),
        stats_consistent(g.room),
    ensures
        stats_consistent(sp_execute(g, command).room),
{
    let r = g.room;
    let nitems = r.items.len() as int;
    let rc = sp_command(r, command).0;
    // the command part
    match command {
        Command::Wait => {},
        Command::Walk { delta } => {
            crate::model::lemma_walk_preserves(r, r.player_index, delta);
            let r1 = sp_walk(r, r.player_index, delta).0;
            lemma_bonus_sums_same(r.items, r1.items, nitems);
        },
        Command::Fight { delta } => {
            let tx = player_of(r).position.x + delta.x;
            let ty = player_of(r).position.y + delta.y;
            let hits = actor_hits(r.actors, tx, ty, false);
            if hits.len() > 0 {
                crate::model::lemma_actor_hits_upto_sound(
                    r.actors,
                    tx,
                    ty,
                    false,
                    r.actors.len() as int,
                );
                crate::model::lemma_melee_preserves(r, r.player_index, hits[0] as int);
            }
        },
        Command::GetItem { item_id } => {
            let j = item_idx(r, item_id);
            lemma_bonus_sums_update(
                r.items,
                j,
                Item { carried: true, ..r.items[j] },
                nitems,
            );
        },
        Command::DropItem { item_id } => {
            let j = item_idx(r, item_id);
            let r1 = if r.items[j].equipped {
                lemma_unequip_keeps_consistency(r, item_id);
                crate::model::lemma_unequip_preserves(r, item_id);
                sp_unequip(r, item_id).0
            } else {
                r
            };
            assert(item_idx(r1, item_id) == j);
            lemma_bonus_sums_update(
                r1.items,
                j,
                Item { carried: false, ..r1.items[j] },
                nitems,
            );
            assert(item_attack_contrib(r1.items[j]) == item_attack_contrib(
                Item { carried: false, ..r1.items[j] },
            ));
        },
        Command::ToggleEquipment { item_id } => {
            let j = item_idx(r, item_id);
            if r.items[j].equipped {
                lemma_unequip_keeps_consistency(r, item_id);
            } else {
                let data = spec_item_data(r.items[j].item_type);
                crate::content::lemma_item_bonus_bounded(r.items[j].item_type);
                let fc = first_conflict_from(r, data.equip_slot, 0);
                let r1 = if fc >= 0 {
                    crate::model::lemma_first_conflict_in_range(r, data.equip_slot, 0);
                    let cid = r.inventory[fc];
                    assert(has_item_id(r, cid) && r.items[item_idx(r, cid)].equipped);
                    assert(item_idx(r, cid) != j);
                    crate::content::lemma_item_bonus_bounded(
                        r.items[item_idx(r, cid)].item_type,
                    );
                    lemma_unequip_keeps_consistency(r, cid);
                    crate::model::lemma_unequip_preserves(r, cid);
                    sp_unequip(r, cid).0
                } else {
                    r
                };
                assert(stats_consistent(r1));
                assert(item_idx(r1, item_id) == j);
                assert(!r1.items[j].equipped);
                lemma_bonus_sums_update(
                    r1.items,
                    j,
                    Item { equipped: true, ..r1.items[j] },
                    nitems,
                );
            }
        },
    }
    assert(stats_consistent(rc));
    // the AI sweep
    if sp_command(r, command).2 {
        match command {
            Command::Wait => {},
            Command::Walk { delta } => {
                crate::model::lemma_walk_preserves(r, r.player_index, delta);
            },
            Command::Fight { delta } => {
                let tx = player_of(r).position.x + delta.x;
                let ty = player_of(r).position.y + delta.y;
                let hits = actor_hits(r.actors, tx, ty, false);
                if hits.len() > 0 {
                    crate::model::lemma_actor_hits_upto_sound(
                        r.actors,
                        tx,
                        ty,
                        false,
                        r.actors.len() as int,
                    );
                    crate::model::lemma_melee_preserves(r, r.player_index, hits[0] as int);
                }
            },
            Command::GetItem { item_id } => {
                crate::model::lemma_get_item_preserves(r, item_id);
            },
            Command::DropItem { item_id } => {
                crate::model::lemma_drop_item_preserves(r, item_id);
            },
            Command::ToggleEquipment { item_id } => {
                if r.items[item_idx(r, item_id)].equipped {
                    crate::model::lemma_unequip_preserves(r, item_id);
                } else {
                    crate::model::lemma_equip_preserves(r, item_id);
                }
            },
        }
        assert(room_wf(rc) && has_player(rc));
        crate::model::lemma_sweep_preserves(rc, rc.actors.len() as int);
        let rs = sp_sweep(rc, rc.actors.len() as int).0;
        assert(rs.items == rc.items);
    }
}

/// A dead actor does nothing on its turn, is invisible to the
/// collision-relevant actor query, and is still found when dead actors
/// are included.
pub proof fn lemma_dead_actor_inert(r: RoomModel, i: int)
    requires
        0 <= i < r.actors.len(),
        r.actors.len() <= usize::MAX,
        r.actors[i].is_dead,
    ensures
        sp_monster_turn(r, i) == (r, Seq::<GameEvent>::empty()),
        !actor_hits(
            r.actors,
            r.actors[i].position.x as int,
            r.actors[i].position.y as int,
            false,
        ).contains(i as usize),
        actor_hits(
            r.actors,
            r.actors[i].position.x as int,
            r.actors[i].position.y as int,
            true,
        ).contains(i as usize),
{
    let x = r.actors[i].position.x as int;
    let y = r.actors[i].position.y as int;
    lemma_actor_hits_upto_sound(r.actors, x, y, false, r.actors.len() as int);
    let hits = actor_hits(r.actors, x, y, false);
    if hits.contains(i as usize) {
        let t = choose|t: int| 0 <= t < hits.len() && hits[t] == i as usize;
        assert(crate::model::actor_matches_at(r.actors[i], x, y, false));
    }
    lemma_actor_hits_upto_complete(r.actors, x, y, true, r.actors.len() as int, i);
}

} // verus!

