//! The entity store and turn controller: the room grid, actors, items, the
//! player's inventory, command execution and the monster-AI sweep.

use vstd::prelude::*;

use crate::content::{get_base_stats, get_item_data};
use crate::model::{
    actor_hits, actor_hits_upto, actor_idx, cell_type_at, has_actor_id, has_item_id, has_player,
    conflicts_at, first_conflict_from, in_bounds, item_hits, item_hits_upto, item_idx,
    lemma_first_conflict_in_range, lemma_unequip_preserves, manhattan, player_of, room_wf,
    blank_cell, command_valid, lemma_drop_item_preserves, lemma_get_item_preserves,
    lemma_melee_preserves, lemma_walk_preserves, sp_blank_room, sp_command, sp_equip, sp_execute,
    sp_melee, sp_monster_turn, sp_teleport, sp_unequip, sp_walk, stat_headroom, walk_ok,
    GameModel, RoomModel,
};
use crate::types::{ActorType, GameEvent, TileDelta, TilePoint, TileSize};

verus! {

#[derive(Copy, Clone, Debug, PartialEq, Eq, Structural)]
pub enum CellType {
    OutOfBounds,
    Empty,
    Floor,
    DefaultWall,
}

/// One grid cell. `OutOfBounds` is never stored in a grid; it only arises
/// as a query result.
#[derive(Copy, Clone, Debug, PartialEq, Eq, Structural)]
pub struct Cell {
    pub cell_type: CellType,
}

impl Default for Cell {
    fn default() -> (c: Cell)
        ensures
            c.cell_type is Empty,
    {
        Cell { cell_type: CellType::Empty }
    }
}

/// Manhattan distance between two grid coordinates.
pub fn distance(p1: TilePoint, p2: TilePoint) -> (d: i64)
    ensures
        d == manhattan(p1, p2),
{
    let dx: i64 = p1.x as i64 - p2.x as i64;
    let dy: i64 = p1.y as i64 - p2.y as i64;
    let ax: i64 = if dx < 0 { -dx } else { dx };
    let ay: i64 = if dy < 0 { -dy } else { dy };
    ax + ay
}

/// A combat-capable entity. Never deleted; only flagged dead.
#[derive(Copy, Clone, Debug)]
pub struct Actor {
    pub id: u32,
    pub actor_type: ActorType,
    pub position: TilePoint,
    /// Patrol phase counter, always in `0..=3`.
    pub ai_data: i32,
    pub is_dead: bool,
    pub max_hp: i32,
    pub current_hp: i32,
    pub attack_power: i32,
    pub defense_power: i32,
}

/// A world object that can be picked up, carried, dropped and equipped.
#[derive(Copy, Clone, Debug)]
pub struct Item {
    pub id: u32,
    pub item_type: crate::types::ItemType,
    pub position: TilePoint,
    pub carried: bool,
    pub equipped: bool,
}

/// The single active level: cell grid, entity collections, the player's
/// inventory, the id allocator and the index of the player actor.
#[derive(Debug)]
pub struct Room {
    pub size: TileSize,
    pub cells: Vec<Vec<Cell>>,
    pub actors: Vec<Actor>,
    pub items: Vec<Item>,
    pub player_inventory: Vec<u32>,
    pub next_id: u32,
    pub player_index: usize,
}

impl View for Room {
    type V = RoomModel;

    open spec fn view(&self) -> RoomModel {
        RoomModel {
            size_x: self.size.x as int,
            size_y: self.size.y as int,
            grid: Seq::new(
                self.cells@.len(),
                |x: int| Seq::new(self.cells@[x]@.len(), |y: int| self.cells@[x]@[y].cell_type),
            ),
            actors: self.actors@,
            items: self.items@,
            inventory: self.player_inventory@,
            next_id: self.next_id,
            player_index: self.player_index as int,
        }
    }
}

impl Room {
    /// A fresh room: an all-`Empty` grid of the given extent and no
    /// entities.
    pub fn new(size: TileSize) -> (r: Room)
        requires
            size.x <= i32::MAX as usize,
            size.y <= i32::MAX as usize,
        ensures
            r@.size_x == size.x as int,
            r@.size_y == size.y as int,
            r@.grid.len() == size.x as int,
            forall|x: int| 0 <= x < size.x as int ==> (#[trigger] r@.grid[x]).len() == size.y as int,
            forall|x: int, y: int|
                0 <= x < size.x as int && 0 <= y < size.y as int ==> #[trigger] r@.grid[x][y]
                    is Empty,
            r@.actors =~= Seq::<Actor>::empty(),
            r@.items =~= Seq::<Item>::empty(),
            r@.inventory =~= Seq::<u32>::empty(),
            r@.next_id == 0,
            r@.player_index == 0,
            room_wf(r@),
            r.size == size,
    {
        let mut cells: Vec<Vec<Cell>> = Vec::new();
        let mut x: usize = 0;
        while x < size.x
            invariant
                x <= size.x,
                cells@.len() == x as int,
                forall|i: int| 0 <= i < x as int ==> (#[trigger] cells@[i])@.len() == size.y as int,
                forall|i: int, j: int|
                    0 <= i < x as int && 0 <= j < size.y as int ==> #[trigger] (cells@[i])@[j].cell_type
                        is Empty,
            decreases size.x - x,
        {
            let mut column: Vec<Cell> = Vec::new();
            let mut y: usize = 0;
            while y < size.y
                invariant
                    y <= size.y,
                    column@.len() == y as int,
                    forall|j: int| 0 <= j < y as int ==> (#[trigger] column@[j]).cell_type is Empty,
                decreases size.y - y,
            {
                column.push(Cell::default());
                y += 1;
            }
            cells.push(column);
            x += 1;
        }
        Room {
            size,
            cells,
            actors: Vec::new(),
            items: Vec::new(),
            player_inventory: Vec::new(),
            next_id: 0,
            player_index: 0,
        }
    }

    /// Allocates the next id and creates a live actor with base stats
    /// copied from the content table. Position validity and collision are
    /// the caller's responsibility: spawning is privileged.
    pub fn create_actor(&mut self, actor_type: ActorType, position: TilePoint) -> (id: u32)
        requires
            old(self).next_id < u32::MAX,
        ensures
            id == old(self).next_id,
            final(self)@ == (RoomModel {
                actors: old(self)@.actors.push(
                    Actor {
                        id,
                        actor_type,
                        position,
                        ai_data: 0,
                        is_dead: false,
                        max_hp: crate::content::spec_base_stats(actor_type).max_hp,
                        current_hp: crate::content::spec_base_stats(actor_type).max_hp,
                        attack_power: crate::content::spec_base_stats(actor_type).attack_power,
                        defense_power: crate::content::spec_base_stats(actor_type).defense_power,
                    },
                ),
                next_id: (old(self).next_id + 1) as u32,
                ..old(self)@
            }),
            room_wf(old(self)@) ==> room_wf(final(self)@),
            has_player(old(self)@) ==> has_player(final(self)@),
    {
        let id = self.next_id;
        let stats = get_base_stats(actor_type);
        self.actors.push(
            Actor {
                id,
                actor_type,
                position,
                ai_data: 0,
                is_dead: false,
                max_hp: stats.max_hp,
                current_hp: stats.max_hp,
                attack_power: stats.attack_power,
                defense_power: stats.defense_power,
            },
        );
        self.next_id += 1;
        id
    }

    /// Creates the player actor and records its index; must be called
    /// exactly once per room before turn execution.
    pub fn create_player(&mut self, position: TilePoint)
        requires
            old(self).next_id < u32::MAX,
        ensures
            final(self)@ == (RoomModel {
                actors: old(self)@.actors.push(
                    Actor {
                        id: old(self).next_id,
                        actor_type: ActorType::Player,
                        position,
                        ai_data: 0,
                        is_dead: false,
                        max_hp: crate::content::spec_base_stats(ActorType::Player).max_hp,
                        current_hp: crate::content::spec_base_stats(ActorType::Player).max_hp,
                        attack_power: crate::content::spec_base_stats(
                            ActorType::Player,
                        ).attack_power,
                        defense_power: crate::content::spec_base_stats(
                            ActorType::Player,
                        ).defense_power,
                    },
                ),
                next_id: (old(self).next_id + 1) as u32,
                player_index: old(self)@.actors.len() as int,
                ..old(self)@
            }),
            has_player(final(self)@),
            room_wf(old(self)@) ==> room_wf(final(self)@),
    {
        self.create_actor(ActorType::Player, position);
        self.player_index = self.actors.len() - 1;
    }

    /// Allocates the next id and creates a loose, unequipped item.
    pub fn create_item(&mut self, item_type: crate::types::ItemType, position: TilePoint) -> (id:
        u32)
        requires
            old(self).next_id < u32::MAX,
        ensures
            id == old(self).next_id,
            final(self)@ == (RoomModel {
                items: old(self)@.items.push(
                    Item { id, item_type, position, carried: false, equipped: false },
                ),
                next_id: (old(self).next_id + 1) as u32,
                ..old(self)@
            }),
            room_wf(old(self)@) ==> room_wf(final(self)@),
            has_player(old(self)@) ==> has_player(final(self)@),
    {
        let id = self.next_id;
        self.items.push(Item { id, item_type, position, carried: false, equipped: false });
        self.next_id += 1;
        proof {
            if room_wf(old(self)@) {
                assert forall|k: int| 0 <= k < self@.inventory.len() implies has_item_id(
                    self@,
                    #[trigger] self@.inventory[k],
                ) && self@.items[item_idx(self@, self@.inventory[k])].carried by {
                    let invid = old(self)@.inventory[k];
                    let i = item_idx(old(self)@, invid);
                    assert(has_item_id(old(self)@, invid));
                    assert(0 <= i < old(self)@.items.len() && old(self)@.items[i].id == invid);
                    assert(self@.items[i].id == invid);
                    crate::model::lemma_item_idx_unique(self@, invid, i);
                }
            }
        }
        id
    }

    /// The bounds-checked cell lookup used by every other rule: a position
    /// reads as `OutOfBounds` exactly when it lies outside the grid
    /// extent, since a well-formed grid never stores that cell type.
    pub fn get_cell_type(&self, position: TilePoint) -> (ct: CellType)
        requires
            room_wf(self@),
        ensures
            ct == cell_type_at(self@, position.x as int, position.y as int),
            ct is OutOfBounds <==> !in_bounds(self@, position.x as int, position.y as int),
    {
        if position.x < 0 || position.y < 0 || position.x as usize >= self.size.x || position.y
            as usize >= self.size.y {
            return CellType::OutOfBounds;
        }
        self.cells[position.x as usize][position.y as usize].cell_type
    }

    /// Indices of the actors standing at `position`, in creation order;
    /// with `include_dead == false` this is the collision-relevant view.
    pub fn find_actors_at(&self, position: TilePoint, include_dead: bool) -> (result: Vec<usize>)
        ensures
            result@ == actor_hits(self@.actors, position.x as int, position.y as int, include_dead),
    {
        let mut result: Vec<usize> = Vec::new();
        let n = self.actors.len();
        let mut i: usize = 0;
        while i < n
            invariant
                i <= n,
                n == self@.actors.len(),
                result@ == actor_hits_upto(
                    self@.actors,
                    position.x as int,
                    position.y as int,
                    include_dead,
                    i as int,
                ),
            decreases n - i,
        {
            let a = &self.actors[i];
            if a.position.x == position.x && a.position.y == position.y && (include_dead
                || !a.is_dead) {
                result.push(i);
            }
            i += 1;
        }
        result
    }

    /// Indices of the loose (not carried) items lying at `position`, in
    /// creation order.
    pub fn find_loose_items_at(&self, position: TilePoint) -> (result: Vec<usize>)
        ensures
            result@ == item_hits(self@.items, position.x as int, position.y as int),
    {
        let mut result: Vec<usize> = Vec::new();
        let n = self.items.len();
        let mut i: usize = 0;
        while i < n
            invariant
                i <= n,
                n == self@.items.len(),
                result@ == item_hits_upto(
                    self@.items,
                    position.x as int,
                    position.y as int,
                    i as int,
                ),
            decreases n - i,
        {
            let it = &self.items[i];
            if it.position.x == position.x && it.position.y == position.y && !it.carried {
                result.push(i);
            }
            i += 1;
        }
        result
    }
}

/// Whether `ids` holds `id`.
fn contains_id(ids: &Vec<u32>, id: u32) -> (r: bool)
    ensures
        r == ids@.contains(id),
{
    let n = ids.len();
    let mut k: usize = 0;
    while k < n
        invariant
            k <= n,
            n == ids@.len(),
            forall|t: int| 0 <= t < k as int ==> ids@[t] != id,
        decreases n - k,
    {
        if ids[k] == id {
            assert(ids@[k as int] == id);
            return true;
        }
        k += 1;
    }
    false
}

impl Room {
    /// Index of the item with the given id in the item collection.
    fn item_index_of(&self, item_id: u32) -> (idx: usize)
        requires
            room_wf(self@),
            has_item_id(self@, item_id),
        ensures
            idx < self@.items.len(),
            self@.items[idx as int].id == item_id,
            idx as int == item_idx(self@, item_id),
    {
        let n = self.items.len();
        let mut i: usize = 0;
        while i < n
            invariant
                i <= n,
                n == self@.items.len(),
                forall|t: int| 0 <= t < i as int ==> (#[trigger] self@.items[t]).id != item_id,
            decreases n - i,
        {
            if self.items[i].id == item_id {
                proof {
                    crate::model::lemma_item_idx_unique(self@, item_id, i as int);
                }
                return i;
            }
            i += 1;
        }
        proof {
            let w = choose|t: int|
                0 <= t < self@.items.len() && (#[trigger] self@.items[t]).id == item_id;
            assert(self@.items[w].id != item_id);
        }
        unreached()
    }

    /// Index of the actor with the given id in the actor collection.
    fn actor_index_of(&self, actor_id: u32) -> (idx: usize)
        requires
            room_wf(self@),
            has_actor_id(self@, actor_id),
        ensures
            idx < self@.actors.len(),
            self@.actors[idx as int].id == actor_id,
            idx as int == actor_idx(self@, actor_id),
    {
        let n = self.actors.len();
        let mut i: usize = 0;
        while i < n
            invariant
                i <= n,
                n == self@.actors.len(),
                forall|t: int| 0 <= t < i as int ==> (#[trigger] self@.actors[t]).id != actor_id,
            decreases n - i,
        {
            if self.actors[i].id == actor_id {
                proof {
                    crate::model::lemma_actor_idx_unique(self@, actor_id, i as int);
                }
                return i;
            }
            i += 1;
        }
        proof {
            let w = choose|t: int|
                0 <= t < self@.actors.len() && (#[trigger] self@.actors[t]).id == actor_id;
            assert(self@.actors[w].id != actor_id);
        }
        unreached()
    }

    pub fn get_player(&self) -> (a: &Actor)
        requires
            0 <= self@.player_index < self@.actors.len(),
        ensures
            *a == player_of(self@),
    {
        &self.actors[self.player_index]
    }

    pub fn get_player_mut(&mut self) -> (a: &mut Actor)
        requires
            0 <= old(self)@.player_index < old(self)@.actors.len(),
        ensures
            *a == player_of(old(self)@),
            final(self)@ == (RoomModel {
                actors: old(self)@.actors.update(old(self)@.player_index, *final(a)),
                ..old(self)@
            }),
    {
        &mut self.actors[self.player_index]
    }

    /// Looks an actor up by id; passing an unknown id is a programming
    /// error and is excluded by contract.
    pub fn get_actor(&self, actor_id: u32) -> (a: &Actor)
        requires
            room_wf(self@),
            has_actor_id(self@, actor_id),
        ensures
            *a == self@.actors[actor_idx(self@, actor_id)],
            a.id == actor_id,
    {
        let i = self.actor_index_of(actor_id);
        &self.actors[i]
    }

    pub fn get_actor_mut(&mut self, actor_id: u32) -> (a: &mut Actor)
        requires
            room_wf(old(self)@),
            has_actor_id(old(self)@, actor_id),
        ensures
            *a == old(self)@.actors[actor_idx(old(self)@, actor_id)],
            a.id == actor_id,
            final(self)@ == (RoomModel {
                actors: old(self)@.actors.update(actor_idx(old(self)@, actor_id), *final(a)),
                ..old(self)@
            }),
    {
        let i = self.actor_index_of(actor_id);
        &mut self.actors[i]
    }

    /// Looks an item up by id; passing an unknown id is a programming
    /// error and is excluded by contract.
    pub fn get_item(&self, item_id: u32) -> (it: &Item)
        requires
            room_wf(self@),
            has_item_id(self@, item_id),
        ensures
            *it == self@.items[item_idx(self@, item_id)],
            it.id == item_id,
    {
        let i = self.item_index_of(item_id);
        &self.items[i]
    }

    pub fn get_item_mut(&mut self, item_id: u32) -> (it: &mut Item)
        requires
            room_wf(old(self)@),
            has_item_id(old(self)@, item_id),
        ensures
            *it == old(self)@.items[item_idx(old(self)@, item_id)],
            it.id == item_id,
            final(self)@ == (RoomModel {
                items: old(self)@.items.update(item_idx(old(self)@, item_id), *final(it)),
                ..old(self)@
            }),
    {
        let i = self.item_index_of(item_id);
        &mut self.items[i]
    }

    /// Applies an HP change with clamping: HP never rises above `max_hp`,
    /// and falling to zero or below pins it at zero and marks the actor
    /// dead.
    fn modify_hp(&mut self, actor_index: usize, delta: i64)
        requires
            actor_index < old(self)@.actors.len(),
            -(u32::MAX as i64) <= delta <= u32::MAX as i64,
        ensures
            final(self)@ == (RoomModel {
                actors: old(self)@.actors.update(
                    actor_index as int,
                    crate::model::sp_modify_hp(
                        old(self)@.actors[actor_index as int],
                        delta as int,
                    ),
                ),
                ..old(self)@
            }),
    {
        let mut actor = self.actors[actor_index];
        let nh: i64 = actor.current_hp as i64 + delta;
        if nh > actor.max_hp as i64 {
            actor.current_hp = actor.max_hp;
        } else if nh <= 0 {
            actor.current_hp = 0;
            actor.is_dead = true;
        } else {
            actor.current_hp = nh as i32;
        }
        self.actors[actor_index] = actor;
    }

    /// Resolves one melee attack. Damage is attack power minus defense
    /// power, never negative; the attack event is always emitted, and a
    /// `Death` event follows exactly when this attack killed a previously
    /// living defender.
    fn melee_attack(&mut self, attacker_index: usize, defender_index: usize) -> (events: Vec<
        GameEvent,
    >)
        requires
            attacker_index < old(self)@.actors.len(),
            defender_index < old(self)@.actors.len(),
        ensures
            final(self)@ == sp_melee(old(self)@, attacker_index as int, defender_index as int).0,
            events@ == sp_melee(old(self)@, attacker_index as int, defender_index as int).1,
    {
        let att: i64 = self.actors[attacker_index].attack_power as i64;
        let def: i64 = self.actors[defender_index].defense_power as i64;
        let diff: i64 = att - def;
        let damage: i64 = if diff > 0 {
            diff
        } else {
            0
        };
        let was_dead = self.actors[defender_index].is_dead;
        self.modify_hp(defender_index, -damage);
        let attacker_id = self.actors[attacker_index].id;
        let defender_id = self.actors[defender_index].id;
        let mut events: Vec<GameEvent> = Vec::new();
        events.push(
            GameEvent::MeleeAttack { attacker_id, defender_id, damage: damage as u32 },
        );
        if self.actors[defender_index].is_dead && !was_dead {
            events.push(GameEvent::Death { actor_id: defender_id });
        }
        events
    }

    /// Moves the actor to `new_position`; if it is the player, every item
    /// in the inventory moves along with it.
    fn teleport_actor(&mut self, actor_index: usize, new_position: TilePoint)
        requires
            actor_index < old(self)@.actors.len(),
        ensures
            final(self)@ == sp_teleport(old(self)@, actor_index as int, new_position),
    {
        let mut a = self.actors[actor_index];
        a.position = new_position;
        self.actors[actor_index] = a;
        if actor_index == self.player_index {
            let ghost mid = self@;
            let n = self.items.len();
            let mut j: usize = 0;
            while j < n
                invariant
                    j <= n,
                    n == self@.items.len(),
                    self@ == (RoomModel {
                        items: self@.items,
                        ..mid
                    }),
                    forall|t: int|
                        0 <= t < j as int ==> #[trigger] self@.items[t] == (
                        if mid.inventory.contains(mid.items[t].id) {
                            Item { position: new_position, ..mid.items[t] }
                        } else {
                            mid.items[t]
                        }),
                    forall|t: int| j as int <= t < n as int ==> #[trigger] self@.items[t] == mid.items[t],
                decreases n - j,
            {
                if contains_id(&self.player_inventory, self.items[j].id) {
                    let mut it = self.items[j];
                    it.position = new_position;
                    self.items[j] = it;
                }
                j += 1;
            }
            proof {
                assert(self@.items =~= sp_teleport(old(self)@, actor_index as int, new_position).items);
                assert(self@ == sp_teleport(old(self)@, actor_index as int, new_position));
            }
        }
    }

    /// The first inventory position (in acquisition order) holding an
    /// equipped item that occupies `slot`, if any.
    fn find_slot_conflict(&self, slot: crate::content::EquipSlot) -> (r: Option<usize>)
        requires
            room_wf(self@),
        ensures
            match r {
                Some(k) => k as int == first_conflict_from(self@, slot, 0) && k
                    < self@.inventory.len(),
                None => first_conflict_from(self@, slot, 0) == -1,
            },
    {
        let n = self.player_inventory.len();
        let mut k: usize = 0;
        while k < n
            invariant
                k <= n,
                n == self@.inventory.len(),
                first_conflict_from(self@, slot, 0) == first_conflict_from(self@, slot, k as int),
            decreases n - k,
        {
            let other_item_id = self.player_inventory[k];
            let other = self.get_item(other_item_id);
            if other.equipped && get_item_data(other.item_type).equip_slot == slot {
                proof {
                    assert(conflicts_at(self@, slot, k as int));
                }
                return Some(k);
            }
            proof {
                assert(!conflicts_at(self@, slot, k as int));
            }
            k += 1;
        }
        None
    }

    /// Clears the item's equipped flag and takes its bonuses back off the
    /// player's live stats. Callers only invoke this on a currently
    /// equipped item.
    fn unequip_item(&mut self, item_id: u32) -> (event: GameEvent)
        requires
            room_wf(old(self)@),
            has_player(old(self)@),
            has_item_id(old(self)@, item_id),
            stat_headroom(old(self)@),
        ensures
            final(self)@ == sp_unequip(old(self)@, item_id).0,
            event == sp_unequip(old(self)@, item_id).1,
    {
        let idx = self.item_index_of(item_id);
        let mut it = self.items[idx];
        it.equipped = false;
        self.items[idx] = it;
        let item_data = get_item_data(it.item_type);
        proof {
            crate::content::lemma_item_bonus_bounded(it.item_type);
        }
        let pi = self.player_index;
        let mut p = self.actors[pi];
        if let Some(attack_bonus) = item_data.attack_bonus {
            p.attack_power = p.attack_power - attack_bonus;
        }
        if let Some(defense_bonus) = item_data.defense_bonus {
            p.defense_power = p.defense_power - defense_bonus;
        }
        self.actors[pi] = p;
        GameEvent::UnequippedItem { item_id }
    }

    /// Equips the item: the first equipped inventory item occupying the
    /// same slot, if any, is unequipped first; then the item is flagged
    /// equipped and its bonuses are added to the player's live stats.
    fn equip_item(&mut self, item_id: u32) -> (events: Vec<GameEvent>)
        requires
            room_wf(old(self)@),
            has_player(old(self)@),
            has_item_id(old(self)@, item_id),
            stat_headroom(old(self)@),
        ensures
            final(self)@ == sp_equip(old(self)@, item_id).0,
            events@ == sp_equip(old(self)@, item_id).1,
    {
        let mut events: Vec<GameEvent> = Vec::new();
        let idx = self.item_index_of(item_id);
        let item_data = get_item_data(self.items[idx].item_type);

        let conflict = self.find_slot_conflict(item_data.equip_slot);
        if let Some(k) = conflict {
            let other_item_id = self.player_inventory[k];
            proof {
                lemma_first_conflict_in_range(self@, item_data.equip_slot, 0);
                crate::content::lemma_item_bonus_bounded(
                    self@.items[item_idx(self@, other_item_id)].item_type,
                );
            }
            let ev = self.unequip_item(other_item_id);
            events.push(ev);
            proof {
                lemma_unequip_preserves(old(self)@, other_item_id);
            }
        }
        let idx2 = self.item_index_of(item_id);
        let mut it = self.items[idx2];
        it.equipped = true;
        self.items[idx2] = it;
        proof {
            crate::content::lemma_item_bonus_bounded(it.item_type);
        }
        let pi = self.player_index;
        let mut p = self.actors[pi];
        if let Some(attack_bonus) = item_data.attack_bonus {
            p.attack_power = p.attack_power + attack_bonus;
        }
        if let Some(defense_bonus) = item_data.defense_bonus {
            p.defense_power = p.defense_power + defense_bonus;
        }
        self.actors[pi] = p;
        events.push(GameEvent::EquippedItem { item_id });
        events
    }

    /// One attempted walk step: fails without mutation when the target
    /// cell is a wall or out of bounds or a living actor stands there; on
    /// success the actor (with the player's carried items) moves there.
    fn actor_walk(&mut self, actor_index: usize, delta: TileDelta) -> (success: bool)
        requires
            room_wf(old(self)@),
            actor_index < old(self)@.actors.len(),
        ensures
            final(self)@ == sp_walk(old(self)@, actor_index as int, delta).0,
            success == walk_ok(old(self)@, actor_index as int, delta),
    {
        let pos = self.actors[actor_index].position;
        let tx: i64 = pos.x as i64 + delta.x as i64;
        let ty: i64 = pos.y as i64 + delta.y as i64;
        if tx < 0 || ty < 0 || tx >= self.size.x as i64 || ty >= self.size.y as i64 {
            return false;
        }
        let next_position = TilePoint { x: tx as i32, y: ty as i32 };
        match self.get_cell_type(next_position) {
            CellType::DefaultWall | CellType::OutOfBounds => {
                return false;
            },
            _ => {},
        }
        if self.find_actors_at(next_position, false).len() > 0 {
            return false;
        }
        self.teleport_actor(actor_index, next_position);
        true
    }
}

impl Room {
    /// One actor's AI turn. Dead actors and the player do nothing. A toad
    /// at Manhattan distance 1 from the player attacks it (diagonal
    /// neighbors included); otherwise it attempts one step of its 4-phase
    /// patrol cycle and advances the phase whether or not the step
    /// succeeded.
    fn run_monster_turn(&mut self, index: usize) -> (events: Vec<GameEvent>)
        requires
            room_wf(old(self)@),
            has_player(old(self)@),
            index < old(self)@.actors.len(),
        ensures
            final(self)@ == sp_monster_turn(old(self)@, index as int).0,
            events@ == sp_monster_turn(old(self)@, index as int).1,
    {
        if self.actors[index].is_dead {
            return Vec::new();
        }
        match self.actors[index].actor_type {
            ActorType::Player => Vec::new(),
            ActorType::Toad => {
                let player_position = self.actors[self.player_index].position;
                let distance_to_player = distance(player_position, self.actors[index].position);
                if distance_to_player == 1 {
                    let pi = self.player_index;
                    self.melee_attack(index, pi)
                } else {
                    let ai = self.actors[index].ai_data;
                    let walk_delta = if ai == 0 {
                        TilePoint { x: 1, y: 0 }
                    } else if ai == 1 {
                        TilePoint { x: 0, y: 1 }
                    } else if ai == 2 {
                        TilePoint { x: -1, y: 0 }
                    } else {
                        TilePoint { x: 0, y: -1 }
                    };
                    self.actor_walk(index, walk_delta);
                    let mut a = self.actors[index];
                    a.ai_data = if a.ai_data >= 3 {
                        0
                    } else {
                        a.ai_data + 1
                    };
                    self.actors[index] = a;
                    Vec::new()
                }
            },
        }
    }
}

/// Builds a bordered room: outer ring of walls, floor inside. This is the
/// only level-generation logic in the core.
fn create_blank_room(size: TileSize) -> (r: Room)
    requires
        size.x <= i32::MAX as usize,
        size.y <= i32::MAX as usize,
    ensures
        r@ == sp_blank_room(size.x as int, size.y as int),
{
    let mut room = Room::new(size);
    let mut x: usize = 0;
    while x < size.x
        invariant
            x <= size.x,
            room.size == size,
            room@.actors =~= Seq::<Actor>::empty(),
            room@.items =~= Seq::<Item>::empty(),
            room@.inventory =~= Seq::<u32>::empty(),
            room@.next_id == 0,
            room@.player_index == 0,
            room@.grid.len() == size.x as int,
            forall|i: int|
                0 <= i < size.x as int ==> (#[trigger] room@.grid[i]).len() == size.y as int,
            forall|i: int, j: int|
                0 <= i < x as int && 0 <= j < size.y as int ==> #[trigger] room@.grid[i][j]
                    == blank_cell(size.x as int, size.y as int, i, j),
            forall|i: int, j: int|
                (x as int) <= i < (size.x as int) && 0 <= j < size.y as int
                    ==> #[trigger] room@.grid[i][j] is Empty,
        decreases size.x - x,
    {
        let mut column: Vec<Cell> = Vec::new();
        let mut y: usize = 0;
        while y < size.y
            invariant
                y <= size.y,
                x < size.x,
                column@.len() == y as int,
                forall|j: int|
                    0 <= j < y as int ==> (#[trigger] column@[j]).cell_type == blank_cell(
                        size.x as int,
                        size.y as int,
                        x as int,
                        j,
                    ),
            decreases size.y - y,
        {
            let cell_type = if x == 0 || y == 0 || x == size.x - 1 || y == size.y - 1 {
                CellType::DefaultWall
            } else {
                CellType::Floor
            };
            column.push(Cell { cell_type });
            y += 1;
        }
        let ghost pre_grid = room@.grid;
        room.cells[x] = column;
        proof {
            assert forall|i: int|
                0 <= i < size.x as int && i != x as int implies #[trigger] room@.grid[i]
                == pre_grid[i] by {
                assert(room@.grid[i] =~= pre_grid[i]);
            }
            assert(room@.grid[x as int] =~= Seq::new(
                size.y as nat,
                |j: int| column@[j].cell_type,
            ));
        }
        x += 1;
    }
    proof {
        assert forall|i: int| 0 <= i < size.x as int implies (#[trigger] room@.grid[i]) =~= sp_blank_room(
            size.x as int,
            size.y as int,
        ).grid[i] by {}
        assert(room@.grid =~= sp_blank_room(size.x as int, size.y as int).grid);
    }
    room
}

/// The closed set of player commands: the only mutation entry point.
#[derive(Copy, Clone, Debug)]
pub enum Command {
    Wait,
    Walk { delta: TileDelta },
    Fight { delta: TileDelta },
    GetItem { item_id: u32 },
    DropItem { item_id: u32 },
    ToggleEquipment { item_id: u32 },
}

/// The turn controller: one room, the turn counter and the append-only
/// event log.
pub struct GameInstance {
    pub turn: u32,
    pub current_room: Room,
    pub event_log: Vec<GameEvent>,
}

impl View for GameInstance {
    type V = GameModel;

    open spec fn view(&self) -> GameModel {
        GameModel { turn: self.turn, room: self.current_room@, log: self.event_log@ }
    }
}

/// First position of `id` in `ids`, which must be present; under distinct
/// entries it is the unique one.
fn position_of_id(ids: &Vec<u32>, id: u32) -> (p: usize)
    requires
        ids@.contains(id),
        forall|k: int, l: int| 0 <= k < l < ids@.len() ==> ids@[k] != ids@[l],
    ensures
        p < ids@.len(),
        ids@[p as int] == id,
        p as int == crate::model::inventory_pos(ids@, id),
{
    let n = ids.len();
    let mut k: usize = 0;
    while k < n
        invariant
            k <= n,
            n == ids@.len(),
            forall|t: int| 0 <= t < k as int ==> ids@[t] != id,
        decreases n - k,
    {
        if ids[k] == id {
            proof {
                let w = crate::model::inventory_pos(ids@, id);
                assert(0 <= w < ids@.len() && ids@[w] == id) by {
                    assert(ids@[k as int] == id);
                }
                if w < (k as int) {
                    assert(ids@[w] != ids@[k as int]);
                } else if (k as int) < w {
                    assert(ids@[k as int] != ids@[w]);
                }
            }
            return k;
        }
        k += 1;
    }
    proof {
        let w = choose|t: int| 0 <= t < ids@.len() && ids@[t] == id;
        assert(ids@[w] != id);
    }
    unreached()
}

impl GameInstance {
    /// A fresh game: turn 0, an empty event log, and a freshly generated
    /// bordered 13 by 9 room with no entities yet.
    pub fn new() -> (g: GameInstance)
        ensures
            g@.turn == 0,
            g@.log =~= Seq::<GameEvent>::empty(),
            g@.room == sp_blank_room(13, 9),
            room_wf(g@.room),
    {
        proof {
            crate::model::lemma_blank_room_wf(13, 9);
        }
        GameInstance {
            turn: 0,
            current_room: create_blank_room(TileSize { x: 13, y: 9 }),
            event_log: Vec::new(),
        }
    }

    /// Executes one command: resolves it against the room, appends its
    /// events to the log, and — unless the command was a failed walk —
    /// runs every actor's AI turn in creation order and advances the turn
    /// counter by one.
    #[verifier::rlimit(100)]
    pub fn execute_command(&mut self, command: Command)
        requires
            room_wf(old(self)@.room),
            has_player(old(self)@.room),
            command_valid(old(self)@.room, command),
            old(self)@.turn < u32::MAX,
        ensures
            final(self)@ == sp_execute(old(self)@, command),
            room_wf(final(self)@.room),
            has_player(final(self)@.room),
    {
        let ghost r0 = old(self)@.room;
        let actor_count = self.current_room.actors.len();
        proof {
            assert(r0.actors.len() == actor_count as int);
        }
        let turn_ended: bool = match command {
            Command::Wait => true,
            Command::Walk { delta } => {
                let pi = self.current_room.player_index;
                let succeeded = self.current_room.actor_walk(pi, delta);
                if !succeeded {
                    let id = self.current_room.get_player().id;
                    self.event_log.push(GameEvent::Bonk { actor_id: id });
                }
                proof {
                    lemma_walk_preserves(r0, r0.player_index, delta);
                }
                succeeded
            },
            Command::Fight { delta } => {
                let player_position = self.current_room.get_player().position;
                let ax: i64 = player_position.x as i64 + delta.x as i64;
                let ay: i64 = player_position.y as i64 + delta.y as i64;
                if ax >= i32::MIN as i64 && ax <= i32::MAX as i64 && ay >= i32::MIN as i64 && ay
                    <= i32::MAX as i64 {
                    let attack_position = TilePoint { x: ax as i32, y: ay as i32 };
                    let other_actors = self.current_room.find_actors_at(attack_position, false);
                    if other_actors.len() > 0 {
                        proof {
                            crate::model::lemma_actor_hits_upto_sound(
                                r0.actors,
                                ax as int,
                                ay as int,
                                false,
                                r0.actors.len() as int,
                            );
                        }
                        let defender_index = other_actors[0];
                        let pi = self.current_room.player_index;
                        let mut evs = self.current_room.melee_attack(pi, defender_index);
                        self.event_log.append(&mut evs);
                        proof {
                            lemma_melee_preserves(
                                r0,
                                r0.player_index,
                                other_actors@[0] as int,
                            );
                        }
                    }
                } else {
                    proof {
                        crate::model::lemma_actor_hits_outside_i32(
                            r0.actors,
                            ax as int,
                            ay as int,
                            false,
                        );
                    }
                }
                true
            },
            Command::GetItem { item_id } => {
                proof {
                    lemma_get_item_preserves(r0, item_id);
                }
                let m = self.current_room.get_item_mut(item_id);
                m.carried = true;
                self.current_room.player_inventory.push(item_id);
                self.event_log.push(GameEvent::GotItem { item_id });
                true
            },
            Command::DropItem { item_id } => {
                proof {
                    lemma_drop_item_preserves(r0, item_id);
                }
                if self.current_room.get_item(item_id).equipped {
                    let ev = self.current_room.unequip_item(item_id);
                    self.event_log.push(ev);
                    proof {
                        lemma_unequip_preserves(r0, item_id);
                    }
                }
                let m = self.current_room.get_item_mut(item_id);
                m.carried = false;
                let p = position_of_id(&self.current_room.player_inventory, item_id);
                self.current_room.player_inventory.remove(p);
                self.event_log.push(GameEvent::DroppedItem { item_id });
                true
            },
            Command::ToggleEquipment { item_id } => {
                if self.current_room.get_item(item_id).equipped {
                    let ev = self.current_room.unequip_item(item_id);
                    self.event_log.push(ev);
                    proof {
                        lemma_unequip_preserves(r0, item_id);
                    }
                } else {
                    let mut evs = self.current_room.equip_item(item_id);
                    self.event_log.append(&mut evs);
                    proof {
                        crate::model::lemma_equip_preserves(r0, item_id);
                    }
                }
                true
            },
        };
        proof {
            assert(self.current_room@ == sp_command(r0, command).0);
            assert(self.event_log@ == old(self)@.log + sp_command(r0, command).1);
            assert(turn_ended == sp_command(r0, command).2);
            assert(room_wf(self.current_room@) && has_player(self.current_room@));
        }
        if turn_ended {
            let ghost r_cmd = self.current_room@;
            let n = self.current_room.actors.len();
            let mut i: usize = 0;
            while i < n
                invariant
                    i <= n,
                    room_wf(self.current_room@),
                    has_player(self.current_room@),
                    n == self.current_room@.actors.len(),
                    self.current_room@ == crate::model::sp_sweep(r_cmd, i as int).0,
                    self.event_log@ == old(self)@.log + sp_command(r0, command).1
                        + crate::model::sp_sweep(r_cmd, i as int).1,
                    self.turn == old(self).turn,
                decreases n - i,
            {
                proof {
                    crate::model::lemma_monster_turn_preserves(self.current_room@, i as int);
                }
                let mut evs = self.current_room.run_monster_turn(i);
                self.event_log.append(&mut evs);
                i += 1;
            }
            self.turn = self.turn + 1;
        }
    }
}

} // verus!
