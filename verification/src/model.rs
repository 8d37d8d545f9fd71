//! Mathematical model of the turn engine: ghost images of the room and game
//! state, and spec-level transition functions that the executable operations
//! are proved to implement exactly.

use vstd::prelude::*;

use crate::content::{spec_item_data, EquipSlot};
use crate::game_model::{Actor, CellType, Command, Item};
use crate::types::{ActorType, GameEvent, TilePoint};

verus! {

/// Ghost image of a `Room`: the grid as a sequence of columns, the entity
/// collections as sequences, and the bookkeeping counters as mathematical
/// integers.
pub ghost struct RoomModel {
    pub size_x: int,
    pub size_y: int,
    pub grid: Seq<Seq<CellType>>,
    pub actors: Seq<Actor>,
    pub items: Seq<Item>,
    pub inventory: Seq<u32>,
    pub next_id: u32,
    pub player_index: int,
}

/// Ghost image of a `GameInstance`.
pub ghost struct GameModel {
    pub turn: u32,
    pub room: RoomModel,
    pub log: Seq<GameEvent>,
}

// ---------------------------------------------------------------------------
// Well-formedness
// ---------------------------------------------------------------------------

/// Room well-formedness: the grid matches the recorded size, fits in
/// `i32` coordinates and stores no `OutOfBounds` cell (that type only
/// arises as a query result), AI phase counters are in their cycle, ids
/// are unique across actors and items and below the shared allocation
/// counter, and the inventory holds distinct ids of carried items.
pub open spec fn room_wf(r: RoomModel) -> bool {
    &&& 0 <= r.size_x <= i32::MAX as int
    &&& 0 <= r.size_y <= i32::MAX as int
    &&& r.grid.len() == r.size_x
    &&& forall|x: int| 0 <= x < r.size_x ==> (#[trigger] r.grid[x]).len() == r.size_y
    &&& forall|x: int, y: int|
        0 <= x < r.size_x && 0 <= y < r.size_y ==> !((#[trigger] r.grid[x][y]) is OutOfBounds)
    &&& forall|i: int|
        0 <= i < r.actors.len() ==> 0 <= (#[trigger] r.actors[i]).ai_data <= 3
    &&& forall|i: int, j: int|
        0 <= i < j < r.actors.len() ==> (#[trigger] r.actors[i]).id != (#[trigger] r.actors[j]).id
    &&& forall|i: int, j: int|
        0 <= i < j < r.items.len() ==> (#[trigger] r.items[i]).id != (#[trigger] r.items[j]).id
    &&& forall|i: int, j: int|
        0 <= i < r.actors.len() && 0 <= j < r.items.len() ==> (#[trigger] r.actors[i]).id != (
        #[trigger] r.items[j]).id
    &&& forall|i: int| 0 <= i < r.actors.len() ==> (#[trigger] r.actors[i]).id < r.next_id
    &&& forall|i: int| 0 <= i < r.items.len() ==> (#[trigger] r.items[i]).id < r.next_id
    &&& forall|k: int, l: int|
        0 <= k < l < r.inventory.len() ==> r.inventory[k] != r.inventory[l]
    &&& forall|k: int|
        0 <= k < r.inventory.len() ==> has_item_id(r, #[trigger] r.inventory[k])
            && r.items[item_idx(r, r.inventory[k])].carried
}

/// A player actor has been recorded; required before turn execution.
pub open spec fn has_player(r: RoomModel) -> bool {
    &&& 0 <= r.player_index < r.actors.len()
    &&& r.actors[r.player_index].actor_type is Player
}

pub open spec fn player_of(r: RoomModel) -> Actor {
    r.actors[r.player_index]
}

// ---------------------------------------------------------------------------
// Spatial queries
// ---------------------------------------------------------------------------

pub open spec fn in_bounds(r: RoomModel, x: int, y: int) -> bool {
    0 <= x < r.size_x && 0 <= y < r.size_y
}

/// The single authoritative bounds-checked cell lookup: any position outside
/// the grid extent reads as `OutOfBounds`.
pub open spec fn cell_type_at(r: RoomModel, x: int, y: int) -> CellType {
    if in_bounds(r, x, y) {
        r.grid[x][y]
    } else {
        CellType::OutOfBounds
    }
}

pub open spec fn actor_matches_at(a: Actor, x: int, y: int, include_dead: bool) -> bool {
    a.position.x == x && a.position.y == y && (include_dead || !a.is_dead)
}

/// Indices (in creation order) of the first `n` actors standing at `(x, y)`.
pub open spec fn actor_hits_upto(
    actors: Seq<Actor>,
    x: int,
    y: int,
    include_dead: bool,
    n: int,
) -> Seq<usize>
    decreases n,
{
    if n <= 0 {
        Seq::empty()
    } else {
        let rest = actor_hits_upto(actors, x, y, include_dead, n - 1);
        if actor_matches_at(actors[n - 1], x, y, include_dead) {
            rest.push((n - 1) as usize)
        } else {
            rest
        }
    }
}

/// Indices of all actors standing at `(x, y)`, in creation order.
pub open spec fn actor_hits(actors: Seq<Actor>, x: int, y: int, include_dead: bool) -> Seq<
    usize,
> {
    actor_hits_upto(actors, x, y, include_dead, actors.len() as int)
}

pub open spec fn item_loose_at(it: Item, x: int, y: int) -> bool {
    it.position.x == x && it.position.y == y && !it.carried
}

pub open spec fn item_hits_upto(items: Seq<Item>, x: int, y: int, n: int) -> Seq<usize>
    decreases n,
{
    if n <= 0 {
        Seq::empty()
    } else {
        let rest = item_hits_upto(items, x, y, n - 1);
        if item_loose_at(items[n - 1], x, y) {
            rest.push((n - 1) as usize)
        } else {
            rest
        }
    }
}

/// Indices of all loose (not carried) items lying at `(x, y)`, in creation
/// order.
pub open spec fn item_hits(items: Seq<Item>, x: int, y: int) -> Seq<usize> {
    item_hits_upto(items, x, y, items.len() as int)
}

// ---------------------------------------------------------------------------
// Identity lookups
// ---------------------------------------------------------------------------

pub open spec fn has_actor_id(r: RoomModel, id: u32) -> bool {
    exists|i: int| 0 <= i < r.actors.len() && (#[trigger] r.actors[i]).id == id
}

/// The index of the actor with the given id; meaningful under `room_wf`,
/// where ids are unique.
pub open spec fn actor_idx(r: RoomModel, id: u32) -> int {
    choose|i: int| 0 <= i < r.actors.len() && (#[trigger] r.actors[i]).id == id
}

pub open spec fn has_item_id(r: RoomModel, id: u32) -> bool {
    exists|i: int| 0 <= i < r.items.len() && (#[trigger] r.items[i]).id == id
}

/// The index of the item with the given id; meaningful under `room_wf`.
pub open spec fn item_idx(r: RoomModel, id: u32) -> int {
    choose|i: int| 0 <= i < r.items.len() && (#[trigger] r.items[i]).id == id
}

/// The position of the first occurrence of `id` in the inventory.
pub open spec fn inventory_pos(inv: Seq<u32>, id: u32) -> int {
    choose|k: int| 0 <= k < inv.len() && inv[k] == id
}

/// Under unique actor ids, `actor_idx` is the one index holding `id`.
pub proof fn lemma_actor_idx_unique(r: RoomModel, id: u32, i: int)
    requires
        forall|a: int, b: int|
            0 <= a < b < r.actors.len() ==> (#[trigger] r.actors[a]).id != (
            #[trigger] r.actors[b]).id,
        0 <= i < r.actors.len(),
        r.actors[i].id == id,
    ensures
        has_actor_id(r, id),
        actor_idx(r, id) == i,
{
    assert(has_actor_id(r, id));
    let j = actor_idx(r, id);
    assert(0 <= j < r.actors.len() && r.actors[j].id == id);
    if i < j {
        assert(r.actors[i].id != r.actors[j].id);
    } else if j < i {
        assert(r.actors[j].id != r.actors[i].id);
    }
}

/// Under unique item ids, `item_idx` is the one index holding `id`.
pub proof fn lemma_item_idx_unique(r: RoomModel, id: u32, i: int)
    requires
        forall|a: int, b: int|
            0 <= a < b < r.items.len() ==> (#[trigger] r.items[a]).id != (#[trigger] r.items[b]).id,
        0 <= i < r.items.len(),
        r.items[i].id == id,
    ensures
        has_item_id(r, id),
        item_idx(r, id) == i,
{
    assert(has_item_id(r, id));
    let j = item_idx(r, id);
    assert(0 <= j < r.items.len() && r.items[j].id == id);
    if i < j {
        assert(r.items[i].id != r.items[j].id);
    } else if j < i {
        assert(r.items[j].id != r.items[i].id);
    }
}

/// Every index the actor query returns is a matching index below `n`.
pub proof fn lemma_actor_hits_upto_sound(
    actors: Seq<Actor>,
    x: int,
    y: int,
    include_dead: bool,
    n: int,
)
    requires
        n <= actors.len(),
        actors.len() <= usize::MAX,
    ensures
        forall|t: int|
            0 <= t < actor_hits_upto(actors, x, y, include_dead, n).len() ==> {
                let i = #[trigger] actor_hits_upto(actors, x, y, include_dead, n)[t];
                0 <= i < n && actor_matches_at(actors[i as int], x, y, include_dead)
            },
    decreases n,
{
    if n > 0 {
        lemma_actor_hits_upto_sound(actors, x, y, include_dead, n - 1);
        let prev = actor_hits_upto(actors, x, y, include_dead, n - 1);
        let cur = actor_hits_upto(actors, x, y, include_dead, n);
        assert forall|t: int| 0 <= t < cur.len() implies 0 <= #[trigger] cur[t] < n
            && actor_matches_at(actors[cur[t] as int], x, y, include_dead) by {
            if actor_matches_at(actors[n - 1], x, y, include_dead) {
                if t < prev.len() {
                    assert(cur[t] == prev[t]);
                } else {
                    assert(cur[t] == (n - 1) as usize);
                }
            } else {
                assert(cur[t] == prev[t]);
            }
        }
    }
}

/// Every matching index below `n` appears in the actor query's result.
pub proof fn lemma_actor_hits_upto_complete(
    actors: Seq<Actor>,
    x: int,
    y: int,
    include_dead: bool,
    n: int,
    i: int,
)
    requires
        0 <= i < n <= actors.len(),
        actors.len() <= usize::MAX,
        actor_matches_at(actors[i], x, y, include_dead),
    ensures
        actor_hits_upto(actors, x, y, include_dead, n).contains(i as usize),
    decreases n,
{
    if i == n - 1 {
        let prev = actor_hits_upto(actors, x, y, include_dead, n - 1);
        assert(actor_hits_upto(actors, x, y, include_dead, n)[prev.len() as int] == i as usize);
    } else {
        lemma_actor_hits_upto_complete(actors, x, y, include_dead, n - 1, i);
        let prev = actor_hits_upto(actors, x, y, include_dead, n - 1);
        let t = choose|t: int| 0 <= t < prev.len() && prev[t] == i as usize;
        assert(actor_hits_upto(actors, x, y, include_dead, n)[t] == i as usize);
    }
}

/// No actor stands at a coordinate outside the `i32` range, so the actor
/// query is empty there.
pub proof fn lemma_actor_hits_outside_i32(actors: Seq<Actor>, x: int, y: int, include_dead: bool)
    requires
        actors.len() <= usize::MAX,
        x < i32::MIN as int || x > i32::MAX as int || y < i32::MIN as int || y > i32::MAX as int,
    ensures
        actor_hits(actors, x, y, include_dead).len() == 0,
{
    lemma_actor_hits_upto_sound(actors, x, y, include_dead, actors.len() as int);
    let hits = actor_hits(actors, x, y, include_dead);
    if hits.len() > 0 {
        let i = hits[0];
        assert(actor_matches_at(actors[i as int], x, y, include_dead));
    }
}

// ---------------------------------------------------------------------------
// Movement
// ---------------------------------------------------------------------------

/// Manhattan distance between two grid coordinates.
pub open spec fn manhattan(p1: TilePoint, p2: TilePoint) -> int {
    (vstd::math::abs(p1.x - p2.x) + vstd::math::abs(p1.y - p2.y)) as int
}

/// Moves the actor to `p`; if it is the player, every item in the inventory
/// moves along with it.
pub open spec fn sp_teleport(r: RoomModel, idx: int, p: TilePoint) -> RoomModel {
    let moved = RoomModel {
        actors: r.actors.update(idx, Actor { position: p, ..r.actors[idx] }),
        ..r
    };
    if idx == r.player_index {
        RoomModel {
            items: Seq::new(
                moved.items.len(),
                |j: int|
                    if moved.inventory.contains(moved.items[j].id) {
                        Item { position: p, ..moved.items[j] }
                    } else {
                        moved.items[j]
                    },
            ),
            ..moved
        }
    } else {
        moved
    }
}

/// A walk step succeeds when the target cell is neither a wall nor out of
/// bounds and no living actor stands there.
pub open spec fn walk_ok(r: RoomModel, idx: int, delta: TilePoint) -> bool {
    let tx = r.actors[idx].position.x + delta.x;
    let ty = r.actors[idx].position.y + delta.y;
    let ct = cell_type_at(r, tx, ty);
    &&& !(ct is DefaultWall)
    &&& !(ct is OutOfBounds)
    &&& actor_hits(r.actors, tx, ty, false).len() == 0
}

/// One attempted walk step: on success the actor (and the player's carried
/// items) teleport to the target; on failure nothing changes.
pub open spec fn sp_walk(r: RoomModel, idx: int, delta: TilePoint) -> (RoomModel, bool) {
    let tx = r.actors[idx].position.x + delta.x;
    let ty = r.actors[idx].position.y + delta.y;
    if walk_ok(r, idx, delta) {
        (sp_teleport(r, idx, TilePoint { x: tx as i32, y: ty as i32 }), true)
    } else {
        (r, false)
    }
}

// ---------------------------------------------------------------------------
// Combat
// ---------------------------------------------------------------------------

/// Melee damage: attack power minus defense power, never negative.
pub open spec fn sp_damage(attack: int, defense: int) -> int {
    if attack - defense > 0 {
        attack - defense
    } else {
        0
    }
}

/// HP change with clamping: healing is capped at `max_hp`, and dropping to
/// zero or below pins HP at zero and marks the actor dead.
pub open spec fn sp_modify_hp(a: Actor, delta: int) -> Actor {
    let nh = a.current_hp + delta;
    if nh > a.max_hp {
        Actor { current_hp: a.max_hp, ..a }
    } else if nh <= 0 {
        Actor { current_hp: 0, is_dead: true, ..a }
    } else {
        Actor { current_hp: nh as i32, ..a }
    }
}

/// One melee attack: always emits a `MeleeAttack` event; emits a `Death`
/// event exactly when this attack killed a previously living defender.
pub open spec fn sp_melee(r: RoomModel, attacker: int, defender: int) -> (
    RoomModel,
    Seq<GameEvent>,
) {
    let dmg = sp_damage(
        r.actors[attacker].attack_power as int,
        r.actors[defender].defense_power as int,
    );
    let hit = sp_modify_hp(r.actors[defender], -dmg);
    let r1 = RoomModel { actors: r.actors.update(defender, hit), ..r };
    let attack_ev = GameEvent::MeleeAttack {
        attacker_id: r.actors[attacker].id,
        defender_id: r.actors[defender].id,
        damage: dmg as u32,
    };
    if hit.is_dead && !r.actors[defender].is_dead {
        (r1, seq![attack_ev, GameEvent::Death { actor_id: r.actors[defender].id }])
    } else {
        (r1, seq![attack_ev])
    }
}

// ---------------------------------------------------------------------------
// Monster AI
// ---------------------------------------------------------------------------

/// The fixed 4-phase patrol cycle: east, south, west, north.
pub open spec fn toad_patrol_delta(ai_data: int) -> TilePoint {
    if ai_data == 0 {
        TilePoint { x: 1, y: 0 }
    } else if ai_data == 1 {
        TilePoint { x: 0, y: 1 }
    } else if ai_data == 2 {
        TilePoint { x: -1i32, y: 0 }
    } else {
        TilePoint { x: 0, y: -1i32 }
    }
}

/// The next patrol phase, wrapping after the fourth.
pub open spec fn next_ai_phase(ai_data: int) -> int {
    if ai_data >= 3 {
        0
    } else {
        ai_data + 1
    }
}

/// One actor's turn. Dead actors and the player do nothing. A toad at
/// Manhattan distance 1 from the player attacks it; otherwise it attempts
/// one patrol step and advances its phase whether or not the step succeeded.
pub open spec fn sp_monster_turn(r: RoomModel, i: int) -> (RoomModel, Seq<GameEvent>) {
    if !(0 <= i < r.actors.len()) || r.actors[i].is_dead {
        (r, Seq::empty())
    } else {
        match r.actors[i].actor_type {
            ActorType::Player => (r, Seq::empty()),
            ActorType::Toad => {
                if manhattan(player_of(r).position, r.actors[i].position) == 1 {
                    sp_melee(r, i, r.player_index)
                } else {
                    let stepped = sp_walk(r, i, toad_patrol_delta(r.actors[i].ai_data as int)).0;
                    let bumped = Actor {
                        ai_data: next_ai_phase(stepped.actors[i].ai_data as int) as i32,
                        ..stepped.actors[i]
                    };
                    (RoomModel { actors: stepped.actors.update(i, bumped), ..stepped }, Seq::empty())
                }
            },
        }
    }
}

/// The AI sweep over the first `n` actors, in creation order, threading the
/// room state and concatenating the emitted events.
pub open spec fn sp_sweep(r: RoomModel, n: int) -> (RoomModel, Seq<GameEvent>)
    decreases n,
{
    if n <= 0 {
        (r, Seq::empty())
    } else {
        let prev = sp_sweep(r, n - 1);
        let step = sp_monster_turn(prev.0, n - 1);
        (step.0, prev.1 + step.1)
    }
}

// ---------------------------------------------------------------------------
// Equipment
// ---------------------------------------------------------------------------

pub open spec fn bonus_or_zero(b: Option<i32>) -> int {
    match b {
        Some(v) => v as int,
        None => 0,
    }
}

/// Clears the equipped flag and takes the item's bonuses back off the
/// player's live stats.
pub open spec fn sp_unequip(r: RoomModel, item_id: u32) -> (RoomModel, GameEvent) {
    let ii = item_idx(r, item_id);
    let data = spec_item_data(r.items[ii].item_type);
    let player = player_of(r);
    let r1 = RoomModel {
        items: r.items.update(ii, Item { equipped: false, ..r.items[ii] }),
        actors: r.actors.update(
            r.player_index,
            Actor {
                attack_power: (player.attack_power - bonus_or_zero(data.attack_bonus)) as i32,
                defense_power: (player.defense_power - bonus_or_zero(data.defense_bonus)) as i32,
                ..player
            },
        ),
        ..r
    };
    (r1, GameEvent::UnequippedItem { item_id })
}

/// Whether the inventory entry at `k` holds an equipped item occupying
/// `slot`.
pub open spec fn conflicts_at(r: RoomModel, slot: EquipSlot, k: int) -> bool {
    let it = r.items[item_idx(r, r.inventory[k])];
    it.equipped && spec_item_data(it.item_type).equip_slot == slot
}

/// The first inventory position (in acquisition order) holding an equipped
/// item in `slot`, or -1 if the slot is free.
pub open spec fn first_conflict_from(r: RoomModel, slot: EquipSlot, k: int) -> int
    decreases r.inventory.len() - k,
{
    if !(0 <= k < r.inventory.len()) {
        -1
    } else if conflicts_at(r, slot, k) {
        k
    } else {
        first_conflict_from(r, slot, k + 1)
    }
}

/// Equips the item: if an equipped item already occupies the same slot, the
/// first such item in inventory order is unequipped first; then the item is
/// flagged equipped and its bonuses are added to the player's live stats.
pub open spec fn sp_equip(r: RoomModel, item_id: u32) -> (RoomModel, Seq<GameEvent>) {
    let data = spec_item_data(r.items[item_idx(r, item_id)].item_type);
    let fc = first_conflict_from(r, data.equip_slot, 0);
    let swapped = if fc >= 0 {
        let u = sp_unequip(r, r.inventory[fc]);
        (u.0, seq![u.1])
    } else {
        (r, Seq::<GameEvent>::empty())
    };
    let r1 = swapped.0;
    let ii = item_idx(r1, item_id);
    let player = player_of(r1);
    let r2 = RoomModel {
        items: r1.items.update(ii, Item { equipped: true, ..r1.items[ii] }),
        actors: r1.actors.update(
            r1.player_index,
            Actor {
                attack_power: (player.attack_power + bonus_or_zero(data.attack_bonus)) as i32,
                defense_power: (player.defense_power + bonus_or_zero(data.defense_bonus)) as i32,
                ..player
            },
        ),
        ..r1
    };
    (r2, swapped.1.push(GameEvent::EquippedItem { item_id }))
}

// ---------------------------------------------------------------------------
// Level generation
// ---------------------------------------------------------------------------

/// The cell a bordered blank room holds at `(x, y)`: walls on the outer
/// ring, floor inside.
pub open spec fn blank_cell(w: int, h: int, x: int, y: int) -> CellType {
    if x == 0 || y == 0 || x == w - 1 || y == h - 1 {
        CellType::DefaultWall
    } else {
        CellType::Floor
    }
}

/// A freshly generated bordered room with no entities.
pub open spec fn sp_blank_room(w: int, h: int) -> RoomModel {
    RoomModel {
        size_x: w,
        size_y: h,
        grid: Seq::new(w as nat, |x: int| Seq::new(h as nat, |y: int| blank_cell(w, h, x, y))),
        actors: Seq::empty(),
        items: Seq::empty(),
        inventory: Seq::empty(),
        next_id: 0,
        player_index: 0,
    }
}

pub proof fn lemma_blank_room_wf(w: int, h: int)
    requires
        0 <= w <= i32::MAX as int,
        0 <= h <= i32::MAX as int,
    ensures
        room_wf(sp_blank_room(w, h)),
        has_player(sp_blank_room(w, h)) == false,
{
}

// ---------------------------------------------------------------------------
// Preservation lemmas
// ---------------------------------------------------------------------------

/// Well-formedness survives any transition that keeps the grid, counters
/// and inventory, keeps every entity's id, keeps each item's carried flag,
/// and keeps every AI phase in its cycle; id lookups keep their results.
pub proof fn lemma_wf_same_ids(r: RoomModel, r1: RoomModel)
    requires
        room_wf(r),
        r1.size_x == r.size_x,
        r1.size_y == r.size_y,
        r1.grid == r.grid,
        r1.next_id == r.next_id,
        r1.inventory == r.inventory,
        r1.actors.len() == r.actors.len(),
        r1.items.len() == r.items.len(),
        forall|i: int|
            0 <= i < r.actors.len() ==> (#[trigger] r1.actors[i]).id == r.actors[i].id && 0
                <= r1.actors[i].ai_data <= 3,
        forall|i: int|
            0 <= i < r.items.len() ==> (#[trigger] r1.items[i]).id == r.items[i].id
                && r1.items[i].carried == r.items[i].carried,
    ensures
        room_wf(r1),
        forall|id: u32|
            #[trigger] has_item_id(r, id) ==> has_item_id(r1, id) && item_idx(r1, id) == item_idx(
                r,
                id,
            ),
        forall|id: u32|
            #[trigger] has_actor_id(r, id) ==> has_actor_id(r1, id) && actor_idx(r1, id)
                == actor_idx(r, id),
{
    assert forall|id: u32| #[trigger] has_item_id(r, id) implies has_item_id(r1, id) && item_idx(
        r1,
        id,
    ) == item_idx(r, id) by {
        let i = item_idx(r, id);
        assert(0 <= i < r.items.len() && r.items[i].id == id);
        assert(r1.items[i].id == id);
        lemma_item_idx_unique(r1, id, i);
    }
    assert forall|id: u32| #[trigger] has_actor_id(r, id) implies has_actor_id(r1, id)
        && actor_idx(r1, id) == actor_idx(r, id) by {
        let i = actor_idx(r, id);
        assert(0 <= i < r.actors.len() && r.actors[i].id == id);
        assert(r1.actors[i].id == id);
        lemma_actor_idx_unique(r1, id, i);
    }
    assert forall|k: int| 0 <= k < r1.inventory.len() implies has_item_id(
        r1,
        #[trigger] r1.inventory[k],
    ) && r1.items[item_idx(r1, r1.inventory[k])].carried by {
        assert(has_item_id(r, r.inventory[k]));
    }
}

/// Unequipping keeps the room well formed and the entity ids, flags and
/// positions other than the target's equipped flag and the player's stats.
pub proof fn lemma_unequip_preserves(r: RoomModel, item_id: u32)
    requires
        room_wf(r),
        has_player(r),
        has_item_id(r, item_id),
    ensures
        ({
            let r1 = sp_unequip(r, item_id).0;
            &&& room_wf(r1)
            &&& has_player(r1)
            &&& r1.actors.len() == r.actors.len()
            &&& r1.items.len() == r.items.len()
            &&& r1.inventory == r.inventory
            &&& r1.player_index == r.player_index
            &&& forall|i: int|
                0 <= i < r.items.len() ==> (#[trigger] r1.items[i]).id == r.items[i].id
                    && r1.items[i].carried == r.items[i].carried && r1.items[i].position
                    == r.items[i].position && r1.items[i].item_type == r.items[i].item_type
            &&& forall|i: int|
                0 <= i < r.actors.len() && i != r.player_index ==> #[trigger] r1.actors[i]
                    == r.actors[i]
            &&& forall|id: u32|
                #[trigger] has_item_id(r, id) ==> has_item_id(r1, id) && item_idx(r1, id)
                    == item_idx(r, id)
        }),
{
    let r1 = sp_unequip(r, item_id).0;
    lemma_wf_same_ids(r, r1);
}

/// Equipping keeps the room well formed; entity ids, carried flags and
/// positions are untouched.
pub proof fn lemma_equip_preserves(r: RoomModel, item_id: u32)
    requires
        room_wf(r),
        has_player(r),
        has_item_id(r, item_id),
    ensures
        ({
            let r1 = sp_equip(r, item_id).0;
            &&& room_wf(r1)
            &&& has_player(r1)
            &&& r1.actors.len() == r.actors.len()
            &&& r1.items.len() == r.items.len()
            &&& r1.inventory == r.inventory
            &&& r1.player_index == r.player_index
            &&& forall|i: int|
                0 <= i < r.items.len() ==> (#[trigger] r1.items[i]).id == r.items[i].id
                    && r1.items[i].carried == r.items[i].carried && r1.items[i].position
                    == r.items[i].position && r1.items[i].item_type == r.items[i].item_type
        }),
{
    let data = spec_item_data(r.items[item_idx(r, item_id)].item_type);
    let fc = first_conflict_from(r, data.equip_slot, 0);
    if fc >= 0 {
        lemma_first_conflict_in_range(r, data.equip_slot, 0);
        assert(has_item_id(r, r.inventory[fc]));
        lemma_unequip_preserves(r, r.inventory[fc]);
        let rm = sp_unequip(r, r.inventory[fc]).0;
        let r1 = sp_equip(r, item_id).0;
        lemma_wf_same_ids(rm, r1);
    } else {
        let r1 = sp_equip(r, item_id).0;
        lemma_wf_same_ids(r, r1);
    }
}

/// A melee attack keeps the room well formed: only the defender's HP and
/// death flag change.
pub proof fn lemma_melee_preserves(r: RoomModel, a: int, d: int)
    requires
        room_wf(r),
        has_player(r),
        0 <= a < r.actors.len(),
        0 <= d < r.actors.len(),
    ensures
        ({
            let s = sp_melee(r, a, d).0;
            &&& room_wf(s)
            &&& has_player(s)
            &&& s == (RoomModel { actors: s.actors, ..r })
            &&& s.actors.len() == r.actors.len()
            &&& forall|j: int| 0 <= j < r.actors.len() && j != d ==> #[trigger] s.actors[j] == r.actors[j]
        }),
{
    lemma_wf_same_ids(r, sp_melee(r, a, d).0);
}

/// A walk attempt keeps the room well formed: positions may change, but
/// ids, flags and the inventory do not.
pub proof fn lemma_walk_preserves(r: RoomModel, idx: int, delta: TilePoint)
    requires
        room_wf(r),
        has_player(r),
        0 <= idx < r.actors.len(),
    ensures
        ({
            let s = sp_walk(r, idx, delta).0;
            &&& room_wf(s)
            &&& has_player(s)
            &&& s.actors.len() == r.actors.len()
            &&& s.items.len() == r.items.len()
            &&& s.inventory == r.inventory
            &&& s.grid == r.grid
            &&& s.size_x == r.size_x
            &&& s.size_y == r.size_y
            &&& s.next_id == r.next_id
            &&& s.player_index == r.player_index
        }),
{
    lemma_wf_same_ids(r, sp_walk(r, idx, delta).0);
}

/// Picking up a loose item keeps the room well formed: the item becomes
/// carried and its id, absent until now, joins the inventory.
pub proof fn lemma_get_item_preserves(r: RoomModel, item_id: u32)
    requires
        room_wf(r),
        has_player(r),
        has_item_id(r, item_id),
        !r.items[item_idx(r, item_id)].carried,
    ensures
        ({
            let s = sp_command(r, Command::GetItem { item_id }).0;
            &&& room_wf(s)
            &&& has_player(s)
            &&& s.actors == r.actors
            &&& !r.inventory.contains(item_id)
        }),
{
    let ii = item_idx(r, item_id);
    let s = sp_command(r, Command::GetItem { item_id }).0;
    if r.inventory.contains(item_id) {
        let k = choose|k: int| 0 <= k < r.inventory.len() && r.inventory[k] == item_id;
        assert(has_item_id(r, r.inventory[k]) && r.items[item_idx(r, r.inventory[k])].carried);
    }
    assert forall|id: u32| #[trigger] has_item_id(r, id) implies has_item_id(s, id) && item_idx(
        s,
        id,
    ) == item_idx(r, id) by {
        let i = item_idx(r, id);
        assert(0 <= i < r.items.len() && r.items[i].id == id);
        assert(s.items[i].id == id);
        lemma_item_idx_unique(s, id, i);
    }
    assert forall|k: int| 0 <= k < s.inventory.len() implies has_item_id(
        s,
        #[trigger] s.inventory[k],
    ) && s.items[item_idx(s, s.inventory[k])].carried by {
        if k < r.inventory.len() {
            assert(has_item_id(r, r.inventory[k]));
            assert(s.inventory[k] == r.inventory[k]);
        } else {
            assert(s.inventory[k] == item_id);
            lemma_item_idx_unique(s, item_id, ii);
        }
    }
    assert(room_wf(s));
}

/// Dropping a carried item keeps the room well formed: it is unequipped
/// first if necessary, becomes loose, and its one inventory entry is
/// removed while the remaining entries keep their acquisition order.
#[verifier::rlimit(100)]
pub proof fn lemma_drop_item_preserves(r: RoomModel, item_id: u32)
    requires
        room_wf(r),
        has_player(r),
        has_item_id(r, item_id),
        r.inventory.contains(item_id),
    ensures
        ({
            let s = sp_command(r, Command::DropItem { item_id }).0;
            &&& room_wf(s)
            &&& has_player(s)
            &&& s.actors.len() == r.actors.len()
            &&& forall|j: int|
                0 <= j < r.actors.len() && j != r.player_index ==> #[trigger] s.actors[j]
                    == r.actors[j]
            &&& !s.inventory.contains(item_id)
            &&& s.inventory == r.inventory.remove(inventory_pos(r.inventory, item_id))
        }),
{
    let s = sp_command(r, Command::DropItem { item_id }).0;
    let r1 = if r.items[item_idx(r, item_id)].equipped {
        sp_unequip(r, item_id).0
    } else {
        r
    };
    if r.items[item_idx(r, item_id)].equipped {
        lemma_unequip_preserves(r, item_id);
    }
    assert(room_wf(r1) && has_player(r1));
    assert(r1.inventory == r.inventory);
    assert(has_item_id(r1, item_id) && item_idx(r1, item_id) == item_idx(r, item_id));
    let ii = item_idx(r1, item_id);
    let p = inventory_pos(r1.inventory, item_id);
    assert(0 <= p < r1.inventory.len() && r1.inventory[p] == item_id);
    let inv1 = r1.inventory.remove(p);
    assert(s.inventory == inv1);
    r1.inventory.remove_ensures(p);
    // every surviving entry comes from one distinct old position other
    // than the removed one, which held the only occurrence of the id
    assert forall|k: int| 0 <= k < inv1.len() implies #[trigger] inv1[k] != item_id && (inv1[k]
        == r1.inventory[if k < p {
        k
    } else {
        k + 1
    }]) by {
        if k < p {
            assert(inv1[k] == r1.inventory[k]);
        } else {
            assert(inv1[k] == r1.inventory[k + 1]);
        }
    }
    assert forall|id: u32| #[trigger] has_item_id(r1, id) implies has_item_id(s, id) && item_idx(
        s,
        id,
    ) == item_idx(r1, id) by {
        let i = item_idx(r1, id);
        assert(0 <= i < r1.items.len() && r1.items[i].id == id);
        assert(s.items[i].id == id);
        lemma_item_idx_unique(s, id, i);
    }
    assert forall|k1: int, k2: int| 0 <= k1 < k2 < inv1.len() implies inv1[k1] != inv1[k2] by {
        let a1: int = if k1 < p {
            k1
        } else {
            k1 + 1
        };
        let a2: int = if k2 < p {
            k2
        } else {
            k2 + 1
        };
        assert(inv1[k1] == r1.inventory[a1]);
        assert(inv1[k2] == r1.inventory[a2]);
    }
    assert forall|k: int| 0 <= k < s.inventory.len() implies has_item_id(
        s,
        #[trigger] s.inventory[k],
    ) && s.items[item_idx(s, s.inventory[k])].carried by {
        let invid = inv1[k];
        assert(r1.inventory.contains(invid)) by {
            if k < p {
                assert(r1.inventory[k] == invid);
            } else {
                assert(r1.inventory[k + 1] == invid);
            }
        }
        let k0 = choose|k0: int| 0 <= k0 < r1.inventory.len() && r1.inventory[k0] == invid;
        assert(has_item_id(r1, r1.inventory[k0]) && r1.items[item_idx(
            r1,
            r1.inventory[k0],
        )].carried);
        assert(invid != item_id);
        assert(item_idx(s, invid) == item_idx(r1, invid));
        assert(r1.items[item_idx(r1, invid)].id == invid);
        assert(item_idx(r1, invid) != ii);
        assert(s.items[item_idx(s, invid)].carried);
    }
    assert(room_wf(s));
}

/// What one AI turn leaves untouched: the room stays well formed, the
/// items, inventory, grid and counters are unchanged, and the player keeps
/// its identity, position and stats (an attacking toad only lowers the
/// player's HP).
pub proof fn lemma_monster_turn_preserves(r: RoomModel, i: int)
    requires
        room_wf(r),
        has_player(r),
    ensures
        ({
            let s = sp_monster_turn(r, i).0;
            &&& room_wf(s)
            &&& has_player(s)
            &&& s.actors.len() == r.actors.len()
            &&& s.items == r.items
            &&& s.inventory == r.inventory
            &&& s.grid == r.grid
            &&& s.size_x == r.size_x
            &&& s.size_y == r.size_y
            &&& s.next_id == r.next_id
            &&& s.player_index == r.player_index
            &&& player_of(s).position == player_of(r).position
            &&& player_of(s).attack_power == player_of(r).attack_power
            &&& player_of(s).defense_power == player_of(r).defense_power
            &&& player_of(s).id == player_of(r).id
            &&& forall|j: int|
                0 <= j < r.actors.len() ==> (#[trigger] s.actors[j]).actor_type
                    == r.actors[j].actor_type && s.actors[j].id == r.actors[j].id
        }),
{
    let s = sp_monster_turn(r, i).0;
    if !(0 <= i < r.actors.len()) || r.actors[i].is_dead {
    } else {
        match r.actors[i].actor_type {
            ActorType::Player => {},
            ActorType::Toad => {
                assert(i != r.player_index);
                if manhattan(player_of(r).position, r.actors[i].position) == 1 {
                    lemma_wf_same_ids(r, s);
                } else {
                    lemma_wf_same_ids(r, s);
                }
            },
        }
    }
}

/// The frame of `lemma_monster_turn_preserves`, extended over the whole AI
/// sweep by induction.
pub proof fn lemma_sweep_preserves(r: RoomModel, n: int)
    requires
        room_wf(r),
        has_player(r),
    ensures
        ({
            let s = sp_sweep(r, n).0;
            &&& room_wf(s)
            &&& has_player(s)
            &&& s.actors.len() == r.actors.len()
            &&& s.items == r.items
            &&& s.inventory == r.inventory
            &&& s.grid == r.grid
            &&& s.size_x == r.size_x
            &&& s.size_y == r.size_y
            &&& s.next_id == r.next_id
            &&& s.player_index == r.player_index
            &&& player_of(s).position == player_of(r).position
            &&& player_of(s).attack_power == player_of(r).attack_power
            &&& player_of(s).defense_power == player_of(r).defense_power
            &&& player_of(s).id == player_of(r).id
            &&& forall|j: int|
                0 <= j < r.actors.len() ==> (#[trigger] s.actors[j]).actor_type
                    == r.actors[j].actor_type && s.actors[j].id == r.actors[j].id
        }),
    decreases n,
{
    if n <= 0 {
    } else {
        lemma_sweep_preserves(r, n - 1);
        lemma_monster_turn_preserves(sp_sweep(r, n - 1).0, n - 1);
    }
}

/// A non-negative result of the conflict search is a valid inventory
/// position holding a conflicting item.
pub proof fn lemma_first_conflict_in_range(r: RoomModel, slot: EquipSlot, k: int)
    requires
        0 <= k,
    ensures
        ({
            let fc = first_conflict_from(r, slot, k);
            fc >= 0 ==> k <= fc < r.inventory.len() && conflicts_at(r, slot, fc)
        }),
    decreases r.inventory.len() - k,
{
    if 0 <= k < r.inventory.len() && !conflicts_at(r, slot, k) {
        lemma_first_conflict_in_range(r, slot, k + 1);
    }
}

// ---------------------------------------------------------------------------
// Commands and the turn controller
// ---------------------------------------------------------------------------

/// What one command does to the room: the new room, the events it emits,
/// and whether it ends the turn (runs the AI sweep).
pub open spec fn sp_command(r: RoomModel, command: Command) -> (
    RoomModel,
    Seq<GameEvent>,
    bool,
) {
    match command {
        Command::Wait => (r, Seq::empty(), true),
        Command::Walk { delta } => {
            let stepped = sp_walk(r, r.player_index, delta);
            if stepped.1 {
                (stepped.0, Seq::empty(), true)
            } else {
                (r, seq![GameEvent::Bonk { actor_id: player_of(r).id }], false)
            }
        },
        Command::Fight { delta } => {
            let tx = player_of(r).position.x + delta.x;
            let ty = player_of(r).position.y + delta.y;
            let hits = actor_hits(r.actors, tx, ty, false);
            if hits.len() > 0 {
                let fought = sp_melee(r, r.player_index, hits[0] as int);
                (fought.0, fought.1, true)
            } else {
                (r, Seq::empty(), true)
            }
        },
        Command::GetItem { item_id } => {
            let ii = item_idx(r, item_id);
            let r1 = RoomModel {
                items: r.items.update(ii, Item { carried: true, ..r.items[ii] }),
                inventory: r.inventory.push(item_id),
                ..r
            };
            (r1, seq![GameEvent::GotItem { item_id }], true)
        },
        Command::DropItem { item_id } => {
            let ii = item_idx(r, item_id);
            let freed = if r.items[ii].equipped {
                let u = sp_unequip(r, item_id);
                (u.0, seq![u.1])
            } else {
                (r, Seq::<GameEvent>::empty())
            };
            let r1 = freed.0;
            let p = inventory_pos(r1.inventory, item_id);
            let r2 = RoomModel {
                items: r1.items.update(
                    item_idx(r1, item_id),
                    Item { carried: false, ..r1.items[item_idx(r1, item_id)] },
                ),
                inventory: r1.inventory.remove(p),
                ..r1
            };
            (r2, freed.1.push(GameEvent::DroppedItem { item_id }), true)
        },
        Command::ToggleEquipment { item_id } => {
            if r.items[item_idx(r, item_id)].equipped {
                let u = sp_unequip(r, item_id);
                (u.0, seq![u.1], true)
            } else {
                let e = sp_equip(r, item_id);
                (e.0, e.1, true)
            }
        },
    }
}

/// One full `execute_command` step: the command resolves first; if it ended
/// the turn, every actor takes its AI turn in creation order and the turn
/// counter advances by one. A failed walk is the only command that leaves
/// the world unchanged apart from its `Bonk` event.
pub open spec fn sp_execute(g: GameModel, command: Command) -> GameModel {
    let done = sp_command(g.room, command);
    if done.2 {
        let swept = sp_sweep(done.0, done.0.actors.len() as int);
        GameModel { turn: (g.turn + 1) as u32, room: swept.0, log: g.log + done.1 + swept.1 }
    } else {
        GameModel { turn: g.turn, room: done.0, log: g.log + done.1 }
    }
}

/// Validity of a command against the current room: the ids it names must
/// exist (passing an unknown id is a programming error, not a user-facing
/// condition), an item can only be picked up when loose and only be dropped
/// when in the inventory, and equipment changes need headroom in the
/// player's `i32` stats for the table's small bonuses.
pub open spec fn command_valid(r: RoomModel, command: Command) -> bool {
    match command {
        Command::Wait => true,
        Command::Walk { delta } => true,
        Command::Fight { delta } => true,
        Command::GetItem { item_id } => has_item_id(r, item_id) && !r.items[item_idx(
            r,
            item_id,
        )].carried,
        Command::DropItem { item_id } => has_item_id(r, item_id) && r.inventory.contains(item_id)
            && stat_headroom(r),
        Command::ToggleEquipment { item_id } => has_item_id(r, item_id) && stat_headroom(r),
    }
}

/// Room in the player's stats for adding or removing one content-table
/// bonus without leaving the `i32` range.
pub open spec fn stat_headroom(r: RoomModel) -> bool {
    let player = player_of(r);
    &&& i32::MIN + 2 <= player.attack_power as int <= i32::MAX - 2
    &&& i32::MIN + 2 <= player.defense_power as int <= i32::MAX - 2
}

} // verus!
