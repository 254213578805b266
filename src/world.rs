//! Small world systems: work markers, nests, spoilage, random wandering,
//! monster generators and the pause/layer keys.
use vstd::prelude::*;
use crate::num::{UNIT, LIMIT};
use crate::objects::ItemType;
use crate::components::{EntityId, Position, TileType, Nest, GameState, GeneratedBy};
use crate::templates::TemplateKind;
use crate::random::{chance, pick_between};
use rand::rngs::StdRng;

verus! {

/// A work marker and the entity it is attached to.
#[derive(PartialEq, Eq, Structural, Clone, Copy, Debug)]
pub struct MarkerLink {
    pub marker: EntityId,
    pub parent: EntityId,
}

/// The work markers attached to `target`, in order: the ones to despawn with it.
pub fn remove_x_markers(markers: &Vec<MarkerLink>, target: EntityId) -> (r: Vec<EntityId>)
    ensures
        r@ == markers@.filter(|m: MarkerLink| m.parent == target).map_values(|m: MarkerLink| m.marker),
{
    let mut r: Vec<EntityId> = Vec::new();
    let mut i: usize = 0;
    while i < markers.len()
        invariant
            i <= markers@.len(),
            r@ == markers@.take(i as int).filter(|m: MarkerLink| m.parent == target)
                .map_values(|m: MarkerLink| m.marker),
        decreases markers@.len() - i,
    {
        proof {
            assert(markers@.take(i as int + 1).drop_last() =~= markers@.take(i as int));
            reveal(Seq::filter);
        }
        if markers[i].parent == target {
            r.push(markers[i].marker);
        }
        assert(r@ =~= markers@.take(i as int + 1).filter(|m: MarkerLink| m.parent == target)
            .map_values(|m: MarkerLink| m.marker));
        i += 1;
    }
    assert(markers@.take(markers@.len() as int) =~= markers@);
    r
}

/// An entity asked to settle (`set_nest`) and without a nest gets one where it
/// stands, and the request is dropped. Others are left unchanged.
pub fn nest_system(position: &Position, nest: &mut Option<Nest>, set_nest: &mut bool)
    ensures
        if *old(set_nest) && old(nest).is_none() {
            &&& *final(nest) == Some(Nest { position: *position })
            &&& !*final(set_nest)
        } else {
            &&& *final(nest) == *old(nest)
            &&& *final(set_nest) == *old(set_nest)
        },
{
    if *set_nest && nest.is_none() {
        *nest = Some(Nest { position: *position });
        *set_nest = false;
    }
}

/// Lowest display layer.
pub const LAYER_MIN: i32 = -3;
/// Highest display layer.
pub const LAYER_MAX: i32 = 2;

pub open spec fn clamp_layer(z: int) -> int {
    if z < LAYER_MIN { LAYER_MIN as int } else if z > LAYER_MAX { LAYER_MAX as int } else { z }
}

pub open spec fn toggled(s: GameState) -> GameState {
    match s {
        GameState::MainMenu => GameState::InGame,
        GameState::InGame => GameState::Paused,
        GameState::Paused => GameState::InGame,
        GameState::Initializing => GameState::Initializing,
    }
}

/// The game-state and display-layer effect of the keys pressed this frame: the
/// pause key starts the game from the menu and toggles pause; the raise and lower
/// keys move the displayed layer by one, kept within `-3 ..= 2`.
pub fn keyboard_input(state: GameState, pause: bool, raise: bool, lower: bool, layer: i32) -> (r: (GameState, i32))
    ensures
        r.0 == if pause { toggled(state) } else { state },
        r.1 == {
            let up = if raise { clamp_layer(layer + 1) } else { layer as int };
            if lower { clamp_layer(up - 1) } else { up }
        },
{
    let next = if pause {
        match state {
            GameState::MainMenu => GameState::InGame,
            GameState::InGame => GameState::Paused,
            GameState::Paused => GameState::InGame,
            GameState::Initializing => GameState::Initializing,
        }
    } else {
        state
    };
    let mut z = layer as i64;
    if raise {
        z = z + 1;
        z = if z < LAYER_MIN as i64 { LAYER_MIN as i64 } else if z > LAYER_MAX as i64 { LAYER_MAX as i64 } else { z };
    }
    if lower {
        z = z - 1;
        z = if z < LAYER_MIN as i64 { LAYER_MIN as i64 } else if z > LAYER_MAX as i64 { LAYER_MAX as i64 } else { z };
    }
    (next, z as i32)
}

/// Perishable food, in thousandths.
#[derive(PartialEq, Eq, Structural, Clone, Copy, Debug, Default)]
pub struct Food {
    pub spoilage: i64,
    pub spoilage_rate: i64,
}

impl Food {
    pub open spec fn wf(&self) -> bool {
        0 <= self.spoilage <= LIMIT && 0 <= self.spoilage_rate <= LIMIT
    }
}

/// One spoilage tick: the freshness drops by the rate; food whose freshness falls
/// below 0 is spoiled and must be despawned.
pub fn spoilage_system(food: &mut Food) -> (spoiled: bool)
    requires
        old(food).wf(),
    ensures
        final(food).spoilage == old(food).spoilage - old(food).spoilage_rate,
        final(food).spoilage_rate == old(food).spoilage_rate,
        spoiled == (final(food).spoilage < 0),
        !spoiled ==> final(food).wf(),
{
    food.spoilage = food.spoilage - food.spoilage_rate;
    food.spoilage < 0
}

/// One of the four cells beside `p` on the same layer: up, down, left or right.
pub open spec fn neighbour(p: Position, dir: int) -> Position {
    if dir == 0 {
        Position { y: (p.y + 1) as i32, ..p }
    } else if dir == 1 {
        Position { y: (p.y - 1) as i32, ..p }
    } else if dir == 2 {
        Position { x: (p.x - 1) as i32, ..p }
    } else {
        Position { x: (p.x + 1) as i32, ..p }
    }
}

pub open spec fn inner(p: Position) -> bool {
    i32::MIN < p.x < i32::MAX && i32::MIN < p.y < i32::MAX
}

fn neighbour_exec(p: &Position, dir: i64) -> (r: Position)
    requires
        inner(*p),
    ensures
        r == neighbour(*p, dir as int),
{
    if dir == 0 {
        Position { y: p.y + 1, ..*p }
    } else if dir == 1 {
        Position { y: p.y - 1, ..*p }
    } else if dir == 2 {
        Position { x: p.x - 1, ..*p }
    } else {
        Position { x: p.x + 1, ..*p }
    }
}

/// Some tile at `p` is not a wall.
pub open spec fn walkable(tiles: Seq<(Position, TileType)>, p: Position) -> bool {
    exists|k: int| 0 <= k < tiles.len() && (#[trigger] tiles[k]).0 == p
        && tiles[k].1 != TileType::Wall && tiles[k].1 != TileType::WallGame
}

fn is_walkable(tiles: &Vec<(Position, TileType)>, p: Position) -> (r: bool)
    ensures
        r == walkable(tiles@, p),
{
    let mut i: usize = 0;
    while i < tiles.len()
        invariant
            i <= tiles@.len(),
            forall|k: int| 0 <= k < i ==> !((#[trigger] tiles@[k]).0 == p
                && tiles@[k].1 != TileType::Wall && tiles@[k].1 != TileType::WallGame),
        decreases tiles@.len() - i,
    {
        let (q, t) = tiles[i];
        if q == p && !t.is_wall() {
            return true;
        }
        i += 1;
    }
    false
}

/// The entities standing where there is no tile, or only a wall: the ones to despawn.
pub fn remove_bad_positions(entities: &Vec<(EntityId, Position)>, tiles: &Vec<(Position, TileType)>) -> (r: Vec<EntityId>)
    ensures
        r@ == entities@.filter(|e: (EntityId, Position)| !walkable(tiles@, e.1))
            .map_values(|e: (EntityId, Position)| e.0),
{
    let mut r: Vec<EntityId> = Vec::new();
    let mut i: usize = 0;
    while i < entities.len()
        invariant
            i <= entities@.len(),
            r@ == entities@.take(i as int).filter(|e: (EntityId, Position)| !walkable(tiles@, e.1))
                .map_values(|e: (EntityId, Position)| e.0),
        decreases entities@.len() - i,
    {
        proof {
            assert(entities@.take(i as int + 1).drop_last() =~= entities@.take(i as int));
            reveal(Seq::filter);
        }
        let (e, p) = entities[i];
        if !is_walkable(tiles, p) {
            r.push(e);
        }
        assert(r@ =~= entities@.take(i as int + 1).filter(|e: (EntityId, Position)| !walkable(tiles@, e.1))
            .map_values(|e: (EntityId, Position)| e.0));
        i += 1;
    }
    assert(entities@.take(entities@.len() as int) =~= entities@);
    r
}

/// A wandering creature steps to a random one of its four neighbours, if that
/// cell is a tile that is not a wall; otherwise it stays.
pub fn movement_random(pos: &mut Position, tiles: &Vec<(Position, TileType)>, rng: &mut StdRng)
    requires
        inner(*old(pos)),
    ensures
        *final(pos) == *old(pos)
            || exists|dir: int| 0 <= dir < 4 && *final(pos) == #[trigger] neighbour(*old(pos), dir)
                && walkable(tiles@, *final(pos)),
{
    let dir = pick_between(rng, 0, 3);
    let next = neighbour_exec(pos, dir);
    if is_walkable(tiles, next) {
        *pos = next;
    }
}

/// A spawner of monsters, each with a weight.
pub struct MonsterGenerator {
    pub monsters: Vec<(TemplateKind, u32)>,
}

impl MonsterGenerator {
    /// The template a generator spawns: its first entry.
    pub fn pick(&self) -> (r: TemplateKind)
        requires
            self.monsters@.len() > 0,
        ensures
            r == self.monsters@[0].0,
    {
        self.monsters[0].0
    }
}

/// Whether some monster was made by generator `g`.
pub open spec fn has_offspring(generated: Seq<GeneratedBy>, g: EntityId) -> bool {
    exists|k: int| 0 <= k < generated.len() && (#[trigger] generated[k]).entity == g
}

fn has_generated(generated: &Vec<GeneratedBy>, g: EntityId) -> (r: bool)
    ensures
        r == has_offspring(generated@, g),
{
    let mut i: usize = 0;
    while i < generated.len()
        invariant
            i <= generated@.len(),
            forall|k: int| 0 <= k < i ==> (#[trigger] generated@[k]).entity != g,
        decreases generated@.len() - i,
    {
        if generated[i].entity == g {
            return true;
        }
        i += 1;
    }
    false
}

/// One tick of a monster generator: with a chance of one in a hundred it tries a
/// random neighbouring cell; a monster of the generator's template is spawned
/// there (returned with its cell) when the ground tile of that cell is not a wall
/// and the generator has no living offspring yet.
pub fn monster_generator_system(
    id: EntityId,
    position: &Position,
    generator: &MonsterGenerator,
    tiles: &Vec<(Position, TileType)>,
    generated: &Vec<GeneratedBy>,
    rng: &mut StdRng,
) -> (r: Option<(Position, TemplateKind)>)
    requires
        inner(*position),
        generator.monsters@.len() > 0,
    ensures
        r matches Some(spawn) ==> {
            &&& spawn.1 == generator.monsters@[0].0
            &&& !has_offspring(generated@, id)
            &&& exists|dir: int| 0 <= dir < 4 && spawn.0 == #[trigger] neighbour(*position, dir)
            &&& walkable(tiles@, Position { z: 0, ..spawn.0 })
        },
        has_offspring(generated@, id) ==> r is None,
{
    if !chance(rng, 1, 100) {
        return None;
    }
    let dir = pick_between(rng, 0, 3);
    let next = neighbour_exec(position, dir);
    let ground = Position { z: 0, ..next };
    if !is_walkable(tiles, ground) || has_generated(generated, id) {
        return None;
    }
    Some((next, generator.pick()))
}

/// A growing plant: growth in thousandths, full grown at one.
#[derive(PartialEq, Eq, Structural, Clone, Copy, Debug)]
pub struct Plant {
    pub growth: i64,
    pub plant_type: ItemType,
}

/// Growth per season tick (0.05).
pub const GROWTH_STEP: i64 = 50;
/// Growth from which a plant can be harvested (0.5).
pub const HARVEST_GROWTH: i64 = 500;

/// One season tick: a plant that is not full grown grows by 0.05. Returns whether
/// it grew and has reached harvestable size, so that the world can mark it.
pub fn seasons_system(plant: &mut Plant) -> (ripe: bool)
    requires
        old(plant).growth <= LIMIT,
    ensures
        final(plant).plant_type == old(plant).plant_type,
        old(plant).growth < UNIT ==> final(plant).growth == old(plant).growth + GROWTH_STEP,
        old(plant).growth >= UNIT ==> final(plant).growth == old(plant).growth,
        ripe == (old(plant).growth < UNIT && final(plant).growth >= HARVEST_GROWTH),
{
    if plant.growth < UNIT {
        plant.growth = plant.growth + GROWTH_STEP;
        plant.growth >= HARVEST_GROWTH
    } else {
        false
    }
}

/// A short-lived visual, such as a strike mark, with its remaining time in milliseconds.
#[derive(PartialEq, Eq, Structural, Clone, Copy, Debug, Default)]
pub struct TemporaryVisualElement {
    pub duration: i64,
}

/// Counts an element's remaining time down by the frame time; returns whether it
/// has run out and must be despawned.
pub fn temporary_visual_elements_system(element: &mut TemporaryVisualElement, delta_millis: i64) -> (expired: bool)
    requires
        -LIMIT <= old(element).duration <= LIMIT,
        0 <= delta_millis <= LIMIT,
    ensures
        final(element).duration == old(element).duration - delta_millis,
        expired == (final(element).duration <= 0),
{
    element.duration = element.duration - delta_millis;
    element.duration <= 0
}

} // verus!
