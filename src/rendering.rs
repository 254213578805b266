//! Geometry shared with the presentation layer: grid cells to world
//! coordinates and back, and asset lookup by name. World coordinates are in
//! thousandths of a world unit.
use vstd::prelude::*;
use crate::num::LIMIT;
use crate::components::Position;

verus! {

/// Side of one grid cell in world units, in thousandths.
pub const TILE_SIZE: i64 = 32_000;
/// World depth between two layers (0.1), in thousandths.
pub const LAYER_DEPTH: i64 = 100;

/// A point in world space, in thousandths of a world unit.
#[derive(PartialEq, Eq, Structural, Clone, Copy, Debug, Default)]
pub struct Translation {
    pub x: i64,
    pub y: i64,
    pub z: i64,
}

impl Position {
    /// Where the cell is drawn: x and y scaled by the tile size, the layer as depth.
    pub fn to_transform(&self) -> (r: Translation)
        ensures
            r == (Translation { x: (self.x * TILE_SIZE) as i64, y: (self.y * TILE_SIZE) as i64, z: (self.z * LAYER_DEPTH) as i64 }),
    {
        Translation { x: self.x as i64 * TILE_SIZE, y: self.y as i64 * TILE_SIZE, z: self.z as i64 * LAYER_DEPTH }
    }
}

/// Where a cell given by its coordinates is placed, every axis scaled by the tile size.
pub fn position_to_translation(x: i32, y: i32, z: i32) -> (r: Translation)
    ensures
        r == (Translation { x: (x * TILE_SIZE) as i64, y: (y * TILE_SIZE) as i64, z: (z * TILE_SIZE) as i64 }),
{
    Translation { x: x as i64 * TILE_SIZE, y: y as i64 * TILE_SIZE, z: z as i64 * TILE_SIZE }
}

/// `w / TILE_SIZE` rounded to the nearest integer, halves away from zero.
pub open spec fn tile_of(w: int) -> int {
    if w >= 0 {
        (w + TILE_SIZE / 2) / TILE_SIZE as int
    } else {
        -((-w + TILE_SIZE / 2) / TILE_SIZE as int)
    }
}

fn tile_coordinate(w: i64) -> (r: i32)
    requires
        -LIMIT <= w <= LIMIT,
    ensures
        r == tile_of(w as int),
{
    if w >= 0 {
        ((w + TILE_SIZE / 2) / TILE_SIZE) as i32
    } else {
        (-((-w + TILE_SIZE / 2) / TILE_SIZE)) as i32
    }
}

/// The cell under a point of the ground plane: each coordinate divided by the
/// tile size and rounded to the nearest cell, on layer 0.
pub fn mouse_to_position(world_x: i64, world_y: i64) -> (r: Position)
    requires
        -LIMIT <= world_x <= LIMIT,
        -LIMIT <= world_y <= LIMIT,
    ensures
        r == (Position { x: tile_of(world_x as int) as i32, y: tile_of(world_y as int) as i32, z: 0 }),
{
    Position { x: tile_coordinate(world_x), y: tile_coordinate(world_y), z: 0 }
}

/// Records the cell under the cursor, when the cursor is over the world.
pub fn mouse_move_system(cursor: Option<(i64, i64)>, mouse_position: &mut Option<Position>)
    requires
        cursor matches Some(c) ==> -LIMIT <= c.0 <= LIMIT && -LIMIT <= c.1 <= LIMIT,
    ensures
        match cursor {
            Some(c) => *final(mouse_position)
                == Some(Position { x: tile_of(c.0 as int) as i32, y: tile_of(c.1 as int) as i32, z: 0 }),
            None => *final(mouse_position) == *old(mouse_position),
        },
{
    match cursor {
        Some((x, y)) => {
            *mouse_position = Some(mouse_to_position(x, y));
        },
        None => {},
    }
}

/// A texture and the atlas layout that cuts it into pictures, by asset id.
#[derive(PartialEq, Eq, Structural, Clone, Copy, Debug, Default)]
pub struct SpriteSheet {
    pub handle: u64,
    pub layout: u64,
}

/// A sprite sheet from its texture and layout.
#[allow(non_snake_case)]
pub fn SpriteSheet(handle: u64, layout: u64) -> (r: SpriteSheet)
    ensures
        r == (SpriteSheet { handle, layout }),
{
    SpriteSheet { handle, layout }
}

/// Named meshes and materials, by asset id, with the fallbacks used for unknown names.
pub struct UniversalMeshAssets {
    pub meshes: Vec<(String, u64)>,
    pub materials: Vec<(String, u64)>,
    pub cube: u64,
    pub sphere: u64,
    pub plane: u64,
    pub capsule: u64,
    pub cylinder: u64,
    pub material_white: u64,
    pub material_red: u64,
    pub material_green: u64,
    pub material_blue: u64,
    pub material_brown: u64,
}

/// The asset registered under `name` first, or `fallback` when there is none.
pub open spec fn lookup(entries: Seq<(String, u64)>, name: Seq<char>, fallback: u64) -> u64
    decreases entries.len(),
{
    if entries.len() == 0 {
        fallback
    } else if entries[0].0@ == name {
        entries[0].1
    } else {
        lookup(entries.drop_first(), name, fallback)
    }
}

fn find_named(entries: &Vec<(String, u64)>, name: &String, fallback: u64) -> (r: u64)
    ensures
        r == lookup(entries@, name@, fallback),
{
    let mut i: usize = 0;
    assert(entries@.skip(0) =~= entries@);
    while i < entries.len()
        invariant
            i <= entries@.len(),
            lookup(entries@, name@, fallback) == lookup(entries@.skip(i as int), name@, fallback),
        decreases entries@.len() - i,
    {
        assert(entries@.skip(i as int).drop_first() =~= entries@.skip(i as int + 1));
        if entries[i].0 == *name {
            return entries[i].1;
        }
        i += 1;
    }
    assert(entries@.skip(i as int).len() == 0);
    fallback
}

impl UniversalMeshAssets {
    /// The mesh registered under `name`, or the cube.
    pub fn get_mesh(&self, name: &String) -> (r: u64)
        ensures
            r == lookup(self.meshes@, name@, self.cube),
    {
        find_named(&self.meshes, name, self.cube)
    }

    /// The material registered under `name`, or plain white.
    pub fn get_material(&self, name: &String) -> (r: u64)
        ensures
            r == lookup(self.materials@, name@, self.material_white),
    {
        find_named(&self.materials, name, self.material_white)
    }
}

} // verus!
