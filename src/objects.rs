//! Inanimate world objects and the materials they are made of.
use vstd::prelude::*;
use crate::components::MaterialProperties;

verus! {

#[derive(PartialEq, Eq, Structural, Clone, Copy, Debug)]
pub enum ItemType {
    Log,
    Stone,
    Wall,
    Statue,
    Tree,
    Bush,
    Weed,
    Food,
    Berry,
}

/// The physical constants of each kind of item, in thousandths.
pub open spec fn item_material(t: ItemType) -> MaterialProperties {
    match t {
        ItemType::Log => MaterialProperties { hardness: 2000, toughness: 5000, energy_density: 30000, mass: 15000, conductivity: 200 },
        ItemType::Stone | ItemType::Statue => MaterialProperties { hardness: 8000, toughness: 20000, energy_density: 0, mass: 100000, conductivity: 100 },
        ItemType::Wall => MaterialProperties { hardness: 6000, toughness: 15000, energy_density: 0, mass: 50000, conductivity: 100 },
        ItemType::Tree => MaterialProperties { hardness: 3000, toughness: 10000, energy_density: 20000, mass: 200000, conductivity: 200 },
        ItemType::Bush | ItemType::Berry | ItemType::Food => MaterialProperties { hardness: 100, toughness: 100, energy_density: 50000, mass: 500, conductivity: 900 },
        ItemType::Weed => MaterialProperties { hardness: 10, toughness: 10, energy_density: 5000, mass: 100, conductivity: 950 },
    }
}

impl ItemType {
    pub fn material_properties(&self) -> (r: MaterialProperties)
        ensures
            r == item_material(*self),
            r.wf(),
    {
        match self {
            ItemType::Log => MaterialProperties { hardness: 2000, toughness: 5000, energy_density: 30000, mass: 15000, conductivity: 200 },
            ItemType::Stone | ItemType::Statue => MaterialProperties { hardness: 8000, toughness: 20000, energy_density: 0, mass: 100000, conductivity: 100 },
            ItemType::Wall => MaterialProperties { hardness: 6000, toughness: 15000, energy_density: 0, mass: 50000, conductivity: 100 },
            ItemType::Tree => MaterialProperties { hardness: 3000, toughness: 10000, energy_density: 20000, mass: 200000, conductivity: 200 },
            ItemType::Bush | ItemType::Berry | ItemType::Food => MaterialProperties { hardness: 100, toughness: 100, energy_density: 50000, mass: 500, conductivity: 900 },
            ItemType::Weed => MaterialProperties { hardness: 10, toughness: 10, energy_density: 5000, mass: 100, conductivity: 950 },
        }
    }

    /// Index of the item's picture in a sprite sheet 64 pictures wide.
    pub fn sprite_index(&self) -> (r: usize)
        ensures
            r == match *self {
                ItemType::Log => 6046usize,
                ItemType::Stone => 3272usize,
                ItemType::Wall => 416usize,
                ItemType::Statue => 1235usize,
                ItemType::Tree => 1294usize,
                ItemType::Bush | ItemType::Berry | ItemType::Weed => 4345usize,
                ItemType::Food => 6047usize,
            },
    {
        match self {
            ItemType::Log => 94 * 64 + 30,
            ItemType::Stone => 51 * 64 + 8,
            ItemType::Wall => 6 * 64 + 32,
            ItemType::Statue => 19 * 64 + 19,
            ItemType::Tree => 20 * 64 + 14,
            ItemType::Bush => 67 * 64 + 57,
            ItemType::Berry => 67 * 64 + 57,
            ItemType::Weed => 67 * 64 + 57,
            ItemType::Food => 94 * 64 + 31,
        }
    }

    /// Walls, statues and trees block movement.
    pub fn passable(&self) -> (r: bool)
        ensures
            r == !(*self == ItemType::Wall || *self == ItemType::Statue || *self == ItemType::Tree),
    {
        match self {
            ItemType::Wall | ItemType::Statue | ItemType::Tree => false,
            _ => true,
        }
    }
}

/// A placed object: what it is, what can still be taken from it, and whether it is being built.
pub struct Object {
    pub itemtype: ItemType,
    pub remaining_resources: Vec<(ItemType, u8)>,
    pub under_construction: bool,
}

impl Default for Object {
    /// A finished wall with nothing to take from it.
    fn default() -> (r: Object)
        ensures
            r.itemtype == ItemType::Wall,
            r.remaining_resources@.len() == 0,
            !r.under_construction,
    {
        Object { itemtype: ItemType::Wall, remaining_resources: Vec::new(), under_construction: false }
    }
}

impl Object {
    pub fn passable(&self) -> (r: bool)
        ensures
            r == !(self.itemtype == ItemType::Wall || self.itemtype == ItemType::Statue || self.itemtype == ItemType::Tree),
    {
        self.itemtype.passable()
    }
}

/// What an object turns into when it is used up.
pub struct ItemReplacements {
    pub replacements: Vec<ItemType>,
}

} // verus!
