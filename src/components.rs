//! The data model: entity references, grid positions, bodies, genomes, brains
//! and the marker components that tag world objects.
use vstd::prelude::*;
use crate::num::{UNIT, LIMIT, is_round_sqrt, is_floor_sqrt, round_sqrt, isqrt};

verus! {

/// A generation-checked reference into the shared entity arena.
/// A reference to a despawned entity fails the liveness check instead of dangling.
#[derive(PartialEq, Eq, Structural, Clone, Copy, Debug, Hash)]
pub struct EntityId {
    pub index: u32,
    pub generation: u32,
}

/// The deterministic order used to break ties between entities: by index, then generation.
pub open spec fn id_le(a: EntityId, b: EntityId) -> bool {
    a.index < b.index || (a.index == b.index && a.generation <= b.generation)
}

impl EntityId {
    /// Whether `self` comes no later than `other` in the tie-break order.
    pub fn precedes(&self, other: &EntityId) -> (r: bool)
        ensures
            r == id_le(*self, *other),
    {
        self.index < other.index || (self.index == other.index && self.generation <= other.generation)
    }
}

#[derive(PartialEq, Eq, Structural, Clone, Copy, Debug, Hash, Default)]
pub enum GameState {
    #[default]
    MainMenu,
    Initializing,
    InGame,
    Paused,
}

#[derive(PartialEq, Eq, Structural, Clone, Copy, Debug, Hash, Default)]
pub enum MenuStates {
    #[default]
    Home,
    Tasks,
    Farm,
    Build,
    Zone,
}

impl MenuStates {
    /// The position of the menu page in the menu bar.
    pub fn to_index(&self) -> (r: usize)
        ensures
            r == match *self {
                MenuStates::Home => 0usize,
                MenuStates::Tasks => 1,
                MenuStates::Farm => 2,
                MenuStates::Build => 3,
                MenuStates::Zone => 4,
            },
    {
        match self {
            MenuStates::Home => 0,
            MenuStates::Tasks => 1,
            MenuStates::Farm => 2,
            MenuStates::Build => 3,
            MenuStates::Zone => 4,
        }
    }
}

#[derive(Clone, Copy, Debug, Default)]
pub struct MenuState {
    pub state: MenuStates,
}

/// An integer grid cell.
#[derive(PartialEq, Eq, Structural, Clone, Copy, Debug, Hash, Default)]
pub struct Position {
    pub x: i32,
    pub y: i32,
    pub z: i32,
}

/// Squared Euclidean distance between two cells.
pub open spec fn dist_sq(a: Position, b: Position) -> int {
    (a.x - b.x) * (a.x - b.x) + (a.y - b.y) * (a.y - b.y) + (a.z - b.z) * (a.z - b.z)
}

/// The grid distance: the Euclidean distance rounded to the nearest integer.
pub open spec fn grid_distance(a: Position, b: Position) -> int {
    choose|r: int| is_round_sqrt(dist_sq(a, b), r)
}

/// Two cells are adjacent (or equal) when their grid distance is at most one.
pub open spec fn adjacent(a: Position, b: Position) -> bool {
    grid_distance(a, b) <= 1
}

impl Position {
    /// The grid distance to `other`, shared by target sensing, adjacency and combat.
    pub fn distance(&self, other: &Self) -> (r: i64)
        ensures
            r == grid_distance(*self, *other),
            is_round_sqrt(dist_sq(*self, *other), r as int),
    {
        let dx = (self.x as i64 - other.x as i64);
        let dy = (self.y as i64 - other.y as i64);
        let dz = (self.z as i64 - other.z as i64);
        let ax = if dx < 0 { (-dx) as u128 } else { dx as u128 };
        let ay = if dy < 0 { (-dy) as u128 } else { dy as u128 };
        let az = if dz < 0 { (-dz) as u128 } else { dz as u128 };
        assert((ax as int) * (ax as int) == dx * dx) by (nonlinear_arith)
            requires ax as int == dx || ax as int == -dx;
        assert((ay as int) * (ay as int) == dy * dy) by (nonlinear_arith)
            requires ay as int == dy || ay as int == -dy;
        assert((az as int) * (az as int) == dz * dz) by (nonlinear_arith)
            requires az as int == dz || az as int == -dz;
        assert(ax * ax <= 0x1_0000_0000_0000_0000u128) by (nonlinear_arith)
            requires ax <= 0x1_0000_0000u128;
        assert(ay * ay <= 0x1_0000_0000_0000_0000u128) by (nonlinear_arith)
            requires ay <= 0x1_0000_0000u128;
        assert(az * az <= 0x1_0000_0000_0000_0000u128) by (nonlinear_arith)
            requires az <= 0x1_0000_0000u128;
        let n = ax * ax + ay * ay + az * az;
        assert(n == dist_sq(*self, *other)) by (nonlinear_arith)
            requires
                ax * ax == dx * dx,
                ay * ay == dy * dy,
                az * az == dz * dz,
                n == ax * ax + ay * ay + az * az,
                dx == self.x - other.x,
                dy == self.y - other.y,
                dz == self.z - other.z,
        ;
        let r = round_sqrt(n);
        proof {
            assert(r * r <= 4 * n) by (nonlinear_arith)
                requires
                    4 * n < (2 * r + 1) * (2 * r + 1),
                    r > 0 ==> (2 * r - 1) * (2 * r - 1) <= 4 * n,
                    r >= 0,
            ;
            assert(r < 0x1_0000_0000_0000u128) by (nonlinear_arith)
                requires
                    r * r <= 4 * n,
                    n <= 0x3_0000_0000_0000_0000u128,
            ;
            crate::num_proofs::lemma_round_sqrt_unique(
                dist_sq(*self, *other),
                r as int,
                grid_distance(*self, *other),
            );
        }
        r as i64
    }
}

#[derive(PartialEq, Eq, Structural, Clone, Copy, Debug)]
pub enum TileType {
    Grass,
    Dirt,
    Water,
    Wall,
    WallGame,
    Gravel,
    Void,
}

impl TileType {
    pub fn is_wall(&self) -> (r: bool)
        ensures
            r <==> (*self == TileType::Wall || *self == TileType::WallGame),
    {
        match self {
            TileType::Wall | TileType::WallGame => true,
            _ => false,
        }
    }

    /// Column and row of the tile's picture in the sprite sheet.
    pub fn get_texture_coords(&self) -> (r: (u32, u32))
        ensures
            r == match *self {
                TileType::Grass => (0u32, 0u32),
                TileType::Dirt => (1, 0),
                TileType::Water => (2, 0),
                TileType::Wall | TileType::WallGame => (3, 0),
                TileType::Gravel => (4, 0),
                TileType::Void => (0, 0),
            },
    {
        match self {
            TileType::Grass => (0, 0),
            TileType::Dirt => (1, 0),
            TileType::Water => (2, 0),
            TileType::Wall | TileType::WallGame => (3, 0),
            TileType::Gravel => (4, 0),
            TileType::Void => (0, 0),
        }
    }

    /// The physical constants of the terrain, in thousandths.
    pub fn material_properties(&self) -> (r: MaterialProperties)
        ensures
            r.wf(),
            r == tile_material(*self),
    {
        match self {
            TileType::Grass => MaterialProperties { mass: 1000, hardness: 100, toughness: 200, energy_density: 500, conductivity: 800 },
            TileType::Dirt => MaterialProperties { mass: 1500, hardness: 300, toughness: 500, energy_density: 100, conductivity: 400 },
            TileType::Water => MaterialProperties { mass: 1000, hardness: 0, toughness: 0, energy_density: 0, conductivity: 900 },
            TileType::Wall | TileType::WallGame => MaterialProperties { mass: 10000, hardness: 5000, toughness: 10000, energy_density: 0, conductivity: 100 },
            TileType::Gravel => MaterialProperties { mass: 1800, hardness: 800, toughness: 300, energy_density: 0, conductivity: 600 },
            TileType::Void => MaterialProperties { mass: 0, hardness: 0, toughness: 0, energy_density: 0, conductivity: 0 },
        }
    }
}

pub open spec fn tile_material(t: TileType) -> MaterialProperties {
    match t {
        TileType::Grass => MaterialProperties { mass: 1000, hardness: 100, toughness: 200, energy_density: 500, conductivity: 800 },
        TileType::Dirt => MaterialProperties { mass: 1500, hardness: 300, toughness: 500, energy_density: 100, conductivity: 400 },
        TileType::Water => MaterialProperties { mass: 1000, hardness: 0, toughness: 0, energy_density: 0, conductivity: 900 },
        TileType::Wall | TileType::WallGame => MaterialProperties { mass: 10000, hardness: 5000, toughness: 10000, energy_density: 0, conductivity: 100 },
        TileType::Gravel => MaterialProperties { mass: 1800, hardness: 800, toughness: 300, energy_density: 0, conductivity: 600 },
        TileType::Void => MaterialProperties { mass: 0, hardness: 0, toughness: 0, energy_density: 0, conductivity: 0 },
    }
}

/// Local environment of a tile, in thousandths.
#[derive(Clone, Copy, Debug, Default)]
pub struct EnvironmentalData {
    pub temperature: i64,
    pub humidity: i64,
    pub fertility: i64,
}

#[derive(PartialEq, Eq, Structural, Clone, Copy, Debug, Default)]
pub enum VisualizationMode {
    #[default]
    Normal,
    Temperature,
    Humidity,
    Fertility,
}

pub struct MapTile;

/// Physical constants of a world object, in thousandths.
#[derive(PartialEq, Eq, Structural, Clone, Copy, Debug, Default)]
pub struct MaterialProperties {
    pub mass: i64,
    pub hardness: i64,
    pub toughness: i64,
    pub energy_density: i64,
    pub conductivity: i64,
}

impl MaterialProperties {
    /// Every constant lies in `0 ..= LIMIT`.
    pub open spec fn wf(&self) -> bool {
        &&& 0 <= self.mass <= LIMIT
        &&& 0 <= self.hardness <= LIMIT
        &&& 0 <= self.toughness <= LIMIT
        &&& 0 <= self.energy_density <= LIMIT
        &&& 0 <= self.conductivity <= LIMIT
    }

    pub fn is_valid(&self) -> (r: bool)
        ensures
            r == self.wf(),
    {
        0 <= self.mass && self.mass <= LIMIT && 0 <= self.hardness && self.hardness <= LIMIT
            && 0 <= self.toughness && self.toughness <= LIMIT && 0 <= self.energy_density
            && self.energy_density <= LIMIT && 0 <= self.conductivity && self.conductivity <= LIMIT
    }
}

/// A primitive one-or-few-tick operation that tasks are compiled into.
#[derive(PartialEq, Eq, Structural, Clone, Copy, Debug)]
pub enum AtomicAction {
    Move(Position),
    /// Target and force magnitude (in thousandths).
    ApplyForce(EntityId, i64),
    /// Absorb energy from the target.
    Consume(EntityId),
    /// Attach two entities.
    Link(EntityId, EntityId),
    /// Perceive surroundings.
    Scan,
}

/// The heritable trait vector, each trait in thousandths.
#[derive(PartialEq, Eq, Structural, Clone, Copy, Debug, Default)]
pub struct Genome {
    pub size: i64,
    pub mobility: i64,
    pub sensory_range: i64,
    pub physical_strength: i64,
    pub metabolic_efficiency: i64,
    /// 0 is photosynthetic, `UNIT` is carnivorous.
    pub diet_type: i64,
    pub thermal_tolerance: i64,
    pub aggression: i64,
    pub sociality: i64,
    pub mutation_rate: i64,
    pub weight_hunger: i64,
    pub weight_fatigue: i64,
    pub weight_social: i64,
}

pub const SIZE_MIN: i64 = 100;
pub const SIZE_MAX: i64 = 5000;
pub const MOBILITY_MIN: i64 = 100;
pub const MOBILITY_MAX: i64 = 5000;
pub const SENSORY_MIN: i64 = 1000;
pub const SENSORY_MAX: i64 = 50000;
pub const STRENGTH_MIN: i64 = 100;
pub const STRENGTH_MAX: i64 = 5000;
pub const METABOLISM_MIN: i64 = 100;
pub const METABOLISM_MAX: i64 = 950;
pub const THERMAL_MIN: i64 = 0;
pub const THERMAL_MAX: i64 = 50000;
pub const FRACTION_MIN: i64 = 0;
pub const FRACTION_MAX: i64 = 1000;
pub const MUTATION_MIN: i64 = 10;
pub const MUTATION_MAX: i64 = 200;
pub const WEIGHT_MIN: i64 = 0;
pub const WEIGHT_MAX: i64 = 2500;

impl Genome {
    /// Every trait lies in its documented range:
    /// size, mobility and strength in 0.1..=5, sensory range in 1..=50,
    /// thermal tolerance in 0..=50, metabolic efficiency in 0.1..=0.95, diet,
    /// aggression and sociality in 0..=1, mutation rate in 0.01..=0.2, motivation weights in 0..=2.5.
    pub open spec fn wf(&self) -> bool {
        &&& SIZE_MIN <= self.size <= SIZE_MAX
        &&& MOBILITY_MIN <= self.mobility <= MOBILITY_MAX
        &&& SENSORY_MIN <= self.sensory_range <= SENSORY_MAX
        &&& STRENGTH_MIN <= self.physical_strength <= STRENGTH_MAX
        &&& METABOLISM_MIN <= self.metabolic_efficiency <= METABOLISM_MAX
        &&& FRACTION_MIN <= self.diet_type <= FRACTION_MAX
        &&& THERMAL_MIN <= self.thermal_tolerance <= THERMAL_MAX
        &&& FRACTION_MIN <= self.aggression <= FRACTION_MAX
        &&& FRACTION_MIN <= self.sociality <= FRACTION_MAX
        &&& MUTATION_MIN <= self.mutation_rate <= MUTATION_MAX
        &&& WEIGHT_MIN <= self.weight_hunger <= WEIGHT_MAX
        &&& WEIGHT_MIN <= self.weight_fatigue <= WEIGHT_MAX
        &&& WEIGHT_MIN <= self.weight_social <= WEIGHT_MAX
    }

    /// Whether every trait lies in its range.
    pub fn is_valid(&self) -> (r: bool)
        ensures
            r == self.wf(),
    {
        SIZE_MIN <= self.size && self.size <= SIZE_MAX
            && MOBILITY_MIN <= self.mobility && self.mobility <= MOBILITY_MAX
            && SENSORY_MIN <= self.sensory_range && self.sensory_range <= SENSORY_MAX
            && STRENGTH_MIN <= self.physical_strength && self.physical_strength <= STRENGTH_MAX
            && METABOLISM_MIN <= self.metabolic_efficiency && self.metabolic_efficiency <= METABOLISM_MAX
            && FRACTION_MIN <= self.diet_type && self.diet_type <= FRACTION_MAX
            && THERMAL_MIN <= self.thermal_tolerance && self.thermal_tolerance <= THERMAL_MAX
            && FRACTION_MIN <= self.aggression && self.aggression <= FRACTION_MAX
            && FRACTION_MIN <= self.sociality && self.sociality <= FRACTION_MAX
            && MUTATION_MIN <= self.mutation_rate && self.mutation_rate <= MUTATION_MAX
            && WEIGHT_MIN <= self.weight_hunger && self.weight_hunger <= WEIGHT_MAX
            && WEIGHT_MIN <= self.weight_fatigue && self.weight_fatigue <= WEIGHT_MAX
            && WEIGHT_MIN <= self.weight_social && self.weight_social <= WEIGHT_MAX
    }

    /// Squared genetic distance in millionths: the weighted differences of
    /// size, mobility (raised to the fourth power), metabolic efficiency, diet,
    /// thermal tolerance, strength, aggression and the hunger and fatigue weights.
    pub open spec fn distance_sq_spec(&self, o: &Genome) -> int {
        let sq = |a: i64, b: i64| (a - b) * (a - b);
        sq(self.size, o.size)
            + sq(self.mobility, o.mobility) * sq(self.mobility, o.mobility) / 1_000_000
            + sq(self.metabolic_efficiency, o.metabolic_efficiency)
            + sq(self.diet_type, o.diet_type)
            + sq(self.thermal_tolerance, o.thermal_tolerance)
            + sq(self.physical_strength, o.physical_strength)
            + sq(self.aggression, o.aggression)
            + sq(self.weight_hunger, o.weight_hunger)
            + sq(self.weight_fatigue, o.weight_fatigue)
    }

    /// The Euclidean genetic distance, in thousandths, rounded down.
    pub fn genetic_distance(&self, other: &Genome) -> (r: i64)
        requires
            self.wf(),
            other.wf(),
        ensures
            is_floor_sqrt(self.distance_sq_spec(other), r as int),
    {
        let ds = self.size - other.size;
        let dm = self.mobility - other.mobility;
        let de = self.metabolic_efficiency - other.metabolic_efficiency;
        let dd = self.diet_type - other.diet_type;
        let dt = self.thermal_tolerance - other.thermal_tolerance;
        let dp = self.physical_strength - other.physical_strength;
        let da = self.aggression - other.aggression;
        let dh = self.weight_hunger - other.weight_hunger;
        let df = self.weight_fatigue - other.weight_fatigue;
        assert(0 <= dm * dm <= 25_000_000) by (nonlinear_arith)
            requires -5000 <= dm <= 5000;
        let m2 = dm * dm;
        assert(0 <= m2 * m2 <= 625_000_000_000_000) by (nonlinear_arith)
            requires 0 <= m2 <= 25_000_000;
        assert(ds * ds <= 25_000_000) by (nonlinear_arith) requires -5000 <= ds <= 5000;
        assert(de * de <= 1_000_000) by (nonlinear_arith) requires -1000 <= de <= 1000;
        assert(dd * dd <= 1_000_000) by (nonlinear_arith) requires -1000 <= dd <= 1000;
        assert(dt * dt <= 2_500_000_000) by (nonlinear_arith) requires -50000 <= dt <= 50000;
        assert(dp * dp <= 25_000_000) by (nonlinear_arith) requires -5000 <= dp <= 5000;
        assert(da * da <= 1_000_000) by (nonlinear_arith) requires -1000 <= da <= 1000;
        assert(dh * dh <= 6_250_000) by (nonlinear_arith) requires -2500 <= dh <= 2500;
        assert(df * df <= 6_250_000) by (nonlinear_arith) requires -2500 <= df <= 2500;
        assert(de * de >= 0 && dd * dd >= 0 && dt * dt >= 0 && dp * dp >= 0 && da * da >= 0
            && dh * dh >= 0 && df * df >= 0 && ds * ds >= 0) by (nonlinear_arith);
        let d = ds * ds + m2 * m2 / 1_000_000 + de * de + dd * dd + dt * dt + dp * dp + da * da
            + dh * dh + df * df;
        let r = isqrt(d as u128);
        proof {
            assert(r * r <= d) by (nonlinear_arith)
                requires r * r <= d;
            assert(r <= d) by (nonlinear_arith)
                requires r * r <= d, r >= 0;
        }
        r as i64
    }
}

#[derive(PartialEq, Eq, Structural, Clone, Copy, Debug, Default)]
pub struct Generation {
    pub value: u32,
}

/// When an agent last reproduced (in whole seconds) and the energy it needs to again.
#[derive(PartialEq, Eq, Structural, Clone, Copy, Debug, Default)]
pub struct ReproductionStatus {
    pub energy_threshold: i64,
    pub last_reproduction_tick: u64,
}

/// A decaying resource, in thousandths.
#[derive(PartialEq, Eq, Structural, Clone, Copy, Debug, Default)]
pub struct Need {
    pub current: i64,
    pub max: i64,
    pub rate: i64,
    pub low: i64,
    pub normal: i64,
    pub high: i64,
}

impl Need {
    /// `0 <= current <= max <= LIMIT` and `0 <= rate <= LIMIT`.
    pub open spec fn wf(&self) -> bool {
        &&& 0 <= self.current <= self.max <= LIMIT
        &&& 0 <= self.rate <= LIMIT
    }

    pub fn is_valid(&self) -> (r: bool)
        ensures
            r == self.wf(),
    {
        0 <= self.current && self.current <= self.max && self.max <= LIMIT && 0 <= self.rate && self.rate <= LIMIT
    }
}

fn need_ok(n: &Option<Need>) -> (r: bool)
    ensures
        r == need_wf(*n),
{
    match n {
        Some(n) => n.is_valid(),
        None => true,
    }
}

#[derive(PartialEq, Eq, Structural, Clone, Copy, Debug, Default)]
pub enum AfflictionLocation {
    #[default]
    Head, LeftArm, RightArm, LeftLeg, RightLeg, Torso, Bladder, Intestines, Genitals, Heart,
    Lungs, Brain, Stomach, Liver, Spleen, Kidneys,
}

#[derive(PartialEq, Eq, Structural, Clone, Copy, Debug, Default)]
pub enum AfflictionType {
    #[default]
    Pain, Inflammation, Disease, Wound, BrokenBone, Cut, Frostbite, Infection,
}

#[derive(PartialEq, Eq, Structural, Clone, Copy, Debug, Default)]
pub struct Affliction {
    pub location: AfflictionLocation,
    pub affliction_type: AfflictionType,
    pub duration: u32,
    pub severity: u32,
    pub worsening: bool,
}

#[derive(PartialEq, Eq, Structural, Clone, Copy, Debug, Default)]
pub struct Skill {
    pub experience: i32,
    pub exp_lost: i32,
}

impl Skill {
    /// The skill level: the square root of the experience, rounded down
    /// (no experience, or a negative amount, is level 0).
    pub fn level(&self) -> (r: i32)
        ensures
            self.experience <= 0 ==> r == 0,
            self.experience > 0 ==> is_floor_sqrt(self.experience as int, r as int),
    {
        if self.experience <= 0 {
            0
        } else {
            let r = isqrt(self.experience as u128);
            proof {
                assert(r <= self.experience) by (nonlinear_arith)
                    requires r * r <= self.experience, r >= 0;
            }
            r as i32
        }
    }
}

#[derive(PartialEq, Eq, Structural, Clone, Copy, Debug, Default)]
pub struct Skillset {
    pub animal_raising: Skill,
    pub brawling: Skill,
    pub construction: Skill,
    pub cooking: Skill,
    pub crafting: Skill,
    pub doctoring: Skill,
    pub farming: Skill,
    pub fishing: Skill,
    pub foraging: Skill,
    pub hunting: Skill,
    pub mining: Skill,
    pub social: Skill,
    pub woodcutting: Skill,
}

#[derive(PartialEq, Eq, Structural, Clone, Copy, Debug, Default)]
pub struct Attributeset {
    pub strength: i32,
    pub dexterity: i32,
    pub constitution: i32,
    pub intelligence: i32,
    pub wisdom: i32,
    pub charisma: i32,
}

#[derive(PartialEq, Eq, Structural, Clone, Copy, Debug)]
pub enum DangerType {
    Fire,
    Predator,
    Enemy,
    NaturalDisaster,
    Attacked,
}

/// A transient threat marker that enables retaliation.
#[derive(PartialEq, Eq, Structural, Clone, Copy, Debug)]
pub struct Danger {
    pub danger_type: DangerType,
    pub danger_source: Option<EntityId>,
}

/// Energy, health (both in thousandths), needs and abilities of a living thing.
#[derive(Clone, Debug, Default)]
pub struct PhysicalBody {
    pub energy_storage: i64,
    pub energy_max: i64,
    pub health: i64,
    pub needs_food: Option<Need>,
    pub needs_sleep: Option<Need>,
    pub needs_entertainment: Option<Need>,
    pub danger: Option<Danger>,
    pub injured: bool,
    pub afflictions: Vec<Affliction>,
    pub skillset: Skillset,
    pub attributes: Attributeset,
}

pub open spec fn need_wf(n: Option<Need>) -> bool {
    match n {
        Some(n) => n.wf(),
        None => true,
    }
}

impl PhysicalBody {
    /// Energy lies in `0 ..= energy_max <= LIMIT` and every need is well formed.
    pub open spec fn wf(&self) -> bool {
        &&& 0 <= self.energy_storage <= self.energy_max <= LIMIT
        &&& need_wf(self.needs_food)
        &&& need_wf(self.needs_sleep)
        &&& need_wf(self.needs_entertainment)
    }

    /// Whether the body is well formed.
    pub fn is_valid(&self) -> (r: bool)
        ensures
            r == self.wf(),
    {
        0 <= self.energy_storage && self.energy_storage <= self.energy_max && self.energy_max <= LIMIT
            && need_ok(&self.needs_food) && need_ok(&self.needs_sleep) && need_ok(&self.needs_entertainment)
    }
}

#[derive(PartialEq, Eq, Structural, Clone, Copy, Debug)]
pub enum Memory {
    Seen(EntityId, Position),
}

#[derive(PartialEq, Eq, Structural, Clone, Copy, Debug)]
pub enum PersonalityType {
    Human,
    Vicious,
    Ordinary,
    Territorial,
}

#[derive(PartialEq, Eq, Structural, Clone, Copy, Debug, Hash)]
pub enum PersonalityTrait {
    Human,
    Vicious,
    Ordinary,
    Territorial,
    Creature,
}

/// A mid-level goal derived from a motivation.
#[derive(PartialEq, Eq, Structural, Clone, Copy, Debug, Default)]
pub enum Task {
    #[default]
    Idle,
    Crisis, Flee, Fight, Eat, Hospital, Sleep, Sleeping, Play, Order, Work, Personality, Meander,
    Doctor, Forage, Plant, Harvest, Mine, Chop, Construct, Hunt, Milk, Cook, Fish, Craft, Clean,
    Pickup, Carrying,
}

impl Task {
    /// Tasks whose work sites are designated zones.
    pub fn is_zone_task(&self) -> (r: bool)
        ensures
            r <==> (*self == Task::Plant || *self == Task::Construct || *self == Task::Carrying),
    {
        match self {
            Task::Plant | Task::Construct | Task::Carrying => true,
            _ => false,
        }
    }

    /// The task that carries this one out; every task is currently its own single step.
    pub fn get_steps(&self) -> (r: Self)
        ensures
            r == *self,
    {
        *self
    }
}

/// The agent's currently dominant drive.
#[derive(PartialEq, Eq, Structural, Clone, Copy, Debug)]
pub enum Motivation {
    Crisis, Rage, Order, Danger, Hunger, Thirst, Tired, Injured, Sick, Bored, Happy, Sad, Angry,
    Lonely, Love, Fear, Hate, Work, Personality, Meander, Idle, Eat, Hospital, Sleep, Play,
}

/// The agent's decision state.
#[derive(Clone, Debug, Default)]
pub struct Brain {
    pub task: Option<Task>,
    pub task_queue: Vec<Task>,
    pub action: Option<AtomicAction>,
    pub action_queue: Vec<AtomicAction>,
    pub personality: Vec<PersonalityTrait>,
    pub memory: Vec<Memory>,
    pub motivation: Option<Motivation>,
}

/// A movement request handed to the pathing collaborator.
#[derive(Clone, Debug, Default)]
pub struct Pathing {
    pub path: Vec<Position>,
    pub destination: Position,
    pub moving_target: bool,
    pub unreachable: bool,
}

/// A claim on a world entity as the object of a task: the one it was made for.
/// Once the agent's task is another, the claim is a leftover.
#[derive(PartialEq, Eq, Structural, Clone, Copy, Debug)]
pub struct Targeting {
    pub target: EntityId,
    pub task: Task,
}

#[derive(PartialEq, Eq, Structural, Clone, Copy, Debug)]
pub enum ForageType {
    Once,
    Repeat,
}

#[derive(PartialEq, Eq, Structural, Clone, Copy, Debug)]
pub enum ActorType {
    Man, Woman, Elf, Dwarf, Spider, Rat, Cyclops, Monster, Crab,
}

impl ActorType {
    /// Index of the actor's picture in a sprite sheet 64 pictures wide.
    pub fn sprite_index(&self) -> (r: usize)
        ensures
            r == match *self {
                ActorType::Man => 31usize,
                ActorType::Woman => 95usize,
                ActorType::Elf => 159usize,
                ActorType::Dwarf => 223usize,
                ActorType::Spider => 348usize,
                ActorType::Rat => 412usize,
                ActorType::Cyclops => 476usize,
                ActorType::Monster => 540usize,
                ActorType::Crab => 604usize,
            },
    {
        match self {
            ActorType::Man => 31,
            ActorType::Woman => 31 + 64,
            ActorType::Elf => 31 + 2 * 64,
            ActorType::Dwarf => 31 + 3 * 64,
            ActorType::Spider => 28 + 5 * 64,
            ActorType::Rat => 28 + 6 * 64,
            ActorType::Cyclops => 28 + 7 * 64,
            ActorType::Monster => 28 + 8 * 64,
            ActorType::Crab => 28 + 9 * 64,
        }
    }
}

#[derive(PartialEq, Eq, Structural, Clone, Copy, Debug, Default)]
pub enum SelectableType {
    #[default]
    Nothing, Carryable, Choppable, Constructable, Foragable, Harvestable, Huntable, Mineable,
    Unselecting, Unzoning, Zoning, Farm, Build, Tasks,
}

pub struct WorkTarget;

/// Foreground and background colours as packed RGBA.
pub struct Renderable {
    pub fg: u32,
    pub bg: u32,
}

#[derive(Default)]
pub struct Bed;

#[derive(Debug)]
pub struct Player {}

pub struct Foragable;

pub struct Choppable;

pub struct Harvestable;

pub struct Mineable;

/// A designated work area.
#[derive(PartialEq, Eq, Structural, Clone, Copy, Debug)]
pub struct Zone {
    pub zone_type: ZoneType,
}

#[derive(PartialEq, Eq, Structural, Clone, Copy, Debug, Default)]
pub enum ZoneType {
    #[default]
    Farm,
    Storage,
    Construction,
    Avoid,
}

pub struct Inventory {
    pub items: Vec<EntityId>,
}

pub struct Highlighted;

pub struct Selected;

pub struct WorkMarker;

#[derive(Clone, Copy, Debug, Default)]
pub struct Nest {
    pub position: Position,
}

pub struct Attackable;

pub struct Name {
    pub name: String,
}

pub struct StatusDisplay {
    pub text: String,
}

pub struct HasName {
    pub name: String,
}

pub struct ClickedOn;

pub struct GiveMeAName;

pub struct Logs;

/// A one-shot event: `attacker` struck the entity that carries it.
#[derive(PartialEq, Eq, Structural, Clone, Copy, Debug)]
pub struct Attacked {
    pub attacker: EntityId,
}

#[derive(Default)]
pub struct Dying;

pub struct GeneratedBy {
    pub entity: EntityId,
}

pub struct MoveRandom;

pub struct MoveTowardsNearestAttackable;

pub struct Carryable;

pub struct InGameButton;

pub struct PauseOverlay;

pub struct MainMenuOverlay;

pub struct TextName;

pub struct IsName;

#[derive(Default)]
pub struct HasNameShown;

pub struct SetNest;

#[derive(PartialEq, Eq, Structural, Clone, Copy, Debug)]
pub enum StrikeType {
    Hit,
    Miss,
}

impl StrikeType {
    pub fn sprite_index(&self) -> (r: usize)
        ensures
            r == match *self {
                StrikeType::Hit => 0usize,
                StrikeType::Miss => 1,
            },
    {
        match self {
            StrikeType::Hit => 0,
            StrikeType::Miss => 1,
        }
    }
}

} // verus!
