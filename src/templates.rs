//! Spawn templates for the kinds of creature, and spawning an agent from one.
use vstd::prelude::*;
use crate::num::UNIT;
use crate::components::{
    EntityId, Position, Need, Genome, PhysicalBody, Brain, Generation, ReproductionStatus,
    ActorType, PersonalityTrait, Skill, Skillset, Attributeset, Affliction, AfflictionLocation,
    AfflictionType,
};
use crate::agent::Agent;
use crate::combat::clamp;
use crate::random::{chance, pick_between};
use rand::rngs::StdRng;

verus! {

/// The creature kinds that templates exist for.
#[derive(PartialEq, Eq, Structural, Clone, Copy, Debug)]
pub enum TemplateKind {
    Human,
    Elf,
    Dwarf,
    Rat,
    Spider,
    Crab,
    Cyclops,
}

/// A need as a template gives it: each value is drawn within `variance` of the
/// one given (all in thousandths).
#[derive(PartialEq, Eq, Structural, Clone, Copy, Debug)]
pub struct NeedExample {
    pub current: i64,
    pub max: i64,
    pub rate: i64,
    pub low: i64,
    pub normal: i64,
    pub high: i64,
    pub variance: i64,
}

/// Bound on the values and variance of a need example.
pub const EXAMPLE_LIMIT: i64 = 500_000_000_000;

impl NeedExample {
    pub open spec fn wf(&self) -> bool {
        &&& 0 <= self.variance <= EXAMPLE_LIMIT
        &&& -EXAMPLE_LIMIT <= self.current <= EXAMPLE_LIMIT
        &&& -EXAMPLE_LIMIT <= self.max <= EXAMPLE_LIMIT
        &&& -EXAMPLE_LIMIT <= self.rate <= EXAMPLE_LIMIT
        &&& -EXAMPLE_LIMIT <= self.low <= EXAMPLE_LIMIT
        &&& -EXAMPLE_LIMIT <= self.normal <= EXAMPLE_LIMIT
        &&& -EXAMPLE_LIMIT <= self.high <= EXAMPLE_LIMIT
    }
}

/// `r` is `v` moved by at most `var`.
pub open spec fn near(v: int, r: int, var: int) -> bool {
    v - var <= r <= v + var
}

/// How a need is drawn from its example: every value within the variance of the
/// example's, with the maximum and the rate kept non-negative and the current
/// value kept within `0 ..= max`.
pub open spec fn drawn_from(e: NeedExample, n: Need) -> bool {
    &&& exists|m: int| near(e.max as int, m, e.variance as int) && n.max == (if m < 0 { 0 } else { m })
    &&& exists|c: int| near(e.current as int, c, e.variance as int) && n.current == #[trigger] clamp(c, 0, n.max as int)
    &&& exists|r: int| near(e.rate as int, r, e.variance as int) && n.rate == (if r < 0 { 0 } else { r })
    &&& near(e.low as int, n.low as int, e.variance as int)
    &&& near(e.normal as int, n.normal as int, e.variance as int)
    &&& near(e.high as int, n.high as int, e.variance as int)
    &&& n.wf()
}

impl Need {
    /// Draws a need from a template's example.
    pub fn from_example(example: &NeedExample, rng: &mut StdRng) -> (r: Need)
        requires
            example.wf(),
        ensures
            drawn_from(*example, r),
    {
        let v = example.variance;
        let m = example.max + pick_between(rng, -v, v);
        let max = if m < 0 { 0 } else { m };
        let c = example.current + pick_between(rng, -v, v);
        let current = if c < 0 { 0 } else if c > max { max } else { c };
        assert(current == clamp(c as int, 0, max as int));
        let rt = example.rate + pick_between(rng, -v, v);
        let rate = if rt < 0 { 0 } else { rt };
        let low = example.low + pick_between(rng, -v, v);
        let normal = example.normal + pick_between(rng, -v, v);
        let high = example.high + pick_between(rng, -v, v);
        let r = Need { current, max, rate, low, normal, high };
        assert(near(example.max as int, m as int, v as int) && r.max == (if m < 0 { 0 } else { m as int }));
        assert(near(example.current as int, c as int, v as int) && r.current == clamp(c as int, 0, r.max as int));
        assert(near(example.rate as int, rt as int, v as int) && r.rate == (if rt < 0 { 0 } else { rt as int }));
        r
    }
}

/// Something a template adds to a spawned creature beyond its agent record.
#[derive(Clone, Debug)]
pub enum SpawnExtra {
    /// Ask the naming system for a generated name.
    GiveMeAName,
    /// A fixed display name.
    HasName(String),
    /// Settle a nest where it spawns.
    SetNest,
}

/// Everything needed to spawn a creature of one kind.
#[derive(Clone, Debug)]
pub struct UnitTemplate {
    pub actor_type: ActorType,
    pub genome: Option<Genome>,
    pub food_need: Option<NeedExample>,
    pub entertainment_need: Option<NeedExample>,
    pub sleep_need: Option<NeedExample>,
    pub personality: Vec<PersonalityTrait>,
    pub skillset: Skillset,
    pub attributes: Attributeset,
    pub afflictions: Vec<Affliction>,
    pub extras: Vec<SpawnExtra>,
}

/// The genome each kind is spawned with.
pub open spec fn kind_genome(k: TemplateKind) -> Genome {
    match k {
        TemplateKind::Human => Genome { size: 1000, mobility: 1000, sensory_range: 15000, physical_strength: 1000,
            metabolic_efficiency: 800, diet_type: 500, thermal_tolerance: 15000, aggression: 200, sociality: 800,
            mutation_rate: 50, weight_hunger: 1000, weight_fatigue: 1000, weight_social: 1000 },
        TemplateKind::Elf => Genome { size: 900, mobility: 1200, sensory_range: 20000, physical_strength: 1000,
            metabolic_efficiency: 700, diet_type: 300, thermal_tolerance: 15000, aggression: 100, sociality: 600,
            mutation_rate: 50, weight_hunger: 800, weight_fatigue: 1200, weight_social: 1500 },
        TemplateKind::Dwarf => Genome { size: 800, mobility: 800, sensory_range: 12000, physical_strength: 1500,
            metabolic_efficiency: 900, diet_type: 600, thermal_tolerance: 20000, aggression: 400, sociality: 900,
            mutation_rate: 50, weight_hunger: 1500, weight_fatigue: 800, weight_social: 500 },
        TemplateKind::Rat => Genome { size: 300, mobility: 1500, sensory_range: 8000, physical_strength: 500,
            metabolic_efficiency: 500, diet_type: 800, thermal_tolerance: 10000, aggression: 100, sociality: 400,
            mutation_rate: 100, weight_hunger: 2000, weight_fatigue: 1000, weight_social: 100 },
        TemplateKind::Spider => Genome { size: 500, mobility: 1800, sensory_range: 6000, physical_strength: 800,
            metabolic_efficiency: 400, diet_type: 1000, thermal_tolerance: 15000, aggression: 600, sociality: 100,
            mutation_rate: 100, weight_hunger: 1800, weight_fatigue: 500, weight_social: 0 },
        TemplateKind::Crab => Genome { size: 400, mobility: 700, sensory_range: 10000, physical_strength: 1200,
            metabolic_efficiency: 900, diet_type: 400, thermal_tolerance: 5000, aggression: 100, sociality: 200,
            mutation_rate: 50, weight_hunger: 500, weight_fatigue: 1500, weight_social: 100 },
        TemplateKind::Cyclops => Genome { size: 2500, mobility: 600, sensory_range: 15000, physical_strength: 5000,
            metabolic_efficiency: 600, diet_type: 900, thermal_tolerance: 25000, aggression: 900, sociality: 100,
            mutation_rate: 20, weight_hunger: 2500, weight_fatigue: 500, weight_social: 0 },
    }
}

/// The genome a kind is spawned with.
pub fn genome_for(kind: TemplateKind) -> (g: Genome)
    ensures
        g == kind_genome(kind),
        g.wf(),
{
    match kind {
        TemplateKind::Human => Genome { size: 1000, mobility: 1000, sensory_range: 15000, physical_strength: 1000,
            metabolic_efficiency: 800, diet_type: 500, thermal_tolerance: 15000, aggression: 200, sociality: 800,
            mutation_rate: 50, weight_hunger: 1000, weight_fatigue: 1000, weight_social: 1000 },
        TemplateKind::Elf => Genome { size: 900, mobility: 1200, sensory_range: 20000, physical_strength: 1000,
            metabolic_efficiency: 700, diet_type: 300, thermal_tolerance: 15000, aggression: 100, sociality: 600,
            mutation_rate: 50, weight_hunger: 800, weight_fatigue: 1200, weight_social: 1500 },
        TemplateKind::Dwarf => Genome { size: 800, mobility: 800, sensory_range: 12000, physical_strength: 1500,
            metabolic_efficiency: 900, diet_type: 600, thermal_tolerance: 20000, aggression: 400, sociality: 900,
            mutation_rate: 50, weight_hunger: 1500, weight_fatigue: 800, weight_social: 500 },
        TemplateKind::Rat => Genome { size: 300, mobility: 1500, sensory_range: 8000, physical_strength: 500,
            metabolic_efficiency: 500, diet_type: 800, thermal_tolerance: 10000, aggression: 100, sociality: 400,
            mutation_rate: 100, weight_hunger: 2000, weight_fatigue: 1000, weight_social: 100 },
        TemplateKind::Spider => Genome { size: 500, mobility: 1800, sensory_range: 6000, physical_strength: 800,
            metabolic_efficiency: 400, diet_type: 1000, thermal_tolerance: 15000, aggression: 600, sociality: 100,
            mutation_rate: 100, weight_hunger: 1800, weight_fatigue: 500, weight_social: 0 },
        TemplateKind::Crab => Genome { size: 400, mobility: 700, sensory_range: 10000, physical_strength: 1200,
            metabolic_efficiency: 900, diet_type: 400, thermal_tolerance: 5000, aggression: 100, sociality: 200,
            mutation_rate: 50, weight_hunger: 500, weight_fatigue: 1500, weight_social: 100 },
        TemplateKind::Cyclops => Genome { size: 2500, mobility: 600, sensory_range: 15000, physical_strength: 5000,
            metabolic_efficiency: 600, diet_type: 900, thermal_tolerance: 25000, aggression: 900, sociality: 100,
            mutation_rate: 20, weight_hunger: 2500, weight_fatigue: 500, weight_social: 0 },
    }
}

/// The need example humanoids start with: 90 of 100, falling by 0.1 a tick,
/// low at 10, normal at 25, high at 80, varying by 5.
pub open spec fn humanoid_need() -> NeedExample {
    NeedExample { current: 90_000, max: 100_000, rate: 100, low: 10_000, normal: 25_000, high: 80_000, variance: 5_000 }
}

fn humanoid_need_exec() -> (r: NeedExample)
    ensures
        r == humanoid_need(),
{
    NeedExample { current: 90_000, max: 100_000, rate: 100, low: 10_000, normal: 25_000, high: 80_000, variance: 5_000 }
}

/// Every skill at `experience`.
fn flat_skillset(experience: i32) -> (r: Skillset)
    ensures
        r.animal_raising.experience == experience && r.brawling.experience == experience
            && r.construction.experience == experience && r.cooking.experience == experience
            && r.woodcutting.experience == experience,
{
    let s = Skill { experience, exp_lost: 0 };
    Skillset {
        animal_raising: s, brawling: s, construction: s, cooking: s, crafting: s, doctoring: s,
        farming: s, fishing: s, foraging: s, hunting: s, mining: s, social: s, woodcutting: s,
    }
}

pub open spec fn flat_attributes(v: i32) -> Attributeset {
    Attributeset { strength: v, dexterity: v, constitution: v, intelligence: v, wisdom: v, charisma: v }
}

impl UnitTemplate {
    /// A humanoid's skills: construction and brawling between 500 and 699,
    /// animal raising between 300 and 399, every other skill at 100.
    pub fn random_skillset_humanoid(rng: &mut StdRng) -> (r: Skillset)
        ensures
            500 <= r.construction.experience < 700,
            500 <= r.brawling.experience < 700,
            300 <= r.animal_raising.experience < 400,
            r.cooking == (Skill { experience: 100, exp_lost: 0 }),
            r.crafting == (Skill { experience: 100, exp_lost: 0 }),
            r.doctoring == (Skill { experience: 100, exp_lost: 0 }),
            r.farming == (Skill { experience: 100, exp_lost: 0 }),
            r.fishing == (Skill { experience: 100, exp_lost: 0 }),
            r.foraging == (Skill { experience: 100, exp_lost: 0 }),
            r.hunting == (Skill { experience: 100, exp_lost: 0 }),
            r.mining == (Skill { experience: 100, exp_lost: 0 }),
            r.social == (Skill { experience: 100, exp_lost: 0 }),
            r.woodcutting == (Skill { experience: 100, exp_lost: 0 }),
            r.construction.exp_lost == 0 && r.brawling.exp_lost == 0 && r.animal_raising.exp_lost == 0,
    {
        let construction = pick_between(rng, 500, 699) as i32;
        let brawling = pick_between(rng, 500, 699) as i32;
        let animal_raising = pick_between(rng, 300, 399) as i32;
        let base = Skill { experience: 100, exp_lost: 0 };
        Skillset {
            animal_raising: Skill { experience: animal_raising, exp_lost: 0 },
            brawling: Skill { experience: brawling, exp_lost: 0 },
            construction: Skill { experience: construction, exp_lost: 0 },
            cooking: base, crafting: base, doctoring: base, farming: base, fishing: base,
            foraging: base, hunting: base, mining: base, social: base, woodcutting: base,
        }
    }

    /// A humanoid's attributes: 3 everywhere but charisma, which is 4.
    pub fn random_attributeset_humanoid() -> (r: Attributeset)
        ensures
            r == (Attributeset { charisma: 4, ..flat_attributes(3) }),
    {
        Attributeset { strength: 3, dexterity: 3, constitution: 3, intelligence: 3, wisdom: 3, charisma: 4 }
    }

    /// With a chance of three in ten, a humanoid starts with a mild headache.
    pub fn random_afflictions_humanoid(rng: &mut StdRng) -> (r: Vec<Affliction>)
        ensures
            r@.len() == 0 || r@ == seq![Affliction {
                location: AfflictionLocation::Head,
                affliction_type: AfflictionType::Pain,
                duration: 0,
                severity: 1,
                worsening: false,
            }],
    {
        let mut r: Vec<Affliction> = Vec::new();
        if chance(rng, 3, 10) {
            r.push(Affliction {
                location: AfflictionLocation::Head,
                affliction_type: AfflictionType::Pain,
                duration: 0,
                severity: 1,
                worsening: false,
            });
            assert(r@ =~= seq![Affliction {
                location: AfflictionLocation::Head,
                affliction_type: AfflictionType::Pain,
                duration: 0,
                severity: 1,
                worsening: false,
            }]);
        }
        r
    }

    fn humanoid(kind: TemplateKind, actor_type: ActorType, rng: &mut StdRng) -> (r: UnitTemplate)
        ensures
            r.wf(),
            r.actor_type == actor_type,
            r.genome == Some(kind_genome(kind)),
            r.food_need == Some(humanoid_need()),
            r.entertainment_need == Some(humanoid_need()),
            r.sleep_need == Some(humanoid_need()),
            r.personality@ == seq![PersonalityTrait::Human],
            r.attributes == (Attributeset { charisma: 4, ..flat_attributes(3) }),
    {
        let mut personality: Vec<PersonalityTrait> = Vec::new();
        personality.push(PersonalityTrait::Human);
        assert(personality@ =~= seq![PersonalityTrait::Human]);
        let mut extras: Vec<SpawnExtra> = Vec::new();
        extras.push(SpawnExtra::GiveMeAName);
        UnitTemplate {
            actor_type,
            genome: Some(genome_for(kind)),
            food_need: Some(humanoid_need_exec()),
            entertainment_need: Some(humanoid_need_exec()),
            sleep_need: Some(humanoid_need_exec()),
            personality,
            skillset: Self::random_skillset_humanoid(rng),
            attributes: Self::random_attributeset_humanoid(),
            afflictions: Self::random_afflictions_humanoid(rng),
            extras,
        }
    }

    fn creature(kind: TemplateKind, actor_type: ActorType, traits: Vec<PersonalityTrait>, name: String, nests: bool) -> (r: UnitTemplate)
        ensures
            r.wf(),
            r.actor_type == actor_type,
            r.genome == Some(kind_genome(kind)),
            r.food_need is None && r.entertainment_need is None && r.sleep_need is None,
            r.personality@ == traits@,
            r.afflictions@.len() == 0,
            r.attributes == flat_attributes(0),
    {
        let mut extras: Vec<SpawnExtra> = Vec::new();
        extras.push(SpawnExtra::HasName(name));
        if nests {
            extras.push(SpawnExtra::SetNest);
        }
        UnitTemplate {
            actor_type,
            genome: Some(genome_for(kind)),
            food_need: None,
            entertainment_need: None,
            sleep_need: None,
            personality: traits,
            skillset: flat_skillset(0),
            attributes: Attributeset { strength: 0, dexterity: 0, constitution: 0, intelligence: 0, wisdom: 0, charisma: 0 },
            afflictions: Vec::new(),
            extras,
        }
    }

    /// A man: a humanoid with the human genome.
    pub fn human(rng: &mut StdRng) -> (r: UnitTemplate)
        ensures
            r.wf(),
            r.actor_type == ActorType::Man,
            r.genome == Some(kind_genome(TemplateKind::Human)),
            r.food_need == Some(humanoid_need()),
            r.personality@ == seq![PersonalityTrait::Human],
    {
        Self::humanoid(TemplateKind::Human, ActorType::Man, rng)
    }

    pub fn elf(rng: &mut StdRng) -> (r: UnitTemplate)
        ensures
            r.wf(),
            r.actor_type == ActorType::Elf,
            r.genome == Some(kind_genome(TemplateKind::Elf)),
            r.food_need == Some(humanoid_need()),
            r.personality@ == seq![PersonalityTrait::Human],
    {
        Self::humanoid(TemplateKind::Elf, ActorType::Elf, rng)
    }

    pub fn dwarf(rng: &mut StdRng) -> (r: UnitTemplate)
        ensures
            r.wf(),
            r.actor_type == ActorType::Dwarf,
            r.genome == Some(kind_genome(TemplateKind::Dwarf)),
            r.food_need == Some(humanoid_need()),
            r.personality@ == seq![PersonalityTrait::Human],
    {
        Self::humanoid(TemplateKind::Dwarf, ActorType::Dwarf, rng)
    }

    /// A rat: a territorial creature that settles a nest.
    pub fn rat() -> (r: UnitTemplate)
        ensures
            r.wf(),
            r.actor_type == ActorType::Rat,
            r.genome == Some(kind_genome(TemplateKind::Rat)),
            r.food_need is None,
            r.personality@ == seq![PersonalityTrait::Creature, PersonalityTrait::Territorial],
    {
        let mut t: Vec<PersonalityTrait> = Vec::new();
        t.push(PersonalityTrait::Creature);
        t.push(PersonalityTrait::Territorial);
        assert(t@ =~= seq![PersonalityTrait::Creature, PersonalityTrait::Territorial]);
        Self::creature(TemplateKind::Rat, ActorType::Rat, t, String::from_str("Rat"), true)
    }

    /// A spider: a territorial creature that settles a nest.
    pub fn spider() -> (r: UnitTemplate)
        ensures
            r.wf(),
            r.actor_type == ActorType::Spider,
            r.genome == Some(kind_genome(TemplateKind::Spider)),
            r.food_need is None,
            r.personality@ == seq![PersonalityTrait::Creature, PersonalityTrait::Territorial],
    {
        let mut t: Vec<PersonalityTrait> = Vec::new();
        t.push(PersonalityTrait::Creature);
        t.push(PersonalityTrait::Territorial);
        assert(t@ =~= seq![PersonalityTrait::Creature, PersonalityTrait::Territorial]);
        Self::creature(TemplateKind::Spider, ActorType::Spider, t, String::from_str("Spider"), true)
    }

    pub fn crab() -> (r: UnitTemplate)
        ensures
            r.wf(),
            r.actor_type == ActorType::Crab,
            r.genome == Some(kind_genome(TemplateKind::Crab)),
            r.food_need is None,
            r.personality@ == seq![PersonalityTrait::Creature],
    {
        let mut t: Vec<PersonalityTrait> = Vec::new();
        t.push(PersonalityTrait::Creature);
        assert(t@ =~= seq![PersonalityTrait::Creature]);
        Self::creature(TemplateKind::Crab, ActorType::Crab, t, String::from_str("Crab"), false)
    }

    pub fn cyclops() -> (r: UnitTemplate)
        ensures
            r.wf(),
            r.actor_type == ActorType::Cyclops,
            r.genome == Some(kind_genome(TemplateKind::Cyclops)),
            r.food_need is None,
            r.personality@ == seq![PersonalityTrait::Creature, PersonalityTrait::Vicious],
    {
        let mut t: Vec<PersonalityTrait> = Vec::new();
        t.push(PersonalityTrait::Creature);
        t.push(PersonalityTrait::Vicious);
        assert(t@ =~= seq![PersonalityTrait::Creature, PersonalityTrait::Vicious]);
        Self::creature(TemplateKind::Cyclops, ActorType::Cyclops, t, String::from_str("Cyclops"), false)
    }

    /// The template of a kind.
    pub fn for_kind(kind: TemplateKind, rng: &mut StdRng) -> (r: UnitTemplate)
        ensures
            r.wf(),
            r.genome == Some(kind_genome(kind)),
    {
        match kind {
            TemplateKind::Human => Self::human(rng),
            TemplateKind::Elf => Self::elf(rng),
            TemplateKind::Dwarf => Self::dwarf(rng),
            TemplateKind::Rat => Self::rat(),
            TemplateKind::Spider => Self::spider(),
            TemplateKind::Crab => Self::crab(),
            TemplateKind::Cyclops => Self::cyclops(),
        }
    }

    /// The genome (if any) and the need examples are well formed.
    pub open spec fn wf(&self) -> bool {
        &&& match self.genome { Some(g) => g.wf(), None => true }
        &&& match self.food_need { Some(e) => e.wf(), None => true }
        &&& match self.entertainment_need { Some(e) => e.wf(), None => true }
        &&& match self.sleep_need { Some(e) => e.wf(), None => true }
    }
}

/// Maximum energy of a spawned creature without a genome (100).
pub const BASE_ENERGY_MAX: i64 = 100_000;
/// Share of its maximum a creature is spawned with (0.9).
pub const SPAWN_ENERGY_SHARE: i64 = 900;
/// Health of a spawned creature (100).
pub const SPAWN_HEALTH: i64 = 100_000;

fn draw_need(example: &Option<NeedExample>, rng: &mut StdRng) -> (r: Option<Need>)
    requires
        match *example { Some(e) => e.wf(), None => true },
    ensures
        match *example {
            Some(e) => r matches Some(n) && drawn_from(e, n),
            None => r is None,
        },
{
    match example {
        Some(e) => Some(Need::from_example(e, rng)),
        None => None,
    }
}

fn copy_items<T: Copy>(v: &Vec<T>) -> (r: Vec<T>)
    ensures
        r@ == v@,
{
    let mut r: Vec<T> = Vec::new();
    let mut i: usize = 0;
    while i < v.len()
        invariant
            i <= v@.len(),
            r@ == v@.take(i as int),
        decreases v@.len() - i,
    {
        r.push(v[i]);
        assert(r@ =~= v@.take(i as int + 1));
        i += 1;
    }
    assert(v@.take(v@.len() as int) =~= v@);
    r
}

/// The maximum energy of a creature spawned from a template.
pub open spec fn spawn_energy_max(g: Option<Genome>) -> int {
    match g {
        Some(g) => BASE_ENERGY_MAX * g.size / UNIT as int,
        None => BASE_ENERGY_MAX as int,
    }
}

/// Creates the agent for a template at `position`. Its maximum energy is 100,
/// scaled by the genome's size when there is a genome, and it starts at 90% of
/// that; needs are drawn from the template's examples. A creature with a genome
/// also gets generation 0 and a reproduction threshold of 80% of its maximum.
pub fn spawn_unit_from_template(template: &UnitTemplate, position: Position, id: EntityId, rng: &mut StdRng) -> (a: Agent)
    requires
        template.wf(),
    ensures
        a.wf(),
        a.id == id,
        a.position == position,
        a.genome == template.genome,
        a.body.energy_max == spawn_energy_max(template.genome),
        a.body.energy_storage == a.body.energy_max * SPAWN_ENERGY_SHARE / 1000,
        a.body.health == SPAWN_HEALTH,
        a.body.skillset == template.skillset,
        a.body.attributes == template.attributes,
        a.body.afflictions@ == template.afflictions@,
        a.brain.personality@ == template.personality@,
        a.brain.task is None && a.brain.action is None && a.brain.motivation is None,
        a.brain.task_queue@.len() == 0 && a.brain.action_queue@.len() == 0,
        match template.food_need {
            Some(e) => a.body.needs_food matches Some(n) && drawn_from(e, n),
            None => a.body.needs_food is None,
        },
        match template.sleep_need {
            Some(e) => a.body.needs_sleep matches Some(n) && drawn_from(e, n),
            None => a.body.needs_sleep is None,
        },
        match template.entertainment_need {
            Some(e) => a.body.needs_entertainment matches Some(n) && drawn_from(e, n),
            None => a.body.needs_entertainment is None,
        },
        template.genome is Some ==> a.generation == Some(Generation { value: 0 }),
        template.genome is Some ==> a.reproduction == Some(ReproductionStatus {
            energy_threshold: (a.body.energy_max * 800 / 1000) as i64,
            last_reproduction_tick: 0,
        }),
        template.genome is None ==> a.generation is None && a.reproduction is None,
        a.targeting is None && a.pathing is None,
{
    let needs_food = draw_need(&template.food_need, rng);
    let needs_entertainment = draw_need(&template.entertainment_need, rng);
    let needs_sleep = draw_need(&template.sleep_need, rng);
    let energy_max = match template.genome {
        Some(g) => BASE_ENERGY_MAX * g.size / UNIT,
        None => BASE_ENERGY_MAX,
    };
    let energy_storage = energy_max * SPAWN_ENERGY_SHARE / 1000;
    let (generation, reproduction) = match template.genome {
        Some(_) => (
            Some(Generation { value: 0 }),
            Some(ReproductionStatus { energy_threshold: energy_max * 800 / 1000, last_reproduction_tick: 0 }),
        ),
        None => (None, None),
    };
    Agent {
        id,
        position,
        body: PhysicalBody {
            energy_storage,
            energy_max,
            health: SPAWN_HEALTH,
            needs_food,
            needs_sleep,
            needs_entertainment,
            danger: None,
            injured: false,
            afflictions: copy_items(&template.afflictions),
            skillset: template.skillset,
            attributes: template.attributes,
        },
        genome: template.genome,
        brain: Brain {
            task: None,
            task_queue: Vec::new(),
            action: None,
            action_queue: Vec::new(),
            personality: copy_items(&template.personality),
            memory: Vec::new(),
            motivation: None,
        },
        generation,
        reproduction,
        targeting: None,
        pathing: None,
    }
}

} // verus!
