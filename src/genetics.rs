//! Mutation of genomes and reproduction.
use vstd::prelude::*;
use crate::num::{UNIT, LIMIT};
use crate::components::{
    EntityId, Position, Genome, PhysicalBody, Skill, Skillset, Attributeset, Brain, Generation,
    ReproductionStatus, SIZE_MIN, SIZE_MAX, MOBILITY_MIN, MOBILITY_MAX, SENSORY_MIN, SENSORY_MAX,
    STRENGTH_MIN, STRENGTH_MAX, THERMAL_MIN, THERMAL_MAX, METABOLISM_MIN, METABOLISM_MAX, FRACTION_MIN, FRACTION_MAX,
    MUTATION_MIN, MUTATION_MAX, WEIGHT_MIN, WEIGHT_MAX,
};
use crate::agent::Agent;
use crate::combat::clamp;
use crate::random::{chance, pick_between};
use rand::rngs::StdRng;

verus! {

/// Largest perturbation of a mutated trait (0.1).
pub const MUTATION_STEP: i64 = 100;
/// Seconds an agent must wait between two reproductions.
pub const REPRODUCTION_COOLDOWN: u64 = 100;
/// Chance, in tenths, that an eligible agent reproduces on a check.
pub const REPRODUCTION_TENTHS: u32 = 3;
/// Maximum energy of an offspring per unit of size.
pub const ENERGY_PER_SIZE: i64 = 100;
/// Health of a newborn (100).
pub const NEWBORN_HEALTH: i64 = 100_000;
/// Share of its maximum energy an offspring needs before it may reproduce (0.8).
pub const THRESHOLD_SHARE: i64 = 800;

/// Smallest and largest value a mutated motivation weight is clamped to (0.1 and 2).
pub const MUTATED_WEIGHT_MIN: i64 = 100;
pub const MUTATED_WEIGHT_MAX: i64 = 2000;
/// The number of traits in a genome, each with its own mutation draw.
pub const TRAIT_COUNT: usize = 13;

/// A trait after its draws: perturbed by `d` and clamped to `lo ..= hi` when hit, kept otherwise.
pub open spec fn mutated_value(v: int, lo: int, hi: int, hit: bool, d: int) -> int {
    if hit { clamp(v + d, lo, hi) } else { v }
}

/// One trait's mutation from its draws: whether it mutates, and by how much.
pub fn mutate_trait_with(v: i64, lo: i64, hi: i64, hit: bool, d: i64) -> (r: i64)
    requires
        lo <= hi,
        -MUTATION_STEP <= d <= MUTATION_STEP,
        -LIMIT <= v <= LIMIT,
    ensures
        r == mutated_value(v as int, lo as int, hi as int, hit, d as int),
{
    if hit {
        let s = v + d;
        if s < lo { lo } else if s > hi { hi } else { s }
    } else {
        v
    }
}

/// Draws usable for a genome: one hit and one perturbation within ±0.1 per trait.
pub open spec fn draws_ok(hits: Seq<bool>, ds: Seq<i64>) -> bool {
    &&& hits.len() == TRAIT_COUNT
    &&& ds.len() == TRAIT_COUNT
    &&& forall|k: int| 0 <= k < TRAIT_COUNT ==> -MUTATION_STEP <= #[trigger] ds[k] <= MUTATION_STEP
}

/// The genome after the draws, traits in the order size, mobility, sensory range,
/// strength, metabolic efficiency, diet, thermal tolerance, aggression, sociality,
/// mutation rate, and the hunger, fatigue and social weights. Each trait is
/// clamped to its range; the weights to 0.1 ..= 2.
pub open spec fn mutated_genome(p: Genome, hits: Seq<bool>, ds: Seq<i64>) -> Genome {
    Genome {
        size: mutated_value(p.size as int, SIZE_MIN as int, SIZE_MAX as int, hits[0], ds[0] as int) as i64,
        mobility: mutated_value(p.mobility as int, MOBILITY_MIN as int, MOBILITY_MAX as int, hits[1], ds[1] as int) as i64,
        sensory_range: mutated_value(p.sensory_range as int, SENSORY_MIN as int, SENSORY_MAX as int, hits[2], ds[2] as int) as i64,
        physical_strength: mutated_value(p.physical_strength as int, STRENGTH_MIN as int, STRENGTH_MAX as int, hits[3], ds[3] as int) as i64,
        metabolic_efficiency: mutated_value(p.metabolic_efficiency as int, METABOLISM_MIN as int, METABOLISM_MAX as int, hits[4], ds[4] as int) as i64,
        diet_type: mutated_value(p.diet_type as int, FRACTION_MIN as int, FRACTION_MAX as int, hits[5], ds[5] as int) as i64,
        thermal_tolerance: mutated_value(p.thermal_tolerance as int, THERMAL_MIN as int, THERMAL_MAX as int, hits[6], ds[6] as int) as i64,
        aggression: mutated_value(p.aggression as int, FRACTION_MIN as int, FRACTION_MAX as int, hits[7], ds[7] as int) as i64,
        sociality: mutated_value(p.sociality as int, FRACTION_MIN as int, FRACTION_MAX as int, hits[8], ds[8] as int) as i64,
        mutation_rate: mutated_value(p.mutation_rate as int, MUTATION_MIN as int, MUTATION_MAX as int, hits[9], ds[9] as int) as i64,
        weight_hunger: mutated_value(p.weight_hunger as int, MUTATED_WEIGHT_MIN as int, MUTATED_WEIGHT_MAX as int, hits[10], ds[10] as int) as i64,
        weight_fatigue: mutated_value(p.weight_fatigue as int, MUTATED_WEIGHT_MIN as int, MUTATED_WEIGHT_MAX as int, hits[11], ds[11] as int) as i64,
        weight_social: mutated_value(p.weight_social as int, MUTATED_WEIGHT_MIN as int, MUTATED_WEIGHT_MAX as int, hits[12], ds[12] as int) as i64,
    }
}

/// `c` is `p` after some valid draws.
pub open spec fn descends(p: Genome, c: Genome) -> bool {
    exists|hits: Seq<bool>, ds: Seq<i64>| draws_ok(hits, ds) && c == #[trigger] mutated_genome(p, hits, ds)
}

/// The offspring genome for given draws.
pub fn mutate_genome_with(parent: &Genome, hits: &Vec<bool>, deltas: &Vec<i64>) -> (child: Genome)
    requires
        parent.wf(),
        draws_ok(hits@, deltas@),
    ensures
        child == mutated_genome(*parent, hits@, deltas@),
        child.wf(),
{
    proof {
        assert(-MUTATION_STEP <= deltas@[0] <= MUTATION_STEP);
        assert(-MUTATION_STEP <= deltas@[1] <= MUTATION_STEP);
        assert(-MUTATION_STEP <= deltas@[2] <= MUTATION_STEP);
        assert(-MUTATION_STEP <= deltas@[3] <= MUTATION_STEP);
        assert(-MUTATION_STEP <= deltas@[4] <= MUTATION_STEP);
        assert(-MUTATION_STEP <= deltas@[5] <= MUTATION_STEP);
        assert(-MUTATION_STEP <= deltas@[6] <= MUTATION_STEP);
        assert(-MUTATION_STEP <= deltas@[7] <= MUTATION_STEP);
        assert(-MUTATION_STEP <= deltas@[8] <= MUTATION_STEP);
        assert(-MUTATION_STEP <= deltas@[9] <= MUTATION_STEP);
        assert(-MUTATION_STEP <= deltas@[10] <= MUTATION_STEP);
        assert(-MUTATION_STEP <= deltas@[11] <= MUTATION_STEP);
        assert(-MUTATION_STEP <= deltas@[12] <= MUTATION_STEP);
    }
    Genome {
        size: mutate_trait_with(parent.size, SIZE_MIN, SIZE_MAX, hits[0], deltas[0]),
        mobility: mutate_trait_with(parent.mobility, MOBILITY_MIN, MOBILITY_MAX, hits[1], deltas[1]),
        sensory_range: mutate_trait_with(parent.sensory_range, SENSORY_MIN, SENSORY_MAX, hits[2], deltas[2]),
        physical_strength: mutate_trait_with(parent.physical_strength, STRENGTH_MIN, STRENGTH_MAX, hits[3], deltas[3]),
        metabolic_efficiency: mutate_trait_with(parent.metabolic_efficiency, METABOLISM_MIN, METABOLISM_MAX, hits[4], deltas[4]),
        diet_type: mutate_trait_with(parent.diet_type, FRACTION_MIN, FRACTION_MAX, hits[5], deltas[5]),
        thermal_tolerance: mutate_trait_with(parent.thermal_tolerance, THERMAL_MIN, THERMAL_MAX, hits[6], deltas[6]),
        aggression: mutate_trait_with(parent.aggression, FRACTION_MIN, FRACTION_MAX, hits[7], deltas[7]),
        sociality: mutate_trait_with(parent.sociality, FRACTION_MIN, FRACTION_MAX, hits[8], deltas[8]),
        mutation_rate: mutate_trait_with(parent.mutation_rate, MUTATION_MIN, MUTATION_MAX, hits[9], deltas[9]),
        weight_hunger: mutate_trait_with(parent.weight_hunger, MUTATED_WEIGHT_MIN, MUTATED_WEIGHT_MAX, hits[10], deltas[10]),
        weight_fatigue: mutate_trait_with(parent.weight_fatigue, MUTATED_WEIGHT_MIN, MUTATED_WEIGHT_MAX, hits[11], deltas[11]),
        weight_social: mutate_trait_with(parent.weight_social, MUTATED_WEIGHT_MIN, MUTATED_WEIGHT_MAX, hits[12], deltas[12]),
    }
}

/// A copy of the parent's genome with each trait independently mutated with
/// probability `parent.mutation_rate`: per trait one draw of whether it mutates
/// and, when it does, one uniform perturbation within ±0.1; then `mutate_genome_with`.
pub fn mutate_genome(parent: &Genome, rng: &mut StdRng) -> (child: Genome)
    requires
        parent.wf(),
    ensures
        child.wf(),
        descends(*parent, child),
{
    let rate = parent.mutation_rate as u32;
    let mut hits: Vec<bool> = Vec::new();
    let mut deltas: Vec<i64> = Vec::new();
    let mut k: usize = 0;
    while k < TRAIT_COUNT
        invariant
            k <= TRAIT_COUNT,
            hits@.len() == k,
            deltas@.len() == k,
            0 <= rate <= 1000,
            forall|j: int| 0 <= j < k ==> -MUTATION_STEP <= #[trigger] deltas@[j] <= MUTATION_STEP,
        decreases TRAIT_COUNT - k,
    {
        let hit = chance(rng, rate, 1000);
        let d = if hit { pick_between(rng, -MUTATION_STEP, MUTATION_STEP) } else { 0 };
        hits.push(hit);
        deltas.push(d);
        k += 1;
    }
    let child = mutate_genome_with(parent, &hits, &deltas);
    assert(draws_ok(hits@, deltas@) && child == mutated_genome(*parent, hits@, deltas@));
    child
}

/// Enough stored energy, and the cooldown since the last reproduction has passed.
pub open spec fn may_reproduce(b: PhysicalBody, s: ReproductionStatus, now: u64) -> bool {
    b.energy_storage > s.energy_threshold && now - s.last_reproduction_tick > REPRODUCTION_COOLDOWN
}

pub fn can_reproduce(body: &PhysicalBody, status: &ReproductionStatus, now: u64) -> (r: bool)
    ensures
        r == may_reproduce(*body, *status, now),
{
    body.energy_storage > status.energy_threshold && now > status.last_reproduction_tick
        && now - status.last_reproduction_tick > REPRODUCTION_COOLDOWN
}

/// Half of the parent's stored energy: what reproduction costs and hands on.
pub open spec fn reproduction_cost(b: PhysicalBody) -> int {
    b.energy_storage * 500 / 1000
}

/// The maximum energy of an offspring with genome `g`.
pub open spec fn offspring_energy_max(g: Genome) -> int {
    ENERGY_PER_SIZE * g.size
}

fn blank_skillset() -> (r: Skillset)
{
    let s = Skill { experience: 0, exp_lost: 0 };
    Skillset {
        animal_raising: s, brawling: s, construction: s, cooking: s, crafting: s, doctoring: s,
        farming: s, fishing: s, foraging: s, hunting: s, mining: s, social: s, woodcutting: s,
    }
}

/// The body of a newborn with the given genome and inherited energy.
fn newborn_body(genome: &Genome, inherited: i64) -> (b: PhysicalBody)
    requires
        genome.wf(),
        0 <= inherited <= LIMIT,
    ensures
        b.wf(),
        b.energy_max == offspring_energy_max(*genome),
        b.energy_storage == if inherited > b.energy_max { b.energy_max } else { inherited },
        b.health == NEWBORN_HEALTH,
{
    let energy_max = ENERGY_PER_SIZE * genome.size;
    PhysicalBody {
        energy_storage: if inherited > energy_max { energy_max } else { inherited },
        energy_max,
        health: NEWBORN_HEALTH,
        needs_food: None,
        needs_sleep: None,
        needs_entertainment: None,
        danger: None,
        injured: false,
        afflictions: Vec::new(),
        skillset: blank_skillset(),
        attributes: Attributeset { strength: 0, dexterity: 0, constitution: 0, intelligence: 0, wisdom: 0, charisma: 0 },
    }
}

/// The offspring record: a newborn at `position` with the given genome and
/// generation, `initial_energy` capped at its maximum of `100 * size`, an empty
/// brain and a fresh reproduction status (threshold 80% of its maximum, never
/// reproduced).
pub fn spawn_child(id: EntityId, position: Position, genome: &Genome, generation: u32, initial_energy: i64) -> (c: Agent)
    requires
        genome.wf(),
        0 <= initial_energy <= LIMIT,
    ensures
        c.wf(),
        c.id == id,
        c.position == position,
        c.genome == Some(*genome),
        c.generation == Some(Generation { value: generation }),
        c.body.energy_max == offspring_energy_max(*genome),
        c.body.energy_storage == if initial_energy > c.body.energy_max { c.body.energy_max } else { initial_energy },
        c.body.energy_storage <= c.body.energy_max,
        c.body.health == NEWBORN_HEALTH,
        c.reproduction == Some(ReproductionStatus {
            energy_threshold: (c.body.energy_max * THRESHOLD_SHARE / 1000) as i64,
            last_reproduction_tick: 0,
        }),
        c.brain@.task is None && c.brain@.task_queue.len() == 0 && c.brain@.action is None,
        c.brain@.action_queue.len() == 0 && c.brain@.motivation is None,
        c.targeting is None && c.pathing is None,
{
    let body = newborn_body(genome, initial_energy);
    let threshold = body.energy_max * THRESHOLD_SHARE / 1000;
    Agent {
        id,
        position,
        body,
        genome: Some(*genome),
        brain: Brain {
            task: None,
            task_queue: Vec::new(),
            action: None,
            action_queue: Vec::new(),
            personality: Vec::new(),
            memory: Vec::new(),
            motivation: None,
        },
        generation: Some(Generation { value: generation }),
        reproduction: Some(ReproductionStatus { energy_threshold: threshold, last_reproduction_tick: 0 }),
        targeting: None,
        pathing: None,
    }
}

/// The agent has a genome, a generation and a reproduction status, and may reproduce at `now`.
pub open spec fn eligible(a: Agent, now: u64) -> bool {
    &&& a.genome is Some
    &&& a.generation is Some
    &&& a.reproduction is Some
    &&& may_reproduce(a.body, a.reproduction->0, now)
}

/// What a reproduction does to the parent and what the offspring is, for a child
/// genome and a cell offset `(dx, dy)`: the parent pays half of its stored
/// energy and records `now`; the child, one generation later, gets that energy
/// capped at its maximum.
pub open spec fn reproduced(p: Agent, parent: Agent, c: Agent, now: u64, child_id: EntityId, g: Genome, dx: int, dy: int) -> bool {
    &&& c.id == child_id
    &&& c.generation == Some(Generation { value: (p.generation->0.value + 1) as u32 })
    &&& c.genome == Some(g)
    &&& c.position == (Position { x: (p.position.x + dx) as i32, y: (p.position.y + dy) as i32, z: p.position.z })
    &&& c.body.energy_max == offspring_energy_max(g)
    &&& c.body.energy_storage <= c.body.energy_max
    &&& c.body.energy_storage == if reproduction_cost(p.body) > c.body.energy_max {
            c.body.energy_max as int
        } else {
            reproduction_cost(p.body)
        }
    &&& c.reproduction == Some(ReproductionStatus {
            energy_threshold: (c.body.energy_max * THRESHOLD_SHARE / 1000) as i64,
            last_reproduction_tick: 0,
        })
    &&& c.wf()
    &&& parent.body == (PhysicalBody { energy_storage: (p.body.energy_storage - reproduction_cost(p.body)) as i64, ..p.body })
    &&& parent.reproduction == Some(ReproductionStatus { last_reproduction_tick: now, ..p.reproduction->0 })
    &&& parent == (Agent { body: parent.body, reproduction: parent.reproduction, ..p })
}

/// One reproduction check with its draws given: `roll` is the outcome of the three-in-ten roll,
/// `child_genome` the mutated genome and `(dx, dy)` the offspring's offset. An
/// offspring is returned exactly when the agent is eligible and the roll succeeded.
pub fn reproduce_with(
    agent: &mut Agent,
    now: u64,
    child_id: EntityId,
    roll: bool,
    child_genome: Genome,
    dx: i64,
    dy: i64,
) -> (child: Option<Agent>)
    requires
        old(agent).wf(),
        child_genome.wf(),
        -1 <= dx <= 1,
        -1 <= dy <= 1,
        i32::MIN < old(agent).position.x < i32::MAX,
        i32::MIN < old(agent).position.y < i32::MAX,
        old(agent).generation matches Some(g) ==> g.value < u32::MAX,
    ensures
        final(agent).wf(),
        child is Some <==> (eligible(*old(agent), now) && roll),
        child is None ==> *final(agent) == *old(agent),
        child matches Some(c) ==> reproduced(*old(agent), *final(agent), c, now, child_id, child_genome, dx as int, dy as int),
{
    let (generation, status) = match (agent.genome, agent.generation, agent.reproduction) {
        (Some(_), Some(n), Some(s)) => (n, s),
        _ => return None,
    };
    if !can_reproduce(&agent.body, &status, now) || !roll {
        return None;
    }
    let cost = agent.body.energy_storage * 500 / 1000;
    agent.body.energy_storage = agent.body.energy_storage - cost;
    agent.reproduction = Some(ReproductionStatus { last_reproduction_tick: now, ..status });
    let position = Position {
        x: (agent.position.x as i64 + dx) as i32,
        y: (agent.position.y as i64 + dy) as i32,
        z: agent.position.z,
    };
    Some(spawn_child(child_id, position, &child_genome, generation.value + 1, cost))
}

/// One reproduction check of an agent at time `now` (whole seconds). An eligible
/// agent rolls three in ten; on success it draws the mutated
/// genome and an offset within one cell (same z), and `reproduce_with` does the rest.
pub fn reproduction_system(agent: &mut Agent, now: u64, child_id: EntityId, rng: &mut StdRng) -> (child: Option<Agent>)
    requires
        old(agent).wf(),
        i32::MIN < old(agent).position.x < i32::MAX,
        i32::MIN < old(agent).position.y < i32::MAX,
        old(agent).generation matches Some(g) ==> g.value < u32::MAX,
    ensures
        final(agent).wf(),
        child is Some ==> eligible(*old(agent), now),
        child is None ==> *final(agent) == *old(agent),
        child matches Some(c) ==> exists|dx: int, dy: int| -1 <= dx <= 1 && -1 <= dy <= 1
            && #[trigger] reproduced(*old(agent), *final(agent), c, now, child_id, c.genome->0, dx, dy)
            && descends(old(agent).genome->0, c.genome->0),
{
    let genome = match agent.genome {
        Some(g) => g,
        None => return None,
    };
    let status = match agent.reproduction {
        Some(s) => s,
        None => return None,
    };
    if agent.generation.is_none() || !can_reproduce(&agent.body, &status, now) {
        return None;
    }
    if !chance(rng, REPRODUCTION_TENTHS, 10) {
        return None;
    }
    let child_genome = mutate_genome(&genome, rng);
    let dx = pick_between(rng, -1, 1);
    let dy = pick_between(rng, -1, 1);
    let r = reproduce_with(agent, now, child_id, true, child_genome, dx, dy);
    match r {
        Some(c) => {
            assert(reproduced(*old(agent), *agent, c, now, child_id, c.genome->0, dx as int, dy as int));
            Some(c)
        },
        None => None,
    }
}

} // verus!
