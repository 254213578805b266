//! Melee damage, death and predation, retaliation, and target acquisition for
//! fighting and hunting.
use vstd::prelude::*;
use crate::num::{UNIT, LIMIT};
use crate::components::{
    EntityId, Position, Genome, PhysicalBody, Danger, DangerType, Task, Targeting, Pathing, Attacked,
    grid_distance, adjacent,
};
use crate::agent::Agent;
use crate::resolver::no_worse;
use crate::resolver::Candidate;

verus! {

/// Sensory range, in whole cells, of an agent without a genome.
pub const DEFAULT_SENSORY_RANGE: i64 = 15;
/// Genetic distance (0.2) below which two agents count as one species.
pub const SAME_SPECIES_DISTANCE: i64 = 200;
/// Cap on each of the two bonus terms of melee damage.
pub const MELEE_BONUS_CAP: i64 = 20;

pub open spec fn clamp(v: int, lo: int, hi: int) -> int {
    if v < lo { lo } else if v > hi { hi } else { v }
}

/// The brawling level: the square root of the experience, rounded down (0 without experience).
pub open spec fn brawling_level(b: PhysicalBody) -> int {
    if b.skillset.brawling.experience <= 0 { 0 } else { crate::num::floor_sqrt(b.skillset.brawling.experience as int) }
}

/// `1 + clamp(strength - constitution, 0, 20) + clamp(brawling level, 0, 20)` whole points.
pub open spec fn melee_damage_spec(attacker: PhysicalBody, defender: PhysicalBody) -> int {
    1 + clamp(attacker.attributes.strength - defender.attributes.constitution, 0, MELEE_BONUS_CAP as int)
      + clamp(brawling_level(attacker), 0, MELEE_BONUS_CAP as int)
}

/// The melee damage in whole points.
pub fn melee_damage(attacker: &PhysicalBody, defender: &PhysicalBody) -> (r: i64)
    ensures
        r == melee_damage_spec(*attacker, *defender),
        1 <= r <= 41,
{
    let diff = attacker.attributes.strength as i64 - defender.attributes.constitution as i64;
    let a = if diff < 0 { 0 } else if diff > MELEE_BONUS_CAP { MELEE_BONUS_CAP } else { diff };
    let level = attacker.skillset.brawling.level() as i64;
    proof {
        if attacker.skillset.brawling.experience > 0 {
            crate::num_proofs::lemma_floor_sqrt_unique(
                attacker.skillset.brawling.experience as int, level as int, level as int);
        }
    }
    let b = if level < 0 { 0 } else if level > MELEE_BONUS_CAP { MELEE_BONUS_CAP } else { level };
    1 + a + b
}

/// The energy a predator gains from a kill: `(energy_max * 0.5 + energy_storage) * diet_type`.
pub open spec fn predation_gain(victim: PhysicalBody, diet_type: int) -> int {
    (victim.energy_max * 500 / 1000 + victim.energy_storage) * diet_type / UNIT as int
}

pub open spec fn capped_gain(b: PhysicalBody, gain: int) -> int {
    if b.energy_storage + gain > b.energy_max { b.energy_max as int } else { b.energy_storage + gain }
}

/// `health - damage`, held at the smallest `i64` rather than wrapping.
pub open spec fn hit(health: int, damage: int) -> int {
    if health - damage < i64::MIN { i64::MIN as int } else { health - damage }
}

/// The outcome of a melee blow on both bodies.
pub open spec fn blow_spec(
    attacker_id: EntityId,
    a0: PhysicalBody,
    genome: Option<Genome>,
    d0: PhysicalBody,
    a1: PhysicalBody,
    d1: PhysicalBody,
    killed: bool,
) -> bool {
    let health = hit(d0.health as int, melee_damage_spec(a0, d0) * UNIT);
    &&& d1.health == health
    &&& killed == (health <= 0)
    &&& killed ==> d1.danger == d0.danger
    &&& !killed ==> d1.danger == Some(Danger { danger_type: DangerType::Attacked, danger_source: Some(attacker_id) })
    &&& d1 == (PhysicalBody { health: d1.health, danger: d1.danger, ..d0 })
    &&& a1 == (PhysicalBody { energy_storage: a1.energy_storage, ..a0 })
    &&& a1.energy_storage == match genome {
        Some(g) if killed => capped_gain(a0, predation_gain(d0, g.diet_type as int)),
        _ => a0.energy_storage as int,
    }
}

/// Resolves one melee blow. The defender loses the melee damage from its health.
/// A lethal blow (health at or below 0) means the defender is to be despawned, and
/// an attacker with a genome gains `(energy_max * 0.5 + energy_storage) * diet_type`
/// of the victim's energy, capped at its maximum. A non-lethal blow marks the
/// defender as attacked by `attacker_id`. Returns whether the blow was lethal.
pub fn do_melee_damage(
    attacker_id: EntityId,
    attacker: &mut PhysicalBody,
    attacker_genome: &Option<Genome>,
    defender: &mut PhysicalBody,
) -> (killed: bool)
    requires
        old(attacker).wf(),
        old(defender).wf(),
        match *attacker_genome {
            Some(g) => g.wf(),
            None => true,
        },
    ensures
        blow_spec(attacker_id, *old(attacker), *attacker_genome, *old(defender), *final(attacker), *final(defender), killed),
        final(attacker).wf(),
        final(defender).wf(),
{
    let damage = melee_damage(attacker, defender) * UNIT;
    defender.health = match defender.health.checked_sub(damage) {
        Some(h) => h,
        None => i64::MIN,
    };
    let killed = defender.health <= 0;
    if killed {
        match attacker_genome {
            Some(g) => {
                let pool = defender.energy_max * 500 / 1000 + defender.energy_storage;
                proof {
                    assert(0 <= pool * g.diet_type <= 2 * LIMIT * 1000) by (nonlinear_arith)
                        requires 0 <= pool <= 2 * LIMIT, 0 <= g.diet_type <= 1000;
                }
                let gain = pool * g.diet_type / UNIT;
                let total = attacker.energy_storage + gain;
                attacker.energy_storage = if total > attacker.energy_max { attacker.energy_max } else { total };
            },
            None => {},
        }
    } else {
        defender.danger = Some(Danger { danger_type: DangerType::Attacked, danger_source: Some(attacker_id) });
    }
    killed
}

/// Something an agent could fight or hunt.
#[derive(PartialEq, Eq, Structural, Clone, Copy, Debug)]
pub struct Attackable {
    pub id: EntityId,
    pub position: Position,
    pub genome: Option<Genome>,
}

/// The sensing range in whole cells: the genome's sensory range truncated, or 15.
pub open spec fn sensory_range(g: Option<Genome>) -> int {
    match g {
        Some(g) => (g.sensory_range as int) / (UNIT as int),
        None => DEFAULT_SENSORY_RANGE as int,
    }
}

/// Whether `c` is a target for agent `a` in a fresh search: not itself, within
/// sensing range, and, when hunting, not of its own species.
pub open spec fn combat_eligible(a: Agent, c: Attackable) -> bool {
    &&& c.id != a.id
    &&& grid_distance(a.position, c.position) <= sensory_range(a.genome)
    &&& a.brain.task == Some(Task::Hunt) ==> match (a.genome, c.genome) {
        (Some(g1), Some(g2)) => !same_species(g1, g2),
        _ => true,
    }
}

/// The genetic distance is below 0.2.
pub open spec fn same_species(g1: Genome, g2: Genome) -> bool {
    g1.distance_sq_spec(&g2) < SAME_SPECIES_DISTANCE * SAME_SPECIES_DISTANCE
}

pub open spec fn as_candidate(c: Attackable) -> Candidate {
    Candidate { id: c.id, position: c.position }
}

/// `k` indexes the best eligible target: nearest, ties to the lowest id.
pub open spec fn is_best_prey(a: Agent, cs: Seq<Attackable>, k: int) -> bool {
    &&& 0 <= k < cs.len()
    &&& combat_eligible(a, cs[k])
    &&& forall|j: int| 0 <= j < cs.len() && combat_eligible(a, #[trigger] cs[j])
            ==> no_worse(a.position, as_candidate(cs[k]), as_candidate(cs[j]))
}

pub open spec fn listed(cs: Seq<Attackable>, t: EntityId) -> bool {
    exists|j: int| 0 <= j < cs.len() && (#[trigger] cs[j]).id == t
}

/// What the fight/hunt resolver decided for one agent.
#[derive(PartialEq, Eq, Structural, Clone, Copy, Debug)]
pub enum CombatDecision {
    /// The agent's task is neither `Fight` nor `Hunt`.
    Skipped,
    /// The target is adjacent: it is struck (the caller marks it `Attacked` by this agent).
    Strike(EntityId),
    /// The target is out of reach: movement towards it is requested.
    Chase(EntityId),
    /// The target no longer exists: targeting dropped, agent remotivated.
    Lost(EntityId),
    /// The targeting was left over from another task: it and the movement request are dropped.
    Reclaimed(EntityId),
    /// The agent turns on the one that attacked it.
    Retaliate(EntityId),
    /// The attacker is gone: the danger is cleared and the agent remotivated.
    ThreatGone,
    /// A new target was chosen and movement towards it requested.
    Engage(EntityId),
    /// Nothing to attack: the agent was remotivated.
    NothingToFight,
}

pub open spec fn retaliation_source(b: PhysicalBody) -> Option<EntityId> {
    match b.danger {
        Some(d) => if d.danger_type == DangerType::Attacked { d.danger_source } else { None },
        None => None,
    }
}

/// The full contract of one fight/hunt step.
pub open spec fn combat_spec(a: Agent, cs: Seq<Attackable>, b: Agent, r: CombatDecision) -> bool {
    if a.brain.task != Some(Task::Fight) && a.brain.task != Some(Task::Hunt) {
        r == CombatDecision::Skipped && b == a
    } else {
        &&& b.id == a.id
        &&& b.position == a.position
        &&& b.genome == a.genome
        &&& b.generation == a.generation
        &&& b.reproduction == a.reproduction
        &&& match a.targeting {
            Some(tg) => if Some(tg.task) != a.brain.task {
                r == CombatDecision::Reclaimed(tg.target) && b == (Agent { targeting: None, pathing: None, ..a })
            } else if exists|j: int| 0 <= j < cs.len() && (#[trigger] cs[j]).id == tg.target
                    && adjacent(a.position, cs[j].position) {
                r == CombatDecision::Strike(tg.target) && b == (Agent { pathing: None, ..a })
            } else if listed(cs, tg.target) {
                &&& r == CombatDecision::Chase(tg.target)
                &&& b.body == a.body
                &&& b.brain == a.brain
                &&& b.targeting == a.targeting
                &&& a.pathing is Some ==> b.pathing == Some(Pathing { moving_target: true, ..a.pathing->0 })
                &&& a.pathing is None ==> exists|j: int| 0 <= j < cs.len() && (#[trigger] cs[j]).id == tg.target
                        && b.pathing is Some && b.pathing->0.destination == cs[j].position
                        && b.pathing->0.path@.len() == 0 && !b.pathing->0.moving_target && !b.pathing->0.unreachable
            } else {
                &&& r == CombatDecision::Lost(tg.target)
                &&& b.targeting is None
                &&& b.body == a.body
                &&& b.pathing == a.pathing
                &&& b.brain@ == a.brain@.remotivated()
            },
            None => match retaliation_source(a.body) {
                Some(src) => if listed(cs, src) {
                    r == CombatDecision::Retaliate(src)
                        && b == (Agent { targeting: Some(Targeting { target: src, task: a.brain.task->0 }), ..a })
                } else {
                    &&& r == CombatDecision::ThreatGone
                    &&& b.body == (PhysicalBody { danger: None, ..a.body })
                    &&& b.targeting == a.targeting
                    &&& b.pathing == a.pathing
                    &&& b.brain@ == a.brain@.remotivated()
                },
                None => if exists|j: int| 0 <= j < cs.len() && combat_eligible(a, #[trigger] cs[j]) {
                    exists|k: int| is_best_prey(a, cs, k) && r == CombatDecision::Engage(cs[k].id)
                        && b.targeting == Some(Targeting { target: cs[k].id, task: a.brain.task->0 })
                        && b.pathing is Some && b.pathing->0.destination == cs[k].position
                        && b.body == a.body && b.brain == a.brain
                } else {
                    &&& r == CombatDecision::NothingToFight
                    &&& b.body == a.body
                    &&& b.targeting == a.targeting
                    &&& b.pathing == a.pathing
                    &&& b.brain@ == a.brain@.remotivated()
                },
            },
        }
    }
}

fn is_same_species(g1: &Genome, g2: &Genome) -> (r: bool)
    requires
        g1.wf(),
        g2.wf(),
    ensures
        r == same_species(*g1, *g2),
{
    let d = g1.genetic_distance(g2);
    proof {
        let n = g1.distance_sq_spec(g2);
        if d < SAME_SPECIES_DISTANCE {
            assert(n < SAME_SPECIES_DISTANCE * SAME_SPECIES_DISTANCE) by (nonlinear_arith)
                requires n < (d + 1) * (d + 1), d < 200, d >= 0;
        } else {
            assert(n >= SAME_SPECIES_DISTANCE * SAME_SPECIES_DISTANCE) by (nonlinear_arith)
                requires d * d <= n, d >= 200;
        }
    }
    d < SAME_SPECIES_DISTANCE
}

fn eligible(agent: &Agent, c: &Attackable) -> (r: bool)
    requires
        agent.wf(),
        match c.genome {
            Some(g) => g.wf(),
            None => true,
        },
    ensures
        r == combat_eligible(*agent, *c),
{
    if c.id == agent.id {
        return false;
    }
    let range = match agent.genome {
        Some(g) => g.sensory_range / UNIT,
        None => DEFAULT_SENSORY_RANGE,
    };
    if agent.position.distance(&c.position) > range {
        return false;
    }
    if agent.brain.task == Some(Task::Hunt) {
        match (agent.genome, c.genome) {
            (Some(g1), Some(g2)) => !is_same_species(&g1, &g2),
            _ => true,
        }
    } else {
        true
    }
}

fn find_attackable(cs: &Vec<Attackable>, t: EntityId) -> (r: Option<usize>)
    ensures
        r is None <==> !listed(cs@, t),
        r matches Some(k) ==> k < cs@.len() && cs@[k as int].id == t,
{
    let mut i: usize = 0;
    while i < cs.len()
        invariant
            i <= cs@.len(),
            forall|j: int| 0 <= j < i ==> (#[trigger] cs@[j]).id != t,
        decreases cs@.len() - i,
    {
        if cs[i].id == t {
            return Some(i);
        }
        i += 1;
    }
    None
}

fn adjacent_attackable(from: &Position, cs: &Vec<Attackable>, t: EntityId) -> (r: bool)
    ensures
        r == exists|j: int| 0 <= j < cs@.len() && (#[trigger] cs@[j]).id == t
            && adjacent(*from, cs@[j].position),
{
    let mut i: usize = 0;
    while i < cs.len()
        invariant
            i <= cs@.len(),
            forall|j: int| 0 <= j < i && (#[trigger] cs@[j]).id == t ==> !adjacent(*from, cs@[j].position),
        decreases cs@.len() - i,
    {
        if cs[i].id == t && from.distance(&cs[i].position) <= 1 {
            return true;
        }
        i += 1;
    }
    false
}

/// One step of the fight/hunt resolver for one agent. An agent with a target
/// strikes it when adjacent and chases it otherwise; a target that no longer
/// exists is dropped. Without a target, an agent that was attacked turns on its
/// attacker if it still exists (else it forgets the danger); otherwise it picks
/// the nearest eligible body within its sensing range (ties to the lowest id).
/// Whenever nothing is left to do the agent is remotivated.
pub fn combat_system_melee(agent: &mut Agent, attackables: &Vec<Attackable>) -> (r: CombatDecision)
    requires
        old(agent).wf(),
        forall|j: int| 0 <= j < attackables@.len() ==> match (#[trigger] attackables@[j]).genome {
            Some(g) => g.wf(),
            None => true,
        },
    ensures
        combat_spec(*old(agent), attackables@, *final(agent), r),
        final(agent).wf(),
{
    if agent.brain.task != Some(Task::Fight) && agent.brain.task != Some(Task::Hunt) {
        return CombatDecision::Skipped;
    }
    let current = if agent.brain.task == Some(Task::Hunt) { Task::Hunt } else { Task::Fight };
    match agent.targeting {
        Some(tg) => {
            if tg.task != current {
                agent.targeting = None;
                agent.pathing = None;
                return CombatDecision::Reclaimed(tg.target);
            }
            if adjacent_attackable(&agent.position, attackables, tg.target) {
                agent.pathing = None;
                return CombatDecision::Strike(tg.target);
            }
            match find_attackable(attackables, tg.target) {
                Some(k) => {
                    let dest = attackables[k].position;
                    match &mut agent.pathing {
                        Some(p) => {
                            p.moving_target = true;
                        },
                        None => {
                            agent.pathing = Some(Pathing {
                                path: Vec::new(),
                                destination: dest,
                                moving_target: false,
                                unreachable: false,
                            });
                        },
                    }
                    assert(listed(attackables@, tg.target));
                    CombatDecision::Chase(tg.target)
                },
                None => {
                    agent.targeting = None;
                    agent.brain.remotivate();
                    CombatDecision::Lost(tg.target)
                },
            }
        },
        None => {
            let source = match agent.body.danger {
                Some(d) => if d.danger_type == DangerType::Attacked { d.danger_source } else { None },
                None => None,
            };
            match source {
                Some(src) => {
                    if find_attackable(attackables, src).is_some() {
                        agent.targeting = Some(Targeting { target: src, task: current });
                        CombatDecision::Retaliate(src)
                    } else {
                        agent.body.danger = None;
                        agent.brain.remotivate();
                        CombatDecision::ThreatGone
                    }
                },
                None => {
                    let mut best: Option<usize> = None;
                    let mut best_dist: i64 = 0;
                    let mut i: usize = 0;
                    while i < attackables.len()
                        invariant
                            *agent == *old(agent),
                            old(agent).wf(),
                            forall|j: int| 0 <= j < attackables@.len() ==> match (#[trigger] attackables@[j]).genome {
                                Some(g) => g.wf(),
                                None => true,
                            },
                            i <= attackables@.len(),
                            best is None ==> forall|j: int| 0 <= j < i ==> !combat_eligible(*agent, #[trigger] attackables@[j]),
                            best matches Some(k) ==> {
                                &&& k < i
                                &&& combat_eligible(*agent, attackables@[k as int])
                                &&& best_dist == grid_distance(agent.position, attackables@[k as int].position)
                                &&& forall|j: int| 0 <= j < i && combat_eligible(*agent, #[trigger] attackables@[j])
                                        ==> no_worse(agent.position, as_candidate(attackables@[k as int]), as_candidate(attackables@[j]))
                            },
                        decreases attackables@.len() - i,
                    {
                        let c = attackables[i];
                        if eligible(agent, &c) {
                            let d = agent.position.distance(&c.position);
                            match best {
                                None => {
                                    best = Some(i);
                                    best_dist = d;
                                },
                                Some(k) => {
                                    if d < best_dist || (d == best_dist && c.id.precedes(&attackables[k].id)
                                        && !attackables[k].id.precedes(&c.id)) {
                                        best = Some(i);
                                        best_dist = d;
                                    }
                                },
                            }
                        }
                        i += 1;
                    }
                    match best {
                        Some(k) => {
                            let c = attackables[k];
                            assert(is_best_prey(*old(agent), attackables@, k as int));
                            agent.targeting = Some(Targeting { target: c.id, task: current });
                            agent.pathing = Some(Pathing {
                                path: Vec::new(),
                                destination: c.position,
                                moving_target: false,
                                unreachable: false,
                            });
                            CombatDecision::Engage(c.id)
                        },
                        None => {
                            assert(!exists|j: int| 0 <= j < attackables@.len() && combat_eligible(*old(agent), #[trigger] attackables@[j]));
                            agent.brain.remotivate();
                            CombatDecision::NothingToFight
                        },
                    }
                },
            }
        },
    }
}

/// Index of the first agent with id `t`.
fn find_agent(agents: &Vec<Agent>, t: EntityId) -> (r: Option<usize>)
    ensures
        r is None ==> forall|j: int| 0 <= j < agents@.len() ==> (#[trigger] agents@[j]).id != t,
        r matches Some(k) ==> k < agents@.len() && agents@[k as int].id == t
            && forall|j: int| 0 <= j < k ==> (#[trigger] agents@[j]).id != t,
{
    let mut i: usize = 0;
    while i < agents.len()
        invariant
            i <= agents@.len(),
            forall|j: int| 0 <= j < i ==> (#[trigger] agents@[j]).id != t,
        decreases agents@.len() - i,
    {
        if agents[i].id == t {
            return Some(i);
        }
        i += 1;
    }
    None
}

/// The first index of an agent with id `t`, if any.
pub open spec fn first_with_id(agents: Seq<Agent>, t: EntityId, k: int) -> bool {
    0 <= k < agents.len() && agents[k].id == t && forall|j: int| 0 <= j < k ==> (#[trigger] agents[j]).id != t
}

/// Resolves the `Attacked` marker carried by the agent at `defender`: the blow of
/// the attacker it names (the first agent with that id) lands on it. Returns
/// whether it was lethal, or `None` when the attacker no longer exists or is the
/// defender itself; then nothing changes.
pub fn attacked_entities_system(agents: &mut Vec<Agent>, defender: usize, marker: Attacked) -> (r: Option<bool>)
    requires
        defender < old(agents)@.len(),
        forall|i: int| 0 <= i < old(agents)@.len() ==> (#[trigger] old(agents)@[i]).wf(),
    ensures
        final(agents)@.len() == old(agents)@.len(),
        forall|i: int| 0 <= i < final(agents)@.len() ==> (#[trigger] final(agents)@[i]).wf(),
        r is None ==> *final(agents) == *old(agents),
        r is None ==> forall|k: int| first_with_id(old(agents)@, marker.attacker, k) ==> k == defender,
        r matches Some(killed) ==> exists|a: int| {
            &&& first_with_id(old(agents)@, marker.attacker, a)
            &&& a != defender
            &&& blow_spec(marker.attacker, old(agents)@[a].body, old(agents)@[a].genome,
                    old(agents)@[defender as int].body, final(agents)@[a].body,
                    final(agents)@[defender as int].body, killed)
            &&& final(agents)@[a] == (Agent { body: final(agents)@[a].body, ..old(agents)@[a] })
            &&& final(agents)@[defender as int]
                    == (Agent { body: final(agents)@[defender as int].body, ..old(agents)@[defender as int] })
            &&& forall|i: int| 0 <= i < final(agents)@.len() && i != a && i != defender
                    ==> #[trigger] final(agents)@[i] == old(agents)@[i]
        },
{
    let a = match find_agent(agents, marker.attacker) {
        Some(a) => a,
        None => return None,
    };
    if a == defender {
        return None;
    }
    let ghost before = agents@;
    let mut attacker = agents.remove(a);
    let d = if a < defender { defender - 1 } else { defender };
    assert(agents@[d as int] == before[defender as int]);
    let ghost att0 = attacker;
    let killed = do_melee_damage(marker.attacker, &mut attacker.body, &attacker.genome, &mut agents[d].body);
    let ghost mid = agents@;
    assert(attacker == (Agent { body: attacker.body, ..att0 }));
    assert(mid[d as int] == (Agent { body: mid[d as int].body, ..before[defender as int] }));
    agents.insert(a, attacker);
    assert(agents@[a as int] == attacker);
    assert(agents@[defender as int] == mid[d as int]);
    proof {
        assert(first_with_id(before, marker.attacker, a as int));
        assert forall|i: int| 0 <= i < agents@.len() && i != a && i != defender
            implies #[trigger] agents@[i] == before[i] by {
            if i < a {
                if a < defender {
                    assert(agents@[i] == before[i]);
                }
            }
        }
    }
    Some(killed)
}

} // verus!
