use colony_sim::actions::{apply_force, consume};
use colony_sim::agent::Agent;
use colony_sim::combat::{do_melee_damage, melee_damage};
use colony_sim::components::{
    Attributeset, Brain, DangerType, EntityId, Genome, MaterialProperties, Motivation, Need,
    PhysicalBody, Position, Skill, Task,
};
use colony_sim::motivation::{choose_motivation, thinking_system};
use colony_sim::resolver::{Candidate, Resolution};
use colony_sim::tasks::task_system_eat;

fn id(index: u32) -> EntityId {
    EntityId { index, generation: 0 }
}

fn body(energy: i64, max: i64) -> PhysicalBody {
    PhysicalBody { energy_storage: energy, energy_max: max, health: 100_000, ..Default::default() }
}

fn agent(index: u32, at: Position, body: PhysicalBody) -> Agent {
    Agent {
        id: id(index),
        position: at,
        body,
        genome: None,
        brain: Brain::default(),
        generation: None,
        reproduction: None,
        targeting: None,
        pathing: None,
    }
}

fn material(hardness: i64, toughness: i64, energy_density: i64) -> MaterialProperties {
    MaterialProperties { mass: 1000, hardness, toughness, energy_density, conductivity: 0 }
}

#[test]
fn hungry_agent_without_food_remotivates() {
    let mut b = body(100_000, 100_000);
    b.needs_food = Some(Need { current: 5_000, max: 100_000, rate: 100, low: 10_000, normal: 25_000, high: 80_000 });
    assert_eq!(choose_motivation(&b, &None), Motivation::Hunger);

    let mut agents = vec![agent(1, Position { x: 0, y: 0, z: 0 }, b)];
    let current = agents[0].body.clone();
    thinking_system(&mut agents[0].brain, &current, &None);
    assert_eq!(agents[0].brain.motivation, Some(Motivation::Hunger));
    assert_eq!(agents[0].brain.task, Some(Task::Eat));

    let foods: Vec<Candidate> = vec![];
    let out = task_system_eat(&mut agents, &foods);
    assert_eq!(out, vec![Resolution::NothingFound]);
    assert_eq!(agents[0].brain.task, None);
    assert_eq!(agents[0].brain.motivation, None);
    assert!(agents[0].brain.task_queue.is_empty());
}

#[test]
fn force_destroys_a_brittle_object() {
    let m = material(1_000, 1_500, 0);
    let mut target: Option<PhysicalBody> = None;
    let out = apply_force(3_000, &m, &mut target);
    assert_eq!(out.damage, 2_000);
    assert!(out.destroyed);
    assert_eq!(out.feedback.shake_timer, 200);
}

#[test]
fn force_below_hardness_still_does_minimum_damage() {
    let m = material(5_000, 10_000, 0);
    let mut target: Option<PhysicalBody> = None;
    let out = apply_force(1_000, &m, &mut target);
    assert_eq!(out.damage, 100);
    assert!(!out.destroyed);
}

#[test]
fn force_on_a_body_lowers_its_health() {
    let m = material(1_000, 1_500, 0);
    let mut target = Some(body(10_000, 10_000));
    let out = apply_force(3_000, &m, &mut target);
    assert!(!out.destroyed);
    assert_eq!(target.unwrap().health, 98_000);
}

#[test]
fn consuming_adds_scaled_intake() {
    let m = material(100, 100, 2_000);
    let mut actor = body(50_000, 100_000);
    let mut target: Option<PhysicalBody> = None;
    let destroyed = consume(&mut actor, &m, &mut target);
    assert!(destroyed);
    assert_eq!(actor.energy_storage, 60_000);
}

#[test]
fn consuming_caps_at_maximum() {
    let m = material(100, 100, 2_000);
    let mut actor = body(95_000, 100_000);
    let mut target: Option<PhysicalBody> = None;
    consume(&mut actor, &m, &mut target);
    assert_eq!(actor.energy_storage, 100_000);
}

#[test]
fn consuming_a_living_target_drains_it() {
    let m = material(100, 100, 1_000);
    let mut actor = body(0, 100_000);
    let mut target = Some(body(12_000, 20_000));
    assert!(!consume(&mut actor, &m, &mut target));
    assert_eq!(target.as_ref().unwrap().energy_storage, 7_000);
    assert_eq!(actor.energy_storage, 5_000);
    let mut small = Some(body(5_000, 20_000));
    assert!(consume(&mut actor, &m, &mut small));
    assert_eq!(small.unwrap().energy_storage, 0);
}

fn fighter(strength: i32, brawling: i32) -> PhysicalBody {
    let mut b = body(50_000, 100_000);
    b.attributes = Attributeset { strength, ..Default::default() };
    b.skillset.brawling = Skill { experience: brawling, exp_lost: 0 };
    b
}

fn defender(constitution: i32, health: i64) -> PhysicalBody {
    let mut b = body(40_000, 100_000);
    b.attributes = Attributeset { constitution, ..Default::default() };
    b.health = health;
    b
}

#[test]
fn melee_damage_example() {
    assert_eq!(melee_damage(&fighter(10, 400), &defender(4, 100_000)), 27);
}

#[test]
fn melee_damage_is_capped() {
    assert_eq!(melee_damage(&fighter(100, 10_000), &defender(0, 100_000)), 41);
    assert_eq!(melee_damage(&fighter(0, 0), &defender(50, 100_000)), 1);
}

#[test]
fn non_lethal_blow_marks_danger() {
    let mut a = fighter(10, 400);
    let mut d = defender(4, 100_000);
    let killed = do_melee_damage(id(7), &mut a, &None, &mut d);
    assert!(!killed);
    assert_eq!(d.health, 73_000);
    let danger = d.danger.unwrap();
    assert_eq!(danger.danger_type, DangerType::Attacked);
    assert_eq!(danger.danger_source, Some(id(7)));
}

#[test]
fn lethal_blow_feeds_a_carnivore() {
    let mut a = fighter(10, 400);
    let g = Genome { diet_type: 1_000, ..carnivore() };
    let mut d = defender(4, 20_000);
    let killed = do_melee_damage(id(7), &mut a, &Some(g), &mut d);
    assert!(killed);
    // (100 * 0.5 + 40) * 1.0 = 90 on top of 50, capped at 100.
    assert_eq!(a.energy_storage, 100_000);
    assert!(d.danger.is_none());
}

#[test]
fn lethal_blow_feeds_in_proportion_to_diet() {
    let mut a = fighter(10, 400);
    a.energy_storage = 0;
    let g = Genome { diet_type: 500, ..carnivore() };
    let mut d = defender(4, 27_000);
    assert!(do_melee_damage(id(7), &mut a, &Some(g), &mut d));
    assert_eq!(a.energy_storage, 45_000);
}

fn carnivore() -> Genome {
    Genome {
        size: 1_000, mobility: 1_000, sensory_range: 15_000, physical_strength: 1_000,
        metabolic_efficiency: 800, diet_type: 1_000, thermal_tolerance: 15_000, aggression: 500,
        sociality: 500, mutation_rate: 50, weight_hunger: 1_000, weight_fatigue: 1_000,
        weight_social: 1_000,
    }
}
