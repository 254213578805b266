use colony_sim::actions::{action_processor_system, step_toward, ActionStep};
use colony_sim::agent::Agent;
use colony_sim::components::{
    AtomicAction, Brain, EntityId, EnvironmentalData, Generation, Genome, Motivation, Need,
    PhysicalBody, Position, ReproductionStatus, Skill, Targeting, Task, Zone, ZoneType,
};
use colony_sim::genetics::{
    can_reproduce, mutate_genome, mutate_genome_with, mutate_trait_with, reproduce_with,
    reproduction_system, spawn_child,
};
use colony_sim::motivation::{
    choose_motivation, remotivate_selected, remotivate_system, task_for, thinking_system,
};
use colony_sim::needs::{
    metabolic_cost, metabolic_drain_system, needs_status_system, photosynthesis_system,
};
use colony_sim::registry::set_already_targetted;
use colony_sim::resolver::{resolve_pass, Candidate, Resolution};
use colony_sim::tasks::{
    task_bridge_system, task_bridge_with, task_system_play, task_system_sleep, task_system_zone, zone_candidates,
    Recovery, SleepOutcome, ZoneSite,
};
use rand::rngs::StdRng;
use rand::SeedableRng;

fn id(index: u32) -> EntityId {
    EntityId { index, generation: 0 }
}

fn at(x: i32, y: i32) -> Position {
    Position { x, y, z: 0 }
}

fn body(energy: i64, max: i64) -> PhysicalBody {
    PhysicalBody { energy_storage: energy, energy_max: max, health: 100_000, ..Default::default() }
}

fn need(current: i64, rate: i64) -> Need {
    Need { current, max: 100_000, rate, low: 10_000, normal: 25_000, high: 80_000 }
}

fn agent(index: u32, position: Position, task: Option<Task>) -> Agent {
    Agent {
        id: id(index),
        position,
        body: body(90_000, 100_000),
        genome: None,
        brain: Brain { task, ..Default::default() },
        generation: None,
        reproduction: None,
        targeting: None,
        pathing: None,
    }
}

fn genome() -> Genome {
    Genome {
        size: 1_000, mobility: 1_000, sensory_range: 15_000, physical_strength: 1_000,
        metabolic_efficiency: 800, diet_type: 500, thermal_tolerance: 15_000, aggression: 200,
        sociality: 800, mutation_rate: 50, weight_hunger: 1_000, weight_fatigue: 1_000,
        weight_social: 1_000,
    }
}

fn in_ranges(g: &Genome) -> bool {
    (100..=5_000).contains(&g.size)
        && (100..=5_000).contains(&g.mobility)
        && (1_000..=50_000).contains(&g.sensory_range)
        && (100..=5_000).contains(&g.physical_strength)
        && (100..=950).contains(&g.metabolic_efficiency)
        && (0..=1_000).contains(&g.diet_type)
        && (0..=50_000).contains(&g.thermal_tolerance)
        && (0..=1_000).contains(&g.aggression)
        && (0..=1_000).contains(&g.sociality)
        && (10..=200).contains(&g.mutation_rate)
        && (0..=2_500).contains(&g.weight_hunger)
        && (0..=2_500).contains(&g.weight_fatigue)
        && (0..=2_500).contains(&g.weight_social)
}

#[test]
fn distance_rounds_to_nearest() {
    assert_eq!(at(0, 0).distance(&at(3, 4)), 5);
    assert_eq!(at(0, 0).distance(&at(1, 1)), 1);
    assert_eq!(Position { x: 0, y: 0, z: 0 }.distance(&Position { x: 1, y: 1, z: 1 }), 2);
    assert_eq!(at(0, 0).distance(&at(2, 1)), 2);
    assert_eq!(at(5, 5).distance(&at(5, 5)), 0);
    assert_eq!(at(i32::MIN, 0).distance(&at(i32::MAX, 0)), 4_294_967_295);
}

#[test]
fn repeated_decay_stays_within_bounds() {
    let mut n = need(5_000, 1_500);
    for _ in 0..100 {
        n.decay();
        assert!(n.current >= 0 && n.current <= n.max);
    }
    assert_eq!(n.current, 0);
    let mut m = need(5_000, 1_500);
    m.decay();
    assert_eq!(m.current, 3_500);
}

#[test]
fn needs_status_decays_every_need() {
    let mut b = body(10_000, 10_000);
    b.needs_food = Some(need(50_000, 100));
    b.needs_sleep = Some(need(50, 100));
    needs_status_system(&mut b);
    assert_eq!(b.needs_food.unwrap().current, 49_900);
    assert_eq!(b.needs_sleep.unwrap().current, 0);
    assert!(b.needs_entertainment.is_none());
}

#[test]
fn starving_agent_is_marked_in_the_same_tick() {
    let mut b = body(50, 100_000);
    assert!(metabolic_drain_system(&mut b, &None));
    assert_eq!(b.energy_storage, 0);
    let mut healthy = body(1_000, 100_000);
    assert!(!metabolic_drain_system(&mut healthy, &None));
    assert_eq!(healthy.energy_storage, 900);
}

#[test]
fn metabolic_cost_scales_with_genome() {
    assert_eq!(metabolic_cost(&None), 100);
    // 1^1.5 * 0.7 + 1 * 0.3 + 0.1 = 1.1 times the base 0.1.
    assert_eq!(metabolic_cost(&Some(genome())), 110);
    let big = Genome { size: 4_000, mobility: 2_000, ..genome() };
    // 4^1.5 * 0.7 + 2 * 0.3 + 0.1 = 6.3 times the base 0.1.
    assert_eq!(metabolic_cost(&Some(big)), 630);
}

#[test]
fn photosynthesis_depends_on_diet_and_fertility() {
    let plant = Genome { diet_type: 0, ..genome() };
    let mut b = body(10_000, 100_000);
    let env = Some(EnvironmentalData { temperature: 0, humidity: 0, fertility: 1_000 });
    photosynthesis_system(&mut b, &plant, &env);
    assert_eq!(b.energy_storage, 10_200);
    let carnivore = Genome { diet_type: 1_000, ..genome() };
    photosynthesis_system(&mut b, &carnivore, &env);
    assert_eq!(b.energy_storage, 10_200);
    let mut full = body(99_950, 100_000);
    photosynthesis_system(&mut full, &plant, &env);
    assert_eq!(full.energy_storage, 100_000);
}

#[test]
fn motivation_picks_highest_score_with_fixed_tie_order() {
    let mut b = body(100_000, 100_000);
    assert_eq!(choose_motivation(&b, &None), Motivation::Idle);
    b.needs_sleep = Some(need(5_000, 100));
    b.needs_entertainment = Some(need(5_000, 100));
    // Tired (score 190 with weight 1) beats Bored (190 * 1) only by the tie order.
    assert_eq!(choose_motivation(&b, &None), Motivation::Tired);
    b.needs_food = Some(need(5_000, 100));
    assert_eq!(choose_motivation(&b, &None), Motivation::Hunger);
    let sleepy = Genome { weight_fatigue: 2_000, ..genome() };
    assert_eq!(choose_motivation(&b, &Some(sleepy)), Motivation::Tired);
}

#[test]
fn low_energy_makes_an_agent_hungry() {
    let b = body(70_000, 100_000);
    assert_eq!(choose_motivation(&b, &None), Motivation::Hunger);
    let b = body(80_000, 100_000);
    assert_eq!(choose_motivation(&b, &None), Motivation::Idle);
}

#[test]
fn motivation_maps_to_task() {
    let hunter = Genome { diet_type: 800, ..genome() };
    assert_eq!(task_for(Motivation::Hunger, &None), Task::Eat);
    assert_eq!(task_for(Motivation::Hunger, &Some(hunter)), Task::Hunt);
    assert_eq!(task_for(Motivation::Tired, &None), Task::Sleep);
    assert_eq!(task_for(Motivation::Bored, &None), Task::Play);
    assert_eq!(task_for(Motivation::Idle, &None), Task::Meander);
    assert_eq!(task_for(Motivation::Fear, &None), Task::Idle);
}

#[test]
fn queued_task_preempts_evaluation() {
    let mut brain = Brain { task_queue: vec![Task::Chop, Task::Eat], ..Default::default() };
    thinking_system(&mut brain, &body(10_000, 100_000), &None);
    assert_eq!(brain.task, Some(Task::Chop));
    assert_eq!(brain.task_queue, vec![Task::Eat]);
    assert_eq!(brain.motivation, None);
}

#[test]
fn remotivate_twice_is_idempotent() {
    let mut brain = Brain {
        task: Some(Task::Eat),
        task_queue: vec![Task::Chop],
        action: Some(AtomicAction::Scan),
        motivation: Some(Motivation::Hunger),
        ..Default::default()
    };
    brain.remotivate();
    let first = (brain.task, brain.task_queue.clone(), brain.motivation, brain.action);
    brain.remotivate();
    let second = (brain.task, brain.task_queue.clone(), brain.motivation, brain.action);
    assert_eq!(first, second);
    assert_eq!(first.0, None);
    assert!(first.1.is_empty());
    assert_eq!(first.2, None);
    assert_eq!(first.3, Some(AtomicAction::Scan));
}

#[test]
fn remotivation_rolls_per_agent() {
    let mut rng = StdRng::seed_from_u64(7);
    let mut brains: Vec<Brain> =
        (0..200).map(|_| Brain { task: Some(Task::Eat), ..Default::default() }).collect();
    remotivate_system(&mut brains, &mut rng);
    let cleared = brains.iter().filter(|b| b.task.is_none()).count();
    assert!(cleared > 0 && cleared < 200);
}

#[test]
fn no_two_agents_claim_the_same_target() {
    let mut agents = vec![
        agent(1, at(0, 0), Some(Task::Chop)),
        agent(2, at(1, 0), Some(Task::Chop)),
        agent(3, at(9, 9), Some(Task::Chop)),
    ];
    let trees = vec![
        Candidate { id: id(10), position: at(5, 0) },
        Candidate { id: id(11), position: at(6, 0) },
    ];
    let out = resolve_pass(&mut agents, Task::Chop, &trees);
    assert_eq!(out, vec![Resolution::Acquired(id(10)), Resolution::Acquired(id(11)), Resolution::NothingFound]);
    assert_eq!(agents[0].targeting, Some(Targeting { target: id(10), task: Task::Chop }));
    assert_eq!(agents[1].pathing.as_ref().unwrap().destination, at(6, 0));
    assert_eq!(agents[2].brain.task, None);
    assert_eq!(set_already_targetted(&agents), vec![id(10), id(11)]);
}

#[test]
fn existing_claims_are_respected() {
    let mut holder = agent(1, at(0, 0), Some(Task::Chop));
    holder.targeting = Some(Targeting { target: id(10), task: Task::Chop });
    let mut agents = vec![holder, agent(2, at(5, 1), Some(Task::Chop))];
    let trees = vec![
        Candidate { id: id(10), position: at(5, 0) },
        Candidate { id: id(11), position: at(8, 0) },
    ];
    let out = resolve_pass(&mut agents, Task::Chop, &trees);
    assert_eq!(out, vec![Resolution::Approaching(id(10)), Resolution::Acquired(id(11))]);
}

#[test]
fn ties_go_to_the_lowest_id() {
    let mut agents = vec![agent(1, at(0, 0), Some(Task::Forage))];
    let bushes = vec![
        Candidate { id: id(12), position: at(2, 0) },
        Candidate { id: id(4), position: at(-2, 0) },
        Candidate { id: id(8), position: at(0, 2) },
    ];
    let out = resolve_pass(&mut agents, Task::Forage, &bushes);
    assert_eq!(out, vec![Resolution::Acquired(id(4))]);
}

#[test]
fn adjacent_target_completes_and_vanished_target_is_dropped() {
    let mut near = agent(1, at(0, 0), Some(Task::Chop));
    near.targeting = Some(Targeting { target: id(10), task: Task::Chop });
    let mut stale = agent(2, at(0, 0), Some(Task::Chop));
    stale.targeting = Some(Targeting { target: id(99), task: Task::Chop });
    let idle = agent(3, at(0, 0), Some(Task::Sleep));
    let mut agents = vec![near, stale, idle];
    let trees = vec![Candidate { id: id(10), position: at(1, 0) }];
    let out = resolve_pass(&mut agents, Task::Chop, &trees);
    assert_eq!(out, vec![Resolution::Completed(id(10)), Resolution::Lost(id(99)), Resolution::Skipped]);
    assert!(agents[0].targeting.is_none());
    assert_eq!(agents[0].brain.task, None);
    assert!(agents[1].targeting.is_none());
    assert_eq!(agents[2].brain.task, Some(Task::Sleep));
}

#[test]
fn zone_work_skips_other_zones_and_obstacles() {
    let sites = vec![
        ZoneSite { id: id(20), position: at(1, 0), zone: Zone { zone_type: ZoneType::Farm } },
        ZoneSite { id: id(21), position: at(2, 0), zone: Zone { zone_type: ZoneType::Storage } },
        ZoneSite { id: id(22), position: at(3, 0), zone: Zone { zone_type: ZoneType::Farm } },
    ];
    let obstacles = vec![at(1, 0)];
    let cands = zone_candidates(&sites, &obstacles, Task::Plant);
    assert_eq!(cands, vec![Candidate { id: id(22), position: at(3, 0) }]);
    let mut agents = vec![agent(1, at(0, 0), Some(Task::Plant))];
    let out = task_system_zone(&mut agents, Task::Plant, &sites, &obstacles);
    assert_eq!(out, vec![Resolution::Acquired(id(22))]);
}

#[test]
fn play_raises_entertainment_until_full() {
    let mut a = agent(1, at(0, 0), Some(Task::Play));
    a.body.needs_entertainment = Some(need(90_000, 3_000));
    assert_eq!(task_system_play(&mut a), Some(Recovery::Recovering));
    assert_eq!(a.body.needs_entertainment.unwrap().current, 96_000);
    assert_eq!(task_system_play(&mut a), Some(Recovery::Full));
    assert_eq!(a.body.needs_entertainment.unwrap().current, 100_000);
    assert_eq!(a.brain.task, None);
    assert_eq!(task_system_play(&mut a), None);
}

#[test]
fn sleep_without_beds_rests_in_place() {
    let mut a = agent(1, at(0, 0), Some(Task::Sleep));
    a.body.needs_sleep = Some(need(50_000, 1_000));
    let beds: Vec<Candidate> = vec![];
    assert_eq!(task_system_sleep(&mut a, &beds), SleepOutcome::NoBed);
    assert_eq!(a.brain.task, Some(Task::Sleeping));
    assert_eq!(task_system_sleep(&mut a, &beds), SleepOutcome::Rested(Recovery::Recovering));
    assert_eq!(a.body.needs_sleep.unwrap().current, 52_000);
}

#[test]
fn sleep_heads_to_the_nearest_bed() {
    let mut a = agent(1, at(0, 0), Some(Task::Sleep));
    a.body.needs_sleep = Some(need(50_000, 1_000));
    let beds = vec![
        Candidate { id: id(30), position: at(9, 0) },
        Candidate { id: id(31), position: at(4, 0) },
    ];
    assert_eq!(task_system_sleep(&mut a, &beds), SleepOutcome::HeadingTo(id(31)));
    assert_eq!(a.pathing.as_ref().unwrap().destination, at(4, 0));
    assert_eq!(task_system_sleep(&mut a, &beds), SleepOutcome::Travelling);
    let mut b = agent(2, at(4, 1), Some(Task::Sleep));
    b.body.needs_sleep = Some(need(99_000, 1_000));
    assert_eq!(task_system_sleep(&mut b, &beds), SleepOutcome::Rested(Recovery::Full));
    assert_eq!(b.brain.task, None);
}

#[test]
fn meandering_moves_within_reach() {
    let mut rng = StdRng::seed_from_u64(3);
    let mut seen = std::collections::HashSet::new();
    for _ in 0..50 {
        let mut brain = Brain { task: Some(Task::Meander), ..Default::default() };
        task_bridge_system(&mut brain, &at(10, 10), &mut rng);
        assert_eq!(brain.task, None);
        match brain.action_queue[0] {
            AtomicAction::Move(d) => {
                assert!((d.x - 10).abs() <= 3 && (d.y - 10).abs() <= 3 && d.z == 0);
                seen.insert((d.x, d.y));
            }
            _ => panic!("expected a move"),
        }
    }
    assert!(seen.len() > 1);
    let mut idle = Brain { task: Some(Task::Idle), ..Default::default() };
    task_bridge_system(&mut idle, &at(0, 0), &mut rng);
    assert_eq!(idle.action_queue, vec![AtomicAction::Scan]);
}

#[test]
fn move_steps_each_axis_and_finishes() {
    assert_eq!(step_toward(&at(0, 0), &at(3, -2)), at(1, -1));
    let mut brain = Brain { action_queue: vec![AtomicAction::Move(at(2, 1)), AtomicAction::Scan], ..Default::default() };
    let mut pos = at(0, 0);
    assert_eq!(action_processor_system(&mut brain, &mut pos), ActionStep::Moving);
    assert_eq!(pos, at(1, 1));
    assert_eq!(action_processor_system(&mut brain, &mut pos), ActionStep::Moving);
    assert_eq!(pos, at(2, 1));
    assert_eq!(brain.action, Some(AtomicAction::Move(at(2, 1))));
    assert_eq!(action_processor_system(&mut brain, &mut pos), ActionStep::Arrived);
    assert_eq!(pos, at(2, 1));
    assert_eq!(brain.action, None);
    assert_eq!(action_processor_system(&mut brain, &mut pos), ActionStep::Scan);
    assert_eq!(action_processor_system(&mut brain, &mut pos), ActionStep::Idle);
}

#[test]
fn force_and_consume_actions_finish_in_one_tick() {
    let mut brain = Brain {
        action_queue: vec![AtomicAction::ApplyForce(id(5), 3_000), AtomicAction::Consume(id(6)), AtomicAction::Link(id(1), id(2))],
        ..Default::default()
    };
    let mut pos = at(0, 0);
    assert_eq!(action_processor_system(&mut brain, &mut pos), ActionStep::Force(id(5), 3_000));
    assert_eq!(brain.action, None);
    assert_eq!(action_processor_system(&mut brain, &mut pos), ActionStep::Consume(id(6)));
    assert_eq!(action_processor_system(&mut brain, &mut pos), ActionStep::Link(id(1), id(2)));
    assert_eq!(brain.action, None);
}

fn breeder() -> Agent {
    let mut a = agent(1, at(5, 5), None);
    a.genome = Some(genome());
    a.generation = Some(Generation { value: 4 });
    a.reproduction = Some(ReproductionStatus { energy_threshold: 50_000, last_reproduction_tick: 0 });
    a
}

#[test]
fn offspring_is_one_generation_later_with_bounded_energy() {
    let mut rng = StdRng::seed_from_u64(11);
    let mut born = None;
    for _ in 0..200 {
        let mut parent = breeder();
        if let Some(child) = reproduction_system(&mut parent, 500, id(2), &mut rng) {
            born = Some((parent, child));
            break;
        }
    }
    let (parent, child) = born.expect("an eligible agent reproduces eventually");
    assert_eq!(child.generation, Some(Generation { value: 5 }));
    assert!(child.body.energy_storage <= child.body.energy_max);
    assert_eq!(parent.body.energy_storage, 45_000);
    assert_eq!(parent.reproduction.unwrap().last_reproduction_tick, 500);
    let size = child.genome.unwrap().size;
    assert_eq!(child.body.energy_max, 100 * size);
    assert_eq!(child.body.energy_storage, 45_000.min(100 * size));
    assert!((child.position.x - 5).abs() <= 1 && (child.position.y - 5).abs() <= 1);
    assert_eq!(child.id, id(2));
}

#[test]
fn reproduction_needs_energy_and_cooldown() {
    let a = breeder();
    let status = a.reproduction.unwrap();
    assert!(can_reproduce(&a.body, &status, 101));
    assert!(!can_reproduce(&a.body, &status, 100));
    assert!(!can_reproduce(&body(40_000, 100_000), &status, 500));
    let mut rng = StdRng::seed_from_u64(5);
    for _ in 0..50 {
        let mut parent = breeder();
        assert!(reproduction_system(&mut parent, 50, id(2), &mut rng).is_none());
        assert_eq!(parent.body.energy_storage, 90_000);
    }
}

#[test]
fn mutation_keeps_traits_in_range() {
    let mut rng = StdRng::seed_from_u64(1);
    let mut g = Genome { mutation_rate: 200, ..genome() };
    let mut changed = false;
    for _ in 0..200 {
        let child = mutate_genome(&g, &mut rng);
        assert!(in_ranges(&child));
        assert!((child.size - g.size).abs() <= 100);
        changed |= child != g;
        g = Genome { mutation_rate: 200, ..child };
    }
    assert!(changed);
}

#[test]
fn genetic_distance_examples() {
    let g = genome();
    assert_eq!(g.genetic_distance(&g), 0);
    let h = Genome { size: 2_000, ..g };
    assert_eq!(g.genetic_distance(&h), 1_000);
    let m = Genome { mobility: 2_000, ..g };
    assert_eq!(g.genetic_distance(&m), 1_000);
    let d = Genome { diet_type: 600, aggression: 300, ..g };
    assert_eq!(g.genetic_distance(&d), 141);
}

#[test]
fn skill_level_is_square_root() {
    assert_eq!(Skill { experience: 400, exp_lost: 0 }.level(), 20);
    assert_eq!(Skill { experience: 399, exp_lost: 0 }.level(), 19);
    assert_eq!(Skill { experience: -5, exp_lost: 0 }.level(), 0);
}

#[test]
fn needs_at_or_above_normal_are_no_candidate() {
    let mut b = body(100_000, 100_000);
    b.needs_food = Some(need(5_000, 100));
    // A sleep need at its normal level, though below its low mark, asks for nothing.
    b.needs_sleep = Some(Need { current: 0, max: 100_000, rate: 100, low: 10_000, normal: 0, high: 80_000 });
    assert_eq!(choose_motivation(&b, &None), Motivation::Hunger);
    b.needs_food = None;
    assert_eq!(choose_motivation(&b, &None), Motivation::Idle);
}

#[test]
fn remotivation_follows_the_draws() {
    let mut brains: Vec<Brain> = (0..3).map(|_| Brain {
        task: Some(Task::Eat),
        action: Some(AtomicAction::Scan),
        motivation: Some(Motivation::Hunger),
        ..Default::default()
    }).collect();
    remotivate_selected(&mut brains, &vec![true, false, true]);
    assert_eq!(brains[0].task, None);
    assert_eq!(brains[0].motivation, None);
    assert_eq!(brains[0].action, Some(AtomicAction::Scan));
    assert_eq!(brains[1].task, Some(Task::Eat));
    assert_eq!(brains[2].task, None);
}

#[test]
fn mutation_follows_the_draws() {
    assert_eq!(mutate_trait_with(1_000, 100, 5_000, true, -100), 900);
    assert_eq!(mutate_trait_with(1_000, 100, 5_000, false, -100), 1_000);
    assert_eq!(mutate_trait_with(150, 100, 5_000, true, -100), 100);
    let g = Genome { weight_hunger: 2_500, ..genome() };
    let mut hits = vec![false; 13];
    hits[0] = true;
    hits[10] = true;
    let mut deltas = vec![0; 13];
    deltas[0] = 100;
    deltas[10] = 50;
    let child = mutate_genome_with(&g, &hits, &deltas);
    assert_eq!(child.size, 1_100);
    // A mutated weight is clamped to 0.1 ..= 2.
    assert_eq!(child.weight_hunger, 2_000);
    assert_eq!(child.mobility, g.mobility);
}

#[test]
fn reproduction_follows_gate_and_offset() {
    let mut parent = breeder();
    let child_genome = Genome { size: 300, ..genome() };
    assert!(reproduce_with(&mut parent, 500, id(2), false, child_genome, 1, 0).is_none());
    assert_eq!(parent.body.energy_storage, 90_000);
    let child = reproduce_with(&mut parent, 500, id(2), true, child_genome, 1, -1).unwrap();
    assert_eq!(child.position, at(6, 4));
    assert_eq!(child.genome, Some(child_genome));
    assert_eq!(child.generation, Some(Generation { value: 5 }));
    assert_eq!(child.body.energy_max, 30_000);
    assert_eq!(child.body.energy_storage, 30_000);
    assert_eq!(parent.body.energy_storage, 45_000);
    let mut tired = breeder();
    assert!(reproduce_with(&mut tired, 50, id(3), true, child_genome, 0, 0).is_none());
}

#[test]
fn spawned_child_is_capped() {
    let c = spawn_child(id(9), at(1, 1), &genome(), 7, 150_000);
    assert_eq!(c.generation, Some(Generation { value: 7 }));
    assert_eq!(c.body.energy_max, 100_000);
    assert_eq!(c.body.energy_storage, 100_000);
    assert_eq!(c.reproduction.unwrap().energy_threshold, 80_000);
    let d = spawn_child(id(9), at(1, 1), &genome(), 7, 20_000);
    assert_eq!(d.body.energy_storage, 20_000);
}

#[test]
fn meander_follows_the_offset() {
    let mut brain = Brain { task: Some(Task::Meander), ..Default::default() };
    task_bridge_with(&mut brain, &at(10, 10), -3, 2);
    assert_eq!(brain.action_queue, vec![AtomicAction::Move(at(7, 12))]);
    assert_eq!(brain.task, None);
    let mut busy = Brain { task: Some(Task::Meander), action: Some(AtomicAction::Scan), ..Default::default() };
    task_bridge_with(&mut busy, &at(0, 0), 1, 1);
    assert_eq!(busy.task, Some(Task::Meander));
    assert!(busy.action_queue.is_empty());
}

#[test]
fn leftover_claims_are_reclaimed() {
    let mut leftover = agent(1, at(0, 0), Some(Task::Sleep));
    leftover.targeting = Some(Targeting { target: id(10), task: Task::Chop });
    let mut agents = vec![leftover, agent(2, at(4, 0), Some(Task::Chop))];
    let trees = vec![Candidate { id: id(10), position: at(5, 0) }];
    let out = resolve_pass(&mut agents, Task::Chop, &trees);
    // The claim counted when the pass began, so the tree is free only from the next pass on.
    assert_eq!(out, vec![Resolution::Reclaimed(id(10)), Resolution::NothingFound]);
    assert!(agents[0].targeting.is_none());
    assert_eq!(agents[0].brain.task, Some(Task::Sleep));
    agents[1].brain.task = Some(Task::Chop);
    let out = resolve_pass(&mut agents, Task::Chop, &trees);
    assert_eq!(out, vec![Resolution::Skipped, Resolution::Acquired(id(10))]);
}
