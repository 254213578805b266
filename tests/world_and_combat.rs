use colony_sim::agent::Agent;
use colony_sim::combat::{attacked_entities_system, combat_system_melee, Attackable, CombatDecision};
use colony_sim::components::{
    ActorType, Attacked, Brain, Danger, DangerType, EntityId, GameState, Generation, GeneratedBy,
    Genome, MaterialProperties, MenuStates, Nest, PersonalityTrait, PhysicalBody, Position,
    StrikeType, Targeting, Task, TileType, Skill,
};
use colony_sim::objects::{ItemType, Object};
use colony_sim::rendering::{
    mouse_move_system, mouse_to_position, position_to_translation, SpriteSheet, Translation,
    UniversalMeshAssets,
};
use colony_sim::tasks::{completion_effect, Completion, Harvest};
use colony_sim::templates::{genome_for, spawn_unit_from_template, TemplateKind, UnitTemplate};
use colony_sim::world::{
    keyboard_input, monster_generator_system, remove_bad_positions, movement_random, nest_system, remove_x_markers,
    seasons_system, spoilage_system, temporary_visual_elements_system, Food, MarkerLink,
    MonsterGenerator, Plant, TemporaryVisualElement,
};
use colony_sim::resolver::{Candidate, Resolution};
use colony_sim::tasks::{task_system_chop, task_system_eat, task_system_forage};
use colony_sim::components::Need;
use rand::rngs::StdRng;
use rand::SeedableRng;

fn id(index: u32) -> EntityId {
    EntityId { index, generation: 0 }
}

fn at(x: i32, y: i32) -> Position {
    Position { x, y, z: 0 }
}

fn fighter(index: u32, position: Position, task: Task) -> Agent {
    Agent {
        id: id(index),
        position,
        body: PhysicalBody { energy_storage: 50_000, energy_max: 100_000, health: 100_000, ..Default::default() },
        genome: None,
        brain: Brain { task: Some(task), ..Default::default() },
        generation: None,
        reproduction: None,
        targeting: None,
        pathing: None,
    }
}

fn prey(index: u32, position: Position, genome: Option<Genome>) -> Attackable {
    Attackable { id: id(index), position, genome }
}

#[test]
fn fighter_engages_nearest_body_in_range() {
    let mut a = fighter(1, at(0, 0), Task::Fight);
    let others = vec![prey(1, at(0, 0), None), prey(9, at(4, 0), None), prey(3, at(0, 3), None), prey(4, at(20, 0), None)];
    assert_eq!(combat_system_melee(&mut a, &others), CombatDecision::Engage(id(3)));
    assert_eq!(a.targeting, Some(Targeting { target: id(3), task: Task::Fight }));
    assert_eq!(a.pathing.as_ref().unwrap().destination, at(0, 3));
}

#[test]
fn fighter_with_nothing_in_range_remotivates() {
    let mut a = fighter(1, at(0, 0), Task::Fight);
    let others = vec![prey(4, at(20, 0), None)];
    assert_eq!(combat_system_melee(&mut a, &others), CombatDecision::NothingToFight);
    assert_eq!(a.brain.task, None);
}

#[test]
fn hunter_spares_its_own_species() {
    let g = genome_for(TemplateKind::Spider);
    let mut a = fighter(1, at(0, 0), Task::Hunt);
    a.genome = Some(g);
    let others = vec![prey(2, at(1, 0), Some(g)), prey(3, at(3, 0), Some(genome_for(TemplateKind::Rat)))];
    assert_eq!(combat_system_melee(&mut a, &others), CombatDecision::Engage(id(3)));
}

#[test]
fn attacked_agent_retaliates_or_forgets() {
    let mut a = fighter(1, at(0, 0), Task::Fight);
    a.body.danger = Some(Danger { danger_type: DangerType::Attacked, danger_source: Some(id(8)) });
    let others = vec![prey(2, at(1, 0), None), prey(8, at(6, 0), None)];
    assert_eq!(combat_system_melee(&mut a, &others), CombatDecision::Retaliate(id(8)));
    assert_eq!(a.targeting, Some(Targeting { target: id(8), task: Task::Fight }));

    let mut b = fighter(1, at(0, 0), Task::Fight);
    b.body.danger = Some(Danger { danger_type: DangerType::Attacked, danger_source: Some(id(8)) });
    let gone = vec![prey(2, at(1, 0), None)];
    assert_eq!(combat_system_melee(&mut b, &gone), CombatDecision::ThreatGone);
    assert!(b.body.danger.is_none());
    assert_eq!(b.brain.task, None);
}

#[test]
fn targeted_fighter_strikes_chases_or_loses() {
    let mut a = fighter(1, at(0, 0), Task::Fight);
    a.targeting = Some(Targeting { target: id(2), task: Task::Fight });
    assert_eq!(combat_system_melee(&mut a, &vec![prey(2, at(1, 1), None)]), CombatDecision::Strike(id(2)));
    assert_eq!(combat_system_melee(&mut a, &vec![prey(2, at(5, 0), None)]), CombatDecision::Chase(id(2)));
    assert_eq!(a.pathing.as_ref().unwrap().destination, at(5, 0));
    assert!(!a.pathing.as_ref().unwrap().moving_target);
    assert_eq!(combat_system_melee(&mut a, &vec![prey(2, at(6, 0), None)]), CombatDecision::Chase(id(2)));
    assert!(a.pathing.as_ref().unwrap().moving_target);
    assert_eq!(combat_system_melee(&mut a, &vec![]), CombatDecision::Lost(id(2)));
    assert!(a.targeting.is_none());
    let mut idle = fighter(3, at(0, 0), Task::Eat);
    assert_eq!(combat_system_melee(&mut idle, &vec![]), CombatDecision::Skipped);
}

#[test]
fn attack_marker_resolves_a_blow() {
    let mut attacker = fighter(1, at(0, 0), Task::Fight);
    attacker.body.attributes.strength = 10;
    attacker.body.skillset.brawling = Skill { experience: 400, exp_lost: 0 };
    let mut victim = fighter(2, at(1, 0), Task::Eat);
    victim.body.attributes.constitution = 4;
    let mut agents = vec![victim, attacker];
    let out = attacked_entities_system(&mut agents, 0, Attacked { attacker: id(1) });
    assert_eq!(out, Some(false));
    assert_eq!(agents[0].body.health, 73_000);
    assert_eq!(agents[0].body.danger.unwrap().danger_source, Some(id(1)));
    assert_eq!(attacked_entities_system(&mut agents, 0, Attacked { attacker: id(7) }), None);
    assert_eq!(attacked_entities_system(&mut agents, 1, Attacked { attacker: id(1) }), None);
}

#[test]
fn markers_of_a_target() {
    let links = vec![
        MarkerLink { marker: id(50), parent: id(1) },
        MarkerLink { marker: id(51), parent: id(2) },
        MarkerLink { marker: id(52), parent: id(1) },
    ];
    assert_eq!(remove_x_markers(&links, id(1)), vec![id(50), id(52)]);
    assert!(remove_x_markers(&links, id(3)).is_empty());
}

#[test]
fn nest_is_set_once() {
    let mut nest: Option<Nest> = None;
    let mut asked = true;
    nest_system(&at(2, 3), &mut nest, &mut asked);
    assert_eq!(nest.unwrap().position, at(2, 3));
    assert!(!asked);
    let mut again = true;
    nest_system(&at(9, 9), &mut nest, &mut again);
    assert_eq!(nest.unwrap().position, at(2, 3));
    assert!(again);
}

#[test]
fn pause_key_and_layers() {
    assert_eq!(keyboard_input(GameState::MainMenu, true, false, false, 0), (GameState::InGame, 0));
    assert_eq!(keyboard_input(GameState::InGame, true, false, false, 0), (GameState::Paused, 0));
    assert_eq!(keyboard_input(GameState::Paused, true, false, false, 0), (GameState::InGame, 0));
    assert_eq!(keyboard_input(GameState::InGame, false, true, false, 2), (GameState::InGame, 2));
    assert_eq!(keyboard_input(GameState::InGame, false, false, true, -3), (GameState::InGame, -3));
    assert_eq!(keyboard_input(GameState::InGame, false, true, false, 0), (GameState::InGame, 1));
}

#[test]
fn food_spoils_below_zero() {
    let mut f = Food { spoilage: 1_000, spoilage_rate: 600 };
    assert!(!spoilage_system(&mut f));
    assert_eq!(f.spoilage, 400);
    assert!(spoilage_system(&mut f));
}

#[test]
fn random_wandering_avoids_walls() {
    let mut rng = StdRng::seed_from_u64(9);
    let tiles = vec![(at(1, 0), TileType::Wall), (at(-1, 0), TileType::Grass), (at(0, 1), TileType::WallGame)];
    let mut moved_left = false;
    for _ in 0..40 {
        let mut p = at(0, 0);
        movement_random(&mut p, &tiles, &mut rng);
        assert!(p == at(0, 0) || p == at(-1, 0));
        moved_left |= p == at(-1, 0);
    }
    assert!(moved_left);
}

#[test]
fn generator_spawns_next_to_itself_once() {
    let mut rng = StdRng::seed_from_u64(21);
    let generator = MonsterGenerator { monsters: vec![(TemplateKind::Rat, 1), (TemplateKind::Crab, 1)] };
    assert_eq!(generator.pick(), TemplateKind::Rat);
    let tiles = vec![(at(0, 1), TileType::Dirt), (at(0, -1), TileType::Dirt), (at(1, 0), TileType::Dirt), (at(-1, 0), TileType::Dirt)];
    let mut spawned = None;
    for _ in 0..2000 {
        if let Some(s) = monster_generator_system(id(1), &Position { x: 0, y: 0, z: 2 }, &generator, &tiles, &vec![], &mut rng) {
            spawned = Some(s);
            break;
        }
    }
    let (pos, kind) = spawned.expect("a generator spawns eventually");
    assert_eq!(kind, TemplateKind::Rat);
    assert_eq!(pos.z, 2);
    assert_eq!((pos.x.abs() + pos.y.abs()), 1);
    let offspring = vec![GeneratedBy { entity: id(1) }];
    for _ in 0..500 {
        assert!(monster_generator_system(id(1), &at(0, 0), &generator, &tiles, &offspring, &mut rng).is_none());
    }
}

#[test]
fn spawning_from_templates() {
    let mut rng = StdRng::seed_from_u64(4);
    let human = UnitTemplate::human(&mut rng);
    assert_eq!(human.actor_type, ActorType::Man);
    assert_eq!(human.personality, vec![PersonalityTrait::Human]);
    let b = human.skillset.brawling.experience;
    assert!((500..700).contains(&b));
    assert_eq!(human.attributes.charisma, 4);
    let a = spawn_unit_from_template(&human, at(3, 3), id(5), &mut rng);
    assert_eq!(a.body.energy_max, 100_000);
    assert_eq!(a.body.energy_storage, 90_000);
    assert_eq!(a.generation, Some(Generation { value: 0 }));
    assert_eq!(a.reproduction.unwrap().energy_threshold, 80_000);
    let food = a.body.needs_food.unwrap();
    assert!((95_000..=105_000).contains(&food.max));
    assert!(food.current <= food.max && (85_000..=95_000).contains(&food.current));

    let cyclops = UnitTemplate::cyclops();
    let c = spawn_unit_from_template(&cyclops, at(0, 0), id(6), &mut rng);
    assert_eq!(c.body.energy_max, 250_000);
    assert_eq!(c.body.energy_storage, 225_000);
    assert!(c.body.needs_food.is_none());
    assert_eq!(UnitTemplate::rat().personality, vec![PersonalityTrait::Creature, PersonalityTrait::Territorial]);
    assert_eq!(UnitTemplate::for_kind(TemplateKind::Crab, &mut rng).actor_type, ActorType::Crab);
}

#[test]
fn completion_effects_per_task() {
    assert_eq!(completion_effect(Task::Eat), Completion::Eaten);
    assert_eq!(completion_effect(Task::Chop), Completion::Replaced(Harvest::Log));
    assert_eq!(completion_effect(Task::Forage), Completion::Regrown(500, Harvest::Berry));
    assert_eq!(completion_effect(Task::Plant), Completion::Spawned(Harvest::Crop));
    assert_eq!(completion_effect(Task::Meander), Completion::Nothing);
}

#[test]
fn cells_and_world_coordinates() {
    assert_eq!(at(2, -1).to_transform(), Translation { x: 64_000, y: -32_000, z: 0 });
    assert_eq!(Position { x: 0, y: 0, z: 3 }.to_transform().z, 300);
    assert_eq!(position_to_translation(1, 2, 3), Translation { x: 32_000, y: 64_000, z: 96_000 });
    assert_eq!(mouse_to_position(47_999, -16_000), Position { x: 1, y: -1, z: 0 });
    assert_eq!(mouse_to_position(48_000, 15_999), Position { x: 2, y: 0, z: 0 });
    let mut cursor = None;
    mouse_move_system(None, &mut cursor);
    assert!(cursor.is_none());
    mouse_move_system(Some((64_000, 0)), &mut cursor);
    assert_eq!(cursor, Some(at(2, 0)));
}

#[test]
fn named_assets_fall_back() {
    let assets = UniversalMeshAssets {
        meshes: vec![("tree".to_string(), 7), ("rock".to_string(), 8)],
        materials: vec![("bark".to_string(), 17)],
        cube: 1, sphere: 2, plane: 3, capsule: 4, cylinder: 5,
        material_white: 11, material_red: 12, material_green: 13, material_blue: 14, material_brown: 15,
    };
    assert_eq!(assets.get_mesh(&"rock".to_string()), 8);
    assert_eq!(assets.get_mesh(&"cloud".to_string()), 1);
    assert_eq!(assets.get_material(&"bark".to_string()), 17);
    assert_eq!(assets.get_material(&"glass".to_string()), 11);
    assert_eq!(SpriteSheet(4, 5), SpriteSheet { handle: 4, layout: 5 });
}

#[test]
fn lookup_tables() {
    assert_eq!(MenuStates::Zone.to_index(), 4);
    assert_eq!(ActorType::Woman.sprite_index(), 95);
    assert_eq!(ActorType::Crab.sprite_index(), 604);
    assert_eq!(StrikeType::Miss.sprite_index(), 1);
    assert!(TileType::WallGame.is_wall());
    assert!(!TileType::Water.is_wall());
    assert_eq!(TileType::Gravel.get_texture_coords(), (4, 0));
    assert_eq!(TileType::Dirt.material_properties(), MaterialProperties { mass: 1_500, hardness: 300, toughness: 500, energy_density: 100, conductivity: 400 });
    assert!(Task::Carrying.is_zone_task());
    assert!(!Task::Chop.is_zone_task());
    assert_eq!(Task::Chop.get_steps(), Task::Chop);
    assert_eq!(ItemType::Log.sprite_index(), 94 * 64 + 30);
    assert_eq!(ItemType::Berry.material_properties().energy_density, 50_000);
    assert!(!ItemType::Tree.passable());
    assert!(!Object::default().passable());
    assert!(Object { itemtype: ItemType::Log, remaining_resources: vec![], under_construction: false }.passable());
}

#[test]
fn plants_grow_until_full() {
    let mut p = Plant { growth: 400, plant_type: ItemType::Bush };
    assert!(!seasons_system(&mut p));
    assert_eq!(p.growth, 450);
    assert!(seasons_system(&mut p));
    assert_eq!(p.growth, 500);
    let mut full = Plant { growth: 1_000, plant_type: ItemType::Tree };
    assert!(!seasons_system(&mut full));
    assert_eq!(full.growth, 1_000);
}

#[test]
fn visual_elements_expire() {
    let mut e = TemporaryVisualElement { duration: 200 };
    assert!(!temporary_visual_elements_system(&mut e, 150));
    assert!(temporary_visual_elements_system(&mut e, 50));
}

#[test]
fn two_eaters_one_meal() {
    let mut a = fighter(1, at(0, 0), Task::Eat);
    a.body.needs_food = Some(Need { current: 1_000, max: 100_000, rate: 100, low: 10_000, normal: 25_000, high: 80_000 });
    let b = fighter(2, at(0, 1), Task::Eat);
    let mut agents = vec![a, b];
    let meal = vec![Candidate { id: id(40), position: at(3, 0) }];
    let out = task_system_eat(&mut agents, &meal);
    assert_eq!(out, vec![Resolution::Acquired(id(40)), Resolution::NothingFound]);
    agents[0].position = at(2, 0);
    agents[0].pathing = None;
    let out = task_system_eat(&mut agents, &meal);
    assert_eq!(out[0], Resolution::Completed(id(40)));
    assert_eq!(agents[0].body.needs_food.unwrap().current, 100_000);
}

#[test]
fn chop_and_forage_use_their_own_task() {
    let mut agents = vec![fighter(1, at(0, 0), Task::Chop), fighter(2, at(0, 0), Task::Forage)];
    let trees = vec![Candidate { id: id(60), position: at(4, 4) }];
    assert_eq!(task_system_chop(&mut agents, &trees), vec![Resolution::Acquired(id(60)), Resolution::Skipped]);
    let bushes = vec![Candidate { id: id(61), position: at(-4, 4) }];
    assert_eq!(task_system_forage(&mut agents, &bushes), vec![Resolution::Skipped, Resolution::Acquired(id(61))]);
}

#[test]
fn entities_off_the_map_or_in_walls_are_removed() {
    let tiles = vec![(at(0, 0), TileType::Grass), (at(1, 0), TileType::Wall)];
    let entities = vec![(id(1), at(0, 0)), (id(2), at(1, 0)), (id(3), at(5, 5))];
    assert_eq!(remove_bad_positions(&entities, &tiles), vec![id(2), id(3)]);
}

#[test]
fn fighter_drops_a_claim_from_another_task() {
    let mut a = fighter(1, at(0, 0), Task::Hunt);
    a.targeting = Some(Targeting { target: id(2), task: Task::Eat });
    assert_eq!(combat_system_melee(&mut a, &vec![prey(2, at(1, 0), None)]), CombatDecision::Reclaimed(id(2)));
    assert!(a.targeting.is_none());
    assert_eq!(a.brain.task, Some(Task::Hunt));
}
