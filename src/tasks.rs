//! The task families built on the shared resolver: eating, gathering, zone work,
//! sleeping, playing and meandering.
use vstd::prelude::*;
use crate::components::{
    EntityId, Position, Need, PhysicalBody, Task, Zone, ZoneType, AtomicAction, Pathing, Brain,
    adjacent, need_wf,
};
use crate::agent::Agent;
use crate::brain::BrainView;
use crate::registry::claims_of;
use crate::resolver::{
    Candidate, Resolution, resolve_pass, resolution_spec, effect_spec, claims_before, is_nearest,
    nearest_unclaimed,
};
use crate::registry::TargetClaimRegistry;
use crate::random::pick_between;
use rand::rngs::StdRng;

verus! {

/// Growth a foraged plant falls back to (0.5).
pub const FORAGED_GROWTH: i64 = 500;
/// Growth of a freshly planted crop (0.4).
pub const PLANTED_GROWTH: i64 = 400;
/// How far, per axis, a meandering agent wanders.
pub const MEANDER_REACH: i64 = 3;

/// The kind of item a task completion leaves behind.
#[derive(PartialEq, Eq, Structural, Clone, Copy, Debug)]
pub enum Harvest {
    Log,
    Berry,
    Crop,
    Building,
}

/// What the world must do when an agent completes a task at its target.
#[derive(PartialEq, Eq, Structural, Clone, Copy, Debug)]
pub enum Completion {
    /// Despawn the target; the agent's food need is restored.
    Eaten,
    /// Despawn the target and spawn an item at its position.
    Replaced(Harvest),
    /// Keep the target, set its growth, and spawn an item at its position.
    Regrown(i64, Harvest),
    /// Keep the target and spawn an item at its position.
    Spawned(Harvest),
    /// Nothing beyond clearing the agent's targeting.
    Nothing,
}

pub open spec fn completion_spec(task: Task) -> Completion {
    match task {
        Task::Eat => Completion::Eaten,
        Task::Chop => Completion::Replaced(Harvest::Log),
        Task::Forage => Completion::Regrown(FORAGED_GROWTH, Harvest::Berry),
        Task::Plant => Completion::Spawned(Harvest::Crop),
        Task::Construct => Completion::Spawned(Harvest::Building),
        _ => Completion::Nothing,
    }
}

/// The effect on the world of completing `task` at its target.
pub fn completion_effect(task: Task) -> (r: Completion)
    ensures
        r == completion_spec(task),
{
    match task {
        Task::Eat => Completion::Eaten,
        Task::Chop => Completion::Replaced(Harvest::Log),
        Task::Forage => Completion::Regrown(FORAGED_GROWTH, Harvest::Berry),
        Task::Plant => Completion::Spawned(Harvest::Crop),
        Task::Construct => Completion::Spawned(Harvest::Building),
        _ => Completion::Nothing,
    }
}

pub open spec fn refilled(n: Option<Need>) -> Option<Need> {
    match n {
        Some(n) => Some(Need { current: n.max, ..n }),
        None => None,
    }
}

/// One pass of chopping: the shared resolver over the choppable trees.
/// Completing at a target calls for the world effect `completion_effect(Task::Chop)`.
pub fn task_system_chop(agents: &mut Vec<Agent>, trees: &Vec<Candidate>) -> (out: Vec<Resolution>)
    ensures
        final(agents)@.len() == old(agents)@.len(),
        out@.len() == old(agents)@.len(),
        forall|i: int| 0 <= i < out@.len() ==> {
            &&& resolution_spec(old(agents)@[i], Task::Chop, trees@,
                    claims_before(claims_of(old(agents)@), out@, i as nat), #[trigger] out@[i])
            &&& effect_spec(old(agents)@[i], final(agents)@[i], trees@,
                    claims_before(claims_of(old(agents)@), out@, i as nat), out@[i])
        },
        forall|i: int, j: int| 0 <= i < out@.len() && 0 <= j < out@.len() && i != j
            && (#[trigger] out@[i]) is Acquired && (#[trigger] out@[j]) is Acquired
            ==> out@[i]->Acquired_0 != out@[j]->Acquired_0,
        forall|i: int| 0 <= i < out@.len() && (#[trigger] out@[i]) is Acquired
            ==> !claims_of(old(agents)@).contains(out@[i]->Acquired_0),
{
    resolve_pass(agents, Task::Chop, trees)
}

/// One pass of foraging: the shared resolver over the foragable plants.
/// Completing at a target calls for the world effect `completion_effect(Task::Forage)`.
pub fn task_system_forage(agents: &mut Vec<Agent>, plants: &Vec<Candidate>) -> (out: Vec<Resolution>)
    ensures
        final(agents)@.len() == old(agents)@.len(),
        out@.len() == old(agents)@.len(),
        forall|i: int| 0 <= i < out@.len() ==> {
            &&& resolution_spec(old(agents)@[i], Task::Forage, plants@,
                    claims_before(claims_of(old(agents)@), out@, i as nat), #[trigger] out@[i])
            &&& effect_spec(old(agents)@[i], final(agents)@[i], plants@,
                    claims_before(claims_of(old(agents)@), out@, i as nat), out@[i])
        },
        forall|i: int, j: int| 0 <= i < out@.len() && 0 <= j < out@.len() && i != j
            && (#[trigger] out@[i]) is Acquired && (#[trigger] out@[j]) is Acquired
            ==> out@[i]->Acquired_0 != out@[j]->Acquired_0,
        forall|i: int| 0 <= i < out@.len() && (#[trigger] out@[i]) is Acquired
            ==> !claims_of(old(agents)@).contains(out@[i]->Acquired_0),
{
    resolve_pass(agents, Task::Forage, plants)
}

/// One pass of the eating task: the shared resolver over the food candidates; an
/// agent that completes at its food has its food need restored to its maximum.
pub fn task_system_eat(agents: &mut Vec<Agent>, foods: &Vec<Candidate>) -> (out: Vec<Resolution>)
    requires
        forall|i: int| 0 <= i < old(agents)@.len() ==> (#[trigger] old(agents)@[i]).wf(),
    ensures
        final(agents)@.len() == old(agents)@.len(),
        out@.len() == old(agents)@.len(),
        forall|i: int| 0 <= i < out@.len() ==> {
            &&& resolution_spec(old(agents)@[i], Task::Eat, foods@,
                    claims_before(claims_of(old(agents)@), out@, i as nat), #[trigger] out@[i])
            &&& effect_spec(old(agents)@[i], Agent { body: old(agents)@[i].body, ..final(agents)@[i] },
                    foods@, claims_before(claims_of(old(agents)@), out@, i as nat), out@[i])
            &&& final(agents)@[i].body == if out@[i] is Completed {
                    PhysicalBody { needs_food: refilled(old(agents)@[i].body.needs_food), ..old(agents)@[i].body }
                } else {
                    old(agents)@[i].body
                }
            &&& final(agents)@[i].wf()
        },
        forall|i: int, j: int| 0 <= i < out@.len() && 0 <= j < out@.len() && i != j
            && (#[trigger] out@[i]) is Acquired && (#[trigger] out@[j]) is Acquired
            ==> out@[i]->Acquired_0 != out@[j]->Acquired_0,
        forall|i: int| 0 <= i < out@.len() && (#[trigger] out@[i]) is Acquired
            ==> !claims_of(old(agents)@).contains(out@[i]->Acquired_0),
{
    let ghost start = agents@;
    let out = resolve_pass(agents, Task::Eat, foods);
    let ghost mid = agents@;
    let n = agents.len();
    proof {
        assert forall|j: int| 0 <= j < n implies mid[j].body == start[j].body by {
            let r = out@[j];
        }
    }
    let mut i: usize = 0;
    while i < n
        invariant
            n == mid.len(),
            n == start.len(),
            agents@.len() == n,
            out@.len() == n,
            i <= n,
            forall|j: int| i <= j < n ==> agents@[j] == mid[j],
            forall|j: int| 0 <= j < n ==> mid[j].body == start[j].body,
            forall|j: int| 0 <= j < n ==> (#[trigger] start[j]).wf(),
            forall|j: int| 0 <= j < i ==> {
                &&& Agent { body: mid[j].body, ..#[trigger] agents@[j] } == mid[j]
                &&& agents@[j].body == if out@[j] is Completed {
                        PhysicalBody { needs_food: refilled(mid[j].body.needs_food), ..mid[j].body }
                    } else {
                        mid[j].body
                    }
            },
        decreases n - i,
    {
        if let Resolution::Completed(_) = out[i] {
            let mut a = agents.remove(i);
            match &mut a.body.needs_food {
                Some(need) => {
                    need.current = need.max;
                },
                None => {},
            }
            agents.insert(i, a);
        }
        i += 1;
    }
    proof {
        assert forall|j: int| 0 <= j < n implies #[trigger] agents@[j] == Agent { body: agents@[j].body, ..mid[j] } by {
            assert(Agent { body: mid[j].body, ..agents@[j] } == mid[j]);
        }
    }
    out
}

/// A zone serves a task: farms for planting, construction sites for building,
/// storage for carrying.
pub open spec fn zone_serves(zone_type: ZoneType, task: Task) -> bool {
    match zone_type {
        ZoneType::Farm => task == Task::Plant,
        ZoneType::Construction => task == Task::Construct,
        ZoneType::Storage => task == Task::Carrying,
        ZoneType::Avoid => false,
    }
}

pub fn zone_matches(zone_type: ZoneType, task: Task) -> (r: bool)
    ensures
        r == zone_serves(zone_type, task),
{
    match zone_type {
        ZoneType::Farm => task == Task::Plant,
        ZoneType::Construction => task == Task::Construct,
        ZoneType::Storage => task == Task::Carrying,
        ZoneType::Avoid => false,
    }
}

/// A cell of a designated zone.
#[derive(PartialEq, Eq, Structural, Clone, Copy, Debug)]
pub struct ZoneSite {
    pub id: EntityId,
    pub position: Position,
    pub zone: Zone,
}

pub open spec fn occupied(obstacles: Seq<Position>, p: Position) -> bool {
    exists|k: int| 0 <= k < obstacles.len() && obstacles[k] == p
}

pub open spec fn site_eligible(s: ZoneSite, task: Task, obstacles: Seq<Position>) -> bool {
    zone_serves(s.zone.zone_type, task) && !occupied(obstacles, s.position)
}

fn is_occupied(obstacles: &Vec<Position>, p: Position) -> (r: bool)
    ensures
        r == occupied(obstacles@, p),
{
    let mut i: usize = 0;
    while i < obstacles.len()
        invariant
            i <= obstacles@.len(),
            forall|k: int| 0 <= k < i ==> obstacles@[k] != p,
        decreases obstacles@.len() - i,
    {
        if obstacles[i] == p {
            return true;
        }
        i += 1;
    }
    false
}

/// The zone cells that serve `task` and hold no obstacle, in order, as resolver candidates.
pub fn zone_candidates(sites: &Vec<ZoneSite>, obstacles: &Vec<Position>, task: Task) -> (r: Vec<Candidate>)
    ensures
        r@ == sites@.filter(|s: ZoneSite| site_eligible(s, task, obstacles@))
            .map_values(|s: ZoneSite| Candidate { id: s.id, position: s.position }),
{
    let mut r: Vec<Candidate> = Vec::new();
    let mut i: usize = 0;
    while i < sites.len()
        invariant
            i <= sites@.len(),
            r@ == sites@.take(i as int).filter(|s: ZoneSite| site_eligible(s, task, obstacles@))
                .map_values(|s: ZoneSite| Candidate { id: s.id, position: s.position }),
        decreases sites@.len() - i,
    {
        let s = sites[i];
        proof {
            assert(sites@.take(i as int + 1).drop_last() =~= sites@.take(i as int));
            reveal(Seq::filter);
        }
        if zone_matches(s.zone.zone_type, task) && !is_occupied(obstacles, s.position) {
            r.push(Candidate { id: s.id, position: s.position });
            assert(r@ =~= sites@.take(i as int + 1).filter(|s: ZoneSite| site_eligible(s, task, obstacles@))
                .map_values(|s: ZoneSite| Candidate { id: s.id, position: s.position }));
        } else {
            assert(r@ =~= sites@.take(i as int + 1).filter(|s: ZoneSite| site_eligible(s, task, obstacles@))
                .map_values(|s: ZoneSite| Candidate { id: s.id, position: s.position }));
        }
        i += 1;
    }
    assert(sites@.take(sites@.len() as int) =~= sites@);
    r
}

/// One pass of zone work (planting, construction, carrying): the shared resolver
/// over the zone cells that serve each agent's task and are free of obstacles.
pub fn task_system_zone(agents: &mut Vec<Agent>, task: Task, sites: &Vec<ZoneSite>, obstacles: &Vec<Position>) -> (out: Vec<Resolution>)
    requires
        task == Task::Plant || task == Task::Construct || task == Task::Carrying,
    ensures
        final(agents)@.len() == old(agents)@.len(),
        out@.len() == old(agents)@.len(),
        forall|i: int| 0 <= i < out@.len() ==> {
            let cands = sites@.filter(|s: ZoneSite| site_eligible(s, task, obstacles@))
                .map_values(|s: ZoneSite| Candidate { id: s.id, position: s.position });
            &&& resolution_spec(old(agents)@[i], task, cands,
                    claims_before(claims_of(old(agents)@), out@, i as nat), #[trigger] out@[i])
            &&& effect_spec(old(agents)@[i], final(agents)@[i], cands,
                    claims_before(claims_of(old(agents)@), out@, i as nat), out@[i])
        },
        forall|i: int, j: int| 0 <= i < out@.len() && 0 <= j < out@.len() && i != j
            && (#[trigger] out@[i]) is Acquired && (#[trigger] out@[j]) is Acquired
            ==> out@[i]->Acquired_0 != out@[j]->Acquired_0,
{
    let cands = zone_candidates(sites, obstacles, task);
    resolve_pass(agents, task, &cands)
}

/// The need after resting or playing for a tick: raised by twice its rate, capped at `max`.
pub open spec fn replenished(n: Need) -> Need {
    Need { current: if n.current + 2 * n.rate >= n.max { n.max } else { (n.current + 2 * n.rate) as i64 }, ..n }
}

pub open spec fn fills(n: Need) -> bool {
    n.current + 2 * n.rate >= n.max
}

/// What a tick of resting or playing did.
#[derive(PartialEq, Eq, Structural, Clone, Copy, Debug)]
pub enum Recovery {
    /// The agent has no such need.
    NoNeed,
    /// The need rose and is not yet full.
    Recovering,
    /// The need is full: the agent was remotivated.
    Full,
}

/// Raises a need by twice its rate; when it reaches its maximum the brain is remotivated.
fn replenish(need: &mut Option<Need>, brain: &mut Brain) -> (r: Recovery)
    requires
        need_wf(*old(need)),
    ensures
        need_wf(*final(need)),
        match *old(need) {
            Some(n) => {
                &&& *final(need) == Some(replenished(n))
                &&& if fills(n) {
                        r == Recovery::Full && final(brain)@ == old(brain)@.remotivated()
                    } else {
                        r == Recovery::Recovering && *final(brain) == *old(brain)
                    }
            },
            None => r == Recovery::NoNeed && *final(need) == *old(need) && *final(brain) == *old(brain),
        },
{
    match need {
        Some(n) => {
            let raised = n.current + 2 * n.rate;
            if raised >= n.max {
                n.current = n.max;
                brain.remotivate();
                Recovery::Full
            } else {
                n.current = raised;
                Recovery::Recovering
            }
        },
        None => Recovery::NoNeed,
    }
}

/// One tick of play: an agent whose task is `Play` raises its entertainment need
/// at twice its normal rate; once full it is remotivated. Returns `None` for
/// agents with another task, which are left unchanged.
pub fn task_system_play(agent: &mut Agent) -> (r: Option<Recovery>)
    requires
        old(agent).wf(),
    ensures
        final(agent).wf(),
        old(agent).brain.task != Some(Task::Play) ==> r is None && *final(agent) == *old(agent),
        old(agent).brain.task == Some(Task::Play) ==> match old(agent).body.needs_entertainment {
            Some(n) => {
                &&& final(agent).body == PhysicalBody { needs_entertainment: Some(replenished(n)), ..old(agent).body }
                &&& if fills(n) {
                        r == Some(Recovery::Full) && final(agent).brain@ == old(agent).brain@.remotivated()
                    } else {
                        r == Some(Recovery::Recovering) && final(agent).brain == old(agent).brain
                    }
                &&& final(agent).targeting == old(agent).targeting
                &&& final(agent).pathing == old(agent).pathing
            },
            None => r == Some(Recovery::NoNeed) && *final(agent) == *old(agent),
        },
{
    if agent.brain.task != Some(Task::Play) {
        return None;
    }
    Some(replenish(&mut agent.body.needs_entertainment, &mut agent.brain))
}

/// What a tick of the sleeping task did.
#[derive(PartialEq, Eq, Structural, Clone, Copy, Debug)]
pub enum SleepOutcome {
    /// The agent's task is neither `Sleep` nor `Sleeping`.
    Skipped,
    /// A movement request is pending.
    Travelling,
    /// The agent rested (in a bed, or in place).
    Rested(Recovery),
    /// Movement towards the nearest bed was requested.
    HeadingTo(EntityId),
    /// There is no bed anywhere: the task became resting in place.
    NoBed,
}

pub open spec fn bed_adjacent(p: Position, beds: Seq<Candidate>) -> bool {
    exists|k: int| 0 <= k < beds.len() && adjacent(p, (#[trigger] beds[k]).position)
}

pub open spec fn rest_effect(a: Agent, b: Agent, r: SleepOutcome) -> bool {
    match a.body.needs_sleep {
        Some(n) => {
            &&& b.body == PhysicalBody { needs_sleep: Some(replenished(n)), ..a.body }
            &&& b.targeting == a.targeting
            &&& b.pathing == a.pathing
            &&& if fills(n) {
                    r == SleepOutcome::Rested(Recovery::Full) && b.brain@ == a.brain@.remotivated()
                } else {
                    r == SleepOutcome::Rested(Recovery::Recovering) && b.brain == a.brain
                }
        },
        None => r == SleepOutcome::Rested(Recovery::NoNeed) && b == a,
    }
}

/// One tick of the sleeping task. An agent whose task is `Sleep` rests when a bed
/// is adjacent, otherwise requests movement to the nearest bed (ties to the lowest
/// id); with no bed anywhere its task becomes `Sleeping`, which rests in place.
pub fn task_system_sleep(agent: &mut Agent, beds: &Vec<Candidate>) -> (r: SleepOutcome)
    requires
        old(agent).wf(),
    ensures
        final(agent).wf(),
        final(agent).id == old(agent).id,
        final(agent).position == old(agent).position,
        old(agent).brain.task == Some(Task::Sleeping) ==> rest_effect(*old(agent), *final(agent), r),
        old(agent).brain.task == Some(Task::Sleep) ==> {
            if old(agent).pathing is Some {
                r == SleepOutcome::Travelling && *final(agent) == *old(agent)
            } else if bed_adjacent(old(agent).position, beds@) {
                rest_effect(*old(agent), *final(agent), r)
            } else if beds@.len() > 0 {
                exists|k: int| is_nearest(old(agent).position, beds@, Seq::empty(), k)
                    && r == SleepOutcome::HeadingTo(beds@[k].id)
                    && final(agent).pathing is Some
                    && final(agent).pathing->0.destination == beds@[k].position
                    && final(agent).body == old(agent).body
                    && final(agent).brain == old(agent).brain
                    && final(agent).targeting == old(agent).targeting
            } else {
                &&& r == SleepOutcome::NoBed
                &&& final(agent).brain@ == BrainView { task: Some(Task::Sleeping), ..old(agent).brain@ }
                &&& final(agent).body == old(agent).body
                &&& final(agent).pathing == old(agent).pathing
                &&& final(agent).targeting == old(agent).targeting
            }
        },
        old(agent).brain.task != Some(Task::Sleep) && old(agent).brain.task != Some(Task::Sleeping)
            ==> r == SleepOutcome::Skipped && *final(agent) == *old(agent),
{
    if agent.brain.task == Some(Task::Sleeping) {
        return SleepOutcome::Rested(replenish(&mut agent.body.needs_sleep, &mut agent.brain));
    }
    if agent.brain.task != Some(Task::Sleep) {
        return SleepOutcome::Skipped;
    }
    if agent.pathing.is_some() {
        return SleepOutcome::Travelling;
    }
    let mut i: usize = 0;
    while i < beds.len()
        invariant
            i <= beds@.len(),
            *agent == *old(agent),
            old(agent).wf(),
            old(agent).brain.task == Some(Task::Sleep),
            old(agent).pathing is None,
            forall|k: int| 0 <= k < i ==> !adjacent(agent.position, (#[trigger] beds@[k]).position),
        decreases beds@.len() - i,
    {
        let d = agent.position.distance(&beds[i].position);
        if d <= 1 {
            assert(adjacent(agent.position, beds@[i as int].position));
            return SleepOutcome::Rested(replenish(&mut agent.body.needs_sleep, &mut agent.brain));
        }
        i += 1;
    }
    let none_claimed = TargetClaimRegistry::new();
    match nearest_unclaimed(&agent.position, beds, &none_claimed) {
        Some(k) => {
            let bed = beds[k];
            agent.pathing = Some(Pathing {
                path: Vec::new(),
                destination: bed.position,
                moving_target: false,
                unreachable: false,
            });
            SleepOutcome::HeadingTo(bed.id)
        },
        None => {
            proof {
                if beds@.len() > 0 {
                    assert(!Seq::<EntityId>::empty().contains(beds@[0].id));
                }
            }
            agent.brain.task = Some(Task::Sleeping);
            SleepOutcome::NoBed
        },
    }
}

/// The cell `delta` away from `c` on one axis.
pub open spec fn shifted(c: i32, delta: i64) -> int {
    c + delta
}

/// What the task bridge does for a meander offset `(dx, dy)`: with no action in
/// flight or queued, `Meander` queues a move to the cell `(dx, dy)` away (same z)
/// and `Idle` queues a scan, both clearing the task; anything else is left alone.
pub open spec fn bridged(v: BrainView, pos: Position, dx: int, dy: int) -> BrainView {
    if v.action is Some || v.action_queue.len() > 0 {
        v
    } else if v.task == Some(Task::Meander) {
        BrainView {
            task: None,
            action_queue: seq![AtomicAction::Move(Position { x: (pos.x + dx) as i32, y: (pos.y + dy) as i32, z: pos.z })],
            ..v
        }
    } else if v.task == Some(Task::Idle) {
        BrainView { task: None, action_queue: seq![AtomicAction::Scan], ..v }
    } else {
        v
    }
}

/// The task bridge with the meander offset given.
pub fn task_bridge_with(brain: &mut Brain, pos: &Position, dx: i64, dy: i64)
    requires
        -MEANDER_REACH <= dx <= MEANDER_REACH,
        -MEANDER_REACH <= dy <= MEANDER_REACH,
        i32::MIN + MEANDER_REACH <= pos.x <= i32::MAX - MEANDER_REACH,
        i32::MIN + MEANDER_REACH <= pos.y <= i32::MAX - MEANDER_REACH,
    ensures
        final(brain)@ == bridged(old(brain)@, *pos, dx as int, dy as int),
{
    if brain.action.is_some() || brain.action_queue.len() > 0 {
        return;
    }
    if brain.task == Some(Task::Meander) {
        let dest = Position { x: (pos.x as i64 + dx) as i32, y: (pos.y as i64 + dy) as i32, z: pos.z };
        brain.action_queue.push(AtomicAction::Move(dest));
        brain.task = None;
        assert(brain.action_queue@ =~= seq![AtomicAction::Move(dest)]);
    } else if brain.task == Some(Task::Idle) {
        brain.action_queue.push(AtomicAction::Scan);
        brain.task = None;
        assert(brain.action_queue@ =~= seq![AtomicAction::Scan]);
    }
}

/// Turns the generic tasks into atomic actions: a meandering agent draws an
/// offset of at most three cells on each of x and y, then `task_bridge_with`.
pub fn task_bridge_system(brain: &mut Brain, pos: &Position, rng: &mut StdRng)
    requires
        i32::MIN + MEANDER_REACH <= pos.x <= i32::MAX - MEANDER_REACH,
        i32::MIN + MEANDER_REACH <= pos.y <= i32::MAX - MEANDER_REACH,
    ensures
        exists|dx: int, dy: int| -MEANDER_REACH <= dx <= MEANDER_REACH && -MEANDER_REACH <= dy <= MEANDER_REACH
            && final(brain)@ == #[trigger] bridged(old(brain)@, *pos, dx, dy),
{
    let meanders = brain.action.is_none() && brain.action_queue.len() == 0 && brain.task == Some(Task::Meander);
    let (dx, dy) = if meanders {
        (pick_between(rng, -MEANDER_REACH, MEANDER_REACH), pick_between(rng, -MEANDER_REACH, MEANDER_REACH))
    } else {
        (0, 0)
    };
    task_bridge_with(brain, pos, dx, dy);
    assert(brain@ == bridged(old(brain)@, *pos, dx as int, dy as int));
}

} // verus!
