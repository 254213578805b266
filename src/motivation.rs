//! Motivation scoring, selection and the mapping from motivation to task.
use vstd::prelude::*;
use crate::num::UNIT;
use crate::components::{Need, Genome, PhysicalBody, Brain, Motivation, Task};
use crate::brain::BrainView;
use crate::random::chance;
use rand::rngs::StdRng;

verus! {

/// A need that is completely empty scores 100 (in thousandths).
pub const FULL_SCORE: i64 = 100_000;
/// Multiplier for a need below its `low` threshold.
pub const SEVERE_MULTIPLIER: i64 = 2000;
/// Multiplier for a need between `low` and `normal`.
pub const MILD_MULTIPLIER: i64 = 1000;
/// Multiplier for hunger measured on stored energy.
pub const ENERGY_HUNGER_MULTIPLIER: i64 = 1500;
/// Diet above which a hungry agent hunts instead of eating (0.5).
pub const CARNIVORE_DIET: i64 = 500;
/// Chance, in tenths, that an agent is remotivated on a tick.
pub const REMOTIVATE_TENTHS: u32 = 1;

pub open spec fn genome_ok(g: Option<Genome>) -> bool {
    match g {
        Some(g) => g.wf(),
        None => true,
    }
}

/// `(1 - current / max) * 100`, in thousandths; 0 when `max` is 0.
pub open spec fn deficit_score(current: int, max: int) -> int {
    if max > 0 { (max - current) * FULL_SCORE / max } else { 0 }
}

pub open spec fn weighted(base: int, multiplier: int, weight: int) -> int {
    base * multiplier / 1000 * weight / 1000
}

/// The candidate score of a need: no candidate at or above `normal`; below it,
/// severe under `low` and mild otherwise.
pub open spec fn need_candidate(n: Option<Need>, weight: int) -> Option<int> {
    match n {
        Some(n) => if n.current >= n.normal {
            None
        } else if n.current < n.low {
            Some(weighted(deficit_score(n.current as int, n.max as int), SEVERE_MULTIPLIER as int, weight))
        } else {
            Some(weighted(deficit_score(n.current as int, n.max as int), MILD_MULTIPLIER as int, weight))
        },
        None => None,
    }
}

/// The hunger candidate on stored energy, present once storage is under 80% of its maximum.
pub open spec fn energy_candidate(b: PhysicalBody, weight: int) -> Option<int> {
    if b.energy_max > 0 && b.energy_storage * 5 < b.energy_max * 4 {
        Some(weighted(deficit_score(b.energy_storage as int, b.energy_max as int), ENERGY_HUNGER_MULTIPLIER as int, weight))
    } else {
        None
    }
}

pub open spec fn larger(a: Option<int>, b: Option<int>) -> Option<int> {
    match (a, b) {
        (Some(x), Some(y)) => Some(if x >= y { x } else { y }),
        (Some(x), None) => Some(x),
        (None, y) => y,
    }
}

pub open spec fn weight_hunger(g: Option<Genome>) -> int {
    match g { Some(g) => g.weight_hunger as int, None => UNIT as int }
}

pub open spec fn weight_fatigue(g: Option<Genome>) -> int {
    match g { Some(g) => g.weight_fatigue as int, None => UNIT as int }
}

pub open spec fn weight_social(g: Option<Genome>) -> int {
    match g { Some(g) => g.weight_social as int, None => UNIT as int }
}

pub open spec fn hunger_score(b: PhysicalBody, g: Option<Genome>) -> Option<int> {
    larger(energy_candidate(b, weight_hunger(g)), need_candidate(b.needs_food, weight_hunger(g)))
}

pub open spec fn tired_score(b: PhysicalBody, g: Option<Genome>) -> Option<int> {
    need_candidate(b.needs_sleep, weight_fatigue(g))
}

pub open spec fn bored_score(b: PhysicalBody, g: Option<Genome>) -> Option<int> {
    need_candidate(b.needs_entertainment, weight_social(g))
}

pub open spec fn at_least(x: int, o: Option<int>) -> bool {
    match o {
        Some(y) => x >= y,
        None => true,
    }
}

/// The highest-scoring candidate; ties go to Hunger, then Tired, then Bored;
/// no candidate at all is Idle.
pub open spec fn select(h: Option<int>, t: Option<int>, b: Option<int>) -> Motivation {
    if h is Some && at_least(h->0, t) && at_least(h->0, b) {
        Motivation::Hunger
    } else if t is Some && at_least(t->0, b) {
        Motivation::Tired
    } else if b is Some {
        Motivation::Bored
    } else {
        Motivation::Idle
    }
}

pub open spec fn motivation_spec(b: PhysicalBody, g: Option<Genome>) -> Motivation {
    select(hunger_score(b, g), tired_score(b, g), bored_score(b, g))
}

pub open spec fn task_spec(m: Motivation, g: Option<Genome>) -> Task {
    match m {
        Motivation::Hunger => match g {
            Some(g) if g.diet_type > CARNIVORE_DIET => Task::Hunt,
            _ => Task::Eat,
        },
        Motivation::Tired => Task::Sleep,
        Motivation::Bored => Task::Play,
        Motivation::Idle => Task::Meander,
        _ => Task::Idle,
    }
}

fn deficit(current: i64, max: i64) -> (r: i64)
    requires
        0 <= current <= max <= crate::num::LIMIT,
    ensures
        r == deficit_score(current as int, max as int),
        0 <= r <= FULL_SCORE,
{
    if max > 0 {
        proof {
            assert((max - current) * FULL_SCORE <= max * FULL_SCORE) by (nonlinear_arith)
                requires 0 <= current <= max;
            assert((max - current) * FULL_SCORE >= 0) by (nonlinear_arith)
                requires 0 <= current <= max;
            assert(((max - current) * FULL_SCORE) as int / (max as int) <= FULL_SCORE) by (nonlinear_arith)
                requires (max - current) * FULL_SCORE <= max * FULL_SCORE, max > 0;
        }
        (max - current) * FULL_SCORE / max
    } else {
        0
    }
}

fn weigh(base: i64, multiplier: i64, weight: i64) -> (r: i64)
    requires
        0 <= base <= FULL_SCORE,
        0 <= multiplier <= 2000,
        0 <= weight <= 2500,
    ensures
        r == weighted(base as int, multiplier as int, weight as int),
        0 <= r <= 500_000,
{
    proof {
        assert(0 <= base * multiplier <= FULL_SCORE * 2000) by (nonlinear_arith)
            requires 0 <= base <= FULL_SCORE, 0 <= multiplier <= 2000;
    }
    let a = base * multiplier / 1000;
    proof {
        assert(0 <= a * weight <= 200_000 * 2500) by (nonlinear_arith)
            requires 0 <= a <= 200_000, 0 <= weight <= 2500;
    }
    a * weight / 1000
}

fn score_need(n: &Option<Need>, weight: i64) -> (r: Option<i64>)
    requires
        crate::components::need_wf(*n),
        0 <= weight <= 2500,
    ensures
        r == match need_candidate(*n, weight as int) { Some(x) => Some(x as i64), None => None::<i64> },
        need_candidate(*n, weight as int) matches Some(x) ==> 0 <= x <= 500_000,
{
    match n {
        Some(n) => {
            if n.current >= n.normal {
                None
            } else if n.current < n.low {
                Some(weigh(deficit(n.current, n.max), SEVERE_MULTIPLIER, weight))
            } else {
                Some(weigh(deficit(n.current, n.max), MILD_MULTIPLIER, weight))
            }
        },
        None => None,
    }
}

fn pick_larger(a: Option<i64>, b: Option<i64>) -> (r: Option<i64>)
    ensures
        r == match larger(
            match a { Some(x) => Some(x as int), None => None::<int> },
            match b { Some(x) => Some(x as int), None => None::<int> },
        ) { Some(x) => Some(x as i64), None => None::<i64> },
{
    match (a, b) {
        (Some(x), Some(y)) => Some(if x >= y { x } else { y }),
        (Some(x), None) => Some(x),
        (None, y) => y,
    }
}

pub open spec fn as_int(o: Option<i64>) -> Option<int> {
    match o { Some(x) => Some(x as int), None => None }
}

/// Scores hunger, fatigue and boredom and picks the dominant motivation.
pub fn choose_motivation(body: &PhysicalBody, genome: &Option<Genome>) -> (m: Motivation)
    requires
        body.wf(),
        genome_ok(*genome),
    ensures
        m == motivation_spec(*body, *genome),
{
    let (wh, wf, ws) = match genome {
        Some(g) => (g.weight_hunger, g.weight_fatigue, g.weight_social),
        None => (UNIT, UNIT, UNIT),
    };
    let energy = if body.energy_max > 0 && body.energy_storage * 5 < body.energy_max * 4 {
        Some(weigh(deficit(body.energy_storage, body.energy_max), ENERGY_HUNGER_MULTIPLIER, wh))
    } else {
        None
    };
    let food = score_need(&body.needs_food, wh);
    let h = pick_larger(energy, food);
    let t = score_need(&body.needs_sleep, wf);
    let b = score_need(&body.needs_entertainment, ws);
    assert(as_int(h) == hunger_score(*body, *genome));
    assert(as_int(t) == tired_score(*body, *genome));
    assert(as_int(b) == bored_score(*body, *genome));
    let h_wins = match h {
        Some(x) => (match t { Some(y) => x >= y, None => true }) && (match b { Some(y) => x >= y, None => true }),
        None => false,
    };
    if h_wins {
        return Motivation::Hunger;
    }
    let t_wins = match t {
        Some(x) => match b { Some(y) => x >= y, None => true },
        None => false,
    };
    if t_wins {
        Motivation::Tired
    } else if b.is_some() {
        Motivation::Bored
    } else {
        Motivation::Idle
    }
}

/// Maps a motivation to the task that serves it.
pub fn task_for(m: Motivation, genome: &Option<Genome>) -> (t: Task)
    ensures
        t == task_spec(m, *genome),
{
    match m {
        Motivation::Hunger => match genome {
            Some(g) => if g.diet_type > CARNIVORE_DIET { Task::Hunt } else { Task::Eat },
            None => Task::Eat,
        },
        Motivation::Tired => Task::Sleep,
        Motivation::Bored => Task::Play,
        Motivation::Idle => Task::Meander,
        _ => Task::Idle,
    }
}

/// What thinking does to a brain: nothing while an action is in flight or queued
/// or a task is held; otherwise the head of the task queue becomes the task, or,
/// with an empty queue, the dominant motivation is chosen and mapped to a task.
pub open spec fn thought(v: BrainView, b: PhysicalBody, g: Option<Genome>) -> BrainView {
    if v.action is Some || v.action_queue.len() > 0 || v.task is Some {
        v
    } else if v.task_queue.len() > 0 {
        BrainView { task: Some(v.task_queue[0]), task_queue: v.task_queue.drop_first(), ..v }
    } else {
        let m = motivation_spec(b, g);
        BrainView { motivation: Some(m), task: Some(task_spec(m, g)), ..v }
    }
}

/// One pass of the motivation engine on an agent.
pub fn thinking_system(brain: &mut Brain, body: &PhysicalBody, genome: &Option<Genome>)
    requires
        body.wf(),
        genome_ok(*genome),
    ensures
        final(brain)@ == thought(old(brain)@, *body, *genome),
{
    if brain.action.is_some() || brain.action_queue.len() > 0 || brain.task.is_some() {
        return;
    }
    if brain.task_queue.len() > 0 {
        let head = brain.task_queue.remove(0);
        brain.task = Some(head);
        assert(brain.task_queue@ =~= old(brain).task_queue@.drop_first());
        return;
    }
    let m = choose_motivation(body, genome);
    brain.motivation = Some(m);
    brain.task = Some(task_for(m, genome));
}

/// Remotivates exactly the brains whose draw is true; the others are left as they were.
pub fn remotivate_selected(brains: &mut Vec<Brain>, draws: &Vec<bool>)
    requires
        draws@.len() == old(brains)@.len(),
    ensures
        final(brains)@.len() == old(brains)@.len(),
        forall|i: int| 0 <= i < final(brains)@.len() ==>
            (#[trigger] final(brains)@[i])@ == if draws@[i] { old(brains)@[i]@.remotivated() } else { old(brains)@[i]@ },
{
    let n = brains.len();
    let mut i: usize = 0;
    while i < n
        invariant
            n == old(brains)@.len(),
            draws@.len() == n,
            brains@.len() == n,
            i <= n,
            forall|j: int| i <= j < n ==> (#[trigger] brains@[j])@ == old(brains)@[j]@,
            forall|j: int| 0 <= j < i ==>
                (#[trigger] brains@[j])@ == if draws@[j] { old(brains)@[j]@.remotivated() } else { old(brains)@[j]@ },
        decreases n - i,
    {
        if draws[i] {
            let mut b = brains.remove(i);
            b.remotivate();
            brains.insert(i, b);
        }
        i += 1;
    }
}

/// Each brain, independently, is remotivated with a chance of one in ten: one
/// draw per brain, in order, then `remotivate_selected` on those draws.
pub fn remotivate_system(brains: &mut Vec<Brain>, rng: &mut StdRng)
    ensures
        final(brains)@.len() == old(brains)@.len(),
        forall|i: int| 0 <= i < final(brains)@.len() ==>
            (#[trigger] final(brains)@[i])@ == old(brains)@[i]@
            || final(brains)@[i]@ == old(brains)@[i]@.remotivated(),
{
    let mut draws: Vec<bool> = Vec::new();
    let mut i: usize = 0;
    while i < brains.len()
        invariant
            i <= brains@.len(),
            draws@.len() == i,
        decreases brains@.len() - i,
    {
        draws.push(chance(rng, REMOTIVATE_TENTHS, 10));
        i += 1;
    }
    remotivate_selected(brains, &draws);
}

} // verus!
