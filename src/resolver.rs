//! The shared target-resolution algorithm of the task families: complete at an
//! adjacent target, wait while approaching, or claim the nearest unclaimed candidate.
use vstd::prelude::*;
use crate::components::{EntityId, Position, Task, Targeting, Pathing, id_le, grid_distance, adjacent};
use crate::agent::{Agent, same_but_decisions};
use crate::registry::{TargetClaimRegistry, claims_of};

verus! {

/// An eligible target of a task family and where it stands.
#[derive(PartialEq, Eq, Structural, Clone, Copy, Debug)]
pub struct Candidate {
    pub id: EntityId,
    pub position: Position,
}

/// What one resolver pass did for one agent.
#[derive(PartialEq, Eq, Structural, Clone, Copy, Debug)]
pub enum Resolution {
    /// The agent's task is not the one being resolved.
    Skipped,
    /// The agent was adjacent to its target: the task's effect is due; targeting and
    /// movement request were dropped and the agent remotivated.
    Completed(EntityId),
    /// The target is still eligible but not adjacent: the pathing collaborator closes in.
    Approaching(EntityId),
    /// The target is no longer eligible: targeting and movement request dropped, agent remotivated.
    Lost(EntityId),
    /// The targeting was left over from another task: it and the movement request
    /// are dropped, so its target is free again.
    Reclaimed(EntityId),
    /// No target yet, but a movement request is pending.
    Travelling,
    /// A new target was claimed and movement towards it requested.
    Acquired(EntityId),
    /// No eligible unclaimed candidate: the agent was remotivated.
    NothingFound,
}

/// Candidate `a` is at least as good as `b` seen from `from`: nearer, or equally
/// near with the lower entity id.
pub open spec fn no_worse(from: Position, a: Candidate, b: Candidate) -> bool {
    grid_distance(from, a.position) < grid_distance(from, b.position)
    || (grid_distance(from, a.position) == grid_distance(from, b.position) && id_le(a.id, b.id))
}

/// `k` indexes the best candidate whose id is not claimed.
pub open spec fn is_nearest(from: Position, cands: Seq<Candidate>, claims: Seq<EntityId>, k: int) -> bool {
    &&& 0 <= k < cands.len()
    &&& !claims.contains(cands[k].id)
    &&& forall|j: int| 0 <= j < cands.len() && !claims.contains(#[trigger] cands[j].id)
            ==> no_worse(from, cands[k], cands[j])
}

pub open spec fn some_unclaimed(cands: Seq<Candidate>, claims: Seq<EntityId>) -> bool {
    exists|j: int| 0 <= j < cands.len() && !claims.contains(#[trigger] cands[j].id)
}

pub open spec fn target_listed(cands: Seq<Candidate>, t: EntityId) -> bool {
    exists|j: int| 0 <= j < cands.len() && (#[trigger] cands[j]).id == t
}

pub open spec fn target_adjacent(from: Position, cands: Seq<Candidate>, t: EntityId) -> bool {
    exists|j: int| 0 <= j < cands.len() && (#[trigger] cands[j]).id == t && adjacent(from, cands[j].position)
}

/// The resolution owed to agent `a` for `task`, given the eligible candidates and the claims.
pub open spec fn resolution_spec(a: Agent, task: Task, cands: Seq<Candidate>, claims: Seq<EntityId>, r: Resolution) -> bool {
    if a.targeting is Some && a.brain.task != Some(a.targeting->0.task) {
        r == Resolution::Reclaimed(a.targeting->0.target)
    } else if a.brain.task != Some(task) {
        r == Resolution::Skipped
    } else {
        match a.targeting {
            Some(tg) => if target_adjacent(a.position, cands, tg.target) {
                r == Resolution::Completed(tg.target)
            } else if target_listed(cands, tg.target) {
                r == Resolution::Approaching(tg.target)
            } else {
                r == Resolution::Lost(tg.target)
            },
            None => if a.pathing is Some {
                r == Resolution::Travelling
            } else if some_unclaimed(cands, claims) {
                exists|k: int| is_nearest(a.position, cands, claims, k) && r == Resolution::Acquired(cands[k].id)
            } else {
                r == Resolution::NothingFound
            },
        }
    }
}

/// How the agent changes with resolution `r`.
pub open spec fn effect_spec(a: Agent, b: Agent, cands: Seq<Candidate>, claims: Seq<EntityId>, r: Resolution) -> bool {
    &&& same_but_decisions(a, b)
    &&& match r {
        Resolution::Skipped | Resolution::Approaching(_) | Resolution::Travelling => b == a,
        Resolution::Completed(_) | Resolution::Lost(_) | Resolution::NothingFound => {
            &&& b.targeting is None
            &&& b.pathing is None
            &&& b.brain@ == a.brain@.remotivated()
        },
        Resolution::Reclaimed(_) => b == (Agent { targeting: None, pathing: None, ..a }),
        Resolution::Acquired(t) => {
            &&& b.targeting == Some(Targeting { target: t, task: a.brain.task->0 })
            &&& b.brain == a.brain
            &&& b.pathing is Some
            &&& exists|k: int| is_nearest(a.position, cands, claims, k) && cands[k].id == t
                    && b.pathing->0.destination == cands[k].position
        },
    }
}

/// Index of the nearest candidate not in `registry`; ties go to the lowest entity id.
pub fn nearest_unclaimed(from: &Position, cands: &Vec<Candidate>, registry: &TargetClaimRegistry) -> (r: Option<usize>)
    ensures
        r is None <==> !some_unclaimed(cands@, registry@),
        r matches Some(k) ==> is_nearest(*from, cands@, registry@, k as int),
{
    let mut best: Option<usize> = None;
    let mut best_dist: i64 = 0;
    let mut i: usize = 0;
    while i < cands.len()
        invariant
            i <= cands@.len(),
            best is None ==> forall|j: int| 0 <= j < i ==> registry@.contains(#[trigger] cands@[j].id),
            best matches Some(k) ==> {
                &&& k < i
                &&& !registry@.contains(cands@[k as int].id)
                &&& best_dist == grid_distance(*from, cands@[k as int].position)
                &&& forall|j: int| 0 <= j < i && !registry@.contains(#[trigger] cands@[j].id)
                        ==> no_worse(*from, cands@[k as int], cands@[j])
            },
        decreases cands@.len() - i,
    {
        let c = cands[i];
        if !registry.contains(&c.id) {
            let d = from.distance(&c.position);
            match best {
                None => {
                    best = Some(i);
                    best_dist = d;
                },
                Some(k) => {
                    if d < best_dist || (d == best_dist && c.id.precedes(&cands[k].id) && !cands[k].id.precedes(&c.id)) {
                        best = Some(i);
                        best_dist = d;
                    }
                },
            }
        }
        i += 1;
    }
    best
}

/// Runs the resolution algorithm for one agent whose task may be `task`.
pub fn resolve_agent(agent: &mut Agent, task: Task, cands: &Vec<Candidate>, registry: &mut TargetClaimRegistry) -> (r: Resolution)
    ensures
        resolution_spec(*old(agent), task, cands@, old(registry)@, r),
        effect_spec(*old(agent), *final(agent), cands@, old(registry)@, r),
        final(registry)@ == match r {
            Resolution::Acquired(t) => old(registry)@.push(t),
            _ => old(registry)@,
        },
{
    match agent.targeting {
        Some(tg) => {
            if agent.brain.task != Some(tg.task) {
                agent.targeting = None;
                agent.pathing = None;
                return Resolution::Reclaimed(tg.target);
            }
        },
        None => {},
    }
    if agent.brain.task != Some(task) {
        return Resolution::Skipped;
    }
    match agent.targeting {
        Some(tg) => {
            let mut listed = false;
            let mut i: usize = 0;
            while i < cands.len()
                invariant
                    i <= cands@.len(),
                    *agent == *old(agent),
                    old(agent).targeting == Some(tg),
                    old(agent).brain.task == Some(task),
                    old(agent).brain.task == Some(tg.task),
                    listed == exists|j: int| 0 <= j < i && (#[trigger] cands@[j]).id == tg.target,
                    forall|j: int| 0 <= j < i && (#[trigger] cands@[j]).id == tg.target
                        ==> !adjacent(agent.position, cands@[j].position),
                decreases cands@.len() - i,
            {
                let c = cands[i];
                if c.id == tg.target {
                    listed = true;
                    let d = agent.position.distance(&c.position);
                    if d <= 1 {
                        assert(adjacent(old(agent).position, cands@[i as int].position));
                        assert(target_adjacent(old(agent).position, cands@, tg.target));
                        agent.targeting = None;
                        agent.pathing = None;
                        agent.brain.remotivate();
                        return Resolution::Completed(tg.target);
                    }
                }
                i += 1;
            }
            if listed {
                Resolution::Approaching(tg.target)
            } else {
                agent.targeting = None;
                agent.pathing = None;
                agent.brain.remotivate();
                Resolution::Lost(tg.target)
            }
        },
        None => {
            if agent.pathing.is_some() {
                return Resolution::Travelling;
            }
            match nearest_unclaimed(&agent.position, cands, registry) {
                Some(k) => {
                    let c = cands[k];
                    agent.targeting = Some(Targeting { target: c.id, task });
                    agent.pathing = Some(Pathing {
                        path: Vec::new(),
                        destination: c.position,
                        moving_target: false,
                        unreachable: false,
                    });
                    registry.claim(c.id);
                    Resolution::Acquired(c.id)
                },
                None => {
                    agent.brain.remotivate();
                    Resolution::NothingFound
                },
            }
        },
    }
}

/// The claims in force when agent `i` is visited: the claims at the start of the
/// pass, followed by the targets acquired by the agents before it.
pub open spec fn claims_before(initial: Seq<EntityId>, out: Seq<Resolution>, i: nat) -> Seq<EntityId>
    decreases i,
{
    if i == 0 {
        initial
    } else {
        let c = claims_before(initial, out, (i - 1) as nat);
        match out[i - 1] {
            Resolution::Acquired(t) => c.push(t),
            _ => c,
        }
    }
}

/// One resolver pass of a task family over all agents. The claim registry is
/// built from every agent's targeting before any new acquisition; each agent
/// whose task is `task` is then resolved in turn.
#[verifier::rlimit(60)]
pub fn resolve_pass(agents: &mut Vec<Agent>, task: Task, cands: &Vec<Candidate>) -> (out: Vec<Resolution>)
    ensures
        final(agents)@.len() == old(agents)@.len(),
        out@.len() == old(agents)@.len(),
        forall|i: int| 0 <= i < out@.len() ==> {
            &&& resolution_spec(old(agents)@[i], task, cands@,
                    claims_before(claims_of(old(agents)@), out@, i as nat), #[trigger] out@[i])
            &&& effect_spec(old(agents)@[i], final(agents)@[i], cands@,
                    claims_before(claims_of(old(agents)@), out@, i as nat), out@[i])
        },
        // No two agents newly acquire the same target, and no new acquisition
        // takes a target that was claimed when the pass began.
        forall|i: int, j: int| 0 <= i < out@.len() && 0 <= j < out@.len() && i != j
            && (#[trigger] out@[i]) is Acquired && (#[trigger] out@[j]) is Acquired
            ==> out@[i]->Acquired_0 != out@[j]->Acquired_0,
        forall|i: int| 0 <= i < out@.len() && (#[trigger] out@[i]) is Acquired
            ==> !claims_of(old(agents)@).contains(out@[i]->Acquired_0),
{
    let ghost initial = claims_of(agents@);
    let mut registry = TargetClaimRegistry::build(agents);
    let mut out: Vec<Resolution> = Vec::new();
    let n = agents.len();
    let mut i: usize = 0;
    while i < n
        invariant
            n == old(agents)@.len(),
            agents@.len() == n,
            i <= n,
            out@.len() == i,
            initial == claims_of(old(agents)@),
            registry@ == claims_before(initial, out@, i as nat),
            forall|j: int| i <= j < n ==> agents@[j] == old(agents)@[j],
            forall|j: int| 0 <= j < i ==> {
                &&& resolution_spec(old(agents)@[j], task, cands@,
                        claims_before(initial, out@, j as nat), #[trigger] out@[j])
                &&& effect_spec(old(agents)@[j], agents@[j], cands@,
                        claims_before(initial, out@, j as nat), out@[j])
            },
            forall|j: int| 0 <= j < i && (#[trigger] out@[j]) is Acquired
                ==> registry@.contains(out@[j]->Acquired_0),
            forall|j: int, l: int| 0 <= j < i && 0 <= l < i && j != l
                && (#[trigger] out@[j]) is Acquired && (#[trigger] out@[l]) is Acquired
                ==> out@[j]->Acquired_0 != out@[l]->Acquired_0,
            forall|j: int| 0 <= j < i && (#[trigger] out@[j]) is Acquired
                ==> !initial.contains(out@[j]->Acquired_0),
            forall|x: EntityId| initial.contains(x) ==> registry@.contains(x),
        decreases n - i,
    {
        let ghost before = registry@;
        let ghost out_before = out@;
        let mut a = agents.remove(i);
        let r = resolve_agent(&mut a, task, cands, &mut registry);
        agents.insert(i, a);
        out.push(r);
        proof {
            assert(out@.take(i as int) =~= out_before);
            assert forall|j: int| 0 <= j <= i implies
                #[trigger] claims_before(initial, out@, j as nat) == claims_before(initial, out_before, j as nat) by {
                lemma_claims_prefix(initial, out@, out_before, j as nat);
            }
            lemma_claims_prefix(initial, out@, out_before, i as nat);
            assert(claims_before(initial, out@, (i + 1) as nat) == registry@);
            if r is Acquired {
                assert(!before.contains(r->Acquired_0));
                assert(registry@ == before.push(r->Acquired_0));
                assert(registry@[before.len() as int] == r->Acquired_0);
            }
            assert forall|x: EntityId| initial.contains(x) implies registry@.contains(x) by {
                if initial.contains(x) {
                    assert(before.contains(x));
                    let w = choose|w: int| 0 <= w < before.len() && before[w] == x;
                    assert(registry@[w] == x);
                }
            }
            assert forall|j: int| 0 <= j < i + 1 && (#[trigger] out@[j]) is Acquired
                implies registry@.contains(out@[j]->Acquired_0) by {
                if j < i {
                    assert(out@[j] == out_before[j]);
                    assert(before.contains(out@[j]->Acquired_0));
                    let w = choose|w: int| 0 <= w < before.len() && before[w] == out@[j]->Acquired_0;
                    assert(registry@[w] == out@[j]->Acquired_0);
                }
            }
        }
        i += 1;
    }
    out
}

/// `claims_before` looks only at the resolutions before `j`.
pub proof fn lemma_claims_prefix(initial: Seq<EntityId>, a: Seq<Resolution>, b: Seq<Resolution>, j: nat)
    requires
        j <= b.len(),
        j <= a.len(),
        forall|k: int| 0 <= k < j ==> a[k] == b[k],
    ensures
        claims_before(initial, a, j) == claims_before(initial, b, j),
    decreases j,
{
    if j > 0 {
        lemma_claims_prefix(initial, a, b, (j - 1) as nat);
    }
}

} // verus!
