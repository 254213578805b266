//! The per-pass index of every entity that some agent currently targets.
use vstd::prelude::*;
use crate::components::EntityId;
use crate::agent::Agent;

verus! {

/// The targets claimed by a sequence of agents, in order.
pub open spec fn claims_of(agents: Seq<Agent>) -> Seq<EntityId>
    decreases agents.len(),
{
    if agents.len() == 0 {
        Seq::empty()
    } else {
        let rest = claims_of(agents.drop_last());
        match agents.last().targeting {
            Some(t) => rest.push(t.target),
            None => rest,
        }
    }
}

/// A soft, pass-scoped set of claimed targets; it is rebuilt at the start of every pass.
pub struct TargetClaimRegistry {
    claimed: Vec<EntityId>,
}

impl View for TargetClaimRegistry {
    type V = Seq<EntityId>;

    closed spec fn view(&self) -> Seq<EntityId> {
        self.claimed@
    }
}

/// The targets of every agent that holds a targeting, in agent order.
pub fn set_already_targetted(agents: &Vec<Agent>) -> (r: Vec<EntityId>)
    ensures
        r@ == claims_of(agents@),
{
    let mut r: Vec<EntityId> = Vec::new();
    let mut i: usize = 0;
    while i < agents.len()
        invariant
            i <= agents@.len(),
            r@ == claims_of(agents@.take(i as int)),
        decreases agents@.len() - i,
    {
        assert(agents@.take(i as int + 1).drop_last() =~= agents@.take(i as int));
        match agents[i].targeting {
            Some(t) => r.push(t.target),
            None => {},
        }
        i += 1;
    }
    assert(agents@.take(agents@.len() as int) =~= agents@);
    r
}

impl TargetClaimRegistry {
    /// The registry of the targets that `agents` hold at the start of a pass.
    pub fn build(agents: &Vec<Agent>) -> (r: TargetClaimRegistry)
        ensures
            r@ == claims_of(agents@),
    {
        TargetClaimRegistry { claimed: set_already_targetted(agents) }
    }

    /// An empty registry.
    pub fn new() -> (r: TargetClaimRegistry)
        ensures
            r@ == Seq::<EntityId>::empty(),
    {
        TargetClaimRegistry { claimed: Vec::new() }
    }

    pub fn contains(&self, id: &EntityId) -> (r: bool)
        ensures
            r == self@.contains(*id),
    {
        let mut i: usize = 0;
        while i < self.claimed.len()
            invariant
                i <= self@.len(),
                forall|j: int| 0 <= j < i ==> self@[j] != *id,
            decreases self@.len() - i,
        {
            if self.claimed[i] == *id {
                return true;
            }
            i += 1;
        }
        false
    }

    /// Records a new acquisition in this pass.
    pub fn claim(&mut self, id: EntityId)
        ensures
            final(self)@ == old(self)@.push(id),
    {
        self.claimed.push(id);
    }
}

} // verus!
