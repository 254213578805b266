//! The simulated agent: the components one entity carries.
use vstd::prelude::*;
use crate::components::{
    EntityId, Position, PhysicalBody, Genome, Brain, Generation, ReproductionStatus, Targeting,
    Pathing,
};

verus! {

#[derive(Clone, Debug)]
pub struct Agent {
    pub id: EntityId,
    pub position: Position,
    pub body: PhysicalBody,
    pub genome: Option<Genome>,
    pub brain: Brain,
    pub generation: Option<Generation>,
    pub reproduction: Option<ReproductionStatus>,
    pub targeting: Option<Targeting>,
    pub pathing: Option<Pathing>,
}

impl Agent {
    /// The body and the genome (when present) are well formed.
    pub open spec fn wf(&self) -> bool {
        &&& self.body.wf()
        &&& match self.genome {
            Some(g) => g.wf(),
            None => true,
        }
    }

    /// Whether the agent is well formed.
    pub fn is_valid(&self) -> (r: bool)
        ensures
            r == self.wf(),
    {
        self.body.is_valid() && match &self.genome {
            Some(g) => g.is_valid(),
            None => true,
        }
    }
}

/// `b` is `a` with only its brain, targeting and pathing possibly changed.
pub open spec fn same_but_decisions(a: Agent, b: Agent) -> bool {
    &&& b.id == a.id
    &&& b.position == a.position
    &&& b.body == a.body
    &&& b.genome == a.genome
    &&& b.generation == a.generation
    &&& b.reproduction == a.reproduction
}

} // verus!
