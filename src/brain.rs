//! The brain's abstract state and remotivation.
use vstd::prelude::*;
use crate::components::{Brain, Task, AtomicAction, PersonalityTrait, Memory, Motivation};

verus! {

/// The brain as plain mathematical values.
pub ghost struct BrainView {
    pub task: Option<Task>,
    pub task_queue: Seq<Task>,
    pub action: Option<AtomicAction>,
    pub action_queue: Seq<AtomicAction>,
    pub personality: Seq<PersonalityTrait>,
    pub memory: Seq<Memory>,
    pub motivation: Option<Motivation>,
}

impl View for Brain {
    type V = BrainView;

    open spec fn view(&self) -> BrainView {
        BrainView {
            task: self.task,
            task_queue: self.task_queue@,
            action: self.action,
            action_queue: self.action_queue@,
            personality: self.personality@,
            memory: self.memory@,
            motivation: self.motivation,
        }
    }
}

impl BrainView {
    /// The state after remotivation: task, task queue and motivation cleared,
    /// everything else (the action in flight and its queue included) kept.
    pub open spec fn remotivated(self) -> BrainView {
        BrainView { task: None, task_queue: Seq::empty(), motivation: None, ..self }
    }
}

impl Brain {
    /// Clears task, task queue and motivation, forcing re-evaluation on the next tick.
    pub fn remotivate(&mut self)
        ensures
            final(self)@ == old(self)@.remotivated(),
    {
        self.task = None;
        self.task_queue.clear();
        self.motivation = None;
        assert(self.task_queue@ =~= Seq::<Task>::empty());
    }
}

/// Remotivation is idempotent: a second call leaves exactly the state the first
/// produced (no task, an empty task queue, no motivation).
pub proof fn lemma_remotivate_idempotent(b0: BrainView, b1: BrainView, b2: BrainView)
    requires
        b1 == b0.remotivated(),
        b2 == b1.remotivated(),
    ensures
        b2 == b1,
        b2.task is None,
        b2.task_queue.len() == 0,
        b2.motivation is None,
{
    assert(b2.task_queue =~= b1.task_queue);
}

} // verus!
