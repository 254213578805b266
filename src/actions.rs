//! The action executor: one atomic action in flight per agent, advanced per tick.
use vstd::prelude::*;
use crate::num::{UNIT, LIMIT};
use crate::components::{EntityId, Position, MaterialProperties, PhysicalBody, Brain, AtomicAction};
use crate::brain::BrainView;

verus! {

/// Smallest damage a force can do (0.1).
pub const MIN_FORCE_DAMAGE: i64 = 100;
/// Energy taken from a consumed target per bite (5.0).
pub const INTAKE: i64 = 5000;
/// Length of the shake shown on a struck target, in milliseconds.
pub const SHAKE_MILLIS: i64 = 200;
/// Amplitude of that shake (2.0).
pub const SHAKE_INTENSITY: i64 = 2000;

/// A short cosmetic shake of a struck object.
#[derive(PartialEq, Eq, Structural, Clone, Copy, Debug, Default)]
pub struct VisualFeedback {
    pub shake_timer: i64,
    pub shake_intensity: i64,
}

/// One step of `c` towards `d`.
pub open spec fn step_axis(c: i32, d: i32) -> i32 {
    if c < d { (c + 1) as i32 } else if c > d { (c - 1) as i32 } else { c }
}

pub open spec fn stepped(p: Position, d: Position) -> Position {
    Position { x: step_axis(p.x, d.x), y: step_axis(p.y, d.y), z: step_axis(p.z, d.z) }
}

/// Moves each of x, y and z one cell towards the destination, independently.
pub fn step_toward(pos: &Position, dest: &Position) -> (r: Position)
    ensures
        r == stepped(*pos, *dest),
{
    let x = if pos.x < dest.x { pos.x + 1 } else if pos.x > dest.x { pos.x - 1 } else { pos.x };
    let y = if pos.y < dest.y { pos.y + 1 } else if pos.y > dest.y { pos.y - 1 } else { pos.y };
    let z = if pos.z < dest.z { pos.z + 1 } else if pos.z > dest.z { pos.z - 1 } else { pos.z };
    Position { x, y, z }
}

pub open spec fn abs(v: int) -> int {
    if v < 0 { -v } else { v }
}

/// The number of ticks a move still needs: the largest per-axis gap.
pub open spec fn moves_left(p: Position, d: Position) -> int {
    let a = abs(d.x - p.x);
    let b = abs(d.y - p.y);
    let c = abs(d.z - p.z);
    if a >= b && a >= c { a } else if b >= c { b } else { c }
}

/// A move makes progress on every tick until it arrives.
pub proof fn lemma_move_progress(p: Position, d: Position)
    ensures
        p != d ==> moves_left(stepped(p, d), d) == moves_left(p, d) - 1,
        p == d ==> stepped(p, d) == p,
        moves_left(p, d) == 0 <==> p == d,
{
}

pub open spec fn force_damage_spec(force: int, hardness: int) -> int {
    if force - hardness > MIN_FORCE_DAMAGE { force - hardness } else { MIN_FORCE_DAMAGE as int }
}

/// `max(force - hardness, 0.1)`.
pub fn force_damage(force: i64, hardness: i64) -> (r: i64)
    requires
        0 <= force <= LIMIT,
        0 <= hardness <= LIMIT,
    ensures
        r == force_damage_spec(force as int, hardness as int),
        MIN_FORCE_DAMAGE <= r <= LIMIT,
{
    let d = force - hardness;
    if d > MIN_FORCE_DAMAGE { d } else { MIN_FORCE_DAMAGE }
}

/// `health - damage`, held at the smallest `i64` rather than wrapping.
pub open spec fn wounded(health: int, damage: int) -> int {
    if health - damage < i64::MIN { i64::MIN as int } else { health - damage }
}

fn wound(health: i64, damage: i64) -> (r: i64)
    requires
        damage >= 0,
    ensures
        r == wounded(health as int, damage as int),
{
    match health.checked_sub(damage) {
        Some(h) => h,
        None => i64::MIN,
    }
}

/// What an applied force did.
#[derive(PartialEq, Eq, Structural, Clone, Copy, Debug)]
pub struct ForceOutcome {
    pub damage: i64,
    /// The target has no body and the damage exceeded its toughness: destroy it.
    pub destroyed: bool,
    pub feedback: VisualFeedback,
}

/// Applies a force to a target: a target with a body loses health; one without is
/// destroyed when the damage exceeds its toughness. The target always shakes.
pub fn apply_force(force: i64, material: &MaterialProperties, target_body: &mut Option<PhysicalBody>) -> (r: ForceOutcome)
    requires
        0 <= force <= LIMIT,
        material.wf(),
    ensures
        r.damage == force_damage_spec(force as int, material.hardness as int),
        r.feedback == (VisualFeedback { shake_timer: SHAKE_MILLIS, shake_intensity: SHAKE_INTENSITY }),
        match *old(target_body) {
            Some(b) => {
                &&& !r.destroyed
                &&& *final(target_body) == Some(PhysicalBody { health: wounded(b.health as int, r.damage as int) as i64, ..b })
            },
            None => {
                &&& r.destroyed == (r.damage > material.toughness)
                &&& *final(target_body) is None
            },
        },
{
    let damage = force_damage(force, material.hardness);
    let feedback = VisualFeedback { shake_timer: SHAKE_MILLIS, shake_intensity: SHAKE_INTENSITY };
    match target_body {
        Some(b) => {
            b.health = wound(b.health, damage);
            ForceOutcome { damage, destroyed: false, feedback }
        },
        None => ForceOutcome { damage, destroyed: damage > material.toughness, feedback },
    }
}

/// The energy a bite yields: the fixed intake scaled by the target's energy density.
pub open spec fn intake_energy(energy_density: int) -> int {
    INTAKE * energy_density / UNIT as int
}

/// The target's body after a bite: the intake removed, floored at 0.
pub open spec fn drained(b: PhysicalBody) -> PhysicalBody {
    PhysicalBody {
        energy_storage: if b.energy_storage - INTAKE <= 0 { 0 } else { (b.energy_storage - INTAKE) as i64 },
        ..b
    }
}

/// Consumes a target: a target with a body loses the fixed intake of energy
/// (floored at 0) and is destroyed when its energy reaches 0; a target without
/// one is destroyed outright. The actor gains the intake scaled by the target's
/// energy density, capped at its maximum. Returns whether the target is destroyed.
pub fn consume(actor: &mut PhysicalBody, material: &MaterialProperties, target_body: &mut Option<PhysicalBody>) -> (destroyed: bool)
    requires
        old(actor).wf(),
        material.wf(),
        match *old(target_body) {
            Some(b) => b.wf(),
            None => true,
        },
    ensures
        final(actor).wf(),
        final(actor).energy_storage == if old(actor).energy_storage + intake_energy(material.energy_density as int) > old(actor).energy_max {
            old(actor).energy_max as int
        } else {
            old(actor).energy_storage + intake_energy(material.energy_density as int)
        },
        *final(actor) == (PhysicalBody { energy_storage: final(actor).energy_storage, ..*old(actor) }),
        match *old(target_body) {
            Some(b) => {
                &&& destroyed == (b.energy_storage - INTAKE <= 0)
                &&& *final(target_body) == Some(drained(b))
                &&& final(target_body)->0.wf()
            },
            None => destroyed && (*final(target_body) is None),
        },
{
    let gained = INTAKE * material.energy_density / UNIT;
    let destroyed = match target_body {
        Some(b) => {
            let left = b.energy_storage - INTAKE;
            if left <= 0 {
                b.energy_storage = 0;
                true
            } else {
                b.energy_storage = left;
                false
            }
        },
        None => true,
    };
    let total = actor.energy_storage + gained;
    actor.energy_storage = if total > actor.energy_max { actor.energy_max } else { total };
    destroyed
}

/// What the executor did with an agent's action this tick. Force and consumption
/// name the target that the caller applies them to; both are finished either way.
#[derive(PartialEq, Eq, Structural, Clone, Copy, Debug)]
pub enum ActionStep {
    /// No action in flight and none queued.
    Idle,
    /// Moved one step towards the destination; the move continues.
    Moving,
    /// The tick began at the destination: the move is finished.
    Arrived,
    Force(EntityId, i64),
    Consume(EntityId),
    Link(EntityId, EntityId),
    Scan,
}

/// The brain with the head of the action queue taken as the action in flight,
/// when none is.
pub open spec fn with_current_action(v: BrainView) -> BrainView {
    if v.action is None && v.action_queue.len() > 0 {
        BrainView { action: Some(v.action_queue[0]), action_queue: v.action_queue.drop_first(), ..v }
    } else {
        v
    }
}

/// Advances an agent's action by one tick.
pub fn action_processor_system(brain: &mut Brain, pos: &mut Position) -> (r: ActionStep)
    ensures
        ({
            let v = with_current_action(old(brain)@);
            match v.action {
                None => r == ActionStep::Idle && final(brain)@ == v && *final(pos) == *old(pos),
                Some(AtomicAction::Move(d)) => {
                    &&& *final(pos) == stepped(*old(pos), d)
                    &&& if *old(pos) == d {
                            r == ActionStep::Arrived && final(brain)@ == BrainView { action: None, ..v }
                        } else {
                            r == ActionStep::Moving && final(brain)@ == v
                        }
                },
                Some(a) => {
                    &&& *final(pos) == *old(pos)
                    &&& final(brain)@ == BrainView { action: None, ..v }
                    &&& r == match a {
                        AtomicAction::ApplyForce(t, f) => ActionStep::Force(t, f),
                        AtomicAction::Consume(t) => ActionStep::Consume(t),
                        AtomicAction::Link(a, b) => ActionStep::Link(a, b),
                        _ => ActionStep::Scan,
                    }
                },
            }
        }),
{
    if brain.action.is_none() && brain.action_queue.len() > 0 {
        let head = brain.action_queue.remove(0);
        brain.action = Some(head);
        assert(brain.action_queue@ =~= old(brain).action_queue@.drop_first());
    }
    match brain.action {
        None => ActionStep::Idle,
        Some(AtomicAction::Move(d)) => {
            if *pos == d {
                brain.action = None;
                ActionStep::Arrived
            } else {
                *pos = step_toward(pos, &d);
                ActionStep::Moving
            }
        },
        Some(AtomicAction::ApplyForce(t, f)) => {
            brain.action = None;
            ActionStep::Force(t, f)
        },
        Some(AtomicAction::Consume(t)) => {
            brain.action = None;
            ActionStep::Consume(t)
        },
        Some(AtomicAction::Link(a, b)) => {
            brain.action = None;
            ActionStep::Link(a, b)
        },
        Some(AtomicAction::Scan) => {
            brain.action = None;
            ActionStep::Scan
        },
    }
}

} // verus!
