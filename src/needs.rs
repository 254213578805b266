//! Per-tick decay of needs, metabolic drain and photosynthesis.
use vstd::prelude::*;
use crate::num::{UNIT, LIMIT, floor_sqrt, floor_sqrt_exec};
use crate::components::{Need, Genome, PhysicalBody, EnvironmentalData, need_wf};

verus! {

/// Energy spent per metabolic tick by a body without a genome (0.1).
pub const BASE_METABOLIC_COST: i64 = 100;

/// The need after one tick of decay: lowered by `rate`, floored at 0.
pub open spec fn decayed(n: Need) -> Need {
    Need { current: if n.current - n.rate < 0 { 0 } else { (n.current - n.rate) as i64 }, ..n }
}

/// The need after `k` ticks of decay.
pub open spec fn decayed_times(n: Need, k: nat) -> Need
    decreases k,
{
    if k == 0 {
        n
    } else {
        decayed(decayed_times(n, (k - 1) as nat))
    }
}

pub open spec fn decayed_opt(n: Option<Need>) -> Option<Need> {
    match n {
        Some(n) => Some(decayed(n)),
        None => None,
    }
}

impl Need {
    /// One tick of decay: `current = max(0, current - rate)`.
    pub fn decay(&mut self)
        requires
            old(self).wf(),
        ensures
            *final(self) == decayed(*old(self)),
            final(self).wf(),
    {
        if self.current - self.rate < 0 {
            self.current = 0;
        } else {
            self.current = self.current - self.rate;
        }
    }
}

/// Repeated decay keeps `0 <= current <= max`.
pub proof fn lemma_decay_stays_in_range(n: Need, k: nat)
    requires
        n.wf(),
    ensures
        decayed_times(n, k).wf(),
        0 <= decayed_times(n, k).current <= decayed_times(n, k).max,
        decayed_times(n, k).max == n.max,
    decreases k,
{
    if k > 0 {
        lemma_decay_stays_in_range(n, (k - 1) as nat);
    }
}

fn decay_opt(n: &mut Option<Need>)
    requires
        need_wf(*old(n)),
    ensures
        *final(n) == decayed_opt(*old(n)),
        need_wf(*final(n)),
{
    match n {
        Some(need) => need.decay(),
        None => {},
    }
}

/// Decays the food, entertainment and sleep needs of a body by one tick.
pub fn needs_status_system(body: &mut PhysicalBody)
    requires
        old(body).wf(),
    ensures
        final(body).wf(),
        final(body).needs_food == decayed_opt(old(body).needs_food),
        final(body).needs_sleep == decayed_opt(old(body).needs_sleep),
        final(body).needs_entertainment == decayed_opt(old(body).needs_entertainment),
        *final(body) == (PhysicalBody {
            needs_food: final(body).needs_food,
            needs_sleep: final(body).needs_sleep,
            needs_entertainment: final(body).needs_entertainment,
            ..*old(body)
        }),
{
    decay_opt(&mut body.needs_food);
    decay_opt(&mut body.needs_entertainment);
    decay_opt(&mut body.needs_sleep);
}

/// `size^1.5` in thousandths, for a size in thousandths.
pub open spec fn size_pow_1_5(size: int) -> int {
    size * floor_sqrt(size * UNIT) / UNIT as int
}

/// The genome's metabolic scale factor `size^1.5 * 0.7 + mobility * 0.3 + 0.1`, in thousandths.
pub open spec fn metabolic_factor(g: Genome) -> int {
    size_pow_1_5(g.size as int) * 700 / 1000 + g.mobility * 300 / 1000 + 100
}

/// The energy spent per metabolic tick: 0.1, scaled by the genome's factor when there is one.
pub open spec fn metabolic_cost_spec(g: Option<Genome>) -> int {
    match g {
        Some(g) => BASE_METABOLIC_COST * metabolic_factor(g) / UNIT as int,
        None => BASE_METABOLIC_COST as int,
    }
}

/// The energy spent per metabolic tick.
pub fn metabolic_cost(genome: &Option<Genome>) -> (r: i64)
    requires
        match *genome {
            Some(g) => g.wf(),
            None => true,
        },
    ensures
        r == metabolic_cost_spec(*genome),
        0 < r <= 1_000_000,
{
    match genome {
        Some(g) => {
            let root = floor_sqrt_exec((g.size * UNIT) as u128);
            proof {
                assert(root <= g.size * UNIT) by (nonlinear_arith)
                    requires root * root <= g.size * UNIT, root >= 0;
                assert(root <= 2237) by (nonlinear_arith)
                    requires root * root <= g.size * UNIT, g.size <= 5000, root >= 0;
                assert(g.size * root <= 5000 * 2237) by (nonlinear_arith)
                    requires 0 <= g.size <= 5000, 0 <= root <= 2237;
                assert(g.size * root >= 0) by (nonlinear_arith)
                    requires 0 <= g.size, 0 <= root;
            }
            let p = g.size * (root as i64) / UNIT;
            let factor = p * 700 / 1000 + g.mobility * 300 / 1000 + 100;
            BASE_METABOLIC_COST * factor / UNIT
        },
        None => BASE_METABOLIC_COST,
    }
}

/// One metabolic tick: subtract the cost from the stored energy, flooring at 0.
/// Returns whether the agent starved (its energy reached 0) and must be despawned.
pub fn metabolic_drain_system(body: &mut PhysicalBody, genome: &Option<Genome>) -> (starved: bool)
    requires
        old(body).wf(),
        match *genome {
            Some(g) => g.wf(),
            None => true,
        },
    ensures
        final(body).wf(),
        starved <==> old(body).energy_storage - metabolic_cost_spec(*genome) <= 0,
        starved <==> final(body).energy_storage == 0,
        !starved ==> final(body).energy_storage == old(body).energy_storage - metabolic_cost_spec(*genome),
        *final(body) == (PhysicalBody { energy_storage: final(body).energy_storage, ..*old(body) }),
{
    let cost = metabolic_cost(genome);
    let left = body.energy_storage - cost;
    if left <= 0 {
        body.energy_storage = 0;
        true
    } else {
        body.energy_storage = left;
        false
    }
}

/// Energy gained from light: `fertility * 0.2 * (1 - diet_type)`, in thousandths.
pub open spec fn photosynthesis_gain(fertility: int, diet_type: int) -> int {
    fertility * 200 / 1000 * (UNIT - diet_type) / UNIT as int
}

/// Adds energy proportional to the fertility of the agent's tile and to
/// `1 - diet_type`, capped at the body's maximum. Pure carnivores, and agents on
/// a tile without environmental data, gain nothing.
pub fn photosynthesis_system(body: &mut PhysicalBody, genome: &Genome, env: &Option<EnvironmentalData>)
    requires
        old(body).wf(),
        genome.wf(),
        match *env {
            Some(e) => 0 <= e.fertility <= LIMIT,
            None => true,
        },
    ensures
        final(body).wf(),
        final(body).energy_storage == match *env {
            Some(e) if genome.diet_type < UNIT => {
                let s = old(body).energy_storage + photosynthesis_gain(e.fertility as int, genome.diet_type as int);
                if s > old(body).energy_max { old(body).energy_max as int } else { s }
            },
            _ => old(body).energy_storage as int,
        },
        *final(body) == (PhysicalBody { energy_storage: final(body).energy_storage, ..*old(body) }),
{
    let phos = UNIT - genome.diet_type;
    if phos <= 0 {
        return;
    }
    match env {
        Some(e) => {
            let g1 = e.fertility * 200 / 1000;
            proof {
                assert(g1 * phos <= LIMIT * 1000) by (nonlinear_arith)
                    requires 0 <= g1 <= LIMIT, 0 < phos <= 1000;
                assert(g1 * phos >= 0) by (nonlinear_arith)
                    requires 0 <= g1, 0 < phos;
            }
            let gain = g1 * phos / UNIT;
            let s = body.energy_storage + gain;
            if s > body.energy_max {
                body.energy_storage = body.energy_max;
            } else {
                body.energy_storage = s;
            }
        },
        None => {},
    }
}

} // verus!
