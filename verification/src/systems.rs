//! The update systems. There is one: the left walker, which moves every
//! left mover one column to the left and wraps it around at the edge.

use vstd::prelude::*;
use legion::prelude::World;
use crate::store::{
    drift_left_movers, entities, left_movers_drifted, positions_in_bounds, Components,
};

verus! {

/// An update system. A system keeps nothing between frames: what it does
/// depends on the entities alone.
#[derive(Clone, Copy, Debug, PartialEq, Eq)]
pub enum System {
    LeftWalker,
}

impl System {
    /// The entities after one run of the system.
    pub open spec fn effect(self, es: Seq<Components>) -> Seq<Components> {
        match self {
            System::LeftWalker => left_movers_drifted(es),
        }
    }

    /// Runs the system once against the whole world.
    pub fn run(&self, ecs: &mut World)
        ensures
            entities(*final(ecs)) == self.effect(entities(*old(ecs))),
            positions_in_bounds(entities(*old(ecs))) ==> positions_in_bounds(
                entities(*final(ecs)),
            ),
    {
        match self {
            System::LeftWalker => drift_left_movers(ecs),
        }
    }
}

/// The entities after the systems of a schedule have run one after the
/// other, first to last.
pub open spec fn run_schedule(schedule: Seq<System>, es: Seq<Components>) -> Seq<Components>
    decreases schedule.len(),
{
    if schedule.len() == 0 {
        es
    } else {
        schedule.last().effect(run_schedule(schedule.drop_last(), es))
    }
}

/// A schedule keeps every position on the grid that was there.
pub proof fn lemma_schedule_keeps_grid(schedule: Seq<System>, es: Seq<Components>)
    requires
        positions_in_bounds(es),
    ensures
        positions_in_bounds(run_schedule(schedule, es)),
        run_schedule(schedule, es).len() == es.len(),
    decreases schedule.len(),
{
    if schedule.len() > 0 {
        lemma_schedule_keeps_grid(schedule.drop_last(), es);
    }
}

/// The left walker.
pub fn create_walker_system() -> (system: System)
    ensures
        system == System::LeftWalker,
{
    System::LeftWalker
}

} // verus!
