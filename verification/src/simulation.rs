//! The driver: in each step the cleaner perceives, acts on what it perceived,
//! and then a draw from outside may soil one of the cells.

use vstd::prelude::*;
use crate::agent::{policy, reflex_vacuum_agent};
use crate::entropy::gen_range;
use crate::world::{Action, Location, Perception, Status, World};

verus! {

/// Draws are taken from `DRAW_LOW` up to, but excluding, `DRAW_HIGH`.
pub const DRAW_LOW: i32 = 0;

/// The bound that no draw reaches.
pub const DRAW_HIGH: i32 = 100;

/// A draw below this soils the right cell.
pub const SOILS_RIGHT_BELOW: i32 = 25;

/// A draw above this soils the left cell.
pub const SOILS_LEFT_ABOVE: i32 = 75;

/// The number of steps of a standard run.
pub const STEPS: usize = 100;

/// A draw that soils neither cell.
pub open spec fn is_quiet(draw: i32) -> bool {
    SOILS_RIGHT_BELOW <= draw <= SOILS_LEFT_ABOVE
}

/// Every draw of `draws` lies in the range that draws are taken from.
pub open spec fn in_range(draws: Seq<i32>) -> bool {
    forall|i: int| 0 <= i < draws.len() ==> DRAW_LOW <= #[trigger] draws[i] < DRAW_HIGH
}

impl World {
    /// This world after the disturbance that `draw` stands for: a low draw
    /// soils the right cell, a high one the left cell, and the draws between
    /// leave the world as it is. The cleaner's own cell is not spared.
    pub open spec fn disturbed(self, draw: i32) -> World {
        if draw < SOILS_RIGHT_BELOW {
            self.with_status(Location::B, Status::Dirty)
        } else if draw > SOILS_LEFT_ABOVE {
            self.with_status(Location::A, Status::Dirty)
        } else {
            self
        }
    }

    /// This world after one whole step: the agent's action on what it
    /// perceives, then the disturbance of `draw`.
    pub open spec fn stepped(self, draw: i32) -> World {
        self.after(policy(self.spec_percept())).disturbed(draw)
    }

    /// Applies the disturbance that `draw` stands for.
    pub fn disturb(&mut self, draw: i32)
        ensures
            *final(self) == old(self).disturbed(draw),
    {
        if draw < SOILS_RIGHT_BELOW {
            self.location_right = Status::Dirty;
        } else if draw > SOILS_LEFT_ABOVE {
            self.location_left = Status::Dirty;
        }
    }

    /// Runs one step and returns what the cleaner perceived at its start.
    pub fn step(&mut self, draw: i32) -> (seen: Perception)
        ensures
            seen == old(self).spec_percept(),
            *final(self) == old(self).stepped(draw),
    {
        let seen = self.percept();
        self.update(reflex_vacuum_agent(seen));
        self.disturb(draw);
        seen
    }
}

/// The world that `start` has become after one step for each draw of `draws`,
/// taken in order.
pub open spec fn world_after(start: World, draws: Seq<i32>) -> World
    decreases draws.len(),
{
    if draws.len() == 0 {
        start
    } else {
        world_after(start, draws.drop_last()).stepped(draws.last())
    }
}

/// What the cleaner perceives at the start of each step of a run from `start`
/// under `draws`: entry `i` is observed in the world as the first `i` draws
/// have left it.
pub open spec fn trace(start: World, draws: Seq<i32>) -> Seq<Perception> {
    Seq::new(draws.len(), |i: int| world_after(start, draws.take(i)).spec_percept())
}

/// One more draw lengthens a run by one step and its trace by one entry, the
/// perception in the world that the earlier draws have left; what was recorded
/// before stays as it was.
pub proof fn lemma_run_extends(start: World, draws: Seq<i32>, draw: i32)
    ensures
        world_after(start, draws.push(draw)) == world_after(start, draws).stepped(draw),
        trace(start, draws.push(draw)) == trace(start, draws).push(
            world_after(start, draws).spec_percept(),
        ),
{
    let longer = draws.push(draw);
    assert(longer.drop_last() == draws);
    assert forall|i: int| 0 <= i <= draws.len() implies #[trigger] longer.take(i) == draws.take(
        i,
    ) by {
        assert(longer.take(i) == draws.take(i));
    }
}

/// A run that starts at `A` in a world with both cells dirty, and that no draw
/// disturbs, opens in one way only: the cleaner finds `A` dirty and cleans it,
/// finds `A` clean and moves right, finds `B` dirty and cleans it.
pub proof fn lemma_quiet_opening(draws: Seq<i32>)
    requires
        draws.len() >= 3,
        forall|i: int| 0 <= i < draws.len() ==> is_quiet(#[trigger] draws[i]),
    ensures
        trace(World::fresh(Location::A), draws).take(3) == seq![
            Perception(Location::A, Status::Dirty),
            Perception(Location::A, Status::Clean),
            Perception(Location::B, Status::Dirty),
        ],
        trace(World::fresh(Location::A), draws).take(3).map_values(
            |seen: Perception| policy(seen),
        ) == seq![Action::Clean, Action::Right, Action::Clean],
{
    let start = World::fresh(Location::A);
    assert(is_quiet(draws[0]) && is_quiet(draws[1]));
    assert(world_after(start, draws.take(0)) == start);
    assert(world_after(start, draws.take(1)) == start.stepped(draws[0])) by {
        assert(draws.take(1).drop_last() == draws.take(0));
    }
    assert(world_after(start, draws.take(2)) == start.stepped(draws[0]).stepped(draws[1])) by {
        assert(draws.take(2).drop_last() == draws.take(1));
    }
}

/// Runs one step for each draw of `draws`, in order, and returns what the
/// cleaner perceived at the start of each step.
pub fn simulate(world: &mut World, draws: &[i32]) -> (seen: Vec<Perception>)
    ensures
        seen@ == trace(*old(world), draws@),
        *final(world) == world_after(*old(world), draws@),
{
    let ghost start = *world;
    let mut seen: Vec<Perception> = Vec::new();
    let mut i: usize = 0;
    while i < draws.len()
        invariant
            i <= draws.len(),
            seen@ == trace(start, draws@.take(i as int)),
            *world == world_after(start, draws@.take(i as int)),
        decreases draws.len() - i,
    {
        proof {
            lemma_run_extends(start, draws@.take(i as int), draws[i as int]);
            assert(draws@.take(i as int).push(draws[i as int]) == draws@.take(i + 1));
        }
        let perception = world.step(draws[i]);
        seen.push(perception);
        i += 1;
    }
    proof {
        assert(draws@.take(i as int) == draws@);
    }
    seen
}

/// Runs `steps` steps, each with a fresh draw from the thread's random
/// generator, and returns what the cleaner perceived at the start of each.
/// Which draws come is not known, so the result is the trace of some script of
/// `steps` draws, all of them within the range that draws are taken from.
pub fn simulate_random(world: &mut World, steps: usize) -> (seen: Vec<Perception>)
    ensures
        seen@.len() == steps,
        exists|draws: Seq<i32>|
            {
                &&& draws.len() == steps
                &&& in_range(draws)
                &&& seen@ == #[trigger] trace(*old(world), draws)
                &&& *final(world) == world_after(*old(world), draws)
            },
{
    let ghost start = *world;
    let ghost mut draws: Seq<i32> = Seq::empty();
    let mut rng = rand::thread_rng();
    let mut seen: Vec<Perception> = Vec::new();
    let mut i: usize = 0;
    while i < steps
        invariant
            i <= steps,
            draws.len() == i,
            in_range(draws),
            seen@ == trace(start, draws),
            *world == world_after(start, draws),
        decreases steps - i,
    {
        seen.push(world.percept());
        world.update(reflex_vacuum_agent(world.percept()));
        let draw = gen_range(&mut rng, DRAW_LOW, DRAW_HIGH);
        world.disturb(draw);
        proof {
            lemma_run_extends(start, draws, draw);
            draws = draws.push(draw);
        }
        i += 1;
    }
    seen
}

} // verus!
