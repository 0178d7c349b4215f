//! The simple reflex agent: a fixed table from the current perception to an
//! action, with no memory of earlier steps.

use vstd::prelude::*;
use crate::world::{Action, Location, Perception, Status, World};

verus! {

/// The agent's table: a dirty cell is cleaned, whichever it is; from a clean
/// cell the cleaner moves to the other one.
pub open spec fn policy(perception: Perception) -> Action {
    if perception.1 == Status::Dirty {
        Action::Clean
    } else if perception.0 == Location::A {
        Action::Right
    } else {
        Action::Left
    }
}

/// Chooses the action for `perception`.
pub fn reflex_vacuum_agent(perception: Perception) -> (action: Action)
    ensures
        action == policy(perception),
        perception.1 == Status::Dirty ==> action == Action::Clean,
        perception == Perception(Location::A, Status::Clean) ==> action == Action::Right,
        perception == Perception(Location::B, Status::Clean) ==> action == Action::Left,
{
    match perception {
        Perception(_, Status::Dirty) => Action::Clean,
        Perception(Location::A, Status::Clean) => Action::Right,
        Perception(Location::B, Status::Clean) => Action::Left,
    }
}

/// In a new world the agent's first action is to clean, so that the cleaner
/// then observes a clean cell where it started.
pub proof fn lemma_first_action_cleans(start: Location)
    ensures
        policy(World::fresh(start).spec_percept()) == Action::Clean,
        World::fresh(start).after(policy(World::fresh(start).spec_percept())).spec_percept()
            == Perception(start, Status::Clean),
{
}

} // verus!
