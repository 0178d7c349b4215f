//! The world: two cells, each dirty or clean, and a cleaner standing in one of
//! them.

use vstd::prelude::*;

verus! {

/// One of the two cells. `A` is the left cell, `B` the right one.
#[derive(Clone, Copy, Debug, PartialEq, Eq, Structural)]
pub enum Location {
    A,
    B,
}

/// Cleanliness of a cell.
#[derive(Clone, Copy, Debug, PartialEq, Eq, Structural)]
pub enum Status {
    Dirty,
    Clean,
}

/// What the cleaner can do in one step.
#[derive(Clone, Copy, Debug, PartialEq, Eq, Structural)]
pub enum Action {
    Left,
    Right,
    Clean,
}

/// What the cleaner observes: the cell it stands in and that cell's status.
#[derive(Clone, Copy, Debug, PartialEq, Eq, Structural)]
pub struct Perception(pub Location, pub Status);

/// The whole state of the environment.
#[derive(Clone, Copy, Debug, PartialEq, Eq, Structural)]
pub struct World {
    /// Status of cell `A`.
    pub location_left: Status,
    /// Status of cell `B`.
    pub location_right: Status,
    /// The cell the cleaner stands in.
    pub cleaner_position: Location,
}

impl World {
    /// The world in which both cells are dirty and the cleaner stands at `start`.
    pub open spec fn fresh(start: Location) -> World {
        World {
            location_left: Status::Dirty,
            location_right: Status::Dirty,
            cleaner_position: start,
        }
    }

    /// Status of the cell at `location`.
    pub open spec fn status_at(self, location: Location) -> Status {
        match location {
            Location::A => self.location_left,
            Location::B => self.location_right,
        }
    }

    /// This world with the cell at `location` set to `status`.
    pub open spec fn with_status(self, location: Location, status: Status) -> World {
        match location {
            Location::A => World { location_left: status, ..self },
            Location::B => World { location_right: status, ..self },
        }
    }

    /// What the cleaner observes in this world.
    pub open spec fn spec_percept(self) -> Perception {
        Perception(self.cleaner_position, self.status_at(self.cleaner_position))
    }

    /// This world after the cleaner has done `action`: cleaning makes the
    /// occupied cell clean, moving puts the cleaner in the cell on that side.
    pub open spec fn after(self, action: Action) -> World {
        match action {
            Action::Clean => self.with_status(self.cleaner_position, Status::Clean),
            Action::Left => World { cleaner_position: Location::A, ..self },
            Action::Right => World { cleaner_position: Location::B, ..self },
        }
    }

    /// A world with both cells dirty and the cleaner at `start`.
    pub fn new(start: Location) -> (world: World)
        ensures
            world == World::fresh(start),
    {
        World {
            location_left: Status::Dirty,
            location_right: Status::Dirty,
            cleaner_position: start,
        }
    }

    /// Applies the effect of `action` to the world.
    pub fn update(&mut self, action: Action)
        ensures
            *final(self) == old(self).after(action),
    {
        match (action, self.cleaner_position) {
            (Action::Clean, Location::A) => self.location_left = Status::Clean,
            (Action::Clean, Location::B) => self.location_right = Status::Clean,
            (Action::Right, Location::A) => self.cleaner_position = Location::B,
            (Action::Left, Location::B) => self.cleaner_position = Location::A,
            (_, _) => {},
        }
    }

    /// The cell the cleaner stands in, and that cell's status.
    pub fn percept(&self) -> (perception: Perception)
        ensures
            perception == self.spec_percept(),
    {
        match self.cleaner_position {
            Location::A => Perception(Location::A, self.location_left),
            Location::B => Perception(Location::B, self.location_right),
        }
    }

    /// A new world shows its cleaner a dirty cell, wherever the cleaner starts.
    pub proof fn lemma_fresh_world_is_dirty(start: Location)
        ensures
            World::fresh(start).spec_percept() == Perception(start, Status::Dirty),
    {
    }

    /// Cleaning leaves the occupied cell clean, and cleaning it once more
    /// changes nothing further.
    pub proof fn lemma_cleaning_is_idempotent(self)
        ensures
            self.after(Action::Clean).status_at(self.cleaner_position) == Status::Clean,
            self.after(Action::Clean).after(Action::Clean) == self.after(Action::Clean),
    {
    }

    /// A move against the wall changes nothing: going left from `A`, or right
    /// from `B`, leaves the whole world as it was.
    pub proof fn lemma_move_against_wall(self)
        ensures
            self.cleaner_position == Location::A ==> self.after(Action::Left) == self,
            self.cleaner_position == Location::B ==> self.after(Action::Right) == self,
    {
    }
}

} // verus!
