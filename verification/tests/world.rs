use reflex_vacuum_agent::{Action, Location, Perception, Status, World};

fn every_world() -> Vec<World> {
    let mut worlds = Vec::new();
    for location_left in [Status::Dirty, Status::Clean] {
        for location_right in [Status::Dirty, Status::Clean] {
            for cleaner_position in [Location::A, Location::B] {
                worlds.push(World { location_left, location_right, cleaner_position });
            }
        }
    }
    worlds
}

#[test]
fn new_world_is_dirty_everywhere() {
    for start in [Location::A, Location::B] {
        let world = World::new(start);
        assert_eq!(
            world,
            World {
                location_left: Status::Dirty,
                location_right: Status::Dirty,
                cleaner_position: start,
            }
        );
        assert_eq!(world.percept(), Perception(start, Status::Dirty));
    }
}

#[test]
fn percept_reads_the_occupied_cell_only() {
    let at_a = World {
        location_left: Status::Clean,
        location_right: Status::Dirty,
        cleaner_position: Location::A,
    };
    assert_eq!(at_a.percept(), Perception(Location::A, Status::Clean));
    let at_b = World { cleaner_position: Location::B, ..at_a };
    assert_eq!(at_b.percept(), Perception(Location::B, Status::Dirty));
}

#[test]
fn percept_leaves_the_world_alone() {
    for world in every_world() {
        let before = world;
        let _ = world.percept();
        assert_eq!(world, before);
    }
}

#[test]
fn clean_at_a_cleans_the_left_cell() {
    let mut world = World::new(Location::A);
    world.update(Action::Clean);
    assert_eq!(
        world,
        World {
            location_left: Status::Clean,
            location_right: Status::Dirty,
            cleaner_position: Location::A,
        }
    );
}

#[test]
fn clean_at_b_cleans_the_right_cell() {
    let mut world = World::new(Location::B);
    world.update(Action::Clean);
    assert_eq!(
        world,
        World {
            location_left: Status::Dirty,
            location_right: Status::Clean,
            cleaner_position: Location::B,
        }
    );
}

#[test]
fn right_from_a_moves_to_b() {
    let mut world = World::new(Location::A);
    world.update(Action::Right);
    assert_eq!(
        world,
        World {
            location_left: Status::Dirty,
            location_right: Status::Dirty,
            cleaner_position: Location::B,
        }
    );
}

#[test]
fn left_from_b_moves_to_a() {
    let mut world = World::new(Location::B);
    world.update(Action::Left);
    assert_eq!(
        world,
        World {
            location_left: Status::Dirty,
            location_right: Status::Dirty,
            cleaner_position: Location::A,
        }
    );
}

#[test]
fn cleaning_twice_is_cleaning_once() {
    for world in every_world() {
        let mut once = world;
        once.update(Action::Clean);
        let mut twice = once;
        twice.update(Action::Clean);
        assert_eq!(twice, once);
        assert_eq!(twice.percept(), Perception(world.cleaner_position, Status::Clean));
    }
}

#[test]
fn left_at_a_changes_nothing() {
    for world in every_world() {
        if world.cleaner_position == Location::A {
            let mut moved = world;
            moved.update(Action::Left);
            assert_eq!(moved, world);
        }
    }
}

#[test]
fn right_at_b_changes_nothing() {
    for world in every_world() {
        if world.cleaner_position == Location::B {
            let mut moved = world;
            moved.update(Action::Right);
            assert_eq!(moved, world);
        }
    }
}

#[test]
fn moving_never_touches_the_cells() {
    for world in every_world() {
        for action in [Action::Left, Action::Right] {
            let mut moved = world;
            moved.update(action);
            assert_eq!(moved.location_left, world.location_left);
            assert_eq!(moved.location_right, world.location_right);
        }
    }
}

#[test]
fn cleaning_never_moves_the_cleaner_nor_touches_the_other_cell() {
    for world in every_world() {
        let mut cleaned = world;
        cleaned.update(Action::Clean);
        assert_eq!(cleaned.cleaner_position, world.cleaner_position);
        match world.cleaner_position {
            Location::A => assert_eq!(cleaned.location_right, world.location_right),
            Location::B => assert_eq!(cleaned.location_left, world.location_left),
        }
    }
}
