use reflex_vacuum_agent::{reflex_vacuum_agent, Action, Location, Perception, Status, World};

#[test]
fn should_return_action_clean() {
    let start = Perception(Location::A, Status::Dirty);
    let action = reflex_vacuum_agent(start);
    assert_eq!(action, Action::Clean);
}

#[test]
fn should_return_action_right() {
    let start = Perception(Location::A, Status::Clean);
    let action = reflex_vacuum_agent(start);
    assert_eq!(action, Action::Right);
}

#[test]
fn should_return_action_left() {
    let start = Perception(Location::B, Status::Clean);
    let action = reflex_vacuum_agent(start);
    assert_eq!(action, Action::Left);
}

#[test]
fn should_return_initial_perception() {
    let start = Perception(Location::A, Status::Dirty);
    let world = World::new(Location::A);
    assert_eq!(start, world.percept());
}

#[test]
fn should_return_next_perception() {
    let next = Perception(Location::A, Status::Clean);
    let mut world = World::new(Location::A);
    world.update(reflex_vacuum_agent(world.percept()));
    assert_eq!(next, world.percept());
}

#[test]
fn dirt_at_b_is_cleaned_too() {
    let action = reflex_vacuum_agent(Perception(Location::B, Status::Dirty));
    assert_eq!(action, Action::Clean);
}

#[test]
fn first_action_cleans_wherever_the_cleaner_starts() {
    for start in [Location::A, Location::B] {
        let mut world = World::new(start);
        assert_eq!(reflex_vacuum_agent(world.percept()), Action::Clean);
        world.update(reflex_vacuum_agent(world.percept()));
        assert_eq!(world.percept(), Perception(start, Status::Clean));
    }
}
