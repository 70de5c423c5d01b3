use sand::particle::Particle;
use sand::state::{CELLS, DEFAULT_RADIUS, HEIGHT, SCALE, WIDTH};
use sand::world::World;

#[test]
fn constants_have_their_documented_values() {
    assert_eq!(WIDTH, 427);
    assert_eq!(HEIGHT, 240);
    assert_eq!(SCALE, 3);
    assert_eq!(DEFAULT_RADIUS, 10);
    assert_eq!(CELLS, 427 * 240);
    assert_eq!(CELLS, (WIDTH * HEIGHT) as usize);
}

#[test]
fn new_world_is_empty_everywhere() {
    let world = World::new();
    for y in 0..HEIGHT {
        for x in 0..WIDTH {
            assert_eq!(world.get(x, y), Particle::Empty);
            assert!(!world.is_active(x, y));
        }
    }
    assert!(world.snapshot().is_empty());
    assert_eq!(world.radius(), 10);
}

#[test]
fn set_writes_exactly_one_cell() {
    let mut world = World::new();
    world.set(3, 4, Particle::Static);
    for y in 0..HEIGHT {
        for x in 0..WIDTH {
            let expected = if (x, y) == (3, 4) { Particle::Static } else { Particle::Empty };
            assert_eq!(world.get(x, y), expected);
        }
    }
}

#[test]
fn set_reaches_the_four_corners() {
    let mut world = World::new();
    world.set(0, 0, Particle::Sand);
    world.set(426, 0, Particle::Static);
    world.set(0, 239, Particle::Static);
    world.set(426, 239, Particle::Sand);
    assert_eq!(world.get(0, 0), Particle::Sand);
    assert_eq!(world.get(426, 0), Particle::Static);
    assert_eq!(world.get(0, 239), Particle::Static);
    assert_eq!(world.get(426, 239), Particle::Sand);
    assert_eq!(world.get(1, 0), Particle::Empty);
    assert_eq!(world.get(425, 239), Particle::Empty);
}

#[test]
fn set_overwrites_what_was_there() {
    let mut world = World::new();
    world.set(8, 9, Particle::Sand);
    world.set(8, 9, Particle::Static);
    assert_eq!(world.get(8, 9), Particle::Static);
    world.set(8, 9, Particle::Empty);
    assert_eq!(world.get(8, 9), Particle::Empty);
}

#[test]
fn set_leaves_the_active_set_alone() {
    let mut world = World::new();
    world.set(8, 9, Particle::Sand);
    assert!(!world.is_active(8, 9));
    assert!(world.snapshot().is_empty());
    world.activate(8, 9);
    world.set(8, 9, Particle::Empty);
    assert!(world.is_active(8, 9));
    assert_eq!(world.snapshot(), vec![9 * 427 + 8]);
}

#[test]
fn activate_and_deactivate_change_membership_only() {
    let mut world = World::new();
    world.activate(5, 7);
    assert!(world.is_active(5, 7));
    assert!(!world.is_active(7, 5));
    assert_eq!(world.get(5, 7), Particle::Empty);
    world.deactivate(5, 7);
    assert!(!world.is_active(5, 7));
    assert!(world.snapshot().is_empty());
}

#[test]
fn activating_twice_keeps_one_member() {
    let mut world = World::new();
    world.activate(5, 7);
    world.activate(5, 7);
    assert_eq!(world.snapshot(), vec![7 * 427 + 5]);
}

#[test]
fn deactivating_an_inactive_cell_changes_nothing() {
    let mut world = World::new();
    world.activate(1, 1);
    world.deactivate(2, 2);
    assert_eq!(world.snapshot(), vec![428]);
}

#[test]
fn snapshot_lists_each_member_once() {
    let mut world = World::new();
    world.activate(5, 0);
    world.activate(0, 1);
    world.activate(426, 239);
    world.activate(5, 0);
    let mut members = world.snapshot();
    members.sort();
    assert_eq!(members, vec![5, 427, 102_479]);
}

#[test]
fn snapshot_is_a_copy() {
    let mut world = World::new();
    world.activate(5, 0);
    let before = world.snapshot();
    world.activate(6, 0);
    world.deactivate(5, 0);
    assert_eq!(before, vec![5]);
    assert_eq!(world.snapshot(), vec![6]);
}
