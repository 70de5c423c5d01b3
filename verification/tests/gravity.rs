use sand::particle::Particle;
use sand::state::{CELLS, HEIGHT, WIDTH};
use sand::world::World;

fn grains(world: &World) -> Vec<(u32, u32)> {
    let mut found = Vec::new();
    for y in 0..HEIGHT {
        for x in 0..WIDTH {
            if world.get(x, y) == Particle::Sand {
                found.push((x, y));
            }
        }
    }
    found
}

fn obstacles(world: &World) -> Vec<(u32, u32)> {
    let mut found = Vec::new();
    for y in 0..HEIGHT {
        for x in 0..WIDTH {
            if world.get(x, y) == Particle::Static {
                found.push((x, y));
            }
        }
    }
    found
}

fn active_cells(world: &World) -> Vec<(u32, u32)> {
    let mut members = world.snapshot();
    members.sort();
    members.iter().map(|i| ((i % 427) as u32, (i / 427) as u32)).collect()
}

fn picture(world: &World) -> Vec<u8> {
    let mut frame = vec![0u8; 4 * CELLS];
    world.draw(&mut frame);
    frame
}

fn place_grain(world: &mut World, x: u32, y: u32) {
    world.set(x, y, Particle::Sand);
    world.activate(x, y);
}

#[test]
fn tick_of_an_empty_world_changes_nothing() {
    let mut world = World::new();
    let before = picture(&world);
    world.update();
    assert_eq!(picture(&world), before);
    assert!(world.snapshot().is_empty());
    assert_eq!(world.radius(), 10);
}

#[test]
fn tick_without_active_cells_changes_nothing() {
    let mut world = World::new();
    for x in 20..40 {
        world.set(x, 100, Particle::Static);
    }
    world.set(30, 50, Particle::Static);
    let before = picture(&world);
    for _ in 0..5 {
        world.update();
    }
    assert_eq!(picture(&world), before);
    assert!(world.snapshot().is_empty());
    assert_eq!(obstacles(&world).len(), 21);
}

#[test]
fn lone_grain_falls_one_row_in_one_tick() {
    let mut world = World::new();
    place_grain(&mut world, 5, 3);
    world.update();
    assert_eq!(world.get(5, 3), Particle::Empty);
    assert_eq!(world.get(5, 4), Particle::Sand);
    assert_eq!(grains(&world), vec![(5, 4)]);
    assert_eq!(active_cells(&world), vec![(5, 4)]);
}

#[test]
fn lone_grain_falls_one_row_per_tick() {
    let mut world = World::new();
    place_grain(&mut world, 200, 0);
    for tick in 1..=100u32 {
        world.update();
        assert_eq!(grains(&world), vec![(200, tick)]);
        assert_eq!(active_cells(&world), vec![(200, tick)]);
    }
}

#[test]
fn grain_dropped_at_the_top_is_in_row_eight_after_eight_ticks() {
    let mut world = World::new();
    place_grain(&mut world, 5, 0);
    for _ in 0..8 {
        world.update();
    }
    assert_eq!(grains(&world), vec![(5, 8)]);
    assert_eq!(active_cells(&world), vec![(5, 8)]);
}

#[test]
fn lone_grain_comes_to_rest_in_the_bottom_row() {
    let mut world = World::new();
    place_grain(&mut world, 5, 0);
    for _ in 0..238 {
        world.update();
    }
    assert_eq!(grains(&world), vec![(5, 238)]);
    world.update();
    assert_eq!(grains(&world), vec![(5, 239)]);
    for _ in 0..25 {
        world.update();
        assert_eq!(grains(&world), vec![(5, 239)]);
        assert_eq!(active_cells(&world), vec![(5, 239)]);
    }
}

#[test]
fn grain_in_the_second_column_may_fall() {
    let mut world = World::new();
    place_grain(&mut world, 1, 10);
    place_grain(&mut world, 425, 10);
    world.update();
    assert_eq!(grains(&world), vec![(1, 11), (425, 11)]);
}

#[test]
fn blocked_grain_slides_down_left_first() {
    let mut world = World::new();
    world.set(10, 6, Particle::Static);
    place_grain(&mut world, 10, 5);
    world.update();
    assert_eq!(world.get(10, 5), Particle::Empty);
    assert_eq!(world.get(9, 6), Particle::Sand);
    assert_eq!(world.get(11, 6), Particle::Empty);
    assert_eq!(world.get(10, 6), Particle::Static);
    assert_eq!(grains(&world), vec![(9, 6)]);
    assert_eq!(active_cells(&world), vec![(9, 6)]);
}

#[test]
fn blocked_grain_slides_down_right_when_left_is_taken() {
    let mut world = World::new();
    world.set(10, 6, Particle::Static);
    world.set(9, 6, Particle::Static);
    place_grain(&mut world, 10, 5);
    world.update();
    assert_eq!(world.get(10, 5), Particle::Empty);
    assert_eq!(world.get(11, 6), Particle::Sand);
    assert_eq!(grains(&world), vec![(11, 6)]);
    assert_eq!(active_cells(&world), vec![(11, 6)]);
    assert_eq!(obstacles(&world), vec![(9, 6), (10, 6)]);
}

#[test]
fn grain_on_three_obstacles_rests_and_stays_active() {
    let mut world = World::new();
    world.set(9, 6, Particle::Static);
    world.set(10, 6, Particle::Static);
    world.set(11, 6, Particle::Static);
    place_grain(&mut world, 10, 5);
    for _ in 0..50 {
        world.update();
        assert_eq!(grains(&world), vec![(10, 5)]);
        assert_eq!(active_cells(&world), vec![(10, 5)]);
    }
    assert_eq!(obstacles(&world), vec![(9, 6), (10, 6), (11, 6)]);
}

#[test]
fn resting_grain_moves_on_once_a_cell_clears() {
    let mut world = World::new();
    world.set(9, 6, Particle::Static);
    world.set(10, 6, Particle::Static);
    world.set(11, 6, Particle::Static);
    place_grain(&mut world, 10, 5);
    world.update();
    assert_eq!(grains(&world), vec![(10, 5)]);
    world.set(11, 6, Particle::Empty);
    world.update();
    assert_eq!(grains(&world), vec![(11, 6)]);
}

#[test]
fn grains_on_the_edges_never_move() {
    let mut world = World::new();
    place_grain(&mut world, 0, 10);
    place_grain(&mut world, 426, 10);
    place_grain(&mut world, 7, 239);
    place_grain(&mut world, 0, 0);
    place_grain(&mut world, 426, 239);
    let expected = vec![(0, 0), (0, 10), (426, 10), (7, 239), (426, 239)];
    for _ in 0..40 {
        world.update();
        assert_eq!(grains(&world), expected);
        assert_eq!(active_cells(&world), expected);
    }
    assert_eq!(world.get(0, 11), Particle::Empty);
    assert_eq!(world.get(426, 11), Particle::Empty);
}

#[test]
fn fall_moves_the_grain_and_its_membership() {
    let mut world = World::new();
    place_grain(&mut world, 5, 0);
    world.fall(5);
    assert_eq!(grains(&world), vec![(5, 1)]);
    assert_eq!(active_cells(&world), vec![(5, 1)]);
    world.fall(427 + 5);
    assert_eq!(grains(&world), vec![(5, 2)]);
    assert_eq!(active_cells(&world), vec![(5, 2)]);
}

#[test]
fn fall_does_not_ask_what_the_cell_holds() {
    let mut world = World::new();
    place_grain(&mut world, 5, 1);
    world.fall(5);
    assert_eq!(world.get(5, 0), Particle::Empty);
    assert_eq!(grains(&world), vec![(4, 1), (5, 1)]);
    assert_eq!(active_cells(&world), vec![(4, 1), (5, 1)]);
}

#[test]
fn fall_leaves_a_blocked_grain_where_it_is() {
    let mut world = World::new();
    world.set(9, 6, Particle::Static);
    world.set(10, 6, Particle::Sand);
    world.set(11, 6, Particle::Static);
    place_grain(&mut world, 10, 5);
    world.fall(5 * 427 + 10);
    assert_eq!(grains(&world), vec![(10, 5), (10, 6)]);
    assert_eq!(active_cells(&world), vec![(10, 5)]);
}

#[test]
fn fall_ignores_indices_outside_the_grid() {
    let mut world = World::new();
    place_grain(&mut world, 5, 0);
    let before = picture(&world);
    world.fall(CELLS);
    world.fall(CELLS + 5);
    world.fall(usize::MAX);
    assert_eq!(picture(&world), before);
    assert_eq!(active_cells(&world), vec![(5, 0)]);
}

#[test]
fn fall_in_order_with_the_upper_grain_first() {
    let mut world = World::new();
    place_grain(&mut world, 5, 0);
    place_grain(&mut world, 5, 1);
    world.fall_in_order(&[5, 427 + 5]);
    assert_eq!(grains(&world), vec![(4, 1), (5, 2)]);
    assert_eq!(active_cells(&world), vec![(4, 1), (5, 2)]);
}

#[test]
fn fall_in_order_with_the_lower_grain_first() {
    let mut world = World::new();
    place_grain(&mut world, 5, 0);
    place_grain(&mut world, 5, 1);
    world.fall_in_order(&[427 + 5, 5]);
    assert_eq!(grains(&world), vec![(5, 1), (5, 2)]);
    assert_eq!(active_cells(&world), vec![(5, 1), (5, 2)]);
}

#[test]
fn fall_in_order_of_nothing_changes_nothing() {
    let mut world = World::new();
    place_grain(&mut world, 5, 0);
    world.fall_in_order(&[]);
    assert_eq!(grains(&world), vec![(5, 0)]);
    assert_eq!(active_cells(&world), vec![(5, 0)]);
}

#[test]
fn cell_activated_during_a_tick_waits_for_the_next() {
    let mut world = World::new();
    place_grain(&mut world, 5, 0);
    let order = world.snapshot();
    world.fall_in_order(&order);
    assert_eq!(grains(&world), vec![(5, 1)]);
    let order = world.snapshot();
    assert_eq!(order, vec![427 + 5]);
}

#[test]
fn tick_neither_makes_nor_loses_sand() {
    let mut world = World::new();
    world.add(100, 100, Particle::Sand);
    for x in 80..120 {
        world.set(x, 130, Particle::Static);
    }
    assert_eq!(grains(&world).len(), 400);
    for _ in 0..60 {
        world.update();
        let sand = grains(&world);
        assert_eq!(sand.len(), 400);
        assert_eq!(active_cells(&world), sand);
        assert_eq!(obstacles(&world).len(), 40);
    }
}

#[test]
fn sand_piles_up_on_an_obstacle() {
    let mut world = World::new();
    world.set(49, 21, Particle::Static);
    world.set(50, 21, Particle::Static);
    world.set(51, 21, Particle::Static);
    place_grain(&mut world, 50, 10);
    for _ in 0..30 {
        world.update();
    }
    assert_eq!(grains(&world), vec![(50, 20)]);
    assert_eq!(active_cells(&world), vec![(50, 20)]);
}

#[test]
fn stale_active_cell_falls_as_sand() {
    let mut world = World::new();
    world.set(20, 20, Particle::Static);
    world.activate(20, 20);
    world.update();
    assert_eq!(world.get(20, 20), Particle::Empty);
    assert_eq!(world.get(20, 21), Particle::Sand);
    assert_eq!(active_cells(&world), vec![(20, 21)]);
    assert!(obstacles(&world).is_empty());
}
