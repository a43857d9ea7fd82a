use capybara::powder::chunk::{get_chunk_key, Chunk};
use capybara::powder::local::LocalChunks;
use capybara::powder::schedule::schedule_chunks;
use capybara::powder::storage::Storage;
use capybara::powder::structures::{hole_key, hole_position, HoleCounter};
use capybara::powder::velocity::{move_target, side_offsets, side_target, slot_available};
use capybara::powder::{GridPosition, Particle, ParticleIndex, ParticleState};

fn p(x: i32, y: i32) -> GridPosition {
    GridPosition::new(x, y)
}

fn at<T>(x: i32, y: i32, data: T) -> Particle<T> {
    Particle { position: p(x, y), data }
}

#[test]
fn chunk_keys_of_positive_positions() {
    assert_eq!(get_chunk_key(p(0, 0)), p(0, 0));
    assert_eq!(get_chunk_key(p(31, 31)), p(0, 0));
    assert_eq!(get_chunk_key(p(32, 63)), p(1, 1));
    assert_eq!(get_chunk_key(p(64, 5)), p(2, 0));
}

#[test]
fn chunk_keys_of_negative_positions() {
    assert_eq!(get_chunk_key(p(-1, -1)), p(-2, -2));
    assert_eq!(get_chunk_key(p(-32, 0)), p(-2, 0));
    assert_eq!(get_chunk_key(p(-33, -64)), p(-3, -3));
    assert_eq!(get_chunk_key(p(-65, 0)), p(-4, 0));
}

#[test]
fn particle_state_and_index_defaults() {
    assert_eq!(ParticleState::default(), ParticleState::Unknown);
    let index = ParticleIndex::default();
    assert_eq!(index.id, 0);
    assert!(!index.present);
    assert_eq!(index.state, ParticleState::Unknown);
}

#[test]
fn new_chunk_is_empty() {
    let chunk: Chunk<u32> = Chunk::new(32, 4, 100);
    assert_eq!(chunk.particles.len(), 1024);
    assert_eq!(chunk.chunk_size, 32);
    assert_eq!(chunk.particle_size, 4);
    assert_eq!(chunk.pixels_per_meter, 100);
    assert!(!chunk.initialized && !chunk.active && !chunk.dirty);
    assert!(!chunk.particle_exists(p(3, 3)));
    assert_eq!(chunk.get_particle(p(3, 3)), None);
}

#[test]
fn cell_index_wraps_inside_the_chunk() {
    let chunk: Chunk<u32> = Chunk::new(32, 4, 100);
    assert_eq!(chunk.position_to_index(p(3, 2)), 67);
    assert_eq!(chunk.position_to_index(p(35, 34)), 67);
    assert_eq!(chunk.position_to_index(p(-1, -1)), 1023);
    assert_eq!(chunk.position_to_index(p(0, 0)), 0);
}

#[test]
fn initialize_places_the_chunk() {
    let mut chunk: Chunk<u32> = Chunk::new(32, 4, 100);
    chunk.initialize(p(2, -1));
    assert!(chunk.initialized);
    assert_eq!(chunk.position, p(2, -1));
}

#[test]
fn added_particle_is_found_then_removed() {
    let mut chunk: Chunk<u32> = Chunk::new(32, 4, 100);
    let id = chunk.add_particle(p(1, 1), ParticleState::Powder, 7, [9, 9, 9, 255]);
    assert_eq!(id, 0);
    assert!(chunk.active);
    assert!(!chunk.dirty);
    assert!(chunk.particle_exists(p(1, 1)));
    assert_eq!(chunk.get_particle(p(1, 1)), Some(&at(1, 1, 7)));
    assert_eq!(chunk.get_particle(p(1, 2)), None);
    assert_eq!(chunk.get_storage(ParticleState::Powder).get(0), Some(&at(1, 1, 7)));
    assert_eq!(chunk.remove_particle(p(1, 1)), Some(at(1, 1, 7)));
    assert!(!chunk.particle_exists(p(1, 1)));
    assert_eq!(chunk.remove_particle(p(1, 1)), None);
}

#[test]
fn solid_particle_marks_chunk_dirty() {
    let mut chunk: Chunk<u32> = Chunk::new(32, 4, 100);
    chunk.add_particle(p(4, 4), ParticleState::Solid, 1, [9, 9, 9, 255]);
    assert!(chunk.dirty);
    assert!(chunk.active);
}

#[test]
fn particles_of_each_state_have_their_own_storage() {
    let mut chunk: Chunk<u32> = Chunk::new(32, 4, 100);
    assert_eq!(chunk.add_particle(p(0, 0), ParticleState::Fluid, 10, [9, 9, 9, 255]), 0);
    assert_eq!(chunk.add_particle(p(1, 0), ParticleState::Fluid, 11, [9, 9, 9, 255]), 1);
    assert_eq!(chunk.add_particle(p(2, 0), ParticleState::Powder, 12, [9, 9, 9, 255]), 0);
    assert_eq!(chunk.remove_particle(p(0, 0)), Some(at(0, 0, 10)));
    assert_eq!(chunk.add_particle(p(3, 0), ParticleState::Fluid, 13, [9, 9, 9, 255]), 0);
    assert_eq!(chunk.get_particle(p(3, 0)), Some(&at(3, 0, 13)));
    assert_eq!(chunk.get_particle(p(1, 0)), Some(&at(1, 0, 11)));
}

#[test]
fn replaced_particle_is_returned() {
    let mut chunk: Chunk<u32> = Chunk::new(32, 4, 100);
    chunk.add_particle(p(5, 6), ParticleState::Powder, 1, [9, 9, 9, 255]);
    assert_eq!(chunk.replace_particle(p(5, 6), 2), Some(at(5, 6, 1)));
    assert_eq!(chunk.get_particle(p(5, 6)), Some(&at(5, 6, 2)));
    assert_eq!(chunk.replace_particle(p(6, 6), 3), None);
    assert_eq!(chunk.get_particle(p(6, 6)), None);
}

fn local_pair() -> LocalChunks<u32> {
    let mut left: Chunk<u32> = Chunk::new(32, 4, 100);
    left.initialize(p(0, 0));
    let mut right: Chunk<u32> = Chunk::new(32, 4, 100);
    right.initialize(p(1, 0));
    LocalChunks::new(vec![left, right])
}

#[test]
fn local_chunks_find_the_chunk_of_a_position() {
    let local = local_pair();
    assert!(local.is_position_valid(p(0, 0)));
    assert!(local.is_position_valid(p(63, 31)));
    assert!(!local.is_position_valid(p(64, 0)));
    assert!(!local.is_position_valid(p(-1, 0)));
    assert!(!local.is_position_valid(p(0, 32)));
}

#[test]
fn local_chunks_add_and_remove() {
    let mut local = local_pair();
    local.add_particle(p(40, 3), ParticleState::Fluid, 9, [9, 9, 9, 255]);
    assert_eq!(local.get_particle(p(40, 3)), Some(&at(40, 3, 9)));
    assert_eq!(local.get_particle(p(8, 3)), None);
    assert!(local.chunks[1].active);
    assert!(!local.chunks[0].active);
    assert_eq!(local.remove_particle(p(40, 3)), Some(at(40, 3, 9)));
    assert_eq!(local.get_particle(p(40, 3)), None);
}

#[test]
fn local_chunks_ignore_positions_outside() {
    let mut local = local_pair();
    local.add_particle(p(100, 3), ParticleState::Fluid, 9, [9, 9, 9, 255]);
    assert_eq!(local.get_particle(p(100, 3)), None);
    assert_eq!(local.remove_particle(p(100, 3)), None);
    local.mark_chunk_as_active(p(100, 3));
    assert!(!local.chunks[0].active && !local.chunks[1].active);
    local.mark_chunk_as_active(p(2, 2));
    assert!(local.chunks[0].active);
}

#[test]
fn storage_reuses_the_lowest_free_slot() {
    let mut storage: Storage<char> = Storage::new();
    assert!(storage.is_empty());
    assert_eq!(storage.store('a'), 0);
    assert_eq!(storage.store('b'), 1);
    assert_eq!(storage.store('c'), 2);
    assert_eq!(storage.remove(1), Some('b'));
    assert_eq!(storage.remove(1), None);
    assert_eq!(storage.remove(7), None);
    assert_eq!(storage.store('d'), 1);
    assert_eq!(storage.capacity(), 3);
    assert_eq!(storage.get(1), Some(&'d'));
    assert_eq!(*storage.get_unchecked(2), 'c');
    assert_eq!(storage.get(3), None);
}

#[test]
fn storage_walks_occupied_slots_in_order() {
    let mut storage: Storage<u8> = Storage::new();
    storage.store(10);
    storage.store(11);
    storage.store(12);
    storage.remove(0);
    storage.remove(2);
    assert_eq!(storage.get_next_id(None), Some(1));
    assert_eq!(storage.get_next_id(Some(1)), None);
    assert!(!storage.is_empty());
    storage.remove(1);
    assert!(storage.is_empty());
    assert_eq!(storage.get_next_id(None), None);
}

#[test]
fn storage_replace_and_clear() {
    let mut storage: Storage<u8> = Storage::new();
    storage.store(1);
    assert_eq!(storage.replace(0, 2), 1);
    assert_eq!(storage.get(0), Some(&2));
    storage.clear();
    assert_eq!(storage.capacity(), 0);
    assert_eq!(storage.store(3), 0);
}

#[test]
fn schedule_separates_near_chunks() {
    let batches = schedule_chunks(&[p(0, 0), p(1, 0), p(5, 0)]);
    assert_eq!(batches, vec![vec![p(5, 0), p(1, 0)], vec![p(0, 0)]]);
}

#[test]
fn schedule_of_distant_chunks_is_one_batch() {
    let batches = schedule_chunks(&[p(0, 0), p(3, 0), p(0, 3), p(3, 3)]);
    assert_eq!(batches, vec![vec![p(3, 3), p(0, 3), p(3, 0), p(0, 0)]]);
}

#[test]
fn schedule_of_a_block_needs_several_batches() {
    let chunks = [p(0, 0), p(1, 0), p(2, 0), p(0, 1), p(1, 1), p(2, 1)];
    let batches = schedule_chunks(&chunks);
    let mut all: Vec<GridPosition> = batches.iter().flatten().copied().collect();
    assert_eq!(all.len(), 6);
    all.sort_by_key(|q| (q.x, q.y));
    let mut expected = chunks.to_vec();
    expected.sort_by_key(|q| (q.x, q.y));
    assert_eq!(all, expected);
    assert_eq!(batches.len(), 6);
}

#[test]
fn schedule_of_nothing_is_empty() {
    assert!(schedule_chunks(&[]).is_empty());
}

#[test]
fn hole_keys() {
    assert_eq!(hole_key(p(3, 2)), 3 | (2 << 16));
    assert_eq!(hole_position(hole_key(p(3, 2))), p(3, 2));
    assert_eq!(hole_position(hole_key(p(100, -5))), p(100, -5));
    assert_eq!(hole_key(p(-1, 0)), -1);
    assert_eq!(hole_position(-1), p(0xffff, -1));
}

#[test]
fn holes_are_cells_covered_on_four_sides() {
    let mut counter = HoleCounter::new();
    assert!(counter.holes().is_empty());
    for _ in 0..4 {
        counter.count_side(p(5, 5));
    }
    counter.count_side(p(6, 5));
    counter.count_side(p(6, 5));
    assert_eq!(counter.holes(), vec![p(5, 5)]);
    counter.count_side(p(5, 5));
    assert!(counter.holes().is_empty());
}

#[test]
fn several_holes_are_each_listed_once() {
    let mut counter = HoleCounter::new();
    for _ in 0..4 {
        counter.count_side(p(1, 1));
        counter.count_side(p(3, 1));
    }
    let mut holes = counter.holes();
    holes.sort_by_key(|q| (q.x, q.y));
    assert_eq!(holes, vec![p(1, 1), p(3, 1)]);
}

#[test]
fn slot_availability() {
    assert!(slot_available(ParticleState::Powder, None));
    assert!(slot_available(ParticleState::Fluid, None));
    assert!(slot_available(ParticleState::Powder, Some(ParticleState::Fluid)));
    assert!(slot_available(ParticleState::Solid, Some(ParticleState::Fluid)));
    assert!(!slot_available(ParticleState::Fluid, Some(ParticleState::Fluid)));
    assert!(!slot_available(ParticleState::Powder, Some(ParticleState::Powder)));
    assert!(!slot_available(ParticleState::Powder, Some(ParticleState::Solid)));
}

#[test]
fn sides_of_a_step() {
    assert_eq!(side_offsets(p(1, 0)), (p(0, 1), p(0, -1)));
    assert_eq!(side_offsets(p(-1, 0)), (p(0, 1), p(0, -1)));
    assert_eq!(side_offsets(p(0, 1)), (p(1, 0), p(-1, 0)));
    assert_eq!(side_offsets(p(0, -1)), (p(1, 0), p(-1, 0)));
}

#[test]
fn side_targets() {
    let first = p(4, 5);
    let second = p(4, 3);
    assert_eq!(side_target(ParticleState::Powder, first, Some(ParticleState::Solid), second, None, true), (Some(second), false));
    assert_eq!(side_target(ParticleState::Powder, first, Some(ParticleState::Fluid), second, Some(ParticleState::Solid), false), (Some(first), true));
    assert_eq!(side_target(ParticleState::Powder, first, None, second, None, true), (Some(first), false));
    assert_eq!(side_target(ParticleState::Powder, first, None, second, Some(ParticleState::Fluid), false), (Some(second), true));
    assert_eq!(side_target(ParticleState::Fluid, first, Some(ParticleState::Fluid), second, Some(ParticleState::Powder), true), (None, false));
}

#[test]
fn move_into_free_cell() {
    let next = p(1, 0);
    assert_eq!(move_target(ParticleState::Powder, next, None, p(1, 1), None, p(1, -1), None), (Some(next), false));
}

#[test]
fn powder_sinks_into_fluid() {
    let next = p(0, -1);
    assert_eq!(
        move_target(ParticleState::Powder, next, Some(ParticleState::Fluid), p(1, -1), None, p(-1, -1), None),
        (Some(next), true)
    );
}

#[test]
fn blocked_move_goes_to_the_free_side() {
    let next = p(0, -1);
    assert_eq!(
        move_target(ParticleState::Fluid, next, Some(ParticleState::Solid), p(1, -1), Some(ParticleState::Solid), p(-1, -1), None),
        (Some(p(-1, -1)), false)
    );
    assert_eq!(
        move_target(ParticleState::Fluid, next, Some(ParticleState::Fluid), p(1, -1), Some(ParticleState::Fluid), p(-1, -1), Some(ParticleState::Powder)),
        (None, false)
    );
}

#[test]
fn blocked_move_with_two_free_sides_takes_one_of_them() {
    let next = p(0, -1);
    for _ in 0..32 {
        let target = move_target(ParticleState::Powder, next, Some(ParticleState::Solid), p(1, -1), None, p(-1, -1), None);
        assert!(target == (Some(p(1, -1)), false) || target == (Some(p(-1, -1)), false));
    }
}

use capybara::powder::collider::{rectangles_bounds, split_into_rectangles, CellMasses, MassRectangle};

fn cells(list: &[((i32, i32), u32)]) -> CellMasses {
    let mut cells = CellMasses::default();
    for (cell, mass) in list {
        cells.insert(*cell, *mass);
    }
    cells
}

fn area(rectangle: &MassRectangle) -> i64 {
    (rectangle.right_top.x - rectangle.left_bottom.x + 1) as i64 * (rectangle.right_top.y - rectangle.left_bottom.y + 1) as i64
}

#[test]
fn square_of_one_mass_is_one_rectangle() {
    let mut map = cells(&[((0, 0), 1), ((1, 0), 1), ((0, 1), 1), ((1, 1), 1)]);
    let rectangles = split_into_rectangles(&mut map);
    assert!(map.is_empty());
    assert_eq!(rectangles, vec![MassRectangle { left_bottom: p(0, 0), right_top: p(1, 1), mass: 1 }]);
    assert_eq!(rectangles_bounds(&rectangles), Some((p(0, 0), p(1, 1))));
}

#[test]
fn l_shape_is_split_into_two_rectangles() {
    let listed = [((0, 0), 3), ((1, 0), 3), ((2, 0), 3), ((0, 1), 3), ((0, 2), 3)];
    let mut map = cells(&listed);
    let rectangles = split_into_rectangles(&mut map);
    assert!(map.is_empty());
    assert_eq!(rectangles.len(), 2);
    assert_eq!(rectangles.iter().map(area).sum::<i64>(), 5);
    for (cell, _) in listed {
        let holders = rectangles
            .iter()
            .filter(|r| r.left_bottom.x <= cell.0 && cell.0 <= r.right_top.x && r.left_bottom.y <= cell.1 && cell.1 <= r.right_top.y)
            .count();
        assert_eq!(holders, 1);
    }
    assert_eq!(rectangles_bounds(&rectangles), Some((p(0, 0), p(2, 2))));
}

#[test]
fn different_masses_are_never_merged() {
    let mut map = cells(&[((5, -2), 1), ((6, -2), 2)]);
    let mut rectangles = split_into_rectangles(&mut map);
    rectangles.sort_by_key(|r| r.mass);
    assert_eq!(
        rectangles,
        vec![
            MassRectangle { left_bottom: p(5, -2), right_top: p(5, -2), mass: 1 },
            MassRectangle { left_bottom: p(6, -2), right_top: p(6, -2), mass: 2 },
        ]
    );
}

#[test]
fn no_cells_no_rectangles() {
    let mut map = cells(&[]);
    let rectangles = split_into_rectangles(&mut map);
    assert!(rectangles.is_empty());
    assert_eq!(rectangles_bounds(&rectangles), None);
}

use capybara::powder::world::PowderWorld;

#[test]
fn world_chunks_are_added_once() {
    let mut world: PowderWorld<u8> = PowderWorld::new(32, 4, 100);
    assert!(!world.is_position_valid(p(0, 0)));
    assert!(world.add_chunk(p(0, 0)));
    assert!(!world.add_chunk(p(0, 0)));
    assert!(world.is_position_valid(p(5, 5)));
    assert!(world.is_position_valid(p(31, 31)));
    assert!(!world.is_position_valid(p(32, 0)));
    assert!(!world.is_position_valid(p(-1, 0)));
    assert!(world.get_chunk(p(7, 7)).is_some());
    assert!(world.get_chunk(p(70, 7)).is_none());
}

#[test]
fn world_particles_go_to_their_chunk() {
    let mut world: PowderWorld<u8> = PowderWorld::new(32, 4, 100);
    world.add_chunk(p(0, 0));
    assert!(!world.particle_exists(p(5, 5)));
    world.add_particle(p(5, 5), ParticleState::Powder, 1, [9, 9, 9, 255]);
    assert!(world.particle_exists(p(5, 5)));
    assert!(!world.particle_exists(p(6, 5)));
    assert_eq!(world.get_chunk(p(0, 0)).unwrap().get_particle(p(5, 5)), Some(&at(5, 5, 1)));
    assert_eq!(world.remove_particle(p(5, 5)), Some(at(5, 5, 1)));
    assert_eq!(world.remove_particle(p(5, 5)), None);
    assert!(!world.particle_exists(p(5, 5)));
}

#[test]
fn world_adds_missing_chunks_for_particles() {
    let mut world: PowderWorld<u8> = PowderWorld::new(32, 4, 100);
    world.add_particle(p(100, -1), ParticleState::Fluid, 9, [9, 9, 9, 255]);
    assert!(world.is_position_valid(p(100, -1)));
    assert!(world.particle_exists(p(100, -1)));
    assert_eq!(world.chunks.len(), 1);
    assert!(world.chunks.contains_key(&(3, -2)));
}

#[test]
fn world_chunks_are_removed() {
    let mut world: PowderWorld<u8> = PowderWorld::new(32, 4, 100);
    world.add_chunk(p(0, 0));
    world.add_chunk(p(1, 0));
    world.add_chunk(p(2, 0));
    assert!(world.remove_chunk(p(1, 0)).is_some());
    assert!(world.remove_chunk(p(1, 0)).is_none());
    assert!(!world.is_position_valid(p(40, 0)));
    let removed = world.reset();
    assert_eq!(removed.len(), 2);
    let mut keys: Vec<(i32, i32)> = removed.iter().map(|(key, _)| *key).collect();
    keys.sort();
    assert_eq!(keys, vec![(0, 0), (2, 0)]);
    assert!(world.chunks.is_empty());
}

#[test]
fn world_initializes_chunks_at_their_keys() {
    let mut world: PowderWorld<u8> = PowderWorld::new(32, 4, 100);
    world.add_chunk(p(0, 0));
    world.add_chunk(p(-1, 2));
    let mut initialized = world.initialize_chunks();
    initialized.sort_by_key(|q| (q.x, q.y));
    assert_eq!(initialized, vec![p(-1, 2), p(0, 0)]);
    assert_eq!(world.chunks[&(-1, 2)].position, p(-1, 2));
    assert!(world.chunks[&(0, 0)].initialized);
    assert!(world.initialize_chunks().is_empty());
}

#[test]
fn world_chunks_to_process_are_the_active_ones() {
    let mut world: PowderWorld<u8> = PowderWorld::new(32, 4, 100);
    world.add_chunk(p(0, 0));
    world.add_chunk(p(1, 0));
    world.add_particle(p(40, 1), ParticleState::Powder, 1, [9, 9, 9, 255]);
    assert_eq!(world.chunks_to_process(false), vec![p(1, 0)]);
    assert!(world.chunks_to_process(false).is_empty());
    let mut all = world.chunks_to_process(true);
    all.sort_by_key(|q| (q.x, q.y));
    assert_eq!(all, vec![p(0, 0), p(1, 0)]);
}

#[test]
fn world_lends_a_neighbourhood_for_a_step() {
    let mut world: PowderWorld<u8> = PowderWorld::new(32, 4, 100);
    for position in [p(0, 0), p(1, 0), p(0, -1), p(1, 1), p(3, 0)] {
        world.add_chunk(position);
    }
    world.initialize_chunks();
    let (mut local, keys) = world.take_local(p(0, 0));
    assert_eq!(keys, vec![(0, 0), (0, -1), (1, 0), (1, 1)]);
    assert_eq!(local.chunks.len(), 4);
    assert_eq!(world.chunks.len(), 1);
    assert!(world.chunks.contains_key(&(3, 0)));

    local.add_particle(p(40, 40), ParticleState::Fluid, 6, [9, 9, 9, 255]);
    assert_eq!(local.get_particle(p(40, 40)), Some(&at(40, 40, 6)));

    world.restore_local((local, keys));
    assert_eq!(world.chunks.len(), 5);
    assert!(world.particle_exists(p(40, 40)));
    assert_eq!(world.remove_particle(p(40, 40)), Some(at(40, 40, 6)));
}

use capybara::powder::canvas::CanvasPixels;

#[test]
fn blank_canvas_is_opaque_black() {
    let canvas = CanvasPixels::new(2);
    assert_eq!(canvas.texture_data, vec![0, 0, 0, 255, 0, 0, 0, 255, 0, 0, 0, 255, 0, 0, 0, 255]);
}

#[test]
fn canvas_pixel_of_a_cell() {
    let mut canvas = CanvasPixels::new(4);
    assert_eq!(canvas.position_to_texture_index(p(1, 2)), 9);
    canvas.set_particle(p(5, 6), [10, 20, 30, 40]);
    assert_eq!(&canvas.texture_data[36..40], &[10, 20, 30, 40]);
    canvas.set_particle(p(-1, -1), [1, 2, 3, 4]);
    assert_eq!(&canvas.texture_data[60..64], &[1, 2, 3, 4]);
    assert_eq!(&canvas.texture_data[0..4], &[0, 0, 0, 255]);
}

use capybara::powder::fluid::{fluid_outlets, fluid_substep};

#[test]
fn fluid_substeps_select_particles_by_fluidity() {
    let fluidities = [0, 1, 3, 2];
    assert_eq!(fluid_substep(&fluidities, 0), (vec![false, true, true, true], true));
    assert_eq!(fluid_substep(&fluidities, 1), (vec![false, false, true, true], true));
    assert_eq!(fluid_substep(&fluidities, 2), (vec![false, false, true, false], false));
    assert_eq!(fluid_substep(&[], 0), (vec![], false));
    assert_eq!(fluid_substep(&[1, 1], 0), (vec![true, true], false));
}

#[test]
fn each_fluid_particle_runs_its_fluidity() {
    let fluidities = [0, 1, 3, 2, 5];
    let mut runs = vec![0; fluidities.len()];
    let mut substep = 0;
    loop {
        let (takes_part, more) = fluid_substep(&fluidities, substep);
        for (i, part) in takes_part.iter().enumerate() {
            if *part {
                runs[i] += 1;
            }
        }
        if !more {
            break;
        }
        substep += 1;
    }
    assert_eq!(runs, fluidities.to_vec());
}

#[test]
fn chunk_pixels_follow_particles() {
    let mut chunk: Chunk<u32> = Chunk::new(4, 4, 100);
    assert_eq!(&chunk.canvas.texture_data[20..24], &[0, 0, 0, 255]);
    chunk.add_particle(p(1, 1), ParticleState::Powder, 7, [200, 100, 50, 255]);
    assert_eq!(&chunk.canvas.texture_data[20..24], &[200, 100, 50, 255]);
    chunk.set_particle_color(p(1, 1), [1, 2, 3, 4]);
    assert_eq!(&chunk.canvas.texture_data[20..24], &[1, 2, 3, 4]);
    assert_eq!(chunk.remove_particle(p(1, 1)), Some(at(1, 1, 7)));
    assert_eq!(&chunk.canvas.texture_data[20..24], &[0, 0, 0, 255]);
}

#[test]
fn removing_from_an_empty_cell_changes_nothing() {
    let mut chunk: Chunk<u32> = Chunk::new(4, 4, 100);
    chunk.canvas.texture_data[0] = 77;
    assert_eq!(chunk.remove_particle(p(0, 0)), None);
    assert!(!chunk.active && !chunk.dirty);
    assert_eq!(chunk.canvas.texture_data[0], 77);
}

#[test]
fn local_particle_data_is_replaced_in_place() {
    let mut local = local_pair();
    local.add_particle(p(40, 3), ParticleState::Fluid, 9, [0, 0, 255, 255]);
    local.chunks[1].active = false;
    assert_eq!(local.replace_particle(p(40, 3), 10), Some(at(40, 3, 9)));
    assert_eq!(local.get_particle(p(40, 3)), Some(&at(40, 3, 10)));
    assert!(!local.chunks[1].active);
    assert_eq!(local.replace_particle(p(41, 3), 11), None);
    local.set_particle_color(p(40, 3), [5, 6, 7, 8]);
    assert_eq!(&local.chunks[1].canvas.texture_data[4 * (8 + 3 * 32)..4 * (8 + 3 * 32) + 4], &[5, 6, 7, 8]);
}

use capybara::powder::structures::Placement;

#[test]
fn structure_particles_take_empty_or_fluid_cells() {
    let mut world: PowderWorld<u8> = PowderWorld::new(32, 4, 100);
    world.add_chunk(p(0, 0));
    let mut holes = HoleCounter::new();
    assert!(matches!(world.place_structure_particle(p(5, 5), ParticleState::Solid, 1, [1, 1, 1, 255], &mut holes), Placement::Placed { displaced: None }));
    assert!(world.particle_exists(p(5, 5)));
    assert!(matches!(world.place_structure_particle(p(5, 5), ParticleState::Solid, 2, [1, 1, 1, 255], &mut holes), Placement::Kept { particle: 2 }));
    world.add_particle(p(7, 7), ParticleState::Fluid, 3, [0, 0, 255, 255]);
    assert!(matches!(world.place_structure_particle(p(7, 7), ParticleState::Solid, 4, [1, 1, 1, 255], &mut holes), Placement::Placed { displaced: Some(Particle { position: GridPosition { x: 7, y: 7 }, data: 3 }) }));
    assert_eq!(world.get_chunk(p(7, 7)).unwrap().get_particle(p(7, 7)), Some(&at(7, 7, 4)));
    assert!(matches!(world.place_structure_particle(p(100, 100), ParticleState::Solid, 5, [1, 1, 1, 255], &mut holes), Placement::Kept { particle: 5 }));
}

#[test]
fn a_cell_surrounded_by_a_structure_is_a_hole_and_gets_filled() {
    let mut world: PowderWorld<u8> = PowderWorld::new(32, 4, 100);
    world.add_chunk(p(0, 0));
    let mut holes = HoleCounter::new();
    for (position, id) in [(p(9, 10), 1), (p(11, 10), 2), (p(10, 9), 3), (p(10, 11), 4)] {
        world.place_structure_particle(position, ParticleState::Solid, id, [1, 1, 1, 255], &mut holes);
    }
    assert_eq!(holes.holes(), vec![p(10, 10)]);
    let filling = world.fill_hole(p(10, 10), [2, 2, 2, 255]);
    assert!(filling.filled);
    assert_eq!(filling.displaced, None);
    assert_eq!(world.get_chunk(p(10, 10)).unwrap().get_particle(p(10, 10)), Some(&at(10, 10, 4)));
    let again = world.fill_hole(p(10, 10), [2, 2, 2, 255]);
    assert!(!again.filled);
}

#[test]
fn a_displaced_fluid_spreads_to_empty_and_same_kind_neighbours() {
    let outlets = fluid_outlets(p(5, 5), 2, [None, Some(2), Some(3), None], [false, false, false, true]);
    assert_eq!(outlets, vec![(p(6, 5), true), (p(4, 5), false)]);
    let walled = fluid_outlets(p(-5, 0), 1, [Some(0), Some(0), None, None], [false, false, true, true]);
    assert!(walled.is_empty());
    let open = fluid_outlets(p(0, 0), 0, [None, None, None, None], [false, false, false, false]);
    assert_eq!(open, vec![(p(1, 0), true), (p(-1, 0), true), (p(0, 1), true), (p(0, -1), true)]);
}

#[test]
fn world_particle_data_is_replaced_in_place() {
    let mut world: PowderWorld<u8> = PowderWorld::new(32, 4, 100);
    world.add_particle(p(3, 4), ParticleState::Fluid, 7, [0, 0, 255, 255]);
    assert_eq!(world.replace_particle(p(3, 4), 8), Some(at(3, 4, 7)));
    assert_eq!(world.get_chunk(p(3, 4)).unwrap().get_particle(p(3, 4)), Some(&at(3, 4, 8)));
    assert_eq!(world.get_chunk(p(3, 4)).unwrap().particle_state(p(3, 4)), Some(ParticleState::Fluid));
    assert_eq!(world.replace_particle(p(5, 5), 9), None);
    assert!(!world.particle_exists(p(5, 5)));
}
