use life_grid::binding::{BindingSet, BindingTable};
use life_grid::clock::SimClock;
use life_grid::geometry::{quad_vertex_count, quad_vertex_layout, unit_quad_tenths};
use life_grid::grid::{next_coord, prev_coord, seed_grid, Grid};
use life_grid::orchestrator::{
    tiles_to_cover, AcquireError, EventAction, FrameAction, Orchestrator, Phase, WindowSignal,
};

fn grid_from_rows(rows: &[&[u8]]) -> Grid {
    let height = rows.len();
    let width = rows[0].len();
    let mut cells = Vec::new();
    for row in rows {
        assert_eq!(row.len(), width);
        for &v in row.iter() {
            cells.push(v != 0);
        }
    }
    Grid { width, height, cells }
}

fn assert_rows(g: &Grid, rows: &[&[u8]]) {
    assert_eq!(g.height, rows.len());
    assert_eq!(g.width, rows[0].len());
    for y in 0..g.height {
        for x in 0..g.width {
            assert_eq!(
                g.cell_at(x, y),
                rows[y][x] != 0,
                "cell ({}, {}) differs",
                x,
                y
            );
        }
    }
}

#[test]
fn wrap_at_edges() {
    assert_eq!(prev_coord(0, 4), 3);
    assert_eq!(prev_coord(3, 4), 2);
    assert_eq!(next_coord(3, 4), 0);
    assert_eq!(next_coord(0, 4), 1);
    assert_eq!(prev_coord(0, 1), 0);
    assert_eq!(next_coord(0, 1), 0);
}

#[test]
fn corner_cell_sees_opposite_corners() {
    // Only the three wrapped-around neighbours of (0, 0) are alive.
    let g = grid_from_rows(&[
        &[0, 0, 0, 1],
        &[0, 0, 0, 0],
        &[0, 0, 0, 0],
        &[1, 0, 0, 1],
    ]);
    assert_eq!(g.live_neighbour_count(0, 0), 3);
    // And (0, 0) itself is dead with exactly three neighbours: it is born.
    let next = g.step();
    assert!(next.cell_at(0, 0));
}

#[test]
fn lone_cell_dies_of_underpopulation() {
    let g = grid_from_rows(&[
        &[0, 0, 0, 0],
        &[0, 1, 0, 0],
        &[0, 0, 0, 0],
        &[0, 0, 0, 0],
    ]);
    assert_eq!(g.live_neighbour_count(1, 1), 0);
    let next = g.step();
    for y in 0..4 {
        for x in 0..4 {
            assert!(!next.cell_at(x, y));
        }
    }
}

#[test]
fn dead_cell_with_three_neighbours_is_born() {
    let g = grid_from_rows(&[
        &[0, 0, 0, 0, 0],
        &[0, 1, 1, 0, 0],
        &[0, 1, 0, 0, 0],
        &[0, 0, 0, 0, 0],
        &[0, 0, 0, 0, 0],
    ]);
    assert_eq!(g.live_neighbour_count(2, 2), 3);
    assert!(g.step().cell_at(2, 2));
}

#[test]
fn dead_cell_with_two_neighbours_stays_dead() {
    let g = grid_from_rows(&[
        &[0, 0, 0, 0, 0],
        &[0, 1, 1, 0, 0],
        &[0, 0, 0, 0, 0],
        &[0, 0, 0, 0, 0],
        &[0, 0, 0, 0, 0],
    ]);
    assert_eq!(g.live_neighbour_count(2, 2), 2);
    assert!(!g.step().cell_at(2, 2));
}

#[test]
fn dead_cell_with_four_neighbours_stays_dead() {
    let g = grid_from_rows(&[
        &[0, 0, 0, 0, 0],
        &[0, 1, 1, 0, 0],
        &[0, 1, 0, 1, 0],
        &[0, 0, 0, 0, 0],
        &[0, 0, 0, 0, 0],
    ]);
    assert_eq!(g.live_neighbour_count(2, 2), 4);
    assert!(!g.step().cell_at(2, 2));
}

#[test]
fn block_is_a_still_life_over_two_steps() {
    let rows: &[&[u8]] = &[
        &[0, 0, 0, 0],
        &[0, 1, 1, 0],
        &[0, 1, 1, 0],
        &[0, 0, 0, 0],
    ];
    let g = grid_from_rows(rows);
    let once = g.step();
    assert_rows(&once, rows);
    let twice = once.step();
    assert_rows(&twice, rows);
}

#[test]
fn blinker_oscillates() {
    let vertical: &[&[u8]] = &[
        &[0, 0, 0, 0, 0],
        &[0, 0, 1, 0, 0],
        &[0, 0, 1, 0, 0],
        &[0, 0, 1, 0, 0],
        &[0, 0, 0, 0, 0],
    ];
    let horizontal: &[&[u8]] = &[
        &[0, 0, 0, 0, 0],
        &[0, 0, 0, 0, 0],
        &[0, 1, 1, 1, 0],
        &[0, 0, 0, 0, 0],
        &[0, 0, 0, 0, 0],
    ];
    let g = grid_from_rows(vertical);
    let once = g.step();
    assert_rows(&once, horizontal);
    let twice = once.step();
    assert_rows(&twice, vertical);
}

#[test]
fn all_dead_grid_stays_dead() {
    let mut rng = rand::thread_rng();
    let g = seed_grid(4, 4, 0, 1, &mut rng);
    assert_eq!(g.dimensions(), (4, 4));
    assert_eq!(g.cell_count(), 16);
    for y in 0..4 {
        for x in 0..4 {
            assert!(!g.cell_at(x, y));
        }
    }
    let after = g.step_n(25);
    for y in 0..4 {
        for x in 0..4 {
            assert!(!after.cell_at(x, y));
        }
    }
}

#[test]
fn certain_seeding_fills_the_grid() {
    let mut rng = rand::thread_rng();
    let g = seed_grid(3, 5, 7, 7, &mut rng);
    assert_eq!(g.dimensions(), (3, 5));
    for y in 0..5 {
        for x in 0..3 {
            assert!(g.cell_at(x, y));
        }
    }
}

#[test]
fn binding_table_mirrors_and_never_aliases() {
    let t = BindingTable::build(2, 0, 1);
    let s0 = t.select(0);
    let s1 = t.select(1);
    assert_ne!(s0.read, s0.write);
    assert_ne!(s1.read, s1.write);
    assert_eq!(s1.read, s0.write);
    assert_eq!(s1.write, s0.read);
    assert_eq!(s0.uniform, 2);
    assert_eq!(s1.uniform, 2);
    assert_eq!(
        s0,
        BindingSet { uniform: 2, read: 0, write: 1 }
    );
    assert_eq!(
        s1,
        BindingSet { uniform: 2, read: 1, write: 0 }
    );
}

#[test]
fn clock_ticks_once_per_interval() {
    let mut clock = SimClock::new(8, 100);
    assert!(!clock.should_tick(100));
    assert!(!clock.should_tick(107));
    assert!(clock.should_tick(108));
    assert!(clock.should_tick(200));
    clock.record_tick(108);
    assert!(!clock.should_tick(115));
    assert!(clock.should_tick(116));
}

#[test]
fn selected_index_toggles_once_per_tick() {
    let mut o = Orchestrator::new(8, 8, 10, 0, 640, 480);
    assert_eq!(o.selected, 0);
    let mut expected: u64 = 0;
    let mut now: u64 = 0;
    for _ in 0..7 {
        now += 10;
        let before = o.selected;
        let d = o.maybe_simulate(now);
        assert!(d.is_some());
        expected += 1;
        assert_ne!(o.selected, before);
        assert_eq!(o.selected as u64, expected % 2);
        assert_eq!(o.tick_count, expected);
    }
}

#[test]
fn simulation_never_outruns_the_tick_interval() {
    // Frames every millisecond, ticks owed every 8: over 40 elapsed
    // milliseconds exactly floor(40 / 8) == 5 dispatches happen.
    let mut o = Orchestrator::new(4, 4, 8, 0, 64, 64);
    let mut ticks = 0u64;
    for now in 1..=40u64 {
        if o.maybe_simulate(now).is_some() {
            ticks += 1;
        }
    }
    assert_eq!(ticks, 5);
    assert!(ticks <= 40 / 8);
}

#[test]
fn dispatch_uses_selected_set_then_toggles() {
    let mut o = Orchestrator::new(512, 512, 8, 0, 800, 600);
    let d = o.maybe_simulate(8).expect("a tick is due");
    assert_eq!(d.binding_index, 0);
    assert_eq!(d.binding.read, 0);
    assert_eq!(d.binding.write, 1);
    // 512 cells per side need 64 tiles of 8.
    assert_eq!(d.workgroups_x, 64);
    assert_eq!(d.workgroups_y, 64);
    assert_eq!(o.selected, 1);
    // The frame's render now reads through the freshly toggled set.
    let p = o.plan_render();
    assert_eq!(p.binding_index, 1);
    assert_eq!(p.binding.read, 1);
    assert_eq!(p.instances, 512 * 512);
    assert_eq!(p.vertices, 6);
    assert_eq!(p.clear.red, 0);
    assert_eq!(p.clear.green, 50);
    assert_eq!(p.clear.blue, 200);
    assert_eq!(p.clear.alpha, 1000);
}

#[test]
fn tile_counts_cover_the_grid() {
    assert_eq!(tiles_to_cover(0, 8), 0);
    assert_eq!(tiles_to_cover(1, 8), 1);
    assert_eq!(tiles_to_cover(8, 8), 1);
    assert_eq!(tiles_to_cover(9, 8), 2);
    assert_eq!(tiles_to_cover(512, 8), 64);
    assert_eq!(tiles_to_cover(513, 8), 65);
}

#[test]
fn window_signals_drive_the_state_machine() {
    let mut o = Orchestrator::new(4, 4, 8, 0, 100, 100);
    assert_eq!(o.handle_signal(WindowSignal::Other), EventAction::Ignore);
    assert_eq!(o.phase, Phase::Ready);
    assert_eq!(
        o.handle_signal(WindowSignal::RedrawRequested),
        EventAction::RunFrame
    );
    assert_eq!(
        o.handle_signal(WindowSignal::Resized { width: 320, height: 200 }),
        EventAction::Reconfigure
    );
    assert_eq!(o.surface_width, 320);
    assert_eq!(o.surface_height, 200);
    assert_eq!(
        o.handle_signal(WindowSignal::CloseRequested),
        EventAction::Exit
    );
    assert_eq!(o.phase, Phase::Closed);

    let mut p = Orchestrator::new(4, 4, 8, 0, 100, 100);
    assert_eq!(p.handle_signal(WindowSignal::EscapePressed), EventAction::Exit);
    assert_eq!(p.phase, Phase::Closed);
}

#[test]
fn acquisition_failures_are_classified() {
    let mut o = Orchestrator::new(4, 4, 8, 0, 100, 100);
    assert_eq!(
        o.on_acquire_error(AcquireError::Lost),
        FrameAction::ReconfigureAndSkip
    );
    assert_eq!(o.phase, Phase::SurfaceLost);
    o.surface_reconfigured();
    assert_eq!(o.phase, Phase::Ready);

    assert_eq!(
        o.on_acquire_error(AcquireError::Outdated),
        FrameAction::ReconfigureAndSkip
    );
    assert_eq!(o.phase, Phase::SurfaceLost);
    o.surface_reconfigured();

    assert_eq!(o.on_acquire_error(AcquireError::Other), FrameAction::SkipFrame);
    assert_eq!(o.phase, Phase::Ready);

    assert_eq!(o.on_acquire_error(AcquireError::OutOfMemory), FrameAction::Stop);
    assert_eq!(o.phase, Phase::Fatal);
}

#[test]
fn quad_geometry_is_the_fixed_unit_quad() {
    let v = unit_quad_tenths();
    assert_eq!(v, vec![-8, -8, 8, -8, 8, 8, -8, -8, 8, 8, -8, 8]);
    assert_eq!(quad_vertex_count(), 6);
    assert_eq!(v.len() / 2, quad_vertex_count());
    let layout = quad_vertex_layout();
    assert_eq!(layout.array_stride, 8);
    assert_eq!(layout.attribute_offset, 0);
    assert_eq!(layout.shader_location, 0);
    assert_eq!(layout.components, 2);
}

#[test]
fn random_seeding_respects_dimensions() {
    let mut rng = rand::thread_rng();
    let g = seed_grid(7, 3, 2, 5, &mut rng);
    assert_eq!(g.dimensions(), (7, 3));
    assert_eq!(g.cell_count(), 21);
    assert_eq!(g.cells.len(), 21);
}
