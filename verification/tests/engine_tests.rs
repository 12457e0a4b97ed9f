use conways::engine::{count_live_neighbors, get_neighbours, step, update_board};
use conways::grid::{Cell, Grid};

fn grid_with_live(width: usize, height: usize, live: &[(usize, usize)]) -> Grid {
    let mut g = Grid::new(width, height).unwrap();
    for &(row, col) in live {
        g.set_cell(row, col, Cell { alive: true, die_time: -1 }).unwrap();
    }
    g
}

#[test]
fn border_cells_count_zero_neighbours() {
    let mut g = Grid::new(3, 3).unwrap();
    for row in 0..3 {
        for col in 0..3 {
            g.set_cell(row, col, Cell { alive: true, die_time: -1 }).unwrap();
        }
    }
    assert_eq!(count_live_neighbors(&g, 0, 0), 0);
    assert_eq!(count_live_neighbors(&g, 0, 1), 0);
    assert_eq!(count_live_neighbors(&g, 0, 2), 0);
    assert_eq!(count_live_neighbors(&g, 1, 0), 0);
    assert_eq!(count_live_neighbors(&g, 1, 2), 0);
    assert_eq!(count_live_neighbors(&g, 2, 0), 0);
    assert_eq!(count_live_neighbors(&g, 2, 1), 0);
    assert_eq!(count_live_neighbors(&g, 2, 2), 0);
    assert_eq!(count_live_neighbors(&g, 1, 1), 8);
}

#[test]
fn border_cells_die_after_one_step() {
    let mut g = Grid::new(4, 4).unwrap();
    for row in 0..4 {
        for col in 0..4 {
            g.set_cell(row, col, Cell { alive: true, die_time: -1 }).unwrap();
        }
    }
    let g2 = step(&g, 6).unwrap();
    for row in 0..4 {
        for col in 0..4 {
            let on_ring = row == 0 || col == 0 || row == 3 || col == 3;
            if on_ring {
                assert_eq!(g2.get(row, col).unwrap(), Cell { alive: false, die_time: 6 });
            }
        }
    }
}

#[test]
fn interior_neighbour_count_is_exact() {
    let g = grid_with_live(5, 5, &[(1, 1), (1, 2), (3, 3)]);
    assert_eq!(count_live_neighbors(&g, 2, 2), 3);
    assert_eq!(count_live_neighbors(&g, 2, 1), 2);
    assert_eq!(count_live_neighbors(&g, 3, 3), 0);
    assert_eq!(count_live_neighbors(&g, 1, 1), 1);
}

#[test]
fn blinker_row_in_3x3_collapses_to_centre() {
    let g = grid_with_live(3, 3, &[(1, 0), (1, 1), (1, 2)]);
    let g2 = step(&g, 0).unwrap();
    for row in 0..3 {
        for col in 0..3 {
            let expected = if row == 1 && col == 1 {
                // the only interior cell: two live neighbours, survives
                Cell { alive: true, die_time: -1 }
            } else if row == 1 && (col == 0 || col == 2) {
                // live on the ring: zero neighbours, dies at frame 0
                Cell { alive: false, die_time: 0 }
            } else {
                Cell { alive: false, die_time: -1 }
            };
            assert_eq!(g2.get(row, col).unwrap(), expected);
        }
    }
}

#[test]
fn blinker_in_5x5_oscillates() {
    let g = grid_with_live(5, 5, &[(2, 1), (2, 2), (2, 3)]);
    let g2 = step(&g, 0).unwrap();
    assert_eq!(g2.get(1, 2).unwrap(), Cell { alive: true, die_time: -1 });
    assert_eq!(g2.get(2, 2).unwrap(), Cell { alive: true, die_time: -1 });
    assert_eq!(g2.get(3, 2).unwrap(), Cell { alive: true, die_time: -1 });
    assert_eq!(g2.get(2, 1).unwrap(), Cell { alive: false, die_time: 0 });
    assert_eq!(g2.get(2, 3).unwrap(), Cell { alive: false, die_time: 0 });
    let g3 = step(&g2, 1).unwrap();
    assert_eq!(g3.get(2, 1).unwrap(), Cell { alive: true, die_time: -1 });
    assert_eq!(g3.get(2, 2).unwrap(), Cell { alive: true, die_time: -1 });
    assert_eq!(g3.get(2, 3).unwrap(), Cell { alive: true, die_time: -1 });
    assert_eq!(g3.get(1, 2).unwrap(), Cell { alive: false, die_time: 1 });
    assert_eq!(g3.get(3, 2).unwrap(), Cell { alive: false, die_time: 1 });
}

#[test]
fn lone_cell_dies_of_underpopulation() {
    let g = grid_with_live(5, 5, &[(2, 2)]);
    let g2 = step(&g, 3).unwrap();
    assert_eq!(g2.get(2, 2).unwrap(), Cell { alive: false, die_time: 3 });
}

#[test]
fn crowded_cell_dies_of_overpopulation() {
    let g = grid_with_live(5, 5, &[(2, 2), (1, 1), (1, 3), (3, 1), (3, 3)]);
    assert_eq!(count_live_neighbors(&g, 2, 2), 4);
    let g2 = step(&g, 2).unwrap();
    assert_eq!(g2.get(2, 2).unwrap(), Cell { alive: false, die_time: 2 });
}

#[test]
fn dead_cell_with_three_neighbours_is_born() {
    let g = grid_with_live(5, 5, &[(1, 1), (1, 2), (1, 3)]);
    assert_eq!(count_live_neighbors(&g, 2, 2), 3);
    let g2 = step(&g, 4).unwrap();
    assert_eq!(g2.get(2, 2).unwrap(), Cell { alive: true, die_time: -1 });
}

#[test]
fn survivor_keeps_its_die_time() {
    let mut g = Grid::new(5, 5).unwrap();
    g.set_cell(2, 2, Cell { alive: true, die_time: 4 }).unwrap();
    g.set_cell(1, 2, Cell { alive: true, die_time: -1 }).unwrap();
    g.set_cell(3, 2, Cell { alive: true, die_time: -1 }).unwrap();
    assert_eq!(count_live_neighbors(&g, 2, 2), 2);
    let g2 = step(&g, 9).unwrap();
    assert_eq!(g2.get(2, 2).unwrap(), Cell { alive: true, die_time: 4 });
}

#[test]
fn all_dead_grid_steps_to_all_dead() {
    let mut g = Grid::new(4, 4).unwrap();
    g.set_cell(1, 1, Cell { alive: false, die_time: 9 }).unwrap();
    g.set_cell(0, 0, Cell { alive: false, die_time: 2 }).unwrap();
    let g2 = step(&g, 5).unwrap();
    for row in 0..4 {
        for col in 0..4 {
            assert_eq!(g2.get(row, col).unwrap(), Cell { alive: false, die_time: -1 });
        }
    }
}

#[test]
fn step_preserves_dimensions() {
    let g = Grid::new(7, 4).unwrap();
    let g2 = step(&g, 0).unwrap();
    assert_eq!(g2.width(), 7);
    assert_eq!(g2.height(), 4);
}

#[test]
fn get_neighbours_takes_column_then_row() {
    let g = grid_with_live(6, 4, &[(2, 3)]);
    assert_eq!(get_neighbours(&g, 4, 2), 1);
    assert_eq!(get_neighbours(&g, 4, 2), count_live_neighbors(&g, 2, 4));
    assert_eq!(get_neighbours(&g, 2, 1), count_live_neighbors(&g, 1, 2));
}

#[test]
fn update_board_agrees_with_step() {
    let g = grid_with_live(5, 5, &[(2, 1), (2, 2), (2, 3)]);
    let a = update_board(&g, 0).unwrap();
    let b = step(&g, 0).unwrap();
    for row in 0..5 {
        for col in 0..5 {
            assert_eq!(a.get(row, col).unwrap(), b.get(row, col).unwrap());
        }
    }
}
