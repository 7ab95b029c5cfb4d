use armory::grid::adjacent_tiles;
use armory::grid::fdm;

#[test]
fn uniform_grid_is_steady_state() {
    for (len, width) in [(1usize, 1usize), (4, 1), (4, 4), (6, 3), (9, 3), (10, 2), (12, 4)] {
        let grid: Vec<u64> = vec![7000; len];
        let out = fdm(&grid, width);
        assert_eq!(out, grid);
    }
}

#[test]
fn lone_cell_spreads_a_fifth_to_each_neighbor() {
    // 2 x 2 grid, all mass in one corner: the corner keeps three
    // fifths, each orthogonal neighbor receives one fifth
    let grid: Vec<u64> = vec![10, 0, 0, 0];
    let out = fdm(&grid, 2);
    assert_eq!(out, vec![6, 2, 2, 0]);
}

#[test]
fn row_interior_cell_keeps_three_fifths() {
    // 1 x 3 row: the middle cell has two neighbors
    let grid: Vec<u64> = vec![0, 10, 0];
    let out = fdm(&grid, 3);
    assert_eq!(out, vec![2, 6, 2]);
}

#[test]
fn mass_is_conserved_on_a_multiple_of_five_grid() {
    let grid: Vec<u64> = vec![25, 5, 0, 10, 50, 0, 5, 0, 100];
    let out = fdm(&grid, 3);
    let before: u64 = grid.iter().sum();
    let after: u64 = out.iter().sum();
    assert_eq!(before, after);
}

#[test]
fn neighbors_of_a_center_cell() {
    // 3 x 3 grid, center index 4: left, right, up, down
    assert_eq!(adjacent_tiles(4, 3, 9), vec![3, 5, 1, 7]);
}

#[test]
fn neighbors_of_corners_and_edges() {
    assert_eq!(adjacent_tiles(0, 3, 9), vec![1, 3]);
    assert_eq!(adjacent_tiles(2, 3, 9), vec![1, 5]);
    assert_eq!(adjacent_tiles(6, 3, 9), vec![7, 3]);
    assert_eq!(adjacent_tiles(8, 3, 9), vec![7, 5]);
    assert_eq!(adjacent_tiles(1, 3, 9), vec![0, 2, 4]);
    assert_eq!(adjacent_tiles(5, 3, 9), vec![4, 2, 8]);
}

#[test]
fn single_cell_has_no_neighbors() {
    assert_eq!(adjacent_tiles(0, 1, 1), Vec::<usize>::new());
    let out = fdm(&vec![42], 1);
    assert_eq!(out, vec![42]);
}
