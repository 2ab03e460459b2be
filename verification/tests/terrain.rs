use lane_runner::terrain::setup_terrain;
use lane_runner::terrain::strip_cells;
use lane_runner::terrain::Obstacle;
use lane_runner::terrain::Sample;
use lane_runner::LANES;
use lane_runner::LANES_WIDTH;
use lane_runner::MAX_OBSTACLES_PER_LANE;
use lane_runner::MAX_OBSTACLE_STACK;
use lane_runner::OBSTACLE_HEIGHT;
use lane_runner::OBSTACLE_LENGTH;
use lane_runner::SEED;
use lane_runner::TERRAIN_LENGTH;
use lane_runner::TERRAIN_WIDTH;

/// A sample of noise at or below zero.
fn clear() -> Sample {
    Sample { positive: false, below_half: true, levels: -3 }
}

/// A sample of noise above zero that gives `levels` levels.
fn block(levels: i32, tilted: bool) -> Sample {
    Sample { positive: true, below_half: tilted, levels }
}

/// A height map of the whole strip with a block of `levels(cell)` levels in
/// every cell for which it is not zero; the lower blocks lean over.
fn strip(levels: fn(usize) -> i32) -> Vec<Sample> {
    let mut samples = Vec::new();
    for cell in 0..1000 {
        let stack = levels(cell);
        samples.push(if stack == 0 { clear() } else { block(stack, stack < 5) });
    }
    samples
}

#[test]
fn terrain_constants() {
    assert_eq!(SEED, 23);
    assert_eq!(LANES, 10);
    assert_eq!(MAX_OBSTACLES_PER_LANE, 100);
    assert_eq!(LANES_WIDTH, 10);
    assert_eq!(OBSTACLE_LENGTH, 50);
    assert_eq!(OBSTACLE_HEIGHT, 3);
    assert_eq!(MAX_OBSTACLE_STACK, 10);
    assert_eq!(TERRAIN_WIDTH, 100);
    assert_eq!(TERRAIN_LENGTH, 5000);
}

#[test]
fn empty_height_map_has_no_obstacles() {
    assert_eq!(setup_terrain(&Vec::new()), Vec::new());
}

#[test]
fn noise_at_or_below_zero_gives_no_obstacle() {
    assert_eq!(setup_terrain(&vec![clear(), clear(), clear()]), Vec::new());
    assert_eq!(setup_terrain(&strip(|_| 0)), Vec::new());
    let samples = vec![
        Sample { positive: false, below_half: true, levels: 1 },
        Sample { positive: false, below_half: false, levels: 10 },
    ];
    assert_eq!(setup_terrain(&samples), Vec::new());
}

#[test]
fn first_cell_stands_at_the_left_edge_behind_the_start_line() {
    let obstacles = setup_terrain(&vec![block(1, false)]);
    assert_eq!(
        obstacles,
        vec![Obstacle { cell: 0, x: -50, z: -25, height: 3, tilted: false }]
    );
}

#[test]
fn blocks_keep_the_order_of_their_cells() {
    let samples = vec![clear(), block(4, true), clear(), block(10, false)];
    assert_eq!(
        setup_terrain(&samples),
        vec![
            Obstacle { cell: 1, x: -50, z: -75, height: 12, tilted: true },
            Obstacle { cell: 3, x: -50, z: -175, height: 30, tilted: false },
        ]
    );
}

#[test]
fn a_lane_holds_a_hundred_cells() {
    let obstacles = setup_terrain(&strip(|cell| match cell {
        99 => 2,
        100 => 3,
        _ => 0,
    }));
    assert_eq!(
        obstacles,
        vec![
            Obstacle { cell: 99, x: -50, z: -4975, height: 6, tilted: true },
            Obstacle { cell: 100, x: -40, z: -25, height: 9, tilted: true },
        ]
    );
}

#[test]
fn last_cell_of_the_strip() {
    let obstacles = setup_terrain(&strip(|cell| if cell == 999 { 7 } else { 0 }));
    assert_eq!(
        obstacles,
        vec![Obstacle { cell: 999, x: 40, z: -4975, height: 21, tilted: false }]
    );
}

#[test]
fn full_strip_has_an_obstacle_in_every_cell() {
    let obstacles = setup_terrain(&strip(|cell| (cell % 10) as i32 + 1));
    assert_eq!(obstacles.len(), 1000);
    for (place, obstacle) in obstacles.iter().enumerate() {
        assert_eq!(obstacle.cell, place);
        assert_eq!(obstacle.x, (place as i64 / 100) * 10 - 50);
        assert_eq!(obstacle.z, -(place as i64 % 100) * 50 - 25);
        assert_eq!(obstacle.height, ((place % 10) as i64 + 1) * 3);
        assert_eq!(obstacle.tilted, place % 10 < 4);
    }
}

#[test]
fn obstacles_of_a_strip_lie_on_it() {
    let obstacles = setup_terrain(&strip(|cell| if cell % 3 == 0 { 5 } else { 0 }));
    assert_eq!(obstacles.len(), 334);
    for obstacle in &obstacles {
        assert!(-50 <= obstacle.x && obstacle.x < 50);
        assert!(-5000 <= obstacle.z - 25 && obstacle.z + 25 <= 0);
    }
}

#[test]
fn obstacles_do_not_overlap() {
    let obstacles = setup_terrain(&strip(|cell| if cell % 7 < 3 { 1 } else { 0 }));
    for (place, first) in obstacles.iter().enumerate() {
        for second in &obstacles[place + 1..] {
            assert!(second.x - first.x >= 10 || first.z - second.z >= 50);
        }
    }
}

#[test]
fn cells_beyond_the_strip_go_on_lane_by_lane() {
    let mut samples = vec![clear(); 1234];
    samples.push(block(2, false));
    assert_eq!(
        setup_terrain(&samples),
        vec![Obstacle { cell: 1234, x: 70, z: -1725, height: 6, tilted: false }]
    );
}

#[test]
fn height_follows_any_number_of_levels() {
    let samples =
        vec![block(0, false), block(-2, true), block(i32::MAX, false), block(i32::MIN, false)];
    let heights: Vec<i64> =
        setup_terrain(&samples).iter().map(|obstacle| obstacle.height).collect();
    assert_eq!(heights, vec![0, -6, 6_442_450_941, -6_442_450_944]);
}

#[test]
fn heights_of_the_lowest_and_the_highest_stack() {
    let obstacles = setup_terrain(&vec![block(1, true), block(10, false)]);
    assert_eq!(obstacles[0].height, 3);
    assert_eq!(obstacles[1].height, 30);
}

#[test]
fn strip_has_a_thousand_cells_lane_by_lane() {
    let cells = strip_cells();
    assert_eq!(cells.len(), 1000);
    assert_eq!(cells[0], (0, 0));
    assert_eq!(cells[1], (0, 1));
    assert_eq!(cells[99], (0, 99));
    assert_eq!(cells[100], (1, 0));
    assert_eq!(cells[537], (5, 37));
    assert_eq!(cells[999], (9, 99));
    for (number, cell) in cells.iter().enumerate() {
        assert_eq!(*cell, ((number / 100) as i32, (number % 100) as i32));
    }
}

#[test]
fn obstacles_stand_in_the_cells_of_the_strip() {
    let cells = strip_cells();
    let obstacles = setup_terrain(&strip(|cell| if cell % 11 == 0 { 2 } else { 0 }));
    for obstacle in &obstacles {
        let (lane, segment) = cells[obstacle.cell];
        assert_eq!(obstacle.x, lane as i64 * 10 - 50);
        assert_eq!(obstacle.z, -(segment as i64) * 50 - 25);
    }
}
