//! The terrain strip: where the obstacles stand.
//!
//! The strip is a grid of cells, `MAX_OBSTACLES_PER_LANE` to a lane, numbered
//! lane by lane from the start line. A height map holds one sample of the
//! terrain noise for every cell, and the sample says whether a block stands
//! in the cell.

use vstd::prelude::*;
use crate::LANES;
use crate::LANES_WIDTH;
use crate::MAX_OBSTACLES_PER_LANE;
use crate::MAX_OBSTACLE_STACK;
use crate::OBSTACLE_HEIGHT;
use crate::OBSTACLE_LENGTH;
use crate::TERRAIN_LENGTH;
use crate::TERRAIN_WIDTH;

verus! {

/// What is read off the terrain noise at one cell.
#[derive(Clone, Copy, Debug, PartialEq, Eq, Structural)]
pub struct Sample {
    /// Whether the noise is above zero.
    pub positive: bool,
    /// Whether the noise is below a half.
    pub below_half: bool,
    /// The noise on a scale on which one is `MAX_OBSTACLE_STACK` and zero is
    /// one, rounded to a whole number.
    pub levels: i32,
}

/// A block on the strip, in world units.
#[derive(Clone, Copy, Debug, PartialEq, Eq, Structural)]
pub struct Obstacle {
    /// Number of the cell it stands in.
    pub cell: usize,
    /// Centre across the strip.
    pub x: i64,
    /// Centre along the strip; the strip runs towards negative values.
    pub z: i64,
    /// Height from the ground.
    pub height: i64,
    /// Whether it leans over.
    pub tilted: bool,
}

/// Lane of a cell.
pub open spec fn lane_of(cell: int) -> int {
    cell / MAX_OBSTACLES_PER_LANE as int
}

/// Place of a cell within its lane, counted from the start line.
pub open spec fn segment_of(cell: int) -> int {
    cell % MAX_OBSTACLES_PER_LANE as int
}

/// Centre of a cell across the strip: lanes are laid side by side from the
/// strip's left edge.
pub open spec fn centre_x(cell: int) -> int {
    lane_of(cell) * LANES_WIDTH - TERRAIN_WIDTH / 2
}

/// Centre of a cell along the strip: segments follow one another from the
/// start line.
pub open spec fn centre_z(cell: int) -> int {
    -segment_of(cell) * OBSTACLE_LENGTH - OBSTACLE_LENGTH / 2
}

/// The block that stands in `cell` where the noise is above zero: it has as
/// many levels as the sample says, and leans over where the noise is below a
/// half.
pub open spec fn block_in(cell: int, sample: Sample) -> Obstacle {
    Obstacle {
        cell: cell as usize,
        x: centre_x(cell) as i64,
        z: centre_z(cell) as i64,
        height: (sample.levels * OBSTACLE_HEIGHT) as i64,
        tilted: sample.below_half,
    }
}

/// The obstacles of a height map: a block in every cell where the noise is
/// above zero, in the order of the cells.
pub open spec fn layout(samples: Seq<Sample>) -> Seq<Obstacle>
    decreases samples.len(),
{
    if samples.len() == 0 {
        Seq::empty()
    } else {
        let before = layout(samples.drop_last());
        if samples.last().positive {
            before.push(block_in(samples.len() - 1, samples.last()))
        } else {
            before
        }
    }
}

/// The cells of a strip of `LANES` lanes in the order of their numbers, each
/// as its lane and its place within the lane: where the height map takes its
/// samples.
pub fn strip_cells() -> (cells: Vec<(i32, i32)>)
    ensures
        cells@.len() == LANES * MAX_OBSTACLES_PER_LANE,
        forall|cell: int|
            0 <= cell < cells@.len() ==> #[trigger] cells@[cell] == (
                lane_of(cell) as i32,
                segment_of(cell) as i32,
            ),
{
    let mut cells: Vec<(i32, i32)> = Vec::new();
    let mut lane: i32 = 0;
    while lane < LANES
        invariant
            0 <= lane <= LANES,
            cells@.len() == lane * MAX_OBSTACLES_PER_LANE,
            forall|cell: int|
                0 <= cell < cells@.len() ==> #[trigger] cells@[cell] == (
                    lane_of(cell) as i32,
                    segment_of(cell) as i32,
                ),
        decreases LANES - lane,
    {
        let mut segment: i32 = 0;
        while segment < MAX_OBSTACLES_PER_LANE
            invariant
                0 <= lane < LANES,
                0 <= segment <= MAX_OBSTACLES_PER_LANE,
                cells@.len() == lane * MAX_OBSTACLES_PER_LANE + segment,
                forall|cell: int|
                    0 <= cell < cells@.len() ==> #[trigger] cells@[cell] == (
                        lane_of(cell) as i32,
                        segment_of(cell) as i32,
                    ),
            decreases MAX_OBSTACLES_PER_LANE - segment,
        {
            cells.push((lane, segment));
            segment += 1;
        }
        lane += 1;
    }
    cells
}

/// Lays out the obstacles of a height map.
pub fn setup_terrain(samples: &Vec<Sample>) -> (obstacles: Vec<Obstacle>)
    ensures
        obstacles@ == layout(samples@),
{
    let mut obstacles: Vec<Obstacle> = Vec::new();
    let mut cell: usize = 0;
    let mut lane: i64 = 0;
    let mut segment: i64 = 0;
    while cell < samples.len()
        invariant
            cell <= samples.len(),
            lane == lane_of(cell as int),
            segment == segment_of(cell as int),
            obstacles@ == layout(samples@.take(cell as int)),
        decreases samples.len() - cell,
    {
        proof {
            assert(samples@.take(cell + 1).drop_last() =~= samples@.take(cell as int));
        }
        let sample = samples[cell];
        if sample.positive {
            obstacles.push(
                Obstacle {
                    cell,
                    x: lane * (LANES_WIDTH as i64) - (TERRAIN_WIDTH as i64) / 2,
                    z: -segment * (OBSTACLE_LENGTH as i64) - (OBSTACLE_LENGTH as i64) / 2,
                    height: (sample.levels as i64) * (OBSTACLE_HEIGHT as i64),
                    tilted: sample.below_half,
                },
            );
        }
        cell += 1;
        segment += 1;
        if segment == MAX_OBSTACLES_PER_LANE as i64 {
            segment = 0;
            lane += 1;
        }
    }
    proof {
        assert(samples@.take(cell as int) =~= samples@);
    }
    obstacles
}

/// Every obstacle of a layout stands in a cell where the noise is above zero,
/// and is the block of that cell; the obstacles come in the order of their
/// cells; and no such cell is left out.
pub proof fn law_obstacles_follow_cells(samples: Seq<Sample>)
    requires
        samples.len() <= usize::MAX,
    ensures
        layout(samples).len() <= samples.len(),
        forall|i: int|
            0 <= i < layout(samples).len() ==> {
                let obstacle = #[trigger] layout(samples)[i];
                &&& obstacle.cell < samples.len()
                &&& samples[obstacle.cell as int].positive
                &&& obstacle == block_in(obstacle.cell as int, samples[obstacle.cell as int])
            },
        forall|i: int, j: int|
            0 <= i < j < layout(samples).len() ==> (#[trigger] layout(samples)[i]).cell < (
            #[trigger] layout(samples)[j]).cell,
        forall|cell: int|
            0 <= cell < samples.len() && (#[trigger] samples[cell]).positive ==> exists|i: int|
                0 <= i < layout(samples).len() && (#[trigger] layout(samples)[i]).cell == cell,
    decreases samples.len(),
{
    if samples.len() > 0 {
        let front = samples.drop_last();
        law_obstacles_follow_cells(front);
        let before = layout(front);
        assert forall|cell: int|
            0 <= cell < samples.len() && (#[trigger] samples[cell]).positive implies exists|i: int|
            0 <= i < layout(samples).len() && (#[trigger] layout(samples)[i]).cell == cell by {
            if cell < front.len() {
                assert(front[cell].positive);
                let i = choose|i: int| 0 <= i < before.len() && (#[trigger] before[i]).cell == cell;
                assert(layout(samples)[i] == before[i]);
            } else {
                assert(layout(samples)[before.len() as int].cell == cell);
            }
        }
    }
}

/// On a strip of `LANES` lanes, every obstacle is centred on the strip across
/// its width, and its whole length lies between the start line and the end of
/// the strip.
pub proof fn law_obstacles_on_strip(samples: Seq<Sample>)
    requires
        samples.len() == LANES * MAX_OBSTACLES_PER_LANE,
    ensures
        forall|i: int|
            0 <= i < layout(samples).len() ==> {
                let obstacle = #[trigger] layout(samples)[i];
                &&& -TERRAIN_WIDTH / 2 <= obstacle.x < TERRAIN_WIDTH / 2
                &&& -TERRAIN_LENGTH <= obstacle.z - OBSTACLE_LENGTH / 2
                &&& obstacle.z + OBSTACLE_LENGTH / 2 <= 0
            },
{
    law_obstacles_follow_cells(samples);
}

/// No two obstacles of a layout overlap: they stand a lane's width apart
/// across the strip, or a cell's length apart along it.
pub proof fn law_obstacles_apart(samples: Seq<Sample>, i: int, j: int)
    requires
        samples.len() <= usize::MAX,
        0 <= i < j < layout(samples).len(),
    ensures
        layout(samples)[j].x - layout(samples)[i].x >= LANES_WIDTH || layout(samples)[i].z
            - layout(samples)[j].z >= OBSTACLE_LENGTH,
{
    law_obstacles_follow_cells(samples);
}

/// A block of at least one level and no more than `MAX_OBSTACLE_STACK` is as
/// high as its levels together: no lower than one level, no higher than the
/// highest stack.
pub proof fn law_block_height(cell: int, sample: Sample)
    requires
        1 <= sample.levels <= MAX_OBSTACLE_STACK,
    ensures
        block_in(cell, sample).height == sample.levels * OBSTACLE_HEIGHT,
        OBSTACLE_HEIGHT <= block_in(cell, sample).height <= MAX_OBSTACLE_STACK * OBSTACLE_HEIGHT,
{
}

} // verus!
