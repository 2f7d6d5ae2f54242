//! Vertical layout: the fixed-size region heights of the six stacked
//! widgets, recomputed every frame from the current segment count.

use vstd::prelude::*;

verus! {

/// The margin of cells kept around the stacked regions.
pub const MARGIN: u16 = 1;

/// The heights, in rows, of the six vertically stacked regions, in their
/// order on screen.
#[derive(Clone, Copy, PartialEq, Eq, Structural, Debug)]
pub struct RegionHeights {
    pub title: u16,
    pub splits: u16,
    pub timer: u16,
    pub previous_segment: u16,
    pub sum_of_best: u16,
    pub possible_time_save: u16,
}

/// The rows the six regions take together.
pub open spec fn total_rows(r: RegionHeights) -> int {
    r.title + r.splits + r.timer + r.previous_segment + r.sum_of_best + r.possible_time_save
}

/// Computes the region heights for a frame showing `segments` table rows:
/// title 3, splits table `segments + 3` (header plus rows plus border and
/// padding), timer 2, and one row for each of the three info lines. With
/// zero segments the splits region degenerates to its 3 fixed rows.
pub fn region_heights(segments: usize) -> (r: RegionHeights)
    requires
        segments + 3 <= u16::MAX,
    ensures
        r.title == 3,
        r.splits == segments + 3,
        r.timer == 2,
        r.previous_segment == 1,
        r.sum_of_best == 1,
        r.possible_time_save == 1,
        total_rows(r) == segments + 11,
{
    RegionHeights {
        title: 3,
        splits: (segments as u16) + 3,
        timer: 2,
        previous_segment: 1,
        sum_of_best: 1,
        possible_time_save: 1,
    }
}

} // verus!
