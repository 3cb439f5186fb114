//! The grid and the arithmetic of a move: every coordinate lies in
//! `1..=GRID_SIZE`, and a move saturates at the border.

use vstd::prelude::*;

verus! {

/// Side length of the square grid.
pub const GRID_SIZE: i32 = 10;

/// The coordinate that a player without a stored position starts from.
pub const START_COORDINATE: i32 = 1;

/// Whether `v` is a coordinate of the grid.
pub open spec fn in_grid(v: int) -> bool {
    1 <= v <= GRID_SIZE as int
}

/// `v` saturated to the grid: the nearest coordinate of the grid.
pub open spec fn clamp_spec(v: int) -> int {
    if v < 1 {
        1
    } else if v > GRID_SIZE as int {
        GRID_SIZE as int
    } else {
        v
    }
}

/// The coordinate reached from `start` by the delta `delta`.
pub open spec fn moved_spec(start: int, delta: int) -> int {
    clamp_spec(start + delta)
}

/// Saturates `v` to the grid.
pub fn clamp_axis(v: i64) -> (r: i32)
    ensures
        r as int == clamp_spec(v as int),
        in_grid(r as int),
{
    if v < 1 {
        1
    } else if v > 10 {
        GRID_SIZE
    } else {
        v as i32
    }
}

/// Adds `delta` to `start` and saturates the sum to the grid. The sum is
/// taken in a wider type, so no delta overflows.
pub fn move_axis(start: i32, delta: i32) -> (r: i32)
    ensures
        r as int == moved_spec(start as int, delta as int),
        in_grid(r as int),
{
    let sum: i64 = start as i64 + delta as i64;
    clamp_axis(sum)
}

/// The position reached from `start` by the moves `deltas`, one after the
/// other, each saturated to the grid.
pub open spec fn position_after(start: (int, int), deltas: Seq<(int, int)>) -> (int, int)
    decreases deltas.len(),
{
    if deltas.len() == 0 {
        start
    } else {
        let before = position_after(start, deltas.drop_last());
        (moved_spec(before.0, deltas.last().0), moved_spec(before.1, deltas.last().1))
    }
}

/// Whatever the deltas and however many, a position that started in the
/// grid stays in it, and after the first move every position is in the grid
/// wherever it started.
pub proof fn lemma_moves_stay_in_grid(start: (int, int), deltas: Seq<(int, int)>)
    requires
        deltas.len() > 0 || (in_grid(start.0) && in_grid(start.1)),
    ensures
        in_grid(position_after(start, deltas).0),
        in_grid(position_after(start, deltas).1),
{
    reveal_with_fuel(position_after, 2);
}

/// A move lands in the grid, whatever the start and the delta.
pub proof fn lemma_move_lands_in_grid(start: int, delta: int)
    ensures
        in_grid(moved_spec(start, delta)),
{
}

/// A move that stays inside the grid is not altered by the saturation.
pub proof fn lemma_move_inside_grid_is_exact(start: int, delta: int)
    requires
        in_grid(start + delta),
    ensures
        moved_spec(start, delta) == start + delta,
{
}

} // verus!
