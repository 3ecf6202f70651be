//! Which boids of the flock a boid follows, and when it follows them.
//!
//! For each other boid `j` of the world the caller measures two facts: whether
//! it is the boid itself (`is_same[j]`) and whether it lies beyond the boid's
//! viewing distance (`beyond_view[j]`). Every other boid counts as a neighbour.
use vstd::prelude::*;
use crate::steering::{WallScan, scan_outcome, law_scan_follows_fan_order};

verus! {

/// Boid `j` is a neighbour: it is another boid, within viewing distance.
pub open spec fn is_neighbor(is_same: Seq<bool>, beyond_view: Seq<bool>, j: int) -> bool {
    !is_same[j] && !beyond_view[j]
}

/// The neighbours among the first `k` boids, in the order of the world.
pub open spec fn neighbors_upto(is_same: Seq<bool>, beyond_view: Seq<bool>, k: int) -> Seq<usize>
    decreases k,
{
    if k <= 0 {
        Seq::empty()
    } else {
        let earlier = neighbors_upto(is_same, beyond_view, k - 1);
        if is_neighbor(is_same, beyond_view, k - 1) {
            earlier.push((k - 1) as usize)
        } else {
            earlier
        }
    }
}

/// The indices of the neighbours of a boid, in the order of the world.
pub fn neighbor_indices(is_same: &Vec<bool>, beyond_view: &Vec<bool>) -> (neighbors: Vec<usize>)
    requires
        is_same.len() == beyond_view.len(),
    ensures
        neighbors@ == neighbors_upto(is_same@, beyond_view@, is_same.len() as int),
{
    let mut neighbors: Vec<usize> = Vec::new();
    let n = is_same.len();
    for j in 0..n
        invariant
            n == is_same.len(),
            n == beyond_view.len(),
            neighbors@ == neighbors_upto(is_same@, beyond_view@, j as int),
    {
        if !is_same[j] && !beyond_view[j] {
            neighbors.push(j);
        }
    }
    neighbors
}

/// The neighbour list holds each neighbour exactly once, in increasing order,
/// and nothing else: a boid follows every other boid within its viewing
/// distance, and never itself.
pub proof fn law_neighbors_are_exact(is_same: Seq<bool>, beyond_view: Seq<bool>, k: int)
    requires
        0 <= k <= is_same.len(),
        is_same.len() == beyond_view.len(),
        k <= usize::MAX,
    ensures
        ({
            let r = neighbors_upto(is_same, beyond_view, k);
            &&& forall|j: int| 0 <= j < r.len() ==> 0 <= #[trigger] r[j] < k
            &&& forall|j: int| 0 <= j < r.len() ==> is_neighbor(is_same, beyond_view, #[trigger] r[j] as int)
            &&& forall|a: int, b: int| 0 <= a < b < r.len() ==> #[trigger] r[a] < #[trigger] r[b]
            &&& forall|j: int| 0 <= j < k && is_neighbor(is_same, beyond_view, j) ==> r.contains(j as usize)
        }),
    decreases k,
{
    if k > 0 {
        law_neighbors_are_exact(is_same, beyond_view, k - 1);
        let earlier = neighbors_upto(is_same, beyond_view, k - 1);
        let r = neighbors_upto(is_same, beyond_view, k);
        assert forall|j: int| 0 <= j < k && is_neighbor(is_same, beyond_view, j) implies r.contains(j as usize) by {
            if j < k - 1 {
                assert(earlier.contains(j as usize));
                let i = choose|i: int| 0 <= i < earlier.len() && earlier[i] == j as usize;
                assert(r[i] == j as usize);
            } else {
                assert(r[r.len() - 1] == j as usize);
            }
        }
    }
}

/// A boid follows its flock (alignment, cohesion, separation) when it has at
/// least one neighbour and its wall scan saw no wall.
pub fn flocking_applies(neighbor_count: usize, scan: &WallScan) -> (applies: bool)
    ensures
        applies == (neighbor_count > 0 && !scan.sees_wall),
{
    neighbor_count > 0 && !scan.sees_wall
}

/// A boid only follows its flock when its probe straight ahead is clear; while
/// it sees a wall ahead, avoiding the wall takes over.
pub proof fn law_flocking_needs_clear_heading(
    neighbor_count: int,
    probe_count: int,
    blocked: Seq<bool>,
)
    requires
        0 < probe_count <= i32::MAX,
        blocked.len() >= probe_count,
    ensures
        (neighbor_count > 0 && !scan_outcome(probe_count, blocked).sees_wall) <==> (
        neighbor_count > 0 && !blocked[0]),
{
    law_scan_follows_fan_order(probe_count, blocked);
}

} // verus!
