use rust_boids::flock::{flocking_applies, neighbor_indices};
use rust_boids::motion::{frame_delta_micros, MICROS_PER_STEP};
use rust_boids::steering::WallScan;

#[test]
fn neighbors_skip_self_and_far_boids() {
    let is_same = vec![false, true, false, false, false];
    let beyond_view = vec![false, false, true, false, false];
    assert_eq!(neighbor_indices(&is_same, &beyond_view), vec![0, 3, 4]);
}

#[test]
fn lone_boid_has_no_neighbors() {
    assert_eq!(neighbor_indices(&vec![true], &vec![false]), Vec::<usize>::new());
    assert_eq!(neighbor_indices(&vec![], &vec![]), Vec::<usize>::new());
    assert_eq!(
        neighbor_indices(&vec![false, false], &vec![true, true]),
        Vec::<usize>::new()
    );
}

#[test]
fn flocking_needs_neighbors_and_no_wall() {
    let clear = WallScan { sees_wall: false, steer_probe: None };
    let wall = WallScan { sees_wall: true, steer_probe: Some(2) };
    assert!(flocking_applies(3, &clear));
    assert!(!flocking_applies(0, &clear));
    assert!(!flocking_applies(3, &wall));
    assert!(!flocking_applies(0, &wall));
}

#[test]
fn frame_delta_replaces_zero() {
    assert_eq!(frame_delta_micros(0), MICROS_PER_STEP);
    assert_eq!(frame_delta_micros(16_667), 16_667);
    assert_eq!(frame_delta_micros(1), 1);
}
