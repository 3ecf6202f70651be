use rust_boids::steering::{probe_offset, scan_next, scan_start, ScanStep, WallScan};

fn run_scan(probe_count: i32, blocked: &[bool]) -> (WallScan, Vec<u32>) {
    let mut probed = Vec::new();
    let mut step = scan_start(probe_count);
    loop {
        match step {
            ScanStep::Probe(i) => {
                probed.push(i);
                step = scan_next(probe_count, i, blocked[i as usize]);
            }
            ScanStep::Finished(outcome) => return (outcome, probed),
        }
    }
}

#[test]
fn probe_offsets_fan_out_alternately() {
    let offsets: Vec<i64> = (0..7).map(probe_offset).collect();
    assert_eq!(offsets, vec![0, 0, -1, 1, -2, 2, -3]);
    assert_eq!(probe_offset(12), -6);
    assert_eq!(probe_offset(u32::MAX), (u32::MAX / 2) as i64);
}

#[test]
fn probe_fan_stays_within_the_arc() {
    let probe_count: i64 = 13;
    for i in 0..13u32 {
        assert!(2 * probe_offset(i).abs() <= probe_count - 1);
    }
}

#[test]
fn clear_heading_means_no_wall() {
    let (outcome, probed) = run_scan(13, &[false; 13]);
    assert_eq!(outcome, WallScan { sees_wall: false, steer_probe: None });
    assert_eq!(probed, vec![0]);
}

#[test]
fn turn_towards_first_clear_probe() {
    let mut blocked = [true; 13];
    blocked[3] = false;
    blocked[5] = false;
    let (outcome, probed) = run_scan(13, &blocked);
    assert_eq!(outcome, WallScan { sees_wall: true, steer_probe: Some(3) });
    assert_eq!(probed, vec![0, 1, 2, 3]);
}

#[test]
fn all_probes_blocked() {
    let (outcome, probed) = run_scan(13, &[true; 13]);
    assert_eq!(outcome, WallScan { sees_wall: true, steer_probe: None });
    assert_eq!(probed.len(), 13);
}

#[test]
fn no_probes_at_all() {
    assert_eq!(
        scan_start(0),
        ScanStep::Finished(WallScan { sees_wall: false, steer_probe: None })
    );
    assert_eq!(
        scan_start(-3),
        ScanStep::Finished(WallScan { sees_wall: false, steer_probe: None })
    );
}

#[test]
fn single_probe_fan() {
    assert_eq!(
        scan_next(1, 0, true),
        ScanStep::Finished(WallScan { sees_wall: true, steer_probe: None })
    );
    assert_eq!(
        scan_next(1, 0, false),
        ScanStep::Finished(WallScan { sees_wall: false, steer_probe: None })
    );
}

#[test]
fn blocked_probe_moves_on() {
    assert_eq!(scan_next(13, 4, true), ScanStep::Probe(5));
    assert_eq!(
        scan_next(13, 12, true),
        ScanStep::Finished(WallScan { sees_wall: true, steer_probe: None })
    );
    assert_eq!(
        scan_next(13, 4, false),
        ScanStep::Finished(WallScan { sees_wall: true, steer_probe: Some(4) })
    );
}

#[test]
fn every_pattern_of_five_probes_follows_fan_order() {
    for pattern in 0u32..32 {
        let blocked: Vec<bool> = (0..5).map(|j| pattern & (1 << j) != 0).collect();
        let (outcome, _) = run_scan(5, &blocked);
        assert_eq!(outcome.sees_wall, blocked[0]);
        match outcome.steer_probe {
            Some(k) => {
                assert!(k > 0 && k < 5);
                assert!(!blocked[k as usize]);
                assert!(blocked[..k as usize].iter().all(|&b| b));
            }
            None => assert!(!blocked[0] || blocked.iter().all(|&b| b)),
        }
    }
}
