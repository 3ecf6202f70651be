//! The fan of wall probes that a boid casts ahead of itself, and the scan
//! that decides, probe by probe, whether the boid has to turn away.
//!
//! Probe `i` looks along `heading + step * probe_offset(i)`, where `step` is
//! the angle between neighbouring probes. Whether a probe is blocked (it hits
//! a wall or leaves the window) is measured by the caller; the scan below only
//! decides what to probe next and what the outcome is.
use vstd::prelude::*;

verus! {

/// Angular offset, in fan steps, of probe number `index`.
pub open spec fn probe_offset_spec(index: int) -> int {
    if index % 2 == 0 {
        -(index / 2)
    } else {
        index / 2
    }
}

/// Angular offset, in fan steps, of probe number `index`: even probes turn to
/// one side and odd probes to the other, widening as they go
/// (0, 0, -1, 1, -2, 2, ...).
pub fn probe_offset(index: u32) -> (offset: i64)
    ensures
        offset == probe_offset_spec(index as int),
        index % 2 == 0 ==> offset == -((index / 2) as int),
        index % 2 == 1 ==> offset == (index / 2) as int,
{
    let half: i64 = (index / 2) as i64;
    if index % 2 == 0 {
        -half
    } else {
        half
    }
}

/// What the wall scan of one boid found.
#[derive(Clone, Copy, Debug, PartialEq, Eq)]
pub struct WallScan {
    /// Some probe was blocked before the scan stopped.
    pub sees_wall: bool,
    /// The probe that the boid turns towards, if it has to turn.
    pub steer_probe: Option<u32>,
}

/// One step of the wall scan: either the next probe to measure, or the end.
#[derive(Clone, Copy, Debug, PartialEq, Eq)]
pub enum ScanStep {
    Probe(u32),
    Finished(WallScan),
}

/// The outcome of a scan that stopped before any probe was blocked.
pub open spec fn clear_scan() -> WallScan {
    WallScan { sees_wall: false, steer_probe: None }
}

/// How a scan over `probe_count` probes begins.
pub open spec fn scan_start_spec(probe_count: int) -> ScanStep {
    if probe_count <= 0 {
        ScanStep::Finished(clear_scan())
    } else {
        ScanStep::Probe(0)
    }
}

/// What follows once probe `index` of `probe_count` turned out `blocked` or not.
/// A clear first probe ends the scan with nothing to do; a clear later probe
/// ends it with a turn towards that probe; a blocked probe moves on to the next
/// one, and when none is left the boid sees a wall with nowhere to turn.
pub open spec fn scan_next_spec(probe_count: int, index: int, blocked: bool) -> ScanStep {
    if !blocked {
        if index == 0 {
            ScanStep::Finished(clear_scan())
        } else {
            ScanStep::Finished(WallScan { sees_wall: true, steer_probe: Some(index as u32) })
        }
    } else if index + 1 < probe_count {
        ScanStep::Probe((index + 1) as u32)
    } else {
        ScanStep::Finished(WallScan { sees_wall: true, steer_probe: None })
    }
}

/// Starts the wall scan of a boid that casts `probe_count` probes.
pub fn scan_start(probe_count: i32) -> (step: ScanStep)
    ensures
        step == scan_start_spec(probe_count as int),
        probe_count > 0 ==> step == ScanStep::Probe(0),
        probe_count <= 0 ==> step == ScanStep::Finished(
            WallScan { sees_wall: false, steer_probe: None },
        ),
{
    if probe_count <= 0 {
        ScanStep::Finished(WallScan { sees_wall: false, steer_probe: None })
    } else {
        ScanStep::Probe(0)
    }
}

/// Advances the wall scan after probe `index` was measured.
pub fn scan_next(probe_count: i32, index: u32, blocked: bool) -> (step: ScanStep)
    requires
        index < probe_count,
    ensures
        step == scan_next_spec(probe_count as int, index as int, blocked),
        step matches ScanStep::Probe(next) ==> next == index + 1 && blocked,
        blocked && index + 1 < probe_count ==> step == ScanStep::Probe((index + 1) as u32),
        blocked && index + 1 >= probe_count ==> step == ScanStep::Finished(
            WallScan { sees_wall: true, steer_probe: None },
        ),
        !blocked && index == 0 ==> step == ScanStep::Finished(
            WallScan { sees_wall: false, steer_probe: None },
        ),
        !blocked && index > 0 ==> step == ScanStep::Finished(
            WallScan { sees_wall: true, steer_probe: Some(index) },
        ),
{
    if !blocked {
        if index == 0 {
            ScanStep::Finished(WallScan { sees_wall: false, steer_probe: None })
        } else {
            ScanStep::Finished(WallScan { sees_wall: true, steer_probe: Some(index) })
        }
    } else if (index as i64) + 1 < (probe_count as i64) {
        ScanStep::Probe(index + 1)
    } else {
        ScanStep::Finished(WallScan { sees_wall: true, steer_probe: None })
    }
}

/// The outcome of running the scan from probe `index` on, when probe `j`
/// turns out `blocked[j]`.
pub open spec fn scan_from(probe_count: int, index: int, blocked: Seq<bool>) -> WallScan
    decreases probe_count - index,
{
    if index < 0 || index >= probe_count {
        clear_scan()
    } else {
        match scan_next_spec(probe_count, index, blocked[index]) {
            ScanStep::Probe(next) => {
                if next as int == index + 1 {
                    scan_from(probe_count, index + 1, blocked)
                } else {
                    clear_scan()
                }
            },
            ScanStep::Finished(outcome) => outcome,
        }
    }
}

/// The outcome of a whole scan, started with `scan_start` and advanced with
/// `scan_next`, when probe `j` turns out `blocked[j]`.
pub open spec fn scan_outcome(probe_count: int, blocked: Seq<bool>) -> WallScan {
    match scan_start_spec(probe_count) {
        ScanStep::Probe(_) => scan_from(probe_count, 0, blocked),
        ScanStep::Finished(outcome) => outcome,
    }
}

proof fn lemma_scan_from(probe_count: int, index: int, blocked: Seq<bool>)
    requires
        0 <= index < probe_count <= i32::MAX,
        blocked.len() >= probe_count,
        forall|j: int| 0 <= j < index ==> blocked[j],
    ensures
        ({
            let r = scan_from(probe_count, index, blocked);
            &&& r.sees_wall == (index > 0 || blocked[0])
            &&& r.steer_probe matches Some(k) ==> {
                &&& index <= k < probe_count
                &&& 0 < k
                &&& !blocked[k as int]
                &&& forall|j: int| 0 <= j < k ==> blocked[j]
            }
            &&& r.steer_probe is None ==> (index == 0 && !blocked[0]) || forall|j: int|
                0 <= j < probe_count ==> blocked[j]
        }),
    decreases probe_count - index,
{
    if blocked[index] && index + 1 < probe_count {
        lemma_scan_from(probe_count, index + 1, blocked);
    }
}

/// The scan obeys the fan order: a boid sees a wall exactly when its first
/// probe (straight ahead) is blocked; when it turns, it turns towards the first
/// probe in fan order that is clear, after all earlier ones were blocked; and it
/// goes on without turning only when its first probe is clear or every probe is
/// blocked.
pub proof fn law_scan_follows_fan_order(probe_count: int, blocked: Seq<bool>)
    requires
        0 < probe_count <= i32::MAX,
        blocked.len() >= probe_count,
    ensures
        ({
            let r = scan_outcome(probe_count, blocked);
            &&& r.sees_wall == blocked[0]
            &&& r.steer_probe matches Some(k) ==> {
                &&& 0 < k < probe_count
                &&& !blocked[k as int]
                &&& forall|j: int| 0 <= j < k ==> blocked[j]
            }
            &&& r.steer_probe is None ==> !blocked[0] || forall|j: int|
                0 <= j < probe_count ==> blocked[j]
        }),
{
    lemma_scan_from(probe_count, 0, blocked);
}

/// A boid that casts no probe never sees a wall and never turns.
pub proof fn law_no_probes_no_wall(probe_count: int, blocked: Seq<bool>)
    requires
        probe_count <= 0,
    ensures
        scan_outcome(probe_count, blocked) == clear_scan(),
{
}

/// The probes of a fan of `probe_count` stay within half the fan on either
/// side: `2 * |offset| <= probe_count - 1`, so with a step of
/// `2 * arc / (probe_count - 1)` no probe leaves the arc `[-arc, arc]`.
/// Probes `2m` and `2m + 1` mirror each other.
pub proof fn law_probe_fan_within_arc(probe_count: int, index: int)
    requires
        0 <= index < probe_count,
    ensures
        2 * probe_offset_spec(index) <= probe_count - 1,
        -2 * probe_offset_spec(index) <= probe_count - 1,
        index % 2 == 0 ==> probe_offset_spec(index) == -probe_offset_spec(index + 1),
{
}

/// Every scan over at least one probe begins with probe 0, the one straight
/// ahead; a scan over no probe ends at once, seeing no wall and not turning.
pub proof fn law_scan_starts_straight_ahead(probe_count: int)
    ensures
        probe_count > 0 ==> scan_start_spec(probe_count) == ScanStep::Probe(0),
        probe_count <= 0 ==> scan_start_spec(probe_count) == ScanStep::Finished(
            WallScan { sees_wall: false, steer_probe: None },
        ),
{
}

/// Each step of the scan, for every fan size: a clear probe 0 ends the scan
/// with no wall and no turn; a clear later probe ends it with a wall seen and a
/// turn towards that probe; a blocked probe asks for the very next probe when
/// there is one, and otherwise ends the scan with a wall seen and no turn. No
/// step ever asks for a probe other than the next one.
pub proof fn law_scan_step(probe_count: int, index: int, blocked: bool)
    requires
        0 <= index < probe_count <= i32::MAX,
    ensures
        !blocked && index == 0 ==> scan_next_spec(probe_count, index, blocked)
            == ScanStep::Finished(WallScan { sees_wall: false, steer_probe: None }),
        !blocked && index > 0 ==> scan_next_spec(probe_count, index, blocked)
            == ScanStep::Finished(WallScan { sees_wall: true, steer_probe: Some(index as u32) }),
        blocked && index + 1 < probe_count ==> scan_next_spec(probe_count, index, blocked)
            == ScanStep::Probe((index + 1) as u32),
        blocked && index + 1 >= probe_count ==> scan_next_spec(probe_count, index, blocked)
            == ScanStep::Finished(WallScan { sees_wall: true, steer_probe: None }),
        scan_next_spec(probe_count, index, blocked) matches ScanStep::Probe(next) ==> next == index
            + 1,
{
}

/// The fan widens one step per pair of probes, even probes on the negative
/// side: probe `2m` looks `m` steps to one side and probe `2m + 1` looks `m`
/// steps to the other, so `|offset(i)| == i / 2` for every probe `i`.
pub proof fn law_probe_offsets_widen(m: int)
    requires
        m >= 0,
    ensures
        probe_offset_spec(2 * m) == -m,
        probe_offset_spec(2 * m + 1) == m,
{
}

} // verus!
