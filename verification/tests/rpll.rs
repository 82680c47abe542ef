//! Tests of the reciprocal phase-locked loop.

use lockin_dsp::RPLL;

/// Cold start: prior to the first captured edge both estimates are zero.
#[test]
fn rpll_cold_start() {
    let mut r = RPLL::new(8);
    assert_eq!(r.y, 0);
    assert_eq!(r.f, 0);
    let (y, f) = r.update(None, 8, 8);
    assert_eq!((y, f), (0, 0));
}

/// Holdover: after one captured edge, a run of absent timestamps leaves the
/// frequency estimate exactly unchanged and advances the phase estimate by
/// exactly that frequency each window.
#[test]
fn holdover_is_exact() {
    let mut r = RPLL::new(8);
    let (mut y, f0) = r.update(Some(1000), 4, 4);
    for _ in 0..100 {
        let (y1, f1) = r.update(None, 4, 4);
        assert_eq!(f1, f0);
        assert_eq!(y1, y.wrapping_add(f0));
        y = y1;
    }
}

/// Reciprocal counting: periodic reference edges every 1024 ticks with
/// 256-tick windows converge the frequency estimate to a quarter turn per
/// window, and the phase estimate to zero at the edge windows.
#[test]
fn converges_on_periodic_edges() {
    let mut r = RPLL::new(8);
    let mut y: i32 = 0;
    let mut f: i32 = 0;
    for k in 0..16384u32 {
        let out = if k % 4 == 0 {
            r.update(Some((1024u32 * (k / 4)) as i32), 4, 4)
        } else {
            r.update(None, 4, 4)
        };
        if k % 4 == 0 {
            y = out.0;
            f = out.1;
        }
    }
    let quarter: i32 = 1 << 30;
    assert!((f.wrapping_sub(quarter)).abs() <= 64, "f err {}", f.wrapping_sub(quarter));
    assert!(y.abs() <= 4096, "phase at edge window {}", y);
}

/// Edges away from the window boundary converge the phase estimate to the
/// measured phase at the window end: the tick distance from the edge to the
/// boundary times the instantaneous frequency.
#[test]
fn tracks_edge_offset_within_window() {
    let mut r = RPLL::new(8);
    let mut y: i32 = 0;
    let mut f: i32 = 0;
    for k in 0..16384u32 {
        if k % 4 == 0 {
            let t = (1024u32 * (k / 4)).wrapping_add(100) as i32;
            let out = r.update(Some(t), 4, 4);
            y = out.0;
            f = out.1;
        } else {
            r.update(None, 4, 4);
        }
    }
    let quarter: i32 = 1 << 30;
    // 156 ticks remain from the edge to the window boundary; the expected
    // phase there is 156/1024 of a turn.
    let expected: i32 = ((156u64 << 32) / 1024) as u32 as i32;
    assert!((f.wrapping_sub(quarter)).abs() <= 64, "f err {}", f.wrapping_sub(quarter));
    assert!((y.wrapping_sub(expected)).abs() <= 4096, "y {} expected {}", y, expected);
}

/// An interval that is not positive gives no measurement: the timestamp is
/// recorded but the estimates only hold over.
#[test]
fn repeated_tick_is_ignored() {
    let mut r = RPLL::new(8);
    let (_, f0) = r.update(Some(500), 4, 4);
    let y_before = r.y;
    let (y, f) = r.update(Some(500), 4, 4);
    assert_eq!(f, f0);
    assert_eq!(y, y_before.wrapping_add(f0));
    assert_eq!(r.x, 500);
}
