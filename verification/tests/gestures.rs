use playbridge::input::{key_events, swipe_steps, tap_events, PointerAction};

fn packed(x: i64, y: i64) -> i64 {
    y * 0x10000 + x
}

#[test]
fn tap_is_one_down_up_pair() {
    let events = tap_events(100, 200, 1280, 720);
    assert_eq!(events.len(), 2);
    assert_eq!(events[0].action, PointerAction::Down);
    assert_eq!(events[1].action, PointerAction::Up);
    assert_eq!(events[0].pos, packed(100, 200));
    assert_eq!(events[1].pos, packed(100, 200));
}

#[test]
fn tap_maps_into_scaled_window() {
    let events = tap_events(640, 360, 800, 600);
    assert_eq!(events[0].pos, packed(400, 300));
    assert_eq!(events[1].pos, packed(400, 300));
}

#[test]
fn swipe_emits_interpolated_samples_then_final_pair() {
    // 40 ms at a 4 ms poll interval: 10 samples, then the end pair.
    let steps = swipe_steps(0, 0, 1000, 500, 40, false, 1280, 720);
    assert_eq!(steps.len(), 12);
    for i in 0..10i64 {
        assert_eq!(steps[i as usize].action, PointerAction::Down);
        assert_eq!(steps[i as usize].pos, packed(100 * i, 50 * i));
        assert_eq!(steps[i as usize].wait_ns, 4_000_000);
    }
    assert_eq!(steps[10].action, PointerAction::Down);
    assert_eq!(steps[11].action, PointerAction::Up);
    assert_eq!(steps[10].pos, packed(1000, 500));
    assert_eq!(steps[11].pos, packed(1000, 500));
    assert_eq!(steps[10].wait_ns, 0);
    assert_eq!(steps[11].wait_ns, 0);
}

#[test]
fn swipe_below_poll_interval_is_only_the_final_pair() {
    // 3 ms < 4 ms: no samples at all; the start point is never visited.
    let steps = swipe_steps(0, 0, 1000, 500, 3, false, 1280, 720);
    assert_eq!(steps.len(), 2);
    assert_eq!(steps[0].action, PointerAction::Down);
    assert_eq!(steps[1].action, PointerAction::Up);
    assert_eq!(steps[0].pos, packed(1000, 500));
    assert_eq!(steps[1].pos, packed(1000, 500));
}

#[test]
fn swipe_negative_duration_is_only_the_final_pair() {
    // A negative duration plans no samples, but the precise release at the
    // end point is still emitted.
    let steps = swipe_steps(0, 0, 1000, 500, -7, false, 1280, 720);
    assert_eq!(steps.len(), 2);
    assert_eq!(steps[0].action, PointerAction::Down);
    assert_eq!(steps[1].action, PointerAction::Up);
    assert_eq!(steps[0].pos, packed(1000, 500));
    assert_eq!(steps[1].pos, packed(1000, 500));
}

#[test]
fn swipe_exactly_poll_interval_has_one_sample() {
    let steps = swipe_steps(200, 100, 600, 300, 4, false, 1280, 720);
    assert_eq!(steps.len(), 3);
    assert_eq!(steps[0].pos, packed(200, 100));
    assert_eq!(steps[1].pos, packed(600, 300));
    assert_eq!(steps[2].pos, packed(600, 300));
}

#[test]
fn swipe_quick_mode_compresses_leading_waits() {
    // 10 samples; the cutoff is 10 * 9 / 10 = 9: samples 0..8 are
    // compressed to a tenth, sample 9 waits the full interval.
    let steps = swipe_steps(0, 0, 1000, 500, 40, true, 1280, 720);
    assert_eq!(steps.len(), 12);
    for i in 0..9 {
        assert_eq!(steps[i].wait_ns, 400_000);
    }
    assert_eq!(steps[9].wait_ns, 4_000_000);
}

#[test]
fn swipe_backwards_interpolates_downward() {
    let steps = swipe_steps(1000, 500, 0, 0, 8, false, 1280, 720);
    assert_eq!(steps.len(), 4);
    assert_eq!(steps[0].pos, packed(1000, 500));
    assert_eq!(steps[1].pos, packed(500, 250));
    assert_eq!(steps[2].pos, packed(0, 0));
    assert_eq!(steps[3].pos, packed(0, 0));
}

#[test]
fn key_press_sets_release_state_bits() {
    let k = key_events(0x01);
    assert_eq!(k.wparam, 1);
    assert_eq!(k.down_lparam, 0x10000);
    // The up parameter is the down word with bits 30 and 31 set, read as a
    // signed 32-bit value.
    assert_eq!(k.up_lparam, ((0x10000u32 | 1 << 30 | 1 << 31) as i32) as i64);
    assert_eq!(k.up_lparam, 0x10000 - 0x40000000);
}
