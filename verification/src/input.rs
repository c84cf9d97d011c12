//! Planning of pointer and key event sequences for tap, swipe and key-press
//! operations. The plans are pure data: each entry names the native message
//! to post (pointer down or up, key down or up), the packed coordinate or
//! parameter word to post it with, and the pause to hold after posting.

use crate::geometry::{
    map_point, spec_map_point, MAX_CLIENT_DIM, VIRTUAL_HEIGHT, VIRTUAL_WIDTH,
};
use vstd::arithmetic::div_mod::{
    lemma_basic_div, lemma_div_is_ordered, lemma_div_multiples_vanish, lemma_div_pos_is_pos,
};
use vstd::arithmetic::mul::{
    lemma_mul_inequality, lemma_mul_is_commutative, lemma_mul_nonnegative,
    lemma_mul_unary_negation, lemma_mul_upper_bound,
};
use vstd::prelude::*;

verus! {

/// Sampling cadence of a swipe: one interpolated point per poll interval.
pub const POLL_INTERVAL_MS: u32 = 4;

/// Pause after posting one swipe sample, in nanoseconds: the poll interval.
pub const SAMPLE_WAIT_NS: u32 = 4 * 1000 * 1000;

/// Compression factor of quick-gesture mode: the leading portion of the
/// samples waits only a tenth of the poll interval.
pub const QUICK_SPEED: u32 = 10;

#[derive(Clone, Copy, Debug, PartialEq, Eq, Structural)]
pub enum PointerAction {
    Down,
    Up,
}

/// One pointer message of a tap: an action at a packed point.
#[derive(Clone, Copy, Debug, PartialEq, Eq, Structural)]
pub struct PointerEvent {
    pub action: PointerAction,
    pub pos: i64,
}

/// One step of a swipe: a pointer message at a packed point, followed by a
/// pause of `wait_ns` nanoseconds before the next step.
#[derive(Clone, Copy, Debug, PartialEq, Eq, Structural)]
pub struct SwipeStep {
    pub action: PointerAction,
    pub pos: i64,
    pub wait_ns: u32,
}

/// The parameter words of one key press: a key-down message and a key-up
/// message, both carrying the key code, the up message additionally marked
/// with the native release state bits.
#[derive(Clone, Copy, Debug, PartialEq, Eq, Structural)]
pub struct KeyMessages {
    pub wparam: usize,
    pub down_lparam: i64,
    pub up_lparam: i64,
}

/// Quotient of `a / b` rounded toward zero.
pub open spec fn trunc_div(a: int, b: int) -> int
    recommends
        0 < b,
{
    if a >= 0 {
        a / b
    } else {
        -((-a) / b)
    }
}

/// Linear interpolation from `a` toward `b` at sample `i` of `n`, rounded
/// toward zero; sample 0 is `a` itself, and the step never reaches `b`
/// unless `i == n`.
pub open spec fn spec_interp(a: int, b: int, i: int, n: int) -> int
    recommends
        0 <= i <= n,
{
    if n <= 0 {
        a
    } else {
        a + trunc_div((b - a) * i, n)
    }
}

/// Number of interpolated swipe samples: the duration divided by the poll
/// interval, rounded down; a duration below zero yields none, as one below
/// the poll interval does.
pub open spec fn spec_sample_count(dur: int) -> int {
    if dur < 0 {
        0
    } else {
        dur / (POLL_INTERVAL_MS as int)
    }
}

/// First sample index that waits the full poll interval: in quick mode the
/// leading `(QUICK_SPEED - 1) / QUICK_SPEED` share of the samples is
/// compressed, otherwise no sample is.
pub open spec fn spec_quick_cutoff(n: int, quick: bool) -> int
    recommends
        0 <= n,
{
    if quick {
        n * (QUICK_SPEED - 1) / (QUICK_SPEED as int)
    } else {
        0
    }
}

/// Pause after sample `i` of `n`: compressed before the cutoff, the full
/// poll interval from the cutoff on.
pub open spec fn spec_wait_ns(i: int, n: int, quick: bool) -> int {
    if i >= spec_quick_cutoff(n, quick) {
        SAMPLE_WAIT_NS as int
    } else {
        SAMPLE_WAIT_NS as int / (QUICK_SPEED as int)
    }
}

/// The packed window point of swipe sample `i` of `n`, interpolating both
/// coordinates and mapping the result into the `w` by `h` client area.
pub open spec fn spec_swipe_pos(
    x1: int,
    y1: int,
    x2: int,
    y2: int,
    w: int,
    h: int,
    i: int,
    n: int,
) -> int {
    spec_map_point(spec_interp(x1, x2, i, n), spec_interp(y1, y2, i, n), w, h)
}

/// The interpolated value stays between its two endpoints.
pub proof fn lemma_interp_bounds(a: int, b: int, i: int, n: int)
    requires
        0 <= i <= n,
    ensures
        a <= b ==> a <= spec_interp(a, b, i, n) <= b,
        b <= a ==> b <= spec_interp(a, b, i, n) <= a,
{
    if n > 0 {
        let d = if b >= a {
            b - a
        } else {
            a - b
        };
        lemma_mul_nonnegative(d, i);
        lemma_div_pos_is_pos(d * i, n);
        lemma_mul_inequality(i, n, d);
        lemma_mul_is_commutative(i, d);
        lemma_mul_is_commutative(n, d);
        lemma_div_is_ordered(d * i, d * n, n);
        lemma_div_multiples_vanish(d, n);
        lemma_mul_is_commutative(d, n);
        if b < a {
            lemma_mul_unary_negation(d, i);
            assert((b - a) * i == -(d * i));
            if d * i == 0 {
                lemma_basic_div(0, n);
            }
        }
    }
}

/// Interpolates one coordinate of swipe sample `i` of `n`.
fn interp_coord(a: i32, b: i32, i: u32, n: u32) -> (r: i32)
    requires
        i <= n,
        0 <= a <= MAX_CLIENT_DIM as int,
        0 <= b <= MAX_CLIENT_DIM as int,
    ensures
        r == spec_interp(a as int, b as int, i as int, n as int),
        a <= b ==> a <= r <= b,
        b <= a ==> b <= r <= a,
{
    proof {
        lemma_interp_bounds(a as int, b as int, i as int, n as int);
    }
    if n == 0 {
        return a;
    }
    let d: i64 = (b as i64) - (a as i64);
    let off: i64 = if d >= 0 {
        proof {
            lemma_mul_upper_bound(d as int, MAX_CLIENT_DIM as int, i as int, u32::MAX as int);
            lemma_mul_nonnegative(d as int, i as int);
            lemma_div_pos_is_pos(d as int * i as int, n as int);
        }
        (((d as u64) * (i as u64)) / (n as u64)) as i64
    } else {
        proof {
            lemma_mul_upper_bound(-d as int, MAX_CLIENT_DIM as int, i as int, u32::MAX as int);
            lemma_mul_nonnegative(-d as int, i as int);
            lemma_div_pos_is_pos(-d as int * i as int, n as int);
            lemma_mul_unary_negation(a as int - b as int, i as int);
            lemma_basic_div(0, n as int);
        }
        let mag: i64 = ((((-d) as u64) * (i as u64)) / (n as u64)) as i64;
        -mag
    };
    (a as i64 + off) as i32
}

/// Event pair of a tap: exactly one pointer-down and one pointer-up, back to
/// back, both at the mapped point, and nothing else.
pub fn tap_events(x: i32, y: i32, w: i32, h: i32) -> (r: Vec<PointerEvent>)
    requires
        0 <= x <= VIRTUAL_WIDTH as int,
        0 <= y <= VIRTUAL_HEIGHT as int,
        0 <= w <= MAX_CLIENT_DIM as int,
        0 <= h <= MAX_CLIENT_DIM as int,
    ensures
        r@.len() == 2,
        r@[0].action is Down,
        r@[1].action is Up,
        r@[0].pos == spec_map_point(x as int, y as int, w as int, h as int),
        r@[1].pos == spec_map_point(x as int, y as int, w as int, h as int),
{
    let pos = map_point(x, y, w, h);
    let mut events: Vec<PointerEvent> = Vec::new();
    events.push(PointerEvent { action: PointerAction::Down, pos });
    events.push(PointerEvent { action: PointerAction::Up, pos });
    events
}

/// Step sequence of a swipe: `floor(dur / POLL_INTERVAL_MS)` interpolated
/// pointer-down samples, each followed by its pacing pause, then a final
/// pointer-down and pointer-up pair exactly at the mapped end point. With a
/// duration below the poll interval (a negative one included) there are no
/// samples at all: only the final pair at the end point is emitted, and the
/// start point is never visited.
pub fn swipe_steps(
    x1: i32,
    y1: i32,
    x2: i32,
    y2: i32,
    dur: i32,
    quick: bool,
    w: i32,
    h: i32,
) -> (r: Vec<SwipeStep>)
    requires
        0 <= x1 <= VIRTUAL_WIDTH as int,
        0 <= y1 <= VIRTUAL_HEIGHT as int,
        0 <= x2 <= VIRTUAL_WIDTH as int,
        0 <= y2 <= VIRTUAL_HEIGHT as int,
        0 <= w <= MAX_CLIENT_DIM as int,
        0 <= h <= MAX_CLIENT_DIM as int,
    ensures
        r@.len() == spec_sample_count(dur as int) + 2,
        forall|i: int|
            0 <= i < spec_sample_count(dur as int) ==> {
                &&& (#[trigger] r@[i]).action is Down
                &&& r@[i].pos == spec_swipe_pos(
                    x1 as int,
                    y1 as int,
                    x2 as int,
                    y2 as int,
                    w as int,
                    h as int,
                    i,
                    spec_sample_count(dur as int),
                )
                &&& r@[i].wait_ns == spec_wait_ns(i, spec_sample_count(dur as int), quick)
            },
        r@[spec_sample_count(dur as int)].action is Down,
        r@[spec_sample_count(dur as int) + 1].action is Up,
        r@[spec_sample_count(dur as int)].pos == spec_map_point(
            x2 as int,
            y2 as int,
            w as int,
            h as int,
        ),
        r@[spec_sample_count(dur as int) + 1].pos == spec_map_point(
            x2 as int,
            y2 as int,
            w as int,
            h as int,
        ),
        r@[spec_sample_count(dur as int)].wait_ns == 0,
        r@[spec_sample_count(dur as int) + 1].wait_ns == 0,
{
    let n: u32 = if dur < 0 {
        0
    } else {
        (dur as u32) / POLL_INTERVAL_MS
    };
    let cutoff: u32 = if quick {
        (((n as u64) * ((QUICK_SPEED - 1) as u64)) / (QUICK_SPEED as u64)) as u32
    } else {
        0
    };
    proof {
        if quick {
            lemma_mul_nonnegative(n as int, (QUICK_SPEED - 1) as int);
            lemma_div_pos_is_pos(n as int * (QUICK_SPEED - 1) as int, QUICK_SPEED as int);
            lemma_mul_inequality(
                (QUICK_SPEED - 1) as int,
                QUICK_SPEED as int,
                n as int,
            );
            lemma_mul_is_commutative((QUICK_SPEED - 1) as int, n as int);
            lemma_mul_is_commutative(QUICK_SPEED as int, n as int);
            lemma_div_is_ordered(
                n as int * (QUICK_SPEED - 1) as int,
                n as int * QUICK_SPEED as int,
                QUICK_SPEED as int,
            );
            lemma_div_multiples_vanish(n as int, QUICK_SPEED as int);
            lemma_mul_is_commutative(n as int, QUICK_SPEED as int);
        }
    }
    let mut steps: Vec<SwipeStep> = Vec::new();
    let mut cnt: u32 = 0;
    while cnt < n
        invariant
            cnt <= n,
            n == spec_sample_count(dur as int),
            cutoff as int == spec_quick_cutoff(n as int, quick),
            0 <= x1 <= VIRTUAL_WIDTH as int,
            0 <= y1 <= VIRTUAL_HEIGHT as int,
            0 <= x2 <= VIRTUAL_WIDTH as int,
            0 <= y2 <= VIRTUAL_HEIGHT as int,
            0 <= w <= MAX_CLIENT_DIM as int,
            0 <= h <= MAX_CLIENT_DIM as int,
            steps@.len() == cnt,
            forall|i: int|
                0 <= i < cnt ==> {
                    &&& (#[trigger] steps@[i]).action is Down
                    &&& steps@[i].pos == spec_swipe_pos(
                        x1 as int,
                        y1 as int,
                        x2 as int,
                        y2 as int,
                        w as int,
                        h as int,
                        i,
                        n as int,
                    )
                    &&& steps@[i].wait_ns == spec_wait_ns(i, n as int, quick)
                },
        decreases n - cnt,
    {
        let ix = interp_coord(x1, x2, cnt, n);
        let iy = interp_coord(y1, y2, cnt, n);
        let pos = map_point(ix, iy, w, h);
        let wait: u32 = if cnt >= cutoff {
            SAMPLE_WAIT_NS
        } else {
            SAMPLE_WAIT_NS / QUICK_SPEED
        };
        steps.push(SwipeStep { action: PointerAction::Down, pos, wait_ns: wait });
        cnt = cnt + 1;
    }
    let end_pos = map_point(x2, y2, w, h);
    steps.push(SwipeStep { action: PointerAction::Down, pos: end_pos, wait_ns: 0 });
    steps.push(SwipeStep { action: PointerAction::Up, pos: end_pos, wait_ns: 0 });
    steps
}

/// Parameter words of one key press. The down message carries the key code
/// in the scan-code field (bits 16 and up) of its parameter; the up message
/// carries the same word with the native release state bits (bits 30 and 31)
/// set, which as a signed 32-bit parameter is the down word minus
/// `0x40000000`.
pub fn key_events(keycode: u16) -> (r: KeyMessages)
    requires
        keycode < 0x4000,
    ensures
        r.wparam == keycode,
        r.down_lparam == keycode * 0x10000,
        r.up_lparam == keycode * 0x10000 - 0x40000000,
{
    let down: i64 = (keycode as i64) * 0x10000;
    KeyMessages { wparam: keycode as usize, down_lparam: down, up_lparam: down - 0x40000000 }
}

} // verus!
