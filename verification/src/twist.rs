//! The twist-overflow hysteresis state machine.
//!
//! The raw twist angle lives on a circle and jumps by a full turn when it
//! crosses the branch cut near plus or minus pi.  A per-limb state in
//! `{-1, 0, +1}` shifts the wrap boundary by a configurable band while the
//! angle sits near it, so a small frame-to-frame oscillation cannot make the
//! output jump by a turn.

use crate::trig::{PI_FX, TAU_FX};
use vstd::math::abs;
use vstd::prelude::*;

verus! {

/// The state is one of locked-negative-wrap, unlocked, locked-positive-wrap.
pub open spec fn twist_state_ok(s: int) -> bool {
    s == -1 || s == 0 || s == 1
}

/// The wrap boundary for a raw twist angle: pi on the angle's side of zero,
/// pulled in by the configured inflection offset.
pub open spec fn inflection_point_s(twist_angle: int, inflection_offset: int) -> int {
    (if twist_angle > 0 {
        PI_FX as int
    } else {
        -PI_FX as int
    }) - inflection_offset
}

/// The next overflow state: lock when the angle enters the band around the
/// boundary while unlocked, keep the lock inside the band, release outside.
pub open spec fn twist_next_state_s(
    state: int,
    twist_angle: int,
    inflection_offset: int,
    overflow: int,
) -> int {
    let dist = twist_angle - inflection_point_s(twist_angle, inflection_offset);
    if abs(dist) < overflow {
        if state == 0 {
            if dist < 0 {
                1
            } else {
                -1
            }
        } else {
            state
        }
    } else {
        0
    }
}

/// The twist angle wrapped by a whole turn when it lies beyond the boundary,
/// with the boundary shifted by the previous state's band.
pub open spec fn twist_wrapped_angle_s(
    state: int,
    twist_angle: int,
    inflection_offset: int,
    overflow: int,
) -> int {
    let shifted = inflection_point_s(twist_angle, inflection_offset) + state * overflow;
    if twist_angle > 0 && twist_angle > shifted {
        twist_angle - TAU_FX
    } else if twist_angle < 0 && twist_angle < shifted {
        twist_angle + TAU_FX
    } else {
        twist_angle
    }
}

/// One step of the twist-overflow hysteresis: returns the next state and the
/// wrapped twist angle.  The boundary shift uses the state as it was before
/// this step, as the per-frame update does.
pub fn twist_overflow_step(
    state: i64,
    twist_angle: i64,
    inflection_offset: i64,
    overflow: i64,
) -> (r: (i64, i64))
    requires
        twist_state_ok(state as int),
        abs(twist_angle as int) <= 100_000_000,
        abs(inflection_offset as int) <= 16_000_000,
        0 <= overflow <= 16_000_000,
    ensures
        r.0 as int == twist_next_state_s(
            state as int,
            twist_angle as int,
            inflection_offset as int,
            overflow as int,
        ),
        r.1 as int == twist_wrapped_angle_s(
            state as int,
            twist_angle as int,
            inflection_offset as int,
            overflow as int,
        ),
        twist_state_ok(r.0 as int),
        abs(r.1 as int) <= abs(twist_angle as int) + TAU_FX,
{
    let inflection_point: i64 = (if twist_angle > 0 {
        PI_FX
    } else {
        -PI_FX
    }) - inflection_offset;
    let overflow_area: i64 = state * overflow;
    let dist: i64 = twist_angle - inflection_point;
    let dist_abs: i64 = if dist < 0 {
        -dist
    } else {
        dist
    };
    let new_state: i64 = if dist_abs < overflow {
        if state == 0 {
            if dist < 0 {
                1
            } else {
                -1
            }
        } else {
            state
        }
    } else {
        0
    };
    let shifted: i64 = inflection_point + overflow_area;
    let wrapped: i64 = if twist_angle > 0 && twist_angle > shifted {
        twist_angle - TAU_FX
    } else if twist_angle < 0 && twist_angle < shifted {
        twist_angle + TAU_FX
    } else {
        twist_angle
    };
    (new_state, wrapped)
}

/// Hysteresis keeps a locked wrap decision stable: while the raw twist angle
/// stays positive and inside the band around the positive boundary, a locked
/// state stays locked, both angles are wrapped the same way, and the outputs
/// differ by exactly the difference of the inputs — no whole-turn jump leaks
/// through.
pub proof fn lemma_twist_overflow_hysteresis(
    state: int,
    t1: int,
    t2: int,
    inflection_offset: int,
    overflow: int,
)
    requires
        state == 1 || state == -1,
        overflow > 0,
        t1 > 0,
        t2 > 0,
        abs(t1 - inflection_point_s(t1, inflection_offset)) < overflow,
        abs(t2 - inflection_point_s(t2, inflection_offset)) < overflow,
    ensures
        twist_next_state_s(state, t1, inflection_offset, overflow) == state,
        twist_next_state_s(state, t2, inflection_offset, overflow) == state,
        twist_wrapped_angle_s(state, t2, inflection_offset, overflow) - twist_wrapped_angle_s(
            state,
            t1,
            inflection_offset,
            overflow,
        ) == t2 - t1,
{
    let ip = (PI_FX as int) - inflection_offset;
    assert(inflection_point_s(t1, inflection_offset) == ip);
    assert(inflection_point_s(t2, inflection_offset) == ip);
    if state == 1 {
        assert(t1 <= ip + overflow);
        assert(t2 <= ip + overflow);
    } else {
        assert(t1 > ip - overflow);
        assert(t2 > ip - overflow);
    }
}

/// The mirror of the hysteresis guarantee on the negative side: while the
/// raw twist angle stays negative and inside the band around the negative
/// boundary, a locked state stays locked and no whole-turn jump leaks
/// through.
pub proof fn lemma_twist_overflow_hysteresis_negative(
    state: int,
    t1: int,
    t2: int,
    inflection_offset: int,
    overflow: int,
)
    requires
        state == 1 || state == -1,
        overflow > 0,
        t1 < 0,
        t2 < 0,
        abs(t1 - inflection_point_s(t1, inflection_offset)) < overflow,
        abs(t2 - inflection_point_s(t2, inflection_offset)) < overflow,
    ensures
        twist_next_state_s(state, t1, inflection_offset, overflow) == state,
        twist_next_state_s(state, t2, inflection_offset, overflow) == state,
        twist_wrapped_angle_s(state, t2, inflection_offset, overflow) - twist_wrapped_angle_s(
            state,
            t1,
            inflection_offset,
            overflow,
        ) == t2 - t1,
{
    let ip = -(PI_FX as int) - inflection_offset;
    assert(inflection_point_s(t1, inflection_offset) == ip);
    assert(inflection_point_s(t2, inflection_offset) == ip);
    if state == -1 {
        assert(t1 >= ip - overflow);
        assert(t2 >= ip - overflow);
    } else {
        assert(t1 < ip + overflow);
        assert(t2 < ip + overflow);
    }
}

/// An unlocked state locks as soon as the angle enters the band, choosing the
/// wrap direction by which side of the boundary the angle sits on, and a
/// state releases as soon as the angle leaves the band.
pub proof fn lemma_twist_overflow_lock_release(
    state: int,
    t: int,
    inflection_offset: int,
    overflow: int,
)
    requires
        twist_state_ok(state),
    ensures
        abs(t - inflection_point_s(t, inflection_offset)) >= overflow ==> twist_next_state_s(
            state,
            t,
            inflection_offset,
            overflow,
        ) == 0,
        abs(t - inflection_point_s(t, inflection_offset)) < overflow && state == 0 ==> (
        twist_next_state_s(state, t, inflection_offset, overflow) == if t
            < inflection_point_s(t, inflection_offset) {
            1int
        } else {
            -1int
        }),
{
}

} // verus!
