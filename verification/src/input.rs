//! Per-tick input: which direction keys are held, and the mouse motion events
//! received since the last tick.

use vstd::prelude::*;

verus! {

/// The direction keys held during one tick.
#[derive(Clone, Copy, Debug, PartialEq, Eq, Structural)]
pub struct KeyState {
    pub forward: bool,
    pub back: bool,
    pub left: bool,
    pub right: bool,
}

/// One mouse motion event (or an accumulated total), in whole pixels.
#[derive(Clone, Copy, Debug, PartialEq, Eq, Structural)]
pub struct MouseDelta {
    pub dx: i64,
    pub dy: i64,
}

/// The most mouse motion events one tick can carry.
pub const MOUSE_EVENTS_MAX: usize = 16384;

/// The largest pixel delta a single mouse motion event can carry.
pub const MOUSE_DELTA_MAX: i64 = 4096;

/// A bound on any accumulated mouse delta: `MOUSE_EVENTS_MAX * MOUSE_DELTA_MAX`.
pub const MOUSE_TOTAL_MAX: i64 = 67108864;

/// +1 for a held forward key, -1 for a held back key; they cancel.
pub open spec fn forward_axis(k: KeyState) -> int {
    (if k.forward {
        1int
    } else {
        0int
    }) - (if k.back {
        1int
    } else {
        0int
    })
}

/// +1 for a held right key, -1 for a held left key; they cancel.
pub open spec fn strafe_axis(k: KeyState) -> int {
    (if k.right {
        1int
    } else {
        0int
    }) - (if k.left {
        1int
    } else {
        0int
    })
}

/// The sum of the horizontal pixel deltas of a tick's mouse events.
pub open spec fn sum_dx(s: Seq<MouseDelta>) -> int
    decreases s.len(),
{
    if s.len() == 0 {
        0
    } else {
        sum_dx(s.drop_last()) + s.last().dx
    }
}

/// The sum of the vertical pixel deltas of a tick's mouse events.
pub open spec fn sum_dy(s: Seq<MouseDelta>) -> int
    decreases s.len(),
{
    if s.len() == 0 {
        0
    } else {
        sum_dy(s.drop_last()) + s.last().dy
    }
}

/// Drains a tick's mouse motion events into a single accumulated delta.
pub fn accumulate_mouse(events: &Vec<MouseDelta>) -> (total: MouseDelta)
    requires
        events@.len() <= MOUSE_EVENTS_MAX,
        forall|i: int|
            0 <= i < events@.len() ==> -MOUSE_DELTA_MAX <= (#[trigger] events@[i]).dx
                <= MOUSE_DELTA_MAX && -MOUSE_DELTA_MAX <= events@[i].dy <= MOUSE_DELTA_MAX,
    ensures
        total.dx == sum_dx(events@),
        total.dy == sum_dy(events@),
        -MOUSE_TOTAL_MAX <= total.dx <= MOUSE_TOTAL_MAX,
        -MOUSE_TOTAL_MAX <= total.dy <= MOUSE_TOTAL_MAX,
{
    let mut dx: i64 = 0;
    let mut dy: i64 = 0;
    let mut i: usize = 0;
    while i < events.len()
        invariant
            i <= events@.len(),
            events@.len() <= MOUSE_EVENTS_MAX,
            forall|j: int|
                0 <= j < events@.len() ==> -MOUSE_DELTA_MAX <= (#[trigger] events@[j]).dx
                    <= MOUSE_DELTA_MAX && -MOUSE_DELTA_MAX <= events@[j].dy <= MOUSE_DELTA_MAX,
            dx == sum_dx(events@.subrange(0, i as int)),
            dy == sum_dy(events@.subrange(0, i as int)),
            -(i as int) * MOUSE_DELTA_MAX <= dx <= (i as int) * MOUSE_DELTA_MAX,
            -(i as int) * MOUSE_DELTA_MAX <= dy <= (i as int) * MOUSE_DELTA_MAX,
        decreases events@.len() - i,
    {
        proof {
            assert(events@.subrange(0, i + 1).drop_last() =~= events@.subrange(0, i as int));
            assert(events@.subrange(0, i + 1).last() == events@[i as int]);
            assert((i as int) * MOUSE_DELTA_MAX + MOUSE_DELTA_MAX == (i + 1) * MOUSE_DELTA_MAX);
            assert((i + 1) * MOUSE_DELTA_MAX <= MOUSE_EVENTS_MAX * MOUSE_DELTA_MAX)
                by (nonlinear_arith)
                requires
                    0 <= i,
                    i + 1 <= MOUSE_EVENTS_MAX,
            ;
        }
        dx = dx + events[i].dx;
        dy = dy + events[i].dy;
        i = i + 1;
    }
    proof {
        assert(events@.subrange(0, events@.len() as int) =~= events@);
        assert((i as int) * MOUSE_DELTA_MAX <= MOUSE_EVENTS_MAX * MOUSE_DELTA_MAX)
            by (nonlinear_arith)
            requires
                0 <= i <= MOUSE_EVENTS_MAX,
        ;
    }
    MouseDelta { dx, dy }
}

} // verus!
