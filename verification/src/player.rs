//! The player: position, facing kept as yaw about the world up axis composed
//! with pitch about the local right axis, and the horizontal velocity command
//! derived from the held direction keys.

use vstd::prelude::*;

use crate::angle::FULL_TURN_URAD;
use crate::geom::Vec3Milli;
use crate::input::{forward_axis, strafe_axis, KeyState};

verus! {

/// The fixed walking speed, in thousandths of a world unit per second.
pub const MOVE_SPEED_MILLI: u64 = 5000;

/// The horizontal velocity command handed to the physics backend. `Still`
/// commands the zero vector. `Move` commands the unit direction of
/// `forward_num * forward + strafe_num * right` — where `forward` and `right`
/// are the horizontal unit vectors of the player's facing — scaled by
/// `MOVE_SPEED_MILLI`. Both commands have no vertical part: the numerators only
/// weigh horizontal basis vectors.
#[derive(Clone, Copy, Debug, PartialEq, Eq, Structural)]
pub enum Velocity {
    Still,
    Move { forward_num: i64, strafe_num: i64 },
}

/// A `Move` command has a direction to point at, and numerators a facing
/// cosine can produce.
pub open spec fn velocity_wf(v: Velocity) -> bool {
    match v {
        Velocity::Still => true,
        Velocity::Move { forward_num, strafe_num } => {
            &&& !(forward_num == 0 && strafe_num == 0)
            &&& -1000 <= forward_num <= 1000
            &&& -1000 <= strafe_num <= 1000
        },
    }
}

/// The speed a command asks of the physics backend, in thousandths.
pub open spec fn speed_milli(v: Velocity) -> int {
    match v {
        Velocity::Still => 0,
        Velocity::Move { .. } => MOVE_SPEED_MILLI as int,
    }
}

/// The velocity commanded by the held keys: the forward axis weighed by the
/// cosine of the player's pitch (the horizontal length of the facing vector)
/// against a full-length right axis, zero when that combination vanishes.
pub open spec fn move_direction(k: KeyState, cos_pitch: int) -> Velocity {
    let f = forward_axis(k) * cos_pitch;
    let s = strafe_axis(k) * 1000;
    if f == 0 && s == 0 {
        Velocity::Still
    } else {
        Velocity::Move { forward_num: f as i64, strafe_num: s as i64 }
    }
}

/// Computes the velocity command for one tick.
pub fn movement_direction(k: &KeyState, cos_pitch: i64) -> (v: Velocity)
    requires
        -1000 <= cos_pitch <= 1000,
    ensures
        v == move_direction(*k, cos_pitch as int),
        velocity_wf(v),
{
    let a: i64 = (if k.forward {
        1
    } else {
        0
    }) - (if k.back {
        1
    } else {
        0
    });
    let b: i64 = (if k.right {
        1
    } else {
        0
    }) - (if k.left {
        1
    } else {
        0
    });
    proof {
        assert(a * cos_pitch == forward_axis(*k) * cos_pitch && -1000 <= a * cos_pitch
            <= 1000) by (nonlinear_arith)
            requires
                a == forward_axis(*k),
                -1 <= a <= 1,
                -1000 <= cos_pitch <= 1000,
        ;
    }
    let f: i64 = a * cos_pitch;
    let s: i64 = b * 1000;
    if f == 0 && s == 0 {
        Velocity::Still
    } else {
        Velocity::Move { forward_num: f, strafe_num: s }
    }
}

/// Key combinations that cancel out — forward with back, left with right —
/// command the zero velocity, whatever the facing.
pub proof fn lemma_cancelling_keys_still(k: KeyState, cos_pitch: int)
    requires
        k.forward == k.back,
        k.left == k.right,
    ensures
        move_direction(k, cos_pitch) == Velocity::Still,
{
    assert(forward_axis(k) == 0);
    assert(strafe_axis(k) == 0);
    assert(forward_axis(k) * cos_pitch == 0) by (nonlinear_arith)
        requires
            forward_axis(k) == 0,
    ;
}

/// A key combination commands a moving velocity exactly when it produces a
/// non-zero horizontal direction — the forward axis weighed by the pitch cosine
/// and the strafe axis do not both vanish — and every such command asks for
/// exactly the fixed walking speed. A command has no vertical part: its
/// numerators only weigh the horizontal forward and right basis vectors.
pub proof fn lemma_moving_speed(k: KeyState, cos_pitch: int)
    requires
        -1000 <= cos_pitch <= 1000,
    ensures
        move_direction(k, cos_pitch) is Move <==> (forward_axis(k) * cos_pitch != 0
            || strafe_axis(k) != 0),
        move_direction(k, cos_pitch) is Move ==> speed_milli(move_direction(k, cos_pitch))
            == MOVE_SPEED_MILLI,
        move_direction(k, cos_pitch) is Still ==> speed_milli(move_direction(k, cos_pitch)) == 0,
{
    assert(-1000 <= forward_axis(k) * cos_pitch <= 1000) by (nonlinear_arith)
        requires
            -1 <= forward_axis(k) <= 1,
            -1000 <= cos_pitch <= 1000,
    ;
}

impl Velocity {
    /// The speed this command asks of the physics backend, in thousandths.
    pub fn commanded_speed_milli(&self) -> (s: u64)
        ensures
            s == speed_milli(*self),
    {
        match self {
            Velocity::Still => 0,
            Velocity::Move { .. } => MOVE_SPEED_MILLI,
        }
    }
}

/// The player: where it stands, how it faces, and its last velocity command.
/// The facing is yaw about the world up axis composed (in that order) with
/// pitch about the already-yawed local right axis, so composing a world-yaw
/// increment and then a local-pitch increment is exactly adding to each angle.
#[derive(Clone, Copy, Debug, PartialEq, Eq, Structural)]
pub struct PlayerState {
    pub position: Vec3Milli,
    pub yaw_urad: u64,
    pub pitch_urad: u64,
    pub velocity: Velocity,
}

impl PlayerState {
    /// In-bounds position, normalized angles, a well-formed velocity command.
    pub open spec fn wf(self) -> bool {
        &&& self.position.wf()
        &&& self.yaw_urad < FULL_TURN_URAD
        &&& self.pitch_urad < FULL_TURN_URAD
        &&& velocity_wf(self.velocity)
    }
}

} // verus!
