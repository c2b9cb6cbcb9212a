//! The fly-camera controller: one step per rendered frame, moving and yawing
//! the camera by speed times elapsed time for each pressed key.

use vstd::prelude::*;

use crate::geometry::Vec3i;
use crate::geometry::lemma_mul_bound;
use crate::geometry::lemma_mul_congruence;
use crate::geometry::lemma_scale_units;

verus! {

/// Translation speed, in half units per time unit per unit of direction.
pub const MOVE_SPEED: i64 = 3;

/// Yaw speed, in angle units per time unit.
pub const ROTATE_SPEED: i64 = 3;

/// The set of controller keys held down during a frame.
///
/// `forward`/`back` move along the camera's horizontal forward direction,
/// `right`/`left` along its right direction, `up`/`down` along its up
/// direction; `yaw_left`/`yaw_right` turn it about the world vertical axis.
#[derive(Clone, Copy, Debug, PartialEq, Eq, Structural)]
pub struct KeyPresses {
    pub forward: bool,
    pub back: bool,
    pub right: bool,
    pub left: bool,
    pub up: bool,
    pub down: bool,
    pub yaw_left: bool,
    pub yaw_right: bool,
}

/// The camera's placement: a position in half units and the accumulated yaw
/// about the world vertical axis, in angle units.
#[derive(Clone, Copy, Debug, PartialEq, Eq, Structural)]
pub struct CameraPose {
    pub translation: Vec3i,
    pub yaw: i64,
}

/// Net contribution of a key pair: `amount` if only the positive key is
/// down, `-amount` if only the negative one, and zero if both or neither
/// are down, since opposing keys cancel exactly.
pub open spec fn key_move(pos: bool, neg: bool, amount: int) -> int {
    (if pos {
        amount
    } else {
        0int
    }) - (if neg {
        amount
    } else {
        0int
    })
}

/// Direction vectors handed to the controller stay within this bound per
/// component.
pub const DIR_LIMIT: i64 = 1_048_576;

/// Elapsed frame times handed to the controller stay within this bound.
pub const TIME_LIMIT: i64 = 1_048_576;

/// Translation components and the yaw stay within this bound, so a frame of
/// movement cannot overflow.
pub const POSE_LIMIT: i64 = 0x1000_0000_0000_0000;

/// Every component of `v` lies within `DIR_LIMIT`.
pub open spec fn dir_in_range(v: Vec3i) -> bool {
    &&& -DIR_LIMIT <= v.x <= DIR_LIMIT
    &&& -DIR_LIMIT <= v.y <= DIR_LIMIT
    &&& -DIR_LIMIT <= v.z <= DIR_LIMIT
}

/// The pose's translation components and yaw lie within `POSE_LIMIT`.
pub open spec fn pose_in_range(p: CameraPose) -> bool {
    &&& -POSE_LIMIT <= p.translation.x <= POSE_LIMIT
    &&& -POSE_LIMIT <= p.translation.y <= POSE_LIMIT
    &&& -POSE_LIMIT <= p.translation.z <= POSE_LIMIT
    &&& -POSE_LIMIT <= p.yaw <= POSE_LIMIT
}

/// The x translation after one frame: each pressed key contributes its
/// direction times `MOVE_SPEED * dt`, opposing keys with opposite signs, and
/// the contributions add, so they are order-insensitive.
pub open spec fn step_x(pose: CameraPose, keys: KeyPresses, dt: i64, fwd: Vec3i, rt: Vec3i, upv: Vec3i) -> int {
    pose.translation.x + key_move(keys.forward, keys.back, fwd.x * (MOVE_SPEED * dt))
        + key_move(keys.right, keys.left, rt.x * (MOVE_SPEED * dt)) + key_move(
        keys.up,
        keys.down,
        upv.x * (MOVE_SPEED * dt),
    )
}

/// The y translation after one frame, as `step_x`.
pub open spec fn step_y(pose: CameraPose, keys: KeyPresses, dt: i64, fwd: Vec3i, rt: Vec3i, upv: Vec3i) -> int {
    pose.translation.y + key_move(keys.forward, keys.back, fwd.y * (MOVE_SPEED * dt))
        + key_move(keys.right, keys.left, rt.y * (MOVE_SPEED * dt)) + key_move(
        keys.up,
        keys.down,
        upv.y * (MOVE_SPEED * dt),
    )
}

/// The z translation after one frame, as `step_x`.
pub open spec fn step_z(pose: CameraPose, keys: KeyPresses, dt: i64, fwd: Vec3i, rt: Vec3i, upv: Vec3i) -> int {
    pose.translation.z + key_move(keys.forward, keys.back, fwd.z * (MOVE_SPEED * dt))
        + key_move(keys.right, keys.left, rt.z * (MOVE_SPEED * dt)) + key_move(
        keys.up,
        keys.down,
        upv.z * (MOVE_SPEED * dt),
    )
}

/// The yaw after one frame: the yaw keys turn the camera about the world
/// vertical axis by `ROTATE_SPEED * dt` angle units, `yaw_left` positive and
/// `yaw_right` negative.
pub open spec fn step_yaw(pose: CameraPose, keys: KeyPresses, dt: i64) -> int {
    pose.yaw + key_move(keys.yaw_left, keys.yaw_right, ROTATE_SPEED * dt)
}

/// Project a direction onto the horizontal plane by dropping its vertical
/// component, as the controller does with the camera's forward direction;
/// the caller rescales the result to the length it needs.
pub fn horizontal(v: Vec3i) -> (r: Vec3i)
    ensures
        r.x == v.x,
        r.y == 0,
        r.z == v.z,
{
    Vec3i { x: v.x, y: 0, z: v.z }
}

/// One frame of fly-camera movement: for each pressed key, translate along
/// the matching direction or yaw about the world vertical axis by speed
/// times elapsed time. The eight checks are independent; the direction
/// vectors `fwd`, `rt` and `upv` are the camera's horizontal forward, right
/// and up directions, which its orientation fixes for the whole frame.
#[verifier::rlimit(80)]
#[verifier::spinoff_prover]
pub fn camera_movement(pose: &mut CameraPose, keys: KeyPresses, dt: i64, fwd: Vec3i, rt: Vec3i, upv: Vec3i)
    requires
        pose_in_range(*old(pose)),
        0 <= dt <= TIME_LIMIT,
        dir_in_range(fwd),
        dir_in_range(rt),
        dir_in_range(upv),
    ensures
        final(pose).translation.x == step_x(*old(pose), keys, dt, fwd, rt, upv),
        final(pose).translation.y == step_y(*old(pose), keys, dt, fwd, rt, upv),
        final(pose).translation.z == step_z(*old(pose), keys, dt, fwd, rt, upv),
        final(pose).yaw == step_yaw(*old(pose), keys, dt),
{
    let step = MOVE_SPEED * dt;
    proof {
        lemma_mul_bound(fwd.x as int, step as int, DIR_LIMIT as int, 3 * TIME_LIMIT as int);
        lemma_mul_bound(fwd.y as int, step as int, DIR_LIMIT as int, 3 * TIME_LIMIT as int);
        lemma_mul_bound(fwd.z as int, step as int, DIR_LIMIT as int, 3 * TIME_LIMIT as int);
        lemma_mul_bound(rt.x as int, step as int, DIR_LIMIT as int, 3 * TIME_LIMIT as int);
        lemma_mul_bound(rt.y as int, step as int, DIR_LIMIT as int, 3 * TIME_LIMIT as int);
        lemma_mul_bound(rt.z as int, step as int, DIR_LIMIT as int, 3 * TIME_LIMIT as int);
        lemma_mul_bound(upv.x as int, step as int, DIR_LIMIT as int, 3 * TIME_LIMIT as int);
        lemma_mul_bound(upv.y as int, step as int, DIR_LIMIT as int, 3 * TIME_LIMIT as int);
        lemma_mul_bound(upv.z as int, step as int, DIR_LIMIT as int, 3 * TIME_LIMIT as int);
        lemma_mul_congruence(fwd.x as int, step as int, (MOVE_SPEED as int) * (dt as int));
        lemma_mul_congruence(fwd.y as int, step as int, (MOVE_SPEED as int) * (dt as int));
        lemma_mul_congruence(fwd.z as int, step as int, (MOVE_SPEED as int) * (dt as int));
        lemma_mul_congruence(rt.x as int, step as int, (MOVE_SPEED as int) * (dt as int));
        lemma_mul_congruence(rt.y as int, step as int, (MOVE_SPEED as int) * (dt as int));
        lemma_mul_congruence(rt.z as int, step as int, (MOVE_SPEED as int) * (dt as int));
        lemma_mul_congruence(upv.x as int, step as int, (MOVE_SPEED as int) * (dt as int));
        lemma_mul_congruence(upv.y as int, step as int, (MOVE_SPEED as int) * (dt as int));
        lemma_mul_congruence(upv.z as int, step as int, (MOVE_SPEED as int) * (dt as int));
    }
    if keys.forward {
        pose.translation.x = pose.translation.x + fwd.x * step;
        pose.translation.y = pose.translation.y + fwd.y * step;
        pose.translation.z = pose.translation.z + fwd.z * step;
    }
    if keys.back {
        pose.translation.x = pose.translation.x - fwd.x * step;
        pose.translation.y = pose.translation.y - fwd.y * step;
        pose.translation.z = pose.translation.z - fwd.z * step;
    }
    if keys.right {
        pose.translation.x = pose.translation.x + rt.x * step;
        pose.translation.y = pose.translation.y + rt.y * step;
        pose.translation.z = pose.translation.z + rt.z * step;
    }
    if keys.left {
        pose.translation.x = pose.translation.x - rt.x * step;
        pose.translation.y = pose.translation.y - rt.y * step;
        pose.translation.z = pose.translation.z - rt.z * step;
    }
    if keys.up {
        pose.translation.x = pose.translation.x + upv.x * step;
        pose.translation.y = pose.translation.y + upv.y * step;
        pose.translation.z = pose.translation.z + upv.z * step;
    }
    if keys.down {
        pose.translation.x = pose.translation.x - upv.x * step;
        pose.translation.y = pose.translation.y - upv.y * step;
        pose.translation.z = pose.translation.z - upv.z * step;
    }
    let turn = ROTATE_SPEED * dt;
    if keys.yaw_left {
        pose.yaw = pose.yaw + turn;
    }
    if keys.yaw_right {
        pose.yaw = pose.yaw - turn;
    }
}

/// With zero elapsed time the controller neither translates nor rotates,
/// whatever keys are down: every contribution is a multiple of the elapsed
/// time.
pub proof fn lemma_zero_dt_no_motion(pose: CameraPose, keys: KeyPresses, fwd: Vec3i, rt: Vec3i, upv: Vec3i)
    ensures
        step_x(pose, keys, 0, fwd, rt, upv) == pose.translation.x,
        step_y(pose, keys, 0, fwd, rt, upv) == pose.translation.y,
        step_z(pose, keys, 0, fwd, rt, upv) == pose.translation.z,
        step_yaw(pose, keys, 0) == pose.yaw,
{
    lemma_scale_units(fwd.x as int);
    lemma_scale_units(fwd.y as int);
    lemma_scale_units(fwd.z as int);
    lemma_scale_units(rt.x as int);
    lemma_scale_units(rt.y as int);
    lemma_scale_units(rt.z as int);
    lemma_scale_units(upv.x as int);
    lemma_scale_units(upv.y as int);
    lemma_scale_units(upv.z as int);
}

/// Keys pressed in opposing pairs cancel exactly: when forward and back are
/// both down or both up, and likewise right with left and up with down, the
/// translation does not change, for any elapsed time and any directions.
pub proof fn lemma_opposed_keys_cancel(pose: CameraPose, keys: KeyPresses, dt: i64, fwd: Vec3i, rt: Vec3i, upv: Vec3i)
    requires
        keys.forward == keys.back,
        keys.right == keys.left,
        keys.up == keys.down,
    ensures
        step_x(pose, keys, dt, fwd, rt, upv) == pose.translation.x,
        step_y(pose, keys, dt, fwd, rt, upv) == pose.translation.y,
        step_z(pose, keys, dt, fwd, rt, upv) == pose.translation.z,
{
}

/// The yaw keys turn the camera about the world vertical axis by exactly
/// `ROTATE_SPEED * dt`: positive while only `yaw_left` is down, the negated
/// amount while only `yaw_right` is down, and not at all while both or
/// neither are down.
pub proof fn lemma_yaw_keys(pose: CameraPose, keys: KeyPresses, dt: i64)
    ensures
        keys.yaw_left && !keys.yaw_right ==> step_yaw(pose, keys, dt) == pose.yaw + ROTATE_SPEED
            * dt,
        keys.yaw_right && !keys.yaw_left ==> step_yaw(pose, keys, dt) == pose.yaw - ROTATE_SPEED
            * dt,
        keys.yaw_left == keys.yaw_right ==> step_yaw(pose, keys, dt) == pose.yaw,
{
}

} // verus!
