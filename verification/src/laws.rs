//! System-wide guarantees of the engine, stated and proved once over the
//! per-operation relations of [`crate::robot`].

use vstd::prelude::*;
use crate::geometry::dist2;
use crate::robot::Robot;
use crate::robot::RobotState;
use crate::robot::state_eval_rel;
use crate::robot::move_rel;
use crate::robot::tick_rel;
use crate::robot::power_on_rel;
use crate::robot::power_off_rel;
use crate::robot::valid_coord;
use crate::robot::FULL_BATTERY;
use crate::robot::LOW_BATTERY;
use crate::robot::BASE_NEAR_DIST2;
use crate::robot::TARGET_NEAR_DIST2;
use crate::robot::RETARGET_AFTER_MS;

verus! {

/// The battery bound is an invariant: after any tick of a robot with a
/// well-formed battery, the battery still lies between empty and full.
pub proof fn lemma_tick_keeps_battery_bounded(pre: Robot, post: Robot, elapsed_ms: u64)
    requires
        pre.battery_level <= FULL_BATTERY,
        tick_rel(pre, post, elapsed_ms),
    ensures
        0 <= post.battery_level <= FULL_BATTERY,
{
    let mid = choose|mid: Robot|
        state_eval_rel(pre.with_elapsed(elapsed_ms), mid) && move_rel(mid, post);
}

/// The forced-return rule: a robot whose battery is low and which is not
/// already returning to base is in `ReturningToBase` after the very next
/// tick, whatever the sensor flags and the elapsed time.
pub proof fn lemma_low_battery_forces_return(pre: Robot, post: Robot, elapsed_ms: u64)
    requires
        pre.battery_level < LOW_BATTERY,
        pre.state != RobotState::ReturningToBase,
        tick_rel(pre, post, elapsed_ms),
    ensures
        post.state == RobotState::ReturningToBase,
{
    let mid = choose|mid: Robot|
        state_eval_rel(pre.with_elapsed(elapsed_ms), mid) && move_rel(mid, post);
}

/// Powering off is idempotent: the first call leaves the robot `Inactive`,
/// and a second call changes nothing at all.
pub proof fn lemma_power_off_idempotent(a: Robot, b: Robot, c: Robot)
    requires
        power_off_rel(a, b),
        power_off_rel(b, c),
    ensures
        b.state == RobotState::Inactive,
        c == b,
{
}

/// Powering on an already active robot is a no-op.
pub proof fn lemma_power_on_active_is_noop(a: Robot, b: Robot)
    requires
        a.state != RobotState::Inactive,
        power_on_rel(a, b),
    ensures
        b == a,
{
}

/// Reachability of exploration: from `Inactive` with a healthy battery,
/// powering on and ticking once with both sensors held false leaves the
/// robot `Exploring`, still headed for the target that power-on assigned —
/// provided the tick stays under the retarget timer and the random target
/// did not land within reach of the robot itself (in which case that tick
/// already clears it).
pub proof fn lemma_power_on_then_tick_explores(a: Robot, b: Robot, c: Robot, elapsed_ms: u64)
    requires
        a.state == RobotState::Inactive,
        a.battery_level >= LOW_BATTERY,
        !a.obstacle_detected,
        !a.target_detected,
        power_on_rel(a, b),
        elapsed_ms <= RETARGET_AFTER_MS,
        (b.target_position matches Some(t) && dist2(b.position, t) > TARGET_NEAR_DIST2),
        tick_rel(b, c, elapsed_ms),
    ensures
        c.state == RobotState::Exploring,
        c.target_position == b.target_position,
        c.target_position matches Some(t) && valid_coord(t),
{
    let mid = choose|mid: Robot|
        state_eval_rel(b.with_elapsed(elapsed_ms), mid) && move_rel(mid, c);
}

/// The boundary into a chase: an exploring robot with a healthy battery
/// that sees the target and no obstacle is `Chasing` after the next tick.
pub proof fn lemma_exploring_sees_target_chases(pre: Robot, post: Robot, elapsed_ms: u64)
    requires
        pre.state == RobotState::Exploring,
        pre.target_detected,
        !pre.obstacle_detected,
        pre.battery_level >= LOW_BATTERY,
        tick_rel(pre, post, elapsed_ms),
    ensures
        post.state == RobotState::Chasing,
{
    let mid = choose|mid: Robot|
        state_eval_rel(pre.with_elapsed(elapsed_ms), mid) && move_rel(mid, post);
}

/// The boundary of a successful return: the state re-evaluation of a robot
/// returning to base, strictly within 10.0 units of it, resets the battery
/// to exactly full and hands over to `Exploring`, whatever the sensors say.
pub proof fn lemma_base_reached_recharges(pre: Robot, post: Robot)
    requires
        pre.state == RobotState::ReturningToBase,
        dist2(pre.position, pre.base_position) < BASE_NEAR_DIST2,
        state_eval_rel(pre, post),
    ensures
        post.battery_level == FULL_BATTERY,
        post.state == RobotState::Exploring,
{
}

} // verus!
