//! The agent simulation engine: a single robot governed by a finite state
//! machine, advanced one tick at a time.
//!
//! Every tick performs, in order, a state re-evaluation ([`Robot::update_state`])
//! and a movement/resource update ([`Robot::update_position`]); the two are
//! composed by [`Robot::tick`]. External commands are [`Robot::power_on`],
//! [`Robot::power_off`] and [`Robot::set_sensors`].

use vstd::prelude::*;
use crate::geometry::dist2;
use crate::geometry::sqrt_floor;
use crate::geometry::axis_step;
use crate::geometry::dist2_exec;
use crate::geometry::isqrt;
use crate::geometry::axis_step_exec;
use crate::random::gen_range_u64;

verus! {

/// The closed set of behaviour states of the robot.
#[derive(Clone, Copy, Debug, PartialEq, Eq, Structural)]
pub enum RobotState {
    Inactive,
    Exploring,
    Chasing,
    AvoidingObstacle,
    ReturningToBase,
}

/// Battery charge of a full battery (100.0 percent).
pub const FULL_BATTERY: u32 = 1000;

/// Battery threshold (20.0 percent) below which the robot is forced home.
pub const LOW_BATTERY: u32 = 200;

/// Battery cost (0.5 percent) of one simulation tick.
pub const TICK_BATTERY_COST: u32 = 5;

/// Largest coordinate (100.0 units) of the world square on each axis.
pub const COORD_MAX: i64 = 1000;

/// Movement speed while chasing (1.5 units per tick).
pub const SPEED_CHASING: u64 = 15;

/// Movement speed while returning to base (1.2 units per tick).
pub const SPEED_RETURNING: u64 = 12;

/// Movement speed in every other state (0.8 units per tick).
pub const SPEED_DEFAULT: u64 = 8;

/// Squared distance (10.0 units, squared) strictly under which the base
/// counts as reached.
pub const BASE_NEAR_DIST2: i64 = 10_000;

/// Squared distance (1.0 unit, squared) at or under which the navigation
/// target counts as reached.
pub const TARGET_NEAR_DIST2: i64 = 100;

/// Time in `Exploring` (5 s) after which a new random target is chosen.
pub const RETARGET_AFTER_MS: u64 = 5000;

/// Minimum time in `AvoidingObstacle` (1 s) before the state may be left.
pub const AVOID_MIN_MS: u64 = 1000;

/// A point whose axes both lie inside the world square.
pub open spec fn valid_coord(p: (i64, i64)) -> bool {
    0 <= p.0 <= COORD_MAX && 0 <= p.1 <= COORD_MAX
}

/// A reachable robot position: inside the world square, up to the largest
/// possible overshoot of one movement step past a goal on the border.
pub open spec fn valid_position(p: (i64, i64)) -> bool {
    -15 <= p.0 <= COORD_MAX + 15 && -15 <= p.1 <= COORD_MAX + 15
}

/// Movement speed of each state, in tenths of a unit per tick.
pub open spec fn speed_of(state: RobotState) -> u64 {
    if state == RobotState::Chasing {
        SPEED_CHASING
    } else if state == RobotState::ReturningToBase {
        SPEED_RETURNING
    } else {
        SPEED_DEFAULT
    }
}

/// One movement step from `pos` toward `goal`: each axis advances by the
/// direction component scaled to `speed` and divided by the straight-line
/// distance (rounded down), so the step never exceeds `speed`.
pub open spec fn step_toward(pos: (i64, i64), goal: (i64, i64), speed: u64) -> (i64, i64) {
    let d = sqrt_floor(dist2(pos, goal) as nat) as int;
    (
        ((pos.0 + axis_step(goal.0 - pos.0, speed as int, d)) as i64),
        ((pos.1 + axis_step(goal.1 - pos.1, speed as int, d)) as i64),
    )
}

/// Battery after the per-tick cost, floored at zero.
pub open spec fn drained(battery: u32) -> u32 {
    if battery >= TICK_BATTERY_COST {
        (battery - TICK_BATTERY_COST) as u32
    } else {
        0
    }
}

/// The simulated agent. The fields are public so that a presentation layer
/// can observe them; the engine's contracts preserve [`Robot::wf`].
#[derive(Clone, Copy, Debug, PartialEq)]
pub struct Robot {
    /// Current behaviour state.
    pub state: RobotState,
    /// Battery charge in tenths of a percent, between 0 and [`FULL_BATTERY`].
    pub battery_level: u32,
    /// Current position, in tenths of a world unit per axis.
    pub position: (i64, i64),
    /// Navigation goal, cleared when reached.
    pub target_position: Option<(i64, i64)>,
    /// Home and charging location, constant for the robot's lifetime.
    pub base_position: (i64, i64),
    /// Time since the current state was entered, in milliseconds.
    pub time_in_state_ms: u64,
    /// Obstacle sensor flag, refreshed each tick unless overridden.
    pub obstacle_detected: bool,
    /// Target sensor flag, refreshed each tick unless overridden.
    pub target_detected: bool,
    /// True once the caller has taken over the sensor flags with
    /// [`Robot::set_sensors`]; stops the stochastic per-tick refresh.
    pub sensor_override: bool,
}

impl Robot {
    /// Well-formedness; established by [`Robot::new`] and preserved by every
    /// engine operation.
    pub open spec fn wf(self) -> bool {
        &&& self.battery_level <= FULL_BATTERY
        &&& valid_position(self.position)
        &&& (self.target_position matches Some(t) ==> valid_coord(t))
        &&& valid_coord(self.base_position)
    }

    /// The freshly created robot: inactive, full battery, at its base in the
    /// middle of the world square.
    pub open spec fn initial() -> Robot {
        Robot {
            state: RobotState::Inactive,
            battery_level: FULL_BATTERY,
            position: (500, 500),
            target_position: None,
            base_position: (500, 500),
            time_in_state_ms: 0,
            obstacle_detected: false,
            target_detected: false,
            sensor_override: false,
        }
    }

    /// The forced-return rule: a low battery sends the robot home from any
    /// state except `ReturningToBase` itself, whatever the sensors say.
    pub open spec fn low_battery_override(self) -> bool {
        self.battery_level < LOW_BATTERY && self.state != RobotState::ReturningToBase
    }

    /// The base counts as reached strictly under 10.0 units away.
    pub open spec fn base_reached(self) -> bool {
        dist2(self.position, self.base_position) < BASE_NEAR_DIST2
    }

    /// Destination of the state re-evaluation: the battery check first, then
    /// the transition table, first match wins. Exactly one transition (or
    /// none) per evaluation.
    pub open spec fn next_state(self) -> RobotState {
        if self.low_battery_override() {
            RobotState::ReturningToBase
        } else {
            match self.state {
                RobotState::Inactive => RobotState::Inactive,
                RobotState::Exploring => if self.target_detected {
                    RobotState::Chasing
                } else if self.obstacle_detected {
                    RobotState::AvoidingObstacle
                } else {
                    RobotState::Exploring
                },
                RobotState::Chasing => if !self.target_detected {
                    RobotState::Exploring
                } else if self.obstacle_detected {
                    RobotState::AvoidingObstacle
                } else {
                    RobotState::Chasing
                },
                RobotState::AvoidingObstacle => if !self.obstacle_detected
                    && self.time_in_state_ms > AVOID_MIN_MS {
                    if self.target_detected {
                        RobotState::Chasing
                    } else {
                        RobotState::Exploring
                    }
                } else {
                    RobotState::AvoidingObstacle
                },
                RobotState::ReturningToBase => if self.base_reached() {
                    RobotState::Exploring
                } else if self.obstacle_detected {
                    RobotState::AvoidingObstacle
                } else {
                    RobotState::ReturningToBase
                },
            }
        }
    }

    /// The timer-driven action inside `Exploring`: after 5 s without a
    /// sensor trigger, a new random target is chosen without a state change.
    pub open spec fn retarget_triggered(self) -> bool {
        &&& !self.low_battery_override()
        &&& self.state == RobotState::Exploring
        &&& !self.target_detected
        &&& !self.obstacle_detected
        &&& self.time_in_state_ms > RETARGET_AFTER_MS
    }

    /// The state timer restarts on every transition and on a retarget.
    pub open spec fn timer_resets(self) -> bool {
        self.next_state() != self.state || self.retarget_triggered()
    }

    /// Battery after the state re-evaluation: recharged in full exactly on a
    /// successful return to base, untouched otherwise.
    pub open spec fn battery_after_eval(self) -> u32 {
        if self.state == RobotState::ReturningToBase && self.base_reached() {
            FULL_BATTERY
        } else {
            self.battery_level
        }
    }

    /// The navigation goal of the movement step: the base whenever the robot
    /// is returning to it, else the stored target.
    pub open spec fn nav_goal(self) -> Option<(i64, i64)> {
        if self.state == RobotState::ReturningToBase {
            Some(self.base_position)
        } else {
            self.target_position
        }
    }

    /// Position after one movement step: toward the goal at the state's
    /// speed while strictly more than 1.0 unit away, else unchanged.
    pub open spec fn moved_position(self) -> (i64, i64) {
        match self.nav_goal() {
            None => self.position,
            Some(g) => if dist2(self.position, g) > TARGET_NEAR_DIST2 {
                step_toward(self.position, g, speed_of(self.state))
            } else {
                self.position
            },
        }
    }

    /// Stored target after one movement step: cleared exactly when it is the
    /// goal and at most 1.0 unit away (the implicit goal while returning to
    /// base is not stored, so nothing is cleared then).
    pub open spec fn target_after_move(self) -> Option<(i64, i64)> {
        if self.state == RobotState::ReturningToBase {
            self.target_position
        } else {
            match self.target_position {
                None => None,
                Some(t) => if dist2(self.position, t) <= TARGET_NEAR_DIST2 {
                    None
                } else {
                    Some(t)
                },
            }
        }
    }

    /// The robot as the state re-evaluation sees it, `elapsed_ms`
    /// milliseconds further into its current state.
    pub open spec fn with_elapsed(self, elapsed_ms: u64) -> Robot {
        Robot { time_in_state_ms: (self.time_in_state_ms + elapsed_ms) as u64, ..self }
    }
}

/// The deterministic part of the state re-evaluation: everything except the
/// fresh random target of a retarget, which this keeps unchanged. Whenever
/// no retarget triggers, this is the whole of the re-evaluation.
pub open spec fn eval_result(pre: Robot) -> Robot {
    Robot {
        state: pre.next_state(),
        battery_level: pre.battery_after_eval(),
        time_in_state_ms: if pre.timer_resets() {
            0u64
        } else {
            pre.time_in_state_ms
        },
        ..pre
    }
}

/// What one state re-evaluation ([`Robot::update_state`]) does. The fresh
/// target of a retarget is random: only its range is promised.
pub open spec fn state_eval_rel(pre: Robot, post: Robot) -> bool {
    &&& post.state == pre.next_state()
    &&& post.battery_level == pre.battery_after_eval()
    &&& post.time_in_state_ms == if pre.timer_resets() {
        0u64
    } else {
        pre.time_in_state_ms
    }
    &&& if pre.retarget_triggered() {
        post.target_position matches Some(t) && valid_coord(t)
    } else {
        post.target_position == pre.target_position
    }
    &&& post.position == pre.position
    &&& post.base_position == pre.base_position
    &&& post.obstacle_detected == pre.obstacle_detected
    &&& post.target_detected == pre.target_detected
    &&& post.sensor_override == pre.sensor_override
}

/// What one movement/resource update ([`Robot::update_position`]) does. When
/// the caller has not overridden the sensors they are redrawn at random, and
/// nothing is promised of the two flags.
pub open spec fn move_rel(pre: Robot, post: Robot) -> bool {
    &&& post.position == pre.moved_position()
    &&& post.target_position == pre.target_after_move()
    &&& post.battery_level == drained(pre.battery_level)
    &&& post.state == pre.state
    &&& post.base_position == pre.base_position
    &&& post.time_in_state_ms == pre.time_in_state_ms
    &&& post.sensor_override == pre.sensor_override
    &&& (pre.sensor_override ==> post.obstacle_detected == pre.obstacle_detected
        && post.target_detected == pre.target_detected)
}

/// What one full tick does: time accrues, the state is re-evaluated, then
/// position, battery and sensors are updated.
pub open spec fn tick_rel(pre: Robot, post: Robot, elapsed_ms: u64) -> bool {
    exists|mid: Robot|
        #[trigger] state_eval_rel(pre.with_elapsed(elapsed_ms), mid) && move_rel(mid, post)
}

/// What [`Robot::power_on`] does: from `Inactive` the robot starts exploring
/// toward a fresh random target; from any other state, nothing.
pub open spec fn power_on_rel(pre: Robot, post: Robot) -> bool {
    if pre.state == RobotState::Inactive {
        &&& post.state == RobotState::Exploring
        &&& post.time_in_state_ms == 0
        &&& (post.target_position matches Some(t) && valid_coord(t))
        &&& post.battery_level == pre.battery_level
        &&& post.position == pre.position
        &&& post.base_position == pre.base_position
        &&& post.obstacle_detected == pre.obstacle_detected
        &&& post.target_detected == pre.target_detected
        &&& post.sensor_override == pre.sensor_override
    } else {
        post == pre
    }
}

/// What [`Robot::power_off`] does: unconditionally back to `Inactive`, with
/// a fresh state timer and everything else untouched.
pub open spec fn power_off_rel(pre: Robot, post: Robot) -> bool {
    &&& post.state == RobotState::Inactive
    &&& post.time_in_state_ms == 0
    &&& post.battery_level == pre.battery_level
    &&& post.position == pre.position
    &&& post.target_position == pre.target_position
    &&& post.base_position == pre.base_position
    &&& post.obstacle_detected == pre.obstacle_detected
    &&& post.target_detected == pre.target_detected
    &&& post.sensor_override == pre.sensor_override
}

impl Robot {
    /// Creates the agent in its initial configuration.
    pub fn new() -> (r: Robot)
        ensures
            r == Robot::initial(),
            r.wf(),
    {
        Robot {
            state: RobotState::Inactive,
            battery_level: FULL_BATTERY,
            position: (500, 500),
            target_position: None,
            base_position: (500, 500),
            time_in_state_ms: 0,
            obstacle_detected: false,
            target_detected: false,
            sensor_override: false,
        }
    }

    /// Switches to `new_state` and restarts the state timer.
    fn transition_to(&mut self, new_state: RobotState)
        ensures
            final(self).state == new_state,
            final(self).time_in_state_ms == 0,
            final(self).battery_level == old(self).battery_level,
            final(self).position == old(self).position,
            final(self).target_position == old(self).target_position,
            final(self).base_position == old(self).base_position,
            final(self).obstacle_detected == old(self).obstacle_detected,
            final(self).target_detected == old(self).target_detected,
            final(self).sensor_override == old(self).sensor_override,
    {
        self.state = new_state;
        self.time_in_state_ms = 0;
    }

    /// Assigns a fresh uniformly random navigation target inside the world
    /// square.
    fn choose_new_direction(&mut self)
        ensures
            (final(self).target_position matches Some(t) && valid_coord(t)),
            final(self).state == old(self).state,
            final(self).battery_level == old(self).battery_level,
            final(self).position == old(self).position,
            final(self).base_position == old(self).base_position,
            final(self).time_in_state_ms == old(self).time_in_state_ms,
            final(self).obstacle_detected == old(self).obstacle_detected,
            final(self).target_detected == old(self).target_detected,
            final(self).sensor_override == old(self).sensor_override,
    {
        let x = gen_range_u64(0, 1001) as i64;
        let y = gen_range_u64(0, 1001) as i64;
        self.target_position = Some((x, y));
    }

    /// Powers the robot on: a no-op unless it is `Inactive`.
    pub fn power_on(&mut self)
        ensures
            power_on_rel(*old(self), *final(self)),
            old(self).wf() ==> final(self).wf(),
    {
        if self.state == RobotState::Inactive {
            self.transition_to(RobotState::Exploring);
            self.choose_new_direction();
        }
    }

    /// Powers the robot off; always legal, from any state.
    pub fn power_off(&mut self)
        ensures
            power_off_rel(*old(self), *final(self)),
            old(self).wf() ==> final(self).wf(),
    {
        self.transition_to(RobotState::Inactive);
    }

    /// Takes over the two sensor flags, effective before the next tick; the
    /// stochastic refresh stays off from here on, as with a manual control
    /// panel.
    pub fn set_sensors(&mut self, obstacle: bool, target: bool)
        ensures
            final(self).obstacle_detected == obstacle,
            final(self).target_detected == target,
            final(self).sensor_override,
            final(self).state == old(self).state,
            final(self).battery_level == old(self).battery_level,
            final(self).position == old(self).position,
            final(self).target_position == old(self).target_position,
            final(self).base_position == old(self).base_position,
            final(self).time_in_state_ms == old(self).time_in_state_ms,
            old(self).wf() ==> final(self).wf(),
    {
        self.obstacle_detected = obstacle;
        self.target_detected = target;
        self.sensor_override = true;
    }

    /// The state re-evaluation step: the global battery check first, then
    /// the transition table; at most one transition per call.
    pub fn update_state(&mut self)
        requires
            old(self).wf(),
        ensures
            final(self).wf(),
            state_eval_rel(*old(self), *final(self)),
    {
        if self.battery_level < LOW_BATTERY && self.state != RobotState::ReturningToBase {
            self.transition_to(RobotState::ReturningToBase);
            return;
        }
        match self.state {
            RobotState::Inactive => {},
            RobotState::Exploring => {
                if self.target_detected {
                    self.transition_to(RobotState::Chasing);
                } else if self.obstacle_detected {
                    self.transition_to(RobotState::AvoidingObstacle);
                } else if self.time_in_state_ms > RETARGET_AFTER_MS {
                    self.choose_new_direction();
                    self.time_in_state_ms = 0;
                }
            },
            RobotState::Chasing => {
                if !self.target_detected {
                    self.transition_to(RobotState::Exploring);
                } else if self.obstacle_detected {
                    self.transition_to(RobotState::AvoidingObstacle);
                }
            },
            RobotState::AvoidingObstacle => {
                if !self.obstacle_detected && self.time_in_state_ms > AVOID_MIN_MS {
                    if self.target_detected {
                        self.transition_to(RobotState::Chasing);
                    } else {
                        self.transition_to(RobotState::Exploring);
                    }
                }
            },
            RobotState::ReturningToBase => {
                let d2 = dist2_exec(self.position, self.base_position);
                if d2 < BASE_NEAR_DIST2 {
                    self.battery_level = FULL_BATTERY;
                    self.transition_to(RobotState::Exploring);
                } else if self.obstacle_detected {
                    self.transition_to(RobotState::AvoidingObstacle);
                }
            },
        }
    }

    /// The movement/resource step: one step toward the navigation goal, the
    /// per-tick battery cost, and — unless the sensors are overridden — a
    /// fresh stochastic draw of both sensor flags.
    pub fn update_position(&mut self)
        requires
            old(self).wf(),
        ensures
            final(self).wf(),
            move_rel(*old(self), *final(self)),
    {
        let goal_opt: Option<(i64, i64)> = if self.state == RobotState::ReturningToBase {
            Some(self.base_position)
        } else {
            self.target_position
        };
        match goal_opt {
            None => {},
            Some(g) => {
                let px = self.position.0;
                let py = self.position.1;
                let d2 = dist2_exec(self.position, g);
                if d2 > TARGET_NEAR_DIST2 {
                    let speed: u64 = if self.state == RobotState::Chasing {
                        SPEED_CHASING
                    } else if self.state == RobotState::ReturningToBase {
                        SPEED_RETURNING
                    } else {
                        SPEED_DEFAULT
                    };
                    let dx = g.0 - px;
                    let dy = g.1 - py;
                    assert(0 <= d2 <= 2_121_800) by (nonlinear_arith)
                        requires
                            d2 == (px - g.0) * (px - g.0) + (py - g.1) * (py - g.1),
                            -15 <= px <= 1015,
                            -15 <= py <= 1015,
                            0 <= g.0 <= 1000,
                            0 <= g.1 <= 1000,
                    ;
                    let d = isqrt(d2 as u64);
                    assert(d2 as u64 == d2);
                    assert(1 <= d <= 1_000_000 && -(d as int) <= dx <= d as int
                        && -(d as int) <= dy <= d as int) by (nonlinear_arith)
                        requires
                            d2 == (px - g.0) * (px - g.0) + (py - g.1) * (py - g.1),
                            dx == g.0 - px,
                            dy == g.1 - py,
                            100 < d2 <= 2_121_800,
                            (d as int) * (d as int) <= d2,
                            d2 < ((d as int) + 1) * ((d as int) + 1),
                            0 <= d,
                    ;
                    let sx = axis_step_exec(dx, speed, d);
                    let sy = axis_step_exec(dy, speed, d);
                    self.position = (px + sx, py + sy);
                    proof {
                        let pre = *old(self);
                        assert(pre.nav_goal() == Some(g));
                        assert(dist2(pre.position, g) == d2);
                        assert(d == sqrt_floor(dist2(pre.position, g) as nat));
                        assert(sx == axis_step(g.0 - pre.position.0, speed as int, d as int));
                        assert(sy == axis_step(g.1 - pre.position.1, speed as int, d as int));
                        assert(speed == speed_of(pre.state));
                        assert(-30 <= px + sx <= COORD_MAX + 30);
                        assert(-30 <= py + sy <= COORD_MAX + 30);
                        assert(self.position == pre.moved_position());
                        assert(valid_position(self.position));
                    }
                } else {
                    if self.state != RobotState::ReturningToBase {
                        self.target_position = None;
                    }
                }
            },
        }
        if self.battery_level >= TICK_BATTERY_COST {
            self.battery_level = self.battery_level - TICK_BATTERY_COST;
        } else {
            self.battery_level = 0;
        }
        if !self.sensor_override {
            let o = gen_range_u64(0, 100);
            let t = gen_range_u64(0, 100);
            self.obstacle_detected = o < 10;
            self.target_detected = t < 15;
        }
    }

    /// One simulation tick: time accrues to the state timer, the state is
    /// re-evaluated, then position, battery and sensors are updated.
    pub fn tick(&mut self, elapsed_ms: u64)
        requires
            old(self).wf(),
            old(self).time_in_state_ms + elapsed_ms <= u64::MAX,
        ensures
            final(self).wf(),
            tick_rel(*old(self), *final(self), elapsed_ms),
            final(self).state == old(self).with_elapsed(elapsed_ms).next_state(),
            final(self).battery_level == drained(
                old(self).with_elapsed(elapsed_ms).battery_after_eval(),
            ),
            final(self).time_in_state_ms == if old(self).with_elapsed(elapsed_ms).timer_resets() {
                0u64
            } else {
                old(self).with_elapsed(elapsed_ms).time_in_state_ms
            },
            final(self).base_position == old(self).base_position,
            final(self).sensor_override == old(self).sensor_override,
            old(self).sensor_override ==> final(self).obstacle_detected == old(
                self,
            ).obstacle_detected && final(self).target_detected == old(self).target_detected,
            !old(self).with_elapsed(elapsed_ms).retarget_triggered() ==> final(self).position
                == eval_result(old(self).with_elapsed(elapsed_ms)).moved_position(),
            !old(self).with_elapsed(elapsed_ms).retarget_triggered() ==> final(self).target_position
                == eval_result(old(self).with_elapsed(elapsed_ms)).target_after_move(),
    {
        self.time_in_state_ms = self.time_in_state_ms + elapsed_ms;
        proof {
            assert(*self == old(self).with_elapsed(elapsed_ms));
        }
        self.update_state();
        let ghost mid = *self;
        self.update_position();
        proof {
            assert(state_eval_rel(old(self).with_elapsed(elapsed_ms), mid));
            assert(move_rel(mid, *self));
            if !old(self).with_elapsed(elapsed_ms).retarget_triggered() {
                assert(mid == eval_result(old(self).with_elapsed(elapsed_ms)));
            }
        }
    }
}

} // verus!
