use robot_sim::geometry::axis_step_exec;
use robot_sim::geometry::dist2_exec;
use robot_sim::geometry::isqrt;
use robot_sim::robot::Robot;
use robot_sim::robot::RobotState;

#[test]
fn exploring_step_has_default_speed() {
    let mut r = Robot::new();
    r.state = RobotState::Exploring;
    r.target_position = Some((500, 560));
    r.update_position();
    // distance 6.0 units straight up: one step of 0.8 units along the axis
    assert_eq!(r.position, (500, 508));
    assert_eq!(r.target_position, Some((500, 560)));
    assert_eq!(r.battery_level, 995);
}

#[test]
fn chasing_step_is_faster() {
    let mut r = Robot::new();
    r.state = RobotState::Chasing;
    r.target_position = Some((500, 560));
    r.update_position();
    assert_eq!(r.position, (500, 515));
}

#[test]
fn returning_aims_at_base_not_at_stale_target() {
    let mut r = Robot::new();
    r.state = RobotState::ReturningToBase;
    r.position = (500, 800);
    r.target_position = Some((0, 0)); // stale target must be ignored
    r.update_position();
    assert_eq!(r.position, (500, 788)); // 1.2 units toward the base
    assert_eq!(r.target_position, Some((0, 0)));
}

#[test]
fn returning_near_base_does_not_move() {
    let mut r = Robot::new();
    r.state = RobotState::ReturningToBase;
    r.position = (505, 500);
    r.update_position();
    assert_eq!(r.position, (505, 500));
}

#[test]
fn target_within_one_unit_is_cleared_without_moving() {
    let mut r = Robot::new();
    r.state = RobotState::Exploring;
    r.target_position = Some((510, 500)); // exactly 1.0 unit away
    r.update_position();
    assert_eq!(r.target_position, None);
    assert_eq!(r.position, (500, 500));
}

#[test]
fn target_just_past_one_unit_is_kept_and_approached() {
    let mut r = Robot::new();
    r.state = RobotState::Exploring;
    r.target_position = Some((511, 500));
    r.update_position();
    assert_eq!(r.target_position, Some((511, 500)));
    assert_eq!(r.position, (508, 500));
}

#[test]
fn diagonal_step_is_normalized() {
    let mut r = Robot::new();
    r.state = RobotState::Exploring;
    r.target_position = Some((560, 560));
    r.update_position();
    // distance is 60*sqrt(2) ~ 84.8, so each axis advances 60*8/84 = 5
    assert_eq!(r.position, (505, 505));
}

#[test]
fn isqrt_exact_values() {
    assert_eq!(isqrt(0), 0);
    assert_eq!(isqrt(1), 1);
    assert_eq!(isqrt(3), 1);
    assert_eq!(isqrt(4), 2);
    assert_eq!(isqrt(99), 9);
    assert_eq!(isqrt(100), 10);
    assert_eq!(isqrt(9801), 99);
    assert_eq!(isqrt(10000), 100);
    assert_eq!(isqrt(0xffff_ffff), 65535);
}

#[test]
fn axis_step_exact_values() {
    assert_eq!(axis_step_exec(60, 8, 60), 8);
    assert_eq!(axis_step_exec(-60, 8, 60), -8);
    assert_eq!(axis_step_exec(1, 8, 500), 0);
    assert_eq!(axis_step_exec(0, 8, 10), 0);
    assert_eq!(axis_step_exec(7, 15, 10), 10);
    assert_eq!(axis_step_exec(-7, 15, 10), -10);
}

#[test]
fn dist2_exact_values() {
    assert_eq!(dist2_exec((500, 500), (510, 490)), 200);
    assert_eq!(dist2_exec((0, 0), (1000, 1000)), 2_000_000);
    assert_eq!(dist2_exec((-15, 1015), (-15, 1015)), 0);
}
