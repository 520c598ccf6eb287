use robot_sim::robot::Robot;
use robot_sim::robot::RobotState;

#[test]
fn initial_configuration() {
    let r = Robot::new();
    assert_eq!(r.state, RobotState::Inactive);
    assert_eq!(r.battery_level, 1000);
    assert_eq!(r.position, (500, 500));
    assert_eq!(r.target_position, None);
    assert_eq!(r.base_position, (500, 500));
    assert_eq!(r.time_in_state_ms, 0);
    assert!(!r.obstacle_detected);
    assert!(!r.target_detected);
}

#[test]
fn power_on_assigns_target_and_explores() {
    let mut r = Robot::new();
    r.power_on();
    assert_eq!(r.state, RobotState::Exploring);
    assert_eq!(r.time_in_state_ms, 0);
    let (tx, ty) = r.target_position.expect("power-on must assign a target");
    assert!((0..=1000).contains(&tx));
    assert!((0..=1000).contains(&ty));
}

#[test]
fn power_on_when_active_is_noop() {
    let mut r = Robot::new();
    r.power_on();
    let before = r;
    r.power_on();
    assert_eq!(r, before);
}

#[test]
fn power_off_repeatedly_stays_inactive() {
    let mut r = Robot::new();
    r.power_on();
    r.power_off();
    assert_eq!(r.state, RobotState::Inactive);
    let after_first = r;
    r.power_off();
    assert_eq!(r.state, RobotState::Inactive);
    assert_eq!(r, after_first);
}

#[test]
fn low_battery_forces_return() {
    let mut r = Robot::new();
    r.power_on();
    r.set_sensors(true, true); // sensors must not matter
    r.battery_level = 150;
    r.position = (100, 100); // far from base
    r.tick(100);
    assert_eq!(r.state, RobotState::ReturningToBase);
}

#[test]
fn battery_at_threshold_does_not_force_return() {
    let mut r = Robot::new();
    r.power_on();
    r.set_sensors(false, false);
    r.battery_level = 200; // the rule is strictly below the threshold
    r.tick(100);
    assert_eq!(r.state, RobotState::Exploring);
}

#[test]
fn exploring_with_target_detected_chases() {
    let mut r = Robot::new();
    r.power_on();
    r.set_sensors(false, true);
    r.tick(100);
    assert_eq!(r.state, RobotState::Chasing);
}

#[test]
fn exploring_with_obstacle_avoids() {
    let mut r = Robot::new();
    r.power_on();
    r.set_sensors(true, false);
    r.tick(100);
    assert_eq!(r.state, RobotState::AvoidingObstacle);
}

#[test]
fn chasing_without_target_goes_back_to_exploring() {
    let mut r = Robot::new();
    r.power_on();
    r.set_sensors(false, true);
    r.tick(100);
    assert_eq!(r.state, RobotState::Chasing);
    r.set_sensors(false, false);
    r.tick(100);
    assert_eq!(r.state, RobotState::Exploring);
}

#[test]
fn state_eval_at_base_recharges_exactly_full() {
    let mut r = Robot::new();
    r.state = RobotState::ReturningToBase;
    r.battery_level = 120;
    // position equals base, so the distance is well under 10.0 units
    r.update_state();
    assert_eq!(r.battery_level, 1000);
    assert_eq!(r.state, RobotState::Exploring);
}

#[test]
fn tick_at_base_recharges_then_pays_tick_cost() {
    let mut r = Robot::new();
    r.set_sensors(false, false);
    r.state = RobotState::ReturningToBase;
    r.battery_level = 120;
    r.tick(100);
    assert_eq!(r.state, RobotState::Exploring);
    assert_eq!(r.battery_level, 995);
}

#[test]
fn return_boundary_is_strict() {
    let mut r = Robot::new();
    r.set_sensors(false, false);
    r.state = RobotState::ReturningToBase;
    r.battery_level = 500;
    r.position = (600, 500); // squared distance exactly 10000: not yet reached
    r.tick(100);
    assert_eq!(r.state, RobotState::ReturningToBase);
    let mut near = Robot::new();
    near.set_sensors(false, false);
    near.state = RobotState::ReturningToBase;
    near.battery_level = 500;
    near.position = (599, 500); // squared distance 9801: reached
    near.tick(100);
    assert_eq!(near.state, RobotState::Exploring);
    assert_eq!(near.battery_level, 995);
}

#[test]
fn battery_floors_at_zero() {
    let mut r = Robot::new();
    r.set_sensors(false, false);
    r.state = RobotState::ReturningToBase;
    r.battery_level = 3;
    r.position = (100, 100); // too far to recharge
    r.tick(100);
    assert_eq!(r.battery_level, 0);
    assert_eq!(r.state, RobotState::ReturningToBase);
    r.tick(100);
    assert_eq!(r.battery_level, 0);
}

#[test]
fn battery_stays_bounded_over_long_run() {
    let mut r = Robot::new();
    r.power_on();
    // no sensor override: the stochastic refresh runs every tick
    for _ in 0..300 {
        let low = r.battery_level < 200 && r.state != RobotState::ReturningToBase;
        r.tick(100);
        assert!(r.battery_level <= 1000);
        if low {
            assert_eq!(r.state, RobotState::ReturningToBase);
        }
    }
}

#[test]
fn reach_target_then_clear_it() {
    let mut r = Robot::new();
    r.power_on();
    r.set_sensors(false, false);
    let mut reached = false;
    for _ in 0..200 {
        r.tick(10); // short ticks: the 5 s retarget timer never fires
        assert_eq!(r.state, RobotState::Exploring);
        if r.target_position.is_none() {
            reached = true;
            break;
        }
    }
    assert!(reached, "the target must be reached well within 200 ticks");
    assert_eq!(r.state, RobotState::Exploring);
}

#[test]
fn retarget_after_five_seconds_idle() {
    let mut r = Robot::new();
    r.power_on();
    r.set_sensors(false, false);
    // reach the current target first, leaving none
    for _ in 0..200 {
        r.tick(10);
        if r.target_position.is_none() {
            break;
        }
    }
    assert!(r.target_position.is_none());
    r.time_in_state_ms = 0;
    r.tick(5000); // exactly at the timer: no retarget yet
    assert!(r.target_position.is_none());
    assert_eq!(r.state, RobotState::Exploring);
    r.tick(1); // now strictly past it
    let (tx, ty) = r.target_position.expect("a new target must be chosen");
    assert!((0..=1000).contains(&tx));
    assert!((0..=1000).contains(&ty));
    assert_eq!(r.time_in_state_ms, 0, "a retarget restarts the state timer");
}

#[test]
fn obstacle_while_chasing_then_back_to_chasing() {
    let mut r = Robot::new();
    r.power_on();
    r.set_sensors(false, true);
    r.tick(100);
    assert_eq!(r.state, RobotState::Chasing);
    r.set_sensors(true, true);
    r.tick(100);
    assert_eq!(r.state, RobotState::AvoidingObstacle);
    r.set_sensors(false, true);
    r.tick(1100); // strictly more than the 1 s minimum avoidance time
    assert_eq!(r.state, RobotState::Chasing);
}

#[test]
fn avoidance_timer_is_strict() {
    let mut r = Robot::new();
    r.power_on();
    r.set_sensors(true, false);
    r.tick(100);
    assert_eq!(r.state, RobotState::AvoidingObstacle);
    r.set_sensors(false, false);
    r.tick(1000); // exactly the minimum: not yet
    assert_eq!(r.state, RobotState::AvoidingObstacle);
    r.tick(1); // strictly past it
    assert_eq!(r.state, RobotState::Exploring);
}

#[test]
fn sensor_override_survives_ticks() {
    let mut r = Robot::new();
    r.power_on();
    r.set_sensors(true, false);
    r.tick(100);
    assert!(r.obstacle_detected);
    assert!(!r.target_detected);
    r.tick(100);
    assert!(r.obstacle_detected);
    assert!(!r.target_detected);
}
