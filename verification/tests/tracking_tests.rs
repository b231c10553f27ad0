use tptool::data::{deg, deg_per_s, Angle, AngularSpeed, MountSpeed, Slewing, Target};
use tptool::mount::{Axis, Mount, MountError, MountWrapper, TravelAlarm};
use tptool::tracking::{
    aim_point, axis_speed, AdjustOutcome, Adjustment, Factor, Running, SavePreparation,
    SlewOutcome, TickOutcome, Tracking, TrackingError, TrackingState, MAX_ADJUSTMENT_SPD,
    MIN_ADJUSTMENT_SPD, TIMER_INTERVAL_MS,
};

/// A mount that reports the positions it was given, in order, and records
/// what it was commanded. Commands fail where `fail_commands` is set.
struct LoggingMount {
    positions: Vec<Result<(Angle, Angle), MountError>>,
    next: usize,
    log: std::rc::Rc<std::cell::RefCell<Vec<String>>>,
    fail_commands: bool,
}

impl Mount for LoggingMount {
    fn get_info(&self) -> String {
        "scripted".to_string()
    }

    fn slew(&mut self, axis1: AngularSpeed, axis2: AngularSpeed) -> Result<(), MountError> {
        self.log.borrow_mut().push(format!(
            "slew {} {}",
            axis1.centiarcsec_per_s, axis2.centiarcsec_per_s
        ));
        if self.fail_commands { Err(MountError::Transport) } else { Ok(()) }
    }

    fn slew_axis(&mut self, axis: Axis, speed: AngularSpeed) -> Result<(), MountError> {
        self.log.borrow_mut().push(format!("slew_axis {} {}", axis.name(), speed.centiarcsec_per_s));
        if self.fail_commands { Err(MountError::Transport) } else { Ok(()) }
    }

    fn stop(&mut self) -> Result<(), MountError> {
        self.log.borrow_mut().push("stop".to_string());
        if self.fail_commands { Err(MountError::Transport) } else { Ok(()) }
    }

    fn position(&mut self) -> Result<(Angle, Angle), MountError> {
        self.log.borrow_mut().push("position".to_string());
        let r = self.positions[self.next];
        self.next += 1;
        r
    }
}

type Log = std::rc::Rc<std::cell::RefCell<Vec<String>>>;

fn mount_at(positions: Vec<Result<(Angle, Angle), MountError>>) -> (Option<MountWrapper<LoggingMount>>, Log) {
    let log: Log = Default::default();
    let mount = LoggingMount { positions, next: 0, log: log.clone(), fail_commands: false };
    (Some(MountWrapper::new(mount)), log)
}

fn failing_mount_at(positions: Vec<Result<(Angle, Angle), MountError>>) -> (Option<MountWrapper<LoggingMount>>, Log) {
    let log: Log = Default::default();
    let mount = LoggingMount { positions, next: 0, log: log.clone(), fail_commands: true };
    (Some(MountWrapper::new(mount)), log)
}

fn no_mount() -> Option<MountWrapper<LoggingMount>> {
    None
}

fn pos_at(axis1_deg: i32, axis2_deg: i32) -> Result<(Angle, Angle), MountError> {
    Ok((deg(axis1_deg), deg(axis2_deg)))
}

fn known_speed() -> MountSpeed {
    let mut s = MountSpeed::new();
    s.notify_pos(deg(0), deg(0), 0);
    s.notify_pos(deg(0), deg(0), 250);
    s
}

fn still_target(az: i32, alt: i32) -> Option<Target> {
    Some(Target { azimuth: deg(az), altitude: deg(alt), az_spd: deg_per_s(0), alt_spd: deg_per_s(0) })
}

fn taken(log: &Log) -> Vec<String> {
    log.borrow().clone()
}

#[test]
fn new_engine_is_idle_with_greatest_adjustment_speed() {
    let t = Tracking::new(deg_per_s(5));
    assert!(!t.is_active());
    assert_eq!(t.state(), TrackingState::Idle);
    assert_eq!(t.adjustment(), None);
    assert_eq!(t.adjustment_slew_speed(), AngularSpeed::new(MAX_ADJUSTMENT_SPD));
    assert_eq!(MAX_ADJUSTMENT_SPD, 180_000);
    assert_eq!(MIN_ADJUSTMENT_SPD, 9_000);
    assert_eq!(TIMER_INTERVAL_MS, 500);
}

#[test]
fn start_needs_a_mount() {
    let mut t = Tracking::new(deg_per_s(5));
    assert_eq!(t.start(&no_mount()), None);
    assert!(!t.is_active());
    let (mount, _) = mount_at(vec![]);
    assert_eq!(t.start(&mount), Some(Running(true)));
    assert!(t.is_active());
    assert_eq!(t.state(), TrackingState::Tracking);
}

#[test]
fn stop_clears_adjustment_and_reports_inactive() {
    let (mut mount, _) = mount_at(vec![]);
    let mut t = Tracking::new(deg_per_s(5));
    t.start(&mount);
    t.adjust_slew(0, 0, &mut mount, &still_target(0, 0));
    assert!(t.save_adjustment(Adjustment { rel_dir: deg(10), angle: deg(1) }));
    assert!(t.adjustment().is_some());
    assert_eq!(t.stop(), Running(false));
    assert_eq!(t.state(), TrackingState::Idle);
    assert_eq!(t.adjustment(), None);
}

#[test]
fn one_tick_commands_a_quarter_of_the_error_per_second() {
    // target at azimuth 100°, altitude 10°, at rest; mount at azimuth 90°
    let (mut mount, log) = mount_at(vec![pos_at(90, 10)]);
    let mut t = Tracking::new(deg_per_s(5));
    t.start(&mount);
    let outcome = t.on_timer(&mut mount, &known_speed(), &still_target(100, 10), None);
    match outcome {
        TickOutcome::Commanded { position, axis1, axis1_result, axis2, axis2_result } => {
            assert_eq!(position, (deg(90), deg(10)));
            // Kp * 10° = 2.5°/s
            assert_eq!(axis1, AngularSpeed::new(900_000));
            assert_eq!(axis2, AngularSpeed::new(0));
            assert_eq!(axis1_result, Ok(()));
            assert_eq!(axis2_result, Ok(()));
        }
        other => panic!("unexpected outcome: {:?}", other),
    }
    assert_eq!(outcome.notification(), None);
    assert_eq!(
        taken(&log),
        vec!["position", "slew_axis primary 900000", "slew_axis secondary 0"]
    );
    assert!(t.is_active());
}

#[test]
fn commanded_speed_is_held_to_the_limit() {
    let (mut mount, log) = mount_at(vec![pos_at(90, 80)]);
    let mut t = Tracking::new(deg_per_s(2));
    t.start(&mount);
    t.on_timer(&mut mount, &known_speed(), &still_target(100, 10), None);
    assert_eq!(
        taken(&log),
        vec!["position", "slew_axis primary 720000", "slew_axis secondary -720000"]
    );
}

#[test]
fn axis_speed_formula() {
    // target rate plus a quarter of the error per second
    assert_eq!(axis_speed(deg(10), deg_per_s(0), deg_per_s(5)), AngularSpeed::new(900_000));
    assert_eq!(axis_speed(deg(-10), deg_per_s(1), deg_per_s(5)), AngularSpeed::new(-540_000));
    assert_eq!(axis_speed(deg(4), deg_per_s(1), deg_per_s(5)), deg_per_s(2));
    // rounding is towards zero
    assert_eq!(axis_speed(Angle::new(7), AngularSpeed::new(0), deg_per_s(5)), AngularSpeed::new(1));
    assert_eq!(axis_speed(Angle::new(-7), AngularSpeed::new(0), deg_per_s(5)), AngularSpeed::new(-1));
    // clamping
    assert_eq!(axis_speed(deg(100), deg_per_s(0), deg_per_s(5)), deg_per_s(5));
    assert_eq!(axis_speed(deg(-100), deg_per_s(0), deg_per_s(5)), deg_per_s(-5));
    assert_eq!(axis_speed(deg(0), deg_per_s(9), deg_per_s(5)), deg_per_s(5));
    assert_eq!(
        axis_speed(deg(180), AngularSpeed::new(i64::MAX), AngularSpeed::new(i64::MAX)),
        AngularSpeed::new(i64::MAX)
    );
    assert_eq!(axis_speed(deg(10), deg_per_s(1), deg_per_s(0)), deg_per_s(0));
}

#[test]
fn tick_follows_a_moving_target_across_the_wrap() {
    let (mut mount, log) = mount_at(vec![pos_at(358, 0)]);
    let mut t = Tracking::new(deg_per_s(5));
    t.start(&mount);
    let target = Some(Target {
        azimuth: deg(2),
        altitude: deg(0),
        az_spd: deg_per_s(1),
        alt_spd: deg_per_s(-1),
    });
    t.on_timer(&mut mount, &known_speed(), &target, None);
    assert_eq!(
        taken(&log),
        vec!["position", "slew_axis primary 720000", "slew_axis secondary -360000"]
    );
}

#[test]
fn idle_engine_does_nothing_on_a_tick() {
    let (mut mount, log) = mount_at(vec![pos_at(0, 0)]);
    let mut t = Tracking::new(deg_per_s(5));
    let outcome = t.on_timer(&mut mount, &known_speed(), &still_target(1, 1), None);
    assert!(matches!(outcome, TickOutcome::NotActive));
    assert!(taken(&log).is_empty());
}

#[test]
fn tick_without_mount_stops_tracking() {
    let (mount, _) = mount_at(vec![]);
    let mut t = Tracking::new(deg_per_s(5));
    t.start(&mount);
    let outcome = t.on_timer(&mut no_mount(), &known_speed(), &still_target(1, 1), None);
    assert!(matches!(outcome, TickOutcome::Stopped(TrackingError::MountNotConnected)));
    assert_eq!(outcome.notification(), Some(Running(false)));
    assert!(!t.is_active());
}

#[test]
fn tick_waits_for_the_speed_estimate() {
    let (mut mount, log) = mount_at(vec![pos_at(0, 0)]);
    let mut t = Tracking::new(deg_per_s(5));
    t.start(&mount);
    let mut one_reading = MountSpeed::new();
    one_reading.notify_pos(deg(0), deg(0), 0);
    let outcome = t.on_timer(&mut mount, &one_reading, &still_target(1, 1), None);
    assert!(matches!(outcome, TickOutcome::AwaitingSpeedEstimate));
    assert!(taken(&log).is_empty());
    assert!(t.is_active());
}

#[test]
fn tick_skips_when_position_cannot_be_read() {
    let (mut mount, log) = mount_at(vec![Err(MountError::Transport), pos_at(0, 0)]);
    let mut t = Tracking::new(deg_per_s(5));
    t.start(&mount);
    let outcome = t.on_timer(&mut mount, &known_speed(), &still_target(1, 1), None);
    assert!(matches!(outcome, TickOutcome::PositionUnavailable(MountError::Transport)));
    assert_eq!(taken(&log), vec!["position"]);
    assert!(t.is_active());
    let outcome = t.on_timer(&mut mount, &known_speed(), &still_target(1, 1), None);
    assert!(matches!(outcome, TickOutcome::Commanded { .. }));
}

#[test]
fn tick_without_target_stops_tracking_after_reading_the_position() {
    let (mut mount, log) = mount_at(vec![pos_at(0, 0)]);
    let mut t = Tracking::new(deg_per_s(5));
    t.start(&mount);
    let outcome = t.on_timer(&mut mount, &known_speed(), &None, None);
    assert!(matches!(outcome, TickOutcome::Stopped(TrackingError::NoTarget)));
    assert_eq!(taken(&log), vec!["position"]);
    assert!(!t.is_active());
}

#[test]
fn failed_axis_command_does_not_stop_tracking() {
    let (mut mount, log) = failing_mount_at(vec![pos_at(90, 0), pos_at(90, 0)]);
    let mut t = Tracking::new(deg_per_s(5));
    t.start(&mount);
    let outcome = t.on_timer(&mut mount, &known_speed(), &still_target(100, 10), None);
    match outcome {
        TickOutcome::Commanded { axis1_result, axis2_result, .. } => {
            assert_eq!(axis1_result, Err(MountError::Transport));
            assert_eq!(axis2_result, Err(MountError::Transport));
        }
        other => panic!("unexpected outcome: {:?}", other),
    }
    assert!(t.is_active());
    assert_eq!(
        taken(&log),
        vec!["position", "slew_axis primary 900000", "slew_axis secondary 900000"]
    );
    assert!(matches!(
        t.on_timer(&mut mount, &known_speed(), &still_target(100, 10), None),
        TickOutcome::Commanded { .. }
    ));
}

#[test]
fn tick_that_trips_the_travel_limit_stops_tracking_and_mount() {
    let (mut mount, log) = mount_at(vec![pos_at(0, 0), pos_at(100, 0), pos_at(100, 0)]);
    mount.as_mut().unwrap().set_max_travel(deg(90));
    let mut t = Tracking::new(deg_per_s(5));
    t.start(&mount);
    assert!(matches!(
        t.on_timer(&mut mount, &known_speed(), &still_target(100, 0), None),
        TickOutcome::Commanded { .. }
    ));
    let outcome = t.on_timer(&mut mount, &known_speed(), &still_target(100, 0), None);
    match outcome {
        TickOutcome::TravelExceeded { alarm, mount_stop } => {
            assert_eq!(alarm, TravelAlarm { axis1: true, axis2: false });
            assert_eq!(mount_stop, Ok(()));
        }
        other => panic!("unexpected outcome: {:?}", other),
    }
    assert_eq!(outcome.notification(), Some(Running(false)));
    assert!(!t.is_active());
    assert_eq!(
        taken(&log),
        vec!["position", "slew_axis primary 1800000", "slew_axis secondary 0", "position", "stop"]
    );
    assert_eq!(mount.as_mut().unwrap().take_travel_alarm(), None);
}

#[test]
fn manual_slew_adds_share_of_adjustment_speed_to_target_rate() {
    let (mut mount, log) = mount_at(vec![]);
    let mut t = Tracking::new(deg_per_s(5));
    t.start(&mount);
    let target = Some(Target {
        azimuth: deg(0),
        altitude: deg(0),
        az_spd: AngularSpeed::new(1000),
        alt_spd: AngularSpeed::new(-1000),
    });
    let outcome = t.adjust_slew(1_000_000, -500_000, &mut mount, &target);
    match outcome {
        AdjustOutcome::Slewed { began, axis1, axis2, result } => {
            assert!(began);
            assert_eq!(axis1, AngularSpeed::new(181_000));
            assert_eq!(axis2, AngularSpeed::new(-91_000));
            assert_eq!(result, Ok(()));
        }
        other => panic!("unexpected outcome: {:?}", other),
    }
    assert_eq!(t.state(), TrackingState::Adjusting);
    assert_eq!(taken(&log), vec!["slew 181000 -91000"]);
    let outcome = t.adjust_slew(0, 0, &mut mount, &target);
    assert!(matches!(outcome, AdjustOutcome::Slewed { began: false, .. }));
    assert_eq!(taken(&log), vec!["slew 181000 -91000", "slew 1000 -1000"]);
}

#[test]
fn ticks_do_nothing_while_adjusting() {
    let (mut mount, log) = mount_at(vec![pos_at(0, 0)]);
    let mut t = Tracking::new(deg_per_s(5));
    t.start(&mount);
    t.adjust_slew(0, 0, &mut mount, &still_target(0, 0));
    log.borrow_mut().clear();
    let outcome = t.on_timer(&mut mount, &known_speed(), &still_target(50, 50), None);
    assert!(matches!(outcome, TickOutcome::Adjusting));
    assert!(taken(&log).is_empty());
}

#[test]
fn manual_slew_without_target_stops_tracking() {
    let (mut mount, log) = mount_at(vec![]);
    let mut t = Tracking::new(deg_per_s(5));
    t.start(&mount);
    let outcome = t.adjust_slew(1, 1, &mut mount, &None);
    assert!(matches!(outcome, AdjustOutcome::Stopped(TrackingError::NoTarget)));
    assert!(!t.is_active());
    assert!(taken(&log).is_empty());
}

#[test]
fn manual_slew_without_mount_stops_tracking() {
    let (mount, _) = mount_at(vec![]);
    let mut t = Tracking::new(deg_per_s(5));
    t.start(&mount);
    let outcome = t.adjust_slew(1, 1, &mut no_mount(), &still_target(0, 0));
    assert!(matches!(outcome, AdjustOutcome::Stopped(TrackingError::MountNotConnected)));
    assert!(!t.is_active());
}

#[test]
fn manual_slew_while_idle_does_nothing() {
    let (mut mount, log) = mount_at(vec![]);
    let mut t = Tracking::new(deg_per_s(5));
    let outcome = t.adjust_slew(1, 1, &mut mount, &still_target(0, 0));
    assert!(matches!(outcome, AdjustOutcome::NotActive));
    assert_eq!(t.state(), TrackingState::Idle);
    assert!(taken(&log).is_empty());
}

#[test]
fn saving_an_adjustment_reads_the_position_and_returns_to_tracking() {
    let (mut mount, log) = mount_at(vec![pos_at(11, 21)]);
    let mut t = Tracking::new(deg_per_s(5));
    t.start(&mount);
    let target = still_target(10, 20);
    t.adjust_slew(0, 0, &mut mount, &target);
    log.borrow_mut().clear();
    let prep = t.begin_save_adjustment(&mut mount, &target);
    assert!(matches!(prep, SavePreparation::Ready(p) if p == (deg(11), deg(21))));
    assert_eq!(taken(&log), vec!["position"]);
    assert_eq!(t.state(), TrackingState::Adjusting);
    let adjustment = Adjustment { rel_dir: deg(45), angle: Angle::new(509_117) };
    assert!(t.save_adjustment(adjustment));
    assert_eq!(t.state(), TrackingState::Tracking);
    assert_eq!(t.adjustment(), Some(adjustment));
}

#[test]
fn saving_is_only_meaningful_while_adjusting() {
    let (mut mount, log) = mount_at(vec![pos_at(0, 0)]);
    let mut t = Tracking::new(deg_per_s(5));
    assert!(matches!(
        t.begin_save_adjustment(&mut mount, &still_target(0, 0)),
        SavePreparation::NotAdjusting
    ));
    assert!(!t.save_adjustment(Adjustment { rel_dir: deg(1), angle: deg(1) }));
    t.start(&mount);
    assert!(matches!(
        t.begin_save_adjustment(&mut mount, &still_target(0, 0)),
        SavePreparation::NotAdjusting
    ));
    assert!(!t.save_adjustment(Adjustment { rel_dir: deg(1), angle: deg(1) }));
    assert_eq!(t.adjustment(), None);
    assert_eq!(t.state(), TrackingState::Tracking);
    assert!(taken(&log).is_empty());
}

#[test]
fn saving_without_target_or_position_changes_nothing() {
    let (mut mount, _) = mount_at(vec![Err(MountError::Transport)]);
    let mut t = Tracking::new(deg_per_s(5));
    t.start(&mount);
    t.adjust_slew(0, 0, &mut mount, &still_target(0, 0));
    assert!(matches!(t.begin_save_adjustment(&mut mount, &None), SavePreparation::NoTarget));
    assert_eq!(t.state(), TrackingState::Adjusting);
    assert!(matches!(
        t.begin_save_adjustment(&mut mount, &still_target(0, 0)),
        SavePreparation::PositionUnavailable(MountError::Transport)
    ));
    assert_eq!(t.state(), TrackingState::Adjusting);
    assert!(matches!(
        t.begin_save_adjustment(&mut no_mount(), &still_target(0, 0)),
        SavePreparation::Stopped(TrackingError::MountNotConnected)
    ));
    assert_eq!(t.state(), TrackingState::Idle);
}

#[test]
fn cancel_returns_to_plain_tracking_without_adjustment() {
    let (mut mount, _) = mount_at(vec![]);
    let mut t = Tracking::new(deg_per_s(5));
    t.start(&mount);
    t.adjust_slew(0, 0, &mut mount, &still_target(0, 0));
    t.save_adjustment(Adjustment { rel_dir: deg(1), angle: deg(1) });
    t.adjust_slew(0, 0, &mut mount, &still_target(0, 0));
    assert_eq!(t.state(), TrackingState::Adjusting);
    t.cancel_adjustment();
    assert_eq!(t.state(), TrackingState::Tracking);
    assert_eq!(t.adjustment(), None);
    let mut idle = Tracking::new(deg_per_s(5));
    idle.cancel_adjustment();
    assert_eq!(idle.state(), TrackingState::Idle);
}

#[test]
fn saved_adjustment_moves_the_aim_to_the_adjusted_point() {
    let (mut mount, log) = mount_at(vec![pos_at(90, 10), pos_at(90, 10)]);
    let mut t = Tracking::new(deg_per_s(5));
    t.start(&mount);
    let target = still_target(100, 10);
    t.adjust_slew(0, 0, &mut mount, &target);
    t.save_adjustment(Adjustment { rel_dir: deg(0), angle: deg(2) });
    log.borrow_mut().clear();
    t.on_timer(&mut mount, &known_speed(), &target, Some((deg(102), deg(12))));
    assert_eq!(
        taken(&log),
        vec!["position", "slew_axis primary 1080000", "slew_axis secondary 180000"]
    );
    // without the adjusted point the aim is the target itself
    log.borrow_mut().clear();
    t.on_timer(&mut mount, &known_speed(), &target, None);
    assert_eq!(
        taken(&log),
        vec!["position", "slew_axis primary 900000", "slew_axis secondary 0"]
    );
}

#[test]
fn adjustment_of_no_size_leaves_the_aim_on_the_target() {
    let target = Target { azimuth: deg(100), altitude: deg(10), az_spd: deg_per_s(0), alt_spd: deg_per_s(0) };
    let empty = Some(Adjustment { rel_dir: deg(33), angle: deg(0) });
    assert_eq!(aim_point(&target, empty, Some((deg(1), deg(2)))), (deg(100), deg(10)));
    assert_eq!(aim_point(&target, empty, None), (deg(100), deg(10)));
    let some = Some(Adjustment { rel_dir: deg(33), angle: Angle::new(1) });
    assert_eq!(aim_point(&target, some, Some((deg(1), deg(2)))), (deg(1), deg(2)));
    assert_eq!(aim_point(&target, None, Some((deg(1), deg(2)))), (deg(100), deg(10)));

    let (mut mount, log) = mount_at(vec![pos_at(100, 10), pos_at(100, 10), pos_at(100, 10)]);
    let mut t = Tracking::new(deg_per_s(5));
    t.start(&mount);
    t.adjust_slew(0, 0, &mut mount, &Some(target));
    t.save_adjustment(Adjustment { rel_dir: deg(33), angle: deg(0) });
    log.borrow_mut().clear();
    for _ in 0..3 {
        t.on_timer(&mut mount, &known_speed(), &Some(target), Some((deg(55), deg(66))));
    }
    assert_eq!(
        taken(&log),
        vec![
            "position", "slew_axis primary 0", "slew_axis secondary 0",
            "position", "slew_axis primary 0", "slew_axis secondary 0",
            "position", "slew_axis primary 0", "slew_axis secondary 0",
        ]
    );
}

#[test]
fn adjustment_speed_is_scaled_within_its_bounds() {
    let mut t = Tracking::new(deg_per_s(5));
    let slower = Factor { num: 2, den: 3 };
    let faster = Factor { num: 3, den: 2 };
    t.change_adjustment_slew_speed(faster);
    assert_eq!(t.adjustment_slew_speed(), AngularSpeed::new(180_000));
    t.change_adjustment_slew_speed(slower);
    assert_eq!(t.adjustment_slew_speed(), AngularSpeed::new(120_000));
    t.change_adjustment_slew_speed(slower);
    assert_eq!(t.adjustment_slew_speed(), AngularSpeed::new(80_000));
    t.change_adjustment_slew_speed(faster);
    assert_eq!(t.adjustment_slew_speed(), AngularSpeed::new(120_000));
    for _ in 0..20 {
        t.change_adjustment_slew_speed(slower);
    }
    assert_eq!(t.adjustment_slew_speed(), AngularSpeed::new(9_000));
    t.change_adjustment_slew_speed(Factor { num: 0, den: 1 });
    assert_eq!(t.adjustment_slew_speed(), AngularSpeed::new(9_000));
    t.change_adjustment_slew_speed(Factor { num: u32::MAX, den: 1 });
    assert_eq!(t.adjustment_slew_speed(), AngularSpeed::new(180_000));
}

#[test]
fn slew_speed_change_goes_to_the_adjustment_speed_while_tracking() {
    let (mount, _) = mount_at(vec![]);
    let mut t = Tracking::new(deg_per_s(5));
    let mut slew_speed = deg_per_s(5);
    t.change_slew_speed(Factor { num: 2, den: 3 }, &mut slew_speed);
    assert_eq!(slew_speed, AngularSpeed::new(1_200_000));
    assert_eq!(t.adjustment_slew_speed(), AngularSpeed::new(180_000));
    t.change_slew_speed(Factor { num: 3, den: 2 }, &mut slew_speed);
    assert_eq!(slew_speed, deg_per_s(5));
    t.change_slew_speed(Factor { num: 3, den: 2 }, &mut slew_speed);
    assert_eq!(slew_speed, deg_per_s(5));
    let mut slow = AngularSpeed::new(4_000);
    t.change_slew_speed(Factor { num: 2, den: 3 }, &mut slow);
    assert_eq!(slow, AngularSpeed::new(3_600));
    t.start(&mount);
    t.change_slew_speed(Factor { num: 2, den: 3 }, &mut slew_speed);
    assert_eq!(slew_speed, deg_per_s(5));
    assert_eq!(t.adjustment_slew_speed(), AngularSpeed::new(120_000));
}

#[test]
fn travel_alarm_handler_stops_only_when_an_axis_is_beyond() {
    let (mut mount, log) = mount_at(vec![]);
    let mut t = Tracking::new(deg_per_s(5));
    t.start(&mount);
    let wrapper = mount.as_mut().unwrap();
    assert!(t.on_max_travel_exceeded(wrapper, false, false).is_none());
    assert!(t.is_active());
    assert!(taken(&log).is_empty());
    let stop = t.on_max_travel_exceeded(wrapper, false, true).unwrap();
    assert_eq!(stop.notify, Running(false));
    assert_eq!(stop.mount_stop, Ok(()));
    assert!(!t.is_active());
    assert_eq!(taken(&log), vec!["stop"]);
}

#[test]
fn operator_stop_stops_mount_and_tracking() {
    let (mut mount, log) = mount_at(vec![]);
    let mut t = Tracking::new(deg_per_s(5));
    t.start(&mount);
    let stop = t.on_stop_mount(&mut mount).unwrap();
    assert_eq!(stop.notify, Running(false));
    assert_eq!(stop.mount_stop, Ok(()));
    assert!(!t.is_active());
    assert_eq!(taken(&log), vec!["stop"]);
    assert!(t.on_stop_mount(&mut no_mount()).is_none());
}

#[test]
fn toggle_starts_and_stops() {
    let (mount, _) = mount_at(vec![]);
    let mut t = Tracking::new(deg_per_s(5));
    assert_eq!(t.on_toggle_tracking(&no_mount()), None);
    assert!(!t.is_active());
    assert_eq!(t.on_toggle_tracking(&mount), Some(Running(true)));
    assert!(t.is_active());
    assert_eq!(t.on_toggle_tracking(&mount), Some(Running(false)));
    assert!(!t.is_active());
}

#[test]
fn slew_change_commands_share_of_slew_speed_when_not_tracking() {
    let (mut mount, log) = mount_at(vec![]);
    let mut t = Tracking::new(deg_per_s(5));
    let slewing = Slewing { axis1_rel: 1_000_000, axis2_rel: -250_000 };
    let outcome = t.on_slew_change(slewing, deg_per_s(4), &mut mount, &None);
    match outcome {
        SlewOutcome::Slewed { axis1, axis2, result } => {
            assert_eq!(axis1, deg_per_s(4));
            assert_eq!(axis2, deg_per_s(-1));
            assert_eq!(result, Ok(()));
        }
        other => panic!("unexpected outcome: {:?}", other),
    }
    assert_eq!(taken(&log), vec!["slew 1440000 -360000"]);
    assert!(matches!(
        t.on_slew_change(slewing, deg_per_s(4), &mut no_mount(), &None),
        SlewOutcome::NoMount
    ));
    t.start(&mount);
    let outcome = t.on_slew_change(slewing, deg_per_s(4), &mut mount, &still_target(0, 0));
    assert!(matches!(outcome, SlewOutcome::Adjusted(AdjustOutcome::Slewed { began: true, .. })));
    assert_eq!(taken(&log), vec!["slew 1440000 -360000", "slew 180000 -45000"]);
}

#[test]
fn tracking_errors_in_words() {
    assert_eq!(TrackingError::MountNotConnected.describe(), "mount not connected");
    assert_eq!(TrackingError::NoTarget.describe(), "no target");
}
