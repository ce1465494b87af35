
use dreambo_motor_controller::control::{loop_step, position_after_read, LoopStep};
use dreambo_motor_controller::error::Wait;
use dreambo_motor_controller::labels::motor_label;
use dreambo_motor_controller::layout::{join_family_readings, split_for_families, TorsoValues};
use dreambo_motor_controller::motors::{
    contains_id, motor_name, motor_name_ids, ALL_IDS, ARM_IDS, LEFT_ARM_IDS, NOSE_IDS,
    RIGHT_ARM_IDS,
};
use dreambo_motor_controller::neck::{missing_neck_motors, neck_motor_name_ids, NeckJoint};
use dreambo_motor_controller::pid::{decode_pid_gains, encode_pid_gains, PID_GAIN_ADDR, PID_GAIN_LEN};
use dreambo_motor_controller::presence::{
    classify_missing_motors, missing_after_ping, reboot_outcome, reboot_wait_next, RebootStep,
};
use dreambo_motor_controller::retry::{retry_decision, AttemptOutcome, RetryDecision};
use dreambo_motor_controller::startup::{
    all_voltages_stable, lowest_voltage, startup_next, StartupAction, StartupReport,
    MIN_VOLTAGE_TENTHS,
};
use dreambo_motor_controller::torque::{
    all_torque_enabled, arm_torque_write, nose_torque_write, torque_report_after,
    torque_writes_all, torque_writes_for_ids, ServoFamily, TorqueCommand, TorqueWrite,
};
use dreambo_motor_controller::{split_ids_by_family, MotorError, DEFAULT_CAN_BUS, SERVO_BAUD};

#[test]
fn constants_match_the_hardware() {
    assert_eq!(SERVO_BAUD, 1_000_000);
    assert_eq!(DEFAULT_CAN_BUS, "can0");
    assert_eq!(LEFT_ARM_IDS, [1, 2]);
    assert_eq!(RIGHT_ARM_IDS, [3, 4]);
    assert_eq!(ARM_IDS, [1, 2, 3, 4]);
    assert_eq!(NOSE_IDS, [5, 6, 7]);
    assert_eq!(ALL_IDS, [1, 2, 3, 4, 5, 6, 7]);
    assert_eq!(PID_GAIN_ADDR, 21);
    assert_eq!(PID_GAIN_LEN, 3);
    assert_eq!(MIN_VOLTAGE_TENTHS, 110);
}

#[test]
fn split_keeps_order_and_drops_unknown_ids() {
    let (arms, nose) = split_ids_by_family(&[7, 1, 9, 5, 3, 0, 6]);
    assert_eq!(arms, vec![1, 3]);
    assert_eq!(nose, vec![7, 5, 6]);
}

#[test]
fn split_of_nothing_is_empty() {
    let (arms, nose) = split_ids_by_family(&[]);
    assert!(arms.is_empty());
    assert!(nose.is_empty());
    let (arms, nose) = split_ids_by_family(&[8, 200]);
    assert!(arms.is_empty());
    assert!(nose.is_empty());
}

#[test]
fn split_keeps_duplicates() {
    let (arms, nose) = split_ids_by_family(&[2, 2, 5]);
    assert_eq!(arms, vec![2, 2]);
    assert_eq!(nose, vec![5]);
}

#[test]
fn contains_id_finds_members() {
    assert!(contains_id(&ARM_IDS, 4));
    assert!(!contains_id(&ARM_IDS, 5));
    assert!(!contains_id(&[], 1));
}

#[test]
fn every_servo_has_its_name() {
    let expected = [
        "left_arm_pitch",
        "left_arm_yaw",
        "right_arm_pitch",
        "right_arm_yaw",
        "nose_top",
        "nose_left",
        "nose_right",
    ];
    for (k, id) in ALL_IDS.iter().enumerate() {
        assert_eq!(motor_name(*id).as_deref(), Some(expected[k]));
    }
    assert_eq!(motor_name(0), None);
    assert_eq!(motor_name(8), None);
}

#[test]
fn name_id_pairs_follow_all_ids() {
    let pairs = motor_name_ids();
    assert_eq!(pairs.len(), 7);
    assert_eq!(pairs[0], ("left_arm_pitch".to_string(), 1));
    assert_eq!(pairs[3], ("right_arm_yaw".to_string(), 4));
    assert_eq!(pairs[6], ("nose_right".to_string(), 7));
}

#[test]
fn unknown_ids_get_a_numbered_label() {
    assert_eq!(motor_label(5), "nose_top");
    assert_eq!(motor_label(0), "Unknown(0)");
    assert_eq!(motor_label(9), "Unknown(9)");
    assert_eq!(motor_label(42), "Unknown(42)");
    assert_eq!(motor_label(100), "Unknown(100)");
    assert_eq!(motor_label(255), "Unknown(255)");
}

#[test]
fn ping_round_keeps_silent_ids_in_order() {
    let missing = missing_after_ping(&[1, 2, 3, 4], &[true, false, true, false]);
    assert_eq!(missing, vec![2, 4]);
    assert!(missing_after_ping(&ALL_IDS, &[true; 7]).is_empty());
    assert_eq!(missing_after_ping(&ALL_IDS, &[false; 7]), ALL_IDS.to_vec());
}

#[test]
fn no_missing_motor_is_fine() {
    assert!(classify_missing_motors(&[]).is_ok());
}

#[test]
fn seven_missing_motors_mean_no_power() {
    assert!(matches!(classify_missing_motors(&ALL_IDS), Err(MotorError::NoPowerError())));
}

#[test]
fn some_missing_motors_are_named() {
    match classify_missing_motors(&[2, 9]) {
        Err(MotorError::MissingMotors(names)) => {
            assert_eq!(names, vec!["left_arm_yaw".to_string(), "Unknown(9)".to_string()])
        }
        other => panic!("unexpected {:?}", other),
    }
}

#[test]
fn reboot_succeeds_only_when_all_answered() {
    assert!(reboot_outcome(vec![]).is_ok());
    match reboot_outcome(vec![3, 6]) {
        Err(f) => {
            assert_eq!(f.ids, vec![3, 6]);
            assert_eq!(f.names, vec!["right_arm_pitch".to_string(), "nose_left".to_string()]);
        }
        Ok(()) => panic!("silent servos must fail the reboot"),
    }
}

#[test]
fn reboot_wait_pings_until_done_or_timed_out() {
    match reboot_wait_next(vec![1, 7], false) {
        RebootStep::PingAgain(ids) => assert_eq!(ids, vec![1, 7]),
        RebootStep::Finished(_) => panic!("should keep waiting"),
    }
    assert!(matches!(reboot_wait_next(vec![], false), RebootStep::Finished(Ok(()))));
    match reboot_wait_next(vec![7], true) {
        RebootStep::Finished(Err(f)) => assert_eq!(f.names, vec!["nose_right".to_string()]),
        _ => panic!("should give up"),
    }
}

fn write_parts(w: &TorqueWrite) -> (ServoFamily, Vec<u8>, Vec<bool>) {
    (w.family, w.ids.clone(), w.enables.clone())
}

#[test]
fn torque_on_ids_writes_each_family_once() {
    let writes = torque_writes_for_ids(&[6, 2, 10, 1], true);
    assert_eq!(writes.len(), 2);
    assert_eq!(write_parts(&writes[0]), (ServoFamily::Sm40bl, vec![2, 1], vec![true, true]));
    assert_eq!(write_parts(&writes[1]), (ServoFamily::Sts3025bl, vec![6], vec![true]));
}

#[test]
fn torque_on_nose_only_skips_the_arms() {
    let writes = torque_writes_for_ids(&[5, 7], false);
    assert_eq!(writes.len(), 1);
    assert_eq!(write_parts(&writes[0]), (ServoFamily::Sts3025bl, vec![5, 7], vec![false, false]));
}

#[test]
fn torque_on_unknown_ids_writes_nothing() {
    assert!(torque_writes_for_ids(&[10, 11], true).is_empty());
    assert!(torque_writes_for_ids(&[], false).is_empty());
}

#[test]
fn torque_on_all_ids_is_torque_on_bus() {
    for enable in [true, false] {
        let by_ids: Vec<_> = torque_writes_for_ids(&ALL_IDS, enable).iter().map(write_parts).collect();
        let all: Vec<_> = torque_writes_all(enable).iter().map(write_parts).collect();
        assert_eq!(by_ids, all);
    }
}

#[test]
fn family_writes_cover_their_family() {
    assert_eq!(
        write_parts(&arm_torque_write(true)),
        (ServoFamily::Sm40bl, vec![1, 2, 3, 4], vec![true; 4])
    );
    assert_eq!(
        write_parts(&nose_torque_write(false)),
        (ServoFamily::Sts3025bl, vec![5, 6, 7], vec![false; 3])
    );
}

#[test]
fn torque_is_enabled_only_if_every_flag_is() {
    assert!(all_torque_enabled(&[true; 4], &[true; 3]));
    assert!(!all_torque_enabled(&[true, true, false, true], &[true; 3]));
    assert!(!all_torque_enabled(&[true; 4], &[true, true, false]));
    assert!(all_torque_enabled(&[], &[]));
}

#[test]
fn reported_torque_follows_successful_requests() {
    assert_eq!(torque_report_after(Some(TorqueCommand::Enable), true), Some(true));
    assert_eq!(torque_report_after(Some(TorqueCommand::EnableOnIds), true), Some(true));
    assert_eq!(torque_report_after(Some(TorqueCommand::Disable), true), Some(false));
    assert_eq!(torque_report_after(Some(TorqueCommand::DisableOnIds), true), Some(false));
    assert_eq!(torque_report_after(Some(TorqueCommand::Enable), false), None);
    assert_eq!(torque_report_after(None, true), None);
}

#[test]
fn retry_decisions() {
    assert_eq!(retry_decision(0, 3, AttemptOutcome::Succeeded), RetryDecision::ReturnValue);
    assert_eq!(retry_decision(0, 3, AttemptOutcome::TransientFailure), RetryDecision::RetryAfterDelay);
    assert_eq!(retry_decision(1, 3, AttemptOutcome::TransientFailure), RetryDecision::RetryAfterDelay);
    assert_eq!(retry_decision(2, 3, AttemptOutcome::TransientFailure), RetryDecision::ReturnError);
    assert_eq!(retry_decision(0, 3, AttemptOutcome::OtherFailure), RetryDecision::ReturnError);
    assert_eq!(retry_decision(0, 1, AttemptOutcome::TransientFailure), RetryDecision::ReturnError);
}

fn run_retry(outcomes: &[AttemptOutcome], attempts: u64) -> (u64, bool) {
    let mut attempt = 0;
    loop {
        match retry_decision(attempt, attempts, outcomes[attempt as usize]) {
            RetryDecision::ReturnValue => return (attempt + 1, true),
            RetryDecision::ReturnError => return (attempt + 1, false),
            RetryDecision::RetryAfterDelay => attempt += 1,
        }
    }
}

#[test]
fn retry_runs_stop_at_the_first_success() {
    let t = AttemptOutcome::TransientFailure;
    let s = AttemptOutcome::Succeeded;
    let o = AttemptOutcome::OtherFailure;
    assert_eq!(run_retry(&[t, t, s], 3), (3, true));
    assert_eq!(run_retry(&[t, t, t], 3), (3, false));
    assert_eq!(run_retry(&[t, o, s], 3), (2, false));
    assert_eq!(run_retry(&[s, o], 2), (1, true));
}

#[test]
fn pid_gains_encode_in_register_order() {
    assert_eq!(encode_pid_gains(32, 0, 16), vec![32, 16, 0]);
    assert_eq!(encode_pid_gains(300, 2, 258), vec![44, 2, 2]);
}

#[test]
fn pid_gains_decode_as_p_i_d() {
    assert_eq!(decode_pid_gains(&[10, 20, 30]).unwrap(), (10, 30, 20));
    assert!(matches!(decode_pid_gains(&[1, 2]), Err(MotorError::CommunicationError())));
    assert!(matches!(decode_pid_gains(&[1, 2, 3, 4]), Err(MotorError::CommunicationError())));
}

#[test]
fn pid_round_trip() {
    let (p, i, d) = decode_pid_gains(&encode_pid_gains(32, 7, 513)).unwrap();
    assert_eq!((p, i, d), (32, 7, 1));
    let bytes = [9u8, 8, 7];
    let (p, i, d) = decode_pid_gains(&bytes).unwrap();
    assert_eq!(encode_pid_gains(p, i, d), bytes.to_vec());
}

#[test]
fn neck_joints_by_index() {
    assert_eq!(NeckJoint::from_index(0), Some(NeckJoint::Yaw));
    assert_eq!(NeckJoint::from_index(1), Some(NeckJoint::Pitch));
    assert_eq!(NeckJoint::from_index(2), Some(NeckJoint::Roll));
    assert_eq!(NeckJoint::from_index(3), None);
    assert_eq!(NeckJoint::Roll.index(), 2);
    assert_eq!(NeckJoint::Pitch.name(), "neck_pitch");
    assert_eq!(NeckJoint::Yaw.motor_id(), 1);
    assert_eq!(NeckJoint::Roll.master_id(), 3);
}

#[test]
fn neck_name_ids() {
    assert_eq!(
        neck_motor_name_ids(),
        vec![
            ("neck_yaw".to_string(), 1),
            ("neck_pitch".to_string(), 2),
            ("neck_roll".to_string(), 3)
        ]
    );
}

#[test]
fn silent_neck_motors_are_named() {
    assert!(missing_neck_motors(&[true, true, true]).is_empty());
    assert_eq!(
        missing_neck_motors(&[true, false, false]),
        vec!["neck_pitch".to_string(), "neck_roll".to_string()]
    );
    assert_eq!(missing_neck_motors(&[false, true, true]), vec!["neck_yaw".to_string()]);
}

#[test]
fn voltages() {
    assert!(all_voltages_stable(&[110, 120, 121, 119, 110, 125, 111]));
    assert!(!all_voltages_stable(&[110, 120, 121, 109, 110, 125, 111]));
    assert_eq!(lowest_voltage(&[120, 118, 121, 109, 110, 125, 111]), 109);
    assert_eq!(lowest_voltage(&[0, 118, 121, 109, 110, 125, 3]), 0);
}

#[test]
fn startup_happy_path() {
    let t = Wait::new(30, 0);
    assert!(matches!(startup_next(StartupReport::MotorsPinged(Some(vec![])), t), StartupAction::ReadVoltages));
    assert!(matches!(
        startup_next(StartupReport::VoltagesRead(Some([100; 7]), false), t),
        StartupAction::WaitThenReadVoltages
    ));
    assert!(matches!(
        startup_next(StartupReport::VoltagesRead(Some([120; 7]), false), t),
        StartupAction::RebootMotors
    ));
    assert!(matches!(
        startup_next(StartupReport::VoltagesRead(Some([120; 7]), true), t),
        StartupAction::RebootMotors
    ));
    assert!(matches!(startup_next(StartupReport::MotorsRebooted(true), t), StartupAction::ReadInitialState));
    assert!(matches!(startup_next(StartupReport::InitialStateRead(true), t), StartupAction::StartLoop));
}

#[test]
fn startup_failures() {
    let t = Wait::new(30, 0);
    assert!(matches!(
        startup_next(StartupReport::MotorsPinged(None), t),
        StartupAction::Abort(MotorError::CommunicationError())
    ));
    assert!(matches!(
        startup_next(StartupReport::MotorsPinged(Some(ALL_IDS.to_vec())), t),
        StartupAction::Abort(MotorError::NoPowerError())
    ));
    match startup_next(StartupReport::MotorsPinged(Some(vec![4])), t) {
        StartupAction::Abort(MotorError::MissingMotors(names)) => {
            assert_eq!(names, vec!["right_arm_yaw".to_string()])
        }
        other => panic!("unexpected {:?}", other),
    }
    assert!(matches!(
        startup_next(StartupReport::VoltagesRead(None, false), t),
        StartupAction::Abort(MotorError::CommunicationError())
    ));
    match startup_next(StartupReport::VoltagesRead(Some([120, 50, 120, 120, 90, 120, 120]), true), t) {
        StartupAction::Abort(MotorError::VoltageRampUpTimeoutError(v, d)) => {
            assert_eq!(v, 50);
            assert_eq!((d.secs(), d.subsec_nanos()), (30, 0));
        }
        other => panic!("unexpected {:?}", other),
    }
    assert!(matches!(
        startup_next(StartupReport::MotorsRebooted(false), t),
        StartupAction::Abort(MotorError::CommunicationError())
    ));
    assert!(matches!(
        startup_next(StartupReport::InitialStateRead(false), t),
        StartupAction::Abort(MotorError::CommunicationError())
    ));
}

#[test]
fn torso_layout_round_trips() {
    let values = [1u8, 2, 3, 4, 5, 6, 7];
    let t = TorsoValues::from_all(values);
    assert_eq!(t.left_arm, [1, 2]);
    assert_eq!(t.right_arm, [3, 4]);
    assert_eq!(t.nose, [5, 6, 7]);
    assert_eq!(t.to_all(), values);
    let (arm, nose) = split_for_families(values);
    assert_eq!(arm, [1, 2, 3, 4]);
    assert_eq!(nose, [5, 6, 7]);
    assert_eq!(join_family_readings(&arm, &nose), values);
}

#[test]
fn torso_from_parts_checks_lengths() {
    let t = TorsoValues::from_parts(&[0.1, 0.2], &[0.3, 0.4], &[0.5, 0.6, 0.7]).unwrap();
    assert_eq!(t.to_all(), [0.1, 0.2, 0.3, 0.4, 0.5, 0.6, 0.7]);
    assert!(TorsoValues::from_parts(&[0.1], &[0.3, 0.4], &[0.5, 0.6, 0.7]).is_none());
    assert!(TorsoValues::<f64>::from_parts(&[0.1, 0.2], &[0.3, 0.4], &[0.5, 0.6]).is_none());
}

#[test]
fn joined_readings_take_the_leading_values() {
    assert_eq!(join_family_readings(&[1, 2, 3, 4, 99], &[5, 6, 7, 98]), [1, 2, 3, 4, 5, 6, 7]);
}

#[test]
fn failed_reads_keep_the_last_positions() {
    let last = TorsoValues::from_all([1, 2, 3, 4, 5, 6, 7]);
    let fresh = TorsoValues::from_all([7, 6, 5, 4, 3, 2, 1]);
    assert_eq!(position_after_read(last, Some(fresh)).to_all(), [7, 6, 5, 4, 3, 2, 1]);
    assert_eq!(position_after_read(last, None).to_all(), [1, 2, 3, 4, 5, 6, 7]);
    let mut kept = last;
    for read in [Some(fresh), None, None] {
        kept = position_after_read(kept, read);
    }
    assert_eq!(kept.to_all(), fresh.to_all());
}

#[test]
fn the_loop_drains_its_queue_before_exiting() {
    assert_eq!(loop_step(false, false), LoopStep::Continue);
    assert_eq!(loop_step(false, true), LoopStep::Continue);
    assert_eq!(loop_step(true, false), LoopStep::ServeQueued);
    assert_eq!(loop_step(true, true), LoopStep::Exit);
}

#[test]
fn error_messages() {
    assert_eq!(
        MotorError::MissingMotors(vec!["nose_top".to_string(), "Unknown(9)".to_string()]).message(),
        "Missing motors: [\"nose_top\", \"Unknown(9)\"]!"
    );
    assert_eq!(
        MotorError::CommunicationError().message(),
        "Motor communication error! Check connections and power supply."
    );
    assert_eq!(
        MotorError::NoPowerError().message(),
        "No motors detected. Check if the power supply is connected and turned on!"
    );
    assert_eq!(
        MotorError::VoltageRampUpTimeoutError(105, Wait::new(30, 0)).message(),
        "Voltage did not ramp up to 12V (got 10.5V) within 30s!"
    );
    assert_eq!(
        MotorError::VoltageRampUpTimeoutError(7, Wait::new(1, 500_000_000)).message(),
        "Voltage did not ramp up to 12V (got 0.7V) within 1.5s!"
    );
    assert_eq!(
        MotorError::PortNotFound("/dev/ttyACM0".to_string()).message(),
        "Check if your USB cable is connected. Could not find port: /dev/ttyACM0!"
    );
    assert_eq!(
        MotorError::CouldNotOpenPort("COM3".to_string()).message(),
        "Could not open serial port: COM3! Check permissions and if the port is already in use."
    );
}

#[test]
fn voltage_text_matches_one_decimal_float_rendering() {
    for tenths in 0..=255u8 {
        let text = MotorError::VoltageRampUpTimeoutError(tenths, Wait::new(1, 0)).message();
        let expected = format!(
            "Voltage did not ramp up to 12V (got {:.1}V) within 1s!",
            tenths as f64 / 10.0
        );
        assert_eq!(text, expected);
    }
}

#[test]
fn errors_clone() {
    let e = MotorError::VoltageRampUpTimeoutError(99, Wait::new(2, 7));
    match e.clone() {
        MotorError::VoltageRampUpTimeoutError(v, d) => {
            assert_eq!(v, 99);
            assert_eq!((d.secs(), d.subsec_nanos()), (2, 7));
        }
        other => panic!("unexpected {:?}", other),
    }
}

#[test]
fn waited_time_renders_like_std_duration() {
    for (secs, nanos) in [(0u64, 0u32), (30, 0), (1, 500_000_000), (0, 1_500), (0, 2_000_000), (90, 1)] {
        let text = MotorError::VoltageRampUpTimeoutError(110, Wait::new(secs, nanos)).message();
        let expected = format!(
            "Voltage did not ramp up to 12V (got 11.0V) within {:?}!",
            std::time::Duration::new(secs, nanos)
        );
        assert_eq!(text, expected);
    }
}

#[test]
fn without_a_servo_bus_the_loop_starts_at_once() {
    assert!(matches!(
        startup_next(StartupReport::NoServoBus, Wait::new(30, 0)),
        StartupAction::StartLoop
    ));
}
