use synscan::motor_controller::motion_mode_bytes;
use synscan::Direction::{Clockwise, CounterClockwise};
use synscan::DriveMode::{Goto, Tracking};
use synscan::{
    number_to_bytes, AutoGuideSpeed, BiChannelValue, Direction, DriveMode, IoError,
    MockSynScanPort, MotorController, MotorParameters, MotorStatus, MultiChannel, SingleChannel,
    SynScanError, SynScanPort,
};

fn parameters() -> MotorParameters {
    MotorParameters {
        counts_per_revolution: BiChannelValue::new(169499, 180),
        timer_interrupt_freq: 1000,
        high_speed_ratio: BiChannelValue::new(16, 2),
    }
}

fn mount_with_parameters() -> MockSynScanPort {
    let mut mock = MockSynScanPort::new();
    mock.add_valid_response(number_to_bytes(169499, 6).as_slice());
    mock.add_valid_response(number_to_bytes(180, 6).as_slice());
    mock.add_valid_response(number_to_bytes(1000, 6).as_slice());
    mock.add_valid_response(number_to_bytes(16, 6).as_slice());
    mock.add_valid_response(number_to_bytes(2, 6).as_slice());
    mock
}

fn same_parameters(a: &MotorParameters, b: &MotorParameters) -> bool {
    SingleChannel::VALUES.iter().all(|c| {
        a.counts_per_revolution[*c] == b.counts_per_revolution[*c]
            && a.high_speed_ratio[*c] == b.high_speed_ratio[*c]
    }) && a.timer_interrupt_freq == b.timer_interrupt_freq
}

#[test]
fn a_new_controller_reads_the_parameters_and_goes_where_told() {
    let mut mc = MotorController::new(mount_with_parameters()).unwrap();
    assert!(same_parameters(mc.get_motor_parameters(), &parameters()));
    assert_eq!(
        mc.port_mut().get_written_bytes().as_slice(),
        b":a1\r:a2\r:b1\r:g1\r:g2\r"
    );
    assert!(!mc.port_mut().check_correct(b'a', SingleChannel::Channel1));

    assert_eq!(mc.set_goto_target_counts(MultiChannel::Both, -1234), Ok(()));
    let mut expected = b":S3".to_vec();
    expected.extend(number_to_bytes(0x800000 - 1234, 6));
    expected.push(b'\r');
    assert_eq!(mc.port_mut().get_written_bytes(), &expected);
    assert_eq!(expected, b":S32EFB7F\r".to_vec());
    assert!(same_parameters(mc.get_motor_parameters(), &parameters()));
}

#[test]
fn the_parameters_are_read_in_order_until_one_fails() {
    let mut mock = MockSynScanPort::new();
    mock.add_valid_response(number_to_bytes(169499, 6).as_slice());
    mock.add_error_response(b'4');
    let mut port = SynScanPort::new(mock);
    assert_eq!(
        port.get_motor_parameters().err(),
        Some(SynScanError::NotInitialized)
    );
    assert_eq!(
        port.into_port().get_written_bytes().as_slice(),
        b":a1\r:a2\r"
    );

    let mut mock = MockSynScanPort::new();
    mock.add_valid_response(number_to_bytes(1, 6).as_slice());
    mock.add_valid_response(number_to_bytes(2, 6).as_slice());
    mock.add_valid_response(number_to_bytes(3, 6).as_slice());
    mock.add_valid_response(number_to_bytes(4, 6).as_slice());
    mock.add_valid_response(b"12345");
    let mut port = SynScanPort::new(mock);
    assert_eq!(
        port.get_motor_parameters().err(),
        Some(SynScanError::CommunicationError(IoError::InvalidData))
    );
    assert_eq!(
        port.into_port().get_written_bytes().as_slice(),
        b":a1\r:a2\r:b1\r:g1\r:g2\r"
    );

    let mut port = SynScanPort::new(MockSynScanPort::new());
    assert_eq!(
        port.get_motor_parameters().err(),
        Some(SynScanError::CommunicationError(IoError::InvalidData))
    );
    assert_eq!(port.into_port().get_written_bytes().as_slice(), b":a1\r");
}

#[test]
fn no_controller_without_parameters() {
    let mut mock = MockSynScanPort::new();
    mock.add_error_response(b'5');
    assert_eq!(
        MotorController::new(mock).err(),
        Some(SynScanError::DriverSleeping)
    );
}

#[test]
fn each_parameter_is_kept_for_its_axis() {
    let mut mock = MockSynScanPort::new();
    mock.add_valid_response(number_to_bytes(11, 6).as_slice());
    mock.add_valid_response(number_to_bytes(22, 6).as_slice());
    mock.add_valid_response(number_to_bytes(33, 6).as_slice());
    mock.add_valid_response(number_to_bytes(44, 6).as_slice());
    mock.add_valid_response(number_to_bytes(55, 6).as_slice());
    let mc = MotorController::new(mock).unwrap();
    let p = mc.get_motor_parameters();
    assert_eq!(p.counts_per_revolution[SingleChannel::Channel1], 11);
    assert_eq!(p.counts_per_revolution[SingleChannel::Channel2], 22);
    assert_eq!(p.timer_interrupt_freq, 33);
    assert_eq!(p.high_speed_ratio[SingleChannel::Channel1], 44);
    assert_eq!(p.high_speed_ratio[SingleChannel::Channel2], 55);
}

#[test]
fn a_count_travels_with_the_middle_of_the_counter_added() {
    for counts in [-0x800000, -1234, -1, 0, 1, 25, 45, 0x7FFFFF] {
        let mut mc = MotorController::from_parts(MockSynScanPort::new(), parameters());
        mc.set_pos(SingleChannel::Channel1, counts).unwrap();
        let written = mc.port_mut().get_written_bytes().clone();
        let wire = (counts + 0x800000) as u32;
        let mut expected = b":E1".to_vec();
        expected.extend(number_to_bytes(wire, 6));
        expected.push(b'\r');
        assert_eq!(written, expected);

        let payload = written[3..9].to_vec();
        mc.port_mut().add_valid_response(&payload);
        assert_eq!(mc.inquire_pos(SingleChannel::Channel1), Ok(counts));
        mc.port_mut().add_valid_response(&payload);
        assert_eq!(mc.inquire_goto_target(SingleChannel::Channel2), Ok(counts));
    }
    let mut mc = MotorController::from_parts(MockSynScanPort::new(), parameters());
    mc.set_pos(MultiChannel::Both, -0x800000).unwrap();
    mc.set_goto_target_counts(MultiChannel::Both, 0x7FFFFF)
        .unwrap();
    assert_eq!(
        mc.into_port().get_written_bytes().as_slice(),
        b":E3000000\r:S3FFFFFF\r"
    );
}

#[test]
fn a_short_count_is_read_from_the_middle_too() {
    let mut mc = MotorController::from_parts(MockSynScanPort::new(), parameters());
    mc.port_mut().add_valid_response(b"01");
    assert_eq!(mc.inquire_pos(SingleChannel::Channel1), Ok(1 - 0x800000));
    mc.port_mut().add_valid_response(b"0");
    assert_eq!(
        mc.inquire_pos(SingleChannel::Channel1),
        Err(SynScanError::CommunicationError(IoError::InvalidData))
    );
    mc.port_mut().add_error_response(b'2');
    assert_eq!(
        mc.inquire_goto_target(SingleChannel::Channel1),
        Err(SynScanError::MotorNotStopped)
    );
}

#[test]
fn a_step_period_keeps_its_low_six_digits() {
    let mut mc = MotorController::from_parts(MockSynScanPort::new(), parameters());
    mc.set_step_period(SingleChannel::Channel1, 0x12345678)
        .unwrap();
    assert_eq!(
        mc.into_port().get_written_bytes().as_slice(),
        b":I1785634\r"
    );
}

#[test]
fn a_status_report_is_three_digits() {
    let invalid = Err(SynScanError::CommunicationError(IoError::InvalidData));
    assert_eq!(MotorStatus::from_bytes(b""), invalid);
    assert_eq!(MotorStatus::from_bytes(b"71"), invalid);
    assert_eq!(MotorStatus::from_bytes(b"7111"), invalid);
    assert_eq!(MotorStatus::from_bytes(b"7a1"), invalid);
    assert_eq!(MotorStatus::from_bytes(b"G11"), invalid);
    assert_eq!(MotorStatus::from_bytes(b"11 "), invalid);
    assert_eq!(MotorStatus::from_bytes(b"x"), invalid);
    assert!(MotorStatus::from_bytes(b"000").is_ok());
    assert!(MotorStatus::from_bytes(b"FFF").is_ok());
}

#[test]
fn each_bit_of_a_status_report_has_its_meaning() {
    let idle = MotorStatus {
        mode: DriveMode::Goto,
        direction: Direction::Clockwise,
        fast: false,
        running: false,
        blocked: false,
        inited: false,
        level_switch: false,
    };
    assert_eq!(MotorStatus::from_bytes(b"000"), Ok(idle));
    assert_eq!(
        MotorStatus::from_bytes(b"100"),
        Ok(MotorStatus {
            mode: DriveMode::Tracking,
            ..idle
        })
    );
    assert_eq!(
        MotorStatus::from_bytes(b"200"),
        Ok(MotorStatus {
            direction: Direction::CounterClockwise,
            ..idle
        })
    );
    assert_eq!(
        MotorStatus::from_bytes(b"400"),
        Ok(MotorStatus { fast: true, ..idle })
    );
    assert_eq!(
        MotorStatus::from_bytes(b"010"),
        Ok(MotorStatus {
            running: true,
            ..idle
        })
    );
    assert_eq!(
        MotorStatus::from_bytes(b"020"),
        Ok(MotorStatus {
            blocked: true,
            ..idle
        })
    );
    assert_eq!(
        MotorStatus::from_bytes(b"001"),
        Ok(MotorStatus {
            inited: true,
            ..idle
        })
    );
    assert_eq!(
        MotorStatus::from_bytes(b"002"),
        Ok(MotorStatus {
            level_switch: true,
            ..idle
        })
    );
    assert_eq!(MotorStatus::from_bytes(b"8CC"), Ok(idle));
    assert_eq!(
        MotorStatus::from_bytes(b"A9E"),
        Ok(MotorStatus {
            direction: Direction::CounterClockwise,
            running: true,
            level_switch: true,
            ..idle
        })
    );
    assert_eq!(
        MotorStatus::from_bytes(b"711"),
        Ok(MotorStatus {
            mode: DriveMode::Tracking,
            direction: Direction::CounterClockwise,
            fast: true,
            running: true,
            blocked: false,
            inited: true,
            level_switch: false,
        })
    );
    assert_eq!(
        MotorStatus::from_bytes(b"023"),
        Ok(MotorStatus {
            mode: DriveMode::Goto,
            direction: Direction::Clockwise,
            fast: false,
            running: false,
            blocked: true,
            inited: true,
            level_switch: true,
        })
    );
}

#[test]
fn a_status_inquiry_passes_failures_on() {
    let mut mc = MotorController::from_parts(MockSynScanPort::new(), parameters());
    assert_eq!(
        mc.inquire_status(SingleChannel::Channel1),
        Err(SynScanError::CommunicationError(IoError::InvalidData))
    );
    mc.port_mut().add_error_response(b'0');
    assert_eq!(
        mc.inquire_status(SingleChannel::Channel1),
        Err(SynScanError::UnknownCommand)
    );
    mc.port_mut().add_valid_response(b"12");
    assert_eq!(
        mc.is_running(SingleChannel::Channel1),
        Err(SynScanError::CommunicationError(IoError::InvalidData))
    );
}

#[test]
fn running_is_read_from_the_status() {
    let mut mc = MotorController::from_parts(MockSynScanPort::new(), parameters());
    mc.port_mut().add_valid_response(b"010");
    mc.port_mut().add_valid_response(b"727");
    assert_eq!(mc.is_running(SingleChannel::Channel1), Ok(true));
    assert_eq!(mc.is_running(SingleChannel::Channel2), Ok(false));
    assert_eq!(
        mc.into_port().get_written_bytes().as_slice(),
        b":f1\r:f2\r"
    );
}

#[test]
fn the_multiplier_is_the_high_speed_ratio_when_fast() {
    let mut mc = MotorController::from_parts(MockSynScanPort::new(), parameters());
    mc.port_mut().add_valid_response(b"400");
    mc.port_mut().add_valid_response(b"400");
    mc.port_mut().add_valid_response(b"300");
    mc.port_mut().add_error_response(b'3');
    assert_eq!(
        mc.determine_motion_rate_multiplier(SingleChannel::Channel1),
        Ok(16)
    );
    assert_eq!(
        mc.determine_motion_rate_multiplier(SingleChannel::Channel2),
        Ok(2)
    );
    assert_eq!(
        mc.determine_motion_rate_multiplier(SingleChannel::Channel1),
        Ok(1)
    );
    assert_eq!(
        mc.determine_motion_rate_multiplier(SingleChannel::Channel1),
        Err(SynScanError::InvalidCharacter)
    );
    assert_eq!(
        mc.into_port().get_written_bytes().as_slice(),
        b":f1\r:f2\r:f1\r:f1\r"
    );
}

#[test]
fn a_motion_mode_is_two_digits() {
    assert_eq!(motion_mode_bytes(Goto, false, Clockwise), b"20".to_vec());
    assert_eq!(motion_mode_bytes(Goto, true, Clockwise), b"00".to_vec());
    assert_eq!(motion_mode_bytes(Tracking, false, Clockwise), b"10".to_vec());
    assert_eq!(motion_mode_bytes(Tracking, true, Clockwise), b"30".to_vec());
    assert_eq!(
        motion_mode_bytes(Goto, false, CounterClockwise),
        b"21".to_vec()
    );
    assert_eq!(
        motion_mode_bytes(Goto, true, CounterClockwise),
        b"01".to_vec()
    );
    assert_eq!(
        motion_mode_bytes(Tracking, false, CounterClockwise),
        b"11".to_vec()
    );
    assert_eq!(
        motion_mode_bytes(Tracking, true, CounterClockwise),
        b"31".to_vec()
    );
}

#[test]
fn goto_and_tracking_modes_are_set_with_one_command() {
    let mut mc = MotorController::from_parts(MockSynScanPort::new(), parameters());
    mc.set_goto_motion_mode(SingleChannel::Channel1, true)
        .unwrap();
    mc.set_goto_motion_mode(MultiChannel::Both, false).unwrap();
    mc.set_tracking_motion_mode(SingleChannel::Channel2, false, Direction::CounterClockwise)
        .unwrap();
    mc.set_tracking_motion_mode(MultiChannel::Both, true, Direction::Clockwise)
        .unwrap();
    assert_eq!(
        mc.into_port().get_written_bytes().as_slice(),
        b":G100\r:G320\r:G211\r:G330\r"
    );
}

#[test]
fn a_command_that_the_mount_refuses_fails_with_its_error() {
    let mut mc = MotorController::from_parts(MockSynScanPort::new(), parameters());
    mc.port_mut().add_error_response(b'2');
    assert_eq!(
        mc.set_goto_motion_mode(SingleChannel::Channel1, true),
        Err(SynScanError::MotorNotStopped)
    );
    mc.port_mut().add_error_response(b'1');
    assert_eq!(
        mc.set_pos(SingleChannel::Channel1, 0),
        Err(SynScanError::CommandLengthError)
    );
    mc.port_mut().add_error_response(b'7');
    assert_eq!(
        mc.start_motion(SingleChannel::Channel1),
        Err(SynScanError::PECTrainingRunning)
    );
    mc.port_mut().add_error_response(b'8');
    assert_eq!(
        mc.set_autoguide_speed(SingleChannel::Channel1, AutoGuideSpeed::Half),
        Err(SynScanError::NoValidPECData)
    );
}

#[test]
fn the_controller_tests_the_connection() {
    let mut mc = MotorController::from_parts(MockSynScanPort::new(), parameters());
    assert_eq!(mc.test(), Ok(()));
    assert!(mc.port_mut().check_correct(b'F', MultiChannel::Both));
    mc.port_mut().add_error_response(b'4');
    assert_eq!(mc.test(), Err(SynScanError::NotInitialized));
}

#[test]
fn each_autoguide_speed_has_its_digit() {
    let mut mc = MotorController::from_parts(MockSynScanPort::new(), parameters());
    mc.set_autoguide_speed(MultiChannel::Both, AutoGuideSpeed::One)
        .unwrap();
    mc.set_autoguide_speed(MultiChannel::Both, AutoGuideSpeed::ThreeQuarters)
        .unwrap();
    mc.set_autoguide_speed(MultiChannel::Both, AutoGuideSpeed::Half)
        .unwrap();
    mc.set_autoguide_speed(MultiChannel::Both, AutoGuideSpeed::Quarter)
        .unwrap();
    mc.set_autoguide_speed(MultiChannel::Both, AutoGuideSpeed::Eighth)
        .unwrap();
    assert_eq!(
        mc.into_port().get_written_bytes().as_slice(),
        b":P30\r:P31\r:P32\r:P33\r:P34\r"
    );
}
