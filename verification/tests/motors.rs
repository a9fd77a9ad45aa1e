use synscan::{
    number_to_bytes, AutoGuideSpeed, BiChannelValue, Direction, DriveMode, MockSynScanPort,
    MotorController, MotorParameters, MotorStatus, MultiChannel, SingleChannel,
};

fn motors_get_mc(
    mock: MockSynScanPort,
    params: Option<MotorParameters>,
) -> MotorController<MockSynScanPort> {
    let params = params.unwrap_or(MotorParameters {
        counts_per_revolution: BiChannelValue::new(169499, 180),
        timer_interrupt_freq: 1000,
        high_speed_ratio: BiChannelValue::new(16, 2),
    });
    MotorController::from_parts(mock, params)
}

fn motors_counts_to_degrees(params: &MotorParameters, channel: SingleChannel, counts: f64) -> f64 {
    counts / params.counts_per_revolution[channel] as f64 * 360.
}

fn motors_degrees_to_counts(params: &MotorParameters, channel: SingleChannel, degrees: f64) -> f64 {
    (degrees / 360.) * params.counts_per_revolution[channel] as f64
}

fn motors_step_period_for(
    params: &MotorParameters,
    channel: SingleChannel,
    counts_per_sec: f64,
    fast: bool,
) -> u32 {
    let multiplier = if fast {
        params.high_speed_ratio[channel] as f64
    } else {
        1.
    };
    (multiplier * (params.timer_interrupt_freq as f64 / counts_per_sec)).round() as u32
}

#[test]
fn motors_test_set_pos() {
    let mut mock = MockSynScanPort::new();
    mock.add_valid_response(&[]);
    mock.add_valid_response(&[]);
    let mut mc = motors_get_mc(mock, None);
    mc.set_pos(MultiChannel::Both, -1234).unwrap();
    let counts =
        motors_degrees_to_counts(mc.get_motor_parameters(), SingleChannel::Channel2, 90.).round()
            as i32;
    mc.set_pos(SingleChannel::Channel2, counts).unwrap();
    let mock = mc.into_port();
    let mut correct_bytes = vec![b':', b'E', b'3'];
    correct_bytes.append(&mut number_to_bytes(0x800000 - 1234, 6));
    correct_bytes.append(&mut vec![b'\r', b':', b'E', b'2']);
    correct_bytes.append(&mut number_to_bytes(0x800000 + 45, 6));
    correct_bytes.append(&mut vec![b'\r']);

    assert_eq!(
        mock.get_written_bytes().as_slice(),
        correct_bytes.as_slice()
    );
}

#[test]
fn motors_test_set_motion_mode() {
    let mut mock = MockSynScanPort::new();
    mock.add_valid_response(&[]);
    mock.add_valid_response(&[]);
    let mut mc = motors_get_mc(mock, None);
    mc.set_motion_mode(
        SingleChannel::Channel1,
        DriveMode::Goto,
        true,
        Direction::Clockwise,
    )
    .unwrap();
    mc.set_motion_mode(
        SingleChannel::Channel2,
        DriveMode::Tracking,
        true,
        Direction::CounterClockwise,
    )
    .unwrap();
    let mock = mc.into_port();

    let mut correct_bytes = vec![b':', b'G', b'1', b'0', b'0', b'\r'];
    correct_bytes.append(&mut vec![b':', b'G', b'2', b'3', b'1', b'\r']);

    assert_eq!(
        mock.get_written_bytes().as_slice(),
        correct_bytes.as_slice()
    );
}

#[test]
fn motors_test_set_goto_target() {
    let mut mock = MockSynScanPort::new();
    mock.add_valid_response(&[]);
    mock.add_valid_response(&[]);
    let mut mc = motors_get_mc(mock, None);
    mc.set_goto_target_counts(MultiChannel::Both, -1234).unwrap();
    let counts =
        motors_degrees_to_counts(mc.get_motor_parameters(), SingleChannel::Channel2, 90.).round()
            as i32;
    mc.set_goto_target_counts(SingleChannel::Channel2, counts)
        .unwrap();
    let mock = mc.into_port();
    let mut correct_bytes = vec![b':', b'S', b'3'];
    correct_bytes.append(&mut number_to_bytes(0x800000 - 1234, 6));
    correct_bytes.append(&mut vec![b'\r', b':', b'S', b'2']);
    correct_bytes.append(&mut number_to_bytes(0x800000 + 45, 6));
    correct_bytes.append(&mut vec![b'\r']);

    assert_eq!(
        mock.get_written_bytes().as_slice(),
        correct_bytes.as_slice()
    );
}

#[test]
fn motors_test_set_step_period() {
    let mut mock = MockSynScanPort::new();
    mock.add_valid_response(&[]);
    mock.add_valid_response(&[]);
    mock.add_valid_response(&[]);
    mock.add_valid_response(&[]);
    let mut mc = motors_get_mc(mock, None);
    mc.set_step_period(MultiChannel::Both, 999).unwrap();
    let params = *mc.get_motor_parameters();
    let period = motors_step_period_for(&params, SingleChannel::Channel2, 1., false);
    mc.set_step_period(SingleChannel::Channel2, period).unwrap();
    let period = motors_step_period_for(&params, SingleChannel::Channel2, 2., true);
    mc.set_step_period(SingleChannel::Channel2, period).unwrap();
    let counts_per_sec = motors_degrees_to_counts(&params, SingleChannel::Channel2, 4.);
    let period = motors_step_period_for(&params, SingleChannel::Channel2, counts_per_sec, false);
    mc.set_step_period(SingleChannel::Channel2, period).unwrap();
    let mock = mc.into_port();
    let mut correct_bytes = vec![b':', b'I', b'3'];
    correct_bytes.append(&mut number_to_bytes(999, 6));
    correct_bytes.append(&mut vec![b'\r', b':', b'I', b'2']);
    correct_bytes.append(&mut number_to_bytes(1000, 6));
    correct_bytes.append(&mut vec![b'\r', b':', b'I', b'2']);
    correct_bytes.append(&mut number_to_bytes(1000, 6));
    correct_bytes.append(&mut vec![b'\r', b':', b'I', b'2']);
    correct_bytes.append(&mut number_to_bytes(500, 6));
    correct_bytes.append(&mut vec![b'\r']);

    assert_eq!(
        mock.get_written_bytes().as_slice(),
        correct_bytes.as_slice()
    );
}

#[test]
fn motors_test_start_stop_motion() {
    let mut mock = MockSynScanPort::new();
    mock.add_valid_response(&[]);
    mock.add_valid_response(&[]);
    mock.add_valid_response(&[]);
    let mut mc = motors_get_mc(mock, None);
    mc.start_motion(SingleChannel::Channel1).unwrap();
    mc.stop_motion(MultiChannel::Both).unwrap();
    mc.instant_stop(SingleChannel::Channel2).unwrap();
    let mock = mc.into_port();
    let correct_bytes = vec![
        b':', b'J', b'1', b'\r', b':', b'K', b'3', b'\r', b':', b'L', b'2', b'\r',
    ];
    assert_eq!(
        mock.get_written_bytes().as_slice(),
        correct_bytes.as_slice()
    );
}

#[test]
fn motors_test_set_autoguide_speed() {
    let mut mock = MockSynScanPort::new();
    mock.add_valid_response(&[]);
    let mut mc = motors_get_mc(mock, None);
    mc.set_autoguide_speed(SingleChannel::Channel1, AutoGuideSpeed::ThreeQuarters)
        .unwrap();
    let mock = mc.into_port();
    let correct_bytes = vec![b':', b'P', b'1', b'1', b'\r'];
    assert_eq!(
        mock.get_written_bytes().as_slice(),
        correct_bytes.as_slice()
    );
}

#[test]
fn motors_test_get_goto_target() {
    let mut mock = MockSynScanPort::new();
    mock.add_valid_response(number_to_bytes(0x800000 + 25, 6).as_slice());
    mock.add_valid_response(number_to_bytes(0x800000 - 45, 6).as_slice());
    let mut mc = motors_get_mc(mock, None);
    assert_eq!(mc.inquire_goto_target(SingleChannel::Channel1).unwrap(), 25);
    let counts = mc.inquire_goto_target(SingleChannel::Channel2).unwrap();
    assert_eq!(
        motors_counts_to_degrees(
            mc.get_motor_parameters(),
            SingleChannel::Channel2,
            counts as f64
        ),
        -90.
    );
    let mock = mc.into_port();
    assert_eq!(
        mock.get_written_bytes().as_slice(),
        vec![b':', b'h', b'1', b'\r', b':', b'h', b'2', b'\r'].as_slice()
    );
}

#[test]
fn motors_test_get_step_period() {
    let mut mock = MockSynScanPort::new();
    mock.add_valid_response(number_to_bytes(800, 6).as_slice());
    let mut mc = motors_get_mc(mock, None);
    assert_eq!(
        mc.inquire_step_period(SingleChannel::Channel2).unwrap(),
        800
    );
    let mock = mc.into_port();
    assert_eq!(
        mock.get_written_bytes().as_slice(),
        vec![b':', b'i', b'2', b'\r'].as_slice()
    );
}

#[test]
fn motors_test_get_pos() {
    let mut mock = MockSynScanPort::new();
    mock.add_valid_response(number_to_bytes(0x800000 + 25, 6).as_slice());
    mock.add_valid_response(number_to_bytes(0x800000 - 45, 6).as_slice());
    let mut mc = motors_get_mc(mock, None);
    assert_eq!(mc.inquire_pos(SingleChannel::Channel1).unwrap(), 25);
    let counts = mc.inquire_pos(SingleChannel::Channel2).unwrap();
    assert_eq!(
        motors_counts_to_degrees(
            mc.get_motor_parameters(),
            SingleChannel::Channel2,
            counts as f64
        ),
        -90.
    );
    let mock = mc.into_port();
    assert_eq!(
        mock.get_written_bytes().as_slice(),
        vec![b':', b'j', b'1', b'\r', b':', b'j', b'2', b'\r'].as_slice()
    );
}

#[test]
fn motors_test_get_status() {
    let mut mock = MockSynScanPort::new();
    mock.add_valid_response(&mut vec![b'7', b'1', b'1']);
    mock.add_valid_response(&mut vec![b'0', b'2', b'3']);
    let mut mc = motors_get_mc(mock, None);
    assert_eq!(
        mc.inquire_status(SingleChannel::Channel1).unwrap(),
        MotorStatus {
            mode: DriveMode::Tracking,
            direction: Direction::CounterClockwise,
            fast: true,
            running: true,
            blocked: false,
            inited: true,
            level_switch: false
        }
    );
    assert_eq!(
        mc.inquire_status(SingleChannel::Channel2).unwrap(),
        MotorStatus {
            mode: DriveMode::Goto,
            direction: Direction::Clockwise,
            fast: false,
            running: false,
            blocked: true,
            inited: true,
            level_switch: true
        }
    );
    let mock = mc.into_port();
    assert_eq!(
        mock.get_written_bytes().as_slice(),
        vec![b':', b'f', b'1', b'\r', b':', b'f', b'2', b'\r'].as_slice()
    );
}
