use lelof1sv3::auth::{
    check_password, AuthAction, AuthEvent, LeloF1sV3Initializer, LELO_F1S_V3_PROTOCOL_ID, MAX_POLLS,
    POLL_INTERVAL_MS, SETTLE_MS,
};
use lelof1sv3::decode::{decode_accelerometer, decode_frame, decode_pressure};
use lelof1sv3::device::{
    endpoint_for_sensor, InputReadPlan, LeloF1sV3, ListenerStep, READ_LENGTH, READ_TIMEOUT_MS,
};
use lelof1sv3::protocol::{DeviceError, Endpoint, InputReading, InputType, InputTypeReading};
use uuid::Uuid;

fn protocol_uuid() -> Uuid {
    Uuid::parse_str("85c59ac5-89ee-4549-8958-ce5449226a5c").unwrap()
}

fn feature() -> Uuid {
    Uuid::from_u128(0x0000fff1_0000_1000_8000_00805f9b34fb)
}

// ---------- decoding ----------

#[test]
fn pressure_is_big_endian_divided_by_100() {
    let data = [0x00, 0x00, 0x00, 0xFF, 0x00, 0x01, 0x86, 0xA0];
    assert_eq!(decode_pressure(&data), Some(1000));
    let data = [0x09, 0x09, 0x09, 0xFF, 0xFF, 0xFF, 0xFF, 0xFF];
    assert_eq!(decode_pressure(&data), Some(42949672));
    let data = [0, 0, 0, 0xFF, 0, 0, 0, 99];
    assert_eq!(decode_pressure(&data), Some(0));
}

#[test]
fn pressure_needs_marker_and_length() {
    assert_eq!(decode_pressure(&[0, 0, 0, 0xFE, 0, 0, 0x27, 0x10]), None);
    assert_eq!(decode_pressure(&[0, 0, 0, 0xFF, 0, 0, 0x27]), None);
    assert_eq!(decode_pressure(&[]), None);
}

#[test]
fn accelerometer_axes_are_signed_big_endian() {
    let data = [0x12, 0x34, 0xFF, 0xFE, 0x80, 0x00];
    assert_eq!(decode_accelerometer(&data), Some((0x1234, -2, -32768)));
    let data = [0x7F, 0xFF, 0x00, 0x00, 0xFF, 0xFF, 0x42];
    assert_eq!(decode_accelerometer(&data), Some((32767, 0, -1)));
    assert_eq!(decode_accelerometer(&[1, 2, 3, 4, 5]), None);
}

#[test]
fn depth_and_button_frames() {
    assert_eq!(decode_frame(InputType::Depth, &[9, 5]), Some(InputTypeReading::Depth(5)));
    assert_eq!(decode_frame(InputType::Depth, &[9]), None);
    assert_eq!(decode_frame(InputType::Button, &[3]), Some(InputTypeReading::Button(3)));
    assert_eq!(decode_frame(InputType::Button, &[]), None);
    assert_eq!(decode_frame(InputType::Battery, &[50]), None);
    assert_eq!(decode_frame(InputType::Rssi, &[1, 2, 3, 4, 5, 6, 7, 8]), None);
}

#[test]
fn trailing_bytes_are_ignored() {
    let short = [0, 0, 0, 0xFF, 0, 0, 0x27, 0x10];
    let long = [0, 0, 0, 0xFF, 0, 0, 0x27, 0x10, 0xAA, 0xBB];
    assert_eq!(decode_frame(InputType::Pressure, &short), decode_frame(InputType::Pressure, &long));
    assert_eq!(decode_frame(InputType::Depth, &[1, 2]), decode_frame(InputType::Depth, &[1, 2, 3]));
}

// ---------- vibration ----------

#[test]
fn vibrate_command_carries_both_speeds() {
    let mut h = LeloF1sV3::new(false);
    let cmds = h.handle_output_vibrate_cmd(0, feature(), 20).unwrap();
    assert_eq!(cmds.len(), 1);
    assert_eq!(cmds[0].data, vec![1, 20, 0]);
    assert_eq!(cmds[0].endpoint, Endpoint::Tx);
    assert_eq!(cmds[0].feature_id, feature());
    assert!(!cmds[0].write_with_response);
    let cmds = h.handle_output_vibrate_cmd(1, feature(), 77).unwrap();
    assert_eq!(cmds[0].data, vec![1, 20, 77]);
    let cmds = h.handle_output_vibrate_cmd(0, feature(), 0).unwrap();
    assert_eq!(cmds[0].data, vec![1, 0, 77]);
}

#[test]
fn vibrate_speed_is_truncated_to_a_byte() {
    let mut h = LeloF1sV3::new(true);
    let cmds = h.handle_output_vibrate_cmd(1, feature(), 300).unwrap();
    assert_eq!(cmds[0].data, vec![1, 0, 44]);
    assert!(cmds[0].write_with_response);
}

#[test]
fn vibrate_same_speed_twice_is_stable() {
    let mut h = LeloF1sV3::new(false);
    let a = h.handle_output_vibrate_cmd(0, feature(), 5).unwrap();
    let b = h.handle_output_vibrate_cmd(0, feature(), 5).unwrap();
    assert_eq!(a[0].data, b[0].data);
}

// ---------- reads ----------

#[test]
fn read_plan_per_sensor() {
    let h = LeloF1sV3::new(false);
    let expect = [
        (InputType::Pressure, Endpoint::RxPressure),
        (InputType::Depth, Endpoint::RxTouch),
        (InputType::Accelerometer, Endpoint::RxAccel),
        (InputType::Button, Endpoint::Generic1),
    ];
    for (sensor, endpoint) in expect {
        match h.handle_input_read_cmd(feature(), sensor) {
            Ok(InputReadPlan::Read(cmd)) => {
                assert_eq!(cmd.endpoint, endpoint);
                assert_eq!(cmd.feature_id, feature());
                assert_eq!(cmd.length, READ_LENGTH);
                assert_eq!(cmd.length, 128);
                assert_eq!(cmd.timeout_ms, READ_TIMEOUT_MS);
                assert_eq!(cmd.timeout_ms, 500);
            }
            other => panic!("unexpected plan {:?}", other),
        }
    }
    assert!(matches!(h.handle_input_read_cmd(feature(), InputType::Battery), Ok(InputReadPlan::BatteryLevel)));
    assert!(matches!(
        h.handle_input_read_cmd(feature(), InputType::Rssi),
        Err(DeviceError::UnsupportedSensor)
    ));
    assert!(matches!(
        h.handle_input_read_cmd(feature(), InputType::Position),
        Err(DeviceError::UnsupportedSensor)
    ));
}

#[test]
fn read_response_decodes_or_reports_each_error() {
    let h = LeloF1sV3::new(false);
    assert_eq!(
        h.handle_input_read_response(4, 2, InputType::Depth, &[0, 6]),
        Ok(InputReading { device_index: 4, feature_index: 2, reading: InputTypeReading::Depth(6) })
    );
    assert_eq!(
        h.handle_input_read_response(1, 1, InputType::Pressure, &[0, 0, 0, 0, 0, 0, 0, 0]),
        Err(DeviceError::InvalidPressureData)
    );
    assert_eq!(
        h.handle_input_read_response(1, 1, InputType::Depth, &[0]),
        Err(DeviceError::InvalidDepthData)
    );
    assert_eq!(
        h.handle_input_read_response(1, 1, InputType::Accelerometer, &[0, 0, 0]),
        Err(DeviceError::InvalidAccelData)
    );
    assert_eq!(
        h.handle_input_read_response(1, 1, InputType::Button, &[]),
        Err(DeviceError::InvalidButtonData)
    );
}

#[test]
fn error_messages() {
    assert_eq!(DeviceError::UnsupportedSensor.message(), "Unsupported sensor type");
    assert!(!DeviceError::UnsupportedSensor.is_protocol_specific());
    assert_eq!(DeviceError::InvalidPressureData.message(), "Invalid pressure data length");
    assert_eq!(DeviceError::InvalidDepthData.message(), "Invalid depth data length");
    assert_eq!(DeviceError::InvalidAccelData.message(), "Invalid accel data length");
    assert_eq!(DeviceError::InvalidButtonData.message(), "Invalid button data length");
    assert_eq!(
        DeviceError::NoPassword.message(),
        "Did not receive a valid password notification within the timeout."
    );
    assert_eq!(
        DeviceError::HandshakeFailed.message(),
        "Handshake failed. Result was not 01. Did you press the power button?"
    );
    assert!(DeviceError::HandshakeFailed.is_protocol_specific());
}

// ---------- subscriptions ----------

#[test]
fn notification_reports_latest_subscribed_feature() {
    let mut h = LeloF1sV3::new(false);
    let plan = h.handle_input_subscribe_cmd(3, feature(), InputType::Depth).unwrap();
    assert_eq!(plan.command.endpoint, Endpoint::RxTouch);
    assert!(plan.start_listener);
    h.mark_input_subscribed(3);
    assert_eq!(
        h.decode_notification(7, Endpoint::RxTouch, &[0, 4]),
        Some(InputReading { device_index: 7, feature_index: 3, reading: InputTypeReading::Depth(4) })
    );
    let plan = h.handle_input_subscribe_cmd(5, feature(), InputType::Depth).unwrap();
    assert!(!plan.start_listener);
    assert_eq!(h.decode_notification(7, Endpoint::RxTouch, &[0, 4]).unwrap().feature_index, 5);
}

#[test]
fn notification_of_unsubscribed_sensor_uses_slot_default() {
    let h = LeloF1sV3::new(false);
    assert_eq!(
        h.decode_notification(0, Endpoint::Generic1, &[2]),
        Some(InputReading { device_index: 0, feature_index: 0, reading: InputTypeReading::Button(2) })
    );
    assert_eq!(h.decode_notification(0, Endpoint::Tx, &[2]), None);
    assert_eq!(h.decode_notification(0, Endpoint::RxPressure, &[0, 0, 0, 1, 0, 0, 0, 0]), None);
}

#[test]
fn read_and_notification_agree() {
    let mut h = LeloF1sV3::new(false);
    let frame = [0x00, 0x10, 0xFF, 0xF0, 0x01, 0x00];
    h.handle_input_subscribe_cmd(2, feature(), InputType::Accelerometer).unwrap();
    let read = h.handle_input_read_response(9, 2, InputType::Accelerometer, &frame).unwrap();
    assert_eq!(h.decode_notification(9, Endpoint::RxAccel, &frame), Some(read));
    assert_eq!(read.reading, InputTypeReading::Accelerometer(16, -16, 256));
}

#[test]
fn subscription_mask_bookkeeping() {
    let mut h = LeloF1sV3::new(false);
    assert!(!h.has_subscriptions());
    h.handle_input_subscribe_cmd(1, feature(), InputType::Pressure).unwrap();
    h.mark_input_subscribed(1);
    assert!(h.has_subscriptions());
    h.handle_input_subscribe_cmd(2, feature(), InputType::Button).unwrap();
    h.mark_input_subscribed(2);
    let cmd = h.handle_input_unsubscribe_cmd(1, feature(), InputType::Pressure).unwrap();
    assert_eq!(cmd.endpoint, Endpoint::RxPressure);
    assert!(h.has_subscriptions());
    h.handle_input_unsubscribe_cmd(2, feature(), InputType::Button).unwrap();
    assert!(!h.has_subscriptions());
}

#[test]
fn unsupported_subscriptions_change_nothing() {
    let mut h = LeloF1sV3::new(false);
    assert!(matches!(
        h.handle_input_subscribe_cmd(1, feature(), InputType::Battery),
        Err(DeviceError::UnsupportedSensor)
    ));
    assert!(h.handle_input_unsubscribe_cmd(200, feature(), InputType::Battery).is_none());
    assert!(!h.has_subscriptions());
    let plan = h.handle_input_subscribe_cmd(1, feature(), InputType::Pressure).unwrap();
    assert!(plan.start_listener);
}

// ---------- authorisation handshake ----------

fn expect_read(a: AuthAction) {
    match a {
        AuthAction::ReadValue { service, endpoint, length, timeout_ms } => {
            assert_eq!(service, LELO_F1S_V3_PROTOCOL_ID);
            assert_eq!(Uuid::from_u128(service), protocol_uuid());
            assert_eq!(endpoint, Endpoint::Whitelist);
            assert_eq!(length, 128);
            assert_eq!(timeout_ms, 500);
        }
        _ => panic!("expected a read"),
    }
}

fn expect_vibrate_with_response(a: AuthAction) {
    match a {
        AuthAction::Authorized(mut h) => {
            let cmds = h.handle_output_vibrate_cmd(0, feature(), 0).unwrap();
            assert!(cmds[0].write_with_response);
            assert_eq!(cmds[0].data, vec![1, 0, 0]);
            assert!(!h.has_subscriptions());
        }
        _ => panic!("expected authorisation"),
    }
}

#[test]
fn already_authorised_device_skips_pairing() {
    let mut init = LeloF1sV3Initializer::default();
    expect_read(init.initialize());
    expect_vibrate_with_response(init.on_event(AuthEvent::ValueRead(vec![0x01, 0, 0, 0, 0, 0, 0, 0])));
}

#[test]
fn password_is_written_back_and_confirmed() {
    let password = vec![0x12, 0x34, 0x56, 0x78, 0x9A, 0xBC, 0xDE, 0xF0];
    let mut init = LeloF1sV3Initializer::default();
    expect_read(init.initialize());
    assert!(matches!(
        init.on_event(AuthEvent::ValueRead(vec![0x00; 8])),
        AuthAction::Subscribe { service: LELO_F1S_V3_PROTOCOL_ID, endpoint: Endpoint::Whitelist }
    ));
    assert!(matches!(init.on_event(AuthEvent::Done), AuthAction::PollNotification));
    // Nothing yet, then an all-zero frame, then a short frame: keep polling.
    assert!(matches!(init.on_event(AuthEvent::Polled(None)), AuthAction::Sleep { ms: 100 }));
    assert!(matches!(init.on_event(AuthEvent::Slept), AuthAction::PollNotification));
    assert!(matches!(
        init.on_event(AuthEvent::Polled(Some(vec![0; 8]))),
        AuthAction::Sleep { ms: POLL_INTERVAL_MS }
    ));
    assert!(matches!(init.on_event(AuthEvent::Slept), AuthAction::PollNotification));
    assert!(matches!(init.on_event(AuthEvent::Polled(Some(vec![1, 2, 3]))), AuthAction::Sleep { .. }));
    assert!(matches!(init.on_event(AuthEvent::Slept), AuthAction::PollNotification));
    assert!(matches!(
        init.on_event(AuthEvent::Polled(Some(password.clone()))),
        AuthAction::Unsubscribe { service: LELO_F1S_V3_PROTOCOL_ID, endpoint: Endpoint::Whitelist }
    ));
    match init.on_event(AuthEvent::Done) {
        AuthAction::WriteValue { service, endpoint, data, write_with_response } => {
            assert_eq!(Uuid::from_u128(service), protocol_uuid());
            assert_eq!(endpoint, Endpoint::Whitelist);
            assert_eq!(data, password);
            assert!(write_with_response);
        }
        _ => panic!("expected the password write"),
    }
    assert!(matches!(init.on_event(AuthEvent::Done), AuthAction::Sleep { ms: SETTLE_MS }));
    expect_read(init.on_event(AuthEvent::Slept));
    expect_vibrate_with_response(init.on_event(AuthEvent::ValueRead(vec![0x01])));
}

#[test]
fn unconfirmed_password_fails_the_handshake() {
    let mut init = LeloF1sV3Initializer::default();
    init.initialize();
    init.on_event(AuthEvent::ValueRead(vec![]));
    init.on_event(AuthEvent::Done);
    init.on_event(AuthEvent::Polled(Some(vec![0, 0, 0, 0, 0, 0, 0, 1])));
    init.on_event(AuthEvent::Done);
    init.on_event(AuthEvent::Done);
    init.on_event(AuthEvent::Slept);
    assert!(matches!(
        init.on_event(AuthEvent::ValueRead(vec![0x02, 0x01])),
        AuthAction::Failed(DeviceError::HandshakeFailed)
    ));
}

#[test]
fn no_password_within_300_polls_times_out() {
    let mut init = LeloF1sV3Initializer::default();
    init.initialize();
    init.on_event(AuthEvent::ValueRead(vec![0x00]));
    let mut action = init.on_event(AuthEvent::Done);
    let mut polls = 0u32;
    loop {
        match action {
            AuthAction::PollNotification => {
                polls += 1;
                assert!(matches!(init.on_event(AuthEvent::Polled(None)), AuthAction::Sleep { ms: 100 }));
                action = init.on_event(AuthEvent::Slept);
            }
            AuthAction::Unsubscribe { service, endpoint } => {
                assert_eq!(service, LELO_F1S_V3_PROTOCOL_ID);
                assert_eq!(endpoint, Endpoint::Whitelist);
                break;
            }
            _ => panic!("unexpected action while waiting"),
        }
    }
    assert_eq!(polls, MAX_POLLS);
    assert_eq!(polls, 300);
    assert!(matches!(init.on_event(AuthEvent::Done), AuthAction::Failed(DeviceError::NoPassword)));
}

#[test]
fn hardware_errors_abort_the_handshake() {
    let mut init = LeloF1sV3Initializer::default();
    init.initialize();
    assert!(matches!(init.on_event(AuthEvent::HardwareError), AuthAction::Abort));

    let mut init = LeloF1sV3Initializer::default();
    init.initialize();
    init.on_event(AuthEvent::ValueRead(vec![]));
    assert!(matches!(init.on_event(AuthEvent::HardwareError), AuthAction::Abort));

    let mut init = LeloF1sV3Initializer::default();
    init.initialize();
    init.on_event(AuthEvent::ValueRead(vec![]));
    init.on_event(AuthEvent::Done);
    init.on_event(AuthEvent::Polled(Some(vec![9; 8])));
    assert!(matches!(init.on_event(AuthEvent::HardwareError), AuthAction::Abort));
}

#[test]
fn password_check() {
    assert!(check_password(&[0, 0, 0, 0, 0, 0, 0, 1]));
    assert!(check_password(&[0xFF; 8]));
    assert!(!check_password(&[0; 8]));
    assert!(!check_password(&[1; 7]));
    assert!(!check_password(&[1; 9]));
}

#[test]
fn each_sensor_has_its_own_endpoint() {
    assert_eq!(endpoint_for_sensor(InputType::Pressure), Some(Endpoint::RxPressure));
    assert_eq!(endpoint_for_sensor(InputType::Depth), Some(Endpoint::RxTouch));
    assert_eq!(endpoint_for_sensor(InputType::Accelerometer), Some(Endpoint::RxAccel));
    assert_eq!(endpoint_for_sensor(InputType::Button), Some(Endpoint::Generic1));
    assert_eq!(endpoint_for_sensor(InputType::Battery), None);
    assert_eq!(endpoint_for_sensor(InputType::Rssi), None);
    assert_eq!(endpoint_for_sensor(InputType::Position), None);
}

#[test]
fn handshake_expects_only_the_outcome_of_its_action() {
    let mut init = LeloF1sV3Initializer::default();
    assert!(!init.expects(&AuthEvent::Done));
    init.initialize();
    assert!(init.expects(&AuthEvent::ValueRead(vec![])));
    assert!(init.expects(&AuthEvent::HardwareError));
    assert!(!init.expects(&AuthEvent::Slept));
    assert!(!init.expects(&AuthEvent::Polled(None)));
    init.on_event(AuthEvent::ValueRead(vec![0]));
    assert!(init.expects(&AuthEvent::Done));
    init.on_event(AuthEvent::Done);
    assert!(init.expects(&AuthEvent::Polled(None)));
    assert!(!init.expects(&AuthEvent::HardwareError));
    init.on_event(AuthEvent::Polled(None));
    assert!(init.expects(&AuthEvent::Slept));
    assert!(!init.expects(&AuthEvent::HardwareError));
}

#[test]
fn vibrate_sequence_keeps_last_speed_per_motor() {
    let mut h = LeloF1sV3::new(true);
    let calls = [(1u32, 10u32), (1, 600), (1, 30), (0, 255), (1, 256)];
    let mut last = Vec::new();
    for (motor, speed) in calls {
        last = h.handle_output_vibrate_cmd(motor, feature(), speed).unwrap();
    }
    assert_eq!(last.len(), 1);
    assert_eq!(last[0].data, vec![1, 255, 0]);
    assert!(last[0].write_with_response);
    let mut h = LeloF1sV3::new(false);
    let cmds = h.handle_output_vibrate_cmd(1, feature(), 9).unwrap();
    assert_eq!(cmds[0].data, vec![1, 0, 9]);
}

#[test]
fn listener_stops_without_receivers_and_passes_readings() {
    let mut h = LeloF1sV3::new(false);
    h.handle_input_subscribe_cmd(6, feature(), InputType::Button).unwrap();
    assert_eq!(h.listener_step(1, 0, Some((Endpoint::Generic1, &[4][..]))), ListenerStep::Stop);
    assert_eq!(
        h.listener_step(1, 2, Some((Endpoint::Generic1, &[4][..]))),
        ListenerStep::Emit(InputReading { device_index: 1, feature_index: 6, reading: InputTypeReading::Button(4) })
    );
    assert_eq!(h.listener_step(1, 2, Some((Endpoint::Generic1, &[][..]))), ListenerStep::Skip);
    assert_eq!(h.listener_step(1, 2, Some((Endpoint::Whitelist, &[4][..]))), ListenerStep::Skip);
    assert_eq!(h.listener_step(1, 2, None), ListenerStep::Skip);
    assert_eq!(h.listener_step(1, 0, None), ListenerStep::Stop);
}

#[test]
fn handshake_can_be_run_again() {
    let mut init = LeloF1sV3Initializer::default();
    init.initialize();
    init.on_event(AuthEvent::ValueRead(vec![]));
    init.on_event(AuthEvent::Done);
    init.on_event(AuthEvent::Polled(Some(vec![5; 8])));
    init.on_event(AuthEvent::Done);
    assert!(matches!(init.on_event(AuthEvent::HardwareError), AuthAction::Abort));
    expect_read(init.initialize());
    assert!(init.expects(&AuthEvent::ValueRead(vec![])));
    expect_vibrate_with_response(init.on_event(AuthEvent::ValueRead(vec![1])));
}
