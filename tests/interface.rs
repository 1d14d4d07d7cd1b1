use sen66::codec::encode_words;
use sen66::configuration::{AmbientPressure, TargetCO2Concentration};
use sen66::data::{AscState, SensorState};
use sen66::error::{DataError, Sen66Error};
use sen66::interface::{forced_recalibration_result, Operation, Sen66};

#[test]
fn start_and_stop_measurement_move_the_state() {
    let mut sensor = Sen66::new((), ());
    assert_eq!(sensor.state(), SensorState::Idle);

    let start = sensor.begin::<()>(Operation::StartMeasurement).unwrap();
    assert_eq!(start.frame(), &[0x00, 0x21][..]);
    assert_eq!(start.delay_ms(), 50);
    assert_eq!(start.reply_len(), 0);
    sensor.complete(&start);
    assert_eq!(sensor.state(), SensorState::Measuring);

    let stop = sensor.begin::<()>(Operation::StopMeasurement).unwrap();
    assert_eq!(stop.frame(), &[0x01, 0x04][..]);
    assert_eq!(stop.delay_ms(), 1000);
    sensor.complete(&stop);
    assert_eq!(sensor.state(), SensorState::Idle);

    assert!(matches!(
        sensor.begin::<()>(Operation::StopMeasurement),
        Err(Sen66Error::WrongState("Measuring"))
    ));
}

#[test]
fn gated_operations_fail_in_the_wrong_state() {
    let mut sensor = Sen66::new((), ());
    assert!(matches!(
        sensor.begin::<()>(Operation::IsDataReady),
        Err(Sen66Error::WrongState("Measuring"))
    ));
    let start = sensor.begin::<()>(Operation::StartMeasurement).unwrap();
    sensor.complete(&start);
    assert!(matches!(
        sensor.begin::<()>(Operation::StartMeasurement),
        Err(Sen66Error::WrongState("Idle"))
    ));
    assert!(matches!(
        sensor.begin::<()>(Operation::SetCo2AscState(AscState::Enabled)),
        Err(Sen66Error::WrongState("Idle"))
    ));
    let ready = sensor.begin::<()>(Operation::IsDataReady).unwrap();
    assert_eq!(ready.frame(), &[0x02, 0x02][..]);
    assert_eq!(ready.reply_len(), 3);
    let status = sensor.begin::<()>(Operation::ReadDeviceStatus).unwrap();
    assert_eq!(status.reply_len(), 6);
}

#[test]
fn write_requests_carry_framed_words() {
    let sensor = Sen66::new((), ());
    let pressure = AmbientPressure::try_from(1013u16).unwrap();
    let req = sensor.begin::<()>(Operation::SetAmbientPressure(pressure)).unwrap();
    let mut expected = vec![0x67, 0x20];
    expected.extend(encode_words(&[1013]));
    assert_eq!(req.frame(), expected);

    let frc = sensor
        .begin::<()>(Operation::PerformForcedCo2Recalibration(TargetCO2Concentration::from(400)))
        .unwrap();
    let mut expected = vec![0x67, 0x07];
    expected.extend(encode_words(&[400]));
    assert_eq!(frc.frame(), expected);
    assert_eq!(frc.delay_ms(), 500);
    assert_eq!(frc.reply_len(), 3);
}

#[test]
fn forced_recalibration_outcomes() {
    let ok = forced_recalibration_result::<()>(&[0x83, 0xE8, 0xF7]).unwrap();
    assert_eq!(u16::from(ok), 1000);
    let failed = encode_words(&[0xFFFF]);
    assert!(matches!(
        forced_recalibration_result::<()>(&failed),
        Err(Sen66Error::FailedCo2Recalibration)
    ));
    assert!(matches!(
        forced_recalibration_result::<()>(&[0x83, 0xE8, 0xF8]),
        Err(Sen66Error::DataError(DataError::CrcFailed))
    ));
}

#[test]
fn shutdown_stops_a_measuring_sensor() {
    let mut sensor = Sen66::new(1u8, 2u8);
    assert!(sensor.shutdown_operation().is_none());
    let start = sensor.begin::<()>(Operation::StartMeasurement).unwrap();
    sensor.complete(&start);
    assert!(matches!(sensor.shutdown_operation(), Some(Operation::StopMeasurement)));
    let (delay, i2c) = sensor.transport();
    *delay = 3;
    *i2c = 4;
    assert_eq!(sensor.kill(), (3, 4));
}

#[test]
fn reset_waits_for_the_power_cycle() {
    let sensor = Sen66::new((), ());
    let reset = sensor.begin::<()>(Operation::ResetDevice).unwrap();
    assert_eq!(reset.frame(), &[0xD3, 0x04][..]);
    assert_eq!(reset.delay_ms(), 1200);
    assert_eq!(reset.reply_len(), 0);
}
