use sen66::command::Command;

#[test]
fn serialize_to_bytes_works() {
    let data = [
        (Command::StartContinuousMeasurement, [0x00, 0x21]),
        (Command::StopMeasurement, [0x01, 0x04]),
        (Command::GetDataReady, [0x02, 0x02]),
        (Command::ReadMeasurement, [0x03, 0x00]),
        (Command::ReadRawMeasurement, [0x04, 0x05]),
        (Command::ReadNumberConcentrationValues, [0x03, 0x16]),
        (Command::SetTemperatureOffsetParameters, [0x60, 0xB2]),
        (Command::SetTemperatureAccelerationParameters, [0x61, 0x00]),
        (Command::GetProductName, [0xD0, 0x14]),
        (Command::GetSerialNumber, [0xD0, 0x33]),
        (Command::GetDeviceStatus, [0xD2, 0x06]),
        (Command::ReadAndClearDeviceStatus, [0xD2, 0x10]),
        (Command::ResetDevice, [0xD3, 0x04]),
        (Command::StartFanCleaning, [0x56, 0x07]),
        (Command::ActivateShtHeater, [0x37, 0x30]),
        (Command::SetReadVocTuningParameters, [0x60, 0xD0]),
        (Command::SetReadVocAlgorithmState, [0x61, 0x81]),
        (Command::SetReadNoxTuningParameters, [0x60, 0xE1]),
        (Command::ForcedRecalibration, [0x67, 0x07]),
        (Command::SetReadCo2AutomaticSelfCalibration, [0x67, 0x11]),
        (Command::SetReadAmbientPreassure, [0x67, 0x20]),
        (Command::SetReadSensorAltitude, [0x67, 0x36]),
    ];
    for (command, result) in data {
        assert_eq!(command.to_be_bytes(), result);
    }
}

#[test]
fn execution_times_match_the_catalog() {
    assert_eq!(Command::StartContinuousMeasurement.execution_time_ms(), 50);
    assert_eq!(Command::StopMeasurement.execution_time_ms(), 1000);
    assert_eq!(Command::ActivateShtHeater.execution_time_ms(), 1300);
    assert_eq!(Command::ForcedRecalibration.execution_time_ms(), 500);
    assert_eq!(Command::GetDataReady.execution_time_ms(), 20);
    assert_eq!(Command::ResetDevice.execution_time_ms(), 1200);
    assert_eq!(Command::StartFanCleaning.execution_time_ms(), 1);
}

#[test]
fn opcode_as_word() {
    assert_eq!(Command::SetReadSensorAltitude.to_u16(), 0x6736);
    assert_eq!(Command::StopMeasurement.to_u16(), 0x0104);
}
