use sen66::codec::encode_words;
use sen66::configuration::{
    AmbientPressure, Co2Correction, NoxTuning, SensorAltitude, TargetCO2Concentration,
    TemperatureAcceleration, TemperatureOffset, VocTuning,
};
use sen66::error::DataError;

#[test]
fn target_co2_concentration_wraps_raw_value() {
    let value = 12;
    assert_eq!(u16::from(TargetCO2Concentration::from(value)), value)
}

#[test]
fn forced_recalibration_reply_yields_correction() {
    let data = [0x83, 0xE8, 0xF7];
    let correction = Co2Correction::try_from(&data[..]).unwrap();
    assert!(correction.is_valid());
    assert_eq!(u16::from(correction), 1000);
}

#[test]
fn failed_forced_recalibration_is_invalid() {
    let data = encode_words(&[0xFFFF]);
    let correction = Co2Correction::try_from(&data[..]).unwrap();
    assert!(!correction.is_valid());
    assert_eq!(u16::from(correction), 0xFFFF);
}

#[test]
fn ambient_pressure_bounds() {
    assert_eq!(u16::from(AmbientPressure::try_from(700u16).unwrap()), 700);
    assert_eq!(u16::from(AmbientPressure::try_from(1200u16).unwrap()), 1200);
    assert_eq!(
        AmbientPressure::try_from(699u16),
        Err(DataError::ValueOutOfRange {
            parameter: "Ambient Pressure",
            min: 700,
            max: 1200,
            unit: "hPa"
        })
    );
    assert!(AmbientPressure::try_from(1201u16).is_err());
    assert_eq!(u16::from(AmbientPressure::default()), 1013);
}

#[test]
fn ambient_pressure_round_trip() {
    let p = AmbientPressure::try_from(950u16).unwrap();
    let data = encode_words(&[u16::from(p)]);
    assert_eq!(data, vec![0x03, 0xB6, sen66::util::word_checksum(0x03, 0xB6)]);
    let back = AmbientPressure::try_from(&data[..]).unwrap();
    assert_eq!(u16::from(back), 950);
}

#[test]
fn received_ambient_pressure_out_of_range_is_rejected() {
    let data = encode_words(&[1300]);
    assert!(matches!(
        AmbientPressure::try_from(&data[..]),
        Err(DataError::ValueOutOfRange { .. })
    ));
}

#[test]
fn sensor_altitude_bounds_and_round_trip() {
    assert_eq!(u16::from(SensorAltitude::default()), 0);
    assert_eq!(
        SensorAltitude::try_from(3001u16),
        Err(DataError::ValueOutOfRange {
            parameter: "Sensor Altitude",
            min: 0,
            max: 3000,
            unit: "m"
        })
    );
    let a = SensorAltitude::try_from(3000u16).unwrap();
    let data = encode_words(&[u16::from(a)]);
    assert_eq!(u16::from(SensorAltitude::try_from(&data[..]).unwrap()), 3000);
}

#[test]
fn temperature_offset_is_scaled() {
    let t = TemperatureOffset::new(-2, 1, 5, 4).unwrap();
    assert_eq!(<[u16; 4]>::from(t), [(-400i16) as u16, 10000, 5, 4]);
}

#[test]
fn temperature_offset_out_of_range() {
    assert_eq!(
        TemperatureOffset::new(164, 0, 0, 0).err(),
        Some(DataError::ValueOutOfRange {
            parameter: "Temperature Offset",
            min: -163,
            max: 163,
            unit: "°C"
        })
    );
    assert_eq!(
        TemperatureOffset::new(0, 4, 0, 0).err(),
        Some(DataError::ValueOutOfRange {
            parameter: "Temperature Slope",
            min: -3,
            max: 3,
            unit: ""
        })
    );
    assert_eq!(
        TemperatureOffset::new(0, 0, 0, 5).err(),
        Some(DataError::ValueOutOfRange {
            parameter: "Temperature Offset Slot",
            min: 0,
            max: 4,
            unit: ""
        })
    );
    assert!(TemperatureOffset::new(-164, 0, 0, 0).is_err());
}

#[test]
fn temperature_acceleration_is_scaled() {
    let a = TemperatureAcceleration::new(1, 2, 3, 6553).unwrap();
    assert_eq!(<[u16; 4]>::from(a), [10, 20, 30, 65530]);
    assert_eq!(
        TemperatureAcceleration::new(0, 6554, 0, 0).err(),
        Some(DataError::ValueOutOfRange {
            parameter: "Temperature Acceleration P",
            min: 0,
            max: 6553,
            unit: ""
        })
    );
}

#[test]
fn voc_tuning_round_trip() {
    let t = VocTuning::new(250, 1000, 1, 0, 5000, 1).unwrap();
    let words = <[u16; 6]>::from(t);
    assert_eq!(words, [250, 1000, 1, 0, 5000, 1]);
    let data = encode_words(&words);
    let back = VocTuning::try_from(&data[..]).unwrap();
    assert_eq!(back, VocTuning::new(250, 1000, 1, 0, 5000, 1).unwrap());
}

#[test]
fn voc_tuning_defaults() {
    assert_eq!(<[u16; 6]>::from(VocTuning::default()), [100, 12, 12, 180, 50, 230]);
}

#[test]
fn nox_tuning_defaults_and_fixed_deviation() {
    assert_eq!(<[u16; 6]>::from(NoxTuning::default()), [1, 12, 12, 720, 50, 230]);
    assert_eq!(<[u16; 6]>::from(NoxTuning::new(2, 3, 4, 5, 6).unwrap()), [2, 3, 4, 5, 50, 6]);
}

#[test]
fn tuning_bounds_are_enforced() {
    assert_eq!(
        VocTuning::new(0, 12, 12, 180, 50, 230).err(),
        Some(DataError::ValueOutOfRange {
            parameter: "VOC Index Offset",
            min: 1,
            max: 250,
            unit: ""
        })
    );
    assert_eq!(
        VocTuning::new(100, 12, 12, 3001, 50, 230).err(),
        Some(DataError::ValueOutOfRange {
            parameter: "VOC Gating Max Duration",
            min: 0,
            max: 3000,
            unit: "min"
        })
    );
    assert!(VocTuning::new(100, 12, 12, 180, 9, 230).is_err());
    assert!(VocTuning::new(100, 12, 1001, 180, 50, 230).is_err());
    assert!(NoxTuning::new(100, 0, 12, 180, 230).is_err());
    assert!(NoxTuning::new(100, 12, 12, 180, 1001).is_err());
}

#[test]
fn received_tuning_is_checked() {
    let data = encode_words(&[0, 12, 12, 180, 50, 230]);
    assert!(matches!(
        NoxTuning::try_from(&data[..]),
        Err(DataError::ValueOutOfRange { .. })
    ));
    assert_eq!(
        VocTuning::try_from(&data[..3]),
        Err(DataError::ReceivedBufferWrongSize)
    );
}
