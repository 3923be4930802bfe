use corroded_monitor::decode::{
    decode_device, decode_reading, decode_report, is_sentinel_word, DecodeError, RawDevice,
    RawReading, RawSensor,
};
use corroded_monitor::report::{DeviceKind, SensorKind};
use corroded_monitor::series::RollingSeries;

#[test]
fn bounded_growth_keeps_min_of_pushes_and_capacity() {
    let mut s = RollingSeries::new(3);
    let mut lens = Vec::new();
    for v in [1, 2, 3, 4, 5] {
        s.push(v);
        lens.push(s.len());
    }
    assert_eq!(lens, vec![1, 2, 3, 3, 3]);
    assert_eq!(s.points(), vec![3, 4, 5]);
    assert_eq!(s.capacity(), 3);
    assert_eq!(s.latest(), Some(5));
}

#[test]
fn zero_capacity_series_retains_nothing() {
    let mut s = RollingSeries::new(0);
    s.push(7);
    assert_eq!(s.len(), 0);
    assert_eq!(s.maximum_value(), Some(7));
}

#[test]
fn high_water_mark_is_max_of_all_pushes() {
    let mut s = RollingSeries::new(2);
    assert_eq!(s.maximum_value(), None);
    let mut marks = Vec::new();
    for v in [5, 2, 9, 1, -4] {
        s.push(v);
        marks.push(s.maximum_value().unwrap());
    }
    assert_eq!(marks, vec![5, 5, 9, 9, 9]);
    // the mark outlives the evicted point
    assert_eq!(s.points(), vec![1, -4]);
}

#[test]
fn sentinels_decode_to_zero_in_any_case() {
    for word in ["NaN", "nan", "NAN", "Infinity", "INFINITY", "infinity", "iNfInItY"] {
        assert_eq!(decode_reading(&RawReading::Text(word.to_string())), Ok(0), "{}", word);
    }
}

#[test]
fn other_words_are_rejected() {
    for word in ["", "-Infinity", "inf", "12.5", "nan "] {
        assert_eq!(
            decode_reading(&RawReading::Text(word.to_string())),
            Err(DecodeError::NotANumber),
            "{}",
            word
        );
    }
}

#[test]
fn numbers_decode_to_themselves() {
    assert_eq!(decode_reading(&RawReading::Number(45_000)), Ok(45_000));
    assert_eq!(decode_reading(&RawReading::Number(-1)), Ok(-1));
}

#[test]
fn sentinel_word_needs_lower_case_input() {
    assert!(is_sentinel_word("nan"));
    assert!(is_sentinel_word("infinity"));
    assert!(!is_sentinel_word("NaN"));
}

#[test]
fn kind_codes_decode() {
    assert_eq!(SensorKind::from_code(0), Some(SensorKind::Voltage));
    assert_eq!(SensorKind::from_code(3), Some(SensorKind::Clock));
    assert_eq!(SensorKind::from_code(5), Some(SensorKind::Load));
    assert_eq!(SensorKind::from_code(17), Some(SensorKind::Noise));
    assert_eq!(SensorKind::from_code(18), None);
    assert_eq!(SensorKind::from_code(-1), None);
    assert_eq!(DeviceKind::from_code(2), Some(DeviceKind::Cpu));
    assert_eq!(DeviceKind::from_code(8), Some(DeviceKind::Network));
    assert_eq!(DeviceKind::from_code(12), Some(DeviceKind::Battery));
    assert_eq!(DeviceKind::from_code(13), None);
}

fn raw_sensor(kind: i64, name: &str, value: RawReading) -> RawSensor {
    RawSensor { kind, name: name.to_string(), index: 0, value, max: RawReading::Number(0) }
}

#[test]
fn report_decodes_with_sentinels() {
    let raw = vec![RawDevice {
        kind: 2,
        name: "Intel Core i7".to_string(),
        sensors: vec![
            raw_sensor(5, "CPU Core #1", RawReading::Number(45_000)),
            raw_sensor(4, "CPU Core #1", RawReading::Text("NaN".to_string())),
        ],
    }];
    let devices = decode_report(&raw).unwrap();
    assert_eq!(devices.len(), 1);
    assert_eq!(devices[0].kind, DeviceKind::Cpu);
    assert_eq!(devices[0].name, "Intel Core i7");
    assert_eq!(devices[0].sensors.len(), 2);
    assert_eq!(devices[0].sensors[0].kind, SensorKind::Load);
    assert_eq!(devices[0].sensors[0].value, 45_000);
    assert_eq!(devices[0].sensors[1].kind, SensorKind::Temperature);
    assert_eq!(devices[0].sensors[1].value, 0);
}

#[test]
fn unknown_device_kind_is_an_error() {
    let raw = vec![RawDevice { kind: 13, name: "X".to_string(), sensors: vec![] }];
    assert_eq!(decode_report(&raw).unwrap_err(), DecodeError::UnknownDeviceKind(13));
}

#[test]
fn unknown_sensor_kind_is_an_error() {
    let raw = RawDevice {
        kind: 2,
        name: "X".to_string(),
        sensors: vec![raw_sensor(42, "CPU Core #1", RawReading::Number(1))],
    };
    assert_eq!(decode_device(&raw).unwrap_err(), DecodeError::UnknownSensorKind(42));
}

#[test]
fn first_error_of_a_report_wins() {
    let raw = vec![
        RawDevice {
            kind: 2,
            name: "A".to_string(),
            sensors: vec![raw_sensor(5, "x", RawReading::Text("oops".to_string()))],
        },
        RawDevice { kind: 99, name: "B".to_string(), sensors: vec![] },
    ];
    assert_eq!(decode_report(&raw).unwrap_err(), DecodeError::NotANumber);
}

#[test]
fn empty_report_and_empty_names_are_legal() {
    assert_eq!(decode_report(&vec![]).unwrap().len(), 0);
    let raw = vec![RawDevice { kind: 0, name: String::new(), sensors: vec![] }];
    assert_eq!(decode_report(&raw).unwrap()[0].name, "");
}
