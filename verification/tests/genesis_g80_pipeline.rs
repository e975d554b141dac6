use oas_car::adapter::ManufacturerAdapter;
use oas_car::decoded::{DecodeContext, DecodedCanMessage, SignalValue};
use oas_car::genesis_g80::GenesisG80Adapter;
use oas_car::name_map::NameMap;
use oas_car::vehicle_state::{Measurement, SiConversion, VehicleState};

fn decoded(name: &str, signals: Vec<(&str, SignalValue)>) -> DecodedCanMessage {
    let mut map = NameMap::new();
    for (signal, value) in signals {
        map.insert(signal.to_string(), value);
    }
    DecodedCanMessage {
        message_name: name.to_string(),
        signals: map,
        context: DecodeContext {
            timestamp_ns: Some(1_000),
        },
    }
}

fn number(value: f64) -> SignalValue {
    SignalValue::Number(value.to_bits())
}

/// The SI value of a measurement: the decoded value in binary32 times the
/// conversion factor in binary32.
fn si(measurement: Measurement) -> f32 {
    let value = f64::from_bits(measurement.value_bits) as f32;
    match measurement.conversion {
        SiConversion::Identity => value,
        SiConversion::KphToMps => value * (1.0f64 / 3.6) as f32,
        SiConversion::MphToMps => value * 0.447_04f64 as f32,
        SiConversion::DegToRad => value * (std::f64::consts::PI / 180.0) as f32,
    }
}

fn cluster(speed: f64, unit: &str) -> DecodedCanMessage {
    decoded(
        "CLU11",
        vec![
            ("CF_Clu_Vanz", number(speed)),
            ("CF_Clu_SPEED_UNIT", SignalValue::Enumeration(unit.to_string())),
        ],
    )
}

#[test]
fn genesis_g80_pipeline_genesis_frames_flow_to_canonical_vehicle_state() {
    // CLU11 [0, 160, 0, 0], SAS11 [132, 3, 0, 0, 0] and TCS13 [0, 0, 0, 0, 0, 64, 0, 0]
    // as the G80 2017 DBC decodes them.
    let cluster = cluster(80.0, "kph");
    let steering = decoded("SAS11", vec![("SAS_Angle", number(90.0))]);
    let braking = decoded("TCS13", vec![("DriverOverride", number(2.0))]);

    let mut adapter = GenesisG80Adapter::default();
    adapter.apply(&cluster).unwrap();
    adapter.apply(&steering).unwrap();
    adapter.apply(&braking).unwrap();

    let state = adapter.vehicle_state();
    assert!((si(state.vehicle_speed_mps.unwrap()) - 80.0 / 3.6).abs() < 0.000_001);
    assert!(
        (si(state.steering.angle_rad.unwrap()) - std::f32::consts::FRAC_PI_2).abs() < 0.000_001
    );
    assert_eq!(state.brake.pressed, Some(true));
    assert!(state.is_fresh_at(1_050, 50));
}

#[test]
fn g80_converts_miles_per_hour() {
    let mut adapter = GenesisG80Adapter::default();
    adapter.apply(&cluster(50.0, "mph")).unwrap();

    let speed = adapter.vehicle_state().vehicle_speed_mps.unwrap();
    assert_eq!(speed, Measurement { value_bits: 50.0f64.to_bits(), conversion: SiConversion::MphToMps });
    assert!((si(speed) - 22.352).abs() < 0.000_01);
    assert_eq!(adapter.vehicle_state().timestamp_ns, Some(1_000));
}

#[test]
fn g80_ignores_unknown_speed_units() {
    let mut adapter = GenesisG80Adapter::default();
    adapter.apply(&cluster(80.0, "knots")).unwrap();
    let missing_unit = decoded("CLU11", vec![("CF_Clu_Vanz", number(80.0))]);
    adapter.apply(&missing_unit).unwrap();
    let missing_speed = decoded(
        "CLU11",
        vec![("CF_Clu_SPEED_UNIT", SignalValue::Enumeration("kph".to_string()))],
    );
    adapter.apply(&missing_speed).unwrap();

    assert_eq!(adapter.vehicle_state().vehicle_speed_mps, None);
    assert_eq!(adapter.vehicle_state().timestamp_ns, None);
}

#[test]
fn g80_ignores_unknown_messages() {
    let mut adapter = GenesisG80Adapter::default();
    adapter
        .apply(&decoded("CGW1", vec![("CF_Gway_HeadLampLow", number(1.0))]))
        .unwrap();

    let state = adapter.vehicle_state();
    assert_eq!(state, &VehicleState::default());
}

#[test]
fn g80_brake_is_pressed_only_on_driver_override_two() {
    let mut adapter = GenesisG80Adapter::default();
    adapter
        .apply(&decoded("TCS13", vec![("DriverOverride", number(1.0))]))
        .unwrap();
    assert_eq!(adapter.vehicle_state().brake.pressed, Some(false));
    adapter
        .apply(&decoded("TCS13", vec![("DriverOverride", number(f64::NAN))]))
        .unwrap();
    assert_eq!(adapter.vehicle_state().brake.pressed, Some(false));
    adapter
        .apply(&decoded("TCS13", vec![("DriverOverride", number(2.0))]))
        .unwrap();
    assert_eq!(adapter.vehicle_state().brake.pressed, Some(true));
}

#[test]
fn g80_steering_message_without_angle_still_stamps_the_state() {
    let mut adapter = GenesisG80Adapter::default();
    adapter.apply(&decoded("SAS11", vec![])).unwrap();

    assert_eq!(adapter.vehicle_state().steering.angle_rad, None);
    assert_eq!(adapter.vehicle_state().timestamp_ns, Some(1_000));
}

#[test]
fn g80_applying_a_message_twice_is_applying_it_once() {
    let mut once = GenesisG80Adapter::default();
    once.apply(&cluster(80.0, "kph")).unwrap();
    let mut twice = GenesisG80Adapter::default();
    twice.apply(&cluster(80.0, "kph")).unwrap();
    twice.apply(&cluster(80.0, "kph")).unwrap();

    assert_eq!(once.vehicle_state(), twice.vehicle_state());
    assert!(once.vehicle_state().vehicle_speed_mps.is_some());
}
