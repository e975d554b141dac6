use oas_car::adapter::ManufacturerAdapter;
use oas_car::decoded::{DecodeContext, DecodedCanMessage, SignalValue};
use oas_car::genesis_g80_legacy::GenesisG80LegacyAdapter;
use oas_car::name_map::NameMap;
use oas_car::vehicle_state::{GearPosition, Measurement, SiConversion, WheelPosition};

fn decoded_at(name: &str, signals: Vec<(&str, SignalValue)>, timestamp_ns: Option<u64>) -> DecodedCanMessage {
    let mut map = NameMap::new();
    for (signal, value) in signals {
        map.insert(signal.to_string(), value);
    }
    DecodedCanMessage {
        message_name: name.to_string(),
        signals: map,
        context: DecodeContext { timestamp_ns },
    }
}

fn decoded(name: &str, signals: Vec<(&str, SignalValue)>) -> DecodedCanMessage {
    decoded_at(name, signals, Some(1_000))
}

fn number(value: f64) -> SignalValue {
    SignalValue::Number(value.to_bits())
}

/// The SI value of a measurement: the decoded value in binary32 times the
/// conversion factor in binary32.
fn si(measurement: Measurement) -> f32 {
    let value = f64::from_bits(measurement.value_bits) as f32;
    match measurement.conversion {
        SiConversion::Identity => value,
        SiConversion::KphToMps => value * (1.0f64 / 3.6) as f32,
        SiConversion::MphToMps => value * 0.447_04f64 as f32,
        SiConversion::DegToRad => value * (std::f64::consts::PI / 180.0) as f32,
    }
}

fn gear_after(raw: f64) -> GearPosition {
    let mut adapter = GenesisG80LegacyAdapter::default();
    adapter.apply(&decoded("LVR12", vec![("CF_Lvr_Gear", number(raw))])).unwrap();
    adapter.vehicle_state().gear.position
}

fn cruise_after(raw: f64) -> Option<bool> {
    let mut adapter = GenesisG80LegacyAdapter::default();
    adapter.apply(&decoded("SCC14", vec![("ACCMode", number(raw))])).unwrap();
    adapter.vehicle_state().cruise.enabled
}

#[test]
fn genesis_g80_legacy_pipeline_genesis_frames_flow_to_canonical_vehicle_state() {
    // CLU11 [0, 160, 0, 0], SAS11 [132, 3, 0, 0, 0], TCS13 [0, 0, 0, 0, 124, 68, 0, 0],
    // CGW1 [0, 0, 0, 128, 0, 0, 0, 0] and LVR12 [0; 8] as the legacy DBC decodes them.
    let cluster = decoded(
        "CLU11",
        vec![
            ("CF_Clu_Vanz", number(80.0)),
            ("CF_Clu_SPEED_UNIT", SignalValue::Enumeration("kph".to_string())),
        ],
    );
    let steering = decoded("SAS11", vec![("SAS_Angle", number(90.0))]);
    let accelerating_and_braking = decoded(
        "TCS13",
        vec![("ACCEL_REF_ACC", number(1.25)), ("DriverOverride", number(2.0))],
    );
    let lighting = decoded("CGW1", vec![("CF_Gway_HeadLampLow", number(1.0))]);
    let gear = decoded("LVR12", vec![("CF_Lvr_Gear", number(0.0))]);

    let mut adapter = GenesisG80LegacyAdapter::default();
    adapter.apply(&cluster).unwrap();
    adapter.apply(&steering).unwrap();
    adapter.apply(&accelerating_and_braking).unwrap();
    adapter.apply(&lighting).unwrap();
    adapter.apply(&gear).unwrap();

    let state = adapter.vehicle_state();
    assert!((si(state.vehicle_speed_mps.unwrap()) - 80.0 / 3.6).abs() < 0.000_01);
    assert!((si(state.steering.angle_rad.unwrap()) - std::f32::consts::FRAC_PI_2).abs() < 0.000_001);
    assert!((si(state.acceleration_mps2.unwrap()) - 1.25).abs() < 0.000_01);
    assert_eq!(state.brake.pressed, Some(true));
    assert_eq!(state.night_mode, Some(true));
    assert_eq!(state.gear.position, GearPosition::Park);
    assert!(state.is_fresh_at(1_050, 50));
}

#[test]
fn legacy_unknown_messages_leave_the_state_unchanged() {
    let mut adapter = GenesisG80LegacyAdapter::default();
    adapter.apply(&decoded("SAS11", vec![("SAS_Angle", number(12.0))])).unwrap();
    let before = adapter.vehicle_state().clone();
    let doors = decoded_at(
        "GW_DDM_PE",
        vec![
            ("C_DRVDoorStatus", number(1.0)),
            ("C_RLDoorStatus", number(3.0)),
            ("C_Label", SignalValue::Enumeration("closed".to_string())),
            ("C_Flag", SignalValue::Boolean(true)),
        ],
        Some(5_000),
    );
    adapter.apply(&doors).unwrap();
    assert_eq!(adapter.vehicle_state(), &before);

    let knots = decoded_at(
        "CLU11",
        vec![
            ("CF_Clu_Vanz", number(40.0)),
            ("CF_Clu_SPEED_UNIT", SignalValue::Enumeration("knots".to_string())),
        ],
        Some(6_000),
    );
    adapter.apply(&knots).unwrap();
    assert_eq!(adapter.vehicle_state(), &before);
}

#[test]
fn legacy_unmapped_signals_do_not_reach_the_state() {
    let plain = decoded(
        "TCS13",
        vec![("ACCEL_REF_ACC", number(0.5)), ("DriverOverride", number(0.0))],
    );
    let with_extra = decoded(
        "TCS13",
        vec![
            ("ACCEL_REF_ACC", number(0.5)),
            ("DriverOverride", number(0.0)),
            ("TCS_REQ", number(1.0)),
            ("CF_Esc_Ctrl", number(99.0)),
        ],
    );
    let mut a = GenesisG80LegacyAdapter::default();
    a.apply(&plain).unwrap();
    let mut b = GenesisG80LegacyAdapter::default();
    b.apply(&with_extra).unwrap();
    assert_eq!(a.vehicle_state(), b.vehicle_state());
    assert_eq!(a.vehicle_state().brake.pressed, Some(false));
}

#[test]
fn legacy_gear_positions() {
    assert_eq!(gear_after(0.0), GearPosition::Park);
    assert_eq!(gear_after(7.0), GearPosition::Reverse);
    assert_eq!(gear_after(6.0), GearPosition::Neutral);
    assert_eq!(gear_after(5.0), GearPosition::Drive);
    assert_eq!(gear_after(8.0), GearPosition::Drive);
    assert_eq!(gear_after(5.9), GearPosition::Drive);
    assert_eq!(gear_after(1.0), GearPosition::Unspecified);
    assert_eq!(gear_after(-3.0), GearPosition::Park);
    assert_eq!(gear_after(f64::NAN), GearPosition::Park);
    assert_eq!(gear_after(263.0), GearPosition::Unspecified);
    assert_eq!(gear_after(f64::INFINITY), GearPosition::Unspecified);
}

#[test]
fn legacy_gear_message_without_gear_keeps_it() {
    let mut adapter = GenesisG80LegacyAdapter::default();
    adapter.apply(&decoded("LVR12", vec![("CF_Lvr_Gear", number(7.0))])).unwrap();
    adapter.apply(&decoded_at("LVR12", vec![], Some(2_000))).unwrap();
    assert_eq!(adapter.vehicle_state().gear.position, GearPosition::Reverse);
    assert_eq!(adapter.vehicle_state().timestamp_ns, Some(2_000));
}

#[test]
fn legacy_cruise_modes() {
    assert_eq!(cruise_after(1.0), Some(true));
    assert_eq!(cruise_after(0.0), Some(false));
    assert_eq!(cruise_after(2.0), Some(false));
    assert_eq!(cruise_after(4.9), Some(false));
    assert_eq!(cruise_after(5.0), None);
    assert_eq!(cruise_after(1.5), Some(true));

    let mut adapter = GenesisG80LegacyAdapter::default();
    adapter.apply(&decoded("SCC14", vec![("ACCMode", number(1.0))])).unwrap();
    adapter.apply(&decoded("SCC14", vec![])).unwrap();
    assert_eq!(adapter.vehicle_state().cruise.enabled, None);
}

#[test]
fn legacy_night_mode_follows_the_low_beam() {
    let mut adapter = GenesisG80LegacyAdapter::default();
    adapter.apply(&decoded("CGW1", vec![("CF_Gway_HeadLampLow", number(-0.0))])).unwrap();
    assert_eq!(adapter.vehicle_state().night_mode, Some(false));
    adapter.apply(&decoded("CGW1", vec![("CF_Gway_HeadLampLow", number(f64::NAN))])).unwrap();
    assert_eq!(adapter.vehicle_state().night_mode, Some(true));
    adapter.apply(&decoded("CGW1", vec![])).unwrap();
    assert_eq!(adapter.vehicle_state().night_mode, None);
}

#[test]
fn legacy_wheel_speeds_keep_one_entry_per_wheel() {
    let mut adapter = GenesisG80LegacyAdapter::default();
    adapter
        .apply(&decoded("WHL_SPD11", vec![("WHL_SPD_RR", number(32.0)), ("WHL_SPD_FL", number(256.0))]))
        .unwrap();
    let wheels = &adapter.vehicle_state().wheels;
    assert_eq!(wheels.len(), 2);
    assert_eq!(wheels[0].position, WheelPosition::FrontLeft);
    assert_eq!(wheels[1].position, WheelPosition::RearRight);

    adapter
        .apply(&decoded(
            "WHL_SPD11",
            vec![
                ("WHL_SPD_FL", number(128.0)),
                ("WHL_SPD_FR", number(64.0)),
                ("WHL_SPD_RL", number(16.0)),
                ("WHL_SPD_RR", number(8.0)),
            ],
        ))
        .unwrap();
    let wheels = &adapter.vehicle_state().wheels;
    assert_eq!(wheels.len(), 4);
    assert_eq!(wheels[0].position, WheelPosition::FrontLeft);
    assert_eq!(wheels[0].speed_mps, Some(Measurement { value_bits: 128.0f64.to_bits(), conversion: SiConversion::KphToMps }));
    assert_eq!(wheels[1].position, WheelPosition::RearRight);
    assert_eq!(si(wheels[1].speed_mps.unwrap()), 8.0f32 / 3.6);
    assert_eq!(wheels[2].position, WheelPosition::FrontRight);
    assert_eq!(wheels[3].position, WheelPosition::RearLeft);
}

#[test]
fn legacy_timestamp_follows_only_mapped_messages() {
    let mut adapter = GenesisG80LegacyAdapter::default();
    adapter.apply(&decoded_at("SAS11", vec![("SAS_Angle", number(-45.0))], Some(10))).unwrap();
    assert_eq!(adapter.vehicle_state().timestamp_ns, Some(10));
    adapter.apply(&decoded_at("UNKNOWN", vec![("X", number(1.0))], Some(20))).unwrap();
    assert_eq!(adapter.vehicle_state().timestamp_ns, Some(10));
    adapter.apply(&decoded_at("TCS13", vec![], None)).unwrap();
    assert_eq!(adapter.vehicle_state().timestamp_ns, None);
    assert!(!adapter.vehicle_state().is_fresh_at(10, 100));
}

#[test]
fn legacy_applying_a_message_twice_is_applying_it_once() {
    let message = decoded(
        "WHL_SPD11",
        vec![("WHL_SPD_FL", number(10.0)), ("WHL_SPD_RL", number(12.0))],
    );
    let mut adapter = GenesisG80LegacyAdapter::default();
    adapter.apply(&message).unwrap();
    let once = adapter.vehicle_state().clone();
    adapter.apply(&message).unwrap();
    assert_eq!(adapter.vehicle_state(), &once);
    assert_eq!(once.wheels.len(), 2);
}
