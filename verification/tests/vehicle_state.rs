use oas_car::vehicle_state::{GearPosition, VehicleState};

#[test]
fn default_state_preserves_unknown_signals() {
    let state = VehicleState::default();

    assert_eq!(state.vehicle_speed_mps, None);
    assert!(state.wheels.is_empty());
}

#[test]
fn state_freshness_requires_a_recent_non_future_timestamp() {
    let state = VehicleState {
        timestamp_ns: Some(100),
        ..VehicleState::default()
    };

    assert!(state.is_fresh_at(150, 50));
    assert!(!state.is_fresh_at(151, 50));
    assert!(!state.is_fresh_at(99, 50));
}

#[test]
fn default_state_has_every_scalar_unobserved() {
    let state = VehicleState::default();

    assert_eq!(state.timestamp_ns, None);
    assert_eq!(state.acceleration_mps2, None);
    assert_eq!(state.steering.angle_rad, None);
    assert_eq!(state.steering.torque_nm, None);
    assert_eq!(state.brake.pressed, None);
    assert_eq!(state.accelerator.position, None);
    assert_eq!(state.gear.position, GearPosition::Unspecified);
    assert_eq!(state.cruise.enabled, None);
    assert_eq!(state.night_mode, None);
    assert!(state.doors.is_empty());
    assert!(state.seatbelts.is_empty());
}

#[test]
fn state_without_timestamp_is_never_fresh() {
    let state = VehicleState::default();

    assert!(!state.is_fresh_at(0, u64::MAX));
    assert!(!state.is_fresh_at(u64::MAX, u64::MAX));
}

#[test]
fn freshness_at_the_extremes_of_the_clock() {
    let state = VehicleState {
        timestamp_ns: Some(u64::MAX),
        ..VehicleState::default()
    };
    assert!(state.is_fresh_at(u64::MAX, 0));
    assert!(!state.is_fresh_at(0, u64::MAX));

    let state = VehicleState {
        timestamp_ns: Some(0),
        ..VehicleState::default()
    };
    assert!(state.is_fresh_at(u64::MAX, u64::MAX));
    assert!(!state.is_fresh_at(u64::MAX, u64::MAX - 1));
    assert!(state.is_fresh_at(0, 0));
}
