use oas_car::adapter::ManufacturerAdapter;
use oas_car::decoded::{DecodeContext, DecodedCanMessage, SignalValue};
use oas_car::name_map::NameMap;
use oas_car::vehicle_state::{Measurement, SiConversion, VehicleState};

#[derive(Default)]
struct SyntheticAdapter {
    state: VehicleState,
}

impl ManufacturerAdapter for SyntheticAdapter {
    type Error = ();

    fn apply(&mut self, message: &DecodedCanMessage) -> Result<(), Self::Error> {
        if message.message_name != "synthetic_status" {
            return Ok(());
        }

        self.state.timestamp_ns = message.context.timestamp_ns;
        if let Some(SignalValue::Number(speed_mps)) = message.signals.get("speed_mps") {
            self.state.vehicle_speed_mps =
                Some(Measurement { value_bits: *speed_mps, conversion: SiConversion::Identity });
        }
        if let Some(SignalValue::Boolean(brake_pressed)) = message.signals.get("brake_pressed") {
            self.state.brake.pressed = Some(*brake_pressed);
        }

        Ok(())
    }

    fn vehicle_state(&self) -> &VehicleState {
        &self.state
    }
}

#[test]
fn synthetic_frame_flows_to_a_fresh_vehicle_state() {
    // The fixture message `synthetic_status` for frame 0x123, decoded at 1000 ns.
    let mut signals = NameMap::new();
    signals.insert("speed_mps".to_string(), SignalValue::Number(12.5f64.to_bits()));
    signals.insert("brake_pressed".to_string(), SignalValue::Boolean(false));
    let message = DecodedCanMessage {
        message_name: "synthetic_status".to_string(),
        signals,
        context: DecodeContext {
            timestamp_ns: Some(1_000),
        },
    };

    let mut adapter = SyntheticAdapter::default();
    adapter.apply(&message).unwrap();

    let speed = adapter.vehicle_state().vehicle_speed_mps.unwrap();
    assert_eq!(f64::from_bits(speed.value_bits) as f32, 12.5);
    assert_eq!(speed.conversion, SiConversion::Identity);
    assert_eq!(adapter.vehicle_state().brake.pressed, Some(false));
    assert!(adapter.vehicle_state().is_fresh_at(1_050, 50));
}
