//! Maps Genesis G80 2017 decoded signals into the canonical vehicle state.

use vstd::prelude::*;
use crate::adapter::ManufacturerAdapter;
use crate::decoded::{DecodedCanMessage, SignalValue, enumeration_signal, number_signal, text_is};
use crate::float_bits::{F64_TWO_BITS, f64_bits_equal, f64_equal};
use crate::vehicle_state::{
    Measurement, SiConversion, SteeringState, BrakeState, VehicleState, VehicleStateModel,
    unobserved_state,
};

verus! {

/// The conversion to metres per second named by the cluster's speed unit.
pub open spec fn speed_conversion(message: DecodedCanMessage) -> Option<SiConversion> {
    match enumeration_signal(message, "CF_Clu_SPEED_UNIT"@) {
        Some(unit) => if unit == "kph"@ {
            Some(SiConversion::KphToMps)
        } else if unit == "mph"@ {
            Some(SiConversion::MphToMps)
        } else {
            None
        },
        None => None,
    }
}

/// `s` with the message's timestamp as the observation time.
pub open spec fn stamped(s: VehicleStateModel, message: DecodedCanMessage) -> VehicleStateModel {
    VehicleStateModel { timestamp_ns: message.context.timestamp_ns, ..s }
}

/// A `CLU11` message: with a speed in a known unit it sets the vehicle speed
/// and the observation time; otherwise it changes nothing.
pub open spec fn cluster_update(s: VehicleStateModel, message: DecodedCanMessage) -> VehicleStateModel {
    match (number_signal(message, "CF_Clu_Vanz"@), speed_conversion(message)) {
        (Some(speed), Some(conversion)) => stamped(
            VehicleStateModel {
                vehicle_speed_mps: Some(Measurement { value_bits: speed, conversion }),
                ..s
            },
            message,
        ),
        _ => s,
    }
}

/// A `SAS11` message: sets the steering angle when present, and the
/// observation time in any case.
pub open spec fn steering_update(s: VehicleStateModel, message: DecodedCanMessage) -> VehicleStateModel {
    let s1 = match number_signal(message, "SAS_Angle"@) {
        Some(angle) => VehicleStateModel {
            steering: SteeringState {
                angle_rad: Some(Measurement { value_bits: angle, conversion: SiConversion::DegToRad }),
                ..s.steering
            },
            ..s
        },
        None => s,
    };
    stamped(s1, message)
}

/// The brake is pressed when the driver override signal is `2`.
pub open spec fn brake_override_update(s: VehicleStateModel, message: DecodedCanMessage) -> VehicleStateModel {
    match number_signal(message, "DriverOverride"@) {
        Some(value) => VehicleStateModel {
            brake: BrakeState { pressed: Some(f64_equal(value, F64_TWO_BITS)) },
            ..s
        },
        None => s,
    }
}

/// What one message does to the state of a [`GenesisG80Adapter`]. Messages
/// other than `CLU11`, `SAS11` and `TCS13` change nothing.
pub open spec fn g80_update(s: VehicleStateModel, message: DecodedCanMessage) -> VehicleStateModel {
    let name = message.message_name@;
    if name == "CLU11"@ {
        cluster_update(s, message)
    } else if name == "SAS11"@ {
        steering_update(s, message)
    } else if name == "TCS13"@ {
        stamped(brake_override_update(s, message), message)
    } else {
        s
    }
}

/// A message other than `CLU11`, `SAS11` and `TCS13` leaves the state as it
/// was.
pub proof fn lemma_g80_ignores_unknown_messages(s: VehicleStateModel, message: DecodedCanMessage)
    requires
        message.message_name@ != "CLU11"@,
        message.message_name@ != "SAS11"@,
        message.message_name@ != "TCS13"@,
    ensures
        g80_update(s, message) == s,
{
}

/// A `CLU11` message whose speed unit is neither `kph` nor `mph`, or that
/// carries no unit, leaves the state as it was.
pub proof fn lemma_g80_ignores_unknown_speed_units(s: VehicleStateModel, message: DecodedCanMessage)
    requires
        message.message_name@ == "CLU11"@,
        speed_conversion(message) is None,
    ensures
        g80_update(s, message) == s,
{
}

/// The observation time only ever becomes that of the applied message.
pub proof fn lemma_g80_timestamp_comes_from_the_message(s: VehicleStateModel, message: DecodedCanMessage)
    ensures
        g80_update(s, message).timestamp_ns == s.timestamp_ns
            || g80_update(s, message).timestamp_ns == message.context.timestamp_ns,
{
}

/// A scalar is observed only through a message that carries its signal:
/// a scalar that was `None` stays `None` unless the message carries it.
pub proof fn lemma_g80_unobserved_scalars_stay_unobserved(s: VehicleStateModel, message: DecodedCanMessage)
    ensures
        g80_update(s, message).vehicle_speed_mps is Some ==> s.vehicle_speed_mps is Some
            || number_signal(message, "CF_Clu_Vanz"@) is Some,
        g80_update(s, message).steering.angle_rad is Some ==> s.steering.angle_rad is Some
            || number_signal(message, "SAS_Angle"@) is Some,
        g80_update(s, message).brake.pressed is Some ==> s.brake.pressed is Some
            || number_signal(message, "DriverOverride"@) is Some,
{
}

/// No signal outside the mapping reaches the state: two messages that agree
/// on their name, their timestamp and every mapped signal have the same effect.
pub proof fn lemma_g80_reads_only_mapped_signals(s: VehicleStateModel, m1: DecodedCanMessage, m2: DecodedCanMessage)
    requires
        m1.message_name@ == m2.message_name@,
        m1.context.timestamp_ns == m2.context.timestamp_ns,
        enumeration_signal(m1, "CF_Clu_SPEED_UNIT"@) == enumeration_signal(m2, "CF_Clu_SPEED_UNIT"@),
        number_signal(m1, "CF_Clu_Vanz"@) == number_signal(m2, "CF_Clu_Vanz"@),
        number_signal(m1, "SAS_Angle"@) == number_signal(m2, "SAS_Angle"@),
        number_signal(m1, "DriverOverride"@) == number_signal(m2, "DriverOverride"@),
    ensures
        g80_update(s, m1) == g80_update(s, m2),
{
}

/// The message names this library maps, and the two speed units, differ.
pub proof fn lemma_mapped_names_differ()
    ensures
        "CLU11"@ != "SAS11"@,
        "CLU11"@ != "TCS13"@,
        "CLU11"@ != "CGW1"@,
        "CLU11"@ != "LVR12"@,
        "CLU11"@ != "WHL_SPD11"@,
        "CLU11"@ != "SCC14"@,
        "SAS11"@ != "TCS13"@,
        "SAS11"@ != "CGW1"@,
        "SAS11"@ != "LVR12"@,
        "SAS11"@ != "WHL_SPD11"@,
        "SAS11"@ != "SCC14"@,
        "TCS13"@ != "CGW1"@,
        "TCS13"@ != "LVR12"@,
        "TCS13"@ != "WHL_SPD11"@,
        "TCS13"@ != "SCC14"@,
        "CGW1"@ != "LVR12"@,
        "CGW1"@ != "WHL_SPD11"@,
        "CGW1"@ != "SCC14"@,
        "LVR12"@ != "WHL_SPD11"@,
        "LVR12"@ != "SCC14"@,
        "WHL_SPD11"@ != "SCC14"@,
        "kph"@ != "mph"@,
{
    reveal_strlit("CLU11");
    reveal_strlit("SAS11");
    reveal_strlit("TCS13");
    reveal_strlit("CGW1");
    reveal_strlit("LVR12");
    reveal_strlit("WHL_SPD11");
    reveal_strlit("SCC14");
    reveal_strlit("kph");
    reveal_strlit("mph");
    assert("CLU11"@[0] != "SAS11"@[0]);
    assert("CLU11"@[0] != "TCS13"@[0]);
    assert("CLU11"@.len() != "CGW1"@.len());
    assert("CLU11"@[0] != "LVR12"@[0]);
    assert("CLU11"@.len() != "WHL_SPD11"@.len());
    assert("CLU11"@[0] != "SCC14"@[0]);
    assert("SAS11"@[0] != "TCS13"@[0]);
    assert("SAS11"@.len() != "CGW1"@.len());
    assert("SAS11"@[0] != "LVR12"@[0]);
    assert("SAS11"@.len() != "WHL_SPD11"@.len());
    assert("SAS11"@[1] != "SCC14"@[1]);
    assert("TCS13"@.len() != "CGW1"@.len());
    assert("TCS13"@[0] != "LVR12"@[0]);
    assert("TCS13"@.len() != "WHL_SPD11"@.len());
    assert("TCS13"@[0] != "SCC14"@[0]);
    assert("CGW1"@.len() != "LVR12"@.len());
    assert("CGW1"@.len() != "WHL_SPD11"@.len());
    assert("CGW1"@.len() != "SCC14"@.len());
    assert("LVR12"@.len() != "WHL_SPD11"@.len());
    assert("LVR12"@[0] != "SCC14"@[0]);
    assert("WHL_SPD11"@.len() != "SCC14"@.len());
    assert("kph"@[0] != "mph"@[0]);
}

/// A `CLU11` message carrying a speed in `kph` or `mph` sets the vehicle speed
/// to that value with the matching conversion and takes the message's time;
/// any other `CLU11` message leaves the state as it was.
pub proof fn lemma_g80_cluster_sets_speed(s: VehicleStateModel, message: DecodedCanMessage)
    requires
        message.message_name@ == "CLU11"@,
    ensures
        (number_signal(message, "CF_Clu_Vanz"@) is Some && enumeration_signal(message, "CF_Clu_SPEED_UNIT"@)
            == Some("kph"@)) ==> g80_update(s, message).vehicle_speed_mps == Some(
            Measurement { value_bits: number_signal(message, "CF_Clu_Vanz"@)->0, conversion: SiConversion::KphToMps },
        ) && g80_update(s, message).timestamp_ns == message.context.timestamp_ns,
        (number_signal(message, "CF_Clu_Vanz"@) is Some && enumeration_signal(message, "CF_Clu_SPEED_UNIT"@)
            == Some("mph"@)) ==> g80_update(s, message).vehicle_speed_mps == Some(
            Measurement { value_bits: number_signal(message, "CF_Clu_Vanz"@)->0, conversion: SiConversion::MphToMps },
        ) && g80_update(s, message).timestamp_ns == message.context.timestamp_ns,
        !(number_signal(message, "CF_Clu_Vanz"@) is Some && (enumeration_signal(message, "CF_Clu_SPEED_UNIT"@)
            == Some("kph"@) || enumeration_signal(message, "CF_Clu_SPEED_UNIT"@) == Some("mph"@)))
            ==> g80_update(s, message) == s,
{
    lemma_mapped_names_differ();
}

/// A `SAS11` message sets the steering angle, in degrees, to the decoded
/// angle when it carries one, keeps it otherwise, and takes the message's time.
pub proof fn lemma_g80_steering_sets_angle(s: VehicleStateModel, message: DecodedCanMessage)
    requires
        message.message_name@ == "SAS11"@,
    ensures
        g80_update(s, message).steering.angle_rad == (match number_signal(message, "SAS_Angle"@) {
            Some(a) => Some(Measurement { value_bits: a, conversion: SiConversion::DegToRad }),
            None => s.steering.angle_rad,
        }),
        g80_update(s, message).timestamp_ns == message.context.timestamp_ns,
{
    lemma_mapped_names_differ();
}

/// A `TCS13` message carrying `DriverOverride = v` reports the brake pressed
/// exactly when `v == 2`, whatever was reported before; without the signal the
/// brake state is kept. The message's time is taken in either case.
pub proof fn lemma_g80_brake_follows_driver_override(s: VehicleStateModel, message: DecodedCanMessage)
    requires
        message.message_name@ == "TCS13"@,
    ensures
        g80_update(s, message).brake.pressed == (match number_signal(message, "DriverOverride"@) {
            Some(v) => Some(f64_equal(v, F64_TWO_BITS)),
            None => s.brake.pressed,
        }),
        g80_update(s, message).timestamp_ns == message.context.timestamp_ns,
{
    lemma_mapped_names_differ();
}

/// Each field changes only through its own message; the fields this adapter
/// does not map never change.
pub proof fn lemma_g80_fields_change_only_through_their_message(s: VehicleStateModel, message: DecodedCanMessage)
    ensures
        g80_update(s, message).vehicle_speed_mps != s.vehicle_speed_mps ==> message.message_name@ == "CLU11"@,
        g80_update(s, message).steering != s.steering ==> message.message_name@ == "SAS11"@,
        g80_update(s, message).brake != s.brake ==> message.message_name@ == "TCS13"@,
        g80_update(s, message).steering.torque_nm == s.steering.torque_nm,
        g80_update(s, message).acceleration_mps2 == s.acceleration_mps2,
        g80_update(s, message).wheels == s.wheels,
        g80_update(s, message).accelerator == s.accelerator,
        g80_update(s, message).gear == s.gear,
        g80_update(s, message).cruise == s.cruise,
        g80_update(s, message).doors == s.doors,
        g80_update(s, message).seatbelts == s.seatbelts,
        g80_update(s, message).night_mode == s.night_mode,
{
    lemma_mapped_names_differ();
}

/// Applying the same message twice has the effect of applying it once.
pub proof fn lemma_g80_update_is_idempotent(s: VehicleStateModel, message: DecodedCanMessage)
    ensures
        g80_update(g80_update(s, message), message) == g80_update(s, message),
{
}

/// The read-only state adapter for the Genesis G80 2017.
#[derive(Debug)]
pub struct GenesisG80Adapter {
    state: VehicleState,
}

impl View for GenesisG80Adapter {
    type V = VehicleStateModel;

    closed spec fn view(&self) -> VehicleStateModel {
        self.state@
    }
}

impl Default for GenesisG80Adapter {
    fn default() -> (a: Self)
        ensures
            a@ == unobserved_state(),
    {
        GenesisG80Adapter { state: VehicleState::default() }
    }
}

impl GenesisG80Adapter {
    fn number(message: &DecodedCanMessage, signal: &str) -> (r: Option<u64>)
        ensures
            r == number_signal(*message, signal@),
    {
        match message.signals.get(signal) {
            Some(SignalValue::Number(value)) => Some(*value),
            _ => None,
        }
    }

    fn unit(message: &DecodedCanMessage) -> (r: Option<&String>)
        ensures
            match r {
                Some(text) => enumeration_signal(*message, "CF_Clu_SPEED_UNIT"@) == Some(text@),
                None => enumeration_signal(*message, "CF_Clu_SPEED_UNIT"@) is None,
            },
    {
        match message.signals.get("CF_Clu_SPEED_UNIT") {
            Some(SignalValue::Enumeration(value)) => Some(value),
            _ => None,
        }
    }
}

impl ManufacturerAdapter for GenesisG80Adapter {
    type Error = ();

    fn apply(&mut self, message: &DecodedCanMessage) -> (r: Result<(), ()>)
        ensures
            r is Ok,
            final(self)@ == g80_update(old(self)@, *message),
    {
        if text_is(&message.message_name, "CLU11") {
            let speed = match Self::number(message, "CF_Clu_Vanz") {
                Some(speed) => speed,
                None => return Ok(()),
            };
            let conversion = match Self::unit(message) {
                Some(unit) => if text_is(unit, "kph") {
                    SiConversion::KphToMps
                } else if text_is(unit, "mph") {
                    SiConversion::MphToMps
                } else {
                    return Ok(());
                },
                None => return Ok(()),
            };
            self.state.vehicle_speed_mps = Some(Measurement { value_bits: speed, conversion });
        } else if text_is(&message.message_name, "SAS11") {
            if let Some(angle_deg) = Self::number(message, "SAS_Angle") {
                self.state.steering.angle_rad = Some(
                    Measurement { value_bits: angle_deg, conversion: SiConversion::DegToRad },
                );
            }
        } else if text_is(&message.message_name, "TCS13") {
            if let Some(driver_override) = Self::number(message, "DriverOverride") {
                self.state.brake.pressed = Some(f64_bits_equal(driver_override, F64_TWO_BITS));
            }
        } else {
            return Ok(());
        }
        self.state.timestamp_ns = message.context.timestamp_ns;
        Ok(())
    }

    fn vehicle_state(&self) -> (r: &VehicleState)
        ensures
            r@ == self@,
    {
        &self.state
    }
}

} // verus!
