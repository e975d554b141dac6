//! Maps Genesis G80 2017 legacy decoded signals into the canonical vehicle
//! state.

use vstd::prelude::*;
use crate::adapter::ManufacturerAdapter;
use crate::decoded::{DecodedCanMessage, SignalValue, enumeration_signal, number_signal, text_is};
use crate::float_bits::{
    F64_TWO_BITS, F64_ZERO_BITS, f64_bits_equal, f64_bits_to_u8_saturating, f64_equal,
    f64_to_u8_saturating,
};
use crate::genesis_g80::{
    brake_override_update, cluster_update, lemma_mapped_names_differ, speed_conversion, stamped,
    steering_update,
};
use crate::vehicle_state::{
    CruiseState, GearPosition, GearState, Measurement, SiConversion, VehicleState,
    VehicleStateModel, WheelPosition, WheelState, unobserved_state,
};

verus! {

/// The gear lever position for a raw `CF_Lvr_Gear` value.
pub open spec fn gear_position_of(raw: u8) -> GearPosition {
    if raw == 0 {
        GearPosition::Park
    } else if raw == 7 {
        GearPosition::Reverse
    } else if raw == 6 {
        GearPosition::Neutral
    } else if raw == 5 || raw == 8 {
        GearPosition::Drive
    } else {
        GearPosition::Unspecified
    }
}

/// Whether cruise control is enabled, for a raw `ACCMode` value; unknown
/// values give `None`.
pub open spec fn cruise_enabled_of(raw: u8) -> Option<bool> {
    if raw == 1 {
        Some(true)
    } else if raw == 0 || (2 <= raw && raw <= 4) {
        Some(false)
    } else {
        None
    }
}

/// `i` is the first position in `wheels` that holds the wheel at `position`.
pub open spec fn is_first_wheel(wheels: Seq<WheelState>, position: WheelPosition, i: int) -> bool {
    &&& 0 <= i < wheels.len()
    &&& wheels[i].position == position
    &&& forall|j: int| 0 <= j < i ==> wheels[j].position != position
}

/// `wheels` with the speed of the wheel at `position` set: the first entry
/// for that wheel is replaced, or an entry is added at the end.
pub open spec fn put_wheel_speed(wheels: Seq<WheelState>, position: WheelPosition, speed: Measurement) -> Seq<WheelState> {
    let entry = WheelState { position, speed_mps: Some(speed) };
    if exists|k: int| is_first_wheel(wheels, position, k) {
        wheels.update(choose|k: int| is_first_wheel(wheels, position, k), entry)
    } else {
        wheels.push(entry)
    }
}

/// One wheel of a `WHL_SPD11` message: the speed is in kilometres per hour.
pub open spec fn wheel_step(wheels: Seq<WheelState>, message: DecodedCanMessage, signal: Seq<char>, position: WheelPosition) -> Seq<WheelState> {
    match number_signal(message, signal) {
        Some(speed) => put_wheel_speed(wheels, position, Measurement { value_bits: speed, conversion: SiConversion::KphToMps }),
        None => wheels,
    }
}

/// `s` with the speed of the wheel at `position` set from kilometres per hour.
pub open spec fn with_wheel_speed(s: VehicleStateModel, position: WheelPosition, speed_kph_bits: u64) -> VehicleStateModel {
    VehicleStateModel {
        wheels: put_wheel_speed(
            s.wheels,
            position,
            Measurement { value_bits: speed_kph_bits, conversion: SiConversion::KphToMps },
        ),
        ..s
    }
}

/// The four wheels of a `WHL_SPD11` message, front left to rear right.
pub open spec fn wheel_speeds_update(wheels: Seq<WheelState>, message: DecodedCanMessage) -> Seq<WheelState> {
    let w1 = wheel_step(wheels, message, "WHL_SPD_FL"@, WheelPosition::FrontLeft);
    let w2 = wheel_step(w1, message, "WHL_SPD_FR"@, WheelPosition::FrontRight);
    let w3 = wheel_step(w2, message, "WHL_SPD_RL"@, WheelPosition::RearLeft);
    wheel_step(w3, message, "WHL_SPD_RR"@, WheelPosition::RearRight)
}

/// The longitudinal acceleration of a `TCS13` message, when present.
pub open spec fn acceleration_update(s: VehicleStateModel, message: DecodedCanMessage) -> VehicleStateModel {
    match number_signal(message, "ACCEL_REF_ACC"@) {
        Some(a) => VehicleStateModel {
            acceleration_mps2: Some(Measurement { value_bits: a, conversion: SiConversion::Identity }),
            ..s
        },
        None => s,
    }
}

/// Whether the low beam is on, for a `CGW1` message.
pub open spec fn night_mode_of(message: DecodedCanMessage) -> Option<bool> {
    match number_signal(message, "CF_Gway_HeadLampLow"@) {
        Some(v) => Some(!f64_equal(v, F64_ZERO_BITS)),
        None => None,
    }
}

/// Whether cruise control is enabled, for an `SCC14` message.
pub open spec fn cruise_of(message: DecodedCanMessage) -> Option<bool> {
    match number_signal(message, "ACCMode"@) {
        Some(v) => cruise_enabled_of(f64_to_u8_saturating(v)),
        None => None,
    }
}

/// A `LVR12` message sets the gear position when the gear signal is present.
pub open spec fn gear_update(s: VehicleStateModel, message: DecodedCanMessage) -> VehicleStateModel {
    match number_signal(message, "CF_Lvr_Gear"@) {
        Some(g) => VehicleStateModel {
            gear: GearState { position: gear_position_of(f64_to_u8_saturating(g)) },
            ..s
        },
        None => s,
    }
}

/// What one message does to the state of a [`GenesisG80LegacyAdapter`].
/// Messages other than `CLU11`, `SAS11`, `TCS13`, `CGW1`, `LVR12`,
/// `WHL_SPD11` and `SCC14` change nothing.
pub open spec fn legacy_update(s: VehicleStateModel, message: DecodedCanMessage) -> VehicleStateModel {
    let name = message.message_name@;
    if name == "CLU11"@ {
        cluster_update(s, message)
    } else if name == "SAS11"@ {
        steering_update(s, message)
    } else if name == "TCS13"@ {
        stamped(brake_override_update(acceleration_update(s, message), message), message)
    } else if name == "CGW1"@ {
        stamped(VehicleStateModel { night_mode: night_mode_of(message), ..s }, message)
    } else if name == "LVR12"@ {
        stamped(gear_update(s, message), message)
    } else if name == "WHL_SPD11"@ {
        stamped(VehicleStateModel { wheels: wheel_speeds_update(s.wheels, message), ..s }, message)
    } else if name == "SCC14"@ {
        stamped(VehicleStateModel { cruise: CruiseState { enabled: cruise_of(message) }, ..s }, message)
    } else {
        s
    }
}

/// No two entries of `wheels` describe the same wheel.
pub open spec fn wheel_positions_distinct(wheels: Seq<WheelState>) -> bool {
    forall|i: int, j: int| 0 <= i < j < wheels.len() ==> #[trigger] wheels[i].position != #[trigger] wheels[j].position
}

/// The first entry for the wheel at `position` exists and is `entry`.
spec fn first_wheel_is(wheels: Seq<WheelState>, position: WheelPosition, entry: WheelState) -> bool {
    exists|k: int| is_first_wheel(wheels, position, k) && wheels[k] == entry
}

/// The entry that `put_wheel_speed` writes.
spec fn wheel_entry(position: WheelPosition, speed_kph_bits: u64) -> WheelState {
    WheelState {
        position,
        speed_mps: Some(Measurement { value_bits: speed_kph_bits, conversion: SiConversion::KphToMps }),
    }
}

proof fn lemma_first_wheel_exists(wheels: Seq<WheelState>, position: WheelPosition, j: int)
    requires
        0 <= j < wheels.len(),
        wheels[j].position == position,
    ensures
        exists|k: int| is_first_wheel(wheels, position, k),
    decreases j,
{
    if exists|k: int| 0 <= k < j && wheels[k].position == position {
        let k = choose|k: int| 0 <= k < j && wheels[k].position == position;
        lemma_first_wheel_exists(wheels, position, k);
    } else {
        assert(is_first_wheel(wheels, position, j));
    }
}

proof fn lemma_first_wheel_unique(wheels: Seq<WheelState>, position: WheelPosition, a: int, b: int)
    requires
        is_first_wheel(wheels, position, a),
        is_first_wheel(wheels, position, b),
    ensures
        a == b,
{
    if a < b {
        assert(wheels[a].position == position);
    } else if b < a {
        assert(wheels[b].position == position);
    }
}

/// After `put_wheel_speed`, the first entry for that wheel is the one written.
proof fn lemma_put_wheel_writes(wheels: Seq<WheelState>, position: WheelPosition, speed_kph_bits: u64)
    ensures
        first_wheel_is(
            put_wheel_speed(wheels, position, Measurement { value_bits: speed_kph_bits, conversion: SiConversion::KphToMps }),
            position,
            wheel_entry(position, speed_kph_bits),
        ),
{
    let speed = Measurement { value_bits: speed_kph_bits, conversion: SiConversion::KphToMps };
    let out = put_wheel_speed(wheels, position, speed);
    if exists|k: int| is_first_wheel(wheels, position, k) {
        let c = choose|k: int| is_first_wheel(wheels, position, k);
        assert(is_first_wheel(out, position, c));
    } else {
        assert forall|j: int| 0 <= j < wheels.len() implies wheels[j].position != position by {
            if wheels[j].position == position {
                lemma_first_wheel_exists(wheels, position, j);
            }
        }
        assert(is_first_wheel(out, position, wheels.len() as int));
    }
}

/// Setting the speed of another wheel keeps the first entry for `position`.
proof fn lemma_put_other_wheel_keeps(wheels: Seq<WheelState>, position: WheelPosition, entry: WheelState, other: WheelPosition, speed: Measurement)
    requires
        first_wheel_is(wheels, position, entry),
        other != position,
    ensures
        first_wheel_is(put_wheel_speed(wheels, other, speed), position, entry),
{
    let k = choose|k: int| is_first_wheel(wheels, position, k) && wheels[k] == entry;
    let out = put_wheel_speed(wheels, other, speed);
    if exists|c: int| is_first_wheel(wheels, other, c) {
        let c = choose|c: int| is_first_wheel(wheels, other, c);
        assert(c != k);
        assert(is_first_wheel(out, position, k) && out[k] == entry);
    } else {
        assert(is_first_wheel(out, position, k) && out[k] == entry);
    }
}

/// Writing the entry that is already first for that wheel changes nothing.
proof fn lemma_put_wheel_again(wheels: Seq<WheelState>, position: WheelPosition, speed_kph_bits: u64)
    requires
        first_wheel_is(wheels, position, wheel_entry(position, speed_kph_bits)),
    ensures
        put_wheel_speed(
            wheels,
            position,
            Measurement { value_bits: speed_kph_bits, conversion: SiConversion::KphToMps },
        ) == wheels,
{
    let k = choose|k: int| is_first_wheel(wheels, position, k) && wheels[k] == wheel_entry(position, speed_kph_bits);
    let c = choose|c: int| is_first_wheel(wheels, position, c);
    lemma_first_wheel_unique(wheels, position, k, c);
    assert(wheels.update(c, wheel_entry(position, speed_kph_bits)) =~= wheels);
}

/// `put_wheel_speed` keeps at most one entry per wheel.
pub proof fn lemma_put_wheel_keeps_positions_distinct(wheels: Seq<WheelState>, position: WheelPosition, speed: Measurement)
    requires
        wheel_positions_distinct(wheels),
    ensures
        wheel_positions_distinct(put_wheel_speed(wheels, position, speed)),
{
    let out = put_wheel_speed(wheels, position, speed);
    if exists|k: int| is_first_wheel(wheels, position, k) {
        let c = choose|k: int| is_first_wheel(wheels, position, k);
        assert forall|i: int, j: int| 0 <= i < j < out.len() implies #[trigger] out[i].position != #[trigger] out[j].position by {
            assert(out[i].position == wheels[i].position);
            assert(out[j].position == wheels[j].position);
        }
    } else {
        assert forall|j: int| 0 <= j < wheels.len() implies wheels[j].position != position by {
            if wheels[j].position == position {
                lemma_first_wheel_exists(wheels, position, j);
            }
        }
        assert forall|i: int, j: int| 0 <= i < j < out.len() implies #[trigger] out[i].position != #[trigger] out[j].position by {
            if j < wheels.len() {
                assert(out[i] == wheels[i]);
                assert(out[j] == wheels[j]);
            }
        }
    }
}

proof fn lemma_wheel_step_keeps(wheels: Seq<WheelState>, message: DecodedCanMessage, signal: Seq<char>, other: WheelPosition, position: WheelPosition, entry: WheelState)
    requires
        first_wheel_is(wheels, position, entry),
        other != position,
    ensures
        first_wheel_is(wheel_step(wheels, message, signal, other), position, entry),
{
    if let Some(speed) = number_signal(message, signal) {
        lemma_put_other_wheel_keeps(wheels, position, entry, other, Measurement { value_bits: speed, conversion: SiConversion::KphToMps });
    }
}

/// Applying the same wheel speeds twice has the effect of applying them once.
proof fn lemma_wheel_speeds_update_is_idempotent(wheels: Seq<WheelState>, message: DecodedCanMessage)
    ensures
        wheel_speeds_update(wheel_speeds_update(wheels, message), message) == wheel_speeds_update(wheels, message),
{
    let fl = "WHL_SPD_FL"@;
    let fr = "WHL_SPD_FR"@;
    let rl = "WHL_SPD_RL"@;
    let rr = "WHL_SPD_RR"@;
    let w1 = wheel_step(wheels, message, fl, WheelPosition::FrontLeft);
    let w2 = wheel_step(w1, message, fr, WheelPosition::FrontRight);
    let w3 = wheel_step(w2, message, rl, WheelPosition::RearLeft);
    let w4 = wheel_step(w3, message, rr, WheelPosition::RearRight);
    if let Some(v) = number_signal(message, fl) {
        let e = wheel_entry(WheelPosition::FrontLeft, v);
        lemma_put_wheel_writes(wheels, WheelPosition::FrontLeft, v);
        lemma_wheel_step_keeps(w1, message, fr, WheelPosition::FrontRight, WheelPosition::FrontLeft, e);
        lemma_wheel_step_keeps(w2, message, rl, WheelPosition::RearLeft, WheelPosition::FrontLeft, e);
        lemma_wheel_step_keeps(w3, message, rr, WheelPosition::RearRight, WheelPosition::FrontLeft, e);
        lemma_put_wheel_again(w4, WheelPosition::FrontLeft, v);
    }
    assert(wheel_step(w4, message, fl, WheelPosition::FrontLeft) == w4);
    if let Some(v) = number_signal(message, fr) {
        let e = wheel_entry(WheelPosition::FrontRight, v);
        lemma_put_wheel_writes(w1, WheelPosition::FrontRight, v);
        lemma_wheel_step_keeps(w2, message, rl, WheelPosition::RearLeft, WheelPosition::FrontRight, e);
        lemma_wheel_step_keeps(w3, message, rr, WheelPosition::RearRight, WheelPosition::FrontRight, e);
        lemma_put_wheel_again(w4, WheelPosition::FrontRight, v);
    }
    assert(wheel_step(w4, message, fr, WheelPosition::FrontRight) == w4);
    if let Some(v) = number_signal(message, rl) {
        let e = wheel_entry(WheelPosition::RearLeft, v);
        lemma_put_wheel_writes(w2, WheelPosition::RearLeft, v);
        lemma_wheel_step_keeps(w3, message, rr, WheelPosition::RearRight, WheelPosition::RearLeft, e);
        lemma_put_wheel_again(w4, WheelPosition::RearLeft, v);
    }
    assert(wheel_step(w4, message, rl, WheelPosition::RearLeft) == w4);
    if let Some(v) = number_signal(message, rr) {
        lemma_put_wheel_writes(w3, WheelPosition::RearRight, v);
        lemma_put_wheel_again(w4, WheelPosition::RearRight, v);
    }
    assert(wheel_step(w4, message, rr, WheelPosition::RearRight) == w4);
}


/// A message other than `CLU11`, `SAS11`, `TCS13`, `CGW1`, `LVR12`,
/// `WHL_SPD11` and `SCC14` leaves the state as it was.
pub proof fn lemma_legacy_ignores_unknown_messages(s: VehicleStateModel, message: DecodedCanMessage)
    requires
        message.message_name@ != "CLU11"@,
        message.message_name@ != "SAS11"@,
        message.message_name@ != "TCS13"@,
        message.message_name@ != "CGW1"@,
        message.message_name@ != "LVR12"@,
        message.message_name@ != "WHL_SPD11"@,
        message.message_name@ != "SCC14"@,
    ensures
        legacy_update(s, message) == s,
{
}

/// A `CLU11` message whose speed unit is neither `kph` nor `mph`, or that
/// carries no unit, leaves the state as it was.
pub proof fn lemma_legacy_ignores_unknown_speed_units(s: VehicleStateModel, message: DecodedCanMessage)
    requires
        message.message_name@ == "CLU11"@,
        speed_conversion(message) is None,
    ensures
        legacy_update(s, message) == s,
{
}

/// The observation time only ever becomes that of the applied message.
pub proof fn lemma_legacy_timestamp_comes_from_the_message(s: VehicleStateModel, message: DecodedCanMessage)
    ensures
        legacy_update(s, message).timestamp_ns == s.timestamp_ns
            || legacy_update(s, message).timestamp_ns == message.context.timestamp_ns,
{
}


/// Every applied message keeps at most one wheel entry per wheel.
pub proof fn lemma_legacy_keeps_wheel_positions_distinct(s: VehicleStateModel, message: DecodedCanMessage)
    requires
        wheel_positions_distinct(s.wheels),
    ensures
        wheel_positions_distinct(legacy_update(s, message).wheels),
{
    if message.message_name@ == "WHL_SPD11"@ {
        let fl = "WHL_SPD_FL"@;
        let fr = "WHL_SPD_FR"@;
        let rl = "WHL_SPD_RL"@;
        let rr = "WHL_SPD_RR"@;
        let w0 = s.wheels;
        let w1 = wheel_step(w0, message, fl, WheelPosition::FrontLeft);
        let w2 = wheel_step(w1, message, fr, WheelPosition::FrontRight);
        let w3 = wheel_step(w2, message, rl, WheelPosition::RearLeft);
        if let Some(v) = number_signal(message, fl) {
            lemma_put_wheel_keeps_positions_distinct(w0, WheelPosition::FrontLeft, Measurement { value_bits: v, conversion: SiConversion::KphToMps });
        }
        if let Some(v) = number_signal(message, fr) {
            lemma_put_wheel_keeps_positions_distinct(w1, WheelPosition::FrontRight, Measurement { value_bits: v, conversion: SiConversion::KphToMps });
        }
        if let Some(v) = number_signal(message, rl) {
            lemma_put_wheel_keeps_positions_distinct(w2, WheelPosition::RearLeft, Measurement { value_bits: v, conversion: SiConversion::KphToMps });
        }
        if let Some(v) = number_signal(message, rr) {
            lemma_put_wheel_keeps_positions_distinct(w3, WheelPosition::RearRight, Measurement { value_bits: v, conversion: SiConversion::KphToMps });
        }
    }
}

/// A scalar is observed only through a message that carries its signal:
/// a scalar that was `None` stays `None` unless the message carries it.
pub proof fn lemma_legacy_unobserved_scalars_stay_unobserved(s: VehicleStateModel, message: DecodedCanMessage)
    ensures
        legacy_update(s, message).vehicle_speed_mps is Some ==> s.vehicle_speed_mps is Some
            || number_signal(message, "CF_Clu_Vanz"@) is Some,
        legacy_update(s, message).acceleration_mps2 is Some ==> s.acceleration_mps2 is Some
            || number_signal(message, "ACCEL_REF_ACC"@) is Some,
        legacy_update(s, message).steering.angle_rad is Some ==> s.steering.angle_rad is Some
            || number_signal(message, "SAS_Angle"@) is Some,
        legacy_update(s, message).brake.pressed is Some ==> s.brake.pressed is Some
            || number_signal(message, "DriverOverride"@) is Some,
        legacy_update(s, message).night_mode is Some ==> s.night_mode is Some
            || number_signal(message, "CF_Gway_HeadLampLow"@) is Some,
        legacy_update(s, message).cruise.enabled is Some ==> s.cruise.enabled is Some
            || number_signal(message, "ACCMode"@) is Some,
{
}

/// No signal outside the mapping reaches the state: two messages that agree
/// on their name, their timestamp and every mapped signal have the same effect.
pub proof fn lemma_legacy_reads_only_mapped_signals(s: VehicleStateModel, m1: DecodedCanMessage, m2: DecodedCanMessage)
    requires
        m1.message_name@ == m2.message_name@,
        m1.context.timestamp_ns == m2.context.timestamp_ns,
        enumeration_signal(m1, "CF_Clu_SPEED_UNIT"@) == enumeration_signal(m2, "CF_Clu_SPEED_UNIT"@),
        number_signal(m1, "CF_Clu_Vanz"@) == number_signal(m2, "CF_Clu_Vanz"@),
        number_signal(m1, "SAS_Angle"@) == number_signal(m2, "SAS_Angle"@),
        number_signal(m1, "ACCEL_REF_ACC"@) == number_signal(m2, "ACCEL_REF_ACC"@),
        number_signal(m1, "DriverOverride"@) == number_signal(m2, "DriverOverride"@),
        number_signal(m1, "CF_Gway_HeadLampLow"@) == number_signal(m2, "CF_Gway_HeadLampLow"@),
        number_signal(m1, "CF_Lvr_Gear"@) == number_signal(m2, "CF_Lvr_Gear"@),
        number_signal(m1, "WHL_SPD_FL"@) == number_signal(m2, "WHL_SPD_FL"@),
        number_signal(m1, "WHL_SPD_FR"@) == number_signal(m2, "WHL_SPD_FR"@),
        number_signal(m1, "WHL_SPD_RL"@) == number_signal(m2, "WHL_SPD_RL"@),
        number_signal(m1, "WHL_SPD_RR"@) == number_signal(m2, "WHL_SPD_RR"@),
        number_signal(m1, "ACCMode"@) == number_signal(m2, "ACCMode"@),
    ensures
        legacy_update(s, m1) == legacy_update(s, m2),
{
}

/// With at most one entry per wheel, setting the speed of a wheel that has an
/// entry replaces that entry in place.
pub proof fn lemma_put_wheel_speed_in_place(wheels: Seq<WheelState>, position: WheelPosition, speed: Measurement, i: int)
    requires
        wheel_positions_distinct(wheels),
        0 <= i < wheels.len(),
        wheels[i].position == position,
    ensures
        put_wheel_speed(wheels, position, speed) == wheels.update(i, WheelState { position, speed_mps: Some(speed) }),
{
    assert(is_first_wheel(wheels, position, i)) by {
        assert forall|j: int| 0 <= j < i implies wheels[j].position != position by {
            assert(wheels[j].position != wheels[i].position);
        }
    }
    let c = choose|k: int| is_first_wheel(wheels, position, k);
    lemma_first_wheel_unique(wheels, position, c, i);
}

/// Setting the speed of a wheel that has no entry appends one.
pub proof fn lemma_put_wheel_speed_appends(wheels: Seq<WheelState>, position: WheelPosition, speed: Measurement)
    requires
        forall|j: int| 0 <= j < wheels.len() ==> wheels[j].position != position,
    ensures
        put_wheel_speed(wheels, position, speed) == wheels.push(WheelState { position, speed_mps: Some(speed) }),
{
}

/// `b` keeps the positions of the entries of `a`, keeps every entry of `a`
/// for the wheel at `p`, and adds no entry for that wheel.
spec fn keeps_wheel(a: Seq<WheelState>, b: Seq<WheelState>, p: WheelPosition) -> bool {
    &&& a.len() <= b.len()
    &&& forall|i: int| 0 <= i < a.len() ==> #[trigger] b[i].position == a[i].position
    &&& forall|i: int| 0 <= i < a.len() && a[i].position == p ==> #[trigger] b[i] == a[i]
    &&& forall|i: int| a.len() <= i < b.len() ==> #[trigger] b[i].position != p
}

/// `b` keeps the positions of the entries of `a`.
spec fn keeps_positions(a: Seq<WheelState>, b: Seq<WheelState>) -> bool {
    &&& a.len() <= b.len()
    &&& forall|i: int| 0 <= i < a.len() ==> #[trigger] b[i].position == a[i].position
}

proof fn lemma_step_keeps_positions(wheels: Seq<WheelState>, message: DecodedCanMessage, signal: Seq<char>, q: WheelPosition)
    ensures
        keeps_positions(wheels, wheel_step(wheels, message, signal, q)),
{
    if let Some(v) = number_signal(message, signal) {
        let out = wheel_step(wheels, message, signal, q);
        assert forall|i: int| 0 <= i < wheels.len() implies #[trigger] out[i].position == wheels[i].position by {
            if exists|k: int| is_first_wheel(wheels, q, k) {
                let c = choose|k: int| is_first_wheel(wheels, q, k);
                if i == c {
                    assert(wheels[c].position == q);
                }
            }
        }
    }
}

proof fn lemma_step_keeps_other_wheel(wheels: Seq<WheelState>, message: DecodedCanMessage, signal: Seq<char>, q: WheelPosition, p: WheelPosition)
    requires
        q != p,
    ensures
        keeps_wheel(wheels, wheel_step(wheels, message, signal, q), p),
{
    lemma_step_keeps_positions(wheels, message, signal, q);
    if let Some(v) = number_signal(message, signal) {
        let out = wheel_step(wheels, message, signal, q);
        if exists|k: int| is_first_wheel(wheels, q, k) {
            let c = choose|k: int| is_first_wheel(wheels, q, k);
            assert forall|i: int| 0 <= i < wheels.len() && wheels[i].position == p implies #[trigger] out[i]
                == wheels[i] by {
                assert(i != c);
            }
        }
    }
}

proof fn lemma_keeps_wheel_trans(a: Seq<WheelState>, b: Seq<WheelState>, c: Seq<WheelState>, p: WheelPosition)
    requires
        keeps_wheel(a, b, p),
        keeps_wheel(b, c, p),
    ensures
        keeps_wheel(a, c, p),
{
    assert forall|i: int| 0 <= i < a.len() implies #[trigger] c[i].position == a[i].position by {
        assert(b[i].position == a[i].position);
    }
    assert forall|i: int| 0 <= i < a.len() && a[i].position == p implies #[trigger] c[i] == a[i] by {
        assert(b[i] == a[i]);
    }
    assert forall|i: int| a.len() <= i < c.len() implies #[trigger] c[i].position != p by {
        if i < b.len() {
            assert(b[i].position != p);
            assert(c[i].position == b[i].position);
        }
    }
}

proof fn lemma_keeps_positions_trans(a: Seq<WheelState>, b: Seq<WheelState>, c: Seq<WheelState>)
    requires
        keeps_positions(a, b),
        keeps_positions(b, c),
    ensures
        keeps_positions(a, c),
{
    assert forall|i: int| 0 <= i < a.len() implies #[trigger] c[i].position == a[i].position by {
        assert(b[i].position == a[i].position);
    }
}

/// What the steps of a `WHL_SPD11` message taken so far did to the wheel at
/// `p`, whose own signal is `signal`: without that signal its entries are
/// kept; once its step is `done`, its first entry holds the signal's value.
spec fn steps_done_for(w0: Seq<WheelState>, wj: Seq<WheelState>, message: DecodedCanMessage, signal: Seq<char>, p: WheelPosition, done: bool) -> bool {
    &&& number_signal(message, signal) is None ==> keeps_wheel(w0, wj, p)
    &&& (done && number_signal(message, signal) is Some) ==> first_wheel_is(
        wj,
        p,
        wheel_entry(p, number_signal(message, signal)->0),
    )
}

proof fn lemma_steps_done_start(w0: Seq<WheelState>, message: DecodedCanMessage, signal: Seq<char>, p: WheelPosition)
    ensures
        steps_done_for(w0, w0, message, signal, p, false),
{
}

proof fn lemma_steps_done_step(w0: Seq<WheelState>, wj: Seq<WheelState>, message: DecodedCanMessage, step_signal: Seq<char>, q: WheelPosition, signal: Seq<char>, p: WheelPosition, done: bool, is_own: bool)
    requires
        steps_done_for(w0, wj, message, signal, p, done),
        is_own ==> q == p && step_signal == signal && !done,
        !is_own ==> q != p,
    ensures
        steps_done_for(w0, wheel_step(wj, message, step_signal, q), message, signal, p, done || is_own),
{
    let next = wheel_step(wj, message, step_signal, q);
    if is_own {
        if let Some(v) = number_signal(message, signal) {
            lemma_put_wheel_writes(wj, p, v);
        } else {
            assert(next == wj);
        }
    } else {
        if let Some(v) = number_signal(message, signal) {
            if done {
                lemma_wheel_step_keeps(wj, message, step_signal, q, p, wheel_entry(p, v));
            }
        } else {
            lemma_step_keeps_other_wheel(wj, message, step_signal, q, p);
            lemma_keeps_wheel_trans(w0, wj, next, p);
        }
    }
}

/// A `WHL_SPD11` message sets the speed of each wheel whose signal it
/// carries: afterwards the one entry for that wheel holds the signal's value
/// in kilometres per hour. A wheel whose signal is missing keeps its entry,
/// and existing entries keep their positions. `signal` and `position` name
/// one wheel: `WHL_SPD_FL` the front left, `WHL_SPD_FR` the front right,
/// `WHL_SPD_RL` the rear left and `WHL_SPD_RR` the rear right.
pub proof fn lemma_legacy_wheel_speeds_land_on_their_wheels(s: VehicleStateModel, message: DecodedCanMessage, signal: Seq<char>, position: WheelPosition)
    requires
        message.message_name@ == "WHL_SPD11"@,
        wheel_positions_distinct(s.wheels),
        (signal == "WHL_SPD_FL"@ && position == WheelPosition::FrontLeft)
            || (signal == "WHL_SPD_FR"@ && position == WheelPosition::FrontRight)
            || (signal == "WHL_SPD_RL"@ && position == WheelPosition::RearLeft)
            || (signal == "WHL_SPD_RR"@ && position == WheelPosition::RearRight),
    ensures
        wheel_positions_distinct(legacy_update(s, message).wheels),
        s.wheels.len() <= legacy_update(s, message).wheels.len(),
        forall|i: int| 0 <= i < s.wheels.len() ==> #[trigger] legacy_update(s, message).wheels[i].position
            == s.wheels[i].position,
        number_signal(message, signal) is Some ==> exists|i: int| 0 <= i < legacy_update(s, message).wheels.len()
            && #[trigger] legacy_update(s, message).wheels[i] == (WheelState {
                position,
                speed_mps: Some(Measurement { value_bits: number_signal(message, signal)->0, conversion: SiConversion::KphToMps }),
            }),
        number_signal(message, signal) is Some ==> forall|i: int| 0 <= i < legacy_update(s, message).wheels.len()
            && #[trigger] legacy_update(s, message).wheels[i].position == position
            ==> legacy_update(s, message).wheels[i].speed_mps == Some(
                Measurement { value_bits: number_signal(message, signal)->0, conversion: SiConversion::KphToMps },
            ),
        number_signal(message, signal) is None ==> forall|i: int| 0 <= i < legacy_update(s, message).wheels.len()
            && #[trigger] legacy_update(s, message).wheels[i].position == position
            ==> i < s.wheels.len() && legacy_update(s, message).wheels[i] == s.wheels[i],
{
    lemma_mapped_names_differ();
    lemma_legacy_keeps_wheel_positions_distinct(s, message);
    let fl = "WHL_SPD_FL"@;
    let fr = "WHL_SPD_FR"@;
    let rl = "WHL_SPD_RL"@;
    let rr = "WHL_SPD_RR"@;
    let w0 = s.wheels;
    let w1 = wheel_step(w0, message, fl, WheelPosition::FrontLeft);
    let w2 = wheel_step(w1, message, fr, WheelPosition::FrontRight);
    let w3 = wheel_step(w2, message, rl, WheelPosition::RearLeft);
    let w4 = wheel_step(w3, message, rr, WheelPosition::RearRight);
    assert(w4 == legacy_update(s, message).wheels);
    lemma_step_keeps_positions(w0, message, fl, WheelPosition::FrontLeft);
    lemma_step_keeps_positions(w1, message, fr, WheelPosition::FrontRight);
    lemma_step_keeps_positions(w2, message, rl, WheelPosition::RearLeft);
    lemma_step_keeps_positions(w3, message, rr, WheelPosition::RearRight);
    lemma_keeps_positions_trans(w0, w1, w2);
    lemma_keeps_positions_trans(w0, w2, w3);
    lemma_keeps_positions_trans(w0, w3, w4);
    let own1 = position == WheelPosition::FrontLeft;
    let own2 = position == WheelPosition::FrontRight;
    let own3 = position == WheelPosition::RearLeft;
    let own4 = position == WheelPosition::RearRight;
    lemma_steps_done_start(w0, message, signal, position);
    lemma_steps_done_step(w0, w0, message, fl, WheelPosition::FrontLeft, signal, position, false, own1);
    lemma_steps_done_step(w0, w1, message, fr, WheelPosition::FrontRight, signal, position, own1, own2);
    lemma_steps_done_step(w0, w2, message, rl, WheelPosition::RearLeft, signal, position, own1 || own2, own3);
    lemma_steps_done_step(w0, w3, message, rr, WheelPosition::RearRight, signal, position, own1 || own2 || own3, own4);
    assert(steps_done_for(w0, w4, message, signal, position, true));
    if let Some(v) = number_signal(message, signal) {
        let e = wheel_entry(position, v);
        let c = choose|c: int| is_first_wheel(w4, position, c) && w4[c] == e;
        assert forall|i: int| 0 <= i < w4.len() && #[trigger] w4[i].position == position implies w4[i].speed_mps
            == e.speed_mps by {
            if i != c {
                assert(w4[i].position != w4[c].position);
            }
        }
    }
}

/// A `LVR12` message carrying `CF_Lvr_Gear` sets the gear from that value,
/// whatever gear was set before: `0` is park, `7` reverse, `6` neutral, `5`
/// and `8` drive, anything else unspecified (the value is truncated and
/// saturated to `0..=255`, NaN giving `0`). Without the signal the gear is
/// kept. The message's time is taken in either case.
pub proof fn lemma_legacy_gear_follows_the_lever(s: VehicleStateModel, message: DecodedCanMessage)
    requires
        message.message_name@ == "LVR12"@,
    ensures
        number_signal(message, "CF_Lvr_Gear"@) is None ==> legacy_update(s, message).gear == s.gear,
        number_signal(message, "CF_Lvr_Gear"@) is Some ==> {
            let c = f64_to_u8_saturating(number_signal(message, "CF_Lvr_Gear"@)->0);
            &&& c == 0 ==> legacy_update(s, message).gear.position == GearPosition::Park
            &&& c == 7 ==> legacy_update(s, message).gear.position == GearPosition::Reverse
            &&& c == 6 ==> legacy_update(s, message).gear.position == GearPosition::Neutral
            &&& (c == 5 || c == 8) ==> legacy_update(s, message).gear.position == GearPosition::Drive
            &&& !(c == 0 || c == 5 || c == 6 || c == 7 || c == 8) ==> legacy_update(s, message).gear.position
                == GearPosition::Unspecified
        },
        legacy_update(s, message).timestamp_ns == message.context.timestamp_ns,
{
    lemma_mapped_names_differ();
}

/// An `SCC14` message sets whether cruise control is enabled from `ACCMode`,
/// whatever was reported before: `1` is enabled, `0` and `2` to `4` are
/// disabled, other values and a missing signal are unknown (the value is
/// truncated and saturated to `0..=255`, NaN giving `0`). The message's time
/// is taken.
pub proof fn lemma_legacy_cruise_follows_acc_mode(s: VehicleStateModel, message: DecodedCanMessage)
    requires
        message.message_name@ == "SCC14"@,
    ensures
        number_signal(message, "ACCMode"@) is None ==> legacy_update(s, message).cruise.enabled is None,
        number_signal(message, "ACCMode"@) is Some ==> {
            let c = f64_to_u8_saturating(number_signal(message, "ACCMode"@)->0);
            &&& c == 1 ==> legacy_update(s, message).cruise.enabled == Some(true)
            &&& (c == 0 || (2 <= c && c <= 4)) ==> legacy_update(s, message).cruise.enabled == Some(false)
            &&& c >= 5 ==> legacy_update(s, message).cruise.enabled is None
        },
        legacy_update(s, message).timestamp_ns == message.context.timestamp_ns,
{
    lemma_mapped_names_differ();
}

/// A `CGW1` message reports night mode when the low beam signal is non-zero
/// (IEEE comparison, so NaN counts as on), and unknown without the signal.
pub proof fn lemma_legacy_night_mode_follows_the_low_beam(s: VehicleStateModel, message: DecodedCanMessage)
    requires
        message.message_name@ == "CGW1"@,
    ensures
        legacy_update(s, message).night_mode == (match number_signal(message, "CF_Gway_HeadLampLow"@) {
            Some(v) => Some(!f64_equal(v, F64_ZERO_BITS)),
            None => None,
        }),
        legacy_update(s, message).timestamp_ns == message.context.timestamp_ns,
{
    lemma_mapped_names_differ();
}

/// A `TCS13` message sets the acceleration to the decoded value and reports
/// the brake pressed exactly when `DriverOverride == 2`, whatever was reported
/// before; a missing signal keeps its field. The message's time is taken.
pub proof fn lemma_legacy_tcs_sets_acceleration_and_brake(s: VehicleStateModel, message: DecodedCanMessage)
    requires
        message.message_name@ == "TCS13"@,
    ensures
        legacy_update(s, message).acceleration_mps2 == (match number_signal(message, "ACCEL_REF_ACC"@) {
            Some(a) => Some(Measurement { value_bits: a, conversion: SiConversion::Identity }),
            None => s.acceleration_mps2,
        }),
        legacy_update(s, message).brake.pressed == (match number_signal(message, "DriverOverride"@) {
            Some(v) => Some(f64_equal(v, F64_TWO_BITS)),
            None => s.brake.pressed,
        }),
        legacy_update(s, message).timestamp_ns == message.context.timestamp_ns,
{
    lemma_mapped_names_differ();
}

/// A `SAS11` message sets the steering angle, in degrees, when it carries
/// one, keeps it otherwise, and takes the message's time.
pub proof fn lemma_legacy_steering_sets_angle(s: VehicleStateModel, message: DecodedCanMessage)
    requires
        message.message_name@ == "SAS11"@,
    ensures
        legacy_update(s, message).steering.angle_rad == (match number_signal(message, "SAS_Angle"@) {
            Some(a) => Some(Measurement { value_bits: a, conversion: SiConversion::DegToRad }),
            None => s.steering.angle_rad,
        }),
        legacy_update(s, message).timestamp_ns == message.context.timestamp_ns,
{
    lemma_mapped_names_differ();
}

/// A `CLU11` message carrying a speed in `kph` or `mph` sets the vehicle speed
/// to that value with the matching conversion and takes the message's time;
/// any other `CLU11` message leaves the state as it was.
pub proof fn lemma_legacy_cluster_sets_speed(s: VehicleStateModel, message: DecodedCanMessage)
    requires
        message.message_name@ == "CLU11"@,
    ensures
        (number_signal(message, "CF_Clu_Vanz"@) is Some && enumeration_signal(message, "CF_Clu_SPEED_UNIT"@)
            == Some("kph"@)) ==> legacy_update(s, message).vehicle_speed_mps == Some(
            Measurement { value_bits: number_signal(message, "CF_Clu_Vanz"@)->0, conversion: SiConversion::KphToMps },
        ) && legacy_update(s, message).timestamp_ns == message.context.timestamp_ns,
        (number_signal(message, "CF_Clu_Vanz"@) is Some && enumeration_signal(message, "CF_Clu_SPEED_UNIT"@)
            == Some("mph"@)) ==> legacy_update(s, message).vehicle_speed_mps == Some(
            Measurement { value_bits: number_signal(message, "CF_Clu_Vanz"@)->0, conversion: SiConversion::MphToMps },
        ) && legacy_update(s, message).timestamp_ns == message.context.timestamp_ns,
        !(number_signal(message, "CF_Clu_Vanz"@) is Some && (enumeration_signal(message, "CF_Clu_SPEED_UNIT"@)
            == Some("kph"@) || enumeration_signal(message, "CF_Clu_SPEED_UNIT"@) == Some("mph"@)))
            ==> legacy_update(s, message) == s,
{
    lemma_mapped_names_differ();
}

/// Each field changes only through its own message; the fields this adapter
/// does not map never change.
pub proof fn lemma_legacy_fields_change_only_through_their_message(s: VehicleStateModel, message: DecodedCanMessage)
    ensures
        legacy_update(s, message).vehicle_speed_mps != s.vehicle_speed_mps ==> message.message_name@ == "CLU11"@,
        legacy_update(s, message).steering != s.steering ==> message.message_name@ == "SAS11"@,
        legacy_update(s, message).acceleration_mps2 != s.acceleration_mps2 ==> message.message_name@ == "TCS13"@,
        legacy_update(s, message).brake != s.brake ==> message.message_name@ == "TCS13"@,
        legacy_update(s, message).night_mode != s.night_mode ==> message.message_name@ == "CGW1"@,
        legacy_update(s, message).gear != s.gear ==> message.message_name@ == "LVR12"@,
        legacy_update(s, message).wheels != s.wheels ==> message.message_name@ == "WHL_SPD11"@,
        legacy_update(s, message).cruise != s.cruise ==> message.message_name@ == "SCC14"@,
        legacy_update(s, message).steering.torque_nm == s.steering.torque_nm,
        legacy_update(s, message).accelerator == s.accelerator,
        legacy_update(s, message).doors == s.doors,
        legacy_update(s, message).seatbelts == s.seatbelts,
{
    lemma_mapped_names_differ();
}

/// Applying the same message twice has the effect of applying it once.
pub proof fn lemma_legacy_update_is_idempotent(s: VehicleStateModel, message: DecodedCanMessage)
    ensures
        legacy_update(legacy_update(s, message), message) == legacy_update(s, message),
{
    if message.message_name@ == "WHL_SPD11"@ {
        lemma_wheel_speeds_update_is_idempotent(s.wheels, message);
    }
}

/// The read-only state adapter for the Genesis G80 2017, legacy signal set.
#[derive(Debug)]
pub struct GenesisG80LegacyAdapter {
    state: VehicleState,
}

impl View for GenesisG80LegacyAdapter {
    type V = VehicleStateModel;

    closed spec fn view(&self) -> VehicleStateModel {
        self.state@
    }
}

impl Default for GenesisG80LegacyAdapter {
    fn default() -> (a: Self)
        ensures
            a@ == unobserved_state(),
    {
        GenesisG80LegacyAdapter { state: VehicleState::default() }
    }
}

impl GenesisG80LegacyAdapter {
    fn number(message: &DecodedCanMessage, signal: &str) -> (r: Option<u64>)
        ensures
            r == number_signal(*message, signal@),
    {
        match message.signals.get(signal) {
            Some(SignalValue::Number(value)) => Some(*value),
            _ => None,
        }
    }

    fn unit(message: &DecodedCanMessage) -> (r: Option<&String>)
        ensures
            match r {
                Some(text) => enumeration_signal(*message, "CF_Clu_SPEED_UNIT"@) == Some(text@),
                None => enumeration_signal(*message, "CF_Clu_SPEED_UNIT"@) is None,
            },
    {
        match message.signals.get("CF_Clu_SPEED_UNIT") {
            Some(SignalValue::Enumeration(value)) => Some(value),
            _ => None,
        }
    }

    fn gear_position(value_bits: u64) -> (g: GearPosition)
        ensures
            g == gear_position_of(f64_to_u8_saturating(value_bits)),
    {
        let raw = f64_bits_to_u8_saturating(value_bits);
        if raw == 0 {
            GearPosition::Park
        } else if raw == 7 {
            GearPosition::Reverse
        } else if raw == 6 {
            GearPosition::Neutral
        } else if raw == 5 || raw == 8 {
            GearPosition::Drive
        } else {
            GearPosition::Unspecified
        }
    }

    fn cruise_enabled(value_bits: u64) -> (r: Option<bool>)
        ensures
            r == cruise_enabled_of(f64_to_u8_saturating(value_bits)),
    {
        let raw = f64_bits_to_u8_saturating(value_bits);
        if raw == 1 {
            Some(true)
        } else if raw == 0 || (2 <= raw && raw <= 4) {
            Some(false)
        } else {
            None
        }
    }

    fn set_wheel_speed(&mut self, position: WheelPosition, speed_kph_bits: u64)
        ensures
            final(self)@ == with_wheel_speed(old(self)@, position, speed_kph_bits),
            wheel_positions_distinct(old(self)@.wheels) ==> wheel_positions_distinct(final(self)@.wheels),
    {
        let speed_mps = Measurement { value_bits: speed_kph_bits, conversion: SiConversion::KphToMps };
        let entry = WheelState { position, speed_mps: Some(speed_mps) };
        let ghost wheels = self.state.wheels@;
        let ghost s0 = self.state@;
        let n = self.state.wheels.len();
        let mut i: usize = 0;
        while i < n
            invariant
                n == self.state.wheels@.len(),
                self.state.wheels@ == wheels,
                self.state@ == s0,
                s0 == old(self)@,
                speed_mps == (Measurement { value_bits: speed_kph_bits, conversion: SiConversion::KphToMps }),
                entry == (WheelState { position, speed_mps: Some(speed_mps) }),
                i <= n,
                forall|j: int| 0 <= j < i ==> wheels[j].position != position,
            decreases n - i,
        {
            if self.state.wheels[i].position == position {
                proof {
                    assert(is_first_wheel(wheels, position, i as int));
                    let c = choose|k: int| is_first_wheel(wheels, position, k);
                    if c < i {
                        assert(wheels[c].position != position);
                    } else if c > i {
                        assert(wheels[i as int].position != position);
                    }
                    assert(c == i);
                    assert(put_wheel_speed(wheels, position, speed_mps) == wheels.update(i as int, entry));
                }
                self.state.wheels.set(i, entry);
                assert(self.state.wheels@ =~= put_wheel_speed(wheels, position, speed_mps));
                return;
            }
            i = i + 1;
        }
        assert(!exists|c: int| is_first_wheel(wheels, position, c));
        self.state.wheels.push(entry);
    }
}

impl ManufacturerAdapter for GenesisG80LegacyAdapter {
    type Error = ();

    fn apply(&mut self, message: &DecodedCanMessage) -> (r: Result<(), ()>)
        ensures
            r is Ok,
            final(self)@ == legacy_update(old(self)@, *message),
    {
        if text_is(&message.message_name, "CLU11") {
            let speed = match Self::number(message, "CF_Clu_Vanz") {
                Some(speed) => speed,
                None => return Ok(()),
            };
            let conversion = match Self::unit(message) {
                Some(unit) => if text_is(unit, "kph") {
                    SiConversion::KphToMps
                } else if text_is(unit, "mph") {
                    SiConversion::MphToMps
                } else {
                    return Ok(());
                },
                None => return Ok(()),
            };
            self.state.vehicle_speed_mps = Some(Measurement { value_bits: speed, conversion });
        } else if text_is(&message.message_name, "SAS11") {
            if let Some(angle_deg) = Self::number(message, "SAS_Angle") {
                self.state.steering.angle_rad = Some(
                    Measurement { value_bits: angle_deg, conversion: SiConversion::DegToRad },
                );
            }
        } else if text_is(&message.message_name, "TCS13") {
            if let Some(acceleration) = Self::number(message, "ACCEL_REF_ACC") {
                self.state.acceleration_mps2 = Some(
                    Measurement { value_bits: acceleration, conversion: SiConversion::Identity },
                );
            }
            if let Some(driver_override) = Self::number(message, "DriverOverride") {
                self.state.brake.pressed = Some(f64_bits_equal(driver_override, F64_TWO_BITS));
            }
        } else if text_is(&message.message_name, "CGW1") {
            self.state.night_mode = match Self::number(message, "CF_Gway_HeadLampLow") {
                Some(value) => Some(!f64_bits_equal(value, F64_ZERO_BITS)),
                None => None,
            };
        } else if text_is(&message.message_name, "LVR12") {
            if let Some(gear) = Self::number(message, "CF_Lvr_Gear") {
                self.state.gear.position = Self::gear_position(gear);
            }
        } else if text_is(&message.message_name, "WHL_SPD11") {
            if let Some(speed_kph) = Self::number(message, "WHL_SPD_FL") {
                self.set_wheel_speed(WheelPosition::FrontLeft, speed_kph);
            }
            if let Some(speed_kph) = Self::number(message, "WHL_SPD_FR") {
                self.set_wheel_speed(WheelPosition::FrontRight, speed_kph);
            }
            if let Some(speed_kph) = Self::number(message, "WHL_SPD_RL") {
                self.set_wheel_speed(WheelPosition::RearLeft, speed_kph);
            }
            if let Some(speed_kph) = Self::number(message, "WHL_SPD_RR") {
                self.set_wheel_speed(WheelPosition::RearRight, speed_kph);
            }
        } else if text_is(&message.message_name, "SCC14") {
            self.state.cruise.enabled = match Self::number(message, "ACCMode") {
                Some(value) => Self::cruise_enabled(value),
                None => None,
            };
        } else {
            return Ok(());
        }
        self.state.timestamp_ns = message.context.timestamp_ns;
        Ok(())
    }

    fn vehicle_state(&self) -> (r: &VehicleState)
        ensures
            r@ == self@,
    {
        &self.state
    }
}

} // verus!
