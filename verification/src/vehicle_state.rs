//! The read-only canonical vehicle state, kept apart from OEM signals.

use vstd::prelude::*;

verus! {

/// How the SI value of a measurement is obtained from the decoded value.
#[derive(Clone, Copy, Debug, PartialEq, Eq, Structural)]
pub enum SiConversion {
    /// The decoded value is already in SI units.
    Identity,
    /// Kilometres per hour to metres per second.
    KphToMps,
    /// Miles per hour to metres per second.
    MphToMps,
    /// Degrees to radians.
    DegToRad,
}

/// An observed scalar: the encoding of the decoded binary64 value and the
/// conversion that yields its SI value. The SI value is the decoded value
/// rounded to binary32, times the conversion's factor in binary32.
#[derive(Clone, Copy, Debug, PartialEq, Eq, Structural)]
pub struct Measurement {
    pub value_bits: u64,
    pub conversion: SiConversion,
}

/// A read-only snapshot of the canonical vehicle state. Scalars that were not
/// observed are `None`, never `0` or `false`.
#[derive(Clone, Debug, PartialEq)]
pub struct VehicleState {
    pub timestamp_ns: Option<u64>,
    pub vehicle_speed_mps: Option<Measurement>,
    pub acceleration_mps2: Option<Measurement>,
    pub wheels: Vec<WheelState>,
    pub steering: SteeringState,
    pub brake: BrakeState,
    pub accelerator: AcceleratorState,
    pub gear: GearState,
    pub cruise: CruiseState,
    pub doors: Vec<DoorState>,
    pub seatbelts: Vec<SeatbeltState>,
    pub night_mode: Option<bool>,
}

/// The mathematical content of a [`VehicleState`].
pub struct VehicleStateModel {
    pub timestamp_ns: Option<u64>,
    pub vehicle_speed_mps: Option<Measurement>,
    pub acceleration_mps2: Option<Measurement>,
    pub wheels: Seq<WheelState>,
    pub steering: SteeringState,
    pub brake: BrakeState,
    pub accelerator: AcceleratorState,
    pub gear: GearState,
    pub cruise: CruiseState,
    pub doors: Seq<DoorState>,
    pub seatbelts: Seq<SeatbeltState>,
    pub night_mode: Option<bool>,
}

impl View for VehicleState {
    type V = VehicleStateModel;

    open spec fn view(&self) -> VehicleStateModel {
        VehicleStateModel {
            timestamp_ns: self.timestamp_ns,
            vehicle_speed_mps: self.vehicle_speed_mps,
            acceleration_mps2: self.acceleration_mps2,
            wheels: self.wheels@,
            steering: self.steering,
            brake: self.brake,
            accelerator: self.accelerator,
            gear: self.gear,
            cruise: self.cruise,
            doors: self.doors@,
            seatbelts: self.seatbelts@,
            night_mode: self.night_mode,
        }
    }
}

/// The state in which nothing has been observed.
pub open spec fn unobserved_state() -> VehicleStateModel {
    VehicleStateModel {
        timestamp_ns: None,
        vehicle_speed_mps: None,
        acceleration_mps2: None,
        wheels: Seq::empty(),
        steering: SteeringState { angle_rad: None, torque_nm: None },
        brake: BrakeState { pressed: None },
        accelerator: AcceleratorState { position: None },
        gear: GearState { position: GearPosition::Unspecified },
        cruise: CruiseState { enabled: None },
        doors: Seq::empty(),
        seatbelts: Seq::empty(),
        night_mode: None,
    }
}

/// The observation at `timestamp` is at most `maximum_age_ns` old at
/// `now_ns`, and not from the future.
pub open spec fn fresh_at(timestamp: Option<u64>, now_ns: u64, maximum_age_ns: u64) -> bool {
    match timestamp {
        Some(t) => t <= now_ns && now_ns - t <= maximum_age_ns,
        None => false,
    }
}

/// In the state in which nothing has been observed, every scalar is `None`,
/// every list is empty, the gear is unspecified, and it is never fresh.
pub proof fn lemma_unobserved_state_observes_nothing(now_ns: u64, maximum_age_ns: u64)
    ensures
        unobserved_state().timestamp_ns is None,
        unobserved_state().vehicle_speed_mps is None,
        unobserved_state().acceleration_mps2 is None,
        unobserved_state().wheels.len() == 0,
        unobserved_state().steering.angle_rad is None,
        unobserved_state().steering.torque_nm is None,
        unobserved_state().brake.pressed is None,
        unobserved_state().accelerator.position is None,
        unobserved_state().gear.position == GearPosition::Unspecified,
        unobserved_state().cruise.enabled is None,
        unobserved_state().doors.len() == 0,
        unobserved_state().seatbelts.len() == 0,
        unobserved_state().night_mode is None,
        !fresh_at(unobserved_state().timestamp_ns, now_ns, maximum_age_ns),
{
}

/// An observation is fresh at its own time, whatever the allowed age.
pub proof fn lemma_fresh_at_observation_time(t: u64, maximum_age_ns: u64)
    ensures
        fresh_at(Some(t), t, maximum_age_ns),
{
}

/// An observation that is fresh stays fresh at every earlier time not before
/// it, and under every larger allowed age.
pub proof fn lemma_freshness_is_monotone(t: u64, now_ns: u64, earlier_ns: u64, maximum_age_ns: u64, larger_age_ns: u64)
    requires
        fresh_at(Some(t), now_ns, maximum_age_ns),
        t <= earlier_ns <= now_ns,
        maximum_age_ns <= larger_age_ns,
    ensures
        fresh_at(Some(t), earlier_ns, maximum_age_ns),
        fresh_at(Some(t), now_ns, larger_age_ns),
{
}

/// An observation is fresh up to exactly the allowed age after it, and never
/// later; an observation from the future, or none at all, is never fresh.
pub proof fn lemma_freshness_bounds(t: u64, now_ns: u64, maximum_age_ns: u64)
    ensures
        t as int + maximum_age_ns as int <= u64::MAX ==> fresh_at(Some(t), (t + maximum_age_ns) as u64, maximum_age_ns),
        now_ns > t as int + maximum_age_ns as int ==> !fresh_at(Some(t), now_ns, maximum_age_ns),
        now_ns < t ==> !fresh_at(Some(t), now_ns, maximum_age_ns),
        !fresh_at(None, now_ns, maximum_age_ns),
{
}

impl Default for VehicleState {
    fn default() -> (s: Self)
        ensures
            s@ == unobserved_state(),
    {
        let s = VehicleState {
            timestamp_ns: None,
            vehicle_speed_mps: None,
            acceleration_mps2: None,
            wheels: Vec::new(),
            steering: SteeringState { angle_rad: None, torque_nm: None },
            brake: BrakeState { pressed: None },
            accelerator: AcceleratorState { position: None },
            gear: GearState { position: GearPosition::Unspecified },
            cruise: CruiseState { enabled: None },
            doors: Vec::new(),
            seatbelts: Vec::new(),
            night_mode: None,
        };
        assert(s@.wheels =~= Seq::empty());
        assert(s@.doors =~= Seq::empty());
        assert(s@.seatbelts =~= Seq::empty());
        s
    }
}

impl VehicleState {
    /// Whether the observation time lies within `maximum_age_ns` before
    /// `now_ns`. A missing timestamp or one from the future is not fresh.
    pub fn is_fresh_at(&self, now_ns: u64, maximum_age_ns: u64) -> (r: bool)
        ensures
            r == fresh_at(self.timestamp_ns, now_ns, maximum_age_ns),
    {
        match self.timestamp_ns {
            Some(timestamp_ns) => match now_ns.checked_sub(timestamp_ns) {
                Some(age_ns) => age_ns <= maximum_age_ns,
                None => false,
            },
            None => false,
        }
    }
}

#[derive(Clone, Copy, Debug, PartialEq, Eq, Structural)]
pub enum WheelPosition {
    FrontLeft,
    FrontRight,
    RearLeft,
    RearRight,
}

#[derive(Clone, Copy, Debug, PartialEq, Eq)]
pub struct WheelState {
    pub position: WheelPosition,
    pub speed_mps: Option<Measurement>,
}

#[derive(Clone, Copy, Debug, PartialEq, Eq)]
pub struct SteeringState {
    pub angle_rad: Option<Measurement>,
    pub torque_nm: Option<Measurement>,
}

#[derive(Clone, Copy, Debug, PartialEq, Eq)]
pub struct BrakeState {
    pub pressed: Option<bool>,
}

#[derive(Clone, Copy, Debug, PartialEq, Eq)]
pub struct AcceleratorState {
    pub position: Option<Measurement>,
}

#[derive(Clone, Copy, Debug, PartialEq, Eq, Structural)]
pub enum GearPosition {
    Unspecified,
    Park,
    Reverse,
    Neutral,
    Drive,
}

impl Default for GearPosition {
    fn default() -> (g: Self)
        ensures
            g == GearPosition::Unspecified,
    {
        GearPosition::Unspecified
    }
}

#[derive(Clone, Copy, Debug, PartialEq, Eq)]
pub struct GearState {
    pub position: GearPosition,
}

#[derive(Clone, Copy, Debug, PartialEq, Eq)]
pub struct CruiseState {
    pub enabled: Option<bool>,
}

#[derive(Clone, Copy, Debug, PartialEq, Eq, Structural)]
pub enum DoorPosition {
    FrontLeft,
    FrontRight,
    RearLeft,
    RearRight,
}

#[derive(Clone, Copy, Debug, PartialEq, Eq)]
pub struct DoorState {
    pub position: DoorPosition,
    pub open: Option<bool>,
}

#[derive(Clone, Copy, Debug, PartialEq, Eq, Structural)]
pub enum SeatPosition {
    Driver,
    FrontPassenger,
    RearLeft,
    RearRight,
}

#[derive(Clone, Copy, Debug, PartialEq, Eq)]
pub struct SeatbeltState {
    pub position: SeatPosition,
    pub latched: Option<bool>,
}

} // verus!
