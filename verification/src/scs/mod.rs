//! Euro Truck Simulator 2 and American Truck Simulator adapters fed by the
//! SCS SDK bridge: their identities, capabilities, and how a decoded bridge
//! packet becomes one telemetry update.
pub mod cursor;
pub mod error;
pub mod laws;

use vstd::prelude::*;
use vstd::string::StringExecFns;

use crate::adapter::{AdapterDescriptor, AdapterError, AdapterId, CapabilitySet};
use crate::telemetry::model::{
    in_unit_interval, DrsState, Gear, MonotonicTimestamp, Normalized, NormalizedError, Real,
    TelemetryField,
};
use crate::telemetry::state::{
    AeroState, ConditionsState, DamageState, JobState, LapState, LightsState, NavigationState,
    SessionUpdate, TelemetryUpdate, TyreState, VehicleUpdate,
};
use crate::text::{hex_fixed, render_hex16};

verus! {

/// Stable identifier exposed by the Euro Truck Simulator 2 adapter.
pub const ETS2_ADAPTER_ID: &'static str = "ets2";

/// Stable identifier exposed by the American Truck Simulator adapter.
pub const ATS_ADAPTER_ID: &'static str = "ats";

/// Protocol label shared by both truck adapters.
pub const SCS_PROTOCOL_VERSION: &'static str = "scs-bridge/v1+v2 (SDK 1.14)";

/// SCS game a bridge packet or adapter belongs to.
#[derive(Debug, Clone, Copy, PartialEq, Eq, Structural)]
pub enum ScsGame {
    /// Euro Truck Simulator 2.
    Ets2,
    /// American Truck Simulator.
    Ats,
}

/// The fields both truck adapters publish.
pub open spec fn scs_capabilities() -> Set<TelemetryField> {
    set![
        TelemetryField::VehicleSpeed,
        TelemetryField::VehicleGear,
        TelemetryField::VehicleRpm,
        TelemetryField::VehicleRpmMax,
        TelemetryField::VehicleThrottle,
        TelemetryField::VehicleBrake,
        TelemetryField::VehicleDrs,
        TelemetryField::VehicleFuel,
        TelemetryField::Navigation,
        TelemetryField::Lights,
        TelemetryField::Job,
    ]
}

/// The adapter id of each game.
pub open spec fn scs_adapter_id(game: ScsGame) -> Seq<char> {
    match game {
        ScsGame::Ets2 => "ets2"@,
        ScsGame::Ats => "ats"@,
    }
}

/// The display name of each game.
pub open spec fn scs_display_name(game: ScsGame) -> Seq<char> {
    match game {
        ScsGame::Ets2 => "Euro Truck Simulator 2"@,
        ScsGame::Ats => "American Truck Simulator"@,
    }
}

/// Whether `g` is the gear that the bridge's displayed gear `raw` denotes:
/// any negative value is reverse, zero neutral, 1 to 255 forward, anything
/// above unknown.
pub open spec fn truck_gear_maps(raw: i32, g: Gear) -> bool {
    if raw < 0 {
        g == Gear::Reverse
    } else if raw == 0 {
        g == Gear::Neutral
    } else if raw <= 255 {
        g matches Gear::Forward(n) && n.spec_number() == raw as u8
    } else {
        g == Gear::Unknown
    }
}

/// Maps the bridge's displayed gear.
pub fn map_truck_gear(value: i32) -> (g: Gear)
    ensures
        truck_gear_maps(value, g),
{
    if value < 0 {
        Gear::Reverse
    } else if value == 0 {
        Gear::Neutral
    } else if value <= 255 {
        match Gear::forward(value as u8) {
            Some(g) => g,
            None => Gear::Unknown,
        }
    } else {
        Gear::Unknown
    }
}

/// Adapter state shared by both truck games.
#[derive(Debug)]
pub struct ScsAdapter {
    descriptor: AdapterDescriptor,
    game: ScsGame,
}

impl ScsAdapter {
    /// The game whose packets the adapter accepts.
    pub closed spec fn game(&self) -> ScsGame {
        self.game
    }

    /// The adapter's descriptor.
    pub closed spec fn spec_descriptor(&self) -> AdapterDescriptor {
        self.descriptor
    }

    /// Builds the adapter for `game` and its stable capability descriptor.
    pub fn new(game: ScsGame) -> (r: Result<ScsAdapter, AdapterError>)
        ensures
            match r {
                Ok(a) => {
                    &&& a.game() == game
                    &&& a.spec_descriptor().id.text() == scs_adapter_id(game)
                    &&& a.spec_descriptor().display_name@ == scs_display_name(game)
                    &&& a.spec_descriptor().protocol_version@ == SCS_PROTOCOL_VERSION@
                    &&& a.spec_descriptor().capabilities.fields().to_set() == scs_capabilities()
                },
                Err(_) => false,
            },
    {
        let fields = [
            TelemetryField::VehicleSpeed,
            TelemetryField::VehicleGear,
            TelemetryField::VehicleRpm,
            TelemetryField::VehicleRpmMax,
            TelemetryField::VehicleThrottle,
            TelemetryField::VehicleBrake,
            TelemetryField::VehicleDrs,
            TelemetryField::VehicleFuel,
            TelemetryField::Navigation,
            TelemetryField::Lights,
            TelemetryField::Job,
        ];
        let capabilities = CapabilitySet::from_fields(fields.as_slice());
        proof {
            assert(fields@.to_set() =~= scs_capabilities()) by {
                assert forall|f: TelemetryField| scs_capabilities().contains(f) implies fields@.contains(f) by {
                    if f == TelemetryField::VehicleSpeed { assert(fields@[0] == f); }
                    if f == TelemetryField::VehicleGear { assert(fields@[1] == f); }
                    if f == TelemetryField::VehicleRpm { assert(fields@[2] == f); }
                    if f == TelemetryField::VehicleRpmMax { assert(fields@[3] == f); }
                    if f == TelemetryField::VehicleThrottle { assert(fields@[4] == f); }
                    if f == TelemetryField::VehicleBrake { assert(fields@[5] == f); }
                    if f == TelemetryField::VehicleDrs { assert(fields@[6] == f); }
                    if f == TelemetryField::VehicleFuel { assert(fields@[7] == f); }
                    if f == TelemetryField::Navigation { assert(fields@[8] == f); }
                    if f == TelemetryField::Lights { assert(fields@[9] == f); }
                    if f == TelemetryField::Job { assert(fields@[10] == f); }
                }
            }
        }
        let (id_text, display_name): (&str, &str) = match game {
            ScsGame::Ets2 => (ETS2_ADAPTER_ID, "Euro Truck Simulator 2"),
            ScsGame::Ats => (ATS_ADAPTER_ID, "American Truck Simulator"),
        };
        proof {
            reveal_strlit("ets2");
            reveal_strlit("ats");
        }
        let id = match AdapterId::new(String::from_str(id_text)) {
            Ok(id) => id,
            Err(error) => {
                proof {
                    assert(crate::adapter::valid_adapter_id(vstd::utf8::encode_utf8(id_text@))) by {
                        vstd::string::is_ascii_spec_bytes(id_text);
                    }
                }
                return Err(AdapterError::from_id_error(error));
            },
        };
        let descriptor = AdapterDescriptor::new(
            id,
            String::from_str(display_name),
            String::from_str(SCS_PROTOCOL_VERSION),
            capabilities,
        );
        Ok(ScsAdapter { descriptor, game })
    }

    /// Returns the adapter's stable identity, protocol and capabilities.
    pub fn descriptor(&self) -> (d: &AdapterDescriptor)
        ensures
            *d == self.spec_descriptor(),
    {
        &self.descriptor
    }

    /// Whether a packet from `game` belongs to this adapter.
    pub fn accepts(&self, game: ScsGame) -> (b: bool)
        ensures
            b == (game == self.game()),
    {
        game == self.game
    }
}

/// Built-in telemetry adapter for Euro Truck Simulator 2.
#[derive(Debug)]
pub struct Ets2Adapter {
    inner: ScsAdapter,
}

impl Ets2Adapter {
    /// The adapter only ever drives the Ets2 game.
    #[verifier::type_invariant]
    spec fn drives_its_game(self) -> bool {
        self.inner.game == ScsGame::Ets2
    }

    /// The shared truck adapter it drives.
    pub closed spec fn adapter(&self) -> ScsAdapter {
        self.inner
    }

    /// Builds the adapter and its stable capability descriptor.
    pub fn new() -> (r: Result<Ets2Adapter, AdapterError>)
        ensures
            match r {
                Ok(a) => a.adapter().game() == ScsGame::Ets2
                    && a.adapter().spec_descriptor().id.text() == scs_adapter_id(ScsGame::Ets2)
                    && a.adapter().spec_descriptor().capabilities.fields().to_set() == scs_capabilities(),
                Err(_) => false,
            },
    {
        let inner = ScsAdapter::new(ScsGame::Ets2)?;
        Ok(Ets2Adapter { inner })
    }

    /// Returns the adapter's stable identity, protocol and capabilities.
    pub fn descriptor(&self) -> (d: &AdapterDescriptor)
        ensures
            *d == self.adapter().spec_descriptor(),
    {
        self.inner.descriptor()
    }

    /// Whether a packet from `game` belongs to this adapter.
    pub fn accepts(&self, game: ScsGame) -> (b: bool)
        ensures
            b == (game == ScsGame::Ets2),
    {
        proof {
            use_type_invariant(self);
        }
        self.inner.accepts(game)
    }
}

/// Built-in telemetry adapter for American Truck Simulator.
#[derive(Debug)]
pub struct AtsAdapter {
    inner: ScsAdapter,
}

impl AtsAdapter {
    /// The adapter only ever drives the Ats game.
    #[verifier::type_invariant]
    spec fn drives_its_game(self) -> bool {
        self.inner.game == ScsGame::Ats
    }

    /// The shared truck adapter it drives.
    pub closed spec fn adapter(&self) -> ScsAdapter {
        self.inner
    }

    /// Builds the adapter and its stable capability descriptor.
    pub fn new() -> (r: Result<AtsAdapter, AdapterError>)
        ensures
            match r {
                Ok(a) => a.adapter().game() == ScsGame::Ats
                    && a.adapter().spec_descriptor().id.text() == scs_adapter_id(ScsGame::Ats)
                    && a.adapter().spec_descriptor().capabilities.fields().to_set() == scs_capabilities(),
                Err(_) => false,
            },
    {
        let inner = ScsAdapter::new(ScsGame::Ats)?;
        Ok(AtsAdapter { inner })
    }

    /// Returns the adapter's stable identity, protocol and capabilities.
    pub fn descriptor(&self) -> (d: &AdapterDescriptor)
        ensures
            *d == self.adapter().spec_descriptor(),
    {
        self.inner.descriptor()
    }

    /// Whether a packet from `game` belongs to this adapter.
    pub fn accepts(&self, game: ScsGame) -> (b: bool)
        ensures
            b == (game == ScsGame::Ats),
    {
        proof {
            use_type_invariant(self);
        }
        self.inner.accepts(game)
    }
}

/// Exterior light states carried by a v2 bridge packet.
#[derive(Debug, Clone, Copy, PartialEq, Eq, Structural)]
pub struct BridgeLights {
    /// Parking lights.
    pub parking: bool,
    /// Low beams.
    pub low_beam: bool,
    /// High beams.
    pub high_beam: bool,
    /// Beacon lights.
    pub beacon: bool,
    /// Brake lights.
    pub brake: bool,
    /// Reverse lights.
    pub reverse: bool,
    /// Left indicator.
    pub left_indicator: bool,
    /// Right indicator.
    pub right_indicator: bool,
    /// Hazard lights.
    pub hazard: bool,
}

/// Delivery job carried by a v2 bridge packet.
#[derive(Debug, Clone, PartialEq)]
pub struct BridgeJob {
    /// Whether a job is in progress.
    pub active: bool,
    /// Cargo name, where the game reports one.
    pub cargo: Option<String>,
    /// Cargo mass in kilograms.
    pub cargo_mass_kg: Real,
    /// Source city, where the game reports one.
    pub source_city: Option<String>,
    /// Destination city, where the game reports one.
    pub destination_city: Option<String>,
    /// Job income in game currency.
    pub income: u64,
    /// Delivery deadline in game minutes.
    pub delivery_time: u32,
    /// Planned route distance in kilometres.
    pub planned_distance_km: u32,
    /// Whether the cargo is loaded.
    pub cargo_loaded: bool,
    /// Whether the job is a special transport.
    pub special: bool,
}

/// One decoded SCS bridge datagram. The decoder has already rejected
/// non-finite measurements, negative RPM, speeds and fuel, RPM above 65535,
/// and pedals outside the unit interval.
#[derive(Debug, Clone, PartialEq)]
pub struct BridgePacket {
    /// Bridge protocol version of the datagram.
    pub protocol_version: u8,
    /// Game that sent the datagram.
    pub game: ScsGame,
    /// Identifier of the game session.
    pub session_nonce: u64,
    /// Sequence number of the frame.
    pub frame_sequence: u32,
    /// Signed speed in metres per second; negative while reversing.
    pub speed_mps: Real,
    /// Engine RPM.
    pub rpm: Real,
    /// Engine RPM limit; zero where the game reports none.
    pub rpm_max: Real,
    /// Gear shown on the dashboard.
    pub displayed_gear: i32,
    /// Throttle input.
    pub throttle: Real,
    /// Brake input.
    pub brake: Real,
    /// Route-advisor distance in metres (v2).
    pub navigation_distance_m: Option<Real>,
    /// Route-advisor time in seconds (v2).
    pub navigation_time_s: Option<Real>,
    /// Route-advisor speed limit in metres per second (v2); zero or negative
    /// for the game's special states.
    pub navigation_speed_limit_mps: Option<Real>,
    /// Fuel in litres (v2).
    pub fuel_liters: Option<Real>,
    /// Fuel capacity in litres (v2).
    pub fuel_capacity_liters: Option<Real>,
    /// Fuel range in kilometres (v2).
    pub fuel_range_km: Option<Real>,
    /// Low-fuel warning (v2).
    pub fuel_warning: Option<bool>,
    /// Exterior lights (v2).
    pub lights: Option<BridgeLights>,
    /// Delivery job (v2).
    pub job: Option<BridgeJob>,
}

/// Whether the `f32` with bit pattern `bits` is greater than zero: positive
/// sign, not zero and not NaN.
pub open spec fn positive_bits(bits: u32) -> bool {
    0 < bits && bits <= 0x7F80_0000
}

/// The absolute value of `value`: its bit pattern with the sign bit cleared.
pub open spec fn abs_real(value: Real) -> Real {
    Real { bits: if value.bits >= 0x8000_0000 { (value.bits - 0x8000_0000) as u32 } else { value.bits } }
}

/// The light states a packet reports; all unknown without a lights block.
pub open spec fn lights_update(lights: Option<BridgeLights>) -> LightsState {
    match lights {
        None => LightsState::empty(),
        Some(l) => LightsState {
            parking: Some(l.parking),
            low_beam: Some(l.low_beam),
            high_beam: Some(l.high_beam),
            beacon: Some(l.beacon),
            brake: Some(l.brake),
            reverse: Some(l.reverse),
            left_indicator: Some(l.left_indicator),
            right_indicator: Some(l.right_indicator),
            hazard: Some(l.hazard),
        },
    }
}

/// `value` where the job is active, unknown otherwise.
pub open spec fn while_active<T>(active: bool, value: T) -> Option<T> {
    if active { Some(value) } else { None }
}

/// The job a packet reports: its names always, its figures only while a job
/// is active; all unknown without a job block.
pub open spec fn job_update(job: Option<BridgeJob>) -> JobState {
    match job {
        None => JobState::empty(),
        Some(j) => JobState {
            active: Some(j.active),
            cargo: j.cargo,
            cargo_mass_kg: while_active(j.active, j.cargo_mass_kg),
            source_city: j.source_city,
            destination_city: j.destination_city,
            income: while_active(j.active, j.income),
            delivery_time: while_active(j.active, j.delivery_time),
            planned_distance_km: while_active(j.active, j.planned_distance_km),
            cargo_loaded: while_active(j.active, j.cargo_loaded),
            special: while_active(j.active, j.special),
        },
    }
}

/// The route advisor a packet reports; a speed limit that is not positive
/// is one of the game's special states and is left unknown.
pub open spec fn navigation_update(p: BridgePacket) -> NavigationState {
    NavigationState {
        distance_m: p.navigation_distance_m,
        time_s: p.navigation_time_s,
        speed_limit_mps: match p.navigation_speed_limit_mps {
            Some(v) => if positive_bits(v.bits) { Some(v) } else { None },
            None => None,
        },
    }
}

/// The vehicle values a packet reports, given its rounded RPM figures and
/// its mapped gear.
pub open spec fn vehicle_update(p: BridgePacket, rpm: u16, rpm_max: u16, gear: Option<Gear>) -> VehicleUpdate {
    VehicleUpdate {
        speed_mps: Some(abs_real(p.speed_mps)),
        gear: gear,
        rpm: Some(rpm),
        rpm_max: if positive_bits(p.rpm_max.bits) { Some(rpm_max) } else { None },
        throttle: Some(Normalized::spec_of(p.throttle)),
        brake: Some(Normalized::spec_of(p.brake)),
        drs: Some(DrsState::Unavailable),
        fuel_liters: p.fuel_liters,
        fuel_capacity_liters: p.fuel_capacity_liters,
        fuel_range_km: p.fuel_range_km,
        fuel_warning: p.fuel_warning,
        ..VehicleUpdate::empty()
    }
}

fn abs_of(value: Real) -> (r: Real)
    ensures
        r == abs_real(value),
{
    if value.bits >= 0x8000_0000 {
        Real { bits: value.bits - 0x8000_0000 }
    } else {
        value
    }
}

fn is_positive(value: Real) -> (b: bool)
    ensures
        b == positive_bits(value.bits),
{
    0 < value.bits && value.bits <= 0x7F80_0000
}

fn map_lights(lights: Option<BridgeLights>) -> (l: LightsState)
    ensures
        l == lights_update(lights),
{
    match lights {
        None => LightsState::default(),
        Some(l) => LightsState {
            parking: Some(l.parking),
            low_beam: Some(l.low_beam),
            high_beam: Some(l.high_beam),
            beacon: Some(l.beacon),
            brake: Some(l.brake),
            reverse: Some(l.reverse),
            left_indicator: Some(l.left_indicator),
            right_indicator: Some(l.right_indicator),
            hazard: Some(l.hazard),
        },
    }
}

fn map_job(job: Option<BridgeJob>) -> (s: JobState)
    ensures
        s == job_update(job),
{
    match job {
        None => JobState::default(),
        Some(j) => {
            let active = j.active;
            JobState {
                active: Some(active),
                cargo: j.cargo,
                cargo_mass_kg: if active { Some(j.cargo_mass_kg) } else { None },
                source_city: j.source_city,
                destination_city: j.destination_city,
                income: if active { Some(j.income) } else { None },
                delivery_time: if active { Some(j.delivery_time) } else { None },
                planned_distance_km: if active { Some(j.planned_distance_km) } else { None },
                cargo_loaded: if active { Some(j.cargo_loaded) } else { None },
                special: if active { Some(j.special) } else { None },
            }
        },
    }
}

/// Maps one decoded bridge packet to a telemetry update. `rpm` and
/// `rpm_max` are the packet's RPM figures rounded to the nearest integer;
/// the RPM limit is reported only where it is positive. A throttle or brake
/// outside the unit interval, checked in that order, is refused.
pub fn map_packet(
    packet: BridgePacket,
    rpm: u16,
    rpm_max: u16,
    received_at: MonotonicTimestamp,
) -> (r: Result<TelemetryUpdate, NormalizedError>)
    ensures
        match r {
            Ok(u) => {
                &&& in_unit_interval(packet.throttle.bits) && in_unit_interval(packet.brake.bits)
                &&& u.received_at == received_at
                &&& u.session_id matches Some(s) && s@ == hex_fixed(packet.session_nonce as nat, 16)
                &&& u.frame_id == Some(packet.frame_sequence)
                &&& u.vehicle.gear matches Some(g) && truck_gear_maps(packet.displayed_gear, g)
                &&& u.vehicle == vehicle_update(packet, rpm, rpm_max, u.vehicle.gear)
                &&& u.navigation == navigation_update(packet)
                &&& u.lights == lights_update(packet.lights)
                &&& u.job == job_update(packet.job)
                &&& u.lap == LapState::empty() && u.session == SessionUpdate::empty()
                &&& u.tyres == TyreState::empty() && u.conditions == ConditionsState::empty()
                &&& u.damage == DamageState::empty() && u.aero == AeroState::empty()
                &&& u.extensions@.len() == 0
            },
            Err(e) => if !in_unit_interval(packet.throttle.bits) {
                e.value == packet.throttle
            } else {
                !in_unit_interval(packet.brake.bits) && e.value == packet.brake
            },
        },
{
    let throttle = Normalized::new(packet.throttle)?;
    let brake = Normalized::new(packet.brake)?;
    let ghost p = packet;
    let mut u = TelemetryUpdate::default();
    u.received_at = received_at;
    u.session_id = Some(render_hex16(packet.session_nonce));
    u.frame_id = Some(packet.frame_sequence);
    u.vehicle.speed_mps = Some(abs_of(packet.speed_mps));
    u.vehicle.gear = Some(map_truck_gear(packet.displayed_gear));
    u.vehicle.rpm = Some(rpm);
    u.vehicle.rpm_max = if is_positive(packet.rpm_max) { Some(rpm_max) } else { None };
    u.vehicle.throttle = Some(throttle);
    u.vehicle.brake = Some(brake);
    u.vehicle.drs = Some(DrsState::Unavailable);
    u.vehicle.fuel_liters = packet.fuel_liters;
    u.vehicle.fuel_capacity_liters = packet.fuel_capacity_liters;
    u.vehicle.fuel_range_km = packet.fuel_range_km;
    u.vehicle.fuel_warning = packet.fuel_warning;
    u.navigation.distance_m = packet.navigation_distance_m;
    u.navigation.time_s = packet.navigation_time_s;
    u.navigation.speed_limit_mps = match packet.navigation_speed_limit_mps {
        Some(v) => if is_positive(v) { Some(v) } else { None },
        None => None,
    };
    u.lights = map_lights(packet.lights);
    u.job = map_job(packet.job);
    proof {
        assert(u.vehicle == vehicle_update(p, rpm, rpm_max, u.vehicle.gear));
        assert(u.navigation == navigation_update(p));
    }
    Ok(u)
}

} // verus!
