use vstd::prelude::*;

verus! {

/// Current major version of the game-neutral telemetry schema.
pub const TELEMETRY_SCHEMA_VERSION: u16 = 1;

#[verifier::external_type_specification]
#[verifier::external_body]
pub struct ExJsonValue(serde_json::Value);

/// A 32-bit IEEE-754 measurement carried by its bit pattern.
///
/// The library never interprets the number: it stores and forwards it, so the
/// bit pattern is the whole value.
#[derive(Debug, Clone, Copy, PartialEq, Eq, Structural)]
pub struct Real {
    /// The `f32::to_bits` pattern of the measurement.
    pub bits: u32,
}

/// Whether the `f32` with bit pattern `bits` is finite and lies in `0.0..=1.0`.
///
/// Non-negative finite values order as their bit patterns do, from `0x0000_0000`
/// (`+0.0`) to `0x3F80_0000` (`1.0`); `0x8000_0000` is `-0.0`, which equals `0.0`.
/// Every other pattern is negative, above one, infinite or NaN.
pub open spec fn in_unit_interval(bits: u32) -> bool {
    bits <= 0x3F80_0000 || bits == 0x8000_0000
}

/// A finite value in the inclusive range `0.0..=1.0`.
#[derive(Debug, Clone, Copy, PartialEq, Eq, Structural)]
pub struct Normalized {
    value: Real,
}

impl Normalized {
    #[verifier::type_invariant]
    spec fn within_unit_interval(self) -> bool {
        in_unit_interval(self.value.bits)
    }

    /// The validated value.
    pub closed spec fn spec_get(self) -> Real {
        self.value
    }

    /// The normalized value holding `value`.
    pub closed spec fn spec_of(value: Real) -> Normalized {
        Normalized { value }
    }

    /// The normalized value built from `value` holds it.
    pub broadcast proof fn lemma_spec_of(value: Real)
        ensures
            #[trigger] Normalized::spec_of(value).spec_get() == value,
    {
    }

    /// Creates a normalized value, rejecting a value that is not finite or lies
    /// outside the inclusive unit interval.
    pub fn new(value: Real) -> (r: Result<Normalized, NormalizedError>)
        ensures
            match r {
                Ok(n) => in_unit_interval(value.bits) && n.spec_get() == value && n == Normalized::spec_of(value),
                Err(e) => !in_unit_interval(value.bits) && e.value == value,
            },
    {
        if value.bits <= 0x3F80_0000 || value.bits == 0x8000_0000 {
            Ok(Normalized { value })
        } else {
            Err(NormalizedError { value })
        }
    }

    /// Returns the primitive value.
    pub fn get(self) -> (v: Real)
        ensures
            v == self.spec_get(),
            in_unit_interval(v.bits),
    {
        proof {
            use_type_invariant(&self);
        }
        self.value
    }
}

/// Error returned when a value cannot be represented as [`Normalized`].
#[derive(Debug, Clone, Copy, PartialEq, Eq, Structural)]
pub struct NormalizedError {
    /// The rejected value.
    pub value: Real,
}

impl NormalizedError {
    /// Returns the rejected primitive value.
    pub fn value(self) -> (v: Real)
        ensures
            v == self.value,
    {
        self.value
    }
}

/// Microseconds elapsed from the Host's monotonic clock origin, ordered by
/// their count.
#[derive(Debug, Clone, Copy, PartialEq, Eq, Structural, Ord)]
pub struct MonotonicTimestamp {
    micros: u64,
}

impl MonotonicTimestamp {
    /// Microseconds carried by this timestamp.
    pub closed spec fn micros(self) -> u64 {
        self.micros
    }

    /// The timestamp carrying `micros`.
    pub closed spec fn of_micros(micros: u64) -> MonotonicTimestamp {
        MonotonicTimestamp { micros }
    }

    /// A timestamp built from microseconds carries them back.
    pub broadcast proof fn lemma_of_micros(micros: u64)
        ensures
            #[trigger] MonotonicTimestamp::of_micros(micros).micros() == micros,
    {
    }

    /// Creates a timestamp from microseconds elapsed since the Host clock origin.
    pub fn from_micros(micros: u64) -> (t: MonotonicTimestamp)
        ensures
            t == MonotonicTimestamp::of_micros(micros),
            t.micros() == micros,
    {
        MonotonicTimestamp { micros }
    }

    /// Returns microseconds elapsed since the Host clock origin.
    pub fn as_micros(self) -> (m: u64)
        ensures
            m == self.micros(),
    {
        self.micros
    }

    /// Two timestamps are the same exactly when they carry the same microseconds.
    pub broadcast proof fn lemma_micros_identify(a: MonotonicTimestamp, b: MonotonicTimestamp)
        ensures
            #[trigger] a.micros() == #[trigger] b.micros() <==> a == b,
    {
    }
}

/// A forward gear number, never zero.
#[derive(Debug, Clone, Copy, PartialEq, Eq, Structural)]
pub struct ForwardGear {
    number: u8,
}

impl ForwardGear {
    #[verifier::type_invariant]
    spec fn nonzero(self) -> bool {
        self.number > 0
    }

    /// The gear number.
    pub closed spec fn spec_number(self) -> u8 {
        self.number
    }

    /// A forward gear is identified by its number.
    pub proof fn law_forward_gear_identity(a: ForwardGear, b: ForwardGear)
        ensures
            a.spec_number() == b.spec_number() <==> a == b,
    {
    }

    /// Returns the gear number, which is at least one.
    pub fn number(self) -> (n: u8)
        ensures
            n == self.spec_number(),
            n > 0,
    {
        proof {
            use_type_invariant(&self);
        }
        self.number
    }
}

/// Gear selected by the game.
#[derive(Debug, Clone, Copy, PartialEq, Eq, Structural)]
pub enum Gear {
    /// Reverse gear.
    Reverse,
    /// Neutral.
    Neutral,
    /// A forward gear numbered from one.
    Forward(ForwardGear),
    /// The game has not supplied a meaningful gear.
    Unknown,
}

impl Gear {
    /// Creates a forward gear, returning `None` for zero.
    pub fn forward(number: u8) -> (g: Option<Gear>)
        ensures
            number == 0 ==> g is None,
            number > 0 ==> (g matches Some(Gear::Forward(n)) && n.spec_number() == number),
    {
        if number == 0 {
            None
        } else {
            Some(Gear::Forward(ForwardGear { number }))
        }
    }

    /// Whether the game supplied no meaningful gear.
    pub fn is_unknown(&self) -> (b: bool)
        ensures
            b == (*self is Unknown),
    {
        matches!(self, Gear::Unknown)
    }
}

/// Driver-reduction-system state normalized across supported games.
#[derive(Debug, Clone, Copy, PartialEq, Eq, Structural)]
pub enum DrsState {
    /// The game or vehicle does not support DRS in the current context.
    Unavailable,
    /// DRS can be activated but is currently closed.
    Available,
    /// DRS is currently active.
    Active,
    /// The game has not supplied a meaningful DRS state.
    Unknown,
}

impl DrsState {
    /// Whether the game supplied no meaningful DRS state.
    pub fn is_unknown(&self) -> (b: bool)
        ensures
            b == (*self is Unknown),
    {
        matches!(self, DrsState::Unknown)
    }
}

/// Weather reported for the current session.
#[derive(Debug, Clone, Copy, PartialEq, Eq, Structural)]
pub enum WeatherCondition {
    /// Clear sky.
    Clear,
    /// Light cloud cover.
    LightCloud,
    /// Overcast conditions.
    Overcast,
    /// Light rain.
    LightRain,
    /// Heavy rain.
    HeavyRain,
    /// Storm conditions.
    Storm,
}

/// Race-control flag applying to the player vehicle.
#[derive(Debug, Clone, Copy, PartialEq, Eq, Structural)]
pub enum RaceFlag {
    /// No flag is active.
    NoFlag,
    /// Green flag.
    Green,
    /// Blue flag.
    Blue,
    /// Yellow flag.
    Yellow,
    /// Red flag.
    Red,
}

/// Safety-car state for the current session.
#[derive(Debug, Clone, Copy, PartialEq, Eq, Structural)]
pub enum SafetyCarStatus {
    /// No safety car is active.
    NoSafetyCar,
    /// Full safety car.
    Full,
    /// Virtual safety car.
    Virtual,
    /// Formation-lap safety car.
    FormationLap,
}

/// Player pit state.
#[derive(Debug, Clone, Copy, PartialEq, Eq, Structural)]
pub enum PitStatus {
    /// The vehicle is not pitting.
    NotPitting,
    /// The vehicle is entering or approaching the pits.
    Pitting,
    /// The vehicle is inside the pit area.
    InPitArea,
}

/// Player activity within the current lap.
#[derive(Debug, Clone, Copy, PartialEq, Eq, Structural)]
pub enum DriverStatus {
    /// In the garage.
    InGarage,
    /// On a flying lap.
    FlyingLap,
    /// On an in lap.
    InLap,
    /// On an out lap.
    OutLap,
    /// Driving on track outside a special lap phase.
    OnTrack,
}

/// Classification state for the player vehicle.
#[derive(Debug, Clone, Copy, PartialEq, Eq, Structural)]
pub enum ResultStatus {
    /// Invalid or unavailable result.
    Invalid,
    /// Inactive participant.
    Inactive,
    /// Active participant.
    Active,
    /// Finished the session.
    Finished,
    /// Did not finish.
    DidNotFinish,
    /// Disqualified.
    Disqualified,
    /// Not classified.
    NotClassified,
    /// Retired.
    Retired,
}

/// 2026 active-aerodynamics mode.
#[derive(Debug, Clone, Copy, PartialEq, Eq, Structural)]
pub enum ActiveAeroMode {
    /// High-downforce corner mode.
    Corner,
    /// Low-drag straight mode.
    Straight,
}

/// Stable fields that an adapter can advertise to clients, in their order.
#[derive(Debug, Clone, Copy, PartialEq, Eq, Structural, PartialOrd, Ord, Hash)]
pub enum TelemetryField {
    /// Vehicle speed in metres per second.
    VehicleSpeed,
    /// Selected gear.
    VehicleGear,
    /// Current engine revolutions per minute.
    VehicleRpm,
    /// Maximum engine revolutions per minute.
    VehicleRpmMax,
    /// Game-provided shift-light progression.
    VehicleRevLights,
    /// Accelerator input.
    VehicleThrottle,
    /// Brake input.
    VehicleBrake,
    /// Driver-reduction-system state.
    VehicleDrs,
    /// Fuel state in game-native mass or volume units.
    VehicleFuel,
    /// Pit-lane limiter state.
    VehiclePitLimiter,
    /// Current lap number.
    LapCurrent,
    /// Current race position.
    LapPosition,
    /// Current-lap time.
    LapCurrentTime,
    /// Previous completed-lap time.
    LapLastTime,
    /// Delta to the relevant best lap.
    LapDeltaToBest,
    /// Current-lap invalidation state.
    LapInvalid,
    /// Extended sector timing and race-position state.
    LapRaceState,
    /// Track identifier.
    SessionTrack,
    /// Remaining session time.
    SessionRemainingTime,
    /// Scheduled total laps.
    SessionTotalLaps,
    /// Extended session and race-control state.
    SessionRaceState,
    /// Four-corner tyre state.
    Tyres,
    /// Ambient and track conditions.
    Conditions,
    /// Vehicle damage state.
    Damage,
    /// Active-aerodynamics state.
    Aero,
    /// Route-advisor state.
    Navigation,
    /// Exterior-light state.
    Lights,
    /// Delivery-job state.
    Job,
}

/// The stable dotted path of `field`.
pub open spec fn field_path(field: TelemetryField) -> Seq<char> {
    match field {
        TelemetryField::VehicleSpeed => "vehicle.speedMps"@,
        TelemetryField::VehicleGear => "vehicle.gear"@,
        TelemetryField::VehicleRpm => "vehicle.rpm"@,
        TelemetryField::VehicleRpmMax => "vehicle.rpmMax"@,
        TelemetryField::VehicleRevLights => "vehicle.revLights"@,
        TelemetryField::VehicleThrottle => "vehicle.throttle"@,
        TelemetryField::VehicleBrake => "vehicle.brake"@,
        TelemetryField::VehicleDrs => "vehicle.drs"@,
        TelemetryField::VehicleFuel => "vehicle.fuel"@,
        TelemetryField::VehiclePitLimiter => "vehicle.pitLimiter"@,
        TelemetryField::LapCurrent => "lap.current"@,
        TelemetryField::LapPosition => "lap.position"@,
        TelemetryField::LapCurrentTime => "lap.currentTimeMs"@,
        TelemetryField::LapLastTime => "lap.lastTimeMs"@,
        TelemetryField::LapDeltaToBest => "lap.deltaToBestMs"@,
        TelemetryField::LapInvalid => "lap.invalid"@,
        TelemetryField::LapRaceState => "lap.raceState"@,
        TelemetryField::SessionTrack => "session.trackId"@,
        TelemetryField::SessionRemainingTime => "session.remainingTimeMs"@,
        TelemetryField::SessionTotalLaps => "session.totalLaps"@,
        TelemetryField::SessionRaceState => "session.raceState"@,
        TelemetryField::Tyres => "tyres"@,
        TelemetryField::Conditions => "conditions"@,
        TelemetryField::Damage => "damage"@,
        TelemetryField::Aero => "aero"@,
        TelemetryField::Navigation => "navigation"@,
        TelemetryField::Lights => "lights"@,
        TelemetryField::Job => "job"@,
    }
}

/// The position of `field` in declaration order, which orders fields.
pub open spec fn field_rank(field: TelemetryField) -> int {
    match field {
        TelemetryField::VehicleSpeed => 0,
        TelemetryField::VehicleGear => 1,
        TelemetryField::VehicleRpm => 2,
        TelemetryField::VehicleRpmMax => 3,
        TelemetryField::VehicleRevLights => 4,
        TelemetryField::VehicleThrottle => 5,
        TelemetryField::VehicleBrake => 6,
        TelemetryField::VehicleDrs => 7,
        TelemetryField::VehicleFuel => 8,
        TelemetryField::VehiclePitLimiter => 9,
        TelemetryField::LapCurrent => 10,
        TelemetryField::LapPosition => 11,
        TelemetryField::LapCurrentTime => 12,
        TelemetryField::LapLastTime => 13,
        TelemetryField::LapDeltaToBest => 14,
        TelemetryField::LapInvalid => 15,
        TelemetryField::LapRaceState => 16,
        TelemetryField::SessionTrack => 17,
        TelemetryField::SessionRemainingTime => 18,
        TelemetryField::SessionTotalLaps => 19,
        TelemetryField::SessionRaceState => 20,
        TelemetryField::Tyres => 21,
        TelemetryField::Conditions => 22,
        TelemetryField::Damage => 23,
        TelemetryField::Aero => 24,
        TelemetryField::Navigation => 25,
        TelemetryField::Lights => 26,
        TelemetryField::Job => 27,
    }
}

/// The declaration rank of the field whose path is `p`, or -1; the paths
/// are told apart by their length, first character and ninth character.
pub open spec fn path_rank(p: Seq<char>) -> int {
    if p.len() == 16 && p[0] == 'v' && p[8] == 's' {
        0
    } else if p.len() == 12 && p[0] == 'v' && p[8] == 'g' {
        1
    } else if p.len() == 11 && p[0] == 'v' && p[8] == 'r' {
        2
    } else if p.len() == 14 && p[0] == 'v' && p[8] == 'r' {
        3
    } else if p.len() == 17 && p[0] == 'v' && p[8] == 'r' {
        4
    } else if p.len() == 16 && p[0] == 'v' && p[8] == 't' {
        5
    } else if p.len() == 13 && p[0] == 'v' && p[8] == 'b' {
        6
    } else if p.len() == 11 && p[0] == 'v' && p[8] == 'd' {
        7
    } else if p.len() == 12 && p[0] == 'v' && p[8] == 'f' {
        8
    } else if p.len() == 18 && p[0] == 'v' && p[8] == 'p' {
        9
    } else if p.len() == 11 && p[0] == 'l' && p[8] == 'e' {
        10
    } else if p.len() == 12 && p[0] == 'l' && p[8] == 't' {
        11
    } else if p.len() == 17 && p[0] == 'l' && p[8] == 'e' {
        12
    } else if p.len() == 14 && p[0] == 'l' && p[8] == 'T' {
        13
    } else if p.len() == 17 && p[0] == 'l' && p[8] == 'a' {
        14
    } else if p.len() == 11 && p[0] == 'l' && p[8] == 'l' {
        15
    } else if p.len() == 13 && p[0] == 'l' && p[8] == 'S' {
        16
    } else if p.len() == 15 && p[0] == 's' && p[8] == 't' {
        17
    } else if p.len() == 23 && p[0] == 's' && p[8] == 'r' {
        18
    } else if p.len() == 17 && p[0] == 's' && p[8] == 't' {
        19
    } else if p.len() == 17 && p[0] == 's' && p[8] == 'r' {
        20
    } else if p.len() == 5 && p[0] == 't' {
        21
    } else if p.len() == 10 && p[0] == 'c' && p[8] == 'n' {
        22
    } else if p.len() == 6 && p[0] == 'd' {
        23
    } else if p.len() == 4 && p[0] == 'a' {
        24
    } else if p.len() == 10 && p[0] == 'n' && p[8] == 'o' {
        25
    } else if p.len() == 6 && p[0] == 'l' {
        26
    } else if p.len() == 3 && p[0] == 'j' {
        27
    } else {
        -1
    }
}

/// The field of declaration rank `n`.
pub open spec fn field_of_rank(n: int) -> TelemetryField {
    if n == 0 {
        TelemetryField::VehicleSpeed
    } else if n == 1 {
        TelemetryField::VehicleGear
    } else if n == 2 {
        TelemetryField::VehicleRpm
    } else if n == 3 {
        TelemetryField::VehicleRpmMax
    } else if n == 4 {
        TelemetryField::VehicleRevLights
    } else if n == 5 {
        TelemetryField::VehicleThrottle
    } else if n == 6 {
        TelemetryField::VehicleBrake
    } else if n == 7 {
        TelemetryField::VehicleDrs
    } else if n == 8 {
        TelemetryField::VehicleFuel
    } else if n == 9 {
        TelemetryField::VehiclePitLimiter
    } else if n == 10 {
        TelemetryField::LapCurrent
    } else if n == 11 {
        TelemetryField::LapPosition
    } else if n == 12 {
        TelemetryField::LapCurrentTime
    } else if n == 13 {
        TelemetryField::LapLastTime
    } else if n == 14 {
        TelemetryField::LapDeltaToBest
    } else if n == 15 {
        TelemetryField::LapInvalid
    } else if n == 16 {
        TelemetryField::LapRaceState
    } else if n == 17 {
        TelemetryField::SessionTrack
    } else if n == 18 {
        TelemetryField::SessionRemainingTime
    } else if n == 19 {
        TelemetryField::SessionTotalLaps
    } else if n == 20 {
        TelemetryField::SessionRaceState
    } else if n == 21 {
        TelemetryField::Tyres
    } else if n == 22 {
        TelemetryField::Conditions
    } else if n == 23 {
        TelemetryField::Damage
    } else if n == 24 {
        TelemetryField::Aero
    } else if n == 25 {
        TelemetryField::Navigation
    } else if n == 26 {
        TelemetryField::Lights
    } else {
        TelemetryField::Job
    }
}

/// A field's path gives back its rank, and its rank gives back the field.
proof fn lemma_path_rank(f: TelemetryField)
    ensures
        path_rank(field_path(f)) == field_rank(f),
        field_of_rank(field_rank(f)) == f,
{
    reveal_strlit("vehicle.speedMps");
    reveal_strlit("vehicle.gear");
    reveal_strlit("vehicle.rpm");
    reveal_strlit("vehicle.rpmMax");
    reveal_strlit("vehicle.revLights");
    reveal_strlit("vehicle.throttle");
    reveal_strlit("vehicle.brake");
    reveal_strlit("vehicle.drs");
    reveal_strlit("vehicle.fuel");
    reveal_strlit("vehicle.pitLimiter");
    reveal_strlit("lap.current");
    reveal_strlit("lap.position");
    reveal_strlit("lap.currentTimeMs");
    reveal_strlit("lap.lastTimeMs");
    reveal_strlit("lap.deltaToBestMs");
    reveal_strlit("lap.invalid");
    reveal_strlit("lap.raceState");
    reveal_strlit("session.trackId");
    reveal_strlit("session.remainingTimeMs");
    reveal_strlit("session.totalLaps");
    reveal_strlit("session.raceState");
    reveal_strlit("tyres");
    reveal_strlit("conditions");
    reveal_strlit("damage");
    reveal_strlit("aero");
    reveal_strlit("navigation");
    reveal_strlit("lights");
    reveal_strlit("job");
}

/// Distinct fields have distinct paths: the dotted path names its field.
pub proof fn law_field_paths_are_distinct(f: TelemetryField, g: TelemetryField)
    ensures
        field_path(f) == field_path(g) ==> f == g,
{
    lemma_path_rank(f);
    lemma_path_rank(g);
}

/// Every field has a rank below the field count, and its rank gives it back.
pub proof fn lemma_rank_round_trip(f: TelemetryField)
    ensures
        0 <= field_rank(f) < 28,
        field_of_rank(field_rank(f)) == f,
{
}

/// The field of a rank below the field count has that rank.
pub proof fn lemma_rank_of_field_of_rank(r: int)
    requires
        0 <= r < 28,
    ensures
        field_rank(field_of_rank(r)) == r,
{
}

impl TelemetryField {
    /// Returns the stable dotted path used by widget manifests and capabilities.
    pub fn as_path(self) -> (p: &'static str)
        ensures
            p@ == field_path(self),
    {
        match self {
            TelemetryField::VehicleSpeed => "vehicle.speedMps",
            TelemetryField::VehicleGear => "vehicle.gear",
            TelemetryField::VehicleRpm => "vehicle.rpm",
            TelemetryField::VehicleRpmMax => "vehicle.rpmMax",
            TelemetryField::VehicleRevLights => "vehicle.revLights",
            TelemetryField::VehicleThrottle => "vehicle.throttle",
            TelemetryField::VehicleBrake => "vehicle.brake",
            TelemetryField::VehicleDrs => "vehicle.drs",
            TelemetryField::VehicleFuel => "vehicle.fuel",
            TelemetryField::VehiclePitLimiter => "vehicle.pitLimiter",
            TelemetryField::LapCurrent => "lap.current",
            TelemetryField::LapPosition => "lap.position",
            TelemetryField::LapCurrentTime => "lap.currentTimeMs",
            TelemetryField::LapLastTime => "lap.lastTimeMs",
            TelemetryField::LapDeltaToBest => "lap.deltaToBestMs",
            TelemetryField::LapInvalid => "lap.invalid",
            TelemetryField::LapRaceState => "lap.raceState",
            TelemetryField::SessionTrack => "session.trackId",
            TelemetryField::SessionRemainingTime => "session.remainingTimeMs",
            TelemetryField::SessionTotalLaps => "session.totalLaps",
            TelemetryField::SessionRaceState => "session.raceState",
            TelemetryField::Tyres => "tyres",
            TelemetryField::Conditions => "conditions",
            TelemetryField::Damage => "damage",
            TelemetryField::Aero => "aero",
            TelemetryField::Navigation => "navigation",
            TelemetryField::Lights => "lights",
            TelemetryField::Job => "job",
        }
    }

    /// The field of declaration rank `rank`.
    pub fn from_rank(rank: u8) -> (f: TelemetryField)
        requires
            rank < 28,
        ensures
            f == field_of_rank(rank as int),
            field_rank(f) == rank,
    {
        match rank {
            0 => TelemetryField::VehicleSpeed,
            1 => TelemetryField::VehicleGear,
            2 => TelemetryField::VehicleRpm,
            3 => TelemetryField::VehicleRpmMax,
            4 => TelemetryField::VehicleRevLights,
            5 => TelemetryField::VehicleThrottle,
            6 => TelemetryField::VehicleBrake,
            7 => TelemetryField::VehicleDrs,
            8 => TelemetryField::VehicleFuel,
            9 => TelemetryField::VehiclePitLimiter,
            10 => TelemetryField::LapCurrent,
            11 => TelemetryField::LapPosition,
            12 => TelemetryField::LapCurrentTime,
            13 => TelemetryField::LapLastTime,
            14 => TelemetryField::LapDeltaToBest,
            15 => TelemetryField::LapInvalid,
            16 => TelemetryField::LapRaceState,
            17 => TelemetryField::SessionTrack,
            18 => TelemetryField::SessionRemainingTime,
            19 => TelemetryField::SessionTotalLaps,
            20 => TelemetryField::SessionRaceState,
            21 => TelemetryField::Tyres,
            22 => TelemetryField::Conditions,
            23 => TelemetryField::Damage,
            24 => TelemetryField::Aero,
            25 => TelemetryField::Navigation,
            26 => TelemetryField::Lights,
            _ => TelemetryField::Job,
        }
    }

    /// Returns the position of the field in declaration order.
    pub fn rank(self) -> (r: u8)
        ensures
            r == field_rank(self),
    {
        match self {
            TelemetryField::VehicleSpeed => 0,
            TelemetryField::VehicleGear => 1,
            TelemetryField::VehicleRpm => 2,
            TelemetryField::VehicleRpmMax => 3,
            TelemetryField::VehicleRevLights => 4,
            TelemetryField::VehicleThrottle => 5,
            TelemetryField::VehicleBrake => 6,
            TelemetryField::VehicleDrs => 7,
            TelemetryField::VehicleFuel => 8,
            TelemetryField::VehiclePitLimiter => 9,
            TelemetryField::LapCurrent => 10,
            TelemetryField::LapPosition => 11,
            TelemetryField::LapCurrentTime => 12,
            TelemetryField::LapLastTime => 13,
            TelemetryField::LapDeltaToBest => 14,
            TelemetryField::LapInvalid => 15,
            TelemetryField::LapRaceState => 16,
            TelemetryField::SessionTrack => 17,
            TelemetryField::SessionRemainingTime => 18,
            TelemetryField::SessionTotalLaps => 19,
            TelemetryField::SessionRaceState => 20,
            TelemetryField::Tyres => 21,
            TelemetryField::Conditions => 22,
            TelemetryField::Damage => 23,
            TelemetryField::Aero => 24,
            TelemetryField::Navigation => 25,
            TelemetryField::Lights => 26,
            TelemetryField::Job => 27,
        }
    }
}

} // verus!
