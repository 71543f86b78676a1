//! How a bridge packet's values land in a telemetry update, stated field by
//! field against the packet.

use vstd::prelude::*;

use super::{job_update, scs_adapter_id, scs_display_name, truck_gear_maps, ScsGame, lights_update, navigation_update, vehicle_update, BridgeJob, BridgeLights, BridgePacket};
use crate::telemetry::model::{Gear, Normalized};

verus! {

/// Each bridge light lands in the light of the same name; without a lights
/// block every light is unknown.
pub proof fn law_lights_keep_their_names(lights: Option<BridgeLights>)
    ensures
        lights matches Some(l) ==> {
            &&& lights_update(lights).parking == Some(l.parking)
            &&& lights_update(lights).low_beam == Some(l.low_beam)
            &&& lights_update(lights).high_beam == Some(l.high_beam)
            &&& lights_update(lights).beacon == Some(l.beacon)
            &&& lights_update(lights).brake == Some(l.brake)
            &&& lights_update(lights).reverse == Some(l.reverse)
            &&& lights_update(lights).left_indicator == Some(l.left_indicator)
            &&& lights_update(lights).right_indicator == Some(l.right_indicator)
            &&& lights_update(lights).hazard == Some(l.hazard)
        },
        lights is None ==> {
            &&& lights_update(lights).parking is None
            &&& lights_update(lights).low_beam is None
            &&& lights_update(lights).high_beam is None
            &&& lights_update(lights).beacon is None
            &&& lights_update(lights).brake is None
            &&& lights_update(lights).reverse is None
            &&& lights_update(lights).left_indicator is None
            &&& lights_update(lights).right_indicator is None
            &&& lights_update(lights).hazard is None
        },
{
}

/// A job's names land in the fields of the same name whether or not it is
/// active; its figures are known only while it is active, each in the field
/// of the same name; without a job block everything is unknown.
pub proof fn law_job_keeps_its_names(job: Option<BridgeJob>)
    ensures
        job matches Some(j) ==> {
            &&& job_update(job).active == Some(j.active)
            &&& job_update(job).cargo == j.cargo
            &&& job_update(job).source_city == j.source_city
            &&& job_update(job).destination_city == j.destination_city
            &&& j.active ==> {
                &&& job_update(job).cargo_mass_kg == Some(j.cargo_mass_kg)
                &&& job_update(job).income == Some(j.income)
                &&& job_update(job).delivery_time == Some(j.delivery_time)
                &&& job_update(job).planned_distance_km == Some(j.planned_distance_km)
                &&& job_update(job).cargo_loaded == Some(j.cargo_loaded)
                &&& job_update(job).special == Some(j.special)
            }
            &&& !j.active ==> {
                &&& job_update(job).cargo_mass_kg is None
                &&& job_update(job).income is None
                &&& job_update(job).delivery_time is None
                &&& job_update(job).planned_distance_km is None
                &&& job_update(job).cargo_loaded is None
                &&& job_update(job).special is None
            }
        },
        job is None ==> {
            &&& job_update(job).active is None
            &&& job_update(job).cargo is None
            &&& job_update(job).source_city is None
            &&& job_update(job).destination_city is None
            &&& job_update(job).cargo_mass_kg is None
            &&& job_update(job).income is None
            &&& job_update(job).delivery_time is None
            &&& job_update(job).planned_distance_km is None
            &&& job_update(job).cargo_loaded is None
            &&& job_update(job).special is None
        },
{
}

/// The route advisor's distance and time land in the fields of the same
/// name, and a positive speed limit in the speed limit.
pub proof fn law_navigation_keeps_its_names(p: BridgePacket)
    ensures
        navigation_update(p).distance_m == p.navigation_distance_m,
        navigation_update(p).time_s == p.navigation_time_s,
        p.navigation_speed_limit_mps matches Some(v) ==> (0 < v.bits <= 0x7F80_0000
            ==> navigation_update(p).speed_limit_mps == Some(v)),
        p.navigation_speed_limit_mps matches Some(v) ==> (!(0 < v.bits <= 0x7F80_0000)
            ==> navigation_update(p).speed_limit_mps is None),
        p.navigation_speed_limit_mps is None ==> navigation_update(p).speed_limit_mps is None,
{
}

/// The packet's pedals, RPM and fuel figures land in the vehicle fields of
/// the same name.
pub proof fn law_vehicle_keeps_its_names(p: BridgePacket, rpm: u16, rpm_max: u16, gear: Option<Gear>)
    ensures
        vehicle_update(p, rpm, rpm_max, gear).throttle == Some(Normalized::spec_of(p.throttle)),
        vehicle_update(p, rpm, rpm_max, gear).brake == Some(Normalized::spec_of(p.brake)),
        vehicle_update(p, rpm, rpm_max, gear).rpm == Some(rpm),
        vehicle_update(p, rpm, rpm_max, gear).gear == gear,
        0 < p.rpm_max.bits <= 0x7F80_0000 ==> vehicle_update(p, rpm, rpm_max, gear).rpm_max == Some(rpm_max),
        vehicle_update(p, rpm, rpm_max, gear).fuel_liters == p.fuel_liters,
        vehicle_update(p, rpm, rpm_max, gear).fuel_capacity_liters == p.fuel_capacity_liters,
        vehicle_update(p, rpm, rpm_max, gear).fuel_range_km == p.fuel_range_km,
        vehicle_update(p, rpm, rpm_max, gear).fuel_warning == p.fuel_warning,
{
}

/// Displayed truck gears keep their numbers: any negative value is reverse,
/// zero neutral, 1 to 255 the forward gear of that number, anything above an
/// unknown gear.
pub proof fn law_truck_gears_keep_their_numbers(raw: i32, g: Gear)
    requires
        truck_gear_maps(raw, g),
    ensures
        raw < 0 ==> g == Gear::Reverse,
        raw == 0 ==> g == Gear::Neutral,
        1 <= raw <= 255 ==> (g matches Gear::Forward(n) && n.spec_number() == raw),
        raw > 255 ==> g == Gear::Unknown,
{
}

/// Each truck game has its own adapter id and display name: Euro Truck
/// Simulator 2 is `ets2`, American Truck Simulator is `ats`.
pub proof fn law_truck_games_keep_their_names(game: ScsGame)
    ensures
        scs_adapter_id(game) == (match game {
            ScsGame::Ets2 => "ets2"@,
            ScsGame::Ats => "ats"@,
        }),
        scs_display_name(game) == (match game {
            ScsGame::Ets2 => "Euro Truck Simulator 2"@,
            ScsGame::Ats => "American Truck Simulator"@,
        }),
{
}

} // verus!
