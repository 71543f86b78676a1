//! Game-neutral telemetry model, adapters, configuration and plugin rules
//! for a car-dashboard host, with their behaviour stated as Verus contracts.

pub mod text;
pub mod readback;
pub mod slugs;
pub mod telemetry;
pub mod adapter;
pub mod f1;
pub mod config;
pub mod plugin;
pub mod protocol;
pub mod scs;
