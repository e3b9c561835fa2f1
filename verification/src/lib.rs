//! The verified core of a robot control panel: single-slot bridging of
//! background work into a redraw loop, transform selection upkeep, joined
//! telemetry lookups and command patch assembly.

pub mod command;
pub mod export;
pub mod json;
pub mod keys;
pub mod lookup;
pub mod patch;
pub mod robot;
pub mod scalar;
pub mod slot;
pub mod telemetry;
pub mod text;
pub mod transforms;
