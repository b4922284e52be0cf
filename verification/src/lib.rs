//! A minimal real-time arena simulation: a controllable actor moves on a 2D
//! plane while transient area hazards spawn at a fixed cadence, grow over a
//! countdown, and on expiry damage the actor if it stands inside their area.
//!
//! All scalar quantities are fixed-point integers: distances, speeds, damage
//! and health are carried in thousandths of a world unit ("milli-units"),
//! and time is carried in milliseconds. This keeps every computation exact.

pub mod actor;
pub mod config;
pub mod geom;
pub mod hazard;
pub mod sim;
pub mod spawner;
pub mod timer;
