//! Decisions of a desktop battery watcher: which capacity tier a charge
//! level falls in, which notifications a new reading calls for, and when the
//! polling loop stops.
pub mod control;
pub mod message;
pub mod notice;
pub mod reading;
pub mod tracker;

pub use control::{Phase, Step, Watcher};
pub use message::{push_decimal, Icon, Notification};
pub use notice::{status_notification, tier_notification};
pub use reading::{capacity_tier, display_percent, BatteryReading, CapacityTier, ChargeStatus};
pub use tracker::{evaluate, TrackedState};
