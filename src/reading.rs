use vstd::prelude::*;

verus! {

/// Charge level, in hundredths of a percent, at or above which the battery is full.
pub const FULL_LEVEL: u32 = 10000;

/// Charge level, in hundredths of a percent, at or below which the battery is critical.
pub const CRITICAL_LEVEL: u32 = 1000;

/// Charge level, in hundredths of a percent, at or below which the battery is low.
pub const LOW_LEVEL: u32 = 2500;

/// The charging state that the hardware reports.
#[derive(Clone, Copy, Debug, PartialEq, Eq, Structural)]
pub enum ChargeStatus {
    Charging,
    Discharging,
    Full,
    Unknown,
}

/// Bucket of the charge level.
#[derive(Clone, Copy, Debug, PartialEq, Eq, Structural)]
pub enum CapacityTier {
    Full,
    Critical,
    Low,
    Normal,
}

/// One poll of the battery: its status and its charge level, in hundredths
/// of a percent (a fraction of 0.5 is 5000, a full battery 10000).
#[derive(Clone, Copy, Debug, PartialEq, Eq, Structural)]
pub struct BatteryReading {
    pub status: ChargeStatus,
    pub charge: u32,
}

/// The tier of a charge level: full from 100%, critical up to 10%, low up
/// to 25%, normal in between.
pub open spec fn tier_of(charge: nat) -> CapacityTier {
    if charge >= FULL_LEVEL {
        CapacityTier::Full
    } else if charge <= CRITICAL_LEVEL {
        CapacityTier::Critical
    } else if charge <= LOW_LEVEL {
        CapacityTier::Low
    } else {
        CapacityTier::Normal
    }
}

/// The charge level as a whole percentage, rounded half up.
pub open spec fn percent_of(charge: nat) -> nat {
    (charge + 50) / 100
}

/// Classifies a charge level (hundredths of a percent).
pub fn capacity_tier(charge: u32) -> (t: CapacityTier)
    ensures
        t == tier_of(charge as nat),
        (t == CapacityTier::Full) <==> charge >= FULL_LEVEL,
        (t == CapacityTier::Critical) <==> charge <= CRITICAL_LEVEL,
        (t == CapacityTier::Low) <==> (CRITICAL_LEVEL < charge && charge <= LOW_LEVEL),
        (t == CapacityTier::Normal) <==> (LOW_LEVEL < charge && charge < FULL_LEVEL),
{
    if charge >= FULL_LEVEL {
        CapacityTier::Full
    } else if charge <= CRITICAL_LEVEL {
        CapacityTier::Critical
    } else if charge <= LOW_LEVEL {
        CapacityTier::Low
    } else {
        CapacityTier::Normal
    }
}

/// The charge level as a whole percentage, rounded half up, as it is shown
/// in a notification.
pub fn display_percent(charge: u32) -> (p: u32)
    ensures
        p as nat == percent_of(charge as nat),
{
    let whole = charge / 100;
    if charge % 100 >= 50 {
        whole + 1
    } else {
        whole
    }
}

} // verus!
