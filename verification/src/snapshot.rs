//! The readings the monitor works on.
//!
//! A battery reading is modelled with plain values: the charging state as an
//! enum, the time until the battery is full in whole seconds, and the charge
//! as a fraction of full capacity in thousandths (per mille), so that the
//! critical threshold of 0.15 is the exact integer 150.

use vstd::prelude::*;

verus! {

/// Charge level, in thousandths of full capacity, at or below which a
/// low-charge notification is due.
pub const CRITICAL_CHARGE_PERMILLE: u32 = 150;

/// How long a notification stays on screen, in milliseconds.
pub const NOTIFICATION_TIMEOUT_MS: i32 = 3000;

/// How long the monitor loop sleeps between ticks, in milliseconds.
pub const POLL_INTERVAL_MS: u64 = 1000;

/// Categorical status of the battery, as the power supply reports it.
#[derive(Clone, Copy, Debug, PartialEq, Eq, Structural)]
pub enum ChargingState {
    Unknown,
    Charging,
    Discharging,
    Empty,
    Full,
}

/// One successful battery reading.
#[derive(Clone, Copy, Debug)]
pub struct BatterySnapshot {
    /// Charging state at the time of the reading.
    pub state: ChargingState,
    /// Seconds until the battery is full, when the power supply reports it.
    pub time_to_full_secs: Option<u64>,
    /// Charge as a fraction of full capacity, in thousandths: 0 is empty,
    /// 1000 is full.
    pub charge_permille: u32,
}

impl BatterySnapshot {
    /// A charge fraction lies in [0, 1], so its per-mille value is at most 1000.
    pub open spec fn wf(self) -> bool {
        self.charge_permille <= 1000
    }
}

/// Whether a charge level is at or below the critical threshold.
pub open spec fn spec_is_low(charge_permille: u32) -> bool {
    charge_permille <= CRITICAL_CHARGE_PERMILLE
}

/// What one tick of the monitor loop observed: a reading, or a failure to
/// read, which the state machine must absorb without advancing.
#[derive(Clone, Copy, Debug)]
pub enum TickEvent {
    Read(BatterySnapshot),
    ReadFailed,
}

} // verus!
