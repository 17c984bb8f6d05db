//! Snapshots that the metrics and battery providers hand in.
use vstd::prelude::*;

verus! {

/// Bytes in one MiB.
pub const BYTES_PER_MB: u64 = 1_048_576;

/// Largest battery charge: 100% in hundredths of a percent.
pub const FULL_CHARGE_CENTI: u32 = 10_000;

/// One reading of memory (in MiB) and CPU load (in hundredths of a percent).
/// A zero total stands for metrics that could not be read.
pub struct Metrics {
    pub total_mb: u64,
    pub used_mb: u64,
    pub free_mb: u64,
    pub cpu_centi: u32,
}

impl Metrics {
    /// Free memory is what remains of the total after the used part, or 0.
    pub open spec fn wf(&self) -> bool {
        self.free_mb == if self.used_mb <= self.total_mb { self.total_mb - self.used_mb } else { 0 }
    }

    /// Builds a snapshot from memory sizes in bytes and a CPU load in
    /// hundredths of a percent; sizes are rounded down to whole MiB.
    pub fn from_memory_bytes(total_bytes: u64, used_bytes: u64, cpu_centi: u32) -> (r: Metrics)
        ensures
            r.wf(),
            r.total_mb == total_bytes / BYTES_PER_MB,
            r.used_mb == used_bytes / BYTES_PER_MB,
            r.cpu_centi == cpu_centi,
    {
        let total_mb = total_bytes / BYTES_PER_MB;
        let used_mb = used_bytes / BYTES_PER_MB;
        let free_mb = total_mb.saturating_sub(used_mb);
        Metrics { total_mb, used_mb, free_mb, cpu_centi }
    }
}

/// What the battery provider reports when a battery is present: whether the
/// machine runs on it, and its charge in hundredths of a percent.
#[derive(Clone, Copy, Debug, PartialEq, Eq, Structural)]
pub struct BatteryStatus {
    pub on_battery: bool,
    pub charge_centi: u32,
}

impl BatteryStatus {
    /// The charge lies within 0% to 100%.
    pub open spec fn wf(&self) -> bool {
        self.charge_centi <= FULL_CHARGE_CENTI
    }

    /// Builds a status from a discharging flag and a charge reading, which is
    /// capped at 100%.
    pub fn new(on_battery: bool, charge_centi: u32) -> (r: BatteryStatus)
        ensures
            r.wf(),
            r.on_battery == on_battery,
            r.charge_centi == if charge_centi <= FULL_CHARGE_CENTI { charge_centi } else { FULL_CHARGE_CENTI },
    {
        let charge_centi = if charge_centi <= FULL_CHARGE_CENTI { charge_centi } else { FULL_CHARGE_CENTI };
        BatteryStatus { on_battery, charge_centi }
    }
}

/// Whether the machine runs on battery, or `None` when there is no battery reading.
pub open spec fn on_battery_of(battery: Option<BatteryStatus>) -> Option<bool> {
    match battery {
        Some(b) => Some(b.on_battery),
        None => None,
    }
}

/// The charge in hundredths of a percent, or `None` when there is no battery reading.
pub open spec fn charge_of(battery: Option<BatteryStatus>) -> Option<u32> {
    match battery {
        Some(b) => Some(b.charge_centi),
        None => None,
    }
}

} // verus!
