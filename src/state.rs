//! Responses sent back to the host.
use vstd::prelude::*;
use crate::metrics::{BatteryStatus, Metrics, on_battery_of, charge_of};
use crate::pressure::{Level, Reason, compute_pressure, pressure_score, pressure_reasons, level_of};

verus! {

/// The reply to a state request: the metrics snapshot, the battery fields
/// (each `None` when there is no battery reading) and the pressure reading.
pub struct StateResponse {
    pub ram_total_mb: u64,
    pub ram_used_mb: u64,
    pub ram_free_mb: u64,
    pub cpu_usage_centi: u32,
    pub on_battery: Option<bool>,
    pub battery_centi: Option<u32>,
    pub pressure_level: Level,
    pub pressure_score: u8,
    pub pressure_reasons: Vec<Reason>,
}

/// A reply frame's content.
pub enum Response {
    State(StateResponse),
    Error(String),
}

/// The message sent back for a payload that is no known request.
pub open spec fn invalid_request_message() -> Seq<char> {
    "invalid JSON request"@
}

impl StateResponse {
    /// This response reports `metrics`, `battery` and the pressure computed from them.
    pub open spec fn describes(&self, metrics: &Metrics, battery: Option<BatteryStatus>) -> bool {
        let (t, u, f, c) = (metrics.total_mb as int, metrics.used_mb as int, metrics.free_mb as int, metrics.cpu_centi as int);
        &&& self.ram_total_mb == metrics.total_mb
        &&& self.ram_used_mb == metrics.used_mb
        &&& self.ram_free_mb == metrics.free_mb
        &&& self.cpu_usage_centi == metrics.cpu_centi
        &&& self.on_battery == on_battery_of(battery)
        &&& self.battery_centi == charge_of(battery)
        &&& self.pressure_score as int == pressure_score(t, u, f, c, on_battery_of(battery))
        &&& self.pressure_level == level_of(self.pressure_score as int)
        &&& self.pressure_reasons@ == pressure_reasons(t, u, f, c, on_battery_of(battery))
    }

    /// Combines a metrics snapshot and the battery reading with the pressure
    /// computed from them.
    pub fn build(metrics: &Metrics, battery: Option<BatteryStatus>) -> (r: StateResponse)
        ensures
            r.describes(metrics, battery),
    {
        let (on_battery, battery_centi) = match battery {
            Some(b) => (Some(b.on_battery), Some(b.charge_centi)),
            None => (None, None),
        };
        let reading = compute_pressure(metrics.total_mb, metrics.used_mb, metrics.free_mb, metrics.cpu_centi, on_battery);
        StateResponse {
            ram_total_mb: metrics.total_mb,
            ram_used_mb: metrics.used_mb,
            ram_free_mb: metrics.free_mb,
            cpu_usage_centi: metrics.cpu_centi,
            on_battery,
            battery_centi,
            pressure_level: reading.level,
            pressure_score: reading.score,
            pressure_reasons: reading.reasons,
        }
    }
}

impl Response {
    /// The reply to a payload that is no known request.
    pub fn invalid_request() -> (r: Response)
        ensures
            r matches Response::Error(m) && m@ == invalid_request_message(),
    {
        Response::Error("invalid JSON request".to_owned())
    }
}

} // verus!
