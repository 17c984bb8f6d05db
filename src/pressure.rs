//! The pressure engine: a pure function from a metrics snapshot and the
//! battery state to a score, a level and reason codes.
//!
//! All ratios are evaluated exactly over integers: `used / total <= 0.70` is
//! checked as `100 * used <= 70 * total`, and so on. The CPU load is given in
//! hundredths of a percent. Sub-scores are rounded to the nearest integer with
//! halves going up, before they are summed.
use vstd::prelude::*;
use vstd::arithmetic::div_mod::lemma_div_is_ordered;

verus! {

/// Qualitative pressure level.
#[derive(Clone, Copy, Debug, PartialEq, Eq, Structural)]
pub enum Level {
    Low,
    Medium,
    High,
}

/// Machine-readable reason codes, listed in the order in which they are reported.
#[derive(Clone, Copy, Debug, PartialEq, Eq, Structural)]
pub enum Reason {
    RamElevated,
    RamHigh,
    CpuElevated,
    CpuHigh,
    OnBattery,
}

/// The outcome of one pressure computation.
pub struct PressureReading {
    pub score: u8,
    pub level: Level,
    pub reasons: Vec<Reason>,
}

impl Level {
    /// The level's name on the wire: `LOW`, `MEDIUM` or `HIGH`.
    pub fn as_str(&self) -> (r: &'static str)
        ensures
            r@ == level_name(*self),
    {
        match self {
            Level::Low => "LOW",
            Level::Medium => "MEDIUM",
            Level::High => "HIGH",
        }
    }
}

impl Reason {
    /// The reason code on the wire, such as `RAM_HIGH`.
    pub fn code(&self) -> (r: &'static str)
        ensures
            r@ == reason_code(*self),
    {
        match self {
            Reason::RamElevated => "RAM_ELEVATED",
            Reason::RamHigh => "RAM_HIGH",
            Reason::CpuElevated => "CPU_ELEVATED",
            Reason::CpuHigh => "CPU_HIGH",
            Reason::OnBattery => "ON_BATTERY",
        }
    }
}

pub open spec fn level_name(l: Level) -> Seq<char> {
    match l {
        Level::Low => "LOW"@,
        Level::Medium => "MEDIUM"@,
        Level::High => "HIGH"@,
    }
}

pub open spec fn reason_code(r: Reason) -> Seq<char> {
    match r {
        Reason::RamElevated => "RAM_ELEVATED"@,
        Reason::RamHigh => "RAM_HIGH"@,
        Reason::CpuElevated => "CPU_ELEVATED"@,
        Reason::CpuHigh => "CPU_HIGH"@,
        Reason::OnBattery => "ON_BATTERY"@,
    }
}

/// Rounded quotient `n / d`, halves going up, for a result known to be at most `k`.
fn round_div_exec(n: u128, d: u128, k: Ghost<int>) -> (r: u8)
    requires
        0 < d,
        n <= k@ * d,
        0 <= k@ <= 100,
        d <= 0x1_0000_0000_0000_0000_0000,
    ensures
        r as int == round_div(n as int, d as int),
{
    proof {
        lemma_round_div_bounds(n as int, d as int, k@);
        assert(2 * n + d <= 201 * d) by (nonlinear_arith)
            requires
                n <= k@ * d,
                k@ <= 100;
    }
    ((2 * n + d) / (2 * d)) as u8
}

/// Points of the used-memory ramp.
fn used_ramp(used: u64, total: u64) -> (r: u8)
    requires
        total > 0,
    ensures
        r as int == used_points(used as int, total as int),
{
    let u = used as u128;
    let t = total as u128;
    if 100 * u <= 70 * t {
        0
    } else if 100 * u >= 95 * t {
        70
    } else {
        round_div_exec(280 * u - 196 * t, t, Ghost(70))
    }
}

/// Points of the free-memory ramp.
fn free_ramp(free: u64, total: u64) -> (r: u8)
    requires
        total > 0,
    ensures
        r as int == free_points(free as int, total as int),
{
    let f = free as u128;
    let t = total as u128;
    if 100 * f >= 20 * t {
        0
    } else if 100 * f <= 5 * t {
        70
    } else {
        round_div_exec(280 * t - 1400 * f, 3 * t, Ghost(70))
    }
}

/// Points of the CPU ramp.
fn cpu_ramp(cpu_centi: u32) -> (r: u8)
    ensures
        r as int == cpu_points(cpu_centi as int),
{
    if cpu_centi <= 4000 {
        0
    } else if cpu_centi >= 9500 {
        20
    } else {
        round_div_exec((cpu_centi - 4000) as u128, 275, Ghost(20))
    }
}

/// The level band of a score: 75 and above is high, 50 to 74 medium, below 50 low.
pub fn level_for_score(score: u8) -> (r: Level)
    ensures
        r == level_of(score as int),
{
    if score >= 75 {
        Level::High
    } else if score >= 50 {
        Level::Medium
    } else {
        Level::Low
    }
}

/// Computes the pressure reading of one snapshot: memory in MiB (total, used,
/// free), CPU load in hundredths of a percent, and whether the machine runs on
/// battery (`None` when unknown). A zero total yields a low reading with a
/// score of 0 and no reasons.
pub fn compute_pressure(total_mb: u64, used_mb: u64, free_mb: u64, cpu_centi: u32, on_battery: Option<bool>) -> (r:
    PressureReading)
    ensures
        r.score as int == pressure_score(total_mb as int, used_mb as int, free_mb as int, cpu_centi as int, on_battery),
        r.score <= 100,
        r.level == level_of(r.score as int),
        r.reasons@ == pressure_reasons(total_mb as int, used_mb as int, free_mb as int, cpu_centi as int, on_battery),
        total_mb == 0 ==> r.score == 0 && r.level == Level::Low && r.reasons@.len() == 0,
{
    if total_mb == 0 {
        return PressureReading { score: 0, level: Level::Low, reasons: Vec::new() };
    }
    let used_score = used_ramp(used_mb, total_mb);
    let free_score = free_ramp(free_mb, total_mb);
    let ram_score = if used_score >= free_score { used_score } else { free_score };
    let cpu_score = cpu_ramp(cpu_centi);
    let battery_score: u8 = if on_battery == Some(true) { 10 } else { 0 };
    proof {
        lemma_used_points_bounds(used_mb as int, total_mb as int);
        lemma_free_points_bounds(free_mb as int, total_mb as int);
        lemma_cpu_points_bounds(cpu_centi as int);
    }
    let sum = ram_score + cpu_score + battery_score;
    let score = if sum > 100 { 100 } else { sum };

    let t = total_mb as u128;
    let u = used_mb as u128;
    let f = free_mb as u128;
    let mut reasons: Vec<Reason> = Vec::new();
    if 100 * f < 12 * t || 100 * u > 85 * t {
        reasons.push(Reason::RamElevated);
    }
    if 100 * f < 7 * t || 100 * u > 93 * t {
        reasons.push(Reason::RamHigh);
    }
    if cpu_centi > 7500 {
        reasons.push(Reason::CpuElevated);
    }
    if cpu_centi > 9000 {
        reasons.push(Reason::CpuHigh);
    }
    if on_battery == Some(true) {
        reasons.push(Reason::OnBattery);
    }
    PressureReading { score, level: level_for_score(score), reasons }
}

/// `n / d` rounded to the nearest integer, halves going up (for `n >= 0`, `d > 0`).
pub open spec fn round_div(n: int, d: int) -> int {
    (2 * n + d) / (2 * d)
}

/// Used-memory ramp: 0 points up to 70% used, 70 points from 95% used,
/// linear in between (`(used / total - 0.70) / 0.25 * 70`).
pub open spec fn used_points(used: int, total: int) -> int {
    if 100 * used <= 70 * total {
        0
    } else if 100 * used >= 95 * total {
        70
    } else {
        round_div(280 * used - 196 * total, total)
    }
}

/// Free-memory ramp: 0 points from 20% free, 70 points up to 5% free,
/// linear in between (`(0.20 - free / total) / 0.15 * 70`).
pub open spec fn free_points(free: int, total: int) -> int {
    if 100 * free >= 20 * total {
        0
    } else if 100 * free <= 5 * total {
        70
    } else {
        round_div(280 * total - 1400 * free, 3 * total)
    }
}

/// RAM sub-score: the worse of the two memory ramps; 0 when `total` is 0.
pub open spec fn ram_points(total: int, used: int, free: int) -> int {
    if total == 0 {
        0
    } else {
        let a = used_points(used, total);
        let b = free_points(free, total);
        if a >= b { a } else { b }
    }
}

/// CPU sub-score for a load in hundredths of a percent: 0 points up to 40%,
/// 20 points from 95%, linear in between (`(cpu - 40) / 55 * 20`).
pub open spec fn cpu_points(cpu_centi: int) -> int {
    if cpu_centi <= 4000 {
        0
    } else if cpu_centi >= 9500 {
        20
    } else {
        round_div(cpu_centi - 4000, 275)
    }
}

/// Battery bonus: 10 points when running on battery, else 0.
pub open spec fn battery_points(on_battery: Option<bool>) -> int {
    if on_battery == Some(true) { 10 } else { 0 }
}

/// The pressure score: the sum of the sub-scores, clamped to 100;
/// 0 when `total` is 0.
pub open spec fn pressure_score(total: int, used: int, free: int, cpu_centi: int, on_battery: Option<bool>) -> int {
    if total == 0 {
        0
    } else {
        let s = ram_points(total, used, free) + cpu_points(cpu_centi) + battery_points(on_battery);
        if s > 100 { 100 } else if s < 0 { 0 } else { s }
    }
}

/// The level band of a score: 75 and above is high, 50 to 74 medium, below 50 low.
pub open spec fn level_of(score: int) -> Level {
    if score >= 75 {
        Level::High
    } else if score >= 50 {
        Level::Medium
    } else {
        Level::Low
    }
}

/// Free memory below 12% of the total, or used memory above 85%.
pub open spec fn ram_elevated(total: int, used: int, free: int) -> bool {
    100 * free < 12 * total || 100 * used > 85 * total
}

/// Free memory below 7% of the total, or used memory above 93%.
pub open spec fn ram_high(total: int, used: int, free: int) -> bool {
    100 * free < 7 * total || 100 * used > 93 * total
}

/// Appends `r` to `s` when `cond` holds.
pub open spec fn push_if(s: Seq<Reason>, cond: bool, r: Reason) -> Seq<Reason> {
    if cond { s.push(r) } else { s }
}

/// The reason codes, in their fixed order; none when `total` is 0.
pub open spec fn pressure_reasons(total: int, used: int, free: int, cpu_centi: int, on_battery: Option<bool>) -> Seq<Reason> {
    if total == 0 {
        Seq::empty()
    } else {
        let s0 = Seq::<Reason>::empty();
        let s1 = push_if(s0, ram_elevated(total, used, free), Reason::RamElevated);
        let s2 = push_if(s1, ram_high(total, used, free), Reason::RamHigh);
        let s3 = push_if(s2, cpu_centi > 7500, Reason::CpuElevated);
        let s4 = push_if(s3, cpu_centi > 9000, Reason::CpuHigh);
        push_if(s4, on_battery == Some(true), Reason::OnBattery)
    }
}

/// Position of a reason code in the reporting order.
pub open spec fn reason_rank(r: Reason) -> int {
    match r {
        Reason::RamElevated => 0,
        Reason::RamHigh => 1,
        Reason::CpuElevated => 2,
        Reason::CpuHigh => 3,
        Reason::OnBattery => 4,
    }
}

/// A rounded quotient of a value between 0 and `k * d` lies between 0 and `k`.
proof fn lemma_round_div_bounds(n: int, d: int, k: int)
    requires
        0 <= n <= k * d,
        0 < d,
        0 <= k,
    ensures
        0 <= round_div(n, d) <= k,
{
    assert(0 <= (2 * n + d) / (2 * d) <= k) by (nonlinear_arith)
        requires
            0 <= n <= k * d,
            0 < d,
            0 <= k,
    {
        assert(2 * n + d < (k + 1) * (2 * d));
    }
}

/// Rounded quotients keep the order of their numerators.
proof fn lemma_round_div_monotone(n1: int, n2: int, d: int)
    requires
        n1 <= n2,
        0 < d,
    ensures
        round_div(n1, d) <= round_div(n2, d),
{
    lemma_div_is_ordered(2 * n1 + d, 2 * n2 + d, 2 * d);
}

proof fn lemma_used_points_bounds(used: int, total: int)
    requires
        0 <= used,
        0 < total,
    ensures
        0 <= used_points(used, total) <= 70,
{
    if 70 * total < 100 * used < 95 * total {
        lemma_round_div_bounds(280 * used - 196 * total, total, 70);
    }
}

proof fn lemma_free_points_bounds(free: int, total: int)
    requires
        0 <= free,
        0 < total,
    ensures
        0 <= free_points(free, total) <= 70,
{
    if 5 * total < 100 * free < 20 * total {
        lemma_round_div_bounds(280 * total - 1400 * free, 3 * total, 70);
    }
}

proof fn lemma_cpu_points_bounds(cpu_centi: int)
    ensures
        0 <= cpu_points(cpu_centi) <= 20,
{
    if 4000 < cpu_centi < 9500 {
        lemma_round_div_bounds(cpu_centi - 4000, 275, 20);
    }
}

/// The used-memory ramp never decreases as used memory grows.
proof fn lemma_used_points_monotone(u1: int, u2: int, total: int)
    requires
        0 <= u1 <= u2,
        0 < total,
    ensures
        used_points(u1, total) <= used_points(u2, total),
{
    lemma_used_points_bounds(u1, total);
    lemma_used_points_bounds(u2, total);
    if 70 * total < 100 * u1 && 100 * u2 < 95 * total {
        lemma_round_div_monotone(280 * u1 - 196 * total, 280 * u2 - 196 * total, total);
    }
}

/// The free-memory ramp never decreases as free memory shrinks.
proof fn lemma_free_points_antitone(f1: int, f2: int, total: int)
    requires
        0 <= f2 <= f1,
        0 < total,
    ensures
        free_points(f1, total) <= free_points(f2, total),
{
    lemma_free_points_bounds(f1, total);
    lemma_free_points_bounds(f2, total);
    if 100 * f1 < 20 * total && 5 * total < 100 * f2 {
        lemma_round_div_monotone(280 * total - 1400 * f1, 280 * total - 1400 * f2, 3 * total);
    }
}

/// With the total fixed and free memory the rest of it, the RAM sub-score
/// never decreases as used memory grows (and free memory shrinks).
pub proof fn lemma_ram_points_monotone(total: u64, used1: u64, used2: u64)
    requires
        used1 <= used2 <= total,
    ensures
        ram_points(total as int, used1 as int, total - used1) <= ram_points(
            total as int,
            used2 as int,
            total - used2,
        ),
{
    if total > 0 {
        lemma_used_points_monotone(used1 as int, used2 as int, total as int);
        lemma_free_points_antitone(total - used1, total - used2, total as int);
    }
}

/// The score always lies in `[0, 100]`.
pub proof fn lemma_score_bounds(total: u64, used: u64, free: u64, cpu_centi: u32, on_battery: Option<bool>)
    ensures
        0 <= pressure_score(total as int, used as int, free as int, cpu_centi as int, on_battery) <= 100,
{
}

/// Reason codes depend on the inputs alone: two computations on the same
/// inputs report the same codes, in the same order.
pub proof fn lemma_reasons_deterministic(
    total: u64,
    used: u64,
    free: u64,
    cpu_centi: u32,
    on_battery: Option<bool>,
    first: Seq<Reason>,
    second: Seq<Reason>,
)
    requires
        first == pressure_reasons(total as int, used as int, free as int, cpu_centi as int, on_battery),
        second == pressure_reasons(total as int, used as int, free as int, cpu_centi as int, on_battery),
    ensures
        first == second,
{
}

/// Every code of `s` ranks below `k`, and ranks strictly increase along `s`.
pub open spec fn ranked_below(s: Seq<Reason>, k: int) -> bool {
    &&& forall|i: int| 0 <= i < s.len() ==> reason_rank(#[trigger] s[i]) < k
    &&& forall|i: int, j: int|
        0 <= i < j < s.len() ==> reason_rank(#[trigger] s[i]) < reason_rank(#[trigger] s[j])
}

proof fn lemma_push_if_ranked(s: Seq<Reason>, cond: bool, r: Reason)
    requires
        ranked_below(s, reason_rank(r)),
    ensures
        ranked_below(push_if(s, cond, r), reason_rank(r) + 1),
{
    let t = push_if(s, cond, r);
    if cond {
        assert forall|i: int| 0 <= i < t.len() implies reason_rank(#[trigger] t[i]) < reason_rank(r) + 1 by {
            if i < s.len() {
                assert(t[i] == s[i]);
            }
        }
        assert forall|i: int, j: int| 0 <= i < j < t.len() implies reason_rank(#[trigger] t[i]) < reason_rank(
            #[trigger] t[j],
        ) by {
            assert(t[i] == s[i]);
            if j < s.len() {
                assert(t[j] == s[j]);
            }
        }
    }
}

/// Reason codes come in their fixed order, each at most once.
pub proof fn lemma_reasons_ordered(total: u64, used: u64, free: u64, cpu_centi: u32, on_battery: Option<bool>)
    ensures
        ranked_below(pressure_reasons(total as int, used as int, free as int, cpu_centi as int, on_battery), 5),
{
    let (t, u, f, c) = (total as int, used as int, free as int, cpu_centi as int);
    if total > 0 {
        let s0 = Seq::<Reason>::empty();
        let s1 = push_if(s0, ram_elevated(t, u, f), Reason::RamElevated);
        let s2 = push_if(s1, ram_high(t, u, f), Reason::RamHigh);
        let s3 = push_if(s2, c > 7500, Reason::CpuElevated);
        let s4 = push_if(s3, c > 9000, Reason::CpuHigh);
        lemma_push_if_ranked(s0, ram_elevated(t, u, f), Reason::RamElevated);
        lemma_push_if_ranked(s1, ram_high(t, u, f), Reason::RamHigh);
        lemma_push_if_ranked(s2, c > 7500, Reason::CpuElevated);
        lemma_push_if_ranked(s3, c > 9000, Reason::CpuHigh);
        lemma_push_if_ranked(s4, on_battery == Some(true), Reason::OnBattery);
    }
}

} // verus!
