use native_host::pressure::{compute_pressure, level_for_score, Level, Reason};

#[test]
fn zero_total_is_low_with_no_reasons() {
    for cpu in [0u32, 5000, 9900, 10000, u32::MAX] {
        for battery in [None, Some(false), Some(true)] {
            let r = compute_pressure(0, 0, 0, cpu, battery);
            assert_eq!(r.score, 0);
            assert_eq!(r.level, Level::Low);
            assert!(r.reasons.is_empty());
        }
    }
}

#[test]
fn ram_score_never_decreases_as_used_grows() {
    let total: u64 = 1000;
    let mut last: u8 = 0;
    for used in 0..=total {
        let r = compute_pressure(total, used, total - used, 0, None);
        assert!(r.score >= last, "used {} gave {} after {}", used, r.score, last);
        last = r.score;
    }
    assert_eq!(last, 70);
}

#[test]
fn score_stays_within_bounds() {
    for used in [0u64, 500, 700, 850, 950, 1000, 2000] {
        for cpu in [0u32, 4000, 7000, 9500, 20000] {
            for battery in [None, Some(false), Some(true)] {
                let r = compute_pressure(1000, used, 1000u64.saturating_sub(used), cpu, battery);
                assert!(r.score <= 100);
                assert_eq!(r.level, level_for_score(r.score));
            }
        }
    }
}

#[test]
fn level_bands_at_boundaries() {
    assert_eq!(level_for_score(0), Level::Low);
    assert_eq!(level_for_score(49), Level::Low);
    assert_eq!(level_for_score(50), Level::Medium);
    assert_eq!(level_for_score(74), Level::Medium);
    assert_eq!(level_for_score(75), Level::High);
    assert_eq!(level_for_score(100), Level::High);
}

#[test]
fn reasons_come_in_fixed_order_and_repeat_identically() {
    let a = compute_pressure(16000, 15500, 500, 9500, Some(true));
    let b = compute_pressure(16000, 15500, 500, 9500, Some(true));
    assert_eq!(a.reasons, b.reasons);
    assert_eq!(
        a.reasons,
        vec![Reason::RamElevated, Reason::RamHigh, Reason::CpuElevated, Reason::CpuHigh, Reason::OnBattery]
    );
    let c = compute_pressure(1000, 900, 100, 8000, None);
    assert_eq!(c.reasons, vec![Reason::RamElevated, Reason::CpuElevated]);
}

#[test]
fn example_relaxed_machine() {
    let r = compute_pressure(16000, 8000, 8000, 1000, None);
    assert_eq!(r.score, 0);
    assert_eq!(r.level, Level::Low);
    assert!(r.reasons.is_empty());
}

#[test]
fn example_saturated_machine_on_battery() {
    let r = compute_pressure(16000, 15500, 500, 9500, Some(true));
    assert_eq!(r.score, 100);
    assert_eq!(r.level, Level::High);
    let codes: Vec<&str> = r.reasons.iter().map(|x| x.code()).collect();
    assert_eq!(codes, vec!["RAM_ELEVATED", "RAM_HIGH", "CPU_ELEVATED", "CPU_HIGH", "ON_BATTERY"]);
    assert_eq!(r.level.as_str(), "HIGH");
}

#[test]
fn used_ramp_midpoint_rounds() {
    // 85% used: (0.85 - 0.70) / 0.25 * 70 = 42; 15% free: 23.33 rounds to 23;
    // 60% CPU: 20 / 55 * 20 = 7.27 rounds to 7.
    let r = compute_pressure(1000, 850, 150, 6000, None);
    assert_eq!(r.score, 49);
    assert_eq!(r.level, Level::Low);
    assert!(r.reasons.is_empty());
}

#[test]
fn free_ramp_alone() {
    // 12.5% free: (0.20 - 0.125) / 0.15 * 70 = 35, used counts for nothing.
    let r = compute_pressure(1000, 0, 125, 0, None);
    assert_eq!(r.score, 35);
    assert!(r.reasons.is_empty());
    let r = compute_pressure(1000, 0, 100, 0, None);
    assert_eq!(r.reasons, vec![Reason::RamElevated]);
}

#[test]
fn cpu_ramp_alone() {
    // 67.5%: 27.5 / 55 * 20 = 10.
    assert_eq!(compute_pressure(1000, 0, 1000, 6750, None).score, 10);
    // Half a point rounds up: 40% + 1.375% gives 0.5 points.
    assert_eq!(compute_pressure(1000, 0, 1000, 4138, None).score, 1);
    assert_eq!(compute_pressure(1000, 0, 1000, 4137, None).score, 0);
    let r = compute_pressure(1000, 0, 1000, 9001, None);
    assert_eq!(r.score, 18);
    assert_eq!(r.reasons, vec![Reason::CpuElevated, Reason::CpuHigh]);
    assert_eq!(compute_pressure(1000, 0, 1000, 7500, None).reasons, vec![]);
}

#[test]
fn battery_bonus_only_when_discharging() {
    assert_eq!(compute_pressure(1000, 0, 1000, 0, Some(true)).score, 10);
    assert_eq!(compute_pressure(1000, 0, 1000, 0, Some(false)).score, 0);
    assert_eq!(compute_pressure(1000, 0, 1000, 0, None).score, 0);
}

#[test]
fn medium_and_high_levels_from_inputs() {
    // 90% used: 56 points; free 10%: 46.67 rounds to 47; RAM 56.
    let r = compute_pressure(1000, 900, 100, 0, None);
    assert_eq!(r.score, 56);
    assert_eq!(r.level, Level::Medium);
    assert_eq!(r.level.as_str(), "MEDIUM");
    let r = compute_pressure(1000, 900, 100, 9500, None);
    assert_eq!(r.score, 76);
    assert_eq!(r.level, Level::High);
    assert_eq!(Level::Low.as_str(), "LOW");
}

#[test]
fn huge_memory_sizes_do_not_overflow() {
    let r = compute_pressure(u64::MAX, u64::MAX, 0, u32::MAX, Some(true));
    assert_eq!(r.score, 100);
}
