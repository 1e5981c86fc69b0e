use usage_dashboard::calendar::calculate_next_month_reset;
use usage_dashboard::copilot::{
    build_copilot_usage, default_monthly_limit, AppConfig, GitHubConfig, RawUsageItem,
    DEFAULT_MONTHLY_LIMIT,
};
use usage_dashboard::errors::{ConfigError, SecondaryError};

// 2026-10-12T15:30:00Z
const MID_OCTOBER: u64 = 1791819000;
// 2025-12-15T08:00:00Z
const MID_DECEMBER: u64 = 1765785600;
// 2026-02-03T00:00:00Z
const EARLY_FEBRUARY: u64 = 1770076800;

#[test]
fn reset_lands_on_the_first_of_the_next_month() {
    let s = calculate_next_month_reset(MID_OCTOBER).expect("an ordinary clock has a next month");
    assert_eq!(s, "2026-11-01T00:00:00+00:00");
}

#[test]
fn reset_rolls_a_december_over_into_january() {
    let s = calculate_next_month_reset(MID_DECEMBER).expect("an ordinary clock has a next month");
    assert_eq!(s, "2026-01-01T00:00:00+00:00");
}

#[test]
fn reset_from_the_first_of_a_month_is_the_next_first() {
    let s = calculate_next_month_reset(EARLY_FEBRUARY).expect("an ordinary clock has a next month");
    assert_eq!(s, "2026-03-01T00:00:00+00:00");
}

#[test]
fn usage_report_sums_quantities_and_keeps_fully_named_lines() {
    let items = vec![
        RawUsageItem { model: Some("alpha".to_string()), gross_quantity: Some(9000) },
        RawUsageItem { model: None, gross_quantity: Some(3000) },
        RawUsageItem { model: Some("beta".to_string()), gross_quantity: None },
    ];
    let d = build_copilot_usage(&items, 30000, MID_OCTOBER).expect("valid report must build");
    // 120.00 requests against a 300.00 allowance: 40.00 percent.
    assert_eq!(d.total_requests, 12000);
    assert_eq!(d.monthly_limit, 30000);
    assert_eq!(d.utilization, 4000);
    assert_eq!(d.resets_at, "2026-11-01T00:00:00+00:00");
    assert_eq!(d.items.len(), 1);
    assert_eq!(d.items[0].model, "alpha");
    assert_eq!(d.items[0].gross_quantity, 9000);
}

#[test]
fn empty_report_builds_with_zero_totals() {
    let d = build_copilot_usage(&vec![], 30000, MID_OCTOBER).expect("empty report must build");
    assert_eq!(d.total_requests, 0);
    assert_eq!(d.utilization, 0);
    assert!(d.items.is_empty());
}

#[test]
fn utilization_rounds_down_to_hundredths_of_a_percent() {
    let items = vec![RawUsageItem { model: Some("m".to_string()), gross_quantity: Some(100) }];
    // 1.00 request of 300.00: 0.3333...%, carried as 33 hundredths.
    let d = build_copilot_usage(&items, 30000, MID_OCTOBER).expect("valid report must build");
    assert_eq!(d.utilization, 33);
}

#[test]
fn clock_out_of_calendar_range_has_no_reset_date() {
    // Far outside the range the calendar covers once cast to signed seconds.
    let far_out: u64 = 1 << 63;
    assert!(calculate_next_month_reset(far_out).is_none());
    let r = build_copilot_usage(&vec![], 30000, far_out);
    assert_eq!(r.unwrap_err(), SecondaryError::ResetDateUnavailable);
}

#[test]
fn zero_monthly_limit_is_rejected() {
    let r = build_copilot_usage(&vec![], 0, MID_OCTOBER);
    assert_eq!(r.unwrap_err(), SecondaryError::InvalidMonthlyLimit);
}

#[test]
fn default_limit_is_three_hundred_requests() {
    assert_eq!(default_monthly_limit(), DEFAULT_MONTHLY_LIMIT);
    assert_eq!(default_monthly_limit(), 30000);
}

#[test]
fn config_with_zero_limit_is_rejected_where_it_is_set() {
    let r = GitHubConfig::new("user".to_string(), "tok".to_string(), 0);
    assert_eq!(r.unwrap_err(), ConfigError::InvalidMonthlyLimit);
}

#[test]
fn config_with_positive_limit_is_kept_as_given() {
    let c = GitHubConfig::new("user".to_string(), "tok".to_string(), 30000)
        .expect("positive limit is valid");
    assert_eq!(c.username, "user");
    assert_eq!(c.token, "tok");
    assert_eq!(c.monthly_limit, 30000);
}

#[test]
fn app_config_starts_empty_and_takes_a_secondary_section() {
    let mut config = AppConfig::empty();
    assert!(config.github.is_none());
    let gh = GitHubConfig::new("user".to_string(), "tok".to_string(), 30000)
        .expect("positive limit is valid");
    config.set_github(gh);
    let stored = config.github.expect("the section was just set");
    assert_eq!(stored.username, "user");
}
