use zeroclaw_tools::schedule::{
    next_run_for_schedule, normalize_expression, schedule_cron_expression, shift_dow_field,
    shift_dow_value, validate_schedule, Schedule,
};

#[test]
fn shift_dow_field_handles_lists_and_steps() {
    assert_eq!(shift_dow_field("*").unwrap(), "*");
    assert_eq!(shift_dow_field("0").unwrap(), "1"); // Sun
    assert_eq!(shift_dow_field("5").unwrap(), "6"); // Fri
    assert_eq!(shift_dow_field("1-5").unwrap(), "2-6"); // Mon-Fri
    assert_eq!(shift_dow_field("0,6").unwrap(), "1,7"); // Sun,Sat
    assert_eq!(shift_dow_field("*/2").unwrap(), "*/2"); // every 2nd day
    assert_eq!(shift_dow_field("1-5/2").unwrap(), "2-6/2");
    assert_eq!(shift_dow_field("7").unwrap(), "1"); // 7=Sun alias
}

#[test]
fn shift_dow_value_shifts_and_rejects() {
    assert_eq!(shift_dow_value("0").unwrap(), 1);
    assert_eq!(shift_dow_value("6").unwrap(), 7);
    assert_eq!(shift_dow_value("7").unwrap(), 1);
    let err = shift_dow_value("8").unwrap_err();
    assert_eq!(err, "Day-of-week value out of range: 8");
    let err = shift_dow_value("x").unwrap_err();
    assert_eq!(err, "Invalid day-of-week value: x");
}

#[test]
fn normalize_five_field_expression() {
    assert_eq!(normalize_expression("30 7 * * 1-5").unwrap(), "0 30 7 * * 2-6");
    assert_eq!(normalize_expression("  0 12 * * 0  ").unwrap(), "0 0 12 * * 1");
}

#[test]
fn normalize_passes_six_and_seven_fields() {
    assert_eq!(normalize_expression("0 30 7 * * 2-6").unwrap(), "0 30 7 * * 2-6");
    assert_eq!(normalize_expression("0 30 7 * * 2-6 2026").unwrap(), "0 30 7 * * 2-6 2026");
}

#[test]
fn normalize_rejects_wrong_field_count() {
    let err = normalize_expression("1 2 3").unwrap_err();
    assert_eq!(
        err,
        "Invalid cron expression: 1 2 3 (expected 5, 6, or 7 fields, got 3)"
    );
}

#[test]
fn schedule_cron_expression_returns_expr_only_for_cron() {
    let cron = Schedule::Cron { expr: "0 9 * * *".to_string(), tz: None };
    assert_eq!(schedule_cron_expression(&cron), Some("0 9 * * *".to_string()));
    assert_eq!(schedule_cron_expression(&Schedule::At { at_ms: 0 }), None);
    assert_eq!(schedule_cron_expression(&Schedule::Every { every_ms: 5 }), None);
}

#[test]
fn next_run_for_schedule_supports_every_and_at() {
    let now: i64 = 1_771_200_000_000;
    let every = Schedule::Every { every_ms: 60_000 };
    let next = next_run_for_schedule(&every, now).unwrap();
    assert!(next > now);
    assert_eq!(next, now + 60_000);

    let at = now + 600_000;
    let at_schedule = Schedule::At { at_ms: at };
    let next_at = next_run_for_schedule(&at_schedule, now).unwrap();
    assert_eq!(next_at, at);
}

#[test]
fn next_run_for_schedule_supports_timezone() {
    // 2026-02-16 00:00:00 UTC
    let from: i64 = 1_771_200_000_000;
    let schedule = Schedule::Cron {
        expr: "0 9 * * *".into(),
        tz: Some("America/Los_Angeles".into()),
    };

    let next = next_run_for_schedule(&schedule, from).unwrap();
    // 2026-02-16 17:00:00 UTC == 09:00 in Los Angeles
    assert_eq!(next, 1_771_261_200_000);
}

#[test]
fn crontab_dow_1_5_means_mon_fri() {
    // Feb 20 2026 is a FRIDAY.  Crontab "1-5" = Mon-Fri.
    // Start from Thursday 23:59 UTC; next should be Friday.
    let thursday_late: i64 = 1_771_545_540_000;
    let schedule = Schedule::Cron {
        expr: "30 7 * * 1-5".into(),
        tz: Some("America/Chicago".into()),
    };
    let next = next_run_for_schedule(&schedule, thursday_late).unwrap();
    // Friday Feb 20 at 07:30 CST = 13:30 UTC
    assert_eq!(next, 1_771_594_200_000);
}

#[test]
fn crontab_dow_0_is_sunday() {
    // Crontab "0" = Sunday.  Feb 22 2026 is Sunday.
    let saturday: i64 = 1_771_632_000_000;
    let schedule = Schedule::Cron { expr: "0 12 * * 0".into(), tz: None };
    let next = next_run_for_schedule(&schedule, saturday).unwrap();
    assert_eq!(next, 1_771_761_600_000);
}

#[test]
fn crontab_dow_6_is_saturday() {
    // Crontab "6" = Saturday.  Feb 21 2026 is Saturday.
    let friday: i64 = 1_771_628_400_000;
    let schedule = Schedule::Cron { expr: "0 9 * * 6".into(), tz: None };
    let next = next_run_for_schedule(&schedule, friday).unwrap();
    assert_eq!(next, 1_771_664_400_000);
}

#[test]
fn next_run_rejects_zero_interval() {
    let err = next_run_for_schedule(&Schedule::Every { every_ms: 0 }, 0).unwrap_err();
    assert_eq!(err, "Invalid schedule: every_ms must be > 0");
}

#[test]
fn next_run_rejects_invalid_timezone() {
    let schedule = Schedule::Cron {
        expr: "0 9 * * *".into(),
        tz: Some("Not/AZone".into()),
    };
    let err = next_run_for_schedule(&schedule, 1_771_200_000_000).unwrap_err();
    assert_eq!(err, "Invalid IANA timezone: Not/AZone");
}

#[test]
fn next_run_rejects_overflowing_interval() {
    let err =
        next_run_for_schedule(&Schedule::Every { every_ms: u64::MAX }, 0).unwrap_err();
    assert_eq!(err, "every_ms is too large");
    let err = next_run_for_schedule(
        &Schedule::Every { every_ms: 300_000_000_000_000 },
        1_771_200_000_000,
    )
    .unwrap_err();
    assert_eq!(err, "every_ms overflowed DateTime");
}

#[test]
fn validate_schedule_checks_future_and_interval() {
    let now: i64 = 1_771_200_000_000;
    assert!(validate_schedule(&Schedule::At { at_ms: now + 1 }, now).is_ok());
    let err = validate_schedule(&Schedule::At { at_ms: now }, now).unwrap_err();
    assert_eq!(err, "Invalid schedule: 'at' must be in the future");
    assert!(validate_schedule(&Schedule::Every { every_ms: 10 }, now).is_ok());
    let err = validate_schedule(&Schedule::Every { every_ms: 0 }, now).unwrap_err();
    assert_eq!(err, "Invalid schedule: every_ms must be > 0");
    let cron = Schedule::Cron { expr: "0 9 * * *".into(), tz: None };
    assert!(validate_schedule(&cron, now).is_ok());
    let bad = Schedule::Cron { expr: "bad".into(), tz: None };
    assert!(validate_schedule(&bad, now).is_err());
}

#[test]
fn next_run_reports_no_future_occurrence() {
    // A seven-field expression whose year lies in the past has no next run.
    let schedule = Schedule::Cron { expr: "0 0 0 1 1 * 2020".into(), tz: None };
    let err = next_run_for_schedule(&schedule, 1_771_200_000_000).unwrap_err();
    assert_eq!(err, "No future occurrence for expression: 0 0 0 1 1 * 2020");
}
