use repo_mirror::args::Invocation;
use repo_mirror::args::plan_invocation;
use repo_mirror::backoff::calculate_delay;
use repo_mirror::backoff::is_rate_limit_status;
use repo_mirror::driver::clone_command;
use repo_mirror::driver::clone_url;
use repo_mirror::driver::dest_path;
use repo_mirror::driver::page_url;
use repo_mirror::driver::Driver;
use repo_mirror::driver::Phase;
use repo_mirror::driver::RecordStep;
use repo_mirror::driver::RepoRecord;
use repo_mirror::driver::PACING_SECONDS;
use repo_mirror::numerals::days_threshold_arg;
use repo_mirror::numerals::parse_i64;
use repo_mirror::numerals::u32_to_decimal;
use repo_mirror::timestamp::age_days;

fn record(name: &str, branch: &str, fork: bool, updated_at: &str) -> RepoRecord {
    RepoRecord {
        name: name.to_string(),
        default_branch: branch.to_string(),
        fork,
        updated_at: updated_at.to_string(),
    }
}

const JAN_2020: i64 = 1577836800; // 2020-01-01T00:00:00Z

#[test]
fn backoff_delay_formula() {
    assert_eq!(calculate_delay(1), 60);
    assert_eq!(calculate_delay(2), 120);
    assert_eq!(calculate_delay(3), 240);
}

#[test]
fn backoff_delay_base_and_top() {
    assert_eq!(calculate_delay(0), 30);
    assert_eq!(calculate_delay(59), 30 * (1u64 << 59));
}

#[test]
fn rate_limit_statuses() {
    assert!(is_rate_limit_status(403));
    assert!(is_rate_limit_status(429));
    assert!(!is_rate_limit_status(200));
    assert!(!is_rate_limit_status(301));
    assert!(!is_rate_limit_status(404));
    assert!(!is_rate_limit_status(500));
}

#[test]
fn parse_plain_and_signed_numbers() {
    assert_eq!(parse_i64("365"), Some(365));
    assert_eq!(parse_i64("+7"), Some(7));
    assert_eq!(parse_i64("-5"), Some(-5));
    assert_eq!(parse_i64("0012"), Some(12));
    assert_eq!(parse_i64("9223372036854775807"), Some(i64::MAX));
    assert_eq!(parse_i64("-9223372036854775808"), Some(i64::MIN));
}

#[test]
fn parse_rejects_malformed_numbers() {
    assert_eq!(parse_i64(""), None);
    assert_eq!(parse_i64("-"), None);
    assert_eq!(parse_i64("+"), None);
    assert_eq!(parse_i64("12a"), None);
    assert_eq!(parse_i64(" 12"), None);
    assert_eq!(parse_i64("9223372036854775808"), None);
    assert_eq!(parse_i64("-9223372036854775809"), None);
    assert_eq!(parse_i64("99999999999999999999999999"), None);
}

#[test]
fn threshold_argument_defaults_to_365() {
    assert_eq!(days_threshold_arg("30"), 30);
    assert_eq!(days_threshold_arg("abc"), 365);
    assert_eq!(days_threshold_arg(""), 365);
    assert_eq!(days_threshold_arg("12.5"), 365);
}

#[test]
fn decimal_rendering() {
    assert_eq!(u32_to_decimal(0), "0");
    assert_eq!(u32_to_decimal(7), "7");
    assert_eq!(u32_to_decimal(10), "10");
    assert_eq!(u32_to_decimal(100), "100");
    assert_eq!(u32_to_decimal(4294967295), "4294967295");
}

#[test]
fn listing_page_url() {
    assert_eq!(
        page_url("acme", 3),
        "https://api.github.com/orgs/acme/repos?per_page=100&page=3"
    );
    assert_eq!(
        page_url("acme", 12),
        "https://api.github.com/orgs/acme/repos?per_page=100&page=12"
    );
}

#[test]
fn clone_strings() {
    assert_eq!(clone_url("acme", "widget"), "https://github.com/acme/widget.git");
    assert_eq!(dest_path("mirrors", "widget"), "mirrors/widget");
    assert_eq!(
        clone_command("acme", "widget", "main", "mirrors"),
        vec![
            "clone".to_string(),
            "--depth=1".to_string(),
            "--branch=main".to_string(),
            "https://github.com/acme/widget.git".to_string(),
            "mirrors/widget".to_string(),
        ]
    );
}

#[test]
fn timezone_offset_reaches_the_age_filter() {
    // 1996-12-19T16:39:57-08:00 names epoch second 851042397. Seen one day
    // later it must be cloned under a 30-day threshold; seen exactly 30 days
    // later it must be filtered out.
    const RFC_EXAMPLE: i64 = 851042397;
    let mut d = Driver::new("acme".to_string(), "mirrors".to_string(), 30);
    assert_eq!(d.on_status(200), None);
    d.on_page(vec![record("widget", "main", false, "1996-12-19T16:39:57-08:00")]);
    let step = d.on_folder_checked(false, RFC_EXAMPLE + 86400);
    assert!(matches!(step, RecordStep::RunClone { .. }));

    let mut d2 = Driver::new("acme".to_string(), "mirrors".to_string(), 30);
    assert_eq!(d2.on_status(200), None);
    d2.on_page(vec![record("widget", "main", false, "1996-12-19T16:39:57-08:00")]);
    let step2 = d2.on_folder_checked(false, RFC_EXAMPLE + 30 * 86400);
    assert!(matches!(step2, RecordStep::Filtered));
}

#[test]
fn epoch_start_parses_to_zero() {
    // 1970-01-01T00:00:00Z is epoch second zero: one second short of a day
    // later its age is still zero whole days, a day later it is one.
    let mut d = Driver::new("acme".to_string(), "mirrors".to_string(), 1);
    assert_eq!(d.on_status(200), None);
    d.on_page(vec![
        record("young", "main", false, "1970-01-01T00:00:00Z"),
        record("old", "main", false, "1970-01-01T00:00:00Z"),
    ]);
    let step = d.on_folder_checked(false, 86399);
    assert!(matches!(step, RecordStep::RunClone { .. }));
    let step2 = d.on_folder_checked(false, 86400);
    assert!(matches!(step2, RecordStep::Filtered));
}

#[test]
fn age_truncates_toward_zero() {
    assert_eq!(age_days(86399, 0), 0);
    assert_eq!(age_days(86400, 0), 1);
    assert_eq!(age_days(0, 86400), -1);
    assert_eq!(age_days(0, 86401), -1);
    assert_eq!(age_days(0, 172800), -2);
}

#[test]
fn usage_with_two_positional_arguments() {
    let args = vec!["mirror".to_string(), "acme".to_string(), "mirrors".to_string()];
    let plan = plan_invocation(&args);
    assert!(matches!(plan, Invocation::Usage));
}

#[test]
fn run_arguments_are_taken_in_order() {
    let args = vec![
        "mirror".to_string(),
        "acme".to_string(),
        "mirrors".to_string(),
        "30".to_string(),
    ];
    match plan_invocation(&args) {
        Invocation::Run { org, folder, days_threshold } => {
            assert_eq!(org, "acme");
            assert_eq!(folder, "mirrors");
            assert_eq!(days_threshold, 30);
        }
        Invocation::Usage => panic!("expected a run"),
    }
}

#[test]
fn malformed_threshold_argument_runs_with_default() {
    let args = vec![
        "mirror".to_string(),
        "acme".to_string(),
        "mirrors".to_string(),
        "soon".to_string(),
    ];
    match plan_invocation(&args) {
        Invocation::Run { days_threshold, .. } => assert_eq!(days_threshold, 365),
        Invocation::Usage => panic!("expected a run"),
    }
}

#[test]
fn existing_folder_is_skipped_before_anything_else() {
    // Even a fork with an unreadable timestamp is only skipped when its
    // folder already exists: the timestamp is never looked at.
    let mut d = Driver::new("acme".to_string(), "mirrors".to_string(), 365);
    assert_eq!(d.on_status(200), None);
    d.on_page(vec![record("widget", "main", true, "not a timestamp")]);
    let step = d.on_folder_checked(true, JAN_2020);
    match step {
        RecordStep::SkipExisting { name } => assert_eq!(name, "widget"),
        _ => panic!("expected a skip"),
    }
    assert_eq!(d.pending_page(), Some(2));
}

#[test]
fn fork_is_never_cloned() {
    let mut d = Driver::new("acme".to_string(), "mirrors".to_string(), 365);
    assert_eq!(d.on_status(200), None);
    d.on_page(vec![record("widget", "main", true, "2020-01-01T00:00:00Z")]);
    let step = d.on_folder_checked(false, JAN_2020 + 10 * 86400);
    assert!(matches!(step, RecordStep::Filtered));
}

#[test]
fn stale_repository_is_filtered_and_fresh_one_cloned() {
    // Age exactly at the threshold is already too old; one second younger
    // falls under it.
    let threshold: i64 = 30;
    let mut d = Driver::new("acme".to_string(), "mirrors".to_string(), threshold);
    assert_eq!(d.on_status(200), None);
    d.on_page(vec![
        record("old", "main", false, "2020-01-01T00:00:00Z"),
        record("fresh", "main", false, "2020-01-01T00:00:00Z"),
    ]);
    let at_threshold = d.on_folder_checked(false, JAN_2020 + threshold * 86400);
    assert!(matches!(at_threshold, RecordStep::Filtered));
    let under_threshold = d.on_folder_checked(false, JAN_2020 + threshold * 86400 - 1);
    match under_threshold {
        RecordStep::RunClone { name, .. } => assert_eq!(name, "fresh"),
        _ => panic!("expected a clone"),
    }
}

#[test]
fn future_timestamp_counts_as_recent() {
    let mut d = Driver::new("acme".to_string(), "mirrors".to_string(), 365);
    assert_eq!(d.on_status(200), None);
    d.on_page(vec![record("widget", "main", false, "2020-01-01T00:00:00Z")]);
    let step = d.on_folder_checked(false, JAN_2020 - 86400);
    assert!(matches!(step, RecordStep::RunClone { .. }));
}

#[test]
fn malformed_timestamp_aborts_the_run() {
    let mut d = Driver::new("acme".to_string(), "mirrors".to_string(), 365);
    assert_eq!(d.on_status(200), None);
    d.on_page(vec![record("widget", "main", false, "yesterday")]);
    let step = d.on_folder_checked(false, JAN_2020);
    assert!(matches!(step, RecordStep::FatalTimestamp));
    assert!(matches!(d.phase, Phase::Failed));
    assert_eq!(d.pending_page(), None);
}

#[test]
fn rerun_with_all_folders_present_clones_nothing() {
    let mut d = Driver::new("acme".to_string(), "mirrors".to_string(), 365);
    assert_eq!(d.on_status(200), None);
    d.on_page(vec![
        record("a", "main", false, "2020-01-01T00:00:00Z"),
        record("b", "main", true, "2020-01-01T00:00:00Z"),
        record("c", "trunk", false, "1996-12-19T16:39:57-08:00"),
    ]);
    let mut clones: u32 = 0;
    for _ in 0..3 {
        let step = d.on_folder_checked(true, JAN_2020 + 86400);
        if matches!(step, RecordStep::RunClone { .. }) {
            clones += 1;
        }
        assert!(matches!(step, RecordStep::SkipExisting { .. }));
    }
    assert_eq!(clones, 0);
    assert_eq!(d.pending_page(), Some(2));
}

#[test]
fn one_page_with_one_eligible_repository() {
    // One non-fork repository updated ten days ago, threshold 365, nothing on
    // disk: exactly one clone with the record's branch, then the next page,
    // which is empty and ends the run.
    let now: i64 = JAN_2020 + 10 * 86400;
    let mut d = Driver::new("acme".to_string(), "mirrors".to_string(), 365);
    assert_eq!(d.pending_page(), Some(1));
    assert_eq!(d.on_status(200), None);
    d.on_page(vec![record("widget", "develop", false, "2020-01-01T00:00:00Z")]);
    assert_eq!(d.pending_page(), None);
    let name = match d.next_record() {
        Some(rec) => rec.name.clone(),
        None => panic!("expected a record"),
    };
    assert_eq!(name, "widget");
    let step = d.on_folder_checked(false, now);
    match step {
        RecordStep::RunClone { name, command } => {
            assert_eq!(name, "widget");
            assert_eq!(
                command,
                vec![
                    "clone".to_string(),
                    "--depth=1".to_string(),
                    "--branch=develop".to_string(),
                    "https://github.com/acme/widget.git".to_string(),
                    "mirrors/widget".to_string(),
                ]
            );
        }
        _ => panic!("expected a clone"),
    }
    assert_eq!(PACING_SECONDS, 5);
    assert_eq!(d.pending_page(), Some(2));
    assert_eq!(d.on_status(200), None);
    d.on_page(vec![]);
    assert!(matches!(d.phase, Phase::Done));
    assert_eq!(d.pending_page(), None);
}

#[test]
fn rate_limited_twice_then_accepted() {
    // Two 429 responses on the same fetch back off 60 then 120 seconds; the
    // accepted response still belongs to the same page.
    let mut d = Driver::new("acme".to_string(), "mirrors".to_string(), 365);
    assert_eq!(d.pending_page(), Some(1));
    assert_eq!(d.on_status(429), Some(60));
    assert_eq!(d.pending_page(), Some(1));
    assert_eq!(d.on_status(429), Some(120));
    assert_eq!(d.pending_page(), Some(1));
    assert_eq!(d.on_status(200), None);
    d.on_page(vec![record("widget", "main", false, "2020-01-01T00:00:00Z")]);
    assert!(matches!(d.phase, Phase::Process { page: 1 }));
}

#[test]
fn retry_counter_starts_afresh_on_the_next_page() {
    // Backoff growth does not persist between distinct page fetches: after a
    // page is done, a new rate-limit hit starts again at 60 seconds.
    let mut d = Driver::new("acme".to_string(), "mirrors".to_string(), 365);
    assert_eq!(d.on_status(429), Some(60));
    assert_eq!(d.on_status(429), Some(120));
    assert_eq!(d.on_status(200), None);
    d.on_page(vec![record("widget", "main", true, "2020-01-01T00:00:00Z")]);
    let step = d.on_folder_checked(false, JAN_2020);
    assert!(matches!(step, RecordStep::Filtered));
    assert_eq!(d.pending_page(), Some(2));
    assert_eq!(d.on_status(403), Some(60));
}
