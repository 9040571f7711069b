use cobweb::record::ClinicInfo;
use cobweb::text::{decimal, join_space, str_eq, starts_with, trim};

fn info(name: &str, availability: Option<&str>, url: Option<&str>) -> ClinicInfo {
    ClinicInfo::new(name, availability, None, url)
}

#[test]
fn availability_present_and_nonzero() {
    assert!(info("Fenway Park", Some("5"), None).has_availability());
}

#[test]
fn availability_zero_is_none() {
    assert!(!info("Fenway Park", Some("0"), None).has_availability());
}

#[test]
fn availability_absent_is_none() {
    assert!(!info("Fenway Park", None, None).has_availability());
}

#[test]
fn availability_empty_text_counts() {
    assert!(info("Fenway Park", Some(""), None).has_availability());
}

#[test]
fn classify_splits_name_and_date() {
    let c = info("Fenway Park on 02/25/2021", None, None);
    assert_eq!(c.name, "Fenway Park");
    assert_eq!(c.date.as_deref(), Some("02/25/2021"));
}

#[test]
fn classify_keeps_plain_name() {
    let c = info("Fenway Park", None, None);
    assert_eq!(c.name, "Fenway Park");
    assert_eq!(c.date, None);
}

#[test]
fn classify_rejects_short_date() {
    let c = info("Fenway on 2/25/2021", None, None);
    assert_eq!(c.name, "Fenway on 2/25/2021");
    assert_eq!(c.date, None);
}

#[test]
fn classify_allows_empty_name_prefix() {
    let c = info(" on 02/25/2021", None, None);
    assert_eq!(c.name, "");
    assert_eq!(c.date.as_deref(), Some("02/25/2021"));
}

#[test]
fn classify_rejects_newline_in_name() {
    let c = info("Fenway\nPark on 02/25/2021", None, None);
    assert_eq!(c.name, "Fenway\nPark on 02/25/2021");
    assert_eq!(c.date, None);
}

#[test]
fn classify_accepts_other_whitespace_in_name() {
    let c = info("Fenway\tPark on 02/25/2021", None, None);
    assert_eq!(c.name, "Fenway\tPark");
    assert_eq!(c.date.as_deref(), Some("02/25/2021"));
}

#[test]
fn classify_needs_date_at_end() {
    let c = info("Fenway on 02/25/2021 indeed", None, None);
    assert_eq!(c.name, "Fenway on 02/25/2021 indeed");
    assert_eq!(c.date, None);
}

#[test]
fn name_and_date_reassembles() {
    let c = info("Fenway Park on 02/25/2021", None, None);
    assert_eq!(c.name_and_date(), "Fenway Park on 02/25/2021");
}

#[test]
fn name_and_date_without_date() {
    let c = info("Fenway Park", None, None);
    assert_eq!(c.name_and_date(), "Fenway Park");
}

#[test]
fn report_lines_with_availability() {
    let c = info("Fenway Park on 02/25/2021", Some("5"), Some("https://x/y"));
    let lines = c.report_lines(false);
    assert_eq!(
        lines,
        vec![
            "Fenway Park on 02/25/2021 has 5 available".to_string(),
            "Register at https://x/y".to_string(),
            "".to_string(),
        ]
    );
}

#[test]
fn report_lines_without_availability_hidden() {
    let c = info("Fenway Park", Some("0"), None);
    assert_eq!(c.report_lines(false), Vec::<String>::new());
}

#[test]
fn report_lines_without_availability_shown() {
    let c = info("Fenway Park", None, None);
    assert_eq!(c.report_lines(true), vec!["Fenway Park has no availability".to_string()]);
}

#[test]
fn trim_removes_both_ends() {
    assert_eq!(trim("  Fenway Park \t\n"), "Fenway Park");
    assert_eq!(trim("   "), "");
    assert_eq!(trim(""), "");
    assert_eq!(trim("x"), "x");
}

#[test]
fn join_space_joins() {
    let parts = vec!["Available".to_string(), "Appointments:".to_string()];
    assert_eq!(join_space(&parts), "Available Appointments:");
    assert_eq!(join_space(&Vec::new()), "");
}

#[test]
fn str_eq_and_starts_with_work() {
    assert!(str_eq("abc", "abc"));
    assert!(!str_eq("abc", "abd"));
    assert!(!str_eq("abc", "ab"));
    assert!(starts_with("Available Appointments:", "Available Appointments"));
    assert!(!starts_with("Avail", "Available"));
}

#[test]
fn decimal_renders() {
    assert_eq!(decimal(0), "0");
    assert_eq!(decimal(7), "7");
    assert_eq!(decimal(1234), "1234");
}
