use liquidroute_geyser_plugin::diagnostic::{
    enabled_after, format_entry, resolve_log_path, startup_marker, write_plan, WritePlan,
};
use liquidroute_geyser_plugin::text::{decimal_string, two_digit_string};

#[test]
fn entry_format() {
    assert_eq!(format_entry(1700000000123, "hello"), "[1700000000123 ms] hello\n");
    assert_eq!(format_entry(0, ""), "[0 ms] \n");
}

#[test]
fn log_path_override_and_default() {
    assert_eq!(resolve_log_path(None), "/tmp/liquidroute_debug.log");
    assert_eq!(resolve_log_path(Some("/var/log/x.log".to_string())), "/var/log/x.log");
    assert_eq!(startup_marker(), "LiquidRoute plugin debug log initialized");
}

#[test]
fn plans() {
    assert_eq!(write_plan(false, true), WritePlan::Skip);
    assert_eq!(write_plan(false, false), WritePlan::Skip);
    assert_eq!(write_plan(true, false), WritePlan::Drop);
    assert_eq!(write_plan(true, true), WritePlan::Append);
}

#[test]
fn contention_drops_at_most_one() {
    // The first writer holds the lock; the second finds it taken.
    let first = write_plan(true, true);
    let second = write_plan(true, false);
    assert_eq!(first, WritePlan::Append);
    assert_eq!(second, WritePlan::Drop);
}

#[test]
fn failed_append_disables_for_good() {
    let mut enabled = true;
    let p = write_plan(enabled, true);
    assert_eq!(p, WritePlan::Append);
    enabled = enabled_after(enabled, p, false);
    assert!(!enabled);
    for lock in [true, false, true] {
        let p = write_plan(enabled, lock);
        assert_eq!(p, WritePlan::Skip);
        enabled = enabled_after(enabled, p, true);
        assert!(!enabled);
    }
}

#[test]
fn successful_append_keeps_log_enabled() {
    assert!(enabled_after(true, WritePlan::Append, true));
    assert!(enabled_after(true, WritePlan::Drop, false));
    assert!(!enabled_after(false, WritePlan::Skip, true));
}

#[test]
fn decimals() {
    assert_eq!(decimal_string(0), "0");
    assert_eq!(decimal_string(9), "9");
    assert_eq!(decimal_string(10), "10");
    assert_eq!(decimal_string(1234567890), "1234567890");
    assert_eq!(decimal_string(u64::MAX), "18446744073709551615");
    assert_eq!(two_digit_string(0), "00");
    assert_eq!(two_digit_string(7), "07");
    assert_eq!(two_digit_string(42), "42");
    assert_eq!(two_digit_string(123), "123");
}
