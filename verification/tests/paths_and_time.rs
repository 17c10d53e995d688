use smart_stock_insider::clock::{get_timestamp, render_timestamp};
use smart_stock_insider::paths::{
    app_data_dir_from, get_app_data_dir, get_app_logs_dir, logs_dir_from, parent_dir,
};

#[test]
fn parent_dir_splits_at_last_separator() {
    assert_eq!(parent_dir("a/b/c.txt"), Some("a/b".to_string()));
    assert_eq!(parent_dir("a/b/"), Some("a/b".to_string()));
    assert_eq!(parent_dir("/etc"), Some("".to_string()));
    assert_eq!(parent_dir("no-separator"), None);
    assert_eq!(parent_dir(""), None);
}

#[test]
fn app_directories_follow_the_convention() {
    assert_eq!(
        app_data_dir_from("/home/u/.local/share"),
        "/home/u/.local/share/smart-stock-insider"
    );
    assert_eq!(
        logs_dir_from("/home/u/.local/share/smart-stock-insider"),
        "/home/u/.local/share/smart-stock-insider/logs"
    );
}

#[test]
fn resolved_directories_carry_the_fixed_tail() {
    if let Some(data) = get_app_data_dir() {
        assert!(data.ends_with("/smart-stock-insider"));
    }
    if let Some(logs) = get_app_logs_dir() {
        assert!(logs.ends_with("/smart-stock-insider/logs"));
    }
}

#[test]
fn render_timestamp_is_exact() {
    assert_eq!(render_timestamp(2026, 1, 2, 3, 4, 5), "2026-01-02 03:04:05 UTC");
    assert_eq!(render_timestamp(987, 12, 31, 23, 59, 59), "0987-12-31 23:59:59 UTC");
    assert_eq!(render_timestamp(-44, 3, 15, 0, 0, 0), "-0044-03-15 00:00:00 UTC");
}

#[test]
fn get_timestamp_has_the_documented_shape() {
    let t = get_timestamp();
    assert!(t.ends_with(" UTC"));
    assert_eq!(t.len(), 23);
    let b = t.as_bytes();
    assert_eq!(b[4], b'-');
    assert_eq!(b[7], b'-');
    assert_eq!(b[10], b' ');
    assert_eq!(b[13], b':');
    assert_eq!(b[16], b':');
}
