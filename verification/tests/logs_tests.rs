use logs_api::handlers::logs_user_side::get_logs::{filter_logs_by_type, select_logs, sort_logs_by_timestamp};
use logs_api::structs::Log;

fn log(id: &str, type_: &str, timestamp: i64) -> Log {
    Log {
        _id: Some(id.to_string()),
        app_id: Some("app".to_string()),
        type_: Some(type_.to_string()),
        message: format!("message {id}"),
        timestamp: Some(timestamp),
    }
}

fn ids(logs: &[Log]) -> Vec<String> {
    logs.iter().map(|l| l._id.clone().unwrap()).collect()
}

#[test]
fn sort_orders_by_timestamp() {
    let logs = vec![log("a", "info", 30), log("b", "info", 10), log("c", "info", 20)];
    assert_eq!(ids(&sort_logs_by_timestamp(logs)), vec!["b", "c", "a"]);
}

#[test]
fn sort_keeps_order_of_equal_timestamps() {
    let logs = vec![
        log("a", "info", 5),
        log("b", "info", 1),
        log("c", "info", 5),
        log("d", "info", 1),
        log("e", "info", 5),
    ];
    assert_eq!(ids(&sort_logs_by_timestamp(logs)), vec!["b", "d", "a", "c", "e"]);
}

#[test]
fn sort_matches_std_stable_sort() {
    let stamps = [7, -3, 7, 0, i64::MAX, i64::MIN, 0, 7, 2, -3];
    let logs: Vec<Log> = stamps.iter().enumerate().map(|(i, t)| log(&i.to_string(), "x", *t)).collect();
    let mut expected = logs.clone();
    expected.sort_by(|a, b| a.timestamp.unwrap().cmp(&b.timestamp.unwrap()));
    assert_eq!(sort_logs_by_timestamp(logs), expected);
}

#[test]
fn sort_empty_and_single() {
    assert!(sort_logs_by_timestamp(vec![]).is_empty());
    assert_eq!(ids(&sort_logs_by_timestamp(vec![log("a", "i", 1)])), vec!["a"]);
}

#[test]
fn filter_by_requested_types() {
    let logs = vec![log("a", "error", 1), log("b", "info", 2), log("c", "warn", 3), log("d", "error", 4)];
    let types = Some(vec!["error".to_string(), "warn".to_string()]);
    assert_eq!(ids(&filter_logs_by_type(logs.clone(), &types)), vec!["a", "c", "d"]);
    assert_eq!(ids(&filter_logs_by_type(logs.clone(), &None)), vec!["a", "b", "c", "d"]);
    assert!(filter_logs_by_type(logs, &Some(vec![])).is_empty());
}

#[test]
fn select_filters_then_sorts() {
    let logs = vec![log("a", "error", 9), log("b", "info", 2), log("c", "error", 3), log("d", "error", 3)];
    let types = Some(vec!["error".to_string()]);
    assert_eq!(ids(&select_logs(logs.clone(), &types)), vec!["c", "d", "a"]);
    assert_eq!(ids(&select_logs(logs, &None)), vec!["b", "c", "d", "a"]);
}

#[test]
fn sort_single_log_without_timestamp() {
    let mut l = log("a", "info", 0);
    l.timestamp = None;
    assert_eq!(sort_logs_by_timestamp(vec![l.clone()]), vec![l.clone()]);
    assert_eq!(select_logs(vec![l.clone(), log("b", "warn", 1)], &Some(vec!["info".to_string()])), vec![l]);
}
