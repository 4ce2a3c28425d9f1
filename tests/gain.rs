use rtk_gain::canon::normalize_cmd_name;
use rtk_gain::stats::{normalize_by_command, CommandRow};

fn row(cmd: &str, count: u64, saved: u64, pct: f64, time: u64) -> CommandRow {
    CommandRow {
        cmd: cmd.to_string(),
        count,
        saved,
        avg_savings_bp: (pct * 100.0).round() as u64,
        avg_time_ms: time,
    }
}

#[test]
fn test_normalize_cmd_run_err() {
    assert_eq!(normalize_cmd_name("rtk run-err"), "rtk err");
}

#[test]
fn test_normalize_cmd_run_test() {
    assert_eq!(normalize_cmd_name("rtk run-test"), "rtk test");
}

#[test]
fn test_normalize_cmd_read_to_cat() {
    assert_eq!(normalize_cmd_name("rtk read"), "rtk cat");
}

#[test]
fn test_normalize_cmd_read_stdin_to_cat() {
    assert_eq!(normalize_cmd_name("rtk read -"), "rtk cat -");
}

#[test]
fn test_normalize_cmd_passthrough() {
    assert_eq!(normalize_cmd_name("rtk git status"), "rtk git status");
    assert_eq!(normalize_cmd_name("rtk cargo test"), "rtk cargo test");
    assert_eq!(normalize_cmd_name("rtk cat"), "rtk cat");
    assert_eq!(normalize_cmd_name("rtk ls"), "rtk ls");
    assert_eq!(normalize_cmd_name("rtk eslint ."), "rtk eslint .");
    assert_eq!(normalize_cmd_name("rtk grep"), "rtk grep");
}

#[test]
fn test_normalize_by_command_merges_duplicates() {
    let entries = vec![
        row("rtk run-err", 10, 500, 80.0, 100),
        row("rtk err", 5, 300, 75.0, 50),
    ];
    let result = normalize_by_command(entries);
    assert_eq!(result.len(), 1);
    assert_eq!(result[0].cmd, "rtk err");
    assert_eq!(result[0].count, 15);
    assert_eq!(result[0].saved, 800);
    let pct = result[0].avg_savings_bp as f64 / 100.0;
    assert!((pct - 78.33).abs() < 0.1);
    assert_eq!(result[0].avg_time_ms, 83);
}

#[test]
fn test_normalize_by_command_preserves_order() {
    let entries = vec![
        row("rtk git status", 20, 1000, 70.0, 50),
        row("rtk run-err", 10, 500, 80.0, 100),
        row("rtk ls", 5, 200, 60.0, 30),
    ];
    let result = normalize_by_command(entries);
    assert_eq!(result.len(), 3);
    assert_eq!(result[0].cmd, "rtk git status");
    assert_eq!(result[1].cmd, "rtk err");
    assert_eq!(result[2].cmd, "rtk ls");
}
