use rtk_gain::canon::normalize_cmd_name;
use rtk_gain::csv::{decimal_string, export_csv, percent_string};
use rtk_gain::period::{print_daily_full, print_monthly, print_weekly, DayStats, MonthStats, WeekStats};
use rtk_gain::report::{
    command_cell, graph_bars, history_cell, output_format, plan_text_report, select_periods,
    shorten, OutputFormat, PeriodSelection, Tier,
};
use rtk_gain::stats::{normalize_by_command, CommandRow};

fn row(cmd: &str, count: u64, saved: u64, bp: u64, time: u64) -> CommandRow {
    CommandRow { cmd: cmd.to_string(), count, saved, avg_savings_bp: bp, avg_time_ms: time }
}

fn day(date: &str, commands: u64, saved: u64, bp: u64) -> DayStats {
    DayStats {
        date: date.to_string(),
        commands,
        input_tokens: 1000,
        output_tokens: 200,
        saved_tokens: saved,
        savings_bp: bp,
        total_time_ms: 1500,
        avg_time_ms: 75,
    }
}

#[test]
fn canonicalize_twice_is_once() {
    for label in ["rtk run-err", "rtk run-test", "rtk read", "rtk read -", "rtk read src/a.rs", "rtk readme", "", "rtk err", "rtk cat -"] {
        let once = normalize_cmd_name(label);
        assert_eq!(normalize_cmd_name(&once), once);
    }
}

#[test]
fn read_rule_needs_word_boundary() {
    assert_eq!(normalize_cmd_name("rtk readme"), "rtk readme");
    assert_eq!(normalize_cmd_name("rtk read src/main.rs"), "rtk cat src/main.rs");
    assert_eq!(normalize_cmd_name("rtk run-err "), "rtk run-err ");
}

#[test]
fn merge_keeps_totals() {
    let entries = vec![
        row("rtk read", 3, 120, 5000, 10),
        row("rtk git status", 20, 1000, 7000, 50),
        row("rtk cat", 4, 80, 2500, 20),
        row("rtk run-test", 1, 7, 100, 999),
        row("rtk read -", 2, 40, 9000, 5),
    ];
    let result = normalize_by_command(entries);
    assert_eq!(result.len(), 4);
    let count: u64 = result.iter().map(|r| r.count).sum();
    let saved: u64 = result.iter().map(|r| r.saved).sum();
    assert_eq!(count, 30);
    assert_eq!(saved, 1247);
    assert_eq!(result[0].cmd, "rtk cat");
    assert_eq!(result[0].count, 7);
    assert_eq!(result[0].saved, 200);
    // (5000*3 + 2500*4) / 7 = 25000 / 7
    assert_eq!(result[0].avg_savings_bp, 3571);
    // (10*3 + 20*4) / 7 = 110 / 7
    assert_eq!(result[0].avg_time_ms, 15);
    assert_eq!(result[1].cmd, "rtk git status");
    assert_eq!(result[2].cmd, "rtk test");
    assert_eq!(result[2].avg_time_ms, 999);
    assert_eq!(result[3].cmd, "rtk cat -");
    assert_eq!(result[3].avg_savings_bp, 9000);
}

#[test]
fn merge_of_nothing_is_nothing() {
    assert!(normalize_by_command(Vec::new()).is_empty());
}

#[test]
fn merge_with_zero_counts_gives_zero_averages() {
    let result = normalize_by_command(vec![row("rtk ls", 0, 0, 5000, 30), row("rtk ls", 0, 0, 4000, 10)]);
    assert_eq!(result.len(), 1);
    assert_eq!(result[0].avg_savings_bp, 0);
    assert_eq!(result[0].avg_time_ms, 0);
}

#[test]
fn merge_handles_largest_values() {
    let result = normalize_by_command(vec![row("rtk ls", u64::MAX, u64::MAX, u64::MAX, u64::MAX)]);
    assert_eq!(result[0].count, u64::MAX);
    assert_eq!(result[0].avg_savings_bp, u64::MAX);
    assert_eq!(result[0].avg_time_ms, u64::MAX);
}

#[test]
fn no_data_plan_has_no_sections() {
    let p = plan_text_report(0, 5, 5, true, true, true, true, true, true, true);
    assert!(p.no_data);
    assert!(!p.summary && !p.by_command && !p.graph && !p.history && !p.quota);
    assert_eq!(p.periods, PeriodSelection { daily: false, weekly: false, monthly: false });
}

#[test]
fn default_plan_is_summary_view() {
    let p = plan_text_report(3, 2, 0, true, true, false, false, false, false, false);
    assert!(!p.no_data && p.summary && p.by_command && p.history);
    assert!(!p.graph && !p.quota);
    let q = plan_text_report(3, 0, 4, true, false, true, false, true, false, false);
    assert!(!q.summary && !q.graph && !q.quota);
    assert_eq!(q.periods, PeriodSelection { daily: false, weekly: true, monthly: false });
}

#[test]
fn only_daily_selected() {
    assert_eq!(select_periods(true, false, false, false), PeriodSelection { daily: true, weekly: false, monthly: false });
    assert_eq!(select_periods(false, false, false, true), PeriodSelection { daily: true, weekly: true, monthly: true });
}

#[test]
fn formats() {
    assert_eq!(output_format("json"), OutputFormat::Json);
    assert_eq!(output_format("csv"), OutputFormat::Csv);
    assert_eq!(output_format("text"), OutputFormat::Text);
    assert_eq!(output_format("JSON"), OutputFormat::Text);
}

#[test]
fn tiers() {
    assert_eq!(Tier::parse("pro"), Tier::Pro);
    assert_eq!(Tier::parse("5x"), Tier::Max5x);
    assert_eq!(Tier::parse("20x"), Tier::Max20x);
    assert_eq!(Tier::parse("team"), Tier::Pro);
    assert_eq!(Tier::Pro.monthly_quota(), 6_000_000);
    assert_eq!(Tier::Max5x.monthly_quota(), 30_000_000);
    assert_eq!(Tier::Max20x.monthly_quota(), 120_000_000);
    assert_eq!(Tier::Max5x.label(), "Max 5x ($100/mo)");
}

#[test]
fn shortening() {
    assert_eq!(shorten("abcdef", 4, 2), "ab...");
    assert_eq!(shorten("abcd", 4, 2), "abcd");
    assert_eq!(command_cell("rtk cargo clippy --all"), "rtk cargo clipp...");
    assert_eq!(command_cell("rtk cargo clippy"), "rtk cargo clippy");
    assert_eq!(history_cell("rtk read a/very/long/path/to/file.rs"), "rtk cat a/very/long/pa...");
}

#[test]
fn graph_scales_to_largest() {
    let data = vec![
        ("2024-01-05".to_string(), 100u64),
        ("2024-01-06".to_string(), 50u64),
        ("today".to_string(), 0u64),
    ];
    let bars = graph_bars(&data);
    assert_eq!(bars.len(), 3);
    assert_eq!(bars[0].label, "01-05");
    assert_eq!(bars[0].bar_len, 40);
    assert_eq!(bars[1].bar_len, 20);
    assert_eq!(bars[2].label, "today");
    assert_eq!(bars[2].bar_len, 0);
    let flat = graph_bars(&vec![("2024-01-05".to_string(), 0u64)]);
    assert_eq!(flat[0].bar_len, 0);
}

#[test]
fn numbers_in_decimal() {
    assert_eq!(decimal_string(0), "0");
    assert_eq!(decimal_string(83), "83");
    assert_eq!(decimal_string(u64::MAX), "18446744073709551615");
    assert_eq!(percent_string(7833), "78.33");
    assert_eq!(percent_string(5), "0.05");
    assert_eq!(percent_string(10000), "100.00");
}

#[test]
fn period_rows() {
    let days = vec![day("2024-01-05", 3, 40, 1234)];
    let rows = print_daily_full(&days);
    assert_eq!(rows.len(), 1);
    assert_eq!(rows[0].period, "2024-01-05");
    assert_eq!(rows[0].saved_tokens, 40);
    let weeks = vec![WeekStats {
        week_start: "2024-01-01".to_string(),
        week_end: "2024-01-07".to_string(),
        commands: 9,
        input_tokens: 1,
        output_tokens: 2,
        saved_tokens: 3,
        savings_bp: 4,
        total_time_ms: 5,
        avg_time_ms: 6,
    }];
    let w = print_weekly(&weeks);
    assert_eq!(w[0].period, "2024-01-01 → 2024-01-07");
    assert_eq!(w[0].commands, 9);
    let months = vec![MonthStats {
        month: "2024-01".to_string(),
        commands: 1,
        input_tokens: 1,
        output_tokens: 1,
        saved_tokens: 1,
        savings_bp: 1,
        total_time_ms: 1,
        avg_time_ms: 1,
    }];
    assert_eq!(print_monthly(&months)[0].period, "2024-01");
}

#[test]
fn csv_sections() {
    let days = vec![day("2024-01-05", 3, 40, 1234), day("2024-01-06", 10, 0, 0)];
    let months = vec![MonthStats {
        month: "2024-01".to_string(),
        commands: 13,
        input_tokens: 2000,
        output_tokens: 400,
        saved_tokens: 40,
        savings_bp: 200,
        total_time_ms: 3000,
        avg_time_ms: 230,
    }];
    let sel = PeriodSelection { daily: true, weekly: false, monthly: true };
    let text = export_csv(sel, &days, &Vec::new(), &months);
    let expected = "# Daily Data\n\
date,commands,input_tokens,output_tokens,saved_tokens,savings_pct,total_time_ms,avg_time_ms\n\
2024-01-05,3,1000,200,40,12.34,1500,75\n\
2024-01-06,10,1000,200,0,0.00,1500,75\n\
\n\
# Monthly Data\n\
month,commands,input_tokens,output_tokens,saved_tokens,savings_pct,total_time_ms,avg_time_ms\n\
2024-01,13,2000,400,40,2.00,3000,230\n";
    assert_eq!(text, expected);
    let weekly_only = export_csv(PeriodSelection { daily: false, weekly: true, monthly: false }, &days, &Vec::new(), &months);
    assert_eq!(
        weekly_only,
        "# Weekly Data\nweek_start,week_end,commands,input_tokens,output_tokens,saved_tokens,savings_pct,total_time_ms,avg_time_ms\n\n"
    );
    let none = export_csv(PeriodSelection { daily: false, weekly: false, monthly: false }, &days, &Vec::new(), &months);
    assert_eq!(none, "");
}
