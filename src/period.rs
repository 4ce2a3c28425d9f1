//! Day, week and month rollups and the rows of their tables.
use vstd::prelude::*;
use vstd::string::*;
use crate::report::PeriodSelection;

verus! {

/// Statistics of one day. The savings percentage is in basis points.
pub struct DayStats {
    pub date: String,
    pub commands: u64,
    pub input_tokens: u64,
    pub output_tokens: u64,
    pub saved_tokens: u64,
    pub savings_bp: u64,
    pub total_time_ms: u64,
    pub avg_time_ms: u64,
}

/// Statistics of one week, from its first to its last day.
pub struct WeekStats {
    pub week_start: String,
    pub week_end: String,
    pub commands: u64,
    pub input_tokens: u64,
    pub output_tokens: u64,
    pub saved_tokens: u64,
    pub savings_bp: u64,
    pub total_time_ms: u64,
    pub avg_time_ms: u64,
}

/// Statistics of one month.
pub struct MonthStats {
    pub month: String,
    pub commands: u64,
    pub input_tokens: u64,
    pub output_tokens: u64,
    pub saved_tokens: u64,
    pub savings_bp: u64,
    pub total_time_ms: u64,
    pub avg_time_ms: u64,
}

/// One row of a period table, whatever the period's length.
pub struct PeriodRow {
    pub period: String,
    pub commands: u64,
    pub input_tokens: u64,
    pub output_tokens: u64,
    pub saved_tokens: u64,
    pub savings_bp: u64,
    pub total_time_ms: u64,
    pub avg_time_ms: u64,
}

/// The period label of a week in a table.
pub open spec fn week_label(start: Seq<char>, end: Seq<char>) -> Seq<char> {
    start + " → "@ + end
}

pub open spec fn row_numbers_match_day(r: PeriodRow, d: DayStats) -> bool {
    &&& r.commands == d.commands && r.input_tokens == d.input_tokens
    &&& r.output_tokens == d.output_tokens && r.saved_tokens == d.saved_tokens
    &&& r.savings_bp == d.savings_bp && r.total_time_ms == d.total_time_ms
    &&& r.avg_time_ms == d.avg_time_ms
}

pub open spec fn row_numbers_match_week(r: PeriodRow, w: WeekStats) -> bool {
    &&& r.commands == w.commands && r.input_tokens == w.input_tokens
    &&& r.output_tokens == w.output_tokens && r.saved_tokens == w.saved_tokens
    &&& r.savings_bp == w.savings_bp && r.total_time_ms == w.total_time_ms
    &&& r.avg_time_ms == w.avg_time_ms
}

pub open spec fn row_numbers_match_month(r: PeriodRow, m: MonthStats) -> bool {
    &&& r.commands == m.commands && r.input_tokens == m.input_tokens
    &&& r.output_tokens == m.output_tokens && r.saved_tokens == m.saved_tokens
    &&& r.savings_bp == m.savings_bp && r.total_time_ms == m.total_time_ms
    &&& r.avg_time_ms == m.avg_time_ms
}

/// The rows of the daily table, one per day, labelled by date, in the
/// given order.
pub fn print_daily_full(days: &Vec<DayStats>) -> (r: Vec<PeriodRow>)
    ensures
        r@.len() == days@.len(),
        forall|i: int|
            0 <= i < r@.len() ==> (#[trigger] r@[i]).period@ == days@[i].date@
                && row_numbers_match_day(r@[i], days@[i]),
{
    let mut out: Vec<PeriodRow> = Vec::new();
    let mut i: usize = 0;
    while i < days.len()
        invariant
            i <= days@.len(),
            out@.len() == i,
            forall|t: int|
                0 <= t < i ==> (#[trigger] out@[t]).period@ == days@[t].date@
                    && row_numbers_match_day(out@[t], days@[t]),
        decreases days@.len() - i,
    {
        let d = &days[i];
        out.push(
            PeriodRow {
                period: d.date.clone(),
                commands: d.commands,
                input_tokens: d.input_tokens,
                output_tokens: d.output_tokens,
                saved_tokens: d.saved_tokens,
                savings_bp: d.savings_bp,
                total_time_ms: d.total_time_ms,
                avg_time_ms: d.avg_time_ms,
            },
        );
        i += 1;
    }
    out
}

/// The rows of the weekly table, one per week, labelled by its first and
/// last day, in the given order.
pub fn print_weekly(weeks: &Vec<WeekStats>) -> (r: Vec<PeriodRow>)
    ensures
        r@.len() == weeks@.len(),
        forall|i: int|
            0 <= i < r@.len() ==> (#[trigger] r@[i]).period@ == week_label(
                weeks@[i].week_start@,
                weeks@[i].week_end@,
            ) && row_numbers_match_week(r@[i], weeks@[i]),
{
    let mut out: Vec<PeriodRow> = Vec::new();
    let mut i: usize = 0;
    while i < weeks.len()
        invariant
            i <= weeks@.len(),
            out@.len() == i,
            forall|t: int|
                0 <= t < i ==> (#[trigger] out@[t]).period@ == week_label(
                    weeks@[t].week_start@,
                    weeks@[t].week_end@,
                ) && row_numbers_match_week(out@[t], weeks@[t]),
        decreases weeks@.len() - i,
    {
        let w = &weeks[i];
        let period = w.week_start.clone().concat(" → ").concat(w.week_end.as_str());
        out.push(
            PeriodRow {
                period,
                commands: w.commands,
                input_tokens: w.input_tokens,
                output_tokens: w.output_tokens,
                saved_tokens: w.saved_tokens,
                savings_bp: w.savings_bp,
                total_time_ms: w.total_time_ms,
                avg_time_ms: w.avg_time_ms,
            },
        );
        i += 1;
    }
    out
}

/// The rows of the monthly table, one per month, in the given order.
pub fn print_monthly(months: &Vec<MonthStats>) -> (r: Vec<PeriodRow>)
    ensures
        r@.len() == months@.len(),
        forall|i: int|
            0 <= i < r@.len() ==> (#[trigger] r@[i]).period@ == months@[i].month@
                && row_numbers_match_month(r@[i], months@[i]),
{
    let mut out: Vec<PeriodRow> = Vec::new();
    let mut i: usize = 0;
    while i < months.len()
        invariant
            i <= months@.len(),
            out@.len() == i,
            forall|t: int|
                0 <= t < i ==> (#[trigger] out@[t]).period@ == months@[t].month@
                    && row_numbers_match_month(out@[t], months@[t]),
        decreases months@.len() - i,
    {
        let m = &months[i];
        out.push(
            PeriodRow {
                period: m.month.clone(),
                commands: m.commands,
                input_tokens: m.input_tokens,
                output_tokens: m.output_tokens,
                saved_tokens: m.saved_tokens,
                savings_bp: m.savings_bp,
                total_time_ms: m.total_time_ms,
                avg_time_ms: m.avg_time_ms,
            },
        );
        i += 1;
    }
    out
}

} // verus!
