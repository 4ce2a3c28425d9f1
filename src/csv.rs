//! CSV export of the period rollups.
use vstd::prelude::*;
use vstd::string::*;
use crate::period::{DayStats, WeekStats, MonthStats};
use crate::report::PeriodSelection;

verus! {

pub open spec fn digit_char(d: nat) -> char {
    if d == 0 {
        '0'
    } else if d == 1 {
        '1'
    } else if d == 2 {
        '2'
    } else if d == 3 {
        '3'
    } else if d == 4 {
        '4'
    } else if d == 5 {
        '5'
    } else if d == 6 {
        '6'
    } else if d == 7 {
        '7'
    } else if d == 8 {
        '8'
    } else {
        '9'
    }
}

/// The decimal digits of `n`, without leading zeros.
pub open spec fn decimal(n: nat) -> Seq<char>
    decreases n,
{
    if n < 10 {
        seq![digit_char(n)]
    } else {
        decimal(n / 10).push(digit_char(n % 10))
    }
}

/// A percentage given in basis points, with two decimals: 7833 is `78.33`.
pub open spec fn percent_text(bp: nat) -> Seq<char> {
    decimal(bp / 100) + "."@ + seq![digit_char((bp % 100) / 10), digit_char(bp % 10)]
}

fn digit_str(d: u64) -> (r: &'static str)
    requires
        d < 10,
    ensures
        r@ == seq![digit_char(d as nat)],
{
    if d == 0 {
        proof {
            reveal_strlit("0");
        }
        "0"
    } else if d == 1 {
        proof {
            reveal_strlit("1");
        }
        "1"
    } else if d == 2 {
        proof {
            reveal_strlit("2");
        }
        "2"
    } else if d == 3 {
        proof {
            reveal_strlit("3");
        }
        "3"
    } else if d == 4 {
        proof {
            reveal_strlit("4");
        }
        "4"
    } else if d == 5 {
        proof {
            reveal_strlit("5");
        }
        "5"
    } else if d == 6 {
        proof {
            reveal_strlit("6");
        }
        "6"
    } else if d == 7 {
        proof {
            reveal_strlit("7");
        }
        "7"
    } else if d == 8 {
        proof {
            reveal_strlit("8");
        }
        "8"
    } else {
        proof {
            reveal_strlit("9");
        }
        "9"
    }
}

/// Writes `n` in decimal.
pub fn decimal_string(n: u64) -> (r: String)
    ensures
        r@ == decimal(n as nat),
    decreases n,
{
    if n < 10 {
        String::from_str(digit_str(n))
    } else {
        let r = decimal_string(n / 10).concat(digit_str(n % 10));
        proof {
            assert(r@ == decimal((n / 10) as nat).push(digit_char((n % 10) as nat)));
        }
        r
    }
}

/// Writes a percentage given in basis points with two decimals.
pub fn percent_string(bp: u64) -> (r: String)
    ensures
        r@ == percent_text(bp as nat),
{
    decimal_string(bp / 100).concat(".").concat(digit_str((bp % 100) / 10)).concat(
        digit_str(bp % 10),
    )
}

/// The fields that every period line ends with.
pub open spec fn stats_fields(
    commands: u64,
    input: u64,
    output: u64,
    saved: u64,
    bp: u64,
    total_time: u64,
    avg_time: u64,
) -> Seq<char> {
    decimal(commands as nat) + ","@ + decimal(input as nat) + ","@ + decimal(output as nat) + ","@
        + decimal(saved as nat) + ","@ + percent_text(bp as nat) + ","@ + decimal(total_time as nat)
        + ","@ + decimal(avg_time as nat)
}

fn stats_fields_string(
    commands: u64,
    input: u64,
    output: u64,
    saved: u64,
    bp: u64,
    total_time: u64,
    avg_time: u64,
) -> (r: String)
    ensures
        r@ == stats_fields(commands, input, output, saved, bp, total_time, avg_time),
{
    let mut s = decimal_string(commands);
    s.append(",");
    s.append(decimal_string(input).as_str());
    s.append(",");
    s.append(decimal_string(output).as_str());
    s.append(",");
    s.append(decimal_string(saved).as_str());
    s.append(",");
    s.append(percent_string(bp).as_str());
    s.append(",");
    s.append(decimal_string(total_time).as_str());
    s.append(",");
    s.append(decimal_string(avg_time).as_str());
    s
}

pub open spec fn day_line(d: DayStats) -> Seq<char> {
    d.date@ + ","@ + stats_fields(
        d.commands,
        d.input_tokens,
        d.output_tokens,
        d.saved_tokens,
        d.savings_bp,
        d.total_time_ms,
        d.avg_time_ms,
    )
}

pub open spec fn week_line(w: WeekStats) -> Seq<char> {
    w.week_start@ + ","@ + w.week_end@ + ","@ + stats_fields(
        w.commands,
        w.input_tokens,
        w.output_tokens,
        w.saved_tokens,
        w.savings_bp,
        w.total_time_ms,
        w.avg_time_ms,
    )
}

pub open spec fn month_line(m: MonthStats) -> Seq<char> {
    m.month@ + ","@ + stats_fields(
        m.commands,
        m.input_tokens,
        m.output_tokens,
        m.saved_tokens,
        m.savings_bp,
        m.total_time_ms,
        m.avg_time_ms,
    )
}

pub open spec fn day_lines(days: Seq<DayStats>) -> Seq<char>
    decreases days.len(),
{
    if days.len() == 0 {
        Seq::empty()
    } else {
        day_lines(days.drop_last()) + day_line(days.last()) + "\n"@
    }
}

pub open spec fn week_lines(weeks: Seq<WeekStats>) -> Seq<char>
    decreases weeks.len(),
{
    if weeks.len() == 0 {
        Seq::empty()
    } else {
        week_lines(weeks.drop_last()) + week_line(weeks.last()) + "\n"@
    }
}

pub open spec fn month_lines(months: Seq<MonthStats>) -> Seq<char>
    decreases months.len(),
{
    if months.len() == 0 {
        Seq::empty()
    } else {
        month_lines(months.drop_last()) + month_line(months.last()) + "\n"@
    }
}

pub open spec fn daily_section(days: Seq<DayStats>) -> Seq<char> {
    "# Daily Data\n"@ + DAILY_HEADER@ + "\n"@ + day_lines(days) + "\n"@
}

pub open spec fn weekly_section(weeks: Seq<WeekStats>) -> Seq<char> {
    "# Weekly Data\n"@ + WEEKLY_HEADER@ + "\n"@ + week_lines(weeks) + "\n"@
}

pub open spec fn monthly_section(months: Seq<MonthStats>) -> Seq<char> {
    "# Monthly Data\n"@ + MONTHLY_HEADER@ + "\n"@ + month_lines(months)
}

/// The CSV document: one section per selected rollup, daily, weekly and
/// monthly in that order, the first two each followed by a blank line.
pub open spec fn csv_document(
    sel: PeriodSelection,
    days: Seq<DayStats>,
    weeks: Seq<WeekStats>,
    months: Seq<MonthStats>,
) -> Seq<char> {
    (if sel.daily {
        daily_section(days)
    } else {
        Seq::empty()
    }) + (if sel.weekly {
        weekly_section(weeks)
    } else {
        Seq::empty()
    }) + (if sel.monthly {
        monthly_section(months)
    } else {
        Seq::empty()
    })
}

pub const DAILY_HEADER: &'static str =
    "date,commands,input_tokens,output_tokens,saved_tokens,savings_pct,total_time_ms,avg_time_ms";

pub const WEEKLY_HEADER: &'static str =
    "week_start,week_end,commands,input_tokens,output_tokens,saved_tokens,savings_pct,total_time_ms,avg_time_ms";

pub const MONTHLY_HEADER: &'static str =
    "month,commands,input_tokens,output_tokens,saved_tokens,savings_pct,total_time_ms,avg_time_ms";

fn append_days(out: &mut String, days: &Vec<DayStats>)
    ensures
        final(out)@ == old(out)@ + day_lines(days@),
{
    let mut i: usize = 0;
    while i < days.len()
        invariant
            i <= days@.len(),
            out@ == old(out)@ + day_lines(days@.take(i as int)),
        decreases days@.len() - i,
    {
        let d = &days[i];
        proof {
            assert(days@.take(i + 1).drop_last() == days@.take(i as int));
        }
        out.append(d.date.as_str());
        out.append(",");
        let f = stats_fields_string(
            d.commands,
            d.input_tokens,
            d.output_tokens,
            d.saved_tokens,
            d.savings_bp,
            d.total_time_ms,
            d.avg_time_ms,
        );
        out.append(f.as_str());
        out.append("\n");
        i += 1;
    }
    proof {
        assert(days@.take(days@.len() as int) == days@);
    }
}

fn append_weeks(out: &mut String, weeks: &Vec<WeekStats>)
    ensures
        final(out)@ == old(out)@ + week_lines(weeks@),
{
    let mut i: usize = 0;
    while i < weeks.len()
        invariant
            i <= weeks@.len(),
            out@ == old(out)@ + week_lines(weeks@.take(i as int)),
        decreases weeks@.len() - i,
    {
        let w = &weeks[i];
        proof {
            assert(weeks@.take(i + 1).drop_last() == weeks@.take(i as int));
        }
        out.append(w.week_start.as_str());
        out.append(",");
        out.append(w.week_end.as_str());
        out.append(",");
        let f = stats_fields_string(
            w.commands,
            w.input_tokens,
            w.output_tokens,
            w.saved_tokens,
            w.savings_bp,
            w.total_time_ms,
            w.avg_time_ms,
        );
        out.append(f.as_str());
        out.append("\n");
        i += 1;
    }
    proof {
        assert(weeks@.take(weeks@.len() as int) == weeks@);
    }
}

fn append_months(out: &mut String, months: &Vec<MonthStats>)
    ensures
        final(out)@ == old(out)@ + month_lines(months@),
{
    let mut i: usize = 0;
    while i < months.len()
        invariant
            i <= months@.len(),
            out@ == old(out)@ + month_lines(months@.take(i as int)),
        decreases months@.len() - i,
    {
        let m = &months[i];
        proof {
            assert(months@.take(i + 1).drop_last() == months@.take(i as int));
        }
        out.append(m.month.as_str());
        out.append(",");
        let f = stats_fields_string(
            m.commands,
            m.input_tokens,
            m.output_tokens,
            m.saved_tokens,
            m.savings_bp,
            m.total_time_ms,
            m.avg_time_ms,
        );
        out.append(f.as_str());
        out.append("\n");
        i += 1;
    }
    proof {
        assert(months@.take(months@.len() as int) == months@);
    }
}

/// Writes the selected rollups as CSV: per section a title line, a fixed
/// header and one line per period, numbers in decimal and percentages with
/// two decimals.
pub fn export_csv(
    sel: PeriodSelection,
    days: &Vec<DayStats>,
    weeks: &Vec<WeekStats>,
    months: &Vec<MonthStats>,
) -> (r: String)
    ensures
        r@ == csv_document(sel, days@, weeks@, months@),
{
    let mut out = String::new();
    if sel.daily {
        out.append("# Daily Data\n");
        out.append(DAILY_HEADER);
        out.append("\n");
        append_days(&mut out, days);
        out.append("\n");
    }
    if sel.weekly {
        out.append("# Weekly Data\n");
        out.append(WEEKLY_HEADER);
        out.append("\n");
        append_weeks(&mut out, weeks);
        out.append("\n");
    }
    if sel.monthly {
        out.append("# Monthly Data\n");
        out.append(MONTHLY_HEADER);
        out.append("\n");
        append_months(&mut out, months);
    }
    out
}

} // verus!
