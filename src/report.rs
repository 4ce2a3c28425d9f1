//! Decisions behind the text report: which sections appear, the quota
//! tiers, label shortening and the bars of the savings graph.
use vstd::prelude::*;
use vstd::string::*;
use crate::canon::{canon, normalize_cmd_name};

verus! {

/// How the statistics are written out.
#[derive(PartialEq, Eq, Structural, Clone, Copy, Debug)]
pub enum OutputFormat {
    Text,
    Json,
    Csv,
}

/// Reads the format selector: `json` and `csv` name the structured
/// exports, anything else is the text report.
pub fn output_format(format: &str) -> (r: OutputFormat)
    ensures
        r == (if format@ == "json"@ {
            OutputFormat::Json
        } else if format@ == "csv"@ {
            OutputFormat::Csv
        } else {
            OutputFormat::Text
        }),
{
    let s = String::from_str(format);
    if s == String::from_str("json") {
        OutputFormat::Json
    } else if s == String::from_str("csv") {
        OutputFormat::Csv
    } else {
        OutputFormat::Text
    }
}

/// Which period rollups are shown or exported.
#[derive(PartialEq, Eq, Structural, Clone, Copy, Debug)]
pub struct PeriodSelection {
    pub daily: bool,
    pub weekly: bool,
    pub monthly: bool,
}

pub open spec fn selection_of(daily: bool, weekly: bool, monthly: bool, all: bool) -> PeriodSelection {
    PeriodSelection { daily: all || daily, weekly: all || weekly, monthly: all || monthly }
}

/// The rollups selected by the flags; `all` selects every one.
pub fn select_periods(daily: bool, weekly: bool, monthly: bool, all: bool) -> (r: PeriodSelection)
    ensures
        r == selection_of(daily, weekly, monthly, all),
{
    PeriodSelection { daily: all || daily, weekly: all || weekly, monthly: all || monthly }
}

/// The sections of a text report.
#[derive(PartialEq, Eq, Structural, Clone, Copy, Debug)]
pub struct TextPlan {
    pub no_data: bool,
    pub summary: bool,
    pub by_command: bool,
    pub graph: bool,
    pub history: bool,
    pub quota: bool,
    pub periods: PeriodSelection,
}

pub open spec fn text_plan_of(
    total_commands: u64,
    n_commands: nat,
    n_days: nat,
    graph: bool,
    history: bool,
    quota: bool,
    daily: bool,
    weekly: bool,
    monthly: bool,
    all: bool,
) -> TextPlan {
    let none = PeriodSelection { daily: false, weekly: false, monthly: false };
    if total_commands == 0 {
        TextPlan {
            no_data: true,
            summary: false,
            by_command: false,
            graph: false,
            history: false,
            quota: false,
            periods: none,
        }
    } else if !daily && !weekly && !monthly && !all {
        TextPlan {
            no_data: false,
            summary: true,
            by_command: n_commands > 0,
            graph: graph && n_days > 0,
            history,
            quota,
            periods: none,
        }
    } else {
        TextPlan {
            no_data: false,
            summary: false,
            by_command: false,
            graph: false,
            history: false,
            quota: false,
            periods: selection_of(daily, weekly, monthly, all),
        }
    }
}

/// Plans a text report. With no tracked command only the notice that there
/// is no data appears. With no period flag the summary view appears, with
/// the per-command table when there are rows, the graph when asked for and
/// there are days, and the history and quota sections when asked for.
/// Otherwise the selected period tables appear, and nothing else.
pub fn plan_text_report(
    total_commands: u64,
    n_commands: usize,
    n_days: usize,
    graph: bool,
    history: bool,
    quota: bool,
    daily: bool,
    weekly: bool,
    monthly: bool,
    all: bool,
) -> (r: TextPlan)
    ensures
        r == text_plan_of(
            total_commands,
            n_commands as nat,
            n_days as nat,
            graph,
            history,
            quota,
            daily,
            weekly,
            monthly,
            all,
        ),
{
    let none = PeriodSelection { daily: false, weekly: false, monthly: false };
    if total_commands == 0 {
        TextPlan {
            no_data: true,
            summary: false,
            by_command: false,
            graph: false,
            history: false,
            quota: false,
            periods: none,
        }
    } else if !daily && !weekly && !monthly && !all {
        TextPlan {
            no_data: false,
            summary: true,
            by_command: n_commands > 0,
            graph: graph && n_days > 0,
            history,
            quota,
            periods: none,
        }
    } else {
        TextPlan {
            no_data: false,
            summary: false,
            by_command: false,
            graph: false,
            history: false,
            quota: false,
            periods: select_periods(daily, weekly, monthly, all),
        }
    }
}

/// A report without tracked commands holds the no-data notice alone,
/// whatever the flags ask for.
pub proof fn lemma_no_data_alone(
    n_commands: nat,
    n_days: nat,
    graph: bool,
    history: bool,
    quota: bool,
    daily: bool,
    weekly: bool,
    monthly: bool,
    all: bool,
)
    ensures
        ({
            let p = text_plan_of(0, n_commands, n_days, graph, history, quota, daily, weekly, monthly, all);
            &&& p.no_data
            &&& !p.summary && !p.by_command && !p.graph && !p.history && !p.quota
            &&& !p.periods.daily && !p.periods.weekly && !p.periods.monthly
        }),
{
}

/// Monthly token allowance assumed for the lowest subscription tier.
pub const ESTIMATED_PRO_MONTHLY: u64 = 6_000_000;

/// Subscription tiers of the quota estimate.
#[derive(PartialEq, Eq, Structural, Clone, Copy, Debug)]
pub enum Tier {
    Pro,
    Max5x,
    Max20x,
}

pub open spec fn tier_multiple(t: Tier) -> nat {
    match t {
        Tier::Pro => 1,
        Tier::Max5x => 5,
        Tier::Max20x => 20,
    }
}

impl Tier {
    /// Reads the tier selector; an unknown one falls back to `Pro`.
    pub fn parse(tier: &str) -> (r: Tier)
        ensures
            r == (if tier@ == "5x"@ {
                Tier::Max5x
            } else if tier@ == "20x"@ {
                Tier::Max20x
            } else {
                Tier::Pro
            }),
    {
        let s = String::from_str(tier);
        if s == String::from_str("5x") {
            Tier::Max5x
        } else if s == String::from_str("20x") {
            Tier::Max20x
        } else {
            Tier::Pro
        }
    }

    /// Estimated monthly token quota: the baseline times the tier's multiple.
    pub fn monthly_quota(&self) -> (r: u64)
        ensures
            r == tier_multiple(*self) * ESTIMATED_PRO_MONTHLY,
    {
        match self {
            Tier::Pro => ESTIMATED_PRO_MONTHLY,
            Tier::Max5x => ESTIMATED_PRO_MONTHLY * 5,
            Tier::Max20x => ESTIMATED_PRO_MONTHLY * 20,
        }
    }

    /// The tier's name with its price.
    pub fn label(&self) -> (r: String)
        ensures
            r@ == (match *self {
                Tier::Pro => "Pro ($20/mo)"@,
                Tier::Max5x => "Max 5x ($100/mo)"@,
                Tier::Max20x => "Max 20x ($200/mo)"@,
            }),
    {
        match self {
            Tier::Pro => String::from_str("Pro ($20/mo)"),
            Tier::Max5x => String::from_str("Max 5x ($100/mo)"),
            Tier::Max20x => String::from_str("Max 20x ($200/mo)"),
        }
    }
}

/// `s` unchanged when it has at most `max` characters, else its first
/// `keep` characters followed by an ellipsis.
pub open spec fn shortened(s: Seq<char>, max: nat, keep: nat) -> Seq<char> {
    if s.len() > max {
        s.take(keep as int) + "..."@
    } else {
        s
    }
}

/// Shortens a label for a table column.
pub fn shorten(s: &str, max: usize, keep: usize) -> (r: String)
    requires
        keep <= max,
    ensures
        r@ == shortened(s@, max as nat, keep as nat),
{
    let n = s.unicode_len();
    if n > max {
        String::from_str(s.substring_char(0, keep)).concat("...")
    } else {
        String::from_str(s)
    }
}

/// Width of the command column of the per-command table, and the length
/// that a longer label is cut to.
pub const COMMAND_COLUMN: usize = 18;
pub const COMMAND_KEEP: usize = 15;

/// Width of the command column of the history, and the length that a
/// longer label is cut to.
pub const HISTORY_COLUMN: usize = 25;
pub const HISTORY_KEEP: usize = 22;

/// The label shown for a command in the per-command table.
pub fn command_cell(cmd: &str) -> (r: String)
    ensures
        r@ == shortened(cmd@, COMMAND_COLUMN as nat, COMMAND_KEEP as nat),
{
    shorten(cmd, COMMAND_COLUMN, COMMAND_KEEP)
}

/// The label shown for a recent command: its canonical name, shortened.
pub fn history_cell(cmd: &str) -> (r: String)
    ensures
        r@ == shortened(canon(cmd@), HISTORY_COLUMN as nat, HISTORY_KEEP as nat),
{
    let c = normalize_cmd_name(cmd);
    shorten(c.as_str(), HISTORY_COLUMN, HISTORY_KEEP)
}

/// Width of a full bar of the savings graph.
pub const GRAPH_WIDTH: u64 = 40;

/// One row of the savings graph.
pub struct GraphBar {
    pub label: String,
    pub bar_len: u64,
    pub value: u64,
}

/// The largest value of the series, zero for an empty one.
pub open spec fn max_value(data: Seq<(String, u64)>) -> u64
    decreases data.len(),
{
    if data.len() == 0 {
        0
    } else {
        let m = max_value(data.drop_last());
        if data.last().1 > m {
            data.last().1
        } else {
            m
        }
    }
}

/// The date as shown beside a bar: characters five to ten (the month and
/// day of an ISO date) when it is that long, else all of it.
pub open spec fn date_label(d: Seq<char>) -> Seq<char> {
    if d.len() >= 10 {
        d.subrange(5, 10)
    } else {
        d
    }
}

/// Length of a bar: the value's share of the largest, scaled to the full
/// width and rounded down; zero when the largest is zero.
pub open spec fn bar_length(value: nat, max: nat) -> nat {
    if max == 0 {
        0
    } else {
        value * GRAPH_WIDTH as nat / max
    }
}

proof fn lemma_max_value(data: Seq<(String, u64)>)
    ensures
        forall|i: int| 0 <= i < data.len() ==> #[trigger] data[i].1 <= max_value(data),
    decreases data.len(),
{
    if data.len() > 0 {
        let p = data.drop_last();
        lemma_max_value(p);
        assert forall|i: int| 0 <= i < data.len() implies #[trigger] data[i].1 <= max_value(data) by {
            if i < p.len() {
                assert(p[i] == data[i]);
            }
        }
    }
}

/// The bars of the savings graph, one per day in the given order.
pub fn graph_bars(data: &Vec<(String, u64)>) -> (r: Vec<GraphBar>)
    ensures
        r@.len() == data@.len(),
        forall|i: int|
            0 <= i < r@.len() ==> {
                &&& (#[trigger] r@[i]).label@ == date_label(data@[i].0@)
                &&& r@[i].value == data@[i].1
                &&& r@[i].bar_len == bar_length(data@[i].1 as nat, max_value(data@) as nat)
                &&& r@[i].bar_len <= GRAPH_WIDTH
            },
{
    let mut mx: u64 = 0;
    let mut i: usize = 0;
    while i < data.len()
        invariant
            i <= data@.len(),
            mx == max_value(data@.take(i as int)),
        decreases data@.len() - i,
    {
        proof {
            assert(data@.take(i + 1).drop_last() == data@.take(i as int));
        }
        if data[i].1 > mx {
            mx = data[i].1;
        }
        i += 1;
    }
    proof {
        assert(data@.take(data@.len() as int) == data@);
        lemma_max_value(data@);
    }
    let mut out: Vec<GraphBar> = Vec::new();
    let mut j: usize = 0;
    while j < data.len()
        invariant
            j <= data@.len(),
            mx == max_value(data@),
            forall|t: int| 0 <= t < data@.len() ==> #[trigger] data@[t].1 <= mx,
            out@.len() == j,
            forall|t: int|
                0 <= t < j ==> {
                    &&& (#[trigger] out@[t]).label@ == date_label(data@[t].0@)
                    &&& out@[t].value == data@[t].1
                    &&& out@[t].bar_len == bar_length(data@[t].1 as nat, max_value(data@) as nat)
                    &&& out@[t].bar_len <= GRAPH_WIDTH
                },
        decreases data@.len() - j,
    {
        let date = &data[j].0;
        let value = data[j].1;
        let n = date.as_str().unicode_len();
        let label = if n >= 10 {
            String::from_str(date.as_str().substring_char(5, 10))
        } else {
            date.clone()
        };
        let bar_len = if mx == 0 {
            0u64
        } else {
            let ghost v = value as nat;
            let ghost m = mx as nat;
            proof {
                assert(v * 40 / m <= 40) by (nonlinear_arith)
                    requires v <= m, m > 0;
            }
            (value as u128 * GRAPH_WIDTH as u128 / mx as u128) as u64
        };
        out.push(GraphBar { label, bar_len, value });
        j += 1;
    }
    out
}

} // verus!
