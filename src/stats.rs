//! Merging per-command rows whose labels share a canonical name.
use vstd::prelude::*;
use crate::canon::{canon, normalize_cmd_name};

verus! {

/// One row of per-command statistics. The savings percentage is held in
/// basis points: 8000 stands for 80.00%.
pub struct CommandRow {
    pub cmd: String,
    pub count: u64,
    pub saved: u64,
    pub avg_savings_bp: u64,
    pub avg_time_ms: u64,
}

/// The mathematical content of a `CommandRow`.
pub struct RowModel {
    pub label: Seq<char>,
    pub count: nat,
    pub saved: nat,
    pub savings_bp: nat,
    pub time_ms: nat,
}

impl View for CommandRow {
    type V = RowModel;

    open spec fn view(&self) -> RowModel {
        RowModel {
            label: self.cmd@,
            count: self.count as nat,
            saved: self.saved as nat,
            savings_bp: self.avg_savings_bp as nat,
            time_ms: self.avg_time_ms as nat,
        }
    }
}

/// Sums over a group of rows: commands, saved tokens, and the
/// count-weighted sums of the percentage and of the time.
pub struct Totals {
    pub count: nat,
    pub saved: nat,
    pub weighted_bp: nat,
    pub weighted_time: nat,
}

pub open spec fn zero_totals() -> Totals {
    Totals { count: 0, saved: 0, weighted_bp: 0, weighted_time: 0 }
}

pub open spec fn plus(a: Totals, b: Totals) -> Totals {
    Totals {
        count: a.count + b.count,
        saved: a.saved + b.saved,
        weighted_bp: a.weighted_bp + b.weighted_bp,
        weighted_time: a.weighted_time + b.weighted_time,
    }
}

/// What one row adds to the totals of its group.
pub open spec fn contribution(r: RowModel) -> Totals {
    Totals {
        count: r.count,
        saved: r.saved,
        weighted_bp: r.savings_bp * r.count,
        weighted_time: r.time_ms * r.count,
    }
}

pub open spec fn models(v: Seq<CommandRow>) -> Seq<RowModel> {
    v.map_values(|r: CommandRow| r@)
}

/// Totals over all rows.
pub open spec fn total(rows: Seq<RowModel>) -> Totals
    decreases rows.len(),
{
    if rows.len() == 0 {
        zero_totals()
    } else {
        plus(total(rows.drop_last()), contribution(rows.last()))
    }
}

/// Totals over the rows whose canonical label is `k`.
pub open spec fn totals_for(rows: Seq<RowModel>, k: Seq<char>) -> Totals
    decreases rows.len(),
{
    if rows.len() == 0 {
        zero_totals()
    } else if canon(rows.last().label) == k {
        plus(totals_for(rows.drop_last(), k), contribution(rows.last()))
    } else {
        totals_for(rows.drop_last(), k)
    }
}

/// The canonical labels of the rows, each once, in the order of their
/// first appearance.
pub open spec fn labels(rows: Seq<RowModel>) -> Seq<Seq<char>>
    decreases rows.len(),
{
    if rows.len() == 0 {
        Seq::empty()
    } else {
        let prev = labels(rows.drop_last());
        let c = canon(rows.last().label);
        if prev.contains(c) {
            prev
        } else {
            prev.push(c)
        }
    }
}

/// The merged row of label `k`: sums of counts and savings, and averages
/// weighted by count, rounded down (zero where the count is zero).
pub open spec fn merged_row(rows: Seq<RowModel>, k: Seq<char>) -> RowModel {
    let t = totals_for(rows, k);
    RowModel {
        label: k,
        count: t.count,
        saved: t.saved,
        savings_bp: if t.count == 0 { 0 } else { t.weighted_bp / t.count },
        time_ms: if t.count == 0 { 0 } else { t.weighted_time / t.count },
    }
}

/// The rows merged by canonical label, in first-seen order of the labels.
pub open spec fn reaggregate(rows: Seq<RowModel>) -> Seq<RowModel> {
    labels(rows).map_values(|k: Seq<char>| merged_row(rows, k))
}

/// A label that does not occur has empty totals.
proof fn lemma_absent_zero(rows: Seq<RowModel>, k: Seq<char>)
    requires
        !labels(rows).contains(k),
    ensures
        totals_for(rows, k) == zero_totals(),
    decreases rows.len(),
{
    if rows.len() > 0 {
        let p = rows.drop_last();
        if labels(p).contains(k) {
            let j = choose|j: int| 0 <= j < labels(p).len() && labels(p)[j] == k;
            if !labels(p).contains(canon(rows.last().label)) {
                assert(labels(rows)[j] == k);
            }
        } else {
            lemma_absent_zero(p, k);
            if canon(rows.last().label) == k {
                assert(labels(rows).last() == k);
            }
        }
    }
}

/// The labels are distinct and are exactly the canonical labels of the rows.
proof fn lemma_labels(rows: Seq<RowModel>)
    ensures
        labels(rows).no_duplicates(),
        labels(rows).len() <= rows.len(),
        forall|i: int| 0 <= i < rows.len() ==> labels(rows).contains(#[trigger] canon(rows[i].label)),
    decreases rows.len(),
{
    if rows.len() > 0 {
        let p = rows.drop_last();
        lemma_labels(p);
        let c = canon(rows.last().label);
        assert forall|i: int| 0 <= i < rows.len() implies labels(rows).contains(
            #[trigger] canon(rows[i].label),
        ) by {
            if i < p.len() {
                assert(p[i] == rows[i]);
                let j = choose|j: int| 0 <= j < labels(p).len() && labels(p)[j] == canon(p[i].label);
                assert(labels(rows)[j] == labels(p)[j]);
            } else {
                if !labels(p).contains(c) {
                    assert(labels(rows).last() == c);
                }
            }
        }
    }
}

/// Group totals are bounded by the totals over all rows, and the weighted
/// sums by the largest value times the count.
proof fn lemma_totals_bounds(rows: Seq<RowModel>, k: Seq<char>)
    requires
        forall|i: int| 0 <= i < rows.len() ==> #[trigger] rows[i].savings_bp <= u64::MAX && rows[i].time_ms <= u64::MAX,
    ensures
        totals_for(rows, k).count <= total(rows).count,
        totals_for(rows, k).saved <= total(rows).saved,
        totals_for(rows, k).weighted_bp <= u64::MAX * totals_for(rows, k).count,
        totals_for(rows, k).weighted_time <= u64::MAX * totals_for(rows, k).count,
    decreases rows.len(),
{
    if rows.len() > 0 {
        let p = rows.drop_last();
        assert forall|i: int| 0 <= i < p.len() implies #[trigger] p[i].savings_bp <= u64::MAX && p[i].time_ms <= u64::MAX by {
            assert(p[i] == rows[i]);
        }
        lemma_totals_bounds(p, k);
        let r = rows.last();
        let t = totals_for(p, k);
        assert(r == rows[rows.len() - 1]);
        let m = u64::MAX as nat;
        assert(r.savings_bp * r.count <= m * r.count) by (nonlinear_arith)
            requires r.savings_bp <= m;
        assert(r.time_ms * r.count <= m * r.count) by (nonlinear_arith)
            requires r.time_ms <= m;
        assert(m * t.count + m * r.count == m * (t.count + r.count)) by (nonlinear_arith);
    }
}

/// Totals over a prefix are bounded by the totals over the whole.
proof fn lemma_total_prefix(rows: Seq<RowModel>, i: int)
    requires
        0 <= i <= rows.len(),
    ensures
        total(rows.take(i)).count <= total(rows).count,
        total(rows.take(i)).saved <= total(rows).saved,
    decreases rows.len(),
{
    if i < rows.len() {
        let p = rows.drop_last();
        assert(p.take(i) == rows.take(i));
        lemma_total_prefix(p, i);
    } else {
        assert(rows.take(i) == rows);
    }
}

/// Totals of the groups named by `keys`, summed.
pub open spec fn key_totals(rows: Seq<RowModel>, keys: Seq<Seq<char>>) -> Totals
    decreases keys.len(),
{
    if keys.len() == 0 {
        zero_totals()
    } else {
        plus(key_totals(rows, keys.drop_last()), totals_for(rows, keys.last()))
    }
}

proof fn lemma_key_totals_push(p: Seq<RowModel>, r: RowModel, keys: Seq<Seq<char>>)
    requires
        keys.no_duplicates(),
    ensures
        key_totals(p.push(r), keys) == (if keys.contains(canon(r.label)) {
            plus(key_totals(p, keys), contribution(r))
        } else {
            key_totals(p, keys)
        }),
    decreases keys.len(),
{
    let q = p.push(r);
    assert(q.drop_last() == p);
    if keys.len() > 0 {
        let ks = keys.drop_last();
        let k = keys.last();
        assert(ks.no_duplicates()) by {
            assert forall|a: int, b: int| 0 <= a < ks.len() && 0 <= b < ks.len() && a != b implies ks[a] != ks[b] by {
                assert(keys[a] != keys[b]);
            }
        }
        lemma_key_totals_push(p, r, ks);
        let c = canon(r.label);
        if ks.contains(c) {
            let t = choose|t: int| 0 <= t < ks.len() && ks[t] == c;
            assert(keys[t] == c);
            assert(keys.contains(c));
            assert(k != c) by {
                assert(keys[keys.len() - 1] != keys[t]);
            }
        } else if k == c {
            assert(keys[keys.len() - 1] == c);
        } else {
            assert(!keys.contains(c)) by {
                if keys.contains(c) {
                    let t = choose|t: int| 0 <= t < keys.len() && keys[t] == c;
                    if t < ks.len() {
                        assert(ks[t] == c);
                    }
                }
            }
        }
    }
}

/// Summed over the labels, the group totals are the totals of all rows.
proof fn lemma_key_totals_labels(rows: Seq<RowModel>)
    ensures
        key_totals(rows, labels(rows)) == total(rows),
    decreases rows.len(),
{
    if rows.len() > 0 {
        let p = rows.drop_last();
        let r = rows.last();
        let c = canon(r.label);
        assert(p.push(r) == rows);
        lemma_key_totals_labels(p);
        lemma_labels(p);
        lemma_key_totals_push(p, r, labels(p));
        if !labels(p).contains(c) {
            lemma_absent_zero(p, c);
            let l = labels(p).push(c);
            assert(l.drop_last() == labels(p));
        }
    }
}

proof fn lemma_merged_sums(rows: Seq<RowModel>, keys: Seq<Seq<char>>)
    ensures
        total(keys.map_values(|k: Seq<char>| merged_row(rows, k))).count == key_totals(rows, keys).count,
        total(keys.map_values(|k: Seq<char>| merged_row(rows, k))).saved == key_totals(rows, keys).saved,
    decreases keys.len(),
{
    if keys.len() > 0 {
        let ks = keys.drop_last();
        lemma_merged_sums(rows, ks);
        let out = keys.map_values(|k: Seq<char>| merged_row(rows, k));
        assert(out.drop_last() == ks.map_values(|k: Seq<char>| merged_row(rows, k)));
    }
}

/// Merging loses and doubles nothing: the merged rows hold as many
/// commands and as many saved tokens as the input rows.
pub proof fn lemma_reaggregate_preserves_sums(rows: Seq<RowModel>)
    ensures
        total(reaggregate(rows)).count == total(rows).count,
        total(reaggregate(rows)).saved == total(rows).saved,
{
    lemma_merged_sums(rows, labels(rows));
    lemma_key_totals_labels(rows);
}

/// Merging never lengthens the rows, and no canonical label occurs twice
/// in its result.
pub proof fn lemma_reaggregate_shape(rows: Seq<RowModel>)
    ensures
        reaggregate(rows).len() <= rows.len(),
        labels(rows).no_duplicates(),
        forall|i: int| 0 <= i < reaggregate(rows).len() ==> #[trigger] reaggregate(rows)[i].label == labels(rows)[i],
{
    lemma_labels(rows);
}

/// Rows for which no label collides keep their number and order, each
/// under its canonical label.
pub proof fn lemma_reaggregate_distinct(rows: Seq<RowModel>)
    requires
        forall|a: int, b: int| 0 <= a < b < rows.len() ==> canon(rows[a].label) != canon(rows[b].label),
    ensures
        reaggregate(rows).len() == rows.len(),
        forall|i: int| 0 <= i < rows.len() ==> #[trigger] reaggregate(rows)[i].label == canon(rows[i].label),
    decreases rows.len(),
{
    if rows.len() > 0 {
        let p = rows.drop_last();
        lemma_reaggregate_distinct(p);
        lemma_labels(p);
        let c = canon(rows.last().label);
        assert forall|i: int| 0 <= i < p.len() implies #[trigger] labels(p)[i] == canon(rows[i].label) by {
            assert(reaggregate(p)[i].label == labels(p)[i]);
            assert(p[i] == rows[i]);
        }
        assert(!labels(p).contains(c)) by {
            if labels(p).contains(c) {
                let t = choose|t: int| 0 <= t < labels(p).len() && labels(p)[t] == c;
                assert(canon(rows[t].label) == c);
                assert(rows.last() == rows[rows.len() - 1]);
            }
        }
    }
}

/// Running totals of one canonical label.
#[derive(Clone, Copy)]
struct Acc {
    count: u64,
    saved: u64,
    weighted_bp: u128,
    weighted_time: u128,
}

spec fn acc_totals(a: Acc) -> Totals {
    Totals {
        count: a.count as nat,
        saved: a.saved as nat,
        weighted_bp: a.weighted_bp as nat,
        weighted_time: a.weighted_time as nat,
    }
}

/// Index of the key whose text is `k`, if any.
fn find_key(keys: &Vec<String>, k: &String) -> (r: Option<usize>)
    ensures
        match r {
            Some(j) => j < keys@.len() && keys@[j as int]@ == k@,
            None => forall|j: int| 0 <= j < keys@.len() ==> keys@[j]@ != k@,
        },
{
    let mut j: usize = 0;
    while j < keys.len()
        invariant
            j <= keys@.len(),
            forall|t: int| 0 <= t < j ==> keys@[t]@ != k@,
        decreases keys@.len() - j,
    {
        if keys[j] == *k {
            return Some(j);
        }
        j += 1;
    }
    None
}

/// Merges rows whose labels share a canonical name. Counts and savings
/// are summed; the percentage and the time are averaged weighted by count,
/// rounded down. Labels keep the order in which they first appear.
pub fn normalize_by_command(entries: Vec<CommandRow>) -> (r: Vec<CommandRow>)
    requires
        total(models(entries@)).count <= u64::MAX,
        total(models(entries@)).saved <= u64::MAX,
    ensures
        models(r@) == reaggregate(models(entries@)),
{
    let ghost m = models(entries@);
    let mut keys: Vec<String> = Vec::new();
    let mut accs: Vec<Acc> = Vec::new();
    let mut i: usize = 0;
    while i < entries.len()
        invariant
            m == models(entries@),
            i <= entries@.len(),
            total(m).count <= u64::MAX,
            total(m).saved <= u64::MAX,
            keys@.len() == accs@.len(),
            keys@.len() == labels(m.take(i as int)).len(),
            forall|j: int| 0 <= j < keys@.len() ==> #[trigger] keys@[j]@ == labels(m.take(i as int))[j],
            forall|j: int| 0 <= j < accs@.len() ==> #[trigger] acc_totals(accs@[j]) == totals_for(m.take(i as int), labels(m.take(i as int))[j]),
        decreases entries@.len() - i,
    {
        let ghost p = m.take(i as int);
        let ghost q = m.take(i + 1);
        let row = &entries[i];
        let c = normalize_cmd_name(row.cmd.as_str());
        proof {
            assert(q.drop_last() == p);
            assert(q.last() == m[i as int]);
            assert(m[i as int] == entries@[i as int]@);
            assert forall|t: int| 0 <= t < q.len() implies #[trigger] q[t].savings_bp <= u64::MAX && q[t].time_ms <= u64::MAX by {
                assert(q[t] == entries@[t]@);
            }
            lemma_totals_bounds(q, c@);
            lemma_total_prefix(m, i + 1);
            lemma_labels(p);
        }
        let found = find_key(&keys, &c);
        let ghost tq = totals_for(q, c@);
        let ghost mx = u64::MAX as nat;
        proof {
            assert(tq.weighted_bp <= mx * mx && tq.weighted_time <= mx * mx) by (nonlinear_arith)
                requires tq.weighted_bp <= mx * tq.count, tq.weighted_time <= mx * tq.count, tq.count <= mx;
        }
        match found {
            Some(j) => {
                let a = accs[j];
                proof {
                    assert(labels(q) == labels(p));
                    assert(acc_totals(a) == totals_for(p, labels(p)[j as int]));
                    assert(labels(p)[j as int] == c@);
                    assert(canon(q.last().label) == c@);
                    assert(tq == plus(totals_for(p, c@), contribution(q.last())));
                }
                accs.set(j, Acc {
                    count: a.count + row.count,
                    saved: a.saved + row.saved,
                    weighted_bp: a.weighted_bp + row.avg_savings_bp as u128 * row.count as u128,
                    weighted_time: a.weighted_time + row.avg_time_ms as u128 * row.count as u128,
                });
                proof {
                    assert forall|t: int| 0 <= t < accs@.len() implies #[trigger] acc_totals(accs@[t]) == totals_for(q, labels(q)[t]) by {
                        if t != j {
                            assert(labels(p)[t] != labels(p)[j as int]);
                        }
                    }
                }
            },
            None => {
                proof {
                    assert(!labels(p).contains(c@)) by {
                        if labels(p).contains(c@) {
                            let t = choose|t: int| 0 <= t < labels(p).len() && labels(p)[t] == c@;
                            assert(keys@[t]@ == c@);
                        }
                    }
                    lemma_absent_zero(p, c@);
                    assert(labels(q) == labels(p).push(c@));
                }
                keys.push(c);
                accs.push(Acc {
                    count: row.count,
                    saved: row.saved,
                    weighted_bp: row.avg_savings_bp as u128 * row.count as u128,
                    weighted_time: row.avg_time_ms as u128 * row.count as u128,
                });
            },
        }
        i += 1;
    }
    proof {
        assert(m.take(entries@.len() as int) == m);
    }
    let mut out: Vec<CommandRow> = Vec::new();
    let mut j: usize = 0;
    while j < keys.len()
        invariant
            m == models(entries@),
            keys@.len() == accs@.len(),
            keys@.len() == labels(m).len(),
            forall|t: int| 0 <= t < keys@.len() ==> #[trigger] keys@[t]@ == labels(m)[t],
            forall|t: int| 0 <= t < accs@.len() ==> #[trigger] acc_totals(accs@[t]) == totals_for(m, labels(m)[t]),
            j <= keys@.len(),
            out@.len() == j,
            forall|t: int| 0 <= t < j ==> #[trigger] out@[t]@ == merged_row(m, labels(m)[t]),
        decreases keys@.len() - j,
    {
        let a = accs[j];
        let ghost k = labels(m)[j as int];
        proof {
            assert forall|t: int| 0 <= t < m.len() implies #[trigger] m[t].savings_bp <= u64::MAX && m[t].time_ms <= u64::MAX by {
                assert(m[t] == entries@[t]@);
            }
            lemma_totals_bounds(m, k);
            assert(acc_totals(a) == totals_for(m, k));
        }
        let (bp, time) = if a.count == 0 {
            (0u64, 0u64)
        } else {
            let ghost mx = u64::MAX as nat;
            let ghost c = a.count as nat;
            proof {
                assert(a.weighted_bp as nat / c <= mx) by (nonlinear_arith)
                    requires a.weighted_bp as nat <= mx * c, c > 0;
                assert(a.weighted_time as nat / c <= mx) by (nonlinear_arith)
                    requires a.weighted_time as nat <= mx * c, c > 0;
            }
            ((a.weighted_bp / a.count as u128) as u64, (a.weighted_time / a.count as u128) as u64)
        };
        out.push(CommandRow {
            cmd: keys[j].clone(),
            count: a.count,
            saved: a.saved,
            avg_savings_bp: bp,
            avg_time_ms: time,
        });
        j += 1;
    }
    proof {
        assert(models(out@) == reaggregate(m));
    }
    out
}

} // verus!
