//! Canonical user-facing names of tracked commands.
use vstd::prelude::*;
use vstd::string::*;

verus! {

/// How a rename rule recognises the labels it applies to.
#[derive(PartialEq, Eq, Structural, Clone, Copy, Debug)]
pub enum Matcher {
    /// The label is exactly the rule's source name.
    Exact,
    /// The label is the source name, alone or followed by a space and
    /// arguments; the source name is replaced and the rest kept.
    Command,
}

/// One rename: labels that `matcher` recognises for `from` are given the
/// name `to`.
pub struct RenameRule {
    pub matcher: Matcher,
    pub from: &'static str,
    pub to: &'static str,
}

/// The mathematical content of a rule.
pub struct RuleModel {
    pub matcher: Matcher,
    pub from: Seq<char>,
    pub to: Seq<char>,
}

impl View for RenameRule {
    type V = RuleModel;

    open spec fn view(&self) -> RuleModel {
        RuleModel { matcher: self.matcher, from: self.from@, to: self.to@ }
    }
}

/// The rename rules, tried in this order.
pub open spec fn rules() -> Seq<RuleModel> {
    seq![
        RuleModel { matcher: Matcher::Exact, from: "rtk run-err"@, to: "rtk err"@ },
        RuleModel { matcher: Matcher::Exact, from: "rtk run-test"@, to: "rtk test"@ },
        RuleModel { matcher: Matcher::Command, from: "rtk read"@, to: "rtk cat"@ },
    ]
}

pub open spec fn rule_matches(r: RuleModel, s: Seq<char>) -> bool {
    match r.matcher {
        Matcher::Exact => s == r.from,
        Matcher::Command => {
            &&& s.len() >= r.from.len()
            &&& s.subrange(0, r.from.len() as int) == r.from
            &&& (s.len() == r.from.len() || s[r.from.len() as int] == ' ')
        },
    }
}

pub open spec fn rewrite(r: RuleModel, s: Seq<char>) -> Seq<char> {
    match r.matcher {
        Matcher::Exact => r.to,
        Matcher::Command => r.to + s.subrange(r.from.len() as int, s.len() as int),
    }
}

/// The first rule of `rs` that matches rewrites `s`; with none, `s` stays.
pub open spec fn apply_rules(rs: Seq<RuleModel>, s: Seq<char>) -> Seq<char>
    decreases rs.len(),
{
    if rs.len() == 0 {
        s
    } else if rule_matches(rs[0], s) {
        rewrite(rs[0], s)
    } else {
        apply_rules(rs.drop_first(), s)
    }
}

/// The canonical form of a label.
pub open spec fn canon(s: Seq<char>) -> Seq<char> {
    apply_rules(rules(), s)
}

/// The rename rules as values.
pub fn rename_rules() -> (r: Vec<RenameRule>)
    ensures
        r@.map_values(|x: RenameRule| x@) == rules(),
{
    let r = vec![
        RenameRule { matcher: Matcher::Exact, from: "rtk run-err", to: "rtk err" },
        RenameRule { matcher: Matcher::Exact, from: "rtk run-test", to: "rtk test" },
        RenameRule { matcher: Matcher::Command, from: "rtk read", to: "rtk cat" },
    ];
    assert(r@.map_values(|x: RenameRule| x@) =~= rules());
    r
}

fn matches(rule: &RenameRule, cmd: &str) -> (b: bool)
    ensures
        b == rule_matches(rule@, cmd@),
{
    match rule.matcher {
        Matcher::Exact => String::from_str(cmd) == String::from_str(rule.from),
        Matcher::Command => {
            let n = cmd.unicode_len();
            let f = rule.from.unicode_len();
            if n < f {
                return false;
            }
            let head = String::from_str(cmd.substring_char(0, f));
            head == String::from_str(rule.from) && (n == f || cmd.get_char(f) == ' ')
        },
    }
}

fn apply(rule: &RenameRule, cmd: &str) -> (r: String)
    requires
        rule_matches(rule@, cmd@),
    ensures
        r@ == rewrite(rule@, cmd@),
{
    match rule.matcher {
        Matcher::Exact => String::from_str(rule.to),
        Matcher::Command => {
            let n = cmd.unicode_len();
            let f = rule.from.unicode_len();
            String::from_str(rule.to).concat(cmd.substring_char(f, n))
        },
    }
}

/// Maps a stored command label to its canonical user-facing name.
pub fn normalize_cmd_name(cmd: &str) -> (r: String)
    ensures
        r@ == canon(cmd@),
{
    let rs = rename_rules();
    let ghost all = rs@.map_values(|x: RenameRule| x@);
    assert(all.subrange(0, all.len() as int) =~= all);
    let mut i: usize = 0;
    while i < rs.len()
        invariant
            all == rs@.map_values(|x: RenameRule| x@),
            all == rules(),
            i <= rs@.len(),
            apply_rules(all.subrange(i as int, all.len() as int), cmd@) == canon(cmd@),
        decreases rs@.len() - i,
    {
        let ghost rest = all.subrange(i as int, all.len() as int);
        proof {
            assert(rest[0] == rs@[i as int]@);
            assert(rest.drop_first() =~= all.subrange(i + 1, all.len() as int));
        }
        if matches(&rs[i], cmd) {
            return apply(&rs[i], cmd);
        }
        i += 1;
    }
    String::from_str(cmd)
}

/// Canonicalising a label twice gives the same label as canonicalising it once.
pub proof fn lemma_canon_idempotent(s: Seq<char>)
    ensures
        canon(canon(s)) == canon(s),
{
    reveal_strlit("rtk run-err");
    reveal_strlit("rtk run-test");
    reveal_strlit("rtk read");
    reveal_strlit("rtk err");
    reveal_strlit("rtk test");
    reveal_strlit("rtk cat");
    let rs = rules();
    assert(rs.drop_first().drop_first().drop_first().len() == 0);
    assert(rs.drop_first()[0] == rs[1]);
    assert(rs.drop_first().drop_first()[0] == rs[2]);
    reveal_with_fuel(apply_rules, 4);
    let c = canon(s);
    if rule_matches(rs[0], s) || rule_matches(rs[1], s) || rule_matches(rs[2], s) {
        // Each rule's source name has `r` as its fifth character, and no
        // name that a rule gives has.
        assert(c.len() >= 5 && c[4] != 'r') by {
            if !rule_matches(rs[0], s) && !rule_matches(rs[1], s) {
                assert(c[4] == rs[2].to[4]);
            }
        }
        assert(!rule_matches(rs[0], c)) by {
            assert(rs[0].from[4] == 'r');
        }
        assert(!rule_matches(rs[1], c)) by {
            assert(rs[1].from[4] == 'r');
        }
        assert(!rule_matches(rs[2], c)) by {
            if c.len() >= 8 {
                assert(c.subrange(0, 8)[4] == c[4]);
            }
        }
    }
}

} // verus!
