//! Safety pipeline statistics: the counts over the safety reports and the bypasses of a
//! period. The rates and averages built from these counts are left to the caller.

use vstd::prelude::*;
use crate::text::{chars_of, same_chars};
use crate::violation::PipelineStage;

verus! {

/// A safety report, as the statistics read it: when it was made (in seconds), whether it
/// passed, its stage, and how many checks it ran.
#[derive(Debug)]
pub struct ReportRecord {
    /// When the report was made, in seconds since the epoch
    pub timestamp: i64,
    /// Whether every check passed
    pub passed: bool,
    /// The stage that was checked
    pub stage: PipelineStage,
    /// The number of checks run
    pub checks: usize,
}

/// A bypass of the safety pipeline, as the statistics read it.
#[derive(Debug)]
pub struct BypassRecord {
    /// When the bypass was made, in seconds since the epoch
    pub timestamp: i64,
    /// The stage that was bypassed
    pub stage: PipelineStage,
    /// Who bypassed it
    pub user: String,
}

/// The counts of the safety statistics.
#[derive(Debug)]
pub struct StatCounts {
    /// Reports within the period
    pub total_reports: usize,
    /// Reports within the period that passed
    pub passed_reports: usize,
    /// Reports within the period that failed
    pub failed_reports: usize,
    /// For each stage with reports within the period, in pipeline order: its reports and how
    /// many of them passed
    pub reports_by_stage: Vec<(PipelineStage, usize, usize)>,
    /// Checks run by the reports within the period
    pub total_checks: usize,
    /// Bypasses in the audit log
    pub total_bypasses: usize,
    /// For each stage that was bypassed, in pipeline order: its bypasses
    pub bypasses_by_stage: Vec<(PipelineStage, usize)>,
    /// For each user who bypassed, in the order they first appear: their bypasses
    pub bypasses_by_user: Vec<(String, usize)>,
    /// Bypasses in the last 24 hours
    pub bypasses_last_24h: usize,
    /// Bypasses in the last 7 days
    pub bypasses_last_7d: usize,
    /// Reports within the period from the last 7 days
    pub current_7d_total: usize,
    /// ... of which passed
    pub current_7d_passed: usize,
    /// Reports within the period from the 7 days before those
    pub previous_7d_total: usize,
    /// ... of which passed
    pub previous_7d_passed: usize,
}

/// Seconds in a day.
pub open spec fn day() -> int {
    86400
}

/// How many elements of `s` satisfy `p`.
pub open spec fn count<T>(s: Seq<T>, p: spec_fn(T) -> bool) -> nat
    decreases s.len(),
{
    if s.len() == 0 {
        0
    } else {
        count(s.drop_last(), p) + if p(s.last()) {
            1nat
        } else {
            0nat
        }
    }
}

/// The report was made within the last `days` days before `now`.
pub open spec fn in_period(r: ReportRecord, now: i64, days: u32) -> bool {
    r.timestamp >= now - days * day()
}

/// The checks run by the reports of `s` within the period.
pub open spec fn checks_in_period(s: Seq<ReportRecord>, now: i64, days: u32) -> nat
    decreases s.len(),
{
    if s.len() == 0 {
        0
    } else {
        checks_in_period(s.drop_last(), now, days) + if in_period(s.last(), now, days) {
            s.last().checks as nat
        } else {
            0nat
        }
    }
}

/// The stages in pipeline order.
pub open spec fn stages() -> Seq<PipelineStage> {
    seq![PipelineStage::PreCommit, PipelineStage::PrePush, PipelineStage::Publish]
}

/// The reports of stage `st` within the period.
pub open spec fn stage_reports(s: Seq<ReportRecord>, now: i64, days: u32, st: PipelineStage) -> nat {
    count(s, within_stage(now, days, st, false))
}

/// The reports of stage `st` within the period that passed.
pub open spec fn stage_passed(s: Seq<ReportRecord>, now: i64, days: u32, st: PipelineStage) -> nat {
    count(s, within_stage(now, days, st, true))
}

/// The entries for the first `k` stages that have reports within the period.
pub open spec fn report_stage_entries(
    s: Seq<ReportRecord>,
    now: i64,
    days: u32,
    k: int,
) -> Seq<(PipelineStage, nat, nat)>
    decreases k,
{
    if k <= 0 {
        seq![]
    } else {
        let rest = report_stage_entries(s, now, days, k - 1);
        let st = stages()[k - 1];
        if stage_reports(s, now, days, st) > 0 {
            rest.push((st, stage_reports(s, now, days, st), stage_passed(s, now, days, st)))
        } else {
            rest
        }
    }
}

/// The bypasses of stage `st`.
pub open spec fn stage_bypasses(b: Seq<BypassRecord>, st: PipelineStage) -> nat {
    count(b, bypassed_stage(st))
}

/// The entries for the first `k` stages that were bypassed.
pub open spec fn bypass_stage_entries(b: Seq<BypassRecord>, k: int) -> Seq<(PipelineStage, nat)>
    decreases k,
{
    if k <= 0 {
        seq![]
    } else {
        let rest = bypass_stage_entries(b, k - 1);
        let st = stages()[k - 1];
        if stage_bypasses(b, st) > 0 {
            rest.push((st, stage_bypasses(b, st)))
        } else {
            rest
        }
    }
}

/// The predicate of being the user `u`.
pub open spec fn is_user(u: Seq<char>) -> spec_fn(Seq<char>) -> bool {
    |x: Seq<char>| x == u
}

/// The users of the bypasses, in order.
pub open spec fn users_of(b: Seq<BypassRecord>) -> Seq<Seq<char>> {
    b.map_values(|x: BypassRecord| x.user@)
}

/// The users among `us`, each once, in the order they first appear.
pub open spec fn users_in_order(us: Seq<Seq<char>>) -> Seq<Seq<char>>
    decreases us.len(),
{
    if us.len() == 0 {
        seq![]
    } else {
        let d = users_in_order(us.drop_last());
        if d.contains(us.last()) {
            d
        } else {
            d.push(us.last())
        }
    }
}

/// The counts of the statistics, as numbers.
pub open spec fn counts_view(c: StatCounts) -> Seq<nat> {
    seq![
        c.total_reports as nat,
        c.passed_reports as nat,
        c.failed_reports as nat,
        c.total_checks as nat,
        c.total_bypasses as nat,
        c.bypasses_last_24h as nat,
        c.bypasses_last_7d as nat,
        c.current_7d_total as nat,
        c.current_7d_passed as nat,
        c.previous_7d_total as nat,
        c.previous_7d_passed as nat,
    ]
}

/// Reports within the period.
pub open spec fn within(now: i64, days: u32) -> spec_fn(ReportRecord) -> bool {
    |r: ReportRecord| in_period(r, now, days)
}

/// Reports within the period, with the given outcome.
pub open spec fn within_with(now: i64, days: u32, passed: bool) -> spec_fn(ReportRecord) -> bool {
    |r: ReportRecord| in_period(r, now, days) && r.passed == passed
}

/// Reports within the period made at or after `from` and before `until` (in seconds), all of
/// them or only those that passed.
pub open spec fn within_span(
    now: i64,
    days: u32,
    from: int,
    until: int,
    only_passed: bool,
) -> spec_fn(ReportRecord) -> bool {
    |r: ReportRecord|
        in_period(r, now, days) && from <= r.timestamp < until && (only_passed ==> r.passed)
}

/// Reports of stage `st` within the period, all of them or only those that passed.
pub open spec fn within_stage(
    now: i64,
    days: u32,
    st: PipelineStage,
    only_passed: bool,
) -> spec_fn(ReportRecord) -> bool {
    |r: ReportRecord| in_period(r, now, days) && r.stage == st && (only_passed ==> r.passed)
}

/// Bypasses made at or after `from` (in seconds).
pub open spec fn bypassed_since(from: int) -> spec_fn(BypassRecord) -> bool {
    |x: BypassRecord| x.timestamp >= from
}

/// Bypasses of stage `st`.
pub open spec fn bypassed_stage(st: PipelineStage) -> spec_fn(BypassRecord) -> bool {
    |x: BypassRecord| x.stage == st
}

/// The counts over the reports and bypasses, for the period of `days` days before `now`: the
/// reports within it, passed and failed; the checks they ran; the bypasses, in all and in the
/// last day and week; and the reports within the period from the last week and from the week
/// before, with how many of them passed.
pub open spec fn stat_counts(
    s: Seq<ReportRecord>,
    b: Seq<BypassRecord>,
    now: i64,
    days: u32,
) -> Seq<nat> {
    seq![
        count(s, within(now, days)),
        count(s, within_with(now, days, true)),
        count(s, within_with(now, days, false)),
        checks_in_period(s, now, days),
        b.len(),
        count(b, bypassed_since(now - day())),
        count(b, bypassed_since(now - 7 * day())),
        count(s, within_span(now, days, now - 7 * day(), i64::MAX + 1, false)),
        count(s, within_span(now, days, now - 7 * day(), i64::MAX + 1, true)),
        count(s, within_span(now, days, now - 14 * day(), now - 7 * day(), false)),
        count(s, within_span(now, days, now - 14 * day(), now - 7 * day(), true)),
    ]
}

/// The predicates counted over the reports: within the period, passed, failed, from the last
/// week (all and passed), from the week before (all and passed), then per stage in pipeline
/// order (all and passed).
pub open spec fn report_preds(now: i64, days: u32) -> Seq<spec_fn(ReportRecord) -> bool> {
    seq![
        within(now, days),
        within_with(now, days, true),
        within_with(now, days, false),
        within_span(now, days, now - 7 * day(), i64::MAX + 1, false),
        within_span(now, days, now - 7 * day(), i64::MAX + 1, true),
        within_span(now, days, now - 14 * day(), now - 7 * day(), false),
        within_span(now, days, now - 14 * day(), now - 7 * day(), true),
        within_stage(now, days, PipelineStage::PreCommit, false),
        within_stage(now, days, PipelineStage::PreCommit, true),
        within_stage(now, days, PipelineStage::PrePush, false),
        within_stage(now, days, PipelineStage::PrePush, true),
        within_stage(now, days, PipelineStage::Publish, false),
        within_stage(now, days, PipelineStage::Publish, true),
    ]
}

/// The predicates counted over the bypasses: in the last day, in the last week, then per
/// stage in pipeline order.
pub open spec fn bypass_preds(now: i64) -> Seq<spec_fn(BypassRecord) -> bool> {
    seq![
        bypassed_since(now - day()),
        bypassed_since(now - 7 * day()),
        bypassed_stage(PipelineStage::PreCommit),
        bypassed_stage(PipelineStage::PrePush),
        bypassed_stage(PipelineStage::Publish),
    ]
}

proof fn lemma_count_step<T>(s: Seq<T>, p: spec_fn(T) -> bool, i: int)
    requires
        0 <= i < s.len(),
    ensures
        count(s.take(i + 1), p) == count(s.take(i), p) + if p(s[i]) {
            1nat
        } else {
            0nat
        },
{
    assert(s.take(i + 1).drop_last() =~= s.take(i));
}

proof fn lemma_checks_prefix(s: Seq<ReportRecord>, now: i64, days: u32, k: int)
    requires
        0 <= k <= s.len(),
    ensures
        checks_in_period(s.take(k), now, days) <= checks_in_period(s, now, days),
    decreases s.len(),
{
    if k == s.len() {
        assert(s.take(k) =~= s);
    } else {
        lemma_checks_prefix(s.drop_last(), now, days, k);
        assert(s.drop_last().take(k) =~= s.take(k));
    }
}

proof fn lemma_users_distinct(us: Seq<Seq<char>>)
    ensures
        forall|a: int, b: int|
            0 <= a < b < users_in_order(us).len() ==> users_in_order(us)[a] != users_in_order(
                us,
            )[b],
    decreases us.len(),
{
    if us.len() > 0 {
        lemma_users_distinct(us.drop_last());
        let d = users_in_order(us.drop_last());
        if !d.contains(us.last()) {
            assert forall|a: int, b: int|
                0 <= a < b < users_in_order(us).len() implies users_in_order(us)[a]
                != users_in_order(us)[b] by {
                if b == d.len() {
                    assert(users_in_order(us)[a] == d[a]);
                }
            }
        }
    }
}

proof fn lemma_user_absent(us: Seq<Seq<char>>, u: Seq<char>)
    requires
        !users_in_order(us).contains(u),
    ensures
        count(us, is_user(u)) == 0,
    decreases us.len(),
{
    if us.len() > 0 {
        let d = users_in_order(us.drop_last());
        assert(!d.contains(u)) by {
            if d.contains(u) {
                let m = choose|m: int| 0 <= m < d.len() && d[m] == u;
                assert(users_in_order(us)[m] == u);
            }
        }
        lemma_user_absent(us.drop_last(), u);
        if us.last() == u {
            assert(users_in_order(us)[d.len() as int] == u);
        }
    }
}

proof fn lemma_count_bound<T>(s: Seq<T>, p: spec_fn(T) -> bool)
    ensures
        count(s, p) <= s.len(),
    decreases s.len(),
{
    if s.len() > 0 {
        lemma_count_bound(s.drop_last(), p);
    }
}

/// The index of the user `u` among `users`, if it is there.
fn position_of_user(users: &Vec<String>, u: &[char]) -> (r: Option<usize>)
    ensures
        match r {
            Some(j) => j < users.len() && users@[j as int]@ == u@,
            None => forall|m: int| 0 <= m < users.len() ==> users@[m]@ != u@,
        },
{
    let mut j: usize = 0;
    while j < users.len()
        invariant
            j <= users.len(),
            forall|m: int| 0 <= m < j ==> users@[m]@ != u@,
        decreases users.len() - j,
    {
        if same_chars(chars_of(users[j].as_str()).as_slice(), u) {
            return Some(j);
        }
        j = j + 1;
    }
    None
}

/// The users who bypassed, each once in the order they first appear, and their bypasses.
fn tally_users(bypasses: &[BypassRecord]) -> (r: Vec<(String, usize)>)
    ensures
        r@.map_values(|e: (String, usize)| e.0@) == users_in_order(users_of(bypasses@)),
        forall|j: int|
            0 <= j < r.len() ==> #[trigger] r@[j].1 == count(
                users_of(bypasses@),
                is_user(r@[j].0@),
            ),
{
    let ghost us = users_of(bypasses@);
    let mut users: Vec<String> = Vec::new();
    let mut counts: Vec<usize> = Vec::new();
    let mut i: usize = 0;
    while i < bypasses.len()
        invariant
            i <= bypasses.len(),
            us == users_of(bypasses@),
            users.len() == counts.len(),
            users@.map_values(|s: String| s@) == users_in_order(us.take(i as int)),
            forall|j: int|
                0 <= j < counts.len() ==> #[trigger] counts@[j] == count(
                    us.take(i as int),
                    is_user(users@[j]@),
                ),
        decreases bypasses.len() - i,
    {
        let u = &bypasses[i].user;
        let uc = chars_of(u.as_str());
        let ghost s = us.take(i as int);
        let ghost s1 = us.take(i + 1);
        proof {
            assert(s1.drop_last() =~= s);
            assert(s1.last() == u@);
            lemma_users_distinct(s);
        }
        let found = position_of_user(&users, uc.as_slice());
        if let Some(j) = found {
            proof {
                lemma_count_bound(s, is_user(users@[j as int]@));
                assert(users_in_order(s)[j as int] == u@);
                assert(users_in_order(s).contains(u@));
                assert(users_in_order(s1) == users_in_order(s));
            }
            let ghost old_counts = counts@;
            let ghost old_users = users@;
            counts.set(j, counts[j] + 1);
            proof {
                assert forall|m: int| 0 <= m < counts.len() implies #[trigger] counts@[m]
                    == count(s1, is_user(users@[m]@)) by {
                    assert(s1.drop_last() =~= s);
                    if m != j {
                        assert(counts@[m] == old_counts[m]);
                        assert(users_in_order(s)[m] != users_in_order(s)[j as int]);
                        assert(users@[m]@ == users_in_order(s)[m]);
                    }
                }
            }
        } else {
            proof {
                assert(!users_in_order(s).contains(u@)) by {
                    if users_in_order(s).contains(u@) {
                        let m = choose|m: int|
                            0 <= m < users_in_order(s).len() && users_in_order(s)[m] == u@;
                        assert(users@[m]@ == users_in_order(s)[m]);
                    }
                }
                lemma_user_absent(s, u@);
            }
            let ghost old_users = users@;
            users.push(u.clone());
            counts.push(1);
            proof {
                assert(users@.map_values(|x: String| x@) =~= users_in_order(s1));
                assert forall|m: int| 0 <= m < counts.len() implies #[trigger] counts@[m]
                    == count(s1, is_user(users@[m]@)) by {
                    assert(s1.drop_last() =~= s);
                    if m < counts.len() - 1 {
                        assert(users@[m] == old_users[m]);
                        assert(users@[m]@ == users_in_order(s)[m]);
                        assert(users_in_order(s)[m] != u@);
                    } else {
                        assert(users@[m]@ == u@);
                        assert(count(s, is_user(u@)) == 0);
                    }
                }
            }
        }
        i = i + 1;
    }
    assert(us.take(bypasses.len() as int) =~= us);
    let mut r: Vec<(String, usize)> = Vec::new();
    let mut k: usize = 0;
    while k < users.len()
        invariant
            k <= users.len(),
            users.len() == counts.len(),
            users@.map_values(|s: String| s@) == users_in_order(us),
            forall|j: int|
                0 <= j < counts.len() ==> #[trigger] counts@[j] == count(
                    us,
                    is_user(users@[j]@),
                ),
            r.len() == k,
            forall|j: int| 0 <= j < k ==> #[trigger] r@[j].0@ == users@[j]@ && r@[j].1 == counts@[j],
        decreases users.len() - k,
    {
        r.push((users[k].clone(), counts[k]));
        k = k + 1;
    }
    assert(r@.map_values(|e: (String, usize)| e.0@) =~= users@.map_values(|s: String| s@));
    r
}

/// The counts over the reports within the period: in all, passed and failed, the checks they
/// ran, the last week's and the week before's, and per stage.
fn count_reports(reports: &[ReportRecord], now: i64, days: u32) -> (r: (Vec<usize>, Vec<usize>))
    requires
        checks_in_period(reports@, now, days) <= usize::MAX,
    ensures
        r.0.len() == 8,
        r.1.len() == 6,
        r.0@.map_values(|n: usize| n as nat) == seq![
            count(reports@, within(now, days)),
            count(reports@, within_with(now, days, true)),
            count(reports@, within_with(now, days, false)),
            checks_in_period(reports@, now, days),
            count(reports@, within_span(now, days, now - 7 * day(), i64::MAX + 1, false)),
            count(reports@, within_span(now, days, now - 7 * day(), i64::MAX + 1, true)),
            count(reports@, within_span(now, days, now - 14 * day(), now - 7 * day(), false)),
            count(reports@, within_span(now, days, now - 14 * day(), now - 7 * day(), true)),
        ],
        r.1@.map_values(|n: usize| n as nat) == seq![
            stage_reports(reports@, now, days, PipelineStage::PreCommit),
            stage_passed(reports@, now, days, PipelineStage::PreCommit),
            stage_reports(reports@, now, days, PipelineStage::PrePush),
            stage_passed(reports@, now, days, PipelineStage::PrePush),
            stage_reports(reports@, now, days, PipelineStage::Publish),
            stage_passed(reports@, now, days, PipelineStage::Publish),
        ],
{
    let ghost s = reports@;
    let ghost preds = report_preds(now, days);
    let now_i: i128 = now as i128;
    let cutoff: i128 = now_i - (days as i128) * 86400;
    let week: i128 = now_i - 7 * 86400;
    let fortnight: i128 = now_i - 14 * 86400;
    let mut c: Vec<usize> = vec![0, 0, 0, 0, 0, 0, 0, 0, 0, 0, 0, 0, 0];
    let mut checks: usize = 0;
    let mut i: usize = 0;
    while i < reports.len()
        invariant
            i <= reports.len(),
            s == reports@,
            preds == report_preds(now, days),
            c.len() == 13,
            now_i == now,
            cutoff == now - days * day(),
            week == now - 7 * day(),
            fortnight == now - 14 * day(),
            checks_in_period(s, now, days) <= usize::MAX,
            forall|k: int| 0 <= k < 13 ==> #[trigger] c@[k] == count(s.take(i as int), preds[k]) && c@[k] <= i,
            checks == checks_in_period(s.take(i as int), now, days),
        decreases reports.len() - i,
    {
        let r = &reports[i];
        let t: i128 = r.timestamp as i128;
        let inp = t >= cutoff;
        let cur = t >= week;
        let prev = t < week && t >= fortnight;
        let flags: [bool; 13] = [
            inp,
            inp && r.passed,
            inp && !r.passed,
            inp && cur,
            inp && cur && r.passed,
            inp && prev,
            inp && prev && r.passed,
            inp && r.stage == PipelineStage::PreCommit,
            inp && r.stage == PipelineStage::PreCommit && r.passed,
            inp && r.stage == PipelineStage::PrePush,
            inp && r.stage == PipelineStage::PrePush && r.passed,
            inp && r.stage == PipelineStage::Publish,
            inp && r.stage == PipelineStage::Publish && r.passed,
        ];
        proof {
            assert(s.take(i + 1).drop_last() =~= s.take(i as int));
            assert(s.take(i + 1).last() == *r);
            assert(r.timestamp <= i64::MAX);
            assert forall|k: int| 0 <= k < 13 implies #[trigger] flags@[k] == (preds[k])(*r) by {
            }
            lemma_checks_prefix(s, now, days, i + 1);
        }
        let ghost old_c = c@;
        let mut k: usize = 0;
        while k < 13
            invariant
                k <= 13,
                c.len() == 13,
                i < reports.len(),
                s == reports@,
                preds == report_preds(now, days),
                forall|m: int| 0 <= m < 13 ==> flags@[m] == (preds[m])(s[i as int]),
                forall|m: int| 0 <= m < 13 ==> old_c[m] == count(s.take(i as int), preds[m]) && old_c[m] <= i,
                forall|m: int| 0 <= m < k ==> #[trigger] c@[m] == count(s.take(i + 1), preds[m]) && c@[m] <= i + 1,
                forall|m: int| k <= m < 13 ==> #[trigger] c@[m] == old_c[m],
            decreases 13 - k,
        {
            proof {
                lemma_count_step(s, preds[k as int], i as int);
            }
            if flags[k] {
                let v = c[k] + 1;
                c.set(k, v);
            }
            k = k + 1;
        }
        if inp {
            checks = checks + r.checks;
        }
        i = i + 1;
    }
    proof {
        assert(s.take(reports.len() as int) =~= s);
    }
    let totals = vec![c[0], c[1], c[2], checks, c[3], c[4], c[5], c[6]];
    let by_stage = vec![c[7], c[8], c[9], c[10], c[11], c[12]];
    proof {
        assert(totals@.map_values(|n: usize| n as nat) =~= seq![
            count(reports@, within(now, days)),
            count(reports@, within_with(now, days, true)),
            count(reports@, within_with(now, days, false)),
            checks_in_period(reports@, now, days),
            count(reports@, within_span(now, days, now - 7 * day(), i64::MAX + 1, false)),
            count(reports@, within_span(now, days, now - 7 * day(), i64::MAX + 1, true)),
            count(reports@, within_span(now, days, now - 14 * day(), now - 7 * day(), false)),
            count(reports@, within_span(now, days, now - 14 * day(), now - 7 * day(), true)),
        ]);
        assert(by_stage@.map_values(|n: usize| n as nat) =~= seq![
            stage_reports(reports@, now, days, PipelineStage::PreCommit),
            stage_passed(reports@, now, days, PipelineStage::PreCommit),
            stage_reports(reports@, now, days, PipelineStage::PrePush),
            stage_passed(reports@, now, days, PipelineStage::PrePush),
            stage_reports(reports@, now, days, PipelineStage::Publish),
            stage_passed(reports@, now, days, PipelineStage::Publish),
        ]);
    }
    (totals, by_stage)
}

/// The counts over the bypasses: in the last day, in the last week, and per stage.
fn count_bypasses(bypasses: &[BypassRecord], now: i64) -> (r: Vec<usize>)
    ensures
        r.len() == 5,
        forall|k: int| 0 <= k < 5 ==> #[trigger] r@[k] == count(bypasses@, bypass_preds(now)[k]),
{
    let ghost s = bypasses@;
    let ghost preds = bypass_preds(now);
    let now_i: i128 = now as i128;
    let day_ago: i128 = now_i - 86400;
    let week: i128 = now_i - 7 * 86400;
    let mut c: Vec<usize> = vec![0, 0, 0, 0, 0];
    let mut i: usize = 0;
    while i < bypasses.len()
        invariant
            i <= bypasses.len(),
            s == bypasses@,
            preds == bypass_preds(now),
            c.len() == 5,
            day_ago == now - day(),
            week == now - 7 * day(),
            forall|k: int| 0 <= k < 5 ==> #[trigger] c@[k] == count(s.take(i as int), preds[k]) && c@[k] <= i,
        decreases bypasses.len() - i,
    {
        let x = &bypasses[i];
        let t: i128 = x.timestamp as i128;
        let flags: [bool; 5] = [
            t >= day_ago,
            t >= week,
            x.stage == PipelineStage::PreCommit,
            x.stage == PipelineStage::PrePush,
            x.stage == PipelineStage::Publish,
        ];
        proof {
            assert forall|k: int| 0 <= k < 5 implies #[trigger] flags@[k] == (preds[k])(*x) by {
            }
        }
        let ghost old_c = c@;
        let mut k: usize = 0;
        while k < 5
            invariant
                k <= 5,
                c.len() == 5,
                i < bypasses.len(),
                s == bypasses@,
                preds == bypass_preds(now),
                forall|m: int| 0 <= m < 5 ==> flags@[m] == (preds[m])(s[i as int]),
                forall|m: int| 0 <= m < 5 ==> old_c[m] == count(s.take(i as int), preds[m]) && old_c[m] <= i,
                forall|m: int| 0 <= m < k ==> #[trigger] c@[m] == count(s.take(i + 1), preds[m]) && c@[m] <= i + 1,
                forall|m: int| k <= m < 5 ==> #[trigger] c@[m] == old_c[m],
            decreases 5 - k,
        {
            proof {
                lemma_count_step(s, preds[k as int], i as int);
            }
            if flags[k] {
                let v = c[k] + 1;
                c.set(k, v);
            }
            k = k + 1;
        }
        i = i + 1;
    }
    proof {
        assert(s.take(bypasses.len() as int) =~= s);
    }
    c
}

/// Count the safety statistics of the period of `days` days before `now` (in seconds): the
/// reports within the period, passed and failed, per stage and in all, and the checks they
/// ran; the bypasses, per stage, per user and in the last day and week; and the reports of the
/// last week and of the week before, with how many passed, from which the trend is computed.
pub fn count_stats(reports: &[ReportRecord], bypasses: &[BypassRecord], now: i64, days: u32) -> (r:
    StatCounts)
    requires
        checks_in_period(reports@, now, days) <= usize::MAX,
    ensures
        counts_view(r) == stat_counts(reports@, bypasses@, now, days),
        r.reports_by_stage@.map_values(
            |e: (PipelineStage, usize, usize)| (e.0, e.1 as nat, e.2 as nat),
        ) == report_stage_entries(reports@, now, days, 3),
        r.bypasses_by_stage@.map_values(|e: (PipelineStage, usize)| (e.0, e.1 as nat))
            == bypass_stage_entries(bypasses@, 3),
        r.bypasses_by_user@.map_values(|e: (String, usize)| e.0@) == users_in_order(
            users_of(bypasses@),
        ),
        forall|j: int|
            0 <= j < r.bypasses_by_user.len() ==> #[trigger] r.bypasses_by_user@[j].1 == count(
                users_of(bypasses@),
                is_user(r.bypasses_by_user@[j].0@),
            ),
{
    let (totals, stage_counts) = count_reports(reports, now, days);
    let b = count_bypasses(bypasses, now);
    let ghost tv = totals@.map_values(|n: usize| n as nat);
    assert(tv[0] == totals@[0] as nat && tv[1] == totals@[1] as nat && tv[2] == totals@[2] as nat
        && tv[3] == totals@[3] as nat && tv[4] == totals@[4] as nat && tv[5] == totals@[5] as nat
        && tv[6] == totals@[6] as nat && tv[7] == totals@[7] as nat);
    let all_stages = [PipelineStage::PreCommit, PipelineStage::PrePush, PipelineStage::Publish];
    let mut reports_by_stage: Vec<(PipelineStage, usize, usize)> = Vec::new();
    let mut bypasses_by_stage: Vec<(PipelineStage, usize)> = Vec::new();
    let mut k: usize = 0;
    while k < 3
        invariant
            k <= 3,
            all_stages@ == stages(),
            stage_counts.len() == 6,
            stage_counts@.map_values(|n: usize| n as nat) == seq![
                stage_reports(reports@, now, days, PipelineStage::PreCommit),
                stage_passed(reports@, now, days, PipelineStage::PreCommit),
                stage_reports(reports@, now, days, PipelineStage::PrePush),
                stage_passed(reports@, now, days, PipelineStage::PrePush),
                stage_reports(reports@, now, days, PipelineStage::Publish),
                stage_passed(reports@, now, days, PipelineStage::Publish),
            ],
            b.len() == 5,
            forall|m: int| 0 <= m < 5 ==> #[trigger] b@[m] == count(bypasses@, bypass_preds(now)[m]),
            reports_by_stage@.map_values(
                |e: (PipelineStage, usize, usize)| (e.0, e.1 as nat, e.2 as nat),
            ) == report_stage_entries(reports@, now, days, k as int),
            bypasses_by_stage@.map_values(|e: (PipelineStage, usize)| (e.0, e.1 as nat))
                == bypass_stage_entries(bypasses@, k as int),
        decreases 3 - k,
    {
        let st = all_stages[k];
        let total = stage_counts[2 * k];
        let passed = stage_counts[2 * k + 1];
        let bypassed = b[k + 2];
        proof {
            assert(stage_counts@.map_values(|n: usize| n as nat)[2 * k as int] == total as nat);
            assert(stage_counts@.map_values(|n: usize| n as nat)[2 * k + 1] == passed as nat);
            assert(st == stages()[k as int]);
            assert(total == stage_reports(reports@, now, days, st));
            assert(passed == stage_passed(reports@, now, days, st));
            assert(bypassed == stage_bypasses(bypasses@, st));
        }
        let ghost old_r = reports_by_stage@;
        let ghost old_b = bypasses_by_stage@;
        if total > 0 {
            reports_by_stage.push((st, total, passed));
            assert(reports_by_stage@.map_values(
                |e: (PipelineStage, usize, usize)| (e.0, e.1 as nat, e.2 as nat),
            ) =~= old_r.map_values(
                |e: (PipelineStage, usize, usize)| (e.0, e.1 as nat, e.2 as nat),
            ).push((st, total as nat, passed as nat)));
        }
        if bypassed > 0 {
            bypasses_by_stage.push((st, bypassed));
            assert(bypasses_by_stage@.map_values(|e: (PipelineStage, usize)| (e.0, e.1 as nat))
                =~= old_b.map_values(|e: (PipelineStage, usize)| (e.0, e.1 as nat)).push(
                (st, bypassed as nat),
            ));
        }
        k = k + 1;
    }
    let bypasses_by_user = tally_users(bypasses);
    let r = StatCounts {
        total_reports: totals[0],
        passed_reports: totals[1],
        failed_reports: totals[2],
        reports_by_stage,
        total_checks: totals[3],
        total_bypasses: bypasses.len(),
        bypasses_by_stage,
        bypasses_by_user,
        bypasses_last_24h: b[0],
        bypasses_last_7d: b[1],
        current_7d_total: totals[4],
        current_7d_passed: totals[5],
        previous_7d_total: totals[6],
        previous_7d_passed: totals[7],
    };
    proof {
        assert(b@[0] == count(bypasses@, bypass_preds(now)[0]));
        assert(b@[1] == count(bypasses@, bypass_preds(now)[1]));
        assert(counts_view(r) =~= stat_counts(reports@, bypasses@, now, days));
    }
    r
}

proof fn lemma_report_counts(s: Seq<ReportRecord>, now: i64, days: u32)
    ensures
        count(s, within_with(now, days, true)) + count(s, within_with(now, days, false)) == count(
            s,
            within(now, days),
        ),
        stage_reports(s, now, days, PipelineStage::PreCommit) + stage_reports(
            s,
            now,
            days,
            PipelineStage::PrePush,
        ) + stage_reports(s, now, days, PipelineStage::Publish) == count(s, within(now, days)),
        stage_passed(s, now, days, PipelineStage::PreCommit) <= stage_reports(
            s,
            now,
            days,
            PipelineStage::PreCommit,
        ),
        stage_passed(s, now, days, PipelineStage::PrePush) <= stage_reports(
            s,
            now,
            days,
            PipelineStage::PrePush,
        ),
        stage_passed(s, now, days, PipelineStage::Publish) <= stage_reports(
            s,
            now,
            days,
            PipelineStage::Publish,
        ),
    decreases s.len(),
{
    if s.len() > 0 {
        lemma_report_counts(s.drop_last(), now, days);
    }
}

proof fn lemma_bypass_counts(b: Seq<BypassRecord>, now: i64)
    ensures
        count(b, bypassed_since(now - day())) <= count(b, bypassed_since(now - 7 * day())),
        count(b, bypassed_since(now - 7 * day())) <= b.len(),
        stage_bypasses(b, PipelineStage::PreCommit) + stage_bypasses(b, PipelineStage::PrePush)
            + stage_bypasses(b, PipelineStage::Publish) == b.len(),
    decreases b.len(),
{
    if b.len() > 0 {
        lemma_bypass_counts(b.drop_last(), now);
    }
}

/// Law: the counts of the statistics agree with one another: the reports within the period
/// are the passed ones and the failed ones, and the reports of the three stages; no stage has
/// more passed reports than reports; the bypasses of the last day are among those of the last
/// week, which are among all of them; and the bypasses of the three stages are all of them.
pub proof fn law_stat_counts_agree(s: Seq<ReportRecord>, b: Seq<BypassRecord>, now: i64, days: u32)
    ensures
        stat_counts(s, b, now, days)[1] + stat_counts(s, b, now, days)[2] == stat_counts(
            s,
            b,
            now,
            days,
        )[0],
        stage_reports(s, now, days, PipelineStage::PreCommit) + stage_reports(
            s,
            now,
            days,
            PipelineStage::PrePush,
        ) + stage_reports(s, now, days, PipelineStage::Publish) == stat_counts(s, b, now, days)[0],
        forall|st: PipelineStage| #[trigger]
            stage_passed(s, now, days, st) <= stage_reports(s, now, days, st),
        stat_counts(s, b, now, days)[5] <= stat_counts(s, b, now, days)[6] <= stat_counts(
            s,
            b,
            now,
            days,
        )[4] == b.len(),
        stage_bypasses(b, PipelineStage::PreCommit) + stage_bypasses(b, PipelineStage::PrePush)
            + stage_bypasses(b, PipelineStage::Publish) == b.len(),
{
    lemma_report_counts(s, now, days);
    lemma_bypass_counts(b, now);
    assert forall|st: PipelineStage| #[trigger]
        stage_passed(s, now, days, st) <= stage_reports(s, now, days, st) by {
        match st {
            PipelineStage::PreCommit => {},
            PipelineStage::PrePush => {},
            PipelineStage::Publish => {},
        }
    }
}

/// The entries of a per-user tally, as text and numbers.
pub open spec fn entries_view(s: Seq<(String, usize)>) -> Seq<(Seq<char>, nat)> {
    s.map_values(|e: (String, usize)| (e.0@, e.1 as nat))
}

/// The number of leading entries of `t` whose count is not below `n`.
pub open spec fn not_fewer(t: Seq<(Seq<char>, nat)>, n: nat) -> int
    decreases t.len(),
{
    if t.len() == 0 {
        0
    } else if t[0].1 < n {
        0
    } else {
        1 + not_fewer(t.drop_first(), n)
    }
}

/// The entries ordered by count, from the most to the fewest; entries with the same count
/// keep their order (the stable sort of `sort_by(|a, b| b.1.cmp(a.1))`).
pub open spec fn by_count_desc(s: Seq<(Seq<char>, nat)>) -> Seq<(Seq<char>, nat)>
    decreases s.len(),
{
    if s.len() == 0 {
        s
    } else {
        let t = by_count_desc(s.drop_last());
        t.insert(not_fewer(t, s.last().1), s.last())
    }
}

/// The first `n` entries by count, from the most to the fewest.
pub open spec fn top_entries(s: Seq<(Seq<char>, nat)>, n: usize) -> Seq<(Seq<char>, nat)> {
    let t = by_count_desc(s);
    if n < t.len() {
        t.take(n as int)
    } else {
        t
    }
}

proof fn lemma_not_fewer(t: Seq<(Seq<char>, nat)>, n: nat)
    ensures
        0 <= not_fewer(t, n) <= t.len(),
    decreases t.len(),
{
    if t.len() > 0 && t[0].1 >= n {
        lemma_not_fewer(t.drop_first(), n);
    }
}

/// The index of the first entry of `t` with a count below `n`, or `t.len()`.
fn find_not_fewer(t: &Vec<(String, usize)>, n: usize) -> (r: usize)
    ensures
        r == not_fewer(entries_view(t@), n as nat),
{
    let ghost tv = entries_view(t@);
    let mut i: usize = 0;
    assert(tv.skip(0) =~= tv);
    while i < t.len()
        invariant
            i <= t.len(),
            tv == entries_view(t@),
            not_fewer(tv, n as nat) == i + not_fewer(tv.skip(i as int), n as nat),
        decreases t.len() - i,
    {
        assert(tv.skip(i as int)[0] == tv[i as int]);
        if t[i].1 < n {
            return i;
        }
        assert(tv.skip(i as int).drop_first() =~= tv.skip(i + 1));
        i = i + 1;
    }
    i
}

/// The `n` users with the most bypasses, from the most to the fewest (users with as many
/// keep their order), as the statistics list them.
pub fn top_bypass_users(by_user: &[(String, usize)], n: usize) -> (r: Vec<(String, usize)>)
    ensures
        entries_view(r@) == top_entries(entries_view(by_user@), n),
{
    let ghost sv = entries_view(by_user@);
    let mut sorted: Vec<(String, usize)> = Vec::new();
    let mut i: usize = 0;
    while i < by_user.len()
        invariant
            i <= by_user.len(),
            sv == entries_view(by_user@),
            entries_view(sorted@) == by_count_desc(sv.take(i as int)),
        decreases by_user.len() - i,
    {
        let e = &by_user[i];
        let k = find_not_fewer(&sorted, e.1);
        proof {
            lemma_not_fewer(entries_view(sorted@), e.1 as nat);
            assert(sv.take(i + 1).drop_last() =~= sv.take(i as int));
            assert(sv.take(i + 1).last() == (e.0@, e.1 as nat));
        }
        let ghost before = sorted@;
        sorted.insert(k, (e.0.clone(), e.1));
        assert(entries_view(sorted@) =~= entries_view(before).insert(k as int, (e.0@, e.1 as nat)));
        i = i + 1;
    }
    assert(sv.take(by_user.len() as int) =~= sv);
    if n < sorted.len() {
        sorted.truncate(n);
        assert(entries_view(sorted@) =~= by_count_desc(sv).take(n as int));
    }
    sorted
}

} // verus!
