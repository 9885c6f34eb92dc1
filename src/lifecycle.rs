//! The submission lifecycle of stored rows: `Draft -> Submitting ->
//! Complete | Failed`, `Failed -> Draft` on request, and crash recovery of
//! rows left `Submitting`. Timestamps are seconds since the Unix epoch.
use vstd::prelude::*;
use crate::clock::{clock_minutes, clock_text, format_minutes_to_time, parse_time_to_minutes};
use crate::drafts::TimesheetRow as DraftRow;
use crate::orchestrator::{AutomationResult, TimesheetRow};
use crate::drafts::{storable_times, times_storable};
use crate::text::owned;

verus! {

/// Lifecycle status of a stored row.
#[derive(Debug, Clone, Copy, PartialEq, Eq, Structural)]
pub enum RowStatus {
    Draft,
    Submitting,
    Complete,
    Failed,
}

/// A `Submitting` row older than this many seconds is taken to be left
/// behind by an interrupted run.
pub const STALE_SUBMISSION_SECS: i64 = 1800;

/// A timesheet row as the store holds it; times are minutes since midnight.
#[derive(Debug)]
pub struct StoredRow {
    pub id: i64,
    pub date: String,
    pub time_in: i64,
    pub time_out: i64,
    pub project: String,
    pub tool: Option<String>,
    pub charge_code: Option<String>,
    pub task_description: String,
    pub status: RowStatus,
    pub submission_started_at: Option<i64>,
    pub submitted_at: Option<i64>,
}

pub struct RowView {
    pub id: i64,
    pub date: Seq<char>,
    pub time_in: i64,
    pub time_out: i64,
    pub project: Seq<char>,
    pub tool: Option<Seq<char>>,
    pub charge_code: Option<Seq<char>>,
    pub task_description: Seq<char>,
    pub status: RowStatus,
    pub started: Option<i64>,
    pub submitted: Option<i64>,
}

pub open spec fn opt_string_view(o: Option<String>) -> Option<Seq<char>> {
    match o {
        Some(s) => Some(s@),
        None => None,
    }
}

impl View for StoredRow {
    type V = RowView;

    open spec fn view(&self) -> RowView {
        RowView {
            id: self.id,
            date: self.date@,
            time_in: self.time_in,
            time_out: self.time_out,
            project: self.project@,
            tool: opt_string_view(self.tool),
            charge_code: opt_string_view(self.charge_code),
            task_description: self.task_description@,
            status: self.status,
            started: self.submission_started_at,
            submitted: self.submitted_at,
        }
    }
}

fn copy_opt(o: &Option<String>) -> (r: Option<String>)
    ensures
        opt_string_view(r) == opt_string_view(*o),
{
    match o {
        Some(s) => Some(owned(s.as_str())),
        None => None,
    }
}

/// `v` with a new status and stamps.
pub open spec fn restamped(v: RowView, status: RowStatus, started: Option<i64>, submitted: Option<i64>) -> RowView {
    RowView { status, started, submitted, ..v }
}

impl StoredRow {
    /// A copy with the given status and stamps.
    pub fn restamp(&self, status: RowStatus, started: Option<i64>, submitted: Option<i64>) -> (r: StoredRow)
        ensures
            r@ == restamped(self@, status, started, submitted),
    {
        StoredRow {
            id: self.id,
            date: owned(self.date.as_str()),
            time_in: self.time_in,
            time_out: self.time_out,
            project: owned(self.project.as_str()),
            tool: copy_opt(&self.tool),
            charge_code: copy_opt(&self.charge_code),
            task_description: owned(self.task_description.as_str()),
            status,
            submission_started_at: started,
            submitted_at: submitted,
        }
    }

    /// The row as the editor shows it, with its id and `HH:MM` times.
    pub fn to_draft_row(&self) -> (r: DraftRow)
        ensures
            r.id == Some(self.id),
            r.date@ == self.date@,
            r.time_in@ == clock_text(self.time_in as int),
            r.time_out@ == clock_text(self.time_out as int),
            r.project@ == self.project@,
            opt_string_view(r.tool) == opt_string_view(self.tool),
            opt_string_view(r.charge_code) == opt_string_view(self.charge_code),
            r.task_description@ == self.task_description@,
    {
        DraftRow {
            id: Some(self.id),
            date: owned(self.date.as_str()),
            time_in: format_minutes_to_time(self.time_in),
            time_out: format_minutes_to_time(self.time_out),
            project: owned(self.project.as_str()),
            tool: copy_opt(&self.tool),
            charge_code: copy_opt(&self.charge_code),
            task_description: owned(self.task_description.as_str()),
        }
    }

    /// The row as the orchestrator takes it, with `HH:MM` times.
    pub fn to_timesheet_row(&self) -> (r: TimesheetRow)
        ensures
            r.date@ == self.date@,
            r.time_in@ == clock_text(self.time_in as int),
            r.time_out@ == clock_text(self.time_out as int),
            r.project@ == self.project@,
            opt_string_view(r.tool) == opt_string_view(self.tool),
            opt_string_view(r.charge_code) == opt_string_view(self.charge_code),
            r.task_description@ == self.task_description@,
    {
        TimesheetRow {
            date: owned(self.date.as_str()),
            time_in: format_minutes_to_time(self.time_in),
            time_out: format_minutes_to_time(self.time_out),
            project: owned(self.project.as_str()),
            tool: copy_opt(&self.tool),
            charge_code: copy_opt(&self.charge_code),
            task_description: owned(self.task_description.as_str()),
        }
    }
}

fn contains_index(v: &Vec<usize>, x: usize) -> (r: bool)
    ensures
        r == v@.contains(x),
{
    let mut q: usize = 0;
    while q < v.len()
        invariant
            q <= v@.len(),
            forall|p: int| 0 <= p < q ==> v@[p] != x,
        decreases v@.len() - q,
    {
        if v[q] == x {
            assert(v@[q as int] == x);
            return true;
        }
        q = q + 1;
    }
    false
}

/// Whether saving a draft over a stored row is allowed: a new row, a draft
/// or a failed row is (re)written as a draft; a row being submitted or
/// already complete is left alone, since nothing leaves `Complete`.
pub fn save_target_status(existing: Option<RowStatus>) -> (r: Result<RowStatus, String>)
    ensures
        match existing {
            None | Some(RowStatus::Draft) | Some(RowStatus::Failed) => r == Ok::<RowStatus, String>(RowStatus::Draft),
            Some(RowStatus::Submitting) => r matches Err(e) && e@ == "Entry is being submitted"@,
            Some(RowStatus::Complete) => r matches Err(e) && e@ == "Submitted entries cannot be changed"@,
        },
{
    match existing {
        Some(RowStatus::Submitting) => Err(owned("Entry is being submitted")),
        Some(RowStatus::Complete) => Err(owned("Submitted entries cannot be changed")),
        _ => Ok(RowStatus::Draft),
    }
}

pub open spec fn views(rows: Seq<StoredRow>) -> Seq<RowView> {
    rows.map_values(|r: StoredRow| r@)
}

/// Number of rows with status `st`.
pub open spec fn count_status(s: Seq<RowView>, st: RowStatus) -> nat
    decreases s.len(),
{
    if s.len() == 0 {
        0
    } else {
        count_status(s.drop_last(), st) + if s.last().status == st { 1nat } else { 0nat }
    }
}

/// The batch position of row `j`: how many `Submitting` rows precede it.
pub open spec fn batch_rank(s: Seq<RowView>, j: int) -> nat {
    count_status(s.subrange(0, j), RowStatus::Submitting)
}

/// A draft whose times are storable; only such a row may be claimed.
pub open spec fn claimable(v: RowView) -> bool {
    v.status == RowStatus::Draft && times_storable(v.time_in as int, v.time_out as int)
}

/// Number of claimable rows.
pub open spec fn count_claimable(s: Seq<RowView>) -> nat
    decreases s.len(),
{
    if s.len() == 0 {
        0
    } else {
        count_claimable(s.drop_last()) + if claimable(s.last()) { 1nat } else { 0nat }
    }
}

/// Claiming: a draft with storable times becomes `Submitting`, stamped
/// `now`; a draft whose times break the rule stays a draft.
pub open spec fn claim_row(v: RowView, now: i64) -> RowView {
    if claimable(v) {
        restamped(v, RowStatus::Submitting, Some(now), v.submitted)
    } else {
        v
    }
}

/// Recovery: a `Submitting` row stamped before `now - STALE_SUBMISSION_SECS`
/// fails and loses its stamp.
pub open spec fn is_stale(v: RowView, now: i64) -> bool {
    v.status == RowStatus::Submitting && match v.started {
        Some(t) => (t as int) < now as int - STALE_SUBMISSION_SECS as int,
        None => false,
    }
}

/// Number of stale rows.
pub open spec fn count_stale(s: Seq<RowView>, now: i64) -> nat
    decreases s.len(),
{
    if s.len() == 0 {
        0
    } else {
        count_stale(s.drop_last(), now) + if is_stale(s.last(), now) { 1nat } else { 0nat }
    }
}

pub open spec fn recover_row(v: RowView, now: i64) -> RowView {
    if is_stale(v, now) {
        restamped(v, RowStatus::Failed, None, v.submitted)
    } else {
        v
    }
}

/// Reset: a failed row returns to draft with every lifecycle stamp cleared.
pub open spec fn reset_row(v: RowView) -> RowView {
    if v.status == RowStatus::Failed {
        restamped(v, RowStatus::Draft, None, None)
    } else {
        v
    }
}

/// Reconciliation of the row at batch position `k`: `Complete` with a
/// submission stamp when `k` was submitted, `Failed` otherwise; either way the
/// start stamp is cleared. Rows outside the batch keep their state.
pub open spec fn finalize_row(v: RowView, k: nat, submitted: Seq<usize>, now: i64) -> RowView {
    if v.status == RowStatus::Submitting {
        if submitted.contains(k as usize) && k <= usize::MAX {
            restamped(v, RowStatus::Complete, None, Some(now))
        } else {
            restamped(v, RowStatus::Failed, None, v.submitted)
        }
    } else {
        v
    }
}

/// Ids of the rows of `s[..n]` that reconciliation completes, in order.
pub open spec fn completed_ids(s: Seq<RowView>, submitted: Seq<usize>, n: int) -> Seq<i64>
    decreases n,
{
    if n <= 0 {
        Seq::empty()
    } else if s[n - 1].status == RowStatus::Submitting && submitted.contains(batch_rank(s, n - 1) as usize) {
        completed_ids(s, submitted, n - 1).push(s[n - 1].id)
    } else {
        completed_ids(s, submitted, n - 1)
    }
}

pub open spec fn finalize_rows(s: Seq<RowView>, submitted: Seq<usize>, now: i64) -> Seq<RowView> {
    Seq::new(s.len(), |j: int| finalize_row(s[j], batch_rank(s, j), submitted, now))
}

/// Whole-batch failure: every `Submitting` row fails.
pub open spec fn fail_row(v: RowView) -> RowView {
    if v.status == RowStatus::Submitting {
        restamped(v, RowStatus::Failed, None, v.submitted)
    } else {
        v
    }
}

proof fn lemma_count_step(s: Seq<RowView>, i: int, st: RowStatus)
    requires
        0 <= i < s.len(),
    ensures
        count_status(s.subrange(0, i + 1), st) == count_status(s.subrange(0, i), st)
            + if s[i].status == st { 1nat } else { 0nat },
{
    assert(s.subrange(0, i + 1).drop_last() =~= s.subrange(0, i));
}

proof fn lemma_count_none(s: Seq<RowView>, st: RowStatus)
    requires
        forall|j: int| 0 <= j < s.len() ==> (#[trigger] s[j]).status != st,
    ensures
        count_status(s, st) == 0,
    decreases s.len(),
{
    if s.len() > 0 {
        lemma_count_none(s.drop_last(), st);
    }
}

/// Claiming never marks a row whose times break the rule: every row that a
/// claim turns `Submitting` has quarter-hour times within the day with the
/// end after the start.
pub proof fn lemma_claim_marks_only_storable(s: Seq<RowView>, now: i64)
    ensures
        forall|i: int| 0 <= i < s.len() && (#[trigger] claim_row(s[i], now)).status == RowStatus::Submitting
            && s[i].status != RowStatus::Submitting ==> times_storable(s[i].time_in as int, s[i].time_out as int),
{
}

proof fn lemma_count_zero(s: Seq<RowView>, st: RowStatus)
    requires
        count_status(s, st) == 0,
    ensures
        forall|j: int| 0 <= j < s.len() ==> (#[trigger] s[j]).status != st,
    decreases s.len(),
{
    if s.len() > 0 {
        lemma_count_zero(s.drop_last(), st);
        assert forall|j: int| 0 <= j < s.len() implies (#[trigger] s[j]).status != st by {
            if j < s.len() - 1 {
                assert(s[j] == s.drop_last()[j]);
            }
        }
    }
}

/// With no run in flight, every row that a claim leaves `Submitting` has
/// storable times.
pub proof fn lemma_claimed_rows_storable(s: Seq<RowView>, now: i64)
    requires
        count_status(s, RowStatus::Submitting) == 0,
    ensures
        forall|i: int| 0 <= i < s.len() && (#[trigger] claim_row(s[i], now)).status == RowStatus::Submitting
            ==> times_storable(s[i].time_in as int, s[i].time_out as int),
{
    lemma_count_zero(s, RowStatus::Submitting);
    lemma_claim_marks_only_storable(s, now);
}

/// After a reset no row is `Failed`, and a second reset changes nothing:
/// resetting again affects zero rows.
pub proof fn lemma_reset_idempotent(s: Seq<RowView>)
    ensures
        count_status(s.map_values(|v: RowView| reset_row(v)), RowStatus::Failed) == 0,
        s.map_values(|v: RowView| reset_row(v)).map_values(|v: RowView| reset_row(v))
            == s.map_values(|v: RowView| reset_row(v)),
{
    let t = s.map_values(|v: RowView| reset_row(v));
    lemma_count_none(t, RowStatus::Failed);
    assert(t.map_values(|v: RowView| reset_row(v)) =~= t);
}

/// After reconciliation no row is left `Submitting`, whatever the run
/// reported.
pub proof fn lemma_reconcile_exhaustive(s: Seq<RowView>, submitted: Seq<usize>, now: i64)
    ensures
        count_status(finalize_rows(s, submitted, now), RowStatus::Submitting) == 0,
{
    lemma_count_none(finalize_rows(s, submitted, now), RowStatus::Submitting);
}

/// The durable rows, in (date, time in) order.
pub struct RowStore {
    pub rows: Vec<StoredRow>,
}

impl RowStore {
    pub open spec fn view_rows(&self) -> Seq<RowView> {
        views(self.rows@)
    }

    /// Claims in one step every draft whose times are storable, stamping
    /// `now`; drafts with invalid times stay drafts. The result is how many
    /// rows were claimed.
    pub fn claim_drafts(&mut self, now: i64) -> (r: usize)
        ensures
            final(self).view_rows() == old(self).view_rows().map_values(|v: RowView| claim_row(v, now)),
            r == count_claimable(old(self).view_rows()),
    {
        let ghost s = self.view_rows();
        let mut out: Vec<StoredRow> = Vec::new();
        let mut n: usize = 0;
        let mut i: usize = 0;
        while i < self.rows.len()
            invariant
                i <= self.rows@.len(),
                s == self.view_rows(),
                views(out@) == s.subrange(0, i as int).map_values(|v: RowView| claim_row(v, now)),
                n == count_claimable(s.subrange(0, i as int)),
                n <= i,
            decreases self.rows@.len() - i,
        {
            let row = &self.rows[i];
            assert(s[i as int] == row@);
            assert(s.subrange(0, i + 1).drop_last() =~= s.subrange(0, i as int));
            let ghost prev = views(out@);
            if row.status == RowStatus::Draft && storable_times(row.time_in, row.time_out) {
                out.push(row.restamp(RowStatus::Submitting, Some(now), row.submitted_at));
                n = n + 1;
            } else {
                out.push(row.restamp(row.status, row.submission_started_at, row.submitted_at));
            }
            assert(views(out@) =~= prev.push(claim_row(s[i as int], now)));
            assert(s.subrange(0, i + 1).map_values(|v: RowView| claim_row(v, now))
                =~= s.subrange(0, i as int).map_values(|v: RowView| claim_row(v, now)).push(claim_row(s[i as int], now)));
            i = i + 1;
        }
        assert(s.subrange(0, i as int) =~= s);
        self.rows = out;
        n
    }

    /// Positions of the `Submitting` rows, in store order: the batch handed
    /// to the orchestrator, whose row `k` is the `k`-th of them.
    pub fn submitting_positions(&self) -> (r: Vec<usize>)
        ensures
            r@.len() == count_status(self.view_rows(), RowStatus::Submitting),
            forall|k: int| 0 <= k < r@.len() ==> (#[trigger] r@[k]) < self.rows@.len()
                && self.view_rows()[r@[k] as int].status == RowStatus::Submitting
                && batch_rank(self.view_rows(), r@[k] as int) == k,
    {
        let ghost s = self.view_rows();
        let mut out: Vec<usize> = Vec::new();
        let mut i: usize = 0;
        while i < self.rows.len()
            invariant
                i <= self.rows@.len(),
                s == self.view_rows(),
                out@.len() == count_status(s.subrange(0, i as int), RowStatus::Submitting),
                forall|k: int| 0 <= k < out@.len() ==> (#[trigger] out@[k]) < i
                    && s[out@[k] as int].status == RowStatus::Submitting
                    && batch_rank(s, out@[k] as int) == k,
            decreases self.rows@.len() - i,
        {
            assert(s[i as int] == self.rows@[i as int]@);
            proof { lemma_count_step(s, i as int, RowStatus::Submitting); }
            if self.rows[i].status == RowStatus::Submitting {
                out.push(i);
            }
            i = i + 1;
        }
        assert(s.subrange(0, i as int) =~= s);
        out
    }

    /// The rows at `positions`, as the orchestrator takes them.
    pub fn batch_rows(&self, positions: &Vec<usize>) -> (r: Vec<TimesheetRow>)
        requires
            forall|k: int| 0 <= k < positions@.len() ==> (#[trigger] positions@[k]) < self.rows@.len(),
        ensures
            r@.len() == positions@.len(),
            forall|k: int| 0 <= k < r@.len() ==> (#[trigger] r@[k]).date@ == self.rows@[positions@[k] as int].date@
                && r@[k].time_in@ == clock_text(self.rows@[positions@[k] as int].time_in as int)
                && r@[k].time_out@ == clock_text(self.rows@[positions@[k] as int].time_out as int)
                && r@[k].project@ == self.rows@[positions@[k] as int].project@
                && r@[k].task_description@ == self.rows@[positions@[k] as int].task_description@
                && opt_string_view(r@[k].tool) == opt_string_view(self.rows@[positions@[k] as int].tool)
                && opt_string_view(r@[k].charge_code) == opt_string_view(self.rows@[positions@[k] as int].charge_code),
    {
        let mut out: Vec<TimesheetRow> = Vec::new();
        let mut k: usize = 0;
        while k < positions.len()
            invariant
                k <= positions@.len(),
                forall|j: int| 0 <= j < positions@.len() ==> (#[trigger] positions@[j]) < self.rows@.len(),
                out@.len() == k,
                forall|j: int| 0 <= j < k ==> (#[trigger] out@[j]).date@ == self.rows@[positions@[j] as int].date@
                    && out@[j].time_in@ == clock_text(self.rows@[positions@[j] as int].time_in as int)
                    && out@[j].time_out@ == clock_text(self.rows@[positions@[j] as int].time_out as int)
                    && out@[j].project@ == self.rows@[positions@[j] as int].project@
                    && out@[j].task_description@ == self.rows@[positions@[j] as int].task_description@
                    && opt_string_view(out@[j].tool) == opt_string_view(self.rows@[positions@[j] as int].tool)
                    && opt_string_view(out@[j].charge_code) == opt_string_view(self.rows@[positions@[j] as int].charge_code),
            decreases positions@.len() - k,
        {
            out.push(self.rows[positions[k]].to_timesheet_row());
            k = k + 1;
        }
        out
    }

    /// Reconciles a finished run: the `k`-th `Submitting` row becomes
    /// `Complete` when `k` is among `submitted`, `Failed` otherwise. No row is
    /// left `Submitting`. Returns the ids of the completed rows, in order.
    pub fn finalize(&mut self, submitted: &Vec<usize>, now: i64) -> (r: Vec<i64>)
        ensures
            final(self).view_rows() == finalize_rows(old(self).view_rows(), submitted@, now),
            count_status(final(self).view_rows(), RowStatus::Submitting) == 0,
            r@ == completed_ids(old(self).view_rows(), submitted@, old(self).rows@.len() as int),
    {
        let ghost s = self.view_rows();
        let mut out: Vec<StoredRow> = Vec::new();
        let mut ids: Vec<i64> = Vec::new();
        let mut rank: usize = 0;
        let mut i: usize = 0;
        while i < self.rows.len()
            invariant
                i <= self.rows@.len(),
                s == self.view_rows(),
                rank == batch_rank(s, i as int),
                rank <= i,
                views(out@) == finalize_rows(s, submitted@, now).subrange(0, i as int),
                ids@ == completed_ids(s, submitted@, i as int),
            decreases self.rows@.len() - i,
        {
            let row = &self.rows[i];
            assert(s[i as int] == row@);
            proof { lemma_count_step(s, i as int, RowStatus::Submitting); }
            let ghost prev = views(out@);
            if row.status == RowStatus::Submitting {
                let hit = contains_index(submitted, rank);
                if hit {
                    out.push(row.restamp(RowStatus::Complete, None, Some(now)));
                    ids.push(row.id);
                } else {
                    out.push(row.restamp(RowStatus::Failed, None, row.submitted_at));
                }
                rank = rank + 1;
            } else {
                out.push(row.restamp(row.status, row.submission_started_at, row.submitted_at));
            }
            let ghost fr = finalize_rows(s, submitted@, now);
            assert(fr[i as int] == finalize_row(s[i as int], batch_rank(s, i as int), submitted@, now));
            assert(views(out@) =~= prev.push(fr[i as int]));
            assert(fr.subrange(0, i + 1) =~= fr.subrange(0, i as int).push(fr[i as int]));
            i = i + 1;
        }
        assert(finalize_rows(s, submitted@, now).subrange(0, i as int) =~= finalize_rows(s, submitted@, now));
        self.rows = out;
        proof { lemma_reconcile_exhaustive(s, submitted@, now); }
        ids
    }

    /// The whole run failed: every `Submitting` row fails.
    pub fn fail_all_submitting(&mut self)
        ensures
            final(self).view_rows() == old(self).view_rows().map_values(|v: RowView| fail_row(v)),
            count_status(final(self).view_rows(), RowStatus::Submitting) == 0,
    {
        let ghost s = self.view_rows();
        let mut out: Vec<StoredRow> = Vec::new();
        let mut i: usize = 0;
        while i < self.rows.len()
            invariant
                i <= self.rows@.len(),
                s == self.view_rows(),
                views(out@) == s.subrange(0, i as int).map_values(|v: RowView| fail_row(v)),
            decreases self.rows@.len() - i,
        {
            let row = &self.rows[i];
            assert(s[i as int] == row@);
            let ghost prev = views(out@);
            if row.status == RowStatus::Submitting {
                out.push(row.restamp(RowStatus::Failed, None, row.submitted_at));
            } else {
                out.push(row.restamp(row.status, row.submission_started_at, row.submitted_at));
            }
            assert(views(out@) =~= prev.push(fail_row(s[i as int])));
            assert(s.subrange(0, i + 1).map_values(|v: RowView| fail_row(v))
                =~= s.subrange(0, i as int).map_values(|v: RowView| fail_row(v)).push(fail_row(s[i as int])));
            i = i + 1;
        }
        assert(s.subrange(0, i as int) =~= s);
        self.rows = out;
        proof { lemma_count_none(self.view_rows(), RowStatus::Submitting); }
    }

    /// Crash recovery, run once at startup: every `Submitting` row stamped
    /// more than `STALE_SUBMISSION_SECS` before `now` fails and loses its
    /// stamp. Returns how many rows were recovered.
    pub fn recover_stuck_submissions(&mut self, now: i64) -> (r: usize)
        ensures
            final(self).view_rows() == old(self).view_rows().map_values(|v: RowView| recover_row(v, now)),
            r == count_stale(old(self).view_rows(), now),
    {
        let ghost s = self.view_rows();
        let mut out: Vec<StoredRow> = Vec::new();
        let mut n: usize = 0;
        let mut i: usize = 0;
        while i < self.rows.len()
            invariant
                i <= self.rows@.len(),
                s == self.view_rows(),
                views(out@) == s.subrange(0, i as int).map_values(|v: RowView| recover_row(v, now)),
                n == count_stale(s.subrange(0, i as int), now),
                n <= i,
            decreases self.rows@.len() - i,
        {
            let row = &self.rows[i];
            assert(s[i as int] == row@);
            let ghost prev = views(out@);
            assert(s.subrange(0, i + 1).drop_last() =~= s.subrange(0, i as int));
            let stale = row.status == RowStatus::Submitting && match row.submission_started_at {
                Some(t) => (t as i128) < (now as i128) - (STALE_SUBMISSION_SECS as i128),
                None => false,
            };
            if stale {
                out.push(row.restamp(RowStatus::Failed, None, row.submitted_at));
                n = n + 1;
            } else {
                out.push(row.restamp(row.status, row.submission_started_at, row.submitted_at));
            }
            assert(views(out@) =~= prev.push(recover_row(s[i as int], now)));
            assert(s.subrange(0, i + 1).map_values(|v: RowView| recover_row(v, now))
                =~= s.subrange(0, i as int).map_values(|v: RowView| recover_row(v, now)).push(recover_row(s[i as int], now)));
            i = i + 1;
        }
        assert(s.subrange(0, i as int) =~= s);
        self.rows = out;
        n
    }

    /// Returns every failed row to draft, clearing its stamps. Returns how
    /// many rows were reset.
    pub fn reset_failed_to_draft(&mut self) -> (r: usize)
        ensures
            final(self).view_rows() == old(self).view_rows().map_values(|v: RowView| reset_row(v)),
            r == count_status(old(self).view_rows(), RowStatus::Failed),
            count_status(final(self).view_rows(), RowStatus::Failed) == 0,
    {
        let ghost s = self.view_rows();
        let mut out: Vec<StoredRow> = Vec::new();
        let mut n: usize = 0;
        let mut i: usize = 0;
        while i < self.rows.len()
            invariant
                i <= self.rows@.len(),
                s == self.view_rows(),
                views(out@) == s.subrange(0, i as int).map_values(|v: RowView| reset_row(v)),
                n == count_status(s.subrange(0, i as int), RowStatus::Failed),
                n <= i,
            decreases self.rows@.len() - i,
        {
            let row = &self.rows[i];
            assert(s[i as int] == row@);
            proof { lemma_count_step(s, i as int, RowStatus::Failed); }
            let ghost prev = views(out@);
            if row.status == RowStatus::Failed {
                out.push(row.restamp(RowStatus::Draft, None, None));
                n = n + 1;
            } else {
                out.push(row.restamp(row.status, row.submission_started_at, row.submitted_at));
            }
            assert(views(out@) =~= prev.push(reset_row(s[i as int])));
            assert(s.subrange(0, i + 1).map_values(|v: RowView| reset_row(v))
                =~= s.subrange(0, i as int).map_values(|v: RowView| reset_row(v)).push(reset_row(s[i as int])));
            i = i + 1;
        }
        assert(s.subrange(0, i as int) =~= s);
        self.rows = out;
        proof { lemma_reset_idempotent(s); }
        n
    }

    /// Whether some row is mid-submission.
    pub fn is_submission_in_progress(&self) -> (r: bool)
        ensures
            r == (count_status(self.view_rows(), RowStatus::Submitting) > 0),
    {
        let ghost s = self.view_rows();
        let mut i: usize = 0;
        while i < self.rows.len()
            invariant
                i <= self.rows@.len(),
                s == self.view_rows(),
                count_status(s.subrange(0, i as int), RowStatus::Submitting) == 0,
            decreases self.rows@.len() - i,
        {
            assert(s[i as int] == self.rows@[i as int]@);
            proof { lemma_count_step(s, i as int, RowStatus::Submitting); }
            if self.rows[i].status == RowStatus::Submitting {
                proof { lemma_count_prefix_le(s, i + 1, s.len() as int, RowStatus::Submitting); }
                assert(s.subrange(0, s.len() as int) =~= s);
                return true;
            }
            i = i + 1;
        }
        assert(s.subrange(0, i as int) =~= s);
        false
    }
}

proof fn lemma_count_prefix_le(s: Seq<RowView>, a: int, b: int, st: RowStatus)
    requires
        0 <= a <= b <= s.len(),
    ensures
        count_status(s.subrange(0, a), st) <= count_status(s.subrange(0, b), st),
    decreases b - a,
{
    if a < b {
        lemma_count_prefix_le(s, a, b - 1, st);
        lemma_count_step(s, b - 1, st);
    }
}

} // verus!
