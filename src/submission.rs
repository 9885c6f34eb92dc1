//! The submit command around the lifecycle: claiming drafts, reconciling a
//! run's outcome, and exporting completed rows as CSV.
use vstd::prelude::*;
use crate::clock::{clock_text, format_minutes_to_time};
use crate::lifecycle::{
    batch_rank, claim_row, completed_ids, count_claimable, lemma_claimed_rows_storable, count_status, fail_row, finalize_rows, RowStatus, RowStore, RowView,
};
use crate::orchestrator::AutomationResult;
use crate::drafts::times_storable;
use crate::text::{dec_digits, owned, push_decimal};

verus! {

/// What the submit command reports.
#[derive(Debug)]
pub struct SubmitResponse {
    pub error: Option<String>,
    pub submit_result: Option<SubmissionResult>,
}

/// Outcome of a submission that ran.
#[derive(Debug)]
pub struct SubmissionResult {
    pub ok: bool,
    pub submitted_ids: Vec<i64>,
    pub removed_ids: Vec<i64>,
    pub total_processed: usize,
    pub success_count: usize,
    pub removed_count: usize,
    pub error: Option<String>,
}

/// What the CSV export reports.
#[derive(Debug)]
pub struct ExportResponse {
    pub success: bool,
    pub csv_data: Option<String>,
    pub entry_count: Option<usize>,
    pub filename: Option<String>,
    pub error: Option<String>,
}

/// A submission request carrying its rows and credentials.
#[derive(Debug)]
pub struct SubmitRequest {
    pub entries: Vec<TimesheetEntry>,
    pub email: String,
    pub password: String,
    pub base_url: String,
    pub form_id: String,
}

/// One row of a submission request.
#[derive(Debug)]
pub struct TimesheetEntry {
    pub date: String,
    pub time_in: String,
    pub time_out: String,
    pub project: String,
    pub tool: Option<String>,
    pub charge_code: Option<String>,
    pub task_description: String,
}

/// The message when no credentials are stored for `service`.
pub fn missing_credentials_message(service: &str) -> (r: String)
    ensures
        r@ == "No credentials found for service '"@ + service@ + "'. Please store credentials first."@,
{
    let mut m = owned("No credentials found for service '");
    m.append(service);
    m.append("'. Please store credentials first.");
    m
}

/// Begins a submission: claims at once every draft whose times are
/// storable, stamped `now`, and returns the batch, the positions of the
/// claimed rows in store order. A draft whose times break the rule is not
/// claimed and stays a draft. With nothing to claim, nothing changes and the
/// error says there is nothing to submit.
pub fn begin_submission(store: &mut RowStore, now: i64) -> (r: Result<Vec<usize>, String>)
    requires
        count_status(old(store).view_rows(), RowStatus::Submitting) == 0,
    ensures
        final(store).view_rows() == old(store).view_rows().map_values(|v: RowView| claim_row(v, now)),
        forall|i: int| 0 <= i < final(store).rows@.len() && (#[trigger] final(store).view_rows()[i]).status
            == RowStatus::Submitting ==> times_storable(final(store).view_rows()[i].time_in as int,
            final(store).view_rows()[i].time_out as int),
        count_claimable(old(store).view_rows()) == 0 ==> (r matches Err(e)
            && e@ == "No draft entries to submit"@),
        count_claimable(old(store).view_rows()) > 0 ==> (r matches Ok(b)
            && b@.len() == count_status(final(store).view_rows(), RowStatus::Submitting)
            && forall|k: int| 0 <= k < b@.len() ==> (#[trigger] b@[k]) < final(store).rows@.len()
                && final(store).view_rows()[b@[k] as int].status == RowStatus::Submitting
                && batch_rank(final(store).view_rows(), b@[k] as int) == k),
{
    let ghost before = store.view_rows();
    let claimed = store.claim_drafts(now);
    proof {
        lemma_claimed_rows_storable(before, now);
        assert(store.view_rows().len() == store.rows@.len());
        assert(before.map_values(|v: RowView| claim_row(v, now)).len() == before.len());
        assert forall|i: int| 0 <= i < store.rows@.len() && (#[trigger] store.view_rows()[i]).status
            == RowStatus::Submitting implies times_storable(store.view_rows()[i].time_in as int,
            store.view_rows()[i].time_out as int) by {
            assert(store.view_rows()[i] == before.map_values(|v: RowView| claim_row(v, now))[i]);
            assert(store.view_rows()[i] == claim_row(before[i], now));
        }
    }
    if claimed == 0 {
        return Err(owned("No draft entries to submit"));
    }
    Ok(store.submitting_positions())
}

proof fn lemma_completed_le_batch(s: Seq<RowView>, sub: Seq<usize>, n: int)
    requires
        0 <= n <= s.len(),
    ensures
        completed_ids(s, sub, n).len() <= count_status(s.subrange(0, n), RowStatus::Submitting),
    decreases n,
{
    if n > 0 {
        lemma_completed_le_batch(s, sub, n - 1);
        assert(s.subrange(0, n).drop_last() =~= s.subrange(0, n - 1));
    }
}

/// `N entries failed to submit`.
pub open spec fn failed_entries_message(n: nat) -> Seq<char> {
    dec_digits(n) + " entries failed to submit"@
}

/// Finishes a submission with the run's outcome. A run that returned marks
/// the `k`-th batch row `Complete` when `k` was submitted and `Failed`
/// otherwise; a run that could not return fails the whole batch. Either way
/// no row is left `Submitting`.
pub fn complete_submission(store: &mut RowStore, outcome: Result<AutomationResult, String>, now: i64) -> (r: SubmitResponse)
    ensures
        count_status(final(store).view_rows(), RowStatus::Submitting) == 0,
        match outcome {
            Ok(res) => final(store).view_rows() == finalize_rows(old(store).view_rows(), res.submitted_indices@, now)
                && (r.submit_result matches Some(sr) && sr.ok == res.success && sr.total_processed == res.total_rows
                && sr.success_count == res.success_count
                && sr.submitted_ids@ == completed_ids(old(store).view_rows(), res.submitted_indices@,
                    old(store).rows@.len() as int)
                && sr.removed_ids@.len() == 0 && sr.removed_count == 0 && sr.error.is_none()
                && {
                    let failed = count_status(old(store).view_rows(), RowStatus::Submitting) - sr.submitted_ids@.len();
                    if failed > 0 {
                        r.error matches Some(e) && e@ == failed_entries_message(failed as nat)
                    } else {
                        r.error.is_none()
                    }
                }),
            Err(msg) => final(store).view_rows() == old(store).view_rows().map_values(|v: RowView| fail_row(v))
                && r.submit_result.is_none() && (r.error matches Some(e) && e@ == "Automation failed: "@ + msg@),
        },
{
    match outcome {
        Ok(res) => {
            let ghost s = store.view_rows();
            let batch = store.submitting_positions();
            let ids = store.finalize(&res.submitted_indices, now);
            proof {
                lemma_completed_le_batch(s, res.submitted_indices@, s.len() as int);
                assert(s.subrange(0, s.len() as int) =~= s);
            }
            let failed: usize = batch.len() - ids.len();
            let error = if failed > 0 {
                let mut m = String::new();
                push_decimal(&mut m, failed as u64);
                m.append(" entries failed to submit");
                Some(m)
            } else {
                None
            };
            SubmitResponse {
                error,
                submit_result: Some(SubmissionResult {
                    ok: res.success,
                    submitted_ids: ids,
                    removed_ids: Vec::new(),
                    total_processed: res.total_rows,
                    success_count: res.success_count,
                    removed_count: 0,
                    error: None,
                }),
            }
        },
        Err(msg) => {
            store.fail_all_submitting();
            let mut m = owned("Automation failed: ");
            m.append(msg.as_str());
            SubmitResponse { error: Some(m), submit_result: None }
        },
    }
}

/// A text field as the export writes it: in double quotes, with every
/// inner double quote doubled.
pub open spec fn quoted_field(s: Seq<char>) -> Seq<char> {
    "\""@ + doubled_quotes(s) + "\""@
}

pub open spec fn doubled_quotes(s: Seq<char>) -> Seq<char>
    decreases s.len(),
{
    if s.len() == 0 {
        Seq::empty()
    } else {
        doubled_quotes(s.drop_last()) + if s.last() == '"' { "\"\""@ } else { seq![s.last()] }
    }
}

/// Quotes a CSV text field, doubling inner quotes.
pub fn escape_csv_field(field: &str) -> (r: String)
    ensures
        r@ == quoted_field(field@),
{
    proof {
        reveal_strlit("\"");
        reveal_strlit("\"\"");
    }
    let mut out = owned("\"");
    let n = field.unicode_len();
    let mut i: usize = 0;
    while i < n
        invariant
            n == field@.len(),
            i <= n,
            out@ == "\""@ + doubled_quotes(field@.subrange(0, i as int)),
        decreases n - i,
    {
        let c = field.get_char(i);
        let ghost before = out@;
        if c == '"' {
            out.append("\"\"");
        } else {
            out.append(field.substring_char(i, i + 1));
        }
        assert(field@.subrange(0, i + 1).drop_last() =~= field@.subrange(0, i as int));
        assert(out@ =~= "\""@ + doubled_quotes(field@.subrange(0, i + 1)));
        i = i + 1;
    }
    assert(field@.subrange(0, i as int) =~= field@);
    out.append("\"");
    out
}

/// A completed row as the export reads it; `hours` is already text.
#[derive(Debug)]
pub struct ExportRow {
    pub date: String,
    pub time_in: i64,
    pub time_out: i64,
    pub hours: String,
    pub project: String,
    pub tool: Option<String>,
    pub charge_code: Option<String>,
    pub task_description: String,
    pub status: String,
    pub submitted_at: String,
}

pub open spec fn opt_text(o: Option<String>) -> Seq<char> {
    match o {
        Some(s) => s@,
        None => Seq::empty(),
    }
}

/// The CSV line of one row.
pub open spec fn csv_line(e: ExportRow) -> Seq<char> {
    e.date@ + ","@ + clock_text(e.time_in as int) + ","@ + clock_text(e.time_out as int) + ","@ + e.hours@
        + ","@ + quoted_field(e.project@) + ","@ + quoted_field(opt_text(e.tool)) + ","@
        + quoted_field(opt_text(e.charge_code)) + ","@ + quoted_field(e.task_description@) + ","@ + e.status@
        + ","@ + e.submitted_at@
}

pub open spec fn csv_header() -> Seq<char> {
    "Date,Start Time,End Time,Hours,Project,Tool,Charge Code,Task Description,Status,Submitted At"@
}

/// The header and the lines of `rows[..n]`, separated by newlines.
pub open spec fn csv_text(rows: Seq<ExportRow>, n: int) -> Seq<char>
    decreases n,
{
    if n <= 0 {
        csv_header()
    } else {
        csv_text(rows, n - 1) + "\n"@ + csv_line(rows[n - 1])
    }
}

fn push_field(out: &mut String, o: &Option<String>)
    ensures
        final(out)@ == old(out)@ + quoted_field(opt_text(*o)),
{
    let e = match o {
        Some(s) => escape_csv_field(s.as_str()),
        None => {
            proof { reveal_strlit(""); }
            assert(""@ =~= Seq::<char>::empty());
            escape_csv_field("")
        },
    };
    out.append(e.as_str());
}

/// Appends the CSV line of `e`.
fn push_csv_line(out: &mut String, e: &ExportRow)
    ensures
        final(out)@ == old(out)@ + csv_line(*e),
{
    proof { reveal_strlit(","); }
    out.append(e.date.as_str());
    out.append(",");
    let t = format_minutes_to_time(e.time_in);
    out.append(t.as_str());
    out.append(",");
    let t = format_minutes_to_time(e.time_out);
    out.append(t.as_str());
    out.append(",");
    out.append(e.hours.as_str());
    out.append(",");
    let f = escape_csv_field(e.project.as_str());
    out.append(f.as_str());
    out.append(",");
    push_field(out, &e.tool);
    out.append(",");
    push_field(out, &e.charge_code);
    out.append(",");
    let f = escape_csv_field(e.task_description.as_str());
    out.append(f.as_str());
    out.append(",");
    out.append(e.status.as_str());
    out.append(",");
    out.append(e.submitted_at.as_str());
    assert(final(out)@ =~= old(out)@ + csv_line(*e));
}

/// The export of the completed rows, named after `today` (`YYYY-MM-DD`).
/// With no row there is nothing to export.
pub fn export_csv(rows: &Vec<ExportRow>, today: &str) -> (r: ExportResponse)
    ensures
        rows@.len() == 0 ==> !r.success && r.csv_data.is_none() && r.entry_count.is_none()
            && r.filename.is_none() && (r.error matches Some(e)
            && e@ == "No submitted timesheet entries found to export"@),
        rows@.len() > 0 ==> r.success && r.error.is_none() && r.entry_count == Some(rows@.len() as usize)
            && (r.csv_data matches Some(c) && c@ == csv_text(rows@, rows@.len() as int))
            && (r.filename matches Some(f) && f@ == "timesheet_export_"@ + today@ + ".csv"@),
{
    if rows.len() == 0 {
        return ExportResponse {
            success: false,
            csv_data: None,
            entry_count: None,
            filename: None,
            error: Some(owned("No submitted timesheet entries found to export")),
        };
    }
    let mut out = owned("Date,Start Time,End Time,Hours,Project,Tool,Charge Code,Task Description,Status,Submitted At");
    proof { reveal_strlit("\n"); }
    let mut i: usize = 0;
    while i < rows.len()
        invariant
            i <= rows@.len(),
            out@ == csv_text(rows@, i as int),
        decreases rows@.len() - i,
    {
        out.append("\n");
        push_csv_line(&mut out, &rows[i]);
        assert(out@ =~= csv_text(rows@, i + 1));
        i = i + 1;
    }
    let mut name = owned("timesheet_export_");
    name.append(today);
    name.append(".csv");
    ExportResponse {
        success: true,
        csv_data: Some(out),
        entry_count: Some(rows.len()),
        filename: Some(name),
        error: None,
    }
}

} // verus!
