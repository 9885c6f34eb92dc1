//! Draft rows as the editor sends them, and the checks a row passes before
//! it is stored.
use vstd::prelude::*;
use crate::clock::{clock_minutes, parse_time_to_minutes};
use crate::text::owned;

verus! {

/// A row as the editor sends and receives it; `id` is absent until stored.
#[derive(Debug, Clone)]
pub struct TimesheetRow {
    pub id: Option<i64>,
    pub date: String,
    pub time_in: String,
    pub time_out: String,
    pub project: String,
    pub tool: Option<String>,
    pub charge_code: Option<String>,
    pub task_description: String,
}

/// Result of saving or deleting a draft.
#[derive(Debug)]
pub struct SaveDraftResponse {
    pub success: bool,
    pub changes: Option<usize>,
    pub error: Option<String>,
}

/// Result of loading the drafts.
#[derive(Debug)]
pub struct LoadDraftResponse {
    pub success: bool,
    pub entries: Vec<TimesheetRow>,
    pub error: Option<String>,
}

/// A stored credential, without its password.
#[derive(Debug)]
pub struct CredentialInfo {
    pub id: i64,
    pub service: String,
    pub email: String,
    pub created_at: String,
    pub updated_at: String,
}

/// Times of a storable row, in minutes since midnight: both within the
/// day, both on a quarter hour, and the end strictly later than the start.
pub open spec fn times_storable(a: int, b: int) -> bool {
    0 <= a && a % 15 == 0 && b % 15 == 0 && a < b && b < 1440
}

/// Whether minute times may be stored.
pub fn storable_times(a: i64, b: i64) -> (r: bool)
    ensures
        r == times_storable(a as int, b as int),
{
    0 <= a && a < b && b < 1440 && a % 15 == 0 && b % 15 == 0
}

/// Whether a draft may be stored, and with which minute times.
pub open spec fn draft_accepted(row: TimesheetRow) -> Option<(int, int)> {
    if row.date@.len() == 0 || row.project@.len() == 0 || row.task_description@.len() == 0 {
        None
    } else {
        match (clock_minutes(row.time_in@), clock_minutes(row.time_out@)) {
            (Some(a), Some(b)) => if times_storable(a, b) { Some((a, b)) } else { None },
            _ => None,
        }
    }
}

/// The verdict on a draft: its minute times, or the first failing check's
/// message, checked in order: date, project, task description, start time,
/// end time, quarter hours, end after start.
pub open spec fn draft_verdict(row: TimesheetRow) -> Result<(int, int), Seq<char>> {
    if row.date@.len() == 0 {
        Err("Date is required"@)
    } else if row.project@.len() == 0 {
        Err("Project is required"@)
    } else if row.task_description@.len() == 0 {
        Err("Task description is required"@)
    } else {
        match clock_minutes(row.time_in@) {
            None => Err("Invalid time format: "@ + row.time_in@),
            Some(a) => match clock_minutes(row.time_out@) {
                None => Err("Invalid time format: "@ + row.time_out@),
                Some(b) => if a % 15 != 0 || b % 15 != 0 {
                    Err("Times must be in 15-minute increments"@)
                } else if b <= a {
                    Err("Time Out must be after Time In"@)
                } else {
                    Ok((a, b))
                },
            },
        }
    }
}

/// Checks a draft before it is stored and returns its times in minutes
/// since midnight. Date, project and task description are required; times
/// must be `HH:MM` on a quarter hour with the end after the start.
pub fn validate_draft(row: &TimesheetRow) -> (r: Result<(i64, i64), String>)
    ensures
        match draft_accepted(*row) {
            Some((a, b)) => r == Ok::<(i64, i64), String>((a as i64, b as i64)),
            None => r is Err,
        },
        match draft_verdict(*row) {
            Ok((a, b)) => r == Ok::<(i64, i64), String>((a as i64, b as i64)),
            Err(m) => r matches Err(e) && e@ == m,
        },
        r matches Ok((a, b)) ==> times_storable(a as int, b as int),
{
    if row.date.as_str().unicode_len() == 0 {
        return Err(owned("Date is required"));
    }
    if row.project.as_str().unicode_len() == 0 {
        return Err(owned("Project is required"));
    }
    if row.task_description.as_str().unicode_len() == 0 {
        return Err(owned("Task description is required"));
    }
    let a = match parse_time_to_minutes(row.time_in.as_str()) {
        Ok(m) => m,
        Err(e) => {
            return Err(e);
        },
    };
    let b = match parse_time_to_minutes(row.time_out.as_str()) {
        Ok(m) => m,
        Err(e) => {
            return Err(e);
        },
    };
    if a % 15 != 0 || b % 15 != 0 {
        return Err(owned("Times must be in 15-minute increments"));
    }
    if b <= a {
        return Err(owned("Time Out must be after Time In"));
    }
    Ok((a, b))
}

/// An empty row for the editor.
pub fn blank_draft() -> (r: TimesheetRow)
    ensures
        r.id.is_none(),
        r.date@.len() == 0 && r.time_in@.len() == 0 && r.time_out@.len() == 0,
        r.project@.len() == 0 && r.task_description@.len() == 0,
        r.tool.is_none() && r.charge_code.is_none(),
{
    TimesheetRow {
        id: None,
        date: String::new(),
        time_in: String::new(),
        time_out: String::new(),
        project: String::new(),
        tool: None,
        charge_code: None,
        task_description: String::new(),
    }
}

/// The drafts to show: those loaded, or a single blank row when there are
/// none.
pub fn drafts_or_blank(entries: Vec<TimesheetRow>) -> (r: Vec<TimesheetRow>)
    ensures
        entries@.len() > 0 ==> r@ == entries@,
        entries@.len() == 0 ==> r@.len() == 1 && r@[0].id.is_none() && r@[0].date@.len() == 0
            && r@[0].time_in@.len() == 0 && r@[0].time_out@.len() == 0 && r@[0].project@.len() == 0
            && r@[0].task_description@.len() == 0 && r@[0].tool.is_none() && r@[0].charge_code.is_none(),
{
    if entries.len() == 0 {
        vec![blank_draft()]
    } else {
        entries
    }
}

/// The response to deleting a draft, from the number of rows removed.
pub fn delete_response(changes: usize) -> (r: SaveDraftResponse)
    ensures
        r.success == (changes > 0),
        r.changes == Some(changes),
        changes == 0 ==> (r.error matches Some(e) && e@ == "Draft entry not found"@),
        changes > 0 ==> r.error.is_none(),
{
    if changes == 0 {
        SaveDraftResponse { success: false, changes: Some(0), error: Some(owned("Draft entry not found")) }
    } else {
        SaveDraftResponse { success: true, changes: Some(changes), error: None }
    }
}

} // verus!
