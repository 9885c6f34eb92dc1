use sheetpilot::lifecycle::{save_target_status, RowStatus, RowStore, StoredRow};
use sheetpilot::orchestrator::AutomationResult;
use sheetpilot::submission::{begin_submission, complete_submission, missing_credentials_message};

fn stored(id: i64, status: RowStatus, started: Option<i64>) -> StoredRow {
    StoredRow {
        id,
        date: "2025-07-15".to_string(),
        time_in: 540 + 60 * id,
        time_out: 600 + 60 * id,
        project: "FL-Carver Techs".to_string(),
        tool: None,
        charge_code: None,
        task_description: "Inspections".to_string(),
        status,
        submission_started_at: started,
        submitted_at: None,
    }
}

fn result(total: usize, filled: &[usize]) -> AutomationResult {
    let mut r = AutomationResult::start(total);
    for i in 0..total {
        if filled.contains(&i) {
            r.record_fill(i, Ok(()));
        } else {
            r.record_fill(i, Err(sheetpilot::webform::WebformError::FillFailed("x".to_string())));
        }
    }
    r
}

#[test]
fn all_rows_succeed() {
    let mut store = RowStore { rows: vec![stored(1, RowStatus::Draft, None), stored(2, RowStatus::Draft, None)] };
    let batch = begin_submission(&mut store, 1000).unwrap();
    assert_eq!(batch, vec![0, 1]);
    assert!(store.rows.iter().all(|r| r.status == RowStatus::Submitting && r.submission_started_at == Some(1000)));
    let rows = store.batch_rows(&batch);
    assert_eq!(rows[0].time_in, "10:00");
    let response = complete_submission(&mut store, Ok(result(2, &[0, 1])), 2000);
    assert!(response.error.is_none());
    let sr = response.submit_result.unwrap();
    assert_eq!(sr.submitted_ids, vec![1, 2]);
    assert_eq!(sr.submitted_ids.len(), 2);
    assert!(store.rows.iter().all(|r| r.status == RowStatus::Complete
        && r.submitted_at == Some(2000) && r.submission_started_at.is_none()));
}

#[test]
fn nothing_to_submit_without_drafts() {
    let mut store = RowStore { rows: vec![stored(1, RowStatus::Complete, None)] };
    assert_eq!(begin_submission(&mut store, 5).unwrap_err(), "No draft entries to submit");
    assert_eq!(store.rows[0].status, RowStatus::Complete);
}

#[test]
fn reconciliation_leaves_nothing_submitting() {
    let mut store = RowStore {
        rows: vec![
            stored(1, RowStatus::Draft, None),
            stored(2, RowStatus::Complete, None),
            stored(3, RowStatus::Draft, None),
            stored(4, RowStatus::Draft, None),
        ],
    };
    begin_submission(&mut store, 10).unwrap();
    let response = complete_submission(&mut store, Ok(result(3, &[1])), 20);
    assert_eq!(response.error.as_deref(), Some("2 entries failed to submit"));
    assert_eq!(response.submit_result.unwrap().submitted_ids, vec![3]);
    let statuses: Vec<RowStatus> = store.rows.iter().map(|r| r.status).collect();
    assert_eq!(statuses, vec![RowStatus::Failed, RowStatus::Complete, RowStatus::Complete, RowStatus::Failed]);
    assert!(!store.is_submission_in_progress());
}

#[test]
fn automation_that_cannot_start_fails_the_batch() {
    let mut store = RowStore { rows: vec![stored(1, RowStatus::Draft, None)] };
    begin_submission(&mut store, 10).unwrap();
    assert!(store.is_submission_in_progress());
    let response = complete_submission(&mut store, Err("Failed to start browser: x".to_string()), 20);
    assert_eq!(response.error.as_deref(), Some("Automation failed: Failed to start browser: x"));
    assert!(response.submit_result.is_none());
    assert_eq!(store.rows[0].status, RowStatus::Failed);
    assert!(store.rows[0].submission_started_at.is_none());
}

#[test]
fn crash_recovery_fails_only_stale_rows() {
    let now = 100_000;
    let mut store = RowStore {
        rows: vec![
            stored(1, RowStatus::Submitting, Some(now - 45 * 60)),
            stored(2, RowStatus::Submitting, Some(now - 5 * 60)),
            stored(3, RowStatus::Draft, None),
        ],
    };
    assert_eq!(store.recover_stuck_submissions(now), 1);
    assert_eq!(store.rows[0].status, RowStatus::Failed);
    assert!(store.rows[0].submission_started_at.is_none());
    assert_eq!(store.rows[1].status, RowStatus::Submitting);
    assert_eq!(store.rows[1].submission_started_at, Some(now - 5 * 60));
    assert_eq!(store.rows[2].status, RowStatus::Draft);
}

#[test]
fn resetting_failed_rows_twice_affects_nothing_the_second_time() {
    let mut store = RowStore {
        rows: vec![stored(1, RowStatus::Failed, None), stored(2, RowStatus::Complete, None), stored(3, RowStatus::Failed, None)],
    };
    assert_eq!(store.reset_failed_to_draft(), 2);
    assert_eq!(store.rows[0].status, RowStatus::Draft);
    assert_eq!(store.rows[1].status, RowStatus::Complete);
    assert_eq!(store.reset_failed_to_draft(), 0);
}

#[test]
fn missing_credentials_are_named() {
    assert_eq!(
        missing_credentials_message("smartsheet"),
        "No credentials found for service 'smartsheet'. Please store credentials first."
    );
}

#[test]
fn drafts_with_invalid_times_are_not_claimed() {
    let mut bad = stored(2, RowStatus::Draft, None);
    bad.time_in = 600;
    bad.time_out = 540;
    let mut odd = stored(3, RowStatus::Draft, None);
    odd.time_in = 610;
    let mut store = RowStore { rows: vec![stored(1, RowStatus::Draft, None), bad, odd] };
    let batch = begin_submission(&mut store, 10).unwrap();
    assert_eq!(batch, vec![0]);
    assert_eq!(store.rows[0].status, RowStatus::Submitting);
    assert_eq!(store.rows[1].status, RowStatus::Draft);
    assert_eq!(store.rows[2].status, RowStatus::Draft);
    assert!(store.rows[1].submission_started_at.is_none());

    let mut only_bad = stored(4, RowStatus::Draft, None);
    only_bad.time_out = only_bad.time_in;
    let mut store = RowStore { rows: vec![only_bad] };
    assert_eq!(begin_submission(&mut store, 10).unwrap_err(), "No draft entries to submit");
}

#[test]
fn saves_never_leave_complete() {
    assert_eq!(save_target_status(None), Ok(RowStatus::Draft));
    assert_eq!(save_target_status(Some(RowStatus::Failed)), Ok(RowStatus::Draft));
    assert_eq!(save_target_status(Some(RowStatus::Complete)).unwrap_err(), "Submitted entries cannot be changed");
    assert_eq!(save_target_status(Some(RowStatus::Submitting)).unwrap_err(), "Entry is being submitted");
}

#[test]
fn batch_rows_keep_tool_and_charge_code() {
    let mut row = stored(1, RowStatus::Submitting, Some(5));
    row.tool = Some("DECA Meter".to_string());
    row.charge_code = Some("EPR".to_string());
    let store = RowStore { rows: vec![row] };
    let rows = store.batch_rows(&vec![0]);
    assert_eq!(rows[0].tool.as_deref(), Some("DECA Meter"));
    assert_eq!(rows[0].charge_code.as_deref(), Some("EPR"));
    let draft = store.rows[0].to_draft_row();
    assert_eq!(draft.id, Some(1));
    assert_eq!(draft.time_in, "10:00");
}
