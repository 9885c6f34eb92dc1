use sheetpilot::clock::{format_hours, format_minutes_to_time, parse_time_to_minutes};
use sheetpilot::drafts::{drafts_or_blank, delete_response, validate_draft, TimesheetRow as DraftRow};
use sheetpilot::submission::{escape_csv_field, export_csv, ExportRow};
use sheetpilot::{redact_email};
use sheetpilot::auth::{is_admin_login, session_lifetime_secs, Session, StoredSession};

fn draft(time_in: &str, time_out: &str) -> DraftRow {
    DraftRow {
        id: None,
        date: "2025-07-15".to_string(),
        time_in: time_in.to_string(),
        time_out: time_out.to_string(),
        project: "FL-Carver Techs".to_string(),
        tool: None,
        charge_code: None,
        task_description: "Inspections".to_string(),
    }
}

#[test]
fn test_basic_rust_functionality() {
    assert_eq!(2 + 2, 4);
}

#[test]
fn clock_times_parse_strictly() {
    assert_eq!(parse_time_to_minutes("09:00"), Ok(540));
    assert_eq!(parse_time_to_minutes("17:30"), Ok(1050));
    assert_eq!(parse_time_to_minutes("0:05"), Ok(5));
    assert_eq!(parse_time_to_minutes("23:59"), Ok(1439));
    assert!(parse_time_to_minutes("24:00").is_err());
    assert!(parse_time_to_minutes("12:60").is_err());
    assert!(parse_time_to_minutes("12").is_err());
    assert!(parse_time_to_minutes("1:2:3").is_err());
    assert!(parse_time_to_minutes(":30").is_err());
    assert!(parse_time_to_minutes("ab:cd").is_err());
    assert!(parse_time_to_minutes("").is_err());
    assert!(parse_time_to_minutes("99999999999999999999:00").is_err());
}

#[test]
fn minutes_format_as_clock_text() {
    assert_eq!(format_minutes_to_time(540), "09:00");
    assert_eq!(format_minutes_to_time(1050), "17:30");
    assert_eq!(format_minutes_to_time(0), "00:00");
    assert_eq!(format_minutes_to_time(6000), "100:00");
    assert_eq!(format_minutes_to_time(-5), format!("{:02}:{:02}", -5i64 / 60, -5i64 % 60));
}

#[test]
fn hours_have_two_decimals() {
    assert_eq!(format_hours(510), "8.50");
    assert_eq!(format_hours(0), "0.00");
    assert_eq!(format_hours(10), "0.17");
    assert_eq!(format_hours(5), "0.08");
    assert_eq!(format_hours(45), "0.75");
    assert_eq!(format_hours(1439), "23.98");
}

#[test]
fn drafts_off_the_quarter_hour_or_reversed_are_rejected() {
    assert_eq!(validate_draft(&draft("09:00", "17:30")), Ok((540, 1050)));
    assert_eq!(
        validate_draft(&draft("09:10", "17:30")).unwrap_err(),
        "Times must be in 15-minute increments"
    );
    assert_eq!(validate_draft(&draft("17:30", "09:00")).unwrap_err(), "Time Out must be after Time In");
    assert_eq!(validate_draft(&draft("09:00", "09:00")).unwrap_err(), "Time Out must be after Time In");
    assert_eq!(validate_draft(&draft("9am", "17:30")).unwrap_err(), "Invalid time format: 9am");
    assert_eq!(validate_draft(&draft("09:00", "25:00")).unwrap_err(), "Invalid time format: 25:00");
    let mut row = draft("09:00", "17:30");
    row.project.clear();
    assert_eq!(validate_draft(&row).unwrap_err(), "Project is required");
    let mut row = draft("09:00", "17:30");
    row.date.clear();
    assert_eq!(validate_draft(&row).unwrap_err(), "Date is required");
    let mut row = draft("09:00", "17:30");
    row.task_description.clear();
    assert_eq!(validate_draft(&row).unwrap_err(), "Task description is required");
}

#[test]
fn empty_draft_list_shows_one_blank_row() {
    let rows = drafts_or_blank(Vec::new());
    assert_eq!(rows.len(), 1);
    assert!(rows[0].id.is_none());
    assert_eq!(rows[0].date, "");
    let rows = drafts_or_blank(vec![draft("09:00", "10:00"), draft("10:00", "11:00")]);
    assert_eq!(rows.len(), 2);
}

#[test]
fn deleting_a_missing_draft_reports_it() {
    let r = delete_response(0);
    assert!(!r.success);
    assert_eq!(r.error.as_deref(), Some("Draft entry not found"));
    let r = delete_response(1);
    assert!(r.success);
    assert_eq!(r.changes, Some(1));
}

#[test]
fn csv_fields_are_quoted_with_doubled_quotes() {
    assert_eq!(escape_csv_field("plain"), "\"plain\"");
    assert_eq!(escape_csv_field("a,b"), "\"a,b\"");
    assert_eq!(escape_csv_field("say \"hi\""), "\"say \"\"hi\"\"\"");
    assert_eq!(escape_csv_field(""), "\"\"");
}

#[test]
fn csv_export_has_header_and_one_line_per_row() {
    let none = export_csv(&Vec::new(), "2025-07-20");
    assert!(!none.success);
    assert_eq!(none.error.as_deref(), Some("No submitted timesheet entries found to export"));

    let rows = vec![ExportRow {
        date: "2025-07-15".to_string(),
        time_in: 540,
        time_out: 1050,
        hours: "8.5".to_string(),
        project: "FL-Carver Techs".to_string(),
        tool: Some("DECA Meter".to_string()),
        charge_code: None,
        task_description: "Inspect, report".to_string(),
        status: "Complete".to_string(),
        submitted_at: "2025-07-16 10:00:00".to_string(),
    }];
    let r = export_csv(&rows, "2025-07-20");
    assert!(r.success);
    assert_eq!(r.entry_count, Some(1));
    assert_eq!(r.filename.as_deref(), Some("timesheet_export_2025-07-20.csv"));
    assert_eq!(
        r.csv_data.unwrap(),
        "Date,Start Time,End Time,Hours,Project,Tool,Charge Code,Task Description,Status,Submitted At\n\
         2025-07-15,09:00,17:30,8.5,\"FL-Carver Techs\",\"DECA Meter\",\"\",\"Inspect, report\",Complete,2025-07-16 10:00:00"
    );
}

#[test]
fn emails_are_redacted_to_their_domain() {
    assert_eq!(redact_email("jane.doe@example.com"), "***@example.com");
    assert_eq!(redact_email("no-at-sign"), "***");
    assert_eq!(redact_email("a@b@c"), "***@b@c");
}

#[test]
fn admin_login_needs_both_values() {
    assert!(is_admin_login("Admin", "SWFL_ADMIN"));
    assert!(!is_admin_login("admin", "SWFL_ADMIN"));
    assert!(!is_admin_login("Admin", "wrong"));
}

#[test]
fn sessions_expire() {
    assert_eq!(session_lifetime_secs(true), 30 * 24 * 3600);
    assert_eq!(session_lifetime_secs(false), 8 * 3600);
    let found = StoredSession { email: "u@x.com".to_string(), is_admin: false, expires_at: Some(1000) };
    let s = Session::from_lookup("tok", Some(found), 999);
    assert!(s.valid);
    assert_eq!(s.token, "tok");
    assert_eq!(s.to_response().email.as_deref(), Some("u@x.com"));
    let found = StoredSession { email: "u@x.com".to_string(), is_admin: false, expires_at: Some(1000) };
    assert!(!Session::from_lookup("tok", Some(found), 1000).valid);
    assert!(Session::from_lookup("tok", None, 0).current().is_none());
}
