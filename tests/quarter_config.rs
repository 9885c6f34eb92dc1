use sheetpilot::quarter::{
    get_available_quarter_ids, get_quarter_by_id, get_quarter_definitions, get_quarter_for_date,
    get_mock_quarter_definition, parse_calendar_date, validate_quarter_availability,
    validate_quarter_definitions, CalendarDate,
};

#[test]
fn test_get_quarter_definitions_count() {
    let quarters = get_quarter_definitions();
    assert_eq!(quarters.len(), 4);
}

#[test]
fn test_get_quarter_for_date_q1() {
    let quarter = get_quarter_for_date("2025-01-15");
    assert!(quarter.is_some());
    let q = quarter.unwrap();
    assert_eq!(q.id, "Q1-2025");
    assert_eq!(q.name, "Q1 2025");
}

#[test]
fn test_get_quarter_for_date_q2() {
    let quarter = get_quarter_for_date("2025-05-01");
    assert!(quarter.is_some());
    let q = quarter.unwrap();
    assert_eq!(q.id, "Q2-2025");
}

#[test]
fn test_get_quarter_for_date_q3() {
    let quarter = get_quarter_for_date("2025-07-15");
    assert!(quarter.is_some());
    let q = quarter.unwrap();
    assert_eq!(q.id, "Q3-2025");
    assert_eq!(q.form_id, "0197cbae7daf72bdb96b3395b500d414");
}

#[test]
fn test_get_quarter_for_date_q4() {
    let quarter = get_quarter_for_date("2025-11-15");
    assert!(quarter.is_some());
    let q = quarter.unwrap();
    assert_eq!(q.id, "Q4-2025");
    assert_eq!(q.form_id, "0199fabee6497e60abb6030c48d84585");
}

#[test]
fn test_get_quarter_for_date_invalid_year() {
    let quarter = get_quarter_for_date("2024-01-01");
    assert!(quarter.is_none());
}

#[test]
fn test_get_quarter_for_date_invalid_format() {
    let quarter = get_quarter_for_date("2025/01/01");
    assert!(quarter.is_none());
}

#[test]
fn test_get_quarter_for_date_empty() {
    let quarter = get_quarter_for_date("");
    assert!(quarter.is_none());
}

#[test]
fn test_get_quarter_for_date_boundary_start() {
    let quarter = get_quarter_for_date("2025-01-01");
    assert!(quarter.is_some());
    assert_eq!(quarter.unwrap().id, "Q1-2025");

    let quarter = get_quarter_for_date("2025-07-01");
    assert!(quarter.is_some());
    assert_eq!(quarter.unwrap().id, "Q3-2025");
}

#[test]
fn test_get_quarter_for_date_boundary_end() {
    let quarter = get_quarter_for_date("2025-03-31");
    assert!(quarter.is_some());
    assert_eq!(quarter.unwrap().id, "Q1-2025");

    let quarter = get_quarter_for_date("2025-12-31");
    assert!(quarter.is_some());
    assert_eq!(quarter.unwrap().id, "Q4-2025");
}

#[test]
fn test_validate_quarter_availability_valid() {
    let error = validate_quarter_availability("2025-07-15");
    assert!(error.is_none());
}

#[test]
fn test_validate_quarter_availability_invalid() {
    let error = validate_quarter_availability("2024-01-01");
    assert!(error.is_some());
    assert!(error.unwrap().contains("Date must be in"));
}

#[test]
fn test_validate_quarter_availability_empty() {
    let error = validate_quarter_availability("");
    assert!(error.is_some());
    assert_eq!(error.unwrap(), "Please enter a date");
}

#[test]
fn test_get_available_quarter_ids() {
    let ids = get_available_quarter_ids();
    assert_eq!(ids.len(), 4);
    assert!(ids.contains(&"Q1-2025".to_string()));
    assert!(ids.contains(&"Q2-2025".to_string()));
    assert!(ids.contains(&"Q3-2025".to_string()));
    assert!(ids.contains(&"Q4-2025".to_string()));
}

#[test]
fn test_get_quarter_by_id_valid() {
    let quarter = get_quarter_by_id("Q3-2025");
    assert!(quarter.is_some());
    let q = quarter.unwrap();
    assert_eq!(q.id, "Q3-2025");
    assert_eq!(q.form_id, "0197cbae7daf72bdb96b3395b500d414");
}

#[test]
fn test_get_quarter_by_id_invalid() {
    let quarter = get_quarter_by_id("Q5-2025");
    assert!(quarter.is_none());
}

#[test]
fn test_quarter_definitions_no_gaps() {
    let quarters = get_quarter_definitions();

    assert_eq!(quarters[0].start_date, "2025-01-01");
    assert_eq!(quarters[3].end_date, "2025-12-31");

    for i in 0..quarters.len() - 1 {
        let current_end = chrono::NaiveDate::parse_from_str(&quarters[i].end_date, "%Y-%m-%d").unwrap();
        let next_start = chrono::NaiveDate::parse_from_str(&quarters[i + 1].start_date, "%Y-%m-%d").unwrap();
        assert_eq!(next_start, current_end + chrono::Duration::days(1));
    }
}

#[test]
fn test_form_ids_are_unique() {
    let quarters = get_quarter_definitions();
    let mut form_ids = Vec::new();

    for quarter in quarters {
        assert!(!form_ids.contains(&quarter.form_id));
        form_ids.push(quarter.form_id);
    }
}

#[test]
fn test_form_urls_contain_form_ids() {
    let quarters = get_quarter_definitions();

    for quarter in quarters {
        if !quarter.form_id.contains("placeholder") {
            assert!(quarter.form_url.contains(&quarter.form_id));
        }
    }
}

#[test]
fn configured_quarters_pass_load_time_validation() {
    assert!(validate_quarter_definitions(&get_quarter_definitions()).is_ok());
}

#[test]
fn overlapping_or_gapped_quarters_are_rejected() {
    let mut qs = get_quarter_definitions();
    qs[1].start_date = "2025-04-02".to_string();
    assert!(validate_quarter_definitions(&qs).is_err());

    let mut qs = get_quarter_definitions();
    qs[2].start_date = "2025-06-30".to_string();
    assert!(validate_quarter_definitions(&qs).is_err());

    let mut qs = get_quarter_definitions();
    qs[3].form_id = qs[2].form_id.clone();
    assert!(validate_quarter_definitions(&qs).is_err());
}

#[test]
fn quarter_boundary_scenario() {
    assert_eq!(get_quarter_for_date("2025-09-30").unwrap().id, "Q3-2025");
    assert_eq!(get_quarter_for_date("2025-10-01").unwrap().id, "Q4-2025");
    assert!(get_quarter_for_date("2024-12-31").is_none());
}

#[test]
fn every_day_of_the_year_routes_to_exactly_one_quarter() {
    let quarters = get_quarter_definitions();
    let mut day = chrono::NaiveDate::from_ymd_opt(2025, 1, 1).unwrap();
    while day.format("%Y").to_string() == "2025" {
        let text = day.format("%Y-%m-%d").to_string();
        let holding = quarters
            .iter()
            .filter(|q| q.start_date <= text && text <= q.end_date)
            .count();
        assert_eq!(holding, 1);
        assert!(get_quarter_for_date(&text).is_some());
        day = day + chrono::Duration::days(1);
    }
}

#[test]
fn availability_message_lists_every_window() {
    let msg = validate_quarter_availability("2024-01-01").unwrap();
    assert_eq!(
        msg,
        "Date must be in Q1 2025 (01/01-03/31) or Q2 2025 (04/01-06/30) or Q3 2025 (07/01-09/30) or Q4 2025 (10/01-12/31)"
    );
    assert_eq!(validate_quarter_availability("not a date").unwrap(), msg);
}

#[test]
fn mock_quarter_points_at_the_given_endpoint() {
    let q = get_mock_quarter_definition("http://localhost:3456", "mock-form-123");
    assert_eq!(q.id, "MOCK-QUARTER");
    assert_eq!(q.form_url, "http://localhost:3456");
    assert_eq!(q.form_id, "mock-form-123");
    assert_eq!(q.start_date, "2000-01-01");
}

#[test]
fn calendar_dates_parse_and_advance() {
    let d = parse_calendar_date("2024-02-28").unwrap();
    assert_eq!(d, CalendarDate { year: 2024, month: 2, day: 28 });
    assert_eq!(d.succ().unwrap(), CalendarDate { year: 2024, month: 2, day: 29 });
    let d = parse_calendar_date("2025-02-28").unwrap();
    assert_eq!(d.succ().unwrap(), CalendarDate { year: 2025, month: 3, day: 1 });
    let d = parse_calendar_date("2025-12-31").unwrap();
    assert_eq!(d.succ().unwrap(), CalendarDate { year: 2026, month: 1, day: 1 });
    assert!(parse_calendar_date("2025-02-30").is_none());
    assert!(parse_calendar_date("").is_none());
    assert!(d.is_before(&CalendarDate { year: 2026, month: 1, day: 1 }));
}
