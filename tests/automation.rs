use sheetpilot::config::{
    dynamic_wait_enabled, field_definitions, field_order, flag_setting, login_steps, submit_button_fallback_locators,
    submit_retry_attempts, submit_success_indicators, submit_verify_timeout_ms, LoginAction,
};
use sheetpilot::login::{AuthError, LoginManager, LoginState, StepPlan};
use sheetpilot::orchestrator::{chrome_candidate_paths, find_chrome_path, is_chrome_available, AutomationResult, TimesheetRow};
use sheetpilot::webform::{classify_submission, Verification, WebformError, WebformFiller};

fn row() -> TimesheetRow {
    TimesheetRow {
        date: "07/15/2025".to_string(),
        time_in: "09:00".to_string(),
        time_out: "17:30".to_string(),
        project: "FL-Carver Techs".to_string(),
        tool: Some("DECA Meter".to_string()),
        charge_code: None,
        task_description: "Inspections".to_string(),
    }
}

#[test]
fn settings_read_their_overrides() {
    assert!(dynamic_wait_enabled(None));
    assert!(dynamic_wait_enabled(Some("TRUE")));
    assert!(dynamic_wait_enabled(Some("1")));
    assert!(!dynamic_wait_enabled(Some("yes")));
    assert!(!flag_setting(None, false));
    assert_eq!(submit_verify_timeout_ms(None), 3000);
    assert_eq!(submit_verify_timeout_ms(Some(10)), 10);
    assert_eq!(submit_retry_attempts(None), 3);
}

#[test]
fn configuration_tables_have_their_shape() {
    let steps = login_steps();
    assert_eq!(steps.len(), 14);
    assert_eq!(steps[0].name, "Wait for Login Form");
    assert!(matches!(steps[1].action, LoginAction::Input));
    assert_eq!(steps[9].value_key.as_deref(), Some("password"));
    assert_eq!(field_definitions().len(), 6);
    assert_eq!(field_order(), vec!["project_code", "date", "hours", "tool", "task_description", "detail_code"]);
    assert_eq!(submit_button_fallback_locators().len(), 11);
    assert_eq!(submit_success_indicators()[1], "confirmation");
}

#[test]
fn optional_wait_step_that_fails_does_not_abort_login() {
    let steps = login_steps();
    let manager = LoginManager::new("https://example.test".to_string());
    let next = manager.advance(
        &steps,
        LoginState::AtStep { index: 0 },
        Err(AuthError::ElementNotFound("#loginEmail".to_string())),
    );
    assert!(matches!(next, LoginState::AtStep { index: 1 }));
    let plan = manager.plan_step(&steps[1], "user@example.com", "pw").unwrap();
    match plan {
        StepPlan::Input { value, logged_value, .. } => {
            assert_eq!(value, "user@example.com");
            assert_eq!(logged_value, "<redacted>");
        }
        _ => panic!("expected an input step"),
    }
}

#[test]
fn required_step_failure_aborts_login() {
    let steps = login_steps();
    let manager = LoginManager::new("https://example.test".to_string());
    let next = manager.advance(
        &steps,
        LoginState::AtStep { index: 5 },
        Err(AuthError::ElementNotFound("#i0116".to_string())),
    );
    match next {
        LoginState::Failed { error } => assert_eq!(error.message(), "Element not found: #i0116"),
        _ => panic!("expected failure"),
    }
    let last = manager.advance(&steps, LoginState::AtStep { index: 13 }, Ok(()));
    assert!(matches!(last, LoginState::LoggedIn));
}

#[test]
fn page_load_is_retried_up_to_the_ceiling() {
    let steps = login_steps();
    let manager = LoginManager::new("https://example.test".to_string());
    let mut state = manager.initial_state(steps.len());
    for expected in 1..3 {
        state = manager.advance(&steps, state, Err(AuthError::NavigationFailed("timeout".to_string())));
        match state {
            LoginState::Navigating { failed_attempts } => assert_eq!(failed_attempts, expected),
            _ => panic!("expected another attempt"),
        }
    }
    state = manager.advance(&steps, state, Err(AuthError::NavigationFailed("timeout".to_string())));
    assert!(matches!(state, LoginState::Failed { .. }));
    let ok = manager.advance(&steps, LoginState::Navigating { failed_attempts: 1 }, Ok(()));
    assert!(matches!(ok, LoginState::AtStep { index: 0 }));
    assert_eq!(manager.navigation_delay_ms(0), 0);
    assert_eq!(manager.navigation_delay_ms(1), 2000);
}

#[test]
fn unknown_value_key_is_a_configuration_error() {
    let manager = LoginManager::new("https://example.test".to_string());
    let mut step = login_steps()[1].clone();
    step.value_key = Some("token".to_string());
    match manager.plan_step(&step, "e", "p") {
        Err(AuthError::CredentialsFailed(m)) => assert_eq!(m, "Unknown value_key: token"),
        _ => panic!("expected a credentials error"),
    }
}

#[test]
fn hours_round_trip_nine_to_half_past_five() {
    let filler = WebformFiller::new("form".to_string());
    assert_eq!(filler.calculate_hours("09:00", "17:30").unwrap(), "8.50");
    assert!(matches!(filler.calculate_hours("17:30", "09:00"), Err(WebformError::FillFailed(_))));
    assert!(matches!(filler.calculate_hours("9", "17:30"), Err(WebformError::FillFailed(_))));
}

#[test]
fn fill_plan_follows_field_order_and_skips_absent_optionals() {
    let filler = WebformFiller::new("form".to_string());
    let plan = filler.fill_plan(&row()).unwrap();
    let labels: Vec<&str> = plan.iter().map(|f| f.label.as_str()).collect();
    assert_eq!(labels, vec!["Project", "Date", "Hours", "Tool", "Task Description"]);
    assert_eq!(plan[2].value, "8.50");
    assert!(plan[0].dropdown && plan[3].dropdown && !plan[1].dropdown);
    assert!(plan[3].optional && !plan[0].optional);
    assert!(filler.is_dropdown_field("Detail Charge Code"));
    assert!(!filler.is_dropdown_field("Hours"));
    assert_eq!(filler.form_url("https://app.smartsheet.com/b/form"), "https://app.smartsheet.com/b/form/form");
}

#[test]
fn optional_field_failure_is_tolerated() {
    let filler = WebformFiller::new("form".to_string());
    let plan = filler.fill_plan(&row()).unwrap();
    assert!(filler.after_field(&plan[3], Err(WebformError::ElementNotFound("x".to_string()))).is_ok());
    assert!(filler.after_field(&plan[0], Err(WebformError::ElementNotFound("x".to_string()))).is_err());
}

#[test]
fn submit_button_and_verification_decisions() {
    let filler = WebformFiller::new("form".to_string());
    assert_eq!(filler.choose_submit_button(&vec![false, true, true]), Some(1));
    assert_eq!(filler.choose_submit_button(&vec![false, false]), None);
    match filler.submit_outcome(None, None) {
        Err(WebformError::ElementNotFound(m)) => assert_eq!(m, "Submit button not found"),
        _ => panic!("expected not found"),
    }
    assert!(matches!(filler.submit_outcome(Some(0), Some("gone".to_string())), Err(WebformError::SubmissionFailed(_))));
    assert!(filler.submit_outcome(Some(0), None).is_ok());
    assert_eq!(classify_submission(Some("https://x/confirmation"), &vec![], &vec![]), Verification::Confirmed);
    assert_eq!(classify_submission(Some("https://x/form"), &vec![false, true], &vec![]), Verification::Confirmed);
    assert_eq!(classify_submission(Some("https://x/form"), &vec![false], &vec![false]), Verification::Unconfirmed);
    assert_eq!(classify_submission(None, &vec![true], &vec![]), Verification::Error);
}

#[test]
fn submit_failure_after_fill_fails_every_filled_row() {
    let mut result = AutomationResult::start(3);
    for i in 0..3 {
        result.record_fill(i, Ok(()));
    }
    assert!(result.success);
    result.record_submit(Err(WebformError::SubmissionFailed("click".to_string())));
    assert!(result.submitted_indices.is_empty());
    assert!(!result.success);
    assert_eq!(result.success_count, 0);
    assert_eq!(result.failure_count, 3);
    let rows: Vec<usize> = result.errors.iter().map(|e| e.0).collect();
    assert_eq!(rows, vec![0, 1, 2]);
    assert_eq!(result.errors[0].1, "Failed to submit form: Submission failed: click");
}

#[test]
fn row_failures_are_isolated() {
    let mut result = AutomationResult::start(3);
    result.record_fill(0, Ok(()));
    result.record_fill(1, Err(WebformError::FillFailed("x".to_string())));
    result.record_fill(2, Ok(()));
    result.record_submit(Ok(()));
    assert_eq!(result.submitted_indices, vec![0, 2]);
    assert_eq!(result.errors.len(), 1);
    assert_eq!(result.errors[0].1, "Failed to fill row: Fill failed: x");
    assert!(result.success);
}

#[test]
fn login_failure_fails_every_row_with_one_cause() {
    let result = AutomationResult::login_failed(2, &AuthError::CredentialsFailed("bad".to_string()));
    assert!(!result.success);
    assert_eq!(result.failure_count, 2);
    assert_eq!(result.errors[1].1, "Authentication failed: Credentials failed: bad");
    let empty = AutomationResult::empty_run();
    assert!(empty.success && empty.total_rows == 0);
}

#[test]
fn every_row_carries_the_same_root_cause() {
    let result = AutomationResult::navigation_failed(3, &WebformError::ElementNotFound("timeout".to_string()));
    for (i, (row, msg)) in result.errors.iter().enumerate() {
        assert_eq!(*row, i);
        assert_eq!(msg, "Failed to navigate to form: Element not found: timeout");
    }
    assert!(!result.should_submit(true));
}

#[test]
fn submit_happens_only_after_a_fill_when_enabled() {
    let mut result = AutomationResult::start(1);
    assert!(!result.should_submit(true));
    result.record_fill(0, Ok(()));
    assert!(result.should_submit(true));
    assert!(!result.should_submit(false));
}

#[test]
fn chrome_is_the_first_existing_candidate() {
    assert_eq!(chrome_candidate_paths().len(), 2);
    assert_eq!(find_chrome_path(&vec![false, true]), Ok(1));
    assert!(find_chrome_path(&vec![false, false]).unwrap_err().starts_with("Chrome not found"));
    assert!(!is_chrome_available(&vec![false, false]));
    assert!(is_chrome_available(&vec![true, true]));
}

#[test]
fn filler_uses_the_configured_definitions() {
    let filler = WebformFiller::new("form".to_string());
    let defs = field_definitions();
    assert_eq!(filler.field_defs.len(), defs.len());
    for ((key, def), (ckey, cdef)) in filler.field_defs.iter().zip(defs.iter()) {
        assert_eq!(key, ckey);
        assert_eq!(def.label, cdef.label);
        assert_eq!(def.locator, cdef.locator);
        assert_eq!(def.optional, cdef.optional);
    }
    let selectors = submit_button_fallback_locators();
    for i in 0..selectors.len() {
        for j in i + 1..selectors.len() {
            assert_ne!(selectors[i], selectors[j]);
        }
    }
    assert_eq!(login_steps()[12].name, "Stay Signed In \u{2014} No");
}
