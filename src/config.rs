//! Process-wide automation configuration: login steps, form fields, submit
//! button fallbacks, success indicators and tunable settings.
use vstd::prelude::*;
use crate::text::{lower_of, lowercase, owned, same_text};

verus! {

/// Width of the browser viewport in pixels.
pub const BROWSER_VIEWPORT_WIDTH: u32 = 1400;

/// Height of the browser viewport in pixels.
pub const BROWSER_VIEWPORT_HEIGHT: u32 = 1000;

/// Primary CSS selector for the submit button.
pub const SUBMIT_BUTTON_LOCATOR: &'static str = "button[data-client-id='form_submit_btn']";

/// A boolean setting read from its textual override: `true` in any letter
/// case, or `1`, turns it on; any other text turns it off.
pub open spec fn flag_value(env_value: Option<Seq<char>>, default: bool) -> bool {
    match env_value {
        Some(s) => lower_of(s) == "true"@ || s == "1"@,
        None => default,
    }
}

pub open spec fn opt_view(v: Option<&str>) -> Option<Seq<char>> {
    match v {
        Some(s) => Some(s@),
        None => None,
    }
}

/// Reads a boolean setting from its optional override text.
pub fn flag_setting(env_value: Option<&str>, default: bool) -> (r: bool)
    ensures
        r == flag_value(opt_view(env_value), default),
{
    match env_value {
        Some(s) => {
            let lowered = lowercase(s);
            same_text(lowered.as_str(), "true") || same_text(s, "1")
        },
        None => default,
    }
}

/// Whether dynamic wait is enabled (default on).
pub fn dynamic_wait_enabled(env_value: Option<&str>) -> (r: bool)
    ensures
        r == flag_value(opt_view(env_value), true),
{
    flag_setting(env_value, true)
}

/// Whether forms are submitted after filling (default on).
pub fn submit_form_after_filling(env_value: Option<&str>) -> (r: bool)
    ensures
        r == flag_value(opt_view(env_value), true),
{
    flag_setting(env_value, true)
}

/// Whether field validation stops at the first failure (default on).
pub fn field_validation_fail_fast(env_value: Option<&str>) -> (r: bool)
    ensures
        r == flag_value(opt_view(env_value), true),
{
    flag_setting(env_value, true)
}

/// Whether automation stops when a row fails (default on).
pub fn automation_stop_on_row_failure(env_value: Option<&str>) -> (r: bool)
    ensures
        r == flag_value(opt_view(env_value), true),
{
    flag_setting(env_value, true)
}

/// Timeout for verifying a submission, in milliseconds (default 3000).
pub fn submit_verify_timeout_ms(env_value: Option<u64>) -> (r: u64)
    ensures
        r == match env_value { Some(v) => v, None => 3000 },
{
    match env_value { Some(v) => v, None => 3000 }
}

/// Lowest HTTP status counted as a successful submission (default 200).
pub fn submit_success_min_status(env_value: Option<u16>) -> (r: u16)
    ensures
        r == match env_value { Some(v) => v, None => 200 },
{
    match env_value { Some(v) => v, None => 200 }
}

/// Highest HTTP status counted as a successful submission (default 299).
pub fn submit_success_max_status(env_value: Option<u16>) -> (r: u16)
    ensures
        r == match env_value { Some(v) => v, None => 299 },
{
    match env_value { Some(v) => v, None => 299 }
}

/// Number of attempts for a failed submission (default 3).
pub fn submit_retry_attempts(env_value: Option<usize>) -> (r: usize)
    ensures
        r == match env_value { Some(v) => v, None => 3 },
{
    match env_value { Some(v) => v, None => 3 }
}

/// Timeout for field validation, in milliseconds (default 1000).
pub fn field_validation_timeout_ms(env_value: Option<u64>) -> (r: u64)
    ensures
        r == match env_value { Some(v) => v, None => 1000 },
{
    match env_value { Some(v) => v, None => 1000 }
}

/// Maximum number of field validation retries (default 1).
pub fn field_validation_max_retries(env_value: Option<usize>) -> (r: usize)
    ensures
        r == match env_value { Some(v) => v, None => 1 },
{
    match env_value { Some(v) => v, None => 1 }
}

/// The submit button selectors, in the order they are tried.
pub open spec fn fallback_selectors() -> Seq<Seq<char>> {
    seq![
        "button[data-client-id='form_submit_btn']"@,
        "button:has-text('Submit')"@,
        "button:has-text('Save')"@,
        "button:has-text('Send')"@,
        "input[type='submit']"@,
        "button[type='submit']"@,
        "button.submit"@,
        "button[aria-label*='submit']"@,
        "button[aria-label*='save']"@,
        "button[title*='submit']"@,
        "button[title*='save']"@,
    ]
}

/// Selectors tried in order to find the submit button, the primary one
/// first; no selector is tried twice.
pub fn submit_button_fallback_locators() -> (r: Vec<&'static str>)
    ensures
        r@.len() == 11,
        r@[0]@ == SUBMIT_BUTTON_LOCATOR@,
        forall|i: int| 0 <= i < r@.len() ==> (#[trigger] r@[i])@ == fallback_selectors()[i],
        forall|i: int, j: int| 0 <= i < j < r@.len() ==> (#[trigger] r@[i])@ != (#[trigger] r@[j])@,
{
    proof {
        reveal_strlit("button[data-client-id='form_submit_btn']");
        reveal_strlit("button:has-text('Submit')");
        reveal_strlit("button:has-text('Save')");
        reveal_strlit("button:has-text('Send')");
        reveal_strlit("input[type='submit']");
        reveal_strlit("button[type='submit']");
        reveal_strlit("button.submit");
        reveal_strlit("button[aria-label*='submit']");
        reveal_strlit("button[aria-label*='save']");
        reveal_strlit("button[title*='submit']");
        reveal_strlit("button[title*='save']");
    }
    let r = vec![
        "button[data-client-id='form_submit_btn']",
        "button:has-text('Submit')",
        "button:has-text('Save')",
        "button:has-text('Send')",
        "input[type='submit']",
        "button[type='submit']",
        "button.submit",
        "button[aria-label*='submit']",
        "button[aria-label*='save']",
        "button[title*='submit']",
        "button[title*='save']",
    ];
    assert forall|i: int, j: int| 0 <= i < j < r@.len() implies (#[trigger] r@[i])@ != (#[trigger] r@[j])@ by {
        if r@[i]@.len() == r@[j]@.len() {
            assert(r@[i]@ != r@[j]@) by {
                if i == 4 || j == 4 {
                    assert(r@[i]@[0] != r@[j]@[0]);
                } else if i == 0 || j == 0 {
                    assert(r@[i]@[7] != r@[j]@[7]);
                } else {
                    assert(r@[i]@[r@[i]@.len() - 2] != r@[j]@[r@[j]@.len() - 2]
                        || r@[i]@[r@[i]@.len() - 3] != r@[j]@[r@[j]@.len() - 3]
                        || r@[i]@[7] != r@[j]@[7] || r@[i]@[8] != r@[j]@[8]);
                }
            }
        }
    }
    r
}

/// Page text fragments that indicate a successful submission.
pub fn submit_success_indicators() -> (r: Vec<&'static str>)
    ensures
        r@.len() == 5,
        r@[0]@ == "submissionId"@,
        r@[1]@ == "confirmation"@,
        r@[2]@ == "success! we've captured your submission"@,
        r@[3]@ == "form submitted successfully"@,
        r@[4]@ == "thank you for your submission"@,
{
    vec![
        "submissionId",
        "confirmation",
        "success! we've captured your submission",
        "form submitted successfully",
        "thank you for your submission",
    ]
}

/// CSS hooks that indicate a successful submission.
pub fn submit_success_selectors() -> (r: Vec<&'static str>)
    ensures
        r@.len() == 6,
        r@[0]@ == ".submission-success"@,
        r@[5]@ == ".alert-success"@,
{
    vec![
        ".submission-success",
        ".form-success",
        "[data-submission-status='success']",
        ".confirmation-message",
        ".success-message",
        ".alert-success",
    ]
}

/// Kind of a login step.
#[derive(Debug, Clone, Copy, PartialEq, Eq, Structural)]
pub enum LoginAction {
    Wait,
    Input,
    Click,
}

/// One step of the login sequence.
#[derive(Debug, Clone)]
pub struct LoginStep {
    pub name: String,
    pub action: LoginAction,
    pub locator: Option<String>,
    pub element_selector: Option<String>,
    pub value_key: Option<String>,
    pub wait_condition: Option<String>,
    pub expects_navigation: bool,
    pub optional: bool,
    pub sensitive: bool,
}

/// A step is complete for its kind: a wait has a selector, an input a
/// locator and a value key naming `email` or `password`, a click a locator.
pub open spec fn step_well_formed(s: LoginStep) -> bool {
    match s.action {
        LoginAction::Wait => s.element_selector.is_some(),
        LoginAction::Input => s.locator.is_some() && match s.value_key {
            Some(k) => k@ == "email"@ || k@ == "password"@,
            None => false,
        },
        LoginAction::Click => s.locator.is_some(),
    }
}

/// The kind and flags of each configured login step, in order:
/// (action, optional, sensitive, expects_navigation).
pub open spec fn login_step_shapes() -> Seq<(LoginAction, bool, bool, bool)> {
    seq![
        (LoginAction::Wait, true, false, false),
        (LoginAction::Input, false, true, false),
        (LoginAction::Click, true, false, true),
        (LoginAction::Wait, true, false, false),
        (LoginAction::Click, true, false, true),
        (LoginAction::Wait, false, false, false),
        (LoginAction::Input, false, true, false),
        (LoginAction::Click, true, false, true),
        (LoginAction::Wait, false, false, false),
        (LoginAction::Input, false, true, false),
        (LoginAction::Click, true, false, true),
        (LoginAction::Wait, true, false, false),
        (LoginAction::Click, true, false, true),
        (LoginAction::Wait, false, false, false),
    ]
}

fn step(
    name: &str,
    action: LoginAction,
    target: &str,
    value_key: Option<&str>,
    expects_navigation: bool,
    optional: bool,
    sensitive: bool,
) -> (r: LoginStep)
    ensures
        r.name@ == name@,
        r.action == action,
        action == LoginAction::Wait ==> r.element_selector.is_some() && r.element_selector.unwrap()@ == target@,
        action != LoginAction::Wait ==> r.locator.is_some() && r.locator.unwrap()@ == target@,
        r.value_key.is_some() == value_key.is_some(),
        value_key.is_some() ==> r.value_key.unwrap()@ == value_key.unwrap()@,
        r.expects_navigation == expects_navigation,
        r.optional == optional,
        r.sensitive == sensitive,
{
    let is_wait = match action { LoginAction::Wait => true, _ => false };
    LoginStep {
        name: owned(name),
        action,
        locator: if is_wait { None } else { Some(owned(target)) },
        element_selector: if is_wait { Some(owned(target)) } else { None },
        value_key: match value_key { Some(k) => Some(owned(k)), None => None },
        wait_condition: if is_wait { Some(owned("visible")) } else { None },
        expects_navigation,
        optional,
        sensitive,
    }
}

/// The login sequence, in execution order.
pub fn login_steps() -> (r: Vec<LoginStep>)
    ensures
        r@.len() == login_step_shapes().len(),
        forall|i: int| 0 <= i < r@.len() ==> step_well_formed(#[trigger] r@[i]),
        forall|i: int| 0 <= i < r@.len() ==> (#[trigger] r@[i]).action == login_step_shapes()[i].0
            && r@[i].optional == login_step_shapes()[i].1
            && r@[i].sensitive == login_step_shapes()[i].2
            && r@[i].expects_navigation == login_step_shapes()[i].3,
{
    let w = LoginAction::Wait;
    let t = LoginAction::Input;
    let c = LoginAction::Click;
    let r = vec![
        step("Wait for Login Form", w, "#loginEmail", None, false, true, false),
        step("Email Input", t, "#loginEmail", Some("email"), false, false, true),
        step("Continue", c, "#formControl", None, true, true, false),
        step("Wait for SSO Choice", w, "a.clsJspButtonWide", None, false, true, false),
        step("Login with company account", c, "a.clsJspButtonWide", None, true, true, false),
        step("Wait for AAD Email", w, "#i0116", None, false, false, false),
        step("AAD Email", t, "#i0116", Some("email"), false, false, true),
        step("AAD Next", c, "#idSIButton9", None, true, true, false),
        step("Wait for Password", w, "#passwordInput", None, false, false, false),
        step("Password Input", t, "#passwordInput", Some("password"), false, false, true),
        step("Password Submit", c, "#submitButton", None, true, true, false),
        step("Stay Signed In Prompt", w, "#idBtn_Back", None, false, true, false),
        step("Stay Signed In \u{2014} No", c, "#idBtn_Back", None, true, true, false),
        step("Wait for Form Page Ready", w, "input[aria-label='Project']", None, false, false, false),
    ];
    assert(forall|i: int| 0 <= i < r@.len() ==> step_well_formed(#[trigger] r@[i]));
    r
}

/// How one form field is located and treated.
#[derive(Debug, Clone)]
pub struct FieldDefinition {
    pub label: String,
    pub locator: String,
    pub optional: bool,
    pub inject_value: bool,
}

fn field(label: &str, locator: &str, optional: bool) -> (r: FieldDefinition)
    ensures
        r.label@ == label@,
        r.locator@ == locator@,
        r.optional == optional,
        r.inject_value,
{
    FieldDefinition { label: owned(label), locator: owned(locator), optional, inject_value: true }
}

/// The keys of the configured fields, in configuration order.
pub open spec fn field_keys() -> Seq<Seq<char>> {
    seq!["project_code"@, "date"@, "hours"@, "task_description"@, "tool"@, "detail_code"@]
}

/// The configured fields, in configuration order:
/// (key, label, locator, optional).
pub open spec fn field_table() -> Seq<(Seq<char>, Seq<char>, Seq<char>, bool)> {
    seq![
        ("project_code"@, "Project"@, "input[aria-label='Project']"@, false),
        ("date"@, "Date"@, "input[placeholder='mm/dd/yyyy']"@, false),
        ("hours"@, "Hours"@, "input[aria-label='Hours']"@, false),
        ("task_description"@, "Task Description"@, "role=textbox[name='Task Description']"@, false),
        ("tool"@, "Tool"@, "input[aria-label*='Tool']"@, true),
        ("detail_code"@, "Detail Charge Code"@, "input[aria-label='Detail Charge Code']"@, true),
    ]
}

/// Definitions of the form fields, keyed by the row value they receive.
/// Only `tool` and `detail_code` are optional.
pub fn field_definitions() -> (r: Vec<(&'static str, FieldDefinition)>)
    ensures
        r@.len() == field_keys().len(),
        forall|i: int| 0 <= i < r@.len() ==> (#[trigger] r@[i]).0@ == field_keys()[i],
        forall|i: int| 0 <= i < r@.len() ==> ((#[trigger] r@[i]).1.optional <==> i >= 4),
        forall|i: int| 0 <= i < r@.len() ==> (#[trigger] r@[i]).0@ == field_table()[i].0
            && r@[i].1.label@ == field_table()[i].1 && r@[i].1.locator@ == field_table()[i].2
            && r@[i].1.optional == field_table()[i].3 && r@[i].1.inject_value,
{
    vec![
        ("project_code", field("Project", "input[aria-label='Project']", false)),
        ("date", field("Date", "input[placeholder='mm/dd/yyyy']", false)),
        ("hours", field("Hours", "input[aria-label='Hours']", false)),
        ("task_description", field("Task Description", "role=textbox[name='Task Description']", false)),
        ("tool", field("Tool", "input[aria-label*='Tool']", true)),
        ("detail_code", field("Detail Charge Code", "input[aria-label='Detail Charge Code']", true)),
    ]
}

/// The order in which fields are filled.
pub open spec fn field_order_keys() -> Seq<Seq<char>> {
    seq!["project_code"@, "date"@, "hours"@, "tool"@, "task_description"@, "detail_code"@]
}

/// Order in which fields are filled, independent of configuration order.
pub fn field_order() -> (r: Vec<&'static str>)
    ensures
        r@.len() == field_order_keys().len(),
        forall|i: int| 0 <= i < r@.len() ==> (#[trigger] r@[i])@ == field_order_keys()[i],
{
    vec!["project_code", "date", "hours", "tool", "task_description", "detail_code"]
}

} // verus!
