//! The login interpreter: a state machine over the configured step sequence.
//! The caller performs each page action and reports its outcome back.
use vstd::prelude::*;
use vstd::string::*;
use crate::config::{LoginAction, LoginStep};
use crate::text::{owned, same_text};

verus! {

/// Why a login did not complete.
#[derive(Debug)]
pub enum AuthError {
    NavigationFailed(String),
    ElementNotFound(String),
    CredentialsFailed(String),
}

/// The human-readable description of an authentication error.
pub open spec fn auth_text(e: AuthError) -> Seq<char> {
    match e {
        AuthError::NavigationFailed(m) => "Navigation failed: "@ + m@,
        AuthError::ElementNotFound(m) => "Element not found: "@ + m@,
        AuthError::CredentialsFailed(m) => "Credentials failed: "@ + m@,
    }
}

impl AuthError {
    /// Human-readable description.
    pub fn message(&self) -> (r: String)
        ensures
            r@ == auth_text(*self),
    {
        let (mut out, m) = match self {
            AuthError::NavigationFailed(m) => (owned("Navigation failed: "), m),
            AuthError::ElementNotFound(m) => (owned("Element not found: "), m),
            AuthError::CredentialsFailed(m) => (owned("Credentials failed: "), m),
        };
        out.append(m.as_str());
        out
    }
}

/// Pause before waiting for an element, in milliseconds.
pub const WAIT_STEP_PAUSE_MS: u64 = 2000;

/// Pause before an input or a click, in milliseconds.
pub const ACTION_PAUSE_MS: u64 = 500;

/// Settle period after a click that navigates, in milliseconds.
pub const NAVIGATION_SETTLE_MS: u64 = 3000;

/// Delay after every step, whatever its outcome, in milliseconds.
pub const INTER_STEP_DELAY_MS: u64 = 300;

/// Delay before retrying the initial page load, in milliseconds.
pub const NAVIGATION_RETRY_DELAY_MS: u64 = 2000;

/// The page work one step asks for.
#[derive(Debug)]
pub enum StepPlan {
    /// Wait, then look for `selector`.
    Wait { selector: String, pause_ms: u64 },
    /// Wait, find `locator`, click it and type `value`. `logged_value` is what
    /// a log may show of the value.
    Input { locator: String, value: String, logged_value: String, pause_ms: u64 },
    /// Wait, find `locator` and click it, then let the page settle.
    Click { locator: String, pause_ms: u64, settle_ms: u64 },
}

/// Where a login run stands.
#[derive(Debug)]
pub enum LoginState {
    /// Loading the base page; `failed_attempts` loads have failed so far.
    Navigating { failed_attempts: usize },
    /// About to run step `index`.
    AtStep { index: usize },
    LoggedIn,
    Failed { error: AuthError },
}

/// Runs the login flow against a base URL.
pub struct LoginManager {
    pub base_url: String,
    pub max_retries: usize,
}

pub open spec fn err_is(r: Result<StepPlan, AuthError>, kind: int, msg: Seq<char>) -> bool {
    match r {
        Err(AuthError::NavigationFailed(m)) => kind == 0 && m@ == msg,
        Err(AuthError::ElementNotFound(m)) => kind == 1 && m@ == msg,
        Err(AuthError::CredentialsFailed(m)) => kind == 2 && m@ == msg,
        Ok(_) => false,
    }
}

/// The state that follows a finished step `index` of `n`.
pub open spec fn after_step_state(index: int, n: int, s: LoginState) -> bool {
    if index + 1 >= n {
        s is LoggedIn
    } else {
        s == (LoginState::AtStep { index: (index + 1) as usize })
    }
}

impl LoginManager {
    /// A manager that tries the initial page load up to three times.
    pub fn new(base_url: String) -> (r: Self)
        ensures
            r.base_url == base_url,
            r.max_retries == 3,
    {
        LoginManager { base_url, max_retries: 3 }
    }

    /// The page work for `step`, with the secret it types resolved from its
    /// value key. Fails when the step lacks its target or its key is missing
    /// or unknown.
    pub fn plan_step(&self, step: &LoginStep, email: &str, password: &str) -> (r: Result<StepPlan, AuthError>)
        ensures
            match step.action {
                LoginAction::Wait => match step.element_selector {
                    None => err_is(r, 1, "Wait step missing element_selector"@),
                    Some(sel) => r matches Ok(StepPlan::Wait { selector, pause_ms })
                        && selector@ == sel@ && pause_ms == WAIT_STEP_PAUSE_MS,
                },
                LoginAction::Input => match (step.locator, step.value_key) {
                    (None, _) => err_is(r, 1, "Input step missing locator"@),
                    (Some(_), None) => err_is(r, 2, "Input step missing value_key"@),
                    (Some(loc), Some(key)) => if key@ == "email"@ || key@ == "password"@ {
                        r matches Ok(StepPlan::Input { locator, value, logged_value, pause_ms })
                            && locator@ == loc@
                            && value@ == (if key@ == "email"@ { email@ } else { password@ })
                            && logged_value@ == (if step.sensitive { "<redacted>"@ } else { value@ })
                            && pause_ms == ACTION_PAUSE_MS
                    } else {
                        err_is(r, 2, "Unknown value_key: "@ + key@)
                    },
                },
                LoginAction::Click => match step.locator {
                    None => err_is(r, 1, "Click step missing locator"@),
                    Some(loc) => r matches Ok(StepPlan::Click { locator, pause_ms, settle_ms })
                        && locator@ == loc@ && pause_ms == ACTION_PAUSE_MS
                        && settle_ms == (if step.expects_navigation { NAVIGATION_SETTLE_MS } else { 0 }),
                },
            },
    {
        match step.action {
            LoginAction::Wait => match &step.element_selector {
                None => Err(AuthError::ElementNotFound(owned("Wait step missing element_selector"))),
                Some(sel) => Ok(StepPlan::Wait { selector: owned(sel.as_str()), pause_ms: WAIT_STEP_PAUSE_MS }),
            },
            LoginAction::Input => {
                let loc = match &step.locator {
                    None => {
                        return Err(AuthError::ElementNotFound(owned("Input step missing locator")));
                    },
                    Some(l) => l,
                };
                let key = match &step.value_key {
                    None => {
                        return Err(AuthError::CredentialsFailed(owned("Input step missing value_key")));
                    },
                    Some(k) => k,
                };
                let value = if same_text(key.as_str(), "email") {
                    owned(email)
                } else if same_text(key.as_str(), "password") {
                    owned(password)
                } else {
                    let mut m = owned("Unknown value_key: ");
                    m.append(key.as_str());
                    return Err(AuthError::CredentialsFailed(m));
                };
                let logged_value = if step.sensitive { owned("<redacted>") } else { owned(value.as_str()) };
                Ok(StepPlan::Input { locator: owned(loc.as_str()), value, logged_value, pause_ms: ACTION_PAUSE_MS })
            },
            LoginAction::Click => match &step.locator {
                None => Err(AuthError::ElementNotFound(owned("Click step missing locator"))),
                Some(loc) => Ok(StepPlan::Click {
                    locator: owned(loc.as_str()),
                    pause_ms: ACTION_PAUSE_MS,
                    settle_ms: if step.expects_navigation { NAVIGATION_SETTLE_MS } else { 0 },
                }),
            },
        }
    }

    /// Where a run over `step_count` steps begins: loading the base page, or,
    /// with no load attempts allowed, straight at the steps.
    pub fn initial_state(&self, step_count: usize) -> (r: LoginState)
        ensures
            self.max_retries > 0 ==> r == (LoginState::Navigating { failed_attempts: 0 }),
            self.max_retries == 0 ==> after_step_state(-1, step_count as int, r),
    {
        if self.max_retries > 0 {
            LoginState::Navigating { failed_attempts: 0 }
        } else if step_count == 0 {
            LoginState::LoggedIn
        } else {
            LoginState::AtStep { index: 0 }
        }
    }

    /// Delay before the next page-load attempt.
    pub fn navigation_delay_ms(&self, failed_attempts: usize) -> (r: u64)
        ensures
            r == (if failed_attempts == 0 { 0 } else { NAVIGATION_RETRY_DELAY_MS }),
    {
        if failed_attempts == 0 { 0 } else { NAVIGATION_RETRY_DELAY_MS }
    }

    /// The next state, given the outcome of the work the current state asked
    /// for. A page load is retried until `max_retries` loads have failed; a
    /// failed step aborts the login unless it is optional; the run never
    /// goes back to an earlier step.
    pub fn advance(&self, steps: &Vec<LoginStep>, state: LoginState, outcome: Result<(), AuthError>) -> (r: LoginState)
        requires
            state matches LoginState::AtStep { index } ==> index < steps@.len(),
        ensures
            match state {
                LoginState::Navigating { failed_attempts } => match outcome {
                    Ok(()) => after_step_state(-1, steps@.len() as int, r),
                    Err(e) => if failed_attempts as int + 1 >= self.max_retries as int {
                        r == (LoginState::Failed { error: e })
                    } else {
                        r == (LoginState::Navigating { failed_attempts: (failed_attempts + 1) as usize })
                    },
                },
                LoginState::AtStep { index } => match outcome {
                    Ok(()) => after_step_state(index as int, steps@.len() as int, r),
                    Err(e) => if steps@[index as int].optional {
                        after_step_state(index as int, steps@.len() as int, r)
                    } else {
                        r == (LoginState::Failed { error: e })
                    },
                },
                LoginState::LoggedIn => r is LoggedIn,
                LoginState::Failed { error } => r == (LoginState::Failed { error }),
            },
    {
        match state {
            LoginState::Navigating { failed_attempts } => match outcome {
                Ok(()) => self.initial_steps(steps.len()),
                Err(e) => {
                    if failed_attempts >= self.max_retries || self.max_retries - failed_attempts <= 1 {
                        LoginState::Failed { error: e }
                    } else {
                        LoginState::Navigating { failed_attempts: failed_attempts + 1 }
                    }
                },
            },
            LoginState::AtStep { index } => {
                let proceed = match outcome {
                    Ok(()) => true,
                    Err(_) => steps[index].optional,
                };
                if proceed {
                    if index >= steps.len() - 1 {
                        LoginState::LoggedIn
                    } else {
                        LoginState::AtStep { index: index + 1 }
                    }
                } else {
                    match outcome {
                        Err(e) => LoginState::Failed { error: e },
                        Ok(()) => LoginState::LoggedIn,
                    }
                }
            },
            LoginState::LoggedIn => LoginState::LoggedIn,
            LoginState::Failed { error } => LoginState::Failed { error },
        }
    }

    fn initial_steps(&self, step_count: usize) -> (r: LoginState)
        ensures
            after_step_state(-1, step_count as int, r),
    {
        if step_count == 0 {
            LoginState::LoggedIn
        } else {
            LoginState::AtStep { index: 0 }
        }
    }
}

} // verus!
