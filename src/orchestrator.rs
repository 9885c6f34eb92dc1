//! The submission run: one login, one form navigation, a fill per row, one
//! submit, and the per-row outcome.
use vstd::prelude::*;
use crate::login::{auth_text, AuthError};
use crate::webform::{webform_text, WebformError};
use crate::text::owned;

verus! {

/// One timesheet line handed to the run.
#[derive(Debug, Clone)]
pub struct TimesheetRow {
    pub date: String,
    pub time_in: String,
    pub time_out: String,
    pub project: String,
    pub tool: Option<String>,
    pub charge_code: Option<String>,
    pub task_description: String,
}

/// Where the vendor form lives.
#[derive(Debug, Clone)]
pub struct FormConfig {
    pub base_url: String,
    pub form_id: String,
    pub submission_endpoint: String,
}

/// The outcome of one run: which rows were filled and submitted, and the
/// error of every other row.
#[derive(Debug)]
pub struct AutomationResult {
    pub success: bool,
    pub submitted_indices: Vec<usize>,
    pub errors: Vec<(usize, String)>,
    pub total_rows: usize,
    pub success_count: usize,
    pub failure_count: usize,
}

pub open spec fn error_rows(errors: Seq<(usize, String)>) -> Seq<usize> {
    errors.map_values(|e: (usize, String)| e.0)
}

/// Candidate Chrome locations, in the order they are tried.
pub fn chrome_candidate_paths() -> (r: Vec<&'static str>)
    ensures
        r@.len() == 2,
        r@[0]@ == "C:\\Program Files\\Google\\Chrome\\Application\\chrome.exe"@,
        r@[1]@ == "C:\\Program Files (x86)\\Google\\Chrome\\Application\\chrome.exe"@,
{
    vec![
        "C:\\Program Files\\Google\\Chrome\\Application\\chrome.exe",
        "C:\\Program Files (x86)\\Google\\Chrome\\Application\\chrome.exe",
    ]
}

/// Which Chrome candidate to launch, given whether each candidate exists:
/// the first that does.
pub fn find_chrome_path(exists: &Vec<bool>) -> (r: Result<usize, String>)
    ensures
        match r {
            Ok(i) => i < exists@.len() && exists@[i as int] && forall|k: int| 0 <= k < i ==> !exists@[k],
            Err(e) => (forall|k: int| 0 <= k < exists@.len() ==> !exists@[k])
                && e@ == "Chrome not found - enterprise environment should have Chrome installed"@,
        },
{
    let mut i: usize = 0;
    while i < exists.len()
        invariant
            i <= exists@.len(),
            forall|k: int| 0 <= k < i ==> !exists@[k],
        decreases exists@.len() - i,
    {
        if exists[i] {
            return Ok(i);
        }
        i = i + 1;
    }
    Err(owned("Chrome not found - enterprise environment should have Chrome installed"))
}

/// Whether some Chrome candidate exists.
pub fn is_chrome_available(exists: &Vec<bool>) -> (r: bool)
    ensures
        r == exists|k: int| 0 <= k < exists@.len() && exists@[k],
{
    match find_chrome_path(exists) {
        Ok(_) => true,
        Err(_) => false,
    }
}

impl AutomationResult {
    /// The form is submitted once, after the fills, when submitting is
    /// enabled and at least one row was filled.
    pub fn should_submit(&self, submit_enabled: bool) -> (r: bool)
        ensures
            r == (submit_enabled && self.submitted_indices@.len() > 0),
    {
        submit_enabled && self.submitted_indices.len() > 0
    }

    /// The counters and flag agree with the lists.
    pub open spec fn consistent(&self) -> bool {
        &&& self.success_count == self.submitted_indices@.len()
        &&& self.failure_count == self.errors@.len()
        &&& self.success == (self.submitted_indices@.len() > 0)
    }

    /// The result of a run over no rows: nothing to do, which is a success.
    pub fn empty_run() -> (r: AutomationResult)
        ensures
            r.success,
            r.submitted_indices@.len() == 0,
            r.errors@.len() == 0,
            r.total_rows == 0,
            r.success_count == 0,
            r.failure_count == 0,
    {
        AutomationResult {
            success: true,
            submitted_indices: Vec::new(),
            errors: Vec::new(),
            total_rows: 0,
            success_count: 0,
            failure_count: 0,
        }
    }

    /// A run that has not filled any row yet.
    pub fn start(total_rows: usize) -> (r: AutomationResult)
        ensures
            r.consistent(),
            r.total_rows == total_rows,
            r.submitted_indices@.len() == 0,
            r.errors@.len() == 0,
    {
        AutomationResult {
            success: false,
            submitted_indices: Vec::new(),
            errors: Vec::new(),
            total_rows,
            success_count: 0,
            failure_count: 0,
        }
    }

    /// Every row failed with the same root cause, before any fill.
    pub fn all_failed(total_rows: usize, message: &str) -> (r: AutomationResult)
        ensures
            r.consistent(),
            !r.success,
            r.total_rows == total_rows,
            r.submitted_indices@.len() == 0,
            r.errors@.len() == total_rows,
            forall|i: int| 0 <= i < total_rows ==> (#[trigger] r.errors@[i]).0 == i && r.errors@[i].1@ == message@,
    {
        let mut errors: Vec<(usize, String)> = Vec::new();
        let mut i: usize = 0;
        while i < total_rows
            invariant
                i <= total_rows,
                errors@.len() == i,
                forall|k: int| 0 <= k < i ==> (#[trigger] errors@[k]).0 == k && errors@[k].1@ == message@,
            decreases total_rows - i,
        {
            errors.push((i, owned(message)));
            i = i + 1;
        }
        AutomationResult {
            success: false,
            submitted_indices: Vec::new(),
            errors,
            total_rows,
            success_count: 0,
            failure_count: total_rows,
        }
    }

    /// Login failed: every row fails with the authentication error.
    pub fn login_failed(total_rows: usize, error: &AuthError) -> (r: AutomationResult)
        ensures
            r.consistent(),
            !r.success,
            r.total_rows == total_rows,
            r.submitted_indices@.len() == 0,
            r.errors@.len() == total_rows,
            forall|i: int| 0 <= i < total_rows ==> (#[trigger] r.errors@[i]).0 == i
                && r.errors@[i].1@ == "Authentication failed: "@ + auth_text(*error),
    {
        let mut m = owned("Authentication failed: ");
        let e = error.message();
        m.append(e.as_str());
        Self::all_failed(total_rows, m.as_str())
    }

    /// Opening the form failed: every row fails with that error.
    pub fn navigation_failed(total_rows: usize, error: &WebformError) -> (r: AutomationResult)
        ensures
            r.consistent(),
            !r.success,
            r.total_rows == total_rows,
            r.submitted_indices@.len() == 0,
            r.errors@.len() == total_rows,
            forall|i: int| 0 <= i < total_rows ==> (#[trigger] r.errors@[i]).0 == i
                && r.errors@[i].1@ == "Failed to navigate to form: "@ + webform_text(*error),
    {
        let mut m = owned("Failed to navigate to form: ");
        let e = error.message();
        m.append(e.as_str());
        Self::all_failed(total_rows, m.as_str())
    }

    /// Records the fill outcome of row `index`: a filled row is tentatively
    /// submitted, a failed one gets its error; other rows are unaffected.
    pub fn record_fill(&mut self, index: usize, outcome: Result<(), WebformError>)
        requires
            old(self).consistent(),
        ensures
            final(self).consistent(),
            final(self).total_rows == old(self).total_rows,
            outcome is Ok ==> final(self).submitted_indices@ == old(self).submitted_indices@.push(index)
                && final(self).errors@ == old(self).errors@,
            outcome is Err ==> final(self).submitted_indices@ == old(self).submitted_indices@
                && error_rows(final(self).errors@) == error_rows(old(self).errors@).push(index)
                && final(self).errors@.len() == old(self).errors@.len() + 1
                && final(self).errors@.subrange(0, old(self).errors@.len() as int) == old(self).errors@
                && final(self).errors@.last().1@ == "Failed to fill row: "@ + webform_text(outcome->Err_0),
    {
        match outcome {
            Ok(()) => {
                self.submitted_indices.push(index);
            },
            Err(e) => {
                let mut m = owned("Failed to fill row: ");
                let t = e.message();
                m.append(t.as_str());
                let ghost before = self.errors@;
                self.errors.push((index, m));
                assert(error_rows(self.errors@) =~= error_rows(before).push(index));
                assert(self.errors@.subrange(0, before.len() as int) =~= before);
            },
        }
        self.success_count = self.submitted_indices.len();
        self.failure_count = self.errors.len();
        self.success = self.submitted_indices.len() > 0;
    }

    /// Records the outcome of the single submit. When it failed, every
    /// tentatively filled row becomes an error, in order, and the filled list
    /// is cleared: a fill without a successful submit has no effect.
    pub fn record_submit(&mut self, outcome: Result<(), WebformError>)
        requires
            old(self).consistent(),
        ensures
            final(self).consistent(),
            final(self).total_rows == old(self).total_rows,
            outcome is Ok ==> final(self).submitted_indices@ == old(self).submitted_indices@
                && final(self).errors@ == old(self).errors@,
            outcome is Err ==> final(self).submitted_indices@.len() == 0 && !final(self).success
                && error_rows(final(self).errors@) == error_rows(old(self).errors@) + old(self).submitted_indices@
                && final(self).errors@.len() == old(self).errors@.len() + old(self).submitted_indices@.len()
                && final(self).errors@.subrange(0, old(self).errors@.len() as int) == old(self).errors@
                && forall|k: int| old(self).errors@.len() <= k < final(self).errors@.len()
                    ==> (#[trigger] final(self).errors@[k]).1@ == "Failed to submit form: "@ + webform_text(outcome->Err_0),
    {
        match outcome {
            Ok(()) => {},
            Err(e) => {
                let mut m = owned("Failed to submit form: ");
                let t = e.message();
                m.append(t.as_str());
                let ghost before = self.errors@;
                let ghost filled = self.submitted_indices@;
                let mut i: usize = 0;
                while i < self.submitted_indices.len()
                    invariant
                        self.total_rows == old(self).total_rows,
                        i <= self.submitted_indices@.len(),
                        self.submitted_indices@ == filled,
                        error_rows(self.errors@) == error_rows(before) + filled.subrange(0, i as int),
                        self.errors@.len() == before.len() + i,
                        self.errors@.subrange(0, before.len() as int) == before,
                        m@ == "Failed to submit form: "@ + webform_text(e),
                        forall|k: int| before.len() <= k < self.errors@.len()
                            ==> (#[trigger] self.errors@[k]).1@ == m@,
                    decreases self.submitted_indices@.len() - i,
                {
                    let idx = self.submitted_indices[i];
                    let ghost prev = self.errors@;
                    self.errors.push((idx, owned(m.as_str())));
                    assert(error_rows(self.errors@) =~= error_rows(prev).push(idx));
                    assert(self.errors@.subrange(0, before.len() as int) =~= prev.subrange(0, before.len() as int));
                    assert(filled.subrange(0, i + 1) =~= filled.subrange(0, i as int).push(idx));
                    i = i + 1;
                }
                assert(filled.subrange(0, i as int) =~= filled);
                self.submitted_indices = Vec::new();
            },
        }
        self.success_count = self.submitted_indices.len();
        self.failure_count = self.errors.len();
        self.success = self.submitted_indices.len() > 0;
    }
}

/// Lifecycle of the browser session a run owns.
#[derive(Debug, Clone, Copy, PartialEq, Eq, Structural)]
pub enum SessionPhase {
    NotStarted,
    Started,
    Running,
    Closed,
}

/// Whether the browser still has to be released in this phase.
pub fn needs_release(phase: SessionPhase) -> (r: bool)
    ensures
        r == (phase == SessionPhase::Started || phase == SessionPhase::Running),
{
    match phase {
        SessionPhase::Started | SessionPhase::Running => true,
        _ => false,
    }
}

} // verus!
