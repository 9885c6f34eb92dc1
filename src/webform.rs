//! The webform filler: derived values, the per-row fill plan, dropdown
//! handling, and the submit and verification decisions. The caller performs
//! the page work that each decision names.
use vstd::prelude::*;
use vstd::string::*;
use crate::clock::{clock_minutes, hours_text, parse_time_to_minutes, format_hours};
use crate::config::{field_definitions, field_keys, field_order, field_order_keys, field_table, FieldDefinition};
use crate::orchestrator::TimesheetRow;
use crate::text::{contains_seq, contains_text, lower_of, lowercase, owned, same_text};

verus! {

/// Why filling or submitting the form did not succeed.
#[derive(Debug)]
pub enum WebformError {
    ElementNotFound(String),
    FillFailed(String),
    SubmissionFailed(String),
}

/// The human-readable description of a form error.
pub open spec fn webform_text(e: WebformError) -> Seq<char> {
    match e {
        WebformError::ElementNotFound(m) => "Element not found: "@ + m@,
        WebformError::FillFailed(m) => "Fill failed: "@ + m@,
        WebformError::SubmissionFailed(m) => "Submission failed: "@ + m@,
    }
}

impl WebformError {
    /// Human-readable description.
    pub fn message(&self) -> (r: String)
        ensures
            r@ == webform_text(*self),
    {
        let (mut out, m) = match self {
            WebformError::ElementNotFound(m) => (owned("Element not found: "), m),
            WebformError::FillFailed(m) => (owned("Fill failed: "), m),
            WebformError::SubmissionFailed(m) => (owned("Submission failed: "), m),
        };
        out.append(m.as_str());
        out
    }
}

/// Settle period after opening the form, in milliseconds.
pub const FORM_SETTLE_MS: u64 = 3000;

/// Pause before filling a field, in milliseconds.
pub const FIELD_PAUSE_MS: u64 = 300;

/// Delay after every field, in milliseconds.
pub const INTER_FIELD_DELAY_MS: u64 = 200;

/// Settle period after a submit click, in milliseconds.
pub const SUBMIT_SETTLE_MS: u64 = 3000;

/// Keys pressed, in order, to confirm a type-ahead dropdown, each after the
/// pause that precedes it (milliseconds), with a final pause after the last.
pub const DROPDOWN_OPEN_PAUSE_MS: u64 = 500;
pub const DROPDOWN_SELECT_PAUSE_MS: u64 = 200;
pub const DROPDOWN_CLOSE_PAUSE_MS: u64 = 300;

/// The keys that pick the first suggestion of a type-ahead dropdown.
pub fn dropdown_keys() -> (r: Vec<&'static str>)
    ensures
        r@.len() == 2,
        r@[0]@ == "ArrowDown"@,
        r@[1]@ == "Enter"@,
{
    vec!["ArrowDown", "Enter"]
}

/// A label names one of the vendor's type-ahead dropdowns.
pub open spec fn dropdown_label(label: Seq<char>) -> bool {
    contains_seq(lower_of(label), "project"@) || contains_seq(lower_of(label), "tool"@)
        || contains_seq(lower_of(label), "detail charge code"@)
}

/// One field to fill: where, with what, and how failure is treated.
#[derive(Debug)]
pub struct FieldFill {
    pub label: String,
    pub locator: String,
    pub value: String,
    pub optional: bool,
    pub dropdown: bool,
}

pub struct FillView {
    pub label: Seq<char>,
    pub locator: Seq<char>,
    pub value: Seq<char>,
    pub optional: bool,
}

impl View for FieldFill {
    type V = FillView;

    open spec fn view(&self) -> FillView {
        FillView { label: self.label@, locator: self.locator@, value: self.value@, optional: self.optional }
    }
}

/// A configured field: its key, label, locator and optionality.
pub struct DefView {
    pub key: Seq<char>,
    pub label: Seq<char>,
    pub locator: Seq<char>,
    pub optional: bool,
}

pub open spec fn def_view(d: (String, FieldDefinition)) -> DefView {
    DefView { key: d.0@, label: d.1.label@, locator: d.1.locator@, optional: d.1.optional }
}

/// Position of the first definition with key `key`.
pub open spec fn def_at(defs: Seq<DefView>, key: Seq<char>, i: int) -> bool {
    0 <= i < defs.len() && defs[i].key == key && forall|k: int| 0 <= k < i ==> (#[trigger] defs[k]).key != key
}

pub open spec fn has_def(defs: Seq<DefView>, key: Seq<char>) -> bool {
    exists|i: int| def_at(defs, key, i)
}

pub open spec fn the_def(defs: Seq<DefView>, key: Seq<char>) -> DefView {
    defs[choose|i: int| def_at(defs, key, i)]
}

/// The values a row supplies, by field key; `hours` is derived.
pub open spec fn row_value(row: TimesheetRow, hours: Seq<char>, key: Seq<char>) -> Option<Seq<char>> {
    if key == "project_code"@ {
        Some(row.project@)
    } else if key == "date"@ {
        Some(row.date@)
    } else if key == "hours"@ {
        Some(hours)
    } else if key == "task_description"@ {
        Some(row.task_description@)
    } else if key == "tool"@ {
        match row.tool { Some(t) => Some(t@), None => None }
    } else if key == "detail_code"@ {
        match row.charge_code { Some(c) => Some(c@), None => None }
    } else {
        None
    }
}

/// The fills for the first `n` keys of `order`: each key with a definition
/// and a value is filled; a required field without a value is an error
/// carrying its label; keys without a definition are skipped.
pub open spec fn plan_prefix(
    defs: Seq<DefView>,
    order: Seq<Seq<char>>,
    row: TimesheetRow,
    hours: Seq<char>,
    n: int,
) -> Result<Seq<FillView>, Seq<char>>
    decreases n,
{
    if n <= 0 {
        Ok(Seq::empty())
    } else {
        match plan_prefix(defs, order, row, hours, n - 1) {
            Err(l) => Err(l),
            Ok(p) => {
                let key = order[n - 1];
                if !has_def(defs, key) {
                    Ok(p)
                } else {
                    let d = the_def(defs, key);
                    match row_value(row, hours, key) {
                        Some(v) => Ok(p.push(FillView { label: d.label, locator: d.locator, value: v, optional: d.optional })),
                        None => if d.optional { Ok(p) } else { Err(d.label) },
                    }
                }
            },
        }
    }
}

proof fn lemma_plan_error_persists(
    defs: Seq<DefView>,
    order: Seq<Seq<char>>,
    row: TimesheetRow,
    hours: Seq<char>,
    n: int,
    m: int,
)
    requires
        n <= m,
        plan_prefix(defs, order, row, hours, n) is Err,
    ensures
        plan_prefix(defs, order, row, hours, m) == plan_prefix(defs, order, row, hours, n),
    decreases m - n,
{
    if n < m {
        lemma_plan_error_persists(defs, order, row, hours, n, m - 1);
    }
}

/// Fills one vendor form.
pub struct WebformFiller {
    pub form_id: String,
    pub field_defs: Vec<(String, FieldDefinition)>,
}

impl WebformFiller {
    pub open spec fn defs(&self) -> Seq<DefView> {
        self.field_defs@.map_values(|d: (String, FieldDefinition)| def_view(d))
    }

    /// A filler for form `form_id` with the configured field definitions.
    pub fn new(form_id: String) -> (r: Self)
        ensures
            r.form_id == form_id,
            r.defs().len() == field_keys().len(),
            forall|i: int| 0 <= i < field_keys().len() ==> (#[trigger] r.defs()[i]).key == field_keys()[i],
            forall|i: int| 0 <= i < field_table().len() ==> (#[trigger] r.defs()[i]) == (DefView {
                key: field_table()[i].0,
                label: field_table()[i].1,
                locator: field_table()[i].2,
                optional: field_table()[i].3,
            }),
    {
        let defs = field_definitions();
        let mut field_defs: Vec<(String, FieldDefinition)> = Vec::new();
        let mut i: usize = 0;
        while i < defs.len()
            invariant
                i <= defs@.len(),
                defs@.len() == field_keys().len(),
                forall|k: int| 0 <= k < defs@.len() ==> (#[trigger] defs@[k]).0@ == field_keys()[k],
                field_defs@.len() == i,
                forall|k: int| 0 <= k < i ==> (#[trigger] field_defs@[k]).0@ == field_keys()[k],
                forall|k: int| 0 <= k < defs@.len() ==> (#[trigger] defs@[k]).0@ == field_table()[k].0
                    && defs@[k].1.label@ == field_table()[k].1 && defs@[k].1.locator@ == field_table()[k].2
                    && defs@[k].1.optional == field_table()[k].3,
                forall|k: int| 0 <= k < i ==> def_view(#[trigger] field_defs@[k]) == (DefView {
                    key: field_table()[k].0,
                    label: field_table()[k].1,
                    locator: field_table()[k].2,
                    optional: field_table()[k].3,
                }),
            decreases defs@.len() - i,
        {
            let d = &defs[i];
            let def = FieldDefinition {
                label: owned(d.1.label.as_str()),
                locator: owned(d.1.locator.as_str()),
                optional: d.1.optional,
                inject_value: d.1.inject_value,
            };
            field_defs.push((owned(d.0), def));
            i = i + 1;
        }
        let r = WebformFiller { form_id, field_defs };
        assert forall|k: int| 0 <= k < field_keys().len() implies (#[trigger] r.defs()[k]).key == field_keys()[k] by {
            assert(r.defs()[k] == def_view(r.field_defs@[k]));
        }
        assert forall|k: int| 0 <= k < field_table().len() implies (#[trigger] r.defs()[k]) == (DefView {
            key: field_table()[k].0,
            label: field_table()[k].1,
            locator: field_table()[k].2,
            optional: field_table()[k].3,
        }) by {
            assert(r.defs()[k] == def_view(r.field_defs@[k]));
        }
        r
    }

    /// The form's address under `base_url`.
    pub fn form_url(&self, base_url: &str) -> (r: String)
        ensures
            r@ == base_url@ + "/"@ + self.form_id@,
    {
        let mut out = owned(base_url);
        proof { reveal_strlit("/"); }
        out.append("/");
        out.append(self.form_id.as_str());
        out
    }

    /// Hours between two `HH:MM` times, with two decimals. Malformed times,
    /// and an end before the start, are fill failures.
    pub fn calculate_hours(&self, time_in: &str, time_out: &str) -> (r: Result<String, WebformError>)
        ensures
            match (clock_minutes(time_in@), clock_minutes(time_out@)) {
                (Some(a), Some(b)) => if b < a {
                    r matches Err(WebformError::FillFailed(_))
                } else {
                    r matches Ok(s) && s@ == hours_text((b - a) as nat)
                },
                _ => r matches Err(WebformError::FillFailed(_)),
            },
    {
        let start = match parse_time_to_minutes(time_in) {
            Ok(m) => m,
            Err(e) => {
                return Err(WebformError::FillFailed(e));
            },
        };
        let end = match parse_time_to_minutes(time_out) {
            Ok(m) => m,
            Err(e) => {
                return Err(WebformError::FillFailed(e));
            },
        };
        proof {
            crate::clock::lemma_clock_minutes_in_day(time_in@);
            crate::clock::lemma_clock_minutes_in_day(time_out@);
        }
        if end < start {
            let mut m = owned("Time out (");
            m.append(time_out);
            m.append(") is before time in (");
            m.append(time_in);
            m.append(")");
            return Err(WebformError::FillFailed(m));
        }
        Ok(format_hours((end - start) as u32))
    }

    /// Whether `label` names a type-ahead dropdown (project, tool, detail
    /// charge code), in any letter case.
    pub fn is_dropdown_field(&self, label: &str) -> (r: bool)
        ensures
            r == dropdown_label(label@),
    {
        let lower = lowercase(label);
        contains_text(lower.as_str(), "project") || contains_text(lower.as_str(), "tool")
            || contains_text(lower.as_str(), "detail charge code")
    }

    fn find_def(&self, key: &str) -> (r: Option<usize>)
        ensures
            match r {
                Some(i) => def_at(self.defs(), key@, i as int),
                None => !has_def(self.defs(), key@),
            },
    {
        let mut i: usize = 0;
        while i < self.field_defs.len()
            invariant
                i <= self.field_defs@.len(),
                self.defs().len() == self.field_defs@.len(),
                forall|k: int| 0 <= k < i ==> (#[trigger] self.defs()[k]).key != key@,
            decreases self.field_defs@.len() - i,
        {
            assert(self.defs()[i as int] == def_view(self.field_defs@[i as int]));
            if same_text(self.field_defs[i].0.as_str(), key) {
                return Some(i);
            }
            i = i + 1;
        }
        proof {
            if has_def(self.defs(), key@) {
                let j = choose|j: int| def_at(self.defs(), key@, j);
                assert(self.defs()[j].key == key@);
            }
        }
        None
    }

    /// The fields to fill for `row`, in fill order. Fails when the hours
    /// cannot be derived or a required field has no value; nothing on the
    /// page is touched before this succeeds.
    pub fn fill_plan(&self, row: &TimesheetRow) -> (r: Result<Vec<FieldFill>, WebformError>)
        ensures
            match (clock_minutes(row.time_in@), clock_minutes(row.time_out@)) {
                (Some(a), Some(b)) => if b < a {
                    r matches Err(WebformError::FillFailed(_))
                } else {
                    match plan_prefix(self.defs(), field_order_keys(), *row, hours_text((b - a) as nat),
                        field_order_keys().len() as int) {
                        Ok(p) => r matches Ok(v) && v@.map_values(|f: FieldFill| f@) == p
                            && forall|i: int| 0 <= i < v@.len() ==> (#[trigger] v@[i]).dropdown == dropdown_label(v@[i].label@),
                        Err(label) => r matches Err(WebformError::FillFailed(m))
                            && m@ == "Required field '"@ + label + "' has no value"@,
                    }
                },
                _ => r matches Err(WebformError::FillFailed(_)),
            },
    {
        let hours = match self.calculate_hours(row.time_in.as_str(), row.time_out.as_str()) {
            Ok(h) => h,
            Err(e) => {
                return Err(e);
            },
        };
        let ghost hv = hours@;
        let order = field_order();
        let ghost ok_keys = field_order_keys();
        let mut fills: Vec<FieldFill> = Vec::new();
        let mut i: usize = 0;
        while i < order.len()
            invariant
                i <= order@.len(),
                order@.len() == ok_keys.len(),
                ok_keys == field_order_keys(),
                forall|k: int| 0 <= k < order@.len() ==> (#[trigger] order@[k])@ == ok_keys[k],
                hours@ == hv,
                clock_minutes(row.time_in@).is_some(),
                clock_minutes(row.time_out@).is_some(),
                clock_minutes(row.time_in@).unwrap() <= clock_minutes(row.time_out@).unwrap(),
                hv == hours_text((clock_minutes(row.time_out@).unwrap() - clock_minutes(row.time_in@).unwrap()) as nat),
                plan_prefix(self.defs(), ok_keys, *row, hv, i as int) matches Ok(p)
                    && fills@.map_values(|f: FieldFill| f@) == p,
                forall|k: int| 0 <= k < fills@.len() ==> (#[trigger] fills@[k]).dropdown == dropdown_label(fills@[k].label@),
            decreases order@.len() - i,
        {
            let key = order[i];
            assert(key@ == ok_keys[i as int]);
            let ghost prev = fills@;
            match self.find_def(key) {
                None => {},
                Some(j) => {
                    let def = &self.field_defs[j].1;
                    assert(self.defs()[j as int] == def_view(self.field_defs@[j as int]));
                    proof {
                        assert(def_at(self.defs(), key@, j as int));
                        let c = choose|c: int| def_at(self.defs(), key@, c);
                        assert(c == j as int);
                    }
                    let value: Option<&str> = if same_text(key, "project_code") {
                        Some(row.project.as_str())
                    } else if same_text(key, "date") {
                        Some(row.date.as_str())
                    } else if same_text(key, "hours") {
                        Some(hours.as_str())
                    } else if same_text(key, "task_description") {
                        Some(row.task_description.as_str())
                    } else if same_text(key, "tool") {
                        match &row.tool { Some(t) => Some(t.as_str()), None => None }
                    } else if same_text(key, "detail_code") {
                        match &row.charge_code { Some(c) => Some(c.as_str()), None => None }
                    } else {
                        None
                    };
                    match value {
                        Some(v) => {
                            let dropdown = self.is_dropdown_field(def.label.as_str());
                            fills.push(FieldFill {
                                label: owned(def.label.as_str()),
                                locator: owned(def.locator.as_str()),
                                value: owned(v),
                                optional: def.optional,
                                dropdown,
                            });
                            assert(fills@.map_values(|f: FieldFill| f@) =~= prev.map_values(|f: FieldFill| f@).push(fills@[i as int - (i as int - prev.len())]@));
                        },
                        None => {
                            if !def.optional {
                                let mut m = owned("Required field '");
                                m.append(def.label.as_str());
                                m.append("' has no value");
                                proof {
                                    assert(row_value(*row, hv, key@) is None);
                                    assert(the_def(self.defs(), key@) == self.defs()[j as int]);
                                    assert(plan_prefix(self.defs(), ok_keys, *row, hv, i + 1)
                                        == Err::<Seq<FillView>, Seq<char>>(def.label@));
                                    lemma_plan_error_persists(self.defs(), ok_keys, *row, hv, i + 1,
                                        ok_keys.len() as int);
                                }
                                return Err(WebformError::FillFailed(m));
                            }
                        },
                    }
                },
            }
            i = i + 1;
        }
        Ok(fills)
    }

    /// A field's outcome under the row's failure policy: an optional field's
    /// failure is tolerated, a required field's aborts the row.
    pub fn after_field(&self, fill: &FieldFill, outcome: Result<(), WebformError>) -> (r: Result<(), WebformError>)
        ensures
            fill.optional ==> r is Ok,
            !fill.optional ==> r == outcome,
    {
        if fill.optional { Ok(()) } else { outcome }
    }

    /// Which submit selector to click: the first that resolved on the page.
    pub fn choose_submit_button(&self, found: &Vec<bool>) -> (r: Option<usize>)
        ensures
            match r {
                Some(i) => i < found@.len() && found@[i as int] && forall|k: int| 0 <= k < i ==> !found@[k],
                None => forall|k: int| 0 <= k < found@.len() ==> !found@[k],
            },
    {
        let mut i: usize = 0;
        while i < found.len()
            invariant
                i <= found@.len(),
                forall|k: int| 0 <= k < i ==> !found@[k],
            decreases found@.len() - i,
        {
            if found[i] {
                return Some(i);
            }
            i = i + 1;
        }
        None
    }

    /// The outcome of the submit action: no button found is a hard failure,
    /// a failed click is a submission failure.
    pub fn submit_outcome(&self, button: Option<usize>, click_error: Option<String>) -> (r: Result<(), WebformError>)
        ensures
            button.is_none() ==> (r matches Err(WebformError::ElementNotFound(m)) && m@ == "Submit button not found"@),
            button.is_some() && click_error.is_none() ==> r is Ok,
            button.is_some() && click_error.is_some() ==> (r matches Err(WebformError::SubmissionFailed(m))
                && m@ == "Failed to click submit: "@ + click_error.unwrap()@),
    {
        match button {
            None => Err(WebformError::ElementNotFound(owned("Submit button not found"))),
            Some(_) => match click_error {
                None => Ok(()),
                Some(e) => {
                    let mut m = owned("Failed to click submit: ");
                    m.append(e.as_str());
                    Err(WebformError::SubmissionFailed(m))
                },
            },
        }
    }
}

/// What can be said of a submission after the fact.
#[derive(Debug, Clone, Copy, PartialEq, Eq, Structural)]
pub enum Verification {
    Confirmed,
    Unconfirmed,
    Error,
}

pub open spec fn any_true(s: Seq<bool>) -> bool {
    exists|i: int| 0 <= i < s.len() && s[i]
}

pub open spec fn success_url(url: Seq<char>) -> bool {
    contains_seq(url, "success"@) || contains_seq(url, "complete"@) || contains_seq(url, "confirmation"@)
}

/// Classifies a submission from, in order, the page address, which success
/// text fragments were found, and which success CSS hooks were found. An
/// unreadable address is an error; no signal at all is unconfirmed, which
/// callers do not treat as failure.
pub fn classify_submission(url: Option<&str>, text_found: &Vec<bool>, css_found: &Vec<bool>) -> (r: Verification)
    ensures
        url.is_none() ==> r == Verification::Error,
        url.is_some() ==> (r == Verification::Confirmed <==> success_url(url.unwrap()@) || any_true(text_found@)
            || any_true(css_found@)),
        url.is_some() ==> r != Verification::Error,
{
    let u = match url {
        None => {
            return Verification::Error;
        },
        Some(u) => u,
    };
    if contains_text(u, "success") || contains_text(u, "complete") || contains_text(u, "confirmation") {
        return Verification::Confirmed;
    }
    let mut i: usize = 0;
    while i < text_found.len()
        invariant
            url == Some(u),
            !success_url(u@),
            i <= text_found@.len(),
            forall|k: int| 0 <= k < i ==> !text_found@[k],
        decreases text_found@.len() - i,
    {
        if text_found[i] {
            assert(0 <= i < text_found@.len() && text_found@[i as int]);
            return Verification::Confirmed;
        }
        i = i + 1;
    }
    let mut j: usize = 0;
    while j < css_found.len()
        invariant
            url == Some(u),
            !success_url(u@),
            j <= css_found@.len(),
            forall|k: int| 0 <= k < text_found@.len() ==> !text_found@[k],
            forall|k: int| 0 <= k < j ==> !css_found@[k],
        decreases css_found@.len() - j,
    {
        if css_found[j] {
            assert(0 <= j < css_found@.len() && css_found@[j as int]);
            return Verification::Confirmed;
        }
        j = j + 1;
    }
    Verification::Unconfirmed
}

} // verus!
