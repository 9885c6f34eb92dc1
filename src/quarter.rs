//! Quarter routing: which vendor form a calendar date belongs to.
use vstd::prelude::*;
use chrono::Datelike;
use crate::text::{owned, same_text, contains_seq};

verus! {

/// A calendar day of the proleptic Gregorian calendar.
#[derive(Debug, Clone, Copy, PartialEq, Eq, Structural)]
pub struct CalendarDate {
    pub year: i32,
    pub month: u32,
    pub day: u32,
}

pub open spec fn is_leap_year(y: int) -> bool {
    y % 4 == 0 && (y % 100 != 0 || y % 400 == 0)
}

pub open spec fn days_in_month(y: int, m: int) -> int {
    if m == 2 {
        if is_leap_year(y) { 29 } else { 28 }
    } else if m == 4 || m == 6 || m == 9 || m == 11 {
        30
    } else {
        31
    }
}

/// A day as (year, month, day).
pub type DayTriple = (int, int, int);

pub open spec fn valid_day(d: DayTriple) -> bool {
    1 <= d.1 <= 12 && 1 <= d.2 <= days_in_month(d.0, d.1)
}

/// Strictly earlier in the calendar.
pub open spec fn day_before(a: DayTriple, b: DayTriple) -> bool {
    a.0 < b.0 || (a.0 == b.0 && (a.1 < b.1 || (a.1 == b.1 && a.2 < b.2)))
}

pub open spec fn day_not_after(a: DayTriple, b: DayTriple) -> bool {
    a == b || day_before(a, b)
}

/// The day after `d`.
pub open spec fn next_day(d: DayTriple) -> DayTriple {
    if d.2 < days_in_month(d.0, d.1) {
        (d.0, d.1, d.2 + 1)
    } else if d.1 < 12 {
        (d.0, d.1 + 1, 1)
    } else {
        (d.0 + 1, 1, 1)
    }
}

fn divides(k: i32, y: i32) -> (r: bool)
    requires
        k == 4 || k == 100 || k == 400,
    ensures
        r == (y as int % k as int == 0),
{
    let c: i64 = 4_000_000_000i64 / (k as i64);
    let w = y as i64 + (k as i64) * c;
    assert(w > 0) by (nonlinear_arith)
        requires
            c == 4_000_000_000int / k as int,
            k == 4 || k == 100 || k == 400,
            w == y + k * c,
            y >= i32::MIN,
    ;
    let rem = w % (k as i64);
    proof {
        vstd::arithmetic::div_mod::lemma_mod_multiples_vanish(c as int, y as int, k as int);
    }
    rem == 0
}

fn month_length(y: i32, m: u32) -> (r: u32)
    ensures
        r as int == days_in_month(y as int, m as int),
{
    if m == 2 {
        if divides(4, y) && (!divides(100, y) || divides(400, y)) { 29 } else { 28 }
    } else if m == 4 || m == 6 || m == 9 || m == 11 {
        30
    } else {
        31
    }
}

impl CalendarDate {
    pub open spec fn triple(self) -> DayTriple {
        (self.year as int, self.month as int, self.day as int)
    }

    /// Whether `self` comes strictly before `other`.
    pub fn is_before(&self, other: &CalendarDate) -> (r: bool)
        ensures
            r == day_before(self.triple(), other.triple()),
    {
        self.year < other.year || (self.year == other.year && (self.month < other.month || (
        self.month == other.month && self.day < other.day)))
    }

    /// The following calendar day; `None` past the last representable year.
    pub fn succ(&self) -> (r: Option<CalendarDate>)
        requires
            valid_day(self.triple()),
        ensures
            match r {
                Some(n) => n.triple() == next_day(self.triple()),
                None => next_day(self.triple()).0 > i32::MAX,
            },
    {
        let y = self.year;
        let dim = month_length(y, self.month);
        if self.day < dim {
            Some(CalendarDate { year: y, month: self.month, day: self.day + 1 })
        } else if self.month < 12 {
            Some(CalendarDate { year: y, month: self.month + 1, day: 1 })
        } else if y < i32::MAX {
            Some(CalendarDate { year: y + 1, month: 1, day: 1 })
        } else {
            None
        }
    }
}

/// What `%Y-%m-%d` date parsing gives for a text: the day it denotes, or
/// `None` when the text is not such a date.
pub uninterp spec fn parsed_ymd(s: Seq<char>) -> Option<DayTriple>;

/// Relies on `chrono::NaiveDate::parse_from_str` with format `%Y-%m-%d`: the
/// result depends on the text alone, is a valid calendar day, and an empty
/// text does not parse.
#[verifier::external_body]
fn parse_ymd(s: &str) -> (r: Option<CalendarDate>)
    ensures
        match r {
            Some(d) => parsed_ymd(s@) == Some(d.triple()) && valid_day(d.triple()),
            None => parsed_ymd(s@).is_none(),
        },
        s@.len() == 0 ==> r.is_none(),
{
    match chrono::NaiveDate::parse_from_str(s, "%Y-%m-%d") {
        Ok(d) => Some(CalendarDate { year: d.year(), month: d.month(), day: d.day() }),
        Err(_) => None,
    }
}

/// Parses a `YYYY-MM-DD` date.
pub fn parse_calendar_date(s: &str) -> (r: Option<CalendarDate>)
    ensures
        match r {
            Some(d) => parsed_ymd(s@) == Some(d.triple()) && valid_day(d.triple()),
            None => parsed_ymd(s@).is_none(),
        },
        s@.len() == 0 ==> r.is_none(),
{
    parse_ymd(s)
}

/// A quarter: a date window routed to one vendor form.
#[derive(Debug, Clone)]
pub struct QuarterDefinition {
    pub id: String,
    pub name: String,
    pub start_date: String,
    pub end_date: String,
    pub form_url: String,
    pub form_id: String,
}

/// The text fields of a quarter definition.
pub struct QuarterView {
    pub id: Seq<char>,
    pub name: Seq<char>,
    pub start_date: Seq<char>,
    pub end_date: Seq<char>,
    pub form_url: Seq<char>,
    pub form_id: Seq<char>,
}

impl View for QuarterDefinition {
    type V = QuarterView;

    open spec fn view(&self) -> QuarterView {
        QuarterView {
            id: self.id@,
            name: self.name@,
            start_date: self.start_date@,
            end_date: self.end_date@,
            form_url: self.form_url@,
            form_id: self.form_id@,
        }
    }
}

impl QuarterDefinition {
    /// A field-by-field copy.
    pub fn duplicate(&self) -> (r: QuarterDefinition)
        ensures
            r@ == self@,
    {
        QuarterDefinition {
            id: owned(self.id.as_str()),
            name: owned(self.name.as_str()),
            start_date: owned(self.start_date.as_str()),
            end_date: owned(self.end_date.as_str()),
            form_url: owned(self.form_url.as_str()),
            form_id: owned(self.form_id.as_str()),
        }
    }
}

/// The window of a quarter, when both its bounds parse.
pub open spec fn quarter_window(q: QuarterView) -> Option<(DayTriple, DayTriple)> {
    match (parsed_ymd(q.start_date), parsed_ymd(q.end_date)) {
        (Some(s), Some(e)) => Some((s, e)),
        _ => None,
    }
}

/// The quarter's inclusive window holds `day`.
pub open spec fn quarter_holds(q: QuarterView, day: DayTriple) -> bool {
    match quarter_window(q) {
        Some(w) => day_not_after(w.0, day) && day_not_after(day, w.1),
        None => false,
    }
}

/// Index of the first quarter in `qs` whose window holds `day`.
pub open spec fn first_holding(qs: Seq<QuarterView>, day: DayTriple, i: int) -> bool {
    0 <= i < qs.len() && quarter_holds(qs[i], day) && forall|k: int| 0 <= k < i ==> !quarter_holds(#[trigger] qs[k], day)
}

pub open spec fn views(qs: Seq<QuarterDefinition>) -> Seq<QuarterView> {
    qs.map_values(|q: QuarterDefinition| q@)
}

/// The windows are well formed and contiguous: each parses, starts no later
/// than it ends, and the next one starts on the day after it ends.
pub open spec fn quarters_contiguous(qs: Seq<QuarterView>) -> bool {
    &&& forall|i: int| 0 <= i < qs.len() ==> (#[trigger] quarter_window(qs[i])).is_some()
        && valid_day(quarter_window(qs[i]).unwrap().0)
        && valid_day(quarter_window(qs[i]).unwrap().1)
        && day_not_after(quarter_window(qs[i]).unwrap().0, quarter_window(qs[i]).unwrap().1)
    &&& forall|i: int| 0 <= i < qs.len() - 1 ==> next_day(#[trigger] quarter_window(qs[i]).unwrap().1)
        == quarter_window(qs[i + 1]).unwrap().0
}

/// The configured quarters.
pub open spec fn configured_quarters() -> Seq<QuarterView> {
    seq![
        QuarterView {
            id: "Q1-2025"@,
            name: "Q1 2025"@,
            start_date: "2025-01-01"@,
            end_date: "2025-03-31"@,
            form_url: "https://app.smartsheet.com/b/form/q1-2025-placeholder"@,
            form_id: "q1-2025-placeholder"@,
        },
        QuarterView {
            id: "Q2-2025"@,
            name: "Q2 2025"@,
            start_date: "2025-04-01"@,
            end_date: "2025-06-30"@,
            form_url: "https://app.smartsheet.com/b/form/q2-2025-placeholder"@,
            form_id: "q2-2025-placeholder"@,
        },
        QuarterView {
            id: "Q3-2025"@,
            name: "Q3 2025"@,
            start_date: "2025-07-01"@,
            end_date: "2025-09-30"@,
            form_url: "https://app.smartsheet.com/b/form/0197cbae7daf72bdb96b3395b500d414"@,
            form_id: "0197cbae7daf72bdb96b3395b500d414"@,
        },
        QuarterView {
            id: "Q4-2025"@,
            name: "Q4 2025"@,
            start_date: "2025-10-01"@,
            end_date: "2025-12-31"@,
            form_url: "https://app.smartsheet.com/b/form/0199fabee6497e60abb6030c48d84585"@,
            form_id: "0199fabee6497e60abb6030c48d84585"@,
        },
    ]
}

fn quarter(id: &str, name: &str, start: &str, end: &str, url: &str, form_id: &str) -> (r: QuarterDefinition)
    ensures
        r@ == (QuarterView {
            id: id@,
            name: name@,
            start_date: start@,
            end_date: end@,
            form_url: url@,
            form_id: form_id@,
        }),
{
    QuarterDefinition {
        id: owned(id),
        name: owned(name),
        start_date: owned(start),
        end_date: owned(end),
        form_url: owned(url),
        form_id: owned(form_id),
    }
}

/// The configured quarters, in calendar order.
pub fn get_quarter_definitions() -> (r: Vec<QuarterDefinition>)
    ensures
        views(r@) == configured_quarters(),
{
    let r = vec![
        quarter(
            "Q1-2025",
            "Q1 2025",
            "2025-01-01",
            "2025-03-31",
            "https://app.smartsheet.com/b/form/q1-2025-placeholder",
            "q1-2025-placeholder",
        ),
        quarter(
            "Q2-2025",
            "Q2 2025",
            "2025-04-01",
            "2025-06-30",
            "https://app.smartsheet.com/b/form/q2-2025-placeholder",
            "q2-2025-placeholder",
        ),
        quarter(
            "Q3-2025",
            "Q3 2025",
            "2025-07-01",
            "2025-09-30",
            "https://app.smartsheet.com/b/form/0197cbae7daf72bdb96b3395b500d414",
            "0197cbae7daf72bdb96b3395b500d414",
        ),
        quarter(
            "Q4-2025",
            "Q4 2025",
            "2025-10-01",
            "2025-12-31",
            "https://app.smartsheet.com/b/form/0199fabee6497e60abb6030c48d84585",
            "0199fabee6497e60abb6030c48d84585",
        ),
    ];
    assert(views(r@) =~= configured_quarters());
    r
}

/// Position of the first quarter whose window holds `day`.
pub fn find_quarter_index(day: CalendarDate, quarters: &Vec<QuarterDefinition>) -> (r: Option<usize>)
    ensures
        match r {
            Some(i) => first_holding(views(quarters@), day.triple(), i as int),
            None => forall|k: int| 0 <= k < quarters@.len() ==> !quarter_holds(#[trigger] views(quarters@)[k], day.triple()),
        },
{
    let mut i: usize = 0;
    while i < quarters.len()
        invariant
            i <= quarters@.len(),
            forall|k: int| 0 <= k < i ==> !quarter_holds(#[trigger] views(quarters@)[k], day.triple()),
        decreases quarters@.len() - i,
    {
        let q = &quarters[i];
        assert(views(quarters@)[i as int] == q@);
        let start = parse_ymd(q.start_date.as_str());
        let end = parse_ymd(q.end_date.as_str());
        match (start, end) {
            (Some(s), Some(e)) => {
                if !day.is_before(&s) && !e.is_before(&day) {
                    return Some(i);
                }
            },
            _ => {},
        }
        i = i + 1;
    }
    None
}

/// The quarter of `quarters` for a `YYYY-MM-DD` date: the first whose
/// inclusive window holds it; `None` for an empty or unparseable date or one
/// that no window holds.
pub fn quarter_for_date_in(date_str: &str, quarters: &Vec<QuarterDefinition>) -> (r: Option<QuarterDefinition>)
    ensures
        date_str@.len() == 0 ==> r.is_none(),
        match parsed_ymd(date_str@) {
            None => r.is_none(),
            Some(day) => match r {
                Some(q) => exists|i: int| first_holding(views(quarters@), day, i) && q@ == views(quarters@)[i],
                None => forall|k: int| 0 <= k < quarters@.len() ==> !quarter_holds(#[trigger] views(quarters@)[k], day),
            },
        },
{
    match parse_ymd(date_str) {
        None => None,
        Some(day) => match find_quarter_index(day, quarters) {
            Some(i) => {
                assert(views(quarters@)[i as int] == quarters@[i as int]@);
                Some(quarters[i].duplicate())
            },
            None => None,
        },
    }
}

/// The configured quarter for a `YYYY-MM-DD` date.
pub fn get_quarter_for_date(date_str: &str) -> (r: Option<QuarterDefinition>)
    ensures
        date_str@.len() == 0 ==> r.is_none(),
        match parsed_ymd(date_str@) {
            None => r.is_none(),
            Some(day) => match r {
                Some(q) => exists|i: int| first_holding(configured_quarters(), day, i) && q@ == configured_quarters()[i],
                None => forall|k: int| 0 <= k < configured_quarters().len() ==> !quarter_holds(#[trigger] configured_quarters()[k], day),
            },
        },
{
    let qs = get_quarter_definitions();
    quarter_for_date_in(date_str, &qs)
}

/// The stand-in quarter for mock mode: always matches, pointing at a local
/// endpoint.
pub fn get_mock_quarter_definition(base_url: &str, form_id: &str) -> (r: QuarterDefinition)
    ensures
        r@ == (QuarterView {
            id: "MOCK-QUARTER"@,
            name: "Mock Quarter (Testing)"@,
            start_date: "2000-01-01"@,
            end_date: "2099-12-31"@,
            form_url: base_url@,
            form_id: form_id@,
        }),
{
    quarter("MOCK-QUARTER", "Mock Quarter (Testing)", "2000-01-01", "2099-12-31", base_url, form_id)
}

/// Identifiers of the configured quarters, in order.
pub fn get_available_quarter_ids() -> (r: Vec<String>)
    ensures
        r@.len() == configured_quarters().len(),
        forall|i: int| 0 <= i < r@.len() ==> (#[trigger] r@[i])@ == configured_quarters()[i].id,
{
    let qs = get_quarter_definitions();
    let mut ids: Vec<String> = Vec::new();
    let mut i: usize = 0;
    while i < qs.len()
        invariant
            i <= qs@.len(),
            views(qs@) == configured_quarters(),
            ids@.len() == i,
            forall|k: int| 0 <= k < i ==> (#[trigger] ids@[k])@ == configured_quarters()[k].id,
        decreases qs@.len() - i,
    {
        assert(views(qs@)[i as int] == qs@[i as int]@);
        ids.push(owned(qs[i].id.as_str()));
        i = i + 1;
    }
    ids
}

/// The configured quarter with identifier `quarter_id`.
pub fn get_quarter_by_id(quarter_id: &str) -> (r: Option<QuarterDefinition>)
    ensures
        match r {
            Some(q) => exists|i: int| 0 <= i < configured_quarters().len() && configured_quarters()[i].id == quarter_id@
                && q@ == configured_quarters()[i],
            None => forall|i: int| 0 <= i < configured_quarters().len() ==> (#[trigger] configured_quarters()[i]).id != quarter_id@,
        },
{
    let qs = get_quarter_definitions();
    let mut i: usize = 0;
    while i < qs.len()
        invariant
            i <= qs@.len(),
            views(qs@) == configured_quarters(),
            forall|k: int| 0 <= k < i ==> (#[trigger] configured_quarters()[k]).id != quarter_id@,
        decreases qs@.len() - i,
    {
        assert(views(qs@)[i as int] == qs@[i as int]@);
        if same_text(qs[i].id.as_str(), quarter_id) {
            return Some(qs[i].duplicate());
        }
        i = i + 1;
    }
    None
}

proof fn lemma_next_day_after(d: DayTriple)
    requires
        valid_day(d),
    ensures
        day_before(d, next_day(d)),
        valid_day(next_day(d)),
{
}

proof fn lemma_end_before_later_start(qs: Seq<QuarterView>, i: int, j: int)
    requires
        quarters_contiguous(qs),
        0 <= i < j < qs.len(),
    ensures
        day_before(quarter_window(qs[i]).unwrap().1, quarter_window(qs[j]).unwrap().0),
    decreases j - i,
{
    let wi = quarter_window(qs[i]);
    assert(wi.is_some() && valid_day(wi.unwrap().1));
    lemma_next_day_after(wi.unwrap().1);
    assert(next_day(quarter_window(qs[i]).unwrap().1) == quarter_window(qs[i + 1]).unwrap().0);
    if j > i + 1 {
        lemma_end_before_later_start(qs, i + 1, j);
        assert(quarter_window(qs[i + 1]).is_some());
    }
}

/// With contiguous windows, no day lies in two quarters: a date resolves to
/// at most one quarter.
pub proof fn lemma_at_most_one_quarter(qs: Seq<QuarterView>, day: DayTriple, i: int, j: int)
    requires
        quarters_contiguous(qs),
        0 <= i < qs.len(),
        0 <= j < qs.len(),
        quarter_holds(qs[i], day),
        quarter_holds(qs[j], day),
    ensures
        i == j,
{
    if i < j {
        lemma_end_before_later_start(qs, i, j);
    } else if j < i {
        lemma_end_before_later_start(qs, j, i);
    }
}

/// Form identifiers differ between quarters.
pub open spec fn form_ids_unique(qs: Seq<QuarterView>) -> bool {
    forall|i: int, j: int| 0 <= i < j < qs.len() ==> (#[trigger] qs[i]).form_id != (#[trigger] qs[j]).form_id
}

/// Checks a quarter list at load time: every window parses, is valid and not
/// reversed, each starts the day after the previous one ends, and form
/// identifiers are unique. An error names the first offending quarter.
pub fn validate_quarter_definitions(quarters: &Vec<QuarterDefinition>) -> (r: Result<(), String>)
    ensures
        r.is_ok() <==> quarters_contiguous(views(quarters@)) && form_ids_unique(views(quarters@)),
{
    let ghost qs = views(quarters@);
    let n = quarters.len();
    let mut prev_end: Option<CalendarDate> = None;
    let mut i: usize = 0;
    while i < n
        invariant
            n == quarters@.len(),
            qs == views(quarters@),
            i <= n,
            forall|k: int| 0 <= k < i ==> (#[trigger] quarter_window(qs[k])).is_some()
                && valid_day(quarter_window(qs[k]).unwrap().0)
                && valid_day(quarter_window(qs[k]).unwrap().1)
                && day_not_after(quarter_window(qs[k]).unwrap().0, quarter_window(qs[k]).unwrap().1),
            forall|k: int| 0 <= k < i - 1 ==> next_day(#[trigger] quarter_window(qs[k]).unwrap().1)
                == quarter_window(qs[k + 1]).unwrap().0,
            i == 0 <==> prev_end.is_none(),
            i > 0 ==> prev_end.unwrap().triple() == quarter_window(qs[i - 1]).unwrap().1,
            forall|a: int, b: int| 0 <= a < b < i ==> (#[trigger] qs[a]).form_id != (#[trigger] qs[b]).form_id,
        decreases n - i,
    {
        let q = &quarters[i];
        assert(qs[i as int] == q@);
        let start = parse_ymd(q.start_date.as_str());
        let end = parse_ymd(q.end_date.as_str());
        let (s, e) = match (start, end) {
            (Some(s), Some(e)) => (s, e),
            _ => {
                return Err(owned("Quarter date does not parse"));
            },
        };
        if e.is_before(&s) {
            return Err(owned("Quarter ends before it starts"));
        }
        match prev_end {
            Some(p) => {
                match p.succ() {
                    Some(next) => {
                        if next != s {
                            return Err(owned("Quarters are not contiguous"));
                        }
                    },
                    None => {
                        return Err(owned("Quarters are not contiguous"));
                    },
                }
            },
            None => {},
        }
        let mut k: usize = 0;
        while k < i
            invariant
                i < n == quarters@.len(),
                qs == views(quarters@),
                k <= i,
                forall|a: int| 0 <= a < k ==> (#[trigger] qs[a]).form_id != qs[i as int].form_id,
            decreases i - k,
        {
            assert(qs[k as int] == quarters@[k as int]@);
            assert(qs[i as int] == quarters@[i as int]@);
            if same_text(quarters[k].form_id.as_str(), quarters[i].form_id.as_str()) {
                return Err(owned("Form identifiers are not unique"));
            }
            k = k + 1;
        }
        prev_end = Some(e);
        i = i + 1;
    }
    Ok(())
}

/// `MM/DD` taken from a `YYYY-MM-DD` text.
pub open spec fn month_day_label(s: Seq<char>) -> Seq<char> {
    if s.len() >= 10 {
        s.subrange(5, 7) + "/"@ + s.subrange(8, 10)
    } else {
        "/"@
    }
}

/// `Name (MM/DD-MM/DD)` for a quarter.
pub open spec fn window_label(q: QuarterView) -> Seq<char> {
    q.name + " ("@ + month_day_label(q.start_date) + "-"@ + month_day_label(q.end_date) + ")"@
}

/// The labels of `qs[..n]`, joined with ` or `.
pub open spec fn joined_labels(qs: Seq<QuarterView>, n: int) -> Seq<char>
    decreases n,
{
    if n <= 0 {
        Seq::empty()
    } else if n == 1 {
        window_label(qs[0])
    } else {
        joined_labels(qs, n - 1) + " or "@ + window_label(qs[n - 1])
    }
}

/// The message listing every quarter window.
pub open spec fn availability_message(qs: Seq<QuarterView>) -> Seq<char> {
    "Date must be in "@ + joined_labels(qs, qs.len() as int)
}

fn push_month_day(out: &mut String, s: &str)
    ensures
        final(out)@ == old(out)@ + month_day_label(s@),
{
    proof { reveal_strlit("/"); }
    if s.unicode_len() >= 10 {
        out.append(s.substring_char(5, 7));
        out.append("/");
        out.append(s.substring_char(8, 10));
    } else {
        out.append("/");
    }
}

fn push_window_label(out: &mut String, q: &QuarterDefinition)
    ensures
        final(out)@ == old(out)@ + window_label(q@),
{
    proof {
        reveal_strlit(" (");
        reveal_strlit("-");
        reveal_strlit(")");
    }
    out.append(q.name.as_str());
    out.append(" (");
    push_month_day(out, q.start_date.as_str());
    out.append("-");
    push_month_day(out, q.end_date.as_str());
    out.append(")");
    assert(final(out)@ =~= old(out)@ + window_label(q@));
}

/// A user-facing message when a date is empty or falls outside every
/// configured quarter; `None` when the date routes to a quarter.
pub fn validate_quarter_availability(date_str: &str) -> (r: Option<String>)
    ensures
        date_str@.len() == 0 ==> r.is_some() && r.unwrap()@ == "Please enter a date"@,
        date_str@.len() > 0 ==> match parsed_ymd(date_str@) {
            Some(day) => if exists|i: int| 0 <= i < configured_quarters().len() && quarter_holds(configured_quarters()[i], day) {
                r.is_none()
            } else {
                r.is_some() && r.unwrap()@ == availability_message(configured_quarters())
            },
            None => r.is_some() && r.unwrap()@ == availability_message(configured_quarters()),
        },
{
    if date_str.unicode_len() == 0 {
        return Some(owned("Please enter a date"));
    }
    if get_quarter_for_date(date_str).is_some() {
        return None;
    }
    let qs = get_quarter_definitions();
    let mut msg = owned("Date must be in ");
    proof { reveal_strlit(" or "); }
    let mut i: usize = 0;
    while i < qs.len()
        invariant
            i <= qs@.len(),
            views(qs@) == configured_quarters(),
            msg@ == "Date must be in "@ + joined_labels(views(qs@), i as int),
        decreases qs@.len() - i,
    {
        assert(views(qs@)[i as int] == qs@[i as int]@);
        if i > 0 {
            msg.append(" or ");
        }
        push_window_label(&mut msg, &qs[i]);
        assert(msg@ =~= "Date must be in "@ + joined_labels(views(qs@), i + 1));
        i = i + 1;
    }
    Some(msg)
}

} // verus!
