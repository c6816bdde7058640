//! The commit workflow: resolving the ledger destination for the current
//! period, building the record, and submitting it once.
//!
//! The ledger is a tree of pages: under the parent page, one page per year
//! whose title is the year; under a year page, one database per month whose
//! title is the month's name. The workflow decides; the caller performs each
//! call it asks for and hands back the reply.

use vstd::prelude::*;
use chrono::Datelike;
use crate::amount::{all_digits, digits_value, sign_len};
use crate::conversation::{is_empty_subcategory, no_subcategory};
use crate::utils::{get_month_number, lower_of, month_of_lowercase};

verus! {

/// An expense ready to be written: its amount in hundredths of the currency
/// unit, its category and its subcategory (possibly the empty sentinel).
pub struct Expense {
    pub amount: u64,
    pub category: String,
    pub subcategory: String,
}

/// A calendar month.
#[derive(Clone, Copy, Debug, PartialEq, Eq, Structural)]
pub struct Period {
    pub year: i32,
    pub month: u32,
}

/// Relies on `chrono::Local::now` with `Datelike::year` and `Datelike::month`:
/// the local date at the time of the call, whose month is between 1 and 12.
#[verifier::external_body]
fn local_period() -> (r: Period)
    ensures
        1 <= r.month <= 12,
{
    let now = chrono::Local::now();
    Period { year: now.year(), month: now.month() }
}

/// The integer that `str::parse::<i32>` reads: an optional sign, then one or
/// more decimal digits, in the range of `i32`.
pub open spec fn i32_of(t: Seq<char>) -> Option<i32> {
    let s = sign_len(t);
    let body = t.subrange(s, t.len() as int);
    let v: int = if s == 1 && t[0] == '-' {
        -digits_value(body)
    } else {
        digits_value(body) as int
    };
    if body.len() > 0 && all_digits(body) && i32::MIN <= v <= i32::MAX {
        Some(v as i32)
    } else {
        None
    }
}

/// Relies on `str::parse::<i32>`: it accepts an optional `+` or `-` followed
/// by decimal digits only, and fails when the value does not fit.
#[verifier::external_body]
fn parse_i32(s: &str) -> (r: Option<i32>)
    ensures
        r == i32_of(s@),
{
    s.parse::<i32>().ok()
}

#[derive(Clone, Copy, Debug, PartialEq, Eq, Structural)]
pub enum ChildKind {
    Page,
    Database,
    Other,
}

/// A page or database found under a page of the ledger.
pub struct ChildEntry {
    pub kind: ChildKind,
    pub title: String,
    pub id: String,
}

pub open spec fn is_year_page(c: ChildEntry, year: i32) -> bool {
    c.kind == ChildKind::Page && i32_of(c.title@) == Some(year)
}

pub open spec fn is_month_database(c: ChildEntry, month: u32) -> bool {
    c.kind == ChildKind::Database && month_of_lowercase(lower_of(c.title@)) == Some(month)
}

/// The id of the first page whose title is the year.
pub open spec fn year_page_id(c: Seq<ChildEntry>, year: i32) -> Option<Seq<char>>
    decreases c.len(),
{
    if c.len() == 0 {
        None
    } else if is_year_page(c[0], year) {
        Some(c[0].id@)
    } else {
        year_page_id(c.drop_first(), year)
    }
}

/// The id of the first database whose title names the month.
pub open spec fn month_database_id(c: Seq<ChildEntry>, month: u32) -> Option<Seq<char>>
    decreases c.len(),
{
    if c.len() == 0 {
        None
    } else if is_month_database(c[0], month) {
        Some(c[0].id@)
    } else {
        month_database_id(c.drop_first(), month)
    }
}

pub open spec fn opt_string_view(o: Option<String>) -> Option<Seq<char>> {
    match o {
        Some(s) => Some(s@),
        None => None,
    }
}

/// Finds the page of a year among the children of the parent page.
pub fn find_year_page(children: &Vec<ChildEntry>, year: i32) -> (r: Option<String>)
    ensures
        opt_string_view(r) == year_page_id(children@, year),
{
    let mut i: usize = 0;
    assert(children@.subrange(0, children@.len() as int) =~= children@);
    while i < children.len()
        invariant
            i <= children@.len(),
            year_page_id(children@, year) == year_page_id(
                children@.subrange(i as int, children@.len() as int),
                year,
            ),
        decreases children@.len() - i,
    {
        let ghost rest = children@.subrange(i as int, children@.len() as int);
        assert(rest[0] == children@[i as int]);
        assert(rest.drop_first() =~= children@.subrange(i + 1, children@.len() as int));
        let c = &children[i];
        if c.kind == ChildKind::Page {
            if parse_i32(c.title.as_str()) == Some(year) {
                return Some(c.id.clone());
            }
        }
        i = i + 1;
    }
    None
}

/// Finds the database of a month among the children of a year page.
pub fn find_month_database(children: &Vec<ChildEntry>, month: u32) -> (r: Option<String>)
    ensures
        opt_string_view(r) == month_database_id(children@, month),
{
    let mut i: usize = 0;
    assert(children@.subrange(0, children@.len() as int) =~= children@);
    while i < children.len()
        invariant
            i <= children@.len(),
            month_database_id(children@, month) == month_database_id(
                children@.subrange(i as int, children@.len() as int),
                month,
            ),
        decreases children@.len() - i,
    {
        let ghost rest = children@.subrange(i as int, children@.len() as int);
        assert(rest[0] == children@[i as int]);
        assert(rest.drop_first() =~= children@.subrange(i + 1, children@.len() as int));
        let c = &children[i];
        if c.kind == ChildKind::Database {
            if get_month_number(c.title.as_str()) == Some(month) {
                return Some(c.id.clone());
            }
        }
        i = i + 1;
    }
    None
}

/// The value of one field of a ledger record.
pub enum FieldValue {
    /// A number, in hundredths.
    Number(u64),
    /// One option of a categorical field.
    Select(String),
    /// Free text.
    RichText(String),
}

/// One named field of a ledger record.
pub struct Field {
    pub name: String,
    pub value: FieldValue,
}

pub enum FieldView {
    Number(nat),
    Select(Seq<char>),
    RichText(Seq<char>),
}

pub open spec fn field_view(f: Field) -> (Seq<char>, FieldView) {
    (
        f.name@,
        match f.value {
            FieldValue::Number(n) => FieldView::Number(n as nat),
            FieldValue::Select(s) => FieldView::Select(s@),
            FieldValue::RichText(s) => FieldView::RichText(s@),
        },
    )
}

pub open spec fn record_view(fields: Seq<Field>) -> Seq<(Seq<char>, FieldView)> {
    fields.map_values(|f: Field| field_view(f))
}

/// The note that marks where a record came from.
pub open spec fn provenance_text() -> Seq<char> {
    "Added by @NotExpenseBot"@
}

/// The record written for an expense: its amount, its category, its
/// subcategory unless it is the empty sentinel, and the provenance note.
pub open spec fn expense_record(e: Expense) -> Seq<(Seq<char>, FieldView)> {
    seq![("Amount"@, FieldView::Number(e.amount as nat)), ("Category"@, FieldView::Select(e.category@))]
        + (if no_subcategory(e.subcategory@) {
        Seq::empty()
    } else {
        seq![("Subcategory"@, FieldView::Select(e.subcategory@))]
    }) + seq![("Comment"@, FieldView::RichText(provenance_text()))]
}

/// Builds the record to write for an expense.
pub fn build_record(e: &Expense) -> (r: Vec<Field>)
    ensures
        record_view(r@) == expense_record(*e),
        no_subcategory(e.subcategory@) ==> forall|i: int|
            0 <= i < r@.len() ==> (#[trigger] r@[i]).name@ != "Subcategory"@,
{
    let mut r: Vec<Field> = Vec::new();
    r.push(Field { name: String::from_str("Amount"), value: FieldValue::Number(e.amount) });
    r.push(
        Field { name: String::from_str("Category"), value: FieldValue::Select(e.category.clone()) },
    );
    if !is_empty_subcategory(e.subcategory.as_str()) {
        r.push(
            Field {
                name: String::from_str("Subcategory"),
                value: FieldValue::Select(e.subcategory.clone()),
            },
        );
    }
    r.push(
        Field {
            name: String::from_str("Comment"),
            value: FieldValue::RichText(String::from_str("Added by @NotExpenseBot")),
        },
    );
    assert(record_view(r@) =~= expense_record(*e));
    proof {
        reveal_strlit("Subcategory");
        reveal_strlit("Amount");
        reveal_strlit("Category");
        reveal_strlit("Comment");
        if no_subcategory(e.subcategory@) {
            assert(expense_record(*e) =~= seq![
                ("Amount"@, FieldView::Number(e.amount as nat)),
                ("Category"@, FieldView::Select(e.category@)),
                ("Comment"@, FieldView::RichText(provenance_text())),
            ]);
            assert("Amount"@ != "Subcategory"@ && "Category"@ != "Subcategory"@ && "Comment"@
                != "Subcategory"@) by {
                assert("Amount"@.len() != "Subcategory"@.len());
                assert("Category"@.len() != "Subcategory"@.len());
                assert("Comment"@.len() != "Subcategory"@.len());
            }
            assert forall|i: int| 0 <= i < r@.len() implies (#[trigger] r@[i]).name@
                != "Subcategory"@ by {
                assert(field_view(r@[i]) == record_view(r@)[i]);
            }
        }
    }
    r
}

/// Why a ledger operation failed. The user sees one general message; these
/// tell the log which step went wrong.
#[derive(Clone, Copy, Debug, PartialEq, Eq, Structural)]
pub enum CommitError {
    /// The page tree of the ledger could not be read.
    LookupFailed,
    /// No page for the year of the period.
    NoYearPage { year: i32 },
    /// No database for the month of the period.
    NoMonthDatabase { year: i32, month: u32 },
    /// The ledger refused the record, or could not be reached.
    SubmitFailed,
    /// The records of the month could not be read.
    QueryFailed,
    /// The total of the month does not fit in 64 bits.
    TotalOutOfRange,
}

/// Where a commit workflow stands.
#[derive(Clone, Copy, Debug, PartialEq, Eq, Structural)]
pub enum CommitStage {
    FindYear,
    FindMonth,
    Submit,
    Finished,
}

/// What the workflow asks of the ledger next.
pub enum LedgerCall {
    /// List the pages and databases under a page.
    ListChildren { page_id: String },
    /// Write a record into a database.
    CreateRecord { database_id: String, fields: Vec<Field> },
    /// Nothing more to do: the outcome of the commit.
    Finish { outcome: Result<(), CommitError> },
}

pub enum LedgerCallView {
    ListChildren(Seq<char>),
    CreateRecord(Seq<char>, Seq<(Seq<char>, FieldView)>),
    Finish(Result<(), CommitError>),
}

impl View for LedgerCall {
    type V = LedgerCallView;

    open spec fn view(&self) -> LedgerCallView {
        match self {
            LedgerCall::ListChildren { page_id } => LedgerCallView::ListChildren(page_id@),
            LedgerCall::CreateRecord { database_id, fields } => LedgerCallView::CreateRecord(
                database_id@,
                record_view(fields@),
            ),
            LedgerCall::Finish { outcome } => LedgerCallView::Finish(*outcome),
        }
    }
}

/// What the ledger answered to the last call.
pub enum LedgerReply {
    /// The pages and databases under the page that was listed.
    Children(Vec<ChildEntry>),
    /// The record was written.
    Created,
    /// The amounts of the records that were read, in hundredths; `None` for
    /// a record without an amount.
    Amounts(Vec<Option<i64>>),
    /// The call failed: a transport error or a status other than success.
    Failed,
}

pub struct CommitView {
    pub period: Period,
    pub expense: Expense,
    pub stage: CommitStage,
    pub outcome: Result<(), CommitError>,
}

/// One commit of one expense into the ledger, for one period.
pub struct CommitWorkflow {
    period: Period,
    expense: Expense,
    stage: CommitStage,
    outcome: Result<(), CommitError>,
}

impl View for CommitWorkflow {
    type V = CommitView;

    closed spec fn view(&self) -> CommitView {
        CommitView {
            period: self.period,
            expense: self.expense,
            stage: self.stage,
            outcome: self.outcome,
        }
    }
}

pub open spec fn finished(w: CommitView, outcome: Result<(), CommitError>) -> (
    CommitView,
    LedgerCallView,
) {
    (
        CommitView { period: w.period, expense: w.expense, stage: CommitStage::Finished, outcome },
        LedgerCallView::Finish(outcome),
    )
}

pub open spec fn at_stage(w: CommitView, stage: CommitStage) -> CommitView {
    CommitView { period: w.period, expense: w.expense, stage, outcome: w.outcome }
}

/// One step of the workflow: the next state and the next call, given the
/// reply to the last call.
pub open spec fn commit_step(w: CommitView, reply: LedgerReply) -> (CommitView, LedgerCallView) {
    match w.stage {
        CommitStage::FindYear => match reply {
            LedgerReply::Children(c) => match year_page_id(c@, w.period.year) {
                Some(id) => (at_stage(w, CommitStage::FindMonth), LedgerCallView::ListChildren(id)),
                None => finished(w, Err(CommitError::NoYearPage { year: w.period.year })),
            },
            _ => finished(w, Err(CommitError::LookupFailed)),
        },
        CommitStage::FindMonth => match reply {
            LedgerReply::Children(c) => match month_database_id(c@, w.period.month) {
                Some(id) => (
                    at_stage(w, CommitStage::Submit),
                    LedgerCallView::CreateRecord(id, expense_record(w.expense)),
                ),
                None => finished(
                    w,
                    Err(CommitError::NoMonthDatabase { year: w.period.year, month: w.period.month }),
                ),
            },
            _ => finished(w, Err(CommitError::LookupFailed)),
        },
        CommitStage::Submit => match reply {
            LedgerReply::Created => finished(w, Ok(())),
            _ => finished(w, Err(CommitError::SubmitFailed)),
        },
        CommitStage::Finished => (w, LedgerCallView::Finish(w.outcome)),
    }
}

impl CommitWorkflow {
    /// Starts the commit of `expense` into the ledger under
    /// `parent_page_id`, for the given period. The first call lists the
    /// parent page.
    pub fn for_period(parent_page_id: &str, period: Period, expense: Expense) -> (r: (
        CommitWorkflow,
        LedgerCall,
    ))
        ensures
            r.0@ == (CommitView { period, expense, stage: CommitStage::FindYear, outcome: Ok(()) }),
            r.1@ == LedgerCallView::ListChildren(parent_page_id@),
    {
        (
            CommitWorkflow { period, expense, stage: CommitStage::FindYear, outcome: Ok(()) },
            LedgerCall::ListChildren { page_id: String::from_str(parent_page_id) },
        )
    }

    /// Starts the commit of `expense` for the current month of the local
    /// calendar.
    pub fn begin(parent_page_id: &str, expense: Expense) -> (r: (CommitWorkflow, LedgerCall))
        ensures
            r.0@.expense == expense,
            r.0@.stage == CommitStage::FindYear,
            r.0@.outcome == Ok::<(), CommitError>(()),
            1 <= r.0@.period.month <= 12,
            r.1@ == LedgerCallView::ListChildren(parent_page_id@),
    {
        CommitWorkflow::for_period(parent_page_id, local_period(), expense)
    }

    pub fn expense(&self) -> (r: &Expense)
        ensures
            *r == self@.expense,
    {
        &self.expense
    }

    pub fn period(&self) -> (r: Period)
        ensures
            r == self@.period,
    {
        self.period
    }

    pub fn stage(&self) -> (r: CommitStage)
        ensures
            r == self@.stage,
    {
        self.stage
    }

    fn finish(&mut self, outcome: Result<(), CommitError>) -> (r: LedgerCall)
        ensures
            (final(self)@, r@) == finished(old(self)@, outcome),
    {
        self.stage = CommitStage::Finished;
        self.outcome = outcome;
        LedgerCall::Finish { outcome }
    }

    /// Takes the reply to the last call and gives the next call. A record is
    /// asked for only once both the year page and the month database were
    /// found; any failure ends the workflow with its error and nothing is
    /// tried again.
    pub fn advance(&mut self, reply: LedgerReply) -> (r: LedgerCall)
        ensures
            (final(self)@, r@) == commit_step(old(self)@, reply),
    {
        match self.stage {
            CommitStage::FindYear => match reply {
                LedgerReply::Children(c) => match find_year_page(&c, self.period.year) {
                    Some(id) => {
                        self.stage = CommitStage::FindMonth;
                        LedgerCall::ListChildren { page_id: id }
                    },
                    None => self.finish(Err(CommitError::NoYearPage { year: self.period.year })),
                },
                _ => self.finish(Err(CommitError::LookupFailed)),
            },
            CommitStage::FindMonth => match reply {
                LedgerReply::Children(c) => match find_month_database(&c, self.period.month) {
                    Some(id) => {
                        self.stage = CommitStage::Submit;
                        LedgerCall::CreateRecord { database_id: id, fields: build_record(&self.expense) }
                    },
                    None => self.finish(
                        Err(
                            CommitError::NoMonthDatabase {
                                year: self.period.year,
                                month: self.period.month,
                            },
                        ),
                    ),
                },
                _ => self.finish(Err(CommitError::LookupFailed)),
            },
            CommitStage::Submit => match reply {
                LedgerReply::Created => self.finish(Ok(())),
                _ => self.finish(Err(CommitError::SubmitFailed)),
            },
            CommitStage::Finished => LedgerCall::Finish { outcome: self.outcome },
        }
    }
}

/// The sum of the amounts that are present.
pub open spec fn amounts_sum(a: Seq<Option<i64>>) -> int
    decreases a.len(),
{
    if a.len() == 0 {
        0
    } else {
        amounts_sum(a.drop_last()) + match a.last() {
            Some(x) => x as int,
            None => 0,
        }
    }
}

/// Adds up the amounts of a month, skipping records without one. `None`
/// when the sum does not fit in 64 bits.
pub fn total_hundredths(amounts: &Vec<Option<i64>>) -> (r: Option<i64>)
    ensures
        r == (if i64::MIN <= amounts_sum(amounts@) <= i64::MAX {
            Some(amounts_sum(amounts@) as i64)
        } else {
            None::<i64>
        }),
{
    let mut acc: i128 = 0;
    let n = amounts.len();
    let mut i: usize = 0;
    while i < n
        invariant
            n == amounts@.len(),
            i <= n,
            acc == amounts_sum(amounts@.subrange(0, i as int)),
            -(i as int) * 0x8000_0000_0000_0000 <= acc <= (i as int) * 0x8000_0000_0000_0000,
        decreases amounts@.len() - i,
    {
        assert(amounts@.subrange(0, i + 1).drop_last() =~= amounts@.subrange(0, i as int));
        assert((i as int + 1) * 0x8000_0000_0000_0000 <= 0x1_0000_0000_0000_0000 * 0x8000_0000_0000_0000)
            by (nonlinear_arith)
            requires
                i < 0x1_0000_0000_0000_0000,
        ;
        match amounts[i] {
            Some(x) => {
                acc = acc + x as i128;
            },
            None => {},
        }
        i = i + 1;
    }
    assert(amounts@.subrange(0, amounts@.len() as int) =~= amounts@);
    if acc < i64::MIN as i128 || acc > i64::MAX as i128 {
        None
    } else {
        Some(acc as i64)
    }
}

/// Where a monthly total stands.
#[derive(Clone, Copy, Debug, PartialEq, Eq, Structural)]
pub enum TotalStage {
    FindYear,
    FindMonth,
    Query,
    Finished,
}

/// What the total asks of the ledger next.
pub enum TotalCall {
    /// List the pages and databases under a page.
    ListChildren { page_id: String },
    /// Read the amounts of all records of a database.
    QueryAmounts { database_id: String },
    /// Nothing more to do: the total, in hundredths, or why there is none.
    Finish { outcome: Result<i64, CommitError> },
}

pub enum TotalCallView {
    ListChildren(Seq<char>),
    QueryAmounts(Seq<char>),
    Finish(Result<i64, CommitError>),
}

impl View for TotalCall {
    type V = TotalCallView;

    open spec fn view(&self) -> TotalCallView {
        match self {
            TotalCall::ListChildren { page_id } => TotalCallView::ListChildren(page_id@),
            TotalCall::QueryAmounts { database_id } => TotalCallView::QueryAmounts(database_id@),
            TotalCall::Finish { outcome } => TotalCallView::Finish(*outcome),
        }
    }
}

pub struct TotalView {
    pub period: Period,
    pub stage: TotalStage,
    pub outcome: Result<i64, CommitError>,
}

/// The total of the expenses recorded for one period.
pub struct TotalWorkflow {
    period: Period,
    stage: TotalStage,
    outcome: Result<i64, CommitError>,
}

impl View for TotalWorkflow {
    type V = TotalView;

    closed spec fn view(&self) -> TotalView {
        TotalView { period: self.period, stage: self.stage, outcome: self.outcome }
    }
}

pub open spec fn total_finished(w: TotalView, outcome: Result<i64, CommitError>) -> (
    TotalView,
    TotalCallView,
) {
    (
        TotalView { period: w.period, stage: TotalStage::Finished, outcome },
        TotalCallView::Finish(outcome),
    )
}

/// One step of the total: the next state and the next call, given the reply
/// to the last call.
pub open spec fn total_step(w: TotalView, reply: LedgerReply) -> (TotalView, TotalCallView) {
    match w.stage {
        TotalStage::FindYear => match reply {
            LedgerReply::Children(c) => match year_page_id(c@, w.period.year) {
                Some(id) => (
                    TotalView { period: w.period, stage: TotalStage::FindMonth, outcome: w.outcome },
                    TotalCallView::ListChildren(id),
                ),
                None => total_finished(w, Err(CommitError::NoYearPage { year: w.period.year })),
            },
            _ => total_finished(w, Err(CommitError::LookupFailed)),
        },
        TotalStage::FindMonth => match reply {
            LedgerReply::Children(c) => match month_database_id(c@, w.period.month) {
                Some(id) => (
                    TotalView { period: w.period, stage: TotalStage::Query, outcome: w.outcome },
                    TotalCallView::QueryAmounts(id),
                ),
                None => total_finished(
                    w,
                    Err(CommitError::NoMonthDatabase { year: w.period.year, month: w.period.month }),
                ),
            },
            _ => total_finished(w, Err(CommitError::LookupFailed)),
        },
        TotalStage::Query => match reply {
            LedgerReply::Amounts(a) => if !(i64::MIN <= amounts_sum(a@) <= i64::MAX) {
                total_finished(w, Err(CommitError::TotalOutOfRange))
            } else {
                total_finished(w, Ok(amounts_sum(a@) as i64))
            },
            _ => total_finished(w, Err(CommitError::QueryFailed)),
        },
        TotalStage::Finished => (w, TotalCallView::Finish(w.outcome)),
    }
}

impl TotalWorkflow {
    /// Starts the total for the given period of the ledger under
    /// `parent_page_id`. The first call lists the parent page.
    pub fn for_period(parent_page_id: &str, period: Period) -> (r: (TotalWorkflow, TotalCall))
        ensures
            r.0@ == (TotalView { period, stage: TotalStage::FindYear, outcome: Ok(0) }),
            r.1@ == TotalCallView::ListChildren(parent_page_id@),
    {
        (
            TotalWorkflow { period, stage: TotalStage::FindYear, outcome: Ok(0) },
            TotalCall::ListChildren { page_id: String::from_str(parent_page_id) },
        )
    }

    /// Starts the total for the current month of the local calendar.
    pub fn begin(parent_page_id: &str) -> (r: (TotalWorkflow, TotalCall))
        ensures
            r.0@.stage == TotalStage::FindYear,
            1 <= r.0@.period.month <= 12,
            r.1@ == TotalCallView::ListChildren(parent_page_id@),
    {
        TotalWorkflow::for_period(parent_page_id, local_period())
    }

    pub fn period(&self) -> (r: Period)
        ensures
            r == self@.period,
    {
        self.period
    }

    fn finish(&mut self, outcome: Result<i64, CommitError>) -> (r: TotalCall)
        ensures
            (final(self)@, r@) == total_finished(old(self)@, outcome),
    {
        self.stage = TotalStage::Finished;
        self.outcome = outcome;
        TotalCall::Finish { outcome }
    }

    /// Takes the reply to the last call and gives the next call.
    pub fn advance(&mut self, reply: LedgerReply) -> (r: TotalCall)
        ensures
            (final(self)@, r@) == total_step(old(self)@, reply),
    {
        match self.stage {
            TotalStage::FindYear => match reply {
                LedgerReply::Children(c) => match find_year_page(&c, self.period.year) {
                    Some(id) => {
                        self.stage = TotalStage::FindMonth;
                        TotalCall::ListChildren { page_id: id }
                    },
                    None => self.finish(Err(CommitError::NoYearPage { year: self.period.year })),
                },
                _ => self.finish(Err(CommitError::LookupFailed)),
            },
            TotalStage::FindMonth => match reply {
                LedgerReply::Children(c) => match find_month_database(&c, self.period.month) {
                    Some(id) => {
                        self.stage = TotalStage::Query;
                        TotalCall::QueryAmounts { database_id: id }
                    },
                    None => self.finish(
                        Err(
                            CommitError::NoMonthDatabase {
                                year: self.period.year,
                                month: self.period.month,
                            },
                        ),
                    ),
                },
                _ => self.finish(Err(CommitError::LookupFailed)),
            },
            TotalStage::Query => match reply {
                LedgerReply::Amounts(a) => match total_hundredths(&a) {
                    Some(t) => self.finish(Ok(t)),
                    None => self.finish(Err(CommitError::TotalOutOfRange)),
                },
                _ => self.finish(Err(CommitError::QueryFailed)),
            },
            TotalStage::Finished => TotalCall::Finish { outcome: self.outcome },
        }
    }
}

} // verus!
