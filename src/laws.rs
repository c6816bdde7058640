//! Properties that hold across calls: the shape of the state machine, the
//! record that is written, the exclusion between transitions on one session,
//! and how many records one commit may write.

use vstd::prelude::*;
use crate::amount::{amount_of, amount_text, mantissa, parse_decimal, rounded_hundredths, AmountError};
use crate::conversation::{
    after_category, after_commit, after_text, category_reply, confirmation_text,
    fresh_flow, no_subcategory, session_wf, DialogueState, SessionView,
};
use crate::ledger::{
    commit_step, expense_record, month_database_id, year_page_id, ChildEntry, CommitStage,
    CommitView, Expense, FieldView, LedgerReply,
};
use crate::store::{after_checkout, checkout_result, SlotView};

verus! {

/// What can happen to a session.
pub enum Event {
    /// The command that starts a new expense.
    Begin,
    /// A text that is not a command.
    Text(Seq<char>),
    /// The commit of the pending amount was attempted, with either outcome.
    CommitAttempted,
}

pub open spec fn next_session(
    s: SessionView,
    categories: Seq<Seq<char>>,
    subcategories: Seq<Seq<char>>,
    e: Event,
) -> SessionView {
    match e {
        Event::Begin => fresh_flow(),
        Event::Text(t) => after_text(s, categories, subcategories, t),
        Event::CommitAttempted => after_commit(s),
    }
}

/// The transitions of the flow: staying put, restarting at the category
/// step, or moving one step along the cycle.
pub open spec fn allowed_transition(from: DialogueState, to: DialogueState) -> bool {
    ||| from == to
    ||| to == DialogueState::WaitingForCategory
    ||| from == DialogueState::WaitingForCategory && to == DialogueState::WaitingForSubcategory
    ||| from == DialogueState::WaitingForSubcategory && to == DialogueState::WaitingForAmount
    ||| from == DialogueState::WaitingForAmount && to == DialogueState::Start
}

/// Every event moves a well-formed session along the diagram of the flow
/// and keeps it well formed; in particular the amount step is only ever
/// entered from the subcategory step.
pub proof fn lemma_transitions_follow_diagram(
    s: SessionView,
    categories: Seq<Seq<char>>,
    subcategories: Seq<Seq<char>>,
    e: Event,
)
    requires
        session_wf(s),
    ensures
        allowed_transition(s.phase, next_session(s, categories, subcategories, e).phase),
        session_wf(next_session(s, categories, subcategories, e)),
        next_session(s, categories, subcategories, e).phase == DialogueState::WaitingForAmount
            && s.phase != DialogueState::WaitingForAmount ==> s.phase
            == DialogueState::WaitingForSubcategory,
{
}

/// Refusing a text that is not a configured category changes nothing, so
/// the same text sent twice leaves the same phase and selections, and gets
/// the same reply, both times.
pub proof fn lemma_category_rejection_idempotent(
    s: SessionView,
    categories: Seq<Seq<char>>,
    subcategories: Seq<Seq<char>>,
    t: Seq<char>,
)
    requires
        !categories.contains(t),
    ensures
        after_category(s, categories, t) == s,
        after_category(after_category(s, categories, t), categories, t) == after_category(
            s,
            categories,
            t,
        ),
        category_reply(after_category(s, categories, t), categories, subcategories, t)
            == category_reply(s, categories, subcategories, t),
{
}

/// An accepted amount is the typed number, at least zero, rounded to
/// hundredths; and that is the amount the record of its expense carries.
pub proof fn lemma_record_amount_is_rounded(t: Seq<char>, e: Expense)
    requires
        amount_of(t) == Ok::<u64, AmountError>(e.amount),
    ensures
        parse_decimal(t) is Some,
        !(parse_decimal(t)->0.negative && mantissa(parse_decimal(t)->0) > 0),
        e.amount == rounded_hundredths(parse_decimal(t)->0),
        expense_record(e)[0] == ("Amount"@, FieldView::Number(rounded_hundredths(parse_decimal(t)->0))),
{
}

/// With the empty sentinel as subcategory, the record has no subcategory
/// field and the confirmation has no subcategory line.
pub proof fn lemma_empty_sentinel_omitted(e: Expense, currency: Seq<char>)
    requires
        no_subcategory(e.subcategory@),
    ensures
        forall|i: int| 0 <= i < expense_record(e).len() ==> (#[trigger] expense_record(e)[i]).0
            != "Subcategory"@,
        confirmation_text(e.amount as nat, currency, e.category@, e.subcategory@)
            == "✅ <b>Expense added</b>!\n\n<b>Amount</b>: "@ + amount_text(e.amount as nat) + " "@
            + currency + "\n<b>Category</b>: "@ + e.category@,
{
    reveal_strlit("Subcategory");
    reveal_strlit("Amount");
    reveal_strlit("Category");
    reveal_strlit("Comment");
    assert(expense_record(e) =~= seq![
        ("Amount"@, FieldView::Number(e.amount as nat)),
        ("Category"@, FieldView::Select(e.category@)),
        ("Comment"@, FieldView::RichText(crate::ledger::provenance_text())),
    ]);
    assert("Amount"@.len() != "Subcategory"@.len());
    assert("Category"@.len() != "Subcategory"@.len());
    assert("Comment"@.len() != "Subcategory"@.len());
    let prefix = "✅ <b>Expense added</b>!\n\n<b>Amount</b>: "@ + amount_text(e.amount as nat) + " "@
        + currency + "\n<b>Category</b>: "@ + e.category@;
    assert(prefix + Seq::<char>::empty() =~= prefix);
}

/// While one transition holds the session of a key, a second check-out of
/// that key gets nothing, so two transitions never read the same state; a
/// check-out of any other key is answered as if the first had not happened.
pub proof fn lemma_checkout_exclusive(m: Map<u64, SlotView>, key: u64, other: u64)
    requires
        checkout_result(m, key) is Some,
    ensures
        checkout_result(after_checkout(m, key), key) is None,
        other != key ==> checkout_result(after_checkout(m, key), other) == checkout_result(m, other),
        other != key ==> after_checkout(after_checkout(m, key), other) == after_checkout(
            after_checkout(m, other),
            key,
        ),
{
    if other != key && checkout_result(m, other) is Some {
        assert(after_checkout(after_checkout(m, key), other) =~= after_checkout(
            after_checkout(m, other),
            key,
        ));
    }
}

/// Putting back the session of one key leaves what every other key would
/// check out unchanged: identities never see each other's selections.
pub proof fn lemma_sessions_isolated(
    m: Map<u64, SlotView>,
    key: u64,
    s: SessionView,
    other: u64,
)
    requires
        other != key,
    ensures
        checkout_result(m.insert(key, SlotView::Free(s)), other) == checkout_result(m, other),
        checkout_result(m.insert(key, SlotView::Free(s)), key) == Some(s),
{
}

/// The number of records that a workflow asks to write when fed `replies`.
pub open spec fn writes(w: CommitView, replies: Seq<LedgerReply>) -> nat
    decreases replies.len(),
{
    if replies.len() == 0 {
        0
    } else {
        let (w2, call) = commit_step(w, replies[0]);
        (if call is CreateRecord {
            1nat
        } else {
            0nat
        }) + writes(w2, replies.drop_first())
    }
}

/// Whatever the ledger answers, one commit asks for at most one record to
/// be written, and none once it has reached the submission.
pub proof fn lemma_at_most_one_write(w: CommitView, replies: Seq<LedgerReply>)
    ensures
        writes(w, replies) <= 1,
        (w.stage == CommitStage::Submit || w.stage == CommitStage::Finished) ==> writes(w, replies)
            == 0,
    decreases replies.len(),
{
    if replies.len() > 0 {
        let (w2, call) = commit_step(w, replies[0]);
        lemma_at_most_one_write(w2, replies.drop_first());
    }
}

/// When the page of the year cannot be found, nothing is written,
/// whatever comes after.
pub proof fn lemma_no_year_page_no_write(
    w: CommitView,
    children: Vec<ChildEntry>,
    replies: Seq<LedgerReply>,
)
    requires
        w.stage == CommitStage::FindYear,
        year_page_id(children@, w.period.year) is None,
    ensures
        writes(w, seq![LedgerReply::Children(children)] + replies) == 0,
{
    let all = seq![LedgerReply::Children(children)] + replies;
    assert(all[0] == LedgerReply::Children(children));
    assert(all.drop_first() =~= replies);
    let (w2, call) = commit_step(w, all[0]);
    lemma_at_most_one_write(w2, replies);
}

/// When the database of the month cannot be found, nothing is written,
/// whatever comes after.
pub proof fn lemma_no_month_database_no_write(
    w: CommitView,
    children: Vec<ChildEntry>,
    replies: Seq<LedgerReply>,
)
    requires
        w.stage == CommitStage::FindMonth,
        month_database_id(children@, w.period.month) is None,
    ensures
        writes(w, seq![LedgerReply::Children(children)] + replies) == 0,
{
    let all = seq![LedgerReply::Children(children)] + replies;
    assert(all[0] == LedgerReply::Children(children));
    assert(all.drop_first() =~= replies);
    let (w2, call) = commit_step(w, all[0]);
    lemma_at_most_one_write(w2, replies);
}

} // verus!
