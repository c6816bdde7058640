//! The conversation engine: one session's phase and selections, and the
//! transition taken for each inbound message.
//!
//! Each step only takes the texts meant for it: a text that names a
//! category is not taken unless a category is expected, and a text that the
//! step refuses leaves the session as it was.

use vstd::prelude::*;
use crate::amount::{
    amount_of, amount_text, fixed_amount_text, parse_amount, push_amount, push_fixed_amount,
    spells_negative, AmountError,
};
use crate::ledger::{CommitError, Expense};
use crate::text::str_equals;
use crate::utils::Config;

verus! {

/// The step of the expense-entry flow that a session is at.
#[derive(Clone, Copy, Debug, PartialEq, Eq, Structural)]
pub enum DialogueState {
    Start,
    WaitingForCategory,
    WaitingForSubcategory,
    WaitingForAmount,
}

/// The mathematical value of a session.
pub struct SessionView {
    pub phase: DialogueState,
    pub category: Option<Seq<char>>,
    pub subcategory: Option<Seq<char>>,
}

pub open spec fn opt_view(o: Option<String>) -> Option<Seq<char>> {
    match o {
        Some(s) => Some(s@),
        None => None,
    }
}

/// A category is held exactly from the subcategory step on, and a
/// subcategory exactly at the amount step.
pub open spec fn session_wf(s: SessionView) -> bool {
    match s.phase {
        DialogueState::Start | DialogueState::WaitingForCategory => s.category is None
            && s.subcategory is None,
        DialogueState::WaitingForSubcategory => s.category is Some && s.subcategory is None,
        DialogueState::WaitingForAmount => s.category is Some && s.subcategory is Some,
    }
}

/// One conversation's state: its phase and the selections made so far.
#[derive(Debug)]
pub struct State {
    selected_category: Option<String>,
    selected_subcategory: Option<String>,
    dialogue_state: DialogueState,
}

impl View for State {
    type V = SessionView;

    closed spec fn view(&self) -> SessionView {
        SessionView {
            phase: self.dialogue_state,
            category: opt_view(self.selected_category),
            subcategory: opt_view(self.selected_subcategory),
        }
    }
}

pub open spec fn idle() -> SessionView {
    SessionView { phase: DialogueState::Start, category: None, subcategory: None }
}

pub open spec fn fresh_flow() -> SessionView {
    SessionView { phase: DialogueState::WaitingForCategory, category: None, subcategory: None }
}

/// The characters of each string of a list.
pub open spec fn strings_view(v: Seq<String>) -> Seq<Seq<char>> {
    v.map_values(|s: String| s@)
}

/// The state after a text sent while a category is expected.
pub open spec fn after_category(s: SessionView, categories: Seq<Seq<char>>, t: Seq<char>) -> SessionView {
    if s.phase == DialogueState::WaitingForCategory && categories.contains(t) {
        SessionView { phase: DialogueState::WaitingForSubcategory, category: Some(t), subcategory: None }
    } else {
        s
    }
}

/// The state after a text sent while a subcategory is expected.
pub open spec fn after_subcategory(s: SessionView, subcategories: Seq<Seq<char>>, t: Seq<char>) -> SessionView {
    if s.phase == DialogueState::WaitingForSubcategory && subcategories.contains(t) {
        SessionView { phase: DialogueState::WaitingForAmount, category: s.category, subcategory: Some(t) }
    } else {
        s
    }
}

/// The state once the commit of an amount has been attempted, whatever its
/// outcome.
pub open spec fn after_commit(s: SessionView) -> SessionView {
    if s.phase == DialogueState::WaitingForAmount {
        idle()
    } else {
        s
    }
}

impl State {
    #[verifier::type_invariant]
    spec fn well_formed(self) -> bool {
        session_wf(self@)
    }

    /// A session that has not started a flow.
    pub fn idle() -> (r: State)
        ensures
            r@ == idle(),
    {
        State { selected_category: None, selected_subcategory: None, dialogue_state: DialogueState::Start }
    }

    pub fn dialogue_state(&self) -> (r: DialogueState)
        ensures
            r == self@.phase,
    {
        self.dialogue_state
    }

    pub fn selected_category(&self) -> (r: Option<String>)
        ensures
            opt_view(r) == self@.category,
    {
        match &self.selected_category {
            Some(c) => Some(c.clone()),
            None => None,
        }
    }

    pub fn selected_subcategory(&self) -> (r: Option<String>)
        ensures
            opt_view(r) == self@.subcategory,
    {
        match &self.selected_subcategory {
            Some(c) => Some(c.clone()),
            None => None,
        }
    }
}

impl Default for State {
    fn default() -> (r: State)
        ensures
            r@ == idle(),
    {
        State::idle()
    }
}

/// What the presentation layer is asked to show.
pub enum Effect {
    /// A message with a menu of choices.
    Choices { prompt: String, options: Vec<String> },
    /// A message; `html` asks for rich formatting.
    Text { text: String, html: bool },
    /// A message that also takes away any menu of choices.
    TextRemoveChoices { text: String },
    /// The "please wait" indicator.
    Waiting,
    /// Takes away the "please wait" indicator.
    StopWaiting,
}

pub enum EffectView {
    Choices(Seq<char>, Seq<Seq<char>>),
    Text(Seq<char>, bool),
    TextRemoveChoices(Seq<char>),
    Waiting,
    StopWaiting,
}

impl View for Effect {
    type V = EffectView;

    open spec fn view(&self) -> EffectView {
        match self {
            Effect::Choices { prompt, options } => EffectView::Choices(prompt@, strings_view(options@)),
            Effect::Text { text, html } => EffectView::Text(text@, *html),
            Effect::TextRemoveChoices { text } => EffectView::TextRemoveChoices(text@),
            Effect::Waiting => EffectView::Waiting,
            Effect::StopWaiting => EffectView::StopWaiting,
        }
    }
}

pub open spec fn effects_view(v: Seq<Effect>) -> Seq<EffectView> {
    v.map_values(|e: Effect| e@)
}

pub open spec fn new_expense_text() -> Seq<char> {
    "➕ Let's add a new expense!"@
}

pub open spec fn category_prompt() -> Seq<char> {
    "🗂️ Choose a category:"@
}

pub open spec fn subcategory_prompt() -> Seq<char> {
    "🗂️ Choose a subcategory:"@
}

pub open spec fn invalid_category_text() -> Seq<char> {
    "❌ Invalid category. Please choose from the existing ones."@
}

pub open spec fn invalid_subcategory_text() -> Seq<char> {
    "❌ Invalid subcategory. Please choose from the existing ones."@
}

pub open spec fn amount_prompt(currency: Seq<char>) -> Seq<char> {
    "💵 Enter the expense amount in "@ + currency + ":"@
}

pub open spec fn negative_amount_text() -> Seq<char> {
    "❌ The amount cannot be negative."@
}

pub open spec fn invalid_amount_text() -> Seq<char> {
    "❌ Invalid amount. Please enter a number."@
}

pub open spec fn commit_failed_text() -> Seq<char> {
    "❌ Error adding expense. Please try again."@
}

pub open spec fn not_authorized_text() -> Seq<char> {
    "❗ You are not authorized to use this bot."@
}

pub open spec fn welcome_text() -> Seq<char> {
    "<b>💰 Welcome to @NotExpenseBot!</b>\n\nThis bot makes it easy to track and save your expenses directly to a Notion database.\n\nUse /help to see available commands."@
}

/// The reserved subcategory values that mean "no subcategory".
pub open spec fn no_subcategory(s: Seq<char>) -> bool {
    s.len() == 0 || s == "[EMPTY]"@
}

pub open spec fn subcategory_line(sub: Seq<char>) -> Seq<char> {
    if no_subcategory(sub) {
        Seq::empty()
    } else {
        "\n<b>Subcategory</b>: "@ + sub
    }
}

/// The confirmation shown once an expense has been written.
pub open spec fn confirmation_text(
    amount: nat,
    currency: Seq<char>,
    category: Seq<char>,
    subcategory: Seq<char>,
) -> Seq<char> {
    "✅ <b>Expense added</b>!\n\n<b>Amount</b>: "@ + amount_text(amount) + " "@ + currency
        + "\n<b>Category</b>: "@ + category + subcategory_line(subcategory)
}

/// The replies to a text sent while a category may be expected.
pub open spec fn category_reply(
    s: SessionView,
    categories: Seq<Seq<char>>,
    subcategories: Seq<Seq<char>>,
    t: Seq<char>,
) -> Seq<EffectView> {
    if s.phase != DialogueState::WaitingForCategory {
        seq![]
    } else if categories.contains(t) {
        seq![EffectView::Choices(subcategory_prompt(), subcategories)]
    } else {
        seq![EffectView::Text(invalid_category_text(), false)]
    }
}

/// The replies to a text sent while a subcategory may be expected.
pub open spec fn subcategory_reply(
    s: SessionView,
    subcategories: Seq<Seq<char>>,
    currency: Seq<char>,
    t: Seq<char>,
) -> Seq<EffectView> {
    if s.phase != DialogueState::WaitingForSubcategory {
        seq![]
    } else if subcategories.contains(t) {
        seq![EffectView::TextRemoveChoices(amount_prompt(currency))]
    } else {
        seq![EffectView::Text(invalid_subcategory_text(), false)]
    }
}

/// The replies to a text sent while an amount may be expected.
pub open spec fn amount_reply(s: SessionView, t: Seq<char>) -> Seq<EffectView> {
    if s.phase != DialogueState::WaitingForAmount {
        seq![]
    } else {
        match amount_of(t) {
            Ok(_) => seq![EffectView::Waiting],
            Err(AmountError::Negative) => seq![EffectView::Text(negative_amount_text(), false)],
            Err(_) => seq![EffectView::Text(invalid_amount_text(), false)],
        }
    }
}

/// The reply to a message, and the expense to commit when the message
/// completed one.
pub struct Reply {
    pub effects: Vec<Effect>,
    pub expense: Option<Expense>,
}

fn text_effect(s: &str, html: bool) -> (r: Effect)
    ensures
        r@ == EffectView::Text(s@, html),
{
    Effect::Text { text: String::from_str(s), html }
}

fn copy_strings(v: &Vec<String>) -> (r: Vec<String>)
    ensures
        strings_view(r@) == strings_view(v@),
{
    let mut r: Vec<String> = Vec::new();
    let mut i: usize = 0;
    while i < v.len()
        invariant
            i <= v@.len(),
            r@.len() == i,
            strings_view(r@) == strings_view(v@.subrange(0, i as int)),
        decreases v@.len() - i,
    {
        let c = v[i].clone();
        assert(c@ == v@[i as int]@);
        let ghost before = r@;
        r.push(c);
        assert forall|j: int| 0 <= j < i + 1 implies #[trigger] strings_view(r@)[j] == strings_view(
            v@.subrange(0, i + 1),
        )[j] by {
            if j < i {
                assert(r@[j] == before[j]);
                assert(strings_view(before)[j] == strings_view(v@.subrange(0, i as int))[j]);
            }
        }
        assert(strings_view(r@) =~= strings_view(v@.subrange(0, i + 1)));
        i = i + 1;
    }
    assert(v@.subrange(0, v@.len() as int) =~= v@);
    r
}

/// Whether `t` is one of the strings of `list`.
pub fn contains_text(list: &Vec<String>, t: &str) -> (r: bool)
    ensures
        r == strings_view(list@).contains(t@),
{
    let mut i: usize = 0;
    while i < list.len()
        invariant
            i <= list@.len(),
            forall|j: int| 0 <= j < i ==> strings_view(list@)[j] != t@,
        decreases list@.len() - i,
    {
        if str_equals(list[i].as_str(), t) {
            assert(strings_view(list@)[i as int] == t@);
            return true;
        }
        i = i + 1;
    }
    false
}

/// Whether a subcategory is the reserved value that means "no subcategory".
pub fn is_empty_subcategory(subcategory: &str) -> (r: bool)
    ensures
        r == no_subcategory(subcategory@),
{
    subcategory.unicode_len() == 0 || str_equals(subcategory, "[EMPTY]")
}

/// Whether the sender of a message may use the bot.
pub fn is_authorized(config: &Config, user_id: u64) -> (r: bool)
    ensures
        r == (!config.restrict_access || config.allowed_users@.contains(user_id)),
{
    if !config.restrict_access {
        return true;
    }
    let mut i: usize = 0;
    while i < config.allowed_users.len()
        invariant
            i <= config.allowed_users@.len(),
            forall|j: int| 0 <= j < i ==> config.allowed_users@[j] != user_id,
        decreases config.allowed_users@.len() - i,
    {
        if config.allowed_users[i] == user_id {
            return true;
        }
        i = i + 1;
    }
    false
}

/// The reply to a sender that may not use the bot.
pub fn reply_not_authorized() -> (r: Effect)
    ensures
        r@ == EffectView::Text(not_authorized_text(), false),
{
    text_effect("❗ You are not authorized to use this bot.", false)
}

/// The welcome message.
pub fn start() -> (r: Effect)
    ensures
        r@ == EffectView::Text(welcome_text(), true),
{
    text_effect(
        "<b>💰 Welcome to @NotExpenseBot!</b>\n\nThis bot makes it easy to track and save your expenses directly to a Notion database.\n\nUse /help to see available commands.",
        true,
    )
}

/// Starts a new expense from any phase: the selections are cleared and the
/// categories are offered.
pub fn new(state: &mut State, config: &Config) -> (r: Vec<Effect>)
    ensures
        final(state)@ == fresh_flow(),
        effects_view(r@) == seq![
            EffectView::Text(new_expense_text(), false),
            EffectView::Choices(category_prompt(), strings_view(config.categories@)),
        ],
{
    *state = State {
        selected_category: None,
        selected_subcategory: None,
        dialogue_state: DialogueState::WaitingForCategory,
    };
    let mut r: Vec<Effect> = Vec::new();
    r.push(text_effect("➕ Let's add a new expense!", false));
    r.push(
        Effect::Choices {
            prompt: String::from_str("🗂️ Choose a category:"),
            options: copy_strings(&config.categories),
        },
    );
    assert(effects_view(r@) =~= seq![
        EffectView::Text(new_expense_text(), false),
        EffectView::Choices(category_prompt(), strings_view(config.categories@)),
    ]);
    r
}

/// Takes a category. Only while a category is expected; a text that is not
/// one of the configured categories is refused and changes nothing.
pub fn handle_category_selection(state: &mut State, config: &Config, text: &str) -> (r: Vec<Effect>)
    ensures
        final(state)@ == after_category(old(state)@, strings_view(config.categories@), text@),
        effects_view(r@) == category_reply(
            old(state)@,
            strings_view(config.categories@),
            strings_view(config.subcategories@),
            text@,
        ),
{
    let mut r: Vec<Effect> = Vec::new();
    if state.dialogue_state != DialogueState::WaitingForCategory {
        assert(effects_view(r@) =~= seq![]);
        return r;
    }
    if contains_text(&config.categories, text) {
        *state = State {
            selected_category: Some(String::from_str(text)),
            selected_subcategory: None,
            dialogue_state: DialogueState::WaitingForSubcategory,
        };
        r.push(
            Effect::Choices {
                prompt: String::from_str("🗂️ Choose a subcategory:"),
                options: copy_strings(&config.subcategories),
            },
        );
    } else {
        r.push(text_effect("❌ Invalid category. Please choose from the existing ones.", false));
    }
    assert(effects_view(r@) =~= category_reply(
        old(state)@,
        strings_view(config.categories@),
        strings_view(config.subcategories@),
        text@,
    ));
    r
}

/// Takes a subcategory. Only while a subcategory is expected; a text that
/// is not one of the configured subcategories is refused and changes
/// nothing.
pub fn handle_subcategory_selection(state: &mut State, config: &Config, text: &str) -> (r: Vec<
    Effect,
>)
    ensures
        final(state)@ == after_subcategory(old(state)@, strings_view(config.subcategories@), text@),
        effects_view(r@) == subcategory_reply(
            old(state)@,
            strings_view(config.subcategories@),
            config.default_currency@,
            text@,
        ),
{
    proof {
        use_type_invariant(&*state);
    }
    let mut r: Vec<Effect> = Vec::new();
    if state.dialogue_state != DialogueState::WaitingForSubcategory {
        assert(effects_view(r@) =~= seq![]);
        return r;
    }
    if contains_text(&config.subcategories, text) {
        let category = state.selected_category();
        *state = State {
            selected_category: category,
            selected_subcategory: Some(String::from_str(text)),
            dialogue_state: DialogueState::WaitingForAmount,
        };
        let mut prompt = String::from_str("💵 Enter the expense amount in ");
        prompt.append(config.default_currency.as_str());
        prompt.append(":");
        r.push(Effect::TextRemoveChoices { text: prompt });
    } else {
        r.push(text_effect("❌ Invalid subcategory. Please choose from the existing ones.", false));
    }
    assert(effects_view(r@) =~= subcategory_reply(
        old(state)@,
        strings_view(config.subcategories@),
        config.default_currency@,
        text@,
    ));
    r
}

/// Reads an amount. Only while an amount is expected; the session is not
/// changed here. A valid amount gives the expense to commit, with the "please
/// wait" indicator; the caller commits it while it keeps the session to
/// itself, then calls `finish_amount_input`. Text that is not a number, or a
/// number below zero, is refused so that the user may try again.
pub fn handle_amount_input(state: &State, text: &str) -> (r: Reply)
    ensures
        effects_view(r.effects@) == amount_reply(state@, text@),
        r.expense is Some <==> (state@.phase == DialogueState::WaitingForAmount
            && amount_of(text@) is Ok),
        r.expense matches Some(e) ==> {
            &&& amount_of(text@) == Ok::<u64, AmountError>(e.amount)
            &&& state@.category == Some(e.category@)
            &&& state@.subcategory == Some(e.subcategory@)
        },
        spells_negative(text@) ==> r.expense is None,
{
    proof {
        use_type_invariant(state);
    }
    let mut effects: Vec<Effect> = Vec::new();
    if state.dialogue_state != DialogueState::WaitingForAmount {
        assert(effects_view(effects@) =~= seq![]);
        return Reply { effects, expense: None };
    }
    match parse_amount(text) {
        Ok(amount) => {
            let category = match &state.selected_category {
                Some(c) => c.clone(),
                None => String::new(),
            };
            let subcategory = match &state.selected_subcategory {
                Some(c) => c.clone(),
                None => String::new(),
            };
            effects.push(Effect::Waiting);
            assert(effects_view(effects@) =~= amount_reply(state@, text@));
            Reply { effects, expense: Some(Expense { amount, category, subcategory }) }
        },
        Err(AmountError::Negative) => {
            effects.push(text_effect("❌ The amount cannot be negative.", false));
            assert(effects_view(effects@) =~= amount_reply(state@, text@));
            Reply { effects, expense: None }
        },
        Err(_) => {
            effects.push(text_effect("❌ Invalid amount. Please enter a number.", false));
            assert(effects_view(effects@) =~= amount_reply(state@, text@));
            Reply { effects, expense: None }
        },
    }
}

/// The replies once the commit of `e` has been attempted.
pub open spec fn commit_reply(
    s: SessionView,
    currency: Seq<char>,
    e: Expense,
    committed: bool,
) -> Seq<EffectView> {
    if s.phase != DialogueState::WaitingForAmount {
        seq![]
    } else if committed {
        seq![
            EffectView::StopWaiting,
            EffectView::Text(
                confirmation_text(e.amount as nat, currency, e.category@, e.subcategory@),
                true,
            ),
        ]
    } else {
        seq![EffectView::StopWaiting, EffectView::Text(commit_failed_text(), false)]
    }
}

/// The text that confirms that `e` was written.
fn confirmation(currency: &String, e: &Expense) -> (r: String)
    ensures
        r@ == confirmation_text(e.amount as nat, currency@, e.category@, e.subcategory@),
{
    let mut m = String::from_str("✅ <b>Expense added</b>!\n\n<b>Amount</b>: ");
    push_amount(&mut m, e.amount);
    m.append(" ");
    m.append(currency.as_str());
    m.append("\n<b>Category</b>: ");
    m.append(e.category.as_str());
    if !is_empty_subcategory(e.subcategory.as_str()) {
        m.append("\n<b>Subcategory</b>: ");
        m.append(e.subcategory.as_str());
    }
    assert(m@ =~= confirmation_text(e.amount as nat, currency@, e.category@, e.subcategory@));
    m
}

/// Ends the amount step once the commit of `expense` has been attempted,
/// `committed` telling whether it was written. Either way the session goes
/// back to the start with its selections cleared; the user sees the
/// confirmation, which names the subcategory only when there is one, or a
/// general failure message.
pub fn finish_amount_input(
    state: &mut State,
    config: &Config,
    expense: &Expense,
    committed: bool,
) -> (r: Vec<Effect>)
    ensures
        final(state)@ == after_commit(old(state)@),
        effects_view(r@) == commit_reply(old(state)@, config.default_currency@, *expense, committed),
{
    let mut r: Vec<Effect> = Vec::new();
    if state.dialogue_state != DialogueState::WaitingForAmount {
        assert(effects_view(r@) =~= seq![]);
        return r;
    }
    *state = State::idle();
    r.push(Effect::StopWaiting);
    if committed {
        r.push(Effect::Text { text: confirmation(&config.default_currency, expense), html: true });
    } else {
        r.push(text_effect("❌ Error adding expense. Please try again.", false));
    }
    assert(effects_view(r@) =~= commit_reply(
        old(state)@,
        config.default_currency@,
        *expense,
        committed,
    ));
    r
}

/// The state after a text that is not a command: the text goes to the step
/// that the session is at.
pub open spec fn after_text(
    s: SessionView,
    categories: Seq<Seq<char>>,
    subcategories: Seq<Seq<char>>,
    t: Seq<char>,
) -> SessionView {
    match s.phase {
        DialogueState::WaitingForCategory => after_category(s, categories, t),
        DialogueState::WaitingForSubcategory => after_subcategory(s, subcategories, t),
        _ => s,
    }
}

/// Routes a text that is not a command to the step that the session is at.
/// Outside a flow the text is ignored.
pub fn handle_message(state: &mut State, config: &Config, text: &str) -> (r: Reply)
    ensures
        final(state)@ == after_text(
            old(state)@,
            strings_view(config.categories@),
            strings_view(config.subcategories@),
            text@,
        ),
        effects_view(r.effects@) == match old(state)@.phase {
            DialogueState::Start => seq![],
            DialogueState::WaitingForCategory => category_reply(
                old(state)@,
                strings_view(config.categories@),
                strings_view(config.subcategories@),
                text@,
            ),
            DialogueState::WaitingForSubcategory => subcategory_reply(
                old(state)@,
                strings_view(config.subcategories@),
                config.default_currency@,
                text@,
            ),
            DialogueState::WaitingForAmount => amount_reply(old(state)@, text@),
        },
        r.expense is Some <==> (old(state)@.phase == DialogueState::WaitingForAmount
            && amount_of(text@) is Ok),
        r.expense matches Some(e) ==> {
            &&& amount_of(text@) == Ok::<u64, AmountError>(e.amount)
            &&& old(state)@.category == Some(e.category@)
            &&& old(state)@.subcategory == Some(e.subcategory@)
        },
{
    match state.dialogue_state {
        DialogueState::Start => {
            let effects: Vec<Effect> = Vec::new();
            assert(effects_view(effects@) =~= seq![]);
            Reply { effects, expense: None }
        },
        DialogueState::WaitingForCategory => {
            let effects = handle_category_selection(state, config, text);
            Reply { effects, expense: None }
        },
        DialogueState::WaitingForSubcategory => {
            let effects = handle_subcategory_selection(state, config, text);
            Reply { effects, expense: None }
        },
        DialogueState::WaitingForAmount => handle_amount_input(state, text),
    }
}

pub open spec fn row_end(i: int, n: int) -> int {
    if 2 * i + 2 <= n {
        2 * i + 2
    } else {
        n
    }
}

/// Lays out the options of a menu two per row, in order; the last row has
/// one option when their number is odd.
pub fn choice_rows(options: &Vec<String>) -> (r: Vec<Vec<String>>)
    ensures
        r@.len() == (options@.len() + 1) / 2,
        forall|i: int|
            0 <= i < r@.len() ==> strings_view(#[trigger] r@[i]@) == strings_view(options@).subrange(
                2 * i,
                row_end(i, options@.len() as int),
            ),
{
    let n = options.len();
    let mut r: Vec<Vec<String>> = Vec::new();
    let mut i: usize = 0;
    while i < n
        invariant
            n == options@.len(),
            i <= n,
            i % 2 == 0 || i == n,
            r@.len() == (i + 1) / 2,
            forall|j: int|
                0 <= j < r@.len() ==> strings_view(#[trigger] r@[j]@) == strings_view(
                    options@,
                ).subrange(2 * j, row_end(j, n as int)),
        decreases n - i,
    {
        let mut row: Vec<String> = Vec::new();
        row.push(options[i].clone());
        if i + 1 < n {
            row.push(options[i + 1].clone());
        }
        let ghost k = r@.len() as int;
        assert(2 * k == i);
        assert(strings_view(row@) =~= strings_view(options@).subrange(2 * k, row_end(k, n as int)));
        r.push(row);
        i = if i + 1 < n {
            i + 2
        } else {
            n
        };
    }
    r
}

pub open spec fn total_text(total: int, currency: Seq<char>) -> Seq<char> {
    "💰 <b>Total expenses for this month:</b> "@ + fixed_amount_text(total) + " "@ + currency
}

pub open spec fn total_failed_text() -> Seq<char> {
    "❌ Failed to retrieve the total amount due to unknown reason. Please try again."@
}

/// The reply to a request for the month's total, once the ledger has been
/// read: the total with two decimals and the currency, or a general
/// failure message.
pub fn get_total_expense(config: &Config, outcome: &Result<i64, CommitError>) -> (r: Effect)
    ensures
        r@ == match outcome {
            Ok(t) => EffectView::Text(total_text(*t as int, config.default_currency@), true),
            Err(_) => EffectView::Text(total_failed_text(), false),
        },
{
    match outcome {
        Ok(t) => {
            let mut m = String::from_str("💰 <b>Total expenses for this month:</b> ");
            push_fixed_amount(&mut m, *t);
            m.append(" ");
            m.append(config.default_currency.as_str());
            assert(m@ =~= total_text(*t as int, config.default_currency@));
            Effect::Text { text: m, html: true }
        },
        Err(_) => text_effect(
            "❌ Failed to retrieve the total amount due to unknown reason. Please try again.",
            false,
        ),
    }
}

} // verus!
