use not_expense_bot::conversation::{
    choice_rows, finish_amount_input, handle_amount_input, handle_category_selection,
    handle_message, handle_subcategory_selection, is_authorized, is_empty_subcategory, new,
    reply_not_authorized, start, DialogueState, Effect, State,
};
use not_expense_bot::ledger::{
    find_year_page, ChildEntry, ChildKind, CommitError, CommitWorkflow, FieldValue, LedgerCall,
    LedgerReply, Period,
};
use not_expense_bot::utils::Config;

fn config() -> Config {
    Config {
        teloxide_token: "t".to_string(),
        notion_token: "n".to_string(),
        notion_parent_page_id: "root".to_string(),
        log_path: "bot.log".to_string(),
        restrict_access: true,
        allowed_users: vec![11, 42],
        categories: vec!["Food".to_string(), "Transport".to_string(), "Home".to_string()],
        subcategories: vec![
            "Groceries".to_string(),
            "Restaurants".to_string(),
            "[EMPTY]".to_string(),
        ],
        default_currency: "EUR".to_string(),
    }
}

fn entry(kind: ChildKind, title: &str, id: &str) -> ChildEntry {
    ChildEntry { kind, title: title.to_string(), id: id.to_string() }
}

fn text_of(e: &Effect) -> (String, bool) {
    match e {
        Effect::Text { text, html } => (text.clone(), *html),
        _ => panic!("not a text"),
    }
}

fn field_names(fields: &[not_expense_bot::ledger::Field]) -> Vec<String> {
    fields.iter().map(|f| f.name.clone()).collect()
}

/// Runs the ledger side of a commit with the given replies to the two
/// listings, answering a record creation with `created`.
fn run_commit(
    e: not_expense_bot::ledger::Expense,
    parent: Vec<ChildEntry>,
    year: Vec<ChildEntry>,
    created: bool,
    writes: &mut Vec<Vec<String>>,
) -> (CommitWorkflow, Result<(), CommitError>) {
    let period = Period { year: 2024, month: 5 };
    let (mut wf, mut call) = CommitWorkflow::for_period("root", period, e);
    let mut listings = vec![parent, year].into_iter();
    loop {
        let reply = match call {
            LedgerCall::ListChildren { .. } => LedgerReply::Children(listings.next().unwrap_or_default()),
            LedgerCall::CreateRecord { fields, .. } => {
                writes.push(field_names(&fields));
                if created { LedgerReply::Created } else { LedgerReply::Failed }
            }
            LedgerCall::Finish { outcome } => return (wf, outcome),
        };
        call = wf.advance(reply);
    }
}

fn select(state: &mut State, cfg: &Config, category: &str, subcategory: &str) {
    new(state, cfg);
    handle_message(state, cfg, category);
    handle_message(state, cfg, subcategory);
    assert_eq!(state.dialogue_state(), DialogueState::WaitingForAmount);
}

#[test]
fn flow_full_flow_with_subcategory() {
    let cfg = config();
    let mut state = State::default();
    let fx = new(&mut state, &cfg);
    assert_eq!(fx.len(), 2);
    assert_eq!(text_of(&fx[0]), ("➕ Let's add a new expense!".to_string(), false));
    match &fx[1] {
        Effect::Choices { prompt, options } => {
            assert_eq!(prompt, "🗂️ Choose a category:");
            assert_eq!(options, &cfg.categories);
        }
        _ => panic!("expected the category menu"),
    }
    let r = handle_message(&mut state, &cfg, "Food");
    assert!(r.expense.is_none());
    match &r.effects[..] {
        [Effect::Choices { prompt, options }] => {
            assert_eq!(prompt, "🗂️ Choose a subcategory:");
            assert_eq!(options, &cfg.subcategories);
        }
        _ => panic!("expected the subcategory menu"),
    }
    let r = handle_message(&mut state, &cfg, "Groceries");
    match &r.effects[..] {
        [Effect::TextRemoveChoices { text }] => {
            assert_eq!(text, "💵 Enter the expense amount in EUR:")
        }
        _ => panic!("expected the amount prompt"),
    }
    let r = handle_message(&mut state, &cfg, "12.345");
    assert!(matches!(&r.effects[..], [Effect::Waiting]));
    let e = r.expense.expect("an expense to commit");
    assert_eq!(e.amount, 1235);
    assert_eq!(e.category, "Food");
    assert_eq!(e.subcategory, "Groceries");
    let parent = vec![
        entry(ChildKind::Page, "notes", "p0"),
        entry(ChildKind::Page, "2023", "y23"),
        entry(ChildKind::Page, "2024", "y24"),
    ];
    let year = vec![
        entry(ChildKind::Database, "April", "db4"),
        entry(ChildKind::Database, "May", "db5"),
    ];
    let mut writes = Vec::new();
    let (wf, outcome) = run_commit(e, parent, year, true, &mut writes);
    assert_eq!(outcome, Ok(()));
    assert_eq!(writes, vec![vec!["Amount", "Category", "Subcategory", "Comment"]]);
    let fx = finish_amount_input(&mut state, &cfg, wf.expense(), outcome.is_ok());
    assert!(matches!(fx[0], Effect::StopWaiting));
    let (text, html) = text_of(&fx[1]);
    assert!(html);
    assert_eq!(
        text,
        "✅ <b>Expense added</b>!\n\n<b>Amount</b>: 12.35 EUR\n<b>Category</b>: Food\n<b>Subcategory</b>: Groceries"
    );
    assert_eq!(state.dialogue_state(), DialogueState::Start);
    assert_eq!(state.selected_category(), None);
    assert_eq!(state.selected_subcategory(), None);
}

#[test]
fn flow_unknown_category_is_refused() {
    let cfg = config();
    let mut state = State::default();
    new(&mut state, &cfg);
    let fx = handle_category_selection(&mut state, &cfg, "Bogus");
    assert_eq!(fx.len(), 1);
    assert_eq!(
        text_of(&fx[0]),
        ("❌ Invalid category. Please choose from the existing ones.".to_string(), false)
    );
    assert_eq!(state.dialogue_state(), DialogueState::WaitingForCategory);
    assert_eq!(state.selected_category(), None);
}

#[test]
fn flow_empty_sentinel_subcategory() {
    let cfg = config();
    let mut state = State::default();
    select(&mut state, &cfg, "Food", "[EMPTY]");
    let r = handle_amount_input(&state, "5");
    let e = r.expense.expect("an expense to commit");
    assert_eq!(e.amount, 500);
    let parent = vec![entry(ChildKind::Page, "2024", "y24")];
    let year = vec![entry(ChildKind::Database, "may", "db5")];
    let mut writes = Vec::new();
    let (wf, outcome) = run_commit(e, parent, year, true, &mut writes);
    assert_eq!(outcome, Ok(()));
    assert_eq!(writes, vec![vec!["Amount", "Category", "Comment"]]);
    let fx = finish_amount_input(&mut state, &cfg, wf.expense(), true);
    let (text, _) = text_of(&fx[1]);
    assert_eq!(text, "✅ <b>Expense added</b>!\n\n<b>Amount</b>: 5 EUR\n<b>Category</b>: Food");
    assert!(!text.contains("Subcategory"));
    assert_eq!(state.dialogue_state(), DialogueState::Start);
}

#[test]
fn flow_no_destination_for_period() {
    let cfg = config();
    let mut state = State::default();
    select(&mut state, &cfg, "Food", "Groceries");
    let r = handle_amount_input(&state, "5");
    let e = r.expense.expect("an expense to commit");
    let mut writes = Vec::new();
    let parent = vec![entry(ChildKind::Page, "2023", "y23"), entry(ChildKind::Database, "2024", "d")];
    let (wf, outcome) = run_commit(e, parent, vec![], true, &mut writes);
    assert_eq!(outcome, Err(CommitError::NoYearPage { year: 2024 }));
    assert!(writes.is_empty());
    let fx = finish_amount_input(&mut state, &cfg, wf.expense(), outcome.is_ok());
    assert!(matches!(fx[0], Effect::StopWaiting));
    assert_eq!(text_of(&fx[1]), ("❌ Error adding expense. Please try again.".to_string(), false));
    assert_eq!(state.dialogue_state(), DialogueState::Start);
    assert_eq!(state.selected_category(), None);
}

#[test]
fn no_month_database_writes_nothing() {
    let cfg = config();
    let mut state = State::default();
    select(&mut state, &cfg, "Home", "Restaurants");
    let e = handle_amount_input(&state, "1").expense.unwrap();
    let mut writes = Vec::new();
    let parent = vec![entry(ChildKind::Page, "+2024", "y24")];
    let year = vec![entry(ChildKind::Database, "April", "db4"), entry(ChildKind::Page, "May", "p")];
    let (_, outcome) = run_commit(e, parent, year, true, &mut writes);
    assert_eq!(outcome, Err(CommitError::NoMonthDatabase { year: 2024, month: 5 }));
    assert!(writes.is_empty());
}

#[test]
fn refused_write_is_a_submit_failure_and_not_retried() {
    let cfg = config();
    let mut state = State::default();
    select(&mut state, &cfg, "Food", "Groceries");
    let e = handle_amount_input(&state, "3.5").expense.unwrap();
    let mut writes = Vec::new();
    let parent = vec![entry(ChildKind::Page, "2024", "y24")];
    let year = vec![entry(ChildKind::Database, "MAY", "db5")];
    let (mut wf, outcome) = run_commit(e, parent, year, false, &mut writes);
    assert_eq!(outcome, Err(CommitError::SubmitFailed));
    assert_eq!(writes.len(), 1);
    assert!(matches!(wf.advance(LedgerReply::Created), LedgerCall::Finish { outcome: Err(CommitError::SubmitFailed) }));
}

#[test]
fn failed_listing_is_a_lookup_failure() {
    let e = not_expense_bot::ledger::Expense {
        amount: 1,
        category: "Food".to_string(),
        subcategory: String::new(),
    };
    let (mut wf, _) = CommitWorkflow::for_period("root", Period { year: 2024, month: 5 }, e);
    assert!(matches!(wf.advance(LedgerReply::Failed), LedgerCall::Finish { outcome: Err(CommitError::LookupFailed) }));
}

#[test]
fn record_fields_carry_the_expense() {
    let e = not_expense_bot::ledger::Expense {
        amount: 1235,
        category: "Food".to_string(),
        subcategory: "Groceries".to_string(),
    };
    let fields = not_expense_bot::ledger::build_record(&e);
    assert_eq!(fields.len(), 4);
    assert!(matches!(fields[0].value, FieldValue::Number(1235)));
    assert!(matches!(&fields[1].value, FieldValue::Select(s) if s == "Food"));
    assert!(matches!(&fields[2].value, FieldValue::Select(s) if s == "Groceries"));
    assert!(matches!(&fields[3].value, FieldValue::RichText(s) if s == "Added by @NotExpenseBot"));
    let empty = not_expense_bot::ledger::Expense { subcategory: String::new(), ..e };
    assert_eq!(field_names(&not_expense_bot::ledger::build_record(&empty)), vec!["Amount", "Category", "Comment"]);
}

#[test]
fn rejecting_same_category_twice_is_idempotent() {
    let cfg = config();
    let mut state = State::default();
    new(&mut state, &cfg);
    let first = handle_category_selection(&mut state, &cfg, "food");
    let after_first = (state.dialogue_state(), state.selected_category(), state.selected_subcategory());
    let second = handle_category_selection(&mut state, &cfg, "food");
    let after_second = (state.dialogue_state(), state.selected_category(), state.selected_subcategory());
    assert_eq!(after_first, after_second);
    assert_eq!(after_first, (DialogueState::WaitingForCategory, None, None));
    assert_eq!(text_of(&first[0]), text_of(&second[0]));
}

#[test]
fn amount_step_cannot_be_reached_without_subcategory() {
    let cfg = config();
    let mut state = State::default();
    new(&mut state, &cfg);
    handle_message(&mut state, &cfg, "Food");
    let r = handle_message(&mut state, &cfg, "12");
    assert_eq!(state.dialogue_state(), DialogueState::WaitingForSubcategory);
    assert!(r.expense.is_none());
    assert_eq!(
        text_of(&r.effects[0]),
        ("❌ Invalid subcategory. Please choose from the existing ones.".to_string(), false)
    );
}

#[test]
fn text_outside_a_flow_is_ignored() {
    let cfg = config();
    let mut state = State::default();
    let r = handle_message(&mut state, &cfg, "Food");
    assert!(r.effects.is_empty());
    assert!(r.expense.is_none());
    assert_eq!(state.dialogue_state(), DialogueState::Start);
    let fx = handle_subcategory_selection(&mut state, &cfg, "Groceries");
    assert!(fx.is_empty());
    assert!(handle_amount_input(&state, "5").expense.is_none());
    assert!(finish_amount_input(&mut state, &cfg, &not_expense_bot::ledger::Expense {
        amount: 1,
        category: "Food".to_string(),
        subcategory: String::new(),
    }, true).is_empty());
}

#[test]
fn negative_amount_never_commits() {
    let cfg = config();
    let mut state = State::default();
    select(&mut state, &cfg, "Food", "Groceries");
    let r = handle_amount_input(&state, "-4.20");
    assert!(r.expense.is_none());
    assert_eq!(text_of(&r.effects[0]), ("❌ The amount cannot be negative.".to_string(), false));
    assert_eq!(state.dialogue_state(), DialogueState::WaitingForAmount);
}

#[test]
fn invalid_amount_keeps_the_step() {
    let cfg = config();
    let mut state = State::default();
    select(&mut state, &cfg, "Food", "Groceries");
    for t in ["twelve", "1e9", "99999999999999999999"] {
        let r = handle_message(&mut state, &cfg, t);
        assert!(r.expense.is_none());
        assert_eq!(text_of(&r.effects[0]), ("❌ Invalid amount. Please enter a number.".to_string(), false));
        assert_eq!(state.dialogue_state(), DialogueState::WaitingForAmount);
        assert_eq!(state.selected_category(), Some("Food".to_string()));
        assert_eq!(state.selected_subcategory(), Some("Groceries".to_string()));
    }
}

#[test]
fn begin_restarts_from_any_step() {
    let cfg = config();
    let mut state = State::default();
    select(&mut state, &cfg, "Food", "Groceries");
    new(&mut state, &cfg);
    assert_eq!(state.dialogue_state(), DialogueState::WaitingForCategory);
    assert_eq!(state.selected_category(), None);
    assert_eq!(state.selected_subcategory(), None);
}

#[test]
fn empty_subcategory_sentinels() {
    assert!(is_empty_subcategory(""));
    assert!(is_empty_subcategory("[EMPTY]"));
    assert!(!is_empty_subcategory("[empty]"));
    assert!(!is_empty_subcategory("Groceries"));
}

#[test]
fn authorization_allow_list() {
    let mut cfg = config();
    assert!(is_authorized(&cfg, 42));
    assert!(!is_authorized(&cfg, 43));
    cfg.restrict_access = false;
    assert!(is_authorized(&cfg, 43));
}

#[test]
fn fixed_replies() {
    assert_eq!(
        text_of(&reply_not_authorized()),
        ("❗ You are not authorized to use this bot.".to_string(), false)
    );
    let (welcome, html) = text_of(&start());
    assert!(html);
    assert!(welcome.starts_with("<b>💰 Welcome to @NotExpenseBot!</b>\n\n"));
    assert!(welcome.ends_with("Use /help to see available commands."));
}

#[test]
fn menu_rows_of_two() {
    let opts: Vec<String> = ["a", "b", "c", "d", "e"].iter().map(|s| s.to_string()).collect();
    let rows = choice_rows(&opts);
    assert_eq!(rows, vec![vec!["a", "b"], vec!["c", "d"], vec!["e"]]);
    assert!(choice_rows(&vec![]).is_empty());
    assert_eq!(choice_rows(&opts[..4].to_vec()).len(), 2);
}

#[test]
fn commit_for_current_month_starts_at_parent() {
    let e = not_expense_bot::ledger::Expense {
        amount: 1,
        category: "Food".to_string(),
        subcategory: String::new(),
    };
    let (wf, call) = CommitWorkflow::begin("root", e);
    assert!(matches!(call, LedgerCall::ListChildren { ref page_id } if page_id == "root"));
    let p = wf.period();
    assert!((1..=12).contains(&p.month));
}

#[test]
fn year_titles_must_be_whole_numbers() {
    let children = vec![
        entry(ChildKind::Page, "2024 ", "a"),
        entry(ChildKind::Page, "20x4", "b"),
        entry(ChildKind::Database, "2024", "c"),
        entry(ChildKind::Page, "02024", "d"),
        entry(ChildKind::Page, "2024", "e"),
    ];
    assert_eq!(find_year_page(&children, 2024), Some("d".to_string()));
    assert_eq!(find_year_page(&children, -2024), None);
    assert_eq!(find_year_page(&vec![entry(ChildKind::Page, "-7", "n")], -7), Some("n".to_string()));
}
