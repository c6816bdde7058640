use not_expense_bot::conversation::{new, DialogueState, State};
use not_expense_bot::store::SessionStore;
use not_expense_bot::utils::Config;

fn config() -> Config {
    Config {
        teloxide_token: String::new(),
        notion_token: String::new(),
        notion_parent_page_id: String::new(),
        log_path: String::new(),
        restrict_access: false,
        allowed_users: vec![],
        categories: vec!["Food".to_string()],
        subcategories: vec!["Groceries".to_string()],
        default_currency: "EUR".to_string(),
    }
}

#[test]
fn new_identity_gets_idle_session() {
    let mut store = SessionStore::new();
    let s = store.checkout(7).expect("a fresh session");
    assert_eq!(s.dialogue_state(), DialogueState::Start);
    assert_eq!(s.selected_category(), None);
    assert!(store.is_checked_out(7));
}

#[test]
fn second_checkout_of_same_key_waits() {
    let mut store = SessionStore::new();
    let s = store.checkout(1).expect("first checkout");
    assert!(store.checkout(1).is_none());
    assert!(store.checkout(1).is_none());
    store.checkin(1, s);
    assert!(!store.is_checked_out(1));
    assert!(store.checkout(1).is_some());
}

#[test]
fn other_keys_are_not_blocked() {
    let mut store = SessionStore::new();
    let _a = store.checkout(1).expect("first key");
    let b = store.checkout(2).expect("second key while the first is out");
    assert_eq!(b.dialogue_state(), DialogueState::Start);
}

#[test]
fn identities_do_not_see_each_other() {
    let cfg = config();
    let mut store = SessionStore::new();
    let mut a = store.checkout(10).unwrap();
    new(&mut a, &cfg);
    store.checkin(10, a);
    let b = store.checkout(20).unwrap();
    assert_eq!(b.dialogue_state(), DialogueState::Start);
    store.checkin(20, b);
    let a = store.checkout(10).unwrap();
    assert_eq!(a.dialogue_state(), DialogueState::WaitingForCategory);
}

#[test]
fn checkin_keeps_the_session() {
    let cfg = config();
    let mut store = SessionStore::new();
    let mut s = State::default();
    new(&mut s, &cfg);
    store.checkin(3, s);
    let back = store.checkout(3).unwrap();
    assert_eq!(back.dialogue_state(), DialogueState::WaitingForCategory);
}
