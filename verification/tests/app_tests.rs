use mtg_spoilers::card::Timestamp;
use mtg_spoilers::app::{App, AppMode, Key, PendingAction, TickWork};
use mtg_spoilers::card::{Card, Confidence};

fn card(id: &str) -> Card {
    Card {
        id: id.to_string(),
        name: format!("Card {}", id),
        set_code: "UNK".to_string(),
        mana_cost: None,
        card_type: None,
        text: None,
        power_toughness: None,
        loyalty: None,
        image_url: None,
        confidence: Confidence::Unverified,
        sources: vec![],
        first_seen: Timestamp { secs: 0, nanos: 0 },
        last_updated: Timestamp { secs: 0, nanos: 0 },
        is_fake: false,
    }
}

fn app(n: usize) -> App {
    App::new((0..n).map(|i| card(&i.to_string())).collect())
}

#[test]
fn new_app_starts_browsing_at_the_top() {
    let a = app(3);
    assert_eq!(a.selected_index, 0);
    assert_eq!(a.mode, AppMode::Normal);
    assert!(a.filter.hide_fake);
    assert!(a.filter.confidence.is_none() && a.filter.search.is_none() && a.filter.set_code.is_none());
    assert_eq!(a.selected_card().map(|c| c.id.as_str()), Some("0"));
}

#[test]
fn navigation_stays_on_the_list() {
    let mut a = app(3);
    a.on_key(Key::Char('k'));
    assert_eq!(a.selected_index, 0);
    a.on_key(Key::Down);
    a.on_key(Key::Char('j'));
    a.on_key(Key::Char('j'));
    assert_eq!(a.selected_index, 2);
    a.on_key(Key::Up);
    assert_eq!(a.selected_index, 1);
    a.on_key(Key::Char('G'));
    assert_eq!(a.selected_index, 2);
    a.on_key(Key::Char('g'));
    assert_eq!(a.selected_index, 0);
    let mut e = app(0);
    e.on_key(Key::Char('j'));
    e.on_key(Key::Char('G'));
    assert_eq!(e.selected_index, 0);
    assert!(e.selected_card().is_none());
}

#[test]
fn enter_and_x_need_a_card() {
    let mut e = app(0);
    e.on_key(Key::Enter);
    assert_eq!(e.mode, AppMode::Normal);
    e.on_key(Key::Char('x'));
    assert_eq!(e.mode, AppMode::Normal);
    let mut a = app(2);
    a.on_key(Key::Enter);
    assert_eq!(a.mode, AppMode::Detail);
    a.on_key(Key::Char('j'));
    assert_eq!(a.selected_index, 1);
    a.on_key(Key::Char('q'));
    assert_eq!(a.mode, AppMode::Normal);
    assert!(!a.should_quit);
}

#[test]
fn search_is_typed_trimmed_and_confirmed() {
    let mut a = app(1);
    a.on_key(Key::Char('/'));
    assert_eq!(a.mode, AppMode::Search);
    for c in " bolt x".chars() {
        a.on_key(Key::Char(c));
    }
    a.on_key(Key::Backspace);
    a.on_key(Key::Backspace);
    a.on_key(Key::Enter);
    assert_eq!(a.filter.search, Some("bolt".to_string()));
    assert_eq!(a.search_input, "");
    assert_eq!(a.mode, AppMode::Normal);
    assert!(a.needs_refresh);
    a.on_key(Key::Char('/'));
    assert_eq!(a.search_input, "bolt");
    a.on_key(Key::Esc);
    assert_eq!(a.search_input, "");
    assert_eq!(a.mode, AppMode::Normal);
    assert_eq!(a.filter.search, Some("bolt".to_string()));
    a.on_key(Key::Char('c'));
    assert_eq!(a.filter.search, None);
}

#[test]
fn blank_search_clears_the_search() {
    let mut a = app(1);
    a.filter.search = Some("old".to_string());
    a.on_key(Key::Char('/'));
    a.on_key(Key::Backspace);
    a.on_key(Key::Backspace);
    a.on_key(Key::Backspace);
    a.on_key(Key::Backspace);
    a.on_key(Key::Char(' '));
    a.on_key(Key::Enter);
    assert_eq!(a.filter.search, None);
}

#[test]
fn confidence_filter_cycles_with_period_three() {
    let mut a = app(1);
    a.on_key(Key::Char('f'));
    assert_eq!(a.mode, AppMode::Filter);
    a.on_key(Key::Char('c'));
    assert_eq!(a.filter.confidence, Some(Confidence::Verified));
    a.on_key(Key::Char('c'));
    assert_eq!(a.filter.confidence, Some(Confidence::Unverified));
    a.on_key(Key::Char('c'));
    assert_eq!(a.filter.confidence, None);
    a.on_key(Key::Char('h'));
    assert!(!a.filter.hide_fake);
    a.on_key(Key::Char('h'));
    assert!(a.filter.hide_fake);
    a.on_key(Key::Esc);
    assert_eq!(a.mode, AppMode::Normal);
}

#[test]
fn marking_fake_records_the_selected_card() {
    let mut a = app(3);
    a.on_key(Key::Char('j'));
    a.on_key(Key::Char('x'));
    assert_eq!(a.mode, AppMode::MarkingFake);
    a.on_key(Key::Char('y'));
    assert_eq!(a.mode, AppMode::Normal);
    match &a.pending_action {
        Some(PendingAction::MarkFake(id, f)) => {
            assert_eq!(id, "1");
            assert!(*f);
        }
        None => panic!("expected a pending action"),
    }
    let mut b = app(3);
    b.on_key(Key::Char('x'));
    b.on_key(Key::Char('n'));
    assert_eq!(b.mode, AppMode::Normal);
    assert!(b.pending_action.is_none());
}

#[test]
fn status_message_is_cleared_by_the_next_key() {
    let mut a = app(1);
    a.on_key(Key::Char('r'));
    assert_eq!(a.status_message, Some("Refreshing...".to_string()));
    assert!(a.needs_refresh);
    a.on_key(Key::Other);
    assert_eq!(a.status_message, None);
    a.on_key(Key::Esc);
    assert!(a.should_quit);
}

#[test]
fn tick_steps_report_back() {
    let mut a = app(5);
    a.on_key(Key::Char('G'));
    a.on_key(Key::Char('x'));
    a.on_key(Key::Char('y'));
    match a.tick() {
        TickWork::MarkFake(id, f) => {
            assert_eq!(id, "4");
            assert!(f);
        }
        _ => panic!("expected the mark-fake work"),
    }
    assert!(a.pending_action.is_none());
    a.mark_fake_done(true);
    assert_eq!(a.status_message, Some("Marked as fake.".to_string()));
    a.mark_fake_done(false);
    assert_eq!(a.status_message, Some("Unmarked.".to_string()));
    assert!(matches!(a.tick(), TickWork::Reload));
    assert!(matches!(a.tick(), TickWork::Idle));
    a.refresh(vec![card("a"), card("b")]);
    assert_eq!(a.selected_index, 1);
    a.refresh(vec![]);
    assert_eq!(a.selected_index, 0);
    a.refresh(vec![card("a"), card("b"), card("c")]);
    assert_eq!(a.selected_index, 0);
}

#[test]
fn footer_help_per_mode() {
    assert_eq!(AppMode::Search.help_text(), "Type to search | Enter: Confirm | Esc: Cancel");
    assert_eq!(AppMode::MarkingFake.help_text(), "y: Confirm Fake | n: Cancel");
    assert!(AppMode::Normal.help_text().starts_with("j/k: Navigate"));
}

#[test]
fn typing_then_erasing_restores_the_input() {
    let mut a = app(1);
    a.on_key(Key::Char('/'));
    a.on_key(Key::Char('a'));
    let before = a.search_input.clone();
    a.on_key(Key::Char('é'));
    a.on_key(Key::Backspace);
    assert_eq!(a.search_input, before);
    a.on_key(Key::Backspace);
    a.on_key(Key::Backspace);
    assert_eq!(a.search_input, "");
}

#[test]
fn ticks_drain_the_work() {
    let mut a = app(2);
    a.on_key(Key::Char('r'));
    a.on_key(Key::Char('x'));
    a.on_key(Key::Char('y'));
    assert!(matches!(a.tick(), TickWork::MarkFake(_, true)));
    assert!(matches!(a.tick(), TickWork::Reload));
    assert!(matches!(a.tick(), TickWork::Idle));
    assert_eq!(a.cards.len(), 2);
}

#[test]
fn filter_view_keys_stay_in_the_filter_view() {
    let mut a = app(1);
    a.on_key(Key::Char('f'));
    a.on_key(Key::Char('h'));
    assert_eq!(a.mode, AppMode::Filter);
    assert!(a.needs_refresh);
    a.on_key(Key::Char('c'));
    assert_eq!(a.mode, AppMode::Filter);
    a.on_key(Key::Char('z'));
    assert_eq!(a.mode, AppMode::Filter);
}
