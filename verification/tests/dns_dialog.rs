use mihomo_tui::action::Action;
use mihomo_tui::dns::{
    scrolled_answer_data, DnsAnswer, DnsQueryComponent, DnsRecordType, FocusedField, QueryOutcome, HORIZ_STEP,
    RECORD_TYPE_COUNT,
};
use mihomo_tui::key::{Key, KeyInput};
use mihomo_tui::shortcut::{Fragment, Shortcut};

fn key(code: Key) -> KeyInput {
    KeyInput::plain(code)
}

fn typed(component: &mut DnsQueryComponent, text: &str) {
    for c in text.chars() {
        component.handle_key_event(key(Key::Char(c)), true);
    }
}

#[test]
fn shortcuts_follow_focused_field() {
    let mut component = DnsQueryComponent::new();

    assert_eq!(
        component.shortcuts()[2],
        Shortcut::new(vec![Fragment::hl("←"), Fragment::raw(" type "), Fragment::hl("→")])
    );

    component.set_focused(FocusedField::Name);
    assert_eq!(
        component.shortcuts()[2],
        Shortcut::new(vec![Fragment::hl("←"), Fragment::raw(" cursor "), Fragment::hl("→")])
    );

    component.set_focused(FocusedField::Answers);
    assert_eq!(
        component.shortcuts()[2],
        Shortcut::new(vec![
            Fragment::hl("←"),
            Fragment::raw("/"),
            Fragment::hl("↑"),
            Fragment::raw(" nav "),
            Fragment::hl("↓"),
            Fragment::raw("/"),
            Fragment::hl("→"),
        ])
    );
}

#[test]
fn focus_change_sends_shortcuts() {
    let mut component = DnsQueryComponent::new();

    let result = component.handle_key_event(key(Key::Tab), true);

    assert!(result.focus_changed);
    assert_eq!(
        component.shortcuts()[2],
        Shortcut::new(vec![Fragment::hl("←"), Fragment::raw(" cursor "), Fragment::hl("→")])
    );
}

#[test]
fn answers_left_right_updates_horizontal_offset() {
    let mut component = DnsQueryComponent::new();
    component.set_focused(FocusedField::Answers);

    assert_eq!(component.answer_horiz_offset, 0);
    component.handle_key_event(key(Key::Right), true);
    assert_eq!(component.answer_horiz_offset, HORIZ_STEP);
    component.handle_key_event(key(Key::Left), true);
    assert_eq!(component.answer_horiz_offset, 0);
    component.handle_key_event(key(Key::Left), true);
    assert_eq!(component.answer_horiz_offset, 0);
}

#[test]
fn reset_answers_resets_horizontal_offset() {
    let mut component = DnsQueryComponent::new();
    component.answer_horiz_offset = HORIZ_STEP;

    component.reset_answers();

    assert_eq!(component.answer_horiz_offset, 0);
}

#[test]
fn scrolled_answer_data_uses_graphemes() {
    let mut component = DnsQueryComponent::new();
    component.answer_horiz_offset = 1;

    assert_eq!(component.scrolled_answer_data("a中b"), "中b");
}

#[test]
fn scrolled_answer_data_keeps_combined_characters_together() {
    assert_eq!(scrolled_answer_data(0, "abc"), "abc");
    assert_eq!(scrolled_answer_data(1, "e\u{301}xy"), "xy");
    assert_eq!(scrolled_answer_data(5, "ab"), "");
}

#[test]
fn record_type_wraps_both_ways() {
    let mut component = DnsQueryComponent::new();
    assert_eq!(component.current_record_type(), DnsRecordType::A);
    component.handle_key_event(key(Key::Left), true);
    assert_eq!(component.record_type_index, RECORD_TYPE_COUNT - 1);
    assert_eq!(component.current_record_type(), DnsRecordType::TXT);
    component.handle_key_event(key(Key::Right), true);
    assert_eq!(component.record_type_index, 0);
    component.handle_key_event(key(Key::Right), true);
    assert_eq!(component.current_record_type(), DnsRecordType::AAAA);
    assert_eq!(component.current_record_type().as_str(), "AAAA");
}

#[test]
fn empty_name_is_refused() {
    let mut component = DnsQueryComponent::new();
    let result = component.handle_key_event(key(Key::Enter), true);
    assert!(result.request.is_none());
    assert_eq!(component.error.as_deref(), Some("Name is required"));
    assert!(!component.loading);
}

#[test]
fn query_needs_the_api() {
    let mut component = DnsQueryComponent::new();
    component.set_focused(FocusedField::Name);
    typed(&mut component, "example.com");
    let result = component.handle_key_event(key(Key::Enter), false);
    assert!(result.request.is_none());
    assert_eq!(component.error.as_deref(), Some("API is not initialized"));
}

#[test]
fn query_sends_trimmed_name_and_waits_for_result() {
    let mut component = DnsQueryComponent::new();
    component.set_focused(FocusedField::Name);
    typed(&mut component, "  example.com ");
    let result = component.handle_key_event(key(Key::Enter), true);
    let request = result.request.expect("a query is started");
    assert_eq!(request.name, "example.com");
    assert_eq!(request.record_type, DnsRecordType::A);
    assert!(component.loading);

    // a second Enter while waiting does nothing
    assert!(component.handle_key_event(key(Key::Enter), true).request.is_none());

    component.receive(QueryOutcome::Answers(vec![DnsAnswer {
        name: "example.com.".to_string(),
        data: "93.184.216.34".to_string(),
    }]));
    assert!(!component.loading);
    assert_eq!(component.answers.len(), 1);
    assert_eq!(component.error, None);
}

#[test]
fn failed_and_stopped_queries_report_errors() {
    let mut component = DnsQueryComponent::new();
    component.set_focused(FocusedField::Name);
    typed(&mut component, "x");
    component.handle_key_event(key(Key::Enter), true);
    component.receive(QueryOutcome::Failed("timeout".to_string()));
    assert_eq!(component.error.as_deref(), Some("timeout"));
    assert!(component.answers.is_empty());

    component.handle_key_event(key(Key::Enter), true);
    component.receive(QueryOutcome::Stopped);
    assert_eq!(component.error.as_deref(), Some("DNS query task stopped"));

    // a result with nothing pending is dropped
    component.receive(QueryOutcome::Failed("late".to_string()));
    assert_eq!(component.error.as_deref(), Some("DNS query task stopped"));
}

#[test]
fn esc_closes_and_q_types_in_name() {
    let mut component = DnsQueryComponent::new();
    component.show();
    assert!(component.show);
    component.set_focused(FocusedField::Name);
    component.handle_key_event(key(Key::Char('q')), true);
    assert_eq!(component.input.value(), "q");
    assert!(component.show);
    let result = component.handle_key_event(key(Key::Esc), true);
    assert!(matches!(result.action, Some(Action::Unfocus)));
    assert!(!component.show);
}

#[test]
fn backtab_cycles_backwards() {
    assert_eq!(FocusedField::Type.prev(), FocusedField::Answers);
    assert_eq!(FocusedField::Answers.next(), FocusedField::Type);
    let mut component = DnsQueryComponent::new();
    component.handle_key_event(key(Key::BackTab), true);
    assert_eq!(component.focused, FocusedField::Answers);
}
