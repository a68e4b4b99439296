use pecors::{Client, Event, Status};

fn fruit() -> Vec<String> {
    vec!["apple".to_string(), "banana".to_string(), "cherry".to_string()]
}

fn chosen(st: Status) -> Option<String> {
    match st {
        Status::Selected(s) => Some(s),
        _ => None,
    }
}

#[test]
fn confirm_with_no_query_picks_first_line() {
    let mut c = Client::new(fruit());
    let st = c.handle_event(10, Event::Enter);
    assert_eq!(chosen(st), Some("apple".to_string()));
}

#[test]
fn typed_query_narrows_then_confirm_picks_match() {
    let mut c = Client::new(fruit());
    assert!(matches!(c.handle_event(10, Event::Char('a')), Status::Continue));
    assert!(matches!(c.handle_event(10, Event::Char('n')), Status::Continue));
    assert_eq!(c.filtered_lines(), &vec!["banana".to_string()]);
    let st = c.handle_event(10, Event::Enter);
    assert_eq!(chosen(st), Some("banana".to_string()));
}

#[test]
fn move_down_on_single_match_changes_nothing() {
    let mut c = Client::new(fruit());
    c.handle_event(10, Event::Char('a'));
    c.handle_event(10, Event::Char('n'));
    c.handle_event(10, Event::Down);
    let st = c.handle_event(10, Event::Enter);
    assert_eq!(chosen(st), Some("banana".to_string()));
}

#[test]
fn confirm_on_empty_source_cancels() {
    let mut c = Client::new(Vec::new());
    let st = c.handle_event(10, Event::Enter);
    assert!(matches!(st, Status::Escaped));
}

#[test]
fn confirm_on_empty_filtered_list_cancels() {
    let mut c = Client::new(fruit());
    c.handle_event(10, Event::Char('z'));
    c.handle_event(10, Event::Char('z'));
    assert!(c.filtered_lines().is_empty());
    let st = c.handle_event(10, Event::Enter);
    assert!(matches!(st, Status::Escaped));
}

#[test]
fn escape_cancels() {
    let mut c = Client::new(fruit());
    let st = c.handle_event(10, Event::Esc);
    assert!(matches!(st, Status::Escaped));
}

#[test]
fn invalid_pattern_keeps_previous_list() {
    let mut c = Client::new(fruit());
    let st = c.handle_event(10, Event::Char('('));
    assert!(matches!(st, Status::Continue));
    assert_eq!(c.query_text(), "(");
    assert_eq!(c.filtered_lines(), &fruit());
}

#[test]
fn invalid_pattern_keeps_previous_viewport() {
    let mut c = Client::new(fruit());
    c.handle_event(10, Event::Down);
    assert_eq!(c.viewport_cursor(), 1);
    c.handle_event(10, Event::Char('['));
    assert_eq!(c.viewport_cursor(), 1);
    assert_eq!(c.query_text(), "[");
}

#[test]
fn deleting_back_out_of_invalid_pattern_recovers() {
    let mut c = Client::new(fruit());
    c.handle_event(10, Event::Char('a'));
    c.handle_event(10, Event::Char('('));
    assert_eq!(c.query_text(), "a(");
    assert_eq!(c.filtered_lines(), &vec!["apple".to_string(), "banana".to_string()]);
    c.handle_event(10, Event::Backspace);
    assert_eq!(c.query_text(), "a");
    assert_eq!(c.filtered_lines(), &vec!["apple".to_string(), "banana".to_string()]);
}

#[test]
fn backspace_widens_the_list_again() {
    let mut c = Client::new(fruit());
    c.handle_event(10, Event::Char('a'));
    c.handle_event(10, Event::Char('n'));
    assert_eq!(c.filtered_lines().len(), 1);
    c.handle_event(10, Event::Backspace);
    assert_eq!(c.query_text(), "a");
    assert_eq!(c.filtered_lines(), &vec!["apple".to_string(), "banana".to_string()]);
}

#[test]
fn backspace_on_empty_query_is_noop() {
    let mut c = Client::new(fruit());
    let st = c.handle_event(10, Event::Backspace);
    assert!(matches!(st, Status::Continue));
    assert_eq!(c.query_text(), "");
    assert_eq!(c.filtered_lines(), &fruit());
}

#[test]
fn backspace_removes_whole_multibyte_character() {
    let mut c = Client::new(vec!["\u{65e5}\u{672c}".to_string(), "abc".to_string()]);
    c.handle_event(10, Event::Char('\u{65e5}'));
    assert_eq!(c.filtered_lines(), &vec!["\u{65e5}\u{672c}".to_string()]);
    c.handle_event(10, Event::Backspace);
    assert_eq!(c.query_text(), "");
    assert_eq!(c.filtered_lines().len(), 2);
}

#[test]
fn ignored_events_change_nothing() {
    let mut c = Client::new(fruit());
    let st = c.handle_event(10, Event::Other);
    assert!(matches!(st, Status::Continue));
    assert_eq!(c.query_text(), "");
    assert_eq!(c.filtered_lines(), &fruit());
    assert_eq!((c.viewport_offset(), c.viewport_cursor()), (0, 0));
}

#[test]
fn editing_query_rewinds_viewport() {
    let mut c = Client::new(fruit());
    c.handle_event(10, Event::Down);
    c.handle_event(10, Event::Down);
    assert_eq!(c.viewport_cursor(), 2);
    c.handle_event(10, Event::Char('a'));
    assert_eq!((c.viewport_offset(), c.viewport_cursor()), (0, 0));
}

#[test]
fn selection_navigates_within_matches() {
    let mut c = Client::new(fruit());
    c.handle_event(10, Event::Char('a'));
    assert_eq!(c.filtered_lines().len(), 2);
    c.handle_event(10, Event::Down);
    let st = c.handle_event(10, Event::Enter);
    assert_eq!(chosen(st), Some("banana".to_string()));
}

#[test]
fn selected_is_none_on_empty_list() {
    let c = Client::new(Vec::new());
    assert!(c.selected().is_none());
}
