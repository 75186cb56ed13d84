//! Session-level behaviour: navigation clamping, completion toggling, the
//! editor, saving and loading inputs, and the key dispatch.

use aoc_dashboard::app::App;
use aoc_dashboard::app::Direction;
use aoc_dashboard::events::Action;
use aoc_dashboard::events::Key;
use aoc_dashboard::events::KeyEvent;
use aoc_dashboard::events::KeyKind;
use aoc_dashboard::events::Modifier;

fn press(code: Key) -> KeyEvent {
    KeyEvent { code, modifier: Modifier::Plain, kind: KeyKind::Press }
}

fn ctrl(code: Key) -> KeyEvent {
    KeyEvent { code, modifier: Modifier::Control, kind: KeyKind::Press }
}

#[test]
fn move_selection_clamps_at_boundaries() {
    let mut app = App::new();
    assert_eq!((app.selected_day, app.selected_part), (1, 1));
    app.move_cursor(Direction::Up);
    assert_eq!((app.selected_day, app.selected_part), (1, 1));
    app.move_cursor(Direction::Left);
    assert_eq!((app.selected_day, app.selected_part), (1, 1));
    app.move_cursor(Direction::Right);
    assert_eq!((app.selected_day, app.selected_part), (1, 2));
    app.move_cursor(Direction::Right);
    assert_eq!((app.selected_day, app.selected_part), (1, 2));
    for _ in 0..30 {
        app.move_cursor(Direction::Down);
    }
    assert_eq!(app.selected_day, 25);
    app.move_cursor(Direction::Down);
    assert_eq!(app.selected_day, 25);
    assert!(app.selected_part >= 1 && app.selected_part <= 2);
}

#[test]
fn toggle_completed_is_involutive() {
    let mut app = App::new();
    let before = app.get_selected_challenge().unwrap().completed;
    app.toggle_completion();
    assert_eq!(app.get_selected_challenge().unwrap().completed, !before);
    app.toggle_completion();
    assert_eq!(app.get_selected_challenge().unwrap().completed, before);
}

#[test]
fn toggle_changes_one_task_only() {
    let mut app = App::new();
    for day in 1..=25u8 {
        for part in 1..=2u8 {
            assert!(!app.days.get(day, part).completed);
        }
    }
    app.selected_day = 5;
    app.selected_part = 1;
    app.toggle_completion();
    for day in 1..=25u8 {
        for part in 1..=2u8 {
            let expect = day == 5 && part == 1;
            assert_eq!(app.days.get(day, part).completed, expect);
        }
    }
}

#[test]
fn editor_cursor_stays_in_bounds() {
    let mut app = App::new();
    app.insert_char('a');
    assert!(app.cursor_position <= app.current_input.len());
    app.insert_char('b');
    app.move_cursor_left();
    app.insert_char('c');
    assert!(app.cursor_position <= app.current_input.len());
    app.delete_char();
    assert!(app.cursor_position <= app.current_input.len());
    app.move_cursor_right();
    app.move_cursor_right();
    app.move_cursor_right();
    assert!(app.cursor_position <= app.current_input.len());
    app.delete_char();
    app.delete_char();
    app.delete_char();
    app.delete_char();
    assert!(app.cursor_position <= app.current_input.len());
    assert_eq!(app.cursor_position, 0);
}

#[test]
fn editor_edits_text() {
    let mut app = App::new();
    app.insert_char('h');
    app.insert_char('i');
    app.insert_newline();
    app.insert_text("there");
    let text: String = app.current_input.iter().collect();
    assert_eq!(text, "hi\nthere");
    assert_eq!(app.cursor_position, 8);
    app.move_cursor_start();
    assert_eq!(app.cursor_position, 0);
    app.insert_text("ab");
    let text: String = app.current_input.iter().collect();
    assert_eq!(text, "abhi\nthere");
    assert_eq!(app.cursor_position, 2);
    app.move_cursor_end();
    assert_eq!(app.cursor_position, 10);
}

#[test]
fn delete_backward_is_noop_at_start() {
    let mut app = App::new();
    app.delete_char();
    assert_eq!(app.cursor_position, 0);
    assert!(app.current_input.is_empty());
    app.insert_char('x');
    app.move_cursor_start();
    app.delete_char();
    let text: String = app.current_input.iter().collect();
    assert_eq!(text, "x");
    assert_eq!(app.cursor_position, 0);
}

#[test]
fn set_then_load_input_round_trips() {
    let mut app = App::new();
    app.set_input(String::from("X"));
    app.load_input(Some(String::from("X")));
    let entry = app.get_selected_challenge().unwrap();
    assert_eq!(entry.input.as_deref(), Some("X"));
    let mut app = App::new();
    app.set_input(String::from("X"));
    app.load_input(None);
    let entry = app.get_selected_challenge().unwrap();
    assert_eq!(entry.input.as_deref(), Some("X"));
}

#[test]
fn load_input_absent_changes_nothing() {
    let mut app = App::new();
    app.load_input(None);
    assert!(app.get_selected_challenge().unwrap().input.is_none());
    assert!(app.current_input.is_empty());
}

#[test]
fn edit_session_saves_typed_input() {
    let mut app = App::new();
    app.selected_day = 3;
    app.selected_part = 2;
    let action = app.handle_key(press(Key::Char('i')));
    assert!(matches!(action, Action::EnterEdit { day: 3, part: 2 }));
    assert!(app.input_mode);
    app.begin_edit(None);
    assert_eq!(app.cursor_position, 0);
    for c in "abc123".chars() {
        let action = app.handle_key(press(Key::Char(c)));
        assert!(matches!(action, Action::Idle));
    }
    let action = app.handle_key(ctrl(Key::Char('s')));
    match action {
        Action::Save { day, part, content } => {
            assert_eq!((day, part), (3, 2));
            assert_eq!(content, "abc123");
        },
        other => panic!("expected a save action, got {:?}", action_name(&other)),
    }
    app.save_input();
    assert!(!app.input_mode);
    assert!(app.current_input.is_empty());
    assert_eq!(app.days.get(3, 2).input.as_deref(), Some("abc123"));
}

fn action_name(a: &Action) -> &'static str {
    match a {
        Action::Idle => "Idle",
        Action::Quit => "Quit",
        Action::Check { .. } => "Check",
        Action::Test { .. } => "Test",
        Action::Run { .. } => "Run",
        Action::Paste => "Paste",
        Action::Save { .. } => "Save",
        Action::EnterEdit { .. } => "EnterEdit",
    }
}

#[test]
fn run_without_input_reports_and_skips_runner() {
    let mut app = App::new();
    let action = app.handle_key(press(Key::Char('r')));
    assert!(matches!(action, Action::Idle));
    assert!(app.cargo_output.contains("No input provided"));
}

#[test]
fn run_with_input_hands_it_to_the_caller() {
    let mut app = App::new();
    app.set_input(String::from("puzzle text"));
    let action = app.handle_key(press(Key::Char('r')));
    match action {
        Action::Run { day, part, input } => {
            assert_eq!((day, part), (1, 1));
            assert_eq!(input, "puzzle text");
        },
        other => panic!("expected a run action, got {:?}", action_name(&other)),
    }
}

#[test]
fn watch_key_sets_watched_task_and_check_header() {
    let mut app = App::new();
    app.selected_day = 7;
    app.selected_part = 2;
    let action = app.handle_key(press(Key::Char('w')));
    assert!(matches!(action, Action::Check { day: 7 }));
    assert_eq!((app.watched_day, app.watched_part), (7, 2));
    assert_eq!(app.cargo_output, "Checking day 7 part 2...\n");
    app.append_output("done\n");
    assert_eq!(app.cargo_output, "Checking day 7 part 2...\ndone\n");
}

#[test]
fn test_key_uses_watched_task() {
    let mut app = App::new();
    app.watch(12, 1);
    app.selected_day = 3;
    let action = app.handle_key(press(Key::Char('t')));
    assert!(matches!(action, Action::Test { day: 12 }));
    assert_eq!(app.cargo_output, "Testing day 12 part 1...\n");
}

#[test]
fn quit_only_from_browsing() {
    let mut app = App::new();
    assert!(matches!(app.handle_key(press(Key::Char('q'))), Action::Quit));
    let mut app = App::new();
    app.input_mode = true;
    assert!(matches!(app.handle_key(press(Key::Char('q'))), Action::Idle));
    let text: String = app.current_input.iter().collect();
    assert_eq!(text, "q");
}

#[test]
fn non_press_events_are_ignored() {
    let mut app = App::new();
    let release = KeyEvent { code: Key::Char('q'), modifier: Modifier::Plain, kind: KeyKind::Release };
    assert!(matches!(app.handle_key(release), Action::Idle));
    let repeat = KeyEvent { code: Key::Char('c'), modifier: Modifier::Plain, kind: KeyKind::Repeat };
    assert!(matches!(app.handle_key(repeat), Action::Idle));
    assert!(!app.get_selected_challenge().unwrap().completed);
}

#[test]
fn escape_discards_the_buffer() {
    let mut app = App::new();
    app.input_mode = true;
    app.handle_key(press(Key::Char('z')));
    let action = app.handle_key(press(Key::Esc));
    assert!(matches!(action, Action::Idle));
    assert!(!app.input_mode);
    assert!(app.current_input.is_empty());
    assert_eq!(app.cursor_position, 0);
    assert!(app.get_selected_challenge().unwrap().input.is_none());
}

#[test]
fn scroll_ops_clamp_at_zero() {
    let mut app = App::new();
    app.scroll_up();
    assert_eq!(app.scroll, 0);
    app.scroll_down();
    assert_eq!(app.scroll, 1);
    app.page_down();
    assert_eq!(app.scroll, 11);
    app.page_up();
    assert_eq!(app.scroll, 1);
    app.page_up();
    assert_eq!(app.scroll, 0);
}

#[test]
fn blink_toggles() {
    let mut app = App::new();
    assert!(!app.cursor_blink_state);
    app.toggle_cursor_blink();
    assert!(app.cursor_blink_state);
    app.toggle_cursor_blink();
    assert!(!app.cursor_blink_state);
}

#[test]
fn begin_edit_loads_stored_text_and_puts_cursor_at_end() {
    let mut app = App::new();
    app.begin_edit(Some(String::from("abc")));
    assert!(app.input_mode);
    let text: String = app.current_input.iter().collect();
    assert_eq!(text, "abc");
    assert_eq!(app.cursor_position, 3);
    assert_eq!(app.get_selected_challenge().unwrap().input.as_deref(), Some("abc"));
}

#[test]
fn renderer_clamp_keeps_line_visible() {
    let mut app = App::new();
    app.cargo_output = String::from("a\nb\nc\nd\ne");
    assert_eq!(app.output_newest_line(), 4);
    app.clamp_scroll_to_line(4, 3);
    assert_eq!(app.scroll, 2);
    app.clamp_scroll_to_line(1, 3);
    assert_eq!(app.scroll, 1);
    app.clamp_scroll_to_line(2, 3);
    assert_eq!(app.scroll, 1);
}

#[test]
fn cursor_line_counts_newlines_before_cursor() {
    let mut app = App::new();
    app.insert_text("one\ntwo\nthree");
    assert_eq!(app.cursor_line(), 2);
    app.move_cursor_start();
    assert_eq!(app.cursor_line(), 0);
}
