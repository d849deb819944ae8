use text_editor::{App, Key, Message};

fn rows(app: &App) -> Vec<String> {
    app.text.iter().map(|r| r.iter().collect()).collect()
}

fn app_with(lines: &[&str], x: usize, y: usize) -> App {
    let mut app = App::new();
    app.text = lines.iter().map(|l| l.chars().collect()).collect();
    app.cursor_position_x = x;
    app.cursor_position_y = y;
    app
}

#[test]
fn new_app_has_one_empty_row() {
    let app = App::new();
    assert_eq!(app.text, vec![Vec::<char>::new()]);
    assert_eq!((app.cursor_position_x, app.cursor_position_y), (0, 0));
    assert!(!app.should_quit);
    let d = App::default();
    assert_eq!(d.text, app.text);
}

#[test]
fn quit_sets_flag() {
    let mut app = App::new();
    app.tick();
    app.quit();
    assert!(app.should_quit);
    assert_eq!(app.text, vec![Vec::<char>::new()]);
}

#[test]
fn move_right_counts_up() {
    let mut app = app_with(&["ab"], 3, 0);
    for _ in 0..5 {
        app.increase_cursor_position_x();
    }
    assert_eq!(app.cursor_position_x, 8);
}

#[test]
fn move_right_stops_at_largest_column() {
    let mut app = app_with(&[""], usize::MAX - 1, 0);
    app.increase_cursor_position_x();
    assert_eq!(app.cursor_position_x, usize::MAX);
    app.increase_cursor_position_x();
    assert_eq!(app.cursor_position_x, usize::MAX);
}

#[test]
fn move_left_at_start_stays() {
    let mut app = app_with(&["abc"], 0, 0);
    app.decrease_cursor_position_x();
    assert_eq!(app.cursor_position_x, 0);
    app.decrease_cursor_position_x();
    assert_eq!(app.cursor_position_x, 0);
    app.cursor_position_x = 2;
    app.decrease_cursor_position_x();
    assert_eq!(app.cursor_position_x, 1);
}

#[test]
fn vertical_moves() {
    let mut app = app_with(&["a", "b"], 0, 0);
    app.decrease_cursor_position_y();
    assert_eq!(app.cursor_position_y, 0);
    app.increase_cursor_position_y();
    app.increase_cursor_position_y();
    assert_eq!(app.cursor_position_y, 2);
    app.decrease_cursor_position_y();
    assert_eq!(app.cursor_position_y, 1);
    app.cursor_position_y = usize::MAX;
    app.increase_cursor_position_y();
    assert_eq!(app.cursor_position_y, usize::MAX);
}

#[test]
fn insert_in_middle_shifts_right() {
    let mut app = app_with(&["ac"], 1, 0);
    app.add_character('b');
    assert_eq!(rows(&app), vec!["abc"]);
    assert_eq!(app.cursor_position_x, 2);
}

#[test]
fn insert_past_end_pads_with_spaces() {
    let mut app = App::new();
    app.cursor_position_x = 3;
    app.add_character('x');
    assert_eq!(rows(&app), vec!["   x"]);
    assert_eq!(app.cursor_position_x, 4);
}

#[test]
fn insert_below_last_row_adds_empty_rows() {
    let mut app = app_with(&["a"], 0, 2);
    app.add_character('z');
    assert_eq!(rows(&app), vec!["a", "", "z"]);
    assert_eq!((app.cursor_position_x, app.cursor_position_y), (1, 2));
}

#[test]
fn type_then_backspace_restores() {
    let mut app = app_with(&["one", "two"], 3, 1);
    app.add_character('k');
    assert_eq!(rows(&app), vec!["one", "twok"]);
    app.remove_character();
    assert_eq!(rows(&app), vec!["one", "two"]);
    assert_eq!((app.cursor_position_x, app.cursor_position_y), (3, 1));
}

#[test]
fn split_then_backspace_restores_mid_row() {
    let mut app = app_with(&["hello", "x"], 2, 0);
    app.new_line();
    assert_eq!(rows(&app), vec!["he", "llo", "x"]);
    assert_eq!((app.cursor_position_x, app.cursor_position_y), (0, 1));
    app.remove_character();
    assert_eq!(rows(&app), vec!["hello", "x"]);
    assert_eq!((app.cursor_position_x, app.cursor_position_y), (2, 0));
}

#[test]
fn split_then_backspace_restores_at_end() {
    let mut app = app_with(&["abc"], 3, 0);
    app.new_line();
    assert_eq!(rows(&app), vec!["abc", ""]);
    app.remove_character();
    assert_eq!(rows(&app), vec!["abc"]);
    assert_eq!((app.cursor_position_x, app.cursor_position_y), (3, 0));
}

#[test]
fn split_at_end_of_inner_row_appends_row_at_bottom() {
    let mut app = app_with(&["ab", "cde"], 2, 0);
    app.new_line();
    assert_eq!(rows(&app), vec!["ab", "cde", ""]);
    assert_eq!((app.cursor_position_x, app.cursor_position_y), (3, 1));
}

#[test]
fn backspace_at_origin_changes_nothing() {
    let mut app = app_with(&["abc", "d"], 0, 0);
    app.remove_character();
    assert_eq!(rows(&app), vec!["abc", "d"]);
    assert_eq!((app.cursor_position_x, app.cursor_position_y), (0, 0));
}

#[test]
fn backspace_past_row_end_only_moves_cursor() {
    let mut app = app_with(&["ab"], 5, 0);
    app.remove_character();
    assert_eq!(rows(&app), vec!["ab"]);
    assert_eq!(app.cursor_position_x, 4);
}

#[test]
fn backspace_on_missing_row_moves_up() {
    let mut app = app_with(&["ab"], 0, 3);
    app.remove_character();
    assert_eq!(rows(&app), vec!["ab"]);
    assert_eq!((app.cursor_position_x, app.cursor_position_y), (0, 2));
}

#[test]
fn typing_session_scenario() {
    let mut app = App::new();
    app.add_character('h');
    app.add_character('i');
    assert_eq!(rows(&app), vec!["hi"]);
    assert_eq!(app.cursor_position_x, 2);
    app.new_line();
    assert_eq!(rows(&app), vec!["hi", ""]);
    assert_eq!((app.cursor_position_x, app.cursor_position_y), (0, 1));
    app.add_character('!');
    assert_eq!(rows(&app), vec!["hi", "!"]);
    assert_eq!((app.cursor_position_x, app.cursor_position_y), (1, 1));
    app.remove_character();
    assert_eq!(rows(&app), vec!["hi", ""]);
    assert_eq!((app.cursor_position_x, app.cursor_position_y), (0, 1));
    app.remove_character();
    assert_eq!(rows(&app), vec!["hi"]);
    assert_eq!((app.cursor_position_x, app.cursor_position_y), (2, 0));
}

#[test]
fn click_at_origin_goes_to_origin() {
    let mut app = app_with(&["abc", "def"], 2, 1);
    app.mouse_click(0, 0);
    assert_eq!((app.cursor_position_x, app.cursor_position_y), (0, 0));
}

#[test]
fn click_maps_screen_cell_to_buffer() {
    let mut app = App::new();
    app.mouse_click(5, 9);
    assert_eq!((app.cursor_position_x, app.cursor_position_y), (4, 8));
    assert_eq!(app.text, vec![Vec::<char>::new()]);
}

#[test]
fn text_has_line_break_after_each_row() {
    let app = app_with(&["hi", "", "yo"], 0, 0);
    assert_eq!(app.to_text(), "hi\n\nyo\n");
    assert_eq!(App::new().to_text(), "\n");
}

#[test]
fn keys_decode() {
    assert_eq!(Message::from_key(Key::Right, false), Some(Message::Right));
    assert_eq!(Message::from_key(Key::Left, false), Some(Message::Left));
    assert_eq!(Message::from_key(Key::Up, false), Some(Message::Up));
    assert_eq!(Message::from_key(Key::Down, false), Some(Message::Down));
    assert_eq!(Message::from_key(Key::Backspace, false), Some(Message::Remove));
    assert_eq!(Message::from_key(Key::Enter, false), Some(Message::NewLine));
    assert_eq!(Message::from_key(Key::Esc, false), Some(Message::ShowContext));
    assert_eq!(Message::from_key(Key::Char('c'), true), Some(Message::Quit));
    assert_eq!(Message::from_key(Key::Char('C'), true), Some(Message::Quit));
    assert_eq!(Message::from_key(Key::Char('w'), true), Some(Message::SaveFile));
    assert_eq!(Message::from_key(Key::Char('W'), true), Some(Message::SaveFile));
    assert_eq!(Message::from_key(Key::Char('c'), false), Some(Message::Input('c')));
    assert_eq!(Message::from_key(Key::Char('a'), true), Some(Message::Input('a')));
    assert_eq!(Message::from_key(Key::Other, false), None);
}

#[test]
fn mouse_decodes() {
    assert_eq!(Message::from_mouse(true, 3, 7), Some(Message::Click(3, 7)));
    assert_eq!(Message::from_mouse(false, 3, 7), None);
}

#[test]
fn apply_dispatches() {
    let mut app = App::new();
    app.apply(Message::Input('a'));
    app.apply(Message::Input('b'));
    app.apply(Message::Left);
    app.apply(Message::NewLine);
    assert_eq!(rows(&app), vec!["a", "b"]);
    app.apply(Message::Up);
    app.apply(Message::Right);
    app.apply(Message::Down);
    assert_eq!((app.cursor_position_x, app.cursor_position_y), (1, 1));
    app.apply(Message::Remove);
    assert_eq!(rows(&app), vec!["a", ""]);
    app.apply(Message::ShowContext);
    app.apply(Message::SaveFile);
    assert_eq!(rows(&app), vec!["a", ""]);
    app.apply(Message::Click(4, 0));
    assert_eq!((app.cursor_position_x, app.cursor_position_y), (3, 0));
    app.apply(Message::Quit);
    assert!(app.should_quit);
}
