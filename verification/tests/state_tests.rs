use miniedit::state::{CursorDirection, CursorPosition, State, StateError, TerminalSize};

fn doc(lines: &[&str]) -> Vec<Vec<char>> {
    lines.iter().map(|l| l.chars().collect()).collect()
}

fn line(text: &str) -> Vec<char> {
    text.chars().collect()
}

fn size() -> TerminalSize {
    TerminalSize { columns: 80, rows: 24 }
}

fn fresh(lines: &[&str]) -> State {
    State::new(String::new(), doc(lines), size())
}

#[test]
fn new_empty_document_starts_at_origin() {
    let s = fresh(&[]);
    assert_eq!(s.cursor_position, CursorPosition { column: 0, row: 0 });
    assert!(!s.is_running);
    assert!(s.content.is_empty());
    assert!(s.prompt.is_empty());
}

#[test]
fn new_cursor_lands_at_end_of_last_line() {
    let s = fresh(&["hello", "world"]);
    assert_eq!(s.cursor_position, CursorPosition { column: 5, row: 1 });
}

#[test]
fn typing_inserts_at_cursor() {
    // Content "hello\nworld" with the cursor at (5, 0): typing 'X'
    // gives ["helloX", "world"] with the cursor at (6, 0).
    let mut s = fresh(&["hello", "world"]);
    s.move_cursor(CursorDirection::Up).unwrap();
    assert_eq!(s.cursor_position, CursorPosition { column: 5, row: 0 });
    s.edit('X').unwrap();
    assert_eq!(s.content, doc(&["helloX", "world"]));
    assert_eq!(s.cursor_position, CursorPosition { column: 6, row: 0 });
}

#[test]
fn edit_in_the_middle_of_a_line() {
    let mut s = fresh(&["abc"]);
    s.move_cursor(CursorDirection::Left).unwrap();
    assert_eq!(s.cursor_position, CursorPosition { column: 2, row: 0 });
    s.edit('X').unwrap();
    assert_eq!(s.content, doc(&["abXc"]));
    assert_eq!(s.cursor_position, CursorPosition { column: 3, row: 0 });
}

#[test]
fn edit_on_empty_document_creates_a_line() {
    let mut s = fresh(&[]);
    s.edit('x').unwrap();
    assert_eq!(s.content, doc(&["x"]));
    assert_eq!(s.cursor_position, CursorPosition { column: 1, row: 0 });
}

#[test]
fn enter_splits_line_at_cursor() {
    // Enter on "abcdef" at column 3 leaves ["abc", "def"]; the cursor
    // moves to the new line, at the end of the moved part.
    let mut s = fresh(&["abcdef"]);
    for _ in 0..3 {
        s.move_cursor(CursorDirection::Left).unwrap();
    }
    assert_eq!(s.cursor_position, CursorPosition { column: 3, row: 0 });
    s.add_line_break().unwrap();
    assert_eq!(s.content, doc(&["abc", "def"]));
    assert_eq!(s.cursor_position, CursorPosition { column: 3, row: 1 });
}

#[test]
fn split_grows_line_count_by_one_and_preserves_text() {
    let mut s = fresh(&["abcdef"]);
    s.move_cursor(CursorDirection::Left).unwrap();
    let before: Vec<char> = s.content[0].clone();
    let count = s.content.len();
    s.add_line_break().unwrap();
    assert_eq!(s.content.len(), count + 1);
    let mut joined = s.content[0].clone();
    joined.extend_from_slice(&s.content[1]);
    assert_eq!(joined, before);
    assert_eq!(s.content[0].len(), 5);
    assert_eq!(s.content[1].len(), 1);
}

#[test]
fn enter_on_empty_line_inserts_one_above() {
    let mut s = fresh(&[""]);
    s.add_line_break().unwrap();
    assert_eq!(s.content, doc(&["", ""]));
    assert_eq!(s.cursor_position, CursorPosition { column: 0, row: 1 });
}

#[test]
fn enter_on_empty_document_makes_two_empty_lines() {
    let mut s = fresh(&[]);
    s.add_line_break().unwrap();
    assert_eq!(s.content, doc(&["", ""]));
    assert_eq!(s.cursor_position, CursorPosition { column: 0, row: 1 });
}

#[test]
fn right_movement_stops_one_short_of_line_end() {
    // Document ["ab"] with the cursor at (1, 0): moving right leaves
    // the cursor unchanged, confirming the length-minus-one bound.
    let mut s = fresh(&["ab"]);
    s.move_cursor(CursorDirection::Left).unwrap();
    assert_eq!(s.cursor_position, CursorPosition { column: 1, row: 0 });
    s.move_cursor(CursorDirection::Right).unwrap();
    assert_eq!(s.cursor_position, CursorPosition { column: 1, row: 0 });
}

#[test]
fn right_movement_advances_below_the_bound() {
    let mut s = fresh(&["abc"]);
    for _ in 0..3 {
        s.move_cursor(CursorDirection::Left).unwrap();
    }
    assert_eq!(s.cursor_position, CursorPosition { column: 0, row: 0 });
    s.move_cursor(CursorDirection::Right).unwrap();
    assert_eq!(s.cursor_position, CursorPosition { column: 1, row: 0 });
}

#[test]
fn up_then_down_snaps_column_to_line_end() {
    // From a middle row, up then down returns to the same row with the
    // column at that row's line length.
    let mut s = fresh(&["aaa", "bb", "cccc"]);
    s.move_cursor(CursorDirection::Up).unwrap();
    assert_eq!(s.cursor_position, CursorPosition { column: 2, row: 1 });
    s.move_cursor(CursorDirection::Left).unwrap();
    assert_eq!(s.cursor_position, CursorPosition { column: 1, row: 1 });
    s.move_cursor(CursorDirection::Up).unwrap();
    assert_eq!(s.cursor_position, CursorPosition { column: 3, row: 0 });
    s.move_cursor(CursorDirection::Down).unwrap();
    assert_eq!(s.cursor_position, CursorPosition { column: 2, row: 1 });
}

#[test]
fn vertical_moves_at_the_edges_do_nothing() {
    let mut s = fresh(&["aa", "b"]);
    s.move_cursor(CursorDirection::Down).unwrap();
    assert_eq!(s.cursor_position, CursorPosition { column: 1, row: 1 });
    s.move_cursor(CursorDirection::Up).unwrap();
    s.move_cursor(CursorDirection::Up).unwrap();
    assert_eq!(s.cursor_position, CursorPosition { column: 2, row: 0 });
}

#[test]
fn moves_on_empty_document_do_nothing() {
    let mut s = fresh(&[]);
    for d in [
        CursorDirection::Up,
        CursorDirection::Down,
        CursorDirection::Left,
        CursorDirection::Right,
    ] {
        s.move_cursor(d).unwrap();
        assert_eq!(s.cursor_position, CursorPosition { column: 0, row: 0 });
    }
}

#[test]
fn backspace_removes_character_before_cursor() {
    let mut s = fresh(&["abc"]);
    s.delete_last_character().unwrap();
    assert_eq!(s.content, doc(&["ab"]));
    assert_eq!(s.cursor_position, CursorPosition { column: 2, row: 0 });
}

#[test]
fn backspace_at_line_start_joins_lines() {
    let mut s = fresh(&["ab", "cd"]);
    s.move_cursor(CursorDirection::Left).unwrap();
    s.move_cursor(CursorDirection::Left).unwrap();
    assert_eq!(s.cursor_position, CursorPosition { column: 0, row: 1 });
    s.delete_last_character().unwrap();
    assert_eq!(s.content, doc(&["abcd"]));
    assert_eq!(s.cursor_position, CursorPosition { column: 2, row: 0 });
}

#[test]
fn backspace_at_document_start_does_nothing() {
    let mut s = fresh(&["ab"]);
    s.move_cursor(CursorDirection::Left).unwrap();
    s.move_cursor(CursorDirection::Left).unwrap();
    s.delete_last_character().unwrap();
    assert_eq!(s.content, doc(&["ab"]));
    assert_eq!(s.cursor_position, CursorPosition { column: 0, row: 0 });
}

#[test]
fn backspace_on_empty_document_does_nothing() {
    let mut s = fresh(&[]);
    s.delete_last_character().unwrap();
    assert!(s.content.is_empty());
}

#[test]
fn lifecycle_rejects_double_start_and_early_stop() {
    // Starting twice fails the second time as already running; stopping
    // before any start fails as not running.
    let mut s = fresh(&[]);
    assert_eq!(s.start(), Ok(()));
    assert!(s.is_running);
    assert_eq!(s.start(), Err(StateError::AlreadyRunning));
    assert!(s.is_running);
    assert_eq!(s.stop(), Ok(()));
    assert_eq!(s.stop(), Err(StateError::NotRunning));

    let mut untouched = fresh(&[]);
    assert_eq!(untouched.stop(), Err(StateError::NotRunning));
}

#[test]
fn prompt_is_stored_and_cleared() {
    let mut s = fresh(&["a"]);
    s.prompt(line("saved")).unwrap();
    assert_eq!(s.prompt, line("saved"));
    s.clear_prompt().unwrap();
    assert!(s.prompt.is_empty());
}

#[test]
fn resize_records_the_new_grid() {
    let mut s = fresh(&["a"]);
    s.resize(TerminalSize { columns: 10, rows: 4 }).unwrap();
    assert_eq!(s.terminal_size, TerminalSize { columns: 10, rows: 4 });
    assert_eq!(s.content, vec![line("a")]);
}

#[test]
fn cursor_stays_in_bounds_under_a_mixed_sequence() {
    let mut s = fresh(&["one", "two three", ""]);
    let moves = [
        CursorDirection::Up,
        CursorDirection::Left,
        CursorDirection::Up,
        CursorDirection::Right,
        CursorDirection::Down,
        CursorDirection::Down,
        CursorDirection::Down,
    ];
    for (i, d) in moves.iter().enumerate() {
        if i % 2 == 0 {
            s.edit('x').unwrap();
        } else {
            s.add_line_break().unwrap();
        }
        s.move_cursor(*d).unwrap();
        assert!(s.cursor_position.row < s.content.len());
        assert!(s.cursor_position.column <= s.content[s.cursor_position.row].len());
    }
}
