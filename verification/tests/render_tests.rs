use miniedit::render::{cursor_status_line, render_frame, Buffer, BufferLine, ScreenPosition};
use miniedit::state::{CursorPosition, State, TerminalSize};

fn doc(lines: &[&str]) -> Vec<Vec<char>> {
    lines.iter().map(|l| l.chars().collect()).collect()
}

fn chars(text: &str) -> Vec<char> {
    text.chars().collect()
}

fn size() -> TerminalSize {
    TerminalSize { columns: 80, rows: 24 }
}

#[test]
fn cursor_status_line_shows_the_position() {
    let mut s = State::new(String::new(), doc(&["hello"]), size());
    assert_eq!(cursor_status_line(&s), chars("cursor at [5, 0]"));
    s.cursor_position = CursorPosition { column: 12, row: 345 };
    assert_eq!(cursor_status_line(&s), chars("cursor at [12, 345]"));
}

#[test]
fn buffer_remembers_the_grid_size() {
    let mut b = Buffer::new(std::io::stdout(), size());
    assert_eq!(b.terminal_size, size());
    b.resize(TerminalSize { columns: 10, rows: 5 }).unwrap();
    assert_eq!(b.terminal_size, TerminalSize { columns: 10, rows: 5 });
}

#[test]
fn write_at_leaves_the_caret_after_the_last_line() {
    let mut b = Buffer::new(std::io::stdout(), size());
    let origin = ScreenPosition { column: 2, row: 3 };
    b.write_at(origin, &doc(&["ab", "c"])).unwrap();
    assert_eq!(b.caret, ScreenPosition { column: 3, row: 4 });
}

#[test]
fn write_at_with_nothing_to_write_parks_the_caret_at_the_origin() {
    let mut b = Buffer::new(std::io::stdout(), size());
    let origin = ScreenPosition { column: 7, row: 1 };
    b.write_at(origin, &doc(&[])).unwrap();
    assert_eq!(b.caret, ScreenPosition { column: 7, row: 1 });
}

#[test]
fn write_to_leaves_the_caret_after_the_text() {
    let mut b = Buffer::new(std::io::stdout(), size());
    let line = BufferLine {
        position: ScreenPosition { column: 4, row: 2 },
        content: chars("hey"),
    };
    b.write_to(line).unwrap();
    assert_eq!(b.caret, ScreenPosition { column: 7, row: 2 });
}

#[test]
fn clear_homes_the_caret() {
    let mut b = Buffer::new(std::io::stdout(), size());
    b.write_at(ScreenPosition { column: 5, row: 5 }, &doc(&["x"])).unwrap();
    b.clear().unwrap();
    assert_eq!(b.caret, ScreenPosition { column: 0, row: 0 });
}

#[test]
fn a_frame_parks_the_caret_on_the_document_cursor() {
    let mut b = Buffer::new(std::io::stdout(), size());
    let mut s = State::new(String::new(), doc(&["hello", "wo"]), size());
    render_frame(&mut b, &mut s).unwrap();
    assert_eq!(s.cursor_position, CursorPosition { column: 2, row: 1 });
    assert_eq!(b.caret, ScreenPosition { column: 2, row: 1 });
}

#[test]
fn a_frame_shows_the_prompt_once_and_clears_it() {
    let mut b = Buffer::new(std::io::stdout(), size());
    let mut s = State::new(String::new(), doc(&["a"]), size());
    s.prompt(chars("saved")).unwrap();
    render_frame(&mut b, &mut s).unwrap();
    assert!(s.prompt.is_empty());
}

#[test]
fn a_short_terminal_keeps_the_prompt_and_skips_the_footer() {
    let short = TerminalSize { columns: 80, rows: 4 };
    let mut b = Buffer::new(std::io::stdout(), short);
    let mut s = State::new(String::new(), doc(&["a"]), short);
    s.prompt(chars("saved")).unwrap();
    render_frame(&mut b, &mut s).unwrap();
    assert_eq!(s.prompt, chars("saved"));
}

#[test]
fn writes_near_the_grid_edge_stop_one_short_of_the_last_cell() {
    let mut b = Buffer::new(std::io::stdout(), size());
    let origin = ScreenPosition { column: 0, row: 65534 };
    b.write_at(origin, &doc(&["a", "b"])).unwrap();
    assert_eq!(b.caret, ScreenPosition { column: 1, row: 65534 });
}
