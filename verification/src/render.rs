//! The terminal rendering layer. [`Buffer`] paints a character grid and
//! positions the visible caret through crossterm commands on standard
//! output, and tracks in its `caret` field the position it last
//! established, so that a frame can promise where the caret ends up:
//! after [`render_frame`] it sits on the document cursor, not wherever
//! the last paint write left it.
//!
//! Writes assume the caller keeps content inside the terminal width;
//! the tracked caret advances by one cell per character written and
//! saturates one short of the largest grid coordinate, because the
//! terminal backend reports each coordinate one-based and so cannot
//! address the last representable cell.

use vstd::prelude::*;
use std::io::Stdout;
use std::io::Write;
use crossterm::ExecutableCommand;
use crossterm::cursor::MoveTo;
use crossterm::terminal::Clear;
use crossterm::terminal::ClearType;
use crate::state::State;
use crate::state::TerminalSize;
use crate::text::copy_chars;
use crate::text::decimal_chars;
use crate::text::decimal_digits;
use crate::text::lines_view;
use crate::text::str_chars;

verus! {

#[verifier::external_type_specification]
#[verifier::external_body]
pub struct ExStdout(Stdout);

/// A grid-write failure: the editor cannot safely continue without a
/// functioning terminal.
#[derive(Clone, Copy, Debug, PartialEq, Eq)]
pub enum TerminalError {
    WriteFailed,
}

/// A cell position on the terminal grid, 0-based, matching the
/// terminal's native addressing.
#[derive(Clone, Copy, Debug, PartialEq, Eq)]
pub struct ScreenPosition {
    pub column: u16,
    pub row: u16,
}

/// A single piece of text destined for a fixed grid position.
#[derive(Debug)]
pub struct BufferLine {
    pub position: ScreenPosition,
    pub content: Vec<char>,
}

/// One command handed to the terminal, as [`Buffer`] records it: what
/// was erased, where the caret was placed, and which text was printed.
pub enum PaintCommand {
    ClearAll,
    ClearPurge,
    MoveTo { column: u16, row: u16 },
    Write { text: Seq<char> },
    Flush,
}

/// What a [`Buffer::clear`] hands to the terminal: erase the grid, drop
/// the scroll history, home the caret.
pub open spec fn clear_commands() -> Seq<PaintCommand> {
    seq![
        PaintCommand::ClearAll,
        PaintCommand::ClearPurge,
        PaintCommand::MoveTo { column: 0, row: 0 },
    ]
}

/// The caret moves and text writes of a region paint: line `i` is
/// written at `(position.column, position.row + i)`.
pub open spec fn region_write_commands(position: ScreenPosition, lines: Seq<Seq<char>>) -> Seq<
    PaintCommand,
>
    decreases lines.len(),
{
    if lines.len() == 0 {
        Seq::<PaintCommand>::empty()
    } else {
        region_write_commands(position, lines.drop_last()) + seq![
            PaintCommand::MoveTo {
                column: position.column,
                row: sat_add(position.row, (lines.len() - 1) as nat),
            },
            PaintCommand::Write { text: lines.last() },
        ]
    }
}

/// Everything a [`Buffer::write_at`] hands to the terminal: the region
/// paint and a flush, or only a caret move when there is nothing to
/// write.
pub open spec fn write_at_commands(position: ScreenPosition, lines: Seq<Seq<char>>) -> Seq<
    PaintCommand,
> {
    if lines.len() == 0 {
        seq![
            PaintCommand::MoveTo { column: position.column, row: position.row },
            PaintCommand::Flush,
        ]
    } else {
        region_write_commands(position, lines) + seq![PaintCommand::Flush]
    }
}

/// `a + b`, stopped one short of the largest grid coordinate: the
/// terminal backend sends each coordinate plus one, so the last
/// representable cell cannot be addressed.
pub open spec fn sat_add(a: u16, b: nat) -> u16 {
    if a + b >= u16::MAX {
        (u16::MAX - 1) as u16
    } else {
        (a + b) as u16
    }
}

fn sat_add_u16(a: u16, b: usize) -> (r: u16)
    ensures
        r == sat_add(a, b as nat),
{
    if b >= u16::MAX as usize {
        u16::MAX - 1
    } else {
        let wide = a as u32 + b as u32;
        if wide >= u16::MAX as u32 {
            u16::MAX - 1
        } else {
            wide as u16
        }
    }
}

/// A grid coordinate for a document coordinate, stopped one short of
/// the largest grid coordinate, which the terminal backend cannot
/// address.
pub open spec fn clamped(v: nat) -> u16 {
    if v >= u16::MAX {
        (u16::MAX - 1) as u16
    } else {
        v as u16
    }
}

fn clamp_u16(v: usize) -> (r: u16)
    ensures
        r == clamped(v as nat),
{
    if v >= u16::MAX as usize {
        u16::MAX - 1
    } else {
        v as u16
    }
}

/// Relies on crossterm's `Clear(ClearType::All)` command: erases the
/// visible grid.
#[verifier::external_body]
fn term_clear_all(out: &mut Stdout) -> (r: Result<(), TerminalError>) {
    match out.execute(Clear(ClearType::All)) {
        Ok(_) => Ok(()),
        Err(_) => Err(TerminalError::WriteFailed),
    }
}

/// Relies on crossterm's `Clear(ClearType::Purge)` command: drops the
/// buffered scroll history.
#[verifier::external_body]
fn term_clear_purge(out: &mut Stdout) -> (r: Result<(), TerminalError>) {
    match out.execute(Clear(ClearType::Purge)) {
        Ok(_) => Ok(()),
        Err(_) => Err(TerminalError::WriteFailed),
    }
}

/// Relies on crossterm's `MoveTo` command: places the visible caret at
/// the given 0-based column and row. crossterm emits each coordinate
/// plus one (the control sequence is 1-based), so a coordinate of
/// `u16::MAX` would overflow that addition; such coordinates are ruled
/// out here.
#[verifier::external_body]
fn term_move_to(out: &mut Stdout, column: u16, row: u16) -> (r: Result<(), TerminalError>)
    requires
        column < u16::MAX,
        row < u16::MAX,
{
    match out.execute(MoveTo(column, row)) {
        Ok(_) => Ok(()),
        Err(_) => Err(TerminalError::WriteFailed),
    }
}

/// Relies on `write!` to standard output: prints the characters at the
/// caret, left to right.
#[verifier::external_body]
fn term_write(out: &mut Stdout, text: &Vec<char>) -> (r: Result<(), TerminalError>) {
    let s: String = text.iter().collect();
    match write!(out, "{}", s) {
        Ok(_) => Ok(()),
        Err(_) => Err(TerminalError::WriteFailed),
    }
}

/// Relies on `std::io::Write::flush` on standard output.
#[verifier::external_body]
fn term_flush(out: &mut Stdout) -> (r: Result<(), TerminalError>) {
    match out.flush() {
        Ok(_) => Ok(()),
        Err(_) => Err(TerminalError::WriteFailed),
    }
}

/// Paints on the terminal and remembers the grid size and the caret
/// position it last established. The ghost `commands` field records, in
/// order, every command the terminal accepted; each verified body
/// appends the record beside the call that sends the command, so a
/// contract over `commands` pins what was handed to the terminal.
pub struct Buffer {
    pub stdout: Stdout,
    pub terminal_size: TerminalSize,
    pub caret: ScreenPosition,
    pub commands: Ghost<Seq<PaintCommand>>,
}

impl Buffer {
    pub fn new(stdout: Stdout, terminal_size: TerminalSize) -> (b: Buffer)
        ensures
            b.terminal_size == terminal_size,
            b.commands@ == Seq::<PaintCommand>::empty(),
    {
        Buffer {
            stdout,
            terminal_size,
            caret: ScreenPosition { column: 0, row: 0 },
            commands: Ghost(Seq::empty()),
        }
    }

    /// Repositions the visible caret without painting.
    pub fn move_to(&mut self, position: ScreenPosition) -> (r: Result<(), TerminalError>)
        requires
            position.column < u16::MAX,
            position.row < u16::MAX,
        ensures
            final(self).terminal_size == old(self).terminal_size,
            r is Ok ==> final(self).caret == position,
            r is Ok ==> final(self).commands@ == old(self).commands@.push(
                PaintCommand::MoveTo { column: position.column, row: position.row },
            ),
            r is Err ==> final(self).caret == old(self).caret,
            r is Err ==> final(self).commands == old(self).commands,
    {
        match term_move_to(&mut self.stdout, position.column, position.row) {
            Ok(_) => {
                self.caret = position;
                self.commands = Ghost(
                    self.commands@.push(
                        PaintCommand::MoveTo { column: position.column, row: position.row },
                    ),
                );
                Ok(())
            },
            Err(e) => Err(e),
        }
    }

    /// Erases the visible grid and the scroll history, then homes the
    /// caret.
    pub fn clear(&mut self) -> (r: Result<(), TerminalError>)
        ensures
            final(self).terminal_size == old(self).terminal_size,
            r is Ok ==> final(self).caret == (ScreenPosition { column: 0, row: 0 }),
            r is Ok ==> final(self).commands@ == old(self).commands@ + clear_commands(),
    {
        match term_clear_all(&mut self.stdout) {
            Ok(_) => {
                self.commands = Ghost(self.commands@.push(PaintCommand::ClearAll));
            },
            Err(e) => {
                return Err(e);
            },
        }
        match term_clear_purge(&mut self.stdout) {
            Ok(_) => {
                self.commands = Ghost(self.commands@.push(PaintCommand::ClearPurge));
            },
            Err(e) => {
                return Err(e);
            },
        }
        let r = self.move_to(ScreenPosition { column: 0, row: 0 });
        proof {
            if r is Ok {
                assert(self.commands@ =~= old(self).commands@ + clear_commands());
            }
        }
        r
    }

    pub fn start(&mut self) -> (r: Result<(), TerminalError>)
        ensures
            final(self).terminal_size == old(self).terminal_size,
            r is Ok ==> final(self).caret == (ScreenPosition { column: 0, row: 0 }),
            r is Ok ==> final(self).commands@ == old(self).commands@ + clear_commands(),
    {
        self.clear()
    }

    /// Clears the grid and parks the caret past the bottom corner, where
    /// the shell resumes.
    pub fn stop(&mut self) -> (r: Result<(), TerminalError>)
        ensures
            final(self).terminal_size == old(self).terminal_size,
            r is Ok ==> final(self).caret == (ScreenPosition {
                column: clamped(old(self).terminal_size.columns as nat),
                row: clamped(old(self).terminal_size.rows as nat),
            }),
            r is Ok ==> final(self).commands@ == old(self).commands@
                + clear_commands().push(
                PaintCommand::MoveTo {
                    column: clamped(old(self).terminal_size.columns as nat),
                    row: clamped(old(self).terminal_size.rows as nat),
                },
            ),
    {
        match self.clear() {
            Ok(_) => {},
            Err(e) => {
                return Err(e);
            },
        }
        let corner = ScreenPosition {
            column: clamp_u16(self.terminal_size.columns as usize),
            row: clamp_u16(self.terminal_size.rows as usize),
        };
        let r = self.move_to(corner);
        proof {
            if r is Ok {
                assert(self.commands@ =~= old(self).commands@ + clear_commands().push(
                    PaintCommand::MoveTo { column: corner.column, row: corner.row },
                ));
            }
        }
        r
    }

    pub fn resize(&mut self, new_size: TerminalSize) -> (r: Result<(), TerminalError>)
        ensures
            r is Ok,
            final(self).terminal_size == new_size,
            final(self).caret == old(self).caret,
            final(self).commands == old(self).commands,
    {
        self.terminal_size = new_size;
        Ok(())
    }

    /// Writes each line at `(origin.column, origin.row + index)`, left to
    /// right, without wrapping or clipping; the caller keeps content
    /// inside the terminal width. The caret ends after the last character
    /// written, or at the origin when there is nothing to write.
    pub fn write_at(&mut self, position: ScreenPosition, lines: &Vec<Vec<char>>) -> (r: Result<
        (),
        TerminalError,
    >)
        requires
            position.column < u16::MAX,
            position.row < u16::MAX,
        ensures
            final(self).terminal_size == old(self).terminal_size,
            r is Ok && lines@.len() == 0 ==> final(self).caret == position,
            r is Ok && lines@.len() > 0 ==> final(self).caret == (ScreenPosition {
                column: sat_add(position.column, lines@.last()@.len()),
                row: sat_add(position.row, (lines@.len() - 1) as nat),
            }),
            r is Ok ==> final(self).commands@ == old(self).commands@ + write_at_commands(
                position,
                lines_view(lines@),
            ),
    {
        if lines.len() == 0 {
            match self.move_to(position) {
                Ok(_) => {},
                Err(e) => {
                    return Err(e);
                },
            }
            match term_flush(&mut self.stdout) {
                Ok(_) => {
                    self.commands = Ghost(self.commands@.push(PaintCommand::Flush));
                    proof {
                        assert(self.commands@ =~= old(self).commands@ + write_at_commands(
                            position,
                            lines_view(lines@),
                        ));
                    }
                    return Ok(());
                },
                Err(e) => {
                    return Err(e);
                },
            }
        }
        let mut i: usize = 0;
        while i < lines.len()
            invariant
                i <= lines@.len(),
                lines@.len() > 0,
                position.column < u16::MAX,
                position.row < u16::MAX,
                self.terminal_size == old(self).terminal_size,
                self.commands@ == old(self).commands@ + region_write_commands(
                    position,
                    lines_view(lines@).take(i as int),
                ),
                i > 0 ==> self.caret == (ScreenPosition {
                    column: sat_add(position.column, lines@[i - 1]@.len()),
                    row: sat_add(position.row, (i - 1) as nat),
                }),
            decreases lines@.len() - i,
        {
            proof {
                assert(self.commands@ =~= old(self).commands@ + region_write_commands(
                    position,
                    lines_view(lines@).take(i as int),
                ));
            }
            let row = sat_add_u16(position.row, i);
            match self.move_to(ScreenPosition { column: position.column, row }) {
                Ok(_) => {},
                Err(e) => {
                    return Err(e);
                },
            }
            match term_write(&mut self.stdout, &lines[i]) {
                Ok(_) => {
                    self.commands = Ghost(
                        self.commands@.push(PaintCommand::Write { text: lines@[i as int]@ }),
                    );
                },
                Err(e) => {
                    return Err(e);
                },
            }
            self.caret = ScreenPosition {
                column: sat_add_u16(position.column, lines[i].len()),
                row,
            };
            proof {
                let view = lines_view(lines@);
                assert(view.take(i as int + 1).drop_last() =~= view.take(i as int));
                assert(view.take(i as int + 1).last() == lines@[i as int]@);
                assert(self.commands@ =~= old(self).commands@ + region_write_commands(
                    position,
                    view.take(i as int + 1),
                ));
            }
            i = i + 1;
        }
        match term_flush(&mut self.stdout) {
            Ok(_) => {
                self.commands = Ghost(self.commands@.push(PaintCommand::Flush));
                proof {
                    assert(lines_view(lines@).take(lines@.len() as int) =~= lines_view(lines@));
                    assert(self.commands@ =~= old(self).commands@ + write_at_commands(
                        position,
                        lines_view(lines@),
                    ));
                }
                Ok(())
            },
            Err(e) => Err(e),
        }
    }

    /// Writes one positioned piece of text and leaves the caret after
    /// its last character.
    pub fn write_to(&mut self, line: BufferLine) -> (r: Result<(), TerminalError>)
        requires
            line.position.column < u16::MAX,
            line.position.row < u16::MAX,
        ensures
            final(self).terminal_size == old(self).terminal_size,
            r is Ok ==> final(self).caret == (ScreenPosition {
                column: sat_add(line.position.column, line.content@.len()),
                row: line.position.row,
            }),
            r is Ok ==> final(self).commands@ == old(self).commands@ + seq![
                PaintCommand::MoveTo { column: line.position.column, row: line.position.row },
                PaintCommand::Write { text: line.content@ },
                PaintCommand::Flush,
            ],
    {
        match self.move_to(line.position) {
            Ok(_) => {},
            Err(e) => {
                return Err(e);
            },
        }
        match term_write(&mut self.stdout, &line.content) {
            Ok(_) => {
                self.commands = Ghost(
                    self.commands@.push(PaintCommand::Write { text: line.content@ }),
                );
            },
            Err(e) => {
                return Err(e);
            },
        }
        self.caret = ScreenPosition {
            column: sat_add_u16(line.position.column, line.content.len()),
            row: line.position.row,
        };
        match term_flush(&mut self.stdout) {
            Ok(_) => {
                self.commands = Ghost(self.commands@.push(PaintCommand::Flush));
                proof {
                    assert(self.commands@ =~= old(self).commands@ + seq![
                        PaintCommand::MoveTo {
                            column: line.position.column,
                            row: line.position.row,
                        },
                        PaintCommand::Write { text: line.content@ },
                        PaintCommand::Flush,
                    ]);
                }
                Ok(())
            },
            Err(e) => Err(e),
        }
    }
}

/// The grid position of the document cursor.
pub open spec fn cursor_screen_position(s: State) -> ScreenPosition {
    ScreenPosition {
        column: clamped(s.cursor_position.column as nat),
        row: clamped(s.cursor_position.row as nat),
    }
}

/// The text of the cursor status line: `cursor at [column, row]`.
pub open spec fn status_text(s: State) -> Seq<char> {
    "cursor at ["@ + decimal_digits(s.cursor_position.column as nat) + ", "@ + decimal_digits(
        s.cursor_position.row as nat,
    ) + "]"@
}

/// The footer lines of a frame: the cursor status, the key help, and a
/// pending prompt if there is one.
pub open spec fn footer_text(s: State) -> Seq<Seq<char>> {
    let base = seq![status_text(s), "[ CTRL + S: save ][ CTRL + Q: quit ]"@];
    if s.prompt@.len() > 0 {
        base.push(s.prompt@)
    } else {
        base
    }
}

/// Everything one frame hands to the terminal: the clear, the footer
/// region when the terminal is tall enough, the document region, and
/// the final caret move onto the document cursor.
pub open spec fn frame_commands(s: State) -> Seq<PaintCommand> {
    clear_commands() + (if s.terminal_size.rows > 5 {
        write_at_commands(
            ScreenPosition { column: 0, row: (s.terminal_size.rows - 3) as u16 },
            footer_text(s),
        )
    } else {
        Seq::<PaintCommand>::empty()
    }) + write_at_commands(ScreenPosition { column: 0, row: 0 }, lines_view(s.content@)) + seq![
        PaintCommand::MoveTo {
            column: clamped(s.cursor_position.column as nat),
            row: clamped(s.cursor_position.row as nat),
        },
    ]
}

/// The first footer line: the cursor position, as
/// `cursor at [column, row]`.
pub fn cursor_status_line(s: &State) -> (r: Vec<char>)
    ensures
        r@ == status_text(*s),
{
    let mut r = str_chars("cursor at [");
    let mut column = decimal_chars(s.cursor_position.column);
    r.append(&mut column);
    let mut separator = str_chars(", ");
    r.append(&mut separator);
    let mut row = decimal_chars(s.cursor_position.row);
    r.append(&mut row);
    let mut closing = str_chars("]");
    r.append(&mut closing);
    proof {
        assert(r@ =~= status_text(*s));
    }
    r
}

/// One complete repaint: clear, paint the footer when the terminal is
/// tall enough, paint the document, and park the caret on the document
/// cursor. A pending prompt is shown in the footer for this one frame
/// and cleared.
pub fn render_frame(buffer: &mut Buffer, state: &mut State) -> (r: Result<(), TerminalError>)
    requires
        old(state).wf(),
    ensures
        final(state).wf(),
        final(state).content == old(state).content,
        final(state).cursor_position == old(state).cursor_position,
        final(state).is_running == old(state).is_running,
        final(state).current_file_path_name == old(state).current_file_path_name,
        final(state).terminal_size == old(state).terminal_size,
        final(buffer).terminal_size == old(buffer).terminal_size,
        r is Ok ==> final(buffer).caret == cursor_screen_position(*final(state)),
        r is Ok ==> final(buffer).commands@ == old(buffer).commands@ + frame_commands(
            *old(state),
        ),
        r is Ok && old(state).terminal_size.rows > 5 ==> final(state).prompt@.len() == 0,
        old(state).terminal_size.rows <= 5 ==> final(state).prompt == old(state).prompt,
    {
    match buffer.clear() {
        Ok(_) => {},
        Err(e) => {
            return Err(e);
        },
    }
    if state.terminal_size.rows > 5 {
        let mut footer: Vec<Vec<char>> = Vec::new();
        footer.push(cursor_status_line(state));
        footer.push(str_chars("[ CTRL + S: save ][ CTRL + Q: quit ]"));
        if !state.prompt.is_empty() {
            footer.push(copy_chars(&state.prompt));
        }
        proof {
            assert(lines_view(footer@) =~= footer_text(*old(state)));
        }
        let _ = state.clear_prompt();
        let footer_offset: u16 = 3;
        let footer_position = ScreenPosition {
            column: 0,
            row: state.terminal_size.rows - footer_offset,
        };
        match buffer.write_at(footer_position, &footer) {
            Ok(_) => {},
            Err(e) => {
                return Err(e);
            },
        }
    }
    match buffer.write_at(ScreenPosition { column: 0, row: 0 }, &state.content) {
        Ok(_) => {},
        Err(e) => {
            return Err(e);
        },
    }
    let cursor = ScreenPosition {
        column: clamp_u16(state.cursor_position.column),
        row: clamp_u16(state.cursor_position.row),
    };
    let r = buffer.move_to(cursor);
    proof {
        if r is Ok {
            assert(buffer.commands@ =~= old(buffer).commands@ + frame_commands(*old(state)));
        }
    }
    r
}

} // verus!
