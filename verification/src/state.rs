//! The in-memory document model: ordered lines, a cursor, and the
//! editor's running flag, prompt, and terminal size.
//!
//! Every operation keeps the cursor inside the document: the row stays
//! below the line count and the column never passes the end of the
//! current line. Lines never contain a line break; breaking a line is
//! what [`State::add_line_break`] is for.

use vstd::prelude::*;

verus! {

/// A direction for a cursor movement request.
#[derive(Clone, Copy, Debug, PartialEq, Eq)]
pub enum CursorDirection {
    Up,
    Down,
    Left,
    Right,
}

/// The caret: `column` is an insertion point inside the row's line
/// (`0 <= column <= line length`), `row` indexes the document.
#[derive(Clone, Copy, Debug, PartialEq, Eq)]
pub struct CursorPosition {
    pub column: usize,
    pub row: usize,
}

/// A terminal grid size snapshot, in character cells.
#[derive(Clone, Copy, Debug, PartialEq, Eq)]
pub struct TerminalSize {
    pub columns: u16,
    pub rows: u16,
}

/// An error from a lifecycle transition taken in the wrong state.
#[derive(Clone, Copy, Debug, PartialEq, Eq)]
pub enum StateError {
    AlreadyRunning,
    NotRunning,
}

/// A line holds no line terminator.
pub open spec fn line_ok(line: Seq<char>) -> bool {
    forall|i: int| 0 <= i < line.len() ==> line[i] != '\n'
}

/// The document model and everything the editor loop reads each frame.
#[derive(Debug)]
pub struct State {
    pub current_file_path_name: String,
    pub is_running: bool,
    pub content: Vec<Vec<char>>,
    pub prompt: Vec<char>,
    pub terminal_size: TerminalSize,
    pub cursor_position: CursorPosition,
}

impl State {
    /// Well-formedness: lines hold no line break, and the cursor is in
    /// bounds (at the origin when the document is empty).
    pub open spec fn wf(&self) -> bool {
        &&& forall|i: int|
            0 <= i < self.content@.len() ==> line_ok(#[trigger] self.content@[i]@)
        &&& if self.content@.len() == 0 {
            self.cursor_position.column == 0 && self.cursor_position.row == 0
        } else {
            &&& self.cursor_position.row < self.content@.len()
            &&& self.cursor_position.column
                <= self.content@[self.cursor_position.row as int]@.len()
        }
    }

    pub fn new(
        current_file_path_name: String,
        content: Vec<Vec<char>>,
        terminal_size: TerminalSize,
    ) -> (s: State)
        requires
            forall|i: int| 0 <= i < content@.len() ==> line_ok(#[trigger] content@[i]@),
        ensures
            s.wf(),
            s.content == content,
            s.current_file_path_name == current_file_path_name,
            !s.is_running,
            s.prompt@.len() == 0,
            s.terminal_size == terminal_size,
            content@.len() == 0 ==> s.cursor_position == (CursorPosition { column: 0, row: 0 }),
            content@.len() > 0 ==> s.cursor_position.row == content@.len() - 1
                && s.cursor_position.column == content@[content@.len() - 1]@.len(),
    {
        let last_line_index = content.len();
        let cursor_position = if 0 < last_line_index {
            CursorPosition { column: content[last_line_index - 1].len(), row: last_line_index - 1 }
        } else {
            CursorPosition { column: 0, row: 0 }
        };
        State {
            current_file_path_name,
            is_running: false,
            content,
            prompt: Vec::new(),
            terminal_size,
            cursor_position,
        }
    }

    pub fn start(&mut self) -> (r: Result<(), StateError>)
        ensures
            r is Ok <==> !old(self).is_running,
            r is Err ==> *final(self) == *old(self) && r == Err::<(), StateError>(
                StateError::AlreadyRunning,
            ),
            r is Ok ==> *final(self) == (State { is_running: true, ..*old(self) }),
    {
        if self.is_running {
            return Err(StateError::AlreadyRunning);
        }
        self.is_running = true;
        Ok(())
    }

    pub fn stop(&mut self) -> (r: Result<(), StateError>)
        ensures
            r is Ok <==> old(self).is_running,
            r is Err ==> *final(self) == *old(self) && r == Err::<(), StateError>(
                StateError::NotRunning,
            ),
            r is Ok ==> *final(self) == (State { is_running: false, ..*old(self) }),
    {
        if !self.is_running {
            return Err(StateError::NotRunning);
        }
        self.is_running = false;
        Ok(())
    }

    /// Inserts `character` at the cursor and advances the column by one.
    /// An empty document first becomes a single line holding the character.
    pub fn edit(&mut self, character: char) -> (r: Result<(), StateError>)
        requires
            old(self).wf(),
            character != '\n',
        ensures
            r is Ok,
            final(self).wf(),
            inserts_char(*old(self), *final(self), character),
    {
        if self.content.len() == 0 {
            let mut line: Vec<char> = Vec::new();
            line.push(character);
            self.content.push(line);
            self.cursor_position = CursorPosition { column: 1, row: 0 };
        } else {
            let row = self.cursor_position.row;
            let column = self.cursor_position.column;
            self.content[row].insert(column, character);
            let new_length = self.content[row].len();
            assert(column < new_length);
            self.cursor_position.column = column + 1;
        }
        Ok(())
    }

    /// Splits the current line at the cursor column: the part before the
    /// cursor stays, the part after it becomes a new line just below, and
    /// the cursor lands on the new line at the end of the moved part. An
    /// empty document behaves like a single empty line.
    pub fn add_line_break(&mut self) -> (r: Result<(), StateError>)
        requires
            old(self).wf(),
        ensures
            r is Ok,
            final(self).wf(),
            splits_line(*old(self), *final(self)),
    {
        if self.content.len() == 0 {
            let empty: Vec<char> = Vec::new();
            self.content.push(empty);
            self.cursor_position = CursorPosition { column: 0, row: 0 };
        }
        let row = self.cursor_position.row;
        let column = self.cursor_position.column;
        let tail = self.content[row].split_off(column);
        let tail_length = tail.len();
        self.content.insert(row + 1, tail);
        self.cursor_position = CursorPosition { column: tail_length, row: row + 1 };
        proof {
            if old(self).content@.len() == 0 {
                assert(self.content@[0]@ =~= Seq::<char>::empty());
                assert(self.content@[1]@ =~= Seq::<char>::empty());
            }
        }
        Ok(())
    }

    /// Removes the character just before the cursor. At the start of a
    /// line it joins the line onto the previous one; at the start of the
    /// document, or in an empty document, it does nothing.
    pub fn delete_last_character(&mut self) -> (r: Result<(), StateError>)
        requires
            old(self).wf(),
        ensures
            r is Ok,
            final(self).wf(),
            deletes_backward(*old(self), *final(self)),
    {
        if self.content.len() == 0 {
            return Ok(());
        }
        let row = self.cursor_position.row;
        let column = self.cursor_position.column;
        if column > 0 {
            self.content[row].remove(column - 1);
            self.cursor_position.column = column - 1;
        } else if row > 0 {
            let mut line = self.content.remove(row);
            let previous_length = self.content[row - 1].len();
            self.content[row - 1].append(&mut line);
            self.cursor_position = CursorPosition { column: previous_length, row: row - 1 };
        }
        Ok(())
    }

    /// Stores a transient status message, shown for one frame.
    pub fn prompt(&mut self, content: Vec<char>) -> (r: Result<(), StateError>)
        ensures
            r is Ok,
            *final(self) == (State { prompt: content, ..*old(self) }),
    {
        self.prompt = content;
        Ok(())
    }

    pub fn clear_prompt(&mut self) -> (r: Result<(), StateError>)
        ensures
            r is Ok,
            final(self).prompt@.len() == 0,
            *final(self) == (State { prompt: final(self).prompt, ..*old(self) }),
    {
        self.prompt = Vec::new();
        Ok(())
    }

    pub fn resize(&mut self, new_size: TerminalSize) -> (r: Result<(), StateError>)
        ensures
            r is Ok,
            *final(self) == (State { terminal_size: new_size, ..*old(self) }),
    {
        self.terminal_size = new_size;
        Ok(())
    }

    /// Moves the cursor one step. Vertical moves snap the column to the
    /// end of the target line; a move past an edge leaves the cursor
    /// unchanged. Rightward movement stops one short of the line end.
    pub fn move_cursor(&mut self, direction: CursorDirection) -> (r: Result<(), StateError>)
        requires
            old(self).wf(),
        ensures
            r is Ok,
            final(self).wf(),
            moves_cursor(*old(self), *final(self), direction),
    {
        if self.content.len() == 0 {
            return Ok(());
        }
        let row = self.cursor_position.row;
        let column = self.cursor_position.column;
        match direction {
            CursorDirection::Up => {
                if 0 < row {
                    let target_length = self.content[row - 1].len();
                    self.cursor_position = CursorPosition { column: target_length, row: row - 1 };
                }
            },
            CursorDirection::Down => {
                if row < self.content.len() - 1 {
                    let target_length = self.content[row + 1].len();
                    self.cursor_position = CursorPosition { column: target_length, row: row + 1 };
                }
            },
            CursorDirection::Left => {
                if 0 < column {
                    self.cursor_position.column = column - 1;
                }
            },
            CursorDirection::Right => {
                let current_length = self.content[row].len();
                if 0 < current_length && column < current_length - 1 {
                    self.cursor_position.column = column + 1;
                }
            },
        }
        Ok(())
    }
}

/// Everything outside the document and cursor is untouched.
pub open spec fn same_surroundings(pre: State, post: State) -> bool {
    &&& post.current_file_path_name == pre.current_file_path_name
    &&& post.is_running == pre.is_running
    &&& post.prompt == pre.prompt
    &&& post.terminal_size == pre.terminal_size
}

/// How [`State::edit`] changes the state.
pub open spec fn inserts_char(pre: State, post: State, character: char) -> bool {
    &&& same_surroundings(pre, post)
    &&& if pre.content@.len() == 0 {
        &&& post.content@.len() == 1
        &&& post.content@[0]@ == seq![character]
        &&& post.cursor_position == (CursorPosition { column: 1, row: 0 })
    } else {
        let row = pre.cursor_position.row as int;
        let column = pre.cursor_position.column as int;
        &&& post.content@.len() == pre.content@.len()
        &&& post.content@[row]@ == pre.content@[row]@.insert(column, character)
        &&& forall|i: int|
            0 <= i < pre.content@.len() && i != row ==> post.content@[i] == pre.content@[i]
        &&& post.cursor_position.row == pre.cursor_position.row
        &&& post.cursor_position.column == pre.cursor_position.column + 1
    }
}

/// How [`State::add_line_break`] changes the state. An empty document
/// behaves like a single empty line, so it splits into two empty lines.
pub open spec fn splits_line(pre: State, post: State) -> bool {
    &&& same_surroundings(pre, post)
    &&& if pre.content@.len() == 0 {
        &&& post.content@.len() == 2
        &&& post.content@[0]@ == Seq::<char>::empty()
        &&& post.content@[1]@ == Seq::<char>::empty()
        &&& post.cursor_position == (CursorPosition { column: 0, row: 1 })
    } else {
        let row = pre.cursor_position.row as int;
        let column = pre.cursor_position.column as int;
        let line = pre.content@[row]@;
        &&& post.content@.len() == pre.content@.len() + 1
        &&& post.content@[row]@ == line.subrange(0, column)
        &&& post.content@[row + 1]@ == line.subrange(column, line.len() as int)
        &&& forall|i: int| 0 <= i < row ==> post.content@[i] == pre.content@[i]
        &&& forall|i: int|
            row + 1 < i < post.content@.len() ==> post.content@[i] == pre.content@[i - 1]
        &&& post.cursor_position.row == pre.cursor_position.row + 1
        &&& post.cursor_position.column == line.len() - column
    }
}

/// How [`State::delete_last_character`] changes the state.
pub open spec fn deletes_backward(pre: State, post: State) -> bool {
    &&& same_surroundings(pre, post)
    &&& if pre.content@.len() == 0 {
        post == pre
    } else {
        let row = pre.cursor_position.row as int;
        let column = pre.cursor_position.column as int;
        if column > 0 {
            &&& post.content@.len() == pre.content@.len()
            &&& post.content@[row]@ == pre.content@[row]@.remove(column - 1)
            &&& forall|i: int|
                0 <= i < pre.content@.len() && i != row ==> post.content@[i] == pre.content@[i]
            &&& post.cursor_position.row == pre.cursor_position.row
            &&& post.cursor_position.column == pre.cursor_position.column - 1
        } else if row > 0 {
            &&& post.content@.len() == pre.content@.len() - 1
            &&& post.content@[row - 1]@ == pre.content@[row - 1]@ + pre.content@[row]@
            &&& forall|i: int| 0 <= i < row - 1 ==> post.content@[i] == pre.content@[i]
            &&& forall|i: int|
                row - 1 < i < post.content@.len() ==> post.content@[i] == pre.content@[i + 1]
            &&& post.cursor_position.row == pre.cursor_position.row - 1
            &&& post.cursor_position.column == pre.content@[row - 1]@.len()
        } else {
            post == pre
        }
    }
}

/// How [`State::move_cursor`] changes the cursor; nothing else moves.
pub open spec fn moves_cursor(pre: State, post: State, direction: CursorDirection) -> bool {
    &&& same_surroundings(pre, post)
    &&& post.content == pre.content
    &&& if pre.content@.len() == 0 {
        post.cursor_position == pre.cursor_position
    } else {
        let row = pre.cursor_position.row as int;
        let column = pre.cursor_position.column as int;
        match direction {
            CursorDirection::Up => {
                if row > 0 {
                    &&& post.cursor_position.row == row - 1
                    &&& post.cursor_position.column == pre.content@[row - 1]@.len()
                } else {
                    post.cursor_position == pre.cursor_position
                }
            },
            CursorDirection::Down => {
                if row < pre.content@.len() - 1 {
                    &&& post.cursor_position.row == row + 1
                    &&& post.cursor_position.column == pre.content@[row + 1]@.len()
                } else {
                    post.cursor_position == pre.cursor_position
                }
            },
            CursorDirection::Left => {
                if column > 0 {
                    &&& post.cursor_position.row == row
                    &&& post.cursor_position.column == column - 1
                } else {
                    post.cursor_position == pre.cursor_position
                }
            },
            CursorDirection::Right => {
                if 0 < pre.content@[row]@.len() && column < pre.content@[row]@.len() - 1 {
                    &&& post.cursor_position.row == row
                    &&& post.cursor_position.column == column + 1
                } else {
                    post.cursor_position == pre.cursor_position
                }
            },
        }
    }
}

/// The cursor of a well-formed state is inside the document: the row is
/// below the line count and the column is at most the line's length.
/// Every operation above keeps `wf`, so this holds after any sequence
/// of edits, splits, and cursor moves.
pub proof fn lemma_cursor_in_bounds(s: State)
    requires
        s.wf(),
        s.content@.len() > 0,
    ensures
        0 <= s.cursor_position.row < s.content@.len(),
        0 <= s.cursor_position.column <= s.content@[s.cursor_position.row as int]@.len(),
{
}

/// Splitting a line of length `L` at column `K` leaves two lines of
/// lengths `K` and `L - K` whose concatenation is the original line,
/// and grows the document by exactly one line.
pub proof fn lemma_split_line_shape(pre: State, post: State)
    requires
        pre.wf(),
        pre.content@.len() > 0,
        splits_line(pre, post),
    ensures
        post.content@.len() == pre.content@.len() + 1,
        post.content@[pre.cursor_position.row as int]@.len() == pre.cursor_position.column,
        post.content@[pre.cursor_position.row as int + 1]@.len() == pre.content@[
            pre.cursor_position.row as int
        ]@.len() - pre.cursor_position.column,
        post.content@[pre.cursor_position.row as int]@ + post.content@[
            pre.cursor_position.row as int + 1
        ]@ == pre.content@[pre.cursor_position.row as int]@,
{
    let row = pre.cursor_position.row as int;
    let column = pre.cursor_position.column as int;
    let line = pre.content@[row]@;
    assert(line.subrange(0, column) + line.subrange(column, line.len() as int) =~= line);
}

/// From a row strictly between the first and the last, moving up and
/// then down returns to the starting row, with the column snapped to
/// that row's line length rather than to where the cursor had been.
pub proof fn lemma_move_up_then_down(s0: State, s1: State, s2: State)
    requires
        s0.wf(),
        0 < s0.cursor_position.row < s0.content@.len() - 1,
        moves_cursor(s0, s1, CursorDirection::Up),
        moves_cursor(s1, s2, CursorDirection::Down),
    ensures
        s2.cursor_position.row == s0.cursor_position.row,
        s2.cursor_position.column == s0.content@[s0.cursor_position.row as int]@.len(),
        s2.content == s0.content,
{
}

} // verus!
