//! The editor loop's decisions. The loop itself blocks on the terminal
//! for input, which the library cannot do; the surrounding program
//! decodes each event into an [`InputEvent`], hands it to [`dispatch`],
//! and performs the returned [`Action`]. Everything the dispatch table
//! decides — which events mutate the document, which are filtered out,
//! and what a save hands to the file collaborator — is settled here.

use vstd::prelude::*;
use crate::state::CursorDirection;
use crate::state::State;
use crate::state::TerminalSize;
use crate::state::deletes_backward;
use crate::state::inserts_char;
use crate::state::moves_cursor;
use crate::state::splits_line;
use crate::text::join_lines;
use crate::text::joined_lines;
use crate::text::lines_view;
use crate::text::str_chars;

verus! {

/// A decoded key, covering exactly the keys the editor reacts to.
#[derive(Clone, Copy, Debug, PartialEq, Eq)]
pub enum Key {
    Char(char),
    Enter,
    Backspace,
    Up,
    Down,
    Left,
    Right,
    Escape,
    Other,
}

/// One decoded terminal event. `press` is false for release and repeat
/// reports, which are filtered out to avoid duplicate mutation.
#[derive(Clone, Copy, Debug, PartialEq, Eq)]
pub enum InputEvent {
    Key { code: Key, control: bool, press: bool },
    Resize { columns: u16, rows: u16 },
    Other,
}

/// What the surrounding loop must do after a dispatch: keep looping,
/// leave the loop, write `content` to the file at `path`, or report
/// that a save was requested with no file to save to.
#[derive(Debug)]
pub enum Action {
    Continue,
    Quit,
    Save { path: String, content: Vec<char> },
    SaveWithoutPath,
}

/// Applies one input event to the editor state and says what the loop
/// should do next: the quit chord stops the running state, the save
/// chord hands back the joined document, press-kind keys edit or move,
/// a resize records the new grid, and everything else is ignored.
pub fn dispatch(state: &mut State, event: InputEvent) -> (a: Action)
    requires
        old(state).wf(),
    ensures
        final(state).wf(),
        match event {
            InputEvent::Key { code, control, press } => {
                if !press {
                    *final(state) == *old(state) && a is Continue
                } else if control {
                    match code {
                        Key::Char(c) => {
                            if c == 'q' {
                                *final(state) == (State {
                                    is_running: false,
                                    ..*old(state)
                                }) && a is Quit
                            } else if c == 's' {
                                *final(state) == *old(state) && if old(
                                    state,
                                ).current_file_path_name@.len() > 0 {
                                    a matches Action::Save { path, content } && path@ == old(
                                        state,
                                    ).current_file_path_name@ && content@ == joined_lines(
                                        lines_view(old(state).content@),
                                    )
                                } else {
                                    a is SaveWithoutPath
                                }
                            } else {
                                *final(state) == *old(state) && a is Continue
                            }
                        },
                        _ => *final(state) == *old(state) && a is Continue,
                    }
                } else {
                    match code {
                        Key::Enter => splits_line(*old(state), *final(state)) && a is Continue,
                        Key::Backspace => deletes_backward(*old(state), *final(state))
                            && a is Continue,
                        Key::Char(c) => if c != '\n' {
                            inserts_char(*old(state), *final(state), c) && a is Continue
                        } else {
                            *final(state) == *old(state) && a is Continue
                        },
                        Key::Up => moves_cursor(*old(state), *final(state), CursorDirection::Up)
                            && a is Continue,
                        Key::Down => moves_cursor(
                            *old(state),
                            *final(state),
                            CursorDirection::Down,
                        ) && a is Continue,
                        Key::Left => moves_cursor(
                            *old(state),
                            *final(state),
                            CursorDirection::Left,
                        ) && a is Continue,
                        Key::Right => moves_cursor(
                            *old(state),
                            *final(state),
                            CursorDirection::Right,
                        ) && a is Continue,
                        _ => *final(state) == *old(state) && a is Continue,
                    }
                }
            },
            InputEvent::Resize { columns, rows } => *final(state) == (State {
                terminal_size: TerminalSize { columns, rows },
                ..*old(state)
            }) && a is Continue,
            InputEvent::Other => *final(state) == *old(state) && a is Continue,
        },
{
    match event {
        InputEvent::Key { code, control, press } => {
            if !press {
                return Action::Continue;
            }
            if control {
                match code {
                    Key::Char(c) => {
                        if c == 'q' {
                            let _ = state.stop();
                            Action::Quit
                        } else if c == 's' {
                            if !state.current_file_path_name.as_str().is_empty() {
                                Action::Save {
                                    path: state.current_file_path_name.clone(),
                                    content: join_lines(&state.content),
                                }
                            } else {
                                Action::SaveWithoutPath
                            }
                        } else {
                            Action::Continue
                        }
                    },
                    _ => Action::Continue,
                }
            } else {
                match code {
                    Key::Enter => {
                        let _ = state.add_line_break();
                        Action::Continue
                    },
                    Key::Backspace => {
                        let _ = state.delete_last_character();
                        Action::Continue
                    },
                    Key::Char(c) => {
                        if c != '\n' {
                            let _ = state.edit(c);
                        }
                        Action::Continue
                    },
                    Key::Up => {
                        let _ = state.move_cursor(CursorDirection::Up);
                        Action::Continue
                    },
                    Key::Down => {
                        let _ = state.move_cursor(CursorDirection::Down);
                        Action::Continue
                    },
                    Key::Left => {
                        let _ = state.move_cursor(CursorDirection::Left);
                        Action::Continue
                    },
                    Key::Right => {
                        let _ = state.move_cursor(CursorDirection::Right);
                        Action::Continue
                    },
                    _ => Action::Continue,
                }
            }
        },
        InputEvent::Resize { columns, rows } => {
            let _ = state.resize(TerminalSize { columns, rows });
            Action::Continue
        },
        InputEvent::Other => Action::Continue,
    }
}

/// The confirmation message for a completed save of `path`.
pub fn save_confirmation(path: &String) -> (r: Vec<char>)
    ensures
        r@ == "`"@ + path@ + "` changes saved."@,
{
    let mut r = str_chars("`");
    let mut name = str_chars(path.as_str());
    r.append(&mut name);
    let mut tail = str_chars("` changes saved.");
    r.append(&mut tail);
    proof {
        assert(r@ =~= "`"@ + path@ + "` changes saved."@);
    }
    r
}

/// Applies the outcome of a performed save: on success the prompt
/// confirms the path, on failure the failure message is surfaced as the
/// prompt — and either way the editor keeps running.
pub fn apply_save_outcome(state: &mut State, path: &String, outcome: Result<(), Vec<char>>) -> (a:
    Action)
    ensures
        *final(state) == (State { prompt: final(state).prompt, ..*old(state) }),
        outcome is Ok ==> final(state).prompt@ == "`"@ + path@ + "` changes saved."@,
        outcome matches Err(message) ==> final(state).prompt == message,
        a is Continue,
{
    match outcome {
        Ok(_) => {
            let message = save_confirmation(path);
            let _ = state.prompt(message);
        },
        Err(message) => {
            let _ = state.prompt(message);
        },
    }
    Action::Continue
}

/// The decision when a save was requested but the buffer has no file:
/// the condition is surfaced as a prompt and the editor keeps running.
pub fn note_missing_save_path(state: &mut State) -> (a: Action)
    ensures
        *final(state) == (State { prompt: final(state).prompt, ..*old(state) }),
        final(state).prompt@ == "no file path found"@,
        a is Continue,
{
    let message = str_chars("no file path found");
    let _ = state.prompt(message);
    Action::Continue
}

} // verus!
