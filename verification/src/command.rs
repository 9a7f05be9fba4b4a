//! The dispatch table: which command a key stands for, by the key, the
//! modifiers held, and the mode of the editor.

use vstd::prelude::*;
use crate::clipboard::ClipboardOperation;
use crate::input::{
    default_action,
    default_action_exec,
    default_navigation,
    is_default_navigation,
    Action,
    Input,
    KeyCode,
};
use crate::motion::{CursorMove, Scrolling};

verus! {

/// Modes of the content editor.
#[derive(Clone, Copy, Debug, PartialEq, Eq, Structural)]
pub enum EditorMode {
    Normal,
    Insert,
    Visual,
}

/// What a key asks of the editor outside Insert mode.
#[derive(Clone, Copy, Debug, PartialEq, Eq, Structural)]
pub enum Command {
    /// Default navigation: the action of the default key map.
    Navigate(Action),
    /// Visual mode, `d`: cut the selection.
    VisualCut,
    /// Visual mode, `y`: copy the selection and go to Normal mode.
    VisualCopy,
    /// Visual mode, `c`: cut the selection and go to Insert mode.
    VisualChange,
    /// Move the cursor; an open selection follows.
    Move(CursorMove),
    /// Scroll; an open selection follows.
    Scroll(Scrolling),
    /// `D`: delete to the end of the line, into the register.
    DeleteLineEnd,
    /// `C`: delete to the end of the line, into the register, and go to
    /// Insert mode.
    ChangeLineEnd,
    /// `x`: delete the character under the cursor, into the register.
    DeleteChar,
    /// `p`: paste.
    Paste,
    /// `u`: undo.
    Undo,
    /// Control-`r`: redo.
    Redo,
    /// `i`: go to Insert mode.
    Insert,
    /// `a`: go to Insert mode behind the character under the cursor.
    InsertAfter,
    /// `A`: go to Insert mode at the end of the line.
    InsertLineEnd,
    /// `I`: go to Insert mode at the head of the line.
    InsertLineHead,
    /// `o`: open a line below and go to Insert mode.
    OpenBelow,
    /// `O`: open a line above and go to Insert mode.
    OpenAbove,
    /// The key has no meaning: nothing happens.
    Nothing,
}

/// The commands of Visual mode alone: `d`, `y` and `c` with no modifier
/// held.
pub open spec fn visual_only(input: Input) -> Option<Command> {
    if !input.modifiers.is_empty() {
        None
    } else {
        match input.key_code {
            KeyCode::Char(c) => if c == 'd' {
                Some(Command::VisualCut)
            } else if c == 'y' {
                Some(Command::VisualCopy)
            } else if c == 'c' {
                Some(Command::VisualChange)
            } else {
                None
            },
            _ => None,
        }
    }
}

/// The table of motions and commands of Normal and Visual mode. Only
/// Control tells two meanings of a letter apart; the other modifiers do not
/// count.
pub open spec fn vim_command(input: Input) -> Command {
    match input.key_code {
        KeyCode::Char(c) => if !input.modifiers.control {
            if c == 'h' {
                Command::Move(CursorMove::Back)
            } else if c == 'j' {
                Command::Move(CursorMove::Down)
            } else if c == 'k' {
                Command::Move(CursorMove::Up)
            } else if c == 'l' {
                Command::Move(CursorMove::Forward)
            } else if c == 'w' || c == 'e' {
                Command::Move(CursorMove::WordForward)
            } else if c == 'b' {
                Command::Move(CursorMove::WordBack)
            } else if c == '^' {
                Command::Move(CursorMove::Head)
            } else if c == '$' {
                Command::Move(CursorMove::End)
            } else if c == 'D' {
                Command::DeleteLineEnd
            } else if c == 'C' {
                Command::ChangeLineEnd
            } else if c == 'p' {
                Command::Paste
            } else if c == 'u' {
                Command::Undo
            } else if c == 'x' {
                Command::DeleteChar
            } else if c == 'i' {
                Command::Insert
            } else if c == 'a' {
                Command::InsertAfter
            } else if c == 'A' {
                Command::InsertLineEnd
            } else if c == 'o' {
                Command::OpenBelow
            } else if c == 'O' {
                Command::OpenAbove
            } else if c == 'I' {
                Command::InsertLineHead
            } else {
                Command::Nothing
            }
        } else {
            if c == 'r' {
                Command::Redo
            } else if c == 'd' {
                Command::Scroll(Scrolling::HalfPageDown)
            } else if c == 'u' {
                Command::Scroll(Scrolling::HalfPageUp)
            } else if c == 'f' {
                Command::Scroll(Scrolling::PageDown)
            } else if c == 'b' {
                Command::Scroll(Scrolling::PageUp)
            } else {
                Command::Nothing
            }
        },
        _ => Command::Nothing,
    }
}

/// The command of a key, in the order of precedence: default navigation in
/// every mode; then, in Visual mode, the commands of that mode alone; then,
/// in Normal and Visual mode, the table of motions and commands. Every other
/// key does nothing.
pub open spec fn classify(input: Input, mode: EditorMode) -> Command {
    if default_navigation(input) {
        Command::Navigate(default_action(input))
    } else if mode == EditorMode::Visual && visual_only(input) is Some {
        visual_only(input)->0
    } else if mode != EditorMode::Insert {
        vim_command(input)
    } else {
        Command::Nothing
    }
}

/// The clipboard command of a key in Insert mode: Control with `x`, `c` or
/// `v`.
pub open spec fn clipboard_shortcut(input: Input) -> Option<ClipboardOperation> {
    if !input.modifiers.control {
        None
    } else {
        match input.key_code {
            KeyCode::Char(c) => if c == 'x' {
                Some(ClipboardOperation::Cut)
            } else if c == 'c' {
                Some(ClipboardOperation::Copy)
            } else if c == 'v' {
                Some(ClipboardOperation::Paste)
            } else {
                None
            },
            _ => None,
        }
    }
}

/// A command that only moves the cursor or the window, or does nothing.
pub open spec fn is_movement(cmd: Command) -> bool {
    match cmd {
        Command::Navigate(action) => action is Move || action is Scroll || action is Ignore,
        Command::Move(_) | Command::Scroll(_) | Command::Nothing => true,
        _ => false,
    }
}

/// The command of a key of Visual mode alone.
pub fn visual_only_exec(input: &Input) -> (out: Option<Command>)
    ensures
        out == visual_only(*input),
{
    if !input.modifiers.is_empty() {
        None
    } else {
        match input.key_code {
            KeyCode::Char(c) => {
                if c == 'd' {
                    Some(Command::VisualCut)
                } else if c == 'y' {
                    Some(Command::VisualCopy)
                } else if c == 'c' {
                    Some(Command::VisualChange)
                } else {
                    None
                }
            },
            _ => None,
        }
    }
}

/// The command of a key by the table of motions and commands.
pub fn vim_command_exec(input: &Input) -> (out: Command)
    ensures
        out == vim_command(*input),
{
    match input.key_code {
        KeyCode::Char(c) => {
            if !input.modifiers.control {
                if c == 'h' {
                    Command::Move(CursorMove::Back)
                } else if c == 'j' {
                    Command::Move(CursorMove::Down)
                } else if c == 'k' {
                    Command::Move(CursorMove::Up)
                } else if c == 'l' {
                    Command::Move(CursorMove::Forward)
                } else if c == 'w' || c == 'e' {
                    Command::Move(CursorMove::WordForward)
                } else if c == 'b' {
                    Command::Move(CursorMove::WordBack)
                } else if c == '^' {
                    Command::Move(CursorMove::Head)
                } else if c == '$' {
                    Command::Move(CursorMove::End)
                } else if c == 'D' {
                    Command::DeleteLineEnd
                } else if c == 'C' {
                    Command::ChangeLineEnd
                } else if c == 'p' {
                    Command::Paste
                } else if c == 'u' {
                    Command::Undo
                } else if c == 'x' {
                    Command::DeleteChar
                } else if c == 'i' {
                    Command::Insert
                } else if c == 'a' {
                    Command::InsertAfter
                } else if c == 'A' {
                    Command::InsertLineEnd
                } else if c == 'o' {
                    Command::OpenBelow
                } else if c == 'O' {
                    Command::OpenAbove
                } else if c == 'I' {
                    Command::InsertLineHead
                } else {
                    Command::Nothing
                }
            } else {
                if c == 'r' {
                    Command::Redo
                } else if c == 'd' {
                    Command::Scroll(Scrolling::HalfPageDown)
                } else if c == 'u' {
                    Command::Scroll(Scrolling::HalfPageUp)
                } else if c == 'f' {
                    Command::Scroll(Scrolling::PageDown)
                } else if c == 'b' {
                    Command::Scroll(Scrolling::PageUp)
                } else {
                    Command::Nothing
                }
            }
        },
        _ => Command::Nothing,
    }
}

/// The command of a key in a mode, as `classify` says.
pub fn classify_exec(input: &Input, mode: EditorMode) -> (out: Command)
    ensures
        out == classify(*input, mode),
{
    if is_default_navigation(input) {
        return Command::Navigate(default_action_exec(input));
    }
    if mode == EditorMode::Visual {
        match visual_only_exec(input) {
            Some(cmd) => {
                return cmd;
            },
            None => {},
        }
    }
    if mode != EditorMode::Insert {
        vim_command_exec(input)
    } else {
        Command::Nothing
    }
}

/// The clipboard command of a key in Insert mode.
pub fn clipboard_shortcut_exec(input: &Input) -> (out: Option<ClipboardOperation>)
    ensures
        out == clipboard_shortcut(*input),
{
    if !input.modifiers.control {
        None
    } else {
        match input.key_code {
            KeyCode::Char(c) => {
                if c == 'x' {
                    Some(ClipboardOperation::Cut)
                } else if c == 'c' {
                    Some(ClipboardOperation::Copy)
                } else if c == 'v' {
                    Some(ClipboardOperation::Paste)
                } else {
                    None
                }
            },
            _ => None,
        }
    }
}

} // verus!
