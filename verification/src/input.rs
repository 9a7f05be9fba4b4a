//! Key events as plain values, and the default key map of the buffer: what a
//! key does to the text where no mode gives it another meaning.

use vstd::prelude::*;
use crate::motion::{CursorMove, Scrolling};

verus! {

/// The keys that the editor tells apart.
#[derive(Clone, Copy, Debug, PartialEq, Eq, Structural)]
pub enum KeyCode {
    Backspace,
    Enter,
    Left,
    Right,
    Up,
    Down,
    Home,
    End,
    PageUp,
    PageDown,
    Tab,
    BackTab,
    Delete,
    Insert,
    Esc,
    F(u8),
    Char(char),
    /// Any key that has no meaning here.
    Other,
}

/// The modifier keys held while a key is pressed.
#[derive(Clone, Copy, Debug, PartialEq, Eq, Structural)]
pub struct KeyModifiers {
    pub shift: bool,
    pub control: bool,
    pub alt: bool,
    pub super_key: bool,
    pub hyper: bool,
    pub meta: bool,
}

impl KeyModifiers {
    /// No modifier.
    pub fn none() -> (m: KeyModifiers)
        ensures
            m == (KeyModifiers {
                shift: false,
                control: false,
                alt: false,
                super_key: false,
                hyper: false,
                meta: false,
            }),
            m.is_empty(),
    {
        KeyModifiers {
            shift: false,
            control: false,
            alt: false,
            super_key: false,
            hyper: false,
            meta: false,
        }
    }

    /// Shift alone.
    pub fn shift() -> (m: KeyModifiers)
        ensures
            m == (KeyModifiers { shift: true, ..KeyModifiers::spec_none() }),
    {
        KeyModifiers { shift: true, ..KeyModifiers::none() }
    }

    /// Control alone.
    pub fn control() -> (m: KeyModifiers)
        ensures
            m == (KeyModifiers { control: true, ..KeyModifiers::spec_none() }),
    {
        KeyModifiers { control: true, ..KeyModifiers::none() }
    }

    /// Alt alone.
    pub fn alt() -> (m: KeyModifiers)
        ensures
            m == (KeyModifiers { alt: true, ..KeyModifiers::spec_none() }),
    {
        KeyModifiers { alt: true, ..KeyModifiers::none() }
    }

    /// No modifier, in specifications.
    pub open spec fn spec_none() -> KeyModifiers {
        KeyModifiers {
            shift: false,
            control: false,
            alt: false,
            super_key: false,
            hyper: false,
            meta: false,
        }
    }

    /// No modifier is held.
    #[verifier::when_used_as_spec(spec_is_empty)]
    pub fn is_empty(&self) -> (b: bool)
        ensures
            b == self.spec_is_empty(),
    {
        !self.shift && !self.control && !self.alt && !self.super_key && !self.hyper && !self.meta
    }

    /// No modifier is held.
    pub open spec fn spec_is_empty(&self) -> bool {
        !self.shift && !self.control && !self.alt && !self.super_key && !self.hyper && !self.meta
    }
}

/// One key press.
#[derive(Clone, Copy, Debug, PartialEq, Eq, Structural)]
pub struct Input {
    pub key_code: KeyCode,
    pub modifiers: KeyModifiers,
}

impl Input {
    /// The press of `key_code` with `modifiers` held.
    pub fn new(key_code: KeyCode, modifiers: KeyModifiers) -> (input: Input)
        ensures
            input == (Input { key_code, modifiers }),
    {
        Input { key_code, modifiers }
    }
}

/// Whether a handler took the key.
#[derive(Clone, Copy, Debug, PartialEq, Eq, Structural)]
pub enum HandleInputReturnType {
    /// The key was taken; nobody else should handle it.
    Handled,
    /// The key is not for this handler.
    NotFound,
}

/// The keys of default navigation: the arrows, Home, End, PageUp and
/// PageDown whatever is held with them, `p`, `n`, `e`, `a` and `v` with
/// Control or Alt, and `f` and `b` with Alt but without Control.
pub open spec fn default_navigation(input: Input) -> bool {
    let control = input.modifiers.control;
    let alt = input.modifiers.alt;
    match input.key_code {
        KeyCode::Left
        | KeyCode::Right
        | KeyCode::Up
        | KeyCode::Down
        | KeyCode::Home
        | KeyCode::End
        | KeyCode::PageUp
        | KeyCode::PageDown => true,
        KeyCode::Char(c) => if c == 'p' || c == 'n' || c == 'e' || c == 'a' || c == 'v' {
            control || alt
        } else if c == 'f' || c == 'b' {
            !control && alt
        } else {
            false
        },
        _ => false,
    }
}

/// Whether the key belongs to default navigation.
pub fn is_default_navigation(input: &Input) -> (b: bool)
    ensures
        b == default_navigation(*input),
{
    let has_control = input.modifiers.control;
    let has_alt = input.modifiers.alt;
    match input.key_code {
        KeyCode::Left
        | KeyCode::Right
        | KeyCode::Up
        | KeyCode::Down
        | KeyCode::Home
        | KeyCode::End
        | KeyCode::PageUp
        | KeyCode::PageDown => true,
        KeyCode::Char(c) => {
            if c == 'p' || c == 'n' || c == 'e' || c == 'a' || c == 'v' {
                has_control || has_alt
            } else if c == 'f' || c == 'b' {
                !has_control && has_alt
            } else {
                false
            }
        },
        _ => false,
    }
}

/// What a key does to a buffer.
#[derive(Clone, Copy, Debug, PartialEq, Eq, Structural)]
pub enum Action {
    /// Type the character.
    Insert(char),
    /// Break the line.
    Newline,
    /// Insert spaces up to the next stop of the tabulator.
    Tab,
    /// Delete the character before the cursor.
    Backspace,
    /// Delete the character at the cursor.
    Delete,
    /// Delete to the end of the line, into the register.
    DeleteLineEnd,
    /// Move the cursor; `keep` says whether a selection stays.
    Move { to: CursorMove, keep: bool },
    /// Scroll; `keep` says whether a selection stays.
    Scroll { by: Scrolling, keep: bool },
    Undo,
    Redo,
    /// Insert the register.
    Paste,
    /// Cut the selection into the register.
    Cut,
    /// Copy the selection into the register.
    Copy,
    /// The key has no meaning.
    Ignore,
}

/// The move that a key of the default key map makes, if it makes one. The
/// letter chords are the Emacs ones: Control with `n`, `p`, `f`, `b`, `a`,
/// `e`; Alt with `f`, `b` for words, with `n`, `p`, `]`, `[` for paragraphs,
/// with `<`, `>` for the ends of the text. The arrows move by a character or
/// a line, with Control by a word or a paragraph, with Control and Alt to the
/// end of the line or the text.
pub open spec fn default_move(input: Input) -> Option<CursorMove> {
    let control = input.modifiers.control;
    let alt = input.modifiers.alt;
    match input.key_code {
        KeyCode::Home => Some(CursorMove::Head),
        KeyCode::End => Some(CursorMove::End),
        KeyCode::Down => if !control && !alt {
            Some(CursorMove::Down)
        } else if control && alt {
            Some(CursorMove::Bottom)
        } else if control {
            Some(CursorMove::ParagraphForward)
        } else {
            None
        },
        KeyCode::Up => if !control && !alt {
            Some(CursorMove::Up)
        } else if control && alt {
            Some(CursorMove::Top)
        } else if control {
            Some(CursorMove::ParagraphBack)
        } else {
            None
        },
        KeyCode::Right => if !control && !alt {
            Some(CursorMove::Forward)
        } else if control && alt {
            Some(CursorMove::End)
        } else if control {
            Some(CursorMove::WordForward)
        } else {
            None
        },
        KeyCode::Left => if !control && !alt {
            Some(CursorMove::Back)
        } else if control && alt {
            Some(CursorMove::Head)
        } else if control {
            Some(CursorMove::WordBack)
        } else {
            None
        },
        KeyCode::Char(c) => if control && !alt {
            if c == 'n' {
                Some(CursorMove::Down)
            } else if c == 'p' {
                Some(CursorMove::Up)
            } else if c == 'f' {
                Some(CursorMove::Forward)
            } else if c == 'b' {
                Some(CursorMove::Back)
            } else if c == 'a' {
                Some(CursorMove::Head)
            } else if c == 'e' {
                Some(CursorMove::End)
            } else {
                None
            }
        } else if control && alt {
            if c == 'b' {
                Some(CursorMove::Head)
            } else if c == 'f' {
                Some(CursorMove::End)
            } else if c == 'p' {
                Some(CursorMove::Top)
            } else if c == 'n' {
                Some(CursorMove::Bottom)
            } else {
                None
            }
        } else if alt {
            if c == '<' {
                Some(CursorMove::Top)
            } else if c == '>' {
                Some(CursorMove::Bottom)
            } else if c == 'f' {
                Some(CursorMove::WordForward)
            } else if c == 'b' {
                Some(CursorMove::WordBack)
            } else if c == ']' || c == 'n' {
                Some(CursorMove::ParagraphForward)
            } else if c == '[' || c == 'p' {
                Some(CursorMove::ParagraphBack)
            } else {
                None
            }
        } else {
            None
        },
        _ => None,
    }
}

/// The default key map. Enter, Control-m and a line feed or carriage return
/// break the line; a character without Control and Alt is typed; Tab,
/// Backspace and Delete without Control and Alt do what they are named for,
/// and so do Control-h and Control-d; Control-k deletes to the end of the
/// line; Control-u, -r, -y, -x, -c are undo, redo, paste, cut, copy; PageDown
/// and Control-v scroll a page down, PageUp and Alt-v a page up; the keys of
/// `default_move` move the cursor. With Shift held, a move or a scroll keeps
/// the selection. Every other key is ignored.
pub open spec fn default_action(input: Input) -> Action {
    let control = input.modifiers.control;
    let alt = input.modifiers.alt;
    let keep = input.modifiers.shift;
    let plain = !control && !alt;
    let chord = control && !alt;
    match input.key_code {
        KeyCode::Enter => Action::Newline,
        KeyCode::Tab => if plain {
            Action::Tab
        } else {
            Action::Ignore
        },
        KeyCode::Backspace => if plain {
            Action::Backspace
        } else {
            Action::Ignore
        },
        KeyCode::Delete => if plain {
            Action::Delete
        } else {
            Action::Ignore
        },
        KeyCode::PageDown => Action::Scroll { by: Scrolling::PageDown, keep },
        KeyCode::PageUp => Action::Scroll { by: Scrolling::PageUp, keep },
        KeyCode::Char(c) => if plain {
            if c == '\n' || c == '\r' {
                Action::Newline
            } else {
                Action::Insert(c)
            }
        } else if chord && c == 'm' {
            Action::Newline
        } else if chord && c == 'h' {
            Action::Backspace
        } else if chord && c == 'd' {
            Action::Delete
        } else if chord && c == 'k' {
            Action::DeleteLineEnd
        } else if chord && c == 'u' {
            Action::Undo
        } else if chord && c == 'r' {
            Action::Redo
        } else if chord && c == 'y' {
            Action::Paste
        } else if chord && c == 'x' {
            Action::Cut
        } else if chord && c == 'c' {
            Action::Copy
        } else if chord && c == 'v' {
            Action::Scroll { by: Scrolling::PageDown, keep }
        } else if !control && alt && c == 'v' {
            Action::Scroll { by: Scrolling::PageUp, keep }
        } else {
            match default_move(input) {
                Some(to) => Action::Move { to, keep },
                None => Action::Ignore,
            }
        },
        _ => match default_move(input) {
            Some(to) => Action::Move { to, keep },
            None => Action::Ignore,
        },
    }
}

/// A key of default navigation moves the cursor or scrolls, or is ignored.
pub proof fn lemma_default_navigation_is_motion(input: Input)
    requires
        default_navigation(input),
    ensures
        default_action(input) is Move || default_action(input) is Scroll || default_action(
            input,
        ) is Ignore,
{
}

/// The move that a key of the default key map makes.
fn default_move_exec(input: &Input) -> (out: Option<CursorMove>)
    ensures
        out == default_move(*input),
{
    let control = input.modifiers.control;
    let alt = input.modifiers.alt;
    match input.key_code {
        KeyCode::Home => Some(CursorMove::Head),
        KeyCode::End => Some(CursorMove::End),
        KeyCode::Down => {
            if !control && !alt {
                Some(CursorMove::Down)
            } else if control && alt {
                Some(CursorMove::Bottom)
            } else if control {
                Some(CursorMove::ParagraphForward)
            } else {
                None
            }
        },
        KeyCode::Up => {
            if !control && !alt {
                Some(CursorMove::Up)
            } else if control && alt {
                Some(CursorMove::Top)
            } else if control {
                Some(CursorMove::ParagraphBack)
            } else {
                None
            }
        },
        KeyCode::Right => {
            if !control && !alt {
                Some(CursorMove::Forward)
            } else if control && alt {
                Some(CursorMove::End)
            } else if control {
                Some(CursorMove::WordForward)
            } else {
                None
            }
        },
        KeyCode::Left => {
            if !control && !alt {
                Some(CursorMove::Back)
            } else if control && alt {
                Some(CursorMove::Head)
            } else if control {
                Some(CursorMove::WordBack)
            } else {
                None
            }
        },
        KeyCode::Char(c) => {
            if control && !alt {
                if c == 'n' {
                    Some(CursorMove::Down)
                } else if c == 'p' {
                    Some(CursorMove::Up)
                } else if c == 'f' {
                    Some(CursorMove::Forward)
                } else if c == 'b' {
                    Some(CursorMove::Back)
                } else if c == 'a' {
                    Some(CursorMove::Head)
                } else if c == 'e' {
                    Some(CursorMove::End)
                } else {
                    None
                }
            } else if control && alt {
                if c == 'b' {
                    Some(CursorMove::Head)
                } else if c == 'f' {
                    Some(CursorMove::End)
                } else if c == 'p' {
                    Some(CursorMove::Top)
                } else if c == 'n' {
                    Some(CursorMove::Bottom)
                } else {
                    None
                }
            } else if alt {
                if c == '<' {
                    Some(CursorMove::Top)
                } else if c == '>' {
                    Some(CursorMove::Bottom)
                } else if c == 'f' {
                    Some(CursorMove::WordForward)
                } else if c == 'b' {
                    Some(CursorMove::WordBack)
                } else if c == ']' || c == 'n' {
                    Some(CursorMove::ParagraphForward)
                } else if c == '[' || c == 'p' {
                    Some(CursorMove::ParagraphBack)
                } else {
                    None
                }
            } else {
                None
            }
        },
        _ => None,
    }
}

/// What the key does, as `default_action` says.
pub fn default_action_exec(input: &Input) -> (out: Action)
    ensures
        out == default_action(*input),
{
    let control = input.modifiers.control;
    let alt = input.modifiers.alt;
    let keep = input.modifiers.shift;
    let plain = !control && !alt;
    let chord = control && !alt;
    let moving = match default_move_exec(input) {
        Some(to) => Action::Move { to, keep },
        None => Action::Ignore,
    };
    match input.key_code {
        KeyCode::Enter => Action::Newline,
        KeyCode::Tab => {
            if plain {
                Action::Tab
            } else {
                Action::Ignore
            }
        },
        KeyCode::Backspace => {
            if plain {
                Action::Backspace
            } else {
                Action::Ignore
            }
        },
        KeyCode::Delete => {
            if plain {
                Action::Delete
            } else {
                Action::Ignore
            }
        },
        KeyCode::PageDown => Action::Scroll { by: Scrolling::PageDown, keep },
        KeyCode::PageUp => Action::Scroll { by: Scrolling::PageUp, keep },
        KeyCode::Char(c) => {
            if plain {
                if c == '\n' || c == '\r' {
                    Action::Newline
                } else {
                    Action::Insert(c)
                }
            } else if chord && c == 'm' {
                Action::Newline
            } else if chord && c == 'h' {
                Action::Backspace
            } else if chord && c == 'd' {
                Action::Delete
            } else if chord && c == 'k' {
                Action::DeleteLineEnd
            } else if chord && c == 'u' {
                Action::Undo
            } else if chord && c == 'r' {
                Action::Redo
            } else if chord && c == 'y' {
                Action::Paste
            } else if chord && c == 'x' {
                Action::Cut
            } else if chord && c == 'c' {
                Action::Copy
            } else if chord && c == 'v' {
                Action::Scroll { by: Scrolling::PageDown, keep }
            } else if !control && alt && c == 'v' {
                Action::Scroll { by: Scrolling::PageUp, keep }
            } else {
                moving
            }
        },
        _ => moving,
    }
}

} // verus!
