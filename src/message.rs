use vstd::prelude::*;

use crate::app::{App, BufferState};

verus! {

/// A key as the editor reads it.
#[derive(Clone, Copy, Debug, PartialEq, Eq, Structural)]
pub enum Key {
    Right,
    Left,
    Up,
    Down,
    Backspace,
    Enter,
    Esc,
    Char(char),
    Other,
}

/// One request to the editor, decoded from one input event.
#[derive(Clone, Copy, Debug, PartialEq, Eq, Structural)]
pub enum Message {
    Right,
    Left,
    Up,
    Down,
    Input(char),
    Remove,
    NewLine,
    Quit,
    Click(usize, usize),
    ShowContext,
    SaveFile,
}

/// The request that `key` makes; `control` tells that Control, and no other
/// modifier, was held. Control with c quits, Control with w saves, any other
/// character is typed.
pub open spec fn key_message(key: Key, control: bool) -> Option<Message> {
    match key {
        Key::Right => Some(Message::Right),
        Key::Left => Some(Message::Left),
        Key::Up => Some(Message::Up),
        Key::Down => Some(Message::Down),
        Key::Backspace => Some(Message::Remove),
        Key::Enter => Some(Message::NewLine),
        Key::Esc => Some(Message::ShowContext),
        Key::Char(c) => if control && (c == 'c' || c == 'C') {
            Some(Message::Quit)
        } else if control && (c == 'w' || c == 'W') {
            Some(Message::SaveFile)
        } else {
            Some(Message::Input(c))
        },
        Key::Other => None,
    }
}

/// What a message does to the editor's state. Showing the help and saving
/// leave it as it is.
pub open spec fn applied(s: BufferState, m: Message) -> BufferState {
    match m {
        Message::Right => s.moved_right(),
        Message::Left => s.moved_left(),
        Message::Up => s.moved_up(),
        Message::Down => s.moved_down(),
        Message::Input(c) => s.with_char(c),
        Message::Remove => s.backspaced(),
        Message::NewLine => s.line_split(),
        Message::Quit => s.quitting(),
        Message::Click(x, y) => s.clicked(x as nat, y as nat),
        Message::ShowContext => s,
        Message::SaveFile => s,
    }
}

/// Whether `m` can be applied to `app`: typing needs a row, and room for the
/// cursor to move on; Enter needs the cursor's row to exist.
pub open spec fn can_apply(app: App, m: Message) -> bool {
    match m {
        Message::Input(_) => app.wf() && app.cursor_position_x < usize::MAX && app.cursor_position_y
            < usize::MAX,
        Message::NewLine => app.cursor_position_y < app.text@.len(),
        _ => true,
    }
}

impl Message {
    /// Decodes a key press.
    pub fn from_key(key: Key, control: bool) -> (r: Option<Message>)
        ensures
            r == key_message(key, control),
    {
        match key {
            Key::Right => Some(Message::Right),
            Key::Left => Some(Message::Left),
            Key::Up => Some(Message::Up),
            Key::Down => Some(Message::Down),
            Key::Backspace => Some(Message::Remove),
            Key::Enter => Some(Message::NewLine),
            Key::Esc => Some(Message::ShowContext),
            Key::Char(c) => {
                if control && (c == 'c' || c == 'C') {
                    Some(Message::Quit)
                } else if control && (c == 'w' || c == 'W') {
                    Some(Message::SaveFile)
                } else {
                    Some(Message::Input(c))
                }
            },
            Key::Other => None,
        }
    }

    /// Decodes a mouse event: a press of the left button at screen cell
    /// (`column`, `row`) is a click there; nothing else is a request.
    pub fn from_mouse(left_press: bool, column: u16, row: u16) -> (r: Option<Message>)
        ensures
            r == (if left_press {
                Some(Message::Click(column as usize, row as usize))
            } else {
                None
            }),
    {
        if left_press {
            Some(Message::Click(column as usize, row as usize))
        } else {
            None
        }
    }
}

impl App {
    /// Carries out one request.
    pub fn apply(&mut self, message: Message)
        requires
            can_apply(*old(self), message),
        ensures
            final(self)@ == applied(old(self)@, message),
    {
        match message {
            Message::Right => self.increase_cursor_position_x(),
            Message::Left => self.decrease_cursor_position_x(),
            Message::Up => self.decrease_cursor_position_y(),
            Message::Down => self.increase_cursor_position_y(),
            Message::Input(input) => self.add_character(input),
            Message::Remove => self.remove_character(),
            Message::NewLine => self.new_line(),
            Message::Quit => self.quit(),
            Message::Click(x, y) => self.mouse_click(x, y),
            Message::ShowContext => {},
            Message::SaveFile => {},
        }
    }
}

} // verus!
