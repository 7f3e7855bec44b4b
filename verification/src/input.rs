//! Key dispatch and input-line editing.
//!
//! The interactive loop reads one key at a time; what a key means depends
//! on the navigation mode and on whether the help screen is up.
//! [`key_action`] is that decision table, and [`InputLine`] is the message
//! being composed: its characters plus a cursor position.

use vstd::prelude::*;

verus! {

/// Which pane the keyboard drives.
#[derive(Clone, Copy, PartialEq, Eq, Structural)]
pub enum Modes {
    GroupNav,
    DirectNav,
    MessageNav,
    Inputting,
}

/// Which screen is displayed.
#[derive(Clone, Copy, PartialEq, Eq, Structural)]
pub enum DispMode {
    Main,
    Help,
    Startup,
}

/// A key press, as the terminal reports it.
#[derive(Clone, Copy, PartialEq, Eq, Structural)]
pub enum Key {
    Char(char),
    Up,
    Down,
    Left,
    Right,
    Enter,
    Esc,
    Backspace,
    Other,
}

/// What one key press asks the program to do.
#[derive(Clone, Copy, PartialEq, Eq, Structural)]
pub enum InputAction {
    /// Nothing.
    NoOp,
    /// Leave the help screen.
    CloseHelp,
    /// Show the help screen.
    ShowHelp,
    /// End the program.
    Quit,
    /// Select the next or previous group.
    NextGroup,
    PrevGroup,
    /// Open the selected group's messages.
    OpenGroup,
    /// Switch to direct-message navigation.
    ToDirectNav,
    /// Select the next or previous conversation.
    NextDirect,
    PrevDirect,
    /// Open the selected conversation's messages.
    OpenDirect,
    /// Switch to group navigation.
    ToGroupNav,
    /// Fetch the open message list again.
    Refresh,
    /// Begin composing a message.
    StartInput,
    /// Leave the message list for the navigation pane it came from.
    BackToNav,
    /// Select the next or previous message.
    NextMessage,
    PrevMessage,
    /// Like or unlike the selected message.
    LikeSelected,
    /// Put this character at the cursor.
    InsertChar(char),
    /// Delete the character before the cursor.
    DeleteBack,
    /// Move the cursor.
    CursorLeft,
    CursorRight,
    /// Send the composed message.
    Submit,
    /// Stop composing.
    StopInput,
}

/// The decision table of [`key_action`].
pub open spec fn spec_key_action(mode: Modes, disp: DispMode, key: Key) -> InputAction {
    if disp == DispMode::Help && key == Key::Esc {
        InputAction::CloseHelp
    } else {
        match mode {
            Modes::GroupNav => match key {
                Key::Char(c) => {
                    if c == 'j' {
                        InputAction::NextGroup
                    } else if c == 'k' {
                        InputAction::PrevGroup
                    } else if c == 'l' {
                        InputAction::OpenGroup
                    } else if c == 'q' {
                        InputAction::Quit
                    } else if c == 'd' {
                        InputAction::ToDirectNav
                    } else if c == '?' {
                        InputAction::ShowHelp
                    } else {
                        InputAction::NoOp
                    }
                },
                Key::Down => InputAction::NextGroup,
                Key::Up => InputAction::PrevGroup,
                Key::Enter => InputAction::OpenGroup,
                Key::Right => InputAction::OpenGroup,
                _ => InputAction::NoOp,
            },
            Modes::DirectNav => match key {
                Key::Char(c) => {
                    if c == 'j' {
                        InputAction::NextDirect
                    } else if c == 'k' {
                        InputAction::PrevDirect
                    } else if c == 'l' {
                        InputAction::OpenDirect
                    } else if c == 'q' {
                        InputAction::Quit
                    } else if c == 'g' {
                        InputAction::ToGroupNav
                    } else if c == '?' {
                        InputAction::ShowHelp
                    } else {
                        InputAction::NoOp
                    }
                },
                Key::Down => InputAction::NextDirect,
                Key::Up => InputAction::PrevDirect,
                Key::Enter => InputAction::OpenDirect,
                Key::Right => InputAction::OpenDirect,
                _ => InputAction::NoOp,
            },
            Modes::MessageNav => match key {
                Key::Char(c) => {
                    if c == 'q' {
                        InputAction::Quit
                    } else if c == 'r' {
                        InputAction::Refresh
                    } else if c == 'i' {
                        InputAction::StartInput
                    } else if c == 'h' {
                        InputAction::BackToNav
                    } else if c == 'j' {
                        InputAction::NextMessage
                    } else if c == 'k' {
                        InputAction::PrevMessage
                    } else if c == '?' {
                        InputAction::ShowHelp
                    } else {
                        InputAction::NoOp
                    }
                },
                Key::Left => InputAction::BackToNav,
                Key::Esc => InputAction::BackToNav,
                Key::Down => InputAction::NextMessage,
                Key::Up => InputAction::PrevMessage,
                Key::Enter => InputAction::LikeSelected,
                _ => InputAction::NoOp,
            },
            Modes::Inputting => match key {
                Key::Char(c) => InputAction::InsertChar(c),
                Key::Backspace => InputAction::DeleteBack,
                Key::Left => InputAction::CursorLeft,
                Key::Right => InputAction::CursorRight,
                Key::Enter => InputAction::Submit,
                Key::Esc => InputAction::StopInput,
                _ => InputAction::NoOp,
            },
        }
    }
}

/// Maps a key press to the action it asks for, given the current mode and
/// screen: exactly [`spec_key_action`].
pub fn key_action(mode: Modes, disp: DispMode, key: Key) -> (r: InputAction)
    ensures
        r == spec_key_action(mode, disp, key),
{
    if disp == DispMode::Help && key == Key::Esc {
        return InputAction::CloseHelp;
    }
    match mode {
        Modes::GroupNav => match key {
            Key::Char(c) => {
                if c == 'j' {
                    InputAction::NextGroup
                } else if c == 'k' {
                    InputAction::PrevGroup
                } else if c == 'l' {
                    InputAction::OpenGroup
                } else if c == 'q' {
                    InputAction::Quit
                } else if c == 'd' {
                    InputAction::ToDirectNav
                } else if c == '?' {
                    InputAction::ShowHelp
                } else {
                    InputAction::NoOp
                }
            },
            Key::Down => InputAction::NextGroup,
            Key::Up => InputAction::PrevGroup,
            Key::Enter => InputAction::OpenGroup,
            Key::Right => InputAction::OpenGroup,
            _ => InputAction::NoOp,
        },
        Modes::DirectNav => match key {
            Key::Char(c) => {
                if c == 'j' {
                    InputAction::NextDirect
                } else if c == 'k' {
                    InputAction::PrevDirect
                } else if c == 'l' {
                    InputAction::OpenDirect
                } else if c == 'q' {
                    InputAction::Quit
                } else if c == 'g' {
                    InputAction::ToGroupNav
                } else if c == '?' {
                    InputAction::ShowHelp
                } else {
                    InputAction::NoOp
                }
            },
            Key::Down => InputAction::NextDirect,
            Key::Up => InputAction::PrevDirect,
            Key::Enter => InputAction::OpenDirect,
            Key::Right => InputAction::OpenDirect,
            _ => InputAction::NoOp,
        },
        Modes::MessageNav => match key {
            Key::Char(c) => {
                if c == 'q' {
                    InputAction::Quit
                } else if c == 'r' {
                    InputAction::Refresh
                } else if c == 'i' {
                    InputAction::StartInput
                } else if c == 'h' {
                    InputAction::BackToNav
                } else if c == 'j' {
                    InputAction::NextMessage
                } else if c == 'k' {
                    InputAction::PrevMessage
                } else if c == '?' {
                    InputAction::ShowHelp
                } else {
                    InputAction::NoOp
                }
            },
            Key::Left => InputAction::BackToNav,
            Key::Esc => InputAction::BackToNav,
            Key::Down => InputAction::NextMessage,
            Key::Up => InputAction::PrevMessage,
            Key::Enter => InputAction::LikeSelected,
            _ => InputAction::NoOp,
        },
        Modes::Inputting => match key {
            Key::Char(c) => InputAction::InsertChar(c),
            Key::Backspace => InputAction::DeleteBack,
            Key::Left => InputAction::CursorLeft,
            Key::Right => InputAction::CursorRight,
            Key::Enter => InputAction::Submit,
            Key::Esc => InputAction::StopInput,
            _ => InputAction::NoOp,
        },
    }
}

/// The message being composed: its characters and the cursor position,
/// which always lies between zero and the length.
pub struct InputLine {
    pub text: Vec<char>,
    pub cursor: usize,
}

impl InputLine {
    /// The cursor stays within the text.
    pub open spec fn inv(&self) -> bool {
        self.cursor <= self.text.len()
    }

    /// An empty line with the cursor at its start.
    pub fn new() -> (r: InputLine)
        ensures
            r.inv(),
            r.text@ == Seq::<char>::empty(),
            r.cursor == 0,
    {
        InputLine { text: Vec::new(), cursor: 0 }
    }

    /// Puts `c` at the cursor and moves the cursor past it.
    pub fn insert_char(&mut self, c: char)
        requires
            old(self).inv(),
            old(self).text.len() < usize::MAX,
        ensures
            final(self).inv(),
            final(self).text@ == old(self).text@.insert(old(self).cursor as int, c),
            final(self).cursor == old(self).cursor + 1,
    {
        self.text.insert(self.cursor, c);
        self.cursor = self.cursor + 1;
    }

    /// Deletes the character before the cursor, if there is one.
    pub fn backspace(&mut self)
        requires
            old(self).inv(),
        ensures
            final(self).inv(),
            old(self).cursor > 0 ==> final(self).text@ == old(self).text@.remove(
                old(self).cursor - 1,
            ) && final(self).cursor == old(self).cursor - 1,
            old(self).cursor == 0 ==> *final(self) == *old(self),
    {
        if self.cursor > 0 {
            self.text.remove(self.cursor - 1);
            self.cursor = self.cursor - 1;
        }
    }

    /// Moves the cursor one place left, if it is not at the start.
    pub fn cursor_left(&mut self)
        requires
            old(self).inv(),
        ensures
            final(self).inv(),
            final(self).text == old(self).text,
            final(self).cursor == if old(self).cursor > 0 {
                (old(self).cursor - 1) as usize
            } else {
                0usize
            },
    {
        if self.cursor > 0 {
            self.cursor = self.cursor - 1;
        }
    }

    /// Moves the cursor one place right, if it is not at the end.
    pub fn cursor_right(&mut self)
        requires
            old(self).inv(),
        ensures
            final(self).inv(),
            final(self).text == old(self).text,
            final(self).cursor == if old(self).cursor < old(self).text.len() {
                (old(self).cursor + 1) as usize
            } else {
                old(self).cursor
            },
    {
        if self.cursor < self.text.len() {
            self.cursor = self.cursor + 1;
        }
    }

    /// Takes the composed text and resets the line to empty.
    pub fn take(&mut self) -> (r: Vec<char>)
        requires
            old(self).inv(),
        ensures
            final(self).inv(),
            r == old(self).text,
            final(self).text@ == Seq::<char>::empty(),
            final(self).cursor == 0,
    {
        let mut taken: Vec<char> = Vec::new();
        core::mem::swap(&mut taken, &mut self.text);
        self.cursor = 0;
        taken
    }
}

} // verus!
