//! The line editor: turns key presses into input events, holding the line
//! that is being typed.
use vstd::prelude::*;
use crate::text::{push_char, trim, trim_whitespace};

verus! {

/// A completed user action.
#[derive(Clone, Debug)]
pub enum InputEvent {
    /// A submitted line, without leading and trailing whitespace.
    Text(String),
    ArrowUp,
    ArrowDown,
    /// An interrupt (Ctrl-C) or the end of the input stream.
    Interrupt,
}

/// A key press, as read from the terminal.
#[derive(Clone, Copy, Debug, PartialEq, Eq, Structural)]
pub enum Key {
    Char(char),
    Backspace,
    Up,
    Down,
    Ctrl(char),
    Other,
}

pub struct LineEditor {
    input_buffer: String,
}

impl View for LineEditor {
    type V = Seq<char>;

    /// The line being typed.
    closed spec fn view(&self) -> Seq<char> {
        self.input_buffer@
    }
}

/// `s` with every line feed preceded by a carriage return, as a terminal in
/// raw mode needs.
pub open spec fn raw_mode_text(s: Seq<char>) -> Seq<char>
    decreases s.len(),
{
    if s.len() == 0 {
        Seq::empty()
    } else if s.last() == '\n' {
        raw_mode_text(s.drop_last()) + seq!['\r', '\n']
    } else {
        raw_mode_text(s.drop_last()).push(s.last())
    }
}

/// Prepares output text for a terminal in raw mode.
pub fn to_raw_mode_text(s: &str) -> (r: String)
    ensures
        r@ == raw_mode_text(s@),
{
    let n = s.unicode_len();
    let mut r = String::new();
    let mut i: usize = 0;
    while i < n
        invariant
            n == s@.len(),
            i <= n,
            r@ == raw_mode_text(s@.subrange(0, i as int)),
        decreases n - i,
    {
        let c = s.get_char(i);
        if c == '\n' {
            push_char(&mut r, '\r');
        }
        push_char(&mut r, c);
        assert(s@.subrange(0, i + 1).drop_last() =~= s@.subrange(0, i as int));
        assert(r@ =~= raw_mode_text(s@.subrange(0, i + 1)));
        i = i + 1;
    }
    assert(s@.subrange(0, n as int) =~= s@);
    r
}

impl LineEditor {
    pub fn new() -> (r: LineEditor)
        ensures
            r@ == Seq::<char>::empty(),
    {
        LineEditor { input_buffer: String::new() }
    }

    pub fn input_buffer(&self) -> (r: &String)
        ensures
            r@ == self@,
    {
        &self.input_buffer
    }

    /// Replaces the line being typed.
    pub fn set_input_buffer(&mut self, s: String)
        ensures
            final(self)@ == s@,
    {
        self.input_buffer = s;
    }

    /// Handles one key press; `None` stands for the end of the input stream.
    /// Enter submits the trimmed line and clears it; a character is typed;
    /// Backspace removes the last character; the arrows and Ctrl-C are
    /// reported at once; other keys are ignored.
    pub fn handle_key(&mut self, key: Option<Key>) -> (r: Option<InputEvent>)
        ensures
            match key {
                None => r matches Some(InputEvent::Interrupt) && final(self)@ == old(self)@,
                Some(Key::Char(c)) => if c == '\n' {
                    &&& r matches Some(InputEvent::Text(t)) && t@ == trim(old(self)@)
                    &&& final(self)@ == Seq::<char>::empty()
                } else {
                    r is None && final(self)@ == old(self)@.push(c)
                },
                Some(Key::Backspace) => r is None && final(self)@ == if old(self)@.len() == 0 {
                    old(self)@
                } else {
                    old(self)@.drop_last()
                },
                Some(Key::Up) => r matches Some(InputEvent::ArrowUp) && final(self)@ == old(self)@,
                Some(Key::Down) => r matches Some(InputEvent::ArrowDown) && final(self)@ == old(
                    self,
                )@,
                Some(Key::Ctrl(c)) => final(self)@ == old(self)@ && if c == 'c' {
                    r matches Some(InputEvent::Interrupt)
                } else {
                    r is None
                },
                Some(Key::Other) => r is None && final(self)@ == old(self)@,
            },
    {
        match key {
            None => Some(InputEvent::Interrupt),
            Some(Key::Char(c)) => {
                if c == '\n' {
                    let text = trim_whitespace(self.input_buffer.as_str());
                    self.input_buffer = String::new();
                    Some(InputEvent::Text(text))
                } else {
                    push_char(&mut self.input_buffer, c);
                    None
                }
            },
            Some(Key::Backspace) => {
                let n = self.input_buffer.as_str().unicode_len();
                if n > 0 {
                    let shorter = String::from_str(self.input_buffer.as_str().substring_char(0, n - 1));
                    self.input_buffer = shorter;
                }
                None
            },
            Some(Key::Up) => Some(InputEvent::ArrowUp),
            Some(Key::Down) => Some(InputEvent::ArrowDown),
            Some(Key::Ctrl(c)) => {
                if c == 'c' {
                    Some(InputEvent::Interrupt)
                } else {
                    None
                }
            },
            Some(Key::Other) => None,
        }
    }
}

} // verus!
