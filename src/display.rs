//! Console messages: an optional prefix, a colour, and the stream they go to.

use vstd::prelude::*;

verus! {

/// The colour of a message.
#[derive(Debug, Clone, Copy, PartialEq, Eq, Structural)]
pub enum Color {
    Blue,
    Yellow,
    Red,
    Plain,
}

/// The terminal colour code of each colour.
pub open spec fn color_code(c: Color) -> Seq<char> {
    match c {
        Color::Blue => "94"@,
        Color::Yellow => "33"@,
        Color::Red => "91"@,
        Color::Plain => "0"@,
    }
}

/// `text` in colour `c`: wrapped in the colour's escape sequence and a reset,
/// or as it is for no colour.
pub open spec fn painted(c: Color, text: Seq<char>) -> Seq<char> {
    if c == Color::Plain {
        text
    } else {
        "\x1b["@ + color_code(c) + "m"@ + text + "\x1b[0m"@
    }
}

/// The prefix of every message, in blue.
pub open spec fn prefix_text() -> Seq<char> {
    "\x1b["@ + color_code(Color::Blue) + "m[revw]\x1b[0m"@
}

impl Color {
    /// The terminal colour code.
    pub fn code(&self) -> (r: &'static str)
        ensures
            r@ == color_code(*self),
    {
        match self {
            Color::Blue => "94",
            Color::Yellow => "33",
            Color::Red => "91",
            Color::Plain => "0",
        }
    }
}

/// An output stream.
#[derive(Debug, Clone, Copy, PartialEq, Eq, Structural)]
pub enum Fd {
    Stdout,
    Stderr,
}

/// A finished message: the prefix, which goes to standard output, and the
/// body, which goes to `stream`.
#[derive(Debug)]
pub struct LogLine {
    pub prefix: String,
    pub stream: Fd,
    pub body: String,
}

/// A message being put together; `call` finishes it and starts the next.
#[derive(Debug)]
pub struct Logger {
    pub colors_enabled: bool,
    pub show_prefix: bool,
    pub color: Color,
    pub stream: Fd,
    pub text: String,
}

impl Logger {
    /// `self` holds no message: prefix shown, no colour, no text, standard output.
    pub open spec fn is_reset(self) -> bool {
        &&& self.show_prefix
        &&& self.color == Color::Plain
        &&& self.text@.len() == 0
        &&& self.stream == Fd::Stdout
    }

    /// A logger with colours enabled and no message.
    pub fn new() -> (r: Logger)
        ensures
            r.colors_enabled,
            r.is_reset(),
    {
        Logger {
            colors_enabled: true,
            show_prefix: true,
            color: Color::Plain,
            text: String::new(),
            stream: Fd::Stdout,
        }
    }

    /// Sets the message's colour.
    pub fn with_color(&mut self, color: Color) -> (r: &mut Self)
        ensures
            *r == (Logger { color, ..*old(self) }),
            *final(self) == *final(r),
    {
        self.color = color;
        self
    }

    /// Sets the message's text.
    pub fn with_text(&mut self, text: String) -> (r: &mut Self)
        ensures
            *r == (Logger { text, ..*old(self) }),
            *final(self) == *final(r),
    {
        self.text = text;
        self
    }

    /// Sets the stream the message goes to.
    pub fn with_stream(&mut self, stream: Fd) -> (r: &mut Self)
        ensures
            *r == (Logger { stream, ..*old(self) }),
            *final(self) == *final(r),
    {
        self.stream = stream;
        self
    }

    /// Leaves the prefix out of the message.
    pub fn without_prefix(&mut self) -> (r: &mut Self)
        ensures
            *r == (Logger { show_prefix: false, ..*old(self) }),
            *final(self) == *final(r),
    {
        self.show_prefix = false;
        self
    }

    /// Finishes the message: returns what to write and where (a space, then the
    /// text in its colour, or uncoloured when colours are disabled), and resets
    /// the logger for the next one.
    pub fn call(&mut self) -> (r: LogLine)
        ensures
            r.prefix@ == (if old(self).show_prefix { prefix_text() } else { Seq::empty() }),
            r.stream == old(self).stream,
            r.body@ == " "@ + painted(
                if old(self).colors_enabled { old(self).color } else { Color::Plain },
                old(self).text@,
            ),
            final(self).is_reset(),
            final(self).colors_enabled == old(self).colors_enabled,
    {
        let formatted = if self.colors_enabled {
            self.format_text(&self.color, &self.text)
        } else {
            self.format_text(&Color::Plain, &self.text)
        };
        let prefix = if self.show_prefix {
            self.prefix()
        } else {
            String::new()
        };
        let line = LogLine { prefix, stream: self.stream, body: String::from_str(" ").concat(formatted.as_str()) };
        self.reset();
        line
    }

    /// Clears the message.
    fn reset(&mut self)
        ensures
            final(self).is_reset(),
            final(self).colors_enabled == old(self).colors_enabled,
    {
        self.show_prefix = true;
        self.color = Color::Plain;
        self.text = String::new();
        self.stream = Fd::Stdout;
    }

    /// `text` in `color`.
    fn format_text(&self, color: &Color, text: &String) -> (r: String)
        ensures
            r@ == painted(*color, text@),
    {
        match color {
            Color::Blue | Color::Yellow | Color::Red => String::from_str("\x1b[").concat(color.code()).concat(
                "m",
            ).concat(text.as_str()).concat("\x1b[0m"),
            Color::Plain => text.clone(),
        }
    }

    /// The prefix of every message.
    fn prefix(&self) -> (r: String)
        ensures
            r@ == prefix_text(),
    {
        String::from_str("\x1b[").concat(Color::Blue.code()).concat("m[revw]\x1b[0m")
    }
}

} // verus!
