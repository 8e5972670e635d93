//! Colors and the escape sequences that select them on a terminal.

use vstd::prelude::*;
use vstd::string::StringExecFns;
use crate::text::{decimal, push_decimal};

verus! {

/// The escape sequence that puts the terminal back to its default colors.
pub const RESET: &'static str = "\x1b[0m";

/// A color that can be selected on a terminal, as text color or as fill.
pub trait AnsiCode {
    /// The escape sequence that makes this the text color.
    spec fn fg_code(&self) -> Seq<char>;

    /// The escape sequence that makes this the fill color.
    spec fn bg_code(&self) -> Seq<char>;

    fn fg(&self) -> (code: String)
        ensures
            code@ == self.fg_code(),
    ;

    fn bg(&self) -> (code: String)
        ensures
            code@ == self.bg_code(),
    ;
}

/// A 24-bit color: red, green and blue.
#[derive(Clone, Copy, Debug, PartialEq, Eq, Structural)]
pub struct Color(pub u8, pub u8, pub u8);

impl Color {
    pub fn new(r: u8, g: u8, b: u8) -> (color: Self)
        ensures
            color == Color(r, g, b),
    {
        Self(r, g, b)
    }

    /// The gray whose three channels are all `lightness`.
    pub fn gray(lightness: u8) -> (color: Self)
        ensures
            color == Color(lightness, lightness, lightness),
    {
        Self(lightness, lightness, lightness)
    }

    pub fn black() -> (color: Self)
        ensures
            color == Color(0, 0, 0),
    {
        Self(0, 0, 0)
    }

    pub fn white() -> (color: Self)
        ensures
            color == Color(255, 255, 255),
    {
        Self(255, 255, 255)
    }

    /// The three channels as they stand in an escape sequence: decimal,
    /// separated by semicolons.
    pub open spec fn channels(&self) -> Seq<char> {
        decimal(self.0 as nat) + ";"@ + decimal(self.1 as nat) + ";"@ + decimal(self.2 as nat)
    }

    fn push_channels(&self, out: &mut String)
        ensures
            final(out)@ == old(out)@ + self.channels(),
    {
        push_decimal(out, self.0 as usize);
        out.append(";");
        push_decimal(out, self.1 as usize);
        out.append(";");
        push_decimal(out, self.2 as usize);
    }
}

impl AnsiCode for Color {
    open spec fn fg_code(&self) -> Seq<char> {
        "\x1b[38;2;"@ + self.channels() + "m"@
    }

    open spec fn bg_code(&self) -> Seq<char> {
        "\x1b[48;2;"@ + self.channels() + "m"@
    }

    fn fg(&self) -> (code: String) {
        let mut code = String::new();
        code.append("\x1b[38;2;");
        self.push_channels(&mut code);
        code.append("m");
        code
    }

    fn bg(&self) -> (code: String) {
        let mut code = String::new();
        code.append("\x1b[48;2;");
        self.push_channels(&mut code);
        code.append("m");
        code
    }
}

/// One of the eight colors that every terminal has.
#[derive(Clone, Copy, Debug, PartialEq, Eq, Structural)]
pub enum AnsiColor {
    Black,
    Red,
    Green,
    Yellow,
    Blue,
    Magenta,
    Cyan,
    White,
}

impl AnsiColor {
    /// The number that selects this color as text color: 30 for black up to
    /// 37 for white. Ten more selects it as fill.
    pub open spec fn spec_number(&self) -> u8 {
        match self {
            AnsiColor::Black => 30,
            AnsiColor::Red => 31,
            AnsiColor::Green => 32,
            AnsiColor::Yellow => 33,
            AnsiColor::Blue => 34,
            AnsiColor::Magenta => 35,
            AnsiColor::Cyan => 36,
            AnsiColor::White => 37,
        }
    }

    #[verifier::when_used_as_spec(spec_number)]
    pub fn number(&self) -> (n: u8)
        ensures
            n == self.spec_number(),
    {
        match self {
            AnsiColor::Black => 30,
            AnsiColor::Red => 31,
            AnsiColor::Green => 32,
            AnsiColor::Yellow => 33,
            AnsiColor::Blue => 34,
            AnsiColor::Magenta => 35,
            AnsiColor::Cyan => 36,
            AnsiColor::White => 37,
        }
    }
}

impl AnsiCode for AnsiColor {
    open spec fn fg_code(&self) -> Seq<char> {
        "\x1b["@ + decimal(self.number() as nat) + "m"@
    }

    open spec fn bg_code(&self) -> Seq<char> {
        "\x1b["@ + decimal((self.number() + 10) as nat) + "m"@
    }

    fn fg(&self) -> (code: String) {
        let mut code = String::new();
        code.append("\x1b[");
        push_decimal(&mut code, self.number() as usize);
        code.append("m");
        code
    }

    fn bg(&self) -> (code: String) {
        let num = self.number();
        let mut code = String::new();
        code.append("\x1b[");
        push_decimal(&mut code, (num + 10) as usize);
        code.append("m");
        code
    }
}

} // verus!
