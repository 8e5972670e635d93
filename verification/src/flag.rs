//! The flags: their stripes and what lies over them.

use vstd::prelude::*;
use vstd::string::StringExecFns;
use crate::banner::{banner, grid, render};
use crate::color::{AnsiCode, AnsiColor, Color};
use crate::overlay::charachter::OverlayCharachter;
use crate::overlay::triangle::{Slope, Triangle};
use crate::overlay::{Decoration, Size};
use crate::text::{join, joined, lowercase, lowercase_of, texts};

verus! {

/// A color for terminals of either kind: the color itself, for a terminal
/// that shows 24-bit colors, and the nearest of the eight colors that every
/// terminal has.
#[derive(Debug, Clone, Copy, PartialEq, Eq, Structural)]
pub struct FallbackedColor {
    pub true_color: Color,
    pub ansi_color: AnsiColor,
}

impl FallbackedColor {
    pub fn new(ideal: Color, fallback: AnsiColor) -> (color: Self)
        ensures
            color == (FallbackedColor { true_color: ideal, ansi_color: fallback }),
    {
        Self { true_color: ideal, ansi_color: fallback }
    }

    pub open spec fn spec_rgb(r: u8, g: u8, b: u8, fallback: AnsiColor) -> Self {
        FallbackedColor { true_color: Color(r, g, b), ansi_color: fallback }
    }

    /// The color with the given channels, and what stands for it among the
    /// eight colors.
    #[verifier::when_used_as_spec(spec_rgb)]
    pub fn rgb(r: u8, g: u8, b: u8, fallback: AnsiColor) -> (color: Self)
        ensures
            color == Self::spec_rgb(r, g, b, fallback),
    {
        Self::new(Color::new(r, g, b), fallback)
    }

    /// The escape sequence that makes this the text color, on a terminal
    /// that shows 24-bit colors (`true_color`) or on one that does not.
    pub open spec fn fg_code(&self, true_color: bool) -> Seq<char> {
        if true_color {
            self.true_color.fg_code()
        } else {
            self.ansi_color.fg_code()
        }
    }

    /// The escape sequence that makes this the fill color, on a terminal
    /// that shows 24-bit colors (`true_color`) or on one that does not.
    pub open spec fn bg_code(&self, true_color: bool) -> Seq<char> {
        if true_color {
            self.true_color.bg_code()
        } else {
            self.ansi_color.bg_code()
        }
    }

    pub fn fg(&self, true_color: bool) -> (code: String)
        ensures
            code@ == self.fg_code(true_color),
    {
        if true_color {
            self.true_color.fg()
        } else {
            self.ansi_color.fg()
        }
    }

    pub fn bg(&self, true_color: bool) -> (code: String)
        ensures
            code@ == self.bg_code(true_color),
    {
        if true_color {
            self.true_color.bg()
        } else {
            self.ansi_color.bg()
        }
    }
}

/// The flags that can be shown.
#[derive(Debug, Clone, Copy, PartialEq, Eq, Structural)]
pub enum Flag {
    /// Six rainbow stripes, and at the hoist a yellow wedge in front of five chevrons.
    Lgbtqia,
    /// Six rainbow stripes.
    Lgbt,
    Asexual,
    Aromantic,
    Aroace,
    Bisexual,
    Polysexual,
    Pansexual,
    Lesbian,
    Gay,
    /// Five stripes behind a black wedge at the hoist.
    Demisexual,
    /// Five stripes behind a black wedge at the hoist.
    Demiromantic,
    Trans,
    Nonbinary,
    /// Three stripes with a yellow pi in the middle.
    Polyamory,
    Demigirl,
    Demiboy,
}

/// The yellow of the wedge on the `Lgbtqia` flag.
pub open spec fn wedge_yellow() -> Color {
    Color(253, 216, 23)
}

/// The colors of the five chevrons on the `Lgbtqia` flag, from the hoist.
pub open spec fn chevron_colors() -> Seq<Color> {
    seq![
        Color(255, 255, 255),
        Color(244, 174, 200),
        Color(123, 204, 229),
        Color(148, 85, 22),
        Color(0, 0, 0),
    ]
}

/// The character in the middle of the `Polyamory` flag: a small pi.
pub const PI: char = '\u{3c0}';

impl Flag {
    /// Every flag, in the order in which they are listed.
    pub open spec fn spec_variants() -> Seq<Flag> {
        seq![
            Flag::Lgbtqia,
            Flag::Lgbt,
            Flag::Asexual,
            Flag::Aromantic,
            Flag::Aroace,
            Flag::Bisexual,
            Flag::Polysexual,
            Flag::Pansexual,
            Flag::Lesbian,
            Flag::Gay,
            Flag::Demisexual,
            Flag::Demiromantic,
            Flag::Trans,
            Flag::Nonbinary,
            Flag::Polyamory,
            Flag::Demigirl,
            Flag::Demiboy,
        ]
    }

    pub fn variants() -> (flags: Vec<Flag>)
        ensures
            flags@ == Self::spec_variants(),
    {
        vec![
            Flag::Lgbtqia,
            Flag::Lgbt,
            Flag::Asexual,
            Flag::Aromantic,
            Flag::Aroace,
            Flag::Bisexual,
            Flag::Polysexual,
            Flag::Pansexual,
            Flag::Lesbian,
            Flag::Gay,
            Flag::Demisexual,
            Flag::Demiromantic,
            Flag::Trans,
            Flag::Nonbinary,
            Flag::Polyamory,
            Flag::Demigirl,
            Flag::Demiboy,
        ]
    }

    /// The name of the flag.
    pub open spec fn spec_name(&self) -> Seq<char> {
        match self {
            Flag::Lgbtqia => "Lgbtqia"@,
            Flag::Lgbt => "Lgbt"@,
            Flag::Asexual => "Asexual"@,
            Flag::Aromantic => "Aromantic"@,
            Flag::Aroace => "Aroace"@,
            Flag::Bisexual => "Bisexual"@,
            Flag::Polysexual => "Polysexual"@,
            Flag::Pansexual => "Pansexual"@,
            Flag::Lesbian => "Lesbian"@,
            Flag::Gay => "Gay"@,
            Flag::Demisexual => "Demisexual"@,
            Flag::Demiromantic => "Demiromantic"@,
            Flag::Trans => "Trans"@,
            Flag::Nonbinary => "Nonbinary"@,
            Flag::Polyamory => "Polyamory"@,
            Flag::Demigirl => "Demigirl"@,
            Flag::Demiboy => "Demiboy"@,
        }
    }

    pub fn name(&self) -> (name: &'static str)
        ensures
            name@ == self.spec_name(),
    {
        match self {
            Flag::Lgbtqia => "Lgbtqia",
            Flag::Lgbt => "Lgbt",
            Flag::Asexual => "Asexual",
            Flag::Aromantic => "Aromantic",
            Flag::Aroace => "Aroace",
            Flag::Bisexual => "Bisexual",
            Flag::Polysexual => "Polysexual",
            Flag::Pansexual => "Pansexual",
            Flag::Lesbian => "Lesbian",
            Flag::Gay => "Gay",
            Flag::Demisexual => "Demisexual",
            Flag::Demiromantic => "Demiromantic",
            Flag::Trans => "Trans",
            Flag::Nonbinary => "Nonbinary",
            Flag::Polyamory => "Polyamory",
            Flag::Demigirl => "Demigirl",
            Flag::Demiboy => "Demiboy",
        }
    }

    /// The other names by which the flag goes.
    pub open spec fn spec_aliases(&self) -> Seq<Seq<char>> {
        match self {
            Flag::Lgbtqia => seq!["Lgbtqia+"@],
            Flag::Asexual => seq!["Ace"@],
            Flag::Aromantic => seq!["Aro"@],
            Flag::Bisexual => seq!["Bi"@],
            Flag::Polysexual => seq!["Poly"@],
            Flag::Pansexual => seq!["Pan"@],
            _ => seq![],
        }
    }

    pub fn aliases(&self) -> (aliases: Vec<&'static str>)
        ensures
            texts(aliases@) == self.spec_aliases(),
    {
        match self {
            Flag::Lgbtqia => vec!["Lgbtqia+"],
            Flag::Asexual => vec!["Ace"],
            Flag::Aromantic => vec!["Aro"],
            Flag::Bisexual => vec!["Bi"],
            Flag::Polysexual => vec!["Poly"],
            Flag::Pansexual => vec!["Pan"],
            _ => Vec::new(),
        }
    }

    /// The line by which the flag is listed: its name, and where `aliases`
    /// are asked for and it has any, its other names after it, in brackets
    /// and with commas between them.
    pub open spec fn spec_listing(&self, aliases: bool) -> Seq<char> {
        if aliases && self.spec_aliases().len() > 0 {
            self.spec_name() + " ("@ + joined(self.spec_aliases(), ", "@) + ")"@
        } else {
            self.spec_name()
        }
    }

    pub fn listing(&self, aliases: bool) -> (line: String)
        ensures
            line@ == self.spec_listing(aliases),
    {
        let mut line = String::from_str(self.name());
        let alts = self.aliases();
        if aliases && alts.len() > 0 {
            let alts = join(&alts, ", ");
            line.append(" (");
            line.append(alts.as_str());
            line.append(")");
        }
        line
    }

    /// The name by which the flag is asked for on the command line: its
    /// name in lower case.
    pub open spec fn spec_value_name(&self) -> Seq<char> {
        lowercase_of(self.spec_name())
    }

    pub fn value_name(&self) -> (name: String)
        ensures
            name@ == self.spec_value_name(),
    {
        lowercase(self.name())
    }

    /// The other names by which the flag can be asked for on the command
    /// line: its name as it is written, and each of its other names, as it
    /// is written and in lower case.
    pub open spec fn spec_value_aliases(&self) -> Seq<Seq<char>> {
        seq![self.spec_name()] + Seq::new(
            2 * self.spec_aliases().len(),
            |i: int|
                if i % 2 == 0 {
                    self.spec_aliases()[i / 2]
                } else {
                    lowercase_of(self.spec_aliases()[i / 2])
                },
        )
    }

    pub fn value_aliases(&self) -> (names: Vec<String>)
        ensures
            names.deep_view() == self.spec_value_aliases(),
    {
        let alts = self.aliases();
        let mut names: Vec<String> = Vec::new();
        names.push(String::from_str(self.name()));
        let mut i: usize = 0;
        while i < alts.len()
            invariant
                i <= alts.len(),
                texts(alts@) == self.spec_aliases(),
                names.len() == 1 + 2 * i,
                forall|k: int|
                    0 <= k < names.len() ==> (#[trigger] names[k])@ == self.spec_value_aliases()[k],
            decreases alts.len() - i,
        {
            names.push(String::from_str(alts[i]));
            names.push(lowercase(alts[i]));
            i += 1;
        }
        names
    }

    /// The colors of the flag's stripes, from the top.
    pub open spec fn palette(&self) -> Seq<FallbackedColor> {
        match self {
            Flag::Lgbtqia => seq![
                FallbackedColor::rgb(228, 3, 3, AnsiColor::Red),
                FallbackedColor::rgb(255, 140, 0, AnsiColor::Red),
                FallbackedColor::rgb(255, 237, 0, AnsiColor::Yellow),
                FallbackedColor::rgb(0, 128, 38, AnsiColor::Green),
                FallbackedColor::rgb(0, 77, 255, AnsiColor::Blue),
                FallbackedColor::rgb(117, 7, 135, AnsiColor::Magenta),
            ],
            Flag::Lgbt => seq![
                FallbackedColor::rgb(228, 3, 3, AnsiColor::Red),
                FallbackedColor::rgb(255, 140, 0, AnsiColor::Red),
                FallbackedColor::rgb(255, 237, 0, AnsiColor::Yellow),
                FallbackedColor::rgb(0, 128, 38, AnsiColor::Green),
                FallbackedColor::rgb(0, 77, 255, AnsiColor::Blue),
                FallbackedColor::rgb(117, 7, 135, AnsiColor::Magenta),
            ],
            Flag::Asexual => seq![
                FallbackedColor::rgb(0, 0, 0, AnsiColor::Black),
                FallbackedColor::rgb(163, 163, 163, AnsiColor::Black),
                FallbackedColor::rgb(255, 255, 255, AnsiColor::White),
                FallbackedColor::rgb(128, 0, 128, AnsiColor::Magenta),
            ],
            Flag::Aromantic => seq![
                FallbackedColor::rgb(62, 167, 68, AnsiColor::Green),
                FallbackedColor::rgb(169, 212, 120, AnsiColor::Green),
                FallbackedColor::rgb(255, 255, 255, AnsiColor::White),
                FallbackedColor::rgb(170, 170, 170, AnsiColor::Black),
                FallbackedColor::rgb(0, 0, 0, AnsiColor::Black),
            ],
            Flag::Aroace => seq![
                FallbackedColor::rgb(227, 140, 1, AnsiColor::Red),
                FallbackedColor::rgb(236, 205, 0, AnsiColor::Yellow),
                FallbackedColor::rgb(255, 255, 255, AnsiColor::White),
                FallbackedColor::rgb(98, 175, 222, AnsiColor::Cyan),
                FallbackedColor::rgb(32, 56, 87, AnsiColor::Blue),
            ],
            Flag::Bisexual => seq![
                FallbackedColor::rgb(214, 2, 122, AnsiColor::Magenta),
                FallbackedColor::rgb(214, 2, 122, AnsiColor::Magenta),
                FallbackedColor::rgb(155, 79, 150, AnsiColor::Magenta),
                FallbackedColor::rgb(0, 56, 168, AnsiColor::Blue),
                FallbackedColor::rgb(0, 56, 168, AnsiColor::Blue),
            ],
            Flag::Polysexual => seq![
                FallbackedColor::rgb(246, 28, 185, AnsiColor::Magenta),
                FallbackedColor::rgb(7, 218, 105, AnsiColor::Green),
                FallbackedColor::rgb(28, 146, 246, AnsiColor::Cyan),
            ],
            Flag::Pansexual => seq![
                FallbackedColor::rgb(255, 33, 140, AnsiColor::Magenta),
                FallbackedColor::rgb(255, 216, 0, AnsiColor::Yellow),
                FallbackedColor::rgb(33, 177, 255, AnsiColor::Cyan),
            ],
            Flag::Lesbian => seq![
                FallbackedColor::rgb(214, 44, 0, AnsiColor::Red),
                FallbackedColor::rgb(255, 153, 86, AnsiColor::Red),
                FallbackedColor::rgb(255, 255, 255, AnsiColor::White),
                FallbackedColor::rgb(211, 98, 164, AnsiColor::Magenta),
                FallbackedColor::rgb(164, 1, 98, AnsiColor::Magenta),
            ],
            Flag::Gay => seq![
                FallbackedColor::rgb(7, 141, 112, AnsiColor::Green),
                FallbackedColor::rgb(152, 232, 193, AnsiColor::Green),
                FallbackedColor::rgb(255, 255, 255, AnsiColor::White),
                FallbackedColor::rgb(123, 173, 226, AnsiColor::Cyan),
                FallbackedColor::rgb(61, 26, 120, AnsiColor::Blue),
            ],
            Flag::Demisexual => seq![
                FallbackedColor::rgb(255, 255, 255, AnsiColor::White),
                FallbackedColor::rgb(255, 255, 255, AnsiColor::White),
                FallbackedColor::rgb(128, 0, 128, AnsiColor::Magenta),
                FallbackedColor::rgb(210, 210, 210, AnsiColor::Black),
                FallbackedColor::rgb(210, 210, 210, AnsiColor::Black),
            ],
            Flag::Demiromantic => seq![
                FallbackedColor::rgb(255, 255, 255, AnsiColor::White),
                FallbackedColor::rgb(255, 255, 255, AnsiColor::White),
                FallbackedColor::rgb(51, 138, 55, AnsiColor::Green),
                FallbackedColor::rgb(210, 210, 210, AnsiColor::Black),
                FallbackedColor::rgb(210, 210, 210, AnsiColor::Black),
            ],
            Flag::Trans => seq![
                FallbackedColor::rgb(115, 207, 244, AnsiColor::Cyan),
                FallbackedColor::rgb(238, 175, 192, AnsiColor::Magenta),
                FallbackedColor::rgb(255, 255, 255, AnsiColor::White),
                FallbackedColor::rgb(238, 175, 192, AnsiColor::Magenta),
                FallbackedColor::rgb(115, 207, 244, AnsiColor::Cyan),
            ],
            Flag::Nonbinary => seq![
                FallbackedColor::rgb(252, 244, 52, AnsiColor::Yellow),
                FallbackedColor::rgb(255, 255, 255, AnsiColor::White),
                FallbackedColor::rgb(156, 89, 209, AnsiColor::Magenta),
                FallbackedColor::rgb(44, 44, 44, AnsiColor::Black),
            ],
            Flag::Polyamory => seq![
                FallbackedColor::rgb(0, 0, 255, AnsiColor::Blue),
                FallbackedColor::rgb(255, 0, 0, AnsiColor::Red),
                FallbackedColor::rgb(0, 0, 0, AnsiColor::Black),
            ],
            Flag::Demigirl => seq![
                FallbackedColor::rgb(127, 127, 127, AnsiColor::Black),
                FallbackedColor::rgb(196, 196, 196, AnsiColor::White),
                FallbackedColor::rgb(255, 174, 201, AnsiColor::Magenta),
                FallbackedColor::rgb(255, 255, 255, AnsiColor::White),
                FallbackedColor::rgb(255, 174, 201, AnsiColor::Magenta),
                FallbackedColor::rgb(196, 196, 196, AnsiColor::White),
                FallbackedColor::rgb(127, 127, 127, AnsiColor::Black),
            ],
            Flag::Demiboy => seq![
                FallbackedColor::rgb(127, 127, 127, AnsiColor::Black),
                FallbackedColor::rgb(196, 196, 196, AnsiColor::White),
                FallbackedColor::rgb(193, 217, 235, AnsiColor::Cyan),
                FallbackedColor::rgb(255, 255, 255, AnsiColor::White),
                FallbackedColor::rgb(193, 217, 235, AnsiColor::Cyan),
                FallbackedColor::rgb(196, 196, 196, AnsiColor::White),
                FallbackedColor::rgb(127, 127, 127, AnsiColor::Black),
            ],
        }
    }

    pub fn stripes(&self) -> (stripes: Vec<FallbackedColor>)
        ensures
            stripes@ == self.palette(),
            stripes.len() >= 3,
    {
        match self {
            Flag::Lgbtqia => vec![
                FallbackedColor::rgb(228, 3, 3, AnsiColor::Red),
                FallbackedColor::rgb(255, 140, 0, AnsiColor::Red),
                FallbackedColor::rgb(255, 237, 0, AnsiColor::Yellow),
                FallbackedColor::rgb(0, 128, 38, AnsiColor::Green),
                FallbackedColor::rgb(0, 77, 255, AnsiColor::Blue),
                FallbackedColor::rgb(117, 7, 135, AnsiColor::Magenta),
            ],
            Flag::Lgbt => vec![
                FallbackedColor::rgb(228, 3, 3, AnsiColor::Red),
                FallbackedColor::rgb(255, 140, 0, AnsiColor::Red),
                FallbackedColor::rgb(255, 237, 0, AnsiColor::Yellow),
                FallbackedColor::rgb(0, 128, 38, AnsiColor::Green),
                FallbackedColor::rgb(0, 77, 255, AnsiColor::Blue),
                FallbackedColor::rgb(117, 7, 135, AnsiColor::Magenta),
            ],
            Flag::Asexual => vec![
                FallbackedColor::rgb(0, 0, 0, AnsiColor::Black),
                FallbackedColor::rgb(163, 163, 163, AnsiColor::Black),
                FallbackedColor::rgb(255, 255, 255, AnsiColor::White),
                FallbackedColor::rgb(128, 0, 128, AnsiColor::Magenta),
            ],
            Flag::Aromantic => vec![
                FallbackedColor::rgb(62, 167, 68, AnsiColor::Green),
                FallbackedColor::rgb(169, 212, 120, AnsiColor::Green),
                FallbackedColor::rgb(255, 255, 255, AnsiColor::White),
                FallbackedColor::rgb(170, 170, 170, AnsiColor::Black),
                FallbackedColor::rgb(0, 0, 0, AnsiColor::Black),
            ],
            Flag::Aroace => vec![
                FallbackedColor::rgb(227, 140, 1, AnsiColor::Red),
                FallbackedColor::rgb(236, 205, 0, AnsiColor::Yellow),
                FallbackedColor::rgb(255, 255, 255, AnsiColor::White),
                FallbackedColor::rgb(98, 175, 222, AnsiColor::Cyan),
                FallbackedColor::rgb(32, 56, 87, AnsiColor::Blue),
            ],
            Flag::Bisexual => vec![
                FallbackedColor::rgb(214, 2, 122, AnsiColor::Magenta),
                FallbackedColor::rgb(214, 2, 122, AnsiColor::Magenta),
                FallbackedColor::rgb(155, 79, 150, AnsiColor::Magenta),
                FallbackedColor::rgb(0, 56, 168, AnsiColor::Blue),
                FallbackedColor::rgb(0, 56, 168, AnsiColor::Blue),
            ],
            Flag::Polysexual => vec![
                FallbackedColor::rgb(246, 28, 185, AnsiColor::Magenta),
                FallbackedColor::rgb(7, 218, 105, AnsiColor::Green),
                FallbackedColor::rgb(28, 146, 246, AnsiColor::Cyan),
            ],
            Flag::Pansexual => vec![
                FallbackedColor::rgb(255, 33, 140, AnsiColor::Magenta),
                FallbackedColor::rgb(255, 216, 0, AnsiColor::Yellow),
                FallbackedColor::rgb(33, 177, 255, AnsiColor::Cyan),
            ],
            Flag::Lesbian => vec![
                FallbackedColor::rgb(214, 44, 0, AnsiColor::Red),
                FallbackedColor::rgb(255, 153, 86, AnsiColor::Red),
                FallbackedColor::rgb(255, 255, 255, AnsiColor::White),
                FallbackedColor::rgb(211, 98, 164, AnsiColor::Magenta),
                FallbackedColor::rgb(164, 1, 98, AnsiColor::Magenta),
            ],
            Flag::Gay => vec![
                FallbackedColor::rgb(7, 141, 112, AnsiColor::Green),
                FallbackedColor::rgb(152, 232, 193, AnsiColor::Green),
                FallbackedColor::rgb(255, 255, 255, AnsiColor::White),
                FallbackedColor::rgb(123, 173, 226, AnsiColor::Cyan),
                FallbackedColor::rgb(61, 26, 120, AnsiColor::Blue),
            ],
            Flag::Demisexual => vec![
                FallbackedColor::rgb(255, 255, 255, AnsiColor::White),
                FallbackedColor::rgb(255, 255, 255, AnsiColor::White),
                FallbackedColor::rgb(128, 0, 128, AnsiColor::Magenta),
                FallbackedColor::rgb(210, 210, 210, AnsiColor::Black),
                FallbackedColor::rgb(210, 210, 210, AnsiColor::Black),
            ],
            Flag::Demiromantic => vec![
                FallbackedColor::rgb(255, 255, 255, AnsiColor::White),
                FallbackedColor::rgb(255, 255, 255, AnsiColor::White),
                FallbackedColor::rgb(51, 138, 55, AnsiColor::Green),
                FallbackedColor::rgb(210, 210, 210, AnsiColor::Black),
                FallbackedColor::rgb(210, 210, 210, AnsiColor::Black),
            ],
            Flag::Trans => vec![
                FallbackedColor::rgb(115, 207, 244, AnsiColor::Cyan),
                FallbackedColor::rgb(238, 175, 192, AnsiColor::Magenta),
                FallbackedColor::rgb(255, 255, 255, AnsiColor::White),
                FallbackedColor::rgb(238, 175, 192, AnsiColor::Magenta),
                FallbackedColor::rgb(115, 207, 244, AnsiColor::Cyan),
            ],
            Flag::Nonbinary => vec![
                FallbackedColor::rgb(252, 244, 52, AnsiColor::Yellow),
                FallbackedColor::rgb(255, 255, 255, AnsiColor::White),
                FallbackedColor::rgb(156, 89, 209, AnsiColor::Magenta),
                FallbackedColor::rgb(44, 44, 44, AnsiColor::Black),
            ],
            Flag::Polyamory => vec![
                FallbackedColor::rgb(0, 0, 255, AnsiColor::Blue),
                FallbackedColor::rgb(255, 0, 0, AnsiColor::Red),
                FallbackedColor::rgb(0, 0, 0, AnsiColor::Black),
            ],
            Flag::Demigirl => vec![
                FallbackedColor::rgb(127, 127, 127, AnsiColor::Black),
                FallbackedColor::rgb(196, 196, 196, AnsiColor::White),
                FallbackedColor::rgb(255, 174, 201, AnsiColor::Magenta),
                FallbackedColor::rgb(255, 255, 255, AnsiColor::White),
                FallbackedColor::rgb(255, 174, 201, AnsiColor::Magenta),
                FallbackedColor::rgb(196, 196, 196, AnsiColor::White),
                FallbackedColor::rgb(127, 127, 127, AnsiColor::Black),
            ],
            Flag::Demiboy => vec![
                FallbackedColor::rgb(127, 127, 127, AnsiColor::Black),
                FallbackedColor::rgb(196, 196, 196, AnsiColor::White),
                FallbackedColor::rgb(193, 217, 235, AnsiColor::Cyan),
                FallbackedColor::rgb(255, 255, 255, AnsiColor::White),
                FallbackedColor::rgb(193, 217, 235, AnsiColor::Cyan),
                FallbackedColor::rgb(196, 196, 196, AnsiColor::White),
                FallbackedColor::rgb(127, 127, 127, AnsiColor::Black),
            ],
        }
    }

    /// What lies over the flag's stripes on a grid of the given size, the
    /// frontmost first. Wedges get the given slope.
    ///
    /// On the `Lgbtqia` flag a yellow wedge, two rows lower than the grid at
    /// either end, lies in front of five chevrons as high as the grid, each
    /// four columns further in than the one before it; the first of them
    /// starts one column in.
    pub open spec fn decorations(&self, slope: Slope, size: Size) -> Seq<Decoration> {
        match self {
            Flag::Lgbtqia => seq![
                Decoration::Triangle(
                    Triangle { padding: 2, insert: 0, slope, color: wedge_yellow() },
                ),
            ] + Seq::new(
                5,
                |i: int|
                    Decoration::Triangle(
                        Triangle {
                            padding: 0,
                            insert: (1 + 4 * i) as usize,
                            slope,
                            color: chevron_colors()[i],
                        },
                    ),
            ),
            Flag::Demisexual | Flag::Demiromantic => seq![
                Decoration::Triangle(
                    Triangle { padding: 0, insert: 0, slope, color: Color(0, 0, 0) },
                ),
            ],
            Flag::Polyamory => seq![
                Decoration::Charachter(
                    OverlayCharachter { char: PI, color: Color(255, 255, 0), coord: size.center() },
                ),
            ],
            _ => seq![],
        }
    }

    pub fn overlays(&self, slope: Slope, size: Size) -> (overlays: Vec<Decoration>)
        ensures
            overlays@ == self.decorations(slope, size),
    {
        match self {
            Self::Lgbtqia => {
                // How far the wedges are moved in.
                let insert: usize = 0;

                let colors = [
                    Color::white(),
                    Color::new(244, 174, 200),
                    Color::new(123, 204, 229),
                    Color::new(148, 85, 22),
                    Color::black(),
                ];

                let mut res: Vec<Decoration> = Vec::with_capacity(colors.len() + 1);

                res.push(
                    Decoration::Triangle(Triangle::new(2, insert, slope, Color::new(253, 216, 23))),
                );

                let mut i: usize = 0;
                while i < colors.len()
                    invariant
                        i <= 5,
                        colors.len() == 5,
                        insert == 0,
                        colors@ == chevron_colors(),
                        res@ == self.decorations(slope, size).take(i + 1),
                        *self == Flag::Lgbtqia,
                    decreases colors.len() - i,
                {
                    res.push(
                        Decoration::Triangle(Triangle::new(0, insert + 1 + 4 * i, slope, colors[i])),
                    );
                    i += 1;
                }

                res
            },
            Self::Demisexual | Self::Demiromantic => {
                vec![Decoration::Triangle(Triangle::new(0, 0, slope, Color::black()))]
            },
            Self::Polyamory => vec![
                Decoration::Charachter(
                    OverlayCharachter::new_centered(PI, Color::new(255, 255, 0), size),
                ),
            ],
            _ => Vec::new(),
        }
    }

    /// The grid on which the flag is shown: as wide as asked for, or else as
    /// the terminal allows, and as high as asked for, or else as is usual,
    /// less the rows that the flag's stripes cannot share out evenly.
    pub fn grid(
        &self,
        width: Option<usize>,
        terminal_width: Option<usize>,
        height: Option<usize>,
    ) -> (size: Size)
        ensures
            size == grid(width, terminal_width, height, self.palette().len() as usize),
            size.height as int % self.palette().len() as int == 0,
    {
        let stripes = self.stripes();
        grid(width, terminal_width, height, stripes.len())
    }

    /// Renders the flag as a banner on a grid of the given size: its stripes
    /// with its decorations over them.
    pub fn render(&self, size: Size, slope: Slope, true_color: bool) -> (lines: Vec<String>)
        ensures
            lines.deep_view() == banner(
                size,
                self.palette(),
                self.decorations(slope, size),
                true_color,
            ),
    {
        let stripes = self.stripes();
        let overlays = self.overlays(slope, size);
        render(size, &stripes, &overlays, true_color)
    }
}

} // verus!
