use jiman::color::{AnsiColor, Color};
use jiman::flag::{FallbackedColor, Flag};
use jiman::overlay::charachter::OverlayCharachter;
use jiman::overlay::triangle::{Slope, Triangle};
use jiman::overlay::{Decoration, Size};

fn slope(columns: usize) -> Slope {
    Slope::new(columns).unwrap()
}

#[test]
fn seventeen_flags() {
    assert_eq!(
        Flag::variants(),
        vec![
            Flag::Lgbtqia,
            Flag::Lgbt,
            Flag::Asexual,
            Flag::Aromantic,
            Flag::Aroace,
            Flag::Bisexual,
            Flag::Polysexual,
            Flag::Pansexual,
            Flag::Lesbian,
            Flag::Gay,
            Flag::Demisexual,
            Flag::Demiromantic,
            Flag::Trans,
            Flag::Nonbinary,
            Flag::Polyamory,
            Flag::Demigirl,
            Flag::Demiboy,
        ]
    );
}

#[test]
fn names_of_the_flags() {
    let names: Vec<&str> = Flag::variants().iter().map(|flag| flag.name()).collect();
    assert_eq!(
        names,
        vec![
            "Lgbtqia",
            "Lgbt",
            "Asexual",
            "Aromantic",
            "Aroace",
            "Bisexual",
            "Polysexual",
            "Pansexual",
            "Lesbian",
            "Gay",
            "Demisexual",
            "Demiromantic",
            "Trans",
            "Nonbinary",
            "Polyamory",
            "Demigirl",
            "Demiboy",
        ]
    );
}

#[test]
fn aliases_of_the_flags() {
    assert_eq!(Flag::Lgbtqia.aliases(), vec!["Lgbtqia+"]);
    assert_eq!(Flag::Asexual.aliases(), vec!["Ace"]);
    assert_eq!(Flag::Aromantic.aliases(), vec!["Aro"]);
    assert_eq!(Flag::Bisexual.aliases(), vec!["Bi"]);
    assert_eq!(Flag::Polysexual.aliases(), vec!["Poly"]);
    assert_eq!(Flag::Pansexual.aliases(), vec!["Pan"]);
    let without: Vec<Flag> =
        Flag::variants().into_iter().filter(|flag| flag.aliases().is_empty()).collect();
    assert_eq!(
        without,
        vec![
            Flag::Lgbt,
            Flag::Aroace,
            Flag::Lesbian,
            Flag::Gay,
            Flag::Demisexual,
            Flag::Demiromantic,
            Flag::Trans,
            Flag::Nonbinary,
            Flag::Polyamory,
            Flag::Demigirl,
            Flag::Demiboy,
        ]
    );
}

#[test]
fn stripes_of_the_rainbow() {
    let rainbow = vec![
        FallbackedColor::new(Color::new(228, 3, 3), AnsiColor::Red),
        FallbackedColor::new(Color::new(255, 140, 0), AnsiColor::Red),
        FallbackedColor::new(Color::new(255, 237, 0), AnsiColor::Yellow),
        FallbackedColor::new(Color::new(0, 128, 38), AnsiColor::Green),
        FallbackedColor::new(Color::new(0, 77, 255), AnsiColor::Blue),
        FallbackedColor::new(Color::new(117, 7, 135), AnsiColor::Magenta),
    ];
    assert_eq!(Flag::Lgbt.stripes(), rainbow);
    assert_eq!(Flag::Lgbtqia.stripes(), rainbow);
}

#[test]
fn stripes_with_grays() {
    assert_eq!(
        Flag::Asexual.stripes(),
        vec![
            FallbackedColor::new(Color::black(), AnsiColor::Black),
            FallbackedColor::new(Color::gray(163), AnsiColor::Black),
            FallbackedColor::new(Color::white(), AnsiColor::White),
            FallbackedColor::new(Color::new(128, 0, 128), AnsiColor::Magenta),
        ]
    );
    assert_eq!(
        Flag::Nonbinary.stripes(),
        vec![
            FallbackedColor::new(Color::new(252, 244, 52), AnsiColor::Yellow),
            FallbackedColor::new(Color::white(), AnsiColor::White),
            FallbackedColor::new(Color::new(156, 89, 209), AnsiColor::Magenta),
            FallbackedColor::new(Color::gray(44), AnsiColor::Black),
        ]
    );
    assert_eq!(
        Flag::Demigirl.stripes(),
        vec![
            FallbackedColor::new(Color::gray(127), AnsiColor::Black),
            FallbackedColor::new(Color::gray(196), AnsiColor::White),
            FallbackedColor::new(Color::new(255, 174, 201), AnsiColor::Magenta),
            FallbackedColor::new(Color::white(), AnsiColor::White),
            FallbackedColor::new(Color::new(255, 174, 201), AnsiColor::Magenta),
            FallbackedColor::new(Color::gray(196), AnsiColor::White),
            FallbackedColor::new(Color::gray(127), AnsiColor::Black),
        ]
    );
}

#[test]
fn stripes_of_three_and_five() {
    assert_eq!(
        Flag::Pansexual.stripes(),
        vec![
            FallbackedColor::new(Color::new(255, 33, 140), AnsiColor::Magenta),
            FallbackedColor::new(Color::new(255, 216, 0), AnsiColor::Yellow),
            FallbackedColor::new(Color::new(33, 177, 255), AnsiColor::Cyan),
        ]
    );
    assert_eq!(
        Flag::Trans.stripes(),
        vec![
            FallbackedColor::new(Color::new(115, 207, 244), AnsiColor::Cyan),
            FallbackedColor::new(Color::new(238, 175, 192), AnsiColor::Magenta),
            FallbackedColor::new(Color::white(), AnsiColor::White),
            FallbackedColor::new(Color::new(238, 175, 192), AnsiColor::Magenta),
            FallbackedColor::new(Color::new(115, 207, 244), AnsiColor::Cyan),
        ]
    );
    assert_eq!(
        Flag::Bisexual.stripes(),
        vec![
            FallbackedColor::new(Color::new(214, 2, 122), AnsiColor::Magenta),
            FallbackedColor::new(Color::new(214, 2, 122), AnsiColor::Magenta),
            FallbackedColor::new(Color::new(155, 79, 150), AnsiColor::Magenta),
            FallbackedColor::new(Color::new(0, 56, 168), AnsiColor::Blue),
            FallbackedColor::new(Color::new(0, 56, 168), AnsiColor::Blue),
        ]
    );
}

#[test]
fn number_of_stripes_of_each_flag() {
    let counts: Vec<usize> = Flag::variants().iter().map(|flag| flag.stripes().len()).collect();
    assert_eq!(counts, vec![6, 6, 4, 5, 5, 5, 3, 3, 5, 5, 5, 5, 5, 4, 3, 7, 7]);
}

#[test]
fn wedge_and_chevrons_of_the_progress_flag() {
    let slope = slope(2);
    assert_eq!(
        Flag::Lgbtqia.overlays(slope, Size::new(12, 71)),
        vec![
            Decoration::Triangle(Triangle::new(2, 0, slope, Color::new(253, 216, 23))),
            Decoration::Triangle(Triangle::new(0, 1, slope, Color::white())),
            Decoration::Triangle(Triangle::new(0, 5, slope, Color::new(244, 174, 200))),
            Decoration::Triangle(Triangle::new(0, 9, slope, Color::new(123, 204, 229))),
            Decoration::Triangle(Triangle::new(0, 13, slope, Color::new(148, 85, 22))),
            Decoration::Triangle(Triangle::new(0, 17, slope, Color::black())),
        ]
    );
}

#[test]
fn black_wedge_of_the_demi_flags() {
    let slope = slope(1);
    let wedge = vec![Decoration::Triangle(Triangle::new(0, 0, slope, Color::black()))];
    assert_eq!(Flag::Demisexual.overlays(slope, Size::new(15, 71)), wedge);
    assert_eq!(Flag::Demiromantic.overlays(slope, Size::new(15, 71)), wedge);
}

#[test]
fn pi_in_the_middle_of_the_polyamory_flag() {
    assert_eq!(
        Flag::Polyamory.overlays(slope(1), Size::new(15, 71)),
        vec![Decoration::Charachter(OverlayCharachter {
            char: 'π',
            color: Color::new(255, 255, 0),
            coord: (35, 7),
        })]
    );
}

#[test]
fn other_flags_are_stripes_only() {
    for flag in [
        Flag::Lgbt,
        Flag::Asexual,
        Flag::Aromantic,
        Flag::Aroace,
        Flag::Bisexual,
        Flag::Polysexual,
        Flag::Pansexual,
        Flag::Lesbian,
        Flag::Gay,
        Flag::Trans,
        Flag::Nonbinary,
        Flag::Demigirl,
        Flag::Demiboy,
    ] {
        assert!(flag.overlays(slope(1), Size::new(15, 71)).is_empty());
    }
}

#[test]
fn polyamory_flag_on_three_by_three() {
    let blue = "\x1b[48;2;0;0;255m";
    let red = "\x1b[48;2;255;0;0m";
    let black = "\x1b[48;2;0;0;0m";
    assert_eq!(
        Flag::Polyamory.render(Size::new(3, 3), slope(1), true),
        vec![
            format!("{blue} {blue} {blue} \x1b[0m"),
            format!("{red} {red}\x1b[38;2;255;255;0mπ{red} \x1b[0m"),
            format!("{black} {black} {black} \x1b[0m"),
        ]
    );
}

#[test]
fn pansexual_flag_in_eight_colors() {
    assert_eq!(
        Flag::Pansexual.render(Size::new(3, 2), slope(1), false),
        vec!["\x1b[45m \x1b[45m \x1b[0m", "\x1b[43m \x1b[43m \x1b[0m", "\x1b[46m \x1b[46m \x1b[0m"]
    );
}

#[test]
fn demisexual_flag_on_five_by_four() {
    let white = "\x1b[48;2;255;255;255m";
    let purple = "\x1b[48;2;128;0;128m";
    let gray = "\x1b[48;2;210;210;210m";
    let ink = "\x1b[38;2;0;0;0m";
    assert_eq!(
        Flag::Demisexual.render(Size::new(5, 4), slope(1), true),
        vec![
            format!("{white}{ink}▙{white} {white} {white} \x1b[0m"),
            format!("{white}{ink}█{white}{ink}▙{white} {white} \x1b[0m"),
            format!("{purple}{ink}█{purple}{ink}█{purple}{ink}▌{purple} \x1b[0m"),
            format!("{gray}{ink}█{gray}{ink}▛{gray} {gray} \x1b[0m"),
            format!("{gray}{ink}▛{gray} {gray} {gray} \x1b[0m"),
        ]
    );
}

#[test]
fn progress_flag_top_rows() {
    // Six rows, one for each stripe. The yellow wedge is two rows lower than the
    // grid at either end, so the first rows show the chevrons alone.
    let lines = Flag::Lgbtqia.render(Size::new(6, 20), slope(1), true);
    let red = "\x1b[48;2;228;3;3m";
    let white = Color::white();
    let pink = Color::new(244, 174, 200);
    let blue = Color::new(123, 204, 229);
    let brown = Color::new(148, 85, 22);
    let black = Color::black();
    let fg = |color: Color| format!("\x1b[38;2;{};{};{}m", color.0, color.1, color.2);
    let bg = |color: Color| format!("\x1b[48;2;{};{};{}m", color.0, color.1, color.2);
    let mut expected = String::new();
    // Column 0: filled by the white chevron, which stands on the pink one.
    expected += &format!("{}{}█", bg(pink), fg(white));
    // Column 1: the edge of the white chevron.
    expected += &format!("{}{}▙", bg(pink), fg(white));
    for _ in 2..5 {
        expected += &format!("{}{}█", bg(blue), fg(pink));
    }
    expected += &format!("{}{}▙", bg(blue), fg(pink));
    for _ in 6..9 {
        expected += &format!("{}{}█", bg(brown), fg(blue));
    }
    expected += &format!("{}{}▙", bg(brown), fg(blue));
    for _ in 10..13 {
        expected += &format!("{}{}█", bg(black), fg(brown));
    }
    expected += &format!("{}{}▙", bg(black), fg(brown));
    for _ in 14..17 {
        expected += &format!("{red}{}█", fg(black));
    }
    expected += &format!("{red}{}▙", fg(black));
    for _ in 18..20 {
        expected += &format!("{red} ");
    }
    expected += "\x1b[0m";
    assert_eq!(lines[0], expected);
    assert_eq!(lines.len(), 6);
}

#[test]
fn listing_with_and_without_aliases() {
    assert_eq!(Flag::Lgbtqia.listing(true), "Lgbtqia (Lgbtqia+)");
    assert_eq!(Flag::Lgbtqia.listing(false), "Lgbtqia");
    assert_eq!(Flag::Asexual.listing(true), "Asexual (Ace)");
    assert_eq!(Flag::Lgbt.listing(true), "Lgbt");
    assert_eq!(Flag::Lgbt.listing(false), "Lgbt");
}

#[test]
fn flags_are_asked_for_in_lower_case() {
    let names: Vec<String> = Flag::variants().iter().map(|flag| flag.value_name()).collect();
    assert_eq!(
        names,
        vec![
            "lgbtqia",
            "lgbt",
            "asexual",
            "aromantic",
            "aroace",
            "bisexual",
            "polysexual",
            "pansexual",
            "lesbian",
            "gay",
            "demisexual",
            "demiromantic",
            "trans",
            "nonbinary",
            "polyamory",
            "demigirl",
            "demiboy",
        ]
    );
}

#[test]
fn flags_are_also_asked_for_by_their_other_names() {
    assert_eq!(Flag::Lgbtqia.value_aliases(), vec!["Lgbtqia", "Lgbtqia+", "lgbtqia+"]);
    assert_eq!(Flag::Bisexual.value_aliases(), vec!["Bisexual", "Bi", "bi"]);
    assert_eq!(Flag::Pansexual.value_aliases(), vec!["Pansexual", "Pan", "pan"]);
    assert_eq!(Flag::Trans.value_aliases(), vec!["Trans"]);
}

#[test]
fn grid_of_a_flag() {
    assert_eq!(Flag::Lgbt.grid(None, None, None), Size::new(12, 71));
    assert_eq!(Flag::Trans.grid(None, None, None), Size::new(15, 71));
    assert_eq!(Flag::Demigirl.grid(Some(20), Some(10), Some(30)), Size::new(28, 20));
    assert_eq!(Flag::Polyamory.grid(None, Some(10), Some(2)), Size::new(0, 10));
}

#[test]
fn progress_flag_behind_the_yellow_wedge() {
    // Row 2 of 6 is the first row of the yellow wedge and row 2 of each chevron.
    let lines = Flag::Lgbtqia.render(Size::new(6, 20), slope(1), true);
    let stripe = "\x1b[48;2;255;237;0m";
    let yellow = Color::new(253, 216, 23);
    let white = Color::white();
    let pink = Color::new(244, 174, 200);
    let blue = Color::new(123, 204, 229);
    let brown = Color::new(148, 85, 22);
    let black = Color::black();
    let fg = |color: Color| format!("\x1b[38;2;{};{};{}m", color.0, color.1, color.2);
    let bg = |color: Color| format!("\x1b[48;2;{};{};{}m", color.0, color.1, color.2);
    let mut expected = String::new();
    expected += &format!("{}{}▙", bg(white), fg(yellow));
    for _ in 1..3 {
        expected += &format!("{}{}█", bg(pink), fg(white));
    }
    expected += &format!("{}{}▙", bg(pink), fg(white));
    for _ in 4..7 {
        expected += &format!("{}{}█", bg(blue), fg(pink));
    }
    expected += &format!("{}{}▙", bg(blue), fg(pink));
    for _ in 8..11 {
        expected += &format!("{}{}█", bg(brown), fg(blue));
    }
    expected += &format!("{}{}▙", bg(brown), fg(blue));
    for _ in 12..15 {
        expected += &format!("{}{}█", bg(black), fg(brown));
    }
    expected += &format!("{}{}▙", bg(black), fg(brown));
    for _ in 16..19 {
        expected += &format!("{stripe}{}█", fg(black));
    }
    expected += &format!("{stripe}{}▙", fg(black));
    expected += "\x1b[0m";
    assert_eq!(lines[2], expected);
}
