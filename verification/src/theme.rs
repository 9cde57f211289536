//! Color schemes of the interface.
use vstd::prelude::*;

verus! {

/// A color scheme of the interface.
#[derive(Clone, Copy, PartialEq, Eq, Debug, Structural)]
pub enum ColorScheme {
    Green,
    Amber,
    Blue,
    Magenta,
    Cyan,
    Mono,
}

impl ColorScheme {
    /// The schemes, in the order the picker lists them.
    pub fn all() -> (v: Vec<ColorScheme>)
        ensures
            v@ == seq![
                ColorScheme::Amber,
                ColorScheme::Green,
                ColorScheme::Blue,
                ColorScheme::Magenta,
                ColorScheme::Cyan,
                ColorScheme::Mono,
            ],
    {
        vec![ColorScheme::Amber, ColorScheme::Green, ColorScheme::Blue, ColorScheme::Magenta, ColorScheme::Cyan, ColorScheme::Mono]
    }

    pub open spec fn spec_name(self) -> Seq<char> {
        match self {
            ColorScheme::Green => "Phosphor Green"@,
            ColorScheme::Amber => "Orange"@,
            ColorScheme::Blue => "Ice Blue"@,
            ColorScheme::Magenta => "Neon Magenta"@,
            ColorScheme::Cyan => "Cyan Terminal"@,
            ColorScheme::Mono => "Monochrome"@,
        }
    }

    /// The name of the scheme, as saved in the configuration.
    pub fn name(&self) -> (s: &'static str)
        ensures
            s@ == self.spec_name(),
    {
        match self {
            ColorScheme::Green => "Phosphor Green",
            ColorScheme::Amber => "Orange",
            ColorScheme::Blue => "Ice Blue",
            ColorScheme::Magenta => "Neon Magenta",
            ColorScheme::Cyan => "Cyan Terminal",
            ColorScheme::Mono => "Monochrome",
        }
    }
}

/// A terminal color: one of the 256 indexed colors, a true color, or a
/// named one.
#[derive(Clone, Copy, PartialEq, Eq, Debug, Structural)]
pub enum TermColor {
    Indexed(u8),
    Rgb(u8, u8, u8),
    White,
    Yellow,
}

/// The colors of the whole interface.
#[derive(Clone, Copy, PartialEq, Eq, Debug, Structural)]
pub struct Theme {
    pub light_square: TermColor,
    pub dark_square: TermColor,
    pub white_piece: TermColor,
    pub black_piece: TermColor,
    pub selected_bg: TermColor,
    pub legal_move_bg: TermColor,
    pub last_move_light: TermColor,
    pub last_move_dark: TermColor,
    pub check_bg: TermColor,
    pub cursor_bg: TermColor,
    pub legal_dot: TermColor,
    pub accent: TermColor,
    pub text_primary: TermColor,
    pub text_dim: TermColor,
    pub text_bright: TermColor,
    pub border_focused: TermColor,
    pub border_dim: TermColor,
    pub mode_play: TermColor,
    pub mode_command: TermColor,
    pub table_cursor_fg: TermColor,
    pub table_cursor_bg: TermColor,
    pub accent_secondary: TermColor,
    pub accent_tertiary: TermColor,
    pub logo_color: TermColor,
    pub icon_color: TermColor,
    pub shortcut_color: TermColor,
}

/// The bright, primary and dim tones of a scheme.
pub open spec fn tones_of(s: ColorScheme) -> (TermColor, TermColor, TermColor) {
    match s {
        ColorScheme::Green => (TermColor::Indexed(82), TermColor::Indexed(34), TermColor::Indexed(28)),
        ColorScheme::Amber => (TermColor::Indexed(220), TermColor::Indexed(214), TermColor::Indexed(172)),
        ColorScheme::Blue => (TermColor::Indexed(75), TermColor::Indexed(33), TermColor::Indexed(26)),
        ColorScheme::Magenta => (TermColor::Indexed(213), TermColor::Indexed(170), TermColor::Indexed(133)),
        ColorScheme::Cyan => (TermColor::Indexed(87), TermColor::Indexed(37), TermColor::Indexed(30)),
        ColorScheme::Mono => (TermColor::White, TermColor::Indexed(250), TermColor::Indexed(243)),
    }
}

fn tones_exec(s: ColorScheme) -> (r: (TermColor, TermColor, TermColor))
    ensures
        r == tones_of(s),
{
    match s {
        ColorScheme::Green => (TermColor::Indexed(82), TermColor::Indexed(34), TermColor::Indexed(28)),
        ColorScheme::Amber => (TermColor::Indexed(220), TermColor::Indexed(214), TermColor::Indexed(172)),
        ColorScheme::Blue => (TermColor::Indexed(75), TermColor::Indexed(33), TermColor::Indexed(26)),
        ColorScheme::Magenta => (TermColor::Indexed(213), TermColor::Indexed(170), TermColor::Indexed(133)),
        ColorScheme::Cyan => (TermColor::Indexed(87), TermColor::Indexed(37), TermColor::Indexed(30)),
        ColorScheme::Mono => (TermColor::White, TermColor::Indexed(250), TermColor::Indexed(243)),
    }
}

/// The dark squares of a scheme.
pub open spec fn dark_of(s: ColorScheme) -> TermColor {
    match s {
        ColorScheme::Green => TermColor::Rgb(100, 133, 68),
        ColorScheme::Amber => TermColor::Rgb(140, 100, 45),
        ColorScheme::Blue => TermColor::Rgb(60, 85, 130),
        ColorScheme::Magenta => TermColor::Rgb(120, 55, 100),
        ColorScheme::Cyan => TermColor::Rgb(45, 110, 110),
        ColorScheme::Mono => TermColor::Indexed(240),
    }
}

fn dark_exec(s: ColorScheme) -> (r: TermColor)
    ensures
        r == dark_of(s),
{
    match s {
        ColorScheme::Green => TermColor::Rgb(100, 133, 68),
        ColorScheme::Amber => TermColor::Rgb(140, 100, 45),
        ColorScheme::Blue => TermColor::Rgb(60, 85, 130),
        ColorScheme::Magenta => TermColor::Rgb(120, 55, 100),
        ColorScheme::Cyan => TermColor::Rgb(45, 110, 110),
        ColorScheme::Mono => TermColor::Indexed(240),
    }
}

/// The light squares of a scheme.
pub open spec fn light_of(s: ColorScheme) -> TermColor {
    match s {
        ColorScheme::Green => TermColor::Rgb(190, 200, 160),
        ColorScheme::Amber => TermColor::Rgb(200, 180, 140),
        ColorScheme::Blue => TermColor::Rgb(165, 180, 200),
        ColorScheme::Magenta => TermColor::Rgb(195, 165, 185),
        ColorScheme::Cyan => TermColor::Rgb(165, 200, 195),
        ColorScheme::Mono => TermColor::Indexed(248),
    }
}

fn light_exec(s: ColorScheme) -> (r: TermColor)
    ensures
        r == light_of(s),
{
    match s {
        ColorScheme::Green => TermColor::Rgb(190, 200, 160),
        ColorScheme::Amber => TermColor::Rgb(200, 180, 140),
        ColorScheme::Blue => TermColor::Rgb(165, 180, 200),
        ColorScheme::Magenta => TermColor::Rgb(195, 165, 185),
        ColorScheme::Cyan => TermColor::Rgb(165, 200, 195),
        ColorScheme::Mono => TermColor::Indexed(248),
    }
}

/// The white and the black pieces of a scheme.
pub open spec fn pieces_of(s: ColorScheme) -> (TermColor, TermColor) {
    match s {
        ColorScheme::Green => (TermColor::Rgb(255, 255, 240), TermColor::Rgb(50, 50, 40)),
        ColorScheme::Amber => (TermColor::Rgb(255, 240, 200), TermColor::Rgb(60, 40, 20)),
        ColorScheme::Blue => (TermColor::Rgb(230, 240, 255), TermColor::Rgb(30, 40, 60)),
        ColorScheme::Magenta => (TermColor::Rgb(255, 230, 250), TermColor::Rgb(55, 30, 50)),
        ColorScheme::Cyan => (TermColor::Rgb(230, 255, 255), TermColor::Rgb(30, 50, 50)),
        ColorScheme::Mono => (TermColor::Rgb(240, 240, 240), TermColor::Rgb(50, 50, 50)),
    }
}

fn pieces_exec(s: ColorScheme) -> (r: (TermColor, TermColor))
    ensures
        r == pieces_of(s),
{
    match s {
        ColorScheme::Green => (TermColor::Rgb(255, 255, 240), TermColor::Rgb(50, 50, 40)),
        ColorScheme::Amber => (TermColor::Rgb(255, 240, 200), TermColor::Rgb(60, 40, 20)),
        ColorScheme::Blue => (TermColor::Rgb(230, 240, 255), TermColor::Rgb(30, 40, 60)),
        ColorScheme::Magenta => (TermColor::Rgb(255, 230, 250), TermColor::Rgb(55, 30, 50)),
        ColorScheme::Cyan => (TermColor::Rgb(230, 255, 255), TermColor::Rgb(30, 50, 50)),
        ColorScheme::Mono => (TermColor::Rgb(240, 240, 240), TermColor::Rgb(50, 50, 50)),
    }
}

/// The selected square, legal move, last move (light and dark) and cursor backgrounds of a scheme.
pub open spec fn highlights_of(s: ColorScheme) -> (TermColor, TermColor, TermColor, TermColor, TermColor) {
    match s {
        ColorScheme::Green => (TermColor::Rgb(130, 170, 100), TermColor::Rgb(170, 180, 140), TermColor::Rgb(245, 246, 130), TermColor::Rgb(186, 202, 68), TermColor::Rgb(200, 200, 100)),
        ColorScheme::Amber => (TermColor::Rgb(180, 140, 60), TermColor::Rgb(200, 180, 120), TermColor::Rgb(240, 220, 100), TermColor::Rgb(200, 170, 50), TermColor::Rgb(220, 200, 80)),
        ColorScheme::Blue => (TermColor::Rgb(100, 130, 180), TermColor::Rgb(150, 170, 200), TermColor::Rgb(140, 180, 240), TermColor::Rgb(90, 130, 200), TermColor::Rgb(130, 170, 220)),
        ColorScheme::Magenta => (TermColor::Rgb(170, 100, 150), TermColor::Rgb(190, 150, 180), TermColor::Rgb(230, 150, 200), TermColor::Rgb(180, 100, 160), TermColor::Rgb(210, 150, 180)),
        ColorScheme::Cyan => (TermColor::Rgb(80, 170, 160), TermColor::Rgb(140, 190, 190), TermColor::Rgb(130, 230, 220), TermColor::Rgb(70, 180, 170), TermColor::Rgb(120, 200, 180)),
        ColorScheme::Mono => (TermColor::Indexed(247), TermColor::Indexed(249), TermColor::Indexed(250), TermColor::Indexed(246), TermColor::Indexed(248)),
    }
}

fn highlights_exec(s: ColorScheme) -> (r: (TermColor, TermColor, TermColor, TermColor, TermColor))
    ensures
        r == highlights_of(s),
{
    match s {
        ColorScheme::Green => (TermColor::Rgb(130, 170, 100), TermColor::Rgb(170, 180, 140), TermColor::Rgb(245, 246, 130), TermColor::Rgb(186, 202, 68), TermColor::Rgb(200, 200, 100)),
        ColorScheme::Amber => (TermColor::Rgb(180, 140, 60), TermColor::Rgb(200, 180, 120), TermColor::Rgb(240, 220, 100), TermColor::Rgb(200, 170, 50), TermColor::Rgb(220, 200, 80)),
        ColorScheme::Blue => (TermColor::Rgb(100, 130, 180), TermColor::Rgb(150, 170, 200), TermColor::Rgb(140, 180, 240), TermColor::Rgb(90, 130, 200), TermColor::Rgb(130, 170, 220)),
        ColorScheme::Magenta => (TermColor::Rgb(170, 100, 150), TermColor::Rgb(190, 150, 180), TermColor::Rgb(230, 150, 200), TermColor::Rgb(180, 100, 160), TermColor::Rgb(210, 150, 180)),
        ColorScheme::Cyan => (TermColor::Rgb(80, 170, 160), TermColor::Rgb(140, 190, 190), TermColor::Rgb(130, 230, 220), TermColor::Rgb(70, 180, 170), TermColor::Rgb(120, 200, 180)),
        ColorScheme::Mono => (TermColor::Indexed(247), TermColor::Indexed(249), TermColor::Indexed(250), TermColor::Indexed(246), TermColor::Indexed(248)),
    }
}

/// The text of the table cursor.
pub open spec fn cursor_fg_of(s: ColorScheme) -> TermColor {
    match s {
        ColorScheme::Green => TermColor::Rgb(20, 20, 15),
        ColorScheme::Amber => TermColor::Rgb(30, 20, 10),
        ColorScheme::Blue => TermColor::Rgb(15, 20, 30),
        ColorScheme::Magenta => TermColor::Rgb(30, 15, 25),
        ColorScheme::Cyan => TermColor::Rgb(15, 30, 30),
        ColorScheme::Mono => TermColor::Rgb(20, 20, 20),
    }
}

fn cursor_fg_exec(s: ColorScheme) -> (r: TermColor)
    ensures
        r == cursor_fg_of(s),
{
    match s {
        ColorScheme::Green => TermColor::Rgb(20, 20, 15),
        ColorScheme::Amber => TermColor::Rgb(30, 20, 10),
        ColorScheme::Blue => TermColor::Rgb(15, 20, 30),
        ColorScheme::Magenta => TermColor::Rgb(30, 15, 25),
        ColorScheme::Cyan => TermColor::Rgb(15, 30, 30),
        ColorScheme::Mono => TermColor::Rgb(20, 20, 20),
    }
}

/// The background of the table cursor.
pub open spec fn cursor_bg_of(s: ColorScheme) -> TermColor {
    match s {
        ColorScheme::Green => TermColor::Rgb(100, 160, 70),
        ColorScheme::Amber => TermColor::Rgb(180, 140, 50),
        ColorScheme::Blue => TermColor::Rgb(80, 130, 200),
        ColorScheme::Magenta => TermColor::Rgb(170, 90, 150),
        ColorScheme::Cyan => TermColor::Rgb(60, 170, 160),
        ColorScheme::Mono => TermColor::Indexed(252),
    }
}

fn cursor_bg_exec(s: ColorScheme) -> (r: TermColor)
    ensures
        r == cursor_bg_of(s),
{
    match s {
        ColorScheme::Green => TermColor::Rgb(100, 160, 70),
        ColorScheme::Amber => TermColor::Rgb(180, 140, 50),
        ColorScheme::Blue => TermColor::Rgb(80, 130, 200),
        ColorScheme::Magenta => TermColor::Rgb(170, 90, 150),
        ColorScheme::Cyan => TermColor::Rgb(60, 170, 160),
        ColorScheme::Mono => TermColor::Indexed(252),
    }
}

/// The second accent color.
pub open spec fn secondary_of(s: ColorScheme) -> TermColor {
    match s {
        ColorScheme::Green => TermColor::Rgb(97, 175, 239),
        ColorScheme::Amber => TermColor::Rgb(97, 175, 239),
        ColorScheme::Blue => TermColor::Rgb(152, 190, 101),
        ColorScheme::Magenta => TermColor::Rgb(97, 175, 239),
        ColorScheme::Cyan => TermColor::Rgb(152, 190, 101),
        ColorScheme::Mono => TermColor::Rgb(171, 178, 191),
    }
}

fn secondary_exec(s: ColorScheme) -> (r: TermColor)
    ensures
        r == secondary_of(s),
{
    match s {
        ColorScheme::Green => TermColor::Rgb(97, 175, 239),
        ColorScheme::Amber => TermColor::Rgb(97, 175, 239),
        ColorScheme::Blue => TermColor::Rgb(152, 190, 101),
        ColorScheme::Magenta => TermColor::Rgb(97, 175, 239),
        ColorScheme::Cyan => TermColor::Rgb(152, 190, 101),
        ColorScheme::Mono => TermColor::Rgb(171, 178, 191),
    }
}

/// The third accent color.
pub open spec fn tertiary_of(s: ColorScheme) -> TermColor {
    match s {
        ColorScheme::Green => TermColor::Rgb(224, 108, 117),
        ColorScheme::Amber => TermColor::Rgb(198, 120, 221),
        ColorScheme::Blue => TermColor::Rgb(229, 192, 123),
        ColorScheme::Magenta => TermColor::Rgb(229, 192, 123),
        ColorScheme::Cyan => TermColor::Rgb(224, 108, 117),
        ColorScheme::Mono => TermColor::Rgb(92, 99, 112),
    }
}

fn tertiary_exec(s: ColorScheme) -> (r: TermColor)
    ensures
        r == tertiary_of(s),
{
    match s {
        ColorScheme::Green => TermColor::Rgb(224, 108, 117),
        ColorScheme::Amber => TermColor::Rgb(198, 120, 221),
        ColorScheme::Blue => TermColor::Rgb(229, 192, 123),
        ColorScheme::Magenta => TermColor::Rgb(229, 192, 123),
        ColorScheme::Cyan => TermColor::Rgb(224, 108, 117),
        ColorScheme::Mono => TermColor::Rgb(92, 99, 112),
    }
}

/// The logo color.
pub open spec fn logo_of(s: ColorScheme) -> TermColor {
    match s {
        ColorScheme::Green => TermColor::Rgb(152, 190, 101),
        ColorScheme::Amber => TermColor::Rgb(235, 174, 52),
        ColorScheme::Blue => TermColor::Rgb(97, 175, 239),
        ColorScheme::Magenta => TermColor::Rgb(198, 120, 221),
        ColorScheme::Cyan => TermColor::Rgb(86, 182, 194),
        ColorScheme::Mono => TermColor::Rgb(201, 201, 201),
    }
}

fn logo_exec(s: ColorScheme) -> (r: TermColor)
    ensures
        r == logo_of(s),
{
    match s {
        ColorScheme::Green => TermColor::Rgb(152, 190, 101),
        ColorScheme::Amber => TermColor::Rgb(235, 174, 52),
        ColorScheme::Blue => TermColor::Rgb(97, 175, 239),
        ColorScheme::Magenta => TermColor::Rgb(198, 120, 221),
        ColorScheme::Cyan => TermColor::Rgb(86, 182, 194),
        ColorScheme::Mono => TermColor::Rgb(201, 201, 201),
    }
}

/// The icon color.
pub open spec fn icon_of(s: ColorScheme) -> TermColor {
    match s {
        ColorScheme::Green => TermColor::Rgb(86, 182, 194),
        ColorScheme::Amber => TermColor::Rgb(86, 182, 194),
        ColorScheme::Blue => TermColor::Rgb(152, 190, 101),
        ColorScheme::Magenta => TermColor::Rgb(86, 182, 194),
        ColorScheme::Cyan => TermColor::Rgb(152, 190, 101),
        ColorScheme::Mono => TermColor::Rgb(171, 178, 191),
    }
}

fn icon_exec(s: ColorScheme) -> (r: TermColor)
    ensures
        r == icon_of(s),
{
    match s {
        ColorScheme::Green => TermColor::Rgb(86, 182, 194),
        ColorScheme::Amber => TermColor::Rgb(86, 182, 194),
        ColorScheme::Blue => TermColor::Rgb(152, 190, 101),
        ColorScheme::Magenta => TermColor::Rgb(86, 182, 194),
        ColorScheme::Cyan => TermColor::Rgb(152, 190, 101),
        ColorScheme::Mono => TermColor::Rgb(171, 178, 191),
    }
}

/// The color of shortcut keys.
pub open spec fn shortcut_of(s: ColorScheme) -> TermColor {
    match s {
        ColorScheme::Green => TermColor::Rgb(224, 108, 117),
        ColorScheme::Amber => TermColor::Rgb(224, 108, 117),
        ColorScheme::Blue => TermColor::Rgb(224, 108, 117),
        ColorScheme::Magenta => TermColor::Rgb(229, 192, 123),
        ColorScheme::Cyan => TermColor::Rgb(224, 108, 117),
        ColorScheme::Mono => TermColor::Rgb(201, 201, 201),
    }
}

fn shortcut_exec(s: ColorScheme) -> (r: TermColor)
    ensures
        r == shortcut_of(s),
{
    match s {
        ColorScheme::Green => TermColor::Rgb(224, 108, 117),
        ColorScheme::Amber => TermColor::Rgb(224, 108, 117),
        ColorScheme::Blue => TermColor::Rgb(224, 108, 117),
        ColorScheme::Magenta => TermColor::Rgb(229, 192, 123),
        ColorScheme::Cyan => TermColor::Rgb(224, 108, 117),
        ColorScheme::Mono => TermColor::Rgb(201, 201, 201),
    }
}

/// The theme of a scheme: its own square, piece, highlight and accent
/// colors; text, accents, borders and the play-mode marker in its primary
/// tone, dim text and borders in its dim tone, bright text in its bright
/// tone; a red check square, yellow for command mode, indexed 243 for the
/// legal-move dots.
pub open spec fn theme_of(s: ColorScheme) -> Theme {
    let (bright, primary, dim) = tones_of(s);
    let (white_pc, black_pc) = pieces_of(s);
    let (sel, legal, lm_light, lm_dark, cursor) = highlights_of(s);
    Theme {
        light_square: light_of(s),
        dark_square: dark_of(s),
        white_piece: white_pc,
        black_piece: black_pc,
        selected_bg: sel,
        legal_move_bg: legal,
        last_move_light: lm_light,
        last_move_dark: lm_dark,
        check_bg: TermColor::Rgb(200, 80, 80),
        cursor_bg: cursor,
        legal_dot: TermColor::Indexed(243),
        accent: primary,
        text_primary: primary,
        text_dim: dim,
        text_bright: bright,
        border_focused: primary,
        border_dim: dim,
        mode_play: primary,
        mode_command: TermColor::Yellow,
        table_cursor_fg: cursor_fg_of(s),
        table_cursor_bg: cursor_bg_of(s),
        accent_secondary: secondary_of(s),
        accent_tertiary: tertiary_of(s),
        logo_color: logo_of(s),
        icon_color: icon_of(s),
        shortcut_color: shortcut_of(s),
    }
}

impl Theme {
    /// The theme of a color scheme.
    pub fn from_scheme(scheme: ColorScheme) -> (t: Theme)
        ensures
            t == theme_of(scheme),
    {
        let (bright, primary, dim) = tones_exec(scheme);
        let (white_pc, black_pc) = pieces_exec(scheme);
        let (sel, legal, lm_light, lm_dark, cursor) = highlights_exec(scheme);
        Theme {
            light_square: light_exec(scheme),
            dark_square: dark_exec(scheme),
            white_piece: white_pc,
            black_piece: black_pc,
            selected_bg: sel,
            legal_move_bg: legal,
            last_move_light: lm_light,
            last_move_dark: lm_dark,
            check_bg: TermColor::Rgb(200, 80, 80),
            cursor_bg: cursor,
            legal_dot: TermColor::Indexed(243),
            accent: primary,
            text_primary: primary,
            text_dim: dim,
            text_bright: bright,
            border_focused: primary,
            border_dim: dim,
            mode_play: primary,
            mode_command: TermColor::Yellow,
            table_cursor_fg: cursor_fg_exec(scheme),
            table_cursor_bg: cursor_bg_exec(scheme),
            accent_secondary: secondary_exec(scheme),
            accent_tertiary: tertiary_exec(scheme),
            logo_color: logo_exec(scheme),
            icon_color: icon_exec(scheme),
            shortcut_color: shortcut_exec(scheme),
        }
    }

    /// The background of a square: dark when file and rank add up to an
    /// even number (a1 is dark), light otherwise.
    pub fn square_bg(&self, file: u8, rank: u8) -> (c: TermColor)
        requires
            file <= 7,
            rank <= 7,
        ensures
            c == if (file + rank) % 2 == 0 {
                self.dark_square
            } else {
                self.light_square
            },
    {
        if (file + rank) % 2 == 0 {
            self.dark_square
        } else {
            self.light_square
        }
    }
}

impl Default for Theme {
    fn default() -> (t: Theme)
        ensures
            t == theme_of(ColorScheme::Amber),
    {
        Theme::from_scheme(ColorScheme::Amber)
    }
}

/// In every scheme the light and dark squares differ, the two sides' pieces
/// differ, and each side's pieces differ from both kinds of square.
pub proof fn lemma_theme_contrast(s: ColorScheme)
    ensures
        theme_of(s).light_square != theme_of(s).dark_square,
        theme_of(s).white_piece != theme_of(s).black_piece,
        theme_of(s).white_piece != theme_of(s).light_square,
        theme_of(s).white_piece != theme_of(s).dark_square,
        theme_of(s).black_piece != theme_of(s).light_square,
        theme_of(s).black_piece != theme_of(s).dark_square,
{
}

} // verus!
