//! User settings: the piece style and the saved configuration.
use vstd::prelude::*;
use crate::text::{chars_of, same_chars};

verus! {

/// How pieces are drawn.
#[derive(Clone, Copy, PartialEq, Eq, Debug, Structural)]
pub enum PieceStyle {
    Generated3D,
    PixelColor,
    PixelDuo,
    PixelMono,
    Classic,
}

impl Default for PieceStyle {
    fn default() -> (s: PieceStyle)
        ensures
            s == PieceStyle::Generated3D,
    {
        PieceStyle::Generated3D
    }
}

impl PieceStyle {
    /// The styles, in display order.
    pub fn all() -> (v: Vec<PieceStyle>)
        ensures
            v@ == seq![
                PieceStyle::Generated3D,
                PieceStyle::PixelColor,
                PieceStyle::PixelDuo,
                PieceStyle::PixelMono,
                PieceStyle::Classic,
            ],
    {
        vec![PieceStyle::Generated3D, PieceStyle::PixelColor, PieceStyle::PixelDuo, PieceStyle::PixelMono, PieceStyle::Classic]
    }

    pub open spec fn spec_name(self) -> Seq<char> {
        match self {
            PieceStyle::Generated3D => "3D"@,
            PieceStyle::PixelColor => "Pixel Color"@,
            PieceStyle::PixelDuo => "Pixel Duo"@,
            PieceStyle::PixelMono => "Pixel Mono"@,
            PieceStyle::Classic => "Classic"@,
        }
    }

    /// The name of the style, as saved in the configuration.
    pub fn name(&self) -> (s: &'static str)
        ensures
            s@ == self.spec_name(),
    {
        match self {
            PieceStyle::Generated3D => "3D",
            PieceStyle::PixelColor => "Pixel Color",
            PieceStyle::PixelDuo => "Pixel Duo",
            PieceStyle::PixelMono => "Pixel Mono",
            PieceStyle::Classic => "Classic",
        }
    }

    pub open spec fn spec_description(self) -> Seq<char> {
        match self {
            PieceStyle::Generated3D => "3D rendered pieces with Phong shading"@,
            PieceStyle::PixelColor => "16\u{00d7}16 pixel art, full color"@,
            PieceStyle::PixelDuo => "16\u{00d7}16 pixel art, two-tone"@,
            PieceStyle::PixelMono => "16\u{00d7}16 pixel art, monochrome"@,
            PieceStyle::Classic => "512\u{00d7}512 high-res classic pieces"@,
        }
    }

    pub fn description(&self) -> (s: &'static str)
        ensures
            s@ == self.spec_description(),
    {
        match self {
            PieceStyle::Generated3D => "3D rendered pieces with Phong shading",
            PieceStyle::PixelColor => "16\u{00d7}16 pixel art, full color",
            PieceStyle::PixelDuo => "16\u{00d7}16 pixel art, two-tone",
            PieceStyle::PixelMono => "16\u{00d7}16 pixel art, monochrome",
            PieceStyle::Classic => "512\u{00d7}512 high-res classic pieces",
        }
    }

    /// The style with the given name, if any.
    pub fn from_name(s: &str) -> (r: Option<PieceStyle>)
        ensures
            r matches Some(p) ==> p.spec_name() == s@,
            r is None ==> forall|p: PieceStyle| p.spec_name() != s@,
    {
        let all = PieceStyle::all();
        let target = chars_of(s);
        let mut i: usize = 0;
        while i < all.len()
            invariant
                i <= all@.len(),
                target@ == s@,
                all@ == seq![
                    PieceStyle::Generated3D,
                    PieceStyle::PixelColor,
                    PieceStyle::PixelDuo,
                    PieceStyle::PixelMono,
                    PieceStyle::Classic,
                ],
                forall|k: int| 0 <= k < i ==> (#[trigger] all@[k]).spec_name() != s@,
            decreases all.len() - i,
        {
            let p = all[i];
            if same_chars(&chars_of(p.name()), &target) {
                return Some(p);
            }
            i = i + 1;
        }
        proof {
            assert forall|p: PieceStyle| p.spec_name() != s@ by {
                match p {
                    PieceStyle::Generated3D => assert(all@[0] == p),
                    PieceStyle::PixelColor => assert(all@[1] == p),
                    PieceStyle::PixelDuo => assert(all@[2] == p),
                    PieceStyle::PixelMono => assert(all@[3] == p),
                    PieceStyle::Classic => assert(all@[4] == p),
                }
            }
        }
        None
    }
}

/// The saved configuration.
#[derive(Clone, Debug)]
pub struct Config {
    pub server_url: String,
    pub color_scheme: Option<String>,
    pub piece_style: Option<String>,
    pub show_move_hints: bool,
}

/// The value a missing `show_move_hints` setting takes.
pub fn default_true() -> (b: bool)
    ensures
        b,
{
    true
}

impl Default for Config {
    fn default() -> (c: Config)
        ensures
            c.server_url@ == "ws://152.117.85.110:7600/ws"@,
            c.color_scheme is None,
            c.piece_style is None,
            c.show_move_hints,
    {
        Config {
            server_url: crate::text::string_of(&chars_of("ws://152.117.85.110:7600/ws")),
            color_scheme: None,
            piece_style: None,
            show_move_hints: default_true(),
        }
    }
}

} // verus!
