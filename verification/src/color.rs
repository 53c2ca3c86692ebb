//! The color model: the 16 named colors, the 256-entry indexed palette and
//! 24-bit color; the fallback of a richer color to the nearest one of a
//! poorer palette; and the SGR parameters that select a color as foreground
//! or background.

use crate::control::ColorLevel;
use crate::decimal::{
    decimal, decimal_string, is_sgr_params, lemma_decimal_is_sgr_params, lemma_sgr_params_join,
};
use crate::palette::{
    ansi16_palette, ansi256_palette, ansi256_to_rgb, first_index_of, is_nearest,
    lemma_ansi16_exact, lemma_ansi256_exact, nearest, nearest_ansi16, nearest_ansi256,
    repeats_lower_index, spec_ansi16_rgb, spec_ansi256_to_rgb,
};
use vstd::prelude::*;

verus! {

/// A color: one of the 8 standard colors, one of their 8 bright
/// counterparts, an index into the 256-color palette, or a 24-bit color.
#[derive(Clone, Copy, Debug, PartialEq, Eq, Structural, Hash)]
#[allow(missing_docs)]
pub enum Color {
    Black,
    Red,
    Green,
    Yellow,
    Blue,
    Magenta,
    Cyan,
    White,
    BrightBlack,
    BrightRed,
    BrightGreen,
    BrightYellow,
    BrightBlue,
    BrightMagenta,
    BrightCyan,
    BrightWhite,
    Ansi256 { idx: u8 },
    TrueColor { r: u8, g: u8, b: u8 },
}

/// The named color that entry `k` of the 16-color palette stands for.
pub open spec fn spec_ansi16_color(k: int) -> Color {
    if k == 0 {
        Color::Black
    } else if k == 1 {
        Color::Red
    } else if k == 2 {
        Color::Green
    } else if k == 3 {
        Color::Yellow
    } else if k == 4 {
        Color::Blue
    } else if k == 5 {
        Color::Magenta
    } else if k == 6 {
        Color::Cyan
    } else if k == 7 {
        Color::White
    } else if k == 8 {
        Color::BrightBlack
    } else if k == 9 {
        Color::BrightRed
    } else if k == 10 {
        Color::BrightGreen
    } else if k == 11 {
        Color::BrightYellow
    } else if k == 12 {
        Color::BrightBlue
    } else if k == 13 {
        Color::BrightMagenta
    } else if k == 14 {
        Color::BrightCyan
    } else {
        Color::BrightWhite
    }
}

/// The named color that entry `k` of the 16-color palette stands for.
pub fn ansi16_color(k: u8) -> (color: Color)
    ensures
        color == spec_ansi16_color(k as int),
{
    if k == 0 {
        Color::Black
    } else if k == 1 {
        Color::Red
    } else if k == 2 {
        Color::Green
    } else if k == 3 {
        Color::Yellow
    } else if k == 4 {
        Color::Blue
    } else if k == 5 {
        Color::Magenta
    } else if k == 6 {
        Color::Cyan
    } else if k == 7 {
        Color::White
    } else if k == 8 {
        Color::BrightBlack
    } else if k == 9 {
        Color::BrightRed
    } else if k == 10 {
        Color::BrightGreen
    } else if k == 11 {
        Color::BrightYellow
    } else if k == 12 {
        Color::BrightBlue
    } else if k == 13 {
        Color::BrightMagenta
    } else if k == 14 {
        Color::BrightCyan
    } else {
        Color::BrightWhite
    }
}

impl Color {
    /// Whether the color is one of the 16 named colors.
    pub open spec fn spec_is_named(self) -> bool {
        !(self is Ansi256) && !(self is TrueColor)
    }

    /// The entry of the 16-color palette that a named color stands at;
    /// 16 for a color that is not named.
    pub open spec fn spec_palette_index(self) -> int {
        match self {
            Color::Black => 0,
            Color::Red => 1,
            Color::Green => 2,
            Color::Yellow => 3,
            Color::Blue => 4,
            Color::Magenta => 5,
            Color::Cyan => 6,
            Color::White => 7,
            Color::BrightBlack => 8,
            Color::BrightRed => 9,
            Color::BrightGreen => 10,
            Color::BrightYellow => 11,
            Color::BrightBlue => 12,
            Color::BrightMagenta => 13,
            Color::BrightCyan => 14,
            Color::BrightWhite => 15,
            Color::Ansi256 { .. } => 16,
            Color::TrueColor { .. } => 16,
        }
    }

    /// An indexed color becomes the named color nearest to the RGB triple
    /// of its index; any other color stays as it is.
    pub open spec fn spec_ansi256_fallback_to_ansi16(self) -> Color {
        match self {
            Color::Ansi256 { idx } => spec_ansi16_color(
                nearest(ansi16_palette(), spec_ansi256_to_rgb(idx)),
            ),
            _ => self,
        }
    }

    /// A 24-bit color becomes the named color nearest to it; any other
    /// color stays as it is.
    pub open spec fn spec_truecolor_fallback_to_ansi16(self) -> Color {
        match self {
            Color::TrueColor { r, g, b } => spec_ansi16_color(nearest(ansi16_palette(), (r, g, b))),
            _ => self,
        }
    }

    /// A 24-bit color becomes the indexed color nearest to it; any other
    /// color stays as it is.
    pub open spec fn spec_truecolor_fallback_to_ansi256(self) -> Color {
        match self {
            Color::TrueColor { r, g, b } => Color::Ansi256 {
                idx: nearest(ansi256_palette(), (r, g, b)) as u8,
            },
            _ => self,
        }
    }

    /// The color that stands for `self` on an output of tier `level`.
    ///
    /// On the 16-color tier an indexed or 24-bit color falls back to a
    /// named color; on the 256-color tier a 24-bit color falls back to an
    /// indexed one. On the other two tiers, and for every color that the
    /// tier can show, the color stays as it is.
    pub open spec fn spec_degrade(self, level: ColorLevel) -> Color {
        match level {
            ColorLevel::Ansi16 => match self {
                Color::Ansi256 { .. } => self.spec_ansi256_fallback_to_ansi16(),
                Color::TrueColor { .. } => self.spec_truecolor_fallback_to_ansi16(),
                _ => self,
            },
            ColorLevel::Ansi256 => self.spec_truecolor_fallback_to_ansi256(),
            ColorLevel::TrueColor | ColorLevel::NoColor => self,
        }
    }

    /// The SGR parameters that select the color as foreground, at full
    /// fidelity.
    pub open spec fn spec_fg_params(self) -> Seq<char> {
        match self {
            Color::Black => "30"@,
            Color::Red => "31"@,
            Color::Green => "32"@,
            Color::Yellow => "33"@,
            Color::Blue => "34"@,
            Color::Magenta => "35"@,
            Color::Cyan => "36"@,
            Color::White => "37"@,
            Color::BrightBlack => "90"@,
            Color::BrightRed => "91"@,
            Color::BrightGreen => "92"@,
            Color::BrightYellow => "93"@,
            Color::BrightBlue => "94"@,
            Color::BrightMagenta => "95"@,
            Color::BrightCyan => "96"@,
            Color::BrightWhite => "97"@,
            Color::Ansi256 { idx } => "38;5;"@ + decimal(idx as nat),
            Color::TrueColor { r, g, b } => "38;2;"@ + decimal(r as nat) + ";"@ + decimal(g as nat)
                + ";"@ + decimal(b as nat),
        }
    }

    /// The SGR parameters that select the color as background, at full
    /// fidelity.
    pub open spec fn spec_bg_params(self) -> Seq<char> {
        match self {
            Color::Black => "40"@,
            Color::Red => "41"@,
            Color::Green => "42"@,
            Color::Yellow => "43"@,
            Color::Blue => "44"@,
            Color::Magenta => "45"@,
            Color::Cyan => "46"@,
            Color::White => "47"@,
            Color::BrightBlack => "100"@,
            Color::BrightRed => "101"@,
            Color::BrightGreen => "102"@,
            Color::BrightYellow => "103"@,
            Color::BrightBlue => "104"@,
            Color::BrightMagenta => "105"@,
            Color::BrightCyan => "106"@,
            Color::BrightWhite => "107"@,
            Color::Ansi256 { idx } => "48;5;"@ + decimal(idx as nat),
            Color::TrueColor { r, g, b } => "48;2;"@ + decimal(r as nat) + ";"@ + decimal(g as nat)
                + ";"@ + decimal(b as nat),
        }
    }

    /// The foreground parameters of the color on an output of tier `level`.
    pub open spec fn spec_to_fg_str(self, level: ColorLevel) -> Seq<char> {
        self.spec_degrade(level).spec_fg_params()
    }

    /// The background parameters of the color on an output of tier `level`.
    pub open spec fn spec_to_bg_str(self, level: ColorLevel) -> Seq<char> {
        self.spec_degrade(level).spec_bg_params()
    }

    /// Whether the color is one of the 16 named colors.
    pub fn is_named(self) -> (b: bool)
        ensures
            b == self.spec_is_named(),
    {
        match self {
            Color::Ansi256 { .. } => false,
            Color::TrueColor { .. } => false,
            _ => true,
        }
    }

    /// The foreground parameters of the color on an output of tier `level`:
    /// those of the color itself where the tier can show it, else those of
    /// the nearest color that the tier can show.
    #[must_use]
    pub fn to_fg_str(&self, level: ColorLevel) -> (s: String)
        ensures
            s@ == self.spec_to_fg_str(level),
    {
        match self.degrade(level) {
            Color::Black => String::from_str("30"),
            Color::Red => String::from_str("31"),
            Color::Green => String::from_str("32"),
            Color::Yellow => String::from_str("33"),
            Color::Blue => String::from_str("34"),
            Color::Magenta => String::from_str("35"),
            Color::Cyan => String::from_str("36"),
            Color::White => String::from_str("37"),
            Color::BrightBlack => String::from_str("90"),
            Color::BrightRed => String::from_str("91"),
            Color::BrightGreen => String::from_str("92"),
            Color::BrightYellow => String::from_str("93"),
            Color::BrightBlue => String::from_str("94"),
            Color::BrightMagenta => String::from_str("95"),
            Color::BrightCyan => String::from_str("96"),
            Color::BrightWhite => String::from_str("97"),
            Color::Ansi256 { idx } => {
                let mut s = String::from_str("38;5;");
                s.append(decimal_string(idx).as_str());
                s
            },
            Color::TrueColor { r, g, b } => {
                let mut s = String::from_str("38;2;");
                s.append(decimal_string(r).as_str());
                s.append(";");
                s.append(decimal_string(g).as_str());
                s.append(";");
                s.append(decimal_string(b).as_str());
                s
            },
        }
    }

    /// The background parameters of the color on an output of tier `level`:
    /// those of the color itself where the tier can show it, else those of
    /// the nearest color that the tier can show.
    #[must_use]
    pub fn to_bg_str(&self, level: ColorLevel) -> (s: String)
        ensures
            s@ == self.spec_to_bg_str(level),
    {
        match self.degrade(level) {
            Color::Black => String::from_str("40"),
            Color::Red => String::from_str("41"),
            Color::Green => String::from_str("42"),
            Color::Yellow => String::from_str("43"),
            Color::Blue => String::from_str("44"),
            Color::Magenta => String::from_str("45"),
            Color::Cyan => String::from_str("46"),
            Color::White => String::from_str("47"),
            Color::BrightBlack => String::from_str("100"),
            Color::BrightRed => String::from_str("101"),
            Color::BrightGreen => String::from_str("102"),
            Color::BrightYellow => String::from_str("103"),
            Color::BrightBlue => String::from_str("104"),
            Color::BrightMagenta => String::from_str("105"),
            Color::BrightCyan => String::from_str("106"),
            Color::BrightWhite => String::from_str("107"),
            Color::Ansi256 { idx } => {
                let mut s = String::from_str("48;5;");
                s.append(decimal_string(idx).as_str());
                s
            },
            Color::TrueColor { r, g, b } => {
                let mut s = String::from_str("48;2;");
                s.append(decimal_string(r).as_str());
                s.append(";");
                s.append(decimal_string(g).as_str());
                s.append(";");
                s.append(decimal_string(b).as_str());
                s
            },
        }
    }

    /// Converts an ANSI 256-color to the closest ANSI 16-color palette
    /// color: the first of the nearest by squared distance in RGB space.
    /// Any other color is returned as it is.
    #[must_use]
    pub fn ansi256_fallback_to_ansi16(self) -> (color: Color)
        ensures
            color == self.spec_ansi256_fallback_to_ansi16(),
            self matches Color::Ansi256 { idx } ==> color.spec_is_named() && is_nearest(
                ansi16_palette(),
                spec_ansi256_to_rgb(idx),
                color.spec_palette_index(),
            ),
    {
        match self {
            Color::Ansi256 { idx } => {
                let (r, g, b) = ansi256_to_rgb(idx);
                ansi16_color(nearest_ansi16(r, g, b))
            },
            _ => self,
        }
    }

    /// Converts a `TrueColor` to the closest ANSI 16-color palette color:
    /// the first of the nearest by squared distance in RGB space. Any other
    /// color is returned as it is.
    #[must_use]
    pub fn truecolor_fallback_to_ansi16(self) -> (color: Color)
        ensures
            color == self.spec_truecolor_fallback_to_ansi16(),
            self matches Color::TrueColor { r, g, b } ==> color.spec_is_named() && is_nearest(
                ansi16_palette(),
                (r, g, b),
                color.spec_palette_index(),
            ),
    {
        match self {
            Color::TrueColor { r, g, b } => ansi16_color(nearest_ansi16(r, g, b)),
            _ => self,
        }
    }

    /// Converts a `TrueColor` to the closest ANSI 256-color palette color:
    /// the lowest index of the nearest by squared distance in RGB space.
    /// Any other color is returned as it is.
    #[must_use]
    pub fn truecolor_fallback_to_ansi256(self) -> (color: Color)
        ensures
            color == self.spec_truecolor_fallback_to_ansi256(),
            self matches Color::TrueColor { r, g, b } ==> color is Ansi256 && is_nearest(
                ansi256_palette(),
                (r, g, b),
                color->idx as int,
            ),
    {
        match self {
            Color::TrueColor { r, g, b } => Color::Ansi256 { idx: nearest_ansi256(r, g, b) },
            _ => self,
        }
    }

    /// The color that stands for `self` on an output of tier `level`.
    #[must_use]
    pub fn degrade(self, level: ColorLevel) -> (color: Color)
        ensures
            color == self.spec_degrade(level),
    {
        match level {
            ColorLevel::Ansi16 => match self {
                Color::Ansi256 { .. } => self.ansi256_fallback_to_ansi16(),
                Color::TrueColor { .. } => self.truecolor_fallback_to_ansi16(),
                _ => self,
            },
            ColorLevel::Ansi256 => self.truecolor_fallback_to_ansi256(),
            ColorLevel::TrueColor | ColorLevel::NoColor => self,
        }
    }
}

impl Color {
    /// Whether an output of tier `level` shows the color as it is.
    ///
    /// A named color is shown on every tier. An indexed color is shown on
    /// every tier but the 16-color one, and a 24-bit color on the richest
    /// tier. On the tier without color nothing is converted, so every color
    /// counts as shown there.
    pub open spec fn spec_fits(self, level: ColorLevel) -> bool {
        match self {
            Color::Ansi256 { .. } => level != ColorLevel::Ansi16,
            Color::TrueColor { .. } => level == ColorLevel::TrueColor || level
                == ColorLevel::NoColor,
            _ => true,
        }
    }

    /// Whether an output of tier `level` shows the color as it is.
    pub fn fits(self, level: ColorLevel) -> (b: bool)
        ensures
            b == self.spec_fits(level),
    {
        match self {
            Color::Ansi256 { .. } => match level {
                ColorLevel::Ansi16 => false,
                _ => true,
            },
            Color::TrueColor { .. } => match level {
                ColorLevel::TrueColor | ColorLevel::NoColor => true,
                _ => false,
            },
            _ => true,
        }
    }
}

/// The named colors and the entries of the 16-color palette stand for one
/// another, one to one.
pub proof fn lemma_palette_index_inverse(color: Color, k: int)
    ensures
        color.spec_is_named() ==> 0 <= color.spec_palette_index() < 16 && spec_ansi16_color(
            color.spec_palette_index(),
        ) == color,
        0 <= k < 16 ==> spec_ansi16_color(k).spec_is_named() && spec_ansi16_color(
            k,
        ).spec_palette_index() == k,
{
}

/// A named color is never converted: on every tier it is rendered with its
/// own fixed parameters, as foreground and as background.
pub proof fn lemma_named_is_rendered_as_is(color: Color, level: ColorLevel)
    requires
        color.spec_is_named(),
    ensures
        color.spec_degrade(level) == color,
        color.spec_to_fg_str(level) == color.spec_fg_params(),
        color.spec_to_bg_str(level) == color.spec_bg_params(),
{
}

/// Each fallback to the 16-color palette gives a named color, unless it is
/// handed a color that it leaves alone.
pub proof fn lemma_fallback_to_ansi16_is_named(color: Color)
    ensures
        color is Ansi256 ==> color.spec_ansi256_fallback_to_ansi16().spec_is_named(),
        color is TrueColor ==> color.spec_truecolor_fallback_to_ansi16().spec_is_named(),
        color is TrueColor ==> color.spec_truecolor_fallback_to_ansi256() is Ansi256,
{
}

/// What a tier is given in place of a color is a color that the tier shows,
/// and a color that the tier shows already is given as it is.
pub proof fn lemma_degrade_fits(color: Color, level: ColorLevel)
    ensures
        color.spec_degrade(level).spec_fits(level),
        color.spec_fits(level) ==> color.spec_degrade(level) == color,
{
}

/// Converting a color that was converted for the same tier already changes
/// nothing, and neither does any of the three fallbacks applied a second
/// time.
pub proof fn lemma_degrade_idempotent(color: Color, level: ColorLevel)
    ensures
        color.spec_degrade(level).spec_degrade(level) == color.spec_degrade(level),
        color.spec_ansi256_fallback_to_ansi16().spec_ansi256_fallback_to_ansi16()
            == color.spec_ansi256_fallback_to_ansi16(),
        color.spec_truecolor_fallback_to_ansi16().spec_truecolor_fallback_to_ansi16()
            == color.spec_truecolor_fallback_to_ansi16(),
        color.spec_truecolor_fallback_to_ansi256().spec_truecolor_fallback_to_ansi256()
            == color.spec_truecolor_fallback_to_ansi256(),
{
}

/// The fallbacks leave every color alone that is named already.
pub proof fn lemma_fallback_keeps_named(color: Color)
    requires
        color.spec_is_named(),
    ensures
        color.spec_ansi256_fallback_to_ansi16() == color,
        color.spec_truecolor_fallback_to_ansi16() == color,
        color.spec_truecolor_fallback_to_ansi256() == color,
{
}

/// The 24-bit color with the reference triple of a named color falls back
/// to that named color, and so does the indexed color below 16 that stands
/// for it.
pub proof fn lemma_reference_color_falls_back_to_itself(color: Color)
    requires
        color.spec_is_named(),
    ensures
        ({
            let (r, g, b) = spec_ansi16_rgb(color.spec_palette_index());
            (Color::TrueColor { r, g, b }).spec_truecolor_fallback_to_ansi16() == color
        }),
        (Color::Ansi256 {
            idx: color.spec_palette_index() as u8,
        }).spec_ansi256_fallback_to_ansi16() == color,
{
    lemma_ansi16_exact(color.spec_palette_index());
}

/// The 24-bit color with the triple of an index of the 256-color palette
/// falls back to the lowest index with that triple: to the index itself,
/// but for the nine indices that repeat a triple of the 16-color palette.
pub proof fn lemma_indexed_color_falls_back_to_itself(idx: u8)
    ensures
        ({
            let (r, g, b) = spec_ansi256_to_rgb(idx);
            &&& (Color::TrueColor { r, g, b }).spec_truecolor_fallback_to_ansi256()
                == (Color::Ansi256 { idx: first_index_of(idx) })
            &&& !repeats_lower_index(idx) ==> (Color::TrueColor {
                r,
                g,
                b,
            }).spec_truecolor_fallback_to_ansi256() == (Color::Ansi256 { idx })
        }),
{
    lemma_ansi256_exact(idx);
}

/// The parameters that select an indexed or a 24-bit color: the two
/// numbers of `lead`, then `tail`, with a `;` between each two.
proof fn lemma_extended_params(lead: Seq<char>, first: char, second: char, mode: char, tail: Seq<char>)
    requires
        lead == seq![first, second, ';', mode, ';'],
        '0' <= first <= '9',
        '0' <= second <= '9',
        '0' <= mode <= '9',
        is_sgr_params(tail),
    ensures
        is_sgr_params(lead + tail),
{
    let head = seq![first, second];
    let kind = seq![mode];
    lemma_sgr_params_join(head, kind);
    lemma_sgr_params_join(head.push(';') + kind, tail);
    assert(lead + tail =~= (head.push(';') + kind).push(';') + tail);
}

/// Every color has parameters at full fidelity, as foreground and as
/// background: one or more decimal numbers with a `;` between each two.
pub proof fn lemma_params_are_well_formed(color: Color)
    ensures
        is_sgr_params(color.spec_fg_params()),
        is_sgr_params(color.spec_bg_params()),
{
    reveal_strlit("30");
    reveal_strlit("31");
    reveal_strlit("32");
    reveal_strlit("33");
    reveal_strlit("34");
    reveal_strlit("35");
    reveal_strlit("36");
    reveal_strlit("37");
    reveal_strlit("90");
    reveal_strlit("91");
    reveal_strlit("92");
    reveal_strlit("93");
    reveal_strlit("94");
    reveal_strlit("95");
    reveal_strlit("96");
    reveal_strlit("97");
    reveal_strlit("40");
    reveal_strlit("41");
    reveal_strlit("42");
    reveal_strlit("43");
    reveal_strlit("44");
    reveal_strlit("45");
    reveal_strlit("46");
    reveal_strlit("47");
    reveal_strlit("100");
    reveal_strlit("101");
    reveal_strlit("102");
    reveal_strlit("103");
    reveal_strlit("104");
    reveal_strlit("105");
    reveal_strlit("106");
    reveal_strlit("107");
    reveal_strlit("38;5;");
    reveal_strlit("48;5;");
    reveal_strlit("38;2;");
    reveal_strlit("48;2;");
    reveal_strlit(";");
    match color {
        Color::Ansi256 { idx } => {
            lemma_decimal_is_sgr_params(idx as nat);
            assert("38;5;"@ =~= seq!['3', '8', ';', '5', ';']);
            assert("48;5;"@ =~= seq!['4', '8', ';', '5', ';']);
            lemma_extended_params("38;5;"@, '3', '8', '5', decimal(idx as nat));
            lemma_extended_params("48;5;"@, '4', '8', '5', decimal(idx as nat));
        },
        Color::TrueColor { r, g, b } => {
            lemma_decimal_is_sgr_params(r as nat);
            lemma_decimal_is_sgr_params(g as nat);
            lemma_decimal_is_sgr_params(b as nat);
            let green_blue = decimal(g as nat).push(';') + decimal(b as nat);
            let all = decimal(r as nat).push(';') + green_blue;
            lemma_sgr_params_join(decimal(g as nat), decimal(b as nat));
            lemma_sgr_params_join(decimal(r as nat), green_blue);
            assert(";"@ =~= seq![';']);
            assert("38;2;"@ =~= seq!['3', '8', ';', '2', ';']);
            assert("48;2;"@ =~= seq!['4', '8', ';', '2', ';']);
            lemma_extended_params("38;2;"@, '3', '8', '2', all);
            lemma_extended_params("48;2;"@, '4', '8', '2', all);
            assert(color.spec_fg_params() =~= "38;2;"@ + all);
            assert(color.spec_bg_params() =~= "48;2;"@ + all);
        },
        _ => {},
    }
}

/// On every tier every color is rendered, as foreground and as background,
/// to a well-formed list of parameters.
pub proof fn lemma_rendering_is_well_formed(color: Color, level: ColorLevel)
    ensures
        is_sgr_params(color.spec_to_fg_str(level)),
        is_sgr_params(color.spec_to_bg_str(level)),
{
    lemma_params_are_well_formed(color.spec_degrade(level));
}

} // verus!
