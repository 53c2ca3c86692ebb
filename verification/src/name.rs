//! Colors by name: the 16 canonical names, matched without regard to case,
//! with "purple" as a second name for magenta.

use crate::color::Color;
use vstd::prelude::*;

verus! {

/// What `str::to_lowercase` makes of a string: its lowercase equivalent by
/// the Unicode rules that the standard library carries.
pub uninterp spec fn lowercase(src: Seq<char>) -> Seq<char>;

/// Calls `str::to_lowercase`. The contract only gives the result its name,
/// `lowercase`: the conversion depends on nothing but the characters of
/// `src`, and the tables behind it are not restated here.
#[verifier::external_body]
fn to_lowercase(src: &str) -> (lower: String)
    ensures
        lower@ == lowercase(src@),
{
    src.to_lowercase()
}

/// The color that a name in lower case stands for, if it is one of the 16
/// canonical names or "purple".
pub open spec fn spec_from_lowercase_name(name: Seq<char>) -> Option<Color> {
    if name == "black"@ {
        Some(Color::Black)
    } else if name == "red"@ {
        Some(Color::Red)
    } else if name == "green"@ {
        Some(Color::Green)
    } else if name == "yellow"@ {
        Some(Color::Yellow)
    } else if name == "blue"@ {
        Some(Color::Blue)
    } else if name == "magenta"@ || name == "purple"@ {
        Some(Color::Magenta)
    } else if name == "cyan"@ {
        Some(Color::Cyan)
    } else if name == "white"@ {
        Some(Color::White)
    } else if name == "bright black"@ {
        Some(Color::BrightBlack)
    } else if name == "bright red"@ {
        Some(Color::BrightRed)
    } else if name == "bright green"@ {
        Some(Color::BrightGreen)
    } else if name == "bright yellow"@ {
        Some(Color::BrightYellow)
    } else if name == "bright blue"@ {
        Some(Color::BrightBlue)
    } else if name == "bright magenta"@ {
        Some(Color::BrightMagenta)
    } else if name == "bright cyan"@ {
        Some(Color::BrightCyan)
    } else if name == "bright white"@ {
        Some(Color::BrightWhite)
    } else {
        None
    }
}

/// The color that a name in lower case stands for, and white for a string
/// that stands for none.
pub open spec fn spec_from_lowercase_name_or_white(lower: Seq<char>) -> Color {
    match spec_from_lowercase_name(lower) {
        Some(color) => color,
        None => Color::White,
    }
}

/// The color that a name stands for, whatever its case, and white for a
/// name that stands for none.
pub open spec fn spec_from_name(src: Seq<char>) -> Color {
    spec_from_lowercase_name_or_white(lowercase(src))
}

/// Whether `candidate` is the name `name`.
fn is_name(candidate: &String, name: &str) -> (b: bool)
    ensures
        b == (candidate@ == name@),
{
    let wanted = String::from_str(name);
    *candidate == wanted
}

impl Color {
    /// The color that a name in lower case stands for: one of the 16
    /// canonical names, or "purple" for magenta. Any other string, a
    /// canonical name in another case included, gives `None`.
    pub fn from_lowercase_name(name: &str) -> (color: Option<Color>)
        ensures
            color == spec_from_lowercase_name(name@),
    {
        let name = String::from_str(name);
        if is_name(&name, "black") {
            Some(Color::Black)
        } else if is_name(&name, "red") {
            Some(Color::Red)
        } else if is_name(&name, "green") {
            Some(Color::Green)
        } else if is_name(&name, "yellow") {
            Some(Color::Yellow)
        } else if is_name(&name, "blue") {
            Some(Color::Blue)
        } else if is_name(&name, "magenta") || is_name(&name, "purple") {
            Some(Color::Magenta)
        } else if is_name(&name, "cyan") {
            Some(Color::Cyan)
        } else if is_name(&name, "white") {
            Some(Color::White)
        } else if is_name(&name, "bright black") {
            Some(Color::BrightBlack)
        } else if is_name(&name, "bright red") {
            Some(Color::BrightRed)
        } else if is_name(&name, "bright green") {
            Some(Color::BrightGreen)
        } else if is_name(&name, "bright yellow") {
            Some(Color::BrightYellow)
        } else if is_name(&name, "bright blue") {
            Some(Color::BrightBlue)
        } else if is_name(&name, "bright magenta") {
            Some(Color::BrightMagenta)
        } else if is_name(&name, "bright cyan") {
            Some(Color::BrightCyan)
        } else if is_name(&name, "bright white") {
            Some(Color::BrightWhite)
        } else {
            None
        }
    }

    /// The color that a name in lower case stands for, and white for any
    /// string that stands for none: an unknown name is no failure.
    pub fn from_lowercase_name_or_white(lower: &str) -> (color: Color)
        ensures
            color == match spec_from_lowercase_name(lower@) {
                Some(c) => c,
                None => Color::White,
            },
    {
        match Color::from_lowercase_name(lower) {
            Some(color) => color,
            None => Color::White,
        }
    }

    /// The color that a name stands for, whatever its case, and white for a
    /// name that stands for none.
    pub fn from_name(src: &str) -> (color: Color)
        ensures
            color == spec_from_name(src@),
    {
        let lower = to_lowercase(src);
        Color::from_lowercase_name_or_white(lower.as_str())
    }
}

impl std::str::FromStr for Color {
    type Err = ();

    /// The color that a name stands for, whatever its case. Parsing never
    /// fails: a name that stands for no color gives white.
    fn from_str(src: &str) -> (parsed: Result<Self, ()>)
        ensures
            parsed == Ok::<Color, ()>(spec_from_name(src@)),
    {
        let lower = to_lowercase(src);
        Ok(Color::from_lowercase_name_or_white(lower.as_str()))
    }
}

impl<'a> From<&'a str> for Color {
    fn from(src: &'a str) -> (color: Self) {
        let lower = to_lowercase(src);
        Color::from_lowercase_name_or_white(lower.as_str())
    }
}

impl<'a> vstd::std_specs::convert::FromSpecImpl<&'a str> for Color {
    open spec fn obeys_from_spec() -> bool {
        true
    }

    open spec fn from_spec(src: &'a str) -> Self {
        spec_from_name(src@)
    }
}

impl From<String> for Color {
    fn from(src: String) -> (color: Self) {
        let lower = to_lowercase(src.as_str());
        Color::from_lowercase_name_or_white(lower.as_str())
    }
}

impl vstd::std_specs::convert::FromSpecImpl<String> for Color {
    open spec fn obeys_from_spec() -> bool {
        true
    }

    open spec fn from_spec(src: String) -> Self {
        spec_from_name(src@)
    }
}

/// A name in lower case that stands for a color stands for a named color,
/// and "purple" stands for the same color as "magenta".
pub proof fn lemma_names_are_named(name: Seq<char>)
    ensures
        spec_from_lowercase_name(name) matches Some(color) ==> color.spec_is_named(),
        spec_from_lowercase_name("purple"@) == Some(Color::Magenta),
        spec_from_lowercase_name("magenta"@) == Some(Color::Magenta),
{
    reveal_strlit("black");
    reveal_strlit("red");
    reveal_strlit("green");
    reveal_strlit("yellow");
    reveal_strlit("blue");
    reveal_strlit("magenta");
    reveal_strlit("purple");
    assert("purple"@.len() == 6 && "magenta"@.len() == 7);
    assert("black"@.len() == 5 && "red"@.len() == 3 && "green"@.len() == 5);
    assert("blue"@.len() == 4 && "yellow"@.len() == 6);
    assert("purple"@[0] == 'p' && "yellow"@[0] == 'y');
}

/// Every string stands for a color: the one that its lower case form
/// names, and white where that form names none. The color is always one of
/// the 16 named.
pub proof fn lemma_from_name_total(src: Seq<char>)
    ensures
        spec_from_lowercase_name(lowercase(src)) matches Some(color) ==> spec_from_name(src)
            == color,
        spec_from_lowercase_name(lowercase(src)) is None ==> spec_from_name(src) == Color::White,
        spec_from_name(src).spec_is_named(),
{
}

/// Two names with the same lower case form stand for the same color.
pub proof fn lemma_same_lowercase_same_color(a: Seq<char>, b: Seq<char>)
    requires
        lowercase(a) == lowercase(b),
    ensures
        spec_from_name(a) == spec_from_name(b),
{
}

} // verus!
