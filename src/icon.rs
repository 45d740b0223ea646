use vstd::prelude::*;
use vstd::string::*;

verus! {

/// The glyph shown for a weather condition.
#[derive(Clone, Copy, Debug, PartialEq, Eq, Structural)]
pub enum Glyph {
    Sunny,
    Night,
    PartlyCloudy,
    Cloudy,
    Rain,
    Drizzle,
    Storm,
    Snow,
    Foggy,
    Unknown,
}

/// The glyph that a provider condition code stands for. Codes are three
/// characters long; anything that is not a known code is `Unknown`.
pub open spec fn glyph_for(code: Seq<char>) -> Glyph {
    if code.len() != 3 {
        Glyph::Unknown
    } else {
        match (code[0], code[1], code[2]) {
            ('0', '1', 'd') => Glyph::Sunny,
            ('0', '1', 'n') => Glyph::Night,
            ('0', '2', 'd') | ('0', '2', 'n') => Glyph::PartlyCloudy,
            ('0', '3', 'd') | ('0', '3', 'n') | ('0', '4', 'd') | ('0', '4', 'n') => Glyph::Cloudy,
            ('0', '9', 'd') | ('0', '9', 'n') => Glyph::Rain,
            // Both "10d" and "10b" stand for drizzle.
            ('1', '0', 'd') | ('1', '0', 'b') => Glyph::Drizzle,
            ('1', '1', 'd') | ('1', '1', 'n') => Glyph::Storm,
            ('1', '3', 'd') | ('1', '3', 'n') => Glyph::Snow,
            ('5', '0', 'd') | ('5', '0', 'n') => Glyph::Foggy,
            _ => Glyph::Unknown,
        }
    }
}

impl Glyph {
    /// The text drawn for the glyph, in the display font.
    pub open spec fn text(self) -> Seq<char> {
        match self {
            Glyph::Sunny => seq!['\u{f0599}'],
            Glyph::Night => seq!['\u{f0594}'],
            Glyph::PartlyCloudy => seq!['\u{f0595}'],
            Glyph::Cloudy => seq!['\u{f0590}'],
            Glyph::Rain => seq!['\u{f0597}'],
            Glyph::Drizzle => seq!['\u{e304}'],
            Glyph::Storm => seq!['\u{e31c}'],
            Glyph::Snow => seq!['\u{f0598}'],
            Glyph::Foggy => seq!['\u{f0591}'],
            Glyph::Unknown => seq!['X'],
        }
    }

    pub fn symbol(&self) -> (r: &'static str)
        ensures
            r@ == self.text(),
    {
        proof {
            reveal_strlit("\u{f0599}");
            reveal_strlit("\u{f0594}");
            reveal_strlit("\u{f0595}");
            reveal_strlit("\u{f0590}");
            reveal_strlit("\u{f0597}");
            reveal_strlit("\u{e304}");
            reveal_strlit("\u{e31c}");
            reveal_strlit("\u{f0598}");
            reveal_strlit("\u{f0591}");
            reveal_strlit("X");
        }
        match self {
            Glyph::Sunny => "\u{f0599}",
            Glyph::Night => "\u{f0594}",
            Glyph::PartlyCloudy => "\u{f0595}",
            Glyph::Cloudy => "\u{f0590}",
            Glyph::Rain => "\u{f0597}",
            Glyph::Drizzle => "\u{e304}",
            Glyph::Storm => "\u{e31c}",
            Glyph::Snow => "\u{f0598}",
            Glyph::Foggy => "\u{f0591}",
            Glyph::Unknown => "X",
        }
    }
}

/// Resolves a provider condition code to its glyph; unknown codes give
/// `Glyph::Unknown`.
pub fn resolve(code: &str) -> (r: Glyph)
    ensures
        r == glyph_for(code@),
{
    if code.unicode_len() != 3 {
        return Glyph::Unknown;
    }
    let a = code.get_char(0);
    let b = code.get_char(1);
    let c = code.get_char(2);
    match (a, b, c) {
        ('0', '1', 'd') => Glyph::Sunny,
        ('0', '1', 'n') => Glyph::Night,
        ('0', '2', 'd') | ('0', '2', 'n') => Glyph::PartlyCloudy,
        ('0', '3', 'd') | ('0', '3', 'n') | ('0', '4', 'd') | ('0', '4', 'n') => Glyph::Cloudy,
        ('0', '9', 'd') | ('0', '9', 'n') => Glyph::Rain,
        ('1', '0', 'd') | ('1', '0', 'b') => Glyph::Drizzle,
        ('1', '1', 'd') | ('1', '1', 'n') => Glyph::Storm,
        ('1', '3', 'd') | ('1', '3', 'n') => Glyph::Snow,
        ('5', '0', 'd') | ('5', '0', 'n') => Glyph::Foggy,
        _ => Glyph::Unknown,
    }
}

/// The glyph text for a provider condition code.
pub fn get_icon(cond: &String) -> (r: String)
    ensures
        r@ == glyph_for(cond@).text(),
{
    let glyph = resolve(cond.as_str());
    String::from_str(glyph.symbol())
}

} // verus!
