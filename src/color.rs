use vstd::prelude::*;

verus! {

/// A named terminal colour used by the diagram themes.
#[derive(Clone, Copy, Debug, PartialEq, Eq, Structural)]
pub enum Color {
    Red,
    Blue,
    Green,
    Yellow,
    Magenta,
    Cyan,
    White,
    Black,
}

impl Color {
    /// The lower-case name of the colour.
    pub open spec fn name(self) -> Seq<char> {
        match self {
            Color::Red => "red"@,
            Color::Blue => "blue"@,
            Color::Green => "green"@,
            Color::Yellow => "yellow"@,
            Color::Magenta => "magenta"@,
            Color::Cyan => "cyan"@,
            Color::White => "white"@,
            Color::Black => "black"@,
        }
    }

    /// Converts a colour to its lower-case name.
    pub fn to_string(&self) -> (r: &'static str)
        ensures
            r@ == self.name(),
    {
        match self {
            Color::Red => "red",
            Color::Blue => "blue",
            Color::Green => "green",
            Color::Yellow => "yellow",
            Color::Magenta => "magenta",
            Color::Cyan => "cyan",
            Color::White => "white",
            Color::Black => "black",
        }
    }
}

} // verus!
