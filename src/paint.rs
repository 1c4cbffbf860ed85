use vstd::prelude::*;
use vstd::string::*;
use colored::Colorize;
use crate::frame::WebSocketFrame;
use crate::render::{spans, Cell, Span};

verus! {

/// The eight colour names that the diagram uses.
pub open spec fn basic_color_name(name: Seq<char>) -> bool {
    name == "black"@ || name == "red"@ || name == "green"@ || name == "yellow"@ || name == "blue"@
        || name == "magenta"@ || name == "cyan"@ || name == "white"@
}

/// The ANSI foreground code of a basic colour name.
pub open spec fn ansi_fg_code(name: Seq<char>) -> Seq<char> {
    if name == "black"@ {
        "30"@
    } else if name == "red"@ {
        "31"@
    } else if name == "green"@ {
        "32"@
    } else if name == "yellow"@ {
        "33"@
    } else if name == "blue"@ {
        "34"@
    } else if name == "magenta"@ {
        "35"@
    } else if name == "cyan"@ {
        "36"@
    } else {
        "37"@
    }
}

/// The escape code that ends a colour.
pub open spec fn ansi_reset() -> Seq<char> {
    seq!['\u{1b}', '[', '0', 'm']
}

/// The escape code that starts the colour `name`.
pub open spec fn ansi_style(name: Seq<char>) -> Seq<char> {
    seq!['\u{1b}', '['] + ansi_fg_code(name) + seq!['m']
}

/// `t` with `style` put back after every reset code in it, so that an inner reset
/// does not end the outer colour.
pub open spec fn reset_escaped(t: Seq<char>, style: Seq<char>) -> Seq<char>
    decreases t.len(),
{
    if t.len() == 0 {
        Seq::empty()
    } else if t.len() >= 4 && t.take(4) == ansi_reset() {
        ansi_reset() + style + reset_escaped(t.skip(4), style)
    } else {
        seq![t[0]] + reset_escaped(t.skip(1), style)
    }
}

/// `text` drawn in the colour `name` on a terminal: the colour's escape code, the
/// text, and the reset code.
pub open spec fn ansi_painted(text: Seq<char>, name: Seq<char>) -> Seq<char> {
    ansi_style(name) + reset_escaped(text, ansi_style(name)) + ansi_reset()
}

/// Relies on colored's `Colorize::color` on a `&str` (the colour parsed from its
/// name) and on `ColoredString`'s `Display`: with colouring off (by the environment
/// or an override) the text comes back as it is; with it on, it comes framed by
/// the colour's foreground code and the reset code, with the colour restored after
/// any reset inside it. `Display` reads the colouring setting more than once, so
/// this holds while no other thread changes colored's override during the call.
#[verifier::external_body]
fn paint(text: &str, color_name: &str) -> (r: String)
    requires
        basic_color_name(color_name@),
    ensures
        r@ == text@ || r@ == ansi_painted(text@, color_name@),
{
    text.color(color_name).to_string()
}

/// What drawing one span may write: its text, or for a coloured span the text
/// framed by its colour's escape codes.
pub open spec fn span_drawn(s: Span, out: Seq<char>) -> bool {
    match s.1 {
        None => out == s.0,
        Some(c) => out == s.0 || out == ansi_painted(s.0, c.name()),
    }
}

/// The texts of `parts`, one after the other.
pub open spec fn joined(parts: Seq<Seq<char>>) -> Seq<char>
    decreases parts.len(),
{
    if parts.len() == 0 {
        Seq::empty()
    } else {
        joined(parts.drop_last()) + parts.last()
    }
}

/// `out` is the spans of `s` drawn one after the other.
pub open spec fn drawn(s: Seq<Span>, out: Seq<char>) -> bool {
    exists|parts: Seq<Seq<char>>|
        parts.len() == s.len() && (forall|i: int| 0 <= i < s.len() ==> span_drawn(#[trigger] s[i], parts[i]))
            && out == joined(parts)
}

/// Draws the cells one after the other, each in its colour where the terminal
/// colours text.
pub fn paint_cells(cells: &Vec<Cell>) -> (r: String)
    ensures
        drawn(spans(cells@), r@),
{
    let mut r = String::new();
    let ghost mut parts: Seq<Seq<char>> = Seq::empty();
    let mut i: usize = 0;
    while i < cells.len()
        invariant
            i <= cells@.len(),
            parts.len() == i,
            forall|j: int| 0 <= j < i ==> span_drawn(#[trigger] spans(cells@)[j], parts[j]),
            r@ == joined(parts),
        decreases cells@.len() - i,
    {
        let cell = &cells[i];
        let part = match cell.color {
            None => String::from_str(cell.text.as_str()),
            Some(c) => paint(cell.text.as_str(), c.to_string()),
        };
        r.append(part.as_str());
        proof {
            let old_parts = parts;
            parts = parts.push(part@);
            assert(parts.drop_last() =~= old_parts);
        }
        i = i + 1;
    }
    r
}

impl<'a> WebSocketFrame<'a> {
    /// Formats the frame as a diagram, coloured where the terminal colours text.
    pub fn format(&self) -> (r: String)
        requires
            self.wf(),
        ensures
            drawn(self.diagram_spans(), r@),
    {
        paint_cells(&self.format_cells())
    }
}

} // verus!
