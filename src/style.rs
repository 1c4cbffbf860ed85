use vstd::prelude::*;
use crate::color::Color;

verus! {

/// The colours a diagram is drawn with, one per kind of text.
#[derive(Clone, Copy, Debug, PartialEq, Eq, Structural)]
pub struct FormatStyle {
    pub border_color: Color,
    pub tick_mark_color: Color,
    pub title_color: Color,
    pub column_title_color: Color,
    pub dword_title_color: Color,
    pub notes_color: Color,
    pub bit_color: Color,
    pub unmasked_payload_bit_color: Color,
    pub byte_value_color: Color,
    pub data_value_color: Color,
    pub summary_title_color: Color,
    pub summary_value_color: Color,
}

impl FormatStyle {
    /// The default theme.
    pub open spec fn default_theme() -> FormatStyle {
        FormatStyle {
            border_color: Color::Cyan,
            tick_mark_color: Color::Green,
            title_color: Color::White,
            column_title_color: Color::Green,
            dword_title_color: Color::Green,
            notes_color: Color::Magenta,
            bit_color: Color::White,
            unmasked_payload_bit_color: Color::Yellow,
            byte_value_color: Color::Blue,
            data_value_color: Color::Red,
            summary_title_color: Color::Magenta,
            summary_value_color: Color::Red,
        }
    }

    /// The default theme: cyan borders, green tick marks and titles, white bits,
    /// yellow unmasked bits, blue byte values, red data values, magenta notes.
    pub fn new() -> (r: FormatStyle)
        ensures
            r == Self::default_theme(),
    {
        FormatStyle {
            border_color: Color::Cyan,
            tick_mark_color: Color::Green,
            title_color: Color::White,
            column_title_color: Color::Green,
            dword_title_color: Color::Green,
            notes_color: Color::Magenta,
            bit_color: Color::White,
            unmasked_payload_bit_color: Color::Yellow,
            byte_value_color: Color::Blue,
            data_value_color: Color::Red,
            summary_title_color: Color::Magenta,
            summary_value_color: Color::Red,
        }
    }
}

} // verus!
