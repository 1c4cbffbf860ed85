use vstd::prelude::*;
use vstd::string::*;
use crate::bits::bits_text;
use crate::color::Color;
use crate::diagram::{put_row_error, row_error_text, row_start, row_start_blank};
use crate::frame::{PayloadLength, WebSocketFrame};
use crate::header::{
    line_close, put_border_line, put_center, put_colored, put_line_close, put_row_start,
    put_row_start_blank,
};
use crate::render::{
    bar, char_cell, col, nl, put_bar, put_bits, put_char, put_nl, put_sp, put_value, sp, spans,
    value_cell, Cell, Span,
};
use crate::style::FormatStyle;
use crate::text::align_center;

verus! {

/// The marker that stands in for payload byte `i`, past the end of the payload.
pub open spec fn missing_byte(i: int) -> Span {
    (row_error_text(i as nat, (i + 1) as nat), None)
}

/// The bits of payload byte `i` of `s`, or the marker where `s` is shorter.
pub open spec fn bits_or_marker(s: Seq<u8>, i: int, c: Color) -> Span {
    if i < s.len() {
        col(bits_text(s[i], 8), c)
    } else {
        missing_byte(i)
    }
}

/// The value of payload byte `i` of `s`, or the marker where `s` is shorter.
pub open spec fn value_or_marker(st: FormatStyle, s: Seq<u8>, i: int) -> Span {
    if i < s.len() {
        value_cell(st, s[i])
    } else {
        missing_byte(i)
    }
}

/// The preview of payload byte `i`, or the marker where `s` is shorter.
pub open spec fn char_or_marker(st: FormatStyle, s: Seq<char>, i: int) -> Span {
    if i < s.len() {
        char_cell(st, s[i])
    } else {
        missing_byte(i)
    }
}

/// Column `i` of the second row's bit line: the rest of the masking key and the
/// first payload bytes, the masking key, or the middle length bytes.
pub open spec fn second_row_cell(f: WebSocketFrame, i: int) -> Span {
    let c = f.format_style.bit_color;
    match f.payload_length {
        PayloadLength::Short(_) => if i < 2 {
            col(bits_text(f.masking_key@[i + 2], 8), c)
        } else {
            bits_or_marker(f.masked_payload@, i - 2, c)
        },
        PayloadLength::Medium(_) => col(bits_text(f.masking_key@[i], 8), c),
        PayloadLength::Long(_) => col(bits_text(f.payload_length_bytes@[i + 2], 8), c),
    }
}

/// The second row's bit line.
pub open spec fn second_row_line1(f: WebSocketFrame) -> Seq<Span> {
    let st = f.format_style;
    row_start(st, "DWORD"@) + seq![
        second_row_cell(f, 0), bar(st), second_row_cell(f, 1), bar(st),
        second_row_cell(f, 2), bar(st), second_row_cell(f, 3), bar(st), nl(),
    ]
}

/// The masked values of the first two payload bytes, under a `MASKED` label.
pub open spec fn folded_masked_values(st: FormatStyle, m: Seq<u8>) -> Seq<Span> {
    seq![
        sp(31), bar(st), sp(1), value_or_marker(st, m, 0), sp(6), col("MASKED"@, st.notes_color),
        sp(2), value_or_marker(st, m, 1), sp(6),
    ]
}

/// Two empty half-row columns.
pub open spec fn empty_halves(st: FormatStyle) -> Seq<Span> {
    seq![sp(31), bar(st), sp(31)]
}

/// The second row's second line: the row number, and the masked values where
/// payload bytes are shown.
pub open spec fn second_row_line2(f: WebSocketFrame) -> Seq<Span> {
    let st = f.format_style;
    row_start(st, "2"@) + match f.payload_length {
        PayloadLength::Short(_) => folded_masked_values(st, f.masked_payload@),
        _ => empty_halves(st),
    } + line_close(st)
}

/// Two half-row notes.
pub open spec fn two_notes(st: FormatStyle, a: Seq<char>, b: Seq<char>) -> Seq<Span> {
    seq![
        col(align_center(a, 31), st.notes_color), bar(st), col(align_center(b, 31), st.notes_color),
    ]
}

/// A half-row note beside the unmasked bits of the first two payload bytes.
pub open spec fn folded_unmasked_bits(st: FormatStyle, u: Seq<u8>) -> Seq<Span> {
    seq![
        col(align_center("Masking-key (part 2)"@, 31), st.notes_color), bar(st),
        bits_or_marker(u, 0, st.unmasked_payload_bit_color), bar(st),
        bits_or_marker(u, 1, st.unmasked_payload_bit_color),
    ]
}

/// The second row's third line.
pub open spec fn second_row_line3(f: WebSocketFrame) -> Seq<Span> {
    let st = f.format_style;
    row_start_blank(st) + match f.payload_length {
        PayloadLength::Short(_) => folded_unmasked_bits(st, f.unmasked_payload@),
        PayloadLength::Medium(_) => two_notes(st, "Masking-key (part 1)"@, "Masking-key (part 2)"@),
        PayloadLength::Long(_) => two_notes(st, "Payload length (part 2 of 4)"@, "Payload length (part 3 of 4)"@),
    } + line_close(st)
}

/// The unmasked values and previews of the first two payload bytes.
pub open spec fn folded_unmasked_values(st: FormatStyle, u: Seq<u8>, c: Seq<char>) -> Seq<Span> {
    seq![
        col(align_center("(16 bits)"@, 31), st.notes_color), bar(st),
        sp(1), value_or_marker(st, u, 0), sp(1), char_or_marker(st, c, 0), sp(1),
        col("UNMASKED"@, st.notes_color), sp(1), value_or_marker(st, u, 1), sp(1),
        char_or_marker(st, c, 1), sp(2),
    ]
}

/// The second row's fourth line.
pub open spec fn second_row_line4(f: WebSocketFrame) -> Seq<Span> {
    let st = f.format_style;
    row_start_blank(st) + match f.payload_length {
        PayloadLength::Short(_) => folded_unmasked_values(st, f.unmasked_payload@, f.payload_chars@),
        _ => two_notes(st, "(16 bits)"@, "(16 bits)"@),
    } + line_close(st)
}

/// The second row's last line: the payload label where payload bytes are shown.
pub open spec fn second_row_line5(f: WebSocketFrame) -> Seq<Span> {
    let st = f.format_style;
    row_start_blank(st) + match f.payload_length {
        PayloadLength::Short(_) => seq![
            sp(31), bar(st), col(align_center("Payload Data (part 1)"@, 31), st.notes_color),
        ],
        _ => empty_halves(st),
    } + line_close(st)
}

/// The border under the second row.
pub open spec fn second_row_border(st: FormatStyle) -> Seq<Span> {
    seq![
        sp(7),
        col("+-------+-------------------------------+-------------------------------+"@, st.border_color),
        nl(),
    ]
}

/// The first bit line of the long encoding's third row: the last two length bytes
/// and the first half of the masking key.
pub open spec fn third_row_line1(f: WebSocketFrame) -> Seq<Span> {
    let st = f.format_style;
    let c = st.bit_color;
    row_start(st, "DWORD"@) + seq![
        col(bits_text(f.payload_length_bytes@[6], 8), c), bar(st),
        col(bits_text(f.payload_length_bytes@[7], 8), c), bar(st),
        col(bits_text(f.masking_key@[0], 8), c), bar(st),
        col(bits_text(f.masking_key@[1], 8), c), bar(st), nl(),
    ]
}

/// The notes under the first bit line of the long encoding's third row.
pub open spec fn third_row_line2(st: FormatStyle) -> Seq<Span> {
    row_start(st, "3"@) + two_notes(st, "Payload length (part 4 of 4)"@, "Masking-key (part 1)"@)
        + line_close(st)
}

/// The second bit line of the long encoding's third row: the second half of the
/// masking key and the first two payload bytes.
pub open spec fn third_row_line3(f: WebSocketFrame) -> Seq<Span> {
    let st = f.format_style;
    let c = st.bit_color;
    row_start_blank(st) + seq![
        col(bits_text(f.masking_key@[2], 8), c), bar(st),
        col(bits_text(f.masking_key@[3], 8), c), bar(st),
        bits_or_marker(f.masked_payload@, 0, c), bar(st),
        bits_or_marker(f.masked_payload@, 1, c), bar(st), nl(),
    ]
}

/// The lines under the second bit line of the long encoding's third row: the
/// first two payload bytes masked and unmasked, with their previews and label.
pub open spec fn third_row_payload_lines(f: WebSocketFrame) -> Seq<Span> {
    let st = f.format_style;
    row_start_blank(st) + folded_masked_values(st, f.masked_payload@) + line_close(st)
        + row_start_blank(st) + folded_unmasked_bits(st, f.unmasked_payload@) + line_close(st)
        + row_start_blank(st) + folded_unmasked_values(st, f.unmasked_payload@, f.payload_chars@)
        + line_close(st) + row_start_blank(st) + seq![
        sp(31), bar(st), col(align_center("Payload Data (part 1)"@, 31), st.notes_color),
    ] + line_close(st)
}

fn put_bits_or_marker(out: &mut Vec<Cell>, s: &[u8], i: usize, c: Color)
    requires
        i < 2,
    ensures
        spans(final(out)@) == spans(old(out)@).push(bits_or_marker(s@, i as int, c)),
{
    if i < s.len() {
        put_bits(out, s[i], 8, c);
    } else {
        put_row_error(out, i, i + 1);
    }
}

fn put_value_or_marker(out: &mut Vec<Cell>, st: &FormatStyle, s: &[u8], i: usize)
    requires
        i < 2,
    ensures
        spans(final(out)@) == spans(old(out)@).push(value_or_marker(*st, s@, i as int)),
{
    if i < s.len() {
        put_value(out, st, s[i]);
    } else {
        put_row_error(out, i, i + 1);
    }
}

fn put_char_or_marker(out: &mut Vec<Cell>, st: &FormatStyle, s: &[char], i: usize)
    requires
        i < 2,
    ensures
        spans(final(out)@) == spans(old(out)@).push(char_or_marker(*st, s@, i as int)),
{
    if i < s.len() {
        put_char(out, st, s[i]);
    } else {
        put_row_error(out, i, i + 1);
    }
}

fn put_folded_masked_values(out: &mut Vec<Cell>, st: &FormatStyle, m: &[u8])
    ensures
        spans(final(out)@) == spans(old(out)@) + folded_masked_values(*st, m@),
{
    put_sp(out, 31);
    put_bar(out, st);
    put_sp(out, 1);
    put_value_or_marker(out, st, m, 0);
    put_sp(out, 6);
    put_colored(out, "MASKED", st.notes_color);
    put_sp(out, 2);
    put_value_or_marker(out, st, m, 1);
    put_sp(out, 6);
    assert(spans(final(out)@) =~= spans(old(out)@) + folded_masked_values(*st, m@));
}

fn put_empty_halves(out: &mut Vec<Cell>, st: &FormatStyle)
    ensures
        spans(final(out)@) == spans(old(out)@) + empty_halves(*st),
{
    put_sp(out, 31);
    put_bar(out, st);
    put_sp(out, 31);
    assert(spans(final(out)@) =~= spans(old(out)@) + empty_halves(*st));
}

fn put_two_notes(out: &mut Vec<Cell>, st: &FormatStyle, a: &str, b: &str)
    ensures
        spans(final(out)@) == spans(old(out)@) + two_notes(*st, a@, b@),
{
    put_center(out, a, 31, st.notes_color);
    put_bar(out, st);
    put_center(out, b, 31, st.notes_color);
    assert(spans(final(out)@) =~= spans(old(out)@) + two_notes(*st, a@, b@));
}

fn put_folded_unmasked_bits(out: &mut Vec<Cell>, st: &FormatStyle, u: &[u8])
    ensures
        spans(final(out)@) == spans(old(out)@) + folded_unmasked_bits(*st, u@),
{
    put_center(out, "Masking-key (part 2)", 31, st.notes_color);
    put_bar(out, st);
    put_bits_or_marker(out, u, 0, st.unmasked_payload_bit_color);
    put_bar(out, st);
    put_bits_or_marker(out, u, 1, st.unmasked_payload_bit_color);
    assert(spans(final(out)@) =~= spans(old(out)@) + folded_unmasked_bits(*st, u@));
}

fn put_folded_unmasked_values(out: &mut Vec<Cell>, st: &FormatStyle, u: &[u8], c: &[char])
    ensures
        spans(final(out)@) == spans(old(out)@) + folded_unmasked_values(*st, u@, c@),
{
    put_center(out, "(16 bits)", 31, st.notes_color);
    put_bar(out, st);
    put_sp(out, 1);
    put_value_or_marker(out, st, u, 0);
    put_sp(out, 1);
    put_char_or_marker(out, st, c, 0);
    put_sp(out, 1);
    put_colored(out, "UNMASKED", st.notes_color);
    put_sp(out, 1);
    put_value_or_marker(out, st, u, 1);
    put_sp(out, 1);
    put_char_or_marker(out, st, c, 1);
    put_sp(out, 2);
    assert(spans(final(out)@) =~= spans(old(out)@) + folded_unmasked_values(*st, u@, c@));
}

impl<'a> WebSocketFrame<'a> {
    /// The second row: the rest of the masking key and the first two payload bytes,
    /// the masking key, or the middle length bytes, by length encoding.
    pub open spec fn second_dword_spans(&self) -> Seq<Span> {
        second_row_line1(*self) + second_row_line2(*self) + second_row_line3(*self)
            + second_row_line4(*self) + second_row_line5(*self)
            + second_row_border(self.format_style)
    }

    fn put_second_row_cell(&self, out: &mut Vec<Cell>, i: usize)
        requires
            self.wf(),
            i < 4,
        ensures
            spans(final(out)@) == spans(old(out)@).push(second_row_cell(*self, i as int)),
    {
        let c = self.format_style.bit_color;
        match self.payload_length {
            PayloadLength::Short(_) => if i < 2 {
                put_bits(out, self.masking_key[i + 2], 8, c);
            } else {
                put_bits_or_marker(out, self.masked_payload, i - 2, c);
            },
            PayloadLength::Medium(_) => put_bits(out, self.masking_key[i], 8, c),
            PayloadLength::Long(_) => put_bits(out, self.payload_length_bytes[i + 2], 8, c),
        }
    }

    fn put_second_row_line1(&self, out: &mut Vec<Cell>)
        requires
            self.wf(),
        ensures
            spans(final(out)@) == spans(old(out)@) + second_row_line1(*self),
    {
        let st = &self.format_style;
        put_row_start(out, st, "DWORD");
        self.put_second_row_cell(out, 0);
        put_bar(out, st);
        self.put_second_row_cell(out, 1);
        put_bar(out, st);
        self.put_second_row_cell(out, 2);
        put_bar(out, st);
        self.put_second_row_cell(out, 3);
        put_bar(out, st);
        put_nl(out);
        assert(spans(final(out)@) =~= spans(old(out)@) + second_row_line1(*self));
    }

    fn put_second_row_line2(&self, out: &mut Vec<Cell>)
        ensures
            spans(final(out)@) == spans(old(out)@) + second_row_line2(*self),
    {
        let st = &self.format_style;
        put_row_start(out, st, "2");
        match self.payload_length {
            PayloadLength::Short(_) => put_folded_masked_values(out, st, self.masked_payload),
            _ => put_empty_halves(out, st),
        }
        put_line_close(out, st);
    }

    fn put_second_row_line3(&self, out: &mut Vec<Cell>)
        ensures
            spans(final(out)@) == spans(old(out)@) + second_row_line3(*self),
    {
        let st = &self.format_style;
        put_row_start_blank(out, st);
        match self.payload_length {
            PayloadLength::Short(_) => put_folded_unmasked_bits(out, st, self.unmasked_payload.as_slice()),
            PayloadLength::Medium(_) => put_two_notes(out, st, "Masking-key (part 1)", "Masking-key (part 2)"),
            PayloadLength::Long(_) => put_two_notes(out, st, "Payload length (part 2 of 4)", "Payload length (part 3 of 4)"),
        }
        put_line_close(out, st);
    }

    fn put_second_row_line4(&self, out: &mut Vec<Cell>)
        ensures
            spans(final(out)@) == spans(old(out)@) + second_row_line4(*self),
    {
        let st = &self.format_style;
        put_row_start_blank(out, st);
        match self.payload_length {
            PayloadLength::Short(_) => put_folded_unmasked_values(
                out,
                st,
                self.unmasked_payload.as_slice(),
                self.payload_chars.as_slice(),
            ),
            _ => put_two_notes(out, st, "(16 bits)", "(16 bits)"),
        }
        put_line_close(out, st);
    }

    fn put_second_row_line5(&self, out: &mut Vec<Cell>)
        ensures
            spans(final(out)@) == spans(old(out)@) + second_row_line5(*self),
    {
        let st = &self.format_style;
        put_row_start_blank(out, st);
        let ghost s0 = spans(out@);
        match self.payload_length {
            PayloadLength::Short(_) => {
                put_sp(out, 31);
                put_bar(out, st);
                put_center(out, "Payload Data (part 1)", 31, st.notes_color);
                assert(spans(out@) =~= s0 + seq![
                    sp(31), bar(*st), col(align_center("Payload Data (part 1)"@, 31), st.notes_color),
                ]);
            },
            _ => put_empty_halves(out, st),
        }
        put_line_close(out, st);
    }

    /// Draws the second row: for the short encoding the rest of the masking key and
    /// the first two payload bytes, masked and unmasked; for the medium one the
    /// masking key; for the long one the middle length bytes.
    pub fn format_second_dword(&self) -> (r: Vec<Cell>)
        requires
            self.wf(),
        ensures
            spans(r@) == self.second_dword_spans(),
    {
        let st = &self.format_style;
        let mut out: Vec<Cell> = Vec::new();
        assert(spans(out@) =~= Seq::<Span>::empty());
        self.put_second_row_line1(&mut out);
        assert(Seq::<Span>::empty() + second_row_line1(*self) =~= second_row_line1(*self));
        self.put_second_row_line2(&mut out);
        self.put_second_row_line3(&mut out);
        self.put_second_row_line4(&mut out);
        self.put_second_row_line5(&mut out);
        put_border_line(&mut out, st, "+-------+-------------------------------+-------------------------------+");
        out
    }

    /// The third row, drawn for the long encoding only: the last two length bytes,
    /// the masking key and the first two payload bytes, masked and unmasked.
    pub open spec fn third_dword_spans(&self) -> Seq<Span> {
        match self.payload_length {
            PayloadLength::Long(_) => third_row_line1(*self) + third_row_line2(self.format_style)
                + third_row_line3(*self) + third_row_payload_lines(*self)
                + second_row_border(self.format_style),
            _ => Seq::empty(),
        }
    }

    fn put_third_row_line1(&self, out: &mut Vec<Cell>)
        requires
            self.wf(),
            self.payload_length is Long,
        ensures
            spans(final(out)@) == spans(old(out)@) + third_row_line1(*self),
    {
        let st = &self.format_style;
        let c = st.bit_color;
        put_row_start(out, st, "DWORD");
        put_bits(out, self.payload_length_bytes[6], 8, c);
        put_bar(out, st);
        put_bits(out, self.payload_length_bytes[7], 8, c);
        put_bar(out, st);
        put_bits(out, self.masking_key[0], 8, c);
        put_bar(out, st);
        put_bits(out, self.masking_key[1], 8, c);
        put_bar(out, st);
        put_nl(out);
        assert(spans(final(out)@) =~= spans(old(out)@) + third_row_line1(*self));
    }

    fn put_third_row_line3(&self, out: &mut Vec<Cell>)
        ensures
            spans(final(out)@) == spans(old(out)@) + third_row_line3(*self),
    {
        let st = &self.format_style;
        let c = st.bit_color;
        put_row_start_blank(out, st);
        put_bits(out, self.masking_key[2], 8, c);
        put_bar(out, st);
        put_bits(out, self.masking_key[3], 8, c);
        put_bar(out, st);
        put_bits_or_marker(out, self.masked_payload, 0, c);
        put_bar(out, st);
        put_bits_or_marker(out, self.masked_payload, 1, c);
        put_bar(out, st);
        put_nl(out);
        assert(spans(final(out)@) =~= spans(old(out)@) + third_row_line3(*self));
    }

    fn put_third_row_payload_lines(&self, out: &mut Vec<Cell>)
        ensures
            spans(final(out)@) == spans(old(out)@) + third_row_payload_lines(*self),
    {
        let st = &self.format_style;
        put_row_start_blank(out, st);
        put_folded_masked_values(out, st, self.masked_payload);
        put_line_close(out, st);
        put_row_start_blank(out, st);
        put_folded_unmasked_bits(out, st, self.unmasked_payload.as_slice());
        put_line_close(out, st);
        put_row_start_blank(out, st);
        put_folded_unmasked_values(out, st, self.unmasked_payload.as_slice(), self.payload_chars.as_slice());
        put_line_close(out, st);
        put_row_start_blank(out, st);
        let ghost s0 = spans(out@);
        put_sp(out, 31);
        put_bar(out, st);
        put_center(out, "Payload Data (part 1)", 31, st.notes_color);
        assert(spans(out@) =~= s0 + seq![
            sp(31), bar(*st), col(align_center("Payload Data (part 1)"@, 31), st.notes_color),
        ]);
        put_line_close(out, st);
    }

    /// Draws the third fixed row, which only the long encoding has: the last two
    /// length bytes and the masking key, then the first two payload bytes masked
    /// and unmasked. For the other encodings there is no such row.
    pub fn format_third_dword(&self) -> (r: Vec<Cell>)
        requires
            self.wf(),
        ensures
            spans(r@) == self.third_dword_spans(),
    {
        let st = &self.format_style;
        let mut out: Vec<Cell> = Vec::new();
        assert(spans(out@) =~= Seq::<Span>::empty());
        match self.payload_length {
            PayloadLength::Long(_) => {
                self.put_third_row_line1(&mut out);
                assert(Seq::<Span>::empty() + third_row_line1(*self) =~= third_row_line1(*self));
                put_row_start(&mut out, st, "3");
                put_two_notes(&mut out, st, "Payload length (part 4 of 4)", "Masking-key (part 1)");
                put_line_close(&mut out, st);
                self.put_third_row_line3(&mut out);
                self.put_third_row_payload_lines(&mut out);
                put_border_line(&mut out, st, "+-------+-------------------------------+-------------------------------+");
            },
            _ => {},
        }
        out
    }
}

} // verus!
