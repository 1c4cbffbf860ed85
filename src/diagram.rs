use vstd::prelude::*;
use vstd::string::*;
use crate::bits::bits_text;
use crate::color::Color;
use crate::frame::WebSocketFrame;
use crate::render::{
    bar, char_cell, col, nl, put, put_aligned, put_bar, put_bits, put_char, put_nl, put_sp,
    put_str, put_value, sp, spans, value_cell, Cell, Span,
};
use crate::header::{put_row_start, put_row_start_blank};
use crate::style::FormatStyle;
use crate::text::{align_center, decimal, push_decimal, Align};

verus! {

/// The number of bytes in a diagram row.
pub const BYTES_IN_DWORD: usize = 4;

/// The bits of each byte, a separator after each.
pub open spec fn bits_line(st: FormatStyle, bytes: Seq<u8>, c: Color) -> Seq<Span>
    decreases bytes.len(),
{
    if bytes.len() == 0 {
        Seq::empty()
    } else {
        bits_line(st, bytes.drop_last(), c) + seq![col(bits_text(bytes.last(), 8), c), bar(st)]
    }
}

/// Two masked byte values under a `MASKED` label, spanning two columns.
pub open spec fn masked_pair(st: FormatStyle, a: u8, b: u8) -> Seq<Span> {
    seq![
        sp(1), value_cell(st, a), sp(6), col("MASKED"@, st.notes_color), sp(2),
        value_cell(st, b), sp(6), bar(st),
    ]
}

/// A lone masked byte value with an `MSK` label.
pub open spec fn masked_single(st: FormatStyle, a: u8) -> Seq<Span> {
    seq![sp(1), value_cell(st, a), sp(5), col("MSK"@, st.notes_color), sp(1), bar(st)]
}

/// Two unmasked byte values with their previews under an `UNMASKED` label.
pub open spec fn unmasked_pair(st: FormatStyle, a: u8, ca: char, b: u8, cb: char) -> Seq<Span> {
    seq![
        sp(1), value_cell(st, a), sp(1), char_cell(st, ca), sp(1),
        col("UNMASKED"@, st.notes_color), sp(1), value_cell(st, b), sp(1), char_cell(st, cb),
        sp(2), bar(st),
    ]
}

/// A lone unmasked byte value and its preview with an `UNM` label.
pub open spec fn unmasked_single(st: FormatStyle, a: u8, ca: char) -> Seq<Span> {
    seq![
        sp(1), value_cell(st, a), sp(1), char_cell(st, ca), sp(1), col("UNM"@, st.notes_color),
        sp(1), bar(st),
    ]
}

/// The masked values of a row of one to four bytes: pairs first, a lone byte last.
pub open spec fn masked_values(st: FormatStyle, m: Seq<u8>) -> Seq<Span> {
    if m.len() == 1 {
        masked_single(st, m[0])
    } else if m.len() == 2 {
        masked_pair(st, m[0], m[1])
    } else if m.len() == 3 {
        masked_pair(st, m[0], m[1]) + masked_single(st, m[2])
    } else {
        masked_pair(st, m[0], m[1]) + masked_pair(st, m[2], m[3])
    }
}

/// The unmasked values and previews of a row of one to four bytes.
pub open spec fn unmasked_values(st: FormatStyle, u: Seq<u8>, c: Seq<char>) -> Seq<Span> {
    if u.len() == 1 {
        unmasked_single(st, u[0], c[0])
    } else if u.len() == 2 {
        unmasked_pair(st, u[0], c[0], u[1], c[1])
    } else if u.len() == 3 {
        unmasked_pair(st, u[0], c[0], u[1], c[1]) + unmasked_single(st, u[2], c[2])
    } else {
        unmasked_pair(st, u[0], c[0], u[1], c[1]) + unmasked_pair(st, u[2], c[2], u[3], c[3])
    }
}

/// The label of a row of `n` bytes: short for a lone byte.
pub open spec fn part_label(n: nat, part: nat) -> Seq<char> {
    if n == 1 {
        "Payload pt "@ + decimal(part)
    } else {
        "Payload Data (part "@ + decimal(part) + ")"@
    }
}

/// The bottom border under `n` byte columns.
pub open spec fn row_border(st: FormatStyle, n: nat) -> Seq<Span> {
    seq![sp(7), col("+-------+"@, st.border_color)] + Seq::new(
        n,
        |i: int| col("---------------+"@, st.border_color),
    ) + seq![nl()]
}

/// The marker that stands in for a row whose byte range cannot be drawn.
pub open spec fn row_error_text(from: nat, to: nat) -> Seq<char> {
    "ERROR: Cannot print dword row. Illegal byte indexes provided. from_byte_ix: "@ + decimal(from)
        + " to_byte_ix: "@ + decimal(to)
}

/// The start of a row line: the margin, and the row-title column holding `title`.
pub open spec fn row_start(st: FormatStyle, title: Seq<char>) -> Seq<Span> {
    seq![sp(7), bar(st), col(align_center(title, 7), st.dword_title_color), bar(st)]
}

/// The start of a row line with an empty row-title column.
pub open spec fn row_start_blank(st: FormatStyle) -> Seq<Span> {
    seq![sp(7), bar(st), sp(7), bar(st)]
}

impl<'a> WebSocketFrame<'a> {
    /// Whether payload bytes `from..to` form a row that can be drawn: one to four
    /// bytes, inside the payload.
    pub open spec fn row_in_range(&self, from: nat, to: nat) -> bool {
        from < to && to - from <= 4 && to <= self.masked_payload@.len()
    }

    /// The row group that shows payload bytes `from..to`, numbered `dword` and
    /// labelled with `part`.
    pub open spec fn row_spans(&self, from: nat, to: nat, dword: nat, part: nat) -> Seq<Span> {
        let st = self.format_style;
        let n = (to - from) as nat;
        let m = self.masked_payload@.subrange(from as int, to as int);
        let u = self.unmasked_payload@.subrange(from as int, to as int);
        let c = self.payload_chars@.subrange(from as int, to as int);
        if !self.row_in_range(from, to) {
            seq![(row_error_text(from, to), None)]
        } else {
            row_start(st, "DWORD"@) + bits_line(st, m, st.bit_color) + seq![nl()]
                + row_start(st, decimal(dword)) + masked_values(st, m) + seq![nl()]
                + row_start_blank(st) + bits_line(st, u, st.unmasked_payload_bit_color) + seq![nl()]
                + row_start_blank(st) + unmasked_values(st, u, c) + seq![nl()]
                + row_start_blank(st)
                + seq![col(align_center(part_label(n, part), (16 * n - 1) as nat), st.notes_color), bar(st), nl()]
                + row_border(st, n)
        }
    }
}

/// Appends the bits of `bytes[from..to]`, a separator after each.
fn put_bits_line(out: &mut Vec<Cell>, st: &FormatStyle, bytes: &[u8], from: usize, to: usize, c: Color)
    requires
        from <= to <= bytes@.len(),
    ensures
        spans(final(out)@) == spans(old(out)@) + bits_line(*st, bytes@.subrange(from as int, to as int), c),
{
    let ghost start = spans(out@);
    let mut i: usize = from;
    assert(bytes@.subrange(from as int, from as int) =~= Seq::<u8>::empty());
    assert(start =~= start + bits_line(*st, Seq::<u8>::empty(), c));
    while i < to
        invariant
            from <= i <= to <= bytes@.len(),
            spans(out@) == start + bits_line(*st, bytes@.subrange(from as int, i as int), c),
        decreases to - i,
    {
        put_bits(out, bytes[i], 8, c);
        put_bar(out, st);
        assert(bytes@.subrange(from as int, i + 1).drop_last() =~= bytes@.subrange(from as int, i as int));
        i = i + 1;
        assert(spans(out@) =~= start + bits_line(*st, bytes@.subrange(from as int, i as int), c));
    }
}

/// Appends two masked byte values under a `MASKED` label.
fn put_masked_pair(out: &mut Vec<Cell>, st: &FormatStyle, a: u8, b: u8)
    ensures
        spans(final(out)@) == spans(old(out)@) + masked_pair(*st, a, b),
{
    put_sp(out, 1);
    put_value(out, st, a);
    put_sp(out, 6);
    put_str(out, "MASKED", Some(st.notes_color));
    put_sp(out, 2);
    put_value(out, st, b);
    put_sp(out, 6);
    put_bar(out, st);
    assert(spans(final(out)@) =~= spans(old(out)@) + masked_pair(*st, a, b));
}

/// Appends a lone masked byte value with an `MSK` label.
fn put_masked_single(out: &mut Vec<Cell>, st: &FormatStyle, a: u8)
    ensures
        spans(final(out)@) == spans(old(out)@) + masked_single(*st, a),
{
    put_sp(out, 1);
    put_value(out, st, a);
    put_sp(out, 5);
    put_str(out, "MSK", Some(st.notes_color));
    put_sp(out, 1);
    put_bar(out, st);
    assert(spans(final(out)@) =~= spans(old(out)@) + masked_single(*st, a));
}

/// Appends two unmasked byte values and their previews under an `UNMASKED` label.
fn put_unmasked_pair(out: &mut Vec<Cell>, st: &FormatStyle, a: u8, ca: char, b: u8, cb: char)
    ensures
        spans(final(out)@) == spans(old(out)@) + unmasked_pair(*st, a, ca, b, cb),
{
    put_sp(out, 1);
    put_value(out, st, a);
    put_sp(out, 1);
    put_char(out, st, ca);
    put_sp(out, 1);
    put_str(out, "UNMASKED", Some(st.notes_color));
    put_sp(out, 1);
    put_value(out, st, b);
    put_sp(out, 1);
    put_char(out, st, cb);
    put_sp(out, 2);
    put_bar(out, st);
    assert(spans(final(out)@) =~= spans(old(out)@) + unmasked_pair(*st, a, ca, b, cb));
}

/// Appends a lone unmasked byte value and its preview with an `UNM` label.
fn put_unmasked_single(out: &mut Vec<Cell>, st: &FormatStyle, a: u8, ca: char)
    ensures
        spans(final(out)@) == spans(old(out)@) + unmasked_single(*st, a, ca),
{
    put_sp(out, 1);
    put_value(out, st, a);
    put_sp(out, 1);
    put_char(out, st, ca);
    put_sp(out, 1);
    put_str(out, "UNM", Some(st.notes_color));
    put_sp(out, 1);
    put_bar(out, st);
    assert(spans(final(out)@) =~= spans(old(out)@) + unmasked_single(*st, a, ca));
}

/// Appends the bottom border under `n` byte columns.
fn put_row_border(out: &mut Vec<Cell>, st: &FormatStyle, n: usize)
    ensures
        spans(final(out)@) == spans(old(out)@) + row_border(*st, n as nat),
{
    let ghost start = spans(out@);
    put_sp(out, 7);
    put_str(out, "+-------+", Some(st.border_color));
    let ghost head = spans(out@);
    let mut i: usize = 0;
    while i < n
        invariant
            i <= n,
            spans(out@) == head + Seq::new(i as nat, |k: int| col("---------------+"@, st.border_color)),
        decreases n - i,
    {
        put_str(out, "---------------+", Some(st.border_color));
        i = i + 1;
        assert(spans(out@) =~= head + Seq::new(i as nat, |k: int| col("---------------+"@, st.border_color)));
    }
    put_nl(out);
    assert(spans(final(out)@) =~= spans(old(out)@) + row_border(*st, n as nat));
}

/// Appends the masked values of the row `m[f..f + n]`.
fn put_masked_values(out: &mut Vec<Cell>, st: &FormatStyle, m: &[u8], f: usize, n: usize)
    requires
        1 <= n <= 4,
        f + n <= m@.len(),
    ensures
        spans(final(out)@) == spans(old(out)@) + masked_values(*st, m@.subrange(f as int, f + n)),
{
    let ghost ms = m@.subrange(f as int, f + n);
    if n == 1 {
        put_masked_single(out, st, m[f]);
    } else if n == 2 {
        put_masked_pair(out, st, m[f], m[f + 1]);
    } else if n == 3 {
        put_masked_pair(out, st, m[f], m[f + 1]);
        put_masked_single(out, st, m[f + 2]);
    } else {
        put_masked_pair(out, st, m[f], m[f + 1]);
        put_masked_pair(out, st, m[f + 2], m[f + 3]);
    }
    assert(spans(final(out)@) =~= spans(old(out)@) + masked_values(*st, ms));
}

/// Appends the unmasked values and previews of the row `u[f..f + n]`.
fn put_unmasked_values(out: &mut Vec<Cell>, st: &FormatStyle, u: &[u8], c: &[char], f: usize, n: usize)
    requires
        1 <= n <= 4,
        f + n <= u@.len(),
        f + n <= c@.len(),
    ensures
        spans(final(out)@) == spans(old(out)@) + unmasked_values(
            *st,
            u@.subrange(f as int, f + n),
            c@.subrange(f as int, f + n),
        ),
{
    let ghost us = u@.subrange(f as int, f + n);
    let ghost cs = c@.subrange(f as int, f + n);
    if n == 1 {
        put_unmasked_single(out, st, u[f], c[f]);
    } else if n == 2 {
        put_unmasked_pair(out, st, u[f], c[f], u[f + 1], c[f + 1]);
    } else if n == 3 {
        put_unmasked_pair(out, st, u[f], c[f], u[f + 1], c[f + 1]);
        put_unmasked_single(out, st, u[f + 2], c[f + 2]);
    } else {
        put_unmasked_pair(out, st, u[f], c[f], u[f + 1], c[f + 1]);
        put_unmasked_pair(out, st, u[f + 2], c[f + 2], u[f + 3], c[f + 3]);
    }
    assert(spans(final(out)@) =~= spans(old(out)@) + unmasked_values(*st, us, cs));
}

/// Appends the label line of a row of `n` bytes.
fn put_part_label(out: &mut Vec<Cell>, st: &FormatStyle, n: usize, part: usize)
    requires
        1 <= n <= 4,
    ensures
        spans(final(out)@) == spans(old(out)@) + row_start_blank(*st) + seq![
            col(align_center(part_label(n as nat, part as nat), (16 * n - 1) as nat), st.notes_color),
            bar(*st),
            nl(),
        ],
{
    put_row_start_blank(out, st);
    let mut label = if n == 1 {
        String::from_str("Payload pt ")
    } else {
        String::from_str("Payload Data (part ")
    };
    push_decimal(&mut label, part as u64);
    if n != 1 {
        label.append(")");
    }
    assert(label@ =~= part_label(n as nat, part as nat));
    put_aligned(out, label.as_str(), 16 * n - 1, Align::Center, st.notes_color);
    put_bar(out, st);
    put_nl(out);
    assert(spans(final(out)@) =~= spans(old(out)@) + row_start_blank(*st) + seq![
        col(align_center(part_label(n as nat, part as nat), (16 * n - 1) as nat), st.notes_color),
        bar(*st),
        nl(),
    ]);
}

/// Ends a line.
fn put_line_end(out: &mut Vec<Cell>)
    ensures
        spans(final(out)@) == spans(old(out)@) + seq![nl()],
{
    put_nl(out);
    assert(spans(final(out)@) =~= spans(old(out)@) + seq![nl()]);
}

/// Appends the marker that stands in for payload bytes `from..to`, which cannot be drawn.
pub fn put_row_error(out: &mut Vec<Cell>, from: usize, to: usize)
    ensures
        spans(final(out)@) == spans(old(out)@).push((row_error_text(from as nat, to as nat), None)),
{
    let mut text = String::from_str(
        "ERROR: Cannot print dword row. Illegal byte indexes provided. from_byte_ix: ",
    );
    push_decimal(&mut text, from as u64);
    text.append(" to_byte_ix: ");
    push_decimal(&mut text, to as u64);
    put(out, text, None);
}

/// Appends the start of a row line with the row number `n` in the row-title column.
fn put_row_start_number(out: &mut Vec<Cell>, st: &FormatStyle, n: usize)
    ensures
        spans(final(out)@) == spans(old(out)@) + row_start(*st, decimal(n as nat)),
{
    let mut number = String::new();
    push_decimal(&mut number, n as u64);
    assert(number@ =~= decimal(n as nat));
    put_row_start(out, st, number.as_str());
}

impl<'a> WebSocketFrame<'a> {
    /// Draws payload bytes `from_byte_ix..to_byte_ix` as one row group: masked bits,
    /// masked values, unmasked bits, unmasked values with previews, and a label. A
    /// range of other than one to four bytes, or one past the payload, is drawn as
    /// an error marker naming both indices.
    pub fn format_payload_dword_row(
        &self,
        from_byte_ix: usize,
        to_byte_ix: usize,
        dword_number: usize,
        part_number: usize,
    ) -> (r: Vec<Cell>)
        requires
            self.wf(),
        ensures
            spans(r@) == self.row_spans(from_byte_ix as nat, to_byte_ix as nat, dword_number as nat, part_number as nat),
    {
        let mut out: Vec<Cell> = Vec::new();
        let st = &self.format_style;
        if from_byte_ix >= to_byte_ix || to_byte_ix - from_byte_ix > BYTES_IN_DWORD
            || to_byte_ix > self.masked_payload.len() {
            put_row_error(&mut out, from_byte_ix, to_byte_ix);
            assert(spans(out@) =~= self.row_spans(from_byte_ix as nat, to_byte_ix as nat, dword_number as nat, part_number as nat));
            return out;
        }
        let num_bytes: usize = to_byte_ix - from_byte_ix;
        let m = self.masked_payload;
        let u = self.unmasked_payload.as_slice();
        let c = self.payload_chars.as_slice();
        let f = from_byte_ix;

        assert(spans(out@) =~= Seq::<Span>::empty());
        // Masked bits
        put_row_start(&mut out, st, "DWORD");
        proof {
            assert(Seq::<Span>::empty() + row_start(*st, "DWORD"@) =~= row_start(*st, "DWORD"@));
        }
        put_bits_line(&mut out, st, m, f, to_byte_ix, st.bit_color);
        put_line_end(&mut out);

        // Masked values
        put_row_start_number(&mut out, st, dword_number);
        put_masked_values(&mut out, st, m, f, num_bytes);
        put_line_end(&mut out);

        // Unmasked bits
        put_row_start_blank(&mut out, st);
        put_bits_line(&mut out, st, u, f, to_byte_ix, st.unmasked_payload_bit_color);
        put_line_end(&mut out);

        // Unmasked values and previews
        put_row_start_blank(&mut out, st);
        put_unmasked_values(&mut out, st, u, c, f, num_bytes);
        put_line_end(&mut out);

        // Payload part label and bottom border
        put_part_label(&mut out, st, num_bytes, part_number);
        put_row_border(&mut out, st, num_bytes);
        out
    }
}

/// The text before the first index in a row error marker.
pub open spec fn row_error_prefix() -> Seq<char> {
    "ERROR: Cannot print dword row. Illegal byte indexes provided. from_byte_ix: "@
}

/// A row group asked for with no bytes, or with five, is drawn as the error marker
/// alone, and the marker names both requested indices: the first right after its
/// fixed prefix, the second at its end.
pub proof fn lemma_bad_width_row_names_indices(
    f: WebSocketFrame,
    from: nat,
    to: nat,
    dword: nat,
    part: nat,
)
    requires
        to == from || to == from + 5,
    ensures
        f.row_spans(from, to, dword, part) == seq![(row_error_text(from, to), None::<Color>)],
        row_error_text(from, to).subrange(
            row_error_prefix().len() as int,
            (row_error_prefix().len() + decimal(from).len()) as int,
        ) == decimal(from),
        row_error_text(from, to).subrange(
            row_error_text(from, to).len() - decimal(to).len(),
            row_error_text(from, to).len() as int,
        ) == decimal(to),
{
    let t = row_error_text(from, to);
    let p = row_error_prefix();
    assert(t == p + decimal(from) + " to_byte_ix: "@ + decimal(to));
    assert(t.subrange(p.len() as int, (p.len() + decimal(from).len()) as int) =~= decimal(from));
    assert(t.subrange(t.len() - decimal(to).len(), t.len() as int) =~= decimal(to));
}

} // verus!
