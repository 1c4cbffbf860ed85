use vstd::prelude::*;
use vstd::string::*;
use crate::bits::{bit_char, bit_str, bits_text};
use crate::diagram::{row_start, row_start_blank};
use crate::frame::{PayloadLength, WebSocketFrame};
use crate::render::{
    bar, col, nl, put, put_aligned, put_bar, put_bits, put_nl, put_sp, put_str, sp, spans, Cell,
    Span,
};
use crate::style::FormatStyle;
use crate::text::{align_center, decimal, parenthesized, pad, parenthesized_decimal, push_decimal, Align};

verus! {

/// How a payload length prints for debugging, as in `Short(4)`.
pub open spec fn length_debug(pl: PayloadLength) -> Seq<char> {
    match pl {
        PayloadLength::Short(n) => "Short("@ + decimal(n as nat) + ")"@,
        PayloadLength::Medium(n) => "Medium("@ + decimal(n as nat) + ")"@,
        PayloadLength::Long(n) => "Long("@ + decimal(n as nat) + ")"@,
    }
}

/// The length-code note of the first row: the length itself, or which extension follows.
pub open spec fn length_note(pl: PayloadLength) -> Seq<char> {
    match pl {
        PayloadLength::Short(n) => decimal(n as nat) + " bytes"@,
        PayloadLength::Medium(_) => "126: Medium"@,
        PayloadLength::Long(_) => "127: Long"@,
    }
}

/// What the last two columns of the first row hold.
pub open spec fn first_row_note(pl: PayloadLength) -> Seq<char> {
    match pl {
        PayloadLength::Short(_) => "Masking-key (part 1)"@,
        PayloadLength::Medium(_) => "Payload length"@,
        PayloadLength::Long(_) => "Payload length (Part 1 of 4)"@,
    }
}

/// The ruler above the four byte columns.
pub open spec fn ruler_border() -> Seq<char> {
    "+---------------+---------------+---------------+---------------+"@
}

/// The first line of the header block: the top border.
pub open spec fn header_line1(st: FormatStyle) -> Seq<Span> {
    seq![sp(15), col(ruler_border(), st.border_color), nl()]
}

/// The second line of the header block: the title and the byte column titles.
pub open spec fn header_line2(st: FormatStyle) -> Seq<Span> {
    seq![
        col(align_center("Frame Data"@, 15), st.title_color), bar(st),
        col(align_center("Byte  1"@, 15), st.column_title_color), bar(st),
        col(align_center("Byte  2"@, 15), st.column_title_color), bar(st),
        col(align_center("Byte  3"@, 15), st.column_title_color), bar(st),
        col(align_center("Byte  4"@, 15), st.column_title_color), bar(st),
        nl(),
    ]
}

/// The third line of the header block: whether the payload is masked, and a border.
pub open spec fn header_line3(st: FormatStyle, masked: bool) -> Seq<Span> {
    let label = if masked { "(Masked)"@ } else { "(Unmasked)"@ };
    seq![
        sp(2), col(align_center(label, 10), st.title_color), sp(3),
        col(ruler_border(), st.border_color), nl(),
    ]
}

/// The fourth line of the header block: the length encoding and the tens of the bit ruler.
pub open spec fn header_line4(st: FormatStyle, pl: PayloadLength) -> Seq<Span> {
    seq![
        (align_center(length_debug(pl), 15), None), bar(st),
        col("0"@, st.tick_mark_color), sp(14), bar(st),
        sp(4), col("1"@, st.tick_mark_color), sp(10), bar(st),
        sp(8), col("2"@, st.tick_mark_color), sp(6), bar(st),
        sp(12), col("3"@, st.tick_mark_color), sp(2), bar(st),
        nl(),
    ]
}

/// The fifth line of the header block: the units of the bit ruler.
pub open spec fn header_line5(st: FormatStyle) -> Seq<Span> {
    seq![
        sp(15), bar(st),
        col("0 1 2 3 4 5 6 7"@, st.tick_mark_color), bar(st),
        col("8 9 0 1 2 3 4 5"@, st.tick_mark_color), bar(st),
        col("6 7 8 9 0 1 2 3"@, st.tick_mark_color), bar(st),
        col("4 5 6 7 8 9 0 1"@, st.tick_mark_color), bar(st),
        nl(),
    ]
}

/// The first row's top border.
pub open spec fn first_row_line0(st: FormatStyle) -> Seq<Span> {
    seq![
        sp(7),
        col("+-------+---------------+---------------+---------------+---------------+"@, st.border_color),
        nl(),
    ]
}

/// The two bytes in the last columns of the first row: the first half of the
/// masking key, or the first two length bytes.
pub open spec fn first_row_byte(f: WebSocketFrame, i: int) -> u8 {
    match f.payload_length {
        PayloadLength::Short(_) => f.masking_key@[i],
        _ => f.payload_length_bytes@[i],
    }
}

/// The bit fields of the first row: four flags, the opcode, the mask bit, the
/// length code and two more bytes.
pub open spec fn bit_fields(
    st: FormatStyle,
    fin: bool,
    rsv1: bool,
    rsv2: bool,
    rsv3: bool,
    opcode_bits: u8,
    mask: bool,
    code: u8,
    x0: u8,
    x1: u8,
) -> Seq<Span> {
    let c = st.bit_color;
    seq![
        col(seq![bit_char(fin)], c), bar(st),
        col(seq![bit_char(rsv1)], c), bar(st),
        col(seq![bit_char(rsv2)], c), bar(st),
        col(seq![bit_char(rsv3)], c), bar(st),
        col(bits_text(opcode_bits, 4), c), bar(st),
        col(seq![bit_char(mask)], c), bar(st),
        col(bits_text(code, 7), c), bar(st),
        col(bits_text(x0, 8), c), bar(st),
        col(bits_text(x1, 8), c), bar(st),
        nl(),
    ]
}

/// The first row's bits: the flags, opcode, mask bit, length code and two more bytes.
pub open spec fn first_row_line1(f: WebSocketFrame) -> Seq<Span> {
    row_start(f.format_style, "DWORD"@) + bit_fields(
        f.format_style,
        f.fin_bit,
        f.rsv1,
        f.rsv2,
        f.rsv3,
        f.opcode_bits,
        f.mask_bit,
        f.payload_length_code,
        first_row_byte(f, 0),
        first_row_byte(f, 1),
    )
}

/// The values in the last columns of the first row's second line: the extended
/// length for the longer encodings, nothing for the short one.
pub open spec fn first_row_length_value(f: WebSocketFrame) -> Seq<Span> {
    let st = f.format_style;
    match f.payload_length {
        PayloadLength::Short(_) => seq![sp(31)],
        _ => seq![
            col(align_center(parenthesized(f.payload_length_bytes@[0] as nat), 6), st.byte_value_color),
            col(align_center(decimal(f.payload_length.value()) + " bytes"@, 19), st.data_value_color),
            col(align_center(parenthesized(f.payload_length_bytes@[1] as nat), 6), st.byte_value_color),
        ],
    }
}

/// The field names and decoded values of the first row's second line.
pub open spec fn second_line_fields(st: FormatStyle, opcode: Seq<char>, note: Seq<char>) -> Seq<Span> {
    let n = st.notes_color;
    seq![
        col("F"@, n), bar(st), col("R"@, n), bar(st), col("R"@, n), bar(st), col("R"@, n), bar(st),
        col(align_center(opcode, 7), st.data_value_color), bar(st),
        col("M"@, n), bar(st),
        col(align_center(note, 13), st.data_value_color), bar(st),
    ]
}

/// A closing separator and a line break.
pub open spec fn line_close(st: FormatStyle) -> Seq<Span> {
    seq![bar(st), nl()]
}

/// The first row's second line: the row number, field names and decoded values.
pub open spec fn first_row_line2(f: WebSocketFrame) -> Seq<Span> {
    let st = f.format_style;
    row_start(st, "1"@) + second_line_fields(st, f.opcode.short_label(), length_note(f.payload_length))
        + first_row_length_value(f) + line_close(st)
}

/// The first row's third line of field names.
pub open spec fn first_row_line3(f: WebSocketFrame) -> Seq<Span> {
    let st = f.format_style;
    let n = st.notes_color;
    row_start_blank(st) + seq![
        col("I"@, n), bar(st), col("S"@, n), bar(st), col("S"@, n), bar(st), col("S"@, n), bar(st),
        col("op code"@, n), bar(st), col("A"@, n), bar(st),
        col(align_center("Payload len"@, 13), n), bar(st),
        col(align_center(first_row_note(f.payload_length), 31), n), bar(st),
        nl(),
    ]
}

/// The first row's fourth line of field names.
pub open spec fn first_row_line4(st: FormatStyle) -> Seq<Span> {
    let n = st.notes_color;
    row_start_blank(st) + seq![
        col("N"@, n), bar(st), col("V"@, n), bar(st), col("V"@, n), bar(st), col("V"@, n), bar(st),
        col(align_center("(4 b)"@, 7), n), bar(st), col("S"@, n), bar(st),
        col(align_center("(7 bits)"@, 13), n), bar(st),
        col(align_center("(16 bits)"@, 31), n), bar(st),
        nl(),
    ]
}

/// The first row's last line of field names.
pub open spec fn first_row_line5(st: FormatStyle) -> Seq<Span> {
    let n = st.notes_color;
    row_start_blank(st) + seq![
        sp(1), bar(st), col("1"@, n), bar(st), col("2"@, n), bar(st), col("3"@, n), bar(st),
        sp(7), bar(st), col("K"@, n), bar(st), sp(13), bar(st), sp(31), bar(st),
        nl(),
    ]
}

/// The border between the first and the second row.
pub open spec fn first_row_line6(st: FormatStyle) -> Seq<Span> {
    seq![
        sp(7),
        col("+-------+-+-+-+-+-------+-+-------------+-------------------------------+"@, st.border_color),
        nl(),
    ]
}

impl<'a> WebSocketFrame<'a> {
    /// The header block: the byte-column ruler, the masking label and the length encoding.
    pub open spec fn header_spans(&self) -> Seq<Span> {
        let st = self.format_style;
        header_line1(st) + header_line2(st) + header_line3(st, self.is_payload_masked)
            + header_line4(st, self.payload_length) + header_line5(st)
    }

    /// The first row: the header bits, with their names and decoded values.
    pub open spec fn first_dword_spans(&self) -> Seq<Span> {
        let st = self.format_style;
        first_row_line0(st) + first_row_line1(*self) + first_row_line2(*self)
            + first_row_line3(*self) + first_row_line4(st) + first_row_line5(st)
            + first_row_line6(st)
    }
}

/// Appends `s` in colour `c`.
pub fn put_colored(out: &mut Vec<Cell>, s: &str, c: crate::color::Color)
    ensures
        spans(final(out)@) == spans(old(out)@).push(col(s@, c)),
{
    put_str(out, s, Some(c));
}

/// Appends `s` centred in `width` columns, in colour `c`.
pub fn put_center(out: &mut Vec<Cell>, s: &str, width: usize, c: crate::color::Color)
    ensures
        spans(final(out)@) == spans(old(out)@).push(col(align_center(s@, width as nat), c)),
{
    put_aligned(out, s, width, Align::Center, c);
}

/// How a payload length prints for debugging, as in `Short(4)`.
pub fn length_debug_text(pl: &PayloadLength) -> (r: String)
    ensures
        r@ == length_debug(*pl),
{
    let mut r = match pl {
        PayloadLength::Short(_) => String::from_str("Short("),
        PayloadLength::Medium(_) => String::from_str("Medium("),
        PayloadLength::Long(_) => String::from_str("Long("),
    };
    push_decimal(&mut r, pl.num_bytes());
    r.append(")");
    r
}

fn put_header_line1(out: &mut Vec<Cell>, st: &FormatStyle)
    ensures
        spans(final(out)@) == spans(old(out)@) + header_line1(*st),
{
    put_sp(out, 15);
    put_colored(out, "+---------------+---------------+---------------+---------------+", st.border_color);
    put_nl(out);
    assert(spans(final(out)@) =~= spans(old(out)@) + header_line1(*st));
}

fn put_header_line2(out: &mut Vec<Cell>, st: &FormatStyle)
    ensures
        spans(final(out)@) == spans(old(out)@) + header_line2(*st),
{
    put_center(out, "Frame Data", 15, st.title_color);
    put_bar(out, st);
    put_center(out, "Byte  1", 15, st.column_title_color);
    put_bar(out, st);
    put_center(out, "Byte  2", 15, st.column_title_color);
    put_bar(out, st);
    put_center(out, "Byte  3", 15, st.column_title_color);
    put_bar(out, st);
    put_center(out, "Byte  4", 15, st.column_title_color);
    put_bar(out, st);
    put_nl(out);
    assert(spans(final(out)@) =~= spans(old(out)@) + header_line2(*st));
}

fn put_header_line3(out: &mut Vec<Cell>, st: &FormatStyle, masked: bool)
    ensures
        spans(final(out)@) == spans(old(out)@) + header_line3(*st, masked),
{
    put_sp(out, 2);
    put_center(out, if masked { "(Masked)" } else { "(Unmasked)" }, 10, st.title_color);
    put_sp(out, 3);
    put_colored(out, "+---------------+---------------+---------------+---------------+", st.border_color);
    put_nl(out);
    assert(spans(final(out)@) =~= spans(old(out)@) + header_line3(*st, masked));
}

fn put_header_line4(out: &mut Vec<Cell>, st: &FormatStyle, pl: &PayloadLength)
    ensures
        spans(final(out)@) == spans(old(out)@) + header_line4(*st, *pl),
{
    let text = length_debug_text(pl);
    put(out, pad(text.as_str(), 15, Align::Center), None);
    put_bar(out, st);
    put_colored(out, "0", st.tick_mark_color);
    put_sp(out, 14);
    put_bar(out, st);
    put_sp(out, 4);
    put_colored(out, "1", st.tick_mark_color);
    put_sp(out, 10);
    put_bar(out, st);
    put_sp(out, 8);
    put_colored(out, "2", st.tick_mark_color);
    put_sp(out, 6);
    put_bar(out, st);
    put_sp(out, 12);
    put_colored(out, "3", st.tick_mark_color);
    put_sp(out, 2);
    put_bar(out, st);
    put_nl(out);
    assert(spans(final(out)@) =~= spans(old(out)@) + header_line4(*st, *pl));
}

fn put_header_line5(out: &mut Vec<Cell>, st: &FormatStyle)
    ensures
        spans(final(out)@) == spans(old(out)@) + header_line5(*st),
{
    put_sp(out, 15);
    put_bar(out, st);
    put_colored(out, "0 1 2 3 4 5 6 7", st.tick_mark_color);
    put_bar(out, st);
    put_colored(out, "8 9 0 1 2 3 4 5", st.tick_mark_color);
    put_bar(out, st);
    put_colored(out, "6 7 8 9 0 1 2 3", st.tick_mark_color);
    put_bar(out, st);
    put_colored(out, "4 5 6 7 8 9 0 1", st.tick_mark_color);
    put_bar(out, st);
    put_nl(out);
    assert(spans(final(out)@) =~= spans(old(out)@) + header_line5(*st));
}

/// Appends the start of a row line with `title` in the row-title column.
pub fn put_row_start(out: &mut Vec<Cell>, st: &FormatStyle, title: &str)
    ensures
        spans(final(out)@) == spans(old(out)@) + row_start(*st, title@),
{
    put_sp(out, 7);
    put_bar(out, st);
    put_aligned(out, title, 7, Align::Center, st.dword_title_color);
    put_bar(out, st);
    assert(spans(final(out)@) =~= spans(old(out)@) + row_start(*st, title@));
}

/// Appends the start of a row line with an empty row-title column.
pub fn put_row_start_blank(out: &mut Vec<Cell>, st: &FormatStyle)
    ensures
        spans(final(out)@) == spans(old(out)@) + row_start_blank(*st),
{
    put_sp(out, 7);
    put_bar(out, st);
    put_sp(out, 7);
    put_bar(out, st);
    assert(spans(final(out)@) =~= spans(old(out)@) + row_start_blank(*st));
}

/// Appends the bit fields of the first row.
fn put_bit_fields(
    out: &mut Vec<Cell>,
    st: &FormatStyle,
    fin: bool,
    rsv1: bool,
    rsv2: bool,
    rsv3: bool,
    opcode_bits: u8,
    mask: bool,
    code: u8,
    x0: u8,
    x1: u8,
)
    ensures
        spans(final(out)@) == spans(old(out)@) + bit_fields(*st, fin, rsv1, rsv2, rsv3, opcode_bits, mask, code, x0, x1),
{
    let c = st.bit_color;
    put_colored(out, bit_str(fin), c);
    put_bar(out, st);
    put_colored(out, bit_str(rsv1), c);
    put_bar(out, st);
    put_colored(out, bit_str(rsv2), c);
    put_bar(out, st);
    put_colored(out, bit_str(rsv3), c);
    put_bar(out, st);
    put_bits(out, opcode_bits, 4, c);
    put_bar(out, st);
    put_colored(out, bit_str(mask), c);
    put_bar(out, st);
    put_bits(out, code, 7, c);
    put_bar(out, st);
    put_bits(out, x0, 8, c);
    put_bar(out, st);
    put_bits(out, x1, 8, c);
    put_bar(out, st);
    put_nl(out);
    assert(spans(final(out)@) =~= spans(old(out)@) + bit_fields(*st, fin, rsv1, rsv2, rsv3, opcode_bits, mask, code, x0, x1));
}

/// Appends the field names and decoded values of the first row's second line.
fn put_second_line_fields(out: &mut Vec<Cell>, st: &FormatStyle, opcode: &str, note: &str)
    ensures
        spans(final(out)@) == spans(old(out)@) + second_line_fields(*st, opcode@, note@),
{
    let n = st.notes_color;
    put_colored(out, "F", n);
    put_bar(out, st);
    put_colored(out, "R", n);
    put_bar(out, st);
    put_colored(out, "R", n);
    put_bar(out, st);
    put_colored(out, "R", n);
    put_bar(out, st);
    put_center(out, opcode, 7, st.data_value_color);
    put_bar(out, st);
    put_colored(out, "M", n);
    put_bar(out, st);
    put_center(out, note, 13, st.data_value_color);
    put_bar(out, st);
    assert(spans(final(out)@) =~= spans(old(out)@) + second_line_fields(*st, opcode@, note@));
}

/// Appends a closing separator and a line break.
pub fn put_line_close(out: &mut Vec<Cell>, st: &FormatStyle)
    ensures
        spans(final(out)@) == spans(old(out)@) + line_close(*st),
{
    put_bar(out, st);
    put_nl(out);
    assert(spans(final(out)@) =~= spans(old(out)@) + line_close(*st));
}

/// Appends a border line: the left margin and `border`.
pub fn put_border_line(out: &mut Vec<Cell>, st: &FormatStyle, border: &str)
    ensures
        spans(final(out)@) == spans(old(out)@) + seq![sp(7), col(border@, st.border_color), nl()],
{
    put_sp(out, 7);
    put_colored(out, border, st.border_color);
    put_nl(out);
    assert(spans(final(out)@) =~= spans(old(out)@) + seq![sp(7), col(border@, st.border_color), nl()]);
}

impl<'a> WebSocketFrame<'a> {
    /// Draws the header block: the byte-column ruler, the masking label, the length
    /// encoding and the bit ruler.
    pub fn format_header(&self) -> (r: Vec<Cell>)
        ensures
            spans(r@) == self.header_spans(),
    {
        let st = &self.format_style;
        let mut out: Vec<Cell> = Vec::new();
        assert(spans(out@) =~= Seq::<Span>::empty());
        put_header_line1(&mut out, st);
        assert(Seq::<Span>::empty() + header_line1(*st) =~= header_line1(*st));
        put_header_line2(&mut out, st);
        put_header_line3(&mut out, st, self.is_payload_masked);
        put_header_line4(&mut out, st, &self.payload_length);
        put_header_line5(&mut out, st);
        out
    }

    fn put_first_row_line1(&self, out: &mut Vec<Cell>)
        requires
            self.wf(),
        ensures
            spans(final(out)@) == spans(old(out)@) + first_row_line1(*self),
    {
        let st = &self.format_style;
        let (x0, x1) = match self.payload_length {
            PayloadLength::Short(_) => (self.masking_key[0], self.masking_key[1]),
            _ => (self.payload_length_bytes[0], self.payload_length_bytes[1]),
        };
        assert(x0 == first_row_byte(*self, 0) && x1 == first_row_byte(*self, 1));
        put_row_start(out, st, "DWORD");
        put_bit_fields(
            out,
            st,
            self.fin_bit,
            self.rsv1,
            self.rsv2,
            self.rsv3,
            self.opcode_bits,
            self.mask_bit,
            self.payload_length_code,
            x0,
            x1,
        );
    }

    fn put_first_row_length_value(&self, out: &mut Vec<Cell>)
        requires
            self.wf(),
        ensures
            spans(final(out)@) == spans(old(out)@) + first_row_length_value(*self),
    {
        let st = &self.format_style;
        match self.payload_length {
            PayloadLength::Short(_) => {
                put_sp(out, 31);
            },
            _ => {
                let b0 = parenthesized_decimal(self.payload_length_bytes[0] as u64);
                put_center(out, b0.as_str(), 6, st.byte_value_color);
                let mut total = String::new();
                push_decimal(&mut total, self.payload_length.num_bytes());
                total.append(" bytes");
                put_center(out, total.as_str(), 19, st.data_value_color);
                let b1 = parenthesized_decimal(self.payload_length_bytes[1] as u64);
                put_center(out, b1.as_str(), 6, st.byte_value_color);
            },
        }
        assert(spans(final(out)@) =~= spans(old(out)@) + first_row_length_value(*self));
    }

    fn put_first_row_line2(&self, out: &mut Vec<Cell>)
        requires
            self.wf(),
        ensures
            spans(final(out)@) == spans(old(out)@) + first_row_line2(*self),
    {
        let st = &self.format_style;
        let note = match self.payload_length {
            PayloadLength::Short(len) => {
                let mut t = String::new();
                push_decimal(&mut t, len as u64);
                t.append(" bytes");
                t
            },
            PayloadLength::Medium(_) => String::from_str("126: Medium"),
            PayloadLength::Long(_) => String::from_str("127: Long"),
        };
        assert(note@ =~= length_note(self.payload_length));
        put_row_start(out, st, "1");
        put_second_line_fields(out, st, self.opcode.to_short_label(), note.as_str());
        self.put_first_row_length_value(out);
        put_line_close(out, st);
    }

    fn put_first_row_line3(&self, out: &mut Vec<Cell>)
        ensures
            spans(final(out)@) == spans(old(out)@) + first_row_line3(*self),
    {
        let st = &self.format_style;
        let n = st.notes_color;
        put_row_start_blank(out, st);
        put_colored(out, "I", n);
        put_bar(out, st);
        put_colored(out, "S", n);
        put_bar(out, st);
        put_colored(out, "S", n);
        put_bar(out, st);
        put_colored(out, "S", n);
        put_bar(out, st);
        put_colored(out, "op code", n);
        put_bar(out, st);
        put_colored(out, "A", n);
        put_bar(out, st);
        put_center(out, "Payload len", 13, n);
        put_bar(out, st);
        let note = match self.payload_length {
            PayloadLength::Short(_) => "Masking-key (part 1)",
            PayloadLength::Medium(_) => "Payload length",
            PayloadLength::Long(_) => "Payload length (Part 1 of 4)",
        };
        put_center(out, note, 31, n);
        put_bar(out, st);
        put_nl(out);
        assert(spans(final(out)@) =~= spans(old(out)@) + first_row_line3(*self));
    }

    fn put_first_row_line4(out: &mut Vec<Cell>, st: &FormatStyle)
        ensures
            spans(final(out)@) == spans(old(out)@) + first_row_line4(*st),
    {
        let n = st.notes_color;
        put_row_start_blank(out, st);
        put_colored(out, "N", n);
        put_bar(out, st);
        put_colored(out, "V", n);
        put_bar(out, st);
        put_colored(out, "V", n);
        put_bar(out, st);
        put_colored(out, "V", n);
        put_bar(out, st);
        put_center(out, "(4 b)", 7, n);
        put_bar(out, st);
        put_colored(out, "S", n);
        put_bar(out, st);
        put_center(out, "(7 bits)", 13, n);
        put_bar(out, st);
        put_center(out, "(16 bits)", 31, n);
        put_bar(out, st);
        put_nl(out);
        assert(spans(final(out)@) =~= spans(old(out)@) + first_row_line4(*st));
    }

    fn put_first_row_line5(out: &mut Vec<Cell>, st: &FormatStyle)
        ensures
            spans(final(out)@) == spans(old(out)@) + first_row_line5(*st),
    {
        let n = st.notes_color;
        put_row_start_blank(out, st);
        put_sp(out, 1);
        put_bar(out, st);
        put_colored(out, "1", n);
        put_bar(out, st);
        put_colored(out, "2", n);
        put_bar(out, st);
        put_colored(out, "3", n);
        put_bar(out, st);
        put_sp(out, 7);
        put_bar(out, st);
        put_colored(out, "K", n);
        put_bar(out, st);
        put_sp(out, 13);
        put_bar(out, st);
        put_sp(out, 31);
        put_bar(out, st);
        put_nl(out);
        assert(spans(final(out)@) =~= spans(old(out)@) + first_row_line5(*st));
    }

    /// Draws the first row: the FIN, RSV and mask bits, the opcode, the length code
    /// and the next two bytes, with their names and decoded values.
    pub fn format_first_dword(&self) -> (r: Vec<Cell>)
        requires
            self.wf(),
        ensures
            spans(r@) == self.first_dword_spans(),
    {
        let st = &self.format_style;
        let mut out: Vec<Cell> = Vec::new();
        assert(spans(out@) =~= Seq::<Span>::empty());
        put_border_line(&mut out, st, "+-------+---------------+---------------+---------------+---------------+");
        assert(Seq::<Span>::empty() + first_row_line0(*st) =~= first_row_line0(*st));
        self.put_first_row_line1(&mut out);
        self.put_first_row_line2(&mut out);
        self.put_first_row_line3(&mut out);
        Self::put_first_row_line4(&mut out, st);
        Self::put_first_row_line5(&mut out, st);
        put_border_line(&mut out, st, "+-------+-+-+-+-+-------+-+-------------+-------------------------------+");
        out
    }
}

} // verus!
