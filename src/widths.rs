use vstd::prelude::*;
use crate::frame::{PayloadLength, WebSocketFrame};
use crate::diagram::{
    bits_line, masked_pair, masked_single, masked_values, part_label, row_border, row_start,
    row_start_blank, unmasked_pair, unmasked_single, unmasked_values,
};
use crate::color::Color;
use crate::render::{col, nl, sp};
use crate::header::{
    bit_fields, first_row_length_value, first_row_line0, first_row_line1, first_row_line2,
    first_row_line3, first_row_line4, first_row_line5, first_row_line6, first_row_note,
    header_line1, header_line2, header_line3, header_line4, header_line5, length_debug,
    length_note, line_close, second_line_fields,
};
use crate::opcode::WebSocketOpCode;
use crate::render::{bar, char_cell, value_cell};
use crate::second_row::{
    bits_or_marker, char_or_marker, empty_halves, folded_masked_values, folded_unmasked_bits,
    folded_unmasked_values, second_row_border, second_row_cell, second_row_line1,
    second_row_line2, second_row_line3, second_row_line4, second_row_line5, third_row_line1,
    third_row_line2, third_row_line3, two_notes, value_or_marker,
};
use crate::layout::folded_bytes;
use crate::style::FormatStyle;
use crate::text::parenthesized;
use crate::render::{plain_of, Span};
use crate::text::{align_center, align_right, decimal};

verus! {

/// The number of characters in the text of the first `k` spans of `s`.
pub open spec fn prefix_len(s: Seq<Span>, k: nat) -> nat
    decreases k,
{
    if k == 0 {
        0
    } else {
        prefix_len(s, (k - 1) as nat) + s[k - 1].0.len()
    }
}

/// The number of characters in the text of `s`.
pub open spec fn text_len(s: Seq<Span>) -> nat {
    prefix_len(s, s.len())
}

/// `10` raised to `k`.
pub open spec fn pow10(k: nat) -> nat
    decreases k,
{
    if k == 0 {
        1
    } else {
        10 * pow10((k - 1) as nat)
    }
}

/// Two sequences that agree on their first `k` spans have equally long texts there.
proof fn lemma_prefix_len_agree(a: Seq<Span>, b: Seq<Span>, k: nat)
    requires
        k <= a.len(),
        k <= b.len(),
        forall|i: int| 0 <= i < k ==> a[i] == b[i],
    ensures
        prefix_len(a, k) == prefix_len(b, k),
    decreases k,
{
    if k > 0 {
        lemma_prefix_len_agree(a, b, (k - 1) as nat);
    }
}

proof fn lemma_prefix_len_concat(a: Seq<Span>, b: Seq<Span>, j: nat)
    requires
        j <= b.len(),
    ensures
        prefix_len(a + b, a.len() + j) == text_len(a) + prefix_len(b, j),
    decreases j,
{
    if j == 0 {
        lemma_prefix_len_agree(a + b, a, a.len());
    } else {
        lemma_prefix_len_concat(a, b, (j - 1) as nat);
        assert((a + b)[a.len() + j - 1] == b[j - 1]);
    }
}

/// The text of two span sequences one after the other is as long as both.
pub broadcast proof fn lemma_text_len_concat(a: Seq<Span>, b: Seq<Span>)
    ensures
        #[trigger] text_len(a + b) == text_len(a) + text_len(b),
{
    lemma_prefix_len_concat(a, b, b.len());
}

/// The length of the text of `s` is `text_len(s)`.
pub proof fn lemma_plain_len(s: Seq<Span>)
    ensures
        plain_of(s).len() == text_len(s),
    decreases s.len(),
{
    if s.len() > 0 {
        lemma_plain_len(s.drop_last());
        lemma_prefix_len_agree(s, s.drop_last(), (s.len() - 1) as nat);
    }
}

/// A number below `10^k` has at most `k` decimal digits.
pub proof fn lemma_decimal_len(n: nat, k: nat)
    requires
        k >= 1,
        n < pow10(k),
    ensures
        decimal(n).len() <= k,
    decreases k,
{
    if n >= 10 {
        assert(n / 10 < pow10((k - 1) as nat));
        if k > 1 {
            lemma_decimal_len(n / 10, (k - 1) as nat);
        }
    }
}

/// A text no wider than its field fills the field exactly.
pub proof fn lemma_center_len(s: Seq<char>, w: nat)
    requires
        s.len() <= w,
    ensures
        align_center(s, w).len() == w,
{
}

/// The payload length prints in at most fifteen characters when it is below `10^9`.
pub proof fn lemma_length_debug_len(pl: PayloadLength)
    requires
        pl.value() < 1_000_000_000,
    ensures
        length_debug(pl).len() <= 15,
{
    reveal_with_fuel(pow10, 10);
    match pl {
        PayloadLength::Short(n) => lemma_decimal_len(n as nat, 3),
        PayloadLength::Medium(n) => lemma_decimal_len(n as nat, 5),
        PayloadLength::Long(n) => lemma_decimal_len(n as nat, 9),
    }
    reveal_strlit("Short(");
    reveal_strlit("Medium(");
    reveal_strlit("Long(");
    reveal_strlit(")");
}

/// Every line of the header block holds 80 characters before its line break, for a
/// payload length below `10^9`.
pub proof fn lemma_header_widths(f: WebSocketFrame)
    requires
        f.payload_length.value() < 1_000_000_000,
    ensures
        text_len(header_line1(f.format_style)) == 81,
        text_len(header_line2(f.format_style)) == 81,
        text_len(header_line3(f.format_style, f.is_payload_masked)) == 81,
        text_len(header_line4(f.format_style, f.payload_length)) == 81,
        text_len(header_line5(f.format_style)) == 81,
{
    reveal_with_fuel(prefix_len, 25);
    lemma_length_debug_len(f.payload_length);
    reveal_strlit("+---------------+---------------+---------------+---------------+");
    reveal_strlit("Frame Data");
    reveal_strlit("Byte  1");
    reveal_strlit("Byte  2");
    reveal_strlit("Byte  3");
    reveal_strlit("Byte  4");
    reveal_strlit("(Masked)");
    reveal_strlit("(Unmasked)");
    reveal_strlit("0");
    reveal_strlit("1");
    reveal_strlit("2");
    reveal_strlit("3");
    reveal_strlit("0 1 2 3 4 5 6 7");
    reveal_strlit("8 9 0 1 2 3 4 5");
    reveal_strlit("6 7 8 9 0 1 2 3");
    reveal_strlit("4 5 6 7 8 9 0 1");
}

/// The diagram's short opcode labels fit the seven-column opcode cell.
pub proof fn lemma_short_label_len(op: WebSocketOpCode)
    ensures
        op.short_label().len() <= 7,
{
    reveal_strlit("Cont");
    reveal_strlit("Text");
    reveal_strlit("Binary");
    reveal_strlit("Close");
    reveal_strlit("Ping");
    reveal_strlit("Pong");
    reveal_strlit("Unknown");
    reveal_strlit("Rsrvd");
}

/// A byte value in parentheses takes at most five characters.
pub proof fn lemma_parenthesized_byte_len(b: u8)
    ensures
        parenthesized(b as nat).len() <= 5,
{
    reveal_with_fuel(pow10, 4);
    lemma_decimal_len(b as nat, 3);
}

/// The start of a row line is sixteen characters wide, for a title of at most seven.
pub proof fn lemma_row_start_len(st: FormatStyle, title: Seq<char>)
    requires
        title.len() <= 7,
    ensures
        text_len(row_start(st, title)) == 16,
        text_len(row_start_blank(st)) == 16,
        text_len(line_close(st)) == 2,
{
    reveal_with_fuel(prefix_len, 5);
}

proof fn lemma_first_row_borders(st: FormatStyle)
    ensures
        text_len(first_row_line0(st)) == 81,
        text_len(first_row_line6(st)) == 81,
{
    reveal_with_fuel(prefix_len, 4);
    reveal_strlit("+-------+---------------+---------------+---------------+---------------+");
    reveal_strlit("+-------+-+-+-+-+-------+-+-------------+-------------------------------+");
}

proof fn lemma_bit_fields_len(f: WebSocketFrame)
    ensures
        text_len(bit_fields(f.format_style, f.fin_bit, f.rsv1, f.rsv2, f.rsv3, f.opcode_bits,
            f.mask_bit, f.payload_length_code, crate::header::first_row_byte(f, 0),
            crate::header::first_row_byte(f, 1))) == 65,
{
    reveal_with_fuel(prefix_len, 20);
}

proof fn lemma_first_row_line1_len(f: WebSocketFrame)
    ensures
        text_len(first_row_line1(f)) == 81,
{
    broadcast use lemma_text_len_concat;
    reveal_strlit("DWORD");
    lemma_row_start_len(f.format_style, "DWORD"@);
    lemma_bit_fields_len(f);
}

proof fn lemma_second_line_fields_len(st: FormatStyle, op: Seq<char>, note: Seq<char>)
    requires
        op.len() <= 7,
        note.len() <= 13,
    ensures
        text_len(second_line_fields(st, op, note)) == 32,
{
    reveal_with_fuel(prefix_len, 19);
    reveal_strlit("F");
    reveal_strlit("R");
    reveal_strlit("M");
}

proof fn lemma_length_value_len(f: WebSocketFrame)
    requires
        f.wf(),
        f.payload_length.value() < 1_000_000_000,
    ensures
        length_note(f.payload_length).len() <= 13,
        text_len(first_row_length_value(f)) == 31,
{
    reveal_with_fuel(prefix_len, 4);
    reveal_with_fuel(pow10, 10);
    reveal_strlit(" bytes");
    reveal_strlit("126: Medium");
    reveal_strlit("127: Long");
    match f.payload_length {
        PayloadLength::Short(n) => lemma_decimal_len(n as nat, 3),
        _ => {
            lemma_parenthesized_byte_len(f.payload_length_bytes@[0]);
            lemma_parenthesized_byte_len(f.payload_length_bytes@[1]);
            lemma_decimal_len(f.payload_length.value(), 9);
        },
    }
}

proof fn lemma_first_row_line2_len(f: WebSocketFrame)
    requires
        f.wf(),
        f.payload_length.value() < 1_000_000_000,
    ensures
        text_len(first_row_line2(f)) == 81,
{
    broadcast use lemma_text_len_concat;
    reveal_strlit("1");
    lemma_row_start_len(f.format_style, "1"@);
    lemma_short_label_len(f.opcode);
    lemma_length_value_len(f);
    lemma_second_line_fields_len(f.format_style, f.opcode.short_label(), length_note(f.payload_length));
}

proof fn lemma_first_row_line3_len(f: WebSocketFrame)
    ensures
        text_len(first_row_line3(f)) == 81,
{
    broadcast use lemma_text_len_concat;
    lemma_row_start_len(f.format_style, Seq::empty());
    reveal_with_fuel(prefix_len, 19);
    reveal_strlit("I");
    reveal_strlit("S");
    reveal_strlit("A");
    reveal_strlit("op code");
    reveal_strlit("Payload len");
    reveal_strlit("Masking-key (part 1)");
    reveal_strlit("Payload length");
    reveal_strlit("Payload length (Part 1 of 4)");
    assert(first_row_note(f.payload_length).len() <= 31);
}

proof fn lemma_first_row_line4_len(st: FormatStyle)
    ensures
        text_len(first_row_line4(st)) == 81,
{
    broadcast use lemma_text_len_concat;
    lemma_row_start_len(st, Seq::empty());
    reveal_with_fuel(prefix_len, 19);
    reveal_strlit("N");
    reveal_strlit("V");
    reveal_strlit("S");
    reveal_strlit("(4 b)");
    reveal_strlit("(7 bits)");
    reveal_strlit("(16 bits)");
}

proof fn lemma_first_row_line5_len(st: FormatStyle)
    ensures
        text_len(first_row_line5(st)) == 81,
{
    broadcast use lemma_text_len_concat;
    lemma_row_start_len(st, Seq::empty());
    reveal_with_fuel(prefix_len, 19);
    reveal_strlit("1");
    reveal_strlit("2");
    reveal_strlit("3");
    reveal_strlit("K");
}

/// Every line of the first row holds 80 characters before its line break, for a
/// well-formed frame whose payload length is below `10^9`.
pub proof fn lemma_first_row_widths(f: WebSocketFrame)
    requires
        f.wf(),
        f.payload_length.value() < 1_000_000_000,
    ensures
        text_len(first_row_line0(f.format_style)) == 81,
        text_len(first_row_line1(f)) == 81,
        text_len(first_row_line2(f)) == 81,
        text_len(first_row_line3(f)) == 81,
        text_len(first_row_line4(f.format_style)) == 81,
        text_len(first_row_line5(f.format_style)) == 81,
        text_len(first_row_line6(f.format_style)) == 81,
{
    lemma_first_row_borders(f.format_style);
    lemma_first_row_line1_len(f);
    lemma_first_row_line2_len(f);
    lemma_first_row_line3_len(f);
    lemma_first_row_line4_len(f.format_style);
    lemma_first_row_line5_len(f.format_style);
}

proof fn lemma_folded_lens(st: FormatStyle, m: Seq<u8>, u: Seq<u8>, c: Seq<char>)
    requires
        m.len() >= 2,
        u.len() >= 2,
        c.len() >= 2,
    ensures
        text_len(folded_masked_values(st, m)) == 63,
        text_len(folded_unmasked_bits(st, u)) == 63,
        text_len(folded_unmasked_values(st, u, c)) == 63,
        text_len(empty_halves(st)) == 63,
{
    reveal_with_fuel(prefix_len, 14);
    lemma_parenthesized_byte_len(m[0]);
    lemma_parenthesized_byte_len(m[1]);
    lemma_parenthesized_byte_len(u[0]);
    lemma_parenthesized_byte_len(u[1]);
    reveal_strlit("MASKED");
    reveal_strlit("UNMASKED");
    reveal_strlit("Masking-key (part 2)");
    reveal_strlit("(16 bits)");
}

proof fn lemma_two_notes_len(st: FormatStyle, a: Seq<char>, b: Seq<char>)
    requires
        a.len() <= 31,
        b.len() <= 31,
    ensures
        text_len(two_notes(st, a, b)) == 63,
{
    reveal_with_fuel(prefix_len, 4);
}

proof fn lemma_second_row_line1_len(f: WebSocketFrame)
    requires
        f.wf(),
        f.masked_payload@.len() >= folded_bytes(f.payload_length),
    ensures
        text_len(second_row_line1(f)) == 81,
{
    broadcast use lemma_text_len_concat;
    reveal_strlit("DWORD");
    lemma_row_start_len(f.format_style, "DWORD"@);
    reveal_with_fuel(prefix_len, 10);
    assert(second_row_cell(f, 0).0.len() == 15);
    assert(second_row_cell(f, 1).0.len() == 15);
    assert(second_row_cell(f, 2).0.len() == 15);
    assert(second_row_cell(f, 3).0.len() == 15);
}

proof fn lemma_second_row_notes_len(f: WebSocketFrame)
    requires
        f.wf(),
        f.masked_payload@.len() >= folded_bytes(f.payload_length),
    ensures
        text_len(second_row_line2(f)) == 81,
        text_len(second_row_line3(f)) == 81,
        text_len(second_row_line4(f)) == 81,
        text_len(second_row_line5(f)) == 81,
{
    broadcast use lemma_text_len_concat;
    let st = f.format_style;
    reveal_strlit("2");
    lemma_row_start_len(st, "2"@);
    reveal_strlit("Masking-key (part 1)");
    reveal_strlit("Masking-key (part 2)");
    reveal_strlit("Payload length (part 2 of 4)");
    reveal_strlit("Payload length (part 3 of 4)");
    reveal_strlit("(16 bits)");
    reveal_strlit("Payload Data (part 1)");
    lemma_two_notes_len(st, "Masking-key (part 1)"@, "Masking-key (part 2)"@);
    lemma_two_notes_len(st, "Payload length (part 2 of 4)"@, "Payload length (part 3 of 4)"@);
    lemma_two_notes_len(st, "(16 bits)"@, "(16 bits)"@);
    reveal_with_fuel(prefix_len, 4);
    assert(text_len(empty_halves(st)) == 63);
    let tail = seq![
        crate::render::sp(31), bar(st), crate::render::col(align_center("Payload Data (part 1)"@, 31), st.notes_color),
    ];
    assert(text_len(tail) == 63);
    if f.payload_length is Short {
        lemma_folded_lens(st, f.masked_payload@, f.unmasked_payload@, f.payload_chars@);
    }
}

/// Every line of the second row holds 80 characters before its line break, for a
/// well-formed frame that has the payload bytes the header rows show.
pub proof fn lemma_second_row_widths(f: WebSocketFrame)
    requires
        f.wf(),
        f.masked_payload@.len() >= folded_bytes(f.payload_length),
    ensures
        text_len(second_row_line1(f)) == 81,
        text_len(second_row_line2(f)) == 81,
        text_len(second_row_line3(f)) == 81,
        text_len(second_row_line4(f)) == 81,
        text_len(second_row_line5(f)) == 81,
        text_len(second_row_border(f.format_style)) == 81,
{
    lemma_second_row_line1_len(f);
    lemma_second_row_notes_len(f);
    reveal_with_fuel(prefix_len, 4);
    reveal_strlit("+-------+-------------------------------+-------------------------------+");
}

proof fn lemma_third_row_bit_lines_len(f: WebSocketFrame)
    requires
        f.wf(),
        f.payload_length is Long,
        f.masked_payload@.len() >= 2,
    ensures
        text_len(third_row_line1(f)) == 81,
        text_len(third_row_line3(f)) == 81,
{
    broadcast use lemma_text_len_concat;
    reveal_strlit("DWORD");
    lemma_row_start_len(f.format_style, "DWORD"@);
    reveal_with_fuel(prefix_len, 10);
}

proof fn lemma_third_row_notes_len(st: FormatStyle)
    ensures
        text_len(third_row_line2(st)) == 81,
{
    broadcast use lemma_text_len_concat;
    reveal_strlit("3");
    lemma_row_start_len(st, "3"@);
    reveal_strlit("Payload length (part 4 of 4)");
    reveal_strlit("Masking-key (part 1)");
    lemma_two_notes_len(st, "Payload length (part 4 of 4)"@, "Masking-key (part 1)"@);
}

/// Every line of the long encoding's third row holds 80 characters before its line
/// break, for a well-formed frame with at least two payload bytes.
pub proof fn lemma_third_row_widths(f: WebSocketFrame)
    requires
        f.wf(),
        f.payload_length is Long,
        f.masked_payload@.len() >= 2,
    ensures
        text_len(third_row_line1(f)) == 81,
        text_len(third_row_line2(f.format_style)) == 81,
        text_len(third_row_line3(f)) == 81,
        text_len(row_start_blank(f.format_style) + folded_masked_values(f.format_style, f.masked_payload@)
            + line_close(f.format_style)) == 81,
        text_len(row_start_blank(f.format_style) + folded_unmasked_bits(f.format_style, f.unmasked_payload@)
            + line_close(f.format_style)) == 81,
        text_len(row_start_blank(f.format_style) + folded_unmasked_values(f.format_style,
            f.unmasked_payload@, f.payload_chars@) + line_close(f.format_style)) == 81,
{
    broadcast use lemma_text_len_concat;
    let st = f.format_style;
    lemma_third_row_bit_lines_len(f);
    lemma_third_row_notes_len(st);
    lemma_row_start_len(st, Seq::empty());
    lemma_folded_lens(st, f.masked_payload@, f.unmasked_payload@, f.payload_chars@);
}

/// The last line of the long encoding's third row holds 80 characters before its
/// line break.
pub proof fn lemma_third_row_label_width(st: FormatStyle)
    ensures
        text_len(row_start_blank(st) + seq![
            sp(31), bar(st), col(align_center("Payload Data (part 1)"@, 31), st.notes_color),
        ] + line_close(st)) == 81,
{
    broadcast use lemma_text_len_concat;
    lemma_row_start_len(st, Seq::empty());
    reveal_strlit("Payload Data (part 1)");
    reveal_with_fuel(prefix_len, 4);
}

proof fn lemma_bits_line_len(st: FormatStyle, bytes: Seq<u8>, c: Color)
    ensures
        text_len(bits_line(st, bytes, c)) == 16 * bytes.len(),
    decreases bytes.len(),
{
    broadcast use lemma_text_len_concat;
    if bytes.len() > 0 {
        lemma_bits_line_len(st, bytes.drop_last(), c);
        reveal_with_fuel(prefix_len, 3);
    }
}

proof fn lemma_values_len(st: FormatStyle, m: Seq<u8>, u: Seq<u8>, c: Seq<char>)
    requires
        1 <= m.len() <= 4,
        u.len() == m.len(),
        c.len() == m.len(),
    ensures
        text_len(masked_values(st, m)) == 16 * m.len(),
        text_len(unmasked_values(st, u, c)) == 16 * m.len(),
{
    broadcast use lemma_text_len_concat;
    reveal_with_fuel(prefix_len, 13);
    reveal_strlit("MASKED");
    reveal_strlit("MSK");
    reveal_strlit("UNMASKED");
    reveal_strlit("UNM");
    assert forall|i: int| 0 <= i < m.len() implies parenthesized(#[trigger] m[i] as nat).len() <= 5 by {
        lemma_parenthesized_byte_len(m[i]);
    }
    assert forall|i: int| 0 <= i < u.len() implies parenthesized(#[trigger] u[i] as nat).len() <= 5 by {
        lemma_parenthesized_byte_len(u[i]);
    }
    if m.len() >= 2 {
        assert(text_len(masked_pair(st, m[0], m[1])) == 32);
        assert(text_len(unmasked_pair(st, u[0], c[0], u[1], c[1])) == 32);
    }
    if m.len() == 4 {
        assert(text_len(masked_pair(st, m[2], m[3])) == 32);
        assert(text_len(unmasked_pair(st, u[2], c[2], u[3], c[3])) == 32);
    }
    if m.len() == 3 {
        assert(text_len(masked_single(st, m[2])) == 16);
        assert(text_len(unmasked_single(st, u[2], c[2])) == 16);
    }
    if m.len() == 1 {
        assert(text_len(masked_single(st, m[0])) == 16);
        assert(text_len(unmasked_single(st, u[0], c[0])) == 16);
    }
}

proof fn lemma_repeated_len(s: Seq<Span>, x: Span, k: nat)
    requires
        k <= s.len(),
        forall|i: int| 0 <= i < s.len() ==> s[i] == x,
    ensures
        prefix_len(s, k) == k * x.0.len(),
    decreases k,
{
    let w = x.0.len();
    if k > 0 {
        lemma_repeated_len(s, x, (k - 1) as nat);
        let j = (k - 1) as nat;
        assert(s[j as int] == x);
        assert(prefix_len(s, k) == prefix_len(s, j) + s[j as int].0.len());
        assert(j * w + w == k * w) by (nonlinear_arith)
            requires
                j + 1 == k,
        ;
    } else {
        assert(0 * w == 0) by (nonlinear_arith);
    }
}

proof fn lemma_row_border_len(st: FormatStyle, n: nat)
    ensures
        text_len(row_border(st, n)) == 16 + 16 * n + 1,
{
    broadcast use lemma_text_len_concat;
    reveal_strlit("+-------+");
    reveal_strlit("---------------+");
    let x = col("---------------+"@, st.border_color);
    let dashes = Seq::new(n, |i: int| col("---------------+"@, st.border_color));
    lemma_repeated_len(dashes, x, n);
    reveal_with_fuel(prefix_len, 3);
}

proof fn lemma_part_label_len(n: nat, part: nat)
    requires
        1 <= n <= 4,
        part < 10000,
    ensures
        part_label(n, part).len() <= 16 * n - 1,
{
    reveal_with_fuel(pow10, 5);
    lemma_decimal_len(part, 4);
    reveal_strlit("Payload pt ");
    reveal_strlit("Payload Data (part ");
    reveal_strlit(")");
}

proof fn lemma_row_bits_lines_len(f: WebSocketFrame, from: nat, to: nat)
    requires
        f.wf(),
        f.row_in_range(from, to),
    ensures
        text_len(row_start(f.format_style, "DWORD"@) + bits_line(
            f.format_style,
            f.masked_payload@.subrange(from as int, to as int),
            f.format_style.bit_color,
        ) + seq![nl()]) == 16 + 16 * (to - from) + 1,
        text_len(row_start_blank(f.format_style) + bits_line(
            f.format_style,
            f.unmasked_payload@.subrange(from as int, to as int),
            f.format_style.unmasked_payload_bit_color,
        ) + seq![nl()]) == 16 + 16 * (to - from) + 1,
{
    broadcast use lemma_text_len_concat;
    let st = f.format_style;
    reveal_strlit("DWORD");
    lemma_row_start_len(st, "DWORD"@);
    lemma_bits_line_len(st, f.masked_payload@.subrange(from as int, to as int), st.bit_color);
    lemma_bits_line_len(
        st,
        f.unmasked_payload@.subrange(from as int, to as int),
        st.unmasked_payload_bit_color,
    );
    reveal_with_fuel(prefix_len, 2);
}

proof fn lemma_row_values_lines_len(f: WebSocketFrame, from: nat, to: nat, dword: nat)
    requires
        f.wf(),
        f.row_in_range(from, to),
        dword < 10_000_000,
    ensures
        text_len(row_start(f.format_style, decimal(dword)) + masked_values(
            f.format_style,
            f.masked_payload@.subrange(from as int, to as int),
        ) + seq![nl()]) == 16 + 16 * (to - from) + 1,
        text_len(row_start_blank(f.format_style) + unmasked_values(
            f.format_style,
            f.unmasked_payload@.subrange(from as int, to as int),
            f.payload_chars@.subrange(from as int, to as int),
        ) + seq![nl()]) == 16 + 16 * (to - from) + 1,
{
    broadcast use lemma_text_len_concat;
    let st = f.format_style;
    reveal_with_fuel(pow10, 8);
    lemma_decimal_len(dword, 7);
    lemma_row_start_len(st, decimal(dword));
    lemma_values_len(
        st,
        f.masked_payload@.subrange(from as int, to as int),
        f.unmasked_payload@.subrange(from as int, to as int),
        f.payload_chars@.subrange(from as int, to as int),
    );
    reveal_with_fuel(prefix_len, 2);
}

proof fn lemma_row_label_line_len(st: FormatStyle, n: nat, part: nat)
    requires
        1 <= n <= 4,
        part < 10000,
    ensures
        text_len(row_start_blank(st) + seq![
            col(align_center(part_label(n, part), (16 * n - 1) as nat), st.notes_color),
            bar(st),
            nl(),
        ]) == 16 + 16 * n + 1,
{
    broadcast use lemma_text_len_concat;
    lemma_row_start_len(st, Seq::empty());
    lemma_part_label_len(n, part);
    reveal_with_fuel(prefix_len, 4);
}

/// Every line of the row group for payload bytes `from..to` (one to four bytes)
/// holds `16 + 16 * (to - from)` characters before its line break, 80 for a full
/// row, when the row number has at most seven digits and the label number at most
/// four. The row group is these six lines.
pub proof fn lemma_row_group_widths(f: WebSocketFrame, from: nat, to: nat, dword: nat, part: nat)
    requires
        f.wf(),
        f.row_in_range(from, to),
        dword < 10_000_000,
        part < 10000,
    ensures
        ({
            let st = f.format_style;
            let n = (to - from) as nat;
            let m = f.masked_payload@.subrange(from as int, to as int);
            let u = f.unmasked_payload@.subrange(from as int, to as int);
            let c = f.payload_chars@.subrange(from as int, to as int);
            let l1 = row_start(st, "DWORD"@) + bits_line(st, m, st.bit_color) + seq![nl()];
            let l2 = row_start(st, decimal(dword)) + masked_values(st, m) + seq![nl()];
            let l3 = row_start_blank(st) + bits_line(st, u, st.unmasked_payload_bit_color) + seq![nl()];
            let l4 = row_start_blank(st) + unmasked_values(st, u, c) + seq![nl()];
            let l5 = row_start_blank(st) + seq![
                col(align_center(part_label(n, part), (16 * n - 1) as nat), st.notes_color),
                bar(st),
                nl(),
            ];
            let l6 = row_border(st, n);
            &&& f.row_spans(from, to, dword, part) == l1 + l2 + l3 + l4 + l5 + l6
            &&& text_len(l1) == 16 + 16 * n + 1
            &&& text_len(l2) == 16 + 16 * n + 1
            &&& text_len(l3) == 16 + 16 * n + 1
            &&& text_len(l4) == 16 + 16 * n + 1
            &&& text_len(l5) == 16 + 16 * n + 1
            &&& text_len(l6) == 16 + 16 * n + 1
        }),
{
    lemma_row_bits_lines_len(f, from, to);
    lemma_row_values_lines_len(f, from, to, dword);
    lemma_row_label_line_len(f.format_style, (to - from) as nat, part);
    lemma_row_border_len(f.format_style, (to - from) as nat);
}

} // verus!
