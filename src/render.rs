use vstd::prelude::*;
use vstd::string::*;
use crate::bits::{bits_text, byte_str};
use crate::color::Color;
use crate::style::FormatStyle;
use crate::text::{
    align_right, aligned, parenthesized, pad, parenthesized_decimal, push_char, push_spaces,
    spaces, Align,
};

verus! {

/// A run of diagram text and the colour it is drawn in (`None`: uncoloured).
pub struct Cell {
    pub text: String,
    pub color: Option<Color>,
}

/// The mathematical content of a cell.
pub type Span = (Seq<char>, Option<Color>);

/// The content of each cell of `cells`.
pub open spec fn spans(cells: Seq<Cell>) -> Seq<Span> {
    Seq::new(cells.len(), |i: int| (cells[i].text@, cells[i].color))
}

/// The text of a sequence of spans, colours left out.
pub open spec fn plain_of(s: Seq<Span>) -> Seq<char>
    decreases s.len(),
{
    if s.len() == 0 {
        Seq::empty()
    } else {
        plain_of(s.drop_last()) + s.last().0
    }
}

/// `n` uncoloured spaces.
pub open spec fn sp(n: nat) -> Span {
    (spaces(n), None)
}

/// An uncoloured line break.
pub open spec fn nl() -> Span {
    (seq!['\n'], None)
}

/// `s` in colour `c`.
pub open spec fn col(s: Seq<char>, c: Color) -> Span {
    (s, Some(c))
}

/// A column separator.
pub open spec fn bar(st: FormatStyle) -> Span {
    col(seq!['|'], st.border_color)
}

/// `(n)` right-aligned in five columns, in the byte-value colour.
pub open spec fn value_cell(st: FormatStyle, n: u8) -> Span {
    col(align_right(parenthesized(n as nat), 5), st.byte_value_color)
}

/// A preview character in single quotes, in the data-value colour.
pub open spec fn char_cell(st: FormatStyle, c: char) -> Span {
    col(seq!['\'', c, '\''], st.data_value_color)
}

/// Appends a cell.
pub fn put(out: &mut Vec<Cell>, text: String, color: Option<Color>)
    ensures
        spans(final(out)@) == spans(old(out)@).push((text@, color)),
{
    let ghost t = text@;
    out.push(Cell { text, color });
    assert(spans(final(out)@) =~= spans(old(out)@).push((t, color)));
}

/// Appends a cell holding a copy of `text`.
pub fn put_str(out: &mut Vec<Cell>, text: &str, color: Option<Color>)
    ensures
        spans(final(out)@) == spans(old(out)@).push((text@, color)),
{
    put(out, String::from_str(text), color);
}

/// Appends `n` uncoloured spaces.
pub fn put_sp(out: &mut Vec<Cell>, n: usize)
    ensures
        spans(final(out)@) == spans(old(out)@).push(sp(n as nat)),
{
    let mut s = String::new();
    push_spaces(&mut s, n);
    assert(s@ =~= spaces(n as nat));
    put(out, s, None);
}

/// Appends a line break.
pub fn put_nl(out: &mut Vec<Cell>)
    ensures
        spans(final(out)@) == spans(old(out)@).push(nl()),
{
    let mut s = String::new();
    push_char(&mut s, '\n');
    assert(s@ =~= seq!['\n']);
    put(out, s, None);
}

/// Appends a column separator.
pub fn put_bar(out: &mut Vec<Cell>, st: &FormatStyle)
    ensures
        spans(final(out)@) == spans(old(out)@).push(bar(*st)),
{
    let mut s = String::new();
    push_char(&mut s, '|');
    assert(s@ =~= seq!['|']);
    put(out, s, Some(st.border_color));
}

/// Appends `text` laid out in `width` columns, in colour `c`.
pub fn put_aligned(out: &mut Vec<Cell>, text: &str, width: usize, align: Align, c: Color)
    ensures
        spans(final(out)@) == spans(old(out)@).push(col(aligned(text@, width as nat, align), c)),
{
    put(out, pad(text, width, align), Some(c));
}

/// Appends the last `num_bits` bits of `byte`, in colour `c`.
pub fn put_bits(out: &mut Vec<Cell>, byte: u8, num_bits: u8, c: Color)
    requires
        num_bits <= 8,
    ensures
        spans(final(out)@) == spans(old(out)@).push(col(bits_text(byte, num_bits as nat), c)),
{
    put(out, byte_str(byte, num_bits), Some(c));
}

/// Appends `(n)` right-aligned in five columns, in the byte-value colour.
pub fn put_value(out: &mut Vec<Cell>, st: &FormatStyle, n: u8)
    ensures
        spans(final(out)@) == spans(old(out)@).push(value_cell(*st, n)),
{
    let p = parenthesized_decimal(n as u64);
    put(out, pad(p.as_str(), 5, Align::Right), Some(st.byte_value_color));
}

/// Appends a preview character in single quotes, in the data-value colour.
pub fn put_char(out: &mut Vec<Cell>, st: &FormatStyle, c: char)
    ensures
        spans(final(out)@) == spans(old(out)@).push(char_cell(*st, c)),
{
    let mut s = String::new();
    push_char(&mut s, '\'');
    push_char(&mut s, c);
    push_char(&mut s, '\'');
    assert(s@ =~= seq!['\'', c, '\'']);
    put(out, s, Some(st.data_value_color));
}

/// The text of the cells, colours left out.
pub fn plain_text(cells: &Vec<Cell>) -> (r: String)
    ensures
        r@ == plain_of(spans(cells@)),
{
    let mut r = String::new();
    let mut i: usize = 0;
    while i < cells.len()
        invariant
            i <= cells@.len(),
            r@ == plain_of(spans(cells@.take(i as int))),
        decreases cells@.len() - i,
    {
        assert(spans(cells@.take(i + 1)).drop_last() =~= spans(cells@.take(i as int)));
        r.append(cells[i].text.as_str());
        i = i + 1;
    }
    assert(cells@.take(i as int) =~= cells@);
    r
}

} // verus!
